//! Record types for the subscriber store and the newsletter API.
//!
//! `User` is the row kept by the store; `NewUser` carries the data of a row
//! about to be inserted. `NewsletterUser` and `NewNewsletterUser` are their
//! counterparts at the newsletter API boundary. All four are abstracted by
//! the spec-level `Subscriber` record, so contracts about the store and the
//! service can be stated over one mathematical model.

use vstd::prelude::*;

verus! {

/// The mathematical model of a subscriber: an id, an email address and the
/// secret token that proves ownership of the subscription.
#[verifier::ext_equal]
pub struct Subscriber {
    pub id: int,
    pub email: Seq<char>,
    pub token: Seq<char>,
}

/// A subscriber row as the store keeps it.
#[derive(Debug)]
pub struct User {
    pub id: i32,
    pub email: String,
    pub token: String,
}

impl View for User {
    type V = Subscriber;

    open spec fn view(&self) -> Subscriber {
        Subscriber { id: self.id as int, email: self.email@, token: self.token@ }
    }
}

impl Clone for User {
    fn clone(&self) -> (r: Self)
        ensures
            r == *self,
    {
        User { id: self.id, email: self.email.clone(), token: self.token.clone() }
    }
}

impl User {
    /// Return the id
    pub fn id(&self) -> (r: &i32)
        ensures
            *r == self.id,
    {
        &self.id
    }

    /// Return the email
    pub fn email(&self) -> (r: &String)
        ensures
            r@ == self.email@,
    {
        &self.email
    }

    /// Return the token
    pub fn token(&self) -> (r: &String)
        ensures
            r@ == self.token@,
    {
        &self.token
    }
}

/// The data of a subscriber row about to be inserted: the store itself
/// assigns the id.
#[derive(Clone, Copy, Debug)]
pub struct NewUser<'a> {
    pub email: &'a str,
    pub token: &'a str,
}

impl<'a> NewUser<'a> {
    /// Return the email
    pub fn email(&self) -> (r: &'a str)
        ensures
            r@ == self.email@,
    {
        &self.email
    }

    /// Return the token
    pub fn token(&self) -> (r: &'a str)
        ensures
            r@ == self.token@,
    {
        &self.token
    }
}

/// Represents a user subscribed to the newsletter, as the newsletter API
/// returns it.
#[derive(Debug)]
pub struct NewsletterUser {
    pub id: i32,
    pub email: String,
    pub token: String,
}

impl View for NewsletterUser {
    type V = Subscriber;

    open spec fn view(&self) -> Subscriber {
        Subscriber { id: self.id as int, email: self.email@, token: self.token@ }
    }
}

impl Clone for NewsletterUser {
    fn clone(&self) -> (r: Self)
        ensures
            r == *self,
    {
        NewsletterUser { id: self.id, email: self.email.clone(), token: self.token.clone() }
    }
}

impl NewsletterUser {
    /// Return the user's id
    pub fn id(&self) -> (r: &i32)
        ensures
            *r == self.id,
    {
        &self.id
    }

    /// Return the user's email
    pub fn email(&self) -> (r: &str)
        ensures
            r@ == self.email@,
    {
        self.email.as_str()
    }

    /// Return the user's token
    pub fn token(&self) -> (r: &str)
        ensures
            r@ == self.token@,
    {
        self.token.as_str()
    }
}

/// The data a caller hands to the newsletter when subscribing an email:
/// the address and the freshly generated ownership token.
#[derive(Clone, Copy, Debug)]
pub struct NewNewsletterUser<'a> {
    pub email: &'a str,
    pub token: &'a str,
}

impl<'a> NewNewsletterUser<'a> {
    /// Return the user's email
    pub fn email(&self) -> (r: &'a str)
        ensures
            r@ == self.email@,
    {
        &self.email
    }

    /// Return the user's token
    pub fn token(&self) -> (r: &'a str)
        ensures
            r@ == self.token@,
    {
        &self.token
    }
}

/// The models of a sequence of store rows.
pub open spec fn user_models(rows: Seq<User>) -> Seq<Subscriber> {
    rows.map_values(|u: User| u@)
}

/// The models of a sequence of newsletter records.
pub open spec fn newsletter_user_models(rows: Seq<NewsletterUser>) -> Seq<Subscriber> {
    rows.map_values(|u: NewsletterUser| u@)
}

/// Compares two string slices by their characters.
pub(crate) fn str_eq(a: &str, b: &str) -> (r: bool)
    ensures
        r == (a@ == b@),
{
    let owned_a: String = a.to_owned();
    let owned_b: String = b.to_owned();
    owned_a == owned_b
}

} // verus!
