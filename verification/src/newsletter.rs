//! The newsletter service: the subscription lifecycle and the authorization
//! rules around it.
//!
//! The service owns the process-wide admin token, handed to it at
//! construction. Subscribing generates a fresh secret token, inserts the
//! email beside it and returns the stored record; unsubscribing demands that
//! token back; enumerating subscribers demands the admin token, checked
//! before any store access so an unauthorized caller learns nothing about
//! the store's contents.

use vstd::prelude::*;

use crate::api::{
    ApiError, STATUS_BAD_REQUEST, STATUS_FORBIDDEN, STATUS_INTERNAL_SERVER_ERROR, STATUS_NOT_FOUND,
};
use crate::db::{
    self, bumped, email_index, emails_unique, has_email, DbError, Store,
};
use crate::models::{newsletter_user_models, str_eq, user_models, NewNewsletterUser, NewsletterUser, Subscriber};

verus! {

/// A lowercase hexadecimal digit.
pub open spec fn is_lower_hex_digit(c: char) -> bool {
    ('0' <= c && c <= '9') || ('a' <= c && c <= 'f')
}

/// The canonical hyphenated rendering of a 128-bit identifier: 36 characters,
/// hyphens at the four fixed positions and lowercase hexadecimal digits
/// everywhere else.
pub open spec fn is_hyphenated_token(s: Seq<char>) -> bool {
    &&& s.len() == 36
    &&& s[8] == '-' && s[13] == '-' && s[18] == '-' && s[23] == '-'
    &&& forall|i: int|
        0 <= i < 36 && i != 8 && i != 13 && i != 18 && i != 23 ==> is_lower_hex_digit(#[trigger] s[i])
}

/// The newsletter service; it holds the admin token and nothing else — all
/// other state lives in the store.
#[derive(Debug)]
pub struct Newsletter {
    pub admin_token: String,
}

impl Clone for Newsletter {
    fn clone(&self) -> (r: Self)
        ensures
            r == *self,
    {
        Newsletter { admin_token: self.admin_token.clone() }
    }
}

impl Newsletter {
    #[inline]
    pub fn new(admin_token: String) -> (n: Newsletter)
        ensures
            n.admin_token@ == admin_token@,
    {
        Newsletter { admin_token }
    }

    #[inline]
    pub fn admin_token(&self) -> (r: &str)
        ensures
            r@ == self.admin_token@,
    {
        self.admin_token.as_str()
    }

    /// Relies on `uuid::Uuid::new_v4` and its hyphenated formatter: a fresh
    /// random identifier rendered as 36 characters — 32 lowercase
    /// hexadecimal digits with hyphens at positions 8, 13, 18 and 23.
    #[verifier::external_body]
    pub fn generate_token(&self) -> (r: String)
        ensures
            is_hyphenated_token(r@),
    {
        uuid::Uuid::new_v4().hyphenated().to_string()
    }

    /// Subscribes `email`: generates a fresh secret token, stores the pair
    /// and returns the stored record with its assigned id. Fails exactly
    /// when the email is already subscribed, with Conflict, leaving every
    /// stored record unchanged.
    pub fn add_user(&self, store: &mut Store, email: &str) -> (r: Result<
        NewsletterUser,
        (u16, ApiError),
    >)
        requires
            old(store).wf(),
            old(store).next_id < i32::MAX,
        ensures
            final(store).wf(),
            has_email(old(store)@, email@) ==> {
                &&& r matches Err(e) && e.0 == STATUS_BAD_REQUEST && e.1.error@
                    == "already_registered"@ && e.1.error_description@
                    == "the user is already registered"@
                &&& final(store)@ == old(store)@
                &&& final(store).next_id == old(store).next_id
            },
            !has_email(old(store)@, email@) ==> {
                &&& r matches Ok(u)
                &&& u@.email == email@
                &&& u@.id == old(store).next_id
                &&& is_hyphenated_token(u@.token)
                &&& final(store)@ == old(store)@.push(u@)
                &&& final(store).next_id == old(store).next_id + 1
            },
            final(store).accesses == bumped(old(store).accesses),
    {
        let token = self.generate_token();
        let new_user = NewNewsletterUser { email, token: token.as_str() };
        match db::create_user(store, new_user.email(), new_user.token()) {
            Ok(u) => Ok(NewsletterUser { id: u.id, email: u.email, token: u.token }),
            Err(_) => Err(
                (
                    STATUS_BAD_REQUEST,
                    ApiError::from("already_registered", "the user is already registered"),
                ),
            ),
        }
    }

    /// Unsubscribes `uemail`, provided `utoken` is the secret token the
    /// subscription was created with. An unknown email is answered NotFound
    /// — whatever token was presented — and a known email with a wrong token
    /// is answered Forbidden; either failure leaves every stored record
    /// intact.
    pub fn remove_user(&self, store: &mut Store, uemail: &str, utoken: &str) -> (r: Result<
        (),
        (u16, ApiError),
    >)
        requires
            old(store).wf(),
        ensures
            final(store).wf(),
            final(store).next_id == old(store).next_id,
            final(store).accesses == bumped(old(store).accesses),
            !has_email(old(store)@, uemail@) ==> {
                &&& r matches Err(e) && e.0 == STATUS_NOT_FOUND && e.1.error@ == "not_found"@
                    && e.1.error_description@ == "the email isn't registered in the newsletter"@
                &&& final(store)@ == old(store)@
            },
            has_email(old(store)@, uemail@) && old(store)@[email_index(
                old(store)@,
                uemail@,
            )].token != utoken@ ==> {
                &&& r matches Err(e) && e.0 == STATUS_FORBIDDEN && e.1.error@ == "forbidden"@
                    && e.1.error_description@ == "you are not authorized to remove this email"@
                &&& final(store)@ == old(store)@
            },
            has_email(old(store)@, uemail@) && old(store)@[email_index(
                old(store)@,
                uemail@,
            )].token == utoken@ ==> {
                &&& r matches Ok(())
                &&& final(store)@ == old(store)@.remove(email_index(old(store)@, uemail@))
            },
    {
        match db::delete_user(store, uemail, utoken) {
            Ok(_) => Ok(()),
            Err(DbError::NotFound) => Err(
                (
                    STATUS_NOT_FOUND,
                    ApiError::from("not_found", "the email isn't registered in the newsletter"),
                ),
            ),
            Err(DbError::Forbidden) => Err(
                (
                    STATUS_FORBIDDEN,
                    ApiError::from("forbidden", "you are not authorized to remove this email"),
                ),
            ),
            // any other store failure while deleting
            Err(_) => Err((STATUS_INTERNAL_SERVER_ERROR, ApiError::internal_error())),
        }
    }

    /// Lists every subscribed record, in insertion order, provided
    /// `presented_token` is the admin token. On a mismatch the caller is
    /// answered Forbidden before any store access: the store — its access
    /// count included — is left exactly as it was.
    pub fn users(&self, store: &mut Store, presented_token: &str) -> (r: Result<
        Vec<NewsletterUser>,
        (u16, ApiError),
    >)
        requires
            old(store).wf(),
        ensures
            final(store).wf(),
            final(store)@ == old(store)@,
            final(store).next_id == old(store).next_id,
            presented_token@ != self.admin_token@ ==> {
                &&& r matches Err(e) && e.0 == STATUS_FORBIDDEN && e.1.error@ == "forbidden"@
                    && e.1.error_description@ == "admin token is invalid"@
                &&& *final(store) == *old(store)
            },
            presented_token@ == self.admin_token@ ==> {
                &&& r matches Ok(v) && newsletter_user_models(v@) == old(store)@
                &&& final(store).accesses == bumped(old(store).accesses)
            },
    {
        if !str_eq(presented_token, self.admin_token.as_str()) {
            return Err((STATUS_FORBIDDEN, ApiError::from("forbidden", "admin token is invalid")));
        }
        match db::get_all_users(store) {
            Ok(rows) => {
                let n = rows.len();
                let mut out: Vec<NewsletterUser> = Vec::new();
                let mut i: usize = 0;
                while i < n
                    invariant
                        n == rows.len(),
                        i <= n,
                        out@.len() == i,
                        forall|k: int| 0 <= k < i ==> out@[k]@ == rows@[k]@,
                    decreases n - i,
                {
                    let row = rows[i].clone();
                    let converted = NewsletterUser {
                        id: row.id,
                        email: row.email,
                        token: row.token,
                    };
                    out.push(converted);
                    i = i + 1;
                }
                proof {
                    assert(newsletter_user_models(out@) =~= user_models(rows@));
                }
                Ok(out)
            },
            Err(_) => Err((STATUS_INTERNAL_SERVER_ERROR, ApiError::internal_error())),
        }
    }

    /// Returns the subscribed record for `uemail`, provided
    /// `presented_token` is the admin token. A mismatching admin token is
    /// answered Forbidden before any store access; an unknown email is
    /// answered NotFound.
    pub fn get_user(&self, store: &mut Store, presented_token: &str, uemail: &str) -> (r: Result<
        NewsletterUser,
        (u16, ApiError),
    >)
        requires
            old(store).wf(),
        ensures
            final(store).wf(),
            final(store)@ == old(store)@,
            final(store).next_id == old(store).next_id,
            presented_token@ != self.admin_token@ ==> {
                &&& r matches Err(e) && e.0 == STATUS_FORBIDDEN && e.1.error@ == "forbidden"@
                    && e.1.error_description@ == "admin token is invalid"@
                &&& *final(store) == *old(store)
            },
            presented_token@ == self.admin_token@ && has_email(old(store)@, uemail@) ==> {
                &&& r matches Ok(u) && u@ == old(store)@[email_index(old(store)@, uemail@)]
                &&& final(store).accesses == bumped(old(store).accesses)
            },
            presented_token@ == self.admin_token@ && !has_email(old(store)@, uemail@) ==> {
                &&& r matches Err(e) && e.0 == STATUS_NOT_FOUND && e.1.error@ == "not_found"@
                &&& final(store).accesses == bumped(old(store).accesses)
            },
    {
        if !str_eq(presented_token, self.admin_token.as_str()) {
            return Err((STATUS_FORBIDDEN, ApiError::from("forbidden", "admin token is invalid")));
        }
        match db::get_user(store, uemail) {
            Ok(u) => Ok(NewsletterUser { id: u.id, email: u.email, token: u.token }),
            Err(_) => Err(
                (STATUS_NOT_FOUND, ApiError::from("not_found", "the email isn't registered")),
            ),
        }
    }
}

/// Once a subscription is stored, it stays exactly as stored: after an add
/// appends the record `s`, its email is present — so by `add_user`'s
/// contract a second add of the same email is answered Conflict and changes
/// nothing — and the record a later lookup finds for that email is `s`
/// itself, id and token untouched.
pub proof fn lemma_added_record_persists(rows: Seq<Subscriber>, s: Subscriber)
    requires
        emails_unique(rows),
        !has_email(rows, s.email),
    ensures
        has_email(rows.push(s), s.email),
        emails_unique(rows.push(s)),
        email_index(rows.push(s), s.email) == rows.len(),
        rows.push(s)[email_index(rows.push(s), s.email)] == s,
{
    let grown = rows.push(s);
    assert(grown[rows.len() as int] == s);
    assert forall|i: int, j: int| 0 <= i < j < grown.len() implies grown[i].email
        != grown[j].email by {
        if j < rows.len() {
            assert(rows[i].email != rows[j].email);
        } else {
            assert(grown[j] == s);
            if grown[i].email == s.email {
                assert(rows[i].email == s.email);
                assert(has_email(rows, s.email));
            }
        }
    }
    db::lemma_email_index_is(grown, s.email, rows.len() as int);
}

/// A removal succeeds exactly once: deleting the row that carried `email`
/// leaves a store where that email is no longer present — so by
/// `remove_user`'s contract a repeated request with the same arguments is
/// answered NotFound, never Forbidden — and the remaining rows still carry
/// pairwise distinct emails.
pub proof fn lemma_remove_succeeds_exactly_once(rows: Seq<Subscriber>, email: Seq<char>)
    requires
        emails_unique(rows),
        has_email(rows, email),
    ensures
        !has_email(rows.remove(email_index(rows, email)), email),
        emails_unique(rows.remove(email_index(rows, email))),
{
    let i = email_index(rows, email);
    assert(0 <= i < rows.len() && rows[i].email == email);
    let shrunk = rows.remove(i);
    assert forall|k: int| 0 <= k < shrunk.len() implies shrunk[k].email != email by {
        let ok = if k < i {
            k
        } else {
            k + 1
        };
        assert(shrunk[k] == rows[ok]);
        if rows[ok].email == email {
            if ok < i {
                assert(rows[ok].email != rows[i].email);
            } else {
                assert(rows[i].email != rows[ok].email);
            }
        }
    }
    assert forall|a: int, b: int| 0 <= a < b < shrunk.len() implies shrunk[a].email
        != shrunk[b].email by {
        let oa = if a < i {
            a
        } else {
            a + 1
        };
        let ob = if b < i {
            b
        } else {
            b + 1
        };
        assert(shrunk[a] == rows[oa]);
        assert(shrunk[b] == rows[ob]);
    }
}

} // verus!
