//! The subscriber store and the business actions on it.
//!
//! `Store` is the persistence boundary of the service: a table of subscriber
//! rows with store-assigned, strictly increasing ids and pairwise distinct
//! emails. The actions mirror the minimal interface the newsletter needs:
//! create a row, look one up or delete one by email, and list them all.
//! Every action counts as one store access, so callers can state — and tests
//! can observe — that an operation never touched the store.

use vstd::prelude::*;

use crate::models::{str_eq, user_models, NewUser, Subscriber, User};

verus! {

/// Whether some row of `rows` carries `email`.
pub open spec fn has_email(rows: Seq<Subscriber>, email: Seq<char>) -> bool {
    exists|i: int| 0 <= i < rows.len() && rows[i].email == email
}

/// The index of the row of `rows` carrying `email`; meaningful only when
/// `has_email` holds and emails are pairwise distinct.
pub open spec fn email_index(rows: Seq<Subscriber>, email: Seq<char>) -> int {
    choose|i: int| 0 <= i < rows.len() && rows[i].email == email
}

/// No two rows carry the same email.
pub open spec fn emails_unique(rows: Seq<Subscriber>) -> bool {
    forall|i: int, j: int| 0 <= i < j < rows.len() ==> rows[i].email != rows[j].email
}

/// An access counter after one more store operation; it saturates instead of
/// wrapping around.
pub open spec fn bumped(c: u64) -> u64 {
    if c == u64::MAX {
        c
    } else {
        (c + 1) as u64
    }
}

/// Why a store action failed: the email was already present on an insert,
/// unknown on a lookup or a delete, or the presented token did not prove
/// ownership of the row to delete.
#[derive(Clone, Copy, Debug, PartialEq, Eq, Structural)]
pub enum DbError {
    Duplicate,
    NotFound,
    Forbidden,
}

/// The table of subscriber rows, together with the next id the store will
/// assign and a count of the store operations performed so far.
#[derive(Debug)]
pub struct Store {
    pub rows: Vec<User>,
    pub next_id: i32,
    pub accesses: u64,
}

impl View for Store {
    type V = Seq<Subscriber>;

    open spec fn view(&self) -> Seq<Subscriber> {
        user_models(self.rows@)
    }
}

impl Store {
    /// The store's invariant: emails are pairwise distinct, ids are positive,
    /// strictly increasing in insertion order, and below the next id to
    /// assign.
    pub open spec fn wf(self) -> bool {
        &&& emails_unique(self@)
        &&& forall|i: int, j: int| 0 <= i < j < self@.len() ==> self@[i].id < self@[j].id
        &&& forall|i: int| 0 <= i < self@.len() ==> 1 <= #[trigger] self@[i].id < self.next_id
        &&& 1 <= self.next_id
    }

    /// An empty store; the first row inserted receives id 1.
    pub fn new() -> (s: Store)
        ensures
            s.wf(),
            s@ == Seq::<Subscriber>::empty(),
            s.next_id == 1,
            s.accesses == 0,
    {
        let s = Store { rows: Vec::new(), next_id: 1, accesses: 0 };
        proof {
            assert(s@ =~= Seq::<Subscriber>::empty());
        }
        s
    }

    /// Records one more store operation.
    fn touch(&mut self)
        ensures
            final(self).rows == old(self).rows,
            final(self).next_id == old(self).next_id,
            final(self).accesses == bumped(old(self).accesses),
    {
        self.accesses = if self.accesses == u64::MAX {
            u64::MAX
        } else {
            self.accesses + 1
        };
    }
}

/// If some row at `i` carries `email` and emails are pairwise distinct, then
/// `i` is the row `email_index` names.
pub proof fn lemma_email_index_is(rows: Seq<Subscriber>, email: Seq<char>, i: int)
    requires
        emails_unique(rows),
        0 <= i < rows.len(),
        rows[i].email == email,
    ensures
        has_email(rows, email),
        email_index(rows, email) == i,
{
    assert(has_email(rows, email));
    let j = email_index(rows, email);
    assert(0 <= j < rows.len() && rows[j].email == email);
    if i < j {
        assert(rows[i].email != rows[j].email);
    } else if j < i {
        assert(rows[j].email != rows[i].email);
    }
}

/// Mapping rows to their models commutes with appending a row.
proof fn lemma_view_push(rows: Seq<User>, u: User)
    ensures
        user_models(rows.push(u)) =~= user_models(rows).push(u@),
{
}

/// Mapping rows to their models commutes with removing a row.
proof fn lemma_view_remove(rows: Seq<User>, i: int)
    requires
        0 <= i < rows.len(),
    ensures
        user_models(rows.remove(i)) =~= user_models(rows).remove(i),
{
}

/// The character for the decimal digit `d`.
pub open spec fn digit_char(d: int) -> char
    recommends
        0 <= d < 10,
{
    ((48 + d) as u8) as char
}

/// Relies on `rand::Rng::gen_range` over the half-open range below `bound`:
/// it returns a value of the range, and panics only when the range is empty.
#[verifier::external_body]
fn random_below(bound: u32) -> (r: u32)
    requires
        1 <= bound,
    ensures
        r < bound,
{
    rand::Rng::gen_range(&mut rand::thread_rng(), 0..bound)
}

/// Relies on `String::from_utf8`: bytes below 128 are valid UTF-8 and decode
/// to exactly those code points, one character per byte.
#[verifier::external_body]
fn ascii_to_string(bytes: Vec<u8>) -> (r: String)
    requires
        forall|i: int| 0 <= i < bytes@.len() ==> bytes@[i] < 128,
    ensures
        r@.len() == bytes@.len(),
        forall|i: int| 0 <= i < bytes@.len() ==> r@[i] == bytes@[i] as char,
{
    String::from_utf8(bytes).unwrap_or_default()
}

/// Renders a token from its two random draws: the letter picked among the
/// 25 from `A` up, followed by `number` zero-padded to six decimal digits.
pub fn format_token(letter: u32, number: u32) -> (r: String)
    requires
        letter < 25,
        number < 999_999,
    ensures
        r@.len() == 7,
        r@[0] == (((65 + letter) as u8) as char),
        r@[1] == digit_char(number as int / 100_000 % 10),
        r@[2] == digit_char(number as int / 10_000 % 10),
        r@[3] == digit_char(number as int / 1_000 % 10),
        r@[4] == digit_char(number as int / 100 % 10),
        r@[5] == digit_char(number as int / 10 % 10),
        r@[6] == digit_char(number as int % 10),
{
    let mut bytes: Vec<u8> = Vec::new();
    bytes.push(65 + (letter as u8));
    bytes.push(48 + ((number / 100_000) % 10) as u8);
    bytes.push(48 + ((number / 10_000) % 10) as u8);
    bytes.push(48 + ((number / 1_000) % 10) as u8);
    bytes.push(48 + ((number / 100) % 10) as u8);
    bytes.push(48 + ((number / 10) % 10) as u8);
    bytes.push(48 + (number % 10) as u8);
    ascii_to_string(bytes)
}

/// Return a random token: one letter followed by six decimal digits.
pub fn generate_token() -> (r: String)
    ensures
        r@.len() == 7,
        'A' <= r@[0] <= 'Y',
        forall|i: int| 1 <= i < 7 ==> '0' <= #[trigger] r@[i] <= '9',
{
    let letter = random_below(25);
    let number = random_below(999_999);
    format_token(letter, number)
}

/// Creates a subscriber row for `user_email`, protected by `user_token`, and
/// returns the row as the store keeps it, with its assigned id. Fails exactly
/// when the email is already present, leaving the store unchanged.
pub fn create_user(store: &mut Store, user_email: &str, user_token: &str) -> (r: Result<
    User,
    DbError,
>)
    requires
        old(store).wf(),
        old(store).next_id < i32::MAX,
    ensures
        final(store).wf(),
        final(store).accesses == bumped(old(store).accesses),
        has_email(old(store)@, user_email@) ==> {
            &&& r == Err::<User, DbError>(DbError::Duplicate)
            &&& final(store)@ == old(store)@
            &&& final(store).next_id == old(store).next_id
        },
        !has_email(old(store)@, user_email@) ==> {
            &&& r matches Ok(u) && u@ == (Subscriber {
                id: old(store).next_id as int,
                email: user_email@,
                token: user_token@,
            })
            &&& final(store)@ == old(store)@.push(
                Subscriber { id: old(store).next_id as int, email: user_email@, token: user_token@ },
            )
            &&& final(store).next_id == old(store).next_id + 1
        },
{
    store.touch();
    let n = store.rows.len();
    let mut i: usize = 0;
    while i < n
        invariant
            old(store).wf(),
            n == store.rows.len(),
            i <= n,
            store.rows == old(store).rows,
            store.next_id == old(store).next_id,
            store.accesses == bumped(old(store).accesses),
            forall|j: int| 0 <= j < i ==> store@[j].email != user_email@,
        decreases n - i,
    {
        if str_eq(store.rows[i].email.as_str(), user_email) {
            proof {
                assert(store@[i as int].email == user_email@);
            }
            return Err(DbError::Duplicate);
        }
        i = i + 1;
    }
    assert(!has_email(store@, user_email@));
    let new_user = NewUser { email: user_email, token: user_token };
    let row = User {
        id: store.next_id,
        email: new_user.email().to_owned(),
        token: new_user.token().to_owned(),
    };
    let ghost grow: User = row;
    let ghost model: Subscriber = row@;
    store.rows.push(row);
    store.next_id = store.next_id + 1;
    proof {
        lemma_view_push(old(store).rows@, grow);
        assert(store@ =~= old(store)@.push(model));
        assert forall|a: int, b: int| 0 <= a < b < store@.len() implies store@[a].email
            != store@[b].email by {
            if b < old(store)@.len() {
                assert(old(store)@[a].email != old(store)@[b].email);
            } else {
                assert(store@[b] == model);
                assert(old(store)@[a].email != user_email@);
            }
        }
    }
    // fetch the most-recently-inserted row back: the one with the highest id
    let last = store.rows.len() - 1;
    let fetched = store.rows[last].clone();
    Ok(fetched)
}

/// Finds the row carrying `user_email`, if any; the store is read but not
/// changed.
fn find_index(store: &Store, user_email: &str) -> (r: Option<usize>)
    requires
        store.wf(),
    ensures
        match r {
            Some(i) => {
                &&& has_email(store@, user_email@)
                &&& i < store@.len()
                &&& store@[i as int].email == user_email@
                &&& email_index(store@, user_email@) == i as int
            },
            None => !has_email(store@, user_email@),
        },
{
    let n = store.rows.len();
    let mut i: usize = 0;
    while i < n
        invariant
            store.wf(),
            n == store.rows.len(),
            i <= n,
            forall|j: int| 0 <= j < i ==> store@[j].email != user_email@,
        decreases n - i,
    {
        if str_eq(store.rows[i].email.as_str(), user_email) {
            proof {
                lemma_email_index_is(store@, user_email@, i as int);
            }
            return Some(i);
        }
        i = i + 1;
    }
    None
}

/// Deletes the row carrying `user_email` after checking that `user_token`
/// proves ownership of it, and returns how many rows were deleted. Fails
/// with `NotFound` when the email is unknown — whatever token was presented —
/// and with `Forbidden` when the email is present but the token differs from
/// the stored one; either failure leaves the store unchanged.
pub fn delete_user(store: &mut Store, user_email: &str, user_token: &str) -> (r: Result<
    usize,
    DbError,
>)
    requires
        old(store).wf(),
    ensures
        final(store).wf(),
        final(store).next_id == old(store).next_id,
        final(store).accesses == bumped(old(store).accesses),
        !has_email(old(store)@, user_email@) ==> {
            &&& r == Err::<usize, DbError>(DbError::NotFound)
            &&& final(store)@ == old(store)@
        },
        has_email(old(store)@, user_email@) && old(store)@[email_index(
            old(store)@,
            user_email@,
        )].token != user_token@ ==> {
            &&& r == Err::<usize, DbError>(DbError::Forbidden)
            &&& final(store)@ == old(store)@
        },
        has_email(old(store)@, user_email@) && old(store)@[email_index(
            old(store)@,
            user_email@,
        )].token == user_token@ ==> {
            &&& r == Ok::<usize, DbError>(1)
            &&& final(store)@ == old(store)@.remove(email_index(old(store)@, user_email@))
        },
{
    store.touch();
    let found = find_index(store, user_email);
    match found {
        None => Err(DbError::NotFound),
        Some(i) => {
            if !str_eq(store.rows[i].token.as_str(), user_token) {
                return Err(DbError::Forbidden);
            }
            let ghost rows_before = store.rows@;
            let _removed = store.rows.remove(i);
            proof {
                lemma_view_remove(rows_before, i as int);
                assert(store@ =~= old(store)@.remove(i as int));
                assert forall|a: int, b: int| 0 <= a < b < store@.len() implies store@[a].email
                    != store@[b].email && store@[a].id < store@[b].id by {
                    let oa = if a < i as int {
                        a
                    } else {
                        a + 1
                    };
                    let ob = if b < i as int {
                        b
                    } else {
                        b + 1
                    };
                    assert(store@[a] == old(store)@[oa]);
                    assert(store@[b] == old(store)@[ob]);
                }
            }
            Ok(1)
        },
    }
}

/// Returns every row of the store, in insertion order; the store contents
/// are unchanged.
pub fn get_all_users(store: &mut Store) -> (r: Result<Vec<User>, DbError>)
    requires
        old(store).wf(),
    ensures
        final(store).wf(),
        final(store)@ == old(store)@,
        final(store).next_id == old(store).next_id,
        final(store).accesses == bumped(old(store).accesses),
        r matches Ok(v) && user_models(v@) == old(store)@,
{
    store.touch();
    let n = store.rows.len();
    let mut out: Vec<User> = Vec::new();
    let mut i: usize = 0;
    while i < n
        invariant
            n == store.rows.len(),
            i <= n,
            store.rows == old(store).rows,
            store.next_id == old(store).next_id,
            store.accesses == bumped(old(store).accesses),
            user_models(out@) =~= store@.take(i as int),
        decreases n - i,
    {
        let ghost out_before = out@;
        let row = store.rows[i].clone();
        out.push(row);
        i = i + 1;
        proof {
            lemma_view_push(out_before, row);
            assert(user_models(out@) =~= store@.take(i as int));
        }
    }
    proof {
        assert(store@.take(n as int) =~= store@);
    }
    Ok(out)
}

/// Returns the row carrying `user_email`, or `NotFound` when no row does;
/// the store contents are unchanged.
pub fn get_user(store: &mut Store, user_email: &str) -> (r: Result<User, DbError>)
    requires
        old(store).wf(),
    ensures
        final(store).wf(),
        final(store)@ == old(store)@,
        final(store).next_id == old(store).next_id,
        final(store).accesses == bumped(old(store).accesses),
        has_email(old(store)@, user_email@) ==> (r matches Ok(u) && u@ == old(store)@[email_index(
            old(store)@,
            user_email@,
        )]),
        !has_email(old(store)@, user_email@) ==> r == Err::<User, DbError>(DbError::NotFound),
{
    store.touch();
    let found = find_index(store, user_email);
    match found {
        None => Err(DbError::NotFound),
        Some(i) => Ok(store.rows[i].clone()),
    }
}

} // verus!
