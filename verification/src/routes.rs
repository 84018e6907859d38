//! The newsletter endpoints' handlers: each one calls a service operation
//! and wraps the typed outcome in the `ApiResult` envelope the transport
//! layer renders, with the status code the API promises.

use vstd::prelude::*;

use crate::api::{
    AdminToken, ApiError, ApiResult, STATUS_BAD_REQUEST, STATUS_CREATED, STATUS_FORBIDDEN,
    STATUS_NOT_FOUND, STATUS_OK,
};
use crate::db::{bumped, email_index, has_email, Store};
use crate::models::{newsletter_user_models, NewsletterUser};
use crate::newsletter::{is_hyphenated_token, Newsletter};

verus! {

/// Adds an email to the newsletter: 201 with the stored record, or 400 when
/// the email is already registered.
pub fn add(newsletter: &Newsletter, store: &mut Store, email: &str) -> (r: ApiResult<
    NewsletterUser,
    ApiError,
>)
    requires
        old(store).wf(),
        old(store).next_id < i32::MAX,
    ensures
        final(store).wf(),
        has_email(old(store)@, email@) ==> {
            &&& r.code == STATUS_BAD_REQUEST
            &&& r.content matches Err(e) && e.error@ == "already_registered"@
                && e.error_description@ == "the user is already registered"@
            &&& final(store)@ == old(store)@
        },
        !has_email(old(store)@, email@) ==> {
            &&& r.code == STATUS_CREATED
            &&& r.content matches Ok(u) && u@.email == email@ && u@.id == old(store).next_id
                && is_hyphenated_token(u@.token)
            &&& (r.content matches Ok(u) && final(store)@ == old(store)@.push(u@))
        },
{
    match newsletter.add_user(store, email) {
        Ok(user) => ApiResult::success(STATUS_CREATED, user),
        Err((code, error)) => ApiResult::error(code, error),
    }
}

/// Removes an email of the newsletter: 200 with an empty body, 404 when the
/// email is unknown, or 403 when the presented token does not prove
/// ownership.
pub fn remove(newsletter: &Newsletter, store: &mut Store, email: &str, token: &str) -> (r:
    ApiResult<(), ApiError>)
    requires
        old(store).wf(),
    ensures
        final(store).wf(),
        !has_email(old(store)@, email@) ==> {
            &&& r.code == STATUS_NOT_FOUND
            &&& r.content matches Err(e) && e.error@ == "not_found"@
            &&& final(store)@ == old(store)@
        },
        has_email(old(store)@, email@) && old(store)@[email_index(old(store)@, email@)].token
            != token@ ==> {
            &&& r.code == STATUS_FORBIDDEN
            &&& r.content matches Err(e) && e.error@ == "forbidden"@
            &&& final(store)@ == old(store)@
        },
        has_email(old(store)@, email@) && old(store)@[email_index(old(store)@, email@)].token
            == token@ ==> {
            &&& r.code == STATUS_OK
            &&& r.content matches Ok(())
            &&& final(store)@ == old(store)@.remove(email_index(old(store)@, email@))
        },
{
    match newsletter.remove_user(store, email, token) {
        Ok(_) => ApiResult::success(STATUS_OK, ()),
        Err((code, error)) => ApiResult::error(code, error),
    }
}

/// Dumps all users registered to the newsletter: 200 with every stored
/// record, or 403 — before any store access — when the presented admin token
/// is invalid.
pub fn dump(newsletter: &Newsletter, store: &mut Store, admin_token: &AdminToken) -> (r: ApiResult<
    Vec<NewsletterUser>,
    ApiError,
>)
    requires
        old(store).wf(),
    ensures
        final(store).wf(),
        final(store)@ == old(store)@,
        admin_token.0@ != newsletter.admin_token@ ==> {
            &&& r.code == STATUS_FORBIDDEN
            &&& r.content matches Err(e) && e.error@ == "forbidden"@ && e.error_description@
                == "admin token is invalid"@
            &&& *final(store) == *old(store)
        },
        admin_token.0@ == newsletter.admin_token@ ==> {
            &&& r.code == STATUS_OK
            &&& r.content matches Ok(v) && newsletter_user_models(v@) == old(store)@
            &&& final(store).accesses == bumped(old(store).accesses)
        },
{
    match newsletter.users(store, admin_token.0.as_str()) {
        Ok(users) => ApiResult::success(STATUS_OK, users),
        Err((code, error)) => ApiResult::error(code, error),
    }
}

/// The index of the first `.` of `path`, or its length when it has none.
fn find_dot(path: &str) -> (r: usize)
    ensures
        r <= path@.len(),
        forall|j: int| 0 <= j < r ==> path@[j] != '.',
        r < path@.len() ==> path@[r as int] == '.',
{
    let n = path.unicode_len();
    let mut i: usize = 0;
    while i < n
        invariant
            n == path@.len(),
            i <= n,
            forall|j: int| 0 <= j < i ==> path@[j] != '.',
        decreases n - i,
    {
        if path.get_char(i) == '.' {
            return i;
        }
        i = i + 1;
    }
    n
}

/// Return filename without any extension: the longest prefix of `path` that
/// holds no `.`.
pub fn extract_filename(path: &str) -> (r: Option<String>)
    ensures
        r is Some,
        r matches Some(s) ==> {
            &&& s@.len() <= path@.len()
            &&& s@ == path@.subrange(0, s@.len() as int)
            &&& forall|i: int| 0 <= i < s@.len() ==> path@[i] != '.'
            &&& s@.len() == path@.len() || path@[s@.len() as int] == '.'
        },
{
    let cut = find_dot(path);
    let prefix = path.substring_char(0, cut);
    Some(prefix.to_owned())
}

} // verus!
