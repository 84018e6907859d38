use newsletter::api::{ApiError, ApiResult, AdminToken};
use newsletter::db;
use newsletter::db::{DbError, Store};
use newsletter::models::NewsletterUser;
use newsletter::newsletter::Newsletter;
use newsletter::routes;

fn service() -> Newsletter {
    Newsletter::new(String::from("admin-secret"))
}

fn looks_like_uuid(token: &str) -> bool {
    token.len() == 36
        && token.chars().enumerate().all(|(i, c)| match i {
            8 | 13 | 18 | 23 => c == '-',
            _ => c.is_ascii_hexdigit() && !c.is_ascii_uppercase(),
        })
}

#[test]
fn add_fresh_email_succeeds() {
    let n = service();
    let mut store = Store::new();
    let user = n.add_user(&mut store, "a@x.com").expect("fresh email must subscribe");
    assert_eq!(user.email(), "a@x.com");
    assert!(!user.token().is_empty());
    assert_eq!(*user.id(), 1);
}

#[test]
fn added_token_is_a_hyphenated_uuid() {
    let n = service();
    let mut store = Store::new();
    let user = n.add_user(&mut store, "a@x.com").unwrap();
    assert!(looks_like_uuid(user.token()));
}

#[test]
fn generate_token_is_a_hyphenated_uuid() {
    let n = service();
    let one = n.generate_token();
    let two = n.generate_token();
    assert!(looks_like_uuid(&one));
    assert!(looks_like_uuid(&two));
    assert_ne!(one, two);
}

#[test]
fn second_add_conflicts_and_preserves_the_record() {
    let n = service();
    let mut store = Store::new();
    let first = n.add_user(&mut store, "a@x.com").unwrap();
    let err = n.add_user(&mut store, "a@x.com").expect_err("duplicate must conflict");
    assert_eq!(err.0, 400);
    assert_eq!(err.1.error, "already_registered");
    assert_eq!(err.1.error_description, "the user is already registered");
    // the existing record is unchanged on a subsequent lookup
    let looked_up = n.get_user(&mut store, "admin-secret", "a@x.com").unwrap();
    assert_eq!(looked_up.id(), first.id());
    assert_eq!(looked_up.email(), first.email());
    assert_eq!(looked_up.token(), first.token());
}

#[test]
fn remove_succeeds_exactly_once() {
    let n = service();
    let mut store = Store::new();
    let user = n.add_user(&mut store, "a@x.com").unwrap();
    let token = user.token().to_string();
    assert!(n.remove_user(&mut store, "a@x.com", &token).is_ok());
    let again = n.remove_user(&mut store, "a@x.com", &token).expect_err("already removed");
    assert_eq!(again.0, 404);
    assert_eq!(again.1.error, "not_found");
}

#[test]
fn remove_with_wrong_token_is_forbidden_and_keeps_the_record() {
    let n = service();
    let mut store = Store::new();
    let user = n.add_user(&mut store, "a@x.com").unwrap();
    let err = n
        .remove_user(&mut store, "a@x.com", "00000000-0000-0000-0000-000000000000")
        .expect_err("wrong token must be rejected");
    assert_eq!(err.0, 403);
    assert_eq!(err.1.error, "forbidden");
    assert_eq!(err.1.error_description, "you are not authorized to remove this email");
    // the record is intact
    let looked_up = n.get_user(&mut store, "admin-secret", "a@x.com").unwrap();
    assert_eq!(looked_up.token(), user.token());
}

#[test]
fn remove_unknown_email_is_not_found_never_forbidden() {
    let n = service();
    let mut store = Store::new();
    let err = n.remove_user(&mut store, "nobody@x.com", "anything").unwrap_err();
    assert_eq!(err.0, 404);
    assert_eq!(err.1.error, "not_found");
    assert_eq!(err.1.error_description, "the email isn't registered in the newsletter");
    // even alongside other subscribers
    n.add_user(&mut store, "a@x.com").unwrap();
    let err = n.remove_user(&mut store, "nobody@x.com", "").unwrap_err();
    assert_eq!(err.0, 404);
    assert_eq!(err.1.error, "not_found");
}

#[test]
fn list_with_wrong_admin_token_is_forbidden_without_store_access() {
    let n = service();
    let mut store = Store::new();
    n.add_user(&mut store, "a@x.com").unwrap();
    n.add_user(&mut store, "b@x.com").unwrap();
    let accesses_before = store.accesses;
    let err = n.users(&mut store, "admin-wrong").expect_err("wrong admin token");
    assert_eq!(err.0, 403);
    assert_eq!(err.1.error, "forbidden");
    assert_eq!(err.1.error_description, "admin token is invalid");
    // the store records invocations; none happened
    assert_eq!(store.accesses, accesses_before);
    // and a correct listing does touch the store
    assert!(n.users(&mut store, "admin-secret").is_ok());
    assert_eq!(store.accesses, accesses_before + 1);
}

#[test]
fn list_with_correct_admin_token_returns_exactly_the_subscribers() {
    let n = service();
    let mut store = Store::new();
    let a = n.add_user(&mut store, "a@x.com").unwrap();
    let b = n.add_user(&mut store, "b@x.com").unwrap();
    let c = n.add_user(&mut store, "c@x.com").unwrap();
    let token_b = b.token().to_string();
    n.remove_user(&mut store, "b@x.com", &token_b).unwrap();
    let listed = n.users(&mut store, "admin-secret").unwrap();
    let mut got: Vec<(i32, String, String)> = listed
        .iter()
        .map(|u| (*u.id(), u.email().to_string(), u.token().to_string()))
        .collect();
    let mut expected: Vec<(i32, String, String)> = [&a, &c]
        .iter()
        .map(|u| (*u.id(), u.email().to_string(), u.token().to_string()))
        .collect();
    got.sort();
    expected.sort();
    assert_eq!(got, expected);
}

#[test]
fn listing_an_empty_store_returns_an_empty_list() {
    let n = service();
    let mut store = Store::new();
    let listed = n.users(&mut store, "admin-secret").unwrap();
    assert!(listed.is_empty());
}

#[test]
fn subscription_lifecycle_scenario() {
    let n = service();
    let mut store = Store::new();
    // add
    let user = n.add_user(&mut store, "a@x.com").unwrap();
    assert_eq!(*user.id(), 1);
    assert_eq!(user.email(), "a@x.com");
    assert!(looks_like_uuid(user.token()));
    // add again
    let conflict = n.add_user(&mut store, "a@x.com").unwrap_err();
    assert_eq!(conflict.0, 400);
    assert_eq!(conflict.1.error, "already_registered");
    // remove with the correct token
    let token = user.token().to_string();
    assert_eq!(n.remove_user(&mut store, "a@x.com", &token), Ok(()));
    // remove again
    let gone = n.remove_user(&mut store, "a@x.com", &token).unwrap_err();
    assert_eq!(gone.0, 404);
    assert_eq!(gone.1.error, "not_found");
}

#[test]
fn ids_keep_increasing_after_removals() {
    let n = service();
    let mut store = Store::new();
    let a = n.add_user(&mut store, "a@x.com").unwrap();
    let token_a = a.token().to_string();
    n.remove_user(&mut store, "a@x.com", &token_a).unwrap();
    let b = n.add_user(&mut store, "b@x.com").unwrap();
    assert_eq!(*a.id(), 1);
    assert_eq!(*b.id(), 2);
}

#[test]
fn admin_get_user_checks_the_token_first() {
    let n = service();
    let mut store = Store::new();
    n.add_user(&mut store, "a@x.com").unwrap();
    let accesses_before = store.accesses;
    let err = n.get_user(&mut store, "wrong", "a@x.com").unwrap_err();
    assert_eq!(err.0, 403);
    assert_eq!(store.accesses, accesses_before);
    let missing = n.get_user(&mut store, "admin-secret", "b@x.com").unwrap_err();
    assert_eq!(missing.0, 404);
    assert_eq!(missing.1.error, "not_found");
    let found = n.get_user(&mut store, "admin-secret", "a@x.com").unwrap();
    assert_eq!(found.email(), "a@x.com");
}

#[test]
fn db_create_user_assigns_ids_and_rejects_duplicates() {
    let mut store = Store::new();
    assert_eq!(store.next_id, 1);
    assert_eq!(store.accesses, 0);
    let u = db::create_user(&mut store, "a@x.com", "tok-1").unwrap();
    assert_eq!(*u.id(), 1);
    assert_eq!(u.email(), "a@x.com");
    assert_eq!(u.token(), "tok-1");
    assert_eq!(store.next_id, 2);
    let dup = db::create_user(&mut store, "a@x.com", "tok-2").unwrap_err();
    assert_eq!(dup, DbError::Duplicate);
}

#[test]
fn db_delete_user_distinguishes_its_failures() {
    let mut store = Store::new();
    db::create_user(&mut store, "a@x.com", "tok-1").unwrap();
    assert_eq!(db::delete_user(&mut store, "b@x.com", "tok-1"), Err(DbError::NotFound));
    assert_eq!(db::delete_user(&mut store, "a@x.com", "tok-2"), Err(DbError::Forbidden));
    assert_eq!(db::delete_user(&mut store, "a@x.com", "tok-1"), Ok(1));
    assert_eq!(db::delete_user(&mut store, "a@x.com", "tok-1"), Err(DbError::NotFound));
}

#[test]
fn db_get_all_users_lists_in_insertion_order() {
    let mut store = Store::new();
    db::create_user(&mut store, "a@x.com", "tok-1").unwrap();
    db::create_user(&mut store, "b@x.com", "tok-2").unwrap();
    let all = db::get_all_users(&mut store).unwrap();
    let emails: Vec<&str> = all.iter().map(|u| u.email().as_str()).collect();
    assert_eq!(emails, ["a@x.com", "b@x.com"]);
    assert_eq!(db::get_user(&mut store, "b@x.com").unwrap().token(), "tok-2");
    assert_eq!(db::get_user(&mut store, "c@x.com").unwrap_err(), DbError::NotFound);
}

#[test]
fn db_generate_token_is_a_letter_and_six_digits() {
    for _ in 0..64 {
        let token = db::generate_token();
        assert_eq!(token.len(), 7);
        let first = token.chars().next().unwrap();
        assert!(('A'..='Y').contains(&first), "unexpected letter in {token}");
        assert!(token.chars().skip(1).all(|c| c.is_ascii_digit()), "bad digits in {token}");
    }
}

#[test]
fn format_token_pads_to_six_digits() {
    assert_eq!(db::format_token(0, 42), "A000042");
    assert_eq!(db::format_token(24, 998_765), "Y998765");
    assert_eq!(db::format_token(7, 0), "H000000");
}

#[test]
fn api_error_construction() {
    let e = ApiError::from("not_found", "missing");
    assert_eq!(e.error, "not_found");
    assert_eq!(e.error_description, "missing");
    assert_eq!(ApiError::internal_error(), ApiError::from("internal_error", "the operation failed"));
    assert_ne!(e, ApiError::internal_error());
}

#[test]
fn api_result_keeps_code_and_content() {
    let ok: ApiResult<u32, ApiError> = ApiResult::success(200, 7);
    assert_eq!(ok.code, 200);
    assert_eq!(ok.content, Ok(7));
    let err: ApiResult<u32, ApiError> = ApiResult::error(500, ApiError::internal_error());
    assert_eq!(err.code, 500);
    assert_eq!(err.content.unwrap_err().error, "internal_error");
}

#[test]
fn append_newline_appends_exactly_one() {
    assert_eq!(newsletter::api::append_newline(String::from("{}")), "{}\n");
    assert_eq!(newsletter::api::append_newline(String::new()), "\n");
}

#[test]
fn route_add_maps_outcomes_to_codes() {
    let n = service();
    let mut store = Store::new();
    let created: ApiResult<NewsletterUser, ApiError> = routes::add(&n, &mut store, "a@x.com");
    assert_eq!(created.code, 201);
    assert_eq!(created.content.unwrap().email(), "a@x.com");
    let conflict = routes::add(&n, &mut store, "a@x.com");
    assert_eq!(conflict.code, 400);
    assert_eq!(conflict.content.unwrap_err().error, "already_registered");
}

#[test]
fn route_remove_maps_outcomes_to_codes() {
    let n = service();
    let mut store = Store::new();
    let user = n.add_user(&mut store, "a@x.com").unwrap();
    let token = user.token().to_string();
    let missing = routes::remove(&n, &mut store, "b@x.com", &token);
    assert_eq!(missing.code, 404);
    let forbidden = routes::remove(&n, &mut store, "a@x.com", "nope");
    assert_eq!(forbidden.code, 403);
    let removed = routes::remove(&n, &mut store, "a@x.com", &token);
    assert_eq!(removed.code, 200);
    assert_eq!(removed.content, Ok(()));
}

#[test]
fn route_dump_requires_the_admin_token() {
    let n = service();
    let mut store = Store::new();
    n.add_user(&mut store, "a@x.com").unwrap();
    let refused = routes::dump(&n, &mut store, &AdminToken(String::from("wrong")));
    assert_eq!(refused.code, 403);
    assert_eq!(refused.content.unwrap_err().error_description, "admin token is invalid");
    let listed = routes::dump(&n, &mut store, &AdminToken(String::from("admin-secret")));
    assert_eq!(listed.code, 200);
    assert_eq!(listed.content.unwrap().len(), 1);
}

#[test]
fn extract_filename_cuts_at_the_first_dot() {
    assert_eq!(routes::extract_filename("index.html.hbs"), Some(String::from("index")));
    assert_eq!(routes::extract_filename("front/logo"), Some(String::from("front/logo")));
    assert_eq!(routes::extract_filename(".hidden"), Some(String::from("")));
    assert_eq!(routes::extract_filename(""), Some(String::from("")));
}
