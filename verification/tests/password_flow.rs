use rockpass::errors::ApiError;
use rockpass::models::digits_or_numbers;
use rockpass::models::default_version;
use rockpass::models::NewPassword;
use rockpass::models::NewUser;
use rockpass::models::AuthorizedUser;
use rockpass::routes::delete_passwords_id;
use rockpass::routes::get_passwords;
use rockpass::routes::get_passwords_id;
use rockpass::routes::post_auth_users;
use rockpass::routes::post_passwords;
use rockpass::routes::put_passwords_id;
use rockpass::store::Store;
use rockpass::RockpassConfig;

fn sample_store() -> (Store, AuthorizedUser) {
    let mut store = Store::new();
    let config = RockpassConfig::default();
    let user = NewUser { email: "test@sample".to_string(), password: "test".to_string() };
    post_auth_users(&mut store, &config, &user).unwrap();
    let stored = &store.users[0];
    let au = AuthorizedUser {
        id: stored.id,
        email: stored.email.clone(),
        password: stored.password.clone(),
        token_id: 0,
    };
    (store, au)
}

fn entry(login: &str, site: &str, counter: i32, length: i32) -> NewPassword {
    NewPassword {
        login: login.to_string(),
        site: site.to_string(),
        uppercase: true,
        symbols: false,
        lowercase: true,
        numbers: true,
        counter,
        version: 2,
        length,
    }
}

#[test]
fn created_entry_reads_back_field_for_field() {
    let (mut store, au) = sample_store();
    let np = entry("alice@sample", "sample.site", 1, 16);
    let created = post_passwords(&mut store, &au, &np, 500).unwrap();
    let fetched = get_passwords_id(&store, &au, created.id).unwrap();
    assert_eq!(fetched.id, created.id);
    assert_eq!(fetched.user_id, au.id);
    assert_eq!(fetched.login, "alice@sample");
    assert_eq!(fetched.site, "sample.site");
    assert_eq!(fetched.uppercase, true);
    assert_eq!(fetched.symbols, false);
    assert_eq!(fetched.lowercase, true);
    assert_eq!(fetched.numbers, true);
    assert_eq!(fetched.counter, 1);
    assert_eq!(fetched.version, 2);
    assert_eq!(fetched.length, 16);
    assert_eq!(fetched.created, 500);
    assert_eq!(fetched.modified, 500);
}

#[test]
fn digits_key_wins_over_numbers_key() {
    assert_eq!(digits_or_numbers(Some(false), Some(true)), Some(false));
    assert_eq!(digits_or_numbers(Some(true), None), Some(true));
    assert_eq!(digits_or_numbers(None, Some(true)), Some(true));
    assert_eq!(digits_or_numbers(None, None), None);
}

#[test]
fn version_defaults_to_two() {
    assert_eq!(default_version(), 2);
}

#[test]
fn updating_a_missing_entry_reports_zero_rows() {
    let (mut store, au) = sample_store();
    let np = entry("alice@sample", "sample.site", 1, 16);
    post_passwords(&mut store, &au, &np, 500).unwrap();
    let r = put_passwords_id(&mut store, &au, 999, &np, 501);
    assert_eq!(r, Err(ApiError::InternalError));
    assert_eq!(ApiError::InternalError.status_code(), 500);
}

#[test]
fn updating_an_entry_overwrites_its_fields() {
    let (mut store, au) = sample_store();
    let np = entry("alice@sample", "sample.site", 1, 16);
    let created = post_passwords(&mut store, &au, &np, 500).unwrap();
    let changed = entry("alice@new.sample", "sample.site", 2, 16);
    put_passwords_id(&mut store, &au, created.id, &changed, 600).unwrap();
    let fetched = get_passwords_id(&store, &au, created.id).unwrap();
    assert_eq!(fetched.login, "alice@new.sample");
    assert_eq!(fetched.counter, 2);
    assert_eq!(fetched.created, 500);
    assert_eq!(fetched.modified, 600);
}

#[test]
fn deleting_an_entry_removes_exactly_it() {
    let (mut store, au) = sample_store();
    let first = post_passwords(&mut store, &au, &entry("a@s", "one.site", 1, 16), 500).unwrap();
    post_passwords(&mut store, &au, &entry("b@s", "two.site", 2, 16), 500).unwrap();
    post_passwords(&mut store, &au, &entry("c@s", "three.site", 1, 8), 500).unwrap();
    assert_eq!(get_passwords(&store, &au, None).len(), 3);
    let missing = delete_passwords_id(&mut store, &au, 999);
    assert_eq!(missing, Err(ApiError::InternalError));
    delete_passwords_id(&mut store, &au, first.id).unwrap();
    let listed = get_passwords(&store, &au, None);
    assert_eq!(listed.len(), 2);
    assert_eq!(listed[0].login, "b@s");
    assert_eq!(listed[1].login, "c@s");
}

#[test]
fn search_filters_by_site_case_insensitively() {
    let (mut store, au) = sample_store();
    post_passwords(&mut store, &au, &entry("a@s", "Rockpass.Sample", 1, 16), 500).unwrap();
    post_passwords(&mut store, &au, &entry("b@s", "subsite.rockpass.sample", 2, 16), 500).unwrap();
    post_passwords(&mut store, &au, &entry("c@s", "other.place", 1, 8), 500).unwrap();
    let pattern = "ROCKPASS".to_string();
    let hits = get_passwords(&store, &au, Some(&pattern));
    assert_eq!(hits.len(), 2);
    assert_eq!(hits[0].login, "a@s");
    assert_eq!(hits[1].login, "b@s");
    let none = "nowhere".to_string();
    assert_eq!(get_passwords(&store, &au, Some(&none)).len(), 0);
}

#[test]
fn another_users_entry_is_not_found() {
    let (mut store, au) = sample_store();
    let config = RockpassConfig::default();
    let other = NewUser { email: "other@sample".to_string(), password: "t".to_string() };
    post_auth_users(&mut store, &config, &other).unwrap();
    let other_au = AuthorizedUser {
        id: store.users[1].id,
        email: store.users[1].email.clone(),
        password: store.users[1].password.clone(),
        token_id: 0,
    };
    let created = post_passwords(&mut store, &au, &entry("a@s", "one.site", 1, 16), 500).unwrap();
    let r = get_passwords_id(&store, &other_au, created.id);
    assert!(matches!(r, Err(ApiError::NotFound)));
    assert_eq!(ApiError::NotFound.status_code(), 404);
    assert_eq!(get_passwords(&store, &other_au, None).len(), 0);
}
