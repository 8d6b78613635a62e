use rockpass::codec::check_jwt;
use rockpass::codec::get_uuid_from_token;
use rockpass::codec::new_jwt;
use rockpass::errors::ApiError;
use rockpass::errors::AuthorizationError;
use rockpass::errors::TokenError;
use rockpass::guard::authorize_request;
use rockpass::guard::check_authorization;
use rockpass::models::NewUser;
use rockpass::routes::get_auth_users_me;
use rockpass::routes::post_auth_jwt_create;
use rockpass::routes::post_auth_users;
use rockpass::store::Store;
use rockpass::RockpassConfig;

fn store_with_session(now: i64) -> (Store, RockpassConfig, String, String) {
    let mut store = Store::new();
    let config = RockpassConfig::default();
    let user = NewUser { email: "test@sample".to_string(), password: "test".to_string() };
    post_auth_users(&mut store, &config, &user).unwrap();
    let (access, refresh) = post_auth_jwt_create(&mut store, &config, &user, now).unwrap();
    (store, config, access, refresh)
}

#[test]
fn missing_header_is_missing() {
    let store = Store::new();
    let r = authorize_request(&store, None, 1000);
    assert!(matches!(r, Err(AuthorizationError::Missing)));
    assert_eq!(AuthorizationError::Missing.status_code(), 400);
}

#[test]
fn header_without_bearer_prefix_is_invalid() {
    let store = Store::new();
    let header = "false".to_string();
    let r = authorize_request(&store, Some(&header), 1000);
    assert!(matches!(r, Err(AuthorizationError::Invalid)));
    assert_eq!(AuthorizationError::Invalid.status_code(), 400);
}

#[test]
fn bearer_with_bad_token_is_unauthorized() {
    let (store, _config, _access, _refresh) = store_with_session(1000);
    let header = "bearer false".to_string();
    let r = authorize_request(&store, Some(&header), 1001);
    assert!(matches!(r, Err(AuthorizationError::Unauthorized)));
    assert_eq!(AuthorizationError::Unauthorized.status_code(), 401);
}

#[test]
fn bearer_with_fresh_token_yields_the_user() {
    let (store, _config, access, _refresh) = store_with_session(1000);
    let header = format!("bearer {}", access);
    let au = authorize_request(&store, Some(&header), 1001).unwrap();
    let (id, email) = get_auth_users_me(&au);
    assert_eq!(id, 1);
    assert_eq!(email, "test@sample");
}

#[test]
fn bearer_prefix_is_case_insensitive() {
    let (store, _config, access, _refresh) = store_with_session(1000);
    let header = format!("BeArEr {}", access);
    let au = authorize_request(&store, Some(&header), 1001).unwrap();
    assert_eq!(au.id, 1);
}

#[test]
fn refresh_token_is_not_an_access_token() {
    let (store, _config, _access, refresh) = store_with_session(1000);
    let header = format!("bearer {}", refresh);
    let r = authorize_request(&store, Some(&header), 1001);
    assert!(matches!(r, Err(AuthorizationError::Unauthorized)));
}

#[test]
fn expired_access_token_is_unauthorized() {
    // access lifetime 3600: good at 1000 + 3600, gone one second later
    let (store, _config, access, _refresh) = store_with_session(1000);
    let ok = check_authorization(&store, &access, 4600);
    assert!(ok.is_ok());
    let r = check_authorization(&store, &access, 4601);
    assert!(matches!(r, Err(())));
}

#[test]
fn fresh_token_passes_codec_and_expires_later() {
    let key = "some-stored-hash".to_string();
    let uuid = "11111111-2222-3333-4444-555555555555".to_string();
    let token = new_jwt(&key, &uuid, 60, 1000);
    assert_eq!(check_jwt(&key, &token, 1000), Ok(()));
    assert_eq!(check_jwt(&key, &token, 1060), Ok(()));
    assert_eq!(check_jwt(&key, &token, 1061), Err(TokenError::Expired));
}

#[test]
fn token_signed_with_other_secret_fails_signature() {
    let key = "secret-one".to_string();
    let other = "secret-two".to_string();
    let uuid = "11111111-2222-3333-4444-555555555555".to_string();
    let token = new_jwt(&key, &uuid, 60, 1000);
    assert_eq!(check_jwt(&other, &token, 1000), Err(TokenError::BadSignature));
    assert_eq!(check_jwt(&other, &"garbage".to_string(), 1000), Err(TokenError::Malformed));
}

#[test]
fn peek_recovers_the_session_identifier_without_the_secret() {
    let key = "secret-one".to_string();
    let uuid = "11111111-2222-3333-4444-555555555555".to_string();
    let token = new_jwt(&key, &uuid, 60, 1000);
    let peeked = get_uuid_from_token(token.as_str()).unwrap();
    assert_eq!(peeked, uuid);
    assert_eq!(get_uuid_from_token("garbage"), None);
}

#[test]
fn every_error_variant_carries_its_status() {
    assert_eq!(ApiError::BadRequest.status_code(), 400);
    assert_eq!(ApiError::Unauthorized.status_code(), 401);
    assert_eq!(ApiError::Forbidden.status_code(), 403);
    assert_eq!(ApiError::Conflict.status_code(), 409);
    assert_eq!(ApiError::NotFound.status_code(), 404);
    assert_eq!(ApiError::UnprocessableEntity.status_code(), 422);
    assert_eq!(ApiError::InternalError.status_code(), 500);
}
