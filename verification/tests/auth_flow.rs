use rockpass::errors::ApiError;
use rockpass::guard::authorize_request;
use rockpass::models::JWTRefreshToken;
use rockpass::models::NewPassword;
use rockpass::models::NewUser;
use rockpass::routes::post_auth_jwt_create;
use rockpass::routes::post_auth_jwt_refresh;
use rockpass::routes::post_auth_users;
use rockpass::routes::put_passwords_id;
use rockpass::store::Store;
use rockpass::RockpassConfig;

fn new_user(email: &str, password: &str) -> NewUser {
    NewUser { email: email.to_string(), password: password.to_string() }
}

#[test]
fn register_then_register_again_conflicts() {
    let mut store = Store::new();
    let config = RockpassConfig::default();
    let user = new_user("a@x", "t");
    let first = post_auth_users(&mut store, &config, &user);
    assert!(first.is_ok());
    let user_again = new_user("a@x", "t");
    let second = post_auth_users(&mut store, &config, &user_again);
    assert_eq!(second, Err(ApiError::Conflict));
    assert_eq!(ApiError::Conflict.status_code(), 409);
    assert_eq!(store.users.len(), 1);
    assert_eq!(store.users[0].id, 1);
}

#[test]
fn registration_disabled_is_forbidden() {
    let mut store = Store::new();
    let config = RockpassConfig {
        registration_enabled: false,
        access_token_lifetime: 3600,
        refresh_token_lifetime: 2592000,
    };
    let r = post_auth_users(&mut store, &config, &new_user("a@x", "t"));
    assert_eq!(r, Err(ApiError::Forbidden));
    assert_eq!(store.users.len(), 0);
}

#[test]
fn login_with_wrong_password_is_unauthorized() {
    let mut store = Store::new();
    let config = RockpassConfig::default();
    post_auth_users(&mut store, &config, &new_user("a@x", "t")).unwrap();
    let r = post_auth_jwt_create(&mut store, &config, &new_user("a@x", "wrong"), 1000);
    assert_eq!(r, Err(ApiError::Unauthorized));
    assert_eq!(ApiError::Unauthorized.status_code(), 401);
    assert_eq!(store.tokens.len(), 0);
}

#[test]
fn login_with_unknown_email_is_unauthorized() {
    let mut store = Store::new();
    let config = RockpassConfig::default();
    let r = post_auth_jwt_create(&mut store, &config, &new_user("a@x", "t"), 1000);
    assert_eq!(r, Err(ApiError::Unauthorized));
}

#[test]
fn login_with_correct_password_creates_session() {
    let mut store = Store::new();
    let config = RockpassConfig::default();
    post_auth_users(&mut store, &config, &new_user("a@x", "t")).unwrap();
    let r = post_auth_jwt_create(&mut store, &config, &new_user("a@x", "t"), 1000);
    let (access, refresh) = r.unwrap();
    assert!(!access.is_empty());
    assert!(!refresh.is_empty());
    assert_ne!(access, refresh);
    assert_eq!(store.tokens.len(), 1);
    assert_eq!(store.tokens[0].user_id, store.users[0].id);
    assert_eq!(store.tokens[0].created, 1000);
}

#[test]
fn refresh_with_garbage_token_is_unauthorized() {
    let mut store = Store::new();
    let config = RockpassConfig::default();
    post_auth_users(&mut store, &config, &new_user("a@x", "t")).unwrap();
    post_auth_jwt_create(&mut store, &config, &new_user("a@x", "t"), 1000).unwrap();
    let bad = JWTRefreshToken { refresh: "false".to_string() };
    let r = post_auth_jwt_refresh(&mut store, &config, &bad, 1001);
    assert_eq!(r, Err(ApiError::Unauthorized));
}

#[test]
fn refresh_rotates_the_session_pair() {
    let mut store = Store::new();
    let config = RockpassConfig::default();
    post_auth_users(&mut store, &config, &new_user("a@x", "t")).unwrap();
    let (_, refresh) =
        post_auth_jwt_create(&mut store, &config, &new_user("a@x", "t"), 1000).unwrap();
    let old_access_id = store.tokens[0].access_token.clone();
    let old_refresh_id = store.tokens[0].refresh_token.clone();
    let payload = JWTRefreshToken { refresh };
    let r = post_auth_jwt_refresh(&mut store, &config, &payload, 1001);
    let (new_access, new_refresh) = r.unwrap();
    assert!(!new_access.is_empty());
    assert!(!new_refresh.is_empty());
    // still exactly one session row, rewritten in place
    assert_eq!(store.tokens.len(), 1);
    assert_ne!(store.tokens[0].access_token, old_access_id);
    assert_ne!(store.tokens[0].refresh_token, old_refresh_id);
    assert_eq!(store.tokens[0].modified, 1001);
    // the old refresh token cannot be used a second time
    let replay = JWTRefreshToken { refresh: payload.refresh.clone() };
    let r2 = post_auth_jwt_refresh(&mut store, &config, &replay, 1002);
    assert_eq!(r2, Err(ApiError::Unauthorized));
    // the new pair is live: the fresh refresh token rotates again
    let next = JWTRefreshToken { refresh: new_refresh };
    assert!(post_auth_jwt_refresh(&mut store, &config, &next, 1002).is_ok());
}

#[test]
fn login_sweeps_sessions_older_than_refresh_lifetime() {
    let mut store = Store::new();
    let config = RockpassConfig {
        registration_enabled: true,
        access_token_lifetime: 60,
        refresh_token_lifetime: 1000,
    };
    post_auth_users(&mut store, &config, &new_user("a@x", "t")).unwrap();
    post_auth_jwt_create(&mut store, &config, &new_user("a@x", "t"), 1000).unwrap();
    assert_eq!(store.tokens.len(), 1);
    // a second login long after the refresh lifetime sweeps the stale row
    post_auth_jwt_create(&mut store, &config, &new_user("a@x", "t"), 5000).unwrap();
    assert_eq!(store.tokens.len(), 1);
    assert_eq!(store.tokens[0].created, 5000);
}

#[test]
fn full_scenario_register_login_refresh_update() {
    let mut store = Store::new();
    let config = RockpassConfig::default();
    let user = new_user("a@x", "t");
    // register: created, then conflict on the repeat
    assert!(post_auth_users(&mut store, &config, &user).is_ok());
    assert_eq!(post_auth_users(&mut store, &config, &user), Err(ApiError::Conflict));
    // login with the wrong password: unauthorized
    assert_eq!(
        post_auth_jwt_create(&mut store, &config, &new_user("a@x", "wrong"), 1000),
        Err(ApiError::Unauthorized)
    );
    // login with the right password: a fresh pair
    let (access, _refresh) =
        post_auth_jwt_create(&mut store, &config, &user, 1000).unwrap();
    // refresh with garbage: unauthorized
    let garbage = JWTRefreshToken { refresh: "garbage".to_string() };
    assert_eq!(
        post_auth_jwt_refresh(&mut store, &config, &garbage, 1001),
        Err(ApiError::Unauthorized)
    );
    // updating a record that does not exist: zero rows hit
    let header = format!("bearer {}", access);
    let au = authorize_request(&store, Some(&header), 1001).unwrap();
    let entry = NewPassword {
        login: "a@x".to_string(),
        site: "somewhere".to_string(),
        uppercase: true,
        symbols: true,
        lowercase: true,
        numbers: true,
        counter: 1,
        version: 2,
        length: 16,
    };
    let r = put_passwords_id(&mut store, &au, 999, &entry, 1002);
    assert_eq!(r, Err(ApiError::InternalError));
}
