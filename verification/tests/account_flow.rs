use rockpass::errors::ApiError;
use rockpass::errors::AuthorizationError;
use rockpass::guard::authorize_request;
use rockpass::models::NewUser;
use rockpass::models::NewUserPassword;
use rockpass::models::UserPassword;
use rockpass::routes::delete_auth_users_me;
use rockpass::routes::post_auth_jwt_create;
use rockpass::routes::post_auth_users;
use rockpass::routes::post_auth_users_set_password;
use rockpass::store::Store;
use rockpass::RockpassConfig;

fn login(store: &mut Store, config: &RockpassConfig, now: i64) -> (String, String) {
    let user = NewUser { email: "test@sample".to_string(), password: "test".to_string() };
    post_auth_jwt_create(store, config, &user, now).unwrap()
}

fn setup() -> (Store, RockpassConfig, String, String) {
    let mut store = Store::new();
    let config = RockpassConfig::default();
    let user = NewUser { email: "test@sample".to_string(), password: "test".to_string() };
    post_auth_users(&mut store, &config, &user).unwrap();
    let (access, refresh) = login(&mut store, &config, 1000);
    (store, config, access, refresh)
}

#[test]
fn password_change_with_wrong_current_password_is_forbidden() {
    let (mut store, _config, access, _refresh) = setup();
    let header = format!("bearer {}", access);
    let au = authorize_request(&store, Some(&header), 1001).unwrap();
    let payload = NewUserPassword {
        current_password: "bad".to_string(),
        new_password: "bad".to_string(),
    };
    let r = post_auth_users_set_password(&mut store, &au, &payload);
    assert_eq!(r, Err(ApiError::Forbidden));
    assert_eq!(ApiError::Forbidden.status_code(), 403);
    assert_eq!(store.tokens.len(), 1);
}

#[test]
fn password_change_invalidates_every_session() {
    let (mut store, config, access, _refresh) = setup();
    // a second concurrent session for the same user
    login(&mut store, &config, 1000);
    assert_eq!(store.tokens.len(), 2);
    let header = format!("bearer {}", access);
    let au = authorize_request(&store, Some(&header), 1001).unwrap();
    let payload = NewUserPassword {
        current_password: "test".to_string(),
        new_password: "new".to_string(),
    };
    let deleted = post_auth_users_set_password(&mut store, &au, &payload).unwrap();
    assert_eq!(deleted, 2);
    assert_eq!(store.tokens.len(), 0);
    // the old access token now fails lookup
    let r = authorize_request(&store, Some(&header), 1002);
    assert!(matches!(r, Err(AuthorizationError::Unauthorized)));
    // the old password no longer logs in; the new one does
    let old = NewUser { email: "test@sample".to_string(), password: "test".to_string() };
    assert_eq!(post_auth_jwt_create(&mut store, &config, &old, 1003), Err(ApiError::Unauthorized));
    let new = NewUser { email: "test@sample".to_string(), password: "new".to_string() };
    assert!(post_auth_jwt_create(&mut store, &config, &new, 1003).is_ok());
}

#[test]
fn account_deletion_needs_the_current_password() {
    let (mut store, _config, access, _refresh) = setup();
    let header = format!("bearer {}", access);
    let au = authorize_request(&store, Some(&header), 1001).unwrap();
    let bad = UserPassword { current_password: "bad".to_string() };
    let r = delete_auth_users_me(&mut store, &au, &bad);
    assert_eq!(r, Err(ApiError::Forbidden));
    assert_eq!(store.users.len(), 1);
}

#[test]
fn account_deletion_cascades_over_sessions() {
    let (mut store, config, access, _refresh) = setup();
    let header = format!("bearer {}", access);
    let au = authorize_request(&store, Some(&header), 1001).unwrap();
    let good = UserPassword { current_password: "test".to_string() };
    delete_auth_users_me(&mut store, &au, &good).unwrap();
    assert_eq!(store.users.len(), 0);
    assert_eq!(store.tokens.len(), 0);
    let user = NewUser { email: "test@sample".to_string(), password: "test".to_string() };
    assert_eq!(
        post_auth_jwt_create(&mut store, &config, &user, 1002),
        Err(ApiError::Unauthorized)
    );
}
