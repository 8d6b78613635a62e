use vstd::prelude::*;

use crate::codec::new_jwt;
use crate::codec::signed_token_of;
use crate::models::AuthorizedUser;
use crate::models::User;
use crate::store::has_token_id;
use crate::store::has_user_id;
use crate::store::Store;

verus! {

/// Relies on `uuid::Uuid::new_v4`: a fresh random session identifier,
/// rendered in its hyphenated form. Random, so nothing is assumed of the
/// value.
#[verifier::external_body]
pub fn new_session_id() -> (r: String) {
    uuid::Uuid::new_v4().to_string()
}

/// Relies on `chrono::Utc::now`: the wall clock's unix timestamp in
/// seconds. Nothing is assumed of the value.
#[verifier::external_body]
pub fn current_timestamp() -> (r: i64) {
    chrono::Utc::now().timestamp()
}

/// Open a session for `user`: draw two fresh session identifiers, sign
/// each with the user's stored password hash under its own lifetime, and
/// insert the one session row holding both. Signing and the insert are
/// total, so a session is always opened; the returned pair is exactly the
/// signed form of the identifiers now stored in the new row.
pub fn create_tokens(
    store: &mut Store,
    user: &User,
    access_token_lifetime: i64,
    refresh_token_lifetime: i64,
    now: i64,
) -> (r: (String, String))
    requires
        old(store).wf(),
        old(store).next_token_id < i32::MAX,
        has_user_id(old(store).users@, user.id),
        0 <= now,
        0 <= access_token_lifetime <= i64::MAX - now,
        0 <= refresh_token_lifetime <= i64::MAX - now,
    ensures
        final(store).wf(),
        ({
            let row = final(store).tokens@.last();
            &&& final(store).tokens@ == old(store).tokens@.push(row)
            &&& row.id == old(store).next_token_id
            &&& row.user_id == user.id
            &&& row.created == now
            &&& row.modified == now
            &&& r.0@ == signed_token_of(
                user.password@,
                row.access_token@,
                (now + access_token_lifetime) as i64,
            )
            &&& r.1@ == signed_token_of(
                user.password@,
                row.refresh_token@,
                (now + refresh_token_lifetime) as i64,
            )
            &&& final(store).next_token_id == old(store).next_token_id + 1
        }),
        final(store).users@ == old(store).users@,
        final(store).passwords@ == old(store).passwords@,
        final(store).next_user_id == old(store).next_user_id,
        final(store).next_password_id == old(store).next_password_id,
{
    let access_token_uuid = new_session_id();
    let refresh_token_uuid = new_session_id();
    let access_token_jwt = new_jwt(&user.password, &access_token_uuid, access_token_lifetime, now);
    let refresh_token_jwt = new_jwt(
        &user.password,
        &refresh_token_uuid,
        refresh_token_lifetime,
        now,
    );
    store.insert_token(user.id, &access_token_uuid, &refresh_token_uuid, now);
    (access_token_jwt, refresh_token_jwt)
}

/// Rotate the session carried on the authenticated principal: draw two
/// fresh identifiers, sign them with the principal's password hash, and
/// overwrite the session row in place. Succeeds exactly when the
/// principal's session row still exists; a principal whose row has gone
/// rotates nothing and fails, as a store update that hit no row would,
/// and then the store is untouched.
pub fn refresh_tokens(
    store: &mut Store,
    authorized_user: &AuthorizedUser,
    access_token_lifetime: i64,
    refresh_token_lifetime: i64,
    now: i64,
) -> (r: Result<(String, String), ()>)
    requires
        old(store).wf(),
        0 <= now,
        0 <= access_token_lifetime <= i64::MAX - now,
        0 <= refresh_token_lifetime <= i64::MAX - now,
    ensures
        final(store).wf(),
        r is Ok <==> has_token_id(old(store).tokens@, authorized_user.token_id),
        r is Err ==> final(store).tokens@ == old(store).tokens@,
        r matches Ok(p) ==> final(store).tokens@.len() == old(store).tokens@.len() && (forall|
            i: int,
        |
            0 <= i < old(store).tokens@.len() && (#[trigger] old(store).tokens@[i]).id
                != authorized_user.token_id ==> final(store).tokens@[i] == old(
                store,
            ).tokens@[i]) && (forall|i: int|
            0 <= i < old(store).tokens@.len() && (#[trigger] old(store).tokens@[i]).id
                == authorized_user.token_id ==> {
                let row = final(store).tokens@[i];
                &&& row.id == authorized_user.token_id
                &&& row.user_id == old(store).tokens@[i].user_id
                &&& row.created == old(store).tokens@[i].created
                &&& row.modified == now
                &&& p.0@ == signed_token_of(
                    authorized_user.password@,
                    row.access_token@,
                    (now + access_token_lifetime) as i64,
                )
                &&& p.1@ == signed_token_of(
                    authorized_user.password@,
                    row.refresh_token@,
                    (now + refresh_token_lifetime) as i64,
                )
            }),
        final(store).users@ == old(store).users@,
        final(store).passwords@ == old(store).passwords@,
        final(store).next_user_id == old(store).next_user_id,
        final(store).next_token_id == old(store).next_token_id,
        final(store).next_password_id == old(store).next_password_id,
{
    let access_token_uuid = new_session_id();
    let refresh_token_uuid = new_session_id();
    let access_token_jwt = new_jwt(
        &authorized_user.password,
        &access_token_uuid,
        access_token_lifetime,
        now,
    );
    let refresh_token_jwt = new_jwt(
        &authorized_user.password,
        &refresh_token_uuid,
        refresh_token_lifetime,
        now,
    );
    let updated = store.rotate_session(
        authorized_user.token_id,
        &access_token_uuid,
        &refresh_token_uuid,
        now,
    );
    if updated {
        Ok((access_token_jwt, refresh_token_jwt))
    } else {
        proof {
            assert(store.tokens@ =~= old(store).tokens@);
        }
        Err(())
    }
}

} // verus!
