use vstd::prelude::*;

use crate::codec::peeked_claims_of;
use crate::codec::signed_token_of;
use crate::errors::ApiError;
use crate::hashing::bcrypt_matches;
use crate::hashing::hash_password;
use crate::hashing::verify_password;
use crate::models::AuthorizedUser;
use crate::models::DBToken;
use crate::models::JWTRefreshToken;
use crate::models::NewPassword;
use crate::models::NewUser;
use crate::models::NewUserPassword;
use crate::models::Password;
use crate::models::User;
use crate::models::UserPassword;
use crate::session::create_tokens;
use crate::session::refresh_tokens;
use crate::store::email_taken;
use crate::store::has_password_id;
use crate::store::has_refresh_token;
use crate::store::has_token_id;
use crate::store::has_user_id;
use crate::store::listed;
use crate::store::pat_view;
use crate::store::Store;
use crate::RockpassConfig;

verus! {

broadcast use vstd::seq_lib::group_filter_ensures, vstd::prelude::Seq::lemma_filter_push;

/// Register a new account: refused while registration is disabled, refused
/// as a conflict when the e-mail is taken, and otherwise stored with a
/// fresh salted hash of the submitted password — never the password
/// itself.
pub fn post_auth_users(store: &mut Store, config: &RockpassConfig, user: &NewUser) -> (r: Result<
    (),
    ApiError,
>)
    requires
        old(store).wf(),
        old(store).next_user_id < i32::MAX,
    ensures
        final(store).wf(),
        !config.registration_enabled ==> r == Err::<(), ApiError>(ApiError::Forbidden),
        config.registration_enabled && email_taken(old(store).users@, user.email@) ==> r == Err::<
            (),
            ApiError,
        >(ApiError::Conflict),
        r == Err::<(), ApiError>(ApiError::Conflict) ==> email_taken(
            old(store).users@,
            user.email@,
        ),
        r == Err::<(), ApiError>(ApiError::Forbidden) ==> !config.registration_enabled,
        r == Err::<(), ApiError>(ApiError::InternalError) ==> config.registration_enabled
            && !email_taken(old(store).users@, user.email@),
        config.registration_enabled && !email_taken(old(store).users@, user.email@) ==> (r is Ok
            || r == Err::<(), ApiError>(ApiError::InternalError)),
        r is Err ==> *final(store) == *old(store),
        r is Ok ==> config.registration_enabled && !email_taken(old(store).users@, user.email@)
            && (({
            let u = final(store).users@.last();
            &&& final(store).users@ == old(store).users@.push(u)
            &&& u.id == old(store).next_user_id
            &&& u.email@ == user.email@
            &&& bcrypt_matches(user.password@, u.password@)
            &&& final(store).next_user_id == old(store).next_user_id + 1
        })),
        r is Ok ==> email_taken(final(store).users@, user.email@),
        final(store).tokens@ == old(store).tokens@,
        final(store).passwords@ == old(store).passwords@,
        final(store).next_token_id == old(store).next_token_id,
        final(store).next_password_id == old(store).next_password_id,
{
    if !config.registration_enabled {
        return Err(ApiError::Forbidden);
    }
    if store.find_user_index_by_email(&user.email).is_some() {
        return Err(ApiError::Conflict);
    }
    let bcrypted_password = match hash_password(user.password.as_str()) {
        Some(h) => h,
        None => {
            return Err(ApiError::InternalError);
        },
    };
    store.insert_user(&user.email, &bcrypted_password);
    Ok(())
}

/// The authenticated identity a successful guard pass reports back: the
/// principal's id and e-mail, nothing else.
pub fn get_auth_users_me(authorized_user: &AuthorizedUser) -> (r: (i32, String))
    ensures
        r.0 == authorized_user.id,
        r.1@ == authorized_user.email@,
{
    (authorized_user.id, authorized_user.email.clone())
}

/// Delete the authenticated account, demanding the current password once
/// more: a mismatch is refused, a match removes the user and cascades
/// over the user's session rows and parameter records.
pub fn delete_auth_users_me(store: &mut Store, authorized_user: &AuthorizedUser, user_password: &UserPassword) -> (r:
    Result<(), ApiError>)
    requires
        old(store).wf(),
    ensures
        final(store).wf(),
        r == Err::<(), ApiError>(ApiError::Forbidden) <==> !bcrypt_matches(
            user_password.current_password@,
            authorized_user.password@,
        ),
        r is Err ==> r == Err::<(), ApiError>(ApiError::Forbidden),
        r is Err ==> *final(store) == *old(store),
        final(store).next_user_id == old(store).next_user_id,
        final(store).next_token_id == old(store).next_token_id,
        final(store).next_password_id == old(store).next_password_id,
        r is Ok ==> final(store).users@ == old(store).users@.filter(
            |u: User| u.id != authorized_user.id,
        ) && final(store).tokens@ == old(store).tokens@.filter(
            |t: DBToken| t.user_id != authorized_user.id,
        ) && final(store).passwords@ == old(store).passwords@.filter(
            |p: Password| p.user_id != authorized_user.id,
        ),
{
    if !verify_password(user_password.current_password.as_str(), authorized_user.password.as_str())
    {
        return Err(ApiError::Forbidden);
    }
    store.delete_user(authorized_user.id);
    Ok(())
}

/// Change the authenticated account's password: the current password must
/// match, the new one is stored as a fresh salted hash, and every session
/// of the user is invalidated on the spot; the count of invalidated
/// sessions is reported. A principal whose user row has gone hits no row,
/// as the backing database's `0 rows updated` would.
pub fn post_auth_users_set_password(
    store: &mut Store,
    authorized_user: &AuthorizedUser,
    new_user_password: &NewUserPassword,
) -> (r: Result<usize, ApiError>)
    requires
        old(store).wf(),
    ensures
        final(store).wf(),
        r == Err::<usize, ApiError>(ApiError::Forbidden) <==> !bcrypt_matches(
            new_user_password.current_password@,
            authorized_user.password@,
        ),
        r is Err ==> final(store).users@ == old(store).users@ && final(store).tokens@ == old(
            store,
        ).tokens@ && final(store).passwords@ == old(store).passwords@,
        bcrypt_matches(new_user_password.current_password@, authorized_user.password@) && r is Err
            ==> r == Err::<usize, ApiError>(ApiError::InternalError),
        final(store).next_user_id == old(store).next_user_id,
        final(store).next_token_id == old(store).next_token_id,
        final(store).next_password_id == old(store).next_password_id,
        r is Ok ==> has_user_id(old(store).users@, authorized_user.id),
        r matches Ok(count) ==> final(store).users@.len() == old(store).users@.len() && (forall|
            i: int,
        |
            0 <= i < old(store).users@.len() && (#[trigger] old(store).users@[i]).id
                != authorized_user.id ==> final(store).users@[i] == old(store).users@[i]) && (
        forall|i: int|
            0 <= i < old(store).users@.len() && (#[trigger] old(store).users@[i]).id
                == authorized_user.id ==> final(store).users@[i].email@ == old(
                store,
            ).users@[i].email@ && final(store).users@[i].id == authorized_user.id
                && bcrypt_matches(
                new_user_password.new_password@,
                final(store).users@[i].password@,
            )) && final(store).tokens@ == old(store).tokens@.filter(
            |t: DBToken| t.user_id != authorized_user.id,
        ) && count == old(store).tokens@.len() - final(store).tokens@.len(),
        final(store).passwords@ == old(store).passwords@,
{
    if !verify_password(
        new_user_password.current_password.as_str(),
        authorized_user.password.as_str(),
    ) {
        return Err(ApiError::Forbidden);
    }
    let bcrypted_password = match hash_password(new_user_password.new_password.as_str()) {
        Some(h) => h,
        None => {
            return Err(ApiError::InternalError);
        },
    };
    let updated = store.set_user_password(authorized_user.id, &bcrypted_password);
    if !updated {
        proof {
            assert(store.users@ =~= old(store).users@);
        }
        return Err(ApiError::InternalError);
    }
    let deleted_rows = store.invalidate_all(authorized_user.id);
    Ok(deleted_rows)
}

/// Log in: the account is looked up by e-mail and the submitted password
/// is held against its stored hash; unknown accounts and mismatches are
/// refused alike, telling an attacker nothing. On success a session is
/// opened, the signed pair is handed back, and sessions of this user
/// untouched for longer than the refresh lifetime are swept away.
pub fn post_auth_jwt_create(
    store: &mut Store,
    config: &RockpassConfig,
    user: &NewUser,
    now: i64,
) -> (r: Result<(String, String), ApiError>)
    requires
        old(store).wf(),
        old(store).next_token_id < i32::MAX,
        config.wf(),
        0 <= now <= i64::MAX / 2,
    ensures
        final(store).wf(),
        !email_taken(old(store).users@, user.email@) ==> r == Err::<
            (String, String),
            ApiError,
        >(ApiError::Unauthorized),
        forall|j: int|
            0 <= j < old(store).users@.len() && (#[trigger] old(store).users@[j]).email@
                == user.email@ && !bcrypt_matches(user.password@, old(store).users@[j].password@)
                ==> r == Err::<(String, String), ApiError>(ApiError::Unauthorized),
        r matches Err(e) ==> e == ApiError::Unauthorized,
        r is Ok <==> exists|j: int|
            0 <= j < old(store).users@.len() && (#[trigger] old(store).users@[j]).email@
                == user.email@ && bcrypt_matches(user.password@, old(store).users@[j].password@),
        r is Err ==> *final(store) == *old(store),
        r matches Ok(p) ==> exists|j: int|
            0 <= j < old(store).users@.len() && (#[trigger] old(store).users@[j]).email@
                == user.email@ && bcrypt_matches(user.password@, old(store).users@[j].password@)
                && (({
                let uid = old(store).users@[j].id;
                let row = final(store).tokens@.last();
                &&& final(store).tokens@ == old(store).tokens@.filter(
                    |t: DBToken|
                        !(t.user_id == uid && t.modified < now
                            - config.refresh_token_lifetime),
                ).push(row)
                &&& row.id == old(store).next_token_id
                &&& row.user_id == uid
                &&& row.created == now
                &&& row.modified == now
                &&& p.0@ == signed_token_of(
                    old(store).users@[j].password@,
                    row.access_token@,
                    (now + config.access_token_lifetime) as i64,
                )
                &&& p.1@ == signed_token_of(
                    old(store).users@[j].password@,
                    row.refresh_token@,
                    (now + config.refresh_token_lifetime) as i64,
                )
            })),
        final(store).users@ == old(store).users@,
        final(store).passwords@ == old(store).passwords@,
        final(store).next_user_id == old(store).next_user_id,
        final(store).next_password_id == old(store).next_password_id,
        r is Ok ==> final(store).next_token_id == old(store).next_token_id + 1,
{
    let user_index = match store.find_user_index_by_email(&user.email) {
        Some(j) => j,
        None => {
            return Err(ApiError::Unauthorized);
        },
    };
    let found = store.users[user_index].clone();
    if !verify_password(user.password.as_str(), found.password.as_str()) {
        return Err(ApiError::Unauthorized);
    }
    let created = create_tokens(
        store,
        &found,
        config.access_token_lifetime,
        config.refresh_token_lifetime,
        now,
    );
    let ghost mid = *store;
    let min_modification_date = now - config.refresh_token_lifetime;
    store.purge_expired_tokens(found.id, min_modification_date);
    proof {
        let j = user_index as int;
        let uid = old(store).users@[j].id;
        let pred = |t: DBToken|
            !(t.user_id == uid && t.modified < now - config.refresh_token_lifetime);
        let row = mid.tokens@.last();
        assert(pred(row));
        assert(mid.tokens@ == old(store).tokens@.push(row));
        assert(store.tokens@ == old(store).tokens@.filter(pred).push(row));
        assert(old(store).users@[j].email@ == user.email@);
        assert(bcrypt_matches(user.password@, old(store).users@[j].password@));
    }
    Ok(created)
}

/// Exchange a refresh token for a fresh pair: the token is checked as the
/// guard checks an access token, but against the stored refresh
/// identifiers, and on success the matched session is rotated in place —
/// the pair it previously carried is gone for good.
pub fn post_auth_jwt_refresh(
    store: &mut Store,
    config: &RockpassConfig,
    jwt_refresh_token: &JWTRefreshToken,
    now: i64,
) -> (r: Result<(String, String), ApiError>)
    requires
        old(store).wf(),
        config.wf(),
        0 <= now <= i64::MAX / 2,
    ensures
        final(store).wf(),
        r is Err ==> final(store).tokens@ == old(store).tokens@,
        r matches Err(e) ==> e == ApiError::Unauthorized,
        forall|j: int, i: int, u: Seq<char>, e: i64|
            crate::guard::good_refresh_token(*old(store), jwt_refresh_token.refresh@, now, j, i, u, e)
                ==> r is Ok,
        peeked_claims_of(jwt_refresh_token.refresh@) is None ==> r == Err::<
            (String, String),
            ApiError,
        >(ApiError::Unauthorized),
        forall|u: Seq<char>|
            #[trigger] peeked_claims_of(jwt_refresh_token.refresh@) == Some(u)
                && !has_refresh_token(old(store).tokens@, u) ==> r == Err::<
                (String, String),
                ApiError,
            >(ApiError::Unauthorized),
        forall|s: Seq<char>, u: Seq<char>, e: i64|
            jwt_refresh_token.refresh@ == #[trigger] signed_token_of(s, u, e)
                && !has_refresh_token(old(store).tokens@, u) ==> r == Err::<
                (String, String),
                ApiError,
            >(ApiError::Unauthorized),
        r matches Ok(p) ==> final(store).tokens@.len() == old(store).tokens@.len() && exists|
            i: int,
            j: int,
        |
            ({
                &&& 0 <= i < old(store).tokens@.len()
                &&& 0 <= j < old(store).users@.len()
                &&& (#[trigger] final(store).tokens@[i]).id == old(store).tokens@[i].id
                &&& final(store).tokens@[i].user_id == old(store).tokens@[i].user_id
                &&& (#[trigger] old(store).users@[j]).id == old(store).tokens@[i].user_id
                &&& final(store).tokens@[i].modified == now
                &&& (forall|k: int|
                    0 <= k < old(store).tokens@.len() && k != i ==> final(store).tokens@[k]
                        == old(store).tokens@[k])
                &&& p.0@ == signed_token_of(
                    old(store).users@[j].password@,
                    final(store).tokens@[i].access_token@,
                    (now + config.access_token_lifetime) as i64,
                )
                &&& p.1@ == signed_token_of(
                    old(store).users@[j].password@,
                    final(store).tokens@[i].refresh_token@,
                    (now + config.refresh_token_lifetime) as i64,
                )
            }),
        final(store).users@ == old(store).users@,
        final(store).passwords@ == old(store).passwords@,
        final(store).next_user_id == old(store).next_user_id,
        final(store).next_token_id == old(store).next_token_id,
        final(store).next_password_id == old(store).next_password_id,
{
    let authorized_user = match crate::guard::check_refresh(store, &jwt_refresh_token.refresh, now) {
        Ok(au) => au,
        Err(()) => {
            return Err(ApiError::Unauthorized);
        },
    };
    match refresh_tokens(
        store,
        &authorized_user,
        config.access_token_lifetime,
        config.refresh_token_lifetime,
        now,
    ) {
        Ok(p) => Ok(p),
        Err(()) => {
            // unreachable: the guard only yields principals whose session
            // row exists, and rotation succeeds exactly on those
            proof {
                let i = choose|i: int|
                    0 <= i < old(store).tokens@.len() && (#[trigger] old(
                        store,
                    ).tokens@[i]).id == authorized_user.token_id && old(store).tokens@[i].user_id
                        == authorized_user.id;
                assert(old(store).tokens@[i].id == authorized_user.token_id);
                assert(has_token_id(old(store).tokens@, authorized_user.token_id));
            }
            Err(ApiError::InternalError)
        },
    }
}

/// List the authenticated user's parameter records, optionally narrowed
/// to sites containing the search pattern, case-insensitively.
pub fn get_passwords(store: &Store, authorized_user: &AuthorizedUser, search: Option<&String>) -> (r:
    Vec<Password>)
    ensures
        r@ == store.passwords@.filter(
            |p: Password| listed(p, authorized_user.id, pat_view(search)),
        ),
{
    store.list_passwords(authorized_user.id, search)
}

/// Store a new parameter record for the authenticated user and hand the
/// stored row back. A principal whose user row has gone is refused, as
/// the backing database would refuse the dangling reference.
pub fn post_passwords(
    store: &mut Store,
    authorized_user: &AuthorizedUser,
    new_password: &NewPassword,
    now: i64,
) -> (r: Result<Password, ApiError>)
    requires
        old(store).wf(),
        old(store).next_password_id < i32::MAX,
    ensures
        final(store).wf(),
        r is Err ==> *final(store) == *old(store) && !has_user_id(
            old(store).users@,
            authorized_user.id,
        ),
        r is Ok <==> has_user_id(old(store).users@, authorized_user.id),
        r matches Ok(row) ==> row == (Password {
            id: old(store).next_password_id,
            user_id: authorized_user.id,
            login: new_password.login,
            site: new_password.site,
            uppercase: new_password.uppercase,
            symbols: new_password.symbols,
            lowercase: new_password.lowercase,
            numbers: new_password.numbers,
            counter: new_password.counter,
            version: new_password.version,
            length: new_password.length,
            created: now,
            modified: now,
        }) && final(store).passwords@ == old(store).passwords@.push(row),
        final(store).users@ == old(store).users@,
        final(store).tokens@ == old(store).tokens@,
        final(store).next_user_id == old(store).next_user_id,
        final(store).next_token_id == old(store).next_token_id,
        r is Ok ==> final(store).next_password_id == old(store).next_password_id + 1,
{
    if store.find_user_index_by_id(authorized_user.id).is_none() {
        return Err(ApiError::InternalError);
    }
    let row = store.insert_password(authorized_user.id, new_password, now);
    Ok(row)
}

/// Fetch one parameter record by id; a record of another user is as
/// absent as none.
pub fn get_passwords_id(store: &Store, authorized_user: &AuthorizedUser, password_id: i32) -> (r:
    Result<Password, ApiError>)
    ensures
        r matches Ok(p) ==> exists|i: int|
            0 <= i < store.passwords@.len() && #[trigger] store.passwords@[i] == p && p.id
                == password_id && p.user_id == authorized_user.id,
        r is Err <==> !has_password_id(store.passwords@, authorized_user.id, password_id),
        r is Err ==> r == Err::<Password, ApiError>(ApiError::NotFound),
{
    match store.get_password(authorized_user.id, password_id) {
        Some(p) => Ok(p),
        None => Err(ApiError::NotFound),
    }
}

/// Overwrite one parameter record by id with the submitted fields; a miss
/// — no such record of this user — is reported as the backing store's `0
/// rows updated` failure.
pub fn put_passwords_id(
    store: &mut Store,
    authorized_user: &AuthorizedUser,
    updated_password_id: i32,
    updated_password: &NewPassword,
    now: i64,
) -> (r: Result<(), ApiError>)
    requires
        old(store).wf(),
    ensures
        final(store).wf(),
        r is Ok <==> has_password_id(
            old(store).passwords@,
            authorized_user.id,
            updated_password_id,
        ),
        r is Err ==> r == Err::<(), ApiError>(ApiError::InternalError),
        final(store).passwords@.len() == old(store).passwords@.len(),
        forall|i: int|
            0 <= i < old(store).passwords@.len() && !((#[trigger] old(store).passwords@[i]).id
                == updated_password_id && old(store).passwords@[i].user_id == authorized_user.id)
                ==> final(store).passwords@[i] == old(store).passwords@[i],
        r is Ok ==> forall|i: int|
            0 <= i < old(store).passwords@.len() && (#[trigger] old(store).passwords@[i]).id
                == updated_password_id && old(store).passwords@[i].user_id == authorized_user.id
                ==> final(store).passwords@[i] == (Password {
                id: updated_password_id,
                user_id: authorized_user.id,
                login: updated_password.login,
                site: updated_password.site,
                uppercase: updated_password.uppercase,
                symbols: updated_password.symbols,
                lowercase: updated_password.lowercase,
                numbers: updated_password.numbers,
                counter: updated_password.counter,
                version: updated_password.version,
                length: updated_password.length,
                created: old(store).passwords@[i].created,
                modified: now,
            }),
        final(store).users@ == old(store).users@,
        final(store).tokens@ == old(store).tokens@,
        final(store).next_user_id == old(store).next_user_id,
        final(store).next_token_id == old(store).next_token_id,
        final(store).next_password_id == old(store).next_password_id,
{
    let updated = store.update_password(
        authorized_user.id,
        updated_password_id,
        updated_password,
        now,
    );
    if updated {
        Ok(())
    } else {
        Err(ApiError::InternalError)
    }
}

/// Delete one parameter record by id; a miss is reported as the backing
/// store's `0 rows deleted` failure.
pub fn delete_passwords_id(store: &mut Store, authorized_user: &AuthorizedUser, deleted_password_id: i32) -> (r:
    Result<(), ApiError>)
    requires
        old(store).wf(),
    ensures
        final(store).wf(),
        r is Ok <==> has_password_id(
            old(store).passwords@,
            authorized_user.id,
            deleted_password_id,
        ),
        r is Err ==> r == Err::<(), ApiError>(ApiError::InternalError),
        final(store).passwords@ == old(store).passwords@.filter(
            |p: Password| !(p.id == deleted_password_id && p.user_id == authorized_user.id),
        ),
        final(store).users@ == old(store).users@,
        final(store).tokens@ == old(store).tokens@,
        final(store).next_user_id == old(store).next_user_id,
        final(store).next_token_id == old(store).next_token_id,
        final(store).next_password_id == old(store).next_password_id,
{
    let deleted = store.delete_password(authorized_user.id, deleted_password_id);
    if deleted {
        Ok(())
    } else {
        proof {
            assert(store.passwords@ =~= old(store).passwords@.filter(
                |p: Password| !(p.id == deleted_password_id && p.user_id == authorized_user.id),
            ));
        }
        Err(ApiError::InternalError)
    }
}

} // verus!
