use vstd::prelude::*;

use crate::codec::check_jwt;
use crate::codec::get_uuid_from_token;
use crate::codec::peeked_claims_of;
use crate::codec::signed_token_of;
use crate::codec::verified_claims_of;
use crate::errors::AuthorizationError;
use crate::models::AuthorizedUser;
use crate::models::DBToken;
use crate::store::has_access_token;
use crate::store::has_refresh_token;
use crate::store::Store;
use crate::text::is_bearer;
use crate::text::strip_bearer;

verus! {

/// The principal names a real session row and the user owning it: the row
/// carries the principal's `token_id` and `id`, and the user's stored
/// fields are the principal's.
pub open spec fn principal_ok(store: Store, au: AuthorizedUser) -> bool {
    &&& exists|i: int|
        0 <= i < store.tokens@.len() && (#[trigger] store.tokens@[i]).id == au.token_id
            && store.tokens@[i].user_id == au.id
    &&& exists|j: int|
        0 <= j < store.users@.len() && (#[trigger] store.users@[j]).id == au.id
            && store.users@[j].email@ == au.email@ && store.users@[j].password@ == au.password@
}

/// The presented token is the signed form of the access identifier that
/// session row `i` of user `j` carries: the row belongs to the user, the
/// token was signed with the user's stored hash over that identifier and
/// expiry `e`, and no earlier row carries the same identifier — so the
/// lookup resolves to exactly this row and this user.
pub open spec fn names_access_session(
    store: Store,
    token: Seq<char>,
    j: int,
    i: int,
    u: Seq<char>,
    e: i64,
) -> bool {
    &&& 0 <= j < store.users@.len()
    &&& 0 <= i < store.tokens@.len()
    &&& token == signed_token_of(store.users@[j].password@, u, e)
    &&& store.tokens@[i].access_token@ == u
    &&& store.tokens@[i].user_id == store.users@[j].id
    &&& forall|k: int| 0 <= k < i ==> (#[trigger] store.tokens@[k]).access_token@ != u
}

/// As `names_access_session`, for the row's refresh identifier.
pub open spec fn names_refresh_session(
    store: Store,
    token: Seq<char>,
    j: int,
    i: int,
    u: Seq<char>,
    e: i64,
) -> bool {
    &&& 0 <= j < store.users@.len()
    &&& 0 <= i < store.tokens@.len()
    &&& token == signed_token_of(store.users@[j].password@, u, e)
    &&& store.tokens@[i].refresh_token@ == u
    &&& store.tokens@[i].user_id == store.users@[j].id
    &&& forall|k: int| 0 <= k < i ==> (#[trigger] store.tokens@[k]).refresh_token@ != u
}

/// A presented token is good for session row `i` of user `j` at `now`: it
/// names that session and its expiry has not passed.
pub open spec fn good_access_token(
    store: Store,
    token: Seq<char>,
    now: i64,
    j: int,
    i: int,
    u: Seq<char>,
    e: i64,
) -> bool {
    names_access_session(store, token, j, i, u, e) && e >= now
}

/// As `good_access_token`, for the row's refresh identifier.
pub open spec fn good_refresh_token(
    store: Store,
    token: Seq<char>,
    now: i64,
    j: int,
    i: int,
    u: Seq<char>,
    e: i64,
) -> bool {
    names_refresh_session(store, token, j, i, u, e) && e >= now
}

/// Load the user owning a matched session row and hold the presented
/// token against that user's stored hash: the trust-establishing half of
/// the two-phase check. Succeeds exactly when the owner exists and the
/// signature and expiry check out; the yielded principal is the owner.
fn get_authorized_user(store: &Store, row: &DBToken, token: &String, now: i64) -> (r: Result<
    AuthorizedUser,
    (),
>)
    requires
        store.wf(),
    ensures
        r matches Ok(au) ==> au.token_id == row.id && au.id == row.user_id && exists|j: int|
            0 <= j < store.users@.len() && (#[trigger] store.users@[j]).id == row.user_id
                && store.users@[j].email@ == au.email@ && store.users@[j].password@
                == au.password@ && (verified_claims_of(store.users@[j].password@, token@) matches
                Some(c) && c.1 >= now),
        forall|j: int, u: Seq<char>, e: i64|
            0 <= j < store.users@.len() && (#[trigger] store.users@[j]).id == row.user_id
                && token@ == #[trigger] signed_token_of(store.users@[j].password@, u, e) && e
                >= now ==> r is Ok,
        forall|j: int, u: Seq<char>, e: i64|
            0 <= j < store.users@.len() && (#[trigger] store.users@[j]).id == row.user_id
                && token@ == #[trigger] signed_token_of(store.users@[j].password@, u, e) && e
                < now ==> r is Err,
{
    let user_index = match store.find_user_index_by_id(row.user_id) {
        Some(j) => j,
        None => return Err(()),
    };
    let user = &store.users[user_index];
    match check_jwt(&user.password, token, now) {
        Ok(()) => Ok(
            AuthorizedUser {
                id: user.id,
                email: user.email.clone(),
                password: user.password.clone(),
                token_id: row.id,
            },
        ),
        Err(_) => Err(()),
    }
}

/// Check a presented access token: peek the session identifier without
/// trusting it, find the first session row carrying it, and let
/// `get_authorized_user` establish trust. Any principal yielded names a
/// real row and its owning user, and a token good for a stored session is
/// never turned away.
pub fn check_authorization(store: &Store, authorization_access_token: &String, now: i64) -> (r:
    Result<AuthorizedUser, ()>)
    requires
        store.wf(),
    ensures
        r matches Ok(au) ==> principal_ok(*store, au),
        forall|j: int, i: int, u: Seq<char>, e: i64|
            good_access_token(*store, authorization_access_token@, now, j, i, u, e) ==> (r matches
                Ok(au) && au.id == store.users@[j].id && au.token_id == store.tokens@[i].id
                && au.email@ == store.users@[j].email@ && au.password@
                == store.users@[j].password@),
        forall|j: int, i: int, u: Seq<char>, e: i64|
            #[trigger] names_access_session(*store, authorization_access_token@, j, i, u, e) && e
                < now ==> r is Err,
        peeked_claims_of(authorization_access_token@) is None ==> r is Err,
        forall|u: Seq<char>|
            #[trigger] peeked_claims_of(authorization_access_token@) == Some(u)
                && !has_access_token(store.tokens@, u) ==> r is Err,
        forall|s: Seq<char>, u: Seq<char>, e: i64|
            authorization_access_token@ == #[trigger] signed_token_of(s, u, e)
                && !has_access_token(store.tokens@, u) ==> r is Err,
        r matches Ok(au) ==> exists|i: int, j: int|
            0 <= i < store.tokens@.len() && 0 <= j < store.users@.len() && (
            #[trigger] store.tokens@[i]).id == au.token_id && store.tokens@[i].user_id == au.id
                && (#[trigger] store.users@[j]).id == au.id && store.users@[j].email@ == au.email@
                && store.users@[j].password@ == au.password@ && peeked_claims_of(
                authorization_access_token@,
            ) == Some(store.tokens@[i].access_token@) && (verified_claims_of(
                store.users@[j].password@,
                authorization_access_token@,
            ) matches Some(c) && c.1 >= now),
{
    let uuid = match get_uuid_from_token(authorization_access_token.as_str()) {
        Some(u) => u,
        None => {
            return Err(());
        },
    };
    let token_index = match store.find_token_index_by_access(&uuid) {
        Some(i) => i,
        None => {
            return Err(());
        },
    };
    let row = store.tokens[token_index].clone();
    let r = get_authorized_user(store, &row, authorization_access_token, now);
    proof {
        assert forall|j: int, i: int, u: Seq<char>, e: i64|
            good_access_token(
                *store,
                authorization_access_token@,
                now,
                j,
                i,
                u,
                e,
            ) implies (r matches Ok(au) && au.id == store.users@[j].id && au.token_id
            == store.tokens@[i].id && au.email@ == store.users@[j].email@ && au.password@
            == store.users@[j].password@) by {
            assert(uuid@ == u);
            assert(token_index == i);
            assert(row.user_id == store.users@[j].id);
        }
        assert forall|j: int, i: int, u: Seq<char>, e: i64|
            #[trigger] names_access_session(
                *store,
                authorization_access_token@,
                j,
                i,
                u,
                e,
            ) && e < now implies r is Err by {
            assert(uuid@ == u);
            assert(token_index == i);
            assert(row.user_id == store.users@[j].id);
        }
        assert forall|u: Seq<char>|
            #[trigger] peeked_claims_of(authorization_access_token@) == Some(u)
                && !has_access_token(store.tokens@, u) implies r is Err by {
            assert(u == uuid@);
            assert(store.tokens@[token_index as int].access_token@ == uuid@);
        }
        assert forall|s: Seq<char>, u: Seq<char>, e: i64|
            authorization_access_token@ == #[trigger] signed_token_of(s, u, e)
                && !has_access_token(store.tokens@, u) implies r is Err by {
            assert(uuid@ == u);
            assert(store.tokens@[token_index as int].access_token@ == uuid@);
        }
        if r is Ok {
            let au = r->Ok_0;
            let j = choose|j: int|
                0 <= j < store.users@.len() && (#[trigger] store.users@[j]).id == row.user_id
                    && store.users@[j].email@ == au.email@ && store.users@[j].password@
                    == au.password@ && (verified_claims_of(
                    store.users@[j].password@,
                    authorization_access_token@,
                ) matches Some(c) && c.1 >= now);
            assert(store.tokens@[token_index as int].id == au.token_id);
            assert(store.tokens@[token_index as int].user_id == au.id);
            assert(peeked_claims_of(authorization_access_token@) == Some(
                store.tokens@[token_index as int].access_token@,
            ));
        }
    }
    r
}

/// As `check_authorization`, against the refresh identifiers: the lookup
/// the token-refresh endpoint goes through.
pub fn check_refresh(store: &Store, payload_refresh_token: &String, now: i64) -> (r: Result<
    AuthorizedUser,
    (),
>)
    requires
        store.wf(),
    ensures
        r matches Ok(au) ==> principal_ok(*store, au),
        forall|j: int, i: int, u: Seq<char>, e: i64|
            good_refresh_token(*store, payload_refresh_token@, now, j, i, u, e) ==> (r matches Ok(
                au,
            ) && au.id == store.users@[j].id && au.token_id == store.tokens@[i].id && au.email@
                == store.users@[j].email@ && au.password@ == store.users@[j].password@),
        forall|j: int, i: int, u: Seq<char>, e: i64|
            #[trigger] names_refresh_session(*store, payload_refresh_token@, j, i, u, e) && e
                < now ==> r is Err,
        peeked_claims_of(payload_refresh_token@) is None ==> r is Err,
        forall|u: Seq<char>|
            #[trigger] peeked_claims_of(payload_refresh_token@) == Some(u) && !has_refresh_token(
                store.tokens@,
                u,
            ) ==> r is Err,
        forall|s: Seq<char>, u: Seq<char>, e: i64|
            payload_refresh_token@ == #[trigger] signed_token_of(s, u, e) && !has_refresh_token(
                store.tokens@,
                u,
            ) ==> r is Err,
        r matches Ok(au) ==> exists|i: int, j: int|
            0 <= i < store.tokens@.len() && 0 <= j < store.users@.len() && (
            #[trigger] store.tokens@[i]).id == au.token_id && store.tokens@[i].user_id == au.id
                && (#[trigger] store.users@[j]).id == au.id && store.users@[j].email@ == au.email@
                && store.users@[j].password@ == au.password@ && peeked_claims_of(
                payload_refresh_token@,
            ) == Some(store.tokens@[i].refresh_token@) && (verified_claims_of(
                store.users@[j].password@,
                payload_refresh_token@,
            ) matches Some(c) && c.1 >= now),
{
    let uuid = match get_uuid_from_token(payload_refresh_token.as_str()) {
        Some(u) => u,
        None => {
            return Err(());
        },
    };
    let token_index = match store.find_token_index_by_refresh(&uuid) {
        Some(i) => i,
        None => {
            return Err(());
        },
    };
    let row = store.tokens[token_index].clone();
    let r = get_authorized_user(store, &row, payload_refresh_token, now);
    proof {
        assert forall|j: int, i: int, u: Seq<char>, e: i64|
            good_refresh_token(
                *store,
                payload_refresh_token@,
                now,
                j,
                i,
                u,
                e,
            ) implies (r matches Ok(au) && au.id == store.users@[j].id && au.token_id
            == store.tokens@[i].id && au.email@ == store.users@[j].email@ && au.password@
            == store.users@[j].password@) by {
            assert(uuid@ == u);
            assert(token_index == i);
            assert(row.user_id == store.users@[j].id);
        }
        assert forall|j: int, i: int, u: Seq<char>, e: i64|
            #[trigger] names_refresh_session(
                *store,
                payload_refresh_token@,
                j,
                i,
                u,
                e,
            ) && e < now implies r is Err by {
            assert(uuid@ == u);
            assert(token_index == i);
            assert(row.user_id == store.users@[j].id);
        }
        assert forall|u: Seq<char>|
            #[trigger] peeked_claims_of(payload_refresh_token@) == Some(u) && !has_refresh_token(
                store.tokens@,
                u,
            ) implies r is Err by {
            assert(u == uuid@);
            assert(store.tokens@[token_index as int].refresh_token@ == uuid@);
        }
        assert forall|s: Seq<char>, u: Seq<char>, e: i64|
            payload_refresh_token@ == #[trigger] signed_token_of(s, u, e) && !has_refresh_token(
                store.tokens@,
                u,
            ) implies r is Err by {
            assert(uuid@ == u);
            assert(store.tokens@[token_index as int].refresh_token@ == uuid@);
        }
        if r is Ok {
            let au = r->Ok_0;
            let j = choose|j: int|
                0 <= j < store.users@.len() && (#[trigger] store.users@[j]).id == row.user_id
                    && store.users@[j].email@ == au.email@ && store.users@[j].password@
                    == au.password@ && (verified_claims_of(
                    store.users@[j].password@,
                    payload_refresh_token@,
                ) matches Some(c) && c.1 >= now);
            assert(store.tokens@[token_index as int].id == au.token_id);
            assert(store.tokens@[token_index as int].user_id == au.id);
            assert(peeked_claims_of(payload_refresh_token@) == Some(
                store.tokens@[token_index as int].refresh_token@,
            ));
        }
    }
    r
}

/// The per-request guard: no header fails as missing, a header without
/// the bearer shape fails as invalid, and otherwise the token past the
/// prefix is checked against the store. Every protected endpoint goes
/// through this before any of its own logic.
pub fn authorize_request(store: &Store, header: Option<&String>, now: i64) -> (r: Result<
    AuthorizedUser,
    AuthorizationError,
>)
    requires
        store.wf(),
    ensures
        header is None <==> r == Err::<AuthorizedUser, AuthorizationError>(
            AuthorizationError::Missing,
        ),
        (header matches Some(h) && !is_bearer(h@)) <==> r == Err::<
            AuthorizedUser,
            AuthorizationError,
        >(AuthorizationError::Invalid),
        r matches Ok(au) ==> principal_ok(*store, au) && (header matches Some(h) && is_bearer(h@)),
        (match header {
            Some(h) => forall|j: int, i: int, u: Seq<char>, e: i64|
                is_bearer(h@) && #[trigger] good_access_token(
                    *store,
                    h@.subrange(7, h@.len() as int),
                    now,
                    j,
                    i,
                    u,
                    e,
                ) ==> (r matches Ok(au) && au.id == store.users@[j].id && au.token_id
                    == store.tokens@[i].id),
            None => true,
        }),
        (match header {
            Some(h) => forall|j: int, i: int, u: Seq<char>, e: i64|
                is_bearer(h@) && #[trigger] names_access_session(
                    *store,
                    h@.subrange(7, h@.len() as int),
                    j,
                    i,
                    u,
                    e,
                ) && e < now ==> r == Err::<AuthorizedUser, AuthorizationError>(
                    AuthorizationError::Unauthorized,
                ),
            None => true,
        }),
        (match header {
            Some(h) => is_bearer(h@) && peeked_claims_of(h@.subrange(7, h@.len() as int)) is None
                ==> r == Err::<AuthorizedUser, AuthorizationError>(
                AuthorizationError::Unauthorized,
            ),
            None => true,
        }),
        (match header {
            Some(h) => forall|u: Seq<char>|
                is_bearer(h@) && #[trigger] peeked_claims_of(h@.subrange(7, h@.len() as int))
                    == Some(u) && !has_access_token(store.tokens@, u) ==> r == Err::<
                    AuthorizedUser,
                    AuthorizationError,
                >(AuthorizationError::Unauthorized),
            None => true,
        }),
        r matches Ok(au) ==> (header matches Some(h) && exists|i: int, j: int|
            0 <= i < store.tokens@.len() && 0 <= j < store.users@.len() && (
            #[trigger] store.tokens@[i]).id == au.token_id && store.tokens@[i].user_id == au.id
                && (#[trigger] store.users@[j]).id == au.id && store.users@[j].email@ == au.email@
                && store.users@[j].password@ == au.password@ && peeked_claims_of(
                h@.subrange(7, h@.len() as int),
            ) == Some(store.tokens@[i].access_token@) && (verified_claims_of(
                store.users@[j].password@,
                h@.subrange(7, h@.len() as int),
            ) matches Some(c) && c.1 >= now)),
{
    let h = match header {
        Some(h) => h,
        None => {
            return Err(AuthorizationError::Missing);
        },
    };
    let token = match strip_bearer(h.as_str()) {
        Some(t) => t,
        None => {
            return Err(AuthorizationError::Invalid);
        },
    };
    match check_authorization(store, &token, now) {
        Ok(au) => Ok(au),
        Err(()) => Err(AuthorizationError::Unauthorized),
    }
}

} // verus!
