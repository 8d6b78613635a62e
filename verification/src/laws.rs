use vstd::prelude::*;

use crate::models::DBToken;
use crate::models::Password;
use crate::models::User;
use crate::store::email_taken;
use crate::store::has_access_token;
use crate::store::has_password_id;
use crate::store::has_refresh_token;
use crate::store::Store;

verus! {

broadcast use vstd::seq_lib::group_filter_ensures;

/// Registering an account makes its e-mail taken: a store that has just
/// accepted a user holds that user's e-mail, so a second registration of
/// the same e-mail meets `post_auth_users`' conflict clause and is
/// refused. The two registrations land as created, then conflict.
pub proof fn lemma_register_twice_conflicts(users: Seq<User>, u: User, email: Seq<char>)
    requires
        u.email@ == email,
    ensures
        email_taken(users.push(u), email),
{
    assert(users.push(u)[users.len() as int] == u);
}

/// Rotation invalidates the prior pair: once the session row carrying
/// `token_id` has had its identifiers overwritten with a fresh pair, a
/// lookup of either old identifier hits no row, and the new pair is
/// found. The guard's own contract then refuses any token signed over an
/// identifier no row carries, so the prior access and refresh tokens are
/// both turned away. Stated for a rotation whose fresh identifiers differ
/// from the old ones — the draw of two identifiers is random, so an
/// identifier's freshness is a premise, not a given — and for a store in
/// which no other row happened to carry the old identifiers.
pub proof fn lemma_rotation_invalidates(
    pre: Store,
    post: Store,
    token_id: i32,
    old_access: Seq<char>,
    old_refresh: Seq<char>,
    new_access: Seq<char>,
    new_refresh: Seq<char>,
)
    requires
        post.tokens@.len() == pre.tokens@.len(),
        forall|i: int|
            0 <= i < pre.tokens@.len() && (#[trigger] pre.tokens@[i]).id != token_id
                ==> post.tokens@[i] == pre.tokens@[i],
        forall|i: int|
            0 <= i < pre.tokens@.len() && (#[trigger] pre.tokens@[i]).id == token_id
                ==> post.tokens@[i].access_token@ == new_access
                && post.tokens@[i].refresh_token@ == new_refresh,
        exists|i: int|
            0 <= i < pre.tokens@.len() && (#[trigger] pre.tokens@[i]).id == token_id,
        forall|k: int|
            0 <= k < pre.tokens@.len() && (#[trigger] pre.tokens@[k]).id != token_id
                ==> pre.tokens@[k].access_token@ != old_access && pre.tokens@[k].refresh_token@
                != old_refresh,
        new_access != old_access,
        new_refresh != old_refresh,
    ensures
        !has_access_token(post.tokens@, old_access),
        !has_refresh_token(post.tokens@, old_refresh),
        has_access_token(post.tokens@, new_access),
        has_refresh_token(post.tokens@, new_refresh),
{
    assert forall|k: int| 0 <= k < post.tokens@.len() implies (#[trigger] post.tokens@[k]).access_token@
        != old_access && post.tokens@[k].refresh_token@ != old_refresh by {
        if pre.tokens@[k].id == token_id {
            assert(post.tokens@[k].access_token@ == new_access);
        } else {
            assert(post.tokens@[k] == pre.tokens@[k]);
        }
    }
    let i = choose|i: int|
        0 <= i < pre.tokens@.len() && (#[trigger] pre.tokens@[i]).id == token_id;
    assert(post.tokens@[i].access_token@ == new_access);
    assert(post.tokens@[i].refresh_token@ == new_refresh);
}

/// Invalidating all sessions of a user makes every identifier those
/// sessions carried unfindable: after the deletion of the user's rows, a
/// lookup of any identifier held only by that user's rows — as every
/// identifier the library itself issued to the user is, short of a random
/// collision — hits nothing, and the guard's contract then refuses every
/// token signed over such an identifier.
pub proof fn lemma_invalidate_all_unfindable(
    pre: Store,
    post: Store,
    user_id: i32,
    uuid: Seq<char>,
)
    requires
        post.tokens@ == pre.tokens@.filter(|t: DBToken| t.user_id != user_id),
        forall|k: int|
            0 <= k < pre.tokens@.len() && ((#[trigger] pre.tokens@[k]).access_token@ == uuid
                || pre.tokens@[k].refresh_token@ == uuid) ==> pre.tokens@[k].user_id == user_id,
    ensures
        !has_access_token(post.tokens@, uuid),
        !has_refresh_token(post.tokens@, uuid),
{
    let pred = |t: DBToken| t.user_id != user_id;
    assert forall|k: int| 0 <= k < post.tokens@.len() implies (#[trigger] post.tokens@[k]).access_token@
        != uuid && post.tokens@[k].refresh_token@ != uuid by {
        let elem = post.tokens@[k];
        assert(pre.tokens@.filter(pred).contains(elem));
        pre.tokens@.lemma_filter_contains_rev(pred, elem);
        let b = choose|b: int| 0 <= b < pre.tokens@.len() && pre.tokens@[b] == elem;
        assert(pred(elem));
        assert(pre.tokens@[b].user_id != user_id);
    }
}

/// Round trip for parameter records: a freshly inserted record is found
/// by its id under its owner, and whatever a lookup of that id and owner
/// yields is field-for-field the record that was inserted — the fields
/// come back byte-identical.
pub proof fn lemma_password_round_trip(pre: Store, post: Store, row: Password)
    requires
        pre.wf(),
        post.wf(),
        post.passwords@ == pre.passwords@.push(row),
        row.id == pre.next_password_id,
    ensures
        has_password_id(post.passwords@, row.user_id, row.id),
        forall|i: int|
            0 <= i < post.passwords@.len() && (#[trigger] post.passwords@[i]).id == row.id
                && post.passwords@[i].user_id == row.user_id ==> post.passwords@[i] == row,
{
    let n = pre.passwords@.len() as int;
    assert(post.passwords@[n] == row);
    assert forall|i: int|
        0 <= i < post.passwords@.len() && (#[trigger] post.passwords@[i]).id == row.id
            && post.passwords@[i].user_id == row.user_id implies post.passwords@[i] == row by {
        if i < n {
            assert(post.passwords@[i] == pre.passwords@[i]);
            assert(pre.passwords@[i].id < pre.next_password_id);
        }
    }
}

} // verus!
