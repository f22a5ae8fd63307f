use vstd::prelude::*;

use crate::codes::{FAILED_CODE, NOT_FOUND_CODE, SUCCESS_CODE};
use crate::envelope::ApiResponse;
use crate::gate::PoolGate;
use crate::params::{PostDetailParam, PostListParam};
use crate::posts::{Post, PostStore};
use crate::render::{render, DiagnosticRecord};
use crate::service::{page_end, page_start, PostService, PostServiceImpl};

verus! {

/// The post-list route's compute core: lease a connection, run the
/// list operation, hand the lease back on every path, and wrap either
/// branch in the one envelope shape. An acquisition failure surfaces
/// as a rendered system failure with its one diagnostic record.
pub fn list_posts(gate: &mut PoolGate, store: &PostStore, param: &PostListParam) -> (r: (
    ApiResponse<Vec<Post>>,
    Option<DiagnosticRecord>,
))
    requires
        old(gate).well_formed(),
        store.well_formed(),
        param.valid(),
    ensures
        final(gate).well_formed(),
        final(gate).same_config(old(gate)),
        final(gate).outstanding@ == old(gate).outstanding@,
        old(gate).can_grant() ==> (final(gate).state == old(gate).state && final(gate).next_token
            == old(gate).next_token + 1 && final(gate).acquire_failures == old(
            gate,
        ).acquire_failures),
        !old(gate).can_grant() ==> final(gate).next_token == old(gate).next_token,
        old(gate).can_grant() ==> (r.0.code == SUCCESS_CODE && (r.0.data matches Some(page)
            && page@.len() == page_end(*param, store.posts@.len() as int) - page_start(*param)
            && (forall|k: int|
            0 <= k < page@.len() ==> page@[k].same_as(&store.posts@[page_start(*param) + k])))
            && r.0.message is None && r.1 is None),
        !old(gate).can_grant() ==> (r.0.code == FAILED_CODE && r.0.data is None
            && r.0.well_formed() && (r.0.message matches Some(m) && (r.1 matches Some(rec)
            && rec.message@ == m@ && rec.cause is None && rec.trace is Some))),
        !old(gate).serving() ==> (r.0.message matches Some(m) && m@ == "连接池未在服务状态"@),
        old(gate).serving() && !old(gate).can_grant() ==> (r.0.message matches Some(m) && m@
            == "连接池获取超时"@),
{
    let conn = match gate.acquire() {
        Ok(c) => c,
        Err(e) => {
            let (env, rec) = render(e);
            return (ApiResponse::from_failure(env), rec);
        },
    };
    let ghost token = conn.token;
    let service = PostServiceImpl::new();
    let result = service.list(&conn, store, param);
    gate.release(conn);
    proof {
        let s_old = old(gate).outstanding@;
        assert(s_old.push(token)[s_old.len() as int] == token);
        assert(s_old.push(token).contains(token));
        lemma_fresh_lease_returned(s_old, gate.outstanding@, token);
    }
    match result {
        Ok(page) => (ApiResponse::success(Some(page)), None),
        Err(_) => {
            assert(false);
            (ApiResponse::success(None), None)
        },
    }
}

/// The post-detail route's compute core. Absence of the record is an
/// expected business outcome: the envelope carries the distinguished
/// not-found code and no diagnostic record is owed.
pub fn detail_post(gate: &mut PoolGate, store: &PostStore, param: &PostDetailParam) -> (r: (
    ApiResponse<Post>,
    Option<DiagnosticRecord>,
))
    requires
        old(gate).well_formed(),
        store.well_formed(),
    ensures
        final(gate).well_formed(),
        final(gate).same_config(old(gate)),
        final(gate).outstanding@ == old(gate).outstanding@,
        old(gate).can_grant() ==> (final(gate).state == old(gate).state && final(gate).next_token
            == old(gate).next_token + 1 && final(gate).acquire_failures == old(
            gate,
        ).acquire_failures),
        !old(gate).can_grant() ==> final(gate).next_token == old(gate).next_token,
        old(gate).can_grant() && store.contains_id(param.post_id) ==> (r.0.code == SUCCESS_CODE
            && (r.0.data matches Some(p) && p.id == param.post_id) && r.0.message is None && r.1
            is None),
        old(gate).can_grant() && !store.contains_id(param.post_id) ==> (r.0.code
            == NOT_FOUND_CODE && r.0.data is None && (r.0.message matches Some(m) && m@
            == "记录不存在"@) && r.1 is None && r.0.well_formed()),
        !old(gate).can_grant() ==> (r.0.code == FAILED_CODE && r.0.data is None
            && r.0.well_formed() && (r.0.message matches Some(m) && (r.1 matches Some(rec)
            && rec.message@ == m@ && rec.cause is None && rec.trace is Some))),
        !old(gate).serving() ==> (r.0.message matches Some(m) && m@ == "连接池未在服务状态"@),
        old(gate).serving() && !old(gate).can_grant() ==> (r.0.message matches Some(m) && m@
            == "连接池获取超时"@),
{
    let conn = match gate.acquire() {
        Ok(c) => c,
        Err(e) => {
            let (env, rec) = render(e);
            return (ApiResponse::from_failure(env), rec);
        },
    };
    let ghost token = conn.token;
    let service = PostServiceImpl::new();
    let result = service.detail(&conn, store, param.post_id);
    gate.release(conn);
    proof {
        let s_old = old(gate).outstanding@;
        assert(s_old.push(token)[s_old.len() as int] == token);
        assert(s_old.push(token).contains(token));
        lemma_fresh_lease_returned(s_old, gate.outstanding@, token);
    }
    match result {
        Ok(post) => (ApiResponse::success(Some(post)), None),
        Err(e) => {
            let (env, rec) = render(e);
            (ApiResponse::from_failure(env), rec)
        },
    }
}

/// Pushing a fresh token and then removing it restores the books.
proof fn lemma_fresh_lease_returned(before: Seq<u64>, after: Seq<u64>, token: u64)
    requires
        !before.contains(token),
        exists|k: int|
            0 <= k < before.push(token).len() && before.push(token)[k] == token && after
                == before.push(token).remove(k),
    ensures
        after == before,
{
    let mid = before.push(token);
    let k = choose|k: int| 0 <= k < mid.len() && mid[k] == token && after == mid.remove(k);
    if k < before.len() {
        assert(mid[k] == before[k]);
        assert(before[k] == token);
        assert(false);
    }
    assert(k == before.len());
    assert(mid.remove(k) =~= before);
}

} // verus!
