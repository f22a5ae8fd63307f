use vstd::prelude::*;

use crate::codes::{GENERAL_BUSINESS_CODE, NOT_FOUND_CODE};
use crate::errors::{record_not_found, BusinessError, CommonError};
use crate::gate::Connection;
use crate::params::PostListParam;
use crate::posts::{Post, PostStore};

verus! {

/// First index of the requested page, pages counted from 1.
pub open spec fn page_start(param: PostListParam) -> int {
    (param.page_no - 1) * param.page_size
}

/// One-past-last index of the requested page over a store of `total`
/// posts: a page that starts beyond the store is empty.
pub open spec fn page_end(param: PostListParam, total: int) -> int {
    if page_start(param) >= total {
        page_start(param)
    } else if page_start(param) + param.page_size <= total {
        page_start(param) + param.page_size
    } else {
        total
    }
}

/// The shape of every business operation over posts: an exclusively
/// owned pooled connection and validated input go in, the entity or a
/// taxonomy failure comes out. No operation retries internally, and
/// absence of a record is an expected business outcome, never a system
/// failure.
pub trait PostService {
    /// One page of the stored posts, in storage order.
    fn list(&self, conn: &Connection, store: &PostStore, param: &PostListParam) -> (r: Result<
        Vec<Post>,
        CommonError,
    >)
        requires
            store.well_formed(),
            param.valid(),
        ensures
            r matches Ok(page) && page@.len() == page_end(*param, store.posts@.len() as int)
                - page_start(*param) && (forall|k: int|
                0 <= k < page@.len() ==> page@[k].same_as(
                    &store.posts@[page_start(*param) + k],
                )),
    ;

    /// The post under this identifier, or the distinguished not-found
    /// business failure; never a system failure for mere absence.
    fn detail(&self, conn: &Connection, store: &PostStore, post_id: i64) -> (r: Result<
        Post,
        CommonError,
    >)
        requires
            store.well_formed(),
        ensures
            store.contains_id(post_id) ==> (r matches Ok(p) && p.id == post_id && (exists|i: int|
                0 <= i < store.posts@.len() && store.posts@[i].id == post_id && p.same_as(
                    &store.posts@[i],
                ))),
            !store.contains_id(post_id) ==> (r matches Err(e) && e matches CommonError::Biz(b)
                && b.code == NOT_FOUND_CODE && b.message@ == "记录不存在"@ && b.well_formed()),
    ;

    /// Store a new post. This version of the contract does not provide
    /// creation yet: every implementation refuses it with the general
    /// business failure and leaves the storage untouched.
    fn create(&self, conn: &Connection, store: &mut PostStore, post: Post) -> (r: Result<
        Post,
        CommonError,
    >)
        requires
            old(store).well_formed(),
        ensures
            *final(store) == *old(store),
            final(store).well_formed(),
            r matches Err(e) && e matches CommonError::Biz(b) && b.code == GENERAL_BUSINESS_CODE
                && b.message@ == "Create post not implemented yet"@ && b.well_formed(),
    ;
}

/// The user-facing service surface; its implementations live with the
/// persistence collaborator.
pub trait UserService: Send + Sync {
    fn get_user(&self, user_id: i32) -> Option<String>;
}

/// The reference implementation of the post operations, working off
/// the in-memory backend.
pub struct PostServiceImpl;

impl PostServiceImpl {
    pub fn new() -> (r: Self)
        ensures
            true,
    {
        PostServiceImpl
    }
}

impl Default for PostServiceImpl {
    fn default() -> (r: Self)
        ensures
            true,
    {
        PostServiceImpl::new()
    }
}

impl PostService for PostServiceImpl {
    fn list(&self, conn: &Connection, store: &PostStore, param: &PostListParam) -> (r: Result<
        Vec<Post>,
        CommonError,
    >) {
        let total = store.posts.len();
        let a: u64 = param.page_no as u64 - 1;
        let b: u64 = param.page_size as u64;
        proof {
            assert(a * b <= 0xFFFF_FFFEu64 * 0xFFFF_FFFFu64) by (nonlinear_arith)
                requires
                    a <= 0xFFFF_FFFEu64,
                    b <= 0xFFFF_FFFFu64,
            ;
        }
        let start64: u64 = a * b;
        if start64 >= total as u64 {
            let empty: Vec<Post> = Vec::new();
            return Ok(empty);
        }
        let start: usize = start64 as usize;
        let mut page: Vec<Post> = Vec::new();
        let mut k: usize = start;
        while k < total && k - start < param.page_size as usize
            invariant
                start <= k <= total,
                total == store.posts@.len(),
                start == page_start(*param),
                k - start <= param.page_size,
                page@.len() == k - start,
                forall|m: int|
                    0 <= m < page@.len() ==> page@[m].same_as(&store.posts@[start + m]),
            decreases total - k,
        {
            let p = self.detail_copy_at(store, k);
            page.push(p);
            k = k + 1;
        }
        Ok(page)
    }

    fn detail(&self, conn: &Connection, store: &PostStore, post_id: i64) -> (r: Result<
        Post,
        CommonError,
    >) {
        match store.find_index(post_id) {
            Some(i) => Ok(self.detail_copy_at(store, i)),
            None => Err(CommonError::Biz(record_not_found())),
        }
    }

    fn create(&self, conn: &Connection, store: &mut PostStore, post: Post) -> (r: Result<
        Post,
        CommonError,
    >) {
        Err(CommonError::Biz(BusinessError::custom("Create post not implemented yet".to_owned())))
    }
}

impl PostServiceImpl {
    /// An owned copy of the stored post at this position.
    fn detail_copy_at(&self, store: &PostStore, i: usize) -> (r: Post)
        requires
            i < store.posts@.len(),
        ensures
            r.same_as(&store.posts@[i as int]),
    {
        let p: &Post = &store.posts[i];
        p.duplicate()
    }
}

} // verus!
