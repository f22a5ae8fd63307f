use vstd::prelude::*;

verus! {

/// A forum post. Timestamps are seconds since the Unix epoch; the
/// persistence collaborator's calendar type stays at the edge and is
/// converted to and from these plain values there.
#[derive(Debug)]
pub struct Post {
    pub id: i64,
    pub title: String,
    pub content: String,
    pub published: bool,
    pub created_at: i64,
    pub updated_at: i64,
}

impl Post {
    /// Field-for-field sameness, texts compared by content.
    pub open spec fn same_as(&self, other: &Post) -> bool {
        &&& self.id == other.id
        &&& self.title@ == other.title@
        &&& self.content@ == other.content@
        &&& self.published == other.published
        &&& self.created_at == other.created_at
        &&& self.updated_at == other.updated_at
    }

    /// An owned copy with the same content.
    pub fn duplicate(&self) -> (r: Post)
        ensures
            r.same_as(self),
            self.same_as(&r),
    {
        Post {
            id: self.id,
            title: self.title.clone(),
            content: self.content.clone(),
            published: self.published,
            created_at: self.created_at,
            updated_at: self.updated_at,
        }
    }
}

/// The reference in-memory backend: every stored post under a distinct
/// identifier.
pub struct PostStore {
    pub posts: Vec<Post>,
}

impl PostStore {
    /// Identifiers are pairwise distinct.
    pub open spec fn well_formed(&self) -> bool {
        forall|i: int, j: int|
            0 <= i < j < self.posts@.len() ==> self.posts@[i].id != self.posts@[j].id
    }

    /// Whether some stored post carries this identifier.
    pub open spec fn contains_id(&self, id: i64) -> bool {
        exists|i: int| 0 <= i < self.posts@.len() && self.posts@[i].id == id
    }

    pub fn new() -> (r: PostStore)
        ensures
            r.well_formed(),
            r.posts@.len() == 0,
    {
        PostStore { posts: Vec::new() }
    }

    /// Where the post with this identifier sits, if anywhere.
    pub fn find_index(&self, id: i64) -> (r: Option<usize>)
        ensures
            r matches Some(i) ==> i < self.posts@.len() && self.posts@[i as int].id == id,
            r is None ==> !self.contains_id(id),
    {
        let mut i: usize = 0;
        while i < self.posts.len()
            invariant
                i <= self.posts@.len(),
                forall|k: int| 0 <= k < i ==> self.posts@[k].id != id,
            decreases self.posts@.len() - i,
        {
            if self.posts[i].id == id {
                return Some(i);
            }
            i = i + 1;
        }
        None
    }

    /// Store a post. A fresh identifier is accepted; a duplicate is
    /// refused and the store stands unchanged.
    pub fn insert(&mut self, post: Post) -> (r: bool)
        requires
            old(self).well_formed(),
        ensures
            final(self).well_formed(),
            !old(self).contains_id(post.id) ==> r && final(self).posts@ == old(self).posts@.push(
                post,
            ),
            old(self).contains_id(post.id) ==> !r && *final(self) == *old(self),
    {
        match self.find_index(post.id) {
            Some(_) => false,
            None => {
                self.posts.push(post);
                true
            },
        }
    }
}

} // verus!
