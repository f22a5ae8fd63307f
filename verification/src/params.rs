use vstd::prelude::*;

verus! {

/// Default page number when the caller names none: the first page.
pub fn default_page_no() -> (r: u32)
    ensures
        r == 1,
{
    1
}

/// Default page size when the caller names none.
pub fn default_page_size() -> (r: u32)
    ensures
        r == 20,
{
    20
}

/// Default publication flag when the caller names none: a draft.
pub fn default_published() -> (r: bool)
    ensures
        r == false,
{
    false
}

/// Validated paging input: pages are counted from 1.
pub struct PostListParam {
    pub page_no: u32,
    pub page_size: u32,
}

impl PostListParam {
    pub open spec fn valid(&self) -> bool {
        self.page_no >= 1
    }

    /// Fill the defaults in for fields the caller left absent.
    pub fn from_parts(page_no: Option<u32>, page_size: Option<u32>) -> (r: PostListParam)
        ensures
            page_no matches Some(n) ==> ((n >= 1 ==> r.page_no == n) && (n < 1 ==> r.page_no
                == 1)),
            page_no is None ==> r.page_no == 1,
            page_size matches Some(s) ==> r.page_size == s,
            page_size is None ==> r.page_size == 20,
            r.valid(),
    {
        let no = match page_no {
            Some(n) => if n >= 1 {
                n
            } else {
                default_page_no()
            },
            None => default_page_no(),
        };
        let size = match page_size {
            Some(s) => s,
            None => default_page_size(),
        };
        PostListParam { page_no: no, page_size: size }
    }
}

/// Validated detail-lookup input.
pub struct PostDetailParam {
    pub post_id: i64,
}

/// Validated creation input.
pub struct PostCreateParam {
    pub title: String,
    pub content: String,
    pub published: bool,
}

} // verus!
