use vstd::prelude::*;

verus! {

/// A page of query results: page number, page size, total row count across
/// all pages, and the rows of this page.
pub struct CurdPage<T> {
    pub page_no: u32,
    pub page_size: u32,
    pub total: u32,
    pub data: Vec<T>,
}

impl<T> CurdPage<T> {
    /// A page is well formed when its number starts at one and it holds no
    /// more rows than its size allows.
    pub open spec fn is_well_formed(&self) -> bool {
        &&& self.page_no >= 1
        &&& self.data@.len() <= self.page_size
    }
}

} // verus!
