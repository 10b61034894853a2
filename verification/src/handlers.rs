//! Transport-facing request types. The handlers themselves translate HTTP
//! requests into service calls and live outside the verified boundary; the
//! types and the input constraints they must check before calling in are
//! stated here.

use vstd::prelude::*;

verus! {

/// Paging parameters accepted by the article listing endpoint.
pub struct Params {
    pub page: i32,
    pub page_size: i32,
}

impl Params {
    /// The constraint the listing operations place on paging inputs: a
    /// non-negative page index and a positive page size.
    pub open spec fn valid(&self) -> bool {
        self.page >= 0 && self.page_size > 0
    }

    /// Checks the paging constraint, so a caller at the boundary can reject
    /// a request before it reaches the service.
    pub fn is_valid(&self) -> (b: bool)
        ensures
            b == self.valid(),
    {
        self.page >= 0 && self.page_size > 0
    }
}

} // verus!
