use vstd::prelude::*;

verus! {

/// Posts skipped when a listing does not say.
pub const DEFAULT_SKIP: i32 = 0;

/// Posts listed at most when a listing does not say.
pub const DEFAULT_TAKE: i32 = 10;

/// Which page of posts a listing asks for.
#[derive(Clone, Copy, Debug, PartialEq, Eq, Structural)]
pub struct PaginationOptions {
    pub skip: Option<i32>,
    pub take: Option<i32>,
}

impl PaginationOptions {
    /// The number of posts to skip.
    pub open spec fn skip_or_default(self) -> i32 {
        match self.skip {
            Some(s) => s,
            None => DEFAULT_SKIP,
        }
    }

    /// The number of posts to list at most.
    pub open spec fn take_or_default(self) -> i32 {
        match self.take {
            Some(t) => t,
            None => DEFAULT_TAKE,
        }
    }
}

} // verus!
