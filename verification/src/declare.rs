use vstd::prelude::*;

verus! {

/// Counter type of every retry budget.
pub type RetryType = u32;

/// Counter type of the number of concurrent workers.
pub type TaskType = usize;

/// Number of workers when the caller names none.
pub const TASK: usize = 8;

/// Seconds to wait after a rate-limited response before asking again.
pub const TOO_MANY_REQUESTS_DELAY_SEC: u64 = 10;

/// Seconds to wait after any other failed request before asking again.
pub const ERROR_REQUEST_DELAY_SEC: u64 = 2;

/// Seconds to wait after a response body broke off before asking for the rest.
pub const RECONNECT_DELAY_SEC: u64 = 1;

/// How often the write of one chunk is tried again before the transfer is given up.
pub const WRITE_RETRY: RetryType = 10;

/// A listing page whose body holds fewer bytes than this holds no post.
pub const EMPTY_PAGE_BYTES: u64 = 10;

/// How many empty answers in a row end a listing.
pub const EMPTY_CONFIRMATIONS: u32 = 3;

/// Number of posts on one listing page.
pub const POSTS_PER_PAGE: u64 = 50;

} // verus!
