//! Positions shown beside a file in progress.
use vstd::prelude::*;

verus! {

/// Where a download stands among the posts of a run.
#[derive(Clone, Copy, PartialEq, Eq, Structural, Debug)]
pub struct PageStatus {
    pub current: u32,
    pub total: u32,
}

/// What a worker shows for the post it has taken: how many posts wait in the queue and how
/// many the run started with.
#[derive(Clone, Copy, PartialEq, Eq, Structural, Debug)]
pub struct StatusBar {
    pub queues: u32,
    pub total: u32,
}

} // verus!
