//! Bridge between host-owned process variables and asynchronous application tasks.
//!
//! The host drives each variable through a locked "request / start / done"
//! protocol; the handles in this crate turn that protocol into step-wise
//! read and write operations whose progress is proved to follow the legal
//! state graph.
use vstd::prelude::*;

pub mod proc_state;
pub mod raw;
pub mod read;
pub mod registry;
pub mod read_array;
pub mod write;
pub mod write_array;
pub mod typing;
pub mod any;
pub mod channel;
pub mod async_counter;
pub mod async_flag;
pub mod double_vec;

verus! {

/// Adds two sizes.
pub fn add(left: usize, right: usize) -> (r: usize)
    requires
        left + right <= usize::MAX,
    ensures
        r == left + right,
{
    left + right
}

} // verus!
