use vstd::prelude::*;

use crate::env::Env;

verus! {

/// The limits that the control group of a run is built with.
#[derive(Copy, Clone, Debug, PartialEq, Eq)]
pub struct CgroupLimits {
    /// The kernel memory limit, in bytes.
    pub kernel_memory_limit: i64,
    /// The hard memory limit, in bytes.
    pub memory_hard_limit: i64,
    /// The highest number of processes.
    pub max_processes: i64,
}

/// The control-group limits for a run: both memory limits are the run's memory limit
/// (as `as` turns a `u64` into an `i64`), and the process limit is the run's.
pub fn cgroup_limits(e: &Env) -> (l: CgroupLimits)
    ensures
        l.kernel_memory_limit == e.memory_limit as i64,
        l.memory_hard_limit == e.memory_limit as i64,
        l.max_processes == e.max_process as i64,
{
    CgroupLimits {
        kernel_memory_limit: e.memory_limit as i64,
        memory_hard_limit: e.memory_limit as i64,
        max_processes: e.max_process as i64,
    }
}

} // verus!
