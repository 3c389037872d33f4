//! The process-wide state of the native library: it works only between a
//! successful `initialize` and the next successful `shutdown`.

use crate::status::{check_status, status_outcome, ZenseResult};
use vstd::prelude::*;

verus! {

/// Whether the native library is initialized. The one who performs the
/// native calls keeps a single value of this type for the process and shows
/// it to every request function.
#[derive(Debug, PartialEq, Eq)]
pub struct Lifecycle {
    ready: bool,
}

impl Lifecycle {
    /// Whether the library is between `initialize` and `shutdown`.
    pub closed spec fn ready(&self) -> bool {
        self.ready
    }

    /// The state of a process in which nothing has been initialized yet.
    pub fn new() -> (lifecycle: Lifecycle)
        ensures
            !lifecycle.ready(),
    {
        Lifecycle { ready: false }
    }

    /// Whether the library is between `initialize` and `shutdown`.
    pub fn is_ready(&self) -> (b: bool)
        ensures
            b == self.ready(),
    {
        self.ready
    }

    /// Takes note of how the native `initialize` ended: the library is ready
    /// from a status of 0 on, and any other status changes nothing.
    pub fn complete_initialize(&mut self, status: i32) -> (r: ZenseResult<()>)
        ensures
            r == status_outcome(status as int),
            final(self).ready() == (status == 0 || old(self).ready()),
    {
        let r = check_status(status);
        if r.is_ok() {
            self.ready = true;
        }
        r
    }

    /// Takes note of how the native `shutdown` ended: the library is down
    /// from a status of 0 on, and any other status changes nothing.
    pub fn complete_shutdown(&mut self, status: i32) -> (r: ZenseResult<()>)
        ensures
            r == status_outcome(status as int),
            final(self).ready() == (status != 0 && old(self).ready()),
    {
        let r = check_status(status);
        if r.is_ok() {
            self.ready = false;
        }
        r
    }
}

} // verus!
