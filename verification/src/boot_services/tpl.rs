//! Task priority level management types.  Raising and restoring levels is
//! a firmware service; these types carry the level to restore.

use vstd::prelude::*;

use crate::ffi::Tpl;

verus! {

/// Guards a raised task priority level, remembering the level to restore.
#[derive(Debug, Copy, Clone)]
pub struct TplGuard {
    old_tpl: Tpl,
}

impl TplGuard {
    /// The level this guard will restore.
    pub closed spec fn spec_old_tpl(&self) -> Tpl {
        self.old_tpl
    }

    /// Record the level that a raise returned, to be restored later.
    pub fn from_raised(old_tpl: Tpl) -> (g: TplGuard)
        ensures
            g.spec_old_tpl() == old_tpl,
    {
        TplGuard { old_tpl }
    }

    /// Get the old TPL level that will be restored
    pub fn old_tpl(&self) -> (t: Tpl)
        ensures
            t == self.spec_old_tpl(),
    {
        self.old_tpl
    }
}

/// A critical section entered by raising the level to notify priority.
#[derive(Debug, Copy, Clone)]
pub struct CriticalSection {
    pub guard: TplGuard,
}

/// A callback-priority section entered by raising the level to callback
/// priority.
#[derive(Debug, Copy, Clone)]
pub struct CallbackGuard {
    pub guard: TplGuard,
}

} // verus!
