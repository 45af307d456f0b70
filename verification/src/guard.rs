//! Guards for initializers that may run once per process.

use vstd::prelude::*;
use crate::error::Error;

verus! {

/// Remembers that a once-only initializer has been entered.
///
/// A process keeps one guard per initializer for its whole life. The first
/// entry is let through; every later one is refused, whether or not the
/// first attempt succeeded.
#[derive(Debug)]
pub struct OnceGuard {
    entered: bool,
}

impl OnceGuard {
    /// Whether the initializer has been entered.
    pub closed spec fn is_set(&self) -> bool {
        self.entered
    }

    /// A guard that nothing has passed yet.
    pub fn new() -> (guard: Self)
        ensures
            !guard.is_set(),
    {
        OnceGuard { entered: false }
    }

    /// Whether the initializer has been entered.
    pub fn entered(&self) -> (entered: bool)
        ensures
            entered == self.is_set(),
    {
        self.entered
    }

    /// Claims the one permitted entry.
    pub fn enter(&mut self) -> (r: Result<(), Error>)
        ensures
            final(self).is_set(),
            r == if old(self).is_set() {
                Err::<(), Error>(Error::AlreadyInitialized)
            } else {
                Ok::<(), Error>(())
            },
    {
        if self.entered {
            Err(Error::AlreadyInitialized)
        } else {
            self.entered = true;
            Ok(())
        }
    }
}

impl Default for OnceGuard {
    fn default() -> (guard: Self)
        ensures
            !guard.is_set(),
    {
        OnceGuard::new()
    }
}

} // verus!
