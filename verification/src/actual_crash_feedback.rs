//! A feedback that finds a run interesting exactly when the target crashed.

use vstd::prelude::*;
use crate::error::Error;
use crate::stateful::ExitKind;

verus! {

/// Reports a run as interesting if the target crashed, whatever it
/// returned otherwise.
#[derive(Clone, Copy, Debug, PartialEq, Eq, Structural)]
pub struct ActualCrashFeedback {}

impl ActualCrashFeedback {
    /// Creates the feedback.
    #[must_use]
    pub fn new() -> (feedback: Self)
        ensures
            feedback == (ActualCrashFeedback {  }),
    {
        Self {  }
    }

    /// Judges a run by how it ended.
    pub fn is_interesting(&mut self, exit_kind: &ExitKind) -> (r: Result<bool, Error>)
        ensures
            r == Ok::<bool, Error>(*exit_kind == ExitKind::Crashed),
    {
        match exit_kind {
            ExitKind::Crashed => Ok(true),
            _ => Ok(false),
        }
    }

    /// The name under which the feedback is listed.
    #[inline]
    pub fn name(&self) -> (name: &'static str)
        ensures
            name@ == "ActualCrashFeedback"@,
    {
        "ActualCrashFeedback"
    }
}

impl Default for ActualCrashFeedback {
    fn default() -> (feedback: Self)
        ensures
            feedback == (ActualCrashFeedback {  }),
    {
        Self::new()
    }
}

} // verus!
