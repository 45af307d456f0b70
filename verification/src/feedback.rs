//! A feedback that never finds anything interesting but keeps a log of
//! what an observer saw.

use vstd::prelude::*;

verus! {

/// Whether anything was observed on standard error.
pub fn has_stderr(stderr: &Option<Vec<u8>>) -> (observed: bool)
    ensures
        observed == (stderr matches Some(bytes) && bytes.len() > 0),
{
    match stderr {
        Some(bytes) => bytes.len() > 0,
        None => false,
    }
}

/// Renders what an observer saw, for the caller to append to a log file.
pub struct PseudoPrintFeedback<'a, O, F> {
    log_file: &'a String,
    observer: &'a O,
    extractor: F,
}

impl<'a, O, F> PseudoPrintFeedback<'a, O, F> {
    /// The path of the log file.
    pub closed spec fn log_file_spec(&self) -> Seq<char> {
        self.log_file@
    }

    /// The observer whose state is logged.
    pub closed spec fn observer_spec(&self) -> O {
        *self.observer
    }

    /// The function that renders the observer's state.
    pub closed spec fn extractor_spec(&self) -> F {
        self.extractor
    }

    /// A feedback that logs to `log_file` what `extractor` makes of
    /// `observer`.
    pub fn new(log_file: &'a String, observer: &'a O, extractor: F) -> (feedback: Self)
        ensures
            feedback.log_file_spec() == log_file@,
            feedback.observer_spec() == *observer,
            feedback.extractor_spec() == extractor,
    {
        Self { log_file, observer, extractor }
    }

    /// The path of the log file.
    pub fn log_file(&self) -> (path: &String)
        ensures
            path@ == self.log_file_spec(),
    {
        self.log_file
    }

    /// The name under which the feedback is listed.
    pub fn name(&self) -> (name: &'static str)
        ensures
            name@ == "PseudoPrintFeedback"@,
    {
        "PseudoPrintFeedback"
    }

    /// Judges a run: the text to append to the log file, which is what the
    /// extractor makes of the observer, and the verdict, which is always
    /// that the run is not interesting.
    pub fn is_interesting(&mut self) -> (r: (String, bool)) where F: Fn(&O) -> String
        requires
            call_requires(old(self).extractor_spec(), (&old(self).observer_spec(),)),
        ensures
            !r.1,
            call_ensures(old(self).extractor_spec(), (&old(self).observer_spec(),), r.0),
            final(self).log_file_spec() == old(self).log_file_spec(),
            final(self).observer_spec() == old(self).observer_spec(),
            final(self).extractor_spec() == old(self).extractor_spec(),
    {
        let entry = (self.extractor)(self.observer);
        (entry, false)
    }
}

} // verus!
