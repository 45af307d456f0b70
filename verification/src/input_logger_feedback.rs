//! A feedback that remembers the input of the last run so that a record of
//! it can be attached to the test case.

use vstd::prelude::*;
use crate::error::Error;

verus! {

/// Keeps the input of the last run and turns it into a record on demand.
pub struct InputLoggerFeedback<I, F> {
    input: Option<I>,
    name: &'static str,
    mapper: F,
}

impl<I, F> InputLoggerFeedback<I, F> {
    /// The input of the last run, once there was one.
    pub closed spec fn input_spec(&self) -> Option<I> {
        self.input
    }

    /// The name under which the feedback is listed.
    pub closed spec fn name_spec(&self) -> Seq<char> {
        self.name@
    }

    /// The function that turns an input into a record.
    pub closed spec fn mapper_spec(&self) -> F {
        self.mapper
    }

    /// A feedback under the given name that has not seen a run yet.
    pub fn new(name: &'static str, mapper: F) -> (feedback: Self)
        ensures
            feedback.input_spec() is None,
            feedback.name_spec() == name@,
            feedback.mapper_spec() == mapper,
    {
        Self { input: None, name, mapper }
    }

    /// Judges a run on `input`: remembers the input and finds the run not
    /// interesting.
    pub fn is_interesting(&mut self, input: I) -> (r: Result<bool, Error>)
        ensures
            r == Ok::<bool, Error>(false),
            final(self).input_spec() == Some(input),
            final(self).name_spec() == old(self).name_spec(),
            final(self).mapper_spec() == old(self).mapper_spec(),
    {
        self.input = Some(input);
        Ok(false)
    }

    /// The record of the remembered input, for the caller to attach to the
    /// test case. Before any run there is nothing to record, which is an
    /// error.
    pub fn append_metadata<R>(&mut self) -> (r: Result<R, Error>) where F: Fn(&I) -> R
        requires
            forall|input: &I| call_requires(old(self).mapper_spec(), (input,)),
        ensures
            final(self).input_spec() == old(self).input_spec(),
            final(self).name_spec() == old(self).name_spec(),
            final(self).mapper_spec() == old(self).mapper_spec(),
            match old(self).input_spec() {
                None => r matches Err(Error::IllegalState),
                Some(input) => r matches Ok(record) && call_ensures(
                    old(self).mapper_spec(),
                    (&input,),
                    record,
                ),
            },
    {
        assert(self.mapper == old(self).mapper_spec());
        assert(self.input == old(self).input_spec());
        match &self.input {
            None => Err(Error::IllegalState),
            Some(input) => Ok((self.mapper)(input)),
        }
    }

    /// The name under which the feedback is listed.
    pub fn name(&self) -> (name: &'static str)
        ensures
            name@ == self.name_spec(),
    {
        self.name
    }
}

} // verus!
