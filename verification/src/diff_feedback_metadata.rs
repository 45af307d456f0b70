//! A feedback that compares what two observers saw and, where they differ,
//! offers a record of both for the test case.

use vstd::prelude::*;
use vstd::std_specs::cmp::PartialEqSpec;
use crate::error::Error;

verus! {

/// Compares what is extracted from two observers; a difference makes the
/// run interesting and its record worth attaching.
pub struct DiffWithMetadataFeedback<FE1, FE2, FM> {
    name: &'static str,
    o1: String,
    o2: String,
    o1_extractor: FE1,
    o2_extractor: FE2,
    mapper: FM,
    is_interesting: bool,
}

impl<FE1, FE2, FM> DiffWithMetadataFeedback<FE1, FE2, FM> {
    /// The name under which the feedback is listed.
    pub closed spec fn name_spec(&self) -> Seq<char> {
        self.name@
    }

    /// The names of the two observers.
    pub closed spec fn observer_names(&self) -> (Seq<char>, Seq<char>) {
        (self.o1@, self.o2@)
    }

    /// The function that says what of the first observer is compared.
    pub closed spec fn first_extractor(&self) -> FE1 {
        self.o1_extractor
    }

    /// The function that says what of the second observer is compared.
    pub closed spec fn second_extractor(&self) -> FE2 {
        self.o2_extractor
    }

    /// The function that makes the record.
    pub closed spec fn mapper_spec(&self) -> FM {
        self.mapper
    }

    /// Whether the last run that was judged showed a difference.
    pub closed spec fn differed(&self) -> bool {
        self.is_interesting
    }

    /// Whether `other` is `self` but for the verdict on the last run.
    pub open spec fn same_setup(&self, other: &Self) -> bool {
        &&& self.name_spec() == other.name_spec()
        &&& self.observer_names() == other.observer_names()
        &&& self.first_extractor() == other.first_extractor()
        &&& self.second_extractor() == other.second_extractor()
        &&& self.mapper_spec() == other.mapper_spec()
    }

    /// Creates the feedback for two observers, which must go by different
    /// names.
    pub fn new(
        name: &'static str,
        o1_name: String,
        o2_name: String,
        o1_extractor: FE1,
        o2_extractor: FE2,
        mapper: FM,
    ) -> (r: Result<Self, Error>)
        ensures
            o1_name@ == o2_name@ ==> r matches Err(Error::IllegalArgument),
            o1_name@ != o2_name@ ==> {
                &&& r matches Ok(feedback)
                &&& feedback.name_spec() == name@
                &&& feedback.observer_names() == (o1_name@, o2_name@)
                &&& feedback.first_extractor() == o1_extractor
                &&& feedback.second_extractor() == o2_extractor
                &&& feedback.mapper_spec() == mapper
                &&& !feedback.differed()
            },
    {
        if o1_name == o2_name {
            Err(Error::IllegalArgument)
        } else {
            Ok(
                Self {
                    name,
                    o1: o1_name,
                    o2: o2_name,
                    o1_extractor,
                    o2_extractor,
                    mapper,
                    is_interesting: false,
                },
            )
        }
    }

    /// The name of the first observer.
    pub fn o1_name(&self) -> (name: &String)
        ensures
            name@ == self.observer_names().0,
    {
        &self.o1
    }

    /// The name of the second observer.
    pub fn o2_name(&self) -> (name: &String)
        ensures
            name@ == self.observer_names().1,
    {
        &self.o2
    }

    /// Judges a run by what the two observers saw; each is given where it
    /// was found under its name. A missing observer is an error. Otherwise
    /// the run is interesting exactly when what is extracted from the one
    /// differs from what is extracted from the other, and the verdict is
    /// remembered.
    pub fn is_interesting<O1, O2, RE>(&mut self, o1: Option<&O1>, o2: Option<&O2>) -> (r: Result<
        bool,
        Error,
    >) where FE1: Fn(&O1) -> RE, FE2: Fn(&O2) -> RE, RE: PartialEq
        requires
            forall|o: &O1| call_requires(old(self).first_extractor(), (o,)),
            forall|o: &O2| call_requires(old(self).second_extractor(), (o,)),
        ensures
            final(self).same_setup(old(self)),
            o1 is None || o2 is None ==> (r matches Err(Error::IllegalArgument))
                && final(self).differed() == old(self).differed(),
            o1 is Some && o2 is Some ==> {
                &&& r matches Ok(verdict)
                &&& final(self).differed() == verdict
                &&& RE::obeys_eq_spec() ==> exists|first: RE, second: RE|
                    {
                        &&& #[trigger] call_ensures(old(self).first_extractor(), (o1->0,), first)
                        &&& #[trigger] call_ensures(old(self).second_extractor(), (o2->0,), second)
                        &&& verdict == !first.eq_spec(&second)
                    }
            },
    {
        assert(self.o1_extractor == old(self).first_extractor());
        assert(self.o2_extractor == old(self).second_extractor());
        let first = match o1 {
            Some(observer) => (self.o1_extractor)(observer),
            None => {
                return Err(Error::IllegalArgument);
            },
        };
        let second = match o2 {
            Some(observer) => (self.o2_extractor)(observer),
            None => {
                return Err(Error::IllegalArgument);
            },
        };
        let verdict = first != second;
        self.is_interesting = verdict;
        Ok(verdict)
    }

    /// The record of the last run that was judged, for the caller to attach
    /// to the test case: none where that run showed no difference.
    pub fn append_metadata<O1, O2, RM>(&mut self, o1: Option<&O1>, o2: Option<&O2>) -> (r: Result<
        Option<RM>,
        Error,
    >) where FM: Fn(&O1, &O2) -> RM
        requires
            forall|a: &O1, b: &O2| call_requires(old(self).mapper_spec(), (a, b)),
        ensures
            final(self).same_setup(old(self)),
            final(self).differed() == old(self).differed(),
            !old(self).differed() ==> r matches Ok(None),
            old(self).differed() && (o1 is None || o2 is None) ==> r matches Err(
                Error::IllegalArgument,
            ),
            old(self).differed() && o1 is Some && o2 is Some ==> (r matches Ok(Some(record))
                && call_ensures(old(self).mapper_spec(), (o1->0, o2->0), record)),
    {
        assert(self.mapper == old(self).mapper_spec());
        assert(self.is_interesting == old(self).differed());
        if !self.is_interesting {
            return Ok(None);
        }
        match (o1, o2) {
            (Some(first), Some(second)) => Ok(Some((self.mapper)(first, second))),
            _ => Err(Error::IllegalArgument),
        }
    }

    /// The name under which the feedback is listed.
    pub fn name(&self) -> (name: &'static str)
        ensures
            name@ == self.name_spec(),
    {
        self.name
    }
}

} // verus!
