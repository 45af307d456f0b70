//! Mutators that reach into a structured input and mutate one of its byte
//! fields.

use vstd::prelude::*;
use libafl_bolts::rands::StdRand;

verus! {

/// What a mutator did to its input.
#[derive(Clone, Copy, Debug, PartialEq, Eq, Structural)]
pub enum MutationResult {
    /// The input was changed.
    Mutated,
    /// The input was left as it was.
    Skipped,
}

/// A mutator of plain byte vectors.
pub trait BytesMutator {
    /// Mutates `bytes`, drawing from `rand` as needed.
    fn mutate(&mut self, rand: &mut StdRand, bytes: &mut Vec<u8>) -> MutationResult;
}

/// Applies a byte mutator to the byte field that `extractor` picks from a
/// structured input.
pub struct MappingMutator<E, M> {
    extractor: E,
    inner: M,
}

impl<E, M> MappingMutator<E, M> {
    /// The function that picks the field.
    pub closed spec fn extractor_spec(&self) -> E {
        self.extractor
    }

    /// The mutator applied to the field.
    pub closed spec fn inner_spec(&self) -> M {
        self.inner
    }

    /// Combines a field picker and a byte mutator.
    pub fn new(extractor: E, inner: M) -> (mutator: Self)
        ensures
            mutator.extractor_spec() == extractor,
            mutator.inner_spec() == inner,
    {
        Self { extractor, inner }
    }

    /// Mutates the field of `input` that the extractor picks.
    ///
    /// The extractor is called on the input, and the inner mutator, with
    /// `rand`, on the field that the extractor hands out. The result is the
    /// inner mutator's; the input ends as the extractor relates it to what
    /// the inner mutator left of the field.
    pub fn mutate<I>(&mut self, rand: &mut StdRand, input: &mut I) -> (result: MutationResult) where
        E: for <'x>Fn(&'x mut I) -> &'x mut Vec<u8>,
        M: BytesMutator,

        requires
            forall|input: &mut I| call_requires(old(self).extractor_spec(), (input,)),
        ensures
            final(self).extractor_spec() == old(self).extractor_spec(),
            exists|
                whole: &mut I,
                field: &mut Vec<u8>,
                inner: &mut M,
                draws: &mut StdRand,
                part: &mut Vec<u8>,
            |
                {
                    &&& #[trigger] call_ensures(old(self).extractor_spec(), (whole,), field)
                    &&& #[trigger] call_ensures(M::mutate, (inner, draws, part), result)
                    &&& *whole == *old(input) && *final(whole) == *final(input)
                    &&& *part == *field && *final(part) == *final(field)
                    &&& *inner == old(self).inner_spec()
                    &&& *final(inner) == final(self).inner_spec()
                    &&& *draws == *old(rand) && *final(draws) == *final(rand)
                },
    {
        broadcast use vstd::function::group_function_axioms;

        assert(self.extractor == old(self).extractor_spec());
        assert(self.inner == old(self).inner_spec());
        let ghost extractor = self.extractor;
        let ghost inner_before = self.inner;
        let ghost input_before = *input;
        let ghost rand_before = *rand;
        let bytes = (self.extractor)(input);
        let result = self.inner.mutate(rand, bytes);
        assert(exists|
            whole: &mut I,
            field: &mut Vec<u8>,
            inner: &mut M,
            draws: &mut StdRand,
            part: &mut Vec<u8>,
        |
            {
                &&& #[trigger] call_ensures(extractor, (whole,), field)
                &&& #[trigger] call_ensures(M::mutate, (inner, draws, part), result)
                &&& *whole == input_before && *final(whole) == *input
                &&& *part == *field && *final(part) == *final(field)
                &&& *inner == inner_before && *final(inner) == self.inner
                &&& *draws == rand_before && *final(draws) == *rand
            });
        assert(self.inner == self.inner_spec());
        result
    }

    /// The name under which the mutator is listed.
    pub fn name(&self) -> (name: &'static str)
        ensures
            name@ == "MappingMutator"@,
    {
        "MappingMutator"
    }
}

/// Applies a byte mutator to the optional byte field that `extractor`
/// picks from a structured input, where that field is present.
pub struct MappingOptionMutator<E, M> {
    extractor: E,
    inner: M,
}

impl<E, M> MappingOptionMutator<E, M> {
    /// The function that picks the field.
    pub closed spec fn extractor_spec(&self) -> E {
        self.extractor
    }

    /// The mutator applied to the field.
    pub closed spec fn inner_spec(&self) -> M {
        self.inner
    }

    /// Combines a field picker and a byte mutator.
    pub fn new(extractor: E, inner: M) -> (mutator: Self)
        ensures
            mutator.extractor_spec() == extractor,
            mutator.inner_spec() == inner,
    {
        Self { extractor, inner }
    }

    /// Mutates the field of `input` that the extractor picks. An absent
    /// field is skipped.
    ///
    /// The extractor is called on the input. Where the field it hands out
    /// is absent, the result is `Skipped`, and the field, the inner mutator
    /// and `rand` stay as they are. Where it is present, the inner mutator
    /// is called on it with `rand`, and the result is the inner mutator's.
    /// Either way the input ends as the extractor relates it to what became
    /// of the field.
    pub fn mutate<I>(&mut self, rand: &mut StdRand, input: &mut I) -> (result: MutationResult) where
        E: for <'x>Fn(&'x mut I) -> &'x mut Option<Vec<u8>>,
        M: BytesMutator,

        requires
            forall|input: &mut I| call_requires(old(self).extractor_spec(), (input,)),
        ensures
            final(self).extractor_spec() == old(self).extractor_spec(),
            exists|whole: &mut I, field: &mut Option<Vec<u8>>|
                {
                    &&& #[trigger] call_ensures(old(self).extractor_spec(), (whole,), field)
                    &&& *whole == *old(input) && *final(whole) == *final(input)
                    &&& *field is None ==> {
                        &&& result == MutationResult::Skipped
                        &&& *final(field) == *field
                        &&& final(self).inner_spec() == old(self).inner_spec()
                        &&& *final(rand) == *old(rand)
                    }
                    &&& *field is Some ==> exists|
                        inner: &mut M,
                        draws: &mut StdRand,
                        part: &mut Vec<u8>,
                    |
                        {
                            &&& #[trigger] call_ensures(M::mutate, (inner, draws, part), result)
                            &&& Some(*part) == *field && *final(field) == Some(*final(part))
                            &&& *inner == old(self).inner_spec()
                            &&& *final(inner) == final(self).inner_spec()
                            &&& *draws == *old(rand) && *final(draws) == *final(rand)
                        }
                },
    {
        broadcast use vstd::function::group_function_axioms;

        assert(self.extractor == old(self).extractor_spec());
        assert(self.inner == old(self).inner_spec());
        let ghost extractor = self.extractor;
        let ghost inner_before = self.inner;
        let ghost input_before = *input;
        let ghost rand_before = *rand;
        let field = (self.extractor)(input);
        let ghost found = *field;
        let result = match field {
            Some(bytes) => {
                let result = self.inner.mutate(rand, bytes);
                assert(exists|inner: &mut M, draws: &mut StdRand, part: &mut Vec<u8>|
                    {
                        &&& #[trigger] call_ensures(M::mutate, (inner, draws, part), result)
                        &&& Some(*part) == found
                        &&& *inner == inner_before && *final(inner) == self.inner
                        &&& *draws == rand_before && *final(draws) == *rand
                    });
                result
            },
            None => MutationResult::Skipped,
        };
        assert(exists|whole: &mut I, field: &mut Option<Vec<u8>>|
            {
                &&& #[trigger] call_ensures(extractor, (whole,), field)
                &&& *whole == input_before && *final(whole) == *input
                &&& *field is None ==> {
                    &&& result == MutationResult::Skipped
                    &&& *final(field) == *field
                    &&& self.inner == inner_before
                    &&& *rand == rand_before
                }
                &&& *field is Some ==> exists|inner: &mut M, draws: &mut StdRand, part: &mut Vec<u8>|
                    {
                        &&& #[trigger] call_ensures(M::mutate, (inner, draws, part), result)
                        &&& Some(*part) == *field && *final(field) == Some(*final(part))
                        &&& *inner == inner_before && *final(inner) == self.inner
                        &&& *draws == rand_before && *final(draws) == *rand
                    }
            });
        assert(self.inner == self.inner_spec());
        result
    }

    /// The name under which the mutator is listed.
    pub fn name(&self) -> (name: &'static str)
        ensures
            name@ == "MappingOptionMutator"@,
    {
        "MappingOptionMutator"
    }
}

} // verus!
