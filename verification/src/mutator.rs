//! Mutators for inputs with a numeric wrap column.

use vstd::prelude::*;
use libafl_bolts::rands::StdRand;
use crate::error::Error;
use crate::input::Base64Input;
use crate::mutation::{BytesMutator, MutationResult};
use crate::random::{below, i16_from_word, next_word};

verus! {

/// Switches decoding on or off.
#[derive(Clone, Copy, Debug)]
pub struct Base64FlipDecodeMutator;

impl Base64FlipDecodeMutator {
    /// Flips the `-d` option and leaves the rest alone.
    pub fn mutate(&mut self, input: &mut Base64Input) -> (r: Result<MutationResult, Error>)
        ensures
            r == Ok::<MutationResult, Error>(MutationResult::Mutated),
            *final(input) == (Base64Input { decode: !old(input).decode, ..*old(input) }),
    {
        input.decode = !input.decode;
        Ok(MutationResult::Mutated)
    }

    /// The name under which the mutator is listed.
    pub fn name(&self) -> (name: &'static str)
        ensures
            name@ == "Base64FlipDecodeMutator"@,
    {
        "Base64FlipDecodeMutator"
    }
}

/// Switches the tolerance for garbage on or off.
#[derive(Clone, Copy, Debug)]
pub struct Base64FlipIgnoreGarbageMutator;

impl Base64FlipIgnoreGarbageMutator {
    /// Flips the `-i` option and leaves the rest alone.
    pub fn mutate(&mut self, input: &mut Base64Input) -> (r: Result<MutationResult, Error>)
        ensures
            r == Ok::<MutationResult, Error>(MutationResult::Mutated),
            *final(input) == (Base64Input {
                ignore_garbage: !old(input).ignore_garbage,
                ..*old(input)
            }),
    {
        input.ignore_garbage = !input.ignore_garbage;
        Ok(MutationResult::Mutated)
    }

    /// The name under which the mutator is listed.
    pub fn name(&self) -> (name: &'static str)
        ensures
            name@ == "Base64FlipIgnoreGarbageMutator"@,
    {
        "Base64FlipIgnoreGarbageMutator"
    }
}

/// Replaces the wrap column of an input that has one.
#[derive(Clone, Copy, Debug)]
pub struct Base64WrapContentMutator;

impl Base64WrapContentMutator {
    /// Gives an input with `-w` a random column; an input without is
    /// skipped.
    pub fn mutate(&mut self, rand: &mut StdRand, input: &mut Base64Input) -> (r: Result<
        MutationResult,
        Error,
    >)
        ensures
            final(input).raw_data == old(input).raw_data,
            final(input).decode == old(input).decode,
            final(input).ignore_garbage == old(input).ignore_garbage,
            final(input).wrap is Some == old(input).wrap is Some,
            r == Ok::<MutationResult, Error>(
                if old(input).wrap is Some {
                    MutationResult::Mutated
                } else {
                    MutationResult::Skipped
                },
            ),
    {
        if input.wrap.is_some() {
            input.wrap = Some(i16_from_word(next_word(rand)));
            Ok(MutationResult::Mutated)
        } else {
            Ok(MutationResult::Skipped)
        }
    }

    /// The name under which the mutator is listed.
    pub fn name(&self) -> (name: &'static str)
        ensures
            name@ == "Base64WrapContentMutator"@,
    {
        "Base64WrapContentMutator"
    }
}

/// Gives a wrap column to an input that has none.
#[derive(Clone, Copy, Debug)]
pub struct Base64FlipWrapMutator;

impl Base64FlipWrapMutator {
    /// Gives an input without `-w` a random column; an input that has one
    /// is skipped and keeps it.
    pub fn mutate(&mut self, rand: &mut StdRand, input: &mut Base64Input) -> (r: Result<
        MutationResult,
        Error,
    >)
        ensures
            final(input).raw_data == old(input).raw_data,
            final(input).decode == old(input).decode,
            final(input).ignore_garbage == old(input).ignore_garbage,
            final(input).wrap is Some,
            old(input).wrap is Some ==> final(input).wrap == old(input).wrap,
            r == Ok::<MutationResult, Error>(
                if old(input).wrap is None {
                    MutationResult::Mutated
                } else {
                    MutationResult::Skipped
                },
            ),
    {
        if input.wrap.is_none() {
            input.wrap = Some(i16_from_word(next_word(rand)));
            Ok(MutationResult::Mutated)
        } else {
            Ok(MutationResult::Skipped)
        }
    }

    /// The name under which the mutator is listed.
    pub fn name(&self) -> (name: &'static str)
        ensures
            name@ == "Base64FlipWrapMutator"@,
    {
        "Base64FlipWrapMutator"
    }
}

/// Applies one of a list of byte mutators, picked at random, to the bytes
/// fed to standard input.
#[derive(Clone, Copy, Debug)]
pub struct Base64RawDataMutator;

impl Base64RawDataMutator {
    /// Picks one of `mutations` and lets it work on the raw data. With
    /// nothing to pick from, the input is refused.
    pub fn mutate<M: BytesMutator>(
        &mut self,
        rand: &mut StdRand,
        mutations: &mut Vec<M>,
        input: &mut Base64Input,
    ) -> (r: Result<MutationResult, Error>)
        ensures
            old(mutations).len() == 0 ==> r == Err::<MutationResult, Error>(
                Error::IllegalArgument,
            ) && *final(input) == *old(input),
            old(mutations).len() > 0 ==> r is Ok,
            final(mutations).len() == old(mutations).len(),
            final(input).decode == old(input).decode,
            final(input).ignore_garbage == old(input).ignore_garbage,
            final(input).wrap == old(input).wrap,
    {
        if mutations.len() == 0 {
            return Err(Error::IllegalArgument);
        }
        let index = below(rand, mutations.len());
        let chosen = &mut mutations[index];
        Ok(chosen.mutate(rand, &mut input.raw_data))
    }

    /// The name under which the mutator is listed.
    pub fn name(&self) -> (name: &'static str)
        ensures
            name@ == "Base64RawDataMutator"@,
    {
        "Base64RawDataMutator"
    }
}

} // verus!
