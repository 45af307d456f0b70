//! A generator of random inputs with a numeric wrap column.

use vstd::prelude::*;
use libafl_bolts::rands::StdRand;
use crate::error::Error;
use crate::input::Base64Input;
use crate::random::{below, generate_bytes, i16_from_word, next_word};

verus! {

/// Generates random inputs of fewer than `max_size` bytes.
#[derive(Clone, Copy, Debug, PartialEq, Eq, Structural)]
pub struct Base64Generator {
    max_size: usize,
}

/// Whether `len` is a length that a generator with the given bound may
/// give its input: at least one byte, and fewer than the bound where the
/// bound allows for that.
pub open spec fn generated_len(max_size: usize, len: int) -> bool {
    1 <= len && (len < max_size || len == 1) && len <= u32::MAX
}

impl Base64Generator {
    /// The bound on the number of bytes of a generated input.
    pub closed spec fn bound(&self) -> usize {
        self.max_size
    }

    /// A generator for inputs of fewer than `max_size` bytes.
    pub fn new(max_size: usize) -> (generator: Self)
        ensures
            generator.bound() == max_size,
    {
        Self { max_size }
    }

    /// Generates an input: a random number of random bytes and, where
    /// `with_wrap` says so, a random wrap column. The coin flips that
    /// decide the options are the caller's.
    pub fn generate(
        &mut self,
        rand: &mut StdRand,
        decode: bool,
        ignore_garbage: bool,
        with_wrap: bool,
    ) -> (r: Result<Base64Input, Error>)
        ensures
            *final(self) == *old(self),
            r matches Ok(input) && {
                &&& generated_len(old(self).bound(), input.raw_data.len() as int)
                &&& input.decode == decode
                &&& input.ignore_garbage == ignore_garbage
                &&& input.wrap is Some == with_wrap
            },
    {
        let bound: usize = if self.max_size > u32::MAX as usize {
            u32::MAX as usize
        } else {
            self.max_size
        };
        let drawn: usize = if bound == 0 {
            0
        } else {
            below(rand, bound)
        };
        let size: u32 = if drawn == 0 {
            1
        } else {
            drawn as u32
        };
        let raw_data = generate_bytes(rand, size);
        let wrap = if with_wrap {
            Some(i16_from_word(next_word(rand)))
        } else {
            None
        };
        Ok(Base64Input::new(raw_data.as_slice(), decode, ignore_garbage, wrap))
    }
}

} // verus!
