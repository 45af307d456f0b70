//! Random draws for generators and mutators.
//!
//! The generator itself is the standard one of `libafl_bolts`. What is
//! decided here is how a random word becomes a byte or a bounded index.

use vstd::prelude::*;
use libafl_bolts::rands::StdRand;

verus! {

/// The standard random number generator of `libafl_bolts`.
#[verifier::external_type_specification]
#[verifier::external_body]
pub struct ExStdRand(StdRand);

/// A random word scaled down to a value below `bound`: the upper half of
/// the 128-bit product of the two.
pub open spec fn scaled(word: u64, bound: usize) -> int {
    (word as int * bound as int) / 0x1_0000_0000_0000_0000
}

/// `Rand::next` of `libafl_bolts`, on the standard generator: the next 64
/// bits of its stream. Nothing is claimed of them.
#[verifier::external_body]
fn next(rand: &mut StdRand) -> u64 {
    libafl_bolts::rands::Rand::next(rand)
}

/// `libafl_bolts::rands::fast_bound`: the upper 64 bits of the product of
/// `word` and `bound`, taken as 128-bit numbers.
#[verifier::external_body]
fn fast_bound(word: u64, bound: usize) -> (scaled_down: usize)
    requires
        bound > 0,
    ensures
        scaled_down == scaled(word, bound),
{
    libafl_bolts::rands::fast_bound(word, core::num::NonZeroUsize::new(bound).unwrap())
}

/// A scaled word lies below its bound.
pub proof fn lemma_scaled_is_below(word: u64, bound: usize)
    requires
        bound > 0,
    ensures
        0 <= scaled(word, bound) < bound,
{
    assert(0 <= word as int * bound as int) by (nonlinear_arith)
        requires
            0 <= word,
            0 <= bound,
    ;
    assert(word as int * bound as int <= 0xFFFF_FFFF_FFFF_FFFF * bound as int)
        by (nonlinear_arith)
        requires
            word <= 0xFFFF_FFFF_FFFF_FFFF,
            0 <= bound,
    ;
}

/// The index below `bound` that a random word selects.
pub fn index_from_word(word: u64, bound: usize) -> (index: usize)
    requires
        bound > 0,
    ensures
        index == scaled(word, bound),
        index < bound,
{
    proof {
        lemma_scaled_is_below(word, bound);
    }
    fast_bound(word, bound)
}

/// The byte that a random word selects.
pub fn byte_from_word(word: u64) -> (byte: u8)
    ensures
        byte == scaled(word, 256),
{
    proof {
        lemma_scaled_is_below(word, 256);
    }
    fast_bound(word, 256) as u8
}

/// The 16-bit number that a random word selects: its low sixteen bits.
pub fn i16_from_word(word: u64) -> (number: i16)
    ensures
        number == (word & 0xFFFF) as u16 as i16,
{
    let low: u16 = (word & 0xFFFF) as u16;
    low as i16
}

/// Draws the next random word.
pub fn next_word(rand: &mut StdRand) -> u64 {
    next(rand)
}

/// Draws an index below `bound`.
pub fn below(rand: &mut StdRand, bound: usize) -> (index: usize)
    requires
        bound > 0,
    ensures
        index < bound,
{
    index_from_word(next(rand), bound)
}

/// Draws `len` random bytes.
pub fn generate_bytes(rand: &mut StdRand, len: u32) -> (bytes: Vec<u8>)
    ensures
        bytes.len() == len,
{
    let mut bytes: Vec<u8> = Vec::new();
    let mut i: u32 = 0;
    while i < len
        invariant
            i <= len,
            bytes.len() == i,
        decreases len - i,
    {
        bytes.push(byte_from_word(next(rand)));
        i += 1;
    }
    bytes
}

/// The bytes that the given random words select, one byte per word.
pub fn bytes_from_words(words: &[u64]) -> (bytes: Vec<u8>)
    ensures
        bytes.len() == words.len(),
        forall|i: int| 0 <= i < words.len() ==> bytes[i] == scaled(#[trigger] words[i], 256),
{
    let mut bytes: Vec<u8> = Vec::new();
    let mut i: usize = 0;
    while i < words.len()
        invariant
            i <= words.len(),
            bytes.len() == i,
            forall|j: int| 0 <= j < i ==> bytes[j] == scaled(#[trigger] words[j], 256),
        decreases words.len() - i,
    {
        bytes.push(byte_from_word(words[i]));
        i += 1;
    }
    bytes
}

} // verus!
