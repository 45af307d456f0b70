//! The shared-memory mapper: from the identifier in the environment to the
//! attached coverage map and input-delivery segment.
//!
//! Reading the environment and attaching a segment are the caller's part.
//! What is decided here is which identifier to attach, whether the attach
//! call produced a usable address, and what to tell the supervisor when
//! either step fails.

use vstd::prelude::*;
use vstd::string::StringSliceAdditionalSpecFns;
use crate::decimal::{decimal_value, parse_digits};
use crate::error::Error;
use crate::guard::OnceGuard;
use crate::wire::{encode_error, error_word, FS_ERROR_SHM_OPEN};

verus! {

/// Name of the variable that holds the identifier of the coverage map.
pub const SHM_ENV_VAR: &'static str = "__AFL_SHM_ID";

/// Name of the variable that holds the identifier of the input-delivery
/// segment.
pub const SHM_FUZZ_ENV_VAR: &'static str = "__AFL_SHM_FUZZ_ID";

/// Number of bytes of the length header that opens the input-delivery
/// segment.
pub const INPUT_HEADER_LEN: usize = 4;

/// The segment identifier that `text` names: a decimal number, with an
/// optional sign and nothing around it, that fits 32 signed bits.
pub open spec fn segment_id_of(text: Seq<u8>) -> Option<i32> {
    match decimal_value(text) {
        Some(value) => if i32::MIN <= value <= i32::MAX {
            Some(value as i32)
        } else {
            None
        },
        None => None,
    }
}

/// Whether an attach call that returned `address` failed: the null address
/// and the all-ones address are the two ways it says so.
pub open spec fn attach_failed(address: usize) -> bool {
    address == 0 || address == usize::MAX
}

/// The word that tells the supervisor that a segment could not be opened.
pub open spec fn shm_open_error_word() -> u32 {
    error_word(FS_ERROR_SHM_OPEN as u32)
}

/// Why a mapper gave up, and what the supervisor is to be told first.
#[derive(Clone, Copy, Debug, PartialEq, Eq, Structural)]
pub struct Refusal {
    /// The word to send to the supervisor before failing, so that it does
    /// not wait for a handshake that will not come. Sending is best effort:
    /// the mapper fails with `error` whether or not the word gets through.
    pub notify: Option<u32>,
    /// The error to fail with.
    pub error: Error,
}

/// The refusal for a segment that is misconfigured or cannot be attached.
pub open spec fn reported(error: Error) -> Refusal {
    Refusal { notify: Some(shm_open_error_word()), error }
}

/// What the first step of a mapper decides, given whether it ran before and
/// the text found in the environment.
pub open spec fn lookup_verdict(entered_before: bool, id_text: Option<Seq<u8>>) -> Result<
    i32,
    Refusal,
> {
    if entered_before {
        Err(Refusal { notify: None, error: Error::AlreadyInitialized })
    } else {
        match id_text {
            None => Err(reported(Error::Configuration)),
            Some(text) => match segment_id_of(text) {
                Some(id) => Ok(id),
                None => Err(reported(Error::Configuration)),
            },
        }
    }
}

/// The bytes of the text found in the environment, where there was one.
pub open spec fn text_bytes(id_text: Option<&str>) -> Option<Seq<u8>> {
    match id_text {
        Some(text) => Some(text.spec_bytes()),
        None => None,
    }
}

/// Reads the identifier of a shared-memory segment from its decimal text.
pub fn parse_segment_id(text: &[u8]) -> (id: Option<i32>)
    ensures
        id == segment_id_of(text@),
{
    if text.len() == 0 {
        return None;
    }
    let first = text[0];
    if first == 0x2d {
        match parse_digits(text, 1) {
            Some(magnitude) => {
                if magnitude == 0x8000_0000 {
                    Some(i32::MIN)
                } else {
                    Some(-(magnitude as i32))
                }
            },
            None => None,
        }
    } else {
        let start: usize = if first == 0x2b {
            1
        } else {
            0
        };
        assert(text@.skip(0) == text@);
        match parse_digits(text, start) {
            Some(magnitude) => if magnitude <= 0x7fff_ffff {
                Some(magnitude as i32)
            } else {
                None
            },
            None => None,
        }
    }
}

/// The refusal that goes with a segment that is misconfigured or cannot be
/// attached: the supervisor is told that the segment could not be opened.
fn report(error: Error) -> (refusal: Refusal)
    ensures
        refusal == reported(error),
{
    let word = match encode_error(FS_ERROR_SHM_OPEN) {
        Ok(word) => Some(word),
        Err(_) => None,
    };
    Refusal { notify: word, error }
}

/// First step of either mapper.
fn look_up(guard: &mut OnceGuard, id_text: Option<&str>) -> (r: Result<i32, Refusal>)
    ensures
        final(guard).is_set(),
        r == lookup_verdict(
            old(guard).is_set(),
            text_bytes(id_text),
        ),
{
    match guard.enter() {
        Err(error) => {
            return Err(Refusal { notify: None, error });
        },
        Ok(_) => {},
    }
    match id_text {
        None => Err(report(Error::Configuration)),
        Some(text) => match parse_segment_id(text.as_bytes()) {
            Some(id) => Ok(id),
            None => Err(report(Error::Configuration)),
        },
    }
}

/// The edge-coverage map, attached for the rest of the process's life.
///
/// The address is never null and never the failure mark of the attach
/// call. Children inherit the mapping; only the child that runs writes to
/// it, and the parent reads it only once that child has stopped running.
#[derive(Debug)]
pub struct CoverageMap {
    address: usize,
}

impl CoverageMap {
    #[verifier::type_invariant]
    spec fn attached(self) -> bool {
        !attach_failed(self.address)
    }

    /// Where the map starts.
    pub closed spec fn base(&self) -> usize {
        self.address
    }

    /// Where the map starts.
    pub fn address(&self) -> (address: usize)
        ensures
            address == self.base(),
            !attach_failed(address),
    {
        proof {
            use_type_invariant(self);
        }
        self.address
    }
}

/// The input-delivery segment: a length header followed by the input.
///
/// Both addresses are valid for the rest of the process's life.
#[derive(Debug)]
pub struct InputSegment {
    address: usize,
}

impl InputSegment {
    #[verifier::type_invariant]
    spec fn attached(self) -> bool {
        input_segment_usable(self.address)
    }

    /// Where the segment starts.
    pub closed spec fn base(&self) -> usize {
        self.address
    }

    /// Where the four bytes that hold the length of the input are.
    pub fn length_address(&self) -> (address: usize)
        ensures
            address == self.base(),
            !attach_failed(address),
    {
        proof {
            use_type_invariant(self);
        }
        self.address
    }

    /// Where the bytes of the input start: right behind the header.
    pub fn data_address(&self) -> (address: usize)
        ensures
            address == self.base() + INPUT_HEADER_LEN,
    {
        proof {
            use_type_invariant(self);
        }
        self.address + INPUT_HEADER_LEN
    }
}

/// Begins mapping the edge-coverage map: says which segment to attach.
///
/// `id_text` is the value of [`SHM_ENV_VAR`], or nothing where the variable
/// is not set. The mapper runs once per process: a second call is refused
/// without a word to the supervisor. A missing or malformed identifier is a
/// configuration error, and the supervisor is to be told.
pub fn map_shared_memory(guard: &mut OnceGuard, id_text: Option<&str>) -> (r: Result<
    i32,
    Refusal,
>)
    ensures
        final(guard).is_set(),
        r == lookup_verdict(
            old(guard).is_set(),
            text_bytes(id_text),
        ),
{
    look_up(guard, id_text)
}

/// Ends mapping the edge-coverage map, given the address that the attach
/// call returned and the `errno` it left behind.
pub fn coverage_map_attached(address: usize, errno: i32) -> (r: Result<CoverageMap, Refusal>)
    ensures
        attach_failed(address) ==> (r matches Err(refusal) && refusal == reported(
            Error::System(errno),
        )),
        !attach_failed(address) ==> (r matches Ok(map) && map.base() == address),
{
    if address == 0 || address == usize::MAX {
        Err(report(Error::System(errno)))
    } else {
        Ok(CoverageMap { address })
    }
}

/// Begins mapping the input-delivery segment: says which segment to attach.
///
/// `id_text` is the value of [`SHM_FUZZ_ENV_VAR`]. The rules are those of
/// [`map_shared_memory`], under a guard of its own.
pub fn map_input_shared_memory(guard: &mut OnceGuard, id_text: Option<&str>) -> (r: Result<
    i32,
    Refusal,
>)
    ensures
        final(guard).is_set(),
        r == lookup_verdict(
            old(guard).is_set(),
            text_bytes(id_text),
        ),
{
    look_up(guard, id_text)
}

/// Whether `address` can be the start of an input-delivery segment: the
/// attach call succeeded and the length header fits behind it.
pub open spec fn input_segment_usable(address: usize) -> bool {
    !attach_failed(address) && address <= usize::MAX - INPUT_HEADER_LEN
}

/// Ends mapping the input-delivery segment, given the address that the
/// attach call returned and the `errno` it left behind. An address that
/// leaves no room for the length header counts as a failed attach.
pub fn input_segment_attached(address: usize, errno: i32) -> (r: Result<InputSegment, Refusal>)
    ensures
        !input_segment_usable(address) ==> (r matches Err(refusal) && refusal == reported(
            Error::System(errno),
        )),
        input_segment_usable(address) ==> (r matches Ok(segment) && segment.base() == address),
{
    if address == 0 || address > usize::MAX - INPUT_HEADER_LEN {
        Err(report(Error::System(errno)))
    } else {
        Ok(InputSegment { address })
    }
}

} // verus!
