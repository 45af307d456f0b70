//! Fixed-width framing of the words exchanged with the supervisor.
//!
//! Every control message is one unsigned 32-bit word sent as four bytes in
//! the byte order of the machine that runs both ends. Nothing here touches
//! a descriptor: the functions produce the bytes to send and judge what a
//! `read` or `write` call reported.

use vstd::prelude::*;
use crate::error::Error;

verus! {

/// Descriptor on which control words arrive; replies leave on the next one.
pub const FORKSRV_FD: i32 = 198;

/// Highest protocol revision this side speaks.
pub const FS_NEW_VERSION_MAX: u32 = 1;

/// Capability bit: a map-size word follows the capability word.
pub const FS_NEW_OPT_MAPSIZE: u32 = 0x0000_0001;

/// Capability bit: test cases are delivered through shared memory.
pub const FS_NEW_OPT_SHDMEM_FUZZ: u32 = 0x0000_0002;

/// Capability bit: an automatically collected token dictionary follows.
pub const FS_NEW_OPT_AUTODTCT: u32 = 0x0000_0800;

/// Marker bits of an error report.
pub const FS_OPT_ERROR: u32 = 0xf800_008f;

/// Error code: the shared-memory segment could not be opened.
pub const FS_ERROR_SHM_OPEN: i32 = 4;

/// The word that opens and closes the handshake.
pub const VERSION: u32 = 0x4146_4c00 + FS_NEW_VERSION_MAX;

/// Number of bytes of every control word.
pub const WORD_LEN: usize = 4;

/// The order in which the four bytes of a word travel.
#[derive(Clone, Copy, Debug, PartialEq, Eq, Structural)]
pub enum ByteOrder {
    /// Least significant byte first.
    LittleEndian,
    /// Most significant byte first.
    BigEndian,
}

/// Byte `index` of `word`, counted from the least significant one.
pub open spec fn byte_of(word: u32, index: u32) -> u8 {
    ((word >> (8 * index)) & 0xff) as u8
}

/// The four bytes that carry `word` in the given order.
pub open spec fn word_bytes(order: ByteOrder, word: u32) -> Seq<u8> {
    match order {
        ByteOrder::LittleEndian => seq![
            byte_of(word, 0),
            byte_of(word, 1),
            byte_of(word, 2),
            byte_of(word, 3),
        ],
        ByteOrder::BigEndian => seq![
            byte_of(word, 3),
            byte_of(word, 2),
            byte_of(word, 1),
            byte_of(word, 0),
        ],
    }
}

/// The word whose bytes, least significant first, are `b0` to `b3`.
pub open spec fn word_of(b0: u8, b1: u8, b2: u8, b3: u8) -> u32 {
    (b0 as u32) | ((b1 as u32) << 8) | ((b2 as u32) << 16) | ((b3 as u32) << 24)
}

/// The word that four bytes carry in the given order.
pub open spec fn bytes_word(order: ByteOrder, bytes: Seq<u8>) -> u32
    recommends
        bytes.len() == 4,
{
    match order {
        ByteOrder::LittleEndian => word_of(bytes[0], bytes[1], bytes[2], bytes[3]),
        ByteOrder::BigEndian => word_of(bytes[3], bytes[2], bytes[1], bytes[0]),
    }
}

/// The option word that reports error `code` to the supervisor.
pub open spec fn error_word(code: u32) -> u32 {
    ((code & 0xFFFF) << 8) | FS_OPT_ERROR
}

/// Whether `word` carries every marker bit of an error report.
pub open spec fn is_error_word(word: u32) -> bool {
    word & FS_OPT_ERROR == FS_OPT_ERROR
}

/// The error code packed into bits 8 to 23 of `word`.
pub open spec fn error_code_of(word: u32) -> u32 {
    (word >> 8) & 0xFFFF
}

/// What the supervisor is told about a `write` of `expected` bytes.
pub open spec fn write_verdict(expected: usize, outcome: Result<usize, i32>) -> Result<(), Error> {
    match outcome {
        Err(errno) => Err(Error::System(errno)),
        Ok(n) => if n == expected {
            Ok(())
        } else {
            Err(Error::Protocol)
        },
    }
}

/// The word a `read` delivered, or why it delivered none.
pub open spec fn read_verdict(order: ByteOrder, outcome: Result<Seq<u8>, i32>) -> Result<
    u32,
    Error,
> {
    match outcome {
        Err(errno) => Err(Error::System(errno)),
        Ok(bytes) => if bytes.len() == WORD_LEN {
            Ok(bytes_word(order, bytes))
        } else {
            Err(Error::Protocol)
        },
    }
}

/// How far a blob of `total` bytes has been flushed after one more `write`
/// that was offered everything behind the first `sent` bytes.
pub open spec fn blob_verdict(total: usize, sent: usize, outcome: Result<usize, i32>) -> Result<
    usize,
    Error,
> {
    match outcome {
        Err(errno) => Err(Error::System(errno)),
        Ok(n) => if n == 0 || n > total - sent {
            Err(Error::Protocol)
        } else {
            Ok((sent + n) as usize)
        },
    }
}

/// Moves an error code into the bits of an option word that carry it.
pub fn fs_opt_set_error(error: i32) -> (r: i32)
    ensures
        r == (error & 0xFFFF) << 8,
        0 <= error <= 0xFFFF ==> r as u32 == ((error as u32) & 0xFFFF) << 8,
{
    assert(0 <= error <= 0xFFFF ==> ((error & 0xFFFF) << 8) as u32 == ((error as u32) & 0xFFFF)
        << 8) by (bit_vector);
    (error & 0xFFFF) << 8
}

/// Builds the single option word that reports `code` in place of the rest
/// of the handshake.
///
/// Codes from 1 to 0xFFFF are accepted; zero is reserved and larger values
/// do not fit the sixteen bits set aside for them.
pub fn encode_error(code: i32) -> (r: Result<u32, Error>)
    ensures
        1 <= code <= 0xFFFF ==> r == Ok::<u32, Error>(error_word(code as u32)),
        1 <= code <= 0xFFFF ==> is_error_word(r.unwrap()) && error_code_of(r.unwrap()) == code,
        !(1 <= code <= 0xFFFF) ==> r == Err::<u32, Error>(Error::IllegalArgument),
{
    if code <= 0 || code > 0xFFFF {
        return Err(Error::IllegalArgument);
    }
    let word = (fs_opt_set_error(code) as u32) | FS_OPT_ERROR;
    proof {
        lemma_error_word_round_trip(code as u32);
    }
    Ok(word)
}

/// Reads an option word as the supervisor does: the code of an error
/// report, or nothing for any other word.
pub fn decode_error(word: u32) -> (r: Option<u32>)
    ensures
        r == if is_error_word(word) {
            Some(error_code_of(word))
        } else {
            None
        },
{
    if word & FS_OPT_ERROR == FS_OPT_ERROR {
        Some((word >> 8) & 0xFFFF)
    } else {
        None
    }
}

/// An error report keeps its marker bits and gives its code back.
pub proof fn lemma_error_word_round_trip(code: u32)
    requires
        code <= 0xFFFF,
    ensures
        is_error_word(error_word(code)),
        error_code_of(error_word(code)) == code,
{
    assert((((code & 0xFFFF) << 8) | 0xf800_008fu32) & 0xf800_008fu32 == 0xf800_008fu32)
        by (bit_vector);
    assert(code <= 0xFFFF ==> ((((code & 0xFFFF) << 8) | 0xf800_008fu32) >> 8) & 0xFFFF == code)
        by (bit_vector);
}

/// Decoding the bytes of a word gives the word back, in either order.
pub proof fn lemma_word_round_trip(order: ByteOrder, word: u32)
    ensures
        word_bytes(order, word).len() == WORD_LEN,
        bytes_word(order, word_bytes(order, word)) == word,
{
    assert(word == (((word >> 0) & 0xff) as u8 as u32) | ((((word >> 8) & 0xff) as u8 as u32) << 8)
        | ((((word >> 16) & 0xff) as u8 as u32) << 16) | ((((word >> 24) & 0xff) as u8 as u32)
        << 24)) by (bit_vector);
}

/// Encoding the word that four bytes carry gives the bytes back.
pub proof fn lemma_bytes_round_trip(order: ByteOrder, bytes: Seq<u8>)
    requires
        bytes.len() == WORD_LEN,
    ensures
        word_bytes(order, bytes_word(order, bytes)) == bytes,
{
    let (b0, b1, b2, b3) = match order {
        ByteOrder::LittleEndian => (bytes[0], bytes[1], bytes[2], bytes[3]),
        ByteOrder::BigEndian => (bytes[3], bytes[2], bytes[1], bytes[0]),
    };
    let w = word_of(b0, b1, b2, b3);
    assert(w == (b0 as u32) | ((b1 as u32) << 8) | ((b2 as u32) << 16) | ((b3 as u32) << 24) ==> {
        &&& ((w >> 0) & 0xff) as u8 == b0
        &&& ((w >> 8) & 0xff) as u8 == b1
        &&& ((w >> 16) & 0xff) as u8 == b2
        &&& ((w >> 24) & 0xff) as u8 == b3
    }) by (bit_vector);
    assert(word_bytes(order, w) =~= bytes);
}

/// The four bytes to hand to `write` for one control word.
pub fn encode_word(order: ByteOrder, word: u32) -> (bytes: Vec<u8>)
    ensures
        bytes@ == word_bytes(order, word),
        bytes@.len() == WORD_LEN,
        bytes_word(order, bytes@) == word,
{
    let b0 = (word & 0xff) as u8;
    let b1 = ((word >> 8) & 0xff) as u8;
    let b2 = ((word >> 16) & 0xff) as u8;
    let b3 = ((word >> 24) & 0xff) as u8;
    let mut bytes: Vec<u8> = Vec::with_capacity(4);
    match order {
        ByteOrder::LittleEndian => {
            bytes.push(b0);
            bytes.push(b1);
            bytes.push(b2);
            bytes.push(b3);
        },
        ByteOrder::BigEndian => {
            bytes.push(b3);
            bytes.push(b2);
            bytes.push(b1);
            bytes.push(b0);
        },
    }
    proof {
        assert(word >> 0 == word) by (bit_vector);
        assert(bytes@ =~= word_bytes(order, word));
        lemma_word_round_trip(order, word);
    }
    bytes
}

/// The word carried by the bytes one `read` delivered.
///
/// Anything but exactly four bytes is a short read, which the protocol
/// cannot recover from.
pub fn decode_word(order: ByteOrder, bytes: &[u8]) -> (r: Result<u32, Error>)
    ensures
        r == read_verdict(order, Ok::<Seq<u8>, i32>(bytes@)),
{
    if bytes.len() != WORD_LEN {
        return Err(Error::Protocol);
    }
    let (b0, b1, b2, b3) = match order {
        ByteOrder::LittleEndian => (bytes[0], bytes[1], bytes[2], bytes[3]),
        ByteOrder::BigEndian => (bytes[3], bytes[2], bytes[1], bytes[0]),
    };
    let word = (b0 as u32) | ((b1 as u32) << 8) | ((b2 as u32) << 16) | ((b3 as u32) << 24);
    Ok(word)
}

/// Judges the outcome of writing one fixed-width message of `expected`
/// bytes: only a write that took all of them counts.
pub fn accept_write(expected: usize, outcome: Result<usize, i32>) -> (r: Result<(), Error>)
    ensures
        r == write_verdict(expected, outcome),
{
    match outcome {
        Err(errno) => Err(Error::System(errno)),
        Ok(n) => if n == expected {
            Ok(())
        } else {
            Err(Error::Protocol)
        },
    }
}

/// Judges the outcome of reading one control word.
pub fn accept_read(order: ByteOrder, outcome: Result<Vec<u8>, i32>) -> (r: Result<u32, Error>)
    ensures
        r == read_verdict(
            order,
            match outcome {
                Ok(bytes) => Ok(bytes@),
                Err(errno) => Err(errno),
            },
        ),
{
    match outcome {
        Err(errno) => Err(Error::System(errno)),
        Ok(bytes) => decode_word(order, bytes.as_slice()),
    }
}

/// Judges one `write` while a blob of `total` bytes is being flushed and
/// `sent` of them are out already: the new count of bytes sent.
///
/// A partial write is progress. A write that took nothing, or claims more
/// than it was offered, ends the transfer with an error.
pub fn advance_blob(total: usize, sent: usize, outcome: Result<usize, i32>) -> (r: Result<
    usize,
    Error,
>)
    requires
        sent <= total,
    ensures
        r == blob_verdict(total, sent, outcome),
        r matches Ok(now) ==> sent < now <= total,
{
    match outcome {
        Err(errno) => Err(Error::System(errno)),
        Ok(n) => if n == 0 || n > total - sent {
            Err(Error::Protocol)
        } else {
            Ok(sent + n)
        },
    }
}

} // verus!
