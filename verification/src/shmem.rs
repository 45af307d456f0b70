//! What is computed around the coverage segment of a command: how many
//! guards the instrumented program reports, and how the segment's
//! descriptor is kept open across `exec`.

use vstd::prelude::*;
use vstd::utf8::{decode_utf8, encode_utf8, valid_utf8};
use crate::decimal::{parse_usize, usize_of};
use crate::error::Error;
use crate::metadata_structs::utf8_text;
use crate::shared_memory::{parse_segment_id, segment_id_of};

verus! {

/// Number of bytes of a segment identifier.
pub const ID_LEN: usize = 20;

/// What is known of a shared-memory segment: its size and its identifier,
/// which is text that ends at the first zero byte.
#[derive(Clone, Copy, Debug, PartialEq, Eq)]
pub struct SegmentDescription {
    /// Size of the segment in bytes.
    pub size: usize,
    /// Identifier of the segment.
    pub id: [u8; 20],
}

/// The bytes of `id` before its first zero byte.
pub open spec fn id_text(id: Seq<u8>) -> Seq<u8>
    decreases id.len(),
{
    if id.len() == 0 || id[0] == 0 {
        seq![]
    } else {
        seq![id[0]] + id_text(id.skip(1))
    }
}

/// Whether `c` is white space in the sense of Unicode.
pub open spec fn is_white_space(c: char) -> bool {
    let code = c as u32;
    ||| 0x09 <= code <= 0x0d
    ||| code == 0x20
    ||| code == 0x85
    ||| code == 0xa0
    ||| code == 0x1680
    ||| 0x2000 <= code <= 0x200a
    ||| code == 0x2028
    ||| code == 0x2029
    ||| code == 0x202f
    ||| code == 0x205f
    ||| code == 0x3000
}

/// `text` without the white space at its start.
pub open spec fn trimmed_start(text: Seq<char>) -> Seq<char>
    decreases text.len(),
{
    if text.len() > 0 && is_white_space(text[0]) {
        trimmed_start(text.skip(1))
    } else {
        text
    }
}

/// `text` without the white space at its end.
pub open spec fn trimmed_end(text: Seq<char>) -> Seq<char>
    decreases text.len(),
{
    if text.len() > 0 && is_white_space(text.last()) {
        trimmed_end(text.drop_last())
    } else {
        text
    }
}

/// `text` without the white space at either end.
pub open spec fn trimmed(text: Seq<char>) -> Seq<char> {
    trimmed_end(trimmed_start(text))
}

/// `str::trim`: the slice without leading and trailing white space, white
/// space being what Unicode's `White_Space` property says.
#[verifier::external_body]
fn trim(text: &str) -> (inner: &str)
    ensures
        inner@ == trimmed(text@),
{
    text.trim()
}

/// `libc::FD_CLOEXEC`: the descriptor flag that closes a descriptor on
/// `exec`. Its value is the platform's; nothing is claimed of it.
#[verifier::external_body]
fn fd_cloexec() -> i32 {
    libc::FD_CLOEXEC
}

/// What the output of the instrumented program says about its number of
/// guards: the output must be UTF-8 and, white space aside, a decimal
/// number; a count of zero is no count.
pub open spec fn guard_num_of(output: Seq<u8>) -> Result<usize, Error> {
    if !valid_utf8(output) {
        Err(Error::IllegalArgument)
    } else {
        match usize_of(encode_utf8(trimmed(decode_utf8(output)))) {
            None => Err(Error::IllegalArgument),
            Some(count) => if count == 0 {
                Err(Error::IllegalState)
            } else {
                Ok(count)
            },
        }
    }
}

/// Reads the number of guards from what the instrumented program wrote to
/// its standard output.
pub fn get_guard_num(output: &[u8]) -> (r: Result<usize, Error>)
    ensures
        r == guard_num_of(output@),
{
    broadcast use vstd::utf8::decode_utf8_encode_utf8;

    match utf8_text(output) {
        None => Err(Error::IllegalArgument),
        Some(text) => {
            assert(text@ == decode_utf8(output@)) by {
                vstd::utf8::encode_utf8_decode_utf8(text@);
            }
            match parse_usize(trim(text).as_bytes()) {
                None => Err(Error::IllegalArgument),
                Some(count) => if count == 0 {
                    Err(Error::IllegalState)
                } else {
                    Ok(count)
                },
            }
        },
    }
}

/// Reads the size of the coverage segment, in guards, from what the
/// instrumented program wrote to its standard output.
pub fn get_coverage_shmem_size(output: &[u8]) -> (r: Result<usize, Error>)
    ensures
        r == guard_num_of(output@),
{
    get_guard_num(output)
}

impl SegmentDescription {
    /// The descriptor that the identifier names, where it names one.
    pub fn fd(&self) -> (fd: Option<i32>)
        ensures
            fd == segment_id_of(id_text(self.id@)),
    {
        let mut text: Vec<u8> = Vec::new();
        let mut i: usize = 0;
        assert(self.id@.skip(0) == self.id@);
        assert(text@ + id_text(self.id@) =~= id_text(self.id@));
        while i < ID_LEN && self.id[i] != 0
            invariant
                i <= ID_LEN,
                self.id@.len() == ID_LEN,
                text@ + id_text(self.id@.skip(i as int)) == id_text(self.id@),
            decreases ID_LEN - i,
        {
            let ghost rest = self.id@.skip(i as int);
            assert(rest[0] == self.id@[i as int]);
            assert(rest.skip(1) == self.id@.skip(i + 1));
            assert(text@.push(self.id[i as int]) + id_text(rest.skip(1)) =~= text@ + id_text(rest));
            text.push(self.id[i]);
            i += 1;
        }
        assert(id_text(self.id@.skip(i as int)) == Seq::<u8>::empty());
        assert(text@ == id_text(self.id@));
        parse_segment_id(text.as_slice())
    }
}

/// What becomes of descriptor flags when `flag` is cleared in them, given
/// the flags as `fcntl` reported them and the `errno` it left behind. Flags
/// of -1 are the report of a failure.
pub open spec fn cleared(flags: i32, flag: i32, errno: i32) -> Result<i32, Error> {
    if flags == -1 {
        Err(Error::System(errno))
    } else {
        Ok(flags & !flag)
    }
}

/// Clears `flag` in the descriptor flags that `fcntl` reported.
pub fn without_flag(flags: i32, flag: i32, errno: i32) -> (r: Result<i32, Error>)
    ensures
        r == cleared(flags, flag, errno),
{
    if flags == -1 {
        Err(Error::System(errno))
    } else {
        Ok(flags & !flag)
    }
}

/// The descriptor flags with which a segment stays open across `exec`,
/// given the flags it has now as `fcntl` reported them and the `errno` it
/// left behind: the same flags without close-on-exec.
pub fn make_shmem_persist(flags: i32, errno: i32) -> (r: Result<i32, Error>)
    ensures
        exists|close_on_exec: i32| r == #[trigger] cleared(flags, close_on_exec, errno),
        flags == -1 <==> r is Err,
{
    without_flag(flags, fd_cloexec(), errno)
}

} // verus!
