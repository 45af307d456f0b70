//! Running a command on an input: what the input has to offer, and how
//! the command line is put together.

use vstd::prelude::*;
use vstd::utf8::encode_utf8;
use crate::error::Error;
use crate::shmem::SegmentDescription;

verus! {

/// The arguments as plain byte strings.
pub open spec fn args_view(args: Seq<Vec<u8>>) -> Seq<Seq<u8>> {
    args.map_values(|arg: Vec<u8>| arg@)
}

/// An input that says what a command is fed and called with.
pub trait ExtractsToCommand {
    /// The bytes for the command's standard input.
    spec fn stdin_spec(&self) -> Seq<u8>;

    /// The arguments for the command, in order.
    spec fn args_spec(&self) -> Seq<Seq<u8>>;

    /// The bytes for the command's standard input.
    fn get_stdin(&self) -> (stdin: &Vec<u8>)
        ensures
            stdin@ == self.stdin_spec(),
    ;

    /// The arguments for the command, in order.
    fn get_args(&self) -> (args: Vec<Vec<u8>>)
        ensures
            args_view(args@) == self.args_spec(),
    ;
}

/// The argument that switches on the option with the given letter.
pub open spec fn flag(letter: u8) -> Seq<u8> {
    seq![0x2d, letter]
}

/// Builds the argument that switches on the option with the given letter.
pub fn flag_arg(letter: u8) -> (arg: Vec<u8>)
    ensures
        arg@ == flag(letter),
{
    let mut arg: Vec<u8> = Vec::new();
    arg.push(0x2d);
    arg.push(letter);
    arg
}


/// The variable through which the coverage library is loaded ahead of the
/// command.
pub const PRELOAD_VAR: &'static str = "LD_PRELOAD";

/// The coverage library that is loaded ahead of the command.
pub const PRELOAD_LIBRARY: &'static str = "./target/release/libsetup_guard_redirection.so";

/// How many seconds a command may run.
pub const EXEC_TIMEOUT_SECS: u64 = 5;

/// The JSON text that `serde_json` writes for the description that
/// `libafl_bolts` keeps of a shared-memory segment of the given size and
/// identifier.
pub uninterp spec fn json_of_description(size: usize, id: Seq<u8>) -> Seq<char>;

/// `serde_json::to_string` on a `libafl_bolts::shmem::ShMemDescription`
/// made of the given size and identifier: where it succeeds, the JSON text
/// of that description; nothing where it fails.
#[verifier::external_body]
fn description_to_json(size: usize, id: &[u8; 20]) -> (r: Option<String>)
    ensures
        r matches Some(text) ==> text@ == json_of_description(size, id@),
{
    let id = libafl_bolts::shmem::ShMemId::from_array(id);
    match serde_json::to_string(&libafl_bolts::shmem::ShMemDescription { size, id }) {
        Ok(text) => Some(text),
        Err(_) => None,
    }
}

/// Runs a command on an input and tells it where to report its coverage.
#[derive(Debug)]
pub struct CoverageCommandExecutor {
    shmem_coverage_description: String,
}

impl CoverageCommandExecutor {
    /// The description of the coverage segment as the command gets it.
    pub closed spec fn description(&self) -> Seq<char> {
        self.shmem_coverage_description@
    }

    /// The command line for an input with the given arguments: these
    /// arguments, then the description of the coverage segment.
    pub open spec fn command_line(&self, args: Seq<Seq<u8>>) -> Seq<Seq<u8>> {
        args.push(encode_utf8(self.description()))
    }

    /// An executor that reports coverage to the segment described by
    /// `description`, which is its JSON text.
    pub fn with_description(description: String) -> (executor: Self)
        ensures
            executor.description() == description@,
    {
        Self { shmem_coverage_description: description }
    }

    /// An executor that reports coverage to the given segment. Fails when
    /// the description cannot be written as JSON.
    pub fn new(shmem_coverage_description: &SegmentDescription) -> (r: Result<Self, Error>)
        ensures
            r matches Ok(executor) ==> executor.description() == json_of_description(
                shmem_coverage_description.size,
                shmem_coverage_description.id@,
            ),
            r matches Err(error) ==> error == Error::IllegalState,
    {
        match description_to_json(
            shmem_coverage_description.size,
            &shmem_coverage_description.id,
        ) {
            Some(text) => Ok(Self::with_description(text)),
            None => Err(Error::IllegalState),
        }
    }

    /// The description of the coverage segment as the command gets it.
    pub fn shmem_coverage_description(&self) -> (description: &String)
        ensures
            description@ == self.description(),
    {
        &self.shmem_coverage_description
    }

    /// The arguments with which the command is spawned for `input`: those
    /// of the input, then the description of the coverage segment. The
    /// input's bytes go to the command's standard input.
    pub fn spawn_child<I: ExtractsToCommand>(&mut self, input: &I) -> (args: Vec<Vec<u8>>)
        ensures
            args_view(args@) == old(self).command_line(input.args_spec()),
            final(self).description() == old(self).description(),
    {
        let mut args = input.get_args();
        let ghost before = args@;
        args.push(self.shmem_coverage_description.as_str().as_bytes_vec());
        assert(args_view(args@) =~= args_view(before).push(
            encode_utf8(self.shmem_coverage_description@),
        ));
        args
    }

    /// How many seconds a command may run.
    pub fn exec_timeout(&self) -> (seconds: u64)
        ensures
            seconds == EXEC_TIMEOUT_SECS,
    {
        EXEC_TIMEOUT_SECS
    }
}

} // verus!
