//! An input model for the `base64` utility whose wrap column is a number,
//! as the utility expects it.

use vstd::prelude::*;
use vstd::slice::slice_to_vec;
use crate::decimal::{decimal_text, i16_to_decimal};
use crate::executor::{args_view, flag, flag_arg, ExtractsToCommand};

verus! {

/// One invocation of `base64`: what goes to its standard input and which
/// options it is called with.
#[derive(Clone, Debug, PartialEq, Eq)]
pub struct Base64Input {
    /// The bytes fed to standard input.
    pub raw_data: Vec<u8>,
    /// Whether `-d` is passed.
    pub decode: bool,
    /// Whether `-i` is passed.
    pub ignore_garbage: bool,
    /// The column passed with `-w`, where it is passed.
    pub wrap: Option<i16>,
}

/// [`Base64Input`] as a mathematical value.
pub ghost struct Base64InputModel {
    pub raw_data: Seq<u8>,
    pub decode: bool,
    pub ignore_garbage: bool,
    pub wrap: Option<i16>,
}

impl Base64InputModel {
    /// The command line that goes with the input: `-d`, `-i` and `-w` with
    /// its column in decimal, each where it applies, in this order.
    pub open spec fn args(self) -> Seq<Seq<u8>> {
        (if self.decode {
            seq![flag(0x64)]
        } else {
            seq![]
        }) + (if self.ignore_garbage {
            seq![flag(0x69)]
        } else {
            seq![]
        }) + (match self.wrap {
            Some(wrap) => seq![flag(0x77), decimal_text(wrap as int)],
            None => seq![],
        })
    }
}

impl View for Base64Input {
    type V = Base64InputModel;

    open spec fn view(&self) -> Base64InputModel {
        Base64InputModel {
            raw_data: self.raw_data@,
            decode: self.decode,
            ignore_garbage: self.ignore_garbage,
            wrap: self.wrap,
        }
    }
}

impl Base64Input {
    /// Puts an input together from its parts.
    #[must_use]
    pub fn new(raw_data: &[u8], decode: bool, ignore_garbage: bool, wrap: Option<i16>) -> (r: Self)
        ensures
            r.raw_data@ == raw_data@,
            r.decode == decode,
            r.ignore_garbage == ignore_garbage,
            r.wrap == wrap,
    {
        Self { raw_data: slice_to_vec(raw_data), decode, ignore_garbage, wrap }
    }

    /// The bytes fed to standard input.
    #[must_use]
    pub fn bytes(&self) -> (bytes: &[u8])
        ensures
            bytes@ == self.raw_data@,
    {
        self.raw_data.as_slice()
    }

    /// The bytes fed to standard input, for a mutator to work on.
    #[must_use]
    pub fn bytes_mut(&mut self) -> (bytes: &mut Vec<u8>)
        ensures
            *bytes == old(self).raw_data,
            *final(self) == (Base64Input { raw_data: *final(bytes), ..*old(self) }),
    {
        &mut self.raw_data
    }
}

impl ExtractsToCommand for Base64Input {
    open spec fn stdin_spec(&self) -> Seq<u8> {
        self.raw_data@
    }

    open spec fn args_spec(&self) -> Seq<Seq<u8>> {
        self@.args()
    }

    #[must_use]
    fn get_stdin(&self) -> (stdin: &Vec<u8>) {
        &self.raw_data
    }

    #[must_use]
    fn get_args(&self) -> (args: Vec<Vec<u8>>) {
        let mut args: Vec<Vec<u8>> = Vec::with_capacity(4);
        if self.decode {
            args.push(flag_arg(0x64));
        }
        if self.ignore_garbage {
            args.push(flag_arg(0x69));
        }
        match self.wrap {
            Some(wrap) => {
                args.push(flag_arg(0x77));
                args.push(i16_to_decimal(wrap));
            },
            None => {},
        }
        assert(args_view(args@) =~= self@.args());
        args
    }
}

} // verus!
