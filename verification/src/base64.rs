//! An input model for the `base64` utility whose wrap column is given as
//! raw bytes, with its generator and mutators.

use vstd::prelude::*;
use vstd::slice::slice_to_vec;
use libafl_bolts::rands::StdRand;
use crate::error::Error;
use crate::executor::{args_view, flag, flag_arg, ExtractsToCommand};
use crate::metadata_structs::{mapped_text, vec_string_mapper};
use crate::mutation::{BytesMutator, MutationResult};
use crate::random::generate_bytes;

verus! {

/// One invocation of `base64`: what goes to its standard input and which
/// options it is called with.
#[derive(Clone, Debug, PartialEq, Eq, Hash)]
pub struct Base64Input {
    /// The bytes fed to standard input.
    pub input: Vec<u8>,
    /// Whether `-d` is passed.
    pub decode: bool,
    /// Whether `-i` is passed.
    pub ignore_garbage: bool,
    /// The argument of `-w`, where it is passed.
    pub wrap: Option<Vec<u8>>,
}

/// [`Base64Input`] as a mathematical value.
pub ghost struct Base64InputModel {
    pub input: Seq<u8>,
    pub decode: bool,
    pub ignore_garbage: bool,
    pub wrap: Option<Seq<u8>>,
}

impl View for Base64Input {
    type V = Base64InputModel;

    open spec fn view(&self) -> Base64InputModel {
        Base64InputModel {
            input: self.input@,
            decode: self.decode,
            ignore_garbage: self.ignore_garbage,
            wrap: match self.wrap {
                Some(wrap) => Some(wrap@),
                None => None,
            },
        }
    }
}

impl Base64InputModel {
    /// The command line that goes with the input: `-d`, `-i` and `-w` with
    /// its argument, each where it applies, in this order.
    pub open spec fn args(self) -> Seq<Seq<u8>> {
        (if self.decode {
            seq![flag(0x64)]
        } else {
            seq![]
        }) + (if self.ignore_garbage {
            seq![flag(0x69)]
        } else {
            seq![]
        }) + (match self.wrap {
            Some(wrap) => seq![flag(0x77), wrap],
            None => seq![],
        })
    }
}

/// The one-line description of an input, given the renderings of its
/// standard input and, where there is one, of its wrap argument.
pub open spec fn description(
    input_text: Seq<char>,
    decode: bool,
    ignore_garbage: bool,
    wrap_text: Option<Seq<char>>,
) -> Seq<char> {
    "input: '"@ + input_text + "'"@ + (if decode {
        ", decode"@
    } else {
        Seq::<char>::empty()
    }) + (if ignore_garbage {
        ", ignore_garbage"@
    } else {
        Seq::<char>::empty()
    }) + (match wrap_text {
        Some(text) => ", wrap: "@ + text,
        None => Seq::<char>::empty(),
    })
}

/// The text of `wrap_text`, where there is one.
pub open spec fn text_of(wrap_text: Option<&str>) -> Option<Seq<char>> {
    match wrap_text {
        Some(text) => Some(text@),
        None => None,
    }
}

/// Puts the one-line description of an input together.
pub fn describe(input_text: &str, decode: bool, ignore_garbage: bool, wrap_text: Option<&str>) -> (r:
    String)
    ensures
        r@ == description(input_text@, decode, ignore_garbage, text_of(wrap_text)),
{
    let mut text = String::from_str("input: '");
    text.append(input_text);
    text.append("'");
    if decode {
        text.append(", decode");
    }
    if ignore_garbage {
        text.append(", ignore_garbage");
    }
    match wrap_text {
        Some(wrap) => {
            text.append(", wrap: ");
            text.append(wrap);
        },
        None => {},
    }
    assert(text@ =~= description(input_text@, decode, ignore_garbage, text_of(wrap_text)));
    text
}

impl Base64Input {
    /// The input in one line, for people to read: its standard input, the
    /// options that are set and, where there is one, the wrap argument.
    pub fn to_text(&self) -> (text: String)
        ensures
            exists|input_text: Seq<char>, wrap_text: Seq<char>|
                {
                    &&& #[trigger] mapped_text(Some(self.input@), input_text)
                    &&& self@.wrap is Some ==> #[trigger] mapped_text(self@.wrap, wrap_text)
                    &&& text@ == description(
                        input_text,
                        self.decode,
                        self.ignore_garbage,
                        if self.wrap is Some {
                            Some(wrap_text)
                        } else {
                            None
                        },
                    )
                },
    {
        let input_text = vec_string_mapper(&Some(slice_to_vec(self.input.as_slice())));
        match &self.wrap {
            Some(wrap) => {
                let wrap_text = vec_string_mapper(&Some(slice_to_vec(wrap.as_slice())));
                let text = describe(
                    input_text.as_str(),
                    self.decode,
                    self.ignore_garbage,
                    Some(wrap_text.as_str()),
                );
                assert(mapped_text(Some(self.input@), input_text@) && mapped_text(
                    self@.wrap,
                    wrap_text@,
                ));
                text
            },
            None => {
                let text = describe(input_text.as_str(), self.decode, self.ignore_garbage, None);
                assert(mapped_text(Some(self.input@), input_text@) && mapped_text(
                    None,
                    "Did not observe anything"@,
                ));
                text
            },
        }
    }

    /// Puts an input together from its parts.
    #[must_use]
    pub fn new(input: &[u8], decode: bool, ignore_garbage: bool, wrap: Option<Vec<u8>>) -> (r:
        Self)
        ensures
            r.input@ == input@,
            r.decode == decode,
            r.ignore_garbage == ignore_garbage,
            r.wrap == wrap,
    {
        Self { input: slice_to_vec(input), decode, ignore_garbage, wrap }
    }

    /// The bytes fed to standard input, for a mutator to work on.
    pub fn extract_input(&mut self) -> (field: &mut Vec<u8>)
        ensures
            *field == old(self).input,
            *final(self) == (Base64Input { input: *final(field), ..*old(self) }),
    {
        &mut self.input
    }

    /// The argument of `-w`, for a mutator to work on.
    pub fn extract_wrap(&mut self) -> (field: &mut Option<Vec<u8>>)
        ensures
            *field == old(self).wrap,
            *final(self) == (Base64Input { wrap: *final(field), ..*old(self) }),
    {
        &mut self.wrap
    }
}

impl ExtractsToCommand for Base64Input {
    open spec fn stdin_spec(&self) -> Seq<u8> {
        self.input@
    }

    open spec fn args_spec(&self) -> Seq<Seq<u8>> {
        self@.args()
    }

    #[must_use]
    fn get_stdin(&self) -> (stdin: &Vec<u8>) {
        &self.input
    }

    #[must_use]
    fn get_args(&self) -> (args: Vec<Vec<u8>>) {
        let mut args: Vec<Vec<u8>> = Vec::with_capacity(4);
        if self.decode {
            args.push(flag_arg(0x64));
        }
        if self.ignore_garbage {
            args.push(flag_arg(0x69));
        }
        match &self.wrap {
            Some(wrap) => {
                args.push(flag_arg(0x77));
                args.push(slice_to_vec(wrap.as_slice()));
            },
            None => {},
        }
        assert(args_view(args@) =~= self@.args());
        args
    }
}

/// Generates random inputs with an input of `input_size` bytes and, where
/// there is one, a wrap argument of `wrap_size` bytes.
#[derive(Clone, Copy, Debug, PartialEq, Eq, Structural)]
pub struct Base64Generator {
    input_size: u32,
    wrap_size: u32,
}

impl Base64Generator {
    /// The number of bytes of a generated input.
    pub closed spec fn input_len(&self) -> u32 {
        self.input_size
    }

    /// The number of bytes of a generated wrap argument.
    pub closed spec fn wrap_len(&self) -> u32 {
        self.wrap_size
    }

    /// A generator for the given sizes.
    pub fn new(input_size: u32, wrap_size: u32) -> (generator: Self)
        ensures
            generator.input_len() == input_size,
            generator.wrap_len() == wrap_size,
    {
        Self { input_size, wrap_size }
    }

    /// Generates an input. The bytes are drawn from `rand`, the input's
    /// first and the wrap argument's after them; the three coin flips that
    /// decide the options are the caller's.
    pub fn generate(
        &mut self,
        rand: &mut StdRand,
        decode: bool,
        ignore_garbage: bool,
        with_wrap: bool,
    ) -> (r: Result<Base64Input, Error>)
        ensures
            *final(self) == *old(self),
            r matches Ok(input) && {
                &&& input.input.len() == old(self).input_len()
                &&& input.decode == decode
                &&& input.ignore_garbage == ignore_garbage
                &&& with_wrap ==> (input.wrap matches Some(wrap) && wrap.len() == old(self).wrap_len())
                &&& !with_wrap ==> input.wrap is None
            },
    {
        let input = generate_bytes(rand, self.input_size);
        let wrap = if with_wrap {
            Some(generate_bytes(rand, self.wrap_size))
        } else {
            None
        };
        Ok(Base64Input::new(input.as_slice(), decode, ignore_garbage, wrap))
    }
}

/// Switches decoding on or off.
#[derive(Clone, Copy, Debug)]
pub struct Base64FlipDecodeMutator;

impl Base64FlipDecodeMutator {
    /// Flips the `-d` option and leaves the rest alone.
    pub fn mutate(&mut self, input: &mut Base64Input) -> (r: Result<MutationResult, Error>)
        ensures
            r == Ok::<MutationResult, Error>(MutationResult::Mutated),
            *final(input) == (Base64Input { decode: !old(input).decode, ..*old(input) }),
    {
        input.decode = !input.decode;
        Ok(MutationResult::Mutated)
    }

    /// The name under which the mutator is listed.
    pub fn name(&self) -> (name: &'static str)
        ensures
            name@ == "Base64FlipDecodeMutator"@,
    {
        "Base64FlipDecodeMutator"
    }
}

/// Switches the tolerance for garbage on or off.
#[derive(Clone, Copy, Debug)]
pub struct Base64FlipIgnoreGarbageMutator;

impl Base64FlipIgnoreGarbageMutator {
    /// Flips the `-i` option and leaves the rest alone.
    pub fn mutate(&mut self, input: &mut Base64Input) -> (r: Result<MutationResult, Error>)
        ensures
            r == Ok::<MutationResult, Error>(MutationResult::Mutated),
            *final(input) == (Base64Input {
                ignore_garbage: !old(input).ignore_garbage,
                ..*old(input)
            }),
    {
        input.ignore_garbage = !input.ignore_garbage;
        Ok(MutationResult::Mutated)
    }

    /// The name under which the mutator is listed.
    pub fn name(&self) -> (name: &'static str)
        ensures
            name@ == "Base64FlipIgnoreGarbageMutator"@,
    {
        "Base64FlipIgnoreGarbageMutator"
    }
}

/// Adds a wrap argument where there is none and removes it where there is
/// one.
#[derive(Clone, Copy, Debug)]
pub struct Base64FlipWrapMutator;

impl Base64FlipWrapMutator {
    /// Gives an input without `-w` a random argument of two bytes, and
    /// takes the argument away from an input that has one.
    pub fn mutate(&mut self, rand: &mut StdRand, input: &mut Base64Input) -> (r: Result<
        MutationResult,
        Error,
    >)
        ensures
            r == Ok::<MutationResult, Error>(MutationResult::Mutated),
            final(input).input == old(input).input,
            final(input).decode == old(input).decode,
            final(input).ignore_garbage == old(input).ignore_garbage,
            old(input).wrap is Some ==> final(input).wrap is None,
            old(input).wrap is None ==> (final(input).wrap matches Some(wrap) && wrap.len() == 2),
    {
        if input.wrap.is_none() {
            input.wrap = Some(generate_bytes(rand, 2));
        } else {
            input.wrap = None;
        }
        Ok(MutationResult::Mutated)
    }

    /// The name under which the mutator is listed.
    pub fn name(&self) -> (name: &'static str)
        ensures
            name@ == "Base64FlipWrapMutator"@,
    {
        "Base64FlipWrapMutator"
    }
}


/// One of the mutators that work on a [`Base64Input`].
#[derive(Debug)]
pub enum Base64Mutator<M> {
    /// A byte mutator applied to the bytes fed to standard input.
    Input(M),
    /// A byte mutator applied to the wrap argument, where there is one.
    Wrap(M),
    /// Switches decoding on or off.
    FlipDecode,
    /// Switches the tolerance for garbage on or off.
    FlipIgnoreGarbage,
    /// Adds or removes the wrap argument.
    FlipWrap,
}

/// The full list of mutators: each of `for_input` applied to the bytes fed
/// to standard input, then each of `for_wrap` applied to the wrap argument,
/// then the three that flip an option.
pub open spec fn mutators_of<M>(for_input: Seq<M>, for_wrap: Seq<M>) -> Seq<Base64Mutator<M>> {
    for_input.map_values(|m: M| Base64Mutator::Input(m)) + for_wrap.map_values(
        |m: M| Base64Mutator::Wrap(m),
    ) + seq![
        Base64Mutator::<M>::FlipDecode,
        Base64Mutator::<M>::FlipIgnoreGarbage,
        Base64Mutator::<M>::FlipWrap,
    ]
}

/// Puts the full list of mutators together from the byte mutators to apply
/// to the input and those to apply to the wrap argument.
pub fn base64_mutators<M>(for_input: Vec<M>, for_wrap: Vec<M>) -> (mutators: Vec<Base64Mutator<M>>)
    ensures
        mutators@ == mutators_of(for_input@, for_wrap@),
{
    let mut mutators: Vec<Base64Mutator<M>> = Vec::new();
    let mut rest = for_input;
    while rest.len() > 0
        invariant
            mutators@ + rest@.map_values(|m: M| Base64Mutator::Input(m)) == for_input@.map_values(
                |m: M| Base64Mutator::Input(m),
            ),
        decreases rest.len(),
    {
        let ghost before = rest@;
        let ghost built = mutators@;
        let first = rest.remove(0);
        mutators.push(Base64Mutator::Input(first));
        assert(mutators@ + rest@.map_values(|m: M| Base64Mutator::Input(m)) =~= built
            + before.map_values(|m: M| Base64Mutator::Input(m)));
    }
    assert(mutators@ =~= for_input@.map_values(|m: M| Base64Mutator::Input(m)));
    let ghost head = mutators@;
    let mut rest = for_wrap;
    while rest.len() > 0
        invariant
            mutators@ + rest@.map_values(|m: M| Base64Mutator::Wrap(m)) == head
                + for_wrap@.map_values(|m: M| Base64Mutator::Wrap(m)),
        decreases rest.len(),
    {
        let ghost before = rest@;
        let ghost built = mutators@;
        let first = rest.remove(0);
        mutators.push(Base64Mutator::Wrap(first));
        assert(mutators@ + rest@.map_values(|m: M| Base64Mutator::Wrap(m)) =~= built
            + before.map_values(|m: M| Base64Mutator::Wrap(m)));
    }
    mutators.push(Base64Mutator::FlipDecode);
    mutators.push(Base64Mutator::FlipIgnoreGarbage);
    mutators.push(Base64Mutator::FlipWrap);
    assert(mutators@ =~= mutators_of(for_input@, for_wrap@));
    mutators
}

impl<M: BytesMutator> Base64Mutator<M> {
    /// Applies the mutator. A byte mutator works on its field only; one
    /// for the wrap argument skips an input that has none.
    pub fn mutate(&mut self, rand: &mut StdRand, input: &mut Base64Input) -> (r: Result<
        MutationResult,
        Error,
    >)
        ensures
            r is Ok,
            match *old(self) {
                Base64Mutator::Input(_) => {
                    &&& final(input).decode == old(input).decode
                    &&& final(input).ignore_garbage == old(input).ignore_garbage
                    &&& final(input).wrap == old(input).wrap
                },
                Base64Mutator::Wrap(_) => {
                    &&& final(input).input == old(input).input
                    &&& final(input).decode == old(input).decode
                    &&& final(input).ignore_garbage == old(input).ignore_garbage
                    &&& final(input).wrap is Some == old(input).wrap is Some
                    &&& old(input).wrap is None ==> r == Ok::<MutationResult, Error>(
                        MutationResult::Skipped,
                    )
                },
                Base64Mutator::FlipDecode => {
                    &&& r == Ok::<MutationResult, Error>(MutationResult::Mutated)
                    &&& *final(input) == (Base64Input { decode: !old(input).decode, ..*old(input) })
                },
                Base64Mutator::FlipIgnoreGarbage => {
                    &&& r == Ok::<MutationResult, Error>(MutationResult::Mutated)
                    &&& *final(input) == (Base64Input {
                        ignore_garbage: !old(input).ignore_garbage,
                        ..*old(input)
                    })
                },
                Base64Mutator::FlipWrap => {
                    &&& r == Ok::<MutationResult, Error>(MutationResult::Mutated)
                    &&& final(input).input == old(input).input
                    &&& final(input).decode == old(input).decode
                    &&& final(input).ignore_garbage == old(input).ignore_garbage
                    &&& final(input).wrap is Some == old(input).wrap is None
                },
            },
    {
        match self {
            Base64Mutator::Input(inner) => Ok(inner.mutate(rand, &mut input.input)),
            Base64Mutator::Wrap(inner) => match &mut input.wrap {
                Some(wrap) => Ok(inner.mutate(rand, wrap)),
                None => Ok(MutationResult::Skipped),
            },
            Base64Mutator::FlipDecode => Base64FlipDecodeMutator.mutate(input),
            Base64Mutator::FlipIgnoreGarbage => Base64FlipIgnoreGarbageMutator.mutate(input),
            Base64Mutator::FlipWrap => Base64FlipWrapMutator.mutate(rand, input),
        }
    }

    /// The name under which the mutator is listed.
    pub fn name(&self) -> (name: &'static str)
        ensures
            name@ == match *self {
                Base64Mutator::Input(_) => "MappingMutator"@,
                Base64Mutator::Wrap(_) => "MappingOptionMutator"@,
                Base64Mutator::FlipDecode => "Base64FlipDecodeMutator"@,
                Base64Mutator::FlipIgnoreGarbage => "Base64FlipIgnoreGarbageMutator"@,
                Base64Mutator::FlipWrap => "Base64FlipWrapMutator"@,
            },
    {
        match self {
            Base64Mutator::Input(_) => "MappingMutator",
            Base64Mutator::Wrap(_) => "MappingOptionMutator",
            Base64Mutator::FlipDecode => Base64FlipDecodeMutator.name(),
            Base64Mutator::FlipIgnoreGarbage => Base64FlipIgnoreGarbageMutator.name(),
            Base64Mutator::FlipWrap => Base64FlipWrapMutator.name(),
        }
    }
}

} // verus!
