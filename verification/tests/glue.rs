use forksrv::base64::{
    Base64FlipDecodeMutator as FlipDecode, Base64FlipIgnoreGarbageMutator as FlipIgnoreGarbage,
    Base64FlipWrapMutator as FlipWrap, Base64Generator as BytesWrapGenerator,
    Base64Input as BytesWrapInput,
};
use forksrv::error::Error;
use forksrv::executor::{flag_arg, ExtractsToCommand};
use forksrv::feedback::{has_stderr, PseudoPrintFeedback};
use forksrv::generator::Base64Generator;
use forksrv::input::Base64Input;
use forksrv::input_logger_feedback::InputLoggerFeedback;
use forksrv::metadata_structs::{
    render_invalid_utf8, vec_string_mapper, InputMetadata, NamedString, StdErrBinaryDiffMetadata,
    StdErrDiffMetadata, StdOutDiffMetadata,
};
use forksrv::mutation::{BytesMutator, MappingMutator, MappingOptionMutator, MutationResult};
use forksrv::mutator::{
    Base64FlipDecodeMutator, Base64FlipIgnoreGarbageMutator, Base64FlipWrapMutator,
    Base64RawDataMutator, Base64WrapContentMutator,
};
use forksrv::random::{
    below, byte_from_word, bytes_from_words, generate_bytes, i16_from_word, index_from_word,
    next_word,
};
use libafl_bolts::rands::{Rand, StdRand};

/// Appends one byte, or does nothing on request.
struct Append(u8, bool);

impl BytesMutator for Append {
    fn mutate(&mut self, _rand: &mut StdRand, bytes: &mut Vec<u8>) -> MutationResult {
        if self.1 {
            bytes.push(self.0);
            MutationResult::Mutated
        } else {
            MutationResult::Skipped
        }
    }
}

#[test]
fn random_words_follow_the_generator() {
    let mut ours = StdRand::with_seed(1234);
    let mut theirs = StdRand::with_seed(1234);
    for _ in 0..32 {
        assert_eq!(next_word(&mut ours), theirs.next());
    }
}

#[test]
fn words_scale_down_to_indices() {
    assert_eq!(index_from_word(0, 10), 0);
    assert_eq!(index_from_word(u64::MAX, 10), 9);
    assert_eq!(index_from_word(1 << 63, 10), 5);
    assert_eq!(index_from_word(1 << 63, 1), 0);
    assert_eq!(index_from_word(u64::MAX, 1), 0);
    assert_eq!(index_from_word(3 << 62, 4), 3);
    assert_eq!(index_from_word(u64::MAX, usize::MAX), usize::MAX - 1);
}

#[test]
fn words_scale_down_to_bytes() {
    assert_eq!(byte_from_word(0), 0);
    assert_eq!(byte_from_word(u64::MAX), 255);
    assert_eq!(byte_from_word(0x8000_0000_0000_0000), 0x80);
    assert_eq!(byte_from_word(0x12ff_ffff_ffff_ffff), 0x12);
    assert_eq!(byte_from_word(0x00ff_ffff_ffff_ffff), 0);
    assert_eq!(bytes_from_words(&[0, u64::MAX, 0x4100_0000_0000_0000]), vec![0, 255, 0x41]);
    assert_eq!(bytes_from_words(&[]), Vec::<u8>::new());
}

#[test]
fn words_truncate_to_sixteen_bits() {
    assert_eq!(i16_from_word(0), 0);
    assert_eq!(i16_from_word(76), 76);
    assert_eq!(i16_from_word(0xffff), -1);
    assert_eq!(i16_from_word(0x1_8000), i16::MIN);
    assert_eq!(i16_from_word(0xdead_beef_0000_7fff), i16::MAX);
    for word in [0u64, 1, 0x8000, 0xabcd_ef01_2345_6789, u64::MAX] {
        assert_eq!(i16_from_word(word), word as i16);
    }
}

#[test]
fn draws_stay_below_their_bound() {
    let mut rand = StdRand::with_seed(7);
    for bound in [1usize, 2, 3, 10, 255, 256, 1000] {
        for _ in 0..200 {
            assert!(below(&mut rand, bound) < bound);
        }
    }
}

#[test]
fn generated_bytes_have_the_requested_length_and_follow_the_stream() {
    let mut rand = StdRand::with_seed(99);
    assert_eq!(generate_bytes(&mut rand, 0), Vec::<u8>::new());
    assert_eq!(generate_bytes(&mut rand, 17).len(), 17);
    let mut ours = StdRand::with_seed(5);
    let mut theirs = StdRand::with_seed(5);
    let words: Vec<u64> = (0..8).map(|_| theirs.next()).collect();
    assert_eq!(generate_bytes(&mut ours, 8), bytes_from_words(&words));
}

#[test]
fn bytes_wrap_input_keeps_its_parts() {
    let input = BytesWrapInput::new(b"hello", true, false, Some(b"76".to_vec()));
    assert_eq!(input.input, b"hello".to_vec());
    assert!(input.decode);
    assert!(!input.ignore_garbage);
    assert_eq!(input.wrap, Some(b"76".to_vec()));
    assert_eq!(input.get_stdin(), &b"hello".to_vec());
}

#[test]
fn bytes_wrap_input_builds_its_command_line() {
    let none = BytesWrapInput::new(b"", false, false, None);
    assert_eq!(none.get_args(), Vec::<Vec<u8>>::new());
    let all = BytesWrapInput::new(b"x", true, true, Some(vec![0xff, b'1']));
    assert_eq!(
        all.get_args(),
        vec![b"-d".to_vec(), b"-i".to_vec(), b"-w".to_vec(), vec![0xff, b'1']]
    );
    let some = BytesWrapInput::new(b"x", false, true, Some(Vec::new()));
    assert_eq!(some.get_args(), vec![b"-i".to_vec(), b"-w".to_vec(), Vec::new()]);
    assert_eq!(flag_arg(b'q'), b"-q".to_vec());
}

#[test]
fn bytes_wrap_input_hands_out_its_fields() {
    let mut input = BytesWrapInput::new(b"ab", false, false, None);
    input.extract_input().push(b'c');
    assert_eq!(input.input, b"abc".to_vec());
    *input.extract_wrap() = Some(vec![1]);
    assert_eq!(input.wrap, Some(vec![1]));
    assert!(!input.decode);
}

#[test]
fn bytes_wrap_generator_draws_the_requested_sizes() {
    let mut rand = StdRand::with_seed(3);
    let mut generator = BytesWrapGenerator::new(8, 2);
    let with = generator.generate(&mut rand, true, false, true).unwrap();
    assert_eq!(with.input.len(), 8);
    assert_eq!(with.wrap.as_ref().map(|w| w.len()), Some(2));
    assert!(with.decode);
    assert!(!with.ignore_garbage);
    let without = generator.generate(&mut rand, false, true, false).unwrap();
    assert_eq!(without.input.len(), 8);
    assert_eq!(without.wrap, None);
    assert!(without.ignore_garbage);
    assert_eq!(generator, BytesWrapGenerator::new(8, 2));
}

#[test]
fn bytes_wrap_mutators_flip_their_option() {
    let mut rand = StdRand::with_seed(3);
    let mut input = BytesWrapInput::new(b"ab", false, true, None);
    assert_eq!(FlipDecode.mutate(&mut input), Ok(MutationResult::Mutated));
    assert_eq!(input, BytesWrapInput::new(b"ab", true, true, None));
    assert_eq!(FlipIgnoreGarbage.mutate(&mut input), Ok(MutationResult::Mutated));
    assert_eq!(input, BytesWrapInput::new(b"ab", true, false, None));
    assert_eq!(FlipWrap.mutate(&mut rand, &mut input), Ok(MutationResult::Mutated));
    assert_eq!(input.wrap.as_ref().map(|w| w.len()), Some(2));
    assert_eq!(input.input, b"ab".to_vec());
    assert_eq!(FlipWrap.mutate(&mut rand, &mut input), Ok(MutationResult::Mutated));
    assert_eq!(input, BytesWrapInput::new(b"ab", true, false, None));
    assert_eq!(FlipDecode.name(), "Base64FlipDecodeMutator");
    assert_eq!(FlipIgnoreGarbage.name(), "Base64FlipIgnoreGarbageMutator");
    assert_eq!(FlipWrap.name(), "Base64FlipWrapMutator");
}

#[test]
fn numeric_input_keeps_its_parts() {
    let mut input = Base64Input::new(b"data", false, true, Some(-3));
    assert_eq!(input.bytes(), b"data");
    assert_eq!(input.get_stdin(), &b"data".to_vec());
    input.bytes_mut().clear();
    assert_eq!(input, Base64Input::new(b"", false, true, Some(-3)));
}

#[test]
fn numeric_input_builds_its_command_line() {
    assert_eq!(Base64Input::new(b"", false, false, None).get_args(), Vec::<Vec<u8>>::new());
    assert_eq!(
        Base64Input::new(b"", true, true, Some(76)).get_args(),
        vec![b"-d".to_vec(), b"-i".to_vec(), b"-w".to_vec(), b"76".to_vec()]
    );
    assert_eq!(
        Base64Input::new(b"", true, false, Some(i16::MIN)).get_args(),
        vec![b"-d".to_vec(), b"-w".to_vec(), b"-32768".to_vec()]
    );
    assert_eq!(
        Base64Input::new(b"", false, false, Some(0)).get_args(),
        vec![b"-w".to_vec(), b"0".to_vec()]
    );
}

#[test]
fn numeric_generator_respects_its_bound() {
    let mut rand = StdRand::with_seed(11);
    let mut generator = Base64Generator::new(8);
    for round in 0..200 {
        let input = generator.generate(&mut rand, round % 2 == 0, round % 3 == 0, round % 5 == 0);
        let input = input.unwrap();
        assert!(!input.raw_data.is_empty() && input.raw_data.len() < 8);
        assert_eq!(input.decode, round % 2 == 0);
        assert_eq!(input.ignore_garbage, round % 3 == 0);
        assert_eq!(input.wrap.is_some(), round % 5 == 0);
    }
    for bound in [0usize, 1] {
        let input = Base64Generator::new(bound).generate(&mut rand, false, false, false);
        assert_eq!(input.unwrap().raw_data.len(), 1);
    }
}

#[test]
fn numeric_mutators_follow_their_rules() {
    let mut rand = StdRand::with_seed(3);
    let mut input = Base64Input::new(b"ab", false, false, None);
    assert_eq!(Base64FlipDecodeMutator.mutate(&mut input), Ok(MutationResult::Mutated));
    assert!(input.decode);
    assert_eq!(Base64FlipIgnoreGarbageMutator.mutate(&mut input), Ok(MutationResult::Mutated));
    assert!(input.ignore_garbage);
    assert_eq!(
        Base64WrapContentMutator.mutate(&mut rand, &mut input),
        Ok(MutationResult::Skipped)
    );
    assert_eq!(input.wrap, None);
    let mut expected = rand;
    assert_eq!(Base64FlipWrapMutator.mutate(&mut rand, &mut input), Ok(MutationResult::Mutated));
    assert_eq!(input.wrap, Some(expected.next() as i16));
    let kept = input.wrap;
    assert_eq!(Base64FlipWrapMutator.mutate(&mut rand, &mut input), Ok(MutationResult::Skipped));
    assert_eq!(input.wrap, kept);
    let mut expected = rand;
    assert_eq!(
        Base64WrapContentMutator.mutate(&mut rand, &mut input),
        Ok(MutationResult::Mutated)
    );
    assert_eq!(input.wrap, Some(expected.next() as i16));
    assert_eq!(input.raw_data, b"ab".to_vec());
    assert_eq!(Base64FlipDecodeMutator.name(), "Base64FlipDecodeMutator");
    assert_eq!(Base64FlipIgnoreGarbageMutator.name(), "Base64FlipIgnoreGarbageMutator");
    assert_eq!(Base64WrapContentMutator.name(), "Base64WrapContentMutator");
    assert_eq!(Base64FlipWrapMutator.name(), "Base64FlipWrapMutator");
    assert_eq!(Base64RawDataMutator.name(), "Base64RawDataMutator");
}

#[test]
fn raw_data_mutator_applies_one_of_the_mutations() {
    let mut rand = StdRand::with_seed(3);
    let mut input = Base64Input::new(b"ab", true, false, Some(4));
    let mut none: Vec<Append> = Vec::new();
    assert_eq!(
        Base64RawDataMutator.mutate(&mut rand, &mut none, &mut input),
        Err(Error::IllegalArgument)
    );
    assert_eq!(input, Base64Input::new(b"ab", true, false, Some(4)));
    let mut mutations = vec![Append(b'x', true), Append(b'y', true)];
    assert_eq!(
        Base64RawDataMutator.mutate(&mut rand, &mut mutations, &mut input),
        Ok(MutationResult::Mutated)
    );
    assert!(input.raw_data == b"abx".to_vec() || input.raw_data == b"aby".to_vec());
    assert_eq!(input.wrap, Some(4));
    assert!(input.decode);
    assert_eq!(mutations.len(), 2);
}

#[test]
fn mapping_mutator_works_on_the_extracted_field() {
    let mut rand = StdRand::with_seed(3);
    let mut input = BytesWrapInput::new(b"ab", false, false, None);
    let mut on_input = MappingMutator::new(BytesWrapInput::extract_input, Append(b'!', true));
    assert_eq!(on_input.mutate(&mut rand, &mut input), MutationResult::Mutated);
    assert_eq!(input, BytesWrapInput::new(b"ab!", false, false, None));
    assert_eq!(on_input.name(), "MappingMutator");
    let mut idle = MappingMutator::new(BytesWrapInput::extract_input, Append(b'!', false));
    assert_eq!(idle.mutate(&mut rand, &mut input), MutationResult::Skipped);
    assert_eq!(input.input, b"ab!".to_vec());
}

#[test]
fn mapping_option_mutator_skips_an_absent_field() {
    let mut rand = StdRand::with_seed(3);
    let mut input = BytesWrapInput::new(b"ab", false, false, None);
    let mut on_wrap = MappingOptionMutator::new(BytesWrapInput::extract_wrap, Append(b'7', true));
    assert_eq!(on_wrap.mutate(&mut rand, &mut input), MutationResult::Skipped);
    assert_eq!(input, BytesWrapInput::new(b"ab", false, false, None));
    input.wrap = Some(b"1".to_vec());
    assert_eq!(on_wrap.mutate(&mut rand, &mut input), MutationResult::Mutated);
    assert_eq!(input.wrap, Some(b"17".to_vec()));
    assert_eq!(input.input, b"ab".to_vec());
    assert_eq!(on_wrap.name(), "MappingOptionMutator");
}

#[test]
fn diff_records_carry_their_kind() {
    let out = StdOutDiffMetadata::new("a".into(), "b".into(), "uutils".into(), "gnu".into());
    assert_eq!(out.name(), "stdout-diff");
    assert_eq!((out.o1().name().as_str(), out.o1().value().as_str()), ("uutils", "a"));
    assert_eq!((out.o2().name().as_str(), out.o2().value().as_str()), ("gnu", "b"));
    let err = StdErrDiffMetadata::new("a".into(), "b".into(), "uutils".into(), "gnu".into());
    assert_eq!(err.name(), "stderr-diff");
    assert_eq!((err.o1().name().as_str(), err.o1().value().as_str()), ("uutils", "a"));
    assert_eq!((err.o2().name().as_str(), err.o2().value().as_str()), ("gnu", "b"));
    let bin = StdErrBinaryDiffMetadata::new("a".into(), "b".into(), "uutils".into(), "gnu".into());
    assert_eq!(bin.name(), "stderr-binary-diff");
    assert_eq!((bin.o1().name().as_str(), bin.o1().value().as_str()), ("uutils", "a"));
    assert_eq!((bin.o2().name().as_str(), bin.o2().value().as_str()), ("gnu", "b"));
    let input = InputMetadata::new("the input".into());
    assert_eq!(input.name(), "input-metadata");
    assert_eq!(input.input(), "the input");
    let named = NamedString::new("n".into(), "v".into());
    assert_eq!((named.name().as_str(), named.value().as_str()), ("n", "v"));
}

#[test]
fn observed_output_is_rendered_as_text() {
    assert_eq!(vec_string_mapper(&None), "Did not observe anything");
    assert_eq!(vec_string_mapper(&Some(b"hello\n".to_vec())), "hello\n");
    assert_eq!(vec_string_mapper(&Some(Vec::new())), "");
    assert_eq!(vec_string_mapper(&Some("gr\u{fc}n".as_bytes().to_vec())), "gr\u{fc}n");
    assert_eq!(vec_string_mapper(&Some(vec![0xff, 0xfe])), "utf8 error, bytes: [255,254]");
    assert_eq!(vec_string_mapper(&Some(vec![b'a', 0x80])), "utf8 error, bytes: [97,128]");
    assert_eq!(render_invalid_utf8(Some("[1]".into())), "utf8 error, bytes: [1]");
    assert_eq!(render_invalid_utf8(None), "Serialization error");
}

#[test]
fn stderr_counts_only_when_it_has_bytes() {
    assert!(!has_stderr(&None));
    assert!(!has_stderr(&Some(Vec::new())));
    assert!(has_stderr(&Some(vec![b'x'])));
}

#[test]
fn print_feedback_renders_but_never_finds_interest() {
    let path = String::from("/tmp/log.txt");
    let observer = vec![1u8, 2, 3];
    let mut feedback =
        PseudoPrintFeedback::new(&path, &observer, |o: &Vec<u8>| format!("saw {} bytes\n", o.len()));
    assert_eq!(feedback.log_file(), "/tmp/log.txt");
    assert_eq!(feedback.name(), "PseudoPrintFeedback");
    assert_eq!(feedback.is_interesting(), ("saw 3 bytes\n".to_string(), false));
    assert_eq!(feedback.is_interesting(), ("saw 3 bytes\n".to_string(), false));
}

#[test]
fn input_logger_records_the_last_input() {
    let mut feedback = InputLoggerFeedback::new("input-logger", |input: &Vec<u8>| {
        InputMetadata::new(vec_string_mapper(&Some(input.clone())))
    });
    assert_eq!(feedback.name(), "input-logger");
    assert_eq!(feedback.append_metadata().err(), Some(Error::IllegalState));
    assert_eq!(feedback.is_interesting(b"first".to_vec()), Ok(false));
    assert_eq!(feedback.is_interesting(b"second".to_vec()), Ok(false));
    let record = feedback.append_metadata().unwrap();
    assert_eq!(record.input(), "second");
    assert_eq!(feedback.append_metadata().unwrap().input(), "second");
}
