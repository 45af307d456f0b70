use forksrv::decimal::{i16_to_decimal, parse_digits};
use forksrv::error::Error;
use forksrv::guard::OnceGuard;
use forksrv::shared_memory::{
    coverage_map_attached, input_segment_attached, map_input_shared_memory, map_shared_memory,
    parse_segment_id, Refusal, INPUT_HEADER_LEN, SHM_ENV_VAR, SHM_FUZZ_ENV_VAR,
};

const SHM_OPEN_WORD: u32 = 0xf800_048f;

fn reported(error: Error) -> Refusal {
    Refusal { notify: Some(SHM_OPEN_WORD), error }
}

#[test]
fn environment_variable_names() {
    assert_eq!(SHM_ENV_VAR, "__AFL_SHM_ID");
    assert_eq!(SHM_FUZZ_ENV_VAR, "__AFL_SHM_FUZZ_ID");
    assert_eq!(INPUT_HEADER_LEN, 4);
}

#[test]
fn once_guard_lets_one_entry_through() {
    let mut guard = OnceGuard::new();
    assert!(!guard.entered());
    assert_eq!(guard.enter(), Ok(()));
    assert!(guard.entered());
    assert_eq!(guard.enter(), Err(Error::AlreadyInitialized));
    assert_eq!(guard.enter(), Err(Error::AlreadyInitialized));
    assert!(!OnceGuard::default().entered());
}

#[test]
fn segment_ids_parse_like_signed_integers() {
    let cases: [&str; 22] = [
        "0", "7", "42", "007", "+5", "-5", "-0", "+0", "2147483647", "-2147483648", "2147483648",
        "-2147483649", "99999999999999999999", "", "+", "-", " 5", "5 ", "5a", "--5", "0x10",
        "000000000000000000000012",
    ];
    for text in cases {
        assert_eq!(parse_segment_id(text.as_bytes()), text.parse::<i32>().ok(), "{:?}", text);
    }
    assert_eq!(parse_segment_id(b"32769"), Some(32769));
    assert_eq!(parse_segment_id(b"-2147483648"), Some(i32::MIN));
    assert_eq!(parse_segment_id(b"12\xff"), None);
}

#[test]
fn digit_runs_are_read_up_to_two_to_the_31() {
    assert_eq!(parse_digits(b"x123", 1), Some(123));
    assert_eq!(parse_digits(b"2147483648", 0), Some(0x8000_0000));
    assert_eq!(parse_digits(b"2147483649", 0), None);
    assert_eq!(parse_digits(b"12", 2), None);
    assert_eq!(parse_digits(b"1-2", 0), None);
}

#[test]
fn sixteen_bit_numbers_print_like_the_standard_library() {
    for number in [0i16, 1, 9, 10, 76, 100, 12345, i16::MAX, -1, -10, -32767, i16::MIN] {
        assert_eq!(i16_to_decimal(number), number.to_string().into_bytes());
        assert_eq!(parse_segment_id(&i16_to_decimal(number)), Some(number as i32));
    }
}

#[test]
fn coverage_map_identifier_is_read_from_the_text() {
    let mut guard = OnceGuard::new();
    assert_eq!(map_shared_memory(&mut guard, Some("32769")), Ok(32769));
    assert!(guard.entered());
}

#[test]
fn coverage_mapper_runs_once() {
    let mut guard = OnceGuard::new();
    assert_eq!(map_shared_memory(&mut guard, Some("1")), Ok(1));
    assert_eq!(
        map_shared_memory(&mut guard, Some("1")),
        Err(Refusal { notify: None, error: Error::AlreadyInitialized })
    );
    // A failed first attempt uses up the one entry as well.
    let mut guard = OnceGuard::new();
    assert_eq!(map_shared_memory(&mut guard, None), Err(reported(Error::Configuration)));
    assert_eq!(
        map_shared_memory(&mut guard, Some("1")),
        Err(Refusal { notify: None, error: Error::AlreadyInitialized })
    );
}

#[test]
fn missing_or_malformed_identifier_is_a_configuration_error() {
    for text in [None, Some(""), Some("abc"), Some("12 "), Some("4294967296")] {
        let mut guard = OnceGuard::new();
        assert_eq!(map_shared_memory(&mut guard, text), Err(reported(Error::Configuration)));
        let mut guard = OnceGuard::new();
        assert_eq!(
            map_input_shared_memory(&mut guard, text),
            Err(reported(Error::Configuration))
        );
    }
}

#[test]
fn the_two_mappers_have_guards_of_their_own() {
    let mut coverage = OnceGuard::new();
    let mut input = OnceGuard::new();
    assert_eq!(map_shared_memory(&mut coverage, Some("3")), Ok(3));
    assert_eq!(map_input_shared_memory(&mut input, Some("-4")), Ok(-4));
    assert_eq!(
        map_input_shared_memory(&mut input, Some("4")),
        Err(Refusal { notify: None, error: Error::AlreadyInitialized })
    );
}

#[test]
fn failed_attach_is_a_system_error() {
    assert_eq!(coverage_map_attached(0, 22).err(), Some(reported(Error::System(22))));
    assert_eq!(coverage_map_attached(usize::MAX, 13).err(), Some(reported(Error::System(13))));
    assert_eq!(input_segment_attached(0, 22).err(), Some(reported(Error::System(22))));
    assert_eq!(input_segment_attached(usize::MAX, 22).err(), Some(reported(Error::System(22))));
    assert_eq!(
        input_segment_attached(usize::MAX - 2, 0).err(),
        Some(reported(Error::System(0)))
    );
}

#[test]
fn attached_coverage_map_keeps_its_address() {
    let map = coverage_map_attached(0x7f00_0000_1000, 0).unwrap();
    assert_eq!(map.address(), 0x7f00_0000_1000);
    let map = coverage_map_attached(1, 0).unwrap();
    assert_eq!(map.address(), 1);
}

#[test]
fn input_segment_splits_header_and_data() {
    let segment = input_segment_attached(0x1000, 0).unwrap();
    assert_eq!(segment.length_address(), 0x1000);
    assert_eq!(segment.data_address(), 0x1004);
    let last = input_segment_attached(usize::MAX - 4, 0).unwrap();
    assert_eq!(last.data_address(), usize::MAX);
}
