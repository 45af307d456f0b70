use forksrv::error::Error;
use forksrv::wire::{
    accept_read, accept_write, advance_blob, decode_error, decode_word, encode_error, encode_word,
    fs_opt_set_error, ByteOrder, FORKSRV_FD, FS_ERROR_SHM_OPEN, FS_NEW_OPT_AUTODTCT,
    FS_NEW_OPT_MAPSIZE, FS_NEW_OPT_SHDMEM_FUZZ, FS_OPT_ERROR, VERSION, WORD_LEN,
};

fn native() -> ByteOrder {
    if 1u16.to_ne_bytes()[0] == 1 {
        ByteOrder::LittleEndian
    } else {
        ByteOrder::BigEndian
    }
}

#[test]
fn constants_have_the_protocol_values() {
    assert_eq!(FORKSRV_FD, 198);
    assert_eq!(VERSION, 0x4146_4c01);
    assert_eq!(VERSION ^ 0xFFFF_FFFF, 0xbeb9_b3fe);
    assert_eq!(FS_NEW_OPT_MAPSIZE, 1);
    assert_eq!(FS_NEW_OPT_SHDMEM_FUZZ, 2);
    assert_eq!(FS_NEW_OPT_AUTODTCT, 0x800);
    assert_eq!(FS_OPT_ERROR, 0xf800_008f);
    assert_eq!(FS_ERROR_SHM_OPEN, 4);
    assert_eq!(WORD_LEN, 4);
}

#[test]
fn error_code_is_shifted_into_place() {
    assert_eq!(fs_opt_set_error(4), 0x400);
    assert_eq!(fs_opt_set_error(0xFFFF), 0x00FF_FF00);
    assert_eq!(fs_opt_set_error(0x1_0001), 0x100);
    assert_eq!(fs_opt_set_error(0), 0);
}

#[test]
fn encode_error_packs_code_and_marker() {
    assert_eq!(encode_error(4), Ok(0xf800_048f));
    assert_eq!(encode_error(1), Ok(0xf800_018f));
    assert_eq!(encode_error(0xFFFF), Ok(0xf8ff_ff8f));
}

#[test]
fn encode_error_round_trips_every_code() {
    for code in 1..=0xFFFFi32 {
        let word = encode_error(code).unwrap();
        assert_eq!(word & FS_OPT_ERROR, FS_OPT_ERROR);
        assert_eq!((word >> 8) & 0xFFFF, code as u32);
        assert_eq!(decode_error(word), Some(code as u32));
    }
}

#[test]
fn encode_error_rejects_codes_out_of_range() {
    assert_eq!(encode_error(0), Err(Error::IllegalArgument));
    assert_eq!(encode_error(0x1_0000), Err(Error::IllegalArgument));
    assert_eq!(encode_error(-1), Err(Error::IllegalArgument));
    assert_eq!(encode_error(i32::MAX), Err(Error::IllegalArgument));
    assert_eq!(encode_error(i32::MIN), Err(Error::IllegalArgument));
}

#[test]
fn decode_error_ignores_ordinary_words() {
    assert_eq!(decode_error(VERSION), None);
    assert_eq!(decode_error(0), None);
    assert_eq!(decode_error(FS_NEW_OPT_MAPSIZE | FS_NEW_OPT_AUTODTCT), None);
    assert_eq!(decode_error(FS_OPT_ERROR), Some(0));
}

#[test]
fn words_are_laid_out_in_the_requested_order() {
    assert_eq!(encode_word(ByteOrder::LittleEndian, 0x0102_0304), vec![4, 3, 2, 1]);
    assert_eq!(encode_word(ByteOrder::BigEndian, 0x0102_0304), vec![1, 2, 3, 4]);
    assert_eq!(encode_word(ByteOrder::LittleEndian, VERSION), vec![0x01, 0x4c, 0x46, 0x41]);
}

#[test]
fn native_order_matches_the_machine() {
    for word in [0u32, 1, 0x0102_0304, VERSION, 0x8000_0000, 0xFFFF_FFFF] {
        assert_eq!(encode_word(native(), word), word.to_ne_bytes().to_vec());
        assert_eq!(decode_word(native(), &word.to_ne_bytes()), Ok(word));
        assert_eq!(encode_word(ByteOrder::LittleEndian, word), word.to_le_bytes().to_vec());
        assert_eq!(encode_word(ByteOrder::BigEndian, word), word.to_be_bytes().to_vec());
    }
}

#[test]
fn word_round_trip_in_both_orders() {
    let words = [0u32, 1, 0xFF, 0x100, 0xDEAD_BEEF, 0x7FFF_FFFF, 0x8000_0000, 0xFFFF_FFFF];
    for order in [ByteOrder::LittleEndian, ByteOrder::BigEndian] {
        for word in words {
            let bytes = encode_word(order, word);
            assert_eq!(bytes.len(), 4);
            assert_eq!(decode_word(order, &bytes), Ok(word));
        }
    }
}

#[test]
fn short_and_long_reads_are_protocol_errors() {
    assert_eq!(decode_word(ByteOrder::LittleEndian, &[]), Err(Error::Protocol));
    assert_eq!(decode_word(ByteOrder::LittleEndian, &[1, 2, 3]), Err(Error::Protocol));
    assert_eq!(decode_word(ByteOrder::BigEndian, &[1, 2, 3, 4, 5]), Err(Error::Protocol));
    assert_eq!(accept_read(ByteOrder::LittleEndian, Ok(vec![1, 2])), Err(Error::Protocol));
}

#[test]
fn accept_read_decodes_or_reports() {
    assert_eq!(accept_read(ByteOrder::LittleEndian, Ok(vec![1, 0, 0, 0])), Ok(1));
    assert_eq!(accept_read(ByteOrder::BigEndian, Ok(vec![1, 0, 0, 0])), Ok(0x0100_0000));
    assert_eq!(accept_read(ByteOrder::BigEndian, Err(9)), Err(Error::System(9)));
}

#[test]
fn accept_write_wants_every_byte() {
    assert_eq!(accept_write(4, Ok(4)), Ok(()));
    assert_eq!(accept_write(4, Ok(3)), Err(Error::Protocol));
    assert_eq!(accept_write(4, Ok(0)), Err(Error::Protocol));
    assert_eq!(accept_write(4, Ok(5)), Err(Error::Protocol));
    assert_eq!(accept_write(4, Err(32)), Err(Error::System(32)));
}

#[test]
fn blob_progress_tolerates_partial_writes() {
    assert_eq!(advance_blob(10, 0, Ok(4)), Ok(4));
    assert_eq!(advance_blob(10, 4, Ok(6)), Ok(10));
    assert_eq!(advance_blob(10, 9, Ok(1)), Ok(10));
}

#[test]
fn blob_progress_rejects_stalls_and_overruns() {
    assert_eq!(advance_blob(10, 4, Ok(0)), Err(Error::Protocol));
    assert_eq!(advance_blob(10, 4, Ok(7)), Err(Error::Protocol));
    assert_eq!(advance_blob(10, 4, Err(11)), Err(Error::System(11)));
}
