use winwatch::errors::DecodeError;
use winwatch::types::FileAction;
use winwatch::utf16::{char_of_scalar, from_utf16};
use winwatch::watch::{
    as_u16_slice, as_u32le, decode, to_file_notify_information, to_filename,
    FileNotifyInformation,
};

fn put_u32(out: &mut Vec<u8>, x: u32) {
    out.extend_from_slice(&x.to_le_bytes());
}

fn name_bytes(name: &str) -> Vec<u8> {
    let mut out = Vec::new();
    for unit in name.encode_utf16() {
        out.extend_from_slice(&unit.to_le_bytes());
    }
    out
}

fn record_bytes(next: u32, action: u32, name: &[u8]) -> Vec<u8> {
    let mut out = Vec::new();
    put_u32(&mut out, next);
    put_u32(&mut out, action);
    put_u32(&mut out, name.len() as u32);
    out.extend_from_slice(name);
    out
}

fn chain_bytes(records: &[(u32, &str)]) -> Vec<u8> {
    let mut out = Vec::new();
    for (i, (action, name)) in records.iter().enumerate() {
        let name = name_bytes(name);
        let next = if i + 1 == records.len() {
            0
        } else {
            12 + name.len() as u32
        };
        out.extend_from_slice(&record_bytes(next, *action, &name));
    }
    out
}

fn info(action: FileAction, name: &str) -> FileNotifyInformation {
    FileNotifyInformation::new(action, name.to_string())
}

#[test]
fn empty_region_holds_no_record() {
    assert_eq!(decode(&[], 0), Ok(vec![]));
    assert_eq!(decode(&[], 100), Ok(vec![]));
    let stale = chain_bytes(&[(1, "old.txt")]);
    assert_eq!(decode(&stale, 0), Ok(vec![]));
    let garbage = [0xFFu8; 64];
    assert_eq!(decode(&garbage, 0), Ok(vec![]));
}

#[test]
fn one_record() {
    let buffer = chain_bytes(&[(1, "a.txt")]);
    assert_eq!(buffer.len(), 22);
    assert_eq!(
        decode(&buffer, buffer.len()),
        Ok(vec![info(FileAction::FileAdded, "a.txt")])
    );
}

#[test]
fn one_record_written_out_byte_by_byte() {
    let buffer: [u8; 22] = [
        0, 0, 0, 0, 1, 0, 0, 0, 10, 0, 0, 0, b'a', 0, b'.', 0, b't', 0, b'x', 0, b't', 0,
    ];
    let records = decode(&buffer, 22).unwrap();
    assert_eq!(records.len(), 1);
    assert_eq!(records[0].action(), FileAction::FileAdded);
    assert_eq!(records[0].filename(), "a.txt");
}

#[test]
fn two_chained_records_in_file_order() {
    let buffer = chain_bytes(&[(4, "old name.txt"), (5, "new name.txt")]);
    assert_eq!(
        decode(&buffer, buffer.len()),
        Ok(vec![
            info(FileAction::FileRenamedOldName, "old name.txt"),
            info(FileAction::FileRenamedNewName, "new name.txt"),
        ])
    );
}

#[test]
fn records_with_padding_between_them() {
    let first = name_bytes("a");
    let mut buffer = record_bytes(16, 2, &first);
    buffer.extend_from_slice(&[0xEE, 0xEE]);
    buffer.extend_from_slice(&record_bytes(0, 3, &name_bytes("bc")));
    assert_eq!(
        decode(&buffer, buffer.len()),
        Ok(vec![
            info(FileAction::FileRemoved, "a"),
            info(FileAction::FileModified, "bc"),
        ])
    );
}

#[test]
fn round_trip_of_a_record_list() {
    let records = [
        (1u32, "added.txt"),
        (2, "removed"),
        (3, "sub\\dir\\modified.log"),
        (4, "fr\u{00FC}her.txt"),
        (5, "\u{1F600} sp\u{00E4}ter \u{10FFFF}.txt"),
        (3, ""),
    ];
    let buffer = chain_bytes(&records);
    let decoded = decode(&buffer, buffer.len()).unwrap();
    assert_eq!(decoded.len(), records.len());
    for (got, (action, name)) in decoded.iter().zip(records.iter()) {
        assert_eq!(got.action().code(), *action);
        assert_eq!(got.filename(), *name);
    }
}

#[test]
fn bytes_past_the_valid_length_are_not_read() {
    let mut buffer = chain_bytes(&[(1, "a.txt")]);
    let valid = buffer.len();
    buffer.extend_from_slice(&[0xFF; 40]);
    assert_eq!(
        decode(&buffer, valid),
        Ok(vec![info(FileAction::FileAdded, "a.txt")])
    );
}

#[test]
fn valid_length_beyond_the_buffer_counts_as_the_buffer() {
    let buffer = chain_bytes(&[(1, "a.txt")]);
    assert_eq!(
        decode(&buffer, buffer.len() + 1000),
        Ok(vec![info(FileAction::FileAdded, "a.txt")])
    );
    assert_eq!(decode(&buffer, usize::MAX).map(|v| v.len()), Ok(1));
}

#[test]
fn name_past_the_valid_length_is_refused() {
    let buffer = chain_bytes(&[(1, "a.txt")]);
    for valid in 12..buffer.len() {
        assert_eq!(decode(&buffer, valid), Err(DecodeError::TruncatedRecord));
    }
}

#[test]
fn name_of_last_record_past_the_valid_length_is_refused() {
    let buffer = chain_bytes(&[(1, "first"), (2, "second")]);
    assert_eq!(
        decode(&buffer, buffer.len() - 1),
        Err(DecodeError::TruncatedRecord)
    );
    assert_eq!(
        decode(&buffer, buffer.len() - 2),
        Err(DecodeError::TruncatedRecord)
    );
    assert_eq!(decode(&buffer, buffer.len()).map(|v| v.len()), Ok(2));
}

#[test]
fn header_past_the_valid_length_is_refused() {
    let buffer = chain_bytes(&[(1, "a.txt")]);
    for valid in 1..12 {
        assert_eq!(decode(&buffer, valid), Err(DecodeError::TruncatedRecord));
    }
}

#[test]
fn next_record_past_the_valid_length_is_refused() {
    let buffer = record_bytes(100, 1, &name_bytes("a"));
    assert_eq!(
        decode(&buffer, buffer.len()),
        Err(DecodeError::TruncatedRecord)
    );
    let far = record_bytes(u32::MAX, 1, &name_bytes("a"));
    assert_eq!(decode(&far, far.len()), Err(DecodeError::TruncatedRecord));
    let mut short = record_bytes(14, 1, &name_bytes("a"));
    short.extend_from_slice(&[0u8; 11]);
    assert_eq!(
        decode(&short, short.len()),
        Err(DecodeError::TruncatedRecord)
    );
}

#[test]
fn huge_name_length_is_refused() {
    let mut buffer = Vec::new();
    put_u32(&mut buffer, 0);
    put_u32(&mut buffer, 1);
    put_u32(&mut buffer, u32::MAX);
    buffer.extend_from_slice(&[0u8; 8]);
    assert_eq!(
        decode(&buffer, buffer.len()),
        Err(DecodeError::TruncatedRecord)
    );
}

#[test]
fn unknown_action_code_is_refused() {
    for code in [0u32, 6, 0x100, u32::MAX] {
        let buffer = record_bytes(0, code, &name_bytes("a.txt"));
        assert_eq!(
            decode(&buffer, buffer.len()),
            Err(DecodeError::UnknownActionCode)
        );
    }
}

#[test]
fn unknown_action_code_comes_before_a_truncated_name() {
    let buffer = record_bytes(0, 9, &name_bytes("a.txt"));
    assert_eq!(decode(&buffer, 14), Err(DecodeError::UnknownActionCode));
}

#[test]
fn ill_formed_name_is_refused() {
    let lone_high = record_bytes(0, 1, &[0x00, 0xD8]);
    assert_eq!(
        decode(&lone_high, lone_high.len()),
        Err(DecodeError::InvalidEncoding)
    );
    let lone_low = record_bytes(0, 1, &[b'a', 0, 0x00, 0xDC, b'b', 0]);
    assert_eq!(
        decode(&lone_low, lone_low.len()),
        Err(DecodeError::InvalidEncoding)
    );
    let swapped = record_bytes(0, 1, &[0x00, 0xDC, 0x00, 0xD8]);
    assert_eq!(
        decode(&swapped, swapped.len()),
        Err(DecodeError::InvalidEncoding)
    );
}

#[test]
fn failure_in_a_later_record_fails_the_whole_call() {
    let mut buffer = record_bytes(14, 1, &name_bytes("a"));
    buffer.extend_from_slice(&record_bytes(0, 77, &name_bytes("b")));
    assert_eq!(
        decode(&buffer, buffer.len()),
        Err(DecodeError::UnknownActionCode)
    );
    let mut second = record_bytes(14, 1, &name_bytes("a"));
    second.extend_from_slice(&record_bytes(0, 2, &[0x00, 0xD8]));
    assert_eq!(
        decode(&second, second.len()),
        Err(DecodeError::InvalidEncoding)
    );
}

#[test]
fn the_first_failure_in_chain_order_decides() {
    let mut buffer = record_bytes(14, 1, &[0x00, 0xDC]);
    buffer.extend_from_slice(&record_bytes(0, 77, &name_bytes("b")));
    assert_eq!(
        decode(&buffer, buffer.len()),
        Err(DecodeError::InvalidEncoding)
    );
}

#[test]
fn odd_name_length_leaves_the_last_byte_out() {
    let buffer = record_bytes(0, 3, &[b'a', 0, b'b', 0, b'c']);
    assert_eq!(
        decode(&buffer, buffer.len()),
        Ok(vec![info(FileAction::FileModified, "ab")])
    );
}

#[test]
fn u32_from_four_bytes() {
    let v = [0x78u8, 0x56, 0x34, 0x12, 0xFF, 0xFF, 0xFF, 0xFF, 0x01];
    assert_eq!(as_u32le(&v, 0), 0x1234_5678);
    assert_eq!(as_u32le(&v, 1), 0xFF12_3456);
    assert_eq!(as_u32le(&v, 4), 0xFFFF_FFFF);
    assert_eq!(as_u32le(&v, 5), 0x01FF_FFFF);
}

#[test]
fn units_from_bytes() {
    assert_eq!(as_u16_slice(&[]), Vec::<u16>::new());
    assert_eq!(as_u16_slice(&[0x34]), Vec::<u16>::new());
    assert_eq!(as_u16_slice(&[0x34, 0x12]), vec![0x1234u16]);
    assert_eq!(
        as_u16_slice(&[0x34, 0x12, 0xFF, 0x00, 0x00, 0xFF, 0x07]),
        vec![0x1234u16, 0x00FF, 0xFF00]
    );
}

#[test]
fn filename_from_bytes() {
    let mut v = vec![9u8, 9, 9];
    v.extend_from_slice(&name_bytes("a.txt"));
    assert_eq!(to_filename(&v, 3, 10), Ok("a.txt".to_string()));
    assert_eq!(to_filename(&v, 3, 4), Ok("a.".to_string()));
    assert_eq!(to_filename(&v, 13, 0), Ok(String::new()));
    assert_eq!(to_filename(&v, 3, 11), Err(DecodeError::TruncatedRecord));
    assert_eq!(to_filename(&v, 14, 0), Err(DecodeError::TruncatedRecord));
    assert_eq!(
        to_filename(&v, 3, usize::MAX),
        Err(DecodeError::TruncatedRecord)
    );
}

#[test]
fn single_record_at_an_offset() {
    let mut v = vec![0xAAu8; 5];
    v.extend_from_slice(&record_bytes(0, 2, &name_bytes("gone")));
    assert_eq!(
        to_file_notify_information(&v, 5),
        Ok(info(FileAction::FileRemoved, "gone"))
    );
    assert_eq!(
        to_file_notify_information(&v, v.len() - 11),
        Err(DecodeError::TruncatedRecord)
    );
    assert_eq!(
        to_file_notify_information(&v, v.len() + 1),
        Err(DecodeError::TruncatedRecord)
    );
    assert_eq!(
        to_file_notify_information(&v, usize::MAX),
        Err(DecodeError::TruncatedRecord)
    );
}

#[test]
fn record_as_a_line_of_text() {
    assert_eq!(
        info(FileAction::FileModified, "notes.txt").to_string(),
        "FileModified -> notes.txt"
    );
    assert_eq!(info(FileAction::FileAdded, "").to_string(), "FileAdded -> ");
}

#[test]
fn utf16_of_plain_text() {
    let units: Vec<u16> = "a.txt".encode_utf16().collect();
    assert_eq!(from_utf16(&units), Some("a.txt".to_string()));
    assert_eq!(from_utf16(&[]), Some(String::new()));
}

#[test]
fn utf16_surrogate_pairs() {
    assert_eq!(
        from_utf16(&[0xD83D, 0xDE00]),
        Some("\u{1F600}".to_string())
    );
    assert_eq!(
        from_utf16(&[0xD800, 0xDC00]),
        Some("\u{10000}".to_string())
    );
    assert_eq!(
        from_utf16(&[0xDBFF, 0xDFFF]),
        Some("\u{10FFFF}".to_string())
    );
    assert_eq!(
        from_utf16(&[0xD7FF, 0xE000, 0xFFFF]),
        Some("\u{D7FF}\u{E000}\u{FFFF}".to_string())
    );
}

#[test]
fn utf16_ill_formed() {
    assert_eq!(from_utf16(&[0xD800]), None);
    assert_eq!(from_utf16(&[0xDC00]), None);
    assert_eq!(from_utf16(&[0xD800, 0x0041]), None);
    assert_eq!(from_utf16(&[0xD800, 0xD800, 0xDC00]), None);
    assert_eq!(from_utf16(&[0x0041, 0xDFFF]), None);
    assert_eq!(from_utf16(&[0xDBFF]), None);
}

#[test]
fn utf16_agrees_with_the_standard_library() {
    let interesting = [
        0x0000u16, 0x0041, 0x00FC, 0xD7FF, 0xD800, 0xDBFF, 0xDC00, 0xDFFF, 0xE000, 0xFFFF,
    ];
    for a in interesting {
        for b in interesting {
            for c in interesting {
                let units = [a, b, c];
                assert_eq!(from_utf16(&units), String::from_utf16(&units).ok());
            }
        }
    }
}

#[test]
fn scalar_values_become_their_characters() {
    assert_eq!(char_of_scalar(0x41), 'A');
    assert_eq!(char_of_scalar(0), '\u{0}');
    assert_eq!(char_of_scalar(0xD7FF), '\u{D7FF}');
    assert_eq!(char_of_scalar(0xE000), '\u{E000}');
    assert_eq!(char_of_scalar(0x10FFFF), '\u{10FFFF}');
}
