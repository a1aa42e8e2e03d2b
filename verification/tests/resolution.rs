use rust_win32error::trim::trimmed_len;
use rust_win32error::{init_from_error_code, message_buffer, Win32Error};

const UNKNOWN_ERROR_TEXT: &'static str = "Unknown error";

/// A message buffer that holds `text` the way the system leaves it: the text,
/// then zeros.
fn buffer_with(text: &str) -> (Vec<u16>, u32) {
    let mut buffer: Vec<u16> = message_buffer();
    let mut count: u32 = 0;
    for unit in text.encode_utf16() {
        buffer[count as usize] = unit;
        count += 1;
    }
    (buffer, count)
}

#[test]
#[allow(unused_variables)]
fn win32error_from_test_unknown_error_code() {
    let errno: u32 = 99999;
    let buffer: Vec<u16> = message_buffer();
    let err = Win32Error::from_code(errno, &buffer, 0);
    assert_eq!(err.get_error_code(), errno);
}

#[test]
#[allow(unused_variables)]
fn win32error_from_test_unknown_error_description() {
    let errno: u32 = 99999;
    let buffer: Vec<u16> = message_buffer();
    let err = Win32Error::from_code(errno, &buffer, 0);
    assert_eq!(err.description(), UNKNOWN_ERROR_TEXT);
}

#[test]
fn unknown_code_of_any_value_reads_unknown_error() {
    let buffer: Vec<u16> = message_buffer();
    for errno in [0u32, 1, 5, 99999, 0x8000_0000, u32::MAX] {
        let err = init_from_error_code(errno, &buffer, 0);
        assert_eq!(err.get_error_code(), errno);
        assert_eq!(err.description(), "Unknown error");
    }
}

#[test]
fn unknown_code_ignores_what_the_buffer_holds() {
    let (buffer, _) = buffer_with("Access is denied.\r\n");
    let err = init_from_error_code(5, &buffer, 0);
    assert_eq!(err.description(), "Unknown error");
    assert_eq!(err.to_display_string(), "5: Unknown error");
}

#[test]
fn system_message_loses_line_end_and_full_stop() {
    let (buffer, count) = buffer_with("Access is denied.\r\n");
    assert_eq!(count, 19);
    let err = init_from_error_code(5, &buffer, count);
    assert_eq!(err.get_error_code(), 5);
    assert_eq!(err.description(), "Access is denied");
    assert_eq!(err.to_display_string(), "5: Access is denied");
}

#[test]
fn message_without_line_end_loses_its_last_unit() {
    let (buffer, count) = buffer_with("Access denied.");
    let err = init_from_error_code(5, &buffer, count);
    assert_eq!(err.description(), "Access denied");
    assert_eq!(err.to_display_string(), "5: Access denied");
}

#[test]
fn message_of_control_characters_only_is_empty() {
    let (buffer, count) = buffer_with("\r\n\t\r\n");
    let err = init_from_error_code(7, &buffer, count);
    assert_eq!(err.description(), "");
    assert_eq!(err.to_display_string(), "7: ");
}

#[test]
fn message_of_one_unit_is_empty() {
    let (buffer, count) = buffer_with("x");
    let err = init_from_error_code(7, &buffer, count);
    assert_eq!(err.description(), "");
    let (buffer, count) = buffer_with("\n");
    let err = init_from_error_code(7, &buffer, count);
    assert_eq!(err.description(), "");
}

#[test]
fn space_is_no_control_character() {
    let (buffer, count) = buffer_with("done \r\n");
    let err = init_from_error_code(1, &buffer, count);
    assert_eq!(err.description(), "done");
    let (buffer, count) = buffer_with("done. \r\n");
    let err = init_from_error_code(1, &buffer, count);
    assert_eq!(err.description(), "done.");
}

#[test]
fn control_character_inside_the_message_stays() {
    let (buffer, count) = buffer_with("a\nb\n");
    let err = init_from_error_code(1, &buffer, count);
    assert_eq!(err.description(), "a\n");
    let (buffer, count) = buffer_with("one\r\ntwo.\r\n");
    let err = init_from_error_code(1, &buffer, count);
    assert_eq!(err.description(), "one\r\ntwo");
}

#[test]
fn message_that_fills_the_buffer_is_read_within_bounds() {
    let mut buffer: Vec<u16> = message_buffer();
    assert_eq!(buffer.len(), 256);
    for unit in buffer.iter_mut() {
        *unit = 0x61;
    }
    let err = init_from_error_code(3, &buffer, 256);
    assert_eq!(err.description(), "a".repeat(255));
    buffer[254] = 0x0D;
    buffer[255] = 0x0A;
    let err = init_from_error_code(3, &buffer, 256);
    assert_eq!(err.description(), "a".repeat(253));
}

#[test]
fn buffer_of_any_length_is_accepted() {
    let units: Vec<u16> = vec![0x4F, 0x4B, 0x2E];
    let err = init_from_error_code(0, &units, 3);
    assert_eq!(err.description(), "OK");
    let none: Vec<u16> = Vec::new();
    let err = init_from_error_code(0, &none, 0);
    assert_eq!(err.description(), "Unknown error");
}

#[test]
fn text_beyond_ascii_is_decoded() {
    let (buffer, count) = buffer_with("Zugriff verweigert \u{1F512} gr\u{FC}\u{DF}e.\r\n");
    let err = init_from_error_code(5, &buffer, count);
    assert_eq!(err.description(), "Zugriff verweigert \u{1F512} gr\u{FC}\u{DF}e");
    assert_eq!(err.description().chars().count(), 26);
}

#[test]
fn malformed_text_gives_no_description() {
    let units: Vec<u16> = vec![0x41, 0xD800, 0x42, 0x2E, 0x0D, 0x0A];
    let err = init_from_error_code(12, &units, 6);
    assert_eq!(err.get_error_code(), 12);
    assert_eq!(err.description(), "Unknown error");
    assert_eq!(err, Win32Error::with_description(12, None));
}

#[test]
fn surrogate_pair_cut_in_two_gives_no_description() {
    let units: Vec<u16> = vec![0x41, 0xD83D, 0xDD12, 0x0A];
    let err = init_from_error_code(12, &units, 4);
    assert_eq!(err.description(), "Unknown error");
    let units: Vec<u16> = vec![0x41, 0xD83D, 0xDD12, 0x2E, 0x0A];
    let err = init_from_error_code(12, &units, 5);
    assert_eq!(err.description(), "A\u{1F512}");
}

#[test]
fn description_is_what_the_standard_decoder_gives() {
    let samples: Vec<Vec<u16>> = vec![
        vec![],
        vec![0x41],
        vec![0x41, 0x42, 0x43, 0x0D, 0x0A],
        vec![0xDC00, 0x41, 0x0A],
        vec![0x41, 0xDBFF, 0xDFFF, 0x42, 0x0A],
        vec![0xFFFF, 0xFFFE, 0x20, 0x1F, 0x20, 0x0A],
        vec![0x0A, 0x0A, 0x0A],
    ];
    for units in samples {
        let count: usize = units.len();
        let kept: usize = trimmed_len(&units, count);
        let err = init_from_error_code(1, &units, count as u32);
        let expected = if count == 0 {
            Win32Error::with_description(1, None)
        } else {
            Win32Error::with_description(1, String::from_utf16(&units[..kept]).ok())
        };
        assert_eq!(err, expected);
    }
}

#[test]
fn trimmed_len_finds_the_last_printable_unit() {
    let units: Vec<u16> = vec![0x41, 0x2E, 0x0D, 0x0A, 0x00];
    assert_eq!(trimmed_len(&units, 0), 0);
    assert_eq!(trimmed_len(&units, 1), 0);
    assert_eq!(trimmed_len(&units, 2), 1);
    assert_eq!(trimmed_len(&units, 3), 1);
    assert_eq!(trimmed_len(&units, 4), 1);
    assert_eq!(trimmed_len(&units, 5), 1);
    let units: Vec<u16> = vec![0x0A, 0x1F, 0x20, 0x1F];
    assert_eq!(trimmed_len(&units, 4), 2);
    assert_eq!(trimmed_len(&units, 3), 2);
    assert_eq!(trimmed_len(&units, 2), 0);
}

#[test]
fn trimmed_len_never_reads_past_the_count() {
    let units: Vec<u16> = vec![0x0A, 0x0A, 0x41, 0x41];
    assert_eq!(trimmed_len(&units, 2), 0);
    let units: Vec<u16> = vec![0x41, 0x41];
    assert_eq!(trimmed_len(&units, 2), 1);
}
