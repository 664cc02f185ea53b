use java_access_bridge::utils::{
    encode_utf16, message_loop_step, str_equals, str_starts_with, to_string_utf16, zeroed_indices,
    zeroed_units, MessageLoopStep, WM_QUIT,
};

fn units(text: &str) -> Vec<u16> {
    text.encode_utf16().collect()
}

#[test]
fn terminated_buffer_reads_up_to_the_terminator() {
    let mut buffer = units("push button");
    buffer.push(0);
    buffer.extend(units("garbage"));
    buffer.push(0);
    assert_eq!(to_string_utf16(&buffer), "push button");
}

#[test]
fn buffer_without_terminator_reads_empty() {
    assert_eq!(to_string_utf16(&units("no terminator")), "");
    assert_eq!(to_string_utf16(&[]), "");
}

#[test]
fn leading_terminator_reads_empty() {
    assert_eq!(to_string_utf16(&[0, 65, 66, 0]), "");
}

#[test]
fn surrogate_pairs_decode_to_one_character() {
    let mut buffer = units("a\u{1F600}b");
    assert_eq!(buffer.len(), 4);
    buffer.push(0);
    assert_eq!(to_string_utf16(&buffer), "a\u{1F600}b");
}

#[test]
fn unpaired_surrogates_become_replacement_characters() {
    assert_eq!(to_string_utf16(&[0x41, 0xD800, 0x42, 0]), "A\u{FFFD}B");
    assert_eq!(to_string_utf16(&[0xDC00, 0x43, 0]), "\u{FFFD}C");
    assert_eq!(to_string_utf16(&[0x44, 0xD83D, 0]), "D\u{FFFD}");
}


#[test]
fn text_equality() {
    assert!(str_equals("table", "table"));
    assert!(!str_equals("table", "tables"));
    assert!(!str_equals("table", "Table"));
    assert!(str_equals("", ""));
}

#[test]
fn text_prefix() {
    assert!(str_starts_with("jre1.8.0_401", "jre"));
    assert!(str_starts_with("jdk", "jdk"));
    assert!(!str_starts_with("jd", "jdk"));
    assert!(!str_starts_with("openjdk", "jdk"));
    assert!(str_starts_with("anything", ""));
}

#[test]
fn message_loop_stops_on_quit_or_failure() {
    assert_eq!(message_loop_step(true, 0x0100), MessageLoopStep::Deliver);
    assert_eq!(message_loop_step(true, WM_QUIT), MessageLoopStep::Stop);
    assert_eq!(message_loop_step(false, 0x0100), MessageLoopStep::Stop);
    assert_eq!(WM_QUIT, 0x12);
}

#[test]
fn zeroed_buffers() {
    assert_eq!(zeroed_units(3), vec![0u16, 0, 0]);
    assert_eq!(zeroed_units(0), Vec::<u16>::new());
    assert_eq!(zeroed_units(-5), Vec::<u16>::new());
    assert_eq!(zeroed_indices(2), vec![0i32, 0]);
    assert_eq!(zeroed_indices(-1), Vec::<i32>::new());
}

#[test]
fn encoding_gives_utf16_units() {
    assert_eq!(encode_utf16("AB"), vec![0x41u16, 0x42]);
    assert_eq!(encode_utf16(""), Vec::<u16>::new());
    assert_eq!(encode_utf16("\u{e9}"), vec![0xE9u16]);
    assert_eq!(encode_utf16("a\u{1F600}"), vec![0x61u16, 0xD83D, 0xDE00]);
    assert_eq!(encode_utf16("\u{10FFFF}"), vec![0xDBFFu16, 0xDFFF]);
}

#[test]
fn encoding_then_reading_back_gives_the_text() {
    let text = "caret \u{1F600} moved";
    let mut buffer = encode_utf16(text);
    buffer.push(0);
    assert_eq!(to_string_utf16(&buffer), text);
}
