use rsh::escape::CharScanner;
use rsh::escape::Escape;
use rsh::escape::NullScanner;
use rsh::escape::Scanner;
use rsh::escape::SessionScanner;
use rsh::escape::scanner;

fn buf(bytes: &[u8]) -> [u8; 4096] {
    let mut b = [0u8; 4096];
    b[..bytes.len()].copy_from_slice(bytes);
    b
}

#[test]
fn plain_data_consumes_whole_buffer() {
    let mut s = CharScanner::new('~');
    let b = buf(b"hello world\r\nmore data");
    let e = s.next_escape(&b, 22);
    assert!(matches!(e, Escape::NoEscape));
    assert_eq!(s.pos(), 22);
}

#[test]
fn newline_escape_dot_terminates() {
    let mut s = CharScanner::new('~');
    let b = buf(b"a\r~.");
    let e = s.next_escape(&b, 4);
    assert!(matches!(e, Escape::Itself));
    assert_eq!(s.pos(), 3);
    let e = s.next_escape(&b, 4);
    assert!(matches!(e, Escape::Terminate));
    assert_eq!(s.pos(), 4);
}

#[test]
fn escape_first_in_session_is_recognised() {
    let mut s = CharScanner::new('~');
    let b = buf(b"~.");
    let e = s.next_escape(&b, 2);
    assert!(matches!(e, Escape::Itself));
    let e = s.next_escape(&b, 2);
    assert!(matches!(e, Escape::Terminate));
}

#[test]
fn bare_dot_is_not_terminate() {
    let mut s = CharScanner::new('~');
    let b = buf(b"ab.cd");
    let e = s.next_escape(&b, 5);
    assert!(matches!(e, Escape::NoEscape));
    assert_eq!(s.pos(), 5);
}

#[test]
fn escape_mid_line_is_ordinary_data() {
    let mut s = CharScanner::new('~');
    let b = buf(b"a~b");
    let e = s.next_escape(&b, 3);
    assert!(matches!(e, Escape::NoEscape));
    assert_eq!(s.pos(), 3);
}

#[test]
fn escape_inside_ansi_sequence_is_skipped() {
    // After the newline the scanner is armed, but the control sequence
    // ESC [ 3 ~ hides the escape character standing as its final byte.
    let mut s = CharScanner::new('~');
    let b = buf(&[97, 13, 27, 91, 51, 126]);
    let e = s.next_escape(&b, 6);
    assert!(matches!(e, Escape::NoEscape));
    assert_eq!(s.pos(), 6);
}

#[test]
fn escape_right_after_ansi_sequence_still_counts() {
    // The ANSI layer leaves the escape layer armed: ESC [ 3 1 m then ~ .
    let mut s = CharScanner::new('~');
    let b = buf(&[97, 13, 27, 91, 51, 49, 109, 126, 46]);
    let e = s.next_escape(&b, 9);
    assert!(matches!(e, Escape::Itself));
    assert_eq!(s.pos(), 8);
    let e = s.next_escape(&b, 9);
    assert!(matches!(e, Escape::Terminate));
    assert_eq!(s.pos(), 9);
}

#[test]
fn command_characters_map_to_their_events() {
    let cases: [(u8, fn(&Escape) -> bool); 5] = [
        (b'V', |e| matches!(e, Escape::DecreaseVerbosity)),
        (b'?', |e| matches!(e, Escape::Help)),
        (b'v', |e| matches!(e, Escape::IncreaseVerbosity)),
        (26, |e| matches!(e, Escape::Suspend)),
        (b'.', |e| matches!(e, Escape::Terminate)),
    ];
    for (cmd, check) in cases.iter() {
        let mut s = CharScanner::new('~');
        let b = buf(&[97, 13, 126, *cmd]);
        let e = s.next_escape(&b, 4);
        assert!(matches!(e, Escape::Itself));
        let e = s.next_escape(&b, 4);
        assert!(check(&e));
        assert_eq!(s.pos(), 4);
    }
}

#[test]
fn doubled_escape_is_literal() {
    let mut s = CharScanner::new('~');
    let b = buf(b"a\r~~");
    let e = s.next_escape(&b, 4);
    assert!(matches!(e, Escape::Itself));
    let e = s.next_escape(&b, 4);
    assert!(matches!(e, Escape::Literal));
    assert_eq!(s.pos(), 4);
}

#[test]
fn unknown_command_is_invalid() {
    let mut s = CharScanner::new('~');
    let b = buf(b"a\r~x");
    let e = s.next_escape(&b, 4);
    assert!(matches!(e, Escape::Itself));
    let e = s.next_escape(&b, 4);
    assert!(matches!(e, Escape::Invalid));
}

#[test]
fn reset_keeps_state_across_reads() {
    let mut s = CharScanner::new('~');
    let b = buf(b"a\r");
    let e = s.next_escape(&b, 2);
    assert!(matches!(e, Escape::NoEscape));
    s.reset();
    assert_eq!(s.pos(), 0);
    // The newline from the previous read keeps the scanner armed.
    let b2 = buf(b"~.");
    let e = s.next_escape(&b2, 2);
    assert!(matches!(e, Escape::Itself));
}

#[test]
fn null_scanner_reports_buffer_end() {
    let mut s = NullScanner::new();
    let b = buf(b"anything ~. at all");
    let e = s.next_escape(&b, 18);
    assert!(matches!(e, Escape::NoEscape));
    assert_eq!(s.pos(), 18);
    s.reset();
    assert_eq!(s.pos(), 0);
}

#[test]
fn scanner_selects_by_configuration() {
    let mut with = scanner(Some('~'));
    assert_eq!(with.char(), '~');
    let b = buf(b"a\r~.");
    let e = with.next_escape(&b, 4);
    assert!(matches!(e, Escape::Itself));

    let mut without: SessionScanner = scanner(None);
    let e = without.next_escape(&b, 4);
    assert!(matches!(e, Escape::NoEscape));
    assert_eq!(without.pos(), 4);
}
