use rsyslog_ssh_geoip_pipeline::framing::line_text;

#[test]
fn line_loses_its_terminator() {
    assert_eq!(line_text("{\"ip\":\"1.2.3.4\"}\n"), "{\"ip\":\"1.2.3.4\"}");
    assert_eq!(line_text("abc\r\n"), "abc");
}

#[test]
fn line_loses_the_space_around_it() {
    assert_eq!(line_text("  \t abc def \t\n"), "abc def");
    assert_eq!(line_text("\u{b}\u{c}abc\u{85}"), "abc");
}

#[test]
fn line_loses_space_beyond_ascii() {
    assert_eq!(line_text("\u{a0}\u{1680}\u{2000}\u{200a}abc\u{2028}\u{2029}\u{202f}\u{205f}\u{3000}"), "abc");
}

#[test]
fn line_keeps_what_is_no_white_space() {
    assert_eq!(line_text("\u{200b}abc\u{200b}"), "\u{200b}abc\u{200b}");
    assert_eq!(line_text("\u{180e}abc"), "\u{180e}abc");
    assert_eq!(line_text("\u{8}abc\u{e}"), "\u{8}abc\u{e}");
}

#[test]
fn line_keeps_the_space_inside() {
    assert_eq!(line_text(" a  b "), "a  b");
}

#[test]
fn line_of_white_space_is_empty() {
    assert_eq!(line_text(""), "");
    assert_eq!(line_text("\n"), "");
    assert_eq!(line_text(" \t\r\n"), "");
}
