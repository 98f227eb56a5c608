use octomind_ui::ansi_to_html;

#[test]
fn red_span_round() {
    let out = ansi_to_html("\x1b[31mHello\x1b[0m");
    assert_eq!(out, "<span style=\"color: #ff0000\">Hello</span>");
}

#[test]
fn plain_text_unchanged() {
    let out = ansi_to_html("just a plain line of output");
    assert_eq!(out, "just a plain line of output");
}

#[test]
fn empty_text_unchanged() {
    assert_eq!(ansi_to_html(""), "");
}

#[test]
fn unrecognized_sequence_stripped() {
    let out = ansi_to_html("a\x1b[45mb");
    assert_eq!(out, "ab");
}

#[test]
fn long_unrecognized_sequence_stripped() {
    let out = ansi_to_html("x\x1b[38;5;196my");
    assert_eq!(out, "xy");
}

#[test]
fn truncated_sequence_dropped() {
    let out = ansi_to_html("abc\x1b[3");
    assert_eq!(out, "abc");
}

#[test]
fn lone_escape_kept() {
    let out = ansi_to_html("a\x1bb");
    assert_eq!(out, "a\x1bb");
}

#[test]
fn short_reset_recognized() {
    let out = ansi_to_html("\x1b[mdone");
    assert_eq!(out, "</span>done");
}

#[test]
fn bold_recognized() {
    let out = ansi_to_html("\x1b[1mstrong\x1b[0m");
    assert_eq!(out, "<span style=\"font-weight: bold\">strong</span>");
}

#[test]
fn bright_color_recognized() {
    let out = ansi_to_html("\x1b[92mok\x1b[0m");
    assert_eq!(out, "<span style=\"color: #80ff80\">ok</span>");
}

#[test]
fn all_base_colors_recognized() {
    let cases = [
        ("30", "#000000"),
        ("31", "#ff0000"),
        ("32", "#00ff00"),
        ("33", "#ffff00"),
        ("34", "#0000ff"),
        ("35", "#ff00ff"),
        ("36", "#00ffff"),
        ("37", "#ffffff"),
    ];
    for (code, color) in cases.iter() {
        let input = format!("\x1b[{}mtext", code);
        let expected = format!("<span style=\"color: {}\">text", color);
        assert_eq!(ansi_to_html(&input), expected);
    }
}

#[test]
fn non_ascii_text_passes_through() {
    let out = ansi_to_html("gr\u{fc}n: \x1b[32m\u{2713}\x1b[0m");
    assert_eq!(out, "gr\u{fc}n: <span style=\"color: #00ff00\">\u{2713}</span>");
}
