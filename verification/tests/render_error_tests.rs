use delineate::render_error::{classify_render_error, RenderErrorAction};

#[test]
fn syntax_error_marks_zero_based_line() {
    let r = classify_render_error(b"syntax error in line 3 near 'x'");
    assert_eq!(r, RenderErrorAction::MarkLine(2));
}

#[test]
fn syntax_error_line_one_marks_line_zero() {
    let r = classify_render_error(b"syntax error in line 1");
    assert_eq!(r, RenderErrorAction::MarkLine(0));
}

#[test]
fn message_without_marker_notifies() {
    let r = classify_render_error(b"Layout was not done");
    assert_eq!(r, RenderErrorAction::Notify);
}

#[test]
fn empty_message_notifies() {
    let r = classify_render_error(b"");
    assert_eq!(r, RenderErrorAction::Notify);
}

#[test]
fn marker_without_digits_notifies() {
    let r = classify_render_error(b"syntax error in line x");
    assert_eq!(r, RenderErrorAction::Notify);
}

#[test]
fn line_zero_is_out_of_range() {
    let r = classify_render_error(b"syntax error in line 0");
    assert_eq!(r, RenderErrorAction::LineOutOfRange);
}

#[test]
fn huge_line_is_out_of_range() {
    let r = classify_render_error(b"syntax error in line 4294967296");
    assert_eq!(r, RenderErrorAction::LineOutOfRange);
}

#[test]
fn largest_line_fits() {
    let r = classify_render_error(b"syntax error in line 4294967295");
    assert_eq!(r, RenderErrorAction::MarkLine(4294967294));
}

#[test]
fn first_marker_wins() {
    let r = classify_render_error(b"syntax error in line 7 and syntax error in line 9");
    assert_eq!(r, RenderErrorAction::MarkLine(6));
}

#[test]
fn marker_inside_text_is_found() {
    let r = classify_render_error(b"dot: syntax error in line 12\n");
    assert_eq!(r, RenderErrorAction::MarkLine(11));
}

#[test]
fn long_digit_run_is_read_whole() {
    let r = classify_render_error(b"syntax error in line 0012");
    assert_eq!(r, RenderErrorAction::MarkLine(11));
}

/// The classification agrees with the reference pattern `syntax error in
/// line (\d+)` on ASCII messages whose number fits a line index.
#[test]
fn agrees_with_reference_pattern() {
    let re = regex::Regex::new(r"syntax error in line (\d+)").unwrap();
    let samples: [&str; 8] = [
        "syntax error in line 3 near 'x'",
        "warning: something else",
        "syntax error in line 10",
        "a syntax error in line 00042, twice: syntax error in line 7",
        "syntax error in line",
        "syntax error in line  5",
        "Error: <stdin>: syntax error in line 2 near '}'",
        "syntax error in line 999999",
    ];
    for msg in samples {
        let expected = match re.captures(msg) {
            Some(c) => RenderErrorAction::MarkLine(c[1].parse::<u32>().unwrap() - 1),
            None => RenderErrorAction::Notify,
        };
        assert_eq!(classify_render_error(msg.as_bytes()), expected, "on {msg:?}");
    }
}
