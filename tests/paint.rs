use delta::color::Rgba;
use delta::paint::{paint_tokens, Span};
use delta::render::decimal_digits;

fn rgb(r: u8, g: u8, b: u8) -> Rgba {
    Rgba { r, g, b, a: 255 }
}

fn span(fg: Rgba, text: &str) -> Span {
    Span { fg, text: text.to_string() }
}

#[test]
fn added_line_takes_added_background() {
    let spans = vec![span(rgb(1, 2, 3), "+a"), span(rgb(4, 5, 6), "b")];
    let out = paint_tokens("+ab", &spans, Some(rgb(208, 255, 208)), None);
    assert_eq!(
        out,
        "\x1b[38;2;1;2;3m\x1b[48;2;208;255;208m+a\x1b[0m\x1b[38;2;4;5;6m\x1b[48;2;208;255;208mb\x1b[0m"
    );
}

#[test]
fn context_line_has_no_background() {
    let spans = vec![span(rgb(9, 9, 9), " ab")];
    let out = paint_tokens(" ab", &spans, None, Some(10));
    assert_eq!(out, "\x1b[38;2;9;9;9m ab\x1b[0m");
}

#[test]
fn short_line_is_padded_to_width() {
    let out = paint_tokens("-x", &Vec::new(), Some(rgb(255, 208, 208)), Some(4));
    assert_eq!(out, "\x1b[48;2;255;208;208m-x  \x1b[0m");
}

#[test]
fn long_line_keeps_text_past_width() {
    let out = paint_tokens("-xy", &Vec::new(), Some(rgb(255, 208, 208)), Some(1));
    assert_eq!(out, "\x1b[48;2;255;208;208m-\x1b[0mxy");
}

#[test]
fn uncovered_rest_keeps_overlay_only() {
    let spans = vec![span(rgb(7, 8, 9), "+q"), span(rgb(1, 1, 1), "zz")];
    let out = paint_tokens("+qr", &spans, Some(rgb(0, 0, 0)), None);
    assert_eq!(
        out,
        "\x1b[38;2;7;8;9m\x1b[48;2;0;0;0m+q\x1b[0m\x1b[48;2;0;0;0mr\x1b[0m"
    );
}

#[test]
fn empty_line_paints_to_nothing() {
    assert_eq!(paint_tokens("", &Vec::new(), None, None), "");
    assert_eq!(paint_tokens("", &Vec::new(), Some(rgb(1, 2, 3)), Some(2)), "\x1b[48;2;1;2;3m  \x1b[0m");
}

#[test]
fn decimal_digits_of_bytes() {
    assert_eq!(decimal_digits(0), vec!['0']);
    assert_eq!(decimal_digits(9), vec!['9']);
    assert_eq!(decimal_digits(59), vec!['5', '9']);
    assert_eq!(decimal_digits(100), vec!['1', '0', '0']);
    assert_eq!(decimal_digits(255), vec!['2', '5', '5']);
}
