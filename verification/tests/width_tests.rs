use statusline::compose::compose_three;
use statusline::compose::compose_two;
use statusline::compose::div_up;
use statusline::compose::saturating_diff;
use statusline::compose::spaces;
use statusline::width::strip_escapes;
use statusline::width::visible_width;

#[test]
fn empty_input_has_width_zero() {
    assert_eq!(visible_width(""), 0);
    assert_eq!(strip_escapes(""), "");
}

#[test]
fn plain_text_width_is_character_count() {
    assert_eq!(visible_width("Zellij"), 6);
    assert_eq!(strip_escapes("Zellij"), "Zellij");
    assert_eq!(visible_width("a b c"), 5);
}

#[test]
fn multibyte_characters_count_one_cell_each() {
    assert_eq!(visible_width("héllo"), 5);
    assert_eq!("héllo".len(), 6);
}

#[test]
fn escape_sequences_are_subtracted() {
    assert_eq!(visible_width("\u{1b}[1mA\u{1b}[0m"), 1);
    assert_eq!(strip_escapes("\u{1b}[1mA\u{1b}[0m"), "A");
    assert_eq!(visible_width("\u{1b}[1;38;5;2m22\u{1b}[0m"), 2);
    assert_eq!(strip_escapes("x\u{1b}[38;2;1;22;333my\u{1b}[mz"), "xyz");
}

#[test]
fn unterminated_escape_stays_literal() {
    assert_eq!(strip_escapes("\u{1b}[12"), "\u{1b}[12");
    assert_eq!(visible_width("\u{1b}[12"), 4);
    assert_eq!(strip_escapes("\u{1b}x"), "\u{1b}x");
    assert_eq!(strip_escapes("\u{1b}[1;2x"), "\u{1b}[1;2x");
}

#[test]
fn stripping_stripped_text_changes_nothing() {
    let s = "a\u{1b}[1mb\u{1b}[0mc";
    let once = strip_escapes(s);
    let twice = strip_escapes(once.as_str());
    assert_eq!(once, twice);
    assert_eq!(visible_width(once.as_str()), visible_width(s));
}

#[test]
fn two_segment_line_fills_cols_exactly() {
    let left = "\u{1b}[1mL\u{1b}[0meft";
    let right = "right";
    let line = compose_two(left, right, 20);
    assert_eq!(visible_width(line.as_str()), 20);
    assert_eq!(line, "\u{1b}[1mL\u{1b}[0meft           right");
}

#[test]
fn three_segment_line_fills_cols_exactly() {
    let line = compose_three("ab", "cd", "ef", 12);
    // left padding: 12/2 - 2 - 2/2 = 3; right padding: 12 - 2 - 3 - 2 - 2 = 3.
    assert_eq!(line, "ab   cd   ef");
    assert_eq!(visible_width(line.as_str()), 12);
}

#[test]
fn narrow_terminal_yields_defined_output() {
    let line = compose_two("abcdef", "xyz", 5);
    assert_eq!(line, "abcdefxyz");
    let line3 = compose_three("abcdef", "qq", "xyz", 3);
    assert_eq!(line3, "abcdefqqxyz");
}

#[test]
fn escape_only_input_has_width_zero() {
    assert_eq!(visible_width("\u{1b}[1m\u{1b}[38;5;2m\u{1b}[0m"), 0);
    assert_eq!(strip_escapes("\u{1b}[m"), "");
}

#[test]
fn exactly_fitting_segments_need_no_padding() {
    let line = compose_two("abc", "de", 5);
    assert_eq!(line, "abcde");
    assert_eq!(visible_width(line.as_str()), 5);
}

#[test]
fn spaces_and_saturating_diff() {
    assert_eq!(spaces(4), "    ");
    assert_eq!(spaces(0), "");
    assert_eq!(saturating_diff(7, 3), 4);
    assert_eq!(saturating_diff(3, 7), 0);
}

#[test]
fn div_up_rounds_toward_infinity() {
    assert_eq!(div_up(0, 5), 0);
    assert_eq!(div_up(9, 3), 3);
    assert_eq!(div_up(10, 3), 4);
    assert_eq!(div_up(1, 1), 1);
}
