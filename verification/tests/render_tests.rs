use statusline::clock::ClockTime;
use statusline::clock::clock_now;
use statusline::compose::compose_two;
use statusline::numfmt::fmt_pad2;
use statusline::numfmt::fmt_pad4;
use statusline::numfmt::fmt_usize;
use statusline::palette::Palette;
use statusline::palette::PaletteColor;
use statusline::segments::center_bar;
use statusline::segments::left_bar;
use statusline::segments::render_line;
use statusline::segments::render_now;
use statusline::segments::right_bar;
use statusline::segments::tab_strip;
use statusline::state::Event;
use statusline::state::InputMode;
use statusline::state::State;
use statusline::state::TabInfo;
use statusline::style::color_bold;
use statusline::style::mode_label;
use statusline::style::mode_style;
use statusline::width::strip_escapes;
use statusline::width::visible_width;

fn tab(position: usize, active: bool) -> TabInfo {
    TabInfo { position, name: String::from("tab"), active }
}

fn state_for_scenario() -> State {
    State {
        mode: InputMode::Normal,
        tabs: vec![tab(1, false), tab(2, true)],
        session_name: Some(String::from("work")),
        palette: Palette::default(),
        count: 5,
        action_count: 0,
    }
}

#[test]
fn decimal_formatting() {
    assert_eq!(fmt_usize(0), "0");
    assert_eq!(fmt_usize(7), "7");
    assert_eq!(fmt_usize(2026), "2026");
    assert_eq!(fmt_pad2(5), "05");
    assert_eq!(fmt_pad2(12), "12");
    assert_eq!(fmt_pad4(3), "0003");
    assert_eq!(fmt_pad4(987), "0987");
    assert_eq!(fmt_pad4(2026), "2026");
}

#[test]
fn zero_pads_to_full_width() {
    assert_eq!(fmt_pad2(0), "00");
    assert_eq!(fmt_pad4(0), "0000");
}

#[test]
fn color_bold_wraps_in_escape_codes() {
    assert_eq!(color_bold(2, "2"), "\u{1b}[1;38;5;2m2\u{1b}[0m");
    assert_eq!(visible_width(color_bold(2, "2").as_str()), 1);
}

#[test]
fn mode_labels() {
    assert_eq!(mode_label(InputMode::Normal), "Normal");
    assert_eq!(mode_label(InputMode::Locked), "Locked");
    assert_eq!(mode_label(InputMode::Scroll), "Scroll");
}

#[test]
fn normal_mode_is_highlighted_others_are_bare() {
    let p = Palette::default();
    assert_eq!(
        mode_style(&p, InputMode::Normal),
        "\u{1b}[1;48;5;2;38;5;0mNormal\u{1b}[0m"
    );
    assert_eq!(mode_style(&p, InputMode::Locked), "Locked");
    assert_eq!(visible_width(mode_style(&p, InputMode::Normal).as_str()), 6);
}

#[test]
fn mode_style_uses_rgb_palette_colors() {
    let mut p = Palette::default();
    p.green = PaletteColor::Rgb(10, 20, 30);
    p.black = PaletteColor::Rgb(1, 2, 3);
    assert_eq!(
        mode_style(&p, InputMode::Normal),
        "\u{1b}[1;48;2;10;20;30;38;2;1;2;3mNormal\u{1b}[0m"
    );
}

#[test]
fn tab_strip_keeps_order_and_styles_the_active_tab() {
    let p = Palette::default();
    let tabs = vec![tab(1, false), tab(2, true), tab(3, false)];
    let strip = tab_strip(&tabs, &p);
    assert_eq!(strip, "1 \u{1b}[1;38;5;2m2\u{1b}[0m 3");
    assert_eq!(strip_escapes(strip.as_str()), "1 2 3");
    assert_eq!(visible_width(strip.as_str()), 5);
}

#[test]
fn empty_tab_strip_is_empty() {
    let p = Palette::default();
    let tabs: Vec<TabInfo> = vec![];
    assert_eq!(tab_strip(&tabs, &p), "");
}

#[test]
fn center_bar_formats_clock_and_date() {
    let t = ClockTime { hour: 9, minute: 5, year: 2026, month: 10, day: 12 };
    assert_eq!(center_bar(&t), "09:05 2026-10-12");
    let t2 = ClockTime { hour: 23, minute: 59, year: 31, month: 1, day: 2 };
    assert_eq!(center_bar(&t2), "23:59 0031-01-02");
}

#[test]
fn clock_now_is_in_range() {
    let t = clock_now();
    assert!(t.hour < 24);
    assert!(t.minute < 60);
    assert!(t.year <= 9999);
    assert!((1..=12).contains(&t.month));
    assert!((1..=31).contains(&t.day));
}

#[test]
fn end_to_end_scenario_two_segments_fill_forty_cols() {
    let s = state_for_scenario();
    let left = left_bar(&s);
    let right = right_bar(&s);
    assert_eq!(
        left,
        "  Zellij \u{1b}[1;48;5;2;38;5;0mNormal\u{1b}[0m 1 \u{1b}[1;38;5;2m2\u{1b}[0m"
    );
    assert_eq!(strip_escapes(left.as_str()), "  Zellij Normal 1 2");
    assert_eq!(right, "(work) 5  ");
    let line = compose_two(left.as_str(), right.as_str(), 40);
    assert_eq!(visible_width(line.as_str()), 40);
    assert_eq!(
        strip_escapes(line.as_str()),
        "  Zellij Normal 1 2           (work) 5  "
    );
}

#[test]
fn full_line_fills_eighty_cols() {
    let s = state_for_scenario();
    let t = ClockTime { hour: 12, minute: 34, year: 2026, month: 10, day: 12 };
    let line = render_line(&s, &t, 80);
    assert_eq!(visible_width(line.as_str()), 80);
    // left 19 cells, left padding 80/2 - 19 - 16/2 = 13, center 16,
    // right 10, right padding 80 - 19 - 13 - 16 - 10 = 22.
    let mut expected = String::from("  Zellij Normal 1 2");
    expected.push_str(&" ".repeat(13));
    expected.push_str("12:34 2026-10-12");
    expected.push_str(&" ".repeat(22));
    expected.push_str("(work) 5  ");
    assert_eq!(strip_escapes(line.as_str()), expected);
}

#[test]
fn exactly_fitting_three_segments_never_overflow() {
    let mut s = State::default();
    // Left 13 cells, center 16, right 20: at cols 49 the segments fit
    // exactly, but the midpoint placement alone would push the right
    // segment past the edge.  The left padding caps at the room the
    // segments leave, here zero.
    let out = s.apply(Event::ModeChanged(
        InputMode::Tab,
        Some(String::from("abcdefghijklmn")),
        Palette::default(),
    ));
    assert!(out.render);
    let t = ClockTime { hour: 12, minute: 34, year: 2026, month: 10, day: 12 };
    let line = render_line(&s, &t, 49);
    assert_eq!(visible_width(line.as_str()), 49);
    assert_eq!(
        strip_escapes(line.as_str()),
        "  Zellij Tab 12:34 2026-10-12(abcdefghijklmn) 0  "
    );
}

#[test]
fn render_without_session_name() {
    let mut s = state_for_scenario();
    s.session_name = None;
    assert_eq!(right_bar(&s), "5  ");
}

#[test]
fn narrow_render_is_defined() {
    let s = state_for_scenario();
    let t = ClockTime { hour: 12, minute: 34, year: 2026, month: 10, day: 12 };
    let line = render_line(&s, &t, 10);
    // Too narrow to fit: both paddings clamp to zero.
    assert_eq!(
        strip_escapes(line.as_str()),
        "  Zellij Normal 1 212:34 2026-10-12(work) 5  "
    );
}

#[test]
fn render_now_fills_cols_with_live_clock() {
    let s = state_for_scenario();
    let line = render_now(&s, 80);
    assert_eq!(visible_width(line.as_str()), 80);
}
