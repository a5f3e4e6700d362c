//! The style resolver: turns a palette role plus a bold flag into the
//! concrete escape-sequence bytes around a text span.  The bytes come
//! from the ansi_term crate; their exact shape is stated here, so the
//! width calculator provably subtracts them again.

use vstd::prelude::*;

use crate::numfmt::lemma_dec_digits;
use crate::numfmt::spec_dec;
use crate::palette::Palette;
use crate::palette::PaletteColor;
use crate::state::InputMode;
use crate::width::esc_len;
use crate::width::is_param_char;
use crate::width::lemma_param_run_len_is;
use crate::width::lemma_strip_concat;
use crate::width::lemma_strip_no_esc_char;
use crate::width::spec_strip;
use crate::width::spec_wf;
use crate::width::spec_width;

verus! {

/// A complete styling escape sequence with the given parameter run.
pub open spec fn spec_sgr(params: Seq<char>) -> Seq<char> {
    seq!['\u{1b}', '['] + params + seq!['m']
}

/// The sequence that returns the terminal to its plain style.
pub open spec fn spec_reset() -> Seq<char> {
    spec_sgr(seq!['0'])
}

/// `text` wrapped in a styling sequence and the closing reset.
pub open spec fn spec_styled(params: Seq<char>, text: Seq<char>) -> Seq<char> {
    spec_sgr(params) + text + spec_reset()
}

/// The parameter run selecting a foreground color.
pub open spec fn spec_fg_code(c: PaletteColor) -> Seq<char> {
    match c {
        PaletteColor::EightBit(n) => seq!['3', '8', ';', '5', ';'] + spec_dec(n as int),
        PaletteColor::Rgb(r, g, b) => seq!['3', '8', ';', '2', ';'] + spec_dec(r as int)
            + seq![';'] + spec_dec(g as int) + seq![';'] + spec_dec(b as int),
    }
}

/// The parameter run selecting a background color.
pub open spec fn spec_bg_code(c: PaletteColor) -> Seq<char> {
    match c {
        PaletteColor::EightBit(n) => seq!['4', '8', ';', '5', ';'] + spec_dec(n as int),
        PaletteColor::Rgb(r, g, b) => seq!['4', '8', ';', '2', ';'] + spec_dec(r as int)
            + seq![';'] + spec_dec(g as int) + seq![';'] + spec_dec(b as int),
    }
}

/// Parameters of a bold style with foreground color `c`.
pub open spec fn spec_bold_fg_params(c: PaletteColor) -> Seq<char> {
    seq!['1', ';'] + spec_fg_code(c)
}

/// Parameters of a bold style with background `bg` and foreground `fg`
/// (the background code is written first).
pub open spec fn spec_bold_bg_fg_params(bg: PaletteColor, fg: PaletteColor) -> Seq<char> {
    seq!['1', ';'] + spec_bg_code(bg) + seq![';'] + spec_fg_code(fg)
}

pub proof fn lemma_fg_code_params(c: PaletteColor)
    ensures
        forall|i: int|
            0 <= i < spec_fg_code(c).len() ==> is_param_char(#[trigger] spec_fg_code(c)[i]),
{
    match c {
        PaletteColor::EightBit(n) => {
            lemma_dec_digits(n as int);
        },
        PaletteColor::Rgb(r, g, b) => {
            lemma_dec_digits(r as int);
            lemma_dec_digits(g as int);
            lemma_dec_digits(b as int);
        },
    }
}

pub proof fn lemma_bg_code_params(c: PaletteColor)
    ensures
        forall|i: int|
            0 <= i < spec_bg_code(c).len() ==> is_param_char(#[trigger] spec_bg_code(c)[i]),
{
    match c {
        PaletteColor::EightBit(n) => {
            lemma_dec_digits(n as int);
        },
        PaletteColor::Rgb(r, g, b) => {
            lemma_dec_digits(r as int);
            lemma_dec_digits(g as int);
            lemma_dec_digits(b as int);
        },
    }
}

pub proof fn lemma_bold_fg_params(c: PaletteColor)
    ensures
        forall|i: int|
            0 <= i < spec_bold_fg_params(c).len() ==> is_param_char(
                #[trigger] spec_bold_fg_params(c)[i],
            ),
{
    lemma_fg_code_params(c);
}

pub proof fn lemma_bold_bg_fg_params(bg: PaletteColor, fg: PaletteColor)
    ensures
        forall|i: int|
            0 <= i < spec_bold_bg_fg_params(bg, fg).len() ==> is_param_char(
                #[trigger] spec_bold_bg_fg_params(bg, fg)[i],
            ),
{
    lemma_bg_code_params(bg);
    lemma_fg_code_params(fg);
}

/// Styling leaves the visible text exactly as it was: the wrapped form
/// strips back to `text`, every escape in it is complete, and its
/// visible width is the character count of `text`.
pub proof fn lemma_styled_props(params: Seq<char>, text: Seq<char>)
    requires
        forall|i: int| 0 <= i < params.len() ==> is_param_char(#[trigger] params[i]),
        forall|i: int| 0 <= i < text.len() ==> #[trigger] text[i] != '\u{1b}',
    ensures
        spec_strip(spec_styled(params, text)) == text,
        spec_wf(spec_styled(params, text)),
        spec_width(spec_styled(params, text)) == text.len(),
{
    let p = params.len() as int;
    let t = text.len() as int;
    let rst = spec_reset();
    let s = spec_styled(params, text);

    // The reset sequence on its own.
    assert(rst.skip(2) =~= seq!['0', 'm']);
    lemma_param_run_len_is(rst.skip(2), 1);
    assert(esc_len(rst) == Some(4nat));
    assert(rst.skip(4) =~= Seq::<char>::empty());
    assert(spec_strip(Seq::<char>::empty()) =~= Seq::<char>::empty());
    assert(spec_strip(rst) == spec_strip(rst.skip(4)));
    assert(spec_strip(rst) =~= Seq::<char>::empty());

    // The opening sequence at the front of the whole.
    assert(s[0] == '\u{1b}');
    assert(s[1] == '[');
    assert forall|i: int| 0 <= i < p implies is_param_char(#[trigger] s.skip(2)[i]) by {
        assert(s.skip(2)[i] == params[i]);
    }
    assert(s.skip(2)[p] == 'm');
    assert(!is_param_char('m'));
    lemma_param_run_len_is(s.skip(2), p);
    assert(esc_len(s) == Some((3 + p) as nat));

    // Stripping removes the opening sequence, keeps the text, and
    // removes the reset.
    assert(s.skip(3 + p) =~= text + rst);
    lemma_strip_no_esc_char(text);
    lemma_strip_concat(text, rst);
    assert(spec_strip(s) == spec_strip(text + rst));
    assert(text + spec_strip(rst) =~= text);
    assert(spec_strip(s) == text);

    // Every ESC in the whole starts a complete sequence: the one at the
    // front and the one of the reset.
    assert forall|i: int| 0 <= i < s.len() && s[i] == '\u{1b}' implies (#[trigger] esc_len(
        s.skip(i),
    )) is Some by {
        if i == 0 {
            assert(s.skip(0) =~= s);
        } else if i < 2 + p {
            if i == 1 {
                assert(s[1] == '[');
            } else {
                assert(s[i] == params[i - 2]);
                assert(is_param_char(s[i]));
            }
            assert(false);
        } else if i == 2 + p {
            assert(s[i] == 'm');
            assert(false);
        } else if i < 3 + p + t {
            assert(s[i] == text[i - 3 - p]);
            assert(false);
        } else if i == 3 + p + t {
            assert(s.skip(i) =~= rst);
        } else {
            assert(s[i] == rst[i - 3 - p - t]);
            assert(rst[1] == '[' && rst[2] == '0' && rst[3] == 'm');
            assert(false);
        }
    }
}

/// Relies on ansi_term: `Style::new().fg(c).bold().paint(text)`
/// displays as `ESC [ 1 ; <fg-code> m`, the text, then `ESC [ 0 m`,
/// with `38;5;n` for a fixed color and `38;2;r;g;b` for an RGB one.
#[verifier::external_body]
pub(crate) fn paint_bold_fg(c: PaletteColor, text: &str) -> (r: String)
    ensures
        r@ == spec_styled(spec_bold_fg_params(c), text@),
{
    let colour = match c {
        PaletteColor::Rgb(red, green, blue) => ansi_term::Colour::RGB(red, green, blue),
        PaletteColor::EightBit(n) => ansi_term::Colour::Fixed(n),
    };
    ansi_term::Style::new().fg(colour).bold().paint(text).to_string()
}

/// Relies on ansi_term: `Style::new().fg(fg).on(bg).bold().paint(text)`
/// displays as `ESC [ 1 ; <bg-code> ; <fg-code> m` (background before
/// foreground), the text, then `ESC [ 0 m`.
#[verifier::external_body]
pub(crate) fn paint_bold_bg_fg(bg: PaletteColor, fg: PaletteColor, text: &str) -> (r: String)
    ensures
        r@ == spec_styled(spec_bold_bg_fg_params(bg, fg), text@),
{
    let to_colour = |c: PaletteColor| match c {
        PaletteColor::Rgb(red, green, blue) => ansi_term::Colour::RGB(red, green, blue),
        PaletteColor::EightBit(n) => ansi_term::Colour::Fixed(n),
    };
    ansi_term::Style::new().fg(to_colour(fg)).on(to_colour(bg)).bold().paint(text).to_string()
}

/// `text` in bold with the given 8-bit foreground color.
pub fn color_bold(color: u8, text: &str) -> (r: String)
    ensures
        r@ == spec_styled(spec_bold_fg_params(PaletteColor::EightBit(color)), text@),
{
    paint_bold_fg(PaletteColor::EightBit(color), text)
}

/// The label under which a mode is shown.
pub open spec fn spec_mode_label(m: InputMode) -> Seq<char> {
    match m {
        InputMode::Normal => "Normal"@,
        InputMode::Locked => "Locked"@,
        InputMode::Resize => "Resize"@,
        InputMode::Pane => "Pane"@,
        InputMode::Tab => "Tab"@,
        InputMode::Scroll => "Scroll"@,
        InputMode::Search => "Search"@,
        InputMode::Session => "Session"@,
        InputMode::Move => "Move"@,
    }
}

pub fn mode_label(m: InputMode) -> (s: String)
    ensures
        s@ == spec_mode_label(m),
{
    match m {
        InputMode::Normal => String::from_str("Normal"),
        InputMode::Locked => String::from_str("Locked"),
        InputMode::Resize => String::from_str("Resize"),
        InputMode::Pane => String::from_str("Pane"),
        InputMode::Tab => String::from_str("Tab"),
        InputMode::Scroll => String::from_str("Scroll"),
        InputMode::Search => String::from_str("Search"),
        InputMode::Session => String::from_str("Session"),
        InputMode::Move => String::from_str("Move"),
    }
}

pub proof fn lemma_mode_label_no_esc(m: InputMode)
    ensures
        forall|i: int|
            0 <= i < spec_mode_label(m).len() ==> #[trigger] spec_mode_label(m)[i] != '\u{1b}',
{
    reveal_strlit("Normal");
    reveal_strlit("Locked");
    reveal_strlit("Resize");
    reveal_strlit("Pane");
    reveal_strlit("Tab");
    reveal_strlit("Scroll");
    reveal_strlit("Search");
    reveal_strlit("Session");
    reveal_strlit("Move");
}

/// The mode name as the bar shows it: the foremost mode is highlighted
/// (bold, palette black on palette green); every other mode is shown
/// bare.
pub open spec fn spec_mode_style(p: Palette, m: InputMode) -> Seq<char> {
    if m == InputMode::Normal {
        spec_styled(spec_bold_bg_fg_params(p.green, p.black), spec_mode_label(m))
    } else {
        spec_mode_label(m)
    }
}

pub fn mode_style(palette: &Palette, mode: InputMode) -> (r: String)
    ensures
        r@ == spec_mode_style(*palette, mode),
{
    let label = mode_label(mode);
    match mode {
        InputMode::Normal => paint_bold_bg_fg(palette.green, palette.black, label.as_str()),
        _ => label,
    }
}

/// The styled mode name is well formed and as wide as its label.
pub proof fn lemma_mode_style_props(p: Palette, m: InputMode)
    ensures
        spec_wf(spec_mode_style(p, m)),
        spec_width(spec_mode_style(p, m)) == spec_mode_label(m).len(),
{
    lemma_mode_label_no_esc(m);
    if m == InputMode::Normal {
        lemma_bold_bg_fg_params(p.green, p.black);
        lemma_styled_props(spec_bold_bg_fg_params(p.green, p.black), spec_mode_label(m));
    } else {
        lemma_strip_no_esc_char(spec_mode_label(m));
    }
}

} // verus!
