//! The segment builder: the left block (brand label, styled mode name,
//! tab strip), the optional center block (clock), and the right block
//! (session name, tick counter), plus the full render of one line.

use vstd::prelude::*;

use crate::clock::ClockTime;
use crate::clock::clock_now;
use crate::compose::compose_three;
use crate::compose::spec_compose_three;
use crate::numfmt::fmt_pad2;
use crate::numfmt::fmt_pad4;
use crate::numfmt::fmt_usize;
use crate::numfmt::lemma_dec_digits;
use crate::numfmt::lemma_pad2_no_esc;
use crate::numfmt::lemma_pad4_no_esc;
use crate::numfmt::lemma_pad_len;
use crate::numfmt::spec_dec;
use crate::numfmt::spec_pad2;
use crate::numfmt::spec_pad4;
use crate::palette::Palette;
use crate::state::State;
use crate::state::TabInfo;
use crate::state::InputMode;
use crate::style::lemma_bold_fg_params;
use crate::style::lemma_mode_style_props;
use crate::style::lemma_styled_props;
use crate::style::mode_style;
use crate::style::spec_bold_fg_params;
use crate::style::spec_mode_style;
use crate::style::spec_styled;
use crate::width::lemma_strip_concat;
use crate::width::lemma_strip_no_esc_char;
use crate::width::lemma_wf_concat;
use crate::width::spec_strip;
use crate::width::push_char;
use crate::width::spec_wf;
use crate::width::spec_width;

verus! {

/// One tab's cell in the strip: its display position, bold in the
/// palette's green when the tab is active, bare otherwise.
pub open spec fn spec_tab_text(t: TabInfo, p: Palette) -> Seq<char> {
    if t.active {
        spec_styled(spec_bold_fg_params(p.green), spec_dec(t.position as int))
    } else {
        spec_dec(t.position as int)
    }
}

/// The tab strip: each tab's cell in the given order, joined by single
/// spaces.
pub open spec fn spec_tab_strip(tabs: Seq<TabInfo>, p: Palette) -> Seq<char>
    decreases tabs.len(),
{
    if tabs.len() == 0 {
        Seq::empty()
    } else if tabs.len() == 1 {
        spec_tab_text(tabs[0], p)
    } else {
        spec_tab_text(tabs[0], p) + seq![' '] + spec_tab_strip(tabs.skip(1), p)
    }
}

pub fn tab_text(t: &TabInfo, p: &Palette) -> (r: String)
    ensures
        r@ == spec_tab_text(*t, *p),
{
    let num = fmt_usize(t.position);
    if t.active {
        crate::style::paint_bold_fg(p.green, num.as_str())
    } else {
        num
    }
}

fn tab_strip_from(tabs: &Vec<TabInfo>, p: &Palette, i: usize) -> (r: String)
    requires
        i <= tabs@.len(),
    ensures
        r@ == spec_tab_strip(tabs@.skip(i as int), *p),
    decreases tabs@.len() - i,
{
    if i == tabs.len() {
        let r = String::new();
        assert(tabs@.skip(i as int) =~= Seq::<TabInfo>::empty());
        r
    } else if i + 1 == tabs.len() {
        let r = tab_text(&tabs[i], p);
        assert(tabs@.skip(i as int)[0] == tabs@[i as int]);
        r
    } else {
        let mut r = tab_text(&tabs[i], p);
        push_char(&mut r, ' ');
        let rest = tab_strip_from(tabs, p, i + 1);
        r.append(rest.as_str());
        proof {
            assert(tabs@.skip(i as int)[0] == tabs@[i as int]);
            assert(tabs@.skip(i as int).skip(1) =~= tabs@.skip(i + 1));
            assert(r@ =~= spec_tab_text(tabs@[i as int], *p) + seq![' '] + spec_tab_strip(
                tabs@.skip(i + 1),
                *p,
            ));
        }
        r
    }
}

/// The rendered tab strip.
pub fn tab_strip(tabs: &Vec<TabInfo>, p: &Palette) -> (r: String)
    ensures
        r@ == spec_tab_strip(tabs@, *p),
{
    let r = tab_strip_from(tabs, p, 0);
    proof {
        assert(tabs@.skip(0) =~= tabs@);
    }
    r
}

pub proof fn lemma_tab_text_wf(t: TabInfo, p: Palette)
    ensures
        spec_wf(spec_tab_text(t, p)),
{
    lemma_dec_digits(t.position as int);
    if t.active {
        lemma_bold_fg_params(p.green);
        lemma_styled_props(spec_bold_fg_params(p.green), spec_dec(t.position as int));
    } else {
        lemma_strip_no_esc_char(spec_dec(t.position as int));
    }
}

pub proof fn lemma_tab_strip_wf(tabs: Seq<TabInfo>, p: Palette)
    ensures
        spec_wf(spec_tab_strip(tabs, p)),
    decreases tabs.len(),
{
    if tabs.len() == 0 {
        lemma_strip_no_esc_char(spec_tab_strip(tabs, p));
    } else if tabs.len() == 1 {
        lemma_tab_text_wf(tabs[0], p);
    } else {
        lemma_tab_text_wf(tabs[0], p);
        lemma_strip_no_esc_char(seq![' ']);
        lemma_wf_concat(spec_tab_text(tabs[0], p), seq![' ']);
        lemma_tab_strip_wf(tabs.skip(1), p);
        lemma_wf_concat(spec_tab_text(tabs[0], p) + seq![' '], spec_tab_strip(tabs.skip(1), p));
    }
}

/// The left segment: a leading spacer, the brand label, the styled mode
/// name and the tab strip, space-joined.
pub open spec fn spec_left_bar(m: InputMode, tabs: Seq<TabInfo>, p: Palette) -> Seq<char> {
    "  Zellij "@ + spec_mode_style(p, m) + " "@ + spec_tab_strip(tabs, p)
}

pub fn left_bar(s: &State) -> (r: String)
    ensures
        r@ == spec_left_bar(s.mode, s.tabs@, s.palette),
{
    let mut out = String::from_str("  Zellij ");
    let ms = mode_style(&s.palette, s.mode);
    out.append(ms.as_str());
    out.append(" ");
    let ts = tab_strip(&s.tabs, &s.palette);
    out.append(ts.as_str());
    out
}

pub proof fn lemma_left_bar_wf(m: InputMode, tabs: Seq<TabInfo>, p: Palette)
    ensures
        spec_wf(spec_left_bar(m, tabs, p)),
{
    reveal_strlit("  Zellij ");
    reveal_strlit(" ");
    lemma_strip_no_esc_char("  Zellij "@);
    lemma_strip_no_esc_char(" "@);
    lemma_mode_style_props(p, m);
    lemma_tab_strip_wf(tabs, p);
    lemma_wf_concat("  Zellij "@, spec_mode_style(p, m));
    lemma_wf_concat("  Zellij "@ + spec_mode_style(p, m), " "@);
    lemma_wf_concat("  Zellij "@ + spec_mode_style(p, m) + " "@, spec_tab_strip(tabs, p));
}

/// The center segment: the zero-padded 24-hour clock and the numeric
/// calendar date, space-joined.
pub open spec fn spec_center_bar(t: ClockTime) -> Seq<char> {
    spec_pad2(t.hour as int) + ":"@ + spec_pad2(t.minute as int) + " "@ + spec_pad4(t.year as int)
        + "-"@ + spec_pad2(t.month as int) + "-"@ + spec_pad2(t.day as int)
}

pub fn center_bar(t: &ClockTime) -> (r: String)
    ensures
        r@ == spec_center_bar(*t),
{
    let mut out = fmt_pad2(t.hour as usize);
    out.append(":");
    let mi = fmt_pad2(t.minute as usize);
    out.append(mi.as_str());
    out.append(" ");
    let y = fmt_pad4(t.year as usize);
    out.append(y.as_str());
    out.append("-");
    let mo = fmt_pad2(t.month as usize);
    out.append(mo.as_str());
    out.append("-");
    let d = fmt_pad2(t.day as usize);
    out.append(d.as_str());
    out
}

pub proof fn lemma_center_bar_wf(t: ClockTime)
    ensures
        spec_wf(spec_center_bar(t)),
        spec_strip(spec_center_bar(t)) == spec_center_bar(t),
        t.wf() ==> spec_width(spec_center_bar(t)) == 16,
{
    reveal_strlit(":");
    reveal_strlit(" ");
    reveal_strlit("-");
    lemma_pad2_no_esc(t.hour as int);
    lemma_pad2_no_esc(t.minute as int);
    lemma_pad4_no_esc(t.year as int);
    lemma_pad2_no_esc(t.month as int);
    lemma_pad2_no_esc(t.day as int);
    lemma_strip_no_esc_char(":"@);
    lemma_strip_no_esc_char(" "@);
    lemma_strip_no_esc_char("-"@);
    lemma_strip_no_esc_char(spec_pad2(t.hour as int));
    lemma_strip_no_esc_char(spec_pad2(t.minute as int));
    lemma_strip_no_esc_char(spec_pad4(t.year as int));
    lemma_strip_no_esc_char(spec_pad2(t.month as int));
    lemma_strip_no_esc_char(spec_pad2(t.day as int));
    let a = spec_pad2(t.hour as int);
    let b = a + ":"@;
    let c = b + spec_pad2(t.minute as int);
    let d = c + " "@;
    let e = d + spec_pad4(t.year as int);
    let f = e + "-"@;
    let g = f + spec_pad2(t.month as int);
    let h = g + "-"@;
    lemma_wf_concat(a, ":"@);
    lemma_wf_concat(b, spec_pad2(t.minute as int));
    lemma_wf_concat(c, " "@);
    lemma_wf_concat(d, spec_pad4(t.year as int));
    lemma_wf_concat(e, "-"@);
    lemma_wf_concat(f, spec_pad2(t.month as int));
    lemma_wf_concat(g, "-"@);
    lemma_wf_concat(h, spec_pad2(t.day as int));
    lemma_strip_concat(a, ":"@);
    lemma_strip_concat(b, spec_pad2(t.minute as int));
    lemma_strip_concat(c, " "@);
    lemma_strip_concat(d, spec_pad4(t.year as int));
    lemma_strip_concat(e, "-"@);
    lemma_strip_concat(f, spec_pad2(t.month as int));
    lemma_strip_concat(g, "-"@);
    lemma_strip_concat(h, spec_pad2(t.day as int));
    if t.wf() {
        lemma_pad_len(t.hour as int);
        lemma_pad_len(t.minute as int);
        lemma_pad_len(t.year as int);
        lemma_pad_len(t.month as int);
        lemma_pad_len(t.day as int);
    }
}

/// The right segment: the parenthesized session name when one is known,
/// the tick counter, and a trailing spacer, space-joined.
pub open spec fn spec_right_bar(session: Option<Seq<char>>, count: int) -> Seq<char> {
    match session {
        Some(n) => "("@ + n + ") "@ + spec_dec(count) + "  "@,
        None => spec_dec(count) + "  "@,
    }
}

pub fn right_bar(s: &State) -> (r: String)
    ensures
        r@ == spec_right_bar(s@.session_name, s@.count),
{
    let cnt = fmt_usize(s.count);
    match &s.session_name {
        Some(name) => {
            let mut out = String::from_str("(");
            out.append(name.as_str());
            out.append(") ");
            out.append(cnt.as_str());
            out.append("  ");
            out
        },
        None => {
            let mut out = cnt;
            out.append("  ");
            out
        },
    }
}

/// Render one full line of the bar for the given clock reading and
/// column count.  Whenever the three segments fit within `cols`, the
/// line occupies exactly `cols` visible cells, whatever the session
/// name holds.
pub fn render_line(s: &State, t: &ClockTime, cols: usize) -> (r: String)
    ensures
        r@ == spec_compose_three(
            spec_left_bar(s.mode, s.tabs@, s.palette),
            spec_center_bar(*t),
            spec_right_bar(s@.session_name, s@.count),
            cols as int,
        ),
        spec_width(spec_left_bar(s.mode, s.tabs@, s.palette)) + spec_width(spec_center_bar(*t))
            + spec_width(spec_right_bar(s@.session_name, s@.count)) <= cols ==> spec_width(r@)
            == cols,
{
    let l = left_bar(s);
    let c = center_bar(t);
    let rr = right_bar(s);
    proof {
        lemma_left_bar_wf(s.mode, s.tabs@, s.palette);
        lemma_center_bar_wf(*t);
    }
    compose_three(l.as_str(), c.as_str(), rr.as_str(), cols)
}

/// Render one full line of the bar at the current local time.
pub fn render_now(s: &State, cols: usize) -> (r: String)
    ensures
        exists|t: ClockTime|
            (#[trigger] t.wf()) && r@ == spec_compose_three(
                spec_left_bar(s.mode, s.tabs@, s.palette),
                spec_center_bar(t),
                spec_right_bar(s@.session_name, s@.count),
                cols as int,
            ),
{
    let t = clock_now();
    let r = render_line(s, &t, cols);
    proof {
        assert(t.wf() && r@ == spec_compose_three(
            spec_left_bar(s.mode, s.tabs@, s.palette),
            spec_center_bar(t),
            spec_right_bar(s@.session_name, s@.count),
            cols as int,
        ));
    }
    r
}

} // verus!
