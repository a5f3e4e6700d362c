//! The line compositor: joins the segments with computed padding so the
//! line occupies exactly the terminal's column count.  Padding that
//! would go negative is clamped to zero, so narrow terminals get a
//! defined (overlong) line instead of an arithmetic fault.

use vstd::prelude::*;

use crate::width::lemma_strip_concat;
use crate::width::lemma_strip_no_esc_char;
use crate::width::lemma_wf_concat;
use crate::width::push_char;
use crate::width::spec_strip;
use crate::width::spec_wf;
use crate::width::spec_width;
use crate::width::visible_width;

verus! {

/// `n` space characters (none when `n` is negative).
pub open spec fn spec_spaces(n: int) -> Seq<char> {
    Seq::new(if n < 0 { 0 } else { n as nat }, |i: int| ' ')
}

/// Padding of a two-segment line, clamped at zero.
pub open spec fn pad_two(wl: int, wr: int, cols: int) -> int {
    if cols - wl - wr >= 0 {
        cols - wl - wr
    } else {
        0
    }
}

/// Left padding of a three-segment line: the center straddles the
/// midpoint, but never so far that the pieces to its right are pushed
/// past `cols`.  Clamped at zero below and by the room the other
/// segments leave above, so that whenever the three segments fit the
/// right padding absorbs exactly the rest of `cols`.
pub open spec fn pad_three_left(wl: int, wc: int, wr: int, cols: int) -> int {
    let mid = if cols / 2 - wl - wc / 2 >= 0 {
        cols / 2 - wl - wc / 2
    } else {
        0
    };
    let room = if cols - wl - wc - wr >= 0 {
        cols - wl - wc - wr
    } else {
        0
    };
    if mid <= room {
        mid
    } else {
        room
    }
}

/// Right padding of a three-segment line: whatever the other pieces
/// leave of `cols`.  Clamped at zero.
pub open spec fn pad_three_right(wl: int, wc: int, wr: int, cols: int) -> int {
    let lp = pad_three_left(wl, wc, wr, cols);
    if cols - wl - lp - wc - wr >= 0 {
        cols - wl - lp - wc - wr
    } else {
        0
    }
}

/// The composed two-segment line.
pub open spec fn spec_compose_two(l: Seq<char>, r: Seq<char>, cols: int) -> Seq<char> {
    l + spec_spaces(pad_two(spec_width(l) as int, spec_width(r) as int, cols)) + r
}

/// The composed three-segment line.
pub open spec fn spec_compose_three(l: Seq<char>, c: Seq<char>, r: Seq<char>, cols: int) -> Seq<
    char,
> {
    let wl = spec_width(l) as int;
    let wc = spec_width(c) as int;
    let wr = spec_width(r) as int;
    l + spec_spaces(pad_three_left(wl, wc, wr, cols)) + c + spec_spaces(
        pad_three_right(wl, wc, wr, cols),
    ) + r
}

pub proof fn lemma_spaces_plain(n: int)
    ensures
        spec_wf(spec_spaces(n)),
        spec_strip(spec_spaces(n)) == spec_spaces(n),
        spec_width(spec_spaces(n)) == spec_spaces(n).len(),
{
    lemma_strip_no_esc_char(spec_spaces(n));
}

/// `n` spaces.
pub fn spaces(n: usize) -> (r: String)
    ensures
        r@ == spec_spaces(n as int),
{
    let mut r = String::new();
    let mut i: usize = 0;
    while i < n
        invariant
            i <= n,
            r@ == spec_spaces(i as int),
        decreases n - i,
    {
        push_char(&mut r, ' ');
        i = i + 1;
        proof {
            assert(r@ =~= spec_spaces(i as int));
        }
    }
    r
}

/// `a - b`, stopping at zero.
pub fn saturating_diff(a: usize, b: usize) -> (r: usize)
    ensures
        r as int == if a as int - b as int >= 0 {
            a as int - b as int
        } else {
            0
        },
{
    if a >= b {
        a - b
    } else {
        0
    }
}

/// Ceiling division: the least `q` with `q * b >= a`.
pub fn div_up(a: usize, b: usize) -> (r: usize)
    requires
        b > 0,
    ensures
        r as int == if a as int % b as int == 0 {
            a as int / b as int
        } else {
            a as int / b as int + 1
        },
{
    if a % b == 0 {
        a / b
    } else {
        proof {
            assert((a as int) / (b as int) < a as int) by (nonlinear_arith)
                requires
                    (a as int) % (b as int) != 0,
                    b > 0,
            ;
        }
        a / b + 1
    }
}

/// Compose a two-segment line: the left text, padding, the right text.
/// When the segments fit, the line occupies exactly `cols` cells; when
/// they do not, the padding is zero and the line is simply the two
/// segments.
pub fn compose_two(left: &str, right: &str, cols: usize) -> (r: String)
    ensures
        r@ == spec_compose_two(left@, right@, cols as int),
        spec_wf(left@) && spec_width(left@) + spec_width(right@) <= cols ==> spec_width(r@)
            == cols,
{
    let wl = visible_width(left);
    let wr = visible_width(right);
    let pad = saturating_diff(saturating_diff(cols, wl), wr);
    assert(pad as int == pad_two(wl as int, wr as int, cols as int));
    let mut out = String::from_str(left);
    let sp = spaces(pad);
    out.append(sp.as_str());
    out.append(right);
    proof {
        let padded = left@ + spec_spaces(pad as int);
        lemma_spaces_plain(pad as int);
        if spec_wf(left@) && spec_width(left@) + spec_width(right@) <= cols {
            lemma_wf_concat(left@, spec_spaces(pad as int));
            lemma_strip_concat(padded, right@);
            lemma_strip_concat(left@, spec_spaces(pad as int));
        }
    }
    out
}

/// Compose a three-segment line: left, padding, center, padding, right.
/// Whenever the three segments fit within `cols`, the line occupies
/// exactly `cols` cells; when they do not, each padding is clamped at
/// zero and the line is simply the three segments.
pub fn compose_three(left: &str, center: &str, right: &str, cols: usize) -> (r: String)
    ensures
        r@ == spec_compose_three(left@, center@, right@, cols as int),
        spec_wf(left@) && spec_wf(center@) && spec_width(left@) + spec_width(center@) + spec_width(
            right@,
        ) <= cols ==> spec_width(r@) == cols,
{
    let wl = visible_width(left);
    let wc = visible_width(center);
    let wr = visible_width(right);
    let half = cols / 2;
    let mid = if half >= wl && half - wl >= wc / 2 {
        half - wl - wc / 2
    } else {
        0
    };
    let room = saturating_diff(saturating_diff(saturating_diff(cols, wl), wc), wr);
    let lp = if mid <= room {
        mid
    } else {
        room
    };
    assert(lp as int == pad_three_left(wl as int, wc as int, wr as int, cols as int));
    let rp = saturating_diff(
        saturating_diff(saturating_diff(saturating_diff(cols, wl), lp), wc),
        wr,
    );
    assert(rp as int == pad_three_right(wl as int, wc as int, wr as int, cols as int));
    let mut out = String::from_str(left);
    let sp_l = spaces(lp);
    out.append(sp_l.as_str());
    out.append(center);
    let sp_r = spaces(rp);
    out.append(sp_r.as_str());
    out.append(right);
    proof {
        lemma_spaces_plain(lp as int);
        lemma_spaces_plain(rp as int);
        if spec_wf(left@) && spec_wf(center@) && wl + wc + wr <= cols {
            let a = left@ + spec_spaces(lp as int);
            let b = a + center@;
            let c = b + spec_spaces(rp as int);
            lemma_wf_concat(left@, spec_spaces(lp as int));
            lemma_wf_concat(a, center@);
            lemma_wf_concat(b, spec_spaces(rp as int));
            lemma_strip_concat(c, right@);
            lemma_strip_concat(b, spec_spaces(rp as int));
            lemma_strip_concat(a, center@);
            lemma_strip_concat(left@, spec_spaces(lp as int));
        }
    }
    out
}

} // verus!
