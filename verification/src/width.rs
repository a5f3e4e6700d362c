//! Visible-width calculation: strips terminal styling escape sequences
//! (ESC `[`, then any run of digits and semicolons, closed by `m`) and
//! counts the characters that remain.

use vstd::prelude::*;

verus! {

/// A character allowed inside the parameter run of a styling sequence.
pub open spec fn is_param_char(c: char) -> bool {
    c == ';' || (48 <= c as u32 && c as u32 <= 57)
}

/// Length of the run of parameter characters at the front of `s`.
pub open spec fn param_run_len(s: Seq<char>) -> nat
    decreases s.len(),
{
    if s.len() == 0 || !is_param_char(s[0]) {
        0
    } else {
        1 + param_run_len(s.skip(1))
    }
}

/// If `s` begins with a complete styling escape sequence, its length;
/// `None` when the front of `s` is no such sequence (including an
/// unterminated one, which is kept as literal text).
pub open spec fn esc_len(s: Seq<char>) -> Option<nat> {
    if s.len() >= 2 && s[0] == '\u{1b}' && s[1] == '[' {
        let k = param_run_len(s.skip(2));
        if 2 + k < s.len() && s[2 + k as int] == 'm' {
            Some((3 + k) as nat)
        } else {
            None
        }
    } else {
        None
    }
}

/// `s` with every complete styling escape sequence removed, scanning
/// left to right; unterminated sequences stay as literal characters.
pub open spec fn spec_strip(s: Seq<char>) -> Seq<char>
    decreases s.len(),
{
    if s.len() == 0 {
        Seq::empty()
    } else {
        match esc_len(s) {
            Some(k) => if 1 <= k <= s.len() {
                spec_strip(s.skip(k as int))
            } else {
                Seq::empty()
            },
            None => seq![s[0]] + spec_strip(s.skip(1)),
        }
    }
}

/// The number of character cells `s` occupies on the terminal.
pub open spec fn spec_width(s: Seq<char>) -> nat {
    spec_strip(s).len()
}

/// Every escape in `s` is complete: wherever ESC occurs, a full styling
/// sequence starts there.  Text built by this library's styling
/// functions satisfies this.
pub open spec fn spec_wf(s: Seq<char>) -> bool {
    forall|i: int|
        0 <= i < s.len() && s[i] == '\u{1b}' ==> (#[trigger] esc_len(s.skip(i))) is Some
}

pub proof fn lemma_param_run_le_len(s: Seq<char>)
    ensures
        param_run_len(s) <= s.len(),
    decreases s.len(),
{
    if s.len() != 0 && is_param_char(s[0]) {
        lemma_param_run_le_len(s.skip(1));
    }
}

/// The parameter run is exactly the prefix of parameter characters.
pub proof fn lemma_param_run_len_is(s: Seq<char>, n: int)
    requires
        0 <= n <= s.len(),
        forall|t: int| 0 <= t < n ==> is_param_char(#[trigger] s[t]),
        n == s.len() || !is_param_char(s[n]),
    ensures
        param_run_len(s) == n,
    decreases s.len(),
{
    if n == 0 {
    } else {
        lemma_param_run_len_is(s.skip(1), n - 1);
    }
}

/// A parameter run that stops inside `a` is unchanged by appending `b`.
pub proof fn lemma_param_run_prefix(a: Seq<char>, b: Seq<char>)
    requires
        param_run_len(a) < a.len(),
    ensures
        param_run_len(a + b) == param_run_len(a),
    decreases a.len(),
{
    if !is_param_char(a[0]) {
        assert((a + b)[0] == a[0]);
    } else {
        lemma_param_run_le_len(a.skip(1));
        assert((a + b).skip(1) =~= a.skip(1) + b);
        lemma_param_run_prefix(a.skip(1), b);
    }
}

pub proof fn lemma_esc_len_bounds(s: Seq<char>)
    requires
        esc_len(s) is Some,
    ensures
        3 <= esc_len(s)->Some_0 <= s.len(),
{
    lemma_param_run_le_len(s.skip(2));
}

/// A complete escape sequence at the front of `a` is unchanged by
/// appending `b`.
pub proof fn lemma_esc_len_prefix(a: Seq<char>, b: Seq<char>)
    requires
        esc_len(a) is Some,
    ensures
        esc_len(a + b) == esc_len(a),
{
    let k = param_run_len(a.skip(2));
    assert((a + b).skip(2) =~= a.skip(2) + b);
    lemma_param_run_prefix(a.skip(2), b);
    assert((a + b)[2 + k as int] == a[2 + k as int]);
}

/// Well-formedness is kept by dropping a prefix.
pub proof fn lemma_wf_skip(s: Seq<char>, j: int)
    requires
        spec_wf(s),
        0 <= j <= s.len(),
    ensures
        spec_wf(s.skip(j)),
{
    assert forall|i: int|
        0 <= i < s.skip(j).len() && s.skip(j)[i] == '\u{1b}' implies (#[trigger] esc_len(
        s.skip(j).skip(i),
    )) is Some by {
        assert(s[j + i] == '\u{1b}');
        assert(s.skip(j).skip(i) =~= s.skip(j + i));
    }
}

/// Well-formedness is kept by concatenation.
pub proof fn lemma_wf_concat(a: Seq<char>, b: Seq<char>)
    requires
        spec_wf(a),
        spec_wf(b),
    ensures
        spec_wf(a + b),
{
    assert forall|i: int|
        0 <= i < (a + b).len() && (a + b)[i] == '\u{1b}' implies (#[trigger] esc_len(
        (a + b).skip(i),
    )) is Some by {
        if i < a.len() {
            assert(a[i] == '\u{1b}');
            assert(esc_len(a.skip(i)) is Some);
            lemma_esc_len_prefix(a.skip(i), b);
            assert((a + b).skip(i) =~= a.skip(i) + b);
        } else {
            assert(b[i - a.len()] == '\u{1b}');
            assert((a + b).skip(i) =~= b.skip(i - a.len()));
        }
    }
}

/// Text with no ESC character is well formed and kept whole by
/// stripping.
pub proof fn lemma_strip_no_esc_char(s: Seq<char>)
    requires
        forall|i: int| 0 <= i < s.len() ==> #[trigger] s[i] != '\u{1b}',
    ensures
        spec_wf(s),
        spec_strip(s) == s,
    decreases s.len(),
{
    if s.len() == 0 {
        assert(spec_strip(s) =~= s);
    } else {
        lemma_strip_no_esc_char(s.skip(1));
        assert(spec_strip(s) =~= seq![s[0]] + spec_strip(s.skip(1)));
        assert(seq![s[0]] + s.skip(1) =~= s);
    }
}

/// A string in which no position starts an escape sequence is kept
/// whole by stripping, so its visible width is its character count.
pub proof fn lemma_strip_no_escape(s: Seq<char>)
    requires
        forall|i: int| 0 <= i < s.len() ==> (#[trigger] esc_len(s.skip(i))) is None,
    ensures
        spec_strip(s) == s,
        spec_width(s) == s.len(),
    decreases s.len(),
{
    if s.len() == 0 {
        assert(spec_strip(s) =~= s);
    } else {
        assert(s.skip(0) =~= s);
        assert(esc_len(s) is None);
        assert forall|i: int|
            0 <= i < s.skip(1).len() implies (#[trigger] esc_len(s.skip(1).skip(i))) is None by {
            assert(s.skip(1).skip(i) =~= s.skip(1 + i));
        }
        lemma_strip_no_escape(s.skip(1));
        assert(seq![s[0]] + s.skip(1) =~= s);
    }
}

/// Stripping distributes over concatenation when every escape in the
/// left part is complete within it.
pub proof fn lemma_strip_concat(a: Seq<char>, b: Seq<char>)
    requires
        spec_wf(a),
    ensures
        spec_strip(a + b) == spec_strip(a) + spec_strip(b),
    decreases a.len(),
{
    if a.len() == 0 {
        assert(a + b =~= b);
        assert(spec_strip(a) + spec_strip(b) =~= spec_strip(b));
    } else if a[0] == '\u{1b}' {
        assert(a.skip(0) =~= a);
        let k = esc_len(a)->Some_0;
        lemma_esc_len_bounds(a);
        lemma_esc_len_prefix(a, b);
        assert((a + b).skip(k as int) =~= a.skip(k as int) + b);
        lemma_wf_skip(a, k as int);
        lemma_strip_concat(a.skip(k as int), b);
    } else {
        assert(esc_len(a) is None);
        assert((a + b)[0] == a[0]);
        assert(esc_len(a + b) is None);
        assert((a + b).skip(1) =~= a.skip(1) + b);
        lemma_wf_skip(a, 1);
        lemma_strip_concat(a.skip(1), b);
        assert(seq![a[0]] + (spec_strip(a.skip(1)) + spec_strip(b)) =~= (seq![a[0]] + spec_strip(
            a.skip(1),
        )) + spec_strip(b));
    }
}

/// Stripped well-formed text holds no ESC character at all.
pub proof fn lemma_strip_wf_no_esc(s: Seq<char>)
    requires
        spec_wf(s),
    ensures
        forall|i: int| 0 <= i < spec_strip(s).len() ==> #[trigger] spec_strip(s)[i] != '\u{1b}',
    decreases s.len(),
{
    if s.len() == 0 {
    } else if s[0] == '\u{1b}' {
        assert(s.skip(0) =~= s);
        let k = esc_len(s)->Some_0;
        lemma_esc_len_bounds(s);
        lemma_wf_skip(s, k as int);
        lemma_strip_wf_no_esc(s.skip(k as int));
        assert(spec_strip(s) == spec_strip(s.skip(k as int)));
    } else {
        assert(esc_len(s) is None);
        lemma_wf_skip(s, 1);
        lemma_strip_wf_no_esc(s.skip(1));
        assert forall|i: int| 0 <= i < spec_strip(s).len() implies #[trigger] spec_strip(s)[i]
            != '\u{1b}' by {
            assert(spec_strip(s) == seq![s[0]] + spec_strip(s.skip(1)));
            if i > 0 {
                assert(spec_strip(s)[i] == spec_strip(s.skip(1))[i - 1]);
            }
        }
    }
}

/// Stripping well-formed text is idempotent: stripping again changes
/// nothing, so the visible width of stripped text is the width of the
/// original.
pub proof fn lemma_strip_idempotent(s: Seq<char>)
    requires
        spec_wf(s),
    ensures
        spec_strip(spec_strip(s)) == spec_strip(s),
        spec_width(spec_strip(s)) == spec_width(s),
{
    lemma_strip_wf_no_esc(s);
    lemma_strip_no_esc_char(spec_strip(s));
}

fn is_param_char_ex(c: char) -> (r: bool)
    ensures
        r == is_param_char(c),
{
    let u = c as u32;
    c == ';' || (48 <= u && u <= 57)
}

/// Relies on std's `String::push`: appends one character.
#[verifier::external_body]
pub(crate) fn push_char(s: &mut String, c: char)
    ensures
        final(s)@ == old(s)@.push(c),
{
    s.push(c);
}

fn strip_from(s: &str, i: usize) -> (r: String)
    requires
        i <= s@.len(),
    ensures
        r@ == spec_strip(s@.skip(i as int)),
    decreases s@.len() - i,
{
    let n = s.unicode_len();
    if i == n {
        let r = String::new();
        assert(s@.skip(i as int) =~= Seq::<char>::empty());
        return r;
    }
    let c = s.get_char(i);
    assert(s@.skip(i as int)[0] == c);
    if c == '\u{1b}' && i + 1 < n && s.get_char(i + 1) == '[' {
        let mut j = i + 2;
        while j < n && is_param_char_ex(s.get_char(j))
            invariant
                i + 2 <= j <= n,
                n == s@.len(),
                forall|t: int| i + 2 <= t < j ==> is_param_char(#[trigger] s@[t]),
            decreases n - j,
        {
            j = j + 1;
        }
        proof {
            assert(s@.skip(i as int).skip(2) =~= s@.skip(i + 2));
            assert forall|t: int| 0 <= t < j - i - 2 implies is_param_char(
                #[trigger] s@.skip(i + 2)[t],
            ) by {
                assert(s@.skip(i + 2)[t] == s@[i + 2 + t]);
            }
            if (j as int) < n as int {
                assert(s@.skip(i + 2)[j - i - 2] == s@[j as int]);
            }
            lemma_param_run_len_is(s@.skip(i + 2), j - i - 2);
        }
        if j < n && s.get_char(j) == 'm' {
            assert(s@.skip(i as int)[2 + (j - i - 2)] == s@[j as int]);
            assert(esc_len(s@.skip(i as int)) == Some((j + 1 - i) as nat));
            let r = strip_from(s, j + 1);
            proof {
                assert(s@.skip(i as int).skip(j + 1 - i) =~= s@.skip(j + 1));
            }
            return r;
        }
        proof {
            if j == n {
                assert(2 + param_run_len(s@.skip(i as int).skip(2)) == s@.skip(i as int).len());
            } else {
                assert(s@.skip(i as int)[2 + (j - i - 2)] == s@[j as int]);
                assert(!is_param_char(s@[j as int]));
                assert(s@[j as int] != 'm');
            }
            assert(esc_len(s@.skip(i as int)) is None);
        }
        let mut r = String::new();
        push_char(&mut r, c);
        let rest = strip_from(s, i + 1);
        r.append(rest.as_str());
        proof {
            assert(s@.skip(i as int).skip(1) =~= s@.skip(i + 1));
            assert(r@ =~= seq![s@.skip(i as int)[0]] + spec_strip(s@.skip(i + 1)));
        }
        return r;
    }
    proof {
        if s@.skip(i as int).len() >= 2 {
            assert(s@.skip(i as int)[1] == s@[i + 1]);
        }
        assert(esc_len(s@.skip(i as int)) is None);
    }
    let mut r = String::new();
    push_char(&mut r, c);
    let rest = strip_from(s, i + 1);
    r.append(rest.as_str());
    proof {
        assert(s@.skip(i as int).skip(1) =~= s@.skip(i + 1));
        assert(r@ =~= seq![s@.skip(i as int)[0]] + spec_strip(s@.skip(i + 1)));
    }
    r
}

/// Remove every complete styling escape sequence from `s`.
pub fn strip_escapes(s: &str) -> (r: String)
    ensures
        r@ == spec_strip(s@),
{
    let r = strip_from(s, 0);
    proof {
        assert(s@.skip(0) =~= s@);
    }
    r
}

/// The number of character cells `s` occupies on the terminal: its
/// character count once styling escape sequences are removed.
pub fn visible_width(s: &str) -> (r: usize)
    ensures
        r == spec_width(s@),
{
    let stripped = strip_escapes(s);
    stripped.as_str().unicode_len()
}

} // verus!
