//! Decimal rendering of the integers the bar shows: tab positions, the
//! tick counter, and the zero-padded fields of the clock.

use vstd::prelude::*;

use crate::width::is_param_char;
use crate::width::push_char;

verus! {

pub open spec fn spec_digit(d: int) -> char {
    if d == 0 {
        '0'
    } else if d == 1 {
        '1'
    } else if d == 2 {
        '2'
    } else if d == 3 {
        '3'
    } else if d == 4 {
        '4'
    } else if d == 5 {
        '5'
    } else if d == 6 {
        '6'
    } else if d == 7 {
        '7'
    } else if d == 8 {
        '8'
    } else {
        '9'
    }
}

/// The decimal digits of `n`, most significant first.
pub open spec fn spec_dec(n: int) -> Seq<char>
    decreases n,
{
    if n < 10 {
        seq![spec_digit(n)]
    } else {
        spec_dec(n / 10).push(spec_digit(n % 10))
    }
}

/// `n` zero-padded to at least two digits.
pub open spec fn spec_pad2(n: int) -> Seq<char> {
    if n < 10 {
        seq!['0'] + spec_dec(n)
    } else {
        spec_dec(n)
    }
}

/// `n` zero-padded to at least four digits.
pub open spec fn spec_pad4(n: int) -> Seq<char> {
    if n < 10 {
        seq!['0', '0', '0'] + spec_dec(n)
    } else if n < 100 {
        seq!['0', '0'] + spec_dec(n)
    } else if n < 1000 {
        seq!['0'] + spec_dec(n)
    } else {
        spec_dec(n)
    }
}

/// Decimal text consists of digit characters only, so it is free of
/// escape bytes and legal inside an escape sequence's parameter run.
pub proof fn lemma_dec_digits(n: int)
    ensures
        forall|i: int|
            0 <= i < spec_dec(n).len() ==> is_param_char(#[trigger] spec_dec(n)[i]) && spec_dec(
                n,
            )[i] != '\u{1b}',
    decreases n,
{
    if n < 10 {
        assert forall|i: int| 0 <= i < spec_dec(n).len() implies is_param_char(
            #[trigger] spec_dec(n)[i],
        ) && spec_dec(n)[i] != '\u{1b}' by {
            assert(spec_dec(n)[i] == spec_digit(n));
            assert(is_param_char(spec_digit(n)));
        }
    } else {
        lemma_dec_digits(n / 10);
        assert forall|i: int| 0 <= i < spec_dec(n).len() implies is_param_char(
            #[trigger] spec_dec(n)[i],
        ) && spec_dec(n)[i] != '\u{1b}' by {
            if i < spec_dec(n).len() - 1 {
                assert(spec_dec(n)[i] == spec_dec(n / 10)[i]);
            } else {
                assert(spec_dec(n)[i] == spec_digit(n % 10));
                assert(is_param_char(spec_digit(n % 10)));
            }
        }
    }
}

/// How many digits a number has.
pub proof fn lemma_dec_len(n: int)
    requires
        0 <= n,
    ensures
        n < 10 ==> spec_dec(n).len() == 1,
        10 <= n < 100 ==> spec_dec(n).len() == 2,
        100 <= n < 1000 ==> spec_dec(n).len() == 3,
        1000 <= n < 10000 ==> spec_dec(n).len() == 4,
    decreases n,
{
    if n >= 10 {
        lemma_dec_len(n / 10);
    }
}

/// The zero-padded forms have their nominal length for the values the
/// clock supplies.
pub proof fn lemma_pad_len(n: int)
    requires
        0 <= n,
    ensures
        n < 100 ==> spec_pad2(n).len() == 2,
        n < 10000 ==> spec_pad4(n).len() == 4,
{
    lemma_dec_len(n);
}

pub proof fn lemma_pad2_no_esc(n: int)
    ensures
        forall|i: int| 0 <= i < spec_pad2(n).len() ==> #[trigger] spec_pad2(n)[i] != '\u{1b}',
{
    lemma_dec_digits(n);
    assert forall|i: int| 0 <= i < spec_pad2(n).len() implies #[trigger] spec_pad2(n)[i]
        != '\u{1b}' by {
        if n < 10 {
            if i == 0 {
                assert(spec_pad2(n)[0] == '0');
            } else {
                assert(spec_pad2(n)[i] == spec_dec(n)[i - 1]);
            }
        }
    }
}

pub proof fn lemma_pad4_no_esc(n: int)
    ensures
        forall|i: int| 0 <= i < spec_pad4(n).len() ==> #[trigger] spec_pad4(n)[i] != '\u{1b}',
{
    lemma_dec_digits(n);
    let z: int = if n < 10 {
        3
    } else if n < 100 {
        2
    } else if n < 1000 {
        1
    } else {
        0
    };
    assert forall|i: int| 0 <= i < spec_pad4(n).len() implies #[trigger] spec_pad4(n)[i]
        != '\u{1b}' by {
        if i >= z {
            assert(spec_pad4(n)[i] == spec_dec(n)[i - z]);
        }
    }
}

fn digit_char(d: usize) -> (c: char)
    requires
        d < 10,
    ensures
        c == spec_digit(d as int),
{
    if d == 0 {
        '0'
    } else if d == 1 {
        '1'
    } else if d == 2 {
        '2'
    } else if d == 3 {
        '3'
    } else if d == 4 {
        '4'
    } else if d == 5 {
        '5'
    } else if d == 6 {
        '6'
    } else if d == 7 {
        '7'
    } else if d == 8 {
        '8'
    } else {
        '9'
    }
}

/// `n` in decimal.
pub fn fmt_usize(n: usize) -> (s: String)
    ensures
        s@ == spec_dec(n as int),
    decreases n,
{
    if n < 10 {
        let mut s = String::new();
        push_char(&mut s, digit_char(n));
        proof {
            assert(s@ =~= seq![spec_digit(n as int)]);
        }
        s
    } else {
        let mut s = fmt_usize(n / 10);
        push_char(&mut s, digit_char(n % 10));
        s
    }
}

/// `n` in decimal, zero-padded to at least two digits.
pub fn fmt_pad2(n: usize) -> (s: String)
    ensures
        s@ == spec_pad2(n as int),
{
    if n < 10 {
        let mut s = String::new();
        push_char(&mut s, '0');
        push_char(&mut s, digit_char(n));
        proof {
            assert(s@ =~= seq!['0'] + spec_dec(n as int));
        }
        s
    } else {
        fmt_usize(n)
    }
}

/// `n` in decimal, zero-padded to at least four digits.
pub fn fmt_pad4(n: usize) -> (s: String)
    ensures
        s@ == spec_pad4(n as int),
{
    if n < 1000 {
        let mut s = String::new();
        push_char(&mut s, '0');
        if n < 100 {
            push_char(&mut s, '0');
        }
        if n < 10 {
            push_char(&mut s, '0');
        }
        let rest = fmt_usize(n);
        s.append(rest.as_str());
        proof {
            if n < 10 {
                assert(s@ =~= seq!['0', '0', '0'] + spec_dec(n as int));
            } else if n < 100 {
                assert(s@ =~= seq!['0', '0'] + spec_dec(n as int));
            } else {
                assert(s@ =~= seq!['0'] + spec_dec(n as int));
            }
        }
        s
    } else {
        fmt_usize(n)
    }
}

} // verus!
