//! ISO-8601 duration strings: `P{days}DT{hours}H{minutes}M{seconds}S`.
//!
//! The encoder always writes the `P{d}D` part (with `0` days written out) and
//! writes the `T...` part only when at least one time component is non-zero;
//! the exact zero duration is the literal `P0DT0S`.  The decoder accepts that
//! literal as a dedicated fast path and otherwise demands the full
//! `P<d>DT<h>H<m>M<s>S` structure, each field a non-empty string of digits
//! denoting a value that fits a `u32`.

use crate::decimal::dec_digits;
use crate::decimal::is_digit;
use crate::decimal::lemma_dec_digits_shape;
use crate::decimal::lemma_dec_digits_value;
use crate::decimal::parse_decimal_range;
use crate::decimal::parse_decimal_spec;
use crate::decimal::push_decimal;
use vstd::prelude::*;
use vstd::string::StrSliceExecFns;
use vstd::string::StringExecFns;

verus! {

/// The dedicated spelling of the zero duration.
pub open spec fn zero_duration() -> Seq<char> {
    seq!['P', '0', 'D', 'T', '0', 'S']
}

/// The encoding of a duration given as days, hours, minutes and seconds.
pub open spec fn encode_dhms(d: u32, h: u32, m: u32, s: u32) -> Seq<char> {
    let day_part = seq!['P'] + dec_digits(d as nat) + seq!['D'];
    let time_part = if h > 0 || m > 0 || s > 0 {
        seq!['T'] + dec_digits(h as nat) + seq!['H'] + dec_digits(m as nat) + seq!['M']
            + dec_digits(s as nat) + seq!['S']
    } else {
        seq!['T', '0', 'S']
    };
    day_part + time_part
}

/// The first position at or after `i` where the pair `DT` starts.
pub open spec fn spec_find_dt(s: Seq<char>, i: int) -> Option<int>
    decreases s.len() - i,
{
    if i < 0 || i + 1 >= s.len() {
        None
    } else if s[i] == 'D' && s[i + 1] == 'T' {
        Some(i)
    } else {
        spec_find_dt(s, i + 1)
    }
}

/// The first position at or after `i` holding the character `c`.
pub open spec fn spec_find_char(s: Seq<char>, c: char, i: int) -> Option<int>
    decreases s.len() - i,
{
    if i < 0 || i >= s.len() {
        None
    } else if s[i] == c {
        Some(i)
    } else {
        spec_find_char(s, c, i + 1)
    }
}

/// What decoding a duration string yields: the four components for a
/// well-formed string, nothing for any other.
pub open spec fn parse_duration_spec(s: Seq<char>) -> Option<(u32, u32, u32, u32)> {
    if s.len() >= 6 && s.subrange(0, 6) == zero_duration() {
        Some((0, 0, 0, 0))
    } else if s.len() == 0 || s[0] != 'P' {
        None
    } else {
        match spec_find_dt(s, 1) {
            None => None,
            Some(i) => match spec_find_char(s, 'H', i + 2) {
                None => None,
                Some(j) => match spec_find_char(s, 'M', j + 1) {
                    None => None,
                    Some(k) => if k + 1 < s.len() && s[s.len() - 1] == 'S' {
                        match (
                            parse_decimal_spec(s.subrange(1, i)),
                            parse_decimal_spec(s.subrange(i + 2, j)),
                            parse_decimal_spec(s.subrange(j + 1, k)),
                            parse_decimal_spec(s.subrange(k + 1, s.len() - 1)),
                        ) {
                            (Some(days), Some(hours), Some(minutes), Some(seconds)) => Some(
                                (days, hours, minutes, seconds),
                            ),
                            _ => None,
                        }
                    } else {
                        None
                    },
                },
            },
        }
    }
}

/// A found `DT` pair lies in range and matches.
proof fn lemma_find_dt_props(s: Seq<char>, i: int)
    requires
        spec_find_dt(s, i) is Some,
    ensures
        i <= spec_find_dt(s, i)->Some_0,
        spec_find_dt(s, i)->Some_0 + 1 < s.len(),
        s[spec_find_dt(s, i)->Some_0] == 'D',
        s[spec_find_dt(s, i)->Some_0 + 1] == 'T',
    decreases s.len() - i,
{
    if !(i < 0 || i + 1 >= s.len()) && !(s[i] == 'D' && s[i + 1] == 'T') {
        lemma_find_dt_props(s, i + 1);
    }
}

/// A found character lies in range and matches.
proof fn lemma_find_char_props(s: Seq<char>, c: char, i: int)
    requires
        spec_find_char(s, c, i) is Some,
    ensures
        i <= spec_find_char(s, c, i)->Some_0 < s.len(),
        s[spec_find_char(s, c, i)->Some_0] == c,
    decreases s.len() - i,
{
    if !(i < 0 || i >= s.len()) && s[i] != c {
        lemma_find_char_props(s, c, i + 1);
    }
}

/// Searching from `start` finds exactly the pair at `k` when no earlier
/// position matches.
proof fn lemma_find_dt_at(s: Seq<char>, start: int, k: int)
    requires
        0 <= start <= k,
        k + 1 < s.len(),
        s[k] == 'D',
        s[k + 1] == 'T',
        forall|j: int| start <= j < k ==> !(#[trigger] s[j] == 'D' && s[j + 1] == 'T'),
    ensures
        spec_find_dt(s, start) == Some(k),
    decreases k - start,
{
    if start < k {
        lemma_find_dt_at(s, start + 1, k);
    }
}

/// Searching from `start` finds exactly the character at `k` when no earlier
/// position matches.
proof fn lemma_find_char_at(s: Seq<char>, c: char, start: int, k: int)
    requires
        0 <= start <= k < s.len(),
        s[k] == c,
        forall|j: int| start <= j < k ==> s[j] != c,
    ensures
        spec_find_char(s, c, start) == Some(k),
    decreases k - start,
{
    if start < k {
        lemma_find_char_at(s, c, start + 1, k);
    }
}

/// Digit characters are not the letters the decoder splits on.
proof fn lemma_digit_not_letter(c: char)
    requires
        is_digit(c),
    ensures
        c != 'D' && c != 'T' && c != 'H' && c != 'M' && c != 'S' && c != 'P',
{
}

/// Decoding inverts encoding: every duration whose time part is non-zero, and
/// the zero duration itself, decodes back to its components.  (A positive
/// whole number of days with a zero time part encodes to a string the decoder
/// rejects, so those durations are left out.)
#[verifier::rlimit(100)]
pub proof fn lemma_duration_round_trip(d: u32, h: u32, m: u32, s: u32)
    requires
        !(d > 0 && h == 0 && m == 0 && s == 0),
    ensures
        parse_duration_spec(encode_dhms(d, h, m, s)) == Some((d, h, m, s)),
{
    let enc = encode_dhms(d, h, m, s);
    lemma_dec_digits_shape(d as nat);
    lemma_dec_digits_shape(h as nat);
    lemma_dec_digits_shape(m as nat);
    lemma_dec_digits_shape(s as nat);
    lemma_dec_digits_value(d as nat);
    lemma_dec_digits_value(h as nat);
    lemma_dec_digits_value(m as nat);
    lemma_dec_digits_value(s as nat);
    let dd = dec_digits(d as nat);
    let hh = dec_digits(h as nat);
    let mm = dec_digits(m as nat);
    let ss = dec_digits(s as nat);
    let dl = dd.len() as int;
    let hl = hh.len() as int;
    let ml = mm.len() as int;
    let sl = ss.len() as int;
    if h == 0 && m == 0 && s == 0 {
        // The zero duration: d is zero too, and the encoding is the literal.
        assert(dd =~= seq!['0']);
        assert(enc =~= zero_duration());
        assert(enc.subrange(0, 6) =~= zero_duration());
    } else {
        assert(enc =~= seq!['P'] + dd + seq!['D', 'T'] + hh + seq!['H'] + mm + seq!['M'] + ss
            + seq!['S']);
        let len = enc.len() as int;
        assert(len == 6 + dl + hl + ml + sl);
        // Where each character of the encoding lies.
        assert(enc[0] == 'P');
        assert forall|x: int| 1 <= x < 1 + dl implies enc[x] == dd[x - 1] by {}
        assert(enc[1 + dl] == 'D');
        assert(enc[2 + dl] == 'T');
        assert forall|x: int| 3 + dl <= x < 3 + dl + hl implies enc[x] == hh[x - 3 - dl] by {}
        assert(enc[3 + dl + hl] == 'H');
        assert forall|x: int| 4 + dl + hl <= x < 4 + dl + hl + ml implies enc[x] == mm[x - 4 - dl
            - hl] by {}
        assert(enc[4 + dl + hl + ml] == 'M');
        assert forall|x: int| 5 + dl + hl + ml <= x < 5 + dl + hl + ml + sl implies enc[x] == ss[x
            - 5 - dl - hl - ml] by {}
        assert(enc[len - 1] == 'S');
        // The fast path does not fire: the first six characters differ from
        // the zero literal.
        if enc.subrange(0, 6) == zero_duration() {
            assert(enc[1] == '0' && enc[4] == '0' && enc[5] == 'S');
            if d > 0 {
                assert(enc[1] == dd[0]);
                assert(false);
            } else {
                assert(dd =~= seq!['0']);
                assert(enc[4] == hh[0]);
                assert(h == 0);
                assert(hh =~= seq!['0']);
                assert(enc[5] == 'H');
                assert(false);
            }
        }
        // The day field ends at the first `DT` pair.
        assert forall|j: int| 1 <= j < 1 + dl implies !(#[trigger] enc[j] == 'D' && enc[j + 1] == 'T') by {
            lemma_digit_not_letter(dd[j - 1]);
        }
        lemma_find_dt_at(enc, 1, 1 + dl);
        assert(enc.subrange(1, 1 + dl) =~= dd);
        // The hour field ends at the first `H` after the pair.
        assert forall|j: int| 3 + dl <= j < 3 + dl + hl implies enc[j] != 'H' by {
            lemma_digit_not_letter(hh[j - 3 - dl]);
        }
        lemma_find_char_at(enc, 'H', 3 + dl, 3 + dl + hl);
        assert(enc.subrange(3 + dl, 3 + dl + hl) =~= hh);
        // The minute field ends at the first `M` after the `H`.
        assert forall|j: int| 4 + dl + hl <= j < 4 + dl + hl + ml implies enc[j] != 'M' by {
            lemma_digit_not_letter(mm[j - 4 - dl - hl]);
        }
        lemma_find_char_at(enc, 'M', 4 + dl + hl, 4 + dl + hl + ml);
        assert(enc.subrange(4 + dl + hl, 4 + dl + hl + ml) =~= mm);
        assert(enc.subrange(4 + dl + hl + ml + 1, len - 1) =~= ss);
        // Each field reads back as the component it encodes.
        assert(parse_decimal_spec(dd) == Some(d));
        assert(parse_decimal_spec(hh) == Some(h));
        assert(parse_decimal_spec(mm) == Some(m));
        assert(parse_decimal_spec(ss) == Some(s));
    }
}

/// Appends the encoding of the duration `(d, h, m, s)` to a fresh string.
pub fn encode_duration(d: u32, h: u32, m: u32, s: u32) -> (r: String)
    ensures
        r@ == encode_dhms(d, h, m, s),
{
    proof {
        reveal_strlit("P");
        reveal_strlit("D");
        reveal_strlit("T");
        reveal_strlit("H");
        reveal_strlit("M");
        reveal_strlit("S");
        reveal_strlit("T0S");
    }
    let mut out = String::new();
    out.append("P");
    push_decimal(&mut out, d);
    out.append("D");
    if h > 0 || m > 0 || s > 0 {
        out.append("T");
        push_decimal(&mut out, h);
        out.append("H");
        push_decimal(&mut out, m);
        out.append("M");
        push_decimal(&mut out, s);
        out.append("S");
    } else {
        out.append("T0S");
    }
    proof {
        assert(out@ =~= encode_dhms(d, h, m, s));
    }
    out
}

/// Does `input` begin with the six characters of the zero-duration literal?
fn starts_with_zero_literal(input: &str) -> (r: bool)
    ensures
        r == (input@.len() >= 6 && input@.subrange(0, 6) == zero_duration()),
{
    let len = input.unicode_len();
    if len < 6 {
        return false;
    }
    let c0 = input.get_char(0);
    let c1 = input.get_char(1);
    let c2 = input.get_char(2);
    let c3 = input.get_char(3);
    let c4 = input.get_char(4);
    let c5 = input.get_char(5);
    let r = c0 == 'P' && c1 == '0' && c2 == 'D' && c3 == 'T' && c4 == '0' && c5 == 'S';
    proof {
        if r {
            assert(input@.subrange(0, 6) =~= zero_duration());
        } else {
            assert(input@.subrange(0, 6) != zero_duration());
        }
    }
    r
}

/// Finds the first `DT` pair at or after `start`.
fn find_dt(input: &str, start: usize) -> (r: Option<usize>)
    requires
        start <= input@.len(),
    ensures
        match r {
            Some(u) => spec_find_dt(input@, start as int) == Some(u as int),
            None => spec_find_dt(input@, start as int) is None,
        },
{
    let len = input.unicode_len();
    let mut i = start;
    while i < len
        invariant
            start <= i <= len == input@.len(),
            spec_find_dt(input@, start as int) == spec_find_dt(input@, i as int),
        decreases len - i,
    {
        if i + 1 >= len {
            return None;
        }
        if input.get_char(i) == 'D' && input.get_char(i + 1) == 'T' {
            return Some(i);
        }
        i = i + 1;
    }
    None
}

/// Finds the first occurrence of `c` at or after `start`.
fn find_char(input: &str, c: char, start: usize) -> (r: Option<usize>)
    requires
        start <= input@.len(),
    ensures
        match r {
            Some(u) => spec_find_char(input@, c, start as int) == Some(u as int),
            None => spec_find_char(input@, c, start as int) is None,
        },
{
    let len = input.unicode_len();
    let mut i = start;
    while i < len
        invariant
            start <= i <= len == input@.len(),
            spec_find_char(input@, c, start as int) == spec_find_char(input@, c, i as int),
        decreases len - i,
    {
        if input.get_char(i) == c {
            return Some(i);
        }
        i = i + 1;
    }
    None
}

/// Decodes an ISO-8601 duration string into its four components.
pub fn decode_duration(input: &str) -> (r: Option<(u32, u32, u32, u32)>)
    ensures
        r == parse_duration_spec(input@),
{
    if starts_with_zero_literal(input) {
        return Some((0, 0, 0, 0));
    }
    let len = input.unicode_len();
    if len == 0 || input.get_char(0) != 'P' {
        return None;
    }
    let i = match find_dt(input, 1) {
        Some(i) => i,
        None => {
            return None;
        },
    };
    proof {
        lemma_find_dt_props(input@, 1);
    }
    let j = match find_char(input, 'H', i + 2) {
        Some(j) => j,
        None => {
            return None;
        },
    };
    proof {
        lemma_find_char_props(input@, 'H', i + 2);
    }
    let k = match find_char(input, 'M', j + 1) {
        Some(k) => k,
        None => {
            return None;
        },
    };
    proof {
        lemma_find_char_props(input@, 'M', j + 1);
    }
    if !(k + 1 < len && input.get_char(len - 1) == 'S') {
        return None;
    }
    let days = match parse_decimal_range(input, 1, i) {
        Some(v) => v,
        None => {
            return None;
        },
    };
    let hours = match parse_decimal_range(input, i + 2, j) {
        Some(v) => v,
        None => {
            return None;
        },
    };
    let minutes = match parse_decimal_range(input, j + 1, k) {
        Some(v) => v,
        None => {
            return None;
        },
    };
    let seconds = match parse_decimal_range(input, k + 1, len - 1) {
        Some(v) => v,
        None => {
            return None;
        },
    };
    Some((days, hours, minutes, seconds))
}

} // verus!
