//! Decimal digit strings: the mathematical model of a non-negative integer
//! written in base ten, a verified printer for it, and a verified reader.
//!
//! The duration codec builds on this module: every numeric field of an
//! ISO-8601 duration is printed with [`push_decimal`] and read back with
//! [`parse_decimal_range`].

use vstd::prelude::*;
use vstd::string::StrSliceExecFns;
use vstd::string::StringExecFns;

verus! {

/// Is `c` one of the ten ASCII digits?
pub open spec fn is_digit(c: char) -> bool {
    48 <= c as u32 && c as u32 <= 57
}

/// The numeric value of a digit character.
pub open spec fn digit_val(c: char) -> int {
    c as u32 - 48
}

/// The digit character for a value below ten.
pub open spec fn char_of_digit(d: int) -> char {
    if d == 0 {
        '0'
    } else if d == 1 {
        '1'
    } else if d == 2 {
        '2'
    } else if d == 3 {
        '3'
    } else if d == 4 {
        '4'
    } else if d == 5 {
        '5'
    } else if d == 6 {
        '6'
    } else if d == 7 {
        '7'
    } else if d == 8 {
        '8'
    } else {
        '9'
    }
}

/// The base-ten digit string of `n`, most significant digit first, with no
/// leading zeros (`0` itself is the single digit `0`).
pub open spec fn dec_digits(n: nat) -> Seq<char>
    decreases n,
{
    if n < 10 {
        seq![char_of_digit(n as int)]
    } else {
        dec_digits(n / 10) + seq![char_of_digit((n % 10) as int)]
    }
}

/// Does `s` consist of digit characters only?
pub open spec fn all_digits(s: Seq<char>) -> bool {
    forall|i: int| 0 <= i < s.len() ==> is_digit(#[trigger] s[i])
}

/// The number that the digit string `s` denotes (left fold, most significant
/// digit first).
pub open spec fn dec_value(s: Seq<char>) -> int
    decreases s.len(),
{
    if s.len() == 0 {
        0
    } else {
        dec_value(s.drop_last()) * 10 + digit_val(s.last())
    }
}

/// A string of digits denotes a non-negative number.
pub proof fn lemma_dec_value_nonneg(s: Seq<char>)
    requires
        all_digits(s),
    ensures
        dec_value(s) >= 0,
    decreases s.len(),
{
    if s.len() > 0 {
        assert(all_digits(s.drop_last()));
        lemma_dec_value_nonneg(s.drop_last());
    }
}

/// The digit string of `n` is non-empty, holds digits only, and starts with
/// `0` only when `n` is zero.
pub proof fn lemma_dec_digits_shape(n: nat)
    ensures
        dec_digits(n).len() >= 1,
        all_digits(dec_digits(n)),
        dec_digits(n)[0] == '0' ==> n == 0,
    decreases n,
{
    if n >= 10 {
        lemma_dec_digits_shape(n / 10);
        assert forall|i: int| 0 <= i < dec_digits(n).len() implies is_digit(
            #[trigger] dec_digits(n)[i],
        ) by {
            if i < dec_digits(n / 10).len() {
                assert(dec_digits(n)[i] == dec_digits(n / 10)[i]);
            } else {
                assert(dec_digits(n)[i] == char_of_digit((n % 10) as int));
            }
        }
        assert(dec_digits(n)[0] == dec_digits(n / 10)[0]);
    }
}

/// Reading back the digit string of `n` yields `n`.
pub proof fn lemma_dec_digits_value(n: nat)
    ensures
        dec_value(dec_digits(n)) == n,
    decreases n,
{
    if n < 10 {
        assert(dec_digits(n).drop_last() =~= Seq::<char>::empty());
        assert(dec_digits(n).last() == char_of_digit(n as int));
        assert('0' as u32 == 48 && '1' as u32 == 49 && '2' as u32 == 50 && '3' as u32 == 51 && '4'
            as u32 == 52 && '5' as u32 == 53 && '6' as u32 == 54 && '7' as u32 == 55 && '8' as u32
            == 56 && '9' as u32 == 57);
        assert(dec_value(Seq::<char>::empty()) == 0);
    } else {
        lemma_dec_digits_value(n / 10);
        assert(dec_digits(n).drop_last() =~= dec_digits(n / 10));
        assert(dec_value(dec_digits(n)) == (n / 10) * 10 + n % 10);
        assert((n / 10) * 10 + n % 10 == n) by (nonlinear_arith);
    }
}

/// Appends one digit character to `out`.
fn push_digit(out: &mut String, d: u32)
    requires
        d < 10,
    ensures
        final(out)@ == old(out)@ + seq![char_of_digit(d as int)],
{
    proof {
        reveal_strlit("0");
        reveal_strlit("1");
        reveal_strlit("2");
        reveal_strlit("3");
        reveal_strlit("4");
        reveal_strlit("5");
        reveal_strlit("6");
        reveal_strlit("7");
        reveal_strlit("8");
        reveal_strlit("9");
    }
    if d == 0 {
        out.append("0");
    } else if d == 1 {
        out.append("1");
    } else if d == 2 {
        out.append("2");
    } else if d == 3 {
        out.append("3");
    } else if d == 4 {
        out.append("4");
    } else if d == 5 {
        out.append("5");
    } else if d == 6 {
        out.append("6");
    } else if d == 7 {
        out.append("7");
    } else if d == 8 {
        out.append("8");
    } else {
        out.append("9");
    }
    proof {
        assert((*out)@ =~= old(out)@ + seq![char_of_digit(d as int)]);
    }
}

/// Appends the base-ten digit string of `n` to `out`.
pub fn push_decimal(out: &mut String, n: u32)
    ensures
        final(out)@ == old(out)@ + dec_digits(n as nat),
    decreases n,
{
    if n >= 10 {
        push_decimal(out, n / 10);
        push_digit(out, n % 10);
        proof {
            assert((*out)@ =~= old(out)@ + dec_digits(n as nat));
        }
    } else {
        push_digit(out, n);
    }
}

/// What reading a digit field yields: its value, when the field is non-empty,
/// all digits, and small enough for a `u32`; nothing otherwise.
pub open spec fn parse_decimal_spec(f: Seq<char>) -> Option<u32> {
    if f.len() > 0 && all_digits(f) && dec_value(f) <= u32::MAX {
        Some(dec_value(f) as u32)
    } else {
        None
    }
}

/// Reads the characters `from .. to` of `s` as a base-ten `u32`.
pub fn parse_decimal_range(s: &str, from: usize, to: usize) -> (r: Option<u32>)
    requires
        from <= to <= s@.len(),
    ensures
        r == parse_decimal_spec(s@.subrange(from as int, to as int)),
{
    let ghost field = s@.subrange(from as int, to as int);
    if from == to {
        return None;
    }
    let mut val: u64 = 0;
    let mut idx: usize = from;
    while idx < to
        invariant
            from <= idx <= to <= s@.len(),
            field == s@.subrange(from as int, to as int),
            all_digits(field.take(idx - from)),
            if dec_value(field.take(idx - from)) <= u32::MAX {
                val == dec_value(field.take(idx - from))
            } else {
                val == u32::MAX as u64 + 1
            },
        decreases to - idx,
    {
        let c = s.get_char(idx);
        let cu = c as u32;
        if cu < 48 || cu > 57 {
            proof {
                assert(field[idx - from] == c);
                assert(!all_digits(field));
            }
            return None;
        }
        let d: u64 = (cu - 48) as u64;
        proof {
            assert(field.take(idx + 1 - from).drop_last() =~= field.take(idx - from));
            assert(field.take(idx + 1 - from).last() == c);
            assert(all_digits(field.take(idx + 1 - from)));
            lemma_dec_value_nonneg(field.take(idx - from));
        }
        if val > u32::MAX as u64 {
            // The value already overflows; further digits keep it overflowing.
            proof {
                assert(dec_value(field.take(idx - from)) * 10 >= dec_value(
                    field.take(idx - from),
                )) by (nonlinear_arith)
                    requires
                        dec_value(field.take(idx - from)) >= 0;
            }
        } else {
            let next = val * 10 + d;
            if next > u32::MAX as u64 {
                val = u32::MAX as u64 + 1;
            } else {
                val = next;
            }
        }
        idx = idx + 1;
    }
    proof {
        assert(field.take(to - from) =~= field);
    }
    if val > u32::MAX as u64 {
        None
    } else {
        Some(val as u32)
    }
}

} // verus!
