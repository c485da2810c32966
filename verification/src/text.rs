//! Reading numbers from text the way the standard library's
//! `from_str_radix` does for unsigned integers.
use vstd::prelude::*;
use vstd::string::StrSliceExecFns;

verus! {

broadcast use vstd::string::group_string_axioms;

/// The value of a digit in `radix` (10 or 16), if `c` is one.
pub open spec fn spec_digit(c: char, radix: u32) -> Option<u32> {
    if '0' <= c <= '9' && (c as u32) - ('0' as u32) < radix {
        Some(((c as u32) - ('0' as u32)) as u32)
    } else if radix == 16 && 'a' <= c <= 'f' {
        Some(((c as u32) - ('a' as u32) + 10) as u32)
    } else if radix == 16 && 'A' <= c <= 'F' {
        Some(((c as u32) - ('A' as u32) + 10) as u32)
    } else {
        None
    }
}

/// The value of a digit in `radix` (10 or 16), if `c` is one.
fn digit(c: char, radix: u32) -> (r: Option<u32>)
    requires
        radix == 10 || radix == 16,
    ensures
        r == spec_digit(c, radix),
        r matches Some(d) ==> d < radix,
{
    if '0' <= c && c <= '9' && (c as u32) - ('0' as u32) < radix {
        Some((c as u32) - ('0' as u32))
    } else if radix == 16 && 'a' <= c && c <= 'f' {
        Some((c as u32) - ('a' as u32) + 10)
    } else if radix == 16 && 'A' <= c && c <= 'F' {
        Some((c as u32) - ('A' as u32) + 10)
    } else {
        None
    }
}

/// The number written with the digits `s` in `radix`; `None` when a
/// character is not a digit.
pub open spec fn spec_digits_value(s: Seq<char>, radix: u32) -> Option<int>
    decreases s.len(),
{
    if s.len() == 0 {
        Some(0)
    } else {
        match (spec_digits_value(s.drop_last(), radix), spec_digit(s.last(), radix)) {
            (Some(v), Some(d)) => Some(v * radix + d),
            _ => None,
        }
    }
}

/// What `from_str_radix` gives for an unsigned type with maximum `max`:
/// an optional `+`, then at least one digit, the value at most `max`.
pub open spec fn spec_parse_unsigned(s: Seq<char>, radix: u32, max: int) -> Option<int> {
    let digits = if s.len() > 0 && s[0] == '+' { s.drop_first() } else { s };
    if digits.len() == 0 {
        None
    } else {
        match spec_digits_value(digits, radix) {
            Some(v) => if v <= max { Some(v) } else { None },
            None => None,
        }
    }
}

proof fn lemma_digits_value_nonneg(s: Seq<char>, radix: u32)
    requires
        radix == 10 || radix == 16,
    ensures
        spec_digits_value(s, radix) is Some ==> spec_digits_value(s, radix)->Some_0 >= 0,
        spec_digits_value(s, radix) is Some ==> forall|k: int| 0 <= k <= s.len() ==>
            (#[trigger] spec_digits_value(s.take(k), radix)) is Some
            && spec_digits_value(s.take(k), radix)->Some_0 <= spec_digits_value(s, radix)->Some_0,
    decreases s.len(),
{
    if s.len() > 0 {
        lemma_digits_value_nonneg(s.drop_last(), radix);
        if spec_digits_value(s, radix) is Some {
            let v = spec_digits_value(s, radix)->Some_0;
            let w0 = spec_digits_value(s.drop_last(), radix)->Some_0;
            let d = spec_digit(s.last(), radix)->Some_0;
            assert(w0 * radix + d >= w0) by (nonlinear_arith)
                requires w0 >= 0, radix >= 1, d >= 0;
            assert forall|k: int| 0 <= k <= s.len() implies
                (#[trigger] spec_digits_value(s.take(k), radix)) is Some
                && spec_digits_value(s.take(k), radix)->Some_0 <= v by {
                if k == s.len() {
                    assert(s.take(k) =~= s);
                } else {
                    assert(s.take(k) =~= s.drop_last().take(k));
                }
            }
        }
    } else {
        assert forall|k: int| 0 <= k <= s.len() implies
            (#[trigger] spec_digits_value(s.take(k), radix)) is Some
            && spec_digits_value(s.take(k), radix)->Some_0 <= 0 by {
            assert(s.take(k) =~= s);
        }
    }
}

/// Parse an unsigned number the way `from_str_radix` does for a type
/// with maximum `max` (see `spec_parse_unsigned`).
pub fn parse_unsigned(s: &str, radix: u32, max: u64) -> (r: Option<u64>)
    requires
        radix == 10 || radix == 16,
    ensures
        match spec_parse_unsigned(s@, radix, max as int) {
            Some(v) => r == Some(v as u64) && 0 <= v <= max,
            None => r is None,
        },
{
    let n = s.unicode_len();
    let mut i: usize = 0;
    if n > 0 && s.get_char(0) == '+' {
        i = 1;
    }
    let ghost digits = s@.skip(i as int);
    proof {
        if n > 0 && s@[0] == '+' {
            assert(digits =~= s@.drop_first());
        } else {
            assert(digits =~= s@);
        }
    }
    if i == n {
        return None;
    }
    let start = i;
    let mut value: u64 = 0;
    while i < n
        invariant
            n == s@.len(),
            radix == 10 || radix == 16,
            start <= i <= n,
            digits == s@.skip(start as int),
            digits == (if s@.len() > 0 && s@[0] == '+' { s@.drop_first() } else { s@ }),
            start < n,
            spec_digits_value(digits.take(i - start), radix) == Some(value as int),
            value <= max,
        decreases n - i,
    {
        let c = s.get_char(i);
        proof {
            assert(digits.take(i - start + 1).drop_last() =~= digits.take(i - start));
            assert(digits.take(i - start + 1).last() == c);
        }
        let d = match digit(c, radix) {
            Some(d) => d,
            None => {
                proof {
                    lemma_prefix_none(digits, (i - start + 1) as int, radix);
                }
                return None;
            },
        };
        let next = match value.checked_mul(radix as u64) {
            Some(m) => m.checked_add(d as u64),
            None => None,
        };
        match next {
            Some(v) if v <= max => {
                value = v;
            },
            _ => {
                proof {
                    let w = value as int * radix + d;
                    assert(spec_digits_value(digits.take(i - start + 1), radix) == Some(w));
                    assert(w > max) by (nonlinear_arith)
                        requires
                            next is None || next->Some_0 > max,
                            next is Some ==> next->Some_0 == value * radix + d,
                            next is None ==> value * radix + d > u64::MAX,
                            max <= u64::MAX,
                            w == value * radix + d;
                    lemma_digits_value_nonneg(digits, radix);
                    if spec_digits_value(digits, radix) is Some {
                        assert(spec_digits_value(digits.take(i - start + 1), radix) is Some);
                    }
                }
                return None;
            },
        }
        i = i + 1;
    }
    proof {
        assert(digits.take(n - start) =~= digits);
    }
    Some(value)
}

/// A prefix with a non-digit makes the whole value undefined.
proof fn lemma_prefix_none(s: Seq<char>, k: int, radix: u32)
    requires
        0 <= k <= s.len(),
        spec_digits_value(s.take(k), radix) is None,
    ensures
        spec_digits_value(s, radix) is None,
    decreases s.len() - k,
{
    if k < s.len() {
        assert(s.take(k + 1).drop_last() =~= s.take(k));
        lemma_prefix_none(s, k + 1, radix);
    } else {
        assert(s.take(k) =~= s);
    }
}


} // verus!
