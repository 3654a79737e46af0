//! Unsigned decimal numbers, read as std's `FromStr` for unsigned integers
//! reads them.
use vstd::prelude::*;
use vstd::string::StrSliceExecFns;

verus! {

/// The value of a string of decimal digits.
pub open spec fn decimal_value(s: Seq<char>) -> nat
    decreases s.len(),
{
    if s.len() == 0 {
        0
    } else {
        decimal_value(s.drop_last()) * 10 + (s.last() as nat - '0' as nat) as nat
    }
}

pub open spec fn all_digits(s: Seq<char>) -> bool {
    forall|i: int| 0 <= i < s.len() ==> '0' <= #[trigger] s[i] <= '9'
}

/// The digits of an unsigned integer literal: an optional `+`, then the rest.
pub open spec fn unsigned_digits(s: Seq<char>) -> Seq<char> {
    if s.len() > 0 && s[0] == '+' {
        s.drop_first()
    } else {
        s
    }
}

/// What std's `FromStr` for an unsigned integer type with largest value
/// `max` accepts: an optional `+` followed by at least one digit, denoting a
/// value no larger than `max`.
pub open spec fn parses_unsigned(s: Seq<char>, max: nat) -> bool {
    let d = unsigned_digits(s);
    d.len() > 0 && all_digits(d) && decimal_value(d) <= max
}

/// A longer string of digits has at least the value of its prefix.
proof fn lemma_prefix_value(s: Seq<char>, k: int)
    requires
        all_digits(s),
        0 <= k <= s.len(),
    ensures
        decimal_value(s.take(k)) <= decimal_value(s),
    decreases s.len(),
{
    if k == s.len() {
        assert(s.take(k) =~= s);
    } else {
        let t = s.drop_last();
        assert(t.take(k) =~= s.take(k));
        lemma_prefix_value(t, k);
        let a = decimal_value(t);
        assert(a <= a * 10) by (nonlinear_arith);
    }
}

/// The number that `s` denotes, if it is an optional `+` and decimal digits
/// whose value is at most `max`.
pub fn parse_unsigned(s: &str, max: u64) -> (r: Option<u64>)
    ensures
        r is Some <==> parses_unsigned(s@, max as nat),
        r matches Some(v) ==> v as nat == decimal_value(unsigned_digits(s@)),
{
    let n = s.unicode_len();
    let mut start: usize = 0;
    if n > 0 && s.get_char(0) == '+' {
        start = 1;
    }
    let ghost d = unsigned_digits(s@);
    assert(d =~= s@.skip(start as int));
    if start == n {
        return None;
    }
    let mut v: u64 = 0;
    let mut i: usize = start;
    assert(d.take(0) =~= Seq::<char>::empty());
    while i < n
        invariant
            n == s@.len(),
            start <= i <= n,
            start < n,
            d == s@.skip(start as int),
            d == unsigned_digits(s@),
            all_digits(d.take(i - start)),
            v as nat == decimal_value(d.take(i - start)),
            v <= max,
        decreases n - i,
    {
        let c = s.get_char(i);
        let k = i - start;
        assert(d[k as int] == c);
        if !('0' <= c && c <= '9') {
            assert(!all_digits(d));
            return None;
        }
        let digit = (c as u32 - '0' as u32) as u64;
        assert(d.take(k + 1).drop_last() =~= d.take(k as int));
        assert(d.take(k + 1).last() == c);
        assert(digit as nat == (c as nat - '0' as nat) as nat);
        if digit > max || v > (max - digit) / 10 {
            proof {
                assert(v * 10 + digit > max) by (nonlinear_arith)
                    requires
                        digit > max || v > (max - digit) / 10,
                        v >= 0,
                ;
                if all_digits(d) {
                    lemma_prefix_value(d, k + 1);
                }
            }
            return None;
        }
        proof {
            assert(v * 10 + digit <= max) by (nonlinear_arith)
                requires
                    v <= (max - digit) / 10,
                    digit <= max,
            ;
        }
        v = v * 10 + digit;
        assert(all_digits(d.take(k + 1))) by {
            assert forall|j: int| 0 <= j < k + 1 implies '0' <= #[trigger] d.take(k + 1)[j] <= '9' by {
                if j < k {
                    assert(d.take(k + 1)[j] == d.take(k as int)[j]);
                }
            }
        }
        i = i + 1;
    }
    assert(d.take(n - start) =~= d);
    Some(v)
}

pub fn parse_u32(s: &str) -> (r: Option<u32>)
    ensures
        r is Some <==> parses_unsigned(s@, u32::MAX as nat),
        r matches Some(v) ==> v as nat == decimal_value(unsigned_digits(s@)),
{
    match parse_unsigned(s, u32::MAX as u64) {
        Some(v) => Some(v as u32),
        None => None,
    }
}

pub fn parse_usize(s: &str) -> (r: Option<usize>)
    ensures
        r is Some <==> parses_unsigned(s@, usize::MAX as nat),
        r matches Some(v) ==> v as nat == decimal_value(unsigned_digits(s@)),
{
    match parse_unsigned(s, usize::MAX as u64) {
        Some(v) => Some(v as usize),
        None => None,
    }
}

} // verus!
