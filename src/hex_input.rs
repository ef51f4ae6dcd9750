//! Reading a byte value typed in hexadecimal.

use vstd::prelude::*;

verus! {

/// Value of a hexadecimal digit of either case.
pub open spec fn hex_digit_value(c: char) -> Option<int> {
    if '0' <= c <= '9' {
        Some(c as int - '0' as int)
    } else if 'a' <= c <= 'f' {
        Some(c as int - 'a' as int + 10)
    } else if 'A' <= c <= 'F' {
        Some(c as int - 'A' as int + 10)
    } else {
        None
    }
}

pub open spec fn all_hex_digits(s: Seq<char>) -> bool {
    forall|i: int| 0 <= i < s.len() ==> (#[trigger] hex_digit_value(s[i])) is Some
}

/// Value of a string of hexadecimal digits, most significant first.
pub open spec fn hex_digits_value(s: Seq<char>) -> int
    decreases s.len(),
{
    if s.len() == 0 {
        0
    } else {
        hex_digits_value(s.drop_last()) * 16 + hex_digit_value(s.last())->0
    }
}

/// The digits of a typed value: a single leading `+` is allowed before them.
pub open spec fn value_digits(s: Seq<char>) -> Seq<char> {
    if s.len() > 1 && s[0] == '+' {
        s.subrange(1, s.len() as int)
    } else {
        s
    }
}

/// The byte that `s` spells in hexadecimal, if it spells one: at least one
/// digit, nothing but digits after an optional `+`, and a value below 256.
pub open spec fn hex_byte_of(s: Seq<char>) -> Option<u8> {
    let d = value_digits(s);
    if d.len() > 0 && all_hex_digits(d) && hex_digits_value(d) <= 255 {
        Some(hex_digits_value(d) as u8)
    } else {
        None
    }
}

fn digit_value(c: char) -> (r: Option<u8>)
    ensures
        match hex_digit_value(c) {
            Some(v) => r == Some(v as u8),
            None => r is None,
        },
{
    if '0' <= c && c <= '9' {
        Some((c as u32 - '0' as u32) as u8)
    } else if 'a' <= c && c <= 'f' {
        Some((c as u32 - 'a' as u32 + 10) as u8)
    } else if 'A' <= c && c <= 'F' {
        Some((c as u32 - 'A' as u32 + 10) as u8)
    } else {
        None
    }
}

/// Parses a byte value typed in hexadecimal, such as `1F` or `ff`; `None`
/// when the text is empty, holds a character that is not a hex digit, or
/// stands for a value above `FF`.
pub fn parse_hex_byte(s: &str) -> (r: Option<u8>)
    ensures
        r == hex_byte_of(s@),
{
    let n: usize = s.unicode_len();
    let start: usize = if n > 1 && s.get_char(0) == '+' {
        1
    } else {
        0
    };
    let ghost d = value_digits(s@);
    assert(d =~= s@.subrange(start as int, n as int));
    if start == n {
        return None;
    }
    let mut value: u32 = 0;
    let mut too_large: bool = false;
    let mut i: usize = start;
    while i < n
        invariant
            start <= i <= n,
            n == s@.len(),
            d == s@.subrange(start as int, n as int),
            d == value_digits(s@),
            all_hex_digits(d.subrange(0, i - start)),
            too_large <==> hex_digits_value(d.subrange(0, i - start)) > 255,
            !too_large ==> value as int == hex_digits_value(d.subrange(0, i - start)),
            value <= 255,
        decreases n - i,
    {
        let c = s.get_char(i);
        let ghost prefix = d.subrange(0, i - start);
        let ghost next = d.subrange(0, i + 1 - start);
        assert(next.drop_last() =~= prefix);
        assert(next.last() == c);
        match digit_value(c) {
            None => {
                assert(!all_hex_digits(d)) by {
                    assert(hex_digit_value(d[i - start]) is None);
                }
                return None;
            },
            Some(v) => {
                assert(all_hex_digits(next)) by {
                    assert forall|k: int| 0 <= k < next.len() implies (#[trigger] hex_digit_value(
                        next[k],
                    )) is Some by {
                        if k < prefix.len() {
                            assert(next[k] == prefix[k]);
                        }
                    }
                }
                if !too_large {
                    let total: u32 = value * 16 + v as u32;
                    if total > 255 {
                        too_large = true;
                    } else {
                        value = total;
                    }
                } else {
                    assert(hex_digits_value(next) > 255) by (nonlinear_arith)
                        requires
                            hex_digits_value(next) == hex_digits_value(prefix) * 16 + v,
                            hex_digits_value(prefix) > 255,
                            v >= 0,
                    ;
                }
            },
        }
        i = i + 1;
    }
    assert(d.subrange(0, n - start) =~= d);
    if too_large {
        None
    } else {
        Some(value as u8)
    }
}

} // verus!
