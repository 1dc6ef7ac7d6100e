use vstd::prelude::*;

verus! {

pub open spec fn is_dec_digit(c: char) -> bool {
    '0' <= c && c <= '9'
}

pub open spec fn digit_val(c: char) -> int {
    c as int - '0' as int
}

pub open spec fn all_dec_digits(s: Seq<char>) -> bool {
    forall|i: int| 0 <= i < s.len() ==> is_dec_digit(#[trigger] s[i])
}

/// Numeric value of a digit string, most significant digit first.
pub open spec fn dec_val(s: Seq<char>) -> int
    decreases s.len(),
{
    if s.len() == 0 {
        0
    } else {
        dec_val(s.drop_last()) * 10 + digit_val(s.last())
    }
}

pub open spec fn digit_char(d: int) -> char {
    if d == 0 {
        '0'
    } else if d == 1 {
        '1'
    } else if d == 2 {
        '2'
    } else if d == 3 {
        '3'
    } else if d == 4 {
        '4'
    } else if d == 5 {
        '5'
    } else if d == 6 {
        '6'
    } else if d == 7 {
        '7'
    } else if d == 8 {
        '8'
    } else {
        '9'
    }
}

/// Canonical decimal digits of a non-negative number: no sign, no leading
/// zero except for the number zero itself.
pub open spec fn dec_digits(n: int) -> Seq<char>
    decreases n,
{
    if n <= 9 {
        seq![digit_char(n)]
    } else {
        dec_digits(n / 10).push(digit_char(n % 10))
    }
}

fn digit_char_exec(d: u16) -> (c: char)
    requires
        d <= 9,
    ensures
        c == digit_char(d as int),
{
    match d {
        0 => '0',
        1 => '1',
        2 => '2',
        3 => '3',
        4 => '4',
        5 => '5',
        6 => '6',
        7 => '7',
        8 => '8',
        _ => '9',
    }
}

/// Renders a number as its canonical decimal digit string.
pub fn render_u16(n: u16) -> (r: String)
    ensures
        r@ == dec_digits(n as int),
    decreases n,
{
    if n <= 9 {
        let mut s = String::new();
        crate::strutil::push_char(&mut s, digit_char_exec(n));
        proof {
            assert(s@ =~= dec_digits(n as int));
        }
        s
    } else {
        let mut s = render_u16(n / 10);
        crate::strutil::push_char(&mut s, digit_char_exec(n % 10));
        s
    }
}

proof fn lemma_dec_val_nonneg(s: Seq<char>)
    requires
        all_dec_digits(s),
    ensures
        dec_val(s) >= 0,
    decreases s.len(),
{
    if s.len() > 0 {
        assert(all_dec_digits(s.drop_last()));
        lemma_dec_val_nonneg(s.drop_last());
    }
}

/// On digit strings the numeric value of a prefix never exceeds the value
/// of the whole string.
proof fn lemma_dec_val_prefix(s: Seq<char>, k: int)
    requires
        all_dec_digits(s),
        0 <= k <= s.len(),
    ensures
        dec_val(s.subrange(0, k)) <= dec_val(s),
    decreases s.len() - k,
{
    if k == s.len() {
        assert(s.subrange(0, k) =~= s);
    } else {
        let t = s.subrange(0, k + 1);
        assert(t.drop_last() =~= s.subrange(0, k));
        assert(all_dec_digits(s.subrange(0, k)));
        lemma_dec_val_nonneg(s.subrange(0, k));
        assert(dec_val(t) == dec_val(s.subrange(0, k)) * 10 + digit_val(t.last()));
        lemma_dec_val_prefix(s, k + 1);
    }
}

/// The digit part of a number in std's unsigned syntax: an optional leading
/// plus sign, then the digits.
pub open spec fn digits_part(s: Seq<char>) -> Seq<char> {
    if s.len() > 0 && s[0] == '+' {
        s.drop_first()
    } else {
        s
    }
}

/// std-style unsigned number syntax: an optional leading '+', then one or
/// more decimal digits (leading zeros allowed).
pub open spec fn parse_shape_ok(s: Seq<char>) -> bool {
    digits_part(s).len() > 0 && all_dec_digits(digits_part(s))
}

/// Parsing with an upper bound: the value of the digits, unless the syntax
/// is wrong or the value exceeds the bound.
pub open spec fn spec_parse_bounded(s: Seq<char>, max: int) -> Option<int> {
    if parse_shape_ok(s) && dec_val(digits_part(s)) <= max {
        Some(dec_val(digits_part(s)))
    } else {
        None
    }
}

/// Parses an unsigned decimal number no larger than `max`, accepting
/// exactly the strings std's unsigned parse accepts.
fn parse_bounded(s: &str, max: u64) -> (r: Option<u64>)
    requires
        max <= 0xFFFF_FFFF,
    ensures
        match r {
            Some(v) => spec_parse_bounded(s@, max as int) == Some(v as int),
            None => spec_parse_bounded(s@, max as int) is None,
        },
{
    let n = s.unicode_len();
    if n == 0 {
        return None;
    }
    let first = s.get_char(0);
    let b: usize = if first == '+' {
        1
    } else {
        0
    };
    if n == b {
        return None;
    }
    proof {
        assert(digits_part(s@) =~= s@.subrange(b as int, n as int));
    }
    let ghost digits = s@.subrange(b as int, n as int);
    let mut i: usize = b;
    let mut acc: u64 = 0;
    while i < n
        invariant
            n == s@.len(),
            b <= i <= n,
            b < n,
            max <= 0xFFFF_FFFF,
            digits == s@.subrange(b as int, n as int),
            digits == digits_part(s@),
            all_dec_digits(s@.subrange(b as int, i as int)),
            acc == dec_val(s@.subrange(b as int, i as int)),
            acc <= max,
        decreases n - i,
    {
        let c = s.get_char(i);
        if !('0' <= c && c <= '9') {
            proof {
                assert(digits[i - b] == s@[i as int]);
                assert(!all_dec_digits(digits));
            }
            return None;
        }
        let d: u64 = (c as u32 as u64) - ('0' as u32 as u64);
        proof {
            assert(s@.subrange(b as int, i as int + 1).drop_last() =~= s@.subrange(
                b as int,
                i as int,
            ));
            assert(s@.subrange(b as int, i as int + 1).last() == s@[i as int]);
            assert(all_dec_digits(s@.subrange(b as int, i as int + 1)));
        }
        let next: u64 = acc * 10 + d;
        if next > max {
            proof {
                if parse_shape_ok(s@) {
                    lemma_dec_val_prefix(digits, i + 1 - b);
                    assert(digits.subrange(0, i + 1 - b) =~= s@.subrange(b as int, i as int + 1));
                }
            }
            return None;
        }
        acc = next;
        i = i + 1;
    }
    proof {
        assert(s@.subrange(b as int, i as int) =~= digits);
    }
    Some(acc)
}

/// Parses a number with std's `u16` syntax and range.
pub fn parse_u16(s: &str) -> (r: Option<u16>)
    ensures
        match r {
            Some(v) => spec_parse_bounded(s@, 65535) == Some(v as int),
            None => spec_parse_bounded(s@, 65535) is None,
        },
{
    match parse_bounded(s, 65535) {
        Some(v) => Some(v as u16),
        None => None,
    }
}

/// Parses a number with std's `u32` syntax and range.
pub fn parse_u32(s: &str) -> (r: Option<u32>)
    ensures
        match r {
            Some(v) => spec_parse_bounded(s@, 0xFFFF_FFFF) == Some(v as int),
            None => spec_parse_bounded(s@, 0xFFFF_FFFF) is None,
        },
{
    match parse_bounded(s, 0xFFFF_FFFF) {
        Some(v) => Some(v as u32),
        None => None,
    }
}

/// The code named by a message-table key: keys address codes by their
/// canonical decimal form, so a key with a sign, a leading zero, or a value
/// out of range names no code at all.
pub open spec fn spec_canonical_code(s: Seq<char>) -> Option<u16> {
    if all_dec_digits(s) && s.len() > 0 && (s.len() == 1 || s[0] != '0') && dec_val(s) <= 65535 {
        Some(dec_val(s) as u16)
    } else {
        None
    }
}

/// Parses a message-table key as a canonical decimal code.
pub fn canonical_code(s: &str) -> (r: Option<u16>)
    ensures
        r == spec_canonical_code(s@),
{
    let n = s.unicode_len();
    if n == 0 {
        return None;
    }
    if n > 1 && s.get_char(0) == '0' {
        return None;
    }
    let first = s.get_char(0);
    if first == '+' {
        return None;
    }
    match parse_bounded(s, 65535) {
        Some(v) => {
            proof {
                assert(digits_part(s@) =~= s@);
            }
            Some(v as u16)
        },
        None => {
            proof {
                assert(digits_part(s@) =~= s@);
            }
            None
        },
    }
}

} // verus!
