use vstd::prelude::*;

verus! {

use vstd::string::StrSliceExecFns;
use vstd::string::StringExecFns;

/// The character for a single decimal digit.
pub open spec fn dec_digit(d: nat) -> char {
    if d == 0 {
        '0'
    } else if d == 1 {
        '1'
    } else if d == 2 {
        '2'
    } else if d == 3 {
        '3'
    } else if d == 4 {
        '4'
    } else if d == 5 {
        '5'
    } else if d == 6 {
        '6'
    } else if d == 7 {
        '7'
    } else if d == 8 {
        '8'
    } else {
        '9'
    }
}

/// Decimal representation of a natural number, most significant digit first.
pub open spec fn dec_str(n: nat) -> Seq<char>
    decreases n,
{
    if n < 10 {
        seq![dec_digit(n)]
    } else {
        dec_str(n / 10).push(dec_digit(n % 10))
    }
}

/// Decimal representation of an integer: a minus sign before the digits when negative.
pub open spec fn dec_str_signed(n: int) -> Seq<char> {
    if n >= 0 {
        dec_str(n as nat)
    } else {
        seq!['-'] + dec_str((-n) as nat)
    }
}

pub open spec fn is_dec_digit(c: char) -> bool {
    '0' <= c && c <= '9'
}

pub open spec fn digit_val(c: char) -> nat {
    ((c as nat) - ('0' as nat)) as nat
}

pub open spec fn all_dec_digits(s: Seq<char>) -> bool {
    forall|i: int| 0 <= i < s.len() ==> is_dec_digit(#[trigger] s[i])
}

/// Value of a decimal digit string, most significant digit first.
pub open spec fn dec_val(s: Seq<char>) -> nat
    decreases s.len(),
{
    if s.len() == 0 {
        0
    } else {
        dec_val(s.drop_last()) * 10 + digit_val(s.last())
    }
}

/// The UTF-8 byte length of a character sequence: what `str::len` returns
/// for a string with these characters.
pub open spec fn spec_utf8_len(s: Seq<char>) -> nat {
    vstd::utf8::encode_utf8(s).len()
}

pub open spec fn is_upper_hex_digit(c: char) -> bool {
    is_dec_digit(c) || ('A' <= c && c <= 'F')
}

pub open spec fn is_hex_digit(c: char) -> bool {
    is_upper_hex_digit(c) || ('a' <= c && c <= 'f')
}

/// The uppercase form of a hexadecimal digit; other characters stay as they
/// are.
pub open spec fn spec_upper_hex(c: char) -> char {
    if c == 'a' {
        'A'
    } else if c == 'b' {
        'B'
    } else if c == 'c' {
        'C'
    } else if c == 'd' {
        'D'
    } else if c == 'e' {
        'E'
    } else if c == 'f' {
        'F'
    } else {
        c
    }
}

pub fn upper_hex(c: char) -> (r: char)
    ensures
        r == spec_upper_hex(c),
{
    if c == 'a' {
        'A'
    } else if c == 'b' {
        'B'
    } else if c == 'c' {
        'C'
    } else if c == 'd' {
        'D'
    } else if c == 'e' {
        'E'
    } else if c == 'f' {
        'F'
    } else {
        c
    }
}

/// Value of a hexadecimal digit.
pub open spec fn hex_val(c: char) -> nat {
    if is_dec_digit(c) {
        digit_val(c)
    } else if 'A' <= c && c <= 'F' {
        ((c as nat) - ('A' as nat) + 10) as nat
    } else if 'a' <= c && c <= 'f' {
        ((c as nat) - ('a' as nat) + 10) as nat
    } else {
        0
    }
}

pub fn hex_digit_val(c: char) -> (d: u8)
    requires
        is_upper_hex_digit(c),
    ensures
        d == hex_val(c),
        d < 16,
{
    if c >= '0' && c <= '9' {
        ((c as u32) - 48) as u8
    } else {
        ((c as u32) - 55) as u8
    }
}

pub open spec fn all_upper_hex_digits(s: Seq<char>) -> bool {
    forall|i: int| 0 <= i < s.len() ==> is_upper_hex_digit(#[trigger] s[i])
}

/// Relies on String::push: appends one character at the end of the string.
#[verifier::external_body]
pub fn push_char(s: &mut String, c: char)
    ensures
        final(s)@ == old(s)@.push(c),
{
    s.push(c);
}

pub fn digit_char(d: u8) -> (c: char)
    requires
        d < 10,
    ensures
        c == dec_digit(d as nat),
{
    if d == 0 {
        '0'
    } else if d == 1 {
        '1'
    } else if d == 2 {
        '2'
    } else if d == 3 {
        '3'
    } else if d == 4 {
        '4'
    } else if d == 5 {
        '5'
    } else if d == 6 {
        '6'
    } else if d == 7 {
        '7'
    } else if d == 8 {
        '8'
    } else {
        '9'
    }
}

/// Decimal formatting of an unsigned number.
pub fn dec_u128(n: u128) -> (r: String)
    ensures
        r@ == dec_str(n as nat),
    decreases n,
{
    if n < 10 {
        let mut s = String::new();
        push_char(&mut s, digit_char(n as u8));
        proof {
            assert(s@ =~= dec_str(n as nat));
        }
        s
    } else {
        let mut s = dec_u128(n / 10);
        push_char(&mut s, digit_char((n % 10) as u8));
        s
    }
}

/// Decimal formatting of a signed number.
pub fn dec_i128(n: i128) -> (r: String)
    ensures
        r@ == dec_str_signed(n as int),
{
    if n >= 0 {
        dec_u128(n as u128)
    } else {
        let p: i128 = -(n + 1);
        let m: u128 = (p as u128) + 1;
        let digits = dec_u128(m);
        let mut s = String::new();
        push_char(&mut s, '-');
        let r = s.concat(digits.as_str());
        proof {
            assert(r@ =~= dec_str_signed(n as int));
        }
        r
    }
}

/// Whether two string slices hold the same characters.
pub fn str_eq(a: &str, b: &str) -> (r: bool)
    ensures
        r == (a@ == b@),
{
    let sa = a.to_owned();
    let sb = b.to_owned();
    sa == sb
}

pub fn char_digit_val(c: char) -> (d: u8)
    requires
        is_dec_digit(c),
    ensures
        d == digit_val(c),
        d < 10,
{
    (c as u8) - 48
}

/// Decimal parse: the value of a digit string, `None` on an empty string, a
/// non-digit character, or a value above `u32::MAX`.
pub fn parse_u32_dec(s: &str) -> (r: Option<u32>)
    ensures
        r matches Some(v) <==> s@.len() > 0 && all_dec_digits(s@) && dec_val(s@) <= u32::MAX,
        r matches Some(v) ==> v == dec_val(s@),
{
    let n = s.unicode_len();
    if n == 0 {
        return None;
    }
    let mut i: usize = 0;
    let mut acc: u32 = 0;
    while i < n
        invariant
            0 < n == s@.len(),
            0 <= i <= n,
            all_dec_digits(s@.take(i as int)),
            acc == dec_val(s@.take(i as int)),
        decreases n - i,
    {
        let c = s.get_char(i);
        if !(c >= '0' && c <= '9') {
            proof {
                assert(s@.take(n as int) =~= s@);
                assert(!is_dec_digit(s@[i as int]));
            }
            return None;
        }
        let d = char_digit_val(c);
        if acc > (u32::MAX - d as u32) / 10 {
            proof {
                lemma_dec_val_take_prefix(s@, i as int + 1);
                assert(dec_val(s@.take(i as int + 1)) > u32::MAX);
                lemma_dec_val_prefix_le(s@, i as int + 1);
            }
            return None;
        }
        acc = acc * 10 + d as u32;
        proof {
            assert(s@.take(i as int + 1).drop_last() =~= s@.take(i as int));
            assert(s@.take(i as int + 1).last() == s@[i as int]);
        }
        i = i + 1;
    }
    proof {
        assert(s@.take(n as int) =~= s@);
    }
    Some(acc)
}

/// A longer digit string never has a smaller value than its prefix scaled up.
proof fn lemma_dec_val_take_prefix(s: Seq<char>, k: int)
    requires
        0 < k <= s.len(),
    ensures
        dec_val(s.take(k)) == dec_val(s.take(k - 1)) * 10 + digit_val(s[k - 1]),
{
    assert(s.take(k).drop_last() =~= s.take(k - 1));
    assert(s.take(k).last() == s[k - 1]);
}

/// A digit string's value is no smaller than the value of any of its prefixes.
proof fn lemma_dec_val_prefix_le(s: Seq<char>, k: int)
    requires
        0 <= k <= s.len(),
    ensures
        dec_val(s.take(k)) <= dec_val(s),
    decreases s.len() - k,
{
    if k == s.len() {
        assert(s.take(k) =~= s);
    } else {
        lemma_dec_val_take_prefix(s, k + 1);
        lemma_dec_val_prefix_le(s, k + 1);
    }
}

/// The string without its last character; the empty string stays empty.
pub fn remove_last_char(s: &str) -> (r: String)
    ensures
        r@ == if s@.len() == 0 {
            s@
        } else {
            s@.drop_last()
        },
{
    let n = s.unicode_len();
    if n == 0 {
        let r = String::new();
        proof {
            assert(r@ =~= s@);
        }
        r
    } else {
        let r = s.substring_char(0, n - 1).to_owned();
        proof {
            assert(r@ =~= s@.drop_last());
        }
        r
    }
}

} // verus!
