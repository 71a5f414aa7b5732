//! Decimal and hexadecimal text for unsigned integers.
//!
//! The envelope timestamp needs the decimal digits of a millisecond count,
//! the stream id the zero-padded lowercase hexadecimal digits of a 128-bit
//! number, and the polling-interval hint a decimal parser.

use vstd::prelude::*;
use vstd::string::StrSliceExecFns;
use vstd::string::StringExecFns;

verus! {

/// The character for one digit value below sixteen.
pub open spec fn spec_digit_char(d: nat) -> char {
    if d == 0 { '0' } else if d == 1 { '1' } else if d == 2 { '2' } else if d == 3 { '3' }
    else if d == 4 { '4' } else if d == 5 { '5' } else if d == 6 { '6' } else if d == 7 { '7' }
    else if d == 8 { '8' } else if d == 9 { '9' } else if d == 10 { 'a' } else if d == 11 { 'b' }
    else if d == 12 { 'c' } else if d == 13 { 'd' } else if d == 14 { 'e' } else { 'f' }
}

/// The decimal digits of `n`, most significant first, no leading zero except
/// for `n == 0` itself.
pub open spec fn spec_dec(n: nat) -> Seq<char>
    decreases n,
{
    if n < 10 {
        seq![spec_digit_char(n)]
    } else {
        spec_dec(n / 10).push(spec_digit_char(n % 10))
    }
}

/// The `w` low hexadecimal digits of `n`, most significant first, zero
/// padded.
pub open spec fn spec_hex(n: nat, w: nat) -> Seq<char>
    decreases w,
{
    if w == 0 {
        Seq::empty()
    } else {
        spec_hex(n / 16, (w - 1) as nat).push(spec_digit_char(n % 16))
    }
}

pub open spec fn spec_is_dec_digit(c: char) -> bool {
    ||| c == '0' ||| c == '1' ||| c == '2' ||| c == '3' ||| c == '4'
    ||| c == '5' ||| c == '6' ||| c == '7' ||| c == '8' ||| c == '9'
}

/// The value of one decimal digit character; ten for anything else.
pub open spec fn spec_digit_val(c: char) -> nat {
    if c == '0' { 0 } else if c == '1' { 1 } else if c == '2' { 2 } else if c == '3' { 3 }
    else if c == '4' { 4 } else if c == '5' { 5 } else if c == '6' { 6 } else if c == '7' { 7 }
    else if c == '8' { 8 } else if c == '9' { 9 } else { 10 }
}

pub open spec fn spec_all_dec_digits(s: Seq<char>) -> bool {
    forall|i: int| 0 <= i < s.len() ==> spec_is_dec_digit(s[i])
}

/// The number the decimal digit characters of `s` denote; an empty `s`
/// denotes zero.
pub open spec fn spec_dec_value(s: Seq<char>) -> nat
    decreases s.len(),
{
    if s.len() == 0 {
        0
    } else {
        spec_dec_value(s.drop_last()) * 10 + spec_digit_val(s.last())
    }
}

pub open spec fn spec_is_hex_digit(c: char) -> bool {
    ||| spec_is_dec_digit(c)
    ||| c == 'a' ||| c == 'b' ||| c == 'c' ||| c == 'd' ||| c == 'e' ||| c == 'f'
}

/// A hexadecimal rendering has exactly its width, all hex digits.
pub proof fn lemma_hex_digits(n: nat, w: nat)
    ensures
        spec_hex(n, w).len() == w,
        forall|i: int| 0 <= i < w ==> spec_is_hex_digit(spec_hex(n, w)[i]),
    decreases w,
{
    if w > 0 {
        lemma_hex_digits(n / 16, (w - 1) as nat);
    }
}

/// Every decimal rendering is at least one character, all of them digits.
pub proof fn lemma_dec_digits(n: nat)
    ensures
        spec_dec(n).len() >= 1,
        spec_all_dec_digits(spec_dec(n)),
    decreases n,
{
    if n >= 10 {
        lemma_dec_digits(n / 10);
    }
}

fn digit_str(d: u64) -> (r: &'static str)
    requires
        d < 16,
    ensures
        r@ =~= seq![spec_digit_char(d as nat)],
{
    proof {
        reveal_strlit("0");
        reveal_strlit("1");
        reveal_strlit("2");
        reveal_strlit("3");
        reveal_strlit("4");
        reveal_strlit("5");
        reveal_strlit("6");
        reveal_strlit("7");
        reveal_strlit("8");
        reveal_strlit("9");
        reveal_strlit("a");
        reveal_strlit("b");
        reveal_strlit("c");
        reveal_strlit("d");
        reveal_strlit("e");
        reveal_strlit("f");
    }
    if d == 0 { "0" } else if d == 1 { "1" } else if d == 2 { "2" } else if d == 3 { "3" }
    else if d == 4 { "4" } else if d == 5 { "5" } else if d == 6 { "6" } else if d == 7 { "7" }
    else if d == 8 { "8" } else if d == 9 { "9" } else if d == 10 { "a" } else if d == 11 { "b" }
    else if d == 12 { "c" } else if d == 13 { "d" } else if d == 14 { "e" } else { "f" }
}

/// The decimal text of `n`.
pub fn u64_to_dec(n: u64) -> (r: String)
    ensures
        r@ == spec_dec(n as nat),
    decreases n,
{
    if n < 10 {
        let r = String::from_str(digit_str(n));
        proof {
            assert(r@ =~= spec_dec(n as nat));
        }
        r
    } else {
        proof {
            assert(n / 10 < n && n / 10 == n as nat / 10) by (nonlinear_arith)
                requires
                    n >= 10,
            ;
        }
        let prefix = u64_to_dec(n / 10);
        let r = prefix.concat(digit_str(n % 10));
        proof {
            assert(r@ =~= spec_dec(n as nat));
        }
        r
    }
}

/// The `w` low hexadecimal digits of `n` as text, zero padded.
pub fn u128_to_hex(n: u128, w: usize) -> (r: String)
    ensures
        r@ == spec_hex(n as nat, w as nat),
    decreases w,
{
    if w == 0 {
        let r = String::new();
        proof {
            assert(r@ =~= spec_hex(n as nat, w as nat));
        }
        r
    } else {
        proof {
            assert(n / 16 == n as nat / 16 && n % 16 == n as nat % 16) by (nonlinear_arith);
        }
        let prefix = u128_to_hex(n / 16, w - 1);
        let r = prefix.concat(digit_str((n % 16) as u64));
        proof {
            assert(r@ =~= spec_hex(n as nat, w as nat));
        }
        r
    }
}

fn digit_val(c: char) -> (r: u64)
    ensures
        r == spec_digit_val(c),
        (r < 10) == spec_is_dec_digit(c),
{
    match c {
        '0' => 0, '1' => 1, '2' => 2, '3' => 3, '4' => 4,
        '5' => 5, '6' => 6, '7' => 7, '8' => 8, '9' => 9,
        _ => 10,
    }
}

/// Growing a digit string never shrinks its value.
proof fn lemma_dec_value_prefix_le(s: Seq<char>, i: int, j: int)
    requires
        0 <= i <= j <= s.len(),
    ensures
        spec_dec_value(s.subrange(0, i)) <= spec_dec_value(s.subrange(0, j)),
    decreases j - i,
{
    if i < j {
        lemma_dec_value_prefix_le(s, i, j - 1);
        let t = s.subrange(0, j);
        assert(t.drop_last() =~= s.subrange(0, j - 1));
        assert(spec_dec_value(t.drop_last()) <= spec_dec_value(t.drop_last()) * 10) by (nonlinear_arith);
    }
}

/// Parse a decimal number.
///
/// Succeeds exactly on a nonempty all-digit string whose value fits in a
/// `u64`; no sign, no blanks, no other characters.
pub fn parse_u64_dec(s: &str) -> (r: Option<u64>)
    ensures
        r is Some <==> s@.len() > 0 && spec_all_dec_digits(s@) && spec_dec_value(s@) <= u64::MAX,
        r matches Some(v) ==> v == spec_dec_value(s@),
{
    let len = s.unicode_len();
    if len == 0 {
        return None;
    }
    let mut acc: u64 = 0;
    let mut i: usize = 0;
    while i < len
        invariant
            0 <= i <= len,
            len == s@.len(),
            spec_all_dec_digits(s@.subrange(0, i as int)),
            acc == spec_dec_value(s@.subrange(0, i as int)),
        decreases len - i,
    {
        let c = s.get_char(i);
        let d = digit_val(c);
        if d >= 10 {
            return None;
        }
        if acc > (u64::MAX - d) / 10 {
            proof {
                let t = s@.subrange(0, i + 1);
                assert(t.drop_last() =~= s@.subrange(0, i as int));
                assert(t.last() == c);
                assert(acc * 10 + d > u64::MAX) by (nonlinear_arith)
                    requires
                        acc > (u64::MAX - d) / 10 && d < 10,
                ;
                lemma_dec_value_prefix_le(s@, i + 1, s@.len() as int);
                assert(s@.subrange(0, s@.len() as int) =~= s@);
            }
            return None;
        }
        proof {
            let t = s@.subrange(0, i + 1);
            assert(t.drop_last() =~= s@.subrange(0, i as int));
            assert(t.last() == c);
            assert(acc * 10 + d <= u64::MAX) by (nonlinear_arith)
                requires
                    acc <= (u64::MAX - d) / 10 && d < 10,
            ;
        }
        acc = acc * 10 + d;
        i = i + 1;
    }
    proof {
        assert(s@.subrange(0, s@.len() as int) =~= s@);
    }
    Some(acc)
}

} // verus!
