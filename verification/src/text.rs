//! Small text utilities shared by the request builders: decimal rendering
//! and parsing of unsigned integers, and percent-encoding of query values.

use vstd::prelude::*;
use vstd::string::StringSliceAdditionalSpecFns;
use vstd::string::StrSliceExecFns;

verus! {

/// The decimal digit character for a value between 0 and 9.
pub open spec fn spec_digit_char(d: int) -> char
    recommends
        0 <= d < 10,
{
    ((48 + d) as u8) as char
}

/// The decimal rendering of a natural number, most significant digit first.
pub open spec fn spec_dec(n: nat) -> Seq<char>
    decreases n,
{
    if n < 10 {
        seq![spec_digit_char(n as int)]
    } else {
        spec_dec(n / 10).push(spec_digit_char((n % 10) as int))
    }
}

pub open spec fn is_dec_digit(c: char) -> bool {
    48 <= c as int <= 57
}

pub open spec fn all_dec_digits(s: Seq<char>) -> bool {
    forall|i: int| 0 <= i < s.len() ==> is_dec_digit(#[trigger] s[i])
}

/// The numeric value of a sequence of decimal digit characters.
pub open spec fn dec_val(s: Seq<char>) -> int
    decreases s.len(),
{
    if s.len() == 0 {
        0
    } else {
        dec_val(s.drop_last()) * 10 + (s.last() as int - 48)
    }
}

/// Relies on std's `String::push`: appends one character at the end.
#[verifier::external_body]
pub(crate) fn push_char(s: &mut String, c: char)
    ensures
        final(s)@ == old(s)@.push(c),
{
    s.push(c);
}

proof fn lemma_reverse_push<A>(s: Seq<A>, x: A)
    ensures
        s.push(x).reverse() =~= seq![x] + s.reverse(),
{
}

/// Renders an unsigned integer in decimal, without sign or padding.
pub fn u64_to_string(n: u64) -> (s: String)
    ensures
        s@ == spec_dec(n as nat),
{
    let mut digits: Vec<char> = Vec::new();
    let mut m: u64 = n;
    while m >= 10
        invariant
            spec_dec(n as nat) =~= spec_dec(m as nat) + digits@.reverse(),
        decreases m,
    {
        let d: u8 = (m % 10) as u8;
        proof {
            lemma_reverse_push(digits@, spec_digit_char((m % 10) as int));
            assert(spec_dec(m as nat) =~= spec_dec((m / 10) as nat) + seq![
                spec_digit_char((m % 10) as int),
            ]);
        }
        digits.push((48 + d) as char);
        m = m / 10;
    }
    proof {
        lemma_reverse_push(digits@, spec_digit_char(m as int));
        assert(spec_dec(m as nat) =~= seq![spec_digit_char(m as int)]);
    }
    digits.push((48 + (m as u8)) as char);
    let ghost rev = digits@.reverse();
    proof {
        assert(spec_dec(n as nat) =~= rev);
    }
    let mut s = String::new();
    let k = digits.len();
    let mut i: usize = 0;
    while i < k
        invariant
            i <= k,
            k == digits@.len(),
            rev == digits@.reverse(),
            s@ =~= rev.subrange(0, i as int),
        decreases k - i,
    {
        proof {
            assert(rev[i as int] == digits@[k - 1 - i as int]);
            assert(rev.subrange(0, i + 1 as int) =~= rev.subrange(0, i as int).push(
                rev[i as int],
            ));
        }
        let c = digits[k - 1 - i];
        push_char(&mut s, c);
        i = i + 1;
    }
    proof {
        assert(rev.subrange(0, k as int) =~= rev);
    }
    s
}

/// Renders a 32-bit unsigned integer in decimal.
pub fn u32_to_string(n: u32) -> (s: String)
    ensures
        s@ == spec_dec(n as nat),
{
    u64_to_string(n as u64)
}

proof fn lemma_dec_val_nonneg(s: Seq<char>)
    requires
        all_dec_digits(s),
    ensures
        dec_val(s) >= 0,
    decreases s.len(),
{
    if s.len() > 0 {
        assert(forall|i: int| 0 <= i < s.drop_last().len() ==> is_dec_digit(
            #[trigger] s.drop_last()[i],
        ));
        lemma_dec_val_nonneg(s.drop_last());
    }
}

proof fn lemma_dec_val_mono(s: Seq<char>, i: int, j: int)
    requires
        all_dec_digits(s),
        0 <= i <= j <= s.len(),
    ensures
        dec_val(s.subrange(0, i)) <= dec_val(s.subrange(0, j)),
    decreases j - i,
{
    if i < j {
        lemma_dec_val_mono(s, i, j - 1);
        let p = s.subrange(0, j);
        assert(p.drop_last() =~= s.subrange(0, j - 1));
        assert(forall|k: int| 0 <= k < p.drop_last().len() ==> is_dec_digit(
            #[trigger] p.drop_last()[k],
        ));
        lemma_dec_val_nonneg(p.drop_last());
        assert(is_dec_digit(p.last()));
        assert(dec_val(p) == dec_val(p.drop_last()) * 10 + (p.last() as int - 48));
        assert(dec_val(p.drop_last()) * 10 >= dec_val(p.drop_last()));
    }
}

/// Parses a string of decimal digits into a 64-bit unsigned integer.
///
/// Returns the value exactly when the string is non-empty, contains decimal
/// digits only, and the value fits; anything else yields nothing.
pub fn parse_u64(s: &str) -> (r: Option<u64>)
    ensures
        (s@.len() > 0 && all_dec_digits(s@) && dec_val(s@) <= u64::MAX) ==> r == Some(
            dec_val(s@) as u64,
        ),
        !(s@.len() > 0 && all_dec_digits(s@) && dec_val(s@) <= u64::MAX) ==> r is None,
{
    let len = s.unicode_len();
    if len == 0 {
        return None;
    }
    let mut acc: u64 = 0;
    let mut i: usize = 0;
    while i < len
        invariant
            i <= len,
            len == s@.len(),
            all_dec_digits(s@.subrange(0, i as int)),
            acc == dec_val(s@.subrange(0, i as int)),
        decreases len - i,
    {
        let c = s.get_char(i);
        let cv = c as u32;
        if cv < 48 || cv > 57 {
            assert(!is_dec_digit(s@[i as int]));
            return None;
        }
        let d: u64 = (cv - 48) as u64;
        proof {
            assert(s@.subrange(0, i + 1 as int).drop_last() =~= s@.subrange(0, i as int));
            assert(s@.subrange(0, i + 1 as int).last() == s@[i as int]);
            assert(forall|k: int| 0 <= k < i + 1 ==> is_dec_digit(
                #[trigger] s@.subrange(0, i + 1 as int)[k],
            ));
        }
        if acc > (u64::MAX - d) / 10 {
            proof {
                assert(acc * 10 + d > u64::MAX);
                assert(dec_val(s@.subrange(0, i + 1 as int)) == acc * 10 + d);
                if all_dec_digits(s@) {
                    lemma_dec_val_mono(s@, i + 1, len as int);
                    assert(s@.subrange(0, len as int) =~= s@);
                }
            }
            return None;
        }
        acc = acc * 10 + d;
        i = i + 1;
    }
    proof {
        assert(s@.subrange(0, len as int) =~= s@);
    }
    Some(acc)
}

/// Compares two string slices character by character.
pub fn str_eq(a: &str, b: &str) -> (r: bool)
    ensures
        r <==> a@ == b@,
{
    let na = a.unicode_len();
    let nb = b.unicode_len();
    if na != nb {
        proof {
            assert(a@ != b@);
        }
        return false;
    }
    let mut i: usize = 0;
    while i < na
        invariant
            i <= na,
            na == a@.len(),
            na == b@.len(),
            forall|j: int| 0 <= j < i ==> a@[j] == b@[j],
        decreases na - i,
    {
        if a.get_char(i) != b.get_char(i) {
            proof {
                assert(a@[i as int] != b@[i as int]);
            }
            return false;
        }
        i = i + 1;
    }
    proof {
        assert(a@ =~= b@);
    }
    true
}

/// A byte that percent-encoding leaves as it is: an ASCII letter, a digit,
/// or one of `-`, `.`, `_`, `~`.
pub open spec fn is_unreserved_byte(b: u8) -> bool {
    ||| 97 <= b <= 122
    ||| 65 <= b <= 90
    ||| 48 <= b <= 57
    ||| b == 45
    ||| b == 46
    ||| b == 95
    ||| b == 126
}

/// The uppercase hexadecimal digit character for a value between 0 and 15.
pub open spec fn spec_hex_char(d: int) -> char
    recommends
        0 <= d < 16,
{
    if d < 10 {
        ((48 + d) as u8) as char
    } else {
        ((65 + d - 10) as u8) as char
    }
}

/// The percent-encoding of one byte.
pub open spec fn pct_byte(b: u8) -> Seq<char> {
    if is_unreserved_byte(b) {
        seq![b as char]
    } else {
        seq!['%', spec_hex_char(b as int / 16), spec_hex_char(b as int % 16)]
    }
}

/// The percent-encoding of a byte sequence.
pub open spec fn pct_bytes(bs: Seq<u8>) -> Seq<char>
    decreases bs.len(),
{
    if bs.len() == 0 {
        Seq::empty()
    } else {
        pct_bytes(bs.drop_last()) + pct_byte(bs.last())
    }
}

/// The percent-encoding of a string, applied to its UTF-8 bytes.
pub open spec fn pct_encode(s: &str) -> Seq<char> {
    pct_bytes(s.spec_bytes())
}

fn hex_char(d: u8) -> (c: char)
    requires
        d < 16,
    ensures
        c == spec_hex_char(d as int),
{
    if d < 10 {
        (48 + d) as char
    } else {
        (65 + d - 10) as char
    }
}

/// Appends the percent-encoding of `v` to `out`.
pub fn append_pct_encoded(out: &mut String, v: &str)
    ensures
        final(out)@ == old(out)@ + pct_encode(v),
{
    let bytes = v.as_bytes();
    let n = bytes.len();
    let mut i: usize = 0;
    while i < n
        invariant
            i <= n,
            n == bytes@.len(),
            bytes@ == v.spec_bytes(),
            out@ =~= old(out)@ + pct_bytes(bytes@.subrange(0, i as int)),
        decreases n - i,
    {
        let b = bytes[i];
        proof {
            assert(bytes@.subrange(0, i + 1 as int).drop_last() =~= bytes@.subrange(0, i as int));
            assert(bytes@.subrange(0, i + 1 as int).last() == bytes@[i as int]);
        }
        if (97 <= b && b <= 122) || (65 <= b && b <= 90) || (48 <= b && b <= 57) || b == 45 || b
            == 46 || b == 95 || b == 126 {
            push_char(out, b as char);
        } else {
            push_char(out, '%');
            let hi = hex_char(b / 16);
            push_char(out, hi);
            let lo = hex_char(b % 16);
            push_char(out, lo);
        }
        i = i + 1;
    }
    proof {
        assert(bytes@.subrange(0, n as int) =~= bytes@);
    }
}

} // verus!
