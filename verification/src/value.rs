use vstd::prelude::*;
use vstd::utf8::encode_utf8;

use crate::register::{first_match, string_of, Register};
use crate::text::{byte_char, push_char};
use crate::tokenizer::{hextoint, spec_hextoint};

verus! {

/// Whether a byte is an ASCII decimal digit.
pub open spec fn is_digit(c: u8) -> bool {
    0x30 <= c <= 0x39
}

/// The number the decimal digits `d` spell.
pub open spec fn digits_value(d: Seq<u8>) -> int
    decreases d.len(),
{
    if d.len() == 0 {
        0
    } else {
        digits_value(d.drop_last()) * 10 + (d.last() - 0x30)
    }
}

/// Decimal digits read as base-10 positional notation: one more digit `d` after the digits
/// `s` multiplies what `s` spells by 10 and adds the digit's value, '0' to '9' giving 0 to 9.
pub proof fn lemma_decimal_digit(s: Seq<u8>, d: u8)
    requires
        is_digit(d),
    ensures
        digits_value(s.push(d)) == 10 * digits_value(s) + (d - '0' as u8),
        0 <= d - '0' as u8 <= 9,
{
    assert(s.push(d).drop_last() =~= s);
}

/// Whether every byte of `d` is a decimal digit.
pub open spec fn all_digits(d: Seq<u8>) -> bool {
    forall|i: int| 0 <= i < d.len() ==> is_digit(#[trigger] d[i])
}

/// The value of a nonempty run of decimal digits.
pub open spec fn digits_u64(d: Seq<u8>) -> Option<u64> {
    if d.len() > 0 && all_digits(d) && digits_value(d) <= u64::MAX {
        Some(digits_value(d) as u64)
    } else {
        None
    }
}

/// An unsigned 64-bit number as std reads one: an optional `+`, then decimal digits, no more
/// than the type holds.
pub open spec fn spec_parse_u64(b: Seq<u8>) -> Option<u64> {
    if b.len() > 0 && b[0] == 0x2b {
        digits_u64(b.drop_first())
    } else {
        digits_u64(b)
    }
}

/// A signed 64-bit number as std reads one: an optional `+` or `-`, then decimal digits,
/// within the type's range.
pub open spec fn spec_parse_i64(b: Seq<u8>) -> Option<i64> {
    let neg = b.len() > 0 && b[0] == 0x2d;
    let d = if b.len() > 0 && (b[0] == 0x2b || b[0] == 0x2d) {
        b.drop_first()
    } else {
        b
    };
    if d.len() > 0 && all_digits(d) {
        let v = if neg {
            -digits_value(d)
        } else {
            digits_value(d)
        };
        if i64::MIN <= v <= i64::MAX {
            Some(v as i64)
        } else {
            None
        }
    } else {
        None
    }
}

/// A longer run of digits spells no smaller a number.
proof fn lemma_digits_value_mono(d: Seq<u8>, j: int, k: int)
    requires
        0 <= j <= k <= d.len(),
        all_digits(d.take(k)),
    ensures
        0 <= digits_value(d.take(j)) <= digits_value(d.take(k)),
    decreases k - j,
{
    if j < k {
        assert(d.take(k).drop_last() =~= d.take(k - 1));
        assert(all_digits(d.take(k - 1)));
        lemma_digits_value_mono(d, j, k - 1);
        assert(is_digit(d.take(k)[k - 1]));
    } else {
        lemma_digits_value_nonneg(d.take(j));
    }
}

/// Digits spell a number no less than 0.
proof fn lemma_digits_value_nonneg(d: Seq<u8>)
    requires
        all_digits(d),
    ensures
        digits_value(d) >= 0,
    decreases d.len(),
{
    if d.len() > 0 {
        assert(all_digits(d.drop_last()));
        lemma_digits_value_nonneg(d.drop_last());
        assert(is_digit(d.last()));
    }
}

/// The value of a run of decimal digits, if it is nonempty, all digits, and fits.
fn parse_digits(d: &[u8]) -> (r: Option<u64>)
    ensures
        r == digits_u64(d@),
{
    if d.len() == 0 {
        return None;
    }
    let mut acc: u64 = 0;
    let mut i: usize = 0;
    while i < d.len()
        invariant
            i <= d@.len(),
            all_digits(d@.take(i as int)),
            acc == digits_value(d@.take(i as int)),
        decreases d@.len() - i,
    {
        let c = d[i];
        assert(d@.take(i + 1).drop_last() =~= d@.take(i as int));
        if !(0x30 <= c && c <= 0x39) {
            assert(!is_digit(d@[i as int]));
            return None;
        }
        assert(all_digits(d@.take(i + 1)));
        match acc.checked_mul(10) {
            Some(m) => match m.checked_add((c - 0x30) as u64) {
                Some(a) => {
                    acc = a;
                },
                None => {
                    assert(d@.take(d@.len() as int) =~= d@);
                    proof {
                        if all_digits(d@) {
                            lemma_digits_value_mono(d@, i + 1, d@.len() as int);
                        }
                    }
                    return None;
                },
            },
            None => {
                assert(d@.take(d@.len() as int) =~= d@);
                proof {
                    if all_digits(d@) {
                        lemma_digits_value_mono(d@, i + 1, d@.len() as int);
                    }
                }
                return None;
            },
        }
        i = i + 1;
    }
    assert(d@.take(d@.len() as int) =~= d@);
    Some(acc)
}

/// Reads an unsigned 64-bit number as std does.
pub fn parse_u64(b: &[u8]) -> (r: Option<u64>)
    ensures
        r == spec_parse_u64(b@),
{
    if b.len() > 0 && b[0] == 0x2b {
        let rest = slice_from(b, 1);
        parse_digits(rest.as_slice())
    } else {
        parse_digits(b)
    }
}

/// Reads a signed 64-bit number as std does.
pub fn parse_i64(b: &[u8]) -> (r: Option<i64>)
    ensures
        r == spec_parse_i64(b@),
{
    let neg = b.len() > 0 && b[0] == 0x2d;
    let signed = b.len() > 0 && (b[0] == 0x2b || b[0] == 0x2d);
    let rest = if signed {
        slice_from(b, 1)
    } else {
        slice_from(b, 0)
    };
    assert(signed ==> rest@ =~= b@.drop_first());
    assert(!signed ==> rest@ =~= b@);
    if rest.len() == 0 {
        return None;
    }
    let mut acc: u64 = 0;
    let mut i: usize = 0;
    while i < rest.len()
        invariant
            i <= rest@.len(),
            all_digits(rest@.take(i as int)),
            acc == digits_value(rest@.take(i as int)),
            acc <= 0x8000_0000_0000_0000u64,
            neg == (b@.len() > 0 && b@[0] == 0x2d),
            signed == (b@.len() > 0 && (b@[0] == 0x2b || b@[0] == 0x2d)),
            signed ==> rest@ == b@.drop_first(),
            !signed ==> rest@ == b@,
        decreases rest@.len() - i,
    {
        let c = rest[i];
        assert(rest@.take(i + 1).drop_last() =~= rest@.take(i as int));
        if !(0x30 <= c && c <= 0x39) {
            assert(!is_digit(rest@[i as int]));
            return None;
        }
        assert(all_digits(rest@.take(i + 1)));
        if acc > 0x0CCC_CCCC_CCCC_CCCCu64 || acc * 10 + (c - 0x30) as u64 > 0x8000_0000_0000_0000u64 {
            assert(rest@.take(rest@.len() as int) =~= rest@);
            proof {
                if all_digits(rest@) {
                    lemma_digits_value_mono(rest@, i + 1, rest@.len() as int);
                }
            }
            return None;
        }
        acc = acc * 10 + (c - 0x30) as u64;
        i = i + 1;
    }
    assert(rest@.take(rest@.len() as int) =~= rest@);
    if neg {
        if acc == 0x8000_0000_0000_0000u64 {
            Some(i64::MIN)
        } else {
            Some(-(acc as i64))
        }
    } else {
        if acc > 0x7FFF_FFFF_FFFF_FFFFu64 {
            None
        } else {
            Some(acc as i64)
        }
    }
}

/// The bytes of `b` from `start` on.
fn slice_from(b: &[u8], start: usize) -> (r: Vec<u8>)
    requires
        start <= b@.len(),
    ensures
        r@ == b@.subrange(start as int, b@.len() as int),
{
    let mut r: Vec<u8> = Vec::new();
    let mut i: usize = start;
    while i < b.len()
        invariant
            start <= i <= b@.len(),
            r@ == b@.subrange(start as int, i as int),
        decreases b@.len() - i,
    {
        r.push(b[i]);
        i = i + 1;
        assert(r@ =~= b@.subrange(start as int, i as int));
    }
    r
}

/// Whether a character is Unicode White_Space, the whitespace `str::trim` removes.
pub open spec fn is_white_space(c: char) -> bool {
    let u = c as u32;
    (0x09 <= u <= 0x0d) || u == 0x20 || u == 0x85 || u == 0xa0 || u == 0x1680 || (0x2000 <= u
        <= 0x200a) || u == 0x2028 || u == 0x2029 || u == 0x202f || u == 0x205f || u == 0x3000
}

/// Whether a character is Unicode White_Space.
fn white_space(c: char) -> (r: bool)
    ensures
        r == is_white_space(c),
{
    let u = c as u32;
    (0x09 <= u && u <= 0x0d) || u == 0x20 || u == 0x85 || u == 0xa0 || u == 0x1680 || (0x2000
        <= u && u <= 0x200a) || u == 0x2028 || u == 0x2029 || u == 0x202f || u == 0x205f || u
        == 0x3000
}

/// The number of whitespace characters at the front of `s`.
pub open spec fn lead_ws(s: Seq<char>) -> int
    decreases s.len(),
{
    if s.len() > 0 && is_white_space(s[0]) {
        1 + lead_ws(s.drop_first())
    } else {
        0
    }
}

/// The number of whitespace characters at the end of `s`.
pub open spec fn trail_ws(s: Seq<char>) -> int
    decreases s.len(),
{
    if s.len() > 0 && is_white_space(s.last()) {
        1 + trail_ws(s.drop_last())
    } else {
        0
    }
}

/// `s` without its leading and trailing whitespace.
pub open spec fn spec_trim(s: Seq<char>) -> Seq<char> {
    let f = s.subrange(lead_ws(s), s.len() as int);
    f.subrange(0, f.len() - trail_ws(f))
}

proof fn lemma_lead_ws(s: Seq<char>, i: int)
    requires
        0 <= i <= s.len(),
        forall|k: int| 0 <= k < i ==> is_white_space(#[trigger] s[k]),
    ensures
        lead_ws(s) == i + lead_ws(s.subrange(i, s.len() as int)),
    decreases i,
{
    if i > 0 {
        assert(s.drop_first().subrange(i - 1, s.drop_first().len() as int) =~= s.subrange(
            i,
            s.len() as int,
        ));
        lemma_lead_ws(s.drop_first(), i - 1);
    } else {
        assert(s.subrange(0, s.len() as int) =~= s);
    }
}

proof fn lemma_trail_ws(s: Seq<char>, j: int)
    requires
        0 <= j <= s.len(),
        forall|k: int| j <= k < s.len() ==> is_white_space(#[trigger] s[k]),
    ensures
        trail_ws(s) == (s.len() - j) + trail_ws(s.subrange(0, j)),
    decreases s.len() - j,
{
    if j < s.len() {
        assert(s.drop_last().subrange(0, j) =~= s.subrange(0, j));
        lemma_trail_ws(s.drop_last(), j);
    } else {
        assert(s.subrange(0, j) =~= s);
    }
}

/// `s` without its leading and trailing whitespace, as `str::trim` gives it.
pub fn trim(s: &str) -> (r: String)
    ensures
        r@ == spec_trim(s@),
{
    let n = s.unicode_len();
    let mut i: usize = 0;
    while i < n && white_space(s.get_char(i))
        invariant
            n == s@.len(),
            i <= n,
            forall|k: int| 0 <= k < i ==> is_white_space(#[trigger] s@[k]),
        decreases n - i,
    {
        i = i + 1;
    }
    proof {
        lemma_lead_ws(s@, i as int);
    }
    let mut j: usize = n;
    while j > i && white_space(s.get_char(j - 1))
        invariant
            n == s@.len(),
            i <= j <= n,
            forall|k: int| j <= k < n ==> is_white_space(#[trigger] s@[k]),
        decreases j,
    {
        j = j - 1;
    }
    let ghost f = s@.subrange(i as int, n as int);
    proof {
        assert(forall|k: int| j - i <= k < f.len() ==> is_white_space(#[trigger] f[k]) ) by {
            assert forall|k: int| j - i <= k < f.len() implies is_white_space(#[trigger] f[k]) by {
                assert(f[k] == s@[i + k]);
            }
        }
        lemma_trail_ws(f, (j - i) as int);
        if j > i {
            assert(f.subrange(0, (j - i) as int).last() == s@[j - 1]);
        } else {
            assert(f.subrange(0, 0).len() == 0);
        }
        if i < n && j == i {
            assert(!is_white_space(s@[i as int]) || i == n);
        }
    }
    let t = s.substring_char(i, j);
    assert(t@ =~= spec_trim(s@));
    String::from_str(t)
}

/// Whether a byte is a binary digit.
pub open spec fn is_bin(c: u8) -> bool {
    c == 0x30 || c == 0x31
}

/// The bits the binary digits of `s` from position `k` on set, the last digit being bit 0.
pub open spec fn bin_bits(s: Seq<u8>, k: int) -> u64
    decreases s.len() - k,
{
    if k < 0 || k >= s.len() {
        0
    } else {
        (if s[k] == 0x31 {
            1u64 << ((s.len() - 1 - k) as u64)
        } else {
            0u64
        }) | bin_bits(s, k + 1)
    }
}

/// Whether reading the binary digits of `s` from the end sets no bit past the 64th: no `1`
/// stands 64 or more places from the end with only binary digits after it.
pub open spec fn bin_fits(s: Seq<u8>) -> bool {
    forall|k: int|
        0 <= k < s.len() && #[trigger] s[k] == 0x31 && s.len() - 1 - k >= 64 ==> exists|j: int|
            k < j < s.len() && !is_bin(#[trigger] s[j])
}

/// Reads binary digits from the end: `Some` of the bits they set when all are binary
/// digits, `None` at the first other byte met.
fn read_bin(s: &[u8]) -> (r: Option<u64>)
    requires
        bin_fits(s@),
    ensures
        match r {
            Some(v) => (forall|k: int| 0 <= k < s@.len() ==> is_bin(#[trigger] s@[k])) && v
                == bin_bits(s@, 0),
            None => exists|k: int| 0 <= k < s@.len() && !is_bin(#[trigger] s@[k]),
        },
{
    let n = s.len();
    let mut number: u64 = 0;
    let mut k: usize = n;
    while k > 0
        invariant
            n == s@.len(),
            k <= n,
            bin_fits(s@),
            forall|j: int| k <= j < n ==> is_bin(#[trigger] s@[j]),
            number == bin_bits(s@, k as int),
        decreases k,
    {
        k = k - 1;
        let c = s[k];
        if c == 0x31 {
            let index = n - 1 - k;
            assert(index < 64) by {
                if index >= 64 {
                    assert(s@[k as int] == 0x31);
                }
            }
            number = (1u64 << (index as u64)) | number;
        } else if c != 0x30 {
            return None;
        } else {
            assert((0u64 | number) == number) by (bit_vector);
        }
    }
    Some(number)
}

/// Whether reading the binary digits of `s` from the end stays within 64 bits.
fn bin_fits_exec(s: &[u8]) -> (r: bool)
    ensures
        r == bin_fits(s@),
{
    let n = s.len();
    let mut k: usize = n;
    let mut all_bin: bool = true;
    while k > 0
        invariant
            n == s@.len(),
            k <= n,
            all_bin == (forall|j: int| k <= j < n ==> is_bin(#[trigger] s@[j])),
            forall|i: int|
                k <= i < n && #[trigger] s@[i] == 0x31 && n - 1 - i >= 64 ==> exists|j: int|
                    i < j < n && !is_bin(#[trigger] s@[j]),
        decreases k,
    {
        k = k - 1;
        if s[k] == 0x31 && n - 1 - k >= 64 && all_bin {
            assert(!bin_fits(s@)) by {
                assert(s@[k as int] == 0x31);
                assert(!(exists|j: int| k < j < n && !is_bin(#[trigger] s@[j])));
            }
            return false;
        }
        if s[k] == 0x31 && n - 1 - k >= 64 {
            let ghost w = choose|j: int| k < j < n && !is_bin(#[trigger] s@[j]);
            assert(k < w < n && !is_bin(s@[w]));
        }
        all_bin = all_bin && (s[k] == 0x30 || s[k] == 0x31);
    }
    true
}

/// The number the hexadecimal digits of `s` spell, each read as `hextoint` reads it.
pub open spec fn hex_value(s: Seq<u8>) -> int
    decreases s.len(),
{
    if s.len() == 0 {
        0
    } else {
        hex_value(s.drop_last()) * 16 + spec_hextoint(byte_char(s.last()))
    }
}

/// The base-16 value of the ASCII hexadecimal digit `d`.
pub open spec fn hex_digit_base16(d: u8) -> int {
    if 0x30 <= d <= 0x39 {
        d - 0x30
    } else if 0x61 <= d <= 0x66 {
        d - 0x61 + 10
    } else {
        d - 0x41 + 10
    }
}

/// Hexadecimal digits read as base-16 positional notation: one more digit `d` after the
/// digits `s` multiplies what `s` spells by 16 and adds `d`'s base-16 value.
pub proof fn lemma_hex_value_digit(s: Seq<u8>, d: u8)
    requires
        0x30 <= d <= 0x39 || 0x61 <= d <= 0x66 || 0x41 <= d <= 0x46,
    ensures
        hex_value(s.push(d)) == 16 * hex_value(s) + hex_digit_base16(d),
{
    crate::tokenizer::lemma_hex_digit_value(byte_char(d));
    assert(s.push(d).drop_last() =~= s);
}

/// The largest number `k` hexadecimal digits spell.
pub open spec fn hex_max(k: nat) -> int
    decreases k,
{
    if k == 0 {
        0
    } else {
        hex_max((k - 1) as nat) * 16 + 15
    }
}

proof fn lemma_hex_max_16()
    ensures
        hex_max(16) == 0xFFFF_FFFF_FFFF_FFFF,
{
    reveal_with_fuel(hex_max, 17);
}

proof fn lemma_hex_max_mono(j: nat, k: nat)
    requires
        j <= k,
    ensures
        0 <= hex_max(j) <= hex_max(k),
    decreases k,
{
    if k > 0 {
        if j < k {
            lemma_hex_max_mono(j, (k - 1) as nat);
        } else {
            lemma_hex_max_mono((k - 1) as nat, (k - 1) as nat);
        }
    }
}

/// Reads at most sixteen hexadecimal digits.
fn read_hex(s: &[u8]) -> (r: u64)
    requires
        s@.len() <= 16,
    ensures
        r == hex_value(s@),
{
    let mut acc: u64 = 0;
    let mut i: usize = 0;
    proof {
        lemma_hex_max_16();
    }
    while i < s.len()
        invariant
            i <= s@.len() <= 16,
            acc == hex_value(s@.take(i as int)),
            0 <= hex_value(s@.take(i as int)) <= hex_max(i as nat),
            hex_max(16) == 0xFFFF_FFFF_FFFF_FFFF,
        decreases s@.len() - i,
    {
        let d = hextoint(s[i] as char);
        assert(s@.take(i + 1).drop_last() =~= s@.take(i as int));
        proof {
            lemma_hex_max_mono((i + 1) as nat, 16);
        }
        acc = acc * 16 + d as u64;
        i = i + 1;
    }
    assert(s@.take(s@.len() as int) =~= s@);
    acc
}

/// The decimal digits of a natural number.
pub open spec fn dec_nat(n: nat) -> Seq<char>
    decreases n,
{
    if n < 10 {
        seq![(n + 0x30) as char]
    } else {
        dec_nat(n / 10).push(((n % 10) + 0x30) as char)
    }
}

/// A number written in decimal, with a minus sign when negative.
pub open spec fn dec_int(v: int) -> Seq<char> {
    if v < 0 {
        seq!['-'] + dec_nat((-v) as nat)
    } else {
        dec_nat(v as nat)
    }
}

/// Appends a natural number in decimal.
pub(crate) fn push_dec(s: &mut String, n: u64)
    ensures
        final(s)@ == old(s)@ + dec_nat(n as nat),
    decreases n,
{
    if n < 10 {
        push_char(s, ((n as u8) + 0x30) as char);
    } else {
        push_dec(s, n / 10);
        push_char(s, (((n % 10) as u8) + 0x30) as char);
    }
}

/// A signed number in decimal, as `format!` writes it.
fn int_to_string(v: i64) -> (r: String)
    ensures
        r@ == dec_int(v as int),
{
    let mut s = String::new();
    if v < 0 {
        push_char(&mut s, '-');
        let m: u64 = if v == i64::MIN {
            0x8000_0000_0000_0000u64
        } else {
            (-v) as u64
        };
        push_dec(&mut s, m);
    } else {
        push_dec(&mut s, v as u64);
    }
    s
}

/// The register whose name has the UTF-8 bytes `b`, as `Register::from_str` reads it.
pub open spec fn register_named(b: Seq<u8>) -> Option<Register> {
    if 2 <= b.len() <= 5 {
        first_match(b)
    } else {
        None
    }
}

/// The register a text names, if any.
fn register_of(s: &str) -> (r: Option<Register>)
    ensures
        r == register_named(encode_utf8(s@)),
{
    match Register::parse(s) {
        Ok(reg) => Some(reg),
        Err(_) => None,
    }
}

/// Reading memory text such as `rbp-8` byte by byte: at each `+` or `-` the text gathered so
/// far is taken as the register (the last such one counts) and gathering starts again,
/// keeping a `-`; the register found and the text gathered at the end.
pub open spec fn mem_scan(b: Seq<u8>) -> (Option<Register>, Seq<char>)
    decreases b.len(),
{
    if b.len() == 0 {
        (None, Seq::empty())
    } else {
        let (r, t) = mem_scan(b.drop_last());
        let c = b.last();
        if c == 0x2d || c == 0x2b {
            (
                register_named(encode_utf8(t)),
                if c == 0x2d {
                    seq!['-']
                } else {
                    Seq::empty()
                },
            )
        } else {
            (r, t.push(byte_char(c)))
        }
    }
}

/// Reads memory text as `mem_scan` does.
fn scan_mem(b: &[u8]) -> (r: (Option<Register>, Vec<char>))
    ensures
        (r.0, r.1@) == mem_scan(b@),
{
    let mut register: Option<Register> = None;
    let mut tmp: Vec<char> = Vec::new();
    let mut i: usize = 0;
    while i < b.len()
        invariant
            i <= b@.len(),
            (register, tmp@) == mem_scan(b@.take(i as int)),
        decreases b@.len() - i,
    {
        let c = b[i];
        assert(b@.take(i + 1).drop_last() =~= b@.take(i as int));
        if c == 0x2d || c == 0x2b {
            let s = string_of(tmp.as_slice());
            register = register_of(s.as_str());
            tmp = Vec::new();
            if c == 0x2d {
                tmp.push('-');
            }
        } else {
            tmp.push(c as char);
        }
        i = i + 1;
        assert(tmp@ =~= mem_scan(b@.take(i as int)).1);
    }
    assert(b@.take(b@.len() as int) =~= b@);
    (register, tmp)
}

/// Whether a byte, taken as the character of the same number, is numeric: a decimal digit,
/// or one of the Latin-1 superscripts and fractions.
pub open spec fn is_numeric_byte(c: u8) -> bool {
    (0x30 <= c <= 0x39) || c == 0xb2 || c == 0xb3 || c == 0xb9 || c == 0xbc || c == 0xbd || c
        == 0xbe
}

/// A value read from source text. A floating-point number keeps its text, to be read where
/// floating point is.
#[derive(Clone, Debug, PartialEq)]
pub enum Value {
    Register(Register),
    Char(char),
    Int(i64),
    Uint(u64),
    Float(String),
    String(String),
    ConstRef(String),
    BSSRef(String),
    MemAddr(Register),
    MemWOffset(Register, i64),
}

/// What reading a text as a value gives: a value, a floating-point number (the text itself),
/// or an error with its message.
pub enum ValueRead {
    Register(Register),
    Char(char),
    Int(i64),
    Uint(u64),
    Float,
    MemAddr(Register),
    MemWOffset(Register, i64),
    Error(Seq<char>),
}

/// Whether `b` starts with the bytes of `p`.
pub open spec fn starts(b: Seq<u8>, p: Seq<u8>) -> bool {
    b.len() >= p.len() && b.subrange(0, p.len() as int) == p
}

/// The message for an invalid binary number.
pub open spec fn bad_binary(value: Seq<char>) -> Seq<char> {
    "ERR-VAL-0002: Invalid binary number found: `"@ + value + "`"@
}

/// Reading a text as a value, `is_float` telling whether it reads as a floating-point
/// number: an unsigned number, a signed one, a register (around whitespace), a
/// floating-point number, a single character (a numeric one as its digit's value), a
/// binary or hexadecimal number with `0b`/`0x` (negative with `-0b`/`-0x`; a hexadecimal
/// digit that is none counts 0), else a memory address: a register with an optional signed
/// offset.
pub open spec fn spec_read_value(value: Seq<char>, is_float: bool) -> ValueRead {
    let b = encode_utf8(value);
    if b.len() == 0 {
        ValueRead::Error("E-VAL-0001: Passed empty value!"@)
    } else if spec_parse_u64(b) is Some {
        ValueRead::Uint(spec_parse_u64(b).unwrap())
    } else if spec_parse_i64(b) is Some {
        ValueRead::Int(spec_parse_i64(b).unwrap())
    } else if register_named(encode_utf8(spec_trim(value))) is Some {
        ValueRead::Register(register_named(encode_utf8(spec_trim(value))).unwrap())
    } else if is_float {
        ValueRead::Float
    } else if b.len() == 1 {
        if is_numeric_byte(b[0]) {
            ValueRead::Int((b[0] - 0x30) as i64)
        } else {
            ValueRead::Char(byte_char(b[0]))
        }
    } else if starts(b, seq![0x30u8, 0x62]) {
        let s = b.subrange(2, b.len() as int);
        if forall|k: int| 0 <= k < s.len() ==> is_bin(#[trigger] s[k]) {
            ValueRead::Uint(bin_bits(s, 0))
        } else {
            ValueRead::Error(bad_binary(value))
        }
    } else if starts(b, seq![0x2du8, 0x30, 0x62]) {
        let s = b.subrange(3, b.len() as int);
        if forall|k: int| 0 <= k < s.len() ==> is_bin(#[trigger] s[k]) {
            ValueRead::Int((-((bin_bits(s, 0) as i64) as int)) as i64)
        } else {
            ValueRead::Error(bad_binary(value))
        }
    } else if starts(b, seq![0x30u8, 0x78]) {
        ValueRead::Uint(hex_value(b.subrange(2, b.len() as int)) as u64)
    } else if starts(b, seq![0x2du8, 0x30, 0x78]) {
        ValueRead::Int((-hex_value(b.subrange(3, b.len() as int))) as i64)
    } else {
        let (r, t) = mem_scan(b);
        match (r, spec_parse_i64(encode_utf8(t))) {
            (Some(reg), Some(o)) => ValueRead::MemWOffset(reg, o),
            (Some(reg), None) => ValueRead::MemAddr(reg),
            (None, Some(v)) => ValueRead::Error(
                "E-VAL-0002: Found `offset = "@ + dec_int(v as int)
                    + "`, but didn't found register in `"@ + value + "`"@,
            ),
            (None, None) => ValueRead::Error(
                "E-VAL-0003: In beetwen '[' and ']' expected memory address (with or without offset), found: `"@
                    + value + "`"@,
            ),
        }
    }
}

/// What reading a text as a value needs to stay within 64 bits: a binary number sets no bit
/// past the 64th and a negative one is not -2^63 negated; a hexadecimal number has at most
/// sixteen digits, and a negative one fits a signed 64-bit number.
pub open spec fn value_fits(value: Seq<char>, is_float: bool) -> bool {
    let b = encode_utf8(value);
    if b.len() == 0 || spec_parse_u64(b) is Some || spec_parse_i64(b) is Some || register_named(
        encode_utf8(spec_trim(value)),
    ) is Some || is_float || b.len() == 1 {
        true
    } else if starts(b, seq![0x30u8, 0x62]) {
        bin_fits(b.subrange(2, b.len() as int))
    } else if starts(b, seq![0x2du8, 0x30, 0x62]) {
        let s = b.subrange(3, b.len() as int);
        bin_fits(s) && ((forall|k: int| 0 <= k < s.len() ==> is_bin(#[trigger] s[k]))
            ==> bin_bits(s, 0) != 0x8000_0000_0000_0000u64)
    } else if starts(b, seq![0x30u8, 0x78]) {
        b.len() - 2 <= 16
    } else if starts(b, seq![0x2du8, 0x30, 0x78]) {
        b.len() - 3 <= 16 && hex_value(b.subrange(3, b.len() as int)) <= i64::MAX
    } else {
        true
    }
}

/// Whether a result of reading `text` as a value is the one `v` describes.
pub open spec fn value_result_is(r: Result<Value, String>, v: ValueRead, text: Seq<char>) -> bool {
    match v {
        ValueRead::Register(x) => r matches Ok(Value::Register(y)) && y == x,
        ValueRead::Char(x) => r matches Ok(Value::Char(y)) && y == x,
        ValueRead::Int(x) => r matches Ok(Value::Int(y)) && y == x,
        ValueRead::Uint(x) => r matches Ok(Value::Uint(y)) && y == x,
        ValueRead::Float => r matches Ok(Value::Float(t)) && t@ == text,
        ValueRead::MemAddr(x) => r matches Ok(Value::MemAddr(y)) && y == x,
        ValueRead::MemWOffset(x, o) => r matches Ok(Value::MemWOffset(y, p)) && y == x && p == o,
        ValueRead::Error(m) => r matches Err(e) && e@ == m,
    }
}

impl Value {
    /// Reads a text as a value, `is_float` telling whether the text reads as a
    /// floating-point number: the value `spec_read_value` describes, or its error message.
    pub fn parse(value: &str, is_float: bool) -> (r: Result<Value, String>)
        requires
            value_fits(value@, is_float),
        ensures
            value_result_is(r, spec_read_value(value@, is_float), value@),
    {
        let b = value.as_bytes();
        if b.len() == 0 {
            return Err(String::from_str("E-VAL-0001: Passed empty value!"));
        }
        if let Some(u) = parse_u64(b) {
            return Ok(Value::Uint(u));
        }
        if let Some(i) = parse_i64(b) {
            return Ok(Value::Int(i));
        }
        let trimmed = trim(value);
        if let Some(reg) = register_of(trimmed.as_str()) {
            return Ok(Value::Register(reg));
        }
        if is_float {
            return Ok(Value::Float(String::from_str(value)));
        }
        if b.len() == 1 {
            let c = b[0];
            if (0x30 <= c && c <= 0x39) || c == 0xb2 || c == 0xb3 || c == 0xb9 || c == 0xbc || c
                == 0xbd || c == 0xbe {
                return Ok(Value::Int((c - 0x30) as i64));
            }
            return Ok(Value::Char(c as char));
        }
        if b[0] == 0x30 && b[1] == 0x62 {
            assert(b@.subrange(0, 2) =~= seq![0x30u8, 0x62]);
            let s = slice_from(b, 2);
            return match read_bin(s.as_slice()) {
                Some(v) => Ok(Value::Uint(v)),
                None => Err(bad_binary_message(value)),
            };
        }
        assert(b@.subrange(0, 2) != seq![0x30u8, 0x62]) by {
            if b@.subrange(0, 2) == seq![0x30u8, 0x62] {
                assert(b@.subrange(0, 2)[0] == b@[0] && b@.subrange(0, 2)[1] == b@[1]);
            }
        }
        if b.len() >= 3 && b[0] == 0x2d && b[1] == 0x30 && b[2] == 0x62 {
            assert(b@.subrange(0, 3) =~= seq![0x2du8, 0x30, 0x62]);
            let s = slice_from(b, 3);
            return match read_bin(s.as_slice()) {
                Some(v) => {
                    let n = (#[verifier::truncate] (v as i64));
                    assert(v != 0x8000_0000_0000_0000u64 ==> n != i64::MIN) by (bit_vector)
                        requires
                            n == v as i64,
                    ;
                    Ok(Value::Int(-n))
                },
                None => Err(bad_binary_message(value)),
            };
        }
        assert(!starts(b@, seq![0x2du8, 0x30, 0x62])) by {
            if starts(b@, seq![0x2du8, 0x30, 0x62]) {
                assert(b@.subrange(0, 3)[0] == b@[0] && b@.subrange(0, 3)[1] == b@[1] && b@.subrange(0, 3)[2] == b@[2]);
            }
        }
        if b[0] == 0x30 && b[1] == 0x78 {
            assert(b@.subrange(0, 2) =~= seq![0x30u8, 0x78]);
            let s = slice_from(b, 2);
            return Ok(Value::Uint(read_hex(s.as_slice())));
        }
        assert(b@.subrange(0, 2) != seq![0x30u8, 0x78]) by {
            if b@.subrange(0, 2) == seq![0x30u8, 0x78] {
                assert(b@.subrange(0, 2)[0] == b@[0] && b@.subrange(0, 2)[1] == b@[1]);
            }
        }
        if b.len() >= 3 && b[0] == 0x2d && b[1] == 0x30 && b[2] == 0x78 {
            assert(b@.subrange(0, 3) =~= seq![0x2du8, 0x30, 0x78]);
            let s = slice_from(b, 3);
            let v = read_hex(s.as_slice());
            return Ok(Value::Int(-(v as i64)));
        }
        assert(!starts(b@, seq![0x2du8, 0x30, 0x78])) by {
            if starts(b@, seq![0x2du8, 0x30, 0x78]) {
                assert(b@.subrange(0, 3)[0] == b@[0] && b@.subrange(0, 3)[1] == b@[1] && b@.subrange(0, 3)[2] == b@[2]);
            }
        }
        let (reg, tmp) = scan_mem(b);
        let gathered = string_of(tmp.as_slice());
        let offset = parse_i64(gathered.as_str().as_bytes());
        match (reg, offset) {
            (Some(r), Some(o)) => Ok(Value::MemWOffset(r, o)),
            (Some(r), None) => Ok(Value::MemAddr(r)),
            (None, Some(v)) => {
                let mut m = String::from_str("E-VAL-0002: Found `offset = ");
                let d = int_to_string(v);
                m.append(d.as_str());
                m.append("`, but didn't found register in `");
                m.append(value);
                m.append("`");
                Err(m)
            },
            (None, None) => {
                let mut m = String::from_str(
                    "E-VAL-0003: In beetwen '[' and ']' expected memory address (with or without offset), found: `",
                );
                m.append(value);
                m.append("`");
                Err(m)
            },
        }
    }
}

impl Value {
    /// Whether reading `value` as a value stays within 64-bit arithmetic, as `value_fits`
    /// says.
    pub fn fits(value: &str, is_float: bool) -> (r: bool)
        ensures
            r == value_fits(value@, is_float),
    {
        let b = value.as_bytes();
        if b.len() == 0 || b.len() == 1 || is_float {
            return true;
        }
        if parse_u64(b).is_some() || parse_i64(b).is_some() {
            return true;
        }
        let trimmed = trim(value);
        if register_of(trimmed.as_str()).is_some() {
            return true;
        }
        if b[0] == 0x30 && b[1] == 0x62 {
            assert(b@.subrange(0, 2) =~= seq![0x30u8, 0x62]);
            let s = slice_from(b, 2);
            return bin_fits_exec(s.as_slice());
        }
        assert(b@.subrange(0, 2) != seq![0x30u8, 0x62]) by {
            if b@.subrange(0, 2) == seq![0x30u8, 0x62] {
                assert(b@.subrange(0, 2)[0] == b@[0] && b@.subrange(0, 2)[1] == b@[1]);
            }
        }
        if b.len() >= 3 && b[0] == 0x2d && b[1] == 0x30 && b[2] == 0x62 {
            assert(b@.subrange(0, 3) =~= seq![0x2du8, 0x30, 0x62]);
            let s = slice_from(b, 3);
            if !bin_fits_exec(s.as_slice()) {
                return false;
            }
            return match read_bin(s.as_slice()) {
                Some(v) => v != 0x8000_0000_0000_0000u64,
                None => true,
            };
        }
        assert(!starts(b@, seq![0x2du8, 0x30, 0x62])) by {
            if starts(b@, seq![0x2du8, 0x30, 0x62]) {
                assert(b@.subrange(0, 3)[0] == b@[0] && b@.subrange(0, 3)[1] == b@[1] && b@.subrange(0, 3)[2] == b@[2]);
            }
        }
        if b[0] == 0x30 && b[1] == 0x78 {
            assert(b@.subrange(0, 2) =~= seq![0x30u8, 0x78]);
            return b.len() - 2 <= 16;
        }
        assert(b@.subrange(0, 2) != seq![0x30u8, 0x78]) by {
            if b@.subrange(0, 2) == seq![0x30u8, 0x78] {
                assert(b@.subrange(0, 2)[0] == b@[0] && b@.subrange(0, 2)[1] == b@[1]);
            }
        }
        if b.len() >= 3 && b[0] == 0x2d && b[1] == 0x30 && b[2] == 0x78 {
            assert(b@.subrange(0, 3) =~= seq![0x2du8, 0x30, 0x78]);
            if b.len() - 3 > 16 {
                return false;
            }
            let s = slice_from(b, 3);
            return read_hex(s.as_slice()) <= 0x7FFF_FFFF_FFFF_FFFFu64;
        }
        assert(!starts(b@, seq![0x2du8, 0x30, 0x78])) by {
            if starts(b@, seq![0x2du8, 0x30, 0x78]) {
                assert(b@.subrange(0, 3)[0] == b@[0] && b@.subrange(0, 3)[1] == b@[1] && b@.subrange(0, 3)[2] == b@[2]);
            }
        }
        true
    }
}

/// The message for an invalid binary number.
fn bad_binary_message(value: &str) -> (r: String)
    ensures
        r@ == bad_binary(value@),
{
    let mut m = String::from_str("ERR-VAL-0002: Invalid binary number found: `");
    m.append(value);
    m.append("`");
    m
}

} // verus!
