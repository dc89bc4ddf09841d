//! Byte-string helpers shared by the wire protocols: ASCII literals,
//! little-endian fields, prefix tests and small number formatting.

use vstd::prelude::*;

verus! {

/// The bytes of an ASCII character sequence.
pub open spec fn ascii(s: Seq<char>) -> Seq<u8> {
    Seq::new(s.len(), |i: int| s[i] as u8)
}

/// Little-endian encoding of a 16-bit value.
pub open spec fn le16(v: u16) -> Seq<u8> {
    seq![(v & 0xff) as u8, ((v >> 8u16) & 0xff) as u8]
}

/// Little-endian encoding of a 32-bit value.
pub open spec fn le32(v: u32) -> Seq<u8> {
    seq![
        (v & 0xff) as u8,
        ((v >> 8u32) & 0xff) as u8,
        ((v >> 16u32) & 0xff) as u8,
        ((v >> 24u32) & 0xff) as u8,
    ]
}

/// The 16-bit value stored little-endian at `at`.
pub open spec fn read_le16(s: Seq<u8>, at: int) -> u16 {
    (s[at] as u16) | ((s[at + 1] as u16) << 8u16)
}

/// The 32-bit value stored little-endian at `at`.
pub open spec fn read_le32(s: Seq<u8>, at: int) -> u32 {
    (s[at] as u32) | ((s[at + 1] as u32) << 8u32) | ((s[at + 2] as u32) << 16u32) | ((
    s[at + 3] as u32) << 24u32)
}

/// Reading back a little-endian 32-bit field gives the value written.
pub proof fn lemma_le32_roundtrip(v: u32, prefix: Seq<u8>, suffix: Seq<u8>)
    ensures
        read_le32(prefix + le32(v) + suffix, prefix.len() as int) == v,
{
    let s = prefix + le32(v) + suffix;
    let p = prefix.len() as int;
    assert(s[p] == (v & 0xff) as u8);
    assert(s[p + 1] == ((v >> 8u32) & 0xff) as u8);
    assert(s[p + 2] == ((v >> 16u32) & 0xff) as u8);
    assert(s[p + 3] == ((v >> 24u32) & 0xff) as u8);
    let b0 = s[p];
    let b1 = s[p + 1];
    let b2 = s[p + 2];
    let b3 = s[p + 3];
    assert((b0 as u32) | ((b1 as u32) << 8u32) | ((b2 as u32) << 16u32) | ((b3 as u32) << 24u32)
        == v) by (bit_vector)
        requires
            b0 == (v & 0xff) as u8,
            b1 == ((v >> 8u32) & 0xff) as u8,
            b2 == ((v >> 16u32) & 0xff) as u8,
            b3 == ((v >> 24u32) & 0xff) as u8,
    ;
}

/// Reading back a little-endian 16-bit field gives the value written.
pub proof fn lemma_le16_roundtrip(v: u16, prefix: Seq<u8>, suffix: Seq<u8>)
    ensures
        read_le16(prefix + le16(v) + suffix, prefix.len() as int) == v,
{
    let s = prefix + le16(v) + suffix;
    let p = prefix.len() as int;
    assert(s[p] == (v & 0xff) as u8);
    assert(s[p + 1] == ((v >> 8u16) & 0xff) as u8);
    let b0 = s[p];
    let b1 = s[p + 1];
    assert((b0 as u16) | ((b1 as u16) << 8u16) == v) by (bit_vector)
        requires
            b0 == (v & 0xff) as u8,
            b1 == ((v >> 8u16) & 0xff) as u8,
    ;
}

/// The bytes of an ASCII string literal.
pub fn literal(s: &str) -> (b: &[u8])
    requires
        vstd::string::is_ascii(s),
    ensures
        b@ == ascii(s@),
{
    proof {
        vstd::string::is_ascii_spec_bytes(s);
    }
    s.as_bytes()
}

/// Byte-wise equality of two slices.
pub fn bytes_equal(a: &[u8], b: &[u8]) -> (eq: bool)
    ensures
        eq == (a@ == b@),
{
    if a.len() != b.len() {
        return false;
    }
    let mut i: usize = 0;
    while i < a.len()
        invariant
            a.len() == b.len(),
            i <= a.len(),
            forall|j: int| 0 <= j < i ==> a@[j] == b@[j],
        decreases a.len() - i,
    {
        if a[i] != b[i] {
            return false;
        }
        i += 1;
    }
    assert(a@ =~= b@);
    true
}

/// Whether `s` begins with `prefix`.
pub fn starts_with(s: &[u8], prefix: &[u8]) -> (r: bool)
    ensures
        r == (prefix@.len() <= s@.len() && s@.subrange(0, prefix@.len() as int) == prefix@),
{
    if prefix.len() > s.len() {
        return false;
    }
    let head = vstd::slice::slice_subrange(s, 0, prefix.len());
    bytes_equal(head, prefix)
}

/// The rest of `s` after `prefix`, when `s` begins with it.
pub fn strip_prefix<'a>(s: &'a [u8], prefix: &[u8]) -> (r: Option<&'a [u8]>)
    ensures
        match r {
            Some(rest) => prefix@.len() <= s@.len() && s@.subrange(0, prefix@.len() as int)
                == prefix@ && rest@ == s@.subrange(prefix@.len() as int, s@.len() as int),
            None => !(prefix@.len() <= s@.len() && s@.subrange(0, prefix@.len() as int)
                == prefix@),
        },
{
    if starts_with(s, prefix) {
        Some(vstd::slice::slice_subrange(s, prefix.len(), s.len()))
    } else {
        None
    }
}

/// Decode the little-endian 16-bit field at `at`.
pub fn get_le16(s: &[u8], at: usize) -> (v: u16)
    requires
        at + 2 <= s@.len(),
    ensures
        v == read_le16(s@, at as int),
{
    (s[at] as u16) | ((s[at + 1] as u16) << 8u16)
}

/// Decode the little-endian 32-bit field at `at`.
pub fn get_le32(s: &[u8], at: usize) -> (v: u32)
    requires
        at + 4 <= s@.len(),
    ensures
        v == read_le32(s@, at as int),
{
    (s[at] as u32) | ((s[at + 1] as u32) << 8u32) | ((s[at + 2] as u32) << 16u32) | ((s[at
        + 3] as u32) << 24u32)
}

/// Append the little-endian encoding of a 16-bit value.
pub fn push_le16(out: &mut Vec<u8>, v: u16)
    ensures
        final(out)@ == old(out)@ + le16(v),
{
    out.push((v & 0xff) as u8);
    out.push(((v >> 8u16) & 0xff) as u8);
    assert(final(out)@ =~= old(out)@ + le16(v));
}

/// Append the little-endian encoding of a 32-bit value.
pub fn push_le32(out: &mut Vec<u8>, v: u32)
    ensures
        final(out)@ == old(out)@ + le32(v),
{
    out.push((v & 0xff) as u8);
    out.push(((v >> 8u32) & 0xff) as u8);
    out.push(((v >> 16u32) & 0xff) as u8);
    out.push(((v >> 24u32) & 0xff) as u8);
    assert(final(out)@ =~= old(out)@ + le32(v));
}

/// Append every byte of `src`.
pub fn push_bytes(out: &mut Vec<u8>, src: &[u8])
    ensures
        final(out)@ == old(out)@ + src@,
{
    let mut i: usize = 0;
    while i < src.len()
        invariant
            i <= src@.len(),
            out@ == old(out)@ + src@.subrange(0, i as int),
        decreases src.len() - i,
    {
        out.push(src[i]);
        i += 1;
        assert(out@ =~= old(out)@ + src@.subrange(0, i as int));
    }
    assert(src@.subrange(0, src@.len() as int) =~= src@);
}

} // verus!

verus! {

/// The lower-case hexadecimal digit for a nibble.
pub open spec fn hex_digit(n: u32) -> u8 {
    if n < 10 {
        (48 + n) as u8
    } else {
        (87 + n) as u8
    }
}

/// Eight lower-case hexadecimal digits of a 32-bit value, most significant first.
pub open spec fn hex8(v: u32) -> Seq<u8> {
    Seq::new(8, |i: int| hex_digit(((v >> ((28 - 4 * i) as u32)) & 0xf) as u32))
}

/// Append the eight-digit zero-padded lower-case hexadecimal form of `v`.
pub fn push_hex8(out: &mut Vec<u8>, v: u32)
    ensures
        final(out)@ == old(out)@ + hex8(v),
{
    let mut i: u32 = 0;
    while i < 8
        invariant
            i <= 8,
            out@ == old(out)@ + hex8(v).subrange(0, i as int),
        decreases 8 - i,
    {
        let shift: u32 = 28 - 4 * i;
        let nibble: u32 = (v >> shift) & 0xf;
        assert(nibble < 16) by (bit_vector)
            requires
                nibble == (v >> shift) & 0xf,
        ;
        let digit: u8 = if nibble < 10 {
            (48 + nibble) as u8
        } else {
            (87 + nibble) as u8
        };
        out.push(digit);
        assert(hex8(v)[i as int] == digit);
        i += 1;
        assert(out@ =~= old(out)@ + hex8(v).subrange(0, i as int));
    }
    assert(hex8(v).subrange(0, 8) =~= hex8(v));
}

/// Whether every byte is an ASCII decimal digit.
pub open spec fn all_digits(s: Seq<u8>) -> bool {
    forall|i: int| 0 <= i < s.len() ==> 48 <= #[trigger] s[i] <= 57
}

/// The value of a string of decimal digits.
pub open spec fn decimal_value(s: Seq<u8>) -> nat
    decreases s.len(),
{
    if s.len() == 0 {
        0
    } else {
        decimal_value(s.drop_last()) * 10 + (s.last() - 48) as nat
    }
}

/// The digits an unsigned number is written with: the text after an
/// optional leading `+`.
pub open spec fn unsigned_digits(s: Seq<u8>) -> Seq<u8> {
    if s.len() > 0 && s[0] == 43 {
        s.subrange(1, s.len() as int)
    } else {
        s
    }
}

/// Whether `s` is an unsigned decimal number that fits in `bound`.
pub open spec fn parses_decimal(s: Seq<u8>, bound: nat) -> bool {
    let d = unsigned_digits(s);
    d.len() > 0 && all_digits(d) && decimal_value(d) <= bound
}

/// Parse an unsigned decimal number (optionally led by `+`), as the standard
/// library's unsigned integer parser accepts it; `None` on any other text or
/// on a value above `u64::MAX`.
pub fn parse_u64_decimal(s: &[u8]) -> (r: Option<u64>)
    ensures
        match r {
            Some(v) => parses_decimal(s@, u64::MAX as nat) && v == decimal_value(
                unsigned_digits(s@),
            ),
            None => !parses_decimal(s@, u64::MAX as nat),
        },
{
    let start: usize = if s.len() > 0 && s[0] == 43 {
        1
    } else {
        0
    };
    let ghost d = unsigned_digits(s@);
    assert(d =~= s@.subrange(start as int, s@.len() as int));
    if start >= s.len() {
        return None;
    }
    let mut value: u64 = 0;
    let mut i: usize = start;
    while i < s.len()
        invariant
            start <= i <= s@.len(),
            start < s@.len(),
            d == unsigned_digits(s@),
            d =~= s@.subrange(start as int, s@.len() as int),
            all_digits(s@.subrange(start as int, i as int)),
            value == decimal_value(s@.subrange(start as int, i as int)),
        decreases s.len() - i,
    {
        let c = s[i];
        if c < 48 || c > 57 {
            assert(d[i - start] == c);
            assert(!all_digits(d));
            return None;
        }
        let digit: u64 = (c - 48) as u64;
        let ghost prefix = s@.subrange(start as int, (i + 1) as int);
        assert(prefix.drop_last() =~= s@.subrange(start as int, i as int));
        if value > (u64::MAX - digit) / 10 {
            proof {
                assert(decimal_value(prefix) > u64::MAX) by (nonlinear_arith)
                    requires
                        value > (u64::MAX - digit) / 10,
                        decimal_value(prefix) == value * 10 + digit,
                        digit <= 9,
                ;
                assert(d.subrange(0, (i + 1 - start) as int) =~= prefix);
                if all_digits(d) {
                    lemma_decimal_value_prefix_bound(d, (i + 1 - start) as int);
                }
            }
            return None;
        }
        assert(value * 10 + digit <= u64::MAX) by (nonlinear_arith)
            requires
                value <= (u64::MAX - digit) / 10,
                digit <= 9,
        ;
        value = value * 10 + digit;
        i += 1;
        assert(all_digits(s@.subrange(start as int, i as int)));
    }
    Some(value)
}

/// A decimal number is at least as large as any of its prefixes.
pub proof fn lemma_decimal_value_prefix_bound(d: Seq<u8>, k: int)
    requires
        0 <= k <= d.len(),
        all_digits(d),
    ensures
        decimal_value(d.subrange(0, k)) <= decimal_value(d),
    decreases d.len(),
{
    if k < d.len() {
        assert(d.drop_last() =~= d.subrange(0, d.len() - 1));
        assert(all_digits(d.drop_last()));
        lemma_decimal_value_prefix_bound(d.drop_last(), k);
        assert(d.drop_last().subrange(0, k) =~= d.subrange(0, k));
        assert(decimal_value(d) >= decimal_value(d.drop_last())) by (nonlinear_arith)
            requires
                decimal_value(d) == decimal_value(d.drop_last()) * 10 + (d.last() - 48) as nat,
                d.last() >= 48,
        ;
    } else {
        assert(d.subrange(0, k) =~= d);
    }
}

/// Parse an unsigned decimal number that fits in 32 bits.
pub fn parse_u32_decimal(s: &[u8]) -> (r: Option<u32>)
    ensures
        match r {
            Some(v) => parses_decimal(s@, u32::MAX as nat) && v == decimal_value(
                unsigned_digits(s@),
            ),
            None => !parses_decimal(s@, u32::MAX as nat),
        },
{
    match parse_u64_decimal(s) {
        Some(v) => {
            if v <= u32::MAX as u64 {
                Some(v as u32)
            } else {
                None
            }
        },
        None => None,
    }
}

/// The value of an ASCII hexadecimal digit (either case), or -1.
pub open spec fn hex_digit_value(c: u8) -> int {
    if 48 <= c <= 57 {
        c - 48
    } else if 97 <= c <= 102 {
        c - 87
    } else if 65 <= c <= 70 {
        c - 55
    } else {
        -1
    }
}

/// Whether every byte is a hexadecimal digit.
pub open spec fn all_hex(s: Seq<u8>) -> bool {
    forall|i: int| 0 <= i < s.len() ==> hex_digit_value(#[trigger] s[i]) >= 0
}

/// The value of a string of hexadecimal digits.
pub open spec fn hex_value(s: Seq<u8>) -> nat
    decreases s.len(),
{
    if s.len() == 0 {
        0
    } else {
        hex_value(s.drop_last()) * 16 + hex_digit_value(s.last()) as nat
    }
}

/// Whether `s` is an unsigned hexadecimal number (an optional `+`, then at
/// least one digit, no `0x`) that fits in `bound`.
pub open spec fn parses_hex(s: Seq<u8>, bound: nat) -> bool {
    let d = unsigned_digits(s);
    d.len() > 0 && all_hex(d) && hex_value(d) <= bound
}

/// A hexadecimal number is at least as large as any of its prefixes.
pub proof fn lemma_hex_value_prefix_bound(d: Seq<u8>, k: int)
    requires
        0 <= k <= d.len(),
        all_hex(d),
    ensures
        hex_value(d.subrange(0, k)) <= hex_value(d),
    decreases d.len(),
{
    if k < d.len() {
        assert(d.drop_last() =~= d.subrange(0, d.len() - 1));
        assert(all_hex(d.drop_last()));
        lemma_hex_value_prefix_bound(d.drop_last(), k);
        assert(d.drop_last().subrange(0, k) =~= d.subrange(0, k));
        assert(hex_digit_value(d.last()) >= 0);
        assert(hex_value(d) >= hex_value(d.drop_last())) by (nonlinear_arith)
            requires
                hex_value(d) == hex_value(d.drop_last()) * 16 + hex_digit_value(d.last()) as nat,
        ;
    } else {
        assert(d.subrange(0, k) =~= d);
    }
}

fn hex_digit_of(c: u8) -> (r: Option<u64>)
    ensures
        match r {
            Some(v) => hex_digit_value(c) >= 0 && v == hex_digit_value(c) && v < 16,
            None => hex_digit_value(c) < 0,
        },
{
    if 48 <= c && c <= 57 {
        Some((c - 48) as u64)
    } else if 97 <= c && c <= 102 {
        Some((c - 87) as u64)
    } else if 65 <= c && c <= 70 {
        Some((c - 55) as u64)
    } else {
        None
    }
}

/// Parse an unsigned hexadecimal number that fits in 32 bits, as the
/// standard library's radix-16 parser accepts it: an optional `+`, then
/// digits of either case.
pub fn parse_u32_hex(s: &[u8]) -> (r: Option<u32>)
    ensures
        match r {
            Some(v) => parses_hex(s@, u32::MAX as nat) && v == hex_value(unsigned_digits(s@)),
            None => !parses_hex(s@, u32::MAX as nat),
        },
{
    let start: usize = if s.len() > 0 && s[0] == 43 {
        1
    } else {
        0
    };
    let ghost d = unsigned_digits(s@);
    assert(d =~= s@.subrange(start as int, s@.len() as int));
    if start >= s.len() {
        return None;
    }
    let mut value: u64 = 0;
    let mut i: usize = start;
    while i < s.len()
        invariant
            start <= i <= s@.len(),
            start < s@.len(),
            d == unsigned_digits(s@),
            d =~= s@.subrange(start as int, s@.len() as int),
            all_hex(s@.subrange(start as int, i as int)),
            value == hex_value(s@.subrange(start as int, i as int)),
            value <= u32::MAX,
        decreases s.len() - i,
    {
        let c = s[i];
        let digit = match hex_digit_of(c) {
            Some(v) => v,
            None => {
                assert(d[i - start] == c);
                assert(!all_hex(d));
                return None;
            },
        };
        let ghost prefix = s@.subrange(start as int, (i + 1) as int);
        assert(prefix.drop_last() =~= s@.subrange(start as int, i as int));
        assert(hex_value(prefix) == value * 16 + digit);
        let next = value * 16 + digit;
        if next > u32::MAX as u64 {
            proof {
                assert(d.subrange(0, (i + 1 - start) as int) =~= prefix);
                if all_hex(d) {
                    lemma_hex_value_prefix_bound(d, (i + 1 - start) as int);
                }
            }
            return None;
        }
        value = next;
        i += 1;
        assert(all_hex(s@.subrange(start as int, i as int)));
    }
    Some(value as u32)
}

/// `s` without every leading `0x`.
pub open spec fn trim_hex_prefixes(s: Seq<u8>) -> Seq<u8>
    decreases s.len(),
{
    if s.len() >= 2 && s[0] == 48 && s[1] == 120 {
        trim_hex_prefixes(s.subrange(2, s.len() as int))
    } else {
        s
    }
}

/// Strip every leading `0x` from `s`.
pub fn trim_hex_prefix(s: &[u8]) -> (r: &[u8])
    ensures
        r@ == trim_hex_prefixes(s@),
{
    let mut start: usize = 0;
    assert(s@.subrange(0, s@.len() as int) =~= s@);
    while s.len() - start >= 2 && s[start] == 48 && s[start + 1] == 120
        invariant
            start <= s@.len(),
            trim_hex_prefixes(s@.subrange(start as int, s@.len() as int)) == trim_hex_prefixes(s@),
        decreases s.len() - start,
    {
        let ghost rest = s@.subrange(start as int, s@.len() as int);
        assert(rest.subrange(2, rest.len() as int) =~= s@.subrange(start + 2, s@.len() as int));
        start += 2;
    }
    let r = vstd::slice::slice_subrange(s, start, s.len());
    proof {
        let rest = s@.subrange(start as int, s@.len() as int);
        assert(r@ =~= rest);
    }
    r
}

} // verus!
