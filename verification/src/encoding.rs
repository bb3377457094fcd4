//! Small byte-level codecs used for identifiers and file names: lower-case
//! hex, decimal rendering of counters, big-endian and little-endian reads and
//! writes of 64-bit integers, and the ASCII bytes-to-string bridge.

use vstd::prelude::*;

verus! {

/// The characters a sequence of ASCII bytes denotes.
pub open spec fn chars_of_bytes(s: Seq<u8>) -> Seq<char> {
    Seq::new(s.len(), |i: int| s[i] as char)
}

/// The lower-case hex digit for a nibble.
pub open spec fn hex_digit(n: u8) -> u8
    recommends
        n < 16,
{
    if n < 10 {
        (48 + n) as u8
    } else {
        (87 + n) as u8
    }
}

/// Lower-case hex encoding of a byte sequence, as ASCII bytes.
pub open spec fn hex_bytes_of(s: Seq<u8>) -> Seq<u8>
    decreases s.len(),
{
    if s.len() == 0 {
        Seq::empty()
    } else {
        seq![hex_digit(s.first() / 16), hex_digit(s.first() % 16)] + hex_bytes_of(s.drop_first())
    }
}

/// Every hex digit is a lower-case letter or a decimal digit.
pub proof fn lemma_hex_bytes_range(s: Seq<u8>)
    ensures
        hex_bytes_of(s).len() == 2 * s.len(),
        forall|i: int|
            0 <= i < hex_bytes_of(s).len() ==> (48 <= #[trigger] hex_bytes_of(s)[i] <= 57 || 97
                <= hex_bytes_of(s)[i] <= 102),
    decreases s.len(),
{
    if s.len() > 0 {
        lemma_hex_bytes_range(s.drop_first());
    }
}

/// Appends the lower-case hex encoding of `data` to `out`.
pub fn push_hex_bytes(data: &[u8], out: &mut Vec<u8>)
    ensures
        final(out)@ == old(out)@ + hex_bytes_of(data@),
{
    let n = data.len();
    assert(data@.skip(0) == data@);
    for i in 0..n
        invariant
            n == data@.len(),
            out@ + hex_bytes_of(data@.skip(i as int)) =~= old(out)@ + hex_bytes_of(data@),
    {
        let b = data[i];
        let hi: u8 = b / 16;
        let lo: u8 = b % 16;
        let hi_digit: u8 = if hi < 10 {
            48 + hi
        } else {
            87 + hi
        };
        let lo_digit: u8 = if lo < 10 {
            48 + lo
        } else {
            87 + lo
        };
        out.push(hi_digit);
        out.push(lo_digit);
        proof {
            assert(data@.skip(i as int).first() == b);
            assert(data@.skip(i as int).drop_first() =~= data@.skip(i + 1));
        }
    }
    proof {
        assert(hex_bytes_of(data@.skip(n as int)) =~= Seq::<u8>::empty());
        assert(out@ + Seq::<u8>::empty() =~= out@);
    }
}

/// Appends a whole slice to `out`.
pub fn push_all(out: &mut Vec<u8>, data: &[u8])
    ensures
        final(out)@ == old(out)@ + data@,
{
    let n = data.len();
    for i in 0..n
        invariant
            n == data@.len(),
            out@ =~= old(out)@ + data@.take(i as int),
    {
        out.push(data[i]);
    }
    proof {
        assert(out@ =~= old(out)@ + data@);
    }
}

/// Decimal rendering of a number, as ASCII digit bytes, most significant
/// first.
pub open spec fn decimal_bytes_of(n: nat) -> Seq<u8>
    decreases n,
{
    if n < 10 {
        seq![(48 + n) as u8]
    } else {
        decimal_bytes_of(n / 10) + seq![(48 + n % 10) as u8]
    }
}

/// Every byte of a decimal rendering is an ASCII digit.
pub proof fn lemma_decimal_bytes_range(n: nat)
    ensures
        decimal_bytes_of(n).len() >= 1,
        forall|i: int|
            0 <= i < decimal_bytes_of(n).len() ==> 48 <= #[trigger] decimal_bytes_of(n)[i] <= 57,
    decreases n,
{
    if n >= 10 {
        lemma_decimal_bytes_range(n / 10);
    }
}

/// Appends the decimal rendering of `n` to `out`.
pub fn push_decimal_bytes(n: u64, out: &mut Vec<u8>)
    ensures
        final(out)@ == old(out)@ + decimal_bytes_of(n as nat),
    decreases n,
{
    if n < 10 {
        out.push(48 + n as u8);
    } else {
        push_decimal_bytes(n / 10, out);
        out.push(48 + (n % 10) as u8);
    }
}

/// The 64-bit big-endian value of eight bytes.
pub open spec fn be_u64_of(s: Seq<u8>) -> int
    recommends
        s.len() == 8,
{
    s[0] * 0x100000000000000 + s[1] * 0x1000000000000 + s[2] * 0x10000000000 + s[3] * 0x100000000
        + s[4] * 0x1000000 + s[5] * 0x10000 + s[6] * 0x100 + s[7]
}

/// Reads the first eight bytes of `s` as a big-endian 64-bit integer.
pub fn be_u64_from_prefix(s: &[u8; 32]) -> (r: u64)
    ensures
        r == be_u64_of(s@.take(8)),
{
    let r: u64 = (s[0] as u64) * 0x100000000000000 + (s[1] as u64) * 0x1000000000000 + (
    s[2] as u64) * 0x10000000000 + (s[3] as u64) * 0x100000000 + (s[4] as u64) * 0x1000000 + (
    s[5] as u64) * 0x10000 + (s[6] as u64) * 0x100 + (s[7] as u64);
    proof {
        assert(s@.take(8)[0] == s@[0]);
        assert(s@.take(8)[1] == s@[1]);
        assert(s@.take(8)[2] == s@[2]);
        assert(s@.take(8)[3] == s@[3]);
        assert(s@.take(8)[4] == s@[4]);
        assert(s@.take(8)[5] == s@[5]);
        assert(s@.take(8)[6] == s@[6]);
        assert(s@.take(8)[7] == s@[7]);
    }
    r
}

/// The eight little-endian bytes of a 64-bit value.
pub open spec fn le_bytes_of_u64(n: u64) -> Seq<u8> {
    seq![
        (n % 0x100) as u8,
        ((n / 0x100) % 0x100) as u8,
        ((n / 0x10000) % 0x100) as u8,
        ((n / 0x1000000) % 0x100) as u8,
        ((n / 0x100000000) % 0x100) as u8,
        ((n / 0x10000000000) % 0x100) as u8,
        ((n / 0x1000000000000) % 0x100) as u8,
        ((n / 0x100000000000000) % 0x100) as u8,
    ]
}

/// Appends the eight little-endian bytes of `n` to `out`.
pub fn push_le_bytes_u64(n: u64, out: &mut Vec<u8>)
    ensures
        final(out)@ == old(out)@ + le_bytes_of_u64(n),
{
    out.push((n % 0x100) as u8);
    out.push(((n / 0x100) % 0x100) as u8);
    out.push(((n / 0x10000) % 0x100) as u8);
    out.push(((n / 0x1000000) % 0x100) as u8);
    out.push(((n / 0x100000000) % 0x100) as u8);
    out.push(((n / 0x10000000000) % 0x100) as u8);
    out.push(((n / 0x1000000000000) % 0x100) as u8);
    out.push(((n / 0x100000000000000) % 0x100) as u8);
    proof {
        assert(out@ =~= old(out)@ + le_bytes_of_u64(n));
    }
}

/// Relies on `String::from_utf8`: ASCII bytes decode to exactly one char per
/// byte, with the same code points.  Inputs with a byte outside ASCII are
/// excluded by the precondition.
#[verifier::external_body]
pub fn string_from_ascii(v: Vec<u8>) -> (r: String)
    requires
        forall|i: int| 0 <= i < v@.len() ==> v@[i] < 128,
    ensures
        r@ == chars_of_bytes(v@),
{
    match String::from_utf8(v) {
        Ok(s) => s,
        Err(_) => String::new(),
    }
}

} // verus!
