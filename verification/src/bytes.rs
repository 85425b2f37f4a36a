//! Byte-level helpers: little-endian scalar readers and decimal / BCD
//! text rendering used by the payload decoders.

use vstd::prelude::*;

verus! {

/// The unsigned value of two little-endian bytes.
pub open spec fn le16(lo: u8, hi: u8) -> u16 {
    (lo + hi * 0x100) as u16
}

/// The unsigned value of four little-endian bytes.
pub open spec fn le32(b0: u8, b1: u8, b2: u8, b3: u8) -> u32 {
    (b0 + b1 * 0x100 + b2 * 0x10000 + b3 * 0x1000000) as u32
}

/// Reads an unsigned 16-bit little-endian integer from two bytes.
pub fn to_uint16(bytes: [u8; 2]) -> (r: u16)
    ensures
        r == le16(bytes[0], bytes[1]),
{
    bytes[0] as u16 + bytes[1] as u16 * 0x100
}

/// Reads an unsigned 32-bit little-endian integer from four bytes.
pub fn to_uint32(bytes: [u8; 4]) -> (r: u32)
    ensures
        r == le32(bytes[0], bytes[1], bytes[2], bytes[3]),
{
    bytes[0] as u32 + bytes[1] as u32 * 0x100 + bytes[2] as u32 * 0x10000 + bytes[3] as u32
        * 0x1000000
}

/// The two little-endian bytes of a 16-bit value, low byte first.
pub open spec fn le16_bytes(v: u16) -> Seq<u8> {
    seq![(v & 0xFF) as u8, ((v >> 8) & 0xFF) as u8]
}

/// The four little-endian bytes of a 32-bit value, low byte first.
pub open spec fn le32_bytes(v: u32) -> Seq<u8> {
    seq![
        (v & 0xFF) as u8,
        ((v >> 8) & 0xFF) as u8,
        ((v >> 16) & 0xFF) as u8,
        ((v >> 24) & 0xFF) as u8,
    ]
}

/// Writing a 16-bit value as little-endian bytes and reading it back is the
/// identity.
pub broadcast proof fn lemma_le16_round_trip(v: u16)
    ensures
        #[trigger] le16(le16_bytes(v)[0], le16_bytes(v)[1]) == v,
{
    assert(le16((v & 0xFF) as u8, ((v >> 8) & 0xFF) as u8) == v) by (bit_vector);
}

/// Writing a 32-bit value as little-endian bytes and reading it back is the
/// identity.
pub broadcast proof fn lemma_le32_round_trip(v: u32)
    ensures
        #[trigger] le32(le32_bytes(v)[0], le32_bytes(v)[1], le32_bytes(v)[2], le32_bytes(v)[3])
            == v,
{
    assert(le32(
        (v & 0xFF) as u8,
        ((v >> 8) & 0xFF) as u8,
        ((v >> 16) & 0xFF) as u8,
        ((v >> 24) & 0xFF) as u8,
    ) == v) by (bit_vector);
}

/// Writes a 16-bit value as two little-endian bytes.
pub fn u16_to_le_bytes(v: u16) -> (r: [u8; 2])
    ensures
        r@ == le16_bytes(v),
{
    let r = [(v & 0xFF) as u8, ((v >> 8) & 0xFF) as u8];
    assert(r@ =~= le16_bytes(v));
    r
}

/// Writes a 32-bit value as four little-endian bytes.
pub fn u32_to_le_bytes(v: u32) -> (r: [u8; 4])
    ensures
        r@ == le32_bytes(v),
{
    let r = [
        (v & 0xFF) as u8,
        ((v >> 8) & 0xFF) as u8,
        ((v >> 16) & 0xFF) as u8,
        ((v >> 24) & 0xFF) as u8,
    ];
    assert(r@ =~= le32_bytes(v));
    r
}

/// The decimal digit character for a value below ten.
pub open spec fn digit_char(d: nat) -> char {
    if d == 0 {
        '0'
    } else if d == 1 {
        '1'
    } else if d == 2 {
        '2'
    } else if d == 3 {
        '3'
    } else if d == 4 {
        '4'
    } else if d == 5 {
        '5'
    } else if d == 6 {
        '6'
    } else if d == 7 {
        '7'
    } else if d == 8 {
        '8'
    } else {
        '9'
    }
}

/// The decimal rendering of a natural number, without leading zeroes
/// (a single zero for zero itself).
pub open spec fn dec_str(n: nat) -> Seq<char>
    decreases n,
{
    if n < 10 {
        seq![digit_char(n)]
    } else {
        dec_str(n / 10).push(digit_char(n % 10))
    }
}

/// One-character string for a decimal digit.
fn digit_to_str(d: u32) -> (r: &'static str)
    requires
        d < 10,
    ensures
        r@ == seq![digit_char(d as nat)],
{
    proof {
        reveal_strlit("0");
        reveal_strlit("1");
        reveal_strlit("2");
        reveal_strlit("3");
        reveal_strlit("4");
        reveal_strlit("5");
        reveal_strlit("6");
        reveal_strlit("7");
        reveal_strlit("8");
        reveal_strlit("9");
    }
    let r: &'static str = match d {
        0 => "0",
        1 => "1",
        2 => "2",
        3 => "3",
        4 => "4",
        5 => "5",
        6 => "6",
        7 => "7",
        8 => "8",
        _ => "9",
    };
    assert(r@ =~= seq![digit_char(d as nat)]);
    r
}

/// Renders an unsigned 32-bit value in decimal.
pub fn u32_to_string(n: u32) -> (s: String)
    ensures
        s@ == dec_str(n as nat),
    decreases n,
{
    let d = digit_to_str(n % 10);
    if n < 10 {
        String::from_str(d)
    } else {
        let s = u32_to_string(n / 10);
        s.concat(d)
    }
}

/// Renders a byte in decimal.
pub fn u8_to_string(n: u8) -> (s: String)
    ensures
        s@ == dec_str(n as nat),
{
    u32_to_string(n as u32)
}

/// Renders an unsigned 16-bit value in decimal.
pub fn u16_to_string(n: u16) -> (s: String)
    ensures
        s@ == dec_str(n as nat),
{
    u32_to_string(n as u32)
}

/// The BCD rendering of one byte: the decimal rendering of its high
/// nibble followed by that of its low nibble.
pub open spec fn bcd_str(b: u8) -> Seq<char> {
    dec_str((b >> 4) as nat) + dec_str((b & 0x0F) as nat)
}

/// Converts a single byte into a BCD string.
pub fn bcd_decode(input: u8) -> (r: String)
    ensures
        r@ == bcd_str(input),
{
    assert((input & 0xF0) >> 4 == input >> 4) by (bit_vector);
    let hi = u32_to_string(((input & 0xF0) >> 4) as u32);
    let lo = u32_to_string((input & 0x0F) as u32);
    hi.concat(lo.as_str())
}

/// The BCD rendering of a byte sequence with an optional separator
/// between consecutive bytes.
pub open spec fn bcd_slice_str(s: Seq<u8>, sep: Seq<char>) -> Seq<char>
    decreases s.len(),
{
    if s.len() == 0 {
        Seq::empty()
    } else if s.len() == 1 {
        bcd_str(s[0])
    } else {
        bcd_str(s[0]) + sep + bcd_slice_str(s.skip(1), sep)
    }
}

/// The separator sequence named by an optional separator argument.
pub open spec fn sep_view(sep: Option<&str>) -> Seq<char> {
    match sep {
        Some(s) => s@,
        None => Seq::empty(),
    }
}

/// Converts a slice to a BCD string, inserting the separator between bytes.
pub fn bcd_decode_slice(input: &[u8], sep: Option<&str>) -> (r: String)
    ensures
        r@ == bcd_slice_str(input@, sep_view(sep)),
{
    let mut res = String::new();
    let n = input.len();
    let mut pos: usize = 0;
    proof {
        assert(input@.skip(0) =~= input@);
        assert(res@ + bcd_slice_str(input@, sep_view(sep)) =~= bcd_slice_str(
            input@,
            sep_view(sep),
        ));
    }
    while pos < n
        invariant
            n == input@.len(),
            pos <= n,
            res@ + bcd_slice_str(input@.skip(pos as int), sep_view(sep)) == bcd_slice_str(
                input@,
                sep_view(sep),
            ),
        decreases n - pos,
    {
        let ghost rest = input@.skip(pos as int);
        let ghost sv = sep_view(sep);
        let ghost res0 = res@;
        let b = bcd_decode(input[pos]);
        proof {
            assert(rest[0] == input@[pos as int]);
        }
        res.append(b.as_str());
        if pos != n - 1 {
            if let Some(separator) = sep {
                res.append(separator);
            }
            proof {
                assert(rest.len() >= 2);
                assert(rest.skip(1) =~= input@.skip(pos as int + 1));
                assert(bcd_slice_str(rest, sv) == bcd_str(rest[0]) + sv + bcd_slice_str(
                    input@.skip(pos as int + 1),
                    sv,
                ));
                if sep is None {
                    assert(sv =~= Seq::<char>::empty());
                    assert(res@ =~= res0 + bcd_str(rest[0]) + sv);
                }
                assert(res@ + bcd_slice_str(input@.skip(pos as int + 1), sv) =~= res0
                    + bcd_slice_str(rest, sv));
            }
        } else {
            proof {
                assert(rest.len() == 1);
                assert(input@.skip(pos as int + 1).len() == 0);
                assert(bcd_slice_str(input@.skip(pos as int + 1), sv) =~= Seq::<char>::empty());
                assert(res@ + bcd_slice_str(input@.skip(pos as int + 1), sv) =~= res0
                    + bcd_slice_str(rest, sv));
            }
        }
        pos = pos + 1;
    }
    proof {
        assert(input@.skip(n as int).len() == 0);
        assert(res@ + bcd_slice_str(input@.skip(n as int), sep_view(sep)) =~= res@);
    }
    res
}


/// The decimal rendering of a signed value: a minus sign before the
/// magnitude for negative values.
pub open spec fn int_dec_str(v: int) -> Seq<char> {
    if v < 0 {
        seq!['-'] + dec_str((-v) as nat)
    } else {
        dec_str(v as nat)
    }
}

/// Renders a signed 32-bit value in decimal.
pub fn i32_to_string(v: i32) -> (s: String)
    ensures
        s@ == int_dec_str(v as int),
{
    if v < 0 {
        let mag = (-(v as i64)) as u32;
        let mut s = String::from_str("-");
        let m = u32_to_string(mag);
        s.append(m.as_str());
        proof {
            reveal_strlit("-");
            assert(s@ =~= int_dec_str(v as int));
        }
        s
    } else {
        u32_to_string(v as u32)
    }
}

/// The text of a truth value.
pub open spec fn bool_str(b: bool) -> Seq<char> {
    if b {
        "true"@
    } else {
        "false"@
    }
}

/// Renders a truth value as text.
pub fn bool_to_string(b: bool) -> (s: String)
    ensures
        s@ == bool_str(b),
{
    if b {
        String::from_str("true")
    } else {
        String::from_str("false")
    }
}

/// Whether two string slices hold the same characters.
pub fn str_eq(a: &str, b: &str) -> (r: bool)
    ensures
        r == (a@ == b@),
{
    let la = a.unicode_len();
    let lb = b.unicode_len();
    if la != lb {
        return false;
    }
    let mut i: usize = 0;
    while i < la
        invariant
            la == a@.len() == b@.len(),
            i <= la,
            forall|j: int| 0 <= j < i ==> a@[j] == b@[j],
        decreases la - i,
    {
        if a.get_char(i) != b.get_char(i) {
            return false;
        }
        i = i + 1;
    }
    proof {
        assert(a@ =~= b@);
    }
    true
}


} // verus!
