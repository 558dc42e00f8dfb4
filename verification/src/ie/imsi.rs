//! The IMSI element: the subscriber identity as decimal digits packed two to
//! a byte, low nibble first, padded with `0xF`.
use vstd::prelude::*;
use vstd::utf8::*;
use tokio_util::bytes::{Bytes, BytesMut};
use crate::buf::{bytes_view, bytes_mut_view, bytes_as_slice, bytes_mut_put_u8, string_push};
use crate::error::GtpError;

verus! {

#[derive(Debug, Clone)]
pub struct Imsi(pub String);

impl View for Imsi {
    type V = Seq<char>;

    open spec fn view(&self) -> Seq<char> {
        self.0@
    }
}

/// The character `parse` makes of a nibble: the byte `'0' + d`.
pub open spec fn nibble_char(d: u8) -> char {
    ((48 + d) as u8) as char
}

/// The characters that `parse` reads: for each byte the low nibble, then the
/// high nibble, stopping at the first nibble `0xF`.
pub open spec fn imsi_from_wire(s: Seq<u8>) -> Seq<char>
    decreases s.len(),
{
    if s.len() == 0 {
        Seq::empty()
    } else {
        let lo = s[0] & 0x0F;
        let hi = (s[0] & 0xF0) >> 4u8;
        if lo == 0x0F {
            Seq::empty()
        } else if hi == 0x0F {
            seq![nibble_char(lo)]
        } else {
            seq![nibble_char(lo), nibble_char(hi)] + imsi_from_wire(s.drop_first())
        }
    }
}

/// The byte `write` packs from two digit values: `lo | hi << 4`.
pub open spec fn pack(lo: u8, hi: u8) -> u8 {
    lo | (hi << 4u8)
}

/// The bytes `write` appends for digit values `ds`: two per byte, the last one
/// paired with `0xF` when their number is odd.
pub open spec fn digits_wire(ds: Seq<u8>) -> Seq<u8>
    decreases ds.len(),
{
    if ds.len() == 0 {
        Seq::empty()
    } else if ds.len() == 1 {
        seq![pack(ds[0], 0x0F)]
    } else {
        seq![pack(ds[0], ds[1])] + digits_wire(ds.subrange(2, ds.len() as int))
    }
}

/// The digit values of the UTF-8 bytes `b`: each byte less `'0'`.
pub open spec fn digit_values(b: Seq<u8>) -> Seq<u8> {
    b.map_values(|x: u8| (x - 48) as u8)
}

/// Whether every byte of the text is at least `'0'`, as `write` needs.
pub open spec fn imsi_writable(chars: Seq<char>) -> bool {
    forall|i: int| 0 <= i < encode_utf8(chars).len() ==> #[trigger] encode_utf8(chars)[i] >= 48
}

/// The bytes `write` appends for the text `chars`.
pub open spec fn imsi_wire(chars: Seq<char>) -> Seq<u8> {
    digits_wire(digit_values(encode_utf8(chars)))
}

impl Imsi {
    pub fn parse(value: Bytes) -> (r: Result<Self, GtpError>)
        ensures
            r matches Ok(imsi) && imsi@ == imsi_from_wire(bytes_view(value)),
    {
        let s = bytes_as_slice(&value);
        let mut digits = String::new();
        let n = s.len();
        let mut i: usize = 0;
        assert(s@.skip(0) =~= s@);
        assert(digits@ + imsi_from_wire(s@) =~= imsi_from_wire(s@));
        while i < n
            invariant
                s@ == bytes_view(value),
                n == s@.len(),
                0 <= i <= n,
                digits@ + imsi_from_wire(s@.skip(i as int)) == imsi_from_wire(s@),
            decreases n - i,
        {
            let byte = s[i];
            let lo = byte & 0x0F;
            let hi = (byte & 0xF0) >> 4;
            assert(s@.skip(i as int)[0] == byte);
            assert(s@.skip(i as int).drop_first() =~= s@.skip(i as int + 1));
            if lo == 0x0F {
                assert(digits@ + Seq::<char>::empty() =~= digits@);
                return Ok(Imsi(digits));
            }
            assert(lo < 16) by (bit_vector)
                requires lo == byte & 0x0F;
            string_push(&mut digits, (48u8 + lo) as char);
            if hi == 0x0F {
                assert(digits@ =~= digits@ + Seq::<char>::empty());
                return Ok(Imsi(digits));
            }
            assert(hi < 16) by (bit_vector)
                requires hi == (byte & 0xF0) >> 4u8;
            string_push(&mut digits, (48u8 + hi) as char);
            i = i + 1;
        }
        assert(s@.skip(n as int) =~= Seq::<u8>::empty());
        assert(digits@ + Seq::<char>::empty() =~= digits@);
        Ok(Imsi(digits))
    }

    pub fn write(&self, dst: &mut BytesMut)
        requires
            imsi_writable(self@),
            bytes_mut_view(*old(dst)).len() + encode_utf8(self@).len() <= isize::MAX,
        ensures
            bytes_mut_view(*final(dst)) == bytes_mut_view(*old(dst)) + imsi_wire(self@),
    {
        let b = self.0.as_str().as_bytes();
        let ghost ds = digit_values(b@);
        let ghost d0 = bytes_mut_view(*dst);
        let n = b.len();
        let mut i: usize = 0;
        assert(ds.skip(0) =~= ds);
        while i < n
            invariant
                n == b@.len(),
                b@ == encode_utf8(self@),
                ds == digit_values(b@),
                imsi_writable(self@),
                i <= n,
                d0.len() + n <= isize::MAX,
                bytes_mut_view(*dst).len() <= d0.len() + i,
                d0 + digits_wire(ds) == bytes_mut_view(*dst) + digits_wire(ds.skip(i as int)),
            decreases n - i,
        {
            assert(b@[i as int] >= 48);
            let lo = b[i] - 48u8;
            let hi = if i + 1 < n {
                assert(b@[i as int + 1] >= 48);
                b[i + 1] - 48u8
            } else {
                0x0F
            };
            let ghost rest = ds.skip(i as int);
            let next = if i + 1 < n { i + 2 } else { n };
            proof {
                if i + 1 < n {
                    assert(rest.subrange(2, rest.len() as int) =~= ds.skip(next as int));
                } else {
                    assert(ds.skip(next as int) =~= Seq::<u8>::empty());
                }
            }
            bytes_mut_put_u8(dst, lo | (hi << 4));
            assert(bytes_mut_view(*dst) + digits_wire(ds.skip(next as int)) =~= d0 + digits_wire(ds));
            i = next;
        }
        assert(ds.skip(i as int) =~= Seq::<u8>::empty());
        assert(bytes_mut_view(*dst) =~= d0 + imsi_wire(self@));
    }
}

/// Whether the text is made of the decimal digits `'0'` to `'9'` only.
pub open spec fn all_decimal_digits(chars: Seq<char>) -> bool {
    forall|i: int| 0 <= i < chars.len() ==> '0' <= #[trigger] chars[i] <= '9'
}

/// Digit values below ten read back as their characters.
proof fn lemma_digits_roundtrip(ds: Seq<u8>)
    requires
        forall|i: int| 0 <= i < ds.len() ==> #[trigger] ds[i] <= 9,
    ensures
        imsi_from_wire(digits_wire(ds)) == ds.map_values(|d: u8| nibble_char(d)),
    decreases ds.len(),
{
    if ds.len() == 0 {
        assert(ds.map_values(|d: u8| nibble_char(d)) =~= Seq::<char>::empty());
    } else if ds.len() == 1 {
        let d = ds[0];
        let p = pack(d, 0x0F);
        assert(p & 0x0F == d && (p & 0xF0) >> 4u8 == 0x0F) by (bit_vector)
            requires
                d <= 9,
                p == d | (0x0Fu8 << 4u8);
        assert(ds.map_values(|d: u8| nibble_char(d)) =~= seq![nibble_char(d)]);
    } else {
        let d0 = ds[0];
        let d1 = ds[1];
        let rest = ds.subrange(2, ds.len() as int);
        assert forall|i: int| 0 <= i < rest.len() implies #[trigger] rest[i] <= 9 by {
            assert(rest[i] == ds[i + 2]);
        }
        lemma_digits_roundtrip(rest);
        let p = pack(d0, d1);
        assert(p & 0x0F == d0 && (p & 0xF0) >> 4u8 == d1) by (bit_vector)
            requires
                d0 <= 9,
                d1 <= 9,
                p == d0 | (d1 << 4u8);
        let w = digits_wire(ds);
        assert(w.drop_first() =~= digits_wire(rest));
        assert(ds.map_values(|d: u8| nibble_char(d)) =~= seq![nibble_char(d0), nibble_char(d1)]
            + rest.map_values(|d: u8| nibble_char(d)));
    }
}

/// IMSI round trip: an identity made of decimal digits reads back from its
/// encoding.
pub proof fn lemma_imsi_roundtrip(chars: Seq<char>)
    requires
        all_decimal_digits(chars),
    ensures
        imsi_writable(chars),
        imsi_from_wire(imsi_wire(chars)) == chars,
        imsi_wire(chars).len() == (chars.len() + 1) / 2,
{
    assert(is_ascii_chars(chars)) by {
        assert forall|i: int| 0 <= i < chars.len() implies '\0' <= #[trigger] chars[i] <= '\u{7f}' by {
            assert('0' <= chars[i] <= '9');
        }
    }
    is_ascii_chars_encode_utf8(chars);
    let b = encode_utf8(chars);
    let ds = digit_values(b);
    assert forall|i: int| 0 <= i < b.len() implies #[trigger] b[i] >= 48 by {
        assert(chars[i] as u8 == b[i]);
        assert('0' <= chars[i] <= '9');
    }
    assert forall|i: int| 0 <= i < ds.len() implies #[trigger] ds[i] <= 9 by {
        assert(chars[i] as u8 == b[i]);
        assert('0' <= chars[i] <= '9');
    }
    lemma_digits_roundtrip(ds);
    let mapped = ds.map_values(|d: u8| nibble_char(d));
    assert forall|i: int| 0 <= i < chars.len() implies #[trigger] mapped[i] == chars[i] by {
        assert(chars[i] as u8 == b[i]);
        assert('0' <= chars[i] <= '9');
    }
    assert(mapped =~= chars);
    lemma_digits_wire_len(ds);
}

/// Digit values pack two to a byte.
pub proof fn lemma_digits_wire_len(ds: Seq<u8>)
    ensures
        digits_wire(ds).len() == (ds.len() + 1) / 2,
    decreases ds.len(),
{
    if ds.len() >= 2 {
        lemma_digits_wire_len(ds.subrange(2, ds.len() as int));
    }
}

} // verus!
