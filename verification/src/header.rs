//! The GTPv2-C message header: flags, message type, length, optional TEID and
//! a 24-bit sequence number.
use vstd::prelude::*;
use tokio_util::bytes::{Bytes, BytesMut};
use crate::buf::{
    bytes_view, bytes_mut_view, bytes_as_slice, bytes_get_u8, bytes_get_u16, bytes_get_u32,
    bytes_get_uint, bytes_mut_put_u8, bytes_mut_put_u16, bytes_mut_put_u32, bytes_mut_put_uint,
};
use crate::error::GtpError;
use crate::wire::{be_value, be_bytes, pow256, lemma_be_roundtrip, lemma_be_roundtrip_exact, lemma_be_value_bound, lemma_pow256_values};

verus! {

#[derive(Debug, Clone)]
pub struct Header {
    pub version: u8,
    pub piggybacking_flag: bool,
    pub teid_flag: bool,
    pub message_type: u8,
    pub teid: Option<u32>,
    pub sequence_number: u32,
}

/// The encoded size of a header: twelve bytes with a TEID, eight without.
pub open spec fn header_size(teid_flag: bool) -> nat {
    if teid_flag {
        12
    } else {
        8
    }
}

/// Whether the flags octet announces a TEID.
pub open spec fn flags_have_teid(b0: u8) -> bool {
    b0 & 0x08 != 0
}

/// The number of bytes a header starting with `s` occupies.
pub open spec fn header_size_of(s: Seq<u8>) -> nat
    recommends
        s.len() >= 1,
{
    header_size(flags_have_teid(s[0]))
}

/// The length field counts everything after itself: the rest of the header
/// (eight bytes with a TEID, four without) and the information elements.
pub open spec fn message_length(teid_flag: bool, ie_body_len: u16) -> int {
    (if teid_flag { 8int } else { 4int }) + ie_body_len
}

/// The flags octet: the version in the three top bits, then the
/// piggybacking flag and the TEID flag.
pub open spec fn flags_octet(version: u8, piggybacking: bool, teid: bool) -> u8 {
    (version << 5u8) | (if piggybacking { 0x10u8 } else { 0u8 }) | (if teid { 0x08u8 } else { 0u8 })
}

impl Header {
    /// The flags octet of this header.
    pub open spec fn flags_octet(self) -> u8 {
        flags_octet(self.version, self.piggybacking_flag, self.teid_flag)
    }

    /// The bytes `write` appends for this header and a body of `ie_body_len` bytes.
    pub open spec fn wire(self, ie_body_len: u16) -> Seq<u8> {
        seq![self.flags_octet(), self.message_type] + be_bytes(
            message_length(self.teid_flag, ie_body_len) as nat,
            2,
        ) + (match self.teid {
            Some(t) => be_bytes(t as nat, 4),
            None => Seq::<u8>::empty(),
        }) + be_bytes(self.sequence_number as nat, 3) + seq![0u8]
    }

    /// The header that `parse` reads from the front of `s`.
    pub open spec fn from_wire(s: Seq<u8>) -> Header
        recommends
            s.len() >= header_size_of(s),
    {
        let b0 = s[0];
        let t = flags_have_teid(b0);
        let seq_at: int = if t { 8 } else { 4 };
        Header {
            version: b0 >> 5u8,
            piggybacking_flag: b0 & 0x10 != 0,
            teid_flag: t,
            message_type: s[1],
            teid: if t { Some(be_value(s.subrange(4, 8)) as u32) } else { None },
            sequence_number: be_value(s.subrange(seq_at, seq_at + 3)) as u32,
        }
    }

    /// A header that `write` encodes without loss: a three-bit version, a TEID
    /// exactly when the TEID flag is set, and a 24-bit sequence number.
    pub open spec fn encodable(self) -> bool {
        &&& self.version < 8
        &&& self.teid_flag == self.teid.is_some()
        &&& self.sequence_number < 0x100_0000
    }

    /// Reads a header from the front of `buf` and leaves the rest there. The
    /// length field is read past; the body that follows is the caller's.
    pub fn parse(buf: &mut Bytes) -> (r: Result<Self, GtpError>)
        requires
            bytes_view(*old(buf)).len() >= 1,
            bytes_view(*old(buf)).len() >= header_size_of(bytes_view(*old(buf))),
        ensures
            r == Ok::<Header, GtpError>(Header::from_wire(bytes_view(*old(buf)))),
            bytes_view(*final(buf)) == bytes_view(*old(buf)).skip(
                header_size_of(bytes_view(*old(buf))) as int,
            ),
    {
        let ghost s = bytes_view(*buf);
        let b0 = bytes_get_u8(buf);
        let version = b0 >> 5;
        let piggybacking_flag = (b0 & 0b0001_0000) != 0;
        let teid_flag = (b0 & 0b0000_1000) != 0;
        let message_type = bytes_get_u8(buf);
        let _length = bytes_get_u16(buf);
        assert(bytes_view(*buf) =~= s.skip(4));
        let teid = if teid_flag {
            Some(bytes_get_u32(buf))
        } else {
            None
        };
        let ghost at: int = if teid_flag { 8 } else { 4 };
        assert(bytes_view(*buf) =~= s.skip(at));
        let seq_hi = bytes_get_uint(buf, 3);
        proof {
            lemma_be_value_bound(s.skip(at).take(3));
            lemma_pow256_values();
            assert(s.skip(at).take(3) =~= s.subrange(at, at + 3));
            if teid_flag {
                assert(s.skip(4).take(4) =~= s.subrange(4, 8));
                lemma_be_value_bound(s.subrange(4, 8));
            }
        }
        let seq_num = seq_hi as u32;
        assert(seq_num as nat == be_value(s.subrange(at, at + 3)));
        assert(b0 == s[0]);
        assert(message_type == s[1]);
        assert(teid_flag == flags_have_teid(s[0]));
        assert(teid == (if teid_flag { Some(be_value(s.subrange(4, 8)) as u32) } else { None }));
        bytes_get_u8(buf);
        assert(bytes_view(*buf) =~= s.skip(header_size_of(s) as int));
        Ok(Header {
            version,
            piggybacking_flag,
            teid_flag,
            message_type,
            teid,
            sequence_number: seq_num,
        })
    }

    /// Appends this header to `dst`, with a length field that covers
    /// `ie_body_len` bytes of information elements after it.
    pub fn write(&self, dst: &mut BytesMut, ie_body_len: u16)
        requires
            message_length(self.teid_flag, ie_body_len) <= 0xFFFF,
            bytes_mut_view(*old(dst)).len() + 12 <= isize::MAX,
        ensures
            bytes_mut_view(*final(dst)) == bytes_mut_view(*old(dst)) + self.wire(ie_body_len),
    {
        let ghost d0 = bytes_mut_view(*dst);
        let fixed_len: u16 = if self.teid_flag {
            4 + 3 + 1
        } else {
            3 + 1
        };
        let message_length = fixed_len + ie_body_len;
        let mut b0 = self.version << 5;
        if self.piggybacking_flag {
            b0 |= 0b0001_0000;
        }
        if self.teid_flag {
            b0 |= 0b0000_1000;
        }
        proof {
            let v = self.version;
            let p = self.piggybacking_flag;
            let t = self.teid_flag;
            assert(b0 == flags_octet(v, p, t)) by (bit_vector)
                requires
                    b0 == (if t {
                        (if p { (v << 5u8) | 0x10u8 } else { v << 5u8 }) | 0x08u8
                    } else {
                        (if p { (v << 5u8) | 0x10u8 } else { v << 5u8 })
                    });
        }
        bytes_mut_put_u8(dst, b0);
        bytes_mut_put_u8(dst, self.message_type);
        bytes_mut_put_u16(dst, message_length);
        proof {
            lemma_be_roundtrip(message_length as nat, 2);
            lemma_be_roundtrip(self.sequence_number as nat, 3);
        }
        let ghost d1 = bytes_mut_view(*dst);
        match self.teid {
            Some(teid) => {
                proof { lemma_be_roundtrip(teid as nat, 4); }
                bytes_mut_put_u32(dst, teid);
            },
            None => {},
        }
        let ghost d2 = bytes_mut_view(*dst);
        bytes_mut_put_uint(dst, self.sequence_number as u64, 3);
        bytes_mut_put_u8(dst, 0);
        assert(bytes_mut_view(*dst) =~= d0 + self.wire(ie_body_len));
    }
}

/// The encoded size of a header: twelve bytes when it carries a TEID, else eight.
pub proof fn lemma_header_wire_len(h: Header, ie_body_len: u16)
    ensures
        h.wire(ie_body_len).len() == (if h.teid.is_some() { 12int } else { 8int }),
{
    lemma_be_roundtrip(message_length(h.teid_flag, ie_body_len) as nat, 2);
    lemma_be_roundtrip(h.sequence_number as nat, 3);
    match h.teid {
        Some(t) => lemma_be_roundtrip(t as nat, 4),
        None => {},
    }
}

/// The flags octet gives back the version (below eight) and both flags.
pub proof fn lemma_flags_octet(version: u8, piggybacking: bool, teid: bool)
    requires
        version < 8,
    ensures
        flags_octet(version, piggybacking, teid) >> 5u8 == version,
        (flags_octet(version, piggybacking, teid) & 0x10 != 0) == piggybacking,
        flags_have_teid(flags_octet(version, piggybacking, teid)) == teid,
{
    let b = flags_octet(version, piggybacking, teid);
    assert(b >> 5u8 == version) by (bit_vector)
        requires
            version < 8,
            b == (version << 5u8) | (if piggybacking { 0x10u8 } else { 0u8 }) | (if teid { 0x08u8 } else { 0u8 });
    assert((b & 0x10 != 0) == piggybacking) by (bit_vector)
        requires
            b == (version << 5u8) | (if piggybacking { 0x10u8 } else { 0u8 }) | (if teid { 0x08u8 } else { 0u8 });
    assert((b & 0x08 != 0) == teid) by (bit_vector)
        requires
            b == (version << 5u8) | (if piggybacking { 0x10u8 } else { 0u8 }) | (if teid { 0x08u8 } else { 0u8 });
}

/// Header round trip: an encodable header, written in front of any bytes,
/// reads back as itself; it occupies exactly its size, and its length field
/// announces the rest of the header and the body.
pub proof fn lemma_header_roundtrip(h: Header, ie_body_len: u16, rest: Seq<u8>)
    requires
        h.encodable(),
        message_length(h.teid_flag, ie_body_len) <= 0xFFFF,
    ensures
        h.wire(ie_body_len).len() == header_size(h.teid_flag),
        header_size_of(h.wire(ie_body_len) + rest) == header_size(h.teid_flag),
        Header::from_wire(h.wire(ie_body_len) + rest) == h,
        be_value((h.wire(ie_body_len) + rest).subrange(2, 4)) == message_length(h.teid_flag, ie_body_len),
{
    let w = h.wire(ie_body_len) + rest;
    let ml = message_length(h.teid_flag, ie_body_len) as nat;
    lemma_pow256_values();
    lemma_flags_octet(h.version, h.piggybacking_flag, h.teid_flag);
    lemma_be_roundtrip_exact(ml, 2);
    lemma_be_roundtrip_exact(h.sequence_number as nat, 3);
    assert(w.subrange(2, 4) =~= be_bytes(ml, 2));
    let at: int = if h.teid_flag { 8 } else { 4 };
    match h.teid {
        Some(t) => {
            lemma_be_roundtrip_exact(t as nat, 4);
            assert(w.subrange(4, 8) =~= be_bytes(t as nat, 4));
        },
        None => {},
    }
    assert(w.subrange(at, at + 3) =~= be_bytes(h.sequence_number as nat, 3));
    assert(w[0] == h.flags_octet());
    assert(Header::from_wire(w) =~= h);
}

} // verus!
