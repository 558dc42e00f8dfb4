//! The F-TEID element: a tunnel endpoint identifier with the endpoint's
//! IPv4 and/or IPv6 address.
use vstd::prelude::*;
use tokio_util::bytes::{Bytes, BytesMut};
use vstd::std_specs::convert::FromSpecImpl;
use crate::buf::{
    bytes_view, bytes_mut_view, bytes_remaining, bytes_get_u8, bytes_get_u32, bytes_copy_to_array,
    bytes_mut_put_u8, bytes_mut_put_u32, bytes_mut_put_slice,
};
use crate::error::GtpError;
use crate::wire::{be_value, be_bytes, lemma_be_roundtrip, lemma_be_roundtrip_exact, lemma_pow256_values};

verus! {

/// The interfaces whose endpoints the load tools advertise.
pub enum InterfaceType {
    S5S8SgwGtpU,
    S5S8PgwGtpU,
    S5S8SgwGtpC,
    S5S8PgwGtpC,
}

/// The interface type code of each interface.
pub open spec fn interface_code(value: InterfaceType) -> u8 {
    match value {
        InterfaceType::S5S8SgwGtpU => 4,
        InterfaceType::S5S8PgwGtpU => 5,
        InterfaceType::S5S8SgwGtpC => 6,
        InterfaceType::S5S8PgwGtpC => 7,
    }
}

impl From<InterfaceType> for u8 {
    fn from(value: InterfaceType) -> (r: u8) {
        match value {
            InterfaceType::S5S8SgwGtpU => 4,
            InterfaceType::S5S8PgwGtpU => 5,
            InterfaceType::S5S8SgwGtpC => 6,
            InterfaceType::S5S8PgwGtpC => 7,
        }
    }
}

impl FromSpecImpl<InterfaceType> for u8 {
    open spec fn obeys_from_spec() -> bool {
        true
    }

    open spec fn from_spec(value: InterfaceType) -> u8 {
        interface_code(value)
    }
}

#[derive(Debug, Clone)]
pub struct Fteid {
    pub interface_type: u8,
    pub teid_or_gre_key: u32,
    pub ipv4: Option<[u8; 4]>,
    pub ipv6: Option<[u8; 16]>,
}

/// An F-TEID as plain values, each address as its octets.
#[verifier::ext_equal]
pub struct FteidModel {
    pub interface_type: u8,
    pub teid_or_gre_key: u32,
    pub ipv4: Option<Seq<u8>>,
    pub ipv6: Option<Seq<u8>>,
}

impl View for Fteid {
    type V = FteidModel;

    open spec fn view(&self) -> FteidModel {
        FteidModel {
            interface_type: self.interface_type,
            teid_or_gre_key: self.teid_or_gre_key,
            ipv4: match self.ipv4 {
                Some(a) => Some(a@),
                None => None,
            },
            ipv6: match self.ipv6 {
                Some(a) => Some(a@),
                None => None,
            },
        }
    }
}

/// The flags octet: IPv4 present in bit 7, IPv6 present in bit 6, and the
/// interface type in the six low bits.
pub open spec fn fteid_flags(interface_type: u8, has_v4: bool, has_v6: bool) -> u8 {
    ((interface_type & 0x3F) | (if has_v4 { 0x80u8 } else { 0u8 })) | (if has_v6 { 0x40u8 } else { 0u8 })
}

impl FteidModel {
    /// The bytes `write` appends: flags, the TEID or GRE key, then the IPv4
    /// octets and the IPv6 octets of those present.
    pub open spec fn wire(self) -> Seq<u8> {
        seq![fteid_flags(self.interface_type, self.ipv4.is_some(), self.ipv6.is_some())]
            + be_bytes(self.teid_or_gre_key as nat, 4) + (match self.ipv4 {
            Some(a) => a,
            None => Seq::<u8>::empty(),
        }) + (match self.ipv6 {
            Some(a) => a,
            None => Seq::<u8>::empty(),
        })
    }

    /// An F-TEID that `write` encodes without loss: a six-bit interface type
    /// and addresses of four and sixteen octets.
    pub open spec fn encodable(self) -> bool {
        &&& self.interface_type < 64
        &&& (self.ipv4 matches Some(a) ==> a.len() == 4)
        &&& (self.ipv6 matches Some(a) ==> a.len() == 16)
    }

    /// The F-TEID that `parse` reads from an element value: flags and key,
    /// then each address the flags announce, which must be all there.
    pub open spec fn from_wire(s: Seq<u8>) -> Result<FteidModel, GtpError> {
        if s.len() < 5 {
            Err(GtpError::Truncated)
        } else {
            let flags = s[0];
            let has_v4 = flags & 0x80 != 0;
            let has_v6 = flags & 0x40 != 0;
            let v6_at: int = if has_v4 { 9 } else { 5 };
            if has_v4 && s.len() < 9 {
                Err(GtpError::Truncated)
            } else if has_v6 && s.len() < v6_at + 16 {
                Err(GtpError::Truncated)
            } else {
                Ok(
                    FteidModel {
                        interface_type: flags & 0x3F,
                        teid_or_gre_key: be_value(s.subrange(1, 5)) as u32,
                        ipv4: if has_v4 { Some(s.subrange(5, 9)) } else { None },
                        ipv6: if has_v6 { Some(s.subrange(v6_at, v6_at + 16)) } else { None },
                    },
                )
            }
        }
    }
}

impl Fteid {
    pub fn parse(value: Bytes) -> (r: Result<Self, GtpError>)
        ensures
            crate::ie::result_view(r) == FteidModel::from_wire(bytes_view(value)),
    {
        let ghost s = bytes_view(value);
        let mut value = value;
        if bytes_remaining(&value) < 5 {
            return Err(GtpError::Truncated);
        }
        let flags = bytes_get_u8(&mut value);
        let has_v4 = flags & 0b1000_0000 != 0;
        let has_v6 = flags & 0b0100_0000 != 0;
        let interface_type = flags & 0b0011_1111;
        let teid_or_gre_key = bytes_get_u32(&mut value);
        assert(s.skip(1).take(4) =~= s.subrange(1, 5));
        assert(bytes_view(value) =~= s.skip(5));
        let ipv4 = if has_v4 {
            if bytes_remaining(&value) < 4 {
                return Err(GtpError::Truncated);
            }
            let mut octets = [0u8; 4];
            bytes_copy_to_array(&mut value, &mut octets);
            assert(s.skip(5).take(4) =~= s.subrange(5, 9));
            assert(s.skip(5).skip(4) =~= s.skip(9));
            Some(octets)
        } else {
            None
        };
        let ghost v6_at: int = if has_v4 { 9 } else { 5 };
        assert(bytes_view(value) =~= s.skip(v6_at));
        let ipv6 = if has_v6 {
            if bytes_remaining(&value) < 16 {
                return Err(GtpError::Truncated);
            }
            let mut octets = [0u8; 16];
            bytes_copy_to_array(&mut value, &mut octets);
            assert(s.skip(v6_at).take(16) =~= s.subrange(v6_at, v6_at + 16));
            Some(octets)
        } else {
            None
        };
        let r = Fteid { interface_type, teid_or_gre_key, ipv4, ipv6 };
        assert(r@ =~= FteidModel::from_wire(s).unwrap());
        Ok(r)
    }

    pub fn write(&self, dst: &mut BytesMut)
        requires
            bytes_mut_view(*old(dst)).len() + 25 <= isize::MAX,
        ensures
            bytes_mut_view(*final(dst)) == bytes_mut_view(*old(dst)) + self@.wire(),
    {
        let ghost d0 = bytes_mut_view(*dst);
        let mut flags = self.interface_type & 0b0011_1111;
        if self.ipv4.is_some() {
            flags |= 0b1000_0000;
        }
        if self.ipv6.is_some() {
            flags |= 0b0100_0000;
        }
        proof {
            let t = self.interface_type;
            let a = self.ipv4.is_some();
            let b = self.ipv6.is_some();
            assert(flags == fteid_flags(t, a, b)) by (bit_vector)
                requires
                    flags == (if b {
                        (if a { (t & 0x3F) | 0x80u8 } else { t & 0x3F }) | 0x40u8
                    } else {
                        (if a { (t & 0x3F) | 0x80u8 } else { t & 0x3F })
                    });
            lemma_be_roundtrip(self.teid_or_gre_key as nat, 4);
        }
        bytes_mut_put_u8(dst, flags);
        bytes_mut_put_u32(dst, self.teid_or_gre_key);
        if let Some(v4) = &self.ipv4 {
            bytes_mut_put_slice(dst, v4);
        }
        if let Some(v6) = &self.ipv6 {
            bytes_mut_put_slice(dst, v6);
        }
        assert(bytes_mut_view(*dst) =~= d0 + self@.wire());
    }
}

/// The encoded size of an F-TEID with well-sized addresses: five bytes and
/// its addresses.
pub proof fn lemma_fteid_wire_len(f: FteidModel)
    requires
        f.ipv4 matches Some(a) ==> a.len() == 4,
        f.ipv6 matches Some(a) ==> a.len() == 16,
    ensures
        f.wire().len() == 5 + (if f.ipv4.is_some() { 4int } else { 0int }) + (if f.ipv6.is_some() { 16int } else { 0int }),
        f.wire().len() <= 25,
{
    lemma_be_roundtrip(f.teid_or_gre_key as nat, 4);
}

/// F-TEID round trip: an encodable F-TEID reads back from its encoding.
pub proof fn lemma_fteid_roundtrip(f: FteidModel)
    requires
        f.encodable(),
    ensures
        FteidModel::from_wire(f.wire()) == Ok::<FteidModel, GtpError>(f),
{
    lemma_pow256_values();
    lemma_be_roundtrip_exact(f.teid_or_gre_key as nat, 4);
    lemma_fteid_wire_len(f);
    let w = f.wire();
    let t = f.interface_type;
    let a = f.ipv4.is_some();
    let b = f.ipv6.is_some();
    let fl = fteid_flags(t, a, b);
    assert((fl & 0x80 != 0) == a && (fl & 0x40 != 0) == b && fl & 0x3F == t) by (bit_vector)
        requires
            t < 64,
            fl == ((t & 0x3F) | (if a { 0x80u8 } else { 0u8 })) | (if b { 0x40u8 } else { 0u8 });
    assert(w.subrange(1, 5) =~= be_bytes(f.teid_or_gre_key as nat, 4));
    let v6_at: int = if a { 9 } else { 5 };
    match f.ipv4 {
        Some(x) => { assert(w.subrange(5, 9) =~= x); },
        None => {},
    }
    match f.ipv6 {
        Some(x) => { assert(w.subrange(v6_at, v6_at + 16) =~= x); },
        None => {},
    }
    assert(FteidModel::from_wire(w).unwrap() =~= f);
}

} // verus!
