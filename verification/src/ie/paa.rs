//! The PDN Address Allocation element: the address (or prefix) assigned to
//! the user equipment, by PDN type.
use vstd::prelude::*;
use tokio_util::bytes::{Bytes, BytesMut};
use crate::buf::{
    bytes_view, bytes_mut_view, bytes_remaining, bytes_get_u8, bytes_copy_to_array, bytes_mut_put_u8,
    bytes_mut_put_slice,
};
use crate::error::GtpError;
use crate::ie::pdn_type::PdnType;

verus! {

#[derive(Debug, Clone)]
pub enum Paa {
    V4 { address: [u8; 4] },
    V6 { prefix_length: u8, address: [u8; 16] },
    V4V6 { prefix_length: u8, v6_address: [u8; 16], v4_address: [u8; 4] },
}

/// A PDN address allocation as plain values, each address as its octets.
pub enum PaaModel {
    V4 { address: Seq<u8> },
    V6 { prefix_length: u8, address: Seq<u8> },
    V4V6 { prefix_length: u8, v6_address: Seq<u8>, v4_address: Seq<u8> },
}

impl View for Paa {
    type V = PaaModel;

    open spec fn view(&self) -> PaaModel {
        match *self {
            Paa::V4 { address } => PaaModel::V4 { address: address@ },
            Paa::V6 { prefix_length, address } => PaaModel::V6 { prefix_length, address: address@ },
            Paa::V4V6 { prefix_length, v6_address, v4_address } => PaaModel::V4V6 {
                prefix_length,
                v6_address: v6_address@,
                v4_address: v4_address@,
            },
        }
    }
}

impl PaaModel {
    /// The bytes `write` appends: the PDN type code, then the prefix length
    /// and addresses of that type (IPv6 before IPv4).
    pub open spec fn wire(self) -> Seq<u8> {
        match self {
            PaaModel::V4 { address } => seq![PdnType::Ipv4.code()] + address,
            PaaModel::V6 { prefix_length, address } => seq![PdnType::Ipv6.code(), prefix_length]
                + address,
            PaaModel::V4V6 { prefix_length, v6_address, v4_address } => seq![
                PdnType::Ipv4v6.code(),
                prefix_length,
            ] + v6_address + v4_address,
        }
    }

    /// An allocation whose addresses have four and sixteen octets.
    pub open spec fn encodable(self) -> bool {
        match self {
            PaaModel::V4 { address } => address.len() == 4,
            PaaModel::V6 { prefix_length, address } => address.len() == 16,
            PaaModel::V4V6 { prefix_length, v6_address, v4_address } => v6_address.len() == 16
                && v4_address.len() == 4,
        }
    }

    /// The allocation that `parse` reads: the PDN type in the low three bits
    /// of the first byte selects the layout; a non-IP type is refused.
    pub open spec fn from_wire(s: Seq<u8>) -> Result<PaaModel, GtpError> {
        if s.len() < 1 {
            Err(GtpError::Truncated)
        } else {
            let raw = s[0] & 0x07;
            match PdnType::from_code(raw) {
                Err(e) => Err(e),
                Ok(PdnType::Ipv4) => if s.len() - 1 < 4 {
                    Err(GtpError::Truncated)
                } else {
                    Ok(PaaModel::V4 { address: s.subrange(1, 5) })
                },
                Ok(PdnType::Ipv6) => if s.len() - 1 < 17 {
                    Err(GtpError::Truncated)
                } else {
                    Ok(PaaModel::V6 { prefix_length: s[1], address: s.subrange(2, 18) })
                },
                Ok(PdnType::Ipv4v6) => if s.len() - 1 < 21 {
                    Err(GtpError::Truncated)
                } else {
                    Ok(
                        PaaModel::V4V6 {
                            prefix_length: s[1],
                            v6_address: s.subrange(2, 18),
                            v4_address: s.subrange(18, 22),
                        },
                    )
                },
                Ok(PdnType::NonIp) => Err(GtpError::InvalidPdnType(raw)),
            }
        }
    }
}

impl Paa {
    pub fn parse(value: Bytes) -> (r: Result<Self, GtpError>)
        ensures
            crate::ie::result_view(r) == PaaModel::from_wire(bytes_view(value)),
    {
        let ghost s = bytes_view(value);
        let mut value = value;
        if bytes_remaining(&value) < 1 {
            return Err(GtpError::Truncated);
        }
        let pdn_type_raw = bytes_get_u8(&mut value) & 0b0000_0111;
        let pdn_type = PdnType::try_from(pdn_type_raw)?;
        assert(bytes_view(value) =~= s.skip(1));
        match pdn_type {
            PdnType::Ipv4 => {
                if bytes_remaining(&value) < 4 {
                    return Err(GtpError::Truncated);
                }
                let mut octets = [0u8; 4];
                bytes_copy_to_array(&mut value, &mut octets);
                assert(s.skip(1).take(4) =~= s.subrange(1, 5));
                Ok(Paa::V4 { address: octets })
            },
            PdnType::Ipv6 => {
                if bytes_remaining(&value) < 17 {
                    return Err(GtpError::Truncated);
                }
                let prefix_len = bytes_get_u8(&mut value);
                let mut octets = [0u8; 16];
                bytes_copy_to_array(&mut value, &mut octets);
                assert(s.skip(1).skip(1).take(16) =~= s.subrange(2, 18));
                Ok(Paa::V6 { prefix_length: prefix_len, address: octets })
            },
            PdnType::Ipv4v6 => {
                if bytes_remaining(&value) < 21 {
                    return Err(GtpError::Truncated);
                }
                let prefix_len = bytes_get_u8(&mut value);
                let mut v6_octets = [0u8; 16];
                bytes_copy_to_array(&mut value, &mut v6_octets);
                let mut v4_octets = [0u8; 4];
                bytes_copy_to_array(&mut value, &mut v4_octets);
                assert(s.skip(1).skip(1).take(16) =~= s.subrange(2, 18));
                assert(s.skip(1).skip(1).skip(16).take(4) =~= s.subrange(18, 22));
                Ok(Paa::V4V6 { prefix_length: prefix_len, v6_address: v6_octets, v4_address: v4_octets })
            },
            PdnType::NonIp => Err(GtpError::InvalidPdnType(pdn_type_raw)),
        }
    }

    pub fn write(&self, dst: &mut BytesMut)
        requires
            bytes_mut_view(*old(dst)).len() + 22 <= isize::MAX,
        ensures
            bytes_mut_view(*final(dst)) == bytes_mut_view(*old(dst)) + self@.wire(),
    {
        let ghost d0 = bytes_mut_view(*dst);
        match self {
            Paa::V4 { address } => {
                bytes_mut_put_u8(dst, PdnType::Ipv4.to_code());
                bytes_mut_put_slice(dst, address);
            },
            Paa::V6 { prefix_length, address } => {
                bytes_mut_put_u8(dst, PdnType::Ipv6.to_code());
                bytes_mut_put_u8(dst, *prefix_length);
                bytes_mut_put_slice(dst, address);
            },
            Paa::V4V6 { prefix_length, v6_address, v4_address } => {
                bytes_mut_put_u8(dst, PdnType::Ipv4v6.to_code());
                bytes_mut_put_u8(dst, *prefix_length);
                bytes_mut_put_slice(dst, v6_address);
                bytes_mut_put_slice(dst, v4_address);
            },
        }
        assert(bytes_mut_view(*dst) =~= d0 + self@.wire());
    }

    /// The allocation a request sends to ask for an IPv4 address: the
    /// unspecified address 0.0.0.0.
    pub fn request_v4() -> (r: Self)
        ensures
            r@ == (PaaModel::V4 { address: seq![0u8, 0u8, 0u8, 0u8] }),
    {
        let address = [0u8, 0u8, 0u8, 0u8];
        assert(address@ =~= seq![0u8, 0u8, 0u8, 0u8]);
        Paa::V4 { address }
    }
}

/// PAA round trip: an allocation with well-sized addresses reads back from
/// its encoding.
pub proof fn lemma_paa_roundtrip(p: PaaModel)
    requires
        p.encodable(),
    ensures
        PaaModel::from_wire(p.wire()) == Ok::<PaaModel, GtpError>(p),
{
    let w = p.wire();
    assert(1u8 & 0x07 == 1u8 && 2u8 & 0x07 == 2u8 && 3u8 & 0x07 == 3u8) by (bit_vector);
    match p {
        PaaModel::V4 { address } => {
            assert(w.subrange(1, 5) =~= address);
        },
        PaaModel::V6 { prefix_length, address } => {
            assert(w.subrange(2, 18) =~= address);
        },
        PaaModel::V4V6 { prefix_length, v6_address, v4_address } => {
            assert(w.subrange(2, 18) =~= v6_address);
            assert(w.subrange(18, 22) =~= v4_address);
        },
    }
}

} // verus!
