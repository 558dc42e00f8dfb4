//! The wire layout of the GTPv2-C encodings, stated byte by byte: at which
//! offsets each field of a header, an element or an element value stands,
//! and in which form. These laws pin each encoding to the protocol's layout,
//! over every value, apart from the round trips that only say that reading
//! undoes writing.
use vstd::prelude::*;
use crate::header::Header;
use crate::ie::IeModel;
use crate::ie::ambr::Ambr;
use crate::ie::bearer_context::BearerContextModel;
use crate::ie::bearer_qos::{BearerQos, qos_flags};
use crate::ie::cause::Cause;
use crate::ie::fteid::{FteidModel, fteid_flags};
use crate::ie::paa::PaaModel;
use crate::ie::imsi::{all_decimal_digits, digits_wire, digit_values, imsi_wire, pack, lemma_digits_wire_len};
use crate::ie::apn::{apn_wire_bytes, label_len, lemma_label_len_bound};
use crate::ie::rat_type::RatType;
use crate::ie::pdn_type::PdnType;
use crate::ie::selection_mode::SelectionMode;
use vstd::utf8::*;
use crate::ie::recovery::Recovery;
use crate::message::{MessageModel, ies_wire};
use crate::messages::echo_response::echo_response_message;
use crate::messages::echo_request::echo_request_message;
use crate::messages::delete_session_request::delete_session_request_message;
use crate::messages::delete_session_response::delete_session_response_message;
use crate::messages::create_session_request::{CreateSessionRequestModel, create_session_request_message};
use crate::messages::create_session_response::{CreateSessionResponseModel, create_session_response_message};
use crate::messages::{DeleteSessionRequest, DeleteSessionResponse, EchoRequest, EchoResponse};
use crate::wire::{be_bytes, be_value, lemma_be_roundtrip_exact, lemma_pow256_values};

verus! {

/// A 40-bit rate written in five bytes reads back as itself.
proof fn lemma_rate_bytes(v: u64)
    requires
        v <= 0xFF_FFFF_FFFF,
    ensures
        be_bytes(v as nat, 5).len() == 5,
        be_value(be_bytes(v as nat, 5)) == v,
{
    lemma_pow256_values();
    lemma_be_roundtrip_exact(v as nat, 5);
}

/// Bearer QoS layout: 22 bytes. Byte 0 holds the pre-emption capability in
/// bit 6, the priority level in bits 2 to 5 and the pre-emption vulnerability
/// in bit 0, its other bits clear; byte 1 is the QCI; then four big-endian
/// 40-bit rates: maximum uplink in bytes 2 to 6, maximum downlink in 7 to 11,
/// guaranteed uplink in 12 to 16, guaranteed downlink in 17 to 21.
pub proof fn lemma_bearer_qos_layout(q: BearerQos)
    requires
        q.encodable(),
    ensures
        q.wire().len() == 22,
        (q.wire()[0] & 0x40 != 0) == q.pci,
        (q.wire()[0] >> 2u8) & 0x0F == q.priority_level,
        (q.wire()[0] & 0x01 != 0) == q.pvi,
        q.wire()[0] & 0x82 == 0,
        q.wire()[1] == q.qci,
        be_value(q.wire().subrange(2, 7)) == q.max_bitrate_uplink_kbps,
        be_value(q.wire().subrange(7, 12)) == q.max_bitrate_downlink_kbps,
        be_value(q.wire().subrange(12, 17)) == q.guaranteed_bitrate_uplink_kbps,
        be_value(q.wire().subrange(17, 22)) == q.guaranteed_bitrate_downlink_kbps,
{
    lemma_rate_bytes(q.max_bitrate_uplink_kbps);
    lemma_rate_bytes(q.max_bitrate_downlink_kbps);
    lemma_rate_bytes(q.guaranteed_bitrate_uplink_kbps);
    lemma_rate_bytes(q.guaranteed_bitrate_downlink_kbps);
    let w = q.wire();
    assert(w.subrange(2, 7) =~= be_bytes(q.max_bitrate_uplink_kbps as nat, 5));
    assert(w.subrange(7, 12) =~= be_bytes(q.max_bitrate_downlink_kbps as nat, 5));
    assert(w.subrange(12, 17) =~= be_bytes(q.guaranteed_bitrate_uplink_kbps as nat, 5));
    assert(w.subrange(17, 22) =~= be_bytes(q.guaranteed_bitrate_downlink_kbps as nat, 5));
    let c = q.pci;
    let p = q.priority_level;
    let v = q.pvi;
    let f = qos_flags(c, p, v);
    assert((f & 0x40 != 0) == c && (f >> 2u8) & 0x0F == p && (f & 0x01 != 0) == v && f & 0x82 == 0)
        by (bit_vector)
        requires
            p < 16,
            f == ((if c { 0x40u8 } else { 0u8 }) | ((p & 0x0F) << 2u8)) | (if v { 0x01u8 } else { 0u8 });
    assert(w[0] == f);
}

/// A Bearer QoS value of at least 22 bytes is read by the same layout: the
/// flags from byte 0, the QCI from byte 1, and the maximum uplink, maximum
/// downlink, guaranteed uplink and guaranteed downlink rates from bytes 2 to
/// 6, 7 to 11, 12 to 16 and 17 to 21; a shorter one is truncated.
pub proof fn lemma_bearer_qos_reads_layout(s: Seq<u8>)
    ensures
        s.len() < 22 ==> BearerQos::from_wire(s) is Err,
        s.len() >= 22 ==> (BearerQos::from_wire(s) matches Ok(q) && {
            &&& q.pci == (s[0] & 0x40 != 0)
            &&& q.priority_level == (s[0] >> 2u8) & 0x0F
            &&& q.pvi == (s[0] & 0x01 != 0)
            &&& q.qci == s[1]
            &&& q.max_bitrate_uplink_kbps == be_value(s.subrange(2, 7))
            &&& q.max_bitrate_downlink_kbps == be_value(s.subrange(7, 12))
            &&& q.guaranteed_bitrate_uplink_kbps == be_value(s.subrange(12, 17))
            &&& q.guaranteed_bitrate_downlink_kbps == be_value(s.subrange(17, 22))
        }),
{
    if s.len() >= 22 {
        let b = s[0];
        assert((b & 0x3C) >> 2u8 == (b >> 2u8) & 0x0F) by (bit_vector);
        lemma_rate_value(s.subrange(2, 7));
        lemma_rate_value(s.subrange(7, 12));
        lemma_rate_value(s.subrange(12, 17));
        lemma_rate_value(s.subrange(17, 22));
    }
}

/// Five bytes hold a value below `2^40`.
proof fn lemma_rate_value(s: Seq<u8>)
    requires
        s.len() == 5,
    ensures
        be_value(s) <= 0xFF_FFFF_FFFF,
{
    lemma_pow256_values();
    crate::wire::lemma_be_value_bound(s);
}

/// F-TEID layout: byte 0 has bit 7 set exactly when an IPv4 address follows,
/// bit 6 exactly when an IPv6 address follows, and the interface type in its
/// six low bits; bytes 1 to 4 are the big-endian TEID or GRE key; then the
/// IPv4 address in bytes 5 to 8 where there is one, and the IPv6 address in
/// the sixteen bytes after it (or from byte 5 without an IPv4 address).
pub proof fn lemma_fteid_layout(f: FteidModel)
    requires
        f.encodable(),
    ensures
        f.wire().len() == 5 + (if f.ipv4 is Some { 4int } else { 0int }) + (if f.ipv6 is Some { 16int } else { 0int }),
        (f.wire()[0] & 0x80 != 0) == f.ipv4 is Some,
        (f.wire()[0] & 0x40 != 0) == f.ipv6 is Some,
        f.wire()[0] & 0x3F == f.interface_type,
        be_value(f.wire().subrange(1, 5)) == f.teid_or_gre_key,
        f.ipv4 matches Some(a) ==> f.wire().subrange(5, 9) == a,
        f.ipv6 matches Some(a) ==> (if f.ipv4 is Some {
            f.wire().subrange(9, 25) == a
        } else {
            f.wire().subrange(5, 21) == a
        }),
{
    lemma_pow256_values();
    lemma_be_roundtrip_exact(f.teid_or_gre_key as nat, 4);
    crate::ie::fteid::lemma_fteid_wire_len(f);
    let w = f.wire();
    let t = f.interface_type;
    let a = f.ipv4.is_some();
    let b = f.ipv6.is_some();
    let fl = fteid_flags(t, a, b);
    assert((fl & 0x80 != 0) == a && (fl & 0x40 != 0) == b && fl & 0x3F == t) by (bit_vector)
        requires
            t < 64,
            fl == ((t & 0x3F) | (if a { 0x80u8 } else { 0u8 })) | (if b { 0x40u8 } else { 0u8 });
    assert(w[0] == fl);
    assert(w.subrange(1, 5) =~= be_bytes(f.teid_or_gre_key as nat, 4));
    match f.ipv4 {
        Some(x) => {
            assert(w.subrange(5, 9) =~= x);
        },
        None => {},
    }
    match f.ipv6 {
        Some(x) => {
            if a {
                assert(w.subrange(9, 25) =~= x);
            } else {
                assert(w.subrange(5, 21) =~= x);
            }
        },
        None => {},
    }
}

/// An F-TEID value is read by the same layout: the interface type from the
/// six low bits of byte 0, the TEID or GRE key from bytes 1 to 4, an IPv4
/// address from bytes 5 to 8 where bit 7 is set, and an IPv6 address from the
/// sixteen bytes after it (or from byte 5) where bit 6 is set.
pub proof fn lemma_fteid_reads_layout(s: Seq<u8>)
    requires
        s.len() >= 25,
    ensures
        FteidModel::from_wire(s) matches Ok(f) && {
            &&& f.interface_type == s[0] & 0x3F
            &&& f.teid_or_gre_key == be_value(s.subrange(1, 5))
            &&& f.ipv4 == (if s[0] & 0x80 != 0 { Some(s.subrange(5, 9)) } else { None })
            &&& f.ipv6 == (if s[0] & 0x40 == 0 {
                None
            } else if s[0] & 0x80 != 0 {
                Some(s.subrange(9, 25))
            } else {
                Some(s.subrange(5, 21))
            })
        },
{
    lemma_pow256_values();
    crate::wire::lemma_be_value_bound(s.subrange(1, 5));
}

/// PAA layout: byte 0 is the PDN type (1 for IPv4, 2 for IPv6, 3 for both);
/// an IPv4 allocation follows with its four address bytes; an IPv6 one with
/// the prefix length and sixteen address bytes; a dual one with the prefix
/// length, the IPv6 address in bytes 2 to 17 and the IPv4 address in bytes
/// 18 to 21.
pub proof fn lemma_paa_layout(p: PaaModel)
    requires
        p.encodable(),
    ensures
        p matches PaaModel::V4 { address } ==> {
            &&& p.wire().len() == 5
            &&& p.wire()[0] == 1
            &&& p.wire().subrange(1, 5) == address
        },
        p matches PaaModel::V6 { prefix_length, address } ==> {
            &&& p.wire().len() == 18
            &&& p.wire()[0] == 2
            &&& p.wire()[1] == prefix_length
            &&& p.wire().subrange(2, 18) == address
        },
        p matches PaaModel::V4V6 { prefix_length, v6_address, v4_address } ==> {
            &&& p.wire().len() == 22
            &&& p.wire()[0] == 3
            &&& p.wire()[1] == prefix_length
            &&& p.wire().subrange(2, 18) == v6_address
            &&& p.wire().subrange(18, 22) == v4_address
        },
{
    match p {
        PaaModel::V4 { address } => {
            assert(p.wire().subrange(1, 5) =~= address);
        },
        PaaModel::V6 { prefix_length, address } => {
            assert(p.wire().subrange(2, 18) =~= address);
        },
        PaaModel::V4V6 { prefix_length, v6_address, v4_address } => {
            assert(p.wire().subrange(2, 18) =~= v6_address);
            assert(p.wire().subrange(18, 22) =~= v4_address);
        },
    }
}

/// A dual-stack PAA value of at least 22 bytes is read by the same layout:
/// the prefix length from byte 1, the IPv6 address from bytes 2 to 17 and the
/// IPv4 address from bytes 18 to 21.
pub proof fn lemma_paa_reads_dual_layout(s: Seq<u8>)
    requires
        s.len() >= 22,
        s[0] & 0x07 == 3,
    ensures
        PaaModel::from_wire(s) == Ok::<PaaModel, crate::error::GtpError>(
            PaaModel::V4V6 { prefix_length: s[1], v6_address: s.subrange(2, 18), v4_address: s.subrange(18, 22) },
        ),
{
}

/// An element is encoded as its type, its value length in two big-endian
/// bytes, its instance in the next byte, and its value.
pub proof fn lemma_ie_layout(m: IeModel)
    requires
        m.encodable(),
    ensures
        m.wire().len() == 4 + m.value.len(),
        m.wire()[0] == m.ie_type,
        be_value(m.wire().subrange(1, 3)) == m.value.len(),
        m.wire()[3] == m.instance,
        m.wire().subrange(4, m.wire().len() as int) == m.value,
{
    lemma_pow256_values();
    lemma_be_roundtrip_exact(m.value.len(), 2);
    let w = m.wire();
    assert(w.subrange(1, 3) =~= be_bytes((m.value.len() as u16) as nat, 2));
    assert(w.subrange(4, w.len() as int) =~= m.value);
    let i = m.instance;
    assert(i & 0x0F == i) by (bit_vector)
        requires
            i < 16,
    ;
}

/// Whether `e` is one of the elements a bearer context `b` is encoded with:
/// its EBI as type 73 instance 0 (one byte), its cause as type 2 instance 0
/// (the value and a spare byte), its F-TEID as type 87 instance 2, and its
/// QoS as type 80 instance 0.
pub open spec fn bearer_element(b: BearerContextModel, e: IeModel) -> bool {
    ||| b.ebi matches Some(x) && e == (IeModel { ie_type: 73, instance: 0, value: seq![x] })
    ||| b.cause matches Some(c) && e == (IeModel { ie_type: 2, instance: 0, value: seq![c.value, 0u8] })
    ||| b.fteid matches Some(f) && e == (IeModel { ie_type: 87, instance: 2, value: f.wire() })
    ||| b.bearer_qos matches Some(q) && e == (IeModel { ie_type: 80, instance: 0, value: q.wire() })
}

/// The elements of an encoded bearer context: one for each field that is
/// set, in the order EBI, cause, F-TEID, QoS, each of the form that
/// `bearer_element` gives (so the F-TEID is always instance 2), and nothing
/// else.
pub proof fn lemma_bearer_context_elements(b: BearerContextModel)
    ensures
        b.ies().len() == (if b.ebi is Some { 1int } else { 0int }) + (if b.cause is Some { 1int } else { 0int })
            + (if b.fteid is Some { 1int } else { 0int }) + (if b.bearer_qos is Some { 1int } else { 0int }),
        forall|i: int| 0 <= i < b.ies().len() ==> bearer_element(b, #[trigger] b.ies()[i]),
        forall|i: int, j: int| 0 <= i < j < b.ies().len() ==> #[trigger] b.ies()[i].ie_type != #[trigger] b.ies()[j].ie_type,
        b.ebi matches Some(x) ==> b.ies()[0] == (IeModel { ie_type: 73, instance: 0, value: seq![x] }),
        b.fteid matches Some(f) ==> exists|i: int| 0 <= i < b.ies().len() && #[trigger] b.ies()[i] == (IeModel {
            ie_type: 87,
            instance: 2,
            value: f.wire(),
        }),
        b.cause matches Some(c) ==> exists|i: int| 0 <= i < b.ies().len() && #[trigger] b.ies()[i] == (IeModel {
            ie_type: 2,
            instance: 0,
            value: seq![c.value, 0u8],
        }),
        b.bearer_qos matches Some(q) ==> exists|i: int| 0 <= i < b.ies().len() && #[trigger] b.ies()[i] == (IeModel {
            ie_type: 80,
            instance: 0,
            value: q.wire(),
        }),
{
    let l = b.ies();
    let n = l.len();
    match b.bearer_qos {
        Some(q) => {
            assert(l[n - 1] == (IeModel { ie_type: 80, instance: 0, value: q.wire() }));
        },
        None => {},
    }
    match b.fteid {
        Some(f) => {
            let k: int = if b.bearer_qos is Some { n - 2 } else { n - 1 };
            assert(l[k] == (IeModel { ie_type: 87, instance: 2, value: f.wire() }));
        },
        None => {},
    }
    match b.cause {
        Some(c) => {
            let k: int = if b.ebi is Some { 1 } else { 0 };
            assert(c.wire() =~= seq![c.value, 0u8]);
            assert(l[k] == (IeModel { ie_type: 2, instance: 0, value: seq![c.value, 0u8] }));
        },
        None => {},
    }
    assert forall|i: int| 0 <= i < l.len() implies bearer_element(b, #[trigger] l[i]) by {
        match b.cause {
            Some(c) => {
                assert(c.wire() =~= seq![c.value, 0u8]);
            },
            None => {},
        }
    }
}

/// AMBR layout: eight bytes, the uplink rate big-endian in bytes 0 to 3 and
/// the downlink rate in bytes 4 to 7.
pub proof fn lemma_ambr_layout(a: Ambr)
    ensures
        a.wire().len() == 8,
        be_value(a.wire().subrange(0, 4)) == a.uplink_kbps,
        be_value(a.wire().subrange(4, 8)) == a.downlink_kbps,
{
    lemma_pow256_values();
    lemma_be_roundtrip_exact(a.uplink_kbps as nat, 4);
    lemma_be_roundtrip_exact(a.downlink_kbps as nat, 4);
    assert(a.wire().subrange(0, 4) =~= be_bytes(a.uplink_kbps as nat, 4));
    assert(a.wire().subrange(4, 8) =~= be_bytes(a.downlink_kbps as nat, 4));
}

/// Cause layout: the cause value, then a spare byte of zero.
pub proof fn lemma_cause_layout(c: Cause)
    ensures
        c.wire() == seq![c.value, 0u8],
{
}

/// Recovery layout: the restart counter as the only byte.
pub proof fn lemma_recovery_layout(r: Recovery)
    ensures
        r.wire() == seq![r.restart_counter],
{
}

/// Header layout: byte 0 holds the version in its three top bits, the
/// piggybacking flag in bit 4 and the TEID flag in bit 3, its low three bits
/// clear; byte 1 is the message type; bytes 2 and 3 the big-endian length of
/// everything after them; then, with a TEID, the TEID in bytes 4 to 7; then
/// the 24-bit sequence number and a spare byte of zero.
pub proof fn lemma_header_layout(h: Header, ie_body_len: u16)
    requires
        h.encodable(),
        (if h.teid_flag { 8int } else { 4int }) + ie_body_len <= 0xFFFF,
    ensures
        h.wire(ie_body_len).len() == (if h.teid_flag { 12int } else { 8int }),
        h.wire(ie_body_len)[0] >> 5u8 == h.version,
        (h.wire(ie_body_len)[0] & 0x10 != 0) == h.piggybacking_flag,
        (h.wire(ie_body_len)[0] & 0x08 != 0) == h.teid_flag,
        h.wire(ie_body_len)[0] & 0x07 == 0,
        h.wire(ie_body_len)[1] == h.message_type,
        be_value(h.wire(ie_body_len).subrange(2, 4)) == (if h.teid_flag { 8int } else { 4int }) + ie_body_len,
        h.teid matches Some(t) ==> be_value(h.wire(ie_body_len).subrange(4, 8)) == t,
        h.teid_flag ==> be_value(h.wire(ie_body_len).subrange(8, 11)) == h.sequence_number,
        !h.teid_flag ==> be_value(h.wire(ie_body_len).subrange(4, 7)) == h.sequence_number,
        h.wire(ie_body_len).last() == 0,
{
    lemma_pow256_values();
    let len: nat = ((if h.teid_flag { 8int } else { 4int }) + ie_body_len) as nat;
    lemma_be_roundtrip_exact(len, 2);
    lemma_be_roundtrip_exact(h.sequence_number as nat, 3);
    let w = h.wire(ie_body_len);
    assert(w.subrange(2, 4) =~= be_bytes(len, 2));
    match h.teid {
        Some(t) => {
            lemma_be_roundtrip_exact(t as nat, 4);
            assert(w.subrange(4, 8) =~= be_bytes(t as nat, 4));
            assert(w.subrange(8, 11) =~= be_bytes(h.sequence_number as nat, 3));
        },
        None => {
            assert(w.subrange(4, 7) =~= be_bytes(h.sequence_number as nat, 3));
        },
    }
    let v = h.version;
    let pb = h.piggybacking_flag;
    let tf = h.teid_flag;
    let f = h.flags_octet();
    assert(f >> 5u8 == v && (f & 0x10 != 0) == pb && (f & 0x08 != 0) == tf && f & 0x07 == 0) by (bit_vector)
        requires
            v < 8,
            f == ((v << 5u8) | (if pb { 0x10u8 } else { 0u8 })) | (if tf { 0x08u8 } else { 0u8 });
    assert(w[0] == f);
}

/// The type and instance of each element of a list.
pub open spec fn element_keys(ies: Seq<IeModel>) -> Seq<(u8, u8)> {
    ies.map_values(|e: IeModel| (e.ie_type, e.instance))
}

/// An echo request is type 1 with no TEID (an eight-byte header) and the
/// request's sequence number, and carries one element: the Recovery
/// (type 3, instance 0) with the restart counter.
pub proof fn lemma_echo_request_layout(e: EchoRequest)
    ensures
        echo_request_message(e).header == (Header {
            version: 2,
            piggybacking_flag: false,
            teid_flag: false,
            message_type: 1,
            teid: None,
            sequence_number: e.sequence_number,
        }),
        echo_request_message(e).ies == seq![
            IeModel { ie_type: 3, instance: 0, value: seq![e.recovery.restart_counter] },
        ],
{
}

/// An echo response is type 2 with no TEID (an eight-byte header) and the
/// request's sequence number, and carries one element: the Recovery
/// (type 3, instance 0) with the restart counter. Written out, with a
/// sequence number below `2^24`, it is the thirteen bytes 0x40, 2, 0, 9, the
/// sequence number in three bytes, 0, 3, 0, 1, 0 and the restart counter.
pub proof fn lemma_echo_response_layout(e: EchoResponse)
    ensures
        echo_response_message(e).header == (Header {
            version: 2,
            piggybacking_flag: false,
            teid_flag: false,
            message_type: 2,
            teid: None,
            sequence_number: e.sequence_number,
        }),
        echo_response_message(e).ies == seq![
            IeModel { ie_type: 3, instance: 0, value: seq![e.recovery.restart_counter] },
        ],
        e.sequence_number < 0x100_0000 ==> {
            let w = echo_response_message(e).wire();
            &&& w.len() == 13
            &&& w[0] == 0x40
            &&& w[1] == 2
            &&& be_value(w.subrange(2, 4)) == 9
            &&& be_value(w.subrange(4, 7)) == e.sequence_number
            &&& w.subrange(7, 13) == seq![0u8, 3u8, 0u8, 1u8, 0u8, e.recovery.restart_counter]
        },
{
    let m = echo_response_message(e);
    let ie = IeModel { ie_type: 3, instance: 0, value: seq![e.recovery.restart_counter] };
    assert(m.ies == seq![ie]);
    if e.sequence_number < 0x100_0000 {
        crate::messages::lemma_single_ie_body(ie);
        lemma_ie_layout(ie);
        assert(ies_wire(m.ies) =~= ie.wire());
        assert(m.body().len() == 5);
        lemma_header_layout(m.header, 5);
        let hw = m.header.wire(5);
        let w = m.wire();
        assert(w =~= hw + ie.wire());
        let b0 = hw[0];
        assert(b0 == 0x40) by (bit_vector)
            requires
                b0 >> 5u8 == 2,
                b0 & 0x10 == 0,
                b0 & 0x08 == 0,
                b0 & 0x07 == 0,
        ;
        assert(w.subrange(2, 4) =~= hw.subrange(2, 4));
        assert(w.subrange(4, 7) =~= hw.subrange(4, 7));
        let iw = ie.wire();
        assert(iw.subrange(1, 3) =~= seq![iw[1], iw[2]]);
        lemma_be_value_two(iw[1], iw[2]);
        assert(iw[1] == 0 && iw[2] == 1) by {
            lemma_pow256_values();
            lemma_be_roundtrip_exact(1, 2);
            crate::wire::lemma_be_value_bound(seq![iw[1]]);
        }
        assert(w.subrange(7, 13) =~= seq![0u8, 3u8, 0u8, 1u8, 0u8, e.recovery.restart_counter]);
    }
}

/// The value of two big-endian bytes.
proof fn lemma_be_value_two(a: u8, b: u8)
    ensures
        be_value(seq![a, b]) == a * 256 + b,
{
    assert(seq![a, b].drop_last() =~= seq![a]);
    assert(seq![a].drop_last() =~= Seq::<u8>::empty());
    reveal_with_fuel(be_value, 3);
}

/// A delete session request is type 36 with the request's TEID in its header
/// and carries one element: the EBI (type 73, instance 0) holding the linked
/// bearer.
pub proof fn lemma_delete_session_request_layout(d: DeleteSessionRequest)
    ensures
        delete_session_request_message(d).header == (Header {
            version: 2,
            piggybacking_flag: false,
            teid_flag: true,
            message_type: 36,
            teid: Some(d.teid),
            sequence_number: d.sequence_number,
        }),
        delete_session_request_message(d).ies == seq![IeModel { ie_type: 73, instance: 0, value: seq![d.linked_ebi] }],
{
}

/// A delete session response is type 37 with the response's TEID in its
/// header and carries one element: the Cause (type 2, instance 0).
pub proof fn lemma_delete_session_response_layout(d: DeleteSessionResponse)
    ensures
        delete_session_response_message(d).header == (Header {
            version: 2,
            piggybacking_flag: false,
            teid_flag: true,
            message_type: 37,
            teid: Some(d.teid),
            sequence_number: d.sequence_number,
        }),
        delete_session_response_message(d).ies == seq![
            IeModel { ie_type: 2, instance: 0, value: seq![d.cause.value, 0u8] },
        ],
{
    assert(d.cause.wire() =~= seq![d.cause.value, 0u8]);
}

/// A create session request is type 32 with TEID 0 and carries, all as
/// instance 0 and in this order, the IMSI (1), sender F-TEID (87), APN (71),
/// AMBR (72), RAT type (82), PDN type (99), PAA (79), selection mode (128) and
/// bearer context (93).
pub proof fn lemma_create_session_request_layout(c: CreateSessionRequestModel)
    ensures
        create_session_request_message(c).header == (Header {
            version: 2,
            piggybacking_flag: false,
            teid_flag: true,
            message_type: 32,
            teid: Some(0),
            sequence_number: c.sequence_number,
        }),
        element_keys(create_session_request_message(c).ies) == seq![
            (1u8, 0u8),
            (87u8, 0u8),
            (71u8, 0u8),
            (72u8, 0u8),
            (82u8, 0u8),
            (99u8, 0u8),
            (79u8, 0u8),
            (128u8, 0u8),
            (93u8, 0u8),
        ],
{
    assert(element_keys(create_session_request_message(c).ies) =~= seq![
        (1u8, 0u8),
        (87u8, 0u8),
        (71u8, 0u8),
        (72u8, 0u8),
        (82u8, 0u8),
        (99u8, 0u8),
        (79u8, 0u8),
        (128u8, 0u8),
        (93u8, 0u8),
    ]);
}

/// A create session response is type 33 with the response's TEID and
/// carries the Cause (2, instance 0), the sender F-TEID (87, instance 1), the
/// AMBR (72, instance 0) where there is one, and the bearer context (93,
/// instance 0), in this order.
pub proof fn lemma_create_session_response_layout(c: CreateSessionResponseModel)
    ensures
        create_session_response_message(c).header == (Header {
            version: 2,
            piggybacking_flag: false,
            teid_flag: true,
            message_type: 33,
            teid: Some(c.teid),
            sequence_number: c.sequence_number,
        }),
        c.ambr is Some ==> element_keys(create_session_response_message(c).ies) == seq![
            (2u8, 0u8),
            (87u8, 1u8),
            (72u8, 0u8),
            (93u8, 0u8),
        ],
        c.ambr is None ==> element_keys(create_session_response_message(c).ies) == seq![
            (2u8, 0u8),
            (87u8, 1u8),
            (93u8, 0u8),
        ],
{
    let k = element_keys(create_session_response_message(c).ies);
    if c.ambr is Some {
        assert(k =~= seq![(2u8, 0u8), (87u8, 1u8), (72u8, 0u8), (93u8, 0u8)]);
    } else {
        assert(k =~= seq![(2u8, 0u8), (87u8, 1u8), (93u8, 0u8)]);
    }
}


/// The digit value of a decimal digit character.
pub open spec fn digit_value(c: char) -> u8 {
    ((c as u8) - 48) as u8
}

/// Each byte of packed digit values holds two of them.
proof fn lemma_digits_wire_at(ds: Seq<u8>, i: int)
    requires
        0 <= 2 * i < ds.len(),
    ensures
        digits_wire(ds)[i] == (if 2 * i + 1 < ds.len() { pack(ds[2 * i], ds[2 * i + 1]) } else { pack(ds[2 * i], 0x0F) }),
    decreases ds.len(),
{
    if i > 0 {
        let rest = ds.subrange(2, ds.len() as int);
        lemma_digits_wire_at(rest, i - 1);
        lemma_digits_wire_len(rest);
        assert(rest[2 * (i - 1)] == ds[2 * i]);
        if 2 * i + 1 < ds.len() {
            assert(rest[2 * (i - 1) + 1] == ds[2 * i + 1]);
        }
    }
}

/// IMSI layout: the digits two to a byte, the first of each pair in the low
/// nibble and the second in the high nibble; an odd last digit is paired with
/// `0xF` in the high nibble.
pub proof fn lemma_imsi_layout(chars: Seq<char>)
    requires
        all_decimal_digits(chars),
    ensures
        imsi_wire(chars).len() == (chars.len() + 1) / 2,
        forall|i: int| 0 <= i < chars.len() / 2 ==> {
            &&& #[trigger] imsi_wire(chars)[i] & 0x0F == digit_value(chars[2 * i])
            &&& imsi_wire(chars)[i] >> 4u8 == digit_value(chars[2 * i + 1])
        },
        chars.len() % 2 == 1 ==> {
            &&& imsi_wire(chars)[(chars.len() / 2) as int] & 0x0F == digit_value(chars[chars.len() - 1])
            &&& imsi_wire(chars)[(chars.len() / 2) as int] >> 4u8 == 0x0F
        },
{
    assert(is_ascii_chars(chars)) by {
        assert forall|i: int| 0 <= i < chars.len() implies '\0' <= #[trigger] chars[i] <= '\u{7f}' by {
            assert('0' <= chars[i] <= '9');
        }
    }
    is_ascii_chars_encode_utf8(chars);
    let b = encode_utf8(chars);
    let ds = digit_values(b);
    assert forall|k: int| 0 <= k < ds.len() implies #[trigger] ds[k] == digit_value(chars[k]) && ds[k] <= 9 by {
        assert(chars[k] as u8 == b[k]);
        assert('0' <= chars[k] <= '9');
    }
    lemma_digits_wire_len(ds);
    assert forall|i: int| 0 <= i < chars.len() / 2 implies {
        &&& #[trigger] imsi_wire(chars)[i] & 0x0F == digit_value(chars[2 * i])
        &&& imsi_wire(chars)[i] >> 4u8 == digit_value(chars[2 * i + 1])
    } by {
        lemma_digits_wire_at(ds, i);
        let lo = ds[2 * i];
        let hi = ds[2 * i + 1];
        assert(ds[2 * i] == digit_value(chars[2 * i]));
        assert(ds[2 * i + 1] == digit_value(chars[2 * i + 1]));
        assert((lo | (hi << 4u8)) & 0x0F == lo && (lo | (hi << 4u8)) >> 4u8 == hi) by (bit_vector)
            requires
                lo < 16,
                hi < 16,
        ;
    }
    if chars.len() % 2 == 1 {
        let i: int = (chars.len() / 2) as int;
        lemma_digits_wire_at(ds, i);
        let lo = ds[2 * i];
        assert(ds[2 * i] == digit_value(chars[2 * i]));
        assert((lo | (0x0Fu8 << 4u8)) & 0x0F == lo && (lo | (0x0Fu8 << 4u8)) >> 4u8 == 0x0F) by (bit_vector)
            requires
                lo < 16,
        ;
    }
}

/// APN layout: the name's first label (the bytes before the first `'.'`)
/// preceded by its length, then the rest of the name after that dot encoded
/// the same way.
pub proof fn lemma_apn_layout(b: Seq<u8>)
    requires
        label_len(b) < 256,
    ensures
        apn_wire_bytes(b)[0] == label_len(b),
        apn_wire_bytes(b).subrange(1, label_len(b) + 1int) == b.take(label_len(b) as int),
        label_len(b) < b.len() ==> b[label_len(b) as int] == 0x2E && apn_wire_bytes(b).subrange(
            label_len(b) + 1int,
            apn_wire_bytes(b).len() as int,
        ) == apn_wire_bytes(b.skip(label_len(b) + 1int)),
        label_len(b) == b.len() ==> apn_wire_bytes(b).len() == b.len() + 1,
{
    lemma_label_len_bound(b);
    let k = label_len(b);
    let w = apn_wire_bytes(b);
    let head = seq![k as u8] + b.take(k as int);
    assert(w.subrange(1, k + 1int) =~= b.take(k as int));
    if k < b.len() {
        assert(w.subrange(k + 1int, w.len() as int) =~= apn_wire_bytes(b.skip(k + 1int)));
    }
}

/// RAT type codes: UTRAN 1, GERAN 2, WLAN 3, GAN 4, HSPA Evolution 5,
/// E-UTRAN 6, Virtual 7, NB-IoT 8, LTE-M 9, NR 10, each written as one byte;
/// a value is read from its first byte, and every code from 1 to 10 reads
/// back as the type written with it.
pub proof fn lemma_rat_type_layout(t: RatType, s: Seq<u8>)
    ensures
        t.wire() == seq![
            match t {
                RatType::Utran => 1u8,
                RatType::Geran => 2u8,
                RatType::Wlan => 3u8,
                RatType::Gan => 4u8,
                RatType::HspaEvolution => 5u8,
                RatType::Eutran => 6u8,
                RatType::Virtual => 7u8,
                RatType::Nbiot => 8u8,
                RatType::Ltem => 9u8,
                RatType::Nr => 10u8,
            },
        ],
        s.len() >= 1 ==> (RatType::from_wire(s) is Ok <==> 1 <= s[0] <= 10),
        RatType::from_wire(s) matches Ok(r) ==> r.wire() == seq![s[0]],
{
}

/// PDN type codes: IPv4 1, IPv6 2, IPv4v6 3, non-IP 4, written as one byte; a
/// value is read from the low three bits of its first byte, and the codes 1
/// to 4 read back as the type written with them.
pub proof fn lemma_pdn_type_layout(t: PdnType, s: Seq<u8>)
    ensures
        t.wire() == seq![
            match t {
                PdnType::Ipv4 => 1u8,
                PdnType::Ipv6 => 2u8,
                PdnType::Ipv4v6 => 3u8,
                PdnType::NonIp => 4u8,
            },
        ],
        s.len() >= 1 ==> (PdnType::from_wire(s) is Ok <==> 1 <= s[0] & 0x07 <= 4),
        PdnType::from_wire(s) matches Ok(r) ==> r.wire() == seq![s[0] & 0x07],
{
}

/// Selection mode codes: 0 for MS or network provided, subscription
/// verified; 1 for MS provided, not verified; 2 for network provided, not
/// verified; written as one byte; a value is read from the two low bits of
/// its first byte.
pub proof fn lemma_selection_mode_layout(m: SelectionMode, s: Seq<u8>)
    ensures
        m.wire() == seq![
            match m {
                SelectionMode::MsOrNetworkProvidedSubscriptionVerified => 0u8,
                SelectionMode::MsProvidedSubscriptionNotVerified => 1u8,
                SelectionMode::NetworkProvidedSubscriptionNotVerified => 2u8,
            },
        ],
        s.len() >= 1 ==> (SelectionMode::from_wire(s) is Ok <==> s[0] & 0x03 <= 2),
        SelectionMode::from_wire(s) matches Ok(r) ==> r.wire() == seq![s[0] & 0x03],
{
}

} // verus!
