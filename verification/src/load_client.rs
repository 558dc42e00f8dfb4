//! The decisions of a load-test client that opens sessions at a peer and,
//! optionally, closes them again: the subscriber identities it makes up, the
//! requests it sends, the sequence numbers it uses and what it makes of each
//! response. Timers, sockets and the bookkeeping of pending requests stay with
//! the caller.
use vstd::prelude::*;
use vstd::utf8::*;
use vstd::string::{StringExecFns, StringSliceAdditionalSpecFns};
use crate::buf::string_push;
use crate::error::GtpError;
use crate::ie::ambr::Ambr;
use crate::ie::apn::Apn;
use crate::ie::bearer_context::{BearerContext, BearerContextModel};
use crate::ie::bearer_qos::BearerQos;
use crate::ie::cause::REQUEST_ACCEPTED;
use crate::ie::fteid::{Fteid, FteidModel, InterfaceType, interface_code};
use crate::ie::imsi::{Imsi, imsi_writable, all_decimal_digits};
use crate::ie::apn::{labels_fit, split_dot, label_len, lemma_label_len_bound};
use crate::ie::paa::{Paa, PaaModel};
use crate::ie::pdn_type::PdnType;
use crate::ie::rat_type::RatType;
use crate::ie::selection_mode::SelectionMode;
use crate::message::{GtpMessage, MessageModel};
use crate::messages::create_session_request::{
    CreateSessionRequestModel, create_session_request_message, create_session_request_writable,
    create_session_request_from_message, create_session_request_encodable,
    lemma_create_session_request_roundtrip,
};
use crate::messages::create_session_response::create_session_response_from_message;
use crate::messages::delete_session_response::delete_session_response_from_message;
use crate::messages::{CreateSessionRequest, CreateSessionResponse, DeleteSessionResponse};
use crate::metrics::{Counts, MetricCounts, Tally};

verus! {

/// The number of trailing IMSI digits that a session number replaces.
pub const IMSI_SUFFIX_WIDTH: usize = 9;

/// The bits of a request counter that make up a sequence number.
pub const SEQUENCE_NUMBER_MASK: u32 = 0x00FF_FFFF;

/// The bearer a delete session request names where the create session
/// response named none.
pub const DEFAULT_LINKED_EBI: u8 = 5;

/// The bearer identity every create session request asks for.
pub const REQUESTED_EBI: u8 = 5;

/// The aggregate maximum uplink rate every request asks for, in kbit/s.
pub const REQUESTED_UPLINK_KBPS: u32 = 50_000;

/// The aggregate maximum downlink rate every request asks for, in kbit/s.
pub const REQUESTED_DOWNLINK_KBPS: u32 = 100_000;

/// The decimal digits of `n`, most significant first, as ASCII bytes.
pub open spec fn decimal_digits(n: nat) -> Seq<u8>
    decreases n,
{
    if n < 10 {
        seq![(48 + n) as u8]
    } else {
        decimal_digits(n / 10).push((48 + n % 10) as u8)
    }
}

/// `n` in decimal with leading `'0'`s up to `width` digits, as ASCII bytes:
/// what `format!("{n:0width$}")` writes.
pub open spec fn zero_padded_decimal(n: nat, width: nat) -> Seq<u8> {
    let d = decimal_digits(n);
    if d.len() < width {
        Seq::new((width - d.len()) as nat, |i: int| 48u8) + d
    } else {
        d
    }
}

/// The digits that session number `n` puts at the end of an IMSI.
pub open spec fn imsi_suffix(n: u64) -> Seq<u8> {
    zero_padded_decimal(n as nat, IMSI_SUFFIX_WIDTH as nat)
}

/// Whether session number `n` can be put at the end of the IMSI whose UTF-8
/// bytes are `base`: the base is at least as long as the digits, and the
/// digits start on a character boundary.
pub open spec fn imsi_derivable(base: Seq<u8>, n: u64) -> bool {
    &&& imsi_suffix(n).len() <= base.len()
    &&& is_char_boundary(base, base.len() - imsi_suffix(n).len())
}

/// The UTF-8 bytes of the IMSI for session number `n`: the base with its last
/// bytes replaced by the digits of `n`.
pub open spec fn derived_imsi(base: Seq<u8>, n: u64) -> Seq<u8> {
    base.subrange(0, base.len() - imsi_suffix(n).len()) + imsi_suffix(n)
}

/// Every decimal digit is an ASCII digit, and there is at least one.
proof fn lemma_decimal_digits(n: nat)
    ensures
        1 <= decimal_digits(n).len(),
        forall|i: int| 0 <= i < decimal_digits(n).len() ==> 48 <= #[trigger] decimal_digits(n)[i] <= 57,
    decreases n,
{
    if n >= 10 {
        lemma_decimal_digits(n / 10);
    }
}

/// Appends the decimal digits of `n`.
fn push_decimal(n: u64, out: &mut Vec<u8>)
    ensures
        final(out)@ == old(out)@ + decimal_digits(n as nat),
    decreases n,
{
    if n >= 10 {
        push_decimal(n / 10, out);
    }
    out.push((48 + n % 10) as u8);
    proof {
        if n >= 10 {
            assert(decimal_digits(n as nat) == decimal_digits((n / 10) as nat).push((48 + n % 10) as u8));
        }
    }
}

/// `n` in decimal with leading `'0'`s up to `width` digits, as ASCII bytes.
pub fn zero_padded_digits(n: u64, width: usize) -> (r: Vec<u8>)
    ensures
        r@ == zero_padded_decimal(n as nat, width as nat),
{
    let mut digits: Vec<u8> = Vec::new();
    push_decimal(n, &mut digits);
    assert(digits@ =~= decimal_digits(n as nat));
    proof {
        lemma_decimal_digits(n as nat);
    }
    let mut r: Vec<u8> = Vec::new();
    let pad: usize = if digits.len() < width { width - digits.len() } else { 0 };
    let mut i: usize = 0;
    while i < pad
        invariant
            i <= pad,
            r@ =~= Seq::new(i as nat, |k: int| 48u8),
        decreases pad - i,
    {
        r.push(48u8);
        i = i + 1;
    }
    let mut j: usize = 0;
    while j < digits.len()
        invariant
            j <= digits.len(),
            r@ =~= Seq::new(pad as nat, |k: int| 48u8) + digits@.subrange(0, j as int),
        decreases digits.len() - j,
    {
        r.push(digits[j]);
        j = j + 1;
        assert(digits@.subrange(0, j as int) =~= digits@.subrange(0, (j - 1) as int).push(digits@[j - 1]));
    }
    assert(digits@.subrange(0, digits.len() as int) =~= digits@);
    proof {
        if digits.len() >= width {
            assert(Seq::new(0nat, |k: int| 48u8) + digits@ =~= digits@);
        }
    }
    r
}

/// An ASCII byte is its own UTF-8 encoding.
proof fn lemma_encode_ascii(b: u8)
    requires
        b < 128,
    ensures
        encode_scalar((b as char) as u32) == seq![b],
{
    let s = (b as char) as u32;
    assert(s == b as u32);
    assert((s & 0x7F) as u8 == b) by (bit_vector)
        requires
            s == b as u32,
            b < 128,
    ;
}

/// Appending an ASCII character appends its byte to the encoding.
proof fn lemma_encode_utf8_push_ascii(s: Seq<char>, b: u8)
    requires
        b < 128,
    ensures
        encode_utf8(s.push(b as char)) == encode_utf8(s).push(b),
    decreases s.len(),
{
    let c = b as char;
    if s.len() == 0 {
        lemma_encode_ascii(b);
        assert(s.push(c).drop_first() =~= Seq::<char>::empty());
        assert(encode_utf8(Seq::<char>::empty()) == Seq::<u8>::empty());
        assert(encode_utf8(s.push(c)) =~= seq![b]);
        assert(encode_utf8(s).push(b) =~= seq![b]);
    } else {
        lemma_encode_utf8_push_ascii(s.drop_first(), b);
        assert(s.push(c).drop_first() =~= s.drop_first().push(c));
        assert(s.push(c)[0] == s[0]);
        let head = encode_scalar(s[0] as u32);
        assert(encode_utf8(s.push(c)) == head + encode_utf8(s.drop_first().push(c)));
        assert(head + encode_utf8(s.drop_first()).push(b) =~= (head + encode_utf8(s.drop_first())).push(b));
    }
}

/// An encoding is at most four bytes per character.
proof fn lemma_encode_utf8_len(s: Seq<char>)
    ensures
        encode_utf8(s).len() <= 4 * s.len(),
    decreases s.len(),
{
    if s.len() > 0 {
        lemma_encode_utf8_len(s.drop_first());
    }
}

/// The IMSI for session number `n`: `base` with its last digits replaced by
/// `n`, zero-padded to nine digits (or more where `n` has more).
pub fn derive_imsi(base: &str, n: u64) -> (r: String)
    requires
        imsi_derivable(base.spec_bytes(), n),
    ensures
        encode_utf8(r@) == derived_imsi(base.spec_bytes(), n),
        r@ == decode_utf8(derived_imsi(base.spec_bytes(), n)),
{
    let suffix = zero_padded_digits(n, IMSI_SUFFIX_WIDTH);
    proof {
        lemma_decimal_digits(n as nat);
    }
    let start = base.as_bytes().len() - suffix.len();
    let (head, _tail) = base.split_at(start);
    let mut imsi = head.to_owned();
    let ghost prefix = base.spec_bytes().subrange(0, start as int);
    assert(suffix@.subrange(0, 0) =~= Seq::<u8>::empty());
    assert(prefix + suffix@.subrange(0, 0) =~= prefix);
    let mut i: usize = 0;
    while i < suffix.len()
        invariant
            i <= suffix.len(),
            suffix@ == imsi_suffix(n),
            forall|k: int| 0 <= k < suffix.len() ==> 48 <= #[trigger] suffix@[k] <= 57,
            encode_utf8(imsi@) == prefix + suffix@.subrange(0, i as int),
        decreases suffix.len() - i,
    {
        let d = suffix[i];
        let ghost before = imsi@;
        string_push(&mut imsi, d as char);
        proof {
            lemma_encode_utf8_push_ascii(before, d);
            assert(suffix@.subrange(0, i + 1) =~= suffix@.subrange(0, i as int).push(d));
            assert(prefix + suffix@.subrange(0, i + 1) =~= (prefix + suffix@.subrange(0, i as int)).push(d));
        }
        i = i + 1;
    }
    assert(suffix@.subrange(0, suffix.len() as int) =~= suffix@);
    proof {
        encode_utf8_decode_utf8(imsi@);
    }
    imsi
}

/// The number that the ASCII decimal digits `s` spell.
pub open spec fn decimal_value(s: Seq<u8>) -> nat
    decreases s.len(),
{
    if s.len() == 0 {
        0
    } else {
        decimal_value(s.drop_last()) * 10 + (s.last() - 48) as nat
    }
}

/// Ten to the power `k`.
pub open spec fn pow10(k: nat) -> nat
    decreases k,
{
    if k == 0 {
        1
    } else {
        10 * pow10((k - 1) as nat)
    }
}

/// The decimal digits of `n` spell `n`.
proof fn lemma_decimal_digits_value(n: nat)
    ensures
        decimal_value(decimal_digits(n)) == n,
    decreases n,
{
    let d = decimal_digits(n);
    if n < 10 {
        assert(d.drop_last() =~= Seq::<u8>::empty());
        assert(d.last() == 48 + n);
        assert(decimal_value(d.drop_last()) == 0);
        assert(decimal_value(d) == decimal_value(d.drop_last()) * 10 + (d.last() - 48) as nat);
    } else {
        lemma_decimal_digits_value(n / 10);
        assert(d.drop_last() =~= decimal_digits(n / 10));
        assert(d.last() == 48 + n % 10);
        assert((n / 10) * 10 + n % 10 == n) by (nonlinear_arith);
        assert(decimal_value(d) == decimal_value(d.drop_last()) * 10 + (d.last() - 48) as nat);
    }
}

/// Leading `'0'`s do not change the number that digits spell.
proof fn lemma_leading_zeros_value(k: nat, d: Seq<u8>)
    ensures
        decimal_value(Seq::new(k, |i: int| 48u8) + d) == decimal_value(d),
    decreases d.len() + k,
{
    let z = Seq::new(k, |i: int| 48u8);
    if d.len() == 0 {
        assert(z + d =~= z);
        if k > 0 {
            let z1 = Seq::new((k - 1) as nat, |i: int| 48u8);
            assert(z.drop_last() =~= z1 + d);
            lemma_leading_zeros_value((k - 1) as nat, d);
        }
    } else {
        assert((z + d).drop_last() =~= z + d.drop_last());
        lemma_leading_zeros_value(k, d.drop_last());
    }
}

/// A number below `10^k` has at most `k` decimal digits.
proof fn lemma_decimal_digits_len(n: nat, k: nat)
    requires
        1 <= k,
        n < pow10(k),
    ensures
        decimal_digits(n).len() <= k,
    decreases n,
{
    if n >= 10 {
        if k == 1 {
            assert(pow10(1) == 10) by {
                reveal_with_fuel(pow10, 2);
            }
        } else {
            lemma_decimal_digits_len(n / 10, (k - 1) as nat);
        }
    }
}

/// The IMSI of session number `n` is as long as its base, and its trailing
/// digits spell `n`; below `10^9` they are exactly nine.
pub proof fn lemma_derived_imsi_spells_number(base: Seq<u8>, n: u64)
    requires
        imsi_derivable(base, n),
    ensures
        derived_imsi(base, n).len() == base.len(),
        decimal_value(derived_imsi(base, n).subrange(base.len() - imsi_suffix(n).len(), base.len() as int))
            == n,
        n < 1_000_000_000 ==> imsi_suffix(n).len() == 9,
{
    assert(pow10(9) == 1_000_000_000) by {
        reveal_with_fuel(pow10, 10);
    }
    if n < 1_000_000_000 {
        lemma_decimal_digits_len(n as nat, 9);
    }
    let d = decimal_digits(n as nat);
    let imsi = derived_imsi(base, n);
    let start = base.len() - imsi_suffix(n).len();
    assert(imsi.subrange(start, base.len() as int) =~= imsi_suffix(n));
    lemma_decimal_digits_value(n as nat);
    if d.len() < 9 {
        lemma_leading_zeros_value((9 - d.len()) as nat, d);
    }
}

/// From one base, distinct session numbers below `10^9` give distinct IMSIs.
pub proof fn lemma_derived_imsi_distinct(base: Seq<u8>, n1: u64, n2: u64)
    requires
        imsi_derivable(base, n1),
        imsi_derivable(base, n2),
        n1 < 1_000_000_000,
        n2 < 1_000_000_000,
        n1 != n2,
    ensures
        derived_imsi(base, n1) != derived_imsi(base, n2),
{
    assert(pow10(9) == 1_000_000_000) by {
        reveal_with_fuel(pow10, 10);
    }
    lemma_decimal_digits_len(n1 as nat, 9);
    lemma_decimal_digits_len(n2 as nat, 9);
    lemma_derived_imsi_spells_number(base, n1);
    lemma_derived_imsi_spells_number(base, n2);
    assert(imsi_suffix(n1).len() == 9);
    assert(imsi_suffix(n2).len() == 9);
}

/// Whether a round can open a session for subscriber number `n` with the
/// IMSI base whose UTF-8 bytes are `base`: the number fits the base, and the
/// IMSI it gives is made of bytes no lower than `'0'`, within the size a
/// buffer can hold.
pub open spec fn round_startable(base: Seq<u8>, n: u64) -> bool {
    &&& imsi_derivable(base, n)
    &&& base.len() <= isize::MAX
    &&& forall|i: int| 0 <= i < derived_imsi(base, n).len() ==> #[trigger] derived_imsi(base, n)[i] >= 48
}

/// Whether a round can open a session for subscriber number `n` with the
/// IMSI base `base`.
pub fn round_can_start(base: &str, n: u64) -> (r: bool)
    ensures
        r == round_startable(base.spec_bytes(), n),
{
    let bytes = base.as_bytes();
    let suffix = zero_padded_digits(n, IMSI_SUFFIX_WIDTH);
    proof {
        lemma_decimal_digits(n as nat);
    }
    if suffix.len() > bytes.len() {
        return false;
    }
    let start = bytes.len() - suffix.len();
    if !base.is_char_boundary(start) {
        return false;
    }
    if bytes.len() > isize::MAX as usize {
        return false;
    }
    let ghost imsi = derived_imsi(base.spec_bytes(), n);
    assert(imsi.len() == bytes.len());
    assert forall|k: int| start <= k < imsi.len() implies #[trigger] imsi[k] >= 48 by {
        assert(imsi[k] == suffix@[k - start]);
    }
    let mut i: usize = 0;
    while i < start
        invariant
            i <= start,
            start <= bytes@.len(),
            imsi == derived_imsi(base.spec_bytes(), n),
            imsi.len() == bytes@.len(),
            forall|k: int| 0 <= k < start ==> #[trigger] imsi[k] == bytes@[k],
            forall|k: int| 0 <= k < i ==> #[trigger] imsi[k] >= 48,
        decreases start - i,
    {
        if bytes[i] < 48 {
            assert(imsi[i as int] < 48);
            return false;
        }
        i = i + 1;
    }
    true
}

/// The sequence number a request counter gives: its low 24 bits.
pub fn sequence_number_from_counter(counter: u32) -> (r: u32)
    ensures
        r == counter % 0x100_0000,
        r < 0x100_0000,
{
    let r = counter & SEQUENCE_NUMBER_MASK;
    assert(counter & 0x00FF_FFFF == counter % 0x100_0000) by (bit_vector);
    r
}

/// The endpoint the client advertises on `interface_type`: TEID `teid` at the
/// IPv4 address `ip`.
pub open spec fn client_endpoint(interface_type: InterfaceType, teid: u32, ip: Seq<u8>) -> FteidModel {
    FteidModel {
        interface_type: interface_code(interface_type),
        teid_or_gre_key: teid,
        ipv4: Some(ip),
        ipv6: None,
    }
}

/// The QoS every request asks for: best effort with the requested maximum
/// rates.
pub open spec fn requested_bearer_qos() -> BearerQos {
    BearerQos {
        pci: false,
        priority_level: 8,
        pvi: false,
        qci: 9,
        max_bitrate_uplink_kbps: REQUESTED_UPLINK_KBPS as u64,
        max_bitrate_downlink_kbps: REQUESTED_DOWNLINK_KBPS as u64,
        guaranteed_bitrate_uplink_kbps: 0,
        guaranteed_bitrate_downlink_kbps: 0,
    }
}

/// The create session request the client sends for subscriber `imsi` with
/// sequence number `seq`: `seq` doubles as the TEID of its control- and
/// user-plane endpoints at `local_ip`; APN `internet`, E-UTRAN, IPv4 with the
/// address left to the peer, bearer 5.
pub open spec fn create_session_request_for(imsi: Seq<char>, seq: u32, local_ip: Seq<u8>) -> CreateSessionRequestModel {
    CreateSessionRequestModel {
        imsi,
        sender_fteid: client_endpoint(InterfaceType::S5S8SgwGtpC, seq, local_ip),
        apn: "internet"@,
        ambr: Ambr { uplink_kbps: REQUESTED_UPLINK_KBPS, downlink_kbps: REQUESTED_DOWNLINK_KBPS },
        rat_type: RatType::Eutran,
        pdn_type: PdnType::Ipv4,
        paa: PaaModel::V4 { address: seq![0u8, 0u8, 0u8, 0u8] },
        selection_mode: SelectionMode::MsOrNetworkProvidedSubscriptionVerified,
        bearer_context: BearerContextModel {
            ebi: Some(REQUESTED_EBI),
            cause: None,
            fteid: Some(client_endpoint(InterfaceType::S5S8SgwGtpU, seq, local_ip)),
            bearer_qos: Some(requested_bearer_qos()),
        },
        sequence_number: seq,
    }
}

/// The create session request message for subscriber `imsi`, sequence number
/// `seq` and local address `local_ip`.
pub fn build_create_session_request(imsi: String, seq: u32, local_ip: [u8; 4]) -> (r: GtpMessage)
    requires
        imsi_writable(imsi@),
        encode_utf8(imsi@).len() <= isize::MAX,
    ensures
        r@ == create_session_request_message(create_session_request_for(imsi@, seq, local_ip@)),
{
    let apn = String::from_str("internet");
    proof {
        lemma_encode_utf8_len(apn@);
        reveal_strlit("internet");
    }
    let bearer_qos = BearerQos {
        max_bitrate_uplink_kbps: REQUESTED_UPLINK_KBPS as u64,
        max_bitrate_downlink_kbps: REQUESTED_DOWNLINK_KBPS as u64,
        ..BearerQos::default()
    };
    let request = CreateSessionRequest {
        imsi: Imsi(imsi),
        sender_fteid: Fteid {
            interface_type: u8::from(InterfaceType::S5S8SgwGtpC),
            teid_or_gre_key: seq,
            ipv4: Some(local_ip),
            ipv6: None,
        },
        apn: Apn(apn),
        ambr: Ambr { uplink_kbps: REQUESTED_UPLINK_KBPS, downlink_kbps: REQUESTED_DOWNLINK_KBPS },
        rat_type: RatType::Eutran,
        pdn_type: PdnType::Ipv4,
        paa: Paa::request_v4(),
        selection_mode: SelectionMode::MsOrNetworkProvidedSubscriptionVerified,
        bearer_context: BearerContext {
            ebi: Some(REQUESTED_EBI),
            cause: None,
            fteid: Some(
                Fteid {
                    interface_type: u8::from(InterfaceType::S5S8SgwGtpU),
                    teid_or_gre_key: seq,
                    ipv4: Some(local_ip),
                    ipv6: None,
                },
            ),
            bearer_qos: Some(bearer_qos),
        },
        sequence_number: seq,
    };
    assert(request@ == create_session_request_for(request.imsi@, seq, local_ip@));
    assert(create_session_request_writable(request@));
    request.into_message()
}

/// Every label of a name is at most as long as the whole name.
proof fn lemma_split_dot_label_len(b: Seq<u8>)
    ensures
        forall|i: int| 0 <= i < split_dot(b).len() ==> #[trigger] split_dot(b)[i].len() <= b.len(),
    decreases b.len(),
{
    lemma_label_len_bound(b);
    let k = label_len(b);
    if k < b.len() {
        let rest = b.skip(k + 1int);
        lemma_split_dot_label_len(rest);
        assert forall|i: int| 0 <= i < split_dot(b).len() implies #[trigger] split_dot(b)[i].len() <= b.len() by {
            if i > 0 {
                assert(split_dot(b)[i] == split_dot(rest)[i - 1]);
            }
        }
    }
}

/// A create session request the client builds for an IMSI of decimal digits
/// reads back from its message as the same request.
pub proof fn lemma_built_request_reads_back(imsi: Seq<char>, seq: u32, local_ip: Seq<u8>)
    requires
        all_decimal_digits(imsi),
        local_ip.len() == 4,
    ensures
        create_session_request_from_message(
            create_session_request_message(create_session_request_for(imsi, seq, local_ip)),
        ) == Ok::<CreateSessionRequestModel, GtpError>(create_session_request_for(imsi, seq, local_ip)),
{
    let c = create_session_request_for(imsi, seq, local_ip);
    reveal_strlit("internet");
    lemma_encode_utf8_len("internet"@);
    lemma_split_dot_label_len(encode_utf8("internet"@));
    assert(labels_fit(c.apn));
    assert(create_session_request_encodable(c));
    lemma_create_session_request_roundtrip(c);
}

/// What the client makes of the reply to its create session request.
#[derive(Debug)]
pub enum CreateSessionOutcome {
    /// The reply is no create session response.
    Malformed(GtpError),
    /// The peer refused the session, with this cause.
    Rejected(u8),
    /// The session is up, and the client is not to close it.
    Established,
    /// The session is up, and the client is to close it with a delete session
    /// request naming this bearer and TEID.
    DeleteSession { linked_ebi: u8, teid: u32 },
}

/// The outcome of the reply message `m`, where `with_delete` says whether the
/// client closes the sessions it opens. A delete names the response's bearer,
/// or bearer 5 where it names none, and the response's TEID.
pub open spec fn create_session_outcome_of(m: MessageModel, with_delete: bool) -> CreateSessionOutcome {
    match create_session_response_from_message(m) {
        Err(e) => CreateSessionOutcome::Malformed(e),
        Ok(c) => if c.cause.value != REQUEST_ACCEPTED {
            CreateSessionOutcome::Rejected(c.cause.value)
        } else if !with_delete {
            CreateSessionOutcome::Established
        } else {
            CreateSessionOutcome::DeleteSession {
                linked_ebi: match c.bearer_context.ebi {
                    Some(ebi) => ebi,
                    None => DEFAULT_LINKED_EBI,
                },
                teid: c.teid,
            }
        },
    }
}

/// What the client makes of the reply to its create session request.
pub fn create_session_outcome(message: &GtpMessage, with_delete: bool) -> (r: CreateSessionOutcome)
    ensures
        r == create_session_outcome_of(message@, with_delete),
{
    let response = match CreateSessionResponse::try_from(message) {
        Ok(response) => response,
        Err(error) => return CreateSessionOutcome::Malformed(error),
    };
    if !response.cause.is_accepted() {
        CreateSessionOutcome::Rejected(response.cause.value)
    } else if !with_delete {
        CreateSessionOutcome::Established
    } else {
        let linked_ebi = match response.bearer_context.ebi {
            Some(ebi) => ebi,
            None => DEFAULT_LINKED_EBI,
        };
        CreateSessionOutcome::DeleteSession { linked_ebi, teid: response.teid }
    }
}

/// The cause of the create session response `m` where it refuses the
/// session; none for an accepting response and for a message that is no
/// create session response.
pub open spec fn create_session_rejection_of(m: MessageModel) -> Option<u8> {
    match create_session_response_from_message(m) {
        Ok(c) => if c.cause.value != REQUEST_ACCEPTED {
            Some(c.cause.value)
        } else {
            None
        },
        Err(_) => None,
    }
}

/// The cause of the delete session response `m` where it refuses the
/// deletion; none for an accepting response and for a message that is no
/// delete session response.
pub open spec fn delete_session_rejection_of(m: MessageModel) -> Option<u8> {
    match delete_session_response_from_message(m) {
        Ok(d) => if d.cause.value != REQUEST_ACCEPTED {
            Some(d.cause.value)
        } else {
            None
        },
        Err(_) => None,
    }
}

/// The cause of a create session response that refuses the session.
pub fn create_session_rejection(message: &GtpMessage) -> (r: Option<u8>)
    ensures
        r == create_session_rejection_of(message@),
{
    match CreateSessionResponse::try_from(message) {
        Ok(response) => if !response.cause.is_accepted() {
            Some(response.cause.value)
        } else {
            None
        },
        Err(_) => None,
    }
}

/// The cause of a delete session response that refuses the deletion.
pub fn delete_session_rejection(message: &GtpMessage) -> (r: Option<u8>)
    ensures
        r == delete_session_rejection_of(message@),
{
    match DeleteSessionResponse::try_from(message) {
        Ok(response) => if !response.cause.is_accepted() {
            Some(response.cause.value)
        } else {
            None
        },
        Err(_) => None,
    }
}

/// How the wait for the reply to a request ended.
#[derive(Debug)]
pub enum ReplyEvent {
    /// The reply came.
    Answered(GtpMessage),
    /// The reply can no longer come: the channel it was to come by closed.
    Dropped,
    /// No reply came in time.
    TimedOut,
}

/// The counts after the wait for a reply ended in `event`: a reply is
/// counted as received, and also as rejected where `refused`; a closed
/// channel is counted as an error, a wait that ran out as a timeout.
pub open spec fn settled_counts(c: Counts, event: ReplyEvent, refused: bool) -> Counts {
    match event {
        ReplyEvent::Answered(_) => if refused {
            c.plus(Tally::Received).plus(Tally::Rejected)
        } else {
            c.plus(Tally::Received)
        },
        ReplyEvent::Dropped => c.plus(Tally::Error),
        ReplyEvent::TimedOut => c.plus(Tally::Timeout),
    }
}

/// Counts how the wait for the reply to a create session request ended, for
/// a client that does not close its sessions; returns the cause of a reply
/// that refuses the session.
pub fn settle_create_session_reply(event: &ReplyEvent, counts: &mut MetricCounts) -> (r: Option<u8>)
    requires
        old(counts).wf(),
        old(counts).total.has_room(),
    ensures
        final(counts).wf(),
        r == (match event {
            ReplyEvent::Answered(m) => create_session_rejection_of(m@),
            _ => None,
        }),
        final(counts).total == settled_counts(old(counts).total, *event, r is Some),
        final(counts).interval == settled_counts(old(counts).interval, *event, r is Some),
{
    match event {
        ReplyEvent::Answered(message) => {
            counts.increment_received();
            let rejection = create_session_rejection(message);
            if rejection.is_some() {
                counts.increment_rejected();
            }
            rejection
        },
        ReplyEvent::Dropped => {
            counts.increment_error();
            None
        },
        ReplyEvent::TimedOut => {
            counts.increment_timeout();
            None
        },
    }
}

/// Counts how the wait for the reply to a create session request ended, for
/// a client that closes its sessions where `with_delete`; returns what the
/// reply asks the client to do next, if a reply came.
pub fn settle_create_session(event: &ReplyEvent, with_delete: bool, counts: &mut MetricCounts) -> (r: Option<CreateSessionOutcome>)
    requires
        old(counts).wf(),
        old(counts).total.has_room(),
    ensures
        final(counts).wf(),
        r == (match event {
            ReplyEvent::Answered(m) => Some(create_session_outcome_of(m@, with_delete)),
            _ => None,
        }),
        final(counts).total == settled_counts(
            old(counts).total,
            *event,
            r matches Some(CreateSessionOutcome::Rejected(_)),
        ),
        final(counts).interval == settled_counts(
            old(counts).interval,
            *event,
            r matches Some(CreateSessionOutcome::Rejected(_)),
        ),
{
    match event {
        ReplyEvent::Answered(message) => {
            counts.increment_received();
            let outcome = create_session_outcome(message, with_delete);
            match outcome {
                CreateSessionOutcome::Rejected(_) => counts.increment_rejected(),
                _ => {},
            }
            Some(outcome)
        },
        ReplyEvent::Dropped => {
            counts.increment_error();
            None
        },
        ReplyEvent::TimedOut => {
            counts.increment_timeout();
            None
        },
    }
}

/// Counts how the wait for the reply to a delete session request ended;
/// returns the cause of a reply that refuses the deletion.
pub fn settle_delete_session_reply(event: &ReplyEvent, counts: &mut MetricCounts) -> (r: Option<u8>)
    requires
        old(counts).wf(),
        old(counts).total.has_room(),
    ensures
        final(counts).wf(),
        r == (match event {
            ReplyEvent::Answered(m) => delete_session_rejection_of(m@),
            _ => None,
        }),
        final(counts).total == settled_counts(old(counts).total, *event, r is Some),
        final(counts).interval == settled_counts(old(counts).interval, *event, r is Some),
{
    match event {
        ReplyEvent::Answered(message) => {
            counts.increment_received();
            let rejection = delete_session_rejection(message);
            if rejection.is_some() {
                counts.increment_rejected();
            }
            rejection
        },
        ReplyEvent::Dropped => {
            counts.increment_error();
            None
        },
        ReplyEvent::TimedOut => {
            counts.increment_timeout();
            None
        },
    }
}

/// The header line of the metrics CSV file, with its line end.
pub open spec fn csv_header() -> Seq<char> {
    "unix_time,sent,received,timeouts,errors,rejected,throughput_per_sec,p50_ms,p90_ms,p99_ms,max_ms\n"@
}

/// Appends the header line of the metrics CSV file.
pub fn write_csv_header(out: &mut String)
    ensures
        final(out)@ == old(out)@ + csv_header(),
{
    out.append("unix_time,sent,received,timeouts,errors,rejected,throughput_per_sec,p50_ms,p90_ms,p99_ms,max_ms\n");
}

} // verus!
