//! A whole GTPv2 message: a header followed by information elements.
use vstd::prelude::*;
use tokio_util::bytes::{Bytes, BytesMut};
use crate::buf::{
    bytes_view, bytes_mut_view, bytes_remaining, bytes_mut_new, bytes_mut_as_slice,
    bytes_mut_extend_from_slice,
};
use crate::error::GtpError;
use crate::header::{Header, header_size, header_size_of, message_length, lemma_header_roundtrip, lemma_header_wire_len};
use crate::ie::{InformationElement, IeModel, ie_from_wire, ie_consumed, ie_complete, result_view, lemma_ie_roundtrip, lemma_ie_wire_len};

verus! {

#[derive(Debug, Clone)]
pub struct GtpMessage {
    pub header: Header,
    pub information_elements: Vec<InformationElement>,
}

/// A message as plain values: its header and its elements in order.
#[verifier::ext_equal]
pub struct MessageModel {
    pub header: Header,
    pub ies: Seq<IeModel>,
}

impl View for GtpMessage {
    type V = MessageModel;

    open spec fn view(&self) -> MessageModel {
        MessageModel {
            header: self.header,
            ies: self.information_elements@.map_values(|ie: InformationElement| ie@),
        }
    }
}

/// The elements encoded one after the other.
pub open spec fn ies_wire(ies: Seq<IeModel>) -> Seq<u8>
    decreases ies.len(),
{
    if ies.len() == 0 {
        Seq::empty()
    } else {
        ies[0].wire() + ies_wire(ies.drop_first())
    }
}

/// The elements that `parse` reads from a message body, or the first error.
pub open spec fn ies_from_wire(s: Seq<u8>) -> Result<Seq<IeModel>, GtpError>
    decreases s.len(),
{
    if s.len() == 0 {
        Ok(Seq::empty())
    } else {
        match ie_from_wire(s) {
            Err(e) => Err(e),
            Ok(first) => match ies_from_wire(s.skip(ie_consumed(s) as int)) {
                Ok(rest) => Ok(seq![first] + rest),
                Err(e) => Err(e),
            },
        }
    }
}

impl MessageModel {
    /// The encoded elements.
    pub open spec fn body(self) -> Seq<u8> {
        ies_wire(self.ies)
    }

    /// The bytes `write` appends: the header, whose length field counts the
    /// body truncated to sixteen bits as the encoder does, then the body.
    pub open spec fn wire(self) -> Seq<u8> {
        self.header.wire(self.body().len() as u16) + self.body()
    }

    /// A message that `write` encodes without loss: an encodable header,
    /// encodable elements, and a length that fits the length field.
    pub open spec fn encodable(self) -> bool {
        &&& self.header.encodable()
        &&& forall|i: int| 0 <= i < self.ies.len() ==> #[trigger] self.ies[i].encodable()
        &&& message_length(self.header.teid_flag, 0) + self.body().len() <= 0xFFFF
    }
}

/// The message that `parse` reads from a frame that holds at least a header.
pub open spec fn message_from_wire(s: Seq<u8>) -> Result<MessageModel, GtpError>
    recommends
        s.len() >= 1,
        s.len() >= header_size_of(s),
{
    match ies_from_wire(s.skip(header_size_of(s) as int)) {
        Ok(ies) => Ok(MessageModel { header: Header::from_wire(s), ies }),
        Err(e) => Err(e),
    }
}

/// Appending one element to a list appends its encoding.
pub proof fn lemma_ies_wire_push(ies: Seq<IeModel>, m: IeModel)
    ensures
        ies_wire(ies.push(m)) == ies_wire(ies) + m.wire(),
    decreases ies.len(),
{
    if ies.len() == 0 {
        assert(ies.push(m).drop_first() =~= Seq::<IeModel>::empty());
        assert(ies_wire(Seq::<IeModel>::empty()) == Seq::<u8>::empty());
        assert(ies_wire(ies.push(m)) == m.wire() + ies_wire(Seq::<IeModel>::empty()));
        assert(ies_wire(ies.push(m)) =~= ies_wire(ies) + m.wire());
    } else {
        lemma_ies_wire_push(ies.drop_first(), m);
        assert(ies.push(m).drop_first() =~= ies.drop_first().push(m));
        assert(ies_wire(ies.push(m)) =~= ies_wire(ies) + m.wire());
    }
}

/// A prefix of the list encodes to no more bytes than the whole list.
pub proof fn lemma_ies_wire_prefix_len(ies: Seq<IeModel>, i: int)
    requires
        0 <= i <= ies.len(),
    ensures
        ies_wire(ies.take(i)).len() <= ies_wire(ies).len(),
    decreases ies.len() - i,
{
    if i < ies.len() {
        lemma_ies_wire_prefix_len(ies, i + 1);
        assert(ies.take(i + 1) =~= ies.take(i).push(ies[i]));
        lemma_ies_wire_push(ies.take(i), ies[i]);
    } else {
        assert(ies.take(i) =~= ies);
    }
}

/// Body round trip: encodable elements, encoded one after the other, read back
/// as the same elements.
pub proof fn lemma_ies_roundtrip(ies: Seq<IeModel>)
    requires
        forall|i: int| 0 <= i < ies.len() ==> #[trigger] ies[i].encodable(),
    ensures
        ies_from_wire(ies_wire(ies)) == Ok::<Seq<IeModel>, GtpError>(ies),
    decreases ies.len(),
{
    if ies.len() == 0 {
        assert(ies =~= Seq::<IeModel>::empty());
    } else {
        let rest = ies.drop_first();
        assert forall|i: int| 0 <= i < rest.len() implies #[trigger] rest[i].encodable() by {
            assert(rest[i] == ies[i + 1]);
        }
        lemma_ies_roundtrip(rest);
        assert(ies[0].encodable());
        lemma_ie_roundtrip(ies[0], ies_wire(rest));
        let w = ies_wire(ies);
        assert(w.skip(ie_consumed(w) as int) =~= ies_wire(rest));
        assert(seq![ies[0]] + rest =~= ies);
    }
}

/// Message round trip: an encodable message reads back as itself.
pub proof fn lemma_message_roundtrip(m: MessageModel)
    requires
        m.encodable(),
    ensures
        m.wire().len() >= 1,
        m.wire().len() >= header_size_of(m.wire()),
        message_from_wire(m.wire()) == Ok::<MessageModel, GtpError>(m),
{
    let body = m.body();
    let blen = body.len() as u16;
    assert(blen as nat == body.len());
    lemma_header_roundtrip(m.header, blen, body);
    lemma_ies_roundtrip(m.ies);
    let w = m.wire();
    assert(w.skip(header_size_of(w) as int) =~= body);
    assert(message_from_wire(w) == Ok::<MessageModel, GtpError>(m));
}

/// Reads elements from `buf` until it is used up, or up to the first element
/// that does not decode.
fn parse_ies(buf: &mut Bytes) -> (r: Result<Vec<InformationElement>, GtpError>)
    ensures
        match r {
            Ok(v) => ies_from_wire(bytes_view(*old(buf))) == Ok::<Seq<IeModel>, GtpError>(
                v@.map_values(|ie: InformationElement| ie@),
            ),
            Err(e) => ies_from_wire(bytes_view(*old(buf))) == Err::<Seq<IeModel>, GtpError>(e),
        },
{
    let ghost body = bytes_view(*buf);
    let mut ies: Vec<InformationElement> = Vec::new();
    while bytes_remaining(buf) > 0
        invariant
            body == bytes_view(*old(buf)),
            ies_from_wire(body) == (match ies_from_wire(bytes_view(*buf)) {
                Ok(rest) => Ok(ies@.map_values(|ie: InformationElement| ie@) + rest),
                Err(e) => Err::<Seq<IeModel>, GtpError>(e),
            }),
        decreases bytes_view(*buf).len(),
    {
        let ghost cur = bytes_view(*buf);
        let ghost before = ies@.map_values(|ie: InformationElement| ie@);
        let ie = match InformationElement::parse(buf) {
            Ok(ie) => ie,
            Err(e) => {
                assert(ies_from_wire(cur) == Err::<Seq<IeModel>, GtpError>(e));
                return Err(e);
            },
        };
        ies.push(ie);
        assert(ies@.map_values(|ie: InformationElement| ie@) =~= before.push(ie@));
        proof {
            match ies_from_wire(bytes_view(*buf)) {
                Ok(rest) => {
                    assert(before + (seq![ie@] + rest) =~= before.push(ie@) + rest);
                },
                Err(e) => {},
            }
        }
    }
    assert(ies@.map_values(|ie: InformationElement| ie@) + Seq::<IeModel>::empty()
        =~= ies@.map_values(|ie: InformationElement| ie@));
    Ok(ies)
}

impl GtpMessage {
    /// Reads a message from a frame: the header, then elements until the frame
    /// is used up. The first element that does not decode ends it with its error.
    pub fn parse(frame: Bytes) -> (r: Result<Self, GtpError>)
        requires
            bytes_view(frame).len() >= 1,
            bytes_view(frame).len() >= header_size_of(bytes_view(frame)),
        ensures
            result_view(r) == message_from_wire(bytes_view(frame)),
    {
        let mut frame = frame;
        let header = Header::parse(&mut frame)?;
        let ies = parse_ies(&mut frame)?;
        Ok(GtpMessage { header, information_elements: ies })
    }

    /// The number of bytes the encoded elements take; none where that number
    /// does not fit a `usize`.
    pub fn body_len(&self) -> (r: Option<usize>)
        ensures
            match r {
                Some(n) => n == self@.body().len(),
                None => self@.body().len() > usize::MAX,
            },
    {
        let ghost all = self@.ies;
        let n = self.information_elements.len();
        let mut total: usize = 0;
        let mut i: usize = 0;
        while i < n
            invariant
                n == self.information_elements.len(),
                all == self@.ies,
                0 <= i <= n,
                total == ies_wire(all.take(i as int)).len(),
            decreases n - i,
        {
            let len = bytes_remaining(&self.information_elements[i].value);
            proof {
                lemma_ies_wire_push(all.take(i as int), all[i as int]);
                assert(all.take(i as int + 1) =~= all.take(i as int).push(all[i as int]));
                lemma_ie_wire_len(all[i as int]);
                lemma_ies_wire_prefix_len(all, i as int + 1);
            }
            if total > usize::MAX - 4 || total + 4 > usize::MAX - len {
                return None;
            }
            total = total + 4 + len;
            i = i + 1;
        }
        assert(all.take(n as int) =~= all);
        Some(total)
    }

    /// Appends the whole message to `destination`: the header, whose length
    /// field counts the encoded elements, then the elements.
    pub fn write(&self, destination: &mut BytesMut)
        requires
            message_length(self.header.teid_flag, (self@.body().len() as u16)) <= 0xFFFF,
            bytes_mut_view(*old(destination)).len() + 12 + self@.body().len() <= isize::MAX,
        ensures
            bytes_mut_view(*final(destination)) == bytes_mut_view(*old(destination)) + self@.wire(),
    {
        let ghost all = self@.ies;
        let mut body = bytes_mut_new();
        let n = self.information_elements.len();
        let mut i: usize = 0;
        while i < n
            invariant
                n == self.information_elements.len(),
                all == self@.ies,
                0 <= i <= n,
                bytes_mut_view(body) == ies_wire(all.take(i as int)),
                12 + ies_wire(all).len() <= isize::MAX,
            decreases n - i,
        {
            let ie = &self.information_elements[i];
            proof {
                lemma_ies_wire_push(all.take(i as int), all[i as int]);
                assert(all.take(i as int + 1) =~= all.take(i as int).push(all[i as int]));
                lemma_ies_wire_prefix_len(all, i as int + 1);
            }
            ie.write(&mut body);
            i = i + 1;
        }
        assert(all.take(n as int) =~= all);
        let b = bytes_mut_as_slice(&body);
        proof {
            lemma_header_wire_len(self.header, b@.len() as u16);
        }
        self.header.write(destination, b.len() as u16);
        bytes_mut_extend_from_slice(destination, b);
    }
}

/// Whether the length field of a header with or without TEID can count a
/// body of `body_len` bytes, as writing a message requires.
pub fn length_field_fits(teid_flag: bool, body_len: usize) -> (r: bool)
    ensures
        r == (message_length(teid_flag, (body_len as u16)) <= 0xFFFF),
{
    let fixed: u16 = if teid_flag { 8 } else { 4 };
    (body_len as u16) <= 0xFFFF - fixed
}

} // verus!
