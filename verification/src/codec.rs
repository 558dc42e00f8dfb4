//! Framing GTPv2 messages on a byte stream: a frame is the four bytes up to
//! the length field plus the number of bytes that field announces.
use vstd::prelude::*;
use tokio_util::bytes::BytesMut;
use crate::buf::{
    bytes_view, bytes_mut_view, bytes_mut_as_slice, bytes_mut_reserve, bytes_mut_split_to,
    bytes_mut_freeze, io_error_other,
};
use crate::error::GtpError;
use crate::header::{header_size_of, message_length, lemma_header_roundtrip, lemma_header_wire_len};
use crate::message::{GtpMessage, MessageModel, message_from_wire, lemma_message_roundtrip};
use crate::wire::{be_value, lemma_be_value_bound, lemma_pow256_values};

verus! {

/// The stream codec for GTPv2 messages.
pub struct GtpCodec;

/// The size of the frame at the front of `s`: four bytes and the value of the
/// big-endian length field in bytes 2 and 3.
pub open spec fn frame_size(s: Seq<u8>) -> nat
    recommends
        s.len() >= 4,
{
    4 + be_value(s.subrange(2, 4))
}

/// Whether `s` starts with a whole frame.
pub open spec fn frame_complete(s: Seq<u8>) -> bool {
    s.len() >= 4 && s.len() >= frame_size(s)
}

/// Whether a whole frame at the front of `s` is long enough for the header
/// its flags announce, as decoding it requires.
pub open spec fn frame_holds_header(s: Seq<u8>) -> bool {
    frame_complete(s) ==> frame_size(s) >= header_size_of(s)
}

/// Whether a whole frame at the front of `src` is long enough for the header
/// its flags announce, as decoding it requires.
pub fn frame_fits_header(src: &[u8]) -> (r: bool)
    ensures
        r == frame_holds_header(src@),
{
    let ghost s = src@;
    if src.len() < 4 {
        return true;
    }
    proof {
        lemma_pow256_values();
        lemma_be_value_bound(s.subrange(2, 4));
        reveal_with_fuel(be_value, 3);
        assert(s.subrange(2, 4).drop_last() =~= seq![s[2]]);
        assert(seq![s[2]].drop_last() =~= Seq::<u8>::empty());
    }
    let total = 4 + (src[2] as usize) * 256 + (src[3] as usize);
    assert(total == frame_size(s));
    if src.len() < total {
        return true;
    }
    let header: usize = if src[0] & 0x08 != 0 { 12 } else { 8 };
    total >= header
}

/// What `decode` makes of the buffer `s`: nothing while the frame is
/// incomplete, else the message in the frame or the error that ends it.
pub open spec fn decode_from(s: Seq<u8>) -> Result<Option<MessageModel>, GtpError> {
    if frame_complete(s) {
        match message_from_wire(s.take(frame_size(s) as int)) {
            Ok(m) => Ok(Some(m)),
            Err(e) => Err(e),
        }
    } else {
        Ok(None)
    }
}

/// A decoding result seen through the view of the message.
pub open spec fn decoded_view(r: Result<Option<GtpMessage>, GtpError>) -> Result<Option<MessageModel>, GtpError> {
    match r {
        Ok(Some(m)) => Ok(Some(m@)),
        Ok(None) => Ok(None),
        Err(e) => Err(e),
    }
}

impl GtpCodec {
    /// Takes the next whole frame from `src` and decodes it. While the frame
    /// is incomplete nothing is taken, and room is reserved for the rest of it.
    pub fn decode(&mut self, src: &mut BytesMut) -> (r: Result<Option<GtpMessage>, GtpError>)
        requires
            frame_holds_header(bytes_mut_view(*old(src))),
        ensures
            decoded_view(r) == decode_from(bytes_mut_view(*old(src))),
            bytes_mut_view(*final(src)) == (if frame_complete(bytes_mut_view(*old(src))) {
                bytes_mut_view(*old(src)).skip(frame_size(bytes_mut_view(*old(src))) as int)
            } else {
                bytes_mut_view(*old(src))
            }),
    {
        let ghost s = bytes_mut_view(*src);
        let view = bytes_mut_as_slice(src);
        if view.len() < 4 {
            return Ok(None);
        }
        proof {
            lemma_pow256_values();
            lemma_be_value_bound(s.subrange(2, 4));
            reveal_with_fuel(be_value, 3);
            assert(s.subrange(2, 4).drop_last() =~= seq![s[2]]);
            assert(seq![s[2]].drop_last() =~= Seq::<u8>::empty());
        }
        let msg_len = (view[2] as usize) * 256 + (view[3] as usize);
        let total_len = 4 + msg_len;
        assert(total_len == frame_size(s));
        if view.len() < total_len {
            let missing = total_len - view.len();
            bytes_mut_reserve(src, missing);
            return Ok(None);
        }
        let frame = bytes_mut_freeze(bytes_mut_split_to(src, total_len));
        assert(bytes_view(frame)[0] == s[0]);
        match GtpMessage::parse(frame) {
            Ok(m) => Ok(Some(m)),
            Err(e) => Err(e),
        }
    }

    /// Decodes at the end of the stream: a frame as `decode` does; with no
    /// whole frame left, success if nothing is left, else an I/O error.
    pub fn decode_eof(&mut self, buf: &mut BytesMut) -> (r: Result<Option<GtpMessage>, GtpError>)
        requires
            frame_holds_header(bytes_mut_view(*old(buf))),
        ensures
            frame_complete(bytes_mut_view(*old(buf))) ==> decoded_view(r) == decode_from(
                bytes_mut_view(*old(buf)),
            ),
            !frame_complete(bytes_mut_view(*old(buf))) ==> (if bytes_mut_view(*old(buf)).len() == 0 {
                r matches Ok(None)
            } else {
                r matches Err(GtpError::Io(_))
            }),
            bytes_mut_view(*final(buf)) == (if frame_complete(bytes_mut_view(*old(buf))) {
                bytes_mut_view(*old(buf)).skip(frame_size(bytes_mut_view(*old(buf))) as int)
            } else {
                bytes_mut_view(*old(buf))
            }),
    {
        match self.decode(buf)? {
            Some(frame) => Ok(Some(frame)),
            None => {
                if bytes_mut_as_slice(buf).len() == 0 {
                    Ok(None)
                } else {
                    Err(GtpError::Io(io_error_other("bytes remaining on stream")))
                }
            },
        }
    }

    /// Appends the whole message to `dst`.
    pub fn encode(&mut self, item: GtpMessage, dst: &mut BytesMut) -> (r: Result<(), GtpError>)
        requires
            message_length(item.header.teid_flag, (item@.body().len() as u16)) <= 0xFFFF,
            bytes_mut_view(*old(dst)).len() + 12 + item@.body().len() <= isize::MAX,
        ensures
            r is Ok,
            bytes_mut_view(*final(dst)) == bytes_mut_view(*old(dst)) + item@.wire(),
    {
        item.write(dst);
        Ok(())
    }
}

/// The length field of an encodable message announces everything after it.
pub proof fn lemma_length_field(m: MessageModel, rest: Seq<u8>)
    requires
        m.encodable(),
    ensures
        frame_size(m.wire() + rest) == m.wire().len(),
{
    let body = m.body();
    lemma_header_roundtrip(m.header, body.len() as u16, body + rest);
    lemma_header_wire_len(m.header, body.len() as u16);
    assert(m.wire() + rest =~= m.header.wire(body.len() as u16) + (body + rest));
}

/// Codec round trip: an encodable message written to a stream, followed by
/// anything, is decoded as itself and only its own bytes are taken.
pub proof fn lemma_codec_roundtrip(m: MessageModel, rest: Seq<u8>)
    requires
        m.encodable(),
    ensures
        frame_holds_header(m.wire() + rest),
        frame_complete(m.wire() + rest),
        frame_size(m.wire() + rest) == m.wire().len(),
        decode_from(m.wire() + rest) == Ok::<Option<MessageModel>, GtpError>(Some(m)),
{
    let w = m.wire() + rest;
    lemma_length_field(m, rest);
    lemma_message_roundtrip(m);
    assert(w.take(m.wire().len() as int) =~= m.wire());
    assert(w[0] == m.wire()[0]);
}

} // verus!
