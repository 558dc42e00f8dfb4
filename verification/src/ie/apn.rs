//! The APN element: the access point name, a dotted name sent as a sequence
//! of length-prefixed labels.
use vstd::prelude::*;
use vstd::utf8::*;
use vstd::string::StringExecFns;
use tokio_util::bytes::{Bytes, BytesMut};
use crate::buf::{
    bytes_view, bytes_mut_view, bytes_remaining, bytes_as_slice, bytes_get_u8, bytes_split_to,
    bytes_mut_put_u8, bytes_mut_put_slice, string_from_utf8_lossy, utf8_lossy,
};
use crate::error::GtpError;

verus! {

#[derive(Debug, Clone)]
pub struct Apn(pub String);

impl View for Apn {
    type V = Seq<char>;

    open spec fn view(&self) -> Seq<char> {
        self.0@
    }
}

/// The byte value of the label separator `'.'`.
pub open spec fn dot() -> u8 {
    0x2E
}

/// The labels that `parse` reads: each a length byte and that many bytes.
pub open spec fn apn_labels(s: Seq<u8>) -> Result<Seq<Seq<u8>>, GtpError>
    decreases s.len(),
{
    if s.len() == 0 {
        Ok(Seq::empty())
    } else {
        let n = s[0] as int;
        if s.len() - 1 < n {
            Err(GtpError::Truncated)
        } else {
            match apn_labels(s.skip(1 + n)) {
                Ok(rest) => Ok(seq![s.subrange(1, 1 + n)] + rest),
                Err(e) => Err(e),
            }
        }
    }
}

/// The text of one label: valid UTF-8 decoded as it is, anything else as
/// `String::from_utf8_lossy` makes of it.
pub open spec fn label_text(b: Seq<u8>) -> Seq<char> {
    if valid_utf8(b) {
        decode_utf8(b)
    } else {
        utf8_lossy(b)
    }
}

/// Texts joined with `'.'` between them.
pub open spec fn join_dot(ls: Seq<Seq<char>>) -> Seq<char>
    decreases ls.len(),
{
    if ls.len() == 0 {
        Seq::empty()
    } else if ls.len() == 1 {
        ls[0]
    } else {
        ls[0] + seq!['.'] + join_dot(ls.drop_first())
    }
}

/// The name that `parse` reads: the texts of the labels joined with dots.
pub open spec fn apn_from_wire(s: Seq<u8>) -> Result<Seq<char>, GtpError> {
    match apn_labels(s) {
        Ok(ls) => Ok(join_dot(ls.map_values(|l: Seq<u8>| label_text(l)))),
        Err(e) => Err(e),
    }
}

/// The number of bytes before the first `'.'`.
pub open spec fn label_len(b: Seq<u8>) -> nat
    decreases b.len(),
{
    if b.len() == 0 {
        0
    } else if b[0] == dot() {
        0
    } else {
        1 + label_len(b.drop_first())
    }
}

/// The UTF-8 bytes of a name cut at each `'.'`.
pub open spec fn split_dot(b: Seq<u8>) -> Seq<Seq<u8>>
    decreases b.len(),
{
    let k = label_len(b);
    if k < b.len() {
        seq![b.take(k as int)] + split_dot(b.skip(k + 1int))
    } else {
        seq![b]
    }
}

/// The bytes `write` appends for the UTF-8 bytes `b` of a name: each label
/// between dots as its length (truncated to a byte) and its bytes.
pub open spec fn apn_wire_bytes(b: Seq<u8>) -> Seq<u8>
    decreases b.len(),
{
    let k = label_len(b);
    let head = seq![k as u8] + b.take(k as int);
    if k < b.len() {
        head + apn_wire_bytes(b.skip(k + 1int))
    } else {
        head
    }
}

/// The bytes `write` appends for the name `chars`.
pub open spec fn apn_wire(chars: Seq<char>) -> Seq<u8> {
    apn_wire_bytes(encode_utf8(chars))
}

/// Whether every label of the name fits the one-byte length prefix.
pub open spec fn labels_fit(chars: Seq<char>) -> bool {
    let ls = split_dot(encode_utf8(chars));
    forall|i: int| 0 <= i < ls.len() ==> #[trigger] ls[i].len() < 256
}

pub proof fn lemma_label_len_bound(b: Seq<u8>)
    ensures
        label_len(b) <= b.len(),
        label_len(b) < b.len() ==> b[label_len(b) as int] == dot(),
        forall|i: int| 0 <= i < label_len(b) ==> b[i] != dot(),
    decreases b.len(),
{
    if b.len() > 0 && b[0] != dot() {
        lemma_label_len_bound(b.drop_first());
        assert forall|i: int| 0 <= i < label_len(b) implies b[i] != dot() by {
            if i > 0 {
                assert(b[i] == b.drop_first()[i - 1]);
            }
        }
    }
}

/// A run of non-dot bytes ending at a dot or at the end is the first label.
pub proof fn lemma_label_len_at(b: Seq<u8>, j: int)
    requires
        0 <= j <= b.len(),
        forall|i: int| 0 <= i < j ==> b[i] != dot(),
        j == b.len() || b[j] == dot(),
    ensures
        label_len(b) == j,
    decreases j,
{
    if j > 0 {
        assert forall|i: int| 0 <= i < j - 1 implies b.drop_first()[i] != dot() by {
            assert(b.drop_first()[i] == b[i + 1]);
        }
        lemma_label_len_at(b.drop_first(), j - 1);
    }
}

/// The encoding takes one byte more than the name: a length byte for each
/// label, where the name has a dot between labels.
pub proof fn lemma_apn_wire_len(b: Seq<u8>)
    ensures
        apn_wire_bytes(b).len() == b.len() + 1,
    decreases b.len(),
{
    lemma_label_len_bound(b);
    let k = label_len(b);
    if k < b.len() {
        lemma_apn_wire_len(b.skip(k + 1int));
    }
}

/// Joins texts with `'.'` between them.
fn join_with_dots(labels: &Vec<String>) -> (r: String)
    ensures
        r@ == join_dot(labels@.map_values(|l: String| l@)),
{
    let ghost ls = labels@.map_values(|l: String| l@);
    let mut res = String::new();
    let n = labels.len();
    let mut i: usize = 0;
    proof {
        reveal_strlit(".");
        assert(ls.take(0) =~= Seq::<Seq<char>>::empty());
    }
    while i < n
        invariant
            n == labels@.len(),
            ls == labels@.map_values(|l: String| l@),
            0 <= i <= n,
            res@ == join_dot(ls.take(i as int)),
        decreases n - i,
    {
        proof {
            reveal_strlit(".");
            lemma_join_dot_push(ls.take(i as int), ls[i as int]);
            assert(ls.take(i as int + 1) =~= ls.take(i as int).push(ls[i as int]));
        }
        if i > 0 {
            res.append(".");
        }
        res.append(labels[i].as_str());
        i = i + 1;
    }
    assert(ls.take(n as int) =~= ls);
    res
}

/// Joining one more text adds a dot (unless it is the first) and the text.
pub proof fn lemma_join_dot_push(ls: Seq<Seq<char>>, l: Seq<char>)
    ensures
        join_dot(ls.push(l)) == (if ls.len() == 0 { l } else { join_dot(ls) + seq!['.'] + l }),
    decreases ls.len(),
{
    if ls.len() == 0 {
        assert(ls.push(l) =~= seq![l]);
    } else if ls.len() == 1 {
        assert(ls.push(l).drop_first() =~= seq![l]);
        assert(join_dot(seq![l]) == l);
        assert(join_dot(ls) == ls[0]);
        assert(ls.push(l)[0] == ls[0]);
    } else if ls.len() > 1 {
        lemma_join_dot_push(ls.drop_first(), l);
        assert(ls.push(l).drop_first() =~= ls.drop_first().push(l));
        assert(join_dot(ls.push(l)) =~= join_dot(ls) + seq!['.'] + l);
    }
}

impl Apn {
    #[verifier::loop_isolation(false)]
    pub fn parse(value: Bytes) -> (r: Result<Self, GtpError>)
        ensures
            crate::ie::result_view(r) == apn_from_wire(bytes_view(value)),
    {
        let ghost s = bytes_view(value);
        let mut value = value;
        let mut labels: Vec<String> = Vec::new();
        let ghost mut seen: Seq<Seq<u8>> = Seq::empty();
        while bytes_remaining(&value) > 0
            invariant
                labels@.map_values(|l: String| l@) == seen.map_values(|b: Seq<u8>| label_text(b)),
                apn_labels(s) == (match apn_labels(bytes_view(value)) {
                    Ok(rest) => Ok(seen + rest),
                    Err(e) => Err::<Seq<Seq<u8>>, GtpError>(e),
                }),
            decreases bytes_view(value).len(),
        {
            let ghost cur = bytes_view(value);
            let len = bytes_get_u8(&mut value) as usize;
            if bytes_remaining(&value) < len {
                return Err(GtpError::Truncated);
            }
            let label = bytes_split_to(&mut value, len);
            assert(cur.skip(1).take(len as int) =~= cur.subrange(1, 1 + len));
            assert(cur.skip(1).skip(len as int) =~= cur.skip(1 + len));
            let text = string_from_utf8_lossy(bytes_as_slice(&label));
            let ghost lb = bytes_view(label);
            let ghost old_labels = labels@;
            labels.push(text);
            proof {
                assert(text@ == label_text(lb));
                assert(labels@ == old_labels.push(text));
                assert(old_labels.map_values(|l: String| l@) == seen.map_values(|b: Seq<u8>| label_text(b)));
                let ml = labels@.map_values(|l: String| l@);
                let mo = old_labels.map_values(|l: String| l@);
                let ms = seen.push(lb).map_values(|b: Seq<u8>| label_text(b));
                let mo2 = seen.map_values(|b: Seq<u8>| label_text(b));
                assert forall|i: int| 0 <= i < ml.len() implies ml[i] == ms[i] by {
                    if i < old_labels.len() {
                        assert(mo[i] == mo2[i]);
                        assert(ml[i] == mo[i]);
                        assert(ms[i] == mo2[i]);
                    }
                }
                assert(ml =~= ms);
                match apn_labels(bytes_view(value)) {
                    Ok(rest) => {
                        assert(seen + (seq![lb] + rest) =~= seen.push(lb) + rest);
                    },
                    Err(e) => {},
                }
                seen = seen.push(lb);
            }
        }
        assert(seen + Seq::<Seq<u8>>::empty() =~= seen);
        Ok(Apn(join_with_dots(&labels)))
    }

    pub fn write(&self, dst: &mut BytesMut)
        requires
            bytes_mut_view(*old(dst)).len() + encode_utf8(self@).len() + 1 <= isize::MAX,
        ensures
            bytes_mut_view(*final(dst)) == bytes_mut_view(*old(dst)) + apn_wire(self@),
    {
        let b = self.0.as_str().as_bytes();
        let ghost d0 = bytes_mut_view(*dst);
        let n = b.len();
        let mut start: usize = 0;
        let mut i: usize = 0;
        assert(b@.skip(0) =~= b@);
        while i < n
            invariant
                n == b@.len(),
                b@ == encode_utf8(self@),
                d0.len() + n + 1 <= isize::MAX,
                start <= i <= n,
                forall|j: int| start <= j < i ==> b@[j] != dot(),
                bytes_mut_view(*dst).len() == d0.len() + start,
                d0 + apn_wire_bytes(b@) == bytes_mut_view(*dst) + apn_wire_bytes(b@.skip(start as int)),
            decreases n - i,
        {
            if b[i] == 0x2E {
                let ghost c = b@.skip(start as int);
                proof {
                    assert forall|j: int| 0 <= j < i - start implies c[j] != dot() by {
                        assert(c[j] == b@[start + j]);
                    }
                    lemma_label_len_at(c, i - start);
                    assert(c.take(i - start) =~= b@.subrange(start as int, i as int));
                    assert(c.skip(i - start + 1) =~= b@.skip(i + 1));
                }
                write_label(dst, b, start, i);
                assert(bytes_mut_view(*dst) + apn_wire_bytes(b@.skip(i + 1)) =~= d0 + apn_wire_bytes(b@));
                start = i + 1;
            }
            i = i + 1;
        }
        let ghost c = b@.skip(start as int);
        proof {
            assert forall|j: int| 0 <= j < n - start implies c[j] != dot() by {
                assert(c[j] == b@[start + j]);
            }
            lemma_label_len_at(c, n - start);
            assert(c.take(n - start) =~= b@.subrange(start as int, n as int));
        }
        write_label(dst, b, start, n);
        assert(bytes_mut_view(*dst) =~= d0 + apn_wire(self@));
    }
}

/// Appends one label: its length as a byte, then its bytes.
fn write_label(dst: &mut BytesMut, b: &[u8], start: usize, end: usize)
    requires
        start <= end <= b@.len(),
        bytes_mut_view(*old(dst)).len() + 1 + (end - start) <= isize::MAX,
    ensures
        bytes_mut_view(*final(dst)) == bytes_mut_view(*old(dst)) + seq![(end - start) as u8] + b@.subrange(
            start as int,
            end as int,
        ),
{
    let label = vstd::slice::slice_subrange(b, start, end);
    bytes_mut_put_u8(dst, label.len() as u8);
    bytes_mut_put_slice(dst, label);
}

/// The labels of a name are read back from its encoding when each fits its
/// length byte.
pub proof fn lemma_apn_labels_roundtrip(b: Seq<u8>)
    requires
        forall|i: int| 0 <= i < split_dot(b).len() ==> #[trigger] split_dot(b)[i].len() < 256,
    ensures
        apn_labels(apn_wire_bytes(b)) == Ok::<Seq<Seq<u8>>, GtpError>(split_dot(b)),
    decreases b.len(),
{
    lemma_label_len_bound(b);
    let k = label_len(b);
    let w = apn_wire_bytes(b);
    assert(split_dot(b)[0].len() < 256);
    assert(split_dot(b)[0] =~= b.take(k as int));
    assert(w[0] == k as u8);
    assert(w.subrange(1, 1 + k as int) =~= b.take(k as int));
    if k < b.len() {
        let r = b.skip(k + 1int);
        assert forall|i: int| 0 <= i < split_dot(r).len() implies #[trigger] split_dot(r)[i].len() < 256 by {
            assert(split_dot(r)[i] == split_dot(b)[i + 1]);
        }
        lemma_apn_labels_roundtrip(r);
        assert(w.skip(1 + k as int) =~= apn_wire_bytes(r));
        assert(seq![b.take(k as int)] + split_dot(r) =~= split_dot(b));
    } else {
        assert(w.skip(1 + k as int) =~= Seq::<u8>::empty());
        assert(apn_labels(Seq::<u8>::empty()) == Ok::<Seq<Seq<u8>>, GtpError>(Seq::empty()));
        assert(seq![b.take(k as int)] + Seq::<Seq<u8>>::empty() =~= split_dot(b));
    }
}

/// A name always has at least one label.
pub proof fn lemma_split_dot_nonempty(b: Seq<u8>)
    ensures
        split_dot(b).len() >= 1,
    decreases b.len(),
{
}

/// Decoding valid UTF-8 label by label and joining with dots decodes the name.
pub proof fn lemma_join_decoded_labels(b: Seq<u8>)
    requires
        valid_utf8(b),
    ensures
        join_dot(split_dot(b).map_values(|l: Seq<u8>| label_text(l))) == decode_utf8(b),
    decreases b.len(),
{
    lemma_label_len_bound(b);
    let k = label_len(b);
    let ls = split_dot(b);
    if k < b.len() {
        let r = b.skip(k + 1int);
        assert(b[k as int] == 0x2E);
        is_char_boundary_iff_not_is_continuation_byte(b, k as int);
        valid_utf8_split(b, k as int);
        decode_utf8_split(b, k as int);
        let head = b.subrange(0, k as int);
        let tail = b.subrange(k as int, b.len() as int);
        assert(head =~= b.take(k as int));
        assert(tail[0] == 0x2E);
        assert(0x2Eu8 & 0x7F == 0x2Eu8) by (bit_vector);
        assert(pop_first_scalar(tail) =~= r);
        assert(valid_utf8(r));
        assert(decode_first_scalar(tail) == 0x2Eu32);
        assert((0x2Eu32 as char) == '.');
        assert(decode_utf8(tail) == seq!['.'] + decode_utf8(r));
        lemma_join_decoded_labels(r);
        lemma_split_dot_nonempty(r);
        let mr = split_dot(r).map_values(|l: Seq<u8>| label_text(l));
        let ml = ls.map_values(|l: Seq<u8>| label_text(l));
        assert(ml =~= seq![label_text(head)] + mr);
        assert(ml.drop_first() =~= mr);
        assert(join_dot(ml) == label_text(head) + seq!['.'] + join_dot(mr));
        assert(decode_utf8(b) =~= decode_utf8(head) + (seq!['.'] + decode_utf8(r)));
    } else {
        assert(ls.map_values(|l: Seq<u8>| label_text(l)) =~= seq![label_text(b)]);
    }
}

/// APN round trip: a name whose labels each fit in 255 bytes reads back
/// from its encoding.
pub proof fn lemma_apn_roundtrip(chars: Seq<char>)
    requires
        labels_fit(chars),
    ensures
        apn_from_wire(apn_wire(chars)) == Ok::<Seq<char>, GtpError>(chars),
{
    let b = encode_utf8(chars);
    encode_utf8_valid_utf8(chars);
    encode_utf8_decode_utf8(chars);
    lemma_apn_labels_roundtrip(b);
    lemma_join_decoded_labels(b);
}

} // verus!
