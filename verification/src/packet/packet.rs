//! The echo message: an ICMP header whose data field holds an identifier
//! and a sequence number, followed by an opaque payload.

use vstd::prelude::*;
use vstd::slice::{slice_subrange, slice_to_vec};
use crate::packet::checksum::{
    bytes_checksum, compute_checksum, lemma_checksum_in_place_is_zero, words_of,
};
use crate::packet::header::{
    Header, HeaderView, Type, ECHO_REPLY_TYPE, ECHO_REQUEST_CODE, ECHO_REQUEST_TYPE, HEADER_SIZE,
};
use crate::packet::header::{lemma_header_bytes_parse, lemma_header_parse_bytes};
use crate::packet::wire::{
    be_u16, lemma_be_u16_bytes_round_trip, read_u16, read_u32, write_u16, write_u32,
};

verus! {

/// The header data field that holds `id` in its upper and `seq` in its
/// lower sixteen bits.
pub open spec fn echo_data(id: u16, seq: u16) -> u32 {
    (id as int * 0x1_0000 + seq as int) as u32
}

/// What an echo message holds, as plain values.
pub struct EchoView {
    pub header: HeaderView,
    pub payload: Seq<u8>,
}

impl EchoView {
    /// The identifier: the upper half of the header's data field.
    pub open spec fn id(self) -> u16 {
        (self.header.data as int / 0x1_0000) as u16
    }

    /// The sequence number: the lower half of the header's data field.
    pub open spec fn seq(self) -> u16 {
        (self.header.data as int % 0x1_0000) as u16
    }

    /// The message with its checksum field set to `checksum`.
    pub open spec fn with_checksum(self, checksum: u16) -> EchoView {
        EchoView { header: self.header.with_checksum(checksum), ..self }
    }

    /// A request that has not been sent yet: type and code of an echo
    /// request, identifier `id`, sequence number zero, no payload, and a
    /// zero checksum field.
    pub open spec fn request(id: u16) -> EchoView {
        EchoView {
            header: HeaderView {
                ttype: ECHO_REQUEST_TYPE,
                code: ECHO_REQUEST_CODE,
                checksum: 0,
                data: echo_data(id, 0),
            },
            payload: Seq::empty(),
        }
    }

    /// The sequence number that follows `seq`: after 65535 comes 0.
    pub open spec fn seq_after(seq: u16) -> u16 {
        if seq == u16::MAX {
            0
        } else {
            (seq + 1) as u16
        }
    }

    /// The message with the next sequence number in place of its own.
    pub open spec fn with_next_seq(self) -> EchoView {
        EchoView {
            header: HeaderView {
                data: echo_data(self.id(), Self::seq_after(self.seq())),
                ..self.header
            },
            ..self
        }
    }

    /// The message with the checksum that belongs to it in the checksum
    /// field.
    pub open spec fn with_own_checksum(self) -> EchoView {
        self.with_checksum(self.expected_checksum())
    }

    /// The message as it stands, byte for byte: the header, then the
    /// payload.
    pub open spec fn bytes(self) -> Seq<u8> {
        self.header.bytes() + self.payload
    }

    /// The checksum that belongs to this message: the Internet Checksum of
    /// all its bytes, taken with the checksum field as zero.
    pub open spec fn expected_checksum(self) -> u16 {
        bytes_checksum(self.with_checksum(0).bytes())
    }

    /// The message on the wire: its bytes, with the checksum that belongs
    /// to it in the checksum field.
    pub open spec fn encode(self) -> Seq<u8> {
        self.with_own_checksum().bytes()
    }

    /// The message that `b` spells out: a header in the first eight bytes,
    /// and everything after them as payload.
    pub open spec fn parse(b: Seq<u8>) -> EchoView
        recommends
            b.len() >= HEADER_SIZE,
    {
        EchoView { header: HeaderView::parse(b), payload: b.skip(HEADER_SIZE as int) }
    }
}

/// Why a buffer could not be decoded.
#[derive(Debug, Clone, Copy, PartialEq, Eq, Structural)]
pub enum DecodeError {
    /// Fewer than eight bytes: not even a header.
    TooShort,
}

#[derive(Debug)]
pub struct EchoRequest {
    header: Header,
    data: Vec<u8>,
}

impl View for EchoRequest {
    type V = EchoView;

    closed spec fn view(&self) -> EchoView {
        EchoView { header: self.header@, payload: self.data@ }
    }
}

impl EchoRequest {
    /// Header and payload together fit a length.
    #[verifier::type_invariant]
    spec fn fits(self) -> bool {
        HEADER_SIZE + self.data@.len() <= usize::MAX
    }

    fn create_u32_data(id: u16, seq: u16) -> (data: u32)
        ensures
            data == echo_data(id, seq),
    {
        let i = write_u16(id);
        let s = write_u16(seq);
        let w: [u8; 4] = [i[0], i[1], s[0], s[1]];
        read_u32(w.as_slice())
    }

    fn read_u32_data(d: u32) -> (halves: (u16, u16))
        ensures
            halves.0 as int == d as int / 0x1_0000,
            halves.1 as int == d as int % 0x1_0000,
    {
        let w = write_u32(d);
        let w = w.as_slice();
        (read_u16(slice_subrange(w, 0, 2)), read_u16(slice_subrange(w, 2, 4)))
    }

    /// Creates a new EchoRequest using the provided unique `id`, with
    /// sequence number zero and no payload.
    pub fn new(id: u16) -> (echo: EchoRequest)
        ensures
            echo@ == EchoView::request(id),
    {
        let data = EchoRequest::create_u32_data(id, 0);
        EchoRequest {
            header: Header::new(ECHO_REQUEST_TYPE, ECHO_REQUEST_CODE, data),
            data: Vec::new(),
        }
    }

    /// Creates a new EchoRequest from a byte slice.
    pub fn from(b: &[u8]) -> (echo: EchoRequest)
        requires
            b@.len() >= HEADER_SIZE,
        ensures
            echo@ == EchoView::parse(b@),
    {
        EchoRequest {
            header: Header::from(slice_subrange(b, 0, HEADER_SIZE)),
            data: slice_to_vec(slice_subrange(b, HEADER_SIZE, b.len())),
        }
    }

    /// Creates an echo message of the given type, with code zero, a zero
    /// checksum field and the given identifier, sequence number and payload.
    pub fn with_payload(ttype: Type, id: u16, seq: u16, payload: Vec<u8>) -> (echo: EchoRequest)
        requires
            HEADER_SIZE + payload@.len() <= usize::MAX,
        ensures
            echo@ == (EchoView {
                header: HeaderView {
                    ttype,
                    code: ECHO_REQUEST_CODE,
                    checksum: 0,
                    data: echo_data(id, seq),
                },
                payload: payload@,
            }),
    {
        let data = EchoRequest::create_u32_data(id, seq);
        EchoRequest { header: Header::new(ttype, ECHO_REQUEST_CODE, data), data: payload }
    }

    /// Decodes a message from a buffer: a header from the first eight
    /// bytes, the rest as payload. The checksum field is read and kept, not
    /// checked. A buffer of fewer than eight bytes is refused.
    pub fn decode(b: &[u8]) -> (decoded: Result<EchoRequest, DecodeError>)
        ensures
            b@.len() < HEADER_SIZE ==> decoded == Err::<EchoRequest, DecodeError>(
                DecodeError::TooShort,
            ),
            b@.len() >= HEADER_SIZE ==> decoded is Ok && decoded->Ok_0@ == EchoView::parse(b@),
    {
        if b.len() < HEADER_SIZE {
            Err(DecodeError::TooShort)
        } else {
            Ok(EchoRequest::from(b))
        }
    }

    /// The message's bytes with the checksum field as zero.
    fn zeroed_bytes(&self) -> (bytes: Vec<u8>)
        ensures
            bytes@ == self@.with_checksum(0).bytes(),
    {
        let zeroed = Header::new(
            self.header.get_type(),
            self.header.get_code(),
            self.header.get_data(),
        );
        let head = zeroed.as_bytes();
        let mut bytes: Vec<u8> = Vec::new();
        bytes.extend_from_slice(head.as_slice());
        bytes.extend_from_slice(self.data.as_slice());
        proof {
            assert(bytes@ =~= self@.with_checksum(0).bytes());
        }
        bytes
    }

    /// Encodes the message for the wire: type, code, checksum, identifier,
    /// sequence number and payload, in that order. The checksum written is
    /// the one that belongs to the message, whatever the checksum field
    /// held.
    pub fn encode(&self) -> (bytes: Vec<u8>)
        ensures
            bytes@ == self@.encode(),
    {
        let mut bytes = self.zeroed_bytes();
        let sum = write_u16(compute_checksum(bytes.as_slice()));
        bytes.set(2, sum[0]);
        bytes.set(3, sum[1]);
        proof {
            assert(bytes@ =~= self@.encode());
        }
        bytes
    }

    /// Tells whether the checksum field holds the checksum that belongs to
    /// the message.
    pub fn verify_checksum(&self) -> (valid: bool)
        ensures
            valid == (self@.header.checksum == self@.expected_checksum()),
    {
        let bytes = self.zeroed_bytes();
        self.header.get_checksum() == compute_checksum(bytes.as_slice())
    }

    /// Returns the message type.
    pub fn get_type(&self) -> (ttype: Type)
        ensures
            ttype == self@.header.ttype,
    {
        self.header.get_type()
    }

    /// Returns the checksum field.
    pub fn get_checksum(&self) -> (checksum: u16)
        ensures
            checksum == self@.header.checksum,
    {
        self.header.get_checksum()
    }

    /// Returns the payload: the bytes that follow the header.
    pub fn payload(&self) -> (payload: &[u8])
        ensures
            payload@ == self@.payload,
    {
        self.data.as_slice()
    }

    /// Tells whether this is an echo reply.
    pub fn is_reply(&self) -> (reply: bool)
        ensures
            reply == (self@.header.ttype == ECHO_REPLY_TYPE),
    {
        self.header.get_type() == ECHO_REPLY_TYPE
    }

    /// Returns the total length of the packet, including the header.
    pub fn len(&self) -> (n: usize)
        ensures
            n == HEADER_SIZE + self@.payload.len(),
    {
        proof {
            use_type_invariant(self);
        }
        HEADER_SIZE + self.data.len()
    }

    /// Returns the unique id of the echo request.
    pub fn id(&self) -> (id: u16)
        ensures
            id == self@.id(),
    {
        let (id, _) = EchoRequest::read_u32_data(self.header.get_data());
        id
    }

    /// Returns the current sequence number of the echo request.
    pub fn seq(&self) -> (seq: u16)
        ensures
            seq == self@.seq(),
    {
        let (_, seq) = EchoRequest::read_u32_data(self.header.get_data());
        seq
    }

    /// Returns the packet's header represented as a sized array of bytes.
    pub fn as_bytes(&self) -> (bytes: [u8; 8])
        ensures
            bytes@ == self@.header.bytes(),
    {
        self.header.as_bytes()
    }

    /// Increment the packet's sequence number. After 65535 comes 0.
    pub fn inc_seq(&mut self)
        ensures
            final(self)@ == old(self)@.with_next_seq(),
    {
        proof {
            use_type_invariant(&*self);
        }
        let (id, seq) = EchoRequest::read_u32_data(self.header.get_data());
        self.header.set_data(EchoRequest::create_u32_data(id, seq.wrapping_add(1)));
    }

    /// Calculates the packet's checksum and updates the header: the
    /// Internet Checksum of header and payload together, taken with the
    /// checksum field as zero.
    pub fn do_checksum(&mut self)
        ensures
            final(self)@ == old(self)@.with_own_checksum(),
    {
        proof {
            use_type_invariant(&*self);
        }
        let bytes = self.zeroed_bytes();
        self.header.set_checksum(compute_checksum(bytes.as_slice()));
    }
}

/// A message read back from its own bytes is the same message.
pub proof fn lemma_parse_bytes(m: EchoView)
    ensures
        m.bytes().len() == HEADER_SIZE + m.payload.len(),
        EchoView::parse(m.bytes()) == m,
{
    lemma_header_parse_bytes(m.header);
    assert(m.bytes().skip(HEADER_SIZE as int) =~= m.payload);
}

/// The bytes of a message read from a buffer are that buffer.
pub proof fn lemma_bytes_parse(b: Seq<u8>)
    requires
        b.len() >= HEADER_SIZE,
    ensures
        EchoView::parse(b).bytes() == b,
{
    lemma_header_bytes_parse(b);
    assert(EchoView::parse(b).bytes() =~= b);
}

/// Decoding what was encoded gives back the identifier, the sequence number
/// and the payload, and with them the type and the code; the checksum field
/// holds the checksum that belongs to the message.
pub proof fn lemma_decode_encode(m: EchoView)
    ensures
        m.encode().len() == HEADER_SIZE + m.payload.len(),
        EchoView::parse(m.encode()) == m.with_own_checksum(),
        EchoView::parse(m.encode()).id() == m.id(),
        EchoView::parse(m.encode()).seq() == m.seq(),
        EchoView::parse(m.encode()).payload == m.payload,
{
    lemma_parse_bytes(m.with_own_checksum());
}

/// An encoded message carries a checksum that verifies: recomputing the
/// checksum over the received bytes, with the checksum field as zero, gives
/// the value that the checksum field holds.
pub proof fn lemma_encoded_checksum_verifies(m: EchoView)
    ensures
        EchoView::parse(m.encode()).expected_checksum() == EchoView::parse(
            m.encode(),
        ).header.checksum,
        bytes_checksum(m.encode().update(2, 0).update(3, 0)) == be_u16(
            m.encode()[2],
            m.encode()[3],
        ),
{
    lemma_decode_encode(m);
    let sealed = m.with_own_checksum();
    assert(sealed.with_checksum(0) == m.with_checksum(0));
    lemma_header_parse_bytes(sealed.header);
    assert(m.encode().update(2, 0).update(3, 0) =~= m.with_checksum(0).bytes());
}

/// An encoded message checks out as zero: the Internet Checksum of all its
/// bytes, the checksum field included, is zero.
pub proof fn lemma_encoded_checksum_is_zero(m: EchoView)
    ensures
        bytes_checksum(m.encode()) == 0,
{
    let zeroed = m.with_checksum(0).bytes();
    let words = words_of(zeroed);
    lemma_header_parse_bytes(m.with_checksum(0).header);
    lemma_header_parse_bytes(m.with_own_checksum().header);
    assert(words[1] == 0);
    lemma_be_u16_bytes_round_trip(m.expected_checksum());
    assert(words_of(m.encode()) =~= words.update(1, m.expected_checksum()));
    lemma_checksum_in_place_is_zero(words, 1);
}

} // verus!
