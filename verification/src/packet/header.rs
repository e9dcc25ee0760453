//! The fixed eight-byte ICMP header.

use vstd::prelude::*;
use vstd::slice::slice_subrange;
use crate::packet::checksum::{bytes_checksum, compute_checksum};
use crate::packet::wire::{be_u16, be_u32, read_u16, read_u32, u16_be_bytes, u32_be_bytes, write_u16, write_u32};

verus! {

pub const HEADER_SIZE: usize = 8;

pub type Type = u8;

pub const ECHO_REPLY_TYPE: Type = 0;

pub const ECHO_REQUEST_TYPE: Type = 8;

pub type TypeCode = u8;

pub const ECHO_REPLY_CODE: TypeCode = 0u8;

pub const ECHO_REQUEST_CODE: TypeCode = 0u8;

/// What a header holds, as plain values.
pub struct HeaderView {
    pub ttype: Type,
    pub code: TypeCode,
    pub checksum: u16,
    pub data: u32,
}

impl HeaderView {
    /// The eight bytes of the header on the wire: type, code, checksum and
    /// the data field, the last two in network order.
    pub open spec fn bytes(self) -> Seq<u8> {
        seq![self.ttype, self.code] + u16_be_bytes(self.checksum) + u32_be_bytes(self.data)
    }

    /// The header with its checksum field set to `checksum`.
    pub open spec fn with_checksum(self, checksum: u16) -> HeaderView {
        HeaderView { checksum, ..self }
    }

    /// The header that the first eight bytes of `b` spell out.
    pub open spec fn parse(b: Seq<u8>) -> HeaderView
        recommends
            b.len() >= HEADER_SIZE,
    {
        HeaderView {
            ttype: b[0],
            code: b[1],
            checksum: be_u16(b[2], b[3]),
            data: be_u32(b[4], b[5], b[6], b[7]),
        }
    }
}

/// The 8-byte header for an ICMP packet
#[derive(Debug)]
pub struct Header {
    ttype: Type,
    code: TypeCode,
    checksum: u16,
    data: u32,
}

impl View for Header {
    type V = HeaderView;

    closed spec fn view(&self) -> HeaderView {
        HeaderView { ttype: self.ttype, code: self.code, checksum: self.checksum, data: self.data }
    }
}

impl Header {
    /// Creates a new Header using a type, code, and arbitrary
    /// header data. The checksum field starts as zero.
    pub fn new(ttype: Type, code: TypeCode, data: u32) -> (header: Header)
        ensures
            header@ == (HeaderView { ttype, code, checksum: 0, data }),
    {
        Header { ttype: ttype, code: code, checksum: 0, data: data }
    }

    /// Creates a new Header using a slice of bytes. This method will
    /// use the first 8 bytes from the slice, and ignore the rest.
    pub fn from(b: &[u8]) -> (header: Header)
        requires
            b@.len() >= HEADER_SIZE,
        ensures
            header@ == HeaderView::parse(b@),
    {
        Header {
            ttype: b[0],
            code: b[1],
            checksum: read_u16(slice_subrange(b, 2, 4)),
            data: read_u32(slice_subrange(b, 4, 8)),
        }
    }

    /// Calculate the checksum for the header: the Internet Checksum of its
    /// eight bytes, taken with the checksum field as zero.
    pub fn do_checksum(&mut self)
        ensures
            final(self)@ == old(self)@.with_checksum(
                bytes_checksum(old(self)@.with_checksum(0).bytes()),
            ),
    {
        // set the current checksum to 0
        self.checksum = 0u16;
        let bytes = self.as_bytes();
        self.checksum = compute_checksum(bytes.as_slice());
    }

    /// Returns the header represented as a sized array of bytes.
    pub fn as_bytes(&self) -> (bytes: [u8; 8])
        ensures
            bytes@ == self@.bytes(),
    {
        let c = write_u16(self.checksum);
        let d = write_u32(self.data);
        let header: [u8; 8] = [self.ttype, self.code, c[0], c[1], d[0], d[1], d[2], d[3]];
        proof {
            assert(header@ =~= self@.bytes());
        }
        header
    }

    /// Sets the 4-byte header data as a u32.
    pub fn set_data(&mut self, data: u32)
        ensures
            final(self)@ == (HeaderView { data, ..old(self)@ }),
        no_unwind
    {
        self.data = data
    }

    /// Gets the 4-byte header data as a u32.
    pub fn get_data(&self) -> (data: u32)
        ensures
            data == self@.data,
    {
        self.data
    }

    /// Sets the checksum field.
    pub fn set_checksum(&mut self, checksum: u16)
        ensures
            final(self)@ == old(self)@.with_checksum(checksum),
        no_unwind
    {
        self.checksum = checksum
    }

    /// Gets the checksum field.
    pub fn get_checksum(&self) -> (checksum: u16)
        ensures
            checksum == self@.checksum,
    {
        self.checksum
    }

    /// Gets the message type.
    pub fn get_type(&self) -> (ttype: Type)
        ensures
            ttype == self@.ttype,
    {
        self.ttype
    }

    /// Gets the code that refines the message type.
    pub fn get_code(&self) -> (code: TypeCode)
        ensures
            code == self@.code,
    {
        self.code
    }
}

/// A header read back from its own eight bytes is the same header.
pub proof fn lemma_header_parse_bytes(h: HeaderView)
    ensures
        h.bytes().len() == HEADER_SIZE,
        HeaderView::parse(h.bytes()) == h,
{
}

/// The bytes of a header read from a buffer are the buffer's first eight.
pub proof fn lemma_header_bytes_parse(b: Seq<u8>)
    requires
        b.len() >= HEADER_SIZE,
    ensures
        HeaderView::parse(b).bytes() == b.take(HEADER_SIZE as int),
{
    assert(HeaderView::parse(b).bytes() =~= b.take(HEADER_SIZE as int));
}

} // verus!
