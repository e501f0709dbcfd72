//! Frame header codec for the binary (V2) protocol generation.
//!
//! A frame starts with a fixed six-byte header: a little-endian `u16`
//! extension type, a `u8` message type and a 24-bit little-endian message
//! length. The length is the only field the transport consults before the
//! payload is read.

use vstd::prelude::*;

verus! {

/// Six-byte frame header: little-endian `u16` extension type, `u8` message
/// type and 24-bit little-endian message length.
#[derive(Clone, Copy, Debug, PartialEq, Eq, Structural)]
pub struct Header {
    pub extension_type: u16,
    pub msg_type: u8,
    pub msg_length: u32,
}

/// The header a six-byte buffer decodes to.
pub open spec fn spec_decode(bs: Seq<u8>) -> Header {
    Header {
        extension_type: (bs[0] + bs[1] * 0x100) as u16,
        msg_type: bs[2],
        msg_length: (bs[3] + bs[4] * 0x100 + bs[5] * 0x10000) as u32,
    }
}

/// The six bytes a header encodes to.
pub open spec fn spec_encode(h: Header) -> Seq<u8> {
    seq![
        (h.extension_type % 0x100) as u8,
        (h.extension_type / 0x100) as u8,
        h.msg_type,
        (h.msg_length % 0x100) as u8,
        ((h.msg_length / 0x100) % 0x100) as u8,
        ((h.msg_length / 0x10000) % 0x100) as u8,
    ]
}

impl Header {
    /// Well-formed: the message length fits in 24 bits.
    pub open spec fn wf(self) -> bool {
        self.msg_length < 0x1000000
    }

    /// Relies on `const_sv2::SV2_FRAME_HEADER_SIZE`: the frame header is
    /// six bytes long.
    #[verifier::external_body]
    pub fn size() -> (r: usize)
        ensures
            r == 6,
    {
        const_sv2::SV2_FRAME_HEADER_SIZE
    }

    /// Relies on `const_sv2::SV2_FRAME_HEADER_LEN_OFFSET`: the message
    /// length starts at byte three of the header.
    #[verifier::external_body]
    pub fn len_offset() -> (r: usize)
        ensures
            r == 3,
    {
        const_sv2::SV2_FRAME_HEADER_LEN_OFFSET
    }

    /// Relies on `const_sv2::SV2_FRAME_HEADER_LEN_END`: the message length
    /// occupies three bytes.
    #[verifier::external_body]
    pub fn len_size() -> (r: usize)
        ensures
            r == 3,
    {
        const_sv2::SV2_FRAME_HEADER_LEN_END
    }

    /// One past the last byte of the message length field.
    pub fn len_end() -> (r: usize)
        ensures
            r == 6,
    {
        Self::len_offset() + Self::len_size()
    }

    /// Decode a header from the front of a buffer. A buffer shorter than
    /// six bytes yields the number of missing bytes; any six-byte buffer
    /// yields a well-formed header.
    pub fn from_bytes(bytes: &[u8]) -> (r: Result<Self, isize>)
        ensures
            bytes@.len() < 6 ==> (r matches Err(n) && n == 6 - bytes@.len()),
            bytes@.len() >= 6 ==> (r matches Ok(h) && h == spec_decode(bytes@) && h.wf()),
    {
        if bytes.len() < Self::size() {
            return Err((Self::size() - bytes.len()) as isize);
        }
        let extension_type: u16 = bytes[0] as u16 + bytes[1] as u16 * 0x100;
        let msg_type: u8 = bytes[2];
        let msg_length: u32 = bytes[3] as u32 + bytes[4] as u32 * 0x100 + bytes[5] as u32
            * 0x10000;
        Ok(Self { extension_type, msg_type, msg_length })
    }

    /// Encode the header as the six bytes `from_bytes` reads.
    pub fn to_bytes(&self) -> (r: Vec<u8>)
        requires
            self.wf(),
        ensures
            r@ == spec_encode(*self),
            r@.len() == 6,
    {
        let mut out: Vec<u8> = Vec::new();
        out.push((self.extension_type % 0x100) as u8);
        out.push((self.extension_type / 0x100) as u8);
        out.push(self.msg_type);
        out.push((self.msg_length % 0x100) as u8);
        out.push(((self.msg_length / 0x100) % 0x100) as u8);
        out.push(((self.msg_length / 0x10000) % 0x100) as u8);
        proof {
            assert(out@ =~= spec_encode(*self));
        }
        out
    }

    /// The message length, as a count of payload bytes.
    pub fn len(&self) -> (r: usize)
        ensures
            r == self.msg_length,
    {
        self.msg_length as usize
    }

    /// Build a header for a payload of `len` bytes; defined only when the
    /// length fits in 24 bits.
    pub fn from_len(len: u32, message_type: u8, extension_type: u16) -> (r: Option<Header>)
        ensures
            len < 0x1000000 ==> (r matches Some(h) && h == (Header {
                extension_type,
                msg_type: message_type,
                msg_length: len,
            })),
            len >= 0x1000000 ==> r is None,
    {
        if len < 0x1000000 {
            Some(Self { extension_type, msg_type: message_type, msg_length: len })
        } else {
            None
        }
    }

    /// The message type tag.
    pub fn msg_type(&self) -> (r: u8)
        ensures
            r == self.msg_type,
    {
        self.msg_type
    }

    /// A header designates a channel message exactly when at most the low
    /// bit of its extension type is set.
    pub fn channel_msg(&self) -> (r: bool)
        ensures
            r == (self.extension_type == 0 || self.extension_type == 1),
    {
        let mask: u16 = 0b0000_0000_0000_0001;
        let r = self.extension_type & mask == self.extension_type;
        proof {
            let x = self.extension_type;
            assert((x & 1 == x) == (x == 0 || x == 1)) by (bit_vector);
        }
        r
    }
}

impl Default for Header {
    /// The all-zero header.
    fn default() -> (r: Self)
        ensures
            r.extension_type == 0,
            r.msg_type == 0,
            r.msg_length == 0,
    {
        Header { extension_type: 0, msg_type: 0, msg_length: 0 }
    }
}

/// Encoding then decoding a well-formed header gives the header back.
pub proof fn lemma_header_round_trip(h: Header)
    requires
        h.wf(),
    ensures
        spec_decode(spec_encode(h)) == h,
{
    let e = h.extension_type;
    let l = h.msg_length;
    assert(e % 0x100 + (e / 0x100) * 0x100 == e) by (bit_vector);
    assert(l < 0x1000000 ==> l % 0x100 + ((l / 0x100) % 0x100) * 0x100 + ((l / 0x10000) % 0x100)
        * 0x10000 == l) by (bit_vector);
    assert(spec_decode(spec_encode(h)) =~= h);
}

/// Layout of the header that frames the Noise handshake transport: a
/// two-byte length at the start of each frame.
pub struct NoiseHeader {}

impl NoiseHeader {
    /// Relies on `const_sv2::NOISE_FRAME_HEADER_SIZE`: the Noise frame
    /// header is two bytes long.
    #[verifier::external_body]
    pub fn size() -> (r: usize)
        ensures
            r == 2,
    {
        const_sv2::NOISE_FRAME_HEADER_SIZE
    }

    /// Relies on `const_sv2::NOISE_FRAME_HEADER_LEN_OFFSET`: the length
    /// field starts at the first byte.
    #[verifier::external_body]
    pub fn len_offset() -> (r: usize)
        ensures
            r == 0,
    {
        const_sv2::NOISE_FRAME_HEADER_LEN_OFFSET
    }

    /// One past the last byte of the Noise length field.
    pub fn len_end() -> (r: usize)
        ensures
            r == 2,
    {
        Self::len_offset() + 2
    }
}

} // verus!
