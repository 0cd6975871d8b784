use vstd::prelude::*;

verus! {

/// The fixed-width length prefix that precedes every frame body on the
/// wire: an unsigned 64-bit body length, big-endian.  The header counts
/// only the body, never itself.
pub type Header = [u8; 8];

/// Number of bytes in a frame header.
pub const HEADER_LEN: usize = 8;

/// The big-endian bytes of a 64-bit body length, most significant first.
/// The byte order is fixed by the protocol, not by the host.
pub open spec fn encode_spec(n: u64) -> Seq<u8> {
    seq![
        (n >> 56) as u8,
        (n >> 48) as u8,
        (n >> 40) as u8,
        (n >> 32) as u8,
        (n >> 24) as u8,
        (n >> 16) as u8,
        (n >> 8) as u8,
        n as u8,
    ]
}

/// The body length that an 8-byte header denotes, reading the bytes as a
/// big-endian unsigned 64-bit integer.  Total: every bit pattern denotes
/// some length.
pub open spec fn decode_spec(h: Seq<u8>) -> u64
    recommends
        h.len() == 8,
{
    ((h[0] as u64) << 56) | ((h[1] as u64) << 48) | ((h[2] as u64) << 40) | ((h[3] as u64) << 32)
        | ((h[4] as u64) << 24) | ((h[5] as u64) << 16) | ((h[6] as u64) << 8) | (h[7] as u64)
}

/// Header codec bijection: decoding inverts encoding for every
/// representable body length.
pub proof fn lemma_header_bijection(n: u64)
    ensures
        decode_spec(encode_spec(n)) == n,
{
    assert((((((n >> 56) as u8) as u64) << 56) | ((((n >> 48) as u8) as u64) << 48) | ((((n
        >> 40) as u8) as u64) << 40) | ((((n >> 32) as u8) as u64) << 32) | ((((n >> 24) as u8)
        as u64) << 24) | ((((n >> 16) as u8) as u64) << 16) | ((((n >> 8) as u8) as u64) << 8) | ((
    n as u8) as u64)) == n) by (bit_vector);
}

/// Build the header for a body: its length, encoded big-endian.
pub fn header(data_buf: &[u8]) -> (h: Header)
    ensures
        h@ == encode_spec(data_buf@.len() as u64),
{
    let n: u64 = data_buf.len() as u64;
    let h: Header = [
        #[verifier::truncate] ((n >> 56) as u8),
        #[verifier::truncate] ((n >> 48) as u8),
        #[verifier::truncate] ((n >> 40) as u8),
        #[verifier::truncate] ((n >> 32) as u8),
        #[verifier::truncate] ((n >> 24) as u8),
        #[verifier::truncate] ((n >> 16) as u8),
        #[verifier::truncate] ((n >> 8) as u8),
        #[verifier::truncate] (n as u8),
    ];
    proof {
        assert(h@ =~= encode_spec(data_buf@.len() as u64));
    }
    h
}

/// Read the body length a header declares.
pub fn header_len(header: &Header) -> (n: u64)
    ensures
        n == decode_spec(header@),
{
    ((header[0] as u64) << 56) | ((header[1] as u64) << 48) | ((header[2] as u64) << 40) | ((
    header[3] as u64) << 32) | ((header[4] as u64) << 24) | ((header[5] as u64) << 16) | ((
    header[6] as u64) << 8) | (header[7] as u64)
}

} // verus!
