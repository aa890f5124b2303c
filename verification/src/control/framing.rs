//! Framing of commands on the control socket: a four-byte big-endian length
//! followed by that many bytes of serialised command.
use vstd::prelude::*;

verus! {

/// Number of distinct lengths the header can carry.
pub open spec fn header_modulus() -> nat {
    4294967296
}

/// The value of four bytes read as a big-endian unsigned number.
pub open spec fn be_value(b: Seq<u8>) -> nat
    recommends
        b.len() == 4,
{
    (b[0] as nat) * 16777216 + (b[1] as nat) * 65536 + (b[2] as nat) * 256 + (b[3] as nat)
}

/// The four big-endian bytes of a number below `header_modulus()`.
pub open spec fn be_bytes(n: nat) -> Seq<u8>
    recommends
        n < header_modulus(),
{
    seq![(n / 16777216) as u8, ((n / 65536) % 256) as u8, ((n / 256) % 256) as u8, (n % 256) as u8]
}

/// A payload framed for the control socket. The header holds the payload's
/// length cut to 32 bits, as `len as u32` does.
pub open spec fn framed(payload: Seq<u8>) -> Seq<u8> {
    be_bytes(payload.len() % header_modulus()) + payload
}

/// The frame that carries `payload` on the control socket.
pub fn encode_frame(payload: &Vec<u8>) -> (r: Vec<u8>)
    ensures
        r@ == framed(payload@),
{
    let n: u64 = (payload.len() as u64) % 4294967296;
    let mut r: Vec<u8> = Vec::new();
    r.push((n / 16777216) as u8);
    r.push(((n / 65536) % 256) as u8);
    r.push(((n / 256) % 256) as u8);
    r.push((n % 256) as u8);
    let mut i: usize = 0;
    while i < payload.len()
        invariant
            i <= payload@.len(),
            r@ == be_bytes(payload@.len() % header_modulus()) + payload@.subrange(0, i as int),
        decreases payload@.len() - i,
    {
        r.push(payload[i]);
        i = i + 1;
        assert(r@ =~= be_bytes(payload@.len() % header_modulus()) + payload@.subrange(0, i as int));
    }
    assert(payload@.subrange(0, payload@.len() as int) =~= payload@);
    r
}

/// The payload length announced by a frame header (`u32::from_be_bytes`).
pub fn payload_length(header: &[u8; 4]) -> (r: u32)
    ensures
        r == be_value(header@),
{
    (header[0] as u32) * 16777216 + (header[1] as u32) * 65536 + (header[2] as u32) * 256
        + (header[3] as u32)
}

/// Reading a frame's header gives back the payload's length, and the payload
/// follows the header unchanged, for every payload shorter than 2^32 bytes.
pub proof fn frame_round_trip(payload: Seq<u8>)
    requires
        payload.len() < header_modulus(),
    ensures
        framed(payload).len() == payload.len() + 4,
        be_value(framed(payload).subrange(0, 4)) == payload.len(),
        framed(payload).subrange(4, framed(payload).len() as int) == payload,
{
    let n: nat = payload.len();
    let f = framed(payload);
    assert(f.subrange(4, f.len() as int) =~= payload);
    let h = f.subrange(0, 4);
    assert(h[0] as nat == n / 16777216);
    assert(h[1] as nat == (n / 65536) % 256);
    assert(h[2] as nat == (n / 256) % 256);
    assert(h[3] as nat == n % 256);
    assert((n / 16777216) * 16777216 + ((n / 65536) % 256) * 65536 + ((n / 256) % 256) * 256 + n
        % 256 == n) by (nonlinear_arith)
        requires
            n < 4294967296,
    ;
}

} // verus!
