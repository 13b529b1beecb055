//! Big-endian 32-bit payload of the timer characteristic.
use vstd::prelude::*;

verus! {

/// Number of bytes in a characteristic payload.
pub const PAYLOAD_LEN: usize = 4;

/// The unsigned value that four bytes denote, most significant byte first.
pub open spec fn be32_value(b: Seq<u8>) -> nat
    recommends
        b.len() == 4,
{
    (b[0] as nat) * 0x100_0000 + (b[1] as nat) * 0x1_0000 + (b[2] as nat) * 0x100 + (b[3] as nat)
}

/// The four bytes of `v`, most significant byte first.
pub open spec fn be32_bytes(v: u32) -> Seq<u8> {
    seq![
        (v / 0x100_0000) as u8,
        ((v / 0x1_0000) % 0x100) as u8,
        ((v / 0x100) % 0x100) as u8,
        (v % 0x100) as u8,
    ]
}

/// Decoding the encoding of a value gives the value back.
pub proof fn lemma_decode_encode(v: u32)
    ensures
        be32_bytes(v).len() == 4,
        be32_value(be32_bytes(v)) == v as nat,
{
    let b = be32_bytes(v);
    assert(b[0] as nat == v as nat / 0x100_0000);
    assert(b[1] as nat == (v as nat / 0x1_0000) % 0x100);
    assert(b[2] as nat == (v as nat / 0x100) % 0x100);
    assert(b[3] as nat == v as nat % 0x100);
    assert(be32_value(b) == v as nat) by (nonlinear_arith)
        requires
            b[0] as nat == v as nat / 0x100_0000,
            b[1] as nat == (v as nat / 0x1_0000) % 0x100,
            b[2] as nat == (v as nat / 0x100) % 0x100,
            b[3] as nat == v as nat % 0x100,
            be32_value(b) == (b[0] as nat) * 0x100_0000 + (b[1] as nat) * 0x1_0000
                + (b[2] as nat) * 0x100 + (b[3] as nat),
            v < 0x1_0000_0000,
    ;
}

/// Four bytes denote a value below 2^32, and encoding that value gives the
/// same four bytes back.
pub proof fn lemma_encode_decode(b: Seq<u8>)
    requires
        b.len() == 4,
    ensures
        be32_value(b) < 0x1_0000_0000,
        be32_bytes(be32_value(b) as u32) =~= b,
{
    let v = be32_value(b);
    let b0 = b[0] as nat;
    let b1 = b[1] as nat;
    let b2 = b[2] as nat;
    let b3 = b[3] as nat;
    assert(v < 0x1_0000_0000 && v / 0x100_0000 == b0 && (v / 0x1_0000) % 0x100 == b1 && (v
        / 0x100) % 0x100 == b2 && v % 0x100 == b3) by (nonlinear_arith)
        requires
            b0 < 0x100,
            b1 < 0x100,
            b2 < 0x100,
            b3 < 0x100,
            v == b0 * 0x100_0000 + b1 * 0x1_0000 + b2 * 0x100 + b3,
    ;
}

/// Reads a payload: the big-endian value of `data` when it holds exactly four
/// bytes, and `None` for any other length.
pub fn decode_be32(data: &[u8]) -> (r: Option<u32>)
    ensures
        r.is_some() <==> data@.len() == 4,
        r matches Some(v) ==> v as nat == be32_value(data@),
{
    if data.len() != PAYLOAD_LEN {
        return None;
    }
    let b0 = data[0] as u32;
    let b1 = data[1] as u32;
    let b2 = data[2] as u32;
    let b3 = data[3] as u32;
    proof {
        lemma_encode_decode(data@);
    }
    Some(b0 * 0x100_0000 + b1 * 0x1_0000 + b2 * 0x100 + b3)
}

/// Writes `v` as four bytes, most significant first.
pub fn encode_be32(v: u32) -> (r: [u8; 4])
    ensures
        r@ == be32_bytes(v),
{
    let r = [(v / 0x100_0000) as u8, ((v / 0x1_0000) % 0x100) as u8, ((v / 0x100) % 0x100) as u8, (
    v % 0x100) as u8];
    assert(r@ =~= be32_bytes(v));
    r
}

} // verus!
