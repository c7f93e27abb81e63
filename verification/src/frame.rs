//! The fixed 48-byte little-endian output frame.
//!
//! The downstream consumer expects, per sample, 24 reserved zero bytes
//! followed by three 8-byte little-endian words carrying the orientation
//! angles' bit patterns. The shell around the library obtains each word from
//! the raw angle value and sends the finished frame.

use vstd::prelude::*;

verus! {

/// Byte `j` (little-endian, `j < 8`) of the 64-bit word `x`.
pub open spec fn le_byte(x: u64, j: u64) -> u8 {
    ((x >> (8 * j)) & 0xff) as u8
}

/// Whether `s` holds the eight little-endian bytes of `x` starting at `off`.
pub open spec fn holds_le_word(s: Seq<u8>, off: int, x: u64) -> bool {
    &&& s[off + 0] == le_byte(x, 0)
    &&& s[off + 1] == le_byte(x, 1)
    &&& s[off + 2] == le_byte(x, 2)
    &&& s[off + 3] == le_byte(x, 3)
    &&& s[off + 4] == le_byte(x, 4)
    &&& s[off + 5] == le_byte(x, 5)
    &&& s[off + 6] == le_byte(x, 6)
    &&& s[off + 7] == le_byte(x, 7)
}

/// Builds the 48-byte frame: 24 zero bytes, then the three words `a`, `b`
/// and `c`, each as 8 little-endian bytes.
pub fn encode_frame(a: u64, b: u64, c: u64) -> (r: Vec<u8>)
    ensures
        r@.len() == 48,
        forall|i: int| 0 <= i < 24 ==> r@[i] == 0u8,
        holds_le_word(r@, 24, a),
        holds_le_word(r@, 32, b),
        holds_le_word(r@, 40, c),
{
    let mut out: Vec<u8> = Vec::new();
    let mut i: usize = 0;
    while i < 24
        invariant
            out@.len() == i,
            i <= 24,
            forall|k: int| 0 <= k < i ==> out@[k] == 0u8,
        decreases 24 - i,
    {
        out.push(0u8);
        i = i + 1;
    }
    push_le_word(&mut out, a);
    push_le_word(&mut out, b);
    push_le_word(&mut out, c);
    out
}

/// Appends the eight little-endian bytes of `x`.
fn push_le_word(out: &mut Vec<u8>, x: u64)
    ensures
        final(out)@.len() == old(out)@.len() + 8,
        forall|k: int| 0 <= k < old(out)@.len() ==> final(out)@[k] == old(out)@[k],
        holds_le_word(final(out)@, old(out)@.len() as int, x),
{
    proof {
        assert((x >> 0) & 0xff < 256 && (x >> 8) & 0xff < 256 && (x >> 16) & 0xff < 256
            && (x >> 24) & 0xff < 256 && (x >> 32) & 0xff < 256 && (x >> 40) & 0xff < 256
            && (x >> 48) & 0xff < 256 && (x >> 56) & 0xff < 256) by (bit_vector);
    }
    out.push(((x >> 0) & 0xff) as u8);
    out.push(((x >> 8) & 0xff) as u8);
    out.push(((x >> 16) & 0xff) as u8);
    out.push(((x >> 24) & 0xff) as u8);
    out.push(((x >> 32) & 0xff) as u8);
    out.push(((x >> 40) & 0xff) as u8);
    out.push(((x >> 48) & 0xff) as u8);
    out.push(((x >> 56) & 0xff) as u8);
}

} // verus!
