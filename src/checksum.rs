//! The modular-subtraction checksum shared by every frame kind, and the shape
//! of a well-formed frame.

use vstd::prelude::*;
use vstd::arithmetic::div_mod::{lemma_add_mod_noop, lemma_sub_mod_noop, lemma_small_mod};

verus! {

/// Number of bytes in every frame exchanged with the device.
pub const FRAME_LEN: usize = 17;

/// Byte 0 of every frame ("command container").
pub const FRAME_HEADER: u8 = 0x08;

/// The value that the bytes of a sealed frame, or of a sealed field, add up to.
pub const CHECKSUM_BASE: u8 = 0x55;

/// Sum of the bytes, as an unbounded integer.
pub open spec fn byte_sum(s: Seq<u8>) -> int
    decreases s.len(),
{
    if s.len() == 0 {
        0
    } else {
        byte_sum(s.drop_last()) + s.last()
    }
}

/// `base - sum(s)`, wrapped to a byte.
pub open spec fn checksum_of(s: Seq<u8>, base: u8) -> u8 {
    ((base - byte_sum(s)) % 256) as u8
}

/// The bytes add up to `base` modulo 256.
pub open spec fn balanced(s: Seq<u8>, base: u8) -> bool {
    byte_sum(s) % 256 == base as int
}

/// `s` followed by its checksum against the frame base.
pub open spec fn sealed(s: Seq<u8>) -> Seq<u8> {
    s.push(checksum_of(s, CHECKSUM_BASE))
}

/// A well-formed frame: 17 bytes, the fixed header, and all bytes together
/// add up to the frame base.
pub open spec fn frame_valid(f: Seq<u8>) -> bool {
    &&& f.len() == FRAME_LEN
    &&& f[0] == FRAME_HEADER
    &&& balanced(f, CHECKSUM_BASE)
}

/// `checksum(bytes, base) = base - sum(bytes)`, with wraparound.
pub fn checksum(bytes: &[u8], base: u8) -> (r: u8)
    ensures
        r == checksum_of(bytes@, base),
{
    let mut acc: u8 = base;
    let mut i: usize = 0;
    proof {
        lemma_small_mod(base as nat, 256);
    }
    while i < bytes.len()
        invariant
            i <= bytes@.len(),
            acc == checksum_of(bytes@.take(i as int), base),
        decreases bytes.len() - i,
    {
        let b = bytes[i];
        proof {
            let s = bytes@.take(i as int);
            assert(bytes@.take(i + 1).drop_last() =~= s);
            lemma_sub_mod_noop(base - byte_sum(s), b as int, 256);
            lemma_small_mod(b as nat, 256);
        }
        acc = acc.wrapping_sub(b);
        i += 1;
    }
    assert(bytes@.take(i as int) =~= bytes@);
    acc
}

/// Appends to a 16-byte frame body the trailing checksum against the frame base.
pub fn seal(frame: &mut Vec<u8>)
    requires
        old(frame)@.len() == FRAME_LEN - 1,
    ensures
        final(frame)@ == sealed(old(frame)@),
{
    let c = checksum(frame.as_slice(), CHECKSUM_BASE);
    frame.push(c);
}

/// Bytes followed by their own checksum add up to the base.
pub proof fn lemma_checksum_balances(s: Seq<u8>, base: u8)
    ensures
        balanced(s.push(checksum_of(s, base)), base),
{
    let c = checksum_of(s, base);
    assert(s.push(c).drop_last() =~= s);
    lemma_add_mod_noop(byte_sum(s), base - byte_sum(s), 256);
    lemma_small_mod(base as nat, 256);
}

/// A single field byte `b` with its checksum `c` against `base` satisfies
/// `base - b - c == 0` modulo 256.
pub proof fn lemma_field_checksum(b: u8, base: u8)
    ensures
        checksum_of(seq![b], base) as int == (base - b) % 256,
        (base - b - checksum_of(seq![b], base)) % 256 == 0,
{
    let s = seq![b];
    assert(s.drop_last() =~= Seq::<u8>::empty());
    assert(byte_sum(Seq::<u8>::empty()) == 0);
    assert(byte_sum(s) == b);
    let d = base - b;
    lemma_sub_mod_noop(d, d % 256, 256);
    lemma_small_mod(0, 256);
    vstd::arithmetic::div_mod::lemma_mod_twice(d, 256);
}

/// Sealing a 16-byte body that starts with the header gives a well-formed frame.
pub proof fn lemma_sealed_frame_valid(body: Seq<u8>)
    requires
        body.len() == FRAME_LEN - 1,
        body[0] == FRAME_HEADER,
    ensures
        frame_valid(sealed(body)),
{
    lemma_checksum_balances(body, CHECKSUM_BASE);
}

} // verus!
