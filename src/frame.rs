//! The two frame shapes: a query, which asks the device for a report, and a
//! settings write, whose payload is a run of checksummed one-byte fields.

use vstd::prelude::*;
use crate::checksum::{
    checksum, checksum_of, frame_valid, lemma_sealed_frame_valid, seal, sealed, CHECKSUM_BASE,
    FRAME_HEADER, FRAME_LEN,
};

verus! {

/// Opcode byte of a write frame.
pub const WRITE_FAMILY: u8 = 0x07;

/// Opcode byte of a settings query frame.
pub const READ_FAMILY: u8 = 0x08;

/// Bytes before the payload: header, family, two reserved bytes, report id
/// and payload length.
pub const PREFIX_LEN: usize = 6;

/// Most one-byte fields that fit a write frame.
pub const MAX_FIELDS: usize = 5;

pub open spec fn zeros(n: nat) -> Seq<u8> {
    Seq::new(n, |i: int| 0u8)
}

/// A value followed by its own checksum against the field base.
pub open spec fn field(v: u8) -> Seq<u8> {
    seq![v, checksum_of(seq![v], CHECKSUM_BASE)]
}

/// The fields of the values, in order.
pub open spec fn fields_of(values: Seq<u8>) -> Seq<u8>
    decreases values.len(),
{
    if values.len() == 0 {
        Seq::empty()
    } else {
        fields_of(values.drop_last()) + field(values.last())
    }
}

/// A query: header, family, reserved bytes, report id and length, zeros, and
/// the trailing checksum.
pub open spec fn query_of(family: u8, report_id: u8, len: u8) -> Seq<u8> {
    sealed(seq![FRAME_HEADER, family, 0u8, 0u8, report_id, len] + zeros(10))
}

/// A settings write: the prefix, one field per value, zeros up to 16 bytes,
/// and the trailing checksum.
pub open spec fn write_of(report_id: u8, values: Seq<u8>) -> Seq<u8> {
    sealed(
        seq![FRAME_HEADER, WRITE_FAMILY, 0u8, 0u8, report_id, (2 * values.len()) as u8]
            + fields_of(values) + zeros((10 - 2 * values.len()) as nat),
    )
}

proof fn lemma_fields_len(values: Seq<u8>)
    ensures
        fields_of(values).len() == 2 * values.len(),
    decreases values.len(),
{
    if values.len() > 0 {
        lemma_fields_len(values.drop_last());
    }
}

/// Appends zeros until the frame holds `to` bytes.
fn pad_zeros(frame: &mut Vec<u8>, to: usize)
    requires
        old(frame)@.len() <= to,
    ensures
        final(frame)@ == old(frame)@ + zeros((to - old(frame)@.len()) as nat),
{
    let ghost start = frame@;
    while frame.len() < to
        invariant
            start.len() <= frame@.len() <= to,
            frame@ == start + zeros((frame@.len() - start.len()) as nat),
        decreases to - frame@.len(),
    {
        frame.push(0);
        assert(frame@ =~= start + zeros((frame@.len() - start.len()) as nat));
    }
}

/// The query frame for `report_id` in `family`.
pub fn query_frame(family: u8, report_id: u8, len: u8) -> (r: Vec<u8>)
    ensures
        r@ == query_of(family, report_id, len),
        frame_valid(r@),
{
    let mut frame = vec![FRAME_HEADER, family, 0x00, 0x00, report_id, len];
    pad_zeros(&mut frame, FRAME_LEN - 1);
    proof {
        lemma_sealed_frame_valid(frame@);
    }
    seal(&mut frame);
    frame
}

/// The settings write for `report_id` carrying `values`, each with its own
/// checksum.
pub fn write_frame(report_id: u8, values: &[u8]) -> (r: Vec<u8>)
    requires
        values@.len() <= MAX_FIELDS,
    ensures
        r@ == write_of(report_id, values@),
        frame_valid(r@),
{
    let ghost prefix = seq![
        FRAME_HEADER,
        WRITE_FAMILY,
        0u8,
        0u8,
        report_id,
        (2 * values@.len()) as u8,
    ];
    let mut frame = vec![
        FRAME_HEADER,
        WRITE_FAMILY,
        0x00,
        0x00,
        report_id,
        (2 * values.len()) as u8,
    ];
    let mut i: usize = 0;
    while i < values.len()
        invariant
            i <= values@.len() <= MAX_FIELDS,
            frame@ == prefix + fields_of(values@.take(i as int)),
        decreases values.len() - i,
    {
        let v = values[i];
        let one = [v];
        proof {
            assert(one@ =~= seq![v]);
        }
        let c = checksum(&one, CHECKSUM_BASE);
        frame.push(v);
        frame.push(c);
        proof {
            assert(values@.take(i + 1).drop_last() =~= values@.take(i as int));
            assert(frame@ =~= prefix + fields_of(values@.take(i + 1)));
        }
        i += 1;
    }
    proof {
        assert(values@.take(i as int) =~= values@);
        lemma_fields_len(values@);
    }
    pad_zeros(&mut frame, FRAME_LEN - 1);
    proof {
        assert(frame@ =~= prefix + fields_of(values@) + zeros((10 - 2 * values@.len()) as nat));
        lemma_sealed_frame_valid(frame@);
    }
    seal(&mut frame);
    frame
}

} // verus!
