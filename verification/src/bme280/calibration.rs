//! The factory calibration that every BME280 carries.

use crate::bytes::{i12_from_parts, i16_from_le, i8_from_byte, u16_from_le};
use vstd::prelude::*;

verus! {

/// Factory trimming parameters, named as in the BME280 datasheet.
#[derive(Debug, Clone, Copy, PartialEq, Eq, Structural)]
pub struct Bme280Calibration {
    pub t1: u16,
    pub t2: i16,
    pub t3: i16,
    pub p1: u16,
    pub p2: i16,
    pub p3: i16,
    pub p4: i16,
    pub p5: i16,
    pub p6: i16,
    pub p7: i16,
    pub p8: i16,
    pub p9: i16,
    pub h1: u8,
    pub h2: i16,
    pub h3: u8,
    pub h4: i16,
    pub h5: i16,
    pub h6: i8,
}

/// The unsigned parameter at offset `i` of a register block.
pub open spec fn unsigned_at(block: Seq<u8>, i: int) -> u16 {
    crate::bytes::le_word(block[i], block[i + 1]) as u16
}

/// The signed parameter at offset `i` of a register block.
pub open spec fn signed_at(block: Seq<u8>, i: int) -> i16 {
    crate::bytes::le_signed_word(block[i], block[i + 1]) as i16
}

/// The calibration that the register blocks at 0x88 (`tp`) and 0xE1 (`h`)
/// hold. The parameters `h4` and `h5` are 12-bit numbers that share the byte
/// `h[4]`: its low nibble ends `h4`, its high nibble ends `h5`.
pub open spec fn calibration_in(tp: Seq<u8>, h: Seq<u8>) -> Bme280Calibration {
    Bme280Calibration {
        t1: unsigned_at(tp, 0),
        t2: signed_at(tp, 2),
        t3: signed_at(tp, 4),
        p1: unsigned_at(tp, 6),
        p2: signed_at(tp, 8),
        p3: signed_at(tp, 10),
        p4: signed_at(tp, 12),
        p5: signed_at(tp, 14),
        p6: signed_at(tp, 16),
        p7: signed_at(tp, 18),
        p8: signed_at(tp, 20),
        p9: signed_at(tp, 22),
        h1: tp[25],
        h2: signed_at(h, 0),
        h3: h[2],
        h4: crate::bytes::signed_12_bit(h[3], h[4] as int % 16) as i16,
        h5: crate::bytes::signed_12_bit(h[5], h[4] as int / 16) as i16,
        h6: crate::bytes::twos_complement(h[6] as int, 0x100) as i8,
    }
}

impl Bme280Calibration {
    /// Reads the calibration out of the register blocks at 0x88 (`tp`) and
    /// 0xE1 (`h`).
    pub fn parse(tp: &[u8; 26], h: &[u8; 7]) -> (calibration: Self)
        ensures
            calibration == calibration_in(tp@, h@),
            calibration.h4 == crate::bytes::signed_12_bit(h@[3], h@[4] as int % 16),
            calibration.h5 == crate::bytes::signed_12_bit(h@[5], h@[4] as int / 16),
            calibration.t1 == tp@[0] + 256 * tp@[1],
            (calibration.t2 - (tp@[2] + 256 * tp@[3])) % 0x1_0000 == 0,
            (calibration.t3 - (tp@[4] + 256 * tp@[5])) % 0x1_0000 == 0,
            calibration.p1 == tp@[6] + 256 * tp@[7],
            (calibration.p2 - (tp@[8] + 256 * tp@[9])) % 0x1_0000 == 0,
            (calibration.p3 - (tp@[10] + 256 * tp@[11])) % 0x1_0000 == 0,
            (calibration.p4 - (tp@[12] + 256 * tp@[13])) % 0x1_0000 == 0,
            (calibration.p5 - (tp@[14] + 256 * tp@[15])) % 0x1_0000 == 0,
            (calibration.p6 - (tp@[16] + 256 * tp@[17])) % 0x1_0000 == 0,
            (calibration.p7 - (tp@[18] + 256 * tp@[19])) % 0x1_0000 == 0,
            (calibration.p8 - (tp@[20] + 256 * tp@[21])) % 0x1_0000 == 0,
            (calibration.p9 - (tp@[22] + 256 * tp@[23])) % 0x1_0000 == 0,
            calibration.h1 == tp@[25],
            (calibration.h2 - (h@[0] + 256 * h@[1])) % 0x1_0000 == 0,
            calibration.h3 == h@[2],
            -2048 <= calibration.h4 < 2048,
            (calibration.h4 - (16 * h@[3] + h@[4] as int % 16)) % 0x1000 == 0,
            -2048 <= calibration.h5 < 2048,
            (calibration.h5 - (16 * h@[5] + h@[4] as int / 16)) % 0x1000 == 0,
            (calibration.h6 - h@[6]) % 0x100 == 0,
    {
        proof {
            law_calibration_fields(tp@, h@);
        }
        let shared: u8 = h[4];
        assert(shared & 0x0F == shared % 16 && shared >> 4 == shared / 16) by (bit_vector);
        Self {
            t1: u16_from_le(tp[0], tp[1]),
            t2: i16_from_le(tp[2], tp[3]),
            t3: i16_from_le(tp[4], tp[5]),
            p1: u16_from_le(tp[6], tp[7]),
            p2: i16_from_le(tp[8], tp[9]),
            p3: i16_from_le(tp[10], tp[11]),
            p4: i16_from_le(tp[12], tp[13]),
            p5: i16_from_le(tp[14], tp[15]),
            p6: i16_from_le(tp[16], tp[17]),
            p7: i16_from_le(tp[18], tp[19]),
            p8: i16_from_le(tp[20], tp[21]),
            p9: i16_from_le(tp[22], tp[23]),
            h1: tp[25],
            h2: i16_from_le(h[0], h[1]),
            h3: h[2],
            h4: i12_from_parts(h[3], shared & 0x0F),
            h5: i12_from_parts(h[5], shared >> 4),
            h6: i8_from_byte(h[6]),
        }
    }
}

/// The calibration loses nothing of the two register blocks but the byte at
/// 0xA0, which is not part of it: two images give the same calibration if and
/// only if they agree on all other bytes.
pub proof fn law_calibration_is_faithful(tp1: Seq<u8>, h1: Seq<u8>, tp2: Seq<u8>, h2: Seq<u8>)
    requires
        tp1.len() == 26,
        h1.len() == 7,
        tp2.len() == 26,
        h2.len() == 7,
    ensures
        calibration_in(tp1, h1) == calibration_in(tp2, h2) <==> {
            &&& forall|i: int| 0 <= i < 26 && i != 24 ==> tp1[i] == tp2[i]
            &&& h1 == h2
        },
{
    if calibration_in(tp1, h1) == calibration_in(tp2, h2) {
        lemma_tp_is_recovered(tp1, h1, tp2, h2);
        lemma_h_is_recovered(tp1, h1, tp2, h2);
    }
}

/// The calibration determines the register block at 0x88, up to the byte at
/// 0xA0.
proof fn lemma_tp_is_recovered(tp1: Seq<u8>, h1: Seq<u8>, tp2: Seq<u8>, h2: Seq<u8>)
    requires
        calibration_in(tp1, h1) == calibration_in(tp2, h2),
    ensures
        forall|i: int| 0 <= i < 26 && i != 24 ==> tp1[i] == tp2[i],
{
    lemma_unsigned_at_is_faithful(tp1, tp2, 0);
    lemma_signed_at_is_faithful(tp1, tp2, 2);
    lemma_signed_at_is_faithful(tp1, tp2, 4);
    lemma_unsigned_at_is_faithful(tp1, tp2, 6);
    lemma_signed_at_is_faithful(tp1, tp2, 8);
    lemma_signed_at_is_faithful(tp1, tp2, 10);
    lemma_signed_at_is_faithful(tp1, tp2, 12);
    lemma_signed_at_is_faithful(tp1, tp2, 14);
    lemma_signed_at_is_faithful(tp1, tp2, 16);
    lemma_signed_at_is_faithful(tp1, tp2, 18);
    lemma_signed_at_is_faithful(tp1, tp2, 20);
    lemma_signed_at_is_faithful(tp1, tp2, 22);
}

/// The calibration determines the register block at 0xE1.
proof fn lemma_h_is_recovered(tp1: Seq<u8>, h1: Seq<u8>, tp2: Seq<u8>, h2: Seq<u8>)
    requires
        h1.len() == 7,
        h2.len() == 7,
        calibration_in(tp1, h1) == calibration_in(tp2, h2),
    ensures
        h1 == h2,
{
    lemma_signed_at_is_faithful(h1, h2, 0);
    lemma_12_bit_is_faithful(h1[3], h1[4] as int % 16, h2[3], h2[4] as int % 16);
    lemma_12_bit_is_faithful(h1[5], h1[4] as int / 16, h2[5], h2[4] as int / 16);
    assert(h1[4] == h2[4]);
    assert(h1[6] == h2[6]) by {
        assert(calibration_in(tp1, h1).h6 == calibration_in(tp2, h2).h6);
    }
    assert(h1 =~= h2);
}

proof fn lemma_unsigned_at_is_faithful(block1: Seq<u8>, block2: Seq<u8>, i: int)
    requires
        unsigned_at(block1, i) == unsigned_at(block2, i),
    ensures
        block1[i] == block2[i],
        block1[i + 1] == block2[i + 1],
{
}

proof fn lemma_signed_at_is_faithful(block1: Seq<u8>, block2: Seq<u8>, i: int)
    requires
        signed_at(block1, i) == signed_at(block2, i),
    ensures
        block1[i] == block2[i],
        block1[i + 1] == block2[i + 1],
{
}

proof fn lemma_12_bit_is_faithful(high1: u8, nibble1: int, high2: u8, nibble2: int)
    requires
        0 <= nibble1 < 16,
        0 <= nibble2 < 16,
        crate::bytes::signed_12_bit(high1, nibble1) as i16 == crate::bytes::signed_12_bit(
            high2,
            nibble2,
        ) as i16,
    ensures
        high1 == high2,
        nibble1 == nibble2,
{
}

/// Each parameter comes from its own bytes. Unsigned ones are what their bytes
/// count; a signed one is the number of its range that is congruent to it.
pub proof fn law_calibration_fields(tp: Seq<u8>, h: Seq<u8>)
    ensures
        ({
            let c = calibration_in(tp, h);
            &&& c.t1 == tp[0] + 256 * tp[1]
            &&& (c.t2 - (tp[2] + 256 * tp[3])) % 0x1_0000 == 0
            &&& (c.t3 - (tp[4] + 256 * tp[5])) % 0x1_0000 == 0
            &&& c.p1 == tp[6] + 256 * tp[7]
            &&& (c.p2 - (tp[8] + 256 * tp[9])) % 0x1_0000 == 0
            &&& (c.p3 - (tp[10] + 256 * tp[11])) % 0x1_0000 == 0
            &&& (c.p4 - (tp[12] + 256 * tp[13])) % 0x1_0000 == 0
            &&& (c.p5 - (tp[14] + 256 * tp[15])) % 0x1_0000 == 0
            &&& (c.p6 - (tp[16] + 256 * tp[17])) % 0x1_0000 == 0
            &&& (c.p7 - (tp[18] + 256 * tp[19])) % 0x1_0000 == 0
            &&& (c.p8 - (tp[20] + 256 * tp[21])) % 0x1_0000 == 0
            &&& (c.p9 - (tp[22] + 256 * tp[23])) % 0x1_0000 == 0
            &&& c.h1 == tp[25]
            &&& (c.h2 - (h[0] + 256 * h[1])) % 0x1_0000 == 0
            &&& c.h3 == h[2]
            &&& -2048 <= c.h4 < 2048
            &&& (c.h4 - (16 * h[3] + h[4] as int % 16)) % 0x1000 == 0
            &&& -2048 <= c.h5 < 2048
            &&& (c.h5 - (16 * h[5] + h[4] as int / 16)) % 0x1000 == 0
            &&& (c.h6 - h[6]) % 0x100 == 0
        }),
{
}

} // verus!
