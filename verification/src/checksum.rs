//! Table-driven CRC-8 with a caller-supplied initial value.
//!
//! The checksum of a byte sequence is a left fold over the bytes: each byte
//! is xored into an accumulator, and the accumulator is replaced by the table
//! entry it selects. The table itself is the remainder table of the
//! polynomial `x^8 + x^2 + x + 1`, which `lemma_table_is_polynomial` proves
//! entry by entry.

use vstd::prelude::*;

verus! {

/// The lookup table: 256 fixed bytes, indexed by the accumulator.
pub const CRC8_TABLE: [u8; 256] = [
    0, 7, 14, 9, 28, 27, 18, 21, 56, 63, 54, 49, 36, 35, 42, 45,
    112, 119, 126, 121, 108, 107, 98, 101, 72, 79, 70, 65, 84, 83, 90, 93,
    224, 231, 238, 233, 252, 251, 242, 245, 216, 223, 214, 209, 196, 195, 202, 205,
    144, 151, 158, 153, 140, 139, 130, 133, 168, 175, 166, 161, 180, 179, 186, 189,
    199, 192, 201, 206, 219, 220, 213, 210, 255, 248, 241, 246, 227, 228, 237, 234,
    183, 176, 185, 190, 171, 172, 165, 162, 143, 136, 129, 134, 147, 148, 157, 154,
    39, 32, 41, 46, 59, 60, 53, 50, 31, 24, 17, 22, 3, 4, 13, 10,
    87, 80, 89, 94, 75, 76, 69, 66, 111, 104, 97, 102, 115, 116, 125, 122,
    137, 142, 135, 128, 149, 146, 155, 156, 177, 182, 191, 184, 173, 170, 163, 164,
    249, 254, 247, 240, 229, 226, 235, 236, 193, 198, 207, 200, 221, 218, 211, 212,
    105, 110, 103, 96, 117, 114, 123, 124, 81, 86, 95, 88, 77, 74, 67, 68,
    25, 30, 23, 16, 5, 2, 11, 12, 33, 38, 47, 40, 61, 58, 51, 52,
    78, 73, 64, 71, 82, 85, 92, 91, 118, 113, 120, 127, 106, 109, 100, 99,
    62, 57, 48, 55, 34, 37, 44, 43, 6, 1, 8, 15, 26, 29, 20, 19,
    174, 169, 160, 167, 178, 181, 188, 187, 150, 145, 152, 159, 138, 141, 132, 131,
    222, 217, 208, 215, 194, 197, 204, 203, 230, 225, 232, 239, 250, 253, 244, 243,
];

/// The accumulator after one more byte.
pub open spec fn crc8_step(acc: u8, byte: u8) -> u8 {
    CRC8_TABLE@[(acc ^ byte) as int]
}

/// The checksum of `data`, starting from the accumulator `initial`.
pub open spec fn crc8(data: Seq<u8>, initial: u8) -> u8
    decreases data.len(),
{
    if data.len() == 0 {
        initial
    } else {
        crc8_step(crc8(data.drop_last(), initial), data.last())
    }
}

/// One round of polynomial division on a byte: the top bit is shifted out
/// and, if it was set, the polynomial's low byte is subtracted.
pub open spec fn reduce_bit(x: u8) -> u8 {
    if x & 0x80 != 0 {
        (x << 1) ^ 0x07
    } else {
        x << 1
    }
}

/// Eight rounds of division: the remainder of the byte `x`.
#[verifier::opaque]
pub open spec fn reduce_byte(x: u8) -> u8 {
    reduce_bit(
        reduce_bit(reduce_bit(reduce_bit(reduce_bit(reduce_bit(reduce_bit(reduce_bit(x))))))),
    )
}

/// Computes the checksum of `data` with the accumulator seeded by
/// `initial_start`.
pub fn crc8_am(data: &[u8], initial_start: u8) -> (sum: u8)
    ensures
        sum == crc8(data@, initial_start),
        data@.len() == 0 ==> sum == initial_start,
{
    let mut sum = initial_start;
    let mut i: usize = 0;
    while i < data.len()
        invariant
            i <= data.len(),
            sum == crc8(data@.take(i as int), initial_start),
        decreases data.len() - i,
    {
        assert(data@.take(i + 1).drop_last() == data@.take(i as int));
        sum = CRC8_TABLE[(sum ^ data[i]) as usize];
        i += 1;
    }
    assert(data@.take(i as int) == data@);
    sum
}

/// The checksum of no bytes is the initial value.
pub proof fn lemma_crc8_empty(initial: u8)
    ensures
        crc8(Seq::<u8>::empty(), initial) == initial,
{
}

/// Appending one byte advances the checksum by one step.
pub proof fn lemma_crc8_push(data: Seq<u8>, byte: u8, initial: u8)
    ensures
        crc8(data.push(byte), initial) == crc8_step(crc8(data, initial), byte),
{
    assert(data.push(byte).drop_last() == data);
}

/// The checksum of a concatenation is the checksum of the second part,
/// seeded with the checksum of the first: a message can be summed in pieces.
pub proof fn lemma_crc8_concat(front: Seq<u8>, back: Seq<u8>, initial: u8)
    ensures
        crc8(front + back, initial) == crc8(back, crc8(front, initial)),
    decreases back.len(),
{
    if back.len() == 0 {
        assert(front + back == front);
    } else {
        lemma_crc8_concat(front, back.drop_last(), initial);
        assert((front + back).drop_last() == front + back.drop_last());
    }
}

/// A message followed by its own checksum sums to zero, which is how a
/// receiver checks what it was sent.
pub proof fn lemma_crc8_self_check(data: Seq<u8>, initial: u8)
    ensures
        crc8(data.push(crc8(data, initial)), initial) == 0,
{
    let sum = crc8(data, initial);
    lemma_crc8_push(data, sum, initial);
    assert(sum ^ sum == 0) by (bit_vector);
}

/// The remainders of the eight bytes from `first` on are `r0` to `r7`.
pub open spec fn remainders_from(
    first: u8,
    r0: u8,
    r1: u8,
    r2: u8,
    r3: u8,
    r4: u8,
    r5: u8,
    r6: u8,
    r7: u8,
) -> bool {
    &&& reduce_byte(first) == r0
    &&& reduce_byte((first + 1) as u8) == r1
    &&& reduce_byte((first + 2) as u8) == r2
    &&& reduce_byte((first + 3) as u8) == r3
    &&& reduce_byte((first + 4) as u8) == r4
    &&& reduce_byte((first + 5) as u8) == r5
    &&& reduce_byte((first + 6) as u8) == r6
    &&& reduce_byte((first + 7) as u8) == r7
}

/// Every table entry is the remainder of its index after eight rounds of
/// division by the polynomial, so the table holds no stray byte.
pub proof fn lemma_table_is_polynomial(index: u8)
    ensures
        CRC8_TABLE@[index as int] == reduce_byte(index),
{
    assert({
        &&& remainders_from(0, 0, 7, 14, 9, 28, 27, 18, 21)
        &&& remainders_from(8, 56, 63, 54, 49, 36, 35, 42, 45)
        &&& remainders_from(16, 112, 119, 126, 121, 108, 107, 98, 101)
        &&& remainders_from(24, 72, 79, 70, 65, 84, 83, 90, 93)
        &&& remainders_from(32, 224, 231, 238, 233, 252, 251, 242, 245)
        &&& remainders_from(40, 216, 223, 214, 209, 196, 195, 202, 205)
        &&& remainders_from(48, 144, 151, 158, 153, 140, 139, 130, 133)
        &&& remainders_from(56, 168, 175, 166, 161, 180, 179, 186, 189)
        &&& remainders_from(64, 199, 192, 201, 206, 219, 220, 213, 210)
        &&& remainders_from(72, 255, 248, 241, 246, 227, 228, 237, 234)
        &&& remainders_from(80, 183, 176, 185, 190, 171, 172, 165, 162)
        &&& remainders_from(88, 143, 136, 129, 134, 147, 148, 157, 154)
        &&& remainders_from(96, 39, 32, 41, 46, 59, 60, 53, 50)
        &&& remainders_from(104, 31, 24, 17, 22, 3, 4, 13, 10)
        &&& remainders_from(112, 87, 80, 89, 94, 75, 76, 69, 66)
        &&& remainders_from(120, 111, 104, 97, 102, 115, 116, 125, 122)
        &&& remainders_from(128, 137, 142, 135, 128, 149, 146, 155, 156)
        &&& remainders_from(136, 177, 182, 191, 184, 173, 170, 163, 164)
        &&& remainders_from(144, 249, 254, 247, 240, 229, 226, 235, 236)
        &&& remainders_from(152, 193, 198, 207, 200, 221, 218, 211, 212)
        &&& remainders_from(160, 105, 110, 103, 96, 117, 114, 123, 124)
        &&& remainders_from(168, 81, 86, 95, 88, 77, 74, 67, 68)
        &&& remainders_from(176, 25, 30, 23, 16, 5, 2, 11, 12)
        &&& remainders_from(184, 33, 38, 47, 40, 61, 58, 51, 52)
        &&& remainders_from(192, 78, 73, 64, 71, 82, 85, 92, 91)
        &&& remainders_from(200, 118, 113, 120, 127, 106, 109, 100, 99)
        &&& remainders_from(208, 62, 57, 48, 55, 34, 37, 44, 43)
        &&& remainders_from(216, 6, 1, 8, 15, 26, 29, 20, 19)
        &&& remainders_from(224, 174, 169, 160, 167, 178, 181, 188, 187)
        &&& remainders_from(232, 150, 145, 152, 159, 138, 141, 132, 131)
        &&& remainders_from(240, 222, 217, 208, 215, 194, 197, 204, 203)
        &&& remainders_from(248, 230, 225, 232, 239, 250, 253, 244, 243)
    }) by (bit_vector);
}

/// One step of the checksum is one byte's worth of polynomial division.
pub proof fn lemma_crc8_step_is_division(acc: u8, byte: u8)
    ensures
        crc8_step(acc, byte) == reduce_byte(acc ^ byte),
{
    lemma_table_is_polynomial(acc ^ byte);
}

} // verus!
