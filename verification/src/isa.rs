//! Instruction word layout.
//!
//! An instruction is a 32-bit word. Bits 31..26 hold the opcode, bits 25..21,
//! 20..16, 15..11, 10..6 and 4..0 hold register numbers, bits 15..0 a signed
//! 16-bit immediate and bits 25..0 a 26-bit jump target.

use vstd::prelude::*;

verus! {

/// The opcode: the word shifted right (arithmetically) by 26 bits.
pub open spec fn opcode_of(ir: i32) -> i8 {
    (ir >> 26u32) as i8
}

/// The five-bit register number that starts at bit `shift`.
pub open spec fn reg_of(ir: i32, shift: u32) -> i8 {
    ((ir >> shift) & 31i32) as i8
}

/// The low 16 bits, read as a two's complement number.
pub open spec fn imm_of(ir: i32) -> i16 {
    (ir & 0xFFFFi32) as i16
}

/// The low 26 bits, read as an unsigned number.
pub open spec fn long_imm_of(ir: i32) -> i32 {
    ir & 0x3FFFFFFi32
}

/// Every field of an instruction word lies in the range of its width.
pub proof fn lemma_fields_in_range(ir: i32)
    ensures
        -32 <= (ir >> 26u32) <= 31,
        -32 <= opcode_of(ir) <= 31,
        opcode_of(ir) == ir >> 26u32,
        0 <= ((ir >> 21u32) & 31i32) < 32,
        0 <= ((ir >> 16u32) & 31i32) < 32,
        0 <= ((ir >> 11u32) & 31i32) < 32,
        0 <= ((ir >> 6u32) & 31i32) < 32,
        0 <= (ir & 31i32) < 32,
        (ir >> 0u32) & 31i32 == ir & 31i32,
        0 <= reg_of(ir, 21) < 32,
        0 <= reg_of(ir, 16) < 32,
        0 <= reg_of(ir, 11) < 32,
        0 <= reg_of(ir, 6) < 32,
        0 <= reg_of(ir, 0) < 32,
        0 <= long_imm_of(ir) < 0x4000000,
{
    assert(-32 <= (ir >> 26u32) <= 31) by (bit_vector);
    assert(0 <= ((ir >> 21u32) & 31i32) < 32) by (bit_vector);
    assert(0 <= ((ir >> 16u32) & 31i32) < 32) by (bit_vector);
    assert(0 <= ((ir >> 11u32) & 31i32) < 32) by (bit_vector);
    assert(0 <= ((ir >> 6u32) & 31i32) < 32) by (bit_vector);
    assert(0 <= (ir & 31i32) < 32) by (bit_vector);
    assert((ir >> 0u32) & 31i32 == ir & 31i32) by (bit_vector);
    assert(0 <= (ir & 0x3FFFFFFi32) < 0x4000000) by (bit_vector);
}

/// The word is the opcode placed above the 26-bit jump target: no bit of the
/// word is lost by splitting it into these two fields.
pub proof fn lemma_word_from_fields(ir: i32)
    ensures
        ir == ((opcode_of(ir) as i32) << 26u32) | long_imm_of(ir),
{
    lemma_fields_in_range(ir);
    assert(ir == ((ir >> 26u32) << 26u32) | (ir & 0x3FFFFFFi32)) by (bit_vector);
}

/// Decoding recovers the fields an instruction word was assembled from: an
/// opcode below 32 in bits 31..26 and five-bit register numbers in bits
/// 25..21, 20..16, 15..11, 10..6 and 4..0.
pub proof fn lemma_decode_register_word(op: i32, r1: i32, r2: i32, r3: i32, r4: i32, r5: i32)
    requires
        0 <= op < 32,
        0 <= r1 < 32,
        0 <= r2 < 32,
        0 <= r3 < 32,
        0 <= r4 < 32,
        0 <= r5 < 32,
    ensures
        ({
            let ir = (op << 26u32) | (r1 << 21u32) | (r2 << 16u32) | (r3 << 11u32) | (r4 << 6u32) | r5;
            &&& opcode_of(ir) as i32 == op
            &&& reg_of(ir, 21) as i32 == r1
            &&& reg_of(ir, 16) as i32 == r2
            &&& reg_of(ir, 11) as i32 == r3
            &&& reg_of(ir, 6) as i32 == r4
            &&& reg_of(ir, 0) as i32 == r5
        }),
{
    let ir = (op << 26u32) | (r1 << 21u32) | (r2 << 16u32) | (r3 << 11u32) | (r4 << 6u32) | r5;
    assert((ir >> 26u32) == op) by (bit_vector)
        requires
            ir == (op << 26u32) | (r1 << 21u32) | (r2 << 16u32) | (r3 << 11u32) | (r4 << 6u32) | r5,
            0 <= op < 32, 0 <= r1 < 32, 0 <= r2 < 32, 0 <= r3 < 32, 0 <= r4 < 32, 0 <= r5 < 32,
    ;
    assert(((ir >> 21u32) & 31i32) == r1 && ((ir >> 16u32) & 31i32) == r2 && ((ir >> 11u32) & 31i32) == r3
        && ((ir >> 6u32) & 31i32) == r4 && ((ir >> 0u32) & 31i32) == r5) by (bit_vector)
        requires
            ir == (op << 26u32) | (r1 << 21u32) | (r2 << 16u32) | (r3 << 11u32) | (r4 << 6u32) | r5,
            0 <= op < 32, 0 <= r1 < 32, 0 <= r2 < 32, 0 <= r3 < 32, 0 <= r4 < 32, 0 <= r5 < 32,
    ;
}

/// Decoding recovers the immediate of a word assembled from an opcode, two
/// register numbers and a signed 16-bit immediate in bits 15..0, and the
/// 26-bit target of a word assembled from an opcode and that target.
pub proof fn lemma_decode_immediate_word(op: i32, r1: i32, r2: i32, imm: i16, target: i32)
    requires
        0 <= op < 32,
        0 <= r1 < 32,
        0 <= r2 < 32,
        0 <= target < 0x400_0000,
    ensures
        imm_of((op << 26u32) | (r1 << 21u32) | (r2 << 16u32) | ((imm as i32) & 0xFFFFi32)) == imm,
        long_imm_of((op << 26u32) | target) == target,
        opcode_of((op << 26u32) | target) as i32 == op,
{
    let ir = (op << 26u32) | (r1 << 21u32) | (r2 << 16u32) | ((imm as i32) & 0xFFFFi32);
    assert((ir & 0xFFFFi32) as i16 == imm) by (bit_vector)
        requires
            ir == (op << 26u32) | (r1 << 21u32) | (r2 << 16u32) | ((imm as i32) & 0xFFFFi32),
    ;
    let jw = (op << 26u32) | target;
    assert((jw & 0x3FFFFFFi32) == target && (jw >> 26u32) == op) by (bit_vector)
        requires
            jw == (op << 26u32) | target,
            0 <= op < 32,
            0 <= target < 0x400_0000,
    ;
}

} // verus!
