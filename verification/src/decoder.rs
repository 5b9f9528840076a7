use vstd::prelude::*;

verus! {

/// An instruction split into the fields of its format.
///
/// - `IInstruction(imm, rs1, funct3, rd, op)`
/// - `RInstruction(funct7, rs2, rs1, funct3, rd, op)`
/// - `SInstruction(imm, rs2, rs1, funct3, op)`
/// - `JInstruction(imm, rd, op)`
/// - `BInstruction(imm, rs2, rs1, funct3, op)`
/// - `UInstruction(imm, rd, op)`
#[derive(Clone, Copy, PartialEq, Eq, Structural, Debug)]
pub enum Instruction {
    IInstruction(i16, u8, u8, u8, u8),
    RInstruction(u8, u8, u8, u8, u8, u8),
    SInstruction(i16, u8, u8, u8, u8),
    JInstruction(i32, u8, u8),
    BInstruction(i16, u8, u8, u8, u8),
    UInstruction(i32, u8, u8),
    OtherInstruction,
}

enum InstructionType {
    I,
    R,
    S,
    J,
    B,
    U,
    Other,
}

/// The 32-bit instruction word whose bytes, lowest first, are `inst`.
pub open spec fn word_of_bytes(inst: [u8; 4]) -> u32 {
    (inst[0] as u32) | ((inst[1] as u32) << 8u32) | ((inst[2] as u32) << 16u32) | ((inst[3] as u32) << 24u32)
}

/// The opcode field: bits 0..7 of the word.
pub open spec fn op_field(w: u32) -> u8 {
    (w & 127) as u8
}

/// The destination register field: bits 7..12.
pub open spec fn rd_field(w: u32) -> u8 {
    ((w >> 7u32) & 31) as u8
}

/// The funct3 field: bits 12..15.
pub open spec fn funct3_field(w: u32) -> u8 {
    ((w >> 12u32) & 7) as u8
}

/// The first source register field: bits 15..20.
pub open spec fn rs1_field(w: u32) -> u8 {
    ((w >> 15u32) & 31) as u8
}

/// The second source register field: bits 20..25.
pub open spec fn rs2_field(w: u32) -> u8 {
    ((w >> 20u32) & 31) as u8
}

/// The funct7 field: bits 25..32.
pub open spec fn funct7_field(w: u32) -> u8 {
    (w >> 25u32) as u8
}

/// The immediate of the I format: bits 20..32, not sign-extended.
pub open spec fn i_imm_field(w: u32) -> i16 {
    (w >> 20u32) as i16
}

/// The immediate of the S format: bits 25..32 above bits 7..12, not sign-extended.
pub open spec fn s_imm_field(w: u32) -> i16 {
    (((w >> 25u32) << 5u32) | ((w >> 7u32) & 31)) as i16
}

/// The immediate of the B format, halved: bit 31, bit 7, bits 25..31 and bits 8..12,
/// from the top down, not sign-extended.
pub open spec fn b_imm_field(w: u32) -> i16 {
    (((w >> 31u32) << 11u32) | (((w >> 7u32) & 1) << 10u32) | (((w >> 25u32) & 63) << 4u32) | ((w >> 8u32)
        & 15)) as i16
}

/// The immediate of the J format, halved: bit 31, bits 12..20, bit 20 and bits 21..31,
/// from the top down, not sign-extended.
pub open spec fn j_imm_field(w: u32) -> i32 {
    (((w >> 31u32) << 19u32) | (((w >> 12u32) & 255) << 11u32) | (((w >> 20u32) & 1) << 10u32) | ((w
        >> 21u32) & 1023)) as i32
}

/// The immediate of the U format: bits 12..32.
pub open spec fn u_imm_field(w: u32) -> i32 {
    (w >> 12u32) as i32
}

/// The instruction that the word `w` encodes, by the format its opcode selects.
pub open spec fn decode_word(w: u32) -> Instruction {
    let op = op_field(w);
    if op == 3 || op == 19 || op == 27 || op == 103 {
        Instruction::IInstruction(i_imm_field(w), rs1_field(w), funct3_field(w), rd_field(w), op)
    } else if op == 51 || op == 59 || op == 83 {
        Instruction::RInstruction(funct7_field(w), rs2_field(w), rs1_field(w), funct3_field(w), rd_field(w), op)
    } else if op == 35 {
        Instruction::SInstruction(s_imm_field(w), rs2_field(w), rs1_field(w), funct3_field(w), op)
    } else if op == 111 {
        Instruction::JInstruction(j_imm_field(w), rd_field(w), op)
    } else if op == 99 {
        Instruction::BInstruction(b_imm_field(w), rs2_field(w), rs1_field(w), funct3_field(w), op)
    } else if op == 23 || op == 55 {
        Instruction::UInstruction(u_imm_field(w), rd_field(w), op)
    } else {
        Instruction::OtherInstruction
    }
}

spec fn type_of_op(op: u8) -> InstructionType {
    if op == 3 || op == 19 || op == 27 || op == 103 {
        InstructionType::I
    } else if op == 51 || op == 59 || op == 83 {
        InstructionType::R
    } else if op == 35 {
        InstructionType::S
    } else if op == 111 {
        InstructionType::J
    } else if op == 99 {
        InstructionType::B
    } else if op == 23 || op == 55 {
        InstructionType::U
    } else {
        InstructionType::Other
    }
}

fn instruction_typeof(inst: [u8; 4]) -> (r: InstructionType)
    ensures
        r == type_of_op(op_field(word_of_bytes(inst))),
{
    let b0 = inst[0];
    let b1 = inst[1];
    let b2 = inst[2];
    let b3 = inst[3];
    proof {
        lemma_common_fields(b0, b1, b2, b3);
    }
    let op = inst[0] & 127;
    match op {
        3 | 19 | 27 | 103 => InstructionType::I,
        51 | 59 | 83 => InstructionType::R,
        35 => InstructionType::S,
        111 => InstructionType::J,
        99 => InstructionType::B,
        23 | 55 => InstructionType::U,
        _ => InstructionType::Other,
    }
}

proof fn lemma_common_field_bits(b0: u8, b1: u8, b2: u8, b3: u8, w: u32)
    by (bit_vector)
    requires
        w == (b0 as u32) | ((b1 as u32) << 8u32) | ((b2 as u32) << 16u32) | ((b3 as u32) << 24u32),
    ensures
        (b0 & 127) as u8 == ((w & 127) as u8),
        ((b1 & 15) << 1u8) + (b0 >> 7u8) == ((w >> 7u32) & 31),
        ((b1 & 127) >> 4u8) == ((w >> 12u32) & 7) as u8,
        ((b2 & 15) << 1u8) + (b1 >> 7u8) == ((w >> 15u32) & 31),
        ((b3 & 1) << 4u8) + (b2 >> 4u8) == ((w >> 20u32) & 31),
        b3 >> 1u8 == (w >> 25u32) as u8,
        ((b1 & 15) << 1u8) <= 30 && b0 >> 7u8 <= 1,
        ((b2 & 15) << 1u8) <= 30 && b1 >> 7u8 <= 1,
        ((b3 & 1) << 4u8) <= 16 && b2 >> 4u8 <= 15,
{
}

/// The register fields, funct3 and opcode, which all formats place alike.
proof fn lemma_common_fields(b0: u8, b1: u8, b2: u8, b3: u8)
    ensures
        ({
            let w = (b0 as u32) | ((b1 as u32) << 8u32) | ((b2 as u32) << 16u32) | ((b3 as u32) << 24u32);
            &&& (b0 & 127) as u8 == op_field(w)
            &&& ((b1 & 15) << 1u8) + (b0 >> 7u8) == rd_field(w) as int
            &&& ((b1 & 127) >> 4u8) == funct3_field(w)
            &&& ((b2 & 15) << 1u8) + (b1 >> 7u8) == rs1_field(w) as int
            &&& ((b3 & 1) << 4u8) + (b2 >> 4u8) == rs2_field(w) as int
            &&& b3 >> 1u8 == funct7_field(w)
            &&& ((b1 & 15) << 1u8) <= 30 && b0 >> 7u8 <= 1
            &&& ((b2 & 15) << 1u8) <= 30 && b1 >> 7u8 <= 1
            &&& ((b3 & 1) << 4u8) <= 16 && b2 >> 4u8 <= 15
        }),
{
    let w = (b0 as u32) | ((b1 as u32) << 8u32) | ((b2 as u32) << 16u32) | ((b3 as u32) << 24u32);
    lemma_common_field_bits(b0, b1, b2, b3, w);
}

proof fn lemma_i_immediate_bits(b0: u8, b1: u8, b2: u8, b3: u8, w: u32)
    by (bit_vector)
    requires
        w == (b0 as u32) | ((b1 as u32) << 8u32) | ((b2 as u32) << 16u32) | ((b3 as u32) << 24u32),
    ensures
        (((b3 as i16) << 4i16) + (((b2 as i16) >> 4i16) & 0xf)) as i16 == ((w >> 20u32) as i16),
        ((b3 as i16) << 4i16) <= 4080 && (((b2 as i16) >> 4i16) & 0xf) <= 15 && ((b3 as i16) << 4i16) >= 0
            && (((b2 as i16) >> 4i16) & 0xf) >= 0,
{
}

proof fn lemma_s_immediate_bits(b0: u8, b1: u8, b2: u8, b3: u8, w: u32)
    by (bit_vector)
    requires
        w == (b0 as u32) | ((b1 as u32) << 8u32) | ((b2 as u32) << 16u32) | ((b3 as u32) << 24u32),
    ensures
        ((((b3 as i16) >> 1i16) << 5i16) + (((b1 as i16) & 15) << 1i16) + (((b0 as i16) >> 7i16) & 1)) as i16
            == ((((w >> 25u32) << 5u32) | ((w >> 7u32) & 31)) as i16),
        0 <= (((b3 as i16) >> 1i16) << 5i16) <= 4064 && 0 <= (((b1 as i16) & 15) << 1i16) <= 30 && 0 <= (((b0
            as i16) >> 7i16) & 1) <= 1,
{
}

proof fn lemma_j_immediate_bits(b0: u8, b1: u8, b2: u8, b3: u8, w: u32, c0: i32, c1: i32, c2: i32, c3: i32)
    by (bit_vector)
    requires
        w == (b0 as u32) | ((b1 as u32) << 8u32) | ((b2 as u32) << 16u32) | ((b3 as u32) << 24u32),
        c0 == b0 as i32,
        c1 == b1 as i32,
        c2 == b2 as i32,
        c3 == b3 as i32,
    ensures
        (((c3 >> 7i32) << 19i32) + ((c2 & 15) << 15i32) + ((c1 >> 4i32) << 11i32) + (((c2 >> 4i32) & 1) << 10i32)
            + ((c3 & 127) << 3i32) + (c2 >> 5i32)) as i32 == ((((w >> 31u32) << 19u32) | (((w >> 12u32) & 255)
            << 11u32) | (((w >> 20u32) & 1) << 10u32) | ((w >> 21u32) & 1023)) as i32),
        0 <= ((c3 >> 7i32) << 19i32) <= 0x80000 && 0 <= ((c2 & 15) << 15i32) <= 0x78000 && 0 <= ((c1 >> 4i32)
            << 11i32) <= 0x7800 && 0 <= (((c2 >> 4i32) & 1) << 10i32) <= 1024 && 0 <= ((c3 & 127) << 3i32) <= 1016
            && 0 <= (c2 >> 5i32) <= 7,
{
}

proof fn lemma_b_immediate_bits(b0: u8, b1: u8, b2: u8, b3: u8, w: u32)
    by (bit_vector)
    requires
        w == (b0 as u32) | ((b1 as u32) << 8u32) | ((b2 as u32) << 16u32) | ((b3 as u32) << 24u32),
    ensures
        ((((b3 as i16) >> 7i16) << 11i16) + (((b3 as i16) & 126) << 3i16) + ((b1 as i16) & 15) + (((b0 as i16)
            >> 7i16) << 10i16)) as i16 == ((((w >> 31u32) << 11u32) | (((w >> 7u32) & 1) << 10u32) | (((w >> 25u32)
            & 63) << 4u32) | ((w >> 8u32) & 15)) as i16),
        0 <= (((b3 as i16) >> 7i16) << 11i16) <= 2048 && 0 <= (((b3 as i16) & 126) << 3i16) <= 1008 && 0 <= ((
        b1 as i16) & 15) <= 15 && 0 <= (((b0 as i16) >> 7i16) << 10i16) <= 1024,
{
}

proof fn lemma_u_immediate_bits(b0: u8, b1: u8, b2: u8, b3: u8, w: u32, c1: i32, c2: i32, c3: i32)
    by (bit_vector)
    requires
        w == (b0 as u32) | ((b1 as u32) << 8u32) | ((b2 as u32) << 16u32) | ((b3 as u32) << 24u32),
        c1 == b1 as i32,
        c2 == b2 as i32,
        c3 == b3 as i32,
    ensures
        ((c3 << 12i32) + (c2 << 4i32) + (c1 >> 4i32)) as i32 == ((w >> 12u32) as i32),
        0 <= (c3 << 12i32) <= 0xff000 && 0 <= (c2 << 4i32) <= 0xff0 && 0 <= (c1 >> 4i32) <= 15,
{
}

fn decode_i_instruction(inst: [u8; 4]) -> (r: Instruction)
    ensures
        ({
            let w = word_of_bytes(inst);
            r == Instruction::IInstruction(i_imm_field(w), rs1_field(w), funct3_field(w), rd_field(w), op_field(w))
        }),
{
    let (b0, b1, b2, b3) = (inst[0], inst[1], inst[2], inst[3]);
    proof {
        lemma_common_fields(b0, b1, b2, b3);
        let w = word_of_bytes(inst);
        lemma_i_immediate_bits(b0, b1, b2, b3, w);
    }
    let imm: i16 = ((b3 as i16) << 4i16) + (((b2 as i16) >> 4i16) & 0xf);
    let rs1 = ((b2 & 15) << 1u8) + (b1 >> 7u8);
    let funct3 = (b1 & 127) >> 4u8;
    let rd = ((b1 & 15) << 1u8) + (b0 >> 7u8);
    let op = b0 & 127;
    Instruction::IInstruction(imm, rs1, funct3, rd, op)
}

fn decode_r_instruction(inst: [u8; 4]) -> (r: Instruction)
    ensures
        ({
            let w = word_of_bytes(inst);
            r == Instruction::RInstruction(
                funct7_field(w),
                rs2_field(w),
                rs1_field(w),
                funct3_field(w),
                rd_field(w),
                op_field(w),
            )
        }),
{
    let (b0, b1, b2, b3) = (inst[0], inst[1], inst[2], inst[3]);
    proof {
        lemma_common_fields(b0, b1, b2, b3);
    }
    let funct7 = b3 >> 1u8;
    let rs2 = ((b3 & 1) << 4u8) + (b2 >> 4u8);
    let rs1 = ((b2 & 15) << 1u8) + (b1 >> 7u8);
    let funct3 = (b1 & 127) >> 4u8;
    let rd = ((b1 & 15) << 1u8) + (b0 >> 7u8);
    let op = b0 & 127;
    Instruction::RInstruction(funct7, rs2, rs1, funct3, rd, op)
}

fn decode_s_instruction(inst: [u8; 4]) -> (r: Instruction)
    ensures
        ({
            let w = word_of_bytes(inst);
            r == Instruction::SInstruction(s_imm_field(w), rs2_field(w), rs1_field(w), funct3_field(w), op_field(w))
        }),
{
    let (b0, b1, b2, b3) = (inst[0], inst[1], inst[2], inst[3]);
    proof {
        lemma_common_fields(b0, b1, b2, b3);
        let w = word_of_bytes(inst);
        lemma_s_immediate_bits(b0, b1, b2, b3, w);
    }
    let imm: i16 = (((b3 as i16) >> 1i16) << 5i16) + (((b1 as i16) & 15) << 1i16) + (((b0 as i16) >> 7i16) & 1);
    let rs2 = ((b3 & 1) << 4u8) + (b2 >> 4u8);
    let rs1 = ((b2 & 15) << 1u8) + (b1 >> 7u8);
    let funct3 = (b1 & 127) >> 4u8;
    let op = b0 & 127;
    Instruction::SInstruction(imm, rs2, rs1, funct3, op)
}

fn decode_j_instruction(inst: [u8; 4]) -> (r: Instruction)
    ensures
        ({
            let w = word_of_bytes(inst);
            r == Instruction::JInstruction(j_imm_field(w), rd_field(w), op_field(w))
        }),
{
    let (b0, b1, b2, b3) = (inst[0], inst[1], inst[2], inst[3]);
    proof {
        lemma_common_fields(b0, b1, b2, b3);
        let w = word_of_bytes(inst);
        let (c0, c1, c2, c3) = (b0 as i32, b1 as i32, b2 as i32, b3 as i32);
        lemma_j_immediate_bits(b0, b1, b2, b3, w, c0, c1, c2, c3);
    }
    let imm: i32 = (((b3 as i32) >> 7i32) << 19i32) + (((b2 as i32) & 15) << 15i32) + (((b1 as i32) >> 4i32)
        << 11i32) + ((((b2 as i32) >> 4i32) & 1) << 10i32) + (((b3 as i32) & 127) << 3i32) + ((b2 as i32)
        >> 5i32);
    let rd = ((b1 & 15) << 1u8) + (b0 >> 7u8);
    let op = b0 & 127;
    Instruction::JInstruction(imm, rd, op)
}

fn decode_b_instruction(inst: [u8; 4]) -> (r: Instruction)
    ensures
        ({
            let w = word_of_bytes(inst);
            r == Instruction::BInstruction(b_imm_field(w), rs2_field(w), rs1_field(w), funct3_field(w), op_field(w))
        }),
{
    let (b0, b1, b2, b3) = (inst[0], inst[1], inst[2], inst[3]);
    proof {
        lemma_common_fields(b0, b1, b2, b3);
        let w = word_of_bytes(inst);
        lemma_b_immediate_bits(b0, b1, b2, b3, w);
    }
    let imm: i16 = (((b3 as i16) >> 7i16) << 11i16) + (((b3 as i16) & 126) << 3i16) + ((b1 as i16) & 15) + (((
    b0 as i16) >> 7i16) << 10i16);
    let rs2 = ((b3 & 1) << 4u8) + (b2 >> 4u8);
    let rs1 = ((b2 & 15) << 1u8) + (b1 >> 7u8);
    let funct3 = (b1 & 127) >> 4u8;
    let op = b0 & 127;
    Instruction::BInstruction(imm, rs2, rs1, funct3, op)
}

fn decode_u_instruction(inst: [u8; 4]) -> (r: Instruction)
    ensures
        ({
            let w = word_of_bytes(inst);
            r == Instruction::UInstruction(u_imm_field(w), rd_field(w), op_field(w))
        }),
{
    let (b0, b1, b2, b3) = (inst[0], inst[1], inst[2], inst[3]);
    proof {
        lemma_common_fields(b0, b1, b2, b3);
        let w = word_of_bytes(inst);
        let (c1, c2, c3) = (b1 as i32, b2 as i32, b3 as i32);
        lemma_u_immediate_bits(b0, b1, b2, b3, w, c1, c2, c3);
    }
    let imm: i32 = ((b3 as i32) << 12i32) + ((b2 as i32) << 4i32) + ((b1 as i32) >> 4i32);
    let rd = ((b1 & 15) << 1u8) + (b0 >> 7u8);
    let op = b0 & 127;
    Instruction::UInstruction(imm, rd, op)
}

/// Splits the instruction whose bytes, lowest first, are `inst` into the fields of
/// the format that its opcode selects.
pub fn decode_instruction(inst: [u8; 4]) -> (r: Instruction)
    ensures
        r == decode_word(word_of_bytes(inst)),
{
    let instruction_type = instruction_typeof(inst);
    match instruction_type {
        InstructionType::I => decode_i_instruction(inst),
        InstructionType::R => decode_r_instruction(inst),
        InstructionType::S => decode_s_instruction(inst),
        InstructionType::J => decode_j_instruction(inst),
        InstructionType::B => decode_b_instruction(inst),
        InstructionType::U => decode_u_instruction(inst),
        InstructionType::Other => Instruction::OtherInstruction,
    }
}

/// The bytes of the instruction word `w`, lowest first.
pub fn instruction_bytes(w: u32) -> (r: [u8; 4])
    ensures
        word_of_bytes(r) == w,
{
    let r = [(w & 0xff) as u8, ((w >> 8u32) & 0xff) as u8, ((w >> 16u32) & 0xff) as u8, (w >> 24u32) as u8];
    assert(((w & 0xff) as u8 as u32) | ((((w >> 8u32) & 0xff) as u8 as u32) << 8u32) | ((((w >> 16u32) & 0xff) as u8 as u32)
        << 16u32) | (((w >> 24u32) as u8 as u32) << 24u32) == w) by (bit_vector);
    r
}

/// The register fields that decoding gives are below 32.
pub proof fn lemma_decoded_registers(w: u32)
    by (bit_vector)
    ensures
        rd_field(w) < 32,
        rs1_field(w) < 32,
        rs2_field(w) < 32,
{
}

} // verus!
