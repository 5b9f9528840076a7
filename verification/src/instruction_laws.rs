use vstd::prelude::*;
use crate::cpu_core::CoreState;
use crate::fpu_order::{fp_le, fp_lt};
use crate::instruction::{
    Add, And, Beq, Bge, Blt, Bne, Fadd, Fbeq, Fble, Fblt, Fbne, Fdiv, Feq, Fle, Flt, Fmul, Fsgnj, Fsgnjn, Fsgnjx,
    Fsub, Or, Sll, Slt, Sra, Srl, Sub, Xor, Addi, Slti, Xori, Ori, Andi, Srli, Lw, Sw, Jal, Jalr, Lui, Flw, Fsw,
};
use crate::sign_extension::{spec_sign_extention_i16, spec_sign_extention_i32};
use vstd::arithmetic::power2::pow2;
use crate::fpu::fadd_bits;
use crate::types::Address;
use crate::utils::{ascii, decimal_text, spec_i32_to_u32, lemma_word_reinterpretation_round_trip};

verus! {

proof fn lemma_casts(pc: u32, imm: i32, y: i32)
    by (bit_vector)
    ensures
        (pc as i32) as int == pc as int || (pc as i32) as int == pc as int - 0x1_0000_0000,
        -0x2000_0000 <= imm < 0x2000_0000 ==> (imm << 2u32) as int == 4 * imm as int,
        (y as u32) as int == y as int || (y as u32) as int == y as int + 0x1_0000_0000,
{
}

/// The address that a branch at `pc` with offset `imm` jumps to is `4 * imm` bytes from
/// `pc`, wrapping around at 32 bits.
pub proof fn lemma_branch_target(pc: Address, imm: i32)
    requires
        -0x2000_0000 <= imm < 0x2000_0000,
    ensures
        ((vstd::wrapping::i32_specs::wrapping_add(pc as i32, imm << 2u32) as Address) as int - pc as int - 4 * imm as int)
            % 0x1_0000_0000 == 0,
{
    lemma_casts(pc, imm, vstd::wrapping::i32_specs::wrapping_add(pc as i32, imm << 2u32));
}

/// `add` gives the sum of its operands, wrapping around at 32 bits, and forwards it for its destination register.
pub proof fn lemma_add_result(inst: Add, st: CoreState)
    requires
        inst.ready(),
    ensures
        ({
            let (done, after) = inst.executed(st);
            let a = inst.data.rs1_value->0;
            let b = inst.data.rs2_value->0;
            let r = done.data.rd_value->0;
            &&& done.data.rd_value is Some
            &&& (r - a - b) % 0x1_0000_0000 == 0
            &&& after == st.with_int_forwarding(inst.data.rd, inst.data.inst_count->0, r)
        }),
{
}

/// `sub` gives the first operand minus the second, wrapping around at 32 bits, and forwards it for its destination register.
pub proof fn lemma_sub_result(inst: Sub, st: CoreState)
    requires
        inst.ready(),
    ensures
        ({
            let (done, after) = inst.executed(st);
            let a = inst.data.rs1_value->0;
            let b = inst.data.rs2_value->0;
            let r = done.data.rd_value->0;
            &&& done.data.rd_value is Some
            &&& (r - a + b) % 0x1_0000_0000 == 0
            &&& after == st.with_int_forwarding(inst.data.rd, inst.data.inst_count->0, r)
        }),
{
}

/// `slt` gives 1 when the first operand is less than the second (signed), else 0, and forwards it for its destination register.
pub proof fn lemma_slt_result(inst: Slt, st: CoreState)
    requires
        inst.ready(),
    ensures
        ({
            let (done, after) = inst.executed(st);
            let a = inst.data.rs1_value->0;
            let b = inst.data.rs2_value->0;
            let r = done.data.rd_value->0;
            &&& done.data.rd_value is Some
            &&& r == (if a < b { 1int } else { 0int })
            &&& after == st.with_int_forwarding(inst.data.rd, inst.data.inst_count->0, r)
        }),
{
}

/// `xor` gives the bitwise exclusive or of its operands, and forwards it for its destination register.
pub proof fn lemma_xor_result(inst: Xor, st: CoreState)
    requires
        inst.ready(),
    ensures
        ({
            let (done, after) = inst.executed(st);
            let a = inst.data.rs1_value->0;
            let b = inst.data.rs2_value->0;
            let r = done.data.rd_value->0;
            &&& done.data.rd_value is Some
            &&& r == a ^ b
            &&& after == st.with_int_forwarding(inst.data.rd, inst.data.inst_count->0, r)
        }),
{
}

/// `or` gives the bitwise or of its operands, and forwards it for its destination register.
pub proof fn lemma_or_result(inst: Or, st: CoreState)
    requires
        inst.ready(),
    ensures
        ({
            let (done, after) = inst.executed(st);
            let a = inst.data.rs1_value->0;
            let b = inst.data.rs2_value->0;
            let r = done.data.rd_value->0;
            &&& done.data.rd_value is Some
            &&& r == a | b
            &&& after == st.with_int_forwarding(inst.data.rd, inst.data.inst_count->0, r)
        }),
{
}

/// `and` gives the bitwise and of its operands, and forwards it for its destination register.
pub proof fn lemma_and_result(inst: And, st: CoreState)
    requires
        inst.ready(),
    ensures
        ({
            let (done, after) = inst.executed(st);
            let a = inst.data.rs1_value->0;
            let b = inst.data.rs2_value->0;
            let r = done.data.rd_value->0;
            &&& done.data.rd_value is Some
            &&& r == a & b
            &&& after == st.with_int_forwarding(inst.data.rd, inst.data.inst_count->0, r)
        }),
{
}

/// `addi` gives the sum of its register operand and its immediate, wrapping around at 32 bits, and forwards it for its destination register.
pub proof fn lemma_addi_result(inst: Addi, st: CoreState)
    requires
        inst.ready(),
    ensures
        ({
            let (done, after) = inst.executed(st);
            let a = inst.data.rs1_value->0;
            let b = inst.data.extended_imm->0;
            let r = done.data.rd_value->0;
            &&& done.data.rd_value is Some
            &&& (r - a - b) % 0x1_0000_0000 == 0
            &&& after == st.with_int_forwarding(inst.data.rd, inst.data.inst_count->0, r)
        }),
{
}

/// `slti` gives 1 when its register operand is less than its immediate (signed), else 0, and forwards it for its destination register.
pub proof fn lemma_slti_result(inst: Slti, st: CoreState)
    requires
        inst.ready(),
    ensures
        ({
            let (done, after) = inst.executed(st);
            let a = inst.data.rs1_value->0;
            let b = inst.data.extended_imm->0;
            let r = done.data.rd_value->0;
            &&& done.data.rd_value is Some
            &&& r == (if a < b { 1int } else { 0int })
            &&& after == st.with_int_forwarding(inst.data.rd, inst.data.inst_count->0, r)
        }),
{
}

/// `xori` gives the bitwise exclusive or of its register operand and its immediate, and forwards it for its destination register.
pub proof fn lemma_xori_result(inst: Xori, st: CoreState)
    requires
        inst.ready(),
    ensures
        ({
            let (done, after) = inst.executed(st);
            let a = inst.data.rs1_value->0;
            let b = inst.data.extended_imm->0;
            let r = done.data.rd_value->0;
            &&& done.data.rd_value is Some
            &&& r == a ^ b
            &&& after == st.with_int_forwarding(inst.data.rd, inst.data.inst_count->0, r)
        }),
{
}

/// `ori` gives the bitwise or of its register operand and its immediate, and forwards it for its destination register.
pub proof fn lemma_ori_result(inst: Ori, st: CoreState)
    requires
        inst.ready(),
    ensures
        ({
            let (done, after) = inst.executed(st);
            let a = inst.data.rs1_value->0;
            let b = inst.data.extended_imm->0;
            let r = done.data.rd_value->0;
            &&& done.data.rd_value is Some
            &&& r == a | b
            &&& after == st.with_int_forwarding(inst.data.rd, inst.data.inst_count->0, r)
        }),
{
}

/// `andi` gives the bitwise and of its register operand and its immediate, and forwards it for its destination register.
pub proof fn lemma_andi_result(inst: Andi, st: CoreState)
    requires
        inst.ready(),
    ensures
        ({
            let (done, after) = inst.executed(st);
            let a = inst.data.rs1_value->0;
            let b = inst.data.extended_imm->0;
            let r = done.data.rd_value->0;
            &&& done.data.rd_value is Some
            &&& r == a & b
            &&& after == st.with_int_forwarding(inst.data.rd, inst.data.inst_count->0, r)
        }),
{
}

/// `feq` gives 1 when the two operands have the same bits, else 0, and forwards it for its destination register.
pub proof fn lemma_feq_result(inst: Feq, st: CoreState)
    requires
        inst.ready(),
    ensures
        ({
            let (done, after) = inst.executed(st);
            let a = inst.data.fs1_value->0;
            let b = inst.data.fs2_value->0;
            let r = done.data.rd_value->0;
            &&& done.data.rd_value is Some
            &&& r == (if a.value == b.value { 1int } else { 0int })
            &&& after == st.with_int_forwarding(inst.data.rd, inst.data.inst_count->0, r)
        }),
{
}

/// `flt` gives 1 when the first operand is less than the second in the FPU order, else 0, and forwards it for its destination register.
pub proof fn lemma_flt_result(inst: Flt, st: CoreState)
    requires
        inst.ready(),
    ensures
        ({
            let (done, after) = inst.executed(st);
            let a = inst.data.fs1_value->0;
            let b = inst.data.fs2_value->0;
            let r = done.data.rd_value->0;
            &&& done.data.rd_value is Some
            &&& r == (if fp_lt(a.value, b.value) { 1int } else { 0int })
            &&& after == st.with_int_forwarding(inst.data.rd, inst.data.inst_count->0, r)
        }),
{
}

/// `fle` gives 1 when the first operand is at most the second in the FPU order, else 0, and forwards it for its destination register.
pub proof fn lemma_fle_result(inst: Fle, st: CoreState)
    requires
        inst.ready(),
    ensures
        ({
            let (done, after) = inst.executed(st);
            let a = inst.data.fs1_value->0;
            let b = inst.data.fs2_value->0;
            let r = done.data.rd_value->0;
            &&& done.data.rd_value is Some
            &&& r == (if fp_le(a.value, b.value) { 1int } else { 0int })
            &&& after == st.with_int_forwarding(inst.data.rd, inst.data.inst_count->0, r)
        }),
{
}

/// `fadd` gives the sum that the FPU's adder computes from its operands, and forwards it
/// for its destination register.
pub proof fn lemma_fadd_result(inst: Fadd, st: CoreState)
    requires
        inst.ready(),
    ensures
        ({
            let (done, after) = inst.executed(st);
            let r = done.data.rd_value->0;
            &&& done.data.rd_value is Some
            &&& r.value == fadd_bits(inst.data.rs1_value->0.value, inst.data.rs2_value->0.value)
            &&& after == st.with_float_forwarding(inst.data.fd, inst.data.inst_count->0, r)
        }),
{
}

/// `beq` jumps exactly when its operands are equal, to the address `4 * imm` bytes from its own
/// address (wrapping around at 32 bits), and changes nothing else of the machine.
pub proof fn lemma_beq_decides(inst: Beq, st: CoreState)
    requires
        inst.ready(),
        inst.data.jump_address is None,
        -0x2000_0000 <= inst.data.extended_imm->0 < 0x2000_0000,
    ensures
        ({
            let (done, after) = inst.executed(st);
            let a = inst.data.rs1_value->0;
            let b = inst.data.rs2_value->0;
            let pc = inst.data.origin_pc->0;
            let imm = inst.data.extended_imm->0;
            &&& after == st
            &&& (done.data.jump_address is Some <==> a == b)
            &&& (done.data.jump_address is Some ==> (done.data.jump_address->0 as int - pc as int - 4 * imm as int)
                % 0x1_0000_0000 == 0)
        }),
{
    lemma_branch_target(inst.data.origin_pc->0, inst.data.extended_imm->0);
}

/// `bne` jumps exactly when its operands differ, to the address `4 * imm` bytes from its own
/// address (wrapping around at 32 bits), and changes nothing else of the machine.
pub proof fn lemma_bne_decides(inst: Bne, st: CoreState)
    requires
        inst.ready(),
        inst.data.jump_address is None,
        -0x2000_0000 <= inst.data.extended_imm->0 < 0x2000_0000,
    ensures
        ({
            let (done, after) = inst.executed(st);
            let a = inst.data.rs1_value->0;
            let b = inst.data.rs2_value->0;
            let pc = inst.data.origin_pc->0;
            let imm = inst.data.extended_imm->0;
            &&& after == st
            &&& (done.data.jump_address is Some <==> a != b)
            &&& (done.data.jump_address is Some ==> (done.data.jump_address->0 as int - pc as int - 4 * imm as int)
                % 0x1_0000_0000 == 0)
        }),
{
    lemma_branch_target(inst.data.origin_pc->0, inst.data.extended_imm->0);
}

/// `blt` jumps exactly when its first operand is less than its second (signed), to the address `4 * imm` bytes from its own
/// address (wrapping around at 32 bits), and changes nothing else of the machine.
pub proof fn lemma_blt_decides(inst: Blt, st: CoreState)
    requires
        inst.ready(),
        inst.data.jump_address is None,
        -0x2000_0000 <= inst.data.extended_imm->0 < 0x2000_0000,
    ensures
        ({
            let (done, after) = inst.executed(st);
            let a = inst.data.rs1_value->0;
            let b = inst.data.rs2_value->0;
            let pc = inst.data.origin_pc->0;
            let imm = inst.data.extended_imm->0;
            &&& after == st
            &&& (done.data.jump_address is Some <==> a < b)
            &&& (done.data.jump_address is Some ==> (done.data.jump_address->0 as int - pc as int - 4 * imm as int)
                % 0x1_0000_0000 == 0)
        }),
{
    lemma_branch_target(inst.data.origin_pc->0, inst.data.extended_imm->0);
}

/// `bge` jumps exactly when its first operand is at least its second (signed), to the address `4 * imm` bytes from its own
/// address (wrapping around at 32 bits), and changes nothing else of the machine.
pub proof fn lemma_bge_decides(inst: Bge, st: CoreState)
    requires
        inst.ready(),
        inst.data.jump_address is None,
        -0x2000_0000 <= inst.data.extended_imm->0 < 0x2000_0000,
    ensures
        ({
            let (done, after) = inst.executed(st);
            let a = inst.data.rs1_value->0;
            let b = inst.data.rs2_value->0;
            let pc = inst.data.origin_pc->0;
            let imm = inst.data.extended_imm->0;
            &&& after == st
            &&& (done.data.jump_address is Some <==> a >= b)
            &&& (done.data.jump_address is Some ==> (done.data.jump_address->0 as int - pc as int - 4 * imm as int)
                % 0x1_0000_0000 == 0)
        }),
{
    lemma_branch_target(inst.data.origin_pc->0, inst.data.extended_imm->0);
}

/// `fbeq` jumps exactly when its operands have the same bits, to the address `4 * imm` bytes from its own
/// address (wrapping around at 32 bits), and changes nothing else of the machine.
pub proof fn lemma_fbeq_decides(inst: Fbeq, st: CoreState)
    requires
        inst.ready(),
        inst.data.jump_address is None,
        -0x2000_0000 <= inst.data.extended_imm->0 < 0x2000_0000,
    ensures
        ({
            let (done, after) = inst.executed(st);
            let a = inst.data.rs1_value->0;
            let b = inst.data.rs2_value->0;
            let pc = inst.data.origin_pc->0;
            let imm = inst.data.extended_imm->0;
            &&& after == st
            &&& (done.data.jump_address is Some <==> a.value == b.value)
            &&& (done.data.jump_address is Some ==> (done.data.jump_address->0 as int - pc as int - 4 * imm as int)
                % 0x1_0000_0000 == 0)
        }),
{
    lemma_branch_target(inst.data.origin_pc->0, inst.data.extended_imm->0);
}

/// `fbne` jumps exactly when its operands differ in their bits, to the address `4 * imm` bytes from its own
/// address (wrapping around at 32 bits), and changes nothing else of the machine.
pub proof fn lemma_fbne_decides(inst: Fbne, st: CoreState)
    requires
        inst.ready(),
        inst.data.jump_address is None,
        -0x2000_0000 <= inst.data.extended_imm->0 < 0x2000_0000,
    ensures
        ({
            let (done, after) = inst.executed(st);
            let a = inst.data.rs1_value->0;
            let b = inst.data.rs2_value->0;
            let pc = inst.data.origin_pc->0;
            let imm = inst.data.extended_imm->0;
            &&& after == st
            &&& (done.data.jump_address is Some <==> a.value != b.value)
            &&& (done.data.jump_address is Some ==> (done.data.jump_address->0 as int - pc as int - 4 * imm as int)
                % 0x1_0000_0000 == 0)
        }),
{
    lemma_branch_target(inst.data.origin_pc->0, inst.data.extended_imm->0);
}

/// `fblt` jumps exactly when its first operand is less than its second in the FPU order, to the address `4 * imm` bytes from its own
/// address (wrapping around at 32 bits), and changes nothing else of the machine.
pub proof fn lemma_fblt_decides(inst: Fblt, st: CoreState)
    requires
        inst.ready(),
        inst.data.jump_address is None,
        -0x2000_0000 <= inst.data.extended_imm->0 < 0x2000_0000,
    ensures
        ({
            let (done, after) = inst.executed(st);
            let a = inst.data.rs1_value->0;
            let b = inst.data.rs2_value->0;
            let pc = inst.data.origin_pc->0;
            let imm = inst.data.extended_imm->0;
            &&& after == st
            &&& (done.data.jump_address is Some <==> fp_lt(a.value, b.value))
            &&& (done.data.jump_address is Some ==> (done.data.jump_address->0 as int - pc as int - 4 * imm as int)
                % 0x1_0000_0000 == 0)
        }),
{
    lemma_branch_target(inst.data.origin_pc->0, inst.data.extended_imm->0);
}

/// `fble` jumps exactly when its first operand is at most its second in the FPU order, to the address `4 * imm` bytes from its own
/// address (wrapping around at 32 bits), and changes nothing else of the machine.
pub proof fn lemma_fble_decides(inst: Fble, st: CoreState)
    requires
        inst.ready(),
        inst.data.jump_address is None,
        -0x2000_0000 <= inst.data.extended_imm->0 < 0x2000_0000,
    ensures
        ({
            let (done, after) = inst.executed(st);
            let a = inst.data.rs1_value->0;
            let b = inst.data.rs2_value->0;
            let pc = inst.data.origin_pc->0;
            let imm = inst.data.extended_imm->0;
            &&& after == st
            &&& (done.data.jump_address is Some <==> fp_le(a.value, b.value))
            &&& (done.data.jump_address is Some ==> (done.data.jump_address->0 as int - pc as int - 4 * imm as int)
                % 0x1_0000_0000 == 0)
        }),
{
    lemma_branch_target(inst.data.origin_pc->0, inst.data.extended_imm->0);
}

/// The assembly text of `add` is its mnemonic followed by its destination and then its
/// first and second source registers, in that order.
pub proof fn lemma_add_text(inst: Add)
    ensures
        inst.assembly() == ascii("add x"@) + decimal_text(inst.data.rd as int) + ascii(", x"@) + decimal_text(
            inst.data.rs1 as int,
        ) + ascii(", x"@) + decimal_text(inst.data.rs2 as int),
{
}

/// The assembly text of `sub` is its mnemonic followed by its destination and then its
/// first and second source registers, in that order.
pub proof fn lemma_sub_text(inst: Sub)
    ensures
        inst.assembly() == ascii("sub x"@) + decimal_text(inst.data.rd as int) + ascii(", x"@) + decimal_text(
            inst.data.rs1 as int,
        ) + ascii(", x"@) + decimal_text(inst.data.rs2 as int),
{
}

/// The assembly text of `sll` is its mnemonic followed by its destination and then its
/// first and second source registers, in that order.
pub proof fn lemma_sll_text(inst: Sll)
    ensures
        inst.assembly() == ascii("sll x"@) + decimal_text(inst.data.rd as int) + ascii(", x"@) + decimal_text(
            inst.data.rs1 as int,
        ) + ascii(", x"@) + decimal_text(inst.data.rs2 as int),
{
}

/// The assembly text of `slt` is its mnemonic followed by its destination and then its
/// first and second source registers, in that order.
pub proof fn lemma_slt_text(inst: Slt)
    ensures
        inst.assembly() == ascii("slt x"@) + decimal_text(inst.data.rd as int) + ascii(", x"@) + decimal_text(
            inst.data.rs1 as int,
        ) + ascii(", x"@) + decimal_text(inst.data.rs2 as int),
{
}

/// The assembly text of `xor` is its mnemonic followed by its destination and then its
/// first and second source registers, in that order.
pub proof fn lemma_xor_text(inst: Xor)
    ensures
        inst.assembly() == ascii("xor x"@) + decimal_text(inst.data.rd as int) + ascii(", x"@) + decimal_text(
            inst.data.rs1 as int,
        ) + ascii(", x"@) + decimal_text(inst.data.rs2 as int),
{
}

/// The assembly text of `srl` is its mnemonic followed by its destination and then its
/// first and second source registers, in that order.
pub proof fn lemma_srl_text(inst: Srl)
    ensures
        inst.assembly() == ascii("srl x"@) + decimal_text(inst.data.rd as int) + ascii(", x"@) + decimal_text(
            inst.data.rs1 as int,
        ) + ascii(", x"@) + decimal_text(inst.data.rs2 as int),
{
}

/// The assembly text of `sra` is its mnemonic followed by its destination and then its
/// first and second source registers, in that order.
pub proof fn lemma_sra_text(inst: Sra)
    ensures
        inst.assembly() == ascii("sra x"@) + decimal_text(inst.data.rd as int) + ascii(", x"@) + decimal_text(
            inst.data.rs1 as int,
        ) + ascii(", x"@) + decimal_text(inst.data.rs2 as int),
{
}

/// The assembly text of `or` is its mnemonic followed by its destination and then its
/// first and second source registers, in that order.
pub proof fn lemma_or_text(inst: Or)
    ensures
        inst.assembly() == ascii("or x"@) + decimal_text(inst.data.rd as int) + ascii(", x"@) + decimal_text(
            inst.data.rs1 as int,
        ) + ascii(", x"@) + decimal_text(inst.data.rs2 as int),
{
}

/// The assembly text of `and` is its mnemonic followed by its destination and then its
/// first and second source registers, in that order.
pub proof fn lemma_and_text(inst: And)
    ensures
        inst.assembly() == ascii("and x"@) + decimal_text(inst.data.rd as int) + ascii(", x"@) + decimal_text(
            inst.data.rs1 as int,
        ) + ascii(", x"@) + decimal_text(inst.data.rs2 as int),
{
}

/// The assembly text of `fadd` is its mnemonic followed by its destination and then its
/// first and second source registers, in that order.
pub proof fn lemma_fadd_text(inst: Fadd)
    ensures
        inst.assembly() == ascii("fadd f"@) + decimal_text(inst.data.fd as int) + ascii(", f"@) + decimal_text(
            inst.data.fs1 as int,
        ) + ascii(", f"@) + decimal_text(inst.data.fs2 as int),
{
}

/// The assembly text of `fsub` is its mnemonic followed by its destination and then its
/// first and second source registers, in that order.
pub proof fn lemma_fsub_text(inst: Fsub)
    ensures
        inst.assembly() == ascii("fsub f"@) + decimal_text(inst.data.fd as int) + ascii(", f"@) + decimal_text(
            inst.data.fs1 as int,
        ) + ascii(", f"@) + decimal_text(inst.data.fs2 as int),
{
}

/// The assembly text of `fmul` is its mnemonic followed by its destination and then its
/// first and second source registers, in that order.
pub proof fn lemma_fmul_text(inst: Fmul)
    ensures
        inst.assembly() == ascii("fmul f"@) + decimal_text(inst.data.fd as int) + ascii(", f"@) + decimal_text(
            inst.data.fs1 as int,
        ) + ascii(", f"@) + decimal_text(inst.data.fs2 as int),
{
}

/// The assembly text of `fdiv` is its mnemonic followed by its destination and then its
/// first and second source registers, in that order.
pub proof fn lemma_fdiv_text(inst: Fdiv)
    ensures
        inst.assembly() == ascii("fdiv f"@) + decimal_text(inst.data.fd as int) + ascii(", f"@) + decimal_text(
            inst.data.fs1 as int,
        ) + ascii(", f"@) + decimal_text(inst.data.fs2 as int),
{
}

/// The assembly text of `fsgnj` is its mnemonic followed by its destination and then its
/// first and second source registers, in that order.
pub proof fn lemma_fsgnj_text(inst: Fsgnj)
    ensures
        inst.assembly() == ascii("fsgnj f"@) + decimal_text(inst.data.fd as int) + ascii(", f"@) + decimal_text(
            inst.data.fs1 as int,
        ) + ascii(", f"@) + decimal_text(inst.data.fs2 as int),
{
}

/// The assembly text of `fsgnjn` is its mnemonic followed by its destination and then its
/// first and second source registers, in that order.
pub proof fn lemma_fsgnjn_text(inst: Fsgnjn)
    ensures
        inst.assembly() == ascii("fsgnjn f"@) + decimal_text(inst.data.fd as int) + ascii(", f"@) + decimal_text(
            inst.data.fs1 as int,
        ) + ascii(", f"@) + decimal_text(inst.data.fs2 as int),
{
}

/// The assembly text of `fsgnjx` is its mnemonic followed by its destination and then its
/// first and second source registers, in that order.
pub proof fn lemma_fsgnjx_text(inst: Fsgnjx)
    ensures
        inst.assembly() == ascii("fsgnjx f"@) + decimal_text(inst.data.fd as int) + ascii(", f"@) + decimal_text(
            inst.data.fs1 as int,
        ) + ascii(", f"@) + decimal_text(inst.data.fs2 as int),
{
}

/// The assembly text of `feq` is its mnemonic followed by its destination and then its
/// first and second source registers, in that order.
pub proof fn lemma_feq_text(inst: Feq)
    ensures
        inst.assembly() == ascii("feq x"@) + decimal_text(inst.data.rd as int) + ascii(", f"@) + decimal_text(
            inst.data.fs1 as int,
        ) + ascii(", f"@) + decimal_text(inst.data.fs2 as int),
{
}

/// The assembly text of `flt` is its mnemonic followed by its destination and then its
/// first and second source registers, in that order.
pub proof fn lemma_flt_text(inst: Flt)
    ensures
        inst.assembly() == ascii("flt x"@) + decimal_text(inst.data.rd as int) + ascii(", f"@) + decimal_text(
            inst.data.fs1 as int,
        ) + ascii(", f"@) + decimal_text(inst.data.fs2 as int),
{
}

/// The assembly text of `fle` is its mnemonic followed by its destination and then its
/// first and second source registers, in that order.
pub proof fn lemma_fle_text(inst: Fle)
    ensures
        inst.assembly() == ascii("fle x"@) + decimal_text(inst.data.rd as int) + ascii(", f"@) + decimal_text(
            inst.data.fs1 as int,
        ) + ascii(", f"@) + decimal_text(inst.data.fs2 as int),
{
}


proof fn lemma_shift_bits(x: u32, s: u32, imm: i32)
    by (bit_vector)
    ensures
        s < 32 ==> ((x << s) as u64) == ((x as u64) << (s as u64)) % 0x1_0000_0000,
        -0x4_0000 <= imm < 0x4_0000 ==> (imm << 13u32) as int == imm as int * 0x2000,
{
}

/// `sll` shifts the bits of its first operand left by the low five bits of its second:
/// as unsigned words, the result is the operand times two to that power, wrapping around
/// at 32 bits.
pub proof fn lemma_sll_result(inst: Sll, st: CoreState)
    requires
        inst.ready(),
    ensures
        ({
            let (done, after) = inst.executed(st);
            let a = spec_i32_to_u32(inst.data.rs1_value->0);
            let s = (inst.data.rs2_value->0 & 0x1f) as u32;
            let r = done.data.rd_value->0;
            &&& done.data.rd_value is Some
            &&& spec_i32_to_u32(r) as int == (a as int * pow2(s as nat)) % 0x1_0000_0000
            &&& after == st.with_int_forwarding(inst.data.rd, inst.data.inst_count->0, r)
        }),
{
    let a = spec_i32_to_u32(inst.data.rs1_value->0);
    let b = inst.data.rs2_value->0;
    assert(0 <= b & 0x1f <= 31) by (bit_vector);
    let s = (b & 0x1f) as u32;
    lemma_shift_bits(a, s, 0);
    vstd::arithmetic::power2::lemma2_to64();
    if s < 31 {
        vstd::arithmetic::power2::lemma_pow2_strictly_increases(s as nat, 31);
    }
    let p = pow2(s as nat);
    assert(a as int * p <= 0xffff_ffff * 0x8000_0000) by (nonlinear_arith)
        requires
            a <= 0xffff_ffff,
            0 <= p <= 0x8000_0000,
    ;
    vstd::bits::lemma_u64_shl_is_mul(a as u64, s as u64);
    lemma_word_reinterpretation_round_trip(a << s, 0);
}

/// `srl` shifts the bits of its first operand right by the low five bits of its second,
/// filling with zeros: as unsigned words, the result is the operand divided by two to that
/// power.
pub proof fn lemma_srl_result(inst: Srl, st: CoreState)
    requires
        inst.ready(),
    ensures
        ({
            let (done, after) = inst.executed(st);
            let a = spec_i32_to_u32(inst.data.rs1_value->0);
            let s = (inst.data.rs2_value->0 & 0x1f) as u32;
            let r = done.data.rd_value->0;
            &&& done.data.rd_value is Some
            &&& spec_i32_to_u32(r) as int == a as int / (pow2(s as nat) as int)
            &&& after == st.with_int_forwarding(inst.data.rd, inst.data.inst_count->0, r)
        }),
{
    let a = spec_i32_to_u32(inst.data.rs1_value->0);
    let b = inst.data.rs2_value->0;
    assert(0 <= b & 0x1f <= 31) by (bit_vector);
    let s = (b & 0x1f) as u32;
    vstd::bits::lemma_u32_shr_is_div(a, s);
    lemma_word_reinterpretation_round_trip(a >> s, 0);
}

/// `srli` shifts the bits of its operand right by its amount taken modulo 32, filling with
/// zeros: as unsigned words, the result is the operand divided by two to that power.
pub proof fn lemma_srli_result(inst: Srli, st: CoreState)
    requires
        inst.ready(),
        inst.uimm is Some,
    ensures
        ({
            let (done, after) = inst.executed(st);
            let a = spec_i32_to_u32(inst.data.rs1_value->0);
            let s = inst.uimm->0 % 32;
            let r = done.data.rd_value->0;
            &&& done.data.rd_value is Some
            &&& spec_i32_to_u32(r) as int == a as int / (pow2(s as nat) as int)
            &&& after == st.with_int_forwarding(inst.data.rd, inst.data.inst_count->0, r)
        }),
{
    let a = spec_i32_to_u32(inst.data.rs1_value->0);
    let s = inst.uimm->0 % 32;
    vstd::bits::lemma_u32_shr_is_div(a, s);
    lemma_word_reinterpretation_round_trip(a >> s, 0);
}

/// `lw` reads the word at its register operand plus its offset, wrapping around at 32 bits.
pub proof fn lemma_lw_address(inst: Lw, st: CoreState)
    requires
        inst.ready(),
    ensures
        ({
            let (done, after) = inst.executed(st);
            &&& after == st
            &&& done.addr is Some
            &&& (done.addr->0 as int - inst.data.rs1_value->0 - inst.data.extended_imm->0) % 0x1_0000_0000 == 0
        }),
{
    lemma_casts(0, 0, vstd::wrapping::i32_specs::wrapping_add(inst.data.rs1_value->0, inst.data.extended_imm->0));
}

/// `sw` writes at its register operand plus its offset, wrapping around at 32 bits.
pub proof fn lemma_sw_address(inst: Sw, st: CoreState)
    requires
        inst.ready(),
    ensures
        ({
            let (done, after) = inst.executed(st);
            &&& after == st
            &&& done.addr is Some
            &&& (done.addr->0 as int - inst.data.rs1_value->0 - inst.data.extended_imm->0) % 0x1_0000_0000 == 0
        }),
{
    lemma_casts(0, 0, vstd::wrapping::i32_specs::wrapping_add(inst.data.rs1_value->0, inst.data.extended_imm->0));
}

/// `jal` always jumps, to the address `4 * imm` bytes from its own, and links the address
/// of the word after it into its destination register (wrapping around at 32 bits).
pub proof fn lemma_jal_jumps(inst: Jal, st: CoreState)
    requires
        inst.ready(),
        -0x2000_0000 <= inst.data.extended_imm->0 < 0x2000_0000,
    ensures
        ({
            let (done, after) = inst.executed(st);
            let pc = inst.data.origin_pc->0;
            let r = done.data.rd_value->0;
            &&& done.data.rd_value is Some
            &&& (r - pc - 4) % 0x1_0000_0000 == 0
            &&& done.data.jump_address is Some
            &&& (done.data.jump_address->0 as int - pc as int - 4 * inst.data.extended_imm->0) % 0x1_0000_0000 == 0
            &&& after == st.with_int_forwarding(inst.data.rd, inst.data.inst_count->0, r)
        }),
{
    lemma_branch_target(inst.data.origin_pc->0, inst.data.extended_imm->0);
    lemma_casts(inst.data.origin_pc->0, 0, 0);
}

/// `jalr` always jumps, to the address `4 * imm` bytes from its register operand, and links
/// the address of the word after it into its destination register (wrapping around at 32
/// bits).
pub proof fn lemma_jalr_jumps(inst: Jalr, st: CoreState)
    requires
        inst.ready(),
        -0x2000_0000 <= inst.data.extended_imm->0 < 0x2000_0000,
    ensures
        ({
            let (done, after) = inst.executed(st);
            let pc = inst.origin_pc->0;
            let r = done.data.rd_value->0;
            &&& done.data.rd_value is Some
            &&& (r - pc - 4) % 0x1_0000_0000 == 0
            &&& done.jump_address is Some
            &&& (done.jump_address->0 as int - inst.data.rs1_value->0 - 4 * inst.data.extended_imm->0) % 0x1_0000_0000 == 0
            &&& after == st.with_int_forwarding(inst.data.rd, inst.data.inst_count->0, r)
        }),
{
    let imm = inst.data.extended_imm->0;
    lemma_casts(0, imm, vstd::wrapping::i32_specs::wrapping_add(inst.data.rs1_value->0, imm << 2u32));
    lemma_casts(inst.origin_pc->0, 0, 0);
}

/// `lui` writes its immediate shifted left by thirteen bits.
pub proof fn lemma_lui_result(inst: Lui, st: CoreState, st2: CoreState)
    requires
        -0x4_0000 <= inst.data.imm < 0x4_0000,
    ensures
        ({
            let (done, _) = inst.fetched(st).executed(st2);
            done.data.rd_value == Some((inst.data.imm * 0x2000) as i32)
        }),
{
    lemma_shift_bits(0, 0, inst.data.imm);
}

/// The assembly text of `addi` is its mnemonic, its destination, its source register and its
/// immediate sign-extended from 13 bits, in that order.
pub proof fn lemma_addi_text(inst: Addi)
    ensures
        inst.assembly() == ascii("addi x"@) + decimal_text(inst.data.rd as int) + ascii(", x"@) + decimal_text(inst.data.rs1 as int)
            + ascii(", "@) + decimal_text(spec_sign_extention_i16(inst.data.imm, 13) as int),
{
}

/// The assembly text of `slti` is its mnemonic, its destination, its source register and its
/// immediate sign-extended from 12 bits, in that order.
pub proof fn lemma_slti_text(inst: Slti)
    ensures
        inst.assembly() == ascii("slti x"@) + decimal_text(inst.data.rd as int) + ascii(", x"@) + decimal_text(inst.data.rs1 as int)
            + ascii(", "@) + decimal_text(spec_sign_extention_i16(inst.data.imm, 12) as int),
{
}

/// The assembly text of `xori` is its mnemonic, its destination, its source register and its
/// immediate sign-extended from 12 bits, in that order.
pub proof fn lemma_xori_text(inst: Xori)
    ensures
        inst.assembly() == ascii("xori x"@) + decimal_text(inst.data.rd as int) + ascii(", x"@) + decimal_text(inst.data.rs1 as int)
            + ascii(", "@) + decimal_text(spec_sign_extention_i16(inst.data.imm, 12) as int),
{
}

/// The assembly text of `ori` is its mnemonic, its destination, its source register and its
/// immediate sign-extended from 12 bits, in that order.
pub proof fn lemma_ori_text(inst: Ori)
    ensures
        inst.assembly() == ascii("ori x"@) + decimal_text(inst.data.rd as int) + ascii(", x"@) + decimal_text(inst.data.rs1 as int)
            + ascii(", "@) + decimal_text(spec_sign_extention_i16(inst.data.imm, 12) as int),
{
}

/// The assembly text of `andi` is its mnemonic, its destination, its source register and its
/// immediate sign-extended from 12 bits, in that order.
pub proof fn lemma_andi_text(inst: Andi)
    ensures
        inst.assembly() == ascii("andi x"@) + decimal_text(inst.data.rd as int) + ascii(", x"@) + decimal_text(inst.data.rs1 as int)
            + ascii(", "@) + decimal_text(spec_sign_extention_i16(inst.data.imm, 12) as int),
{
}

/// The assembly text of `lw` is its mnemonic, its data register, and its offset
/// (sign-extended from 13 bits) with its base register in brackets.
pub proof fn lemma_lw_text(inst: Lw)
    ensures
        inst.assembly() == ascii("lw x"@) + decimal_text(inst.data.rd as int) + ascii(", "@) + decimal_text(
            spec_sign_extention_i16(inst.data.imm, 13) as int,
        ) + ascii("(x"@) + decimal_text(inst.data.rs1 as int) + ascii(")"@),
{
}

/// The assembly text of `flw` is its mnemonic, its data register, and its offset
/// (sign-extended from 13 bits) with its base register in brackets.
pub proof fn lemma_flw_text(inst: Flw)
    ensures
        inst.assembly() == ascii("flw f"@) + decimal_text(inst.data.fd as int) + ascii(", "@) + decimal_text(
            spec_sign_extention_i16(inst.data.imm, 13) as int,
        ) + ascii("(x"@) + decimal_text(inst.data.rs1 as int) + ascii(")"@),
{
}

/// The assembly text of `sw` is its mnemonic, its data register, and its offset
/// (sign-extended from 13 bits) with its base register in brackets.
pub proof fn lemma_sw_text(inst: Sw)
    ensures
        inst.assembly() == ascii("sw x"@) + decimal_text(inst.data.rs2 as int) + ascii(", "@) + decimal_text(
            spec_sign_extention_i16(inst.data.imm, 13) as int,
        ) + ascii("(x"@) + decimal_text(inst.data.rs1 as int) + ascii(")"@),
{
}

/// The assembly text of `fsw` is its mnemonic, its data register, and its offset
/// (sign-extended from 13 bits) with its base register in brackets.
pub proof fn lemma_fsw_text(inst: Fsw)
    ensures
        inst.assembly() == ascii("fsw f"@) + decimal_text(inst.data.fs2 as int) + ascii(", "@) + decimal_text(
            spec_sign_extention_i16(inst.data.imm, 13) as int,
        ) + ascii("(x"@) + decimal_text(inst.data.rs1 as int) + ascii(")"@),
{
}

/// The assembly text of `beq` is its mnemonic, its two source registers, its own address
/// (or `?` before it is known) and its offset in bytes.
pub proof fn lemma_beq_text(inst: Beq)
    ensures
        inst.assembly() == ascii("beq x"@) + decimal_text(inst.data.rs1 as int) + ascii(", x"@) + decimal_text(inst.data.rs2 as int)
            + ascii(", "@) + (match inst.data.origin_pc {
            Some(pc) => decimal_text(pc as int),
            None => ascii("?"@),
        }) + ascii(" + "@) + decimal_text(spec_sign_extention_i16(inst.data.imm, 13) * 4),
{
}

/// The assembly text of `bne` is its mnemonic, its two source registers, its own address
/// (or `?` before it is known) and its offset in bytes.
pub proof fn lemma_bne_text(inst: Bne)
    ensures
        inst.assembly() == ascii("bne x"@) + decimal_text(inst.data.rs1 as int) + ascii(", x"@) + decimal_text(inst.data.rs2 as int)
            + ascii(", "@) + (match inst.data.origin_pc {
            Some(pc) => decimal_text(pc as int),
            None => ascii("?"@),
        }) + ascii(" + "@) + decimal_text(spec_sign_extention_i16(inst.data.imm, 13) * 4),
{
}

/// The assembly text of `blt` is its mnemonic, its two source registers, its own address
/// (or `?` before it is known) and its offset in bytes.
pub proof fn lemma_blt_text(inst: Blt)
    ensures
        inst.assembly() == ascii("blt x"@) + decimal_text(inst.data.rs1 as int) + ascii(", x"@) + decimal_text(inst.data.rs2 as int)
            + ascii(", "@) + (match inst.data.origin_pc {
            Some(pc) => decimal_text(pc as int),
            None => ascii("?"@),
        }) + ascii(" + "@) + decimal_text(spec_sign_extention_i16(inst.data.imm, 13) * 4),
{
}

/// The assembly text of `bge` is its mnemonic, its two source registers, its own address
/// (or `?` before it is known) and its offset in bytes.
pub proof fn lemma_bge_text(inst: Bge)
    ensures
        inst.assembly() == ascii("bge x"@) + decimal_text(inst.data.rs1 as int) + ascii(", x"@) + decimal_text(inst.data.rs2 as int)
            + ascii(", "@) + (match inst.data.origin_pc {
            Some(pc) => decimal_text(pc as int),
            None => ascii("?"@),
        }) + ascii(" + "@) + decimal_text(spec_sign_extention_i16(inst.data.imm, 13) * 4),
{
}

/// The assembly text of `fbeq` is its mnemonic, its two source registers, its own address
/// (or `?` before it is known) and its offset in bytes.
pub proof fn lemma_fbeq_text(inst: Fbeq)
    ensures
        inst.assembly() == ascii("fbeq x"@) + decimal_text(inst.data.rs1 as int) + ascii(", x"@) + decimal_text(inst.data.rs2 as int)
            + ascii(", "@) + (match inst.data.origin_pc {
            Some(pc) => decimal_text(pc as int),
            None => ascii("?"@),
        }) + ascii(" + "@) + decimal_text(spec_sign_extention_i16(inst.data.imm, 13) * 4),
{
}

/// The assembly text of `fbne` is its mnemonic, its two source registers, its own address
/// (or `?` before it is known) and its offset in bytes.
pub proof fn lemma_fbne_text(inst: Fbne)
    ensures
        inst.assembly() == ascii("fbne x"@) + decimal_text(inst.data.rs1 as int) + ascii(", x"@) + decimal_text(inst.data.rs2 as int)
            + ascii(", "@) + (match inst.data.origin_pc {
            Some(pc) => decimal_text(pc as int),
            None => ascii("?"@),
        }) + ascii(" + "@) + decimal_text(spec_sign_extention_i16(inst.data.imm, 13) * 4),
{
}

/// The assembly text of `fblt` is its mnemonic, its two source registers, its own address
/// (or `?` before it is known) and its offset in bytes.
pub proof fn lemma_fblt_text(inst: Fblt)
    ensures
        inst.assembly() == ascii("fblt x"@) + decimal_text(inst.data.rs1 as int) + ascii(", x"@) + decimal_text(inst.data.rs2 as int)
            + ascii(", "@) + (match inst.data.origin_pc {
            Some(pc) => decimal_text(pc as int),
            None => ascii("?"@),
        }) + ascii(" + "@) + decimal_text(spec_sign_extention_i16(inst.data.imm, 13) * 4),
{
}

/// The assembly text of `fble` is its mnemonic, its two source registers, its own address
/// (or `?` before it is known) and its offset in bytes.
pub proof fn lemma_fble_text(inst: Fble)
    ensures
        inst.assembly() == ascii("fble x"@) + decimal_text(inst.data.rs1 as int) + ascii(", x"@) + decimal_text(inst.data.rs2 as int)
            + ascii(", "@) + (match inst.data.origin_pc {
            Some(pc) => decimal_text(pc as int),
            None => ascii("?"@),
        }) + ascii(" + "@) + decimal_text(spec_sign_extention_i16(inst.data.imm, 13) * 4),
{
}

/// The assembly text of `jalr` is its mnemonic, its destination, its source register and its
/// offset sign-extended from 13 bits.
pub proof fn lemma_jalr_text(inst: Jalr)
    ensures
        inst.assembly() == ascii("jalr x"@) + decimal_text(inst.data.rd as int) + ascii(", x"@) + decimal_text(inst.data.rs1 as int)
            + ascii(", "@) + decimal_text(spec_sign_extention_i16(inst.data.imm, 13) as int),
{
}

/// The assembly text of `jal` is its mnemonic, its destination and its offset sign-extended
/// from 19 bits.
pub proof fn lemma_jal_text(inst: Jal)
    ensures
        inst.assembly() == ascii("jal x"@) + decimal_text(inst.data.rd as int) + ascii(", "@) + decimal_text(spec_sign_extention_i32(inst.data.imm, 19) as int),
{
}

} // verus!
