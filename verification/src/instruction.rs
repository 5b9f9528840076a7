use vstd::prelude::*;
use crate::cpu_core::{Core, CoreState};
use crate::instruction_memory::INSTRUCTION_MEMORY_SIZE;
use crate::decoder::{Instruction, decode_word, lemma_decoded_registers};
use crate::fpu::{FloatingPoint, fadd_bits};
use crate::fpu_order::{fp_le, fp_lt};
use crate::sign_extension::{sign_extention_i16, sign_extention_i32, spec_sign_extention_i16, spec_sign_extention_i32};
use crate::types::{Address, Fd, Fs1, Fs2, Funct3, Funct7, Imm13, Imm19, Int, InstructionCount, Op, Rd, RegisterId, Rs1, Rs2};
use crate::utils::{ascii, decimal_bytes, decimal_text, i32_to_u32, push_text, spec_i32_to_u32, spec_u32_to_i32, u32_to_i32};

verus! {

proof fn lemma_shift_amount(x: i32)
    ensures
        0 <= x & 0x1f < 32,
        ((x & 0x1f) as u32) == x & 0x1f,
{
    assert(0 <= x & 0x1f < 32) by (bit_vector);
}

/// The fields of an instruction with an immediate and an integer destination.
#[derive(Clone, Copy, Debug)]
pub struct IntIInstructionData {
    pub imm: Imm13,
    pub rs1: Rs1,
    pub rd: Rd,
    pub extended_imm: Option<i32>,
    pub rs1_value: Option<Int>,
    pub rd_value: Option<Int>,
    pub inst_count: Option<InstructionCount>,
}

/// The fields of an instruction with an immediate and a floating-point destination.
#[derive(Clone, Copy, Debug)]
pub struct FloatIInstructionData {
    pub imm: Imm13,
    pub rs1: Rs1,
    pub fd: Fd,
    pub extended_imm: Option<i32>,
    pub rs1_value: Option<Int>,
    pub fd_value: Option<FloatingPoint>,
    pub inst_count: Option<InstructionCount>,
}

/// The fields of a store of an integer register.
#[derive(Clone, Copy, Debug)]
pub struct IntSInstructionData {
    pub imm: Imm13,
    pub rs2: Rs2,
    pub rs1: Rs1,
    pub extended_imm: Option<i32>,
    pub rs2_value: Option<Int>,
    pub rs1_value: Option<Int>,
    pub inst_count: Option<InstructionCount>,
}

/// The fields of a store of a floating-point register.
#[derive(Clone, Copy, Debug)]
pub struct FloatSInstructionData {
    pub imm: Imm13,
    pub fs2: Fs2,
    pub rs1: Rs1,
    pub extended_imm: Option<i32>,
    pub fs2_value: Option<FloatingPoint>,
    pub rs1_value: Option<Int>,
    pub inst_count: Option<InstructionCount>,
}

/// The fields of an instruction on two integer registers with an integer destination.
#[derive(Clone, Copy, Debug)]
pub struct IntRInstructionData {
    pub rs2: Rs2,
    pub rs1: Rs1,
    pub rd: Rd,
    pub rs2_value: Option<Int>,
    pub rs1_value: Option<Int>,
    pub rd_value: Option<Int>,
    pub inst_count: Option<InstructionCount>,
}

/// The fields of an instruction on two floating-point registers with a floating-point destination.
#[derive(Clone, Copy, Debug)]
pub struct FloatRInstructionData {
    pub fs2: Fs2,
    pub fs1: Fs1,
    pub fd: Fd,
    pub rs2_value: Option<FloatingPoint>,
    pub rs1_value: Option<FloatingPoint>,
    pub rd_value: Option<FloatingPoint>,
    pub inst_count: Option<InstructionCount>,
}

/// The fields of an instruction on floating-point registers with an integer destination.
#[derive(Clone, Copy, Debug)]
pub struct FloatIntRInstructionData {
    pub fs2: Fs2,
    pub fs1: Fs1,
    pub rd: Rd,
    pub fs2_value: Option<FloatingPoint>,
    pub fs1_value: Option<FloatingPoint>,
    pub rd_value: Option<Int>,
    pub inst_count: Option<InstructionCount>,
}

/// The fields of an instruction on an integer register with a floating-point destination.
#[derive(Clone, Copy, Debug)]
pub struct IntFloatRInstructionData {
    pub _rs2: Rs2,
    pub rs1: Rs1,
    pub fd: Fd,
    pub _rs2_value: Option<FloatingPoint>,
    pub rs1_value: Option<Int>,
    pub fd_value: Option<FloatingPoint>,
    pub inst_count: Option<InstructionCount>,
}

/// The fields of a branch that compares two integer registers.
#[derive(Clone, Copy, Debug)]
pub struct BInstructionData {
    pub imm: Imm13,
    pub rs2: Rs2,
    pub rs1: Rs1,
    pub extended_imm: Option<i32>,
    pub rs2_value: Option<Int>,
    pub rs1_value: Option<Int>,
    pub inst_count: Option<InstructionCount>,
    pub origin_pc: Option<Address>,
    pub jump_address: Option<Address>,
}

/// The fields of a branch that compares two floating-point registers.
#[derive(Clone, Copy, Debug)]
pub struct FBInstructionData {
    pub imm: Imm13,
    pub rs2: Rs2,
    pub rs1: Rs1,
    pub extended_imm: Option<i32>,
    pub rs2_value: Option<FloatingPoint>,
    pub rs1_value: Option<FloatingPoint>,
    pub inst_count: Option<InstructionCount>,
    pub origin_pc: Option<Address>,
    pub jump_address: Option<Address>,
}

/// The fields of a jump with a 19-bit immediate.
#[derive(Clone, Copy, Debug)]
pub struct JInstructionData {
    pub imm: Imm19,
    pub rd: Rd,
    pub extended_imm: Option<i32>,
    pub rd_value: Option<Int>,
    pub inst_count: Option<InstructionCount>,
    pub origin_pc: Option<Address>,
    pub jump_address: Option<Address>,
}

/// The fields of an instruction with an upper immediate.
#[derive(Clone, Copy, Debug)]
pub struct UInstructionData {
    pub imm: Imm19,
    pub rd: Rd,
    pub upimm: Option<i32>,
    pub rd_value: Option<Int>,
    pub inst_count: Option<InstructionCount>,
    pub origin_pc: Option<Address>,
}

/// Loads the word at `rs1 + imm` into integer register `rd`.
#[derive(Clone, Copy, Debug)]
pub struct Lw {
    pub data: IntIInstructionData,
    pub addr: Option<Address>,
}

impl Lw {
    /// Whether the register numbers name registers that exist.
    pub open spec fn regs_ok(self) -> bool {
        self.data.rs1 < 64 && self.data.rd < 64
    }

    /// The instruction after reading its operands from `st`.
    pub open spec fn fetched(self, st: CoreState) -> Self {
        Self { data: IntIInstructionData { inst_count: Some(st.cycle_count), extended_imm: Some(spec_sign_extention_i16(self.data.imm, 13) as i32), rs1_value: Some(st.int_source(self.data.rs1)), ..self.data }, ..self }
    }

    /// Whether the instruction has read its operands.
    pub open spec fn ready(self) -> bool {
        self.data.inst_count is Some && self.data.extended_imm is Some && self.data.rs1_value is Some
    }

    /// Whether the machine state lets the instruction execute.
    pub open spec fn exec_ok(self, st: CoreState) -> bool {
        true
    }

    /// The instruction and the machine state after the execute stage.
    pub open spec fn executed(self, st: CoreState) -> (Self, CoreState) {
        (Self { addr: Some(vstd::wrapping::i32_specs::wrapping_add(self.data.rs1_value->0, self.data.extended_imm->0) as Address), ..self }, st)
    }

    /// Whether the instruction holds what the memory stage needs.
    pub open spec fn done_exec(self) -> bool {
        self.data.inst_count is Some && self.addr is Some
    }

    /// Whether the memory stage can access the word the instruction addresses.
    pub open spec fn memory_ok(self, st: CoreState) -> bool {
        st.word_access_ok(self.addr->0)
    }

    /// The instruction and the machine state after the memory stage.
    pub open spec fn after_memory(self, st: CoreState) -> (Self, CoreState) {
        let (next, value) = st.load_word_result(self.addr->0);
        (Self { data: IntIInstructionData { rd_value: Some(value), ..self.data }, ..self }, next.with_int_forwarding(self.data.rd, self.data.inst_count->0, value))
    }

    /// Whether the instruction holds what the write-back stage needs.
    pub open spec fn done_memory(self) -> bool {
        self.data.inst_count is Some && self.data.rd_value is Some
    }

    /// The machine state after the write-back stage.
    pub open spec fn written_back(self, st: CoreState) -> CoreState {
        st.with_int_register(self.data.rd as int, self.data.rd_value->0)
    }

    /// The registers the instruction reads.
    pub open spec fn sources(self) -> Seq<RegisterId> {
        seq![RegisterId::Int(self.data.rs1)]
    }

    /// The register the instruction writes, if any.
    pub open spec fn destination(self) -> Option<RegisterId> {
        Some(RegisterId::Int(self.data.rd))
    }

    /// The instruction as decoded, before it reads its operands.
    pub open spec fn spec_new(imm: Imm13, rs1: Rs1, rd: Rd) -> Self {
        Self { data: IntIInstructionData { imm: imm, rs1: rs1, rd: rd, extended_imm: None, rs1_value: None, rd_value: None, inst_count: None }, addr: None }
    }

    /// The instruction as decoded, before it reads its operands.
    pub fn new(imm: Imm13, rs1: Rs1, rd: Rd) -> (r: Self)
        ensures
            r == Self::spec_new(imm, rs1, rd),
    {
        let data = IntIInstructionData {
            imm,
            rs1,
            rd,
            extended_imm: None,
            rs1_value: None,
            rd_value: None,
            inst_count: None,
        };
        Lw { data, addr: None }
    }

    /// Reads the operands: each register from the forwarding network when a value is
    /// forwarded for it, else from the register file.
    pub fn register_fetch(&mut self, core: &Core)
        requires
            core.wf(),
            old(self).regs_ok(),
        ensures
            *final(self) == old(self).fetched(core@),
    {
        self.data.inst_count = Some(core.get_cycle_count());
        self.data.extended_imm = Some(sign_extention_i16(self.data.imm, 13) as i32);
        let forwarding_source = core.get_forwarding_int_source(self.data.rs1);
        if let Some(source) = forwarding_source {
            self.data.rs1_value = Some(source.1);
        } else {
            self.data.rs1_value = Some(core.get_int_register(self.data.rs1 as usize));
        }
    }

    /// The execute stage.
    pub fn exec(&mut self, _core: &mut Core)
        requires
            old(_core).wf(),
            old(self).regs_ok(),
            old(self).ready(),
            old(self).exec_ok(old(_core)@),
        ensures
            final(_core).wf(),
            (*final(self), final(_core)@) == old(self).executed(old(_core)@),
    {
        let extended_imm = self.data.extended_imm.unwrap();
        self.addr = Some(self.data.rs1_value.unwrap().wrapping_add(extended_imm) as Address);
    }

    /// The memory stage.
    pub fn memory(&mut self, core: &mut Core)
        requires
            old(core).wf(),
            old(self).regs_ok(),
            old(self).done_exec(),
            old(self).memory_ok(old(core)@),
        ensures
            final(core).wf(),
            (*final(self), final(core)@) == old(self).after_memory(old(core)@),
    {
        let addr = self.addr.unwrap();
        let value = core.load_word(addr);
        self.data.rd_value = Some(value);
        core.set_forwarding_int_source(self.data.rd, self.data.inst_count.unwrap(), value);
    }

    /// The write-back stage.
    pub fn write_back(&self, core: &mut Core)
        requires
            old(core).wf(),
            self.regs_ok(),
            self.done_memory(),
        ensures
            final(core).wf(),
            final(core)@ == self.written_back(old(core)@),
    {
        let result = self.data.rd_value.unwrap();
        core.set_int_register(self.data.rd as usize, result);
    }

    /// The registers the instruction reads.
    pub fn get_source_registers(&self) -> (r: Vec<RegisterId>)
        ensures
            r@ == self.sources(),
    {
        let mut registers: Vec<RegisterId> = Vec::new();
        registers.push(RegisterId::Int(self.data.rs1));
        registers
    }

    /// The register the instruction writes.
    pub fn get_destination_register(&self) -> (r: Option<RegisterId>)
        ensures
            r == self.destination(),
    {
        Some(RegisterId::Int(self.data.rd))
    }

    /// A load: the instruction after it may have to wait for its value.
    pub fn is_load_instruction(&self) -> (r: bool)
        ensures
            r,
    {
        true
    }

    /// The cycle in which the instruction read its operands, once it has.
    pub fn get_instruction_count(&self) -> (r: Option<InstructionCount>)
        ensures
            r == self.data.inst_count,
    {
        self.data.inst_count
    }

    /// The text of the instruction in assembly language.
    pub open spec fn assembly(self) -> Seq<u8> {
        ascii("lw x"@) + decimal_text(self.data.rd as int) + ascii(", "@) + decimal_text(spec_sign_extention_i16(self.data.imm, 13) as int) + ascii("(x"@) + decimal_text(self.data.rs1 as int) + ascii(")"@)
    }

    /// The text of the instruction in assembly language, in ASCII bytes.
    pub fn assembly_text(&self) -> (r: Vec<u8>)
        ensures
            r@ == self.assembly(),
    {
        let mut text: Vec<u8> = Vec::new();
        push_text(&mut text, "lw x");
        let mut digits = decimal_bytes(self.data.rd as i64);
        text.append(&mut digits);
        push_text(&mut text, ", ");
        let mut digits = decimal_bytes(sign_extention_i16(self.data.imm, 13) as i64);
        text.append(&mut digits);
        push_text(&mut text, "(x");
        let mut digits = decimal_bytes(self.data.rs1 as i64);
        text.append(&mut digits);
        push_text(&mut text, ")");
        text
    }

    /// The mnemonic of the instruction.
    pub fn get_name(&self) -> (r: String)
        ensures
            r@ == "lw"@,
    {
        String::from_str("lw")
    }
}

/// Adds the 13-bit immediate to `rs1`, wrapping around.
#[derive(Clone, Copy, Debug)]
pub struct Addi {
    pub data: IntIInstructionData,
}

impl Addi {
    /// Whether the register numbers name registers that exist.
    pub open spec fn regs_ok(self) -> bool {
        self.data.rs1 < 64 && self.data.rd < 64
    }

    /// The instruction after reading its operands from `st`.
    pub open spec fn fetched(self, st: CoreState) -> Self {
        Self { data: IntIInstructionData { inst_count: Some(st.cycle_count), extended_imm: Some(spec_sign_extention_i16(self.data.imm, 13) as i32), rs1_value: Some(st.int_source(self.data.rs1)), ..self.data } }
    }

    /// Whether the instruction has read its operands.
    pub open spec fn ready(self) -> bool {
        self.data.inst_count is Some && self.data.extended_imm is Some && self.data.rs1_value is Some
    }

    /// Whether the machine state lets the instruction execute.
    pub open spec fn exec_ok(self, st: CoreState) -> bool {
        true
    }

    /// The instruction and the machine state after the execute stage.
    pub open spec fn executed(self, st: CoreState) -> (Self, CoreState) {
        let value: i32 = { let rs1_value = self.data.rs1_value->0; let extended_imm = self.data.extended_imm->0; vstd::wrapping::i32_specs::wrapping_add(rs1_value, extended_imm) };
        (Self { data: IntIInstructionData { rd_value: Some(value), ..self.data } }, st.with_int_forwarding(self.data.rd, self.data.inst_count->0, value))
    }

    /// Whether the instruction holds what the memory stage needs.
    pub open spec fn done_exec(self) -> bool {
        self.data.inst_count is Some && self.data.rd_value is Some
    }

    /// Whether the instruction holds what the write-back stage needs.
    pub open spec fn done_memory(self) -> bool {
        self.data.inst_count is Some && self.data.rd_value is Some
    }

    /// The machine state after the write-back stage.
    pub open spec fn written_back(self, st: CoreState) -> CoreState {
        st.with_int_register(self.data.rd as int, self.data.rd_value->0)
    }

    /// The registers the instruction reads.
    pub open spec fn sources(self) -> Seq<RegisterId> {
        seq![RegisterId::Int(self.data.rs1)]
    }

    /// The register the instruction writes, if any.
    pub open spec fn destination(self) -> Option<RegisterId> {
        Some(RegisterId::Int(self.data.rd))
    }

    /// The instruction as decoded, before it reads its operands.
    pub open spec fn spec_new(imm: Imm13, rs1: Rs1, rd: Rd) -> Self {
        Self { data: IntIInstructionData { imm: imm, rs1: rs1, rd: rd, extended_imm: None, rs1_value: None, rd_value: None, inst_count: None } }
    }

    /// The instruction as decoded, before it reads its operands.
    pub fn new(imm: Imm13, rs1: Rs1, rd: Rd) -> (r: Self)
        ensures
            r == Self::spec_new(imm, rs1, rd),
    {
        let data = IntIInstructionData {
            imm,
            rs1,
            rd,
            extended_imm: None,
            rs1_value: None,
            rd_value: None,
            inst_count: None,
        };
        Addi { data }
    }

    /// Reads the operands: each register from the forwarding network when a value is
    /// forwarded for it, else from the register file.
    pub fn register_fetch(&mut self, core: &Core)
        requires
            core.wf(),
            old(self).regs_ok(),
        ensures
            *final(self) == old(self).fetched(core@),
    {
        self.data.inst_count = Some(core.get_cycle_count());
        self.data.extended_imm = Some(sign_extention_i16(self.data.imm, 13) as i32);
        let forwarding_source = core.get_forwarding_int_source(self.data.rs1);
        if let Some(source) = forwarding_source {
            self.data.rs1_value = Some(source.1);
        } else {
            self.data.rs1_value = Some(core.get_int_register(self.data.rs1 as usize));
        }
    }

    /// The execute stage.
    pub fn exec(&mut self, core: &mut Core)
        requires
            old(core).wf(),
            old(self).regs_ok(),
            old(self).ready(),
            old(self).exec_ok(old(core)@),
        ensures
            final(core).wf(),
            (*final(self), final(core)@) == old(self).executed(old(core)@),
    {
        let extended_imm = self.data.extended_imm.unwrap();
        let rs1_value = self.data.rs1_value.unwrap();
        self.data.rd_value = Some(rs1_value.wrapping_add(extended_imm));
        core.set_forwarding_int_source(self.data.rd, self.data.inst_count.unwrap(), self.data.rd_value.unwrap());
    }

    /// The write-back stage.
    pub fn write_back(&self, core: &mut Core)
        requires
            old(core).wf(),
            self.regs_ok(),
            self.done_memory(),
        ensures
            final(core).wf(),
            final(core)@ == self.written_back(old(core)@),
    {
        let result = self.data.rd_value.unwrap();
        core.set_int_register(self.data.rd as usize, result);
    }

    /// The registers the instruction reads.
    pub fn get_source_registers(&self) -> (r: Vec<RegisterId>)
        ensures
            r@ == self.sources(),
    {
        let mut registers: Vec<RegisterId> = Vec::new();
        registers.push(RegisterId::Int(self.data.rs1));
        registers
    }

    /// The register the instruction writes.
    pub fn get_destination_register(&self) -> (r: Option<RegisterId>)
        ensures
            r == self.destination(),
    {
        Some(RegisterId::Int(self.data.rd))
    }

    /// The cycle in which the instruction read its operands, once it has.
    pub fn get_instruction_count(&self) -> (r: Option<InstructionCount>)
        ensures
            r == self.data.inst_count,
    {
        self.data.inst_count
    }

    /// The text of the instruction in assembly language.
    pub open spec fn assembly(self) -> Seq<u8> {
        ascii("addi x"@) + decimal_text(self.data.rd as int) + ascii(", x"@) + decimal_text(self.data.rs1 as int) + ascii(", "@) + decimal_text(spec_sign_extention_i16(self.data.imm, 13) as int)
    }

    /// The text of the instruction in assembly language, in ASCII bytes.
    pub fn assembly_text(&self) -> (r: Vec<u8>)
        ensures
            r@ == self.assembly(),
    {
        let mut text: Vec<u8> = Vec::new();
        push_text(&mut text, "addi x");
        let mut digits = decimal_bytes(self.data.rd as i64);
        text.append(&mut digits);
        push_text(&mut text, ", x");
        let mut digits = decimal_bytes(self.data.rs1 as i64);
        text.append(&mut digits);
        push_text(&mut text, ", ");
        let mut digits = decimal_bytes(sign_extention_i16(self.data.imm, 13) as i64);
        text.append(&mut digits);
        text
    }

    /// The mnemonic of the instruction.
    pub fn get_name(&self) -> (r: String)
        ensures
            r@ == "addi"@,
    {
        String::from_str("addi")
    }
}

/// Shifts `rs1` left by the 6 low bits of the immediate (taken modulo 32).
#[derive(Clone, Copy, Debug)]
pub struct Slli {
    pub data: IntIInstructionData,
    pub uimm: Option<u32>,
}

impl Slli {
    /// Whether the register numbers name registers that exist.
    pub open spec fn regs_ok(self) -> bool {
        self.data.rs1 < 64 && self.data.rd < 64
    }

    /// The instruction after reading its operands from `st`.
    pub open spec fn fetched(self, st: CoreState) -> Self {
        Self { data: IntIInstructionData { inst_count: Some(st.cycle_count), rs1_value: Some(st.int_source(self.data.rs1)), ..self.data }, uimm: Some((self.data.imm & 63) as u32) }
    }

    /// Whether the instruction has read its operands.
    pub open spec fn ready(self) -> bool {
        self.data.inst_count is Some && self.uimm is Some && self.data.rs1_value is Some
    }

    /// Whether the machine state lets the instruction execute.
    pub open spec fn exec_ok(self, st: CoreState) -> bool {
        true
    }

    /// The instruction and the machine state after the execute stage.
    pub open spec fn executed(self, st: CoreState) -> (Self, CoreState) {
        let value: i32 = { let rs1_value = self.data.rs1_value->0; let uimm = self.uimm->0; vstd::wrapping::i32_specs::wrapping_shl(rs1_value, uimm) };
        (Self { data: IntIInstructionData { rd_value: Some(value), ..self.data }, ..self }, st.with_int_forwarding(self.data.rd, self.data.inst_count->0, value))
    }

    /// Whether the instruction holds what the memory stage needs.
    pub open spec fn done_exec(self) -> bool {
        self.data.inst_count is Some && self.data.rd_value is Some
    }

    /// Whether the instruction holds what the write-back stage needs.
    pub open spec fn done_memory(self) -> bool {
        self.data.inst_count is Some && self.data.rd_value is Some
    }

    /// The machine state after the write-back stage.
    pub open spec fn written_back(self, st: CoreState) -> CoreState {
        st.with_int_register(self.data.rd as int, self.data.rd_value->0)
    }

    /// The registers the instruction reads.
    pub open spec fn sources(self) -> Seq<RegisterId> {
        seq![RegisterId::Int(self.data.rs1)]
    }

    /// The register the instruction writes, if any.
    pub open spec fn destination(self) -> Option<RegisterId> {
        Some(RegisterId::Int(self.data.rd))
    }

    /// The instruction as decoded, before it reads its operands.
    pub open spec fn spec_new(imm: Imm13, rs1: Rs1, rd: Rd) -> Self {
        Self { data: IntIInstructionData { imm: imm, rs1: rs1, rd: rd, extended_imm: None, rs1_value: None, rd_value: None, inst_count: None }, uimm: None }
    }

    /// The instruction as decoded, before it reads its operands.
    pub fn new(imm: Imm13, rs1: Rs1, rd: Rd) -> (r: Self)
        ensures
            r == Self::spec_new(imm, rs1, rd),
    {
        let data = IntIInstructionData {
            imm,
            rs1,
            rd,
            extended_imm: None,
            rs1_value: None,
            rd_value: None,
            inst_count: None,
        };
        Slli { data, uimm: None }
    }

    /// Reads the operands: each register from the forwarding network when a value is
    /// forwarded for it, else from the register file.
    pub fn register_fetch(&mut self, core: &Core)
        requires
            core.wf(),
            old(self).regs_ok(),
        ensures
            *final(self) == old(self).fetched(core@),
    {
        self.data.inst_count = Some(core.get_cycle_count());
        self.uimm = Some((self.data.imm & 63) as u32);
        let forwarding_source = core.get_forwarding_int_source(self.data.rs1);
        if let Some(source) = forwarding_source {
            self.data.rs1_value = Some(source.1);
        } else {
            self.data.rs1_value = Some(core.get_int_register(self.data.rs1 as usize));
        }
    }

    /// The execute stage.
    pub fn exec(&mut self, core: &mut Core)
        requires
            old(core).wf(),
            old(self).regs_ok(),
            old(self).ready(),
            old(self).exec_ok(old(core)@),
        ensures
            final(core).wf(),
            (*final(self), final(core)@) == old(self).executed(old(core)@),
    {
        let uimm = self.uimm.unwrap();
        self.data.rd_value = Some(self.data.rs1_value.unwrap().wrapping_shl(uimm));
        core.set_forwarding_int_source(self.data.rd, self.data.inst_count.unwrap(), self.data.rd_value.unwrap());
    }

    /// The write-back stage.
    pub fn write_back(&self, core: &mut Core)
        requires
            old(core).wf(),
            self.regs_ok(),
            self.done_memory(),
        ensures
            final(core).wf(),
            final(core)@ == self.written_back(old(core)@),
    {
        let result = self.data.rd_value.unwrap();
        core.set_int_register(self.data.rd as usize, result);
    }

    /// The registers the instruction reads.
    pub fn get_source_registers(&self) -> (r: Vec<RegisterId>)
        ensures
            r@ == self.sources(),
    {
        let mut registers: Vec<RegisterId> = Vec::new();
        registers.push(RegisterId::Int(self.data.rs1));
        registers
    }

    /// The register the instruction writes.
    pub fn get_destination_register(&self) -> (r: Option<RegisterId>)
        ensures
            r == self.destination(),
    {
        Some(RegisterId::Int(self.data.rd))
    }

    /// The cycle in which the instruction read its operands, once it has.
    pub fn get_instruction_count(&self) -> (r: Option<InstructionCount>)
        ensures
            r == self.data.inst_count,
    {
        self.data.inst_count
    }

    /// The text of the instruction in assembly language.
    pub open spec fn assembly(self) -> Seq<u8> {
        ascii("slli x"@) + decimal_text(self.data.rd as int) + ascii(", x"@) + decimal_text(self.data.rs1 as int) + ascii(", "@) + decimal_text((self.data.imm & 63) as int)
    }

    /// The text of the instruction in assembly language, in ASCII bytes.
    pub fn assembly_text(&self) -> (r: Vec<u8>)
        ensures
            r@ == self.assembly(),
    {
        let mut text: Vec<u8> = Vec::new();
        push_text(&mut text, "slli x");
        let mut digits = decimal_bytes(self.data.rd as i64);
        text.append(&mut digits);
        push_text(&mut text, ", x");
        let mut digits = decimal_bytes(self.data.rs1 as i64);
        text.append(&mut digits);
        push_text(&mut text, ", ");
        let mut digits = decimal_bytes((self.data.imm & 63) as i64);
        text.append(&mut digits);
        text
    }

    /// The mnemonic of the instruction.
    pub fn get_name(&self) -> (r: String)
        ensures
            r@ == "slli"@,
    {
        String::from_str("slli")
    }
}

/// Sets `rd` to 1 when `rs1` is less than the 12-bit immediate, else to 0.
#[derive(Clone, Copy, Debug)]
pub struct Slti {
    pub data: IntIInstructionData,
}

impl Slti {
    /// Whether the register numbers name registers that exist.
    pub open spec fn regs_ok(self) -> bool {
        self.data.rs1 < 64 && self.data.rd < 64
    }

    /// The instruction after reading its operands from `st`.
    pub open spec fn fetched(self, st: CoreState) -> Self {
        Self { data: IntIInstructionData { inst_count: Some(st.cycle_count), extended_imm: Some(spec_sign_extention_i16(self.data.imm, 12) as i32), rs1_value: Some(st.int_source(self.data.rs1)), ..self.data } }
    }

    /// Whether the instruction has read its operands.
    pub open spec fn ready(self) -> bool {
        self.data.inst_count is Some && self.data.extended_imm is Some && self.data.rs1_value is Some
    }

    /// Whether the machine state lets the instruction execute.
    pub open spec fn exec_ok(self, st: CoreState) -> bool {
        true
    }

    /// The instruction and the machine state after the execute stage.
    pub open spec fn executed(self, st: CoreState) -> (Self, CoreState) {
        let value: i32 = { let rs1_value = self.data.rs1_value->0; let extended_imm = self.data.extended_imm->0; if rs1_value < extended_imm { 1i32 } else { 0i32 } };
        (Self { data: IntIInstructionData { rd_value: Some(value), ..self.data } }, st.with_int_forwarding(self.data.rd, self.data.inst_count->0, value))
    }

    /// Whether the instruction holds what the memory stage needs.
    pub open spec fn done_exec(self) -> bool {
        self.data.inst_count is Some && self.data.rd_value is Some
    }

    /// Whether the instruction holds what the write-back stage needs.
    pub open spec fn done_memory(self) -> bool {
        self.data.inst_count is Some && self.data.rd_value is Some
    }

    /// The machine state after the write-back stage.
    pub open spec fn written_back(self, st: CoreState) -> CoreState {
        st.with_int_register(self.data.rd as int, self.data.rd_value->0)
    }

    /// The registers the instruction reads.
    pub open spec fn sources(self) -> Seq<RegisterId> {
        seq![RegisterId::Int(self.data.rs1)]
    }

    /// The register the instruction writes, if any.
    pub open spec fn destination(self) -> Option<RegisterId> {
        Some(RegisterId::Int(self.data.rd))
    }

    /// The instruction as decoded, before it reads its operands.
    pub open spec fn spec_new(imm: Imm13, rs1: Rs1, rd: Rd) -> Self {
        Self { data: IntIInstructionData { imm: imm, rs1: rs1, rd: rd, extended_imm: None, rs1_value: None, rd_value: None, inst_count: None } }
    }

    /// The instruction as decoded, before it reads its operands.
    pub fn new(imm: Imm13, rs1: Rs1, rd: Rd) -> (r: Self)
        ensures
            r == Self::spec_new(imm, rs1, rd),
    {
        let data = IntIInstructionData {
            imm,
            rs1,
            rd,
            extended_imm: None,
            rs1_value: None,
            rd_value: None,
            inst_count: None,
        };
        Slti { data }
    }

    /// Reads the operands: each register from the forwarding network when a value is
    /// forwarded for it, else from the register file.
    pub fn register_fetch(&mut self, core: &Core)
        requires
            core.wf(),
            old(self).regs_ok(),
        ensures
            *final(self) == old(self).fetched(core@),
    {
        self.data.inst_count = Some(core.get_cycle_count());
        self.data.extended_imm = Some(sign_extention_i16(self.data.imm, 12) as i32);
        let forwarding_source = core.get_forwarding_int_source(self.data.rs1);
        if let Some(source) = forwarding_source {
            self.data.rs1_value = Some(source.1);
        } else {
            self.data.rs1_value = Some(core.get_int_register(self.data.rs1 as usize));
        }
    }

    /// The execute stage.
    pub fn exec(&mut self, core: &mut Core)
        requires
            old(core).wf(),
            old(self).regs_ok(),
            old(self).ready(),
            old(self).exec_ok(old(core)@),
        ensures
            final(core).wf(),
            (*final(self), final(core)@) == old(self).executed(old(core)@),
    {
        let extended_imm = self.data.extended_imm.unwrap();
        let rs1_value = self.data.rs1_value.unwrap();
        self.data.rd_value = Some(if rs1_value < extended_imm { 1 } else { 0 });
        core.set_forwarding_int_source(self.data.rd, self.data.inst_count.unwrap(), self.data.rd_value.unwrap());
    }

    /// The write-back stage.
    pub fn write_back(&self, core: &mut Core)
        requires
            old(core).wf(),
            self.regs_ok(),
            self.done_memory(),
        ensures
            final(core).wf(),
            final(core)@ == self.written_back(old(core)@),
    {
        let result = self.data.rd_value.unwrap();
        core.set_int_register(self.data.rd as usize, result);
    }

    /// The registers the instruction reads.
    pub fn get_source_registers(&self) -> (r: Vec<RegisterId>)
        ensures
            r@ == self.sources(),
    {
        let mut registers: Vec<RegisterId> = Vec::new();
        registers.push(RegisterId::Int(self.data.rs1));
        registers
    }

    /// The register the instruction writes.
    pub fn get_destination_register(&self) -> (r: Option<RegisterId>)
        ensures
            r == self.destination(),
    {
        Some(RegisterId::Int(self.data.rd))
    }

    /// The cycle in which the instruction read its operands, once it has.
    pub fn get_instruction_count(&self) -> (r: Option<InstructionCount>)
        ensures
            r == self.data.inst_count,
    {
        self.data.inst_count
    }

    /// The text of the instruction in assembly language.
    pub open spec fn assembly(self) -> Seq<u8> {
        ascii("slti x"@) + decimal_text(self.data.rd as int) + ascii(", x"@) + decimal_text(self.data.rs1 as int) + ascii(", "@) + decimal_text(spec_sign_extention_i16(self.data.imm, 12) as int)
    }

    /// The text of the instruction in assembly language, in ASCII bytes.
    pub fn assembly_text(&self) -> (r: Vec<u8>)
        ensures
            r@ == self.assembly(),
    {
        let mut text: Vec<u8> = Vec::new();
        push_text(&mut text, "slti x");
        let mut digits = decimal_bytes(self.data.rd as i64);
        text.append(&mut digits);
        push_text(&mut text, ", x");
        let mut digits = decimal_bytes(self.data.rs1 as i64);
        text.append(&mut digits);
        push_text(&mut text, ", ");
        let mut digits = decimal_bytes(sign_extention_i16(self.data.imm, 12) as i64);
        text.append(&mut digits);
        text
    }

    /// The mnemonic of the instruction.
    pub fn get_name(&self) -> (r: String)
        ensures
            r@ == "slti"@,
    {
        String::from_str("slti")
    }
}

/// Exclusive or of `rs1` and the 12-bit immediate.
#[derive(Clone, Copy, Debug)]
pub struct Xori {
    pub data: IntIInstructionData,
}

impl Xori {
    /// Whether the register numbers name registers that exist.
    pub open spec fn regs_ok(self) -> bool {
        self.data.rs1 < 64 && self.data.rd < 64
    }

    /// The instruction after reading its operands from `st`.
    pub open spec fn fetched(self, st: CoreState) -> Self {
        Self { data: IntIInstructionData { inst_count: Some(st.cycle_count), extended_imm: Some(spec_sign_extention_i16(self.data.imm, 12) as i32), rs1_value: Some(st.int_source(self.data.rs1)), ..self.data } }
    }

    /// Whether the instruction has read its operands.
    pub open spec fn ready(self) -> bool {
        self.data.inst_count is Some && self.data.extended_imm is Some && self.data.rs1_value is Some
    }

    /// Whether the machine state lets the instruction execute.
    pub open spec fn exec_ok(self, st: CoreState) -> bool {
        true
    }

    /// The instruction and the machine state after the execute stage.
    pub open spec fn executed(self, st: CoreState) -> (Self, CoreState) {
        let value: i32 = { let rs1_value = self.data.rs1_value->0; let extended_imm = self.data.extended_imm->0; rs1_value ^ extended_imm };
        (Self { data: IntIInstructionData { rd_value: Some(value), ..self.data } }, st.with_int_forwarding(self.data.rd, self.data.inst_count->0, value))
    }

    /// Whether the instruction holds what the memory stage needs.
    pub open spec fn done_exec(self) -> bool {
        self.data.inst_count is Some && self.data.rd_value is Some
    }

    /// Whether the instruction holds what the write-back stage needs.
    pub open spec fn done_memory(self) -> bool {
        self.data.inst_count is Some && self.data.rd_value is Some
    }

    /// The machine state after the write-back stage.
    pub open spec fn written_back(self, st: CoreState) -> CoreState {
        st.with_int_register(self.data.rd as int, self.data.rd_value->0)
    }

    /// The registers the instruction reads.
    pub open spec fn sources(self) -> Seq<RegisterId> {
        seq![RegisterId::Int(self.data.rs1)]
    }

    /// The register the instruction writes, if any.
    pub open spec fn destination(self) -> Option<RegisterId> {
        Some(RegisterId::Int(self.data.rd))
    }

    /// The instruction as decoded, before it reads its operands.
    pub open spec fn spec_new(imm: Imm13, rs1: Rs1, rd: Rd) -> Self {
        Self { data: IntIInstructionData { imm: imm, rs1: rs1, rd: rd, extended_imm: None, rs1_value: None, rd_value: None, inst_count: None } }
    }

    /// The instruction as decoded, before it reads its operands.
    pub fn new(imm: Imm13, rs1: Rs1, rd: Rd) -> (r: Self)
        ensures
            r == Self::spec_new(imm, rs1, rd),
    {
        let data = IntIInstructionData {
            imm,
            rs1,
            rd,
            extended_imm: None,
            rs1_value: None,
            rd_value: None,
            inst_count: None,
        };
        Xori { data }
    }

    /// Reads the operands: each register from the forwarding network when a value is
    /// forwarded for it, else from the register file.
    pub fn register_fetch(&mut self, core: &Core)
        requires
            core.wf(),
            old(self).regs_ok(),
        ensures
            *final(self) == old(self).fetched(core@),
    {
        self.data.inst_count = Some(core.get_cycle_count());
        self.data.extended_imm = Some(sign_extention_i16(self.data.imm, 12) as i32);
        let forwarding_source = core.get_forwarding_int_source(self.data.rs1);
        if let Some(source) = forwarding_source {
            self.data.rs1_value = Some(source.1);
        } else {
            self.data.rs1_value = Some(core.get_int_register(self.data.rs1 as usize));
        }
    }

    /// The execute stage.
    pub fn exec(&mut self, core: &mut Core)
        requires
            old(core).wf(),
            old(self).regs_ok(),
            old(self).ready(),
            old(self).exec_ok(old(core)@),
        ensures
            final(core).wf(),
            (*final(self), final(core)@) == old(self).executed(old(core)@),
    {
        let extended_imm = self.data.extended_imm.unwrap();
        let rs1_value = self.data.rs1_value.unwrap();
        self.data.rd_value = Some(rs1_value ^ extended_imm);
        core.set_forwarding_int_source(self.data.rd, self.data.inst_count.unwrap(), self.data.rd_value.unwrap());
    }

    /// The write-back stage.
    pub fn write_back(&self, core: &mut Core)
        requires
            old(core).wf(),
            self.regs_ok(),
            self.done_memory(),
        ensures
            final(core).wf(),
            final(core)@ == self.written_back(old(core)@),
    {
        let result = self.data.rd_value.unwrap();
        core.set_int_register(self.data.rd as usize, result);
    }

    /// The registers the instruction reads.
    pub fn get_source_registers(&self) -> (r: Vec<RegisterId>)
        ensures
            r@ == self.sources(),
    {
        let mut registers: Vec<RegisterId> = Vec::new();
        registers.push(RegisterId::Int(self.data.rs1));
        registers
    }

    /// The register the instruction writes.
    pub fn get_destination_register(&self) -> (r: Option<RegisterId>)
        ensures
            r == self.destination(),
    {
        Some(RegisterId::Int(self.data.rd))
    }

    /// The cycle in which the instruction read its operands, once it has.
    pub fn get_instruction_count(&self) -> (r: Option<InstructionCount>)
        ensures
            r == self.data.inst_count,
    {
        self.data.inst_count
    }

    /// The text of the instruction in assembly language.
    pub open spec fn assembly(self) -> Seq<u8> {
        ascii("xori x"@) + decimal_text(self.data.rd as int) + ascii(", x"@) + decimal_text(self.data.rs1 as int) + ascii(", "@) + decimal_text(spec_sign_extention_i16(self.data.imm, 12) as int)
    }

    /// The text of the instruction in assembly language, in ASCII bytes.
    pub fn assembly_text(&self) -> (r: Vec<u8>)
        ensures
            r@ == self.assembly(),
    {
        let mut text: Vec<u8> = Vec::new();
        push_text(&mut text, "xori x");
        let mut digits = decimal_bytes(self.data.rd as i64);
        text.append(&mut digits);
        push_text(&mut text, ", x");
        let mut digits = decimal_bytes(self.data.rs1 as i64);
        text.append(&mut digits);
        push_text(&mut text, ", ");
        let mut digits = decimal_bytes(sign_extention_i16(self.data.imm, 12) as i64);
        text.append(&mut digits);
        text
    }

    /// The mnemonic of the instruction.
    pub fn get_name(&self) -> (r: String)
        ensures
            r@ == "xori"@,
    {
        String::from_str("xori")
    }
}

/// Shifts `rs1` right, filling with zeros, by the 6 low bits of the immediate (modulo 32).
#[derive(Clone, Copy, Debug)]
pub struct Srli {
    pub data: IntIInstructionData,
    pub uimm: Option<u32>,
}

impl Srli {
    /// Whether the register numbers name registers that exist.
    pub open spec fn regs_ok(self) -> bool {
        self.data.rs1 < 64 && self.data.rd < 64
    }

    /// The instruction after reading its operands from `st`.
    pub open spec fn fetched(self, st: CoreState) -> Self {
        Self { data: IntIInstructionData { inst_count: Some(st.cycle_count), rs1_value: Some(st.int_source(self.data.rs1)), ..self.data }, uimm: Some((self.data.imm & 63) as u32) }
    }

    /// Whether the instruction has read its operands.
    pub open spec fn ready(self) -> bool {
        self.data.inst_count is Some && self.uimm is Some && self.data.rs1_value is Some
    }

    /// Whether the machine state lets the instruction execute.
    pub open spec fn exec_ok(self, st: CoreState) -> bool {
        true
    }

    /// The instruction and the machine state after the execute stage.
    pub open spec fn executed(self, st: CoreState) -> (Self, CoreState) {
        let value: i32 = { let rs1_value = self.data.rs1_value->0; let uimm = self.uimm->0; spec_u32_to_i32(vstd::wrapping::u32_specs::wrapping_shr(spec_i32_to_u32(rs1_value), uimm)) };
        (Self { data: IntIInstructionData { rd_value: Some(value), ..self.data }, ..self }, st.with_int_forwarding(self.data.rd, self.data.inst_count->0, value))
    }

    /// Whether the instruction holds what the memory stage needs.
    pub open spec fn done_exec(self) -> bool {
        self.data.inst_count is Some && self.data.rd_value is Some
    }

    /// Whether the instruction holds what the write-back stage needs.
    pub open spec fn done_memory(self) -> bool {
        self.data.inst_count is Some && self.data.rd_value is Some
    }

    /// The machine state after the write-back stage.
    pub open spec fn written_back(self, st: CoreState) -> CoreState {
        st.with_int_register(self.data.rd as int, self.data.rd_value->0)
    }

    /// The registers the instruction reads.
    pub open spec fn sources(self) -> Seq<RegisterId> {
        seq![RegisterId::Int(self.data.rs1)]
    }

    /// The register the instruction writes, if any.
    pub open spec fn destination(self) -> Option<RegisterId> {
        Some(RegisterId::Int(self.data.rd))
    }

    /// The instruction as decoded, before it reads its operands.
    pub open spec fn spec_new(imm: Imm13, rs1: Rs1, rd: Rd) -> Self {
        Self { data: IntIInstructionData { imm: imm, rs1: rs1, rd: rd, extended_imm: None, rs1_value: None, rd_value: None, inst_count: None }, uimm: None }
    }

    /// The instruction as decoded, before it reads its operands.
    pub fn new(imm: Imm13, rs1: Rs1, rd: Rd) -> (r: Self)
        ensures
            r == Self::spec_new(imm, rs1, rd),
    {
        let data = IntIInstructionData {
            imm,
            rs1,
            rd,
            extended_imm: None,
            rs1_value: None,
            rd_value: None,
            inst_count: None,
        };
        Srli { data, uimm: None }
    }

    /// Reads the operands: each register from the forwarding network when a value is
    /// forwarded for it, else from the register file.
    pub fn register_fetch(&mut self, core: &Core)
        requires
            core.wf(),
            old(self).regs_ok(),
        ensures
            *final(self) == old(self).fetched(core@),
    {
        self.data.inst_count = Some(core.get_cycle_count());
        self.uimm = Some((self.data.imm & 63) as u32);
        let forwarding_source = core.get_forwarding_int_source(self.data.rs1);
        if let Some(source) = forwarding_source {
            self.data.rs1_value = Some(source.1);
        } else {
            self.data.rs1_value = Some(core.get_int_register(self.data.rs1 as usize));
        }
    }

    /// The execute stage.
    pub fn exec(&mut self, core: &mut Core)
        requires
            old(core).wf(),
            old(self).regs_ok(),
            old(self).ready(),
            old(self).exec_ok(old(core)@),
        ensures
            final(core).wf(),
            (*final(self), final(core)@) == old(self).executed(old(core)@),
    {
        let uimm = self.uimm.unwrap();
        self.data.rd_value = Some(u32_to_i32(i32_to_u32(self.data.rs1_value.unwrap()).wrapping_shr(uimm)));
        core.set_forwarding_int_source(self.data.rd, self.data.inst_count.unwrap(), self.data.rd_value.unwrap());
    }

    /// The write-back stage.
    pub fn write_back(&self, core: &mut Core)
        requires
            old(core).wf(),
            self.regs_ok(),
            self.done_memory(),
        ensures
            final(core).wf(),
            final(core)@ == self.written_back(old(core)@),
    {
        let result = self.data.rd_value.unwrap();
        core.set_int_register(self.data.rd as usize, result);
    }

    /// The registers the instruction reads.
    pub fn get_source_registers(&self) -> (r: Vec<RegisterId>)
        ensures
            r@ == self.sources(),
    {
        let mut registers: Vec<RegisterId> = Vec::new();
        registers.push(RegisterId::Int(self.data.rs1));
        registers
    }

    /// The register the instruction writes.
    pub fn get_destination_register(&self) -> (r: Option<RegisterId>)
        ensures
            r == self.destination(),
    {
        Some(RegisterId::Int(self.data.rd))
    }

    /// The cycle in which the instruction read its operands, once it has.
    pub fn get_instruction_count(&self) -> (r: Option<InstructionCount>)
        ensures
            r == self.data.inst_count,
    {
        self.data.inst_count
    }

    /// The text of the instruction in assembly language.
    pub open spec fn assembly(self) -> Seq<u8> {
        ascii("srli x"@) + decimal_text(self.data.rd as int) + ascii(", x"@) + decimal_text(self.data.rs1 as int) + ascii(", "@) + decimal_text((self.data.imm & 63) as int)
    }

    /// The text of the instruction in assembly language, in ASCII bytes.
    pub fn assembly_text(&self) -> (r: Vec<u8>)
        ensures
            r@ == self.assembly(),
    {
        let mut text: Vec<u8> = Vec::new();
        push_text(&mut text, "srli x");
        let mut digits = decimal_bytes(self.data.rd as i64);
        text.append(&mut digits);
        push_text(&mut text, ", x");
        let mut digits = decimal_bytes(self.data.rs1 as i64);
        text.append(&mut digits);
        push_text(&mut text, ", ");
        let mut digits = decimal_bytes((self.data.imm & 63) as i64);
        text.append(&mut digits);
        text
    }

    /// The mnemonic of the instruction.
    pub fn get_name(&self) -> (r: String)
        ensures
            r@ == "srli"@,
    {
        String::from_str("srli")
    }
}

/// Shifts `rs1` right, keeping its sign, by the 5 low bits of the immediate.
#[derive(Clone, Copy, Debug)]
pub struct Srai {
    pub data: IntIInstructionData,
    pub uimm: Option<u32>,
}

impl Srai {
    /// Whether the register numbers name registers that exist.
    pub open spec fn regs_ok(self) -> bool {
        self.data.rs1 < 64 && self.data.rd < 64
    }

    /// The instruction after reading its operands from `st`.
    pub open spec fn fetched(self, st: CoreState) -> Self {
        Self { data: IntIInstructionData { inst_count: Some(st.cycle_count), rs1_value: Some(st.int_source(self.data.rs1)), ..self.data }, uimm: Some((self.data.imm & 31) as u32) }
    }

    /// Whether the instruction has read its operands.
    pub open spec fn ready(self) -> bool {
        self.data.inst_count is Some && self.uimm is Some && self.data.rs1_value is Some
    }

    /// Whether the machine state lets the instruction execute.
    pub open spec fn exec_ok(self, st: CoreState) -> bool {
        true
    }

    /// The instruction and the machine state after the execute stage.
    pub open spec fn executed(self, st: CoreState) -> (Self, CoreState) {
        let value: i32 = { let rs1_value = self.data.rs1_value->0; let uimm = self.uimm->0; vstd::wrapping::i32_specs::wrapping_shr(rs1_value, uimm) };
        (Self { data: IntIInstructionData { rd_value: Some(value), ..self.data }, ..self }, st.with_int_forwarding(self.data.rd, self.data.inst_count->0, value))
    }

    /// Whether the instruction holds what the memory stage needs.
    pub open spec fn done_exec(self) -> bool {
        self.data.inst_count is Some && self.data.rd_value is Some
    }

    /// Whether the instruction holds what the write-back stage needs.
    pub open spec fn done_memory(self) -> bool {
        self.data.inst_count is Some && self.data.rd_value is Some
    }

    /// The machine state after the write-back stage.
    pub open spec fn written_back(self, st: CoreState) -> CoreState {
        st.with_int_register(self.data.rd as int, self.data.rd_value->0)
    }

    /// The registers the instruction reads.
    pub open spec fn sources(self) -> Seq<RegisterId> {
        seq![RegisterId::Int(self.data.rs1)]
    }

    /// The register the instruction writes, if any.
    pub open spec fn destination(self) -> Option<RegisterId> {
        Some(RegisterId::Int(self.data.rd))
    }

    /// The instruction as decoded, before it reads its operands.
    pub open spec fn spec_new(imm: Imm13, rs1: Rs1, rd: Rd) -> Self {
        Self { data: IntIInstructionData { imm: imm, rs1: rs1, rd: rd, extended_imm: None, rs1_value: None, rd_value: None, inst_count: None }, uimm: None }
    }

    /// The instruction as decoded, before it reads its operands.
    pub fn new(imm: Imm13, rs1: Rs1, rd: Rd) -> (r: Self)
        ensures
            r == Self::spec_new(imm, rs1, rd),
    {
        let data = IntIInstructionData {
            imm,
            rs1,
            rd,
            extended_imm: None,
            rs1_value: None,
            rd_value: None,
            inst_count: None,
        };
        Srai { data, uimm: None }
    }

    /// Reads the operands: each register from the forwarding network when a value is
    /// forwarded for it, else from the register file.
    pub fn register_fetch(&mut self, core: &Core)
        requires
            core.wf(),
            old(self).regs_ok(),
        ensures
            *final(self) == old(self).fetched(core@),
    {
        self.data.inst_count = Some(core.get_cycle_count());
        self.uimm = Some((self.data.imm & 31) as u32);
        let forwarding_source = core.get_forwarding_int_source(self.data.rs1);
        if let Some(source) = forwarding_source {
            self.data.rs1_value = Some(source.1);
        } else {
            self.data.rs1_value = Some(core.get_int_register(self.data.rs1 as usize));
        }
    }

    /// The execute stage.
    pub fn exec(&mut self, core: &mut Core)
        requires
            old(core).wf(),
            old(self).regs_ok(),
            old(self).ready(),
            old(self).exec_ok(old(core)@),
        ensures
            final(core).wf(),
            (*final(self), final(core)@) == old(self).executed(old(core)@),
    {
        let uimm = self.uimm.unwrap();
        self.data.rd_value = Some(self.data.rs1_value.unwrap().wrapping_shr(uimm));
        core.set_forwarding_int_source(self.data.rd, self.data.inst_count.unwrap(), self.data.rd_value.unwrap());
    }

    /// The write-back stage.
    pub fn write_back(&self, core: &mut Core)
        requires
            old(core).wf(),
            self.regs_ok(),
            self.done_memory(),
        ensures
            final(core).wf(),
            final(core)@ == self.written_back(old(core)@),
    {
        let result = self.data.rd_value.unwrap();
        core.set_int_register(self.data.rd as usize, result);
    }

    /// The registers the instruction reads.
    pub fn get_source_registers(&self) -> (r: Vec<RegisterId>)
        ensures
            r@ == self.sources(),
    {
        let mut registers: Vec<RegisterId> = Vec::new();
        registers.push(RegisterId::Int(self.data.rs1));
        registers
    }

    /// The register the instruction writes.
    pub fn get_destination_register(&self) -> (r: Option<RegisterId>)
        ensures
            r == self.destination(),
    {
        Some(RegisterId::Int(self.data.rd))
    }

    /// The cycle in which the instruction read its operands, once it has.
    pub fn get_instruction_count(&self) -> (r: Option<InstructionCount>)
        ensures
            r == self.data.inst_count,
    {
        self.data.inst_count
    }

    /// The text of the instruction in assembly language.
    pub open spec fn assembly(self) -> Seq<u8> {
        ascii("srai x"@) + decimal_text(self.data.rd as int) + ascii(", x"@) + decimal_text(self.data.rs1 as int) + ascii(", "@) + decimal_text((self.data.imm & 0x1f) as int)
    }

    /// The text of the instruction in assembly language, in ASCII bytes.
    pub fn assembly_text(&self) -> (r: Vec<u8>)
        ensures
            r@ == self.assembly(),
    {
        let mut text: Vec<u8> = Vec::new();
        push_text(&mut text, "srai x");
        let mut digits = decimal_bytes(self.data.rd as i64);
        text.append(&mut digits);
        push_text(&mut text, ", x");
        let mut digits = decimal_bytes(self.data.rs1 as i64);
        text.append(&mut digits);
        push_text(&mut text, ", ");
        let mut digits = decimal_bytes((self.data.imm & 0x1f) as i64);
        text.append(&mut digits);
        text
    }

    /// The mnemonic of the instruction.
    pub fn get_name(&self) -> (r: String)
        ensures
            r@ == "srai"@,
    {
        String::from_str("srai")
    }
}

/// Or of `rs1` and the 12-bit immediate.
#[derive(Clone, Copy, Debug)]
pub struct Ori {
    pub data: IntIInstructionData,
}

impl Ori {
    /// Whether the register numbers name registers that exist.
    pub open spec fn regs_ok(self) -> bool {
        self.data.rs1 < 64 && self.data.rd < 64
    }

    /// The instruction after reading its operands from `st`.
    pub open spec fn fetched(self, st: CoreState) -> Self {
        Self { data: IntIInstructionData { inst_count: Some(st.cycle_count), extended_imm: Some(spec_sign_extention_i16(self.data.imm, 12) as i32), rs1_value: Some(st.int_source(self.data.rs1)), ..self.data } }
    }

    /// Whether the instruction has read its operands.
    pub open spec fn ready(self) -> bool {
        self.data.inst_count is Some && self.data.extended_imm is Some && self.data.rs1_value is Some
    }

    /// Whether the machine state lets the instruction execute.
    pub open spec fn exec_ok(self, st: CoreState) -> bool {
        true
    }

    /// The instruction and the machine state after the execute stage.
    pub open spec fn executed(self, st: CoreState) -> (Self, CoreState) {
        let value: i32 = { let rs1_value = self.data.rs1_value->0; let extended_imm = self.data.extended_imm->0; rs1_value | extended_imm };
        (Self { data: IntIInstructionData { rd_value: Some(value), ..self.data } }, st.with_int_forwarding(self.data.rd, self.data.inst_count->0, value))
    }

    /// Whether the instruction holds what the memory stage needs.
    pub open spec fn done_exec(self) -> bool {
        self.data.inst_count is Some && self.data.rd_value is Some
    }

    /// Whether the instruction holds what the write-back stage needs.
    pub open spec fn done_memory(self) -> bool {
        self.data.inst_count is Some && self.data.rd_value is Some
    }

    /// The machine state after the write-back stage.
    pub open spec fn written_back(self, st: CoreState) -> CoreState {
        st.with_int_register(self.data.rd as int, self.data.rd_value->0)
    }

    /// The registers the instruction reads.
    pub open spec fn sources(self) -> Seq<RegisterId> {
        seq![RegisterId::Int(self.data.rs1)]
    }

    /// The register the instruction writes, if any.
    pub open spec fn destination(self) -> Option<RegisterId> {
        Some(RegisterId::Int(self.data.rd))
    }

    /// The instruction as decoded, before it reads its operands.
    pub open spec fn spec_new(imm: Imm13, rs1: Rs1, rd: Rd) -> Self {
        Self { data: IntIInstructionData { imm: imm, rs1: rs1, rd: rd, extended_imm: None, rs1_value: None, rd_value: None, inst_count: None } }
    }

    /// The instruction as decoded, before it reads its operands.
    pub fn new(imm: Imm13, rs1: Rs1, rd: Rd) -> (r: Self)
        ensures
            r == Self::spec_new(imm, rs1, rd),
    {
        let data = IntIInstructionData {
            imm,
            rs1,
            rd,
            extended_imm: None,
            rs1_value: None,
            rd_value: None,
            inst_count: None,
        };
        Ori { data }
    }

    /// Reads the operands: each register from the forwarding network when a value is
    /// forwarded for it, else from the register file.
    pub fn register_fetch(&mut self, core: &Core)
        requires
            core.wf(),
            old(self).regs_ok(),
        ensures
            *final(self) == old(self).fetched(core@),
    {
        self.data.inst_count = Some(core.get_cycle_count());
        self.data.extended_imm = Some(sign_extention_i16(self.data.imm, 12) as i32);
        let forwarding_source = core.get_forwarding_int_source(self.data.rs1);
        if let Some(source) = forwarding_source {
            self.data.rs1_value = Some(source.1);
        } else {
            self.data.rs1_value = Some(core.get_int_register(self.data.rs1 as usize));
        }
    }

    /// The execute stage.
    pub fn exec(&mut self, core: &mut Core)
        requires
            old(core).wf(),
            old(self).regs_ok(),
            old(self).ready(),
            old(self).exec_ok(old(core)@),
        ensures
            final(core).wf(),
            (*final(self), final(core)@) == old(self).executed(old(core)@),
    {
        let extended_imm = self.data.extended_imm.unwrap();
        let rs1_value = self.data.rs1_value.unwrap();
        self.data.rd_value = Some(rs1_value | extended_imm);
        core.set_forwarding_int_source(self.data.rd, self.data.inst_count.unwrap(), self.data.rd_value.unwrap());
    }

    /// The write-back stage.
    pub fn write_back(&self, core: &mut Core)
        requires
            old(core).wf(),
            self.regs_ok(),
            self.done_memory(),
        ensures
            final(core).wf(),
            final(core)@ == self.written_back(old(core)@),
    {
        let result = self.data.rd_value.unwrap();
        core.set_int_register(self.data.rd as usize, result);
    }

    /// The registers the instruction reads.
    pub fn get_source_registers(&self) -> (r: Vec<RegisterId>)
        ensures
            r@ == self.sources(),
    {
        let mut registers: Vec<RegisterId> = Vec::new();
        registers.push(RegisterId::Int(self.data.rs1));
        registers
    }

    /// The register the instruction writes.
    pub fn get_destination_register(&self) -> (r: Option<RegisterId>)
        ensures
            r == self.destination(),
    {
        Some(RegisterId::Int(self.data.rd))
    }

    /// The cycle in which the instruction read its operands, once it has.
    pub fn get_instruction_count(&self) -> (r: Option<InstructionCount>)
        ensures
            r == self.data.inst_count,
    {
        self.data.inst_count
    }

    /// The text of the instruction in assembly language.
    pub open spec fn assembly(self) -> Seq<u8> {
        ascii("ori x"@) + decimal_text(self.data.rd as int) + ascii(", x"@) + decimal_text(self.data.rs1 as int) + ascii(", "@) + decimal_text(spec_sign_extention_i16(self.data.imm, 12) as int)
    }

    /// The text of the instruction in assembly language, in ASCII bytes.
    pub fn assembly_text(&self) -> (r: Vec<u8>)
        ensures
            r@ == self.assembly(),
    {
        let mut text: Vec<u8> = Vec::new();
        push_text(&mut text, "ori x");
        let mut digits = decimal_bytes(self.data.rd as i64);
        text.append(&mut digits);
        push_text(&mut text, ", x");
        let mut digits = decimal_bytes(self.data.rs1 as i64);
        text.append(&mut digits);
        push_text(&mut text, ", ");
        let mut digits = decimal_bytes(sign_extention_i16(self.data.imm, 12) as i64);
        text.append(&mut digits);
        text
    }

    /// The mnemonic of the instruction.
    pub fn get_name(&self) -> (r: String)
        ensures
            r@ == "ori"@,
    {
        String::from_str("ori")
    }
}

/// And of `rs1` and the 12-bit immediate.
#[derive(Clone, Copy, Debug)]
pub struct Andi {
    pub data: IntIInstructionData,
}

impl Andi {
    /// Whether the register numbers name registers that exist.
    pub open spec fn regs_ok(self) -> bool {
        self.data.rs1 < 64 && self.data.rd < 64
    }

    /// The instruction after reading its operands from `st`.
    pub open spec fn fetched(self, st: CoreState) -> Self {
        Self { data: IntIInstructionData { inst_count: Some(st.cycle_count), extended_imm: Some(spec_sign_extention_i16(self.data.imm, 12) as i32), rs1_value: Some(st.int_source(self.data.rs1)), ..self.data } }
    }

    /// Whether the instruction has read its operands.
    pub open spec fn ready(self) -> bool {
        self.data.inst_count is Some && self.data.extended_imm is Some && self.data.rs1_value is Some
    }

    /// Whether the machine state lets the instruction execute.
    pub open spec fn exec_ok(self, st: CoreState) -> bool {
        true
    }

    /// The instruction and the machine state after the execute stage.
    pub open spec fn executed(self, st: CoreState) -> (Self, CoreState) {
        let value: i32 = { let rs1_value = self.data.rs1_value->0; let extended_imm = self.data.extended_imm->0; rs1_value & extended_imm };
        (Self { data: IntIInstructionData { rd_value: Some(value), ..self.data } }, st.with_int_forwarding(self.data.rd, self.data.inst_count->0, value))
    }

    /// Whether the instruction holds what the memory stage needs.
    pub open spec fn done_exec(self) -> bool {
        self.data.inst_count is Some && self.data.rd_value is Some
    }

    /// Whether the instruction holds what the write-back stage needs.
    pub open spec fn done_memory(self) -> bool {
        self.data.inst_count is Some && self.data.rd_value is Some
    }

    /// The machine state after the write-back stage.
    pub open spec fn written_back(self, st: CoreState) -> CoreState {
        st.with_int_register(self.data.rd as int, self.data.rd_value->0)
    }

    /// The registers the instruction reads.
    pub open spec fn sources(self) -> Seq<RegisterId> {
        seq![RegisterId::Int(self.data.rs1)]
    }

    /// The register the instruction writes, if any.
    pub open spec fn destination(self) -> Option<RegisterId> {
        Some(RegisterId::Int(self.data.rd))
    }

    /// The instruction as decoded, before it reads its operands.
    pub open spec fn spec_new(imm: Imm13, rs1: Rs1, rd: Rd) -> Self {
        Self { data: IntIInstructionData { imm: imm, rs1: rs1, rd: rd, extended_imm: None, rs1_value: None, rd_value: None, inst_count: None } }
    }

    /// The instruction as decoded, before it reads its operands.
    pub fn new(imm: Imm13, rs1: Rs1, rd: Rd) -> (r: Self)
        ensures
            r == Self::spec_new(imm, rs1, rd),
    {
        let data = IntIInstructionData {
            imm,
            rs1,
            rd,
            extended_imm: None,
            rs1_value: None,
            rd_value: None,
            inst_count: None,
        };
        Andi { data }
    }

    /// Reads the operands: each register from the forwarding network when a value is
    /// forwarded for it, else from the register file.
    pub fn register_fetch(&mut self, core: &Core)
        requires
            core.wf(),
            old(self).regs_ok(),
        ensures
            *final(self) == old(self).fetched(core@),
    {
        self.data.inst_count = Some(core.get_cycle_count());
        self.data.extended_imm = Some(sign_extention_i16(self.data.imm, 12) as i32);
        let forwarding_source = core.get_forwarding_int_source(self.data.rs1);
        if let Some(source) = forwarding_source {
            self.data.rs1_value = Some(source.1);
        } else {
            self.data.rs1_value = Some(core.get_int_register(self.data.rs1 as usize));
        }
    }

    /// The execute stage.
    pub fn exec(&mut self, core: &mut Core)
        requires
            old(core).wf(),
            old(self).regs_ok(),
            old(self).ready(),
            old(self).exec_ok(old(core)@),
        ensures
            final(core).wf(),
            (*final(self), final(core)@) == old(self).executed(old(core)@),
    {
        let extended_imm = self.data.extended_imm.unwrap();
        let rs1_value = self.data.rs1_value.unwrap();
        self.data.rd_value = Some(rs1_value & extended_imm);
        core.set_forwarding_int_source(self.data.rd, self.data.inst_count.unwrap(), self.data.rd_value.unwrap());
    }

    /// The write-back stage.
    pub fn write_back(&self, core: &mut Core)
        requires
            old(core).wf(),
            self.regs_ok(),
            self.done_memory(),
        ensures
            final(core).wf(),
            final(core)@ == self.written_back(old(core)@),
    {
        let result = self.data.rd_value.unwrap();
        core.set_int_register(self.data.rd as usize, result);
    }

    /// The registers the instruction reads.
    pub fn get_source_registers(&self) -> (r: Vec<RegisterId>)
        ensures
            r@ == self.sources(),
    {
        let mut registers: Vec<RegisterId> = Vec::new();
        registers.push(RegisterId::Int(self.data.rs1));
        registers
    }

    /// The register the instruction writes.
    pub fn get_destination_register(&self) -> (r: Option<RegisterId>)
        ensures
            r == self.destination(),
    {
        Some(RegisterId::Int(self.data.rd))
    }

    /// The cycle in which the instruction read its operands, once it has.
    pub fn get_instruction_count(&self) -> (r: Option<InstructionCount>)
        ensures
            r == self.data.inst_count,
    {
        self.data.inst_count
    }

    /// The text of the instruction in assembly language.
    pub open spec fn assembly(self) -> Seq<u8> {
        ascii("andi x"@) + decimal_text(self.data.rd as int) + ascii(", x"@) + decimal_text(self.data.rs1 as int) + ascii(", "@) + decimal_text(spec_sign_extention_i16(self.data.imm, 12) as int)
    }

    /// The text of the instruction in assembly language, in ASCII bytes.
    pub fn assembly_text(&self) -> (r: Vec<u8>)
        ensures
            r@ == self.assembly(),
    {
        let mut text: Vec<u8> = Vec::new();
        push_text(&mut text, "andi x");
        let mut digits = decimal_bytes(self.data.rd as i64);
        text.append(&mut digits);
        push_text(&mut text, ", x");
        let mut digits = decimal_bytes(self.data.rs1 as i64);
        text.append(&mut digits);
        push_text(&mut text, ", ");
        let mut digits = decimal_bytes(sign_extention_i16(self.data.imm, 12) as i64);
        text.append(&mut digits);
        text
    }

    /// The mnemonic of the instruction.
    pub fn get_name(&self) -> (r: String)
        ensures
            r@ == "andi"@,
    {
        String::from_str("andi")
    }
}

/// Stores integer register `rs2` as the word at `rs1 + imm`.
#[derive(Clone, Copy, Debug)]
pub struct Sw {
    pub data: IntSInstructionData,
    pub addr: Option<Address>,
}

impl Sw {
    /// Whether the register numbers name registers that exist.
    pub open spec fn regs_ok(self) -> bool {
        self.data.rs2 < 64 && self.data.rs1 < 64
    }

    /// The instruction after reading its operands from `st`.
    pub open spec fn fetched(self, st: CoreState) -> Self {
        Self { data: IntSInstructionData { inst_count: Some(st.cycle_count), extended_imm: Some(spec_sign_extention_i16(self.data.imm, 13) as i32), rs1_value: Some(st.int_source(self.data.rs1)), rs2_value: Some(st.int_source(self.data.rs2)), ..self.data }, ..self }
    }

    /// Whether the instruction has read its operands.
    pub open spec fn ready(self) -> bool {
        self.data.inst_count is Some && self.data.extended_imm is Some && self.data.rs1_value is Some && self.data.rs2_value is Some
    }

    /// Whether the machine state lets the instruction execute.
    pub open spec fn exec_ok(self, st: CoreState) -> bool {
        true
    }

    /// The instruction and the machine state after the execute stage.
    pub open spec fn executed(self, st: CoreState) -> (Self, CoreState) {
        (Self { addr: Some(vstd::wrapping::i32_specs::wrapping_add(self.data.rs1_value->0, self.data.extended_imm->0) as Address), ..self }, st)
    }

    /// Whether the instruction holds what the memory stage needs.
    pub open spec fn done_exec(self) -> bool {
        self.data.inst_count is Some && self.addr is Some && self.data.rs2_value is Some
    }

    /// Whether the memory stage can access the word the instruction addresses.
    pub open spec fn memory_ok(self, st: CoreState) -> bool {
        st.word_access_ok(self.addr->0)
    }

    /// The instruction and the machine state after the memory stage.
    pub open spec fn after_memory(self, st: CoreState) -> (Self, CoreState) {
        (self, st.store_word_result(self.addr->0, self.data.rs2_value->0))
    }

    /// Whether the instruction holds what the write-back stage needs.
    pub open spec fn done_memory(self) -> bool {
        self.data.inst_count is Some
    }

    /// The registers the instruction reads.
    pub open spec fn sources(self) -> Seq<RegisterId> {
        seq![RegisterId::Int(self.data.rs1), RegisterId::Int(self.data.rs2)]
    }

    /// The register the instruction writes, if any.
    pub open spec fn destination(self) -> Option<RegisterId> {
        None
    }

    /// The instruction as decoded, before it reads its operands.
    pub open spec fn spec_new(imm: Imm13, rs2: Rs2, rs1: Rs1) -> Self {
        Self { data: IntSInstructionData { imm: imm, rs2: rs2, rs1: rs1, extended_imm: None, rs2_value: None, rs1_value: None, inst_count: None }, addr: None }
    }

    /// The instruction as decoded, before it reads its operands.
    pub fn new(imm: Imm13, rs2: Rs2, rs1: Rs1) -> (r: Self)
        ensures
            r == Self::spec_new(imm, rs2, rs1),
    {
        let data = IntSInstructionData {
            imm,
            rs2,
            rs1,
            extended_imm: None,
            rs2_value: None,
            rs1_value: None,
            inst_count: None,
        };
        Sw { data, addr: None }
    }

    /// Reads the operands: each register from the forwarding network when a value is
    /// forwarded for it, else from the register file.
    pub fn register_fetch(&mut self, core: &Core)
        requires
            core.wf(),
            old(self).regs_ok(),
        ensures
            *final(self) == old(self).fetched(core@),
    {
        self.data.inst_count = Some(core.get_cycle_count());
        self.data.extended_imm = Some(sign_extention_i16(self.data.imm, 13) as i32);
        let forwarding_source_1 = core.get_forwarding_int_source(self.data.rs1);
        if let Some(source) = forwarding_source_1 {
            self.data.rs1_value = Some(source.1);
        } else {
            self.data.rs1_value = Some(core.get_int_register(self.data.rs1 as usize));
        }
        let forwarding_source_2 = core.get_forwarding_int_source(self.data.rs2);
        if let Some(source) = forwarding_source_2 {
            self.data.rs2_value = Some(source.1);
        } else {
            self.data.rs2_value = Some(core.get_int_register(self.data.rs2 as usize));
        }
    }

    /// The execute stage.
    pub fn exec(&mut self, _core: &mut Core)
        requires
            old(_core).wf(),
            old(self).regs_ok(),
            old(self).ready(),
            old(self).exec_ok(old(_core)@),
        ensures
            final(_core).wf(),
            (*final(self), final(_core)@) == old(self).executed(old(_core)@),
    {
        let extended_imm = self.data.extended_imm.unwrap();
        let rs1_value = self.data.rs1_value.unwrap();
        self.addr = Some(rs1_value.wrapping_add(extended_imm) as Address);
    }

    /// The memory stage.
    pub fn memory(&mut self, core: &mut Core)
        requires
            old(core).wf(),
            old(self).regs_ok(),
            old(self).done_exec(),
            old(self).memory_ok(old(core)@),
        ensures
            final(core).wf(),
            (*final(self), final(core)@) == old(self).after_memory(old(core)@),
    {
        let addr = self.addr.unwrap();
        core.store_word(addr, self.data.rs2_value.unwrap());
    }

    /// The registers the instruction reads.
    pub fn get_source_registers(&self) -> (r: Vec<RegisterId>)
        ensures
            r@ == self.sources(),
    {
        let mut registers: Vec<RegisterId> = Vec::new();
        registers.push(RegisterId::Int(self.data.rs1));
        registers.push(RegisterId::Int(self.data.rs2));
        registers
    }

    /// The cycle in which the instruction read its operands, once it has.
    pub fn get_instruction_count(&self) -> (r: Option<InstructionCount>)
        ensures
            r == self.data.inst_count,
    {
        self.data.inst_count
    }

    /// The text of the instruction in assembly language.
    pub open spec fn assembly(self) -> Seq<u8> {
        ascii("sw x"@) + decimal_text(self.data.rs2 as int) + ascii(", "@) + decimal_text(spec_sign_extention_i16(self.data.imm, 13) as int) + ascii("(x"@) + decimal_text(self.data.rs1 as int) + ascii(")"@)
    }

    /// The text of the instruction in assembly language, in ASCII bytes.
    pub fn assembly_text(&self) -> (r: Vec<u8>)
        ensures
            r@ == self.assembly(),
    {
        let mut text: Vec<u8> = Vec::new();
        push_text(&mut text, "sw x");
        let mut digits = decimal_bytes(self.data.rs2 as i64);
        text.append(&mut digits);
        push_text(&mut text, ", ");
        let mut digits = decimal_bytes(sign_extention_i16(self.data.imm, 13) as i64);
        text.append(&mut digits);
        push_text(&mut text, "(x");
        let mut digits = decimal_bytes(self.data.rs1 as i64);
        text.append(&mut digits);
        push_text(&mut text, ")");
        text
    }

    /// The mnemonic of the instruction.
    pub fn get_name(&self) -> (r: String)
        ensures
            r@ == "sw"@,
    {
        String::from_str("sw")
    }
}

/// Adds `rs1` and `rs2`, wrapping around.
#[derive(Clone, Copy, Debug)]
pub struct Add {
    pub data: IntRInstructionData,
}

impl Add {
    /// Whether the register numbers name registers that exist.
    pub open spec fn regs_ok(self) -> bool {
        self.data.rs2 < 64 && self.data.rs1 < 64 && self.data.rd < 64
    }

    /// The instruction after reading its operands from `st`.
    pub open spec fn fetched(self, st: CoreState) -> Self {
        Self { data: IntRInstructionData { inst_count: Some(st.cycle_count), rs1_value: Some(st.int_source(self.data.rs1)), rs2_value: Some(st.int_source(self.data.rs2)), ..self.data } }
    }

    /// Whether the instruction has read its operands.
    pub open spec fn ready(self) -> bool {
        self.data.inst_count is Some && self.data.rs1_value is Some && self.data.rs2_value is Some
    }

    /// Whether the machine state lets the instruction execute.
    pub open spec fn exec_ok(self, st: CoreState) -> bool {
        true
    }

    /// The instruction and the machine state after the execute stage.
    pub open spec fn executed(self, st: CoreState) -> (Self, CoreState) {
        let value: i32 = { let rs1_value = self.data.rs1_value->0; let rs2_value = self.data.rs2_value->0; vstd::wrapping::i32_specs::wrapping_add(rs1_value, rs2_value) };
        (Self { data: IntRInstructionData { rd_value: Some(value), ..self.data } }, st.with_int_forwarding(self.data.rd, self.data.inst_count->0, value))
    }

    /// Whether the instruction holds what the memory stage needs.
    pub open spec fn done_exec(self) -> bool {
        self.data.inst_count is Some && self.data.rd_value is Some
    }

    /// Whether the instruction holds what the write-back stage needs.
    pub open spec fn done_memory(self) -> bool {
        self.data.inst_count is Some && self.data.rd_value is Some
    }

    /// The machine state after the write-back stage.
    pub open spec fn written_back(self, st: CoreState) -> CoreState {
        st.with_int_register(self.data.rd as int, self.data.rd_value->0)
    }

    /// The registers the instruction reads.
    pub open spec fn sources(self) -> Seq<RegisterId> {
        seq![RegisterId::Int(self.data.rs1), RegisterId::Int(self.data.rs2)]
    }

    /// The register the instruction writes, if any.
    pub open spec fn destination(self) -> Option<RegisterId> {
        Some(RegisterId::Int(self.data.rd))
    }

    /// The instruction as decoded, before it reads its operands.
    pub open spec fn spec_new(rs2: Rs2, rs1: Rs1, rd: Rd) -> Self {
        Self { data: IntRInstructionData { rs2: rs2, rs1: rs1, rd: rd, rs2_value: None, rs1_value: None, rd_value: None, inst_count: None } }
    }

    /// The instruction as decoded, before it reads its operands.
    pub fn new(rs2: Rs2, rs1: Rs1, rd: Rd) -> (r: Self)
        ensures
            r == Self::spec_new(rs2, rs1, rd),
    {
        let data = IntRInstructionData {
            rs2,
            rs1,
            rd,
            rs2_value: None,
            rs1_value: None,
            rd_value: None,
            inst_count: None,
        };
        Add { data }
    }

    /// Reads the operands: each register from the forwarding network when a value is
    /// forwarded for it, else from the register file.
    pub fn register_fetch(&mut self, core: &Core)
        requires
            core.wf(),
            old(self).regs_ok(),
        ensures
            *final(self) == old(self).fetched(core@),
    {
        self.data.inst_count = Some(core.get_cycle_count());
        let forwarding_source_1 = core.get_forwarding_int_source(self.data.rs1);
        if let Some(source) = forwarding_source_1 {
            self.data.rs1_value = Some(source.1);
        } else {
            self.data.rs1_value = Some(core.get_int_register(self.data.rs1 as usize));
        }
        let forwarding_source_2 = core.get_forwarding_int_source(self.data.rs2);
        if let Some(source) = forwarding_source_2 {
            self.data.rs2_value = Some(source.1);
        } else {
            self.data.rs2_value = Some(core.get_int_register(self.data.rs2 as usize));
        }
    }

    /// The execute stage.
    pub fn exec(&mut self, core: &mut Core)
        requires
            old(core).wf(),
            old(self).regs_ok(),
            old(self).ready(),
            old(self).exec_ok(old(core)@),
        ensures
            final(core).wf(),
            (*final(self), final(core)@) == old(self).executed(old(core)@),
    {
        let rs1_value = self.data.rs1_value.unwrap();
        let rs2_value = self.data.rs2_value.unwrap();
        self.data.rd_value = Some(rs1_value.wrapping_add(rs2_value));
        core.set_forwarding_int_source(self.data.rd, self.data.inst_count.unwrap(), self.data.rd_value.unwrap());
    }

    /// The write-back stage.
    pub fn write_back(&self, core: &mut Core)
        requires
            old(core).wf(),
            self.regs_ok(),
            self.done_memory(),
        ensures
            final(core).wf(),
            final(core)@ == self.written_back(old(core)@),
    {
        let result = self.data.rd_value.unwrap();
        core.set_int_register(self.data.rd as usize, result);
    }

    /// The registers the instruction reads.
    pub fn get_source_registers(&self) -> (r: Vec<RegisterId>)
        ensures
            r@ == self.sources(),
    {
        let mut registers: Vec<RegisterId> = Vec::new();
        registers.push(RegisterId::Int(self.data.rs1));
        registers.push(RegisterId::Int(self.data.rs2));
        registers
    }

    /// The register the instruction writes.
    pub fn get_destination_register(&self) -> (r: Option<RegisterId>)
        ensures
            r == self.destination(),
    {
        Some(RegisterId::Int(self.data.rd))
    }

    /// The cycle in which the instruction read its operands, once it has.
    pub fn get_instruction_count(&self) -> (r: Option<InstructionCount>)
        ensures
            r == self.data.inst_count,
    {
        self.data.inst_count
    }

    /// The text of the instruction in assembly language.
    pub open spec fn assembly(self) -> Seq<u8> {
        ascii("add x"@) + decimal_text(self.data.rd as int) + ascii(", x"@) + decimal_text(self.data.rs1 as int) + ascii(", x"@) + decimal_text(self.data.rs2 as int)
    }

    /// The text of the instruction in assembly language, in ASCII bytes.
    pub fn assembly_text(&self) -> (r: Vec<u8>)
        ensures
            r@ == self.assembly(),
    {
        let mut text: Vec<u8> = Vec::new();
        push_text(&mut text, "add x");
        let mut digits = decimal_bytes(self.data.rd as i64);
        text.append(&mut digits);
        push_text(&mut text, ", x");
        let mut digits = decimal_bytes(self.data.rs1 as i64);
        text.append(&mut digits);
        push_text(&mut text, ", x");
        let mut digits = decimal_bytes(self.data.rs2 as i64);
        text.append(&mut digits);
        text
    }

    /// The mnemonic of the instruction.
    pub fn get_name(&self) -> (r: String)
        ensures
            r@ == "add"@,
    {
        String::from_str("add")
    }
}

/// Subtracts `rs2` from `rs1`, wrapping around.
#[derive(Clone, Copy, Debug)]
pub struct Sub {
    pub data: IntRInstructionData,
}

impl Sub {
    /// Whether the register numbers name registers that exist.
    pub open spec fn regs_ok(self) -> bool {
        self.data.rs2 < 64 && self.data.rs1 < 64 && self.data.rd < 64
    }

    /// The instruction after reading its operands from `st`.
    pub open spec fn fetched(self, st: CoreState) -> Self {
        Self { data: IntRInstructionData { inst_count: Some(st.cycle_count), rs1_value: Some(st.int_source(self.data.rs1)), rs2_value: Some(st.int_source(self.data.rs2)), ..self.data } }
    }

    /// Whether the instruction has read its operands.
    pub open spec fn ready(self) -> bool {
        self.data.inst_count is Some && self.data.rs1_value is Some && self.data.rs2_value is Some
    }

    /// Whether the machine state lets the instruction execute.
    pub open spec fn exec_ok(self, st: CoreState) -> bool {
        true
    }

    /// The instruction and the machine state after the execute stage.
    pub open spec fn executed(self, st: CoreState) -> (Self, CoreState) {
        let value: i32 = { let rs1_value = self.data.rs1_value->0; let rs2_value = self.data.rs2_value->0; vstd::wrapping::i32_specs::wrapping_sub(rs1_value, rs2_value) };
        (Self { data: IntRInstructionData { rd_value: Some(value), ..self.data } }, st.with_int_forwarding(self.data.rd, self.data.inst_count->0, value))
    }

    /// Whether the instruction holds what the memory stage needs.
    pub open spec fn done_exec(self) -> bool {
        self.data.inst_count is Some && self.data.rd_value is Some
    }

    /// Whether the instruction holds what the write-back stage needs.
    pub open spec fn done_memory(self) -> bool {
        self.data.inst_count is Some && self.data.rd_value is Some
    }

    /// The machine state after the write-back stage.
    pub open spec fn written_back(self, st: CoreState) -> CoreState {
        st.with_int_register(self.data.rd as int, self.data.rd_value->0)
    }

    /// The registers the instruction reads.
    pub open spec fn sources(self) -> Seq<RegisterId> {
        seq![RegisterId::Int(self.data.rs1), RegisterId::Int(self.data.rs2)]
    }

    /// The register the instruction writes, if any.
    pub open spec fn destination(self) -> Option<RegisterId> {
        Some(RegisterId::Int(self.data.rd))
    }

    /// The instruction as decoded, before it reads its operands.
    pub open spec fn spec_new(rs2: Rs2, rs1: Rs1, rd: Rd) -> Self {
        Self { data: IntRInstructionData { rs2: rs2, rs1: rs1, rd: rd, rs2_value: None, rs1_value: None, rd_value: None, inst_count: None } }
    }

    /// The instruction as decoded, before it reads its operands.
    pub fn new(rs2: Rs2, rs1: Rs1, rd: Rd) -> (r: Self)
        ensures
            r == Self::spec_new(rs2, rs1, rd),
    {
        let data = IntRInstructionData {
            rs2,
            rs1,
            rd,
            rs2_value: None,
            rs1_value: None,
            rd_value: None,
            inst_count: None,
        };
        Sub { data }
    }

    /// Reads the operands: each register from the forwarding network when a value is
    /// forwarded for it, else from the register file.
    pub fn register_fetch(&mut self, core: &Core)
        requires
            core.wf(),
            old(self).regs_ok(),
        ensures
            *final(self) == old(self).fetched(core@),
    {
        self.data.inst_count = Some(core.get_cycle_count());
        let forwarding_source_1 = core.get_forwarding_int_source(self.data.rs1);
        if let Some(source) = forwarding_source_1 {
            self.data.rs1_value = Some(source.1);
        } else {
            self.data.rs1_value = Some(core.get_int_register(self.data.rs1 as usize));
        }
        let forwarding_source_2 = core.get_forwarding_int_source(self.data.rs2);
        if let Some(source) = forwarding_source_2 {
            self.data.rs2_value = Some(source.1);
        } else {
            self.data.rs2_value = Some(core.get_int_register(self.data.rs2 as usize));
        }
    }

    /// The execute stage.
    pub fn exec(&mut self, core: &mut Core)
        requires
            old(core).wf(),
            old(self).regs_ok(),
            old(self).ready(),
            old(self).exec_ok(old(core)@),
        ensures
            final(core).wf(),
            (*final(self), final(core)@) == old(self).executed(old(core)@),
    {
        let rs1_value = self.data.rs1_value.unwrap();
        let rs2_value = self.data.rs2_value.unwrap();
        self.data.rd_value = Some(rs1_value.wrapping_sub(rs2_value));
        core.set_forwarding_int_source(self.data.rd, self.data.inst_count.unwrap(), self.data.rd_value.unwrap());
    }

    /// The write-back stage.
    pub fn write_back(&self, core: &mut Core)
        requires
            old(core).wf(),
            self.regs_ok(),
            self.done_memory(),
        ensures
            final(core).wf(),
            final(core)@ == self.written_back(old(core)@),
    {
        let result = self.data.rd_value.unwrap();
        core.set_int_register(self.data.rd as usize, result);
    }

    /// The registers the instruction reads.
    pub fn get_source_registers(&self) -> (r: Vec<RegisterId>)
        ensures
            r@ == self.sources(),
    {
        let mut registers: Vec<RegisterId> = Vec::new();
        registers.push(RegisterId::Int(self.data.rs1));
        registers.push(RegisterId::Int(self.data.rs2));
        registers
    }

    /// The register the instruction writes.
    pub fn get_destination_register(&self) -> (r: Option<RegisterId>)
        ensures
            r == self.destination(),
    {
        Some(RegisterId::Int(self.data.rd))
    }

    /// The cycle in which the instruction read its operands, once it has.
    pub fn get_instruction_count(&self) -> (r: Option<InstructionCount>)
        ensures
            r == self.data.inst_count,
    {
        self.data.inst_count
    }

    /// The text of the instruction in assembly language.
    pub open spec fn assembly(self) -> Seq<u8> {
        ascii("sub x"@) + decimal_text(self.data.rd as int) + ascii(", x"@) + decimal_text(self.data.rs1 as int) + ascii(", x"@) + decimal_text(self.data.rs2 as int)
    }

    /// The text of the instruction in assembly language, in ASCII bytes.
    pub fn assembly_text(&self) -> (r: Vec<u8>)
        ensures
            r@ == self.assembly(),
    {
        let mut text: Vec<u8> = Vec::new();
        push_text(&mut text, "sub x");
        let mut digits = decimal_bytes(self.data.rd as i64);
        text.append(&mut digits);
        push_text(&mut text, ", x");
        let mut digits = decimal_bytes(self.data.rs1 as i64);
        text.append(&mut digits);
        push_text(&mut text, ", x");
        let mut digits = decimal_bytes(self.data.rs2 as i64);
        text.append(&mut digits);
        text
    }

    /// The mnemonic of the instruction.
    pub fn get_name(&self) -> (r: String)
        ensures
            r@ == "sub"@,
    {
        String::from_str("sub")
    }
}

/// Shifts `rs1` left by the 5 low bits of `rs2`.
#[derive(Clone, Copy, Debug)]
pub struct Sll {
    pub data: IntRInstructionData,
}

impl Sll {
    /// Whether the register numbers name registers that exist.
    pub open spec fn regs_ok(self) -> bool {
        self.data.rs2 < 64 && self.data.rs1 < 64 && self.data.rd < 64
    }

    /// The instruction after reading its operands from `st`.
    pub open spec fn fetched(self, st: CoreState) -> Self {
        Self { data: IntRInstructionData { inst_count: Some(st.cycle_count), rs1_value: Some(st.int_source(self.data.rs1)), rs2_value: Some(st.int_source(self.data.rs2)), ..self.data } }
    }

    /// Whether the instruction has read its operands.
    pub open spec fn ready(self) -> bool {
        self.data.inst_count is Some && self.data.rs1_value is Some && self.data.rs2_value is Some
    }

    /// Whether the machine state lets the instruction execute.
    pub open spec fn exec_ok(self, st: CoreState) -> bool {
        true
    }

    /// The instruction and the machine state after the execute stage.
    pub open spec fn executed(self, st: CoreState) -> (Self, CoreState) {
        let value: i32 = { let rs1_value = self.data.rs1_value->0; let rs2_value = self.data.rs2_value->0; spec_u32_to_i32(spec_i32_to_u32(rs1_value) << ((rs2_value & 0x1f) as u32)) };
        (Self { data: IntRInstructionData { rd_value: Some(value), ..self.data } }, st.with_int_forwarding(self.data.rd, self.data.inst_count->0, value))
    }

    /// Whether the instruction holds what the memory stage needs.
    pub open spec fn done_exec(self) -> bool {
        self.data.inst_count is Some && self.data.rd_value is Some
    }

    /// Whether the instruction holds what the write-back stage needs.
    pub open spec fn done_memory(self) -> bool {
        self.data.inst_count is Some && self.data.rd_value is Some
    }

    /// The machine state after the write-back stage.
    pub open spec fn written_back(self, st: CoreState) -> CoreState {
        st.with_int_register(self.data.rd as int, self.data.rd_value->0)
    }

    /// The registers the instruction reads.
    pub open spec fn sources(self) -> Seq<RegisterId> {
        seq![RegisterId::Int(self.data.rs1), RegisterId::Int(self.data.rs2)]
    }

    /// The register the instruction writes, if any.
    pub open spec fn destination(self) -> Option<RegisterId> {
        Some(RegisterId::Int(self.data.rd))
    }

    /// The instruction as decoded, before it reads its operands.
    pub open spec fn spec_new(rs2: Rs2, rs1: Rs1, rd: Rd) -> Self {
        Self { data: IntRInstructionData { rs2: rs2, rs1: rs1, rd: rd, rs2_value: None, rs1_value: None, rd_value: None, inst_count: None } }
    }

    /// The instruction as decoded, before it reads its operands.
    pub fn new(rs2: Rs2, rs1: Rs1, rd: Rd) -> (r: Self)
        ensures
            r == Self::spec_new(rs2, rs1, rd),
    {
        let data = IntRInstructionData {
            rs2,
            rs1,
            rd,
            rs2_value: None,
            rs1_value: None,
            rd_value: None,
            inst_count: None,
        };
        Sll { data }
    }

    /// Reads the operands: each register from the forwarding network when a value is
    /// forwarded for it, else from the register file.
    pub fn register_fetch(&mut self, core: &Core)
        requires
            core.wf(),
            old(self).regs_ok(),
        ensures
            *final(self) == old(self).fetched(core@),
    {
        self.data.inst_count = Some(core.get_cycle_count());
        let forwarding_source_1 = core.get_forwarding_int_source(self.data.rs1);
        if let Some(source) = forwarding_source_1 {
            self.data.rs1_value = Some(source.1);
        } else {
            self.data.rs1_value = Some(core.get_int_register(self.data.rs1 as usize));
        }
        let forwarding_source_2 = core.get_forwarding_int_source(self.data.rs2);
        if let Some(source) = forwarding_source_2 {
            self.data.rs2_value = Some(source.1);
        } else {
            self.data.rs2_value = Some(core.get_int_register(self.data.rs2 as usize));
        }
    }

    /// The execute stage.
    pub fn exec(&mut self, core: &mut Core)
        requires
            old(core).wf(),
            old(self).regs_ok(),
            old(self).ready(),
            old(self).exec_ok(old(core)@),
        ensures
            final(core).wf(),
            (*final(self), final(core)@) == old(self).executed(old(core)@),
    {
        let rs1_value = self.data.rs1_value.unwrap();
        let rs2_value = self.data.rs2_value.unwrap();
        let shift_value = rs2_value & 0x1f;
        proof { lemma_shift_amount(rs2_value); }
        self.data.rd_value = Some(u32_to_i32(i32_to_u32(rs1_value) << (shift_value as u32)));
        core.set_forwarding_int_source(self.data.rd, self.data.inst_count.unwrap(), self.data.rd_value.unwrap());
    }

    /// The write-back stage.
    pub fn write_back(&self, core: &mut Core)
        requires
            old(core).wf(),
            self.regs_ok(),
            self.done_memory(),
        ensures
            final(core).wf(),
            final(core)@ == self.written_back(old(core)@),
    {
        let result = self.data.rd_value.unwrap();
        core.set_int_register(self.data.rd as usize, result);
    }

    /// The registers the instruction reads.
    pub fn get_source_registers(&self) -> (r: Vec<RegisterId>)
        ensures
            r@ == self.sources(),
    {
        let mut registers: Vec<RegisterId> = Vec::new();
        registers.push(RegisterId::Int(self.data.rs1));
        registers.push(RegisterId::Int(self.data.rs2));
        registers
    }

    /// The register the instruction writes.
    pub fn get_destination_register(&self) -> (r: Option<RegisterId>)
        ensures
            r == self.destination(),
    {
        Some(RegisterId::Int(self.data.rd))
    }

    /// The cycle in which the instruction read its operands, once it has.
    pub fn get_instruction_count(&self) -> (r: Option<InstructionCount>)
        ensures
            r == self.data.inst_count,
    {
        self.data.inst_count
    }

    /// The text of the instruction in assembly language.
    pub open spec fn assembly(self) -> Seq<u8> {
        ascii("sll x"@) + decimal_text(self.data.rd as int) + ascii(", x"@) + decimal_text(self.data.rs1 as int) + ascii(", x"@) + decimal_text(self.data.rs2 as int)
    }

    /// The text of the instruction in assembly language, in ASCII bytes.
    pub fn assembly_text(&self) -> (r: Vec<u8>)
        ensures
            r@ == self.assembly(),
    {
        let mut text: Vec<u8> = Vec::new();
        push_text(&mut text, "sll x");
        let mut digits = decimal_bytes(self.data.rd as i64);
        text.append(&mut digits);
        push_text(&mut text, ", x");
        let mut digits = decimal_bytes(self.data.rs1 as i64);
        text.append(&mut digits);
        push_text(&mut text, ", x");
        let mut digits = decimal_bytes(self.data.rs2 as i64);
        text.append(&mut digits);
        text
    }

    /// The mnemonic of the instruction.
    pub fn get_name(&self) -> (r: String)
        ensures
            r@ == "sll"@,
    {
        String::from_str("sll")
    }
}

/// Sets `rd` to 1 when `rs1` is less than `rs2`, else to 0.
#[derive(Clone, Copy, Debug)]
pub struct Slt {
    pub data: IntRInstructionData,
}

impl Slt {
    /// Whether the register numbers name registers that exist.
    pub open spec fn regs_ok(self) -> bool {
        self.data.rs2 < 64 && self.data.rs1 < 64 && self.data.rd < 64
    }

    /// The instruction after reading its operands from `st`.
    pub open spec fn fetched(self, st: CoreState) -> Self {
        Self { data: IntRInstructionData { inst_count: Some(st.cycle_count), rs1_value: Some(st.int_source(self.data.rs1)), rs2_value: Some(st.int_source(self.data.rs2)), ..self.data } }
    }

    /// Whether the instruction has read its operands.
    pub open spec fn ready(self) -> bool {
        self.data.inst_count is Some && self.data.rs1_value is Some && self.data.rs2_value is Some
    }

    /// Whether the machine state lets the instruction execute.
    pub open spec fn exec_ok(self, st: CoreState) -> bool {
        true
    }

    /// The instruction and the machine state after the execute stage.
    pub open spec fn executed(self, st: CoreState) -> (Self, CoreState) {
        let value: i32 = { let rs1_value = self.data.rs1_value->0; let rs2_value = self.data.rs2_value->0; if rs1_value < rs2_value { 1i32 } else { 0i32 } };
        (Self { data: IntRInstructionData { rd_value: Some(value), ..self.data } }, st.with_int_forwarding(self.data.rd, self.data.inst_count->0, value))
    }

    /// Whether the instruction holds what the memory stage needs.
    pub open spec fn done_exec(self) -> bool {
        self.data.inst_count is Some && self.data.rd_value is Some
    }

    /// Whether the instruction holds what the write-back stage needs.
    pub open spec fn done_memory(self) -> bool {
        self.data.inst_count is Some && self.data.rd_value is Some
    }

    /// The machine state after the write-back stage.
    pub open spec fn written_back(self, st: CoreState) -> CoreState {
        st.with_int_register(self.data.rd as int, self.data.rd_value->0)
    }

    /// The registers the instruction reads.
    pub open spec fn sources(self) -> Seq<RegisterId> {
        seq![RegisterId::Int(self.data.rs1), RegisterId::Int(self.data.rs2)]
    }

    /// The register the instruction writes, if any.
    pub open spec fn destination(self) -> Option<RegisterId> {
        Some(RegisterId::Int(self.data.rd))
    }

    /// The instruction as decoded, before it reads its operands.
    pub open spec fn spec_new(rs2: Rs2, rs1: Rs1, rd: Rd) -> Self {
        Self { data: IntRInstructionData { rs2: rs2, rs1: rs1, rd: rd, rs2_value: None, rs1_value: None, rd_value: None, inst_count: None } }
    }

    /// The instruction as decoded, before it reads its operands.
    pub fn new(rs2: Rs2, rs1: Rs1, rd: Rd) -> (r: Self)
        ensures
            r == Self::spec_new(rs2, rs1, rd),
    {
        let data = IntRInstructionData {
            rs2,
            rs1,
            rd,
            rs2_value: None,
            rs1_value: None,
            rd_value: None,
            inst_count: None,
        };
        Slt { data }
    }

    /// Reads the operands: each register from the forwarding network when a value is
    /// forwarded for it, else from the register file.
    pub fn register_fetch(&mut self, core: &Core)
        requires
            core.wf(),
            old(self).regs_ok(),
        ensures
            *final(self) == old(self).fetched(core@),
    {
        self.data.inst_count = Some(core.get_cycle_count());
        let forwarding_source_1 = core.get_forwarding_int_source(self.data.rs1);
        if let Some(source) = forwarding_source_1 {
            self.data.rs1_value = Some(source.1);
        } else {
            self.data.rs1_value = Some(core.get_int_register(self.data.rs1 as usize));
        }
        let forwarding_source_2 = core.get_forwarding_int_source(self.data.rs2);
        if let Some(source) = forwarding_source_2 {
            self.data.rs2_value = Some(source.1);
        } else {
            self.data.rs2_value = Some(core.get_int_register(self.data.rs2 as usize));
        }
    }

    /// The execute stage.
    pub fn exec(&mut self, core: &mut Core)
        requires
            old(core).wf(),
            old(self).regs_ok(),
            old(self).ready(),
            old(self).exec_ok(old(core)@),
        ensures
            final(core).wf(),
            (*final(self), final(core)@) == old(self).executed(old(core)@),
    {
        let rs1_value = self.data.rs1_value.unwrap();
        let rs2_value = self.data.rs2_value.unwrap();
        self.data.rd_value = Some(if rs1_value < rs2_value { 1 } else { 0 });
        core.set_forwarding_int_source(self.data.rd, self.data.inst_count.unwrap(), self.data.rd_value.unwrap());
    }

    /// The write-back stage.
    pub fn write_back(&self, core: &mut Core)
        requires
            old(core).wf(),
            self.regs_ok(),
            self.done_memory(),
        ensures
            final(core).wf(),
            final(core)@ == self.written_back(old(core)@),
    {
        let result = self.data.rd_value.unwrap();
        core.set_int_register(self.data.rd as usize, result);
    }

    /// The registers the instruction reads.
    pub fn get_source_registers(&self) -> (r: Vec<RegisterId>)
        ensures
            r@ == self.sources(),
    {
        let mut registers: Vec<RegisterId> = Vec::new();
        registers.push(RegisterId::Int(self.data.rs1));
        registers.push(RegisterId::Int(self.data.rs2));
        registers
    }

    /// The register the instruction writes.
    pub fn get_destination_register(&self) -> (r: Option<RegisterId>)
        ensures
            r == self.destination(),
    {
        Some(RegisterId::Int(self.data.rd))
    }

    /// The cycle in which the instruction read its operands, once it has.
    pub fn get_instruction_count(&self) -> (r: Option<InstructionCount>)
        ensures
            r == self.data.inst_count,
    {
        self.data.inst_count
    }

    /// The text of the instruction in assembly language.
    pub open spec fn assembly(self) -> Seq<u8> {
        ascii("slt x"@) + decimal_text(self.data.rd as int) + ascii(", x"@) + decimal_text(self.data.rs1 as int) + ascii(", x"@) + decimal_text(self.data.rs2 as int)
    }

    /// The text of the instruction in assembly language, in ASCII bytes.
    pub fn assembly_text(&self) -> (r: Vec<u8>)
        ensures
            r@ == self.assembly(),
    {
        let mut text: Vec<u8> = Vec::new();
        push_text(&mut text, "slt x");
        let mut digits = decimal_bytes(self.data.rd as i64);
        text.append(&mut digits);
        push_text(&mut text, ", x");
        let mut digits = decimal_bytes(self.data.rs1 as i64);
        text.append(&mut digits);
        push_text(&mut text, ", x");
        let mut digits = decimal_bytes(self.data.rs2 as i64);
        text.append(&mut digits);
        text
    }

    /// The mnemonic of the instruction.
    pub fn get_name(&self) -> (r: String)
        ensures
            r@ == "slt"@,
    {
        String::from_str("slt")
    }
}

/// Exclusive or of `rs1` and `rs2`.
#[derive(Clone, Copy, Debug)]
pub struct Xor {
    pub data: IntRInstructionData,
}

impl Xor {
    /// Whether the register numbers name registers that exist.
    pub open spec fn regs_ok(self) -> bool {
        self.data.rs2 < 64 && self.data.rs1 < 64 && self.data.rd < 64
    }

    /// The instruction after reading its operands from `st`.
    pub open spec fn fetched(self, st: CoreState) -> Self {
        Self { data: IntRInstructionData { inst_count: Some(st.cycle_count), rs1_value: Some(st.int_source(self.data.rs1)), rs2_value: Some(st.int_source(self.data.rs2)), ..self.data } }
    }

    /// Whether the instruction has read its operands.
    pub open spec fn ready(self) -> bool {
        self.data.inst_count is Some && self.data.rs1_value is Some && self.data.rs2_value is Some
    }

    /// Whether the machine state lets the instruction execute.
    pub open spec fn exec_ok(self, st: CoreState) -> bool {
        true
    }

    /// The instruction and the machine state after the execute stage.
    pub open spec fn executed(self, st: CoreState) -> (Self, CoreState) {
        let value: i32 = { let rs1_value = self.data.rs1_value->0; let rs2_value = self.data.rs2_value->0; rs1_value ^ rs2_value };
        (Self { data: IntRInstructionData { rd_value: Some(value), ..self.data } }, st.with_int_forwarding(self.data.rd, self.data.inst_count->0, value))
    }

    /// Whether the instruction holds what the memory stage needs.
    pub open spec fn done_exec(self) -> bool {
        self.data.inst_count is Some && self.data.rd_value is Some
    }

    /// Whether the instruction holds what the write-back stage needs.
    pub open spec fn done_memory(self) -> bool {
        self.data.inst_count is Some && self.data.rd_value is Some
    }

    /// The machine state after the write-back stage.
    pub open spec fn written_back(self, st: CoreState) -> CoreState {
        st.with_int_register(self.data.rd as int, self.data.rd_value->0)
    }

    /// The registers the instruction reads.
    pub open spec fn sources(self) -> Seq<RegisterId> {
        seq![RegisterId::Int(self.data.rs1), RegisterId::Int(self.data.rs2)]
    }

    /// The register the instruction writes, if any.
    pub open spec fn destination(self) -> Option<RegisterId> {
        Some(RegisterId::Int(self.data.rd))
    }

    /// The instruction as decoded, before it reads its operands.
    pub open spec fn spec_new(rs2: Rs2, rs1: Rs1, rd: Rd) -> Self {
        Self { data: IntRInstructionData { rs2: rs2, rs1: rs1, rd: rd, rs2_value: None, rs1_value: None, rd_value: None, inst_count: None } }
    }

    /// The instruction as decoded, before it reads its operands.
    pub fn new(rs2: Rs2, rs1: Rs1, rd: Rd) -> (r: Self)
        ensures
            r == Self::spec_new(rs2, rs1, rd),
    {
        let data = IntRInstructionData {
            rs2,
            rs1,
            rd,
            rs2_value: None,
            rs1_value: None,
            rd_value: None,
            inst_count: None,
        };
        Xor { data }
    }

    /// Reads the operands: each register from the forwarding network when a value is
    /// forwarded for it, else from the register file.
    pub fn register_fetch(&mut self, core: &Core)
        requires
            core.wf(),
            old(self).regs_ok(),
        ensures
            *final(self) == old(self).fetched(core@),
    {
        self.data.inst_count = Some(core.get_cycle_count());
        let forwarding_source_1 = core.get_forwarding_int_source(self.data.rs1);
        if let Some(source) = forwarding_source_1 {
            self.data.rs1_value = Some(source.1);
        } else {
            self.data.rs1_value = Some(core.get_int_register(self.data.rs1 as usize));
        }
        let forwarding_source_2 = core.get_forwarding_int_source(self.data.rs2);
        if let Some(source) = forwarding_source_2 {
            self.data.rs2_value = Some(source.1);
        } else {
            self.data.rs2_value = Some(core.get_int_register(self.data.rs2 as usize));
        }
    }

    /// The execute stage.
    pub fn exec(&mut self, core: &mut Core)
        requires
            old(core).wf(),
            old(self).regs_ok(),
            old(self).ready(),
            old(self).exec_ok(old(core)@),
        ensures
            final(core).wf(),
            (*final(self), final(core)@) == old(self).executed(old(core)@),
    {
        let rs1_value = self.data.rs1_value.unwrap();
        let rs2_value = self.data.rs2_value.unwrap();
        self.data.rd_value = Some(rs1_value ^ rs2_value);
        core.set_forwarding_int_source(self.data.rd, self.data.inst_count.unwrap(), self.data.rd_value.unwrap());
    }

    /// The write-back stage.
    pub fn write_back(&self, core: &mut Core)
        requires
            old(core).wf(),
            self.regs_ok(),
            self.done_memory(),
        ensures
            final(core).wf(),
            final(core)@ == self.written_back(old(core)@),
    {
        let result = self.data.rd_value.unwrap();
        core.set_int_register(self.data.rd as usize, result);
    }

    /// The registers the instruction reads.
    pub fn get_source_registers(&self) -> (r: Vec<RegisterId>)
        ensures
            r@ == self.sources(),
    {
        let mut registers: Vec<RegisterId> = Vec::new();
        registers.push(RegisterId::Int(self.data.rs1));
        registers.push(RegisterId::Int(self.data.rs2));
        registers
    }

    /// The register the instruction writes.
    pub fn get_destination_register(&self) -> (r: Option<RegisterId>)
        ensures
            r == self.destination(),
    {
        Some(RegisterId::Int(self.data.rd))
    }

    /// The cycle in which the instruction read its operands, once it has.
    pub fn get_instruction_count(&self) -> (r: Option<InstructionCount>)
        ensures
            r == self.data.inst_count,
    {
        self.data.inst_count
    }

    /// The text of the instruction in assembly language.
    pub open spec fn assembly(self) -> Seq<u8> {
        ascii("xor x"@) + decimal_text(self.data.rd as int) + ascii(", x"@) + decimal_text(self.data.rs1 as int) + ascii(", x"@) + decimal_text(self.data.rs2 as int)
    }

    /// The text of the instruction in assembly language, in ASCII bytes.
    pub fn assembly_text(&self) -> (r: Vec<u8>)
        ensures
            r@ == self.assembly(),
    {
        let mut text: Vec<u8> = Vec::new();
        push_text(&mut text, "xor x");
        let mut digits = decimal_bytes(self.data.rd as i64);
        text.append(&mut digits);
        push_text(&mut text, ", x");
        let mut digits = decimal_bytes(self.data.rs1 as i64);
        text.append(&mut digits);
        push_text(&mut text, ", x");
        let mut digits = decimal_bytes(self.data.rs2 as i64);
        text.append(&mut digits);
        text
    }

    /// The mnemonic of the instruction.
    pub fn get_name(&self) -> (r: String)
        ensures
            r@ == "xor"@,
    {
        String::from_str("xor")
    }
}

/// Shifts `rs1` right, filling with zeros, by the 5 low bits of `rs2`.
#[derive(Clone, Copy, Debug)]
pub struct Srl {
    pub data: IntRInstructionData,
}

impl Srl {
    /// Whether the register numbers name registers that exist.
    pub open spec fn regs_ok(self) -> bool {
        self.data.rs2 < 64 && self.data.rs1 < 64 && self.data.rd < 64
    }

    /// The instruction after reading its operands from `st`.
    pub open spec fn fetched(self, st: CoreState) -> Self {
        Self { data: IntRInstructionData { inst_count: Some(st.cycle_count), rs1_value: Some(st.int_source(self.data.rs1)), rs2_value: Some(st.int_source(self.data.rs2)), ..self.data } }
    }

    /// Whether the instruction has read its operands.
    pub open spec fn ready(self) -> bool {
        self.data.inst_count is Some && self.data.rs1_value is Some && self.data.rs2_value is Some
    }

    /// Whether the machine state lets the instruction execute.
    pub open spec fn exec_ok(self, st: CoreState) -> bool {
        true
    }

    /// The instruction and the machine state after the execute stage.
    pub open spec fn executed(self, st: CoreState) -> (Self, CoreState) {
        let value: i32 = { let rs1_value = self.data.rs1_value->0; let rs2_value = self.data.rs2_value->0; spec_u32_to_i32(spec_i32_to_u32(rs1_value) >> ((rs2_value & 0x1f) as u32)) };
        (Self { data: IntRInstructionData { rd_value: Some(value), ..self.data } }, st.with_int_forwarding(self.data.rd, self.data.inst_count->0, value))
    }

    /// Whether the instruction holds what the memory stage needs.
    pub open spec fn done_exec(self) -> bool {
        self.data.inst_count is Some && self.data.rd_value is Some
    }

    /// Whether the instruction holds what the write-back stage needs.
    pub open spec fn done_memory(self) -> bool {
        self.data.inst_count is Some && self.data.rd_value is Some
    }

    /// The machine state after the write-back stage.
    pub open spec fn written_back(self, st: CoreState) -> CoreState {
        st.with_int_register(self.data.rd as int, self.data.rd_value->0)
    }

    /// The registers the instruction reads.
    pub open spec fn sources(self) -> Seq<RegisterId> {
        seq![RegisterId::Int(self.data.rs1), RegisterId::Int(self.data.rs2)]
    }

    /// The register the instruction writes, if any.
    pub open spec fn destination(self) -> Option<RegisterId> {
        Some(RegisterId::Int(self.data.rd))
    }

    /// The instruction as decoded, before it reads its operands.
    pub open spec fn spec_new(rs2: Rs2, rs1: Rs1, rd: Rd) -> Self {
        Self { data: IntRInstructionData { rs2: rs2, rs1: rs1, rd: rd, rs2_value: None, rs1_value: None, rd_value: None, inst_count: None } }
    }

    /// The instruction as decoded, before it reads its operands.
    pub fn new(rs2: Rs2, rs1: Rs1, rd: Rd) -> (r: Self)
        ensures
            r == Self::spec_new(rs2, rs1, rd),
    {
        let data = IntRInstructionData {
            rs2,
            rs1,
            rd,
            rs2_value: None,
            rs1_value: None,
            rd_value: None,
            inst_count: None,
        };
        Srl { data }
    }

    /// Reads the operands: each register from the forwarding network when a value is
    /// forwarded for it, else from the register file.
    pub fn register_fetch(&mut self, core: &Core)
        requires
            core.wf(),
            old(self).regs_ok(),
        ensures
            *final(self) == old(self).fetched(core@),
    {
        self.data.inst_count = Some(core.get_cycle_count());
        let forwarding_source_1 = core.get_forwarding_int_source(self.data.rs1);
        if let Some(source) = forwarding_source_1 {
            self.data.rs1_value = Some(source.1);
        } else {
            self.data.rs1_value = Some(core.get_int_register(self.data.rs1 as usize));
        }
        let forwarding_source_2 = core.get_forwarding_int_source(self.data.rs2);
        if let Some(source) = forwarding_source_2 {
            self.data.rs2_value = Some(source.1);
        } else {
            self.data.rs2_value = Some(core.get_int_register(self.data.rs2 as usize));
        }
    }

    /// The execute stage.
    pub fn exec(&mut self, core: &mut Core)
        requires
            old(core).wf(),
            old(self).regs_ok(),
            old(self).ready(),
            old(self).exec_ok(old(core)@),
        ensures
            final(core).wf(),
            (*final(self), final(core)@) == old(self).executed(old(core)@),
    {
        let rs1_value = self.data.rs1_value.unwrap();
        let rs2_value = self.data.rs2_value.unwrap();
        let shift_value = rs2_value & 0x1f;
        proof { lemma_shift_amount(rs2_value); }
        self.data.rd_value = Some(u32_to_i32(i32_to_u32(rs1_value) >> (shift_value as u32)));
        core.set_forwarding_int_source(self.data.rd, self.data.inst_count.unwrap(), self.data.rd_value.unwrap());
    }

    /// The write-back stage.
    pub fn write_back(&self, core: &mut Core)
        requires
            old(core).wf(),
            self.regs_ok(),
            self.done_memory(),
        ensures
            final(core).wf(),
            final(core)@ == self.written_back(old(core)@),
    {
        let result = self.data.rd_value.unwrap();
        core.set_int_register(self.data.rd as usize, result);
    }

    /// The registers the instruction reads.
    pub fn get_source_registers(&self) -> (r: Vec<RegisterId>)
        ensures
            r@ == self.sources(),
    {
        let mut registers: Vec<RegisterId> = Vec::new();
        registers.push(RegisterId::Int(self.data.rs1));
        registers.push(RegisterId::Int(self.data.rs2));
        registers
    }

    /// The register the instruction writes.
    pub fn get_destination_register(&self) -> (r: Option<RegisterId>)
        ensures
            r == self.destination(),
    {
        Some(RegisterId::Int(self.data.rd))
    }

    /// The cycle in which the instruction read its operands, once it has.
    pub fn get_instruction_count(&self) -> (r: Option<InstructionCount>)
        ensures
            r == self.data.inst_count,
    {
        self.data.inst_count
    }

    /// The text of the instruction in assembly language.
    pub open spec fn assembly(self) -> Seq<u8> {
        ascii("srl x"@) + decimal_text(self.data.rd as int) + ascii(", x"@) + decimal_text(self.data.rs1 as int) + ascii(", x"@) + decimal_text(self.data.rs2 as int)
    }

    /// The text of the instruction in assembly language, in ASCII bytes.
    pub fn assembly_text(&self) -> (r: Vec<u8>)
        ensures
            r@ == self.assembly(),
    {
        let mut text: Vec<u8> = Vec::new();
        push_text(&mut text, "srl x");
        let mut digits = decimal_bytes(self.data.rd as i64);
        text.append(&mut digits);
        push_text(&mut text, ", x");
        let mut digits = decimal_bytes(self.data.rs1 as i64);
        text.append(&mut digits);
        push_text(&mut text, ", x");
        let mut digits = decimal_bytes(self.data.rs2 as i64);
        text.append(&mut digits);
        text
    }

    /// The mnemonic of the instruction.
    pub fn get_name(&self) -> (r: String)
        ensures
            r@ == "srl"@,
    {
        String::from_str("srl")
    }
}

/// Shifts `rs1` right, keeping its sign, by the 5 low bits of `rs2`.
#[derive(Clone, Copy, Debug)]
pub struct Sra {
    pub data: IntRInstructionData,
}

impl Sra {
    /// Whether the register numbers name registers that exist.
    pub open spec fn regs_ok(self) -> bool {
        self.data.rs2 < 64 && self.data.rs1 < 64 && self.data.rd < 64
    }

    /// The instruction after reading its operands from `st`.
    pub open spec fn fetched(self, st: CoreState) -> Self {
        Self { data: IntRInstructionData { inst_count: Some(st.cycle_count), rs1_value: Some(st.int_source(self.data.rs1)), rs2_value: Some(st.int_source(self.data.rs2)), ..self.data } }
    }

    /// Whether the instruction has read its operands.
    pub open spec fn ready(self) -> bool {
        self.data.inst_count is Some && self.data.rs1_value is Some && self.data.rs2_value is Some
    }

    /// Whether the machine state lets the instruction execute.
    pub open spec fn exec_ok(self, st: CoreState) -> bool {
        true
    }

    /// The instruction and the machine state after the execute stage.
    pub open spec fn executed(self, st: CoreState) -> (Self, CoreState) {
        let value: i32 = { let rs1_value = self.data.rs1_value->0; let rs2_value = self.data.rs2_value->0; rs1_value >> ((rs2_value & 0x1f) as u32) };
        (Self { data: IntRInstructionData { rd_value: Some(value), ..self.data } }, st.with_int_forwarding(self.data.rd, self.data.inst_count->0, value))
    }

    /// Whether the instruction holds what the memory stage needs.
    pub open spec fn done_exec(self) -> bool {
        self.data.inst_count is Some && self.data.rd_value is Some
    }

    /// Whether the instruction holds what the write-back stage needs.
    pub open spec fn done_memory(self) -> bool {
        self.data.inst_count is Some && self.data.rd_value is Some
    }

    /// The machine state after the write-back stage.
    pub open spec fn written_back(self, st: CoreState) -> CoreState {
        st.with_int_register(self.data.rd as int, self.data.rd_value->0)
    }

    /// The registers the instruction reads.
    pub open spec fn sources(self) -> Seq<RegisterId> {
        seq![RegisterId::Int(self.data.rs1), RegisterId::Int(self.data.rs2)]
    }

    /// The register the instruction writes, if any.
    pub open spec fn destination(self) -> Option<RegisterId> {
        Some(RegisterId::Int(self.data.rd))
    }

    /// The instruction as decoded, before it reads its operands.
    pub open spec fn spec_new(rs2: Rs2, rs1: Rs1, rd: Rd) -> Self {
        Self { data: IntRInstructionData { rs2: rs2, rs1: rs1, rd: rd, rs2_value: None, rs1_value: None, rd_value: None, inst_count: None } }
    }

    /// The instruction as decoded, before it reads its operands.
    pub fn new(rs2: Rs2, rs1: Rs1, rd: Rd) -> (r: Self)
        ensures
            r == Self::spec_new(rs2, rs1, rd),
    {
        let data = IntRInstructionData {
            rs2,
            rs1,
            rd,
            rs2_value: None,
            rs1_value: None,
            rd_value: None,
            inst_count: None,
        };
        Sra { data }
    }

    /// Reads the operands: each register from the forwarding network when a value is
    /// forwarded for it, else from the register file.
    pub fn register_fetch(&mut self, core: &Core)
        requires
            core.wf(),
            old(self).regs_ok(),
        ensures
            *final(self) == old(self).fetched(core@),
    {
        self.data.inst_count = Some(core.get_cycle_count());
        let forwarding_source_1 = core.get_forwarding_int_source(self.data.rs1);
        if let Some(source) = forwarding_source_1 {
            self.data.rs1_value = Some(source.1);
        } else {
            self.data.rs1_value = Some(core.get_int_register(self.data.rs1 as usize));
        }
        let forwarding_source_2 = core.get_forwarding_int_source(self.data.rs2);
        if let Some(source) = forwarding_source_2 {
            self.data.rs2_value = Some(source.1);
        } else {
            self.data.rs2_value = Some(core.get_int_register(self.data.rs2 as usize));
        }
    }

    /// The execute stage.
    pub fn exec(&mut self, core: &mut Core)
        requires
            old(core).wf(),
            old(self).regs_ok(),
            old(self).ready(),
            old(self).exec_ok(old(core)@),
        ensures
            final(core).wf(),
            (*final(self), final(core)@) == old(self).executed(old(core)@),
    {
        let rs1_value = self.data.rs1_value.unwrap();
        let rs2_value = self.data.rs2_value.unwrap();
        let shift_value = rs2_value & 0x1f;
        proof { lemma_shift_amount(rs2_value); }
        self.data.rd_value = Some(rs1_value >> (shift_value as u32));
        core.set_forwarding_int_source(self.data.rd, self.data.inst_count.unwrap(), self.data.rd_value.unwrap());
    }

    /// The write-back stage.
    pub fn write_back(&self, core: &mut Core)
        requires
            old(core).wf(),
            self.regs_ok(),
            self.done_memory(),
        ensures
            final(core).wf(),
            final(core)@ == self.written_back(old(core)@),
    {
        let result = self.data.rd_value.unwrap();
        core.set_int_register(self.data.rd as usize, result);
    }

    /// The registers the instruction reads.
    pub fn get_source_registers(&self) -> (r: Vec<RegisterId>)
        ensures
            r@ == self.sources(),
    {
        let mut registers: Vec<RegisterId> = Vec::new();
        registers.push(RegisterId::Int(self.data.rs1));
        registers.push(RegisterId::Int(self.data.rs2));
        registers
    }

    /// The register the instruction writes.
    pub fn get_destination_register(&self) -> (r: Option<RegisterId>)
        ensures
            r == self.destination(),
    {
        Some(RegisterId::Int(self.data.rd))
    }

    /// The cycle in which the instruction read its operands, once it has.
    pub fn get_instruction_count(&self) -> (r: Option<InstructionCount>)
        ensures
            r == self.data.inst_count,
    {
        self.data.inst_count
    }

    /// The text of the instruction in assembly language.
    pub open spec fn assembly(self) -> Seq<u8> {
        ascii("sra x"@) + decimal_text(self.data.rd as int) + ascii(", x"@) + decimal_text(self.data.rs1 as int) + ascii(", x"@) + decimal_text(self.data.rs2 as int)
    }

    /// The text of the instruction in assembly language, in ASCII bytes.
    pub fn assembly_text(&self) -> (r: Vec<u8>)
        ensures
            r@ == self.assembly(),
    {
        let mut text: Vec<u8> = Vec::new();
        push_text(&mut text, "sra x");
        let mut digits = decimal_bytes(self.data.rd as i64);
        text.append(&mut digits);
        push_text(&mut text, ", x");
        let mut digits = decimal_bytes(self.data.rs1 as i64);
        text.append(&mut digits);
        push_text(&mut text, ", x");
        let mut digits = decimal_bytes(self.data.rs2 as i64);
        text.append(&mut digits);
        text
    }

    /// The mnemonic of the instruction.
    pub fn get_name(&self) -> (r: String)
        ensures
            r@ == "sra"@,
    {
        String::from_str("sra")
    }
}

/// Or of `rs1` and `rs2`.
#[derive(Clone, Copy, Debug)]
pub struct Or {
    pub data: IntRInstructionData,
}

impl Or {
    /// Whether the register numbers name registers that exist.
    pub open spec fn regs_ok(self) -> bool {
        self.data.rs2 < 64 && self.data.rs1 < 64 && self.data.rd < 64
    }

    /// The instruction after reading its operands from `st`.
    pub open spec fn fetched(self, st: CoreState) -> Self {
        Self { data: IntRInstructionData { inst_count: Some(st.cycle_count), rs1_value: Some(st.int_source(self.data.rs1)), rs2_value: Some(st.int_source(self.data.rs2)), ..self.data } }
    }

    /// Whether the instruction has read its operands.
    pub open spec fn ready(self) -> bool {
        self.data.inst_count is Some && self.data.rs1_value is Some && self.data.rs2_value is Some
    }

    /// Whether the machine state lets the instruction execute.
    pub open spec fn exec_ok(self, st: CoreState) -> bool {
        true
    }

    /// The instruction and the machine state after the execute stage.
    pub open spec fn executed(self, st: CoreState) -> (Self, CoreState) {
        let value: i32 = { let rs1_value = self.data.rs1_value->0; let rs2_value = self.data.rs2_value->0; rs1_value | rs2_value };
        (Self { data: IntRInstructionData { rd_value: Some(value), ..self.data } }, st.with_int_forwarding(self.data.rd, self.data.inst_count->0, value))
    }

    /// Whether the instruction holds what the memory stage needs.
    pub open spec fn done_exec(self) -> bool {
        self.data.inst_count is Some && self.data.rd_value is Some
    }

    /// Whether the instruction holds what the write-back stage needs.
    pub open spec fn done_memory(self) -> bool {
        self.data.inst_count is Some && self.data.rd_value is Some
    }

    /// The machine state after the write-back stage.
    pub open spec fn written_back(self, st: CoreState) -> CoreState {
        st.with_int_register(self.data.rd as int, self.data.rd_value->0)
    }

    /// The registers the instruction reads.
    pub open spec fn sources(self) -> Seq<RegisterId> {
        seq![RegisterId::Int(self.data.rs1), RegisterId::Int(self.data.rs2)]
    }

    /// The register the instruction writes, if any.
    pub open spec fn destination(self) -> Option<RegisterId> {
        Some(RegisterId::Int(self.data.rd))
    }

    /// The instruction as decoded, before it reads its operands.
    pub open spec fn spec_new(rs2: Rs2, rs1: Rs1, rd: Rd) -> Self {
        Self { data: IntRInstructionData { rs2: rs2, rs1: rs1, rd: rd, rs2_value: None, rs1_value: None, rd_value: None, inst_count: None } }
    }

    /// The instruction as decoded, before it reads its operands.
    pub fn new(rs2: Rs2, rs1: Rs1, rd: Rd) -> (r: Self)
        ensures
            r == Self::spec_new(rs2, rs1, rd),
    {
        let data = IntRInstructionData {
            rs2,
            rs1,
            rd,
            rs2_value: None,
            rs1_value: None,
            rd_value: None,
            inst_count: None,
        };
        Or { data }
    }

    /// Reads the operands: each register from the forwarding network when a value is
    /// forwarded for it, else from the register file.
    pub fn register_fetch(&mut self, core: &Core)
        requires
            core.wf(),
            old(self).regs_ok(),
        ensures
            *final(self) == old(self).fetched(core@),
    {
        self.data.inst_count = Some(core.get_cycle_count());
        let forwarding_source_1 = core.get_forwarding_int_source(self.data.rs1);
        if let Some(source) = forwarding_source_1 {
            self.data.rs1_value = Some(source.1);
        } else {
            self.data.rs1_value = Some(core.get_int_register(self.data.rs1 as usize));
        }
        let forwarding_source_2 = core.get_forwarding_int_source(self.data.rs2);
        if let Some(source) = forwarding_source_2 {
            self.data.rs2_value = Some(source.1);
        } else {
            self.data.rs2_value = Some(core.get_int_register(self.data.rs2 as usize));
        }
    }

    /// The execute stage.
    pub fn exec(&mut self, core: &mut Core)
        requires
            old(core).wf(),
            old(self).regs_ok(),
            old(self).ready(),
            old(self).exec_ok(old(core)@),
        ensures
            final(core).wf(),
            (*final(self), final(core)@) == old(self).executed(old(core)@),
    {
        let rs1_value = self.data.rs1_value.unwrap();
        let rs2_value = self.data.rs2_value.unwrap();
        self.data.rd_value = Some(rs1_value | rs2_value);
        core.set_forwarding_int_source(self.data.rd, self.data.inst_count.unwrap(), self.data.rd_value.unwrap());
    }

    /// The write-back stage.
    pub fn write_back(&self, core: &mut Core)
        requires
            old(core).wf(),
            self.regs_ok(),
            self.done_memory(),
        ensures
            final(core).wf(),
            final(core)@ == self.written_back(old(core)@),
    {
        let result = self.data.rd_value.unwrap();
        core.set_int_register(self.data.rd as usize, result);
    }

    /// The registers the instruction reads.
    pub fn get_source_registers(&self) -> (r: Vec<RegisterId>)
        ensures
            r@ == self.sources(),
    {
        let mut registers: Vec<RegisterId> = Vec::new();
        registers.push(RegisterId::Int(self.data.rs1));
        registers.push(RegisterId::Int(self.data.rs2));
        registers
    }

    /// The register the instruction writes.
    pub fn get_destination_register(&self) -> (r: Option<RegisterId>)
        ensures
            r == self.destination(),
    {
        Some(RegisterId::Int(self.data.rd))
    }

    /// The cycle in which the instruction read its operands, once it has.
    pub fn get_instruction_count(&self) -> (r: Option<InstructionCount>)
        ensures
            r == self.data.inst_count,
    {
        self.data.inst_count
    }

    /// The text of the instruction in assembly language.
    pub open spec fn assembly(self) -> Seq<u8> {
        ascii("or x"@) + decimal_text(self.data.rd as int) + ascii(", x"@) + decimal_text(self.data.rs1 as int) + ascii(", x"@) + decimal_text(self.data.rs2 as int)
    }

    /// The text of the instruction in assembly language, in ASCII bytes.
    pub fn assembly_text(&self) -> (r: Vec<u8>)
        ensures
            r@ == self.assembly(),
    {
        let mut text: Vec<u8> = Vec::new();
        push_text(&mut text, "or x");
        let mut digits = decimal_bytes(self.data.rd as i64);
        text.append(&mut digits);
        push_text(&mut text, ", x");
        let mut digits = decimal_bytes(self.data.rs1 as i64);
        text.append(&mut digits);
        push_text(&mut text, ", x");
        let mut digits = decimal_bytes(self.data.rs2 as i64);
        text.append(&mut digits);
        text
    }

    /// The mnemonic of the instruction.
    pub fn get_name(&self) -> (r: String)
        ensures
            r@ == "or"@,
    {
        String::from_str("or")
    }
}

/// And of `rs1` and `rs2`.
#[derive(Clone, Copy, Debug)]
pub struct And {
    pub data: IntRInstructionData,
}

impl And {
    /// Whether the register numbers name registers that exist.
    pub open spec fn regs_ok(self) -> bool {
        self.data.rs2 < 64 && self.data.rs1 < 64 && self.data.rd < 64
    }

    /// The instruction after reading its operands from `st`.
    pub open spec fn fetched(self, st: CoreState) -> Self {
        Self { data: IntRInstructionData { inst_count: Some(st.cycle_count), rs1_value: Some(st.int_source(self.data.rs1)), rs2_value: Some(st.int_source(self.data.rs2)), ..self.data } }
    }

    /// Whether the instruction has read its operands.
    pub open spec fn ready(self) -> bool {
        self.data.inst_count is Some && self.data.rs1_value is Some && self.data.rs2_value is Some
    }

    /// Whether the machine state lets the instruction execute.
    pub open spec fn exec_ok(self, st: CoreState) -> bool {
        true
    }

    /// The instruction and the machine state after the execute stage.
    pub open spec fn executed(self, st: CoreState) -> (Self, CoreState) {
        let value: i32 = { let rs1_value = self.data.rs1_value->0; let rs2_value = self.data.rs2_value->0; rs1_value & rs2_value };
        (Self { data: IntRInstructionData { rd_value: Some(value), ..self.data } }, st.with_int_forwarding(self.data.rd, self.data.inst_count->0, value))
    }

    /// Whether the instruction holds what the memory stage needs.
    pub open spec fn done_exec(self) -> bool {
        self.data.inst_count is Some && self.data.rd_value is Some
    }

    /// Whether the instruction holds what the write-back stage needs.
    pub open spec fn done_memory(self) -> bool {
        self.data.inst_count is Some && self.data.rd_value is Some
    }

    /// The machine state after the write-back stage.
    pub open spec fn written_back(self, st: CoreState) -> CoreState {
        st.with_int_register(self.data.rd as int, self.data.rd_value->0)
    }

    /// The registers the instruction reads.
    pub open spec fn sources(self) -> Seq<RegisterId> {
        seq![RegisterId::Int(self.data.rs1), RegisterId::Int(self.data.rs2)]
    }

    /// The register the instruction writes, if any.
    pub open spec fn destination(self) -> Option<RegisterId> {
        Some(RegisterId::Int(self.data.rd))
    }

    /// The instruction as decoded, before it reads its operands.
    pub open spec fn spec_new(rs2: Rs2, rs1: Rs1, rd: Rd) -> Self {
        Self { data: IntRInstructionData { rs2: rs2, rs1: rs1, rd: rd, rs2_value: None, rs1_value: None, rd_value: None, inst_count: None } }
    }

    /// The instruction as decoded, before it reads its operands.
    pub fn new(rs2: Rs2, rs1: Rs1, rd: Rd) -> (r: Self)
        ensures
            r == Self::spec_new(rs2, rs1, rd),
    {
        let data = IntRInstructionData {
            rs2,
            rs1,
            rd,
            rs2_value: None,
            rs1_value: None,
            rd_value: None,
            inst_count: None,
        };
        And { data }
    }

    /// Reads the operands: each register from the forwarding network when a value is
    /// forwarded for it, else from the register file.
    pub fn register_fetch(&mut self, core: &Core)
        requires
            core.wf(),
            old(self).regs_ok(),
        ensures
            *final(self) == old(self).fetched(core@),
    {
        self.data.inst_count = Some(core.get_cycle_count());
        let forwarding_source_1 = core.get_forwarding_int_source(self.data.rs1);
        if let Some(source) = forwarding_source_1 {
            self.data.rs1_value = Some(source.1);
        } else {
            self.data.rs1_value = Some(core.get_int_register(self.data.rs1 as usize));
        }
        let forwarding_source_2 = core.get_forwarding_int_source(self.data.rs2);
        if let Some(source) = forwarding_source_2 {
            self.data.rs2_value = Some(source.1);
        } else {
            self.data.rs2_value = Some(core.get_int_register(self.data.rs2 as usize));
        }
    }

    /// The execute stage.
    pub fn exec(&mut self, core: &mut Core)
        requires
            old(core).wf(),
            old(self).regs_ok(),
            old(self).ready(),
            old(self).exec_ok(old(core)@),
        ensures
            final(core).wf(),
            (*final(self), final(core)@) == old(self).executed(old(core)@),
    {
        let rs1_value = self.data.rs1_value.unwrap();
        let rs2_value = self.data.rs2_value.unwrap();
        self.data.rd_value = Some(rs1_value & rs2_value);
        core.set_forwarding_int_source(self.data.rd, self.data.inst_count.unwrap(), self.data.rd_value.unwrap());
    }

    /// The write-back stage.
    pub fn write_back(&self, core: &mut Core)
        requires
            old(core).wf(),
            self.regs_ok(),
            self.done_memory(),
        ensures
            final(core).wf(),
            final(core)@ == self.written_back(old(core)@),
    {
        let result = self.data.rd_value.unwrap();
        core.set_int_register(self.data.rd as usize, result);
    }

    /// The registers the instruction reads.
    pub fn get_source_registers(&self) -> (r: Vec<RegisterId>)
        ensures
            r@ == self.sources(),
    {
        let mut registers: Vec<RegisterId> = Vec::new();
        registers.push(RegisterId::Int(self.data.rs1));
        registers.push(RegisterId::Int(self.data.rs2));
        registers
    }

    /// The register the instruction writes.
    pub fn get_destination_register(&self) -> (r: Option<RegisterId>)
        ensures
            r == self.destination(),
    {
        Some(RegisterId::Int(self.data.rd))
    }

    /// The cycle in which the instruction read its operands, once it has.
    pub fn get_instruction_count(&self) -> (r: Option<InstructionCount>)
        ensures
            r == self.data.inst_count,
    {
        self.data.inst_count
    }

    /// The text of the instruction in assembly language.
    pub open spec fn assembly(self) -> Seq<u8> {
        ascii("and x"@) + decimal_text(self.data.rd as int) + ascii(", x"@) + decimal_text(self.data.rs1 as int) + ascii(", x"@) + decimal_text(self.data.rs2 as int)
    }

    /// The text of the instruction in assembly language, in ASCII bytes.
    pub fn assembly_text(&self) -> (r: Vec<u8>)
        ensures
            r@ == self.assembly(),
    {
        let mut text: Vec<u8> = Vec::new();
        push_text(&mut text, "and x");
        let mut digits = decimal_bytes(self.data.rd as i64);
        text.append(&mut digits);
        push_text(&mut text, ", x");
        let mut digits = decimal_bytes(self.data.rs1 as i64);
        text.append(&mut digits);
        push_text(&mut text, ", x");
        let mut digits = decimal_bytes(self.data.rs2 as i64);
        text.append(&mut digits);
        text
    }

    /// The mnemonic of the instruction.
    pub fn get_name(&self) -> (r: String)
        ensures
            r@ == "and"@,
    {
        String::from_str("and")
    }
}

/// Sets `rd` to the immediate shifted left by 13 bits.
#[derive(Clone, Copy, Debug)]
pub struct Lui {
    pub data: UInstructionData,
}

impl Lui {
    /// Whether the register numbers name registers that exist.
    pub open spec fn regs_ok(self) -> bool {
        self.data.rd < 64
    }

    /// The instruction after reading its operands from `st`.
    pub open spec fn fetched(self, st: CoreState) -> Self {
        Self { data: UInstructionData { inst_count: Some(st.cycle_count), upimm: Some(self.data.imm << 13u32), origin_pc: Some(vstd::wrapping::u32_specs::wrapping_sub(st.pc, 8)), ..self.data } }
    }

    /// Whether the instruction has read its operands.
    pub open spec fn ready(self) -> bool {
        self.data.inst_count is Some && self.data.upimm is Some && self.data.origin_pc is Some
    }

    /// Whether the machine state lets the instruction execute.
    pub open spec fn exec_ok(self, st: CoreState) -> bool {
        true
    }

    /// The instruction and the machine state after the execute stage.
    pub open spec fn executed(self, st: CoreState) -> (Self, CoreState) {
        let value: i32 = self.data.upimm->0;
        (Self { data: UInstructionData { rd_value: Some(value), ..self.data } }, st.with_int_forwarding(self.data.rd, self.data.inst_count->0, value))
    }

    /// Whether the instruction holds what the memory stage needs.
    pub open spec fn done_exec(self) -> bool {
        self.data.inst_count is Some && self.data.rd_value is Some
    }

    /// Whether the instruction holds what the write-back stage needs.
    pub open spec fn done_memory(self) -> bool {
        self.data.inst_count is Some && self.data.rd_value is Some
    }

    /// The machine state after the write-back stage.
    pub open spec fn written_back(self, st: CoreState) -> CoreState {
        st.with_int_register(self.data.rd as int, self.data.rd_value->0)
    }

    /// The registers the instruction reads.
    pub open spec fn sources(self) -> Seq<RegisterId> {
        Seq::empty()
    }

    /// The register the instruction writes, if any.
    pub open spec fn destination(self) -> Option<RegisterId> {
        Some(RegisterId::Int(self.data.rd))
    }

    /// The instruction as decoded, before it reads its operands.
    pub open spec fn spec_new(imm: Imm19, rd: Rd) -> Self {
        Self { data: UInstructionData { imm: imm, rd: rd, upimm: None, rd_value: None, inst_count: None, origin_pc: None } }
    }

    /// The instruction as decoded, before it reads its operands.
    pub fn new(imm: Imm19, rd: Rd) -> (r: Self)
        ensures
            r == Self::spec_new(imm, rd),
    {
        let data = UInstructionData {
            imm,
            rd,
            upimm: None,
            rd_value: None,
            inst_count: None,
            origin_pc: None,
        };
        Lui { data }
    }

    /// Reads the operands: each register from the forwarding network when a value is
    /// forwarded for it, else from the register file.
    pub fn register_fetch(&mut self, core: &Core)
        requires
            core.wf(),
            old(self).regs_ok(),
        ensures
            *final(self) == old(self).fetched(core@),
    {
        self.data.inst_count = Some(core.get_cycle_count());
        self.data.upimm = Some(self.data.imm << 13u32);
        self.data.origin_pc = Some(core.get_pc().wrapping_sub(8));
    }

    /// The execute stage.
    pub fn exec(&mut self, core: &mut Core)
        requires
            old(core).wf(),
            old(self).regs_ok(),
            old(self).ready(),
            old(self).exec_ok(old(core)@),
        ensures
            final(core).wf(),
            (*final(self), final(core)@) == old(self).executed(old(core)@),
    {
        self.data.rd_value = Some(self.data.upimm.unwrap());
        core.set_forwarding_int_source(self.data.rd, self.data.inst_count.unwrap(), self.data.rd_value.unwrap());
    }

    /// The write-back stage.
    pub fn write_back(&self, core: &mut Core)
        requires
            old(core).wf(),
            self.regs_ok(),
            self.done_memory(),
        ensures
            final(core).wf(),
            final(core)@ == self.written_back(old(core)@),
    {
        let result = self.data.rd_value.unwrap();
        core.set_int_register(self.data.rd as usize, result);
    }

    /// The register the instruction writes.
    pub fn get_destination_register(&self) -> (r: Option<RegisterId>)
        ensures
            r == self.destination(),
    {
        Some(RegisterId::Int(self.data.rd))
    }

    /// The cycle in which the instruction read its operands, once it has.
    pub fn get_instruction_count(&self) -> (r: Option<InstructionCount>)
        ensures
            r == self.data.inst_count,
    {
        self.data.inst_count
    }

    /// The text of the instruction in assembly language.
    pub open spec fn assembly(self) -> Seq<u8> {
        ascii("lui x"@) + decimal_text(self.data.rd as int) + ascii(", "@) + decimal_text(self.data.imm as int)
    }

    /// The text of the instruction in assembly language, in ASCII bytes.
    pub fn assembly_text(&self) -> (r: Vec<u8>)
        ensures
            r@ == self.assembly(),
    {
        let mut text: Vec<u8> = Vec::new();
        push_text(&mut text, "lui x");
        let mut digits = decimal_bytes(self.data.rd as i64);
        text.append(&mut digits);
        push_text(&mut text, ", ");
        let mut digits = decimal_bytes(self.data.imm as i64);
        text.append(&mut digits);
        text
    }

    /// The mnemonic of the instruction.
    pub fn get_name(&self) -> (r: String)
        ensures
            r@ == "lui"@,
    {
        String::from_str("lui")
    }
}

/// Branches when `rs1` equals `rs2`.
#[derive(Clone, Copy, Debug)]
pub struct Beq {
    pub data: BInstructionData,
}

impl Beq {
    /// Whether the register numbers name registers that exist.
    pub open spec fn regs_ok(self) -> bool {
        self.data.rs2 < 64 && self.data.rs1 < 64
    }

    /// The instruction after reading its operands from `st`.
    pub open spec fn fetched(self, st: CoreState) -> Self {
        Self { data: BInstructionData { extended_imm: Some(spec_sign_extention_i16(self.data.imm, 13) as i32), inst_count: Some(st.cycle_count), origin_pc: Some(vstd::wrapping::u32_specs::wrapping_sub(st.pc, 8)), rs1_value: Some(st.int_source(self.data.rs1)), rs2_value: Some(st.int_source(self.data.rs2)), ..self.data } }
    }

    /// Whether the instruction has read its operands.
    pub open spec fn ready(self) -> bool {
        self.data.extended_imm is Some && self.data.inst_count is Some && self.data.origin_pc is Some && self.data.rs1_value is Some && self.data.rs2_value is Some
    }

    /// Whether the machine state lets the instruction execute.
    pub open spec fn exec_ok(self, st: CoreState) -> bool {
        true
    }

    /// The instruction and the machine state after the execute stage.
    pub open spec fn executed(self, st: CoreState) -> (Self, CoreState) {
        let taken: bool = { let rs1_value = self.data.rs1_value->0; let rs2_value = self.data.rs2_value->0; rs1_value == rs2_value };
        let target = vstd::wrapping::i32_specs::wrapping_add(self.data.origin_pc->0 as i32, self.data.extended_imm->0 << 2u32) as Address;
        (if taken { Self { data: BInstructionData { jump_address: Some(target), ..self.data } } } else { self }, st)
    }

    /// Whether the instruction holds what the memory stage needs.
    pub open spec fn done_exec(self) -> bool {
        self.data.inst_count is Some
    }

    /// Whether the instruction holds what the write-back stage needs.
    pub open spec fn done_memory(self) -> bool {
        self.data.inst_count is Some
    }

    /// The registers the instruction reads.
    pub open spec fn sources(self) -> Seq<RegisterId> {
        seq![RegisterId::Int(self.data.rs1), RegisterId::Int(self.data.rs2)]
    }

    /// The register the instruction writes, if any.
    pub open spec fn destination(self) -> Option<RegisterId> {
        None
    }

    /// The instruction as decoded, before it reads its operands.
    pub open spec fn spec_new(imm: Imm13, rs2: Rs2, rs1: Rs1) -> Self {
        Self { data: BInstructionData { imm: imm, rs2: rs2, rs1: rs1, extended_imm: None, rs2_value: None, rs1_value: None, inst_count: None, origin_pc: None, jump_address: None } }
    }

    /// The instruction as decoded, before it reads its operands.
    pub fn new(imm: Imm13, rs2: Rs2, rs1: Rs1) -> (r: Self)
        ensures
            r == Self::spec_new(imm, rs2, rs1),
    {
        let data = BInstructionData {
            imm,
            rs2,
            rs1,
            extended_imm: None,
            rs2_value: None,
            rs1_value: None,
            inst_count: None,
            origin_pc: None,
            jump_address: None,
        };
        Beq { data }
    }

    /// Reads the operands: each register from the forwarding network when a value is
    /// forwarded for it, else from the register file.
    pub fn register_fetch(&mut self, core: &Core)
        requires
            core.wf(),
            old(self).regs_ok(),
        ensures
            *final(self) == old(self).fetched(core@),
    {
        self.data.extended_imm = Some(sign_extention_i16(self.data.imm, 13) as i32);
        self.data.inst_count = Some(core.get_cycle_count());
        self.data.origin_pc = Some(core.get_pc().wrapping_sub(8));
        let forwarding_source_1 = core.get_forwarding_int_source(self.data.rs1);
        if let Some(source) = forwarding_source_1 {
            self.data.rs1_value = Some(source.1);
        } else {
            self.data.rs1_value = Some(core.get_int_register(self.data.rs1 as usize));
        }
        let forwarding_source_2 = core.get_forwarding_int_source(self.data.rs2);
        if let Some(source) = forwarding_source_2 {
            self.data.rs2_value = Some(source.1);
        } else {
            self.data.rs2_value = Some(core.get_int_register(self.data.rs2 as usize));
        }
    }

    /// The execute stage.
    pub fn exec(&mut self, _core: &mut Core)
        requires
            old(_core).wf(),
            old(self).regs_ok(),
            old(self).ready(),
            old(self).exec_ok(old(_core)@),
        ensures
            final(_core).wf(),
            (*final(self), final(_core)@) == old(self).executed(old(_core)@),
    {
        let extended_imm = self.data.extended_imm.unwrap();
        let rs1_value = self.data.rs1_value.unwrap();
        let rs2_value = self.data.rs2_value.unwrap();
        if rs1_value == rs2_value {
            self.data.jump_address = Some((self.data.origin_pc.unwrap() as i32).wrapping_add(extended_imm << 2u32) as Address);
        }
    }

    /// The registers the instruction reads.
    pub fn get_source_registers(&self) -> (r: Vec<RegisterId>)
        ensures
            r@ == self.sources(),
    {
        let mut registers: Vec<RegisterId> = Vec::new();
        registers.push(RegisterId::Int(self.data.rs1));
        registers.push(RegisterId::Int(self.data.rs2));
        registers
    }

    /// The address to jump to, once the execute stage has decided to jump.
    pub fn get_jump_address(&self) -> (r: Option<Address>)
        ensures
            r == self.data.jump_address,
    {
        self.data.jump_address
    }

    /// The cycle in which the instruction read its operands, once it has.
    pub fn get_instruction_count(&self) -> (r: Option<InstructionCount>)
        ensures
            r == self.data.inst_count,
    {
        self.data.inst_count
    }

    /// The text of the instruction in assembly language.
    pub open spec fn assembly(self) -> Seq<u8> {
        ascii("beq x"@) + decimal_text(self.data.rs1 as int) + ascii(", x"@) + decimal_text(self.data.rs2 as int) + ascii(", "@) + (match self.data.origin_pc { Some(pc) => decimal_text(pc as int), None => ascii("?"@) }) + ascii(" + "@) + decimal_text(spec_sign_extention_i16(self.data.imm, 13) * 4)
    }

    /// The text of the instruction in assembly language, in ASCII bytes.
    pub fn assembly_text(&self) -> (r: Vec<u8>)
        ensures
            r@ == self.assembly(),
    {
        let mut text: Vec<u8> = Vec::new();
        push_text(&mut text, "beq x");
        let mut digits = decimal_bytes(self.data.rs1 as i64);
        text.append(&mut digits);
        push_text(&mut text, ", x");
        let mut digits = decimal_bytes(self.data.rs2 as i64);
        text.append(&mut digits);
        push_text(&mut text, ", ");
        match self.data.origin_pc {
            Some(pc) => {
                let mut digits = decimal_bytes(pc as i64);
                text.append(&mut digits);
            },
            None => {
                push_text(&mut text, "?");
            },
        }
        push_text(&mut text, " + ");
        let mut digits = decimal_bytes(sign_extention_i16(self.data.imm, 13) as i64 * 4);
        text.append(&mut digits);
        text
    }

    /// The mnemonic of the instruction.
    pub fn get_name(&self) -> (r: String)
        ensures
            r@ == "beq"@,
    {
        String::from_str("beq")
    }
}

/// Branches when `rs1` differs from `rs2`.
#[derive(Clone, Copy, Debug)]
pub struct Bne {
    pub data: BInstructionData,
}

impl Bne {
    /// Whether the register numbers name registers that exist.
    pub open spec fn regs_ok(self) -> bool {
        self.data.rs2 < 64 && self.data.rs1 < 64
    }

    /// The instruction after reading its operands from `st`.
    pub open spec fn fetched(self, st: CoreState) -> Self {
        Self { data: BInstructionData { extended_imm: Some(spec_sign_extention_i16(self.data.imm, 13) as i32), inst_count: Some(st.cycle_count), origin_pc: Some(vstd::wrapping::u32_specs::wrapping_sub(st.pc, 8)), rs1_value: Some(st.int_source(self.data.rs1)), rs2_value: Some(st.int_source(self.data.rs2)), ..self.data } }
    }

    /// Whether the instruction has read its operands.
    pub open spec fn ready(self) -> bool {
        self.data.extended_imm is Some && self.data.inst_count is Some && self.data.origin_pc is Some && self.data.rs1_value is Some && self.data.rs2_value is Some
    }

    /// Whether the machine state lets the instruction execute.
    pub open spec fn exec_ok(self, st: CoreState) -> bool {
        true
    }

    /// The instruction and the machine state after the execute stage.
    pub open spec fn executed(self, st: CoreState) -> (Self, CoreState) {
        let taken: bool = { let rs1_value = self.data.rs1_value->0; let rs2_value = self.data.rs2_value->0; rs1_value != rs2_value };
        let target = vstd::wrapping::i32_specs::wrapping_add(self.data.origin_pc->0 as i32, self.data.extended_imm->0 << 2u32) as Address;
        (if taken { Self { data: BInstructionData { jump_address: Some(target), ..self.data } } } else { self }, st)
    }

    /// Whether the instruction holds what the memory stage needs.
    pub open spec fn done_exec(self) -> bool {
        self.data.inst_count is Some
    }

    /// Whether the instruction holds what the write-back stage needs.
    pub open spec fn done_memory(self) -> bool {
        self.data.inst_count is Some
    }

    /// The registers the instruction reads.
    pub open spec fn sources(self) -> Seq<RegisterId> {
        seq![RegisterId::Int(self.data.rs1), RegisterId::Int(self.data.rs2)]
    }

    /// The register the instruction writes, if any.
    pub open spec fn destination(self) -> Option<RegisterId> {
        None
    }

    /// The instruction as decoded, before it reads its operands.
    pub open spec fn spec_new(imm: Imm13, rs2: Rs2, rs1: Rs1) -> Self {
        Self { data: BInstructionData { imm: imm, rs2: rs2, rs1: rs1, extended_imm: None, rs2_value: None, rs1_value: None, inst_count: None, origin_pc: None, jump_address: None } }
    }

    /// The instruction as decoded, before it reads its operands.
    pub fn new(imm: Imm13, rs2: Rs2, rs1: Rs1) -> (r: Self)
        ensures
            r == Self::spec_new(imm, rs2, rs1),
    {
        let data = BInstructionData {
            imm,
            rs2,
            rs1,
            extended_imm: None,
            rs2_value: None,
            rs1_value: None,
            inst_count: None,
            origin_pc: None,
            jump_address: None,
        };
        Bne { data }
    }

    /// Reads the operands: each register from the forwarding network when a value is
    /// forwarded for it, else from the register file.
    pub fn register_fetch(&mut self, core: &Core)
        requires
            core.wf(),
            old(self).regs_ok(),
        ensures
            *final(self) == old(self).fetched(core@),
    {
        self.data.extended_imm = Some(sign_extention_i16(self.data.imm, 13) as i32);
        self.data.inst_count = Some(core.get_cycle_count());
        self.data.origin_pc = Some(core.get_pc().wrapping_sub(8));
        let forwarding_source_1 = core.get_forwarding_int_source(self.data.rs1);
        if let Some(source) = forwarding_source_1 {
            self.data.rs1_value = Some(source.1);
        } else {
            self.data.rs1_value = Some(core.get_int_register(self.data.rs1 as usize));
        }
        let forwarding_source_2 = core.get_forwarding_int_source(self.data.rs2);
        if let Some(source) = forwarding_source_2 {
            self.data.rs2_value = Some(source.1);
        } else {
            self.data.rs2_value = Some(core.get_int_register(self.data.rs2 as usize));
        }
    }

    /// The execute stage.
    pub fn exec(&mut self, _core: &mut Core)
        requires
            old(_core).wf(),
            old(self).regs_ok(),
            old(self).ready(),
            old(self).exec_ok(old(_core)@),
        ensures
            final(_core).wf(),
            (*final(self), final(_core)@) == old(self).executed(old(_core)@),
    {
        let extended_imm = self.data.extended_imm.unwrap();
        let rs1_value = self.data.rs1_value.unwrap();
        let rs2_value = self.data.rs2_value.unwrap();
        if rs1_value != rs2_value {
            self.data.jump_address = Some((self.data.origin_pc.unwrap() as i32).wrapping_add(extended_imm << 2u32) as Address);
        }
    }

    /// The registers the instruction reads.
    pub fn get_source_registers(&self) -> (r: Vec<RegisterId>)
        ensures
            r@ == self.sources(),
    {
        let mut registers: Vec<RegisterId> = Vec::new();
        registers.push(RegisterId::Int(self.data.rs1));
        registers.push(RegisterId::Int(self.data.rs2));
        registers
    }

    /// The address to jump to, once the execute stage has decided to jump.
    pub fn get_jump_address(&self) -> (r: Option<Address>)
        ensures
            r == self.data.jump_address,
    {
        self.data.jump_address
    }

    /// The cycle in which the instruction read its operands, once it has.
    pub fn get_instruction_count(&self) -> (r: Option<InstructionCount>)
        ensures
            r == self.data.inst_count,
    {
        self.data.inst_count
    }

    /// The text of the instruction in assembly language.
    pub open spec fn assembly(self) -> Seq<u8> {
        ascii("bne x"@) + decimal_text(self.data.rs1 as int) + ascii(", x"@) + decimal_text(self.data.rs2 as int) + ascii(", "@) + (match self.data.origin_pc { Some(pc) => decimal_text(pc as int), None => ascii("?"@) }) + ascii(" + "@) + decimal_text(spec_sign_extention_i16(self.data.imm, 13) * 4)
    }

    /// The text of the instruction in assembly language, in ASCII bytes.
    pub fn assembly_text(&self) -> (r: Vec<u8>)
        ensures
            r@ == self.assembly(),
    {
        let mut text: Vec<u8> = Vec::new();
        push_text(&mut text, "bne x");
        let mut digits = decimal_bytes(self.data.rs1 as i64);
        text.append(&mut digits);
        push_text(&mut text, ", x");
        let mut digits = decimal_bytes(self.data.rs2 as i64);
        text.append(&mut digits);
        push_text(&mut text, ", ");
        match self.data.origin_pc {
            Some(pc) => {
                let mut digits = decimal_bytes(pc as i64);
                text.append(&mut digits);
            },
            None => {
                push_text(&mut text, "?");
            },
        }
        push_text(&mut text, " + ");
        let mut digits = decimal_bytes(sign_extention_i16(self.data.imm, 13) as i64 * 4);
        text.append(&mut digits);
        text
    }

    /// The mnemonic of the instruction.
    pub fn get_name(&self) -> (r: String)
        ensures
            r@ == "bne"@,
    {
        String::from_str("bne")
    }
}

/// Branches when `rs1` is less than `rs2`.
#[derive(Clone, Copy, Debug)]
pub struct Blt {
    pub data: BInstructionData,
}

impl Blt {
    /// Whether the register numbers name registers that exist.
    pub open spec fn regs_ok(self) -> bool {
        self.data.rs2 < 64 && self.data.rs1 < 64
    }

    /// The instruction after reading its operands from `st`.
    pub open spec fn fetched(self, st: CoreState) -> Self {
        Self { data: BInstructionData { extended_imm: Some(spec_sign_extention_i16(self.data.imm, 13) as i32), inst_count: Some(st.cycle_count), origin_pc: Some(vstd::wrapping::u32_specs::wrapping_sub(st.pc, 8)), rs1_value: Some(st.int_source(self.data.rs1)), rs2_value: Some(st.int_source(self.data.rs2)), ..self.data } }
    }

    /// Whether the instruction has read its operands.
    pub open spec fn ready(self) -> bool {
        self.data.extended_imm is Some && self.data.inst_count is Some && self.data.origin_pc is Some && self.data.rs1_value is Some && self.data.rs2_value is Some
    }

    /// Whether the machine state lets the instruction execute.
    pub open spec fn exec_ok(self, st: CoreState) -> bool {
        true
    }

    /// The instruction and the machine state after the execute stage.
    pub open spec fn executed(self, st: CoreState) -> (Self, CoreState) {
        let taken: bool = { let rs1_value = self.data.rs1_value->0; let rs2_value = self.data.rs2_value->0; rs1_value < rs2_value };
        let target = vstd::wrapping::i32_specs::wrapping_add(self.data.origin_pc->0 as i32, self.data.extended_imm->0 << 2u32) as Address;
        (if taken { Self { data: BInstructionData { jump_address: Some(target), ..self.data } } } else { self }, st)
    }

    /// Whether the instruction holds what the memory stage needs.
    pub open spec fn done_exec(self) -> bool {
        self.data.inst_count is Some
    }

    /// Whether the instruction holds what the write-back stage needs.
    pub open spec fn done_memory(self) -> bool {
        self.data.inst_count is Some
    }

    /// The registers the instruction reads.
    pub open spec fn sources(self) -> Seq<RegisterId> {
        seq![RegisterId::Int(self.data.rs1), RegisterId::Int(self.data.rs2)]
    }

    /// The register the instruction writes, if any.
    pub open spec fn destination(self) -> Option<RegisterId> {
        None
    }

    /// The instruction as decoded, before it reads its operands.
    pub open spec fn spec_new(imm: Imm13, rs2: Rs2, rs1: Rs1) -> Self {
        Self { data: BInstructionData { imm: imm, rs2: rs2, rs1: rs1, extended_imm: None, rs2_value: None, rs1_value: None, inst_count: None, origin_pc: None, jump_address: None } }
    }

    /// The instruction as decoded, before it reads its operands.
    pub fn new(imm: Imm13, rs2: Rs2, rs1: Rs1) -> (r: Self)
        ensures
            r == Self::spec_new(imm, rs2, rs1),
    {
        let data = BInstructionData {
            imm,
            rs2,
            rs1,
            extended_imm: None,
            rs2_value: None,
            rs1_value: None,
            inst_count: None,
            origin_pc: None,
            jump_address: None,
        };
        Blt { data }
    }

    /// Reads the operands: each register from the forwarding network when a value is
    /// forwarded for it, else from the register file.
    pub fn register_fetch(&mut self, core: &Core)
        requires
            core.wf(),
            old(self).regs_ok(),
        ensures
            *final(self) == old(self).fetched(core@),
    {
        self.data.extended_imm = Some(sign_extention_i16(self.data.imm, 13) as i32);
        self.data.inst_count = Some(core.get_cycle_count());
        self.data.origin_pc = Some(core.get_pc().wrapping_sub(8));
        let forwarding_source_1 = core.get_forwarding_int_source(self.data.rs1);
        if let Some(source) = forwarding_source_1 {
            self.data.rs1_value = Some(source.1);
        } else {
            self.data.rs1_value = Some(core.get_int_register(self.data.rs1 as usize));
        }
        let forwarding_source_2 = core.get_forwarding_int_source(self.data.rs2);
        if let Some(source) = forwarding_source_2 {
            self.data.rs2_value = Some(source.1);
        } else {
            self.data.rs2_value = Some(core.get_int_register(self.data.rs2 as usize));
        }
    }

    /// The execute stage.
    pub fn exec(&mut self, _core: &mut Core)
        requires
            old(_core).wf(),
            old(self).regs_ok(),
            old(self).ready(),
            old(self).exec_ok(old(_core)@),
        ensures
            final(_core).wf(),
            (*final(self), final(_core)@) == old(self).executed(old(_core)@),
    {
        let extended_imm = self.data.extended_imm.unwrap();
        let rs1_value = self.data.rs1_value.unwrap();
        let rs2_value = self.data.rs2_value.unwrap();
        if rs1_value < rs2_value {
            self.data.jump_address = Some((self.data.origin_pc.unwrap() as i32).wrapping_add(extended_imm << 2u32) as Address);
        }
    }

    /// The registers the instruction reads.
    pub fn get_source_registers(&self) -> (r: Vec<RegisterId>)
        ensures
            r@ == self.sources(),
    {
        let mut registers: Vec<RegisterId> = Vec::new();
        registers.push(RegisterId::Int(self.data.rs1));
        registers.push(RegisterId::Int(self.data.rs2));
        registers
    }

    /// The address to jump to, once the execute stage has decided to jump.
    pub fn get_jump_address(&self) -> (r: Option<Address>)
        ensures
            r == self.data.jump_address,
    {
        self.data.jump_address
    }

    /// The cycle in which the instruction read its operands, once it has.
    pub fn get_instruction_count(&self) -> (r: Option<InstructionCount>)
        ensures
            r == self.data.inst_count,
    {
        self.data.inst_count
    }

    /// The text of the instruction in assembly language.
    pub open spec fn assembly(self) -> Seq<u8> {
        ascii("blt x"@) + decimal_text(self.data.rs1 as int) + ascii(", x"@) + decimal_text(self.data.rs2 as int) + ascii(", "@) + (match self.data.origin_pc { Some(pc) => decimal_text(pc as int), None => ascii("?"@) }) + ascii(" + "@) + decimal_text(spec_sign_extention_i16(self.data.imm, 13) * 4)
    }

    /// The text of the instruction in assembly language, in ASCII bytes.
    pub fn assembly_text(&self) -> (r: Vec<u8>)
        ensures
            r@ == self.assembly(),
    {
        let mut text: Vec<u8> = Vec::new();
        push_text(&mut text, "blt x");
        let mut digits = decimal_bytes(self.data.rs1 as i64);
        text.append(&mut digits);
        push_text(&mut text, ", x");
        let mut digits = decimal_bytes(self.data.rs2 as i64);
        text.append(&mut digits);
        push_text(&mut text, ", ");
        match self.data.origin_pc {
            Some(pc) => {
                let mut digits = decimal_bytes(pc as i64);
                text.append(&mut digits);
            },
            None => {
                push_text(&mut text, "?");
            },
        }
        push_text(&mut text, " + ");
        let mut digits = decimal_bytes(sign_extention_i16(self.data.imm, 13) as i64 * 4);
        text.append(&mut digits);
        text
    }

    /// The mnemonic of the instruction.
    pub fn get_name(&self) -> (r: String)
        ensures
            r@ == "blt"@,
    {
        String::from_str("blt")
    }
}

/// Branches when `rs1` is at least `rs2`.
#[derive(Clone, Copy, Debug)]
pub struct Bge {
    pub data: BInstructionData,
}

impl Bge {
    /// Whether the register numbers name registers that exist.
    pub open spec fn regs_ok(self) -> bool {
        self.data.rs2 < 64 && self.data.rs1 < 64
    }

    /// The instruction after reading its operands from `st`.
    pub open spec fn fetched(self, st: CoreState) -> Self {
        Self { data: BInstructionData { extended_imm: Some(spec_sign_extention_i16(self.data.imm, 13) as i32), inst_count: Some(st.cycle_count), origin_pc: Some(vstd::wrapping::u32_specs::wrapping_sub(st.pc, 8)), rs1_value: Some(st.int_source(self.data.rs1)), rs2_value: Some(st.int_source(self.data.rs2)), ..self.data } }
    }

    /// Whether the instruction has read its operands.
    pub open spec fn ready(self) -> bool {
        self.data.extended_imm is Some && self.data.inst_count is Some && self.data.origin_pc is Some && self.data.rs1_value is Some && self.data.rs2_value is Some
    }

    /// Whether the machine state lets the instruction execute.
    pub open spec fn exec_ok(self, st: CoreState) -> bool {
        true
    }

    /// The instruction and the machine state after the execute stage.
    pub open spec fn executed(self, st: CoreState) -> (Self, CoreState) {
        let taken: bool = { let rs1_value = self.data.rs1_value->0; let rs2_value = self.data.rs2_value->0; rs1_value >= rs2_value };
        let target = vstd::wrapping::i32_specs::wrapping_add(self.data.origin_pc->0 as i32, self.data.extended_imm->0 << 2u32) as Address;
        (if taken { Self { data: BInstructionData { jump_address: Some(target), ..self.data } } } else { self }, st)
    }

    /// Whether the instruction holds what the memory stage needs.
    pub open spec fn done_exec(self) -> bool {
        self.data.inst_count is Some
    }

    /// Whether the instruction holds what the write-back stage needs.
    pub open spec fn done_memory(self) -> bool {
        self.data.inst_count is Some
    }

    /// The registers the instruction reads.
    pub open spec fn sources(self) -> Seq<RegisterId> {
        seq![RegisterId::Int(self.data.rs1), RegisterId::Int(self.data.rs2)]
    }

    /// The register the instruction writes, if any.
    pub open spec fn destination(self) -> Option<RegisterId> {
        None
    }

    /// The instruction as decoded, before it reads its operands.
    pub open spec fn spec_new(imm: Imm13, rs2: Rs2, rs1: Rs1) -> Self {
        Self { data: BInstructionData { imm: imm, rs2: rs2, rs1: rs1, extended_imm: None, rs2_value: None, rs1_value: None, inst_count: None, origin_pc: None, jump_address: None } }
    }

    /// The instruction as decoded, before it reads its operands.
    pub fn new(imm: Imm13, rs2: Rs2, rs1: Rs1) -> (r: Self)
        ensures
            r == Self::spec_new(imm, rs2, rs1),
    {
        let data = BInstructionData {
            imm,
            rs2,
            rs1,
            extended_imm: None,
            rs2_value: None,
            rs1_value: None,
            inst_count: None,
            origin_pc: None,
            jump_address: None,
        };
        Bge { data }
    }

    /// Reads the operands: each register from the forwarding network when a value is
    /// forwarded for it, else from the register file.
    pub fn register_fetch(&mut self, core: &Core)
        requires
            core.wf(),
            old(self).regs_ok(),
        ensures
            *final(self) == old(self).fetched(core@),
    {
        self.data.extended_imm = Some(sign_extention_i16(self.data.imm, 13) as i32);
        self.data.inst_count = Some(core.get_cycle_count());
        self.data.origin_pc = Some(core.get_pc().wrapping_sub(8));
        let forwarding_source_1 = core.get_forwarding_int_source(self.data.rs1);
        if let Some(source) = forwarding_source_1 {
            self.data.rs1_value = Some(source.1);
        } else {
            self.data.rs1_value = Some(core.get_int_register(self.data.rs1 as usize));
        }
        let forwarding_source_2 = core.get_forwarding_int_source(self.data.rs2);
        if let Some(source) = forwarding_source_2 {
            self.data.rs2_value = Some(source.1);
        } else {
            self.data.rs2_value = Some(core.get_int_register(self.data.rs2 as usize));
        }
    }

    /// The execute stage.
    pub fn exec(&mut self, _core: &mut Core)
        requires
            old(_core).wf(),
            old(self).regs_ok(),
            old(self).ready(),
            old(self).exec_ok(old(_core)@),
        ensures
            final(_core).wf(),
            (*final(self), final(_core)@) == old(self).executed(old(_core)@),
    {
        let extended_imm = self.data.extended_imm.unwrap();
        let rs1_value = self.data.rs1_value.unwrap();
        let rs2_value = self.data.rs2_value.unwrap();
        if rs1_value >= rs2_value {
            self.data.jump_address = Some((self.data.origin_pc.unwrap() as i32).wrapping_add(extended_imm << 2u32) as Address);
        }
    }

    /// The registers the instruction reads.
    pub fn get_source_registers(&self) -> (r: Vec<RegisterId>)
        ensures
            r@ == self.sources(),
    {
        let mut registers: Vec<RegisterId> = Vec::new();
        registers.push(RegisterId::Int(self.data.rs1));
        registers.push(RegisterId::Int(self.data.rs2));
        registers
    }

    /// The address to jump to, once the execute stage has decided to jump.
    pub fn get_jump_address(&self) -> (r: Option<Address>)
        ensures
            r == self.data.jump_address,
    {
        self.data.jump_address
    }

    /// The cycle in which the instruction read its operands, once it has.
    pub fn get_instruction_count(&self) -> (r: Option<InstructionCount>)
        ensures
            r == self.data.inst_count,
    {
        self.data.inst_count
    }

    /// The text of the instruction in assembly language.
    pub open spec fn assembly(self) -> Seq<u8> {
        ascii("bge x"@) + decimal_text(self.data.rs1 as int) + ascii(", x"@) + decimal_text(self.data.rs2 as int) + ascii(", "@) + (match self.data.origin_pc { Some(pc) => decimal_text(pc as int), None => ascii("?"@) }) + ascii(" + "@) + decimal_text(spec_sign_extention_i16(self.data.imm, 13) * 4)
    }

    /// The text of the instruction in assembly language, in ASCII bytes.
    pub fn assembly_text(&self) -> (r: Vec<u8>)
        ensures
            r@ == self.assembly(),
    {
        let mut text: Vec<u8> = Vec::new();
        push_text(&mut text, "bge x");
        let mut digits = decimal_bytes(self.data.rs1 as i64);
        text.append(&mut digits);
        push_text(&mut text, ", x");
        let mut digits = decimal_bytes(self.data.rs2 as i64);
        text.append(&mut digits);
        push_text(&mut text, ", ");
        match self.data.origin_pc {
            Some(pc) => {
                let mut digits = decimal_bytes(pc as i64);
                text.append(&mut digits);
            },
            None => {
                push_text(&mut text, "?");
            },
        }
        push_text(&mut text, " + ");
        let mut digits = decimal_bytes(sign_extention_i16(self.data.imm, 13) as i64 * 4);
        text.append(&mut digits);
        text
    }

    /// The mnemonic of the instruction.
    pub fn get_name(&self) -> (r: String)
        ensures
            r@ == "bge"@,
    {
        String::from_str("bge")
    }
}

/// Jumps to `rs1 + 4 * imm` and sets `rd` to the address after the jump.
#[derive(Clone, Copy, Debug)]
pub struct Jalr {
    pub data: IntIInstructionData,
    pub origin_pc: Option<Address>,
    pub jump_address: Option<Address>,
}

impl Jalr {
    /// Whether the register numbers name registers that exist.
    pub open spec fn regs_ok(self) -> bool {
        self.data.rs1 < 64 && self.data.rd < 64
    }

    /// The instruction after reading its operands from `st`.
    pub open spec fn fetched(self, st: CoreState) -> Self {
        Self { data: IntIInstructionData { inst_count: Some(st.cycle_count), extended_imm: Some(spec_sign_extention_i16(self.data.imm, 13) as i32), rs1_value: Some(st.int_source(self.data.rs1)), ..self.data }, origin_pc: Some(vstd::wrapping::u32_specs::wrapping_sub(st.pc, 8)), ..self }
    }

    /// Whether the instruction has read its operands.
    pub open spec fn ready(self) -> bool {
        self.origin_pc is Some && self.data.inst_count is Some && self.data.extended_imm is Some && self.data.rs1_value is Some
    }

    /// Whether the machine state lets the instruction execute.
    pub open spec fn exec_ok(self, st: CoreState) -> bool {
        true
    }

    /// The instruction and the machine state after the execute stage.
    pub open spec fn executed(self, st: CoreState) -> (Self, CoreState) {
        let value = vstd::wrapping::i32_specs::wrapping_add(self.origin_pc->0 as i32, 4);
        let target = vstd::wrapping::i32_specs::wrapping_add(self.data.rs1_value->0, self.data.extended_imm->0 << 2u32) as Address;
        (Self { data: IntIInstructionData { rd_value: Some(value), ..self.data }, jump_address: Some(target), ..self }, st.with_int_forwarding(self.data.rd, self.data.inst_count->0, value))
    }

    /// Whether the instruction holds what the memory stage needs.
    pub open spec fn done_exec(self) -> bool {
        self.data.inst_count is Some && self.data.rd_value is Some
    }

    /// Whether the instruction holds what the write-back stage needs.
    pub open spec fn done_memory(self) -> bool {
        self.data.inst_count is Some && self.data.rd_value is Some
    }

    /// The machine state after the write-back stage.
    pub open spec fn written_back(self, st: CoreState) -> CoreState {
        st.with_int_register(self.data.rd as int, self.data.rd_value->0)
    }

    /// The registers the instruction reads.
    pub open spec fn sources(self) -> Seq<RegisterId> {
        seq![RegisterId::Int(self.data.rs1)]
    }

    /// The register the instruction writes, if any.
    pub open spec fn destination(self) -> Option<RegisterId> {
        Some(RegisterId::Int(self.data.rd))
    }

    /// The instruction as decoded, before it reads its operands.
    pub open spec fn spec_new(imm: Imm13, rs1: Rs1, rd: Rd) -> Self {
        Self { data: IntIInstructionData { imm: imm, rs1: rs1, rd: rd, extended_imm: None, rs1_value: None, rd_value: None, inst_count: None }, origin_pc: None, jump_address: None }
    }

    /// The instruction as decoded, before it reads its operands.
    pub fn new(imm: Imm13, rs1: Rs1, rd: Rd) -> (r: Self)
        ensures
            r == Self::spec_new(imm, rs1, rd),
    {
        let data = IntIInstructionData {
            imm,
            rs1,
            rd,
            extended_imm: None,
            rs1_value: None,
            rd_value: None,
            inst_count: None,
        };
        Jalr { data, origin_pc: None, jump_address: None }
    }

    /// Reads the operands: each register from the forwarding network when a value is
    /// forwarded for it, else from the register file.
    pub fn register_fetch(&mut self, core: &Core)
        requires
            core.wf(),
            old(self).regs_ok(),
        ensures
            *final(self) == old(self).fetched(core@),
    {
        self.origin_pc = Some(core.get_pc().wrapping_sub(8));
        self.data.inst_count = Some(core.get_cycle_count());
        self.data.extended_imm = Some(sign_extention_i16(self.data.imm, 13) as i32);
        let forwarding_source = core.get_forwarding_int_source(self.data.rs1);
        if let Some(source) = forwarding_source {
            self.data.rs1_value = Some(source.1);
        } else {
            self.data.rs1_value = Some(core.get_int_register(self.data.rs1 as usize));
        }
    }

    /// The execute stage.
    pub fn exec(&mut self, core: &mut Core)
        requires
            old(core).wf(),
            old(self).regs_ok(),
            old(self).ready(),
            old(self).exec_ok(old(core)@),
        ensures
            final(core).wf(),
            (*final(self), final(core)@) == old(self).executed(old(core)@),
    {
        let extended_imm = self.data.extended_imm.unwrap();
        let rs1_value = self.data.rs1_value.unwrap();
        self.jump_address = Some(rs1_value.wrapping_add(extended_imm << 2u32) as Address);
        self.data.rd_value = Some((self.origin_pc.unwrap() as i32).wrapping_add(4));
        core.set_forwarding_int_source(self.data.rd, self.data.inst_count.unwrap(), self.data.rd_value.unwrap());
    }

    /// The write-back stage.
    pub fn write_back(&self, core: &mut Core)
        requires
            old(core).wf(),
            self.regs_ok(),
            self.done_memory(),
        ensures
            final(core).wf(),
            final(core)@ == self.written_back(old(core)@),
    {
        let result = self.data.rd_value.unwrap();
        core.set_int_register(self.data.rd as usize, result);
    }

    /// The registers the instruction reads.
    pub fn get_source_registers(&self) -> (r: Vec<RegisterId>)
        ensures
            r@ == self.sources(),
    {
        let mut registers: Vec<RegisterId> = Vec::new();
        registers.push(RegisterId::Int(self.data.rs1));
        registers
    }

    /// The register the instruction writes.
    pub fn get_destination_register(&self) -> (r: Option<RegisterId>)
        ensures
            r == self.destination(),
    {
        Some(RegisterId::Int(self.data.rd))
    }

    /// The address to jump to, once the execute stage has decided to jump.
    pub fn get_jump_address(&self) -> (r: Option<Address>)
        ensures
            r == self.jump_address,
    {
        self.jump_address
    }

    /// The cycle in which the instruction read its operands, once it has.
    pub fn get_instruction_count(&self) -> (r: Option<InstructionCount>)
        ensures
            r == self.data.inst_count,
    {
        self.data.inst_count
    }

    /// The text of the instruction in assembly language.
    pub open spec fn assembly(self) -> Seq<u8> {
        ascii("jalr x"@) + decimal_text(self.data.rd as int) + ascii(", x"@) + decimal_text(self.data.rs1 as int) + ascii(", "@) + decimal_text(spec_sign_extention_i16(self.data.imm, 13) as int)
    }

    /// The text of the instruction in assembly language, in ASCII bytes.
    pub fn assembly_text(&self) -> (r: Vec<u8>)
        ensures
            r@ == self.assembly(),
    {
        let mut text: Vec<u8> = Vec::new();
        push_text(&mut text, "jalr x");
        let mut digits = decimal_bytes(self.data.rd as i64);
        text.append(&mut digits);
        push_text(&mut text, ", x");
        let mut digits = decimal_bytes(self.data.rs1 as i64);
        text.append(&mut digits);
        push_text(&mut text, ", ");
        let mut digits = decimal_bytes(sign_extention_i16(self.data.imm, 13) as i64);
        text.append(&mut digits);
        text
    }

    /// The mnemonic of the instruction.
    pub fn get_name(&self) -> (r: String)
        ensures
            r@ == "jalr"@,
    {
        String::from_str("jalr")
    }
}

/// Jumps by `4 * imm` and sets `rd` to the address after the jump.
#[derive(Clone, Copy, Debug)]
pub struct Jal {
    pub data: JInstructionData,
}

impl Jal {
    /// Whether the register numbers name registers that exist.
    pub open spec fn regs_ok(self) -> bool {
        self.data.rd < 64
    }

    /// The instruction after reading its operands from `st`.
    pub open spec fn fetched(self, st: CoreState) -> Self {
        Self { data: JInstructionData { extended_imm: Some(spec_sign_extention_i32(self.data.imm, 19)), origin_pc: Some(vstd::wrapping::u32_specs::wrapping_sub(st.pc, 8)), inst_count: Some(st.cycle_count), ..self.data } }
    }

    /// Whether the instruction has read its operands.
    pub open spec fn ready(self) -> bool {
        self.data.extended_imm is Some && self.data.origin_pc is Some && self.data.inst_count is Some
    }

    /// Whether the machine state lets the instruction execute.
    pub open spec fn exec_ok(self, st: CoreState) -> bool {
        true
    }

    /// The instruction and the machine state after the execute stage.
    pub open spec fn executed(self, st: CoreState) -> (Self, CoreState) {
        let value = vstd::wrapping::i32_specs::wrapping_add(self.data.origin_pc->0 as i32, 4);
        let target = vstd::wrapping::i32_specs::wrapping_add(self.data.origin_pc->0 as i32, self.data.extended_imm->0 << 2u32) as Address;
        (Self { data: JInstructionData { rd_value: Some(value), jump_address: Some(target), ..self.data } }, st.with_int_forwarding(self.data.rd, self.data.inst_count->0, value))
    }

    /// Whether the instruction holds what the memory stage needs.
    pub open spec fn done_exec(self) -> bool {
        self.data.inst_count is Some && self.data.rd_value is Some
    }

    /// Whether the instruction holds what the write-back stage needs.
    pub open spec fn done_memory(self) -> bool {
        self.data.inst_count is Some && self.data.rd_value is Some
    }

    /// The machine state after the write-back stage.
    pub open spec fn written_back(self, st: CoreState) -> CoreState {
        st.with_int_register(self.data.rd as int, self.data.rd_value->0)
    }

    /// The registers the instruction reads.
    pub open spec fn sources(self) -> Seq<RegisterId> {
        Seq::empty()
    }

    /// The register the instruction writes, if any.
    pub open spec fn destination(self) -> Option<RegisterId> {
        Some(RegisterId::Int(self.data.rd))
    }

    /// The instruction as decoded, before it reads its operands.
    pub open spec fn spec_new(imm: Imm19, rd: Rd) -> Self {
        Self { data: JInstructionData { imm: imm, rd: rd, extended_imm: None, rd_value: None, inst_count: None, origin_pc: None, jump_address: None } }
    }

    /// The instruction as decoded, before it reads its operands.
    pub fn new(imm: Imm19, rd: Rd) -> (r: Self)
        ensures
            r == Self::spec_new(imm, rd),
    {
        let data = JInstructionData {
            imm,
            rd,
            extended_imm: None,
            rd_value: None,
            inst_count: None,
            origin_pc: None,
            jump_address: None,
        };
        Jal { data }
    }

    /// Reads the operands: each register from the forwarding network when a value is
    /// forwarded for it, else from the register file.
    pub fn register_fetch(&mut self, core: &Core)
        requires
            core.wf(),
            old(self).regs_ok(),
        ensures
            *final(self) == old(self).fetched(core@),
    {
        self.data.extended_imm = Some(sign_extention_i32(self.data.imm, 19));
        self.data.origin_pc = Some(core.get_pc().wrapping_sub(8));
        self.data.inst_count = Some(core.get_cycle_count());
    }

    /// The execute stage.
    pub fn exec(&mut self, core: &mut Core)
        requires
            old(core).wf(),
            old(self).regs_ok(),
            old(self).ready(),
            old(self).exec_ok(old(core)@),
        ensures
            final(core).wf(),
            (*final(self), final(core)@) == old(self).executed(old(core)@),
    {
        let extended_imm = self.data.extended_imm.unwrap();
        self.data.jump_address = Some((self.data.origin_pc.unwrap() as i32).wrapping_add(extended_imm << 2u32) as Address);
        self.data.rd_value = Some((self.data.origin_pc.unwrap() as i32).wrapping_add(4));
        core.set_forwarding_int_source(self.data.rd, self.data.inst_count.unwrap(), self.data.rd_value.unwrap());
    }

    /// The write-back stage.
    pub fn write_back(&self, core: &mut Core)
        requires
            old(core).wf(),
            self.regs_ok(),
            self.done_memory(),
        ensures
            final(core).wf(),
            final(core)@ == self.written_back(old(core)@),
    {
        let result = self.data.rd_value.unwrap();
        core.set_int_register(self.data.rd as usize, result);
    }

    /// The register the instruction writes.
    pub fn get_destination_register(&self) -> (r: Option<RegisterId>)
        ensures
            r == self.destination(),
    {
        Some(RegisterId::Int(self.data.rd))
    }

    /// The address to jump to, once the execute stage has decided to jump.
    pub fn get_jump_address(&self) -> (r: Option<Address>)
        ensures
            r == self.data.jump_address,
    {
        self.data.jump_address
    }

    /// The cycle in which the instruction read its operands, once it has.
    pub fn get_instruction_count(&self) -> (r: Option<InstructionCount>)
        ensures
            r == self.data.inst_count,
    {
        self.data.inst_count
    }

    /// The text of the instruction in assembly language.
    pub open spec fn assembly(self) -> Seq<u8> {
        ascii("jal x"@) + decimal_text(self.data.rd as int) + ascii(", "@) + decimal_text(spec_sign_extention_i32(self.data.imm, 19) as int)
    }

    /// The text of the instruction in assembly language, in ASCII bytes.
    pub fn assembly_text(&self) -> (r: Vec<u8>)
        ensures
            r@ == self.assembly(),
    {
        let mut text: Vec<u8> = Vec::new();
        push_text(&mut text, "jal x");
        let mut digits = decimal_bytes(self.data.rd as i64);
        text.append(&mut digits);
        push_text(&mut text, ", ");
        let mut digits = decimal_bytes(sign_extention_i32(self.data.imm, 19) as i64);
        text.append(&mut digits);
        text
    }

    /// The mnemonic of the instruction.
    pub fn get_name(&self) -> (r: String)
        ensures
            r@ == "jal"@,
    {
        String::from_str("jal")
    }
}

/// Loads the word at `rs1 + imm` into floating-point register `fd`.
#[derive(Clone, Copy, Debug)]
pub struct Flw {
    pub data: FloatIInstructionData,
    pub addr: Option<Address>,
}

impl Flw {
    /// Whether the register numbers name registers that exist.
    pub open spec fn regs_ok(self) -> bool {
        self.data.rs1 < 64 && self.data.fd < 64
    }

    /// The instruction after reading its operands from `st`.
    pub open spec fn fetched(self, st: CoreState) -> Self {
        Self { data: FloatIInstructionData { inst_count: Some(st.cycle_count), extended_imm: Some(spec_sign_extention_i16(self.data.imm, 13) as i32), rs1_value: Some(st.int_source(self.data.rs1)), ..self.data }, ..self }
    }

    /// Whether the instruction has read its operands.
    pub open spec fn ready(self) -> bool {
        self.data.inst_count is Some && self.data.extended_imm is Some && self.data.rs1_value is Some
    }

    /// Whether the machine state lets the instruction execute.
    pub open spec fn exec_ok(self, st: CoreState) -> bool {
        true
    }

    /// The instruction and the machine state after the execute stage.
    pub open spec fn executed(self, st: CoreState) -> (Self, CoreState) {
        (Self { addr: Some(vstd::wrapping::i32_specs::wrapping_add(self.data.rs1_value->0, self.data.extended_imm->0) as Address), ..self }, st)
    }

    /// Whether the instruction holds what the memory stage needs.
    pub open spec fn done_exec(self) -> bool {
        self.data.inst_count is Some && self.addr is Some
    }

    /// Whether the memory stage can access the word the instruction addresses.
    pub open spec fn memory_ok(self, st: CoreState) -> bool {
        st.word_access_ok(self.addr->0)
    }

    /// The instruction and the machine state after the memory stage.
    pub open spec fn after_memory(self, st: CoreState) -> (Self, CoreState) {
        let (next, value) = st.load_word_result(self.addr->0);
        let number = FloatingPoint { value: spec_i32_to_u32(value) };
        (Self { data: FloatIInstructionData { fd_value: Some(number), ..self.data }, ..self }, next.with_float_forwarding(self.data.fd, self.data.inst_count->0, number))
    }

    /// Whether the instruction holds what the write-back stage needs.
    pub open spec fn done_memory(self) -> bool {
        self.data.inst_count is Some && self.data.fd_value is Some
    }

    /// The machine state after the write-back stage.
    pub open spec fn written_back(self, st: CoreState) -> CoreState {
        st.with_float_register(self.data.fd as int, self.data.fd_value->0)
    }

    /// The registers the instruction reads.
    pub open spec fn sources(self) -> Seq<RegisterId> {
        seq![RegisterId::Int(self.data.rs1)]
    }

    /// The register the instruction writes, if any.
    pub open spec fn destination(self) -> Option<RegisterId> {
        Some(RegisterId::Float(self.data.fd))
    }

    /// The instruction as decoded, before it reads its operands.
    pub open spec fn spec_new(imm: Imm13, rs1: Rs1, fd: Fd) -> Self {
        Self { data: FloatIInstructionData { imm: imm, rs1: rs1, fd: fd, extended_imm: None, rs1_value: None, fd_value: None, inst_count: None }, addr: None }
    }

    /// The instruction as decoded, before it reads its operands.
    pub fn new(imm: Imm13, rs1: Rs1, fd: Fd) -> (r: Self)
        ensures
            r == Self::spec_new(imm, rs1, fd),
    {
        let data = FloatIInstructionData {
            imm,
            rs1,
            fd,
            extended_imm: None,
            rs1_value: None,
            fd_value: None,
            inst_count: None,
        };
        Flw { data, addr: None }
    }

    /// Reads the operands: each register from the forwarding network when a value is
    /// forwarded for it, else from the register file.
    pub fn register_fetch(&mut self, core: &Core)
        requires
            core.wf(),
            old(self).regs_ok(),
        ensures
            *final(self) == old(self).fetched(core@),
    {
        self.data.inst_count = Some(core.get_cycle_count());
        self.data.extended_imm = Some(sign_extention_i16(self.data.imm, 13) as i32);
        let forwarding_source = core.get_forwarding_int_source(self.data.rs1);
        if let Some(source) = forwarding_source {
            self.data.rs1_value = Some(source.1);
        } else {
            self.data.rs1_value = Some(core.get_int_register(self.data.rs1 as usize));
        }
    }

    /// The execute stage.
    pub fn exec(&mut self, _core: &mut Core)
        requires
            old(_core).wf(),
            old(self).regs_ok(),
            old(self).ready(),
            old(self).exec_ok(old(_core)@),
        ensures
            final(_core).wf(),
            (*final(self), final(_core)@) == old(self).executed(old(_core)@),
    {
        let extended_imm = self.data.extended_imm.unwrap();
        self.addr = Some(self.data.rs1_value.unwrap().wrapping_add(extended_imm) as Address);
    }

    /// The memory stage.
    pub fn memory(&mut self, core: &mut Core)
        requires
            old(core).wf(),
            old(self).regs_ok(),
            old(self).done_exec(),
            old(self).memory_ok(old(core)@),
        ensures
            final(core).wf(),
            (*final(self), final(core)@) == old(self).after_memory(old(core)@),
    {
        let addr = self.addr.unwrap();
        let value = FloatingPoint::new(i32_to_u32(core.load_word(addr)));
        self.data.fd_value = Some(value);
        core.set_forwarding_float_source(self.data.fd, self.data.inst_count.unwrap(), value);
    }

    /// The write-back stage.
    pub fn write_back(&self, core: &mut Core)
        requires
            old(core).wf(),
            self.regs_ok(),
            self.done_memory(),
        ensures
            final(core).wf(),
            final(core)@ == self.written_back(old(core)@),
    {
        let result = self.data.fd_value.unwrap();
        core.set_float_register(self.data.fd as usize, result);
    }

    /// The registers the instruction reads.
    pub fn get_source_registers(&self) -> (r: Vec<RegisterId>)
        ensures
            r@ == self.sources(),
    {
        let mut registers: Vec<RegisterId> = Vec::new();
        registers.push(RegisterId::Int(self.data.rs1));
        registers
    }

    /// The register the instruction writes.
    pub fn get_destination_register(&self) -> (r: Option<RegisterId>)
        ensures
            r == self.destination(),
    {
        Some(RegisterId::Float(self.data.fd))
    }

    /// A load: the instruction after it may have to wait for its value.
    pub fn is_load_instruction(&self) -> (r: bool)
        ensures
            r,
    {
        true
    }

    /// The cycle in which the instruction read its operands, once it has.
    pub fn get_instruction_count(&self) -> (r: Option<InstructionCount>)
        ensures
            r == self.data.inst_count,
    {
        self.data.inst_count
    }

    /// The text of the instruction in assembly language.
    pub open spec fn assembly(self) -> Seq<u8> {
        ascii("flw f"@) + decimal_text(self.data.fd as int) + ascii(", "@) + decimal_text(spec_sign_extention_i16(self.data.imm, 13) as int) + ascii("(x"@) + decimal_text(self.data.rs1 as int) + ascii(")"@)
    }

    /// The text of the instruction in assembly language, in ASCII bytes.
    pub fn assembly_text(&self) -> (r: Vec<u8>)
        ensures
            r@ == self.assembly(),
    {
        let mut text: Vec<u8> = Vec::new();
        push_text(&mut text, "flw f");
        let mut digits = decimal_bytes(self.data.fd as i64);
        text.append(&mut digits);
        push_text(&mut text, ", ");
        let mut digits = decimal_bytes(sign_extention_i16(self.data.imm, 13) as i64);
        text.append(&mut digits);
        push_text(&mut text, "(x");
        let mut digits = decimal_bytes(self.data.rs1 as i64);
        text.append(&mut digits);
        push_text(&mut text, ")");
        text
    }

    /// The mnemonic of the instruction.
    pub fn get_name(&self) -> (r: String)
        ensures
            r@ == "flw"@,
    {
        String::from_str("flw")
    }
}

/// Adds two floating-point registers with the FPU.
#[derive(Clone, Copy, Debug)]
pub struct Fadd {
    pub data: FloatRInstructionData,
}

impl Fadd {
    /// Whether the register numbers name registers that exist.
    pub open spec fn regs_ok(self) -> bool {
        self.data.fs2 < 64 && self.data.fs1 < 64 && self.data.fd < 64
    }

    /// The instruction after reading its operands from `st`.
    pub open spec fn fetched(self, st: CoreState) -> Self {
        Self { data: FloatRInstructionData { inst_count: Some(st.cycle_count), rs1_value: Some(st.float_source(self.data.fs1)), rs2_value: Some(st.float_source(self.data.fs2)), ..self.data } }
    }

    /// Whether the instruction has read its operands.
    pub open spec fn ready(self) -> bool {
        self.data.inst_count is Some && self.data.rs1_value is Some && self.data.rs2_value is Some
    }

    /// Whether the machine state lets the instruction execute.
    pub open spec fn exec_ok(self, st: CoreState) -> bool {
        true
    }

    /// The instruction and the machine state after the execute stage.
    pub open spec fn executed(self, st: CoreState) -> (Self, CoreState) {
        let value: FloatingPoint = FloatingPoint { value: fadd_bits(self.data.rs1_value->0.value, self.data.rs2_value->0.value) };
        (Self { data: FloatRInstructionData { rd_value: Some(value), ..self.data } }, st.with_float_forwarding(self.data.fd, self.data.inst_count->0, value))
    }

    /// Whether the instruction holds what the memory stage needs.
    pub open spec fn done_exec(self) -> bool {
        self.data.inst_count is Some && self.data.rd_value is Some
    }

    /// Whether the instruction holds what the write-back stage needs.
    pub open spec fn done_memory(self) -> bool {
        self.data.inst_count is Some && self.data.rd_value is Some
    }

    /// The machine state after the write-back stage.
    pub open spec fn written_back(self, st: CoreState) -> CoreState {
        st.with_float_register(self.data.fd as int, self.data.rd_value->0)
    }

    /// The registers the instruction reads.
    pub open spec fn sources(self) -> Seq<RegisterId> {
        seq![RegisterId::Float(self.data.fs1), RegisterId::Float(self.data.fs2)]
    }

    /// The register the instruction writes, if any.
    pub open spec fn destination(self) -> Option<RegisterId> {
        Some(RegisterId::Float(self.data.fd))
    }

    /// The instruction as decoded, before it reads its operands.
    pub open spec fn spec_new(fs2: Fs2, fs1: Fs1, fd: Fd) -> Self {
        Self { data: FloatRInstructionData { fs2: fs2, fs1: fs1, fd: fd, rs2_value: None, rs1_value: None, rd_value: None, inst_count: None } }
    }

    /// The instruction as decoded, before it reads its operands.
    pub fn new(fs2: Fs2, fs1: Fs1, fd: Fd) -> (r: Self)
        ensures
            r == Self::spec_new(fs2, fs1, fd),
    {
        let data = FloatRInstructionData {
            fs2,
            fs1,
            fd,
            rs2_value: None,
            rs1_value: None,
            rd_value: None,
            inst_count: None,
        };
        Fadd { data }
    }

    /// Reads the operands: each register from the forwarding network when a value is
    /// forwarded for it, else from the register file.
    pub fn register_fetch(&mut self, core: &Core)
        requires
            core.wf(),
            old(self).regs_ok(),
        ensures
            *final(self) == old(self).fetched(core@),
    {
        self.data.inst_count = Some(core.get_cycle_count());
        let forwarding_source_1 = core.get_forwarding_float_source(self.data.fs1);
        if let Some(source) = forwarding_source_1 {
            self.data.rs1_value = Some(source.1);
        } else {
            self.data.rs1_value = Some(core.get_float_register(self.data.fs1 as usize));
        }
        let forwarding_source_2 = core.get_forwarding_float_source(self.data.fs2);
        if let Some(source) = forwarding_source_2 {
            self.data.rs2_value = Some(source.1);
        } else {
            self.data.rs2_value = Some(core.get_float_register(self.data.fs2 as usize));
        }
    }

    /// The execute stage.
    pub fn exec(&mut self, core: &mut Core)
        requires
            old(core).wf(),
            old(self).regs_ok(),
            old(self).ready(),
            old(self).exec_ok(old(core)@),
        ensures
            final(core).wf(),
            (*final(self), final(core)@) == old(self).executed(old(core)@),
    {
        let rs1_value = self.data.rs1_value.unwrap();
        let rs2_value = self.data.rs2_value.unwrap();
        self.data.rd_value = Some(rs1_value.add(rs2_value));
        core.set_forwarding_float_source(self.data.fd, self.data.inst_count.unwrap(), self.data.rd_value.unwrap());
    }

    /// The write-back stage.
    pub fn write_back(&self, core: &mut Core)
        requires
            old(core).wf(),
            self.regs_ok(),
            self.done_memory(),
        ensures
            final(core).wf(),
            final(core)@ == self.written_back(old(core)@),
    {
        let result = self.data.rd_value.unwrap();
        core.set_float_register(self.data.fd as usize, result);
    }

    /// The registers the instruction reads.
    pub fn get_source_registers(&self) -> (r: Vec<RegisterId>)
        ensures
            r@ == self.sources(),
    {
        let mut registers: Vec<RegisterId> = Vec::new();
        registers.push(RegisterId::Float(self.data.fs1));
        registers.push(RegisterId::Float(self.data.fs2));
        registers
    }

    /// The register the instruction writes.
    pub fn get_destination_register(&self) -> (r: Option<RegisterId>)
        ensures
            r == self.destination(),
    {
        Some(RegisterId::Float(self.data.fd))
    }

    /// The cycle in which the instruction read its operands, once it has.
    pub fn get_instruction_count(&self) -> (r: Option<InstructionCount>)
        ensures
            r == self.data.inst_count,
    {
        self.data.inst_count
    }

    /// The text of the instruction in assembly language.
    pub open spec fn assembly(self) -> Seq<u8> {
        ascii("fadd f"@) + decimal_text(self.data.fd as int) + ascii(", f"@) + decimal_text(self.data.fs1 as int) + ascii(", f"@) + decimal_text(self.data.fs2 as int)
    }

    /// The text of the instruction in assembly language, in ASCII bytes.
    pub fn assembly_text(&self) -> (r: Vec<u8>)
        ensures
            r@ == self.assembly(),
    {
        let mut text: Vec<u8> = Vec::new();
        push_text(&mut text, "fadd f");
        let mut digits = decimal_bytes(self.data.fd as i64);
        text.append(&mut digits);
        push_text(&mut text, ", f");
        let mut digits = decimal_bytes(self.data.fs1 as i64);
        text.append(&mut digits);
        push_text(&mut text, ", f");
        let mut digits = decimal_bytes(self.data.fs2 as i64);
        text.append(&mut digits);
        text
    }

    /// The mnemonic of the instruction.
    pub fn get_name(&self) -> (r: String)
        ensures
            r@ == "fadd"@,
    {
        String::from_str("fadd")
    }
}

/// Subtracts two floating-point registers (the FPU has no subtraction).
#[derive(Clone, Copy, Debug)]
pub struct Fsub {
    pub data: FloatRInstructionData,
}

impl Fsub {
    /// Whether the register numbers name registers that exist.
    pub open spec fn regs_ok(self) -> bool {
        self.data.fs2 < 64 && self.data.fs1 < 64 && self.data.fd < 64
    }

    /// The instruction after reading its operands from `st`.
    pub open spec fn fetched(self, st: CoreState) -> Self {
        Self { data: FloatRInstructionData { inst_count: Some(st.cycle_count), rs1_value: Some(st.float_source(self.data.fs1)), rs2_value: Some(st.float_source(self.data.fs2)), ..self.data } }
    }

    /// Whether the instruction has read its operands.
    pub open spec fn ready(self) -> bool {
        self.data.inst_count is Some && self.data.rs1_value is Some && self.data.rs2_value is Some
    }

    /// Whether the instruction holds what the memory stage needs.
    pub open spec fn done_exec(self) -> bool {
        self.data.inst_count is Some && self.data.rd_value is Some
    }

    /// Whether the instruction holds what the write-back stage needs.
    pub open spec fn done_memory(self) -> bool {
        self.data.inst_count is Some && self.data.rd_value is Some
    }

    /// The machine state after the write-back stage.
    pub open spec fn written_back(self, st: CoreState) -> CoreState {
        st.with_float_register(self.data.fd as int, self.data.rd_value->0)
    }

    /// The registers the instruction reads.
    pub open spec fn sources(self) -> Seq<RegisterId> {
        seq![RegisterId::Float(self.data.fs1), RegisterId::Float(self.data.fs2)]
    }

    /// The register the instruction writes, if any.
    pub open spec fn destination(self) -> Option<RegisterId> {
        Some(RegisterId::Float(self.data.fd))
    }

    /// The instruction as decoded, before it reads its operands.
    pub open spec fn spec_new(fs2: Fs2, fs1: Fs1, fd: Fd) -> Self {
        Self { data: FloatRInstructionData { fs2: fs2, fs1: fs1, fd: fd, rs2_value: None, rs1_value: None, rd_value: None, inst_count: None } }
    }

    /// The instruction as decoded, before it reads its operands.
    pub fn new(fs2: Fs2, fs1: Fs1, fd: Fd) -> (r: Self)
        ensures
            r == Self::spec_new(fs2, fs1, fd),
    {
        let data = FloatRInstructionData {
            fs2,
            fs1,
            fd,
            rs2_value: None,
            rs1_value: None,
            rd_value: None,
            inst_count: None,
        };
        Fsub { data }
    }

    /// Reads the operands: each register from the forwarding network when a value is
    /// forwarded for it, else from the register file.
    pub fn register_fetch(&mut self, core: &Core)
        requires
            core.wf(),
            old(self).regs_ok(),
        ensures
            *final(self) == old(self).fetched(core@),
    {
        self.data.inst_count = Some(core.get_cycle_count());
        let forwarding_source_1 = core.get_forwarding_float_source(self.data.fs1);
        if let Some(source) = forwarding_source_1 {
            self.data.rs1_value = Some(source.1);
        } else {
            self.data.rs1_value = Some(core.get_float_register(self.data.fs1 as usize));
        }
        let forwarding_source_2 = core.get_forwarding_float_source(self.data.fs2);
        if let Some(source) = forwarding_source_2 {
            self.data.rs2_value = Some(source.1);
        } else {
            self.data.rs2_value = Some(core.get_float_register(self.data.fs2 as usize));
        }
    }

    /// The write-back stage.
    pub fn write_back(&self, core: &mut Core)
        requires
            old(core).wf(),
            self.regs_ok(),
            self.done_memory(),
        ensures
            final(core).wf(),
            final(core)@ == self.written_back(old(core)@),
    {
        let result = self.data.rd_value.unwrap();
        core.set_float_register(self.data.fd as usize, result);
    }

    /// The registers the instruction reads.
    pub fn get_source_registers(&self) -> (r: Vec<RegisterId>)
        ensures
            r@ == self.sources(),
    {
        let mut registers: Vec<RegisterId> = Vec::new();
        registers.push(RegisterId::Float(self.data.fs1));
        registers.push(RegisterId::Float(self.data.fs2));
        registers
    }

    /// The register the instruction writes.
    pub fn get_destination_register(&self) -> (r: Option<RegisterId>)
        ensures
            r == self.destination(),
    {
        Some(RegisterId::Float(self.data.fd))
    }

    /// The cycle in which the instruction read its operands, once it has.
    pub fn get_instruction_count(&self) -> (r: Option<InstructionCount>)
        ensures
            r == self.data.inst_count,
    {
        self.data.inst_count
    }

    /// The text of the instruction in assembly language.
    pub open spec fn assembly(self) -> Seq<u8> {
        ascii("fsub f"@) + decimal_text(self.data.fd as int) + ascii(", f"@) + decimal_text(self.data.fs1 as int) + ascii(", f"@) + decimal_text(self.data.fs2 as int)
    }

    /// The text of the instruction in assembly language, in ASCII bytes.
    pub fn assembly_text(&self) -> (r: Vec<u8>)
        ensures
            r@ == self.assembly(),
    {
        let mut text: Vec<u8> = Vec::new();
        push_text(&mut text, "fsub f");
        let mut digits = decimal_bytes(self.data.fd as i64);
        text.append(&mut digits);
        push_text(&mut text, ", f");
        let mut digits = decimal_bytes(self.data.fs1 as i64);
        text.append(&mut digits);
        push_text(&mut text, ", f");
        let mut digits = decimal_bytes(self.data.fs2 as i64);
        text.append(&mut digits);
        text
    }

    /// The mnemonic of the instruction.
    pub fn get_name(&self) -> (r: String)
        ensures
            r@ == "fsub"@,
    {
        String::from_str("fsub")
    }
}

/// Multiplies two floating-point registers (the FPU has no multiplication).
#[derive(Clone, Copy, Debug)]
pub struct Fmul {
    pub data: FloatRInstructionData,
}

impl Fmul {
    /// Whether the register numbers name registers that exist.
    pub open spec fn regs_ok(self) -> bool {
        self.data.fs2 < 64 && self.data.fs1 < 64 && self.data.fd < 64
    }

    /// The instruction after reading its operands from `st`.
    pub open spec fn fetched(self, st: CoreState) -> Self {
        Self { data: FloatRInstructionData { inst_count: Some(st.cycle_count), rs1_value: Some(st.float_source(self.data.fs1)), rs2_value: Some(st.float_source(self.data.fs2)), ..self.data } }
    }

    /// Whether the instruction has read its operands.
    pub open spec fn ready(self) -> bool {
        self.data.inst_count is Some && self.data.rs1_value is Some && self.data.rs2_value is Some
    }

    /// Whether the instruction holds what the memory stage needs.
    pub open spec fn done_exec(self) -> bool {
        self.data.inst_count is Some && self.data.rd_value is Some
    }

    /// Whether the instruction holds what the write-back stage needs.
    pub open spec fn done_memory(self) -> bool {
        self.data.inst_count is Some && self.data.rd_value is Some
    }

    /// The machine state after the write-back stage.
    pub open spec fn written_back(self, st: CoreState) -> CoreState {
        st.with_float_register(self.data.fd as int, self.data.rd_value->0)
    }

    /// The registers the instruction reads.
    pub open spec fn sources(self) -> Seq<RegisterId> {
        seq![RegisterId::Float(self.data.fs1), RegisterId::Float(self.data.fs2)]
    }

    /// The register the instruction writes, if any.
    pub open spec fn destination(self) -> Option<RegisterId> {
        Some(RegisterId::Float(self.data.fd))
    }

    /// The instruction as decoded, before it reads its operands.
    pub open spec fn spec_new(fs2: Fs2, fs1: Fs1, fd: Fd) -> Self {
        Self { data: FloatRInstructionData { fs2: fs2, fs1: fs1, fd: fd, rs2_value: None, rs1_value: None, rd_value: None, inst_count: None } }
    }

    /// The instruction as decoded, before it reads its operands.
    pub fn new(fs2: Fs2, fs1: Fs1, fd: Fd) -> (r: Self)
        ensures
            r == Self::spec_new(fs2, fs1, fd),
    {
        let data = FloatRInstructionData {
            fs2,
            fs1,
            fd,
            rs2_value: None,
            rs1_value: None,
            rd_value: None,
            inst_count: None,
        };
        Fmul { data }
    }

    /// Reads the operands: each register from the forwarding network when a value is
    /// forwarded for it, else from the register file.
    pub fn register_fetch(&mut self, core: &Core)
        requires
            core.wf(),
            old(self).regs_ok(),
        ensures
            *final(self) == old(self).fetched(core@),
    {
        self.data.inst_count = Some(core.get_cycle_count());
        let forwarding_source_1 = core.get_forwarding_float_source(self.data.fs1);
        if let Some(source) = forwarding_source_1 {
            self.data.rs1_value = Some(source.1);
        } else {
            self.data.rs1_value = Some(core.get_float_register(self.data.fs1 as usize));
        }
        let forwarding_source_2 = core.get_forwarding_float_source(self.data.fs2);
        if let Some(source) = forwarding_source_2 {
            self.data.rs2_value = Some(source.1);
        } else {
            self.data.rs2_value = Some(core.get_float_register(self.data.fs2 as usize));
        }
    }

    /// The write-back stage.
    pub fn write_back(&self, core: &mut Core)
        requires
            old(core).wf(),
            self.regs_ok(),
            self.done_memory(),
        ensures
            final(core).wf(),
            final(core)@ == self.written_back(old(core)@),
    {
        let result = self.data.rd_value.unwrap();
        core.set_float_register(self.data.fd as usize, result);
    }

    /// The registers the instruction reads.
    pub fn get_source_registers(&self) -> (r: Vec<RegisterId>)
        ensures
            r@ == self.sources(),
    {
        let mut registers: Vec<RegisterId> = Vec::new();
        registers.push(RegisterId::Float(self.data.fs1));
        registers.push(RegisterId::Float(self.data.fs2));
        registers
    }

    /// The register the instruction writes.
    pub fn get_destination_register(&self) -> (r: Option<RegisterId>)
        ensures
            r == self.destination(),
    {
        Some(RegisterId::Float(self.data.fd))
    }

    /// The cycle in which the instruction read its operands, once it has.
    pub fn get_instruction_count(&self) -> (r: Option<InstructionCount>)
        ensures
            r == self.data.inst_count,
    {
        self.data.inst_count
    }

    /// The text of the instruction in assembly language.
    pub open spec fn assembly(self) -> Seq<u8> {
        ascii("fmul f"@) + decimal_text(self.data.fd as int) + ascii(", f"@) + decimal_text(self.data.fs1 as int) + ascii(", f"@) + decimal_text(self.data.fs2 as int)
    }

    /// The text of the instruction in assembly language, in ASCII bytes.
    pub fn assembly_text(&self) -> (r: Vec<u8>)
        ensures
            r@ == self.assembly(),
    {
        let mut text: Vec<u8> = Vec::new();
        push_text(&mut text, "fmul f");
        let mut digits = decimal_bytes(self.data.fd as i64);
        text.append(&mut digits);
        push_text(&mut text, ", f");
        let mut digits = decimal_bytes(self.data.fs1 as i64);
        text.append(&mut digits);
        push_text(&mut text, ", f");
        let mut digits = decimal_bytes(self.data.fs2 as i64);
        text.append(&mut digits);
        text
    }

    /// The mnemonic of the instruction.
    pub fn get_name(&self) -> (r: String)
        ensures
            r@ == "fmul"@,
    {
        String::from_str("fmul")
    }
}

/// Divides two floating-point registers.
#[derive(Clone, Copy, Debug)]
pub struct Fdiv {
    pub data: FloatRInstructionData,
}

impl Fdiv {
    /// Whether the register numbers name registers that exist.
    pub open spec fn regs_ok(self) -> bool {
        self.data.fs2 < 64 && self.data.fs1 < 64 && self.data.fd < 64
    }

    /// The instruction after reading its operands from `st`.
    pub open spec fn fetched(self, st: CoreState) -> Self {
        Self { data: FloatRInstructionData { inst_count: Some(st.cycle_count), rs1_value: Some(st.float_source(self.data.fs1)), rs2_value: Some(st.float_source(self.data.fs2)), ..self.data } }
    }

    /// Whether the instruction has read its operands.
    pub open spec fn ready(self) -> bool {
        self.data.inst_count is Some && self.data.rs1_value is Some && self.data.rs2_value is Some
    }

    /// Whether the instruction holds what the memory stage needs.
    pub open spec fn done_exec(self) -> bool {
        self.data.inst_count is Some && self.data.rd_value is Some
    }

    /// Whether the instruction holds what the write-back stage needs.
    pub open spec fn done_memory(self) -> bool {
        self.data.inst_count is Some && self.data.rd_value is Some
    }

    /// The machine state after the write-back stage.
    pub open spec fn written_back(self, st: CoreState) -> CoreState {
        st.with_float_register(self.data.fd as int, self.data.rd_value->0)
    }

    /// The registers the instruction reads.
    pub open spec fn sources(self) -> Seq<RegisterId> {
        seq![RegisterId::Float(self.data.fs1), RegisterId::Float(self.data.fs2)]
    }

    /// The register the instruction writes, if any.
    pub open spec fn destination(self) -> Option<RegisterId> {
        Some(RegisterId::Float(self.data.fd))
    }

    /// The instruction as decoded, before it reads its operands.
    pub open spec fn spec_new(fs2: Fs2, fs1: Fs1, fd: Fd) -> Self {
        Self { data: FloatRInstructionData { fs2: fs2, fs1: fs1, fd: fd, rs2_value: None, rs1_value: None, rd_value: None, inst_count: None } }
    }

    /// The instruction as decoded, before it reads its operands.
    pub fn new(fs2: Fs2, fs1: Fs1, fd: Fd) -> (r: Self)
        ensures
            r == Self::spec_new(fs2, fs1, fd),
    {
        let data = FloatRInstructionData {
            fs2,
            fs1,
            fd,
            rs2_value: None,
            rs1_value: None,
            rd_value: None,
            inst_count: None,
        };
        Fdiv { data }
    }

    /// Reads the operands: each register from the forwarding network when a value is
    /// forwarded for it, else from the register file.
    pub fn register_fetch(&mut self, core: &Core)
        requires
            core.wf(),
            old(self).regs_ok(),
        ensures
            *final(self) == old(self).fetched(core@),
    {
        self.data.inst_count = Some(core.get_cycle_count());
        let forwarding_source_1 = core.get_forwarding_float_source(self.data.fs1);
        if let Some(source) = forwarding_source_1 {
            self.data.rs1_value = Some(source.1);
        } else {
            self.data.rs1_value = Some(core.get_float_register(self.data.fs1 as usize));
        }
        let forwarding_source_2 = core.get_forwarding_float_source(self.data.fs2);
        if let Some(source) = forwarding_source_2 {
            self.data.rs2_value = Some(source.1);
        } else {
            self.data.rs2_value = Some(core.get_float_register(self.data.fs2 as usize));
        }
    }

    /// The write-back stage.
    pub fn write_back(&self, core: &mut Core)
        requires
            old(core).wf(),
            self.regs_ok(),
            self.done_memory(),
        ensures
            final(core).wf(),
            final(core)@ == self.written_back(old(core)@),
    {
        let result = self.data.rd_value.unwrap();
        core.set_float_register(self.data.fd as usize, result);
    }

    /// The registers the instruction reads.
    pub fn get_source_registers(&self) -> (r: Vec<RegisterId>)
        ensures
            r@ == self.sources(),
    {
        let mut registers: Vec<RegisterId> = Vec::new();
        registers.push(RegisterId::Float(self.data.fs1));
        registers.push(RegisterId::Float(self.data.fs2));
        registers
    }

    /// The register the instruction writes.
    pub fn get_destination_register(&self) -> (r: Option<RegisterId>)
        ensures
            r == self.destination(),
    {
        Some(RegisterId::Float(self.data.fd))
    }

    /// The cycle in which the instruction read its operands, once it has.
    pub fn get_instruction_count(&self) -> (r: Option<InstructionCount>)
        ensures
            r == self.data.inst_count,
    {
        self.data.inst_count
    }

    /// The text of the instruction in assembly language.
    pub open spec fn assembly(self) -> Seq<u8> {
        ascii("fdiv f"@) + decimal_text(self.data.fd as int) + ascii(", f"@) + decimal_text(self.data.fs1 as int) + ascii(", f"@) + decimal_text(self.data.fs2 as int)
    }

    /// The text of the instruction in assembly language, in ASCII bytes.
    pub fn assembly_text(&self) -> (r: Vec<u8>)
        ensures
            r@ == self.assembly(),
    {
        let mut text: Vec<u8> = Vec::new();
        push_text(&mut text, "fdiv f");
        let mut digits = decimal_bytes(self.data.fd as i64);
        text.append(&mut digits);
        push_text(&mut text, ", f");
        let mut digits = decimal_bytes(self.data.fs1 as i64);
        text.append(&mut digits);
        push_text(&mut text, ", f");
        let mut digits = decimal_bytes(self.data.fs2 as i64);
        text.append(&mut digits);
        text
    }

    /// The mnemonic of the instruction.
    pub fn get_name(&self) -> (r: String)
        ensures
            r@ == "fdiv"@,
    {
        String::from_str("fdiv")
    }
}

/// Square root of a floating-point register.
#[derive(Clone, Copy, Debug)]
pub struct Fsqrt {
    pub data: FloatRInstructionData,
}

impl Fsqrt {
    /// Whether the register numbers name registers that exist.
    pub open spec fn regs_ok(self) -> bool {
        self.data.fs2 < 64 && self.data.fs1 < 64 && self.data.fd < 64
    }

    /// The instruction after reading its operands from `st`.
    pub open spec fn fetched(self, st: CoreState) -> Self {
        Self { data: FloatRInstructionData { inst_count: Some(st.cycle_count), rs1_value: Some(st.float_source(self.data.fs1)), ..self.data } }
    }

    /// Whether the instruction has read its operands.
    pub open spec fn ready(self) -> bool {
        self.data.inst_count is Some && self.data.rs1_value is Some
    }

    /// Whether the instruction holds what the memory stage needs.
    pub open spec fn done_exec(self) -> bool {
        self.data.inst_count is Some && self.data.rd_value is Some
    }

    /// Whether the instruction holds what the write-back stage needs.
    pub open spec fn done_memory(self) -> bool {
        self.data.inst_count is Some && self.data.rd_value is Some
    }

    /// The machine state after the write-back stage.
    pub open spec fn written_back(self, st: CoreState) -> CoreState {
        st.with_float_register(self.data.fd as int, self.data.rd_value->0)
    }

    /// The registers the instruction reads.
    pub open spec fn sources(self) -> Seq<RegisterId> {
        seq![RegisterId::Float(self.data.fs1)]
    }

    /// The register the instruction writes, if any.
    pub open spec fn destination(self) -> Option<RegisterId> {
        Some(RegisterId::Float(self.data.fd))
    }

    /// The instruction as decoded, before it reads its operands.
    pub open spec fn spec_new(fs2: Fs2, fs1: Fs1, fd: Fd) -> Self {
        Self { data: FloatRInstructionData { fs2: fs2, fs1: fs1, fd: fd, rs2_value: None, rs1_value: None, rd_value: None, inst_count: None } }
    }

    /// The instruction as decoded, before it reads its operands.
    pub fn new(fs2: Fs2, fs1: Fs1, fd: Fd) -> (r: Self)
        ensures
            r == Self::spec_new(fs2, fs1, fd),
    {
        let data = FloatRInstructionData {
            fs2,
            fs1,
            fd,
            rs2_value: None,
            rs1_value: None,
            rd_value: None,
            inst_count: None,
        };
        Fsqrt { data }
    }

    /// Reads the operands: each register from the forwarding network when a value is
    /// forwarded for it, else from the register file.
    pub fn register_fetch(&mut self, core: &Core)
        requires
            core.wf(),
            old(self).regs_ok(),
        ensures
            *final(self) == old(self).fetched(core@),
    {
        self.data.inst_count = Some(core.get_cycle_count());
        let forwarding_source = core.get_forwarding_float_source(self.data.fs1);
        if let Some(source) = forwarding_source {
            self.data.rs1_value = Some(source.1);
        } else {
            self.data.rs1_value = Some(core.get_float_register(self.data.fs1 as usize));
        }
    }

    /// The write-back stage.
    pub fn write_back(&self, core: &mut Core)
        requires
            old(core).wf(),
            self.regs_ok(),
            self.done_memory(),
        ensures
            final(core).wf(),
            final(core)@ == self.written_back(old(core)@),
    {
        let result = self.data.rd_value.unwrap();
        core.set_float_register(self.data.fd as usize, result);
    }

    /// The registers the instruction reads.
    pub fn get_source_registers(&self) -> (r: Vec<RegisterId>)
        ensures
            r@ == self.sources(),
    {
        let mut registers: Vec<RegisterId> = Vec::new();
        registers.push(RegisterId::Float(self.data.fs1));
        registers
    }

    /// The register the instruction writes.
    pub fn get_destination_register(&self) -> (r: Option<RegisterId>)
        ensures
            r == self.destination(),
    {
        Some(RegisterId::Float(self.data.fd))
    }

    /// The cycle in which the instruction read its operands, once it has.
    pub fn get_instruction_count(&self) -> (r: Option<InstructionCount>)
        ensures
            r == self.data.inst_count,
    {
        self.data.inst_count
    }

    /// The text of the instruction in assembly language.
    pub open spec fn assembly(self) -> Seq<u8> {
        ascii("fsqrt f"@) + decimal_text(self.data.fd as int) + ascii(", f"@) + decimal_text(self.data.fs1 as int)
    }

    /// The text of the instruction in assembly language, in ASCII bytes.
    pub fn assembly_text(&self) -> (r: Vec<u8>)
        ensures
            r@ == self.assembly(),
    {
        let mut text: Vec<u8> = Vec::new();
        push_text(&mut text, "fsqrt f");
        let mut digits = decimal_bytes(self.data.fd as i64);
        text.append(&mut digits);
        push_text(&mut text, ", f");
        let mut digits = decimal_bytes(self.data.fs1 as i64);
        text.append(&mut digits);
        text
    }

    /// The mnemonic of the instruction.
    pub fn get_name(&self) -> (r: String)
        ensures
            r@ == "fsqrt"@,
    {
        String::from_str("fsqrt")
    }
}

/// Sign injection of two floating-point registers.
#[derive(Clone, Copy, Debug)]
pub struct Fsgnj {
    pub data: FloatRInstructionData,
}

impl Fsgnj {
    /// Whether the register numbers name registers that exist.
    pub open spec fn regs_ok(self) -> bool {
        self.data.fs2 < 64 && self.data.fs1 < 64 && self.data.fd < 64
    }

    /// The instruction after reading its operands from `st`.
    pub open spec fn fetched(self, st: CoreState) -> Self {
        Self { data: FloatRInstructionData { inst_count: Some(st.cycle_count), rs1_value: Some(st.float_source(self.data.fs1)), rs2_value: Some(st.float_source(self.data.fs2)), ..self.data } }
    }

    /// Whether the instruction has read its operands.
    pub open spec fn ready(self) -> bool {
        self.data.inst_count is Some && self.data.rs1_value is Some && self.data.rs2_value is Some
    }

    /// Whether the instruction holds what the memory stage needs.
    pub open spec fn done_exec(self) -> bool {
        self.data.inst_count is Some && self.data.rd_value is Some
    }

    /// Whether the instruction holds what the write-back stage needs.
    pub open spec fn done_memory(self) -> bool {
        self.data.inst_count is Some && self.data.rd_value is Some
    }

    /// The machine state after the write-back stage.
    pub open spec fn written_back(self, st: CoreState) -> CoreState {
        st.with_float_register(self.data.fd as int, self.data.rd_value->0)
    }

    /// The registers the instruction reads.
    pub open spec fn sources(self) -> Seq<RegisterId> {
        seq![RegisterId::Float(self.data.fs1), RegisterId::Float(self.data.fs2)]
    }

    /// The register the instruction writes, if any.
    pub open spec fn destination(self) -> Option<RegisterId> {
        Some(RegisterId::Float(self.data.fd))
    }

    /// The instruction as decoded, before it reads its operands.
    pub open spec fn spec_new(fs2: Fs2, fs1: Fs1, fd: Fd) -> Self {
        Self { data: FloatRInstructionData { fs2: fs2, fs1: fs1, fd: fd, rs2_value: None, rs1_value: None, rd_value: None, inst_count: None } }
    }

    /// The instruction as decoded, before it reads its operands.
    pub fn new(fs2: Fs2, fs1: Fs1, fd: Fd) -> (r: Self)
        ensures
            r == Self::spec_new(fs2, fs1, fd),
    {
        let data = FloatRInstructionData {
            fs2,
            fs1,
            fd,
            rs2_value: None,
            rs1_value: None,
            rd_value: None,
            inst_count: None,
        };
        Fsgnj { data }
    }

    /// Reads the operands: each register from the forwarding network when a value is
    /// forwarded for it, else from the register file.
    pub fn register_fetch(&mut self, core: &Core)
        requires
            core.wf(),
            old(self).regs_ok(),
        ensures
            *final(self) == old(self).fetched(core@),
    {
        self.data.inst_count = Some(core.get_cycle_count());
        let forwarding_source_1 = core.get_forwarding_float_source(self.data.fs1);
        if let Some(source) = forwarding_source_1 {
            self.data.rs1_value = Some(source.1);
        } else {
            self.data.rs1_value = Some(core.get_float_register(self.data.fs1 as usize));
        }
        let forwarding_source_2 = core.get_forwarding_float_source(self.data.fs2);
        if let Some(source) = forwarding_source_2 {
            self.data.rs2_value = Some(source.1);
        } else {
            self.data.rs2_value = Some(core.get_float_register(self.data.fs2 as usize));
        }
    }

    /// The write-back stage.
    pub fn write_back(&self, core: &mut Core)
        requires
            old(core).wf(),
            self.regs_ok(),
            self.done_memory(),
        ensures
            final(core).wf(),
            final(core)@ == self.written_back(old(core)@),
    {
        let result = self.data.rd_value.unwrap();
        core.set_float_register(self.data.fd as usize, result);
    }

    /// The registers the instruction reads.
    pub fn get_source_registers(&self) -> (r: Vec<RegisterId>)
        ensures
            r@ == self.sources(),
    {
        let mut registers: Vec<RegisterId> = Vec::new();
        registers.push(RegisterId::Float(self.data.fs1));
        registers.push(RegisterId::Float(self.data.fs2));
        registers
    }

    /// The register the instruction writes.
    pub fn get_destination_register(&self) -> (r: Option<RegisterId>)
        ensures
            r == self.destination(),
    {
        Some(RegisterId::Float(self.data.fd))
    }

    /// The cycle in which the instruction read its operands, once it has.
    pub fn get_instruction_count(&self) -> (r: Option<InstructionCount>)
        ensures
            r == self.data.inst_count,
    {
        self.data.inst_count
    }

    /// The text of the instruction in assembly language.
    pub open spec fn assembly(self) -> Seq<u8> {
        ascii("fsgnj f"@) + decimal_text(self.data.fd as int) + ascii(", f"@) + decimal_text(self.data.fs1 as int) + ascii(", f"@) + decimal_text(self.data.fs2 as int)
    }

    /// The text of the instruction in assembly language, in ASCII bytes.
    pub fn assembly_text(&self) -> (r: Vec<u8>)
        ensures
            r@ == self.assembly(),
    {
        let mut text: Vec<u8> = Vec::new();
        push_text(&mut text, "fsgnj f");
        let mut digits = decimal_bytes(self.data.fd as i64);
        text.append(&mut digits);
        push_text(&mut text, ", f");
        let mut digits = decimal_bytes(self.data.fs1 as i64);
        text.append(&mut digits);
        push_text(&mut text, ", f");
        let mut digits = decimal_bytes(self.data.fs2 as i64);
        text.append(&mut digits);
        text
    }

    /// The mnemonic of the instruction.
    pub fn get_name(&self) -> (r: String)
        ensures
            r@ == "fsgnj"@,
    {
        String::from_str("fsgnj")
    }
}

/// Negated sign injection of two floating-point registers.
#[derive(Clone, Copy, Debug)]
pub struct Fsgnjn {
    pub data: FloatRInstructionData,
}

impl Fsgnjn {
    /// Whether the register numbers name registers that exist.
    pub open spec fn regs_ok(self) -> bool {
        self.data.fs2 < 64 && self.data.fs1 < 64 && self.data.fd < 64
    }

    /// The instruction after reading its operands from `st`.
    pub open spec fn fetched(self, st: CoreState) -> Self {
        Self { data: FloatRInstructionData { inst_count: Some(st.cycle_count), rs1_value: Some(st.float_source(self.data.fs1)), rs2_value: Some(st.float_source(self.data.fs2)), ..self.data } }
    }

    /// Whether the instruction has read its operands.
    pub open spec fn ready(self) -> bool {
        self.data.inst_count is Some && self.data.rs1_value is Some && self.data.rs2_value is Some
    }

    /// Whether the instruction holds what the memory stage needs.
    pub open spec fn done_exec(self) -> bool {
        self.data.inst_count is Some && self.data.rd_value is Some
    }

    /// Whether the instruction holds what the write-back stage needs.
    pub open spec fn done_memory(self) -> bool {
        self.data.inst_count is Some && self.data.rd_value is Some
    }

    /// The machine state after the write-back stage.
    pub open spec fn written_back(self, st: CoreState) -> CoreState {
        st.with_float_register(self.data.fd as int, self.data.rd_value->0)
    }

    /// The registers the instruction reads.
    pub open spec fn sources(self) -> Seq<RegisterId> {
        seq![RegisterId::Float(self.data.fs1), RegisterId::Float(self.data.fs2)]
    }

    /// The register the instruction writes, if any.
    pub open spec fn destination(self) -> Option<RegisterId> {
        Some(RegisterId::Float(self.data.fd))
    }

    /// The instruction as decoded, before it reads its operands.
    pub open spec fn spec_new(fs2: Fs2, fs1: Fs1, fd: Fd) -> Self {
        Self { data: FloatRInstructionData { fs2: fs2, fs1: fs1, fd: fd, rs2_value: None, rs1_value: None, rd_value: None, inst_count: None } }
    }

    /// The instruction as decoded, before it reads its operands.
    pub fn new(fs2: Fs2, fs1: Fs1, fd: Fd) -> (r: Self)
        ensures
            r == Self::spec_new(fs2, fs1, fd),
    {
        let data = FloatRInstructionData {
            fs2,
            fs1,
            fd,
            rs2_value: None,
            rs1_value: None,
            rd_value: None,
            inst_count: None,
        };
        Fsgnjn { data }
    }

    /// Reads the operands: each register from the forwarding network when a value is
    /// forwarded for it, else from the register file.
    pub fn register_fetch(&mut self, core: &Core)
        requires
            core.wf(),
            old(self).regs_ok(),
        ensures
            *final(self) == old(self).fetched(core@),
    {
        self.data.inst_count = Some(core.get_cycle_count());
        let forwarding_source_1 = core.get_forwarding_float_source(self.data.fs1);
        if let Some(source) = forwarding_source_1 {
            self.data.rs1_value = Some(source.1);
        } else {
            self.data.rs1_value = Some(core.get_float_register(self.data.fs1 as usize));
        }
        let forwarding_source_2 = core.get_forwarding_float_source(self.data.fs2);
        if let Some(source) = forwarding_source_2 {
            self.data.rs2_value = Some(source.1);
        } else {
            self.data.rs2_value = Some(core.get_float_register(self.data.fs2 as usize));
        }
    }

    /// The write-back stage.
    pub fn write_back(&self, core: &mut Core)
        requires
            old(core).wf(),
            self.regs_ok(),
            self.done_memory(),
        ensures
            final(core).wf(),
            final(core)@ == self.written_back(old(core)@),
    {
        let result = self.data.rd_value.unwrap();
        core.set_float_register(self.data.fd as usize, result);
    }

    /// The registers the instruction reads.
    pub fn get_source_registers(&self) -> (r: Vec<RegisterId>)
        ensures
            r@ == self.sources(),
    {
        let mut registers: Vec<RegisterId> = Vec::new();
        registers.push(RegisterId::Float(self.data.fs1));
        registers.push(RegisterId::Float(self.data.fs2));
        registers
    }

    /// The register the instruction writes.
    pub fn get_destination_register(&self) -> (r: Option<RegisterId>)
        ensures
            r == self.destination(),
    {
        Some(RegisterId::Float(self.data.fd))
    }

    /// The cycle in which the instruction read its operands, once it has.
    pub fn get_instruction_count(&self) -> (r: Option<InstructionCount>)
        ensures
            r == self.data.inst_count,
    {
        self.data.inst_count
    }

    /// The text of the instruction in assembly language.
    pub open spec fn assembly(self) -> Seq<u8> {
        ascii("fsgnjn f"@) + decimal_text(self.data.fd as int) + ascii(", f"@) + decimal_text(self.data.fs1 as int) + ascii(", f"@) + decimal_text(self.data.fs2 as int)
    }

    /// The text of the instruction in assembly language, in ASCII bytes.
    pub fn assembly_text(&self) -> (r: Vec<u8>)
        ensures
            r@ == self.assembly(),
    {
        let mut text: Vec<u8> = Vec::new();
        push_text(&mut text, "fsgnjn f");
        let mut digits = decimal_bytes(self.data.fd as i64);
        text.append(&mut digits);
        push_text(&mut text, ", f");
        let mut digits = decimal_bytes(self.data.fs1 as i64);
        text.append(&mut digits);
        push_text(&mut text, ", f");
        let mut digits = decimal_bytes(self.data.fs2 as i64);
        text.append(&mut digits);
        text
    }

    /// The mnemonic of the instruction.
    pub fn get_name(&self) -> (r: String)
        ensures
            r@ == "fsgnjn"@,
    {
        String::from_str("fsgnjn")
    }
}

/// Xor sign injection of two floating-point registers.
#[derive(Clone, Copy, Debug)]
pub struct Fsgnjx {
    pub data: FloatRInstructionData,
}

impl Fsgnjx {
    /// Whether the register numbers name registers that exist.
    pub open spec fn regs_ok(self) -> bool {
        self.data.fs2 < 64 && self.data.fs1 < 64 && self.data.fd < 64
    }

    /// The instruction after reading its operands from `st`.
    pub open spec fn fetched(self, st: CoreState) -> Self {
        Self { data: FloatRInstructionData { inst_count: Some(st.cycle_count), rs1_value: Some(st.float_source(self.data.fs1)), rs2_value: Some(st.float_source(self.data.fs2)), ..self.data } }
    }

    /// Whether the instruction has read its operands.
    pub open spec fn ready(self) -> bool {
        self.data.inst_count is Some && self.data.rs1_value is Some && self.data.rs2_value is Some
    }

    /// Whether the instruction holds what the memory stage needs.
    pub open spec fn done_exec(self) -> bool {
        self.data.inst_count is Some && self.data.rd_value is Some
    }

    /// Whether the instruction holds what the write-back stage needs.
    pub open spec fn done_memory(self) -> bool {
        self.data.inst_count is Some && self.data.rd_value is Some
    }

    /// The machine state after the write-back stage.
    pub open spec fn written_back(self, st: CoreState) -> CoreState {
        st.with_float_register(self.data.fd as int, self.data.rd_value->0)
    }

    /// The registers the instruction reads.
    pub open spec fn sources(self) -> Seq<RegisterId> {
        seq![RegisterId::Float(self.data.fs1), RegisterId::Float(self.data.fs2)]
    }

    /// The register the instruction writes, if any.
    pub open spec fn destination(self) -> Option<RegisterId> {
        Some(RegisterId::Float(self.data.fd))
    }

    /// The instruction as decoded, before it reads its operands.
    pub open spec fn spec_new(fs2: Fs2, fs1: Fs1, fd: Fd) -> Self {
        Self { data: FloatRInstructionData { fs2: fs2, fs1: fs1, fd: fd, rs2_value: None, rs1_value: None, rd_value: None, inst_count: None } }
    }

    /// The instruction as decoded, before it reads its operands.
    pub fn new(fs2: Fs2, fs1: Fs1, fd: Fd) -> (r: Self)
        ensures
            r == Self::spec_new(fs2, fs1, fd),
    {
        let data = FloatRInstructionData {
            fs2,
            fs1,
            fd,
            rs2_value: None,
            rs1_value: None,
            rd_value: None,
            inst_count: None,
        };
        Fsgnjx { data }
    }

    /// Reads the operands: each register from the forwarding network when a value is
    /// forwarded for it, else from the register file.
    pub fn register_fetch(&mut self, core: &Core)
        requires
            core.wf(),
            old(self).regs_ok(),
        ensures
            *final(self) == old(self).fetched(core@),
    {
        self.data.inst_count = Some(core.get_cycle_count());
        let forwarding_source_1 = core.get_forwarding_float_source(self.data.fs1);
        if let Some(source) = forwarding_source_1 {
            self.data.rs1_value = Some(source.1);
        } else {
            self.data.rs1_value = Some(core.get_float_register(self.data.fs1 as usize));
        }
        let forwarding_source_2 = core.get_forwarding_float_source(self.data.fs2);
        if let Some(source) = forwarding_source_2 {
            self.data.rs2_value = Some(source.1);
        } else {
            self.data.rs2_value = Some(core.get_float_register(self.data.fs2 as usize));
        }
    }

    /// The write-back stage.
    pub fn write_back(&self, core: &mut Core)
        requires
            old(core).wf(),
            self.regs_ok(),
            self.done_memory(),
        ensures
            final(core).wf(),
            final(core)@ == self.written_back(old(core)@),
    {
        let result = self.data.rd_value.unwrap();
        core.set_float_register(self.data.fd as usize, result);
    }

    /// The registers the instruction reads.
    pub fn get_source_registers(&self) -> (r: Vec<RegisterId>)
        ensures
            r@ == self.sources(),
    {
        let mut registers: Vec<RegisterId> = Vec::new();
        registers.push(RegisterId::Float(self.data.fs1));
        registers.push(RegisterId::Float(self.data.fs2));
        registers
    }

    /// The register the instruction writes.
    pub fn get_destination_register(&self) -> (r: Option<RegisterId>)
        ensures
            r == self.destination(),
    {
        Some(RegisterId::Float(self.data.fd))
    }

    /// The cycle in which the instruction read its operands, once it has.
    pub fn get_instruction_count(&self) -> (r: Option<InstructionCount>)
        ensures
            r == self.data.inst_count,
    {
        self.data.inst_count
    }

    /// The text of the instruction in assembly language.
    pub open spec fn assembly(self) -> Seq<u8> {
        ascii("fsgnjx f"@) + decimal_text(self.data.fd as int) + ascii(", f"@) + decimal_text(self.data.fs1 as int) + ascii(", f"@) + decimal_text(self.data.fs2 as int)
    }

    /// The text of the instruction in assembly language, in ASCII bytes.
    pub fn assembly_text(&self) -> (r: Vec<u8>)
        ensures
            r@ == self.assembly(),
    {
        let mut text: Vec<u8> = Vec::new();
        push_text(&mut text, "fsgnjx f");
        let mut digits = decimal_bytes(self.data.fd as i64);
        text.append(&mut digits);
        push_text(&mut text, ", f");
        let mut digits = decimal_bytes(self.data.fs1 as i64);
        text.append(&mut digits);
        push_text(&mut text, ", f");
        let mut digits = decimal_bytes(self.data.fs2 as i64);
        text.append(&mut digits);
        text
    }

    /// The mnemonic of the instruction.
    pub fn get_name(&self) -> (r: String)
        ensures
            r@ == "fsgnjx"@,
    {
        String::from_str("fsgnjx")
    }
}

/// Sets `rd` to 1 when two floating-point registers hold the same bits, else to 0.
#[derive(Clone, Copy, Debug)]
pub struct Feq {
    pub data: FloatIntRInstructionData,
}

impl Feq {
    /// Whether the register numbers name registers that exist.
    pub open spec fn regs_ok(self) -> bool {
        self.data.fs2 < 64 && self.data.fs1 < 64 && self.data.rd < 64
    }

    /// The instruction after reading its operands from `st`.
    pub open spec fn fetched(self, st: CoreState) -> Self {
        Self { data: FloatIntRInstructionData { inst_count: Some(st.cycle_count), fs1_value: Some(st.float_source(self.data.fs1)), fs2_value: Some(st.float_source(self.data.fs2)), ..self.data } }
    }

    /// Whether the instruction has read its operands.
    pub open spec fn ready(self) -> bool {
        self.data.inst_count is Some && self.data.fs1_value is Some && self.data.fs2_value is Some
    }

    /// Whether the machine state lets the instruction execute.
    pub open spec fn exec_ok(self, st: CoreState) -> bool {
        true
    }

    /// The instruction and the machine state after the execute stage.
    pub open spec fn executed(self, st: CoreState) -> (Self, CoreState) {
        let value: i32 = { let rs1_value = self.data.fs1_value->0; let rs2_value = self.data.fs2_value->0; if rs1_value.value == rs2_value.value { 1i32 } else { 0i32 } };
        (Self { data: FloatIntRInstructionData { rd_value: Some(value), ..self.data } }, st.with_int_forwarding(self.data.rd, self.data.inst_count->0, value))
    }

    /// Whether the instruction holds what the memory stage needs.
    pub open spec fn done_exec(self) -> bool {
        self.data.inst_count is Some && self.data.rd_value is Some
    }

    /// Whether the instruction holds what the write-back stage needs.
    pub open spec fn done_memory(self) -> bool {
        self.data.inst_count is Some && self.data.rd_value is Some
    }

    /// The machine state after the write-back stage.
    pub open spec fn written_back(self, st: CoreState) -> CoreState {
        st.with_int_register(self.data.rd as int, self.data.rd_value->0)
    }

    /// The registers the instruction reads.
    pub open spec fn sources(self) -> Seq<RegisterId> {
        seq![RegisterId::Float(self.data.fs1), RegisterId::Float(self.data.fs2)]
    }

    /// The register the instruction writes, if any.
    pub open spec fn destination(self) -> Option<RegisterId> {
        Some(RegisterId::Int(self.data.rd))
    }

    /// The instruction as decoded, before it reads its operands.
    pub open spec fn spec_new(fs2: Fs2, fs1: Fs1, rd: Rd) -> Self {
        Self { data: FloatIntRInstructionData { fs2: fs2, fs1: fs1, rd: rd, fs2_value: None, fs1_value: None, rd_value: None, inst_count: None } }
    }

    /// The instruction as decoded, before it reads its operands.
    pub fn new(fs2: Fs2, fs1: Fs1, rd: Rd) -> (r: Self)
        ensures
            r == Self::spec_new(fs2, fs1, rd),
    {
        let data = FloatIntRInstructionData {
            fs2,
            fs1,
            rd,
            fs2_value: None,
            fs1_value: None,
            rd_value: None,
            inst_count: None,
        };
        Feq { data }
    }

    /// Reads the operands: each register from the forwarding network when a value is
    /// forwarded for it, else from the register file.
    pub fn register_fetch(&mut self, core: &Core)
        requires
            core.wf(),
            old(self).regs_ok(),
        ensures
            *final(self) == old(self).fetched(core@),
    {
        self.data.inst_count = Some(core.get_cycle_count());
        let forwarding_source_1 = core.get_forwarding_float_source(self.data.fs1);
        if let Some(source) = forwarding_source_1 {
            self.data.fs1_value = Some(source.1);
        } else {
            self.data.fs1_value = Some(core.get_float_register(self.data.fs1 as usize));
        }
        let forwarding_source_2 = core.get_forwarding_float_source(self.data.fs2);
        if let Some(source) = forwarding_source_2 {
            self.data.fs2_value = Some(source.1);
        } else {
            self.data.fs2_value = Some(core.get_float_register(self.data.fs2 as usize));
        }
    }

    /// The execute stage.
    pub fn exec(&mut self, core: &mut Core)
        requires
            old(core).wf(),
            old(self).regs_ok(),
            old(self).ready(),
            old(self).exec_ok(old(core)@),
        ensures
            final(core).wf(),
            (*final(self), final(core)@) == old(self).executed(old(core)@),
    {
        let rs1_value = self.data.fs1_value.unwrap();
        let rs2_value = self.data.fs2_value.unwrap();
        self.data.rd_value = Some(if rs1_value == rs2_value { 1 } else { 0 });
        core.set_forwarding_int_source(self.data.rd, self.data.inst_count.unwrap(), self.data.rd_value.unwrap());
    }

    /// The write-back stage.
    pub fn write_back(&self, core: &mut Core)
        requires
            old(core).wf(),
            self.regs_ok(),
            self.done_memory(),
        ensures
            final(core).wf(),
            final(core)@ == self.written_back(old(core)@),
    {
        let result = self.data.rd_value.unwrap();
        core.set_int_register(self.data.rd as usize, result);
    }

    /// The registers the instruction reads.
    pub fn get_source_registers(&self) -> (r: Vec<RegisterId>)
        ensures
            r@ == self.sources(),
    {
        let mut registers: Vec<RegisterId> = Vec::new();
        registers.push(RegisterId::Float(self.data.fs1));
        registers.push(RegisterId::Float(self.data.fs2));
        registers
    }

    /// The register the instruction writes.
    pub fn get_destination_register(&self) -> (r: Option<RegisterId>)
        ensures
            r == self.destination(),
    {
        Some(RegisterId::Int(self.data.rd))
    }

    /// The cycle in which the instruction read its operands, once it has.
    pub fn get_instruction_count(&self) -> (r: Option<InstructionCount>)
        ensures
            r == self.data.inst_count,
    {
        self.data.inst_count
    }

    /// The text of the instruction in assembly language.
    pub open spec fn assembly(self) -> Seq<u8> {
        ascii("feq x"@) + decimal_text(self.data.rd as int) + ascii(", f"@) + decimal_text(self.data.fs1 as int) + ascii(", f"@) + decimal_text(self.data.fs2 as int)
    }

    /// The text of the instruction in assembly language, in ASCII bytes.
    pub fn assembly_text(&self) -> (r: Vec<u8>)
        ensures
            r@ == self.assembly(),
    {
        let mut text: Vec<u8> = Vec::new();
        push_text(&mut text, "feq x");
        let mut digits = decimal_bytes(self.data.rd as i64);
        text.append(&mut digits);
        push_text(&mut text, ", f");
        let mut digits = decimal_bytes(self.data.fs1 as i64);
        text.append(&mut digits);
        push_text(&mut text, ", f");
        let mut digits = decimal_bytes(self.data.fs2 as i64);
        text.append(&mut digits);
        text
    }

    /// The mnemonic of the instruction.
    pub fn get_name(&self) -> (r: String)
        ensures
            r@ == "feq"@,
    {
        String::from_str("feq")
    }
}

/// Sets `rd` to 1 when the FPU orders `fs1` before `fs2`, else to 0.
#[derive(Clone, Copy, Debug)]
pub struct Flt {
    pub data: FloatIntRInstructionData,
}

impl Flt {
    /// Whether the register numbers name registers that exist.
    pub open spec fn regs_ok(self) -> bool {
        self.data.fs2 < 64 && self.data.fs1 < 64 && self.data.rd < 64
    }

    /// The instruction after reading its operands from `st`.
    pub open spec fn fetched(self, st: CoreState) -> Self {
        Self { data: FloatIntRInstructionData { inst_count: Some(st.cycle_count), fs1_value: Some(st.float_source(self.data.fs1)), fs2_value: Some(st.float_source(self.data.fs2)), ..self.data } }
    }

    /// Whether the instruction has read its operands.
    pub open spec fn ready(self) -> bool {
        self.data.inst_count is Some && self.data.fs1_value is Some && self.data.fs2_value is Some
    }

    /// Whether the machine state lets the instruction execute.
    pub open spec fn exec_ok(self, st: CoreState) -> bool {
        true
    }

    /// The instruction and the machine state after the execute stage.
    pub open spec fn executed(self, st: CoreState) -> (Self, CoreState) {
        let value: i32 = { let rs1_value = self.data.fs1_value->0; let rs2_value = self.data.fs2_value->0; if fp_lt(rs1_value.value, rs2_value.value) { 1i32 } else { 0i32 } };
        (Self { data: FloatIntRInstructionData { rd_value: Some(value), ..self.data } }, st.with_int_forwarding(self.data.rd, self.data.inst_count->0, value))
    }

    /// Whether the instruction holds what the memory stage needs.
    pub open spec fn done_exec(self) -> bool {
        self.data.inst_count is Some && self.data.rd_value is Some
    }

    /// Whether the instruction holds what the write-back stage needs.
    pub open spec fn done_memory(self) -> bool {
        self.data.inst_count is Some && self.data.rd_value is Some
    }

    /// The machine state after the write-back stage.
    pub open spec fn written_back(self, st: CoreState) -> CoreState {
        st.with_int_register(self.data.rd as int, self.data.rd_value->0)
    }

    /// The registers the instruction reads.
    pub open spec fn sources(self) -> Seq<RegisterId> {
        seq![RegisterId::Float(self.data.fs1), RegisterId::Float(self.data.fs2)]
    }

    /// The register the instruction writes, if any.
    pub open spec fn destination(self) -> Option<RegisterId> {
        Some(RegisterId::Int(self.data.rd))
    }

    /// The instruction as decoded, before it reads its operands.
    pub open spec fn spec_new(fs2: Fs2, fs1: Fs1, rd: Rd) -> Self {
        Self { data: FloatIntRInstructionData { fs2: fs2, fs1: fs1, rd: rd, fs2_value: None, fs1_value: None, rd_value: None, inst_count: None } }
    }

    /// The instruction as decoded, before it reads its operands.
    pub fn new(fs2: Fs2, fs1: Fs1, rd: Rd) -> (r: Self)
        ensures
            r == Self::spec_new(fs2, fs1, rd),
    {
        let data = FloatIntRInstructionData {
            fs2,
            fs1,
            rd,
            fs2_value: None,
            fs1_value: None,
            rd_value: None,
            inst_count: None,
        };
        Flt { data }
    }

    /// Reads the operands: each register from the forwarding network when a value is
    /// forwarded for it, else from the register file.
    pub fn register_fetch(&mut self, core: &Core)
        requires
            core.wf(),
            old(self).regs_ok(),
        ensures
            *final(self) == old(self).fetched(core@),
    {
        self.data.inst_count = Some(core.get_cycle_count());
        let forwarding_source_1 = core.get_forwarding_float_source(self.data.fs1);
        if let Some(source) = forwarding_source_1 {
            self.data.fs1_value = Some(source.1);
        } else {
            self.data.fs1_value = Some(core.get_float_register(self.data.fs1 as usize));
        }
        let forwarding_source_2 = core.get_forwarding_float_source(self.data.fs2);
        if let Some(source) = forwarding_source_2 {
            self.data.fs2_value = Some(source.1);
        } else {
            self.data.fs2_value = Some(core.get_float_register(self.data.fs2 as usize));
        }
    }

    /// The execute stage.
    pub fn exec(&mut self, core: &mut Core)
        requires
            old(core).wf(),
            old(self).regs_ok(),
            old(self).ready(),
            old(self).exec_ok(old(core)@),
        ensures
            final(core).wf(),
            (*final(self), final(core)@) == old(self).executed(old(core)@),
    {
        let rs1_value = self.data.fs1_value.unwrap();
        let rs2_value = self.data.fs2_value.unwrap();
        self.data.rd_value = Some(if rs1_value < rs2_value { 1 } else { 0 });
        core.set_forwarding_int_source(self.data.rd, self.data.inst_count.unwrap(), self.data.rd_value.unwrap());
    }

    /// The write-back stage.
    pub fn write_back(&self, core: &mut Core)
        requires
            old(core).wf(),
            self.regs_ok(),
            self.done_memory(),
        ensures
            final(core).wf(),
            final(core)@ == self.written_back(old(core)@),
    {
        let result = self.data.rd_value.unwrap();
        core.set_int_register(self.data.rd as usize, result);
    }

    /// The registers the instruction reads.
    pub fn get_source_registers(&self) -> (r: Vec<RegisterId>)
        ensures
            r@ == self.sources(),
    {
        let mut registers: Vec<RegisterId> = Vec::new();
        registers.push(RegisterId::Float(self.data.fs1));
        registers.push(RegisterId::Float(self.data.fs2));
        registers
    }

    /// The register the instruction writes.
    pub fn get_destination_register(&self) -> (r: Option<RegisterId>)
        ensures
            r == self.destination(),
    {
        Some(RegisterId::Int(self.data.rd))
    }

    /// The cycle in which the instruction read its operands, once it has.
    pub fn get_instruction_count(&self) -> (r: Option<InstructionCount>)
        ensures
            r == self.data.inst_count,
    {
        self.data.inst_count
    }

    /// The text of the instruction in assembly language.
    pub open spec fn assembly(self) -> Seq<u8> {
        ascii("flt x"@) + decimal_text(self.data.rd as int) + ascii(", f"@) + decimal_text(self.data.fs1 as int) + ascii(", f"@) + decimal_text(self.data.fs2 as int)
    }

    /// The text of the instruction in assembly language, in ASCII bytes.
    pub fn assembly_text(&self) -> (r: Vec<u8>)
        ensures
            r@ == self.assembly(),
    {
        let mut text: Vec<u8> = Vec::new();
        push_text(&mut text, "flt x");
        let mut digits = decimal_bytes(self.data.rd as i64);
        text.append(&mut digits);
        push_text(&mut text, ", f");
        let mut digits = decimal_bytes(self.data.fs1 as i64);
        text.append(&mut digits);
        push_text(&mut text, ", f");
        let mut digits = decimal_bytes(self.data.fs2 as i64);
        text.append(&mut digits);
        text
    }

    /// The mnemonic of the instruction.
    pub fn get_name(&self) -> (r: String)
        ensures
            r@ == "flt"@,
    {
        String::from_str("flt")
    }
}

/// Sets `rd` to 1 when the FPU orders `fs1` before or equal to `fs2`, else to 0.
#[derive(Clone, Copy, Debug)]
pub struct Fle {
    pub data: FloatIntRInstructionData,
}

impl Fle {
    /// Whether the register numbers name registers that exist.
    pub open spec fn regs_ok(self) -> bool {
        self.data.fs2 < 64 && self.data.fs1 < 64 && self.data.rd < 64
    }

    /// The instruction after reading its operands from `st`.
    pub open spec fn fetched(self, st: CoreState) -> Self {
        Self { data: FloatIntRInstructionData { inst_count: Some(st.cycle_count), fs1_value: Some(st.float_source(self.data.fs1)), fs2_value: Some(st.float_source(self.data.fs2)), ..self.data } }
    }

    /// Whether the instruction has read its operands.
    pub open spec fn ready(self) -> bool {
        self.data.inst_count is Some && self.data.fs1_value is Some && self.data.fs2_value is Some
    }

    /// Whether the machine state lets the instruction execute.
    pub open spec fn exec_ok(self, st: CoreState) -> bool {
        true
    }

    /// The instruction and the machine state after the execute stage.
    pub open spec fn executed(self, st: CoreState) -> (Self, CoreState) {
        let value: i32 = { let rs1_value = self.data.fs1_value->0; let rs2_value = self.data.fs2_value->0; if fp_le(rs1_value.value, rs2_value.value) { 1i32 } else { 0i32 } };
        (Self { data: FloatIntRInstructionData { rd_value: Some(value), ..self.data } }, st.with_int_forwarding(self.data.rd, self.data.inst_count->0, value))
    }

    /// Whether the instruction holds what the memory stage needs.
    pub open spec fn done_exec(self) -> bool {
        self.data.inst_count is Some && self.data.rd_value is Some
    }

    /// Whether the instruction holds what the write-back stage needs.
    pub open spec fn done_memory(self) -> bool {
        self.data.inst_count is Some && self.data.rd_value is Some
    }

    /// The machine state after the write-back stage.
    pub open spec fn written_back(self, st: CoreState) -> CoreState {
        st.with_int_register(self.data.rd as int, self.data.rd_value->0)
    }

    /// The registers the instruction reads.
    pub open spec fn sources(self) -> Seq<RegisterId> {
        seq![RegisterId::Float(self.data.fs1), RegisterId::Float(self.data.fs2)]
    }

    /// The register the instruction writes, if any.
    pub open spec fn destination(self) -> Option<RegisterId> {
        Some(RegisterId::Int(self.data.rd))
    }

    /// The instruction as decoded, before it reads its operands.
    pub open spec fn spec_new(fs2: Fs2, fs1: Fs1, rd: Rd) -> Self {
        Self { data: FloatIntRInstructionData { fs2: fs2, fs1: fs1, rd: rd, fs2_value: None, fs1_value: None, rd_value: None, inst_count: None } }
    }

    /// The instruction as decoded, before it reads its operands.
    pub fn new(fs2: Fs2, fs1: Fs1, rd: Rd) -> (r: Self)
        ensures
            r == Self::spec_new(fs2, fs1, rd),
    {
        let data = FloatIntRInstructionData {
            fs2,
            fs1,
            rd,
            fs2_value: None,
            fs1_value: None,
            rd_value: None,
            inst_count: None,
        };
        Fle { data }
    }

    /// Reads the operands: each register from the forwarding network when a value is
    /// forwarded for it, else from the register file.
    pub fn register_fetch(&mut self, core: &Core)
        requires
            core.wf(),
            old(self).regs_ok(),
        ensures
            *final(self) == old(self).fetched(core@),
    {
        self.data.inst_count = Some(core.get_cycle_count());
        let forwarding_source_1 = core.get_forwarding_float_source(self.data.fs1);
        if let Some(source) = forwarding_source_1 {
            self.data.fs1_value = Some(source.1);
        } else {
            self.data.fs1_value = Some(core.get_float_register(self.data.fs1 as usize));
        }
        let forwarding_source_2 = core.get_forwarding_float_source(self.data.fs2);
        if let Some(source) = forwarding_source_2 {
            self.data.fs2_value = Some(source.1);
        } else {
            self.data.fs2_value = Some(core.get_float_register(self.data.fs2 as usize));
        }
    }

    /// The execute stage.
    pub fn exec(&mut self, core: &mut Core)
        requires
            old(core).wf(),
            old(self).regs_ok(),
            old(self).ready(),
            old(self).exec_ok(old(core)@),
        ensures
            final(core).wf(),
            (*final(self), final(core)@) == old(self).executed(old(core)@),
    {
        let rs1_value = self.data.fs1_value.unwrap();
        let rs2_value = self.data.fs2_value.unwrap();
        self.data.rd_value = Some(if rs1_value <= rs2_value { 1 } else { 0 });
        core.set_forwarding_int_source(self.data.rd, self.data.inst_count.unwrap(), self.data.rd_value.unwrap());
    }

    /// The write-back stage.
    pub fn write_back(&self, core: &mut Core)
        requires
            old(core).wf(),
            self.regs_ok(),
            self.done_memory(),
        ensures
            final(core).wf(),
            final(core)@ == self.written_back(old(core)@),
    {
        let result = self.data.rd_value.unwrap();
        core.set_int_register(self.data.rd as usize, result);
    }

    /// The registers the instruction reads.
    pub fn get_source_registers(&self) -> (r: Vec<RegisterId>)
        ensures
            r@ == self.sources(),
    {
        let mut registers: Vec<RegisterId> = Vec::new();
        registers.push(RegisterId::Float(self.data.fs1));
        registers.push(RegisterId::Float(self.data.fs2));
        registers
    }

    /// The register the instruction writes.
    pub fn get_destination_register(&self) -> (r: Option<RegisterId>)
        ensures
            r == self.destination(),
    {
        Some(RegisterId::Int(self.data.rd))
    }

    /// The cycle in which the instruction read its operands, once it has.
    pub fn get_instruction_count(&self) -> (r: Option<InstructionCount>)
        ensures
            r == self.data.inst_count,
    {
        self.data.inst_count
    }

    /// The text of the instruction in assembly language.
    pub open spec fn assembly(self) -> Seq<u8> {
        ascii("fle x"@) + decimal_text(self.data.rd as int) + ascii(", f"@) + decimal_text(self.data.fs1 as int) + ascii(", f"@) + decimal_text(self.data.fs2 as int)
    }

    /// The text of the instruction in assembly language, in ASCII bytes.
    pub fn assembly_text(&self) -> (r: Vec<u8>)
        ensures
            r@ == self.assembly(),
    {
        let mut text: Vec<u8> = Vec::new();
        push_text(&mut text, "fle x");
        let mut digits = decimal_bytes(self.data.rd as i64);
        text.append(&mut digits);
        push_text(&mut text, ", f");
        let mut digits = decimal_bytes(self.data.fs1 as i64);
        text.append(&mut digits);
        push_text(&mut text, ", f");
        let mut digits = decimal_bytes(self.data.fs2 as i64);
        text.append(&mut digits);
        text
    }

    /// The mnemonic of the instruction.
    pub fn get_name(&self) -> (r: String)
        ensures
            r@ == "fle"@,
    {
        String::from_str("fle")
    }
}

/// Converts a floating-point register to an integer.
#[derive(Clone, Copy, Debug)]
pub struct FcvtWS {
    pub data: FloatIntRInstructionData,
}

impl FcvtWS {
    /// Whether the register numbers name registers that exist.
    pub open spec fn regs_ok(self) -> bool {
        self.data.fs2 < 64 && self.data.fs1 < 64 && self.data.rd < 64
    }

    /// The instruction after reading its operands from `st`.
    pub open spec fn fetched(self, st: CoreState) -> Self {
        Self { data: FloatIntRInstructionData { inst_count: Some(st.cycle_count), fs1_value: Some(st.float_source(self.data.fs1)), ..self.data } }
    }

    /// Whether the instruction has read its operands.
    pub open spec fn ready(self) -> bool {
        self.data.inst_count is Some && self.data.fs1_value is Some
    }

    /// Whether the instruction holds what the memory stage needs.
    pub open spec fn done_exec(self) -> bool {
        self.data.inst_count is Some && self.data.rd_value is Some
    }

    /// Whether the instruction holds what the write-back stage needs.
    pub open spec fn done_memory(self) -> bool {
        self.data.inst_count is Some && self.data.rd_value is Some
    }

    /// The machine state after the write-back stage.
    pub open spec fn written_back(self, st: CoreState) -> CoreState {
        st.with_int_register(self.data.rd as int, self.data.rd_value->0)
    }

    /// The registers the instruction reads.
    pub open spec fn sources(self) -> Seq<RegisterId> {
        seq![RegisterId::Float(self.data.fs1)]
    }

    /// The register the instruction writes, if any.
    pub open spec fn destination(self) -> Option<RegisterId> {
        Some(RegisterId::Int(self.data.rd))
    }

    /// The instruction as decoded, before it reads its operands.
    pub open spec fn spec_new(fs2: Fs2, fs1: Fs1, rd: Rd) -> Self {
        Self { data: FloatIntRInstructionData { fs2: fs2, fs1: fs1, rd: rd, fs2_value: None, fs1_value: None, rd_value: None, inst_count: None } }
    }

    /// The instruction as decoded, before it reads its operands.
    pub fn new(fs2: Fs2, fs1: Fs1, rd: Rd) -> (r: Self)
        ensures
            r == Self::spec_new(fs2, fs1, rd),
    {
        let data = FloatIntRInstructionData {
            fs2,
            fs1,
            rd,
            fs2_value: None,
            fs1_value: None,
            rd_value: None,
            inst_count: None,
        };
        FcvtWS { data }
    }

    /// Reads the operands: each register from the forwarding network when a value is
    /// forwarded for it, else from the register file.
    pub fn register_fetch(&mut self, core: &Core)
        requires
            core.wf(),
            old(self).regs_ok(),
        ensures
            *final(self) == old(self).fetched(core@),
    {
        self.data.inst_count = Some(core.get_cycle_count());
        let forwarding_source = core.get_forwarding_float_source(self.data.fs1);
        if let Some(source) = forwarding_source {
            self.data.fs1_value = Some(source.1);
        } else {
            self.data.fs1_value = Some(core.get_float_register(self.data.fs1 as usize));
        }
    }

    /// The write-back stage.
    pub fn write_back(&self, core: &mut Core)
        requires
            old(core).wf(),
            self.regs_ok(),
            self.done_memory(),
        ensures
            final(core).wf(),
            final(core)@ == self.written_back(old(core)@),
    {
        let result = self.data.rd_value.unwrap();
        core.set_int_register(self.data.rd as usize, result);
    }

    /// The registers the instruction reads.
    pub fn get_source_registers(&self) -> (r: Vec<RegisterId>)
        ensures
            r@ == self.sources(),
    {
        let mut registers: Vec<RegisterId> = Vec::new();
        registers.push(RegisterId::Float(self.data.fs1));
        registers
    }

    /// The register the instruction writes.
    pub fn get_destination_register(&self) -> (r: Option<RegisterId>)
        ensures
            r == self.destination(),
    {
        Some(RegisterId::Int(self.data.rd))
    }

    /// The cycle in which the instruction read its operands, once it has.
    pub fn get_instruction_count(&self) -> (r: Option<InstructionCount>)
        ensures
            r == self.data.inst_count,
    {
        self.data.inst_count
    }

    /// The text of the instruction in assembly language.
    pub open spec fn assembly(self) -> Seq<u8> {
        ascii("fcvt.w.s x"@) + decimal_text(self.data.rd as int) + ascii(", f"@) + decimal_text(self.data.fs1 as int)
    }

    /// The text of the instruction in assembly language, in ASCII bytes.
    pub fn assembly_text(&self) -> (r: Vec<u8>)
        ensures
            r@ == self.assembly(),
    {
        let mut text: Vec<u8> = Vec::new();
        push_text(&mut text, "fcvt.w.s x");
        let mut digits = decimal_bytes(self.data.rd as i64);
        text.append(&mut digits);
        push_text(&mut text, ", f");
        let mut digits = decimal_bytes(self.data.fs1 as i64);
        text.append(&mut digits);
        text
    }

    /// The mnemonic of the instruction.
    pub fn get_name(&self) -> (r: String)
        ensures
            r@ == "fcvt.w.s"@,
    {
        String::from_str("fcvt.w.s")
    }
}

/// Converts an integer register to a floating-point number.
#[derive(Clone, Copy, Debug)]
pub struct FcvtSW {
    pub data: IntFloatRInstructionData,
}

impl FcvtSW {
    /// Whether the register numbers name registers that exist.
    pub open spec fn regs_ok(self) -> bool {
        self.data.rs1 < 64 && self.data.fd < 64
    }

    /// The instruction after reading its operands from `st`.
    pub open spec fn fetched(self, st: CoreState) -> Self {
        Self { data: IntFloatRInstructionData { inst_count: Some(st.cycle_count), rs1_value: Some(st.int_source(self.data.rs1)), ..self.data } }
    }

    /// Whether the instruction has read its operands.
    pub open spec fn ready(self) -> bool {
        self.data.inst_count is Some && self.data.rs1_value is Some
    }

    /// Whether the instruction holds what the memory stage needs.
    pub open spec fn done_exec(self) -> bool {
        self.data.inst_count is Some && self.data.fd_value is Some
    }

    /// Whether the instruction holds what the write-back stage needs.
    pub open spec fn done_memory(self) -> bool {
        self.data.inst_count is Some && self.data.fd_value is Some
    }

    /// The machine state after the write-back stage.
    pub open spec fn written_back(self, st: CoreState) -> CoreState {
        st.with_float_register(self.data.fd as int, self.data.fd_value->0)
    }

    /// The registers the instruction reads.
    pub open spec fn sources(self) -> Seq<RegisterId> {
        seq![RegisterId::Int(self.data.rs1)]
    }

    /// The register the instruction writes, if any.
    pub open spec fn destination(self) -> Option<RegisterId> {
        Some(RegisterId::Float(self.data.fd))
    }

    /// The instruction as decoded, before it reads its operands.
    pub open spec fn spec_new(_rs2: Rs2, rs1: Rs1, fd: Fd) -> Self {
        Self { data: IntFloatRInstructionData { _rs2: _rs2, rs1: rs1, fd: fd, _rs2_value: None, rs1_value: None, fd_value: None, inst_count: None } }
    }

    /// The instruction as decoded, before it reads its operands.
    pub fn new(_rs2: Rs2, rs1: Rs1, fd: Fd) -> (r: Self)
        ensures
            r == Self::spec_new(_rs2, rs1, fd),
    {
        let data = IntFloatRInstructionData {
            _rs2,
            rs1,
            fd,
            _rs2_value: None,
            rs1_value: None,
            fd_value: None,
            inst_count: None,
        };
        FcvtSW { data }
    }

    /// Reads the operands: each register from the forwarding network when a value is
    /// forwarded for it, else from the register file.
    pub fn register_fetch(&mut self, core: &Core)
        requires
            core.wf(),
            old(self).regs_ok(),
        ensures
            *final(self) == old(self).fetched(core@),
    {
        self.data.inst_count = Some(core.get_cycle_count());
        let forwarding_source = core.get_forwarding_int_source(self.data.rs1);
        if let Some(source) = forwarding_source {
            self.data.rs1_value = Some(source.1);
        } else {
            self.data.rs1_value = Some(core.get_int_register(self.data.rs1 as usize));
        }
    }

    /// The write-back stage.
    pub fn write_back(&self, core: &mut Core)
        requires
            old(core).wf(),
            self.regs_ok(),
            self.done_memory(),
        ensures
            final(core).wf(),
            final(core)@ == self.written_back(old(core)@),
    {
        let result = self.data.fd_value.unwrap();
        core.set_float_register(self.data.fd as usize, result);
    }

    /// The registers the instruction reads.
    pub fn get_source_registers(&self) -> (r: Vec<RegisterId>)
        ensures
            r@ == self.sources(),
    {
        let mut registers: Vec<RegisterId> = Vec::new();
        registers.push(RegisterId::Int(self.data.rs1));
        registers
    }

    /// The register the instruction writes.
    pub fn get_destination_register(&self) -> (r: Option<RegisterId>)
        ensures
            r == self.destination(),
    {
        Some(RegisterId::Float(self.data.fd))
    }

    /// The cycle in which the instruction read its operands, once it has.
    pub fn get_instruction_count(&self) -> (r: Option<InstructionCount>)
        ensures
            r == self.data.inst_count,
    {
        self.data.inst_count
    }

    /// The text of the instruction in assembly language.
    pub open spec fn assembly(self) -> Seq<u8> {
        ascii("fcvt.s.w f"@) + decimal_text(self.data.fd as int) + ascii(", x"@) + decimal_text(self.data.rs1 as int)
    }

    /// The text of the instruction in assembly language, in ASCII bytes.
    pub fn assembly_text(&self) -> (r: Vec<u8>)
        ensures
            r@ == self.assembly(),
    {
        let mut text: Vec<u8> = Vec::new();
        push_text(&mut text, "fcvt.s.w f");
        let mut digits = decimal_bytes(self.data.fd as i64);
        text.append(&mut digits);
        push_text(&mut text, ", x");
        let mut digits = decimal_bytes(self.data.rs1 as i64);
        text.append(&mut digits);
        text
    }

    /// The mnemonic of the instruction.
    pub fn get_name(&self) -> (r: String)
        ensures
            r@ == "fcvt.s.w"@,
    {
        String::from_str("fcvt.s.w")
    }
}

/// Stores floating-point register `fs2` as the word at `rs1 + imm`.
#[derive(Clone, Copy, Debug)]
pub struct Fsw {
    pub data: FloatSInstructionData,
    pub addr: Option<Address>,
}

impl Fsw {
    /// Whether the register numbers name registers that exist.
    pub open spec fn regs_ok(self) -> bool {
        self.data.fs2 < 64 && self.data.rs1 < 64
    }

    /// The instruction after reading its operands from `st`.
    pub open spec fn fetched(self, st: CoreState) -> Self {
        Self { data: FloatSInstructionData { inst_count: Some(st.cycle_count), extended_imm: Some(spec_sign_extention_i16(self.data.imm, 13) as i32), rs1_value: Some(st.int_source(self.data.rs1)), fs2_value: Some(st.float_source(self.data.fs2)), ..self.data }, ..self }
    }

    /// Whether the instruction has read its operands.
    pub open spec fn ready(self) -> bool {
        self.data.inst_count is Some && self.data.extended_imm is Some && self.data.rs1_value is Some && self.data.fs2_value is Some
    }

    /// Whether the machine state lets the instruction execute.
    pub open spec fn exec_ok(self, st: CoreState) -> bool {
        true
    }

    /// The instruction and the machine state after the execute stage.
    pub open spec fn executed(self, st: CoreState) -> (Self, CoreState) {
        (Self { addr: Some(vstd::wrapping::i32_specs::wrapping_add(self.data.rs1_value->0, self.data.extended_imm->0) as Address), ..self }, st)
    }

    /// Whether the instruction holds what the memory stage needs.
    pub open spec fn done_exec(self) -> bool {
        self.data.inst_count is Some && self.addr is Some && self.data.fs2_value is Some
    }

    /// Whether the memory stage can access the word the instruction addresses.
    pub open spec fn memory_ok(self, st: CoreState) -> bool {
        st.word_access_ok(self.addr->0)
    }

    /// The instruction and the machine state after the memory stage.
    pub open spec fn after_memory(self, st: CoreState) -> (Self, CoreState) {
        (self, st.store_word_result(self.addr->0, spec_u32_to_i32(self.data.fs2_value->0.value)))
    }

    /// Whether the instruction holds what the write-back stage needs.
    pub open spec fn done_memory(self) -> bool {
        self.data.inst_count is Some
    }

    /// The registers the instruction reads.
    pub open spec fn sources(self) -> Seq<RegisterId> {
        seq![RegisterId::Int(self.data.rs1), RegisterId::Float(self.data.fs2)]
    }

    /// The register the instruction writes, if any.
    pub open spec fn destination(self) -> Option<RegisterId> {
        None
    }

    /// The instruction as decoded, before it reads its operands.
    pub open spec fn spec_new(imm: Imm13, fs2: Fs2, rs1: Rs1) -> Self {
        Self { data: FloatSInstructionData { imm: imm, fs2: fs2, rs1: rs1, extended_imm: None, fs2_value: None, rs1_value: None, inst_count: None }, addr: None }
    }

    /// The instruction as decoded, before it reads its operands.
    pub fn new(imm: Imm13, fs2: Fs2, rs1: Rs1) -> (r: Self)
        ensures
            r == Self::spec_new(imm, fs2, rs1),
    {
        let data = FloatSInstructionData {
            imm,
            fs2,
            rs1,
            extended_imm: None,
            fs2_value: None,
            rs1_value: None,
            inst_count: None,
        };
        Fsw { data, addr: None }
    }

    /// Reads the operands: each register from the forwarding network when a value is
    /// forwarded for it, else from the register file.
    pub fn register_fetch(&mut self, core: &Core)
        requires
            core.wf(),
            old(self).regs_ok(),
        ensures
            *final(self) == old(self).fetched(core@),
    {
        self.data.inst_count = Some(core.get_cycle_count());
        self.data.extended_imm = Some(sign_extention_i16(self.data.imm, 13) as i32);
        let forwarding_source_1 = core.get_forwarding_int_source(self.data.rs1);
        if let Some(source) = forwarding_source_1 {
            self.data.rs1_value = Some(source.1);
        } else {
            self.data.rs1_value = Some(core.get_int_register(self.data.rs1 as usize));
        }
        let forwarding_source_2 = core.get_forwarding_float_source(self.data.fs2);
        if let Some(source) = forwarding_source_2 {
            self.data.fs2_value = Some(source.1);
        } else {
            self.data.fs2_value = Some(core.get_float_register(self.data.fs2 as usize));
        }
    }

    /// The execute stage.
    pub fn exec(&mut self, _core: &mut Core)
        requires
            old(_core).wf(),
            old(self).regs_ok(),
            old(self).ready(),
            old(self).exec_ok(old(_core)@),
        ensures
            final(_core).wf(),
            (*final(self), final(_core)@) == old(self).executed(old(_core)@),
    {
        let extended_imm = self.data.extended_imm.unwrap();
        let rs1_value = self.data.rs1_value.unwrap();
        self.addr = Some(rs1_value.wrapping_add(extended_imm) as Address);
    }

    /// The memory stage.
    pub fn memory(&mut self, core: &mut Core)
        requires
            old(core).wf(),
            old(self).regs_ok(),
            old(self).done_exec(),
            old(self).memory_ok(old(core)@),
        ensures
            final(core).wf(),
            (*final(self), final(core)@) == old(self).after_memory(old(core)@),
    {
        let addr = self.addr.unwrap();
        core.store_word(addr, u32_to_i32(self.data.fs2_value.unwrap().get_32_bits()));
    }

    /// The registers the instruction reads.
    pub fn get_source_registers(&self) -> (r: Vec<RegisterId>)
        ensures
            r@ == self.sources(),
    {
        let mut registers: Vec<RegisterId> = Vec::new();
        registers.push(RegisterId::Int(self.data.rs1));
        registers.push(RegisterId::Float(self.data.fs2));
        registers
    }

    /// The cycle in which the instruction read its operands, once it has.
    pub fn get_instruction_count(&self) -> (r: Option<InstructionCount>)
        ensures
            r == self.data.inst_count,
    {
        self.data.inst_count
    }

    /// The text of the instruction in assembly language.
    pub open spec fn assembly(self) -> Seq<u8> {
        ascii("fsw f"@) + decimal_text(self.data.fs2 as int) + ascii(", "@) + decimal_text(spec_sign_extention_i16(self.data.imm, 13) as int) + ascii("(x"@) + decimal_text(self.data.rs1 as int) + ascii(")"@)
    }

    /// The text of the instruction in assembly language, in ASCII bytes.
    pub fn assembly_text(&self) -> (r: Vec<u8>)
        ensures
            r@ == self.assembly(),
    {
        let mut text: Vec<u8> = Vec::new();
        push_text(&mut text, "fsw f");
        let mut digits = decimal_bytes(self.data.fs2 as i64);
        text.append(&mut digits);
        push_text(&mut text, ", ");
        let mut digits = decimal_bytes(sign_extention_i16(self.data.imm, 13) as i64);
        text.append(&mut digits);
        push_text(&mut text, "(x");
        let mut digits = decimal_bytes(self.data.rs1 as i64);
        text.append(&mut digits);
        push_text(&mut text, ")");
        text
    }

    /// The mnemonic of the instruction.
    pub fn get_name(&self) -> (r: String)
        ensures
            r@ == "fsw"@,
    {
        String::from_str("fsw")
    }
}

/// Reads the next integer of the input into `rd`.
#[derive(Clone, Copy, Debug)]
pub struct In {
    pub rd: Rd,
    pub rd_value: Option<Int>,
    pub inst_count: Option<InstructionCount>,
}

impl In {
    /// Whether the register numbers name registers that exist.
    pub open spec fn regs_ok(self) -> bool {
        self.rd < 64
    }

    /// The instruction after reading its operands from `st`.
    pub open spec fn fetched(self, st: CoreState) -> Self {
        Self { inst_count: Some(st.cycle_count), ..self }
    }

    /// Whether the instruction has read its operands.
    pub open spec fn ready(self) -> bool {
        self.inst_count is Some
    }

    /// Whether the machine state lets the instruction execute.
    pub open spec fn exec_ok(self, st: CoreState) -> bool {
        st.can_read_int()
    }

    /// The instruction and the machine state after the execute stage.
    pub open spec fn executed(self, st: CoreState) -> (Self, CoreState) {
        let (next, value) = st.read_int_result();
        (Self { rd_value: Some(value), ..self }, next.with_int_forwarding(self.rd, self.inst_count->0, value))
    }

    /// Whether the instruction holds what the memory stage needs.
    pub open spec fn done_exec(self) -> bool {
        self.inst_count is Some && self.rd_value is Some
    }

    /// Whether the instruction holds what the write-back stage needs.
    pub open spec fn done_memory(self) -> bool {
        self.inst_count is Some && self.rd_value is Some
    }

    /// The machine state after the write-back stage.
    pub open spec fn written_back(self, st: CoreState) -> CoreState {
        st.with_int_register(self.rd as int, self.rd_value->0)
    }

    /// The registers the instruction reads.
    pub open spec fn sources(self) -> Seq<RegisterId> {
        Seq::empty()
    }

    /// The register the instruction writes, if any.
    pub open spec fn destination(self) -> Option<RegisterId> {
        Some(RegisterId::Int(self.rd))
    }

    /// The instruction as decoded, before it reads its operands.
    pub open spec fn spec_new(rd: Rd) -> Self {
        Self { rd: rd, rd_value: None, inst_count: None }
    }

    /// The instruction as decoded, before it reads its operands.
    pub fn new(rd: Rd) -> (r: Self)
        ensures
            r == Self::spec_new(rd),
    {
        In { rd, rd_value: None, inst_count: None }
    }

    /// Reads the operands: each register from the forwarding network when a value is
    /// forwarded for it, else from the register file.
    pub fn register_fetch(&mut self, core: &Core)
        requires
            core.wf(),
            old(self).regs_ok(),
        ensures
            *final(self) == old(self).fetched(core@),
    {
        self.inst_count = Some(core.get_cycle_count());
    }

    /// The execute stage.
    pub fn exec(&mut self, core: &mut Core)
        requires
            old(core).wf(),
            old(self).regs_ok(),
            old(self).ready(),
            old(self).exec_ok(old(core)@),
        ensures
            final(core).wf(),
            (*final(self), final(core)@) == old(self).executed(old(core)@),
    {
        self.rd_value = Some(core.read_int());
        core.set_forwarding_int_source(self.rd, self.inst_count.unwrap(), self.rd_value.unwrap());
    }

    /// The write-back stage.
    pub fn write_back(&self, core: &mut Core)
        requires
            old(core).wf(),
            self.regs_ok(),
            self.done_memory(),
        ensures
            final(core).wf(),
            final(core)@ == self.written_back(old(core)@),
    {
        let result = self.rd_value.unwrap();
        core.set_int_register(self.rd as usize, result);
    }

    /// The register the instruction writes.
    pub fn get_destination_register(&self) -> (r: Option<RegisterId>)
        ensures
            r == self.destination(),
    {
        Some(RegisterId::Int(self.rd))
    }

    /// The cycle in which the instruction read its operands, once it has.
    pub fn get_instruction_count(&self) -> (r: Option<InstructionCount>)
        ensures
            r == self.inst_count,
    {
        self.inst_count
    }

    /// The text of the instruction in assembly language.
    pub open spec fn assembly(self) -> Seq<u8> {
        ascii("in x"@) + decimal_text(self.rd as int)
    }

    /// The text of the instruction in assembly language, in ASCII bytes.
    pub fn assembly_text(&self) -> (r: Vec<u8>)
        ensures
            r@ == self.assembly(),
    {
        let mut text: Vec<u8> = Vec::new();
        push_text(&mut text, "in x");
        let mut digits = decimal_bytes(self.rd as i64);
        text.append(&mut digits);
        text
    }

    /// The mnemonic of the instruction.
    pub fn get_name(&self) -> (r: String)
        ensures
            r@ == "in"@,
    {
        String::from_str("in")
    }
}

/// Reads the next floating-point number of the input into floating-point register `rd`.
#[derive(Clone, Copy, Debug)]
pub struct Fin {
    pub rd: Rd,
    pub rd_value: Option<FloatingPoint>,
    pub inst_count: Option<InstructionCount>,
}

impl Fin {
    /// Whether the register numbers name registers that exist.
    pub open spec fn regs_ok(self) -> bool {
        self.rd < 64
    }

    /// The instruction after reading its operands from `st`.
    pub open spec fn fetched(self, st: CoreState) -> Self {
        Self { inst_count: Some(st.cycle_count), ..self }
    }

    /// Whether the instruction has read its operands.
    pub open spec fn ready(self) -> bool {
        self.inst_count is Some
    }

    /// Whether the machine state lets the instruction execute.
    pub open spec fn exec_ok(self, st: CoreState) -> bool {
        st.can_read_float()
    }

    /// The instruction and the machine state after the execute stage.
    pub open spec fn executed(self, st: CoreState) -> (Self, CoreState) {
        let (next, value) = st.read_float_result();
        let number = FloatingPoint { value: spec_i32_to_u32(value) };
        (Self { rd_value: Some(number), ..self }, next.with_float_forwarding(self.rd, self.inst_count->0, number))
    }

    /// Whether the instruction holds what the memory stage needs.
    pub open spec fn done_exec(self) -> bool {
        self.inst_count is Some && self.rd_value is Some
    }

    /// Whether the instruction holds what the write-back stage needs.
    pub open spec fn done_memory(self) -> bool {
        self.inst_count is Some && self.rd_value is Some
    }

    /// The machine state after the write-back stage.
    pub open spec fn written_back(self, st: CoreState) -> CoreState {
        st.with_float_register(self.rd as int, self.rd_value->0)
    }

    /// The registers the instruction reads.
    pub open spec fn sources(self) -> Seq<RegisterId> {
        Seq::empty()
    }

    /// The register the instruction writes, if any.
    pub open spec fn destination(self) -> Option<RegisterId> {
        Some(RegisterId::Float(self.rd))
    }

    /// The instruction as decoded, before it reads its operands.
    pub open spec fn spec_new(rd: Rd) -> Self {
        Self { rd: rd, rd_value: None, inst_count: None }
    }

    /// The instruction as decoded, before it reads its operands.
    pub fn new(rd: Rd) -> (r: Self)
        ensures
            r == Self::spec_new(rd),
    {
        Fin { rd, rd_value: None, inst_count: None }
    }

    /// Reads the operands: each register from the forwarding network when a value is
    /// forwarded for it, else from the register file.
    pub fn register_fetch(&mut self, core: &Core)
        requires
            core.wf(),
            old(self).regs_ok(),
        ensures
            *final(self) == old(self).fetched(core@),
    {
        self.inst_count = Some(core.get_cycle_count());
    }

    /// The execute stage.
    pub fn exec(&mut self, core: &mut Core)
        requires
            old(core).wf(),
            old(self).regs_ok(),
            old(self).ready(),
            old(self).exec_ok(old(core)@),
        ensures
            final(core).wf(),
            (*final(self), final(core)@) == old(self).executed(old(core)@),
    {
        let value = core.read_float();
        self.rd_value = Some(FloatingPoint::new(i32_to_u32(value)));
        core.set_forwarding_float_source(self.rd, self.inst_count.unwrap(), self.rd_value.unwrap());
    }

    /// The write-back stage.
    pub fn write_back(&self, core: &mut Core)
        requires
            old(core).wf(),
            self.regs_ok(),
            self.done_memory(),
        ensures
            final(core).wf(),
            final(core)@ == self.written_back(old(core)@),
    {
        let result = self.rd_value.unwrap();
        core.set_float_register(self.rd as usize, result);
    }

    /// The register the instruction writes.
    pub fn get_destination_register(&self) -> (r: Option<RegisterId>)
        ensures
            r == self.destination(),
    {
        Some(RegisterId::Float(self.rd))
    }

    /// The cycle in which the instruction read its operands, once it has.
    pub fn get_instruction_count(&self) -> (r: Option<InstructionCount>)
        ensures
            r == self.inst_count,
    {
        self.inst_count
    }

    /// The text of the instruction in assembly language.
    pub open spec fn assembly(self) -> Seq<u8> {
        ascii("in x"@) + decimal_text(self.rd as int)
    }

    /// The text of the instruction in assembly language, in ASCII bytes.
    pub fn assembly_text(&self) -> (r: Vec<u8>)
        ensures
            r@ == self.assembly(),
    {
        let mut text: Vec<u8> = Vec::new();
        push_text(&mut text, "in x");
        let mut digits = decimal_bytes(self.rd as i64);
        text.append(&mut digits);
        text
    }

    /// The mnemonic of the instruction.
    pub fn get_name(&self) -> (r: String)
        ensures
            r@ == "fin"@,
    {
        String::from_str("fin")
    }
}

/// Writes the low byte of `rs2` to the output.
#[derive(Clone, Copy, Debug)]
pub struct Outchar {
    pub rs2: Rs1,
    pub rs2_value: Option<Int>,
    pub inst_count: Option<InstructionCount>,
}

impl Outchar {
    /// Whether the register numbers name registers that exist.
    pub open spec fn regs_ok(self) -> bool {
        self.rs2 < 64
    }

    /// The instruction after reading its operands from `st`.
    pub open spec fn fetched(self, st: CoreState) -> Self {
        Self { inst_count: Some(st.cycle_count), rs2_value: Some(st.int_source(self.rs2)), ..self }
    }

    /// Whether the instruction has read its operands.
    pub open spec fn ready(self) -> bool {
        self.inst_count is Some && self.rs2_value is Some
    }

    /// Whether the machine state lets the instruction execute.
    pub open spec fn exec_ok(self, st: CoreState) -> bool {
        true
    }

    /// The instruction and the machine state after the execute stage.
    pub open spec fn executed(self, st: CoreState) -> (Self, CoreState) {
        (self, st.with_output(seq![self.rs2_value->0 as u8]))
    }

    /// Whether the instruction holds what the memory stage needs.
    pub open spec fn done_exec(self) -> bool {
        self.inst_count is Some
    }

    /// Whether the instruction holds what the write-back stage needs.
    pub open spec fn done_memory(self) -> bool {
        self.inst_count is Some
    }

    /// The registers the instruction reads.
    pub open spec fn sources(self) -> Seq<RegisterId> {
        seq![RegisterId::Int(self.rs2)]
    }

    /// The register the instruction writes, if any.
    pub open spec fn destination(self) -> Option<RegisterId> {
        None
    }

    /// The instruction as decoded, before it reads its operands.
    pub open spec fn spec_new(rs2: Rs2) -> Self {
        Self { rs2: rs2, rs2_value: None, inst_count: None }
    }

    /// The instruction as decoded, before it reads its operands.
    pub fn new(rs2: Rs2) -> (r: Self)
        ensures
            r == Self::spec_new(rs2),
    {
        Outchar { rs2, rs2_value: None, inst_count: None }
    }

    /// Reads the operands: each register from the forwarding network when a value is
    /// forwarded for it, else from the register file.
    pub fn register_fetch(&mut self, core: &Core)
        requires
            core.wf(),
            old(self).regs_ok(),
        ensures
            *final(self) == old(self).fetched(core@),
    {
        self.inst_count = Some(core.get_cycle_count());
        let forwarding_source = core.get_forwarding_int_source(self.rs2);
        if let Some(source) = forwarding_source {
            self.rs2_value = Some(source.1);
        } else {
            self.rs2_value = Some(core.get_int_register(self.rs2 as usize));
        }
    }

    /// The execute stage.
    pub fn exec(&mut self, core: &mut Core)
        requires
            old(core).wf(),
            old(self).regs_ok(),
            old(self).ready(),
            old(self).exec_ok(old(core)@),
        ensures
            final(core).wf(),
            (*final(self), final(core)@) == old(self).executed(old(core)@),
    {
        let value = self.rs2_value.unwrap();
        core.print_char(value);
    }

    /// The registers the instruction reads.
    pub fn get_source_registers(&self) -> (r: Vec<RegisterId>)
        ensures
            r@ == self.sources(),
    {
        let mut registers: Vec<RegisterId> = Vec::new();
        registers.push(RegisterId::Int(self.rs2));
        registers
    }

    /// The cycle in which the instruction read its operands, once it has.
    pub fn get_instruction_count(&self) -> (r: Option<InstructionCount>)
        ensures
            r == self.inst_count,
    {
        self.inst_count
    }

    /// The text of the instruction in assembly language.
    pub open spec fn assembly(self) -> Seq<u8> {
        ascii("outchar x"@) + decimal_text(self.rs2 as int)
    }

    /// The text of the instruction in assembly language, in ASCII bytes.
    pub fn assembly_text(&self) -> (r: Vec<u8>)
        ensures
            r@ == self.assembly(),
    {
        let mut text: Vec<u8> = Vec::new();
        push_text(&mut text, "outchar x");
        let mut digits = decimal_bytes(self.rs2 as i64);
        text.append(&mut digits);
        text
    }

    /// The mnemonic of the instruction.
    pub fn get_name(&self) -> (r: String)
        ensures
            r@ == "outchar"@,
    {
        String::from_str("outchar")
    }
}

/// Writes `rs2` in decimal to the output.
#[derive(Clone, Copy, Debug)]
pub struct Outint {
    pub rs2: Rs1,
    pub rs2_value: Option<Int>,
    pub inst_count: Option<InstructionCount>,
}

impl Outint {
    /// Whether the register numbers name registers that exist.
    pub open spec fn regs_ok(self) -> bool {
        self.rs2 < 64
    }

    /// The instruction after reading its operands from `st`.
    pub open spec fn fetched(self, st: CoreState) -> Self {
        Self { inst_count: Some(st.cycle_count), rs2_value: Some(st.int_source(self.rs2)), ..self }
    }

    /// Whether the instruction has read its operands.
    pub open spec fn ready(self) -> bool {
        self.inst_count is Some && self.rs2_value is Some
    }

    /// Whether the machine state lets the instruction execute.
    pub open spec fn exec_ok(self, st: CoreState) -> bool {
        true
    }

    /// The instruction and the machine state after the execute stage.
    pub open spec fn executed(self, st: CoreState) -> (Self, CoreState) {
        (self, st.with_output(decimal_text(self.rs2_value->0 as int)))
    }

    /// Whether the instruction holds what the memory stage needs.
    pub open spec fn done_exec(self) -> bool {
        self.inst_count is Some
    }

    /// Whether the instruction holds what the write-back stage needs.
    pub open spec fn done_memory(self) -> bool {
        self.inst_count is Some
    }

    /// The registers the instruction reads.
    pub open spec fn sources(self) -> Seq<RegisterId> {
        seq![RegisterId::Int(self.rs2)]
    }

    /// The register the instruction writes, if any.
    pub open spec fn destination(self) -> Option<RegisterId> {
        None
    }

    /// The instruction as decoded, before it reads its operands.
    pub open spec fn spec_new(rs2: Rs2) -> Self {
        Self { rs2: rs2, rs2_value: None, inst_count: None }
    }

    /// The instruction as decoded, before it reads its operands.
    pub fn new(rs2: Rs2) -> (r: Self)
        ensures
            r == Self::spec_new(rs2),
    {
        Outint { rs2, rs2_value: None, inst_count: None }
    }

    /// Reads the operands: each register from the forwarding network when a value is
    /// forwarded for it, else from the register file.
    pub fn register_fetch(&mut self, core: &Core)
        requires
            core.wf(),
            old(self).regs_ok(),
        ensures
            *final(self) == old(self).fetched(core@),
    {
        self.inst_count = Some(core.get_cycle_count());
        let forwarding_source = core.get_forwarding_int_source(self.rs2);
        if let Some(source) = forwarding_source {
            self.rs2_value = Some(source.1);
        } else {
            self.rs2_value = Some(core.get_int_register(self.rs2 as usize));
        }
    }

    /// The execute stage.
    pub fn exec(&mut self, core: &mut Core)
        requires
            old(core).wf(),
            old(self).regs_ok(),
            old(self).ready(),
            old(self).exec_ok(old(core)@),
        ensures
            final(core).wf(),
            (*final(self), final(core)@) == old(self).executed(old(core)@),
    {
        let value = self.rs2_value.unwrap();
        core.print_int(value);
    }

    /// The registers the instruction reads.
    pub fn get_source_registers(&self) -> (r: Vec<RegisterId>)
        ensures
            r@ == self.sources(),
    {
        let mut registers: Vec<RegisterId> = Vec::new();
        registers.push(RegisterId::Int(self.rs2));
        registers
    }

    /// The cycle in which the instruction read its operands, once it has.
    pub fn get_instruction_count(&self) -> (r: Option<InstructionCount>)
        ensures
            r == self.inst_count,
    {
        self.inst_count
    }

    /// The text of the instruction in assembly language.
    pub open spec fn assembly(self) -> Seq<u8> {
        ascii("outint x"@) + decimal_text(self.rs2 as int)
    }

    /// The text of the instruction in assembly language, in ASCII bytes.
    pub fn assembly_text(&self) -> (r: Vec<u8>)
        ensures
            r@ == self.assembly(),
    {
        let mut text: Vec<u8> = Vec::new();
        push_text(&mut text, "outint x");
        let mut digits = decimal_bytes(self.rs2 as i64);
        text.append(&mut digits);
        text
    }

    /// The mnemonic of the instruction.
    pub fn get_name(&self) -> (r: String)
        ensures
            r@ == "outint"@,
    {
        String::from_str("outint")
    }
}

/// Branches when two floating-point registers hold the same bits.
#[derive(Clone, Copy, Debug)]
pub struct Fbeq {
    pub data: FBInstructionData,
}

impl Fbeq {
    /// Whether the register numbers name registers that exist.
    pub open spec fn regs_ok(self) -> bool {
        self.data.rs2 < 64 && self.data.rs1 < 64
    }

    /// The instruction after reading its operands from `st`.
    pub open spec fn fetched(self, st: CoreState) -> Self {
        Self { data: FBInstructionData { extended_imm: Some(spec_sign_extention_i16(self.data.imm, 13) as i32), inst_count: Some(st.cycle_count), origin_pc: Some(vstd::wrapping::u32_specs::wrapping_sub(st.pc, 8)), rs1_value: Some(st.float_source(self.data.rs1)), rs2_value: Some(st.float_source(self.data.rs2)), ..self.data } }
    }

    /// Whether the instruction has read its operands.
    pub open spec fn ready(self) -> bool {
        self.data.extended_imm is Some && self.data.inst_count is Some && self.data.origin_pc is Some && self.data.rs1_value is Some && self.data.rs2_value is Some
    }

    /// Whether the machine state lets the instruction execute.
    pub open spec fn exec_ok(self, st: CoreState) -> bool {
        true
    }

    /// The instruction and the machine state after the execute stage.
    pub open spec fn executed(self, st: CoreState) -> (Self, CoreState) {
        let taken: bool = { let rs1_value = self.data.rs1_value->0; let rs2_value = self.data.rs2_value->0; rs1_value.value == rs2_value.value };
        let target = vstd::wrapping::i32_specs::wrapping_add(self.data.origin_pc->0 as i32, self.data.extended_imm->0 << 2u32) as Address;
        (if taken { Self { data: FBInstructionData { jump_address: Some(target), ..self.data } } } else { self }, st)
    }

    /// Whether the instruction holds what the memory stage needs.
    pub open spec fn done_exec(self) -> bool {
        self.data.inst_count is Some
    }

    /// Whether the instruction holds what the write-back stage needs.
    pub open spec fn done_memory(self) -> bool {
        self.data.inst_count is Some
    }

    /// The registers the instruction reads.
    pub open spec fn sources(self) -> Seq<RegisterId> {
        seq![RegisterId::Float(self.data.rs1), RegisterId::Float(self.data.rs2)]
    }

    /// The register the instruction writes, if any.
    pub open spec fn destination(self) -> Option<RegisterId> {
        None
    }

    /// The instruction as decoded, before it reads its operands.
    pub open spec fn spec_new(imm: Imm13, rs2: Rs2, rs1: Rs1) -> Self {
        Self { data: FBInstructionData { imm: imm, rs2: rs2, rs1: rs1, extended_imm: None, rs2_value: None, rs1_value: None, inst_count: None, origin_pc: None, jump_address: None } }
    }

    /// The instruction as decoded, before it reads its operands.
    pub fn new(imm: Imm13, rs2: Rs2, rs1: Rs1) -> (r: Self)
        ensures
            r == Self::spec_new(imm, rs2, rs1),
    {
        let data = FBInstructionData {
            imm,
            rs2,
            rs1,
            extended_imm: None,
            rs2_value: None,
            rs1_value: None,
            inst_count: None,
            origin_pc: None,
            jump_address: None,
        };
        Fbeq { data }
    }

    /// Reads the operands: each register from the forwarding network when a value is
    /// forwarded for it, else from the register file.
    pub fn register_fetch(&mut self, core: &Core)
        requires
            core.wf(),
            old(self).regs_ok(),
        ensures
            *final(self) == old(self).fetched(core@),
    {
        self.data.extended_imm = Some(sign_extention_i16(self.data.imm, 13) as i32);
        self.data.inst_count = Some(core.get_cycle_count());
        self.data.origin_pc = Some(core.get_pc().wrapping_sub(8));
        let forwarding_source_1 = core.get_forwarding_float_source(self.data.rs1);
        if let Some(source) = forwarding_source_1 {
            self.data.rs1_value = Some(source.1);
        } else {
            self.data.rs1_value = Some(core.get_float_register(self.data.rs1 as usize));
        }
        let forwarding_source_2 = core.get_forwarding_float_source(self.data.rs2);
        if let Some(source) = forwarding_source_2 {
            self.data.rs2_value = Some(source.1);
        } else {
            self.data.rs2_value = Some(core.get_float_register(self.data.rs2 as usize));
        }
    }

    /// The execute stage.
    pub fn exec(&mut self, _core: &mut Core)
        requires
            old(_core).wf(),
            old(self).regs_ok(),
            old(self).ready(),
            old(self).exec_ok(old(_core)@),
        ensures
            final(_core).wf(),
            (*final(self), final(_core)@) == old(self).executed(old(_core)@),
    {
        let extended_imm = self.data.extended_imm.unwrap();
        let rs1_value = self.data.rs1_value.unwrap();
        let rs2_value = self.data.rs2_value.unwrap();
        if rs1_value == rs2_value {
            self.data.jump_address = Some((self.data.origin_pc.unwrap() as i32).wrapping_add(extended_imm << 2u32) as Address);
        }
    }

    /// The registers the instruction reads.
    pub fn get_source_registers(&self) -> (r: Vec<RegisterId>)
        ensures
            r@ == self.sources(),
    {
        let mut registers: Vec<RegisterId> = Vec::new();
        registers.push(RegisterId::Float(self.data.rs1));
        registers.push(RegisterId::Float(self.data.rs2));
        registers
    }

    /// The address to jump to, once the execute stage has decided to jump.
    pub fn get_jump_address(&self) -> (r: Option<Address>)
        ensures
            r == self.data.jump_address,
    {
        self.data.jump_address
    }

    /// The cycle in which the instruction read its operands, once it has.
    pub fn get_instruction_count(&self) -> (r: Option<InstructionCount>)
        ensures
            r == self.data.inst_count,
    {
        self.data.inst_count
    }

    /// The text of the instruction in assembly language.
    pub open spec fn assembly(self) -> Seq<u8> {
        ascii("fbeq x"@) + decimal_text(self.data.rs1 as int) + ascii(", x"@) + decimal_text(self.data.rs2 as int) + ascii(", "@) + (match self.data.origin_pc { Some(pc) => decimal_text(pc as int), None => ascii("?"@) }) + ascii(" + "@) + decimal_text(spec_sign_extention_i16(self.data.imm, 13) * 4)
    }

    /// The text of the instruction in assembly language, in ASCII bytes.
    pub fn assembly_text(&self) -> (r: Vec<u8>)
        ensures
            r@ == self.assembly(),
    {
        let mut text: Vec<u8> = Vec::new();
        push_text(&mut text, "fbeq x");
        let mut digits = decimal_bytes(self.data.rs1 as i64);
        text.append(&mut digits);
        push_text(&mut text, ", x");
        let mut digits = decimal_bytes(self.data.rs2 as i64);
        text.append(&mut digits);
        push_text(&mut text, ", ");
        match self.data.origin_pc {
            Some(pc) => {
                let mut digits = decimal_bytes(pc as i64);
                text.append(&mut digits);
            },
            None => {
                push_text(&mut text, "?");
            },
        }
        push_text(&mut text, " + ");
        let mut digits = decimal_bytes(sign_extention_i16(self.data.imm, 13) as i64 * 4);
        text.append(&mut digits);
        text
    }

    /// The mnemonic of the instruction.
    pub fn get_name(&self) -> (r: String)
        ensures
            r@ == "fbeq"@,
    {
        String::from_str("fbeq")
    }
}

/// Branches when two floating-point registers hold different bits.
#[derive(Clone, Copy, Debug)]
pub struct Fbne {
    pub data: FBInstructionData,
}

impl Fbne {
    /// Whether the register numbers name registers that exist.
    pub open spec fn regs_ok(self) -> bool {
        self.data.rs2 < 64 && self.data.rs1 < 64
    }

    /// The instruction after reading its operands from `st`.
    pub open spec fn fetched(self, st: CoreState) -> Self {
        Self { data: FBInstructionData { extended_imm: Some(spec_sign_extention_i16(self.data.imm, 13) as i32), inst_count: Some(st.cycle_count), origin_pc: Some(vstd::wrapping::u32_specs::wrapping_sub(st.pc, 8)), rs1_value: Some(st.float_source(self.data.rs1)), rs2_value: Some(st.float_source(self.data.rs2)), ..self.data } }
    }

    /// Whether the instruction has read its operands.
    pub open spec fn ready(self) -> bool {
        self.data.extended_imm is Some && self.data.inst_count is Some && self.data.origin_pc is Some && self.data.rs1_value is Some && self.data.rs2_value is Some
    }

    /// Whether the machine state lets the instruction execute.
    pub open spec fn exec_ok(self, st: CoreState) -> bool {
        true
    }

    /// The instruction and the machine state after the execute stage.
    pub open spec fn executed(self, st: CoreState) -> (Self, CoreState) {
        let taken: bool = { let rs1_value = self.data.rs1_value->0; let rs2_value = self.data.rs2_value->0; rs1_value.value != rs2_value.value };
        let target = vstd::wrapping::i32_specs::wrapping_add(self.data.origin_pc->0 as i32, self.data.extended_imm->0 << 2u32) as Address;
        (if taken { Self { data: FBInstructionData { jump_address: Some(target), ..self.data } } } else { self }, st)
    }

    /// Whether the instruction holds what the memory stage needs.
    pub open spec fn done_exec(self) -> bool {
        self.data.inst_count is Some
    }

    /// Whether the instruction holds what the write-back stage needs.
    pub open spec fn done_memory(self) -> bool {
        self.data.inst_count is Some
    }

    /// The registers the instruction reads.
    pub open spec fn sources(self) -> Seq<RegisterId> {
        seq![RegisterId::Float(self.data.rs1), RegisterId::Float(self.data.rs2)]
    }

    /// The register the instruction writes, if any.
    pub open spec fn destination(self) -> Option<RegisterId> {
        None
    }

    /// The instruction as decoded, before it reads its operands.
    pub open spec fn spec_new(imm: Imm13, rs2: Rs2, rs1: Rs1) -> Self {
        Self { data: FBInstructionData { imm: imm, rs2: rs2, rs1: rs1, extended_imm: None, rs2_value: None, rs1_value: None, inst_count: None, origin_pc: None, jump_address: None } }
    }

    /// The instruction as decoded, before it reads its operands.
    pub fn new(imm: Imm13, rs2: Rs2, rs1: Rs1) -> (r: Self)
        ensures
            r == Self::spec_new(imm, rs2, rs1),
    {
        let data = FBInstructionData {
            imm,
            rs2,
            rs1,
            extended_imm: None,
            rs2_value: None,
            rs1_value: None,
            inst_count: None,
            origin_pc: None,
            jump_address: None,
        };
        Fbne { data }
    }

    /// Reads the operands: each register from the forwarding network when a value is
    /// forwarded for it, else from the register file.
    pub fn register_fetch(&mut self, core: &Core)
        requires
            core.wf(),
            old(self).regs_ok(),
        ensures
            *final(self) == old(self).fetched(core@),
    {
        self.data.extended_imm = Some(sign_extention_i16(self.data.imm, 13) as i32);
        self.data.inst_count = Some(core.get_cycle_count());
        self.data.origin_pc = Some(core.get_pc().wrapping_sub(8));
        let forwarding_source_1 = core.get_forwarding_float_source(self.data.rs1);
        if let Some(source) = forwarding_source_1 {
            self.data.rs1_value = Some(source.1);
        } else {
            self.data.rs1_value = Some(core.get_float_register(self.data.rs1 as usize));
        }
        let forwarding_source_2 = core.get_forwarding_float_source(self.data.rs2);
        if let Some(source) = forwarding_source_2 {
            self.data.rs2_value = Some(source.1);
        } else {
            self.data.rs2_value = Some(core.get_float_register(self.data.rs2 as usize));
        }
    }

    /// The execute stage.
    pub fn exec(&mut self, _core: &mut Core)
        requires
            old(_core).wf(),
            old(self).regs_ok(),
            old(self).ready(),
            old(self).exec_ok(old(_core)@),
        ensures
            final(_core).wf(),
            (*final(self), final(_core)@) == old(self).executed(old(_core)@),
    {
        let extended_imm = self.data.extended_imm.unwrap();
        let rs1_value = self.data.rs1_value.unwrap();
        let rs2_value = self.data.rs2_value.unwrap();
        if rs1_value != rs2_value {
            self.data.jump_address = Some((self.data.origin_pc.unwrap() as i32).wrapping_add(extended_imm << 2u32) as Address);
        }
    }

    /// The registers the instruction reads.
    pub fn get_source_registers(&self) -> (r: Vec<RegisterId>)
        ensures
            r@ == self.sources(),
    {
        let mut registers: Vec<RegisterId> = Vec::new();
        registers.push(RegisterId::Float(self.data.rs1));
        registers.push(RegisterId::Float(self.data.rs2));
        registers
    }

    /// The address to jump to, once the execute stage has decided to jump.
    pub fn get_jump_address(&self) -> (r: Option<Address>)
        ensures
            r == self.data.jump_address,
    {
        self.data.jump_address
    }

    /// The cycle in which the instruction read its operands, once it has.
    pub fn get_instruction_count(&self) -> (r: Option<InstructionCount>)
        ensures
            r == self.data.inst_count,
    {
        self.data.inst_count
    }

    /// The text of the instruction in assembly language.
    pub open spec fn assembly(self) -> Seq<u8> {
        ascii("fbne x"@) + decimal_text(self.data.rs1 as int) + ascii(", x"@) + decimal_text(self.data.rs2 as int) + ascii(", "@) + (match self.data.origin_pc { Some(pc) => decimal_text(pc as int), None => ascii("?"@) }) + ascii(" + "@) + decimal_text(spec_sign_extention_i16(self.data.imm, 13) * 4)
    }

    /// The text of the instruction in assembly language, in ASCII bytes.
    pub fn assembly_text(&self) -> (r: Vec<u8>)
        ensures
            r@ == self.assembly(),
    {
        let mut text: Vec<u8> = Vec::new();
        push_text(&mut text, "fbne x");
        let mut digits = decimal_bytes(self.data.rs1 as i64);
        text.append(&mut digits);
        push_text(&mut text, ", x");
        let mut digits = decimal_bytes(self.data.rs2 as i64);
        text.append(&mut digits);
        push_text(&mut text, ", ");
        match self.data.origin_pc {
            Some(pc) => {
                let mut digits = decimal_bytes(pc as i64);
                text.append(&mut digits);
            },
            None => {
                push_text(&mut text, "?");
            },
        }
        push_text(&mut text, " + ");
        let mut digits = decimal_bytes(sign_extention_i16(self.data.imm, 13) as i64 * 4);
        text.append(&mut digits);
        text
    }

    /// The mnemonic of the instruction.
    pub fn get_name(&self) -> (r: String)
        ensures
            r@ == "fbne"@,
    {
        String::from_str("fbne")
    }
}

/// Branches when the FPU orders `rs1` before `rs2`.
#[derive(Clone, Copy, Debug)]
pub struct Fblt {
    pub data: FBInstructionData,
}

impl Fblt {
    /// Whether the register numbers name registers that exist.
    pub open spec fn regs_ok(self) -> bool {
        self.data.rs2 < 64 && self.data.rs1 < 64
    }

    /// The instruction after reading its operands from `st`.
    pub open spec fn fetched(self, st: CoreState) -> Self {
        Self { data: FBInstructionData { extended_imm: Some(spec_sign_extention_i16(self.data.imm, 13) as i32), inst_count: Some(st.cycle_count), origin_pc: Some(vstd::wrapping::u32_specs::wrapping_sub(st.pc, 8)), rs1_value: Some(st.float_source(self.data.rs1)), rs2_value: Some(st.float_source(self.data.rs2)), ..self.data } }
    }

    /// Whether the instruction has read its operands.
    pub open spec fn ready(self) -> bool {
        self.data.extended_imm is Some && self.data.inst_count is Some && self.data.origin_pc is Some && self.data.rs1_value is Some && self.data.rs2_value is Some
    }

    /// Whether the machine state lets the instruction execute.
    pub open spec fn exec_ok(self, st: CoreState) -> bool {
        true
    }

    /// The instruction and the machine state after the execute stage.
    pub open spec fn executed(self, st: CoreState) -> (Self, CoreState) {
        let taken: bool = { let rs1_value = self.data.rs1_value->0; let rs2_value = self.data.rs2_value->0; fp_lt(rs1_value.value, rs2_value.value) };
        let target = vstd::wrapping::i32_specs::wrapping_add(self.data.origin_pc->0 as i32, self.data.extended_imm->0 << 2u32) as Address;
        (if taken { Self { data: FBInstructionData { jump_address: Some(target), ..self.data } } } else { self }, st)
    }

    /// Whether the instruction holds what the memory stage needs.
    pub open spec fn done_exec(self) -> bool {
        self.data.inst_count is Some
    }

    /// Whether the instruction holds what the write-back stage needs.
    pub open spec fn done_memory(self) -> bool {
        self.data.inst_count is Some
    }

    /// The registers the instruction reads.
    pub open spec fn sources(self) -> Seq<RegisterId> {
        seq![RegisterId::Float(self.data.rs1), RegisterId::Float(self.data.rs2)]
    }

    /// The register the instruction writes, if any.
    pub open spec fn destination(self) -> Option<RegisterId> {
        None
    }

    /// The instruction as decoded, before it reads its operands.
    pub open spec fn spec_new(imm: Imm13, rs2: Rs2, rs1: Rs1) -> Self {
        Self { data: FBInstructionData { imm: imm, rs2: rs2, rs1: rs1, extended_imm: None, rs2_value: None, rs1_value: None, inst_count: None, origin_pc: None, jump_address: None } }
    }

    /// The instruction as decoded, before it reads its operands.
    pub fn new(imm: Imm13, rs2: Rs2, rs1: Rs1) -> (r: Self)
        ensures
            r == Self::spec_new(imm, rs2, rs1),
    {
        let data = FBInstructionData {
            imm,
            rs2,
            rs1,
            extended_imm: None,
            rs2_value: None,
            rs1_value: None,
            inst_count: None,
            origin_pc: None,
            jump_address: None,
        };
        Fblt { data }
    }

    /// Reads the operands: each register from the forwarding network when a value is
    /// forwarded for it, else from the register file.
    pub fn register_fetch(&mut self, core: &Core)
        requires
            core.wf(),
            old(self).regs_ok(),
        ensures
            *final(self) == old(self).fetched(core@),
    {
        self.data.extended_imm = Some(sign_extention_i16(self.data.imm, 13) as i32);
        self.data.inst_count = Some(core.get_cycle_count());
        self.data.origin_pc = Some(core.get_pc().wrapping_sub(8));
        let forwarding_source_1 = core.get_forwarding_float_source(self.data.rs1);
        if let Some(source) = forwarding_source_1 {
            self.data.rs1_value = Some(source.1);
        } else {
            self.data.rs1_value = Some(core.get_float_register(self.data.rs1 as usize));
        }
        let forwarding_source_2 = core.get_forwarding_float_source(self.data.rs2);
        if let Some(source) = forwarding_source_2 {
            self.data.rs2_value = Some(source.1);
        } else {
            self.data.rs2_value = Some(core.get_float_register(self.data.rs2 as usize));
        }
    }

    /// The execute stage.
    pub fn exec(&mut self, _core: &mut Core)
        requires
            old(_core).wf(),
            old(self).regs_ok(),
            old(self).ready(),
            old(self).exec_ok(old(_core)@),
        ensures
            final(_core).wf(),
            (*final(self), final(_core)@) == old(self).executed(old(_core)@),
    {
        let extended_imm = self.data.extended_imm.unwrap();
        let rs1_value = self.data.rs1_value.unwrap();
        let rs2_value = self.data.rs2_value.unwrap();
        if rs1_value < rs2_value {
            self.data.jump_address = Some((self.data.origin_pc.unwrap() as i32).wrapping_add(extended_imm << 2u32) as Address);
        }
    }

    /// The registers the instruction reads.
    pub fn get_source_registers(&self) -> (r: Vec<RegisterId>)
        ensures
            r@ == self.sources(),
    {
        let mut registers: Vec<RegisterId> = Vec::new();
        registers.push(RegisterId::Float(self.data.rs1));
        registers.push(RegisterId::Float(self.data.rs2));
        registers
    }

    /// The address to jump to, once the execute stage has decided to jump.
    pub fn get_jump_address(&self) -> (r: Option<Address>)
        ensures
            r == self.data.jump_address,
    {
        self.data.jump_address
    }

    /// The cycle in which the instruction read its operands, once it has.
    pub fn get_instruction_count(&self) -> (r: Option<InstructionCount>)
        ensures
            r == self.data.inst_count,
    {
        self.data.inst_count
    }

    /// The text of the instruction in assembly language.
    pub open spec fn assembly(self) -> Seq<u8> {
        ascii("fblt x"@) + decimal_text(self.data.rs1 as int) + ascii(", x"@) + decimal_text(self.data.rs2 as int) + ascii(", "@) + (match self.data.origin_pc { Some(pc) => decimal_text(pc as int), None => ascii("?"@) }) + ascii(" + "@) + decimal_text(spec_sign_extention_i16(self.data.imm, 13) * 4)
    }

    /// The text of the instruction in assembly language, in ASCII bytes.
    pub fn assembly_text(&self) -> (r: Vec<u8>)
        ensures
            r@ == self.assembly(),
    {
        let mut text: Vec<u8> = Vec::new();
        push_text(&mut text, "fblt x");
        let mut digits = decimal_bytes(self.data.rs1 as i64);
        text.append(&mut digits);
        push_text(&mut text, ", x");
        let mut digits = decimal_bytes(self.data.rs2 as i64);
        text.append(&mut digits);
        push_text(&mut text, ", ");
        match self.data.origin_pc {
            Some(pc) => {
                let mut digits = decimal_bytes(pc as i64);
                text.append(&mut digits);
            },
            None => {
                push_text(&mut text, "?");
            },
        }
        push_text(&mut text, " + ");
        let mut digits = decimal_bytes(sign_extention_i16(self.data.imm, 13) as i64 * 4);
        text.append(&mut digits);
        text
    }

    /// The mnemonic of the instruction.
    pub fn get_name(&self) -> (r: String)
        ensures
            r@ == "fblt"@,
    {
        String::from_str("fblt")
    }
}

/// Branches when the FPU orders `rs1` before or equal to `rs2`.
#[derive(Clone, Copy, Debug)]
pub struct Fble {
    pub data: FBInstructionData,
}

impl Fble {
    /// Whether the register numbers name registers that exist.
    pub open spec fn regs_ok(self) -> bool {
        self.data.rs2 < 64 && self.data.rs1 < 64
    }

    /// The instruction after reading its operands from `st`.
    pub open spec fn fetched(self, st: CoreState) -> Self {
        Self { data: FBInstructionData { extended_imm: Some(spec_sign_extention_i16(self.data.imm, 13) as i32), inst_count: Some(st.cycle_count), origin_pc: Some(vstd::wrapping::u32_specs::wrapping_sub(st.pc, 8)), rs1_value: Some(st.float_source(self.data.rs1)), rs2_value: Some(st.float_source(self.data.rs2)), ..self.data } }
    }

    /// Whether the instruction has read its operands.
    pub open spec fn ready(self) -> bool {
        self.data.extended_imm is Some && self.data.inst_count is Some && self.data.origin_pc is Some && self.data.rs1_value is Some && self.data.rs2_value is Some
    }

    /// Whether the machine state lets the instruction execute.
    pub open spec fn exec_ok(self, st: CoreState) -> bool {
        true
    }

    /// The instruction and the machine state after the execute stage.
    pub open spec fn executed(self, st: CoreState) -> (Self, CoreState) {
        let taken: bool = { let rs1_value = self.data.rs1_value->0; let rs2_value = self.data.rs2_value->0; fp_le(rs1_value.value, rs2_value.value) };
        let target = vstd::wrapping::i32_specs::wrapping_add(self.data.origin_pc->0 as i32, self.data.extended_imm->0 << 2u32) as Address;
        (if taken { Self { data: FBInstructionData { jump_address: Some(target), ..self.data } } } else { self }, st)
    }

    /// Whether the instruction holds what the memory stage needs.
    pub open spec fn done_exec(self) -> bool {
        self.data.inst_count is Some
    }

    /// Whether the instruction holds what the write-back stage needs.
    pub open spec fn done_memory(self) -> bool {
        self.data.inst_count is Some
    }

    /// The registers the instruction reads.
    pub open spec fn sources(self) -> Seq<RegisterId> {
        seq![RegisterId::Float(self.data.rs1), RegisterId::Float(self.data.rs2)]
    }

    /// The register the instruction writes, if any.
    pub open spec fn destination(self) -> Option<RegisterId> {
        None
    }

    /// The instruction as decoded, before it reads its operands.
    pub open spec fn spec_new(imm: Imm13, rs2: Rs2, rs1: Rs1) -> Self {
        Self { data: FBInstructionData { imm: imm, rs2: rs2, rs1: rs1, extended_imm: None, rs2_value: None, rs1_value: None, inst_count: None, origin_pc: None, jump_address: None } }
    }

    /// The instruction as decoded, before it reads its operands.
    pub fn new(imm: Imm13, rs2: Rs2, rs1: Rs1) -> (r: Self)
        ensures
            r == Self::spec_new(imm, rs2, rs1),
    {
        let data = FBInstructionData {
            imm,
            rs2,
            rs1,
            extended_imm: None,
            rs2_value: None,
            rs1_value: None,
            inst_count: None,
            origin_pc: None,
            jump_address: None,
        };
        Fble { data }
    }

    /// Reads the operands: each register from the forwarding network when a value is
    /// forwarded for it, else from the register file.
    pub fn register_fetch(&mut self, core: &Core)
        requires
            core.wf(),
            old(self).regs_ok(),
        ensures
            *final(self) == old(self).fetched(core@),
    {
        self.data.extended_imm = Some(sign_extention_i16(self.data.imm, 13) as i32);
        self.data.inst_count = Some(core.get_cycle_count());
        self.data.origin_pc = Some(core.get_pc().wrapping_sub(8));
        let forwarding_source_1 = core.get_forwarding_float_source(self.data.rs1);
        if let Some(source) = forwarding_source_1 {
            self.data.rs1_value = Some(source.1);
        } else {
            self.data.rs1_value = Some(core.get_float_register(self.data.rs1 as usize));
        }
        let forwarding_source_2 = core.get_forwarding_float_source(self.data.rs2);
        if let Some(source) = forwarding_source_2 {
            self.data.rs2_value = Some(source.1);
        } else {
            self.data.rs2_value = Some(core.get_float_register(self.data.rs2 as usize));
        }
    }

    /// The execute stage.
    pub fn exec(&mut self, _core: &mut Core)
        requires
            old(_core).wf(),
            old(self).regs_ok(),
            old(self).ready(),
            old(self).exec_ok(old(_core)@),
        ensures
            final(_core).wf(),
            (*final(self), final(_core)@) == old(self).executed(old(_core)@),
    {
        let extended_imm = self.data.extended_imm.unwrap();
        let rs1_value = self.data.rs1_value.unwrap();
        let rs2_value = self.data.rs2_value.unwrap();
        if rs1_value <= rs2_value {
            self.data.jump_address = Some((self.data.origin_pc.unwrap() as i32).wrapping_add(extended_imm << 2u32) as Address);
        }
    }

    /// The registers the instruction reads.
    pub fn get_source_registers(&self) -> (r: Vec<RegisterId>)
        ensures
            r@ == self.sources(),
    {
        let mut registers: Vec<RegisterId> = Vec::new();
        registers.push(RegisterId::Float(self.data.rs1));
        registers.push(RegisterId::Float(self.data.rs2));
        registers
    }

    /// The address to jump to, once the execute stage has decided to jump.
    pub fn get_jump_address(&self) -> (r: Option<Address>)
        ensures
            r == self.data.jump_address,
    {
        self.data.jump_address
    }

    /// The cycle in which the instruction read its operands, once it has.
    pub fn get_instruction_count(&self) -> (r: Option<InstructionCount>)
        ensures
            r == self.data.inst_count,
    {
        self.data.inst_count
    }

    /// The text of the instruction in assembly language.
    pub open spec fn assembly(self) -> Seq<u8> {
        ascii("fble x"@) + decimal_text(self.data.rs1 as int) + ascii(", x"@) + decimal_text(self.data.rs2 as int) + ascii(", "@) + (match self.data.origin_pc { Some(pc) => decimal_text(pc as int), None => ascii("?"@) }) + ascii(" + "@) + decimal_text(spec_sign_extention_i16(self.data.imm, 13) * 4)
    }

    /// The text of the instruction in assembly language, in ASCII bytes.
    pub fn assembly_text(&self) -> (r: Vec<u8>)
        ensures
            r@ == self.assembly(),
    {
        let mut text: Vec<u8> = Vec::new();
        push_text(&mut text, "fble x");
        let mut digits = decimal_bytes(self.data.rs1 as i64);
        text.append(&mut digits);
        push_text(&mut text, ", x");
        let mut digits = decimal_bytes(self.data.rs2 as i64);
        text.append(&mut digits);
        push_text(&mut text, ", ");
        match self.data.origin_pc {
            Some(pc) => {
                let mut digits = decimal_bytes(pc as i64);
                text.append(&mut digits);
            },
            None => {
                push_text(&mut text, "?");
            },
        }
        push_text(&mut text, " + ");
        let mut digits = decimal_bytes(sign_extention_i16(self.data.imm, 13) as i64 * 4);
        text.append(&mut digits);
        text
    }

    /// The mnemonic of the instruction.
    pub fn get_name(&self) -> (r: String)
        ensures
            r@ == "fble"@,
    {
        String::from_str("fble")
    }
}

/// Ends the program when it writes back.
#[derive(Clone, Copy, Debug)]
pub struct End {
    pub inst_count: Option<InstructionCount>,
}

impl End {
    /// Whether the register numbers name registers that exist.
    pub open spec fn regs_ok(self) -> bool {
        true
    }

    /// The instruction after reading its operands from `st`.
    pub open spec fn fetched(self, st: CoreState) -> Self {
        Self { inst_count: Some(st.cycle_count) }
    }

    /// Whether the instruction has read its operands.
    pub open spec fn ready(self) -> bool {
        self.inst_count is Some
    }

    /// Whether the instruction holds what the memory stage needs.
    pub open spec fn done_exec(self) -> bool {
        self.inst_count is Some
    }

    /// Whether the instruction holds what the write-back stage needs.
    pub open spec fn done_memory(self) -> bool {
        self.inst_count is Some
    }

    /// The machine state after the write-back stage.
    pub open spec fn written_back(self, st: CoreState) -> CoreState {
        st.ended()
    }

    /// The registers the instruction reads.
    pub open spec fn sources(self) -> Seq<RegisterId> {
        Seq::empty()
    }

    /// The register the instruction writes, if any.
    pub open spec fn destination(self) -> Option<RegisterId> {
        None
    }

    /// The instruction as decoded, before it reads its operands.
    pub open spec fn spec_new() -> Self {
        Self { inst_count: None }
    }

    /// The instruction as decoded, before it reads its operands.
    pub fn new() -> (r: Self)
        ensures
            r == Self::spec_new(),
    {
        End { inst_count: None }
    }

    /// Reads the operands: each register from the forwarding network when a value is
    /// forwarded for it, else from the register file.
    pub fn register_fetch(&mut self, core: &Core)
        requires
            core.wf(),
            old(self).regs_ok(),
        ensures
            *final(self) == old(self).fetched(core@),
    {
        self.inst_count = Some(core.get_cycle_count());
    }

    /// The write-back stage.
    pub fn write_back(&self, core: &mut Core)
        requires
            old(core).wf(),
            self.regs_ok(),
            self.done_memory(),
        ensures
            final(core).wf(),
            final(core)@ == self.written_back(old(core)@),
    {
        core.end();
    }

    /// The cycle in which the instruction read its operands, once it has.
    pub fn get_instruction_count(&self) -> (r: Option<InstructionCount>)
        ensures
            r == self.inst_count,
    {
        self.inst_count
    }

    /// The text of the instruction in assembly language.
    pub open spec fn assembly(self) -> Seq<u8> {
        ascii("end"@)
    }

    /// The text of the instruction in assembly language, in ASCII bytes.
    pub fn assembly_text(&self) -> (r: Vec<u8>)
        ensures
            r@ == self.assembly(),
    {
        let mut text: Vec<u8> = Vec::new();
        push_text(&mut text, "end");
        text
    }

    /// The mnemonic of the instruction.
    pub fn get_name(&self) -> (r: String)
        ensures
            r@ == "end"@,
    {
        String::from_str("end")
    }
}

/// An instruction of the machine, with what the pipeline stages have computed of it.
#[derive(Clone, Copy, Debug)]
pub enum InstructionEnum {
    Lw(Lw),
    Addi(Addi),
    Slli(Slli),
    Slti(Slti),
    Xori(Xori),
    Srli(Srli),
    Srai(Srai),
    Ori(Ori),
    Andi(Andi),
    Sw(Sw),
    Add(Add),
    Sub(Sub),
    Sll(Sll),
    Slt(Slt),
    Xor(Xor),
    Srl(Srl),
    Sra(Sra),
    Or(Or),
    And(And),
    Lui(Lui),
    Beq(Beq),
    Bne(Bne),
    Blt(Blt),
    Bge(Bge),
    Jalr(Jalr),
    Jal(Jal),
    Flw(Flw),
    Fadd(Fadd),
    Fsub(Fsub),
    Fmul(Fmul),
    Fdiv(Fdiv),
    Fsqrt(Fsqrt),
    Fsgnj(Fsgnj),
    Fsgnjn(Fsgnjn),
    Fsgnjx(Fsgnjx),
    Feq(Feq),
    Flt(Flt),
    Fle(Fle),
    FcvtWS(FcvtWS),
    FcvtSW(FcvtSW),
    Fsw(Fsw),
    In(In),
    Fin(Fin),
    Outchar(Outchar),
    Outint(Outint),
    Fbeq(Fbeq),
    Fbne(Fbne),
    Fblt(Fblt),
    Fble(Fble),
    End(End),
}

/// Whether the register numbers of `inst` name registers that exist.
pub open spec fn inst_regs_ok(inst: InstructionEnum) -> bool {
    match inst {
        InstructionEnum::Lw(i) => i.regs_ok(),
        InstructionEnum::Addi(i) => i.regs_ok(),
        InstructionEnum::Slli(i) => i.regs_ok(),
        InstructionEnum::Slti(i) => i.regs_ok(),
        InstructionEnum::Xori(i) => i.regs_ok(),
        InstructionEnum::Srli(i) => i.regs_ok(),
        InstructionEnum::Srai(i) => i.regs_ok(),
        InstructionEnum::Ori(i) => i.regs_ok(),
        InstructionEnum::Andi(i) => i.regs_ok(),
        InstructionEnum::Sw(i) => i.regs_ok(),
        InstructionEnum::Add(i) => i.regs_ok(),
        InstructionEnum::Sub(i) => i.regs_ok(),
        InstructionEnum::Sll(i) => i.regs_ok(),
        InstructionEnum::Slt(i) => i.regs_ok(),
        InstructionEnum::Xor(i) => i.regs_ok(),
        InstructionEnum::Srl(i) => i.regs_ok(),
        InstructionEnum::Sra(i) => i.regs_ok(),
        InstructionEnum::Or(i) => i.regs_ok(),
        InstructionEnum::And(i) => i.regs_ok(),
        InstructionEnum::Lui(i) => i.regs_ok(),
        InstructionEnum::Beq(i) => i.regs_ok(),
        InstructionEnum::Bne(i) => i.regs_ok(),
        InstructionEnum::Blt(i) => i.regs_ok(),
        InstructionEnum::Bge(i) => i.regs_ok(),
        InstructionEnum::Jalr(i) => i.regs_ok(),
        InstructionEnum::Jal(i) => i.regs_ok(),
        InstructionEnum::Flw(i) => i.regs_ok(),
        InstructionEnum::Fadd(i) => i.regs_ok(),
        InstructionEnum::Fsub(i) => i.regs_ok(),
        InstructionEnum::Fmul(i) => i.regs_ok(),
        InstructionEnum::Fdiv(i) => i.regs_ok(),
        InstructionEnum::Fsqrt(i) => i.regs_ok(),
        InstructionEnum::Fsgnj(i) => i.regs_ok(),
        InstructionEnum::Fsgnjn(i) => i.regs_ok(),
        InstructionEnum::Fsgnjx(i) => i.regs_ok(),
        InstructionEnum::Feq(i) => i.regs_ok(),
        InstructionEnum::Flt(i) => i.regs_ok(),
        InstructionEnum::Fle(i) => i.regs_ok(),
        InstructionEnum::FcvtWS(i) => i.regs_ok(),
        InstructionEnum::FcvtSW(i) => i.regs_ok(),
        InstructionEnum::Fsw(i) => i.regs_ok(),
        InstructionEnum::In(i) => i.regs_ok(),
        InstructionEnum::Fin(i) => i.regs_ok(),
        InstructionEnum::Outchar(i) => i.regs_ok(),
        InstructionEnum::Outint(i) => i.regs_ok(),
        InstructionEnum::Fbeq(i) => i.regs_ok(),
        InstructionEnum::Fbne(i) => i.regs_ok(),
        InstructionEnum::Fblt(i) => i.regs_ok(),
        InstructionEnum::Fble(i) => i.regs_ok(),
        InstructionEnum::End(i) => i.regs_ok(),
    }
}

/// `inst` after reading its operands from `st`.
pub open spec fn fetched_inst(inst: InstructionEnum, st: CoreState) -> InstructionEnum {
    match inst {
        InstructionEnum::Lw(i) => InstructionEnum::Lw(i.fetched(st)),
        InstructionEnum::Addi(i) => InstructionEnum::Addi(i.fetched(st)),
        InstructionEnum::Slli(i) => InstructionEnum::Slli(i.fetched(st)),
        InstructionEnum::Slti(i) => InstructionEnum::Slti(i.fetched(st)),
        InstructionEnum::Xori(i) => InstructionEnum::Xori(i.fetched(st)),
        InstructionEnum::Srli(i) => InstructionEnum::Srli(i.fetched(st)),
        InstructionEnum::Srai(i) => InstructionEnum::Srai(i.fetched(st)),
        InstructionEnum::Ori(i) => InstructionEnum::Ori(i.fetched(st)),
        InstructionEnum::Andi(i) => InstructionEnum::Andi(i.fetched(st)),
        InstructionEnum::Sw(i) => InstructionEnum::Sw(i.fetched(st)),
        InstructionEnum::Add(i) => InstructionEnum::Add(i.fetched(st)),
        InstructionEnum::Sub(i) => InstructionEnum::Sub(i.fetched(st)),
        InstructionEnum::Sll(i) => InstructionEnum::Sll(i.fetched(st)),
        InstructionEnum::Slt(i) => InstructionEnum::Slt(i.fetched(st)),
        InstructionEnum::Xor(i) => InstructionEnum::Xor(i.fetched(st)),
        InstructionEnum::Srl(i) => InstructionEnum::Srl(i.fetched(st)),
        InstructionEnum::Sra(i) => InstructionEnum::Sra(i.fetched(st)),
        InstructionEnum::Or(i) => InstructionEnum::Or(i.fetched(st)),
        InstructionEnum::And(i) => InstructionEnum::And(i.fetched(st)),
        InstructionEnum::Lui(i) => InstructionEnum::Lui(i.fetched(st)),
        InstructionEnum::Beq(i) => InstructionEnum::Beq(i.fetched(st)),
        InstructionEnum::Bne(i) => InstructionEnum::Bne(i.fetched(st)),
        InstructionEnum::Blt(i) => InstructionEnum::Blt(i.fetched(st)),
        InstructionEnum::Bge(i) => InstructionEnum::Bge(i.fetched(st)),
        InstructionEnum::Jalr(i) => InstructionEnum::Jalr(i.fetched(st)),
        InstructionEnum::Jal(i) => InstructionEnum::Jal(i.fetched(st)),
        InstructionEnum::Flw(i) => InstructionEnum::Flw(i.fetched(st)),
        InstructionEnum::Fadd(i) => InstructionEnum::Fadd(i.fetched(st)),
        InstructionEnum::Fsub(i) => InstructionEnum::Fsub(i.fetched(st)),
        InstructionEnum::Fmul(i) => InstructionEnum::Fmul(i.fetched(st)),
        InstructionEnum::Fdiv(i) => InstructionEnum::Fdiv(i.fetched(st)),
        InstructionEnum::Fsqrt(i) => InstructionEnum::Fsqrt(i.fetched(st)),
        InstructionEnum::Fsgnj(i) => InstructionEnum::Fsgnj(i.fetched(st)),
        InstructionEnum::Fsgnjn(i) => InstructionEnum::Fsgnjn(i.fetched(st)),
        InstructionEnum::Fsgnjx(i) => InstructionEnum::Fsgnjx(i.fetched(st)),
        InstructionEnum::Feq(i) => InstructionEnum::Feq(i.fetched(st)),
        InstructionEnum::Flt(i) => InstructionEnum::Flt(i.fetched(st)),
        InstructionEnum::Fle(i) => InstructionEnum::Fle(i.fetched(st)),
        InstructionEnum::FcvtWS(i) => InstructionEnum::FcvtWS(i.fetched(st)),
        InstructionEnum::FcvtSW(i) => InstructionEnum::FcvtSW(i.fetched(st)),
        InstructionEnum::Fsw(i) => InstructionEnum::Fsw(i.fetched(st)),
        InstructionEnum::In(i) => InstructionEnum::In(i.fetched(st)),
        InstructionEnum::Fin(i) => InstructionEnum::Fin(i.fetched(st)),
        InstructionEnum::Outchar(i) => InstructionEnum::Outchar(i.fetched(st)),
        InstructionEnum::Outint(i) => InstructionEnum::Outint(i.fetched(st)),
        InstructionEnum::Fbeq(i) => InstructionEnum::Fbeq(i.fetched(st)),
        InstructionEnum::Fbne(i) => InstructionEnum::Fbne(i.fetched(st)),
        InstructionEnum::Fblt(i) => InstructionEnum::Fblt(i.fetched(st)),
        InstructionEnum::Fble(i) => InstructionEnum::Fble(i.fetched(st)),
        InstructionEnum::End(i) => InstructionEnum::End(i.fetched(st)),
    }
}

/// Whether `inst` has read its operands.
pub open spec fn inst_ready(inst: InstructionEnum) -> bool {
    match inst {
        InstructionEnum::Lw(i) => i.ready(),
        InstructionEnum::Addi(i) => i.ready(),
        InstructionEnum::Slli(i) => i.ready(),
        InstructionEnum::Slti(i) => i.ready(),
        InstructionEnum::Xori(i) => i.ready(),
        InstructionEnum::Srli(i) => i.ready(),
        InstructionEnum::Srai(i) => i.ready(),
        InstructionEnum::Ori(i) => i.ready(),
        InstructionEnum::Andi(i) => i.ready(),
        InstructionEnum::Sw(i) => i.ready(),
        InstructionEnum::Add(i) => i.ready(),
        InstructionEnum::Sub(i) => i.ready(),
        InstructionEnum::Sll(i) => i.ready(),
        InstructionEnum::Slt(i) => i.ready(),
        InstructionEnum::Xor(i) => i.ready(),
        InstructionEnum::Srl(i) => i.ready(),
        InstructionEnum::Sra(i) => i.ready(),
        InstructionEnum::Or(i) => i.ready(),
        InstructionEnum::And(i) => i.ready(),
        InstructionEnum::Lui(i) => i.ready(),
        InstructionEnum::Beq(i) => i.ready(),
        InstructionEnum::Bne(i) => i.ready(),
        InstructionEnum::Blt(i) => i.ready(),
        InstructionEnum::Bge(i) => i.ready(),
        InstructionEnum::Jalr(i) => i.ready(),
        InstructionEnum::Jal(i) => i.ready(),
        InstructionEnum::Flw(i) => i.ready(),
        InstructionEnum::Fadd(i) => i.ready(),
        InstructionEnum::Fsub(i) => i.ready(),
        InstructionEnum::Fmul(i) => i.ready(),
        InstructionEnum::Fdiv(i) => i.ready(),
        InstructionEnum::Fsqrt(i) => i.ready(),
        InstructionEnum::Fsgnj(i) => i.ready(),
        InstructionEnum::Fsgnjn(i) => i.ready(),
        InstructionEnum::Fsgnjx(i) => i.ready(),
        InstructionEnum::Feq(i) => i.ready(),
        InstructionEnum::Flt(i) => i.ready(),
        InstructionEnum::Fle(i) => i.ready(),
        InstructionEnum::FcvtWS(i) => i.ready(),
        InstructionEnum::FcvtSW(i) => i.ready(),
        InstructionEnum::Fsw(i) => i.ready(),
        InstructionEnum::In(i) => i.ready(),
        InstructionEnum::Fin(i) => i.ready(),
        InstructionEnum::Outchar(i) => i.ready(),
        InstructionEnum::Outint(i) => i.ready(),
        InstructionEnum::Fbeq(i) => i.ready(),
        InstructionEnum::Fbne(i) => i.ready(),
        InstructionEnum::Fblt(i) => i.ready(),
        InstructionEnum::Fble(i) => i.ready(),
        InstructionEnum::End(i) => i.ready(),
    }
}

/// Whether the execute stage can run `inst` on `st`: the machine has no execute stage for
/// the floating-point operations other than addition and comparison, and input must be left.
pub open spec fn can_exec(inst: InstructionEnum, st: CoreState) -> bool {
    match inst {
        InstructionEnum::Lw(i) => i.exec_ok(st),
        InstructionEnum::Addi(i) => i.exec_ok(st),
        InstructionEnum::Slli(i) => i.exec_ok(st),
        InstructionEnum::Slti(i) => i.exec_ok(st),
        InstructionEnum::Xori(i) => i.exec_ok(st),
        InstructionEnum::Srli(i) => i.exec_ok(st),
        InstructionEnum::Srai(i) => i.exec_ok(st),
        InstructionEnum::Ori(i) => i.exec_ok(st),
        InstructionEnum::Andi(i) => i.exec_ok(st),
        InstructionEnum::Sw(i) => i.exec_ok(st),
        InstructionEnum::Add(i) => i.exec_ok(st),
        InstructionEnum::Sub(i) => i.exec_ok(st),
        InstructionEnum::Sll(i) => i.exec_ok(st),
        InstructionEnum::Slt(i) => i.exec_ok(st),
        InstructionEnum::Xor(i) => i.exec_ok(st),
        InstructionEnum::Srl(i) => i.exec_ok(st),
        InstructionEnum::Sra(i) => i.exec_ok(st),
        InstructionEnum::Or(i) => i.exec_ok(st),
        InstructionEnum::And(i) => i.exec_ok(st),
        InstructionEnum::Lui(i) => i.exec_ok(st),
        InstructionEnum::Beq(i) => i.exec_ok(st),
        InstructionEnum::Bne(i) => i.exec_ok(st),
        InstructionEnum::Blt(i) => i.exec_ok(st),
        InstructionEnum::Bge(i) => i.exec_ok(st),
        InstructionEnum::Jalr(i) => i.exec_ok(st),
        InstructionEnum::Jal(i) => i.exec_ok(st),
        InstructionEnum::Flw(i) => i.exec_ok(st),
        InstructionEnum::Fadd(i) => i.exec_ok(st),
        InstructionEnum::Fsub(i) => false,
        InstructionEnum::Fmul(i) => false,
        InstructionEnum::Fdiv(i) => false,
        InstructionEnum::Fsqrt(i) => false,
        InstructionEnum::Fsgnj(i) => false,
        InstructionEnum::Fsgnjn(i) => false,
        InstructionEnum::Fsgnjx(i) => false,
        InstructionEnum::Feq(i) => i.exec_ok(st),
        InstructionEnum::Flt(i) => i.exec_ok(st),
        InstructionEnum::Fle(i) => i.exec_ok(st),
        InstructionEnum::FcvtWS(i) => false,
        InstructionEnum::FcvtSW(i) => false,
        InstructionEnum::Fsw(i) => i.exec_ok(st),
        InstructionEnum::In(i) => i.exec_ok(st),
        InstructionEnum::Fin(i) => i.exec_ok(st),
        InstructionEnum::Outchar(i) => i.exec_ok(st),
        InstructionEnum::Outint(i) => i.exec_ok(st),
        InstructionEnum::Fbeq(i) => i.exec_ok(st),
        InstructionEnum::Fbne(i) => i.exec_ok(st),
        InstructionEnum::Fblt(i) => i.exec_ok(st),
        InstructionEnum::Fble(i) => i.exec_ok(st),
        InstructionEnum::End(i) => true,
    }
}

/// `inst` and the machine state after the execute stage.
pub open spec fn executed_inst(inst: InstructionEnum, st: CoreState) -> (InstructionEnum, CoreState) {
    match inst {
        InstructionEnum::Lw(i) => { let (j, next) = i.executed(st); (InstructionEnum::Lw(j), next) },
        InstructionEnum::Addi(i) => { let (j, next) = i.executed(st); (InstructionEnum::Addi(j), next) },
        InstructionEnum::Slli(i) => { let (j, next) = i.executed(st); (InstructionEnum::Slli(j), next) },
        InstructionEnum::Slti(i) => { let (j, next) = i.executed(st); (InstructionEnum::Slti(j), next) },
        InstructionEnum::Xori(i) => { let (j, next) = i.executed(st); (InstructionEnum::Xori(j), next) },
        InstructionEnum::Srli(i) => { let (j, next) = i.executed(st); (InstructionEnum::Srli(j), next) },
        InstructionEnum::Srai(i) => { let (j, next) = i.executed(st); (InstructionEnum::Srai(j), next) },
        InstructionEnum::Ori(i) => { let (j, next) = i.executed(st); (InstructionEnum::Ori(j), next) },
        InstructionEnum::Andi(i) => { let (j, next) = i.executed(st); (InstructionEnum::Andi(j), next) },
        InstructionEnum::Sw(i) => { let (j, next) = i.executed(st); (InstructionEnum::Sw(j), next) },
        InstructionEnum::Add(i) => { let (j, next) = i.executed(st); (InstructionEnum::Add(j), next) },
        InstructionEnum::Sub(i) => { let (j, next) = i.executed(st); (InstructionEnum::Sub(j), next) },
        InstructionEnum::Sll(i) => { let (j, next) = i.executed(st); (InstructionEnum::Sll(j), next) },
        InstructionEnum::Slt(i) => { let (j, next) = i.executed(st); (InstructionEnum::Slt(j), next) },
        InstructionEnum::Xor(i) => { let (j, next) = i.executed(st); (InstructionEnum::Xor(j), next) },
        InstructionEnum::Srl(i) => { let (j, next) = i.executed(st); (InstructionEnum::Srl(j), next) },
        InstructionEnum::Sra(i) => { let (j, next) = i.executed(st); (InstructionEnum::Sra(j), next) },
        InstructionEnum::Or(i) => { let (j, next) = i.executed(st); (InstructionEnum::Or(j), next) },
        InstructionEnum::And(i) => { let (j, next) = i.executed(st); (InstructionEnum::And(j), next) },
        InstructionEnum::Lui(i) => { let (j, next) = i.executed(st); (InstructionEnum::Lui(j), next) },
        InstructionEnum::Beq(i) => { let (j, next) = i.executed(st); (InstructionEnum::Beq(j), next) },
        InstructionEnum::Bne(i) => { let (j, next) = i.executed(st); (InstructionEnum::Bne(j), next) },
        InstructionEnum::Blt(i) => { let (j, next) = i.executed(st); (InstructionEnum::Blt(j), next) },
        InstructionEnum::Bge(i) => { let (j, next) = i.executed(st); (InstructionEnum::Bge(j), next) },
        InstructionEnum::Jalr(i) => { let (j, next) = i.executed(st); (InstructionEnum::Jalr(j), next) },
        InstructionEnum::Jal(i) => { let (j, next) = i.executed(st); (InstructionEnum::Jal(j), next) },
        InstructionEnum::Flw(i) => { let (j, next) = i.executed(st); (InstructionEnum::Flw(j), next) },
        InstructionEnum::Fadd(i) => { let (j, next) = i.executed(st); (InstructionEnum::Fadd(j), next) },
        InstructionEnum::Fsub(i) => (inst, st),
        InstructionEnum::Fmul(i) => (inst, st),
        InstructionEnum::Fdiv(i) => (inst, st),
        InstructionEnum::Fsqrt(i) => (inst, st),
        InstructionEnum::Fsgnj(i) => (inst, st),
        InstructionEnum::Fsgnjn(i) => (inst, st),
        InstructionEnum::Fsgnjx(i) => (inst, st),
        InstructionEnum::Feq(i) => { let (j, next) = i.executed(st); (InstructionEnum::Feq(j), next) },
        InstructionEnum::Flt(i) => { let (j, next) = i.executed(st); (InstructionEnum::Flt(j), next) },
        InstructionEnum::Fle(i) => { let (j, next) = i.executed(st); (InstructionEnum::Fle(j), next) },
        InstructionEnum::FcvtWS(i) => (inst, st),
        InstructionEnum::FcvtSW(i) => (inst, st),
        InstructionEnum::Fsw(i) => { let (j, next) = i.executed(st); (InstructionEnum::Fsw(j), next) },
        InstructionEnum::In(i) => { let (j, next) = i.executed(st); (InstructionEnum::In(j), next) },
        InstructionEnum::Fin(i) => { let (j, next) = i.executed(st); (InstructionEnum::Fin(j), next) },
        InstructionEnum::Outchar(i) => { let (j, next) = i.executed(st); (InstructionEnum::Outchar(j), next) },
        InstructionEnum::Outint(i) => { let (j, next) = i.executed(st); (InstructionEnum::Outint(j), next) },
        InstructionEnum::Fbeq(i) => { let (j, next) = i.executed(st); (InstructionEnum::Fbeq(j), next) },
        InstructionEnum::Fbne(i) => { let (j, next) = i.executed(st); (InstructionEnum::Fbne(j), next) },
        InstructionEnum::Fblt(i) => { let (j, next) = i.executed(st); (InstructionEnum::Fblt(j), next) },
        InstructionEnum::Fble(i) => { let (j, next) = i.executed(st); (InstructionEnum::Fble(j), next) },
        InstructionEnum::End(i) => (inst, st),
    }
}

/// Whether `inst` holds what the memory stage needs.
pub open spec fn inst_done_exec(inst: InstructionEnum) -> bool {
    match inst {
        InstructionEnum::Lw(i) => i.done_exec(),
        InstructionEnum::Addi(i) => i.done_exec(),
        InstructionEnum::Slli(i) => i.done_exec(),
        InstructionEnum::Slti(i) => i.done_exec(),
        InstructionEnum::Xori(i) => i.done_exec(),
        InstructionEnum::Srli(i) => i.done_exec(),
        InstructionEnum::Srai(i) => i.done_exec(),
        InstructionEnum::Ori(i) => i.done_exec(),
        InstructionEnum::Andi(i) => i.done_exec(),
        InstructionEnum::Sw(i) => i.done_exec(),
        InstructionEnum::Add(i) => i.done_exec(),
        InstructionEnum::Sub(i) => i.done_exec(),
        InstructionEnum::Sll(i) => i.done_exec(),
        InstructionEnum::Slt(i) => i.done_exec(),
        InstructionEnum::Xor(i) => i.done_exec(),
        InstructionEnum::Srl(i) => i.done_exec(),
        InstructionEnum::Sra(i) => i.done_exec(),
        InstructionEnum::Or(i) => i.done_exec(),
        InstructionEnum::And(i) => i.done_exec(),
        InstructionEnum::Lui(i) => i.done_exec(),
        InstructionEnum::Beq(i) => i.done_exec(),
        InstructionEnum::Bne(i) => i.done_exec(),
        InstructionEnum::Blt(i) => i.done_exec(),
        InstructionEnum::Bge(i) => i.done_exec(),
        InstructionEnum::Jalr(i) => i.done_exec(),
        InstructionEnum::Jal(i) => i.done_exec(),
        InstructionEnum::Flw(i) => i.done_exec(),
        InstructionEnum::Fadd(i) => i.done_exec(),
        InstructionEnum::Fsub(i) => i.done_exec(),
        InstructionEnum::Fmul(i) => i.done_exec(),
        InstructionEnum::Fdiv(i) => i.done_exec(),
        InstructionEnum::Fsqrt(i) => i.done_exec(),
        InstructionEnum::Fsgnj(i) => i.done_exec(),
        InstructionEnum::Fsgnjn(i) => i.done_exec(),
        InstructionEnum::Fsgnjx(i) => i.done_exec(),
        InstructionEnum::Feq(i) => i.done_exec(),
        InstructionEnum::Flt(i) => i.done_exec(),
        InstructionEnum::Fle(i) => i.done_exec(),
        InstructionEnum::FcvtWS(i) => i.done_exec(),
        InstructionEnum::FcvtSW(i) => i.done_exec(),
        InstructionEnum::Fsw(i) => i.done_exec(),
        InstructionEnum::In(i) => i.done_exec(),
        InstructionEnum::Fin(i) => i.done_exec(),
        InstructionEnum::Outchar(i) => i.done_exec(),
        InstructionEnum::Outint(i) => i.done_exec(),
        InstructionEnum::Fbeq(i) => i.done_exec(),
        InstructionEnum::Fbne(i) => i.done_exec(),
        InstructionEnum::Fblt(i) => i.done_exec(),
        InstructionEnum::Fble(i) => i.done_exec(),
        InstructionEnum::End(i) => i.done_exec(),
    }
}

/// Whether the memory stage can run `inst` on `st`.
pub open spec fn can_access_memory(inst: InstructionEnum, st: CoreState) -> bool {
    match inst {
        InstructionEnum::Lw(i) => i.memory_ok(st),
        InstructionEnum::Addi(i) => true,
        InstructionEnum::Slli(i) => true,
        InstructionEnum::Slti(i) => true,
        InstructionEnum::Xori(i) => true,
        InstructionEnum::Srli(i) => true,
        InstructionEnum::Srai(i) => true,
        InstructionEnum::Ori(i) => true,
        InstructionEnum::Andi(i) => true,
        InstructionEnum::Sw(i) => i.memory_ok(st),
        InstructionEnum::Add(i) => true,
        InstructionEnum::Sub(i) => true,
        InstructionEnum::Sll(i) => true,
        InstructionEnum::Slt(i) => true,
        InstructionEnum::Xor(i) => true,
        InstructionEnum::Srl(i) => true,
        InstructionEnum::Sra(i) => true,
        InstructionEnum::Or(i) => true,
        InstructionEnum::And(i) => true,
        InstructionEnum::Lui(i) => true,
        InstructionEnum::Beq(i) => true,
        InstructionEnum::Bne(i) => true,
        InstructionEnum::Blt(i) => true,
        InstructionEnum::Bge(i) => true,
        InstructionEnum::Jalr(i) => true,
        InstructionEnum::Jal(i) => true,
        InstructionEnum::Flw(i) => i.memory_ok(st),
        InstructionEnum::Fadd(i) => true,
        InstructionEnum::Fsub(i) => true,
        InstructionEnum::Fmul(i) => true,
        InstructionEnum::Fdiv(i) => true,
        InstructionEnum::Fsqrt(i) => true,
        InstructionEnum::Fsgnj(i) => true,
        InstructionEnum::Fsgnjn(i) => true,
        InstructionEnum::Fsgnjx(i) => true,
        InstructionEnum::Feq(i) => true,
        InstructionEnum::Flt(i) => true,
        InstructionEnum::Fle(i) => true,
        InstructionEnum::FcvtWS(i) => true,
        InstructionEnum::FcvtSW(i) => true,
        InstructionEnum::Fsw(i) => i.memory_ok(st),
        InstructionEnum::In(i) => true,
        InstructionEnum::Fin(i) => true,
        InstructionEnum::Outchar(i) => true,
        InstructionEnum::Outint(i) => true,
        InstructionEnum::Fbeq(i) => true,
        InstructionEnum::Fbne(i) => true,
        InstructionEnum::Fblt(i) => true,
        InstructionEnum::Fble(i) => true,
        InstructionEnum::End(i) => true,
    }
}

/// `inst` and the machine state after the memory stage.
pub open spec fn after_memory_inst(inst: InstructionEnum, st: CoreState) -> (InstructionEnum, CoreState) {
    match inst {
        InstructionEnum::Lw(i) => { let (j, next) = i.after_memory(st); (InstructionEnum::Lw(j), next) },
        InstructionEnum::Addi(i) => (inst, st),
        InstructionEnum::Slli(i) => (inst, st),
        InstructionEnum::Slti(i) => (inst, st),
        InstructionEnum::Xori(i) => (inst, st),
        InstructionEnum::Srli(i) => (inst, st),
        InstructionEnum::Srai(i) => (inst, st),
        InstructionEnum::Ori(i) => (inst, st),
        InstructionEnum::Andi(i) => (inst, st),
        InstructionEnum::Sw(i) => { let (j, next) = i.after_memory(st); (InstructionEnum::Sw(j), next) },
        InstructionEnum::Add(i) => (inst, st),
        InstructionEnum::Sub(i) => (inst, st),
        InstructionEnum::Sll(i) => (inst, st),
        InstructionEnum::Slt(i) => (inst, st),
        InstructionEnum::Xor(i) => (inst, st),
        InstructionEnum::Srl(i) => (inst, st),
        InstructionEnum::Sra(i) => (inst, st),
        InstructionEnum::Or(i) => (inst, st),
        InstructionEnum::And(i) => (inst, st),
        InstructionEnum::Lui(i) => (inst, st),
        InstructionEnum::Beq(i) => (inst, st),
        InstructionEnum::Bne(i) => (inst, st),
        InstructionEnum::Blt(i) => (inst, st),
        InstructionEnum::Bge(i) => (inst, st),
        InstructionEnum::Jalr(i) => (inst, st),
        InstructionEnum::Jal(i) => (inst, st),
        InstructionEnum::Flw(i) => { let (j, next) = i.after_memory(st); (InstructionEnum::Flw(j), next) },
        InstructionEnum::Fadd(i) => (inst, st),
        InstructionEnum::Fsub(i) => (inst, st),
        InstructionEnum::Fmul(i) => (inst, st),
        InstructionEnum::Fdiv(i) => (inst, st),
        InstructionEnum::Fsqrt(i) => (inst, st),
        InstructionEnum::Fsgnj(i) => (inst, st),
        InstructionEnum::Fsgnjn(i) => (inst, st),
        InstructionEnum::Fsgnjx(i) => (inst, st),
        InstructionEnum::Feq(i) => (inst, st),
        InstructionEnum::Flt(i) => (inst, st),
        InstructionEnum::Fle(i) => (inst, st),
        InstructionEnum::FcvtWS(i) => (inst, st),
        InstructionEnum::FcvtSW(i) => (inst, st),
        InstructionEnum::Fsw(i) => { let (j, next) = i.after_memory(st); (InstructionEnum::Fsw(j), next) },
        InstructionEnum::In(i) => (inst, st),
        InstructionEnum::Fin(i) => (inst, st),
        InstructionEnum::Outchar(i) => (inst, st),
        InstructionEnum::Outint(i) => (inst, st),
        InstructionEnum::Fbeq(i) => (inst, st),
        InstructionEnum::Fbne(i) => (inst, st),
        InstructionEnum::Fblt(i) => (inst, st),
        InstructionEnum::Fble(i) => (inst, st),
        InstructionEnum::End(i) => (inst, st),
    }
}

/// Whether `inst` holds what the write-back stage needs.
pub open spec fn inst_done_memory(inst: InstructionEnum) -> bool {
    match inst {
        InstructionEnum::Lw(i) => i.done_memory(),
        InstructionEnum::Addi(i) => i.done_memory(),
        InstructionEnum::Slli(i) => i.done_memory(),
        InstructionEnum::Slti(i) => i.done_memory(),
        InstructionEnum::Xori(i) => i.done_memory(),
        InstructionEnum::Srli(i) => i.done_memory(),
        InstructionEnum::Srai(i) => i.done_memory(),
        InstructionEnum::Ori(i) => i.done_memory(),
        InstructionEnum::Andi(i) => i.done_memory(),
        InstructionEnum::Sw(i) => i.done_memory(),
        InstructionEnum::Add(i) => i.done_memory(),
        InstructionEnum::Sub(i) => i.done_memory(),
        InstructionEnum::Sll(i) => i.done_memory(),
        InstructionEnum::Slt(i) => i.done_memory(),
        InstructionEnum::Xor(i) => i.done_memory(),
        InstructionEnum::Srl(i) => i.done_memory(),
        InstructionEnum::Sra(i) => i.done_memory(),
        InstructionEnum::Or(i) => i.done_memory(),
        InstructionEnum::And(i) => i.done_memory(),
        InstructionEnum::Lui(i) => i.done_memory(),
        InstructionEnum::Beq(i) => i.done_memory(),
        InstructionEnum::Bne(i) => i.done_memory(),
        InstructionEnum::Blt(i) => i.done_memory(),
        InstructionEnum::Bge(i) => i.done_memory(),
        InstructionEnum::Jalr(i) => i.done_memory(),
        InstructionEnum::Jal(i) => i.done_memory(),
        InstructionEnum::Flw(i) => i.done_memory(),
        InstructionEnum::Fadd(i) => i.done_memory(),
        InstructionEnum::Fsub(i) => i.done_memory(),
        InstructionEnum::Fmul(i) => i.done_memory(),
        InstructionEnum::Fdiv(i) => i.done_memory(),
        InstructionEnum::Fsqrt(i) => i.done_memory(),
        InstructionEnum::Fsgnj(i) => i.done_memory(),
        InstructionEnum::Fsgnjn(i) => i.done_memory(),
        InstructionEnum::Fsgnjx(i) => i.done_memory(),
        InstructionEnum::Feq(i) => i.done_memory(),
        InstructionEnum::Flt(i) => i.done_memory(),
        InstructionEnum::Fle(i) => i.done_memory(),
        InstructionEnum::FcvtWS(i) => i.done_memory(),
        InstructionEnum::FcvtSW(i) => i.done_memory(),
        InstructionEnum::Fsw(i) => i.done_memory(),
        InstructionEnum::In(i) => i.done_memory(),
        InstructionEnum::Fin(i) => i.done_memory(),
        InstructionEnum::Outchar(i) => i.done_memory(),
        InstructionEnum::Outint(i) => i.done_memory(),
        InstructionEnum::Fbeq(i) => i.done_memory(),
        InstructionEnum::Fbne(i) => i.done_memory(),
        InstructionEnum::Fblt(i) => i.done_memory(),
        InstructionEnum::Fble(i) => i.done_memory(),
        InstructionEnum::End(i) => i.done_memory(),
    }
}

/// The machine state after the write-back stage of `inst`.
pub open spec fn written_back_inst(inst: InstructionEnum, st: CoreState) -> CoreState {
    match inst {
        InstructionEnum::Lw(i) => i.written_back(st),
        InstructionEnum::Addi(i) => i.written_back(st),
        InstructionEnum::Slli(i) => i.written_back(st),
        InstructionEnum::Slti(i) => i.written_back(st),
        InstructionEnum::Xori(i) => i.written_back(st),
        InstructionEnum::Srli(i) => i.written_back(st),
        InstructionEnum::Srai(i) => i.written_back(st),
        InstructionEnum::Ori(i) => i.written_back(st),
        InstructionEnum::Andi(i) => i.written_back(st),
        InstructionEnum::Sw(i) => st,
        InstructionEnum::Add(i) => i.written_back(st),
        InstructionEnum::Sub(i) => i.written_back(st),
        InstructionEnum::Sll(i) => i.written_back(st),
        InstructionEnum::Slt(i) => i.written_back(st),
        InstructionEnum::Xor(i) => i.written_back(st),
        InstructionEnum::Srl(i) => i.written_back(st),
        InstructionEnum::Sra(i) => i.written_back(st),
        InstructionEnum::Or(i) => i.written_back(st),
        InstructionEnum::And(i) => i.written_back(st),
        InstructionEnum::Lui(i) => i.written_back(st),
        InstructionEnum::Beq(i) => st,
        InstructionEnum::Bne(i) => st,
        InstructionEnum::Blt(i) => st,
        InstructionEnum::Bge(i) => st,
        InstructionEnum::Jalr(i) => i.written_back(st),
        InstructionEnum::Jal(i) => i.written_back(st),
        InstructionEnum::Flw(i) => i.written_back(st),
        InstructionEnum::Fadd(i) => i.written_back(st),
        InstructionEnum::Fsub(i) => i.written_back(st),
        InstructionEnum::Fmul(i) => i.written_back(st),
        InstructionEnum::Fdiv(i) => i.written_back(st),
        InstructionEnum::Fsqrt(i) => i.written_back(st),
        InstructionEnum::Fsgnj(i) => i.written_back(st),
        InstructionEnum::Fsgnjn(i) => i.written_back(st),
        InstructionEnum::Fsgnjx(i) => i.written_back(st),
        InstructionEnum::Feq(i) => i.written_back(st),
        InstructionEnum::Flt(i) => i.written_back(st),
        InstructionEnum::Fle(i) => i.written_back(st),
        InstructionEnum::FcvtWS(i) => i.written_back(st),
        InstructionEnum::FcvtSW(i) => i.written_back(st),
        InstructionEnum::Fsw(i) => st,
        InstructionEnum::In(i) => i.written_back(st),
        InstructionEnum::Fin(i) => i.written_back(st),
        InstructionEnum::Outchar(i) => st,
        InstructionEnum::Outint(i) => st,
        InstructionEnum::Fbeq(i) => st,
        InstructionEnum::Fbne(i) => st,
        InstructionEnum::Fblt(i) => st,
        InstructionEnum::Fble(i) => st,
        InstructionEnum::End(i) => i.written_back(st),
    }
}

/// The registers `inst` reads.
pub open spec fn inst_sources(inst: InstructionEnum) -> Seq<RegisterId> {
    match inst {
        InstructionEnum::Lw(i) => i.sources(),
        InstructionEnum::Addi(i) => i.sources(),
        InstructionEnum::Slli(i) => i.sources(),
        InstructionEnum::Slti(i) => i.sources(),
        InstructionEnum::Xori(i) => i.sources(),
        InstructionEnum::Srli(i) => i.sources(),
        InstructionEnum::Srai(i) => i.sources(),
        InstructionEnum::Ori(i) => i.sources(),
        InstructionEnum::Andi(i) => i.sources(),
        InstructionEnum::Sw(i) => i.sources(),
        InstructionEnum::Add(i) => i.sources(),
        InstructionEnum::Sub(i) => i.sources(),
        InstructionEnum::Sll(i) => i.sources(),
        InstructionEnum::Slt(i) => i.sources(),
        InstructionEnum::Xor(i) => i.sources(),
        InstructionEnum::Srl(i) => i.sources(),
        InstructionEnum::Sra(i) => i.sources(),
        InstructionEnum::Or(i) => i.sources(),
        InstructionEnum::And(i) => i.sources(),
        InstructionEnum::Lui(i) => i.sources(),
        InstructionEnum::Beq(i) => i.sources(),
        InstructionEnum::Bne(i) => i.sources(),
        InstructionEnum::Blt(i) => i.sources(),
        InstructionEnum::Bge(i) => i.sources(),
        InstructionEnum::Jalr(i) => i.sources(),
        InstructionEnum::Jal(i) => i.sources(),
        InstructionEnum::Flw(i) => i.sources(),
        InstructionEnum::Fadd(i) => i.sources(),
        InstructionEnum::Fsub(i) => i.sources(),
        InstructionEnum::Fmul(i) => i.sources(),
        InstructionEnum::Fdiv(i) => i.sources(),
        InstructionEnum::Fsqrt(i) => i.sources(),
        InstructionEnum::Fsgnj(i) => i.sources(),
        InstructionEnum::Fsgnjn(i) => i.sources(),
        InstructionEnum::Fsgnjx(i) => i.sources(),
        InstructionEnum::Feq(i) => i.sources(),
        InstructionEnum::Flt(i) => i.sources(),
        InstructionEnum::Fle(i) => i.sources(),
        InstructionEnum::FcvtWS(i) => i.sources(),
        InstructionEnum::FcvtSW(i) => i.sources(),
        InstructionEnum::Fsw(i) => i.sources(),
        InstructionEnum::In(i) => i.sources(),
        InstructionEnum::Fin(i) => i.sources(),
        InstructionEnum::Outchar(i) => i.sources(),
        InstructionEnum::Outint(i) => i.sources(),
        InstructionEnum::Fbeq(i) => i.sources(),
        InstructionEnum::Fbne(i) => i.sources(),
        InstructionEnum::Fblt(i) => i.sources(),
        InstructionEnum::Fble(i) => i.sources(),
        InstructionEnum::End(i) => i.sources(),
    }
}

/// The register `inst` writes, if any.
pub open spec fn inst_destination(inst: InstructionEnum) -> Option<RegisterId> {
    match inst {
        InstructionEnum::Lw(i) => i.destination(),
        InstructionEnum::Addi(i) => i.destination(),
        InstructionEnum::Slli(i) => i.destination(),
        InstructionEnum::Slti(i) => i.destination(),
        InstructionEnum::Xori(i) => i.destination(),
        InstructionEnum::Srli(i) => i.destination(),
        InstructionEnum::Srai(i) => i.destination(),
        InstructionEnum::Ori(i) => i.destination(),
        InstructionEnum::Andi(i) => i.destination(),
        InstructionEnum::Sw(i) => i.destination(),
        InstructionEnum::Add(i) => i.destination(),
        InstructionEnum::Sub(i) => i.destination(),
        InstructionEnum::Sll(i) => i.destination(),
        InstructionEnum::Slt(i) => i.destination(),
        InstructionEnum::Xor(i) => i.destination(),
        InstructionEnum::Srl(i) => i.destination(),
        InstructionEnum::Sra(i) => i.destination(),
        InstructionEnum::Or(i) => i.destination(),
        InstructionEnum::And(i) => i.destination(),
        InstructionEnum::Lui(i) => i.destination(),
        InstructionEnum::Beq(i) => i.destination(),
        InstructionEnum::Bne(i) => i.destination(),
        InstructionEnum::Blt(i) => i.destination(),
        InstructionEnum::Bge(i) => i.destination(),
        InstructionEnum::Jalr(i) => i.destination(),
        InstructionEnum::Jal(i) => i.destination(),
        InstructionEnum::Flw(i) => i.destination(),
        InstructionEnum::Fadd(i) => i.destination(),
        InstructionEnum::Fsub(i) => i.destination(),
        InstructionEnum::Fmul(i) => i.destination(),
        InstructionEnum::Fdiv(i) => i.destination(),
        InstructionEnum::Fsqrt(i) => i.destination(),
        InstructionEnum::Fsgnj(i) => i.destination(),
        InstructionEnum::Fsgnjn(i) => i.destination(),
        InstructionEnum::Fsgnjx(i) => i.destination(),
        InstructionEnum::Feq(i) => i.destination(),
        InstructionEnum::Flt(i) => i.destination(),
        InstructionEnum::Fle(i) => i.destination(),
        InstructionEnum::FcvtWS(i) => i.destination(),
        InstructionEnum::FcvtSW(i) => i.destination(),
        InstructionEnum::Fsw(i) => i.destination(),
        InstructionEnum::In(i) => i.destination(),
        InstructionEnum::Fin(i) => i.destination(),
        InstructionEnum::Outchar(i) => i.destination(),
        InstructionEnum::Outint(i) => i.destination(),
        InstructionEnum::Fbeq(i) => i.destination(),
        InstructionEnum::Fbne(i) => i.destination(),
        InstructionEnum::Fblt(i) => i.destination(),
        InstructionEnum::Fble(i) => i.destination(),
        InstructionEnum::End(i) => i.destination(),
    }
}

/// Whether `inst` loads from memory.
pub open spec fn inst_is_load(inst: InstructionEnum) -> bool {
    match inst {
        InstructionEnum::Lw(i) => true,
        InstructionEnum::Addi(i) => false,
        InstructionEnum::Slli(i) => false,
        InstructionEnum::Slti(i) => false,
        InstructionEnum::Xori(i) => false,
        InstructionEnum::Srli(i) => false,
        InstructionEnum::Srai(i) => false,
        InstructionEnum::Ori(i) => false,
        InstructionEnum::Andi(i) => false,
        InstructionEnum::Sw(i) => false,
        InstructionEnum::Add(i) => false,
        InstructionEnum::Sub(i) => false,
        InstructionEnum::Sll(i) => false,
        InstructionEnum::Slt(i) => false,
        InstructionEnum::Xor(i) => false,
        InstructionEnum::Srl(i) => false,
        InstructionEnum::Sra(i) => false,
        InstructionEnum::Or(i) => false,
        InstructionEnum::And(i) => false,
        InstructionEnum::Lui(i) => false,
        InstructionEnum::Beq(i) => false,
        InstructionEnum::Bne(i) => false,
        InstructionEnum::Blt(i) => false,
        InstructionEnum::Bge(i) => false,
        InstructionEnum::Jalr(i) => false,
        InstructionEnum::Jal(i) => false,
        InstructionEnum::Flw(i) => true,
        InstructionEnum::Fadd(i) => false,
        InstructionEnum::Fsub(i) => false,
        InstructionEnum::Fmul(i) => false,
        InstructionEnum::Fdiv(i) => false,
        InstructionEnum::Fsqrt(i) => false,
        InstructionEnum::Fsgnj(i) => false,
        InstructionEnum::Fsgnjn(i) => false,
        InstructionEnum::Fsgnjx(i) => false,
        InstructionEnum::Feq(i) => false,
        InstructionEnum::Flt(i) => false,
        InstructionEnum::Fle(i) => false,
        InstructionEnum::FcvtWS(i) => false,
        InstructionEnum::FcvtSW(i) => false,
        InstructionEnum::Fsw(i) => false,
        InstructionEnum::In(i) => false,
        InstructionEnum::Fin(i) => false,
        InstructionEnum::Outchar(i) => false,
        InstructionEnum::Outint(i) => false,
        InstructionEnum::Fbeq(i) => false,
        InstructionEnum::Fbne(i) => false,
        InstructionEnum::Fblt(i) => false,
        InstructionEnum::Fble(i) => false,
        InstructionEnum::End(i) => false,
    }
}

/// The address `inst` jumps to, once its execute stage has decided so.
pub open spec fn inst_jump(inst: InstructionEnum) -> Option<Address> {
    match inst {
        InstructionEnum::Lw(i) => None,
        InstructionEnum::Addi(i) => None,
        InstructionEnum::Slli(i) => None,
        InstructionEnum::Slti(i) => None,
        InstructionEnum::Xori(i) => None,
        InstructionEnum::Srli(i) => None,
        InstructionEnum::Srai(i) => None,
        InstructionEnum::Ori(i) => None,
        InstructionEnum::Andi(i) => None,
        InstructionEnum::Sw(i) => None,
        InstructionEnum::Add(i) => None,
        InstructionEnum::Sub(i) => None,
        InstructionEnum::Sll(i) => None,
        InstructionEnum::Slt(i) => None,
        InstructionEnum::Xor(i) => None,
        InstructionEnum::Srl(i) => None,
        InstructionEnum::Sra(i) => None,
        InstructionEnum::Or(i) => None,
        InstructionEnum::And(i) => None,
        InstructionEnum::Lui(i) => None,
        InstructionEnum::Beq(i) => i.data.jump_address,
        InstructionEnum::Bne(i) => i.data.jump_address,
        InstructionEnum::Blt(i) => i.data.jump_address,
        InstructionEnum::Bge(i) => i.data.jump_address,
        InstructionEnum::Jalr(i) => i.jump_address,
        InstructionEnum::Jal(i) => i.data.jump_address,
        InstructionEnum::Flw(i) => None,
        InstructionEnum::Fadd(i) => None,
        InstructionEnum::Fsub(i) => None,
        InstructionEnum::Fmul(i) => None,
        InstructionEnum::Fdiv(i) => None,
        InstructionEnum::Fsqrt(i) => None,
        InstructionEnum::Fsgnj(i) => None,
        InstructionEnum::Fsgnjn(i) => None,
        InstructionEnum::Fsgnjx(i) => None,
        InstructionEnum::Feq(i) => None,
        InstructionEnum::Flt(i) => None,
        InstructionEnum::Fle(i) => None,
        InstructionEnum::FcvtWS(i) => None,
        InstructionEnum::FcvtSW(i) => None,
        InstructionEnum::Fsw(i) => None,
        InstructionEnum::In(i) => None,
        InstructionEnum::Fin(i) => None,
        InstructionEnum::Outchar(i) => None,
        InstructionEnum::Outint(i) => None,
        InstructionEnum::Fbeq(i) => i.data.jump_address,
        InstructionEnum::Fbne(i) => i.data.jump_address,
        InstructionEnum::Fblt(i) => i.data.jump_address,
        InstructionEnum::Fble(i) => i.data.jump_address,
        InstructionEnum::End(i) => None,
    }
}

/// The cycle in which `inst` read its operands, once it has.
pub open spec fn inst_count(inst: InstructionEnum) -> Option<InstructionCount> {
    match inst {
        InstructionEnum::Lw(i) => i.data.inst_count,
        InstructionEnum::Addi(i) => i.data.inst_count,
        InstructionEnum::Slli(i) => i.data.inst_count,
        InstructionEnum::Slti(i) => i.data.inst_count,
        InstructionEnum::Xori(i) => i.data.inst_count,
        InstructionEnum::Srli(i) => i.data.inst_count,
        InstructionEnum::Srai(i) => i.data.inst_count,
        InstructionEnum::Ori(i) => i.data.inst_count,
        InstructionEnum::Andi(i) => i.data.inst_count,
        InstructionEnum::Sw(i) => i.data.inst_count,
        InstructionEnum::Add(i) => i.data.inst_count,
        InstructionEnum::Sub(i) => i.data.inst_count,
        InstructionEnum::Sll(i) => i.data.inst_count,
        InstructionEnum::Slt(i) => i.data.inst_count,
        InstructionEnum::Xor(i) => i.data.inst_count,
        InstructionEnum::Srl(i) => i.data.inst_count,
        InstructionEnum::Sra(i) => i.data.inst_count,
        InstructionEnum::Or(i) => i.data.inst_count,
        InstructionEnum::And(i) => i.data.inst_count,
        InstructionEnum::Lui(i) => i.data.inst_count,
        InstructionEnum::Beq(i) => i.data.inst_count,
        InstructionEnum::Bne(i) => i.data.inst_count,
        InstructionEnum::Blt(i) => i.data.inst_count,
        InstructionEnum::Bge(i) => i.data.inst_count,
        InstructionEnum::Jalr(i) => i.data.inst_count,
        InstructionEnum::Jal(i) => i.data.inst_count,
        InstructionEnum::Flw(i) => i.data.inst_count,
        InstructionEnum::Fadd(i) => i.data.inst_count,
        InstructionEnum::Fsub(i) => i.data.inst_count,
        InstructionEnum::Fmul(i) => i.data.inst_count,
        InstructionEnum::Fdiv(i) => i.data.inst_count,
        InstructionEnum::Fsqrt(i) => i.data.inst_count,
        InstructionEnum::Fsgnj(i) => i.data.inst_count,
        InstructionEnum::Fsgnjn(i) => i.data.inst_count,
        InstructionEnum::Fsgnjx(i) => i.data.inst_count,
        InstructionEnum::Feq(i) => i.data.inst_count,
        InstructionEnum::Flt(i) => i.data.inst_count,
        InstructionEnum::Fle(i) => i.data.inst_count,
        InstructionEnum::FcvtWS(i) => i.data.inst_count,
        InstructionEnum::FcvtSW(i) => i.data.inst_count,
        InstructionEnum::Fsw(i) => i.data.inst_count,
        InstructionEnum::In(i) => i.inst_count,
        InstructionEnum::Fin(i) => i.inst_count,
        InstructionEnum::Outchar(i) => i.inst_count,
        InstructionEnum::Outint(i) => i.inst_count,
        InstructionEnum::Fbeq(i) => i.data.inst_count,
        InstructionEnum::Fbne(i) => i.data.inst_count,
        InstructionEnum::Fblt(i) => i.data.inst_count,
        InstructionEnum::Fble(i) => i.data.inst_count,
        InstructionEnum::End(i) => i.inst_count,
    }
}

/// The mnemonic of `inst`.
pub open spec fn inst_name(inst: InstructionEnum) -> Seq<char> {
    match inst {
        InstructionEnum::Lw(i) => "lw"@,
        InstructionEnum::Addi(i) => "addi"@,
        InstructionEnum::Slli(i) => "slli"@,
        InstructionEnum::Slti(i) => "slti"@,
        InstructionEnum::Xori(i) => "xori"@,
        InstructionEnum::Srli(i) => "srli"@,
        InstructionEnum::Srai(i) => "srai"@,
        InstructionEnum::Ori(i) => "ori"@,
        InstructionEnum::Andi(i) => "andi"@,
        InstructionEnum::Sw(i) => "sw"@,
        InstructionEnum::Add(i) => "add"@,
        InstructionEnum::Sub(i) => "sub"@,
        InstructionEnum::Sll(i) => "sll"@,
        InstructionEnum::Slt(i) => "slt"@,
        InstructionEnum::Xor(i) => "xor"@,
        InstructionEnum::Srl(i) => "srl"@,
        InstructionEnum::Sra(i) => "sra"@,
        InstructionEnum::Or(i) => "or"@,
        InstructionEnum::And(i) => "and"@,
        InstructionEnum::Lui(i) => "lui"@,
        InstructionEnum::Beq(i) => "beq"@,
        InstructionEnum::Bne(i) => "bne"@,
        InstructionEnum::Blt(i) => "blt"@,
        InstructionEnum::Bge(i) => "bge"@,
        InstructionEnum::Jalr(i) => "jalr"@,
        InstructionEnum::Jal(i) => "jal"@,
        InstructionEnum::Flw(i) => "flw"@,
        InstructionEnum::Fadd(i) => "fadd"@,
        InstructionEnum::Fsub(i) => "fsub"@,
        InstructionEnum::Fmul(i) => "fmul"@,
        InstructionEnum::Fdiv(i) => "fdiv"@,
        InstructionEnum::Fsqrt(i) => "fsqrt"@,
        InstructionEnum::Fsgnj(i) => "fsgnj"@,
        InstructionEnum::Fsgnjn(i) => "fsgnjn"@,
        InstructionEnum::Fsgnjx(i) => "fsgnjx"@,
        InstructionEnum::Feq(i) => "feq"@,
        InstructionEnum::Flt(i) => "flt"@,
        InstructionEnum::Fle(i) => "fle"@,
        InstructionEnum::FcvtWS(i) => "fcvt.w.s"@,
        InstructionEnum::FcvtSW(i) => "fcvt.s.w"@,
        InstructionEnum::Fsw(i) => "fsw"@,
        InstructionEnum::In(i) => "in"@,
        InstructionEnum::Fin(i) => "fin"@,
        InstructionEnum::Outchar(i) => "outchar"@,
        InstructionEnum::Outint(i) => "outint"@,
        InstructionEnum::Fbeq(i) => "fbeq"@,
        InstructionEnum::Fbne(i) => "fbne"@,
        InstructionEnum::Fblt(i) => "fblt"@,
        InstructionEnum::Fble(i) => "fble"@,
        InstructionEnum::End(i) => "end"@,
    }
}

/// The text of `inst` in assembly language, in ASCII bytes.
pub open spec fn inst_assembly(inst: InstructionEnum) -> Seq<u8> {
    match inst {
        InstructionEnum::Lw(i) => i.assembly(),
        InstructionEnum::Addi(i) => i.assembly(),
        InstructionEnum::Slli(i) => i.assembly(),
        InstructionEnum::Slti(i) => i.assembly(),
        InstructionEnum::Xori(i) => i.assembly(),
        InstructionEnum::Srli(i) => i.assembly(),
        InstructionEnum::Srai(i) => i.assembly(),
        InstructionEnum::Ori(i) => i.assembly(),
        InstructionEnum::Andi(i) => i.assembly(),
        InstructionEnum::Sw(i) => i.assembly(),
        InstructionEnum::Add(i) => i.assembly(),
        InstructionEnum::Sub(i) => i.assembly(),
        InstructionEnum::Sll(i) => i.assembly(),
        InstructionEnum::Slt(i) => i.assembly(),
        InstructionEnum::Xor(i) => i.assembly(),
        InstructionEnum::Srl(i) => i.assembly(),
        InstructionEnum::Sra(i) => i.assembly(),
        InstructionEnum::Or(i) => i.assembly(),
        InstructionEnum::And(i) => i.assembly(),
        InstructionEnum::Lui(i) => i.assembly(),
        InstructionEnum::Beq(i) => i.assembly(),
        InstructionEnum::Bne(i) => i.assembly(),
        InstructionEnum::Blt(i) => i.assembly(),
        InstructionEnum::Bge(i) => i.assembly(),
        InstructionEnum::Jalr(i) => i.assembly(),
        InstructionEnum::Jal(i) => i.assembly(),
        InstructionEnum::Flw(i) => i.assembly(),
        InstructionEnum::Fadd(i) => i.assembly(),
        InstructionEnum::Fsub(i) => i.assembly(),
        InstructionEnum::Fmul(i) => i.assembly(),
        InstructionEnum::Fdiv(i) => i.assembly(),
        InstructionEnum::Fsqrt(i) => i.assembly(),
        InstructionEnum::Fsgnj(i) => i.assembly(),
        InstructionEnum::Fsgnjn(i) => i.assembly(),
        InstructionEnum::Fsgnjx(i) => i.assembly(),
        InstructionEnum::Feq(i) => i.assembly(),
        InstructionEnum::Flt(i) => i.assembly(),
        InstructionEnum::Fle(i) => i.assembly(),
        InstructionEnum::FcvtWS(i) => i.assembly(),
        InstructionEnum::FcvtSW(i) => i.assembly(),
        InstructionEnum::Fsw(i) => i.assembly(),
        InstructionEnum::In(i) => i.assembly(),
        InstructionEnum::Fin(i) => i.assembly(),
        InstructionEnum::Outchar(i) => i.assembly(),
        InstructionEnum::Outint(i) => i.assembly(),
        InstructionEnum::Fbeq(i) => i.assembly(),
        InstructionEnum::Fbne(i) => i.assembly(),
        InstructionEnum::Fblt(i) => i.assembly(),
        InstructionEnum::Fble(i) => i.assembly(),
        InstructionEnum::End(i) => i.assembly(),
    }
}

/// The place of the kind of `inst` in the list of the instructions of the machine.
pub open spec fn inst_kind(inst: InstructionEnum) -> int {
    match inst {
        InstructionEnum::Lw(_) => 0,
        InstructionEnum::Addi(_) => 1,
        InstructionEnum::Slli(_) => 2,
        InstructionEnum::Slti(_) => 3,
        InstructionEnum::Xori(_) => 4,
        InstructionEnum::Srli(_) => 5,
        InstructionEnum::Srai(_) => 6,
        InstructionEnum::Ori(_) => 7,
        InstructionEnum::Andi(_) => 8,
        InstructionEnum::Sw(_) => 9,
        InstructionEnum::Add(_) => 10,
        InstructionEnum::Sub(_) => 11,
        InstructionEnum::Sll(_) => 12,
        InstructionEnum::Slt(_) => 13,
        InstructionEnum::Xor(_) => 14,
        InstructionEnum::Srl(_) => 15,
        InstructionEnum::Sra(_) => 16,
        InstructionEnum::Or(_) => 17,
        InstructionEnum::And(_) => 18,
        InstructionEnum::Lui(_) => 19,
        InstructionEnum::Beq(_) => 20,
        InstructionEnum::Bne(_) => 21,
        InstructionEnum::Blt(_) => 22,
        InstructionEnum::Bge(_) => 23,
        InstructionEnum::Jalr(_) => 24,
        InstructionEnum::Jal(_) => 25,
        InstructionEnum::Flw(_) => 26,
        InstructionEnum::Fadd(_) => 27,
        InstructionEnum::Fsub(_) => 28,
        InstructionEnum::Fmul(_) => 29,
        InstructionEnum::Fdiv(_) => 30,
        InstructionEnum::Fsqrt(_) => 31,
        InstructionEnum::Fsgnj(_) => 32,
        InstructionEnum::Fsgnjn(_) => 33,
        InstructionEnum::Fsgnjx(_) => 34,
        InstructionEnum::Feq(_) => 35,
        InstructionEnum::Flt(_) => 36,
        InstructionEnum::Fle(_) => 37,
        InstructionEnum::FcvtWS(_) => 38,
        InstructionEnum::FcvtSW(_) => 39,
        InstructionEnum::Fsw(_) => 40,
        InstructionEnum::In(_) => 41,
        InstructionEnum::Fin(_) => 42,
        InstructionEnum::Outchar(_) => 43,
        InstructionEnum::Outint(_) => 44,
        InstructionEnum::Fbeq(_) => 45,
        InstructionEnum::Fbne(_) => 46,
        InstructionEnum::Fblt(_) => 47,
        InstructionEnum::Fble(_) => 48,
        InstructionEnum::End(_) => 49,
    }
}

/// The place of the kind of instruction that the mnemonic `name` names, or -1.
pub open spec fn kind_of_name(name: Seq<char>) -> int {
    if name == "lw"@ {
        0
    } else if name == "addi"@ {
        1
    } else if name == "slli"@ {
        2
    } else if name == "slti"@ {
        3
    } else if name == "xori"@ {
        4
    } else if name == "srli"@ {
        5
    } else if name == "srai"@ {
        6
    } else if name == "ori"@ {
        7
    } else if name == "andi"@ {
        8
    } else if name == "sw"@ {
        9
    } else if name == "add"@ {
        10
    } else if name == "sub"@ {
        11
    } else if name == "sll"@ {
        12
    } else if name == "slt"@ {
        13
    } else if name == "xor"@ {
        14
    } else if name == "srl"@ {
        15
    } else if name == "sra"@ {
        16
    } else if name == "or"@ {
        17
    } else if name == "and"@ {
        18
    } else if name == "lui"@ {
        19
    } else if name == "beq"@ {
        20
    } else if name == "bne"@ {
        21
    } else if name == "blt"@ {
        22
    } else if name == "bge"@ {
        23
    } else if name == "jalr"@ {
        24
    } else if name == "jal"@ {
        25
    } else if name == "flw"@ {
        26
    } else if name == "fadd"@ {
        27
    } else if name == "fsub"@ {
        28
    } else if name == "fmul"@ {
        29
    } else if name == "fdiv"@ {
        30
    } else if name == "fsqrt"@ {
        31
    } else if name == "fsgnj"@ {
        32
    } else if name == "fsgnjn"@ {
        33
    } else if name == "fsgnjx"@ {
        34
    } else if name == "feq"@ {
        35
    } else if name == "flt"@ {
        36
    } else if name == "fle"@ {
        37
    } else if name == "fcvt.w.s"@ {
        38
    } else if name == "fcvt.s.w"@ {
        39
    } else if name == "fsw"@ {
        40
    } else if name == "in"@ {
        41
    } else if name == "fin"@ {
        42
    } else if name == "outchar"@ {
        43
    } else if name == "outint"@ {
        44
    } else if name == "fbeq"@ {
        45
    } else if name == "fbne"@ {
        46
    } else if name == "fblt"@ {
        47
    } else if name == "fble"@ {
        48
    } else if name == "end"@ {
        49
    } else {
        -1
    }
}

proof fn lemma_kind_of_name(inst: InstructionEnum)
    ensures
        kind_of_name(inst_name(inst)) == inst_kind(inst),
{
    match inst {
        InstructionEnum::Lw(_) => {},
        InstructionEnum::Addi(_) => {
            reveal_strlit("addi");
            reveal_strlit("lw");
            assert("addi"@.len() != "lw"@.len());
        },
        InstructionEnum::Slli(_) => {
            reveal_strlit("slli");
            reveal_strlit("lw");
            assert("slli"@.len() != "lw"@.len());
            reveal_strlit("addi");
            assert("slli"@[0] != "addi"@[0]);
        },
        InstructionEnum::Slti(_) => {
            reveal_strlit("slti");
            reveal_strlit("lw");
            assert("slti"@.len() != "lw"@.len());
            reveal_strlit("addi");
            assert("slti"@[0] != "addi"@[0]);
            reveal_strlit("slli");
            assert("slti"@[2] != "slli"@[2]);
        },
        InstructionEnum::Xori(_) => {
            reveal_strlit("xori");
            reveal_strlit("lw");
            assert("xori"@.len() != "lw"@.len());
            reveal_strlit("addi");
            assert("xori"@[0] != "addi"@[0]);
            reveal_strlit("slli");
            assert("xori"@[0] != "slli"@[0]);
            reveal_strlit("slti");
            assert("xori"@[0] != "slti"@[0]);
        },
        InstructionEnum::Srli(_) => {
            reveal_strlit("srli");
            reveal_strlit("lw");
            assert("srli"@.len() != "lw"@.len());
            reveal_strlit("addi");
            assert("srli"@[0] != "addi"@[0]);
            reveal_strlit("slli");
            assert("srli"@[1] != "slli"@[1]);
            reveal_strlit("slti");
            assert("srli"@[1] != "slti"@[1]);
            reveal_strlit("xori");
            assert("srli"@[0] != "xori"@[0]);
        },
        InstructionEnum::Srai(_) => {
            reveal_strlit("srai");
            reveal_strlit("lw");
            assert("srai"@.len() != "lw"@.len());
            reveal_strlit("addi");
            assert("srai"@[0] != "addi"@[0]);
            reveal_strlit("slli");
            assert("srai"@[1] != "slli"@[1]);
            reveal_strlit("slti");
            assert("srai"@[1] != "slti"@[1]);
            reveal_strlit("xori");
            assert("srai"@[0] != "xori"@[0]);
            reveal_strlit("srli");
            assert("srai"@[2] != "srli"@[2]);
        },
        InstructionEnum::Ori(_) => {
            reveal_strlit("ori");
            reveal_strlit("lw");
            assert("ori"@.len() != "lw"@.len());
            reveal_strlit("addi");
            assert("ori"@.len() != "addi"@.len());
            reveal_strlit("slli");
            assert("ori"@.len() != "slli"@.len());
            reveal_strlit("slti");
            assert("ori"@.len() != "slti"@.len());
            reveal_strlit("xori");
            assert("ori"@.len() != "xori"@.len());
            reveal_strlit("srli");
            assert("ori"@.len() != "srli"@.len());
            reveal_strlit("srai");
            assert("ori"@.len() != "srai"@.len());
        },
        InstructionEnum::Andi(_) => {
            reveal_strlit("andi");
            reveal_strlit("lw");
            assert("andi"@.len() != "lw"@.len());
            reveal_strlit("addi");
            assert("andi"@[1] != "addi"@[1]);
            reveal_strlit("slli");
            assert("andi"@[0] != "slli"@[0]);
            reveal_strlit("slti");
            assert("andi"@[0] != "slti"@[0]);
            reveal_strlit("xori");
            assert("andi"@[0] != "xori"@[0]);
            reveal_strlit("srli");
            assert("andi"@[0] != "srli"@[0]);
            reveal_strlit("srai");
            assert("andi"@[0] != "srai"@[0]);
            reveal_strlit("ori");
            assert("andi"@.len() != "ori"@.len());
        },
        InstructionEnum::Sw(_) => {
            reveal_strlit("sw");
            reveal_strlit("lw");
            assert("sw"@[0] != "lw"@[0]);
            reveal_strlit("addi");
            assert("sw"@.len() != "addi"@.len());
            reveal_strlit("slli");
            assert("sw"@.len() != "slli"@.len());
            reveal_strlit("slti");
            assert("sw"@.len() != "slti"@.len());
            reveal_strlit("xori");
            assert("sw"@.len() != "xori"@.len());
            reveal_strlit("srli");
            assert("sw"@.len() != "srli"@.len());
            reveal_strlit("srai");
            assert("sw"@.len() != "srai"@.len());
            reveal_strlit("ori");
            assert("sw"@.len() != "ori"@.len());
            reveal_strlit("andi");
            assert("sw"@.len() != "andi"@.len());
        },
        InstructionEnum::Add(_) => {
            reveal_strlit("add");
            reveal_strlit("lw");
            assert("add"@.len() != "lw"@.len());
            reveal_strlit("addi");
            assert("add"@.len() != "addi"@.len());
            reveal_strlit("slli");
            assert("add"@.len() != "slli"@.len());
            reveal_strlit("slti");
            assert("add"@.len() != "slti"@.len());
            reveal_strlit("xori");
            assert("add"@.len() != "xori"@.len());
            reveal_strlit("srli");
            assert("add"@.len() != "srli"@.len());
            reveal_strlit("srai");
            assert("add"@.len() != "srai"@.len());
            reveal_strlit("ori");
            assert("add"@[0] != "ori"@[0]);
            reveal_strlit("andi");
            assert("add"@.len() != "andi"@.len());
            reveal_strlit("sw");
            assert("add"@.len() != "sw"@.len());
        },
        InstructionEnum::Sub(_) => {
            reveal_strlit("sub");
            reveal_strlit("lw");
            assert("sub"@.len() != "lw"@.len());
            reveal_strlit("addi");
            assert("sub"@.len() != "addi"@.len());
            reveal_strlit("slli");
            assert("sub"@.len() != "slli"@.len());
            reveal_strlit("slti");
            assert("sub"@.len() != "slti"@.len());
            reveal_strlit("xori");
            assert("sub"@.len() != "xori"@.len());
            reveal_strlit("srli");
            assert("sub"@.len() != "srli"@.len());
            reveal_strlit("srai");
            assert("sub"@.len() != "srai"@.len());
            reveal_strlit("ori");
            assert("sub"@[0] != "ori"@[0]);
            reveal_strlit("andi");
            assert("sub"@.len() != "andi"@.len());
            reveal_strlit("sw");
            assert("sub"@.len() != "sw"@.len());
            reveal_strlit("add");
            assert("sub"@[0] != "add"@[0]);
        },
        InstructionEnum::Sll(_) => {
            reveal_strlit("sll");
            reveal_strlit("lw");
            assert("sll"@.len() != "lw"@.len());
            reveal_strlit("addi");
            assert("sll"@.len() != "addi"@.len());
            reveal_strlit("slli");
            assert("sll"@.len() != "slli"@.len());
            reveal_strlit("slti");
            assert("sll"@.len() != "slti"@.len());
            reveal_strlit("xori");
            assert("sll"@.len() != "xori"@.len());
            reveal_strlit("srli");
            assert("sll"@.len() != "srli"@.len());
            reveal_strlit("srai");
            assert("sll"@.len() != "srai"@.len());
            reveal_strlit("ori");
            assert("sll"@[0] != "ori"@[0]);
            reveal_strlit("andi");
            assert("sll"@.len() != "andi"@.len());
            reveal_strlit("sw");
            assert("sll"@.len() != "sw"@.len());
            reveal_strlit("add");
            assert("sll"@[0] != "add"@[0]);
            reveal_strlit("sub");
            assert("sll"@[1] != "sub"@[1]);
        },
        InstructionEnum::Slt(_) => {
            reveal_strlit("slt");
            reveal_strlit("lw");
            assert("slt"@.len() != "lw"@.len());
            reveal_strlit("addi");
            assert("slt"@.len() != "addi"@.len());
            reveal_strlit("slli");
            assert("slt"@.len() != "slli"@.len());
            reveal_strlit("slti");
            assert("slt"@.len() != "slti"@.len());
            reveal_strlit("xori");
            assert("slt"@.len() != "xori"@.len());
            reveal_strlit("srli");
            assert("slt"@.len() != "srli"@.len());
            reveal_strlit("srai");
            assert("slt"@.len() != "srai"@.len());
            reveal_strlit("ori");
            assert("slt"@[0] != "ori"@[0]);
            reveal_strlit("andi");
            assert("slt"@.len() != "andi"@.len());
            reveal_strlit("sw");
            assert("slt"@.len() != "sw"@.len());
            reveal_strlit("add");
            assert("slt"@[0] != "add"@[0]);
            reveal_strlit("sub");
            assert("slt"@[1] != "sub"@[1]);
            reveal_strlit("sll");
            assert("slt"@[2] != "sll"@[2]);
        },
        InstructionEnum::Xor(_) => {
            reveal_strlit("xor");
            reveal_strlit("lw");
            assert("xor"@.len() != "lw"@.len());
            reveal_strlit("addi");
            assert("xor"@.len() != "addi"@.len());
            reveal_strlit("slli");
            assert("xor"@.len() != "slli"@.len());
            reveal_strlit("slti");
            assert("xor"@.len() != "slti"@.len());
            reveal_strlit("xori");
            assert("xor"@.len() != "xori"@.len());
            reveal_strlit("srli");
            assert("xor"@.len() != "srli"@.len());
            reveal_strlit("srai");
            assert("xor"@.len() != "srai"@.len());
            reveal_strlit("ori");
            assert("xor"@[0] != "ori"@[0]);
            reveal_strlit("andi");
            assert("xor"@.len() != "andi"@.len());
            reveal_strlit("sw");
            assert("xor"@.len() != "sw"@.len());
            reveal_strlit("add");
            assert("xor"@[0] != "add"@[0]);
            reveal_strlit("sub");
            assert("xor"@[0] != "sub"@[0]);
            reveal_strlit("sll");
            assert("xor"@[0] != "sll"@[0]);
            reveal_strlit("slt");
            assert("xor"@[0] != "slt"@[0]);
        },
        InstructionEnum::Srl(_) => {
            reveal_strlit("srl");
            reveal_strlit("lw");
            assert("srl"@.len() != "lw"@.len());
            reveal_strlit("addi");
            assert("srl"@.len() != "addi"@.len());
            reveal_strlit("slli");
            assert("srl"@.len() != "slli"@.len());
            reveal_strlit("slti");
            assert("srl"@.len() != "slti"@.len());
            reveal_strlit("xori");
            assert("srl"@.len() != "xori"@.len());
            reveal_strlit("srli");
            assert("srl"@.len() != "srli"@.len());
            reveal_strlit("srai");
            assert("srl"@.len() != "srai"@.len());
            reveal_strlit("ori");
            assert("srl"@[0] != "ori"@[0]);
            reveal_strlit("andi");
            assert("srl"@.len() != "andi"@.len());
            reveal_strlit("sw");
            assert("srl"@.len() != "sw"@.len());
            reveal_strlit("add");
            assert("srl"@[0] != "add"@[0]);
            reveal_strlit("sub");
            assert("srl"@[1] != "sub"@[1]);
            reveal_strlit("sll");
            assert("srl"@[1] != "sll"@[1]);
            reveal_strlit("slt");
            assert("srl"@[1] != "slt"@[1]);
            reveal_strlit("xor");
            assert("srl"@[0] != "xor"@[0]);
        },
        InstructionEnum::Sra(_) => {
            reveal_strlit("sra");
            reveal_strlit("lw");
            assert("sra"@.len() != "lw"@.len());
            reveal_strlit("addi");
            assert("sra"@.len() != "addi"@.len());
            reveal_strlit("slli");
            assert("sra"@.len() != "slli"@.len());
            reveal_strlit("slti");
            assert("sra"@.len() != "slti"@.len());
            reveal_strlit("xori");
            assert("sra"@.len() != "xori"@.len());
            reveal_strlit("srli");
            assert("sra"@.len() != "srli"@.len());
            reveal_strlit("srai");
            assert("sra"@.len() != "srai"@.len());
            reveal_strlit("ori");
            assert("sra"@[0] != "ori"@[0]);
            reveal_strlit("andi");
            assert("sra"@.len() != "andi"@.len());
            reveal_strlit("sw");
            assert("sra"@.len() != "sw"@.len());
            reveal_strlit("add");
            assert("sra"@[0] != "add"@[0]);
            reveal_strlit("sub");
            assert("sra"@[1] != "sub"@[1]);
            reveal_strlit("sll");
            assert("sra"@[1] != "sll"@[1]);
            reveal_strlit("slt");
            assert("sra"@[1] != "slt"@[1]);
            reveal_strlit("xor");
            assert("sra"@[0] != "xor"@[0]);
            reveal_strlit("srl");
            assert("sra"@[2] != "srl"@[2]);
        },
        InstructionEnum::Or(_) => {
            reveal_strlit("or");
            reveal_strlit("lw");
            assert("or"@[0] != "lw"@[0]);
            reveal_strlit("addi");
            assert("or"@.len() != "addi"@.len());
            reveal_strlit("slli");
            assert("or"@.len() != "slli"@.len());
            reveal_strlit("slti");
            assert("or"@.len() != "slti"@.len());
            reveal_strlit("xori");
            assert("or"@.len() != "xori"@.len());
            reveal_strlit("srli");
            assert("or"@.len() != "srli"@.len());
            reveal_strlit("srai");
            assert("or"@.len() != "srai"@.len());
            reveal_strlit("ori");
            assert("or"@.len() != "ori"@.len());
            reveal_strlit("andi");
            assert("or"@.len() != "andi"@.len());
            reveal_strlit("sw");
            assert("or"@[0] != "sw"@[0]);
            reveal_strlit("add");
            assert("or"@.len() != "add"@.len());
            reveal_strlit("sub");
            assert("or"@.len() != "sub"@.len());
            reveal_strlit("sll");
            assert("or"@.len() != "sll"@.len());
            reveal_strlit("slt");
            assert("or"@.len() != "slt"@.len());
            reveal_strlit("xor");
            assert("or"@.len() != "xor"@.len());
            reveal_strlit("srl");
            assert("or"@.len() != "srl"@.len());
            reveal_strlit("sra");
            assert("or"@.len() != "sra"@.len());
        },
        InstructionEnum::And(_) => {
            reveal_strlit("and");
            reveal_strlit("lw");
            assert("and"@.len() != "lw"@.len());
            reveal_strlit("addi");
            assert("and"@.len() != "addi"@.len());
            reveal_strlit("slli");
            assert("and"@.len() != "slli"@.len());
            reveal_strlit("slti");
            assert("and"@.len() != "slti"@.len());
            reveal_strlit("xori");
            assert("and"@.len() != "xori"@.len());
            reveal_strlit("srli");
            assert("and"@.len() != "srli"@.len());
            reveal_strlit("srai");
            assert("and"@.len() != "srai"@.len());
            reveal_strlit("ori");
            assert("and"@[0] != "ori"@[0]);
            reveal_strlit("andi");
            assert("and"@.len() != "andi"@.len());
            reveal_strlit("sw");
            assert("and"@.len() != "sw"@.len());
            reveal_strlit("add");
            assert("and"@[1] != "add"@[1]);
            reveal_strlit("sub");
            assert("and"@[0] != "sub"@[0]);
            reveal_strlit("sll");
            assert("and"@[0] != "sll"@[0]);
            reveal_strlit("slt");
            assert("and"@[0] != "slt"@[0]);
            reveal_strlit("xor");
            assert("and"@[0] != "xor"@[0]);
            reveal_strlit("srl");
            assert("and"@[0] != "srl"@[0]);
            reveal_strlit("sra");
            assert("and"@[0] != "sra"@[0]);
            reveal_strlit("or");
            assert("and"@.len() != "or"@.len());
        },
        InstructionEnum::Lui(_) => {
            reveal_strlit("lui");
            reveal_strlit("lw");
            assert("lui"@.len() != "lw"@.len());
            reveal_strlit("addi");
            assert("lui"@.len() != "addi"@.len());
            reveal_strlit("slli");
            assert("lui"@.len() != "slli"@.len());
            reveal_strlit("slti");
            assert("lui"@.len() != "slti"@.len());
            reveal_strlit("xori");
            assert("lui"@.len() != "xori"@.len());
            reveal_strlit("srli");
            assert("lui"@.len() != "srli"@.len());
            reveal_strlit("srai");
            assert("lui"@.len() != "srai"@.len());
            reveal_strlit("ori");
            assert("lui"@[0] != "ori"@[0]);
            reveal_strlit("andi");
            assert("lui"@.len() != "andi"@.len());
            reveal_strlit("sw");
            assert("lui"@.len() != "sw"@.len());
            reveal_strlit("add");
            assert("lui"@[0] != "add"@[0]);
            reveal_strlit("sub");
            assert("lui"@[0] != "sub"@[0]);
            reveal_strlit("sll");
            assert("lui"@[0] != "sll"@[0]);
            reveal_strlit("slt");
            assert("lui"@[0] != "slt"@[0]);
            reveal_strlit("xor");
            assert("lui"@[0] != "xor"@[0]);
            reveal_strlit("srl");
            assert("lui"@[0] != "srl"@[0]);
            reveal_strlit("sra");
            assert("lui"@[0] != "sra"@[0]);
            reveal_strlit("or");
            assert("lui"@.len() != "or"@.len());
            reveal_strlit("and");
            assert("lui"@[0] != "and"@[0]);
        },
        InstructionEnum::Beq(_) => {
            reveal_strlit("beq");
            reveal_strlit("lw");
            assert("beq"@.len() != "lw"@.len());
            reveal_strlit("addi");
            assert("beq"@.len() != "addi"@.len());
            reveal_strlit("slli");
            assert("beq"@.len() != "slli"@.len());
            reveal_strlit("slti");
            assert("beq"@.len() != "slti"@.len());
            reveal_strlit("xori");
            assert("beq"@.len() != "xori"@.len());
            reveal_strlit("srli");
            assert("beq"@.len() != "srli"@.len());
            reveal_strlit("srai");
            assert("beq"@.len() != "srai"@.len());
            reveal_strlit("ori");
            assert("beq"@[0] != "ori"@[0]);
            reveal_strlit("andi");
            assert("beq"@.len() != "andi"@.len());
            reveal_strlit("sw");
            assert("beq"@.len() != "sw"@.len());
            reveal_strlit("add");
            assert("beq"@[0] != "add"@[0]);
            reveal_strlit("sub");
            assert("beq"@[0] != "sub"@[0]);
            reveal_strlit("sll");
            assert("beq"@[0] != "sll"@[0]);
            reveal_strlit("slt");
            assert("beq"@[0] != "slt"@[0]);
            reveal_strlit("xor");
            assert("beq"@[0] != "xor"@[0]);
            reveal_strlit("srl");
            assert("beq"@[0] != "srl"@[0]);
            reveal_strlit("sra");
            assert("beq"@[0] != "sra"@[0]);
            reveal_strlit("or");
            assert("beq"@.len() != "or"@.len());
            reveal_strlit("and");
            assert("beq"@[0] != "and"@[0]);
            reveal_strlit("lui");
            assert("beq"@[0] != "lui"@[0]);
        },
        InstructionEnum::Bne(_) => {
            reveal_strlit("bne");
            reveal_strlit("lw");
            assert("bne"@.len() != "lw"@.len());
            reveal_strlit("addi");
            assert("bne"@.len() != "addi"@.len());
            reveal_strlit("slli");
            assert("bne"@.len() != "slli"@.len());
            reveal_strlit("slti");
            assert("bne"@.len() != "slti"@.len());
            reveal_strlit("xori");
            assert("bne"@.len() != "xori"@.len());
            reveal_strlit("srli");
            assert("bne"@.len() != "srli"@.len());
            reveal_strlit("srai");
            assert("bne"@.len() != "srai"@.len());
            reveal_strlit("ori");
            assert("bne"@[0] != "ori"@[0]);
            reveal_strlit("andi");
            assert("bne"@.len() != "andi"@.len());
            reveal_strlit("sw");
            assert("bne"@.len() != "sw"@.len());
            reveal_strlit("add");
            assert("bne"@[0] != "add"@[0]);
            reveal_strlit("sub");
            assert("bne"@[0] != "sub"@[0]);
            reveal_strlit("sll");
            assert("bne"@[0] != "sll"@[0]);
            reveal_strlit("slt");
            assert("bne"@[0] != "slt"@[0]);
            reveal_strlit("xor");
            assert("bne"@[0] != "xor"@[0]);
            reveal_strlit("srl");
            assert("bne"@[0] != "srl"@[0]);
            reveal_strlit("sra");
            assert("bne"@[0] != "sra"@[0]);
            reveal_strlit("or");
            assert("bne"@.len() != "or"@.len());
            reveal_strlit("and");
            assert("bne"@[0] != "and"@[0]);
            reveal_strlit("lui");
            assert("bne"@[0] != "lui"@[0]);
            reveal_strlit("beq");
            assert("bne"@[1] != "beq"@[1]);
        },
        InstructionEnum::Blt(_) => {
            reveal_strlit("blt");
            reveal_strlit("lw");
            assert("blt"@.len() != "lw"@.len());
            reveal_strlit("addi");
            assert("blt"@.len() != "addi"@.len());
            reveal_strlit("slli");
            assert("blt"@.len() != "slli"@.len());
            reveal_strlit("slti");
            assert("blt"@.len() != "slti"@.len());
            reveal_strlit("xori");
            assert("blt"@.len() != "xori"@.len());
            reveal_strlit("srli");
            assert("blt"@.len() != "srli"@.len());
            reveal_strlit("srai");
            assert("blt"@.len() != "srai"@.len());
            reveal_strlit("ori");
            assert("blt"@[0] != "ori"@[0]);
            reveal_strlit("andi");
            assert("blt"@.len() != "andi"@.len());
            reveal_strlit("sw");
            assert("blt"@.len() != "sw"@.len());
            reveal_strlit("add");
            assert("blt"@[0] != "add"@[0]);
            reveal_strlit("sub");
            assert("blt"@[0] != "sub"@[0]);
            reveal_strlit("sll");
            assert("blt"@[0] != "sll"@[0]);
            reveal_strlit("slt");
            assert("blt"@[0] != "slt"@[0]);
            reveal_strlit("xor");
            assert("blt"@[0] != "xor"@[0]);
            reveal_strlit("srl");
            assert("blt"@[0] != "srl"@[0]);
            reveal_strlit("sra");
            assert("blt"@[0] != "sra"@[0]);
            reveal_strlit("or");
            assert("blt"@.len() != "or"@.len());
            reveal_strlit("and");
            assert("blt"@[0] != "and"@[0]);
            reveal_strlit("lui");
            assert("blt"@[0] != "lui"@[0]);
            reveal_strlit("beq");
            assert("blt"@[1] != "beq"@[1]);
            reveal_strlit("bne");
            assert("blt"@[1] != "bne"@[1]);
        },
        InstructionEnum::Bge(_) => {
            reveal_strlit("bge");
            reveal_strlit("lw");
            assert("bge"@.len() != "lw"@.len());
            reveal_strlit("addi");
            assert("bge"@.len() != "addi"@.len());
            reveal_strlit("slli");
            assert("bge"@.len() != "slli"@.len());
            reveal_strlit("slti");
            assert("bge"@.len() != "slti"@.len());
            reveal_strlit("xori");
            assert("bge"@.len() != "xori"@.len());
            reveal_strlit("srli");
            assert("bge"@.len() != "srli"@.len());
            reveal_strlit("srai");
            assert("bge"@.len() != "srai"@.len());
            reveal_strlit("ori");
            assert("bge"@[0] != "ori"@[0]);
            reveal_strlit("andi");
            assert("bge"@.len() != "andi"@.len());
            reveal_strlit("sw");
            assert("bge"@.len() != "sw"@.len());
            reveal_strlit("add");
            assert("bge"@[0] != "add"@[0]);
            reveal_strlit("sub");
            assert("bge"@[0] != "sub"@[0]);
            reveal_strlit("sll");
            assert("bge"@[0] != "sll"@[0]);
            reveal_strlit("slt");
            assert("bge"@[0] != "slt"@[0]);
            reveal_strlit("xor");
            assert("bge"@[0] != "xor"@[0]);
            reveal_strlit("srl");
            assert("bge"@[0] != "srl"@[0]);
            reveal_strlit("sra");
            assert("bge"@[0] != "sra"@[0]);
            reveal_strlit("or");
            assert("bge"@.len() != "or"@.len());
            reveal_strlit("and");
            assert("bge"@[0] != "and"@[0]);
            reveal_strlit("lui");
            assert("bge"@[0] != "lui"@[0]);
            reveal_strlit("beq");
            assert("bge"@[1] != "beq"@[1]);
            reveal_strlit("bne");
            assert("bge"@[1] != "bne"@[1]);
            reveal_strlit("blt");
            assert("bge"@[1] != "blt"@[1]);
        },
        InstructionEnum::Jalr(_) => {
            reveal_strlit("jalr");
            reveal_strlit("lw");
            assert("jalr"@.len() != "lw"@.len());
            reveal_strlit("addi");
            assert("jalr"@[0] != "addi"@[0]);
            reveal_strlit("slli");
            assert("jalr"@[0] != "slli"@[0]);
            reveal_strlit("slti");
            assert("jalr"@[0] != "slti"@[0]);
            reveal_strlit("xori");
            assert("jalr"@[0] != "xori"@[0]);
            reveal_strlit("srli");
            assert("jalr"@[0] != "srli"@[0]);
            reveal_strlit("srai");
            assert("jalr"@[0] != "srai"@[0]);
            reveal_strlit("ori");
            assert("jalr"@.len() != "ori"@.len());
            reveal_strlit("andi");
            assert("jalr"@[0] != "andi"@[0]);
            reveal_strlit("sw");
            assert("jalr"@.len() != "sw"@.len());
            reveal_strlit("add");
            assert("jalr"@.len() != "add"@.len());
            reveal_strlit("sub");
            assert("jalr"@.len() != "sub"@.len());
            reveal_strlit("sll");
            assert("jalr"@.len() != "sll"@.len());
            reveal_strlit("slt");
            assert("jalr"@.len() != "slt"@.len());
            reveal_strlit("xor");
            assert("jalr"@.len() != "xor"@.len());
            reveal_strlit("srl");
            assert("jalr"@.len() != "srl"@.len());
            reveal_strlit("sra");
            assert("jalr"@.len() != "sra"@.len());
            reveal_strlit("or");
            assert("jalr"@.len() != "or"@.len());
            reveal_strlit("and");
            assert("jalr"@.len() != "and"@.len());
            reveal_strlit("lui");
            assert("jalr"@.len() != "lui"@.len());
            reveal_strlit("beq");
            assert("jalr"@.len() != "beq"@.len());
            reveal_strlit("bne");
            assert("jalr"@.len() != "bne"@.len());
            reveal_strlit("blt");
            assert("jalr"@.len() != "blt"@.len());
            reveal_strlit("bge");
            assert("jalr"@.len() != "bge"@.len());
        },
        InstructionEnum::Jal(_) => {
            reveal_strlit("jal");
            reveal_strlit("lw");
            assert("jal"@.len() != "lw"@.len());
            reveal_strlit("addi");
            assert("jal"@.len() != "addi"@.len());
            reveal_strlit("slli");
            assert("jal"@.len() != "slli"@.len());
            reveal_strlit("slti");
            assert("jal"@.len() != "slti"@.len());
            reveal_strlit("xori");
            assert("jal"@.len() != "xori"@.len());
            reveal_strlit("srli");
            assert("jal"@.len() != "srli"@.len());
            reveal_strlit("srai");
            assert("jal"@.len() != "srai"@.len());
            reveal_strlit("ori");
            assert("jal"@[0] != "ori"@[0]);
            reveal_strlit("andi");
            assert("jal"@.len() != "andi"@.len());
            reveal_strlit("sw");
            assert("jal"@.len() != "sw"@.len());
            reveal_strlit("add");
            assert("jal"@[0] != "add"@[0]);
            reveal_strlit("sub");
            assert("jal"@[0] != "sub"@[0]);
            reveal_strlit("sll");
            assert("jal"@[0] != "sll"@[0]);
            reveal_strlit("slt");
            assert("jal"@[0] != "slt"@[0]);
            reveal_strlit("xor");
            assert("jal"@[0] != "xor"@[0]);
            reveal_strlit("srl");
            assert("jal"@[0] != "srl"@[0]);
            reveal_strlit("sra");
            assert("jal"@[0] != "sra"@[0]);
            reveal_strlit("or");
            assert("jal"@.len() != "or"@.len());
            reveal_strlit("and");
            assert("jal"@[0] != "and"@[0]);
            reveal_strlit("lui");
            assert("jal"@[0] != "lui"@[0]);
            reveal_strlit("beq");
            assert("jal"@[0] != "beq"@[0]);
            reveal_strlit("bne");
            assert("jal"@[0] != "bne"@[0]);
            reveal_strlit("blt");
            assert("jal"@[0] != "blt"@[0]);
            reveal_strlit("bge");
            assert("jal"@[0] != "bge"@[0]);
            reveal_strlit("jalr");
            assert("jal"@.len() != "jalr"@.len());
        },
        InstructionEnum::Flw(_) => {
            reveal_strlit("flw");
            reveal_strlit("lw");
            assert("flw"@.len() != "lw"@.len());
            reveal_strlit("addi");
            assert("flw"@.len() != "addi"@.len());
            reveal_strlit("slli");
            assert("flw"@.len() != "slli"@.len());
            reveal_strlit("slti");
            assert("flw"@.len() != "slti"@.len());
            reveal_strlit("xori");
            assert("flw"@.len() != "xori"@.len());
            reveal_strlit("srli");
            assert("flw"@.len() != "srli"@.len());
            reveal_strlit("srai");
            assert("flw"@.len() != "srai"@.len());
            reveal_strlit("ori");
            assert("flw"@[0] != "ori"@[0]);
            reveal_strlit("andi");
            assert("flw"@.len() != "andi"@.len());
            reveal_strlit("sw");
            assert("flw"@.len() != "sw"@.len());
            reveal_strlit("add");
            assert("flw"@[0] != "add"@[0]);
            reveal_strlit("sub");
            assert("flw"@[0] != "sub"@[0]);
            reveal_strlit("sll");
            assert("flw"@[0] != "sll"@[0]);
            reveal_strlit("slt");
            assert("flw"@[0] != "slt"@[0]);
            reveal_strlit("xor");
            assert("flw"@[0] != "xor"@[0]);
            reveal_strlit("srl");
            assert("flw"@[0] != "srl"@[0]);
            reveal_strlit("sra");
            assert("flw"@[0] != "sra"@[0]);
            reveal_strlit("or");
            assert("flw"@.len() != "or"@.len());
            reveal_strlit("and");
            assert("flw"@[0] != "and"@[0]);
            reveal_strlit("lui");
            assert("flw"@[0] != "lui"@[0]);
            reveal_strlit("beq");
            assert("flw"@[0] != "beq"@[0]);
            reveal_strlit("bne");
            assert("flw"@[0] != "bne"@[0]);
            reveal_strlit("blt");
            assert("flw"@[0] != "blt"@[0]);
            reveal_strlit("bge");
            assert("flw"@[0] != "bge"@[0]);
            reveal_strlit("jalr");
            assert("flw"@.len() != "jalr"@.len());
            reveal_strlit("jal");
            assert("flw"@[0] != "jal"@[0]);
        },
        InstructionEnum::Fadd(_) => {
            reveal_strlit("fadd");
            reveal_strlit("lw");
            assert("fadd"@.len() != "lw"@.len());
            reveal_strlit("addi");
            assert("fadd"@[0] != "addi"@[0]);
            reveal_strlit("slli");
            assert("fadd"@[0] != "slli"@[0]);
            reveal_strlit("slti");
            assert("fadd"@[0] != "slti"@[0]);
            reveal_strlit("xori");
            assert("fadd"@[0] != "xori"@[0]);
            reveal_strlit("srli");
            assert("fadd"@[0] != "srli"@[0]);
            reveal_strlit("srai");
            assert("fadd"@[0] != "srai"@[0]);
            reveal_strlit("ori");
            assert("fadd"@.len() != "ori"@.len());
            reveal_strlit("andi");
            assert("fadd"@[0] != "andi"@[0]);
            reveal_strlit("sw");
            assert("fadd"@.len() != "sw"@.len());
            reveal_strlit("add");
            assert("fadd"@.len() != "add"@.len());
            reveal_strlit("sub");
            assert("fadd"@.len() != "sub"@.len());
            reveal_strlit("sll");
            assert("fadd"@.len() != "sll"@.len());
            reveal_strlit("slt");
            assert("fadd"@.len() != "slt"@.len());
            reveal_strlit("xor");
            assert("fadd"@.len() != "xor"@.len());
            reveal_strlit("srl");
            assert("fadd"@.len() != "srl"@.len());
            reveal_strlit("sra");
            assert("fadd"@.len() != "sra"@.len());
            reveal_strlit("or");
            assert("fadd"@.len() != "or"@.len());
            reveal_strlit("and");
            assert("fadd"@.len() != "and"@.len());
            reveal_strlit("lui");
            assert("fadd"@.len() != "lui"@.len());
            reveal_strlit("beq");
            assert("fadd"@.len() != "beq"@.len());
            reveal_strlit("bne");
            assert("fadd"@.len() != "bne"@.len());
            reveal_strlit("blt");
            assert("fadd"@.len() != "blt"@.len());
            reveal_strlit("bge");
            assert("fadd"@.len() != "bge"@.len());
            reveal_strlit("jalr");
            assert("fadd"@[0] != "jalr"@[0]);
            reveal_strlit("jal");
            assert("fadd"@.len() != "jal"@.len());
            reveal_strlit("flw");
            assert("fadd"@.len() != "flw"@.len());
        },
        InstructionEnum::Fsub(_) => {
            reveal_strlit("fsub");
            reveal_strlit("lw");
            assert("fsub"@.len() != "lw"@.len());
            reveal_strlit("addi");
            assert("fsub"@[0] != "addi"@[0]);
            reveal_strlit("slli");
            assert("fsub"@[0] != "slli"@[0]);
            reveal_strlit("slti");
            assert("fsub"@[0] != "slti"@[0]);
            reveal_strlit("xori");
            assert("fsub"@[0] != "xori"@[0]);
            reveal_strlit("srli");
            assert("fsub"@[0] != "srli"@[0]);
            reveal_strlit("srai");
            assert("fsub"@[0] != "srai"@[0]);
            reveal_strlit("ori");
            assert("fsub"@.len() != "ori"@.len());
            reveal_strlit("andi");
            assert("fsub"@[0] != "andi"@[0]);
            reveal_strlit("sw");
            assert("fsub"@.len() != "sw"@.len());
            reveal_strlit("add");
            assert("fsub"@.len() != "add"@.len());
            reveal_strlit("sub");
            assert("fsub"@.len() != "sub"@.len());
            reveal_strlit("sll");
            assert("fsub"@.len() != "sll"@.len());
            reveal_strlit("slt");
            assert("fsub"@.len() != "slt"@.len());
            reveal_strlit("xor");
            assert("fsub"@.len() != "xor"@.len());
            reveal_strlit("srl");
            assert("fsub"@.len() != "srl"@.len());
            reveal_strlit("sra");
            assert("fsub"@.len() != "sra"@.len());
            reveal_strlit("or");
            assert("fsub"@.len() != "or"@.len());
            reveal_strlit("and");
            assert("fsub"@.len() != "and"@.len());
            reveal_strlit("lui");
            assert("fsub"@.len() != "lui"@.len());
            reveal_strlit("beq");
            assert("fsub"@.len() != "beq"@.len());
            reveal_strlit("bne");
            assert("fsub"@.len() != "bne"@.len());
            reveal_strlit("blt");
            assert("fsub"@.len() != "blt"@.len());
            reveal_strlit("bge");
            assert("fsub"@.len() != "bge"@.len());
            reveal_strlit("jalr");
            assert("fsub"@[0] != "jalr"@[0]);
            reveal_strlit("jal");
            assert("fsub"@.len() != "jal"@.len());
            reveal_strlit("flw");
            assert("fsub"@.len() != "flw"@.len());
            reveal_strlit("fadd");
            assert("fsub"@[1] != "fadd"@[1]);
        },
        InstructionEnum::Fmul(_) => {
            reveal_strlit("fmul");
            reveal_strlit("lw");
            assert("fmul"@.len() != "lw"@.len());
            reveal_strlit("addi");
            assert("fmul"@[0] != "addi"@[0]);
            reveal_strlit("slli");
            assert("fmul"@[0] != "slli"@[0]);
            reveal_strlit("slti");
            assert("fmul"@[0] != "slti"@[0]);
            reveal_strlit("xori");
            assert("fmul"@[0] != "xori"@[0]);
            reveal_strlit("srli");
            assert("fmul"@[0] != "srli"@[0]);
            reveal_strlit("srai");
            assert("fmul"@[0] != "srai"@[0]);
            reveal_strlit("ori");
            assert("fmul"@.len() != "ori"@.len());
            reveal_strlit("andi");
            assert("fmul"@[0] != "andi"@[0]);
            reveal_strlit("sw");
            assert("fmul"@.len() != "sw"@.len());
            reveal_strlit("add");
            assert("fmul"@.len() != "add"@.len());
            reveal_strlit("sub");
            assert("fmul"@.len() != "sub"@.len());
            reveal_strlit("sll");
            assert("fmul"@.len() != "sll"@.len());
            reveal_strlit("slt");
            assert("fmul"@.len() != "slt"@.len());
            reveal_strlit("xor");
            assert("fmul"@.len() != "xor"@.len());
            reveal_strlit("srl");
            assert("fmul"@.len() != "srl"@.len());
            reveal_strlit("sra");
            assert("fmul"@.len() != "sra"@.len());
            reveal_strlit("or");
            assert("fmul"@.len() != "or"@.len());
            reveal_strlit("and");
            assert("fmul"@.len() != "and"@.len());
            reveal_strlit("lui");
            assert("fmul"@.len() != "lui"@.len());
            reveal_strlit("beq");
            assert("fmul"@.len() != "beq"@.len());
            reveal_strlit("bne");
            assert("fmul"@.len() != "bne"@.len());
            reveal_strlit("blt");
            assert("fmul"@.len() != "blt"@.len());
            reveal_strlit("bge");
            assert("fmul"@.len() != "bge"@.len());
            reveal_strlit("jalr");
            assert("fmul"@[0] != "jalr"@[0]);
            reveal_strlit("jal");
            assert("fmul"@.len() != "jal"@.len());
            reveal_strlit("flw");
            assert("fmul"@.len() != "flw"@.len());
            reveal_strlit("fadd");
            assert("fmul"@[1] != "fadd"@[1]);
            reveal_strlit("fsub");
            assert("fmul"@[1] != "fsub"@[1]);
        },
        InstructionEnum::Fdiv(_) => {
            reveal_strlit("fdiv");
            reveal_strlit("lw");
            assert("fdiv"@.len() != "lw"@.len());
            reveal_strlit("addi");
            assert("fdiv"@[0] != "addi"@[0]);
            reveal_strlit("slli");
            assert("fdiv"@[0] != "slli"@[0]);
            reveal_strlit("slti");
            assert("fdiv"@[0] != "slti"@[0]);
            reveal_strlit("xori");
            assert("fdiv"@[0] != "xori"@[0]);
            reveal_strlit("srli");
            assert("fdiv"@[0] != "srli"@[0]);
            reveal_strlit("srai");
            assert("fdiv"@[0] != "srai"@[0]);
            reveal_strlit("ori");
            assert("fdiv"@.len() != "ori"@.len());
            reveal_strlit("andi");
            assert("fdiv"@[0] != "andi"@[0]);
            reveal_strlit("sw");
            assert("fdiv"@.len() != "sw"@.len());
            reveal_strlit("add");
            assert("fdiv"@.len() != "add"@.len());
            reveal_strlit("sub");
            assert("fdiv"@.len() != "sub"@.len());
            reveal_strlit("sll");
            assert("fdiv"@.len() != "sll"@.len());
            reveal_strlit("slt");
            assert("fdiv"@.len() != "slt"@.len());
            reveal_strlit("xor");
            assert("fdiv"@.len() != "xor"@.len());
            reveal_strlit("srl");
            assert("fdiv"@.len() != "srl"@.len());
            reveal_strlit("sra");
            assert("fdiv"@.len() != "sra"@.len());
            reveal_strlit("or");
            assert("fdiv"@.len() != "or"@.len());
            reveal_strlit("and");
            assert("fdiv"@.len() != "and"@.len());
            reveal_strlit("lui");
            assert("fdiv"@.len() != "lui"@.len());
            reveal_strlit("beq");
            assert("fdiv"@.len() != "beq"@.len());
            reveal_strlit("bne");
            assert("fdiv"@.len() != "bne"@.len());
            reveal_strlit("blt");
            assert("fdiv"@.len() != "blt"@.len());
            reveal_strlit("bge");
            assert("fdiv"@.len() != "bge"@.len());
            reveal_strlit("jalr");
            assert("fdiv"@[0] != "jalr"@[0]);
            reveal_strlit("jal");
            assert("fdiv"@.len() != "jal"@.len());
            reveal_strlit("flw");
            assert("fdiv"@.len() != "flw"@.len());
            reveal_strlit("fadd");
            assert("fdiv"@[1] != "fadd"@[1]);
            reveal_strlit("fsub");
            assert("fdiv"@[1] != "fsub"@[1]);
            reveal_strlit("fmul");
            assert("fdiv"@[1] != "fmul"@[1]);
        },
        InstructionEnum::Fsqrt(_) => {
            reveal_strlit("fsqrt");
            reveal_strlit("lw");
            assert("fsqrt"@.len() != "lw"@.len());
            reveal_strlit("addi");
            assert("fsqrt"@.len() != "addi"@.len());
            reveal_strlit("slli");
            assert("fsqrt"@.len() != "slli"@.len());
            reveal_strlit("slti");
            assert("fsqrt"@.len() != "slti"@.len());
            reveal_strlit("xori");
            assert("fsqrt"@.len() != "xori"@.len());
            reveal_strlit("srli");
            assert("fsqrt"@.len() != "srli"@.len());
            reveal_strlit("srai");
            assert("fsqrt"@.len() != "srai"@.len());
            reveal_strlit("ori");
            assert("fsqrt"@.len() != "ori"@.len());
            reveal_strlit("andi");
            assert("fsqrt"@.len() != "andi"@.len());
            reveal_strlit("sw");
            assert("fsqrt"@.len() != "sw"@.len());
            reveal_strlit("add");
            assert("fsqrt"@.len() != "add"@.len());
            reveal_strlit("sub");
            assert("fsqrt"@.len() != "sub"@.len());
            reveal_strlit("sll");
            assert("fsqrt"@.len() != "sll"@.len());
            reveal_strlit("slt");
            assert("fsqrt"@.len() != "slt"@.len());
            reveal_strlit("xor");
            assert("fsqrt"@.len() != "xor"@.len());
            reveal_strlit("srl");
            assert("fsqrt"@.len() != "srl"@.len());
            reveal_strlit("sra");
            assert("fsqrt"@.len() != "sra"@.len());
            reveal_strlit("or");
            assert("fsqrt"@.len() != "or"@.len());
            reveal_strlit("and");
            assert("fsqrt"@.len() != "and"@.len());
            reveal_strlit("lui");
            assert("fsqrt"@.len() != "lui"@.len());
            reveal_strlit("beq");
            assert("fsqrt"@.len() != "beq"@.len());
            reveal_strlit("bne");
            assert("fsqrt"@.len() != "bne"@.len());
            reveal_strlit("blt");
            assert("fsqrt"@.len() != "blt"@.len());
            reveal_strlit("bge");
            assert("fsqrt"@.len() != "bge"@.len());
            reveal_strlit("jalr");
            assert("fsqrt"@.len() != "jalr"@.len());
            reveal_strlit("jal");
            assert("fsqrt"@.len() != "jal"@.len());
            reveal_strlit("flw");
            assert("fsqrt"@.len() != "flw"@.len());
            reveal_strlit("fadd");
            assert("fsqrt"@.len() != "fadd"@.len());
            reveal_strlit("fsub");
            assert("fsqrt"@.len() != "fsub"@.len());
            reveal_strlit("fmul");
            assert("fsqrt"@.len() != "fmul"@.len());
            reveal_strlit("fdiv");
            assert("fsqrt"@.len() != "fdiv"@.len());
        },
        InstructionEnum::Fsgnj(_) => {
            reveal_strlit("fsgnj");
            reveal_strlit("lw");
            assert("fsgnj"@.len() != "lw"@.len());
            reveal_strlit("addi");
            assert("fsgnj"@.len() != "addi"@.len());
            reveal_strlit("slli");
            assert("fsgnj"@.len() != "slli"@.len());
            reveal_strlit("slti");
            assert("fsgnj"@.len() != "slti"@.len());
            reveal_strlit("xori");
            assert("fsgnj"@.len() != "xori"@.len());
            reveal_strlit("srli");
            assert("fsgnj"@.len() != "srli"@.len());
            reveal_strlit("srai");
            assert("fsgnj"@.len() != "srai"@.len());
            reveal_strlit("ori");
            assert("fsgnj"@.len() != "ori"@.len());
            reveal_strlit("andi");
            assert("fsgnj"@.len() != "andi"@.len());
            reveal_strlit("sw");
            assert("fsgnj"@.len() != "sw"@.len());
            reveal_strlit("add");
            assert("fsgnj"@.len() != "add"@.len());
            reveal_strlit("sub");
            assert("fsgnj"@.len() != "sub"@.len());
            reveal_strlit("sll");
            assert("fsgnj"@.len() != "sll"@.len());
            reveal_strlit("slt");
            assert("fsgnj"@.len() != "slt"@.len());
            reveal_strlit("xor");
            assert("fsgnj"@.len() != "xor"@.len());
            reveal_strlit("srl");
            assert("fsgnj"@.len() != "srl"@.len());
            reveal_strlit("sra");
            assert("fsgnj"@.len() != "sra"@.len());
            reveal_strlit("or");
            assert("fsgnj"@.len() != "or"@.len());
            reveal_strlit("and");
            assert("fsgnj"@.len() != "and"@.len());
            reveal_strlit("lui");
            assert("fsgnj"@.len() != "lui"@.len());
            reveal_strlit("beq");
            assert("fsgnj"@.len() != "beq"@.len());
            reveal_strlit("bne");
            assert("fsgnj"@.len() != "bne"@.len());
            reveal_strlit("blt");
            assert("fsgnj"@.len() != "blt"@.len());
            reveal_strlit("bge");
            assert("fsgnj"@.len() != "bge"@.len());
            reveal_strlit("jalr");
            assert("fsgnj"@.len() != "jalr"@.len());
            reveal_strlit("jal");
            assert("fsgnj"@.len() != "jal"@.len());
            reveal_strlit("flw");
            assert("fsgnj"@.len() != "flw"@.len());
            reveal_strlit("fadd");
            assert("fsgnj"@.len() != "fadd"@.len());
            reveal_strlit("fsub");
            assert("fsgnj"@.len() != "fsub"@.len());
            reveal_strlit("fmul");
            assert("fsgnj"@.len() != "fmul"@.len());
            reveal_strlit("fdiv");
            assert("fsgnj"@.len() != "fdiv"@.len());
            reveal_strlit("fsqrt");
            assert("fsgnj"@[2] != "fsqrt"@[2]);
        },
        InstructionEnum::Fsgnjn(_) => {
            reveal_strlit("fsgnjn");
            reveal_strlit("lw");
            assert("fsgnjn"@.len() != "lw"@.len());
            reveal_strlit("addi");
            assert("fsgnjn"@.len() != "addi"@.len());
            reveal_strlit("slli");
            assert("fsgnjn"@.len() != "slli"@.len());
            reveal_strlit("slti");
            assert("fsgnjn"@.len() != "slti"@.len());
            reveal_strlit("xori");
            assert("fsgnjn"@.len() != "xori"@.len());
            reveal_strlit("srli");
            assert("fsgnjn"@.len() != "srli"@.len());
            reveal_strlit("srai");
            assert("fsgnjn"@.len() != "srai"@.len());
            reveal_strlit("ori");
            assert("fsgnjn"@.len() != "ori"@.len());
            reveal_strlit("andi");
            assert("fsgnjn"@.len() != "andi"@.len());
            reveal_strlit("sw");
            assert("fsgnjn"@.len() != "sw"@.len());
            reveal_strlit("add");
            assert("fsgnjn"@.len() != "add"@.len());
            reveal_strlit("sub");
            assert("fsgnjn"@.len() != "sub"@.len());
            reveal_strlit("sll");
            assert("fsgnjn"@.len() != "sll"@.len());
            reveal_strlit("slt");
            assert("fsgnjn"@.len() != "slt"@.len());
            reveal_strlit("xor");
            assert("fsgnjn"@.len() != "xor"@.len());
            reveal_strlit("srl");
            assert("fsgnjn"@.len() != "srl"@.len());
            reveal_strlit("sra");
            assert("fsgnjn"@.len() != "sra"@.len());
            reveal_strlit("or");
            assert("fsgnjn"@.len() != "or"@.len());
            reveal_strlit("and");
            assert("fsgnjn"@.len() != "and"@.len());
            reveal_strlit("lui");
            assert("fsgnjn"@.len() != "lui"@.len());
            reveal_strlit("beq");
            assert("fsgnjn"@.len() != "beq"@.len());
            reveal_strlit("bne");
            assert("fsgnjn"@.len() != "bne"@.len());
            reveal_strlit("blt");
            assert("fsgnjn"@.len() != "blt"@.len());
            reveal_strlit("bge");
            assert("fsgnjn"@.len() != "bge"@.len());
            reveal_strlit("jalr");
            assert("fsgnjn"@.len() != "jalr"@.len());
            reveal_strlit("jal");
            assert("fsgnjn"@.len() != "jal"@.len());
            reveal_strlit("flw");
            assert("fsgnjn"@.len() != "flw"@.len());
            reveal_strlit("fadd");
            assert("fsgnjn"@.len() != "fadd"@.len());
            reveal_strlit("fsub");
            assert("fsgnjn"@.len() != "fsub"@.len());
            reveal_strlit("fmul");
            assert("fsgnjn"@.len() != "fmul"@.len());
            reveal_strlit("fdiv");
            assert("fsgnjn"@.len() != "fdiv"@.len());
            reveal_strlit("fsqrt");
            assert("fsgnjn"@.len() != "fsqrt"@.len());
            reveal_strlit("fsgnj");
            assert("fsgnjn"@.len() != "fsgnj"@.len());
        },
        InstructionEnum::Fsgnjx(_) => {
            reveal_strlit("fsgnjx");
            reveal_strlit("lw");
            assert("fsgnjx"@.len() != "lw"@.len());
            reveal_strlit("addi");
            assert("fsgnjx"@.len() != "addi"@.len());
            reveal_strlit("slli");
            assert("fsgnjx"@.len() != "slli"@.len());
            reveal_strlit("slti");
            assert("fsgnjx"@.len() != "slti"@.len());
            reveal_strlit("xori");
            assert("fsgnjx"@.len() != "xori"@.len());
            reveal_strlit("srli");
            assert("fsgnjx"@.len() != "srli"@.len());
            reveal_strlit("srai");
            assert("fsgnjx"@.len() != "srai"@.len());
            reveal_strlit("ori");
            assert("fsgnjx"@.len() != "ori"@.len());
            reveal_strlit("andi");
            assert("fsgnjx"@.len() != "andi"@.len());
            reveal_strlit("sw");
            assert("fsgnjx"@.len() != "sw"@.len());
            reveal_strlit("add");
            assert("fsgnjx"@.len() != "add"@.len());
            reveal_strlit("sub");
            assert("fsgnjx"@.len() != "sub"@.len());
            reveal_strlit("sll");
            assert("fsgnjx"@.len() != "sll"@.len());
            reveal_strlit("slt");
            assert("fsgnjx"@.len() != "slt"@.len());
            reveal_strlit("xor");
            assert("fsgnjx"@.len() != "xor"@.len());
            reveal_strlit("srl");
            assert("fsgnjx"@.len() != "srl"@.len());
            reveal_strlit("sra");
            assert("fsgnjx"@.len() != "sra"@.len());
            reveal_strlit("or");
            assert("fsgnjx"@.len() != "or"@.len());
            reveal_strlit("and");
            assert("fsgnjx"@.len() != "and"@.len());
            reveal_strlit("lui");
            assert("fsgnjx"@.len() != "lui"@.len());
            reveal_strlit("beq");
            assert("fsgnjx"@.len() != "beq"@.len());
            reveal_strlit("bne");
            assert("fsgnjx"@.len() != "bne"@.len());
            reveal_strlit("blt");
            assert("fsgnjx"@.len() != "blt"@.len());
            reveal_strlit("bge");
            assert("fsgnjx"@.len() != "bge"@.len());
            reveal_strlit("jalr");
            assert("fsgnjx"@.len() != "jalr"@.len());
            reveal_strlit("jal");
            assert("fsgnjx"@.len() != "jal"@.len());
            reveal_strlit("flw");
            assert("fsgnjx"@.len() != "flw"@.len());
            reveal_strlit("fadd");
            assert("fsgnjx"@.len() != "fadd"@.len());
            reveal_strlit("fsub");
            assert("fsgnjx"@.len() != "fsub"@.len());
            reveal_strlit("fmul");
            assert("fsgnjx"@.len() != "fmul"@.len());
            reveal_strlit("fdiv");
            assert("fsgnjx"@.len() != "fdiv"@.len());
            reveal_strlit("fsqrt");
            assert("fsgnjx"@.len() != "fsqrt"@.len());
            reveal_strlit("fsgnj");
            assert("fsgnjx"@.len() != "fsgnj"@.len());
            reveal_strlit("fsgnjn");
            assert("fsgnjx"@[5] != "fsgnjn"@[5]);
        },
        InstructionEnum::Feq(_) => {
            reveal_strlit("feq");
            reveal_strlit("lw");
            assert("feq"@.len() != "lw"@.len());
            reveal_strlit("addi");
            assert("feq"@.len() != "addi"@.len());
            reveal_strlit("slli");
            assert("feq"@.len() != "slli"@.len());
            reveal_strlit("slti");
            assert("feq"@.len() != "slti"@.len());
            reveal_strlit("xori");
            assert("feq"@.len() != "xori"@.len());
            reveal_strlit("srli");
            assert("feq"@.len() != "srli"@.len());
            reveal_strlit("srai");
            assert("feq"@.len() != "srai"@.len());
            reveal_strlit("ori");
            assert("feq"@[0] != "ori"@[0]);
            reveal_strlit("andi");
            assert("feq"@.len() != "andi"@.len());
            reveal_strlit("sw");
            assert("feq"@.len() != "sw"@.len());
            reveal_strlit("add");
            assert("feq"@[0] != "add"@[0]);
            reveal_strlit("sub");
            assert("feq"@[0] != "sub"@[0]);
            reveal_strlit("sll");
            assert("feq"@[0] != "sll"@[0]);
            reveal_strlit("slt");
            assert("feq"@[0] != "slt"@[0]);
            reveal_strlit("xor");
            assert("feq"@[0] != "xor"@[0]);
            reveal_strlit("srl");
            assert("feq"@[0] != "srl"@[0]);
            reveal_strlit("sra");
            assert("feq"@[0] != "sra"@[0]);
            reveal_strlit("or");
            assert("feq"@.len() != "or"@.len());
            reveal_strlit("and");
            assert("feq"@[0] != "and"@[0]);
            reveal_strlit("lui");
            assert("feq"@[0] != "lui"@[0]);
            reveal_strlit("beq");
            assert("feq"@[0] != "beq"@[0]);
            reveal_strlit("bne");
            assert("feq"@[0] != "bne"@[0]);
            reveal_strlit("blt");
            assert("feq"@[0] != "blt"@[0]);
            reveal_strlit("bge");
            assert("feq"@[0] != "bge"@[0]);
            reveal_strlit("jalr");
            assert("feq"@.len() != "jalr"@.len());
            reveal_strlit("jal");
            assert("feq"@[0] != "jal"@[0]);
            reveal_strlit("flw");
            assert("feq"@[1] != "flw"@[1]);
            reveal_strlit("fadd");
            assert("feq"@.len() != "fadd"@.len());
            reveal_strlit("fsub");
            assert("feq"@.len() != "fsub"@.len());
            reveal_strlit("fmul");
            assert("feq"@.len() != "fmul"@.len());
            reveal_strlit("fdiv");
            assert("feq"@.len() != "fdiv"@.len());
            reveal_strlit("fsqrt");
            assert("feq"@.len() != "fsqrt"@.len());
            reveal_strlit("fsgnj");
            assert("feq"@.len() != "fsgnj"@.len());
            reveal_strlit("fsgnjn");
            assert("feq"@.len() != "fsgnjn"@.len());
            reveal_strlit("fsgnjx");
            assert("feq"@.len() != "fsgnjx"@.len());
        },
        InstructionEnum::Flt(_) => {
            reveal_strlit("flt");
            reveal_strlit("lw");
            assert("flt"@.len() != "lw"@.len());
            reveal_strlit("addi");
            assert("flt"@.len() != "addi"@.len());
            reveal_strlit("slli");
            assert("flt"@.len() != "slli"@.len());
            reveal_strlit("slti");
            assert("flt"@.len() != "slti"@.len());
            reveal_strlit("xori");
            assert("flt"@.len() != "xori"@.len());
            reveal_strlit("srli");
            assert("flt"@.len() != "srli"@.len());
            reveal_strlit("srai");
            assert("flt"@.len() != "srai"@.len());
            reveal_strlit("ori");
            assert("flt"@[0] != "ori"@[0]);
            reveal_strlit("andi");
            assert("flt"@.len() != "andi"@.len());
            reveal_strlit("sw");
            assert("flt"@.len() != "sw"@.len());
            reveal_strlit("add");
            assert("flt"@[0] != "add"@[0]);
            reveal_strlit("sub");
            assert("flt"@[0] != "sub"@[0]);
            reveal_strlit("sll");
            assert("flt"@[0] != "sll"@[0]);
            reveal_strlit("slt");
            assert("flt"@[0] != "slt"@[0]);
            reveal_strlit("xor");
            assert("flt"@[0] != "xor"@[0]);
            reveal_strlit("srl");
            assert("flt"@[0] != "srl"@[0]);
            reveal_strlit("sra");
            assert("flt"@[0] != "sra"@[0]);
            reveal_strlit("or");
            assert("flt"@.len() != "or"@.len());
            reveal_strlit("and");
            assert("flt"@[0] != "and"@[0]);
            reveal_strlit("lui");
            assert("flt"@[0] != "lui"@[0]);
            reveal_strlit("beq");
            assert("flt"@[0] != "beq"@[0]);
            reveal_strlit("bne");
            assert("flt"@[0] != "bne"@[0]);
            reveal_strlit("blt");
            assert("flt"@[0] != "blt"@[0]);
            reveal_strlit("bge");
            assert("flt"@[0] != "bge"@[0]);
            reveal_strlit("jalr");
            assert("flt"@.len() != "jalr"@.len());
            reveal_strlit("jal");
            assert("flt"@[0] != "jal"@[0]);
            reveal_strlit("flw");
            assert("flt"@[2] != "flw"@[2]);
            reveal_strlit("fadd");
            assert("flt"@.len() != "fadd"@.len());
            reveal_strlit("fsub");
            assert("flt"@.len() != "fsub"@.len());
            reveal_strlit("fmul");
            assert("flt"@.len() != "fmul"@.len());
            reveal_strlit("fdiv");
            assert("flt"@.len() != "fdiv"@.len());
            reveal_strlit("fsqrt");
            assert("flt"@.len() != "fsqrt"@.len());
            reveal_strlit("fsgnj");
            assert("flt"@.len() != "fsgnj"@.len());
            reveal_strlit("fsgnjn");
            assert("flt"@.len() != "fsgnjn"@.len());
            reveal_strlit("fsgnjx");
            assert("flt"@.len() != "fsgnjx"@.len());
            reveal_strlit("feq");
            assert("flt"@[1] != "feq"@[1]);
        },
        InstructionEnum::Fle(_) => {
            reveal_strlit("fle");
            reveal_strlit("lw");
            assert("fle"@.len() != "lw"@.len());
            reveal_strlit("addi");
            assert("fle"@.len() != "addi"@.len());
            reveal_strlit("slli");
            assert("fle"@.len() != "slli"@.len());
            reveal_strlit("slti");
            assert("fle"@.len() != "slti"@.len());
            reveal_strlit("xori");
            assert("fle"@.len() != "xori"@.len());
            reveal_strlit("srli");
            assert("fle"@.len() != "srli"@.len());
            reveal_strlit("srai");
            assert("fle"@.len() != "srai"@.len());
            reveal_strlit("ori");
            assert("fle"@[0] != "ori"@[0]);
            reveal_strlit("andi");
            assert("fle"@.len() != "andi"@.len());
            reveal_strlit("sw");
            assert("fle"@.len() != "sw"@.len());
            reveal_strlit("add");
            assert("fle"@[0] != "add"@[0]);
            reveal_strlit("sub");
            assert("fle"@[0] != "sub"@[0]);
            reveal_strlit("sll");
            assert("fle"@[0] != "sll"@[0]);
            reveal_strlit("slt");
            assert("fle"@[0] != "slt"@[0]);
            reveal_strlit("xor");
            assert("fle"@[0] != "xor"@[0]);
            reveal_strlit("srl");
            assert("fle"@[0] != "srl"@[0]);
            reveal_strlit("sra");
            assert("fle"@[0] != "sra"@[0]);
            reveal_strlit("or");
            assert("fle"@.len() != "or"@.len());
            reveal_strlit("and");
            assert("fle"@[0] != "and"@[0]);
            reveal_strlit("lui");
            assert("fle"@[0] != "lui"@[0]);
            reveal_strlit("beq");
            assert("fle"@[0] != "beq"@[0]);
            reveal_strlit("bne");
            assert("fle"@[0] != "bne"@[0]);
            reveal_strlit("blt");
            assert("fle"@[0] != "blt"@[0]);
            reveal_strlit("bge");
            assert("fle"@[0] != "bge"@[0]);
            reveal_strlit("jalr");
            assert("fle"@.len() != "jalr"@.len());
            reveal_strlit("jal");
            assert("fle"@[0] != "jal"@[0]);
            reveal_strlit("flw");
            assert("fle"@[2] != "flw"@[2]);
            reveal_strlit("fadd");
            assert("fle"@.len() != "fadd"@.len());
            reveal_strlit("fsub");
            assert("fle"@.len() != "fsub"@.len());
            reveal_strlit("fmul");
            assert("fle"@.len() != "fmul"@.len());
            reveal_strlit("fdiv");
            assert("fle"@.len() != "fdiv"@.len());
            reveal_strlit("fsqrt");
            assert("fle"@.len() != "fsqrt"@.len());
            reveal_strlit("fsgnj");
            assert("fle"@.len() != "fsgnj"@.len());
            reveal_strlit("fsgnjn");
            assert("fle"@.len() != "fsgnjn"@.len());
            reveal_strlit("fsgnjx");
            assert("fle"@.len() != "fsgnjx"@.len());
            reveal_strlit("feq");
            assert("fle"@[1] != "feq"@[1]);
            reveal_strlit("flt");
            assert("fle"@[2] != "flt"@[2]);
        },
        InstructionEnum::FcvtWS(_) => {
            reveal_strlit("fcvt.w.s");
            reveal_strlit("lw");
            assert("fcvt.w.s"@.len() != "lw"@.len());
            reveal_strlit("addi");
            assert("fcvt.w.s"@.len() != "addi"@.len());
            reveal_strlit("slli");
            assert("fcvt.w.s"@.len() != "slli"@.len());
            reveal_strlit("slti");
            assert("fcvt.w.s"@.len() != "slti"@.len());
            reveal_strlit("xori");
            assert("fcvt.w.s"@.len() != "xori"@.len());
            reveal_strlit("srli");
            assert("fcvt.w.s"@.len() != "srli"@.len());
            reveal_strlit("srai");
            assert("fcvt.w.s"@.len() != "srai"@.len());
            reveal_strlit("ori");
            assert("fcvt.w.s"@.len() != "ori"@.len());
            reveal_strlit("andi");
            assert("fcvt.w.s"@.len() != "andi"@.len());
            reveal_strlit("sw");
            assert("fcvt.w.s"@.len() != "sw"@.len());
            reveal_strlit("add");
            assert("fcvt.w.s"@.len() != "add"@.len());
            reveal_strlit("sub");
            assert("fcvt.w.s"@.len() != "sub"@.len());
            reveal_strlit("sll");
            assert("fcvt.w.s"@.len() != "sll"@.len());
            reveal_strlit("slt");
            assert("fcvt.w.s"@.len() != "slt"@.len());
            reveal_strlit("xor");
            assert("fcvt.w.s"@.len() != "xor"@.len());
            reveal_strlit("srl");
            assert("fcvt.w.s"@.len() != "srl"@.len());
            reveal_strlit("sra");
            assert("fcvt.w.s"@.len() != "sra"@.len());
            reveal_strlit("or");
            assert("fcvt.w.s"@.len() != "or"@.len());
            reveal_strlit("and");
            assert("fcvt.w.s"@.len() != "and"@.len());
            reveal_strlit("lui");
            assert("fcvt.w.s"@.len() != "lui"@.len());
            reveal_strlit("beq");
            assert("fcvt.w.s"@.len() != "beq"@.len());
            reveal_strlit("bne");
            assert("fcvt.w.s"@.len() != "bne"@.len());
            reveal_strlit("blt");
            assert("fcvt.w.s"@.len() != "blt"@.len());
            reveal_strlit("bge");
            assert("fcvt.w.s"@.len() != "bge"@.len());
            reveal_strlit("jalr");
            assert("fcvt.w.s"@.len() != "jalr"@.len());
            reveal_strlit("jal");
            assert("fcvt.w.s"@.len() != "jal"@.len());
            reveal_strlit("flw");
            assert("fcvt.w.s"@.len() != "flw"@.len());
            reveal_strlit("fadd");
            assert("fcvt.w.s"@.len() != "fadd"@.len());
            reveal_strlit("fsub");
            assert("fcvt.w.s"@.len() != "fsub"@.len());
            reveal_strlit("fmul");
            assert("fcvt.w.s"@.len() != "fmul"@.len());
            reveal_strlit("fdiv");
            assert("fcvt.w.s"@.len() != "fdiv"@.len());
            reveal_strlit("fsqrt");
            assert("fcvt.w.s"@.len() != "fsqrt"@.len());
            reveal_strlit("fsgnj");
            assert("fcvt.w.s"@.len() != "fsgnj"@.len());
            reveal_strlit("fsgnjn");
            assert("fcvt.w.s"@.len() != "fsgnjn"@.len());
            reveal_strlit("fsgnjx");
            assert("fcvt.w.s"@.len() != "fsgnjx"@.len());
            reveal_strlit("feq");
            assert("fcvt.w.s"@.len() != "feq"@.len());
            reveal_strlit("flt");
            assert("fcvt.w.s"@.len() != "flt"@.len());
            reveal_strlit("fle");
            assert("fcvt.w.s"@.len() != "fle"@.len());
        },
        InstructionEnum::FcvtSW(_) => {
            reveal_strlit("fcvt.s.w");
            reveal_strlit("lw");
            assert("fcvt.s.w"@.len() != "lw"@.len());
            reveal_strlit("addi");
            assert("fcvt.s.w"@.len() != "addi"@.len());
            reveal_strlit("slli");
            assert("fcvt.s.w"@.len() != "slli"@.len());
            reveal_strlit("slti");
            assert("fcvt.s.w"@.len() != "slti"@.len());
            reveal_strlit("xori");
            assert("fcvt.s.w"@.len() != "xori"@.len());
            reveal_strlit("srli");
            assert("fcvt.s.w"@.len() != "srli"@.len());
            reveal_strlit("srai");
            assert("fcvt.s.w"@.len() != "srai"@.len());
            reveal_strlit("ori");
            assert("fcvt.s.w"@.len() != "ori"@.len());
            reveal_strlit("andi");
            assert("fcvt.s.w"@.len() != "andi"@.len());
            reveal_strlit("sw");
            assert("fcvt.s.w"@.len() != "sw"@.len());
            reveal_strlit("add");
            assert("fcvt.s.w"@.len() != "add"@.len());
            reveal_strlit("sub");
            assert("fcvt.s.w"@.len() != "sub"@.len());
            reveal_strlit("sll");
            assert("fcvt.s.w"@.len() != "sll"@.len());
            reveal_strlit("slt");
            assert("fcvt.s.w"@.len() != "slt"@.len());
            reveal_strlit("xor");
            assert("fcvt.s.w"@.len() != "xor"@.len());
            reveal_strlit("srl");
            assert("fcvt.s.w"@.len() != "srl"@.len());
            reveal_strlit("sra");
            assert("fcvt.s.w"@.len() != "sra"@.len());
            reveal_strlit("or");
            assert("fcvt.s.w"@.len() != "or"@.len());
            reveal_strlit("and");
            assert("fcvt.s.w"@.len() != "and"@.len());
            reveal_strlit("lui");
            assert("fcvt.s.w"@.len() != "lui"@.len());
            reveal_strlit("beq");
            assert("fcvt.s.w"@.len() != "beq"@.len());
            reveal_strlit("bne");
            assert("fcvt.s.w"@.len() != "bne"@.len());
            reveal_strlit("blt");
            assert("fcvt.s.w"@.len() != "blt"@.len());
            reveal_strlit("bge");
            assert("fcvt.s.w"@.len() != "bge"@.len());
            reveal_strlit("jalr");
            assert("fcvt.s.w"@.len() != "jalr"@.len());
            reveal_strlit("jal");
            assert("fcvt.s.w"@.len() != "jal"@.len());
            reveal_strlit("flw");
            assert("fcvt.s.w"@.len() != "flw"@.len());
            reveal_strlit("fadd");
            assert("fcvt.s.w"@.len() != "fadd"@.len());
            reveal_strlit("fsub");
            assert("fcvt.s.w"@.len() != "fsub"@.len());
            reveal_strlit("fmul");
            assert("fcvt.s.w"@.len() != "fmul"@.len());
            reveal_strlit("fdiv");
            assert("fcvt.s.w"@.len() != "fdiv"@.len());
            reveal_strlit("fsqrt");
            assert("fcvt.s.w"@.len() != "fsqrt"@.len());
            reveal_strlit("fsgnj");
            assert("fcvt.s.w"@.len() != "fsgnj"@.len());
            reveal_strlit("fsgnjn");
            assert("fcvt.s.w"@.len() != "fsgnjn"@.len());
            reveal_strlit("fsgnjx");
            assert("fcvt.s.w"@.len() != "fsgnjx"@.len());
            reveal_strlit("feq");
            assert("fcvt.s.w"@.len() != "feq"@.len());
            reveal_strlit("flt");
            assert("fcvt.s.w"@.len() != "flt"@.len());
            reveal_strlit("fle");
            assert("fcvt.s.w"@.len() != "fle"@.len());
            reveal_strlit("fcvt.w.s");
            assert("fcvt.s.w"@[5] != "fcvt.w.s"@[5]);
        },
        InstructionEnum::Fsw(_) => {
            reveal_strlit("fsw");
            reveal_strlit("lw");
            assert("fsw"@.len() != "lw"@.len());
            reveal_strlit("addi");
            assert("fsw"@.len() != "addi"@.len());
            reveal_strlit("slli");
            assert("fsw"@.len() != "slli"@.len());
            reveal_strlit("slti");
            assert("fsw"@.len() != "slti"@.len());
            reveal_strlit("xori");
            assert("fsw"@.len() != "xori"@.len());
            reveal_strlit("srli");
            assert("fsw"@.len() != "srli"@.len());
            reveal_strlit("srai");
            assert("fsw"@.len() != "srai"@.len());
            reveal_strlit("ori");
            assert("fsw"@[0] != "ori"@[0]);
            reveal_strlit("andi");
            assert("fsw"@.len() != "andi"@.len());
            reveal_strlit("sw");
            assert("fsw"@.len() != "sw"@.len());
            reveal_strlit("add");
            assert("fsw"@[0] != "add"@[0]);
            reveal_strlit("sub");
            assert("fsw"@[0] != "sub"@[0]);
            reveal_strlit("sll");
            assert("fsw"@[0] != "sll"@[0]);
            reveal_strlit("slt");
            assert("fsw"@[0] != "slt"@[0]);
            reveal_strlit("xor");
            assert("fsw"@[0] != "xor"@[0]);
            reveal_strlit("srl");
            assert("fsw"@[0] != "srl"@[0]);
            reveal_strlit("sra");
            assert("fsw"@[0] != "sra"@[0]);
            reveal_strlit("or");
            assert("fsw"@.len() != "or"@.len());
            reveal_strlit("and");
            assert("fsw"@[0] != "and"@[0]);
            reveal_strlit("lui");
            assert("fsw"@[0] != "lui"@[0]);
            reveal_strlit("beq");
            assert("fsw"@[0] != "beq"@[0]);
            reveal_strlit("bne");
            assert("fsw"@[0] != "bne"@[0]);
            reveal_strlit("blt");
            assert("fsw"@[0] != "blt"@[0]);
            reveal_strlit("bge");
            assert("fsw"@[0] != "bge"@[0]);
            reveal_strlit("jalr");
            assert("fsw"@.len() != "jalr"@.len());
            reveal_strlit("jal");
            assert("fsw"@[0] != "jal"@[0]);
            reveal_strlit("flw");
            assert("fsw"@[1] != "flw"@[1]);
            reveal_strlit("fadd");
            assert("fsw"@.len() != "fadd"@.len());
            reveal_strlit("fsub");
            assert("fsw"@.len() != "fsub"@.len());
            reveal_strlit("fmul");
            assert("fsw"@.len() != "fmul"@.len());
            reveal_strlit("fdiv");
            assert("fsw"@.len() != "fdiv"@.len());
            reveal_strlit("fsqrt");
            assert("fsw"@.len() != "fsqrt"@.len());
            reveal_strlit("fsgnj");
            assert("fsw"@.len() != "fsgnj"@.len());
            reveal_strlit("fsgnjn");
            assert("fsw"@.len() != "fsgnjn"@.len());
            reveal_strlit("fsgnjx");
            assert("fsw"@.len() != "fsgnjx"@.len());
            reveal_strlit("feq");
            assert("fsw"@[1] != "feq"@[1]);
            reveal_strlit("flt");
            assert("fsw"@[1] != "flt"@[1]);
            reveal_strlit("fle");
            assert("fsw"@[1] != "fle"@[1]);
            reveal_strlit("fcvt.w.s");
            assert("fsw"@.len() != "fcvt.w.s"@.len());
            reveal_strlit("fcvt.s.w");
            assert("fsw"@.len() != "fcvt.s.w"@.len());
        },
        InstructionEnum::In(_) => {
            reveal_strlit("in");
            reveal_strlit("lw");
            assert("in"@[0] != "lw"@[0]);
            reveal_strlit("addi");
            assert("in"@.len() != "addi"@.len());
            reveal_strlit("slli");
            assert("in"@.len() != "slli"@.len());
            reveal_strlit("slti");
            assert("in"@.len() != "slti"@.len());
            reveal_strlit("xori");
            assert("in"@.len() != "xori"@.len());
            reveal_strlit("srli");
            assert("in"@.len() != "srli"@.len());
            reveal_strlit("srai");
            assert("in"@.len() != "srai"@.len());
            reveal_strlit("ori");
            assert("in"@.len() != "ori"@.len());
            reveal_strlit("andi");
            assert("in"@.len() != "andi"@.len());
            reveal_strlit("sw");
            assert("in"@[0] != "sw"@[0]);
            reveal_strlit("add");
            assert("in"@.len() != "add"@.len());
            reveal_strlit("sub");
            assert("in"@.len() != "sub"@.len());
            reveal_strlit("sll");
            assert("in"@.len() != "sll"@.len());
            reveal_strlit("slt");
            assert("in"@.len() != "slt"@.len());
            reveal_strlit("xor");
            assert("in"@.len() != "xor"@.len());
            reveal_strlit("srl");
            assert("in"@.len() != "srl"@.len());
            reveal_strlit("sra");
            assert("in"@.len() != "sra"@.len());
            reveal_strlit("or");
            assert("in"@[0] != "or"@[0]);
            reveal_strlit("and");
            assert("in"@.len() != "and"@.len());
            reveal_strlit("lui");
            assert("in"@.len() != "lui"@.len());
            reveal_strlit("beq");
            assert("in"@.len() != "beq"@.len());
            reveal_strlit("bne");
            assert("in"@.len() != "bne"@.len());
            reveal_strlit("blt");
            assert("in"@.len() != "blt"@.len());
            reveal_strlit("bge");
            assert("in"@.len() != "bge"@.len());
            reveal_strlit("jalr");
            assert("in"@.len() != "jalr"@.len());
            reveal_strlit("jal");
            assert("in"@.len() != "jal"@.len());
            reveal_strlit("flw");
            assert("in"@.len() != "flw"@.len());
            reveal_strlit("fadd");
            assert("in"@.len() != "fadd"@.len());
            reveal_strlit("fsub");
            assert("in"@.len() != "fsub"@.len());
            reveal_strlit("fmul");
            assert("in"@.len() != "fmul"@.len());
            reveal_strlit("fdiv");
            assert("in"@.len() != "fdiv"@.len());
            reveal_strlit("fsqrt");
            assert("in"@.len() != "fsqrt"@.len());
            reveal_strlit("fsgnj");
            assert("in"@.len() != "fsgnj"@.len());
            reveal_strlit("fsgnjn");
            assert("in"@.len() != "fsgnjn"@.len());
            reveal_strlit("fsgnjx");
            assert("in"@.len() != "fsgnjx"@.len());
            reveal_strlit("feq");
            assert("in"@.len() != "feq"@.len());
            reveal_strlit("flt");
            assert("in"@.len() != "flt"@.len());
            reveal_strlit("fle");
            assert("in"@.len() != "fle"@.len());
            reveal_strlit("fcvt.w.s");
            assert("in"@.len() != "fcvt.w.s"@.len());
            reveal_strlit("fcvt.s.w");
            assert("in"@.len() != "fcvt.s.w"@.len());
            reveal_strlit("fsw");
            assert("in"@.len() != "fsw"@.len());
        },
        InstructionEnum::Fin(_) => {
            reveal_strlit("fin");
            reveal_strlit("lw");
            assert("fin"@.len() != "lw"@.len());
            reveal_strlit("addi");
            assert("fin"@.len() != "addi"@.len());
            reveal_strlit("slli");
            assert("fin"@.len() != "slli"@.len());
            reveal_strlit("slti");
            assert("fin"@.len() != "slti"@.len());
            reveal_strlit("xori");
            assert("fin"@.len() != "xori"@.len());
            reveal_strlit("srli");
            assert("fin"@.len() != "srli"@.len());
            reveal_strlit("srai");
            assert("fin"@.len() != "srai"@.len());
            reveal_strlit("ori");
            assert("fin"@[0] != "ori"@[0]);
            reveal_strlit("andi");
            assert("fin"@.len() != "andi"@.len());
            reveal_strlit("sw");
            assert("fin"@.len() != "sw"@.len());
            reveal_strlit("add");
            assert("fin"@[0] != "add"@[0]);
            reveal_strlit("sub");
            assert("fin"@[0] != "sub"@[0]);
            reveal_strlit("sll");
            assert("fin"@[0] != "sll"@[0]);
            reveal_strlit("slt");
            assert("fin"@[0] != "slt"@[0]);
            reveal_strlit("xor");
            assert("fin"@[0] != "xor"@[0]);
            reveal_strlit("srl");
            assert("fin"@[0] != "srl"@[0]);
            reveal_strlit("sra");
            assert("fin"@[0] != "sra"@[0]);
            reveal_strlit("or");
            assert("fin"@.len() != "or"@.len());
            reveal_strlit("and");
            assert("fin"@[0] != "and"@[0]);
            reveal_strlit("lui");
            assert("fin"@[0] != "lui"@[0]);
            reveal_strlit("beq");
            assert("fin"@[0] != "beq"@[0]);
            reveal_strlit("bne");
            assert("fin"@[0] != "bne"@[0]);
            reveal_strlit("blt");
            assert("fin"@[0] != "blt"@[0]);
            reveal_strlit("bge");
            assert("fin"@[0] != "bge"@[0]);
            reveal_strlit("jalr");
            assert("fin"@.len() != "jalr"@.len());
            reveal_strlit("jal");
            assert("fin"@[0] != "jal"@[0]);
            reveal_strlit("flw");
            assert("fin"@[1] != "flw"@[1]);
            reveal_strlit("fadd");
            assert("fin"@.len() != "fadd"@.len());
            reveal_strlit("fsub");
            assert("fin"@.len() != "fsub"@.len());
            reveal_strlit("fmul");
            assert("fin"@.len() != "fmul"@.len());
            reveal_strlit("fdiv");
            assert("fin"@.len() != "fdiv"@.len());
            reveal_strlit("fsqrt");
            assert("fin"@.len() != "fsqrt"@.len());
            reveal_strlit("fsgnj");
            assert("fin"@.len() != "fsgnj"@.len());
            reveal_strlit("fsgnjn");
            assert("fin"@.len() != "fsgnjn"@.len());
            reveal_strlit("fsgnjx");
            assert("fin"@.len() != "fsgnjx"@.len());
            reveal_strlit("feq");
            assert("fin"@[1] != "feq"@[1]);
            reveal_strlit("flt");
            assert("fin"@[1] != "flt"@[1]);
            reveal_strlit("fle");
            assert("fin"@[1] != "fle"@[1]);
            reveal_strlit("fcvt.w.s");
            assert("fin"@.len() != "fcvt.w.s"@.len());
            reveal_strlit("fcvt.s.w");
            assert("fin"@.len() != "fcvt.s.w"@.len());
            reveal_strlit("fsw");
            assert("fin"@[1] != "fsw"@[1]);
            reveal_strlit("in");
            assert("fin"@.len() != "in"@.len());
        },
        InstructionEnum::Outchar(_) => {
            reveal_strlit("outchar");
            reveal_strlit("lw");
            assert("outchar"@.len() != "lw"@.len());
            reveal_strlit("addi");
            assert("outchar"@.len() != "addi"@.len());
            reveal_strlit("slli");
            assert("outchar"@.len() != "slli"@.len());
            reveal_strlit("slti");
            assert("outchar"@.len() != "slti"@.len());
            reveal_strlit("xori");
            assert("outchar"@.len() != "xori"@.len());
            reveal_strlit("srli");
            assert("outchar"@.len() != "srli"@.len());
            reveal_strlit("srai");
            assert("outchar"@.len() != "srai"@.len());
            reveal_strlit("ori");
            assert("outchar"@.len() != "ori"@.len());
            reveal_strlit("andi");
            assert("outchar"@.len() != "andi"@.len());
            reveal_strlit("sw");
            assert("outchar"@.len() != "sw"@.len());
            reveal_strlit("add");
            assert("outchar"@.len() != "add"@.len());
            reveal_strlit("sub");
            assert("outchar"@.len() != "sub"@.len());
            reveal_strlit("sll");
            assert("outchar"@.len() != "sll"@.len());
            reveal_strlit("slt");
            assert("outchar"@.len() != "slt"@.len());
            reveal_strlit("xor");
            assert("outchar"@.len() != "xor"@.len());
            reveal_strlit("srl");
            assert("outchar"@.len() != "srl"@.len());
            reveal_strlit("sra");
            assert("outchar"@.len() != "sra"@.len());
            reveal_strlit("or");
            assert("outchar"@.len() != "or"@.len());
            reveal_strlit("and");
            assert("outchar"@.len() != "and"@.len());
            reveal_strlit("lui");
            assert("outchar"@.len() != "lui"@.len());
            reveal_strlit("beq");
            assert("outchar"@.len() != "beq"@.len());
            reveal_strlit("bne");
            assert("outchar"@.len() != "bne"@.len());
            reveal_strlit("blt");
            assert("outchar"@.len() != "blt"@.len());
            reveal_strlit("bge");
            assert("outchar"@.len() != "bge"@.len());
            reveal_strlit("jalr");
            assert("outchar"@.len() != "jalr"@.len());
            reveal_strlit("jal");
            assert("outchar"@.len() != "jal"@.len());
            reveal_strlit("flw");
            assert("outchar"@.len() != "flw"@.len());
            reveal_strlit("fadd");
            assert("outchar"@.len() != "fadd"@.len());
            reveal_strlit("fsub");
            assert("outchar"@.len() != "fsub"@.len());
            reveal_strlit("fmul");
            assert("outchar"@.len() != "fmul"@.len());
            reveal_strlit("fdiv");
            assert("outchar"@.len() != "fdiv"@.len());
            reveal_strlit("fsqrt");
            assert("outchar"@.len() != "fsqrt"@.len());
            reveal_strlit("fsgnj");
            assert("outchar"@.len() != "fsgnj"@.len());
            reveal_strlit("fsgnjn");
            assert("outchar"@.len() != "fsgnjn"@.len());
            reveal_strlit("fsgnjx");
            assert("outchar"@.len() != "fsgnjx"@.len());
            reveal_strlit("feq");
            assert("outchar"@.len() != "feq"@.len());
            reveal_strlit("flt");
            assert("outchar"@.len() != "flt"@.len());
            reveal_strlit("fle");
            assert("outchar"@.len() != "fle"@.len());
            reveal_strlit("fcvt.w.s");
            assert("outchar"@.len() != "fcvt.w.s"@.len());
            reveal_strlit("fcvt.s.w");
            assert("outchar"@.len() != "fcvt.s.w"@.len());
            reveal_strlit("fsw");
            assert("outchar"@.len() != "fsw"@.len());
            reveal_strlit("in");
            assert("outchar"@.len() != "in"@.len());
            reveal_strlit("fin");
            assert("outchar"@.len() != "fin"@.len());
        },
        InstructionEnum::Outint(_) => {
            reveal_strlit("outint");
            reveal_strlit("lw");
            assert("outint"@.len() != "lw"@.len());
            reveal_strlit("addi");
            assert("outint"@.len() != "addi"@.len());
            reveal_strlit("slli");
            assert("outint"@.len() != "slli"@.len());
            reveal_strlit("slti");
            assert("outint"@.len() != "slti"@.len());
            reveal_strlit("xori");
            assert("outint"@.len() != "xori"@.len());
            reveal_strlit("srli");
            assert("outint"@.len() != "srli"@.len());
            reveal_strlit("srai");
            assert("outint"@.len() != "srai"@.len());
            reveal_strlit("ori");
            assert("outint"@.len() != "ori"@.len());
            reveal_strlit("andi");
            assert("outint"@.len() != "andi"@.len());
            reveal_strlit("sw");
            assert("outint"@.len() != "sw"@.len());
            reveal_strlit("add");
            assert("outint"@.len() != "add"@.len());
            reveal_strlit("sub");
            assert("outint"@.len() != "sub"@.len());
            reveal_strlit("sll");
            assert("outint"@.len() != "sll"@.len());
            reveal_strlit("slt");
            assert("outint"@.len() != "slt"@.len());
            reveal_strlit("xor");
            assert("outint"@.len() != "xor"@.len());
            reveal_strlit("srl");
            assert("outint"@.len() != "srl"@.len());
            reveal_strlit("sra");
            assert("outint"@.len() != "sra"@.len());
            reveal_strlit("or");
            assert("outint"@.len() != "or"@.len());
            reveal_strlit("and");
            assert("outint"@.len() != "and"@.len());
            reveal_strlit("lui");
            assert("outint"@.len() != "lui"@.len());
            reveal_strlit("beq");
            assert("outint"@.len() != "beq"@.len());
            reveal_strlit("bne");
            assert("outint"@.len() != "bne"@.len());
            reveal_strlit("blt");
            assert("outint"@.len() != "blt"@.len());
            reveal_strlit("bge");
            assert("outint"@.len() != "bge"@.len());
            reveal_strlit("jalr");
            assert("outint"@.len() != "jalr"@.len());
            reveal_strlit("jal");
            assert("outint"@.len() != "jal"@.len());
            reveal_strlit("flw");
            assert("outint"@.len() != "flw"@.len());
            reveal_strlit("fadd");
            assert("outint"@.len() != "fadd"@.len());
            reveal_strlit("fsub");
            assert("outint"@.len() != "fsub"@.len());
            reveal_strlit("fmul");
            assert("outint"@.len() != "fmul"@.len());
            reveal_strlit("fdiv");
            assert("outint"@.len() != "fdiv"@.len());
            reveal_strlit("fsqrt");
            assert("outint"@.len() != "fsqrt"@.len());
            reveal_strlit("fsgnj");
            assert("outint"@.len() != "fsgnj"@.len());
            reveal_strlit("fsgnjn");
            assert("outint"@[0] != "fsgnjn"@[0]);
            reveal_strlit("fsgnjx");
            assert("outint"@[0] != "fsgnjx"@[0]);
            reveal_strlit("feq");
            assert("outint"@.len() != "feq"@.len());
            reveal_strlit("flt");
            assert("outint"@.len() != "flt"@.len());
            reveal_strlit("fle");
            assert("outint"@.len() != "fle"@.len());
            reveal_strlit("fcvt.w.s");
            assert("outint"@.len() != "fcvt.w.s"@.len());
            reveal_strlit("fcvt.s.w");
            assert("outint"@.len() != "fcvt.s.w"@.len());
            reveal_strlit("fsw");
            assert("outint"@.len() != "fsw"@.len());
            reveal_strlit("in");
            assert("outint"@.len() != "in"@.len());
            reveal_strlit("fin");
            assert("outint"@.len() != "fin"@.len());
            reveal_strlit("outchar");
            assert("outint"@.len() != "outchar"@.len());
        },
        InstructionEnum::Fbeq(_) => {
            reveal_strlit("fbeq");
            reveal_strlit("lw");
            assert("fbeq"@.len() != "lw"@.len());
            reveal_strlit("addi");
            assert("fbeq"@[0] != "addi"@[0]);
            reveal_strlit("slli");
            assert("fbeq"@[0] != "slli"@[0]);
            reveal_strlit("slti");
            assert("fbeq"@[0] != "slti"@[0]);
            reveal_strlit("xori");
            assert("fbeq"@[0] != "xori"@[0]);
            reveal_strlit("srli");
            assert("fbeq"@[0] != "srli"@[0]);
            reveal_strlit("srai");
            assert("fbeq"@[0] != "srai"@[0]);
            reveal_strlit("ori");
            assert("fbeq"@.len() != "ori"@.len());
            reveal_strlit("andi");
            assert("fbeq"@[0] != "andi"@[0]);
            reveal_strlit("sw");
            assert("fbeq"@.len() != "sw"@.len());
            reveal_strlit("add");
            assert("fbeq"@.len() != "add"@.len());
            reveal_strlit("sub");
            assert("fbeq"@.len() != "sub"@.len());
            reveal_strlit("sll");
            assert("fbeq"@.len() != "sll"@.len());
            reveal_strlit("slt");
            assert("fbeq"@.len() != "slt"@.len());
            reveal_strlit("xor");
            assert("fbeq"@.len() != "xor"@.len());
            reveal_strlit("srl");
            assert("fbeq"@.len() != "srl"@.len());
            reveal_strlit("sra");
            assert("fbeq"@.len() != "sra"@.len());
            reveal_strlit("or");
            assert("fbeq"@.len() != "or"@.len());
            reveal_strlit("and");
            assert("fbeq"@.len() != "and"@.len());
            reveal_strlit("lui");
            assert("fbeq"@.len() != "lui"@.len());
            reveal_strlit("beq");
            assert("fbeq"@.len() != "beq"@.len());
            reveal_strlit("bne");
            assert("fbeq"@.len() != "bne"@.len());
            reveal_strlit("blt");
            assert("fbeq"@.len() != "blt"@.len());
            reveal_strlit("bge");
            assert("fbeq"@.len() != "bge"@.len());
            reveal_strlit("jalr");
            assert("fbeq"@[0] != "jalr"@[0]);
            reveal_strlit("jal");
            assert("fbeq"@.len() != "jal"@.len());
            reveal_strlit("flw");
            assert("fbeq"@.len() != "flw"@.len());
            reveal_strlit("fadd");
            assert("fbeq"@[1] != "fadd"@[1]);
            reveal_strlit("fsub");
            assert("fbeq"@[1] != "fsub"@[1]);
            reveal_strlit("fmul");
            assert("fbeq"@[1] != "fmul"@[1]);
            reveal_strlit("fdiv");
            assert("fbeq"@[1] != "fdiv"@[1]);
            reveal_strlit("fsqrt");
            assert("fbeq"@.len() != "fsqrt"@.len());
            reveal_strlit("fsgnj");
            assert("fbeq"@.len() != "fsgnj"@.len());
            reveal_strlit("fsgnjn");
            assert("fbeq"@.len() != "fsgnjn"@.len());
            reveal_strlit("fsgnjx");
            assert("fbeq"@.len() != "fsgnjx"@.len());
            reveal_strlit("feq");
            assert("fbeq"@.len() != "feq"@.len());
            reveal_strlit("flt");
            assert("fbeq"@.len() != "flt"@.len());
            reveal_strlit("fle");
            assert("fbeq"@.len() != "fle"@.len());
            reveal_strlit("fcvt.w.s");
            assert("fbeq"@.len() != "fcvt.w.s"@.len());
            reveal_strlit("fcvt.s.w");
            assert("fbeq"@.len() != "fcvt.s.w"@.len());
            reveal_strlit("fsw");
            assert("fbeq"@.len() != "fsw"@.len());
            reveal_strlit("in");
            assert("fbeq"@.len() != "in"@.len());
            reveal_strlit("fin");
            assert("fbeq"@.len() != "fin"@.len());
            reveal_strlit("outchar");
            assert("fbeq"@.len() != "outchar"@.len());
            reveal_strlit("outint");
            assert("fbeq"@.len() != "outint"@.len());
        },
        InstructionEnum::Fbne(_) => {
            reveal_strlit("fbne");
            reveal_strlit("lw");
            assert("fbne"@.len() != "lw"@.len());
            reveal_strlit("addi");
            assert("fbne"@[0] != "addi"@[0]);
            reveal_strlit("slli");
            assert("fbne"@[0] != "slli"@[0]);
            reveal_strlit("slti");
            assert("fbne"@[0] != "slti"@[0]);
            reveal_strlit("xori");
            assert("fbne"@[0] != "xori"@[0]);
            reveal_strlit("srli");
            assert("fbne"@[0] != "srli"@[0]);
            reveal_strlit("srai");
            assert("fbne"@[0] != "srai"@[0]);
            reveal_strlit("ori");
            assert("fbne"@.len() != "ori"@.len());
            reveal_strlit("andi");
            assert("fbne"@[0] != "andi"@[0]);
            reveal_strlit("sw");
            assert("fbne"@.len() != "sw"@.len());
            reveal_strlit("add");
            assert("fbne"@.len() != "add"@.len());
            reveal_strlit("sub");
            assert("fbne"@.len() != "sub"@.len());
            reveal_strlit("sll");
            assert("fbne"@.len() != "sll"@.len());
            reveal_strlit("slt");
            assert("fbne"@.len() != "slt"@.len());
            reveal_strlit("xor");
            assert("fbne"@.len() != "xor"@.len());
            reveal_strlit("srl");
            assert("fbne"@.len() != "srl"@.len());
            reveal_strlit("sra");
            assert("fbne"@.len() != "sra"@.len());
            reveal_strlit("or");
            assert("fbne"@.len() != "or"@.len());
            reveal_strlit("and");
            assert("fbne"@.len() != "and"@.len());
            reveal_strlit("lui");
            assert("fbne"@.len() != "lui"@.len());
            reveal_strlit("beq");
            assert("fbne"@.len() != "beq"@.len());
            reveal_strlit("bne");
            assert("fbne"@.len() != "bne"@.len());
            reveal_strlit("blt");
            assert("fbne"@.len() != "blt"@.len());
            reveal_strlit("bge");
            assert("fbne"@.len() != "bge"@.len());
            reveal_strlit("jalr");
            assert("fbne"@[0] != "jalr"@[0]);
            reveal_strlit("jal");
            assert("fbne"@.len() != "jal"@.len());
            reveal_strlit("flw");
            assert("fbne"@.len() != "flw"@.len());
            reveal_strlit("fadd");
            assert("fbne"@[1] != "fadd"@[1]);
            reveal_strlit("fsub");
            assert("fbne"@[1] != "fsub"@[1]);
            reveal_strlit("fmul");
            assert("fbne"@[1] != "fmul"@[1]);
            reveal_strlit("fdiv");
            assert("fbne"@[1] != "fdiv"@[1]);
            reveal_strlit("fsqrt");
            assert("fbne"@.len() != "fsqrt"@.len());
            reveal_strlit("fsgnj");
            assert("fbne"@.len() != "fsgnj"@.len());
            reveal_strlit("fsgnjn");
            assert("fbne"@.len() != "fsgnjn"@.len());
            reveal_strlit("fsgnjx");
            assert("fbne"@.len() != "fsgnjx"@.len());
            reveal_strlit("feq");
            assert("fbne"@.len() != "feq"@.len());
            reveal_strlit("flt");
            assert("fbne"@.len() != "flt"@.len());
            reveal_strlit("fle");
            assert("fbne"@.len() != "fle"@.len());
            reveal_strlit("fcvt.w.s");
            assert("fbne"@.len() != "fcvt.w.s"@.len());
            reveal_strlit("fcvt.s.w");
            assert("fbne"@.len() != "fcvt.s.w"@.len());
            reveal_strlit("fsw");
            assert("fbne"@.len() != "fsw"@.len());
            reveal_strlit("in");
            assert("fbne"@.len() != "in"@.len());
            reveal_strlit("fin");
            assert("fbne"@.len() != "fin"@.len());
            reveal_strlit("outchar");
            assert("fbne"@.len() != "outchar"@.len());
            reveal_strlit("outint");
            assert("fbne"@.len() != "outint"@.len());
            reveal_strlit("fbeq");
            assert("fbne"@[2] != "fbeq"@[2]);
        },
        InstructionEnum::Fblt(_) => {
            reveal_strlit("fblt");
            reveal_strlit("lw");
            assert("fblt"@.len() != "lw"@.len());
            reveal_strlit("addi");
            assert("fblt"@[0] != "addi"@[0]);
            reveal_strlit("slli");
            assert("fblt"@[0] != "slli"@[0]);
            reveal_strlit("slti");
            assert("fblt"@[0] != "slti"@[0]);
            reveal_strlit("xori");
            assert("fblt"@[0] != "xori"@[0]);
            reveal_strlit("srli");
            assert("fblt"@[0] != "srli"@[0]);
            reveal_strlit("srai");
            assert("fblt"@[0] != "srai"@[0]);
            reveal_strlit("ori");
            assert("fblt"@.len() != "ori"@.len());
            reveal_strlit("andi");
            assert("fblt"@[0] != "andi"@[0]);
            reveal_strlit("sw");
            assert("fblt"@.len() != "sw"@.len());
            reveal_strlit("add");
            assert("fblt"@.len() != "add"@.len());
            reveal_strlit("sub");
            assert("fblt"@.len() != "sub"@.len());
            reveal_strlit("sll");
            assert("fblt"@.len() != "sll"@.len());
            reveal_strlit("slt");
            assert("fblt"@.len() != "slt"@.len());
            reveal_strlit("xor");
            assert("fblt"@.len() != "xor"@.len());
            reveal_strlit("srl");
            assert("fblt"@.len() != "srl"@.len());
            reveal_strlit("sra");
            assert("fblt"@.len() != "sra"@.len());
            reveal_strlit("or");
            assert("fblt"@.len() != "or"@.len());
            reveal_strlit("and");
            assert("fblt"@.len() != "and"@.len());
            reveal_strlit("lui");
            assert("fblt"@.len() != "lui"@.len());
            reveal_strlit("beq");
            assert("fblt"@.len() != "beq"@.len());
            reveal_strlit("bne");
            assert("fblt"@.len() != "bne"@.len());
            reveal_strlit("blt");
            assert("fblt"@.len() != "blt"@.len());
            reveal_strlit("bge");
            assert("fblt"@.len() != "bge"@.len());
            reveal_strlit("jalr");
            assert("fblt"@[0] != "jalr"@[0]);
            reveal_strlit("jal");
            assert("fblt"@.len() != "jal"@.len());
            reveal_strlit("flw");
            assert("fblt"@.len() != "flw"@.len());
            reveal_strlit("fadd");
            assert("fblt"@[1] != "fadd"@[1]);
            reveal_strlit("fsub");
            assert("fblt"@[1] != "fsub"@[1]);
            reveal_strlit("fmul");
            assert("fblt"@[1] != "fmul"@[1]);
            reveal_strlit("fdiv");
            assert("fblt"@[1] != "fdiv"@[1]);
            reveal_strlit("fsqrt");
            assert("fblt"@.len() != "fsqrt"@.len());
            reveal_strlit("fsgnj");
            assert("fblt"@.len() != "fsgnj"@.len());
            reveal_strlit("fsgnjn");
            assert("fblt"@.len() != "fsgnjn"@.len());
            reveal_strlit("fsgnjx");
            assert("fblt"@.len() != "fsgnjx"@.len());
            reveal_strlit("feq");
            assert("fblt"@.len() != "feq"@.len());
            reveal_strlit("flt");
            assert("fblt"@.len() != "flt"@.len());
            reveal_strlit("fle");
            assert("fblt"@.len() != "fle"@.len());
            reveal_strlit("fcvt.w.s");
            assert("fblt"@.len() != "fcvt.w.s"@.len());
            reveal_strlit("fcvt.s.w");
            assert("fblt"@.len() != "fcvt.s.w"@.len());
            reveal_strlit("fsw");
            assert("fblt"@.len() != "fsw"@.len());
            reveal_strlit("in");
            assert("fblt"@.len() != "in"@.len());
            reveal_strlit("fin");
            assert("fblt"@.len() != "fin"@.len());
            reveal_strlit("outchar");
            assert("fblt"@.len() != "outchar"@.len());
            reveal_strlit("outint");
            assert("fblt"@.len() != "outint"@.len());
            reveal_strlit("fbeq");
            assert("fblt"@[2] != "fbeq"@[2]);
            reveal_strlit("fbne");
            assert("fblt"@[2] != "fbne"@[2]);
        },
        InstructionEnum::Fble(_) => {
            reveal_strlit("fble");
            reveal_strlit("lw");
            assert("fble"@.len() != "lw"@.len());
            reveal_strlit("addi");
            assert("fble"@[0] != "addi"@[0]);
            reveal_strlit("slli");
            assert("fble"@[0] != "slli"@[0]);
            reveal_strlit("slti");
            assert("fble"@[0] != "slti"@[0]);
            reveal_strlit("xori");
            assert("fble"@[0] != "xori"@[0]);
            reveal_strlit("srli");
            assert("fble"@[0] != "srli"@[0]);
            reveal_strlit("srai");
            assert("fble"@[0] != "srai"@[0]);
            reveal_strlit("ori");
            assert("fble"@.len() != "ori"@.len());
            reveal_strlit("andi");
            assert("fble"@[0] != "andi"@[0]);
            reveal_strlit("sw");
            assert("fble"@.len() != "sw"@.len());
            reveal_strlit("add");
            assert("fble"@.len() != "add"@.len());
            reveal_strlit("sub");
            assert("fble"@.len() != "sub"@.len());
            reveal_strlit("sll");
            assert("fble"@.len() != "sll"@.len());
            reveal_strlit("slt");
            assert("fble"@.len() != "slt"@.len());
            reveal_strlit("xor");
            assert("fble"@.len() != "xor"@.len());
            reveal_strlit("srl");
            assert("fble"@.len() != "srl"@.len());
            reveal_strlit("sra");
            assert("fble"@.len() != "sra"@.len());
            reveal_strlit("or");
            assert("fble"@.len() != "or"@.len());
            reveal_strlit("and");
            assert("fble"@.len() != "and"@.len());
            reveal_strlit("lui");
            assert("fble"@.len() != "lui"@.len());
            reveal_strlit("beq");
            assert("fble"@.len() != "beq"@.len());
            reveal_strlit("bne");
            assert("fble"@.len() != "bne"@.len());
            reveal_strlit("blt");
            assert("fble"@.len() != "blt"@.len());
            reveal_strlit("bge");
            assert("fble"@.len() != "bge"@.len());
            reveal_strlit("jalr");
            assert("fble"@[0] != "jalr"@[0]);
            reveal_strlit("jal");
            assert("fble"@.len() != "jal"@.len());
            reveal_strlit("flw");
            assert("fble"@.len() != "flw"@.len());
            reveal_strlit("fadd");
            assert("fble"@[1] != "fadd"@[1]);
            reveal_strlit("fsub");
            assert("fble"@[1] != "fsub"@[1]);
            reveal_strlit("fmul");
            assert("fble"@[1] != "fmul"@[1]);
            reveal_strlit("fdiv");
            assert("fble"@[1] != "fdiv"@[1]);
            reveal_strlit("fsqrt");
            assert("fble"@.len() != "fsqrt"@.len());
            reveal_strlit("fsgnj");
            assert("fble"@.len() != "fsgnj"@.len());
            reveal_strlit("fsgnjn");
            assert("fble"@.len() != "fsgnjn"@.len());
            reveal_strlit("fsgnjx");
            assert("fble"@.len() != "fsgnjx"@.len());
            reveal_strlit("feq");
            assert("fble"@.len() != "feq"@.len());
            reveal_strlit("flt");
            assert("fble"@.len() != "flt"@.len());
            reveal_strlit("fle");
            assert("fble"@.len() != "fle"@.len());
            reveal_strlit("fcvt.w.s");
            assert("fble"@.len() != "fcvt.w.s"@.len());
            reveal_strlit("fcvt.s.w");
            assert("fble"@.len() != "fcvt.s.w"@.len());
            reveal_strlit("fsw");
            assert("fble"@.len() != "fsw"@.len());
            reveal_strlit("in");
            assert("fble"@.len() != "in"@.len());
            reveal_strlit("fin");
            assert("fble"@.len() != "fin"@.len());
            reveal_strlit("outchar");
            assert("fble"@.len() != "outchar"@.len());
            reveal_strlit("outint");
            assert("fble"@.len() != "outint"@.len());
            reveal_strlit("fbeq");
            assert("fble"@[2] != "fbeq"@[2]);
            reveal_strlit("fbne");
            assert("fble"@[2] != "fbne"@[2]);
            reveal_strlit("fblt");
            assert("fble"@[3] != "fblt"@[3]);
        },
        InstructionEnum::End(_) => {
            reveal_strlit("end");
            reveal_strlit("lw");
            assert("end"@.len() != "lw"@.len());
            reveal_strlit("addi");
            assert("end"@.len() != "addi"@.len());
            reveal_strlit("slli");
            assert("end"@.len() != "slli"@.len());
            reveal_strlit("slti");
            assert("end"@.len() != "slti"@.len());
            reveal_strlit("xori");
            assert("end"@.len() != "xori"@.len());
            reveal_strlit("srli");
            assert("end"@.len() != "srli"@.len());
            reveal_strlit("srai");
            assert("end"@.len() != "srai"@.len());
            reveal_strlit("ori");
            assert("end"@[0] != "ori"@[0]);
            reveal_strlit("andi");
            assert("end"@.len() != "andi"@.len());
            reveal_strlit("sw");
            assert("end"@.len() != "sw"@.len());
            reveal_strlit("add");
            assert("end"@[0] != "add"@[0]);
            reveal_strlit("sub");
            assert("end"@[0] != "sub"@[0]);
            reveal_strlit("sll");
            assert("end"@[0] != "sll"@[0]);
            reveal_strlit("slt");
            assert("end"@[0] != "slt"@[0]);
            reveal_strlit("xor");
            assert("end"@[0] != "xor"@[0]);
            reveal_strlit("srl");
            assert("end"@[0] != "srl"@[0]);
            reveal_strlit("sra");
            assert("end"@[0] != "sra"@[0]);
            reveal_strlit("or");
            assert("end"@.len() != "or"@.len());
            reveal_strlit("and");
            assert("end"@[0] != "and"@[0]);
            reveal_strlit("lui");
            assert("end"@[0] != "lui"@[0]);
            reveal_strlit("beq");
            assert("end"@[0] != "beq"@[0]);
            reveal_strlit("bne");
            assert("end"@[0] != "bne"@[0]);
            reveal_strlit("blt");
            assert("end"@[0] != "blt"@[0]);
            reveal_strlit("bge");
            assert("end"@[0] != "bge"@[0]);
            reveal_strlit("jalr");
            assert("end"@.len() != "jalr"@.len());
            reveal_strlit("jal");
            assert("end"@[0] != "jal"@[0]);
            reveal_strlit("flw");
            assert("end"@[0] != "flw"@[0]);
            reveal_strlit("fadd");
            assert("end"@.len() != "fadd"@.len());
            reveal_strlit("fsub");
            assert("end"@.len() != "fsub"@.len());
            reveal_strlit("fmul");
            assert("end"@.len() != "fmul"@.len());
            reveal_strlit("fdiv");
            assert("end"@.len() != "fdiv"@.len());
            reveal_strlit("fsqrt");
            assert("end"@.len() != "fsqrt"@.len());
            reveal_strlit("fsgnj");
            assert("end"@.len() != "fsgnj"@.len());
            reveal_strlit("fsgnjn");
            assert("end"@.len() != "fsgnjn"@.len());
            reveal_strlit("fsgnjx");
            assert("end"@.len() != "fsgnjx"@.len());
            reveal_strlit("feq");
            assert("end"@[0] != "feq"@[0]);
            reveal_strlit("flt");
            assert("end"@[0] != "flt"@[0]);
            reveal_strlit("fle");
            assert("end"@[0] != "fle"@[0]);
            reveal_strlit("fcvt.w.s");
            assert("end"@.len() != "fcvt.w.s"@.len());
            reveal_strlit("fcvt.s.w");
            assert("end"@.len() != "fcvt.s.w"@.len());
            reveal_strlit("fsw");
            assert("end"@[0] != "fsw"@[0]);
            reveal_strlit("in");
            assert("end"@.len() != "in"@.len());
            reveal_strlit("fin");
            assert("end"@[0] != "fin"@[0]);
            reveal_strlit("outchar");
            assert("end"@.len() != "outchar"@.len());
            reveal_strlit("outint");
            assert("end"@.len() != "outint"@.len());
            reveal_strlit("fbeq");
            assert("end"@.len() != "fbeq"@.len());
            reveal_strlit("fbne");
            assert("end"@.len() != "fbne"@.len());
            reveal_strlit("fblt");
            assert("end"@.len() != "fblt"@.len());
            reveal_strlit("fble");
            assert("end"@.len() != "fble"@.len());
        },
    }
}

/// Two instructions have the same mnemonic exactly when they are of the same kind: each
/// kind of instruction has a mnemonic of its own.
pub proof fn lemma_names_distinct(a: InstructionEnum, b: InstructionEnum)
    ensures
        inst_name(a) == inst_name(b) <==> inst_kind(a) == inst_kind(b),
{
    lemma_kind_of_name(a);
    lemma_kind_of_name(b);
}

impl InstructionEnum {
    /// Reads the operands of the instruction.
    pub fn register_fetch(&mut self, core: &Core)
        requires
            core.wf(),
            inst_regs_ok(*old(self)),
        ensures
            *final(self) == fetched_inst(*old(self), core@),
    {
        match self {
            InstructionEnum::Lw(instruction) => instruction.register_fetch(core),
            InstructionEnum::Addi(instruction) => instruction.register_fetch(core),
            InstructionEnum::Slli(instruction) => instruction.register_fetch(core),
            InstructionEnum::Slti(instruction) => instruction.register_fetch(core),
            InstructionEnum::Xori(instruction) => instruction.register_fetch(core),
            InstructionEnum::Srli(instruction) => instruction.register_fetch(core),
            InstructionEnum::Srai(instruction) => instruction.register_fetch(core),
            InstructionEnum::Ori(instruction) => instruction.register_fetch(core),
            InstructionEnum::Andi(instruction) => instruction.register_fetch(core),
            InstructionEnum::Sw(instruction) => instruction.register_fetch(core),
            InstructionEnum::Add(instruction) => instruction.register_fetch(core),
            InstructionEnum::Sub(instruction) => instruction.register_fetch(core),
            InstructionEnum::Sll(instruction) => instruction.register_fetch(core),
            InstructionEnum::Slt(instruction) => instruction.register_fetch(core),
            InstructionEnum::Xor(instruction) => instruction.register_fetch(core),
            InstructionEnum::Srl(instruction) => instruction.register_fetch(core),
            InstructionEnum::Sra(instruction) => instruction.register_fetch(core),
            InstructionEnum::Or(instruction) => instruction.register_fetch(core),
            InstructionEnum::And(instruction) => instruction.register_fetch(core),
            InstructionEnum::Lui(instruction) => instruction.register_fetch(core),
            InstructionEnum::Beq(instruction) => instruction.register_fetch(core),
            InstructionEnum::Bne(instruction) => instruction.register_fetch(core),
            InstructionEnum::Blt(instruction) => instruction.register_fetch(core),
            InstructionEnum::Bge(instruction) => instruction.register_fetch(core),
            InstructionEnum::Jalr(instruction) => instruction.register_fetch(core),
            InstructionEnum::Jal(instruction) => instruction.register_fetch(core),
            InstructionEnum::Flw(instruction) => instruction.register_fetch(core),
            InstructionEnum::Fadd(instruction) => instruction.register_fetch(core),
            InstructionEnum::Fsub(instruction) => instruction.register_fetch(core),
            InstructionEnum::Fmul(instruction) => instruction.register_fetch(core),
            InstructionEnum::Fdiv(instruction) => instruction.register_fetch(core),
            InstructionEnum::Fsqrt(instruction) => instruction.register_fetch(core),
            InstructionEnum::Fsgnj(instruction) => instruction.register_fetch(core),
            InstructionEnum::Fsgnjn(instruction) => instruction.register_fetch(core),
            InstructionEnum::Fsgnjx(instruction) => instruction.register_fetch(core),
            InstructionEnum::Feq(instruction) => instruction.register_fetch(core),
            InstructionEnum::Flt(instruction) => instruction.register_fetch(core),
            InstructionEnum::Fle(instruction) => instruction.register_fetch(core),
            InstructionEnum::FcvtWS(instruction) => instruction.register_fetch(core),
            InstructionEnum::FcvtSW(instruction) => instruction.register_fetch(core),
            InstructionEnum::Fsw(instruction) => instruction.register_fetch(core),
            InstructionEnum::In(instruction) => instruction.register_fetch(core),
            InstructionEnum::Fin(instruction) => instruction.register_fetch(core),
            InstructionEnum::Outchar(instruction) => instruction.register_fetch(core),
            InstructionEnum::Outint(instruction) => instruction.register_fetch(core),
            InstructionEnum::Fbeq(instruction) => instruction.register_fetch(core),
            InstructionEnum::Fbne(instruction) => instruction.register_fetch(core),
            InstructionEnum::Fblt(instruction) => instruction.register_fetch(core),
            InstructionEnum::Fble(instruction) => instruction.register_fetch(core),
            InstructionEnum::End(instruction) => instruction.register_fetch(core),
        }
    }

    /// The execute stage of the instruction.
    pub fn exec(&mut self, core: &mut Core)
        requires
            old(core).wf(),
            inst_regs_ok(*old(self)),
            inst_ready(*old(self)),
            can_exec(*old(self), old(core)@),
        ensures
            final(core).wf(),
            (*final(self), final(core)@) == executed_inst(*old(self), old(core)@),
    {
        match self {
            InstructionEnum::Lw(instruction) => instruction.exec(core),
            InstructionEnum::Addi(instruction) => instruction.exec(core),
            InstructionEnum::Slli(instruction) => instruction.exec(core),
            InstructionEnum::Slti(instruction) => instruction.exec(core),
            InstructionEnum::Xori(instruction) => instruction.exec(core),
            InstructionEnum::Srli(instruction) => instruction.exec(core),
            InstructionEnum::Srai(instruction) => instruction.exec(core),
            InstructionEnum::Ori(instruction) => instruction.exec(core),
            InstructionEnum::Andi(instruction) => instruction.exec(core),
            InstructionEnum::Sw(instruction) => instruction.exec(core),
            InstructionEnum::Add(instruction) => instruction.exec(core),
            InstructionEnum::Sub(instruction) => instruction.exec(core),
            InstructionEnum::Sll(instruction) => instruction.exec(core),
            InstructionEnum::Slt(instruction) => instruction.exec(core),
            InstructionEnum::Xor(instruction) => instruction.exec(core),
            InstructionEnum::Srl(instruction) => instruction.exec(core),
            InstructionEnum::Sra(instruction) => instruction.exec(core),
            InstructionEnum::Or(instruction) => instruction.exec(core),
            InstructionEnum::And(instruction) => instruction.exec(core),
            InstructionEnum::Lui(instruction) => instruction.exec(core),
            InstructionEnum::Beq(instruction) => instruction.exec(core),
            InstructionEnum::Bne(instruction) => instruction.exec(core),
            InstructionEnum::Blt(instruction) => instruction.exec(core),
            InstructionEnum::Bge(instruction) => instruction.exec(core),
            InstructionEnum::Jalr(instruction) => instruction.exec(core),
            InstructionEnum::Jal(instruction) => instruction.exec(core),
            InstructionEnum::Flw(instruction) => instruction.exec(core),
            InstructionEnum::Fadd(instruction) => instruction.exec(core),
            InstructionEnum::Fsub(instruction) => {},
            InstructionEnum::Fmul(instruction) => {},
            InstructionEnum::Fdiv(instruction) => {},
            InstructionEnum::Fsqrt(instruction) => {},
            InstructionEnum::Fsgnj(instruction) => {},
            InstructionEnum::Fsgnjn(instruction) => {},
            InstructionEnum::Fsgnjx(instruction) => {},
            InstructionEnum::Feq(instruction) => instruction.exec(core),
            InstructionEnum::Flt(instruction) => instruction.exec(core),
            InstructionEnum::Fle(instruction) => instruction.exec(core),
            InstructionEnum::FcvtWS(instruction) => {},
            InstructionEnum::FcvtSW(instruction) => {},
            InstructionEnum::Fsw(instruction) => instruction.exec(core),
            InstructionEnum::In(instruction) => instruction.exec(core),
            InstructionEnum::Fin(instruction) => instruction.exec(core),
            InstructionEnum::Outchar(instruction) => instruction.exec(core),
            InstructionEnum::Outint(instruction) => instruction.exec(core),
            InstructionEnum::Fbeq(instruction) => instruction.exec(core),
            InstructionEnum::Fbne(instruction) => instruction.exec(core),
            InstructionEnum::Fblt(instruction) => instruction.exec(core),
            InstructionEnum::Fble(instruction) => instruction.exec(core),
            InstructionEnum::End(instruction) => {},
        }
    }

    /// The memory stage of the instruction.
    pub fn memory(&mut self, core: &mut Core)
        requires
            old(core).wf(),
            inst_regs_ok(*old(self)),
            inst_done_exec(*old(self)),
            can_access_memory(*old(self), old(core)@),
        ensures
            final(core).wf(),
            (*final(self), final(core)@) == after_memory_inst(*old(self), old(core)@),
    {
        match self {
            InstructionEnum::Lw(instruction) => instruction.memory(core),
            InstructionEnum::Addi(instruction) => {},
            InstructionEnum::Slli(instruction) => {},
            InstructionEnum::Slti(instruction) => {},
            InstructionEnum::Xori(instruction) => {},
            InstructionEnum::Srli(instruction) => {},
            InstructionEnum::Srai(instruction) => {},
            InstructionEnum::Ori(instruction) => {},
            InstructionEnum::Andi(instruction) => {},
            InstructionEnum::Sw(instruction) => instruction.memory(core),
            InstructionEnum::Add(instruction) => {},
            InstructionEnum::Sub(instruction) => {},
            InstructionEnum::Sll(instruction) => {},
            InstructionEnum::Slt(instruction) => {},
            InstructionEnum::Xor(instruction) => {},
            InstructionEnum::Srl(instruction) => {},
            InstructionEnum::Sra(instruction) => {},
            InstructionEnum::Or(instruction) => {},
            InstructionEnum::And(instruction) => {},
            InstructionEnum::Lui(instruction) => {},
            InstructionEnum::Beq(instruction) => {},
            InstructionEnum::Bne(instruction) => {},
            InstructionEnum::Blt(instruction) => {},
            InstructionEnum::Bge(instruction) => {},
            InstructionEnum::Jalr(instruction) => {},
            InstructionEnum::Jal(instruction) => {},
            InstructionEnum::Flw(instruction) => instruction.memory(core),
            InstructionEnum::Fadd(instruction) => {},
            InstructionEnum::Fsub(instruction) => {},
            InstructionEnum::Fmul(instruction) => {},
            InstructionEnum::Fdiv(instruction) => {},
            InstructionEnum::Fsqrt(instruction) => {},
            InstructionEnum::Fsgnj(instruction) => {},
            InstructionEnum::Fsgnjn(instruction) => {},
            InstructionEnum::Fsgnjx(instruction) => {},
            InstructionEnum::Feq(instruction) => {},
            InstructionEnum::Flt(instruction) => {},
            InstructionEnum::Fle(instruction) => {},
            InstructionEnum::FcvtWS(instruction) => {},
            InstructionEnum::FcvtSW(instruction) => {},
            InstructionEnum::Fsw(instruction) => instruction.memory(core),
            InstructionEnum::In(instruction) => {},
            InstructionEnum::Fin(instruction) => {},
            InstructionEnum::Outchar(instruction) => {},
            InstructionEnum::Outint(instruction) => {},
            InstructionEnum::Fbeq(instruction) => {},
            InstructionEnum::Fbne(instruction) => {},
            InstructionEnum::Fblt(instruction) => {},
            InstructionEnum::Fble(instruction) => {},
            InstructionEnum::End(instruction) => {},
        }
    }

    /// The write-back stage of the instruction.
    pub fn write_back(&self, core: &mut Core)
        requires
            old(core).wf(),
            inst_regs_ok(*self),
            inst_done_memory(*self),
        ensures
            final(core).wf(),
            final(core)@ == written_back_inst(*self, old(core)@),
    {
        match self {
            InstructionEnum::Lw(instruction) => instruction.write_back(core),
            InstructionEnum::Addi(instruction) => instruction.write_back(core),
            InstructionEnum::Slli(instruction) => instruction.write_back(core),
            InstructionEnum::Slti(instruction) => instruction.write_back(core),
            InstructionEnum::Xori(instruction) => instruction.write_back(core),
            InstructionEnum::Srli(instruction) => instruction.write_back(core),
            InstructionEnum::Srai(instruction) => instruction.write_back(core),
            InstructionEnum::Ori(instruction) => instruction.write_back(core),
            InstructionEnum::Andi(instruction) => instruction.write_back(core),
            InstructionEnum::Sw(instruction) => {},
            InstructionEnum::Add(instruction) => instruction.write_back(core),
            InstructionEnum::Sub(instruction) => instruction.write_back(core),
            InstructionEnum::Sll(instruction) => instruction.write_back(core),
            InstructionEnum::Slt(instruction) => instruction.write_back(core),
            InstructionEnum::Xor(instruction) => instruction.write_back(core),
            InstructionEnum::Srl(instruction) => instruction.write_back(core),
            InstructionEnum::Sra(instruction) => instruction.write_back(core),
            InstructionEnum::Or(instruction) => instruction.write_back(core),
            InstructionEnum::And(instruction) => instruction.write_back(core),
            InstructionEnum::Lui(instruction) => instruction.write_back(core),
            InstructionEnum::Beq(instruction) => {},
            InstructionEnum::Bne(instruction) => {},
            InstructionEnum::Blt(instruction) => {},
            InstructionEnum::Bge(instruction) => {},
            InstructionEnum::Jalr(instruction) => instruction.write_back(core),
            InstructionEnum::Jal(instruction) => instruction.write_back(core),
            InstructionEnum::Flw(instruction) => instruction.write_back(core),
            InstructionEnum::Fadd(instruction) => instruction.write_back(core),
            InstructionEnum::Fsub(instruction) => instruction.write_back(core),
            InstructionEnum::Fmul(instruction) => instruction.write_back(core),
            InstructionEnum::Fdiv(instruction) => instruction.write_back(core),
            InstructionEnum::Fsqrt(instruction) => instruction.write_back(core),
            InstructionEnum::Fsgnj(instruction) => instruction.write_back(core),
            InstructionEnum::Fsgnjn(instruction) => instruction.write_back(core),
            InstructionEnum::Fsgnjx(instruction) => instruction.write_back(core),
            InstructionEnum::Feq(instruction) => instruction.write_back(core),
            InstructionEnum::Flt(instruction) => instruction.write_back(core),
            InstructionEnum::Fle(instruction) => instruction.write_back(core),
            InstructionEnum::FcvtWS(instruction) => instruction.write_back(core),
            InstructionEnum::FcvtSW(instruction) => instruction.write_back(core),
            InstructionEnum::Fsw(instruction) => {},
            InstructionEnum::In(instruction) => instruction.write_back(core),
            InstructionEnum::Fin(instruction) => instruction.write_back(core),
            InstructionEnum::Outchar(instruction) => {},
            InstructionEnum::Outint(instruction) => {},
            InstructionEnum::Fbeq(instruction) => {},
            InstructionEnum::Fbne(instruction) => {},
            InstructionEnum::Fblt(instruction) => {},
            InstructionEnum::Fble(instruction) => {},
            InstructionEnum::End(instruction) => instruction.write_back(core),
        }
    }

    /// The registers the instruction reads.
    pub fn get_source_registers(&self) -> (r: Vec<RegisterId>)
        ensures
            r@ == inst_sources(*self),
    {
        match self {
            InstructionEnum::Lw(instruction) => instruction.get_source_registers(),
            InstructionEnum::Addi(instruction) => instruction.get_source_registers(),
            InstructionEnum::Slli(instruction) => instruction.get_source_registers(),
            InstructionEnum::Slti(instruction) => instruction.get_source_registers(),
            InstructionEnum::Xori(instruction) => instruction.get_source_registers(),
            InstructionEnum::Srli(instruction) => instruction.get_source_registers(),
            InstructionEnum::Srai(instruction) => instruction.get_source_registers(),
            InstructionEnum::Ori(instruction) => instruction.get_source_registers(),
            InstructionEnum::Andi(instruction) => instruction.get_source_registers(),
            InstructionEnum::Sw(instruction) => instruction.get_source_registers(),
            InstructionEnum::Add(instruction) => instruction.get_source_registers(),
            InstructionEnum::Sub(instruction) => instruction.get_source_registers(),
            InstructionEnum::Sll(instruction) => instruction.get_source_registers(),
            InstructionEnum::Slt(instruction) => instruction.get_source_registers(),
            InstructionEnum::Xor(instruction) => instruction.get_source_registers(),
            InstructionEnum::Srl(instruction) => instruction.get_source_registers(),
            InstructionEnum::Sra(instruction) => instruction.get_source_registers(),
            InstructionEnum::Or(instruction) => instruction.get_source_registers(),
            InstructionEnum::And(instruction) => instruction.get_source_registers(),
            InstructionEnum::Lui(instruction) => Vec::new(),
            InstructionEnum::Beq(instruction) => instruction.get_source_registers(),
            InstructionEnum::Bne(instruction) => instruction.get_source_registers(),
            InstructionEnum::Blt(instruction) => instruction.get_source_registers(),
            InstructionEnum::Bge(instruction) => instruction.get_source_registers(),
            InstructionEnum::Jalr(instruction) => instruction.get_source_registers(),
            InstructionEnum::Jal(instruction) => Vec::new(),
            InstructionEnum::Flw(instruction) => instruction.get_source_registers(),
            InstructionEnum::Fadd(instruction) => instruction.get_source_registers(),
            InstructionEnum::Fsub(instruction) => instruction.get_source_registers(),
            InstructionEnum::Fmul(instruction) => instruction.get_source_registers(),
            InstructionEnum::Fdiv(instruction) => instruction.get_source_registers(),
            InstructionEnum::Fsqrt(instruction) => instruction.get_source_registers(),
            InstructionEnum::Fsgnj(instruction) => instruction.get_source_registers(),
            InstructionEnum::Fsgnjn(instruction) => instruction.get_source_registers(),
            InstructionEnum::Fsgnjx(instruction) => instruction.get_source_registers(),
            InstructionEnum::Feq(instruction) => instruction.get_source_registers(),
            InstructionEnum::Flt(instruction) => instruction.get_source_registers(),
            InstructionEnum::Fle(instruction) => instruction.get_source_registers(),
            InstructionEnum::FcvtWS(instruction) => instruction.get_source_registers(),
            InstructionEnum::FcvtSW(instruction) => instruction.get_source_registers(),
            InstructionEnum::Fsw(instruction) => instruction.get_source_registers(),
            InstructionEnum::In(instruction) => Vec::new(),
            InstructionEnum::Fin(instruction) => Vec::new(),
            InstructionEnum::Outchar(instruction) => instruction.get_source_registers(),
            InstructionEnum::Outint(instruction) => instruction.get_source_registers(),
            InstructionEnum::Fbeq(instruction) => instruction.get_source_registers(),
            InstructionEnum::Fbne(instruction) => instruction.get_source_registers(),
            InstructionEnum::Fblt(instruction) => instruction.get_source_registers(),
            InstructionEnum::Fble(instruction) => instruction.get_source_registers(),
            InstructionEnum::End(instruction) => Vec::new(),
        }
    }

    /// The register the instruction writes, if any.
    pub fn get_destination_register(&self) -> (r: Option<RegisterId>)
        ensures
            r == inst_destination(*self),
    {
        match self {
            InstructionEnum::Lw(instruction) => instruction.get_destination_register(),
            InstructionEnum::Addi(instruction) => instruction.get_destination_register(),
            InstructionEnum::Slli(instruction) => instruction.get_destination_register(),
            InstructionEnum::Slti(instruction) => instruction.get_destination_register(),
            InstructionEnum::Xori(instruction) => instruction.get_destination_register(),
            InstructionEnum::Srli(instruction) => instruction.get_destination_register(),
            InstructionEnum::Srai(instruction) => instruction.get_destination_register(),
            InstructionEnum::Ori(instruction) => instruction.get_destination_register(),
            InstructionEnum::Andi(instruction) => instruction.get_destination_register(),
            InstructionEnum::Sw(instruction) => None,
            InstructionEnum::Add(instruction) => instruction.get_destination_register(),
            InstructionEnum::Sub(instruction) => instruction.get_destination_register(),
            InstructionEnum::Sll(instruction) => instruction.get_destination_register(),
            InstructionEnum::Slt(instruction) => instruction.get_destination_register(),
            InstructionEnum::Xor(instruction) => instruction.get_destination_register(),
            InstructionEnum::Srl(instruction) => instruction.get_destination_register(),
            InstructionEnum::Sra(instruction) => instruction.get_destination_register(),
            InstructionEnum::Or(instruction) => instruction.get_destination_register(),
            InstructionEnum::And(instruction) => instruction.get_destination_register(),
            InstructionEnum::Lui(instruction) => instruction.get_destination_register(),
            InstructionEnum::Beq(instruction) => None,
            InstructionEnum::Bne(instruction) => None,
            InstructionEnum::Blt(instruction) => None,
            InstructionEnum::Bge(instruction) => None,
            InstructionEnum::Jalr(instruction) => instruction.get_destination_register(),
            InstructionEnum::Jal(instruction) => instruction.get_destination_register(),
            InstructionEnum::Flw(instruction) => instruction.get_destination_register(),
            InstructionEnum::Fadd(instruction) => instruction.get_destination_register(),
            InstructionEnum::Fsub(instruction) => instruction.get_destination_register(),
            InstructionEnum::Fmul(instruction) => instruction.get_destination_register(),
            InstructionEnum::Fdiv(instruction) => instruction.get_destination_register(),
            InstructionEnum::Fsqrt(instruction) => instruction.get_destination_register(),
            InstructionEnum::Fsgnj(instruction) => instruction.get_destination_register(),
            InstructionEnum::Fsgnjn(instruction) => instruction.get_destination_register(),
            InstructionEnum::Fsgnjx(instruction) => instruction.get_destination_register(),
            InstructionEnum::Feq(instruction) => instruction.get_destination_register(),
            InstructionEnum::Flt(instruction) => instruction.get_destination_register(),
            InstructionEnum::Fle(instruction) => instruction.get_destination_register(),
            InstructionEnum::FcvtWS(instruction) => instruction.get_destination_register(),
            InstructionEnum::FcvtSW(instruction) => instruction.get_destination_register(),
            InstructionEnum::Fsw(instruction) => None,
            InstructionEnum::In(instruction) => instruction.get_destination_register(),
            InstructionEnum::Fin(instruction) => instruction.get_destination_register(),
            InstructionEnum::Outchar(instruction) => None,
            InstructionEnum::Outint(instruction) => None,
            InstructionEnum::Fbeq(instruction) => None,
            InstructionEnum::Fbne(instruction) => None,
            InstructionEnum::Fblt(instruction) => None,
            InstructionEnum::Fble(instruction) => None,
            InstructionEnum::End(instruction) => None,
        }
    }

    /// Whether the instruction loads from memory.
    pub fn is_load_instruction(&self) -> (r: bool)
        ensures
            r == inst_is_load(*self),
    {
        match self {
            InstructionEnum::Lw(instruction) => instruction.is_load_instruction(),
            InstructionEnum::Addi(instruction) => false,
            InstructionEnum::Slli(instruction) => false,
            InstructionEnum::Slti(instruction) => false,
            InstructionEnum::Xori(instruction) => false,
            InstructionEnum::Srli(instruction) => false,
            InstructionEnum::Srai(instruction) => false,
            InstructionEnum::Ori(instruction) => false,
            InstructionEnum::Andi(instruction) => false,
            InstructionEnum::Sw(instruction) => false,
            InstructionEnum::Add(instruction) => false,
            InstructionEnum::Sub(instruction) => false,
            InstructionEnum::Sll(instruction) => false,
            InstructionEnum::Slt(instruction) => false,
            InstructionEnum::Xor(instruction) => false,
            InstructionEnum::Srl(instruction) => false,
            InstructionEnum::Sra(instruction) => false,
            InstructionEnum::Or(instruction) => false,
            InstructionEnum::And(instruction) => false,
            InstructionEnum::Lui(instruction) => false,
            InstructionEnum::Beq(instruction) => false,
            InstructionEnum::Bne(instruction) => false,
            InstructionEnum::Blt(instruction) => false,
            InstructionEnum::Bge(instruction) => false,
            InstructionEnum::Jalr(instruction) => false,
            InstructionEnum::Jal(instruction) => false,
            InstructionEnum::Flw(instruction) => instruction.is_load_instruction(),
            InstructionEnum::Fadd(instruction) => false,
            InstructionEnum::Fsub(instruction) => false,
            InstructionEnum::Fmul(instruction) => false,
            InstructionEnum::Fdiv(instruction) => false,
            InstructionEnum::Fsqrt(instruction) => false,
            InstructionEnum::Fsgnj(instruction) => false,
            InstructionEnum::Fsgnjn(instruction) => false,
            InstructionEnum::Fsgnjx(instruction) => false,
            InstructionEnum::Feq(instruction) => false,
            InstructionEnum::Flt(instruction) => false,
            InstructionEnum::Fle(instruction) => false,
            InstructionEnum::FcvtWS(instruction) => false,
            InstructionEnum::FcvtSW(instruction) => false,
            InstructionEnum::Fsw(instruction) => false,
            InstructionEnum::In(instruction) => false,
            InstructionEnum::Fin(instruction) => false,
            InstructionEnum::Outchar(instruction) => false,
            InstructionEnum::Outint(instruction) => false,
            InstructionEnum::Fbeq(instruction) => false,
            InstructionEnum::Fbne(instruction) => false,
            InstructionEnum::Fblt(instruction) => false,
            InstructionEnum::Fble(instruction) => false,
            InstructionEnum::End(instruction) => false,
        }
    }

    /// The address the instruction jumps to, once its execute stage has decided so.
    pub fn get_jump_address(&self) -> (r: Option<Address>)
        ensures
            r == inst_jump(*self),
    {
        match self {
            InstructionEnum::Lw(instruction) => None,
            InstructionEnum::Addi(instruction) => None,
            InstructionEnum::Slli(instruction) => None,
            InstructionEnum::Slti(instruction) => None,
            InstructionEnum::Xori(instruction) => None,
            InstructionEnum::Srli(instruction) => None,
            InstructionEnum::Srai(instruction) => None,
            InstructionEnum::Ori(instruction) => None,
            InstructionEnum::Andi(instruction) => None,
            InstructionEnum::Sw(instruction) => None,
            InstructionEnum::Add(instruction) => None,
            InstructionEnum::Sub(instruction) => None,
            InstructionEnum::Sll(instruction) => None,
            InstructionEnum::Slt(instruction) => None,
            InstructionEnum::Xor(instruction) => None,
            InstructionEnum::Srl(instruction) => None,
            InstructionEnum::Sra(instruction) => None,
            InstructionEnum::Or(instruction) => None,
            InstructionEnum::And(instruction) => None,
            InstructionEnum::Lui(instruction) => None,
            InstructionEnum::Beq(instruction) => instruction.get_jump_address(),
            InstructionEnum::Bne(instruction) => instruction.get_jump_address(),
            InstructionEnum::Blt(instruction) => instruction.get_jump_address(),
            InstructionEnum::Bge(instruction) => instruction.get_jump_address(),
            InstructionEnum::Jalr(instruction) => instruction.get_jump_address(),
            InstructionEnum::Jal(instruction) => instruction.get_jump_address(),
            InstructionEnum::Flw(instruction) => None,
            InstructionEnum::Fadd(instruction) => None,
            InstructionEnum::Fsub(instruction) => None,
            InstructionEnum::Fmul(instruction) => None,
            InstructionEnum::Fdiv(instruction) => None,
            InstructionEnum::Fsqrt(instruction) => None,
            InstructionEnum::Fsgnj(instruction) => None,
            InstructionEnum::Fsgnjn(instruction) => None,
            InstructionEnum::Fsgnjx(instruction) => None,
            InstructionEnum::Feq(instruction) => None,
            InstructionEnum::Flt(instruction) => None,
            InstructionEnum::Fle(instruction) => None,
            InstructionEnum::FcvtWS(instruction) => None,
            InstructionEnum::FcvtSW(instruction) => None,
            InstructionEnum::Fsw(instruction) => None,
            InstructionEnum::In(instruction) => None,
            InstructionEnum::Fin(instruction) => None,
            InstructionEnum::Outchar(instruction) => None,
            InstructionEnum::Outint(instruction) => None,
            InstructionEnum::Fbeq(instruction) => instruction.get_jump_address(),
            InstructionEnum::Fbne(instruction) => instruction.get_jump_address(),
            InstructionEnum::Fblt(instruction) => instruction.get_jump_address(),
            InstructionEnum::Fble(instruction) => instruction.get_jump_address(),
            InstructionEnum::End(instruction) => None,
        }
    }

    /// The cycle in which the instruction read its operands, once it has.
    pub fn get_instruction_count(&self) -> (r: Option<InstructionCount>)
        ensures
            r == inst_count(*self),
    {
        match self {
            InstructionEnum::Lw(instruction) => instruction.get_instruction_count(),
            InstructionEnum::Addi(instruction) => instruction.get_instruction_count(),
            InstructionEnum::Slli(instruction) => instruction.get_instruction_count(),
            InstructionEnum::Slti(instruction) => instruction.get_instruction_count(),
            InstructionEnum::Xori(instruction) => instruction.get_instruction_count(),
            InstructionEnum::Srli(instruction) => instruction.get_instruction_count(),
            InstructionEnum::Srai(instruction) => instruction.get_instruction_count(),
            InstructionEnum::Ori(instruction) => instruction.get_instruction_count(),
            InstructionEnum::Andi(instruction) => instruction.get_instruction_count(),
            InstructionEnum::Sw(instruction) => instruction.get_instruction_count(),
            InstructionEnum::Add(instruction) => instruction.get_instruction_count(),
            InstructionEnum::Sub(instruction) => instruction.get_instruction_count(),
            InstructionEnum::Sll(instruction) => instruction.get_instruction_count(),
            InstructionEnum::Slt(instruction) => instruction.get_instruction_count(),
            InstructionEnum::Xor(instruction) => instruction.get_instruction_count(),
            InstructionEnum::Srl(instruction) => instruction.get_instruction_count(),
            InstructionEnum::Sra(instruction) => instruction.get_instruction_count(),
            InstructionEnum::Or(instruction) => instruction.get_instruction_count(),
            InstructionEnum::And(instruction) => instruction.get_instruction_count(),
            InstructionEnum::Lui(instruction) => instruction.get_instruction_count(),
            InstructionEnum::Beq(instruction) => instruction.get_instruction_count(),
            InstructionEnum::Bne(instruction) => instruction.get_instruction_count(),
            InstructionEnum::Blt(instruction) => instruction.get_instruction_count(),
            InstructionEnum::Bge(instruction) => instruction.get_instruction_count(),
            InstructionEnum::Jalr(instruction) => instruction.get_instruction_count(),
            InstructionEnum::Jal(instruction) => instruction.get_instruction_count(),
            InstructionEnum::Flw(instruction) => instruction.get_instruction_count(),
            InstructionEnum::Fadd(instruction) => instruction.get_instruction_count(),
            InstructionEnum::Fsub(instruction) => instruction.get_instruction_count(),
            InstructionEnum::Fmul(instruction) => instruction.get_instruction_count(),
            InstructionEnum::Fdiv(instruction) => instruction.get_instruction_count(),
            InstructionEnum::Fsqrt(instruction) => instruction.get_instruction_count(),
            InstructionEnum::Fsgnj(instruction) => instruction.get_instruction_count(),
            InstructionEnum::Fsgnjn(instruction) => instruction.get_instruction_count(),
            InstructionEnum::Fsgnjx(instruction) => instruction.get_instruction_count(),
            InstructionEnum::Feq(instruction) => instruction.get_instruction_count(),
            InstructionEnum::Flt(instruction) => instruction.get_instruction_count(),
            InstructionEnum::Fle(instruction) => instruction.get_instruction_count(),
            InstructionEnum::FcvtWS(instruction) => instruction.get_instruction_count(),
            InstructionEnum::FcvtSW(instruction) => instruction.get_instruction_count(),
            InstructionEnum::Fsw(instruction) => instruction.get_instruction_count(),
            InstructionEnum::In(instruction) => instruction.get_instruction_count(),
            InstructionEnum::Fin(instruction) => instruction.get_instruction_count(),
            InstructionEnum::Outchar(instruction) => instruction.get_instruction_count(),
            InstructionEnum::Outint(instruction) => instruction.get_instruction_count(),
            InstructionEnum::Fbeq(instruction) => instruction.get_instruction_count(),
            InstructionEnum::Fbne(instruction) => instruction.get_instruction_count(),
            InstructionEnum::Fblt(instruction) => instruction.get_instruction_count(),
            InstructionEnum::Fble(instruction) => instruction.get_instruction_count(),
            InstructionEnum::End(instruction) => instruction.get_instruction_count(),
        }
    }

    /// The mnemonic of the instruction.
    pub fn get_name(&self) -> (r: String)
        ensures
            r@ == inst_name(*self),
    {
        match self {
            InstructionEnum::Lw(instruction) => instruction.get_name(),
            InstructionEnum::Addi(instruction) => instruction.get_name(),
            InstructionEnum::Slli(instruction) => instruction.get_name(),
            InstructionEnum::Slti(instruction) => instruction.get_name(),
            InstructionEnum::Xori(instruction) => instruction.get_name(),
            InstructionEnum::Srli(instruction) => instruction.get_name(),
            InstructionEnum::Srai(instruction) => instruction.get_name(),
            InstructionEnum::Ori(instruction) => instruction.get_name(),
            InstructionEnum::Andi(instruction) => instruction.get_name(),
            InstructionEnum::Sw(instruction) => instruction.get_name(),
            InstructionEnum::Add(instruction) => instruction.get_name(),
            InstructionEnum::Sub(instruction) => instruction.get_name(),
            InstructionEnum::Sll(instruction) => instruction.get_name(),
            InstructionEnum::Slt(instruction) => instruction.get_name(),
            InstructionEnum::Xor(instruction) => instruction.get_name(),
            InstructionEnum::Srl(instruction) => instruction.get_name(),
            InstructionEnum::Sra(instruction) => instruction.get_name(),
            InstructionEnum::Or(instruction) => instruction.get_name(),
            InstructionEnum::And(instruction) => instruction.get_name(),
            InstructionEnum::Lui(instruction) => instruction.get_name(),
            InstructionEnum::Beq(instruction) => instruction.get_name(),
            InstructionEnum::Bne(instruction) => instruction.get_name(),
            InstructionEnum::Blt(instruction) => instruction.get_name(),
            InstructionEnum::Bge(instruction) => instruction.get_name(),
            InstructionEnum::Jalr(instruction) => instruction.get_name(),
            InstructionEnum::Jal(instruction) => instruction.get_name(),
            InstructionEnum::Flw(instruction) => instruction.get_name(),
            InstructionEnum::Fadd(instruction) => instruction.get_name(),
            InstructionEnum::Fsub(instruction) => instruction.get_name(),
            InstructionEnum::Fmul(instruction) => instruction.get_name(),
            InstructionEnum::Fdiv(instruction) => instruction.get_name(),
            InstructionEnum::Fsqrt(instruction) => instruction.get_name(),
            InstructionEnum::Fsgnj(instruction) => instruction.get_name(),
            InstructionEnum::Fsgnjn(instruction) => instruction.get_name(),
            InstructionEnum::Fsgnjx(instruction) => instruction.get_name(),
            InstructionEnum::Feq(instruction) => instruction.get_name(),
            InstructionEnum::Flt(instruction) => instruction.get_name(),
            InstructionEnum::Fle(instruction) => instruction.get_name(),
            InstructionEnum::FcvtWS(instruction) => instruction.get_name(),
            InstructionEnum::FcvtSW(instruction) => instruction.get_name(),
            InstructionEnum::Fsw(instruction) => instruction.get_name(),
            InstructionEnum::In(instruction) => instruction.get_name(),
            InstructionEnum::Fin(instruction) => instruction.get_name(),
            InstructionEnum::Outchar(instruction) => instruction.get_name(),
            InstructionEnum::Outint(instruction) => instruction.get_name(),
            InstructionEnum::Fbeq(instruction) => instruction.get_name(),
            InstructionEnum::Fbne(instruction) => instruction.get_name(),
            InstructionEnum::Fblt(instruction) => instruction.get_name(),
            InstructionEnum::Fble(instruction) => instruction.get_name(),
            InstructionEnum::End(instruction) => instruction.get_name(),
        }
    }

    /// The text of the instruction in assembly language, in ASCII bytes.
    pub fn assembly_text(&self) -> (r: Vec<u8>)
        ensures
            r@ == inst_assembly(*self),
    {
        match self {
            InstructionEnum::Lw(instruction) => instruction.assembly_text(),
            InstructionEnum::Addi(instruction) => instruction.assembly_text(),
            InstructionEnum::Slli(instruction) => instruction.assembly_text(),
            InstructionEnum::Slti(instruction) => instruction.assembly_text(),
            InstructionEnum::Xori(instruction) => instruction.assembly_text(),
            InstructionEnum::Srli(instruction) => instruction.assembly_text(),
            InstructionEnum::Srai(instruction) => instruction.assembly_text(),
            InstructionEnum::Ori(instruction) => instruction.assembly_text(),
            InstructionEnum::Andi(instruction) => instruction.assembly_text(),
            InstructionEnum::Sw(instruction) => instruction.assembly_text(),
            InstructionEnum::Add(instruction) => instruction.assembly_text(),
            InstructionEnum::Sub(instruction) => instruction.assembly_text(),
            InstructionEnum::Sll(instruction) => instruction.assembly_text(),
            InstructionEnum::Slt(instruction) => instruction.assembly_text(),
            InstructionEnum::Xor(instruction) => instruction.assembly_text(),
            InstructionEnum::Srl(instruction) => instruction.assembly_text(),
            InstructionEnum::Sra(instruction) => instruction.assembly_text(),
            InstructionEnum::Or(instruction) => instruction.assembly_text(),
            InstructionEnum::And(instruction) => instruction.assembly_text(),
            InstructionEnum::Lui(instruction) => instruction.assembly_text(),
            InstructionEnum::Beq(instruction) => instruction.assembly_text(),
            InstructionEnum::Bne(instruction) => instruction.assembly_text(),
            InstructionEnum::Blt(instruction) => instruction.assembly_text(),
            InstructionEnum::Bge(instruction) => instruction.assembly_text(),
            InstructionEnum::Jalr(instruction) => instruction.assembly_text(),
            InstructionEnum::Jal(instruction) => instruction.assembly_text(),
            InstructionEnum::Flw(instruction) => instruction.assembly_text(),
            InstructionEnum::Fadd(instruction) => instruction.assembly_text(),
            InstructionEnum::Fsub(instruction) => instruction.assembly_text(),
            InstructionEnum::Fmul(instruction) => instruction.assembly_text(),
            InstructionEnum::Fdiv(instruction) => instruction.assembly_text(),
            InstructionEnum::Fsqrt(instruction) => instruction.assembly_text(),
            InstructionEnum::Fsgnj(instruction) => instruction.assembly_text(),
            InstructionEnum::Fsgnjn(instruction) => instruction.assembly_text(),
            InstructionEnum::Fsgnjx(instruction) => instruction.assembly_text(),
            InstructionEnum::Feq(instruction) => instruction.assembly_text(),
            InstructionEnum::Flt(instruction) => instruction.assembly_text(),
            InstructionEnum::Fle(instruction) => instruction.assembly_text(),
            InstructionEnum::FcvtWS(instruction) => instruction.assembly_text(),
            InstructionEnum::FcvtSW(instruction) => instruction.assembly_text(),
            InstructionEnum::Fsw(instruction) => instruction.assembly_text(),
            InstructionEnum::In(instruction) => instruction.assembly_text(),
            InstructionEnum::Fin(instruction) => instruction.assembly_text(),
            InstructionEnum::Outchar(instruction) => instruction.assembly_text(),
            InstructionEnum::Outint(instruction) => instruction.assembly_text(),
            InstructionEnum::Fbeq(instruction) => instruction.assembly_text(),
            InstructionEnum::Fbne(instruction) => instruction.assembly_text(),
            InstructionEnum::Fblt(instruction) => instruction.assembly_text(),
            InstructionEnum::Fble(instruction) => instruction.assembly_text(),
            InstructionEnum::End(instruction) => instruction.assembly_text(),
        }
    }

}

/// The instruction that the fields of the I format give, if the machine has one.
pub open spec fn created_i(imm: Imm13, rs1: Rs1, funct3: Funct3, rd: Rd, op: Op) -> Option<InstructionEnum> {
    if op == 0 { if funct3 == 0b010 { Some(InstructionEnum::Lw(Lw::spec_new(imm, rs1, rd))) } else { None } } else if op == 1 { if funct3 == 0b000 { Some(InstructionEnum::Addi(Addi::spec_new(imm, rs1, rd))) } else if funct3 == 0b001 { Some(InstructionEnum::Slli(Slli::spec_new(imm, rs1, rd))) } else if funct3 == 0b010 { Some(InstructionEnum::Slti(Slti::spec_new(imm, rs1, rd))) } else if funct3 == 0b100 { Some(InstructionEnum::Xori(Xori::spec_new(imm, rs1, rd))) } else if funct3 == 0b101 { if ((imm >> 6u32) & 0x7f) == 0b0000000 { Some(InstructionEnum::Srli(Srli::spec_new(imm, rs1, rd))) } else if ((imm >> 6u32) & 0x7f) == 0b0100000 { Some(InstructionEnum::Srai(Srai::spec_new(imm, rs1, rd))) } else { None } } else if funct3 == 0b110 { Some(InstructionEnum::Ori(Ori::spec_new(imm, rs1, rd))) } else if funct3 == 0b111 { Some(InstructionEnum::Andi(Andi::spec_new(imm, rs1, rd))) } else { None } } else if op == 6 { if funct3 == 0b000 { Some(InstructionEnum::Jalr(Jalr::spec_new(imm, rs1, rd))) } else { None } } else if op == 8 { if funct3 == 0b010 { Some(InstructionEnum::Flw(Flw::spec_new(imm, rs1, rd))) } else { None } } else if op == 14 { if funct3 == 0b000 { Some(InstructionEnum::End(End::spec_new())) } else { None } } else if op == 11 { if funct3 == 0b000 { Some(InstructionEnum::In(In::spec_new(rd))) } else if funct3 == 0b001 { Some(InstructionEnum::Fin(Fin::spec_new(rd))) } else { None } } else { None }
}

/// The instruction that the fields of the R format give, if the machine has one.
pub open spec fn created_r(funct7: Funct7, rs2: Rs2, rs1: Rs1, funct3: Funct3, rd: Rd, op: Op) -> Option<InstructionEnum> {
    if op == 3 { if funct3 == 0b000 { if funct7 == 0b0000000 { Some(InstructionEnum::Add(Add::spec_new(rs2, rs1, rd))) } else if funct7 == 0b0100000 { Some(InstructionEnum::Sub(Sub::spec_new(rs2, rs1, rd))) } else { None } } else if funct3 == 0b001 { if funct7 == 0b0000000 { Some(InstructionEnum::Sll(Sll::spec_new(rs2, rs1, rd))) } else { None } } else if funct3 == 0b010 { if funct7 == 0b0000000 { Some(InstructionEnum::Slt(Slt::spec_new(rs2, rs1, rd))) } else { None } } else if funct3 == 0b100 { if funct7 == 0b0000000 { Some(InstructionEnum::Xor(Xor::spec_new(rs2, rs1, rd))) } else { None } } else if funct3 == 0b101 { if funct7 == 0b0000000 { Some(InstructionEnum::Srl(Srl::spec_new(rs2, rs1, rd))) } else if funct7 == 0b0100000 { Some(InstructionEnum::Sra(Sra::spec_new(rs2, rs1, rd))) } else { None } } else if funct3 == 0b110 { if funct7 == 0b0000000 { Some(InstructionEnum::Or(Or::spec_new(rs2, rs1, rd))) } else { None } } else if funct3 == 0b111 { if funct7 == 0b0000000 { Some(InstructionEnum::And(And::spec_new(rs2, rs1, rd))) } else { None } } else { None } } else if op == 9 { if funct7 == 0b0000000 { Some(InstructionEnum::Fadd(Fadd::spec_new(rs2, rs1, rd))) } else if funct7 == 0b0000100 { Some(InstructionEnum::Fsub(Fsub::spec_new(rs2, rs1, rd))) } else if funct7 == 0b0001000 { Some(InstructionEnum::Fmul(Fmul::spec_new(rs2, rs1, rd))) } else if funct7 == 0b0001100 { Some(InstructionEnum::Fdiv(Fdiv::spec_new(rs2, rs1, rd))) } else if funct7 == 0b0101100 { Some(InstructionEnum::Fsqrt(Fsqrt::spec_new(rs2, rs1, rd))) } else if funct7 == 0b0010000 { if funct3 == 0b000 { Some(InstructionEnum::Fsgnj(Fsgnj::spec_new(rs2, rs1, rd))) } else if funct3 == 0b001 { Some(InstructionEnum::Fsgnjn(Fsgnjn::spec_new(rs2, rs1, rd))) } else if funct3 == 0b010 { Some(InstructionEnum::Fsgnjx(Fsgnjx::spec_new(rs2, rs1, rd))) } else { None } } else if funct7 == 0b1010000 { if funct3 == 0b010 { Some(InstructionEnum::Feq(Feq::spec_new(rs2, rs1, rd))) } else if funct3 == 0b001 { Some(InstructionEnum::Flt(Flt::spec_new(rs2, rs1, rd))) } else if funct3 == 0b000 { Some(InstructionEnum::Fle(Fle::spec_new(rs2, rs1, rd))) } else { None } } else if funct7 == 0b1100000 { Some(InstructionEnum::FcvtWS(FcvtWS::spec_new(rs2, rs1, rd))) } else if funct7 == 0b1101000 { Some(InstructionEnum::FcvtSW(FcvtSW::spec_new(rs2, rs1, rd))) } else { None } } else { None }
}

/// The instruction that the fields of the S format give, if the machine has one.
pub open spec fn created_s(imm: Imm13, rs2: Rs2, rs1: Rs1, funct3: Funct3, op: Op) -> Option<InstructionEnum> {
    if op == 2 { if funct3 == 0b010 { Some(InstructionEnum::Sw(Sw::spec_new(imm, rs2, rs1))) } else { None } } else if op == 10 { if funct3 == 0b010 { Some(InstructionEnum::Fsw(Fsw::spec_new(imm, rs2, rs1))) } else { None } } else if op == 12 { if funct3 == 0b000 { Some(InstructionEnum::Outchar(Outchar::spec_new(rs2))) } else if funct3 == 0b001 { Some(InstructionEnum::Outint(Outint::spec_new(rs2))) } else { None } } else { None }
}

/// The instruction that the fields of the B format give, if the machine has one.
pub open spec fn created_b(imm: Imm13, rs2: Rs2, rs1: Rs1, funct3: Funct3, op: Op) -> Option<InstructionEnum> {
    if op == 5 { if funct3 == 0b000 { Some(InstructionEnum::Beq(Beq::spec_new(imm, rs2, rs1))) } else if funct3 == 0b001 { Some(InstructionEnum::Bne(Bne::spec_new(imm, rs2, rs1))) } else if funct3 == 0b100 { Some(InstructionEnum::Blt(Blt::spec_new(imm, rs2, rs1))) } else if funct3 == 0b101 { Some(InstructionEnum::Bge(Bge::spec_new(imm, rs2, rs1))) } else { None } } else if op == 13 { if funct3 == 0b000 { Some(InstructionEnum::Fbeq(Fbeq::spec_new(imm, rs2, rs1))) } else if funct3 == 0b001 { Some(InstructionEnum::Fbne(Fbne::spec_new(imm, rs2, rs1))) } else if funct3 == 0b100 { Some(InstructionEnum::Fblt(Fblt::spec_new(imm, rs2, rs1))) } else if funct3 == 0b101 { Some(InstructionEnum::Fble(Fble::spec_new(imm, rs2, rs1))) } else { None } } else { None }
}

/// The instruction that the fields of the J format give, if the machine has one.
pub open spec fn created_j(imm: Imm19, rd: Rd, op: Op) -> Option<InstructionEnum> {
    if op == 7 { Some(InstructionEnum::Jal(Jal::spec_new(imm, rd))) } else { None }
}

/// The instruction that the fields of the U format give, if the machine has one.
pub open spec fn created_u(imm: Imm19, rd: Rd, op: Op) -> Option<InstructionEnum> {
    if op == 4 { Some(InstructionEnum::Lui(Lui::spec_new(imm, rd))) } else { None }
}

/// The instruction that a decoded instruction gives, if the machine has one.
pub open spec fn created(inst: Instruction) -> Option<InstructionEnum> {
    match inst {
        Instruction::IInstruction(imm, rs1, funct3, rd, op) => created_i(imm, rs1, funct3, rd, op),
        Instruction::RInstruction(funct7, rs2, rs1, funct3, rd, op) => created_r(funct7, rs2, rs1, funct3, rd, op),
        Instruction::SInstruction(imm, rs2, rs1, funct3, op) => created_s(imm, rs2, rs1, funct3, op),
        Instruction::BInstruction(imm, rs2, rs1, funct3, op) => created_b(imm, rs2, rs1, funct3, op),
        Instruction::JInstruction(imm, rd, op) => created_j(imm, rd, op),
        Instruction::UInstruction(imm, rd, op) => created_u(imm, rd, op),
        Instruction::OtherInstruction => None,
    }
}

fn create_i_instruction_struct(imm: Imm13, rs1: Rs1, funct3: Funct3, rd: Rd, op: Op) -> (r: InstructionEnum)
    requires
        created_i(imm, rs1, funct3, rd, op) is Some,
    ensures
        Some(r) == created_i(imm, rs1, funct3, rd, op),
{
    match op {
        0 => {
            match funct3 {
                _ => InstructionEnum::Lw(Lw::new(imm, rs1, rd)),
            }
        },
        1 => {
            match funct3 {
                0b000 => InstructionEnum::Addi(Addi::new(imm, rs1, rd)),
                0b001 => InstructionEnum::Slli(Slli::new(imm, rs1, rd)),
                0b010 => InstructionEnum::Slti(Slti::new(imm, rs1, rd)),
                0b100 => InstructionEnum::Xori(Xori::new(imm, rs1, rd)),
                0b101 => {
                    let funct7 = (imm >> 6u32) & 0b1111111;
                    match funct7 {
                        0b0000000 => InstructionEnum::Srli(Srli::new(imm, rs1, rd)),
                        _ => InstructionEnum::Srai(Srai::new(imm, rs1, rd)),
                    }
                },
                0b110 => InstructionEnum::Ori(Ori::new(imm, rs1, rd)),
                _ => InstructionEnum::Andi(Andi::new(imm, rs1, rd)),
            }
        },
        6 => {
            match funct3 {
                _ => InstructionEnum::Jalr(Jalr::new(imm, rs1, rd)),
            }
        },
        8 => {
            match funct3 {
                _ => InstructionEnum::Flw(Flw::new(imm, rs1, rd)),
            }
        },
        14 => {
            match funct3 {
                _ => InstructionEnum::End(End::new()),
            }
        },
        _ => {
            match funct3 {
                0b000 => InstructionEnum::In(In::new(rd)),
                _ => InstructionEnum::Fin(Fin::new(rd)),
            }
        },
    }
}

fn create_r_instruction_struct(funct7: Funct7, rs2: Rs2, rs1: Rs1, funct3: Funct3, rd: Rd, op: Op) -> (r: InstructionEnum)
    requires
        created_r(funct7, rs2, rs1, funct3, rd, op) is Some,
    ensures
        Some(r) == created_r(funct7, rs2, rs1, funct3, rd, op),
{
    match op {
        3 => {
            match funct3 {
                0b000 => {
                    match funct7 {
                        0b0000000 => InstructionEnum::Add(Add::new(rs2, rs1, rd)),
                        _ => InstructionEnum::Sub(Sub::new(rs2, rs1, rd)),
                    }
                },
                0b001 => {
                    match funct7 {
                        _ => InstructionEnum::Sll(Sll::new(rs2, rs1, rd)),
                    }
                },
                0b010 => {
                    match funct7 {
                        _ => InstructionEnum::Slt(Slt::new(rs2, rs1, rd)),
                    }
                },
                0b100 => {
                    match funct7 {
                        _ => InstructionEnum::Xor(Xor::new(rs2, rs1, rd)),
                    }
                },
                0b101 => {
                    match funct7 {
                        0b0000000 => InstructionEnum::Srl(Srl::new(rs2, rs1, rd)),
                        _ => InstructionEnum::Sra(Sra::new(rs2, rs1, rd)),
                    }
                },
                0b110 => {
                    match funct7 {
                        _ => InstructionEnum::Or(Or::new(rs2, rs1, rd)),
                    }
                },
                _ => {
                    match funct7 {
                        _ => InstructionEnum::And(And::new(rs2, rs1, rd)),
                    }
                },
            }
        },
        _ => {
            match funct7 {
                0b0000000 => InstructionEnum::Fadd(Fadd::new(rs2, rs1, rd)),
                0b0000100 => InstructionEnum::Fsub(Fsub::new(rs2, rs1, rd)),
                0b0001000 => InstructionEnum::Fmul(Fmul::new(rs2, rs1, rd)),
                0b0001100 => InstructionEnum::Fdiv(Fdiv::new(rs2, rs1, rd)),
                0b0101100 => InstructionEnum::Fsqrt(Fsqrt::new(rs2, rs1, rd)),
                0b0010000 => {
                    match funct3 {
                        0b000 => InstructionEnum::Fsgnj(Fsgnj::new(rs2, rs1, rd)),
                        0b001 => InstructionEnum::Fsgnjn(Fsgnjn::new(rs2, rs1, rd)),
                        _ => InstructionEnum::Fsgnjx(Fsgnjx::new(rs2, rs1, rd)),
                    }
                },
                0b1010000 => {
                    match funct3 {
                        0b010 => InstructionEnum::Feq(Feq::new(rs2, rs1, rd)),
                        0b001 => InstructionEnum::Flt(Flt::new(rs2, rs1, rd)),
                        _ => InstructionEnum::Fle(Fle::new(rs2, rs1, rd)),
                    }
                },
                0b1100000 => InstructionEnum::FcvtWS(FcvtWS::new(rs2, rs1, rd)),
                _ => InstructionEnum::FcvtSW(FcvtSW::new(rs2, rs1, rd)),
            }
        },
    }
}

fn create_s_instruction_struct(imm: Imm13, rs2: Rs2, rs1: Rs1, funct3: Funct3, op: Op) -> (r: InstructionEnum)
    requires
        created_s(imm, rs2, rs1, funct3, op) is Some,
    ensures
        Some(r) == created_s(imm, rs2, rs1, funct3, op),
{
    match op {
        2 => {
            match funct3 {
                _ => InstructionEnum::Sw(Sw::new(imm, rs2, rs1)),
            }
        },
        10 => {
            match funct3 {
                _ => InstructionEnum::Fsw(Fsw::new(imm, rs2, rs1)),
            }
        },
        _ => {
            match funct3 {
                0b000 => InstructionEnum::Outchar(Outchar::new(rs2)),
                _ => InstructionEnum::Outint(Outint::new(rs2)),
            }
        },
    }
}

fn create_b_instruction_struct(imm: Imm13, rs2: Rs2, rs1: Rs1, funct3: Funct3, op: Op) -> (r: InstructionEnum)
    requires
        created_b(imm, rs2, rs1, funct3, op) is Some,
    ensures
        Some(r) == created_b(imm, rs2, rs1, funct3, op),
{
    match op {
        5 => {
            match funct3 {
                0b000 => InstructionEnum::Beq(Beq::new(imm, rs2, rs1)),
                0b001 => InstructionEnum::Bne(Bne::new(imm, rs2, rs1)),
                0b100 => InstructionEnum::Blt(Blt::new(imm, rs2, rs1)),
                _ => InstructionEnum::Bge(Bge::new(imm, rs2, rs1)),
            }
        },
        _ => {
            match funct3 {
                0b000 => InstructionEnum::Fbeq(Fbeq::new(imm, rs2, rs1)),
                0b001 => InstructionEnum::Fbne(Fbne::new(imm, rs2, rs1)),
                0b100 => InstructionEnum::Fblt(Fblt::new(imm, rs2, rs1)),
                _ => InstructionEnum::Fble(Fble::new(imm, rs2, rs1)),
            }
        },
    }
}

fn create_j_instruction_struct(imm: Imm19, rd: Rd, op: Op) -> (r: InstructionEnum)
    requires
        created_j(imm, rd, op) is Some,
    ensures
        Some(r) == created_j(imm, rd, op),
{
    InstructionEnum::Jal(Jal::new(imm, rd))
}

fn create_u_instruction_struct(imm: Imm19, rd: Rd, op: Op) -> (r: InstructionEnum)
    requires
        created_u(imm, rd, op) is Some,
    ensures
        Some(r) == created_u(imm, rd, op),
{
    InstructionEnum::Lui(Lui::new(imm, rd))
}

/// The instruction that a decoded instruction gives; the machine must have it.
pub fn create_instruction_struct(inst: Instruction) -> (r: InstructionEnum)
    requires
        created(inst) is Some,
    ensures
        Some(r) == created(inst),
{
    match inst {
        Instruction::IInstruction(imm, rs1, funct3, rd, op) => create_i_instruction_struct(imm, rs1, funct3, rd, op),
        Instruction::RInstruction(funct7, rs2, rs1, funct3, rd, op) => {
            create_r_instruction_struct(funct7, rs2, rs1, funct3, rd, op)
        },
        Instruction::SInstruction(imm, rs2, rs1, funct3, op) => create_s_instruction_struct(imm, rs2, rs1, funct3, op),
        Instruction::BInstruction(imm, rs2, rs1, funct3, op) => create_b_instruction_struct(imm, rs2, rs1, funct3, op),
        Instruction::JInstruction(imm, rd, op) => create_j_instruction_struct(imm, rd, op),
        Instruction::UInstruction(imm, rd, op) => create_u_instruction_struct(imm, rd, op),
        Instruction::OtherInstruction => create_u_instruction_struct(0, 0, 4),
    }
}

/// Whether the machine has an instruction for the decoded instruction `inst`.
pub fn is_supported_instruction(inst: Instruction) -> (r: bool)
    ensures
        r == created(inst) is Some,
{
    match inst {
        Instruction::IInstruction(imm, _, funct3, _, op) => (op == 0 && funct3 == 0b010) || (op == 1 && (funct3 == 0b000 || funct3 == 0b001 || funct3 == 0b010 || funct3 == 0b100 || (funct3 == 0b101 && (((imm >> 6u32) & 0b1111111) == 0b0000000 || ((imm >> 6u32) & 0b1111111) == 0b0100000)) || funct3 == 0b110 || funct3 == 0b111)) || (op == 6 && funct3 == 0b000) || (op == 8 && funct3 == 0b010) || (op == 14 && funct3 == 0b000) || (op == 11 && (funct3 == 0b000 || funct3 == 0b001)),
        Instruction::RInstruction(funct7, _, _, funct3, _, op) => (op == 3 && ((funct3 == 0b000 && (funct7 == 0b0000000 || funct7 == 0b0100000)) || (funct3 == 0b001 && funct7 == 0b0000000) || (funct3 == 0b010 && funct7 == 0b0000000) || (funct3 == 0b100 && funct7 == 0b0000000) || (funct3 == 0b101 && (funct7 == 0b0000000 || funct7 == 0b0100000)) || (funct3 == 0b110 && funct7 == 0b0000000) || (funct3 == 0b111 && funct7 == 0b0000000))) || (op == 9 && (funct7 == 0b0000000 || funct7 == 0b0000100 || funct7 == 0b0001000 || funct7 == 0b0001100 || funct7 == 0b0101100 || (funct7 == 0b0010000 && (funct3 == 0b000 || funct3 == 0b001 || funct3 == 0b010)) || (funct7 == 0b1010000 && (funct3 == 0b010 || funct3 == 0b001 || funct3 == 0b000)) || funct7 == 0b1100000 || funct7 == 0b1101000)),
        Instruction::SInstruction(_, _, _, funct3, op) => (op == 2 && funct3 == 0b010) || (op == 10 && funct3 == 0b010) || (op == 12 && (funct3 == 0b000 || funct3 == 0b001)),
        Instruction::BInstruction(_, _, _, funct3, op) => (op == 5 && (funct3 == 0b000 || funct3 == 0b001 || funct3 == 0b100 || funct3 == 0b101)) || (op == 13 && (funct3 == 0b000 || funct3 == 0b001 || funct3 == 0b100 || funct3 == 0b101)),
        Instruction::JInstruction(_, _, op) => op == 7,
        Instruction::UInstruction(_, _, op) => op == 4,
        Instruction::OtherInstruction => false,
    }
}

/// The machine state after the operands of the instruction in the decode stage are read.
#[verifier::opaque]
pub open spec fn register_fetch_stage(st: CoreState) -> CoreState {
    match st.decode {
        Some(inst) => CoreState { decode: Some(fetched_inst(inst, st)), ..st },
        None => st,
    }
}

/// The machine state after the execute stage.
#[verifier::opaque]
pub open spec fn exec_stage(st: CoreState) -> CoreState {
    match st.execute {
        Some(inst) => {
            let (done, next) = executed_inst(inst, st);
            CoreState { execute: Some(done), ..next }
        },
        None => st,
    }
}

/// The machine state after the memory stage.
#[verifier::opaque]
pub open spec fn memory_stage(st: CoreState) -> CoreState {
    match st.memory_stage {
        Some(inst) => {
            let (done, next) = after_memory_inst(inst, st);
            CoreState { memory_stage: Some(done), ..next }
        },
        None => st,
    }
}

/// The machine state after the write-back stage.
#[verifier::opaque]
pub open spec fn write_back_stage(st: CoreState) -> CoreState {
    match st.write_back {
        Some(inst) => written_back_inst(inst, st),
        None => st,
    }
}

/// Reads the operands of the instruction in the decode stage, if any.
pub fn register_fetch(core: &mut Core)
    requires
        old(core).wf(),
        old(core)@.decode matches Some(inst) ==> inst_regs_ok(inst),
    ensures
        final(core).wf(),
        final(core)@ == register_fetch_stage(old(core)@),
{
    proof {
        reveal(register_fetch_stage);
    }
    let mut inst = match core.get_decoded_instruction() {
        Some(inst) => *inst,
        None => {
            return;
        },
    };
    inst.register_fetch(core);
    core.set_decoded_instruction(Some(inst));
}

/// Runs the execute stage of the instruction in it, if any.
pub fn exec_instruction(core: &mut Core)
    requires
        old(core).wf(),
        old(core)@.execute matches Some(inst) ==> inst_regs_ok(inst) && inst_ready(inst) && can_exec(inst, old(core)@),
    ensures
        final(core).wf(),
        final(core)@ == exec_stage(old(core)@),
{
    proof {
        reveal(exec_stage);
    }
    let mut inst = match core.get_instruction_in_exec_stage() {
        Some(inst) => *inst,
        None => {
            return;
        },
    };
    inst.exec(core);
    core.set_instruction_in_exec_stage(Some(inst));
}

/// Runs the memory stage of the instruction in it, if any.
pub fn memory_access(core: &mut Core)
    requires
        old(core).wf(),
        old(core)@.memory_stage matches Some(inst) ==> inst_regs_ok(inst) && inst_done_exec(inst)
            && can_access_memory(inst, old(core)@),
    ensures
        final(core).wf(),
        final(core)@ == memory_stage(old(core)@),
{
    proof {
        reveal(memory_stage);
    }
    let mut inst = match core.get_instruction_in_memory_stage() {
        Some(inst) => *inst,
        None => {
            return;
        },
    };
    inst.memory(core);
    core.set_instruction_in_memory_stage(Some(inst));
}

/// Runs the write-back stage of the instruction in it, if any.
pub fn write_back(core: &mut Core)
    requires
        old(core).wf(),
        old(core)@.write_back matches Some(inst) ==> inst_regs_ok(inst) && inst_done_memory(inst),
    ensures
        final(core).wf(),
        final(core)@ == write_back_stage(old(core)@),
{
    proof {
        reveal(write_back_stage);
    }
    let inst = match core.get_instruction_in_write_back_stage() {
        Some(inst) => *inst,
        None => {
            return;
        },
    };
    inst.write_back(core);
}

/// The registers `inst` reads.
pub fn get_source_registers(inst: &InstructionEnum) -> (r: Vec<RegisterId>)
    ensures
        r@ == inst_sources(*inst),
{
    inst.get_source_registers()
}

/// The register `inst` writes, if any.
pub fn get_destination_register(inst: &InstructionEnum) -> (r: Option<RegisterId>)
    ensures
        r == inst_destination(*inst),
{
    inst.get_destination_register()
}

/// Whether `inst` loads from memory.
pub fn is_load_instruction(inst: &InstructionEnum) -> (r: bool)
    ensures
        r == inst_is_load(*inst),
{
    inst.is_load_instruction()
}

/// The address `inst` jumps to, once its execute stage has decided so.
pub fn get_jump_address(inst: &InstructionEnum) -> (r: Option<Address>)
    ensures
        r == inst_jump(*inst),
{
    inst.get_jump_address()
}

/// The cycle in which `inst` read its operands, once it has.
pub fn get_instruction_count(inst: &InstructionEnum) -> (r: Option<InstructionCount>)
    ensures
        r == inst_count(*inst),
{
    inst.get_instruction_count()
}

/// The mnemonic of `inst`.
pub fn get_name(inst: &InstructionEnum) -> (r: String)
    ensures
        r@ == inst_name(*inst),
{
    inst.get_name()
}

/// Reading its operands keeps the register numbers of an instruction and makes it ready
/// to execute.
pub(crate) proof fn lemma_fetched_ready(inst: InstructionEnum, st: CoreState)
    requires
        inst_regs_ok(inst),
    ensures
        inst_regs_ok(fetched_inst(inst, st)),
        inst_ready(fetched_inst(inst, st)),
{
}

/// The execute stage keeps the register numbers of an instruction and leaves what the
/// memory stage needs.
pub(crate) proof fn lemma_executed_done(inst: InstructionEnum, st: CoreState)
    requires
        inst_regs_ok(inst),
        inst_ready(inst),
        can_exec(inst, st),
    ensures
        inst_regs_ok(executed_inst(inst, st).0),
        inst_done_exec(executed_inst(inst, st).0),
{
}

/// The memory stage keeps the register numbers of an instruction and leaves what the
/// write-back stage needs.
pub(crate) proof fn lemma_memory_done(inst: InstructionEnum, st: CoreState)
    requires
        inst_regs_ok(inst),
        inst_done_exec(inst),
        can_access_memory(inst, st),
    ensures
        inst_regs_ok(after_memory_inst(inst, st).0),
        inst_done_memory(after_memory_inst(inst, st).0),
{
}

/// An instruction made from a decoded word names registers that exist.
pub(crate) proof fn lemma_created_regs(w: u32)
    requires
        created(decode_word(w)) is Some,
    ensures
        inst_regs_ok(created(decode_word(w))->0),
{
    lemma_decoded_registers(w);
}

/// The register an instruction writes exists.
pub(crate) proof fn lemma_destination_exists(inst: InstructionEnum)
    requires
        inst_regs_ok(inst),
    ensures
        inst_destination(inst) matches Some(RegisterId::Int(rd)) ==> rd < 64,
        inst_destination(inst) matches Some(RegisterId::Float(rd)) ==> rd < 64,
{
}

/// The write-back stage of an instruction changes no stage of the pipeline.
pub(crate) proof fn lemma_write_back_keeps_stages(inst: InstructionEnum, st: CoreState)
    ensures
        written_back_inst(inst, st).fetch == st.fetch,
        written_back_inst(inst, st).fetch_2 == st.fetch_2,
        written_back_inst(inst, st).decode == st.decode,
        written_back_inst(inst, st).execute == st.execute,
        written_back_inst(inst, st).memory_stage == st.memory_stage,
        written_back_inst(inst, st).write_back == st.write_back,
        written_back_inst(inst, st).will_stall == st.will_stall,
        written_back_inst(inst, st).instruction_memory == st.instruction_memory,
        written_back_inst(inst, st).pc == st.pc || written_back_inst(inst, st).pc == INSTRUCTION_MEMORY_SIZE,
{
    match inst {
        InstructionEnum::Lw(_) => {},
        InstructionEnum::Addi(_) => {},
        InstructionEnum::Slli(_) => {},
        InstructionEnum::Slti(_) => {},
        InstructionEnum::Xori(_) => {},
        InstructionEnum::Srli(_) => {},
        InstructionEnum::Srai(_) => {},
        InstructionEnum::Ori(_) => {},
        InstructionEnum::Andi(_) => {},
        InstructionEnum::Sw(_) => {},
        InstructionEnum::Add(_) => {},
        InstructionEnum::Sub(_) => {},
        InstructionEnum::Sll(_) => {},
        InstructionEnum::Slt(_) => {},
        InstructionEnum::Xor(_) => {},
        InstructionEnum::Srl(_) => {},
        InstructionEnum::Sra(_) => {},
        InstructionEnum::Or(_) => {},
        InstructionEnum::And(_) => {},
        InstructionEnum::Lui(_) => {},
        InstructionEnum::Beq(_) => {},
        InstructionEnum::Bne(_) => {},
        InstructionEnum::Blt(_) => {},
        InstructionEnum::Bge(_) => {},
        InstructionEnum::Jalr(_) => {},
        InstructionEnum::Jal(_) => {},
        InstructionEnum::Flw(_) => {},
        InstructionEnum::Fadd(_) => {},
        InstructionEnum::Fsub(_) => {},
        InstructionEnum::Fmul(_) => {},
        InstructionEnum::Fdiv(_) => {},
        InstructionEnum::Fsqrt(_) => {},
        InstructionEnum::Fsgnj(_) => {},
        InstructionEnum::Fsgnjn(_) => {},
        InstructionEnum::Fsgnjx(_) => {},
        InstructionEnum::Feq(_) => {},
        InstructionEnum::Flt(_) => {},
        InstructionEnum::Fle(_) => {},
        InstructionEnum::FcvtWS(_) => {},
        InstructionEnum::FcvtSW(_) => {},
        InstructionEnum::Fsw(_) => {},
        InstructionEnum::In(_) => {},
        InstructionEnum::Fin(_) => {},
        InstructionEnum::Outchar(_) => {},
        InstructionEnum::Outint(_) => {},
        InstructionEnum::Fbeq(_) => {},
        InstructionEnum::Fbne(_) => {},
        InstructionEnum::Fblt(_) => {},
        InstructionEnum::Fble(_) => {},
        InstructionEnum::End(_) => {},
    }
}

/// The memory stage of an instruction changes no stage of the pipeline.
pub(crate) proof fn lemma_memory_keeps_stages(inst: InstructionEnum, st: CoreState)
    ensures
        after_memory_inst(inst, st).1.fetch == st.fetch,
        after_memory_inst(inst, st).1.fetch_2 == st.fetch_2,
        after_memory_inst(inst, st).1.decode == st.decode,
        after_memory_inst(inst, st).1.execute == st.execute,
        after_memory_inst(inst, st).1.memory_stage == st.memory_stage,
        after_memory_inst(inst, st).1.write_back == st.write_back,
        after_memory_inst(inst, st).1.will_stall == st.will_stall,
        after_memory_inst(inst, st).1.instruction_memory == st.instruction_memory,
        after_memory_inst(inst, st).1.pc == st.pc,
{
    match inst {
        InstructionEnum::Lw(_) => {},
        InstructionEnum::Addi(_) => {},
        InstructionEnum::Slli(_) => {},
        InstructionEnum::Slti(_) => {},
        InstructionEnum::Xori(_) => {},
        InstructionEnum::Srli(_) => {},
        InstructionEnum::Srai(_) => {},
        InstructionEnum::Ori(_) => {},
        InstructionEnum::Andi(_) => {},
        InstructionEnum::Sw(_) => {},
        InstructionEnum::Add(_) => {},
        InstructionEnum::Sub(_) => {},
        InstructionEnum::Sll(_) => {},
        InstructionEnum::Slt(_) => {},
        InstructionEnum::Xor(_) => {},
        InstructionEnum::Srl(_) => {},
        InstructionEnum::Sra(_) => {},
        InstructionEnum::Or(_) => {},
        InstructionEnum::And(_) => {},
        InstructionEnum::Lui(_) => {},
        InstructionEnum::Beq(_) => {},
        InstructionEnum::Bne(_) => {},
        InstructionEnum::Blt(_) => {},
        InstructionEnum::Bge(_) => {},
        InstructionEnum::Jalr(_) => {},
        InstructionEnum::Jal(_) => {},
        InstructionEnum::Flw(_) => {},
        InstructionEnum::Fadd(_) => {},
        InstructionEnum::Fsub(_) => {},
        InstructionEnum::Fmul(_) => {},
        InstructionEnum::Fdiv(_) => {},
        InstructionEnum::Fsqrt(_) => {},
        InstructionEnum::Fsgnj(_) => {},
        InstructionEnum::Fsgnjn(_) => {},
        InstructionEnum::Fsgnjx(_) => {},
        InstructionEnum::Feq(_) => {},
        InstructionEnum::Flt(_) => {},
        InstructionEnum::Fle(_) => {},
        InstructionEnum::FcvtWS(_) => {},
        InstructionEnum::FcvtSW(_) => {},
        InstructionEnum::Fsw(_) => {},
        InstructionEnum::In(_) => {},
        InstructionEnum::Fin(_) => {},
        InstructionEnum::Outchar(_) => {},
        InstructionEnum::Outint(_) => {},
        InstructionEnum::Fbeq(_) => {},
        InstructionEnum::Fbne(_) => {},
        InstructionEnum::Fblt(_) => {},
        InstructionEnum::Fble(_) => {},
        InstructionEnum::End(_) => {},
    }
}

/// The exec stage of an instruction changes no stage of the pipeline.
pub(crate) proof fn lemma_exec_keeps_stages(inst: InstructionEnum, st: CoreState)
    ensures
        executed_inst(inst, st).1.fetch == st.fetch,
        executed_inst(inst, st).1.fetch_2 == st.fetch_2,
        executed_inst(inst, st).1.decode == st.decode,
        executed_inst(inst, st).1.execute == st.execute,
        executed_inst(inst, st).1.memory_stage == st.memory_stage,
        executed_inst(inst, st).1.write_back == st.write_back,
        executed_inst(inst, st).1.will_stall == st.will_stall,
        executed_inst(inst, st).1.instruction_memory == st.instruction_memory,
        executed_inst(inst, st).1.pc == st.pc,
{
    match inst {
        InstructionEnum::Lw(_) => {},
        InstructionEnum::Addi(_) => {},
        InstructionEnum::Slli(_) => {},
        InstructionEnum::Slti(_) => {},
        InstructionEnum::Xori(_) => {},
        InstructionEnum::Srli(_) => {},
        InstructionEnum::Srai(_) => {},
        InstructionEnum::Ori(_) => {},
        InstructionEnum::Andi(_) => {},
        InstructionEnum::Sw(_) => {},
        InstructionEnum::Add(_) => {},
        InstructionEnum::Sub(_) => {},
        InstructionEnum::Sll(_) => {},
        InstructionEnum::Slt(_) => {},
        InstructionEnum::Xor(_) => {},
        InstructionEnum::Srl(_) => {},
        InstructionEnum::Sra(_) => {},
        InstructionEnum::Or(_) => {},
        InstructionEnum::And(_) => {},
        InstructionEnum::Lui(_) => {},
        InstructionEnum::Beq(_) => {},
        InstructionEnum::Bne(_) => {},
        InstructionEnum::Blt(_) => {},
        InstructionEnum::Bge(_) => {},
        InstructionEnum::Jalr(_) => {},
        InstructionEnum::Jal(_) => {},
        InstructionEnum::Flw(_) => {},
        InstructionEnum::Fadd(_) => {},
        InstructionEnum::Fsub(_) => {},
        InstructionEnum::Fmul(_) => {},
        InstructionEnum::Fdiv(_) => {},
        InstructionEnum::Fsqrt(_) => {},
        InstructionEnum::Fsgnj(_) => {},
        InstructionEnum::Fsgnjn(_) => {},
        InstructionEnum::Fsgnjx(_) => {},
        InstructionEnum::Feq(_) => {},
        InstructionEnum::Flt(_) => {},
        InstructionEnum::Fle(_) => {},
        InstructionEnum::FcvtWS(_) => {},
        InstructionEnum::FcvtSW(_) => {},
        InstructionEnum::Fsw(_) => {},
        InstructionEnum::In(_) => {},
        InstructionEnum::Fin(_) => {},
        InstructionEnum::Outchar(_) => {},
        InstructionEnum::Outint(_) => {},
        InstructionEnum::Fbeq(_) => {},
        InstructionEnum::Fbne(_) => {},
        InstructionEnum::Fblt(_) => {},
        InstructionEnum::Fble(_) => {},
        InstructionEnum::End(_) => {},
    }
}

/// Reading operands changes only the decode stage, and readies its instruction.
pub(crate) proof fn lemma_register_fetch_stage(st: CoreState)
    requires
        st.decode matches Some(i) ==> inst_regs_ok(i),
    ensures
        register_fetch_stage(st).fetch == st.fetch,
        register_fetch_stage(st).fetch_2 == st.fetch_2,
        register_fetch_stage(st).execute == st.execute,
        register_fetch_stage(st).memory_stage == st.memory_stage,
        register_fetch_stage(st).write_back == st.write_back,
        register_fetch_stage(st).will_stall == st.will_stall,
        register_fetch_stage(st).instruction_memory == st.instruction_memory,
        register_fetch_stage(st).pc == st.pc,
        st.decode is None ==> register_fetch_stage(st).decode is None,
        st.decode is Some ==> (register_fetch_stage(st).decode matches Some(j) && inst_regs_ok(j) && inst_ready(j)),
{
    reveal(register_fetch_stage);
    if let Some(i) = st.decode {
        lemma_fetched_ready(i, st);
    }
}

/// The execute stage changes no other stage and leaves its instruction executed.
pub(crate) proof fn lemma_exec_stage(st: CoreState)
    requires
        st.execute matches Some(i) ==> inst_regs_ok(i) && inst_ready(i) && can_exec(i, st),
    ensures
        exec_stage(st).fetch == st.fetch,
        exec_stage(st).fetch_2 == st.fetch_2,
        exec_stage(st).decode == st.decode,
        exec_stage(st).memory_stage == st.memory_stage,
        exec_stage(st).write_back == st.write_back,
        exec_stage(st).will_stall == st.will_stall,
        exec_stage(st).instruction_memory == st.instruction_memory,
        exec_stage(st).pc == st.pc,
        st.execute is None ==> exec_stage(st).execute is None,
        st.execute is Some ==> (exec_stage(st).execute matches Some(j) && inst_regs_ok(j) && inst_done_exec(j)),
{
    reveal(exec_stage);
    if let Some(i) = st.execute {
        lemma_executed_done(i, st);
        lemma_exec_keeps_stages(i, st);
    }
}

/// The memory stage changes no other stage and leaves its instruction done.
pub(crate) proof fn lemma_memory_stage(st: CoreState)
    requires
        st.memory_stage matches Some(i) ==> inst_regs_ok(i) && inst_done_exec(i) && can_access_memory(i, st),
    ensures
        memory_stage(st).fetch == st.fetch,
        memory_stage(st).fetch_2 == st.fetch_2,
        memory_stage(st).decode == st.decode,
        memory_stage(st).execute == st.execute,
        memory_stage(st).write_back == st.write_back,
        memory_stage(st).will_stall == st.will_stall,
        memory_stage(st).instruction_memory == st.instruction_memory,
        memory_stage(st).pc == st.pc,
        st.memory_stage is None ==> memory_stage(st).memory_stage is None,
        st.memory_stage is Some ==> (memory_stage(st).memory_stage matches Some(j) && inst_regs_ok(j) && inst_done_memory(j)),
{
    reveal(memory_stage);
    if let Some(i) = st.memory_stage {
        lemma_memory_done(i, st);
        lemma_memory_keeps_stages(i, st);
    }
}

/// The write-back stage changes no stage; only an end moves the program counter.
pub(crate) proof fn lemma_write_back_stage(st: CoreState)
    requires
        st.write_back matches Some(i) ==> inst_regs_ok(i) && inst_done_memory(i),
    ensures
        write_back_stage(st).fetch == st.fetch,
        write_back_stage(st).fetch_2 == st.fetch_2,
        write_back_stage(st).decode == st.decode,
        write_back_stage(st).execute == st.execute,
        write_back_stage(st).memory_stage == st.memory_stage,
        write_back_stage(st).will_stall == st.will_stall,
        write_back_stage(st).instruction_memory == st.instruction_memory,
        write_back_stage(st).pc == st.pc || write_back_stage(st).pc == INSTRUCTION_MEMORY_SIZE,
        write_back_stage(st).write_back == st.write_back,
{
    reveal(write_back_stage);
    if let Some(i) = st.write_back {
        lemma_write_back_keeps_stages(i, st);
    }
}

} // verus!
