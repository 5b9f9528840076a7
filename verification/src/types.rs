use vstd::prelude::*;

verus! {

/// A word of the simulated machine, as held by an integer register or a memory cell.
pub type Word = i32;

pub type Int = i32;

pub type MemoryValue = u32;

pub type Address = u32;

pub type InstructionValue = u32;

pub type Tag = u32;

pub type CacheIndex = usize;

pub type Imm13 = i16;

pub type Imm19 = i32;

pub type UByte = u8;

pub type UHalf = u16;

pub type Rs1 = u8;

pub type Rs2 = u8;

pub type Rs = u8;

pub type Rd = u8;

pub type Funct3 = u8;

pub type Funct7 = u8;

pub type Op = u8;

pub type Fs3 = u8;

pub type Fs2 = u8;

pub type Fs1 = u8;

pub type Fd = u8;

pub type InstructionCount = u128;

/// A register named by an instruction: an integer register or a floating-point register.
#[derive(PartialEq, Eq, Structural, Clone, Copy, Debug)]
pub enum RegisterId {
    Int(u8),
    Float(u8),
}

} // verus!
