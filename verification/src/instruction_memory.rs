use vstd::prelude::*;
use crate::types::{Address, InstructionValue};
use crate::memory::lemma_word_shift;

verus! {

/// The number of instruction words that the instruction memory holds.
pub const INSTRUCTION_MEMORY_SIZE: usize = 4 * 1024 * 1024;

/// The instruction memory: an instruction word at each address that is a multiple of 4;
/// the two low bits of an address are ignored.
pub struct InstructionMemory {
    values: Vec<InstructionValue>,
}

impl View for InstructionMemory {
    type V = Seq<InstructionValue>;

    closed spec fn view(&self) -> Seq<InstructionValue> {
        self.values@
    }
}

impl InstructionMemory {
    /// Whether the instruction memory holds all its words.
    pub open spec fn wf(&self) -> bool {
        self@.len() == INSTRUCTION_MEMORY_SIZE
    }

    /// An instruction memory of zero words.
    pub fn new() -> (r: Self)
        ensures
            r.wf(),
            r@ == Seq::new(INSTRUCTION_MEMORY_SIZE as nat, |i: int| 0u32),
    {
        let mut values: Vec<InstructionValue> = Vec::with_capacity(INSTRUCTION_MEMORY_SIZE);
        while values.len() < INSTRUCTION_MEMORY_SIZE
            invariant
                values.len() <= INSTRUCTION_MEMORY_SIZE,
                forall|i: int| 0 <= i < values.len() ==> values@[i] == 0u32,
            decreases INSTRUCTION_MEMORY_SIZE - values.len(),
        {
            values.push(0);
        }
        let memory = InstructionMemory { values };
        assert(memory@ =~= Seq::new(INSTRUCTION_MEMORY_SIZE as nat, |i: int| 0u32));
        memory
    }

    /// The instruction word that holds address `addr`.
    pub fn load(&self, addr: Address) -> (r: InstructionValue)
        requires
            self.wf(),
            addr / 4 < INSTRUCTION_MEMORY_SIZE,
        ensures
            r == self@[(addr / 4) as int],
    {
        proof {
            lemma_word_shift(addr);
        }
        self.values[(addr >> 2) as usize]
    }

    /// Writes `value` to the instruction word that holds address `addr`.
    pub fn store(&mut self, addr: Address, value: InstructionValue)
        requires
            old(self).wf(),
            addr / 4 < INSTRUCTION_MEMORY_SIZE,
        ensures
            final(self).wf(),
            final(self)@ == old(self)@.update((addr / 4) as int, value),
    {
        proof {
            lemma_word_shift(addr);
        }
        self.values.set((addr >> 2) as usize, value);
    }
}

} // verus!
