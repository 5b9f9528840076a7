use vstd::prelude::*;
use vstd::string::StrSliceExecFns;
use crate::cache::{
    Cache, CacheAccess, CacheLine, LINE_NUM, after_read_hit, after_set_line, after_write_hit, evicted_by_set_line,
    hit_line, index_of, le_bytes, line_base, offset_of, tag_of, valid_hit, bytes_written, has_key, set_wf,
    lemma_miss_has_no_key, read_touched, write_touched, touched, key_index, swap_removed, WAY_NUM,
    lemma_hit_after_touch, lemma_hit_after_set_line, fresh_line, entry_wf, lemma_swap_removed, lemma_key_index,
    lemma_set_line_keeps_others, lemma_touched_keeps_others,
};
use crate::fpu::FloatingPoint;
use crate::decoder::{Instruction, decode_instruction, decode_word, instruction_bytes};
use crate::instruction::{
    InstructionEnum, can_access_memory, can_exec, create_instruction_struct, created, exec_instruction, exec_stage,
    inst_count, inst_destination, inst_done_exec, inst_done_memory, inst_is_load, inst_jump, inst_ready,
    inst_regs_ok, inst_sources, is_supported_instruction, lemma_created_regs, lemma_executed_done,
    lemma_fetched_ready, lemma_memory_done, memory_access, memory_stage, register_fetch, register_fetch_stage,
    write_back, write_back_stage, executed_inst, after_memory_inst, fetched_inst, inst_assembly,
    inst_name, get_name,
};
use crate::statistics::{FetchCounts, NameCounts, counted_fetch, counted_name};
use crate::instruction_memory::{InstructionMemory, INSTRUCTION_MEMORY_SIZE};
use crate::memory::{Memory, MEMORY_SIZE, MEMORY_WORDS, store_line, word_index, lemma_store_line};
use crate::register::{FloatRegister, IntRegister};
use crate::types::{Address, InstructionCount, InstructionValue, Int, RegisterId, Rs, Tag, UByte, Word};
use crate::utils::{
    ascii, push_text, decimal_bytes, decimal_text, i32_to_u32, u32_to_i32, spec_i32_to_u32, spec_u32_to_i32,
    lemma_word_reinterpretation_round_trip,
};

verus! {

/// The number of integer registers.
pub const INT_REGISTER_SIZE: usize = 64;

/// The number of floating-point registers.
pub const FLOAT_REGISTER_SIZE: usize = 64;

/// The register that always reads as zero.
pub const ZERO: usize = 0;

/// The state of the simulated machine: memories and cache, registers, the six pipeline
/// stages, the forwarding network, the input and output of the program, and counters.
pub ghost struct CoreState {
    pub memory: Seq<u32>,
    pub cache: Seq<Seq<(Tag, CacheLine)>>,
    pub memory_access_count: usize,
    pub cache_hit_count: usize,
    pub instruction_memory: Seq<u32>,
    pub instruction_memory_access_count: usize,
    pub instruction_count: InstructionCount,
    pub cycle_count: u128,
    pub int_registers: Seq<i32>,
    pub float_registers: Seq<FloatingPoint>,
    pub pc: u32,
    pub fetch: Option<InstructionValue>,
    pub fetch_2: Option<InstructionValue>,
    pub decode: Option<InstructionEnum>,
    pub execute: Option<InstructionEnum>,
    pub memory_stage: Option<InstructionEnum>,
    pub write_back: Option<InstructionEnum>,
    pub forwarding_int: Seq<Option<(InstructionCount, Int)>>,
    pub forwarding_float: Seq<Option<(InstructionCount, FloatingPoint)>>,
    pub sld: Seq<Seq<char>>,
    pub sld_float_bits: Seq<Option<u32>>,
    pub sld_counter: usize,
    pub output: Seq<u8>,
    pub will_stall: bool,
    /// For each address fetched from: the instruction first decoded there, and how often
    /// an instruction was fetched there.
    pub pc_stats: Map<Address, (Instruction, usize)>,
    /// For each instruction name: how often an instruction of that name was in the
    /// write-back stage of a cycle that fetched.
    pub inst_stats: Map<Seq<char>, usize>,
}

/// The value of the decimal digits `s`.
pub open spec fn digits_value(s: Seq<char>) -> int
    decreases s.len(),
{
    if s.len() == 0 {
        0
    } else {
        digits_value(s.drop_last()) * 10 + (s.last() as int - '0' as int)
    }
}

/// Whether every character of `s` is a decimal digit.
pub open spec fn all_digits(s: Seq<char>) -> bool {
    forall|i: int| 0 <= i < s.len() ==> '0' <= #[trigger] s[i] <= '9'
}

/// The integer that `s` writes in decimal: an optional `+` or `-` sign and at least one
/// digit, with a value that fits in 32 bits; `None` for any other text.
pub open spec fn decimal_i32(s: Seq<char>) -> Option<i32> {
    let negative = s.len() > 0 && s[0] == '-';
    let digits = if s.len() > 0 && (s[0] == '-' || s[0] == '+') { s.drop_first() } else { s };
    let value = if negative { -digits_value(digits) } else { digits_value(digits) };
    if digits.len() > 0 && all_digits(digits) && i32::MIN <= value <= i32::MAX {
        Some(value as i32)
    } else {
        None
    }
}

/// The value of a string of decimal digits is at least that of each of its prefixes, and
/// not negative.
proof fn lemma_digits_value_grows(s: Seq<char>, k: int)
    requires
        all_digits(s),
        0 <= k <= s.len(),
    ensures
        digits_value(s) >= digits_value(s.subrange(0, k)) >= 0,
    decreases s.len(),
{
    if s.len() > 0 {
        let front = s.drop_last();
        assert(all_digits(front)) by {
            assert forall|i: int| 0 <= i < front.len() implies '0' <= #[trigger] front[i] <= '9' by {
                assert(front[i] == s[i]);
            }
        }
        if k == s.len() {
            assert(s.subrange(0, k) =~= s);
            lemma_digits_value_grows(front, front.len() as int);
            assert(front.subrange(0, front.len() as int) =~= front);
        } else {
            lemma_digits_value_grows(front, k);
            assert(front.subrange(0, k) =~= s.subrange(0, k));
        }
        assert('0' <= s[s.len() - 1] <= '9');
    } else {
        assert(s.subrange(0, k) =~= s);
    }
}

/// The integer that `token` writes in decimal, as `str::parse::<i32>` reads it: an optional
/// `+` or `-` sign and at least one digit, with a value that fits in 32 bits.
fn parse_int_token(token: &String) -> (r: Option<i32>)
    ensures
        r == decimal_i32(token@),
{
    let s = token.as_str();
    let n = s.unicode_len();
    let mut start: usize = 0;
    let mut negative = false;
    if n > 0 {
        let c = s.get_char(0);
        if c == '-' {
            negative = true;
            start = 1;
        } else if c == '+' {
            start = 1;
        }
    }
    let ghost t = token@;
    let ghost digits = t.subrange(start as int, n as int);
    assert(digits =~= (if t.len() > 0 && (t[0] == '-' || t[0] == '+') { t.drop_first() } else { t }));
    assert(negative == (t.len() > 0 && t[0] == '-'));
    if start >= n {
        return None;
    }
    let mut value: u64 = 0;
    let mut j: usize = start;
    while j < n
        invariant
            s@ == t,
            t == token@,
            n == t.len(),
            start <= j <= n,
            digits == (if t.len() > 0 && (t[0] == '-' || t[0] == '+') { t.drop_first() } else { t }),
            negative == (t.len() > 0 && t[0] == '-'),
            digits == t.subrange(start as int, n as int),
            all_digits(t.subrange(start as int, j as int)),
            value == digits_value(t.subrange(start as int, j as int)),
            value <= 0x8000_0000,
        decreases n - j,
    {
        let c = s.get_char(j);
        let ghost before = t.subrange(start as int, j as int);
        let ghost after = t.subrange(start as int, j + 1);
        assert(after.drop_last() =~= before);
        assert(after.last() == c);
        if c < '0' || c > '9' {
            assert(digits[j - start] == c);
            return None;
        }
        assert(all_digits(after)) by {
            assert forall|i: int| 0 <= i < after.len() implies '0' <= #[trigger] after[i] <= '9' by {
                if i < before.len() {
                    assert(after[i] == before[i]);
                }
            }
        }
        value = value * 10 + (c as u64 - '0' as u64);
        if value > 0x8000_0000 {
            proof {
                if all_digits(digits) {
                    lemma_digits_value_grows(digits, (j + 1 - start) as int);
                    assert(digits.subrange(0, (j + 1 - start) as int) =~= after);
                }
            }
            return None;
        }
        j += 1;
    }
    assert(t.subrange(start as int, j as int) =~= digits);
    if negative {
        Some((0 - value as i64) as i32)
    } else if value <= 0x7fff_ffff {
        Some(value as i32)
    } else {
        None
    }
}

/// The bytes of a line of 16 words, lowest byte of each word first.
pub open spec fn bytes_of_words(words: Seq<u32>) -> Seq<UByte> {
    Seq::new(64, |j: int| ((words[j / 4] >> ((8 * (j % 4)) as u32)) & 0xff) as UByte)
}

/// The 16 words of a line of 64 bytes given with their addresses: each word has the
/// address of its lowest byte and the value of its four bytes, lowest first.
pub open spec fn words_of_bytes(bytes: Seq<(Address, UByte)>) -> Seq<(Address, u32)> {
    Seq::new(
        16,
        |j: int|
            (
                bytes[4 * j].0,
                (bytes[4 * j].1 + bytes[4 * j + 1].1 * 0x100 + bytes[4 * j + 2].1 * 0x1_0000 + bytes[4 * j + 3].1
                    * 0x100_0000) as u32,
            ),
    )
}

/// The array whose elements are `s`.
pub open spec fn line_array(s: Seq<UByte>) -> [UByte; 64] {
    choose|a: [UByte; 64]| a@ == s
}

/// The address of the first byte of the line that holds `addr`.
pub open spec fn line_address(addr: Address) -> Address {
    (addr - addr % 64) as Address
}

/// Every line of the cache other than the placeholders holds bytes of memory.
pub open spec fn cache_in_memory(cache: Seq<Seq<(Tag, CacheLine)>>) -> bool {
    forall|i: int, k: int|
        0 <= i < LINE_NUM && 0 <= k < cache[i].len() && #[trigger] cache[i][k].0 != u32::MAX ==> line_base(
            cache[i][k].0,
            i,
        ) + 64 <= MEMORY_SIZE
}

/// The byte of `memory` at the address `a`.
pub open spec fn memory_byte(memory: Seq<u32>, a: int) -> UByte {
    ((memory[a / 4] >> ((8 * (a % 4)) as u32)) & 0xff) as UByte
}

/// The byte the machine holds at `a`: that of the valid line of the cache that holds `a`,
/// if there is one, else that of memory.
pub open spec fn visible_byte(st: CoreState, a: Address) -> UByte {
    if valid_hit(st.cache[index_of(a)], tag_of(a)) {
        hit_line(st.cache, a).value@[offset_of(a)]
    } else {
        memory_byte(st.memory, a as int)
    }
}

/// The word the machine holds at `a`: its four bytes from `a` on, lowest first.
pub open spec fn visible_word(st: CoreState, a: Address) -> u32 {
    (visible_byte(st, a) + visible_byte(st, (a + 1) as Address) * 0x100 + visible_byte(st, (a + 2) as Address)
        * 0x1_0000 + visible_byte(st, (a + 3) as Address) * 0x100_0000) as u32
}

/// Every valid line of the cache that is not dirty holds the bytes that memory holds at
/// its addresses.
pub open spec fn clean_lines_agree(st: CoreState) -> bool {
    forall|i: int, k: int, j: int|
        0 <= i < LINE_NUM && 0 <= k < st.cache[i].len() && st.cache[i][k].1.valid && !st.cache[i][k].1.dirty && 0
            <= j < 64 ==> #[trigger] st.cache[i][k].1.value@[j] == memory_byte(
            st.memory,
            line_base(st.cache[i][k].0, i) + j,
        )
}

impl CoreState {
    /// The value integer register `rs` gives an instruction that reads it: the value
    /// forwarded for it, if any, else the register's own.
    pub open spec fn int_source(self, rs: u8) -> Int {
        match self.forwarding_int[rs as int] {
            Some((_, v)) => v,
            None => self.int_registers[rs as int],
        }
    }

    /// The value floating-point register `rs` gives an instruction that reads it.
    pub open spec fn float_source(self, rs: u8) -> FloatingPoint {
        match self.forwarding_float[rs as int] {
            Some((_, v)) => v,
            None => self.float_registers[rs as int],
        }
    }

    /// The state after forwarding `value` for integer register `rs` (not for register 0).
    pub open spec fn with_int_forwarding(self, rs: u8, count: InstructionCount, value: Int) -> Self {
        if rs == 0 {
            self
        } else {
            CoreState { forwarding_int: self.forwarding_int.update(rs as int, Some((count, value))), ..self }
        }
    }

    /// The state after forwarding `value` for floating-point register `rs` (not for
    /// register 0).
    pub open spec fn with_float_forwarding(self, rs: u8, count: InstructionCount, value: FloatingPoint) -> Self {
        if rs == 0 {
            self
        } else {
            CoreState { forwarding_float: self.forwarding_float.update(rs as int, Some((count, value))), ..self }
        }
    }

    /// The state after writing `value` to integer register `index` (register 0 keeps 0).
    pub open spec fn with_int_register(self, index: int, value: Int) -> Self {
        if index == ZERO {
            self
        } else {
            CoreState { int_registers: self.int_registers.update(index, value), ..self }
        }
    }

    /// The state after writing `value` to floating-point register `index` (register 0 is
    /// left as it is).
    pub open spec fn with_float_register(self, index: int, value: FloatingPoint) -> Self {
        if index == ZERO {
            self
        } else {
            CoreState { float_registers: self.float_registers.update(index, value), ..self }
        }
    }

    /// The state after the program writes `bytes` to its output.
    pub open spec fn with_output(self, bytes: Seq<u8>) -> Self {
        CoreState { output: self.output + bytes, ..self }
    }

    /// The state after the program ends: the program counter leaves the instruction
    /// memory.
    pub open spec fn ended(self) -> Self {
        CoreState { pc: INSTRUCTION_MEMORY_SIZE as u32, ..self }
    }

    /// Whether the next token of the input is an integer.
    pub open spec fn can_read_int(self) -> bool {
        &&& self.sld_counter < self.sld.len()
        &&& decimal_i32(self.sld[self.sld_counter as int]) is Some
    }

    /// The state after reading the next integer of the input, and that integer.
    pub open spec fn read_int_result(self) -> (Self, Word) {
        (
            CoreState { sld_counter: (self.sld_counter + 1) as usize, ..self },
            decimal_i32(self.sld[self.sld_counter as int])->0,
        )
    }

    /// Whether the next token of the input is a floating-point number.
    pub open spec fn can_read_float(self) -> bool {
        &&& self.sld_counter < self.sld_float_bits.len()
        &&& self.sld_float_bits[self.sld_counter as int] is Some
    }

    /// The state after reading the next floating-point number of the input, and its bits
    /// as a signed word.
    pub open spec fn read_float_result(self) -> (Self, Word) {
        (
            CoreState { sld_counter: (self.sld_counter + 1) as usize, ..self },
            spec_u32_to_i32(self.sld_float_bits[self.sld_counter as int]->0),
        )
    }

    /// The state after a cache miss at `addr`: the line that holds `addr` comes from
    /// memory into the cache, and the line it evicts, if dirty, goes back to memory.
    pub open spec fn after_cache_miss(self, addr: Address) -> Self {
        let line_addr = line_address(addr);
        let bytes = line_array(bytes_of_words(self.memory.subrange(word_index(line_addr), word_index(line_addr) + 16)));
        let memory = match evicted_by_set_line(self.cache, line_addr) {
            Some(e) => store_line(self.memory, words_of_bytes(e)),
            None => self.memory,
        };
        CoreState { cache: after_set_line(self.cache, line_addr, bytes), memory, ..self }
    }

    /// Whether a word access at `addr` is possible: the address lies in memory, and a
    /// valid line that holds it also holds the three bytes after it.
    pub open spec fn word_access_ok(self, addr: Address) -> bool {
        &&& (addr as int) < MEMORY_SIZE
        &&& valid_hit(self.cache[index_of(addr)], tag_of(addr)) ==> offset_of(addr) + 4 <= 64
    }

    /// The state and the value of a load of the word at `addr`: on a hit, the bytes of
    /// the line; on a miss, the word of memory, whose line then comes into the cache.
    pub open spec fn load_word_result(self, addr: Address) -> (Self, Word) {
        let counted = CoreState {
            memory_access_count: vstd::wrapping::usize_specs::wrapping_add(self.memory_access_count, 1),
            ..self
        };
        if valid_hit(self.cache[index_of(addr)], tag_of(addr)) {
            (
                CoreState {
                    cache: after_read_hit(self.cache, addr),
                    cache_hit_count: vstd::wrapping::usize_specs::wrapping_add(self.cache_hit_count, 1),
                    ..counted
                },
                spec_u32_to_i32(le_bytes(hit_line(self.cache, addr).value@, offset_of(addr), 4) as u32),
            )
        } else {
            (counted.after_cache_miss(addr), spec_u32_to_i32(self.memory[word_index(addr)]))
        }
    }

    /// The state after a store of the word `value` at `addr`: on a hit the line takes the
    /// bytes and becomes dirty; on a miss memory takes the word and its line comes into
    /// the cache.
    pub open spec fn store_word_result(self, addr: Address, value: Word) -> Self {
        let counted = CoreState {
            memory_access_count: vstd::wrapping::usize_specs::wrapping_add(self.memory_access_count, 1),
            ..self
        };
        if valid_hit(self.cache[index_of(addr)], tag_of(addr)) {
            CoreState {
                cache: after_write_hit(
                    self.cache,
                    addr,
                    line_array(bytes_written(hit_line(self.cache, addr).value, offset_of(addr), spec_i32_to_u32(value), 4)),
                ),
                cache_hit_count: vstd::wrapping::usize_specs::wrapping_add(self.cache_hit_count, 1),
                ..counted
            }
        } else {
            CoreState { memory: self.memory.update(word_index(addr), spec_i32_to_u32(value)), ..counted }.after_cache_miss(addr)
        }
    }
}

/// Why a cycle of the machine cannot be simulated.
#[derive(Clone, Copy, PartialEq, Eq, Structural, Debug)]
pub enum StepFault {
    /// A fetched word decodes to an instruction the machine does not have.
    UnsupportedInstruction,
    /// A load or store addresses a word outside memory, or across the end of a cached line.
    MemoryAccess,
    /// The execute stage holds a floating-point operation the machine cannot compute.
    UnimplementedOperation,
    /// An input instruction finds no token of the right kind.
    Input,
}

/// What a call of `Core::step` did.
#[derive(Clone, Copy, PartialEq, Eq, Structural, Debug)]
pub enum StepOutcome {
    /// The program counter had left the instruction memory: the program is over.
    Finished,
    /// The pipeline stalled for a load: nothing was fetched.
    Stalled,
    /// The pipeline advanced; the fetch stage read at the address given, and holds the
    /// word it fetched there, if not zero (before a jump empties it).
    Ran(Address, Option<InstructionValue>),
}

/// Whether the fetched word in the second fetch stage can move to the decode stage: it
/// decodes to no format (and is dropped) or to an instruction the machine has.
pub open spec fn can_move(st: CoreState) -> bool {
    st.fetch_2 matches Some(w) ==> (decode_word(w) is OtherInstruction || created(decode_word(w)) is Some)
}

/// The state after every instruction moves to the next stage: the word in the second fetch
/// stage is decoded (a word of no format empties the fetch and decode stages).
pub open spec fn moved(st: CoreState) -> CoreState {
    let base = CoreState { write_back: st.memory_stage, memory_stage: st.execute, execute: st.decode, ..st };
    match st.fetch_2 {
        Some(w) => if decode_word(w) is OtherInstruction {
            CoreState { decode: None, fetch_2: None, fetch: None, ..base }
        } else {
            CoreState { decode: Some(created(decode_word(w))->0), fetch_2: st.fetch, fetch: None, ..base }
        },
        None => CoreState { decode: None, fetch_2: st.fetch, fetch: None, ..base },
    }
}

/// The state after a stall: the instructions from the execute stage on move, the execute
/// stage empties, and the stages before it keep their instructions.
pub open spec fn moved_stalling(st: CoreState) -> CoreState {
    CoreState { write_back: st.memory_stage, memory_stage: st.execute, execute: None, ..st }
}

/// Whether the instruction in the decode stage reads the register that the load in the
/// execute stage writes.
pub open spec fn load_hazard(st: CoreState) -> bool {
    match (st.decode, st.execute) {
        (Some(decoded), Some(executing)) => inst_is_load(executing) && match inst_destination(executing) {
            Some(rd) => inst_sources(decoded).contains(rd),
            None => false,
        },
        _ => false,
    }
}

/// The state after the fetch stage reads the instruction word at the program counter; a
/// zero word is not fetched.
pub open spec fn after_fetch(st: CoreState) -> CoreState {
    let inst = st.instruction_memory[(st.pc / 4) as int];
    let counted = CoreState {
        instruction_memory_access_count: vstd::wrapping::usize_specs::wrapping_add(st.instruction_memory_access_count, 1),
        ..st
    };
    if inst == 0 {
        counted
    } else {
        CoreState { fetch: Some(inst), ..counted }
    }
}

/// The state after the program counter moves on: to the address of a jump decided in the
/// execute stage (the fetch and decode stages then empty), else to the next word unless
/// the pipeline stalls.
pub open spec fn after_next_pc(st: CoreState, stalling: bool) -> CoreState {
    let jump = match st.execute {
        Some(inst) => inst_jump(inst),
        None => None,
    };
    match jump {
        Some(address) => CoreState { pc: address, fetch: None, fetch_2: None, decode: None, ..st },
        None => if stalling {
            st
        } else {
            CoreState { pc: vstd::wrapping::u32_specs::wrapping_add(st.pc, 4), ..st }
        },
    }
}

/// The state after the instruction in the write-back stage stops forwarding its result:
/// the value forwarded for its destination goes away if that instruction forwarded it.
pub open spec fn after_forwarding_removal(st: CoreState) -> CoreState {
    match st.write_back {
        Some(inst) => {
            let count = inst_count(inst)->0;
            match inst_destination(inst) {
                Some(RegisterId::Int(rd)) => if rd != 0 && (st.forwarding_int[rd as int] matches Some((c, _)) && c
                    == count) {
                    CoreState { forwarding_int: st.forwarding_int.update(rd as int, None), ..st }
                } else {
                    st
                },
                Some(RegisterId::Float(rd)) => if rd != 0 && (st.forwarding_float[rd as int] matches Some((c, _))
                    && c == count) {
                    CoreState { forwarding_float: st.forwarding_float.update(rd as int, None), ..st }
                } else {
                    st
                },
                None => st,
            }
        },
        None => st,
    }
}

/// Whether the memory stage can run: its load or store addresses a word it can reach.
pub open spec fn memory_stage_ok(st: CoreState) -> bool {
    st.memory_stage matches Some(inst) ==> can_access_memory(inst, st)
}

/// Why the execute stage cannot run, if it cannot.
pub open spec fn exec_fault(st: CoreState) -> Option<StepFault> {
    match st.execute {
        Some(inst) => if can_exec(inst, st) {
            None
        } else {
            match inst {
                InstructionEnum::In(_) => Some(StepFault::Input),
                InstructionEnum::Fin(_) => Some(StepFault::Input),
                _ => Some(StepFault::UnimplementedOperation),
            }
        },
        None => None,
    }
}

/// One cycle of the pipeline from `st` (whose cycle is counted and whose program counter
/// lies in the instruction memory): the stages run from write-back to fetch, then the
/// program counter moves on and the write-back stage stops forwarding. The result is the
/// state after the cycle, whether it stalled and the word the fetch stage then held, or
/// why the cycle cannot run.
pub open spec fn cycle_result(st: CoreState) -> Result<(CoreState, bool, Option<InstructionValue>), StepFault> {
    let stalling = st.will_stall;
    if !stalling && !can_move(st) {
        Err(StepFault::UnsupportedInstruction)
    } else {
        let s1 = if stalling { CoreState { will_stall: false, ..moved_stalling(st) } } else { moved(st) };
        let s2 = if load_hazard(s1) { CoreState { will_stall: true, ..s1 } } else { s1 };
        let s3 = if s2.write_back is Some {
            CoreState { instruction_count: vstd::wrapping::u128_specs::wrapping_add(s2.instruction_count, 1), ..s2 }
        } else {
            s2
        };
        let s4 = write_back_stage(s3);
        if !memory_stage_ok(s4) {
            Err(StepFault::MemoryAccess)
        } else {
            let s5 = memory_stage(s4);
            if !stalling && exec_fault(s5) is Some {
                Err(exec_fault(s5)->0)
            } else {
                let s8 = if stalling {
                    register_fetch_stage(s5)
                } else {
                    let s6 = exec_stage(s5);
                    let s7 = if s6.will_stall { s6 } else { register_fetch_stage(s6) };
                    after_stats(after_fetch(s7), st.pc)
                };
                let s9 = after_next_pc(s8, s8.will_stall);
                Ok((after_forwarding_removal(s9), stalling, s8.fetch))
            }
        }
    }
}

/// The statistics after a cycle that fetched at `pc`: the instruction in the write-back
/// stage is counted by its name, and the fetched word, where it decodes to an instruction
/// format, is counted at `pc`.
pub open spec fn after_stats(st: CoreState, pc: Address) -> CoreState {
    let inst_stats = match st.write_back {
        Some(inst) => counted_name(st.inst_stats, inst_name(inst)),
        None => st.inst_stats,
    };
    let pc_stats = match st.fetch {
        Some(w) => if decode_word(w) is OtherInstruction {
            st.pc_stats
        } else {
            counted_fetch(st.pc_stats, pc, decode_word(w))
        },
        None => st.pc_stats,
    };
    CoreState { inst_stats, pc_stats, ..st }
}

/// What `Core::step` does from `st`: it counts the cycle, ends when the program counter
/// has left the instruction memory, and otherwise runs a cycle of the pipeline.
pub open spec fn step_result(st: CoreState) -> Result<(StepOutcome, CoreState), StepFault> {
    let counted = CoreState { cycle_count: vstd::wrapping::u128_specs::wrapping_add(st.cycle_count, 1), ..st };
    if counted.pc >= INSTRUCTION_MEMORY_SIZE {
        Ok((StepOutcome::Finished, counted))
    } else {
        match cycle_result(counted) {
            Ok((next, stalled, fetched)) => Ok(
                (if stalled { StepOutcome::Stalled } else { StepOutcome::Ran(counted.pc, fetched) }, next),
            ),
            Err(fault) => Err(fault),
        }
    }
}

/// What the pipeline keeps between cycles: each instruction names registers that exist;
/// the one in the decode stage has read its operands unless the pipeline is about to
/// stall; the one in the execute stage has executed; the one in the memory stage has
/// accessed memory.
pub open spec fn pipeline_wf(st: CoreState) -> bool {
    &&& (st.decode matches Some(inst) ==> inst_regs_ok(inst) && (!st.will_stall ==> inst_ready(inst)))
    &&& (st.execute matches Some(inst) ==> inst_regs_ok(inst) && inst_done_exec(inst))
    &&& (st.memory_stage matches Some(inst) ==> inst_regs_ok(inst) && inst_done_memory(inst))
    &&& (st.write_back matches Some(inst) ==> inst_regs_ok(inst) && inst_done_memory(inst))
}

/// The state of a machine that `Core::new` makes: zeroed memories and registers, every
/// set of the cache holding only its placeholder line, an empty pipeline and no input.
pub open spec fn initial_state() -> CoreState {
    CoreState {
        memory: Seq::new(MEMORY_WORDS as nat, |i: int| 0u32),
        cache: Seq::new(LINE_NUM as nat, |i: int| seq![(u32::MAX, crate::cache::empty_line())]),
        memory_access_count: 0,
        cache_hit_count: 0,
        instruction_memory: Seq::new(INSTRUCTION_MEMORY_SIZE as nat, |i: int| 0u32),
        instruction_memory_access_count: 0,
        instruction_count: 0,
        cycle_count: 0,
        int_registers: Seq::new(INT_REGISTER_SIZE as nat, |i: int| 0i32),
        float_registers: Seq::new(FLOAT_REGISTER_SIZE as nat, |i: int| FloatingPoint { value: 0 }),
        pc: 0,
        fetch: None,
        fetch_2: None,
        decode: None,
        execute: None,
        memory_stage: None,
        write_back: None,
        forwarding_int: Seq::new(INT_REGISTER_SIZE as nat, |i: int| None),
        forwarding_float: Seq::new(FLOAT_REGISTER_SIZE as nat, |i: int| None),
        sld: Seq::empty(),
        sld_float_bits: Seq::empty(),
        sld_counter: 0,
        output: Seq::empty(),
        will_stall: false,
        pc_stats: Map::empty(),
        inst_stats: Map::empty(),
    }
}

/// The instruction words of a program file: each four bytes, lowest first; bytes after
/// the last full word are left out.
pub open spec fn program_words(buf: Seq<u8>) -> Seq<u32> {
    Seq::new(buf.len() / 4, |i: int| le_bytes(buf, 4 * i, 4) as u32)
}

/// The instruction memory `memory` with `words` written from address 0 on.
pub open spec fn with_program(memory: Seq<u32>, words: Seq<u32>) -> Seq<u32> {
    Seq::new(memory.len(), |i: int| if i < words.len() { words[i] } else { memory[i] })
}

/// The state in which the disassembler reads the operands of the instruction at word
/// `k` of the program `words`: a new machine that holds the program, whose program
/// counter is two words past that instruction.
pub open spec fn disassembly_state(words: Seq<u32>, k: int, inst: InstructionEnum) -> CoreState {
    CoreState {
        instruction_memory: with_program(initial_state().instruction_memory, words),
        pc: (4 * k + 8) as u32,
        decode: Some(inst),
        ..initial_state()
    }
}

/// The lines that the disassembler writes from word `k` of the program `words` on: the
/// address and the assembly text of each instruction, up to the first word (a zero past
/// the program at the latest) that decodes to no format; `None` when a word decodes to an
/// instruction the machine does not have.
pub open spec fn disassembly_lines(words: Seq<u32>, k: nat) -> Option<Seq<u8>>
    decreases words.len() - k,
{
    if k >= words.len() || decode_word(words[k as int]) is OtherInstruction {
        Some(Seq::empty())
    } else if created(decode_word(words[k as int])) is None {
        None
    } else {
        let inst = created(decode_word(words[k as int]))->0;
        let line = decimal_text((4 * k) as int) + ascii(": "@) + inst_assembly(
            fetched_inst(inst, disassembly_state(words, k as int, inst)),
        ) + ascii("\n"@);
        match disassembly_lines(words, k + 1) {
            Some(rest) => Some(line + rest),
            None => None,
        }
    }
}

/// The simulated machine.
pub struct Core {
    memory: Memory,
    cache: Cache,
    memory_access_count: usize,
    cache_hit_count: usize,
    instruction_memory: InstructionMemory,
    instruction_memory_access_count: usize,
    instruction_count: InstructionCount,
    cycle_count: u128,
    int_registers: Vec<IntRegister>,
    float_registers: Vec<FloatRegister>,
    pc: Address,
    instruction_in_fetch_stage: Option<InstructionValue>,
    instruction_in_fetch_stage_2: Option<InstructionValue>,
    instruction_in_decode_stage: Option<InstructionEnum>,
    instruction_in_exec_stage: Option<InstructionEnum>,
    instruction_in_memory_stage: Option<InstructionEnum>,
    instruction_in_write_back_stage: Option<InstructionEnum>,
    forwarding_int_sources: Vec<Option<(InstructionCount, Int)>>,
    forwarding_float_sources: Vec<Option<(InstructionCount, FloatingPoint)>>,
    sld_vec: Vec<String>,
    sld_float_bits: Vec<Option<u32>>,
    sld_counter: usize,
    output: Vec<u8>,
    will_stall: bool,
    pc_stats: FetchCounts,
    inst_stats: NameCounts,
}

impl View for Core {
    type V = CoreState;

    closed spec fn view(&self) -> CoreState {
        CoreState {
            memory: self.memory@,
            cache: self.cache.sets(),
            memory_access_count: self.memory_access_count,
            cache_hit_count: self.cache_hit_count,
            instruction_memory: self.instruction_memory@,
            instruction_memory_access_count: self.instruction_memory_access_count,
            instruction_count: self.instruction_count,
            cycle_count: self.cycle_count,
            int_registers: self.int_registers@.map_values(|r: IntRegister| r.value),
            float_registers: self.float_registers@.map_values(|r: FloatRegister| r.value),
            pc: self.pc,
            fetch: self.instruction_in_fetch_stage,
            fetch_2: self.instruction_in_fetch_stage_2,
            decode: self.instruction_in_decode_stage,
            execute: self.instruction_in_exec_stage,
            memory_stage: self.instruction_in_memory_stage,
            write_back: self.instruction_in_write_back_stage,
            forwarding_int: self.forwarding_int_sources@,
            forwarding_float: self.forwarding_float_sources@,
            sld: self.sld_vec@.map_values(|s: String| s@),
            sld_float_bits: self.sld_float_bits@,
            sld_counter: self.sld_counter,
            output: self.output@,
            will_stall: self.will_stall,
            pc_stats: self.pc_stats@,
            inst_stats: self.inst_stats@,
        }
    }
}

/// The invariant of the machine's state: the sizes of its parts, register 0 that holds
/// zero and is never forwarded, and a cache whose lines hold bytes of memory, the clean
/// ones the bytes that memory holds.
pub open spec fn state_wf(st: CoreState) -> bool {
    &&& st.memory.len() == MEMORY_WORDS
    &&& st.instruction_memory.len() == INSTRUCTION_MEMORY_SIZE
    &&& Cache::sets_wf(st.cache)
    &&& st.int_registers.len() == INT_REGISTER_SIZE
    &&& st.float_registers.len() == FLOAT_REGISTER_SIZE
    &&& st.forwarding_int.len() == INT_REGISTER_SIZE
    &&& st.forwarding_float.len() == FLOAT_REGISTER_SIZE
    &&& st.int_registers[0] == 0
    &&& st.forwarding_int[0] is None
    &&& st.sld_float_bits.len() == st.sld.len()
    &&& cache_in_memory(st.cache)
    &&& clean_lines_agree(st)
}

impl Core {
    /// Whether the machine is well formed (see `state_wf`).
    pub closed spec fn wf(&self) -> bool {
        &&& self.memory.wf()
        &&& self.cache.wf()
        &&& self.instruction_memory.wf()
        &&& state_wf(self@)
    }

    /// The state of a well-formed machine satisfies the invariant `state_wf`: register 0
    /// holds zero, the register files have their sizes, and the cache agrees with memory.
    pub proof fn lemma_state_wf(&self)
        requires
            self.wf(),
        ensures
            state_wf(self@),
    {
    }

    proof fn lemma_wf(&self)
        requires
            self.wf(),
        ensures
            self.int_registers@.len() == INT_REGISTER_SIZE,
            self.float_registers@.len() == FLOAT_REGISTER_SIZE,
            self.forwarding_int_sources@.len() == INT_REGISTER_SIZE,
            self.forwarding_float_sources@.len() == FLOAT_REGISTER_SIZE,
            self.sld_float_bits@.len() == self.sld_vec@.len(),
            Cache::sets_wf(self.cache.sets()),
    {
    }

    /// The number of the current cycle.
    pub fn get_cycle_count(&self) -> (r: InstructionCount)
        ensures
            r == self@.cycle_count,
    {
        self.cycle_count
    }

    /// The program counter.
    pub fn get_pc(&self) -> (r: Address)
        ensures
            r == self@.pc,
    {
        self.pc
    }

    /// Moves the program counter to the next instruction (wrapping around).
    pub fn increment_pc(&mut self)
        requires
            old(self).wf(),
        ensures
            final(self).wf(),
            final(self)@ == (CoreState { pc: vstd::wrapping::u32_specs::wrapping_add(old(self)@.pc, 4), ..old(self)@ }),
    {
        self.pc = self.pc.wrapping_add(4);
    }

    /// Sets the program counter.
    pub fn set_pc(&mut self, new_pc: Address)
        requires
            old(self).wf(),
        ensures
            final(self).wf(),
            final(self)@ == (CoreState { pc: new_pc, ..old(self)@ }),
    {
        self.pc = new_pc;
    }

    /// Ends the program: the program counter leaves the instruction memory.
    pub fn end(&mut self)
        requires
            old(self).wf(),
        ensures
            final(self).wf(),
            final(self)@ == old(self)@.ended(),
    {
        self.pc = INSTRUCTION_MEMORY_SIZE as Address;
    }

    /// The value of integer register `index`.
    pub fn get_int_register(&self, index: usize) -> (r: Int)
        requires
            self.wf(),
            index < INT_REGISTER_SIZE,
        ensures
            r == self@.int_registers[index as int],
    {
        self.int_registers[index].get()
    }

    /// Writes `value` to integer register `index`; register 0 keeps 0.
    pub fn set_int_register(&mut self, index: usize, value: Int)
        requires
            old(self).wf(),
            index < INT_REGISTER_SIZE,
        ensures
            final(self).wf(),
            final(self)@ == old(self)@.with_int_register(index as int, value),
    {
        if index == ZERO {
            return;
        }
        let mut register = self.int_registers[index];
        register.set(value);
        self.int_registers.set(index, register);
        assert(self@.int_registers =~= old(self)@.int_registers.update(index as int, value));
    }

    /// The value of floating-point register `index`.
    pub fn get_float_register(&self, index: usize) -> (r: FloatingPoint)
        requires
            self.wf(),
            index < FLOAT_REGISTER_SIZE,
        ensures
            r == self@.float_registers[index as int],
    {
        self.float_registers[index].get()
    }

    /// Writes `value` to floating-point register `index`; register 0 is left as it is.
    pub fn set_float_register(&mut self, index: usize, value: FloatingPoint)
        requires
            old(self).wf(),
            index < FLOAT_REGISTER_SIZE,
        ensures
            final(self).wf(),
            final(self)@ == old(self)@.with_float_register(index as int, value),
    {
        if index == ZERO {
            return;
        }
        let mut register = self.float_registers[index];
        register.set(value);
        self.float_registers.set(index, register);
        assert(self@.float_registers =~= old(self)@.float_registers.update(index as int, value));
    }

    /// The value forwarded for integer register `rs`, with the cycle of the instruction
    /// that computed it, if any.
    pub fn get_forwarding_int_source(&self, rs: Rs) -> (r: Option<&(InstructionCount, Int)>)
        requires
            self.wf(),
            rs < INT_REGISTER_SIZE,
        ensures
            match r {
                Some(p) => self@.forwarding_int[rs as int] == Some(*p),
                None => self@.forwarding_int[rs as int] is None,
            },
    {
        self.forwarding_int_sources[rs as usize].as_ref()
    }

    /// Forwards `value` for integer register `rs`, computed by the instruction of cycle
    /// `inst_cnt`; nothing is forwarded for register 0.
    pub fn set_forwarding_int_source(&mut self, rs: Rs, inst_cnt: InstructionCount, value: Int)
        requires
            old(self).wf(),
            rs < INT_REGISTER_SIZE,
        ensures
            final(self).wf(),
            final(self)@ == old(self)@.with_int_forwarding(rs, inst_cnt, value),
    {
        if rs == 0 {
            return;
        }
        self.forwarding_int_sources.set(rs as usize, Some((inst_cnt, value)));
    }

    /// The value forwarded for floating-point register `rs`, with the cycle of the
    /// instruction that computed it, if any.
    pub fn get_forwarding_float_source(&self, rs: Rs) -> (r: Option<&(InstructionCount, FloatingPoint)>)
        requires
            self.wf(),
            rs < FLOAT_REGISTER_SIZE,
        ensures
            match r {
                Some(p) => self@.forwarding_float[rs as int] == Some(*p),
                None => self@.forwarding_float[rs as int] is None,
            },
    {
        self.forwarding_float_sources[rs as usize].as_ref()
    }

    /// Forwards `value` for floating-point register `rs`, computed by the instruction of
    /// cycle `inst_cnt`; nothing is forwarded for register 0.
    pub fn set_forwarding_float_source(&mut self, rs: Rs, inst_cnt: InstructionCount, value: FloatingPoint)
        requires
            old(self).wf(),
            rs < FLOAT_REGISTER_SIZE,
        ensures
            final(self).wf(),
            final(self)@ == old(self)@.with_float_forwarding(rs, inst_cnt, value),
    {
        if rs == 0 {
            return;
        }
        self.forwarding_float_sources.set(rs as usize, Some((inst_cnt, value)));
    }

    /// Reads the next token of the input as an integer.
    pub fn read_int(&mut self) -> (r: Word)
        requires
            old(self).wf(),
            old(self)@.can_read_int(),
        ensures
            final(self).wf(),
            (final(self)@, r) == old(self)@.read_int_result(),
    {
        let token_num = self.sld_vec.len();
        let value = parse_int_token(&self.sld_vec[self.sld_counter]).unwrap();
        assert(self.sld_counter < token_num);
        self.sld_counter += 1;
        value
    }

    /// Reads the next token of the input as a floating-point number: its bits as a
    /// signed word.
    pub fn read_float(&mut self) -> (r: Word)
        requires
            old(self).wf(),
            old(self)@.can_read_float(),
        ensures
            final(self).wf(),
            (final(self)@, r) == old(self)@.read_float_result(),
    {
        let token_num = self.sld_float_bits.len();
        let bits = self.sld_float_bits[self.sld_counter].unwrap();
        self.sld_counter += 1;
        u32_to_i32(bits)
    }

    /// Writes the low byte of `value` to the output.
    pub fn print_char(&mut self, value: Word)
        requires
            old(self).wf(),
        ensures
            final(self).wf(),
            final(self)@ == old(self)@.with_output(seq![value as u8]),
    {
        self.output.push(value as u8);
        assert(self@.output =~= old(self)@.output + seq![value as u8]);
    }

    /// Writes `value` in decimal to the output.
    pub fn print_int(&mut self, value: Word)
        requires
            old(self).wf(),
        ensures
            final(self).wf(),
            final(self)@ == old(self)@.with_output(decimal_text(value as int)),
    {
        let mut text = decimal_bytes(value as i64);
        self.output.append(&mut text);
    }

    /// The instruction in the decode stage.
    pub fn get_decoded_instruction(&self) -> (r: &Option<InstructionEnum>)
        ensures
            *r == self@.decode,
    {
        &self.instruction_in_decode_stage
    }

    /// Puts `inst` in the decode stage.
    pub fn set_decoded_instruction(&mut self, inst: Option<InstructionEnum>)
        requires
            old(self).wf(),
        ensures
            final(self).wf(),
            final(self)@ == (CoreState { decode: inst, ..old(self)@ }),
    {
        self.instruction_in_decode_stage = inst;
    }

    /// The instruction in the execute stage.
    pub fn get_instruction_in_exec_stage(&self) -> (r: &Option<InstructionEnum>)
        ensures
            *r == self@.execute,
    {
        &self.instruction_in_exec_stage
    }

    /// Puts `inst` in the execute stage.
    pub fn set_instruction_in_exec_stage(&mut self, inst: Option<InstructionEnum>)
        requires
            old(self).wf(),
        ensures
            final(self).wf(),
            final(self)@ == (CoreState { execute: inst, ..old(self)@ }),
    {
        self.instruction_in_exec_stage = inst;
    }

    /// The instruction in the memory stage.
    pub fn get_instruction_in_memory_stage(&self) -> (r: &Option<InstructionEnum>)
        ensures
            *r == self@.memory_stage,
    {
        &self.instruction_in_memory_stage
    }

    /// Puts `inst` in the memory stage.
    pub fn set_instruction_in_memory_stage(&mut self, inst: Option<InstructionEnum>)
        requires
            old(self).wf(),
        ensures
            final(self).wf(),
            final(self)@ == (CoreState { memory_stage: inst, ..old(self)@ }),
    {
        self.instruction_in_memory_stage = inst;
    }

    /// The instruction in the write-back stage.
    pub fn get_instruction_in_write_back_stage(&self) -> (r: &Option<InstructionEnum>)
        ensures
            *r == self@.write_back,
    {
        &self.instruction_in_write_back_stage
    }

    fn increment_memory_access_count(&mut self)
        requires
            old(self).wf(),
        ensures
            final(self).wf(),
            final(self)@ == (CoreState {
                memory_access_count: vstd::wrapping::usize_specs::wrapping_add(old(self)@.memory_access_count, 1),
                ..old(self)@
            }),
    {
        self.memory_access_count = self.memory_access_count.wrapping_add(1);
    }

    fn increment_cache_hit_count(&mut self)
        requires
            old(self).wf(),
        ensures
            final(self).wf(),
            final(self)@ == (CoreState { cache_hit_count: vstd::wrapping::usize_specs::wrapping_add(old(self)@.cache_hit_count, 1), ..old(self)@ }),
    {
        self.cache_hit_count = self.cache_hit_count.wrapping_add(1);
    }

    /// Brings the line that holds `addr` from memory into the cache; the line it evicts,
    /// if dirty, goes back to memory.
    fn process_cache_miss(&mut self, addr: Address)
        requires
            old(self).wf(),
            (addr as int) < MEMORY_SIZE,
            !valid_hit(old(self)@.cache[index_of(addr)], tag_of(addr)),
        ensures
            final(self).wf(),
            final(self)@ == old(self)@.after_cache_miss(addr),
    {
        proof {
            self.lemma_wf();
            lemma_line_address(addr);
            lemma_miss_has_no_key(self@.cache[index_of(addr)], addr);
            lemma_miss_keeps_visible(self@, addr);
        }
        let offset_bit_num = self.cache.get_offset_bit_num() as u32;
        proof {
            lemma_address_bits(addr);
        }
        let line_addr = addr & !((1u32 << offset_bit_num) - 1);
        assert(line_addr == line_address(addr));
        let line = self.memory.get_cache_line(line_addr);
        let bytes = bytes_of_line(&line);
        proof {
            assert(bytes == line_array(bytes_of_words(old(self)@.memory.subrange(word_index(line_addr), word_index(line_addr) + 16))))
                by {
                let s = bytes_of_words(old(self)@.memory.subrange(word_index(line_addr), word_index(line_addr) + 16));
                assert(bytes@ == s);
                assert(line_array(s)@ == s);
                assert(bytes =~= line_array(s));
            }
        }
        let set_line_result = self.cache.set_line(line_addr, bytes);
        if let Some(evicted_line) = set_line_result {
            let words = words_of_line(&evicted_line);
            proof {
                lemma_evicted_in_memory(old(self)@.cache, line_addr);
            }
            self.memory.set_cache_line(words);
        }
        proof {
            lemma_cache_in_memory_after_set_line(old(self)@.cache, line_addr, bytes);
            self.cache.lemma_wf_sets();
        }
    }

    /// Reads the word at `addr` through the cache.
    pub fn load_word(&mut self, addr: Address) -> (r: Word)
        requires
            old(self).wf(),
            old(self)@.word_access_ok(addr),
        ensures
            final(self).wf(),
            (final(self)@, r) == old(self)@.load_word_result(addr),
            addr % 4 == 0 ==> r == spec_u32_to_i32(visible_word(old(self)@, addr)),
            addr % 4 == 0 ==> forall|x: Address|
                (x as int) < MEMORY_SIZE ==> #[trigger] visible_byte(final(self)@, x) == visible_byte(old(self)@, x),
    {
        proof {
            if addr % 4 == 0 {
                lemma_load_reads_visible_memory(old(self)@, addr);
            }
        }
        self.increment_memory_access_count();
        let cache_access = self.cache.get_word(addr);
        if let CacheAccess::HitWord(value) = cache_access {
            proof {
                lemma_cache_in_memory_after_touch(old(self)@.cache, addr, read_touched(hit_line(old(self)@.cache, addr)));
                lemma_touch_keeps_state(old(self)@, addr, read_touched(hit_line(old(self)@.cache, addr)));
                self.cache.lemma_wf_sets();
            }
            self.increment_cache_hit_count();
            value
        } else {
            let value = self.memory.load_word(addr);
            self.process_cache_miss(addr);
            value
        }
    }

    /// Writes the word `value` at `addr` through the cache: a hit writes the cached line,
    /// a miss writes memory and then brings the line into the cache.
    pub fn store_word(&mut self, addr: Address, value: Word)
        requires
            old(self).wf(),
            old(self)@.word_access_ok(addr),
        ensures
            final(self).wf(),
            final(self)@ == old(self)@.store_word_result(addr, value),
            addr % 4 == 0 ==> forall|x: Address|
                (x as int) < MEMORY_SIZE ==> #[trigger] visible_byte(final(self)@, x) == if word_index(x) == word_index(
                    addr,
                ) {
                    ((spec_i32_to_u32(value) >> ((8 * (x % 4)) as u32)) & 0xff) as UByte
                } else {
                    visible_byte(old(self)@, x)
                },
    {
        proof {
            if addr % 4 == 0 {
                lemma_store_writes_visible_memory(old(self)@, addr, value);
            }
        }
        self.increment_memory_access_count();
        let ghost counted = self@;
        let cache_access = self.cache.set_word(addr, value);
        if let CacheAccess::HitSet = cache_access {
            proof {
                let written = bytes_written(hit_line(old(self)@.cache, addr).value, offset_of(addr), spec_i32_to_u32(value), 4);
                let arr = self@.cache[index_of(addr)].last().1.value;
                assert(arr@ == written);
                assert(line_array(written)@ == written);
                assert(arr =~= line_array(written));
                lemma_cache_in_memory_after_touch(old(self)@.cache, addr, write_touched(hit_line(old(self)@.cache, addr), arr));
                lemma_touch_keeps_state(old(self)@, addr, write_touched(hit_line(old(self)@.cache, addr), arr));
                self.cache.lemma_wf_sets();
            }
            self.increment_cache_hit_count();
        } else {
            proof {
                lemma_miss_store_keeps_state(self@, addr, spec_i32_to_u32(value));
            }
            self.memory.store_word(addr, value);
            self.process_cache_miss(addr);
        }
    }

    /// A machine with zeroed memories and registers, an empty cache and pipeline, and no
    /// input.
    pub fn new() -> (r: Self)
        ensures
            r.wf(),
            pipeline_wf(r@),
            r@ == initial_state(),
    {
        let memory = Memory::new();
        let cache = Cache::new();
        let instruction_memory = InstructionMemory::new();
        let mut int_registers: Vec<IntRegister> = Vec::new();
        let mut float_registers: Vec<FloatRegister> = Vec::new();
        let mut forwarding_int_sources: Vec<Option<(InstructionCount, Int)>> = Vec::new();
        let mut forwarding_float_sources: Vec<Option<(InstructionCount, FloatingPoint)>> = Vec::new();
        let mut i: usize = 0;
        while i < INT_REGISTER_SIZE
            invariant
                i <= INT_REGISTER_SIZE,
                int_registers@.len() == i,
                float_registers@.len() == i,
                forwarding_int_sources@.len() == i,
                forwarding_float_sources@.len() == i,
                forall|j: int| 0 <= j < i ==> (#[trigger] int_registers@[j]).value == 0,
                forall|j: int| 0 <= j < i ==> (#[trigger] float_registers@[j]).value == (FloatingPoint { value: 0 }),
                forall|j: int| 0 <= j < i ==> (#[trigger] forwarding_int_sources@[j]) is None,
                forall|j: int| 0 <= j < i ==> (#[trigger] forwarding_float_sources@[j]) is None,
            decreases INT_REGISTER_SIZE - i,
        {
            int_registers.push(IntRegister::new());
            float_registers.push(FloatRegister::new());
            forwarding_int_sources.push(None);
            forwarding_float_sources.push(None);
            i += 1;
        }
        let core = Core {
            memory,
            cache,
            memory_access_count: 0,
            cache_hit_count: 0,
            instruction_memory,
            instruction_memory_access_count: 0,
            instruction_count: 0,
            cycle_count: 0,
            int_registers,
            float_registers,
            pc: 0,
            instruction_in_fetch_stage: None,
            instruction_in_fetch_stage_2: None,
            instruction_in_decode_stage: None,
            instruction_in_exec_stage: None,
            instruction_in_memory_stage: None,
            instruction_in_write_back_stage: None,
            forwarding_int_sources,
            forwarding_float_sources,
            sld_vec: Vec::new(),
            sld_float_bits: Vec::new(),
            sld_counter: 0,
            output: Vec::new(),
            will_stall: false,
            pc_stats: FetchCounts::new(),
            inst_stats: NameCounts::new(),
        };
        proof {
            core.cache.lemma_wf_sets();
            assert(core@.int_registers =~= Seq::new(INT_REGISTER_SIZE as nat, |i: int| 0i32));
            assert(core@.float_registers =~= Seq::new(FLOAT_REGISTER_SIZE as nat, |i: int| FloatingPoint { value: 0 }));
            assert(core@.forwarding_int =~= Seq::new(INT_REGISTER_SIZE as nat, |i: int| None::<(InstructionCount, Int)>));
            assert(core@.forwarding_float =~= Seq::new(
                FLOAT_REGISTER_SIZE as nat,
                |i: int| None::<(InstructionCount, FloatingPoint)>,
            ));
            assert(core@.sld =~= Seq::<Seq<char>>::empty());
            assert forall|a: int, k: int|
                0 <= a < LINE_NUM && 0 <= k < core@.cache[a].len() && #[trigger] core@.cache[a][k].0 != u32::MAX implies line_base(
                core@.cache[a][k].0,
                a,
            ) + 64 <= MEMORY_SIZE by {
                assert(core@.cache[a] == seq![(u32::MAX, crate::cache::empty_line())]);
            }
            assert(core@.cache =~= initial_state().cache);
            assert(core@.output =~= Seq::<u8>::empty());
            assert(core@.sld_float_bits =~= Seq::<Option<u32>>::empty());
        }
        core
    }

    /// Gives the program its input: the tokens of the input file, and for each token the
    /// bits of the single-precision number it writes, if it writes one.
    pub fn load_sld_tokens(&mut self, tokens: Vec<String>, float_bits: Vec<Option<u32>>)
        requires
            old(self).wf(),
            tokens@.len() == float_bits@.len(),
        ensures
            final(self).wf(),
            final(self)@ == (CoreState {
                sld: tokens@.map_values(|t: String| t@),
                sld_float_bits: float_bits@,
                sld_counter: 0,
                ..old(self)@
            }),
    {
        self.sld_vec = tokens;
        self.sld_float_bits = float_bits;
        self.sld_counter = 0;
    }

    /// What the program has written to its output.
    pub fn get_output(&self) -> (r: &Vec<u8>)
        ensures
            r@ == self@.output,
    {
        &self.output
    }

    /// The word in the first fetch stage.
    pub fn get_instruction_in_fetch_stage(&self) -> (r: Option<InstructionValue>)
        ensures
            r == self@.fetch,
    {
        self.instruction_in_fetch_stage
    }

    /// The word in the second fetch stage.
    pub fn get_instruction_in_fetch_stage_2(&self) -> (r: Option<InstructionValue>)
        ensures
            r == self@.fetch_2,
    {
        self.instruction_in_fetch_stage_2
    }

    /// The number of loads and stores.
    pub fn get_memory_access_count(&self) -> (r: usize)
        ensures
            r == self@.memory_access_count,
    {
        self.memory_access_count
    }

    /// The number of loads and stores that hit the cache.
    pub fn get_cache_hit_count(&self) -> (r: usize)
        ensures
            r == self@.cache_hit_count,
    {
        self.cache_hit_count
    }

    /// The number of reads of the instruction memory.
    pub fn get_instruction_memory_access_count(&self) -> (r: usize)
        ensures
            r == self@.instruction_memory_access_count,
    {
        self.instruction_memory_access_count
    }

    /// The number of instructions that have reached the write-back stage.
    pub fn get_instruction_count_total(&self) -> (r: InstructionCount)
        ensures
            r == self@.instruction_count,
    {
        self.instruction_count
    }

    fn increment_instruction_memory_access_count(&mut self)
        requires
            old(self).wf(),
        ensures
            final(self).wf(),
            final(self)@ == (CoreState {
                instruction_memory_access_count: vstd::wrapping::usize_specs::wrapping_add(
                    old(self)@.instruction_memory_access_count,
                    1,
                ),
                ..old(self)@
            }),
    {
        self.instruction_memory_access_count = self.instruction_memory_access_count.wrapping_add(1);
    }

    fn increment_instruction_count(&mut self)
        requires
            old(self).wf(),
        ensures
            final(self).wf(),
            final(self)@ == (CoreState {
                instruction_count: vstd::wrapping::u128_specs::wrapping_add(old(self)@.instruction_count, 1),
                ..old(self)@
            }),
    {
        self.instruction_count = self.instruction_count.wrapping_add(1);
    }

    fn increment_cycle_count(&mut self)
        requires
            old(self).wf(),
        ensures
            final(self).wf(),
            final(self)@ == (CoreState {
                cycle_count: vstd::wrapping::u128_specs::wrapping_add(old(self)@.cycle_count, 1),
                ..old(self)@
            }),
    {
        self.cycle_count = self.cycle_count.wrapping_add(1);
    }

    /// Reads the instruction word at `addr`, counting the access.
    pub fn load_instruction(&mut self, addr: Address) -> (r: InstructionValue)
        requires
            old(self).wf(),
            addr / 4 < INSTRUCTION_MEMORY_SIZE,
        ensures
            final(self).wf(),
            r == old(self)@.instruction_memory[(addr / 4) as int],
            final(self)@ == (CoreState {
                instruction_memory_access_count: vstd::wrapping::usize_specs::wrapping_add(
                    old(self)@.instruction_memory_access_count,
                    1,
                ),
                ..old(self)@
            }),
    {
        self.increment_instruction_memory_access_count();
        self.instruction_memory.load(addr)
    }

    /// Writes the instruction word `inst` at `addr`.
    pub fn store_instruction(&mut self, addr: Address, inst: InstructionValue)
        requires
            old(self).wf(),
            addr / 4 < INSTRUCTION_MEMORY_SIZE,
        ensures
            final(self).wf(),
            final(self)@ == (CoreState {
                instruction_memory: old(self)@.instruction_memory.update((addr / 4) as int, inst),
                ..old(self)@
            }),
    {
        self.instruction_memory.store(addr, inst);
    }

    fn fetch_instruction(&mut self)
        requires
            old(self).wf(),
            old(self)@.pc / 4 < INSTRUCTION_MEMORY_SIZE,
        ensures
            final(self).wf(),
            final(self)@ == after_fetch(old(self)@),
    {
        let current_pc = self.get_pc();
        let inst = self.load_instruction(current_pc);
        if inst == 0 {
            return;
        }
        self.instruction_in_fetch_stage = Some(inst);
    }

    fn set_next_pc(&mut self, stalling: bool)
        requires
            old(self).wf(),
        ensures
            final(self).wf(),
            final(self)@ == after_next_pc(old(self)@, stalling),
    {
        if let Some(inst) = self.get_instruction_in_exec_stage() {
            let jump_address = crate::instruction::get_jump_address(inst);
            if let Some(jump_address) = jump_address {
                self.set_pc(jump_address);
                self.instruction_in_fetch_stage = None;
                self.instruction_in_fetch_stage_2 = None;
                self.instruction_in_decode_stage = None;
            } else if !stalling {
                self.increment_pc();
            }
        } else if !stalling {
            self.increment_pc();
        }
    }

    /// Whether the word in the second fetch stage can move to the decode stage.
    pub fn can_move_instructions(&self) -> (r: bool)
        ensures
            r == can_move(self@),
    {
        match self.instruction_in_fetch_stage_2 {
            Some(fetched_instruction) => {
                let decoded = decode_instruction(instruction_bytes(fetched_instruction));
                match decoded {
                    Instruction::OtherInstruction => true,
                    _ => is_supported_instruction(decoded),
                }
            },
            None => true,
        }
    }

    /// Moves every instruction to the next stage, decoding the word in the second fetch
    /// stage.
    pub fn move_instructions_to_next_stage(&mut self)
        requires
            old(self).wf(),
            can_move(old(self)@),
        ensures
            final(self).wf(),
            final(self)@ == moved(old(self)@),
    {
        self.instruction_in_write_back_stage = self.instruction_in_memory_stage;
        self.instruction_in_memory_stage = self.instruction_in_exec_stage;
        self.instruction_in_exec_stage = self.instruction_in_decode_stage;
        if let Some(fetched_instruction) = self.instruction_in_fetch_stage_2 {
            let decoded = decode_instruction(instruction_bytes(fetched_instruction));
            if let Instruction::OtherInstruction = decoded {
                self.instruction_in_decode_stage = None;
                self.instruction_in_fetch_stage_2 = None;
                self.instruction_in_fetch_stage = None;
                return;
            }
            let decoded_inst_struct = create_instruction_struct(decoded);
            self.instruction_in_decode_stage = Some(decoded_inst_struct);
        } else {
            self.instruction_in_decode_stage = None;
        }
        self.instruction_in_fetch_stage_2 = self.instruction_in_fetch_stage;
        self.instruction_in_fetch_stage = None;
    }

    /// Moves the instructions from the execute stage on to the next stage, leaving the
    /// execute stage empty and the stages before it as they are.
    pub fn move_instructions_to_next_stage_stalling(&mut self)
        requires
            old(self).wf(),
        ensures
            final(self).wf(),
            final(self)@ == moved_stalling(old(self)@),
    {
        self.instruction_in_write_back_stage = self.instruction_in_memory_stage;
        self.instruction_in_memory_stage = self.instruction_in_exec_stage;
        self.instruction_in_exec_stage = None;
    }

    /// Whether the instruction in the decode stage reads the register that the load in the
    /// execute stage writes: the pipeline then has to stall.
    pub fn check_load_hazard(&self) -> (r: bool)
        ensures
            r == load_hazard(self@),
    {
        if self.instruction_in_decode_stage.is_none() || self.instruction_in_exec_stage.is_none() {
            return false;
        }
        let decoded_instruction = self.instruction_in_decode_stage.as_ref().unwrap();
        let instruction_in_exec_stage = self.instruction_in_exec_stage.as_ref().unwrap();
        if !crate::instruction::is_load_instruction(instruction_in_exec_stage) {
            return false;
        }
        let rd = crate::instruction::get_destination_register(instruction_in_exec_stage);
        let rss = crate::instruction::get_source_registers(decoded_instruction);
        if let Some(rd) = rd {
            let mut i: usize = 0;
            while i < rss.len()
                invariant
                    i <= rss@.len(),
                    rss@ == inst_sources(self@.decode->0),
                    self@.decode is Some && self@.execute is Some,
                    inst_is_load(self@.execute->0),
                    inst_destination(self@.execute->0) == Some(rd),
                    forall|j: int| 0 <= j < i ==> rss@[j] != rd,
                decreases rss@.len() - i,
            {
                if rss[i] == rd {
                    assert(rss@[i as int] == rd);
                    return true;
                }
                i += 1;
            }
        }
        false
    }

    /// Stops forwarding the result of the instruction in the write-back stage, if the value
    /// forwarded for its destination is still its own.
    fn remove_forwarding_source_if_possible(&mut self)
        requires
            old(self).wf(),
            old(self)@.write_back matches Some(inst) ==> inst_regs_ok(inst) && inst_count(inst) is Some,
        ensures
            final(self).wf(),
            final(self)@ == after_forwarding_removal(old(self)@),
    {
        let inst = match self.instruction_in_write_back_stage {
            Some(inst) => inst,
            None => {
                return;
            },
        };
        let current_inst_cnt = crate::instruction::get_instruction_count(&inst).unwrap();
        let rd = crate::instruction::get_destination_register(&inst);
        proof {
            crate::instruction::lemma_destination_exists(inst);
        }
        if let Some(rd) = rd {
            match rd {
                RegisterId::Int(rd) => {
                    if rd == 0 {
                        return;
                    }
                    let int_source = self.forwarding_int_sources[rd as usize];
                    if let Some((inst_cnt, _)) = int_source {
                        if inst_cnt == current_inst_cnt {
                            self.forwarding_int_sources.set(rd as usize, None);
                        }
                    }
                },
                RegisterId::Float(rd) => {
                    if rd == 0 {
                        return;
                    }
                    let float_source = self.forwarding_float_sources[rd as usize];
                    if let Some((inst_cnt, _)) = float_source {
                        if inst_cnt == current_inst_cnt {
                            self.forwarding_float_sources.set(rd as usize, None);
                        }
                    }
                },
            }
        }
    }

    /// Whether a word access at `addr` is possible (see `CoreState::word_access_ok`).
    pub fn word_access_is_ok(&self, addr: Address) -> (r: bool)
        requires
            self.wf(),
        ensures
            r == self@.word_access_ok(addr),
    {
        (addr as usize) < MEMORY_SIZE && (!self.cache.has_valid_line(addr) || addr % 64 + 4 <= 64)
    }

    /// Whether the next token of the input is an integer.
    pub fn can_read_int(&self) -> (r: bool)
        requires
            self.wf(),
        ensures
            r == self@.can_read_int(),
    {
        self.sld_counter < self.sld_vec.len() && parse_int_token(&self.sld_vec[self.sld_counter]).is_some()
    }

    /// Whether the next token of the input is a floating-point number.
    pub fn can_read_float(&self) -> (r: bool)
        requires
            self.wf(),
        ensures
            r == self@.can_read_float(),
    {
        self.sld_counter < self.sld_float_bits.len() && self.sld_float_bits[self.sld_counter].is_some()
    }

    fn memory_stage_is_ok(&self) -> (r: bool)
        requires
            self.wf(),
            self@.memory_stage matches Some(inst) ==> inst_done_exec(inst),
        ensures
            r == memory_stage_ok(self@),
    {
        match &self.instruction_in_memory_stage {
            Some(inst) => match inst {
                InstructionEnum::Lw(instruction) => self.word_access_is_ok(instruction.addr.unwrap()),
                InstructionEnum::Flw(instruction) => self.word_access_is_ok(instruction.addr.unwrap()),
                InstructionEnum::Sw(instruction) => self.word_access_is_ok(instruction.addr.unwrap()),
                InstructionEnum::Fsw(instruction) => self.word_access_is_ok(instruction.addr.unwrap()),
                _ => true,
            },
            None => true,
        }
    }

    fn exec_stage_fault(&self) -> (r: Option<StepFault>)
        requires
            self.wf(),
        ensures
            r == exec_fault(self@),
    {
        match &self.instruction_in_exec_stage {
            Some(inst) => match inst {
                InstructionEnum::Fsub(_) | InstructionEnum::Fmul(_) | InstructionEnum::Fdiv(_) | InstructionEnum::Fsqrt(_)
                | InstructionEnum::Fsgnj(_) | InstructionEnum::Fsgnjn(_) | InstructionEnum::Fsgnjx(_)
                | InstructionEnum::FcvtWS(_) | InstructionEnum::FcvtSW(_) => Some(StepFault::UnimplementedOperation),
                InstructionEnum::In(_) => if self.can_read_int() {
                    None
                } else {
                    Some(StepFault::Input)
                },
                InstructionEnum::Fin(_) => if self.can_read_float() {
                    None
                } else {
                    Some(StepFault::Input)
                },
                _ => None,
            },
            None => None,
        }
    }

    /// Simulates one cycle: counts it, ends when the program counter has left the
    /// instruction memory, else runs the pipeline stages (see `step_result`). A fault is
    /// returned where the machine cannot go on.
    pub fn step(&mut self) -> (r: Result<StepOutcome, StepFault>)
        requires
            old(self).wf(),
            pipeline_wf(old(self)@),
        ensures
            final(self).wf(),
            match step_result(old(self)@) {
                Ok((outcome, next)) => r == Ok::<StepOutcome, StepFault>(outcome) && final(self)@ == next,
                Err(fault) => r == Err::<StepOutcome, StepFault>(fault),
            },
            r is Ok ==> pipeline_wf(final(self)@),
    {
        self.increment_cycle_count();
        if self.get_pc() >= INSTRUCTION_MEMORY_SIZE as Address {
            return Ok(StepOutcome::Finished);
        }
        let fetch_pc = self.get_pc();
        let ghost st = self@;
        let stalling = self.will_stall;
        if !stalling {
            if !self.can_move_instructions() {
                return Err(StepFault::UnsupportedInstruction);
            }
            self.move_instructions_to_next_stage();
            proof {
                if let Some(w) = st.fetch_2 {
                    if !(decode_word(w) is OtherInstruction) {
                        lemma_created_regs(w);
                    }
                }
            }
        } else {
            self.move_instructions_to_next_stage_stalling();
            self.will_stall = false;
        }
        let ghost s1 = self@;
        if self.check_load_hazard() {
            self.will_stall = true;
        }
        if self.instruction_in_write_back_stage.is_some() {
            self.increment_instruction_count();
        }
        let mut fetched: Option<InstructionValue> = None;
        let ghost s3 = self@;
        write_back(self);
        proof {
            crate::instruction::lemma_write_back_stage(s3);
        }
        if !self.memory_stage_is_ok() {
            return Err(StepFault::MemoryAccess);
        }
        let ghost s4 = self@;
        memory_access(self);
        proof {
            crate::instruction::lemma_memory_stage(s4);
        }
        if !stalling {
            if let Some(fault) = self.exec_stage_fault() {
                return Err(fault);
            }
            let ghost s5 = self@;
            exec_instruction(self);
            proof {
                crate::instruction::lemma_exec_stage(s5);
            }
            if !self.will_stall {
                let ghost s6 = self@;
                register_fetch(self);
                proof {
                    crate::instruction::lemma_register_fetch_stage(s6);
                }
            }
            self.fetch_instruction();
            fetched = self.instruction_in_fetch_stage;
            self.update_stats(fetch_pc);
        } else {
            let ghost s5 = self@;
            register_fetch(self);
            proof {
                crate::instruction::lemma_register_fetch_stage(s5);
            }
        }
        let will_stall = self.will_stall;
        self.set_next_pc(will_stall);
        self.remove_forwarding_source_if_possible();
        if stalling {
            Ok(StepOutcome::Stalled)
        } else {
            Ok(StepOutcome::Ran(fetch_pc, fetched))
        }
    }

    /// Counts the instruction in the write-back stage by its name, and the fetched word,
    /// where it decodes to an instruction format, at `pc`.
    fn update_stats(&mut self, pc: Address)
        ensures
            final(self)@ == after_stats(old(self)@, pc),
            final(self).wf() == old(self).wf(),
    {
        if let Some(inst) = &self.instruction_in_write_back_stage {
            let name = get_name(inst);
            self.inst_stats.count(name);
        }
        if let Some(w) = self.instruction_in_fetch_stage {
            let decoded = decode_instruction(instruction_bytes(w));
            if !matches!(decoded, Instruction::OtherInstruction) {
                self.pc_stats.count(pc, decoded);
            }
        }
    }

    /// How often each address was fetched from, with the instruction first decoded there.
    pub fn get_pc_stats(&self) -> (r: &FetchCounts)
        ensures
            r@ == self@.pc_stats,
    {
        &self.pc_stats
    }

    /// How often an instruction of each name reached the write-back stage.
    pub fn get_inst_stats(&self) -> (r: &NameCounts)
        ensures
            r@ == self@.inst_stats,
    {
        &self.inst_stats
    }

    /// Writes the instruction words of a program file, four bytes each, lowest first, from
    /// address 0 on; bytes after the last full word are left out. Says whether the file
    /// held whole words only.
    pub fn store_program(&mut self, buf: &Vec<u8>) -> (complete: bool)
        requires
            old(self).wf(),
            buf@.len() / 4 <= INSTRUCTION_MEMORY_SIZE,
        ensures
            final(self).wf(),
            complete == (buf@.len() % 4 == 0),
            final(self)@ == (CoreState {
                instruction_memory: with_program(old(self)@.instruction_memory, program_words(buf@)),
                ..old(self)@
            }),
    {
        let mut inst_count: u32 = 0;
        let mut inst: u32 = 0;
        let mut i: usize = 0;
        assert(with_program(old(self)@.instruction_memory, program_words(buf@.subrange(0, 0))) =~= old(
            self,
        )@.instruction_memory);
        while i < buf.len()
            invariant
                old(self).wf(),
                self.wf(),
                buf@.len() / 4 <= INSTRUCTION_MEMORY_SIZE,
                i <= buf@.len(),
                inst_count == i,
                inst as int == le_bytes(buf@, i - i % 4, (i % 4) as int),
                self@ == (CoreState {
                    instruction_memory: with_program(
                        old(self)@.instruction_memory,
                        program_words(buf@.subrange(0, i - i % 4)),
                    ),
                    ..old(self)@
                }),
            decreases buf@.len() - i,
        {
            let byte = buf[i];
            let k = inst_count % 4;
            proof {
                crate::cache::lemma_byte_shift(byte, k);
            }
            assert(le_bytes(buf@, i - i % 4, (i % 4) as int) < (if k == 0 {
                1int
            } else if k == 1 {
                0x100
            } else if k == 2 {
                0x1_0000
            } else {
                0x100_0000
            }));
            inst += (byte as u32) << ((inst_count % 4) * 8);
            inst_count += 1;
            if inst_count % 4 == 0 {
                let ghost before = self@;
                assert(inst as int == le_bytes(buf@, i - 3, 4));
                self.store_instruction(inst_count - 4, inst);
                proof {
                    let words_before = program_words(buf@.subrange(0, i - 3));
                    let words_after = program_words(buf@.subrange(0, i + 1));
                    assert forall|j: int| 0 <= j < words_after.len() - 1 implies words_after[j] == words_before[j] by {
                        assert(le_bytes(buf@.subrange(0, i + 1), 4 * j, 4) == le_bytes(buf@.subrange(0, i - 3), 4 * j, 4));
                    }
                    assert(words_after[words_after.len() - 1] == inst) by {
                        assert(le_bytes(buf@.subrange(0, i + 1), i - 3, 4) == le_bytes(buf@, i - 3, 4));
                    }
                    assert(self@.instruction_memory =~= with_program(old(self)@.instruction_memory, words_after));
                }
                inst = 0;
            } else {
                proof {
                    assert(program_words(buf@.subrange(0, i + 1 - (i + 1) % 4)) =~= program_words(
                        buf@.subrange(0, i - i % 4),
                    ));
                }
            }
            i += 1;
        }
        assert(buf@.subrange(0, i - i % 4) =~= buf@.subrange(0, buf@.len() as int - buf@.len() as int % 4));
        assert(program_words(buf@.subrange(0, i - i % 4)) =~= program_words(buf@)) by {
            let a = program_words(buf@.subrange(0, i - i % 4));
            let b = program_words(buf@);
            assert forall|j: int| 0 <= j < a.len() implies a[j] == b[j] by {
                assert(le_bytes(buf@.subrange(0, i - i % 4), 4 * j, 4) == le_bytes(buf@, 4 * j, 4));
            }
        }
        inst_count % 4 == 0
    }
}


/// The disassembly of a program file: for each instruction from address 0 up to the first
/// word that decodes to no format (or the end of the instruction memory), a line with its address and its assembly text (after
/// its operands are read on a new machine); `None` when a word before that one decodes to
/// an instruction the machine does not have.
pub fn disassemble(buf: &Vec<u8>) -> (r: Option<Vec<u8>>)
    requires
        buf@.len() / 4 <= INSTRUCTION_MEMORY_SIZE,
    ensures
        match disassembly_lines(program_words(buf@), 0) {
            Some(text) => r matches Some(v) && v@ == text,
            None => r is None,
        },
{
    let mut core = Core::new();
    core.store_program(buf);
    let mut text: Vec<u8> = Vec::new();
    let mut pc_count: u32 = 0;
    core.increment_pc();
    let ghost words = program_words(buf@);
    let ghost memory = with_program(initial_state().instruction_memory, words);
    assert(text@ + disassembly_lines(words, 0)->0 =~= disassembly_lines(words, 0)->0);
    loop
        invariant_except_break
            core.wf(),
            words == program_words(buf@),
            memory == with_program(initial_state().instruction_memory, words),
            words.len() <= INSTRUCTION_MEMORY_SIZE,
            pc_count % 4 == 0,
            pc_count / 4 <= words.len(),
            core@ == (CoreState { instruction_memory: memory, pc: (pc_count + 4) as u32, decode: core@.decode, ..initial_state() }),
            disassembly_lines(words, 0) == (match disassembly_lines(words, (pc_count / 4) as nat) {
                Some(rest) => Some(text@ + rest),
                None => None,
            }),
        ensures
            disassembly_lines(words, 0) == Some(text@),
        decreases words.len() - pc_count / 4,
    {
        let k: Ghost<nat> = Ghost((pc_count / 4) as nat);
        if pc_count / 4 >= INSTRUCTION_MEMORY_SIZE as u32 {
            assert(disassembly_lines(words, k@) == Some(Seq::<u8>::empty()));
            assert(text@ + Seq::<u8>::empty() =~= text@);
            break;
        }
        let word = core.instruction_memory.load(pc_count);
        assert(word == (if k@ < words.len() { words[k@ as int] } else { 0u32 }));
        let decoded = decode_instruction(instruction_bytes(word));
        if let Instruction::OtherInstruction = decoded {
            assert(disassembly_lines(words, k@) == Some(Seq::<u8>::empty()));
            assert(text@ + Seq::<u8>::empty() =~= text@);
            break;
        }
        assert(k@ < words.len()) by {
            lemma_address_bits(0);
            assert(decode_word(0u32) is OtherInstruction);
        }
        if !is_supported_instruction(decoded) {
            return None;
        }
        let inst = create_instruction_struct(decoded);
        core.set_decoded_instruction(Some(inst));
        core.increment_pc();
        let ghost fetch_state = core@;
        assert(fetch_state == disassembly_state(words, k@ as int, inst));
        proof {
            reveal(register_fetch_stage);
            lemma_created_regs(word);
        }
        register_fetch(&mut core);
        let fetched = match core.get_decoded_instruction() {
            Some(fetched) => *fetched,
            None => inst,
        };
        assert(fetched == fetched_inst(inst, fetch_state));
        let ghost before = text@;
        let mut address = decimal_bytes(pc_count as i64);
        text.append(&mut address);
        push_text(&mut text, ": ");
        let mut assembly = fetched.assembly_text();
        text.append(&mut assembly);
        push_text(&mut text, "\n");
        proof {
            let line = decimal_text((4 * k@) as int) + ascii(": "@) + inst_assembly(fetched) + ascii("\n"@);
            assert(text@ =~= before + line);
            match disassembly_lines(words, k@ + 1) {
                Some(rest) => {
                    assert(before + (line + rest) =~= text@ + rest);
                },
                None => {},
            }
        }
        pc_count += 4;
    }
    Some(text)
}

/// The bytes of a line of 16 words, lowest byte of each word first.
fn bytes_of_line(words: &[u32; 16]) -> (r: [UByte; 64])
    ensures
        r@ == bytes_of_words(words@),
{
    let mut bytes: [UByte; 64] = [0; 64];
    let mut j: usize = 0;
    while j < 64
        invariant
            j <= 64,
            forall|k: int| 0 <= k < j ==> #[trigger] bytes@[k] == bytes_of_words(words@)[k],
        decreases 64 - j,
    {
        let word = words[j / 4];
        bytes[j] = ((word >> ((8 * (j % 4)) as u32)) & 0xff) as UByte;
        j += 1;
    }
    assert(bytes@ =~= bytes_of_words(words@));
    bytes
}

/// The 16 words of a line of 64 bytes given with their addresses.
fn words_of_line(bytes: &[(Address, UByte); 64]) -> (r: [(Address, u32); 16])
    ensures
        r@ == words_of_bytes(bytes@),
{
    let mut words: [(Address, u32); 16] = [(0, 0); 16];
    let mut j: usize = 0;
    while j < 16
        invariant
            j <= 16,
            forall|k: int| 0 <= k < j ==> #[trigger] words@[k] == words_of_bytes(bytes@)[k],
        decreases 16 - j,
    {
        let (address, b0) = bytes[4 * j];
        let b1 = bytes[4 * j + 1].1;
        let b2 = bytes[4 * j + 2].1;
        let b3 = bytes[4 * j + 3].1;
        let value: u32 = b0 as u32 + b1 as u32 * 0x100 + b2 as u32 * 0x1_0000 + b3 as u32 * 0x100_0000;
        words[j] = (address, value);
        j += 1;
    }
    assert(words@ =~= words_of_bytes(bytes@));
    words
}

proof fn lemma_address_bits(addr: Address)
    by (bit_vector)
    ensures
        (1u32 << 6u32) == 64u32,
        addr & !63u32 == (addr - addr % 64) as u32,
        0u32 & 127 == 0,
        (addr - addr % 64) as u32 / 0x2_0000 == addr / 0x2_0000,
        (((addr - addr % 64) as u32 / 64) % 2048) == (addr / 64) % 2048,
        (addr / 0x2_0000) * 0x2_0000 + ((addr / 64) % 2048) * 64 == addr - addr % 64,
        (addr - addr % 64) as u32 / 4 == addr / 4 - (addr / 4) % 16,
        (addr - addr % 64) as u32 % 64 == 0,
        addr % 4 == 0 ==> (addr % 64) % 4 == 0 && addr % 64 <= 60,
        addr % 4 == 0 ==> (addr - addr % 64) as u32 / 4 + (addr % 64) / 4 == addr / 4,
{
}

proof fn lemma_line_address(addr: Address)
    ensures
        tag_of(line_address(addr)) == tag_of(addr),
        index_of(line_address(addr)) == index_of(addr),
        line_base(tag_of(addr), index_of(addr)) == line_address(addr),
        line_address(addr) / 4 == addr / 4 - (addr / 4) % 16,
        line_address(addr) <= addr,
        line_address(addr) % 64 == 0,
        addr - line_address(addr) < 64,
{
    lemma_address_bits(addr);
}

proof fn lemma_evicted_in_memory(cache: Seq<Seq<(Tag, CacheLine)>>, addr: Address)
    requires
        Cache::sets_wf(cache),
        cache_in_memory(cache),
        evicted_by_set_line(cache, addr) is Some,
    ensures
        forall|j: int| 0 <= j < 16 ==> word_index(#[trigger] words_of_bytes(evicted_by_set_line(cache, addr)->0)[j].0)
            < MEMORY_WORDS,
{
    let i = index_of(addr);
    let s = cache[i];
    assert(set_wf(s));
    assert(s[0].1.dirty);
    assert(s[0].0 != u32::MAX);
    assert(line_base(s[0].0, i) + 64 <= MEMORY_SIZE);
    assert forall|j: int| 0 <= j < 16 implies word_index(#[trigger] words_of_bytes(evicted_by_set_line(cache, addr)->0)[j].0)
        < MEMORY_WORDS by {
        let e = evicted_by_set_line(cache, addr)->0;
        assert(e[4 * j].0 == (line_base(s[0].1.tag, i) + 4 * j) as Address);
    }
}

proof fn lemma_cache_in_memory_after_set_line(cache: Seq<Seq<(Tag, CacheLine)>>, addr: Address, bytes: [UByte; 64])
    requires
        Cache::sets_wf(cache),
        cache_in_memory(cache),
        (addr as int) + 64 <= MEMORY_SIZE,
        addr % 64 == 0,
    ensures
        cache_in_memory(after_set_line(cache, addr, bytes)),
{
    let i = index_of(addr);
    let s = cache[i];
    let kept = if s.len() >= WAY_NUM { swap_removed(s, 0) } else { s };
    let after = after_set_line(cache, addr, bytes);
    lemma_line_address(addr);
    assert(set_wf(s));
    assert forall|ii: int, k: int|
        0 <= ii < LINE_NUM && 0 <= k < after[ii].len() && #[trigger] after[ii][k].0 != u32::MAX implies line_base(
            after[ii][k].0,
            ii,
        ) + 64 <= MEMORY_SIZE by {
        if ii == i && k < kept.len() {
            if s.len() >= WAY_NUM {
                let src = if k == 0 { s.len() - 1 } else { k };
                assert(kept[k] == s[src]);
                assert(cache[ii][src].0 != u32::MAX);
            } else {
                assert(kept[k] == s[k]);
                assert(cache[ii][k].0 != u32::MAX);
            }
        } else if ii != i {
            assert(after[ii] == cache[ii]);
        }
    }
}

proof fn lemma_cache_in_memory_after_touch(cache: Seq<Seq<(Tag, CacheLine)>>, addr: Address, line: CacheLine)
    requires
        Cache::sets_wf(cache),
        cache_in_memory(cache),
        valid_hit(cache[index_of(addr)], tag_of(addr)),
    ensures
        cache_in_memory(
            cache.update(
                index_of(addr),
                touched(cache[index_of(addr)], key_index(cache[index_of(addr)], tag_of(addr)), line),
            ),
        ),
{
    let i = index_of(addr);
    let s = cache[i];
    let idx = key_index(s, tag_of(addr));
    let after = cache.update(i, touched(s, idx, line));
    assert(0 <= idx < s.len());
    assert forall|ii: int, k: int|
        0 <= ii < LINE_NUM && 0 <= k < after[ii].len() && #[trigger] after[ii][k].0 != u32::MAX implies line_base(
            after[ii][k].0,
            ii,
        ) + 64 <= MEMORY_SIZE by {
        if ii == i {
            let src = if k == s.len() - 1 { idx } else if k == idx { s.len() - 1 } else { k };
            assert(after[ii][k].0 == s[src].0);
            assert(cache[ii][src].0 != u32::MAX);
        } else {
            assert(after[ii] == cache[ii]);
        }
    }
}

proof fn array_with_prefix(s: Seq<UByte>, k: int) -> (a: [UByte; 64])
    requires
        s.len() == 64,
        0 <= k <= 64,
    ensures
        forall|j: int| 0 <= j < k ==> a@[j] == s[j],
    decreases k,
{
    broadcast use vstd::array::group_array_axioms;
    if k == 0 {
        vstd::array::spec_array_fill_for_copy_type::<UByte, 64>(0u8)
    } else {
        let a = array_with_prefix(s, k - 1);
        let b = vstd::array::spec_array_update(a, k - 1, s[k - 1]);
        assert(forall|j: int| 0 <= j < k ==> b@[j] == s[j]);
        b
    }
}

/// There is an array for every sequence of 64 bytes.
proof fn lemma_line_array(s: Seq<UByte>)
    requires
        s.len() == 64,
    ensures
        line_array(s)@ == s,
{
    broadcast use vstd::array::group_array_axioms;
    let a = array_with_prefix(s, 64);
    assert(a@ =~= s);
}

/// The four bytes of a word, lowest first, give back the word.
proof fn lemma_word_bytes(v: u32)
    by (bit_vector)
    ensures
        ((v >> 0u32) & 0xff) + ((v >> 8u32) & 0xff) * 0x100 + ((v >> 16u32) & 0xff) * 0x1_0000 + ((v >> 24u32) & 0xff)
            * 0x100_0000 == v,
        ((v >> 0u32) & 0xff) as u8 == (v >> 0u32) & 0xff,
        ((v >> 8u32) & 0xff) as u8 == (v >> 8u32) & 0xff,
        ((v >> 16u32) & 0xff) as u8 == (v >> 16u32) & 0xff,
        ((v >> 24u32) & 0xff) as u8 == (v >> 24u32) & 0xff,
{
}

/// The address `j` bytes into the line with tag `t` of set `i` has that tag, that set and
/// that offset.
proof fn lemma_line_address_parts(t: Tag, i: int, j: int)
    requires
        t < 0x8000,
        0 <= i < LINE_NUM,
        0 <= j < 64,
    ensures
        0 <= line_base(t, i) + j < 0x1_0000_0000,
        tag_of((line_base(t, i) + j) as Address) == t,
        index_of((line_base(t, i) + j) as Address) == i,
        offset_of((line_base(t, i) + j) as Address) == j,
{
    let y = line_base(t, i) + j;
    assert(0 <= y < 0x1_0000_0000) by (nonlinear_arith)
        requires
            y == t * 0x2_0000 + i * 64 + j,
            t < 0x8000,
            0 <= i < 2048,
            0 <= j < 64,
    ;
    let a = y as Address;
    assert(a / 0x2_0000 == t && (a / 64) % 2048 == i && a % 64 == j) by (nonlinear_arith)
        requires
            a == t * 0x2_0000 + i * 64 + j,
            t < 0x8000,
            0 <= i < 2048,
            0 <= j < 64,
    ;
}

/// Two addresses of the same word lie in the same line.
proof fn lemma_same_word_same_line(y: Address, z: Address)
    requires
        y / 4 == z / 4,
    ensures
        tag_of(y) == tag_of(z),
        index_of(y) == index_of(z),
        y % 4 == z % 4 ==> y == z,
{
    assert(y / 64 == z / 64 && y / 0x2_0000 == z / 0x2_0000) by (nonlinear_arith)
        requires
            y / 4 == z / 4,
    ;
}

/// The bytes of a word put together from four bytes are those bytes.
proof fn lemma_bytes_of_word(b0: u8, b1: u8, b2: u8, b3: u8)
    by (bit_vector)
    ensures
        (((b0 + b1 * 0x100 + b2 * 0x1_0000 + b3 * 0x100_0000) as u32 >> 0u32) & 0xff) as u8 == b0,
        (((b0 + b1 * 0x100 + b2 * 0x1_0000 + b3 * 0x100_0000) as u32 >> 8u32) & 0xff) as u8 == b1,
        (((b0 + b1 * 0x100 + b2 * 0x1_0000 + b3 * 0x100_0000) as u32 >> 16u32) & 0xff) as u8 == b2,
        (((b0 + b1 * 0x100 + b2 * 0x1_0000 + b3 * 0x100_0000) as u32 >> 24u32) & 0xff) as u8 == b3,
{
}

/// Where bringing in the line of `la` writes back the line it evicts, memory then holds the
/// bytes of that line at its addresses, and everywhere else what it held before.
proof fn lemma_evicted_memory_byte(st: CoreState, la: Address, x: Address)
    requires
        state_wf(st),
        (x as int) < MEMORY_SIZE,
    ensures
        ({
            let s = st.cache[index_of(la)];
            let memory = match evicted_by_set_line(st.cache, la) {
                Some(e) => store_line(st.memory, words_of_bytes(e)),
                None => st.memory,
            };
            &&& memory.len() == st.memory.len()
            &&& memory_byte(memory, x as int) == if s.len() >= WAY_NUM && s[0].1.dirty && tag_of(x) == s[0].0
                && index_of(x) == index_of(la) {
                s[0].1.value@[offset_of(x)]
            } else {
                memory_byte(st.memory, x as int)
            }
        }),
{
    let i0 = index_of(la);
    let s = st.cache[i0];
    assert(0 <= i0 < LINE_NUM);
    if let Some(e) = evicted_by_set_line(st.cache, la) {
        assert(set_wf(s));
        assert(entry_wf(s[0]));
        let te = s[0].0;
        let line = s[0].1;
        assert(te != u32::MAX && te < 0x8000);
        let lb = line_base(te, i0);
        assert(lb + 64 <= MEMORY_SIZE);
        let ws = words_of_bytes(e);
        assert forall|j: int| 0 <= j < ws.len() implies word_index(#[trigger] ws[j].0) == lb / 4 + j by {
            lemma_line_address_parts(te, i0, 4 * j);
            assert(e[4 * j].0 == (lb + 4 * j) as Address);
        }
        lemma_store_line(st.memory, ws, lb / 4);
        let memory = store_line(st.memory, ws);
        lemma_line_address(x);
        let w = x / 4;
        if tag_of(x) == te && index_of(x) == i0 {
            let ox = offset_of(x);
            let q = ox / 4;
            let r = ox % 4;
            assert(x == lb + ox);
            assert(w == lb / 4 + q);
            assert(x % 4 == r);
            assert(memory[w as int] == ws[q].1);
            lemma_bytes_of_word(line.value@[4 * q], line.value@[4 * q + 1], line.value@[4 * q + 2], line.value@[4 * q + 3]);
            assert(e[4 * q].1 == line.value@[4 * q]);
            assert(e[4 * q + 1].1 == line.value@[4 * q + 1]);
            assert(e[4 * q + 2].1 == line.value@[4 * q + 2]);
            assert(e[4 * q + 3].1 == line.value@[4 * q + 3]);
            assert(r == 0 || r == 1 || r == 2 || r == 3);
        } else {
            if lb / 4 <= w < lb / 4 + 16 {
                let z = lb + 4 * (w - lb / 4);
                lemma_line_address_parts(te, i0, 4 * (w - lb / 4));
                lemma_same_word_same_line(x, z as Address);
            }
            assert(memory[w as int] == st.memory[w as int]);
        }
    }
}

/// A cache miss at `addr` changes nothing the machine holds: the line that comes in holds
/// what memory holds, and the line that leaves, if dirty, goes to memory. Clean lines
/// keep agreeing with memory.
proof fn lemma_miss_keeps_visible(st: CoreState, addr: Address)
    requires
        state_wf(st),
        (addr as int) < MEMORY_SIZE,
        !valid_hit(st.cache[index_of(addr)], tag_of(addr)),
    ensures
        state_wf(st.after_cache_miss(addr)),
        forall|x: Address| (x as int) < MEMORY_SIZE ==> #[trigger] visible_byte(st.after_cache_miss(addr), x) == visible_byte(st, x),
{
    let i0 = index_of(addr);
    let t0 = tag_of(addr);
    let s = st.cache[i0];
    let la = line_address(addr);
    lemma_line_address(addr);
    assert(set_wf(s));
    lemma_miss_has_no_key(s, addr);
    let sub = st.memory.subrange(word_index(la), word_index(la) + 16);
    let bytes_seq = bytes_of_words(sub);
    lemma_line_array(bytes_seq);
    let bytes = line_array(bytes_seq);
    let after = st.after_cache_miss(addr);
    lemma_hit_after_set_line(st.cache, la, bytes);
    lemma_cache_in_memory_after_set_line(st.cache, la, bytes);
    assert(after.cache == after_set_line(st.cache, la, bytes));
    lemma_evicted_memory_byte(st, la, 0);
    let u = after.cache[i0];
    let full = s.len() >= WAY_NUM;
    let kept = if full { swap_removed(s, 0) } else { s };
    if full {
        lemma_swap_removed(s, 0);
    }
    // the bytes of the line that comes in are those of memory
    assert forall|j: int| 0 <= j < 64 implies #[trigger] bytes@[j] == memory_byte(st.memory, la + j) by {
        assert(sub[j / 4] == st.memory[(la + j) / 4]);
        assert((la + j) % 4 == j % 4);
    }
    assert forall|x: Address| (x as int) < MEMORY_SIZE implies #[trigger] visible_byte(after, x) == visible_byte(st, x) by {
        lemma_evicted_memory_byte(st, la, x);
        lemma_line_address(x);
        let ix = index_of(x);
        let tx = tag_of(x);
        assert(tx < 0x8000) by (nonlinear_arith)
            requires
                tx == x / 0x2_0000,
        ;
        if ix != i0 {
            assert(after.cache[ix] == st.cache[ix]);
        } else if tx == t0 {
            assert(line_address(x) == la);
            assert(x == la + offset_of(x));
        } else {
            lemma_set_line_keeps_others(st.cache, la, bytes, tx);
            if has_key(u, tx) {
                assert(entry_wf(u[key_index(u, tx)]));
            } else if has_key(s, tx) {
                lemma_key_index(s, tx, 0);
                assert(entry_wf(s[0]));
                if !s[0].1.dirty {
                    assert(s[0].1.value@[offset_of(x)] == memory_byte(st.memory, line_base(s[0].0, i0) + offset_of(x)));
                }
            }
        }
    }
    assert forall|ii: int, k: int, j: int|
        0 <= ii < LINE_NUM && 0 <= k < after.cache[ii].len() && after.cache[ii][k].1.valid && !after.cache[ii][k].1.dirty
            && 0 <= j < 64 implies #[trigger] after.cache[ii][k].1.value@[j] == memory_byte(
        after.memory,
        line_base(after.cache[ii][k].0, ii) + j,
    ) by {
        let entry = after.cache[ii][k];
        assert(set_wf(after.cache[ii]));
        assert(entry_wf(entry));
        assert(entry.0 < 0x8000);
        lemma_line_address_parts(entry.0, ii, j);
        let y = (line_base(entry.0, ii) + j) as Address;
        lemma_evicted_memory_byte(st, la, y);
        if ii != i0 {
            assert(after.cache[ii] == st.cache[ii]);
            assert(st.cache[ii][k].1.value@[j] == memory_byte(st.memory, line_base(st.cache[ii][k].0, ii) + j));
        } else if k == u.len() - 1 {
            assert(entry.0 == t0);
            assert(line_base(t0, i0) == la);
        } else {
            let src = if full && k == 0 { s.len() - 1 } else { k };
            assert(kept[k] == s[src]);
            assert(entry == s[src]);
            assert(st.cache[i0][src].1.value@[j] == memory_byte(st.memory, line_base(st.cache[i0][src].0, i0) + j));
            if full {
                assert(src != 0);
                assert(s[src].0 != s[0].0);
            }
        }
    }
}

/// The bytes of the word at the word address `addr` lie in the line of `addr`, at the
/// offsets from that of `addr` on.
proof fn lemma_word_in_line(addr: Address, k: int)
    requires
        addr % 4 == 0,
        0 <= k < 4,
    ensures
        tag_of((addr + k) as Address) == tag_of(addr),
        index_of((addr + k) as Address) == index_of(addr),
        offset_of((addr + k) as Address) == offset_of(addr) + k,
        word_index((addr + k) as Address) == word_index(addr),
        ((addr + k) as Address) % 4 == k,
        addr + k < 0x1_0000_0000,
{
    lemma_address_bits(addr);
    lemma_line_address(addr);
    assert(tag_of(addr) < 0x8000) by (nonlinear_arith)
        requires
            tag_of(addr) == addr / 0x2_0000,
    ;
    lemma_line_address_parts(tag_of(addr), index_of(addr), offset_of(addr) + k);
}

/// The entries of a set after the access that moves the entry at `idx` to the end with
/// `line`.
proof fn lemma_touched_entries(s: Seq<(Tag, CacheLine)>, idx: int, line: CacheLine, k: int)
    requires
        set_wf(s),
        0 <= idx < s.len(),
        0 <= k < s.len(),
    ensures
        touched(s, idx, line).len() == s.len(),
        touched(s, idx, line)[k] == if k == s.len() - 1 {
            (s[idx].0, line)
        } else if k == idx {
            s[s.len() - 1]
        } else {
            s[k]
        },
{
    lemma_swap_removed(s, idx);
}

/// An access that hits at `addr` and leaves its line as `line` with the same tag keeps
/// the well-formedness of the state, and clean lines other than that one keep agreeing
/// with memory.
proof fn lemma_touch_keeps_state(st: CoreState, addr: Address, line: CacheLine)
    requires
        state_wf(st),
        valid_hit(st.cache[index_of(addr)], tag_of(addr)),
        line.valid,
        line.tag == tag_of(addr),
        !line.dirty ==> line.value == hit_line(st.cache, addr).value && !hit_line(st.cache, addr).dirty,
    ensures
        ({
            let s = st.cache[index_of(addr)];
            let after = CoreState {
                cache: st.cache.update(index_of(addr), touched(s, key_index(s, tag_of(addr)), line)),
                ..st
            };
            state_wf(after)
        }),
{
    let i0 = index_of(addr);
    let s = st.cache[i0];
    let idx = key_index(s, tag_of(addr));
    let after = CoreState { cache: st.cache.update(i0, touched(s, idx, line)), ..st };
    lemma_hit_after_touch(st.cache, addr, line);
    lemma_cache_in_memory_after_touch(st.cache, addr, line);
    assert(set_wf(s));
    assert forall|ii: int, k: int, j: int|
        0 <= ii < LINE_NUM && 0 <= k < after.cache[ii].len() && after.cache[ii][k].1.valid && !after.cache[ii][k].1.dirty
            && 0 <= j < 64 implies #[trigger] after.cache[ii][k].1.value@[j] == memory_byte(
        after.memory,
        line_base(after.cache[ii][k].0, ii) + j,
    ) by {
        if ii != i0 {
            assert(after.cache[ii] == st.cache[ii]);
            assert(st.cache[ii][k].1.value@[j] == memory_byte(st.memory, line_base(st.cache[ii][k].0, ii) + j));
        } else {
            lemma_touched_entries(s, idx, line, k);
            let src = if k == s.len() - 1 { idx } else if k == idx { s.len() - 1 } else { k };
            assert(after.cache[ii][k].0 == s[src].0);
            assert(st.cache[ii][src].1.value@[j] == memory_byte(st.memory, line_base(st.cache[ii][src].0, ii) + j));
        }
    }
}

/// Writing memory at a word whose line the cache does not hold keeps the state well
/// formed: no clean line holds that word.
proof fn lemma_miss_store_keeps_state(st: CoreState, addr: Address, v: u32)
    requires
        state_wf(st),
        (addr as int) < MEMORY_SIZE,
        !valid_hit(st.cache[index_of(addr)], tag_of(addr)),
    ensures
        state_wf(CoreState { memory: st.memory.update(word_index(addr), v), ..st }),
{
    let s = st.cache[index_of(addr)];
    let t0 = tag_of(addr);
    let stored = CoreState { memory: st.memory.update(word_index(addr), v), ..st };
    assert(set_wf(s));
    lemma_miss_has_no_key(s, addr);
    assert forall|ii: int, k: int, j: int|
        0 <= ii < LINE_NUM && 0 <= k < stored.cache[ii].len() && stored.cache[ii][k].1.valid
            && !stored.cache[ii][k].1.dirty && 0 <= j < 64 implies #[trigger] stored.cache[ii][k].1.value@[j]
        == memory_byte(stored.memory, line_base(stored.cache[ii][k].0, ii) + j) by {
        let entry = st.cache[ii][k];
        assert(set_wf(st.cache[ii]));
        assert(entry_wf(entry));
        lemma_line_address_parts(entry.0, ii, j);
        let y = (line_base(entry.0, ii) + j) as Address;
        assert(entry.1.value@[j] == memory_byte(st.memory, line_base(entry.0, ii) + j));
        if word_index(y) == word_index(addr) {
            lemma_same_word_same_line(y, addr);
            assert(has_key(s, t0));
        }
    }
}

/// A new machine holds zero at every address of memory.
pub proof fn lemma_initial_memory_is_zero(x: Address)
    requires
        (x as int) < MEMORY_SIZE,
    ensures
        visible_byte(initial_state(), x) == 0,
{
    let st = initial_state();
    let i = index_of(x);
    assert(st.cache[i] == seq![(u32::MAX, crate::cache::empty_line())]);
    assert(tag_of(x) < 0x8000) by (nonlinear_arith)
        requires
            tag_of(x) == x / 0x2_0000,
    ;
    assert(!has_key(st.cache[i], tag_of(x)));
    assert(st.memory[(x / 4) as int] == 0);
    lemma_word_bytes(0);
    assert(x % 4 == 0 || x % 4 == 1 || x % 4 == 2 || x % 4 == 3);
}

/// Reading goes through the cache without changing what the machine holds: a load at a
/// word address gives the word the machine holds there, and afterwards the machine holds
/// the same bytes everywhere; the state stays well formed.
pub proof fn lemma_load_reads_visible_memory(st: CoreState, addr: Address)
    requires
        state_wf(st),
        addr % 4 == 0,
        (addr as int) < MEMORY_SIZE,
    ensures
        st.word_access_ok(addr),
        st.load_word_result(addr).1 == spec_u32_to_i32(visible_word(st, addr)),
        state_wf(st.load_word_result(addr).0),
        forall|x: Address|
            (x as int) < MEMORY_SIZE ==> #[trigger] visible_byte(st.load_word_result(addr).0, x) == visible_byte(st, x),
{
    let i0 = index_of(addr);
    let t0 = tag_of(addr);
    let s = st.cache[i0];
    let off = offset_of(addr);
    lemma_address_bits(addr);
    lemma_word_in_line(addr, 0);
    lemma_word_in_line(addr, 1);
    lemma_word_in_line(addr, 2);
    lemma_word_in_line(addr, 3);
    assert(set_wf(s));
    let counted = CoreState {
        memory_access_count: vstd::wrapping::usize_specs::wrapping_add(st.memory_access_count, 1),
        ..st
    };
    if valid_hit(s, t0) {
        let idx = key_index(s, t0);
        let line = hit_line(st.cache, addr);
        assert(entry_wf(s[idx]));
        let rt = read_touched(line);
        lemma_touch_keeps_state(counted, addr, rt);
        lemma_hit_after_touch(st.cache, addr, rt);
        let after = st.load_word_result(addr).0;
        assert(after.cache == st.cache.update(i0, touched(s, idx, rt)));
        assert forall|x: Address| (x as int) < MEMORY_SIZE implies #[trigger] visible_byte(after, x) == visible_byte(st, x) by {
            let tx = tag_of(x);
            let ix = index_of(x);
            if ix != i0 {
                assert(after.cache[ix] == st.cache[ix]);
            } else if tx != t0 {
                lemma_touched_keeps_others(s, idx, rt, tx);
            }
        }
    } else {
        lemma_miss_keeps_visible(counted, addr);
        lemma_word_bytes(st.memory[word_index(addr)]);
    }
}

/// Writing goes through the cache as into a plain memory: after a store of `value` at a
/// word address, the machine holds the bytes of `value`, lowest first, at that word, and
/// what it held before everywhere else; the state stays well formed.
pub proof fn lemma_store_writes_visible_memory(st: CoreState, addr: Address, value: Word)
    requires
        state_wf(st),
        addr % 4 == 0,
        (addr as int) < MEMORY_SIZE,
    ensures
        st.word_access_ok(addr),
        state_wf(st.store_word_result(addr, value)),
        forall|x: Address|
            (x as int) < MEMORY_SIZE ==> #[trigger] visible_byte(st.store_word_result(addr, value), x) == if word_index(x)
                == word_index(addr) {
                ((spec_i32_to_u32(value) >> ((8 * (x % 4)) as u32)) & 0xff) as UByte
            } else {
                visible_byte(st, x)
            },
{
    let i0 = index_of(addr);
    let t0 = tag_of(addr);
    let s = st.cache[i0];
    let off = offset_of(addr);
    let v = spec_i32_to_u32(value);
    lemma_address_bits(addr);
    lemma_line_address(addr);
    assert(set_wf(s));
    let counted = CoreState {
        memory_access_count: vstd::wrapping::usize_specs::wrapping_add(st.memory_access_count, 1),
        ..st
    };
    let after = st.store_word_result(addr, value);
    if valid_hit(s, t0) {
        let idx = key_index(s, t0);
        let line = hit_line(st.cache, addr);
        assert(entry_wf(s[idx]));
        let written = bytes_written(line.value, off, v, 4);
        lemma_line_array(written);
        let arr = line_array(written);
        let nl = write_touched(line, arr);
        lemma_touch_keeps_state(CoreState { cache_hit_count: after.cache_hit_count, ..counted }, addr, nl);
        lemma_hit_after_touch(st.cache, addr, nl);
        assert(after.cache == st.cache.update(i0, touched(s, idx, nl)));
        assert forall|x: Address| (x as int) < MEMORY_SIZE implies #[trigger] visible_byte(after, x) == if word_index(x)
            == word_index(addr) {
            ((v >> ((8 * (x % 4)) as u32)) & 0xff) as UByte
        } else {
            visible_byte(st, x)
        } by {
            let tx = tag_of(x);
            let ix = index_of(x);
            lemma_line_address(x);
            if word_index(x) == word_index(addr) {
                lemma_same_word_same_line(x, addr);
                assert(line_address(x) == line_address(addr));
                let ox = offset_of(x);
                assert(off <= ox < off + 4);
                assert(x % 4 == ox - off);
                assert(arr@[ox] == written[ox]);
            } else if ix != i0 {
                assert(after.cache[ix] == st.cache[ix]);
            } else if tx != t0 {
                lemma_touched_keeps_others(s, idx, nl, tx);
            } else {
                let ox = offset_of(x);
                assert(line_address(x) == line_address(addr));
                assert(!(off <= ox < off + 4));
                assert(arr@[ox] == written[ox]);
            }
        }
    } else {
        let stored = CoreState { memory: st.memory.update(word_index(addr), v), ..counted };
        lemma_miss_store_keeps_state(counted, addr, v);
        assert forall|x: Address| (x as int) < MEMORY_SIZE implies #[trigger] visible_byte(stored, x) == if word_index(x)
            == word_index(addr) {
            ((v >> ((8 * (x % 4)) as u32)) & 0xff) as UByte
        } else {
            visible_byte(st, x)
        } by {
            if word_index(x) == word_index(addr) {
                lemma_same_word_same_line(x, addr);
            }
        }
        lemma_miss_keeps_visible(stored, addr);
    }
}

/// A word load or a word store, as the machine's programs make them.
pub enum MemoryAccess {
    Load(Address),
    Store(Address, Word),
}

/// Whether the access `access` is at a word address in memory.
pub open spec fn word_access_in_memory(access: MemoryAccess) -> bool {
    match access {
        MemoryAccess::Load(a) => a % 4 == 0 && (a as int) < MEMORY_SIZE,
        MemoryAccess::Store(a, _) => a % 4 == 0 && (a as int) < MEMORY_SIZE,
    }
}

/// The state after the accesses `accesses`, one after the other, from `st`.
pub open spec fn after_accesses(st: CoreState, accesses: Seq<MemoryAccess>) -> CoreState
    decreases accesses.len(),
{
    if accesses.len() == 0 {
        st
    } else {
        let before = after_accesses(st, accesses.drop_last());
        match accesses.last() {
            MemoryAccess::Load(a) => before.load_word_result(a).0,
            MemoryAccess::Store(a, value) => before.store_word_result(a, value),
        }
    }
}

/// The word a plain memory holds at the word of `a` after the accesses `accesses`: the
/// value of the last store to that word, else `initial`.
pub open spec fn last_stored(accesses: Seq<MemoryAccess>, a: Address, initial: u32) -> u32
    decreases accesses.len(),
{
    if accesses.len() == 0 {
        initial
    } else {
        match accesses.last() {
            MemoryAccess::Store(b, value) => if word_index(b) == word_index(a) {
                spec_i32_to_u32(value)
            } else {
                last_stored(accesses.drop_last(), a, initial)
            },
            MemoryAccess::Load(_) => last_stored(accesses.drop_last(), a, initial),
        }
    }
}

/// The word the machine holds at a word address after a store: the stored value at the
/// stored word, and what it held before elsewhere.
proof fn lemma_visible_word_after_store(st: CoreState, b: Address, value: Word, a: Address)
    requires
        state_wf(st),
        b % 4 == 0,
        (b as int) < MEMORY_SIZE,
        a % 4 == 0,
        (a as int) < MEMORY_SIZE,
    ensures
        visible_word(st.store_word_result(b, value), a) == if word_index(b) == word_index(a) {
            spec_i32_to_u32(value)
        } else {
            visible_word(st, a)
        },
{
    lemma_store_writes_visible_memory(st, b, value);
    let v = spec_i32_to_u32(value);
    lemma_word_in_line(a, 0);
    lemma_word_in_line(a, 1);
    lemma_word_in_line(a, 2);
    lemma_word_in_line(a, 3);
    assert((a as int) + 3 < MEMORY_SIZE) by {
        assert(MEMORY_SIZE % 4 == 0);
    }
    let after = st.store_word_result(b, value);
    assert(visible_byte(after, a) == (if word_index(a) == word_index(b) { ((v >> ((8 * (a % 4)) as u32)) & 0xff) as UByte } else { visible_byte(st, a) }));
    assert(visible_byte(after, (a + 1) as Address) == (if word_index(a) == word_index(b) { ((v >> ((8 * (((a + 1) as Address) % 4)) as u32)) & 0xff) as UByte } else { visible_byte(st, (a + 1) as Address) }));
    assert(visible_byte(after, (a + 2) as Address) == (if word_index(a) == word_index(b) { ((v >> ((8 * (((a + 2) as Address) % 4)) as u32)) & 0xff) as UByte } else { visible_byte(st, (a + 2) as Address) }));
    assert(visible_byte(after, (a + 3) as Address) == (if word_index(a) == word_index(b) { ((v >> ((8 * (((a + 3) as Address) % 4)) as u32)) & 0xff) as UByte } else { visible_byte(st, (a + 3) as Address) }));
    if word_index(b) == word_index(a) {
        lemma_word_bytes(v);
        assert((8 * (a % 4)) as u32 == 0u32);
        assert((8 * (((a + 1) as Address) % 4)) as u32 == 8u32);
        assert((8 * (((a + 2) as Address) % 4)) as u32 == 16u32);
        assert((8 * (((a + 3) as Address) % 4)) as u32 == 24u32);
    }
}

/// The word the machine holds at each word address after the accesses `accesses` is the
/// word a plain memory would hold; the state stays well formed.
proof fn lemma_visible_after_accesses(st: CoreState, accesses: Seq<MemoryAccess>, a: Address)
    requires
        state_wf(st),
        a % 4 == 0,
        (a as int) < MEMORY_SIZE,
        forall|i: int| 0 <= i < accesses.len() ==> word_access_in_memory(#[trigger] accesses[i]),
    ensures
        state_wf(after_accesses(st, accesses)),
        visible_word(after_accesses(st, accesses), a) == last_stored(accesses, a, visible_word(st, a)),
    decreases accesses.len(),
{
    if accesses.len() > 0 {
        let front = accesses.drop_last();
        assert forall|i: int| 0 <= i < front.len() implies word_access_in_memory(#[trigger] front[i]) by {
            assert(front[i] == accesses[i]);
        }
        lemma_visible_after_accesses(st, front, a);
        let before = after_accesses(st, front);
        assert(word_access_in_memory(accesses[accesses.len() - 1]));
        match accesses.last() {
            MemoryAccess::Load(b) => {
                lemma_load_reads_visible_memory(before, b);
                lemma_word_in_line(a, 0);
                lemma_word_in_line(a, 1);
                lemma_word_in_line(a, 2);
                lemma_word_in_line(a, 3);
                assert((a as int) + 3 < MEMORY_SIZE) by {
                    assert(MEMORY_SIZE % 4 == 0);
                }
                let after = before.load_word_result(b).0;
                assert(visible_byte(after, a) == visible_byte(before, a));
                assert(visible_byte(after, (a + 1) as Address) == visible_byte(before, (a + 1) as Address));
                assert(visible_byte(after, (a + 2) as Address) == visible_byte(before, (a + 2) as Address));
                assert(visible_byte(after, (a + 3) as Address) == visible_byte(before, (a + 3) as Address));
            },
            MemoryAccess::Store(b, value) => {
                lemma_store_writes_visible_memory(before, b, value);
                lemma_visible_word_after_store(before, b, value, a);
            },
        }
    }
}

/// The cache is transparent: after any sequence of word loads and stores in memory, a
/// load at a word address gives the value of the last store to that word, or else the
/// word the machine held there at the start (zero on a new machine, see
/// `lemma_initial_memory_is_zero`); the state stays well formed.
pub proof fn lemma_accesses_act_as_flat_memory(st: CoreState, accesses: Seq<MemoryAccess>, a: Address)
    requires
        state_wf(st),
        a % 4 == 0,
        (a as int) < MEMORY_SIZE,
        forall|i: int| 0 <= i < accesses.len() ==> word_access_in_memory(#[trigger] accesses[i]),
    ensures
        state_wf(after_accesses(st, accesses)),
        after_accesses(st, accesses).load_word_result(a).1 == spec_u32_to_i32(
            last_stored(accesses, a, visible_word(st, a)),
        ),
{
    lemma_visible_after_accesses(st, accesses, a);
    lemma_load_reads_visible_memory(after_accesses(st, accesses), a);
}

/// A jump decided in the execute stage redirects the machine: after a cycle that ends
/// with an instruction in the execute stage that jumps to `a`, the program counter is `a`
/// and the fetch, second fetch and decode stages are empty, so no instruction fetched on
/// the wrong path goes on.
pub proof fn lemma_taken_jump_squashes(st: CoreState)
    requires
        (st.pc as int) < INSTRUCTION_MEMORY_SIZE,
    ensures
        match step_result(st) {
            Ok((_, next)) => match next.execute {
                Some(inst) => match inst_jump(inst) {
                    Some(a) => next.pc == a && next.fetch is None && next.fetch_2 is None && next.decode is None,
                    None => true,
                },
                None => true,
            },
            Err(_) => true,
        },
{
    let counted = CoreState { cycle_count: vstd::wrapping::u128_specs::wrapping_add(st.cycle_count, 1), ..st };
    match cycle_result(counted) {
        Ok((next, _, _)) => {
            let stalling = counted.will_stall;
            let s1 = if stalling { CoreState { will_stall: false, ..moved_stalling(counted) } } else { moved(counted) };
            let s2 = if load_hazard(s1) { CoreState { will_stall: true, ..s1 } } else { s1 };
            let s3 = if s2.write_back is Some {
                CoreState { instruction_count: vstd::wrapping::u128_specs::wrapping_add(s2.instruction_count, 1), ..s2 }
            } else {
                s2
            };
            let s4 = write_back_stage(s3);
            let s5 = memory_stage(s4);
            let s8 = if stalling {
                register_fetch_stage(s5)
            } else {
                let s6 = exec_stage(s5);
                let s7 = if s6.will_stall { s6 } else { register_fetch_stage(s6) };
                after_stats(after_fetch(s7), counted.pc)
            };
            let s9 = after_next_pc(s8, s8.will_stall);
            assert(next == after_forwarding_removal(s9));
            assert(next.execute == s9.execute && next.pc == s9.pc && next.fetch == s9.fetch && next.fetch_2 == s9.fetch_2
                && next.decode == s9.decode);
            assert(s9.execute == s8.execute);
        },
        Err(_) => {},
    }
}

/// A load gives back the word that a store just wrote at the same address (a multiple
/// of 4 in memory), whether the store hit the cache or missed it.
pub proof fn lemma_load_after_store(st: CoreState, addr: Address, value: Word)
    requires
        state_wf(st),
        addr % 4 == 0,
        (addr as int) < MEMORY_SIZE,
    ensures
        st.word_access_ok(addr),
        st.store_word_result(addr, value).word_access_ok(addr),
        st.store_word_result(addr, value).load_word_result(addr).1 == value,
{
    let i = index_of(addr);
    let tag = tag_of(addr);
    let v = spec_i32_to_u32(value);
    let after = st.store_word_result(addr, value);
    lemma_word_bytes(v);
    lemma_word_reinterpretation_round_trip(v, value);
    lemma_address_bits(addr);
    assert(offset_of(addr) % 4 == 0 && offset_of(addr) + 4 <= 64);
    if valid_hit(st.cache[i], tag) {
        let old_line = hit_line(st.cache, addr);
        let written = bytes_written(old_line.value, offset_of(addr), v, 4);
        lemma_line_array(written);
        let arr = line_array(written);
        let new_line = write_touched(old_line, arr);
        assert(old_line.tag == tag) by {
            let s = st.cache[i];
            assert(set_wf(s));
            assert(entry_wf(s[key_index(s, tag)]));
        }
        lemma_hit_after_touch(st.cache, addr, new_line);
        assert(after.cache == st.cache.update(i, touched(st.cache[i], key_index(st.cache[i], tag), new_line)));
        assert(hit_line(after.cache, addr).value@ == written);
        assert((8 * (offset_of(addr) - offset_of(addr))) as u32 == 0u32);
        assert(written[offset_of(addr)] == (v >> 0u32) & 0xff);
        assert(written[offset_of(addr) + 1] == (v >> 8u32) & 0xff);
        assert(written[offset_of(addr) + 2] == (v >> 16u32) & 0xff);
        assert(written[offset_of(addr) + 3] == (v >> 24u32) & 0xff);
    } else {
        let counted = CoreState {
            memory_access_count: vstd::wrapping::usize_specs::wrapping_add(st.memory_access_count, 1),
            ..st
        };
        let stored = CoreState { memory: st.memory.update(word_index(addr), v), ..counted };
        let la = line_address(addr);
        lemma_line_address(addr);
        lemma_miss_has_no_key(st.cache[i], addr);
        let words = stored.memory.subrange(word_index(la), word_index(la) + 16);
        let bytes_seq = bytes_of_words(words);
        lemma_line_array(bytes_seq);
        let bytes = line_array(bytes_seq);
        lemma_hit_after_set_line(st.cache, la, bytes);
        assert(after.cache == after_set_line(st.cache, la, bytes));
        assert(hit_line(after.cache, addr) == fresh_line(la, bytes));
        let off = offset_of(addr);
        assert(word_index(la) + off / 4 == word_index(addr));
        assert(words[off / 4] == v);
        assert((off + 1) / 4 == off / 4 && (off + 1) % 4 == 1);
        assert((off + 2) / 4 == off / 4 && (off + 2) % 4 == 2);
        assert((off + 3) / 4 == off / 4 && (off + 3) % 4 == 3);
        assert(off % 4 == 0 && off / 4 == off / 4);
        assert((8 * (off % 4)) as u32 == 0u32);
        assert(bytes_seq[off] == (words[off / 4] >> 0u32) & 0xff);
        assert(bytes_seq[off] == (v >> 0u32) & 0xff);
        assert(bytes_seq[off + 1] == (v >> 8u32) & 0xff);
        assert(bytes_seq[off + 2] == (v >> 16u32) & 0xff);
        assert(bytes_seq[off + 3] == (v >> 24u32) & 0xff);
    }
}

/// Register 0 reads as zero: writes to it are ignored, nothing is forwarded for it, and
/// an instruction that reads it gets 0.
pub proof fn lemma_register_zero(st: CoreState, count: InstructionCount, value: Int)
    requires
        state_wf(st),
    ensures
        st.int_source(0) == 0,
        st.with_int_register(0, value) == st,
        st.with_int_forwarding(0, count, value) == st,
{
}

/// After a load or a store at `addr`, the line that holds `addr` is in the cache, as the
/// most recently used line of its set: the next access there hits.
pub proof fn lemma_access_caches_line(st: CoreState, addr: Address, value: Word)
    requires
        state_wf(st),
        st.word_access_ok(addr),
    ensures
        valid_hit(st.load_word_result(addr).0.cache[index_of(addr)], tag_of(addr)),
        valid_hit(st.store_word_result(addr, value).cache[index_of(addr)], tag_of(addr)),
{
    let i = index_of(addr);
    let tag = tag_of(addr);
    if valid_hit(st.cache[i], tag) {
        let old_line = hit_line(st.cache, addr);
        assert(old_line.tag == tag) by {
            let s = st.cache[i];
            assert(set_wf(s));
            assert(entry_wf(s[key_index(s, tag)]));
        }
        lemma_hit_after_touch(st.cache, addr, read_touched(old_line));
        let written = bytes_written(old_line.value, offset_of(addr), spec_i32_to_u32(value), 4);
        lemma_hit_after_touch(st.cache, addr, write_touched(old_line, line_array(written)));
    } else {
        let la = line_address(addr);
        lemma_line_address(addr);
        lemma_miss_has_no_key(st.cache[i], addr);
        let load_bytes = line_array(bytes_of_words(st.memory.subrange(word_index(la), word_index(la) + 16)));
        lemma_hit_after_set_line(st.cache, la, load_bytes);
        let stored = st.memory.update(word_index(addr), spec_i32_to_u32(value));
        let store_bytes = line_array(bytes_of_words(stored.subrange(word_index(la), word_index(la) + 16)));
        lemma_hit_after_set_line(st.cache, la, store_bytes);
    }
}

} // verus!
