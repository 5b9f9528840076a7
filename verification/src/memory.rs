use vstd::prelude::*;
use crate::types::{Address, MemoryValue, Word};
use crate::utils::{u32_to_i32, i32_to_u32, spec_u32_to_i32, spec_i32_to_u32};

verus! {

/// The size of the data memory in bytes.
pub const MEMORY_SIZE: usize = 128 * 1024 * 1024;

/// The size of a word in bytes.
pub const WORD_SIZE: usize = 4;

/// The number of words in the data memory.
pub const MEMORY_WORDS: usize = 32 * 1024 * 1024;

/// The number of words in a line of the data cache.
pub const LINE_WORDS: usize = 16;

/// The data memory: a word at each address that is a multiple of 4; the two low bits
/// of an address are ignored.
pub struct Memory {
    values: Vec<MemoryValue>,
}

/// Shifting an address right by 2 gives the index of the word that holds it.
pub proof fn lemma_word_shift(addr: Address)
    by (bit_vector)
    ensures
        addr >> 2u32 == addr / 4,
{
}

/// The index of the word that holds address `addr`.
pub open spec fn word_index(addr: Address) -> int {
    (addr / 4) as int
}

/// The words of `s` after writing the words of `line`, in order, each at the word that
/// holds its address.
pub open spec fn store_line(s: Seq<MemoryValue>, line: Seq<(Address, MemoryValue)>) -> Seq<MemoryValue>
    decreases line.len(),
{
    if line.len() == 0 {
        s
    } else {
        store_line(s, line.drop_last()).update(word_index(line.last().0), line.last().1)
    }
}

/// Writing the words `ws`, whose addresses lie in consecutive words from `base` on,
/// changes memory at those words only.
pub proof fn lemma_store_line(m: Seq<MemoryValue>, ws: Seq<(Address, MemoryValue)>, base: int)
    requires
        forall|j: int| 0 <= j < ws.len() ==> word_index(#[trigger] ws[j].0) == base + j,
        0 <= base,
        base + ws.len() <= m.len(),
    ensures
        store_line(m, ws).len() == m.len(),
        forall|w: int|
            0 <= w < m.len() ==> #[trigger] store_line(m, ws)[w] == if base <= w < base + ws.len() {
                ws[w - base].1
            } else {
                m[w]
            },
    decreases ws.len(),
{
    if ws.len() > 0 {
        let front = ws.drop_last();
        assert forall|j: int| 0 <= j < front.len() implies word_index(#[trigger] front[j].0) == base + j by {
            assert(front[j] == ws[j]);
        }
        lemma_store_line(m, front, base);
        assert(word_index(ws.last().0) == base + ws.len() - 1);
    }
}

/// Whether the pair at `k` of `ws` writes the word `w`.
pub open spec fn writes_word(ws: Seq<(Address, MemoryValue)>, k: int, w: int) -> bool {
    word_index(ws[k].0) == w
}

/// Writing a line of words, pair after pair: a word that some pair writes ends with the
/// value of the last such pair, and every other word keeps its value.
pub proof fn lemma_store_line_last_write_wins(m: Seq<MemoryValue>, ws: Seq<(Address, MemoryValue)>, w: int)
    requires
        0 <= w < m.len(),
        forall|k: int| 0 <= k < ws.len() ==> word_index(#[trigger] ws[k].0) < m.len(),
    ensures
        store_line(m, ws).len() == m.len(),
        (exists|k: int| 0 <= k < ws.len() && #[trigger] writes_word(ws, k, w)) ==> exists|j: int|
            0 <= j < ws.len() && #[trigger] writes_word(ws, j, w) && (forall|k: int|
                j < k < ws.len() ==> !#[trigger] writes_word(ws, k, w)) && store_line(m, ws)[w] == ws[j].1,
        !(exists|k: int| 0 <= k < ws.len() && #[trigger] writes_word(ws, k, w)) ==> store_line(m, ws)[w] == m[w],
    decreases ws.len(),
{
    if ws.len() > 0 {
        let front = ws.drop_last();
        let n = ws.len() - 1;
        assert forall|k: int| 0 <= k < front.len() implies word_index(#[trigger] front[k].0) < m.len() by {
            assert(front[k] == ws[k]);
        }
        lemma_store_line_last_write_wins(m, front, w);
        assert(word_index(ws[n].0) < m.len());
        if writes_word(ws, n, w) {
            assert(store_line(m, ws)[w] == ws[n].1);
        } else {
            assert forall|k: int| 0 <= k < front.len() implies #[trigger] writes_word(front, k, w) == writes_word(ws, k, w) by {
                assert(front[k] == ws[k]);
            }
            if exists|k: int| 0 <= k < ws.len() && #[trigger] writes_word(ws, k, w) {
                let k0 = choose|k: int| 0 <= k < ws.len() && #[trigger] writes_word(ws, k, w);
                assert(writes_word(front, k0, w));
                let j = choose|j: int|
                    0 <= j < front.len() && #[trigger] writes_word(front, j, w) && (forall|k: int|
                        j < k < front.len() ==> !#[trigger] writes_word(front, k, w)) && store_line(m, front)[w] == front[j].1;
                assert(writes_word(ws, j, w));
                assert forall|k: int| j < k < ws.len() implies !#[trigger] writes_word(ws, k, w) by {
                    if k < n {
                        assert(!writes_word(front, k, w));
                    }
                }
            } else {
                assert forall|k: int| 0 <= k < front.len() implies !#[trigger] writes_word(front, k, w) by {
                    assert(!writes_word(ws, k, w));
                }
            }
        }
    }
}

/// Writing back the words that memory holds from the word of `addr` on, each at its
/// address, leaves memory as it was.
pub proof fn lemma_store_unchanged_line(m: Seq<MemoryValue>, ws: Seq<(Address, MemoryValue)>, addr: Address)
    requires
        addr as int + 4 * ws.len() <= u32::MAX + 1,
        word_index(addr) + ws.len() <= m.len(),
        forall|k: int| 0 <= k < ws.len() ==> #[trigger] ws[k] == ((addr + 4 * k) as Address, m[word_index(addr) + k]),
    ensures
        store_line(m, ws) == m,
{
    assert forall|j: int| 0 <= j < ws.len() implies word_index(#[trigger] ws[j].0) == word_index(addr) + j by {
        assert(ws[j].0 == (addr + 4 * j) as Address);
    }
    lemma_store_line(m, ws, word_index(addr));
    assert(store_line(m, ws) =~= m);
}

impl View for Memory {
    type V = Seq<MemoryValue>;

    closed spec fn view(&self) -> Seq<MemoryValue> {
        self.values@
    }
}

impl Memory {
    /// Whether the memory holds all its words.
    pub open spec fn wf(&self) -> bool {
        self@.len() == MEMORY_WORDS
    }

    /// A memory of zero words.
    pub fn new() -> (r: Self)
        ensures
            r.wf(),
            r@ == Seq::new(MEMORY_WORDS as nat, |i: int| 0u32),
    {
        let mut values: Vec<MemoryValue> = Vec::with_capacity(MEMORY_WORDS);
        while values.len() < MEMORY_WORDS
            invariant
                values.len() <= MEMORY_WORDS,
                forall|i: int| 0 <= i < values.len() ==> values@[i] == 0u32,
            decreases MEMORY_WORDS - values.len(),
        {
            values.push(0);
        }
        let r = Memory { values };
        assert(r@ =~= Seq::new(MEMORY_WORDS as nat, |i: int| 0u32));
        r
    }

    /// The word that holds address `addr`, as a signed word.
    pub fn load_word(&self, addr: Address) -> (r: Word)
        requires
            self.wf(),
            word_index(addr) < MEMORY_WORDS,
        ensures
            r == spec_u32_to_i32(self@[word_index(addr)]),
    {
        proof {
            lemma_word_shift(addr);
        }
        u32_to_i32(self.values[(addr >> 2) as usize])
    }

    /// Writes `value` to the word that holds address `addr`.
    pub fn store_word(&mut self, addr: Address, value: Word)
        requires
            old(self).wf(),
            word_index(addr) < MEMORY_WORDS,
        ensures
            final(self).wf(),
            final(self)@ == old(self)@.update(word_index(addr), spec_i32_to_u32(value)),
    {
        proof {
            lemma_word_shift(addr);
        }
        self.values.set((addr >> 2) as usize, i32_to_u32(value));
    }

    /// The line of words from the word that holds `addr` on.
    pub fn get_cache_line(&self, addr: Address) -> (r: [MemoryValue; 16])
        requires
            self.wf(),
            addr as int + 60 <= u32::MAX,
            word_index(addr) + 16 <= MEMORY_WORDS,
        ensures
            r@ == self@.subrange(word_index(addr), word_index(addr) + 16),
    {
        let mut line: [MemoryValue; 16] = [0; 16];
        let mut i: usize = 0;
        while i < LINE_WORDS
            invariant
                self.wf(),
                addr as int + 60 <= u32::MAX,
                word_index(addr) + 16 <= MEMORY_WORDS,
                i <= 16,
                forall|j: int| 0 <= j < i ==> line@[j] == self@[word_index(addr) + j],
            decreases 16 - i,
        {
            let a = addr + i as Address * 4;
            assert(word_index(a) == word_index(addr) + i);
            line[i] = i32_to_u32(self.load_word(a));
            i += 1;
        }
        assert(line@ =~= self@.subrange(word_index(addr), word_index(addr) + 16));
        line
    }

    /// Writes each word of `line` to the word that holds its address, in order.
    pub fn set_cache_line(&mut self, line: [(Address, MemoryValue); 16])
        requires
            old(self).wf(),
            forall|j: int| 0 <= j < 16 ==> word_index(#[trigger] line@[j].0) < MEMORY_WORDS,
        ensures
            final(self).wf(),
            final(self)@ == store_line(old(self)@, line@),
    {
        let mut i: usize = 0;
        while i < LINE_WORDS
            invariant
                self.wf(),
                i <= 16,
                forall|j: int| 0 <= j < 16 ==> word_index(#[trigger] line@[j].0) < MEMORY_WORDS,
                self@ == store_line(old(self)@, line@.subrange(0, i as int)),
            decreases 16 - i,
        {
            let (addr, value) = line[i];
            self.store_word(addr, u32_to_i32(value));
            assert(line@.subrange(0, i + 1).drop_last() =~= line@.subrange(0, i as int));
            i += 1;
        }
        assert(line@.subrange(0, 16) =~= line@);
    }
}

} // verus!
