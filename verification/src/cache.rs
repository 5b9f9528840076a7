use vstd::prelude::*;
use indexmap::IndexMap;
use crate::types::{Address, CacheIndex, Tag, UByte, UHalf, Word};
use crate::utils::{i32_to_u32, u32_to_i32, spec_i32_to_u32, spec_u32_to_i32};

verus! {

/// The size of the cache in bytes.
pub const CACHE_SIZE: usize = 2 * 128 * 1024;

/// The number of ways of each set.
pub const WAY_NUM: usize = 2;

/// The size of a line in bytes.
pub const LINE_SIZE: usize = 64;

/// The number of lines of the cache.
pub const TOTAL_LINE_NUM: usize = 4096;

/// The number of sets of the cache.
pub const LINE_NUM: usize = 2048;

/// A line of the cache: its state bits, its tag and its bytes.
#[derive(Clone, Copy, Debug)]
pub struct CacheLine {
    pub valid: bool,
    pub dirty: bool,
    pub accessed: bool,
    pub tag: Tag,
    pub value: [UByte; 64],
}

/// The answer of the cache to an access: a hit (with the value read, for a read), or a
/// miss.
pub enum CacheAccess {
    HitSet,
    HitUByte(UByte),
    HitUHalf(UHalf),
    HitWord(Word),
    Miss,
}

#[verifier::external_type_specification]
#[verifier::external_body]
#[verifier::reject_recursive_types(K)]
#[verifier::reject_recursive_types(V)]
#[verifier::reject_recursive_types(S)]
pub struct ExIndexMap<K, V, S>(IndexMap<K, V, S>);

/// The entries of a set of the cache, in the order the map keeps them: the least
/// recently used line first.
pub uninterp spec fn set_entries(m: IndexMap<Tag, CacheLine>) -> Seq<(Tag, CacheLine)>;

/// Whether the entries `s` hold the key `k`.
pub open spec fn has_key(s: Seq<(Tag, CacheLine)>, k: Tag) -> bool {
    exists|i: int| 0 <= i < s.len() && s[i].0 == k
}

/// The position of key `k` among the entries `s` (meaningful when `has_key(s, k)`).
pub open spec fn key_index(s: Seq<(Tag, CacheLine)>, k: Tag) -> int {
    choose|i: int| 0 <= i < s.len() && s[i].0 == k
}

/// The entries `s` after removing the one at `i` by moving the last one into its place.
pub open spec fn swap_removed(s: Seq<(Tag, CacheLine)>, i: int) -> Seq<(Tag, CacheLine)> {
    s.update(i, s.last()).drop_last()
}

/// `IndexMap::with_capacity`: a map with no entries.
#[verifier::external_body]
fn set_with_capacity(n: usize) -> (m: IndexMap<Tag, CacheLine>)
    ensures
        set_entries(m) == Seq::<(Tag, CacheLine)>::empty(),
{
    IndexMap::with_capacity(n)
}

/// `IndexMap::insert`: an existing key keeps its place and takes the new value;
/// a new key goes last. Gives the value the key had.
#[verifier::external_body]
fn set_insert(m: &mut IndexMap<Tag, CacheLine>, key: Tag, value: CacheLine) -> (r: Option<CacheLine>)
    ensures
        has_key(set_entries(*old(m)), key) ==> forall|i: int|
            0 <= i < set_entries(*old(m)).len() && set_entries(*old(m))[i].0 == key ==> set_entries(*final(m))
                == set_entries(*old(m)).update(i, (key, value)) && r == Some(set_entries(*old(m))[i].1),
        !has_key(set_entries(*old(m)), key) ==> set_entries(*final(m)) == set_entries(*old(m)).push((key, value))
            && r is None,
{
    m.insert(key, value)
}

/// `IndexMap::swap_remove`: removes the entry of the key, moving the last entry into its
/// place. Gives the value the key had.
#[verifier::external_body]
fn set_swap_remove(m: &mut IndexMap<Tag, CacheLine>, key: &Tag) -> (r: Option<CacheLine>)
    ensures
        has_key(set_entries(*old(m)), *key) ==> forall|i: int|
            0 <= i < set_entries(*old(m)).len() && set_entries(*old(m))[i].0 == *key ==> set_entries(*final(m))
                == swap_removed(set_entries(*old(m)), i) && r == Some(set_entries(*old(m))[i].1),
        !has_key(set_entries(*old(m)), *key) ==> set_entries(*final(m)) == set_entries(*old(m)) && r is None,
{
    m.swap_remove(key)
}

/// `IndexMap::get`: the value of the key, if the map holds it.
#[verifier::external_body]
fn set_get<'a>(m: &'a IndexMap<Tag, CacheLine>, key: &Tag) -> (r: Option<&'a CacheLine>)
    ensures
        r is Some <==> has_key(set_entries(*m), *key),
        r is Some ==> forall|i: int|
            0 <= i < set_entries(*m).len() && set_entries(*m)[i].0 == *key ==> set_entries(*m)[i].1 == *r->0,
{
    m.get(key)
}

/// `IndexMap::len`: the number of entries.
#[verifier::external_body]
fn set_len(m: &IndexMap<Tag, CacheLine>) -> (r: usize)
    ensures
        r == set_entries(*m).len(),
{
    m.len()
}

/// The first key of the map, through `IndexMap::keys`.
#[verifier::external_body]
fn set_first_key(m: &IndexMap<Tag, CacheLine>) -> (r: Option<Tag>)
    ensures
        set_entries(*m).len() == 0 ==> r is None,
        set_entries(*m).len() > 0 ==> r == Some(set_entries(*m)[0].0),
{
    m.keys().next().cloned()
}

/// An entry of a set is well formed: the line's tag is its key; the line of the
/// placeholder key `u32::MAX` is invalid and clean; other keys are tags of addresses
/// and their lines are valid; a dirty line is valid.
pub open spec fn entry_wf(e: (Tag, CacheLine)) -> bool {
    &&& e.1.tag == e.0
    &&& e.0 == u32::MAX ==> !e.1.valid && !e.1.dirty
    &&& e.0 != u32::MAX ==> e.0 < 0x8000 && e.1.valid
    &&& e.1.dirty ==> e.1.valid
}

/// A set is well formed: at most two entries, no key twice, each entry well formed.
pub open spec fn set_wf(s: Seq<(Tag, CacheLine)>) -> bool {
    &&& s.len() <= WAY_NUM
    &&& forall|i: int, j: int| 0 <= i < j < s.len() ==> s[i].0 != s[j].0
    &&& forall|i: int| 0 <= i < s.len() ==> entry_wf(#[trigger] s[i])
}

/// The tag of an address: its 15 high bits.
pub open spec fn tag_of(addr: Address) -> Tag {
    addr / 0x2_0000
}

/// The set of an address: bits 6..17.
pub open spec fn index_of(addr: Address) -> int {
    ((addr / 64) % 2048) as int
}

/// The place of an address within its line: its 6 low bits.
pub open spec fn offset_of(addr: Address) -> int {
    (addr % 64) as int
}

/// The set `s` after an access to the line of key `k` at position `i`: the entry
/// leaves its place (the last one moves into it) and comes back last with `line`.
pub open spec fn touched(s: Seq<(Tag, CacheLine)>, i: int, line: CacheLine) -> Seq<(Tag, CacheLine)> {
    swap_removed(s, i).push((s[i].0, line))
}

/// The line of the set `s` that holds the tag `tag` and is valid, if any.
pub open spec fn valid_hit(s: Seq<(Tag, CacheLine)>, tag: Tag) -> bool {
    has_key(s, tag) && s[key_index(s, tag)].1.valid
}

/// A line after a read hit: accessed and valid.
pub open spec fn read_touched(line: CacheLine) -> CacheLine {
    CacheLine { valid: true, accessed: true, ..line }
}

/// A line after a write hit with bytes `value`: dirty, accessed and valid.
pub open spec fn write_touched(line: CacheLine, value: [UByte; 64]) -> CacheLine {
    CacheLine { valid: true, dirty: true, accessed: true, value, ..line }
}

/// The sets after a read hit at `addr`.
pub open spec fn after_read_hit(sets: Seq<Seq<(Tag, CacheLine)>>, addr: Address) -> Seq<Seq<(Tag, CacheLine)>> {
    let s = sets[index_of(addr)];
    let i = key_index(s, tag_of(addr));
    sets.update(index_of(addr), touched(s, i, read_touched(s[i].1)))
}

/// The sets after a write hit at `addr` that leaves the line with bytes `value`.
pub open spec fn after_write_hit(sets: Seq<Seq<(Tag, CacheLine)>>, addr: Address, value: [UByte; 64]) -> Seq<
    Seq<(Tag, CacheLine)>,
> {
    let s = sets[index_of(addr)];
    let i = key_index(s, tag_of(addr));
    sets.update(index_of(addr), touched(s, i, write_touched(s[i].1, value)))
}

/// The line that holds `addr` (meaningful on a hit).
pub open spec fn hit_line(sets: Seq<Seq<(Tag, CacheLine)>>, addr: Address) -> CacheLine {
    let s = sets[index_of(addr)];
    s[key_index(s, tag_of(addr))].1
}

/// The byte at `addr` in the line that holds it (meaningful on a hit).
pub open spec fn hit_byte(sets: Seq<Seq<(Tag, CacheLine)>>, addr: Address, k: int) -> UByte {
    hit_line(sets, addr).value@[offset_of(addr) + k]
}

/// The bytes of a line after writing the `n` low bytes of `value`, lowest first, from
/// `offset` on.
pub open spec fn bytes_written(bytes: [UByte; 64], offset: int, value: u32, n: int) -> Seq<UByte> {
    Seq::new(64, |j: int| if offset <= j < offset + n { ((value >> ((8 * (j - offset)) as u32)) & 0xff) as UByte } else { bytes@[j] })
}

/// The little-endian value of the `n` bytes of `b` from `off` on (for `n <= 4`).
pub open spec fn le_bytes(b: Seq<UByte>, off: int, n: int) -> int {
    if n <= 0 {
        0
    } else if n == 1 {
        b[off] as int
    } else if n == 2 {
        b[off] + b[off + 1] * 0x100
    } else if n == 3 {
        b[off] + b[off + 1] * 0x100 + b[off + 2] * 0x1_0000
    } else {
        b[off] + b[off + 1] * 0x100 + b[off + 2] * 0x1_0000 + b[off + 3] * 0x100_0000
    }
}

/// The address of the first byte of the line with tag `tag` in set `index`.
pub open spec fn line_base(tag: Tag, index: int) -> int {
    tag * 0x2_0000 + index * 64
}

/// The bytes of `line`, each with its address, for the line of set `index`.
pub open spec fn line_bytes(line: CacheLine, index: int) -> Seq<(Address, UByte)> {
    Seq::new(64, |j: int| ((line_base(line.tag, index) + j) as Address, line.value@[j]))
}

/// The line that `set_line` brings in for `addr` with bytes `bytes`.
pub open spec fn fresh_line(addr: Address, bytes: [UByte; 64]) -> CacheLine {
    CacheLine { valid: true, dirty: false, accessed: true, tag: tag_of(addr), value: bytes }
}

/// The sets after bringing in the line of `addr` with bytes `bytes`: when its set is
/// full, the least recently used line (the first) leaves it; the new line comes last.
pub open spec fn after_set_line(sets: Seq<Seq<(Tag, CacheLine)>>, addr: Address, bytes: [UByte; 64]) -> Seq<
    Seq<(Tag, CacheLine)>,
> {
    let s = sets[index_of(addr)];
    let kept = if s.len() >= WAY_NUM { swap_removed(s, 0) } else { s };
    sets.update(index_of(addr), kept.push((tag_of(addr), fresh_line(addr, bytes))))
}

/// The bytes, with their addresses, of the line that bringing in the line of `addr`
/// evicts, when that line is dirty.
pub open spec fn evicted_by_set_line(sets: Seq<Seq<(Tag, CacheLine)>>, addr: Address) -> Option<Seq<(Address, UByte)>> {
    let s = sets[index_of(addr)];
    if s.len() >= WAY_NUM && s[0].1.dirty {
        Some(line_bytes(s[0].1, index_of(addr)))
    } else {
        None
    }
}

/// The data cache: a set-associative cache with two ways per set and lines of 64
/// bytes, which replaces the least recently used line of a set.
pub struct Cache {
    values: Vec<IndexMap<Tag, CacheLine>>,
    way_num: usize,
    tag_bit_num: usize,
    index_bit_num: usize,
    offset_bit_num: usize,
}

impl Cache {
    /// The entries of each set.
    pub closed spec fn sets(&self) -> Seq<Seq<(Tag, CacheLine)>> {
        Seq::new(self.values@.len(), |i: int| set_entries(self.values@[i]))
    }

    /// Whether the cache is well formed: 2048 well-formed sets of two ways, with 15 tag
    /// bits, 11 index bits and 6 offset bits.
    pub closed spec fn wf(&self) -> bool {
        &&& self.values@.len() == LINE_NUM
        &&& self.way_num == WAY_NUM
        &&& self.tag_bit_num == 15
        &&& self.index_bit_num == 11
        &&& self.offset_bit_num == 6
        &&& forall|i: int| 0 <= i < LINE_NUM ==> set_wf(#[trigger] set_entries(self.values@[i]))
    }

    /// Whether all sets are well formed.
    pub open spec fn sets_wf(sets: Seq<Seq<(Tag, CacheLine)>>) -> bool {
        &&& sets.len() == LINE_NUM
        &&& forall|i: int| 0 <= i < LINE_NUM ==> set_wf(#[trigger] sets[i])
    }

    pub proof fn lemma_wf_sets(&self)
        requires
            self.wf(),
        ensures
            Self::sets_wf(self.sets()),
            self.sets().len() == LINE_NUM,
    {
        assert forall|i: int| 0 <= i < LINE_NUM implies set_wf(#[trigger] self.sets()[i]) by {
            assert(self.sets()[i] == set_entries(self.values@[i]));
        }
    }
}


/// The line that an empty way of the cache holds when the cache is made.
pub open spec fn empty_line() -> CacheLine {
    CacheLine { valid: false, dirty: false, accessed: false, tag: u32::MAX, value: vstd::array::spec_array_fill_for_copy_type::<u8, 64>(0u8) }
}

/// A set that misses a tag holds no line under it: every line of a set other than the
/// placeholder is valid.
pub proof fn lemma_miss_has_no_key(s: Seq<(Tag, CacheLine)>, addr: Address)
    requires
        set_wf(s),
        !valid_hit(s, tag_of(addr)),
    ensures
        !has_key(s, tag_of(addr)),
{
    assert(addr / 0x2_0000 < 0x8000) by (nonlinear_arith);
    if has_key(s, tag_of(addr)) {
        let i = choose|i: int| 0 <= i < s.len() && s[i].0 == tag_of(addr);
        assert(entry_wf(s[i]));
        assert forall|j: int| 0 <= j < s.len() && s[j].0 == tag_of(addr) implies j == i by {}
    }
}

/// After an access that hits at `addr` and leaves the line as `line` (valid, under the
/// tag of `addr`), the line that holds `addr` is `line`, and it is the most recently
/// used of its set.
pub proof fn lemma_hit_after_touch(sets: Seq<Seq<(Tag, CacheLine)>>, addr: Address, line: CacheLine)
    requires
        Cache::sets_wf(sets),
        valid_hit(sets[index_of(addr)], tag_of(addr)),
        line.valid,
        line.tag == tag_of(addr),
    ensures
        ({
            let s = sets[index_of(addr)];
            let after = sets.update(index_of(addr), touched(s, key_index(s, tag_of(addr)), line));
            &&& valid_hit(after[index_of(addr)], tag_of(addr))
            &&& hit_line(after, addr) == line
            &&& Cache::sets_wf(after)
        }),
{
    let i = index_of(addr);
    let s = sets[i];
    let idx = key_index(s, tag_of(addr));
    assert(set_wf(s));
    assert(addr / 0x2_0000 < 0x8000) by (nonlinear_arith);
    lemma_touched_wf(s, idx, line);
    let t = touched(s, idx, line);
    lemma_key_index(t, tag_of(addr), t.len() - 1);
    let after = sets.update(i, t);
    assert forall|j: int| 0 <= j < LINE_NUM implies set_wf(#[trigger] after[j]) by {
        if j != i {
            assert(after[j] == sets[j]);
        }
    }
}

/// After the line of `addr` comes into a set that did not hold it, that line holds
/// `addr` and is the most recently used of its set.
pub proof fn lemma_hit_after_set_line(sets: Seq<Seq<(Tag, CacheLine)>>, addr: Address, bytes: [UByte; 64])
    requires
        Cache::sets_wf(sets),
        !has_key(sets[index_of(addr)], tag_of(addr)),
    ensures
        valid_hit(after_set_line(sets, addr, bytes)[index_of(addr)], tag_of(addr)),
        hit_line(after_set_line(sets, addr, bytes), addr) == fresh_line(addr, bytes),
        Cache::sets_wf(after_set_line(sets, addr, bytes)),
{
    let i = index_of(addr);
    let s = sets[i];
    assert(set_wf(s));
    assert(addr / 0x2_0000 < 0x8000) by (nonlinear_arith);
    let kept = if s.len() >= WAY_NUM { swap_removed(s, 0) } else { s };
    if s.len() >= WAY_NUM {
        lemma_swap_removed(s, 0);
        assert(!has_key(kept, tag_of(addr)));
    }
    assert(set_wf(kept));
    let t = kept.push((tag_of(addr), fresh_line(addr, bytes)));
    assert forall|a: int, b: int| 0 <= a < b < t.len() implies t[a].0 != t[b].0 by {
        if b == t.len() - 1 {
            assert(t[a] == kept[a]);
            if kept[a].0 == tag_of(addr) {
                assert(has_key(kept, tag_of(addr)));
            }
        } else {
            assert(t[a] == kept[a] && t[b] == kept[b]);
        }
    }
    assert forall|a: int| 0 <= a < t.len() implies entry_wf(#[trigger] t[a]) by {
        if a < t.len() - 1 {
            assert(t[a] == kept[a]);
        }
    }
    assert(set_wf(t));
    lemma_key_index(t, tag_of(addr), t.len() - 1);
    let after = after_set_line(sets, addr, bytes);
    assert(after[i] == t);
    assert forall|j: int| 0 <= j < LINE_NUM implies set_wf(#[trigger] after[j]) by {
        if j != i {
            assert(after[j] == sets[j]);
        }
    }
}

pub proof fn lemma_swap_removed(s: Seq<(Tag, CacheLine)>, i: int)
    requires
        set_wf(s),
        0 <= i < s.len(),
    ensures
        swap_removed(s, i).len() == s.len() - 1,
        forall|j: int| 0 <= j < s.len() - 1 ==> #[trigger] swap_removed(s, i)[j] == (if j == i { s.last() } else { s[j] }),
        !has_key(swap_removed(s, i), s[i].0),
        forall|k: Tag| k != s[i].0 ==> (has_key(swap_removed(s, i), k) <==> has_key(s, k)),
        set_wf(swap_removed(s, i)),
{
    let r = swap_removed(s, i);
    assert forall|j: int| 0 <= j < s.len() - 1 implies #[trigger] r[j] == (if j == i { s.last() } else { s[j] }) by {}
    assert forall|k: Tag| k != s[i].0 implies (has_key(r, k) <==> has_key(s, k)) by {
        if has_key(s, k) {
            let j = choose|j: int| 0 <= j < s.len() && s[j].0 == k;
            if j == s.len() - 1 {
                if i != j {
                    assert(r[i].0 == k);
                }
            } else {
                assert(r[j].0 == k);
            }
        }
        if has_key(r, k) {
            let j = choose|j: int| 0 <= j < r.len() && r[j].0 == k;
            if j == i {
                assert(s[s.len() - 1].0 == k);
            } else {
                assert(s[j].0 == k);
            }
        }
    }
    assert forall|a: int, b: int| 0 <= a < b < r.len() implies r[a].0 != r[b].0 by {
        let sa = if a == i { s.len() - 1 } else { a };
        let sb = if b == i { s.len() - 1 } else { b };
        assert(r[a] == s[sa] && r[b] == s[sb]);
    }
    assert forall|a: int| 0 <= a < r.len() implies entry_wf(#[trigger] r[a]) by {
        let sa = if a == i { s.len() - 1 } else { a };
        assert(r[a] == s[sa]);
    }
}

pub proof fn lemma_key_index(s: Seq<(Tag, CacheLine)>, k: Tag, i: int)
    requires
        set_wf(s),
        0 <= i < s.len(),
        s[i].0 == k,
    ensures
        has_key(s, k),
        key_index(s, k) == i,
{
    assert(has_key(s, k));
    let j = key_index(s, k);
    if j != i {
        if j < i {
            assert(s[j].0 != s[i].0);
        } else {
            assert(s[i].0 != s[j].0);
        }
    }
}

pub proof fn lemma_touched_wf(s: Seq<(Tag, CacheLine)>, i: int, line: CacheLine)
    requires
        set_wf(s),
        0 <= i < s.len(),
        entry_wf((s[i].0, line)),
    ensures
        set_wf(touched(s, i, line)),
{
    lemma_swap_removed(s, i);
    let r = swap_removed(s, i);
    let t = touched(s, i, line);
    assert forall|a: int, b: int| 0 <= a < b < t.len() implies t[a].0 != t[b].0 by {
        if b == t.len() - 1 {
            assert(t[a] == r[a]);
            if r[a].0 == s[i].0 {
                assert(has_key(r, s[i].0));
            }
        } else {
            assert(t[a] == r[a] && t[b] == r[b]);
        }
    }
    assert forall|a: int| 0 <= a < t.len() implies entry_wf(#[trigger] t[a]) by {
        if a < t.len() - 1 {
            assert(t[a] == r[a]);
        }
    }
}

/// After the access that moves the entry at `i` to the end of its set with `line`, every
/// other key of the set keeps its entry.
pub proof fn lemma_touched_keeps_others(s: Seq<(Tag, CacheLine)>, i: int, line: CacheLine, t: Tag)
    requires
        set_wf(s),
        0 <= i < s.len(),
        entry_wf((s[i].0, line)),
        t != s[i].0,
    ensures
        has_key(touched(s, i, line), t) == has_key(s, t),
        has_key(s, t) ==> touched(s, i, line)[key_index(touched(s, i, line), t)] == s[key_index(s, t)],
{
    lemma_swap_removed(s, i);
    lemma_touched_wf(s, i, line);
    let r = swap_removed(s, i);
    let u = touched(s, i, line);
    if has_key(s, t) {
        let k = key_index(s, t);
        let p = if k == s.len() - 1 { i } else { k };
        assert(u[p] == s[k]);
        lemma_key_index(u, t, p);
    }
    if has_key(u, t) {
        let j = choose|j: int| 0 <= j < u.len() && u[j].0 == t;
        assert(j < r.len());
        assert(has_key(r, t));
    }
}

/// Bringing in the line of `addr` keeps the entry of every other key of its set, but for
/// the least recently used one when the set is full.
pub proof fn lemma_set_line_keeps_others(sets: Seq<Seq<(Tag, CacheLine)>>, addr: Address, bytes: [UByte; 64], t: Tag)
    requires
        Cache::sets_wf(sets),
        !has_key(sets[index_of(addr)], tag_of(addr)),
        t != tag_of(addr),
    ensures
        ({
            let s = sets[index_of(addr)];
            let u = after_set_line(sets, addr, bytes)[index_of(addr)];
            &&& has_key(u, t) == (has_key(s, t) && !(s.len() >= WAY_NUM && s[0].0 == t))
            &&& has_key(u, t) ==> u[key_index(u, t)] == s[key_index(s, t)]
        }),
{
    let i = index_of(addr);
    let s = sets[i];
    assert(set_wf(s));
    lemma_hit_after_set_line(sets, addr, bytes);
    let u = after_set_line(sets, addr, bytes)[i];
    assert(set_wf(u));
    let full = s.len() >= WAY_NUM;
    let kept = if full { swap_removed(s, 0) } else { s };
    if full {
        lemma_swap_removed(s, 0);
    }
    if has_key(s, t) && !(full && s[0].0 == t) {
        let k = key_index(s, t);
        let p = if full { if k == s.len() - 1 { 0 } else { k } } else { k };
        assert(kept[p] == s[k]);
        assert(u[p] == kept[p]);
        lemma_key_index(u, t, p);
    }
    if has_key(u, t) {
        let j = choose|j: int| 0 <= j < u.len() && u[j].0 == t;
        assert(j < kept.len());
        assert(has_key(kept, t));
        if full {
            assert(!has_key(kept, s[0].0));
        }
    }
}

/// The cache replaces the least recently used line of a set: right after an access that
/// hits the line of `a`, bringing in the line of another address `b` of the same set keeps
/// the line of `a`, unchanged; when the set was full, the other line leaves.
pub proof fn lemma_recently_used_line_stays(
    sets: Seq<Seq<(Tag, CacheLine)>>,
    a: Address,
    line: CacheLine,
    b: Address,
    bytes: [UByte; 64],
)
    requires
        Cache::sets_wf(sets),
        valid_hit(sets[index_of(a)], tag_of(a)),
        line.valid,
        line.tag == tag_of(a),
        index_of(b) == index_of(a),
        !has_key(sets[index_of(a)], tag_of(b)),
    ensures
        ({
            let i = index_of(a);
            let s = sets[i];
            let accessed = sets.update(i, touched(s, key_index(s, tag_of(a)), line));
            let after = after_set_line(accessed, b, bytes);
            &&& valid_hit(after[i], tag_of(a))
            &&& hit_line(after, a) == line
            &&& valid_hit(after[i], tag_of(b))
            &&& (s.len() == WAY_NUM ==> after[i].len() == WAY_NUM)
        }),
{
    let i = index_of(a);
    let s = sets[i];
    let ta = tag_of(a);
    let tb = tag_of(b);
    let idx = key_index(s, ta);
    assert(set_wf(s));
    assert(a / 0x2_0000 < 0x8000) by (nonlinear_arith);
    lemma_hit_after_touch(sets, a, line);
    let accessed = sets.update(i, touched(s, idx, line));
    let t = accessed[i];
    lemma_touched_wf(s, idx, line);
    lemma_swap_removed(s, idx);
    assert(ta != tb) by {
        if ta == tb {
            assert(has_key(s, tb));
        }
    }
    lemma_touched_keeps_others(s, idx, line, tb);
    assert(!has_key(t, tb));
    lemma_set_line_keeps_others(accessed, b, bytes, ta);
    lemma_hit_after_set_line(accessed, b, bytes);
    lemma_key_index(t, ta, t.len() - 1);
    if t.len() >= WAY_NUM {
        assert(t[0].0 != t[t.len() - 1].0);
    }
}

impl Cache {
    /// A cache whose every set holds one invalid line under the placeholder key
    /// `u32::MAX`.
    pub fn new() -> (r: Self)
        ensures
            r.wf(),
            forall|i: int| 0 <= i < LINE_NUM ==> #[trigger] r.sets()[i] == seq![(u32::MAX, empty_line())],
    {
        let mut values: Vec<IndexMap<Tag, CacheLine>> = Vec::new();
        let mut k: usize = 0;
        while k < LINE_NUM
            invariant
                k <= LINE_NUM,
                values@.len() == k,
                forall|i: int| 0 <= i < k ==> #[trigger] set_entries(values@[i]) == seq![(u32::MAX, empty_line())],
            decreases LINE_NUM - k,
        {
            let mut map = set_with_capacity(WAY_NUM);
            let mut w: usize = 0;
            while w < WAY_NUM
                invariant
                    w <= WAY_NUM,
                    w == 0 ==> set_entries(map) == Seq::<(Tag, CacheLine)>::empty(),
                    w > 0 ==> set_entries(map) == seq![(u32::MAX, empty_line())],
                decreases WAY_NUM - w,
            {
                let line = CacheLine { valid: false, dirty: false, accessed: false, tag: u32::MAX, value: [0; 64] };
                assert(line == empty_line());
                proof {
                    if w > 0 {
                        assert(set_entries(map)[0].0 == u32::MAX);
                        assert(has_key(set_entries(map), u32::MAX));
                        assert(set_entries(map).update(0, (u32::MAX, empty_line())) =~= seq![(u32::MAX, empty_line())]);
                    } else {
                        assert(!has_key(set_entries(map), u32::MAX));
                        assert(set_entries(map).push((u32::MAX, empty_line())) =~= seq![(u32::MAX, empty_line())]);
                    }
                }
                set_insert(&mut map, u32::MAX, line);
                w += 1;
            }
            values.push(map);
            k += 1;
        }
        let index_bit_num = log2_of_power_of_two(LINE_NUM as u32);
        let offset_bit_num = log2_of_power_of_two(LINE_SIZE as u32);
        let tag_bit_num = 32 - index_bit_num - offset_bit_num;
        let r = Cache { values, way_num: WAY_NUM, tag_bit_num, index_bit_num, offset_bit_num };
        assert forall|i: int| 0 <= i < LINE_NUM implies set_wf(#[trigger] set_entries(r.values@[i])) by {
            assert(set_entries(r.values@[i]) == seq![(u32::MAX, empty_line())]);
        }
        r
    }

    /// The number of offset bits of an address: 6.
    pub fn get_offset_bit_num(&self) -> (r: usize)
        requires
            self.wf(),
        ensures
            r == 6,
    {
        self.offset_bit_num
    }

    fn get_tag(&self, addr: Address) -> (r: Tag)
        requires
            self.wf(),
        ensures
            r == tag_of(addr),
    {
        proof {
            lemma_address_field_bits(addr);
        }
        addr >> (32 - self.tag_bit_num) as Tag
    }

    fn get_index(&self, addr: Address) -> (r: CacheIndex)
        requires
            self.wf(),
        ensures
            r == index_of(addr),
            r < LINE_NUM,
    {
        proof {
            lemma_address_field_bits(addr);
        }
        ((addr << self.tag_bit_num) >> (32 - self.index_bit_num)) as CacheIndex
    }

    fn get_offset(&self, addr: Address) -> (r: usize)
        requires
            self.wf(),
        ensures
            r == offset_of(addr),
            r < 64,
    {
        proof {
            lemma_address_field_bits(addr);
        }
        ((addr << (self.tag_bit_num + self.index_bit_num)) >> (32 - self.offset_bit_num)) as usize
    }

    fn get_status(&self, addr: Address) -> (r: (Tag, CacheIndex, usize))
        requires
            self.wf(),
        ensures
            r == (tag_of(addr), index_of(addr) as usize, offset_of(addr) as usize),
            r.1 < LINE_NUM,
            r.2 < 64,
    {
        let tag = self.get_tag(addr);
        let index = self.get_index(addr);
        let offset = self.get_offset(addr);
        (tag, index, offset)
    }

    /// The line of the set `index` that holds `tag`, copied out.
    fn find_line(&self, tag: Tag, index: CacheIndex) -> (r: Option<CacheLine>)
        requires
            self.wf(),
            index < LINE_NUM,
        ensures
            r is Some <==> has_key(self.sets()[index as int], tag),
            r is Some ==> r->0 == self.sets()[index as int][key_index(self.sets()[index as int], tag)].1,
    {
        let ghost s = self.sets()[index as int];
        assert(s == set_entries(self.values@[index as int]));
        match set_get(&self.values[index], &tag) {
            Some(line) => {
                proof {
                    let i = key_index(s, tag);
                    assert(0 <= i < s.len() && s[i].0 == tag);
                }
                Some(*line)
            },
            None => None,
        }
    }

    /// Whether a valid line of the cache holds `addr`: whether an access there hits.
    pub fn has_valid_line(&self, addr: Address) -> (r: bool)
        requires
            self.wf(),
        ensures
            r == valid_hit(self.sets()[index_of(addr)], tag_of(addr)),
    {
        let (tag, index, _) = self.get_status(addr);
        match self.find_line(tag, index) {
            Some(line) => line.valid,
            None => false,
        }
    }

    /// Puts `cache_line` last in its set, under `tag`.
    fn replace_last(&mut self, cache_line: CacheLine, tag: Tag, index: CacheIndex)
        requires
            old(self).wf(),
            index < LINE_NUM,
            has_key(old(self).sets()[index as int], tag),
            entry_wf((tag, cache_line)),
        ensures
            final(self).wf(),
            final(self).sets() == old(self).sets().update(
                index as int,
                touched(old(self).sets()[index as int], key_index(old(self).sets()[index as int], tag), cache_line),
            ),
    {
        let ghost s = old(self).sets()[index as int];
        let ghost i = key_index(s, tag);
        proof {
            assert(s == set_entries(old(self).values@[index as int]));
            assert(set_wf(s));
            lemma_swap_removed(s, i);
        }
        set_swap_remove(&mut self.values[index], &tag);
        assert(set_entries(self.values@[index as int]) == swap_removed(s, i));
        set_insert(&mut self.values[index], tag, cache_line);
        assert(set_entries(self.values@[index as int]) == touched(s, i, cache_line));
        proof {
            lemma_touched_wf(s, i, cache_line);
            assert(self.sets() =~= old(self).sets().update(index as int, touched(s, i, cache_line)));
            assert forall|j: int| 0 <= j < LINE_NUM implies set_wf(#[trigger] set_entries(self.values@[j])) by {
                if j != index {
                    assert(set_entries(self.values@[j]) == old(self).sets()[j]);
                    assert(set_wf(set_entries(old(self).values@[j])));
                }
            }
        }
    }

    fn update_on_get(&mut self, cache_line: &CacheLine, tag: Tag, index: CacheIndex)
        requires
            old(self).wf(),
            index < LINE_NUM,
            has_key(old(self).sets()[index as int], tag),
            *cache_line == old(self).sets()[index as int][key_index(old(self).sets()[index as int], tag)].1,
            cache_line.valid,
        ensures
            final(self).wf(),
            final(self).sets() == old(self).sets().update(
                index as int,
                touched(old(self).sets()[index as int], key_index(old(self).sets()[index as int], tag), read_touched(*cache_line)),
            ),
    {
        proof {
            let s = old(self).sets()[index as int];
            assert(s == set_entries(old(self).values@[index as int]));
            assert(entry_wf(s[key_index(s, tag)]));
        }
        let mut cache_line = *cache_line;
        cache_line.accessed = true;
        cache_line.valid = true;
        self.replace_last(cache_line, tag, index);
    }

    fn update_on_set(&mut self, cache_line: CacheLine, tag: Tag, index: CacheIndex)
        requires
            old(self).wf(),
            index < LINE_NUM,
            has_key(old(self).sets()[index as int], tag),
            cache_line.tag == old(self).sets()[index as int][key_index(old(self).sets()[index as int], tag)].1.tag,
            old(self).sets()[index as int][key_index(old(self).sets()[index as int], tag)].1.valid,
        ensures
            final(self).wf(),
            final(self).sets() == old(self).sets().update(
                index as int,
                touched(
                    old(self).sets()[index as int],
                    key_index(old(self).sets()[index as int], tag),
                    CacheLine { dirty: true, accessed: true, valid: true, ..cache_line },
                ),
            ),
    {
        proof {
            let s = old(self).sets()[index as int];
            assert(s == set_entries(old(self).values@[index as int]));
            assert(entry_wf(s[key_index(s, tag)]));
        }
        let mut cache_line = cache_line;
        cache_line.dirty = true;
        cache_line.accessed = true;
        cache_line.valid = true;
        self.replace_last(cache_line, tag, index);
    }

    /// Reads the byte at `addr`: a hit when a valid line of its set holds it (that line
    /// then becomes the most recently used), else a miss that changes nothing.
    pub fn get_ubyte(&mut self, addr: Address) -> (r: CacheAccess)
        requires
            old(self).wf(),
        ensures
            final(self).wf(),
            valid_hit(old(self).sets()[index_of(addr)], tag_of(addr)) ==> final(self).sets() == after_read_hit(
                old(self).sets(),
                addr,
            ) && r == CacheAccess::HitUByte(hit_byte(old(self).sets(), addr, 0)),
            !valid_hit(old(self).sets()[index_of(addr)], tag_of(addr)) ==> final(self).sets() == old(self).sets()
                && r is Miss,
    {
        let (tag, index, offset) = self.get_status(addr);
        let cache_line = self.find_line(tag, index);
        match cache_line {
            Some(cache_line) => {
                if !cache_line.valid {
                    return CacheAccess::Miss;
                }
                let value = cache_line.value[offset];
                self.update_on_get(&cache_line, tag, index);
                CacheAccess::HitUByte(value)
            },
            None => CacheAccess::Miss,
        }
    }

    /// Reads the two bytes from `addr` on, lowest first: a hit when a valid line of its
    /// set holds `addr` (that line then becomes the most recently used), else a miss
    /// that changes nothing.
    pub fn get_uhalf(&mut self, addr: Address) -> (r: CacheAccess)
        requires
            old(self).wf(),
            valid_hit(old(self).sets()[index_of(addr)], tag_of(addr)) ==> offset_of(addr) + 2 <= 64,
        ensures
            final(self).wf(),
            valid_hit(old(self).sets()[index_of(addr)], tag_of(addr)) ==> final(self).sets() == after_read_hit(
                old(self).sets(),
                addr,
            ) && r == CacheAccess::HitUHalf(
                le_bytes(hit_line(old(self).sets(), addr).value@, offset_of(addr), 2) as UHalf,
            ),
            !valid_hit(old(self).sets()[index_of(addr)], tag_of(addr)) ==> final(self).sets() == old(self).sets()
                && r is Miss,
    {
        let (tag, index, offset) = self.get_status(addr);
        let cache_line = self.find_line(tag, index);
        match cache_line {
            Some(cache_line) => {
                if !cache_line.valid {
                    return CacheAccess::Miss;
                }
                let mut value: UHalf = 0;
                let mut i: usize = 0;
                while i < 2
                    invariant
                        i <= 2,
                        offset + 2 <= 64,
                        value as int == le_bytes(cache_line.value@, offset as int, i as int),
                    decreases 2 - i,
                {
                    let b = cache_line.value[offset + i];
                    proof {
                        lemma_byte_shift_u16(b, i);
                    }
                    value += (b as UHalf) << ((8 * i) as u16);
                    i += 1;
                }
                self.update_on_get(&cache_line, tag, index);
                CacheAccess::HitUHalf(value)
            },
            None => CacheAccess::Miss,
        }
    }

    /// Reads the word of the four bytes from `addr` on, lowest first: a hit when a valid
    /// line of its set holds `addr` (that line then becomes the most recently used),
    /// else a miss that changes nothing.
    pub fn get_word(&mut self, addr: Address) -> (r: CacheAccess)
        requires
            old(self).wf(),
            valid_hit(old(self).sets()[index_of(addr)], tag_of(addr)) ==> offset_of(addr) + 4 <= 64,
        ensures
            final(self).wf(),
            valid_hit(old(self).sets()[index_of(addr)], tag_of(addr)) ==> final(self).sets() == after_read_hit(
                old(self).sets(),
                addr,
            ) && r == CacheAccess::HitWord(
                spec_u32_to_i32(le_bytes(hit_line(old(self).sets(), addr).value@, offset_of(addr), 4) as u32),
            ),
            !valid_hit(old(self).sets()[index_of(addr)], tag_of(addr)) ==> final(self).sets() == old(self).sets()
                && r is Miss,
    {
        let (tag, index, offset) = self.get_status(addr);
        let cache_line = self.find_line(tag, index);
        match cache_line {
            Some(cache_line) => {
                if !cache_line.valid {
                    return CacheAccess::Miss;
                }
                let mut value: u32 = 0;
                let mut i: usize = 0;
                while i < 4
                    invariant
                        i <= 4,
                        offset + 4 <= 64,
                        value as int == le_bytes(cache_line.value@, offset as int, i as int),
                    decreases 4 - i,
                {
                    let b = cache_line.value[offset + i];
                    proof {
                        lemma_byte_shift(b, i as u32);
                    }
                    value += (b as u32) << ((8 * i) as u32);
                    i += 1;
                }
                self.update_on_get(&cache_line, tag, index);
                CacheAccess::HitWord(u32_to_i32(value))
            },
            None => CacheAccess::Miss,
        }
    }

    /// Brings in the line of `addr` with bytes `line`, which no line of its set holds:
    /// when the set is full, its least recently used line leaves it, and its bytes come
    /// back with their addresses when it is dirty.
    pub fn set_line(&mut self, addr: Address, line: [UByte; 64]) -> (r: Option<[(Address, UByte); 64]>)
        requires
            old(self).wf(),
            !has_key(old(self).sets()[index_of(addr)], tag_of(addr)),
        ensures
            final(self).wf(),
            final(self).sets() == after_set_line(old(self).sets(), addr, line),
            evicted_by_set_line(old(self).sets(), addr) is None ==> r is None,
            evicted_by_set_line(old(self).sets(), addr) is Some ==> r is Some && r->0@ == evicted_by_set_line(
                old(self).sets(),
                addr,
            )->0,
    {
        let tag = self.get_tag(addr);
        let index = self.get_index(addr);
        let ghost s = old(self).sets()[index as int];
        proof {
            assert(s == set_entries(self.values@[index as int]));
            assert(set_wf(s));
            lemma_address_field_bits(addr);
        }
        let mut dirty_line_evicted = false;
        let mut evicted_values: [(Address, UByte); 64] = [(0, 0); 64];
        if set_len(&self.values[index]) >= self.way_num {
            let lru_key = set_first_key(&self.values[index]);
            if let Some(k) = lru_key {
                proof {
                    lemma_key_index(s, k, 0);
                    lemma_swap_removed(s, 0);
                }
                let cache_line = self.find_line(k, index).unwrap();
                if cache_line.dirty {
                    dirty_line_evicted = true;
                    assert(cache_line.tag < 0x8000);
                    let ctag = cache_line.tag;
                    proof {
                        lemma_line_base_bits(ctag, index);
                    }
                    let base = (cache_line.tag << (self.index_bit_num + self.offset_bit_num)) as Address + (index
                        << self.offset_bit_num) as Address;
                    assert(base == line_base(cache_line.tag, index as int));
                    let mut i: usize = 0;
                    while i < LINE_SIZE
                        invariant
                            i <= 64,
                            base == line_base(cache_line.tag, index as int),
                            cache_line.tag < 0x8000,
                            index < 2048,
                            forall|j: int| 0 <= j < i ==> #[trigger] evicted_values@[j] == line_bytes(cache_line, index as int)[j],
                        decreases 64 - i,
                    {
                        evicted_values[i] = (base + i as Address, cache_line.value[i]);
                        i += 1;
                    }
                    assert(evicted_values@ =~= line_bytes(cache_line, index as int));
                }
                set_swap_remove(&mut self.values[index], &k);
            }
        }
        let ghost kept = set_entries(self.values@[index as int]);
        assert(kept == (if s.len() >= WAY_NUM { swap_removed(s, 0) } else { s }));
        assert(set_wf(kept));
        assert(!has_key(kept, tag)) by {
            if s.len() >= WAY_NUM {
                lemma_swap_removed(s, 0);
            }
        }
        let new_line = CacheLine { valid: true, dirty: false, accessed: true, tag, value: line };
        assert(new_line == fresh_line(addr, line));
        set_insert(&mut self.values[index], tag, new_line);
        proof {
            let t = kept.push((tag, new_line));
            assert(set_entries(self.values@[index as int]) == t);
            assert forall|a: int, b: int| 0 <= a < b < t.len() implies t[a].0 != t[b].0 by {
                if b == t.len() - 1 {
                    assert(t[a] == kept[a]);
                }
            }
            assert forall|a: int| 0 <= a < t.len() implies entry_wf(#[trigger] t[a]) by {
                if a < t.len() - 1 {
                    assert(t[a] == kept[a]);
                }
            }
            assert(set_wf(t));
            assert(self.sets() =~= after_set_line(old(self).sets(), addr, line));
            assert forall|jj: int| 0 <= jj < LINE_NUM implies set_wf(#[trigger] set_entries(self.values@[jj])) by {
                if jj != index {
                    assert(set_entries(self.values@[jj]) == old(self).sets()[jj]);
                    assert(set_wf(set_entries(old(self).values@[jj])));
                }
            }
        }
        if dirty_line_evicted {
            Some(evicted_values)
        } else {
            None
        }
    }

    /// Writes the byte `value` at `addr`: a hit when a valid line of its set holds it
    /// (that line then becomes dirty and the most recently used), else a miss that
    /// changes nothing.
    pub fn set_ubyte(&mut self, addr: Address, value: UByte) -> (r: CacheAccess)
        requires
            old(self).wf(),
        ensures
            final(self).wf(),
            valid_hit(old(self).sets()[index_of(addr)], tag_of(addr)) ==> r is HitSet && final(self).sets()
                == after_write_hit(old(self).sets(), addr, final(self).sets()[index_of(addr)].last().1.value)
                && final(self).sets()[index_of(addr)].last().1.value@ == bytes_written(
                hit_line(old(self).sets(), addr).value,
                offset_of(addr),
                value as u32,
                1,
            ),
            !valid_hit(old(self).sets()[index_of(addr)], tag_of(addr)) ==> final(self).sets() == old(self).sets()
                && r is Miss,
    {
        let (tag, index, offset) = self.get_status(addr);
        let cache_line = self.find_line(tag, index);
        match cache_line {
            Some(cache_line) => {
                if !cache_line.valid {
                    return CacheAccess::Miss;
                }
                let mut cache_line = cache_line;
                cache_line.value[offset] = value;
                proof {
                    lemma_byte_extract_bits(value, 0, 0);
                }
                assert(cache_line.value@ =~= bytes_written(hit_line(old(self).sets(), addr).value, offset as int, value as u32, 1));
                self.update_on_set(cache_line, tag, index);
                CacheAccess::HitSet
            },
            None => CacheAccess::Miss,
        }
    }

    /// Writes the two bytes of `value`, lowest first, from `addr` on: a hit when a valid
    /// line of its set holds `addr` (that line then becomes dirty and the most recently
    /// used), else a miss that changes nothing.
    pub fn set_uhalf(&mut self, addr: Address, value: UHalf) -> (r: CacheAccess)
        requires
            old(self).wf(),
            valid_hit(old(self).sets()[index_of(addr)], tag_of(addr)) ==> offset_of(addr) + 2 <= 64,
        ensures
            final(self).wf(),
            valid_hit(old(self).sets()[index_of(addr)], tag_of(addr)) ==> r is HitSet && final(self).sets()
                == after_write_hit(old(self).sets(), addr, final(self).sets()[index_of(addr)].last().1.value)
                && final(self).sets()[index_of(addr)].last().1.value@ == bytes_written(
                hit_line(old(self).sets(), addr).value,
                offset_of(addr),
                value as u32,
                2,
            ),
            !valid_hit(old(self).sets()[index_of(addr)], tag_of(addr)) ==> final(self).sets() == old(self).sets()
                && r is Miss,
    {
        let (tag, index, offset) = self.get_status(addr);
        let cache_line = self.find_line(tag, index);
        match cache_line {
            Some(cache_line) => {
                let mut cache_line = cache_line;
                if !cache_line.valid {
                    return CacheAccess::Miss;
                }
                let ghost orig = cache_line.value;
                let ghost orig_line = cache_line;
                let mut i: usize = 0;
                while i < 2
                    invariant
                        i <= 2,
                        cache_line.tag == orig_line.tag,
                        cache_line.valid == orig_line.valid,
                        offset + 2 <= 64,
                        forall|j: int| 0 <= j < 64 ==> #[trigger] cache_line.value@[j] == (if offset <= j < offset + i {
                            ((value as u32 >> ((8 * (j - offset)) as u32)) & 0xff) as UByte
                        } else {
                            orig@[j]
                        }),
                    decreases 2 - i,
                {
                    let ghost before = cache_line.value;
                    proof {
                        lemma_byte_extract_bits(0, value, i);
                    }
                    cache_line.value[offset + i] = ((value >> ((i * 8) as u16)) & 0xff) as UByte;
                    i += 1;
                }
                assert(cache_line.value@ =~= bytes_written(orig, offset as int, value as u32, 2));
                self.update_on_set(cache_line, tag, index);
                CacheAccess::HitSet
            },
            None => CacheAccess::Miss,
        }
    }

    /// Writes the four bytes of `value`, lowest first, from `addr` on: a hit when a valid
    /// line of its set holds `addr` (that line then becomes dirty and the most recently
    /// used), else a miss that changes nothing.
    pub fn set_word(&mut self, addr: Address, value: Word) -> (r: CacheAccess)
        requires
            old(self).wf(),
            valid_hit(old(self).sets()[index_of(addr)], tag_of(addr)) ==> offset_of(addr) + 4 <= 64,
        ensures
            final(self).wf(),
            valid_hit(old(self).sets()[index_of(addr)], tag_of(addr)) ==> r is HitSet && final(self).sets()
                == after_write_hit(old(self).sets(), addr, final(self).sets()[index_of(addr)].last().1.value)
                && final(self).sets()[index_of(addr)].last().1.value@ == bytes_written(
                hit_line(old(self).sets(), addr).value,
                offset_of(addr),
                spec_i32_to_u32(value),
                4,
            ),
            !valid_hit(old(self).sets()[index_of(addr)], tag_of(addr)) ==> final(self).sets() == old(self).sets()
                && r is Miss,
    {
        let (tag, index, offset) = self.get_status(addr);
        let cache_line = self.find_line(tag, index);
        match cache_line {
            Some(cache_line) => {
                let value = i32_to_u32(value);
                let mut cache_line = cache_line;
                if !cache_line.valid {
                    return CacheAccess::Miss;
                }
                let ghost orig = cache_line.value;
                let ghost orig_line = cache_line;
                let mut i: usize = 0;
                while i < 4
                    invariant
                        i <= 4,
                        cache_line.tag == orig_line.tag,
                        cache_line.valid == orig_line.valid,
                        offset + 4 <= 64,
                        forall|j: int| 0 <= j < 64 ==> #[trigger] cache_line.value@[j] == (if offset <= j < offset + i {
                            ((value >> ((8 * (j - offset)) as u32)) & 0xff) as UByte
                        } else {
                            orig@[j]
                        }),
                    decreases 4 - i,
                {
                    cache_line.value[offset + i] = ((value >> ((i * 8) as u32)) & 0xff) as UByte;
                    i += 1;
                }
                assert(cache_line.value@ =~= bytes_written(orig, offset as int, value, 4));
                self.update_on_set(cache_line, tag, index);
                CacheAccess::HitSet
            },
            None => CacheAccess::Miss,
        }
    }
}

proof fn lemma_address_field_bits(addr: Address)
    by (bit_vector)
    ensures
        addr >> 17u32 == addr / 0x2_0000,
        (addr << 15u32) >> 21u32 == (addr / 64) % 2048,
        (addr << 26u32) >> 26u32 == addr % 64,
        addr / 0x2_0000 < 0x8000,
{
}

proof fn lemma_line_base_bits(tag: u32, index: usize)
    by (bit_vector)
    ensures
        tag < 0x8000 ==> tag << 17usize == tag * 0x2_0000,
        index < 2048 ==> index << 6usize == index * 64,
{
}

proof fn lemma_byte_shift_u16(b: u8, i: usize)
    by (bit_vector)
    ensures
        i < 2 ==> (b as UHalf) << ((8 * i) as u16) == b * (if i == 0 { 1u16 } else { 0x100u16 }),
{
}

/// A byte shifted left by `8 * k` bits, for `k < 4`, is the byte times `256^k`.
pub proof fn lemma_byte_shift(b: u8, k: u32)
    by (bit_vector)
    ensures
        k < 4 ==> (b as u32) << (8 * k) == b * (if k == 0 {
            1u32
        } else if k == 1 {
            0x100u32
        } else if k == 2 {
            0x1_0000u32
        } else {
            0x100_0000u32
        }),
        k < 4 ==> (b as u32) << (k * 8) == (b as u32) << (8 * k),
{
}

proof fn lemma_byte_extract_bits(value: u8, half: u16, i: usize)
    by (bit_vector)
    ensures
        ((value as u32 >> 0u32) & 0xff) as u8 == value,
        i < 2 ==> ((half >> ((i * 8) as u16)) & 0xff) as u8 == ((half as u32 >> ((8 * i) as u32)) & 0xff) as u8,
{
}

proof fn lemma_power_of_two_bits(n: u32)
    by (bit_vector)
    ensures
        n == 64 ==> (n >> 6u32) & 1 == 1 && (n >> 5u32) & 1 == 0 && (n >> 4u32) & 1 == 0 && (n >> 3u32) & 1 == 0 && (n
            >> 2u32) & 1 == 0 && (n >> 1u32) & 1 == 0 && (n >> 0u32) & 1 == 0,
        n == 2048 ==> (n >> 11u32) & 1 == 1 && (n >> 10u32) & 1 == 0 && (n >> 9u32) & 1 == 0 && (n >> 8u32) & 1 == 0
            && (n >> 7u32) & 1 == 0 && (n >> 6u32) & 1 == 0 && (n >> 5u32) & 1 == 0 && (n >> 4u32) & 1 == 0 && (n
            >> 3u32) & 1 == 0 && (n >> 2u32) & 1 == 0 && (n >> 1u32) & 1 == 0 && (n >> 0u32) & 1 == 0,
        forall|x: u32, j: u32| j > 11 && (x == 64 || x == 2048) ==> #[trigger] ((x >> j) & 1) == 0,
{
}

/// The base-2 logarithm of a power of two up to 2^11.
fn log2_of_power_of_two(n: u32) -> (r: usize)
    requires
        n == 64 || n == 2048,
    ensures
        n == 64 ==> r == 6,
        n == 2048 ==> r == 11,
{
    let t = n.trailing_zeros();
    proof {
        vstd::std_specs::bits::axiom_u32_trailing_zeros(n);
        lemma_power_of_two_bits(n);
        let tt = t;
        assert((n >> tt) & 1 == 1);
    }
    t as usize
}
} // verus!
