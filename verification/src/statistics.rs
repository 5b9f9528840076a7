use vstd::prelude::*;
use fxhash::FxHashMap;
use crate::decoder::Instruction;
use crate::instruction::{create_instruction_struct, created, get_name, inst_name, is_supported_instruction};
use crate::types::Address;

verus! {

#[verifier::external_type_specification]
#[verifier::external_body]
pub struct ExFxHasher(fxhash::FxHasher);

#[verifier::external_type_specification]
#[verifier::external_body]
#[verifier::reject_recursive_types(H)]
pub struct ExBuildHasherDefault<H>(std::hash::BuildHasherDefault<H>);

/// What a table of counts by instruction name holds, each name taken as its characters.
pub uninterp spec fn name_counts(m: FxHashMap<String, usize>) -> Map<Seq<char>, usize>;

/// `HashMap::default` for the fetch counts: a new table is empty.
#[verifier::external_body]
fn new_fetch_counts() -> (r: FxHashMap<Address, (Instruction, usize)>)
    ensures
        r@.dom() == Set::<Address>::empty(),
{
    FxHashMap::default()
}

/// `HashMap::get` on the fetch counts, the entry copied out: the entry at `pc`, if any.
#[verifier::external_body]
fn fetch_count_at(m: &FxHashMap<Address, (Instruction, usize)>, pc: Address) -> (r: Option<(Instruction, usize)>)
    ensures
        match r {
            Some(entry) => m@.dom().contains(pc) && m@[pc] == entry,
            None => !m@.dom().contains(pc),
        },
{
    m.get(&pc).copied()
}

/// `HashMap::insert` on the fetch counts: afterwards `pc` maps to `entry`, and every other
/// address to what it mapped to before.
#[verifier::external_body]
fn set_fetch_count(m: &mut FxHashMap<Address, (Instruction, usize)>, pc: Address, entry: (Instruction, usize))
    ensures
        final(m)@ == old(m)@.insert(pc, entry),
{
    m.insert(pc, entry);
}

/// `HashMap::iter` over the fetch counts, each entry copied out: every entry once. The
/// order, that of the table, is left unsaid.
#[verifier::external_body]
fn fetch_count_entries(m: &FxHashMap<Address, (Instruction, usize)>) -> (r: Vec<(Address, (Instruction, usize))>)
    ensures
        forall|i: int| 0 <= i < r.len() ==> m@.dom().contains(#[trigger] r[i].0) && m@[r[i].0] == r[i].1,
        forall|pc: Address| m@.dom().contains(pc) ==> exists|i: int| 0 <= i < r.len() && #[trigger] r[i].0 == pc,
        forall|i: int, j: int| 0 <= i < j < r.len() ==> r[i].0 != r[j].0,
{
    m.iter().map(|(pc, entry)| (*pc, *entry)).collect()
}

/// `HashMap::default` for the counts by name: a new table is empty.
#[verifier::external_body]
fn new_name_counts() -> (r: FxHashMap<String, usize>)
    ensures
        name_counts(r).dom() == Set::<Seq<char>>::empty(),
{
    FxHashMap::default()
}

/// `HashMap::get` on the counts by name: the count of the name that has the characters of
/// `name`, if any.
#[verifier::external_body]
fn name_count_of(m: &FxHashMap<String, usize>, name: &String) -> (r: Option<usize>)
    ensures
        match r {
            Some(n) => name_counts(*m).dom().contains(name@) && name_counts(*m)[name@] == n,
            None => !name_counts(*m).dom().contains(name@),
        },
{
    m.get(name).copied()
}

/// `HashMap::insert` on the counts by name: afterwards the name maps to `n`, and every
/// other name to what it mapped to before.
#[verifier::external_body]
fn set_name_count(m: &mut FxHashMap<String, usize>, name: String, n: usize)
    ensures
        name_counts(*final(m)) == name_counts(*old(m)).insert(name@, n),
{
    m.insert(name, n);
}

/// `HashMap::iter` over the counts by name, each entry copied out: every entry once. The
/// order, that of the table, is left unsaid.
#[verifier::external_body]
fn name_count_entries(m: &FxHashMap<String, usize>) -> (r: Vec<(String, usize)>)
    ensures
        forall|i: int|
            0 <= i < r.len() ==> name_counts(*m).dom().contains(#[trigger] r[i].0@) && name_counts(*m)[r[i].0@] == r[i].1,
        forall|name: Seq<char>|
            name_counts(*m).dom().contains(name) ==> exists|i: int| 0 <= i < r.len() && #[trigger] r[i].0@ == name,
        forall|i: int, j: int| 0 <= i < j < r.len() ==> r[i].0@ != r[j].0@,
{
    m.iter().map(|(name, n)| (name.clone(), *n)).collect()
}

/// The fetch counts after an instruction that decodes to `decoded` is fetched at `pc`: the
/// count there goes up by one (wrapping around), and an address seen for the first time
/// keeps `decoded` as its instruction.
pub open spec fn counted_fetch(
    stats: Map<Address, (Instruction, usize)>,
    pc: Address,
    decoded: Instruction,
) -> Map<Address, (Instruction, usize)> {
    if stats.dom().contains(pc) {
        stats.insert(pc, (stats[pc].0, vstd::wrapping::usize_specs::wrapping_add(stats[pc].1, 1)))
    } else {
        stats.insert(pc, (decoded, 1))
    }
}

/// The counts by name after one more instruction named `name` (wrapping around).
pub open spec fn counted_name(stats: Map<Seq<char>, usize>, name: Seq<char>) -> Map<Seq<char>, usize> {
    if stats.dom().contains(name) {
        stats.insert(name, vstd::wrapping::usize_specs::wrapping_add(stats[name], 1))
    } else {
        stats.insert(name, 1)
    }
}

/// The counts of fetches by address, each with the instruction first decoded there.
pub struct FetchCounts {
    table: FxHashMap<Address, (Instruction, usize)>,
}

impl View for FetchCounts {
    type V = Map<Address, (Instruction, usize)>;

    closed spec fn view(&self) -> Map<Address, (Instruction, usize)> {
        self.table@
    }
}

impl FetchCounts {
    /// No fetch counted yet.
    pub fn new() -> (r: Self)
        ensures
            r@ == Map::<Address, (Instruction, usize)>::empty(),
    {
        let r = FetchCounts { table: new_fetch_counts() };
        assert(r@ =~= Map::<Address, (Instruction, usize)>::empty());
        r
    }

    /// Counts a fetch at `pc` of an instruction that decodes to `decoded`.
    pub fn count(&mut self, pc: Address, decoded: Instruction)
        ensures
            final(self)@ == counted_fetch(old(self)@, pc, decoded),
    {
        match fetch_count_at(&self.table, pc) {
            Some((first, n)) => set_fetch_count(&mut self.table, pc, (first, n.wrapping_add(1))),
            None => set_fetch_count(&mut self.table, pc, (decoded, 1)),
        }
    }

    /// Every counted address with its entry, each once, in no stated order.
    pub fn entries(&self) -> (r: Vec<(Address, (Instruction, usize))>)
        ensures
            forall|i: int| 0 <= i < r.len() ==> self@.dom().contains(#[trigger] r[i].0) && self@[r[i].0] == r[i].1,
            forall|pc: Address| self@.dom().contains(pc) ==> exists|i: int| 0 <= i < r.len() && #[trigger] r[i].0 == pc,
            forall|i: int, j: int| 0 <= i < j < r.len() ==> r[i].0 != r[j].0,
    {
        fetch_count_entries(&self.table)
    }

    /// The counted addresses with their counts, most fetched first, each with the name of
    /// the instruction first decoded there; `None` when one of those is an instruction
    /// the machine does not have.
    pub fn report(&self) -> (r: Option<Vec<(Address, String, usize)>>)
        ensures
            r is None <==> exists|pc: Address| self@.dom().contains(pc) && #[trigger] created(self@[pc].0) is None,
            r matches Some(v) ==> {
                &&& forall|i: int|
                    0 <= i < v.len() ==> self@.dom().contains(#[trigger] v[i].0) && v[i].2 == self@[v[i].0].1
                        && created(self@[v[i].0].0) is Some && v[i].1@ == inst_name(created(self@[v[i].0].0)->0)
                &&& forall|pc: Address| self@.dom().contains(pc) ==> exists|i: int| 0 <= i < v.len() && #[trigger] v[i].0 == pc
                &&& forall|i: int, j: int| 0 <= i < j < v.len() ==> v[i].0 != v[j].0 && v[i].2 >= v[j].2
            },
    {
        let entries = self.entries();
        let mut counts: Vec<usize> = Vec::new();
        let mut i: usize = 0;
        while i < entries.len()
            invariant
                i <= entries.len(),
                counts.len() == i,
                forall|k: int| 0 <= k < i ==> counts[k] == entries[k].1.1,
                forall|k: int| 0 <= k < i ==> created(#[trigger] entries[k].1.0) is Some,
                forall|k: int|
                    0 <= k < entries.len() ==> self@.dom().contains(#[trigger] entries[k].0) && self@[entries[k].0]
                        == entries[k].1,
            decreases entries.len() - i,
        {
            if !is_supported_instruction(entries[i].1.0) {
                assert(self@.dom().contains(entries[i as int].0));
                assert(created(self@[entries[i as int].0].0) is None);
                return None;
            }
            counts.push(entries[i].1.1);
            i += 1;
        }
        assert forall|pc: Address| self@.dom().contains(pc) implies created(#[trigger] self@[pc].0) is Some by {
            let k = choose|k: int| 0 <= k < entries.len() && #[trigger] entries[k].0 == pc;
            assert(created(entries[k].1.0) is Some);
        }
        let order = order_by_count(&counts);
        let mut v: Vec<(Address, String, usize)> = Vec::new();
        let mut k: usize = 0;
        while k < order.len()
            invariant
                k <= order.len(),
                v.len() == k,
                is_index_order(order@, entries.len() as nat),
                counts.len() == entries.len(),
                forall|m: int| 0 <= m < entries.len() ==> counts[m] == entries[m].1.1,
                forall|m: int| 0 <= m < entries.len() ==> created(#[trigger] entries[m].1.0) is Some,
                forall|m: int|
                    0 <= m < k ==> v[m].0 == entries[order[m] as int].0 && v[m].2 == entries[order[m] as int].1.1
                        && v[m].1@ == inst_name(created(entries[order[m] as int].1.0)->0),
            decreases order.len() - k,
        {
            let (pc, (decoded, n)) = entries[order[k]];
            assert(created(entries[order[k as int] as int].1.0) is Some);
            let inst = create_instruction_struct(decoded);
            v.push((pc, get_name(&inst), n));
            k += 1;
        }
        assert forall|pc: Address| self@.dom().contains(pc) implies exists|i: int| 0 <= i < v.len() && #[trigger] v[i].0 == pc by {
            let j = choose|j: int| 0 <= j < entries.len() && #[trigger] entries[j].0 == pc;
            assert(lists(order@, j));
            let m = choose|m: int| 0 <= m < order.len() && order[m] == j;
            assert(v[m].0 == pc);
        }
        assert forall|i: int, j: int| 0 <= i < j < v.len() implies v[i].0 != v[j].0 && v[i].2 >= v[j].2 by {
            assert(order[i] != order[j]);
            assert(counts[order[i] as int] >= counts[order[j] as int]);
        }
        Some(v)
    }
}

/// The counts of instructions by name.
pub struct NameCounts {
    table: FxHashMap<String, usize>,
}

impl View for NameCounts {
    type V = Map<Seq<char>, usize>;

    closed spec fn view(&self) -> Map<Seq<char>, usize> {
        name_counts(self.table)
    }
}

impl NameCounts {
    /// No instruction counted yet.
    pub fn new() -> (r: Self)
        ensures
            r@ == Map::<Seq<char>, usize>::empty(),
    {
        let r = NameCounts { table: new_name_counts() };
        assert(r@ =~= Map::<Seq<char>, usize>::empty());
        r
    }

    /// Counts one more instruction named `name`.
    pub fn count(&mut self, name: String)
        ensures
            final(self)@ == counted_name(old(self)@, name@),
    {
        match name_count_of(&self.table, &name) {
            Some(n) => set_name_count(&mut self.table, name, n.wrapping_add(1)),
            None => set_name_count(&mut self.table, name, 1),
        }
    }

    /// Every counted name with its count, each once, in no stated order.
    pub fn entries(&self) -> (r: Vec<(String, usize)>)
        ensures
            forall|i: int| 0 <= i < r.len() ==> self@.dom().contains(#[trigger] r[i].0@) && self@[r[i].0@] == r[i].1,
            forall|name: Seq<char>| self@.dom().contains(name) ==> exists|i: int| 0 <= i < r.len() && #[trigger] r[i].0@ == name,
            forall|i: int, j: int| 0 <= i < j < r.len() ==> r[i].0@ != r[j].0@,
    {
        name_count_entries(&self.table)
    }

    /// The counted names with their counts, most counted first.
    pub fn report(&self) -> (r: Vec<(String, usize)>)
        ensures
            forall|i: int| 0 <= i < r.len() ==> self@.dom().contains(#[trigger] r[i].0@) && self@[r[i].0@] == r[i].1,
            forall|name: Seq<char>| self@.dom().contains(name) ==> exists|i: int| 0 <= i < r.len() && #[trigger] r[i].0@ == name,
            forall|i: int, j: int| 0 <= i < j < r.len() ==> r[i].0@ != r[j].0@ && r[i].1 >= r[j].1,
    {
        let entries = self.entries();
        let mut counts: Vec<usize> = Vec::new();
        let mut i: usize = 0;
        while i < entries.len()
            invariant
                i <= entries.len(),
                counts.len() == i,
                forall|k: int| 0 <= k < i ==> counts[k] == entries[k].1,
            decreases entries.len() - i,
        {
            counts.push(entries[i].1);
            i += 1;
        }
        let order = order_by_count(&counts);
        let mut r: Vec<(String, usize)> = Vec::new();
        let mut k: usize = 0;
        while k < order.len()
            invariant
                k <= order.len(),
                r.len() == k,
                is_index_order(order@, entries.len() as nat),
                counts.len() == entries.len(),
                forall|m: int| 0 <= m < entries.len() ==> counts[m] == entries[m].1,
                forall|m: int| 0 <= m < k ==> r[m].0@ == entries[order[m] as int].0@ && r[m].1 == entries[order[m] as int].1,
            decreases order.len() - k,
        {
            let entry = &entries[order[k]];
            r.push((entry.0.clone(), entry.1));
            k += 1;
        }
        assert forall|name: Seq<char>| self@.dom().contains(name) implies exists|i: int| 0 <= i < r.len() && #[trigger] r[i].0@ == name by {
            let j = choose|j: int| 0 <= j < entries.len() && #[trigger] entries[j].0@ == name;
            assert(lists(order@, j));
            let m = choose|m: int| 0 <= m < order.len() && order[m] == j;
            assert(r[m].0@ == name);
        }
        assert forall|i: int, j: int| 0 <= i < j < r.len() implies r[i].0@ != r[j].0@ && r[i].1 >= r[j].1 by {
            assert(order[i] != order[j]);
            assert(counts[order[i] as int] >= counts[order[j] as int]);
        }
        r
    }
}

/// Whether `order` holds the index `j`.
pub open spec fn lists(order: Seq<usize>, j: int) -> bool {
    exists|k: int| 0 <= k < order.len() && order[k] == j
}

/// Whether `order` lists each index below `n` exactly once.
pub open spec fn is_index_order(order: Seq<usize>, n: nat) -> bool {
    &&& order.len() == n
    &&& forall|k: int| 0 <= k < order.len() ==> #[trigger] order[k] < n
    &&& forall|k: int, l: int| 0 <= k < l < order.len() ==> order[k] != order[l]
    &&& forall|j: int| 0 <= j < n ==> #[trigger] lists(order, j)
}

/// The indices of `counts`, largest count first; indices with equal counts keep their
/// order.
pub fn order_by_count(counts: &Vec<usize>) -> (order: Vec<usize>)
    ensures
        is_index_order(order@, counts.len() as nat),
        forall|k: int, l: int|
            0 <= k < l < order.len() ==> counts[order[k] as int] > counts[order[l] as int] || (counts[order[k] as int]
                == counts[order[l] as int] && order[k] < order[l]),
{
    let mut order: Vec<usize> = Vec::new();
    let mut i: usize = 0;
    while i < counts.len()
        invariant
            i <= counts.len(),
            is_index_order(order@, i as nat),
            forall|k: int, l: int|
                0 <= k < l < order.len() ==> counts[order[k] as int] > counts[order[l] as int] || (counts[order[k] as int]
                    == counts[order[l] as int] && order[k] < order[l]),
        decreases counts.len() - i,
    {
        let c = counts[i];
        let mut pos: usize = 0;
        while pos < order.len() && counts[order[pos]] >= c
            invariant
                pos <= order.len(),
                order.len() == i,
                i < counts.len(),
                c == counts[i as int],
                forall|k: int| 0 <= k < order.len() ==> #[trigger] order[k] < i,
                forall|k: int| 0 <= k < pos ==> counts[#[trigger] order[k] as int] >= c,
            decreases order.len() - pos,
        {
            pos += 1;
        }
        assert(forall|k: int| pos <= k < order.len() ==> counts[#[trigger] order[k] as int] < c) by {
            if pos < order.len() {
                assert forall|k: int| pos <= k < order.len() implies counts[#[trigger] order[k] as int] < c by {
                    if k > pos {
                        assert(counts[order[pos as int] as int] > counts[order[k] as int] || counts[order[pos as int] as int]
                            == counts[order[k] as int]);
                    }
                }
            }
        }
        let ghost old_order = order@;
        order.insert(pos, i);
        assert(order@ == old_order.insert(pos as int, i));
        assert forall|j: int| 0 <= j < i + 1 implies #[trigger] lists(order@, j) by {
            if j == i {
                assert(order[pos as int] == j);
            } else {
                assert(lists(old_order, j));
                let k0 = choose|k: int| 0 <= k < old_order.len() && old_order[k] == j;
                if k0 < pos {
                    assert(order[k0] == j);
                } else {
                    assert(order[k0 + 1] == j);
                }
            }
        }
        i += 1;
    }
    order
}

} // verus!
