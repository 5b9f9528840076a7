use vstd::prelude::*;
use crate::fpu::FloatingPoint;
use core::cmp::Ordering;

verus! {

/// The key by which the FPU compares two numbers: their bits read as an unsigned
/// number, where the bits of +0 count as 1.
pub open spec fn order_key(v: u32) -> u32 {
    if v == 0 {
        1
    } else {
        v
    }
}

/// How the FPU orders `x` against `y`: by their order keys.
pub open spec fn fp_order(x: u32, y: u32) -> Ordering {
    if order_key(x) > order_key(y) {
        Ordering::Greater
    } else if order_key(x) < order_key(y) {
        Ordering::Less
    } else {
        Ordering::Equal
    }
}

/// Whether the FPU orders `x` before `y`.
pub open spec fn fp_lt(x: u32, y: u32) -> bool {
    fp_order(x, y) == Ordering::Less
}

/// Whether the FPU orders `x` before `y` or equal to it.
pub open spec fn fp_le(x: u32, y: u32) -> bool {
    fp_order(x, y) == Ordering::Less || fp_order(x, y) == Ordering::Equal
}

impl PartialEq for FloatingPoint {
    fn eq(&self, other: &Self) -> (r: bool) {
        self.value == other.value
    }
}

impl vstd::std_specs::cmp::PartialEqSpecImpl for FloatingPoint {
    open spec fn obeys_eq_spec() -> bool {
        true
    }

    open spec fn eq_spec(&self, other: &Self) -> bool {
        self.value == other.value
    }
}

impl PartialOrd for FloatingPoint {
    fn partial_cmp(&self, other: &Self) -> (r: Option<Ordering>) {
        let mut result = self.value;
        let mut result2 = other.value;
        if result == 0 {
            result = 1;
        }
        if result2 == 0 {
            result2 = 1;
        }
        if result > result2 {
            Some(Ordering::Greater)
        } else if result < result2 {
            Some(Ordering::Less)
        } else {
            Some(Ordering::Equal)
        }
    }
}

impl vstd::std_specs::cmp::PartialOrdSpecImpl for FloatingPoint {
    open spec fn obeys_partial_cmp_spec() -> bool {
        true
    }

    open spec fn partial_cmp_spec(&self, other: &Self) -> Option<Ordering> {
        Some(fp_order(self.value, other.value))
    }
}

/// The FPU's order is antisymmetric and total: comparing the other way round gives
/// the reverse answer, and only numbers with the same order key compare equal.
pub proof fn lemma_fp_order_reverses(x: u32, y: u32)
    ensures
        fp_order(x, y) == Ordering::Less <==> fp_order(y, x) == Ordering::Greater,
        fp_order(x, y) == Ordering::Equal <==> order_key(x) == order_key(y),
{
}

/// The FPU's order is transitive.
pub proof fn lemma_fp_order_transitive(x: u32, y: u32, z: u32)
    requires
        fp_order(x, y) == Ordering::Less,
        fp_order(y, z) == Ordering::Less,
    ensures
        fp_order(x, z) == Ordering::Less,
{
}

} // verus!
