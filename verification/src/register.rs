use vstd::prelude::*;
use crate::types::Int;
use crate::fpu::FloatingPoint;

verus! {

/// An integer register.
#[derive(Copy, Clone)]
pub struct IntRegister {
    pub value: Int,
}

impl IntRegister {
    /// A register that holds 0.
    pub fn new() -> (r: Self)
        ensures
            r.value == 0,
    {
        IntRegister { value: 0 }
    }

    /// Makes the register hold `value`.
    pub fn set(&mut self, value: Int)
        ensures
            final(self).value == value,
    {
        self.value = value;
    }

    /// The value that the register holds.
    pub fn get(&self) -> (r: Int)
        ensures
            r == self.value,
    {
        self.value
    }
}

/// A floating-point register, holding the bits of a single-precision number.
#[derive(Copy, Clone)]
pub struct FloatRegister {
    pub value: FloatingPoint,
}

impl FloatRegister {
    /// A register that holds +0.
    pub fn new() -> (r: Self)
        ensures
            r.value.value == 0,
    {
        FloatRegister { value: FloatingPoint::new(0) }
    }

    /// Makes the register hold `value`.
    pub fn set(&mut self, value: FloatingPoint)
        ensures
            final(self).value == value,
    {
        self.value = value;
    }

    /// The value that the register holds.
    pub fn get(&self) -> (r: FloatingPoint)
        ensures
            r == self.value,
    {
        self.value
    }
}

} // verus!
