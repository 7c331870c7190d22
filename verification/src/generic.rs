//! What the readers and writers of every register have in common

use vstd::prelude::*;
use core::marker::PhantomData;

verus! {

/// The value that a register has after reset
pub trait ResetValue {
    /// The register's size
    type Type;

    /// What `reset_value` returns.
    spec fn spec_reset_value() -> Self::Type;

    /// The reset value of the register
    fn reset_value() -> (value: Self::Type)
        ensures
            value == Self::spec_reset_value(),
    ;
}

/// A value read from a register or from one of its fields. Its view is the
/// raw value.
pub struct R<U, T> {
    bits: U,
    _reg: PhantomData<T>,
}

impl<U, T> View for R<U, T> {
    type V = U;

    closed spec fn view(&self) -> U {
        self.bits
    }
}

impl<U: Copy, T> R<U, T> {
    /// A reader that holds `bits`.
    pub fn new(bits: U) -> (reader: Self)
        ensures
            reader@ == bits,
    {
        R { bits, _reg: PhantomData }
    }

    /// The raw value read.
    pub fn bits(&self) -> (bits: U)
        ensures
            bits == self@,
    {
        self.bits
    }
}

/// A value to be written to a register. Its view is the raw value.
pub struct W<U, REG> {
    bits: U,
    _reg: PhantomData<REG>,
}

impl<U, REG> View for W<U, REG> {
    type V = U;

    closed spec fn view(&self) -> U {
        self.bits
    }
}

impl<U: Copy, REG> W<U, REG> {
    /// A writer that starts from `bits`.
    pub fn new(bits: U) -> (writer: Self)
        ensures
            writer@ == bits,
    {
        W { bits, _reg: PhantomData }
    }

    /// The raw value that would be written.
    pub fn value(&self) -> (bits: U)
        ensures
            bits == self@,
    {
        self.bits
    }

    /// Replaces the raw value.
    pub fn set(&mut self, bits: U)
        ensures
            final(self)@ == bits,
    {
        self.bits = bits;
    }
}

} // verus!
