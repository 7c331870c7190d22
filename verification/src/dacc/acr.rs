//! Fields of the analog current register

#![allow(non_camel_case_types)]

use vstd::prelude::*;
use super::ACR;
use crate::generic::ResetValue;

verus! {

/// Reader of register ACR
pub type R = crate::generic::R<u32, ACR>;

/// Writer for register ACR
pub type W = crate::generic::W<u32, ACR>;

/// Register ACR `reset()`'s with value 0
impl ResetValue for ACR {
    type Type = u32;

    open spec fn spec_reset_value() -> u32 {
        0
    }

    fn reset_value() -> (value: u32) {
        0
    }
}

/// Field `IBCTLCH0` of a register value: bits 0 and 1.
pub open spec fn ibctlch0_of(bits: u32) -> u8 {
    (bits % 4) as u8
}

/// Field `IBCTLCH1` of a register value: bits 2 and 3.
pub open spec fn ibctlch1_of(bits: u32) -> u8 {
    (bits / 4 % 4) as u8
}

/// Field `IBCTLDACCORE` of a register value: bits 8 and 9.
pub open spec fn ibctldaccore_of(bits: u32) -> u8 {
    (bits / 256 % 4) as u8
}

/// A register value with field `IBCTLCH0` replaced by the low two bits of
/// `value`.
pub open spec fn with_ibctlch0(bits: u32, value: u8) -> int {
    bits - ibctlch0_of(bits) + value % 4
}

/// A register value with field `IBCTLCH1` replaced by the low two bits of
/// `value`.
pub open spec fn with_ibctlch1(bits: u32, value: u8) -> int {
    bits - 4 * ibctlch1_of(bits) + 4 * (value % 4)
}

/// A register value with field `IBCTLDACCORE` replaced by the low two bits
/// of `value`.
pub open spec fn with_ibctldaccore(bits: u32, value: u8) -> int {
    bits - 256 * ibctldaccore_of(bits) + 256 * (value % 4)
}

/// Reader of field `IBCTLCH0`
pub type IBCTLCH0_R = crate::generic::R<u8, u8>;

/// Write proxy for field `IBCTLCH0`
pub struct IBCTLCH0_W<'a> {
    pub w: &'a mut W,
}

impl<'a> IBCTLCH0_W<'a> {
    /// Writes raw bits to the field: its low two bits replace the field, and
    /// nothing else of the register value changes.
    pub fn bits(self, value: u8) -> (w: &'a mut W)
        ensures
            w@ == with_ibctlch0(old(self.w)@, value),
            *final(w) == *final(self.w),
    {
        let old_bits: u32 = self.w.value();
        let new_bits: u32 = (old_bits & !0x03u32) | ((value as u32) & 0x03);
        assert(new_bits == old_bits - 1 * (old_bits / 1 % 4) + 1 * (value % 4))
            by (bit_vector)
            requires
                new_bits == (old_bits & !0x03u32) | ((value as u32) & 0x03),
        ;
        self.w.set(new_bits);
        self.w
    }
}

/// Reader of field `IBCTLCH1`
pub type IBCTLCH1_R = crate::generic::R<u8, u8>;

/// Write proxy for field `IBCTLCH1`
pub struct IBCTLCH1_W<'a> {
    pub w: &'a mut W,
}

impl<'a> IBCTLCH1_W<'a> {
    /// Writes raw bits to the field: its low two bits replace the field, and
    /// nothing else of the register value changes.
    pub fn bits(self, value: u8) -> (w: &'a mut W)
        ensures
            w@ == with_ibctlch1(old(self.w)@, value),
            *final(w) == *final(self.w),
    {
        let old_bits: u32 = self.w.value();
        let new_bits: u32 = (old_bits & !(0x03u32 << 2)) | (((value as u32) & 0x03) << 2);
        assert(new_bits == old_bits - 4 * (old_bits / 4 % 4) + 4 * (value % 4))
            by (bit_vector)
            requires
                new_bits == (old_bits & !(0x03u32 << 2)) | (((value as u32) & 0x03) << 2),
        ;
        self.w.set(new_bits);
        self.w
    }
}

/// Reader of field `IBCTLDACCORE`
pub type IBCTLDACCORE_R = crate::generic::R<u8, u8>;

/// Write proxy for field `IBCTLDACCORE`
pub struct IBCTLDACCORE_W<'a> {
    pub w: &'a mut W,
}

impl<'a> IBCTLDACCORE_W<'a> {
    /// Writes raw bits to the field: its low two bits replace the field, and
    /// nothing else of the register value changes.
    pub fn bits(self, value: u8) -> (w: &'a mut W)
        ensures
            w@ == with_ibctldaccore(old(self.w)@, value),
            *final(w) == *final(self.w),
    {
        let old_bits: u32 = self.w.value();
        let new_bits: u32 = (old_bits & !(0x03u32 << 8)) | (((value as u32) & 0x03) << 8);
        assert(new_bits == old_bits - 256 * (old_bits / 256 % 4) + 256 * (value % 4))
            by (bit_vector)
            requires
                new_bits == (old_bits & !(0x03u32 << 8)) | (((value as u32) & 0x03) << 8),
        ;
        self.w.set(new_bits);
        self.w
    }
}

impl R {
    /// Bits 0:1 - Analog Output Current Control
    pub fn ibctlch0(&self) -> (field: IBCTLCH0_R)
        ensures
            field@ == ibctlch0_of(self@),
    {
        let bits: u32 = self.bits();
        assert(bits & 0x03 == bits % 4) by (bit_vector);
        IBCTLCH0_R::new((bits & 0x03) as u8)
    }

    /// Bits 2:3 - Analog Output Current Control
    pub fn ibctlch1(&self) -> (field: IBCTLCH1_R)
        ensures
            field@ == ibctlch1_of(self@),
    {
        let bits: u32 = self.bits();
        assert((bits >> 2) & 0x03 == bits / 4 % 4) by (bit_vector);
        IBCTLCH1_R::new(((bits >> 2) & 0x03) as u8)
    }

    /// Bits 8:9 - Bias Current Control for DAC Core
    pub fn ibctldaccore(&self) -> (field: IBCTLDACCORE_R)
        ensures
            field@ == ibctldaccore_of(self@),
    {
        let bits: u32 = self.bits();
        assert((bits >> 8) & 0x03 == bits / 256 % 4) by (bit_vector);
        IBCTLDACCORE_R::new(((bits >> 8) & 0x03) as u8)
    }
}

impl W {
    /// Bits 0:1 - Analog Output Current Control
    pub fn ibctlch0(&mut self) -> (proxy: IBCTLCH0_W<'_>)
        ensures
            *proxy.w == *old(self),
            *final(proxy.w) == *final(self),
    {
        IBCTLCH0_W { w: self }
    }

    /// Bits 2:3 - Analog Output Current Control
    pub fn ibctlch1(&mut self) -> (proxy: IBCTLCH1_W<'_>)
        ensures
            *proxy.w == *old(self),
            *final(proxy.w) == *final(self),
    {
        IBCTLCH1_W { w: self }
    }

    /// Bits 8:9 - Bias Current Control for DAC Core
    pub fn ibctldaccore(&mut self) -> (proxy: IBCTLDACCORE_W<'_>)
        ensures
            *proxy.w == *old(self),
            *final(proxy.w) == *final(self),
    {
        IBCTLDACCORE_W { w: self }
    }
}

/// Writing field `IBCTLCH0` gives a register value in which it reads back as
/// the low two bits of what was written, and the other two fields read as
/// before.
pub proof fn lemma_ibctlch0_reads_back(bits: u32, value: u8)
    ensures
        0 <= with_ibctlch0(bits, value) <= u32::MAX,
        ibctlch0_of(with_ibctlch0(bits, value) as u32) == value % 4,
        ibctlch1_of(with_ibctlch0(bits, value) as u32) == ibctlch1_of(bits),
        ibctldaccore_of(with_ibctlch0(bits, value) as u32) == ibctldaccore_of(bits),
{
    let n: u32 = (bits & !0x03u32) | ((value as u32) & 0x03);
    assert(n == bits - 1 * (bits / 1 % 4) + 1 * (value % 4)) by (bit_vector)
        requires
            n == (bits & !0x03u32) | ((value as u32) & 0x03),
    ;
    assert(n % 4 == value % 4 && n / 4 % 4 == bits / 4 % 4 && n / 256 % 4 == bits / 256 % 4) by (bit_vector)
        requires
            n == (bits & !0x03u32) | ((value as u32) & 0x03),
    ;
}

/// Writing field `IBCTLCH1` gives a register value in which it reads back as
/// the low two bits of what was written, and the other two fields read as
/// before.
pub proof fn lemma_ibctlch1_reads_back(bits: u32, value: u8)
    ensures
        0 <= with_ibctlch1(bits, value) <= u32::MAX,
        ibctlch0_of(with_ibctlch1(bits, value) as u32) == ibctlch0_of(bits),
        ibctlch1_of(with_ibctlch1(bits, value) as u32) == value % 4,
        ibctldaccore_of(with_ibctlch1(bits, value) as u32) == ibctldaccore_of(bits),
{
    let n: u32 = (bits & !(0x03u32 << 2)) | (((value as u32) & 0x03) << 2);
    assert(n == bits - 4 * (bits / 4 % 4) + 4 * (value % 4)) by (bit_vector)
        requires
            n == (bits & !(0x03u32 << 2)) | (((value as u32) & 0x03) << 2),
    ;
    assert(n % 4 == bits % 4 && n / 4 % 4 == value % 4 && n / 256 % 4 == bits / 256 % 4) by (bit_vector)
        requires
            n == (bits & !(0x03u32 << 2)) | (((value as u32) & 0x03) << 2),
    ;
}

/// Writing field `IBCTLDACCORE` gives a register value in which it reads back as
/// the low two bits of what was written, and the other two fields read as
/// before.
pub proof fn lemma_ibctldaccore_reads_back(bits: u32, value: u8)
    ensures
        0 <= with_ibctldaccore(bits, value) <= u32::MAX,
        ibctlch0_of(with_ibctldaccore(bits, value) as u32) == ibctlch0_of(bits),
        ibctlch1_of(with_ibctldaccore(bits, value) as u32) == ibctlch1_of(bits),
        ibctldaccore_of(with_ibctldaccore(bits, value) as u32) == value % 4,
{
    let n: u32 = (bits & !(0x03u32 << 8)) | (((value as u32) & 0x03) << 8);
    assert(n == bits - 256 * (bits / 256 % 4) + 256 * (value % 4)) by (bit_vector)
        requires
            n == (bits & !(0x03u32 << 8)) | (((value as u32) & 0x03) << 8),
    ;
    assert(n % 4 == bits % 4 && n / 4 % 4 == bits / 4 % 4 && n / 256 % 4 == value % 4) by (bit_vector)
        requires
            n == (bits & !(0x03u32 << 8)) | (((value as u32) & 0x03) << 8),
    ;
}

} // verus!
