//! Executable register storage with verified field accessors.
//!
//! `RegisterValue` is the runtime counterpart of the storage type that each
//! per-width base artifact defines: a raw word of a declared width with
//! whole-value accessors. Its field accessors perform, bit for bit, the same
//! mask/shift/sign-extension arithmetic that the synthesized accessor text
//! encodes, so the contracts and laws proved here are proofs about the
//! algorithm the generator emits.

use vstd::arithmetic::power2::lemma2_to64_rest;
use vstd::arithmetic::power2::lemma_pow2_pos;
use vstd::arithmetic::power2::pow2;
use vstd::bits::lemma_u64_shl_is_mul;
use vstd::prelude::*;

use crate::bitfield::field_mask;
use crate::bitfield::field_mask64;
use crate::bitfield::field_value64;
use crate::bitfield::in_signed_range;
use crate::bitfield::lemma_field_mask64_is_low_bits_mask;
use crate::bitfield::lemma_set_field64_bounded;
use crate::bitfield::lemma_sign_extend64;
use crate::bitfield::lemma_signed_field_value64_in_range;
use crate::bitfield::set_field64;
use crate::bitfield::sign_extend64;
use crate::bitfield::signed_field_value64;
use crate::model::Width;

verus! {

/// A raw register value of a declared width. Well-formedness keeps the raw
/// word inside the width: constructors establish it and every method
/// preserves it.
pub struct RegisterValue {
    pub raw: u64,
    pub width: Width,
}

impl RegisterValue {
    /// The raw word never exceeds the all-ones value of the declared width.
    pub open spec fn wf(self) -> bool {
        self.raw <= self.width.spec_max()
    }

    /// A zeroed register of the given width.
    pub fn new(width: Width) -> (r: RegisterValue)
        ensures
            r.width == width,
            r.raw == 0,
            r.wf(),
    {
        RegisterValue { raw: 0, width }
    }

    /// The whole raw word.
    pub fn get_value(&self) -> (r: u64)
        ensures
            r == self.raw,
    {
        self.raw
    }

    /// Resets the whole raw word to zero.
    pub fn clear_value(&mut self)
        ensures
            final(self).raw == 0,
            final(self).width == old(self).width,
            final(self).wf(),
    {
        self.raw = 0;
    }

    /// Overwrites the whole raw word.
    pub fn set_value(&mut self, value: u64)
        requires
            value <= old(self).width.spec_max(),
        ensures
            final(self).raw == value,
            final(self).width == old(self).width,
            final(self).wf(),
    {
        self.raw = value;
    }

    /// Reads the unsigned field at bits `[lsb, msb]`: the raw word shifted
    /// down to the field and masked to the field's width.
    pub fn get_field(&self, lsb: u8, msb: u8) -> (r: u64)
        requires
            self.wf(),
            lsb <= msb < self.width.spec_bits(),
        ensures
            r == field_value64(self.raw, lsb as u64, msb as u64),
            r <= field_mask64(lsb as u64, msb as u64),
            (r as nat) < pow2((msb - lsb + 1) as nat),
    {
        let buffer: u64 = self.raw >> (lsb as u64);
        let mask: u64 = field_mask(self.width, lsb, msb);
        let r: u64 = buffer & mask;
        proof {
            assert(buffer & mask <= mask) by (bit_vector);
            lemma_field_mask64_is_low_bits_mask(lsb as u64, msb as u64);
            lemma_pow2_pos((msb - lsb + 1) as nat);
        }
        r
    }

    /// Reads the signed field at bits `[lsb, msb]`: the extracted bits,
    /// sign-extended from the field's own sign bit, as a two's-complement
    /// value in `[-2^(msb - lsb), 2^(msb - lsb) - 1]`.
    pub fn get_field_signed(&self, lsb: u8, msb: u8) -> (r: i64)
        requires
            self.wf(),
            lsb <= msb < self.width.spec_bits(),
        ensures
            r as int == signed_field_value64(self.raw, lsb as u64, msb as u64),
            in_signed_range(r, (msb - lsb) as nat),
    {
        let buffer: u64 = self.raw >> (lsb as u64);
        let mask: u64 = field_mask(self.width, lsb, msb);
        let extracted: u64 = buffer & mask;
        let fwidth: u8 = msb - lsb;
        let field_raw: u64 = if extracted & (1u64 << (fwidth as u64)) != 0 {
            extracted | !mask
        } else {
            extracted
        };
        let r: i64 = #[verifier::truncate] (field_raw as i64);
        proof {
            let l = lsb as u64;
            let m = msb as u64;
            lemma_sign_extend64(self.raw, l, m);
            assert(r == sign_extend64(self.raw, l, m));
            lemma_signed_field_value64_in_range(self.raw, l, m);
            lemma_field_mask64_is_low_bits_mask(l, m);
            vstd::arithmetic::power2::lemma_pow2_unfold((fwidth + 1) as nat);
            lemma_pow2_pos(fwidth as nat);
            assert(field_mask64(l, m) == 2 * pow2(fwidth as nat) - 1);
            assert(field_mask64(l, m) / 2 == pow2(fwidth as nat) - 1) by (nonlinear_arith)
                requires
                    field_mask64(l, m) == 2 * pow2(fwidth as nat) - 1,
                    pow2(fwidth as nat) >= 1,
            ;
        }
        r
    }

    /// Writes the unsigned field at bits `[lsb, msb]`. Rejects, leaving the
    /// storage unmodified, exactly the values that do not fit in the field;
    /// on success the field holds the value and every bit outside `[lsb, msb]`
    /// is unchanged.
    pub fn set_field(&mut self, lsb: u8, msb: u8, value: u64) -> (r: bool)
        requires
            old(self).wf(),
            lsb <= msb < old(self).width.spec_bits(),
        ensures
            final(self).width == old(self).width,
            final(self).wf(),
            r <==> (value as nat) < pow2((msb - lsb + 1) as nat),
            r ==> final(self).raw == set_field64(old(self).raw, lsb as u64, msb as u64, value),
            !r ==> *final(self) == *old(self),
    {
        let mask: u64 = field_mask(self.width, lsb, msb);
        proof {
            lemma_field_mask64_is_low_bits_mask(lsb as u64, msb as u64);
            lemma_pow2_pos((msb - lsb + 1) as nat);
        }
        if value > mask {
            return false;
        }
        let cleared: u64 = self.raw & !(mask << (lsb as u64));
        self.raw = cleared | (value << (lsb as u64));
        proof {
            let l = lsb as u64;
            let m = msb as u64;
            assert(value <= field_mask64(l, m) ==> ((value & field_mask64(l, m)) << l) == (value
                << l)) by (bit_vector)
                requires
                    l <= m < 64,
            ;
            lemma_set_field64_bounded(
                old(self).raw,
                l,
                m,
                value,
                old(self).width.spec_max(),
            );
        }
        true
    }

    /// Writes the signed field at bits `[lsb, msb]`. Rejects, leaving the
    /// storage unmodified, exactly the values outside the field's
    /// two's-complement range `[-2^(msb - lsb), 2^(msb - lsb) - 1]`; on
    /// success the field holds the value's low bits (sign-extension bits above
    /// the field discarded) and every bit outside `[lsb, msb]` is unchanged.
    pub fn set_field_signed(&mut self, lsb: u8, msb: u8, value: i64) -> (r: bool)
        requires
            old(self).wf(),
            lsb <= msb < old(self).width.spec_bits(),
        ensures
            final(self).width == old(self).width,
            final(self).wf(),
            r <==> in_signed_range(value, (msb - lsb) as nat),
            r ==> final(self).raw == set_field64(
                old(self).raw,
                lsb as u64,
                msb as u64,
                value as u64,
            ),
            !r ==> *final(self) == *old(self),
    {
        let fwidth: u8 = msb - lsb;
        let fw: u64 = fwidth as u64;
        let bound: u64 = 1u64 << fw;
        proof {
            lemma_pow2_pos(fwidth as nat);
            lemma2_to64_rest();
            if (fwidth as nat) < 63 {
                vstd::arithmetic::power2::lemma_pow2_strictly_increases(fwidth as nat, 63);
            }
            lemma_u64_shl_is_mul(1u64, fw);
            assert(value >= 0 ==> ((value as u64) >= (1u64 << fw) <==> !((value as int) < ((1u64
                << fw) as int)))) by (bit_vector)
                requires
                    fw < 64,
            ;
            assert(value < 0 && fw < 63 ==> ((value < -(((1u64 << fw)) as i64)) <==> (value as int)
                < -(((1u64 << fw)) as int))) by (bit_vector)
                requires
                    fw < 64,
            ;
            assert(value < 0 && fw == 63 ==> (value as int) >= -(((1u64 << fw)) as int))
                by (bit_vector);
        }
        if value >= 0 {
            let vu: u64 = #[verifier::truncate] (value as u64);
            if vu >= bound {
                return false;
            }
        } else {
            if fwidth < 63 {
                let neg_bound: i64 = -(#[verifier::truncate] (bound as i64));
                if value < neg_bound {
                    return false;
                }
            }
            // a field spanning the whole word admits every negative value
        }
        let mask: u64 = field_mask(self.width, lsb, msb);
        let cleared: u64 = self.raw & !(mask << (lsb as u64));
        let vbits: u64 = #[verifier::truncate] (value as u64);
        let bits: u64 = vbits & mask;
        self.raw = cleared | (bits << (lsb as u64));
        proof {
            let l = lsb as u64;
            let m = msb as u64;
            lemma_set_field64_bounded(
                old(self).raw,
                l,
                m,
                value as u64,
                old(self).width.spec_max(),
            );
        }
        true
    }
}

} // verus!
