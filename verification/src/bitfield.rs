//! The bit arithmetic behind every synthesized accessor: the mask
//! construction idiom, the meaning of reading and writing a bitfield inside a
//! raw storage word, and the laws (round trips, framing) that the synthesized
//! code obeys.
//!
//! The mask of a field occupying bits `[lsb, msb]` is always built as
//! "all ones of the storage width, shifted right by `width - 1 - (msb - lsb)`"
//! rather than `(1 << (msb - lsb + 1)) - 1`, because the former stays within
//! the storage width's representable range even when the field spans the whole
//! register.

use vstd::arithmetic::div_mod::lemma_fundamental_div_mod_converse;
use vstd::arithmetic::power2::lemma_pow2_adds;
use vstd::arithmetic::power2::lemma_pow2_pos;
use vstd::arithmetic::power2::pow2;
use vstd::bits::lemma_u64_shr_is_div;
use vstd::bits::low_bits_mask;
use vstd::prelude::*;

use crate::model::Width;

verus! {

/// The extraction mask of a field occupying bits `[lsb, msb]`: exactly
/// `msb - lsb + 1` set low bits, built by the shifted-all-ones idiom.
pub open spec fn field_mask64(lsb: u64, msb: u64) -> u64
    recommends
        lsb <= msb < 64,
{
    u64::MAX >> ((63 - (msb - lsb)) as u64)
}

/// The unsigned value held by bits `[lsb, msb]` of `raw`.
pub open spec fn field_value64(raw: u64, lsb: u64, msb: u64) -> u64
    recommends
        lsb <= msb < 64,
{
    (raw >> lsb) & field_mask64(lsb, msb)
}

/// `raw` with bits `[lsb, msb]` replaced by the low bits of `value`: the
/// target range is cleared and the truncated value is shifted in. Bits outside
/// the range are untouched (`lemma_set_field64_effect`).
pub open spec fn set_field64(raw: u64, lsb: u64, msb: u64, value: u64) -> u64
    recommends
        lsb <= msb < 64,
{
    (raw & !(field_mask64(lsb, msb) << lsb)) | ((value & field_mask64(lsb, msb)) << lsb)
}

/// The signed (two's-complement) value held by bits `[lsb, msb]` of `raw`:
/// the field's own top bit is its sign bit.
pub open spec fn signed_field_value64(raw: u64, lsb: u64, msb: u64) -> int
    recommends
        lsb <= msb < 64,
{
    let u = field_value64(raw, lsb, msb);
    let m = field_mask64(lsb, msb);
    if u > m / 2 {
        u - m - 1
    } else {
        u as int
    }
}

/// The bit pattern a signed getter computes: the extracted field, with every
/// bit above the field's own sign bit forced to one when that sign bit is set,
/// reinterpreted as a signed word.
pub open spec fn sign_extend64(raw: u64, lsb: u64, msb: u64) -> i64
    recommends
        lsb <= msb < 64,
{
    let fr = field_value64(raw, lsb, msb);
    if fr & (1u64 << ((msb - lsb) as u64)) != 0 {
        (fr | !field_mask64(lsb, msb)) as i64
    } else {
        fr as i64
    }
}

/// The legal range of a signed field whose own sign bit is bit `fwidth` of
/// the field: the two's-complement range `[-2^fwidth, 2^fwidth - 1]`.
pub open spec fn in_signed_range(value: i64, fwidth: nat) -> bool {
    -(pow2(fwidth) as int) <= value as int && (value as int) < pow2(fwidth) as int
}

/// Whether bit `i` of `x` is set.
pub open spec fn bit64(x: u64, i: u64) -> bool
    recommends
        i < 64,
{
    x & (1u64 << i) != 0
}

/// The extraction mask, computed the way the synthesized code computes it:
/// the all-ones value of the storage width, shifted right so that exactly
/// `msb - lsb + 1` low bits remain set.
pub fn field_mask(width: Width, lsb: u8, msb: u8) -> (r: u64)
    requires
        lsb <= msb < width.spec_bits(),
    ensures
        r == field_mask64(lsb as u64, msb as u64),
        r <= width.spec_max(),
{
    let d: u8 = msb - lsb;
    let shift: u8 = width.bits() - 1 - d;
    let r: u64 = width.max_value() >> (shift as u64);
    proof {
        let wb = width.spec_bits() as u64;
        let wm = width.spec_max();
        let dd = d as u64;
        assert(wm >> ((wb - 1 - dd) as u64) == u64::MAX >> ((63 - dd) as u64) && u64::MAX >> ((63
            - dd) as u64) <= wm) by (bit_vector)
            requires
                dd < wb,
                (wb == 8 && wm == 0xff) || (wb == 16 && wm == 0xffff) || (wb == 32 && wm
                    == 0xffff_ffff) || (wb == 64 && wm == 0xffff_ffff_ffff_ffff),
        ;
    }
    r
}

/// The extraction mask is the low-bits mask of the field's width: a field of
/// `msb - lsb + 1` bits masks to `2^(msb - lsb + 1) - 1`.
pub proof fn lemma_field_mask64_is_low_bits_mask(lsb: u64, msb: u64)
    requires
        lsb <= msb < 64,
    ensures
        field_mask64(lsb, msb) == low_bits_mask((msb - lsb + 1) as nat),
{
    let s = (63 - (msb - lsb)) as nat;
    let w = (msb - lsb + 1) as nat;
    lemma_u64_shr_is_div(u64::MAX, (63 - (msb - lsb)) as u64);
    lemma_pow2_adds(s, w);
    lemma_pow2_pos(s);
    lemma_pow2_pos(w);
    assert(u64::MAX as nat == pow2(64) - 1) by {
        vstd::arithmetic::power2::lemma2_to64_rest();
    }
    assert((pow2(w) - 1) * pow2(s) + (pow2(s) - 1) == pow2(s) * pow2(w) - 1) by (nonlinear_arith);
    lemma_fundamental_div_mod_converse(
        pow2(64) as int - 1,
        pow2(s) as int,
        pow2(w) as int - 1,
        pow2(s) as int - 1,
    );
}

/// Manual sign extension agrees with the two's-complement reading of the
/// field: the extended bit pattern, taken as a signed word, has exactly the
/// field's signed value.
pub proof fn lemma_sign_extend64(raw: u64, lsb: u64, msb: u64)
    by (bit_vector)
    requires
        lsb <= msb < 64,
    ensures
        sign_extend64(raw, lsb, msb) as int == signed_field_value64(raw, lsb, msb),
{
}

/// What writing a field does, for every value: the target bits take the low
/// bits of the value, and every bit outside `[lsb, msb]` is left unchanged.
pub proof fn lemma_set_field64_effect(raw: u64, lsb: u64, msb: u64, value: u64)
    by (bit_vector)
    requires
        lsb <= msb < 64,
    ensures
        field_value64(set_field64(raw, lsb, msb, value), lsb, msb) == value & field_mask64(
            lsb,
            msb,
        ),
        forall|i: u64|
            i < 64 && (i < lsb || msb < i) ==> (bit64(set_field64(raw, lsb, msb, value), i)
                == bit64(raw, i)),
{
}

/// Writing keeps the raw word inside its storage width: a write into a field
/// of a word bounded by one of the supported all-ones values stays bounded.
pub proof fn lemma_set_field64_bounded(raw: u64, lsb: u64, msb: u64, value: u64, wm: u64)
    by (bit_vector)
    requires
        lsb <= msb < 64,
        raw <= wm,
        (wm == 0xff && msb < 8) || (wm == 0xffff && msb < 16) || (wm == 0xffff_ffff && msb < 32)
            || wm == 0xffff_ffff_ffff_ffff,
    ensures
        set_field64(raw, lsb, msb, value) <= wm,
{
}

/// The signed reading of a field always lies in the field's two's-complement
/// range: between `-(mask/2) - 1` and `mask/2`, the mask being all ones of
/// the field's width.
pub proof fn lemma_signed_field_value64_in_range(raw: u64, lsb: u64, msb: u64)
    by (bit_vector)
    requires
        lsb <= msb < 64,
    ensures
        -(field_mask64(lsb, msb) / 2) - 1 <= signed_field_value64(raw, lsb, msb),
        signed_field_value64(raw, lsb, msb) <= field_mask64(lsb, msb) / 2,
{
}

/// The unsigned round trip: writing any value that fits in the field and
/// reading it back returns the value exactly.
pub proof fn lemma_unsigned_round_trip(raw: u64, lsb: u64, msb: u64, value: u64)
    requires
        lsb <= msb < 64,
        value <= field_mask64(lsb, msb),
    ensures
        field_value64(set_field64(raw, lsb, msb, value), lsb, msb) == value,
{
    lemma_set_field64_effect(raw, lsb, msb, value);
    assert(value <= field_mask64(lsb, msb) ==> value & field_mask64(lsb, msb) == value)
        by (bit_vector)
        requires
            lsb <= msb < 64,
    ;
}

/// The signed round trip: writing any value in the field's two's-complement
/// range (its low bits, sign-extension bits discarded) and reading it back
/// with sign extension returns the value exactly, sign preserved.
pub proof fn lemma_signed_round_trip(raw: u64, lsb: u64, msb: u64, value: i64)
    by (bit_vector)
    requires
        lsb <= msb < 64,
        -(field_mask64(lsb, msb) / 2) - 1 <= value <= field_mask64(lsb, msb) / 2,
    ensures
        signed_field_value64(set_field64(raw, lsb, msb, value as u64), lsb, msb) == value as int,
{
}

} // verus!
