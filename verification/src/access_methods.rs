//! Synthesis of per-field accessor text: for one field of a register of a
//! given width, the body of a getter and of a setter.
//!
//! Every mask in the synthesized text is spelled with the shifted-all-ones
//! idiom (`UINTn_MAX >> (n - 1 - (msb - lsb))`), which stays representable
//! even when the field spans the whole register; `mask_expr_text` is the one
//! place that spells it.

use vstd::prelude::*;
use vstd::string::StringExecFns;

use crate::decimal::dec_str;
use crate::decimal::u8_to_decimal;
use crate::model::Field;
use crate::model::FieldView;

verus! {

/// The text of the extraction-mask expression for bits `[lsb, msb]` of a
/// `w`-bit register: all ones of the register width, shifted right until
/// exactly `msb - lsb + 1` low bits remain.
pub open spec fn mask_expr_text(lsb: u8, msb: u8, w: u8) -> Seq<char> {
    "(UINT"@ + dec_str(w as nat) + "_MAX >> ("@ + dec_str(w as nat) + " - 1 - ("@ + dec_str(
        msb as nat,
    ) + " - "@ + dec_str(lsb as nat) + ")))"@
}

/// The getter text for a field of a `w`-bit register: shift the raw storage
/// down to the field and mask; a signed field additionally ORs ones into every
/// bit above its own sign bit when that bit is set, and is returned as the
/// signed type.
pub open spec fn get_method_text(f: FieldView, w: u8) -> Seq<char> {
    if f.is_signed() {
        "\tinline int"@ + dec_str(w as nat) + "_t get_"@ + f.name + "() const {\n\t\tuint"@
            + dec_str(w as nat) + "_t buffer = register_raw >> "@ + dec_str(f.lsb as nat)
            + ";\n\t\tuint"@ + dec_str(w as nat) + "_t field_raw = buffer & "@ + mask_expr_text(
            f.lsb,
            f.msb,
            w,
        ) + ";\n\t\tif (field_raw & (1 << ("@ + dec_str(f.msb as nat) + " - "@ + dec_str(
            f.lsb as nat,
        ) + "))) {\n\t\t\tfield_raw |= (UINT"@ + dec_str(w as nat) + "_MAX << ("@ + dec_str(
            f.msb as nat,
        ) + " - "@ + dec_str(f.lsb as nat) + " + 1));\n\t\t}\n\t\treturn field_raw;\n\t}\n"@
    } else {
        "\tinline uint"@ + dec_str(w as nat) + "_t get_"@ + f.name + "() const {\n\t\tuint"@
            + dec_str(w as nat) + "_t buffer = register_raw >> "@ + dec_str(f.lsb as nat)
            + ";\n\t\treturn buffer & "@ + mask_expr_text(f.lsb, f.msb, w) + ";\n\t}\n"@
    }
}

/// The setter text for a field of a `w`-bit register: a range check returning
/// `false` for values outside the field (two's-complement bounds for a signed
/// field), then clear the target bits, truncate a signed value to the field,
/// shift the value up and OR it in.
pub open spec fn set_method_text(f: FieldView, w: u8) -> Seq<char> {
    if f.is_signed() {
        "\tinline bool set_"@ + f.name + "(int"@ + dec_str(w as nat)
            + "_t value) {\n\t\tif (value < 0) {\n\t\t\tif (-value > ((int"@ + dec_str(w as nat)
            + "_t)1 << ("@ + dec_str(f.msb as nat) + " - "@ + dec_str(f.lsb as nat)
            + "))) {\n\t\t\t\treturn false;\n\t\t\t}\n\t\t} else {\n\t\t\tif (value >= ((int"@
            + dec_str(w as nat) + "_t)1 << ("@ + dec_str(f.msb as nat) + " - "@ + dec_str(
            f.lsb as nat,
        ) + "))) {\n\t\t\t\treturn false;\n\t\t\t}\n\t\t}\n\t\tuint"@ + dec_str(w as nat)
            + "_t mask = static_cast<uint"@ + dec_str(w as nat) + "_t>(~("@ + mask_expr_text(
            f.lsb,
            f.msb,
            w,
        ) + " << "@ + dec_str(f.lsb as nat) + "));\n\t\tregister_raw &= mask;\n\t\tvalue &= "@
            + mask_expr_text(f.lsb, f.msb, w) + ";\n\t\tvalue = value << "@ + dec_str(f.lsb as nat)
            + ";\n\t\tregister_raw |= value;\n\t\treturn true;\n\t}\n"@
    } else {
        "\tinline bool set_"@ + f.name + "(uint"@ + dec_str(w as nat)
            + "_t value) {\n\t\tif (value >= ((uint"@ + dec_str(w as nat) + "_t)1 << ("@ + dec_str(
            f.msb as nat,
        ) + " - ("@ + dec_str(f.lsb as nat)
            + " - 1)))) {\n\t\t\treturn false;\n\t\t}\n\t\tuint"@ + dec_str(w as nat)
            + "_t mask = static_cast<uint"@ + dec_str(w as nat) + "_t>(~("@ + mask_expr_text(
            f.lsb,
            f.msb,
            w,
        ) + " << "@ + dec_str(f.lsb as nat)
            + "));\n\t\tregister_raw &= mask;\n\t\tvalue = value << "@ + dec_str(f.lsb as nat)
            + ";\n\t\tregister_raw |= value;\n\t\treturn true;\n\t}\n"@
    }
}

/// The extraction-mask expression as an owned string.
fn mask_expr_string(lsb: u8, msb: u8, w: u8) -> (r: String)
    ensures
        r@ == mask_expr_text(lsb, msb, w),
{
    let w_str = u8_to_decimal(w);
    let msb_str = u8_to_decimal(msb);
    let lsb_str = u8_to_decimal(lsb);
    let mut s = String::from_str("(UINT");
    s.append(w_str.as_str());
    s.append("_MAX >> (");
    s.append(w_str.as_str());
    s.append(" - 1 - (");
    s.append(msb_str.as_str());
    s.append(" - ");
    s.append(lsb_str.as_str());
    s.append(")))");
    s
}

/// The text of the getter for `field` in a register `register_width` bits
/// wide. A signed field is sign extended; the result is exactly
/// `get_method_text` of the field.
pub fn create_get_method(field: &Field, register_width: u8) -> (r: String)
    ensures
        r@ == get_method_text(field@, register_width),
{
    let w_str = u8_to_decimal(register_width);
    let msb_str = u8_to_decimal(field.msb);
    let lsb_str = u8_to_decimal(field.lsb);
    let mask_str = mask_expr_string(field.lsb, field.msb, register_width);
    match field.negative {
        Some(true) => {
            let mut s = String::from_str("\tinline int");
            s.append(w_str.as_str());
            s.append("_t get_");
            s.append(field.name.as_str());
            s.append("() const {\n\t\tuint");
            s.append(w_str.as_str());
            s.append("_t buffer = register_raw >> ");
            s.append(lsb_str.as_str());
            s.append(";\n\t\tuint");
            s.append(w_str.as_str());
            s.append("_t field_raw = buffer & ");
            s.append(mask_str.as_str());
            s.append(";\n\t\tif (field_raw & (1 << (");
            s.append(msb_str.as_str());
            s.append(" - ");
            s.append(lsb_str.as_str());
            s.append("))) {\n\t\t\tfield_raw |= (UINT");
            s.append(w_str.as_str());
            s.append("_MAX << (");
            s.append(msb_str.as_str());
            s.append(" - ");
            s.append(lsb_str.as_str());
            s.append(" + 1));\n\t\t}\n\t\treturn field_raw;\n\t}\n");
            s
        },
        _ => {
            let mut s = String::from_str("\tinline uint");
            s.append(w_str.as_str());
            s.append("_t get_");
            s.append(field.name.as_str());
            s.append("() const {\n\t\tuint");
            s.append(w_str.as_str());
            s.append("_t buffer = register_raw >> ");
            s.append(lsb_str.as_str());
            s.append(";\n\t\treturn buffer & ");
            s.append(mask_str.as_str());
            s.append(";\n\t}\n");
            s
        },
    }
}

/// The text of the setter for `field` in a register `register_width` bits
/// wide. Signed and unsigned fields are bounds checked differently; the result
/// is exactly `set_method_text` of the field.
pub fn create_set_method(field: &Field, register_width: u8) -> (r: String)
    ensures
        r@ == set_method_text(field@, register_width),
{
    let w_str = u8_to_decimal(register_width);
    let msb_str = u8_to_decimal(field.msb);
    let lsb_str = u8_to_decimal(field.lsb);
    let mask_str = mask_expr_string(field.lsb, field.msb, register_width);
    match field.negative {
        Some(true) => {
            let mut s = String::from_str("\tinline bool set_");
            s.append(field.name.as_str());
            s.append("(int");
            s.append(w_str.as_str());
            s.append("_t value) {\n\t\tif (value < 0) {\n\t\t\tif (-value > ((int");
            s.append(w_str.as_str());
            s.append("_t)1 << (");
            s.append(msb_str.as_str());
            s.append(" - ");
            s.append(lsb_str.as_str());
            s.append("))) {\n\t\t\t\treturn false;\n\t\t\t}\n\t\t} else {\n\t\t\tif (value >= ((int");
            s.append(w_str.as_str());
            s.append("_t)1 << (");
            s.append(msb_str.as_str());
            s.append(" - ");
            s.append(lsb_str.as_str());
            s.append("))) {\n\t\t\t\treturn false;\n\t\t\t}\n\t\t}\n\t\tuint");
            s.append(w_str.as_str());
            s.append("_t mask = static_cast<uint");
            s.append(w_str.as_str());
            s.append("_t>(~(");
            s.append(mask_str.as_str());
            s.append(" << ");
            s.append(lsb_str.as_str());
            s.append("));\n\t\tregister_raw &= mask;\n\t\tvalue &= ");
            s.append(mask_str.as_str());
            s.append(";\n\t\tvalue = value << ");
            s.append(lsb_str.as_str());
            s.append(";\n\t\tregister_raw |= value;\n\t\treturn true;\n\t}\n");
            s
        },
        _ => {
            let mut s = String::from_str("\tinline bool set_");
            s.append(field.name.as_str());
            s.append("(uint");
            s.append(w_str.as_str());
            s.append("_t value) {\n\t\tif (value >= ((uint");
            s.append(w_str.as_str());
            s.append("_t)1 << (");
            s.append(msb_str.as_str());
            s.append(" - (");
            s.append(lsb_str.as_str());
            s.append(" - 1)))) {\n\t\t\treturn false;\n\t\t}\n\t\tuint");
            s.append(w_str.as_str());
            s.append("_t mask = static_cast<uint");
            s.append(w_str.as_str());
            s.append("_t>(~(");
            s.append(mask_str.as_str());
            s.append(" << ");
            s.append(lsb_str.as_str());
            s.append("));\n\t\tregister_raw &= mask;\n\t\tvalue = value << ");
            s.append(lsb_str.as_str());
            s.append(";\n\t\tregister_raw |= value;\n\t\treturn true;\n\t}\n");
            s
        },
    }
}

} // verus!
