//! Assembly of output artifacts: one base artifact per supported width
//! defining the raw-storage type, one umbrella artifact per register family,
//! and one class-like unit per register to append into the family artifact.
//!
//! Everything here is pure text synthesis: each function's output is pinned to
//! a specification function of its inputs alone, so regenerating an artifact
//! from the same model reproduces it byte for byte. Writing the text to its
//! destination is the caller's concern.

use vstd::prelude::*;
use vstd::string::StringExecFns;

use crate::access_methods::create_get_method;
use crate::access_methods::create_set_method;
use crate::access_methods::get_method_text;
use crate::access_methods::set_method_text;
use crate::decimal::dec_str;
use crate::decimal::u8_to_decimal;
use crate::model::FieldView;
use crate::model::GeneratorError;
use crate::model::Register;
use crate::model::RegisterView;
use crate::model::Width;
use crate::model::supported_width;

verus! {

/// The two overloads of one bitwise operator in a base artifact: against a
/// bare same-width unsigned value, and against another instance of the
/// storage type.
pub open spec fn operator_pair_text(w: u8, op: Seq<char>) -> Seq<char> {
    "\tRegister"@ + dec_str(w as nat) + " operator"@ + op + "(const uint"@ + dec_str(w as nat)
        + "_t param) { Register"@ + dec_str(w as nat)
        + " buff; buff.register_raw = register_raw "@ + op
        + " param; return buff; };\n\tRegister"@ + dec_str(w as nat) + " operator"@ + op
        + "(const Register"@ + dec_str(w as nat) + " &param) { Register"@ + dec_str(w as nat)
        + " buff; buff.register_raw = register_raw "@ + op
        + " param.register_raw; return buff; };\n"@
}

/// The base artifact for a `w`-bit register: a zero-constructible storage
/// type holding one `w`-bit unsigned word, whole-value accessors, and the
/// bitwise operators over it.
pub open spec fn base_register_file_text_spec(w: u8) -> Seq<char> {
    "#pragma once\n\n#include <cstdint>\n\nclass Register"@ + dec_str(w as nat)
        + " {\npublic:\n\tRegister"@ + dec_str(w as nat) + "() = default;\n\tinline uint"@
        + dec_str(w as nat)
        + "_t get_register_value() const { return register_raw; };\n\tinline void clear_register_value() { register_raw = 0x0; };\n\tinline void set_register_value(uint"@
        + dec_str(w as nat) + "_t value) { register_raw = value; };\n"@ + operator_pair_text(
        w,
        "&"@,
    ) + operator_pair_text(w, "|"@) + operator_pair_text(w, "<<"@) + operator_pair_text(w, ">>"@)
        + "\tRegister"@ + dec_str(w as nat) + " operator~() { Register"@ + dec_str(w as nat)
        + " buff; buff.register_raw = ~register_raw; return buff; };\nprotected:\n\tuint"@
        + dec_str(w as nat) + "_t register_raw = 0x0;\n};\n"@
}

/// The reference one umbrella artifact makes to one per-width base artifact.
pub open spec fn include_line_text(w: u8) -> Seq<char> {
    "#include \"Register"@ + dec_str(w as nat) + ".h\"\n"@
}

/// The references an umbrella artifact makes, one per requested width, in
/// request order.
pub open spec fn includes_text(widths: Seq<u8>) -> Seq<char>
    decreases widths.len(),
{
    if widths.len() == 0 {
        Seq::empty()
    } else {
        includes_text(widths.drop_last()) + include_line_text(widths.last())
    }
}

/// The umbrella artifact of a family: a reference to every requested
/// per-width base artifact. Its content is a function of the requested widths
/// alone; the family identifier only names the artifact.
pub open spec fn family_file_text_spec(widths: Seq<u8>) -> Seq<char> {
    "#pragma once\n\n#include <cstdint>\n\n"@ + includes_text(widths) + "\n"@
}

/// The getter texts of a register's fields, in field order: each readable
/// field contributes its getter, every other field contributes nothing.
pub open spec fn getters_text(fields: Seq<FieldView>, w: u8) -> Seq<char>
    decreases fields.len(),
{
    if fields.len() == 0 {
        Seq::empty()
    } else {
        getters_text(fields.drop_last(), w) + (if fields.last().read {
            get_method_text(fields.last(), w)
        } else {
            Seq::empty()
        })
    }
}

/// The setter texts of a register's fields, in field order: each writable
/// field contributes its setter, every other field contributes nothing.
pub open spec fn setters_text(fields: Seq<FieldView>, w: u8) -> Seq<char>
    decreases fields.len(),
{
    if fields.len() == 0 {
        Seq::empty()
    } else {
        setters_text(fields.drop_last(), w) + (if fields.last().write {
            set_method_text(fields.last(), w)
        } else {
            Seq::empty()
        })
    }
}

/// The unit appended to a family artifact for one register: a named type
/// inheriting the base artifact of the register's width, its accumulated
/// getters, then its accumulated setters.
pub open spec fn register_unit_text_spec(r: RegisterView) -> Seq<char> {
    "class "@ + r.name + " : public Register"@ + dec_str(r.size as nat) + " {\npublic:\n\t"@
        + r.name + "() : Register"@ + dec_str(r.size as nat) + "() {};\n\n\t// Get methods\n"@
        + getters_text(r.fields, r.size) + "\n\t// Set methods\n"@ + setters_text(
        r.fields,
        r.size,
    ) + "};\n\n"@
}

/// A field that cannot be read contributes no getter text and a readable one
/// exactly its getter; likewise for writing and setters. In particular a
/// field with `read` false and `write` true yields no getter and exactly one
/// setter, and a field with both false yields neither.
pub proof fn lemma_accessor_emission(f: FieldView, w: u8)
    ensures
        getters_text(seq![f], w) == if f.read {
            get_method_text(f, w)
        } else {
            Seq::<char>::empty()
        },
        setters_text(seq![f], w) == if f.write {
            set_method_text(f, w)
        } else {
            Seq::<char>::empty()
        },
{
    reveal_with_fuel(getters_text, 2);
    reveal_with_fuel(setters_text, 2);
    assert(seq![f].drop_last() =~= Seq::<FieldView>::empty());
    if f.read {
        assert(getters_text(seq![f], w) =~= get_method_text(f, w));
    } else {
        assert(getters_text(seq![f], w) =~= Seq::<char>::empty());
    }
    if f.write {
        assert(setters_text(seq![f], w) =~= set_method_text(f, w));
    } else {
        assert(setters_text(seq![f], w) =~= Seq::<char>::empty());
    }
}

/// Appends both overloads of one bitwise operator to a base artifact under
/// construction.
fn append_operator_pair(s: &mut String, w_str: &str, op: &str, Ghost(w): Ghost<u8>)
    requires
        w_str@ == dec_str(w as nat),
    ensures
        final(s)@ == old(s)@ + operator_pair_text(w, op@),
{
    s.append("\tRegister");
    s.append(w_str);
    s.append(" operator");
    s.append(op);
    s.append("(const uint");
    s.append(w_str);
    s.append("_t param) { Register");
    s.append(w_str);
    s.append(" buff; buff.register_raw = register_raw ");
    s.append(op);
    s.append(" param; return buff; };\n\tRegister");
    s.append(w_str);
    s.append(" operator");
    s.append(op);
    s.append("(const Register");
    s.append(w_str);
    s.append(" &param) { Register");
    s.append(w_str);
    s.append(" buff; buff.register_raw = register_raw ");
    s.append(op);
    s.append(" param.register_raw; return buff; };\n");
    proof {
        assert(s@ =~= old(s)@ + operator_pair_text(w, op@));
    }
}

/// The text of the base storage artifact for one supported width: the
/// `w`-bit storage type, its whole-value accessors, and its bitwise
/// operators. A pure function of the width, so regeneration is byte
/// identical.
pub fn base_register_file_text(width: Width) -> (r: String)
    ensures
        r@ == base_register_file_text_spec(width.spec_bits()),
{
    let w: u8 = width.bits();
    let w_str = u8_to_decimal(w);
    let mut s = String::from_str("#pragma once\n\n#include <cstdint>\n\nclass Register");
    s.append(w_str.as_str());
    s.append(" {\npublic:\n\tRegister");
    s.append(w_str.as_str());
    s.append("() = default;\n\tinline uint");
    s.append(w_str.as_str());
    s.append(
        "_t get_register_value() const { return register_raw; };\n\tinline void clear_register_value() { register_raw = 0x0; };\n\tinline void set_register_value(uint",
    );
    s.append(w_str.as_str());
    s.append("_t value) { register_raw = value; };\n");
    append_operator_pair(&mut s, w_str.as_str(), "&", Ghost(w));
    append_operator_pair(&mut s, w_str.as_str(), "|", Ghost(w));
    append_operator_pair(&mut s, w_str.as_str(), "<<", Ghost(w));
    append_operator_pair(&mut s, w_str.as_str(), ">>", Ghost(w));
    s.append("\tRegister");
    s.append(w_str.as_str());
    s.append(" operator~() { Register");
    s.append(w_str.as_str());
    s.append(" buff; buff.register_raw = ~register_raw; return buff; };\nprotected:\n\tuint");
    s.append(w_str.as_str());
    s.append("_t register_raw = 0x0;\n};\n");
    proof {
        assert(s@ =~= base_register_file_text_spec(width.spec_bits()));
    }
    s
}

/// The text of a family's umbrella artifact: one reference per requested
/// width, in request order. A pure function of the widths, so regeneration is
/// byte identical; the family identifier only names the artifact and does not
/// occur in its content.
pub fn family_file_text(widths: &Vec<Width>) -> (r: String)
    ensures
        r@ == family_file_text_spec(widths@.map_values(|w: Width| w.spec_bits())),
{
    let ghost ws: Seq<u8> = widths@.map_values(|w: Width| w.spec_bits());
    let mut includes = String::new();
    for i in 0..widths.len()
        invariant
            ws == widths@.map_values(|w: Width| w.spec_bits()),
            includes@ == includes_text(ws.take(i as int)),
    {
        let w_str = u8_to_decimal(widths[i].bits());
        includes.append("#include \"Register");
        includes.append(w_str.as_str());
        includes.append(".h\"\n");
        proof {
            assert(ws.take(i + 1 as int).drop_last() =~= ws.take(i as int));
            assert(includes@ =~= includes_text(ws.take(i + 1 as int)));
        }
    }
    proof {
        assert(ws.take(widths@.len() as int) =~= ws);
    }
    let mut s = String::from_str("#pragma once\n\n#include <cstdint>\n\n");
    s.append(includes.as_str());
    s.append("\n");
    s
}

/// The unit of output for one register, to append to its family's umbrella
/// artifact. Validates width support before anything else: a register whose
/// declared size is not a supported width yields the error and no text.
/// For each field, in order, a readable field contributes its getter and a
/// writable field its setter.
pub fn register_unit_text(register: &Register) -> (r: Result<String, GeneratorError>)
    ensures
        r is Ok <==> supported_width(register.size),
        r is Ok ==> r->Ok_0@ == register_unit_text_spec(register@),
        r is Err ==> r->Err_0 == GeneratorError::UnsupportedWidth,
{
    if Width::from_size(register.size).is_none() {
        return Err(GeneratorError::UnsupportedWidth);
    }
    let ghost gfs: Seq<FieldView> = register@.fields;
    let mut get_methods = String::new();
    let mut set_methods = String::new();
    for i in 0..register.fields.len()
        invariant
            gfs == register@.fields,
            gfs.len() == register.fields@.len(),
            get_methods@ == getters_text(gfs.take(i as int), register.size),
            set_methods@ == setters_text(gfs.take(i as int), register.size),
    {
        let current_field = &register.fields[i];
        if current_field.read {
            let text = create_get_method(current_field, register.size);
            get_methods.append(text.as_str());
        }
        if current_field.write {
            let text = create_set_method(current_field, register.size);
            set_methods.append(text.as_str());
        }
        proof {
            assert(gfs.take(i + 1 as int).drop_last() =~= gfs.take(i as int));
            assert(gfs.take(i + 1 as int).last() == gfs[i as int]);
        }
    }
    proof {
        assert(gfs.take(register.fields@.len() as int) =~= gfs);
    }
    let size_str = u8_to_decimal(register.size);
    let mut s = String::from_str("class ");
    s.append(register.name.as_str());
    s.append(" : public Register");
    s.append(size_str.as_str());
    s.append(" {\npublic:\n\t");
    s.append(register.name.as_str());
    s.append("() : Register");
    s.append(size_str.as_str());
    s.append("() {};\n\n\t// Get methods\n");
    s.append(get_methods.as_str());
    s.append("\n\t// Set methods\n");
    s.append(set_methods.as_str());
    s.append("};\n\n");
    Ok(s)
}

} // verus!
