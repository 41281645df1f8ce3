//! The synthesized text: exact accessor bodies, artifact assembly,
//! regeneration determinism, and width validation.

use register_generator::access_methods::{create_get_method, create_set_method};
use register_generator::artifacts::{
    base_register_file_text, family_file_text, register_unit_text,
};
use register_generator::decimal::u8_to_decimal;
use register_generator::model::{Field, GeneratorError, Register, Width};

fn unsigned_field(name: &str, lsb: u8, msb: u8, read: bool, write: bool) -> Field {
    Field { name: name.to_string(), lsb, msb, read, write, negative: None }
}

fn signed_field(name: &str, lsb: u8, msb: u8, read: bool, write: bool) -> Field {
    Field { name: name.to_string(), lsb, msb, read, write, negative: Some(true) }
}

#[test]
fn unsigned_getter_exact_text() {
    let f = unsigned_field("flag", 3, 5, true, true);
    let expected = "\tinline uint8_t get_flag() const {\n\
        \t\tuint8_t buffer = register_raw >> 3;\n\
        \t\treturn buffer & (UINT8_MAX >> (8 - 1 - (5 - 3)));\n\
        \t}\n";
    assert_eq!(create_get_method(&f, 8), expected);
}

#[test]
fn signed_getter_exact_text() {
    let f = signed_field("offset", 2, 4, true, true);
    let expected = "\tinline int16_t get_offset() const {\n\
        \t\tuint16_t buffer = register_raw >> 2;\n\
        \t\tuint16_t field_raw = buffer & (UINT16_MAX >> (16 - 1 - (4 - 2)));\n\
        \t\tif (field_raw & (1 << (4 - 2))) {\n\
        \t\t\tfield_raw |= (UINT16_MAX << (4 - 2 + 1));\n\
        \t\t}\n\
        \t\treturn field_raw;\n\
        \t}\n";
    assert_eq!(create_get_method(&f, 16), expected);
}

#[test]
fn explicit_false_negative_is_unsigned() {
    let mut f = unsigned_field("flag", 3, 5, true, true);
    f.negative = Some(false);
    let g = unsigned_field("flag", 3, 5, true, true);
    assert_eq!(create_get_method(&f, 8), create_get_method(&g, 8));
    assert_eq!(create_set_method(&f, 8), create_set_method(&g, 8));
}

#[test]
fn unsigned_setter_exact_text() {
    let f = unsigned_field("flag", 3, 5, true, true);
    let expected = "\tinline bool set_flag(uint8_t value) {\n\
        \t\tif (value >= ((uint8_t)1 << (5 - (3 - 1)))) {\n\
        \t\t\treturn false;\n\
        \t\t}\n\
        \t\tuint8_t mask = static_cast<uint8_t>(~((UINT8_MAX >> (8 - 1 - (5 - 3))) << 3));\n\
        \t\tregister_raw &= mask;\n\
        \t\tvalue = value << 3;\n\
        \t\tregister_raw |= value;\n\
        \t\treturn true;\n\
        \t}\n";
    assert_eq!(create_set_method(&f, 8), expected);
}

#[test]
fn signed_setter_exact_text() {
    let f = signed_field("offset", 2, 4, true, true);
    let expected = "\tinline bool set_offset(int16_t value) {\n\
        \t\tif (value < 0) {\n\
        \t\t\tif (-value > ((int16_t)1 << (4 - 2))) {\n\
        \t\t\t\treturn false;\n\
        \t\t\t}\n\
        \t\t} else {\n\
        \t\t\tif (value >= ((int16_t)1 << (4 - 2))) {\n\
        \t\t\t\treturn false;\n\
        \t\t\t}\n\
        \t\t}\n\
        \t\tuint16_t mask = static_cast<uint16_t>(~((UINT16_MAX >> (16 - 1 - (4 - 2))) << 2));\n\
        \t\tregister_raw &= mask;\n\
        \t\tvalue &= (UINT16_MAX >> (16 - 1 - (4 - 2)));\n\
        \t\tvalue = value << 2;\n\
        \t\tregister_raw |= value;\n\
        \t\treturn true;\n\
        \t}\n";
    assert_eq!(create_set_method(&f, 16), expected);
}

#[test]
fn base_artifact_exact_text() {
    let expected = "#pragma once\n\n#include <cstdint>\n\n\
        class Register8 {\n\
        public:\n\
        \tRegister8() = default;\n\
        \tinline uint8_t get_register_value() const { return register_raw; };\n\
        \tinline void clear_register_value() { register_raw = 0x0; };\n\
        \tinline void set_register_value(uint8_t value) { register_raw = value; };\n\
        \tRegister8 operator&(const uint8_t param) { Register8 buff; buff.register_raw = register_raw & param; return buff; };\n\
        \tRegister8 operator&(const Register8 &param) { Register8 buff; buff.register_raw = register_raw & param.register_raw; return buff; };\n\
        \tRegister8 operator|(const uint8_t param) { Register8 buff; buff.register_raw = register_raw | param; return buff; };\n\
        \tRegister8 operator|(const Register8 &param) { Register8 buff; buff.register_raw = register_raw | param.register_raw; return buff; };\n\
        \tRegister8 operator<<(const uint8_t param) { Register8 buff; buff.register_raw = register_raw << param; return buff; };\n\
        \tRegister8 operator<<(const Register8 &param) { Register8 buff; buff.register_raw = register_raw << param.register_raw; return buff; };\n\
        \tRegister8 operator>>(const uint8_t param) { Register8 buff; buff.register_raw = register_raw >> param; return buff; };\n\
        \tRegister8 operator>>(const Register8 &param) { Register8 buff; buff.register_raw = register_raw >> param.register_raw; return buff; };\n\
        \tRegister8 operator~() { Register8 buff; buff.register_raw = ~register_raw; return buff; };\n\
        protected:\n\
        \tuint8_t register_raw = 0x0;\n\
        };\n";
    assert_eq!(base_register_file_text(Width::W8), expected);
}

#[test]
fn family_artifact_exact_text() {
    let widths = vec![Width::W8, Width::W16];
    let expected = "#pragma once\n\n#include <cstdint>\n\n\
        #include \"Register8.h\"\n\
        #include \"Register16.h\"\n\n";
    assert_eq!(family_file_text(&widths), expected);
}

#[test]
fn initialize_family_is_idempotent() {
    // regenerating the base and umbrella artifacts for {8,16} is byte identical
    let widths = vec![Width::W8, Width::W16];
    assert_eq!(family_file_text(&widths), family_file_text(&widths));
    assert_eq!(
        base_register_file_text(Width::W8),
        base_register_file_text(Width::W8)
    );
    assert_eq!(
        base_register_file_text(Width::W16),
        base_register_file_text(Width::W16)
    );
}

#[test]
fn register_unit_exact_text() {
    let reg = Register {
        name: "Ctrl".to_string(),
        size: 8,
        fields: vec![unsigned_field("flag", 3, 5, true, true)],
    };
    let expected = format!(
        "class Ctrl : public Register8 {{\npublic:\n\tCtrl() : Register8() {{}};\n\n\t// Get methods\n{}\n\t// Set methods\n{}}};\n\n",
        create_get_method(&reg.fields[0], 8),
        create_set_method(&reg.fields[0], 8)
    );
    assert_eq!(register_unit_text(&reg).unwrap(), expected);
}

#[test]
fn appending_twice_emits_two_units() {
    // appending a register is not idempotent: two appends, two units
    let reg = Register {
        name: "Status".to_string(),
        size: 16,
        fields: vec![unsigned_field("ready", 0, 0, true, false)],
    };
    let unit = register_unit_text(&reg).unwrap();
    let mut family = family_file_text(&vec![Width::W16]);
    family.push_str(&unit);
    let once = family.matches("Status").count();
    family.push_str(&unit);
    let twice = family.matches("Status").count();
    assert_eq!(twice, 2 * once);
}

#[test]
fn unsupported_width_fails_before_any_text() {
    let reg = Register {
        name: "Bad".to_string(),
        size: 12,
        fields: vec![unsigned_field("flag", 0, 3, true, true)],
    };
    assert_eq!(
        register_unit_text(&reg),
        Err(GeneratorError::UnsupportedWidth)
    );
}

#[test]
fn write_only_field_emits_exactly_one_setter() {
    let reg = Register {
        name: "WrOnly".to_string(),
        size: 32,
        fields: vec![unsigned_field("cmd", 0, 7, false, true)],
    };
    let unit = register_unit_text(&reg).unwrap();
    assert!(!unit.contains("get_cmd"));
    assert_eq!(unit.matches("set_cmd").count(), 1);
}

#[test]
fn no_permission_field_emits_neither_accessor() {
    let reg = Register {
        name: "Quiet".to_string(),
        size: 32,
        fields: vec![unsigned_field("hidden", 4, 9, false, false)],
    };
    let unit = register_unit_text(&reg).unwrap();
    assert!(!unit.contains("get_hidden"));
    assert!(!unit.contains("set_hidden"));
    let empty = Register {
        name: "Quiet".to_string(),
        size: 32,
        fields: vec![],
    };
    assert_eq!(register_unit_text(&reg), register_unit_text(&empty));
}

#[test]
fn fields_emit_in_declaration_order() {
    let reg = Register {
        name: "Mix".to_string(),
        size: 8,
        fields: vec![
            unsigned_field("lo", 0, 1, true, true),
            signed_field("hi", 2, 7, true, true),
        ],
    };
    let unit = register_unit_text(&reg).unwrap();
    let get_lo = unit.find("get_lo").unwrap();
    let get_hi = unit.find("get_hi").unwrap();
    let set_lo = unit.find("set_lo").unwrap();
    let set_hi = unit.find("set_hi").unwrap();
    assert!(get_lo < get_hi);
    assert!(set_lo < set_hi);
    assert!(get_hi < set_lo); // all getters precede all setters
}

#[test]
fn decimal_rendering_exact() {
    assert_eq!(u8_to_decimal(0), "0");
    assert_eq!(u8_to_decimal(7), "7");
    assert_eq!(u8_to_decimal(10), "10");
    assert_eq!(u8_to_decimal(64), "64");
    assert_eq!(u8_to_decimal(255), "255");
}
