//! The declarative model of register layouts: supported storage widths,
//! bitfield descriptors, registers, and the generator's error type.

use vstd::prelude::*;

verus! {

/// The storage widths a register may declare. This set is fixed policy: the
/// per-width base artifacts encode a native unsigned/signed integer pair for
/// exactly these widths.
#[derive(Clone, Copy, PartialEq, Eq, Structural, Debug)]
pub enum Width {
    W8,
    W16,
    W32,
    W64,
}

impl Width {
    /// The number of bits of this width.
    pub open spec fn spec_bits(self) -> u8 {
        match self {
            Width::W8 => 8,
            Width::W16 => 16,
            Width::W32 => 32,
            Width::W64 => 64,
        }
    }

    /// The all-ones value of this width: the largest raw value a register of
    /// this width can hold.
    pub open spec fn spec_max(self) -> u64 {
        match self {
            Width::W8 => 0xff,
            Width::W16 => 0xffff,
            Width::W32 => 0xffff_ffff,
            Width::W64 => 0xffff_ffff_ffff_ffff,
        }
    }

    #[verifier::when_used_as_spec(spec_bits)]
    pub fn bits(self) -> (r: u8)
        ensures
            r == self.spec_bits(),
    {
        match self {
            Width::W8 => 8,
            Width::W16 => 16,
            Width::W32 => 32,
            Width::W64 => 64,
        }
    }

    #[verifier::when_used_as_spec(spec_max)]
    pub fn max_value(self) -> (r: u64)
        ensures
            r == self.spec_max(),
    {
        match self {
            Width::W8 => 0xff,
            Width::W16 => 0xffff,
            Width::W32 => 0xffff_ffff,
            Width::W64 => 0xffff_ffff_ffff_ffff,
        }
    }

    /// The width declared by a raw size, or `None` exactly when the size is
    /// unsupported.
    pub fn from_size(size: u8) -> (r: Option<Width>)
        ensures
            r is Some <==> supported_width(size),
            r is Some ==> r->0.spec_bits() == size,
    {
        match size {
            8 => Some(Width::W8),
            16 => Some(Width::W16),
            32 => Some(Width::W32),
            64 => Some(Width::W64),
            _ => None,
        }
    }
}

/// Whether a declared register size is one of the supported storage widths.
pub open spec fn supported_width(size: u8) -> bool {
    size == 8 || size == 16 || size == 32 || size == 64
}

/// A named bitfield: bits `[lsb, msb]` (inclusive, zero based) of its owning
/// register, with independent read/write permission. `negative` is tri-state:
/// `Some(true)` means signed (sign extended); `Some(false)` and `None` both
/// mean unsigned.
pub struct Field {
    pub name: String,
    pub lsb: u8,
    pub msb: u8,
    pub read: bool,
    pub write: bool,
    pub negative: Option<bool>,
}

/// The mathematical image of a `Field`.
pub ghost struct FieldView {
    pub name: Seq<char>,
    pub lsb: u8,
    pub msb: u8,
    pub read: bool,
    pub write: bool,
    pub negative: Option<bool>,
}

impl View for Field {
    type V = FieldView;

    open spec fn view(&self) -> FieldView {
        FieldView {
            name: self.name@,
            lsb: self.lsb,
            msb: self.msb,
            read: self.read,
            write: self.write,
            negative: self.negative,
        }
    }
}

impl FieldView {
    /// Whether the field is sign extended.
    pub open spec fn is_signed(self) -> bool {
        self.negative == Some(true)
    }

    /// A field is well formed for a width when its bit range lies inside the
    /// register: `lsb <= msb < bits`.
    pub open spec fn wf(self, bits: u8) -> bool {
        self.lsb <= self.msb < bits
    }
}

/// A named register: a declared bit width and an ordered sequence of fields.
/// Field order determines emission order in the output, nothing more.
pub struct Register {
    pub name: String,
    pub size: u8,
    pub fields: Vec<Field>,
}

/// The mathematical image of a `Register`.
pub ghost struct RegisterView {
    pub name: Seq<char>,
    pub size: u8,
    pub fields: Seq<FieldView>,
}

impl View for Register {
    type V = RegisterView;

    open spec fn view(&self) -> RegisterView {
        RegisterView {
            name: self.name@,
            size: self.size,
            fields: self.fields@.map_values(|f: Field| f@),
        }
    }
}

/// Errors the generator itself can raise. Artifact I/O failures belong to the
/// caller that owns the artifact sink, not to this library.
#[derive(Clone, Copy, PartialEq, Eq, Structural, Debug)]
pub enum GeneratorError {
    /// A register declared a size outside the supported widths.
    UnsupportedWidth,
}

} // verus!
