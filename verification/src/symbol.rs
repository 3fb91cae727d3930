use vstd::prelude::*;
use vstd::utf8::encode_utf8;

use crate::le::push_all;

verus! {

/// The content of a variable: a number (held as its little-endian bytes), a string, or
/// nothing yet.
#[derive(Clone, Debug)]
pub enum VarContent {
    Number(Vec<u8>),
    String(String),
    Uninit,
}

/// The ELF type of a symbol.
#[derive(Clone, Copy, Debug, PartialEq, Eq, Structural)]
pub enum SymbolType {
    NoType,
    Object,
    Func,
    Section,
    File,
}

/// The ELF binding of a symbol.
#[derive(Clone, Copy, Debug, PartialEq, Eq, Structural)]
pub enum Visibility {
    Local,
    Global,
}

/// The ELF code of a symbol type (STT_*).
pub open spec fn spec_stype_code(t: SymbolType) -> u8 {
    match t {
        SymbolType::NoType => 0,
        SymbolType::Object => 1,
        SymbolType::Func => 2,
        SymbolType::Section => 3,
        SymbolType::File => 4,
    }
}

/// The ELF code of a symbol binding (STB_*).
pub open spec fn spec_visibility_code(v: Visibility) -> u8 {
    match v {
        Visibility::Local => 0,
        Visibility::Global => 1,
    }
}

impl SymbolType {
    /// The ELF code of this type.
    pub fn code(self) -> (c: u8)
        ensures
            c == spec_stype_code(self),
    {
        match self {
            SymbolType::NoType => 0,
            SymbolType::Object => 1,
            SymbolType::Func => 2,
            SymbolType::Section => 3,
            SymbolType::File => 4,
        }
    }
}

impl Visibility {
    /// The ELF code of this binding.
    pub fn code(self) -> (c: u8)
        ensures
            c == spec_visibility_code(self),
    {
        match self {
            Visibility::Local => 0,
            Visibility::Global => 1,
        }
    }
}

/// A symbol: its name, offset, size, section index, type, binding, content and the section
/// kind of its content (1 `.data`, 2 `.rodata`, 3 `.bss`, anything else none).
#[derive(Clone, Debug)]
pub struct Symbol {
    pub name: String,
    pub offset: u32,
    pub size: Option<u32>,
    pub sindex: u16,
    pub stype: SymbolType,
    pub visibility: Visibility,
    pub content: Option<VarContent>,
    pub addt: u8,
}

/// The bytes a variable's content takes in a data section: a number's bytes, a string's
/// UTF-8 bytes, nothing for an uninitialized variable.
pub open spec fn content_bytes(c: VarContent) -> Seq<u8> {
    match c {
        VarContent::Number(b) => b@,
        VarContent::String(s) => encode_utf8(s@),
        VarContent::Uninit => Seq::empty(),
    }
}

impl VarContent {
    /// The bytes this content takes in a data section.
    pub fn bytes(&self) -> (r: Vec<u8>)
        ensures
            r@ == content_bytes(*self),
    {
        let mut r: Vec<u8> = Vec::new();
        match self {
            VarContent::Number(b) => push_all(&mut r, b.as_slice()),
            VarContent::String(s) => push_all(&mut r, s.as_str().as_bytes()),
            VarContent::Uninit => {},
        }
        assert(r@ =~= content_bytes(*self));
        r
    }
}

} // verus!
