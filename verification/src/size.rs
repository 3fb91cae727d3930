use vstd::prelude::*;

verus! {

/// Operand and instruction sizes.
#[derive(Clone, Copy, Debug, PartialEq, Eq, Structural)]
pub enum Size {
    Unknown,
    Byte,
    Word,
    Dword,
    Qword,
    Xword,
    Yword,
    Zword,
    Any,
}

/// The one-byte code under which a size is stored in a packed field.
pub open spec fn size_code(s: Size) -> u8 {
    match s {
        Size::Unknown => 0,
        Size::Byte => 1,
        Size::Word => 2,
        Size::Dword => 4,
        Size::Qword => 8,
        Size::Xword => 16,
        Size::Yword => 32,
        Size::Zword => 64,
        Size::Any => 128,
    }
}

/// The size stored under `code`, if `code` is the code of a size.
pub open spec fn size_from_code(code: u8) -> Option<Size> {
    if code == 0 {
        Some(Size::Unknown)
    } else if code == 1 {
        Some(Size::Byte)
    } else if code == 2 {
        Some(Size::Word)
    } else if code == 4 {
        Some(Size::Dword)
    } else if code == 8 {
        Some(Size::Qword)
    } else if code == 16 {
        Some(Size::Xword)
    } else if code == 32 {
        Some(Size::Yword)
    } else if code == 64 {
        Some(Size::Zword)
    } else if code == 128 {
        Some(Size::Any)
    } else {
        None
    }
}

/// Every size is recovered from its code.
pub proof fn lemma_size_code_roundtrip(s: Size)
    ensures
        size_from_code(size_code(s)) == Some(s),
{
}

impl Size {
    /// The code of this size.
    pub fn code(self) -> (c: u8)
        ensures
            c == size_code(self),
    {
        match self {
            Size::Unknown => 0,
            Size::Byte => 1,
            Size::Word => 2,
            Size::Dword => 4,
            Size::Qword => 8,
            Size::Xword => 16,
            Size::Yword => 32,
            Size::Zword => 64,
            Size::Any => 128,
        }
    }

    /// The size whose code is `code`, if there is one.
    pub fn from_code(code: u8) -> (r: Option<Size>)
        ensures
            r == size_from_code(code),
    {
        if code == 0 {
            Some(Size::Unknown)
        } else if code == 1 {
            Some(Size::Byte)
        } else if code == 2 {
            Some(Size::Word)
        } else if code == 4 {
            Some(Size::Dword)
        } else if code == 8 {
            Some(Size::Qword)
        } else if code == 16 {
            Some(Size::Xword)
        } else if code == 32 {
            Some(Size::Yword)
        } else if code == 64 {
            Some(Size::Zword)
        } else if code == 128 {
            Some(Size::Any)
        } else {
            None
        }
    }
}

} // verus!
