use vstd::prelude::*;

use crate::size::Size;

verus! {

/// A register as the encoders see it: its number split into the low three bits (`byte`),
/// bit 3 (`ext3`, the REX/VEX extension bit) and bit 4 (`ext4`, the APX/EVEX extension bit),
/// its size, whether it is the stack pointer (SP/ESP/RSP) or the base pointer (BP/EBP/RBP),
/// and what kind of register it is.
#[derive(Clone, Copy, Debug, PartialEq, Eq)]
pub struct Reg {
    pub byte: u8,
    pub ext3: bool,
    pub ext4: bool,
    pub size: Size,
    pub is_sp: bool,
    pub is_bp: bool,
    pub purpose: Purpose,
}

/// What a register is for: general purpose, segment, control, debug, MMX, x87 stack, mask, or
/// any other kind (vector).
#[derive(Clone, Copy, Debug, PartialEq, Eq, Structural)]
pub enum Purpose {
    General,
    Segment,
    Control,
    Debug,
    Mmx,
    Fpu,
    Mask,
    Other,
}

/// Whether a register is a control, debug or segment register.
pub open spec fn is_special(r: Reg) -> bool {
    r.purpose == Purpose::Segment || r.purpose == Purpose::Control || r.purpose == Purpose::Debug
}

impl Reg {
    /// Whether the register is a control, debug or segment register.
    pub fn special(&self) -> (r: bool)
        ensures
            r == is_special(*self),
    {
        match self.purpose {
            Purpose::Segment | Purpose::Control | Purpose::Debug => true,
            _ => false,
        }
    }
}

/// A segment register.
#[derive(Clone, Copy, Debug, PartialEq, Eq, Structural)]
pub enum SegReg {
    CS,
    SS,
    DS,
    ES,
    FS,
    GS,
}

/// A memory operand as the encoders see it: its displacement bytes and their count (1 or 4),
/// whether it is RIP-relative or needs a SIB byte, its base and index registers, the two-bit
/// SIB scale code, its size, its address size, its segment override and whether it is a
/// broadcast.
#[derive(Clone, Copy, Debug)]
pub struct Mem {
    pub offset: Option<([u8; 4], u8)>,
    pub riprel: bool,
    pub sib: bool,
    pub base: Option<Reg>,
    pub index: Option<Reg>,
    pub scale: u8,
    pub size: Size,
    pub addrsize: Size,
    pub segment: Option<SegReg>,
    pub bcst: bool,
}

/// An operand as the encoders see it.
#[derive(Clone, Copy, Debug)]
pub enum Operand {
    Register(Reg),
    Mem(Mem),
    Imm(Size),
    Symbol(bool),
    String,
}

/// A register number split as the encoders expect: the low part below 8.
pub open spec fn reg_wf(r: Reg) -> bool {
    r.byte < 8
}

/// The registers of a memory operand are well formed and its scale code has two bits.
pub open spec fn mem_wf(m: Mem) -> bool {
    &&& m.scale < 4
    &&& (m.base matches Some(b) ==> reg_wf(b))
    &&& (m.index matches Some(i) ==> reg_wf(i))
}

/// The registers of an operand are well formed.
pub open spec fn operand_wf(op: Operand) -> bool {
    match op {
        Operand::Register(r) => reg_wf(r),
        Operand::Mem(m) => mem_wf(m),
        _ => true,
    }
}

/// An optional operand is well formed.
pub open spec fn opt_wf(op: Option<Operand>) -> bool {
    op matches Some(o) ==> operand_wf(o)
}

/// The extension bits of a register slot: `(bit 4, bit 3)`, both clear when absent.
pub open spec fn reg_ext(r: Option<Reg>) -> (bool, bool) {
    match r {
        Some(r) => (r.ext4, r.ext3),
        None => (false, false),
    }
}

/// The extension bits of an operand: for a register its own `(bit 4, bit 3)` and no index
/// bits; for memory the base's and the index's; none for anything else.
pub open spec fn spec_ebits(op: Option<Operand>) -> ((bool, bool), (bool, bool)) {
    match op {
        Some(Operand::Register(r)) => ((r.ext4, r.ext3), (false, false)),
        Some(Operand::Mem(m)) => (reg_ext(m.base), reg_ext(m.index)),
        _ => ((false, false), (false, false)),
    }
}

/// The extension bits of an operand: `((bit 4, bit 3) of the register or base, (bit 4, bit 3)
/// of the index)`.
pub fn ebits(op: &Option<Operand>) -> (r: ((bool, bool), (bool, bool)))
    ensures
        r == spec_ebits(*op),
{
    match op {
        Some(Operand::Register(r)) => ((r.ext4, r.ext3), (false, false)),
        Some(Operand::Mem(m)) => {
            let b = match m.base {
                Some(b) => (b.ext4, b.ext3),
                None => (false, false),
            };
            let i = match m.index {
                Some(i) => (i.ext4, i.ext3),
                None => (false, false),
            };
            (b, i)
        },
        _ => ((false, false), (false, false)),
    }
}

/// The REX.B and REX.X bits a memory operand needs: bit 3 of its base and of its index.
pub open spec fn spec_mem_needs_rex(m: Mem) -> (bool, bool) {
    (reg_ext(m.base).1, reg_ext(m.index).1)
}

/// The REX.B and REX.X bits a memory operand needs.
pub fn mem_needs_rex(m: &Mem) -> (r: (bool, bool))
    ensures
        r == spec_mem_needs_rex(*m),
{
    let b = match m.base {
        Some(b) => b.ext3,
        None => false,
    };
    let x = match m.index {
        Some(i) => i.ext3,
        None => false,
    };
    (b, x)
}

/// The size of an operand: that of a register, memory or immediate, Unknown otherwise.
pub open spec fn spec_operand_size(op: Option<Operand>) -> Size {
    match op {
        Some(Operand::Register(r)) => r.size,
        Some(Operand::Mem(m)) => m.size,
        Some(Operand::Imm(s)) => s,
        _ => Size::Unknown,
    }
}

/// The size of an operand.
pub fn operand_size(op: &Option<Operand>) -> (r: Size)
    ensures
        r == spec_operand_size(*op),
{
    match op {
        Some(Operand::Register(r)) => r.size,
        Some(Operand::Mem(m)) => m.size,
        Some(Operand::Imm(s)) => *s,
        _ => Size::Unknown,
    }
}

} // verus!
