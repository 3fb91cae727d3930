use vstd::prelude::*;

use crate::operand::{
    is_special, mem_needs_rex, operand_size, spec_mem_needs_rex, spec_operand_size, Mem, Operand,
};
use crate::size::Size;

verus! {

/// How an instruction's mnemonic bears on whether it needs a REX prefix once one of its
/// operands is a quadword.
#[derive(Clone, Copy, Debug, PartialEq, Eq, Structural)]
pub enum RexClass {
    /// CMPXCHG16B: always needs REX.W.
    Cmpxchg16b,
    /// Mnemonics that always need REX with a quadword operand (XADD, XSAVE*, SHLD, BSF,
    /// CMOVcc, MOVZX, POPCNT, MOVQ, ...).
    QwordAlways,
    /// MOV.
    Mov,
    /// ADD, SUB, CMP, TEST, INC, DEC, AND, OR, XOR, NOT, NEG, ADC, SBB, XCHG, IMUL: need REX
    /// when an operand is a register or memory.
    Arith,
    /// SAR, SAL, SHL, SHR, LEA.
    ShiftLea,
    /// Any other mnemonic: needs REX only for an extended register operand.
    Other,
}

/// The facts about an instruction that the REX computation reads.
#[derive(Clone, Copy, Debug)]
pub struct RexFacts {
    pub class: RexClass,
    pub uses_cr: bool,
    pub uses_dr: bool,
    pub defaults_to_64bit: bool,
    /// UD1 or UD2.
    pub is_ud: bool,
}

/// 1 for true, 0 for false.
pub open spec fn spec_btoi(b: bool) -> u8 {
    if b {
        1
    } else {
        0
    }
}

/// 1 for true, 0 for false.
pub fn btoi(b: bool) -> (r: u8)
    ensures
        r == spec_btoi(b),
{
    if b {
        1
    } else {
        0
    }
}

/// The REX byte `0100WRXB`.
pub open spec fn spec_rex(w: bool, r: bool, x: bool, b: bool) -> u8 {
    (0x40 + 8 * spec_btoi(w) + 4 * spec_btoi(r) + 2 * spec_btoi(x) + spec_btoi(b)) as u8
}

/// The REX byte `0100WRXB`.
pub fn rex(w: bool, r: bool, x: bool, b: bool) -> (res: u8)
    ensures
        res == spec_rex(w, r, x, b),
        res >> 4u8 == 4,
        (res & 8 == 8) == w,
        (res & 4 == 4) == r,
        (res & 2 == 2) == x,
        (res & 1 == 1) == b,
{
    let (bw, br, bx, bb) = (btoi(w), btoi(r), btoi(x), btoi(b));
    let res = 0b0100_0000u8 | (bw << 3u8) | (br << 2u8) | (bx << 1u8) | bb;
    assert(res == (0x40 + 8 * bw + 4 * br + 2 * bx + bb) as u8 && res >> 4u8 == 4 && (res & 8 == 8)
        == (bw == 1) && (res & 4 == 4) == (br == 1) && (res & 2 == 2) == (bx == 1) && (res & 1 == 1)
        == (bb == 1)) by (bit_vector)
        requires
            bw < 2,
            br < 2,
            bx < 2,
            bb < 2,
            res == 0b0100_0000u8 | (bw << 3u8) | (br << 2u8) | (bx << 1u8) | bb,
    ;
    res
}

/// Bit 3 of a register operand's number; false for anything else.
pub open spec fn spec_get_wb(op: Option<Operand>) -> bool {
    match op {
        Some(Operand::Register(r)) => r.ext3,
        _ => false,
    }
}

/// Bit 3 of a register operand's number; false for anything else.
pub fn get_wb(op: &Option<Operand>) -> (r: bool)
    ensures
        r == spec_get_wb(*op),
{
    match op {
        Some(Operand::Register(reg)) => reg.ext3,
        _ => false,
    }
}

/// Whether the reg operand is the destination once XMM destinations and UD1/UD2 are taken
/// into account: they always count as the destination being in ModRM.reg.
pub open spec fn spec_fix_rev(rev: bool, dst: Option<Operand>, facts: RexFacts) -> bool {
    rev || (dst matches Some(Operand::Register(r)) && r.size == Size::Xword) || facts.is_ud
}

/// The REX.W bit: a quadword operand, unless the instruction uses a control or debug register
/// or defaults to 64 bits; always for CMPXCHG16B.
pub open spec fn rex_w_bit(dst: Option<Operand>, src: Option<Operand>, facts: RexFacts) -> bool {
    (!(facts.uses_cr || facts.uses_dr || facts.defaults_to_64bit) && (spec_operand_size(dst)
        == Size::Qword || spec_operand_size(src) == Size::Qword)) || facts.class
        == RexClass::Cmpxchg16b
}

/// The memory operand among `dst` and `src` (the destination first), if any.
pub open spec fn mem_of(dst: Option<Operand>, src: Option<Operand>) -> Option<crate::operand::Mem> {
    match dst {
        Some(Operand::Mem(m)) => Some(m),
        _ => match src {
            Some(Operand::Mem(m)) => Some(m),
            _ => None,
        },
    }
}

/// The REX.R, REX.X and REX.B bits.
pub open spec fn rex_rxb_bits(
    dst: Option<Operand>,
    src: Option<Operand>,
    rev0: bool,
    facts: RexFacts,
) -> (bool, bool, bool) {
    let rev = spec_fix_rev(rev0, dst, facts);
    let r0 = if !rev {
        spec_get_wb(src)
    } else {
        spec_get_wb(dst)
    };
    let b0 = if !rev {
        spec_get_wb(dst)
    } else {
        spec_get_wb(src)
    };
    let (b1, x1) = match mem_of(dst, src) {
        Some(m) => spec_mem_needs_rex(m),
        None => (b0, false),
    };
    let dst_ext = dst matches Some(Operand::Register(r)) && r.ext3;
    let r2 = if dst_ext && rev {
        true
    } else {
        r0
    };
    let b2 = if dst_ext && !rev {
        true
    } else {
        b1
    };
    (r2, x1, b2)
}

/// The REX byte of an instruction with destination `dst` and source `src`, `rev` telling
/// whether the destination is encoded in ModRM.reg.
pub open spec fn spec_calc_rex(
    dst: Option<Operand>,
    src: Option<Operand>,
    rev: bool,
    facts: RexFacts,
) -> u8 {
    let (r, x, b) = rex_rxb_bits(dst, src, rev, facts);
    spec_rex(rex_w_bit(dst, src, facts), r, x, b)
}

/// The REX byte of an instruction with destination `dst` and source `src`.
pub fn calc_rex(
    dst: &Option<Operand>,
    src: &Option<Operand>,
    modrm_reg_is_dst: bool,
    facts: &RexFacts,
) -> (res: u8)
    ensures
        res == spec_calc_rex(*dst, *src, modrm_reg_is_dst, *facts),
{
    let wbs = get_wb(src);
    let wbd = get_wb(dst);
    let sized = operand_size(dst);
    let sizes = operand_size(src);
    let mut rev = modrm_reg_is_dst;
    if let Some(Operand::Register(reg)) = dst {
        if reg.size == Size::Xword {
            rev = true;
        }
    }
    if facts.is_ud {
        rev = true;
    }
    let w = (!(facts.uses_cr || facts.uses_dr || facts.defaults_to_64bit) && (sized == Size::Qword
        || sizes == Size::Qword)) || facts.class == RexClass::Cmpxchg16b;
    let mut r = if !rev {
        wbs
    } else {
        wbd
    };
    let mut b = if !rev {
        wbd
    } else {
        wbs
    };
    let mut x = false;
    match dst {
        Some(Operand::Mem(m)) => {
            let (bb, xx) = mem_needs_rex(m);
            b = bb;
            x = xx;
        },
        _ => match src {
            Some(Operand::Mem(m)) => {
                let (bb, xx) = mem_needs_rex(m);
                b = bb;
                x = xx;
            },
            _ => {},
        },
    }
    if let Some(Operand::Register(reg)) = dst {
        if reg.ext3 {
            if rev {
                r = true;
            } else {
                b = true;
            }
        }
    }
    rex(w, r, x, b)
}

/// The bits of a REX byte read back: the high nibble is 0100, then W, R, X and B from bit 3
/// down to bit 0.
pub proof fn lemma_rex_bits(w: bool, r: bool, x: bool, b: bool)
    ensures
        spec_rex(w, r, x, b) & 0xF0 == 0x40,
        (spec_rex(w, r, x, b) & 8 == 8) == w,
        (spec_rex(w, r, x, b) & 4 == 4) == r,
        (spec_rex(w, r, x, b) & 2 == 2) == x,
        (spec_rex(w, r, x, b) & 1 == 1) == b,
{
    let (bw, br, bx, bb) = (spec_btoi(w), spec_btoi(r), spec_btoi(x), spec_btoi(b));
    let v = spec_rex(w, r, x, b);
    assert(v & 0xF0 == 0x40 && (v & 8 == 8) == (bw == 1) && (v & 4 == 4) == (br == 1) && (v & 2 == 2)
        == (bx == 1) && (v & 1 == 1) == (bb == 1)) by (bit_vector)
        requires
            bw <= 1,
            br <= 1,
            bx <= 1,
            bb <= 1,
            v == (0x40 + 8 * bw + 4 * br + 2 * bx + bb) as u8,
    ;
}

/// With a memory operand `m` (the destination, or the source when the destination is
/// neither memory nor an extended register), the REX byte's X bit is bit 3 of the index
/// register's number and its B bit bit 3 of the base register's number, each clear when that
/// register is absent; the byte is 0100WRXB.
pub proof fn lemma_rex_memory_bits(dst: Option<Operand>, src: Option<Operand>, rev: bool, facts: RexFacts, m: Mem)
    requires
        dst == Some(Operand::Mem(m)) || (src == Some(Operand::Mem(m)) && !(dst matches Some(Operand::Mem(_)))
            && !(dst matches Some(Operand::Register(r)) && r.ext3)),
    ensures
        spec_calc_rex(dst, src, rev, facts) & 0xF0 == 0x40,
        (spec_calc_rex(dst, src, rev, facts) & 2 == 2) == (m.index matches Some(i) && i.ext3),
        (spec_calc_rex(dst, src, rev, facts) & 1 == 1) == (m.base matches Some(b) && b.ext3),
{
    let (r, x, b) = rex_rxb_bits(dst, src, rev, facts);
    lemma_rex_bits(rex_w_bit(dst, src, facts), r, x, b);
}

/// With two register operands, the REX byte carries bit 3 of the number of the operand
/// encoded in ModRM.reg in R and that of the operand in ModRM.rm in B, and no X. The
/// destination is in ModRM.reg when `rev` says so, when it is an XMM register, or for UD1
/// and UD2; otherwise the source is.
pub proof fn lemma_rex_register_bits(dst: Operand, src: Operand, rev: bool, facts: RexFacts)
    requires
        dst is Register,
        src is Register,
    ensures
        ({
            let d = dst->Register_0;
            let s = src->Register_0;
            let dst_in_reg = rev || d.size == Size::Xword || facts.is_ud;
            let v = spec_calc_rex(Some(dst), Some(src), rev, facts);
            &&& v & 0xF0 == 0x40
            &&& (v & 4 == 4) == (if dst_in_reg { d.ext3 } else { s.ext3 })
            &&& (v & 1 == 1) == (if dst_in_reg { s.ext3 } else { d.ext3 })
            &&& v & 2 != 2
        }),
{
    let (r, x, b) = rex_rxb_bits(Some(dst), Some(src), rev, facts);
    lemma_rex_bits(rex_w_bit(Some(dst), Some(src), facts), r, x, b);
}

/// Whether an operand is a register with bit 3 of its number set.
pub open spec fn is_ext_reg(op: Operand) -> bool {
    op matches Operand::Register(r) && r.ext3
}

/// Whether some register operand of `ops` has bit 3 of its number set.
pub open spec fn any_ext_reg(ops: Seq<Operand>) -> bool {
    exists|i: int| 0 <= i < ops.len() && #[trigger] is_ext_reg(ops[i])
}

/// Whether an instruction with operands `ops` (destination first, then source) needs a REX
/// prefix: always for CMPXCHG16B; whenever a register operand is extended; otherwise only with
/// a quadword destination or source, and then as its mnemonic class says.
pub open spec fn spec_needs_rex(class: RexClass, ops: Seq<Operand>) -> bool {
    let dst = if ops.len() > 0 {
        Some(ops[0])
    } else {
        None
    };
    let src = if ops.len() > 1 {
        Some(ops[1])
    } else {
        None
    };
    if class == RexClass::Cmpxchg16b {
        true
    } else if any_ext_reg(ops) {
        true
    } else if !(spec_operand_size(dst) == Size::Qword || spec_operand_size(src) == Size::Qword) {
        false
    } else {
        match class {
            RexClass::QwordAlways => true,
            RexClass::ShiftLea => true,
            RexClass::Mov => match (dst, src) {
                (Some(Operand::Register(r0)), Some(Operand::Register(r1))) => if is_special(r0)
                    || is_special(r1) {
                    r0.ext3 || r1.ext3
                } else {
                    true
                },
                _ => (dst matches Some(Operand::Mem(_))) || (src matches Some(Operand::Mem(_))) || (
                src matches Some(Operand::Imm(s)) && s == Size::Qword),
            },
            RexClass::Arith => (src matches Some(Operand::Register(_))) || (dst matches Some(
                Operand::Register(_),
            )) || (dst matches Some(Operand::Mem(_))) || (src matches Some(Operand::Mem(_))),
            _ => (dst matches Some(Operand::Register(r)) && r.ext3) || (src matches Some(
                Operand::Register(r),
            ) && r.ext3),
        }
    }
}

/// Whether an instruction of mnemonic class `class` with operands `ops` needs a REX prefix.
pub fn needs_rex(class: RexClass, ops: &[Operand]) -> (r: bool)
    ensures
        r == spec_needs_rex(class, ops@),
{
    let dst: Option<Operand> = if ops.len() > 0 {
        Some(ops[0])
    } else {
        None
    };
    let src: Option<Operand> = if ops.len() > 1 {
        Some(ops[1])
    } else {
        None
    };
    if class == RexClass::Cmpxchg16b {
        return true;
    }
    let mut i: usize = 0;
    while i < ops.len()
        invariant
            i <= ops@.len(),
            forall|j: int| 0 <= j < i ==> !#[trigger] is_ext_reg(ops@[j]),
        decreases ops@.len() - i,
    {
        if let Operand::Register(r) = ops[i] {
            if r.ext3 {
                assert(is_ext_reg(ops@[i as int]));
                return true;
            }
        }
        i = i + 1;
    }
    let size_d = operand_size(&dst);
    let size_s = operand_size(&src);
    if !(size_d == Size::Qword || size_s == Size::Qword) {
        return false;
    }
    match class {
        RexClass::QwordAlways => true,
        RexClass::ShiftLea => true,
        RexClass::Mov => {
            if let (Some(Operand::Register(r0)), Some(Operand::Register(r1))) = (dst, src) {
                if r0.special() || r1.special() {
                    return r0.ext3 || r1.ext3;
                } else {
                    return true;
                }
            }
            if let Some(Operand::Mem(_)) = dst {
                return true;
            }
            if let Some(Operand::Mem(_)) = src {
                return true;
            }
            if let Some(Operand::Imm(s)) = src {
                if s == Size::Qword {
                    return true;
                }
            }
            false
        },
        RexClass::Arith => {
            matches!(src, Some(Operand::Register(_))) || matches!(dst, Some(Operand::Register(_)))
                || matches!(dst, Some(Operand::Mem(_))) || matches!(src, Some(Operand::Mem(_)))
        },
        _ => {
            if let Some(Operand::Register(d)) = dst {
                if d.ext3 {
                    return true;
                }
            }
            if let Some(Operand::Register(s)) = src {
                if s.ext3 {
                    return true;
                }
            }
            false
        },
    }
}

/// The REX prefix of an instruction with operands `ops` (the first two taken as destination
/// and source), if it needs one.
pub open spec fn spec_gen_rex(ops: Seq<Operand>, rev: bool, facts: RexFacts) -> Option<u8> {
    if spec_needs_rex(facts.class, ops) {
        Some(
            spec_calc_rex(
                if ops.len() > 0 {
                    Some(ops[0])
                } else {
                    None
                },
                if ops.len() > 1 {
                    Some(ops[1])
                } else {
                    None
                },
                rev,
                facts,
            ),
        )
    } else {
        None
    }
}

/// The REX prefix of an instruction with operands `ops`, if it needs one.
pub fn gen_rex(ops: &[Operand], rev: bool, facts: &RexFacts) -> (r: Option<u8>)
    ensures
        r == spec_gen_rex(ops@, rev, *facts),
{
    let dst: Option<Operand> = if ops.len() > 0 {
        Some(ops[0])
    } else {
        None
    };
    let src: Option<Operand> = if ops.len() > 1 {
        Some(ops[1])
    } else {
        None
    };
    if needs_rex(facts.class, ops) {
        Some(calc_rex(&dst, &src, rev, facts))
    } else {
        None
    }
}

} // verus!
