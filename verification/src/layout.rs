use vstd::prelude::*;

use crate::api::{
    addt_with_vlength, opord_from_code, spec_map_select, spec_pp, vex_prefix_word, apx_prefix_word,
    meta_with_fpfx, GenAPI, MegaBool, OpOrd, VexDetails, CAN_H66O, PREFIX_APX, PREFIX_EVEX,
    PREFIX_VEX, STRICT_PFX,
};
use crate::apx::{apx_variant_from_code, APXVariant};
use crate::booltable::with_flag;
use crate::comp::{l_fixed, l_imm, l_modrm, l_opcode, l_ord, l_rex, layout_of, new_layout, Layout};
use crate::size::{size_from_code, Size};

verus! {

/// The operand slots the codes `s` name.
pub open spec fn ords_of(s: Seq<u8>) -> Seq<OpOrd> {
    s.map_values(|c: u8| opord_from_code(c))
}

/// The details of a VEX or EVEX prefix: pp, map_select, W/E and the packed vector length.
pub open spec fn vex_details(pp: u8, ms: u8, we: bool, vl: u8) -> VexDetails {
    VexDetails { pp, map_select: ms, vex_we: we, vlength: MegaBool { data: vl } }
}

/// One step of a layout program at position `pos` of `p`, on `l`, for an instruction of
/// facts `q`: where the next step starts and the layout after this one, or `None` at a code
/// that is no step or a step cut short. Each step is a code and its arguments:
/// 1 n b.. the opcode (n ≤ 4 bytes); 2 on has reg ModRM; 3 n c.. the operand order (n ≤ 4
/// slot codes); 4 REX; 5 idx size the immediate; 6 p the legacy prefix byte; 7 a strict
/// prefix; 8 c the fixed size of code c; 9 b whether 0x66 may be emitted;
/// 10 pp ms we vl a VEX prefix; 11 pp ms we vl an EVEX prefix; 12 v pp ms we nd an APX
/// prefix of variant code v; 13 c a condition code ORed into the APX prefix; 14 pp ms sel vl
/// a VEX prefix, 16 pp ms sel vl an EVEX prefix and 15 v pp ms sel nd an APX prefix, each
/// with W/E set when the part of the instruction `sel` names is a quadword (see `quad_of`);
/// 17 the operand order of a flags-conditional move (see `cfcmov_ord`); 18 c k: on when
/// condition `c` holds (see `cond_of`), else past the next `k` bytes; 19 k: past the next
/// `k` bytes; 20 b0 b1 sel: the opcode b0, b1 plus the number of the destination (sel 0) or
/// source (sel 1) register, which must be one; 21 b0 d: the opcode b0 and the first byte of
/// the destination's number, `d` when it is no immediate; 22 b0: the opcode b0 and the two
/// low bytes of the destination's number (zeros when it is no immediate); 23 b sel: the
/// one-byte opcode b plus the number of the destination (sel 0) or source register.
pub open spec fn prog_step(p: Seq<u8>, pos: int, l: Layout, q: Quads) -> Option<(int, Layout)> {
    let len = p.len() as int;
    let op = p[pos];
    if pos < 0 || pos >= len {
        None
    } else if op == 1 {
        if pos + 1 < len && p[pos + 1] <= 4 && pos + 2 + p[pos + 1] <= len {
            let n = p[pos + 1] as int;
            Some((pos + 2 + n, l_opcode(l, p.subrange(pos + 2, pos + 2 + n))))
        } else {
            None
        }
    } else if op == 2 {
        if pos + 3 < len {
            Some(
                (
                    pos + 4,
                    l_modrm(
                        l,
                        p[pos + 1] != 0,
                        if p[pos + 2] != 0 {
                            Some(p[pos + 3])
                        } else {
                            None
                        },
                    ),
                ),
            )
        } else {
            None
        }
    } else if op == 3 {
        if pos + 1 < len && p[pos + 1] <= 4 && pos + 2 + p[pos + 1] <= len {
            let n = p[pos + 1] as int;
            Some((pos + 2 + n, l_ord(l, ords_of(p.subrange(pos + 2, pos + 2 + n)))))
        } else {
            None
        }
    } else if op == 4 {
        Some((pos + 1, l_rex(l)))
    } else if op == 5 {
        if pos + 2 < len {
            Some((pos + 3, l_imm(l, p[pos + 1] as u16, p[pos + 2] as u16)))
        } else {
            None
        }
    } else if op == 6 {
        if pos + 1 < len {
            Some((pos + 2, Layout { prefix: p[pos + 1] as u16, ..l }))
        } else {
            None
        }
    } else if op == 7 {
        Some((pos + 1, Layout { flags: with_flag(l.flags, STRICT_PFX as u16, true), ..l }))
    } else if op == 8 {
        if pos + 1 < len && size_from_code(p[pos + 1]) is Some {
            Some((pos + 2, l_fixed(l, size_from_code(p[pos + 1]).unwrap())))
        } else {
            None
        }
    } else if op == 9 {
        if pos + 1 < len {
            Some((pos + 2, Layout { flags: with_flag(l.flags, CAN_H66O as u16, p[pos + 1] != 0), ..l }))
        } else {
            None
        }
    } else if op == 10 || op == 11 || op == 14 || op == 16 {
        let w: int = 4;
        if pos + w < len {
            let we = if op == 14 || op == 16 { quad_of(q, p[pos + 3]) } else { p[pos + 3] != 0 };
            let ms = if op == 11 || op == 16 { p[pos + 2] } else { spec_map_select(p[pos + 2]) };
            Some(
                (
                    pos + w + 1,
                    Layout {
                        meta_0: meta_with_fpfx(
                            l.meta_0,
                            if op == 11 || op == 16 {
                                PREFIX_EVEX
                            } else {
                                PREFIX_VEX
                            },
                        ),
                        prefix: vex_prefix_word(we, ms, spec_pp(p[pos + 1])),
                        addt: addt_with_vlength(l.addt, p[pos + w]),
                        ..l
                    },
                ),
            )
        } else {
            None
        }
    } else if op == 12 || op == 15 {
        let w: int = 5;
        if pos + w < len && apx_variant_from_code(p[pos + 1]) is Some {
            let we = if op == 15 { quad_of(q, p[pos + 4]) } else { p[pos + 4] != 0 };
            Some(
                (
                    pos + w + 1,
                    Layout {
                        meta_0: meta_with_fpfx(l.meta_0, PREFIX_APX),
                        prefix: apx_prefix_word(
                            apx_variant_from_code(p[pos + 1]).unwrap(),
                            vex_details(p[pos + 2], p[pos + 3], we, 0),
                            p[pos + w] != 0,
                        ),
                        ..l
                    },
                ),
            )
        } else {
            None
        }
    } else if op == 17 {
        Some((pos + 1, l_ord(l, cfcmov_ord(q))))
    } else if op == 18 {
        if pos + 2 < len {
            if cond_of(q, p[pos + 1]) {
                Some((pos + 3, l))
            } else if pos + 3 + p[pos + 2] > len {
                Some((len, l))
            } else {
                Some((pos + 3 + p[pos + 2], l))
            }
        } else {
            None
        }
    } else if op == 19 {
        if pos + 1 < len {
            if pos + 2 + p[pos + 1] > len {
                Some((len, l))
            } else {
                Some((pos + 2 + p[pos + 1], l))
            }
        } else {
            None
        }
    } else if op == 20 {
        let r = if pos + 3 < len && p[pos + 3] == 0 { q.dst_regno } else { q.src_regno };
        if pos + 3 < len && r is Some {
            Some((pos + 4, l_opcode(l, seq![p[pos + 1], (p[pos + 2] + r.unwrap()) as u8])))
        } else {
            None
        }
    } else if op == 21 {
        if pos + 2 < len {
            let b = match q.dst_imm {
                Some((b0, _)) => b0,
                None => p[pos + 2],
            };
            Some((pos + 3, l_opcode(l, seq![p[pos + 1], b])))
        } else {
            None
        }
    } else if op == 22 {
        if pos + 1 < len {
            let (b0, b1) = match q.dst_imm {
                Some(v) => v,
                None => (0u8, 0u8),
            };
            Some((pos + 2, l_opcode(l, seq![p[pos + 1], b0, b1])))
        } else {
            None
        }
    } else if op == 23 {
        let r = if pos + 2 < len && p[pos + 2] == 0 { q.dst_regno } else { q.src_regno };
        if pos + 2 < len && r is Some {
            Some((pos + 3, l_opcode(l, seq![(p[pos + 1] + r.unwrap()) as u8])))
        } else {
            None
        }
    } else if op == 13 {
        if pos + 1 < len {
            Some((pos + 2, Layout { prefix: l.prefix | ((p[pos + 1] as u16) & 0xF), ..l }))
        } else {
            None
        }
    } else {
        None
    }
}

/// The facts about an instruction that layout programs read: which of the instruction, its
/// destination, its source and its second source are quadwords (see `quad_of`), the facts
/// the conditional steps test (see `cond_of`), and the register and immediate numbers the
/// opcode steps add.
#[derive(Clone, Copy, Debug)]
pub struct Quads {
    pub ins: bool,
    pub dst: bool,
    pub src: bool,
    pub ssrc: bool,
    /// The instruction has three operands.
    pub three: bool,
    /// It needs EVEX.
    pub needs_evex: bool,
    /// The facts the conditional steps test, by condition code (see `cond_of`).
    pub not_mmx: bool,
    pub dst_mem: bool,
    pub src_imm: bool,
    pub ssrc_imm: bool,
    pub dst_mem_or_sym: bool,
    pub src_mem: bool,
    pub has_src: bool,
    pub has_dst: bool,
    pub src_word: bool,
    pub ins_byte: bool,
    pub dst_reg_not_xmm: bool,
    pub dst_xmm_or_mmx: bool,
    pub src_byte: bool,
    pub dst_reg: bool,
    /// The number of the destination register, if it is one.
    pub dst_regno: Option<u8>,
    /// The number of the source register (0, ST0, without a source), if it is one.
    pub src_regno: Option<u8>,
    /// The two low bytes of the destination's number, if it is an immediate.
    pub dst_imm: Option<(u8, u8)>,
}

/// The fact condition code `c` names: 0 the instruction is no MMX one; 1 its destination is memory;
/// 2 its source is an immediate; 3 its second source is an immediate; 4 its destination is memory
/// or a symbol; 5 its source is memory; 6 it has a source; 7 it has a destination; 8 its source is
/// a word; 9 it is a byte instruction; 10 its destination is a register that is no XMM register; 11
/// its destination is an XMM or MMX register; 12 its source is a byte; 13 its destination is a
/// register.
pub open spec fn cond_of(q: Quads, c: u8) -> bool {
    if c == 0 {
        q.not_mmx
    } else if c == 1 {
        q.dst_mem
    } else if c == 2 {
        q.src_imm
    } else if c == 3 {
        q.ssrc_imm
    } else if c == 4 {
        q.dst_mem_or_sym
    } else if c == 5 {
        q.src_mem
    } else if c == 6 {
        q.has_src
    } else if c == 7 {
        q.has_dst
    } else if c == 8 {
        q.src_word
    } else if c == 9 {
        q.ins_byte
    } else if c == 10 {
        q.dst_reg_not_xmm
    } else if c == 11 {
        q.dst_xmm_or_mmx
    } else if c == 12 {
        q.src_byte
    } else if c == 13 {
        q.dst_reg
    } else {
        false
    }
}

/// The operand order of a flags-conditional move: vvvv, reg, r/m with three operands; reg,
/// r/m with a register destination; r/m, reg otherwise.
pub open spec fn cfcmov_ord(q: Quads) -> Seq<OpOrd> {
    if q.three {
        seq![OpOrd::VEX_VVVV, OpOrd::MODRM_REG, OpOrd::MODRM_RM]
    } else if q.dst_reg {
        seq![OpOrd::MODRM_REG, OpOrd::MODRM_RM]
    } else {
        seq![OpOrd::MODRM_RM, OpOrd::MODRM_REG]
    }
}

/// Whether the part of an instruction that selector `sel` names (0 the instruction, 1 its
/// destination, 2 its source, 3 its second source; 4 whether it needs EVEX) is a quadword.
pub open spec fn quad_of(q: Quads, sel: u8) -> bool {
    if sel == 0 {
        q.ins
    } else if sel == 1 {
        q.dst
    } else if sel == 2 {
        q.src
    } else if sel == 3 {
        q.ssrc
    } else {
        q.needs_evex
    }
}

/// A layout built by the layout program `p` from position `pos`, on `l`, for an instruction
/// with facts `q`: its steps in turn until the program ends or a step cannot be read.
pub open spec fn run_prog(p: Seq<u8>, pos: int, l: Layout, q: Quads) -> Layout
    decreases p.len() - pos,
{
    if pos < 0 || pos >= p.len() {
        l
    } else {
        match prog_step(p, pos, l, q) {
            Some((next, l2)) => if pos < next {
                run_prog(p, next, l2, q)
            } else {
                l
            },
            None => l,
        }
    }
}

/// The `n` bytes of `p` from `start`.
fn bytes_at(p: &Vec<u8>, start: usize, n: usize) -> (r: Vec<u8>)
    requires
        start + n <= p@.len(),
    ensures
        r@ == p@.subrange(start as int, start + n),
{
    let mut r: Vec<u8> = Vec::new();
    let mut i: usize = 0;
    let len = p.len();
    assert(len == p@.len());
    while i < n
        invariant
            start + n <= p@.len() <= usize::MAX,
            i <= n,
            r@ == p@.subrange(start as int, start + i),
        decreases n - i,
    {
        r.push(p[start + i]);
        i = i + 1;
        assert(r@ =~= p@.subrange(start as int, start + i));
    }
    r
}

/// The operand slots named by the `n` codes of `p` from `start`.
fn ords_at(p: &Vec<u8>, start: usize, n: usize) -> (r: Vec<OpOrd>)
    requires
        start + n <= p@.len(),
    ensures
        r@ == ords_of(p@.subrange(start as int, start + n)),
{
    let mut r: Vec<OpOrd> = Vec::new();
    let mut i: usize = 0;
    let len = p.len();
    assert(len == p@.len());
    while i < n
        invariant
            start + n <= p@.len() <= usize::MAX,
            i <= n,
            r@ == ords_of(p@.subrange(start as int, start + i)),
        decreases n - i,
    {
        r.push(OpOrd::from_code(p[start + i]));
        i = i + 1;
        assert(r@ =~= ords_of(p@.subrange(start as int, start + i)));
    }
    r
}

/// Whether the part of an instruction that `sel` names is a quadword.
fn quad_at(q: Quads, sel: u8) -> (r: bool)
    ensures
        r == quad_of(q, sel),
{
    if sel == 0 {
        q.ins
    } else if sel == 1 {
        q.dst
    } else if sel == 2 {
        q.src
    } else if sel == 3 {
        q.ssrc
    } else {
        q.needs_evex
    }
}

/// The fact condition code `c` names.
fn cond_at(q: Quads, c: u8) -> (r: bool)
    ensures
        r == cond_of(q, c),
{
    if c == 0 {
        q.not_mmx
    } else if c == 1 {
        q.dst_mem
    } else if c == 2 {
        q.src_imm
    } else if c == 3 {
        q.ssrc_imm
    } else if c == 4 {
        q.dst_mem_or_sym
    } else if c == 5 {
        q.src_mem
    } else if c == 6 {
        q.has_src
    } else if c == 7 {
        q.has_dst
    } else if c == 8 {
        q.src_word
    } else if c == 9 {
        q.ins_byte
    } else if c == 10 {
        q.dst_reg_not_xmm
    } else if c == 11 {
        q.dst_xmm_or_mmx
    } else if c == 12 {
        q.src_byte
    } else if c == 13 {
        q.dst_reg
    } else {
        false
    }
}

/// Runs one step of a layout program on `g`, as `prog_step` reads it; `None` where it
/// reads none.
fn apply_step(p: &Vec<u8>, pos: usize, g: GenAPI, q: Quads) -> (r: Option<(usize, GenAPI)>)
    requires
        pos < p@.len(),
    ensures
        match prog_step(p@, pos as int, layout_of(g), q) {
            Some((next, l)) => r matches Some((n2, g2)) && n2 == next && layout_of(g2) == l,
            None => r is None,
        },
{
    let n = p.len();
    let op = p[pos];
    if op == 1 {
        if n - pos > 1 && p[pos + 1] <= 4 && (p[pos + 1] as usize) <= n - pos - 2 {
            let k = p[pos + 1] as usize;
            let o = bytes_at(p, pos + 2, k);
            Some((pos + 2 + k, g.opcode(o.as_slice())))
        } else {
            None
        }
    } else if op == 2 {
        if n - pos > 3 {
            let reg = if p[pos + 2] != 0 {
                Some(p[pos + 3])
            } else {
                None
            };
            Some((pos + 4, g.modrm(p[pos + 1] != 0, reg)))
        } else {
            None
        }
    } else if op == 3 {
        if n - pos > 1 && p[pos + 1] <= 4 && (p[pos + 1] as usize) <= n - pos - 2 {
            let k = p[pos + 1] as usize;
            let o = ords_at(p, pos + 2, k);
            Some((pos + 2 + k, g.ord(o.as_slice())))
        } else {
            None
        }
    } else if op == 4 {
        Some((pos + 1, g.rex()))
    } else if op == 5 {
        if n - pos > 2 {
            Some((pos + 3, g.imm_atindex(p[pos + 1] as u16, p[pos + 2] as u16)))
        } else {
            None
        }
    } else if op == 6 {
        if n - pos > 1 {
            Some((pos + 2, g.opcode_prefix(p[pos + 1])))
        } else {
            None
        }
    } else if op == 7 {
        Some((pos + 1, g.strict_pfx()))
    } else if op == 8 {
        if n - pos > 1 {
            match Size::from_code(p[pos + 1]) {
                Some(sz) => Some((pos + 2, g.fixed_size(sz))),
                None => None,
            }
        } else {
            None
        }
    } else if op == 9 {
        if n - pos > 1 {
            Some((pos + 2, g.can_h66(p[pos + 1] != 0)))
        } else {
            None
        }
    } else if op == 10 || op == 11 || op == 14 || op == 16 {
        let w: usize = 4;
        if n - pos > w {
            let we = if op == 14 || op == 16 {
                quad_at(q, p[pos + 3])
            } else {
                p[pos + 3] != 0
            };
            let d = VexDetails {
                pp: p[pos + 1],
                map_select: p[pos + 2],
                vex_we: we,
                vlength: MegaBool { data: p[pos + w] },
            };
            if op == 11 || op == 16 {
                Some((pos + w + 1, g.evex(d)))
            } else {
                Some((pos + w + 1, g.vex(d)))
            }
        } else {
            None
        }
    } else if op == 12 || op == 15 {
        let w: usize = 5;
        if n - pos > w {
            match APXVariant::from_code(p[pos + 1]) {
                Some(v) => {
                    let we = if op == 15 {
                        quad_at(q, p[pos + 4])
                    } else {
                        p[pos + 4] != 0
                    };
                    let d = VexDetails {
                        pp: p[pos + 2],
                        map_select: p[pos + 3],
                        vex_we: we,
                        vlength: MegaBool { data: 0 },
                    };
                    Some((pos + w + 1, g.apx(v, d, p[pos + w] != 0)))
                },
                None => None,
            }
        } else {
            None
        }
    } else if op == 18 {
        if n - pos > 2 {
            let k = p[pos + 2] as usize;
            if cond_at(q, p[pos + 1]) {
                Some((pos + 3, g))
            } else if k > n - pos - 3 {
                Some((n, g))
            } else {
                Some((pos + 3 + k, g))
            }
        } else {
            None
        }
    } else if op == 19 {
        if n - pos > 1 {
            let k = p[pos + 1] as usize;
            if k > n - pos - 2 {
                Some((n, g))
            } else {
                Some((pos + 2 + k, g))
            }
        } else {
            None
        }
    } else if op == 20 {
        if n - pos > 3 {
            let r = if p[pos + 3] == 0 {
                q.dst_regno
            } else {
                q.src_regno
            };
            match r {
                Some(k) => {
                    let b2 = p[pos + 2];
                    let b = ((b2 as u16 + k as u16) % 256) as u8;
                    assert(b == (b2 + k) as u8) by (bit_vector)
                        requires
                            b == ((b2 as u16 + k as u16) % 256) as u8,
                    ;
                    Some((pos + 4, g.opcode(&[p[pos + 1], b])))
                },
                None => None,
            }
        } else {
            None
        }
    } else if op == 21 {
        if n - pos > 2 {
            let b = match q.dst_imm {
                Some((b0, _)) => b0,
                None => p[pos + 2],
            };
            Some((pos + 3, g.opcode(&[p[pos + 1], b])))
        } else {
            None
        }
    } else if op == 22 {
        if n - pos > 1 {
            let (b0, b1) = match q.dst_imm {
                Some(v) => v,
                None => (0u8, 0u8),
            };
            Some((pos + 2, g.opcode(&[p[pos + 1], b0, b1])))
        } else {
            None
        }
    } else if op == 23 {
        if n - pos > 2 {
            let r = if p[pos + 2] == 0 {
                q.dst_regno
            } else {
                q.src_regno
            };
            match r {
                Some(k) => {
                    let b1 = p[pos + 1];
                    let b = ((b1 as u16 + k as u16) % 256) as u8;
                    assert(b == (b1 + k) as u8) by (bit_vector)
                        requires
                            b == ((b1 as u16 + k as u16) % 256) as u8,
                    ;
                    Some((pos + 3, g.opcode(&[b])))
                },
                None => None,
            }
        } else {
            None
        }
    } else if op == 17 {
        if q.three {
            Some((pos + 1, g.ord(&[OpOrd::VEX_VVVV, OpOrd::MODRM_REG, OpOrd::MODRM_RM])))
        } else if q.dst_reg {
            Some((pos + 1, g.ord(&[OpOrd::MODRM_REG, OpOrd::MODRM_RM])))
        } else {
            Some((pos + 1, g.ord(&[OpOrd::MODRM_RM, OpOrd::MODRM_REG])))
        }
    } else if op == 13 {
        if n - pos > 1 {
            Some((pos + 2, g.apx_cccc(p[pos + 1])))
        } else {
            None
        }
    } else {
        None
    }
}

/// Whether the layout program `p` runs from `pos` to its end without a step it cannot read.
pub open spec fn runs_through(p: Seq<u8>, pos: int, l: Layout, q: Quads) -> bool
    decreases p.len() - pos,
{
    if pos < 0 || pos >= p.len() {
        true
    } else {
        match prog_step(p, pos, l, q) {
            Some((next, l2)) => pos < next && runs_through(p, next, l2, q),
            None => false,
        }
    }
}

/// Builds the layout a program of steps describes for an instruction with facts
/// `q`, as `run_prog` reads it.
pub fn build_layout(p: &Vec<u8>, q: Quads) -> (g: GenAPI)
    ensures
        layout_of(g) == run_prog(p@, 0, new_layout(), q),
{
    let mut g = GenAPI::new();
    let mut pos: usize = 0;
    let n = p.len();
    while pos < n
        invariant
            n == p@.len(),
            pos <= n,
            run_prog(p@, pos as int, layout_of(g), q) == run_prog(p@, 0, new_layout(), q),
        decreases n - pos,
    {
        match apply_step(p, pos, g, q) {
            Some((next, g2)) => {
                if next <= pos {
                    return g;
                }
                g = g2;
                pos = next;
            },
            None => {
                return g;
            },
        }
    }
    g
}

} // verus!
