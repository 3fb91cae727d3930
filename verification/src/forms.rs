use vstd::prelude::*;

use crate::api::{
    addt_with_vlength, apx_prefix_word, meta_with_fpfx, spec_map_select, spec_pp, vex_prefix_word, GenAPI,
    MegaBool, OpOrd, VexDetails, PREFIX_APX, PREFIX_VEX,
};
use crate::apx::APXVariant;
use crate::assemble::{Instr, Payload};
use crate::comp::{
    is_accumulator, is_cl, is_one, l_imm, l_modrm, l_opcode, l_ord, l_rex, layout_of, new_layout, op1,
    operand_size_is, operand_size_is_at, Layout,
};
use crate::layout::vex_details;
use crate::mnemonic::Mnemonic;
use crate::operand::{Operand, Purpose};
use crate::size::Size;

verus! {

/// `l` with a VEX prefix of pp `pp`, map `ms`, W `we` and vector length code `vl`.
pub open spec fn l_vex(l: Layout, pp: u8, ms: u8, we: bool, vl: u8) -> Layout {
    Layout {
        meta_0: meta_with_fpfx(l.meta_0, PREFIX_VEX),
        prefix: vex_prefix_word(we, spec_map_select(ms), spec_pp(pp)),
        addt: addt_with_vlength(l.addt, vl),
        ..l
    }
}

/// `l` with an APX prefix of variant `v`, pp `pp`, map `ms` and W `we`, without ND.
pub open spec fn l_apx(l: Layout, v: APXVariant, pp: u8, ms: u8, we: bool) -> Layout {
    Layout {
        meta_0: meta_with_fpfx(l.meta_0, PREFIX_APX),
        prefix: apx_prefix_word(v, vex_details(pp, ms, we, 0), false),
        ..l
    }
}

/// `l` with the APX prefix of a legacy instruction moved to map 4.
pub open spec fn l_apx4(l: Layout) -> Layout {
    l_apx(l, APXVariant::LegacyExtension, 0, 4, false)
}

/// The number of the register operand `i` of `ops`, or 0 when it is no register.
pub open spec fn reg_or_zero(ops: Seq<Operand>, i: int) -> u8 {
    if 0 <= i < ops.len() {
        match ops[i] {
            Operand::Register(r) => r.byte,
            _ => 0,
        }
    } else {
        0
    }
}

/// Whether operand `i` of `ops` is the accumulator of size `a` or of size `b`.
pub open spec fn acc_operand(ops: Seq<Operand>, i: int, a: Size, b: Size) -> bool {
    0 <= i < ops.len() && (ops[i] matches Operand::Register(r) && (is_accumulator(r, a) || is_accumulator(
        r,
        b,
    )))
}

/// IMUL: with one operand 0xF6 for a byte and 0xF7 otherwise, /5; with an immediate third
/// operand 0x6B and a byte immediate for a byte one, 0x69 and a word or doubleword
/// immediate otherwise, the register operand first; else 0x0F 0xAF, the default operand
/// order. `None` without operands.
pub open spec fn spec_imul(ops: Seq<Operand>, pays: Seq<Payload>) -> Option<Layout> {
    if ops.len() < 1 {
        None
    } else if ops.len() < 2 {
        Some(
            l_rex(
                l_modrm(
                    op1(
                        if operand_size_is(ops, pays, 0, Size::Byte) {
                            0xF6
                        } else {
                            0xF7
                        },
                    ),
                    true,
                    Some(5),
                ),
            ),
        )
    } else if ops.len() > 2 && ops[2] is Imm {
        let (opc, size) = if operand_size_is(ops, pays, 2, Size::Byte) {
            (0x6Bu8, 1u16)
        } else if operand_size_is(ops, pays, 2, Size::Word) {
            (0x69u8, 2u16)
        } else {
            (0x69u8, 4u16)
        };
        Some(
            l_imm(
                l_rex(l_ord(l_modrm(op1(opc), true, None), seq![OpOrd::MODRM_REG, OpOrd::MODRM_RM])),
                2,
                size,
            ),
        )
    } else {
        Some(l_rex(l_modrm(l_opcode(new_layout(), seq![0x0Fu8, 0xAF]), true, None)))
    }
}

/// The layout of IMUL, as `spec_imul` describes it.
pub fn ins_imul(ins: &Instr, bits: u8) -> (r: GenAPI)
    requires
        spec_imul(ins.operands@, ins.payloads@) is Some,
    ensures
        layout_of(r) == spec_imul(ins.operands@, ins.payloads@).unwrap(),
{
    let n = ins.operands.len();
    if n < 2 {
        let b: u8 = if operand_size_is_at(ins, 0, Size::Byte) {
            0xF6
        } else {
            0xF7
        };
        GenAPI::new().opcode(&[b]).modrm(true, Some(5)).rex()
    } else if n > 2 && matches!(ins.operands[2], Operand::Imm(_)) {
        let (opc, size): (u8, u16) = if operand_size_is_at(ins, 2, Size::Byte) {
            (0x6B, 1)
        } else if operand_size_is_at(ins, 2, Size::Word) {
            (0x69, 2)
        } else {
            (0x69, 4)
        };
        GenAPI::new().opcode(&[opc]).modrm(true, None).ord(&[OpOrd::MODRM_REG, OpOrd::MODRM_RM]).rex().imm_atindex(
            2,
            size,
        )
    } else {
        GenAPI::new().opcode(&[0x0F, 0xAF]).modrm(true, None).rex()
    }
}

/// The short form of XCHG with the accumulator: 0x90 plus the number `i` of the other
/// register; `None` where the sum passes 255.
pub open spec fn xchg_short(i: u8) -> Option<Layout> {
    if 0x90 + i < 256 {
        Some(l_opcode(l_rex(new_layout()), seq![(0x90 + i) as u8]))
    } else {
        None
    }
}

/// The ModRM form of XCHG: opcode `opc`, the register operand first when `reg_first`.
pub open spec fn xchg_modrm(opc: u8, reg_first: bool) -> Layout {
    l_ord(
        l_modrm(l_opcode(l_rex(new_layout()), seq![opc]), true, None),
        if reg_first {
            seq![OpOrd::MODRM_REG, OpOrd::MODRM_RM, OpOrd::VEX_VVVV]
        } else {
            seq![OpOrd::MODRM_RM, OpOrd::MODRM_REG, OpOrd::VEX_VVVV]
        },
    )
}

/// XCHG of size `isz`: a byte exchange is 0x86, the register operand first when the
/// destination is one; a word, doubleword or quadword exchange with the accumulator of its
/// size as destination (AX for a word, EAX or RAX otherwise) is 0x90 plus the source's
/// number (0 when it is no register), and with EAX or RAX as source 0x90 plus the
/// destination's; any other is 0x87, the register operand first when the destination is a
/// register. `None` for other sizes.
pub open spec fn spec_xchg(ops: Seq<Operand>, isz: Size) -> Option<Layout> {
    let dreg = ops.len() > 0 && ops[0] is Register;
    if isz == Size::Byte {
        Some(
            l_modrm(
                l_ord(
                    l_opcode(l_rex(new_layout()), seq![0x86u8]),
                    if dreg {
                        seq![OpOrd::MODRM_REG, OpOrd::MODRM_RM, OpOrd::VEX_VVVV]
                    } else {
                        seq![OpOrd::MODRM_RM, OpOrd::MODRM_REG, OpOrd::VEX_VVVV]
                    },
                ),
                true,
                None,
            ),
        )
    } else if isz == Size::Word {
        if acc_operand(ops, 0, Size::Word, Size::Word) {
            xchg_short(reg_or_zero(ops, 1))
        } else {
            Some(xchg_modrm(0x87, dreg))
        }
    } else if isz == Size::Dword || isz == Size::Qword {
        if acc_operand(ops, 0, Size::Dword, Size::Qword) {
            xchg_short(reg_or_zero(ops, 1))
        } else if dreg && acc_operand(ops, 1, Size::Dword, Size::Qword) {
            xchg_short(reg_or_zero(ops, 0))
        } else {
            Some(xchg_modrm(0x87, dreg))
        }
    } else {
        None
    }
}

/// The number of register operand `i`, or 0.
fn reg_or_zero_at(ins: &Instr, i: usize) -> (b: u8)
    ensures
        b == reg_or_zero(ins.operands@, i as int),
{
    if i < ins.operands.len() {
        match ins.operands[i] {
            Operand::Register(r) => r.byte,
            _ => 0,
        }
    } else {
        0
    }
}

/// Whether register operand `i` is the accumulator of size `a` or `b`.
fn acc_at(ins: &Instr, i: usize, a: Size, b: Size) -> (r: bool)
    ensures
        r == acc_operand(ins.operands@, i as int, a, b),
{
    if i < ins.operands.len() {
        match ins.operands[i] {
            Operand::Register(x) => x.purpose == Purpose::General && x.byte == 0 && !x.ext3 && !x.ext4 && (
            x.size == a || x.size == b),
            _ => false,
        }
    } else {
        false
    }
}

/// The layout of XCHG, as `spec_xchg` describes it.
pub fn ins_xchg(ins: &Instr) -> (r: GenAPI)
    requires
        spec_xchg(ins.operands@, ins.size) is Some,
    ensures
        layout_of(r) == spec_xchg(ins.operands@, ins.size).unwrap(),
{
    let n = ins.operands.len();
    let dreg = n > 0 && matches!(ins.operands[0], Operand::Register(_));
    let reg_first = [OpOrd::MODRM_REG, OpOrd::MODRM_RM, OpOrd::VEX_VVVV];
    let rm_first = [OpOrd::MODRM_RM, OpOrd::MODRM_REG, OpOrd::VEX_VVVV];
    let api = GenAPI::new().rex();
    if ins.size == Size::Byte {
        let o = if dreg {
            reg_first
        } else {
            rm_first
        };
        return api.opcode(&[0x86]).ord(&o).modrm(true, None);
    }
    let short_dst = if ins.size == Size::Word {
        acc_at(ins, 0, Size::Word, Size::Word)
    } else {
        acc_at(ins, 0, Size::Dword, Size::Qword)
    };
    if short_dst {
        let i = reg_or_zero_at(ins, 1);
        let b: u8 = 0x90 + i;
        return api.opcode(&[b]);
    }
    if ins.size != Size::Word && dreg && acc_at(ins, 1, Size::Dword, Size::Qword) {
        let i = reg_or_zero_at(ins, 0);
        let b: u8 = 0x90 + i;
        return api.opcode(&[b]);
    }
    let o = if dreg {
        reg_first
    } else {
        rm_first
    };
    api.opcode(&[0x87]).modrm(true, None).ord(&o)
}

/// The layout of a mask register move (KMOV and its APX forms) before its prefix: ModRM, the
/// register operand first; to a mask register 0x90 from memory or a mask register and 0x92
/// from another register (no opcode from anything else); to another register 0x93; to memory
/// or a symbol 0x91, the memory operand first; nothing more otherwise. `None` without a source.
pub open spec fn spec_kmov(ops: Seq<Operand>) -> Option<Layout> {
    if ops.len() < 2 {
        None
    } else {
        let base = l_ord(l_modrm(new_layout(), true, None), seq![OpOrd::MODRM_REG, OpOrd::MODRM_RM]);
        Some(
            match ops[0] {
                Operand::Register(d) => if d.purpose == Purpose::Mask {
                    match ops[1] {
                        Operand::Mem(_) => l_opcode(base, seq![0x90u8]),
                        Operand::Register(x) => l_opcode(
                            base,
                            seq![
                                if x.purpose == Purpose::Mask {
                                    0x90u8
                                } else {
                                    0x92u8
                                },
                            ],
                        ),
                        _ => base,
                    }
                } else {
                    l_opcode(base, seq![0x93u8])
                },
                Operand::Mem(_) | Operand::Symbol(_) => l_ord(
                    l_opcode(base, seq![0x91u8]),
                    seq![OpOrd::MODRM_RM, OpOrd::MODRM_REG],
                ),
                _ => base,
            },
        )
    }
}

/// Whether a mask move layout moves between a mask and a general purpose register (opcode
/// 0x92 or 0x93).
pub open spec fn kmov_gp(k: Layout) -> bool {
    k.op0 == 0x92 || k.op0 == 0x93
}

/// The prefix of mask move `m` on the layout `k` of `spec_kmov`: a VEX prefix of map 0x0F
/// and the short vector length for KMOVB (pp 0x66, W0), KMOVW (W0), KMOVD (pp 0xF2 and W0
/// between mask and general purpose registers, pp 0x66 and W1 otherwise) and KMOVQ (pp 0xF2
/// between mask and general purpose registers, W1); an APX prefix of the VEX extension with
/// the same pp and W for AKMOVB, AKMOVW, AKMOVD and AKMOVQ.
pub open spec fn spec_kmov_form(m: Mnemonic, k: Layout) -> Layout {
    let gp = kmov_gp(k);
    match m {
        Mnemonic::KMOVB => l_vex(k, 0x66, 0x0F, false, 2),
        Mnemonic::KMOVW => l_vex(k, 0, 0x0F, false, 2),
        Mnemonic::KMOVD => if gp {
            l_vex(k, 0xF2, 0x0F, false, 2)
        } else {
            l_vex(k, 0x66, 0x0F, true, 2)
        },
        Mnemonic::KMOVQ => if gp {
            l_vex(k, 0xF2, 0x0F, true, 2)
        } else {
            l_vex(k, 0, 0x0F, true, 2)
        },
        Mnemonic::AKMOVB => l_apx(k, APXVariant::VexExtension, 0x66, 0x0F, false),
        Mnemonic::AKMOVW => l_apx(k, APXVariant::VexExtension, 0, 0x0F, false),
        Mnemonic::AKMOVD => if gp {
            l_apx(k, APXVariant::VexExtension, 0xF2, 0x0F, false)
        } else {
            l_apx(k, APXVariant::VexExtension, 0x66, 0x0F, true)
        },
        _ => if gp {
            l_apx(k, APXVariant::VexExtension, 0xF2, 0x0F, true)
        } else {
            l_apx(k, APXVariant::VexExtension, 0, 0x0F, true)
        },
    }
}

/// The layout of a mask register move before its prefix, as `spec_kmov` describes it.
pub fn ins_kmov(ins: &Instr) -> (r: GenAPI)
    requires
        spec_kmov(ins.operands@) is Some,
    ensures
        layout_of(r) == spec_kmov(ins.operands@).unwrap(),
{
    let api = GenAPI::new().modrm(true, None).ord(&[OpOrd::MODRM_REG, OpOrd::MODRM_RM]);
    match ins.operands[0] {
        Operand::Register(d) => {
            if d.purpose == Purpose::Mask {
                match ins.operands[1] {
                    Operand::Mem(_) => api.opcode(&[0x90]),
                    Operand::Register(x) => {
                        let b: u8 = if x.purpose == Purpose::Mask {
                            0x90
                        } else {
                            0x92
                        };
                        api.opcode(&[b])
                    },
                    _ => api,
                }
            } else {
                api.opcode(&[0x93])
            }
        },
        Operand::Mem(_) | Operand::Symbol(_) => api.opcode(&[0x91]).ord(&[OpOrd::MODRM_RM, OpOrd::MODRM_REG]),
        _ => api,
    }
}

/// The VEX prefix details of map 0x0F and the short vector length.
fn k_vex(pp: u8, we: bool) -> (d: VexDetails)
    ensures
        d == vex_details(pp, 0x0F, we, 2),
{
    VexDetails { pp, map_select: 0x0F, vex_we: we, vlength: MegaBool { data: 2 } }
}

/// The layout of mask move `m`, as `spec_kmov` and `spec_kmov_form` describe it.
fn kmov_form(ins: &Instr) -> (r: GenAPI)
    requires
        spec_kmov(ins.operands@) is Some,
    ensures
        layout_of(r) == spec_kmov_form(ins.mnemonic, spec_kmov(ins.operands@).unwrap()),
{
    let k = ins_kmov(ins);
    let gp = k.opcode[0] == 0x92 || k.opcode[0] == 0x93;
    let x = APXVariant::VexExtension;
    match ins.mnemonic {
        Mnemonic::KMOVB => k.vex(k_vex(0x66, false)),
        Mnemonic::KMOVW => k.vex(k_vex(0, false)),
        Mnemonic::KMOVD => if gp {
            k.vex(k_vex(0xF2, false))
        } else {
            k.vex(k_vex(0x66, true))
        },
        Mnemonic::KMOVQ => if gp {
            k.vex(k_vex(0xF2, true))
        } else {
            k.vex(k_vex(0, true))
        },
        Mnemonic::AKMOVB => k.apx(x, k_vex(0x66, false), false),
        Mnemonic::AKMOVW => k.apx(x, k_vex(0, false), false),
        Mnemonic::AKMOVD => if gp {
            k.apx(x, k_vex(0xF2, false), false)
        } else {
            k.apx(x, k_vex(0x66, true), false)
        },
        _ => if gp {
            k.apx(x, k_vex(0xF2, true), false)
        } else {
            k.apx(x, k_vex(0, true), false)
        },
    }
}

/// The opcode of a shift or rotate by CL of a destination of size `sz`: 0xD2 for a byte,
/// 0xD3 for a word, doubleword or quadword, none otherwise.
pub open spec fn shift_cl_opcode(sz_byte: bool, sz_wdq: bool) -> Option<u8> {
    if sz_byte {
        Some(0xD2u8)
    } else if sz_wdq {
        Some(0xD3u8)
    } else {
        None
    }
}

/// The layout of a shift or rotate by the immediate operand `idx` (payload `p`) on `l`: by 1
/// 0xD0 for a byte destination and 0xD1 otherwise; by another count 0xC0 or 0xC1 with the
/// count a byte immediate.
pub open spec fn shift_imm(l: Layout, idx: u16, p: Payload, byte: bool) -> Layout {
    if is_one(p) {
        l_opcode(
            l,
            seq![
                if byte {
                    0xD0u8
                } else {
                    0xD1u8
                },
            ],
        )
    } else {
        l_opcode(
            l_imm(l, idx, 1),
            seq![
                if byte {
                    0xC0u8
                } else {
                    0xC1u8
                },
            ],
        )
    }
}

/// An APX shift or rotate (ARCL, ARCR, AROL, AROR, ASAR, ASHL, ASHR) with `ovr` in ModRM.reg:
/// by CL 0xD2 or 0xD3 (`shift_cl_opcode`); with a register or memory source, VEX.vvvv and
/// r/m as the first two operands and the count (CL or an immediate, `shift_imm`) third;
/// by an immediate source as `shift_imm` gives; the APX prefix of map 4. `None` where the
/// count is missing or of another kind, or a count in CL shifts an operand of another size.
pub open spec fn spec_ashllike(ops: Seq<Operand>, pays: Seq<Payload>, ovr: u8) -> Option<Layout> {
    if ops.len() < 2 || pays.len() < ops.len() {
        None
    } else {
        let base = l_modrm(new_layout(), true, Some(ovr));
        let byte = operand_size_is(ops, pays, 0, Size::Byte);
        let wdq = operand_size_is(ops, pays, 0, Size::Word) || operand_size_is(ops, pays, 0, Size::Dword)
            || operand_size_is(ops, pays, 0, Size::Qword);
        let r = if ops[1] matches Operand::Register(x) && is_cl(x) {
            match shift_cl_opcode(byte, wdq) {
                Some(b) => Some(l_opcode(base, seq![b])),
                None => None,
            }
        } else if ops[1] is Register || ops[1] is Mem {
            let b2 = l_ord(base, seq![OpOrd::VEX_VVVV, OpOrd::MODRM_RM]);
            if ops.len() < 3 {
                None
            } else if ops[2] matches Operand::Register(x) && is_cl(x) {
                match shift_cl_opcode(byte, wdq) {
                    Some(b) => Some(l_opcode(b2, seq![b])),
                    None => None,
                }
            } else if ops[2] is Imm {
                Some(shift_imm(b2, 2, pays[2], byte))
            } else {
                None
            }
        } else if ops[1] is Imm {
            Some(shift_imm(base, 1, pays[1], byte))
        } else {
            None
        };
        match r {
            Some(l) => Some(l_apx4(l)),
            None => None,
        }
    }
}

/// Whether operand `i` is CL.
fn is_cl_at(ins: &Instr, i: usize) -> (b: bool)
    requires
        i < ins.operands@.len(),
    ensures
        b == (ins.operands@[i as int] matches Operand::Register(x) && is_cl(x)),
{
    match ins.operands[i] {
        Operand::Register(x) => x.purpose == Purpose::General && x.byte == 1 && !x.ext3 && !x.ext4 && x.size
            == Size::Byte,
        _ => false,
    }
}

/// The layout `shift_imm` describes.
fn shift_imm_at(l: GenAPI, idx: u16, p: &Payload, byte: bool) -> (r: GenAPI)
    ensures
        layout_of(r) == shift_imm(layout_of(l), idx, *p, byte),
{
    if crate::comp::payload_is_one(p) {
        let b: u8 = if byte {
            0xD0
        } else {
            0xD1
        };
        l.opcode(&[b])
    } else {
        let b: u8 = if byte {
            0xC0
        } else {
            0xC1
        };
        l.imm_atindex(idx, 1).opcode(&[b])
    }
}

/// The APX prefix of map 4 on a legacy layout.
fn apx4(g: GenAPI) -> (r: GenAPI)
    ensures
        layout_of(r) == l_apx4(layout_of(g)),
{
    g.apx(
        APXVariant::LegacyExtension,
        VexDetails { pp: 0, map_select: 4, vex_we: false, vlength: MegaBool { data: 0 } },
        false,
    )
}

/// The layout of an APX shift or rotate, as `spec_ashllike` describes it.
pub fn ins_ashllike(ins: &Instr, ovr: u8) -> (r: GenAPI)
    requires
        spec_ashllike(ins.operands@, ins.payloads@, ovr) is Some,
    ensures
        layout_of(r) == spec_ashllike(ins.operands@, ins.payloads@, ovr).unwrap(),
{
    let base = GenAPI::new().modrm(true, Some(ovr));
    let byte = operand_size_is_at(ins, 0, Size::Byte);
    let cl_opc: u8 = if byte {
        0xD2
    } else {
        0xD3
    };
    let g = if is_cl_at(ins, 1) {
        base.opcode(&[cl_opc])
    } else {
        match ins.operands[1] {
            Operand::Register(_) | Operand::Mem(_) => {
                let b2 = base.ord(&[OpOrd::VEX_VVVV, OpOrd::MODRM_RM]);
                if is_cl_at(ins, 2) {
                    b2.opcode(&[cl_opc])
                } else {
                    shift_imm_at(b2, 2, &ins.payloads[2], byte)
                }
            },
            _ => shift_imm_at(base, 1, &ins.payloads[1], byte),
        }
    };
    apx4(g)
}

/// AIMUL: with three operands 0xAF, VEX.vvvv, reg and r/m; with two 0xAF, reg then r/m;
/// otherwise 0xF6 for a byte instruction (size `isz`) and 0xF7 else, /5; the APX prefix of
/// map 4.
pub open spec fn spec_aimul(ops: Seq<Operand>, isz: Size) -> Layout {
    l_apx4(
        if ops.len() == 3 {
            l_ord(l_modrm(op1(0xAF), true, None), seq![OpOrd::VEX_VVVV, OpOrd::MODRM_REG, OpOrd::MODRM_RM])
        } else if ops.len() == 2 {
            l_ord(l_modrm(op1(0xAF), true, None), seq![OpOrd::MODRM_REG, OpOrd::MODRM_RM])
        } else {
            l_modrm(
                op1(
                    if isz == Size::Byte {
                        0xF6
                    } else {
                        0xF7
                    },
                ),
                true,
                Some(5),
            )
        },
    )
}

/// The layout of AIMUL, as `spec_aimul` describes it.
pub fn ins_aimul(ins: &Instr) -> (r: GenAPI)
    ensures
        layout_of(r) == spec_aimul(ins.operands@, ins.size),
{
    let n = ins.operands.len();
    let g = if n == 3 {
        GenAPI::new().opcode(&[0xAF]).modrm(true, None).ord(&[OpOrd::VEX_VVVV, OpOrd::MODRM_REG, OpOrd::MODRM_RM])
    } else if n == 2 {
        GenAPI::new().opcode(&[0xAF]).modrm(true, None).ord(&[OpOrd::MODRM_REG, OpOrd::MODRM_RM])
    } else {
        let b: u8 = if ins.size == Size::Byte {
            0xF6
        } else {
            0xF7
        };
        GenAPI::new().opcode(&[b]).modrm(true, Some(5))
    };
    apx4(g)
}

/// Whether operand `i` of `ops` is an immediate or a symbol.
pub open spec fn imm_or_sym(ops: Seq<Operand>, i: int) -> bool {
    0 <= i < ops.len() && (ops[i] is Imm || ops[i] is Symbol)
}

/// A double shift (SHLD, SHRD) with REX and ModRM: with an immediate or symbol count
/// `opc_imm` and a byte immediate from operand 2, otherwise `opc_rm`.
pub open spec fn spec_shlx(ops: Seq<Operand>, opc_imm: Seq<u8>, opc_rm: Seq<u8>) -> Layout {
    let base = l_modrm(l_rex(new_layout()), true, None);
    if imm_or_sym(ops, 2) {
        l_imm(l_opcode(base, opc_imm), 2, 1)
    } else {
        l_opcode(base, opc_rm)
    }
}

/// An APX double shift (ASHLD, ASHRD) before its prefix: as `spec_shlx` with the count as
/// operand 2; with the count an immediate or symbol as operand 3, `opc_imm`, that byte
/// immediate and VEX.vvvv, r/m, reg as the operand order; otherwise `opc_rm`, with that
/// order when there are four operands.
pub open spec fn spec_ashlx(ops: Seq<Operand>, opc_imm: Seq<u8>, opc_rm: Seq<u8>) -> Layout {
    let base = l_modrm(l_rex(new_layout()), true, None);
    let o = seq![OpOrd::VEX_VVVV, OpOrd::MODRM_RM, OpOrd::MODRM_REG];
    if imm_or_sym(ops, 2) {
        l_imm(l_opcode(base, opc_imm), 2, 1)
    } else if imm_or_sym(ops, 3) {
        l_ord(l_imm(l_opcode(base, opc_imm), 3, 1), o)
    } else {
        l_opcode(
            if ops.len() == 4 {
                l_ord(base, o)
            } else {
                base
            },
            opc_rm,
        )
    }
}

/// Whether operand `i` is an immediate or a symbol.
fn imm_or_sym_at(ins: &Instr, i: usize) -> (b: bool)
    ensures
        b == imm_or_sym(ins.operands@, i as int),
{
    i < ins.operands.len() && (matches!(ins.operands[i], Operand::Imm(_)) || matches!(
        ins.operands[i],
        Operand::Symbol(_)
    ))
}

/// The layout of SHLD or SHRD, as `spec_shlx` describes it.
pub fn ins_shlx(ins: &Instr, opc_imm: &[u8], opc_rm: &[u8]) -> (r: GenAPI)
    requires
        opc_imm@.len() <= 4,
        opc_rm@.len() <= 4,
    ensures
        layout_of(r) == spec_shlx(ins.operands@, opc_imm@, opc_rm@),
{
    let base = GenAPI::new().rex().modrm(true, None);
    if imm_or_sym_at(ins, 2) {
        base.opcode(opc_imm).imm_atindex(2, 1)
    } else {
        base.opcode(opc_rm)
    }
}

/// The layout of ASHLD or ASHRD before its prefix, as `spec_ashlx` describes it.
pub fn ins_ashlx(ins: &Instr, opc_imm: &[u8], opc_rm: &[u8]) -> (r: GenAPI)
    requires
        opc_imm@.len() <= 4,
        opc_rm@.len() <= 4,
    ensures
        layout_of(r) == spec_ashlx(ins.operands@, opc_imm@, opc_rm@),
{
    let base = GenAPI::new().rex().modrm(true, None);
    let o = [OpOrd::VEX_VVVV, OpOrd::MODRM_RM, OpOrd::MODRM_REG];
    if imm_or_sym_at(ins, 2) {
        base.opcode(opc_imm).imm_atindex(2, 1)
    } else if imm_or_sym_at(ins, 3) {
        base.opcode(opc_imm).imm_atindex(3, 1).ord(&o)
    } else if ins.operands.len() == 4 {
        base.ord(&o).opcode(opc_rm)
    } else {
        base.opcode(opc_rm)
    }
}

/// AADCX (pp 0x66) or AADOX (pp 0xF3): 0x66, ModRM, reg then r/m, VEX.vvvv first when there
/// is a third operand; the APX prefix of map 4 with W set for a quadword instruction (size
/// `isz`).
pub open spec fn spec_aadox(ops: Seq<Operand>, isz: Size, pp: u8) -> Layout {
    l_apx(
        l_ord(
            l_modrm(op1(0x66), true, None),
            if ops.len() > 2 {
                seq![OpOrd::VEX_VVVV, OpOrd::MODRM_REG, OpOrd::MODRM_RM]
            } else {
                seq![OpOrd::MODRM_REG, OpOrd::MODRM_RM]
            },
        ),
        APXVariant::LegacyExtension,
        pp,
        4,
        isz == Size::Qword,
    )
}

/// The layout of AADCX or AADOX, as `spec_aadox` describes it.
pub fn ins_aadox(ins: &Instr, pp: u8) -> (r: GenAPI)
    ensures
        layout_of(r) == spec_aadox(ins.operands@, ins.size, pp),
{
    let g = GenAPI::new().opcode(&[0x66]).modrm(true, None);
    let g = if ins.operands.len() > 2 {
        g.ord(&[OpOrd::VEX_VVVV, OpOrd::MODRM_REG, OpOrd::MODRM_RM])
    } else {
        g.ord(&[OpOrd::MODRM_REG, OpOrd::MODRM_RM])
    };
    g.apx(
        APXVariant::LegacyExtension,
        VexDetails { pp, map_select: 4, vex_we: ins.size == Size::Qword, vlength: MegaBool { data: 0 } },
        false,
    )
}

/// The layout of an instruction of mnemonic `m` that one of the families above describes
/// (the outer `None` where `m` is of none of them).
pub open spec fn spec_forms_layout(m: Mnemonic, ops: Seq<Operand>, pays: Seq<Payload>, isz: Size) -> Option<
    Option<Layout>,
> {
    match m {
        Mnemonic::IMUL => Some(spec_imul(ops, pays)),
        Mnemonic::AIMULZU => Some(
            match spec_imul(ops, pays) {
                Some(l) => Some(l_apx4(l)),
                None => None,
            },
        ),
        Mnemonic::AIMUL => Some(Some(spec_aimul(ops, isz))),
        Mnemonic::XCHG => Some(spec_xchg(ops, isz)),
        Mnemonic::KMOVB | Mnemonic::KMOVW | Mnemonic::KMOVD | Mnemonic::KMOVQ | Mnemonic::AKMOVB
        | Mnemonic::AKMOVW | Mnemonic::AKMOVD | Mnemonic::AKMOVQ => Some(
            match spec_kmov(ops) {
                Some(k) => Some(spec_kmov_form(m, k)),
                None => None,
            },
        ),
        Mnemonic::ARCL => Some(spec_ashllike(ops, pays, 2)),
        Mnemonic::ARCR => Some(spec_ashllike(ops, pays, 3)),
        Mnemonic::AROL => Some(spec_ashllike(ops, pays, 0)),
        Mnemonic::AROR => Some(spec_ashllike(ops, pays, 1)),
        Mnemonic::ASAR => Some(spec_ashllike(ops, pays, 7)),
        Mnemonic::ASHL => Some(spec_ashllike(ops, pays, 4)),
        Mnemonic::ASHR => Some(spec_ashllike(ops, pays, 5)),
        Mnemonic::ASHLD => Some(Some(l_apx4(spec_ashlx(ops, seq![0x24u8], seq![0xA5u8])))),
        Mnemonic::ASHRD => Some(Some(l_apx4(spec_ashlx(ops, seq![0x2Cu8], seq![0xADu8])))),
        Mnemonic::SHLD => Some(Some(spec_shlx(ops, seq![0x0Fu8, 0xA4], seq![0x0Fu8, 0xA5]))),
        Mnemonic::SHRD => Some(Some(spec_shlx(ops, seq![0x0Fu8, 0xAC], seq![0x0Fu8, 0xAD]))),
        Mnemonic::AADCX => Some(Some(spec_aadox(ops, isz, 0x66))),
        Mnemonic::AADOX => Some(Some(spec_aadox(ops, isz, 0xF3))),
        _ => None,
    }
}

/// Whether `m` is of one of the families `spec_forms_layout` describes.
pub fn is_form(m: Mnemonic) -> (b: bool)
    ensures
        forall|ops: Seq<Operand>, pays: Seq<Payload>, isz: Size|
            #[trigger] spec_forms_layout(m, ops, pays, isz) is Some <==> b,
{
    match m {
        Mnemonic::IMUL | Mnemonic::AIMULZU | Mnemonic::AIMUL | Mnemonic::XCHG | Mnemonic::KMOVB
        | Mnemonic::KMOVW | Mnemonic::KMOVD | Mnemonic::KMOVQ | Mnemonic::AKMOVB | Mnemonic::AKMOVW
        | Mnemonic::AKMOVD | Mnemonic::AKMOVQ | Mnemonic::ARCL | Mnemonic::ARCR | Mnemonic::AROL
        | Mnemonic::AROR | Mnemonic::ASAR | Mnemonic::ASHL | Mnemonic::ASHR | Mnemonic::ASHLD
        | Mnemonic::ASHRD | Mnemonic::SHLD | Mnemonic::SHRD | Mnemonic::AADCX | Mnemonic::AADOX => true,
        _ => false,
    }
}

/// The layout of an instruction of one of the families, as `spec_forms_layout` describes it.
pub fn forms_layout(ins: &Instr, bits: u8) -> (r: GenAPI)
    requires
        spec_forms_layout(ins.mnemonic, ins.operands@, ins.payloads@, ins.size) matches Some(Some(_)),
    ensures
        layout_of(r) == spec_forms_layout(ins.mnemonic, ins.operands@, ins.payloads@, ins.size).unwrap().unwrap(),
{
    match ins.mnemonic {
        Mnemonic::IMUL => ins_imul(ins, bits),
        Mnemonic::AIMULZU => apx4(ins_imul(ins, bits)),
        Mnemonic::AIMUL => ins_aimul(ins),
        Mnemonic::XCHG => ins_xchg(ins),
        Mnemonic::ARCL => ins_ashllike(ins, 2),
        Mnemonic::ARCR => ins_ashllike(ins, 3),
        Mnemonic::AROL => ins_ashllike(ins, 0),
        Mnemonic::AROR => ins_ashllike(ins, 1),
        Mnemonic::ASAR => ins_ashllike(ins, 7),
        Mnemonic::ASHL => ins_ashllike(ins, 4),
        Mnemonic::ASHR => ins_ashllike(ins, 5),
        Mnemonic::ASHLD => {
            let a = [0x24u8];
            let b = [0xA5u8];
            assert(a@ == seq![0x24u8] && b@ == seq![0xA5u8]);
            apx4(ins_ashlx(ins, &a, &b))
        },
        Mnemonic::ASHRD => {
            let a = [0x2Cu8];
            let b = [0xADu8];
            assert(a@ == seq![0x2Cu8] && b@ == seq![0xADu8]);
            apx4(ins_ashlx(ins, &a, &b))
        },
        Mnemonic::SHLD => {
            let a = [0x0Fu8, 0xA4];
            let b = [0x0Fu8, 0xA5];
            assert(a@ == seq![0x0Fu8, 0xA4] && b@ == seq![0x0Fu8, 0xA5]);
            ins_shlx(ins, &a, &b)
        },
        Mnemonic::SHRD => {
            let a = [0x0Fu8, 0xAC];
            let b = [0x0Fu8, 0xAD];
            assert(a@ == seq![0x0Fu8, 0xAC] && b@ == seq![0x0Fu8, 0xAD]);
            ins_shlx(ins, &a, &b)
        },
        Mnemonic::AADCX => ins_aadox(ins, 0x66),
        Mnemonic::AADOX => ins_aadox(ins, 0xF3),
        _ => kmov_form(ins),
    }
}

} // verus!
