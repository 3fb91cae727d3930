use vstd::prelude::*;

use crate::api::{
    lemma_modrm_tuple_roundtrip, modrm_tuple_reg, addt_with_imm, apx_prefix_word, meta_with_fpfx, MegaBool, modrm_tuple_data, pack_ord, GenAPI, OpOrd, SizeOvrFacts,
    VexDetails, CAN_H66O, CAN_SEGM, FIXED_SIZE, IMM, IMM_LEBE, PREFIX_APX, PREFIX_REX, USE_MODRM,
};
use crate::apx::APXVariant;
use crate::evex::MAP4;
use crate::layout::{build_layout, run_prog, runs_through, Quads};
use crate::table::{layout_prog, spec_layout_prog};
use crate::branching::{branching_prog, spec_branching_prog};
use crate::legacy::{is_legacy, legacy_layout, spec_legacy_layout};
use crate::x87::{fpu_layout, is_fpu, spec_fpu_layout};
use crate::forms::{forms_layout, is_form, spec_forms_layout};
use crate::mnemonic::{
    condcomp_cond, cmov_opcode, fixed_opcode, spec_condcomp_cond, jump_opcodes, rex_class, spec_cmov_opcode, spec_fixed_opcode,
    spec_jump_opcodes, spec_rex_class, Mnemonic,
};
use crate::rex::RexFacts;
use crate::assemble::{IVariant, Instr, Number, Payload};
use crate::booltable::{flag_at, with_flag};
use crate::operand::{operand_wf, spec_operand_size, Operand, Purpose, Reg};
use crate::size::{size_code, Size};

verus! {

/// What an instruction layout holds, field by field, its opcode as four bytes.
pub struct Layout {
    pub flags: u16,
    pub prefix: u16,
    pub addt: u16,
    pub op0: u8,
    pub op1: u8,
    pub op2: u8,
    pub op3: u8,
    pub meta_0: u8,
    pub modrm: u8,
    pub ord: u8,
    pub addt2: u8,
}

/// The fields of a layout.
pub open spec fn layout_of(g: GenAPI) -> Layout {
    Layout {
        flags: g.flags.data,
        prefix: g.prefix,
        addt: g.addt,
        op0: g.opcode@[0],
        op1: g.opcode@[1],
        op2: g.opcode@[2],
        op3: g.opcode@[3],
        meta_0: g.meta_0,
        modrm: g.modrm_ovr.data,
        ord: g.ord.ord,
        addt2: g.addt2,
    }
}

/// The layout `GenAPI::new` gives.
pub open spec fn new_layout() -> Layout {
    Layout {
        flags: with_flag(with_flag(0, CAN_H66O as u16, true), CAN_SEGM as u16, true),
        prefix: 0,
        addt: 0,
        op0: 0,
        op1: 0,
        op2: 0,
        op3: 0,
        meta_0: 0,
        modrm: 0,
        ord: pack_ord(seq![OpOrd::MODRM_RM, OpOrd::MODRM_REG, OpOrd::VEX_VVVV, OpOrd::TSRC]),
        addt2: 0,
    }
}

/// `l` with the opcode `opc` (at most four bytes) copied to its front.
pub open spec fn l_opcode(l: Layout, opc: Seq<u8>) -> Layout {
    Layout {
        op0: if 0 < opc.len() { opc[0] } else { l.op0 },
        op1: if 1 < opc.len() { opc[1] } else { l.op1 },
        op2: if 2 < opc.len() { opc[2] } else { l.op2 },
        op3: if 3 < opc.len() { opc[3] } else { l.op3 },
        meta_0: l.meta_0 | (opc.len() as u8 & 7),
        ..l
    }
}

/// `l` with a ModRM byte emitted or not, and its ModRM.reg override.
pub open spec fn l_modrm(l: Layout, on: bool, reg: Option<u8>) -> Layout {
    Layout { flags: with_flag(l.flags, USE_MODRM as u16, on), modrm: modrm_tuple_data(reg), ..l }
}

/// `l` with a REX prefix forced.
pub open spec fn l_rex(l: Layout) -> Layout {
    Layout { meta_0: meta_with_fpfx(l.meta_0, PREFIX_REX), ..l }
}

/// `l` taking an immediate of `size` bytes from operand `idx`.
pub open spec fn l_imm(l: Layout, idx: u16, size: u16) -> Layout {
    Layout { flags: with_flag(l.flags, IMM as u16, true), addt: addt_with_imm(l.addt, idx, size), ..l }
}

/// `l` with the operand order `ord`.
pub open spec fn l_ord(l: Layout, ord: Seq<OpOrd>) -> Layout {
    Layout { ord: pack_ord(ord), ..l }
}

/// `l` with its size fixed to `sz`.
pub open spec fn l_fixed(l: Layout, sz: Size) -> Layout {
    Layout { flags: with_flag(l.flags, FIXED_SIZE as u16, true), addt2: l.addt2 | size_code(sz), ..l }
}

/// `l` with a big-endian immediate or not.
pub open spec fn l_imm_be(l: Layout, be: bool) -> Layout {
    Layout { flags: with_flag(l.flags, IMM_LEBE as u16, be), ..l }
}

/// A one-byte opcode on a fresh layout.
pub open spec fn op1(b: u8) -> Layout {
    l_opcode(new_layout(), seq![b])
}

/// A two-byte opcode on a fresh layout.
pub open spec fn op2(b0: u8, b1: u8) -> Layout {
    l_opcode(new_layout(), seq![b0, b1])
}

/// Opcode `b`, ModRM from the operands, REX.
pub open spec fn shape_mr(b: u8) -> Layout {
    l_rex(l_modrm(op1(b), true, None))
}

/// Opcode `b`, an immediate of `size` bytes from the source, REX.
pub open spec fn shape_acc(b: u8, size: u16) -> Layout {
    l_rex(l_imm(op1(b), 1, size))
}

/// Opcode `b`, ModRM with `ovr` as its reg field, REX, an immediate of `size` bytes from the
/// source.
pub open spec fn shape_rmi(b: u8, ovr: u8, size: u16) -> Layout {
    l_imm(l_rex(l_modrm(op1(b), true, Some(ovr))), 1, size)
}

/// The size of a number of bytes: 1, 2, 4 or 8.
pub open spec fn bytes_size(n: u8) -> Size {
    if n == 1 {
        Size::Byte
    } else if n == 2 {
        Size::Word
    } else if n == 4 {
        Size::Dword
    } else if n == 8 {
        Size::Qword
    } else {
        Size::Unknown
    }
}

/// The size of a symbol operand: that of its relocation type, 32 bits by default.
pub open spec fn spec_symbol_size(p: Payload) -> Size {
    match p {
        Payload::Symbol(s) => match s.reltype {
            Some(t) => bytes_size(t.size),
            None => Size::Dword,
        },
        _ => Size::Unknown,
    }
}

/// The size of an operand, a symbol's taken from what it holds.
pub open spec fn size_of_operand(op: Operand, p: Payload) -> Size {
    match op {
        Operand::Symbol(_) => spec_symbol_size(p),
        _ => spec_operand_size(Some(op)),
    }
}

/// Whether `r` is the accumulator (AL, AX, EAX or RAX) of size `sz`.
pub open spec fn is_accumulator(r: Reg, sz: Size) -> bool {
    r.purpose == Purpose::General && r.byte == 0 && !r.ext3 && !r.ext4 && r.size == sz
}

/// The opcode of the register/memory form for an operand of size `sz`: `byte_opc` for a
/// byte, `wide_opc` for a word, doubleword or quadword.
pub open spec fn by_width(sz: Size, byte_opc: u8, wide_opc: u8) -> Option<u8> {
    if sz == Size::Byte {
        Some(byte_opc)
    } else if sz == Size::Word || sz == Size::Dword || sz == Size::Qword {
        Some(wide_opc)
    } else {
        None
    }
}

/// A layout with opcode `b` and ModRM from the operands, when there is an opcode.
pub open spec fn mr_of(b: Option<u8>) -> Option<Layout> {
    match b {
        Some(b) => Some(shape_mr(b)),
        None => None,
    }
}

/// An ADD-like instruction with a register destination and an immediate (or, with
/// `from_symbol`, a symbol's address) as source.
pub open spec fn add_like_reg_imm(
    d: Reg,
    srci: Size,
    opc: Seq<u8>,
    ovr: u8,
    bits: u8,
    from_symbol: bool,
) -> Option<Layout> {
    if (srci == Size::Dword || srci == Size::Word) && (is_accumulator(d, Size::Qword)
        || is_accumulator(d, Size::Dword)) {
        Some(shape_acc(opc[1], 4))
    } else if (srci == Size::Dword || srci == Size::Word) && is_accumulator(d, Size::Word) {
        Some(shape_acc(opc[1], 2))
    } else if is_accumulator(d, Size::Byte) {
        Some(shape_acc(opc[0], 1))
    } else if is_accumulator(d, Size::Word) {
        Some(shape_acc(opc[1], 2))
    } else if from_symbol {
        if srci == Size::Byte {
            Some(shape_rmi(opc[2], ovr, 1))
        } else if srci == Size::Dword || srci == Size::Qword || srci == Size::Word {
            Some(shape_rmi(opc[3], ovr, 4))
        } else {
            None
        }
    } else if srci == Size::Byte {
        Some(shape_rmi(opc[4], ovr, 1))
    } else if srci == Size::Word {
        Some(
            shape_rmi(
                opc[3],
                ovr,
                if bits == 16 && d.size == Size::Word {
                    2
                } else {
                    4
                },
            ),
        )
    } else {
        Some(shape_rmi(opc[3], ovr, 4))
    }
}

/// An ADD-like instruction with a memory or symbol destination and an immediate or symbol
/// source.
pub open spec fn add_like_mem_imm(dstm: Size, srci: Size, opc: Seq<u8>, ovr: u8, bits: u8) -> Option<
    Layout,
> {
    let size: u16 = if srci == Size::Word && bits == 16 {
        2
    } else if srci != Size::Byte {
        4
    } else {
        1
    };
    if dstm == Size::Byte {
        Some(shape_rmi(opc[2], ovr, size))
    } else if dstm == Size::Word || dstm == Size::Dword {
        Some(shape_rmi(opc[3], ovr, size))
    } else if dstm == Size::Qword {
        Some(
            shape_rmi(
                if srci == Size::Byte {
                    opc[4]
                } else {
                    opc[3]
                },
                ovr,
                size,
            ),
        )
    } else {
        None
    }
}

/// The layout of an ADD-like instruction (ADD, OR, ADC, SBB, AND, SUB, XOR) whose nine
/// opcodes are `opc` (AL/imm8, eAX/imm, r/m8 imm8, r/m imm, r/m imm8, r/m8 r8, r/m r,
/// r8 r/m8, r r/m) and whose immediate forms put `ovr` in ModRM.reg; `None` where the
/// operands make no such instruction.
pub open spec fn spec_add_like(
    ops: Seq<Operand>,
    pays: Seq<Payload>,
    opc: Seq<u8>,
    ovr: u8,
    bits: u8,
) -> Option<Layout> {
    if ops.len() < 2 || pays.len() < 2 || opc.len() != 9 {
        None
    } else {
        let srci = size_of_operand(ops[1], pays[1]);
        match (ops[0], ops[1]) {
            (Operand::Register(d), Operand::Symbol(deref)) => if deref {
                mr_of(by_width(d.size, opc[7], opc[6]))
            } else {
                add_like_reg_imm(d, srci, opc, ovr, bits, true)
            },
            (Operand::Register(d), Operand::Imm(_)) => add_like_reg_imm(
                d,
                srci,
                opc,
                ovr,
                bits,
                false,
            ),
            (Operand::Mem(_), Operand::Imm(_))
            | (Operand::Mem(_), Operand::Symbol(_))
            | (Operand::Symbol(_), Operand::Imm(_))
            | (Operand::Symbol(_), Operand::Symbol(_)) => add_like_mem_imm(
                size_of_operand(ops[0], pays[0]),
                srci,
                opc,
                ovr,
                bits,
            ),
            (Operand::Register(d), Operand::Mem(_))
            | (Operand::Register(d), Operand::Register(_)) => mr_of(by_width(d.size, opc[7], opc[6])),
            (Operand::Mem(_), Operand::Register(_))
            | (Operand::Symbol(_), Operand::Register(_)) => mr_of(
                by_width(size_of_operand(ops[0], pays[0]), opc[7], opc[6]),
            ),
            _ => None,
        }
    }
}

/// Opcode `b`, ModRM from the operands, REX.
fn api_mr(b: u8) -> (g: GenAPI)
    ensures
        layout_of(g) == shape_mr(b),
{
    GenAPI::new().opcode(&[b]).modrm(true, None).rex()
}

/// Opcode `b`, an immediate of `size` bytes from the source, REX.
fn api_acc(b: u8, size: u16) -> (g: GenAPI)
    ensures
        layout_of(g) == shape_acc(b, size),
{
    GenAPI::new().opcode(&[b]).imm_atindex(1, size).rex()
}

/// Opcode `b`, ModRM with `ovr` as reg, REX, an immediate of `size` bytes from the source.
fn api_rmi(b: u8, ovr: u8, size: u16) -> (g: GenAPI)
    ensures
        layout_of(g) == shape_rmi(b, ovr, size),
{
    GenAPI::new().opcode(&[b]).modrm(true, Some(ovr)).rex().imm_atindex(1, size)
}

/// The size of a symbol operand.
fn symbol_size(p: &Payload) -> (r: Size)
    ensures
        r == spec_symbol_size(*p),
{
    match p {
        Payload::Symbol(s) => match &s.reltype {
            Some(t) => {
                if t.size == 1 {
                    Size::Byte
                } else if t.size == 2 {
                    Size::Word
                } else if t.size == 4 {
                    Size::Dword
                } else if t.size == 8 {
                    Size::Qword
                } else {
                    Size::Unknown
                }
            },
            None => Size::Dword,
        },
        _ => Size::Unknown,
    }
}

/// The size of an operand.
pub(crate) fn operand_size_of(op: &Operand, p: &Payload) -> (r: Size)
    ensures
        r == size_of_operand(*op, *p),
{
    match op {
        Operand::Symbol(_) => symbol_size(p),
        Operand::Register(r) => r.size,
        Operand::Mem(m) => m.size,
        Operand::Imm(s) => *s,
        _ => Size::Unknown,
    }
}

/// Whether `r` is the accumulator of size `sz`.
fn accumulator(r: &Reg, sz: Size) -> (b: bool)
    ensures
        b == is_accumulator(*r, sz),
{
    r.purpose == Purpose::General && r.byte == 0 && !r.ext3 && !r.ext4 && r.size == sz
}

/// The register/memory opcode by operand width.
fn width_opcode(sz: Size, byte_opc: u8, wide_opc: u8) -> (r: Option<u8>)
    ensures
        r == by_width(sz, byte_opc, wide_opc),
{
    match sz {
        Size::Byte => Some(byte_opc),
        Size::Word | Size::Dword | Size::Qword => Some(wide_opc),
        _ => None,
    }
}

/// An ADD-like instruction with a register destination and an immediate or symbol source.
fn add_like_reg_imm_api(
    d: &Reg,
    srci: Size,
    opc: &[u8; 9],
    ovr: u8,
    bits: u8,
    from_symbol: bool,
) -> (g: GenAPI)
    requires
        add_like_reg_imm(*d, srci, opc@, ovr, bits, from_symbol) is Some,
    ensures
        layout_of(g) == add_like_reg_imm(*d, srci, opc@, ovr, bits, from_symbol).unwrap(),
{
    let dw = srci == Size::Dword || srci == Size::Word;
    if dw && (accumulator(d, Size::Qword) || accumulator(d, Size::Dword)) {
        return api_acc(opc[1], 4);
    }
    if dw && accumulator(d, Size::Word) {
        return api_acc(opc[1], 2);
    }
    if accumulator(d, Size::Byte) {
        return api_acc(opc[0], 1);
    }
    if accumulator(d, Size::Word) {
        return api_acc(opc[1], 2);
    }
    if from_symbol {
        if srci == Size::Byte {
            api_rmi(opc[2], ovr, 1)
        } else {
            api_rmi(opc[3], ovr, 4)
        }
    } else if srci == Size::Byte {
        api_rmi(opc[4], ovr, 1)
    } else if srci == Size::Word {
        let size: u16 = if bits == 16 && d.size == Size::Word {
            2
        } else {
            4
        };
        api_rmi(opc[3], ovr, size)
    } else {
        api_rmi(opc[3], ovr, 4)
    }
}

/// An ADD-like instruction with a memory or symbol destination and an immediate or symbol
/// source.
fn add_like_mem_imm_api(dstm: Size, srci: Size, opc: &[u8; 9], ovr: u8, bits: u8) -> (g: GenAPI)
    requires
        add_like_mem_imm(dstm, srci, opc@, ovr, bits) is Some,
    ensures
        layout_of(g) == add_like_mem_imm(dstm, srci, opc@, ovr, bits).unwrap(),
{
    let size: u16 = if srci == Size::Word && bits == 16 {
        2
    } else if srci != Size::Byte {
        4
    } else {
        1
    };
    if dstm == Size::Byte {
        api_rmi(opc[2], ovr, size)
    } else if dstm == Size::Word || dstm == Size::Dword {
        api_rmi(opc[3], ovr, size)
    } else {
        let b = if srci == Size::Byte {
            opc[4]
        } else {
            opc[3]
        };
        api_rmi(b, ovr, size)
    }
}

/// The layout of an ADD-like instruction, as `spec_add_like` describes it.
pub fn add_like_ins(ins: &Instr, opc: &[u8; 9], ovrreg: u8, bits: u8) -> (r: GenAPI)
    requires
        spec_add_like(ins.operands@, ins.payloads@, opc@, ovrreg, bits) is Some,
    ensures
        layout_of(r) == spec_add_like(ins.operands@, ins.payloads@, opc@, ovrreg, bits).unwrap(),
{
    let dst = ins.operands[0];
    let src = ins.operands[1];
    let srci = operand_size_of(&src, &ins.payloads[1]);
    match (dst, src) {
        (Operand::Register(d), Operand::Symbol(deref)) => {
            if deref {
                let b = width_opcode(d.size, opc[7], opc[6]);
                api_mr(b.unwrap())
            } else {
                add_like_reg_imm_api(&d, srci, opc, ovrreg, bits, true)
            }
        },
        (Operand::Register(d), Operand::Imm(_)) => add_like_reg_imm_api(
            &d,
            srci,
            opc,
            ovrreg,
            bits,
            false,
        ),
        (Operand::Mem(_), Operand::Imm(_))
        | (Operand::Mem(_), Operand::Symbol(_))
        | (Operand::Symbol(_), Operand::Imm(_))
        | (Operand::Symbol(_), Operand::Symbol(_)) => {
            let dstm = operand_size_of(&dst, &ins.payloads[0]);
            add_like_mem_imm_api(dstm, srci, opc, ovrreg, bits)
        },
        (Operand::Register(d), Operand::Mem(_)) | (Operand::Register(d), Operand::Register(_)) => {
            let b = width_opcode(d.size, opc[7], opc[6]);
            api_mr(b.unwrap())
        },
        _ => {
            let dstm = operand_size_of(&dst, &ins.payloads[0]);
            let b = width_opcode(dstm, opc[7], opc[6]);
            api_mr(b.unwrap())
        },
    }
}

/// Opcode `opc`, ModRM from the operands, REX.
pub open spec fn shape_mr_n(opc: Seq<u8>) -> Layout {
    l_rex(l_modrm(l_opcode(new_layout(), opc), true, None))
}

/// Opcode `opc`, ModRM from the operands, the operand order `ord`, REX.
pub open spec fn shape_mr_ord(opc: Seq<u8>, ord: Seq<OpOrd>) -> Layout {
    l_rex(l_ord(l_modrm(l_opcode(new_layout(), opc), true, None), ord))
}

/// Opcode `b`, REX, an eight-byte immediate from the source.
pub open spec fn shape_oi(b: u8) -> Layout {
    l_imm(l_rex(op1(b)), 1, 8)
}

/// MOV r/m64, imm32 as written for an immediate: 0xC7, REX, ModRM.reg 0, four bytes.
pub open spec fn shape_c7_imm() -> Layout {
    l_imm(l_modrm(l_rex(op1(0xC7)), true, Some(0)), 1, 4)
}

/// MOV r/m64, imm32 as written for a symbol: 0xC7, REX, four bytes, ModRM.reg 0.
pub open spec fn shape_c7_sym() -> Layout {
    l_modrm(l_imm(l_rex(op1(0xC7)), 1, 4), true, Some(0))
}

/// A layout with opcode `b`, ModRM from the operands and the reg operand first, when there
/// is an opcode.
pub open spec fn mr_ord_of(b: Option<u8>) -> Option<Layout> {
    match b {
        Some(b) => Some(shape_mr_ord(seq![b], seq![OpOrd::MODRM_REG, OpOrd::MODRM_RM])),
        None => None,
    }
}

/// Whether a number's value fits a signed 32-bit number: its high four bytes only repeat
/// the sign of the low four.
pub open spec fn fits_i32(n: Number) -> bool {
    ||| (n.le@[4] == 0 && n.le@[5] == 0 && n.le@[6] == 0 && n.le@[7] == 0 && n.le@[3] < 0x80)
    ||| (n.le@[4] == 0xFF && n.le@[5] == 0xFF && n.le@[6] == 0xFF && n.le@[7] == 0xFF && n.le@[3]
        >= 0x80)
}

/// Whether an immediate's value fits a signed 32-bit number (any operand that holds no
/// number does).
pub open spec fn imm_fits_i32(p: Payload) -> bool {
    match p {
        Payload::Number(n) => fits_i32(n),
        _ => true,
    }
}

/// The number of bytes of an immediate for an operand of size `sz`: a quadword takes a
/// sign-extended doubleword.
pub open spec fn imm_bytes(sz: Size) -> u16 {
    if sz == Size::Byte {
        1
    } else if sz == Size::Word {
        2
    } else {
        4
    }
}

/// MOV r, imm in its short form: the register's number added to the opcode.
pub open spec fn mov_ri(r: Reg) -> Option<Layout> {
    if r.size == Size::Byte {
        Some(shape_acc((0xB0 + r.byte) as u8, 1))
    } else if r.size == Size::Word || r.size == Size::Dword || r.size == Size::Qword {
        Some(shape_acc((0xB8 + r.byte) as u8, imm_bytes(r.size)))
    } else {
        None
    }
}

/// MOV r/m, imm with a memory or symbol destination of size `sz`.
pub open spec fn mov_mi(sz: Size) -> Option<Layout> {
    match by_width(sz, 0xC6, 0xC7) {
        Some(b) => Some(shape_rmi(b, 0, imm_bytes(sz))),
        None => None,
    }
}

/// The layout of a MOV with operands `ops` holding `pays`; `None` where they make no MOV.
pub open spec fn spec_ins_mov(ops: Seq<Operand>, pays: Seq<Payload>, bits: u8) -> Option<Layout> {
    if ops.len() < 2 || pays.len() < 2 {
        None
    } else {
        let dst = ops[0];
        let src = ops[1];
        match dst {
            Operand::Register(r) => if r.purpose == Purpose::Debug {
                Some(shape_mr_ord(seq![0x0Fu8, 0x23], seq![OpOrd::MODRM_REG, OpOrd::MODRM_RM]))
            } else if r.purpose == Purpose::Segment {
                match src {
                    Operand::Register(_) | Operand::Mem(_) => Some(shape_mr(0x8E)),
                    _ => None,
                }
            } else if r.purpose == Purpose::Control {
                Some(shape_mr_ord(seq![0x0Fu8, 0x22], seq![OpOrd::MODRM_REG, OpOrd::MODRM_RM]))
            } else {
                match src {
                    Operand::Imm(_) => if !imm_fits_i32(pays[1]) {
                        Some(shape_oi((0xB8 + r.byte) as u8))
                    } else if r.ext3 && r.size == Size::Qword {
                        Some(shape_c7_imm())
                    } else {
                        mov_ri(r)
                    },
                    Operand::Register(r2) => if r2.purpose == Purpose::Segment {
                        Some(shape_mr(0x8C))
                    } else if r2.purpose == Purpose::Control {
                        Some(shape_mr_n(seq![0x0Fu8, 0x20]))
                    } else if r2.purpose == Purpose::Debug {
                        Some(shape_mr_ord(seq![0x0Fu8, 0x21], seq![OpOrd::MODRM_RM, OpOrd::MODRM_REG]))
                    } else {
                        mr_of(by_width(r.size, 0x88, 0x89))
                    },
                    Operand::Symbol(deref) => if deref {
                        mr_ord_of(by_width(r.size, 0x8A, 0x8B))
                    } else if spec_symbol_size(pays[1]) == Size::Qword {
                        Some(shape_oi((0xB8 + r.byte) as u8))
                    } else if r.ext3 && r.size == Size::Qword {
                        Some(shape_c7_sym())
                    } else {
                        mov_ri(r)
                    },
                    Operand::Mem(_) => mr_ord_of(by_width(r.size, 0x8A, 0x8B)),
                    _ => None,
                }
            },
            Operand::Mem(_) | Operand::Symbol(_) => match src {
                Operand::Register(_) => mr_of(by_width(size_of_operand(dst, pays[0]), 0x88, 0x89)),
                Operand::Imm(_) | Operand::Symbol(_) => mov_mi(size_of_operand(dst, pays[0])),
                _ => None,
            },
            _ => None,
        }
    }
}

/// What MOV needs of its operands: they make a MOV, and a register destination has a
/// three-bit number.
pub open spec fn mov_ok(ops: Seq<Operand>, pays: Seq<Payload>, bits: u8) -> bool {
    &&& spec_ins_mov(ops, pays, bits) is Some
    &&& (ops[0] matches Operand::Register(r) ==> r.byte < 8)
}

/// Opcode `opc`, ModRM from the operands, REX.
fn api_mr_n(opc: &[u8]) -> (g: GenAPI)
    requires
        opc@.len() <= 4,
    ensures
        layout_of(g) == shape_mr_n(opc@),
{
    GenAPI::new().opcode(opc).modrm(true, None).rex()
}

/// Opcode `opc`, ModRM from the operands, the operand order `ord`, REX.
fn api_mr_ord(opc: &[u8], ord: &[OpOrd]) -> (g: GenAPI)
    requires
        opc@.len() <= 4,
        ord@.len() <= 4,
    ensures
        layout_of(g) == shape_mr_ord(opc@, ord@),
{
    GenAPI::new().opcode(opc).modrm(true, None).ord(ord).rex()
}

/// Opcode `b`, REX, an eight-byte immediate.
fn api_oi(b: u8) -> (g: GenAPI)
    ensures
        layout_of(g) == shape_oi(b),
{
    GenAPI::new().opcode(&[b]).rex().imm_atindex(1, 8)
}

/// Whether a number's value fits a signed 32-bit number.
fn number_fits_i32(p: &Payload) -> (r: bool)
    ensures
        r == imm_fits_i32(*p),
{
    match p {
        Payload::Number(n) => {
            let le = n.le;
            (le[4] == 0 && le[5] == 0 && le[6] == 0 && le[7] == 0 && le[3] < 0x80) || (le[4]
                == 0xFF && le[5] == 0xFF && le[6] == 0xFF && le[7] == 0xFF && le[3] >= 0x80)
        },
        _ => true,
    }
}

/// MOV r, imm in its short form.
fn mov_ri_api(r: &Reg) -> (g: GenAPI)
    requires
        mov_ri(*r) is Some,
        r.byte < 8,
    ensures
        layout_of(g) == mov_ri(*r).unwrap(),
{
    if r.size == Size::Byte {
        api_acc(0xB0 + r.byte, 1)
    } else if r.size == Size::Word {
        api_acc(0xB8 + r.byte, 2)
    } else {
        api_acc(0xB8 + r.byte, 4)
    }
}

/// MOV r/m, imm with a memory or symbol destination.
fn mov_mi_api(sz: Size) -> (g: GenAPI)
    requires
        mov_mi(sz) is Some,
    ensures
        layout_of(g) == mov_mi(sz).unwrap(),
{
    let size: u16 = if sz == Size::Byte {
        1
    } else if sz == Size::Word {
        2
    } else {
        4
    };
    let b = width_opcode(sz, 0xC6, 0xC7);
    api_rmi(b.unwrap(), 0, size)
}

/// The layout of a MOV, as `spec_ins_mov` describes it.
pub fn ins_mov(ins: &Instr, bits: u8) -> (r: GenAPI)
    requires
        mov_ok(ins.operands@, ins.payloads@, bits),
    ensures
        layout_of(r) == spec_ins_mov(ins.operands@, ins.payloads@, bits).unwrap(),
{
    let dst = ins.operands[0];
    let src = ins.operands[1];
    match dst {
        Operand::Register(r) => {
            if r.purpose == Purpose::Debug {
                return api_mr_ord(&[0x0F, 0x23], &[OpOrd::MODRM_REG, OpOrd::MODRM_RM]);
            }
            if r.purpose == Purpose::Segment {
                return api_mr(0x8E);
            }
            if r.purpose == Purpose::Control {
                return api_mr_ord(&[0x0F, 0x22], &[OpOrd::MODRM_REG, OpOrd::MODRM_RM]);
            }
            match src {
                Operand::Imm(_) => {
                    if !number_fits_i32(&ins.payloads[1]) {
                        api_oi(0xB8 + r.byte)
                    } else if r.ext3 && r.size == Size::Qword {
                        GenAPI::new().opcode(&[0xC7]).rex().modrm(true, Some(0)).imm_atindex(1, 4)
                    } else {
                        mov_ri_api(&r)
                    }
                },
                Operand::Register(r2) => {
                    if r2.purpose == Purpose::Segment {
                        api_mr(0x8C)
                    } else if r2.purpose == Purpose::Control {
                        api_mr_n(&[0x0F, 0x20])
                    } else if r2.purpose == Purpose::Debug {
                        api_mr_ord(&[0x0F, 0x21], &[OpOrd::MODRM_RM, OpOrd::MODRM_REG])
                    } else {
                        let b = width_opcode(r.size, 0x88, 0x89);
                        api_mr(b.unwrap())
                    }
                },
                Operand::Symbol(deref) => {
                    if deref {
                        let b = width_opcode(r.size, 0x8A, 0x8B);
                        api_mr_ord(&[b.unwrap()], &[OpOrd::MODRM_REG, OpOrd::MODRM_RM])
                    } else if symbol_size(&ins.payloads[1]) == Size::Qword {
                        api_oi(0xB8 + r.byte)
                    } else if r.ext3 && r.size == Size::Qword {
                        GenAPI::new().opcode(&[0xC7]).rex().imm_atindex(1, 4).modrm(true, Some(0))
                    } else {
                        mov_ri_api(&r)
                    }
                },
                _ => {
                    let b = width_opcode(r.size, 0x8A, 0x8B);
                    api_mr_ord(&[b.unwrap()], &[OpOrd::MODRM_REG, OpOrd::MODRM_RM])
                },
            }
        },
        _ => {
            let dsz = operand_size_of(&dst, &ins.payloads[0]);
            match src {
                Operand::Register(_) => {
                    let b = width_opcode(dsz, 0x88, 0x89);
                    api_mr(b.unwrap())
                },
                _ => mov_mi_api(dsz),
            }
        },
    }
}

/// Whether a number's value fits a signed number of `k` bytes (1, 2 or 4): the bytes from
/// `k` on only repeat the sign of the ones below.
pub open spec fn fits_signed(n: Number, k: int) -> bool {
    ||| (bytes_from_are(n.le@, k, 0) && n.le@[k - 1] < 0x80)
    ||| (bytes_from_are(n.le@, k, 0xFF) && n.le@[k - 1] >= 0x80)
}

/// Whether the bytes of `le` from position `k` on are all `v`.
pub open spec fn bytes_from_are(le: Seq<u8>, k: int, v: u8) -> bool {
    forall|i: int| k <= i < le.len() ==> le[i] == v
}

/// The smallest size that holds an immediate's value as a signed number (a doubleword for
/// an operand that holds no number).
pub open spec fn signed_size(p: Payload) -> Size {
    match p {
        Payload::Number(n) => if fits_signed(n, 1) {
            Size::Byte
        } else if fits_signed(n, 2) {
            Size::Word
        } else if fits_signed(n, 4) {
            Size::Dword
        } else {
            Size::Qword
        },
        _ => Size::Dword,
    }
}

/// Opcode `opc`, ModRM with the reg override `reg`, the operand order `ord`.
pub open spec fn shape_mod_ord(opc: Seq<u8>, reg: Option<u8>, ord: Seq<OpOrd>) -> Layout {
    l_ord(l_modrm(l_opcode(new_layout(), opc), true, reg), ord)
}

/// `shape_mod_ord` with an immediate of `size` bytes from operand `idx`.
pub open spec fn shape_mod_ord_imm(
    opc: Seq<u8>,
    reg: Option<u8>,
    ord: Seq<OpOrd>,
    idx: u16,
    size: u16,
) -> Layout {
    l_imm(shape_mod_ord(opc, reg, ord), idx, size)
}

/// The opcodes of an APX ADD-like instruction: r/m8 r8, r/m r, r/m imm, r/m imm8,
/// r/m8 imm8, r8 r/m8, r r/m.
pub struct AaddOpcodes {
    pub rm8: Seq<u8>,
    pub rm: Seq<u8>,
    pub rmi: Seq<u8>,
    pub rmi8: Seq<u8>,
    pub rm8i8: Seq<u8>,
    pub r8m8: Seq<u8>,
    pub rm64: Seq<u8>,
}

/// The layout of an APX ADD-like instruction (AADD, AOR, AADC, ASBB, AAND, ASUB, AXOR)
/// with opcodes `o` and `ovr` in ModRM.reg for its immediate forms, before its APX prefix;
/// `None` where the operands make no such instruction.
pub open spec fn spec_aadd(ops: Seq<Operand>, pays: Seq<Payload>, o: AaddOpcodes, ovr: u8) -> Option<
    Layout,
> {
    let rm_reg = seq![OpOrd::MODRM_RM, OpOrd::MODRM_REG];
    let reg_rm = seq![OpOrd::MODRM_REG, OpOrd::MODRM_RM];
    let v_rm = seq![OpOrd::VEX_VVVV, OpOrd::MODRM_RM];
    let v_rm_reg = seq![OpOrd::VEX_VVVV, OpOrd::MODRM_RM, OpOrd::MODRM_REG];
    if ops.len() < 2 || pays.len() < 2 {
        None
    } else {
        let dst = ops[0];
        let src = ops[1];
        let dsz = size_of_operand(dst, pays[0]);
        let has3 = ops.len() > 2;
        match (dst, src) {
            (Operand::Mem(_), Operand::Imm(_)) | (Operand::Register(_), Operand::Imm(_)) => if has3 {
                None
            } else if dsz != Size::Byte {
                let ss = signed_size(pays[1]);
                if ss == Size::Byte {
                    Some(shape_mod_ord_imm(o.rmi8, Some(ovr), rm_reg, 1, 1))
                } else if ss == Size::Word {
                    Some(shape_mod_ord_imm(o.rmi, Some(ovr), rm_reg, 1, 2))
                } else {
                    Some(shape_mod_ord_imm(o.rmi, Some(ovr), rm_reg, 1, 4))
                }
            } else {
                Some(shape_mod_ord_imm(o.rm8i8, Some(ovr), rm_reg, 1, 1))
            },
            (Operand::Mem(_), Operand::Register(_)) | (Operand::Symbol(_), Operand::Register(_)) => {
                if dsz == Size::Byte {
                    if has3 {
                        if ops[2] is Imm {
                            Some(shape_mod_ord_imm(o.rm8i8, Some(ovr), v_rm, 2, 1))
                        } else {
                            None
                        }
                    } else {
                        Some(shape_mod_ord(o.rm8, None, rm_reg))
                    }
                } else if has3 {
                    if ops[2] is Imm && pays.len() > 2 {
                        let ss = signed_size(pays[2]);
                        if ss == Size::Word {
                            Some(shape_mod_ord_imm(o.rmi, Some(ovr), v_rm, 2, 2))
                        } else if ss == Size::Byte {
                            Some(shape_mod_ord_imm(o.rmi8, Some(ovr), v_rm, 2, 1))
                        } else {
                            Some(shape_mod_ord_imm(o.rmi, Some(ovr), v_rm, 2, 4))
                        }
                    } else {
                        None
                    }
                } else {
                    Some(shape_mod_ord(o.rm, None, rm_reg))
                }
            },
            (Operand::Register(d), Operand::Mem(_))
            | (Operand::Register(d), Operand::Register(_)) => if d.size == Size::Byte {
                if has3 && ops[2] is Register {
                    Some(shape_mod_ord(o.r8m8, None, v_rm_reg))
                } else if has3 && ops[2] is Imm {
                    Some(shape_mod_ord_imm(o.rm8i8, Some(ovr), v_rm, 2, 1))
                } else {
                    Some(shape_mod_ord(o.rm8, None, reg_rm))
                }
            } else if has3 && ops[2] is Register {
                Some(shape_mod_ord(o.rm64, None, v_rm_reg))
            } else if has3 && ops[2] is Imm && pays.len() > 2 {
                let ss = signed_size(pays[2]);
                Some(
                    shape_mod_ord_imm(
                        o.rmi,
                        Some(ovr),
                        v_rm,
                        2,
                        if ss == Size::Byte || ss == Size::Word {
                            2
                        } else {
                            4
                        },
                    ),
                )
            } else {
                Some(shape_mod_ord(o.rm, None, reg_rm))
            },
            _ => None,
        }
    }
}

/// Opcode `opc`, ModRM with the reg override `reg`, the operand order `ord`.
fn api_mod_ord(opc: &[u8], reg: Option<u8>, ord: &[OpOrd]) -> (g: GenAPI)
    requires
        opc@.len() <= 4,
        ord@.len() <= 4,
    ensures
        layout_of(g) == shape_mod_ord(opc@, reg, ord@),
{
    GenAPI::new().opcode(opc).modrm(true, reg).ord(ord)
}

/// `api_mod_ord` with an immediate of `size` bytes from operand `idx`.
fn api_mod_ord_imm(opc: &[u8], reg: Option<u8>, ord: &[OpOrd], idx: u16, size: u16) -> (g: GenAPI)
    requires
        opc@.len() <= 4,
        ord@.len() <= 4,
    ensures
        layout_of(g) == shape_mod_ord_imm(opc@, reg, ord@, idx, size),
{
    api_mod_ord(opc, reg, ord).imm_atindex(idx, size)
}

/// Whether the `k` bytes of `le` from `k` on only repeat the sign of byte `k - 1`.
fn le_fits_signed(le: &[u8; 8], k: usize) -> (r: bool)
    requires
        1 <= k <= 4,
    ensures
        r == ((bytes_from_are(le@, k as int, 0) && le@[k - 1] < 0x80) || (bytes_from_are(
            le@,
            k as int,
            0xFF,
        ) && le@[k - 1] >= 0x80)),
{
    let mut zeros = true;
    let mut ones = true;
    let mut i: usize = k;
    while i < 8
        invariant
            k <= i <= 8,
            zeros == (forall|j: int| k <= j < i ==> le@[j] == 0),
            ones == (forall|j: int| k <= j < i ==> le@[j] == 0xFF),
        decreases 8 - i,
    {
        zeros = zeros && le[i] == 0;
        ones = ones && le[i] == 0xFF;
        i = i + 1;
    }
    (zeros && le[k - 1] < 0x80) || (ones && le[k - 1] >= 0x80)
}

/// The smallest size that holds an immediate's value as a signed number.
fn signed_size_of(p: &Payload) -> (r: Size)
    ensures
        r == signed_size(*p),
{
    match p {
        Payload::Number(n) => {
            let le = n.le;
            let b1 = le_fits_signed(&le, 1);
            let b2 = le_fits_signed(&le, 2);
            let b4 = le_fits_signed(&le, 4);
            if b1 {
                Size::Byte
            } else if b2 {
                Size::Word
            } else if b4 {
                Size::Dword
            } else {
                Size::Qword
            }
        },
        _ => Size::Dword,
    }
}

/// The layout of an APX ADD-like instruction before its APX prefix, as `spec_aadd`
/// describes it.
pub fn ins_aadd(
    ins: &Instr,
    opc_rm8: &[u8],
    opc_rm: &[u8],
    opc_rmi: &[u8],
    opc_rmi8: &[u8],
    opc_rm8i8: &[u8],
    opc_r8m8: &[u8],
    opc_rm64: &[u8],
    modrm_ovr: u8,
) -> (r: GenAPI)
    requires
        opc_rm8@.len() <= 4,
        opc_rm@.len() <= 4,
        opc_rmi@.len() <= 4,
        opc_rmi8@.len() <= 4,
        opc_rm8i8@.len() <= 4,
        opc_r8m8@.len() <= 4,
        opc_rm64@.len() <= 4,
        spec_aadd(
            ins.operands@,
            ins.payloads@,
            AaddOpcodes {
                rm8: opc_rm8@,
                rm: opc_rm@,
                rmi: opc_rmi@,
                rmi8: opc_rmi8@,
                rm8i8: opc_rm8i8@,
                r8m8: opc_r8m8@,
                rm64: opc_rm64@,
            },
            modrm_ovr,
        ) is Some,
    ensures
        layout_of(r) == spec_aadd(
            ins.operands@,
            ins.payloads@,
            AaddOpcodes {
                rm8: opc_rm8@,
                rm: opc_rm@,
                rmi: opc_rmi@,
                rmi8: opc_rmi8@,
                rm8i8: opc_rm8i8@,
                r8m8: opc_r8m8@,
                rm64: opc_rm64@,
            },
            modrm_ovr,
        ).unwrap(),
{
    let rm_reg = [OpOrd::MODRM_RM, OpOrd::MODRM_REG];
    let reg_rm = [OpOrd::MODRM_REG, OpOrd::MODRM_RM];
    let v_rm = [OpOrd::VEX_VVVV, OpOrd::MODRM_RM];
    let v_rm_reg = [OpOrd::VEX_VVVV, OpOrd::MODRM_RM, OpOrd::MODRM_REG];
    assert(rm_reg@ == seq![OpOrd::MODRM_RM, OpOrd::MODRM_REG]);
    assert(reg_rm@ == seq![OpOrd::MODRM_REG, OpOrd::MODRM_RM]);
    assert(v_rm@ == seq![OpOrd::VEX_VVVV, OpOrd::MODRM_RM]);
    assert(v_rm_reg@ == seq![OpOrd::VEX_VVVV, OpOrd::MODRM_RM, OpOrd::MODRM_REG]);
    let dst = ins.operands[0];
    let src = ins.operands[1];
    let dsz = operand_size_of(&dst, &ins.payloads[0]);
    let has3 = ins.operands.len() > 2;
    match (dst, src) {
        (Operand::Mem(_), Operand::Imm(_)) | (Operand::Register(_), Operand::Imm(_)) => {
            if dsz != Size::Byte {
                let ss = signed_size_of(&ins.payloads[1]);
                if ss == Size::Byte {
                    api_mod_ord_imm(opc_rmi8, Some(modrm_ovr), &rm_reg, 1, 1)
                } else if ss == Size::Word {
                    api_mod_ord_imm(opc_rmi, Some(modrm_ovr), &rm_reg, 1, 2)
                } else {
                    api_mod_ord_imm(opc_rmi, Some(modrm_ovr), &rm_reg, 1, 4)
                }
            } else {
                api_mod_ord_imm(opc_rm8i8, Some(modrm_ovr), &rm_reg, 1, 1)
            }
        },
        (Operand::Mem(_), Operand::Register(_)) | (Operand::Symbol(_), Operand::Register(_)) => {
            if dsz == Size::Byte {
                if has3 {
                    api_mod_ord_imm(opc_rm8i8, Some(modrm_ovr), &v_rm, 2, 1)
                } else {
                    api_mod_ord(opc_rm8, None, &rm_reg)
                }
            } else if has3 {
                let ss = signed_size_of(&ins.payloads[2]);
                if ss == Size::Word {
                    api_mod_ord_imm(opc_rmi, Some(modrm_ovr), &v_rm, 2, 2)
                } else if ss == Size::Byte {
                    api_mod_ord_imm(opc_rmi8, Some(modrm_ovr), &v_rm, 2, 1)
                } else {
                    api_mod_ord_imm(opc_rmi, Some(modrm_ovr), &v_rm, 2, 4)
                }
            } else {
                api_mod_ord(opc_rm, None, &rm_reg)
            }
        },
        (Operand::Register(d), _) => {
            let third_reg = has3 && matches!(ins.operands[2], Operand::Register(_));
            let third_imm = has3 && matches!(ins.operands[2], Operand::Imm(_))
                && ins.payloads.len() > 2;
            if d.size == Size::Byte {
                if third_reg {
                    api_mod_ord(opc_r8m8, None, &v_rm_reg)
                } else if has3 && matches!(ins.operands[2], Operand::Imm(_)) {
                    api_mod_ord_imm(opc_rm8i8, Some(modrm_ovr), &v_rm, 2, 1)
                } else {
                    api_mod_ord(opc_rm8, None, &reg_rm)
                }
            } else if third_reg {
                api_mod_ord(opc_rm64, None, &v_rm_reg)
            } else if third_imm {
                let ss = signed_size_of(&ins.payloads[2]);
                let isz: u16 = if ss == Size::Byte || ss == Size::Word {
                    2
                } else {
                    4
                };
                api_mod_ord_imm(opc_rmi, Some(modrm_ovr), &v_rm, 2, isz)
            } else {
                api_mod_ord(opc_rm, None, &reg_rm)
            }
        },
        _ => api_mod_ord(opc_rm, None, &reg_rm),
    }
}

/// The layout of a jump or call whose opcodes are `near` (32-bit displacement), `rm`
/// (ModRM form, with `ovr` in ModRM.reg) and `short` (8-bit displacement): an immediate or
/// symbol target takes the short form when it fits a byte, the near one otherwise, with the
/// displacement from the first operand; a register or memory target takes the ModRM form.
pub open spec fn spec_jmplike(
    ops: Seq<Operand>,
    pays: Seq<Payload>,
    near: Seq<u8>,
    rm: Seq<u8>,
    short: Seq<u8>,
    ovr: u8,
) -> Option<Layout> {
    if ops.len() < 1 || pays.len() < 1 {
        None
    } else {
        match ops[0] {
            Operand::Imm(_) => Some(
                l_imm(
                    l_opcode(
                        new_layout(),
                        if signed_size(pays[0]) == Size::Byte {
                            short
                        } else {
                            near
                        },
                    ),
                    0,
                    0,
                ),
            ),
            Operand::Symbol(_) => Some(
                l_imm(
                    l_opcode(
                        new_layout(),
                        if spec_symbol_size(pays[0]) == Size::Byte {
                            short
                        } else {
                            near
                        },
                    ),
                    0,
                    0,
                ),
            ),
            Operand::Register(_) | Operand::Mem(_) => Some(
                l_rex(l_modrm(l_opcode(new_layout(), rm), true, Some(ovr))),
            ),
            _ => None,
        }
    }
}

/// The layout of a jump or call, as `spec_jmplike` describes it.
pub fn ins_jmplike(ins: &Instr, near: &[u8], rm: &[u8], short: &[u8], ovr: u8, bits: u8) -> (r:
    GenAPI)
    requires
        near@.len() <= 4,
        rm@.len() <= 4,
        short@.len() <= 4,
        spec_jmplike(ins.operands@, ins.payloads@, near@, rm@, short@, ovr) is Some,
    ensures
        layout_of(r) == spec_jmplike(ins.operands@, ins.payloads@, near@, rm@, short@, ovr).unwrap(),
{
    match ins.operands[0] {
        Operand::Imm(_) => {
            let opc = if signed_size_of(&ins.payloads[0]) == Size::Byte {
                short
            } else {
                near
            };
            GenAPI::new().opcode(opc).imm_atindex(0, 0)
        },
        Operand::Symbol(_) => {
            let opc = if symbol_size(&ins.payloads[0]) == Size::Byte {
                short
            } else {
                near
            };
            GenAPI::new().opcode(opc).imm_atindex(0, 0)
        },
        _ => GenAPI::new().opcode(rm).modrm(true, Some(ovr)).rex(),
    }
}

/// The layout of a one-operand instruction of the INC/DEC/NOT/NEG kind: `opc_byte` for a
/// byte operand, `opc_wide` otherwise, `ovr` in ModRM.reg, REX.
pub open spec fn spec_inclike(ops: Seq<Operand>, pays: Seq<Payload>, opc_byte: u8, opc_wide: u8, ovr: u8) -> Option<Layout> {
    if ops.len() < 1 || pays.len() < 1 {
        None
    } else {
        Some(
            l_rex(
                l_modrm(
                    op1(
                        if size_of_operand(ops[0], pays[0]) == Size::Byte {
                            opc_byte
                        } else {
                            opc_wide
                        },
                    ),
                    true,
                    Some(ovr),
                ),
            ),
        )
    }
}

/// The layout of INC, DEC, NOT or NEG, as `spec_inclike` describes it.
pub fn ins_inclike(ins: &Instr, opc: &[u8; 2], ovr: u8, bits: u8) -> (r: GenAPI)
    requires
        spec_inclike(ins.operands@, ins.payloads@, opc@[0], opc@[1], ovr) is Some,
    ensures
        layout_of(r) == spec_inclike(ins.operands@, ins.payloads@, opc@[0], opc@[1], ovr).unwrap(),
{
    let b = if operand_size_of(&ins.operands[0], &ins.payloads[0]) == Size::Byte {
        opc[0]
    } else {
        opc[1]
    };
    GenAPI::new().opcode(&[b]).modrm(true, Some(ovr)).rex()
}

/// The layout of DIV, IDIV or MUL: 0xF6 for a byte operand, 0xF7 otherwise, `ovr` in
/// ModRM.reg.
pub open spec fn spec_divmul(ops: Seq<Operand>, pays: Seq<Payload>, ovr: u8) -> Option<Layout> {
    if ops.len() < 1 || pays.len() < 1 {
        None
    } else {
        Some(
            l_modrm(
                op1(
                    if size_of_operand(ops[0], pays[0]) == Size::Byte {
                        0xF6
                    } else {
                        0xF7
                    },
                ),
                true,
                Some(ovr),
            ),
        )
    }
}

/// The layout of DIV, IDIV or MUL, as `spec_divmul` describes it.
pub fn ins_divmul(ins: &Instr, ovr: u8, bits: u8) -> (r: GenAPI)
    requires
        spec_divmul(ins.operands@, ins.payloads@, ovr) is Some,
    ensures
        layout_of(r) == spec_divmul(ins.operands@, ins.payloads@, ovr).unwrap(),
{
    let b: u8 = if operand_size_of(&ins.operands[0], &ins.payloads[0]) == Size::Byte {
        0xF6
    } else {
        0xF7
    };
    GenAPI::new().opcode(&[b]).modrm(true, Some(ovr))
}

/// The layout of LEA: 0x8D, ModRM, the register operand first.
pub open spec fn spec_lea() -> Layout {
    l_ord(l_modrm(op1(0x8D), true, None), seq![OpOrd::MODRM_REG, OpOrd::MODRM_RM])
}

/// The layout of LEA.
pub fn ins_lea(ins: &Instr, bits: u8) -> (r: GenAPI)
    ensures
        layout_of(r) == spec_lea(),
{
    GenAPI::new().opcode(&[0x8D]).modrm(true, None).ord(&[OpOrd::MODRM_REG, OpOrd::MODRM_RM])
}

/// TEST r, imm past the accumulator forms: 0xF6 with a byte immediate for a byte register,
/// 0xF7 with a word immediate and the size fixed to a word for a word register, 0xF7 with a
/// doubleword immediate otherwise.
pub open spec fn test_reg_imm(d: Reg) -> Layout {
    if d.size == Size::Byte {
        l_rex(l_imm(l_modrm(op1(0xF6), true, Some(0)), 1, 1))
    } else if d.size == Size::Word {
        l_rex(l_imm(l_fixed(l_modrm(op1(0xF7), true, Some(0)), Size::Word), 1, 2))
    } else {
        l_rex(l_imm(l_modrm(op1(0xF7), true, Some(0)), 1, 4))
    }
}

/// The layout of TEST with operands `ops` holding `pays`; `None` where they make no TEST.
pub open spec fn spec_ins_test(ops: Seq<Operand>, pays: Seq<Payload>) -> Option<Layout> {
    if ops.len() < 2 || pays.len() < 2 {
        None
    } else {
        let srci = size_of_operand(ops[1], pays[1]);
        let dsz = size_of_operand(ops[0], pays[0]);
        match (ops[0], ops[1]) {
            (Operand::Register(d), Operand::Imm(_)) | (Operand::Register(d), Operand::Symbol(_)) => {
                if (srci == Size::Dword || srci == Size::Word) && (is_accumulator(d, Size::Qword)
                    || is_accumulator(d, Size::Dword)) {
                    Some(shape_acc(0xA9, 4))
                } else if (srci == Size::Dword || srci == Size::Word) && is_accumulator(d, Size::Word) {
                    Some(shape_acc(0xA9, 2))
                } else if is_accumulator(d, Size::Byte) {
                    Some(shape_acc(0xA8, 1))
                } else if is_accumulator(d, Size::Word) {
                    Some(shape_acc(0xA9, 2))
                } else {
                    Some(test_reg_imm(d))
                }
            },
            (Operand::Mem(_), Operand::Imm(_))
            | (Operand::Mem(_), Operand::Symbol(_))
            | (Operand::Symbol(_), Operand::Imm(_))
            | (Operand::Symbol(_), Operand::Symbol(_)) => {
                let size: u16 = if (srci == Size::Word || srci == Size::Byte) && dsz == Size::Word {
                    2
                } else if srci == Size::Byte && (dsz == Size::Dword || dsz == Size::Qword) {
                    4
                } else if srci != Size::Byte {
                    4
                } else {
                    1
                };
                match by_width(dsz, 0xF6, 0xF7) {
                    Some(b) => Some(shape_rmi(b, 0, size)),
                    None => None,
                }
            },
            (Operand::Register(_), Operand::Register(_))
            | (Operand::Mem(_), Operand::Register(_))
            | (Operand::Symbol(_), Operand::Register(_)) => mr_of(by_width(dsz, 0x84, 0x85)),
            _ => None,
        }
    }
}

/// The layout of TEST, as `spec_ins_test` describes it.
pub fn ins_test(ins: &Instr, bits: u8) -> (r: GenAPI)
    requires
        spec_ins_test(ins.operands@, ins.payloads@) is Some,
    ensures
        layout_of(r) == spec_ins_test(ins.operands@, ins.payloads@).unwrap(),
{
    let dst = ins.operands[0];
    let src = ins.operands[1];
    let srci = operand_size_of(&src, &ins.payloads[1]);
    let dsz = operand_size_of(&dst, &ins.payloads[0]);
    match (dst, src) {
        (Operand::Register(d), Operand::Imm(_)) | (Operand::Register(d), Operand::Symbol(_)) => {
            let dw = srci == Size::Dword || srci == Size::Word;
            if dw && (accumulator(&d, Size::Qword) || accumulator(&d, Size::Dword)) {
                return api_acc(0xA9, 4);
            }
            if dw && accumulator(&d, Size::Word) {
                return api_acc(0xA9, 2);
            }
            if accumulator(&d, Size::Byte) {
                return api_acc(0xA8, 1);
            }
            if accumulator(&d, Size::Word) {
                return api_acc(0xA9, 2);
            }
            if d.size == Size::Byte {
                GenAPI::new().opcode(&[0xF6]).modrm(true, Some(0)).imm_atindex(1, 1).rex()
            } else if d.size == Size::Word {
                GenAPI::new().opcode(&[0xF7]).modrm(true, Some(0)).fixed_size(Size::Word).imm_atindex(
                    1,
                    2,
                ).rex()
            } else {
                GenAPI::new().opcode(&[0xF7]).modrm(true, Some(0)).imm_atindex(1, 4).rex()
            }
        },
        (_, Operand::Imm(_)) | (_, Operand::Symbol(_)) => {
            let size: u16 = if (srci == Size::Word || srci == Size::Byte) && dsz == Size::Word {
                2
            } else if srci == Size::Byte && (dsz == Size::Dword || dsz == Size::Qword) {
                4
            } else if srci != Size::Byte {
                4
            } else {
                1
            };
            let b = width_opcode(dsz, 0xF6, 0xF7);
            api_rmi(b.unwrap(), 0, size)
        },
        _ => {
            let b = width_opcode(dsz, 0x84, 0x85);
            api_mr(b.unwrap())
        },
    }
}

/// Whether the low four bytes of a number, read as a signed 32-bit value, lie strictly
/// between -128 and 128.
pub open spec fn low_i32_within_byte(p: Payload) -> bool {
    match p {
        Payload::Number(n) => (n.le@[1] == 0 && n.le@[2] == 0 && n.le@[3] == 0 && n.le@[0] < 0x80)
            || (n.le@[1] == 0xFF && n.le@[2] == 0xFF && n.le@[3] == 0xFF && n.le@[0] > 0x80),
        _ => false,
    }
}

/// The layout of CMP with operands `ops` holding `pays`; `None` where they make no CMP.
pub open spec fn spec_ins_cmp(ops: Seq<Operand>, pays: Seq<Payload>) -> Option<Layout> {
    if ops.len() < 2 || pays.len() < 2 {
        None
    } else {
        let srci = size_of_operand(ops[1], pays[1]);
        let dsz = size_of_operand(ops[0], pays[0]);
        match (ops[0], ops[1]) {
            (Operand::Register(d), Operand::Imm(_)) | (Operand::Register(d), Operand::Symbol(_)) => {
                if (srci == Size::Dword || srci == Size::Word) && (is_accumulator(d, Size::Qword)
                    || is_accumulator(d, Size::Dword)) {
                    Some(shape_acc(0x3D, 4))
                } else if (srci == Size::Dword || srci == Size::Word) && is_accumulator(d, Size::Word) {
                    Some(shape_acc(0x3D, 2))
                } else if is_accumulator(d, Size::Byte) {
                    Some(shape_acc(0x3C, 1))
                } else if is_accumulator(d, Size::Word) {
                    Some(shape_acc(0x3D, 2))
                } else if d.size == Size::Byte {
                    Some(shape_rmi(0x80, 7, 1))
                } else if d.size == Size::Word || d.size == Size::Dword || d.size == Size::Qword {
                    if srci == Size::Byte {
                        Some(shape_rmi(0x83, 7, 1))
                    } else {
                        Some(shape_rmi(0x81, 7, 4))
                    }
                } else {
                    None
                }
            },
            (Operand::Mem(_), Operand::Imm(_))
            | (Operand::Mem(_), Operand::Symbol(_))
            | (Operand::Symbol(_), Operand::Imm(_))
            | (Operand::Symbol(_), Operand::Symbol(_)) => {
                let size: u16 = if (srci == Size::Word || srci == Size::Byte) && dsz == Size::Word {
                    2
                } else if srci == Size::Byte && (dsz == Size::Dword || dsz == Size::Qword) {
                    4
                } else if srci != Size::Byte {
                    4
                } else {
                    1
                };
                let narrow = if ops[1] is Imm {
                    low_i32_within_byte(pays[1])
                } else {
                    srci == Size::Byte
                };
                if dsz == Size::Byte {
                    Some(shape_rmi(0x80, 7, size))
                } else if dsz == Size::Word || dsz == Size::Dword || dsz == Size::Qword {
                    Some(
                        shape_rmi(
                            if narrow {
                                0x83
                            } else {
                                0x81
                            },
                            7,
                            size,
                        ),
                    )
                } else {
                    None
                }
            },
            (Operand::Register(d), Operand::Mem(_)) | (Operand::Register(d), Operand::Register(_)) => {
                mr_ord_of(by_width(d.size, 0x3A, 0x3B))
            },
            (Operand::Mem(m), Operand::Register(_)) => mr_of(by_width(m.size, 0x38, 0x39)),
            _ => None,
        }
    }
}

/// Whether the low four bytes of a number lie strictly between -128 and 128.
fn low_within_byte(p: &Payload) -> (r: bool)
    ensures
        r == low_i32_within_byte(*p),
{
    match p {
        Payload::Number(n) => {
            let le = n.le;
            (le[1] == 0 && le[2] == 0 && le[3] == 0 && le[0] < 0x80) || (le[1] == 0xFF && le[2]
                == 0xFF && le[3] == 0xFF && le[0] > 0x80)
        },
        _ => false,
    }
}

/// The layout of CMP, as `spec_ins_cmp` describes it.
pub fn ins_cmp(ins: &Instr, bits: u8) -> (r: GenAPI)
    requires
        spec_ins_cmp(ins.operands@, ins.payloads@) is Some,
    ensures
        layout_of(r) == spec_ins_cmp(ins.operands@, ins.payloads@).unwrap(),
{
    let dst = ins.operands[0];
    let src = ins.operands[1];
    let srci = operand_size_of(&src, &ins.payloads[1]);
    let dsz = operand_size_of(&dst, &ins.payloads[0]);
    match (dst, src) {
        (Operand::Register(d), Operand::Imm(_)) | (Operand::Register(d), Operand::Symbol(_)) => {
            let dw = srci == Size::Dword || srci == Size::Word;
            if dw && (accumulator(&d, Size::Qword) || accumulator(&d, Size::Dword)) {
                return api_acc(0x3D, 4);
            }
            if dw && accumulator(&d, Size::Word) {
                return api_acc(0x3D, 2);
            }
            if accumulator(&d, Size::Byte) {
                return api_acc(0x3C, 1);
            }
            if accumulator(&d, Size::Word) {
                return api_acc(0x3D, 2);
            }
            if d.size == Size::Byte {
                api_rmi(0x80, 7, 1)
            } else if srci == Size::Byte {
                api_rmi(0x83, 7, 1)
            } else {
                api_rmi(0x81, 7, 4)
            }
        },
        (Operand::Register(d), _) => {
            let b = width_opcode(d.size, 0x3A, 0x3B);
            api_mr_ord(&[b.unwrap()], &[OpOrd::MODRM_REG, OpOrd::MODRM_RM])
        },
        (Operand::Mem(m), Operand::Register(_)) => {
            let b = width_opcode(m.size, 0x38, 0x39);
            api_mr(b.unwrap())
        },
        _ => {
            let size: u16 = if (srci == Size::Word || srci == Size::Byte) && dsz == Size::Word {
                2
            } else if srci == Size::Byte && (dsz == Size::Dword || dsz == Size::Qword) {
                4
            } else if srci != Size::Byte {
                4
            } else {
                1
            };
            let narrow = if let Operand::Imm(_) = src {
                low_within_byte(&ins.payloads[1])
            } else {
                srci == Size::Byte
            };
            if dsz == Size::Byte {
                api_rmi(0x80, 7, size)
            } else if narrow {
                api_rmi(0x83, 7, size)
            } else {
                api_rmi(0x81, 7, size)
            }
        },
    }
}

/// The opcode of PUSH for a segment register, numbered as ModRM numbers them (ES 0, CS 1,
/// SS 2, DS 3, FS 4, GS 5).
pub open spec fn push_segment(n: u8) -> Option<Seq<u8>> {
    if n == 0 {
        Some(seq![0x06u8])
    } else if n == 1 {
        Some(seq![0x0Eu8])
    } else if n == 2 {
        Some(seq![0x16u8])
    } else if n == 3 {
        Some(seq![0x1Eu8])
    } else if n == 4 {
        Some(seq![0x0Fu8, 0xA0])
    } else if n == 5 {
        Some(seq![0x0Fu8, 0xA8])
    } else {
        None
    }
}

/// The opcode of POP for a segment register (CS gives 0x90).
pub open spec fn pop_segment(n: u8) -> Option<Seq<u8>> {
    if n == 0 {
        Some(seq![0x07u8])
    } else if n == 1 {
        Some(seq![0x90u8])
    } else if n == 2 {
        Some(seq![0x17u8])
    } else if n == 3 {
        Some(seq![0x1Fu8])
    } else if n == 4 {
        Some(seq![0x0Fu8, 0xA1])
    } else if n == 5 {
        Some(seq![0x0Fu8, 0xA9])
    } else {
        None
    }
}

/// A layout of just the opcode `o`, when there is one.
pub open spec fn opcode_only(o: Option<Seq<u8>>) -> Option<Layout> {
    match o {
        Some(o) => Some(l_opcode(new_layout(), o)),
        None => None,
    }
}

/// The layout of PUSH with operands `ops` holding `pays`; `None` where they make no PUSH.
pub open spec fn spec_ins_push(ops: Seq<Operand>, pays: Seq<Payload>) -> Option<Layout> {
    if ops.len() < 1 || pays.len() < 1 {
        None
    } else {
        match ops[0] {
            Operand::Register(r) => if r.purpose == Purpose::Segment {
                opcode_only(push_segment(r.byte))
            } else {
                Some(l_rex(op1((0x50 + r.byte) as u8)))
            },
            Operand::Imm(_) => {
                let ss = signed_size(pays[0]);
                if ss == Size::Byte {
                    Some(l_imm(op1(0x6A), 0, 1))
                } else if ss == Size::Word {
                    Some(l_fixed(l_imm(op1(0x68), 0, 2), Size::Word))
                } else if ss == Size::Dword {
                    Some(l_fixed(l_imm(op1(0x68), 0, 4), Size::Dword))
                } else {
                    None
                }
            },
            Operand::Symbol(deref) => if deref {
                Some(l_rex(l_modrm(op1(0xFF), true, Some(6))))
            } else {
                Some(l_imm(op1(0x68), 0, 4))
            },
            Operand::Mem(_) => Some(l_rex(l_modrm(op1(0xFF), true, Some(6)))),
            _ => None,
        }
    }
}

/// The layout of POP with operands `ops`; `None` where they make no POP.
pub open spec fn spec_ins_pop(ops: Seq<Operand>) -> Option<Layout> {
    if ops.len() < 1 {
        None
    } else {
        match ops[0] {
            Operand::Register(r) => if r.purpose == Purpose::Segment {
                opcode_only(pop_segment(r.byte))
            } else {
                Some(l_rex(op1((0x58 + r.byte) as u8)))
            },
            Operand::Mem(_) | Operand::Symbol(_) => Some(l_modrm(l_rex(op1(0x8F)), true, None)),
            _ => None,
        }
    }
}

/// The layout of PUSH, as `spec_ins_push` describes it.
pub fn ins_push(ins: &Instr, bits: u8) -> (r: GenAPI)
    requires
        spec_ins_push(ins.operands@, ins.payloads@) is Some,
        ins.operands@[0] matches Operand::Register(r) ==> r.byte < 8,
    ensures
        layout_of(r) == spec_ins_push(ins.operands@, ins.payloads@).unwrap(),
{
    match ins.operands[0] {
        Operand::Register(r) => {
            if r.purpose == Purpose::Segment {
                if r.byte == 0 {
                    GenAPI::new().opcode(&[0x06])
                } else if r.byte == 1 {
                    GenAPI::new().opcode(&[0x0E])
                } else if r.byte == 2 {
                    GenAPI::new().opcode(&[0x16])
                } else if r.byte == 3 {
                    GenAPI::new().opcode(&[0x1E])
                } else if r.byte == 4 {
                    GenAPI::new().opcode(&[0x0F, 0xA0])
                } else {
                    GenAPI::new().opcode(&[0x0F, 0xA8])
                }
            } else {
                GenAPI::new().opcode(&[0x50 + r.byte]).rex()
            }
        },
        Operand::Imm(_) => {
            let ss = signed_size_of(&ins.payloads[0]);
            if ss == Size::Byte {
                GenAPI::new().opcode(&[0x6A]).imm_atindex(0, 1)
            } else if ss == Size::Word {
                GenAPI::new().opcode(&[0x68]).imm_atindex(0, 2).fixed_size(Size::Word)
            } else {
                GenAPI::new().opcode(&[0x68]).imm_atindex(0, 4).fixed_size(Size::Dword)
            }
        },
        Operand::Symbol(deref) => {
            if deref {
                GenAPI::new().opcode(&[0xFF]).modrm(true, Some(6)).rex()
            } else {
                GenAPI::new().opcode(&[0x68]).imm_atindex(0, 4)
            }
        },
        _ => GenAPI::new().opcode(&[0xFF]).modrm(true, Some(6)).rex(),
    }
}

/// The layout of POP, as `spec_ins_pop` describes it.
pub fn ins_pop(ins: &Instr, bits: u8) -> (r: GenAPI)
    requires
        spec_ins_pop(ins.operands@) is Some,
        ins.operands@[0] matches Operand::Register(r) ==> r.byte < 8,
    ensures
        layout_of(r) == spec_ins_pop(ins.operands@).unwrap(),
{
    match ins.operands[0] {
        Operand::Register(r) => {
            if r.purpose == Purpose::Segment {
                if r.byte == 0 {
                    GenAPI::new().opcode(&[0x07])
                } else if r.byte == 1 {
                    GenAPI::new().opcode(&[0x90])
                } else if r.byte == 2 {
                    GenAPI::new().opcode(&[0x17])
                } else if r.byte == 3 {
                    GenAPI::new().opcode(&[0x1F])
                } else if r.byte == 4 {
                    GenAPI::new().opcode(&[0x0F, 0xA1])
                } else {
                    GenAPI::new().opcode(&[0x0F, 0xA9])
                }
            } else {
                GenAPI::new().opcode(&[0x58 + r.byte]).rex()
            }
        },
        _ => GenAPI::new().opcode(&[0x8F]).rex().modrm(true, None),
    }
}

/// The opcodes of the shifts and rotates.
pub open spec fn shift_ops() -> Seq<u8> {
    seq![0xD0u8, 0xD2, 0xC0, 0xD1, 0xD3, 0xC1]
}

/// The layout of a conditional move with opcode 0x0F `b`: ModRM, REX, the register operand
/// first.
pub open spec fn spec_cmovcc(b: u8) -> Layout {
    l_ord(
        l_rex(l_modrm(l_opcode(new_layout(), seq![0x0Fu8, b]), true, None)),
        seq![OpOrd::MODRM_REG, OpOrd::MODRM_RM],
    )
}

/// The layout of a conditional move, as `spec_cmovcc` describes it.
pub fn ins_cmovcc(ins: &Instr, b: u8, bits: u8) -> (r: GenAPI)
    ensures
        layout_of(r) == spec_cmovcc(b),
{
    GenAPI::new().opcode(&[0x0F, b]).modrm(true, None).rex().ord(&[OpOrd::MODRM_REG, OpOrd::MODRM_RM])
}

/// The layout of a bit test (BT, BTS, BTR, BTC): with an immediate or symbol source, the
/// opcode `imm`, `ovr` in ModRM.reg and a one-byte immediate; otherwise the opcode `noimm`
/// and ModRM from the operands; REX either way.
pub open spec fn spec_bt(ops: Seq<Operand>, noimm: Seq<u8>, imm: Seq<u8>, ovr: u8) -> Layout {
    if ops.len() >= 2 && (ops[1] is Imm || ops[1] is Symbol) {
        l_imm(l_modrm(l_opcode(l_rex(new_layout()), imm), true, Some(ovr)), 1, 1)
    } else {
        l_modrm(l_opcode(l_rex(new_layout()), noimm), true, None)
    }
}

/// The layout of a bit test, as `spec_bt` describes it.
pub fn ins_bt(ins: &Instr, opc_noimm: &[u8], opc_imm: &[u8], bits: u8, modrm: u8) -> (r: GenAPI)
    requires
        opc_noimm@.len() <= 4,
        opc_imm@.len() <= 4,
    ensures
        layout_of(r) == spec_bt(ins.operands@, opc_noimm@, opc_imm@, modrm),
{
    let api = GenAPI::new().rex();
    if ins.operands.len() >= 2 && matches!(ins.operands[1], Operand::Imm(_) | Operand::Symbol(_)) {
        api.opcode(opc_imm).modrm(true, Some(modrm)).imm_atindex(1, 1)
    } else {
        api.opcode(opc_noimm).modrm(true, None)
    }
}

/// Whether a register is CL.
pub open spec fn is_cl(r: Reg) -> bool {
    r.purpose == Purpose::General && r.byte == 1 && !r.ext3 && !r.ext4 && r.size == Size::Byte
}

/// Whether an immediate's value is 1.
pub open spec fn is_one(p: Payload) -> bool {
    match p {
        Payload::Number(n) => n.le@[0] == 1 && bytes_from_are(n.le@, 1, 0),
        _ => false,
    }
}

/// The layout of a shift or rotate whose six opcodes are `opc` (r/m8 by 1, r/m8 by CL,
/// r/m8 by imm8, r/m by 1, r/m by CL, r/m by imm8), with `ovr` in ModRM.reg; `None` where
/// the count is neither CL nor an immediate.
pub open spec fn spec_shllike(ops: Seq<Operand>, pays: Seq<Payload>, opc: Seq<u8>, ovr: u8) -> Option<
    Layout,
> {
    if ops.len() < 2 || pays.len() < 2 || opc.len() != 6 {
        None
    } else {
        let base = l_rex(l_modrm(new_layout(), true, Some(ovr)));
        let dsz = size_of_operand(ops[0], pays[0]);
        match ops[1] {
            Operand::Register(r) => if is_cl(r) {
                match by_width(dsz, opc[1], opc[4]) {
                    Some(b) => Some(l_opcode(base, seq![b])),
                    None => None,
                }
            } else {
                None
            },
            Operand::Imm(_) => if is_one(pays[1]) {
                Some(
                    l_opcode(
                        base,
                        seq![
                            if dsz == Size::Byte {
                                opc[0]
                            } else {
                                opc[3]
                            },
                        ],
                    ),
                )
            } else {
                Some(
                    l_opcode(
                        l_imm(base, 1, 1),
                        seq![
                            if dsz == Size::Byte {
                                opc[2]
                            } else {
                                opc[5]
                            },
                        ],
                    ),
                )
            },
            _ => None,
        }
    }
}

/// Whether an immediate's value is 1.
pub(crate) fn payload_is_one(p: &Payload) -> (r: bool)
    ensures
        r == is_one(*p),
{
    match p {
        Payload::Number(n) => {
            let le = n.le;
            let r = le[0] == 1 && le[1] == 0 && le[2] == 0 && le[3] == 0 && le[4] == 0 && le[5] == 0
                && le[6] == 0 && le[7] == 0;
            assert(r == (le@[0] == 1 && bytes_from_are(le@, 1, 0))) by {
                if le@[0] == 1 && bytes_from_are(le@, 1, 0) {
                    assert(le@[1] == 0 && le@[2] == 0 && le@[3] == 0 && le@[4] == 0);
                    assert(le@[5] == 0 && le@[6] == 0 && le@[7] == 0);
                }
            }
            r
        },
        _ => false,
    }
}

/// The layout of a shift or rotate, as `spec_shllike` describes it.
pub fn ins_shllike(ins: &Instr, opc: &[u8; 6], ovr: u8, bits: u8) -> (r: GenAPI)
    requires
        spec_shllike(ins.operands@, ins.payloads@, opc@, ovr) is Some,
    ensures
        layout_of(r) == spec_shllike(ins.operands@, ins.payloads@, opc@, ovr).unwrap(),
{
    let base = GenAPI::new().modrm(true, Some(ovr)).rex();
    let dsz = operand_size_of(&ins.operands[0], &ins.payloads[0]);
    match ins.operands[1] {
        Operand::Register(_) => {
            let b = width_opcode(dsz, opc[1], opc[4]);
            base.opcode(&[b.unwrap()])
        },
        _ => {
            if payload_is_one(&ins.payloads[1]) {
                let b = if dsz == Size::Byte {
                    opc[0]
                } else {
                    opc[3]
                };
                base.opcode(&[b])
            } else {
                let b = if dsz == Size::Byte {
                    opc[2]
                } else {
                    opc[5]
                };
                base.imm_atindex(1, 1).opcode(&[b])
            }
        },
    }
}

/// `l` with the APX prefix of a conditional compare or test, with pp `pp`.
pub open spec fn l_condcomp_apx(l: Layout, pp: u8) -> Layout {
    Layout {
        meta_0: meta_with_fpfx(l.meta_0, PREFIX_APX),
        prefix: apx_prefix_word(
            APXVariant::CondTestCmpExtension,
            VexDetails { pp, map_select: 0, vex_we: false, vlength: MegaBool { data: 0 } },
            false,
        ),
        ..l
    }
}

/// `l` with the condition code `c` ORed into its APX prefix.
pub open spec fn l_cccc(l: Layout, c: u8) -> Layout {
    Layout { prefix: l.prefix | ((c as u16) & 0xF), ..l }
}

/// The layout of a conditional compare or test (before its condition code) with opcodes
/// `mr` (r/m, r), `rm` (r, r/m), `im` (r/m, imm) and `im8` (r/m, imm8), and `ovr` in
/// ModRM.reg of its immediate forms; a byte operation takes the opcode one below.
pub open spec fn spec_condcomp(
    ops: Seq<Operand>,
    pays: Seq<Payload>,
    mr: u8,
    rm: u8,
    im: u8,
    im8: u8,
    ovr: u8,
) -> Option<Layout> {
    let rm_reg = seq![OpOrd::MODRM_RM, OpOrd::MODRM_REG];
    let reg_rm = seq![OpOrd::MODRM_REG, OpOrd::MODRM_RM];
    if ops.len() < 2 || pays.len() < 2 {
        None
    } else {
        let dsz = size_of_operand(ops[0], pays[0]);
        match (ops[0], ops[1]) {
            (Operand::Mem(_), Operand::Imm(_)) | (Operand::Register(_), Operand::Imm(_)) => {
                let ss = signed_size(pays[1]);
                if ss == Size::Byte {
                    let b = if dsz == Size::Byte {
                        (im8 - 1) as u8
                    } else {
                        im8
                    };
                    Some(l_ord(l_condcomp_apx(l_modrm(l_imm(op1(b), 1, 1), true, Some(ovr)), 0), rm_reg))
                } else if ss == Size::Word {
                    Some(l_ord(l_condcomp_apx(l_modrm(l_imm(op1(im), 1, 2), true, Some(ovr)), 0x66), rm_reg))
                } else {
                    Some(l_ord(l_condcomp_apx(l_modrm(l_imm(op1(im), 1, 4), true, Some(ovr)), 0), rm_reg))
                }
            },
            (Operand::Register(d), Operand::Register(_)) => if d.size == Size::Byte {
                Some(l_condcomp_apx(l_ord(l_modrm(op1((rm - 1) as u8), true, None), rm_reg), 0))
            } else {
                Some(l_condcomp_apx(l_ord(l_modrm(op1(rm), true, None), reg_rm), 0))
            },
            (Operand::Mem(_), Operand::Register(d)) => if d.size == Size::Byte {
                Some(l_condcomp_apx(l_ord(l_modrm(op1((mr - 1) as u8), true, None), rm_reg), 0))
            } else {
                Some(
                    l_condcomp_apx(
                        l_ord(l_modrm(l_opcode(op1(mr), seq![(mr - 1) as u8]), true, None), rm_reg),
                        0,
                    ),
                )
            },
            (Operand::Register(d), Operand::Mem(_)) => if d.size == Size::Byte {
                Some(l_condcomp_apx(l_ord(l_modrm(op1((rm - 1) as u8), true, None), reg_rm), 0))
            } else {
                Some(l_condcomp_apx(l_ord(l_modrm(op1(rm), true, None), reg_rm), 0))
            },
            _ => None,
        }
    }
}

/// The layout of a conditional compare or test before its condition code, as `spec_condcomp`
/// describes it.
pub fn ins_condcomp(
    ins: &Instr,
    opc_mr: &[u8],
    opc_rm: &[u8],
    opc_im: &[u8],
    opc_im8: &[u8],
    modrm_ovr: u8,
) -> (r: GenAPI)
    requires
        opc_mr@.len() == 1 && opc_rm@.len() == 1 && opc_im@.len() == 1 && opc_im8@.len() == 1,
        opc_mr@[0] >= 1 && opc_rm@[0] >= 1 && opc_im8@[0] >= 1,
        spec_condcomp(ins.operands@, ins.payloads@, opc_mr@[0], opc_rm@[0], opc_im@[0], opc_im8@[0], modrm_ovr) is Some,
    ensures
        layout_of(r) == spec_condcomp(
            ins.operands@,
            ins.payloads@,
            opc_mr@[0],
            opc_rm@[0],
            opc_im@[0],
            opc_im8@[0],
            modrm_ovr,
        ).unwrap(),
{
    let rm_reg = [OpOrd::MODRM_RM, OpOrd::MODRM_REG];
    let reg_rm = [OpOrd::MODRM_REG, OpOrd::MODRM_RM];
    assert(rm_reg@ == seq![OpOrd::MODRM_RM, OpOrd::MODRM_REG]);
    assert(reg_rm@ == seq![OpOrd::MODRM_REG, OpOrd::MODRM_RM]);
    let dst = ins.operands[0];
    let src = ins.operands[1];
    let dsz = operand_size_of(&dst, &ins.payloads[0]);
    let plain = VexDetails::new();
    let h66 = VexDetails::new().pp(0x66);
    let v = APXVariant::CondTestCmpExtension;
    match (dst, src) {
        (Operand::Register(d), Operand::Register(_)) => {
            if d.size == Size::Byte {
                GenAPI::new().opcode(&[opc_rm[0] - 1]).modrm(true, None).ord(&rm_reg).apx(v, plain, false)
            } else {
                GenAPI::new().opcode(opc_rm).modrm(true, None).ord(&reg_rm).apx(v, plain, false)
            }
        },
        (Operand::Mem(_), Operand::Register(d)) => {
            if d.size == Size::Byte {
                GenAPI::new().opcode(&[opc_mr[0] - 1]).modrm(true, None).ord(&rm_reg).apx(v, plain, false)
            } else {
                GenAPI::new().opcode(opc_mr).opcode(&[opc_mr[0] - 1]).modrm(true, None).ord(
                    &rm_reg,
                ).apx(v, plain, false)
            }
        },
        (Operand::Register(d), Operand::Mem(_)) => {
            if d.size == Size::Byte {
                GenAPI::new().opcode(&[opc_rm[0] - 1]).modrm(true, None).ord(&reg_rm).apx(v, plain, false)
            } else {
                GenAPI::new().opcode(opc_rm).modrm(true, None).ord(&reg_rm).apx(v, plain, false)
            }
        },
        _ => {
            let ss = signed_size_of(&ins.payloads[1]);
            if ss == Size::Byte {
                let b = if dsz == Size::Byte {
                    opc_im8[0] - 1
                } else {
                    opc_im8[0]
                };
                GenAPI::new().opcode(&[b]).imm_atindex(1, 1).modrm(true, Some(modrm_ovr)).apx(
                    v,
                    plain,
                    false,
                ).ord(&rm_reg)
            } else if ss == Size::Word {
                GenAPI::new().opcode(opc_im).imm_atindex(1, 2).modrm(true, Some(modrm_ovr)).apx(
                    v,
                    h66,
                    false,
                ).ord(&rm_reg)
            } else {
                GenAPI::new().opcode(opc_im).imm_atindex(1, 4).modrm(true, Some(modrm_ovr)).apx(
                    v,
                    plain,
                    false,
                ).ord(&rm_reg)
            }
        },
    }
}

/// The layout of a conditional compare (`test` false) or test with condition code `c`.
pub open spec fn spec_condcomp_cc(ops: Seq<Operand>, pays: Seq<Payload>, test: bool, c: u8) -> Option<
    Layout,
> {
    let o = if test {
        spec_condcomp(ops, pays, 0x85, 0xF7, 0x85, 0xF6, 1)
    } else {
        spec_condcomp(ops, pays, 0x38, 0x3B, 0x81, 0x83, 7)
    };
    match o {
        Some(l) => Some(l_cccc(l, c)),
        None => None,
    }
}

/// The layout of a conditional compare or test with its condition code.
fn condcomp_with_cond(ins: &Instr, test: bool, c: u8) -> (r: GenAPI)
    requires
        spec_condcomp_cc(ins.operands@, ins.payloads@, test, c) is Some,
    ensures
        layout_of(r) == spec_condcomp_cc(ins.operands@, ins.payloads@, test, c).unwrap(),
{
    let g = if test {
        let a = [0x85u8];
        let b = [0xF7u8];
        let d = [0xF6u8];
        assert(a@ == seq![0x85u8] && b@ == seq![0xF7u8] && d@ == seq![0xF6u8]);
        ins_condcomp(ins, &a, &b, &a, &d, 1)
    } else {
        let a = [0x38u8];
        let b = [0x3Bu8];
        let e = [0x81u8];
        let d = [0x83u8];
        assert(a@ == seq![0x38u8] && b@ == seq![0x3Bu8] && e@ == seq![0x81u8] && d@ == seq![0x83u8]);
        ins_condcomp(ins, &a, &b, &e, &d, 7)
    };
    g.apx_cccc(c)
}

/// The layout of an APX ADD-like instruction with its APX prefix.
pub open spec fn aadd_apx(o: Option<Layout>) -> Option<Layout> {
    match o {
        Some(l) => Some(
            Layout {
                meta_0: meta_with_fpfx(l.meta_0, PREFIX_APX),
                prefix: ((2u16 << 13u16) | 0u16 | ((MAP4 as u16) << 7u16) | (0u16 << 5u16) | 0u16),
                ..l
            },
        ),
        None => None,
    }
}

/// A data directive: no opcode, an immediate of `size` bytes from the first operand, the
/// size fixed to a byte.
pub open spec fn data_layout(size: u16) -> Layout {
    l_fixed(l_imm(l_opcode(new_layout(), seq![]), 0, size), Size::Byte)
}

/// The APX ADD-like opcodes: r/m8 r8, r/m r, r8 r/m8, r r/m from the legacy forms.
pub open spec fn aadd_ops(rm8: u8, rm: u8, r8m8: u8, rm64: u8) -> AaddOpcodes {
    AaddOpcodes {
        rm8: seq![rm8],
        rm: seq![rm],
        rmi: seq![0x81u8],
        rmi8: seq![0x83u8],
        rm8i8: seq![0x80u8],
        r8m8: seq![r8m8],
        rm64: seq![rm64],
    }
}

/// Whether operand `i` of `ops` (holding `pays`) is a quadword.
pub open spec fn operand_quad(ops: Seq<Operand>, pays: Seq<Payload>, i: int) -> bool {
    i < ops.len() && i < pays.len() && size_of_operand(ops[i], pays[i]) == Size::Qword
}

/// The number of a register operand.
pub open spec fn reg_number(op: Operand) -> Option<u8> {
    match op {
        Operand::Register(r) => Some(r.byte),
        _ => None,
    }
}

/// The two low bytes of an immediate operand's number.
pub open spec fn imm_low_bytes(op: Operand, p: Payload) -> Option<(u8, u8)> {
    match (op, p) {
        (Operand::Imm(_), Payload::Number(n)) => Some((n.le@[0], n.le@[1])),
        _ => None,
    }
}

/// The facts about an instruction that layout programs read.
pub open spec fn quads_of(ins: Instr) -> Quads {
    let ops = ins.operands@;
    let pays = ins.payloads@;
    let has_dst = ops.len() > 0;
    Quads {
        ins: ins.size == Size::Qword,
        dst: operand_quad(ops, pays, 0),
        src: operand_quad(ops, pays, 1),
        ssrc: operand_quad(ops, pays, 2),
        three: ops.len() == 3,
        needs_evex: ins.apx.needs_evex,
        not_mmx: ins.variant != IVariant::MMX,
        dst_mem: has_dst && ops[0] is Mem,
        src_imm: ops.len() > 1 && ops[1] is Imm,
        ssrc_imm: ops.len() > 2 && ops[2] is Imm,
        dst_mem_or_sym: has_dst && (ops[0] is Mem || ops[0] is Symbol),
        src_mem: ops.len() > 1 && ops[1] is Mem,
        has_src: ops.len() > 1,
        has_dst: has_dst,
        src_word: operand_size_is(ops, pays, 1, Size::Word),
        ins_byte: ins.size == Size::Byte,
        dst_reg_not_xmm: has_dst && (ops[0] matches Operand::Register(r) && r.size != Size::Xword),
        dst_xmm_or_mmx: has_dst && (ops[0] matches Operand::Register(r) && (r.size == Size::Xword
            || r.purpose == Purpose::Mmx)),
        src_byte: operand_size_is(ops, pays, 1, Size::Byte),
        dst_reg: has_dst && ops[0] is Register,
        dst_regno: if has_dst {
            reg_number(ops[0])
        } else {
            None
        },
        src_regno: if ops.len() > 1 {
            reg_number(ops[1])
        } else {
            Some(0)
        },
        dst_imm: if has_dst && pays.len() > 0 {
            imm_low_bytes(ops[0], pays[0])
        } else {
            None
        },
    }
}

/// Whether operand `i` of `ops` (holding `pays`) is of size `sz`.
pub open spec fn operand_size_is(ops: Seq<Operand>, pays: Seq<Payload>, i: int, sz: Size) -> bool {
    0 <= i < ops.len() && i < pays.len() && size_of_operand(ops[i], pays[i]) == sz
}

/// Whether operand `i` of an instruction is of size `sz`.
pub(crate) fn operand_size_is_at(ins: &Instr, i: usize, sz: Size) -> (r: bool)
    ensures
        r == operand_size_is(ins.operands@, ins.payloads@, i as int, sz),
{
    i < ins.operands.len() && i < ins.payloads.len() && operand_size_of(&ins.operands[i], &ins.payloads[i]) == sz
}

/// Whether operand `i` of an instruction is a quadword.
fn operand_quad_at(ins: &Instr, i: usize) -> (r: bool)
    ensures
        r == operand_quad(ins.operands@, ins.payloads@, i as int),
{
    if i < ins.operands.len() && i < ins.payloads.len() {
        operand_size_of(&ins.operands[i], &ins.payloads[i]) == Size::Qword
    } else {
        false
    }
}

/// The facts about an instruction that layout programs read.
fn quads(ins: &Instr) -> (q: Quads)
    ensures
        q == quads_of(*ins),
{
    let ops = &ins.operands;
    let n = ops.len();
    let has_dst = n > 0;
    let dst = if has_dst {
        Some(ops[0])
    } else {
        None
    };
    let src = if n > 1 {
        Some(ops[1])
    } else {
        None
    };
    let dst_reg_not_xmm = match dst {
        Some(Operand::Register(r)) => r.size != Size::Xword,
        _ => false,
    };
    let dst_xmm_or_mmx = match dst {
        Some(Operand::Register(r)) => r.size == Size::Xword || r.purpose == Purpose::Mmx,
        _ => false,
    };
    let dst_regno = match dst {
        Some(Operand::Register(r)) => Some(r.byte),
        _ => None,
    };
    let src_regno = match src {
        Some(Operand::Register(r)) => Some(r.byte),
        Some(_) => None,
        None => Some(0),
    };
    let dst_imm = if has_dst && ins.payloads.len() > 0 {
        match (&ops[0], &ins.payloads[0]) {
            (Operand::Imm(_), Payload::Number(num)) => Some((num.le[0], num.le[1])),
            _ => None,
        }
    } else {
        None
    };
    Quads {
        ins: ins.size == Size::Qword,
        dst: operand_quad_at(ins, 0),
        src: operand_quad_at(ins, 1),
        ssrc: operand_quad_at(ins, 2),
        three: n == 3,
        needs_evex: ins.apx.needs_evex,
        not_mmx: ins.variant != IVariant::MMX,
        dst_mem: matches!(dst, Some(Operand::Mem(_))),
        src_imm: matches!(src, Some(Operand::Imm(_))),
        ssrc_imm: n > 2 && matches!(ops[2], Operand::Imm(_)),
        dst_mem_or_sym: matches!(dst, Some(Operand::Mem(_))) || matches!(dst, Some(Operand::Symbol(_))),
        src_mem: matches!(src, Some(Operand::Mem(_))),
        has_src: n > 1,
        has_dst,
        src_word: operand_size_is_at(ins, 1, Size::Word),
        ins_byte: ins.size == Size::Byte,
        dst_reg_not_xmm,
        dst_xmm_or_mmx,
        src_byte: operand_size_is_at(ins, 1, Size::Byte),
        dst_reg: matches!(dst, Some(Operand::Register(_))),
        dst_regno,
        src_regno,
        dst_imm,
    }
}

/// The layout of an instruction whose mnemonic has no family of its own in the table: a
/// conditional move, a jump or call, a fixed opcode, or a layout program.
pub open spec fn spec_genapi_rest(ins: Instr) -> Option<Layout> {
    let m = ins.mnemonic;
    let ops = ins.operands@;
    let pays = ins.payloads@;
    let q = quads_of(ins);
    if spec_fpu_layout(m, ops) is Some {
        spec_fpu_layout(m, ops).unwrap()
    } else if spec_legacy_layout(m, ops, pays, ins.size) is Some {
        spec_legacy_layout(m, ops, pays, ins.size).unwrap()
    } else if spec_forms_layout(m, ops, pays, ins.size) is Some {
        spec_forms_layout(m, ops, pays, ins.size).unwrap()
    } else if spec_condcomp_cond(m) is Some {
        spec_condcomp_cc(ops, pays, spec_condcomp_cond(m).unwrap().0, spec_condcomp_cond(m).unwrap().1)
    } else if spec_cmov_opcode(m) is Some {
    Some(spec_cmovcc(spec_cmov_opcode(m).unwrap()))
    } else if spec_jump_opcodes(m) is Some {
    let (near, rm, short, ovr) = spec_jump_opcodes(m).unwrap();
    spec_jmplike(ops, pays, near, rm, short, ovr)
    } else {
    match spec_fixed_opcode(m) {
        Some(o) => Some(l_opcode(new_layout(), o)),
        None => match spec_layout_prog(m) {
            Some(p) => if runs_through(p, 0, new_layout(), q) {
                Some(run_prog(p, 0, new_layout(), q))
            } else {
                None
            },
            None => match spec_branching_prog(m) {
                Some(p) => if runs_through(p, 0, new_layout(), q) {
                    Some(run_prog(p, 0, new_layout(), q))
                } else {
                    None
                },
                None => None,
            },
        },
    }
}
}

/// The layout of instruction `ins` in `bits`-bit mode, for the mnemonics the table holds; `None` where the table holds none for
/// them.
pub open spec fn spec_genapi(ins: Instr, bits: u8) -> Option<Layout> {
    let m = ins.mnemonic;
    let ops = ins.operands@;
    let pays = ins.payloads@;
    match m {
        Mnemonic::BYTELE | Mnemonic::BYTEBE => Some(data_layout(1)),
        Mnemonic::WORDLE | Mnemonic::WORDBE => Some(l_imm_be(data_layout(2), m != Mnemonic::WORDLE)),
        Mnemonic::DWORDLE | Mnemonic::DWORDBE => Some(
            l_imm_be(data_layout(4), m != Mnemonic::DWORDLE),
        ),
        Mnemonic::QWORDLE | Mnemonic::QWORDBE => Some(
            l_imm_be(data_layout(8), m != Mnemonic::QWORDLE),
        ),
        Mnemonic::ASCII | Mnemonic::STRING => Some(l_imm(l_opcode(new_layout(), seq![]), 0, 0)),
        Mnemonic::EMPTY => Some(l_imm(l_fixed(l_opcode(new_layout(), seq![]), Size::Byte), 0, 0)),
        Mnemonic::MOV => spec_ins_mov(ops, pays, bits),
        Mnemonic::ADD => spec_add_like(
            ops,
            pays,
            seq![0x04u8, 0x05, 0x80, 0x81, 0x83, 0x00, 0x01, 0x02, 0x03],
            0,
            bits,
        ),
        Mnemonic::OR => spec_add_like(
            ops,
            pays,
            seq![0x0Cu8, 0x0D, 0x80, 0x81, 0x83, 0x08, 0x09, 0x0A, 0x0B],
            1,
            bits,
        ),
        Mnemonic::ADC => spec_add_like(
            ops,
            pays,
            seq![0x14u8, 0x15, 0x80, 0x81, 0x83, 0x10, 0x11, 0x12, 0x13],
            2,
            bits,
        ),
        Mnemonic::SBB => spec_add_like(
            ops,
            pays,
            seq![0x1Cu8, 0x1D, 0x80, 0x81, 0x83, 0x18, 0x19, 0x1A, 0x1B],
            3,
            bits,
        ),
        Mnemonic::AND => spec_add_like(
            ops,
            pays,
            seq![0x24u8, 0x25, 0x80, 0x81, 0x83, 0x20, 0x21, 0x22, 0x23],
            4,
            bits,
        ),
        Mnemonic::SUB => spec_add_like(
            ops,
            pays,
            seq![0x2Cu8, 0x2D, 0x80, 0x81, 0x83, 0x28, 0x29, 0x2A, 0x2B],
            5,
            bits,
        ),
        Mnemonic::XOR => spec_add_like(
            ops,
            pays,
            seq![0x34u8, 0x35, 0x80, 0x81, 0x83, 0x30, 0x31, 0x32, 0x33],
            6,
            bits,
        ),
        Mnemonic::AADC => aadd_apx(spec_aadd(ops, pays, aadd_ops(0x10, 0x11, 0x12, 0x13), 2)),
        Mnemonic::AADD => aadd_apx(spec_aadd(ops, pays, aadd_ops(0x00, 0x01, 0x02, 0x03), 0)),
        Mnemonic::AAND => aadd_apx(spec_aadd(ops, pays, aadd_ops(0x20, 0x21, 0x22, 0x23), 4)),
        Mnemonic::AOR => aadd_apx(spec_aadd(ops, pays, aadd_ops(0x0A, 0x0B, 0x08, 0x09), 1)),
        Mnemonic::ASUB => aadd_apx(spec_aadd(ops, pays, aadd_ops(0x28, 0x29, 0x2A, 0x2B), 5)),
        Mnemonic::AXOR => aadd_apx(spec_aadd(ops, pays, aadd_ops(0x30, 0x31, 0x32, 0x33), 6)),
        Mnemonic::ASBB => aadd_apx(spec_aadd(ops, pays, aadd_ops(0x18, 0x19, 0x1A, 0x1B), 3)),
        Mnemonic::INC => spec_inclike(ops, pays, 0xFE, 0xFF, 0),
        Mnemonic::DEC => spec_inclike(ops, pays, 0xFE, 0xFF, 1),
        Mnemonic::NOT => spec_inclike(ops, pays, 0xF6, 0xF7, 2),
        Mnemonic::NEG => spec_inclike(ops, pays, 0xF6, 0xF7, 3),
        Mnemonic::DIV => spec_divmul(ops, pays, 6),
        Mnemonic::IDIV => spec_divmul(ops, pays, 7),
        Mnemonic::MUL => spec_divmul(ops, pays, 4),
        Mnemonic::LEA => Some(spec_lea()),
        Mnemonic::TEST => spec_ins_test(ops, pays),
        Mnemonic::CMP => spec_ins_cmp(ops, pays),
        Mnemonic::PUSH => spec_ins_push(ops, pays),
        Mnemonic::POP => spec_ins_pop(ops),
        Mnemonic::SAL | Mnemonic::SHL => spec_shllike(ops, pays, shift_ops(), 4),
        Mnemonic::SHR => spec_shllike(ops, pays, shift_ops(), 5),
        Mnemonic::SAR => spec_shllike(ops, pays, shift_ops(), 7),
        Mnemonic::ROL => spec_shllike(ops, pays, shift_ops(), 0),
        Mnemonic::ROR => spec_shllike(ops, pays, shift_ops(), 1),
        Mnemonic::RCL => spec_shllike(ops, pays, shift_ops(), 2),
        Mnemonic::RCR => spec_shllike(ops, pays, shift_ops(), 3),
        Mnemonic::BT => Some(spec_bt(ops, seq![0x0Fu8, 0xA3], seq![0x0Fu8, 0xBA], 4)),
        Mnemonic::BTS => Some(spec_bt(ops, seq![0x0Fu8, 0xAB], seq![0x0Fu8, 0xBA], 5)),
        Mnemonic::BTC => Some(spec_bt(ops, seq![0x0Fu8, 0xBB], seq![0x0Fu8, 0xBA], 7)),
        Mnemonic::BTR => Some(spec_bt(ops, seq![0x0Fu8, 0xB3], seq![0x0Fu8, 0xBA], 6)),
        _ => spec_genapi_rest(ins),
    }
}

/// What the table needs of an instruction: it holds a layout for it, and its operands are
/// well formed.
pub open spec fn genapi_ok(ins: Instr, bits: u8) -> bool {
    &&& spec_genapi(ins, bits) is Some
    &&& forall|i: int| 0 <= i < ins.operands@.len() ==> operand_wf(#[trigger] ins.operands@[i])
}

/// A data directive layout.
fn api_data(size: u16) -> (g: GenAPI)
    ensures
        layout_of(g) == data_layout(size),
{
    GenAPI::new().opcode(&[]).imm_atindex(0, size).fixed_size(Size::Byte)
}

/// An APX ADD-like instruction with its APX prefix.
fn aadd_with_apx(ins: &Instr, rm8: u8, rm: u8, r8m8: u8, rm64: u8, ovr: u8) -> (g: GenAPI)
    requires
        aadd_apx(spec_aadd(ins.operands@, ins.payloads@, aadd_ops(rm8, rm, r8m8, rm64), ovr)) is Some,
    ensures
        layout_of(g) == aadd_apx(
            spec_aadd(ins.operands@, ins.payloads@, aadd_ops(rm8, rm, r8m8, rm64), ovr),
        ).unwrap(),
{
    let a = [rm8];
    let b = [rm];
    let c = [0x81u8];
    let d = [0x83u8];
    let e = [0x80u8];
    let f = [r8m8];
    let h = [rm64];
    assert(a@ == seq![rm8] && b@ == seq![rm] && c@ == seq![0x81u8] && d@ == seq![0x83u8]);
    assert(e@ == seq![0x80u8] && f@ == seq![r8m8] && h@ == seq![rm64]);
    let g = ins_aadd(ins, &a, &b, &c, &d, &e, &f, &h, ovr);
    let details = VexDetails::new().map_select(MAP4);
    g.apx(APXVariant::LegacyExtension, details, false)
}

/// The layout of an instruction whose mnemonic has no family of its own in the table, as
/// `spec_genapi_rest` describes it.
#[verifier::spinoff_prover]
fn get_genapi_rest(ins: &Instr, bits: u8) -> (r: GenAPI)
    requires
        spec_genapi_rest(*ins) is Some,
    ensures
        layout_of(r) == spec_genapi_rest(*ins).unwrap(),
{
    if is_fpu(ins.mnemonic) {
        return fpu_layout(ins);
    }
    if is_legacy(ins.mnemonic) {
        return legacy_layout(ins, bits);
    }
    if is_form(ins.mnemonic) {
        return forms_layout(ins, bits);
    }
    if let Some((test, c)) = condcomp_cond(ins.mnemonic) {
        return condcomp_with_cond(ins, test, c);
    }
    if let Some(b) = cmov_opcode(ins.mnemonic) {
        return ins_cmovcc(ins, b, bits);
    }
    if let Some((near, rm, short, ovr)) = jump_opcodes(ins.mnemonic) {
        return ins_jmplike(ins, near.as_slice(), rm.as_slice(), short.as_slice(), ovr, bits);
    }
    if let Some(o) = fixed_opcode(ins.mnemonic) {
        return GenAPI::new().opcode(o.as_slice());
    }
    let q = quads(ins);
    match layout_prog(ins.mnemonic) {
        Some(p) => build_layout(&p, q),
        None => {
            let p = branching_prog(ins.mnemonic).unwrap();
            build_layout(&p, q)
        },
    }
}

/// The layout of an instruction, as the table `spec_genapi` holds it.
#[verifier::spinoff_prover]
#[verifier::rlimit(50)]
pub fn get_genapi(ins: &Instr, bits: u8) -> (r: GenAPI)
    requires
        genapi_ok(*ins, bits),
    ensures
        layout_of(r) == spec_genapi(*ins, bits).unwrap(),
{
    match ins.mnemonic {
        Mnemonic::BYTELE | Mnemonic::BYTEBE => api_data(1),
        Mnemonic::WORDLE | Mnemonic::WORDBE => api_data(2).imm_is_be(
            ins.mnemonic != Mnemonic::WORDLE,
        ),
        Mnemonic::DWORDLE | Mnemonic::DWORDBE => api_data(4).imm_is_be(
            ins.mnemonic != Mnemonic::DWORDLE,
        ),
        Mnemonic::QWORDLE | Mnemonic::QWORDBE => api_data(8).imm_is_be(
            ins.mnemonic != Mnemonic::QWORDLE,
        ),
        Mnemonic::ASCII | Mnemonic::STRING => GenAPI::new().opcode(&[]).imm_atindex(0, 0),
        Mnemonic::EMPTY => GenAPI::new().opcode(&[]).fixed_size(Size::Byte).imm_atindex(0, 0),
        Mnemonic::MOV => ins_mov(ins, bits),
        Mnemonic::ADD => add_like_ins(ins, &[0x04, 0x05, 0x80, 0x81, 0x83, 0x00, 0x01, 0x02, 0x03], 0, bits),
        Mnemonic::OR => add_like_ins(ins, &[0x0C, 0x0D, 0x80, 0x81, 0x83, 0x08, 0x09, 0x0A, 0x0B], 1, bits),
        Mnemonic::ADC => add_like_ins(ins, &[0x14, 0x15, 0x80, 0x81, 0x83, 0x10, 0x11, 0x12, 0x13], 2, bits),
        Mnemonic::SBB => add_like_ins(ins, &[0x1C, 0x1D, 0x80, 0x81, 0x83, 0x18, 0x19, 0x1A, 0x1B], 3, bits),
        Mnemonic::AND => add_like_ins(ins, &[0x24, 0x25, 0x80, 0x81, 0x83, 0x20, 0x21, 0x22, 0x23], 4, bits),
        Mnemonic::SUB => add_like_ins(ins, &[0x2C, 0x2D, 0x80, 0x81, 0x83, 0x28, 0x29, 0x2A, 0x2B], 5, bits),
        Mnemonic::XOR => add_like_ins(ins, &[0x34, 0x35, 0x80, 0x81, 0x83, 0x30, 0x31, 0x32, 0x33], 6, bits),
        Mnemonic::AADC => aadd_with_apx(ins, 0x10, 0x11, 0x12, 0x13, 2),
        Mnemonic::AADD => aadd_with_apx(ins, 0x00, 0x01, 0x02, 0x03, 0),
        Mnemonic::AAND => aadd_with_apx(ins, 0x20, 0x21, 0x22, 0x23, 4),
        Mnemonic::AOR => aadd_with_apx(ins, 0x0A, 0x0B, 0x08, 0x09, 1),
        Mnemonic::ASUB => aadd_with_apx(ins, 0x28, 0x29, 0x2A, 0x2B, 5),
        Mnemonic::AXOR => aadd_with_apx(ins, 0x30, 0x31, 0x32, 0x33, 6),
        Mnemonic::ASBB => aadd_with_apx(ins, 0x18, 0x19, 0x1A, 0x1B, 3),
        Mnemonic::INC => ins_inclike(ins, &[0xFE, 0xFF], 0, bits),
        Mnemonic::DEC => ins_inclike(ins, &[0xFE, 0xFF], 1, bits),
        Mnemonic::NOT => ins_inclike(ins, &[0xF6, 0xF7], 2, bits),
        Mnemonic::NEG => ins_inclike(ins, &[0xF6, 0xF7], 3, bits),
        Mnemonic::DIV => ins_divmul(ins, 6, bits),
        Mnemonic::IDIV => ins_divmul(ins, 7, bits),
        Mnemonic::MUL => ins_divmul(ins, 4, bits),
        Mnemonic::LEA => ins_lea(ins, bits),
        Mnemonic::TEST => ins_test(ins, bits),
        Mnemonic::CMP => ins_cmp(ins, bits),
        Mnemonic::PUSH => ins_push(ins, bits),
        Mnemonic::POP => ins_pop(ins, bits),
        Mnemonic::SAL | Mnemonic::SHL => ins_shllike(ins, &[0xD0, 0xD2, 0xC0, 0xD1, 0xD3, 0xC1], 4, bits),
        Mnemonic::SHR => ins_shllike(ins, &[0xD0, 0xD2, 0xC0, 0xD1, 0xD3, 0xC1], 5, bits),
        Mnemonic::SAR => ins_shllike(ins, &[0xD0, 0xD2, 0xC0, 0xD1, 0xD3, 0xC1], 7, bits),
        Mnemonic::ROL => ins_shllike(ins, &[0xD0, 0xD2, 0xC0, 0xD1, 0xD3, 0xC1], 0, bits),
        Mnemonic::ROR => ins_shllike(ins, &[0xD0, 0xD2, 0xC0, 0xD1, 0xD3, 0xC1], 1, bits),
        Mnemonic::RCL => ins_shllike(ins, &[0xD0, 0xD2, 0xC0, 0xD1, 0xD3, 0xC1], 2, bits),
        Mnemonic::RCR => ins_shllike(ins, &[0xD0, 0xD2, 0xC0, 0xD1, 0xD3, 0xC1], 3, bits),
        Mnemonic::BT => ins_bt(ins, &[0x0F, 0xA3], &[0x0F, 0xBA], bits, 4),
        Mnemonic::BTS => ins_bt(ins, &[0x0F, 0xAB], &[0x0F, 0xBA], bits, 5),
        Mnemonic::BTC => ins_bt(ins, &[0x0F, 0xBB], &[0x0F, 0xBA], bits, 7),
        Mnemonic::BTR => ins_bt(ins, &[0x0F, 0xB3], &[0x0F, 0xBA], bits, 6),
        _ => get_genapi_rest(ins, bits),
    }
}

/// Whether some operand of `ops` is a register for `p`.
pub open spec fn uses_purpose(ops: Seq<Operand>, p: Purpose) -> bool {
    exists|i: int| 0 <= i < ops.len() && is_register_for(#[trigger] ops[i], p)
}

/// Whether an operand is a register for `p`.
pub open spec fn is_register_for(op: Operand, p: Purpose) -> bool {
    op matches Operand::Register(r) && r.purpose == p
}

/// Whether some operand is a register for `p`.
fn any_register_for(ops: &Vec<Operand>, p: Purpose) -> (b: bool)
    ensures
        b == uses_purpose(ops@, p),
{
    let mut i: usize = 0;
    while i < ops.len()
        invariant
            i <= ops@.len(),
            forall|j: int| 0 <= j < i ==> !is_register_for(#[trigger] ops@[j], p),
        decreases ops@.len() - i,
    {
        if let Operand::Register(r) = ops[i] {
            if r.purpose == p {
                assert(is_register_for(ops@[i as int], p));
                return true;
            }
        }
        i = i + 1;
    }
    false
}

/// The facts the REX computation reads, from an instruction's mnemonic and operands:
/// how its mnemonic decides, whether it uses a control or debug register, whether it is
/// UD1 or UD2; whether its mnemonic defaults to 64-bit operands is `defaults_to_64bit`.
pub fn rex_facts_of(m: Mnemonic, ops: &Vec<Operand>, defaults_to_64bit: bool) -> (f: RexFacts)
    ensures
        f.class == spec_rex_class(m),
        f.uses_cr == uses_purpose(ops@, Purpose::Control),
        f.uses_dr == uses_purpose(ops@, Purpose::Debug),
        f.defaults_to_64bit == defaults_to_64bit,
        f.is_ud == (m == Mnemonic::UD1 || m == Mnemonic::UD2),
{
    RexFacts {
        class: rex_class(m),
        uses_cr: any_register_for(ops, Purpose::Control),
        uses_dr: any_register_for(ops, Purpose::Debug),
        defaults_to_64bit,
        is_ud: m == Mnemonic::UD1 || m == Mnemonic::UD2,
    }
}

/// The facts the size overrides read, from an instruction's operands: whether it uses a
/// control or debug register; whether its mnemonic defaults to 64-bit operands is
/// `defaults_to_64bit`.
pub fn size_ovr_facts_of(ops: &Vec<Operand>, defaults_to_64bit: bool) -> (f: SizeOvrFacts)
    ensures
        f.uses_cr == uses_purpose(ops@, Purpose::Control),
        f.uses_dr == uses_purpose(ops@, Purpose::Debug),
        f.defaults_to_64bit == defaults_to_64bit,
{
    SizeOvrFacts {
        defaults_to_64bit,
        uses_cr: any_register_for(ops, Purpose::Control),
        uses_dr: any_register_for(ops, Purpose::Debug),
    }
}

/// The ModRM.reg extension of a group 3 instruction: 6 for DIV, 7 for IDIV, 4 for MUL.
pub open spec fn group3_extension(m: Mnemonic) -> u8 {
    if m == Mnemonic::DIV {
        6
    } else if m == Mnemonic::IDIV {
        7
    } else {
        4
    }
}

/// DIV, IDIV and MUL are told apart by ModRM.reg alone: each takes a ModRM byte whose reg
/// field reads back as its own extension (DIV /6, IDIV /7, MUL /4), on opcode 0xF6 for a
/// byte operand and 0xF7 for any other, a ModRM byte being emitted.
pub proof fn lemma_group3_extensions(ins: Instr, bits: u8)
    requires
        ins.mnemonic == Mnemonic::DIV || ins.mnemonic == Mnemonic::IDIV || ins.mnemonic == Mnemonic::MUL,
        ins.operands@.len() >= 1,
        ins.payloads@.len() >= 1,
    ensures
        spec_genapi(ins, bits) matches Some(l) && modrm_tuple_reg(l.modrm) == Some(
            group3_extension(ins.mnemonic),
        ) && l.op0 == (if size_of_operand(ins.operands@[0], ins.payloads@[0]) == Size::Byte {
            0xF6u8
        } else {
            0xF7u8
        }) && flag_at(l.flags, USE_MODRM as int),
        group3_extension(Mnemonic::DIV) != group3_extension(Mnemonic::IDIV),
        group3_extension(Mnemonic::DIV) != group3_extension(Mnemonic::MUL),
        group3_extension(Mnemonic::IDIV) != group3_extension(Mnemonic::MUL),
{
    lemma_modrm_tuple_roundtrip(Some(group3_extension(ins.mnemonic)));
    crate::booltable::lemma_with_flag_all(new_layout().flags, USE_MODRM as u16, true);
}

/// The ModRM.reg extension of INC (0), DEC (1), NOT (2) and NEG (3), and of the shifts and
/// rotates ROL (0), ROR (1), RCL (2), RCR (3), SHL and SAL (4), SHR (5) and SAR (7).
pub open spec fn group_extension(m: Mnemonic) -> u8 {
    match m {
        Mnemonic::INC | Mnemonic::ROL => 0,
        Mnemonic::DEC | Mnemonic::ROR => 1,
        Mnemonic::NOT | Mnemonic::RCL => 2,
        Mnemonic::NEG | Mnemonic::RCR => 3,
        Mnemonic::SHL | Mnemonic::SAL => 4,
        Mnemonic::SHR => 5,
        _ => 7,
    }
}

/// INC, DEC, NOT and NEG are told apart by ModRM.reg: each takes a ModRM byte whose reg field
/// reads back as its own extension, on 0xFE (INC, DEC) or 0xF6 (NOT, NEG) for a byte operand
/// and 0xFF or 0xF7 for any other.
pub proof fn lemma_inclike_extensions(ins: Instr, bits: u8)
    requires
        ins.mnemonic == Mnemonic::INC || ins.mnemonic == Mnemonic::DEC || ins.mnemonic == Mnemonic::NOT
            || ins.mnemonic == Mnemonic::NEG,
        ins.operands@.len() >= 1,
        ins.payloads@.len() >= 1,
    ensures
        spec_genapi(ins, bits) matches Some(l) && modrm_tuple_reg(l.modrm) == Some(
            group_extension(ins.mnemonic),
        ) && l.op0 == (if size_of_operand(ins.operands@[0], ins.payloads@[0]) == Size::Byte {
            if ins.mnemonic == Mnemonic::INC || ins.mnemonic == Mnemonic::DEC {
                0xFEu8
            } else {
                0xF6u8
            }
        } else if ins.mnemonic == Mnemonic::INC || ins.mnemonic == Mnemonic::DEC {
            0xFFu8
        } else {
            0xF7u8
        }) && flag_at(l.flags, USE_MODRM as int),
{
    lemma_modrm_tuple_roundtrip(Some(group_extension(ins.mnemonic)));
    crate::booltable::lemma_with_flag_all(new_layout().flags, USE_MODRM as u16, true);
}

/// The shifts and rotates are told apart by ModRM.reg: whatever form their count takes, the
/// layout's ModRM reg field reads back as the mnemonic's own extension.
pub proof fn lemma_shift_extensions(ins: Instr, bits: u8)
    requires
        ins.mnemonic == Mnemonic::ROL || ins.mnemonic == Mnemonic::ROR || ins.mnemonic == Mnemonic::RCL
            || ins.mnemonic == Mnemonic::RCR || ins.mnemonic == Mnemonic::SHL || ins.mnemonic
            == Mnemonic::SAL || ins.mnemonic == Mnemonic::SHR || ins.mnemonic == Mnemonic::SAR,
        spec_genapi(ins, bits) is Some,
    ensures
        modrm_tuple_reg(spec_genapi(ins, bits).unwrap().modrm) == Some(group_extension(ins.mnemonic)),
{
    lemma_modrm_tuple_roundtrip(Some(group_extension(ins.mnemonic)));
}

} // verus!
