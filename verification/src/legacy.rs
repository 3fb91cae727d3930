use vstd::prelude::*;

use crate::api::{GenAPI, CAN_H66O};
use crate::assemble::{Instr, Payload};
use crate::booltable::with_flag;
use crate::comp::{
    imm_low_bytes, l_fixed, l_imm, l_modrm, l_opcode, l_rex, layout_of, new_layout, op1, operand_size_of,
    size_of_operand, Layout,
};
use crate::mnemonic::Mnemonic;
use crate::operand::Operand;
use crate::size::Size;

verus! {

/// `l` allowed to emit the 0x66 operand size prefix, or not.
pub open spec fn l_h66(l: Layout, b: bool) -> Layout {
    Layout { flags: with_flag(l.flags, CAN_H66O as u16, b), ..l }
}

/// IN: from the port in DX, 0xEC for a byte destination and 0xED otherwise, the size fixed to
/// the destination's; from an immediate port, 0xE4 for a byte instruction (size `isz`) and
/// 0xE5 otherwise, the port a byte immediate. `None` without a source.
pub open spec fn spec_in(ops: Seq<Operand>, pays: Seq<Payload>, isz: Size) -> Option<Layout> {
    if ops.len() < 2 || pays.len() < 2 {
        None
    } else if ops[1] is Register {
        let sz = size_of_operand(ops[0], pays[0]);
        if sz == Size::Byte {
            Some(l_fixed(op1(0xEC), Size::Byte))
        } else {
            Some(l_fixed(op1(0xED), sz))
        }
    } else if isz == Size::Byte {
        Some(l_imm(op1(0xE4), 1, 1))
    } else {
        Some(l_imm(op1(0xE5), 1, 1))
    }
}

/// OUT: to the port in DX, 0xEE for a byte source (the size fixed to a byte, no 0x66 prefix)
/// and 0xEF otherwise, the size fixed to the source's; to an immediate port, 0xE6 for a byte
/// source and 0xE7 otherwise (the size fixed to the source's), the port a byte immediate.
/// `None` without a source.
pub open spec fn spec_out(ops: Seq<Operand>, pays: Seq<Payload>) -> Option<Layout> {
    if ops.len() < 2 || pays.len() < 2 {
        None
    } else {
        let sz = size_of_operand(ops[1], pays[1]);
        if ops[0] is Register {
            if sz == Size::Byte {
                Some(l_h66(l_fixed(op1(0xEE), Size::Byte), false))
            } else {
                Some(l_fixed(op1(0xEF), sz))
            }
        } else if sz == Size::Byte {
            Some(l_imm(op1(0xE6), 0, 1))
        } else {
            Some(l_fixed(l_imm(op1(0xE7), 0, 1), sz))
        }
    }
}

/// A short jump of opcode `opc` (LOOP, LOOPE, LOOPNE): the displacement a byte immediate.
pub open spec fn spec_shrtjmp(opc: u8) -> Layout {
    l_imm(op1(opc), 0, 1)
}

/// XBEGIN: 0xC7 0xF8 and a doubleword immediate.
pub open spec fn spec_xbegin() -> Layout {
    l_imm(l_opcode(new_layout(), seq![0xC7u8, 0xF8]), 0, 4)
}

/// A far jump or call of direct opcode `b` and indirect ModRM.reg `ovr`: to an immediate
/// segment, the opcode `b` followed by the segment's two low bytes, high first, then the
/// offset, a doubleword when it is an immediate that needs one and a word otherwise, the size
/// fixed to match; through memory, 0xFF with `ovr` in ModRM.reg and REX; an empty layout
/// otherwise. `None` where the segment is an immediate without a number.
pub open spec fn spec_farjump(ops: Seq<Operand>, pays: Seq<Payload>, b: u8, ovr: u8) -> Option<Layout> {
    if ops.len() > 0 && ops[0] is Imm {
        if pays.len() > 0 && imm_low_bytes(ops[0], pays[0]) is Some {
            let (lo, hi) = imm_low_bytes(ops[0], pays[0]).unwrap();
            let wide = ops.len() > 1 && (ops[1] matches Operand::Imm(s) && s == Size::Dword);
            Some(
                l_fixed(
                    l_imm(l_opcode(new_layout(), seq![b, hi, lo]), 1, if wide { 4 } else { 2 }),
                    if wide {
                        Size::Dword
                    } else {
                        Size::Word
                    },
                ),
            )
        } else {
            None
        }
    } else if ops.len() > 1 && ops[1] is Mem {
        Some(l_rex(l_opcode(l_modrm(new_layout(), true, Some(ovr)), seq![0xFFu8])))
    } else {
        Some(new_layout())
    }
}

/// The layout of IN, as `spec_in` describes it.
pub fn ins_in(ins: &Instr, bits: u8) -> (r: GenAPI)
    requires
        spec_in(ins.operands@, ins.payloads@, ins.size) is Some,
    ensures
        layout_of(r) == spec_in(ins.operands@, ins.payloads@, ins.size).unwrap(),
{
    if let Operand::Register(_) = ins.operands[1] {
        let sz = operand_size_of(&ins.operands[0], &ins.payloads[0]);
        if sz == Size::Byte {
            GenAPI::new().opcode(&[0xEC]).fixed_size(Size::Byte)
        } else {
            GenAPI::new().opcode(&[0xED]).fixed_size(sz)
        }
    } else if ins.size == Size::Byte {
        GenAPI::new().opcode(&[0xE4]).imm_atindex(1, 1)
    } else {
        GenAPI::new().opcode(&[0xE5]).imm_atindex(1, 1)
    }
}

/// The layout of OUT, as `spec_out` describes it.
pub fn ins_out(ins: &Instr, bits: u8) -> (r: GenAPI)
    requires
        spec_out(ins.operands@, ins.payloads@) is Some,
    ensures
        layout_of(r) == spec_out(ins.operands@, ins.payloads@).unwrap(),
{
    let sz = operand_size_of(&ins.operands[1], &ins.payloads[1]);
    if let Operand::Register(_) = ins.operands[0] {
        if sz == Size::Byte {
            GenAPI::new().opcode(&[0xEE]).fixed_size(Size::Byte).can_h66(false)
        } else {
            GenAPI::new().opcode(&[0xEF]).fixed_size(sz)
        }
    } else if sz == Size::Byte {
        GenAPI::new().opcode(&[0xE6]).imm_atindex(0, 1)
    } else {
        GenAPI::new().opcode(&[0xE7]).imm_atindex(0, 1).fixed_size(sz)
    }
}

/// The layout of LOOP, LOOPE or LOOPNE, as `spec_shrtjmp` describes it.
pub fn ins_shrtjmp(ins: &Instr, opc: u8) -> (r: GenAPI)
    ensures
        layout_of(r) == spec_shrtjmp(opc),
{
    GenAPI::new().opcode(&[opc]).imm_atindex(0, 1)
}

/// The layout of XBEGIN.
pub fn ins_xbegin(ins: &Instr) -> (r: GenAPI)
    ensures
        layout_of(r) == spec_xbegin(),
{
    GenAPI::new().opcode(&[0xC7, 0xF8]).imm_atindex(0, 4)
}

/// The layout of a far jump or call, as `spec_farjump` describes it.
fn farjump(ins: &Instr, b: u8, ovr: u8) -> (r: GenAPI)
    requires
        spec_farjump(ins.operands@, ins.payloads@, b, ovr) is Some,
    ensures
        layout_of(r) == spec_farjump(ins.operands@, ins.payloads@, b, ovr).unwrap(),
{
    let n = ins.operands.len();
    if n > 0 && matches!(ins.operands[0], Operand::Imm(_)) {
        let (lo, hi) = match &ins.payloads[0] {
            Payload::Number(num) => (num.le[0], num.le[1]),
            _ => (0u8, 0u8),
        };
        let wide = n > 1 && match ins.operands[1] {
            Operand::Imm(s) => s == Size::Dword,
            _ => false,
        };
        let o = [b, hi, lo];
        assert(o@ == seq![b, hi, lo]);
        if wide {
            GenAPI::new().opcode(&o).imm_atindex(1, 4).fixed_size(Size::Dword)
        } else {
            GenAPI::new().opcode(&o).imm_atindex(1, 2).fixed_size(Size::Word)
        }
    } else if n > 1 && matches!(ins.operands[1], Operand::Mem(_)) {
        GenAPI::new().modrm(true, Some(ovr)).opcode(&[0xFF]).rex()
    } else {
        GenAPI::new()
    }
}

/// The layout of LJMP: 0xEA to an immediate segment, 0xFF /5 through memory.
pub fn ins_ljmp(ins: &Instr) -> (r: GenAPI)
    requires
        spec_farjump(ins.operands@, ins.payloads@, 0xEA, 5) is Some,
    ensures
        layout_of(r) == spec_farjump(ins.operands@, ins.payloads@, 0xEA, 5).unwrap(),
{
    farjump(ins, 0xEA, 5)
}

/// The layout of LCALL: 0x9A to an immediate segment, 0xFF /3 through memory.
pub fn ins_lcall(ins: &Instr) -> (r: GenAPI)
    requires
        spec_farjump(ins.operands@, ins.payloads@, 0x9A, 3) is Some,
    ensures
        layout_of(r) == spec_farjump(ins.operands@, ins.payloads@, 0x9A, 3).unwrap(),
{
    farjump(ins, 0x9A, 3)
}

/// The layout of a port, loop, transaction or far jump instruction of mnemonic `m`, where
/// `m` is one (the outer `None` where it is none).
pub open spec fn spec_legacy_layout(m: Mnemonic, ops: Seq<Operand>, pays: Seq<Payload>, isz: Size) -> Option<
    Option<Layout>,
> {
    match m {
        Mnemonic::IN => Some(spec_in(ops, pays, isz)),
        Mnemonic::OUT => Some(spec_out(ops, pays)),
        Mnemonic::LOOP => Some(Some(spec_shrtjmp(0xE2))),
        Mnemonic::LOOPE => Some(Some(spec_shrtjmp(0xE1))),
        Mnemonic::LOOPNE => Some(Some(spec_shrtjmp(0xE0))),
        Mnemonic::XBEGIN => Some(Some(spec_xbegin())),
        Mnemonic::LJMP => Some(spec_farjump(ops, pays, 0xEA, 5)),
        Mnemonic::LCALL => Some(spec_farjump(ops, pays, 0x9A, 3)),
        _ => None,
    }
}

/// Whether `m` is a port, loop, transaction or far jump mnemonic, one `spec_legacy_layout`
/// describes.
pub fn is_legacy(m: Mnemonic) -> (b: bool)
    ensures
        forall|ops: Seq<Operand>, pays: Seq<Payload>, isz: Size|
            #[trigger] spec_legacy_layout(m, ops, pays, isz) is Some <==> b,
{
    match m {
        Mnemonic::IN | Mnemonic::OUT | Mnemonic::LOOP | Mnemonic::LOOPE | Mnemonic::LOOPNE
        | Mnemonic::XBEGIN | Mnemonic::LJMP | Mnemonic::LCALL => true,
        _ => false,
    }
}

/// The layout of a port, loop, transaction or far jump instruction, as
/// `spec_legacy_layout` describes it.
pub fn legacy_layout(ins: &Instr, bits: u8) -> (r: GenAPI)
    requires
        spec_legacy_layout(ins.mnemonic, ins.operands@, ins.payloads@, ins.size) matches Some(Some(_)),
    ensures
        layout_of(r) == spec_legacy_layout(ins.mnemonic, ins.operands@, ins.payloads@, ins.size).unwrap().unwrap(),
{
    match ins.mnemonic {
        Mnemonic::IN => ins_in(ins, bits),
        Mnemonic::OUT => ins_out(ins, bits),
        Mnemonic::LOOP => ins_shrtjmp(ins, 0xE2),
        Mnemonic::LOOPE => ins_shrtjmp(ins, 0xE1),
        Mnemonic::LOOPNE => ins_shrtjmp(ins, 0xE0),
        Mnemonic::XBEGIN => ins_xbegin(ins),
        Mnemonic::LJMP => ins_ljmp(ins),
        _ => ins_lcall(ins),
    }
}

} // verus!
