use vstd::prelude::*;

use crate::api::GenAPI;
use crate::assemble::Instr;
use crate::comp::{l_modrm, l_opcode, layout_of, new_layout, reg_number, Layout};
use crate::mnemonic::Mnemonic;
use crate::operand::{Operand, Purpose};
use crate::size::Size;

verus! {

/// The opcode byte and ModRM.reg extension of an x87 instruction on memory of size `sz`:
/// `d` for a doubleword, `q` for a quadword, `o` for any other size.
pub open spec fn pick_by_size(sz: Size, d: (u8, u8), q: (u8, u8), o: (u8, u8)) -> (u8, u8) {
    if sz == Size::Dword {
        d
    } else if sz == Size::Qword {
        q
    } else {
        o
    }
}

/// The layout of an x87 instruction on memory: the opcode byte `f.0`, ModRM with `f.1` in
/// ModRM.reg.
pub open spec fn x87_mem(f: (u8, u8)) -> Layout {
    l_modrm(l_opcode(new_layout(), seq![f.0]), true, Some(f.1))
}

/// The layout of an x87 instruction on stack register `i`: the opcode bytes `b0` and
/// `base + i`.
pub open spec fn x87_st(b0: u8, base: u8, i: u8) -> Layout {
    l_opcode(new_layout(), seq![b0, (base + i) as u8])
}

/// The layout of an x87 instruction on the stack register its destination names, as
/// `x87_st` gives it; `None` where the destination is no register or `base` plus its number
/// passes 255.
pub open spec fn spec_fpu_reg(ops: Seq<Operand>, b0: u8, base: u8) -> Option<Layout> {
    if ops.len() > 0 {
        match ops[0] {
            Operand::Register(r) => if base + r.byte < 256 {
                Some(x87_st(b0, base, r.byte))
            } else {
                None
            },
            _ => None,
        }
    } else {
        None
    }
}

/// The layout of an x87 instruction that reads or writes memory or a stack register: on a
/// memory destination the form `pick_by_size` picks by its size; otherwise the stack register
/// form `reg` (its opcode byte and base, see `spec_fpu_reg`), or, where the instruction has
/// none, an empty layout.
pub open spec fn spec_x87(ops: Seq<Operand>, d: (u8, u8), q: (u8, u8), o: (u8, u8), reg: Option<(u8, u8)>) -> Option<Layout> {
    if ops.len() > 0 && ops[0] is Mem {
        match ops[0] {
            Operand::Mem(m) => Some(x87_mem(pick_by_size(m.size, d, q, o))),
            _ => None,
        }
    } else {
        match reg {
            None => Some(new_layout()),
            Some((b0, base)) => spec_fpu_reg(ops, b0, base),
        }
    }
}

/// Whether the destination of `ops` is ST0.
pub open spec fn dst_is_st0(ops: Seq<Operand>) -> bool {
    ops.len() > 0 && (ops[0] matches Operand::Register(r) && r.purpose == Purpose::Fpu && r.byte == 0)
}

/// The layout of an x87 arithmetic instruction (FADD, FMUL, FSUB, FSUBR, FDIV, FDIVR) with
/// `ovr` in ModRM.reg for memory and `sc` / `sc1` the bases of its stack register forms: on
/// memory 0xDC for a quadword, 0xD8 otherwise; with ST0 as destination 0xD8 and `sc` plus
/// the source's number; otherwise 0xDC and `sc1` plus it, the source being ST0 when there
/// is none. `None` where the source is no register or the sum passes 255.
pub open spec fn spec_farthmt(ops: Seq<Operand>, ovr: u8, sc: u8, sc1: u8) -> Option<Layout> {
    if ops.len() > 0 && ops[0] is Mem {
        match ops[0] {
            Operand::Mem(m) => Some(x87_mem(pick_by_size(m.size, (0xD8, ovr), (0xDC, ovr), (0xD8, ovr)))),
            _ => None,
        }
    } else {
        let s = if ops.len() > 1 {
            reg_number(ops[1])
        } else {
            Some(0u8)
        };
        match s {
            None => None,
            Some(i) => if dst_is_st0(ops) {
                if sc + i < 256 {
                    Some(x87_st(0xD8, sc, i))
                } else {
                    None
                }
            } else if sc1 + i < 256 {
                Some(x87_st(0xDC, sc1, i))
            } else {
                None
            },
        }
    }
}

/// FLD: on memory 0xD9 /0 for a doubleword, 0xDD /0 for a quadword, 0xDB /5 otherwise; on
/// ST(i) 0xD9 0xC0+i.
pub open spec fn spec_fld(ops: Seq<Operand>) -> Option<Layout> {
    spec_x87(ops, (0xD9, 0), (0xDD, 0), (0xDB, 5), Some((0xD9, 0xC0)))
}

/// FST: on memory 0xD9 /2 for a doubleword, 0xDD /2 otherwise; on ST(i) 0xDD 0xD0+i.
pub open spec fn spec_fst(ops: Seq<Operand>) -> Option<Layout> {
    spec_x87(ops, (0xD9, 2), (0xDD, 2), (0xDD, 2), Some((0xDD, 0xD0)))
}

/// FSTP: on memory 0xD9 /3 for a doubleword, 0xDD /3 for a quadword, 0xDB /7 otherwise;
/// on ST(i) 0xDD 0xD8+i.
pub open spec fn spec_fstp(ops: Seq<Operand>) -> Option<Layout> {
    spec_x87(ops, (0xD9, 3), (0xDD, 3), (0xDB, 7), Some((0xDD, 0xD8)))
}

/// FILD: 0xDB /0 for a doubleword, 0xDF /5 for a quadword, 0xDF /0 otherwise.
pub open spec fn spec_fild(ops: Seq<Operand>) -> Option<Layout> {
    spec_x87(ops, (0xDB, 0), (0xDF, 5), (0xDF, 0), None)
}

/// FIST: 0xDB /2 for a doubleword, 0xDF /2 otherwise.
pub open spec fn spec_fist(ops: Seq<Operand>) -> Option<Layout> {
    spec_x87(ops, (0xDB, 2), (0xDF, 2), (0xDF, 2), None)
}

/// FISTP: 0xDB /3 for a doubleword, 0xDF /7 for a quadword, 0xDF /3 otherwise.
pub open spec fn spec_fistp(ops: Seq<Operand>) -> Option<Layout> {
    spec_x87(ops, (0xDB, 3), (0xDF, 7), (0xDF, 3), None)
}

/// FISTTP: 0xDB /1 for a doubleword, 0xDD /1 for a quadword, 0xDF /1 otherwise.
pub open spec fn spec_fisttp(ops: Seq<Operand>) -> Option<Layout> {
    spec_x87(ops, (0xDB, 1), (0xDD, 1), (0xDF, 1), None)
}

/// FCOM: on memory 0xD8 /2 for a doubleword, 0xDC /2 otherwise; on ST(i) 0xD8 0xD0+i.
pub open spec fn spec_fcom(ops: Seq<Operand>) -> Option<Layout> {
    spec_x87(ops, (0xD8, 2), (0xDC, 2), (0xDC, 2), Some((0xD8, 0xD0)))
}

/// FCOMP: on memory 0xD8 /3 for a doubleword, 0xDC /3 otherwise; on ST(i) 0xD8 0xD8+i.
pub open spec fn spec_fcomp(ops: Seq<Operand>) -> Option<Layout> {
    spec_x87(ops, (0xD8, 3), (0xDC, 3), (0xDC, 3), Some((0xD8, 0xD8)))
}

/// An x87 integer arithmetic instruction with `ovr` in ModRM.reg: 0xDE for a doubleword,
/// 0xDA otherwise.
pub open spec fn spec_fiarthmt(ops: Seq<Operand>, ovr: u8) -> Option<Layout> {
    spec_x87(ops, (0xDE, ovr), (0xDA, ovr), (0xDA, ovr), None)
}

/// The layout `spec_x87` describes.
fn x87_form(ins: &Instr, d: (u8, u8), q: (u8, u8), o: (u8, u8), reg: Option<(u8, u8)>) -> (r: GenAPI)
    requires
        spec_x87(ins.operands@, d, q, o, reg) is Some,
    ensures
        layout_of(r) == spec_x87(ins.operands@, d, q, o, reg).unwrap(),
{
    if ins.operands.len() > 0 {
        if let Operand::Mem(m) = ins.operands[0] {
            let f = if m.size == Size::Dword {
                d
            } else if m.size == Size::Qword {
                q
            } else {
                o
            };
            return GenAPI::new().opcode(&[f.0]).modrm(true, Some(f.1));
        }
    }
    match reg {
        None => GenAPI::new(),
        Some((b0, base)) => ins_fpu_reg(ins, b0, base),
    }
}

/// The layout of an x87 instruction on the stack register its destination names, as
/// `spec_fpu_reg` describes it.
pub fn ins_fpu_reg(ins: &Instr, b0: u8, base: u8) -> (r: GenAPI)
    requires
        spec_fpu_reg(ins.operands@, b0, base) is Some,
    ensures
        layout_of(r) == spec_fpu_reg(ins.operands@, b0, base).unwrap(),
{
    match ins.operands[0] {
        Operand::Register(r) => {
            let b1: u8 = base + r.byte;
            let o = [b0, b1];
            assert(o@ == seq![b0, (base + r.byte) as u8]);
            GenAPI::new().opcode(&o)
        },
        _ => GenAPI::new(),
    }
}

/// The layout of FADD, FMUL, FSUB, FSUBR, FDIV or FDIVR, as `spec_farthmt` describes it.
pub fn ins_farthmt(ins: &Instr, ovr: u8, sc: u8, sc1: u8) -> (r: GenAPI)
    requires
        spec_farthmt(ins.operands@, ovr, sc, sc1) is Some,
    ensures
        layout_of(r) == spec_farthmt(ins.operands@, ovr, sc, sc1).unwrap(),
{
    let n = ins.operands.len();
    if n > 0 {
        if let Operand::Mem(m) = ins.operands[0] {
            let b: u8 = if m.size == Size::Qword {
                0xDC
            } else {
                0xD8
            };
            return GenAPI::new().opcode(&[b]).modrm(true, Some(ovr));
        }
    }
    let i: u8 = if n > 1 {
        match ins.operands[1] {
            Operand::Register(r) => r.byte,
            _ => 0,
        }
    } else {
        0
    };
    let st0 = n > 0 && match ins.operands[0] {
        Operand::Register(r) => r.purpose == Purpose::Fpu && r.byte == 0,
        _ => false,
    };
    if st0 {
        let o = [0xD8u8, sc + i];
        assert(o@ == seq![0xD8u8, (sc + i) as u8]);
        GenAPI::new().opcode(&o)
    } else {
        let o = [0xDCu8, sc1 + i];
        assert(o@ == seq![0xDCu8, (sc1 + i) as u8]);
        GenAPI::new().opcode(&o)
    }
}

/// The layout of FLD, as `spec_fld` describes it.
pub fn ins_fld(ins: &Instr) -> (r: GenAPI)
    requires
        spec_fld(ins.operands@) is Some,
    ensures
        layout_of(r) == spec_fld(ins.operands@).unwrap(),
{
    x87_form(ins, (0xD9, 0), (0xDD, 0), (0xDB, 5), Some((0xD9, 0xC0)))
}

/// The layout of FST, as `spec_fst` describes it.
pub fn ins_fst(ins: &Instr) -> (r: GenAPI)
    requires
        spec_fst(ins.operands@) is Some,
    ensures
        layout_of(r) == spec_fst(ins.operands@).unwrap(),
{
    x87_form(ins, (0xD9, 2), (0xDD, 2), (0xDD, 2), Some((0xDD, 0xD0)))
}

/// The layout of FSTP, as `spec_fstp` describes it.
pub fn ins_fstp(ins: &Instr) -> (r: GenAPI)
    requires
        spec_fstp(ins.operands@) is Some,
    ensures
        layout_of(r) == spec_fstp(ins.operands@).unwrap(),
{
    x87_form(ins, (0xD9, 3), (0xDD, 3), (0xDB, 7), Some((0xDD, 0xD8)))
}

/// The layout of FILD, as `spec_fild` describes it.
pub fn ins_fild(ins: &Instr) -> (r: GenAPI)
    ensures
        layout_of(r) == spec_fild(ins.operands@).unwrap(),
{
    x87_form(ins, (0xDB, 0), (0xDF, 5), (0xDF, 0), None)
}

/// The layout of FIST, as `spec_fist` describes it.
pub fn ins_fist(ins: &Instr) -> (r: GenAPI)
    ensures
        layout_of(r) == spec_fist(ins.operands@).unwrap(),
{
    x87_form(ins, (0xDB, 2), (0xDF, 2), (0xDF, 2), None)
}

/// The layout of FISTP, as `spec_fistp` describes it.
pub fn ins_fistp(ins: &Instr) -> (r: GenAPI)
    ensures
        layout_of(r) == spec_fistp(ins.operands@).unwrap(),
{
    x87_form(ins, (0xDB, 3), (0xDF, 7), (0xDF, 3), None)
}

/// The layout of FISTTP, as `spec_fisttp` describes it.
pub fn ins_fisttp(ins: &Instr) -> (r: GenAPI)
    ensures
        layout_of(r) == spec_fisttp(ins.operands@).unwrap(),
{
    x87_form(ins, (0xDB, 1), (0xDD, 1), (0xDF, 1), None)
}

/// The layout of FCOM, as `spec_fcom` describes it.
pub fn ins_fcom(ins: &Instr) -> (r: GenAPI)
    requires
        spec_fcom(ins.operands@) is Some,
    ensures
        layout_of(r) == spec_fcom(ins.operands@).unwrap(),
{
    x87_form(ins, (0xD8, 2), (0xDC, 2), (0xDC, 2), Some((0xD8, 0xD0)))
}

/// The layout of FCOMP, as `spec_fcomp` describes it.
pub fn ins_fcomp(ins: &Instr) -> (r: GenAPI)
    requires
        spec_fcomp(ins.operands@) is Some,
    ensures
        layout_of(r) == spec_fcomp(ins.operands@).unwrap(),
{
    x87_form(ins, (0xD8, 3), (0xDC, 3), (0xDC, 3), Some((0xD8, 0xD8)))
}

/// The layout of FIADD, FIMUL, FICOM, FICOMP, FISUB, FISUBR, FIDIV or FIDIVR, as
/// `spec_fiarthmt` describes it.
pub fn ins_fiarthmt(ins: &Instr, ovr: u8) -> (r: GenAPI)
    ensures
        layout_of(r) == spec_fiarthmt(ins.operands@, ovr).unwrap(),
{
    x87_form(ins, (0xDE, ovr), (0xDA, ovr), (0xDA, ovr), None)
}

/// The opcode byte and base of the x87 instructions whose one form names a stack register
/// (FXCH, FADDP, FCMOVB, FCOMI, ...), if `m` is one.
pub open spec fn spec_st_form(m: Mnemonic) -> Option<(u8, u8)> {
    match m {
        Mnemonic::FXCH => Some((0xD9u8, 0xC8u8)),
        Mnemonic::FADDP => Some((0xDEu8, 0xC0u8)),
        Mnemonic::FMULP => Some((0xDEu8, 0xC8u8)),
        Mnemonic::FSUBP => Some((0xDEu8, 0xE8u8)),
        Mnemonic::FSUBRP => Some((0xDEu8, 0xE0u8)),
        Mnemonic::FDIVRP => Some((0xDEu8, 0xF0u8)),
        Mnemonic::FDIVP => Some((0xDEu8, 0xF8u8)),
        Mnemonic::FFREE => Some((0xDDu8, 0xC0u8)),
        Mnemonic::FUCOM => Some((0xDDu8, 0xE0u8)),
        Mnemonic::FUCOMP => Some((0xDDu8, 0xE8u8)),
        Mnemonic::FCMOVB => Some((0xDAu8, 0xC0u8)),
        Mnemonic::FCMOVE => Some((0xDAu8, 0xC8u8)),
        Mnemonic::FCMOVBE => Some((0xDAu8, 0xD0u8)),
        Mnemonic::FCMOVU => Some((0xDAu8, 0xD8u8)),
        Mnemonic::FCMOVNB => Some((0xDBu8, 0xC0u8)),
        Mnemonic::FCMOVNE => Some((0xDBu8, 0xC8u8)),
        Mnemonic::FCMOVNBE => Some((0xDBu8, 0xD0u8)),
        Mnemonic::FCMOVNU => Some((0xDBu8, 0xD8u8)),
        Mnemonic::FCOMI => Some((0xDBu8, 0xF0u8)),
        Mnemonic::FCOMIP => Some((0xDFu8, 0xF0u8)),
        Mnemonic::FUCOMIP => Some((0xDFu8, 0xE8u8)),
        Mnemonic::FUCOMI => Some((0xDFu8, 0xE8u8)),
        _ => None,
    }
}

/// The opcode byte and base of a stack register form, as `spec_st_form` gives them.
fn st_form(m: Mnemonic) -> (r: Option<(u8, u8)>)
    ensures
        r == spec_st_form(m),
{
    match m {
        Mnemonic::FXCH => Some((0xD9u8, 0xC8u8)),
        Mnemonic::FADDP => Some((0xDEu8, 0xC0u8)),
        Mnemonic::FMULP => Some((0xDEu8, 0xC8u8)),
        Mnemonic::FSUBP => Some((0xDEu8, 0xE8u8)),
        Mnemonic::FSUBRP => Some((0xDEu8, 0xE0u8)),
        Mnemonic::FDIVRP => Some((0xDEu8, 0xF0u8)),
        Mnemonic::FDIVP => Some((0xDEu8, 0xF8u8)),
        Mnemonic::FFREE => Some((0xDDu8, 0xC0u8)),
        Mnemonic::FUCOM => Some((0xDDu8, 0xE0u8)),
        Mnemonic::FUCOMP => Some((0xDDu8, 0xE8u8)),
        Mnemonic::FCMOVB => Some((0xDAu8, 0xC0u8)),
        Mnemonic::FCMOVE => Some((0xDAu8, 0xC8u8)),
        Mnemonic::FCMOVBE => Some((0xDAu8, 0xD0u8)),
        Mnemonic::FCMOVU => Some((0xDAu8, 0xD8u8)),
        Mnemonic::FCMOVNB => Some((0xDBu8, 0xC0u8)),
        Mnemonic::FCMOVNE => Some((0xDBu8, 0xC8u8)),
        Mnemonic::FCMOVNBE => Some((0xDBu8, 0xD0u8)),
        Mnemonic::FCMOVNU => Some((0xDBu8, 0xD8u8)),
        Mnemonic::FCOMI => Some((0xDBu8, 0xF0u8)),
        Mnemonic::FCOMIP => Some((0xDFu8, 0xF0u8)),
        Mnemonic::FUCOMIP => Some((0xDFu8, 0xE8u8)),
        Mnemonic::FUCOMI => Some((0xDFu8, 0xE8u8)),
        _ => None,
    }
}

/// The layout of an x87 instruction of mnemonic `m` on operands `ops`, where `m` is an x87
/// mnemonic (the outer `None` where it is none).
/// FDIVR on memory takes ModRM.reg 6, as FDIV does. This is deliberate: the table keeps the
/// encoding this assembler emits for it.
pub open spec fn spec_fpu_layout(m: Mnemonic, ops: Seq<Operand>) -> Option<Option<Layout>> {
    match m {
        Mnemonic::FLD => Some(spec_fld(ops)),
        Mnemonic::FST => Some(spec_fst(ops)),
        Mnemonic::FSTP => Some(spec_fstp(ops)),
        Mnemonic::FILD => Some(spec_fild(ops)),
        Mnemonic::FIST => Some(spec_fist(ops)),
        Mnemonic::FISTP => Some(spec_fistp(ops)),
        Mnemonic::FISTTP => Some(spec_fisttp(ops)),
        Mnemonic::FCOM => Some(spec_fcom(ops)),
        Mnemonic::FCOMP => Some(spec_fcomp(ops)),
        Mnemonic::FADD => Some(spec_farthmt(ops, 0, 0xC0, 0xC0)),
        Mnemonic::FMUL => Some(spec_farthmt(ops, 1, 0xC8, 0xC8)),
        Mnemonic::FSUB => Some(spec_farthmt(ops, 4, 0xE0, 0xE8)),
        Mnemonic::FSUBR => Some(spec_farthmt(ops, 5, 0xE8, 0xE0)),
        Mnemonic::FDIV => Some(spec_farthmt(ops, 6, 0xF0, 0xF8)),
        Mnemonic::FDIVR => Some(spec_farthmt(ops, 6, 0xF8, 0xF0)),
        Mnemonic::FIADD => Some(spec_fiarthmt(ops, 0)),
        Mnemonic::FIMUL => Some(spec_fiarthmt(ops, 1)),
        Mnemonic::FICOM => Some(spec_fiarthmt(ops, 2)),
        Mnemonic::FICOMP => Some(spec_fiarthmt(ops, 3)),
        Mnemonic::FISUB => Some(spec_fiarthmt(ops, 4)),
        Mnemonic::FISUBR => Some(spec_fiarthmt(ops, 5)),
        Mnemonic::FIDIV => Some(spec_fiarthmt(ops, 6)),
        Mnemonic::FIDIVR => Some(spec_fiarthmt(ops, 7)),
        _ => match spec_st_form(m) {
            Some((b0, base)) => Some(spec_fpu_reg(ops, b0, base)),
            None => None,
        },
    }
}

/// Whether `m` is an x87 mnemonic, one `spec_fpu_layout` describes.
pub fn is_fpu(m: Mnemonic) -> (b: bool)
    ensures
        forall|ops: Seq<Operand>| #[trigger] spec_fpu_layout(m, ops) is Some <==> b,
{
    match m {
        Mnemonic::FLD | Mnemonic::FST | Mnemonic::FSTP | Mnemonic::FILD | Mnemonic::FIST | Mnemonic::FISTP
        | Mnemonic::FISTTP | Mnemonic::FCOM | Mnemonic::FCOMP | Mnemonic::FADD | Mnemonic::FMUL
        | Mnemonic::FSUB | Mnemonic::FSUBR | Mnemonic::FDIV | Mnemonic::FDIVR | Mnemonic::FIADD
        | Mnemonic::FIMUL | Mnemonic::FICOM | Mnemonic::FICOMP | Mnemonic::FISUB | Mnemonic::FISUBR
        | Mnemonic::FIDIV | Mnemonic::FIDIVR => true,
        _ => st_form(m).is_some(),
    }
}

/// The layout of an x87 instruction, as `spec_fpu_layout` describes it.
pub fn fpu_layout(ins: &Instr) -> (r: GenAPI)
    requires
        spec_fpu_layout(ins.mnemonic, ins.operands@) matches Some(Some(_)),
    ensures
        layout_of(r) == spec_fpu_layout(ins.mnemonic, ins.operands@).unwrap().unwrap(),
{
    match ins.mnemonic {
        Mnemonic::FLD => ins_fld(ins),
        Mnemonic::FST => ins_fst(ins),
        Mnemonic::FSTP => ins_fstp(ins),
        Mnemonic::FILD => ins_fild(ins),
        Mnemonic::FIST => ins_fist(ins),
        Mnemonic::FISTP => ins_fistp(ins),
        Mnemonic::FISTTP => ins_fisttp(ins),
        Mnemonic::FCOM => ins_fcom(ins),
        Mnemonic::FCOMP => ins_fcomp(ins),
        Mnemonic::FADD => ins_farthmt(ins, 0, 0xC0, 0xC0),
        Mnemonic::FMUL => ins_farthmt(ins, 1, 0xC8, 0xC8),
        Mnemonic::FSUB => ins_farthmt(ins, 4, 0xE0, 0xE8),
        Mnemonic::FSUBR => ins_farthmt(ins, 5, 0xE8, 0xE0),
        Mnemonic::FDIV => ins_farthmt(ins, 6, 0xF0, 0xF8),
        Mnemonic::FDIVR => ins_farthmt(ins, 6, 0xF8, 0xF0),
        Mnemonic::FIADD => ins_fiarthmt(ins, 0),
        Mnemonic::FIMUL => ins_fiarthmt(ins, 1),
        Mnemonic::FICOM => ins_fiarthmt(ins, 2),
        Mnemonic::FICOMP => ins_fiarthmt(ins, 3),
        Mnemonic::FISUB => ins_fiarthmt(ins, 4),
        Mnemonic::FISUBR => ins_fiarthmt(ins, 5),
        Mnemonic::FIDIV => ins_fiarthmt(ins, 6),
        Mnemonic::FIDIVR => ins_fiarthmt(ins, 7),
        _ => {
            let (b0, base) = st_form(ins.mnemonic).unwrap();
            ins_fpu_reg(ins, b0, base)
        },
    }
}

} // verus!
