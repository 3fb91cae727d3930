use lib::api::{AssembleResult, GenAPI, OpOrd, VexDetails};
use lib::apx::{APXVariant, ApxFacts};
use lib::assemble::{IVariant, Instr, Number, Payload, RelType, SymRef};
use lib::comp::{get_genapi, rex_facts_of, size_ovr_facts_of};
use lib::evex::EvexFacts;
use lib::mnemonic::{rex_class, Mnemonic};
use lib::operand::{Operand, Purpose, Reg};
use lib::rex::RexClass;
use lib::size::Size;

fn reg(n: u8, size: Size) -> Reg {
    Reg {
        byte: n & 7,
        ext3: n & 8 != 0,
        ext4: n & 16 != 0,
        size,
        is_sp: n == 4,
        is_bp: n == 5,
        purpose: Purpose::General,
    }
}

fn r(n: u8, size: Size) -> Operand {
    Operand::Register(reg(n, size))
}

fn num(v: i64, size: Size) -> (Operand, Payload) {
    (Operand::Imm(size), Payload::Number(Number { le: v.to_le_bytes(), real_size: 8 }))
}

fn ins(m: Mnemonic, ops: Vec<(Operand, Payload)>, size: Size) -> Instr {
    let operands: Vec<Operand> = ops.iter().map(|o| o.0).collect();
    let payloads: Vec<Payload> = ops.into_iter().map(|o| o.1).collect();
    let evex = EvexFacts { z: None, sae: None, bcst: None, mask: None, er: None, size };
    Instr {
        mnemonic: m,
        variant: IVariant::STD,
        rex: rex_facts_of(m, &operands, false),
        size_ovr: size_ovr_facts_of(&operands, false),
        operands,
        payloads,
        size,
        addt: None,
        needs_apx_extension: false,
        apx: ApxFacts {
            needs_evex: false,
            is_std: true,
            size,
            leg_nf: None,
            vex_nf: None,
            cond_of: None,
            cond_sf: None,
            cond_zf: None,
            cond_cf: None,
            evex,
        },
        is_ymm: false,
    }
}

fn plain(o: Operand) -> (Operand, Payload) {
    (o, Payload::Plain)
}

const REL32: RelType = RelType { code: 2, size: 4 };

fn bytes(i: &Instr) -> Vec<u8> {
    let api = get_genapi(i, 64);
    match api.assemble(i, 64, REL32).0 {
        AssembleResult::NoLargeImm(v) => v,
        AssembleResult::WLargeImm(v) => v,
    }
}

#[test]
fn table_fixed_opcodes() {
    assert_eq!(bytes(&ins(Mnemonic::RET, vec![], Size::Unknown)), vec![0xC3]);
    assert_eq!(bytes(&ins(Mnemonic::SYSCALL, vec![], Size::Unknown)), vec![0x0F, 0x05]);
    assert_eq!(get_genapi(&ins(Mnemonic::CPUID, vec![], Size::Unknown), 64).get_opcode(), vec![0x0F, 0xA2]);
}

#[test]
fn table_add_like() {
    // add rcx, rdx
    let i = ins(Mnemonic::ADD, vec![plain(r(1, Size::Qword)), plain(r(2, Size::Qword))], Size::Qword);
    assert_eq!(bytes(&i), vec![0x48, 0x01, 0xD1]);
    // add eax, 1000: the accumulator form
    let i = ins(Mnemonic::ADD, vec![plain(r(0, Size::Dword)), num(1000, Size::Word)], Size::Dword);
    assert_eq!(bytes(&i), vec![0x05, 0xE8, 0x03, 0x00, 0x00]);
    // sub ecx, 5: the r/m, imm8 form... taken as imm32 with ModRM.reg 5
    let i = ins(Mnemonic::SUB, vec![plain(r(1, Size::Dword)), num(5, Size::Byte)], Size::Dword);
    let api = get_genapi(&i, 64);
    assert_eq!(api.get_opcode(), vec![0x83]);
    assert_eq!(api.get_modrm().deserialize(), Some(5));
    // xor al, 1
    let i = ins(Mnemonic::XOR, vec![plain(r(0, Size::Byte)), num(1, Size::Byte)], Size::Byte);
    assert_eq!(bytes(&i), vec![0x34, 0x01]);
}

#[test]
fn table_mov() {
    // mov rax, 0x1122334455667788 needs the eight-byte form
    let i = ins(Mnemonic::MOV, vec![plain(r(0, Size::Qword)), num(0x1122334455667788, Size::Qword)], Size::Qword);
    assert_eq!(bytes(&i), vec![0x48, 0xB8, 0x88, 0x77, 0x66, 0x55, 0x44, 0x33, 0x22, 0x11]);
    // mov ecx, edx
    let i = ins(Mnemonic::MOV, vec![plain(r(1, Size::Dword)), plain(r(2, Size::Dword))], Size::Dword);
    assert_eq!(bytes(&i), vec![0x89, 0xD1]);
    // mov ebx, 7 in the short form
    let i = ins(Mnemonic::MOV, vec![plain(r(3, Size::Dword)), num(7, Size::Byte)], Size::Dword);
    assert_eq!(bytes(&i), vec![0xBB, 7, 0, 0, 0]);
}

#[test]
fn table_other_families() {
    assert_eq!(bytes(&ins(Mnemonic::INC, vec![plain(r(1, Size::Dword))], Size::Dword)), vec![0xFF, 0xC1]);
    assert_eq!(bytes(&ins(Mnemonic::PUSH, vec![plain(r(3, Size::Qword))], Size::Qword)), vec![0x53]);
    assert_eq!(bytes(&ins(Mnemonic::POP, vec![plain(r(3, Size::Qword))], Size::Qword)), vec![0x5B]);
    let i = ins(Mnemonic::CMP, vec![plain(r(0, Size::Byte)), num(5, Size::Byte)], Size::Byte);
    assert_eq!(bytes(&i), vec![0x3C, 0x05]);
    let i = ins(Mnemonic::TEST, vec![plain(r(0, Size::Dword)), plain(r(3, Size::Dword))], Size::Dword);
    assert_eq!(bytes(&i), vec![0x85, 0xD8]);
    let i = ins(Mnemonic::SHL, vec![plain(r(0, Size::Dword)), num(1, Size::Byte)], Size::Dword);
    assert_eq!(bytes(&i), vec![0xD1, 0xE0]);
    let i = ins(Mnemonic::SHL, vec![plain(r(1, Size::Dword)), num(4, Size::Byte)], Size::Dword);
    assert_eq!(bytes(&i), vec![0xC1, 0xE1, 0x04]);
    let i = ins(Mnemonic::CMOVNE, vec![plain(r(0, Size::Dword)), plain(r(3, Size::Dword))], Size::Dword);
    assert_eq!(bytes(&i), vec![0x0F, 0x45, 0xC3]);
    let sym = SymRef { name: "l".to_string(), deref: false, reltype: Some(RelType { code: 1, size: 1 }), addend: None };
    let i = ins(Mnemonic::JE, vec![(Operand::Symbol(false), Payload::Symbol(sym))], Size::Unknown);
    assert_eq!(get_genapi(&i, 64).get_opcode(), vec![0x74]);
}

#[test]
fn mnemonic_rex_classes() {
    assert!(matches!(rex_class(Mnemonic::MOV), RexClass::Mov));
    assert!(matches!(rex_class(Mnemonic::ADD), RexClass::Arith));
    assert!(matches!(rex_class(Mnemonic::CMOVA), RexClass::QwordAlways));
    assert!(matches!(rex_class(Mnemonic::LEA), RexClass::ShiftLea));
    assert!(matches!(rex_class(Mnemonic::CMPXCHG16B), RexClass::Cmpxchg16b));
    assert!(matches!(rex_class(Mnemonic::RET), RexClass::Other));
    let _ = GenAPI::new();
}

fn same(a: &GenAPI, b: &GenAPI) {
    assert_eq!(format!("{:?}", a), format!("{:?}", b));
}

#[test]
fn table_layout_programs() {
    let xmm = |n: u8| {
        let mut g = reg(n, Size::Xword);
        g.purpose = Purpose::Other;
        Operand::Register(g)
    };
    let i = ins(Mnemonic::ADDPS, vec![plain(xmm(1)), plain(xmm(2))], Size::Xword);
    let got = get_genapi(&i, 64);
    let want = GenAPI::new()
        .modrm(true, None)
        .opcode(&[0x0F, 0x58])
        .rex()
        .ord(&[OpOrd::MODRM_REG, OpOrd::MODRM_RM]);
    same(&got, &want);
    assert_eq!(bytes(&i), vec![0x0F, 0x58, 0xCA]);
    let i = ins(Mnemonic::HADDPS, vec![plain(xmm(1)), plain(xmm(2))], Size::Xword);
    let want = GenAPI::new()
        .opcode(&[0x0F, 0x7C])
        .opcode_prefix(0xF2)
        .modrm(true, None)
        .ord(&[OpOrd::MODRM_REG, OpOrd::MODRM_RM])
        .rex();
    same(&get_genapi(&i, 64), &want);
    let i = ins(Mnemonic::VADDPS, vec![plain(xmm(1)), plain(xmm(2)), plain(xmm(3))], Size::Xword);
    let want = GenAPI::new()
        .opcode(&[0x58])
        .vex(VexDetails::new().map_select(0x0F).vex_we(false))
        .modrm(true, None)
        .ord(&[OpOrd::MODRM_REG, OpOrd::VEX_VVVV, OpOrd::MODRM_RM]);
    same(&get_genapi(&i, 64), &want);
}

#[test]
fn table_size_dependent_prefixes() {
    // andn rax, rbx, rcx takes VEX.W from the instruction's size
    let i = ins(Mnemonic::ANDN, vec![plain(r(0, Size::Qword)), plain(r(3, Size::Qword)), plain(r(1, Size::Qword))], Size::Qword);
    let want = GenAPI::new()
        .opcode(&[0xF2])
        .modrm(true, None)
        .vex(VexDetails::new().map_select(0x38).pp(0x00).vex_we(true))
        .ord(&[OpOrd::MODRM_REG, OpOrd::VEX_VVVV, OpOrd::MODRM_RM]);
    same(&get_genapi(&i, 64), &want);
    let i = ins(Mnemonic::ANDN, vec![plain(r(0, Size::Dword)), plain(r(3, Size::Dword)), plain(r(1, Size::Dword))], Size::Dword);
    let want = GenAPI::new()
        .opcode(&[0xF2])
        .modrm(true, None)
        .vex(VexDetails::new().map_select(0x38).pp(0x00).vex_we(false))
        .ord(&[OpOrd::MODRM_REG, OpOrd::VEX_VVVV, OpOrd::MODRM_RM]);
    same(&get_genapi(&i, 64), &want);
}

#[test]
fn table_conditional_compare() {
    // ccmpz rax, rbx: r/m, r form with the Z condition
    let i = ins(Mnemonic::CCMPZ, vec![plain(r(0, Size::Qword)), plain(r(3, Size::Qword))], Size::Qword);
    let want = GenAPI::new()
        .opcode(&[0x3B])
        .modrm(true, None)
        .ord(&[OpOrd::MODRM_REG, OpOrd::MODRM_RM])
        .apx(APXVariant::CondTestCmpExtension, VexDetails::new(), false)
        .apx_cccc(0b0100);
    same(&get_genapi(&i, 64), &want);
}
