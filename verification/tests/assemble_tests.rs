use lib::api::OpOrd::{MODRM_REG, MODRM_RM};
use lib::api::{AddtPrefix, AssembleResult, GenAPI, SizeOvrFacts, VexDetails};
use lib::apx::{APXVariant, ApxFacts};
use lib::assemble::{IVariant, AsmReloc, Instr, Number, Payload, RelType, SymRef};
use lib::evex::{gen_evex4v, EvexFacts};
use lib::mnemonic::Mnemonic;
use lib::operand::{Operand, Purpose, Reg};
use lib::rex::{RexClass, RexFacts};
use lib::size::Size;

fn reg(n: u8, size: Size) -> Reg {
    Reg {
        byte: n & 7,
        ext3: n & 8 != 0,
        ext4: n & 16 != 0,
        size,
        is_sp: n == 4,
        is_bp: n == 5,
        purpose: Purpose::General,
    }
}

fn instr(operands: Vec<Operand>, payloads: Vec<Payload>, size: Size, class: RexClass) -> Instr {
    let evex = EvexFacts { z: None, sae: None, bcst: None, mask: None, er: None, size };
    Instr {
        mnemonic: Mnemonic::NOP,
        variant: IVariant::STD,
        operands,
        payloads,
        size,
        addt: None,
        rex: RexFacts { class, uses_cr: false, uses_dr: false, defaults_to_64bit: false, is_ud: false },
        size_ovr: SizeOvrFacts { defaults_to_64bit: false, uses_cr: false, uses_dr: false },
        needs_apx_extension: false,
        apx: ApxFacts {
            needs_evex: false,
            is_std: true,
            size,
            leg_nf: None,
            vex_nf: None,
            cond_of: None,
            cond_sf: None,
            cond_zf: None,
            cond_cf: None,
            evex,
        },
        is_ymm: false,
    }
}

const REL32: RelType = RelType { code: 2, size: 4 };

fn short(r: AssembleResult) -> Vec<u8> {
    match r {
        AssembleResult::NoLargeImm(v) => v,
        AssembleResult::WLargeImm(_) => panic!("unexpected long immediate"),
    }
}

fn long(r: AssembleResult) -> Vec<u8> {
    match r {
        AssembleResult::WLargeImm(v) => v,
        AssembleResult::NoLargeImm(_) => panic!("expected a long immediate"),
    }
}

#[test]
fn assemble_register_to_register() {
    // add rcx, rdx
    let api = GenAPI::new().opcode(&[0x01]).modrm(true, None).rex();
    let ins = instr(
        vec![Operand::Register(reg(1, Size::Qword)), Operand::Register(reg(2, Size::Qword))],
        vec![Payload::Plain, Payload::Plain],
        Size::Qword,
        RexClass::Arith,
    );
    let (r, rels) = api.assemble(&ins, 64, REL32);
    assert_eq!(short(r), vec![0x48, 0x01, 0xD1]);
    assert!(rels.is_empty());
}

#[test]
fn assemble_word_operands_get_the_size_override() {
    // add ax, bx in 32-bit mode
    let api = GenAPI::new().opcode(&[0x01]).modrm(true, None);
    let ins = instr(
        vec![Operand::Register(reg(0, Size::Word)), Operand::Register(reg(3, Size::Word))],
        vec![Payload::Plain, Payload::Plain],
        Size::Word,
        RexClass::Arith,
    );
    let (r, _) = api.assemble(&ins, 32, REL32);
    assert_eq!(short(r), vec![0x66, 0x01, 0xD8]);
}

#[test]
fn assemble_lock_prefix_first() {
    let api = GenAPI::new().opcode(&[0x01]).modrm(true, None);
    let mut ins = instr(
        vec![Operand::Register(reg(0, Size::Dword)), Operand::Register(reg(3, Size::Dword))],
        vec![Payload::Plain, Payload::Plain],
        Size::Dword,
        RexClass::Arith,
    );
    ins.addt = Some(AddtPrefix::Lock);
    let (r, _) = api.assemble(&ins, 32, REL32);
    assert_eq!(short(r), vec![0xF0, 0x01, 0xD8]);
}

#[test]
fn assemble_little_and_big_endian_immediates() {
    let number = Number { le: [0x34, 0x12, 0, 0, 0, 0, 0, 0], real_size: 2 };
    let ins = instr(
        vec![Operand::Imm(Size::Word)],
        vec![Payload::Number(number)],
        Size::Word,
        RexClass::Other,
    );
    let le = GenAPI::new().opcode(&[]).imm_atindex(0, 4).fixed_size(Size::Byte);
    let (r, _) = le.assemble(&ins, 64, REL32);
    assert_eq!(short(r), vec![0x34, 0x12, 0, 0]);
    let be = le.imm_is_be(true);
    let (r, _) = be.assemble(&ins, 64, REL32);
    assert_eq!(short(r), vec![0, 0, 0x12, 0x34]);
    // a field shorter than the number keeps its first bytes
    let cut = GenAPI::new().opcode(&[]).imm_atindex(0, 1).fixed_size(Size::Byte);
    let (r, _) = cut.assemble(&ins, 64, REL32);
    assert_eq!(short(r), vec![0x34]);
}

#[test]
fn assemble_zero_size_number_counts_zeros() {
    let number = Number { le: [3, 0, 0, 0, 0, 0, 0, 0], real_size: 1 };
    let ins = instr(
        vec![Operand::Imm(Size::Byte)],
        vec![Payload::Number(number)],
        Size::Byte,
        RexClass::Other,
    );
    let api = GenAPI::new().opcode(&[]).fixed_size(Size::Byte).imm_atindex(0, 0);
    let (r, _) = api.assemble(&ins, 64, REL32);
    assert_eq!(long(r), vec![0, 0, 0]);
}

#[test]
fn assemble_string_escapes() {
    let text = b"a\\nb\\q\\".to_vec();
    let ins = instr(vec![Operand::String], vec![Payload::Text(text)], Size::Any, RexClass::Other);
    let api = GenAPI::new().opcode(&[]).imm_atindex(0, 0);
    let (r, rels) = api.assemble(&ins, 64, REL32);
    assert_eq!(long(r), vec![b'a', b'\n', b'b', b'\\', b'q']);
    assert!(rels.is_empty());
    // a nonzero size cuts the string first
    let api = GenAPI::new().opcode(&[]).imm_atindex(0, 2);
    let (r, _) = api.assemble(&ins, 64, REL32);
    assert_eq!(long(r), vec![b'a']);
}

#[test]
fn assemble_symbol_immediate_asks_for_a_relocation() {
    let sym = SymRef { name: "f".to_string(), deref: false, reltype: None, addend: None };
    let ins = instr(vec![Operand::Symbol(false)], vec![Payload::Symbol(sym)], Size::Dword, RexClass::Other);
    let api = GenAPI::new().opcode(&[0xE8]).imm_atindex(0, 4);
    let (r, rels) = api.assemble(&ins, 64, REL32);
    assert_eq!(short(r), vec![0xE8, 0, 0, 0, 0]);
    assert_eq!(rels.len(), 1);
    let AsmReloc { symbol, offset, addend, reltype } = &rels[0];
    assert_eq!(symbol, "f");
    assert_eq!(*offset, 1);
    assert_eq!(*addend, -4);
    assert_eq!(*reltype, REL32);
}

#[test]
fn assemble_dereferenced_symbol_in_modrm() {
    // mov eax, [sym + 8]
    let sym = SymRef { name: "v".to_string(), deref: true, reltype: None, addend: Some(8) };
    let ins = instr(
        vec![Operand::Register(reg(0, Size::Dword)), Operand::Symbol(true)],
        vec![Payload::Plain, Payload::Symbol(sym)],
        Size::Dword,
        RexClass::Mov,
    );
    let api = GenAPI::new().opcode(&[0x8B]).modrm(true, None).ord(&[MODRM_REG, MODRM_RM]);
    let (r, rels) = api.assemble(&ins, 64, REL32);
    assert_eq!(short(r), vec![0x8B, 0x05, 0, 0, 0, 0]);
    assert_eq!(rels.len(), 1);
    assert_eq!(rels[0].offset, 2);
    assert_eq!(rels[0].addend, 4);
    // in 16-bit mode the doubleword takes 0x66 and the room is two bytes
    let (r, rels) = api.assemble(&ins, 16, REL32);
    assert_eq!(short(r), vec![0x66, 0x8B, 0x05, 0, 0]);
    assert_eq!(rels[0].offset, 3);
}

#[test]
fn assemble_register_immediate() {
    let ins = instr(
        vec![Operand::Register(reg(9, Size::Xword))],
        vec![Payload::Plain],
        Size::Xword,
        RexClass::Other,
    );
    let api = GenAPI::new().opcode(&[0x0F]).imm_atindex(0, 1).fixed_size(Size::Byte);
    let (r, _) = api.assemble(&ins, 64, REL32);
    assert_eq!(short(r), vec![0x0F, 0x90]);
}

#[test]
fn assemble_rex2_prefix() {
    // add r16, rax: r16 needs bit 4 of the r/m number, carried by REX2
    let ins = instr(
        vec![Operand::Register(reg(16, Size::Qword)), Operand::Register(reg(0, Size::Qword))],
        vec![Payload::Plain, Payload::Plain],
        Size::Qword,
        RexClass::Arith,
    );
    let api = GenAPI::new().opcode(&[0x01]).modrm(true, None).apx(APXVariant::Rex2, VexDetails::new(), false);
    let (r, _) = api.assemble(&ins, 64, REL32);
    assert_eq!(short(r), vec![0xD5, 0x02, 0x01, 0xC0]);
    let api = GenAPI::new()
        .opcode(&[0x01])
        .modrm(true, None)
        .apx(APXVariant::Rex2, VexDetails::new().vex_we(true), false);
    let (r, _) = api.assemble(&ins, 64, REL32);
    assert_eq!(short(r), vec![0xD5, 0x0A, 0x01, 0xC0]);
}

#[test]
fn evex_vvvv_field() {
    assert_eq!(gen_evex4v(&Some(Operand::Register(reg(0, Size::Zword)))), 0b1111);
    assert_eq!(gen_evex4v(&Some(Operand::Register(reg(9, Size::Zword)))), 0b0110);
    assert_eq!(gen_evex4v(&None), 0b1111);
}
