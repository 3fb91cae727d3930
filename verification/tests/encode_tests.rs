use lib::api::{GenAPI, VexDetails};
use lib::api::OpOrd::{MODRM_REG, MODRM_RM, VEX_VVVV};
use lib::disp::{gen_disp, gen_disp_ins};
use lib::evex::{evex, EvexFacts};
use lib::modrm::{bmodrm, gen_rmreg, modrm};
use lib::operand::{Mem, Operand, Purpose, Reg};
use lib::rex::{btoi, calc_rex, gen_rex, get_wb, needs_rex, rex, RexClass, RexFacts};
use lib::sib::{gen_sib, gen_sib_ins, sib};
use lib::size::Size;
use lib::vex::{gen_vex4v, needs_vex3, vex};

fn reg(n: u8, size: Size) -> Reg {
    Reg {
        byte: n & 7,
        ext3: n & 8 != 0,
        ext4: n & 16 != 0,
        size,
        is_sp: n == 4,
        is_bp: n == 5,
        purpose: Purpose::General,
    }
}

fn mem(base: Option<Reg>, index: Option<Reg>, offset: Option<([u8; 4], u8)>) -> Mem {
    Mem {
        offset,
        riprel: false,
        sib: index.is_some(),
        base,
        index,
        scale: 0,
        size: Size::Qword,
        addrsize: Size::Qword,
        segment: None,
        bcst: false,
    }
}

#[test]
fn modrm_register_direct() {
    // add rcx, rdx: r/m = rcx (1), reg = rdx (2)
    let g = GenAPI::new().modrm(true, None);
    let dst = Some(Operand::Register(reg(1, Size::Qword)));
    let src = Some(Operand::Register(reg(2, Size::Qword)));
    assert_eq!(modrm(&dst, &src, &g), 0b11_010_001);
    assert_eq!(bmodrm(3, 2, 1), 0xD1);
}

#[test]
fn modrm_memory_and_override() {
    // [rbx + 8] with a one-byte displacement and ModRM.reg forced to 7
    let g = GenAPI::new().modrm(true, Some(7));
    let dst = Some(Operand::Mem(mem(Some(reg(3, Size::Qword)), None, Some(([8, 0, 0, 0], 1)))));
    assert_eq!(modrm(&dst, &None, &g), 0b01_111_011);
    // four-byte displacement
    let dst = Some(Operand::Mem(mem(Some(reg(3, Size::Qword)), None, Some(([0, 1, 0, 0], 4)))));
    assert_eq!(modrm(&dst, &None, &g), 0b10_111_011);
    // forced mod
    let g2 = g.modrm_mod(0);
    assert_eq!(modrm(&dst, &None, &g2), 0b00_111_011);
    // SIB memory gives rm = 4, a dereferenced symbol gives mod 0, rm 5
    let dst = Some(Operand::Mem(mem(Some(reg(0, Size::Qword)), Some(reg(1, Size::Qword)), None)));
    assert_eq!(modrm(&dst, &None, &g), 0b00_111_100);
    assert_eq!(modrm(&Some(Operand::Symbol(true)), &None, &g), 0b00_111_101);
    assert_eq!(gen_rmreg(&Some(Operand::Register(reg(13, Size::Qword)))), 5);
    assert_eq!(gen_rmreg(&Some(Operand::Imm(Size::Byte))), 0);
}

#[test]
fn sib_bytes() {
    assert_eq!(sib(2, 1, 0), 0b10_001_000);
    let mut m = mem(Some(reg(0, Size::Qword)), Some(reg(1, Size::Qword)), None);
    m.scale = 3;
    assert_eq!(gen_sib(&m), Some(0b11_001_000));
    let m = mem(None, Some(reg(6, Size::Qword)), None);
    assert_eq!(gen_sib(&m), Some(0b00_110_101));
    let m = mem(Some(reg(4, Size::Qword)), None, None);
    assert_eq!(gen_sib(&m), Some(0x24));
    let m = mem(Some(reg(3, Size::Qword)), None, None);
    assert_eq!(gen_sib(&m), None);
    assert_eq!(gen_sib_ins(&Some(Operand::Register(reg(4, Size::Qword)))), None);
}

#[test]
fn displacement_bytes() {
    let m = mem(Some(reg(3, Size::Qword)), None, Some(([0x10, 0x20, 0x30, 0x40], 4)));
    assert_eq!(gen_disp(&m, 64), Some(vec![0x10, 0x20, 0x30, 0x40]));
    assert_eq!(gen_disp(&m, 16), Some(vec![0x10, 0x20]));
    let m = mem(Some(reg(3, Size::Qword)), None, Some(([0x7F, 0, 0, 0], 1)));
    assert_eq!(gen_disp(&m, 64), Some(vec![0x7F]));
    let m = mem(Some(reg(5, Size::Qword)), Some(reg(1, Size::Qword)), None);
    assert_eq!(gen_disp(&m, 64), Some(vec![0, 0, 0, 0]));
    assert_eq!(gen_disp(&m, 16), Some(vec![0, 0]));
    let m = mem(Some(reg(3, Size::Qword)), None, None);
    assert_eq!(gen_disp(&m, 64), None);
    assert_eq!(gen_disp_ins(&None, 64), None);
}

fn facts(class: RexClass) -> RexFacts {
    RexFacts { class, uses_cr: false, uses_dr: false, defaults_to_64bit: false, is_ud: false }
}

#[test]
fn rex_bytes() {
    assert_eq!(btoi(true), 1);
    assert_eq!(rex(true, false, false, false), 0x48);
    assert_eq!(rex(true, true, true, true), 0x4F);
    assert_eq!(rex(false, false, false, false), 0x40);
    // add r8, rax: W and B
    let ops = [Operand::Register(reg(8, Size::Qword)), Operand::Register(reg(0, Size::Qword))];
    assert!(needs_rex(RexClass::Arith, &ops));
    assert_eq!(gen_rex(&ops, false, &facts(RexClass::Arith)), Some(0x49));
    // reg operand is the destination: R instead of B
    assert_eq!(gen_rex(&ops, true, &facts(RexClass::Arith)), Some(0x4C));
    // add eax, ecx needs none
    let ops = [Operand::Register(reg(0, Size::Dword)), Operand::Register(reg(1, Size::Dword))];
    assert_eq!(gen_rex(&ops, false, &facts(RexClass::Arith)), None);
    // push rax (defaults to 64-bit) needs none; cmpxchg16b always
    let ops = [Operand::Register(reg(0, Size::Qword))];
    assert!(!needs_rex(RexClass::Other, &ops));
    assert!(needs_rex(RexClass::Cmpxchg16b, &[]));
    assert!(get_wb(&Some(Operand::Register(reg(9, Size::Qword)))));
    let f = RexFacts { defaults_to_64bit: true, ..facts(RexClass::Other) };
    assert_eq!(calc_rex(&Some(Operand::Register(reg(9, Size::Qword))), &None, false, &f), 0x41);
}

#[test]
fn vex_prefixes() {
    // vaddps xmm1, xmm2, xmm3: two-byte form C5 E8 58 -> C5, !R vvvv=~2 L=0 pp=0
    let g = GenAPI::new()
        .vex(VexDetails::new().map_select(0x0F))
        .ord(&[MODRM_REG, VEX_VVVV, MODRM_RM]);
    let x1 = Some(Operand::Register(reg(1, Size::Xword)));
    let x2 = Some(Operand::Register(reg(2, Size::Xword)));
    let x3 = Some(Operand::Register(reg(3, Size::Xword)));
    assert_eq!(vex(&g, x1, x2, x3, None, false), Some(vec![0xC5, 0xE8]));
    // ymm form sets L
    assert_eq!(vex(&g, x1, x2, x3, None, true), Some(vec![0xC5, 0xEC]));
    // extended r/m register forces three bytes
    let x11 = Some(Operand::Register(reg(11, Size::Xword)));
    assert_eq!(vex(&g, x1, x2, x11, None, false), Some(vec![0xC4, 0xC1, 0x68]));
    assert_eq!(gen_vex4v(&x2), 0b1101);
    assert_eq!(gen_vex4v(&None), 0b1111);
    assert_eq!(needs_vex3(&x11), (true, false));
}

#[test]
fn evex_prefix() {
    // vaddps zmm1, zmm2, zmm3 : 62 F1 6C 48
    let g = GenAPI::new()
        .evex(VexDetails::new().map_select(1))
        .ord(&[MODRM_REG, VEX_VVVV, MODRM_RM]);
    let z1 = Some(Operand::Register(reg(1, Size::Zword)));
    let z2 = Some(Operand::Register(reg(2, Size::Zword)));
    let z3 = Some(Operand::Register(reg(3, Size::Zword)));
    let f = EvexFacts { z: None, sae: None, bcst: None, mask: None, er: None, size: Size::Zword };
    assert_eq!(evex(&g, z1, z2, z3, &f), [0x62, 0xF1, 0x6C, 0x48]);
    let _ = MODRM_RM;
}
