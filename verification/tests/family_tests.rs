use lib::api::{AssembleResult, GenAPI, OpOrd, VexDetails};
use lib::apx::{APXVariant, ApxFacts};
use lib::assemble::{IVariant, Instr, Number, Payload, RelType};
use lib::comp::{get_genapi, rex_facts_of, size_ovr_facts_of};
use lib::legacy::{ins_in, ins_ljmp, ins_out, ins_shrtjmp};
use lib::forms::{ins_aadox, ins_aimul, ins_ashllike, ins_imul, ins_kmov, ins_shlx, ins_xchg};
use lib::x87::{ins_farthmt, ins_fild, ins_fld, ins_fpu_reg};
use lib::evex::EvexFacts;
use lib::mnemonic::Mnemonic;
use lib::operand::{Mem, Operand, Purpose, Reg};
use lib::size::Size;

fn reg(n: u8, size: Size) -> Reg {
    Reg {
        byte: n & 7,
        ext3: n & 8 != 0,
        ext4: n & 16 != 0,
        size,
        is_sp: n == 4,
        is_bp: n == 5,
        purpose: Purpose::General,
    }
}

fn r(n: u8, size: Size) -> Operand {
    Operand::Register(reg(n, size))
}

fn num(v: i64, size: Size) -> (Operand, Payload) {
    (Operand::Imm(size), Payload::Number(Number { le: v.to_le_bytes(), real_size: 8 }))
}

fn ins(m: Mnemonic, ops: Vec<(Operand, Payload)>, size: Size) -> Instr {
    let operands: Vec<Operand> = ops.iter().map(|o| o.0).collect();
    let payloads: Vec<Payload> = ops.into_iter().map(|o| o.1).collect();
    let evex = EvexFacts { z: None, sae: None, bcst: None, mask: None, er: None, size };
    Instr {
        mnemonic: m,
        variant: IVariant::STD,
        rex: rex_facts_of(m, &operands, false),
        size_ovr: size_ovr_facts_of(&operands, false),
        operands,
        payloads,
        size,
        addt: None,
        needs_apx_extension: false,
        apx: ApxFacts {
            needs_evex: false,
            is_std: true,
            size,
            leg_nf: None,
            vex_nf: None,
            cond_of: None,
            cond_sf: None,
            cond_zf: None,
            cond_cf: None,
            evex,
        },
        is_ymm: false,
    }
}

fn plain(o: Operand) -> (Operand, Payload) {
    (o, Payload::Plain)
}

fn same(a: &GenAPI, b: &GenAPI) {
    assert_eq!(format!("{:?}", a), format!("{:?}", b));
}

const REL32: RelType = RelType { code: 2, size: 4 };

fn bytes(i: &Instr) -> Vec<u8> {
    let api = get_genapi(i, 64);
    match api.assemble(i, 64, REL32).0 {
        AssembleResult::NoLargeImm(v) => v,
        AssembleResult::WLargeImm(v) => v,
    }
}


fn st(n: u8) -> Operand {
    let mut g = reg(n, Size::Xword);
    g.purpose = Purpose::Fpu;
    Operand::Register(g)
}

fn mm(n: u8) -> Operand {
    let mut g = reg(n, Size::Qword);
    g.purpose = Purpose::Mmx;
    Operand::Register(g)
}

fn xmm(n: u8) -> Operand {
    let mut g = reg(n, Size::Xword);
    g.purpose = Purpose::Other;
    Operand::Register(g)
}

fn kreg(n: u8) -> Operand {
    let mut g = reg(n, Size::Qword);
    g.purpose = Purpose::Mask;
    Operand::Register(g)
}

fn mem(size: Size) -> Operand {
    Operand::Mem(Mem {
        offset: None,
        riprel: false,
        sib: false,
        base: Some(reg(0, Size::Qword)),
        index: None,
        scale: 0,
        size,
        addrsize: Size::Qword,
        segment: None,
        bcst: false,
    })
}

fn with_variant(mut i: Instr, v: IVariant) -> Instr {
    i.variant = v;
    i
}

#[test]
fn x87_memory_forms_by_size() {
    let i = ins(Mnemonic::FLD, vec![plain(mem(Size::Dword))], Size::Dword);
    same(&ins_fld(&i), &GenAPI::new().opcode(&[0xD9]).modrm(true, Some(0)));
    same(&get_genapi(&i, 64), &GenAPI::new().opcode(&[0xD9]).modrm(true, Some(0)));
    let i = ins(Mnemonic::FLD, vec![plain(mem(Size::Qword))], Size::Qword);
    same(&get_genapi(&i, 64), &GenAPI::new().opcode(&[0xDD]).modrm(true, Some(0)));
    let i = ins(Mnemonic::FLD, vec![plain(mem(Size::Xword))], Size::Xword);
    same(&get_genapi(&i, 64), &GenAPI::new().opcode(&[0xDB]).modrm(true, Some(5)));
    let i = ins(Mnemonic::FILD, vec![plain(mem(Size::Qword))], Size::Qword);
    same(&ins_fild(&i), &GenAPI::new().opcode(&[0xDF]).modrm(true, Some(5)));
    let i = ins(Mnemonic::FISTTP, vec![plain(mem(Size::Word))], Size::Word);
    same(&get_genapi(&i, 64), &GenAPI::new().opcode(&[0xDF]).modrm(true, Some(1)));
    let i = ins(Mnemonic::FIADD, vec![plain(mem(Size::Dword))], Size::Dword);
    same(&get_genapi(&i, 64), &GenAPI::new().opcode(&[0xDE]).modrm(true, Some(0)));
    let i = ins(Mnemonic::FSTP, vec![plain(mem(Size::Xword))], Size::Xword);
    same(&get_genapi(&i, 64), &GenAPI::new().opcode(&[0xDB]).modrm(true, Some(7)));
    // fadd qword [rax]
    let i = ins(Mnemonic::FADD, vec![plain(mem(Size::Qword))], Size::Qword);
    same(&ins_farthmt(&i, 0, 0xC0, 0xC0), &GenAPI::new().opcode(&[0xDC]).modrm(true, Some(0)));
}

#[test]
fn x87_stack_register_forms() {
    // fld st3
    let i = ins(Mnemonic::FLD, vec![plain(st(3))], Size::Xword);
    assert_eq!(get_genapi(&i, 64).get_opcode(), vec![0xD9, 0xC3]);
    // fadd st0, st2 and fadd st2, st0
    let i = ins(Mnemonic::FADD, vec![plain(st(0)), plain(st(2))], Size::Xword);
    assert_eq!(get_genapi(&i, 64).get_opcode(), vec![0xD8, 0xC2]);
    let i = ins(Mnemonic::FADD, vec![plain(st(2)), plain(st(0))], Size::Xword);
    assert_eq!(get_genapi(&i, 64).get_opcode(), vec![0xDC, 0xC0]);
    // fsub st0, st1 and fsub st1, st0 take different bases
    let i = ins(Mnemonic::FSUB, vec![plain(st(0)), plain(st(1))], Size::Xword);
    assert_eq!(ins_farthmt(&i, 4, 0xE0, 0xE8).get_opcode(), vec![0xD8, 0xE1]);
    let i = ins(Mnemonic::FSUB, vec![plain(st(1)), plain(st(0))], Size::Xword);
    assert_eq!(get_genapi(&i, 64).get_opcode(), vec![0xDC, 0xE8]);
    // fxch st1, fcmovnu st3, fucomi st2, fstp st4
    let i = ins(Mnemonic::FXCH, vec![plain(st(1))], Size::Xword);
    assert_eq!(get_genapi(&i, 64).get_opcode(), vec![0xD9, 0xC9]);
    assert_eq!(ins_fpu_reg(&i, 0xD9, 0xC8).get_opcode(), vec![0xD9, 0xC9]);
    let i = ins(Mnemonic::FCMOVNU, vec![plain(st(3))], Size::Xword);
    assert_eq!(get_genapi(&i, 64).get_opcode(), vec![0xDB, 0xDB]);
    let i = ins(Mnemonic::FUCOMI, vec![plain(st(2))], Size::Xword);
    assert_eq!(get_genapi(&i, 64).get_opcode(), vec![0xDF, 0xEA]);
    let i = ins(Mnemonic::FSTP, vec![plain(st(4))], Size::Xword);
    assert_eq!(get_genapi(&i, 64).get_opcode(), vec![0xDD, 0xDC]);
}

#[test]
fn mmx_and_sse_variants() {
    // paddb mm0, mm1: no 0x66 prefix
    let i = with_variant(ins(Mnemonic::PADDB, vec![plain(mm(0)), plain(mm(1))], Size::Qword), IVariant::MMX);
    let want = GenAPI::new().opcode(&[0x0F, 0xFC]).modrm(true, None).ord(&[OpOrd::MODRM_REG, OpOrd::MODRM_RM]);
    same(&get_genapi(&i, 64), &want);
    assert_eq!(bytes(&i), vec![0x0F, 0xFC, 0xC1]);
    // paddb xmm0, xmm1: the SSE form takes 0x66
    let i = with_variant(ins(Mnemonic::PADDB, vec![plain(xmm(0)), plain(xmm(1))], Size::Xword), IVariant::SSE);
    same(&get_genapi(&i, 64), &want.opcode_prefix(0x66).rex());
    assert_eq!(bytes(&i), vec![0x66, 0x0F, 0xFC, 0xC1]);
    // psllq mm0, 3 and psllq xmm0, xmm1
    let i = with_variant(ins(Mnemonic::PSLLQ, vec![plain(mm(0)), num(3, Size::Byte)], Size::Qword), IVariant::MMX);
    let want = GenAPI::new().opcode(&[0x0F, 0x73]).imm_atindex(1, 1).modrm(true, Some(6));
    same(&get_genapi(&i, 64), &want);
    let i = with_variant(ins(Mnemonic::PSLLQ, vec![plain(xmm(0)), plain(xmm(1))], Size::Xword), IVariant::SSE);
    let want = GenAPI::new()
        .opcode(&[0x0F, 0xF3])
        .ord(&[OpOrd::MODRM_REG, OpOrd::MODRM_RM])
        .modrm(true, None)
        .opcode_prefix(0x66)
        .rex();
    same(&get_genapi(&i, 64), &want);
    // movd xmm0, eax loads; movd eax, xmm0 stores
    let i = with_variant(ins(Mnemonic::MOVD, vec![plain(xmm(0)), plain(r(0, Size::Dword))], Size::Dword), IVariant::SSE);
    assert_eq!(get_genapi(&i, 64).get_opcode(), vec![0x0F, 0x6E]);
    let i = with_variant(ins(Mnemonic::MOVD, vec![plain(r(0, Size::Dword)), plain(xmm(0))], Size::Dword), IVariant::SSE);
    assert_eq!(get_genapi(&i, 64).get_opcode(), vec![0x0F, 0x7E]);
}

#[test]
fn sse_moves_by_direction() {
    let i = ins(Mnemonic::MOVAPS, vec![plain(xmm(1)), plain(mem(Size::Xword))], Size::Xword);
    let want = GenAPI::new().modrm(true, None).rex().opcode(&[0x0F, 0x28]).ord(&[OpOrd::MODRM_REG, OpOrd::MODRM_RM]);
    same(&get_genapi(&i, 64), &want);
    let i = ins(Mnemonic::MOVAPS, vec![plain(mem(Size::Xword)), plain(xmm(1))], Size::Xword);
    let want = GenAPI::new().modrm(true, None).rex().opcode(&[0x0F, 0x29]).ord(&[OpOrd::MODRM_RM, OpOrd::MODRM_REG]);
    same(&get_genapi(&i, 64), &want);
    let i = ins(Mnemonic::MOVSS, vec![plain(xmm(1)), plain(xmm(2))], Size::Xword);
    let want = GenAPI::new()
        .modrm(true, None)
        .rex()
        .opcode_prefix(0xF3)
        .opcode(&[0x0F, 0x10])
        .ord(&[OpOrd::MODRM_REG, OpOrd::MODRM_RM]);
    same(&get_genapi(&i, 64), &want);
    // vmovss xmm1, xmm2, xmm3 merges through VEX.vvvv
    let i = ins(Mnemonic::VMOVSS, vec![plain(xmm(1)), plain(xmm(2)), plain(xmm(3))], Size::Xword);
    let want = GenAPI::new()
        .modrm(true, None)
        .vex(VexDetails::new().pp(0xF3).map_select(0x0F).vex_we(false))
        .opcode(&[0x10])
        .ord(&[OpOrd::MODRM_REG, OpOrd::VEX_VVVV, OpOrd::MODRM_RM]);
    same(&get_genapi(&i, 64), &want);
}

#[test]
fn setcc_forms() {
    let i = ins(Mnemonic::SETE, vec![plain(r(0, Size::Byte))], Size::Byte);
    assert_eq!(bytes(&i), vec![0x0F, 0x94, 0xC0]);
    let i = ins(Mnemonic::SETNLE, vec![plain(r(1, Size::Byte))], Size::Byte);
    assert_eq!(bytes(&i), vec![0x0F, 0x9F, 0xC1]);
    let i = ins(Mnemonic::SETBZU, vec![plain(r(0, Size::Byte))], Size::Byte);
    let want = GenAPI::new().opcode(&[0x42]).modrm(true, None).apx(
        APXVariant::LegacyExtension,
        VexDetails::new().map_select(4).pp(0xF2),
        false,
    );
    same(&get_genapi(&i, 64), &want);
}

#[test]
fn multiply_exchange_and_extend() {
    // imul ecx, edx, 5 takes the byte immediate form
    let i = ins(Mnemonic::IMUL, vec![plain(r(1, Size::Dword)), plain(r(2, Size::Dword)), num(5, Size::Byte)], Size::Dword);
    let want = GenAPI::new()
        .opcode(&[0x6B])
        .modrm(true, None)
        .ord(&[OpOrd::MODRM_REG, OpOrd::MODRM_RM])
        .rex()
        .imm_atindex(2, 1);
    same(&get_genapi(&i, 64), &want);
    // imul ecx: 0xF7 /5
    let i = ins(Mnemonic::IMUL, vec![plain(r(1, Size::Dword))], Size::Dword);
    same(&get_genapi(&i, 64), &GenAPI::new().opcode(&[0xF7]).modrm(true, Some(5)).rex());
    // xchg eax, ecx: the one-byte accumulator form
    let i = ins(Mnemonic::XCHG, vec![plain(r(0, Size::Dword)), plain(r(1, Size::Dword))], Size::Dword);
    assert_eq!(bytes(&i), vec![0x91]);
    // movzx eax, cl and movzx eax, cx
    let i = ins(Mnemonic::MOVZX, vec![plain(r(0, Size::Dword)), plain(r(1, Size::Byte))], Size::Dword);
    assert_eq!(bytes(&i), vec![0x0F, 0xB6, 0xC1]);
    let i = ins(Mnemonic::MOVZX, vec![plain(r(0, Size::Dword)), plain(r(1, Size::Word))], Size::Dword);
    assert_eq!(get_genapi(&i, 64).get_opcode(), vec![0x0F, 0xB7]);
    // movsx eax, cl
    let i = ins(Mnemonic::MOVSX, vec![plain(r(0, Size::Dword)), plain(r(1, Size::Byte))], Size::Dword);
    assert_eq!(get_genapi(&i, 64).get_opcode(), vec![0x0F, 0xBE]);
    // ainc on a byte operand
    let i = ins(Mnemonic::AINC, vec![plain(r(1, Size::Byte))], Size::Byte);
    assert_eq!(get_genapi(&i, 64).get_opcode(), vec![0xFE]);
}

#[test]
fn ports_loops_and_far_jumps() {
    // in al, dx and in eax, 0x60
    let i = ins(Mnemonic::IN, vec![plain(r(0, Size::Byte)), plain(r(2, Size::Word))], Size::Byte);
    same(&ins_in(&i, 64), &GenAPI::new().opcode(&[0xEC]).fixed_size(Size::Byte));
    let i = ins(Mnemonic::IN, vec![plain(r(0, Size::Dword)), num(0x60, Size::Byte)], Size::Dword);
    same(&get_genapi(&i, 64), &GenAPI::new().opcode(&[0xE5]).imm_atindex(1, 1));
    // out dx, al
    let i = ins(Mnemonic::OUT, vec![plain(r(2, Size::Word)), plain(r(0, Size::Byte))], Size::Byte);
    same(&ins_out(&i, 64), &GenAPI::new().opcode(&[0xEE]).fixed_size(Size::Byte).can_h66(false));
    // loop
    let i = ins(Mnemonic::LOOP, vec![num(-2, Size::Byte)], Size::Byte);
    same(&ins_shrtjmp(&i, 0xE2), &GenAPI::new().opcode(&[0xE2]).imm_atindex(0, 1));
    same(&get_genapi(&i, 64), &GenAPI::new().opcode(&[0xE2]).imm_atindex(0, 1));
    // ljmp 0x10:0x1000
    let i = ins(Mnemonic::LJMP, vec![num(0x10, Size::Byte), num(0x1000, Size::Word)], Size::Word);
    let want = GenAPI::new().opcode(&[0xEA, 0x00, 0x10]).imm_atindex(1, 2).fixed_size(Size::Word);
    same(&ins_ljmp(&i), &want);
    // enter 16, 0
    let i = ins(Mnemonic::ENTER, vec![num(16, Size::Byte), num(0, Size::Byte)], Size::Word);
    assert_eq!(get_genapi(&i, 64).get_opcode(), vec![0xC8, 0x10, 0x00]);
    // int 0x80 keeps the opcode byte the table gives
    let i = ins(Mnemonic::INT, vec![num(0x80, Size::Byte)], Size::Byte);
    assert_eq!(get_genapi(&i, 64).get_opcode(), vec![0xCC, 0x80]);
}

#[test]
fn mask_moves_and_aliases() {
    // kmovw k1, k2
    let i = ins(Mnemonic::KMOVW, vec![plain(kreg(1)), plain(kreg(2))], Size::Word);
    let want = GenAPI::new()
        .modrm(true, None)
        .ord(&[OpOrd::MODRM_REG, OpOrd::MODRM_RM])
        .opcode(&[0x90])
        .vex(VexDetails::new().map_select(0x0F).vex_we(false).vlength(Some(false)));
    same(&get_genapi(&i, 64), &want);
    // kmovd k1, eax takes pp 0xF2 and W0
    let i = ins(Mnemonic::KMOVD, vec![plain(kreg(1)), plain(r(0, Size::Dword))], Size::Dword);
    let want = GenAPI::new()
        .modrm(true, None)
        .ord(&[OpOrd::MODRM_REG, OpOrd::MODRM_RM])
        .opcode(&[0x92])
        .vex(VexDetails::new().map_select(0x0F).pp(0xF2).vex_we(false).vlength(Some(false)));
    same(&get_genapi(&i, 64), &want);
    // ccmpnbe is ccmpa
    let a = ins(Mnemonic::CCMPNBE, vec![plain(r(1, Size::Dword)), plain(r(2, Size::Dword))], Size::Dword);
    let b = ins(Mnemonic::CCMPA, vec![plain(r(1, Size::Dword)), plain(r(2, Size::Dword))], Size::Dword);
    same(&get_genapi(&a, 64), &get_genapi(&b, 64));
}

fn legacy_apx(g: GenAPI) -> GenAPI {
    g.apx(APXVariant::LegacyExtension, VexDetails::new().map_select(4), false)
}

#[test]
fn general_purpose_and_apx_families() {
    // xchg eax, ecx and xchg ecx, eax take the short form; xchg ecx, edx the ModRM one
    let i = ins(Mnemonic::XCHG, vec![plain(r(0, Size::Dword)), plain(r(1, Size::Dword))], Size::Dword);
    assert_eq!(ins_xchg(&i).get_opcode(), vec![0x91]);
    let i = ins(Mnemonic::XCHG, vec![plain(r(1, Size::Dword)), plain(r(0, Size::Dword))], Size::Dword);
    assert_eq!(ins_xchg(&i).get_opcode(), vec![0x91]);
    let i = ins(Mnemonic::XCHG, vec![plain(r(1, Size::Dword)), plain(r(2, Size::Dword))], Size::Dword);
    let want = GenAPI::new()
        .rex()
        .opcode(&[0x87])
        .modrm(true, None)
        .ord(&[OpOrd::MODRM_REG, OpOrd::MODRM_RM, OpOrd::VEX_VVVV]);
    same(&ins_xchg(&i), &want);
    // imul ecx, edx: 0x0F 0xAF
    let i = ins(Mnemonic::IMUL, vec![plain(r(1, Size::Dword)), plain(r(2, Size::Dword))], Size::Dword);
    same(&ins_imul(&i, 64), &GenAPI::new().opcode(&[0x0F, 0xAF]).modrm(true, None).rex());
    // ashl eax, 1 and ashl ecx, eax, cl
    let i = ins(Mnemonic::ASHL, vec![plain(r(0, Size::Dword)), num(1, Size::Byte)], Size::Dword);
    same(&ins_ashllike(&i, 4), &legacy_apx(GenAPI::new().modrm(true, Some(4)).opcode(&[0xD1])));
    let i = ins(Mnemonic::ASHL, vec![plain(r(1, Size::Dword)), plain(r(0, Size::Dword)), plain(r(1, Size::Byte))], Size::Dword);
    let want = GenAPI::new().modrm(true, Some(4)).ord(&[OpOrd::VEX_VVVV, OpOrd::MODRM_RM]).opcode(&[0xD3]);
    same(&get_genapi(&i, 64), &legacy_apx(want));
    // asar al, 3
    let i = ins(Mnemonic::ASAR, vec![plain(r(0, Size::Byte)), num(3, Size::Byte)], Size::Byte);
    same(&ins_ashllike(&i, 7), &legacy_apx(GenAPI::new().modrm(true, Some(7)).imm_atindex(1, 1).opcode(&[0xC0])));
    // aimul ecx, edx
    let i = ins(Mnemonic::AIMUL, vec![plain(r(1, Size::Dword)), plain(r(2, Size::Dword))], Size::Dword);
    let want = GenAPI::new().opcode(&[0xAF]).modrm(true, None).ord(&[OpOrd::MODRM_REG, OpOrd::MODRM_RM]);
    same(&ins_aimul(&i), &legacy_apx(want));
    // shld eax, ecx, 3
    let i = ins(Mnemonic::SHLD, vec![plain(r(0, Size::Dword)), plain(r(1, Size::Dword)), num(3, Size::Byte)], Size::Dword);
    let want = GenAPI::new().rex().modrm(true, None).opcode(&[0x0F, 0xA4]).imm_atindex(2, 1);
    same(&ins_shlx(&i, &[0x0F, 0xA4], &[0x0F, 0xA5]), &want);
    // aadcx rax, rcx sets W
    let i = ins(Mnemonic::AADCX, vec![plain(r(0, Size::Qword)), plain(r(1, Size::Qword))], Size::Qword);
    let want = GenAPI::new().opcode(&[0x66]).modrm(true, None).ord(&[OpOrd::MODRM_REG, OpOrd::MODRM_RM]).apx(
        APXVariant::LegacyExtension,
        VexDetails::new().map_select(4).vex_we(true).pp(0x66),
        false,
    );
    same(&ins_aadox(&i, 0x66), &want);
    // kmovw k1, word [rax]
    let i = ins(Mnemonic::KMOVW, vec![plain(kreg(1)), plain(mem(Size::Word))], Size::Word);
    assert_eq!(ins_kmov(&i).get_opcode(), vec![0x90]);
    // kmovw word [rax], k1
    let i = ins(Mnemonic::KMOVW, vec![plain(mem(Size::Word)), plain(kreg(1))], Size::Word);
    assert_eq!(ins_kmov(&i).get_opcode(), vec![0x91]);
}
