use lib::api::OpOrd::{MODRM_REG, MODRM_RM, TSRC, VEX_VVVV};
use lib::api::{
    gen_addt_pfx, gen_segm_pref_op, gen_size_ovr, gen_sizeovr_fixed_size, map_select, pp,
    AddtPrefix, GenAPI, MegaBool, ModrmTuple, OperandOrder, SizeOvrFacts, VexDetails, CAN_H66O,
    CAN_SEGM, FIXED_SIZE, IMM, PREFIX_APX, PREFIX_EVEX, PREFIX_REX, PREFIX_VEX,
};
use lib::apx::APXVariant;
use lib::operand::{Mem, Operand, SegReg};
use lib::size::Size;

#[test]
fn tgeneral_api_check_0() {
    assert!(std::mem::size_of::<GenAPI>() == 16);
}

#[test]
fn tmbool_1() {
    let mb = MegaBool::from_byte(3);
    assert_eq!(mb.get(), Some(true));
    let mb = MegaBool::set(Some(true));
    assert_eq!(mb.get(), Some(true));
    let api = GenAPI::new().vex(
        VexDetails::new()
            .map_select(0x0F)
            .pp(0x66)
            .vex_we(true)
            .vlength(Some(true)),
    );
    assert_eq!(api.get_fpfx(), PREFIX_VEX);
    assert_eq!(api.get_vex_vlength(), Some(MegaBool::set(Some(true))));
    assert!(api.get_vex_vlength().unwrap().get().unwrap_or(false));
    let api = GenAPI::new()
        .opcode(&[0x19])
        .modrm(true, None)
        .imm_atindex(2, 1)
        .vex(
            VexDetails::new()
                .map_select(0x3A)
                .pp(0x66)
                .vex_we(false)
                .vlength(Some(true)),
        )
        .ord(&[MODRM_RM, MODRM_REG]);
    assert_eq!(api.addt, 0b0000_0011_0001_0010);
    assert!(api.get_vex_vlength().unwrap().get().unwrap_or(false));
}

#[test]
fn tord_check_2() {
    assert!(MODRM_RM as u8 == 0);
    assert!(MODRM_REG as u8 == 1);
    assert!(VEX_VVVV as u8 == 2);
    assert!(TSRC as u8 == 3);
    let ord = OperandOrder::new(&[MODRM_RM, MODRM_REG, VEX_VVVV]).unwrap();
    assert!(ord.get(0) == Some(MODRM_RM));
    assert!(ord.get(1) == Some(MODRM_REG));
    assert!(ord.get(2) == Some(VEX_VVVV));
    assert!(ord.deserialize()[0..3] == [MODRM_RM, MODRM_REG, VEX_VVVV]);
}

#[test]
fn new_layout_defaults() {
    let g = GenAPI::new();
    assert!(g.flags.at(CAN_H66O));
    assert!(g.flags.at(CAN_SEGM));
    assert!(!g.flags.at(IMM));
    assert_eq!(g.ord.ord, 0xE4);
    assert_eq!(g.get_ord(), [MODRM_RM, MODRM_REG, VEX_VVVV, TSRC]);
    assert_eq!(g.get_fpfx(), 0);
    assert_eq!(g.opcode_len(), 0);
    assert_eq!(g.get_pp(), None);
    assert_eq!(g.get_size(), None);
}

#[test]
fn fpfx_roundtrip() {
    let mut g = GenAPI::new().opcode(&[0x0F, 0x05]);
    for v in 0..8u8 {
        g.set_fpfx(v);
        assert_eq!(g.get_fpfx(), v);
        assert_eq!(g.opcode_len(), 2);
    }
    assert_eq!(GenAPI::new().rex().get_fpfx(), PREFIX_REX);
}

#[test]
fn opcode_bytes() {
    let g = GenAPI::new().opcode(&[0x0F, 0x38, 0xF6]);
    assert_eq!(g.opcode_len(), 3);
    assert_eq!(g.get_opcode(), vec![0x0F, 0x38, 0xF6]);
    assert_eq!(GenAPI::new().opcode(&[]).get_opcode(), Vec::<u8>::new());
}

#[test]
fn vex_fields_read_back() {
    let g = GenAPI::new().vex(VexDetails::new().map_select(0x38).pp(0xF2).vex_we(true));
    assert_eq!(g.get_pp(), Some(3));
    assert_eq!(g.get_map_select(), Some(2));
    assert_eq!(g.get_vex_we(), Some(true));
    assert_eq!(g.get_vex_vlength().unwrap().get(), None);
    assert_eq!(g.prefix, 0b1000_1011);
}

#[test]
fn evex_keeps_raw_map() {
    let g = GenAPI::new().evex(VexDetails::new().map_select(5).pp(0x66).vlength(Some(false)));
    assert_eq!(g.get_fpfx(), PREFIX_EVEX);
    assert_eq!(g.get_map_select(), Some(5));
    assert_eq!(g.get_pp(), Some(1));
    assert_eq!(g.get_vex_we(), Some(false));
    assert_eq!(g.get_vex_vlength().unwrap().get(), Some(false));
}

#[test]
fn apx_fields_read_back() {
    let g = GenAPI::new()
        .apx(
            APXVariant::CondTestCmpExtension,
            VexDetails::new().map_select(4).pp(0xF3).vex_we(true),
            true,
        )
        .apx_cccc(0b1010);
    assert_eq!(g.get_fpfx(), PREFIX_APX);
    assert_eq!(g.get_apx_eevex_version(), Some(APXVariant::CondTestCmpExtension));
    assert!(g.get_apx_nd());
    assert_eq!(g.get_apx_eevex_map_select(), 4);
    assert_eq!(g.get_apx_eevex_pp(), 2);
    assert!(g.get_apx_eevex_vex_we());
    assert_eq!(g.get_apx_cccc(), 0b1010);
    assert_eq!(GenAPI::new().get_apx_eevex_version(), None);
    let v = GenAPI::new().vex(VexDetails::new());
    assert_eq!(v.get_apx_eevex_version(), Some(APXVariant::VexExtension));
}

#[test]
fn fixed_size_and_modrm_mod() {
    let g = GenAPI::new().fixed_size(Size::Word);
    assert!(g.flags.at(FIXED_SIZE));
    assert_eq!(g.get_size(), Some(Size::Word));
    let g = GenAPI::new().modrm_mod(0b111);
    assert_eq!(g.get_addt2(), 0b11);
}

#[test]
fn modrm_override() {
    let g = GenAPI::new().modrm(true, Some(5));
    assert_eq!(g.get_modrm().reg(), Some(5));
    assert_eq!(g.get_modrm().data(), 0b1010_1000);
    assert_eq!(ModrmTuple::new(None).deserialize(), None);
}

#[test]
fn operand_order_too_long() {
    assert!(OperandOrder::new(&[MODRM_RM, MODRM_RM, MODRM_RM, MODRM_RM, MODRM_RM]).is_none());
    let o = OperandOrder::new(&[MODRM_REG]).unwrap();
    assert!(o.modrm_reg_is_dst());
    assert_eq!(o.deserialize(), [MODRM_REG, MODRM_RM, MODRM_RM, MODRM_RM]);
    assert_eq!(o.get(7), None);
}

#[test]
fn prefix_codes() {
    assert_eq!(pp(0x66), 1);
    assert_eq!(pp(0xF3), 2);
    assert_eq!(pp(0xF2), 3);
    assert_eq!(pp(0x90), 0);
    assert_eq!(map_select(0x0F), 1);
    assert_eq!(map_select(0x38), 2);
    assert_eq!(map_select(0x3A), 3);
    assert_eq!(map_select(0x01), 0);
}

#[test]
fn legacy_prefixes() {
    assert_eq!(gen_addt_pfx(Some(AddtPrefix::Lock)), Some(0xF0));
    assert_eq!(gen_addt_pfx(Some(AddtPrefix::Repnz)), Some(0xF2));
    assert_eq!(gen_addt_pfx(Some(AddtPrefix::Repe)), Some(0xF3));
    assert_eq!(gen_addt_pfx(Some(AddtPrefix::Other)), None);
    assert_eq!(gen_addt_pfx(None), None);
    assert_eq!(gen_sizeovr_fixed_size(Size::Word, 64), Some(0x66));
    assert_eq!(gen_sizeovr_fixed_size(Size::Dword, 16), Some(0x66));
    assert_eq!(gen_sizeovr_fixed_size(Size::Dword, 64), None);
}

fn mem(addrsize: Size, segment: Option<SegReg>) -> Mem {
    Mem {
        offset: None,
        riprel: false,
        sib: false,
        base: None,
        index: None,
        scale: 0,
        size: Size::Qword,
        addrsize,
        segment,
        bcst: false,
    }
}

#[test]
fn size_overrides() {
    let f = SizeOvrFacts { defaults_to_64bit: false, uses_cr: false, uses_dr: false };
    assert_eq!(gen_size_ovr(&f, &None, Size::Word, 64, false), Some([Some(0x66), None]));
    assert_eq!(gen_size_ovr(&f, &None, Size::Qword, 64, true), None);
    assert_eq!(gen_size_ovr(&f, &None, Size::Qword, 64, false), Some([Some(0x66), None]));
    let m = Some(Operand::Mem(mem(Size::Dword, None)));
    assert_eq!(gen_size_ovr(&f, &m, Size::Dword, 64, false), Some([None, Some(0x67)]));
    assert_eq!(gen_size_ovr(&f, &m, Size::Dword, 32, false), None);
}

#[test]
fn segment_overrides() {
    assert_eq!(gen_segm_pref_op(&mem(Size::Qword, Some(SegReg::FS))), Some(0x64));
    assert_eq!(gen_segm_pref_op(&mem(Size::Qword, Some(SegReg::CS))), Some(0x2E));
    assert_eq!(gen_segm_pref_op(&mem(Size::Qword, None)), None);
}
