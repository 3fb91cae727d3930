use vstd::prelude::*;

use crate::api::{spec_ord_oprs, GenAPI};
use crate::evex::EvexFacts;
use crate::operand::{ebits, opt_wf, spec_ebits, Operand};
use crate::size::Size;
use crate::vex::{bit, gen_vex4v, spec_gen_vex4v};

verus! {

/// Which APX encoding an instruction uses.
#[derive(Clone, Copy, Debug, PartialEq, Eq, Structural)]
pub enum APXVariant {
    Auto,
    VexExtension,
    LegacyExtension,
    CondTestCmpExtension,
    EvexExtension,
    Rex2,
}

/// The three-bit code of an APX variant.
pub open spec fn apx_variant_code(v: APXVariant) -> u8 {
    match v {
        APXVariant::Auto => 0,
        APXVariant::VexExtension => 1,
        APXVariant::LegacyExtension => 2,
        APXVariant::CondTestCmpExtension => 3,
        APXVariant::EvexExtension => 4,
        APXVariant::Rex2 => 5,
    }
}

/// The APX variant whose code is `c`, if there is one.
pub open spec fn apx_variant_from_code(c: u8) -> Option<APXVariant> {
    if c == 0 {
        Some(APXVariant::Auto)
    } else if c == 1 {
        Some(APXVariant::VexExtension)
    } else if c == 2 {
        Some(APXVariant::LegacyExtension)
    } else if c == 3 {
        Some(APXVariant::CondTestCmpExtension)
    } else if c == 4 {
        Some(APXVariant::EvexExtension)
    } else if c == 5 {
        Some(APXVariant::Rex2)
    } else {
        None
    }
}

impl APXVariant {
    /// The three-bit code of this variant.
    pub fn code(self) -> (c: u8)
        ensures
            c == apx_variant_code(self),
            c < 8,
    {
        match self {
            APXVariant::Auto => 0,
            APXVariant::VexExtension => 1,
            APXVariant::LegacyExtension => 2,
            APXVariant::CondTestCmpExtension => 3,
            APXVariant::EvexExtension => 4,
            APXVariant::Rex2 => 5,
        }
    }

    /// The variant whose code is `c`, if there is one.
    pub fn from_code(c: u8) -> (r: Option<APXVariant>)
        ensures
            r == apx_variant_from_code(c),
    {
        if c == 0 {
            Some(APXVariant::Auto)
        } else if c == 1 {
            Some(APXVariant::VexExtension)
        } else if c == 2 {
            Some(APXVariant::LegacyExtension)
        } else if c == 3 {
            Some(APXVariant::CondTestCmpExtension)
        } else if c == 4 {
            Some(APXVariant::EvexExtension)
        } else if c == 5 {
            Some(APXVariant::Rex2)
        } else {
            None
        }
    }
}

/// The APX-related facts of an instruction: whether it needs EVEX, whether it is a legacy
/// (non-vector) instruction, its size, its no-flags bits, its condition flags (OF, SF, ZF,
/// CF) and its EVEX facts.
#[derive(Clone, Copy, Debug)]
pub struct ApxFacts {
    pub needs_evex: bool,
    pub is_std: bool,
    pub size: Size,
    pub leg_nf: Option<bool>,
    pub vex_nf: Option<bool>,
    pub cond_of: Option<bool>,
    pub cond_sf: Option<bool>,
    pub cond_zf: Option<bool>,
    pub cond_cf: Option<bool>,
    pub evex: EvexFacts,
}

/// The REX2 prefix: 0xD5 and a byte with M0, R4, W, R3 and the r/m extension bits (X4, B4,
/// X3, B3 for memory; B4 as bit 1 and B3 as bit 0 for a register).
pub open spec fn spec_rex2(ctx: GenAPI, rm: Option<Operand>, reg: Option<Operand>) -> Seq<u8> {
    let (r4, r3) = spec_ebits(reg).0;
    let ((b4, b3), (x4, x3)) = spec_ebits(rm);
    let head = ((ctx.spec_apx_map_select() & 1) << 7u8) | (bit(r4) << 6u8) | (bit(
        ctx.spec_apx_vex_we(),
    ) << 3u8) | (bit(r3) << 2u8);
    let tail = if rm matches Some(Operand::Mem(_)) {
        bit(b3) | (bit(x3) << 1u8) | (bit(b4) << 4u8) | (bit(x4) << 5u8)
    } else {
        bit(b3) | (bit(b4) << 1u8)
    };
    seq![0xD5u8, head | tail]
}

/// The second byte shared by the extended-EVEX legacy and conditional forms.
pub open spec fn eevex_p0(rm: Option<Operand>, reg: Option<Operand>) -> u8 {
    let (r4, r3) = spec_ebits(reg).0;
    let ((b4, b3), (_, x3)) = spec_ebits(rm);
    (bit(!r3) << 7u8) | (bit(!x3) << 6u8) | (bit(!b3) << 5u8) | (bit(!r4) << 4u8) | (bit(!b4)
        << 3u8) | 4u8
}

/// W/E and pp of the extended-EVEX legacy form: from the instruction's size and `bits` when
/// the layout's pp is 0, else a quadword W with the layout's pp.
pub open spec fn legacy_we_pp(ctx: GenAPI, size: Size, bits: u8) -> (bool, u8) {
    if ctx.spec_apx_pp() != 0 {
        (size == Size::Qword, ctx.spec_apx_pp())
    } else if size == Size::Qword && bits == 64 {
        (true, 0)
    } else if size == Size::Dword && bits == 64 {
        (false, 0)
    } else if size == Size::Word && bits == 64 {
        (false, 1)
    } else if size == Size::Dword && bits == 32 {
        (false, 0)
    } else if size == Size::Word && bits == 32 {
        (false, 1)
    } else if size == Size::Dword && bits == 16 {
        (false, 1)
    } else if size == Size::Word && bits == 16 {
        (false, 0)
    } else {
        (ctx.spec_apx_vex_we(), ctx.spec_apx_pp())
    }
}

/// The extended-EVEX prefix of a legacy instruction.
pub open spec fn spec_eevex_legacy(
    ctx: GenAPI,
    rm: Option<Operand>,
    reg: Option<Operand>,
    vvvv: Option<Operand>,
    f: ApxFacts,
    bits: u8,
) -> Seq<u8> {
    let x4 = spec_ebits(rm).1.0;
    let v4 = spec_ebits(vvvv).0.0;
    let (we, pp) = legacy_we_pp(ctx, f.size, bits);
    seq![
        0x62u8,
        eevex_p0(rm, reg),
        (bit(we) << 7u8) | (spec_gen_vex4v(vvvv) << 3u8) | (bit(!x4) << 2u8) | pp,
        (bit(vvvv is Some) << 4u8) | (bit(!v4) << 3u8) | (bit(f.leg_nf.unwrap_or(false)) << 2u8),
    ]
}

/// The extended-EVEX prefix of a conditional CMP/TEST.
pub open spec fn spec_eevex_cond(
    ctx: GenAPI,
    rm: Option<Operand>,
    reg: Option<Operand>,
    f: ApxFacts,
) -> Seq<u8> {
    let x4 = spec_ebits(rm).1.0;
    seq![
        0x62u8,
        eevex_p0(rm, reg),
        (bit(ctx.spec_apx_vex_we()) << 7u8) | (bit(f.cond_of.unwrap_or(false)) << 6u8) | (bit(
            f.cond_sf.unwrap_or(false),
        ) << 6u8) | (bit(f.cond_zf.unwrap_or(false)) << 6u8) | (bit(f.cond_cf.unwrap_or(false))
            << 6u8) | (bit(!x4) << 2u8) | ctx.spec_apx_pp(),
        ctx.spec_apx_cccc() & 0xF,
    ]
}

/// The extended-EVEX prefix of a VEX instruction.
pub open spec fn spec_eevex_vex(
    ctx: GenAPI,
    rm: Option<Operand>,
    reg: Option<Operand>,
    vvvv: Option<Operand>,
    f: ApxFacts,
) -> Seq<u8> {
    let (r4, r3) = spec_ebits(reg).0;
    let ((b4, b3), (x4, x3)) = spec_ebits(rm);
    let v4 = spec_ebits(vvvv).0.0;
    seq![
        0x62u8,
        (bit(!r3) << 7u8) | (bit(!x3) << 6u8) | (bit(!b3) << 5u8) | (bit(!r4) << 4u8) | (bit(!b4)
            << 3u8) | (ctx.spec_get_map_select().unwrap_or(0) & 7),
        (bit(ctx.spec_get_vex_we().unwrap_or(false)) << 7u8) | (spec_gen_vex4v(vvvv) << 3u8) | (
        bit(!x4) << 2u8) | ctx.spec_get_pp().unwrap_or(0),
        (bit(f.size == Size::Yword) << 4u8) | (bit(!v4) << 3u8) | (bit(f.vex_nf.unwrap_or(false))
            << 2u8),
    ]
}

/// The last byte of the extended-EVEX prefix of an EVEX instruction.
pub open spec fn eevex_evex_p2(rm: Option<Operand>, vvvv: Option<Operand>, f: EvexFacts) -> u8 {
    let v4 = spec_ebits(vvvv).0.0;
    let bcst = rm matches Some(Operand::Mem(m)) && m.bcst;
    let base = (bit(f.z.unwrap_or(false)) << 7u8) | (bit(f.sae.unwrap_or(false) || bcst) << 4u8)
        | (bit(!v4) << 3u8) | f.mask.unwrap_or(0);
    match f.er {
        Some(er) => (base | 0x10) | (er << 5u8),
        None => base | ((bit(f.size == Size::Zword) << 6u8) | (bit(f.size == Size::Yword) << 5u8)),
    }
}

/// The extended-EVEX prefix of an EVEX instruction.
pub open spec fn spec_eevex_evex(
    ctx: GenAPI,
    rm: Option<Operand>,
    reg: Option<Operand>,
    vvvv: Option<Operand>,
    f: EvexFacts,
) -> Seq<u8> {
    let (r4, r3) = spec_ebits(reg).0;
    let ((b4, b3), (x4, x3)) = spec_ebits(rm);
    let (bcst, sz, mem) = match rm {
        Some(Operand::Mem(m)) => (m.bcst, m.size, true),
        _ => (false, Size::Unknown, false),
    };
    let we = if ctx.spec_get_vex_we() == Some(true) {
        true
    } else if bcst {
        sz == Size::Qword
    } else {
        false
    };
    let p0 = (bit(!r3) << 7u8) | (bit(!r4) << 4u8) | (ctx.spec_get_map_select().unwrap_or(0) & 7);
    let p1 = (bit(we) << 7u8) | (spec_gen_vex4v(vvvv) << 3u8) | ctx.spec_get_pp().unwrap_or(0);
    let (q0, q1) = if mem {
        (((p0 | (bit(!x3) << 6u8)) | (bit(!b3) << 5u8)) | (bit(!b4) << 3u8), p1 | (bit(!x4) << 2u8))
    } else {
        ((p0 | (bit(!b4) << 6u8)) | (bit(!b3) << 5u8), p1)
    };
    seq![0x62u8, q0, q1, eevex_evex_p2(rm, vvvv, f)]
}

/// The APX prefix chosen by the layout's APX variant: EVEX-extension and VEX-extension layouts
/// give the extended-EVEX EVEX form (the VEX one for a VEX instruction that needs no EVEX);
/// the automatic variant picks REX2 in 64-bit mode for the legacy maps without pp, otherwise
/// the EVEX, VEX or legacy extended-EVEX form by what the instruction is; the conditional,
/// REX2 and legacy variants give their own forms.
pub open spec fn spec_apx(
    ctx: GenAPI,
    rm: Option<Operand>,
    reg: Option<Operand>,
    vvvv: Option<Operand>,
    f: ApxFacts,
    bits: u8,
) -> Seq<u8> {
    let by_kind = if f.needs_evex {
        spec_eevex_evex(ctx, rm, reg, vvvv, f.evex)
    } else if !f.is_std {
        spec_eevex_vex(ctx, rm, reg, vvvv, f)
    } else {
        spec_eevex_legacy(ctx, rm, reg, vvvv, f, bits)
    };
    match ctx.spec_apx_version().unwrap() {
        APXVariant::EvexExtension => spec_eevex_evex(ctx, rm, reg, vvvv, f.evex),
        APXVariant::VexExtension => if f.needs_evex {
            spec_eevex_evex(ctx, rm, reg, vvvv, f.evex)
        } else {
            spec_eevex_vex(ctx, rm, reg, vvvv, f)
        },
        APXVariant::Auto => if ctx.spec_apx_map_select() <= 1 && ctx.spec_apx_pp() == 0 && bits
            == 64 {
            spec_rex2(ctx, rm, reg)
        } else {
            by_kind
        },
        APXVariant::CondTestCmpExtension => spec_eevex_cond(ctx, rm, reg, f),
        APXVariant::Rex2 => spec_rex2(ctx, rm, reg),
        APXVariant::LegacyExtension => spec_eevex_legacy(ctx, rm, reg, vvvv, f, bits),
    }
}

fn b8(b: bool) -> (r: u8)
    ensures
        r == bit(b),
{
    if b {
        1
    } else {
        0
    }
}

/// The REX2 prefix.
pub fn rex2(ctx: &GenAPI, rm: Option<Operand>, reg: Option<Operand>) -> (r: Vec<u8>)
    ensures
        r@ == spec_rex2(*ctx, rm, reg),
{
    let ((r4, r3), _) = ebits(&reg);
    let ((b4, b3), (x4, x3)) = ebits(&rm);
    let mut rex2_0: u8 = ((ctx.get_apx_eevex_map_select() & 1) << 7u8) | (b8(r4) << 6u8) | (b8(
        ctx.get_apx_eevex_vex_we(),
    ) << 3u8) | (b8(r3) << 2u8);
    let tail: u8 = if let Some(Operand::Mem(_)) = rm {
        b8(b3) | (b8(x3) << 1u8) | (b8(b4) << 4u8) | (b8(x4) << 5u8)
    } else {
        b8(b3) | (b8(b4) << 1u8)
    };
    rex2_0 = rex2_0 | tail;
    let v = vec![0xD5u8, rex2_0];
    v
}

fn p0_byte(rm: &Option<Operand>, reg: &Option<Operand>) -> (r: u8)
    ensures
        r == eevex_p0(*rm, *reg),
{
    let ((r4, r3), _) = ebits(reg);
    let ((b4, b3), (_, x3)) = ebits(rm);
    (b8(!r3) << 7u8) | (b8(!x3) << 6u8) | (b8(!b3) << 5u8) | (b8(!r4) << 4u8) | (b8(!b4) << 3u8)
        | 4u8
}

/// The extended-EVEX prefix of a legacy instruction.
pub fn eevex_legacy(
    ctx: &GenAPI,
    rm: Option<Operand>,
    reg: Option<Operand>,
    vvvv: Option<Operand>,
    f: &ApxFacts,
    bits: u8,
) -> (r: Vec<u8>)
    requires
        opt_wf(vvvv),
    ensures
        r@ == spec_eevex_legacy(*ctx, rm, reg, vvvv, *f, bits),
{
    let (_, (x4, _)) = ebits(&rm);
    let ((v4, _), _) = ebits(&vvvv);
    let apx_pp = ctx.get_apx_eevex_pp();
    let (we, pp): (bool, u8) = if apx_pp != 0 {
        (f.size == Size::Qword, apx_pp)
    } else if f.size == Size::Qword && bits == 64 {
        (true, 0)
    } else if f.size == Size::Dword && bits == 64 {
        (false, 0)
    } else if f.size == Size::Word && bits == 64 {
        (false, 1)
    } else if f.size == Size::Dword && bits == 32 {
        (false, 0)
    } else if f.size == Size::Word && bits == 32 {
        (false, 1)
    } else if f.size == Size::Dword && bits == 16 {
        (false, 1)
    } else if f.size == Size::Word && bits == 16 {
        (false, 0)
    } else {
        (ctx.get_apx_eevex_vex_we(), apx_pp)
    };
    let v = vec![
        0x62u8,
        p0_byte(&rm, &reg),
        (b8(we) << 7u8) | (gen_vex4v(&vvvv) << 3u8) | (b8(!x4) << 2u8) | pp,
        (b8(vvvv.is_some()) << 4u8) | (b8(!v4) << 3u8) | (b8(f.leg_nf.unwrap_or(false)) << 2u8),
    ];
    v
}

/// The extended-EVEX prefix of a conditional CMP/TEST.
pub fn eevex_cond(ctx: &GenAPI, rm: Option<Operand>, reg: Option<Operand>, f: &ApxFacts) -> (r: Vec<
    u8,
>)
    ensures
        r@ == spec_eevex_cond(*ctx, rm, reg, *f),
{
    let (_, (x4, _)) = ebits(&rm);
    let v = vec![
        0x62u8,
        p0_byte(&rm, &reg),
        (b8(ctx.get_apx_eevex_vex_we()) << 7u8) | (b8(f.cond_of.unwrap_or(false)) << 6u8) | (b8(
            f.cond_sf.unwrap_or(false),
        ) << 6u8) | (b8(f.cond_zf.unwrap_or(false)) << 6u8) | (b8(f.cond_cf.unwrap_or(false))
            << 6u8) | (b8(!x4) << 2u8) | ctx.get_apx_eevex_pp(),
        ctx.get_apx_cccc() & 0b1111,
    ];
    v
}

/// The extended-EVEX prefix of a VEX instruction.
pub fn eevex_vex(
    ctx: &GenAPI,
    rm: Option<Operand>,
    reg: Option<Operand>,
    vvvv: Option<Operand>,
    f: &ApxFacts,
) -> (r: Vec<u8>)
    requires
        opt_wf(vvvv),
    ensures
        r@ == spec_eevex_vex(*ctx, rm, reg, vvvv, *f),
{
    let ((r4, r3), _) = ebits(&reg);
    let ((b4, b3), (x4, x3)) = ebits(&rm);
    let ((v4, _), _) = ebits(&vvvv);
    let v = vec![
        0x62u8,
        (b8(!r3) << 7u8) | (b8(!x3) << 6u8) | (b8(!b3) << 5u8) | (b8(!r4) << 4u8) | (b8(!b4)
            << 3u8) | (ctx.get_map_select().unwrap_or(0) & 0b111),
        (b8(ctx.get_vex_we().unwrap_or(false)) << 7u8) | (gen_vex4v(&vvvv) << 3u8) | (b8(!x4)
            << 2u8) | ctx.get_pp().unwrap_or(0b00),
        (b8(f.size == Size::Yword) << 4u8) | (b8(!v4) << 3u8) | (b8(f.vex_nf.unwrap_or(false))
            << 2u8),
    ];
    v
}

/// The extended-EVEX prefix of an EVEX instruction.
pub fn eevex_evex(
    ctx: &GenAPI,
    rm: Option<Operand>,
    reg: Option<Operand>,
    vvvv: Option<Operand>,
    f: &EvexFacts,
) -> (r: Vec<u8>)
    requires
        opt_wf(vvvv),
    ensures
        r@ == spec_eevex_evex(*ctx, rm, reg, vvvv, *f),
{
    let ((r4, r3), _) = ebits(&reg);
    let ((b4, b3), (x4, x3)) = ebits(&rm);
    let ((v4, _), _) = ebits(&vvvv);
    let (bcst, sz, mem) = match rm {
        Some(Operand::Mem(m)) => (m.bcst, m.size, true),
        _ => (false, Size::Unknown, false),
    };
    let mut evex3: u8 = (b8(f.z.unwrap_or(false)) << 7u8) | (b8(f.sae.unwrap_or(false) || bcst)
        << 4u8) | (b8(!v4) << 3u8) | f.mask.unwrap_or(0);
    match f.er {
        Some(er) => {
            evex3 = evex3 | 0x10;
            evex3 = evex3 | (er << 5u8);
        },
        None => {
            evex3 = evex3 | ((b8(f.size == Size::Zword) << 6u8) | (b8(f.size == Size::Yword)
                << 5u8));
        },
    }
    let evex_we = if ctx.get_vex_we() == Some(true) {
        true
    } else if bcst {
        sz == Size::Qword
    } else {
        false
    };
    let mut evex1: u8 = (b8(!r3) << 7u8) | (b8(!r4) << 4u8) | (ctx.get_map_select().unwrap_or(0)
        & 0b111);
    let mut evex2: u8 = (b8(evex_we) << 7u8) | (gen_vex4v(&vvvv) << 3u8) | ctx.get_pp().unwrap_or(
        0b00,
    );
    if mem {
        evex1 = evex1 | (b8(!x3) << 6u8);
        evex1 = evex1 | (b8(!b3) << 5u8);
        evex1 = evex1 | (b8(!b4) << 3u8);
        evex2 = evex2 | (b8(!x4) << 2u8);
    } else {
        evex1 = evex1 | (b8(!b4) << 6u8);
        evex1 = evex1 | (b8(!b3) << 5u8);
    }
    let v = vec![0x62u8, evex1, evex2, evex3];
    v
}

/// The APX prefix of an instruction with destination `dst` and sources `src` and `ssrc`
/// under a layout that has an APX variant, in `bits`-bit mode.
pub fn apx(
    ctx: &GenAPI,
    dst: Option<Operand>,
    src: Option<Operand>,
    ssrc: Option<Operand>,
    f: &ApxFacts,
    bits: u8,
) -> (r: Vec<u8>)
    requires
        ctx.spec_apx_version() is Some,
        opt_wf(dst),
        opt_wf(src),
        opt_wf(ssrc),
    ensures
        ({
            let (rm, reg, vv) = spec_ord_oprs(ctx.ord.ord, dst, src, ssrc);
            r@ == spec_apx(*ctx, rm, reg, vv, *f, bits)
        }),
{
    let ops = ctx.get_ord_oprs(dst, src, ssrc);
    let rm = ops[0];
    let reg = ops[1];
    let vv = ops[2];
    match ctx.get_apx_eevex_version() {
        Some(APXVariant::EvexExtension) => eevex_evex(ctx, rm, reg, vv, &f.evex),
        Some(APXVariant::VexExtension) => {
            if f.needs_evex {
                eevex_evex(ctx, rm, reg, vv, &f.evex)
            } else {
                eevex_vex(ctx, rm, reg, vv, f)
            }
        },
        Some(APXVariant::Auto) => {
            if ctx.get_apx_eevex_map_select() <= 1 && ctx.get_apx_eevex_pp() == 0 && bits == 64 {
                rex2(ctx, rm, reg)
            } else if f.needs_evex {
                eevex_evex(ctx, rm, reg, vv, &f.evex)
            } else if !f.is_std {
                eevex_vex(ctx, rm, reg, vv, f)
            } else {
                eevex_legacy(ctx, rm, reg, vv, f, bits)
            }
        },
        Some(APXVariant::CondTestCmpExtension) => eevex_cond(ctx, rm, reg, f),
        Some(APXVariant::Rex2) => rex2(ctx, rm, reg),
        Some(APXVariant::LegacyExtension) => eevex_legacy(ctx, rm, reg, vv, f, bits),
        None => {
            assert(false);
            Vec::new()
        },
    }
}

} // verus!
