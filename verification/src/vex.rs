use vstd::prelude::*;

use crate::api::{megabool_value, spec_ord_oprs, GenAPI};
use crate::operand::{mem_needs_rex, opt_wf, spec_mem_needs_rex, Operand};

verus! {

/// First byte of the two-byte VEX prefix.
pub const TWO_BYTE_PFX: u8 = 0xC5;
/// First byte of the three-byte VEX prefix.
pub const THREE_BYTE_PFX: u8 = 0xC4;

/// The bits of `bits` that are clear in `num`.
pub fn andn(num: u8, bits: u8) -> (r: u8)
    ensures
        r == !num & bits,
{
    !num & bits
}

/// The four-bit register number of an optional register operand, if it is one.
pub open spec fn reg_number(op: Option<Operand>) -> Option<u8> {
    match op {
        Some(Operand::Register(r)) => Some(
            ((if r.ext3 {
                8u8
            } else {
                0u8
            }) + r.byte) as u8,
        ),
        _ => None,
    }
}

/// The (E)VEX.vvvv field: the one's complement of the four-bit number of a register operand,
/// 0b1111 for anything else.
pub open spec fn spec_gen_vex4v(op: Option<Operand>) -> u8 {
    match reg_number(op) {
        Some(n) => (15 - n) as u8,
        None => 15,
    }
}

/// The (E)VEX.vvvv field of an operand.
pub fn gen_vex4v(op: &Option<Operand>) -> (r: u8)
    requires
        opt_wf(*op),
    ensures
        r == spec_gen_vex4v(*op),
        r < 16,
{
    match op {
        Some(Operand::Register(r)) => {
            let e: u8 = if r.ext3 {
                1
            } else {
                0
            };
            let b = r.byte;
            let v = andn((e << 3u8) | b, 0b0000_1111);
            assert(v == (15 - (((if e == 1 { 8u8 } else { 0u8 }) + b) as u8)) as u8 && v < 16) by (bit_vector)
                requires
                    e < 2,
                    b < 8,
                    v == !((e << 3u8) | b) & 0b0000_1111,
            ;
            v
        },
        _ => 0b1111,
    }
}

/// Which of VEX.B and VEX.X an operand needs set (before inversion): bit 3 of a register's
/// number as B; the base's and index's bit 3 for memory; neither otherwise.
pub open spec fn spec_needs_vex3(op: Option<Operand>) -> (bool, bool) {
    match op {
        Some(Operand::Register(r)) => (r.ext3, false),
        Some(Operand::Mem(m)) => spec_mem_needs_rex(m),
        _ => (false, false),
    }
}

/// Which of VEX.B and VEX.X an operand needs set (before inversion).
pub fn needs_vex3(op: &Option<Operand>) -> (r: (bool, bool))
    ensures
        r == spec_needs_vex3(*op),
{
    match op {
        Some(Operand::Register(r)) => {
            if r.ext3 {
                return (true, false);
            }
        },
        Some(Operand::Mem(m)) => {
            let rr = mem_needs_rex(m);
            if rr.0 || rr.1 {
                return rr;
            }
        },
        _ => {},
    }
    (false, false)
}

/// 1 for true, 0 for false.
pub open spec fn bit(b: bool) -> u8 {
    if b {
        1
    } else {
        0
    }
}

/// VEX.L: the layout's vector length if it has one, else 1 for a YMM instruction.
pub open spec fn spec_vlength(ctx: GenAPI, is_ymm: bool) -> u8 {
    match ctx.spec_get_vex_vlength() {
        Some(mg) => match megabool_value(mg.data) {
            Some(b) => bit(b),
            None => bit(is_ymm),
        },
        None => bit(is_ymm),
    }
}

/// Whether the three-byte form is needed: an extended r/m base or index, the 0x0F38 or
/// 0x0F3A map, or VEX.W set.
pub open spec fn needs_three_bytes(ctx: GenAPI, rm: Option<Operand>) -> bool {
    let vb = spec_needs_vex3(rm);
    let ms = ctx.spec_get_map_select().unwrap();
    vb.0 || vb.1 || ms == 3 || ms == 2 || ctx.spec_get_vex_we().unwrap()
}

/// The VEX prefix for the r/m operand `rm`, the reg operand `reg` and the vvvv operand
/// `vvvv` under the layout `ctx`.
pub open spec fn spec_vex_bytes(
    ctx: GenAPI,
    rm: Option<Operand>,
    reg: Option<Operand>,
    vvvv: Option<Operand>,
    is_ymm: bool,
) -> Seq<u8> {
    let v4 = spec_gen_vex4v(vvvv);
    let pp = ctx.spec_get_pp().unwrap();
    let ms = ctx.spec_get_map_select().unwrap();
    let we = ctx.spec_get_vex_we().unwrap();
    let vl = spec_vlength(ctx, is_ymm);
    let vb = spec_needs_vex3(rm);
    let vr = spec_needs_vex3(reg).0;
    if needs_three_bytes(ctx, rm) {
        seq![
            THREE_BYTE_PFX,
            (bit(!vr) << 7u8) | ((!bit(vb.1) & 1) << 6u8) | (((!bit(vb.0) & 1) << 5u8) | ms),
            (bit(we) << 7u8) | (v4 << 3u8) | (vl << 2u8) | pp,
        ]
    } else {
        seq![TWO_BYTE_PFX, (bit(!vr) << 7u8) | (v4 << 3u8) | (vl << 2u8) | pp]
    }
}

/// The three-byte VEX prefix: 0xC4; then R, X and B stored inverted (R bit 3 of the reg
/// register's number, X bit 3 of an r/m memory operand's index, B bit 3 of the r/m register's
/// number or of an r/m memory operand's base) and the map; then W, the vvvv register's
/// four-bit number inverted (1111 without one), L and pp.
pub proof fn lemma_vex3_fields(
    ctx: GenAPI,
    rm: Option<Operand>,
    reg: Option<Operand>,
    vvvv: Option<Operand>,
    is_ymm: bool,
)
    requires
        ctx.uses_vex_fields(),
        needs_three_bytes(ctx, rm),
        !(reg matches Some(Operand::Mem(_))),
        opt_wf(vvvv),
    ensures
        ({
            let b = spec_vex_bytes(ctx, rm, reg, vvvv, is_ymm);
            &&& b.len() == 3
            &&& b[0] == 0xC4
            &&& (b[1] & 0x80 == 0) == (reg matches Some(Operand::Register(r)) && r.ext3)
            &&& (b[1] & 0x40 == 0) == (rm matches Some(Operand::Mem(m)) && (m.index matches Some(i)
                && i.ext3))
            &&& (b[1] & 0x20 == 0) == ((rm matches Some(Operand::Register(r)) && r.ext3) || (rm matches Some(
                Operand::Mem(m),
            ) && (m.base matches Some(x) && x.ext3)))
            &&& b[1] & 0x1F == ctx.spec_get_map_select().unwrap()
            &&& (b[2] & 0x80 == 0x80) == ctx.spec_get_vex_we().unwrap()
            &&& b[2] & 3 == ctx.spec_get_pp().unwrap()
            &&& (b[2] >> 2u8) & 1 == spec_vlength(ctx, is_ymm)
            &&& (vvvv matches Some(Operand::Register(r)) ==> (b[2] >> 3u8) & 15 == 15 - (r.byte + if r.ext3 {
                8int
            } else {
                0int
            }))
            &&& (!(vvvv matches Some(Operand::Register(_))) ==> (b[2] >> 3u8) & 15 == 15)
        }),
{
    let prefix = ctx.prefix;
    let pp = ctx.spec_get_pp().unwrap();
    let ms = ctx.spec_get_map_select().unwrap();
    assert(pp < 4 && ms < 32) by (bit_vector)
        requires
            pp == (prefix & 3) as u8,
            ms == ((prefix & 0x7C) >> 2u16) as u8,
    ;
    let we = ctx.spec_get_vex_we().unwrap();
    let vl = spec_vlength(ctx, is_ymm);
    assert(vl < 2);
    let v4 = spec_gen_vex4v(vvvv);
    assert(v4 < 16);
    let vb = spec_needs_vex3(rm);
    let vr = spec_needs_vex3(reg).0;
    let (r, x, bb) = (bit(!vr), bit(vb.1), bit(vb.0));
    let w = bit(we);
    let b1 = (r << 7u8) | ((!x & 1) << 6u8) | (((!bb & 1) << 5u8) | ms);
    let b2 = (w << 7u8) | (v4 << 3u8) | (vl << 2u8) | pp;
    assert((b1 & 0x80 == 0) == (r == 0) && (b1 & 0x40 == 0) == (x == 1) && (b1 & 0x20 == 0) == (bb == 1)
        && b1 & 0x1F == ms && (b2 & 0x80 == 0x80) == (w == 1) && b2 & 3 == pp && (b2 >> 2u8) & 1 == vl && (b2
        >> 3u8) & 15 == v4) by (bit_vector)
        requires
            r < 2,
            x < 2,
            bb < 2,
            w < 2,
            ms < 32,
            pp < 4,
            vl < 2,
            v4 < 16,
            b1 == (r << 7u8) | ((!x & 1) << 6u8) | (((!bb & 1) << 5u8) | ms),
            b2 == (w << 7u8) | (v4 << 3u8) | (vl << 2u8) | pp,
    ;
}

/// The operands for the VEX prefix: those of the operand order, or, when the order places
/// none, the destination as r/m, the third source as reg and the source as vvvv.
pub open spec fn vex_operands(
    ctx: GenAPI,
    dst: Option<Operand>,
    src: Option<Operand>,
    ssrc: Option<Operand>,
    src2: Option<Operand>,
) -> (Option<Operand>, Option<Operand>, Option<Operand>) {
    let (rm, reg, vv) = spec_ord_oprs(ctx.ord.ord, dst, src, ssrc);
    if rm is None && reg is None && vv is None {
        (dst, src2, src)
    } else {
        (rm, reg, vv)
    }
}

/// The VEX prefix of an instruction with destination `dst`, sources `src`, `ssrc` and `src2`
/// under the layout `ctx` (which must force a (E)VEX prefix kind).
pub fn vex(
    ctx: &GenAPI,
    dst: Option<Operand>,
    src: Option<Operand>,
    ssrc: Option<Operand>,
    src2: Option<Operand>,
    is_ymm: bool,
) -> (r: Option<Vec<u8>>)
    requires
        ctx.uses_vex_fields(),
        opt_wf(dst),
        opt_wf(src),
        opt_wf(ssrc),
        opt_wf(src2),
    ensures
        ({
            let (rm, reg, vv) = vex_operands(*ctx, dst, src, ssrc, src2);
            r matches Some(v) && v@ == spec_vex_bytes(*ctx, rm, reg, vv, is_ymm)
        }),
{
    let ops = ctx.get_ord_oprs(dst, src, ssrc);
    let mut modrm_rm = ops[0];
    let mut modrm_reg = ops[1];
    let mut vex_opr = ops[2];
    if modrm_rm.is_none() && modrm_reg.is_none() && vex_opr.is_none() {
        modrm_reg = src2;
        modrm_rm = dst;
        vex_opr = src;
    }
    let vvvv = gen_vex4v(&vex_opr);
    let pp = ctx.get_pp().unwrap();
    let map_select = ctx.get_map_select().unwrap();
    let vex_we = ctx.get_vex_we().unwrap();
    let tmp: u8 = if is_ymm {
        1
    } else {
        0
    };
    let vlength: u8 = match ctx.get_vex_vlength() {
        Some(mg) => match mg.get() {
            Some(ob) => if ob {
                1
            } else {
                0
            },
            None => tmp,
        },
        None => tmp,
    };
    let vex_b = needs_vex3(&modrm_rm);
    let vex_r = needs_vex3(&modrm_reg).0;
    let nr: u8 = if !vex_r {
        1
    } else {
        0
    };
    let we: u8 = if vex_we {
        1
    } else {
        0
    };
    let b1: u8 = if vex_b.1 {
        1
    } else {
        0
    };
    let b0: u8 = if vex_b.0 {
        1
    } else {
        0
    };
    if (vex_b.0 || vex_b.1) || (map_select == 0b00011 || map_select == 0b00010) || vex_we {
        let v = vec![
            THREE_BYTE_PFX,
            (nr << 7u8) | (andn(b1, 0b0000_0001) << 6u8) | ((andn(b0, 0b0000_0001) << 5u8)
                | map_select),
            (we << 7u8) | (vvvv << 3u8) | (vlength << 2u8) | pp,
        ];
        Some(v)
    } else {
        let v = vec![TWO_BYTE_PFX, (nr << 7u8) | (vvvv << 3u8) | (vlength << 2u8) | pp];
        Some(v)
    }
}

} // verus!
