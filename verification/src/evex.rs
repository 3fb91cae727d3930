use vstd::prelude::*;

use crate::api::{spec_ord_oprs, GenAPI};
use crate::operand::{ebits, opt_wf, spec_ebits, Operand};
use crate::size::Size;
use crate::vex::{andn, bit, spec_gen_vex4v};

verus! {

/// The EVEX escape byte.
pub const EVEX: u8 = 0x62;

/// Opcode maps.
pub const MAP0F: u8 = 0b000;
pub const MAP38: u8 = 0b010;
pub const MAP3A: u8 = 0b011;
pub const MAP4: u8 = 0b100;
pub const MAP5: u8 = 0b101;
pub const MAP6: u8 = 0b110;

/// The EVEX-related facts of an instruction: zeroing, suppress-all-exceptions, broadcast,
/// the opmask register, the embedded rounding mode and the instruction's size.
#[derive(Clone, Copy, Debug)]
pub struct EvexFacts {
    pub z: Option<bool>,
    pub sae: Option<bool>,
    pub bcst: Option<bool>,
    pub mask: Option<u8>,
    pub er: Option<u8>,
    pub size: Size,
}

/// The size of a memory r/m operand, Unknown for anything else.
pub open spec fn rm_mem_size(rm: Option<Operand>) -> Size {
    match rm {
        Some(Operand::Mem(m)) => m.size,
        _ => Size::Unknown,
    }
}

/// EVEX.W: set when the layout sets W/E, else for a quadword broadcast.
pub open spec fn evex_we_bit(ctx: GenAPI, rm: Option<Operand>, f: EvexFacts) -> bool {
    if ctx.spec_get_vex_we() == Some(true) {
        true
    } else if f.bcst == Some(true) {
        rm_mem_size(rm) == Size::Qword
    } else {
        false
    }
}

/// The last EVEX byte: z, L'L (or the rounding mode), b, V' and aaa.
pub open spec fn evex_byte3(vvvv: Option<Operand>, f: EvexFacts) -> u8 {
    let vd = spec_ebits(vvvv).0.0;
    let b = f.sae.unwrap_or(false) || f.bcst == Some(true);
    let base = (bit(f.z.unwrap_or(false)) << 7u8) | (bit(b) << 4u8) | (bit(!vd) << 3u8)
        | f.mask.unwrap_or(0);
    match f.er {
        Some(er) => (base | 0x10) | (er << 5u8),
        None => base | ((bit(f.size == Size::Zword) << 6u8) | (bit(f.size == Size::Yword) << 5u8)),
    }
}

/// The four EVEX bytes for the operands placed by the layout's operand order.
pub open spec fn spec_evex_bytes(
    ctx: GenAPI,
    rm: Option<Operand>,
    reg: Option<Operand>,
    vvvv: Option<Operand>,
    f: EvexFacts,
) -> Seq<u8> {
    let (r0, r1) = spec_ebits(reg).0;
    let (b0, b) = spec_ebits(rm).0;
    let x1 = spec_ebits(rm).1.1 || b0;
    seq![
        EVEX,
        (bit(!r1) << 7u8) | (bit(!x1) << 6u8) | (bit(!b) << 5u8) | (bit(!r0) << 4u8) | (
        ctx.spec_get_map_select().unwrap() & 7),
        (bit(evex_we_bit(ctx, rm, f)) << 7u8) | (spec_gen_vex4v(vvvv) << 3u8) | 4u8
            | ctx.spec_get_pp().unwrap(),
        evex_byte3(vvvv, f),
    ]
}

/// The EVEX.vvvv field of an operand: the one's complement of a register's four-bit number,
/// 0b1111 for anything else.
pub fn gen_evex4v(op: &Option<Operand>) -> (r: u8)
    requires
        opt_wf(*op),
    ensures
        r == spec_gen_vex4v(*op),
        r < 16,
{
    if let Some(Operand::Register(r)) = op {
        let e: u8 = if r.ext3 {
            1
        } else {
            0
        };
        let b = r.byte;
        let v = andn((e << 3u8) | b, 0b0000_1111);
        assert(v == (15 - (((if e == 1 { 8u8 } else { 0u8 }) + b) as u8)) as u8 && v < 16) by (bit_vector)
            requires
                e < 2,
                b < 8,
                v == !((e << 3u8) | b) & 0b0000_1111,
        ;
        v
    } else {
        0b1111
    }
}

/// The EVEX prefix of an instruction with destination `dst` and sources `src` and `ssrc`
/// under the layout `ctx` (which must force a (E)VEX prefix kind).
pub fn evex(
    ctx: &GenAPI,
    dst: Option<Operand>,
    src: Option<Operand>,
    ssrc: Option<Operand>,
    f: &EvexFacts,
) -> (r: [u8; 4])
    requires
        ctx.uses_vex_fields(),
        opt_wf(dst),
        opt_wf(src),
        opt_wf(ssrc),
    ensures
        ({
            let (rm, reg, vv) = spec_ord_oprs(ctx.ord.ord, dst, src, ssrc);
            r@ == spec_evex_bytes(*ctx, rm, reg, vv, *f)
        }),
{
    let ops = ctx.get_ord_oprs(dst, src, ssrc);
    let modrm_rm = ops[0];
    let modrm_reg = ops[1];
    let evex_vvvv = ops[2];
    let ((evex_r0, evex_r1), _) = ebits(&modrm_reg);
    let ((evex_b0, evex_b), (_, x1)) = ebits(&modrm_rm);
    let evex_x1 = x1 || evex_b0;
    let ((evex_vd, _), _) = ebits(&evex_vvvv);
    let bcst = f.bcst == Some(true);
    let sz = match modrm_rm {
        Some(Operand::Mem(m)) => m.size,
        _ => Size::Unknown,
    };
    let z: u8 = if f.z.unwrap_or(false) {
        1
    } else {
        0
    };
    let bb: u8 = if f.sae.unwrap_or(false) || bcst {
        1
    } else {
        0
    };
    let nvd: u8 = if !evex_vd {
        1
    } else {
        0
    };
    let mut evex3: u8 = (z << 7u8) | (bb << 4u8) | (nvd << 3u8) | f.mask.unwrap_or(0);
    match f.er {
        Some(er) => {
            evex3 = evex3 | 0x10;
            evex3 = evex3 | (er << 5u8);
        },
        None => {
            let zw: u8 = if f.size == Size::Zword {
                1
            } else {
                0
            };
            let yw: u8 = if f.size == Size::Yword {
                1
            } else {
                0
            };
            evex3 = evex3 | ((zw << 6u8) | (yw << 5u8));
        },
    }
    let evex_we = if ctx.get_vex_we() == Some(true) {
        true
    } else if bcst {
        sz == Size::Qword
    } else {
        false
    };
    let nr1: u8 = if !evex_r1 {
        1
    } else {
        0
    };
    let nx1: u8 = if !evex_x1 {
        1
    } else {
        0
    };
    let nb: u8 = if !evex_b {
        1
    } else {
        0
    };
    let nr0: u8 = if !evex_r0 {
        1
    } else {
        0
    };
    let we: u8 = if evex_we {
        1
    } else {
        0
    };
    let ms = ctx.get_map_select().unwrap();
    let pp = ctx.get_pp().unwrap();
    let v4 = gen_evex4v(&evex_vvvv);
    let r = [
        EVEX,
        (nr1 << 7u8) | (nx1 << 6u8) | (nb << 5u8) | (nr0 << 4u8) | (ms & 0b111),
        (we << 7u8) | (v4 << 3u8) | (1u8 << 2u8) | pp,
        evex3,
    ];
    proof {
        assert(1u8 << 2u8 == 4u8) by (bit_vector);
        assert(evex3 == evex_byte3(evex_vvvv, *f));
    }
    assert(r@ =~= spec_evex_bytes(*ctx, modrm_rm, modrm_reg, evex_vvvv, *f));
    r
}

} // verus!
