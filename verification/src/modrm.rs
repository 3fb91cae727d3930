use vstd::prelude::*;

use crate::api::{modrm_tuple_reg, GenAPI, SET_MODRM};
use crate::operand::{opt_wf, Mem, Operand, Reg};

verus! {

/// The ModRM byte with fields `mod_` (bits 6..7), `reg` (bits 3..5) and `rm` (bits 0..2).
pub open spec fn spec_bmodrm(mod_: u8, reg: u8, rm: u8) -> u8 {
    (mod_ * 64 + reg * 8 + rm) as u8
}

/// ModRM.mod for an r/m operand: with a forced mod, the forced value; for memory with a
/// displacement, 0 when RIP-relative, 1 for a one-byte displacement and 2 otherwise; 0 for
/// memory without displacement and for a symbol; 3 (register direct) for anything else.
pub open spec fn modrm_mod_field(dst: Option<Operand>, ctx: GenAPI) -> u8 {
    if ctx.flags.has(SET_MODRM as int) {
        ctx.addt2 & 3
    } else {
        match dst {
            Some(Operand::Mem(m)) => match m.offset {
                Some((_, sz)) => if m.riprel {
                    0
                } else if sz == 1 {
                    1
                } else {
                    2
                },
                None => 0,
            },
            Some(Operand::Symbol(_)) => 0,
            _ => 3,
        }
    }
}

/// The three-bit register field of an operand: a register's own, a memory operand's base
/// (0 without base), 0 for anything else.
pub open spec fn spec_gen_rmreg(op: Option<Operand>) -> u8 {
    match op {
        Some(Operand::Register(r)) => r.byte,
        Some(Operand::Mem(m)) => match m.base {
            Some(b) => b.byte,
            None => 0,
        },
        _ => 0,
    }
}

/// ModRM.reg: the override of the layout if it has one, else the register field of the
/// reg operand.
pub open spec fn modrm_reg_field(src: Option<Operand>, ctx: GenAPI) -> u8 {
    match modrm_tuple_reg(ctx.modrm_ovr.data) {
        Some(r) => r,
        None => spec_gen_rmreg(src),
    }
}

/// ModRM.rm: 4 (SIB follows) for memory with SIB, 5 for RIP-relative memory and for a
/// dereferenced symbol, otherwise the register field of the r/m operand.
pub open spec fn modrm_rm_field(dst: Option<Operand>) -> u8 {
    match dst {
        Some(Operand::Mem(m)) => if m.sib {
            4
        } else if m.riprel {
            5
        } else {
            spec_gen_rmreg(dst)
        },
        Some(Operand::Symbol(deref)) => if deref {
            5
        } else {
            spec_gen_rmreg(dst)
        },
        _ => spec_gen_rmreg(dst),
    }
}

/// The ModRM byte for the r/m operand `dst` and the reg operand `src` under the layout `ctx`.
pub open spec fn spec_modrm(dst: Option<Operand>, src: Option<Operand>, ctx: GenAPI) -> u8 {
    spec_bmodrm(modrm_mod_field(dst, ctx), modrm_reg_field(src, ctx), modrm_rm_field(dst))
}

/// A RIP-relative memory operand (which takes no SIB byte), under a layout that does not force
/// ModRM.mod, is encoded with ModRM.mod 00 and ModRM.rm 101 whatever the size of its
/// displacement, ModRM.reg holding the reg operand's field.
pub proof fn lemma_riprel_modrm(m: Mem, src: Option<Operand>, ctx: GenAPI)
    requires
        m.riprel,
        !m.sib,
        !ctx.flags.has(SET_MODRM as int),
        opt_wf(src),
    ensures
        spec_modrm(Some(Operand::Mem(m)), src, ctx) >> 6u8 == 0,
        spec_modrm(Some(Operand::Mem(m)), src, ctx) & 7 == 5,
        (spec_modrm(Some(Operand::Mem(m)), src, ctx) >> 3u8) & 7 == modrm_reg_field(src, ctx),
{
    let reg = modrm_reg_field(src, ctx);
    let d = ctx.modrm_ovr.data;
    assert(((d & 0x38) >> 3u8) < 8) by (bit_vector);
    assert(reg < 8);
    let mo = modrm_mod_field(Some(Operand::Mem(m)), ctx);
    assert(mo == 0);
    let v = spec_modrm(Some(Operand::Mem(m)), src, ctx);
    assert(v >> 6u8 == 0 && v & 7 == 5 && (v >> 3u8) & 7 == reg) by (bit_vector)
        requires
            reg < 8,
            v == (0 * 64 + reg * 8 + 5) as u8,
    ;
}

/// The ModRM byte's fields read back: mod, then reg, then rm, under any layout.
proof fn lemma_modrm_fields(dst: Option<Operand>, src: Option<Operand>, ctx: GenAPI)
    requires
        opt_wf(dst),
        opt_wf(src),
        modrm_mod_field(dst, ctx) < 4,
    ensures
        spec_modrm(dst, src, ctx) >> 6u8 == modrm_mod_field(dst, ctx),
        (spec_modrm(dst, src, ctx) >> 3u8) & 7 == modrm_reg_field(src, ctx),
        spec_modrm(dst, src, ctx) & 7 == modrm_rm_field(dst),
{
    let reg = modrm_reg_field(src, ctx);
    let d = ctx.modrm_ovr.data;
    assert(((d & 0x38) >> 3u8) < 8) by (bit_vector);
    let mo = modrm_mod_field(dst, ctx);
    let rm = modrm_rm_field(dst);
    assert(rm < 8 && reg < 8);
    let v = spec_modrm(dst, src, ctx);
    assert(v >> 6u8 == mo && v & 7 == rm && (v >> 3u8) & 7 == reg) by (bit_vector)
        requires
            mo < 4,
            reg < 8,
            rm < 8,
            v == (mo * 64 + reg * 8 + rm) as u8,
    ;
}

/// A register-direct r/m operand (no forced mod) is encoded with ModRM.mod 11 and the
/// register's low three bits in ModRM.rm.
pub proof fn lemma_modrm_register_form(r: Reg, src: Option<Operand>, ctx: GenAPI)
    requires
        !ctx.flags.has(SET_MODRM as int),
        r.byte < 8,
        opt_wf(src),
    ensures
        spec_modrm(Some(Operand::Register(r)), src, ctx) >> 6u8 == 3,
        spec_modrm(Some(Operand::Register(r)), src, ctx) & 7 == r.byte,
        (spec_modrm(Some(Operand::Register(r)), src, ctx) >> 3u8) & 7 == modrm_reg_field(src, ctx),
{
    lemma_modrm_fields(Some(Operand::Register(r)), src, ctx);
}

/// A memory operand without SIB that is not RIP-relative (no forced mod) is encoded with
/// ModRM.mod 00 without displacement, 01 with a one-byte displacement and 10 with a
/// four-byte one, and its base register's low three bits in ModRM.rm (000 without base).
pub proof fn lemma_modrm_memory_form(m: Mem, src: Option<Operand>, ctx: GenAPI)
    requires
        !ctx.flags.has(SET_MODRM as int),
        !m.sib,
        !m.riprel,
        opt_wf(Some(Operand::Mem(m))),
        opt_wf(src),
    ensures
        spec_modrm(Some(Operand::Mem(m)), src, ctx) >> 6u8 == match m.offset {
            None => 0u8,
            Some((_, sz)) => if sz == 1 {
                1u8
            } else {
                2u8
            },
        },
        spec_modrm(Some(Operand::Mem(m)), src, ctx) & 7 == match m.base {
            Some(b) => b.byte,
            None => 0u8,
        },
        (spec_modrm(Some(Operand::Mem(m)), src, ctx) >> 3u8) & 7 == modrm_reg_field(src, ctx),
{
    lemma_modrm_fields(Some(Operand::Mem(m)), src, ctx);
}

/// Assembles a ModRM byte from its three fields.
pub fn bmodrm(mod_: u8, reg: u8, rm: u8) -> (r: u8)
    requires
        mod_ < 4,
        reg < 8,
        rm < 8,
    ensures
        r == spec_bmodrm(mod_, reg, rm),
        r >> 6u8 == mod_,
        (r >> 3u8) & 7 == reg,
        r & 7 == rm,
{
    let m6 = mod_ << 6u8;
    let r3 = reg << 3u8;
    assert(m6 == mod_ * 64 && r3 == reg * 8) by (bit_vector)
        requires
            mod_ < 4,
            reg < 8,
            m6 == mod_ << 6u8,
            r3 == reg << 3u8,
    ;
    let r = m6 + r3 + rm;
    assert(r == spec_bmodrm(mod_, reg, rm) && r >> 6u8 == mod_ && (r >> 3u8) & 7 == reg && r & 7
        == rm) by (bit_vector)
        requires
            mod_ < 4,
            reg < 8,
            rm < 8,
            r == mod_ * 64 + reg * 8 + rm,
    ;
    r
}

/// The three-bit register field of an operand.
pub fn gen_rmreg(op: &Option<Operand>) -> (r: u8)
    ensures
        r == spec_gen_rmreg(*op),
{
    match op {
        Some(Operand::Register(r)) => r.byte,
        Some(Operand::Mem(m)) => {
            if let Some(b) = m.base {
                b.byte
            } else {
                0
            }
        },
        _ => 0,
    }
}

/// The ModRM byte for the r/m operand `dst` and the reg operand `src` under the layout `ctx`.
pub fn modrm(dst: &Option<Operand>, src: &Option<Operand>, ctx: &GenAPI) -> (r: u8)
    requires
        opt_wf(*dst),
        opt_wf(*src),
    ensures
        r == spec_modrm(*dst, *src, *ctx),
        r >> 6u8 == modrm_mod_field(*dst, *ctx),
        (r >> 3u8) & 7 == modrm_reg_field(*src, *ctx),
        r & 7 == modrm_rm_field(*dst),
{
    let reg_ovr = ctx.get_modrm().deserialize();
    let mut mod_: u8 = match dst {
        Some(Operand::Mem(m)) => match m.offset {
            Some((_, sz)) => if m.riprel {
                0b00
            } else if sz == 1 {
                0b01
            } else {
                0b10
            },
            None => 0b00,
        },
        Some(Operand::Symbol(_)) => 0b00,
        _ => 0b11,
    };
    if ctx.flags.at(SET_MODRM) {
        mod_ = ctx.get_addt2() & 0b11;
    }
    proof {
        let a = ctx.addt2;
        assert(a & 3 < 4) by (bit_vector);
        let d = ctx.modrm_ovr.data;
        assert((d & 0x38) >> 3u8 < 8) by (bit_vector);
    }
    let reg = match reg_ovr {
        Some(r) => r,
        None => gen_rmreg(src),
    };
    let rm = match dst {
        Some(Operand::Mem(m)) => if m.sib {
            0b100
        } else if m.riprel {
            0b101
        } else {
            gen_rmreg(dst)
        },
        Some(Operand::Symbol(deref)) => if *deref {
            0b101
        } else {
            gen_rmreg(dst)
        },
        _ => gen_rmreg(dst),
    };
    bmodrm(mod_, reg, rm)
}

} // verus!
