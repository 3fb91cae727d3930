use vstd::prelude::*;

use crate::operand::{mem_wf, opt_wf, Mem, Operand};

verus! {

/// The SIB byte with fields `scale` (bits 6..7), `index` (bits 3..5) and `base` (bits 0..2).
pub open spec fn spec_sib_byte(scale: u8, index: u8, base: u8) -> u8 {
    (scale * 64 + index * 8 + base) as u8
}

/// The SIB byte a memory operand needs: for a SIB operand its scale code, its index and its
/// base (5 without base); none for RIP-relative memory; 0x24 (no index, base 4) for a
/// stack-pointer base; none otherwise.
pub open spec fn spec_gen_sib(m: Mem) -> Option<u8> {
    if m.sib {
        Some(
            spec_sib_byte(
                m.scale,
                m.index.unwrap().byte,
                match m.base {
                    Some(b) => b.byte,
                    None => 5,
                },
            ),
        )
    } else if m.riprel {
        None
    } else if m.base matches Some(b) && b.is_sp {
        Some(spec_sib_byte(0, 4, 4))
    } else {
        None
    }
}

/// A memory operand with a SIB byte gets one whose scale field is its scale code, whose index
/// field is the low three bits of its index register's number, and whose base field is those
/// of its base register's (101 without base); a stack-pointer base without SIB gets 0x24 (no
/// index, base 100); a RIP-relative operand gets none.
pub proof fn lemma_sib_fields(m: Mem)
    requires
        mem_wf(m),
        m.sib ==> m.index is Some,
    ensures
        m.sib ==> (spec_gen_sib(m) matches Some(v) && v >> 6u8 == m.scale && (v >> 3u8) & 7
            == m.index.unwrap().byte && v & 7 == match m.base {
            Some(b) => b.byte,
            None => 5u8,
        }),
        !m.sib && m.riprel ==> spec_gen_sib(m) is None,
        !m.sib && !m.riprel && (m.base matches Some(b) && b.is_sp) ==> spec_gen_sib(m) == Some(0x24u8),
{
    if m.sib {
        let sc = m.scale;
        let ix = m.index.unwrap().byte;
        let bs: u8 = match m.base {
            Some(b) => b.byte,
            None => 5,
        };
        let v = spec_sib_byte(sc, ix, bs);
        assert(v >> 6u8 == sc && (v >> 3u8) & 7 == ix && v & 7 == bs) by (bit_vector)
            requires
                sc < 4,
                ix < 8,
                bs < 8,
                v == (sc * 64 + ix * 8 + bs) as u8,
        ;
    }
}

/// Assembles a SIB byte from its three fields.
pub fn sib(scale: u8, index: u8, base: u8) -> (r: u8)
    requires
        scale < 4,
        index < 8,
        base < 8,
    ensures
        r == spec_sib_byte(scale, index, base),
        r >> 6u8 == scale,
        (r >> 3u8) & 7 == index,
        r & 7 == base,
{
    let r = (scale << 6u8) | (index << 3u8) | base;
    assert(r == spec_sib_byte(scale, index, base) && r >> 6u8 == scale && (r >> 3u8) & 7 == index
        && r & 7 == base) by (bit_vector)
        requires
            scale < 4,
            index < 8,
            base < 8,
            r == (scale << 6u8) | (index << 3u8) | base,
    ;
    r
}

/// The SIB byte a memory operand needs, if any.
pub fn gen_sib(mem: &Mem) -> (r: Option<u8>)
    requires
        mem_wf(*mem),
        mem.sib ==> mem.index.is_some(),
    ensures
        r == spec_gen_sib(*mem),
{
    if mem.sib {
        let base = match mem.base {
            Some(b) => b.byte,
            None => 0b101,
        };
        let index = mem.index.unwrap();
        Some(sib(mem.scale, index.byte, base))
    } else if mem.riprel {
        None
    } else if let Some(b) = mem.base {
        if b.is_sp {
            Some(sib(0, 4, 4))
        } else {
            None
        }
    } else {
        None
    }
}

/// The SIB byte an r/m operand needs: that of a memory operand, none otherwise.
pub fn gen_sib_ins(dst: &Option<Operand>) -> (r: Option<u8>)
    requires
        opt_wf(*dst),
        dst matches Some(Operand::Mem(m)) ==> (m.sib ==> m.index.is_some()),
    ensures
        r == match *dst {
            Some(Operand::Mem(m)) => spec_gen_sib(m),
            _ => None,
        },
{
    if let Some(Operand::Mem(mem)) = dst {
        return gen_sib(mem);
    }
    None
}

} // verus!
