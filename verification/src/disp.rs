use vstd::prelude::*;

use crate::operand::{Mem, Operand};

verus! {

/// The displacement bytes a memory operand needs under `bits`-bit addressing: the single byte
/// of a one-byte displacement (not RIP-relative); the first two bytes in 16-bit mode; all four
/// otherwise; and, without displacement, four (two in 16-bit mode) zero bytes for a base-pointer
/// base with an index; none otherwise.
pub open spec fn spec_gen_disp(m: Mem, bits: u8) -> Option<Seq<u8>> {
    match m.offset {
        Some((offs, sz)) => if sz == 1 && !m.riprel {
            Some(seq![offs[0]])
        } else if bits == 16 {
            Some(seq![offs[0], offs[1]])
        } else {
            Some(offs@)
        },
        None => if m.base matches Some(b) && b.is_bp && m.index.is_some() {
            if bits != 16 {
                Some(seq![0u8, 0u8, 0u8, 0u8])
            } else {
                Some(seq![0u8, 0u8])
            }
        } else {
            None
        },
    }
}

/// The displacement bytes a memory operand needs, if any.
pub fn gen_disp(mem: &Mem, bits: u8) -> (r: Option<Vec<u8>>)
    ensures
        r matches Some(v) ==> spec_gen_disp(*mem, bits) == Some(v@),
        r is None <==> spec_gen_disp(*mem, bits) is None,
{
    match mem.offset {
        Some((offs, sz)) => {
            if sz == 1 && !mem.riprel {
                let v = vec![offs[0]];
                assert(v@ == seq![offs[0]]);
                Some(v)
            } else if bits == 16 {
                let v = vec![offs[0], offs[1]];
                assert(v@ == seq![offs[0], offs[1]]);
                Some(v)
            } else {
                let v = vec![offs[0], offs[1], offs[2], offs[3]];
                assert(v@ =~= offs@);
                Some(v)
            }
        },
        None => {
            let bp_with_index = match mem.base {
                Some(b) => b.is_bp && mem.index.is_some(),
                None => false,
            };
            if bp_with_index {
                if bits != 16 {
                    let v = vec![0u8, 0u8, 0u8, 0u8];
                    assert(v@ == seq![0u8, 0u8, 0u8, 0u8]);
                    Some(v)
                } else {
                    let v = vec![0u8, 0u8];
                    assert(v@ == seq![0u8, 0u8]);
                    Some(v)
                }
            } else {
                None
            }
        },
    }
}

/// The displacement bytes an r/m operand needs: those of a memory operand, none otherwise.
pub fn gen_disp_ins(dst: &Option<Operand>, bits: u8) -> (r: Option<Vec<u8>>)
    ensures
        r matches Some(v) ==> (*dst matches Some(Operand::Mem(m)) && spec_gen_disp(m, bits) == Some(
            v@,
        )),
        r is None <==> !(*dst matches Some(Operand::Mem(m)) && spec_gen_disp(m, bits) is Some),
{
    if let Some(Operand::Mem(mem)) = dst {
        return gen_disp(mem, bits);
    }
    None
}

} // verus!
