use vstd::prelude::*;

use crate::mnemonic::Mnemonic;

verus! {

/// Layout programs (see `run_prog`) of part 0 of the mnemonics whose layout branches on
/// their operands or on the instruction's variant.
#[verifier::opaque]
pub open spec fn spec_branching_0(m: Mnemonic) -> Option<Seq<u8>> {
    match m {
        Mnemonic::MOVSS => Some(seq![2u8, 1, 0, 0, 4, 6, 243, 18, 1, 10, 1, 2, 15, 17, 3, 2, 0, 1, 19, 8, 1, 2, 15, 16, 3, 2, 1, 0]),
        Mnemonic::MOVAPS => Some(seq![2u8, 1, 0, 0, 4, 18, 1, 10, 1, 2, 15, 41, 3, 2, 0, 1, 19, 8, 1, 2, 15, 40, 3, 2, 1, 0]),
        Mnemonic::MOVUPS => Some(seq![2u8, 1, 0, 0, 4, 18, 1, 10, 1, 2, 15, 17, 3, 2, 0, 1, 19, 8, 1, 2, 15, 16, 3, 2, 1, 0]),
        Mnemonic::MOVLPS => Some(seq![2u8, 1, 0, 0, 4, 18, 1, 10, 1, 2, 15, 19, 3, 2, 0, 1, 19, 8, 1, 2, 15, 18, 3, 2, 1, 0]),
        Mnemonic::MOVHPS => Some(seq![2u8, 1, 0, 0, 4, 18, 1, 10, 1, 2, 15, 23, 3, 2, 0, 1, 19, 8, 1, 2, 15, 22, 3, 2, 1, 0]),
        Mnemonic::MOVAPD => Some(seq![2u8, 1, 0, 0, 6, 102, 4, 18, 1, 10, 1, 2, 15, 41, 3, 2, 0, 1, 19, 8, 1, 2, 15, 40, 3, 2, 1, 0]),
        Mnemonic::MOVUPD => Some(seq![2u8, 1, 0, 0, 6, 102, 4, 18, 1, 10, 1, 2, 15, 17, 3, 2, 0, 1, 19, 8, 1, 2, 15, 16, 3, 2, 1, 0]),
        Mnemonic::MOVLPD => Some(seq![2u8, 1, 0, 0, 6, 102, 4, 18, 1, 10, 1, 2, 15, 19, 3, 2, 0, 1, 19, 8, 1, 2, 15, 18, 3, 2, 1, 0]),
        Mnemonic::MOVHPD => Some(seq![2u8, 1, 0, 0, 6, 102, 4, 18, 1, 10, 1, 2, 15, 23, 3, 2, 0, 1, 19, 8, 1, 2, 15, 22, 3, 2, 1, 0]),
        Mnemonic::MOVSD => Some(seq![2u8, 1, 0, 0, 6, 242, 4, 18, 1, 10, 1, 2, 15, 17, 3, 2, 0, 1, 19, 8, 1, 2, 15, 16, 3, 2, 1, 0]),
        Mnemonic::MOVDQA => Some(seq![2u8, 1, 0, 0, 6, 102, 4, 18, 1, 10, 1, 2, 15, 127, 3, 2, 0, 1, 19, 8, 1, 2, 15, 111, 3, 2, 1, 0]),
        Mnemonic::MOVMSKPD => Some(seq![1u8, 2, 15, 80, 6, 102, 2, 1, 0, 0, 4, 3, 2, 1, 0]),
        Mnemonic::PADDB => Some(seq![1u8, 2, 15, 252, 2, 1, 0, 0, 3, 2, 1, 0, 18, 0, 3, 6, 102, 4]),
        Mnemonic::PADDW => Some(seq![1u8, 2, 15, 253, 2, 1, 0, 0, 3, 2, 1, 0, 18, 0, 3, 6, 102, 4]),
        Mnemonic::PADDD => Some(seq![1u8, 2, 15, 254, 2, 1, 0, 0, 3, 2, 1, 0, 18, 0, 3, 6, 102, 4]),
        Mnemonic::PADDQ => Some(seq![1u8, 2, 15, 212, 2, 1, 0, 0, 3, 2, 1, 0, 18, 0, 3, 6, 102, 4]),
        Mnemonic::PADDUSB => Some(seq![1u8, 2, 15, 220, 2, 1, 0, 0, 3, 2, 1, 0, 18, 0, 3, 6, 102, 4]),
        Mnemonic::PADDUSW => Some(seq![1u8, 2, 15, 221, 2, 1, 0, 0, 3, 2, 1, 0, 18, 0, 3, 6, 102, 4]),
        Mnemonic::PADDSB => Some(seq![1u8, 2, 15, 236, 2, 1, 0, 0, 3, 2, 1, 0, 18, 0, 3, 6, 102, 4]),
        Mnemonic::PADDSW => Some(seq![1u8, 2, 15, 237, 2, 1, 0, 0, 3, 2, 1, 0, 18, 0, 3, 6, 102, 4]),
        Mnemonic::PSUBUSB => Some(seq![1u8, 2, 15, 216, 2, 1, 0, 0, 3, 2, 1, 0, 18, 0, 3, 6, 102, 4]),
        Mnemonic::PSUBUSW => Some(seq![1u8, 2, 15, 217, 2, 1, 0, 0, 3, 2, 1, 0, 18, 0, 3, 6, 102, 4]),
        Mnemonic::PSUBB => Some(seq![1u8, 2, 15, 248, 2, 1, 0, 0, 3, 2, 1, 0, 18, 0, 3, 6, 102, 4]),
        Mnemonic::PSUBW => Some(seq![1u8, 2, 15, 249, 2, 1, 0, 0, 3, 2, 1, 0, 18, 0, 3, 6, 102, 4]),
        Mnemonic::PSUBD => Some(seq![1u8, 2, 15, 250, 2, 1, 0, 0, 3, 2, 1, 0, 18, 0, 3, 6, 102, 4]),
        Mnemonic::PSUBQ => Some(seq![1u8, 2, 15, 251, 2, 1, 0, 0, 3, 2, 1, 0, 18, 0, 3, 6, 102, 4]),
        Mnemonic::PSUBSB => Some(seq![1u8, 2, 15, 232, 2, 1, 0, 0, 3, 2, 1, 0, 18, 0, 3, 6, 102, 4]),
        Mnemonic::PSUBSW => Some(seq![1u8, 2, 15, 233, 2, 1, 0, 0, 3, 2, 1, 0, 18, 0, 3, 6, 102, 4]),
        Mnemonic::PMULLW => Some(seq![1u8, 2, 15, 213, 2, 1, 0, 0, 3, 2, 1, 0, 18, 0, 3, 6, 102, 4]),
        Mnemonic::PMULHW => Some(seq![1u8, 2, 15, 229, 2, 1, 0, 0, 3, 2, 1, 0, 18, 0, 3, 6, 102, 4]),
        Mnemonic::PMULUDQ => Some(seq![1u8, 2, 15, 244, 2, 1, 0, 0, 3, 2, 1, 0, 18, 0, 3, 6, 102, 4]),
        Mnemonic::PMADDWD => Some(seq![1u8, 2, 15, 245, 2, 1, 0, 0, 3, 2, 1, 0, 18, 0, 3, 6, 102, 4]),
        Mnemonic::PCMPEQB => Some(seq![1u8, 2, 15, 116, 2, 1, 0, 0, 3, 2, 1, 0, 18, 0, 3, 6, 102, 4]),
        Mnemonic::PCMPEQW => Some(seq![1u8, 2, 15, 117, 2, 1, 0, 0, 3, 2, 1, 0, 18, 0, 3, 6, 102, 4]),
        Mnemonic::PCMPEQD => Some(seq![1u8, 2, 15, 118, 2, 1, 0, 0, 3, 2, 1, 0, 18, 0, 3, 6, 102, 4]),
        Mnemonic::PCMPGTB => Some(seq![1u8, 2, 15, 100, 2, 1, 0, 0, 3, 2, 1, 0, 18, 0, 3, 6, 102, 4]),
        Mnemonic::PCMPGTW => Some(seq![1u8, 2, 15, 101, 2, 1, 0, 0, 3, 2, 1, 0, 18, 0, 3, 6, 102, 4]),
        Mnemonic::PCMPGTD => Some(seq![1u8, 2, 15, 102, 2, 1, 0, 0, 3, 2, 1, 0, 18, 0, 3, 6, 102, 4]),
        Mnemonic::PACKUSWB => Some(seq![1u8, 2, 15, 103, 2, 1, 0, 0, 3, 2, 1, 0, 18, 0, 3, 6, 102, 4]),
        Mnemonic::PACKSSWB => Some(seq![1u8, 2, 15, 99, 2, 1, 0, 0, 3, 2, 1, 0, 18, 0, 3, 6, 102, 4]),
        Mnemonic::PACKSSDW => Some(seq![1u8, 2, 15, 107, 2, 1, 0, 0, 3, 2, 1, 0, 18, 0, 3, 6, 102, 4]),
        Mnemonic::PUNPCKLBW => Some(seq![1u8, 2, 15, 96, 2, 1, 0, 0, 3, 2, 1, 0, 18, 0, 3, 6, 102, 4]),
        Mnemonic::PUNPCKLWD => Some(seq![1u8, 2, 15, 97, 2, 1, 0, 0, 3, 2, 1, 0, 18, 0, 3, 6, 102, 4]),
        Mnemonic::PUNPCKLDQ => Some(seq![1u8, 2, 15, 98, 2, 1, 0, 0, 3, 2, 1, 0, 18, 0, 3, 6, 102, 4]),
        Mnemonic::PUNPCKHBW => Some(seq![1u8, 2, 15, 104, 2, 1, 0, 0, 3, 2, 1, 0, 18, 0, 3, 6, 102, 4]),
        Mnemonic::PUNPCKHWD => Some(seq![1u8, 2, 15, 105, 2, 1, 0, 0, 3, 2, 1, 0, 18, 0, 3, 6, 102, 4]),
        Mnemonic::PUNPCKHDQ => Some(seq![1u8, 2, 15, 106, 2, 1, 0, 0, 3, 2, 1, 0, 18, 0, 3, 6, 102, 4]),
        Mnemonic::PSLLQ => Some(seq![18u8, 2, 13, 1, 2, 15, 115, 5, 1, 1, 2, 1, 1, 6, 19, 12, 1, 2, 15, 243, 3, 2, 1, 0, 2, 1, 0, 0, 18, 0, 3, 6, 102, 4]),
        Mnemonic::PSLLD => Some(seq![18u8, 2, 13, 1, 2, 15, 114, 5, 1, 1, 2, 1, 1, 6, 19, 12, 1, 2, 15, 242, 3, 2, 1, 0, 2, 1, 0, 0, 18, 0, 3, 6, 102, 4]),
        Mnemonic::PSLLW => Some(seq![18u8, 2, 13, 1, 2, 15, 113, 5, 1, 1, 2, 1, 1, 6, 19, 12, 1, 2, 15, 241, 3, 2, 1, 0, 2, 1, 0, 0, 18, 0, 3, 6, 102, 4]),
        Mnemonic::PSRLW => Some(seq![18u8, 2, 13, 1, 2, 15, 113, 5, 1, 1, 2, 1, 1, 2, 19, 12, 1, 2, 15, 209, 3, 2, 1, 0, 2, 1, 0, 0, 18, 0, 3, 6, 102, 4]),
        Mnemonic::PSRLD => Some(seq![18u8, 2, 13, 1, 2, 15, 114, 5, 1, 1, 2, 1, 1, 2, 19, 12, 1, 2, 15, 210, 3, 2, 1, 0, 2, 1, 0, 0, 18, 0, 3, 6, 102, 4]),
        Mnemonic::PSRLQ => Some(seq![18u8, 2, 13, 1, 2, 15, 115, 5, 1, 1, 2, 1, 1, 2, 19, 12, 1, 2, 15, 211, 3, 2, 1, 0, 2, 1, 0, 0, 18, 0, 3, 6, 102, 4]),
        Mnemonic::PSRAW => Some(seq![18u8, 2, 13, 1, 2, 15, 113, 5, 1, 1, 2, 1, 1, 4, 19, 12, 1, 2, 15, 225, 3, 2, 1, 0, 2, 1, 0, 0, 18, 0, 3, 6, 102, 4]),
        Mnemonic::PSRAD => Some(seq![18u8, 2, 13, 1, 2, 15, 114, 5, 1, 1, 2, 1, 1, 4, 19, 12, 1, 2, 15, 226, 3, 2, 1, 0, 2, 1, 0, 0, 18, 0, 3, 6, 102, 4]),
        Mnemonic::POR => Some(seq![1u8, 2, 15, 235, 2, 1, 0, 0, 3, 2, 1, 0, 18, 0, 3, 6, 102, 4]),
        Mnemonic::PAND => Some(seq![1u8, 2, 15, 219, 2, 1, 0, 0, 3, 2, 1, 0, 18, 0, 3, 6, 102, 4]),
        Mnemonic::PANDN => Some(seq![1u8, 2, 15, 223, 2, 1, 0, 0, 3, 2, 1, 0, 18, 0, 3, 6, 102, 4]),
        Mnemonic::PXOR => Some(seq![1u8, 2, 15, 239, 2, 1, 0, 0, 3, 2, 1, 0, 18, 0, 3, 6, 102, 4]),
        Mnemonic::PABSB => Some(seq![1u8, 3, 15, 56, 28, 2, 1, 0, 0, 3, 2, 1, 0, 18, 0, 3, 6, 102, 4]),
        _ => None,
    }
}

/// The layout program of a mnemonic of part 0.
fn branching_0(m: Mnemonic) -> (r: Option<Vec<u8>>)
    ensures
        match spec_branching_0(m) {
            Some(p) => r matches Some(v) && v@ == p,
            None => r is None,
        },
{
    proof {
        reveal(spec_branching_0);
    }
    match m {
        Mnemonic::MOVSS => Some(vec![2u8, 1, 0, 0, 4, 6, 243, 18, 1, 10, 1, 2, 15, 17, 3, 2, 0, 1, 19, 8, 1, 2, 15, 16, 3, 2, 1, 0]),
        Mnemonic::MOVAPS => Some(vec![2u8, 1, 0, 0, 4, 18, 1, 10, 1, 2, 15, 41, 3, 2, 0, 1, 19, 8, 1, 2, 15, 40, 3, 2, 1, 0]),
        Mnemonic::MOVUPS => Some(vec![2u8, 1, 0, 0, 4, 18, 1, 10, 1, 2, 15, 17, 3, 2, 0, 1, 19, 8, 1, 2, 15, 16, 3, 2, 1, 0]),
        Mnemonic::MOVLPS => Some(vec![2u8, 1, 0, 0, 4, 18, 1, 10, 1, 2, 15, 19, 3, 2, 0, 1, 19, 8, 1, 2, 15, 18, 3, 2, 1, 0]),
        Mnemonic::MOVHPS => Some(vec![2u8, 1, 0, 0, 4, 18, 1, 10, 1, 2, 15, 23, 3, 2, 0, 1, 19, 8, 1, 2, 15, 22, 3, 2, 1, 0]),
        Mnemonic::MOVAPD => Some(vec![2u8, 1, 0, 0, 6, 102, 4, 18, 1, 10, 1, 2, 15, 41, 3, 2, 0, 1, 19, 8, 1, 2, 15, 40, 3, 2, 1, 0]),
        Mnemonic::MOVUPD => Some(vec![2u8, 1, 0, 0, 6, 102, 4, 18, 1, 10, 1, 2, 15, 17, 3, 2, 0, 1, 19, 8, 1, 2, 15, 16, 3, 2, 1, 0]),
        Mnemonic::MOVLPD => Some(vec![2u8, 1, 0, 0, 6, 102, 4, 18, 1, 10, 1, 2, 15, 19, 3, 2, 0, 1, 19, 8, 1, 2, 15, 18, 3, 2, 1, 0]),
        Mnemonic::MOVHPD => Some(vec![2u8, 1, 0, 0, 6, 102, 4, 18, 1, 10, 1, 2, 15, 23, 3, 2, 0, 1, 19, 8, 1, 2, 15, 22, 3, 2, 1, 0]),
        Mnemonic::MOVSD => Some(vec![2u8, 1, 0, 0, 6, 242, 4, 18, 1, 10, 1, 2, 15, 17, 3, 2, 0, 1, 19, 8, 1, 2, 15, 16, 3, 2, 1, 0]),
        Mnemonic::MOVDQA => Some(vec![2u8, 1, 0, 0, 6, 102, 4, 18, 1, 10, 1, 2, 15, 127, 3, 2, 0, 1, 19, 8, 1, 2, 15, 111, 3, 2, 1, 0]),
        Mnemonic::MOVMSKPD => Some(vec![1u8, 2, 15, 80, 6, 102, 2, 1, 0, 0, 4, 3, 2, 1, 0]),
        Mnemonic::PADDB => Some(vec![1u8, 2, 15, 252, 2, 1, 0, 0, 3, 2, 1, 0, 18, 0, 3, 6, 102, 4]),
        Mnemonic::PADDW => Some(vec![1u8, 2, 15, 253, 2, 1, 0, 0, 3, 2, 1, 0, 18, 0, 3, 6, 102, 4]),
        Mnemonic::PADDD => Some(vec![1u8, 2, 15, 254, 2, 1, 0, 0, 3, 2, 1, 0, 18, 0, 3, 6, 102, 4]),
        Mnemonic::PADDQ => Some(vec![1u8, 2, 15, 212, 2, 1, 0, 0, 3, 2, 1, 0, 18, 0, 3, 6, 102, 4]),
        Mnemonic::PADDUSB => Some(vec![1u8, 2, 15, 220, 2, 1, 0, 0, 3, 2, 1, 0, 18, 0, 3, 6, 102, 4]),
        Mnemonic::PADDUSW => Some(vec![1u8, 2, 15, 221, 2, 1, 0, 0, 3, 2, 1, 0, 18, 0, 3, 6, 102, 4]),
        Mnemonic::PADDSB => Some(vec![1u8, 2, 15, 236, 2, 1, 0, 0, 3, 2, 1, 0, 18, 0, 3, 6, 102, 4]),
        Mnemonic::PADDSW => Some(vec![1u8, 2, 15, 237, 2, 1, 0, 0, 3, 2, 1, 0, 18, 0, 3, 6, 102, 4]),
        Mnemonic::PSUBUSB => Some(vec![1u8, 2, 15, 216, 2, 1, 0, 0, 3, 2, 1, 0, 18, 0, 3, 6, 102, 4]),
        Mnemonic::PSUBUSW => Some(vec![1u8, 2, 15, 217, 2, 1, 0, 0, 3, 2, 1, 0, 18, 0, 3, 6, 102, 4]),
        Mnemonic::PSUBB => Some(vec![1u8, 2, 15, 248, 2, 1, 0, 0, 3, 2, 1, 0, 18, 0, 3, 6, 102, 4]),
        Mnemonic::PSUBW => Some(vec![1u8, 2, 15, 249, 2, 1, 0, 0, 3, 2, 1, 0, 18, 0, 3, 6, 102, 4]),
        Mnemonic::PSUBD => Some(vec![1u8, 2, 15, 250, 2, 1, 0, 0, 3, 2, 1, 0, 18, 0, 3, 6, 102, 4]),
        Mnemonic::PSUBQ => Some(vec![1u8, 2, 15, 251, 2, 1, 0, 0, 3, 2, 1, 0, 18, 0, 3, 6, 102, 4]),
        Mnemonic::PSUBSB => Some(vec![1u8, 2, 15, 232, 2, 1, 0, 0, 3, 2, 1, 0, 18, 0, 3, 6, 102, 4]),
        Mnemonic::PSUBSW => Some(vec![1u8, 2, 15, 233, 2, 1, 0, 0, 3, 2, 1, 0, 18, 0, 3, 6, 102, 4]),
        Mnemonic::PMULLW => Some(vec![1u8, 2, 15, 213, 2, 1, 0, 0, 3, 2, 1, 0, 18, 0, 3, 6, 102, 4]),
        Mnemonic::PMULHW => Some(vec![1u8, 2, 15, 229, 2, 1, 0, 0, 3, 2, 1, 0, 18, 0, 3, 6, 102, 4]),
        Mnemonic::PMULUDQ => Some(vec![1u8, 2, 15, 244, 2, 1, 0, 0, 3, 2, 1, 0, 18, 0, 3, 6, 102, 4]),
        Mnemonic::PMADDWD => Some(vec![1u8, 2, 15, 245, 2, 1, 0, 0, 3, 2, 1, 0, 18, 0, 3, 6, 102, 4]),
        Mnemonic::PCMPEQB => Some(vec![1u8, 2, 15, 116, 2, 1, 0, 0, 3, 2, 1, 0, 18, 0, 3, 6, 102, 4]),
        Mnemonic::PCMPEQW => Some(vec![1u8, 2, 15, 117, 2, 1, 0, 0, 3, 2, 1, 0, 18, 0, 3, 6, 102, 4]),
        Mnemonic::PCMPEQD => Some(vec![1u8, 2, 15, 118, 2, 1, 0, 0, 3, 2, 1, 0, 18, 0, 3, 6, 102, 4]),
        Mnemonic::PCMPGTB => Some(vec![1u8, 2, 15, 100, 2, 1, 0, 0, 3, 2, 1, 0, 18, 0, 3, 6, 102, 4]),
        Mnemonic::PCMPGTW => Some(vec![1u8, 2, 15, 101, 2, 1, 0, 0, 3, 2, 1, 0, 18, 0, 3, 6, 102, 4]),
        Mnemonic::PCMPGTD => Some(vec![1u8, 2, 15, 102, 2, 1, 0, 0, 3, 2, 1, 0, 18, 0, 3, 6, 102, 4]),
        Mnemonic::PACKUSWB => Some(vec![1u8, 2, 15, 103, 2, 1, 0, 0, 3, 2, 1, 0, 18, 0, 3, 6, 102, 4]),
        Mnemonic::PACKSSWB => Some(vec![1u8, 2, 15, 99, 2, 1, 0, 0, 3, 2, 1, 0, 18, 0, 3, 6, 102, 4]),
        Mnemonic::PACKSSDW => Some(vec![1u8, 2, 15, 107, 2, 1, 0, 0, 3, 2, 1, 0, 18, 0, 3, 6, 102, 4]),
        Mnemonic::PUNPCKLBW => Some(vec![1u8, 2, 15, 96, 2, 1, 0, 0, 3, 2, 1, 0, 18, 0, 3, 6, 102, 4]),
        Mnemonic::PUNPCKLWD => Some(vec![1u8, 2, 15, 97, 2, 1, 0, 0, 3, 2, 1, 0, 18, 0, 3, 6, 102, 4]),
        Mnemonic::PUNPCKLDQ => Some(vec![1u8, 2, 15, 98, 2, 1, 0, 0, 3, 2, 1, 0, 18, 0, 3, 6, 102, 4]),
        Mnemonic::PUNPCKHBW => Some(vec![1u8, 2, 15, 104, 2, 1, 0, 0, 3, 2, 1, 0, 18, 0, 3, 6, 102, 4]),
        Mnemonic::PUNPCKHWD => Some(vec![1u8, 2, 15, 105, 2, 1, 0, 0, 3, 2, 1, 0, 18, 0, 3, 6, 102, 4]),
        Mnemonic::PUNPCKHDQ => Some(vec![1u8, 2, 15, 106, 2, 1, 0, 0, 3, 2, 1, 0, 18, 0, 3, 6, 102, 4]),
        Mnemonic::PSLLQ => Some(vec![18u8, 2, 13, 1, 2, 15, 115, 5, 1, 1, 2, 1, 1, 6, 19, 12, 1, 2, 15, 243, 3, 2, 1, 0, 2, 1, 0, 0, 18, 0, 3, 6, 102, 4]),
        Mnemonic::PSLLD => Some(vec![18u8, 2, 13, 1, 2, 15, 114, 5, 1, 1, 2, 1, 1, 6, 19, 12, 1, 2, 15, 242, 3, 2, 1, 0, 2, 1, 0, 0, 18, 0, 3, 6, 102, 4]),
        Mnemonic::PSLLW => Some(vec![18u8, 2, 13, 1, 2, 15, 113, 5, 1, 1, 2, 1, 1, 6, 19, 12, 1, 2, 15, 241, 3, 2, 1, 0, 2, 1, 0, 0, 18, 0, 3, 6, 102, 4]),
        Mnemonic::PSRLW => Some(vec![18u8, 2, 13, 1, 2, 15, 113, 5, 1, 1, 2, 1, 1, 2, 19, 12, 1, 2, 15, 209, 3, 2, 1, 0, 2, 1, 0, 0, 18, 0, 3, 6, 102, 4]),
        Mnemonic::PSRLD => Some(vec![18u8, 2, 13, 1, 2, 15, 114, 5, 1, 1, 2, 1, 1, 2, 19, 12, 1, 2, 15, 210, 3, 2, 1, 0, 2, 1, 0, 0, 18, 0, 3, 6, 102, 4]),
        Mnemonic::PSRLQ => Some(vec![18u8, 2, 13, 1, 2, 15, 115, 5, 1, 1, 2, 1, 1, 2, 19, 12, 1, 2, 15, 211, 3, 2, 1, 0, 2, 1, 0, 0, 18, 0, 3, 6, 102, 4]),
        Mnemonic::PSRAW => Some(vec![18u8, 2, 13, 1, 2, 15, 113, 5, 1, 1, 2, 1, 1, 4, 19, 12, 1, 2, 15, 225, 3, 2, 1, 0, 2, 1, 0, 0, 18, 0, 3, 6, 102, 4]),
        Mnemonic::PSRAD => Some(vec![18u8, 2, 13, 1, 2, 15, 114, 5, 1, 1, 2, 1, 1, 4, 19, 12, 1, 2, 15, 226, 3, 2, 1, 0, 2, 1, 0, 0, 18, 0, 3, 6, 102, 4]),
        Mnemonic::POR => Some(vec![1u8, 2, 15, 235, 2, 1, 0, 0, 3, 2, 1, 0, 18, 0, 3, 6, 102, 4]),
        Mnemonic::PAND => Some(vec![1u8, 2, 15, 219, 2, 1, 0, 0, 3, 2, 1, 0, 18, 0, 3, 6, 102, 4]),
        Mnemonic::PANDN => Some(vec![1u8, 2, 15, 223, 2, 1, 0, 0, 3, 2, 1, 0, 18, 0, 3, 6, 102, 4]),
        Mnemonic::PXOR => Some(vec![1u8, 2, 15, 239, 2, 1, 0, 0, 3, 2, 1, 0, 18, 0, 3, 6, 102, 4]),
        Mnemonic::PABSB => Some(vec![1u8, 3, 15, 56, 28, 2, 1, 0, 0, 3, 2, 1, 0, 18, 0, 3, 6, 102, 4]),
        _ => None,
    }
}

/// Layout programs (see `run_prog`) of part 1 of the mnemonics whose layout branches on
/// their operands or on the instruction's variant.
#[verifier::opaque]
pub open spec fn spec_branching_1(m: Mnemonic) -> Option<Seq<u8>> {
    match m {
        Mnemonic::PABSW => Some(seq![1u8, 3, 15, 56, 29, 2, 1, 0, 0, 3, 2, 1, 0, 18, 0, 3, 6, 102, 4]),
        Mnemonic::PABSD => Some(seq![1u8, 3, 15, 56, 30, 2, 1, 0, 0, 3, 2, 1, 0, 18, 0, 3, 6, 102, 4]),
        Mnemonic::PSIGNB => Some(seq![1u8, 3, 15, 56, 8, 2, 1, 0, 0, 3, 2, 1, 0, 18, 0, 3, 6, 102, 4]),
        Mnemonic::PSIGNW => Some(seq![1u8, 3, 15, 56, 9, 2, 1, 0, 0, 3, 2, 1, 0, 18, 0, 3, 6, 102, 4]),
        Mnemonic::PSIGND => Some(seq![1u8, 3, 15, 56, 10, 2, 1, 0, 0, 3, 2, 1, 0, 18, 0, 3, 6, 102, 4]),
        Mnemonic::PSHUFB => Some(seq![1u8, 3, 15, 56, 0, 2, 1, 0, 0, 3, 2, 1, 0, 18, 0, 3, 6, 102, 4]),
        Mnemonic::PHADDW => Some(seq![1u8, 3, 15, 56, 1, 2, 1, 0, 0, 3, 2, 1, 0, 18, 0, 3, 6, 102, 4]),
        Mnemonic::PHADDD => Some(seq![1u8, 3, 15, 56, 2, 2, 1, 0, 0, 3, 2, 1, 0, 18, 0, 3, 6, 102, 4]),
        Mnemonic::PHADDSW => Some(seq![1u8, 3, 15, 56, 3, 2, 1, 0, 0, 3, 2, 1, 0, 18, 0, 3, 6, 102, 4]),
        Mnemonic::PHSUBW => Some(seq![1u8, 3, 15, 56, 5, 2, 1, 0, 0, 3, 2, 1, 0, 18, 0, 3, 6, 102, 4]),
        Mnemonic::PHSUBD => Some(seq![1u8, 3, 15, 56, 6, 2, 1, 0, 0, 3, 2, 1, 0, 18, 0, 3, 6, 102, 4]),
        Mnemonic::PHSUBSW => Some(seq![1u8, 3, 15, 56, 7, 2, 1, 0, 0, 3, 2, 1, 0, 18, 0, 3, 6, 102, 4]),
        Mnemonic::PALIGNR => Some(seq![1u8, 3, 15, 58, 15, 2, 1, 0, 0, 5, 2, 1, 3, 2, 1, 0, 18, 0, 3, 6, 102, 4]),
        Mnemonic::PMULHRSW => Some(seq![1u8, 3, 15, 56, 11, 2, 1, 0, 0, 3, 2, 1, 0, 18, 0, 3, 6, 102, 4]),
        Mnemonic::PMADDUBSW => Some(seq![1u8, 3, 15, 56, 4, 2, 1, 0, 0, 3, 2, 1, 0, 18, 0, 3, 6, 102, 4]),
        Mnemonic::PEXTRW => Some(seq![1u8, 3, 15, 58, 21, 6, 102, 2, 1, 0, 0, 4, 5, 2, 1]),
        Mnemonic::PEXTRQ => Some(seq![1u8, 3, 15, 58, 22, 6, 102, 2, 1, 0, 0, 4, 5, 2, 1]),
        Mnemonic::PINSRQ => Some(seq![1u8, 3, 15, 58, 34, 6, 102, 2, 1, 0, 0, 4, 5, 2, 1, 3, 2, 1, 0]),
        Mnemonic::EXTRACTPS => Some(seq![1u8, 3, 15, 58, 23, 6, 102, 2, 1, 0, 0, 4, 5, 2, 1, 3, 2, 0, 1]),
        Mnemonic::POPCNT => Some(seq![1u8, 2, 15, 184, 6, 243, 2, 1, 0, 0, 4, 3, 2, 1, 0]),
        Mnemonic::VMOVDQA => Some(seq![2u8, 1, 0, 0, 10, 102, 15, 0, 0, 18, 7, 2, 19, 1, 0, 18, 1, 5, 1, 1, 127, 19, 7, 1, 1, 111, 3, 2, 1, 0]),
        Mnemonic::VMOVAPS => Some(seq![2u8, 1, 0, 0, 10, 0, 15, 0, 0, 18, 7, 2, 19, 1, 0, 18, 1, 5, 1, 1, 41, 19, 7, 1, 1, 40, 3, 2, 1, 0]),
        Mnemonic::VMOVAPD => Some(seq![2u8, 1, 0, 0, 10, 102, 15, 0, 0, 18, 7, 2, 19, 1, 0, 18, 1, 5, 1, 1, 41, 19, 7, 1, 1, 40, 3, 2, 1, 0]),
        Mnemonic::VMOVUPS => Some(seq![2u8, 1, 0, 0, 10, 0, 15, 0, 0, 18, 7, 2, 19, 1, 0, 18, 1, 5, 1, 1, 17, 19, 7, 1, 1, 16, 3, 2, 1, 0]),
        Mnemonic::VMOVUPD => Some(seq![2u8, 1, 0, 0, 10, 102, 15, 0, 0, 18, 7, 2, 19, 1, 0, 18, 1, 5, 1, 1, 17, 19, 7, 1, 1, 16, 3, 2, 1, 0]),
        Mnemonic::VMOVSS => Some(seq![2u8, 1, 0, 0, 10, 243, 15, 0, 0, 18, 7, 2, 19, 1, 0, 18, 1, 5, 1, 1, 17, 19, 26, 18, 6, 2, 19, 1, 0, 18, 5, 9, 1, 1, 16, 3, 2, 1, 0, 19, 8, 1, 1, 16, 3, 3, 1, 2, 0]),
        Mnemonic::VMOVSD => Some(seq![2u8, 1, 0, 0, 10, 242, 15, 0, 0, 18, 7, 2, 19, 1, 0, 18, 1, 5, 1, 1, 17, 19, 26, 18, 6, 2, 19, 1, 0, 18, 5, 9, 1, 1, 16, 3, 2, 1, 0, 19, 8, 1, 1, 16, 3, 3, 1, 2, 0]),
        Mnemonic::VMOVLPS => Some(seq![2u8, 1, 0, 0, 10, 0, 15, 0, 0, 18, 7, 2, 19, 1, 0, 18, 1, 5, 1, 1, 19, 19, 26, 18, 6, 2, 19, 1, 0, 18, 5, 9, 1, 1, 18, 3, 2, 1, 0, 19, 8, 1, 1, 18, 3, 3, 1, 2, 0]),
        Mnemonic::VMOVLPD => Some(seq![2u8, 1, 0, 0, 10, 102, 15, 0, 0, 18, 7, 2, 19, 1, 0, 18, 1, 5, 1, 1, 19, 19, 26, 18, 6, 2, 19, 1, 0, 18, 5, 9, 1, 1, 18, 3, 2, 1, 0, 19, 8, 1, 1, 18, 3, 3, 1, 2, 0]),
        Mnemonic::VMOVHPS => Some(seq![2u8, 1, 0, 0, 10, 0, 15, 0, 0, 18, 7, 2, 19, 1, 0, 18, 1, 5, 1, 1, 23, 19, 26, 18, 6, 2, 19, 1, 0, 18, 5, 9, 1, 1, 22, 3, 2, 1, 0, 19, 8, 1, 1, 22, 3, 3, 1, 2, 0]),
        Mnemonic::VMOVHPD => Some(seq![2u8, 1, 0, 0, 10, 102, 15, 0, 0, 18, 7, 2, 19, 1, 0, 18, 1, 5, 1, 1, 23, 19, 26, 18, 6, 2, 19, 1, 0, 18, 5, 9, 1, 1, 22, 3, 2, 1, 0, 19, 8, 1, 1, 22, 3, 3, 1, 2, 0]),
        Mnemonic::VPSLLW => Some(seq![10u8, 102, 15, 0, 0, 18, 3, 16, 1, 1, 113, 5, 2, 1, 3, 2, 2, 0, 2, 1, 1, 6, 19, 12, 1, 1, 241, 3, 3, 1, 2, 0, 2, 1, 0, 0]),
        Mnemonic::VPSLLD => Some(seq![10u8, 102, 15, 0, 0, 18, 3, 16, 1, 1, 114, 5, 2, 1, 3, 2, 2, 0, 2, 1, 1, 6, 19, 12, 1, 1, 242, 3, 3, 1, 2, 0, 2, 1, 0, 0]),
        Mnemonic::VPSLLQ => Some(seq![10u8, 102, 15, 0, 0, 18, 3, 16, 1, 1, 115, 5, 2, 1, 3, 2, 2, 0, 2, 1, 1, 6, 19, 12, 1, 1, 243, 3, 3, 1, 2, 0, 2, 1, 0, 0]),
        Mnemonic::VPSRLW => Some(seq![10u8, 102, 15, 0, 0, 18, 3, 16, 1, 1, 113, 5, 2, 1, 3, 2, 2, 0, 2, 1, 1, 2, 19, 12, 1, 1, 209, 3, 3, 1, 2, 0, 2, 1, 0, 0]),
        Mnemonic::VPSRLD => Some(seq![10u8, 102, 15, 0, 0, 18, 3, 16, 1, 1, 114, 5, 2, 1, 3, 2, 2, 0, 2, 1, 1, 2, 19, 12, 1, 1, 210, 3, 3, 1, 2, 0, 2, 1, 0, 0]),
        Mnemonic::VPSRLQ => Some(seq![10u8, 102, 15, 0, 0, 18, 3, 16, 1, 1, 115, 5, 2, 1, 3, 2, 2, 0, 2, 1, 1, 2, 19, 12, 1, 1, 211, 3, 3, 1, 2, 0, 2, 1, 0, 0]),
        Mnemonic::VPSRAW => Some(seq![10u8, 102, 15, 0, 0, 18, 3, 16, 1, 1, 113, 5, 2, 1, 3, 2, 2, 0, 2, 1, 1, 4, 19, 12, 1, 1, 225, 3, 3, 1, 2, 0, 2, 1, 0, 0]),
        Mnemonic::VPSRAD => Some(seq![10u8, 102, 15, 0, 0, 18, 3, 16, 1, 1, 114, 5, 2, 1, 3, 2, 2, 0, 2, 1, 1, 4, 19, 12, 1, 1, 226, 3, 3, 1, 2, 0, 2, 1, 0, 0]),
        Mnemonic::PAVGB => Some(seq![1u8, 2, 15, 224, 2, 1, 0, 0, 3, 2, 1, 0, 18, 0, 3, 6, 102, 4]),
        Mnemonic::PAVGW => Some(seq![1u8, 2, 15, 227, 2, 1, 0, 0, 3, 2, 1, 0, 18, 0, 3, 6, 102, 4]),
        Mnemonic::VBROADCASTSD => Some(seq![1u8, 1, 25, 14, 102, 56, 4, 0, 2, 1, 0, 0, 3, 2, 1, 0]),
        Mnemonic::VPERMILPS => Some(seq![18u8, 3, 21, 2, 1, 0, 0, 1, 1, 4, 10, 102, 58, 0, 0, 3, 2, 1, 0, 5, 2, 1, 19, 17, 2, 1, 0, 0, 1, 1, 12, 10, 102, 56, 0, 0, 3, 3, 1, 2, 0]),
        Mnemonic::VPERMILPD => Some(seq![18u8, 3, 21, 2, 1, 0, 0, 1, 1, 5, 10, 102, 58, 0, 0, 3, 2, 1, 0, 5, 2, 1, 19, 17, 2, 1, 0, 0, 1, 1, 13, 10, 102, 56, 0, 0, 3, 3, 1, 2, 0]),
        Mnemonic::PMAXSW => Some(seq![1u8, 2, 15, 238, 2, 1, 0, 0, 3, 2, 1, 0, 18, 0, 3, 6, 102, 4]),
        Mnemonic::PINSRW => Some(seq![1u8, 2, 15, 196, 2, 1, 0, 0, 3, 2, 1, 0, 5, 2, 1, 18, 0, 3, 6, 102, 4]),
        Mnemonic::PMINSW => Some(seq![1u8, 2, 15, 234, 2, 1, 0, 0, 3, 2, 1, 0, 18, 0, 3, 6, 102, 4]),
        Mnemonic::PMULHUW => Some(seq![1u8, 2, 15, 228, 2, 1, 0, 0, 3, 2, 1, 0, 18, 0, 2, 6, 102]),
        Mnemonic::CVTSI2SS => Some(seq![1u8, 2, 15, 42, 6, 243, 2, 1, 0, 0, 4, 3, 2, 1, 0]),
        Mnemonic::CVTSS2SI => Some(seq![1u8, 2, 15, 45, 6, 243, 4, 2, 1, 0, 0, 3, 2, 1, 0]),
        Mnemonic::BSF => Some(seq![1u8, 2, 15, 188, 2, 1, 0, 0, 3, 2, 1, 0, 4]),
        Mnemonic::BSR => Some(seq![1u8, 2, 15, 189, 2, 1, 0, 0, 3, 2, 1, 0, 4]),
        Mnemonic::ADCX => Some(seq![1u8, 3, 15, 56, 246, 2, 1, 0, 0, 6, 102, 4, 3, 2, 1, 0]),
        Mnemonic::ADOX => Some(seq![1u8, 3, 15, 56, 246, 2, 1, 0, 0, 6, 243, 3, 2, 1, 0, 4]),
        Mnemonic::CMPXCHG16B => Some(seq![1u8, 2, 15, 199, 2, 1, 1, 1, 4]),
        Mnemonic::INVPCID => Some(seq![1u8, 3, 15, 56, 130, 6, 102, 2, 1, 0, 0, 3, 2, 1, 0, 4]),
        Mnemonic::LSL => Some(seq![1u8, 2, 15, 3, 2, 1, 0, 0, 3, 2, 1, 0, 4]),
        Mnemonic::LZCNT => Some(seq![1u8, 2, 15, 189, 6, 243, 2, 1, 0, 0, 3, 2, 1, 0, 4]),
        Mnemonic::MOVDIRI => Some(seq![1u8, 3, 15, 56, 249, 2, 1, 0, 0, 4]),
        Mnemonic::RDRAND => Some(seq![1u8, 2, 15, 199, 2, 1, 1, 6, 4]),
        _ => None,
    }
}

/// The layout program of a mnemonic of part 1.
fn branching_1(m: Mnemonic) -> (r: Option<Vec<u8>>)
    ensures
        match spec_branching_1(m) {
            Some(p) => r matches Some(v) && v@ == p,
            None => r is None,
        },
{
    proof {
        reveal(spec_branching_1);
    }
    match m {
        Mnemonic::PABSW => Some(vec![1u8, 3, 15, 56, 29, 2, 1, 0, 0, 3, 2, 1, 0, 18, 0, 3, 6, 102, 4]),
        Mnemonic::PABSD => Some(vec![1u8, 3, 15, 56, 30, 2, 1, 0, 0, 3, 2, 1, 0, 18, 0, 3, 6, 102, 4]),
        Mnemonic::PSIGNB => Some(vec![1u8, 3, 15, 56, 8, 2, 1, 0, 0, 3, 2, 1, 0, 18, 0, 3, 6, 102, 4]),
        Mnemonic::PSIGNW => Some(vec![1u8, 3, 15, 56, 9, 2, 1, 0, 0, 3, 2, 1, 0, 18, 0, 3, 6, 102, 4]),
        Mnemonic::PSIGND => Some(vec![1u8, 3, 15, 56, 10, 2, 1, 0, 0, 3, 2, 1, 0, 18, 0, 3, 6, 102, 4]),
        Mnemonic::PSHUFB => Some(vec![1u8, 3, 15, 56, 0, 2, 1, 0, 0, 3, 2, 1, 0, 18, 0, 3, 6, 102, 4]),
        Mnemonic::PHADDW => Some(vec![1u8, 3, 15, 56, 1, 2, 1, 0, 0, 3, 2, 1, 0, 18, 0, 3, 6, 102, 4]),
        Mnemonic::PHADDD => Some(vec![1u8, 3, 15, 56, 2, 2, 1, 0, 0, 3, 2, 1, 0, 18, 0, 3, 6, 102, 4]),
        Mnemonic::PHADDSW => Some(vec![1u8, 3, 15, 56, 3, 2, 1, 0, 0, 3, 2, 1, 0, 18, 0, 3, 6, 102, 4]),
        Mnemonic::PHSUBW => Some(vec![1u8, 3, 15, 56, 5, 2, 1, 0, 0, 3, 2, 1, 0, 18, 0, 3, 6, 102, 4]),
        Mnemonic::PHSUBD => Some(vec![1u8, 3, 15, 56, 6, 2, 1, 0, 0, 3, 2, 1, 0, 18, 0, 3, 6, 102, 4]),
        Mnemonic::PHSUBSW => Some(vec![1u8, 3, 15, 56, 7, 2, 1, 0, 0, 3, 2, 1, 0, 18, 0, 3, 6, 102, 4]),
        Mnemonic::PALIGNR => Some(vec![1u8, 3, 15, 58, 15, 2, 1, 0, 0, 5, 2, 1, 3, 2, 1, 0, 18, 0, 3, 6, 102, 4]),
        Mnemonic::PMULHRSW => Some(vec![1u8, 3, 15, 56, 11, 2, 1, 0, 0, 3, 2, 1, 0, 18, 0, 3, 6, 102, 4]),
        Mnemonic::PMADDUBSW => Some(vec![1u8, 3, 15, 56, 4, 2, 1, 0, 0, 3, 2, 1, 0, 18, 0, 3, 6, 102, 4]),
        Mnemonic::PEXTRW => Some(vec![1u8, 3, 15, 58, 21, 6, 102, 2, 1, 0, 0, 4, 5, 2, 1]),
        Mnemonic::PEXTRQ => Some(vec![1u8, 3, 15, 58, 22, 6, 102, 2, 1, 0, 0, 4, 5, 2, 1]),
        Mnemonic::PINSRQ => Some(vec![1u8, 3, 15, 58, 34, 6, 102, 2, 1, 0, 0, 4, 5, 2, 1, 3, 2, 1, 0]),
        Mnemonic::EXTRACTPS => Some(vec![1u8, 3, 15, 58, 23, 6, 102, 2, 1, 0, 0, 4, 5, 2, 1, 3, 2, 0, 1]),
        Mnemonic::POPCNT => Some(vec![1u8, 2, 15, 184, 6, 243, 2, 1, 0, 0, 4, 3, 2, 1, 0]),
        Mnemonic::VMOVDQA => Some(vec![2u8, 1, 0, 0, 10, 102, 15, 0, 0, 18, 7, 2, 19, 1, 0, 18, 1, 5, 1, 1, 127, 19, 7, 1, 1, 111, 3, 2, 1, 0]),
        Mnemonic::VMOVAPS => Some(vec![2u8, 1, 0, 0, 10, 0, 15, 0, 0, 18, 7, 2, 19, 1, 0, 18, 1, 5, 1, 1, 41, 19, 7, 1, 1, 40, 3, 2, 1, 0]),
        Mnemonic::VMOVAPD => Some(vec![2u8, 1, 0, 0, 10, 102, 15, 0, 0, 18, 7, 2, 19, 1, 0, 18, 1, 5, 1, 1, 41, 19, 7, 1, 1, 40, 3, 2, 1, 0]),
        Mnemonic::VMOVUPS => Some(vec![2u8, 1, 0, 0, 10, 0, 15, 0, 0, 18, 7, 2, 19, 1, 0, 18, 1, 5, 1, 1, 17, 19, 7, 1, 1, 16, 3, 2, 1, 0]),
        Mnemonic::VMOVUPD => Some(vec![2u8, 1, 0, 0, 10, 102, 15, 0, 0, 18, 7, 2, 19, 1, 0, 18, 1, 5, 1, 1, 17, 19, 7, 1, 1, 16, 3, 2, 1, 0]),
        Mnemonic::VMOVSS => Some(vec![2u8, 1, 0, 0, 10, 243, 15, 0, 0, 18, 7, 2, 19, 1, 0, 18, 1, 5, 1, 1, 17, 19, 26, 18, 6, 2, 19, 1, 0, 18, 5, 9, 1, 1, 16, 3, 2, 1, 0, 19, 8, 1, 1, 16, 3, 3, 1, 2, 0]),
        Mnemonic::VMOVSD => Some(vec![2u8, 1, 0, 0, 10, 242, 15, 0, 0, 18, 7, 2, 19, 1, 0, 18, 1, 5, 1, 1, 17, 19, 26, 18, 6, 2, 19, 1, 0, 18, 5, 9, 1, 1, 16, 3, 2, 1, 0, 19, 8, 1, 1, 16, 3, 3, 1, 2, 0]),
        Mnemonic::VMOVLPS => Some(vec![2u8, 1, 0, 0, 10, 0, 15, 0, 0, 18, 7, 2, 19, 1, 0, 18, 1, 5, 1, 1, 19, 19, 26, 18, 6, 2, 19, 1, 0, 18, 5, 9, 1, 1, 18, 3, 2, 1, 0, 19, 8, 1, 1, 18, 3, 3, 1, 2, 0]),
        Mnemonic::VMOVLPD => Some(vec![2u8, 1, 0, 0, 10, 102, 15, 0, 0, 18, 7, 2, 19, 1, 0, 18, 1, 5, 1, 1, 19, 19, 26, 18, 6, 2, 19, 1, 0, 18, 5, 9, 1, 1, 18, 3, 2, 1, 0, 19, 8, 1, 1, 18, 3, 3, 1, 2, 0]),
        Mnemonic::VMOVHPS => Some(vec![2u8, 1, 0, 0, 10, 0, 15, 0, 0, 18, 7, 2, 19, 1, 0, 18, 1, 5, 1, 1, 23, 19, 26, 18, 6, 2, 19, 1, 0, 18, 5, 9, 1, 1, 22, 3, 2, 1, 0, 19, 8, 1, 1, 22, 3, 3, 1, 2, 0]),
        Mnemonic::VMOVHPD => Some(vec![2u8, 1, 0, 0, 10, 102, 15, 0, 0, 18, 7, 2, 19, 1, 0, 18, 1, 5, 1, 1, 23, 19, 26, 18, 6, 2, 19, 1, 0, 18, 5, 9, 1, 1, 22, 3, 2, 1, 0, 19, 8, 1, 1, 22, 3, 3, 1, 2, 0]),
        Mnemonic::VPSLLW => Some(vec![10u8, 102, 15, 0, 0, 18, 3, 16, 1, 1, 113, 5, 2, 1, 3, 2, 2, 0, 2, 1, 1, 6, 19, 12, 1, 1, 241, 3, 3, 1, 2, 0, 2, 1, 0, 0]),
        Mnemonic::VPSLLD => Some(vec![10u8, 102, 15, 0, 0, 18, 3, 16, 1, 1, 114, 5, 2, 1, 3, 2, 2, 0, 2, 1, 1, 6, 19, 12, 1, 1, 242, 3, 3, 1, 2, 0, 2, 1, 0, 0]),
        Mnemonic::VPSLLQ => Some(vec![10u8, 102, 15, 0, 0, 18, 3, 16, 1, 1, 115, 5, 2, 1, 3, 2, 2, 0, 2, 1, 1, 6, 19, 12, 1, 1, 243, 3, 3, 1, 2, 0, 2, 1, 0, 0]),
        Mnemonic::VPSRLW => Some(vec![10u8, 102, 15, 0, 0, 18, 3, 16, 1, 1, 113, 5, 2, 1, 3, 2, 2, 0, 2, 1, 1, 2, 19, 12, 1, 1, 209, 3, 3, 1, 2, 0, 2, 1, 0, 0]),
        Mnemonic::VPSRLD => Some(vec![10u8, 102, 15, 0, 0, 18, 3, 16, 1, 1, 114, 5, 2, 1, 3, 2, 2, 0, 2, 1, 1, 2, 19, 12, 1, 1, 210, 3, 3, 1, 2, 0, 2, 1, 0, 0]),
        Mnemonic::VPSRLQ => Some(vec![10u8, 102, 15, 0, 0, 18, 3, 16, 1, 1, 115, 5, 2, 1, 3, 2, 2, 0, 2, 1, 1, 2, 19, 12, 1, 1, 211, 3, 3, 1, 2, 0, 2, 1, 0, 0]),
        Mnemonic::VPSRAW => Some(vec![10u8, 102, 15, 0, 0, 18, 3, 16, 1, 1, 113, 5, 2, 1, 3, 2, 2, 0, 2, 1, 1, 4, 19, 12, 1, 1, 225, 3, 3, 1, 2, 0, 2, 1, 0, 0]),
        Mnemonic::VPSRAD => Some(vec![10u8, 102, 15, 0, 0, 18, 3, 16, 1, 1, 114, 5, 2, 1, 3, 2, 2, 0, 2, 1, 1, 4, 19, 12, 1, 1, 226, 3, 3, 1, 2, 0, 2, 1, 0, 0]),
        Mnemonic::PAVGB => Some(vec![1u8, 2, 15, 224, 2, 1, 0, 0, 3, 2, 1, 0, 18, 0, 3, 6, 102, 4]),
        Mnemonic::PAVGW => Some(vec![1u8, 2, 15, 227, 2, 1, 0, 0, 3, 2, 1, 0, 18, 0, 3, 6, 102, 4]),
        Mnemonic::VBROADCASTSD => Some(vec![1u8, 1, 25, 14, 102, 56, 4, 0, 2, 1, 0, 0, 3, 2, 1, 0]),
        Mnemonic::VPERMILPS => Some(vec![18u8, 3, 21, 2, 1, 0, 0, 1, 1, 4, 10, 102, 58, 0, 0, 3, 2, 1, 0, 5, 2, 1, 19, 17, 2, 1, 0, 0, 1, 1, 12, 10, 102, 56, 0, 0, 3, 3, 1, 2, 0]),
        Mnemonic::VPERMILPD => Some(vec![18u8, 3, 21, 2, 1, 0, 0, 1, 1, 5, 10, 102, 58, 0, 0, 3, 2, 1, 0, 5, 2, 1, 19, 17, 2, 1, 0, 0, 1, 1, 13, 10, 102, 56, 0, 0, 3, 3, 1, 2, 0]),
        Mnemonic::PMAXSW => Some(vec![1u8, 2, 15, 238, 2, 1, 0, 0, 3, 2, 1, 0, 18, 0, 3, 6, 102, 4]),
        Mnemonic::PINSRW => Some(vec![1u8, 2, 15, 196, 2, 1, 0, 0, 3, 2, 1, 0, 5, 2, 1, 18, 0, 3, 6, 102, 4]),
        Mnemonic::PMINSW => Some(vec![1u8, 2, 15, 234, 2, 1, 0, 0, 3, 2, 1, 0, 18, 0, 3, 6, 102, 4]),
        Mnemonic::PMULHUW => Some(vec![1u8, 2, 15, 228, 2, 1, 0, 0, 3, 2, 1, 0, 18, 0, 2, 6, 102]),
        Mnemonic::CVTSI2SS => Some(vec![1u8, 2, 15, 42, 6, 243, 2, 1, 0, 0, 4, 3, 2, 1, 0]),
        Mnemonic::CVTSS2SI => Some(vec![1u8, 2, 15, 45, 6, 243, 4, 2, 1, 0, 0, 3, 2, 1, 0]),
        Mnemonic::BSF => Some(vec![1u8, 2, 15, 188, 2, 1, 0, 0, 3, 2, 1, 0, 4]),
        Mnemonic::BSR => Some(vec![1u8, 2, 15, 189, 2, 1, 0, 0, 3, 2, 1, 0, 4]),
        Mnemonic::ADCX => Some(vec![1u8, 3, 15, 56, 246, 2, 1, 0, 0, 6, 102, 4, 3, 2, 1, 0]),
        Mnemonic::ADOX => Some(vec![1u8, 3, 15, 56, 246, 2, 1, 0, 0, 6, 243, 3, 2, 1, 0, 4]),
        Mnemonic::CMPXCHG16B => Some(vec![1u8, 2, 15, 199, 2, 1, 1, 1, 4]),
        Mnemonic::INVPCID => Some(vec![1u8, 3, 15, 56, 130, 6, 102, 2, 1, 0, 0, 3, 2, 1, 0, 4]),
        Mnemonic::LSL => Some(vec![1u8, 2, 15, 3, 2, 1, 0, 0, 3, 2, 1, 0, 4]),
        Mnemonic::LZCNT => Some(vec![1u8, 2, 15, 189, 6, 243, 2, 1, 0, 0, 3, 2, 1, 0, 4]),
        Mnemonic::MOVDIRI => Some(vec![1u8, 3, 15, 56, 249, 2, 1, 0, 0, 4]),
        Mnemonic::RDRAND => Some(vec![1u8, 2, 15, 199, 2, 1, 1, 6, 4]),
        _ => None,
    }
}

/// Layout programs (see `run_prog`) of part 2 of the mnemonics whose layout branches on
/// their operands or on the instruction's variant.
#[verifier::opaque]
pub open spec fn spec_branching_2(m: Mnemonic) -> Option<Seq<u8>> {
    match m {
        Mnemonic::RDSEED => Some(seq![1u8, 2, 15, 199, 2, 1, 1, 7, 4]),
        Mnemonic::RDSSPQ => Some(seq![1u8, 2, 15, 30, 2, 1, 1, 1, 6, 243, 4]),
        Mnemonic::SETB | Mnemonic::SETC | Mnemonic::SETNAE => Some(seq![1u8, 2, 15, 146, 2, 1, 0, 0, 4]),
        Mnemonic::SETAE | Mnemonic::SETNB | Mnemonic::SETNC => Some(seq![1u8, 2, 15, 147, 2, 1, 0, 0, 4]),
        Mnemonic::SETE | Mnemonic::SETZ => Some(seq![1u8, 2, 15, 148, 2, 1, 0, 0, 4]),
        Mnemonic::SETNE | Mnemonic::SETNZ => Some(seq![1u8, 2, 15, 149, 2, 1, 0, 0, 4]),
        Mnemonic::SETBE | Mnemonic::SETNA => Some(seq![1u8, 2, 15, 150, 2, 1, 0, 0, 4]),
        Mnemonic::SETA | Mnemonic::SETNBE => Some(seq![1u8, 2, 15, 151, 2, 1, 0, 0, 4]),
        Mnemonic::SETP | Mnemonic::SETPE => Some(seq![1u8, 2, 15, 154, 2, 1, 0, 0, 4]),
        Mnemonic::SETNP | Mnemonic::SETPO => Some(seq![1u8, 2, 15, 155, 2, 1, 0, 0, 4]),
        Mnemonic::SETL | Mnemonic::SETNGE => Some(seq![1u8, 2, 15, 156, 2, 1, 0, 0, 4]),
        Mnemonic::SETGE | Mnemonic::SETNL => Some(seq![1u8, 2, 15, 157, 2, 1, 0, 0, 4]),
        Mnemonic::SETLE | Mnemonic::SETNG => Some(seq![1u8, 2, 15, 158, 2, 1, 0, 0, 4]),
        Mnemonic::SETG | Mnemonic::SETNLE => Some(seq![1u8, 2, 15, 159, 2, 1, 0, 0, 4]),
        Mnemonic::UD1 => Some(seq![1u8, 2, 15, 185, 2, 1, 0, 0, 3, 3, 1, 0, 2]),
        Mnemonic::SMSW => Some(seq![2u8, 1, 1, 4, 1, 2, 15, 1, 4]),
        Mnemonic::XRSTOR | Mnemonic::XRSTOR64 => Some(seq![1u8, 2, 15, 174, 2, 1, 1, 5]),
        Mnemonic::XRSTORS | Mnemonic::XRSTORS64 => Some(seq![1u8, 2, 15, 199, 2, 1, 1, 3, 4]),
        Mnemonic::XSAVE | Mnemonic::XSAVE64 => Some(seq![1u8, 2, 15, 174, 2, 1, 1, 4, 4]),
        Mnemonic::XSAVEC | Mnemonic::XSAVEC64 => Some(seq![1u8, 2, 15, 199, 2, 1, 1, 4, 4]),
        Mnemonic::XSAVEOPT | Mnemonic::XSAVEOPT64 => Some(seq![1u8, 2, 15, 174, 2, 1, 1, 6, 4]),
        Mnemonic::XSAVES | Mnemonic::XSAVES64 => Some(seq![1u8, 2, 15, 199, 2, 1, 1, 5, 4]),
        Mnemonic::WRGSBASE => Some(seq![1u8, 2, 15, 174, 2, 1, 1, 3, 6, 243, 4]),
        Mnemonic::WRFSBASE => Some(seq![1u8, 2, 15, 174, 2, 1, 1, 2, 6, 243, 4]),
        Mnemonic::VCOMPRESSPD => Some(seq![1u8, 1, 138, 11, 102, 2, 1, 0, 2, 1, 0, 0, 3, 2, 0, 1]),
        Mnemonic::VCOMPRESSPS => Some(seq![1u8, 1, 138, 11, 102, 2, 0, 0, 2, 1, 0, 0, 3, 2, 0, 1]),
        Mnemonic::VMASKMOVPS => Some(seq![7u8, 10, 102, 56, 0, 0, 2, 1, 0, 0, 18, 1, 10, 1, 1, 44, 3, 3, 0, 2, 1, 19, 8, 1, 1, 46, 3, 3, 1, 2, 0]),
        Mnemonic::VMASKMOVPD => Some(seq![7u8, 10, 102, 56, 0, 0, 2, 1, 0, 0, 18, 1, 10, 1, 1, 45, 3, 3, 0, 2, 1, 19, 8, 1, 1, 47, 3, 3, 1, 2, 0]),
        Mnemonic::VMOVSH => Some(seq![11u8, 243, 5, 0, 0, 2, 1, 0, 0, 18, 1, 9, 1, 1, 17, 3, 2, 0, 1, 19, 20, 18, 5, 9, 1, 1, 16, 3, 2, 1, 0, 19, 8, 1, 1, 16, 3, 3, 1, 2, 0]),
        Mnemonic::VMOVW => Some(seq![11u8, 102, 5, 0, 0, 2, 1, 0, 0, 18, 1, 9, 1, 1, 126, 3, 2, 0, 1, 19, 8, 1, 1, 110, 3, 3, 1, 2, 0]),
        Mnemonic::VPBROADCASTQ => Some(seq![1u8, 1, 89, 2, 1, 0, 0, 3, 2, 1, 0, 14, 102, 2, 4, 0]),
        Mnemonic::VPERMPD => Some(seq![18u8, 3, 21, 1, 1, 1, 2, 1, 0, 0, 3, 2, 1, 0, 5, 2, 1, 10, 102, 3, 1, 0, 19, 17, 1, 1, 22, 2, 1, 0, 0, 3, 3, 1, 2, 0, 11, 102, 2, 1, 0]),
        Mnemonic::VPERMQ => Some(seq![18u8, 3, 21, 1, 1, 0, 2, 1, 0, 0, 3, 2, 1, 0, 5, 2, 1, 10, 102, 3, 1, 0, 19, 17, 1, 1, 54, 2, 1, 0, 0, 3, 3, 1, 2, 0, 11, 102, 2, 1, 0]),
        Mnemonic::VPMASKMOVD => Some(seq![18u8, 4, 20, 1, 1, 142, 2, 1, 0, 0, 3, 3, 0, 2, 1, 10, 102, 56, 0, 0, 7, 19, 18, 1, 1, 140, 2, 1, 0, 0, 3, 3, 1, 2, 0, 10, 102, 56, 0, 0, 7]),
        Mnemonic::VPMASKMOVQ => Some(seq![18u8, 4, 20, 1, 1, 142, 2, 1, 0, 0, 3, 3, 0, 2, 1, 10, 102, 56, 1, 0, 7, 19, 18, 1, 1, 140, 2, 1, 0, 0, 3, 3, 1, 2, 0, 10, 102, 56, 1, 0, 7]),
        Mnemonic::ACRC32 => Some(seq![18u8, 9, 5, 1, 1, 240, 19, 3, 1, 1, 241, 2, 1, 0, 0, 3, 2, 1, 0, 12, 2, 0, 4, 0, 0]),
        Mnemonic::AIDIV => Some(seq![18u8, 9, 5, 1, 1, 246, 19, 3, 1, 1, 247, 2, 1, 1, 7, 3, 2, 0, 1, 12, 2, 0, 4, 0, 0]),
        Mnemonic::ADIV => Some(seq![18u8, 9, 5, 1, 1, 246, 19, 3, 1, 1, 247, 2, 1, 1, 6, 3, 2, 0, 1, 12, 2, 0, 4, 0, 0]),
        Mnemonic::AINC => Some(seq![18u8, 9, 5, 1, 1, 254, 19, 3, 1, 1, 255, 2, 1, 1, 0, 12, 2, 0, 4, 0, 0, 18, 6, 6, 3, 2, 2, 0, 19, 4, 3, 2, 0, 1]),
        Mnemonic::ADEC => Some(seq![18u8, 9, 5, 1, 1, 254, 19, 3, 1, 1, 255, 2, 1, 1, 1, 12, 2, 0, 4, 0, 0, 18, 6, 6, 3, 2, 2, 0, 19, 4, 3, 2, 0, 1]),
        Mnemonic::AMOVBE => Some(seq![18u8, 7, 2, 19, 1, 0, 18, 1, 19, 1, 1, 97, 2, 1, 0, 0, 3, 2, 0, 1, 12, 2, 0, 4, 0, 0, 19, 17, 1, 1, 96, 2, 1, 0, 0, 3, 2, 1, 0, 12, 2, 0, 4, 0, 0]),
        Mnemonic::AMOVRS => Some(seq![18u8, 9, 5, 1, 1, 138, 19, 3, 1, 1, 139, 2, 1, 0, 0, 3, 2, 1, 0, 12, 2, 0, 4, 0, 0]),
        Mnemonic::AMUL => Some(seq![18u8, 9, 5, 1, 1, 246, 19, 3, 1, 1, 247, 2, 1, 1, 4, 3, 2, 0, 1, 12, 2, 0, 4, 0, 0]),
        Mnemonic::ANOT => Some(seq![18u8, 9, 5, 1, 1, 246, 19, 3, 1, 1, 247, 2, 1, 1, 2, 12, 2, 0, 4, 0, 0, 18, 6, 6, 3, 2, 2, 0, 19, 4, 3, 2, 0, 1]),
        Mnemonic::ANEG => Some(seq![18u8, 9, 5, 1, 1, 246, 19, 3, 1, 1, 247, 2, 1, 1, 3, 12, 2, 0, 4, 0, 0, 18, 6, 6, 3, 2, 2, 0, 19, 4, 3, 2, 0, 1]),
        Mnemonic::SETBZU | Mnemonic::SETCZU | Mnemonic::SETNAEZU => Some(seq![1u8, 1, 66, 2, 1, 0, 0, 12, 2, 242, 4, 0, 0]),
        Mnemonic::SETAEZU | Mnemonic::SETNBZU | Mnemonic::SETNCZU => Some(seq![1u8, 1, 67, 2, 1, 0, 0, 12, 2, 242, 4, 0, 0]),
        Mnemonic::SETNEZU | Mnemonic::SETNZZU => Some(seq![1u8, 1, 69, 2, 1, 0, 0, 12, 2, 242, 4, 0, 0]),
        Mnemonic::SETBEZU | Mnemonic::SETNAZU => Some(seq![1u8, 1, 70, 2, 1, 0, 0, 12, 2, 242, 4, 0, 0]),
        Mnemonic::SETAZU | Mnemonic::SETNBEZU => Some(seq![1u8, 1, 71, 2, 1, 0, 0, 12, 2, 242, 4, 0, 0]),
        Mnemonic::SETPZU | Mnemonic::SETPEZU => Some(seq![1u8, 1, 74, 2, 1, 0, 0, 12, 2, 242, 4, 0, 0]),
        Mnemonic::SETNPZU | Mnemonic::SETPOZU => Some(seq![1u8, 1, 75, 2, 1, 0, 0, 12, 2, 242, 4, 0, 0]),
        Mnemonic::SETLZU | Mnemonic::SETNGEZU => Some(seq![1u8, 1, 76, 2, 1, 0, 0, 12, 2, 242, 4, 0, 0]),
        Mnemonic::SETGEZU | Mnemonic::SETNLZU => Some(seq![1u8, 1, 77, 2, 1, 0, 0, 12, 2, 242, 4, 0, 0]),
        Mnemonic::SETLEZU | Mnemonic::SETNGZU => Some(seq![1u8, 1, 78, 2, 1, 0, 0, 12, 2, 242, 4, 0, 0]),
        Mnemonic::SETGZU | Mnemonic::SETNLEZU => Some(seq![1u8, 1, 79, 2, 1, 0, 0, 12, 2, 242, 4, 0, 0]),
        Mnemonic::POPP => Some(seq![23u8, 88, 0, 12, 5, 0, 0, 1, 0]),
        Mnemonic::PUSHP => Some(seq![23u8, 80, 0, 12, 5, 0, 0, 1, 0]),
        Mnemonic::MOVSX => Some(seq![18u8, 6, 2, 19, 1, 0, 18, 12, 6, 1, 2, 15, 190, 19, 4, 1, 2, 15, 191, 2, 1, 0, 0, 3, 2, 1, 0, 4]),
        Mnemonic::MOVD | Mnemonic::MOVQ => Some(seq![2u8, 1, 0, 0, 4, 18, 0, 2, 6, 102, 18, 11, 6, 1, 2, 15, 110, 19, 13, 18, 13, 6, 1, 2, 15, 126, 19, 4, 1, 2, 15, 110]),
        _ => None,
    }
}

/// The layout program of a mnemonic of part 2.
fn branching_2(m: Mnemonic) -> (r: Option<Vec<u8>>)
    ensures
        match spec_branching_2(m) {
            Some(p) => r matches Some(v) && v@ == p,
            None => r is None,
        },
{
    proof {
        reveal(spec_branching_2);
    }
    match m {
        Mnemonic::RDSEED => Some(vec![1u8, 2, 15, 199, 2, 1, 1, 7, 4]),
        Mnemonic::RDSSPQ => Some(vec![1u8, 2, 15, 30, 2, 1, 1, 1, 6, 243, 4]),
        Mnemonic::SETB | Mnemonic::SETC | Mnemonic::SETNAE => Some(vec![1u8, 2, 15, 146, 2, 1, 0, 0, 4]),
        Mnemonic::SETAE | Mnemonic::SETNB | Mnemonic::SETNC => Some(vec![1u8, 2, 15, 147, 2, 1, 0, 0, 4]),
        Mnemonic::SETE | Mnemonic::SETZ => Some(vec![1u8, 2, 15, 148, 2, 1, 0, 0, 4]),
        Mnemonic::SETNE | Mnemonic::SETNZ => Some(vec![1u8, 2, 15, 149, 2, 1, 0, 0, 4]),
        Mnemonic::SETBE | Mnemonic::SETNA => Some(vec![1u8, 2, 15, 150, 2, 1, 0, 0, 4]),
        Mnemonic::SETA | Mnemonic::SETNBE => Some(vec![1u8, 2, 15, 151, 2, 1, 0, 0, 4]),
        Mnemonic::SETP | Mnemonic::SETPE => Some(vec![1u8, 2, 15, 154, 2, 1, 0, 0, 4]),
        Mnemonic::SETNP | Mnemonic::SETPO => Some(vec![1u8, 2, 15, 155, 2, 1, 0, 0, 4]),
        Mnemonic::SETL | Mnemonic::SETNGE => Some(vec![1u8, 2, 15, 156, 2, 1, 0, 0, 4]),
        Mnemonic::SETGE | Mnemonic::SETNL => Some(vec![1u8, 2, 15, 157, 2, 1, 0, 0, 4]),
        Mnemonic::SETLE | Mnemonic::SETNG => Some(vec![1u8, 2, 15, 158, 2, 1, 0, 0, 4]),
        Mnemonic::SETG | Mnemonic::SETNLE => Some(vec![1u8, 2, 15, 159, 2, 1, 0, 0, 4]),
        Mnemonic::UD1 => Some(vec![1u8, 2, 15, 185, 2, 1, 0, 0, 3, 3, 1, 0, 2]),
        Mnemonic::SMSW => Some(vec![2u8, 1, 1, 4, 1, 2, 15, 1, 4]),
        Mnemonic::XRSTOR | Mnemonic::XRSTOR64 => Some(vec![1u8, 2, 15, 174, 2, 1, 1, 5]),
        Mnemonic::XRSTORS | Mnemonic::XRSTORS64 => Some(vec![1u8, 2, 15, 199, 2, 1, 1, 3, 4]),
        Mnemonic::XSAVE | Mnemonic::XSAVE64 => Some(vec![1u8, 2, 15, 174, 2, 1, 1, 4, 4]),
        Mnemonic::XSAVEC | Mnemonic::XSAVEC64 => Some(vec![1u8, 2, 15, 199, 2, 1, 1, 4, 4]),
        Mnemonic::XSAVEOPT | Mnemonic::XSAVEOPT64 => Some(vec![1u8, 2, 15, 174, 2, 1, 1, 6, 4]),
        Mnemonic::XSAVES | Mnemonic::XSAVES64 => Some(vec![1u8, 2, 15, 199, 2, 1, 1, 5, 4]),
        Mnemonic::WRGSBASE => Some(vec![1u8, 2, 15, 174, 2, 1, 1, 3, 6, 243, 4]),
        Mnemonic::WRFSBASE => Some(vec![1u8, 2, 15, 174, 2, 1, 1, 2, 6, 243, 4]),
        Mnemonic::VCOMPRESSPD => Some(vec![1u8, 1, 138, 11, 102, 2, 1, 0, 2, 1, 0, 0, 3, 2, 0, 1]),
        Mnemonic::VCOMPRESSPS => Some(vec![1u8, 1, 138, 11, 102, 2, 0, 0, 2, 1, 0, 0, 3, 2, 0, 1]),
        Mnemonic::VMASKMOVPS => Some(vec![7u8, 10, 102, 56, 0, 0, 2, 1, 0, 0, 18, 1, 10, 1, 1, 44, 3, 3, 0, 2, 1, 19, 8, 1, 1, 46, 3, 3, 1, 2, 0]),
        Mnemonic::VMASKMOVPD => Some(vec![7u8, 10, 102, 56, 0, 0, 2, 1, 0, 0, 18, 1, 10, 1, 1, 45, 3, 3, 0, 2, 1, 19, 8, 1, 1, 47, 3, 3, 1, 2, 0]),
        Mnemonic::VMOVSH => Some(vec![11u8, 243, 5, 0, 0, 2, 1, 0, 0, 18, 1, 9, 1, 1, 17, 3, 2, 0, 1, 19, 20, 18, 5, 9, 1, 1, 16, 3, 2, 1, 0, 19, 8, 1, 1, 16, 3, 3, 1, 2, 0]),
        Mnemonic::VMOVW => Some(vec![11u8, 102, 5, 0, 0, 2, 1, 0, 0, 18, 1, 9, 1, 1, 126, 3, 2, 0, 1, 19, 8, 1, 1, 110, 3, 3, 1, 2, 0]),
        Mnemonic::VPBROADCASTQ => Some(vec![1u8, 1, 89, 2, 1, 0, 0, 3, 2, 1, 0, 14, 102, 2, 4, 0]),
        Mnemonic::VPERMPD => Some(vec![18u8, 3, 21, 1, 1, 1, 2, 1, 0, 0, 3, 2, 1, 0, 5, 2, 1, 10, 102, 3, 1, 0, 19, 17, 1, 1, 22, 2, 1, 0, 0, 3, 3, 1, 2, 0, 11, 102, 2, 1, 0]),
        Mnemonic::VPERMQ => Some(vec![18u8, 3, 21, 1, 1, 0, 2, 1, 0, 0, 3, 2, 1, 0, 5, 2, 1, 10, 102, 3, 1, 0, 19, 17, 1, 1, 54, 2, 1, 0, 0, 3, 3, 1, 2, 0, 11, 102, 2, 1, 0]),
        Mnemonic::VPMASKMOVD => Some(vec![18u8, 4, 20, 1, 1, 142, 2, 1, 0, 0, 3, 3, 0, 2, 1, 10, 102, 56, 0, 0, 7, 19, 18, 1, 1, 140, 2, 1, 0, 0, 3, 3, 1, 2, 0, 10, 102, 56, 0, 0, 7]),
        Mnemonic::VPMASKMOVQ => Some(vec![18u8, 4, 20, 1, 1, 142, 2, 1, 0, 0, 3, 3, 0, 2, 1, 10, 102, 56, 1, 0, 7, 19, 18, 1, 1, 140, 2, 1, 0, 0, 3, 3, 1, 2, 0, 10, 102, 56, 1, 0, 7]),
        Mnemonic::ACRC32 => Some(vec![18u8, 9, 5, 1, 1, 240, 19, 3, 1, 1, 241, 2, 1, 0, 0, 3, 2, 1, 0, 12, 2, 0, 4, 0, 0]),
        Mnemonic::AIDIV => Some(vec![18u8, 9, 5, 1, 1, 246, 19, 3, 1, 1, 247, 2, 1, 1, 7, 3, 2, 0, 1, 12, 2, 0, 4, 0, 0]),
        Mnemonic::ADIV => Some(vec![18u8, 9, 5, 1, 1, 246, 19, 3, 1, 1, 247, 2, 1, 1, 6, 3, 2, 0, 1, 12, 2, 0, 4, 0, 0]),
        Mnemonic::AINC => Some(vec![18u8, 9, 5, 1, 1, 254, 19, 3, 1, 1, 255, 2, 1, 1, 0, 12, 2, 0, 4, 0, 0, 18, 6, 6, 3, 2, 2, 0, 19, 4, 3, 2, 0, 1]),
        Mnemonic::ADEC => Some(vec![18u8, 9, 5, 1, 1, 254, 19, 3, 1, 1, 255, 2, 1, 1, 1, 12, 2, 0, 4, 0, 0, 18, 6, 6, 3, 2, 2, 0, 19, 4, 3, 2, 0, 1]),
        Mnemonic::AMOVBE => Some(vec![18u8, 7, 2, 19, 1, 0, 18, 1, 19, 1, 1, 97, 2, 1, 0, 0, 3, 2, 0, 1, 12, 2, 0, 4, 0, 0, 19, 17, 1, 1, 96, 2, 1, 0, 0, 3, 2, 1, 0, 12, 2, 0, 4, 0, 0]),
        Mnemonic::AMOVRS => Some(vec![18u8, 9, 5, 1, 1, 138, 19, 3, 1, 1, 139, 2, 1, 0, 0, 3, 2, 1, 0, 12, 2, 0, 4, 0, 0]),
        Mnemonic::AMUL => Some(vec![18u8, 9, 5, 1, 1, 246, 19, 3, 1, 1, 247, 2, 1, 1, 4, 3, 2, 0, 1, 12, 2, 0, 4, 0, 0]),
        Mnemonic::ANOT => Some(vec![18u8, 9, 5, 1, 1, 246, 19, 3, 1, 1, 247, 2, 1, 1, 2, 12, 2, 0, 4, 0, 0, 18, 6, 6, 3, 2, 2, 0, 19, 4, 3, 2, 0, 1]),
        Mnemonic::ANEG => Some(vec![18u8, 9, 5, 1, 1, 246, 19, 3, 1, 1, 247, 2, 1, 1, 3, 12, 2, 0, 4, 0, 0, 18, 6, 6, 3, 2, 2, 0, 19, 4, 3, 2, 0, 1]),
        Mnemonic::SETBZU | Mnemonic::SETCZU | Mnemonic::SETNAEZU => Some(vec![1u8, 1, 66, 2, 1, 0, 0, 12, 2, 242, 4, 0, 0]),
        Mnemonic::SETAEZU | Mnemonic::SETNBZU | Mnemonic::SETNCZU => Some(vec![1u8, 1, 67, 2, 1, 0, 0, 12, 2, 242, 4, 0, 0]),
        Mnemonic::SETNEZU | Mnemonic::SETNZZU => Some(vec![1u8, 1, 69, 2, 1, 0, 0, 12, 2, 242, 4, 0, 0]),
        Mnemonic::SETBEZU | Mnemonic::SETNAZU => Some(vec![1u8, 1, 70, 2, 1, 0, 0, 12, 2, 242, 4, 0, 0]),
        Mnemonic::SETAZU | Mnemonic::SETNBEZU => Some(vec![1u8, 1, 71, 2, 1, 0, 0, 12, 2, 242, 4, 0, 0]),
        Mnemonic::SETPZU | Mnemonic::SETPEZU => Some(vec![1u8, 1, 74, 2, 1, 0, 0, 12, 2, 242, 4, 0, 0]),
        Mnemonic::SETNPZU | Mnemonic::SETPOZU => Some(vec![1u8, 1, 75, 2, 1, 0, 0, 12, 2, 242, 4, 0, 0]),
        Mnemonic::SETLZU | Mnemonic::SETNGEZU => Some(vec![1u8, 1, 76, 2, 1, 0, 0, 12, 2, 242, 4, 0, 0]),
        Mnemonic::SETGEZU | Mnemonic::SETNLZU => Some(vec![1u8, 1, 77, 2, 1, 0, 0, 12, 2, 242, 4, 0, 0]),
        Mnemonic::SETLEZU | Mnemonic::SETNGZU => Some(vec![1u8, 1, 78, 2, 1, 0, 0, 12, 2, 242, 4, 0, 0]),
        Mnemonic::SETGZU | Mnemonic::SETNLEZU => Some(vec![1u8, 1, 79, 2, 1, 0, 0, 12, 2, 242, 4, 0, 0]),
        Mnemonic::POPP => Some(vec![23u8, 88, 0, 12, 5, 0, 0, 1, 0]),
        Mnemonic::PUSHP => Some(vec![23u8, 80, 0, 12, 5, 0, 0, 1, 0]),
        Mnemonic::MOVSX => Some(vec![18u8, 6, 2, 19, 1, 0, 18, 12, 6, 1, 2, 15, 190, 19, 4, 1, 2, 15, 191, 2, 1, 0, 0, 3, 2, 1, 0, 4]),
        Mnemonic::MOVD | Mnemonic::MOVQ => Some(vec![2u8, 1, 0, 0, 4, 18, 0, 2, 6, 102, 18, 11, 6, 1, 2, 15, 110, 19, 13, 18, 13, 6, 1, 2, 15, 126, 19, 4, 1, 2, 15, 110]),
        _ => None,
    }
}

/// Layout programs (see `run_prog`) of part 3 of the mnemonics whose layout branches on
/// their operands or on the instruction's variant.
#[verifier::opaque]
pub open spec fn spec_branching_3(m: Mnemonic) -> Option<Seq<u8>> {
    match m {
        Mnemonic::VMOVD => Some(seq![2u8, 1, 0, 0, 10, 102, 15, 0, 0, 18, 10, 9, 1, 1, 126, 3, 2, 0, 1, 19, 21, 18, 7, 2, 19, 1, 0, 18, 1, 9, 1, 1, 126, 3, 2, 0, 1, 19, 3, 1, 1, 110]),
        Mnemonic::VMOVQ => Some(seq![2u8, 1, 0, 0, 10, 102, 15, 1, 0, 18, 10, 9, 1, 1, 126, 3, 2, 0, 1, 19, 21, 18, 7, 2, 19, 1, 0, 18, 1, 9, 1, 1, 126, 3, 2, 0, 1, 19, 3, 1, 1, 110]),
        Mnemonic::AAD => Some(seq![21u8, 213, 10]),
        Mnemonic::AAM => Some(seq![21u8, 212, 10]),
        Mnemonic::INT => Some(seq![21u8, 204, 0]),
        Mnemonic::ENTER => Some(seq![22u8, 200, 5, 1, 1]),
        Mnemonic::VPCOMPRESSB => Some(seq![1u8, 1, 99, 2, 1, 0, 0, 18, 7, 2, 19, 1, 0, 18, 1, 6, 3, 2, 0, 1, 19, 4, 3, 2, 1, 0, 11, 102, 2, 0, 0]),
        Mnemonic::VPCOMPRESSW => Some(seq![1u8, 1, 99, 2, 1, 0, 0, 18, 7, 2, 19, 1, 0, 18, 1, 6, 3, 2, 0, 1, 19, 4, 3, 2, 1, 0, 11, 102, 2, 1, 0]),
        Mnemonic::BSWAP => Some(seq![18u8, 13, 6, 20, 15, 200, 0, 19, 4, 1, 2, 15, 200, 2, 0, 0, 0, 4]),
        Mnemonic::CMPXCHG => Some(seq![18u8, 9, 6, 1, 2, 15, 176, 19, 4, 1, 2, 15, 177, 2, 1, 0, 0, 4]),
        Mnemonic::XADD => Some(seq![18u8, 9, 6, 1, 2, 15, 192, 19, 4, 1, 2, 15, 193, 2, 1, 0, 0, 4]),
        Mnemonic::MOVZX => Some(seq![18u8, 6, 2, 19, 1, 0, 18, 8, 6, 1, 2, 15, 183, 19, 4, 1, 2, 15, 182, 2, 1, 0, 0, 3, 2, 1, 0, 4]),
        Mnemonic::MOVBE => Some(seq![2u8, 1, 0, 0, 4, 18, 13, 11, 1, 3, 15, 56, 240, 3, 2, 1, 0, 19, 5, 1, 3, 15, 56, 241]),
        _ => None,
    }
}

/// The layout program of a mnemonic of part 3.
fn branching_3(m: Mnemonic) -> (r: Option<Vec<u8>>)
    ensures
        match spec_branching_3(m) {
            Some(p) => r matches Some(v) && v@ == p,
            None => r is None,
        },
{
    proof {
        reveal(spec_branching_3);
    }
    match m {
        Mnemonic::VMOVD => Some(vec![2u8, 1, 0, 0, 10, 102, 15, 0, 0, 18, 10, 9, 1, 1, 126, 3, 2, 0, 1, 19, 21, 18, 7, 2, 19, 1, 0, 18, 1, 9, 1, 1, 126, 3, 2, 0, 1, 19, 3, 1, 1, 110]),
        Mnemonic::VMOVQ => Some(vec![2u8, 1, 0, 0, 10, 102, 15, 1, 0, 18, 10, 9, 1, 1, 126, 3, 2, 0, 1, 19, 21, 18, 7, 2, 19, 1, 0, 18, 1, 9, 1, 1, 126, 3, 2, 0, 1, 19, 3, 1, 1, 110]),
        Mnemonic::AAD => Some(vec![21u8, 213, 10]),
        Mnemonic::AAM => Some(vec![21u8, 212, 10]),
        Mnemonic::INT => Some(vec![21u8, 204, 0]),
        Mnemonic::ENTER => Some(vec![22u8, 200, 5, 1, 1]),
        Mnemonic::VPCOMPRESSB => Some(vec![1u8, 1, 99, 2, 1, 0, 0, 18, 7, 2, 19, 1, 0, 18, 1, 6, 3, 2, 0, 1, 19, 4, 3, 2, 1, 0, 11, 102, 2, 0, 0]),
        Mnemonic::VPCOMPRESSW => Some(vec![1u8, 1, 99, 2, 1, 0, 0, 18, 7, 2, 19, 1, 0, 18, 1, 6, 3, 2, 0, 1, 19, 4, 3, 2, 1, 0, 11, 102, 2, 1, 0]),
        Mnemonic::BSWAP => Some(vec![18u8, 13, 6, 20, 15, 200, 0, 19, 4, 1, 2, 15, 200, 2, 0, 0, 0, 4]),
        Mnemonic::CMPXCHG => Some(vec![18u8, 9, 6, 1, 2, 15, 176, 19, 4, 1, 2, 15, 177, 2, 1, 0, 0, 4]),
        Mnemonic::XADD => Some(vec![18u8, 9, 6, 1, 2, 15, 192, 19, 4, 1, 2, 15, 193, 2, 1, 0, 0, 4]),
        Mnemonic::MOVZX => Some(vec![18u8, 6, 2, 19, 1, 0, 18, 8, 6, 1, 2, 15, 183, 19, 4, 1, 2, 15, 182, 2, 1, 0, 0, 3, 2, 1, 0, 4]),
        Mnemonic::MOVBE => Some(vec![2u8, 1, 0, 0, 4, 18, 13, 11, 1, 3, 15, 56, 240, 3, 2, 1, 0, 19, 5, 1, 3, 15, 56, 241]),
        _ => None,
    }
}

/// The layout program of a mnemonic whose layout branches on its operands or on the
/// instruction's variant, if it is one.
///
/// INT gives the opcode byte 0xCC followed by its vector byte. This is deliberate: the table
/// keeps the bytes this assembler emits for INT.
pub open spec fn spec_branching_prog(m: Mnemonic) -> Option<Seq<u8>> {
    if spec_branching_0(m) is Some {
        spec_branching_0(m)
    } else if spec_branching_1(m) is Some {
        spec_branching_1(m)
    } else if spec_branching_2(m) is Some {
        spec_branching_2(m)
    } else {
        spec_branching_3(m)
    }
}

/// The layout program of a mnemonic, as `spec_branching_prog` gives it.
pub fn branching_prog(m: Mnemonic) -> (r: Option<Vec<u8>>)
    ensures
        match spec_branching_prog(m) {
            Some(p) => r matches Some(v) && v@ == p,
            None => r is None,
        },
{
    let p = branching_0(m);
    if p.is_some() {
        return p;
    }
    let p = branching_1(m);
    if p.is_some() {
        return p;
    }
    let p = branching_2(m);
    if p.is_some() {
        return p;
    }
    branching_3(m)
}

} // verus!
