use vstd::prelude::*;

use crate::mnemonic::Mnemonic;

verus! {

/// Layout programs (see `run_prog`) of the mnemonics of part 0 of the table.
#[verifier::opaque]
pub open spec fn spec_prog_0(m: Mnemonic) -> Option<Seq<u8>> {
    match m {
        Mnemonic::CLFLUSH => Some(seq![1u8, 2, 15, 174, 2, 1, 1, 7, 4]),
        Mnemonic::MOVHLPS => Some(seq![2u8, 1, 0, 0, 4, 1, 2, 15, 18, 3, 2, 1, 0]),
        Mnemonic::MOVLHPS => Some(seq![2u8, 1, 0, 0, 4, 1, 2, 15, 22, 3, 2, 1, 0]),
        Mnemonic::ADDPS => Some(seq![2u8, 1, 0, 0, 1, 2, 15, 88, 4, 3, 2, 1, 0]),
        Mnemonic::ADDSS => Some(seq![2u8, 1, 0, 0, 6, 243, 1, 2, 15, 88, 4, 3, 2, 1, 0]),
        Mnemonic::SUBPS => Some(seq![2u8, 1, 0, 0, 1, 2, 15, 92, 4, 3, 2, 1, 0]),
        Mnemonic::SUBSS => Some(seq![2u8, 1, 0, 0, 6, 243, 1, 2, 15, 92, 4, 3, 2, 1, 0]),
        Mnemonic::MULPS => Some(seq![2u8, 1, 0, 0, 1, 2, 15, 89, 4, 3, 2, 1, 0]),
        Mnemonic::MULSS => Some(seq![2u8, 1, 0, 0, 6, 243, 1, 2, 15, 89, 4, 3, 2, 1, 0]),
        Mnemonic::DIVPS => Some(seq![2u8, 1, 0, 0, 1, 2, 15, 94, 4, 3, 2, 1, 0]),
        Mnemonic::DIVSS => Some(seq![2u8, 1, 0, 0, 6, 243, 1, 2, 15, 94, 4, 3, 2, 1, 0]),
        Mnemonic::MINPS => Some(seq![2u8, 1, 0, 0, 1, 2, 15, 93, 4, 3, 2, 1, 0]),
        Mnemonic::MINSS => Some(seq![2u8, 1, 0, 0, 6, 243, 1, 2, 15, 93, 4, 3, 2, 1, 0]),
        Mnemonic::MAXPS => Some(seq![2u8, 1, 0, 0, 1, 2, 15, 95, 4, 3, 2, 1, 0]),
        Mnemonic::MAXSS => Some(seq![2u8, 1, 0, 0, 6, 243, 1, 2, 15, 95, 4, 3, 2, 1, 0]),
        Mnemonic::RSQRTPS => Some(seq![2u8, 1, 0, 0, 1, 2, 15, 82, 4, 3, 2, 1, 0]),
        Mnemonic::RSQRTSS => Some(seq![2u8, 1, 0, 0, 6, 243, 1, 2, 15, 82, 4, 3, 2, 1, 0]),
        Mnemonic::SHUFPS => Some(seq![2u8, 1, 0, 0, 1, 2, 15, 198, 4, 5, 2, 1, 3, 2, 1, 0]),
        Mnemonic::SQRTPS => Some(seq![2u8, 1, 0, 0, 1, 2, 15, 81, 4, 3, 2, 1, 0]),
        Mnemonic::SQRTSS => Some(seq![2u8, 1, 0, 0, 6, 243, 1, 2, 15, 81, 4, 3, 2, 1, 0]),
        Mnemonic::CMPPS => Some(seq![2u8, 1, 0, 0, 1, 2, 15, 194, 4, 3, 2, 1, 0, 5, 2, 1]),
        Mnemonic::CMPSS => Some(seq![2u8, 1, 0, 0, 6, 243, 1, 2, 15, 194, 4, 3, 2, 1, 0, 5, 2, 1]),
        Mnemonic::RCPPS => Some(seq![2u8, 1, 0, 0, 1, 2, 15, 83, 4, 3, 2, 1, 0]),
        Mnemonic::RCPSS => Some(seq![2u8, 1, 0, 0, 6, 243, 1, 2, 15, 83, 4, 3, 2, 1, 0]),
        Mnemonic::UCOMISS => Some(seq![2u8, 1, 0, 0, 6, 243, 1, 2, 15, 46, 4, 3, 2, 1, 0]),
        Mnemonic::COMISS => Some(seq![2u8, 1, 0, 0, 6, 243, 1, 2, 15, 47, 4, 3, 2, 1, 0]),
        Mnemonic::ORPS => Some(seq![2u8, 1, 0, 0, 1, 2, 15, 86, 4, 3, 2, 1, 0]),
        Mnemonic::ANDPS => Some(seq![2u8, 1, 0, 0, 1, 2, 15, 84, 4, 3, 2, 1, 0]),
        Mnemonic::ANDNPS => Some(seq![2u8, 1, 0, 0, 1, 2, 15, 85, 4, 3, 2, 1, 0]),
        Mnemonic::XORPS => Some(seq![2u8, 1, 0, 0, 1, 2, 15, 87, 4, 3, 2, 1, 0]),
        Mnemonic::UNPCKLPS => Some(seq![2u8, 1, 0, 0, 1, 2, 15, 20, 4, 3, 2, 1, 0]),
        Mnemonic::UNPCKHPS => Some(seq![2u8, 1, 0, 0, 1, 2, 15, 21, 4, 3, 2, 1, 0]),
        Mnemonic::MOVNTI => Some(seq![1u8, 2, 15, 195, 2, 1, 0, 0, 4]),
        Mnemonic::MOVNTPD => Some(seq![1u8, 2, 15, 43, 6, 102, 2, 1, 0, 0, 4]),
        Mnemonic::MOVNTDQ => Some(seq![1u8, 2, 15, 231, 6, 102, 2, 1, 0, 0, 4]),
        Mnemonic::MOVDQ2Q => Some(seq![1u8, 2, 15, 214, 6, 242, 2, 1, 0, 0, 4]),
        Mnemonic::MOVQ2DQ => Some(seq![1u8, 2, 15, 214, 6, 243, 2, 1, 0, 0, 4]),
        Mnemonic::ADDPD => Some(seq![1u8, 2, 15, 88, 6, 102, 2, 1, 0, 0, 4, 3, 2, 1, 0]),
        Mnemonic::ADDSD => Some(seq![1u8, 2, 15, 88, 6, 242, 2, 1, 0, 0, 4, 3, 2, 1, 0]),
        Mnemonic::SUBPD => Some(seq![1u8, 2, 15, 92, 6, 102, 2, 1, 0, 0, 4, 3, 2, 1, 0]),
        Mnemonic::SUBSD => Some(seq![1u8, 2, 15, 92, 6, 242, 2, 1, 0, 0, 4, 3, 2, 1, 0]),
        Mnemonic::MULPD => Some(seq![1u8, 2, 15, 89, 6, 102, 2, 1, 0, 0, 4, 3, 2, 1, 0]),
        Mnemonic::MULSD => Some(seq![1u8, 2, 15, 89, 6, 242, 2, 1, 0, 0, 4, 3, 2, 1, 0]),
        Mnemonic::DIVPD => Some(seq![1u8, 2, 15, 94, 6, 102, 2, 1, 0, 0, 4, 3, 2, 1, 0]),
        Mnemonic::DIVSD => Some(seq![1u8, 2, 15, 94, 6, 242, 2, 1, 0, 0, 4, 3, 2, 1, 0]),
        Mnemonic::MINPD => Some(seq![1u8, 2, 15, 93, 6, 102, 2, 1, 0, 0, 4, 3, 2, 1, 0]),
        Mnemonic::MINSD => Some(seq![1u8, 2, 15, 93, 6, 242, 2, 1, 0, 0, 4, 3, 2, 1, 0]),
        Mnemonic::MAXPD => Some(seq![1u8, 2, 15, 95, 6, 102, 2, 1, 0, 0, 4, 3, 2, 1, 0]),
        Mnemonic::MAXSD => Some(seq![1u8, 2, 15, 95, 6, 242, 2, 1, 0, 0, 4, 3, 2, 1, 0]),
        Mnemonic::SQRTPD => Some(seq![1u8, 2, 15, 81, 6, 102, 2, 1, 0, 0, 4, 3, 2, 1, 0]),
        Mnemonic::SQRTSD => Some(seq![1u8, 2, 15, 81, 6, 242, 2, 1, 0, 0, 4, 3, 2, 1, 0]),
        Mnemonic::CMPPD => Some(seq![1u8, 2, 15, 194, 6, 102, 2, 1, 0, 0, 4, 5, 2, 1, 3, 2, 1, 0]),
        Mnemonic::CMPSD => Some(seq![1u8, 2, 15, 194, 6, 242, 2, 1, 0, 0, 4, 5, 2, 1, 3, 2, 1, 0]),
        Mnemonic::COMISD => Some(seq![1u8, 2, 15, 47, 6, 102, 2, 1, 0, 0, 4, 3, 2, 1, 0]),
        Mnemonic::UCOMISD => Some(seq![1u8, 2, 15, 46, 6, 102, 2, 1, 0, 0, 4, 3, 2, 1, 0]),
        Mnemonic::ORPD => Some(seq![1u8, 2, 15, 86, 6, 102, 2, 1, 0, 0, 4, 3, 2, 1, 0]),
        Mnemonic::ANDPD => Some(seq![1u8, 2, 15, 84, 6, 102, 2, 1, 0, 0, 4, 3, 2, 1, 0]),
        Mnemonic::ANDNPD => Some(seq![1u8, 2, 15, 85, 6, 102, 2, 1, 0, 0, 4, 3, 2, 1, 0]),
        Mnemonic::XORPD => Some(seq![1u8, 2, 15, 87, 6, 102, 2, 1, 0, 0, 4, 3, 2, 1, 0]),
        Mnemonic::PSHUFLW => Some(seq![1u8, 2, 15, 112, 6, 242, 2, 1, 0, 0, 4, 5, 2, 1, 3, 2, 1, 0]),
        Mnemonic::PSHUFHW => Some(seq![1u8, 2, 15, 112, 6, 243, 2, 1, 0, 0, 4, 5, 2, 1, 3, 2, 1, 0]),
        Mnemonic::PSHUFD => Some(seq![1u8, 2, 15, 112, 6, 102, 2, 1, 0, 0, 4, 5, 2, 1, 3, 2, 1, 0]),
        Mnemonic::PSLLDQ => Some(seq![1u8, 2, 15, 115, 6, 102, 2, 1, 1, 7, 4, 5, 1, 1]),
        Mnemonic::PSRLDQ => Some(seq![1u8, 2, 15, 115, 6, 102, 2, 1, 1, 3, 4, 5, 1, 1]),
        Mnemonic::PUNPCKHQDQ => Some(seq![1u8, 2, 15, 109, 2, 1, 0, 0, 3, 2, 1, 0, 6, 102, 4]),
        Mnemonic::PUNPCKLQDQ => Some(seq![1u8, 2, 15, 108, 2, 1, 0, 0, 3, 2, 1, 0, 6, 102, 4]),
        Mnemonic::MASKMOVDQU => Some(seq![1u8, 2, 15, 247, 6, 102, 2, 1, 0, 0, 4]),
        Mnemonic::ADDSUBPD => Some(seq![1u8, 2, 15, 208, 6, 102, 2, 1, 0, 0, 3, 2, 1, 0, 4]),
        Mnemonic::ADDSUBPS => Some(seq![1u8, 2, 15, 208, 6, 242, 2, 1, 0, 0, 3, 2, 1, 0, 4]),
        Mnemonic::HADDPD => Some(seq![1u8, 2, 15, 124, 6, 102, 2, 1, 0, 0, 3, 2, 1, 0, 4]),
        Mnemonic::HADDPS => Some(seq![1u8, 2, 15, 124, 6, 242, 2, 1, 0, 0, 3, 2, 1, 0, 4]),
        Mnemonic::HSUBPD => Some(seq![1u8, 2, 15, 125, 6, 102, 2, 1, 0, 0, 3, 2, 1, 0, 4]),
        Mnemonic::HSUBPS => Some(seq![1u8, 2, 15, 125, 6, 242, 2, 1, 0, 0, 3, 2, 1, 0, 4]),
        Mnemonic::MOVSLDUP => Some(seq![1u8, 2, 15, 18, 2, 1, 0, 0, 6, 243, 4, 3, 2, 1, 0]),
        Mnemonic::MOVSHDUP => Some(seq![1u8, 2, 15, 22, 2, 1, 0, 0, 6, 243, 4, 3, 2, 1, 0]),
        Mnemonic::MOVDDUP => Some(seq![1u8, 2, 15, 18, 2, 1, 0, 0, 6, 242, 4, 3, 2, 1, 0]),
        Mnemonic::LDDQU => Some(seq![1u8, 2, 15, 240, 2, 1, 0, 0, 6, 242, 4, 3, 2, 1, 0]),
        Mnemonic::DPPS => Some(seq![1u8, 3, 15, 58, 64, 6, 102, 2, 1, 0, 0, 4, 5, 2, 1, 3, 2, 1, 0]),
        Mnemonic::DPPD => Some(seq![1u8, 3, 15, 58, 65, 6, 102, 2, 1, 0, 0, 4, 5, 2, 1, 3, 2, 1, 0]),
        Mnemonic::PTEST => Some(seq![1u8, 3, 15, 56, 23, 6, 102, 2, 1, 0, 0, 4, 3, 2, 1, 0]),
        Mnemonic::PEXTRB => Some(seq![1u8, 3, 15, 58, 20, 6, 102, 2, 1, 0, 0, 4, 5, 2, 1]),
        Mnemonic::PEXTRD => Some(seq![1u8, 3, 15, 58, 22, 6, 102, 2, 1, 0, 0, 4, 5, 2, 1]),
        Mnemonic::PINSRB => Some(seq![1u8, 3, 15, 58, 32, 6, 102, 2, 1, 0, 0, 4, 5, 2, 1, 3, 2, 1, 0]),
        Mnemonic::PINSRD => Some(seq![1u8, 3, 15, 58, 34, 6, 102, 2, 1, 0, 0, 4, 5, 2, 1, 3, 2, 1, 0]),
        Mnemonic::PMAXSB => Some(seq![1u8, 3, 15, 56, 60, 6, 102, 2, 1, 0, 0, 4, 3, 2, 1, 0]),
        Mnemonic::PMAXSD => Some(seq![1u8, 3, 15, 56, 61, 6, 102, 2, 1, 0, 0, 4, 3, 2, 1, 0]),
        Mnemonic::PMAXUW => Some(seq![1u8, 3, 15, 56, 62, 6, 102, 2, 1, 0, 0, 4, 3, 2, 1, 0]),
        Mnemonic::PMINSB => Some(seq![1u8, 3, 15, 56, 56, 6, 102, 2, 1, 0, 0, 4, 3, 2, 1, 0]),
        Mnemonic::PMINSD => Some(seq![1u8, 3, 15, 56, 57, 6, 102, 2, 1, 0, 0, 4, 3, 2, 1, 0]),
        Mnemonic::PMINUW => Some(seq![1u8, 3, 15, 56, 58, 6, 102, 2, 1, 0, 0, 4, 3, 2, 1, 0]),
        Mnemonic::PMULDQ => Some(seq![1u8, 3, 15, 56, 40, 6, 102, 2, 1, 0, 0, 4, 3, 2, 1, 0]),
        Mnemonic::PMULLD => Some(seq![1u8, 3, 15, 56, 64, 6, 102, 2, 1, 0, 0, 4, 3, 2, 1, 0]),
        Mnemonic::BLENDPS => Some(seq![1u8, 3, 15, 58, 12, 6, 102, 2, 1, 0, 0, 5, 2, 1, 4, 3, 2, 1, 0]),
        Mnemonic::BLENDPD => Some(seq![1u8, 3, 15, 58, 13, 6, 102, 2, 1, 0, 0, 5, 2, 1, 4, 3, 2, 1, 0]),
        Mnemonic::PBLENDW => Some(seq![1u8, 3, 15, 58, 14, 6, 102, 2, 1, 0, 0, 5, 2, 1, 4, 3, 2, 1, 0]),
        Mnemonic::PCMPEQQ => Some(seq![1u8, 3, 15, 56, 41, 6, 102, 2, 1, 0, 0, 4, 3, 2, 1, 0]),
        Mnemonic::ROUNDPS => Some(seq![1u8, 3, 15, 58, 8, 6, 102, 2, 1, 0, 0, 5, 2, 1, 4, 3, 2, 1, 0]),
        Mnemonic::ROUNDPD => Some(seq![1u8, 3, 15, 58, 9, 6, 102, 2, 1, 0, 0, 5, 2, 1, 4, 3, 2, 1, 0]),
        Mnemonic::ROUNDSS => Some(seq![1u8, 3, 15, 58, 10, 6, 102, 2, 1, 0, 0, 5, 2, 1, 4, 3, 2, 1, 0]),
        Mnemonic::ROUNDSD => Some(seq![1u8, 3, 15, 58, 11, 6, 102, 2, 1, 0, 0, 5, 2, 1, 4, 3, 2, 1, 0]),
        _ => None,
    }
}

/// The layout program of a mnemonic of part 0 of the table.
fn prog_0(m: Mnemonic) -> (r: Option<Vec<u8>>)
    ensures
        match spec_prog_0(m) {
            Some(p) => r matches Some(v) && v@ == p,
            None => r is None,
        },
{
    proof {
        reveal(spec_prog_0);
    }
    match m {
        Mnemonic::CLFLUSH => Some(vec![1u8, 2, 15, 174, 2, 1, 1, 7, 4]),
        Mnemonic::MOVHLPS => Some(vec![2u8, 1, 0, 0, 4, 1, 2, 15, 18, 3, 2, 1, 0]),
        Mnemonic::MOVLHPS => Some(vec![2u8, 1, 0, 0, 4, 1, 2, 15, 22, 3, 2, 1, 0]),
        Mnemonic::ADDPS => Some(vec![2u8, 1, 0, 0, 1, 2, 15, 88, 4, 3, 2, 1, 0]),
        Mnemonic::ADDSS => Some(vec![2u8, 1, 0, 0, 6, 243, 1, 2, 15, 88, 4, 3, 2, 1, 0]),
        Mnemonic::SUBPS => Some(vec![2u8, 1, 0, 0, 1, 2, 15, 92, 4, 3, 2, 1, 0]),
        Mnemonic::SUBSS => Some(vec![2u8, 1, 0, 0, 6, 243, 1, 2, 15, 92, 4, 3, 2, 1, 0]),
        Mnemonic::MULPS => Some(vec![2u8, 1, 0, 0, 1, 2, 15, 89, 4, 3, 2, 1, 0]),
        Mnemonic::MULSS => Some(vec![2u8, 1, 0, 0, 6, 243, 1, 2, 15, 89, 4, 3, 2, 1, 0]),
        Mnemonic::DIVPS => Some(vec![2u8, 1, 0, 0, 1, 2, 15, 94, 4, 3, 2, 1, 0]),
        Mnemonic::DIVSS => Some(vec![2u8, 1, 0, 0, 6, 243, 1, 2, 15, 94, 4, 3, 2, 1, 0]),
        Mnemonic::MINPS => Some(vec![2u8, 1, 0, 0, 1, 2, 15, 93, 4, 3, 2, 1, 0]),
        Mnemonic::MINSS => Some(vec![2u8, 1, 0, 0, 6, 243, 1, 2, 15, 93, 4, 3, 2, 1, 0]),
        Mnemonic::MAXPS => Some(vec![2u8, 1, 0, 0, 1, 2, 15, 95, 4, 3, 2, 1, 0]),
        Mnemonic::MAXSS => Some(vec![2u8, 1, 0, 0, 6, 243, 1, 2, 15, 95, 4, 3, 2, 1, 0]),
        Mnemonic::RSQRTPS => Some(vec![2u8, 1, 0, 0, 1, 2, 15, 82, 4, 3, 2, 1, 0]),
        Mnemonic::RSQRTSS => Some(vec![2u8, 1, 0, 0, 6, 243, 1, 2, 15, 82, 4, 3, 2, 1, 0]),
        Mnemonic::SHUFPS => Some(vec![2u8, 1, 0, 0, 1, 2, 15, 198, 4, 5, 2, 1, 3, 2, 1, 0]),
        Mnemonic::SQRTPS => Some(vec![2u8, 1, 0, 0, 1, 2, 15, 81, 4, 3, 2, 1, 0]),
        Mnemonic::SQRTSS => Some(vec![2u8, 1, 0, 0, 6, 243, 1, 2, 15, 81, 4, 3, 2, 1, 0]),
        Mnemonic::CMPPS => Some(vec![2u8, 1, 0, 0, 1, 2, 15, 194, 4, 3, 2, 1, 0, 5, 2, 1]),
        Mnemonic::CMPSS => Some(vec![2u8, 1, 0, 0, 6, 243, 1, 2, 15, 194, 4, 3, 2, 1, 0, 5, 2, 1]),
        Mnemonic::RCPPS => Some(vec![2u8, 1, 0, 0, 1, 2, 15, 83, 4, 3, 2, 1, 0]),
        Mnemonic::RCPSS => Some(vec![2u8, 1, 0, 0, 6, 243, 1, 2, 15, 83, 4, 3, 2, 1, 0]),
        Mnemonic::UCOMISS => Some(vec![2u8, 1, 0, 0, 6, 243, 1, 2, 15, 46, 4, 3, 2, 1, 0]),
        Mnemonic::COMISS => Some(vec![2u8, 1, 0, 0, 6, 243, 1, 2, 15, 47, 4, 3, 2, 1, 0]),
        Mnemonic::ORPS => Some(vec![2u8, 1, 0, 0, 1, 2, 15, 86, 4, 3, 2, 1, 0]),
        Mnemonic::ANDPS => Some(vec![2u8, 1, 0, 0, 1, 2, 15, 84, 4, 3, 2, 1, 0]),
        Mnemonic::ANDNPS => Some(vec![2u8, 1, 0, 0, 1, 2, 15, 85, 4, 3, 2, 1, 0]),
        Mnemonic::XORPS => Some(vec![2u8, 1, 0, 0, 1, 2, 15, 87, 4, 3, 2, 1, 0]),
        Mnemonic::UNPCKLPS => Some(vec![2u8, 1, 0, 0, 1, 2, 15, 20, 4, 3, 2, 1, 0]),
        Mnemonic::UNPCKHPS => Some(vec![2u8, 1, 0, 0, 1, 2, 15, 21, 4, 3, 2, 1, 0]),
        Mnemonic::MOVNTI => Some(vec![1u8, 2, 15, 195, 2, 1, 0, 0, 4]),
        Mnemonic::MOVNTPD => Some(vec![1u8, 2, 15, 43, 6, 102, 2, 1, 0, 0, 4]),
        Mnemonic::MOVNTDQ => Some(vec![1u8, 2, 15, 231, 6, 102, 2, 1, 0, 0, 4]),
        Mnemonic::MOVDQ2Q => Some(vec![1u8, 2, 15, 214, 6, 242, 2, 1, 0, 0, 4]),
        Mnemonic::MOVQ2DQ => Some(vec![1u8, 2, 15, 214, 6, 243, 2, 1, 0, 0, 4]),
        Mnemonic::ADDPD => Some(vec![1u8, 2, 15, 88, 6, 102, 2, 1, 0, 0, 4, 3, 2, 1, 0]),
        Mnemonic::ADDSD => Some(vec![1u8, 2, 15, 88, 6, 242, 2, 1, 0, 0, 4, 3, 2, 1, 0]),
        Mnemonic::SUBPD => Some(vec![1u8, 2, 15, 92, 6, 102, 2, 1, 0, 0, 4, 3, 2, 1, 0]),
        Mnemonic::SUBSD => Some(vec![1u8, 2, 15, 92, 6, 242, 2, 1, 0, 0, 4, 3, 2, 1, 0]),
        Mnemonic::MULPD => Some(vec![1u8, 2, 15, 89, 6, 102, 2, 1, 0, 0, 4, 3, 2, 1, 0]),
        Mnemonic::MULSD => Some(vec![1u8, 2, 15, 89, 6, 242, 2, 1, 0, 0, 4, 3, 2, 1, 0]),
        Mnemonic::DIVPD => Some(vec![1u8, 2, 15, 94, 6, 102, 2, 1, 0, 0, 4, 3, 2, 1, 0]),
        Mnemonic::DIVSD => Some(vec![1u8, 2, 15, 94, 6, 242, 2, 1, 0, 0, 4, 3, 2, 1, 0]),
        Mnemonic::MINPD => Some(vec![1u8, 2, 15, 93, 6, 102, 2, 1, 0, 0, 4, 3, 2, 1, 0]),
        Mnemonic::MINSD => Some(vec![1u8, 2, 15, 93, 6, 242, 2, 1, 0, 0, 4, 3, 2, 1, 0]),
        Mnemonic::MAXPD => Some(vec![1u8, 2, 15, 95, 6, 102, 2, 1, 0, 0, 4, 3, 2, 1, 0]),
        Mnemonic::MAXSD => Some(vec![1u8, 2, 15, 95, 6, 242, 2, 1, 0, 0, 4, 3, 2, 1, 0]),
        Mnemonic::SQRTPD => Some(vec![1u8, 2, 15, 81, 6, 102, 2, 1, 0, 0, 4, 3, 2, 1, 0]),
        Mnemonic::SQRTSD => Some(vec![1u8, 2, 15, 81, 6, 242, 2, 1, 0, 0, 4, 3, 2, 1, 0]),
        Mnemonic::CMPPD => Some(vec![1u8, 2, 15, 194, 6, 102, 2, 1, 0, 0, 4, 5, 2, 1, 3, 2, 1, 0]),
        Mnemonic::CMPSD => Some(vec![1u8, 2, 15, 194, 6, 242, 2, 1, 0, 0, 4, 5, 2, 1, 3, 2, 1, 0]),
        Mnemonic::COMISD => Some(vec![1u8, 2, 15, 47, 6, 102, 2, 1, 0, 0, 4, 3, 2, 1, 0]),
        Mnemonic::UCOMISD => Some(vec![1u8, 2, 15, 46, 6, 102, 2, 1, 0, 0, 4, 3, 2, 1, 0]),
        Mnemonic::ORPD => Some(vec![1u8, 2, 15, 86, 6, 102, 2, 1, 0, 0, 4, 3, 2, 1, 0]),
        Mnemonic::ANDPD => Some(vec![1u8, 2, 15, 84, 6, 102, 2, 1, 0, 0, 4, 3, 2, 1, 0]),
        Mnemonic::ANDNPD => Some(vec![1u8, 2, 15, 85, 6, 102, 2, 1, 0, 0, 4, 3, 2, 1, 0]),
        Mnemonic::XORPD => Some(vec![1u8, 2, 15, 87, 6, 102, 2, 1, 0, 0, 4, 3, 2, 1, 0]),
        Mnemonic::PSHUFLW => Some(vec![1u8, 2, 15, 112, 6, 242, 2, 1, 0, 0, 4, 5, 2, 1, 3, 2, 1, 0]),
        Mnemonic::PSHUFHW => Some(vec![1u8, 2, 15, 112, 6, 243, 2, 1, 0, 0, 4, 5, 2, 1, 3, 2, 1, 0]),
        Mnemonic::PSHUFD => Some(vec![1u8, 2, 15, 112, 6, 102, 2, 1, 0, 0, 4, 5, 2, 1, 3, 2, 1, 0]),
        Mnemonic::PSLLDQ => Some(vec![1u8, 2, 15, 115, 6, 102, 2, 1, 1, 7, 4, 5, 1, 1]),
        Mnemonic::PSRLDQ => Some(vec![1u8, 2, 15, 115, 6, 102, 2, 1, 1, 3, 4, 5, 1, 1]),
        Mnemonic::PUNPCKHQDQ => Some(vec![1u8, 2, 15, 109, 2, 1, 0, 0, 3, 2, 1, 0, 6, 102, 4]),
        Mnemonic::PUNPCKLQDQ => Some(vec![1u8, 2, 15, 108, 2, 1, 0, 0, 3, 2, 1, 0, 6, 102, 4]),
        Mnemonic::MASKMOVDQU => Some(vec![1u8, 2, 15, 247, 6, 102, 2, 1, 0, 0, 4]),
        Mnemonic::ADDSUBPD => Some(vec![1u8, 2, 15, 208, 6, 102, 2, 1, 0, 0, 3, 2, 1, 0, 4]),
        Mnemonic::ADDSUBPS => Some(vec![1u8, 2, 15, 208, 6, 242, 2, 1, 0, 0, 3, 2, 1, 0, 4]),
        Mnemonic::HADDPD => Some(vec![1u8, 2, 15, 124, 6, 102, 2, 1, 0, 0, 3, 2, 1, 0, 4]),
        Mnemonic::HADDPS => Some(vec![1u8, 2, 15, 124, 6, 242, 2, 1, 0, 0, 3, 2, 1, 0, 4]),
        Mnemonic::HSUBPD => Some(vec![1u8, 2, 15, 125, 6, 102, 2, 1, 0, 0, 3, 2, 1, 0, 4]),
        Mnemonic::HSUBPS => Some(vec![1u8, 2, 15, 125, 6, 242, 2, 1, 0, 0, 3, 2, 1, 0, 4]),
        Mnemonic::MOVSLDUP => Some(vec![1u8, 2, 15, 18, 2, 1, 0, 0, 6, 243, 4, 3, 2, 1, 0]),
        Mnemonic::MOVSHDUP => Some(vec![1u8, 2, 15, 22, 2, 1, 0, 0, 6, 243, 4, 3, 2, 1, 0]),
        Mnemonic::MOVDDUP => Some(vec![1u8, 2, 15, 18, 2, 1, 0, 0, 6, 242, 4, 3, 2, 1, 0]),
        Mnemonic::LDDQU => Some(vec![1u8, 2, 15, 240, 2, 1, 0, 0, 6, 242, 4, 3, 2, 1, 0]),
        Mnemonic::DPPS => Some(vec![1u8, 3, 15, 58, 64, 6, 102, 2, 1, 0, 0, 4, 5, 2, 1, 3, 2, 1, 0]),
        Mnemonic::DPPD => Some(vec![1u8, 3, 15, 58, 65, 6, 102, 2, 1, 0, 0, 4, 5, 2, 1, 3, 2, 1, 0]),
        Mnemonic::PTEST => Some(vec![1u8, 3, 15, 56, 23, 6, 102, 2, 1, 0, 0, 4, 3, 2, 1, 0]),
        Mnemonic::PEXTRB => Some(vec![1u8, 3, 15, 58, 20, 6, 102, 2, 1, 0, 0, 4, 5, 2, 1]),
        Mnemonic::PEXTRD => Some(vec![1u8, 3, 15, 58, 22, 6, 102, 2, 1, 0, 0, 4, 5, 2, 1]),
        Mnemonic::PINSRB => Some(vec![1u8, 3, 15, 58, 32, 6, 102, 2, 1, 0, 0, 4, 5, 2, 1, 3, 2, 1, 0]),
        Mnemonic::PINSRD => Some(vec![1u8, 3, 15, 58, 34, 6, 102, 2, 1, 0, 0, 4, 5, 2, 1, 3, 2, 1, 0]),
        Mnemonic::PMAXSB => Some(vec![1u8, 3, 15, 56, 60, 6, 102, 2, 1, 0, 0, 4, 3, 2, 1, 0]),
        Mnemonic::PMAXSD => Some(vec![1u8, 3, 15, 56, 61, 6, 102, 2, 1, 0, 0, 4, 3, 2, 1, 0]),
        Mnemonic::PMAXUW => Some(vec![1u8, 3, 15, 56, 62, 6, 102, 2, 1, 0, 0, 4, 3, 2, 1, 0]),
        Mnemonic::PMINSB => Some(vec![1u8, 3, 15, 56, 56, 6, 102, 2, 1, 0, 0, 4, 3, 2, 1, 0]),
        Mnemonic::PMINSD => Some(vec![1u8, 3, 15, 56, 57, 6, 102, 2, 1, 0, 0, 4, 3, 2, 1, 0]),
        Mnemonic::PMINUW => Some(vec![1u8, 3, 15, 56, 58, 6, 102, 2, 1, 0, 0, 4, 3, 2, 1, 0]),
        Mnemonic::PMULDQ => Some(vec![1u8, 3, 15, 56, 40, 6, 102, 2, 1, 0, 0, 4, 3, 2, 1, 0]),
        Mnemonic::PMULLD => Some(vec![1u8, 3, 15, 56, 64, 6, 102, 2, 1, 0, 0, 4, 3, 2, 1, 0]),
        Mnemonic::BLENDPS => Some(vec![1u8, 3, 15, 58, 12, 6, 102, 2, 1, 0, 0, 5, 2, 1, 4, 3, 2, 1, 0]),
        Mnemonic::BLENDPD => Some(vec![1u8, 3, 15, 58, 13, 6, 102, 2, 1, 0, 0, 5, 2, 1, 4, 3, 2, 1, 0]),
        Mnemonic::PBLENDW => Some(vec![1u8, 3, 15, 58, 14, 6, 102, 2, 1, 0, 0, 5, 2, 1, 4, 3, 2, 1, 0]),
        Mnemonic::PCMPEQQ => Some(vec![1u8, 3, 15, 56, 41, 6, 102, 2, 1, 0, 0, 4, 3, 2, 1, 0]),
        Mnemonic::ROUNDPS => Some(vec![1u8, 3, 15, 58, 8, 6, 102, 2, 1, 0, 0, 5, 2, 1, 4, 3, 2, 1, 0]),
        Mnemonic::ROUNDPD => Some(vec![1u8, 3, 15, 58, 9, 6, 102, 2, 1, 0, 0, 5, 2, 1, 4, 3, 2, 1, 0]),
        Mnemonic::ROUNDSS => Some(vec![1u8, 3, 15, 58, 10, 6, 102, 2, 1, 0, 0, 5, 2, 1, 4, 3, 2, 1, 0]),
        Mnemonic::ROUNDSD => Some(vec![1u8, 3, 15, 58, 11, 6, 102, 2, 1, 0, 0, 5, 2, 1, 4, 3, 2, 1, 0]),
        _ => None,
    }
}

/// Layout programs (see `run_prog`) of the mnemonics of part 1 of the table.
#[verifier::opaque]
pub open spec fn spec_prog_1(m: Mnemonic) -> Option<Seq<u8>> {
    match m {
        Mnemonic::MPSADBW => Some(seq![1u8, 3, 15, 58, 66, 6, 102, 2, 1, 0, 0, 5, 2, 1, 4, 3, 2, 1, 0]),
        Mnemonic::PCMPGTQ => Some(seq![1u8, 3, 15, 56, 55, 6, 102, 2, 1, 0, 0, 4, 3, 2, 1, 0]),
        Mnemonic::BLENDVPS => Some(seq![1u8, 3, 15, 56, 20, 6, 102, 2, 1, 0, 0, 4, 3, 2, 1, 0]),
        Mnemonic::BLENDVPD => Some(seq![1u8, 3, 15, 56, 21, 6, 102, 2, 1, 0, 0, 4, 3, 2, 1, 0]),
        Mnemonic::PBLENDVB => Some(seq![1u8, 3, 15, 56, 16, 6, 102, 2, 1, 0, 0, 4, 3, 2, 1, 0]),
        Mnemonic::INSERTPS => Some(seq![1u8, 3, 15, 58, 33, 6, 102, 2, 1, 0, 0, 4, 5, 2, 1, 3, 2, 1, 0]),
        Mnemonic::PACKUSDW => Some(seq![1u8, 3, 15, 56, 43, 6, 102, 2, 1, 0, 0, 4, 3, 2, 1, 0]),
        Mnemonic::MOVNTDQA => Some(seq![1u8, 3, 15, 56, 42, 6, 102, 2, 1, 0, 0, 4, 3, 2, 1, 0]),
        Mnemonic::PCMPESTRM => Some(seq![1u8, 3, 15, 58, 96, 6, 102, 2, 1, 0, 0, 4, 5, 2, 1, 3, 2, 1, 0]),
        Mnemonic::PCMPESTRI => Some(seq![1u8, 3, 15, 58, 97, 6, 102, 2, 1, 0, 0, 4, 5, 2, 1, 3, 2, 1, 0]),
        Mnemonic::PCMPISTRM => Some(seq![1u8, 3, 15, 58, 98, 6, 102, 2, 1, 0, 0, 4, 5, 2, 1, 3, 2, 1, 0]),
        Mnemonic::PCMPISTRI => Some(seq![1u8, 3, 15, 58, 99, 6, 102, 2, 1, 0, 0, 4, 3, 2, 1, 0, 5, 2, 1]),
        Mnemonic::PHMINPOSUW => Some(seq![1u8, 3, 15, 56, 65, 6, 102, 2, 1, 0, 0, 4, 5, 2, 1, 3, 2, 1, 0]),
        Mnemonic::CRC32 => Some(seq![1u8, 3, 15, 56, 240, 6, 242, 2, 1, 0, 0, 4, 3, 2, 1, 0]),
        Mnemonic::VMOVSLDUP => Some(seq![1u8, 1, 18, 10, 243, 15, 0, 0, 2, 1, 0, 0, 3, 2, 1, 0]),
        Mnemonic::VLDDQU => Some(seq![1u8, 1, 240, 10, 242, 15, 0, 0, 2, 1, 0, 0, 3, 2, 1, 0]),
        Mnemonic::VMOVDDUP => Some(seq![1u8, 1, 18, 10, 242, 15, 0, 0, 2, 1, 0, 0, 3, 2, 1, 0]),
        Mnemonic::VMOVSHDUP => Some(seq![1u8, 1, 22, 10, 243, 15, 0, 0, 2, 1, 0, 0, 3, 2, 1, 0]),
        Mnemonic::VMOVMSKPD => Some(seq![1u8, 1, 80, 10, 102, 15, 0, 0, 2, 1, 0, 0, 3, 2, 1, 0]),
        Mnemonic::VADDPS => Some(seq![1u8, 1, 88, 10, 0, 15, 0, 0, 2, 1, 0, 0, 3, 3, 1, 2, 0]),
        Mnemonic::VADDSUBPS => Some(seq![1u8, 1, 208, 10, 242, 15, 0, 0, 2, 1, 0, 0, 3, 3, 1, 2, 0]),
        Mnemonic::VADDSUBPD => Some(seq![1u8, 1, 208, 10, 102, 15, 0, 0, 2, 1, 0, 0, 3, 3, 1, 2, 0]),
        Mnemonic::VHADDPS => Some(seq![1u8, 1, 124, 10, 242, 15, 0, 0, 2, 1, 0, 0, 3, 3, 1, 2, 0]),
        Mnemonic::VHADDPD => Some(seq![1u8, 1, 124, 10, 102, 15, 0, 0, 2, 1, 0, 0, 3, 3, 1, 2, 0]),
        Mnemonic::VHSUBPS => Some(seq![1u8, 1, 125, 10, 242, 15, 0, 0, 2, 1, 0, 0, 3, 3, 1, 2, 0]),
        Mnemonic::VHSUBPD => Some(seq![1u8, 1, 125, 10, 102, 15, 0, 0, 2, 1, 0, 0, 3, 3, 1, 2, 0]),
        Mnemonic::VADDPD => Some(seq![1u8, 1, 88, 10, 102, 15, 0, 0, 2, 1, 0, 0, 3, 3, 1, 2, 0]),
        Mnemonic::VADDSS => Some(seq![1u8, 1, 88, 10, 243, 15, 0, 0, 2, 1, 0, 0, 3, 3, 1, 2, 0]),
        Mnemonic::VADDSD => Some(seq![1u8, 1, 88, 10, 242, 15, 0, 0, 2, 1, 0, 0, 3, 3, 1, 2, 0]),
        Mnemonic::VSUBPS => Some(seq![1u8, 1, 92, 10, 0, 15, 0, 0, 2, 1, 0, 0, 3, 3, 1, 2, 0]),
        Mnemonic::VSUBPD => Some(seq![1u8, 1, 92, 10, 102, 15, 0, 0, 2, 1, 0, 0, 3, 3, 1, 2, 0]),
        Mnemonic::VSUBSS => Some(seq![1u8, 1, 92, 10, 243, 15, 0, 0, 2, 1, 0, 0, 3, 3, 1, 2, 0]),
        Mnemonic::VSUBSD => Some(seq![1u8, 1, 92, 10, 242, 15, 0, 0, 2, 1, 0, 0, 3, 3, 1, 2, 0]),
        Mnemonic::VMULPS => Some(seq![1u8, 1, 89, 10, 0, 15, 0, 0, 2, 1, 0, 0, 3, 3, 1, 2, 0]),
        Mnemonic::VMULPD => Some(seq![1u8, 1, 89, 10, 102, 15, 0, 0, 2, 1, 0, 0, 3, 3, 1, 2, 0]),
        Mnemonic::VMULSS => Some(seq![1u8, 1, 89, 10, 243, 15, 0, 0, 2, 1, 0, 0, 3, 3, 1, 2, 0]),
        Mnemonic::VMULSD => Some(seq![1u8, 1, 89, 10, 242, 15, 0, 0, 2, 1, 0, 0, 3, 3, 1, 2, 0]),
        Mnemonic::VDIVPS => Some(seq![1u8, 1, 94, 10, 0, 15, 0, 0, 2, 1, 0, 0, 3, 3, 1, 2, 0]),
        Mnemonic::VDIVPD => Some(seq![1u8, 1, 94, 10, 102, 15, 0, 0, 2, 1, 0, 0, 3, 3, 1, 2, 0]),
        Mnemonic::VDIVSS => Some(seq![1u8, 1, 94, 10, 243, 15, 0, 0, 2, 1, 0, 0, 3, 3, 1, 2, 0]),
        Mnemonic::VDIVSD => Some(seq![1u8, 1, 94, 10, 242, 15, 0, 0, 2, 1, 0, 0, 3, 3, 1, 2, 0]),
        Mnemonic::VRCPPS => Some(seq![1u8, 1, 83, 10, 0, 15, 0, 0, 2, 1, 0, 0, 3, 2, 1, 0]),
        Mnemonic::VRCPSS => Some(seq![1u8, 1, 83, 10, 243, 15, 0, 0, 2, 1, 0, 0, 3, 2, 1, 0]),
        Mnemonic::VSQRTPS => Some(seq![1u8, 1, 81, 10, 0, 15, 0, 0, 2, 1, 0, 0, 3, 2, 1, 0]),
        Mnemonic::VSQRTPD => Some(seq![1u8, 1, 81, 10, 102, 15, 0, 0, 2, 1, 0, 0, 3, 2, 1, 0]),
        Mnemonic::VSQRTSS => Some(seq![1u8, 1, 81, 10, 243, 15, 0, 0, 2, 1, 0, 0, 3, 2, 1, 0]),
        Mnemonic::VSQRTSD => Some(seq![1u8, 1, 81, 10, 242, 15, 0, 0, 2, 1, 0, 0, 3, 2, 1, 0]),
        Mnemonic::VRSQRTPS => Some(seq![1u8, 1, 82, 10, 0, 15, 0, 0, 2, 1, 0, 0, 3, 2, 1, 0]),
        Mnemonic::VRSQRTSS => Some(seq![1u8, 1, 82, 10, 243, 15, 0, 0, 2, 1, 0, 0, 3, 2, 1, 0]),
        Mnemonic::VPMULDQ => Some(seq![1u8, 1, 40, 10, 102, 56, 0, 0, 2, 1, 0, 0, 3, 3, 1, 2, 0]),
        Mnemonic::VPMULLD => Some(seq![1u8, 1, 64, 10, 102, 56, 0, 0, 2, 1, 0, 0, 3, 3, 1, 2, 0]),
        Mnemonic::VPMINSB => Some(seq![1u8, 1, 56, 10, 102, 56, 0, 0, 2, 1, 0, 0, 3, 3, 1, 2, 0]),
        Mnemonic::VPMINSD => Some(seq![1u8, 1, 57, 10, 102, 56, 0, 0, 2, 1, 0, 0, 3, 3, 1, 2, 0]),
        Mnemonic::VPMINUB => Some(seq![1u8, 1, 218, 10, 102, 15, 0, 0, 2, 1, 0, 0, 3, 3, 1, 2, 0]),
        Mnemonic::VPMINUW => Some(seq![1u8, 1, 58, 10, 102, 56, 0, 0, 2, 1, 0, 0, 3, 3, 1, 2, 0]),
        Mnemonic::VPMAXSB => Some(seq![1u8, 1, 60, 10, 102, 56, 0, 0, 2, 1, 0, 0, 3, 3, 1, 2, 0]),
        Mnemonic::VPMAXSD => Some(seq![1u8, 1, 61, 10, 102, 56, 0, 0, 2, 1, 0, 0, 3, 3, 1, 2, 0]),
        Mnemonic::VPMAXUB => Some(seq![1u8, 1, 222, 10, 102, 15, 0, 0, 2, 1, 0, 0, 3, 3, 1, 2, 0]),
        Mnemonic::VPMAXUW => Some(seq![1u8, 1, 62, 10, 102, 56, 0, 0, 2, 1, 0, 0, 3, 3, 1, 2, 0]),
        Mnemonic::VMINPS => Some(seq![1u8, 1, 93, 10, 0, 15, 0, 0, 2, 1, 0, 0, 3, 3, 1, 2, 0]),
        Mnemonic::VMINPD => Some(seq![1u8, 1, 93, 10, 102, 15, 0, 0, 2, 1, 0, 0, 3, 3, 1, 2, 0]),
        Mnemonic::VMINSS => Some(seq![1u8, 1, 93, 10, 243, 15, 0, 0, 2, 1, 0, 0, 3, 3, 1, 2, 0]),
        Mnemonic::VMINSD => Some(seq![1u8, 1, 93, 10, 242, 15, 0, 0, 2, 1, 0, 0, 3, 3, 1, 2, 0]),
        Mnemonic::VMAXPS => Some(seq![1u8, 1, 95, 10, 0, 15, 0, 0, 2, 1, 0, 0, 3, 3, 1, 2, 0]),
        Mnemonic::VMAXPD => Some(seq![1u8, 1, 95, 10, 102, 15, 0, 0, 2, 1, 0, 0, 3, 3, 1, 2, 0]),
        Mnemonic::VMAXSS => Some(seq![1u8, 1, 95, 10, 243, 15, 0, 0, 2, 1, 0, 0, 3, 3, 1, 2, 0]),
        Mnemonic::VMAXSD => Some(seq![1u8, 1, 95, 10, 242, 15, 0, 0, 2, 1, 0, 0, 3, 3, 1, 2, 0]),
        Mnemonic::VORPS => Some(seq![1u8, 1, 86, 10, 0, 15, 0, 0, 2, 1, 0, 0, 3, 3, 1, 2, 0]),
        Mnemonic::VORPD => Some(seq![1u8, 1, 86, 10, 102, 15, 0, 0, 2, 1, 0, 0, 3, 3, 1, 2, 0]),
        Mnemonic::VANDPS => Some(seq![1u8, 1, 84, 10, 0, 15, 0, 0, 2, 1, 0, 0, 3, 3, 1, 2, 0]),
        Mnemonic::VANDPD => Some(seq![1u8, 1, 84, 10, 102, 15, 0, 0, 2, 1, 0, 0, 3, 3, 1, 2, 0]),
        Mnemonic::VANDNPD => Some(seq![1u8, 1, 85, 10, 102, 15, 0, 0, 2, 1, 0, 0, 3, 3, 1, 2, 0]),
        Mnemonic::VXORPD => Some(seq![1u8, 1, 87, 10, 102, 15, 0, 0, 2, 1, 0, 0, 3, 3, 1, 2, 0]),
        Mnemonic::VBLENDVPS => Some(seq![1u8, 1, 74, 10, 102, 58, 0, 0, 2, 1, 0, 0, 3, 3, 1, 2, 0, 5, 3, 1]),
        Mnemonic::VPBLENDVB => Some(seq![1u8, 1, 76, 10, 102, 58, 0, 0, 2, 1, 0, 0, 3, 3, 1, 2, 0, 5, 3, 1]),
        Mnemonic::VBLENDVPD => Some(seq![1u8, 1, 75, 10, 102, 58, 0, 0, 2, 1, 0, 0, 3, 3, 1, 2, 0, 5, 3, 1]),
        Mnemonic::VPHMINPOSUW => Some(seq![1u8, 1, 65, 10, 102, 56, 0, 0, 2, 1, 0, 0, 3, 2, 1, 0]),
        Mnemonic::VEXTRACTPS => Some(seq![1u8, 1, 23, 10, 102, 58, 0, 0, 2, 1, 0, 0, 3, 2, 0, 1, 5, 2, 1]),
        Mnemonic::VMOVNTDQA => Some(seq![1u8, 1, 42, 10, 102, 56, 0, 0, 2, 1, 0, 0, 3, 2, 1, 0]),
        Mnemonic::VPACKUSDW => Some(seq![1u8, 1, 43, 10, 102, 56, 0, 0, 2, 1, 0, 0, 3, 3, 1, 2, 0]),
        Mnemonic::VPCMPESTRM => Some(seq![1u8, 1, 96, 10, 102, 58, 0, 0, 2, 1, 0, 0, 3, 2, 1, 0, 5, 2, 1]),
        Mnemonic::VPCMPESTRI => Some(seq![1u8, 1, 97, 10, 102, 58, 0, 0, 2, 1, 0, 0, 3, 2, 1, 0, 5, 2, 1]),
        Mnemonic::VPCMPISTRM => Some(seq![1u8, 1, 98, 10, 102, 58, 0, 0, 2, 1, 0, 0, 3, 2, 1, 0, 5, 2, 1]),
        Mnemonic::VPCMPISTRI => Some(seq![1u8, 1, 99, 10, 102, 58, 0, 0, 2, 1, 0, 0, 3, 2, 1, 0, 5, 2, 1]),
        Mnemonic::VINSERTPS => Some(seq![1u8, 1, 33, 10, 102, 58, 0, 0, 2, 1, 0, 0, 3, 3, 1, 2, 0, 5, 3, 1]),
        Mnemonic::VBLENDPS => Some(seq![1u8, 1, 12, 10, 102, 58, 0, 0, 2, 1, 0, 0, 3, 3, 1, 2, 0, 5, 3, 1]),
        Mnemonic::VBLENDPD => Some(seq![1u8, 1, 13, 10, 102, 58, 0, 0, 2, 1, 0, 0, 3, 3, 1, 2, 0, 5, 3, 1]),
        Mnemonic::VPCMPGTQ => Some(seq![1u8, 1, 55, 10, 102, 56, 0, 0, 2, 1, 0, 0, 3, 3, 1, 2, 0]),
        Mnemonic::VPCMPEQQ => Some(seq![1u8, 1, 41, 10, 102, 56, 0, 0, 2, 1, 0, 0, 3, 3, 1, 2, 0]),
        Mnemonic::VMPSADBW => Some(seq![1u8, 1, 66, 10, 102, 58, 0, 0, 2, 1, 0, 0, 3, 3, 1, 2, 0, 5, 3, 1]),
        Mnemonic::VROUNDSS => Some(seq![1u8, 1, 10, 10, 102, 58, 0, 0, 2, 1, 0, 0, 3, 3, 1, 2, 0, 5, 3, 1]),
        Mnemonic::VROUNDSD => Some(seq![1u8, 1, 11, 10, 102, 58, 0, 0, 2, 1, 0, 0, 3, 3, 1, 2, 0, 5, 3, 1]),
        Mnemonic::VROUNDPS => Some(seq![1u8, 1, 8, 10, 102, 58, 0, 0, 2, 1, 0, 0, 3, 2, 1, 0, 5, 2, 1]),
        Mnemonic::VROUNDPD => Some(seq![1u8, 1, 9, 10, 102, 58, 0, 0, 2, 1, 0, 0, 3, 2, 1, 0, 5, 2, 1]),
        Mnemonic::VPBLENDW => Some(seq![1u8, 1, 14, 10, 102, 58, 0, 0, 2, 1, 0, 0, 3, 3, 1, 2, 0, 5, 3, 1]),
        Mnemonic::VCMPPD => Some(seq![1u8, 1, 194, 10, 102, 15, 0, 0, 2, 1, 0, 0, 3, 3, 1, 2, 0, 5, 3, 1]),
        Mnemonic::VANDNPS => Some(seq![1u8, 1, 85, 10, 0, 15, 0, 0, 2, 1, 0, 0, 3, 3, 1, 2, 0]),
        Mnemonic::VXORPS => Some(seq![1u8, 1, 87, 10, 0, 15, 0, 0, 2, 1, 0, 0, 3, 3, 1, 2, 0]),
        Mnemonic::VPTEST => Some(seq![1u8, 1, 23, 10, 102, 56, 0, 0, 2, 1, 0, 0, 3, 2, 1, 0]),
        Mnemonic::VDPPS => Some(seq![1u8, 1, 64, 10, 102, 58, 0, 0, 2, 1, 0, 0, 3, 3, 1, 2, 0, 5, 3, 1]),
        _ => None,
    }
}

/// The layout program of a mnemonic of part 1 of the table.
fn prog_1(m: Mnemonic) -> (r: Option<Vec<u8>>)
    ensures
        match spec_prog_1(m) {
            Some(p) => r matches Some(v) && v@ == p,
            None => r is None,
        },
{
    proof {
        reveal(spec_prog_1);
    }
    match m {
        Mnemonic::MPSADBW => Some(vec![1u8, 3, 15, 58, 66, 6, 102, 2, 1, 0, 0, 5, 2, 1, 4, 3, 2, 1, 0]),
        Mnemonic::PCMPGTQ => Some(vec![1u8, 3, 15, 56, 55, 6, 102, 2, 1, 0, 0, 4, 3, 2, 1, 0]),
        Mnemonic::BLENDVPS => Some(vec![1u8, 3, 15, 56, 20, 6, 102, 2, 1, 0, 0, 4, 3, 2, 1, 0]),
        Mnemonic::BLENDVPD => Some(vec![1u8, 3, 15, 56, 21, 6, 102, 2, 1, 0, 0, 4, 3, 2, 1, 0]),
        Mnemonic::PBLENDVB => Some(vec![1u8, 3, 15, 56, 16, 6, 102, 2, 1, 0, 0, 4, 3, 2, 1, 0]),
        Mnemonic::INSERTPS => Some(vec![1u8, 3, 15, 58, 33, 6, 102, 2, 1, 0, 0, 4, 5, 2, 1, 3, 2, 1, 0]),
        Mnemonic::PACKUSDW => Some(vec![1u8, 3, 15, 56, 43, 6, 102, 2, 1, 0, 0, 4, 3, 2, 1, 0]),
        Mnemonic::MOVNTDQA => Some(vec![1u8, 3, 15, 56, 42, 6, 102, 2, 1, 0, 0, 4, 3, 2, 1, 0]),
        Mnemonic::PCMPESTRM => Some(vec![1u8, 3, 15, 58, 96, 6, 102, 2, 1, 0, 0, 4, 5, 2, 1, 3, 2, 1, 0]),
        Mnemonic::PCMPESTRI => Some(vec![1u8, 3, 15, 58, 97, 6, 102, 2, 1, 0, 0, 4, 5, 2, 1, 3, 2, 1, 0]),
        Mnemonic::PCMPISTRM => Some(vec![1u8, 3, 15, 58, 98, 6, 102, 2, 1, 0, 0, 4, 5, 2, 1, 3, 2, 1, 0]),
        Mnemonic::PCMPISTRI => Some(vec![1u8, 3, 15, 58, 99, 6, 102, 2, 1, 0, 0, 4, 3, 2, 1, 0, 5, 2, 1]),
        Mnemonic::PHMINPOSUW => Some(vec![1u8, 3, 15, 56, 65, 6, 102, 2, 1, 0, 0, 4, 5, 2, 1, 3, 2, 1, 0]),
        Mnemonic::CRC32 => Some(vec![1u8, 3, 15, 56, 240, 6, 242, 2, 1, 0, 0, 4, 3, 2, 1, 0]),
        Mnemonic::VMOVSLDUP => Some(vec![1u8, 1, 18, 10, 243, 15, 0, 0, 2, 1, 0, 0, 3, 2, 1, 0]),
        Mnemonic::VLDDQU => Some(vec![1u8, 1, 240, 10, 242, 15, 0, 0, 2, 1, 0, 0, 3, 2, 1, 0]),
        Mnemonic::VMOVDDUP => Some(vec![1u8, 1, 18, 10, 242, 15, 0, 0, 2, 1, 0, 0, 3, 2, 1, 0]),
        Mnemonic::VMOVSHDUP => Some(vec![1u8, 1, 22, 10, 243, 15, 0, 0, 2, 1, 0, 0, 3, 2, 1, 0]),
        Mnemonic::VMOVMSKPD => Some(vec![1u8, 1, 80, 10, 102, 15, 0, 0, 2, 1, 0, 0, 3, 2, 1, 0]),
        Mnemonic::VADDPS => Some(vec![1u8, 1, 88, 10, 0, 15, 0, 0, 2, 1, 0, 0, 3, 3, 1, 2, 0]),
        Mnemonic::VADDSUBPS => Some(vec![1u8, 1, 208, 10, 242, 15, 0, 0, 2, 1, 0, 0, 3, 3, 1, 2, 0]),
        Mnemonic::VADDSUBPD => Some(vec![1u8, 1, 208, 10, 102, 15, 0, 0, 2, 1, 0, 0, 3, 3, 1, 2, 0]),
        Mnemonic::VHADDPS => Some(vec![1u8, 1, 124, 10, 242, 15, 0, 0, 2, 1, 0, 0, 3, 3, 1, 2, 0]),
        Mnemonic::VHADDPD => Some(vec![1u8, 1, 124, 10, 102, 15, 0, 0, 2, 1, 0, 0, 3, 3, 1, 2, 0]),
        Mnemonic::VHSUBPS => Some(vec![1u8, 1, 125, 10, 242, 15, 0, 0, 2, 1, 0, 0, 3, 3, 1, 2, 0]),
        Mnemonic::VHSUBPD => Some(vec![1u8, 1, 125, 10, 102, 15, 0, 0, 2, 1, 0, 0, 3, 3, 1, 2, 0]),
        Mnemonic::VADDPD => Some(vec![1u8, 1, 88, 10, 102, 15, 0, 0, 2, 1, 0, 0, 3, 3, 1, 2, 0]),
        Mnemonic::VADDSS => Some(vec![1u8, 1, 88, 10, 243, 15, 0, 0, 2, 1, 0, 0, 3, 3, 1, 2, 0]),
        Mnemonic::VADDSD => Some(vec![1u8, 1, 88, 10, 242, 15, 0, 0, 2, 1, 0, 0, 3, 3, 1, 2, 0]),
        Mnemonic::VSUBPS => Some(vec![1u8, 1, 92, 10, 0, 15, 0, 0, 2, 1, 0, 0, 3, 3, 1, 2, 0]),
        Mnemonic::VSUBPD => Some(vec![1u8, 1, 92, 10, 102, 15, 0, 0, 2, 1, 0, 0, 3, 3, 1, 2, 0]),
        Mnemonic::VSUBSS => Some(vec![1u8, 1, 92, 10, 243, 15, 0, 0, 2, 1, 0, 0, 3, 3, 1, 2, 0]),
        Mnemonic::VSUBSD => Some(vec![1u8, 1, 92, 10, 242, 15, 0, 0, 2, 1, 0, 0, 3, 3, 1, 2, 0]),
        Mnemonic::VMULPS => Some(vec![1u8, 1, 89, 10, 0, 15, 0, 0, 2, 1, 0, 0, 3, 3, 1, 2, 0]),
        Mnemonic::VMULPD => Some(vec![1u8, 1, 89, 10, 102, 15, 0, 0, 2, 1, 0, 0, 3, 3, 1, 2, 0]),
        Mnemonic::VMULSS => Some(vec![1u8, 1, 89, 10, 243, 15, 0, 0, 2, 1, 0, 0, 3, 3, 1, 2, 0]),
        Mnemonic::VMULSD => Some(vec![1u8, 1, 89, 10, 242, 15, 0, 0, 2, 1, 0, 0, 3, 3, 1, 2, 0]),
        Mnemonic::VDIVPS => Some(vec![1u8, 1, 94, 10, 0, 15, 0, 0, 2, 1, 0, 0, 3, 3, 1, 2, 0]),
        Mnemonic::VDIVPD => Some(vec![1u8, 1, 94, 10, 102, 15, 0, 0, 2, 1, 0, 0, 3, 3, 1, 2, 0]),
        Mnemonic::VDIVSS => Some(vec![1u8, 1, 94, 10, 243, 15, 0, 0, 2, 1, 0, 0, 3, 3, 1, 2, 0]),
        Mnemonic::VDIVSD => Some(vec![1u8, 1, 94, 10, 242, 15, 0, 0, 2, 1, 0, 0, 3, 3, 1, 2, 0]),
        Mnemonic::VRCPPS => Some(vec![1u8, 1, 83, 10, 0, 15, 0, 0, 2, 1, 0, 0, 3, 2, 1, 0]),
        Mnemonic::VRCPSS => Some(vec![1u8, 1, 83, 10, 243, 15, 0, 0, 2, 1, 0, 0, 3, 2, 1, 0]),
        Mnemonic::VSQRTPS => Some(vec![1u8, 1, 81, 10, 0, 15, 0, 0, 2, 1, 0, 0, 3, 2, 1, 0]),
        Mnemonic::VSQRTPD => Some(vec![1u8, 1, 81, 10, 102, 15, 0, 0, 2, 1, 0, 0, 3, 2, 1, 0]),
        Mnemonic::VSQRTSS => Some(vec![1u8, 1, 81, 10, 243, 15, 0, 0, 2, 1, 0, 0, 3, 2, 1, 0]),
        Mnemonic::VSQRTSD => Some(vec![1u8, 1, 81, 10, 242, 15, 0, 0, 2, 1, 0, 0, 3, 2, 1, 0]),
        Mnemonic::VRSQRTPS => Some(vec![1u8, 1, 82, 10, 0, 15, 0, 0, 2, 1, 0, 0, 3, 2, 1, 0]),
        Mnemonic::VRSQRTSS => Some(vec![1u8, 1, 82, 10, 243, 15, 0, 0, 2, 1, 0, 0, 3, 2, 1, 0]),
        Mnemonic::VPMULDQ => Some(vec![1u8, 1, 40, 10, 102, 56, 0, 0, 2, 1, 0, 0, 3, 3, 1, 2, 0]),
        Mnemonic::VPMULLD => Some(vec![1u8, 1, 64, 10, 102, 56, 0, 0, 2, 1, 0, 0, 3, 3, 1, 2, 0]),
        Mnemonic::VPMINSB => Some(vec![1u8, 1, 56, 10, 102, 56, 0, 0, 2, 1, 0, 0, 3, 3, 1, 2, 0]),
        Mnemonic::VPMINSD => Some(vec![1u8, 1, 57, 10, 102, 56, 0, 0, 2, 1, 0, 0, 3, 3, 1, 2, 0]),
        Mnemonic::VPMINUB => Some(vec![1u8, 1, 218, 10, 102, 15, 0, 0, 2, 1, 0, 0, 3, 3, 1, 2, 0]),
        Mnemonic::VPMINUW => Some(vec![1u8, 1, 58, 10, 102, 56, 0, 0, 2, 1, 0, 0, 3, 3, 1, 2, 0]),
        Mnemonic::VPMAXSB => Some(vec![1u8, 1, 60, 10, 102, 56, 0, 0, 2, 1, 0, 0, 3, 3, 1, 2, 0]),
        Mnemonic::VPMAXSD => Some(vec![1u8, 1, 61, 10, 102, 56, 0, 0, 2, 1, 0, 0, 3, 3, 1, 2, 0]),
        Mnemonic::VPMAXUB => Some(vec![1u8, 1, 222, 10, 102, 15, 0, 0, 2, 1, 0, 0, 3, 3, 1, 2, 0]),
        Mnemonic::VPMAXUW => Some(vec![1u8, 1, 62, 10, 102, 56, 0, 0, 2, 1, 0, 0, 3, 3, 1, 2, 0]),
        Mnemonic::VMINPS => Some(vec![1u8, 1, 93, 10, 0, 15, 0, 0, 2, 1, 0, 0, 3, 3, 1, 2, 0]),
        Mnemonic::VMINPD => Some(vec![1u8, 1, 93, 10, 102, 15, 0, 0, 2, 1, 0, 0, 3, 3, 1, 2, 0]),
        Mnemonic::VMINSS => Some(vec![1u8, 1, 93, 10, 243, 15, 0, 0, 2, 1, 0, 0, 3, 3, 1, 2, 0]),
        Mnemonic::VMINSD => Some(vec![1u8, 1, 93, 10, 242, 15, 0, 0, 2, 1, 0, 0, 3, 3, 1, 2, 0]),
        Mnemonic::VMAXPS => Some(vec![1u8, 1, 95, 10, 0, 15, 0, 0, 2, 1, 0, 0, 3, 3, 1, 2, 0]),
        Mnemonic::VMAXPD => Some(vec![1u8, 1, 95, 10, 102, 15, 0, 0, 2, 1, 0, 0, 3, 3, 1, 2, 0]),
        Mnemonic::VMAXSS => Some(vec![1u8, 1, 95, 10, 243, 15, 0, 0, 2, 1, 0, 0, 3, 3, 1, 2, 0]),
        Mnemonic::VMAXSD => Some(vec![1u8, 1, 95, 10, 242, 15, 0, 0, 2, 1, 0, 0, 3, 3, 1, 2, 0]),
        Mnemonic::VORPS => Some(vec![1u8, 1, 86, 10, 0, 15, 0, 0, 2, 1, 0, 0, 3, 3, 1, 2, 0]),
        Mnemonic::VORPD => Some(vec![1u8, 1, 86, 10, 102, 15, 0, 0, 2, 1, 0, 0, 3, 3, 1, 2, 0]),
        Mnemonic::VANDPS => Some(vec![1u8, 1, 84, 10, 0, 15, 0, 0, 2, 1, 0, 0, 3, 3, 1, 2, 0]),
        Mnemonic::VANDPD => Some(vec![1u8, 1, 84, 10, 102, 15, 0, 0, 2, 1, 0, 0, 3, 3, 1, 2, 0]),
        Mnemonic::VANDNPD => Some(vec![1u8, 1, 85, 10, 102, 15, 0, 0, 2, 1, 0, 0, 3, 3, 1, 2, 0]),
        Mnemonic::VXORPD => Some(vec![1u8, 1, 87, 10, 102, 15, 0, 0, 2, 1, 0, 0, 3, 3, 1, 2, 0]),
        Mnemonic::VBLENDVPS => Some(vec![1u8, 1, 74, 10, 102, 58, 0, 0, 2, 1, 0, 0, 3, 3, 1, 2, 0, 5, 3, 1]),
        Mnemonic::VPBLENDVB => Some(vec![1u8, 1, 76, 10, 102, 58, 0, 0, 2, 1, 0, 0, 3, 3, 1, 2, 0, 5, 3, 1]),
        Mnemonic::VBLENDVPD => Some(vec![1u8, 1, 75, 10, 102, 58, 0, 0, 2, 1, 0, 0, 3, 3, 1, 2, 0, 5, 3, 1]),
        Mnemonic::VPHMINPOSUW => Some(vec![1u8, 1, 65, 10, 102, 56, 0, 0, 2, 1, 0, 0, 3, 2, 1, 0]),
        Mnemonic::VEXTRACTPS => Some(vec![1u8, 1, 23, 10, 102, 58, 0, 0, 2, 1, 0, 0, 3, 2, 0, 1, 5, 2, 1]),
        Mnemonic::VMOVNTDQA => Some(vec![1u8, 1, 42, 10, 102, 56, 0, 0, 2, 1, 0, 0, 3, 2, 1, 0]),
        Mnemonic::VPACKUSDW => Some(vec![1u8, 1, 43, 10, 102, 56, 0, 0, 2, 1, 0, 0, 3, 3, 1, 2, 0]),
        Mnemonic::VPCMPESTRM => Some(vec![1u8, 1, 96, 10, 102, 58, 0, 0, 2, 1, 0, 0, 3, 2, 1, 0, 5, 2, 1]),
        Mnemonic::VPCMPESTRI => Some(vec![1u8, 1, 97, 10, 102, 58, 0, 0, 2, 1, 0, 0, 3, 2, 1, 0, 5, 2, 1]),
        Mnemonic::VPCMPISTRM => Some(vec![1u8, 1, 98, 10, 102, 58, 0, 0, 2, 1, 0, 0, 3, 2, 1, 0, 5, 2, 1]),
        Mnemonic::VPCMPISTRI => Some(vec![1u8, 1, 99, 10, 102, 58, 0, 0, 2, 1, 0, 0, 3, 2, 1, 0, 5, 2, 1]),
        Mnemonic::VINSERTPS => Some(vec![1u8, 1, 33, 10, 102, 58, 0, 0, 2, 1, 0, 0, 3, 3, 1, 2, 0, 5, 3, 1]),
        Mnemonic::VBLENDPS => Some(vec![1u8, 1, 12, 10, 102, 58, 0, 0, 2, 1, 0, 0, 3, 3, 1, 2, 0, 5, 3, 1]),
        Mnemonic::VBLENDPD => Some(vec![1u8, 1, 13, 10, 102, 58, 0, 0, 2, 1, 0, 0, 3, 3, 1, 2, 0, 5, 3, 1]),
        Mnemonic::VPCMPGTQ => Some(vec![1u8, 1, 55, 10, 102, 56, 0, 0, 2, 1, 0, 0, 3, 3, 1, 2, 0]),
        Mnemonic::VPCMPEQQ => Some(vec![1u8, 1, 41, 10, 102, 56, 0, 0, 2, 1, 0, 0, 3, 3, 1, 2, 0]),
        Mnemonic::VMPSADBW => Some(vec![1u8, 1, 66, 10, 102, 58, 0, 0, 2, 1, 0, 0, 3, 3, 1, 2, 0, 5, 3, 1]),
        Mnemonic::VROUNDSS => Some(vec![1u8, 1, 10, 10, 102, 58, 0, 0, 2, 1, 0, 0, 3, 3, 1, 2, 0, 5, 3, 1]),
        Mnemonic::VROUNDSD => Some(vec![1u8, 1, 11, 10, 102, 58, 0, 0, 2, 1, 0, 0, 3, 3, 1, 2, 0, 5, 3, 1]),
        Mnemonic::VROUNDPS => Some(vec![1u8, 1, 8, 10, 102, 58, 0, 0, 2, 1, 0, 0, 3, 2, 1, 0, 5, 2, 1]),
        Mnemonic::VROUNDPD => Some(vec![1u8, 1, 9, 10, 102, 58, 0, 0, 2, 1, 0, 0, 3, 2, 1, 0, 5, 2, 1]),
        Mnemonic::VPBLENDW => Some(vec![1u8, 1, 14, 10, 102, 58, 0, 0, 2, 1, 0, 0, 3, 3, 1, 2, 0, 5, 3, 1]),
        Mnemonic::VCMPPD => Some(vec![1u8, 1, 194, 10, 102, 15, 0, 0, 2, 1, 0, 0, 3, 3, 1, 2, 0, 5, 3, 1]),
        Mnemonic::VANDNPS => Some(vec![1u8, 1, 85, 10, 0, 15, 0, 0, 2, 1, 0, 0, 3, 3, 1, 2, 0]),
        Mnemonic::VXORPS => Some(vec![1u8, 1, 87, 10, 0, 15, 0, 0, 2, 1, 0, 0, 3, 3, 1, 2, 0]),
        Mnemonic::VPTEST => Some(vec![1u8, 1, 23, 10, 102, 56, 0, 0, 2, 1, 0, 0, 3, 2, 1, 0]),
        Mnemonic::VDPPS => Some(vec![1u8, 1, 64, 10, 102, 58, 0, 0, 2, 1, 0, 0, 3, 3, 1, 2, 0, 5, 3, 1]),
        _ => None,
    }
}

/// Layout programs (see `run_prog`) of the mnemonics of part 2 of the table.
#[verifier::opaque]
pub open spec fn spec_prog_2(m: Mnemonic) -> Option<Seq<u8>> {
    match m {
        Mnemonic::VDPPD => Some(seq![1u8, 1, 65, 10, 102, 58, 0, 0, 2, 1, 0, 0, 3, 3, 1, 2, 0, 5, 3, 1]),
        Mnemonic::VCMPPS => Some(seq![1u8, 1, 194, 10, 0, 15, 0, 0, 2, 1, 0, 0, 3, 3, 1, 2, 0, 5, 3, 1]),
        Mnemonic::VCMPSS => Some(seq![1u8, 1, 194, 10, 243, 15, 0, 0, 2, 1, 0, 0, 3, 3, 1, 2, 0, 5, 3, 1]),
        Mnemonic::VCMPSD => Some(seq![1u8, 1, 194, 10, 242, 15, 0, 0, 2, 1, 0, 0, 3, 3, 1, 2, 0, 5, 3, 1]),
        Mnemonic::VUCOMISS => Some(seq![1u8, 1, 46, 10, 0, 15, 0, 0, 2, 1, 0, 0, 3, 2, 1, 0]),
        Mnemonic::VUCOMISD => Some(seq![1u8, 1, 46, 10, 102, 15, 0, 0, 2, 1, 0, 0, 3, 2, 1, 0]),
        Mnemonic::VCOMISS => Some(seq![1u8, 1, 47, 10, 0, 15, 0, 0, 2, 1, 0, 0, 3, 2, 1, 0]),
        Mnemonic::VCOMISD => Some(seq![1u8, 1, 47, 10, 102, 15, 0, 0, 2, 1, 0, 0, 3, 2, 1, 0]),
        Mnemonic::VUNPCKLPS => Some(seq![1u8, 1, 20, 10, 0, 15, 0, 0, 2, 1, 0, 0, 3, 3, 1, 2, 0]),
        Mnemonic::VUNPCKHPS => Some(seq![1u8, 1, 21, 10, 0, 15, 0, 0, 2, 1, 0, 0, 3, 3, 1, 2, 0]),
        Mnemonic::VSHUFPS => Some(seq![1u8, 1, 198, 10, 0, 15, 0, 0, 2, 1, 0, 0, 3, 3, 1, 2, 0, 5, 3, 1]),
        Mnemonic::VMOVLHPS => Some(seq![1u8, 1, 22, 10, 0, 15, 0, 0, 2, 1, 0, 0, 3, 3, 1, 2, 0]),
        Mnemonic::VMOVHLPS => Some(seq![1u8, 1, 18, 10, 0, 15, 0, 0, 2, 1, 0, 0, 3, 3, 1, 2, 0]),
        Mnemonic::VPEXTRB => Some(seq![1u8, 1, 20, 10, 102, 58, 0, 0, 2, 1, 0, 0, 3, 2, 0, 1, 5, 2, 1]),
        Mnemonic::VPEXTRW => Some(seq![1u8, 1, 197, 10, 102, 15, 0, 0, 2, 1, 0, 0, 3, 2, 0, 1, 5, 2, 1]),
        Mnemonic::VPEXTRD => Some(seq![1u8, 1, 22, 10, 102, 58, 0, 0, 2, 1, 0, 0, 3, 2, 0, 1, 5, 2, 1]),
        Mnemonic::VPEXTRQ => Some(seq![1u8, 1, 22, 10, 102, 58, 1, 0, 2, 1, 0, 0, 3, 2, 0, 1, 5, 2, 1]),
        Mnemonic::VPINSRB => Some(seq![1u8, 1, 32, 10, 102, 58, 0, 0, 2, 1, 0, 0, 3, 3, 1, 2, 0, 5, 3, 1]),
        Mnemonic::VPINSRD => Some(seq![1u8, 1, 34, 10, 102, 58, 0, 0, 2, 1, 0, 0, 3, 3, 1, 2, 0, 5, 3, 1]),
        Mnemonic::VPINSRQ => Some(seq![1u8, 1, 34, 10, 102, 58, 1, 0, 2, 1, 0, 0, 3, 3, 1, 2, 0, 5, 3, 1]),
        Mnemonic::VPOR => Some(seq![1u8, 1, 235, 10, 102, 15, 0, 0, 2, 1, 0, 0, 3, 3, 1, 2, 0]),
        Mnemonic::VPAND => Some(seq![1u8, 1, 219, 10, 102, 15, 0, 0, 2, 1, 0, 0, 3, 3, 1, 2, 0]),
        Mnemonic::VPXOR => Some(seq![1u8, 1, 239, 10, 102, 15, 0, 0, 2, 1, 0, 0, 3, 3, 1, 2, 0]),
        Mnemonic::VPADDB => Some(seq![1u8, 1, 252, 10, 102, 15, 0, 0, 2, 1, 0, 0, 3, 3, 1, 2, 0]),
        Mnemonic::VPADDW => Some(seq![1u8, 1, 253, 10, 102, 15, 0, 0, 2, 1, 0, 0, 3, 3, 1, 2, 0]),
        Mnemonic::VPADDD => Some(seq![1u8, 1, 254, 10, 102, 15, 0, 0, 2, 1, 0, 0, 3, 3, 1, 2, 0]),
        Mnemonic::VPADDQ => Some(seq![1u8, 1, 212, 10, 102, 15, 0, 0, 2, 1, 0, 0, 3, 3, 1, 2, 0]),
        Mnemonic::VPSUBB => Some(seq![1u8, 1, 248, 10, 102, 15, 0, 0, 2, 1, 0, 0, 3, 3, 1, 2, 0]),
        Mnemonic::VPSUBW => Some(seq![1u8, 1, 249, 10, 102, 15, 0, 0, 2, 1, 0, 0, 3, 3, 1, 2, 0]),
        Mnemonic::VPSUBD => Some(seq![1u8, 1, 250, 10, 102, 15, 0, 0, 2, 1, 0, 0, 3, 3, 1, 2, 0]),
        Mnemonic::VPSUBQ => Some(seq![1u8, 1, 251, 10, 102, 15, 0, 0, 2, 1, 0, 0, 3, 3, 1, 2, 0]),
        Mnemonic::VPANDN => Some(seq![1u8, 1, 223, 10, 102, 15, 0, 0, 2, 1, 0, 0, 3, 3, 1, 2, 0]),
        Mnemonic::VPSUBSB => Some(seq![1u8, 1, 232, 10, 102, 15, 0, 0, 2, 1, 0, 0, 3, 3, 1, 2, 0]),
        Mnemonic::VPSUBSW => Some(seq![1u8, 1, 233, 10, 102, 15, 0, 0, 2, 1, 0, 0, 3, 3, 1, 2, 0]),
        Mnemonic::VPADDSB => Some(seq![1u8, 1, 236, 10, 102, 15, 0, 0, 2, 1, 0, 0, 3, 3, 1, 2, 0]),
        Mnemonic::VPADDSW => Some(seq![1u8, 1, 237, 10, 102, 15, 0, 0, 2, 1, 0, 0, 3, 3, 1, 2, 0]),
        Mnemonic::VPMULHW => Some(seq![1u8, 1, 229, 10, 102, 15, 0, 0, 2, 1, 0, 0, 3, 3, 1, 2, 0]),
        Mnemonic::VPMULLW => Some(seq![1u8, 1, 213, 10, 102, 15, 0, 0, 2, 1, 0, 0, 3, 3, 1, 2, 0]),
        Mnemonic::VPADDUSB => Some(seq![1u8, 1, 220, 10, 102, 15, 0, 0, 2, 1, 0, 0, 3, 3, 1, 2, 0]),
        Mnemonic::VPADDUSW => Some(seq![1u8, 1, 221, 10, 102, 15, 0, 0, 2, 1, 0, 0, 3, 3, 1, 2, 0]),
        Mnemonic::VPSUBUSB => Some(seq![1u8, 1, 216, 10, 102, 15, 0, 0, 2, 1, 0, 0, 3, 3, 1, 2, 0]),
        Mnemonic::VPSUBUSW => Some(seq![1u8, 1, 217, 10, 102, 15, 0, 0, 2, 1, 0, 0, 3, 3, 1, 2, 0]),
        Mnemonic::VPMADDWD => Some(seq![1u8, 1, 245, 10, 102, 15, 0, 0, 2, 1, 0, 0, 3, 3, 1, 2, 0]),
        Mnemonic::VPCMPEQB => Some(seq![1u8, 1, 116, 10, 102, 15, 0, 0, 2, 1, 0, 0, 3, 3, 1, 2, 0]),
        Mnemonic::VPCMPEQW => Some(seq![1u8, 1, 117, 10, 102, 15, 0, 0, 2, 1, 0, 0, 3, 3, 1, 2, 0]),
        Mnemonic::VPCMPEQD => Some(seq![1u8, 1, 118, 10, 102, 15, 0, 0, 2, 1, 0, 0, 3, 3, 1, 2, 0]),
        Mnemonic::VPCMPGTB => Some(seq![1u8, 1, 100, 10, 102, 15, 0, 0, 2, 1, 0, 0, 3, 3, 1, 2, 0]),
        Mnemonic::VPCMPGTW => Some(seq![1u8, 1, 101, 10, 102, 15, 0, 0, 2, 1, 0, 0, 3, 3, 1, 2, 0]),
        Mnemonic::VPCMPGTD => Some(seq![1u8, 1, 102, 10, 102, 15, 0, 0, 2, 1, 0, 0, 3, 3, 1, 2, 0]),
        Mnemonic::VPACKUSWB => Some(seq![1u8, 1, 103, 10, 102, 15, 0, 0, 2, 1, 0, 0, 3, 3, 1, 2, 0]),
        Mnemonic::VPACKSSWB => Some(seq![1u8, 1, 99, 10, 102, 15, 0, 0, 2, 1, 0, 0, 3, 3, 1, 2, 0]),
        Mnemonic::VPACKSSDW => Some(seq![1u8, 1, 107, 10, 102, 15, 0, 0, 2, 1, 0, 0, 3, 3, 1, 2, 0]),
        Mnemonic::VPUNPCKLBW => Some(seq![1u8, 1, 96, 10, 102, 15, 0, 0, 2, 1, 0, 0, 3, 3, 1, 2, 0]),
        Mnemonic::VPUNPCKLWD => Some(seq![1u8, 1, 97, 10, 102, 15, 0, 0, 2, 1, 0, 0, 3, 3, 1, 2, 0]),
        Mnemonic::VPUNPCKLDQ => Some(seq![1u8, 1, 98, 10, 102, 15, 0, 0, 2, 1, 0, 0, 3, 3, 1, 2, 0]),
        Mnemonic::VPUNPCKHBW => Some(seq![1u8, 1, 104, 10, 102, 15, 0, 0, 2, 1, 0, 0, 3, 3, 1, 2, 0]),
        Mnemonic::VPUNPCKHWD => Some(seq![1u8, 1, 105, 10, 102, 15, 0, 0, 2, 1, 0, 0, 3, 3, 1, 2, 0]),
        Mnemonic::VPUNPCKHDQ => Some(seq![1u8, 1, 106, 10, 102, 15, 0, 0, 2, 1, 0, 0, 3, 3, 1, 2, 0]),
        Mnemonic::VPAVGB => Some(seq![1u8, 1, 224, 10, 102, 15, 0, 0, 2, 1, 0, 0, 3, 3, 1, 2, 0]),
        Mnemonic::VPAVGW => Some(seq![1u8, 1, 227, 10, 102, 15, 0, 0, 2, 1, 0, 0, 3, 3, 1, 2, 0]),
        Mnemonic::VPHADDW => Some(seq![1u8, 1, 1, 10, 102, 56, 0, 0, 2, 1, 0, 0, 3, 3, 1, 2, 0]),
        Mnemonic::VPHADDD => Some(seq![1u8, 1, 2, 10, 102, 56, 0, 0, 2, 1, 0, 0, 3, 3, 1, 2, 0]),
        Mnemonic::VPHSUBW => Some(seq![1u8, 1, 5, 10, 102, 56, 0, 0, 2, 1, 0, 0, 3, 3, 1, 2, 0]),
        Mnemonic::VPHSUBD => Some(seq![1u8, 1, 6, 10, 102, 56, 0, 0, 2, 1, 0, 0, 3, 3, 1, 2, 0]),
        Mnemonic::VPALIGNR => Some(seq![1u8, 1, 15, 10, 102, 58, 0, 0, 2, 1, 0, 0, 5, 3, 1, 3, 3, 1, 2, 0]),
        Mnemonic::VINSERTF128 => Some(seq![1u8, 1, 24, 10, 102, 58, 0, 0, 2, 1, 0, 0, 5, 3, 1, 3, 3, 1, 2, 0]),
        Mnemonic::VEXTRACTF128 => Some(seq![1u8, 1, 25, 10, 102, 58, 0, 3, 2, 1, 0, 0, 5, 2, 1, 3, 2, 0, 1]),
        Mnemonic::VBROADCASTSS => Some(seq![1u8, 1, 24, 10, 102, 56, 0, 0, 2, 1, 0, 0, 3, 2, 1, 0]),
        Mnemonic::VBROADCASTF128 => Some(seq![1u8, 1, 26, 10, 102, 56, 0, 0, 2, 1, 0, 0, 3, 2, 1, 0]),
        Mnemonic::STMXCSR => Some(seq![1u8, 2, 15, 174, 2, 1, 1, 3, 4]),
        Mnemonic::LDMXCSR => Some(seq![1u8, 2, 15, 174, 2, 1, 1, 2, 4]),
        Mnemonic::VSTMXCSR => Some(seq![1u8, 1, 174, 10, 0, 15, 0, 0, 2, 1, 1, 3]),
        Mnemonic::VLDMXCSR => Some(seq![1u8, 1, 174, 10, 0, 15, 0, 0, 2, 1, 1, 2]),
        Mnemonic::VMOVMSKPS => Some(seq![1u8, 1, 80, 10, 0, 15, 0, 0, 2, 1, 0, 0, 3, 3, 1, 2, 0]),
        Mnemonic::PCLMULQDQ => Some(seq![1u8, 3, 15, 58, 68, 6, 102, 4, 2, 1, 0, 0, 5, 2, 1, 3, 2, 1, 0]),
        Mnemonic::VPCLMULQDQ => Some(seq![1u8, 1, 68, 10, 102, 58, 0, 0, 5, 3, 1, 2, 1, 0, 0, 3, 3, 1, 2, 0]),
        Mnemonic::VPERM2F128 => Some(seq![1u8, 1, 6, 10, 102, 58, 0, 0, 5, 3, 1, 2, 1, 0, 0, 3, 3, 1, 2, 0]),
        Mnemonic::VPERM2I128 => Some(seq![1u8, 1, 70, 10, 102, 58, 0, 0, 5, 3, 1, 2, 1, 0, 0, 3, 3, 1, 2, 0]),
        Mnemonic::VPINSRW => Some(seq![1u8, 1, 196, 10, 102, 15, 0, 0, 5, 3, 1, 2, 1, 0, 0, 3, 3, 1, 2, 0]),
        Mnemonic::VPMAXSW => Some(seq![1u8, 1, 238, 10, 102, 15, 0, 0, 2, 1, 0, 0, 3, 3, 1, 2, 0]),
        Mnemonic::VPMINSW => Some(seq![1u8, 1, 234, 10, 102, 15, 0, 0, 2, 1, 0, 0, 3, 3, 1, 2, 0]),
        Mnemonic::VPSRLDQ => Some(seq![1u8, 1, 115, 10, 102, 15, 0, 0, 5, 2, 1, 2, 1, 1, 3, 3, 2, 2, 0]),
        Mnemonic::VPSIGNB => Some(seq![1u8, 1, 8, 10, 102, 56, 0, 0, 2, 1, 0, 0, 3, 3, 1, 2, 0]),
        Mnemonic::VPSIGNW => Some(seq![1u8, 1, 9, 10, 102, 56, 0, 0, 2, 1, 0, 0, 3, 3, 1, 2, 0]),
        Mnemonic::VPSIGND => Some(seq![1u8, 1, 10, 10, 102, 56, 0, 0, 2, 1, 0, 0, 3, 3, 1, 2, 0]),
        Mnemonic::VPMULUDQ => Some(seq![1u8, 1, 244, 10, 102, 15, 0, 0, 2, 1, 0, 0, 3, 3, 1, 2, 0]),
        Mnemonic::VPMULHUW => Some(seq![1u8, 1, 228, 10, 102, 15, 0, 0, 2, 1, 0, 0, 3, 3, 1, 2, 0]),
        Mnemonic::VPMULHRSW => Some(seq![1u8, 1, 11, 10, 102, 56, 0, 0, 2, 1, 0, 0, 3, 3, 1, 2, 0]),
        Mnemonic::PMAXUD => Some(seq![1u8, 3, 15, 56, 63, 6, 102, 4, 2, 1, 0, 0, 3, 2, 1, 0]),
        Mnemonic::VPMAXUD => Some(seq![1u8, 1, 63, 2, 1, 0, 0, 10, 102, 56, 0, 0, 3, 3, 1, 2, 0]),
        Mnemonic::VFMADD132PS => Some(seq![1u8, 1, 152, 10, 102, 56, 0, 0, 2, 1, 0, 0, 3, 3, 1, 2, 0]),
        Mnemonic::VFMADD213PS => Some(seq![1u8, 1, 168, 10, 102, 56, 0, 0, 2, 1, 0, 0, 3, 3, 1, 2, 0]),
        Mnemonic::VFMADD231PS => Some(seq![1u8, 1, 184, 10, 102, 56, 0, 0, 2, 1, 0, 0, 3, 3, 1, 2, 0]),
        Mnemonic::VFMADD132PD => Some(seq![1u8, 1, 152, 10, 102, 56, 1, 0, 2, 1, 0, 0, 3, 3, 1, 2, 0]),
        Mnemonic::VFMADD213PD => Some(seq![1u8, 1, 168, 10, 102, 56, 1, 0, 2, 1, 0, 0, 3, 3, 1, 2, 0]),
        Mnemonic::VFMADD231PD => Some(seq![1u8, 1, 184, 10, 102, 56, 1, 0, 2, 1, 0, 0, 3, 3, 1, 2, 0]),
        Mnemonic::VFMADD132SD => Some(seq![1u8, 1, 153, 10, 102, 56, 1, 0, 2, 1, 0, 0, 3, 3, 1, 2, 0]),
        Mnemonic::VFMADD213SD => Some(seq![1u8, 1, 169, 10, 102, 56, 1, 0, 2, 1, 0, 0, 3, 3, 1, 2, 0]),
        Mnemonic::VFMADD231SD => Some(seq![1u8, 1, 185, 10, 102, 56, 1, 0, 2, 1, 0, 0, 3, 3, 1, 2, 0]),
        Mnemonic::VFMADD132SS => Some(seq![1u8, 1, 153, 10, 102, 56, 0, 0, 2, 1, 0, 0, 3, 3, 1, 2, 0]),
        _ => None,
    }
}

/// The layout program of a mnemonic of part 2 of the table.
fn prog_2(m: Mnemonic) -> (r: Option<Vec<u8>>)
    ensures
        match spec_prog_2(m) {
            Some(p) => r matches Some(v) && v@ == p,
            None => r is None,
        },
{
    proof {
        reveal(spec_prog_2);
    }
    match m {
        Mnemonic::VDPPD => Some(vec![1u8, 1, 65, 10, 102, 58, 0, 0, 2, 1, 0, 0, 3, 3, 1, 2, 0, 5, 3, 1]),
        Mnemonic::VCMPPS => Some(vec![1u8, 1, 194, 10, 0, 15, 0, 0, 2, 1, 0, 0, 3, 3, 1, 2, 0, 5, 3, 1]),
        Mnemonic::VCMPSS => Some(vec![1u8, 1, 194, 10, 243, 15, 0, 0, 2, 1, 0, 0, 3, 3, 1, 2, 0, 5, 3, 1]),
        Mnemonic::VCMPSD => Some(vec![1u8, 1, 194, 10, 242, 15, 0, 0, 2, 1, 0, 0, 3, 3, 1, 2, 0, 5, 3, 1]),
        Mnemonic::VUCOMISS => Some(vec![1u8, 1, 46, 10, 0, 15, 0, 0, 2, 1, 0, 0, 3, 2, 1, 0]),
        Mnemonic::VUCOMISD => Some(vec![1u8, 1, 46, 10, 102, 15, 0, 0, 2, 1, 0, 0, 3, 2, 1, 0]),
        Mnemonic::VCOMISS => Some(vec![1u8, 1, 47, 10, 0, 15, 0, 0, 2, 1, 0, 0, 3, 2, 1, 0]),
        Mnemonic::VCOMISD => Some(vec![1u8, 1, 47, 10, 102, 15, 0, 0, 2, 1, 0, 0, 3, 2, 1, 0]),
        Mnemonic::VUNPCKLPS => Some(vec![1u8, 1, 20, 10, 0, 15, 0, 0, 2, 1, 0, 0, 3, 3, 1, 2, 0]),
        Mnemonic::VUNPCKHPS => Some(vec![1u8, 1, 21, 10, 0, 15, 0, 0, 2, 1, 0, 0, 3, 3, 1, 2, 0]),
        Mnemonic::VSHUFPS => Some(vec![1u8, 1, 198, 10, 0, 15, 0, 0, 2, 1, 0, 0, 3, 3, 1, 2, 0, 5, 3, 1]),
        Mnemonic::VMOVLHPS => Some(vec![1u8, 1, 22, 10, 0, 15, 0, 0, 2, 1, 0, 0, 3, 3, 1, 2, 0]),
        Mnemonic::VMOVHLPS => Some(vec![1u8, 1, 18, 10, 0, 15, 0, 0, 2, 1, 0, 0, 3, 3, 1, 2, 0]),
        Mnemonic::VPEXTRB => Some(vec![1u8, 1, 20, 10, 102, 58, 0, 0, 2, 1, 0, 0, 3, 2, 0, 1, 5, 2, 1]),
        Mnemonic::VPEXTRW => Some(vec![1u8, 1, 197, 10, 102, 15, 0, 0, 2, 1, 0, 0, 3, 2, 0, 1, 5, 2, 1]),
        Mnemonic::VPEXTRD => Some(vec![1u8, 1, 22, 10, 102, 58, 0, 0, 2, 1, 0, 0, 3, 2, 0, 1, 5, 2, 1]),
        Mnemonic::VPEXTRQ => Some(vec![1u8, 1, 22, 10, 102, 58, 1, 0, 2, 1, 0, 0, 3, 2, 0, 1, 5, 2, 1]),
        Mnemonic::VPINSRB => Some(vec![1u8, 1, 32, 10, 102, 58, 0, 0, 2, 1, 0, 0, 3, 3, 1, 2, 0, 5, 3, 1]),
        Mnemonic::VPINSRD => Some(vec![1u8, 1, 34, 10, 102, 58, 0, 0, 2, 1, 0, 0, 3, 3, 1, 2, 0, 5, 3, 1]),
        Mnemonic::VPINSRQ => Some(vec![1u8, 1, 34, 10, 102, 58, 1, 0, 2, 1, 0, 0, 3, 3, 1, 2, 0, 5, 3, 1]),
        Mnemonic::VPOR => Some(vec![1u8, 1, 235, 10, 102, 15, 0, 0, 2, 1, 0, 0, 3, 3, 1, 2, 0]),
        Mnemonic::VPAND => Some(vec![1u8, 1, 219, 10, 102, 15, 0, 0, 2, 1, 0, 0, 3, 3, 1, 2, 0]),
        Mnemonic::VPXOR => Some(vec![1u8, 1, 239, 10, 102, 15, 0, 0, 2, 1, 0, 0, 3, 3, 1, 2, 0]),
        Mnemonic::VPADDB => Some(vec![1u8, 1, 252, 10, 102, 15, 0, 0, 2, 1, 0, 0, 3, 3, 1, 2, 0]),
        Mnemonic::VPADDW => Some(vec![1u8, 1, 253, 10, 102, 15, 0, 0, 2, 1, 0, 0, 3, 3, 1, 2, 0]),
        Mnemonic::VPADDD => Some(vec![1u8, 1, 254, 10, 102, 15, 0, 0, 2, 1, 0, 0, 3, 3, 1, 2, 0]),
        Mnemonic::VPADDQ => Some(vec![1u8, 1, 212, 10, 102, 15, 0, 0, 2, 1, 0, 0, 3, 3, 1, 2, 0]),
        Mnemonic::VPSUBB => Some(vec![1u8, 1, 248, 10, 102, 15, 0, 0, 2, 1, 0, 0, 3, 3, 1, 2, 0]),
        Mnemonic::VPSUBW => Some(vec![1u8, 1, 249, 10, 102, 15, 0, 0, 2, 1, 0, 0, 3, 3, 1, 2, 0]),
        Mnemonic::VPSUBD => Some(vec![1u8, 1, 250, 10, 102, 15, 0, 0, 2, 1, 0, 0, 3, 3, 1, 2, 0]),
        Mnemonic::VPSUBQ => Some(vec![1u8, 1, 251, 10, 102, 15, 0, 0, 2, 1, 0, 0, 3, 3, 1, 2, 0]),
        Mnemonic::VPANDN => Some(vec![1u8, 1, 223, 10, 102, 15, 0, 0, 2, 1, 0, 0, 3, 3, 1, 2, 0]),
        Mnemonic::VPSUBSB => Some(vec![1u8, 1, 232, 10, 102, 15, 0, 0, 2, 1, 0, 0, 3, 3, 1, 2, 0]),
        Mnemonic::VPSUBSW => Some(vec![1u8, 1, 233, 10, 102, 15, 0, 0, 2, 1, 0, 0, 3, 3, 1, 2, 0]),
        Mnemonic::VPADDSB => Some(vec![1u8, 1, 236, 10, 102, 15, 0, 0, 2, 1, 0, 0, 3, 3, 1, 2, 0]),
        Mnemonic::VPADDSW => Some(vec![1u8, 1, 237, 10, 102, 15, 0, 0, 2, 1, 0, 0, 3, 3, 1, 2, 0]),
        Mnemonic::VPMULHW => Some(vec![1u8, 1, 229, 10, 102, 15, 0, 0, 2, 1, 0, 0, 3, 3, 1, 2, 0]),
        Mnemonic::VPMULLW => Some(vec![1u8, 1, 213, 10, 102, 15, 0, 0, 2, 1, 0, 0, 3, 3, 1, 2, 0]),
        Mnemonic::VPADDUSB => Some(vec![1u8, 1, 220, 10, 102, 15, 0, 0, 2, 1, 0, 0, 3, 3, 1, 2, 0]),
        Mnemonic::VPADDUSW => Some(vec![1u8, 1, 221, 10, 102, 15, 0, 0, 2, 1, 0, 0, 3, 3, 1, 2, 0]),
        Mnemonic::VPSUBUSB => Some(vec![1u8, 1, 216, 10, 102, 15, 0, 0, 2, 1, 0, 0, 3, 3, 1, 2, 0]),
        Mnemonic::VPSUBUSW => Some(vec![1u8, 1, 217, 10, 102, 15, 0, 0, 2, 1, 0, 0, 3, 3, 1, 2, 0]),
        Mnemonic::VPMADDWD => Some(vec![1u8, 1, 245, 10, 102, 15, 0, 0, 2, 1, 0, 0, 3, 3, 1, 2, 0]),
        Mnemonic::VPCMPEQB => Some(vec![1u8, 1, 116, 10, 102, 15, 0, 0, 2, 1, 0, 0, 3, 3, 1, 2, 0]),
        Mnemonic::VPCMPEQW => Some(vec![1u8, 1, 117, 10, 102, 15, 0, 0, 2, 1, 0, 0, 3, 3, 1, 2, 0]),
        Mnemonic::VPCMPEQD => Some(vec![1u8, 1, 118, 10, 102, 15, 0, 0, 2, 1, 0, 0, 3, 3, 1, 2, 0]),
        Mnemonic::VPCMPGTB => Some(vec![1u8, 1, 100, 10, 102, 15, 0, 0, 2, 1, 0, 0, 3, 3, 1, 2, 0]),
        Mnemonic::VPCMPGTW => Some(vec![1u8, 1, 101, 10, 102, 15, 0, 0, 2, 1, 0, 0, 3, 3, 1, 2, 0]),
        Mnemonic::VPCMPGTD => Some(vec![1u8, 1, 102, 10, 102, 15, 0, 0, 2, 1, 0, 0, 3, 3, 1, 2, 0]),
        Mnemonic::VPACKUSWB => Some(vec![1u8, 1, 103, 10, 102, 15, 0, 0, 2, 1, 0, 0, 3, 3, 1, 2, 0]),
        Mnemonic::VPACKSSWB => Some(vec![1u8, 1, 99, 10, 102, 15, 0, 0, 2, 1, 0, 0, 3, 3, 1, 2, 0]),
        Mnemonic::VPACKSSDW => Some(vec![1u8, 1, 107, 10, 102, 15, 0, 0, 2, 1, 0, 0, 3, 3, 1, 2, 0]),
        Mnemonic::VPUNPCKLBW => Some(vec![1u8, 1, 96, 10, 102, 15, 0, 0, 2, 1, 0, 0, 3, 3, 1, 2, 0]),
        Mnemonic::VPUNPCKLWD => Some(vec![1u8, 1, 97, 10, 102, 15, 0, 0, 2, 1, 0, 0, 3, 3, 1, 2, 0]),
        Mnemonic::VPUNPCKLDQ => Some(vec![1u8, 1, 98, 10, 102, 15, 0, 0, 2, 1, 0, 0, 3, 3, 1, 2, 0]),
        Mnemonic::VPUNPCKHBW => Some(vec![1u8, 1, 104, 10, 102, 15, 0, 0, 2, 1, 0, 0, 3, 3, 1, 2, 0]),
        Mnemonic::VPUNPCKHWD => Some(vec![1u8, 1, 105, 10, 102, 15, 0, 0, 2, 1, 0, 0, 3, 3, 1, 2, 0]),
        Mnemonic::VPUNPCKHDQ => Some(vec![1u8, 1, 106, 10, 102, 15, 0, 0, 2, 1, 0, 0, 3, 3, 1, 2, 0]),
        Mnemonic::VPAVGB => Some(vec![1u8, 1, 224, 10, 102, 15, 0, 0, 2, 1, 0, 0, 3, 3, 1, 2, 0]),
        Mnemonic::VPAVGW => Some(vec![1u8, 1, 227, 10, 102, 15, 0, 0, 2, 1, 0, 0, 3, 3, 1, 2, 0]),
        Mnemonic::VPHADDW => Some(vec![1u8, 1, 1, 10, 102, 56, 0, 0, 2, 1, 0, 0, 3, 3, 1, 2, 0]),
        Mnemonic::VPHADDD => Some(vec![1u8, 1, 2, 10, 102, 56, 0, 0, 2, 1, 0, 0, 3, 3, 1, 2, 0]),
        Mnemonic::VPHSUBW => Some(vec![1u8, 1, 5, 10, 102, 56, 0, 0, 2, 1, 0, 0, 3, 3, 1, 2, 0]),
        Mnemonic::VPHSUBD => Some(vec![1u8, 1, 6, 10, 102, 56, 0, 0, 2, 1, 0, 0, 3, 3, 1, 2, 0]),
        Mnemonic::VPALIGNR => Some(vec![1u8, 1, 15, 10, 102, 58, 0, 0, 2, 1, 0, 0, 5, 3, 1, 3, 3, 1, 2, 0]),
        Mnemonic::VINSERTF128 => Some(vec![1u8, 1, 24, 10, 102, 58, 0, 0, 2, 1, 0, 0, 5, 3, 1, 3, 3, 1, 2, 0]),
        Mnemonic::VEXTRACTF128 => Some(vec![1u8, 1, 25, 10, 102, 58, 0, 3, 2, 1, 0, 0, 5, 2, 1, 3, 2, 0, 1]),
        Mnemonic::VBROADCASTSS => Some(vec![1u8, 1, 24, 10, 102, 56, 0, 0, 2, 1, 0, 0, 3, 2, 1, 0]),
        Mnemonic::VBROADCASTF128 => Some(vec![1u8, 1, 26, 10, 102, 56, 0, 0, 2, 1, 0, 0, 3, 2, 1, 0]),
        Mnemonic::STMXCSR => Some(vec![1u8, 2, 15, 174, 2, 1, 1, 3, 4]),
        Mnemonic::LDMXCSR => Some(vec![1u8, 2, 15, 174, 2, 1, 1, 2, 4]),
        Mnemonic::VSTMXCSR => Some(vec![1u8, 1, 174, 10, 0, 15, 0, 0, 2, 1, 1, 3]),
        Mnemonic::VLDMXCSR => Some(vec![1u8, 1, 174, 10, 0, 15, 0, 0, 2, 1, 1, 2]),
        Mnemonic::VMOVMSKPS => Some(vec![1u8, 1, 80, 10, 0, 15, 0, 0, 2, 1, 0, 0, 3, 3, 1, 2, 0]),
        Mnemonic::PCLMULQDQ => Some(vec![1u8, 3, 15, 58, 68, 6, 102, 4, 2, 1, 0, 0, 5, 2, 1, 3, 2, 1, 0]),
        Mnemonic::VPCLMULQDQ => Some(vec![1u8, 1, 68, 10, 102, 58, 0, 0, 5, 3, 1, 2, 1, 0, 0, 3, 3, 1, 2, 0]),
        Mnemonic::VPERM2F128 => Some(vec![1u8, 1, 6, 10, 102, 58, 0, 0, 5, 3, 1, 2, 1, 0, 0, 3, 3, 1, 2, 0]),
        Mnemonic::VPERM2I128 => Some(vec![1u8, 1, 70, 10, 102, 58, 0, 0, 5, 3, 1, 2, 1, 0, 0, 3, 3, 1, 2, 0]),
        Mnemonic::VPINSRW => Some(vec![1u8, 1, 196, 10, 102, 15, 0, 0, 5, 3, 1, 2, 1, 0, 0, 3, 3, 1, 2, 0]),
        Mnemonic::VPMAXSW => Some(vec![1u8, 1, 238, 10, 102, 15, 0, 0, 2, 1, 0, 0, 3, 3, 1, 2, 0]),
        Mnemonic::VPMINSW => Some(vec![1u8, 1, 234, 10, 102, 15, 0, 0, 2, 1, 0, 0, 3, 3, 1, 2, 0]),
        Mnemonic::VPSRLDQ => Some(vec![1u8, 1, 115, 10, 102, 15, 0, 0, 5, 2, 1, 2, 1, 1, 3, 3, 2, 2, 0]),
        Mnemonic::VPSIGNB => Some(vec![1u8, 1, 8, 10, 102, 56, 0, 0, 2, 1, 0, 0, 3, 3, 1, 2, 0]),
        Mnemonic::VPSIGNW => Some(vec![1u8, 1, 9, 10, 102, 56, 0, 0, 2, 1, 0, 0, 3, 3, 1, 2, 0]),
        Mnemonic::VPSIGND => Some(vec![1u8, 1, 10, 10, 102, 56, 0, 0, 2, 1, 0, 0, 3, 3, 1, 2, 0]),
        Mnemonic::VPMULUDQ => Some(vec![1u8, 1, 244, 10, 102, 15, 0, 0, 2, 1, 0, 0, 3, 3, 1, 2, 0]),
        Mnemonic::VPMULHUW => Some(vec![1u8, 1, 228, 10, 102, 15, 0, 0, 2, 1, 0, 0, 3, 3, 1, 2, 0]),
        Mnemonic::VPMULHRSW => Some(vec![1u8, 1, 11, 10, 102, 56, 0, 0, 2, 1, 0, 0, 3, 3, 1, 2, 0]),
        Mnemonic::PMAXUD => Some(vec![1u8, 3, 15, 56, 63, 6, 102, 4, 2, 1, 0, 0, 3, 2, 1, 0]),
        Mnemonic::VPMAXUD => Some(vec![1u8, 1, 63, 2, 1, 0, 0, 10, 102, 56, 0, 0, 3, 3, 1, 2, 0]),
        Mnemonic::VFMADD132PS => Some(vec![1u8, 1, 152, 10, 102, 56, 0, 0, 2, 1, 0, 0, 3, 3, 1, 2, 0]),
        Mnemonic::VFMADD213PS => Some(vec![1u8, 1, 168, 10, 102, 56, 0, 0, 2, 1, 0, 0, 3, 3, 1, 2, 0]),
        Mnemonic::VFMADD231PS => Some(vec![1u8, 1, 184, 10, 102, 56, 0, 0, 2, 1, 0, 0, 3, 3, 1, 2, 0]),
        Mnemonic::VFMADD132PD => Some(vec![1u8, 1, 152, 10, 102, 56, 1, 0, 2, 1, 0, 0, 3, 3, 1, 2, 0]),
        Mnemonic::VFMADD213PD => Some(vec![1u8, 1, 168, 10, 102, 56, 1, 0, 2, 1, 0, 0, 3, 3, 1, 2, 0]),
        Mnemonic::VFMADD231PD => Some(vec![1u8, 1, 184, 10, 102, 56, 1, 0, 2, 1, 0, 0, 3, 3, 1, 2, 0]),
        Mnemonic::VFMADD132SD => Some(vec![1u8, 1, 153, 10, 102, 56, 1, 0, 2, 1, 0, 0, 3, 3, 1, 2, 0]),
        Mnemonic::VFMADD213SD => Some(vec![1u8, 1, 169, 10, 102, 56, 1, 0, 2, 1, 0, 0, 3, 3, 1, 2, 0]),
        Mnemonic::VFMADD231SD => Some(vec![1u8, 1, 185, 10, 102, 56, 1, 0, 2, 1, 0, 0, 3, 3, 1, 2, 0]),
        Mnemonic::VFMADD132SS => Some(vec![1u8, 1, 153, 10, 102, 56, 0, 0, 2, 1, 0, 0, 3, 3, 1, 2, 0]),
        _ => None,
    }
}

/// Layout programs (see `run_prog`) of the mnemonics of part 3 of the table.
#[verifier::opaque]
pub open spec fn spec_prog_3(m: Mnemonic) -> Option<Seq<u8>> {
    match m {
        Mnemonic::VFMADD213SS => Some(seq![1u8, 1, 169, 10, 102, 56, 0, 0, 2, 1, 0, 0, 3, 3, 1, 2, 0]),
        Mnemonic::VFMADD231SS => Some(seq![1u8, 1, 185, 10, 102, 56, 0, 0, 2, 1, 0, 0, 3, 3, 1, 2, 0]),
        Mnemonic::VFMSUB132PS => Some(seq![1u8, 1, 154, 10, 102, 56, 0, 0, 2, 1, 0, 0, 3, 3, 1, 2, 0]),
        Mnemonic::VFMSUB213PS => Some(seq![1u8, 1, 170, 10, 102, 56, 0, 0, 2, 1, 0, 0, 3, 3, 1, 2, 0]),
        Mnemonic::VFMSUB231PS => Some(seq![1u8, 1, 186, 10, 102, 56, 0, 0, 2, 1, 0, 0, 3, 3, 1, 2, 0]),
        Mnemonic::VFMSUB132PD => Some(seq![1u8, 1, 154, 10, 102, 56, 1, 0, 2, 1, 0, 0, 3, 3, 1, 2, 0]),
        Mnemonic::VFMSUB213PD => Some(seq![1u8, 1, 170, 10, 102, 56, 1, 0, 2, 1, 0, 0, 3, 3, 1, 2, 0]),
        Mnemonic::VFMSUB231PD => Some(seq![1u8, 1, 186, 10, 102, 56, 1, 0, 2, 1, 0, 0, 3, 3, 1, 2, 0]),
        Mnemonic::VFMSUB132SD => Some(seq![1u8, 1, 155, 10, 102, 56, 1, 0, 2, 1, 0, 0, 3, 3, 1, 2, 0]),
        Mnemonic::VFMSUB213SD => Some(seq![1u8, 1, 171, 10, 102, 56, 1, 0, 2, 1, 0, 0, 3, 3, 1, 2, 0]),
        Mnemonic::VFMSUB231SD => Some(seq![1u8, 1, 187, 10, 102, 56, 1, 0, 2, 1, 0, 0, 3, 3, 1, 2, 0]),
        Mnemonic::VFMSUB132SS => Some(seq![1u8, 1, 155, 10, 102, 56, 0, 0, 2, 1, 0, 0, 3, 3, 1, 2, 0]),
        Mnemonic::VFMSUB213SS => Some(seq![1u8, 1, 171, 10, 102, 56, 0, 0, 2, 1, 0, 0, 3, 3, 1, 2, 0]),
        Mnemonic::VFMSUB231SS => Some(seq![1u8, 1, 187, 10, 102, 56, 0, 0, 2, 1, 0, 0, 3, 3, 1, 2, 0]),
        Mnemonic::VFNMADD132PS => Some(seq![1u8, 1, 156, 10, 102, 56, 0, 0, 2, 1, 0, 0, 3, 3, 1, 2, 0]),
        Mnemonic::VFNMADD213PS => Some(seq![1u8, 1, 172, 10, 102, 56, 0, 0, 2, 1, 0, 0, 3, 3, 1, 2, 0]),
        Mnemonic::VFNMADD231PS => Some(seq![1u8, 1, 188, 10, 102, 56, 0, 0, 2, 1, 0, 0, 3, 3, 1, 2, 0]),
        Mnemonic::VFNMADD132PD => Some(seq![1u8, 1, 156, 10, 102, 56, 1, 0, 2, 1, 0, 0, 3, 3, 1, 2, 0]),
        Mnemonic::VFNMADD213PD => Some(seq![1u8, 1, 172, 10, 102, 56, 1, 0, 2, 1, 0, 0, 3, 3, 1, 2, 0]),
        Mnemonic::VFNMADD231PD => Some(seq![1u8, 1, 188, 10, 102, 56, 1, 0, 2, 1, 0, 0, 3, 3, 1, 2, 0]),
        Mnemonic::VFNMADD132SS => Some(seq![1u8, 1, 157, 10, 102, 56, 0, 0, 2, 1, 0, 0, 3, 3, 1, 2, 0]),
        Mnemonic::VFNMADD213SS => Some(seq![1u8, 1, 173, 10, 102, 56, 0, 0, 2, 1, 0, 0, 3, 3, 1, 2, 0]),
        Mnemonic::VFNMADD231SS => Some(seq![1u8, 1, 189, 10, 102, 56, 0, 0, 2, 1, 0, 0, 3, 3, 1, 2, 0]),
        Mnemonic::VFNMADD132SD => Some(seq![1u8, 1, 157, 10, 102, 56, 1, 0, 2, 1, 0, 0, 3, 3, 1, 2, 0]),
        Mnemonic::VFNMADD213SD => Some(seq![1u8, 1, 173, 10, 102, 56, 1, 0, 2, 1, 0, 0, 3, 3, 1, 2, 0]),
        Mnemonic::VFNMADD231SD => Some(seq![1u8, 1, 189, 10, 102, 56, 1, 0, 2, 1, 0, 0, 3, 3, 1, 2, 0]),
        Mnemonic::VFNMSUB132PS => Some(seq![1u8, 1, 158, 10, 102, 56, 0, 0, 2, 1, 0, 0, 3, 3, 1, 2, 0]),
        Mnemonic::VFNMSUB213PS => Some(seq![1u8, 1, 174, 10, 102, 56, 0, 0, 2, 1, 0, 0, 3, 3, 1, 2, 0]),
        Mnemonic::VFNMSUB231PS => Some(seq![1u8, 1, 190, 10, 102, 56, 0, 0, 2, 1, 0, 0, 3, 3, 1, 2, 0]),
        Mnemonic::VFNMSUB132PD => Some(seq![1u8, 1, 158, 10, 102, 56, 1, 0, 2, 1, 0, 0, 3, 3, 1, 2, 0]),
        Mnemonic::VFNMSUB213PD => Some(seq![1u8, 1, 174, 10, 102, 56, 1, 0, 2, 1, 0, 0, 3, 3, 1, 2, 0]),
        Mnemonic::VFNMSUB231PD => Some(seq![1u8, 1, 190, 10, 102, 56, 1, 0, 2, 1, 0, 0, 3, 3, 1, 2, 0]),
        Mnemonic::VFNMSUB132SS => Some(seq![1u8, 1, 159, 10, 102, 56, 0, 0, 2, 1, 0, 0, 3, 3, 1, 2, 0]),
        Mnemonic::VFNMSUB213SS => Some(seq![1u8, 1, 175, 10, 102, 56, 0, 0, 2, 1, 0, 0, 3, 3, 1, 2, 0]),
        Mnemonic::VFNMSUB231SS => Some(seq![1u8, 1, 191, 10, 102, 56, 0, 0, 2, 1, 0, 0, 3, 3, 1, 2, 0]),
        Mnemonic::VFNMSUB132SD => Some(seq![1u8, 1, 159, 10, 102, 56, 1, 0, 2, 1, 0, 0, 3, 3, 1, 2, 0]),
        Mnemonic::VFNMSUB213SD => Some(seq![1u8, 1, 175, 10, 102, 56, 1, 0, 2, 1, 0, 0, 3, 3, 1, 2, 0]),
        Mnemonic::VFNMSUB231SD => Some(seq![1u8, 1, 191, 10, 102, 56, 1, 0, 2, 1, 0, 0, 3, 3, 1, 2, 0]),
        Mnemonic::VFMADDSUB132PS => Some(seq![1u8, 1, 150, 10, 102, 56, 0, 0, 2, 1, 0, 0, 3, 3, 1, 2, 0]),
        Mnemonic::VFMADDSUB213PS => Some(seq![1u8, 1, 166, 10, 102, 56, 0, 0, 2, 1, 0, 0, 3, 3, 1, 2, 0]),
        Mnemonic::VFMADDSUB231PS => Some(seq![1u8, 1, 182, 10, 102, 56, 0, 0, 2, 1, 0, 0, 3, 3, 1, 2, 0]),
        Mnemonic::VFMADDSUB132PD => Some(seq![1u8, 1, 150, 10, 102, 56, 1, 0, 2, 1, 0, 0, 3, 3, 1, 2, 0]),
        Mnemonic::VFMADDSUB213PD => Some(seq![1u8, 1, 166, 10, 102, 56, 1, 0, 2, 1, 0, 0, 3, 3, 1, 2, 0]),
        Mnemonic::VFMADDSUB231PD => Some(seq![1u8, 1, 182, 10, 102, 56, 1, 0, 2, 1, 0, 0, 3, 3, 1, 2, 0]),
        Mnemonic::VFMSUBADD132PS => Some(seq![1u8, 1, 151, 10, 102, 56, 0, 0, 2, 1, 0, 0, 3, 3, 1, 2, 0]),
        Mnemonic::VFMSUBADD213PS => Some(seq![1u8, 1, 167, 10, 102, 56, 0, 0, 2, 1, 0, 0, 3, 3, 1, 2, 0]),
        Mnemonic::VFMSUBADD231PS => Some(seq![1u8, 1, 183, 10, 102, 56, 0, 0, 2, 1, 0, 0, 3, 3, 1, 2, 0]),
        Mnemonic::VFMSUBADD132PD => Some(seq![1u8, 1, 151, 10, 102, 56, 1, 0, 2, 1, 0, 0, 3, 3, 1, 2, 0]),
        Mnemonic::VFMSUBADD213PD => Some(seq![1u8, 1, 167, 10, 102, 56, 1, 0, 2, 1, 0, 0, 3, 3, 1, 2, 0]),
        Mnemonic::VFMSUBADD231PD => Some(seq![1u8, 1, 183, 10, 102, 56, 1, 0, 2, 1, 0, 0, 3, 3, 1, 2, 0]),
        Mnemonic::AESDEC => Some(seq![6u8, 102, 1, 3, 15, 56, 222, 2, 1, 0, 0, 4, 3, 2, 1, 0]),
        Mnemonic::AESENC => Some(seq![6u8, 102, 1, 3, 15, 56, 220, 2, 1, 0, 0, 4, 3, 2, 1, 0]),
        Mnemonic::AESIMC => Some(seq![6u8, 102, 1, 3, 15, 56, 219, 2, 1, 0, 0, 4, 3, 2, 1, 0]),
        Mnemonic::AESDECLAST => Some(seq![6u8, 102, 1, 3, 15, 56, 223, 2, 1, 0, 0, 3, 2, 1, 0, 4]),
        Mnemonic::AESENCLAST => Some(seq![6u8, 102, 1, 3, 15, 56, 221, 2, 1, 0, 0, 3, 2, 1, 0, 4]),
        Mnemonic::VAESDEC => Some(seq![1u8, 1, 222, 10, 102, 56, 0, 0, 2, 1, 0, 0, 3, 3, 1, 2, 0]),
        Mnemonic::VAESENC => Some(seq![1u8, 1, 220, 10, 102, 56, 0, 0, 2, 1, 0, 0, 3, 3, 1, 2, 0]),
        Mnemonic::VAESIMC => Some(seq![1u8, 1, 219, 10, 102, 56, 0, 0, 2, 1, 0, 0, 3, 2, 1, 0]),
        Mnemonic::VAESENCLAST => Some(seq![1u8, 1, 221, 10, 102, 56, 0, 0, 2, 1, 0, 0, 3, 3, 1, 2, 0]),
        Mnemonic::VAESDECLAST => Some(seq![1u8, 1, 223, 10, 102, 56, 0, 0, 2, 1, 0, 0, 3, 3, 1, 2, 0]),
        Mnemonic::VAESKEYGENASSIST => Some(seq![1u8, 1, 223, 5, 2, 1, 10, 102, 58, 0, 0, 2, 1, 0, 0, 3, 2, 1, 0]),
        Mnemonic::AESKEYGENASSIST => Some(seq![1u8, 3, 15, 58, 223, 2, 1, 0, 0, 5, 2, 1, 6, 102, 4, 3, 2, 1, 0]),
        Mnemonic::CVTPD2PI => Some(seq![6u8, 102, 1, 2, 15, 45, 2, 1, 0, 0, 3, 2, 1, 0, 4]),
        Mnemonic::CVTSS2SD => Some(seq![6u8, 243, 1, 2, 15, 90, 2, 1, 0, 0, 3, 2, 1, 0, 4]),
        Mnemonic::CVTPD2PS => Some(seq![6u8, 102, 1, 2, 15, 90, 2, 1, 0, 0, 3, 2, 1, 0, 4]),
        Mnemonic::CVTPS2PD => Some(seq![1u8, 2, 15, 90, 2, 1, 0, 0, 3, 2, 1, 0, 4]),
        Mnemonic::CVTPI2PD => Some(seq![1u8, 2, 15, 42, 6, 102, 2, 1, 0, 0, 3, 2, 1, 0, 4]),
        Mnemonic::CVTPD2DQ => Some(seq![1u8, 2, 15, 230, 6, 242, 2, 1, 0, 0, 3, 2, 1, 0, 4]),
        Mnemonic::CVTSD2SS => Some(seq![1u8, 2, 15, 90, 6, 242, 2, 1, 0, 0, 3, 2, 1, 0, 4]),
        Mnemonic::CVTPS2DQ => Some(seq![1u8, 2, 15, 91, 6, 102, 2, 1, 0, 0, 3, 2, 1, 0, 4]),
        Mnemonic::CVTDQ2PS => Some(seq![1u8, 2, 15, 91, 2, 1, 0, 0, 3, 2, 1, 0, 4]),
        Mnemonic::CVTDQ2PD => Some(seq![1u8, 2, 15, 230, 2, 1, 0, 0, 6, 243, 3, 2, 1, 0, 4]),
        Mnemonic::CVTSD2SI => Some(seq![1u8, 2, 15, 45, 2, 1, 0, 0, 6, 242, 3, 2, 1, 0, 4]),
        Mnemonic::CVTSI2SD => Some(seq![1u8, 2, 15, 42, 2, 1, 0, 0, 6, 242, 3, 2, 1, 0, 4]),
        Mnemonic::CVTTPS2DQ => Some(seq![1u8, 2, 15, 91, 6, 243, 2, 1, 0, 0, 3, 2, 1, 0, 4]),
        Mnemonic::CVTTSD2SI => Some(seq![1u8, 2, 15, 44, 2, 1, 0, 0, 6, 102, 3, 2, 1, 0, 4]),
        Mnemonic::CVTTPD2PI => Some(seq![1u8, 2, 15, 44, 2, 1, 0, 0, 6, 102, 3, 2, 1, 0, 4]),
        Mnemonic::CVTPS2PI => Some(seq![1u8, 2, 15, 45, 2, 1, 0, 0, 3, 2, 1, 0, 4]),
        Mnemonic::CVTTPS2PI => Some(seq![1u8, 2, 15, 44, 2, 1, 0, 0, 3, 2, 1, 0, 4]),
        Mnemonic::CVTPI2PS => Some(seq![1u8, 2, 15, 42, 2, 1, 0, 0, 3, 2, 1, 0, 4]),
        Mnemonic::CVTTPD2DQ => Some(seq![1u8, 2, 15, 230, 2, 1, 0, 0, 6, 102, 3, 2, 1, 0, 4]),
        Mnemonic::CVTTSS2SI => Some(seq![1u8, 2, 15, 44, 2, 1, 0, 0, 3, 2, 1, 0, 6, 243, 4]),
        Mnemonic::VCVTPD2DQ => Some(seq![1u8, 1, 230, 10, 242, 15, 0, 0, 2, 1, 0, 0, 3, 2, 1, 0]),
        Mnemonic::VCVTPD2PS => Some(seq![1u8, 1, 90, 10, 102, 15, 0, 0, 2, 1, 0, 0, 3, 2, 1, 0]),
        Mnemonic::VCVTPS2DQ => Some(seq![1u8, 1, 91, 10, 102, 15, 0, 0, 2, 1, 0, 0, 3, 2, 1, 0]),
        Mnemonic::VCVTPS2PD => Some(seq![1u8, 1, 90, 10, 0, 15, 0, 0, 2, 1, 0, 0, 3, 2, 1, 0]),
        Mnemonic::VCVTSD2SI => Some(seq![1u8, 1, 45, 14, 242, 15, 1, 0, 2, 1, 0, 0, 3, 2, 1, 0]),
        Mnemonic::VCVTSD2SS => Some(seq![1u8, 1, 90, 10, 242, 15, 0, 0, 2, 1, 0, 0, 3, 3, 1, 2, 0]),
        Mnemonic::VCVTSI2SD => Some(seq![1u8, 1, 42, 14, 242, 15, 3, 0, 3, 3, 1, 2, 0, 2, 1, 0, 0]),
        Mnemonic::VCVTSI2SS => Some(seq![1u8, 1, 42, 14, 243, 15, 3, 0, 2, 1, 0, 0, 3, 3, 1, 2, 0]),
        Mnemonic::VCVTSS2SD => Some(seq![1u8, 1, 90, 10, 243, 15, 0, 0, 2, 1, 0, 0, 3, 3, 1, 2, 0]),
        Mnemonic::VCVTSS2SI => Some(seq![1u8, 1, 45, 14, 243, 15, 1, 0, 3, 2, 1, 0, 2, 1, 0, 0]),
        Mnemonic::VCVTDQ2PD => Some(seq![1u8, 1, 230, 10, 243, 15, 0, 0, 2, 1, 0, 0, 3, 2, 1, 0]),
        Mnemonic::VCVTDQ2PS => Some(seq![1u8, 1, 91, 10, 0, 15, 0, 0, 2, 1, 0, 0, 3, 2, 1, 0]),
        Mnemonic::VCVTTPD2DQ => Some(seq![1u8, 1, 230, 10, 102, 15, 0, 0, 2, 1, 0, 0, 3, 2, 1, 0]),
        Mnemonic::VCVTTPS2DQ => Some(seq![1u8, 1, 91, 10, 243, 15, 0, 0, 2, 1, 0, 0, 3, 2, 1, 0]),
        Mnemonic::VCVTTSD2SI => Some(seq![1u8, 1, 44, 14, 242, 15, 1, 0, 2, 1, 0, 0, 3, 2, 1, 0]),
        Mnemonic::VCVTTSS2SI => Some(seq![1u8, 1, 44, 14, 243, 15, 1, 0, 2, 1, 0, 0, 3, 2, 1, 0]),
        Mnemonic::CWD => Some(seq![1u8, 1, 153, 8, 2]),
        Mnemonic::CDQ => Some(seq![1u8, 1, 153, 8, 4]),
        _ => None,
    }
}

/// The layout program of a mnemonic of part 3 of the table.
fn prog_3(m: Mnemonic) -> (r: Option<Vec<u8>>)
    ensures
        match spec_prog_3(m) {
            Some(p) => r matches Some(v) && v@ == p,
            None => r is None,
        },
{
    proof {
        reveal(spec_prog_3);
    }
    match m {
        Mnemonic::VFMADD213SS => Some(vec![1u8, 1, 169, 10, 102, 56, 0, 0, 2, 1, 0, 0, 3, 3, 1, 2, 0]),
        Mnemonic::VFMADD231SS => Some(vec![1u8, 1, 185, 10, 102, 56, 0, 0, 2, 1, 0, 0, 3, 3, 1, 2, 0]),
        Mnemonic::VFMSUB132PS => Some(vec![1u8, 1, 154, 10, 102, 56, 0, 0, 2, 1, 0, 0, 3, 3, 1, 2, 0]),
        Mnemonic::VFMSUB213PS => Some(vec![1u8, 1, 170, 10, 102, 56, 0, 0, 2, 1, 0, 0, 3, 3, 1, 2, 0]),
        Mnemonic::VFMSUB231PS => Some(vec![1u8, 1, 186, 10, 102, 56, 0, 0, 2, 1, 0, 0, 3, 3, 1, 2, 0]),
        Mnemonic::VFMSUB132PD => Some(vec![1u8, 1, 154, 10, 102, 56, 1, 0, 2, 1, 0, 0, 3, 3, 1, 2, 0]),
        Mnemonic::VFMSUB213PD => Some(vec![1u8, 1, 170, 10, 102, 56, 1, 0, 2, 1, 0, 0, 3, 3, 1, 2, 0]),
        Mnemonic::VFMSUB231PD => Some(vec![1u8, 1, 186, 10, 102, 56, 1, 0, 2, 1, 0, 0, 3, 3, 1, 2, 0]),
        Mnemonic::VFMSUB132SD => Some(vec![1u8, 1, 155, 10, 102, 56, 1, 0, 2, 1, 0, 0, 3, 3, 1, 2, 0]),
        Mnemonic::VFMSUB213SD => Some(vec![1u8, 1, 171, 10, 102, 56, 1, 0, 2, 1, 0, 0, 3, 3, 1, 2, 0]),
        Mnemonic::VFMSUB231SD => Some(vec![1u8, 1, 187, 10, 102, 56, 1, 0, 2, 1, 0, 0, 3, 3, 1, 2, 0]),
        Mnemonic::VFMSUB132SS => Some(vec![1u8, 1, 155, 10, 102, 56, 0, 0, 2, 1, 0, 0, 3, 3, 1, 2, 0]),
        Mnemonic::VFMSUB213SS => Some(vec![1u8, 1, 171, 10, 102, 56, 0, 0, 2, 1, 0, 0, 3, 3, 1, 2, 0]),
        Mnemonic::VFMSUB231SS => Some(vec![1u8, 1, 187, 10, 102, 56, 0, 0, 2, 1, 0, 0, 3, 3, 1, 2, 0]),
        Mnemonic::VFNMADD132PS => Some(vec![1u8, 1, 156, 10, 102, 56, 0, 0, 2, 1, 0, 0, 3, 3, 1, 2, 0]),
        Mnemonic::VFNMADD213PS => Some(vec![1u8, 1, 172, 10, 102, 56, 0, 0, 2, 1, 0, 0, 3, 3, 1, 2, 0]),
        Mnemonic::VFNMADD231PS => Some(vec![1u8, 1, 188, 10, 102, 56, 0, 0, 2, 1, 0, 0, 3, 3, 1, 2, 0]),
        Mnemonic::VFNMADD132PD => Some(vec![1u8, 1, 156, 10, 102, 56, 1, 0, 2, 1, 0, 0, 3, 3, 1, 2, 0]),
        Mnemonic::VFNMADD213PD => Some(vec![1u8, 1, 172, 10, 102, 56, 1, 0, 2, 1, 0, 0, 3, 3, 1, 2, 0]),
        Mnemonic::VFNMADD231PD => Some(vec![1u8, 1, 188, 10, 102, 56, 1, 0, 2, 1, 0, 0, 3, 3, 1, 2, 0]),
        Mnemonic::VFNMADD132SS => Some(vec![1u8, 1, 157, 10, 102, 56, 0, 0, 2, 1, 0, 0, 3, 3, 1, 2, 0]),
        Mnemonic::VFNMADD213SS => Some(vec![1u8, 1, 173, 10, 102, 56, 0, 0, 2, 1, 0, 0, 3, 3, 1, 2, 0]),
        Mnemonic::VFNMADD231SS => Some(vec![1u8, 1, 189, 10, 102, 56, 0, 0, 2, 1, 0, 0, 3, 3, 1, 2, 0]),
        Mnemonic::VFNMADD132SD => Some(vec![1u8, 1, 157, 10, 102, 56, 1, 0, 2, 1, 0, 0, 3, 3, 1, 2, 0]),
        Mnemonic::VFNMADD213SD => Some(vec![1u8, 1, 173, 10, 102, 56, 1, 0, 2, 1, 0, 0, 3, 3, 1, 2, 0]),
        Mnemonic::VFNMADD231SD => Some(vec![1u8, 1, 189, 10, 102, 56, 1, 0, 2, 1, 0, 0, 3, 3, 1, 2, 0]),
        Mnemonic::VFNMSUB132PS => Some(vec![1u8, 1, 158, 10, 102, 56, 0, 0, 2, 1, 0, 0, 3, 3, 1, 2, 0]),
        Mnemonic::VFNMSUB213PS => Some(vec![1u8, 1, 174, 10, 102, 56, 0, 0, 2, 1, 0, 0, 3, 3, 1, 2, 0]),
        Mnemonic::VFNMSUB231PS => Some(vec![1u8, 1, 190, 10, 102, 56, 0, 0, 2, 1, 0, 0, 3, 3, 1, 2, 0]),
        Mnemonic::VFNMSUB132PD => Some(vec![1u8, 1, 158, 10, 102, 56, 1, 0, 2, 1, 0, 0, 3, 3, 1, 2, 0]),
        Mnemonic::VFNMSUB213PD => Some(vec![1u8, 1, 174, 10, 102, 56, 1, 0, 2, 1, 0, 0, 3, 3, 1, 2, 0]),
        Mnemonic::VFNMSUB231PD => Some(vec![1u8, 1, 190, 10, 102, 56, 1, 0, 2, 1, 0, 0, 3, 3, 1, 2, 0]),
        Mnemonic::VFNMSUB132SS => Some(vec![1u8, 1, 159, 10, 102, 56, 0, 0, 2, 1, 0, 0, 3, 3, 1, 2, 0]),
        Mnemonic::VFNMSUB213SS => Some(vec![1u8, 1, 175, 10, 102, 56, 0, 0, 2, 1, 0, 0, 3, 3, 1, 2, 0]),
        Mnemonic::VFNMSUB231SS => Some(vec![1u8, 1, 191, 10, 102, 56, 0, 0, 2, 1, 0, 0, 3, 3, 1, 2, 0]),
        Mnemonic::VFNMSUB132SD => Some(vec![1u8, 1, 159, 10, 102, 56, 1, 0, 2, 1, 0, 0, 3, 3, 1, 2, 0]),
        Mnemonic::VFNMSUB213SD => Some(vec![1u8, 1, 175, 10, 102, 56, 1, 0, 2, 1, 0, 0, 3, 3, 1, 2, 0]),
        Mnemonic::VFNMSUB231SD => Some(vec![1u8, 1, 191, 10, 102, 56, 1, 0, 2, 1, 0, 0, 3, 3, 1, 2, 0]),
        Mnemonic::VFMADDSUB132PS => Some(vec![1u8, 1, 150, 10, 102, 56, 0, 0, 2, 1, 0, 0, 3, 3, 1, 2, 0]),
        Mnemonic::VFMADDSUB213PS => Some(vec![1u8, 1, 166, 10, 102, 56, 0, 0, 2, 1, 0, 0, 3, 3, 1, 2, 0]),
        Mnemonic::VFMADDSUB231PS => Some(vec![1u8, 1, 182, 10, 102, 56, 0, 0, 2, 1, 0, 0, 3, 3, 1, 2, 0]),
        Mnemonic::VFMADDSUB132PD => Some(vec![1u8, 1, 150, 10, 102, 56, 1, 0, 2, 1, 0, 0, 3, 3, 1, 2, 0]),
        Mnemonic::VFMADDSUB213PD => Some(vec![1u8, 1, 166, 10, 102, 56, 1, 0, 2, 1, 0, 0, 3, 3, 1, 2, 0]),
        Mnemonic::VFMADDSUB231PD => Some(vec![1u8, 1, 182, 10, 102, 56, 1, 0, 2, 1, 0, 0, 3, 3, 1, 2, 0]),
        Mnemonic::VFMSUBADD132PS => Some(vec![1u8, 1, 151, 10, 102, 56, 0, 0, 2, 1, 0, 0, 3, 3, 1, 2, 0]),
        Mnemonic::VFMSUBADD213PS => Some(vec![1u8, 1, 167, 10, 102, 56, 0, 0, 2, 1, 0, 0, 3, 3, 1, 2, 0]),
        Mnemonic::VFMSUBADD231PS => Some(vec![1u8, 1, 183, 10, 102, 56, 0, 0, 2, 1, 0, 0, 3, 3, 1, 2, 0]),
        Mnemonic::VFMSUBADD132PD => Some(vec![1u8, 1, 151, 10, 102, 56, 1, 0, 2, 1, 0, 0, 3, 3, 1, 2, 0]),
        Mnemonic::VFMSUBADD213PD => Some(vec![1u8, 1, 167, 10, 102, 56, 1, 0, 2, 1, 0, 0, 3, 3, 1, 2, 0]),
        Mnemonic::VFMSUBADD231PD => Some(vec![1u8, 1, 183, 10, 102, 56, 1, 0, 2, 1, 0, 0, 3, 3, 1, 2, 0]),
        Mnemonic::AESDEC => Some(vec![6u8, 102, 1, 3, 15, 56, 222, 2, 1, 0, 0, 4, 3, 2, 1, 0]),
        Mnemonic::AESENC => Some(vec![6u8, 102, 1, 3, 15, 56, 220, 2, 1, 0, 0, 4, 3, 2, 1, 0]),
        Mnemonic::AESIMC => Some(vec![6u8, 102, 1, 3, 15, 56, 219, 2, 1, 0, 0, 4, 3, 2, 1, 0]),
        Mnemonic::AESDECLAST => Some(vec![6u8, 102, 1, 3, 15, 56, 223, 2, 1, 0, 0, 3, 2, 1, 0, 4]),
        Mnemonic::AESENCLAST => Some(vec![6u8, 102, 1, 3, 15, 56, 221, 2, 1, 0, 0, 3, 2, 1, 0, 4]),
        Mnemonic::VAESDEC => Some(vec![1u8, 1, 222, 10, 102, 56, 0, 0, 2, 1, 0, 0, 3, 3, 1, 2, 0]),
        Mnemonic::VAESENC => Some(vec![1u8, 1, 220, 10, 102, 56, 0, 0, 2, 1, 0, 0, 3, 3, 1, 2, 0]),
        Mnemonic::VAESIMC => Some(vec![1u8, 1, 219, 10, 102, 56, 0, 0, 2, 1, 0, 0, 3, 2, 1, 0]),
        Mnemonic::VAESENCLAST => Some(vec![1u8, 1, 221, 10, 102, 56, 0, 0, 2, 1, 0, 0, 3, 3, 1, 2, 0]),
        Mnemonic::VAESDECLAST => Some(vec![1u8, 1, 223, 10, 102, 56, 0, 0, 2, 1, 0, 0, 3, 3, 1, 2, 0]),
        Mnemonic::VAESKEYGENASSIST => Some(vec![1u8, 1, 223, 5, 2, 1, 10, 102, 58, 0, 0, 2, 1, 0, 0, 3, 2, 1, 0]),
        Mnemonic::AESKEYGENASSIST => Some(vec![1u8, 3, 15, 58, 223, 2, 1, 0, 0, 5, 2, 1, 6, 102, 4, 3, 2, 1, 0]),
        Mnemonic::CVTPD2PI => Some(vec![6u8, 102, 1, 2, 15, 45, 2, 1, 0, 0, 3, 2, 1, 0, 4]),
        Mnemonic::CVTSS2SD => Some(vec![6u8, 243, 1, 2, 15, 90, 2, 1, 0, 0, 3, 2, 1, 0, 4]),
        Mnemonic::CVTPD2PS => Some(vec![6u8, 102, 1, 2, 15, 90, 2, 1, 0, 0, 3, 2, 1, 0, 4]),
        Mnemonic::CVTPS2PD => Some(vec![1u8, 2, 15, 90, 2, 1, 0, 0, 3, 2, 1, 0, 4]),
        Mnemonic::CVTPI2PD => Some(vec![1u8, 2, 15, 42, 6, 102, 2, 1, 0, 0, 3, 2, 1, 0, 4]),
        Mnemonic::CVTPD2DQ => Some(vec![1u8, 2, 15, 230, 6, 242, 2, 1, 0, 0, 3, 2, 1, 0, 4]),
        Mnemonic::CVTSD2SS => Some(vec![1u8, 2, 15, 90, 6, 242, 2, 1, 0, 0, 3, 2, 1, 0, 4]),
        Mnemonic::CVTPS2DQ => Some(vec![1u8, 2, 15, 91, 6, 102, 2, 1, 0, 0, 3, 2, 1, 0, 4]),
        Mnemonic::CVTDQ2PS => Some(vec![1u8, 2, 15, 91, 2, 1, 0, 0, 3, 2, 1, 0, 4]),
        Mnemonic::CVTDQ2PD => Some(vec![1u8, 2, 15, 230, 2, 1, 0, 0, 6, 243, 3, 2, 1, 0, 4]),
        Mnemonic::CVTSD2SI => Some(vec![1u8, 2, 15, 45, 2, 1, 0, 0, 6, 242, 3, 2, 1, 0, 4]),
        Mnemonic::CVTSI2SD => Some(vec![1u8, 2, 15, 42, 2, 1, 0, 0, 6, 242, 3, 2, 1, 0, 4]),
        Mnemonic::CVTTPS2DQ => Some(vec![1u8, 2, 15, 91, 6, 243, 2, 1, 0, 0, 3, 2, 1, 0, 4]),
        Mnemonic::CVTTSD2SI => Some(vec![1u8, 2, 15, 44, 2, 1, 0, 0, 6, 102, 3, 2, 1, 0, 4]),
        Mnemonic::CVTTPD2PI => Some(vec![1u8, 2, 15, 44, 2, 1, 0, 0, 6, 102, 3, 2, 1, 0, 4]),
        Mnemonic::CVTPS2PI => Some(vec![1u8, 2, 15, 45, 2, 1, 0, 0, 3, 2, 1, 0, 4]),
        Mnemonic::CVTTPS2PI => Some(vec![1u8, 2, 15, 44, 2, 1, 0, 0, 3, 2, 1, 0, 4]),
        Mnemonic::CVTPI2PS => Some(vec![1u8, 2, 15, 42, 2, 1, 0, 0, 3, 2, 1, 0, 4]),
        Mnemonic::CVTTPD2DQ => Some(vec![1u8, 2, 15, 230, 2, 1, 0, 0, 6, 102, 3, 2, 1, 0, 4]),
        Mnemonic::CVTTSS2SI => Some(vec![1u8, 2, 15, 44, 2, 1, 0, 0, 3, 2, 1, 0, 6, 243, 4]),
        Mnemonic::VCVTPD2DQ => Some(vec![1u8, 1, 230, 10, 242, 15, 0, 0, 2, 1, 0, 0, 3, 2, 1, 0]),
        Mnemonic::VCVTPD2PS => Some(vec![1u8, 1, 90, 10, 102, 15, 0, 0, 2, 1, 0, 0, 3, 2, 1, 0]),
        Mnemonic::VCVTPS2DQ => Some(vec![1u8, 1, 91, 10, 102, 15, 0, 0, 2, 1, 0, 0, 3, 2, 1, 0]),
        Mnemonic::VCVTPS2PD => Some(vec![1u8, 1, 90, 10, 0, 15, 0, 0, 2, 1, 0, 0, 3, 2, 1, 0]),
        Mnemonic::VCVTSD2SI => Some(vec![1u8, 1, 45, 14, 242, 15, 1, 0, 2, 1, 0, 0, 3, 2, 1, 0]),
        Mnemonic::VCVTSD2SS => Some(vec![1u8, 1, 90, 10, 242, 15, 0, 0, 2, 1, 0, 0, 3, 3, 1, 2, 0]),
        Mnemonic::VCVTSI2SD => Some(vec![1u8, 1, 42, 14, 242, 15, 3, 0, 3, 3, 1, 2, 0, 2, 1, 0, 0]),
        Mnemonic::VCVTSI2SS => Some(vec![1u8, 1, 42, 14, 243, 15, 3, 0, 2, 1, 0, 0, 3, 3, 1, 2, 0]),
        Mnemonic::VCVTSS2SD => Some(vec![1u8, 1, 90, 10, 243, 15, 0, 0, 2, 1, 0, 0, 3, 3, 1, 2, 0]),
        Mnemonic::VCVTSS2SI => Some(vec![1u8, 1, 45, 14, 243, 15, 1, 0, 3, 2, 1, 0, 2, 1, 0, 0]),
        Mnemonic::VCVTDQ2PD => Some(vec![1u8, 1, 230, 10, 243, 15, 0, 0, 2, 1, 0, 0, 3, 2, 1, 0]),
        Mnemonic::VCVTDQ2PS => Some(vec![1u8, 1, 91, 10, 0, 15, 0, 0, 2, 1, 0, 0, 3, 2, 1, 0]),
        Mnemonic::VCVTTPD2DQ => Some(vec![1u8, 1, 230, 10, 102, 15, 0, 0, 2, 1, 0, 0, 3, 2, 1, 0]),
        Mnemonic::VCVTTPS2DQ => Some(vec![1u8, 1, 91, 10, 243, 15, 0, 0, 2, 1, 0, 0, 3, 2, 1, 0]),
        Mnemonic::VCVTTSD2SI => Some(vec![1u8, 1, 44, 14, 242, 15, 1, 0, 2, 1, 0, 0, 3, 2, 1, 0]),
        Mnemonic::VCVTTSS2SI => Some(vec![1u8, 1, 44, 14, 243, 15, 1, 0, 2, 1, 0, 0, 3, 2, 1, 0]),
        Mnemonic::CWD => Some(vec![1u8, 1, 153, 8, 2]),
        Mnemonic::CDQ => Some(vec![1u8, 1, 153, 8, 4]),
        _ => None,
    }
}

/// Layout programs (see `run_prog`) of the mnemonics of part 4 of the table.
#[verifier::opaque]
pub open spec fn spec_prog_4(m: Mnemonic) -> Option<Seq<u8>> {
    match m {
        Mnemonic::CBW => Some(seq![1u8, 1, 152, 8, 2]),
        Mnemonic::ANDN => Some(seq![1u8, 1, 242, 2, 1, 0, 0, 14, 0, 56, 0, 0, 3, 3, 1, 2, 0]),
        Mnemonic::CWDE => Some(seq![1u8, 1, 152, 8, 4]),
        Mnemonic::CLUI => Some(seq![6u8, 243, 1, 3, 15, 1, 238]),
        Mnemonic::CLWB => Some(seq![1u8, 2, 15, 174, 6, 102, 2, 1, 1, 6]),
        Mnemonic::ARPL => Some(seq![1u8, 1, 99, 2, 1, 0, 0]),
        Mnemonic::BLSR => Some(seq![1u8, 1, 243, 2, 1, 1, 1, 14, 0, 56, 0, 0, 3, 2, 2, 0]),
        Mnemonic::BLSI => Some(seq![1u8, 1, 243, 2, 1, 1, 3, 14, 0, 56, 0, 0, 3, 2, 2, 0]),
        Mnemonic::BZHI => Some(seq![1u8, 1, 245, 2, 1, 0, 0, 14, 0, 56, 0, 0, 3, 3, 1, 0, 2]),
        Mnemonic::BEXTR => Some(seq![1u8, 1, 247, 14, 0, 56, 0, 0, 2, 1, 0, 0, 3, 3, 1, 0, 2]),
        Mnemonic::BLSMSK => Some(seq![1u8, 1, 243, 2, 1, 1, 2, 14, 0, 56, 0, 0, 3, 2, 2, 0]),
        Mnemonic::CMPSTRB => Some(seq![1u8, 1, 166, 8, 1]),
        Mnemonic::CMPSTRW => Some(seq![1u8, 1, 167, 8, 2]),
        Mnemonic::CMPSTRD => Some(seq![1u8, 1, 167, 8, 4]),
        Mnemonic::CMPSTRQ => Some(seq![1u8, 2, 72, 167, 8, 8]),
        Mnemonic::ENDBR64 => Some(seq![6u8, 243, 1, 3, 15, 30, 250]),
        Mnemonic::ENDBR32 => Some(seq![6u8, 243, 1, 3, 15, 30, 251]),
        Mnemonic::CLDEMOTE => Some(seq![1u8, 2, 15, 28, 2, 1, 1, 0]),
        Mnemonic::CMPXCHG8B => Some(seq![1u8, 2, 15, 199, 2, 1, 1, 1]),
        Mnemonic::HRESET => Some(seq![6u8, 243, 1, 4, 15, 58, 240, 192, 2, 0, 0, 0, 5, 0, 1]),
        Mnemonic::INSB => Some(seq![1u8, 1, 108, 8, 1]),
        Mnemonic::INSW => Some(seq![1u8, 1, 109, 8, 2]),
        Mnemonic::INSD => Some(seq![1u8, 1, 109, 8, 4]),
        Mnemonic::INVLPG => Some(seq![1u8, 3, 15, 1, 248]),
        Mnemonic::LAR => Some(seq![1u8, 2, 15, 2, 3, 2, 1, 0, 2, 1, 0, 0]),
        Mnemonic::LLDT => Some(seq![1u8, 2, 15, 0, 2, 1, 1, 2, 9, 0]),
        Mnemonic::LMSW => Some(seq![1u8, 2, 15, 1, 2, 1, 1, 6, 9, 0]),
        Mnemonic::LODSB => Some(seq![8u8, 1, 1, 1, 172]),
        Mnemonic::LODSW => Some(seq![8u8, 2, 1, 1, 173]),
        Mnemonic::LODSD => Some(seq![8u8, 4, 1, 1, 173]),
        Mnemonic::LODSQ => Some(seq![8u8, 8, 1, 2, 72, 173]),
        Mnemonic::LTR => Some(seq![1u8, 2, 15, 0, 2, 1, 1, 3, 9, 0]),
        Mnemonic::MOVSTRB => Some(seq![1u8, 1, 164, 8, 1]),
        Mnemonic::MOVSTRW => Some(seq![1u8, 1, 165, 8, 2]),
        Mnemonic::MOVSTRD => Some(seq![1u8, 1, 165, 8, 4]),
        Mnemonic::MOVSTRQ => Some(seq![1u8, 2, 72, 165, 8, 8]),
        Mnemonic::MULX => Some(seq![14u8, 242, 56, 0, 0, 1, 1, 246, 2, 1, 0, 0, 3, 3, 1, 2, 0]),
        Mnemonic::OUTSB => Some(seq![1u8, 1, 110, 8, 1]),
        Mnemonic::OUTSW => Some(seq![1u8, 1, 111, 8, 2]),
        Mnemonic::OUTSD => Some(seq![1u8, 1, 111, 8, 4]),
        Mnemonic::PEXT => Some(seq![1u8, 1, 245, 2, 1, 0, 0, 14, 243, 56, 0, 0, 3, 3, 1, 2, 0]),
        Mnemonic::PDEP => Some(seq![1u8, 1, 245, 2, 1, 0, 0, 14, 242, 56, 0, 0, 3, 3, 1, 2, 0]),
        Mnemonic::PREFETCHW => Some(seq![1u8, 2, 15, 13, 2, 1, 1, 1]),
        Mnemonic::PREFETCH0 => Some(seq![1u8, 2, 15, 24, 2, 1, 1, 1]),
        Mnemonic::PREFETCH1 => Some(seq![1u8, 2, 15, 24, 2, 1, 1, 2]),
        Mnemonic::PREFETCH2 => Some(seq![1u8, 2, 15, 24, 2, 1, 1, 3]),
        Mnemonic::PREFETCHA => Some(seq![1u8, 2, 15, 24, 2, 1, 1, 0]),
        Mnemonic::RDPID => Some(seq![1u8, 2, 15, 199, 6, 243, 2, 1, 1, 7]),
        Mnemonic::RDSSPD => Some(seq![1u8, 2, 15, 30, 2, 1, 1, 1, 6, 243, 4]),
        Mnemonic::RORX => Some(seq![1u8, 1, 240, 14, 242, 58, 0, 2, 2, 1, 0, 0, 3, 3, 1, 0, 2, 5, 2, 1]),
        Mnemonic::RSTORSSP => Some(seq![1u8, 2, 15, 1, 2, 1, 1, 5, 6, 243, 4]),
        Mnemonic::SHLX => Some(seq![1u8, 1, 247, 14, 102, 56, 0, 0, 2, 1, 0, 0, 3, 3, 1, 0, 2]),
        Mnemonic::SHRX => Some(seq![1u8, 1, 247, 14, 242, 56, 0, 0, 2, 1, 0, 0, 3, 3, 1, 0, 2]),
        Mnemonic::SARX => Some(seq![1u8, 1, 247, 14, 243, 56, 0, 0, 2, 1, 0, 0, 3, 3, 1, 0, 2]),
        Mnemonic::SCASB => Some(seq![8u8, 1, 1, 1, 174]),
        Mnemonic::SCASW => Some(seq![8u8, 2, 1, 1, 175]),
        Mnemonic::SCASD => Some(seq![8u8, 4, 1, 1, 175]),
        Mnemonic::SCASQ => Some(seq![8u8, 8, 1, 2, 72, 175]),
        Mnemonic::SENDUIPI => Some(seq![6u8, 243, 1, 2, 15, 199, 2, 1, 1, 6, 9, 0, 3, 3, 1, 0, 2]),
        Mnemonic::SETSSBY => Some(Seq::empty()),
        Mnemonic::SETO => Some(seq![1u8, 2, 15, 144, 2, 1, 0, 0, 4]),
        Mnemonic::SETNO => Some(seq![1u8, 2, 15, 145, 2, 1, 0, 0, 4]),
        Mnemonic::SETS => Some(seq![1u8, 2, 15, 152, 2, 1, 0, 0, 4]),
        Mnemonic::SETNS => Some(seq![1u8, 2, 15, 153, 2, 1, 0, 0, 4]),
        Mnemonic::STUI => Some(seq![6u8, 243, 1, 3, 15, 1, 239]),
        Mnemonic::STOSW => Some(seq![1u8, 1, 171, 8, 2]),
        Mnemonic::STOSD => Some(seq![1u8, 1, 171, 8, 4]),
        Mnemonic::TESTUI => Some(seq![6u8, 243, 1, 3, 15, 1, 237]),
        Mnemonic::UD0 => Some(seq![1u8, 2, 15, 255, 2, 1, 0, 0, 3, 3, 1, 0, 2]),
        Mnemonic::TPAUSE => Some(seq![2u8, 1, 1, 6, 6, 102, 1, 2, 15, 174]),
        Mnemonic::UMWAIT => Some(seq![2u8, 1, 1, 6, 6, 242, 1, 2, 15, 174]),
        Mnemonic::UMONITOR => Some(seq![2u8, 1, 1, 6, 6, 243, 1, 2, 15, 174]),
        Mnemonic::STR => Some(seq![2u8, 1, 1, 1, 1, 2, 15, 0]),
        Mnemonic::VERR => Some(seq![2u8, 1, 1, 4, 1, 2, 15, 0, 9, 0]),
        Mnemonic::VERW => Some(seq![2u8, 1, 1, 5, 1, 2, 15, 0, 9, 0]),
        Mnemonic::XABORT => Some(seq![5u8, 0, 1, 1, 2, 198, 248]),
        Mnemonic::XRESLDTRK => Some(seq![6u8, 242, 1, 3, 15, 1, 233]),
        Mnemonic::XSUSLDTRK => Some(seq![6u8, 242, 1, 3, 15, 1, 232]),
        Mnemonic::SHA1MSG1 => Some(seq![1u8, 3, 15, 56, 201, 2, 1, 0, 0, 3, 3, 1, 0, 2, 4]),
        Mnemonic::SHA1NEXTE => Some(seq![1u8, 3, 15, 56, 200, 2, 1, 0, 0, 4, 3, 3, 1, 0, 2]),
        Mnemonic::SHA1MSG2 => Some(seq![1u8, 3, 15, 56, 202, 2, 1, 0, 0, 4, 3, 3, 1, 0, 2]),
        Mnemonic::SHA1RNDS4 => Some(seq![1u8, 3, 15, 58, 204, 2, 1, 0, 0, 3, 3, 1, 0, 2, 4, 5, 2, 1]),
        Mnemonic::SHA256RNDS2 => Some(seq![1u8, 3, 15, 56, 203, 2, 1, 0, 0, 3, 3, 1, 0, 2, 4]),
        Mnemonic::SHA256MSG2 => Some(seq![1u8, 3, 15, 56, 205, 2, 1, 0, 0, 3, 3, 1, 0, 2, 4]),
        Mnemonic::SHA256MSG1 => Some(seq![1u8, 3, 15, 56, 204, 2, 1, 0, 0, 3, 3, 1, 0, 2, 4]),
        Mnemonic::LIDT => Some(seq![1u8, 2, 15, 1, 2, 1, 1, 3, 4, 9, 0]),
        Mnemonic::LGDT => Some(seq![1u8, 2, 15, 1, 2, 1, 1, 2, 4, 9, 0]),
        Mnemonic::VADDPH => Some(seq![1u8, 1, 88, 11, 0, 5, 0, 0, 2, 1, 0, 0, 3, 3, 1, 2, 0]),
        Mnemonic::VADDSH => Some(seq![1u8, 1, 88, 11, 243, 5, 0, 0, 2, 1, 0, 0, 3, 3, 1, 2, 0]),
        Mnemonic::VALIGNQ => Some(seq![1u8, 1, 3, 11, 102, 3, 1, 0, 3, 3, 1, 2, 0, 2, 1, 0, 0, 5, 3, 1]),
        Mnemonic::VALIGND => Some(seq![1u8, 1, 3, 11, 102, 3, 0, 0, 3, 3, 1, 2, 0, 2, 1, 0, 0, 5, 3, 1]),
        Mnemonic::VBCSTNESH2PS => Some(seq![1u8, 1, 177, 10, 102, 2, 0, 0, 3, 2, 1, 0, 2, 1, 0, 0]),
        Mnemonic::VBCSTNEBF162PS => Some(seq![1u8, 1, 177, 10, 243, 2, 0, 0, 3, 2, 1, 0, 2, 1, 0, 0]),
        Mnemonic::VBLENDMPS => Some(seq![1u8, 1, 101, 11, 102, 2, 0, 0, 3, 3, 1, 2, 0, 2, 1, 0, 0]),
        Mnemonic::VBLENDMPD => Some(seq![1u8, 1, 101, 11, 102, 2, 1, 0, 3, 3, 1, 2, 0, 2, 1, 0, 0]),
        Mnemonic::VBROADCASTF32X2 => Some(seq![1u8, 1, 25, 11, 102, 2, 0, 0, 3, 2, 1, 0, 2, 1, 0, 0]),
        Mnemonic::VBROADCASTF32X4 => Some(seq![1u8, 1, 26, 11, 102, 2, 0, 0, 3, 2, 1, 0, 2, 1, 0, 0]),
        Mnemonic::VBROADCASTF64X2 => Some(seq![1u8, 1, 26, 11, 102, 2, 1, 0, 3, 2, 1, 0, 2, 1, 0, 0]),
        Mnemonic::VBROADCASTF32X8 => Some(seq![1u8, 1, 27, 11, 102, 2, 0, 0, 3, 2, 1, 0, 2, 1, 0, 0]),
        Mnemonic::VBROADCASTF64X4 => Some(seq![1u8, 1, 27, 11, 102, 2, 1, 0, 3, 2, 1, 0, 2, 1, 0, 0]),
        _ => None,
    }
}

/// The layout program of a mnemonic of part 4 of the table.
fn prog_4(m: Mnemonic) -> (r: Option<Vec<u8>>)
    ensures
        match spec_prog_4(m) {
            Some(p) => r matches Some(v) && v@ == p,
            None => r is None,
        },
{
    proof {
        reveal(spec_prog_4);
    }
    match m {
        Mnemonic::CBW => Some(vec![1u8, 1, 152, 8, 2]),
        Mnemonic::ANDN => Some(vec![1u8, 1, 242, 2, 1, 0, 0, 14, 0, 56, 0, 0, 3, 3, 1, 2, 0]),
        Mnemonic::CWDE => Some(vec![1u8, 1, 152, 8, 4]),
        Mnemonic::CLUI => Some(vec![6u8, 243, 1, 3, 15, 1, 238]),
        Mnemonic::CLWB => Some(vec![1u8, 2, 15, 174, 6, 102, 2, 1, 1, 6]),
        Mnemonic::ARPL => Some(vec![1u8, 1, 99, 2, 1, 0, 0]),
        Mnemonic::BLSR => Some(vec![1u8, 1, 243, 2, 1, 1, 1, 14, 0, 56, 0, 0, 3, 2, 2, 0]),
        Mnemonic::BLSI => Some(vec![1u8, 1, 243, 2, 1, 1, 3, 14, 0, 56, 0, 0, 3, 2, 2, 0]),
        Mnemonic::BZHI => Some(vec![1u8, 1, 245, 2, 1, 0, 0, 14, 0, 56, 0, 0, 3, 3, 1, 0, 2]),
        Mnemonic::BEXTR => Some(vec![1u8, 1, 247, 14, 0, 56, 0, 0, 2, 1, 0, 0, 3, 3, 1, 0, 2]),
        Mnemonic::BLSMSK => Some(vec![1u8, 1, 243, 2, 1, 1, 2, 14, 0, 56, 0, 0, 3, 2, 2, 0]),
        Mnemonic::CMPSTRB => Some(vec![1u8, 1, 166, 8, 1]),
        Mnemonic::CMPSTRW => Some(vec![1u8, 1, 167, 8, 2]),
        Mnemonic::CMPSTRD => Some(vec![1u8, 1, 167, 8, 4]),
        Mnemonic::CMPSTRQ => Some(vec![1u8, 2, 72, 167, 8, 8]),
        Mnemonic::ENDBR64 => Some(vec![6u8, 243, 1, 3, 15, 30, 250]),
        Mnemonic::ENDBR32 => Some(vec![6u8, 243, 1, 3, 15, 30, 251]),
        Mnemonic::CLDEMOTE => Some(vec![1u8, 2, 15, 28, 2, 1, 1, 0]),
        Mnemonic::CMPXCHG8B => Some(vec![1u8, 2, 15, 199, 2, 1, 1, 1]),
        Mnemonic::HRESET => Some(vec![6u8, 243, 1, 4, 15, 58, 240, 192, 2, 0, 0, 0, 5, 0, 1]),
        Mnemonic::INSB => Some(vec![1u8, 1, 108, 8, 1]),
        Mnemonic::INSW => Some(vec![1u8, 1, 109, 8, 2]),
        Mnemonic::INSD => Some(vec![1u8, 1, 109, 8, 4]),
        Mnemonic::INVLPG => Some(vec![1u8, 3, 15, 1, 248]),
        Mnemonic::LAR => Some(vec![1u8, 2, 15, 2, 3, 2, 1, 0, 2, 1, 0, 0]),
        Mnemonic::LLDT => Some(vec![1u8, 2, 15, 0, 2, 1, 1, 2, 9, 0]),
        Mnemonic::LMSW => Some(vec![1u8, 2, 15, 1, 2, 1, 1, 6, 9, 0]),
        Mnemonic::LODSB => Some(vec![8u8, 1, 1, 1, 172]),
        Mnemonic::LODSW => Some(vec![8u8, 2, 1, 1, 173]),
        Mnemonic::LODSD => Some(vec![8u8, 4, 1, 1, 173]),
        Mnemonic::LODSQ => Some(vec![8u8, 8, 1, 2, 72, 173]),
        Mnemonic::LTR => Some(vec![1u8, 2, 15, 0, 2, 1, 1, 3, 9, 0]),
        Mnemonic::MOVSTRB => Some(vec![1u8, 1, 164, 8, 1]),
        Mnemonic::MOVSTRW => Some(vec![1u8, 1, 165, 8, 2]),
        Mnemonic::MOVSTRD => Some(vec![1u8, 1, 165, 8, 4]),
        Mnemonic::MOVSTRQ => Some(vec![1u8, 2, 72, 165, 8, 8]),
        Mnemonic::MULX => Some(vec![14u8, 242, 56, 0, 0, 1, 1, 246, 2, 1, 0, 0, 3, 3, 1, 2, 0]),
        Mnemonic::OUTSB => Some(vec![1u8, 1, 110, 8, 1]),
        Mnemonic::OUTSW => Some(vec![1u8, 1, 111, 8, 2]),
        Mnemonic::OUTSD => Some(vec![1u8, 1, 111, 8, 4]),
        Mnemonic::PEXT => Some(vec![1u8, 1, 245, 2, 1, 0, 0, 14, 243, 56, 0, 0, 3, 3, 1, 2, 0]),
        Mnemonic::PDEP => Some(vec![1u8, 1, 245, 2, 1, 0, 0, 14, 242, 56, 0, 0, 3, 3, 1, 2, 0]),
        Mnemonic::PREFETCHW => Some(vec![1u8, 2, 15, 13, 2, 1, 1, 1]),
        Mnemonic::PREFETCH0 => Some(vec![1u8, 2, 15, 24, 2, 1, 1, 1]),
        Mnemonic::PREFETCH1 => Some(vec![1u8, 2, 15, 24, 2, 1, 1, 2]),
        Mnemonic::PREFETCH2 => Some(vec![1u8, 2, 15, 24, 2, 1, 1, 3]),
        Mnemonic::PREFETCHA => Some(vec![1u8, 2, 15, 24, 2, 1, 1, 0]),
        Mnemonic::RDPID => Some(vec![1u8, 2, 15, 199, 6, 243, 2, 1, 1, 7]),
        Mnemonic::RDSSPD => Some(vec![1u8, 2, 15, 30, 2, 1, 1, 1, 6, 243, 4]),
        Mnemonic::RORX => Some(vec![1u8, 1, 240, 14, 242, 58, 0, 2, 2, 1, 0, 0, 3, 3, 1, 0, 2, 5, 2, 1]),
        Mnemonic::RSTORSSP => Some(vec![1u8, 2, 15, 1, 2, 1, 1, 5, 6, 243, 4]),
        Mnemonic::SHLX => Some(vec![1u8, 1, 247, 14, 102, 56, 0, 0, 2, 1, 0, 0, 3, 3, 1, 0, 2]),
        Mnemonic::SHRX => Some(vec![1u8, 1, 247, 14, 242, 56, 0, 0, 2, 1, 0, 0, 3, 3, 1, 0, 2]),
        Mnemonic::SARX => Some(vec![1u8, 1, 247, 14, 243, 56, 0, 0, 2, 1, 0, 0, 3, 3, 1, 0, 2]),
        Mnemonic::SCASB => Some(vec![8u8, 1, 1, 1, 174]),
        Mnemonic::SCASW => Some(vec![8u8, 2, 1, 1, 175]),
        Mnemonic::SCASD => Some(vec![8u8, 4, 1, 1, 175]),
        Mnemonic::SCASQ => Some(vec![8u8, 8, 1, 2, 72, 175]),
        Mnemonic::SENDUIPI => Some(vec![6u8, 243, 1, 2, 15, 199, 2, 1, 1, 6, 9, 0, 3, 3, 1, 0, 2]),
        Mnemonic::SETSSBY => Some(Vec::new()),
        Mnemonic::SETO => Some(vec![1u8, 2, 15, 144, 2, 1, 0, 0, 4]),
        Mnemonic::SETNO => Some(vec![1u8, 2, 15, 145, 2, 1, 0, 0, 4]),
        Mnemonic::SETS => Some(vec![1u8, 2, 15, 152, 2, 1, 0, 0, 4]),
        Mnemonic::SETNS => Some(vec![1u8, 2, 15, 153, 2, 1, 0, 0, 4]),
        Mnemonic::STUI => Some(vec![6u8, 243, 1, 3, 15, 1, 239]),
        Mnemonic::STOSW => Some(vec![1u8, 1, 171, 8, 2]),
        Mnemonic::STOSD => Some(vec![1u8, 1, 171, 8, 4]),
        Mnemonic::TESTUI => Some(vec![6u8, 243, 1, 3, 15, 1, 237]),
        Mnemonic::UD0 => Some(vec![1u8, 2, 15, 255, 2, 1, 0, 0, 3, 3, 1, 0, 2]),
        Mnemonic::TPAUSE => Some(vec![2u8, 1, 1, 6, 6, 102, 1, 2, 15, 174]),
        Mnemonic::UMWAIT => Some(vec![2u8, 1, 1, 6, 6, 242, 1, 2, 15, 174]),
        Mnemonic::UMONITOR => Some(vec![2u8, 1, 1, 6, 6, 243, 1, 2, 15, 174]),
        Mnemonic::STR => Some(vec![2u8, 1, 1, 1, 1, 2, 15, 0]),
        Mnemonic::VERR => Some(vec![2u8, 1, 1, 4, 1, 2, 15, 0, 9, 0]),
        Mnemonic::VERW => Some(vec![2u8, 1, 1, 5, 1, 2, 15, 0, 9, 0]),
        Mnemonic::XABORT => Some(vec![5u8, 0, 1, 1, 2, 198, 248]),
        Mnemonic::XRESLDTRK => Some(vec![6u8, 242, 1, 3, 15, 1, 233]),
        Mnemonic::XSUSLDTRK => Some(vec![6u8, 242, 1, 3, 15, 1, 232]),
        Mnemonic::SHA1MSG1 => Some(vec![1u8, 3, 15, 56, 201, 2, 1, 0, 0, 3, 3, 1, 0, 2, 4]),
        Mnemonic::SHA1NEXTE => Some(vec![1u8, 3, 15, 56, 200, 2, 1, 0, 0, 4, 3, 3, 1, 0, 2]),
        Mnemonic::SHA1MSG2 => Some(vec![1u8, 3, 15, 56, 202, 2, 1, 0, 0, 4, 3, 3, 1, 0, 2]),
        Mnemonic::SHA1RNDS4 => Some(vec![1u8, 3, 15, 58, 204, 2, 1, 0, 0, 3, 3, 1, 0, 2, 4, 5, 2, 1]),
        Mnemonic::SHA256RNDS2 => Some(vec![1u8, 3, 15, 56, 203, 2, 1, 0, 0, 3, 3, 1, 0, 2, 4]),
        Mnemonic::SHA256MSG2 => Some(vec![1u8, 3, 15, 56, 205, 2, 1, 0, 0, 3, 3, 1, 0, 2, 4]),
        Mnemonic::SHA256MSG1 => Some(vec![1u8, 3, 15, 56, 204, 2, 1, 0, 0, 3, 3, 1, 0, 2, 4]),
        Mnemonic::LIDT => Some(vec![1u8, 2, 15, 1, 2, 1, 1, 3, 4, 9, 0]),
        Mnemonic::LGDT => Some(vec![1u8, 2, 15, 1, 2, 1, 1, 2, 4, 9, 0]),
        Mnemonic::VADDPH => Some(vec![1u8, 1, 88, 11, 0, 5, 0, 0, 2, 1, 0, 0, 3, 3, 1, 2, 0]),
        Mnemonic::VADDSH => Some(vec![1u8, 1, 88, 11, 243, 5, 0, 0, 2, 1, 0, 0, 3, 3, 1, 2, 0]),
        Mnemonic::VALIGNQ => Some(vec![1u8, 1, 3, 11, 102, 3, 1, 0, 3, 3, 1, 2, 0, 2, 1, 0, 0, 5, 3, 1]),
        Mnemonic::VALIGND => Some(vec![1u8, 1, 3, 11, 102, 3, 0, 0, 3, 3, 1, 2, 0, 2, 1, 0, 0, 5, 3, 1]),
        Mnemonic::VBCSTNESH2PS => Some(vec![1u8, 1, 177, 10, 102, 2, 0, 0, 3, 2, 1, 0, 2, 1, 0, 0]),
        Mnemonic::VBCSTNEBF162PS => Some(vec![1u8, 1, 177, 10, 243, 2, 0, 0, 3, 2, 1, 0, 2, 1, 0, 0]),
        Mnemonic::VBLENDMPS => Some(vec![1u8, 1, 101, 11, 102, 2, 0, 0, 3, 3, 1, 2, 0, 2, 1, 0, 0]),
        Mnemonic::VBLENDMPD => Some(vec![1u8, 1, 101, 11, 102, 2, 1, 0, 3, 3, 1, 2, 0, 2, 1, 0, 0]),
        Mnemonic::VBROADCASTF32X2 => Some(vec![1u8, 1, 25, 11, 102, 2, 0, 0, 3, 2, 1, 0, 2, 1, 0, 0]),
        Mnemonic::VBROADCASTF32X4 => Some(vec![1u8, 1, 26, 11, 102, 2, 0, 0, 3, 2, 1, 0, 2, 1, 0, 0]),
        Mnemonic::VBROADCASTF64X2 => Some(vec![1u8, 1, 26, 11, 102, 2, 1, 0, 3, 2, 1, 0, 2, 1, 0, 0]),
        Mnemonic::VBROADCASTF32X8 => Some(vec![1u8, 1, 27, 11, 102, 2, 0, 0, 3, 2, 1, 0, 2, 1, 0, 0]),
        Mnemonic::VBROADCASTF64X4 => Some(vec![1u8, 1, 27, 11, 102, 2, 1, 0, 3, 2, 1, 0, 2, 1, 0, 0]),
        _ => None,
    }
}

/// Layout programs (see `run_prog`) of the mnemonics of part 5 of the table.
#[verifier::opaque]
pub open spec fn spec_prog_5(m: Mnemonic) -> Option<Seq<u8>> {
    match m {
        Mnemonic::VCMPPH => Some(seq![1u8, 1, 194, 11, 0, 3, 0, 0, 3, 3, 1, 2, 0, 2, 1, 0, 0, 5, 3, 1]),
        Mnemonic::VCMPSH => Some(seq![1u8, 1, 194, 11, 243, 3, 0, 0, 3, 3, 1, 2, 0, 2, 1, 0, 0, 5, 3, 1]),
        Mnemonic::VCOMISH => Some(seq![1u8, 1, 47, 11, 0, 5, 0, 0, 3, 2, 1, 0, 2, 1, 0, 0]),
        Mnemonic::KADDB => Some(seq![1u8, 1, 74, 10, 102, 15, 0, 3, 2, 1, 0, 0, 7, 3, 3, 1, 2, 0]),
        Mnemonic::KADDW => Some(seq![1u8, 1, 74, 10, 0, 15, 0, 3, 2, 1, 0, 0, 7, 3, 3, 1, 2, 0]),
        Mnemonic::KADDD => Some(seq![1u8, 1, 74, 10, 102, 15, 1, 3, 2, 1, 0, 0, 7, 3, 3, 1, 2, 0]),
        Mnemonic::KADDQ => Some(seq![1u8, 1, 74, 10, 0, 15, 1, 3, 2, 1, 0, 0, 7, 3, 3, 1, 2, 0]),
        Mnemonic::KANDB => Some(seq![1u8, 1, 65, 10, 102, 15, 0, 3, 2, 1, 0, 0, 7, 3, 3, 1, 2, 0]),
        Mnemonic::KANDW => Some(seq![1u8, 1, 65, 10, 0, 15, 0, 3, 2, 1, 0, 0, 7, 3, 3, 1, 2, 0]),
        Mnemonic::KANDD => Some(seq![1u8, 1, 65, 10, 102, 15, 1, 3, 2, 1, 0, 0, 7, 3, 3, 1, 2, 0]),
        Mnemonic::KANDQ => Some(seq![1u8, 1, 65, 10, 0, 15, 1, 3, 2, 1, 0, 0, 7, 3, 3, 1, 2, 0]),
        Mnemonic::KANDNB => Some(seq![1u8, 1, 66, 10, 102, 15, 0, 3, 2, 1, 0, 0, 7, 3, 3, 1, 2, 0]),
        Mnemonic::KANDNW => Some(seq![1u8, 1, 66, 10, 0, 15, 0, 3, 2, 1, 0, 0, 7, 3, 3, 1, 2, 0]),
        Mnemonic::KANDND => Some(seq![1u8, 1, 66, 10, 102, 15, 1, 3, 2, 1, 0, 0, 7, 3, 3, 1, 2, 0]),
        Mnemonic::KANDNQ => Some(seq![1u8, 1, 66, 10, 0, 15, 1, 3, 2, 1, 0, 0, 7, 3, 3, 1, 2, 0]),
        Mnemonic::KNOTB => Some(seq![1u8, 1, 68, 10, 102, 15, 0, 2, 2, 1, 0, 0, 7, 3, 2, 1, 0]),
        Mnemonic::KNOTW => Some(seq![1u8, 1, 68, 10, 0, 15, 0, 2, 2, 1, 0, 0, 7, 3, 2, 1, 0]),
        Mnemonic::KNOTD => Some(seq![1u8, 1, 68, 10, 102, 15, 1, 2, 2, 1, 0, 0, 7, 3, 2, 1, 0]),
        Mnemonic::KNOTQ => Some(seq![1u8, 1, 68, 10, 0, 15, 1, 2, 2, 1, 0, 0, 7, 3, 2, 1, 0]),
        Mnemonic::KORB => Some(seq![1u8, 1, 69, 10, 102, 15, 0, 3, 2, 1, 0, 0, 7, 3, 3, 1, 2, 0]),
        Mnemonic::KORW => Some(seq![1u8, 1, 69, 10, 0, 15, 0, 3, 2, 1, 0, 0, 7, 3, 3, 1, 2, 0]),
        Mnemonic::KORD => Some(seq![1u8, 1, 69, 10, 102, 15, 1, 3, 2, 1, 0, 0, 7, 3, 3, 1, 2, 0]),
        Mnemonic::KORQ => Some(seq![1u8, 1, 69, 10, 0, 15, 1, 3, 2, 1, 0, 0, 7, 3, 3, 1, 2, 0]),
        Mnemonic::KXORB => Some(seq![1u8, 1, 71, 10, 102, 15, 0, 3, 2, 1, 0, 0, 7, 3, 3, 1, 2, 0]),
        Mnemonic::KXORW => Some(seq![1u8, 1, 71, 10, 0, 15, 0, 3, 2, 1, 0, 0, 7, 3, 3, 1, 2, 0]),
        Mnemonic::KXORD => Some(seq![1u8, 1, 71, 10, 102, 15, 1, 3, 2, 1, 0, 0, 7, 3, 3, 1, 2, 0]),
        Mnemonic::KXORQ => Some(seq![1u8, 1, 71, 10, 0, 15, 1, 3, 2, 1, 0, 0, 7, 3, 3, 1, 2, 0]),
        Mnemonic::KTESTB => Some(seq![1u8, 1, 153, 10, 102, 15, 0, 2, 2, 1, 0, 0, 7, 3, 2, 1, 0]),
        Mnemonic::KTESTW => Some(seq![1u8, 1, 153, 10, 0, 15, 0, 2, 2, 1, 0, 0, 7, 3, 2, 1, 0]),
        Mnemonic::KTESTD => Some(seq![1u8, 1, 153, 10, 102, 15, 1, 2, 2, 1, 0, 0, 7, 3, 2, 1, 0]),
        Mnemonic::KTESTQ => Some(seq![1u8, 1, 153, 10, 0, 15, 1, 2, 7, 2, 1, 0, 0, 3, 2, 1, 0]),
        Mnemonic::KXNORB => Some(seq![1u8, 1, 70, 10, 102, 15, 0, 3, 2, 1, 0, 0, 7, 3, 3, 1, 2, 0]),
        Mnemonic::KXNORW => Some(seq![1u8, 1, 70, 10, 0, 15, 0, 3, 2, 1, 0, 0, 7, 3, 3, 1, 2, 0]),
        Mnemonic::KXNORD => Some(seq![1u8, 1, 70, 10, 102, 15, 1, 3, 2, 1, 0, 0, 7, 3, 3, 1, 2, 0]),
        Mnemonic::KXNORQ => Some(seq![1u8, 1, 70, 10, 0, 15, 1, 3, 2, 1, 0, 0, 7, 3, 3, 1, 2, 0]),
        Mnemonic::KUNPCKBW => Some(seq![1u8, 1, 75, 10, 102, 15, 0, 3, 2, 1, 0, 0, 7, 3, 3, 1, 2, 0]),
        Mnemonic::KUNPCKWD => Some(seq![1u8, 1, 75, 10, 0, 15, 0, 3, 2, 1, 0, 0, 7, 3, 3, 1, 2, 0]),
        Mnemonic::KUNPCKDQ => Some(seq![1u8, 1, 75, 10, 0, 15, 1, 3, 2, 1, 0, 0, 7, 3, 3, 1, 2, 0]),
        Mnemonic::KORTESTB => Some(seq![1u8, 1, 152, 10, 102, 15, 0, 2, 2, 1, 0, 0, 7, 3, 2, 1, 0]),
        Mnemonic::KORTESTW => Some(seq![1u8, 1, 152, 10, 0, 15, 0, 2, 2, 1, 0, 0, 7, 3, 2, 1, 0]),
        Mnemonic::KORTESTD => Some(seq![1u8, 1, 152, 10, 102, 15, 1, 2, 2, 1, 0, 0, 7, 3, 2, 1, 0]),
        Mnemonic::KORTESTQ => Some(seq![1u8, 1, 152, 10, 0, 15, 1, 2, 2, 1, 0, 0, 7, 5, 2, 1, 3, 2, 1, 0]),
        Mnemonic::KSHIFTLB => Some(seq![1u8, 1, 50, 10, 102, 58, 0, 2, 2, 1, 0, 0, 7, 5, 2, 1, 3, 2, 1, 0]),
        Mnemonic::KSHIFTLW => Some(seq![1u8, 1, 50, 10, 102, 58, 1, 2, 2, 1, 0, 0, 7, 5, 2, 1, 3, 2, 1, 0]),
        Mnemonic::KSHIFTLD => Some(seq![1u8, 1, 51, 10, 102, 58, 0, 2, 2, 1, 0, 0, 7, 5, 2, 1, 3, 2, 1, 0]),
        Mnemonic::KSHIFTLQ => Some(seq![1u8, 1, 51, 10, 102, 58, 1, 2, 2, 1, 0, 0, 7, 5, 2, 1, 3, 2, 1, 0]),
        Mnemonic::KSHIFTRB => Some(seq![1u8, 1, 48, 10, 102, 58, 0, 2, 2, 1, 0, 0, 7, 5, 2, 1, 3, 2, 1, 0]),
        Mnemonic::KSHIFTRW => Some(seq![1u8, 1, 48, 10, 102, 58, 1, 2, 2, 1, 0, 0, 7, 5, 2, 1, 3, 2, 1, 0]),
        Mnemonic::KSHIFTRD => Some(seq![1u8, 1, 49, 10, 102, 58, 0, 2, 2, 1, 0, 0, 7, 5, 2, 1, 3, 2, 1, 0]),
        Mnemonic::KSHIFTRQ => Some(seq![1u8, 1, 49, 10, 102, 58, 1, 2, 2, 1, 0, 0, 7, 5, 2, 1, 3, 2, 1, 0]),
        Mnemonic::VCVTDQ2PH => Some(seq![1u8, 1, 91, 2, 1, 0, 0, 3, 2, 1, 0, 11, 0, 5, 0, 0]),
        Mnemonic::VCVTNE2PS2BF16 => Some(seq![1u8, 1, 114, 2, 1, 0, 0, 3, 3, 1, 2, 0, 11, 242, 2, 0, 0]),
        Mnemonic::VCVTNEEBF162PS => Some(seq![1u8, 1, 176, 2, 1, 0, 0, 3, 2, 1, 0, 7, 10, 243, 56, 0, 0]),
        Mnemonic::VCVTNEEPH2PS => Some(seq![1u8, 1, 176, 2, 1, 0, 0, 3, 2, 1, 0, 7, 10, 102, 56, 0, 0]),
        Mnemonic::VCVTNEOBF162PS => Some(seq![1u8, 1, 176, 2, 1, 0, 0, 3, 2, 1, 0, 7, 10, 242, 56, 0, 0]),
        Mnemonic::VCVTNEOPH2PS => Some(seq![1u8, 1, 176, 2, 1, 0, 0, 3, 2, 1, 0, 7, 10, 0, 56, 0, 0]),
        Mnemonic::VCVTNEPS2BF16 => Some(seq![1u8, 1, 114, 2, 1, 0, 0, 3, 2, 1, 0, 10, 243, 56, 0, 0]),
        Mnemonic::VCVTPD2PH => Some(seq![1u8, 1, 90, 2, 1, 0, 0, 3, 2, 1, 0, 11, 243, 5, 1, 0]),
        Mnemonic::VCVTPD2QQ => Some(seq![1u8, 1, 123, 2, 1, 0, 0, 3, 2, 1, 0, 11, 102, 0, 1, 0]),
        Mnemonic::VCVTPD2UDQ => Some(seq![1u8, 1, 121, 2, 1, 0, 0, 3, 2, 1, 0, 11, 0, 0, 1, 0]),
        Mnemonic::VCVTPD2UQQ => Some(seq![1u8, 1, 121, 2, 1, 0, 0, 3, 2, 1, 0, 11, 102, 0, 1, 0]),
        Mnemonic::VCVTPH2DQ => Some(seq![1u8, 1, 91, 2, 1, 0, 0, 3, 2, 1, 0, 11, 102, 5, 0, 0]),
        Mnemonic::VCVTPH2PD => Some(seq![1u8, 1, 90, 2, 1, 0, 0, 3, 2, 1, 0, 11, 0, 5, 0, 0]),
        Mnemonic::VCVTPH2PS => Some(seq![1u8, 1, 19, 2, 1, 0, 0, 3, 2, 1, 0, 10, 102, 2, 0, 0]),
        Mnemonic::VCVTPH2PSX => Some(seq![1u8, 1, 19, 2, 1, 0, 0, 3, 2, 1, 0, 11, 102, 6, 0, 0]),
        Mnemonic::VCVTPH2QQ => Some(seq![1u8, 1, 123, 2, 1, 0, 0, 3, 2, 1, 0, 11, 102, 5, 0, 0]),
        Mnemonic::VCVTPH2UDQ => Some(seq![1u8, 1, 121, 2, 1, 0, 0, 3, 2, 1, 0, 11, 0, 5, 0, 0]),
        Mnemonic::VCVTPH2UQQ => Some(seq![1u8, 1, 121, 2, 1, 0, 0, 3, 2, 1, 0, 11, 102, 5, 0, 0]),
        Mnemonic::VCVTPH2UW => Some(seq![1u8, 1, 125, 2, 1, 0, 0, 3, 2, 1, 0, 11, 0, 5, 0, 0]),
        Mnemonic::VCVTPH2W => Some(seq![1u8, 1, 125, 2, 1, 0, 0, 3, 2, 1, 0, 11, 102, 5, 0, 0]),
        Mnemonic::VCVTPS2PH => Some(seq![1u8, 1, 29, 2, 1, 0, 0, 3, 2, 0, 1, 5, 2, 1, 11, 102, 3, 0, 0]),
        Mnemonic::VCVTPS2PHX => Some(seq![1u8, 1, 29, 2, 1, 0, 0, 3, 2, 1, 0, 11, 102, 5, 0, 0]),
        Mnemonic::VCVTPS2QQ => Some(seq![1u8, 1, 123, 2, 1, 0, 0, 3, 2, 1, 0, 11, 102, 0, 0, 0]),
        Mnemonic::VCVTPS2UDQ => Some(seq![1u8, 1, 121, 2, 1, 0, 0, 3, 2, 1, 0, 11, 0, 0, 0, 0]),
        Mnemonic::VCVTPS2UQQ => Some(seq![1u8, 1, 121, 2, 1, 0, 0, 3, 2, 1, 0, 11, 102, 0, 0, 0]),
        Mnemonic::VCVTQQ2PD => Some(seq![1u8, 1, 230, 2, 1, 0, 0, 3, 2, 1, 0, 11, 243, 0, 1, 0]),
        Mnemonic::VCVTQQ2PH => Some(seq![1u8, 1, 91, 2, 1, 0, 0, 3, 2, 1, 0, 11, 0, 5, 1, 0]),
        Mnemonic::VCVTQQ2PS => Some(seq![1u8, 1, 91, 2, 1, 0, 0, 3, 2, 1, 0, 11, 0, 0, 1, 0]),
        Mnemonic::VCVTSD2SH => Some(seq![1u8, 1, 90, 2, 1, 0, 0, 3, 3, 1, 2, 0, 11, 242, 5, 1, 0]),
        Mnemonic::VCVTSD2USI => Some(seq![1u8, 1, 121, 2, 1, 0, 0, 3, 2, 1, 0, 16, 242, 0, 1, 0]),
        Mnemonic::VCVTSH2SD => Some(seq![1u8, 1, 90, 2, 1, 0, 0, 3, 3, 1, 2, 0, 11, 243, 5, 0, 0]),
        Mnemonic::VCVTSH2SI => Some(seq![1u8, 1, 45, 2, 1, 0, 0, 3, 2, 1, 0, 16, 243, 5, 1, 0]),
        Mnemonic::VCVTSH2SS => Some(seq![1u8, 1, 19, 2, 1, 0, 0, 3, 3, 1, 2, 0, 11, 0, 6, 0, 0]),
        Mnemonic::VCVTSH2USI => Some(seq![1u8, 1, 121, 2, 1, 0, 0, 3, 2, 1, 0, 16, 243, 5, 1, 0]),
        Mnemonic::VCVTSI2SH => Some(seq![1u8, 1, 42, 2, 1, 0, 0, 3, 2, 1, 0, 16, 243, 5, 3, 0]),
        Mnemonic::VCVTSS2SH => Some(seq![1u8, 1, 29, 2, 1, 0, 0, 3, 2, 1, 0, 11, 0, 5, 0, 0]),
        Mnemonic::VCVTSS2USI => Some(seq![1u8, 1, 121, 2, 1, 0, 0, 3, 2, 1, 0, 16, 243, 0, 1, 0]),
        Mnemonic::VCVTTPD2QQ => Some(seq![1u8, 1, 122, 2, 1, 0, 0, 3, 2, 1, 0, 11, 102, 0, 1, 0]),
        Mnemonic::VCVTTPD2UDQ => Some(seq![1u8, 1, 120, 2, 1, 0, 0, 3, 2, 1, 0, 11, 0, 0, 1, 0]),
        Mnemonic::VCVTTPD2UQQ => Some(seq![1u8, 1, 120, 2, 1, 0, 0, 3, 2, 1, 0, 11, 102, 0, 1, 0]),
        Mnemonic::VCVTTPH2DQ => Some(seq![1u8, 1, 91, 2, 1, 0, 0, 3, 2, 1, 0, 11, 243, 5, 0, 0]),
        Mnemonic::VCVTTPH2QQ => Some(seq![1u8, 1, 122, 2, 1, 0, 0, 3, 2, 1, 0, 11, 102, 5, 0, 0]),
        Mnemonic::VCVTTPH2UDQ => Some(seq![1u8, 1, 120, 2, 1, 0, 0, 3, 2, 1, 0, 11, 0, 5, 0, 0]),
        Mnemonic::VCVTTPH2UQQ => Some(seq![1u8, 1, 120, 2, 1, 0, 0, 3, 2, 1, 0, 11, 102, 5, 0, 0]),
        Mnemonic::VCVTTPH2UW => Some(seq![1u8, 1, 124, 2, 1, 0, 0, 3, 2, 1, 0, 11, 0, 5, 0, 0]),
        Mnemonic::VCVTTPH2W => Some(seq![1u8, 1, 124, 2, 1, 0, 0, 3, 2, 1, 0, 11, 102, 5, 0, 0]),
        Mnemonic::VCVTTPS2QQ => Some(seq![1u8, 1, 122, 2, 1, 0, 0, 3, 2, 1, 0, 11, 102, 0, 0, 0]),
        Mnemonic::VCVTTPS2UDQ => Some(seq![1u8, 1, 120, 2, 1, 0, 0, 3, 2, 1, 0, 11, 0, 0, 0, 0]),
        Mnemonic::VCVTTPS2UQQ => Some(seq![1u8, 1, 120, 2, 1, 0, 0, 3, 2, 1, 0, 11, 102, 0, 0, 0]),
        Mnemonic::VCVTTSD2USI => Some(seq![1u8, 1, 120, 2, 1, 0, 0, 3, 2, 1, 0, 16, 242, 0, 1, 0]),
        _ => None,
    }
}

/// The layout program of a mnemonic of part 5 of the table.
fn prog_5(m: Mnemonic) -> (r: Option<Vec<u8>>)
    ensures
        match spec_prog_5(m) {
            Some(p) => r matches Some(v) && v@ == p,
            None => r is None,
        },
{
    proof {
        reveal(spec_prog_5);
    }
    match m {
        Mnemonic::VCMPPH => Some(vec![1u8, 1, 194, 11, 0, 3, 0, 0, 3, 3, 1, 2, 0, 2, 1, 0, 0, 5, 3, 1]),
        Mnemonic::VCMPSH => Some(vec![1u8, 1, 194, 11, 243, 3, 0, 0, 3, 3, 1, 2, 0, 2, 1, 0, 0, 5, 3, 1]),
        Mnemonic::VCOMISH => Some(vec![1u8, 1, 47, 11, 0, 5, 0, 0, 3, 2, 1, 0, 2, 1, 0, 0]),
        Mnemonic::KADDB => Some(vec![1u8, 1, 74, 10, 102, 15, 0, 3, 2, 1, 0, 0, 7, 3, 3, 1, 2, 0]),
        Mnemonic::KADDW => Some(vec![1u8, 1, 74, 10, 0, 15, 0, 3, 2, 1, 0, 0, 7, 3, 3, 1, 2, 0]),
        Mnemonic::KADDD => Some(vec![1u8, 1, 74, 10, 102, 15, 1, 3, 2, 1, 0, 0, 7, 3, 3, 1, 2, 0]),
        Mnemonic::KADDQ => Some(vec![1u8, 1, 74, 10, 0, 15, 1, 3, 2, 1, 0, 0, 7, 3, 3, 1, 2, 0]),
        Mnemonic::KANDB => Some(vec![1u8, 1, 65, 10, 102, 15, 0, 3, 2, 1, 0, 0, 7, 3, 3, 1, 2, 0]),
        Mnemonic::KANDW => Some(vec![1u8, 1, 65, 10, 0, 15, 0, 3, 2, 1, 0, 0, 7, 3, 3, 1, 2, 0]),
        Mnemonic::KANDD => Some(vec![1u8, 1, 65, 10, 102, 15, 1, 3, 2, 1, 0, 0, 7, 3, 3, 1, 2, 0]),
        Mnemonic::KANDQ => Some(vec![1u8, 1, 65, 10, 0, 15, 1, 3, 2, 1, 0, 0, 7, 3, 3, 1, 2, 0]),
        Mnemonic::KANDNB => Some(vec![1u8, 1, 66, 10, 102, 15, 0, 3, 2, 1, 0, 0, 7, 3, 3, 1, 2, 0]),
        Mnemonic::KANDNW => Some(vec![1u8, 1, 66, 10, 0, 15, 0, 3, 2, 1, 0, 0, 7, 3, 3, 1, 2, 0]),
        Mnemonic::KANDND => Some(vec![1u8, 1, 66, 10, 102, 15, 1, 3, 2, 1, 0, 0, 7, 3, 3, 1, 2, 0]),
        Mnemonic::KANDNQ => Some(vec![1u8, 1, 66, 10, 0, 15, 1, 3, 2, 1, 0, 0, 7, 3, 3, 1, 2, 0]),
        Mnemonic::KNOTB => Some(vec![1u8, 1, 68, 10, 102, 15, 0, 2, 2, 1, 0, 0, 7, 3, 2, 1, 0]),
        Mnemonic::KNOTW => Some(vec![1u8, 1, 68, 10, 0, 15, 0, 2, 2, 1, 0, 0, 7, 3, 2, 1, 0]),
        Mnemonic::KNOTD => Some(vec![1u8, 1, 68, 10, 102, 15, 1, 2, 2, 1, 0, 0, 7, 3, 2, 1, 0]),
        Mnemonic::KNOTQ => Some(vec![1u8, 1, 68, 10, 0, 15, 1, 2, 2, 1, 0, 0, 7, 3, 2, 1, 0]),
        Mnemonic::KORB => Some(vec![1u8, 1, 69, 10, 102, 15, 0, 3, 2, 1, 0, 0, 7, 3, 3, 1, 2, 0]),
        Mnemonic::KORW => Some(vec![1u8, 1, 69, 10, 0, 15, 0, 3, 2, 1, 0, 0, 7, 3, 3, 1, 2, 0]),
        Mnemonic::KORD => Some(vec![1u8, 1, 69, 10, 102, 15, 1, 3, 2, 1, 0, 0, 7, 3, 3, 1, 2, 0]),
        Mnemonic::KORQ => Some(vec![1u8, 1, 69, 10, 0, 15, 1, 3, 2, 1, 0, 0, 7, 3, 3, 1, 2, 0]),
        Mnemonic::KXORB => Some(vec![1u8, 1, 71, 10, 102, 15, 0, 3, 2, 1, 0, 0, 7, 3, 3, 1, 2, 0]),
        Mnemonic::KXORW => Some(vec![1u8, 1, 71, 10, 0, 15, 0, 3, 2, 1, 0, 0, 7, 3, 3, 1, 2, 0]),
        Mnemonic::KXORD => Some(vec![1u8, 1, 71, 10, 102, 15, 1, 3, 2, 1, 0, 0, 7, 3, 3, 1, 2, 0]),
        Mnemonic::KXORQ => Some(vec![1u8, 1, 71, 10, 0, 15, 1, 3, 2, 1, 0, 0, 7, 3, 3, 1, 2, 0]),
        Mnemonic::KTESTB => Some(vec![1u8, 1, 153, 10, 102, 15, 0, 2, 2, 1, 0, 0, 7, 3, 2, 1, 0]),
        Mnemonic::KTESTW => Some(vec![1u8, 1, 153, 10, 0, 15, 0, 2, 2, 1, 0, 0, 7, 3, 2, 1, 0]),
        Mnemonic::KTESTD => Some(vec![1u8, 1, 153, 10, 102, 15, 1, 2, 2, 1, 0, 0, 7, 3, 2, 1, 0]),
        Mnemonic::KTESTQ => Some(vec![1u8, 1, 153, 10, 0, 15, 1, 2, 7, 2, 1, 0, 0, 3, 2, 1, 0]),
        Mnemonic::KXNORB => Some(vec![1u8, 1, 70, 10, 102, 15, 0, 3, 2, 1, 0, 0, 7, 3, 3, 1, 2, 0]),
        Mnemonic::KXNORW => Some(vec![1u8, 1, 70, 10, 0, 15, 0, 3, 2, 1, 0, 0, 7, 3, 3, 1, 2, 0]),
        Mnemonic::KXNORD => Some(vec![1u8, 1, 70, 10, 102, 15, 1, 3, 2, 1, 0, 0, 7, 3, 3, 1, 2, 0]),
        Mnemonic::KXNORQ => Some(vec![1u8, 1, 70, 10, 0, 15, 1, 3, 2, 1, 0, 0, 7, 3, 3, 1, 2, 0]),
        Mnemonic::KUNPCKBW => Some(vec![1u8, 1, 75, 10, 102, 15, 0, 3, 2, 1, 0, 0, 7, 3, 3, 1, 2, 0]),
        Mnemonic::KUNPCKWD => Some(vec![1u8, 1, 75, 10, 0, 15, 0, 3, 2, 1, 0, 0, 7, 3, 3, 1, 2, 0]),
        Mnemonic::KUNPCKDQ => Some(vec![1u8, 1, 75, 10, 0, 15, 1, 3, 2, 1, 0, 0, 7, 3, 3, 1, 2, 0]),
        Mnemonic::KORTESTB => Some(vec![1u8, 1, 152, 10, 102, 15, 0, 2, 2, 1, 0, 0, 7, 3, 2, 1, 0]),
        Mnemonic::KORTESTW => Some(vec![1u8, 1, 152, 10, 0, 15, 0, 2, 2, 1, 0, 0, 7, 3, 2, 1, 0]),
        Mnemonic::KORTESTD => Some(vec![1u8, 1, 152, 10, 102, 15, 1, 2, 2, 1, 0, 0, 7, 3, 2, 1, 0]),
        Mnemonic::KORTESTQ => Some(vec![1u8, 1, 152, 10, 0, 15, 1, 2, 2, 1, 0, 0, 7, 5, 2, 1, 3, 2, 1, 0]),
        Mnemonic::KSHIFTLB => Some(vec![1u8, 1, 50, 10, 102, 58, 0, 2, 2, 1, 0, 0, 7, 5, 2, 1, 3, 2, 1, 0]),
        Mnemonic::KSHIFTLW => Some(vec![1u8, 1, 50, 10, 102, 58, 1, 2, 2, 1, 0, 0, 7, 5, 2, 1, 3, 2, 1, 0]),
        Mnemonic::KSHIFTLD => Some(vec![1u8, 1, 51, 10, 102, 58, 0, 2, 2, 1, 0, 0, 7, 5, 2, 1, 3, 2, 1, 0]),
        Mnemonic::KSHIFTLQ => Some(vec![1u8, 1, 51, 10, 102, 58, 1, 2, 2, 1, 0, 0, 7, 5, 2, 1, 3, 2, 1, 0]),
        Mnemonic::KSHIFTRB => Some(vec![1u8, 1, 48, 10, 102, 58, 0, 2, 2, 1, 0, 0, 7, 5, 2, 1, 3, 2, 1, 0]),
        Mnemonic::KSHIFTRW => Some(vec![1u8, 1, 48, 10, 102, 58, 1, 2, 2, 1, 0, 0, 7, 5, 2, 1, 3, 2, 1, 0]),
        Mnemonic::KSHIFTRD => Some(vec![1u8, 1, 49, 10, 102, 58, 0, 2, 2, 1, 0, 0, 7, 5, 2, 1, 3, 2, 1, 0]),
        Mnemonic::KSHIFTRQ => Some(vec![1u8, 1, 49, 10, 102, 58, 1, 2, 2, 1, 0, 0, 7, 5, 2, 1, 3, 2, 1, 0]),
        Mnemonic::VCVTDQ2PH => Some(vec![1u8, 1, 91, 2, 1, 0, 0, 3, 2, 1, 0, 11, 0, 5, 0, 0]),
        Mnemonic::VCVTNE2PS2BF16 => Some(vec![1u8, 1, 114, 2, 1, 0, 0, 3, 3, 1, 2, 0, 11, 242, 2, 0, 0]),
        Mnemonic::VCVTNEEBF162PS => Some(vec![1u8, 1, 176, 2, 1, 0, 0, 3, 2, 1, 0, 7, 10, 243, 56, 0, 0]),
        Mnemonic::VCVTNEEPH2PS => Some(vec![1u8, 1, 176, 2, 1, 0, 0, 3, 2, 1, 0, 7, 10, 102, 56, 0, 0]),
        Mnemonic::VCVTNEOBF162PS => Some(vec![1u8, 1, 176, 2, 1, 0, 0, 3, 2, 1, 0, 7, 10, 242, 56, 0, 0]),
        Mnemonic::VCVTNEOPH2PS => Some(vec![1u8, 1, 176, 2, 1, 0, 0, 3, 2, 1, 0, 7, 10, 0, 56, 0, 0]),
        Mnemonic::VCVTNEPS2BF16 => Some(vec![1u8, 1, 114, 2, 1, 0, 0, 3, 2, 1, 0, 10, 243, 56, 0, 0]),
        Mnemonic::VCVTPD2PH => Some(vec![1u8, 1, 90, 2, 1, 0, 0, 3, 2, 1, 0, 11, 243, 5, 1, 0]),
        Mnemonic::VCVTPD2QQ => Some(vec![1u8, 1, 123, 2, 1, 0, 0, 3, 2, 1, 0, 11, 102, 0, 1, 0]),
        Mnemonic::VCVTPD2UDQ => Some(vec![1u8, 1, 121, 2, 1, 0, 0, 3, 2, 1, 0, 11, 0, 0, 1, 0]),
        Mnemonic::VCVTPD2UQQ => Some(vec![1u8, 1, 121, 2, 1, 0, 0, 3, 2, 1, 0, 11, 102, 0, 1, 0]),
        Mnemonic::VCVTPH2DQ => Some(vec![1u8, 1, 91, 2, 1, 0, 0, 3, 2, 1, 0, 11, 102, 5, 0, 0]),
        Mnemonic::VCVTPH2PD => Some(vec![1u8, 1, 90, 2, 1, 0, 0, 3, 2, 1, 0, 11, 0, 5, 0, 0]),
        Mnemonic::VCVTPH2PS => Some(vec![1u8, 1, 19, 2, 1, 0, 0, 3, 2, 1, 0, 10, 102, 2, 0, 0]),
        Mnemonic::VCVTPH2PSX => Some(vec![1u8, 1, 19, 2, 1, 0, 0, 3, 2, 1, 0, 11, 102, 6, 0, 0]),
        Mnemonic::VCVTPH2QQ => Some(vec![1u8, 1, 123, 2, 1, 0, 0, 3, 2, 1, 0, 11, 102, 5, 0, 0]),
        Mnemonic::VCVTPH2UDQ => Some(vec![1u8, 1, 121, 2, 1, 0, 0, 3, 2, 1, 0, 11, 0, 5, 0, 0]),
        Mnemonic::VCVTPH2UQQ => Some(vec![1u8, 1, 121, 2, 1, 0, 0, 3, 2, 1, 0, 11, 102, 5, 0, 0]),
        Mnemonic::VCVTPH2UW => Some(vec![1u8, 1, 125, 2, 1, 0, 0, 3, 2, 1, 0, 11, 0, 5, 0, 0]),
        Mnemonic::VCVTPH2W => Some(vec![1u8, 1, 125, 2, 1, 0, 0, 3, 2, 1, 0, 11, 102, 5, 0, 0]),
        Mnemonic::VCVTPS2PH => Some(vec![1u8, 1, 29, 2, 1, 0, 0, 3, 2, 0, 1, 5, 2, 1, 11, 102, 3, 0, 0]),
        Mnemonic::VCVTPS2PHX => Some(vec![1u8, 1, 29, 2, 1, 0, 0, 3, 2, 1, 0, 11, 102, 5, 0, 0]),
        Mnemonic::VCVTPS2QQ => Some(vec![1u8, 1, 123, 2, 1, 0, 0, 3, 2, 1, 0, 11, 102, 0, 0, 0]),
        Mnemonic::VCVTPS2UDQ => Some(vec![1u8, 1, 121, 2, 1, 0, 0, 3, 2, 1, 0, 11, 0, 0, 0, 0]),
        Mnemonic::VCVTPS2UQQ => Some(vec![1u8, 1, 121, 2, 1, 0, 0, 3, 2, 1, 0, 11, 102, 0, 0, 0]),
        Mnemonic::VCVTQQ2PD => Some(vec![1u8, 1, 230, 2, 1, 0, 0, 3, 2, 1, 0, 11, 243, 0, 1, 0]),
        Mnemonic::VCVTQQ2PH => Some(vec![1u8, 1, 91, 2, 1, 0, 0, 3, 2, 1, 0, 11, 0, 5, 1, 0]),
        Mnemonic::VCVTQQ2PS => Some(vec![1u8, 1, 91, 2, 1, 0, 0, 3, 2, 1, 0, 11, 0, 0, 1, 0]),
        Mnemonic::VCVTSD2SH => Some(vec![1u8, 1, 90, 2, 1, 0, 0, 3, 3, 1, 2, 0, 11, 242, 5, 1, 0]),
        Mnemonic::VCVTSD2USI => Some(vec![1u8, 1, 121, 2, 1, 0, 0, 3, 2, 1, 0, 16, 242, 0, 1, 0]),
        Mnemonic::VCVTSH2SD => Some(vec![1u8, 1, 90, 2, 1, 0, 0, 3, 3, 1, 2, 0, 11, 243, 5, 0, 0]),
        Mnemonic::VCVTSH2SI => Some(vec![1u8, 1, 45, 2, 1, 0, 0, 3, 2, 1, 0, 16, 243, 5, 1, 0]),
        Mnemonic::VCVTSH2SS => Some(vec![1u8, 1, 19, 2, 1, 0, 0, 3, 3, 1, 2, 0, 11, 0, 6, 0, 0]),
        Mnemonic::VCVTSH2USI => Some(vec![1u8, 1, 121, 2, 1, 0, 0, 3, 2, 1, 0, 16, 243, 5, 1, 0]),
        Mnemonic::VCVTSI2SH => Some(vec![1u8, 1, 42, 2, 1, 0, 0, 3, 2, 1, 0, 16, 243, 5, 3, 0]),
        Mnemonic::VCVTSS2SH => Some(vec![1u8, 1, 29, 2, 1, 0, 0, 3, 2, 1, 0, 11, 0, 5, 0, 0]),
        Mnemonic::VCVTSS2USI => Some(vec![1u8, 1, 121, 2, 1, 0, 0, 3, 2, 1, 0, 16, 243, 0, 1, 0]),
        Mnemonic::VCVTTPD2QQ => Some(vec![1u8, 1, 122, 2, 1, 0, 0, 3, 2, 1, 0, 11, 102, 0, 1, 0]),
        Mnemonic::VCVTTPD2UDQ => Some(vec![1u8, 1, 120, 2, 1, 0, 0, 3, 2, 1, 0, 11, 0, 0, 1, 0]),
        Mnemonic::VCVTTPD2UQQ => Some(vec![1u8, 1, 120, 2, 1, 0, 0, 3, 2, 1, 0, 11, 102, 0, 1, 0]),
        Mnemonic::VCVTTPH2DQ => Some(vec![1u8, 1, 91, 2, 1, 0, 0, 3, 2, 1, 0, 11, 243, 5, 0, 0]),
        Mnemonic::VCVTTPH2QQ => Some(vec![1u8, 1, 122, 2, 1, 0, 0, 3, 2, 1, 0, 11, 102, 5, 0, 0]),
        Mnemonic::VCVTTPH2UDQ => Some(vec![1u8, 1, 120, 2, 1, 0, 0, 3, 2, 1, 0, 11, 0, 5, 0, 0]),
        Mnemonic::VCVTTPH2UQQ => Some(vec![1u8, 1, 120, 2, 1, 0, 0, 3, 2, 1, 0, 11, 102, 5, 0, 0]),
        Mnemonic::VCVTTPH2UW => Some(vec![1u8, 1, 124, 2, 1, 0, 0, 3, 2, 1, 0, 11, 0, 5, 0, 0]),
        Mnemonic::VCVTTPH2W => Some(vec![1u8, 1, 124, 2, 1, 0, 0, 3, 2, 1, 0, 11, 102, 5, 0, 0]),
        Mnemonic::VCVTTPS2QQ => Some(vec![1u8, 1, 122, 2, 1, 0, 0, 3, 2, 1, 0, 11, 102, 0, 0, 0]),
        Mnemonic::VCVTTPS2UDQ => Some(vec![1u8, 1, 120, 2, 1, 0, 0, 3, 2, 1, 0, 11, 0, 0, 0, 0]),
        Mnemonic::VCVTTPS2UQQ => Some(vec![1u8, 1, 120, 2, 1, 0, 0, 3, 2, 1, 0, 11, 102, 0, 0, 0]),
        Mnemonic::VCVTTSD2USI => Some(vec![1u8, 1, 120, 2, 1, 0, 0, 3, 2, 1, 0, 16, 242, 0, 1, 0]),
        _ => None,
    }
}

/// Layout programs (see `run_prog`) of the mnemonics of part 6 of the table.
#[verifier::opaque]
pub open spec fn spec_prog_6(m: Mnemonic) -> Option<Seq<u8>> {
    match m {
        Mnemonic::VCVTTSH2SI => Some(seq![1u8, 1, 44, 2, 1, 0, 0, 3, 2, 1, 0, 16, 243, 5, 1, 0]),
        Mnemonic::VCVTTSH2USI => Some(seq![1u8, 1, 120, 2, 1, 0, 0, 3, 2, 1, 0, 16, 243, 5, 1, 0]),
        Mnemonic::VCVTTSS2USI => Some(seq![1u8, 1, 120, 2, 1, 0, 0, 3, 2, 1, 0, 16, 243, 0, 1, 0]),
        Mnemonic::VCVTUDQ2PD => Some(seq![1u8, 1, 122, 2, 1, 0, 0, 3, 2, 1, 0, 11, 243, 0, 0, 0]),
        Mnemonic::VCVTUDQ2PH => Some(seq![1u8, 1, 122, 2, 1, 0, 0, 3, 2, 1, 0, 11, 242, 5, 0, 0]),
        Mnemonic::VCVTUDQ2PS => Some(seq![1u8, 1, 122, 2, 1, 0, 0, 3, 2, 1, 0, 11, 242, 0, 0, 0]),
        Mnemonic::VCVTUQQ2PD => Some(seq![1u8, 1, 122, 2, 1, 0, 0, 3, 2, 1, 0, 11, 243, 0, 1, 0]),
        Mnemonic::VCVTUQQ2PH => Some(seq![1u8, 1, 122, 2, 1, 0, 0, 3, 2, 1, 0, 11, 242, 5, 1, 0]),
        Mnemonic::VCVTUQQ2PS => Some(seq![1u8, 1, 122, 2, 1, 0, 0, 3, 2, 1, 0, 11, 242, 0, 1, 0]),
        Mnemonic::VCVTUSI2SD => Some(seq![1u8, 1, 123, 2, 1, 0, 0, 3, 3, 1, 2, 0, 16, 242, 0, 3, 0]),
        Mnemonic::VCVTUSI2SH => Some(seq![1u8, 1, 123, 2, 1, 0, 0, 3, 3, 1, 2, 0, 16, 243, 5, 3, 0]),
        Mnemonic::VCVTUSI2SS => Some(seq![1u8, 1, 123, 2, 1, 0, 0, 3, 3, 1, 2, 0, 16, 243, 0, 3, 0]),
        Mnemonic::VCVTUW2PH => Some(seq![1u8, 1, 125, 2, 1, 0, 0, 3, 2, 1, 0, 11, 242, 5, 0, 0]),
        Mnemonic::VCVTW2PH => Some(seq![1u8, 1, 125, 2, 1, 0, 0, 3, 2, 1, 0, 11, 243, 5, 0, 0]),
        Mnemonic::VDBPSADBW => Some(seq![1u8, 1, 66, 2, 1, 0, 0, 3, 3, 1, 2, 0, 5, 3, 1, 11, 102, 3, 0, 0]),
        Mnemonic::VDIVPH => Some(seq![1u8, 1, 94, 2, 1, 0, 0, 3, 3, 1, 2, 0, 11, 0, 5, 0, 0]),
        Mnemonic::VDIVSH => Some(seq![1u8, 1, 94, 2, 1, 0, 0, 3, 3, 1, 2, 0, 11, 243, 5, 0, 0]),
        Mnemonic::VDPBF16PS => Some(seq![1u8, 1, 82, 2, 1, 0, 0, 3, 3, 1, 2, 0, 11, 243, 2, 0, 0]),
        Mnemonic::VEXPANDPD => Some(seq![1u8, 1, 136, 2, 1, 0, 0, 3, 2, 1, 0, 11, 102, 2, 1, 0]),
        Mnemonic::VEXPANDPS => Some(seq![1u8, 1, 136, 2, 1, 0, 0, 3, 2, 1, 0, 11, 102, 2, 0, 0]),
        Mnemonic::VEXTRACTF32X4 => Some(seq![1u8, 1, 25, 2, 1, 0, 0, 3, 2, 0, 1, 5, 2, 1, 11, 102, 3, 0, 0]),
        Mnemonic::VEXTRACTF64X2 => Some(seq![1u8, 1, 25, 2, 1, 0, 0, 3, 2, 0, 1, 5, 2, 1, 11, 102, 3, 1, 0]),
        Mnemonic::VEXTRACTF32X8 => Some(seq![1u8, 1, 27, 2, 1, 0, 0, 3, 2, 0, 1, 5, 2, 1, 11, 102, 3, 0, 0]),
        Mnemonic::VEXTRACTF64X4 => Some(seq![1u8, 1, 27, 2, 1, 0, 0, 3, 2, 0, 1, 5, 2, 1, 11, 102, 3, 1, 0]),
        Mnemonic::VEXTRACTI128 => Some(seq![1u8, 1, 57, 2, 1, 0, 0, 3, 2, 0, 1, 5, 2, 1, 7, 10, 102, 3, 0, 0]),
        Mnemonic::VEXTRACTI32X4 => Some(seq![1u8, 1, 57, 2, 1, 0, 0, 3, 2, 0, 1, 5, 2, 1, 11, 102, 3, 0, 0]),
        Mnemonic::VEXTRACTI32X8 => Some(seq![1u8, 1, 59, 2, 1, 0, 0, 3, 2, 0, 1, 5, 2, 1, 11, 102, 3, 0, 0]),
        Mnemonic::VEXTRACTI64X4 => Some(seq![1u8, 1, 59, 2, 1, 0, 0, 3, 2, 0, 1, 5, 2, 1, 11, 102, 3, 1, 0]),
        Mnemonic::VEXTRACTI64X2 => Some(seq![1u8, 1, 57, 2, 1, 0, 0, 3, 2, 0, 1, 5, 2, 1, 11, 102, 3, 1, 0]),
        Mnemonic::VFCMADDCPH => Some(seq![1u8, 1, 86, 2, 1, 0, 0, 3, 3, 1, 2, 0, 11, 242, 6, 0, 0]),
        Mnemonic::VFMADDCPH => Some(seq![1u8, 1, 86, 2, 1, 0, 0, 3, 3, 1, 2, 0, 11, 243, 6, 0, 0]),
        Mnemonic::VFCMADDCSH => Some(seq![1u8, 1, 87, 2, 1, 0, 0, 3, 3, 1, 2, 0, 11, 242, 6, 0, 0]),
        Mnemonic::VFMADDCSH => Some(seq![1u8, 1, 87, 2, 1, 0, 0, 3, 3, 1, 2, 0, 11, 243, 6, 0, 0]),
        Mnemonic::VFCMULCPH => Some(seq![1u8, 1, 214, 2, 1, 0, 0, 3, 3, 1, 2, 0, 11, 242, 6, 0, 0]),
        Mnemonic::VFMULCPH => Some(seq![1u8, 1, 214, 2, 1, 0, 0, 3, 3, 1, 2, 0, 11, 243, 6, 0, 0]),
        Mnemonic::VFCMULCSH => Some(seq![1u8, 1, 215, 2, 1, 0, 0, 3, 3, 1, 2, 0, 11, 242, 6, 0, 0]),
        Mnemonic::VFMULCSH => Some(seq![1u8, 1, 215, 2, 1, 0, 0, 3, 3, 1, 2, 0, 11, 243, 6, 0, 0]),
        Mnemonic::VFIXUPIMMPD => Some(seq![1u8, 1, 84, 2, 1, 0, 0, 3, 3, 1, 2, 0, 5, 3, 1, 11, 102, 3, 1, 0]),
        Mnemonic::VFIXUPIMMPS => Some(seq![1u8, 1, 84, 2, 1, 0, 0, 3, 3, 1, 2, 0, 5, 3, 1, 11, 102, 3, 0, 0]),
        Mnemonic::VFIXUPIMMSD => Some(seq![1u8, 1, 85, 2, 1, 0, 0, 3, 3, 1, 2, 0, 5, 3, 1, 11, 102, 3, 1, 0]),
        Mnemonic::VFIXUPIMMSS => Some(seq![1u8, 1, 85, 2, 1, 0, 0, 3, 3, 1, 2, 0, 5, 3, 1, 11, 102, 3, 0, 0]),
        Mnemonic::VFMADD132PH => Some(seq![1u8, 1, 152, 2, 1, 0, 0, 3, 3, 1, 2, 0, 11, 102, 6, 0, 0]),
        Mnemonic::VFMADD213PH => Some(seq![1u8, 1, 168, 2, 1, 0, 0, 3, 3, 1, 2, 0, 11, 102, 6, 0, 0]),
        Mnemonic::VFMADD231PH => Some(seq![1u8, 1, 184, 2, 1, 0, 0, 3, 3, 1, 2, 0, 11, 102, 6, 0, 0]),
        Mnemonic::VFNMADD132PH => Some(seq![1u8, 1, 156, 2, 1, 0, 0, 3, 3, 1, 2, 0, 11, 102, 6, 0, 0]),
        Mnemonic::VFNMADD213PH => Some(seq![1u8, 1, 172, 2, 1, 0, 0, 3, 3, 1, 2, 0, 11, 102, 6, 0, 0]),
        Mnemonic::VFNMADD231PH => Some(seq![1u8, 1, 188, 2, 1, 0, 0, 3, 3, 1, 2, 0, 11, 102, 6, 0, 0]),
        Mnemonic::VFMADD132SH => Some(seq![1u8, 1, 153, 2, 1, 0, 0, 3, 3, 1, 2, 0, 11, 102, 6, 0, 0]),
        Mnemonic::VFMADD213SH => Some(seq![1u8, 1, 169, 2, 1, 0, 0, 3, 3, 1, 2, 0, 11, 102, 6, 0, 0]),
        Mnemonic::VFMADD231SH => Some(seq![1u8, 1, 185, 2, 1, 0, 0, 3, 3, 1, 2, 0, 11, 102, 6, 0, 0]),
        Mnemonic::VFNMADD132SH => Some(seq![1u8, 1, 157, 2, 1, 0, 0, 3, 3, 1, 2, 0, 11, 102, 6, 0, 0]),
        Mnemonic::VFNMADD213SH => Some(seq![1u8, 1, 173, 2, 1, 0, 0, 3, 3, 1, 2, 0, 11, 102, 6, 0, 0]),
        Mnemonic::VFNMADD231SH => Some(seq![1u8, 1, 189, 2, 1, 0, 0, 3, 3, 1, 2, 0, 11, 102, 6, 0, 0]),
        Mnemonic::VFMADDSUB132PH => Some(seq![1u8, 1, 150, 2, 1, 0, 0, 3, 3, 1, 2, 0, 11, 102, 6, 0, 0]),
        Mnemonic::VFMADDSUB213PH => Some(seq![1u8, 1, 166, 2, 1, 0, 0, 3, 3, 1, 2, 0, 11, 102, 6, 0, 0]),
        Mnemonic::VFMADDSUB231PH => Some(seq![1u8, 1, 182, 2, 1, 0, 0, 3, 3, 1, 2, 0, 11, 102, 6, 0, 0]),
        Mnemonic::VFMSUB132PH => Some(seq![1u8, 1, 154, 2, 1, 0, 0, 3, 3, 1, 2, 0, 11, 102, 6, 0, 0]),
        Mnemonic::VFMSUB213PH => Some(seq![1u8, 1, 170, 2, 1, 0, 0, 3, 3, 1, 2, 0, 11, 102, 6, 0, 0]),
        Mnemonic::VFMSUB231PH => Some(seq![1u8, 1, 186, 2, 1, 0, 0, 3, 3, 1, 2, 0, 11, 102, 6, 0, 0]),
        Mnemonic::VFNMSUB132PH => Some(seq![1u8, 1, 158, 2, 1, 0, 0, 3, 3, 1, 2, 0, 11, 102, 6, 0, 0]),
        Mnemonic::VFNMSUB213PH => Some(seq![1u8, 1, 174, 2, 1, 0, 0, 3, 3, 1, 2, 0, 11, 102, 6, 0, 0]),
        Mnemonic::VFNMSUB231PH => Some(seq![1u8, 1, 190, 2, 1, 0, 0, 3, 3, 1, 2, 0, 11, 102, 6, 0, 0]),
        Mnemonic::VFMSUB132SH => Some(seq![1u8, 1, 155, 2, 1, 0, 0, 3, 3, 1, 2, 0, 11, 102, 6, 0, 0]),
        Mnemonic::VFMSUB213SH => Some(seq![1u8, 1, 171, 2, 1, 0, 0, 3, 3, 1, 2, 0, 11, 102, 6, 0, 0]),
        Mnemonic::VFMSUB231SH => Some(seq![1u8, 1, 187, 2, 1, 0, 0, 3, 3, 1, 2, 0, 11, 102, 6, 0, 0]),
        Mnemonic::VFNMSUB132SH => Some(seq![1u8, 1, 159, 2, 1, 0, 0, 3, 3, 1, 2, 0, 11, 102, 6, 0, 0]),
        Mnemonic::VFNMSUB213SH => Some(seq![1u8, 1, 175, 2, 1, 0, 0, 3, 3, 1, 2, 0, 11, 102, 6, 0, 0]),
        Mnemonic::VFNMSUB231SH => Some(seq![1u8, 1, 191, 2, 1, 0, 0, 3, 3, 1, 2, 0, 11, 102, 6, 0, 0]),
        Mnemonic::VFMSUBADD132PH => Some(seq![1u8, 1, 151, 2, 1, 0, 0, 3, 3, 1, 2, 0, 11, 102, 6, 0, 0]),
        Mnemonic::VFMSUBADD213PH => Some(seq![1u8, 1, 167, 2, 1, 0, 0, 3, 3, 1, 2, 0, 11, 102, 6, 0, 0]),
        Mnemonic::VFMSUBADD231PH => Some(seq![1u8, 1, 183, 2, 1, 0, 0, 3, 3, 1, 2, 0, 11, 102, 6, 0, 0]),
        Mnemonic::VFPCLASSPD => Some(seq![1u8, 1, 102, 2, 1, 0, 0, 3, 2, 1, 0, 5, 2, 1, 11, 102, 3, 1, 0]),
        Mnemonic::VFPCLASSPH => Some(seq![1u8, 1, 102, 2, 1, 0, 0, 3, 2, 1, 0, 5, 2, 1, 11, 0, 3, 0, 0]),
        Mnemonic::VFPCLASSPS => Some(seq![1u8, 1, 102, 2, 1, 0, 0, 3, 2, 1, 0, 5, 2, 1, 11, 102, 3, 0, 0]),
        Mnemonic::VFPCLASSSD => Some(seq![1u8, 1, 103, 2, 1, 0, 0, 3, 2, 1, 0, 5, 2, 1, 11, 102, 3, 1, 0]),
        Mnemonic::VFPCLASSSH => Some(seq![1u8, 1, 103, 2, 1, 0, 0, 3, 2, 1, 0, 5, 2, 1, 11, 0, 3, 0, 0]),
        Mnemonic::VFPCLASSSS => Some(seq![1u8, 1, 103, 2, 1, 0, 0, 3, 2, 1, 0, 5, 2, 1, 11, 102, 3, 1, 0]),
        Mnemonic::VGETEXPPD => Some(seq![1u8, 1, 66, 2, 1, 0, 0, 3, 2, 1, 0, 11, 102, 2, 1, 0]),
        Mnemonic::VGETEXPPH => Some(seq![1u8, 1, 66, 2, 1, 0, 0, 3, 2, 1, 0, 11, 0, 6, 0, 0]),
        Mnemonic::VGETEXPPS => Some(seq![1u8, 1, 66, 2, 1, 0, 0, 3, 2, 1, 0, 11, 102, 2, 0, 0]),
        Mnemonic::VGETEXPSH => Some(seq![1u8, 1, 67, 2, 1, 0, 0, 3, 3, 1, 2, 0, 11, 102, 6, 0, 0]),
        Mnemonic::VGETEXPSS => Some(seq![1u8, 1, 67, 2, 1, 0, 0, 3, 3, 1, 2, 0, 11, 102, 2, 0, 0]),
        Mnemonic::VGETMANTPD => Some(seq![1u8, 1, 38, 2, 1, 0, 0, 3, 2, 1, 0, 11, 102, 3, 1, 0]),
        Mnemonic::VGETMANTPH => Some(seq![1u8, 1, 38, 2, 1, 0, 0, 3, 2, 1, 0, 11, 0, 3, 0, 0]),
        Mnemonic::VGETMANTPS => Some(seq![1u8, 1, 38, 2, 1, 0, 0, 3, 2, 1, 0, 11, 102, 3, 0, 0]),
        Mnemonic::VGETMANTSD => Some(seq![1u8, 1, 39, 2, 1, 0, 0, 3, 3, 1, 2, 0, 5, 3, 1, 11, 102, 3, 1, 0]),
        Mnemonic::VGETMANTSH => Some(seq![1u8, 1, 39, 2, 1, 0, 0, 3, 3, 1, 2, 0, 5, 3, 1, 11, 0, 3, 0, 0]),
        Mnemonic::VGETMANTSS => Some(seq![1u8, 1, 39, 2, 1, 0, 0, 3, 3, 1, 2, 0, 5, 3, 1, 11, 102, 3, 0, 0]),
        Mnemonic::VINSERTF32X4 => Some(seq![1u8, 1, 24, 2, 1, 0, 0, 3, 3, 1, 2, 0, 5, 3, 1, 11, 102, 3, 0, 0]),
        Mnemonic::VINSERTF64X2 => Some(seq![1u8, 1, 24, 2, 1, 0, 0, 3, 3, 1, 2, 0, 5, 3, 1, 11, 102, 3, 1, 0]),
        Mnemonic::VINSERTF32X8 => Some(seq![1u8, 1, 26, 2, 1, 0, 0, 3, 3, 1, 2, 0, 5, 3, 1, 11, 102, 3, 0, 0]),
        Mnemonic::VINSERTF64X4 => Some(seq![1u8, 1, 26, 2, 1, 0, 0, 3, 3, 1, 2, 0, 5, 3, 1, 11, 102, 3, 1, 0]),
        Mnemonic::VINSERTI32X4 => Some(seq![1u8, 1, 56, 2, 1, 0, 0, 3, 3, 1, 2, 0, 5, 3, 1, 11, 102, 3, 0, 0]),
        Mnemonic::VINSERTI64X2 => Some(seq![1u8, 1, 56, 2, 1, 0, 0, 3, 3, 1, 2, 0, 5, 3, 1, 11, 102, 3, 1, 0]),
        Mnemonic::VINSERTI32X8 => Some(seq![1u8, 1, 58, 2, 1, 0, 0, 3, 3, 1, 2, 0, 5, 3, 1, 11, 102, 3, 0, 0]),
        Mnemonic::VINSERTI64X4 => Some(seq![1u8, 1, 58, 2, 1, 0, 0, 3, 3, 1, 2, 0, 5, 3, 1, 11, 102, 3, 1, 0]),
        Mnemonic::VINSERTI128 => Some(seq![1u8, 1, 56, 2, 1, 0, 0, 3, 3, 1, 2, 0, 5, 3, 1, 7, 10, 102, 3, 1, 0]),
        Mnemonic::VMAXPH => Some(seq![1u8, 1, 95, 2, 1, 0, 0, 3, 3, 1, 2, 0, 11, 0, 5, 0, 0]),
        Mnemonic::VMAXSH => Some(seq![1u8, 1, 95, 2, 1, 0, 0, 3, 3, 1, 2, 0, 11, 243, 5, 0, 0]),
        Mnemonic::VMINPH => Some(seq![1u8, 1, 93, 2, 1, 0, 0, 3, 3, 1, 2, 0, 11, 0, 5, 0, 0]),
        _ => None,
    }
}

/// The layout program of a mnemonic of part 6 of the table.
fn prog_6(m: Mnemonic) -> (r: Option<Vec<u8>>)
    ensures
        match spec_prog_6(m) {
            Some(p) => r matches Some(v) && v@ == p,
            None => r is None,
        },
{
    proof {
        reveal(spec_prog_6);
    }
    match m {
        Mnemonic::VCVTTSH2SI => Some(vec![1u8, 1, 44, 2, 1, 0, 0, 3, 2, 1, 0, 16, 243, 5, 1, 0]),
        Mnemonic::VCVTTSH2USI => Some(vec![1u8, 1, 120, 2, 1, 0, 0, 3, 2, 1, 0, 16, 243, 5, 1, 0]),
        Mnemonic::VCVTTSS2USI => Some(vec![1u8, 1, 120, 2, 1, 0, 0, 3, 2, 1, 0, 16, 243, 0, 1, 0]),
        Mnemonic::VCVTUDQ2PD => Some(vec![1u8, 1, 122, 2, 1, 0, 0, 3, 2, 1, 0, 11, 243, 0, 0, 0]),
        Mnemonic::VCVTUDQ2PH => Some(vec![1u8, 1, 122, 2, 1, 0, 0, 3, 2, 1, 0, 11, 242, 5, 0, 0]),
        Mnemonic::VCVTUDQ2PS => Some(vec![1u8, 1, 122, 2, 1, 0, 0, 3, 2, 1, 0, 11, 242, 0, 0, 0]),
        Mnemonic::VCVTUQQ2PD => Some(vec![1u8, 1, 122, 2, 1, 0, 0, 3, 2, 1, 0, 11, 243, 0, 1, 0]),
        Mnemonic::VCVTUQQ2PH => Some(vec![1u8, 1, 122, 2, 1, 0, 0, 3, 2, 1, 0, 11, 242, 5, 1, 0]),
        Mnemonic::VCVTUQQ2PS => Some(vec![1u8, 1, 122, 2, 1, 0, 0, 3, 2, 1, 0, 11, 242, 0, 1, 0]),
        Mnemonic::VCVTUSI2SD => Some(vec![1u8, 1, 123, 2, 1, 0, 0, 3, 3, 1, 2, 0, 16, 242, 0, 3, 0]),
        Mnemonic::VCVTUSI2SH => Some(vec![1u8, 1, 123, 2, 1, 0, 0, 3, 3, 1, 2, 0, 16, 243, 5, 3, 0]),
        Mnemonic::VCVTUSI2SS => Some(vec![1u8, 1, 123, 2, 1, 0, 0, 3, 3, 1, 2, 0, 16, 243, 0, 3, 0]),
        Mnemonic::VCVTUW2PH => Some(vec![1u8, 1, 125, 2, 1, 0, 0, 3, 2, 1, 0, 11, 242, 5, 0, 0]),
        Mnemonic::VCVTW2PH => Some(vec![1u8, 1, 125, 2, 1, 0, 0, 3, 2, 1, 0, 11, 243, 5, 0, 0]),
        Mnemonic::VDBPSADBW => Some(vec![1u8, 1, 66, 2, 1, 0, 0, 3, 3, 1, 2, 0, 5, 3, 1, 11, 102, 3, 0, 0]),
        Mnemonic::VDIVPH => Some(vec![1u8, 1, 94, 2, 1, 0, 0, 3, 3, 1, 2, 0, 11, 0, 5, 0, 0]),
        Mnemonic::VDIVSH => Some(vec![1u8, 1, 94, 2, 1, 0, 0, 3, 3, 1, 2, 0, 11, 243, 5, 0, 0]),
        Mnemonic::VDPBF16PS => Some(vec![1u8, 1, 82, 2, 1, 0, 0, 3, 3, 1, 2, 0, 11, 243, 2, 0, 0]),
        Mnemonic::VEXPANDPD => Some(vec![1u8, 1, 136, 2, 1, 0, 0, 3, 2, 1, 0, 11, 102, 2, 1, 0]),
        Mnemonic::VEXPANDPS => Some(vec![1u8, 1, 136, 2, 1, 0, 0, 3, 2, 1, 0, 11, 102, 2, 0, 0]),
        Mnemonic::VEXTRACTF32X4 => Some(vec![1u8, 1, 25, 2, 1, 0, 0, 3, 2, 0, 1, 5, 2, 1, 11, 102, 3, 0, 0]),
        Mnemonic::VEXTRACTF64X2 => Some(vec![1u8, 1, 25, 2, 1, 0, 0, 3, 2, 0, 1, 5, 2, 1, 11, 102, 3, 1, 0]),
        Mnemonic::VEXTRACTF32X8 => Some(vec![1u8, 1, 27, 2, 1, 0, 0, 3, 2, 0, 1, 5, 2, 1, 11, 102, 3, 0, 0]),
        Mnemonic::VEXTRACTF64X4 => Some(vec![1u8, 1, 27, 2, 1, 0, 0, 3, 2, 0, 1, 5, 2, 1, 11, 102, 3, 1, 0]),
        Mnemonic::VEXTRACTI128 => Some(vec![1u8, 1, 57, 2, 1, 0, 0, 3, 2, 0, 1, 5, 2, 1, 7, 10, 102, 3, 0, 0]),
        Mnemonic::VEXTRACTI32X4 => Some(vec![1u8, 1, 57, 2, 1, 0, 0, 3, 2, 0, 1, 5, 2, 1, 11, 102, 3, 0, 0]),
        Mnemonic::VEXTRACTI32X8 => Some(vec![1u8, 1, 59, 2, 1, 0, 0, 3, 2, 0, 1, 5, 2, 1, 11, 102, 3, 0, 0]),
        Mnemonic::VEXTRACTI64X4 => Some(vec![1u8, 1, 59, 2, 1, 0, 0, 3, 2, 0, 1, 5, 2, 1, 11, 102, 3, 1, 0]),
        Mnemonic::VEXTRACTI64X2 => Some(vec![1u8, 1, 57, 2, 1, 0, 0, 3, 2, 0, 1, 5, 2, 1, 11, 102, 3, 1, 0]),
        Mnemonic::VFCMADDCPH => Some(vec![1u8, 1, 86, 2, 1, 0, 0, 3, 3, 1, 2, 0, 11, 242, 6, 0, 0]),
        Mnemonic::VFMADDCPH => Some(vec![1u8, 1, 86, 2, 1, 0, 0, 3, 3, 1, 2, 0, 11, 243, 6, 0, 0]),
        Mnemonic::VFCMADDCSH => Some(vec![1u8, 1, 87, 2, 1, 0, 0, 3, 3, 1, 2, 0, 11, 242, 6, 0, 0]),
        Mnemonic::VFMADDCSH => Some(vec![1u8, 1, 87, 2, 1, 0, 0, 3, 3, 1, 2, 0, 11, 243, 6, 0, 0]),
        Mnemonic::VFCMULCPH => Some(vec![1u8, 1, 214, 2, 1, 0, 0, 3, 3, 1, 2, 0, 11, 242, 6, 0, 0]),
        Mnemonic::VFMULCPH => Some(vec![1u8, 1, 214, 2, 1, 0, 0, 3, 3, 1, 2, 0, 11, 243, 6, 0, 0]),
        Mnemonic::VFCMULCSH => Some(vec![1u8, 1, 215, 2, 1, 0, 0, 3, 3, 1, 2, 0, 11, 242, 6, 0, 0]),
        Mnemonic::VFMULCSH => Some(vec![1u8, 1, 215, 2, 1, 0, 0, 3, 3, 1, 2, 0, 11, 243, 6, 0, 0]),
        Mnemonic::VFIXUPIMMPD => Some(vec![1u8, 1, 84, 2, 1, 0, 0, 3, 3, 1, 2, 0, 5, 3, 1, 11, 102, 3, 1, 0]),
        Mnemonic::VFIXUPIMMPS => Some(vec![1u8, 1, 84, 2, 1, 0, 0, 3, 3, 1, 2, 0, 5, 3, 1, 11, 102, 3, 0, 0]),
        Mnemonic::VFIXUPIMMSD => Some(vec![1u8, 1, 85, 2, 1, 0, 0, 3, 3, 1, 2, 0, 5, 3, 1, 11, 102, 3, 1, 0]),
        Mnemonic::VFIXUPIMMSS => Some(vec![1u8, 1, 85, 2, 1, 0, 0, 3, 3, 1, 2, 0, 5, 3, 1, 11, 102, 3, 0, 0]),
        Mnemonic::VFMADD132PH => Some(vec![1u8, 1, 152, 2, 1, 0, 0, 3, 3, 1, 2, 0, 11, 102, 6, 0, 0]),
        Mnemonic::VFMADD213PH => Some(vec![1u8, 1, 168, 2, 1, 0, 0, 3, 3, 1, 2, 0, 11, 102, 6, 0, 0]),
        Mnemonic::VFMADD231PH => Some(vec![1u8, 1, 184, 2, 1, 0, 0, 3, 3, 1, 2, 0, 11, 102, 6, 0, 0]),
        Mnemonic::VFNMADD132PH => Some(vec![1u8, 1, 156, 2, 1, 0, 0, 3, 3, 1, 2, 0, 11, 102, 6, 0, 0]),
        Mnemonic::VFNMADD213PH => Some(vec![1u8, 1, 172, 2, 1, 0, 0, 3, 3, 1, 2, 0, 11, 102, 6, 0, 0]),
        Mnemonic::VFNMADD231PH => Some(vec![1u8, 1, 188, 2, 1, 0, 0, 3, 3, 1, 2, 0, 11, 102, 6, 0, 0]),
        Mnemonic::VFMADD132SH => Some(vec![1u8, 1, 153, 2, 1, 0, 0, 3, 3, 1, 2, 0, 11, 102, 6, 0, 0]),
        Mnemonic::VFMADD213SH => Some(vec![1u8, 1, 169, 2, 1, 0, 0, 3, 3, 1, 2, 0, 11, 102, 6, 0, 0]),
        Mnemonic::VFMADD231SH => Some(vec![1u8, 1, 185, 2, 1, 0, 0, 3, 3, 1, 2, 0, 11, 102, 6, 0, 0]),
        Mnemonic::VFNMADD132SH => Some(vec![1u8, 1, 157, 2, 1, 0, 0, 3, 3, 1, 2, 0, 11, 102, 6, 0, 0]),
        Mnemonic::VFNMADD213SH => Some(vec![1u8, 1, 173, 2, 1, 0, 0, 3, 3, 1, 2, 0, 11, 102, 6, 0, 0]),
        Mnemonic::VFNMADD231SH => Some(vec![1u8, 1, 189, 2, 1, 0, 0, 3, 3, 1, 2, 0, 11, 102, 6, 0, 0]),
        Mnemonic::VFMADDSUB132PH => Some(vec![1u8, 1, 150, 2, 1, 0, 0, 3, 3, 1, 2, 0, 11, 102, 6, 0, 0]),
        Mnemonic::VFMADDSUB213PH => Some(vec![1u8, 1, 166, 2, 1, 0, 0, 3, 3, 1, 2, 0, 11, 102, 6, 0, 0]),
        Mnemonic::VFMADDSUB231PH => Some(vec![1u8, 1, 182, 2, 1, 0, 0, 3, 3, 1, 2, 0, 11, 102, 6, 0, 0]),
        Mnemonic::VFMSUB132PH => Some(vec![1u8, 1, 154, 2, 1, 0, 0, 3, 3, 1, 2, 0, 11, 102, 6, 0, 0]),
        Mnemonic::VFMSUB213PH => Some(vec![1u8, 1, 170, 2, 1, 0, 0, 3, 3, 1, 2, 0, 11, 102, 6, 0, 0]),
        Mnemonic::VFMSUB231PH => Some(vec![1u8, 1, 186, 2, 1, 0, 0, 3, 3, 1, 2, 0, 11, 102, 6, 0, 0]),
        Mnemonic::VFNMSUB132PH => Some(vec![1u8, 1, 158, 2, 1, 0, 0, 3, 3, 1, 2, 0, 11, 102, 6, 0, 0]),
        Mnemonic::VFNMSUB213PH => Some(vec![1u8, 1, 174, 2, 1, 0, 0, 3, 3, 1, 2, 0, 11, 102, 6, 0, 0]),
        Mnemonic::VFNMSUB231PH => Some(vec![1u8, 1, 190, 2, 1, 0, 0, 3, 3, 1, 2, 0, 11, 102, 6, 0, 0]),
        Mnemonic::VFMSUB132SH => Some(vec![1u8, 1, 155, 2, 1, 0, 0, 3, 3, 1, 2, 0, 11, 102, 6, 0, 0]),
        Mnemonic::VFMSUB213SH => Some(vec![1u8, 1, 171, 2, 1, 0, 0, 3, 3, 1, 2, 0, 11, 102, 6, 0, 0]),
        Mnemonic::VFMSUB231SH => Some(vec![1u8, 1, 187, 2, 1, 0, 0, 3, 3, 1, 2, 0, 11, 102, 6, 0, 0]),
        Mnemonic::VFNMSUB132SH => Some(vec![1u8, 1, 159, 2, 1, 0, 0, 3, 3, 1, 2, 0, 11, 102, 6, 0, 0]),
        Mnemonic::VFNMSUB213SH => Some(vec![1u8, 1, 175, 2, 1, 0, 0, 3, 3, 1, 2, 0, 11, 102, 6, 0, 0]),
        Mnemonic::VFNMSUB231SH => Some(vec![1u8, 1, 191, 2, 1, 0, 0, 3, 3, 1, 2, 0, 11, 102, 6, 0, 0]),
        Mnemonic::VFMSUBADD132PH => Some(vec![1u8, 1, 151, 2, 1, 0, 0, 3, 3, 1, 2, 0, 11, 102, 6, 0, 0]),
        Mnemonic::VFMSUBADD213PH => Some(vec![1u8, 1, 167, 2, 1, 0, 0, 3, 3, 1, 2, 0, 11, 102, 6, 0, 0]),
        Mnemonic::VFMSUBADD231PH => Some(vec![1u8, 1, 183, 2, 1, 0, 0, 3, 3, 1, 2, 0, 11, 102, 6, 0, 0]),
        Mnemonic::VFPCLASSPD => Some(vec![1u8, 1, 102, 2, 1, 0, 0, 3, 2, 1, 0, 5, 2, 1, 11, 102, 3, 1, 0]),
        Mnemonic::VFPCLASSPH => Some(vec![1u8, 1, 102, 2, 1, 0, 0, 3, 2, 1, 0, 5, 2, 1, 11, 0, 3, 0, 0]),
        Mnemonic::VFPCLASSPS => Some(vec![1u8, 1, 102, 2, 1, 0, 0, 3, 2, 1, 0, 5, 2, 1, 11, 102, 3, 0, 0]),
        Mnemonic::VFPCLASSSD => Some(vec![1u8, 1, 103, 2, 1, 0, 0, 3, 2, 1, 0, 5, 2, 1, 11, 102, 3, 1, 0]),
        Mnemonic::VFPCLASSSH => Some(vec![1u8, 1, 103, 2, 1, 0, 0, 3, 2, 1, 0, 5, 2, 1, 11, 0, 3, 0, 0]),
        Mnemonic::VFPCLASSSS => Some(vec![1u8, 1, 103, 2, 1, 0, 0, 3, 2, 1, 0, 5, 2, 1, 11, 102, 3, 1, 0]),
        Mnemonic::VGETEXPPD => Some(vec![1u8, 1, 66, 2, 1, 0, 0, 3, 2, 1, 0, 11, 102, 2, 1, 0]),
        Mnemonic::VGETEXPPH => Some(vec![1u8, 1, 66, 2, 1, 0, 0, 3, 2, 1, 0, 11, 0, 6, 0, 0]),
        Mnemonic::VGETEXPPS => Some(vec![1u8, 1, 66, 2, 1, 0, 0, 3, 2, 1, 0, 11, 102, 2, 0, 0]),
        Mnemonic::VGETEXPSH => Some(vec![1u8, 1, 67, 2, 1, 0, 0, 3, 3, 1, 2, 0, 11, 102, 6, 0, 0]),
        Mnemonic::VGETEXPSS => Some(vec![1u8, 1, 67, 2, 1, 0, 0, 3, 3, 1, 2, 0, 11, 102, 2, 0, 0]),
        Mnemonic::VGETMANTPD => Some(vec![1u8, 1, 38, 2, 1, 0, 0, 3, 2, 1, 0, 11, 102, 3, 1, 0]),
        Mnemonic::VGETMANTPH => Some(vec![1u8, 1, 38, 2, 1, 0, 0, 3, 2, 1, 0, 11, 0, 3, 0, 0]),
        Mnemonic::VGETMANTPS => Some(vec![1u8, 1, 38, 2, 1, 0, 0, 3, 2, 1, 0, 11, 102, 3, 0, 0]),
        Mnemonic::VGETMANTSD => Some(vec![1u8, 1, 39, 2, 1, 0, 0, 3, 3, 1, 2, 0, 5, 3, 1, 11, 102, 3, 1, 0]),
        Mnemonic::VGETMANTSH => Some(vec![1u8, 1, 39, 2, 1, 0, 0, 3, 3, 1, 2, 0, 5, 3, 1, 11, 0, 3, 0, 0]),
        Mnemonic::VGETMANTSS => Some(vec![1u8, 1, 39, 2, 1, 0, 0, 3, 3, 1, 2, 0, 5, 3, 1, 11, 102, 3, 0, 0]),
        Mnemonic::VINSERTF32X4 => Some(vec![1u8, 1, 24, 2, 1, 0, 0, 3, 3, 1, 2, 0, 5, 3, 1, 11, 102, 3, 0, 0]),
        Mnemonic::VINSERTF64X2 => Some(vec![1u8, 1, 24, 2, 1, 0, 0, 3, 3, 1, 2, 0, 5, 3, 1, 11, 102, 3, 1, 0]),
        Mnemonic::VINSERTF32X8 => Some(vec![1u8, 1, 26, 2, 1, 0, 0, 3, 3, 1, 2, 0, 5, 3, 1, 11, 102, 3, 0, 0]),
        Mnemonic::VINSERTF64X4 => Some(vec![1u8, 1, 26, 2, 1, 0, 0, 3, 3, 1, 2, 0, 5, 3, 1, 11, 102, 3, 1, 0]),
        Mnemonic::VINSERTI32X4 => Some(vec![1u8, 1, 56, 2, 1, 0, 0, 3, 3, 1, 2, 0, 5, 3, 1, 11, 102, 3, 0, 0]),
        Mnemonic::VINSERTI64X2 => Some(vec![1u8, 1, 56, 2, 1, 0, 0, 3, 3, 1, 2, 0, 5, 3, 1, 11, 102, 3, 1, 0]),
        Mnemonic::VINSERTI32X8 => Some(vec![1u8, 1, 58, 2, 1, 0, 0, 3, 3, 1, 2, 0, 5, 3, 1, 11, 102, 3, 0, 0]),
        Mnemonic::VINSERTI64X4 => Some(vec![1u8, 1, 58, 2, 1, 0, 0, 3, 3, 1, 2, 0, 5, 3, 1, 11, 102, 3, 1, 0]),
        Mnemonic::VINSERTI128 => Some(vec![1u8, 1, 56, 2, 1, 0, 0, 3, 3, 1, 2, 0, 5, 3, 1, 7, 10, 102, 3, 1, 0]),
        Mnemonic::VMAXPH => Some(vec![1u8, 1, 95, 2, 1, 0, 0, 3, 3, 1, 2, 0, 11, 0, 5, 0, 0]),
        Mnemonic::VMAXSH => Some(vec![1u8, 1, 95, 2, 1, 0, 0, 3, 3, 1, 2, 0, 11, 243, 5, 0, 0]),
        Mnemonic::VMINPH => Some(vec![1u8, 1, 93, 2, 1, 0, 0, 3, 3, 1, 2, 0, 11, 0, 5, 0, 0]),
        _ => None,
    }
}

/// Layout programs (see `run_prog`) of the mnemonics of part 7 of the table.
#[verifier::opaque]
pub open spec fn spec_prog_7(m: Mnemonic) -> Option<Seq<u8>> {
    match m {
        Mnemonic::VMINSH => Some(seq![1u8, 1, 93, 2, 1, 0, 0, 3, 3, 1, 2, 0, 11, 243, 5, 0, 0]),
        Mnemonic::VMULPH => Some(seq![1u8, 1, 89, 2, 1, 0, 0, 3, 3, 1, 2, 0, 11, 0, 5, 0, 0]),
        Mnemonic::VMULSH => Some(seq![1u8, 1, 89, 2, 1, 0, 0, 3, 3, 1, 2, 0, 11, 243, 5, 0, 0]),
        Mnemonic::VP2INTERSECTD => Some(seq![1u8, 1, 104, 2, 1, 0, 0, 3, 3, 1, 2, 0, 11, 242, 2, 0, 0]),
        Mnemonic::VP2INTERSECTQ => Some(seq![1u8, 1, 104, 2, 1, 0, 0, 3, 3, 1, 2, 0, 11, 242, 2, 1, 0]),
        Mnemonic::VPBLENDD => Some(seq![1u8, 1, 104, 2, 1, 0, 0, 3, 3, 1, 2, 0, 5, 3, 1, 7, 10, 242, 2, 1, 0]),
        Mnemonic::VPBLENDMB => Some(seq![1u8, 1, 102, 2, 1, 0, 0, 3, 3, 1, 2, 0, 11, 102, 2, 0, 0]),
        Mnemonic::VPBLENDMW => Some(seq![1u8, 1, 102, 2, 1, 0, 0, 3, 3, 1, 2, 0, 11, 102, 2, 1, 0]),
        Mnemonic::VPBLENDMD => Some(seq![1u8, 1, 100, 2, 1, 0, 0, 3, 3, 1, 2, 0, 11, 102, 2, 0, 0]),
        Mnemonic::VPBLENDMQ => Some(seq![1u8, 1, 100, 2, 1, 0, 0, 3, 3, 1, 2, 0, 11, 102, 2, 1, 0]),
        Mnemonic::VPBROADCASTB => Some(seq![1u8, 1, 120, 2, 1, 0, 0, 3, 2, 1, 0, 10, 102, 2, 0, 0]),
        Mnemonic::VPBROADCASTW => Some(seq![1u8, 1, 121, 2, 1, 0, 0, 3, 2, 1, 0, 10, 102, 2, 0, 0]),
        Mnemonic::VPBROADCASTD => Some(seq![1u8, 1, 88, 2, 1, 0, 0, 3, 2, 1, 0, 10, 102, 2, 0, 0]),
        Mnemonic::VPBROADCASTI32X2 => Some(seq![1u8, 1, 89, 2, 1, 0, 0, 3, 2, 1, 0, 11, 102, 2, 0, 0]),
        Mnemonic::VPBROADCASTI128 => Some(seq![1u8, 1, 90, 2, 1, 0, 0, 3, 2, 1, 0, 7, 10, 102, 2, 0, 0]),
        Mnemonic::VPBROADCASTI32X4 => Some(seq![1u8, 1, 90, 2, 1, 0, 0, 3, 2, 1, 0, 11, 102, 2, 0, 0]),
        Mnemonic::VPBROADCASTI64X2 => Some(seq![1u8, 1, 90, 2, 1, 0, 0, 3, 2, 1, 0, 11, 102, 2, 1, 0]),
        Mnemonic::VPBROADCASTI32X8 => Some(seq![1u8, 1, 91, 2, 1, 0, 0, 3, 2, 1, 0, 11, 102, 2, 0, 0]),
        Mnemonic::VPBROADCASTI64X4 => Some(seq![1u8, 1, 91, 2, 1, 0, 0, 3, 2, 1, 0, 11, 102, 2, 1, 0]),
        Mnemonic::VPBROADCASTMB2Q => Some(seq![1u8, 1, 42, 2, 1, 0, 0, 3, 2, 1, 0, 11, 243, 2, 1, 0]),
        Mnemonic::VPBROADCASTMW2D => Some(seq![1u8, 1, 58, 2, 1, 0, 0, 3, 2, 1, 0, 11, 243, 2, 0, 0]),
        Mnemonic::VPCMPB => Some(seq![1u8, 1, 63, 2, 1, 0, 0, 3, 3, 1, 2, 0, 5, 3, 1, 11, 102, 3, 0, 0]),
        Mnemonic::VPCMPUB => Some(seq![1u8, 1, 62, 2, 1, 0, 0, 3, 3, 1, 2, 0, 5, 3, 1, 11, 102, 3, 0, 0]),
        Mnemonic::VPCMPD => Some(seq![1u8, 1, 31, 2, 1, 0, 0, 3, 3, 1, 2, 0, 5, 3, 1, 11, 102, 3, 0, 0]),
        Mnemonic::VPCMPUD => Some(seq![1u8, 1, 30, 2, 1, 0, 0, 3, 3, 1, 2, 0, 5, 3, 1, 11, 102, 3, 0, 0]),
        Mnemonic::VPCMPQ => Some(seq![1u8, 1, 31, 2, 1, 0, 0, 3, 3, 1, 2, 0, 5, 3, 1, 11, 102, 3, 1, 0]),
        Mnemonic::VPCMPUQ => Some(seq![1u8, 1, 30, 2, 1, 0, 0, 3, 3, 1, 2, 0, 5, 3, 1, 11, 102, 3, 1, 0]),
        Mnemonic::VPCMPW => Some(seq![1u8, 1, 63, 2, 1, 0, 0, 3, 3, 1, 2, 0, 5, 3, 1, 11, 102, 3, 1, 0]),
        Mnemonic::VPCMPUW => Some(seq![1u8, 1, 62, 2, 1, 0, 0, 3, 3, 1, 2, 0, 5, 3, 1, 11, 102, 3, 1, 0]),
        Mnemonic::VPCOMPRESSD => Some(seq![1u8, 1, 139, 2, 1, 0, 0, 3, 2, 0, 1, 11, 102, 2, 0, 0]),
        Mnemonic::VPCOMPRESSQ => Some(seq![1u8, 1, 139, 2, 1, 0, 0, 3, 2, 0, 1, 11, 102, 2, 1, 0]),
        Mnemonic::VPCONFLICTD => Some(seq![1u8, 1, 196, 2, 1, 0, 0, 3, 2, 1, 0, 11, 102, 2, 0, 0]),
        Mnemonic::VPCONFLICTQ => Some(seq![1u8, 1, 196, 2, 1, 0, 0, 3, 2, 1, 0, 11, 102, 2, 1, 0]),
        Mnemonic::VPDPBSSD => Some(seq![1u8, 1, 80, 2, 1, 0, 0, 3, 3, 1, 2, 0, 7, 10, 242, 2, 0, 0]),
        Mnemonic::VPDPBSSDS => Some(seq![1u8, 1, 81, 2, 1, 0, 0, 3, 3, 1, 2, 0, 7, 10, 242, 2, 0, 0]),
        Mnemonic::VPDPBSUD => Some(seq![1u8, 1, 80, 2, 1, 0, 0, 3, 3, 1, 2, 0, 7, 10, 243, 2, 0, 0]),
        Mnemonic::VPDPBSUDS => Some(seq![1u8, 1, 81, 2, 1, 0, 0, 3, 3, 1, 2, 0, 7, 10, 243, 2, 0, 0]),
        Mnemonic::VPDPBUUD => Some(seq![1u8, 1, 80, 2, 1, 0, 0, 3, 3, 1, 2, 0, 7, 10, 0, 2, 0, 0]),
        Mnemonic::VPDPBUUDS => Some(seq![1u8, 1, 81, 2, 1, 0, 0, 3, 3, 1, 2, 0, 7, 10, 0, 2, 0, 0]),
        Mnemonic::VPDPBUSD => Some(seq![1u8, 1, 80, 2, 1, 0, 0, 3, 3, 1, 2, 0, 10, 102, 2, 0, 0]),
        Mnemonic::VPDPBUSDS => Some(seq![1u8, 1, 81, 2, 1, 0, 0, 3, 3, 1, 2, 0, 10, 102, 2, 0, 0]),
        Mnemonic::VPDPWSSD => Some(seq![1u8, 1, 82, 2, 1, 0, 0, 3, 3, 1, 2, 0, 10, 102, 2, 0, 0]),
        Mnemonic::VPDPWSSDS => Some(seq![1u8, 1, 83, 2, 1, 0, 0, 3, 3, 1, 2, 0, 10, 102, 2, 0, 0]),
        Mnemonic::VPDPWUSD => Some(seq![1u8, 1, 210, 2, 1, 0, 0, 3, 3, 1, 2, 0, 7, 10, 242, 2, 0, 0]),
        Mnemonic::VPDPWUSDS => Some(seq![1u8, 1, 211, 2, 1, 0, 0, 3, 3, 1, 2, 0, 7, 10, 242, 2, 0, 0]),
        Mnemonic::VPDPWSUD => Some(seq![1u8, 1, 210, 2, 1, 0, 0, 3, 3, 1, 2, 0, 7, 10, 243, 2, 0, 0]),
        Mnemonic::VPDPWSUDS => Some(seq![1u8, 1, 211, 2, 1, 0, 0, 3, 3, 1, 2, 0, 7, 10, 243, 2, 0, 0]),
        Mnemonic::VPDPWUUD => Some(seq![1u8, 1, 210, 2, 1, 0, 0, 3, 3, 1, 2, 0, 7, 10, 0, 2, 0, 0]),
        Mnemonic::VPDPWUUDS => Some(seq![1u8, 1, 211, 2, 1, 0, 0, 3, 3, 1, 2, 0, 7, 10, 0, 2, 0, 0]),
        Mnemonic::VPERMB => Some(seq![1u8, 1, 141, 2, 1, 0, 0, 3, 3, 1, 2, 0, 11, 102, 2, 0, 0]),
        Mnemonic::VPERMD => Some(seq![1u8, 1, 54, 2, 1, 0, 0, 3, 3, 1, 2, 0, 10, 102, 2, 0, 0]),
        Mnemonic::VPERMW => Some(seq![1u8, 1, 141, 2, 1, 0, 0, 3, 3, 1, 2, 0, 11, 102, 2, 1, 0]),
        Mnemonic::VPERMI2B => Some(seq![1u8, 1, 117, 2, 1, 0, 0, 3, 3, 1, 2, 0, 11, 102, 2, 0, 0]),
        Mnemonic::VPERMI2W => Some(seq![1u8, 1, 117, 2, 1, 0, 0, 3, 3, 1, 2, 0, 11, 102, 2, 1, 0]),
        Mnemonic::VPERMI2D => Some(seq![1u8, 1, 118, 2, 1, 0, 0, 3, 3, 1, 2, 0, 11, 102, 2, 0, 0]),
        Mnemonic::VPERMI2Q => Some(seq![1u8, 1, 118, 2, 1, 0, 0, 3, 3, 1, 2, 0, 11, 102, 2, 1, 0]),
        Mnemonic::VPERMI2PS => Some(seq![1u8, 1, 119, 2, 1, 0, 0, 3, 3, 1, 2, 0, 11, 102, 2, 0, 0]),
        Mnemonic::VPERMI2PD => Some(seq![1u8, 1, 119, 2, 1, 0, 0, 3, 3, 1, 2, 0, 11, 102, 2, 1, 0]),
        Mnemonic::VPERMPS => Some(seq![1u8, 1, 22, 2, 1, 0, 0, 3, 3, 1, 2, 0, 11, 102, 2, 0, 0]),
        Mnemonic::VPERMT2B => Some(seq![1u8, 1, 125, 2, 1, 0, 0, 3, 3, 1, 2, 0, 11, 102, 2, 0, 0]),
        Mnemonic::VPERMT2W => Some(seq![1u8, 1, 125, 2, 1, 0, 0, 3, 3, 1, 2, 0, 11, 102, 2, 1, 0]),
        Mnemonic::VPERMT2D => Some(seq![1u8, 1, 126, 2, 1, 0, 0, 3, 3, 1, 2, 0, 11, 102, 2, 0, 0]),
        Mnemonic::VPERMT2Q => Some(seq![1u8, 1, 126, 2, 1, 0, 0, 3, 3, 1, 2, 0, 11, 102, 2, 1, 0]),
        Mnemonic::VPERMT2PS => Some(seq![1u8, 1, 127, 2, 1, 0, 0, 3, 3, 1, 2, 0, 11, 102, 2, 0, 0]),
        Mnemonic::VPERMT2PD => Some(seq![1u8, 1, 127, 2, 1, 0, 0, 3, 3, 1, 2, 0, 11, 102, 2, 1, 0]),
        Mnemonic::VPEXPANDB => Some(seq![1u8, 1, 98, 2, 1, 0, 0, 3, 2, 1, 0, 11, 102, 2, 0, 0]),
        Mnemonic::VPEXPANDW => Some(seq![1u8, 1, 98, 2, 1, 0, 0, 3, 2, 1, 0, 11, 102, 2, 1, 0]),
        Mnemonic::VPEXPANDD => Some(seq![1u8, 1, 137, 2, 1, 0, 0, 3, 2, 1, 0, 11, 102, 2, 0, 0]),
        Mnemonic::VPEXPANDQ => Some(seq![1u8, 1, 137, 2, 1, 0, 0, 3, 2, 1, 0, 11, 102, 2, 1, 0]),
        Mnemonic::VPLZCNTD => Some(seq![1u8, 1, 68, 2, 1, 0, 0, 3, 2, 1, 0, 11, 102, 2, 0, 0]),
        Mnemonic::VPLZCNTQ => Some(seq![1u8, 1, 68, 2, 1, 0, 0, 3, 2, 1, 0, 11, 102, 2, 1, 0]),
        Mnemonic::VPMADD52LUQ => Some(seq![1u8, 1, 181, 2, 1, 0, 0, 3, 3, 1, 2, 0, 11, 102, 2, 0, 0]),
        Mnemonic::VPMADD52HUQ => Some(seq![1u8, 1, 181, 2, 1, 0, 0, 3, 3, 1, 2, 0, 11, 102, 2, 1, 0]),
        Mnemonic::VPMOVB2M => Some(seq![1u8, 1, 41, 2, 1, 0, 0, 3, 2, 1, 0, 11, 243, 2, 0, 0]),
        Mnemonic::VPMOVW2M => Some(seq![1u8, 1, 41, 2, 1, 0, 0, 3, 2, 1, 0, 11, 243, 2, 1, 0]),
        Mnemonic::VPMOVD2M => Some(seq![1u8, 1, 57, 2, 1, 0, 0, 3, 2, 1, 0, 11, 243, 2, 0, 0]),
        Mnemonic::VPMOVQ2M => Some(seq![1u8, 1, 57, 2, 1, 0, 0, 3, 2, 1, 0, 11, 243, 2, 1, 0]),
        Mnemonic::VPMOVDB => Some(seq![1u8, 1, 49, 2, 1, 0, 0, 3, 2, 0, 1, 11, 243, 2, 0, 0]),
        Mnemonic::VPMOVSDB => Some(seq![1u8, 1, 33, 2, 1, 0, 0, 3, 2, 0, 1, 11, 243, 2, 0, 0]),
        Mnemonic::VPMOVUSDB => Some(seq![1u8, 1, 17, 2, 1, 0, 0, 3, 2, 0, 1, 11, 243, 2, 0, 0]),
        Mnemonic::VPMOVDW => Some(seq![1u8, 1, 51, 2, 1, 0, 0, 3, 2, 0, 1, 11, 243, 2, 0, 0]),
        Mnemonic::VPMOVSDW => Some(seq![1u8, 1, 35, 2, 1, 0, 0, 3, 2, 0, 1, 11, 243, 2, 0, 0]),
        Mnemonic::VPMOVUSDW => Some(seq![1u8, 1, 19, 2, 1, 0, 0, 3, 2, 0, 1, 11, 243, 2, 0, 0]),
        Mnemonic::VPMOVM2B => Some(seq![1u8, 1, 40, 2, 1, 0, 0, 3, 2, 1, 0, 11, 243, 2, 0, 0]),
        Mnemonic::VPMOVM2W => Some(seq![1u8, 1, 40, 2, 1, 0, 0, 3, 2, 1, 0, 11, 243, 2, 1, 0]),
        Mnemonic::VPMOVM2D => Some(seq![1u8, 1, 56, 2, 1, 0, 0, 3, 2, 1, 0, 11, 243, 2, 0, 0]),
        Mnemonic::VPMOVM2Q => Some(seq![1u8, 1, 56, 2, 1, 0, 0, 3, 2, 1, 0, 11, 243, 2, 1, 0]),
        Mnemonic::VPMOVQB => Some(seq![1u8, 1, 50, 2, 1, 0, 0, 3, 2, 0, 1, 11, 243, 2, 0, 0]),
        Mnemonic::VPMOVSQB => Some(seq![1u8, 1, 34, 2, 1, 0, 0, 3, 2, 0, 1, 11, 243, 2, 0, 0]),
        Mnemonic::VPMOVUSQB => Some(seq![1u8, 1, 18, 2, 1, 0, 0, 3, 2, 0, 1, 11, 243, 2, 0, 0]),
        Mnemonic::VPMOVQD => Some(seq![1u8, 1, 53, 2, 1, 0, 0, 3, 2, 0, 1, 11, 243, 2, 0, 0]),
        Mnemonic::VPMOVSQD => Some(seq![1u8, 1, 37, 2, 1, 0, 0, 3, 2, 0, 1, 11, 243, 2, 0, 0]),
        Mnemonic::VPMOVUSQD => Some(seq![1u8, 1, 21, 2, 1, 0, 0, 3, 2, 0, 1, 11, 243, 2, 0, 0]),
        Mnemonic::VPMOVQW => Some(seq![1u8, 1, 52, 2, 1, 0, 0, 3, 2, 0, 1, 11, 243, 2, 0, 0]),
        Mnemonic::VPMOVSQW => Some(seq![1u8, 1, 36, 2, 1, 0, 0, 3, 2, 0, 1, 11, 243, 2, 0, 0]),
        Mnemonic::VPMOVUSQW => Some(seq![1u8, 1, 20, 2, 1, 0, 0, 3, 2, 0, 1, 11, 243, 2, 0, 0]),
        Mnemonic::VPMOVWB => Some(seq![1u8, 1, 48, 2, 1, 0, 0, 3, 2, 0, 1, 11, 243, 2, 0, 0]),
        Mnemonic::VPMOVSWB => Some(seq![1u8, 1, 32, 2, 1, 0, 0, 3, 2, 0, 1, 11, 243, 2, 0, 0]),
        Mnemonic::VPMOVUSWB => Some(seq![1u8, 1, 16, 2, 1, 0, 0, 3, 2, 0, 1, 11, 243, 2, 0, 0]),
        Mnemonic::VPMULTISHIFTQB => Some(seq![1u8, 1, 131, 2, 1, 0, 0, 3, 3, 1, 2, 0, 11, 102, 2, 1, 0]),
        _ => None,
    }
}

/// The layout program of a mnemonic of part 7 of the table.
fn prog_7(m: Mnemonic) -> (r: Option<Vec<u8>>)
    ensures
        match spec_prog_7(m) {
            Some(p) => r matches Some(v) && v@ == p,
            None => r is None,
        },
{
    proof {
        reveal(spec_prog_7);
    }
    match m {
        Mnemonic::VMINSH => Some(vec![1u8, 1, 93, 2, 1, 0, 0, 3, 3, 1, 2, 0, 11, 243, 5, 0, 0]),
        Mnemonic::VMULPH => Some(vec![1u8, 1, 89, 2, 1, 0, 0, 3, 3, 1, 2, 0, 11, 0, 5, 0, 0]),
        Mnemonic::VMULSH => Some(vec![1u8, 1, 89, 2, 1, 0, 0, 3, 3, 1, 2, 0, 11, 243, 5, 0, 0]),
        Mnemonic::VP2INTERSECTD => Some(vec![1u8, 1, 104, 2, 1, 0, 0, 3, 3, 1, 2, 0, 11, 242, 2, 0, 0]),
        Mnemonic::VP2INTERSECTQ => Some(vec![1u8, 1, 104, 2, 1, 0, 0, 3, 3, 1, 2, 0, 11, 242, 2, 1, 0]),
        Mnemonic::VPBLENDD => Some(vec![1u8, 1, 104, 2, 1, 0, 0, 3, 3, 1, 2, 0, 5, 3, 1, 7, 10, 242, 2, 1, 0]),
        Mnemonic::VPBLENDMB => Some(vec![1u8, 1, 102, 2, 1, 0, 0, 3, 3, 1, 2, 0, 11, 102, 2, 0, 0]),
        Mnemonic::VPBLENDMW => Some(vec![1u8, 1, 102, 2, 1, 0, 0, 3, 3, 1, 2, 0, 11, 102, 2, 1, 0]),
        Mnemonic::VPBLENDMD => Some(vec![1u8, 1, 100, 2, 1, 0, 0, 3, 3, 1, 2, 0, 11, 102, 2, 0, 0]),
        Mnemonic::VPBLENDMQ => Some(vec![1u8, 1, 100, 2, 1, 0, 0, 3, 3, 1, 2, 0, 11, 102, 2, 1, 0]),
        Mnemonic::VPBROADCASTB => Some(vec![1u8, 1, 120, 2, 1, 0, 0, 3, 2, 1, 0, 10, 102, 2, 0, 0]),
        Mnemonic::VPBROADCASTW => Some(vec![1u8, 1, 121, 2, 1, 0, 0, 3, 2, 1, 0, 10, 102, 2, 0, 0]),
        Mnemonic::VPBROADCASTD => Some(vec![1u8, 1, 88, 2, 1, 0, 0, 3, 2, 1, 0, 10, 102, 2, 0, 0]),
        Mnemonic::VPBROADCASTI32X2 => Some(vec![1u8, 1, 89, 2, 1, 0, 0, 3, 2, 1, 0, 11, 102, 2, 0, 0]),
        Mnemonic::VPBROADCASTI128 => Some(vec![1u8, 1, 90, 2, 1, 0, 0, 3, 2, 1, 0, 7, 10, 102, 2, 0, 0]),
        Mnemonic::VPBROADCASTI32X4 => Some(vec![1u8, 1, 90, 2, 1, 0, 0, 3, 2, 1, 0, 11, 102, 2, 0, 0]),
        Mnemonic::VPBROADCASTI64X2 => Some(vec![1u8, 1, 90, 2, 1, 0, 0, 3, 2, 1, 0, 11, 102, 2, 1, 0]),
        Mnemonic::VPBROADCASTI32X8 => Some(vec![1u8, 1, 91, 2, 1, 0, 0, 3, 2, 1, 0, 11, 102, 2, 0, 0]),
        Mnemonic::VPBROADCASTI64X4 => Some(vec![1u8, 1, 91, 2, 1, 0, 0, 3, 2, 1, 0, 11, 102, 2, 1, 0]),
        Mnemonic::VPBROADCASTMB2Q => Some(vec![1u8, 1, 42, 2, 1, 0, 0, 3, 2, 1, 0, 11, 243, 2, 1, 0]),
        Mnemonic::VPBROADCASTMW2D => Some(vec![1u8, 1, 58, 2, 1, 0, 0, 3, 2, 1, 0, 11, 243, 2, 0, 0]),
        Mnemonic::VPCMPB => Some(vec![1u8, 1, 63, 2, 1, 0, 0, 3, 3, 1, 2, 0, 5, 3, 1, 11, 102, 3, 0, 0]),
        Mnemonic::VPCMPUB => Some(vec![1u8, 1, 62, 2, 1, 0, 0, 3, 3, 1, 2, 0, 5, 3, 1, 11, 102, 3, 0, 0]),
        Mnemonic::VPCMPD => Some(vec![1u8, 1, 31, 2, 1, 0, 0, 3, 3, 1, 2, 0, 5, 3, 1, 11, 102, 3, 0, 0]),
        Mnemonic::VPCMPUD => Some(vec![1u8, 1, 30, 2, 1, 0, 0, 3, 3, 1, 2, 0, 5, 3, 1, 11, 102, 3, 0, 0]),
        Mnemonic::VPCMPQ => Some(vec![1u8, 1, 31, 2, 1, 0, 0, 3, 3, 1, 2, 0, 5, 3, 1, 11, 102, 3, 1, 0]),
        Mnemonic::VPCMPUQ => Some(vec![1u8, 1, 30, 2, 1, 0, 0, 3, 3, 1, 2, 0, 5, 3, 1, 11, 102, 3, 1, 0]),
        Mnemonic::VPCMPW => Some(vec![1u8, 1, 63, 2, 1, 0, 0, 3, 3, 1, 2, 0, 5, 3, 1, 11, 102, 3, 1, 0]),
        Mnemonic::VPCMPUW => Some(vec![1u8, 1, 62, 2, 1, 0, 0, 3, 3, 1, 2, 0, 5, 3, 1, 11, 102, 3, 1, 0]),
        Mnemonic::VPCOMPRESSD => Some(vec![1u8, 1, 139, 2, 1, 0, 0, 3, 2, 0, 1, 11, 102, 2, 0, 0]),
        Mnemonic::VPCOMPRESSQ => Some(vec![1u8, 1, 139, 2, 1, 0, 0, 3, 2, 0, 1, 11, 102, 2, 1, 0]),
        Mnemonic::VPCONFLICTD => Some(vec![1u8, 1, 196, 2, 1, 0, 0, 3, 2, 1, 0, 11, 102, 2, 0, 0]),
        Mnemonic::VPCONFLICTQ => Some(vec![1u8, 1, 196, 2, 1, 0, 0, 3, 2, 1, 0, 11, 102, 2, 1, 0]),
        Mnemonic::VPDPBSSD => Some(vec![1u8, 1, 80, 2, 1, 0, 0, 3, 3, 1, 2, 0, 7, 10, 242, 2, 0, 0]),
        Mnemonic::VPDPBSSDS => Some(vec![1u8, 1, 81, 2, 1, 0, 0, 3, 3, 1, 2, 0, 7, 10, 242, 2, 0, 0]),
        Mnemonic::VPDPBSUD => Some(vec![1u8, 1, 80, 2, 1, 0, 0, 3, 3, 1, 2, 0, 7, 10, 243, 2, 0, 0]),
        Mnemonic::VPDPBSUDS => Some(vec![1u8, 1, 81, 2, 1, 0, 0, 3, 3, 1, 2, 0, 7, 10, 243, 2, 0, 0]),
        Mnemonic::VPDPBUUD => Some(vec![1u8, 1, 80, 2, 1, 0, 0, 3, 3, 1, 2, 0, 7, 10, 0, 2, 0, 0]),
        Mnemonic::VPDPBUUDS => Some(vec![1u8, 1, 81, 2, 1, 0, 0, 3, 3, 1, 2, 0, 7, 10, 0, 2, 0, 0]),
        Mnemonic::VPDPBUSD => Some(vec![1u8, 1, 80, 2, 1, 0, 0, 3, 3, 1, 2, 0, 10, 102, 2, 0, 0]),
        Mnemonic::VPDPBUSDS => Some(vec![1u8, 1, 81, 2, 1, 0, 0, 3, 3, 1, 2, 0, 10, 102, 2, 0, 0]),
        Mnemonic::VPDPWSSD => Some(vec![1u8, 1, 82, 2, 1, 0, 0, 3, 3, 1, 2, 0, 10, 102, 2, 0, 0]),
        Mnemonic::VPDPWSSDS => Some(vec![1u8, 1, 83, 2, 1, 0, 0, 3, 3, 1, 2, 0, 10, 102, 2, 0, 0]),
        Mnemonic::VPDPWUSD => Some(vec![1u8, 1, 210, 2, 1, 0, 0, 3, 3, 1, 2, 0, 7, 10, 242, 2, 0, 0]),
        Mnemonic::VPDPWUSDS => Some(vec![1u8, 1, 211, 2, 1, 0, 0, 3, 3, 1, 2, 0, 7, 10, 242, 2, 0, 0]),
        Mnemonic::VPDPWSUD => Some(vec![1u8, 1, 210, 2, 1, 0, 0, 3, 3, 1, 2, 0, 7, 10, 243, 2, 0, 0]),
        Mnemonic::VPDPWSUDS => Some(vec![1u8, 1, 211, 2, 1, 0, 0, 3, 3, 1, 2, 0, 7, 10, 243, 2, 0, 0]),
        Mnemonic::VPDPWUUD => Some(vec![1u8, 1, 210, 2, 1, 0, 0, 3, 3, 1, 2, 0, 7, 10, 0, 2, 0, 0]),
        Mnemonic::VPDPWUUDS => Some(vec![1u8, 1, 211, 2, 1, 0, 0, 3, 3, 1, 2, 0, 7, 10, 0, 2, 0, 0]),
        Mnemonic::VPERMB => Some(vec![1u8, 1, 141, 2, 1, 0, 0, 3, 3, 1, 2, 0, 11, 102, 2, 0, 0]),
        Mnemonic::VPERMD => Some(vec![1u8, 1, 54, 2, 1, 0, 0, 3, 3, 1, 2, 0, 10, 102, 2, 0, 0]),
        Mnemonic::VPERMW => Some(vec![1u8, 1, 141, 2, 1, 0, 0, 3, 3, 1, 2, 0, 11, 102, 2, 1, 0]),
        Mnemonic::VPERMI2B => Some(vec![1u8, 1, 117, 2, 1, 0, 0, 3, 3, 1, 2, 0, 11, 102, 2, 0, 0]),
        Mnemonic::VPERMI2W => Some(vec![1u8, 1, 117, 2, 1, 0, 0, 3, 3, 1, 2, 0, 11, 102, 2, 1, 0]),
        Mnemonic::VPERMI2D => Some(vec![1u8, 1, 118, 2, 1, 0, 0, 3, 3, 1, 2, 0, 11, 102, 2, 0, 0]),
        Mnemonic::VPERMI2Q => Some(vec![1u8, 1, 118, 2, 1, 0, 0, 3, 3, 1, 2, 0, 11, 102, 2, 1, 0]),
        Mnemonic::VPERMI2PS => Some(vec![1u8, 1, 119, 2, 1, 0, 0, 3, 3, 1, 2, 0, 11, 102, 2, 0, 0]),
        Mnemonic::VPERMI2PD => Some(vec![1u8, 1, 119, 2, 1, 0, 0, 3, 3, 1, 2, 0, 11, 102, 2, 1, 0]),
        Mnemonic::VPERMPS => Some(vec![1u8, 1, 22, 2, 1, 0, 0, 3, 3, 1, 2, 0, 11, 102, 2, 0, 0]),
        Mnemonic::VPERMT2B => Some(vec![1u8, 1, 125, 2, 1, 0, 0, 3, 3, 1, 2, 0, 11, 102, 2, 0, 0]),
        Mnemonic::VPERMT2W => Some(vec![1u8, 1, 125, 2, 1, 0, 0, 3, 3, 1, 2, 0, 11, 102, 2, 1, 0]),
        Mnemonic::VPERMT2D => Some(vec![1u8, 1, 126, 2, 1, 0, 0, 3, 3, 1, 2, 0, 11, 102, 2, 0, 0]),
        Mnemonic::VPERMT2Q => Some(vec![1u8, 1, 126, 2, 1, 0, 0, 3, 3, 1, 2, 0, 11, 102, 2, 1, 0]),
        Mnemonic::VPERMT2PS => Some(vec![1u8, 1, 127, 2, 1, 0, 0, 3, 3, 1, 2, 0, 11, 102, 2, 0, 0]),
        Mnemonic::VPERMT2PD => Some(vec![1u8, 1, 127, 2, 1, 0, 0, 3, 3, 1, 2, 0, 11, 102, 2, 1, 0]),
        Mnemonic::VPEXPANDB => Some(vec![1u8, 1, 98, 2, 1, 0, 0, 3, 2, 1, 0, 11, 102, 2, 0, 0]),
        Mnemonic::VPEXPANDW => Some(vec![1u8, 1, 98, 2, 1, 0, 0, 3, 2, 1, 0, 11, 102, 2, 1, 0]),
        Mnemonic::VPEXPANDD => Some(vec![1u8, 1, 137, 2, 1, 0, 0, 3, 2, 1, 0, 11, 102, 2, 0, 0]),
        Mnemonic::VPEXPANDQ => Some(vec![1u8, 1, 137, 2, 1, 0, 0, 3, 2, 1, 0, 11, 102, 2, 1, 0]),
        Mnemonic::VPLZCNTD => Some(vec![1u8, 1, 68, 2, 1, 0, 0, 3, 2, 1, 0, 11, 102, 2, 0, 0]),
        Mnemonic::VPLZCNTQ => Some(vec![1u8, 1, 68, 2, 1, 0, 0, 3, 2, 1, 0, 11, 102, 2, 1, 0]),
        Mnemonic::VPMADD52LUQ => Some(vec![1u8, 1, 181, 2, 1, 0, 0, 3, 3, 1, 2, 0, 11, 102, 2, 0, 0]),
        Mnemonic::VPMADD52HUQ => Some(vec![1u8, 1, 181, 2, 1, 0, 0, 3, 3, 1, 2, 0, 11, 102, 2, 1, 0]),
        Mnemonic::VPMOVB2M => Some(vec![1u8, 1, 41, 2, 1, 0, 0, 3, 2, 1, 0, 11, 243, 2, 0, 0]),
        Mnemonic::VPMOVW2M => Some(vec![1u8, 1, 41, 2, 1, 0, 0, 3, 2, 1, 0, 11, 243, 2, 1, 0]),
        Mnemonic::VPMOVD2M => Some(vec![1u8, 1, 57, 2, 1, 0, 0, 3, 2, 1, 0, 11, 243, 2, 0, 0]),
        Mnemonic::VPMOVQ2M => Some(vec![1u8, 1, 57, 2, 1, 0, 0, 3, 2, 1, 0, 11, 243, 2, 1, 0]),
        Mnemonic::VPMOVDB => Some(vec![1u8, 1, 49, 2, 1, 0, 0, 3, 2, 0, 1, 11, 243, 2, 0, 0]),
        Mnemonic::VPMOVSDB => Some(vec![1u8, 1, 33, 2, 1, 0, 0, 3, 2, 0, 1, 11, 243, 2, 0, 0]),
        Mnemonic::VPMOVUSDB => Some(vec![1u8, 1, 17, 2, 1, 0, 0, 3, 2, 0, 1, 11, 243, 2, 0, 0]),
        Mnemonic::VPMOVDW => Some(vec![1u8, 1, 51, 2, 1, 0, 0, 3, 2, 0, 1, 11, 243, 2, 0, 0]),
        Mnemonic::VPMOVSDW => Some(vec![1u8, 1, 35, 2, 1, 0, 0, 3, 2, 0, 1, 11, 243, 2, 0, 0]),
        Mnemonic::VPMOVUSDW => Some(vec![1u8, 1, 19, 2, 1, 0, 0, 3, 2, 0, 1, 11, 243, 2, 0, 0]),
        Mnemonic::VPMOVM2B => Some(vec![1u8, 1, 40, 2, 1, 0, 0, 3, 2, 1, 0, 11, 243, 2, 0, 0]),
        Mnemonic::VPMOVM2W => Some(vec![1u8, 1, 40, 2, 1, 0, 0, 3, 2, 1, 0, 11, 243, 2, 1, 0]),
        Mnemonic::VPMOVM2D => Some(vec![1u8, 1, 56, 2, 1, 0, 0, 3, 2, 1, 0, 11, 243, 2, 0, 0]),
        Mnemonic::VPMOVM2Q => Some(vec![1u8, 1, 56, 2, 1, 0, 0, 3, 2, 1, 0, 11, 243, 2, 1, 0]),
        Mnemonic::VPMOVQB => Some(vec![1u8, 1, 50, 2, 1, 0, 0, 3, 2, 0, 1, 11, 243, 2, 0, 0]),
        Mnemonic::VPMOVSQB => Some(vec![1u8, 1, 34, 2, 1, 0, 0, 3, 2, 0, 1, 11, 243, 2, 0, 0]),
        Mnemonic::VPMOVUSQB => Some(vec![1u8, 1, 18, 2, 1, 0, 0, 3, 2, 0, 1, 11, 243, 2, 0, 0]),
        Mnemonic::VPMOVQD => Some(vec![1u8, 1, 53, 2, 1, 0, 0, 3, 2, 0, 1, 11, 243, 2, 0, 0]),
        Mnemonic::VPMOVSQD => Some(vec![1u8, 1, 37, 2, 1, 0, 0, 3, 2, 0, 1, 11, 243, 2, 0, 0]),
        Mnemonic::VPMOVUSQD => Some(vec![1u8, 1, 21, 2, 1, 0, 0, 3, 2, 0, 1, 11, 243, 2, 0, 0]),
        Mnemonic::VPMOVQW => Some(vec![1u8, 1, 52, 2, 1, 0, 0, 3, 2, 0, 1, 11, 243, 2, 0, 0]),
        Mnemonic::VPMOVSQW => Some(vec![1u8, 1, 36, 2, 1, 0, 0, 3, 2, 0, 1, 11, 243, 2, 0, 0]),
        Mnemonic::VPMOVUSQW => Some(vec![1u8, 1, 20, 2, 1, 0, 0, 3, 2, 0, 1, 11, 243, 2, 0, 0]),
        Mnemonic::VPMOVWB => Some(vec![1u8, 1, 48, 2, 1, 0, 0, 3, 2, 0, 1, 11, 243, 2, 0, 0]),
        Mnemonic::VPMOVSWB => Some(vec![1u8, 1, 32, 2, 1, 0, 0, 3, 2, 0, 1, 11, 243, 2, 0, 0]),
        Mnemonic::VPMOVUSWB => Some(vec![1u8, 1, 16, 2, 1, 0, 0, 3, 2, 0, 1, 11, 243, 2, 0, 0]),
        Mnemonic::VPMULTISHIFTQB => Some(vec![1u8, 1, 131, 2, 1, 0, 0, 3, 3, 1, 2, 0, 11, 102, 2, 1, 0]),
        _ => None,
    }
}

/// Layout programs (see `run_prog`) of the mnemonics of part 8 of the table.
#[verifier::opaque]
pub open spec fn spec_prog_8(m: Mnemonic) -> Option<Seq<u8>> {
    match m {
        Mnemonic::VPOPCNTB => Some(seq![1u8, 1, 84, 2, 1, 0, 0, 3, 2, 1, 0, 11, 102, 2, 0, 0]),
        Mnemonic::VPOPCNTW => Some(seq![1u8, 1, 84, 2, 1, 0, 0, 3, 2, 1, 0, 11, 102, 2, 1, 0]),
        Mnemonic::VPOPCNTD => Some(seq![1u8, 1, 85, 2, 1, 0, 0, 3, 2, 1, 0, 11, 102, 2, 0, 0]),
        Mnemonic::VPOPCNTQ => Some(seq![1u8, 1, 85, 2, 1, 0, 0, 3, 2, 1, 0, 11, 102, 2, 1, 0]),
        Mnemonic::VPROLD => Some(seq![1u8, 1, 114, 2, 1, 1, 1, 3, 2, 2, 0, 5, 2, 1, 11, 102, 0, 0, 0]),
        Mnemonic::VPROLQ => Some(seq![1u8, 1, 114, 2, 1, 1, 1, 3, 2, 2, 0, 5, 2, 1, 11, 102, 0, 1, 0]),
        Mnemonic::VPROLVD => Some(seq![1u8, 1, 21, 2, 1, 0, 0, 3, 3, 1, 2, 0, 11, 102, 0, 0, 0]),
        Mnemonic::VPROLVQ => Some(seq![1u8, 1, 21, 2, 1, 0, 0, 3, 3, 1, 2, 0, 11, 102, 0, 1, 0]),
        Mnemonic::VPRORD => Some(seq![1u8, 1, 114, 2, 1, 1, 0, 3, 2, 2, 0, 5, 2, 1, 11, 102, 0, 0, 0]),
        Mnemonic::VPRORQ => Some(seq![1u8, 1, 114, 2, 1, 1, 0, 3, 2, 2, 0, 5, 2, 1, 11, 102, 0, 1, 0]),
        Mnemonic::VPRORVD => Some(seq![1u8, 1, 20, 2, 1, 0, 0, 3, 3, 1, 2, 0, 11, 102, 0, 0, 0]),
        Mnemonic::VPRORVQ => Some(seq![1u8, 1, 20, 2, 1, 0, 0, 3, 3, 1, 2, 0, 11, 102, 0, 1, 0]),
        Mnemonic::VPSHLDW => Some(seq![1u8, 1, 112, 2, 1, 0, 0, 3, 3, 1, 2, 0, 5, 3, 1, 11, 102, 3, 1, 0]),
        Mnemonic::VPSHLDD => Some(seq![1u8, 1, 113, 2, 1, 0, 0, 3, 3, 1, 2, 0, 5, 3, 1, 11, 102, 3, 0, 0]),
        Mnemonic::VPSHLDQ => Some(seq![1u8, 1, 113, 2, 1, 0, 0, 3, 3, 1, 2, 0, 5, 3, 1, 11, 102, 3, 1, 0]),
        Mnemonic::VPSHRDW => Some(seq![1u8, 1, 114, 2, 1, 0, 0, 3, 3, 1, 2, 0, 5, 3, 1, 11, 102, 3, 1, 0]),
        Mnemonic::VPSHRDD => Some(seq![1u8, 1, 115, 2, 1, 0, 0, 3, 3, 1, 2, 0, 5, 3, 1, 11, 102, 3, 0, 0]),
        Mnemonic::VPSHRDQ => Some(seq![1u8, 1, 115, 2, 1, 0, 0, 3, 3, 1, 2, 0, 5, 3, 1, 11, 102, 3, 1, 0]),
        Mnemonic::VPSHLDVW => Some(seq![1u8, 1, 112, 2, 1, 0, 0, 3, 3, 1, 2, 0, 11, 102, 2, 1, 0]),
        Mnemonic::VPSHLDVD => Some(seq![1u8, 1, 113, 2, 1, 0, 0, 3, 3, 1, 2, 0, 11, 102, 2, 0, 0]),
        Mnemonic::VPSHLDVQ => Some(seq![1u8, 1, 113, 2, 1, 0, 0, 3, 3, 1, 2, 0, 11, 102, 2, 1, 0]),
        Mnemonic::VPSHRDVW => Some(seq![1u8, 1, 114, 2, 1, 0, 0, 3, 3, 1, 2, 0, 11, 102, 2, 1, 0]),
        Mnemonic::VPSHRDVD => Some(seq![1u8, 1, 115, 2, 1, 0, 0, 3, 3, 1, 2, 0, 11, 102, 2, 0, 0]),
        Mnemonic::VPSHRDVQ => Some(seq![1u8, 1, 115, 2, 1, 0, 0, 3, 3, 1, 2, 0, 11, 102, 2, 1, 0]),
        Mnemonic::VPSHUFBITQMB => Some(seq![1u8, 1, 143, 2, 1, 0, 0, 3, 3, 1, 2, 0, 11, 102, 2, 0, 0]),
        Mnemonic::VPSLLVW => Some(seq![1u8, 1, 18, 2, 1, 0, 0, 3, 3, 1, 2, 0, 11, 102, 2, 1, 0]),
        Mnemonic::VPSLLVD => Some(seq![1u8, 1, 71, 2, 1, 0, 0, 3, 3, 1, 2, 0, 10, 102, 56, 0, 0]),
        Mnemonic::VPSLLVQ => Some(seq![1u8, 1, 71, 2, 1, 0, 0, 3, 3, 1, 2, 0, 10, 102, 56, 1, 0]),
        Mnemonic::VPSRAVW => Some(seq![1u8, 1, 17, 2, 1, 0, 0, 3, 3, 1, 2, 0, 11, 102, 2, 1, 0]),
        Mnemonic::VPSRAVD => Some(seq![1u8, 1, 70, 2, 1, 0, 0, 3, 3, 1, 2, 0, 10, 102, 56, 0, 0]),
        Mnemonic::VPSRAVQ => Some(seq![1u8, 1, 70, 2, 1, 0, 0, 3, 3, 1, 2, 0, 10, 102, 56, 1, 0]),
        Mnemonic::VPSRLVW => Some(seq![1u8, 1, 16, 2, 1, 0, 0, 3, 3, 1, 2, 0, 11, 102, 2, 1, 0]),
        Mnemonic::VPSRLVD => Some(seq![1u8, 1, 69, 2, 1, 0, 0, 3, 3, 1, 2, 0, 10, 102, 56, 0, 0]),
        Mnemonic::VPSRLVQ => Some(seq![1u8, 1, 69, 2, 1, 0, 0, 3, 3, 1, 2, 0, 10, 102, 56, 1, 0]),
        Mnemonic::VPTERNLOGD => Some(seq![1u8, 1, 37, 2, 1, 0, 0, 3, 3, 1, 2, 0, 5, 3, 1, 11, 102, 3, 0, 0]),
        Mnemonic::VPTERNLOGQ => Some(seq![1u8, 1, 37, 2, 1, 0, 0, 3, 3, 1, 2, 0, 5, 3, 1, 11, 102, 3, 1, 0]),
        Mnemonic::VPTESTMB => Some(seq![1u8, 1, 38, 2, 1, 0, 0, 3, 3, 1, 2, 0, 11, 102, 3, 0, 0]),
        Mnemonic::VPTESTMW => Some(seq![1u8, 1, 38, 2, 1, 0, 0, 3, 3, 1, 2, 0, 11, 102, 3, 1, 0]),
        Mnemonic::VPTESTMD => Some(seq![1u8, 1, 39, 2, 1, 0, 0, 3, 3, 1, 2, 0, 11, 102, 3, 0, 0]),
        Mnemonic::VPTESTMQ => Some(seq![1u8, 1, 39, 2, 1, 0, 0, 3, 3, 1, 2, 0, 11, 102, 3, 1, 0]),
        Mnemonic::VPTESTNMB => Some(seq![1u8, 1, 38, 2, 1, 0, 0, 3, 3, 1, 2, 0, 11, 243, 3, 0, 0]),
        Mnemonic::VPTESTNMW => Some(seq![1u8, 1, 38, 2, 1, 0, 0, 3, 3, 1, 2, 0, 11, 243, 3, 1, 0]),
        Mnemonic::VPTESTNMD => Some(seq![1u8, 1, 39, 2, 1, 0, 0, 3, 3, 1, 2, 0, 11, 243, 3, 0, 0]),
        Mnemonic::VPTESTNMQ => Some(seq![1u8, 1, 39, 2, 1, 0, 0, 3, 3, 1, 2, 0, 11, 243, 3, 1, 0]),
        Mnemonic::VRANGEPS => Some(seq![1u8, 1, 80, 2, 1, 0, 0, 3, 3, 1, 2, 0, 5, 3, 1, 11, 102, 3, 0, 0]),
        Mnemonic::VRANGEPD => Some(seq![1u8, 1, 80, 2, 1, 0, 0, 3, 3, 1, 2, 0, 5, 3, 1, 11, 102, 3, 1, 0]),
        Mnemonic::VRANGESS => Some(seq![1u8, 1, 81, 2, 1, 0, 0, 3, 3, 1, 2, 0, 5, 3, 1, 11, 102, 3, 0, 0]),
        Mnemonic::VRANGESD => Some(seq![1u8, 1, 81, 2, 1, 0, 0, 3, 3, 1, 2, 0, 5, 3, 1, 11, 102, 3, 1, 0]),
        Mnemonic::VRCP14PS => Some(seq![1u8, 1, 76, 2, 1, 0, 0, 3, 2, 1, 0, 11, 102, 2, 0, 0]),
        Mnemonic::VRCP14PD => Some(seq![1u8, 1, 76, 2, 1, 0, 0, 3, 2, 1, 0, 11, 102, 2, 1, 0]),
        Mnemonic::VRCP14SS => Some(seq![1u8, 1, 77, 2, 1, 0, 0, 3, 3, 1, 2, 0, 11, 102, 2, 0, 0]),
        Mnemonic::VRCP14SD => Some(seq![1u8, 1, 77, 2, 1, 0, 0, 3, 3, 1, 2, 0, 11, 102, 2, 1, 0]),
        Mnemonic::VRCPPH => Some(seq![1u8, 1, 76, 2, 1, 0, 0, 3, 2, 1, 0, 11, 102, 6, 0, 0]),
        Mnemonic::VRCPSH => Some(seq![1u8, 1, 77, 2, 1, 0, 0, 3, 3, 1, 2, 0, 11, 102, 6, 0, 0]),
        Mnemonic::VREDUCEPS => Some(seq![1u8, 1, 86, 2, 1, 0, 0, 3, 2, 1, 0, 5, 2, 1, 11, 102, 3, 0, 0]),
        Mnemonic::VREDUCEPD => Some(seq![1u8, 1, 86, 2, 1, 0, 0, 3, 2, 1, 0, 5, 2, 1, 11, 102, 3, 1, 0]),
        Mnemonic::VREDUCEPH => Some(seq![1u8, 1, 86, 2, 1, 0, 0, 3, 2, 1, 0, 5, 2, 1, 11, 0, 3, 0, 0]),
        Mnemonic::VREDUCESS => Some(seq![1u8, 1, 87, 2, 1, 0, 0, 3, 3, 1, 2, 0, 5, 3, 1, 11, 102, 3, 0, 0]),
        Mnemonic::VREDUCESD => Some(seq![1u8, 1, 87, 2, 1, 0, 0, 3, 3, 1, 2, 0, 5, 3, 1, 11, 102, 3, 1, 0]),
        Mnemonic::VREDUCESH => Some(seq![1u8, 1, 87, 2, 1, 0, 0, 3, 3, 1, 2, 0, 5, 3, 1, 11, 0, 3, 0, 0]),
        Mnemonic::VRNDSCALEPS => Some(seq![1u8, 1, 8, 2, 1, 0, 0, 3, 2, 1, 0, 5, 2, 1, 11, 102, 3, 0, 0]),
        Mnemonic::VRNDSCALEPD => Some(seq![1u8, 1, 9, 2, 1, 0, 0, 3, 2, 1, 0, 5, 2, 1, 11, 102, 3, 1, 0]),
        Mnemonic::VRNDSCALEPH => Some(seq![1u8, 1, 8, 2, 1, 0, 0, 3, 2, 1, 0, 5, 2, 1, 11, 0, 3, 0, 0]),
        Mnemonic::VRNDSCALESS => Some(seq![1u8, 1, 10, 2, 1, 0, 0, 3, 3, 1, 2, 0, 5, 3, 1, 11, 102, 3, 0, 0]),
        Mnemonic::VRNDSCALESD => Some(seq![1u8, 1, 11, 2, 1, 0, 0, 3, 3, 1, 2, 0, 5, 3, 1, 11, 102, 3, 1, 0]),
        Mnemonic::VRNDSCALESH => Some(seq![1u8, 1, 10, 2, 1, 0, 0, 3, 3, 1, 2, 0, 5, 3, 1, 11, 0, 3, 0, 0]),
        Mnemonic::VRSQRT14PS => Some(seq![1u8, 1, 78, 2, 1, 0, 0, 3, 2, 1, 0, 11, 102, 2, 0, 0]),
        Mnemonic::VRSQRT14PD => Some(seq![1u8, 1, 78, 2, 1, 0, 0, 3, 2, 1, 0, 11, 102, 2, 1, 0]),
        Mnemonic::VRSQRT14SS => Some(seq![1u8, 1, 79, 2, 1, 0, 0, 3, 3, 1, 2, 0, 11, 102, 2, 0, 0]),
        Mnemonic::VRSQRT14SD => Some(seq![1u8, 1, 79, 2, 1, 0, 0, 3, 3, 1, 2, 0, 11, 102, 3, 1, 0]),
        Mnemonic::VRSQRTPH => Some(seq![1u8, 1, 78, 2, 1, 0, 0, 3, 2, 1, 0, 11, 102, 6, 0, 0]),
        Mnemonic::VRSQRTSH => Some(seq![1u8, 1, 79, 2, 1, 0, 0, 3, 3, 1, 2, 0, 11, 102, 6, 0, 0]),
        Mnemonic::VSCALEFPS => Some(seq![1u8, 1, 44, 2, 1, 0, 0, 3, 2, 1, 0, 11, 102, 2, 0, 0]),
        Mnemonic::VSCALEFPD => Some(seq![1u8, 1, 44, 2, 1, 0, 0, 3, 2, 1, 0, 11, 102, 2, 1, 0]),
        Mnemonic::VSCALEFSS => Some(seq![1u8, 1, 45, 2, 1, 0, 0, 3, 3, 1, 2, 0, 11, 102, 2, 0, 0]),
        Mnemonic::VSCALEFSD => Some(seq![1u8, 1, 45, 2, 1, 0, 0, 3, 3, 1, 2, 0, 11, 102, 2, 1, 0]),
        Mnemonic::VSCALEFPH => Some(seq![1u8, 1, 44, 2, 1, 0, 0, 3, 2, 1, 0, 11, 102, 6, 0, 0]),
        Mnemonic::VSCALEFSH => Some(seq![1u8, 1, 45, 2, 1, 0, 0, 3, 3, 1, 2, 0, 11, 102, 6, 0, 0]),
        Mnemonic::VSHA512MSG1 => Some(seq![1u8, 1, 204, 2, 1, 0, 0, 3, 2, 1, 0, 7, 10, 242, 56, 0, 0]),
        Mnemonic::VSHA512MSG2 => Some(seq![1u8, 1, 205, 2, 1, 0, 0, 3, 2, 1, 0, 7, 10, 242, 56, 0, 0]),
        Mnemonic::VSHA512RNDS2 => Some(seq![1u8, 1, 203, 2, 1, 0, 0, 3, 3, 1, 2, 0, 7, 10, 242, 56, 0, 0]),
        Mnemonic::VSHUFF32X4 => Some(seq![1u8, 1, 35, 2, 1, 0, 0, 3, 3, 1, 2, 0, 5, 3, 1, 11, 102, 3, 0, 0]),
        Mnemonic::VSHUFF64X2 => Some(seq![1u8, 1, 35, 2, 1, 0, 0, 3, 3, 1, 2, 0, 5, 3, 1, 11, 102, 3, 1, 0]),
        Mnemonic::VSHUFI32X4 => Some(seq![1u8, 1, 67, 2, 1, 0, 0, 3, 3, 1, 2, 0, 5, 3, 1, 11, 102, 3, 0, 0]),
        Mnemonic::VSHUFI64X2 => Some(seq![1u8, 1, 67, 2, 1, 0, 0, 3, 3, 1, 2, 0, 5, 3, 1, 11, 102, 3, 1, 0]),
        Mnemonic::VSM3MSG1 => Some(seq![1u8, 1, 218, 2, 1, 0, 0, 3, 3, 1, 2, 0, 7, 10, 0, 56, 0, 0]),
        Mnemonic::VSM3MSG2 => Some(seq![1u8, 1, 218, 2, 1, 0, 0, 3, 3, 1, 2, 0, 7, 10, 102, 56, 0, 0]),
        Mnemonic::VSM3RNDS2 => Some(seq![1u8, 1, 222, 2, 1, 0, 0, 3, 3, 1, 2, 0, 7, 5, 3, 1, 10, 102, 58, 0, 0]),
        Mnemonic::VSM4KEY4 => Some(seq![1u8, 1, 218, 2, 1, 0, 0, 3, 3, 1, 2, 0, 7, 10, 243, 56, 0, 0]),
        Mnemonic::VSM4RNDS4 => Some(seq![1u8, 1, 218, 2, 1, 0, 0, 3, 3, 1, 2, 0, 7, 10, 242, 56, 0, 0]),
        Mnemonic::VSQRTPH => Some(seq![1u8, 1, 81, 2, 1, 0, 0, 3, 2, 1, 0, 11, 0, 5, 0, 0]),
        Mnemonic::VSQRTSH => Some(seq![1u8, 1, 81, 2, 1, 0, 0, 3, 3, 1, 2, 0, 11, 243, 5, 0, 0]),
        Mnemonic::VSUBPH => Some(seq![1u8, 1, 92, 2, 1, 0, 0, 3, 3, 1, 2, 0, 11, 0, 5, 0, 0]),
        Mnemonic::VSUBSH => Some(seq![1u8, 1, 92, 2, 1, 0, 0, 3, 3, 1, 2, 0, 11, 243, 5, 0, 0]),
        Mnemonic::VTESTPS => Some(seq![1u8, 1, 14, 2, 1, 0, 0, 3, 2, 1, 0, 7, 10, 102, 56, 0, 0]),
        Mnemonic::VTESTPD => Some(seq![1u8, 1, 15, 2, 1, 0, 0, 3, 2, 1, 0, 7, 10, 102, 56, 0, 0]),
        Mnemonic::VUCOMISH => Some(seq![1u8, 1, 46, 2, 1, 0, 0, 3, 2, 1, 0, 11, 0, 5, 0, 0]),
        Mnemonic::PREFETCHWT1 => Some(seq![1u8, 2, 15, 13, 2, 1, 1, 2]),
        Mnemonic::V4FMADDPS => Some(seq![1u8, 1, 154, 2, 1, 0, 0, 3, 3, 1, 2, 0, 11, 242, 2, 0, 0]),
        Mnemonic::V4FNMADDPS => Some(seq![1u8, 1, 170, 2, 1, 0, 0, 3, 3, 1, 2, 0, 11, 242, 2, 0, 0]),
        _ => None,
    }
}

/// The layout program of a mnemonic of part 8 of the table.
fn prog_8(m: Mnemonic) -> (r: Option<Vec<u8>>)
    ensures
        match spec_prog_8(m) {
            Some(p) => r matches Some(v) && v@ == p,
            None => r is None,
        },
{
    proof {
        reveal(spec_prog_8);
    }
    match m {
        Mnemonic::VPOPCNTB => Some(vec![1u8, 1, 84, 2, 1, 0, 0, 3, 2, 1, 0, 11, 102, 2, 0, 0]),
        Mnemonic::VPOPCNTW => Some(vec![1u8, 1, 84, 2, 1, 0, 0, 3, 2, 1, 0, 11, 102, 2, 1, 0]),
        Mnemonic::VPOPCNTD => Some(vec![1u8, 1, 85, 2, 1, 0, 0, 3, 2, 1, 0, 11, 102, 2, 0, 0]),
        Mnemonic::VPOPCNTQ => Some(vec![1u8, 1, 85, 2, 1, 0, 0, 3, 2, 1, 0, 11, 102, 2, 1, 0]),
        Mnemonic::VPROLD => Some(vec![1u8, 1, 114, 2, 1, 1, 1, 3, 2, 2, 0, 5, 2, 1, 11, 102, 0, 0, 0]),
        Mnemonic::VPROLQ => Some(vec![1u8, 1, 114, 2, 1, 1, 1, 3, 2, 2, 0, 5, 2, 1, 11, 102, 0, 1, 0]),
        Mnemonic::VPROLVD => Some(vec![1u8, 1, 21, 2, 1, 0, 0, 3, 3, 1, 2, 0, 11, 102, 0, 0, 0]),
        Mnemonic::VPROLVQ => Some(vec![1u8, 1, 21, 2, 1, 0, 0, 3, 3, 1, 2, 0, 11, 102, 0, 1, 0]),
        Mnemonic::VPRORD => Some(vec![1u8, 1, 114, 2, 1, 1, 0, 3, 2, 2, 0, 5, 2, 1, 11, 102, 0, 0, 0]),
        Mnemonic::VPRORQ => Some(vec![1u8, 1, 114, 2, 1, 1, 0, 3, 2, 2, 0, 5, 2, 1, 11, 102, 0, 1, 0]),
        Mnemonic::VPRORVD => Some(vec![1u8, 1, 20, 2, 1, 0, 0, 3, 3, 1, 2, 0, 11, 102, 0, 0, 0]),
        Mnemonic::VPRORVQ => Some(vec![1u8, 1, 20, 2, 1, 0, 0, 3, 3, 1, 2, 0, 11, 102, 0, 1, 0]),
        Mnemonic::VPSHLDW => Some(vec![1u8, 1, 112, 2, 1, 0, 0, 3, 3, 1, 2, 0, 5, 3, 1, 11, 102, 3, 1, 0]),
        Mnemonic::VPSHLDD => Some(vec![1u8, 1, 113, 2, 1, 0, 0, 3, 3, 1, 2, 0, 5, 3, 1, 11, 102, 3, 0, 0]),
        Mnemonic::VPSHLDQ => Some(vec![1u8, 1, 113, 2, 1, 0, 0, 3, 3, 1, 2, 0, 5, 3, 1, 11, 102, 3, 1, 0]),
        Mnemonic::VPSHRDW => Some(vec![1u8, 1, 114, 2, 1, 0, 0, 3, 3, 1, 2, 0, 5, 3, 1, 11, 102, 3, 1, 0]),
        Mnemonic::VPSHRDD => Some(vec![1u8, 1, 115, 2, 1, 0, 0, 3, 3, 1, 2, 0, 5, 3, 1, 11, 102, 3, 0, 0]),
        Mnemonic::VPSHRDQ => Some(vec![1u8, 1, 115, 2, 1, 0, 0, 3, 3, 1, 2, 0, 5, 3, 1, 11, 102, 3, 1, 0]),
        Mnemonic::VPSHLDVW => Some(vec![1u8, 1, 112, 2, 1, 0, 0, 3, 3, 1, 2, 0, 11, 102, 2, 1, 0]),
        Mnemonic::VPSHLDVD => Some(vec![1u8, 1, 113, 2, 1, 0, 0, 3, 3, 1, 2, 0, 11, 102, 2, 0, 0]),
        Mnemonic::VPSHLDVQ => Some(vec![1u8, 1, 113, 2, 1, 0, 0, 3, 3, 1, 2, 0, 11, 102, 2, 1, 0]),
        Mnemonic::VPSHRDVW => Some(vec![1u8, 1, 114, 2, 1, 0, 0, 3, 3, 1, 2, 0, 11, 102, 2, 1, 0]),
        Mnemonic::VPSHRDVD => Some(vec![1u8, 1, 115, 2, 1, 0, 0, 3, 3, 1, 2, 0, 11, 102, 2, 0, 0]),
        Mnemonic::VPSHRDVQ => Some(vec![1u8, 1, 115, 2, 1, 0, 0, 3, 3, 1, 2, 0, 11, 102, 2, 1, 0]),
        Mnemonic::VPSHUFBITQMB => Some(vec![1u8, 1, 143, 2, 1, 0, 0, 3, 3, 1, 2, 0, 11, 102, 2, 0, 0]),
        Mnemonic::VPSLLVW => Some(vec![1u8, 1, 18, 2, 1, 0, 0, 3, 3, 1, 2, 0, 11, 102, 2, 1, 0]),
        Mnemonic::VPSLLVD => Some(vec![1u8, 1, 71, 2, 1, 0, 0, 3, 3, 1, 2, 0, 10, 102, 56, 0, 0]),
        Mnemonic::VPSLLVQ => Some(vec![1u8, 1, 71, 2, 1, 0, 0, 3, 3, 1, 2, 0, 10, 102, 56, 1, 0]),
        Mnemonic::VPSRAVW => Some(vec![1u8, 1, 17, 2, 1, 0, 0, 3, 3, 1, 2, 0, 11, 102, 2, 1, 0]),
        Mnemonic::VPSRAVD => Some(vec![1u8, 1, 70, 2, 1, 0, 0, 3, 3, 1, 2, 0, 10, 102, 56, 0, 0]),
        Mnemonic::VPSRAVQ => Some(vec![1u8, 1, 70, 2, 1, 0, 0, 3, 3, 1, 2, 0, 10, 102, 56, 1, 0]),
        Mnemonic::VPSRLVW => Some(vec![1u8, 1, 16, 2, 1, 0, 0, 3, 3, 1, 2, 0, 11, 102, 2, 1, 0]),
        Mnemonic::VPSRLVD => Some(vec![1u8, 1, 69, 2, 1, 0, 0, 3, 3, 1, 2, 0, 10, 102, 56, 0, 0]),
        Mnemonic::VPSRLVQ => Some(vec![1u8, 1, 69, 2, 1, 0, 0, 3, 3, 1, 2, 0, 10, 102, 56, 1, 0]),
        Mnemonic::VPTERNLOGD => Some(vec![1u8, 1, 37, 2, 1, 0, 0, 3, 3, 1, 2, 0, 5, 3, 1, 11, 102, 3, 0, 0]),
        Mnemonic::VPTERNLOGQ => Some(vec![1u8, 1, 37, 2, 1, 0, 0, 3, 3, 1, 2, 0, 5, 3, 1, 11, 102, 3, 1, 0]),
        Mnemonic::VPTESTMB => Some(vec![1u8, 1, 38, 2, 1, 0, 0, 3, 3, 1, 2, 0, 11, 102, 3, 0, 0]),
        Mnemonic::VPTESTMW => Some(vec![1u8, 1, 38, 2, 1, 0, 0, 3, 3, 1, 2, 0, 11, 102, 3, 1, 0]),
        Mnemonic::VPTESTMD => Some(vec![1u8, 1, 39, 2, 1, 0, 0, 3, 3, 1, 2, 0, 11, 102, 3, 0, 0]),
        Mnemonic::VPTESTMQ => Some(vec![1u8, 1, 39, 2, 1, 0, 0, 3, 3, 1, 2, 0, 11, 102, 3, 1, 0]),
        Mnemonic::VPTESTNMB => Some(vec![1u8, 1, 38, 2, 1, 0, 0, 3, 3, 1, 2, 0, 11, 243, 3, 0, 0]),
        Mnemonic::VPTESTNMW => Some(vec![1u8, 1, 38, 2, 1, 0, 0, 3, 3, 1, 2, 0, 11, 243, 3, 1, 0]),
        Mnemonic::VPTESTNMD => Some(vec![1u8, 1, 39, 2, 1, 0, 0, 3, 3, 1, 2, 0, 11, 243, 3, 0, 0]),
        Mnemonic::VPTESTNMQ => Some(vec![1u8, 1, 39, 2, 1, 0, 0, 3, 3, 1, 2, 0, 11, 243, 3, 1, 0]),
        Mnemonic::VRANGEPS => Some(vec![1u8, 1, 80, 2, 1, 0, 0, 3, 3, 1, 2, 0, 5, 3, 1, 11, 102, 3, 0, 0]),
        Mnemonic::VRANGEPD => Some(vec![1u8, 1, 80, 2, 1, 0, 0, 3, 3, 1, 2, 0, 5, 3, 1, 11, 102, 3, 1, 0]),
        Mnemonic::VRANGESS => Some(vec![1u8, 1, 81, 2, 1, 0, 0, 3, 3, 1, 2, 0, 5, 3, 1, 11, 102, 3, 0, 0]),
        Mnemonic::VRANGESD => Some(vec![1u8, 1, 81, 2, 1, 0, 0, 3, 3, 1, 2, 0, 5, 3, 1, 11, 102, 3, 1, 0]),
        Mnemonic::VRCP14PS => Some(vec![1u8, 1, 76, 2, 1, 0, 0, 3, 2, 1, 0, 11, 102, 2, 0, 0]),
        Mnemonic::VRCP14PD => Some(vec![1u8, 1, 76, 2, 1, 0, 0, 3, 2, 1, 0, 11, 102, 2, 1, 0]),
        Mnemonic::VRCP14SS => Some(vec![1u8, 1, 77, 2, 1, 0, 0, 3, 3, 1, 2, 0, 11, 102, 2, 0, 0]),
        Mnemonic::VRCP14SD => Some(vec![1u8, 1, 77, 2, 1, 0, 0, 3, 3, 1, 2, 0, 11, 102, 2, 1, 0]),
        Mnemonic::VRCPPH => Some(vec![1u8, 1, 76, 2, 1, 0, 0, 3, 2, 1, 0, 11, 102, 6, 0, 0]),
        Mnemonic::VRCPSH => Some(vec![1u8, 1, 77, 2, 1, 0, 0, 3, 3, 1, 2, 0, 11, 102, 6, 0, 0]),
        Mnemonic::VREDUCEPS => Some(vec![1u8, 1, 86, 2, 1, 0, 0, 3, 2, 1, 0, 5, 2, 1, 11, 102, 3, 0, 0]),
        Mnemonic::VREDUCEPD => Some(vec![1u8, 1, 86, 2, 1, 0, 0, 3, 2, 1, 0, 5, 2, 1, 11, 102, 3, 1, 0]),
        Mnemonic::VREDUCEPH => Some(vec![1u8, 1, 86, 2, 1, 0, 0, 3, 2, 1, 0, 5, 2, 1, 11, 0, 3, 0, 0]),
        Mnemonic::VREDUCESS => Some(vec![1u8, 1, 87, 2, 1, 0, 0, 3, 3, 1, 2, 0, 5, 3, 1, 11, 102, 3, 0, 0]),
        Mnemonic::VREDUCESD => Some(vec![1u8, 1, 87, 2, 1, 0, 0, 3, 3, 1, 2, 0, 5, 3, 1, 11, 102, 3, 1, 0]),
        Mnemonic::VREDUCESH => Some(vec![1u8, 1, 87, 2, 1, 0, 0, 3, 3, 1, 2, 0, 5, 3, 1, 11, 0, 3, 0, 0]),
        Mnemonic::VRNDSCALEPS => Some(vec![1u8, 1, 8, 2, 1, 0, 0, 3, 2, 1, 0, 5, 2, 1, 11, 102, 3, 0, 0]),
        Mnemonic::VRNDSCALEPD => Some(vec![1u8, 1, 9, 2, 1, 0, 0, 3, 2, 1, 0, 5, 2, 1, 11, 102, 3, 1, 0]),
        Mnemonic::VRNDSCALEPH => Some(vec![1u8, 1, 8, 2, 1, 0, 0, 3, 2, 1, 0, 5, 2, 1, 11, 0, 3, 0, 0]),
        Mnemonic::VRNDSCALESS => Some(vec![1u8, 1, 10, 2, 1, 0, 0, 3, 3, 1, 2, 0, 5, 3, 1, 11, 102, 3, 0, 0]),
        Mnemonic::VRNDSCALESD => Some(vec![1u8, 1, 11, 2, 1, 0, 0, 3, 3, 1, 2, 0, 5, 3, 1, 11, 102, 3, 1, 0]),
        Mnemonic::VRNDSCALESH => Some(vec![1u8, 1, 10, 2, 1, 0, 0, 3, 3, 1, 2, 0, 5, 3, 1, 11, 0, 3, 0, 0]),
        Mnemonic::VRSQRT14PS => Some(vec![1u8, 1, 78, 2, 1, 0, 0, 3, 2, 1, 0, 11, 102, 2, 0, 0]),
        Mnemonic::VRSQRT14PD => Some(vec![1u8, 1, 78, 2, 1, 0, 0, 3, 2, 1, 0, 11, 102, 2, 1, 0]),
        Mnemonic::VRSQRT14SS => Some(vec![1u8, 1, 79, 2, 1, 0, 0, 3, 3, 1, 2, 0, 11, 102, 2, 0, 0]),
        Mnemonic::VRSQRT14SD => Some(vec![1u8, 1, 79, 2, 1, 0, 0, 3, 3, 1, 2, 0, 11, 102, 3, 1, 0]),
        Mnemonic::VRSQRTPH => Some(vec![1u8, 1, 78, 2, 1, 0, 0, 3, 2, 1, 0, 11, 102, 6, 0, 0]),
        Mnemonic::VRSQRTSH => Some(vec![1u8, 1, 79, 2, 1, 0, 0, 3, 3, 1, 2, 0, 11, 102, 6, 0, 0]),
        Mnemonic::VSCALEFPS => Some(vec![1u8, 1, 44, 2, 1, 0, 0, 3, 2, 1, 0, 11, 102, 2, 0, 0]),
        Mnemonic::VSCALEFPD => Some(vec![1u8, 1, 44, 2, 1, 0, 0, 3, 2, 1, 0, 11, 102, 2, 1, 0]),
        Mnemonic::VSCALEFSS => Some(vec![1u8, 1, 45, 2, 1, 0, 0, 3, 3, 1, 2, 0, 11, 102, 2, 0, 0]),
        Mnemonic::VSCALEFSD => Some(vec![1u8, 1, 45, 2, 1, 0, 0, 3, 3, 1, 2, 0, 11, 102, 2, 1, 0]),
        Mnemonic::VSCALEFPH => Some(vec![1u8, 1, 44, 2, 1, 0, 0, 3, 2, 1, 0, 11, 102, 6, 0, 0]),
        Mnemonic::VSCALEFSH => Some(vec![1u8, 1, 45, 2, 1, 0, 0, 3, 3, 1, 2, 0, 11, 102, 6, 0, 0]),
        Mnemonic::VSHA512MSG1 => Some(vec![1u8, 1, 204, 2, 1, 0, 0, 3, 2, 1, 0, 7, 10, 242, 56, 0, 0]),
        Mnemonic::VSHA512MSG2 => Some(vec![1u8, 1, 205, 2, 1, 0, 0, 3, 2, 1, 0, 7, 10, 242, 56, 0, 0]),
        Mnemonic::VSHA512RNDS2 => Some(vec![1u8, 1, 203, 2, 1, 0, 0, 3, 3, 1, 2, 0, 7, 10, 242, 56, 0, 0]),
        Mnemonic::VSHUFF32X4 => Some(vec![1u8, 1, 35, 2, 1, 0, 0, 3, 3, 1, 2, 0, 5, 3, 1, 11, 102, 3, 0, 0]),
        Mnemonic::VSHUFF64X2 => Some(vec![1u8, 1, 35, 2, 1, 0, 0, 3, 3, 1, 2, 0, 5, 3, 1, 11, 102, 3, 1, 0]),
        Mnemonic::VSHUFI32X4 => Some(vec![1u8, 1, 67, 2, 1, 0, 0, 3, 3, 1, 2, 0, 5, 3, 1, 11, 102, 3, 0, 0]),
        Mnemonic::VSHUFI64X2 => Some(vec![1u8, 1, 67, 2, 1, 0, 0, 3, 3, 1, 2, 0, 5, 3, 1, 11, 102, 3, 1, 0]),
        Mnemonic::VSM3MSG1 => Some(vec![1u8, 1, 218, 2, 1, 0, 0, 3, 3, 1, 2, 0, 7, 10, 0, 56, 0, 0]),
        Mnemonic::VSM3MSG2 => Some(vec![1u8, 1, 218, 2, 1, 0, 0, 3, 3, 1, 2, 0, 7, 10, 102, 56, 0, 0]),
        Mnemonic::VSM3RNDS2 => Some(vec![1u8, 1, 222, 2, 1, 0, 0, 3, 3, 1, 2, 0, 7, 5, 3, 1, 10, 102, 58, 0, 0]),
        Mnemonic::VSM4KEY4 => Some(vec![1u8, 1, 218, 2, 1, 0, 0, 3, 3, 1, 2, 0, 7, 10, 243, 56, 0, 0]),
        Mnemonic::VSM4RNDS4 => Some(vec![1u8, 1, 218, 2, 1, 0, 0, 3, 3, 1, 2, 0, 7, 10, 242, 56, 0, 0]),
        Mnemonic::VSQRTPH => Some(vec![1u8, 1, 81, 2, 1, 0, 0, 3, 2, 1, 0, 11, 0, 5, 0, 0]),
        Mnemonic::VSQRTSH => Some(vec![1u8, 1, 81, 2, 1, 0, 0, 3, 3, 1, 2, 0, 11, 243, 5, 0, 0]),
        Mnemonic::VSUBPH => Some(vec![1u8, 1, 92, 2, 1, 0, 0, 3, 3, 1, 2, 0, 11, 0, 5, 0, 0]),
        Mnemonic::VSUBSH => Some(vec![1u8, 1, 92, 2, 1, 0, 0, 3, 3, 1, 2, 0, 11, 243, 5, 0, 0]),
        Mnemonic::VTESTPS => Some(vec![1u8, 1, 14, 2, 1, 0, 0, 3, 2, 1, 0, 7, 10, 102, 56, 0, 0]),
        Mnemonic::VTESTPD => Some(vec![1u8, 1, 15, 2, 1, 0, 0, 3, 2, 1, 0, 7, 10, 102, 56, 0, 0]),
        Mnemonic::VUCOMISH => Some(vec![1u8, 1, 46, 2, 1, 0, 0, 3, 2, 1, 0, 11, 0, 5, 0, 0]),
        Mnemonic::PREFETCHWT1 => Some(vec![1u8, 2, 15, 13, 2, 1, 1, 2]),
        Mnemonic::V4FMADDPS => Some(vec![1u8, 1, 154, 2, 1, 0, 0, 3, 3, 1, 2, 0, 11, 242, 2, 0, 0]),
        Mnemonic::V4FNMADDPS => Some(vec![1u8, 1, 170, 2, 1, 0, 0, 3, 3, 1, 2, 0, 11, 242, 2, 0, 0]),
        _ => None,
    }
}

/// Layout programs (see `run_prog`) of the mnemonics of part 9 of the table.
#[verifier::opaque]
pub open spec fn spec_prog_9(m: Mnemonic) -> Option<Seq<u8>> {
    match m {
        Mnemonic::V4FMADDSS => Some(seq![1u8, 1, 171, 2, 1, 0, 0, 3, 3, 1, 2, 0, 11, 242, 2, 0, 0]),
        Mnemonic::V4FNMADDSS => Some(seq![1u8, 1, 171, 2, 1, 0, 0, 3, 3, 1, 2, 0, 11, 242, 2, 0, 0]),
        Mnemonic::VEXP2PS => Some(seq![1u8, 1, 200, 2, 1, 0, 0, 3, 2, 1, 0, 11, 102, 2, 1, 0]),
        Mnemonic::VEXP2PD => Some(seq![1u8, 1, 200, 2, 1, 0, 0, 3, 2, 1, 0, 11, 102, 2, 1, 0]),
        Mnemonic::VP4DPWSSDS => Some(seq![1u8, 1, 83, 2, 1, 0, 0, 3, 3, 1, 2, 0, 11, 242, 2, 0, 0]),
        Mnemonic::VP4DPWSSD => Some(seq![1u8, 1, 82, 2, 1, 0, 0, 3, 3, 1, 2, 0, 11, 242, 2, 0, 0]),
        Mnemonic::VRCP28PD => Some(seq![1u8, 1, 202, 2, 1, 0, 0, 3, 2, 1, 0, 11, 102, 2, 1, 0]),
        Mnemonic::VRCP28SD => Some(seq![1u8, 1, 203, 2, 1, 0, 0, 3, 3, 1, 2, 0, 11, 102, 2, 1, 0]),
        Mnemonic::VRCP28PS => Some(seq![1u8, 1, 202, 2, 1, 0, 0, 3, 2, 1, 0, 11, 102, 2, 0, 0]),
        Mnemonic::VRCP28SS => Some(seq![1u8, 1, 203, 2, 1, 0, 0, 3, 3, 1, 2, 0, 11, 102, 2, 0, 0]),
        Mnemonic::VRSQRT28PD => Some(seq![1u8, 1, 204, 2, 1, 0, 0, 3, 2, 1, 0, 11, 102, 2, 1, 0]),
        Mnemonic::VRSQRT28SD => Some(seq![1u8, 1, 205, 2, 1, 0, 0, 3, 3, 1, 2, 0, 11, 102, 2, 1, 0]),
        Mnemonic::VRSQRT28PS => Some(seq![1u8, 1, 204, 2, 1, 0, 0, 3, 2, 1, 0, 11, 102, 2, 0, 0]),
        Mnemonic::VRSQRT28SS => Some(seq![1u8, 1, 205, 2, 1, 0, 0, 3, 3, 1, 2, 0, 11, 102, 2, 0, 0]),
        Mnemonic::VPGATHERDD => Some(seq![1u8, 1, 144, 2, 1, 0, 0, 3, 3, 1, 0, 2, 10, 102, 56, 0, 0]),
        Mnemonic::VPGATHERDQ => Some(seq![1u8, 1, 144, 2, 1, 0, 0, 3, 3, 1, 0, 2, 10, 102, 56, 1, 0]),
        Mnemonic::VPGATHERQD => Some(seq![1u8, 1, 145, 2, 1, 0, 0, 3, 3, 1, 0, 2, 10, 102, 56, 0, 0]),
        Mnemonic::VPGATHERQQ => Some(seq![1u8, 1, 145, 2, 1, 0, 0, 3, 3, 1, 0, 2, 10, 102, 56, 1, 0]),
        Mnemonic::VSCATTERDPS => Some(seq![1u8, 1, 162, 2, 1, 0, 0, 3, 2, 0, 1, 11, 102, 2, 0, 0]),
        Mnemonic::VSCATTERDPD => Some(seq![1u8, 1, 162, 2, 1, 0, 0, 3, 2, 0, 1, 11, 102, 2, 1, 0]),
        Mnemonic::VSCATTERQPS => Some(seq![1u8, 1, 163, 2, 1, 0, 0, 3, 2, 0, 1, 11, 102, 2, 0, 0]),
        Mnemonic::VSCATTERQPD => Some(seq![1u8, 1, 163, 2, 1, 0, 0, 3, 2, 0, 1, 11, 102, 2, 1, 0]),
        Mnemonic::VGATHERPF0DPS => Some(seq![1u8, 1, 198, 2, 1, 1, 1, 3, 2, 0, 1, 11, 102, 2, 0, 0]),
        Mnemonic::VGATHERPF0DPD => Some(seq![1u8, 1, 198, 2, 1, 1, 1, 3, 2, 0, 1, 11, 102, 2, 1, 0]),
        Mnemonic::VGATHERPF0QPS => Some(seq![1u8, 1, 199, 2, 1, 1, 1, 3, 2, 0, 1, 11, 102, 2, 0, 0]),
        Mnemonic::VGATHERPF0QPD => Some(seq![1u8, 1, 199, 2, 1, 1, 1, 3, 2, 0, 1, 11, 102, 2, 1, 0]),
        Mnemonic::VGATHERPF1DPS => Some(seq![1u8, 1, 198, 2, 1, 1, 2, 3, 2, 0, 1, 11, 102, 2, 0, 0]),
        Mnemonic::VGATHERPF1DPD => Some(seq![1u8, 1, 198, 2, 1, 1, 2, 3, 2, 0, 1, 11, 102, 2, 1, 0]),
        Mnemonic::VGATHERPF1QPS => Some(seq![1u8, 1, 199, 2, 1, 1, 2, 3, 2, 0, 1, 11, 102, 2, 0, 0]),
        Mnemonic::VGATHERPF1QPD => Some(seq![1u8, 1, 199, 2, 1, 1, 2, 3, 2, 0, 1, 11, 102, 2, 1, 0]),
        Mnemonic::VSCATTERPF0DPS => Some(seq![1u8, 1, 198, 2, 1, 1, 5, 3, 2, 0, 1, 11, 102, 2, 0, 0]),
        Mnemonic::VSCATTERPF0DPD => Some(seq![1u8, 1, 198, 2, 1, 1, 5, 3, 2, 0, 1, 11, 102, 2, 1, 0]),
        Mnemonic::VSCATTERPF0QPS => Some(seq![1u8, 1, 199, 2, 1, 1, 5, 3, 2, 0, 1, 11, 102, 2, 0, 0]),
        Mnemonic::VSCATTERPF0QPD => Some(seq![1u8, 1, 199, 2, 1, 1, 5, 3, 2, 0, 1, 11, 102, 2, 1, 0]),
        Mnemonic::VSCATTERPF1DPS => Some(seq![1u8, 1, 198, 2, 1, 1, 6, 3, 2, 0, 1, 11, 102, 2, 0, 0]),
        Mnemonic::VSCATTERPF1DPD => Some(seq![1u8, 1, 198, 2, 1, 1, 6, 3, 2, 0, 1, 11, 102, 2, 1, 0]),
        Mnemonic::VSCATTERPF1QPS => Some(seq![1u8, 1, 199, 2, 1, 1, 6, 3, 2, 0, 1, 11, 102, 2, 0, 0]),
        Mnemonic::VSCATTERPF1QPD => Some(seq![1u8, 1, 199, 2, 1, 1, 6, 3, 2, 0, 1, 11, 102, 2, 1, 0]),
        Mnemonic::VGETEXPSD => Some(seq![1u8, 1, 67, 2, 1, 0, 0, 3, 3, 1, 2, 0, 11, 102, 2, 1, 0]),
        Mnemonic::VGATHERDPS => Some(seq![1u8, 1, 146, 2, 1, 0, 0, 3, 3, 1, 0, 2, 10, 102, 56, 0, 0]),
        Mnemonic::VGATHERDPD => Some(seq![1u8, 1, 146, 2, 1, 0, 0, 3, 3, 1, 0, 2, 10, 102, 56, 1, 0]),
        Mnemonic::VGATHERQPS => Some(seq![1u8, 1, 147, 2, 1, 0, 0, 3, 3, 1, 0, 2, 10, 102, 56, 0, 0]),
        Mnemonic::VGATHERQPD => Some(seq![1u8, 1, 147, 2, 1, 0, 0, 3, 3, 1, 0, 2, 11, 102, 2, 1, 0]),
        Mnemonic::VPSCATTERDD => Some(seq![1u8, 1, 160, 2, 1, 0, 0, 11, 102, 2, 0, 0]),
        Mnemonic::VPSCATTERDQ => Some(seq![1u8, 1, 160, 2, 1, 0, 0, 11, 102, 2, 1, 0]),
        Mnemonic::VPSCATTERQD => Some(seq![1u8, 1, 161, 2, 1, 0, 0, 11, 102, 2, 0, 0]),
        Mnemonic::VPSCATTERQQ => Some(seq![1u8, 1, 161, 2, 1, 0, 0, 11, 102, 2, 1, 0]),
        Mnemonic::AAADD => Some(seq![1u8, 1, 252, 2, 1, 0, 0, 3, 2, 0, 1, 12, 2, 0, 4, 0, 0]),
        Mnemonic::AAXOR => Some(seq![1u8, 1, 252, 2, 1, 0, 0, 3, 2, 0, 1, 12, 2, 243, 4, 0, 0]),
        Mnemonic::AAOR => Some(seq![1u8, 1, 252, 2, 1, 0, 0, 3, 2, 0, 1, 12, 2, 242, 4, 0, 0]),
        Mnemonic::AAAND => Some(seq![1u8, 1, 252, 2, 1, 0, 0, 3, 2, 0, 1, 12, 2, 102, 4, 0, 0]),
        Mnemonic::AANDN => Some(seq![1u8, 1, 242, 2, 1, 0, 0, 3, 3, 1, 2, 0, 15, 1, 242, 2, 0, 0]),
        Mnemonic::ABZHI => Some(seq![1u8, 1, 245, 2, 1, 0, 0, 3, 3, 1, 0, 2, 15, 1, 0, 2, 0, 0]),
        Mnemonic::ABEXTR => Some(seq![1u8, 1, 247, 2, 1, 0, 0, 3, 3, 1, 0, 2, 15, 1, 0, 2, 0, 0]),
        Mnemonic::ABLSMSK => Some(seq![1u8, 1, 243, 2, 1, 1, 2, 3, 2, 2, 0, 15, 1, 0, 2, 0, 0]),
        Mnemonic::ABLSR => Some(seq![1u8, 1, 243, 2, 1, 1, 1, 3, 2, 2, 0, 15, 1, 0, 2, 0, 0]),
        Mnemonic::ABLSI => Some(seq![1u8, 1, 243, 2, 1, 1, 3, 3, 2, 2, 0, 15, 1, 0, 2, 0, 0]),
        Mnemonic::ACMOVA => Some(seq![1u8, 2, 15, 71, 2, 1, 0, 0, 4, 3, 2, 1, 0, 3, 3, 2, 1, 0, 12, 2, 0, 4, 0, 0]),
        Mnemonic::ACMOVAE => Some(seq![1u8, 2, 15, 67, 2, 1, 0, 0, 4, 3, 2, 1, 0, 3, 3, 2, 1, 0, 12, 2, 0, 4, 0, 0]),
        Mnemonic::ACMOVB => Some(seq![1u8, 2, 15, 66, 2, 1, 0, 0, 4, 3, 2, 1, 0, 3, 3, 2, 1, 0, 12, 2, 0, 4, 0, 0]),
        Mnemonic::ACMOVBE => Some(seq![1u8, 2, 15, 70, 2, 1, 0, 0, 4, 3, 2, 1, 0, 3, 3, 2, 1, 0, 12, 2, 0, 4, 0, 0]),
        Mnemonic::ACMOVC => Some(seq![1u8, 2, 15, 66, 2, 1, 0, 0, 4, 3, 2, 1, 0, 3, 3, 2, 1, 0, 12, 2, 0, 4, 0, 0]),
        Mnemonic::ACMOVE => Some(seq![1u8, 2, 15, 68, 2, 1, 0, 0, 4, 3, 2, 1, 0, 3, 3, 2, 1, 0, 12, 2, 0, 4, 0, 0]),
        Mnemonic::ACMOVG => Some(seq![1u8, 2, 15, 79, 2, 1, 0, 0, 4, 3, 2, 1, 0, 3, 3, 2, 1, 0, 12, 2, 0, 4, 0, 0]),
        Mnemonic::ACMOVGE => Some(seq![1u8, 2, 15, 77, 2, 1, 0, 0, 4, 3, 2, 1, 0, 3, 3, 2, 1, 0, 12, 2, 0, 4, 0, 0]),
        Mnemonic::ACMOVL => Some(seq![1u8, 2, 15, 76, 2, 1, 0, 0, 4, 3, 2, 1, 0, 3, 3, 2, 1, 0, 12, 2, 0, 4, 0, 0]),
        Mnemonic::ACMOVLE => Some(seq![1u8, 2, 15, 78, 2, 1, 0, 0, 4, 3, 2, 1, 0, 3, 3, 2, 1, 0, 12, 2, 0, 4, 0, 0]),
        Mnemonic::ACMOVNA => Some(seq![1u8, 2, 15, 70, 2, 1, 0, 0, 4, 3, 2, 1, 0, 3, 3, 2, 1, 0, 12, 2, 0, 4, 0, 0]),
        Mnemonic::ACMOVNB => Some(seq![1u8, 2, 15, 67, 2, 1, 0, 0, 4, 3, 2, 1, 0, 3, 3, 2, 1, 0, 12, 2, 0, 4, 0, 0]),
        Mnemonic::ACMOVNBE => Some(seq![1u8, 2, 15, 71, 2, 1, 0, 0, 4, 3, 2, 1, 0, 3, 3, 2, 1, 0, 12, 2, 0, 4, 0, 0]),
        Mnemonic::ACMOVNC => Some(seq![1u8, 2, 15, 67, 2, 1, 0, 0, 4, 3, 2, 1, 0, 3, 3, 2, 1, 0, 12, 2, 0, 4, 0, 0]),
        Mnemonic::ACMOVNE => Some(seq![1u8, 2, 15, 69, 2, 1, 0, 0, 4, 3, 2, 1, 0, 3, 3, 2, 1, 0, 12, 2, 0, 4, 0, 0]),
        Mnemonic::ACMOVNG => Some(seq![1u8, 2, 15, 78, 2, 1, 0, 0, 4, 3, 2, 1, 0, 3, 3, 2, 1, 0, 12, 2, 0, 4, 0, 0]),
        Mnemonic::ACMOVNGE => Some(seq![1u8, 2, 15, 76, 2, 1, 0, 0, 4, 3, 2, 1, 0, 3, 3, 2, 1, 0, 12, 2, 0, 4, 0, 0]),
        Mnemonic::ACMOVNL => Some(seq![1u8, 2, 15, 77, 2, 1, 0, 0, 4, 3, 2, 1, 0, 3, 3, 2, 1, 0, 12, 2, 0, 4, 0, 0]),
        Mnemonic::ACMOVNLE => Some(seq![1u8, 2, 15, 79, 2, 1, 0, 0, 4, 3, 2, 1, 0, 3, 3, 2, 1, 0, 12, 2, 0, 4, 0, 0]),
        Mnemonic::ACMOVNAE => Some(seq![1u8, 2, 15, 66, 2, 1, 0, 0, 4, 3, 2, 1, 0, 3, 3, 2, 1, 0, 12, 2, 0, 4, 0, 0]),
        Mnemonic::ACMOVNO => Some(seq![1u8, 2, 15, 65, 2, 1, 0, 0, 4, 3, 2, 1, 0, 3, 3, 2, 1, 0, 12, 2, 0, 4, 0, 0]),
        Mnemonic::ACMOVNP => Some(seq![1u8, 2, 15, 75, 2, 1, 0, 0, 4, 3, 2, 1, 0, 3, 3, 2, 1, 0, 12, 2, 0, 4, 0, 0]),
        Mnemonic::ACMOVNS => Some(seq![1u8, 2, 15, 73, 2, 1, 0, 0, 4, 3, 2, 1, 0, 3, 3, 2, 1, 0, 12, 2, 0, 4, 0, 0]),
        Mnemonic::ACMOVNZ => Some(seq![1u8, 2, 15, 69, 2, 1, 0, 0, 4, 3, 2, 1, 0, 3, 3, 2, 1, 0, 12, 2, 0, 4, 0, 0]),
        Mnemonic::ACMOVO => Some(seq![1u8, 2, 15, 64, 2, 1, 0, 0, 4, 3, 2, 1, 0, 3, 3, 2, 1, 0, 12, 2, 0, 4, 0, 0]),
        Mnemonic::ACMOVP => Some(seq![1u8, 2, 15, 74, 2, 1, 0, 0, 4, 3, 2, 1, 0, 3, 3, 2, 1, 0, 12, 2, 0, 4, 0, 0]),
        Mnemonic::ACMOVPO => Some(seq![1u8, 2, 15, 75, 2, 1, 0, 0, 4, 3, 2, 1, 0, 3, 3, 2, 1, 0, 12, 2, 0, 4, 0, 0]),
        Mnemonic::ACMOVS => Some(seq![1u8, 2, 15, 72, 2, 1, 0, 0, 4, 3, 2, 1, 0, 3, 3, 2, 1, 0, 12, 2, 0, 4, 0, 0]),
        Mnemonic::ACMOVZ => Some(seq![1u8, 2, 15, 68, 2, 1, 0, 0, 4, 3, 2, 1, 0, 3, 3, 2, 1, 0, 12, 2, 0, 4, 0, 0]),
        Mnemonic::ACMOVPE => Some(seq![1u8, 2, 15, 74, 2, 1, 0, 0, 4, 3, 2, 1, 0, 3, 3, 2, 1, 0, 12, 2, 0, 4, 0, 0]),
        Mnemonic::AINVEPT => Some(seq![1u8, 1, 240, 2, 1, 0, 0, 3, 2, 1, 0, 12, 2, 243, 4, 0, 0]),
        Mnemonic::AINVVPID => Some(seq![1u8, 1, 241, 2, 1, 0, 0, 3, 2, 1, 0, 12, 2, 243, 4, 0, 0]),
        Mnemonic::AINVPCID => Some(seq![1u8, 1, 242, 2, 1, 0, 0, 3, 2, 1, 0, 12, 2, 243, 4, 0, 0]),
        Mnemonic::ALZCNT => Some(seq![1u8, 1, 245, 2, 1, 0, 0, 3, 2, 1, 0, 12, 2, 0, 2, 0, 0]),
        Mnemonic::AMOVDIRI => Some(seq![1u8, 1, 249, 2, 1, 0, 0, 3, 2, 0, 1, 12, 2, 0, 4, 0, 0]),
        Mnemonic::AMULX => Some(seq![1u8, 1, 246, 2, 1, 0, 0, 3, 3, 1, 2, 0, 15, 2, 242, 2, 0, 0]),
        Mnemonic::APEXT => Some(seq![1u8, 1, 245, 2, 1, 0, 0, 3, 3, 1, 2, 0, 15, 0, 243, 2, 0, 0]),
        Mnemonic::APDEP => Some(seq![1u8, 1, 245, 2, 1, 0, 0, 3, 3, 1, 2, 0, 15, 0, 242, 2, 0, 0]),
        Mnemonic::APOPCNT => Some(seq![1u8, 1, 136, 2, 1, 0, 0, 3, 2, 1, 0, 12, 0, 0, 4, 0, 0]),
        Mnemonic::ARDMSR => Some(seq![1u8, 1, 246, 2, 1, 0, 0, 3, 2, 0, 1, 5, 1, 4, 12, 0, 242, 7, 0, 0]),
        Mnemonic::ASARX => Some(seq![1u8, 1, 247, 2, 1, 0, 0, 3, 2, 1, 0, 5, 2, 1, 15, 0, 243, 2, 0, 0]),
        Mnemonic::ARORX => Some(seq![1u8, 1, 240, 2, 1, 0, 0, 3, 2, 1, 0, 5, 2, 1, 15, 0, 242, 3, 0, 0]),
        Mnemonic::ASHLX => Some(seq![1u8, 1, 247, 2, 1, 0, 0, 3, 3, 1, 0, 2, 15, 1, 102, 2, 0, 0]),
        _ => None,
    }
}

/// The layout program of a mnemonic of part 9 of the table.
fn prog_9(m: Mnemonic) -> (r: Option<Vec<u8>>)
    ensures
        match spec_prog_9(m) {
            Some(p) => r matches Some(v) && v@ == p,
            None => r is None,
        },
{
    proof {
        reveal(spec_prog_9);
    }
    match m {
        Mnemonic::V4FMADDSS => Some(vec![1u8, 1, 171, 2, 1, 0, 0, 3, 3, 1, 2, 0, 11, 242, 2, 0, 0]),
        Mnemonic::V4FNMADDSS => Some(vec![1u8, 1, 171, 2, 1, 0, 0, 3, 3, 1, 2, 0, 11, 242, 2, 0, 0]),
        Mnemonic::VEXP2PS => Some(vec![1u8, 1, 200, 2, 1, 0, 0, 3, 2, 1, 0, 11, 102, 2, 1, 0]),
        Mnemonic::VEXP2PD => Some(vec![1u8, 1, 200, 2, 1, 0, 0, 3, 2, 1, 0, 11, 102, 2, 1, 0]),
        Mnemonic::VP4DPWSSDS => Some(vec![1u8, 1, 83, 2, 1, 0, 0, 3, 3, 1, 2, 0, 11, 242, 2, 0, 0]),
        Mnemonic::VP4DPWSSD => Some(vec![1u8, 1, 82, 2, 1, 0, 0, 3, 3, 1, 2, 0, 11, 242, 2, 0, 0]),
        Mnemonic::VRCP28PD => Some(vec![1u8, 1, 202, 2, 1, 0, 0, 3, 2, 1, 0, 11, 102, 2, 1, 0]),
        Mnemonic::VRCP28SD => Some(vec![1u8, 1, 203, 2, 1, 0, 0, 3, 3, 1, 2, 0, 11, 102, 2, 1, 0]),
        Mnemonic::VRCP28PS => Some(vec![1u8, 1, 202, 2, 1, 0, 0, 3, 2, 1, 0, 11, 102, 2, 0, 0]),
        Mnemonic::VRCP28SS => Some(vec![1u8, 1, 203, 2, 1, 0, 0, 3, 3, 1, 2, 0, 11, 102, 2, 0, 0]),
        Mnemonic::VRSQRT28PD => Some(vec![1u8, 1, 204, 2, 1, 0, 0, 3, 2, 1, 0, 11, 102, 2, 1, 0]),
        Mnemonic::VRSQRT28SD => Some(vec![1u8, 1, 205, 2, 1, 0, 0, 3, 3, 1, 2, 0, 11, 102, 2, 1, 0]),
        Mnemonic::VRSQRT28PS => Some(vec![1u8, 1, 204, 2, 1, 0, 0, 3, 2, 1, 0, 11, 102, 2, 0, 0]),
        Mnemonic::VRSQRT28SS => Some(vec![1u8, 1, 205, 2, 1, 0, 0, 3, 3, 1, 2, 0, 11, 102, 2, 0, 0]),
        Mnemonic::VPGATHERDD => Some(vec![1u8, 1, 144, 2, 1, 0, 0, 3, 3, 1, 0, 2, 10, 102, 56, 0, 0]),
        Mnemonic::VPGATHERDQ => Some(vec![1u8, 1, 144, 2, 1, 0, 0, 3, 3, 1, 0, 2, 10, 102, 56, 1, 0]),
        Mnemonic::VPGATHERQD => Some(vec![1u8, 1, 145, 2, 1, 0, 0, 3, 3, 1, 0, 2, 10, 102, 56, 0, 0]),
        Mnemonic::VPGATHERQQ => Some(vec![1u8, 1, 145, 2, 1, 0, 0, 3, 3, 1, 0, 2, 10, 102, 56, 1, 0]),
        Mnemonic::VSCATTERDPS => Some(vec![1u8, 1, 162, 2, 1, 0, 0, 3, 2, 0, 1, 11, 102, 2, 0, 0]),
        Mnemonic::VSCATTERDPD => Some(vec![1u8, 1, 162, 2, 1, 0, 0, 3, 2, 0, 1, 11, 102, 2, 1, 0]),
        Mnemonic::VSCATTERQPS => Some(vec![1u8, 1, 163, 2, 1, 0, 0, 3, 2, 0, 1, 11, 102, 2, 0, 0]),
        Mnemonic::VSCATTERQPD => Some(vec![1u8, 1, 163, 2, 1, 0, 0, 3, 2, 0, 1, 11, 102, 2, 1, 0]),
        Mnemonic::VGATHERPF0DPS => Some(vec![1u8, 1, 198, 2, 1, 1, 1, 3, 2, 0, 1, 11, 102, 2, 0, 0]),
        Mnemonic::VGATHERPF0DPD => Some(vec![1u8, 1, 198, 2, 1, 1, 1, 3, 2, 0, 1, 11, 102, 2, 1, 0]),
        Mnemonic::VGATHERPF0QPS => Some(vec![1u8, 1, 199, 2, 1, 1, 1, 3, 2, 0, 1, 11, 102, 2, 0, 0]),
        Mnemonic::VGATHERPF0QPD => Some(vec![1u8, 1, 199, 2, 1, 1, 1, 3, 2, 0, 1, 11, 102, 2, 1, 0]),
        Mnemonic::VGATHERPF1DPS => Some(vec![1u8, 1, 198, 2, 1, 1, 2, 3, 2, 0, 1, 11, 102, 2, 0, 0]),
        Mnemonic::VGATHERPF1DPD => Some(vec![1u8, 1, 198, 2, 1, 1, 2, 3, 2, 0, 1, 11, 102, 2, 1, 0]),
        Mnemonic::VGATHERPF1QPS => Some(vec![1u8, 1, 199, 2, 1, 1, 2, 3, 2, 0, 1, 11, 102, 2, 0, 0]),
        Mnemonic::VGATHERPF1QPD => Some(vec![1u8, 1, 199, 2, 1, 1, 2, 3, 2, 0, 1, 11, 102, 2, 1, 0]),
        Mnemonic::VSCATTERPF0DPS => Some(vec![1u8, 1, 198, 2, 1, 1, 5, 3, 2, 0, 1, 11, 102, 2, 0, 0]),
        Mnemonic::VSCATTERPF0DPD => Some(vec![1u8, 1, 198, 2, 1, 1, 5, 3, 2, 0, 1, 11, 102, 2, 1, 0]),
        Mnemonic::VSCATTERPF0QPS => Some(vec![1u8, 1, 199, 2, 1, 1, 5, 3, 2, 0, 1, 11, 102, 2, 0, 0]),
        Mnemonic::VSCATTERPF0QPD => Some(vec![1u8, 1, 199, 2, 1, 1, 5, 3, 2, 0, 1, 11, 102, 2, 1, 0]),
        Mnemonic::VSCATTERPF1DPS => Some(vec![1u8, 1, 198, 2, 1, 1, 6, 3, 2, 0, 1, 11, 102, 2, 0, 0]),
        Mnemonic::VSCATTERPF1DPD => Some(vec![1u8, 1, 198, 2, 1, 1, 6, 3, 2, 0, 1, 11, 102, 2, 1, 0]),
        Mnemonic::VSCATTERPF1QPS => Some(vec![1u8, 1, 199, 2, 1, 1, 6, 3, 2, 0, 1, 11, 102, 2, 0, 0]),
        Mnemonic::VSCATTERPF1QPD => Some(vec![1u8, 1, 199, 2, 1, 1, 6, 3, 2, 0, 1, 11, 102, 2, 1, 0]),
        Mnemonic::VGETEXPSD => Some(vec![1u8, 1, 67, 2, 1, 0, 0, 3, 3, 1, 2, 0, 11, 102, 2, 1, 0]),
        Mnemonic::VGATHERDPS => Some(vec![1u8, 1, 146, 2, 1, 0, 0, 3, 3, 1, 0, 2, 10, 102, 56, 0, 0]),
        Mnemonic::VGATHERDPD => Some(vec![1u8, 1, 146, 2, 1, 0, 0, 3, 3, 1, 0, 2, 10, 102, 56, 1, 0]),
        Mnemonic::VGATHERQPS => Some(vec![1u8, 1, 147, 2, 1, 0, 0, 3, 3, 1, 0, 2, 10, 102, 56, 0, 0]),
        Mnemonic::VGATHERQPD => Some(vec![1u8, 1, 147, 2, 1, 0, 0, 3, 3, 1, 0, 2, 11, 102, 2, 1, 0]),
        Mnemonic::VPSCATTERDD => Some(vec![1u8, 1, 160, 2, 1, 0, 0, 11, 102, 2, 0, 0]),
        Mnemonic::VPSCATTERDQ => Some(vec![1u8, 1, 160, 2, 1, 0, 0, 11, 102, 2, 1, 0]),
        Mnemonic::VPSCATTERQD => Some(vec![1u8, 1, 161, 2, 1, 0, 0, 11, 102, 2, 0, 0]),
        Mnemonic::VPSCATTERQQ => Some(vec![1u8, 1, 161, 2, 1, 0, 0, 11, 102, 2, 1, 0]),
        Mnemonic::AAADD => Some(vec![1u8, 1, 252, 2, 1, 0, 0, 3, 2, 0, 1, 12, 2, 0, 4, 0, 0]),
        Mnemonic::AAXOR => Some(vec![1u8, 1, 252, 2, 1, 0, 0, 3, 2, 0, 1, 12, 2, 243, 4, 0, 0]),
        Mnemonic::AAOR => Some(vec![1u8, 1, 252, 2, 1, 0, 0, 3, 2, 0, 1, 12, 2, 242, 4, 0, 0]),
        Mnemonic::AAAND => Some(vec![1u8, 1, 252, 2, 1, 0, 0, 3, 2, 0, 1, 12, 2, 102, 4, 0, 0]),
        Mnemonic::AANDN => Some(vec![1u8, 1, 242, 2, 1, 0, 0, 3, 3, 1, 2, 0, 15, 1, 242, 2, 0, 0]),
        Mnemonic::ABZHI => Some(vec![1u8, 1, 245, 2, 1, 0, 0, 3, 3, 1, 0, 2, 15, 1, 0, 2, 0, 0]),
        Mnemonic::ABEXTR => Some(vec![1u8, 1, 247, 2, 1, 0, 0, 3, 3, 1, 0, 2, 15, 1, 0, 2, 0, 0]),
        Mnemonic::ABLSMSK => Some(vec![1u8, 1, 243, 2, 1, 1, 2, 3, 2, 2, 0, 15, 1, 0, 2, 0, 0]),
        Mnemonic::ABLSR => Some(vec![1u8, 1, 243, 2, 1, 1, 1, 3, 2, 2, 0, 15, 1, 0, 2, 0, 0]),
        Mnemonic::ABLSI => Some(vec![1u8, 1, 243, 2, 1, 1, 3, 3, 2, 2, 0, 15, 1, 0, 2, 0, 0]),
        Mnemonic::ACMOVA => Some(vec![1u8, 2, 15, 71, 2, 1, 0, 0, 4, 3, 2, 1, 0, 3, 3, 2, 1, 0, 12, 2, 0, 4, 0, 0]),
        Mnemonic::ACMOVAE => Some(vec![1u8, 2, 15, 67, 2, 1, 0, 0, 4, 3, 2, 1, 0, 3, 3, 2, 1, 0, 12, 2, 0, 4, 0, 0]),
        Mnemonic::ACMOVB => Some(vec![1u8, 2, 15, 66, 2, 1, 0, 0, 4, 3, 2, 1, 0, 3, 3, 2, 1, 0, 12, 2, 0, 4, 0, 0]),
        Mnemonic::ACMOVBE => Some(vec![1u8, 2, 15, 70, 2, 1, 0, 0, 4, 3, 2, 1, 0, 3, 3, 2, 1, 0, 12, 2, 0, 4, 0, 0]),
        Mnemonic::ACMOVC => Some(vec![1u8, 2, 15, 66, 2, 1, 0, 0, 4, 3, 2, 1, 0, 3, 3, 2, 1, 0, 12, 2, 0, 4, 0, 0]),
        Mnemonic::ACMOVE => Some(vec![1u8, 2, 15, 68, 2, 1, 0, 0, 4, 3, 2, 1, 0, 3, 3, 2, 1, 0, 12, 2, 0, 4, 0, 0]),
        Mnemonic::ACMOVG => Some(vec![1u8, 2, 15, 79, 2, 1, 0, 0, 4, 3, 2, 1, 0, 3, 3, 2, 1, 0, 12, 2, 0, 4, 0, 0]),
        Mnemonic::ACMOVGE => Some(vec![1u8, 2, 15, 77, 2, 1, 0, 0, 4, 3, 2, 1, 0, 3, 3, 2, 1, 0, 12, 2, 0, 4, 0, 0]),
        Mnemonic::ACMOVL => Some(vec![1u8, 2, 15, 76, 2, 1, 0, 0, 4, 3, 2, 1, 0, 3, 3, 2, 1, 0, 12, 2, 0, 4, 0, 0]),
        Mnemonic::ACMOVLE => Some(vec![1u8, 2, 15, 78, 2, 1, 0, 0, 4, 3, 2, 1, 0, 3, 3, 2, 1, 0, 12, 2, 0, 4, 0, 0]),
        Mnemonic::ACMOVNA => Some(vec![1u8, 2, 15, 70, 2, 1, 0, 0, 4, 3, 2, 1, 0, 3, 3, 2, 1, 0, 12, 2, 0, 4, 0, 0]),
        Mnemonic::ACMOVNB => Some(vec![1u8, 2, 15, 67, 2, 1, 0, 0, 4, 3, 2, 1, 0, 3, 3, 2, 1, 0, 12, 2, 0, 4, 0, 0]),
        Mnemonic::ACMOVNBE => Some(vec![1u8, 2, 15, 71, 2, 1, 0, 0, 4, 3, 2, 1, 0, 3, 3, 2, 1, 0, 12, 2, 0, 4, 0, 0]),
        Mnemonic::ACMOVNC => Some(vec![1u8, 2, 15, 67, 2, 1, 0, 0, 4, 3, 2, 1, 0, 3, 3, 2, 1, 0, 12, 2, 0, 4, 0, 0]),
        Mnemonic::ACMOVNE => Some(vec![1u8, 2, 15, 69, 2, 1, 0, 0, 4, 3, 2, 1, 0, 3, 3, 2, 1, 0, 12, 2, 0, 4, 0, 0]),
        Mnemonic::ACMOVNG => Some(vec![1u8, 2, 15, 78, 2, 1, 0, 0, 4, 3, 2, 1, 0, 3, 3, 2, 1, 0, 12, 2, 0, 4, 0, 0]),
        Mnemonic::ACMOVNGE => Some(vec![1u8, 2, 15, 76, 2, 1, 0, 0, 4, 3, 2, 1, 0, 3, 3, 2, 1, 0, 12, 2, 0, 4, 0, 0]),
        Mnemonic::ACMOVNL => Some(vec![1u8, 2, 15, 77, 2, 1, 0, 0, 4, 3, 2, 1, 0, 3, 3, 2, 1, 0, 12, 2, 0, 4, 0, 0]),
        Mnemonic::ACMOVNLE => Some(vec![1u8, 2, 15, 79, 2, 1, 0, 0, 4, 3, 2, 1, 0, 3, 3, 2, 1, 0, 12, 2, 0, 4, 0, 0]),
        Mnemonic::ACMOVNAE => Some(vec![1u8, 2, 15, 66, 2, 1, 0, 0, 4, 3, 2, 1, 0, 3, 3, 2, 1, 0, 12, 2, 0, 4, 0, 0]),
        Mnemonic::ACMOVNO => Some(vec![1u8, 2, 15, 65, 2, 1, 0, 0, 4, 3, 2, 1, 0, 3, 3, 2, 1, 0, 12, 2, 0, 4, 0, 0]),
        Mnemonic::ACMOVNP => Some(vec![1u8, 2, 15, 75, 2, 1, 0, 0, 4, 3, 2, 1, 0, 3, 3, 2, 1, 0, 12, 2, 0, 4, 0, 0]),
        Mnemonic::ACMOVNS => Some(vec![1u8, 2, 15, 73, 2, 1, 0, 0, 4, 3, 2, 1, 0, 3, 3, 2, 1, 0, 12, 2, 0, 4, 0, 0]),
        Mnemonic::ACMOVNZ => Some(vec![1u8, 2, 15, 69, 2, 1, 0, 0, 4, 3, 2, 1, 0, 3, 3, 2, 1, 0, 12, 2, 0, 4, 0, 0]),
        Mnemonic::ACMOVO => Some(vec![1u8, 2, 15, 64, 2, 1, 0, 0, 4, 3, 2, 1, 0, 3, 3, 2, 1, 0, 12, 2, 0, 4, 0, 0]),
        Mnemonic::ACMOVP => Some(vec![1u8, 2, 15, 74, 2, 1, 0, 0, 4, 3, 2, 1, 0, 3, 3, 2, 1, 0, 12, 2, 0, 4, 0, 0]),
        Mnemonic::ACMOVPO => Some(vec![1u8, 2, 15, 75, 2, 1, 0, 0, 4, 3, 2, 1, 0, 3, 3, 2, 1, 0, 12, 2, 0, 4, 0, 0]),
        Mnemonic::ACMOVS => Some(vec![1u8, 2, 15, 72, 2, 1, 0, 0, 4, 3, 2, 1, 0, 3, 3, 2, 1, 0, 12, 2, 0, 4, 0, 0]),
        Mnemonic::ACMOVZ => Some(vec![1u8, 2, 15, 68, 2, 1, 0, 0, 4, 3, 2, 1, 0, 3, 3, 2, 1, 0, 12, 2, 0, 4, 0, 0]),
        Mnemonic::ACMOVPE => Some(vec![1u8, 2, 15, 74, 2, 1, 0, 0, 4, 3, 2, 1, 0, 3, 3, 2, 1, 0, 12, 2, 0, 4, 0, 0]),
        Mnemonic::AINVEPT => Some(vec![1u8, 1, 240, 2, 1, 0, 0, 3, 2, 1, 0, 12, 2, 243, 4, 0, 0]),
        Mnemonic::AINVVPID => Some(vec![1u8, 1, 241, 2, 1, 0, 0, 3, 2, 1, 0, 12, 2, 243, 4, 0, 0]),
        Mnemonic::AINVPCID => Some(vec![1u8, 1, 242, 2, 1, 0, 0, 3, 2, 1, 0, 12, 2, 243, 4, 0, 0]),
        Mnemonic::ALZCNT => Some(vec![1u8, 1, 245, 2, 1, 0, 0, 3, 2, 1, 0, 12, 2, 0, 2, 0, 0]),
        Mnemonic::AMOVDIRI => Some(vec![1u8, 1, 249, 2, 1, 0, 0, 3, 2, 0, 1, 12, 2, 0, 4, 0, 0]),
        Mnemonic::AMULX => Some(vec![1u8, 1, 246, 2, 1, 0, 0, 3, 3, 1, 2, 0, 15, 2, 242, 2, 0, 0]),
        Mnemonic::APEXT => Some(vec![1u8, 1, 245, 2, 1, 0, 0, 3, 3, 1, 2, 0, 15, 0, 243, 2, 0, 0]),
        Mnemonic::APDEP => Some(vec![1u8, 1, 245, 2, 1, 0, 0, 3, 3, 1, 2, 0, 15, 0, 242, 2, 0, 0]),
        Mnemonic::APOPCNT => Some(vec![1u8, 1, 136, 2, 1, 0, 0, 3, 2, 1, 0, 12, 0, 0, 4, 0, 0]),
        Mnemonic::ARDMSR => Some(vec![1u8, 1, 246, 2, 1, 0, 0, 3, 2, 0, 1, 5, 1, 4, 12, 0, 242, 7, 0, 0]),
        Mnemonic::ASARX => Some(vec![1u8, 1, 247, 2, 1, 0, 0, 3, 2, 1, 0, 5, 2, 1, 15, 0, 243, 2, 0, 0]),
        Mnemonic::ARORX => Some(vec![1u8, 1, 240, 2, 1, 0, 0, 3, 2, 1, 0, 5, 2, 1, 15, 0, 242, 3, 0, 0]),
        Mnemonic::ASHLX => Some(vec![1u8, 1, 247, 2, 1, 0, 0, 3, 3, 1, 0, 2, 15, 1, 102, 2, 0, 0]),
        _ => None,
    }
}

/// Layout programs (see `run_prog`) of the mnemonics of part 10 of the table.
#[verifier::opaque]
pub open spec fn spec_prog_10(m: Mnemonic) -> Option<Seq<u8>> {
    match m {
        Mnemonic::ASHRX => Some(seq![1u8, 1, 247, 2, 1, 0, 0, 3, 3, 1, 0, 2, 15, 1, 242, 2, 0, 0]),
        Mnemonic::ATZCNT => Some(seq![1u8, 1, 244, 2, 1, 0, 0, 3, 2, 1, 0, 12, 2, 0, 4, 0, 0]),
        Mnemonic::JMPABS => Some(seq![1u8, 1, 161, 5, 0, 8, 12, 5, 0, 0, 0, 0]),
        Mnemonic::SETOZU => Some(seq![1u8, 1, 64, 2, 1, 0, 0, 12, 2, 242, 4, 0, 0]),
        Mnemonic::SETNOZU => Some(seq![1u8, 1, 65, 2, 1, 0, 0, 12, 2, 242, 4, 0, 0]),
        Mnemonic::SETEZU | Mnemonic::SETZZU => Some(seq![1u8, 1, 68, 2, 1, 0, 0, 12, 2, 242, 4, 0, 0]),
        Mnemonic::SETSZU => Some(seq![1u8, 1, 72, 2, 1, 0, 0, 12, 2, 242, 4, 0, 0]),
        Mnemonic::SETNSZU => Some(seq![1u8, 1, 73, 2, 1, 0, 0, 12, 2, 242, 4, 0, 0]),
        Mnemonic::CFCMOVA => Some(seq![1u8, 1, 71, 2, 1, 0, 0, 12, 2, 0, 4, 0, 0, 17]),
        Mnemonic::CFCMOVAE => Some(seq![1u8, 1, 67, 2, 1, 0, 0, 12, 2, 0, 4, 0, 0, 17]),
        Mnemonic::CFCMOVB => Some(seq![1u8, 1, 66, 2, 1, 0, 0, 12, 2, 0, 4, 0, 0, 17]),
        Mnemonic::CFCMOVBE => Some(seq![1u8, 1, 70, 2, 1, 0, 0, 12, 2, 0, 4, 0, 0, 17]),
        Mnemonic::CFCMOVE => Some(seq![1u8, 1, 68, 2, 1, 0, 0, 12, 2, 0, 4, 0, 0, 17]),
        Mnemonic::CFCMOVG => Some(seq![1u8, 1, 79, 2, 1, 0, 0, 12, 2, 0, 4, 0, 0, 17]),
        Mnemonic::CFCMOVGE => Some(seq![1u8, 1, 77, 2, 1, 0, 0, 12, 2, 0, 4, 0, 0, 17]),
        Mnemonic::CFCMOVL => Some(seq![1u8, 1, 76, 2, 1, 0, 0, 12, 2, 0, 4, 0, 0, 17]),
        Mnemonic::CFCMOVLE => Some(seq![1u8, 1, 78, 2, 1, 0, 0, 12, 2, 0, 4, 0, 0, 17]),
        Mnemonic::CFCMOVNA => Some(seq![1u8, 1, 70, 2, 1, 0, 0, 12, 2, 0, 4, 0, 0, 17]),
        Mnemonic::CFCMOVNB => Some(seq![1u8, 1, 67, 2, 1, 0, 0, 12, 2, 0, 4, 0, 0, 17]),
        Mnemonic::CFCMOVNBE => Some(seq![1u8, 1, 71, 2, 1, 0, 0, 12, 2, 0, 4, 0, 0, 17]),
        Mnemonic::CFCMOVNE => Some(seq![1u8, 1, 69, 2, 1, 0, 0, 12, 2, 0, 4, 0, 0, 17]),
        Mnemonic::CFCMOVNG => Some(seq![1u8, 1, 78, 2, 1, 0, 0, 12, 2, 0, 4, 0, 0, 17]),
        Mnemonic::CFCMOVNGE => Some(seq![1u8, 1, 76, 2, 1, 0, 0, 12, 2, 0, 4, 0, 0, 17]),
        Mnemonic::CFCMOVNL => Some(seq![1u8, 1, 77, 2, 1, 0, 0, 12, 2, 0, 4, 0, 0, 17]),
        Mnemonic::CFCMOVNLE => Some(seq![1u8, 1, 79, 2, 1, 0, 0, 12, 2, 0, 4, 0, 0, 17]),
        Mnemonic::CFCMOVNAE => Some(seq![1u8, 1, 66, 2, 1, 0, 0, 12, 2, 0, 4, 0, 0, 17]),
        Mnemonic::CFCMOVNO => Some(seq![1u8, 1, 65, 2, 1, 0, 0, 12, 2, 0, 4, 0, 0, 17]),
        Mnemonic::CFCMOVNP => Some(seq![1u8, 1, 75, 2, 1, 0, 0, 12, 2, 0, 4, 0, 0, 17]),
        Mnemonic::CFCMOVNS => Some(seq![1u8, 1, 73, 2, 1, 0, 0, 12, 2, 0, 4, 0, 0, 17]),
        Mnemonic::CFCMOVNZ => Some(seq![1u8, 1, 69, 2, 1, 0, 0, 12, 2, 0, 4, 0, 0, 17]),
        Mnemonic::CFCMOVO => Some(seq![1u8, 1, 64, 2, 1, 0, 0, 12, 2, 0, 4, 0, 0, 17]),
        Mnemonic::CFCMOVP => Some(seq![1u8, 1, 74, 2, 1, 0, 0, 12, 2, 0, 4, 0, 0, 17]),
        Mnemonic::CFCMOVPO => Some(seq![1u8, 1, 75, 2, 1, 0, 0, 12, 2, 0, 4, 0, 0, 17]),
        Mnemonic::CFCMOVS => Some(seq![1u8, 1, 72, 2, 1, 0, 0, 12, 2, 0, 4, 0, 0, 17]),
        Mnemonic::CFCMOVZ => Some(seq![1u8, 1, 68, 2, 1, 0, 0, 12, 2, 0, 4, 0, 0, 17]),
        Mnemonic::CFCMOVPE => Some(seq![1u8, 1, 74, 2, 1, 0, 0, 12, 2, 0, 4, 0, 0, 17]),
        Mnemonic::CFCMOVC => Some(seq![1u8, 1, 66, 2, 1, 0, 0, 12, 2, 0, 4, 0, 0, 17]),
        Mnemonic::CFCMOVNC => Some(seq![1u8, 1, 67, 2, 1, 0, 0, 12, 2, 0, 4, 0, 0, 17]),
        Mnemonic::PUSH2 => Some(seq![1u8, 1, 255, 2, 1, 1, 6, 3, 2, 2, 0, 12, 2, 0, 4, 0, 0]),
        Mnemonic::PUSH2P => Some(seq![1u8, 1, 255, 2, 1, 1, 6, 3, 2, 2, 0, 12, 2, 0, 4, 1, 0]),
        Mnemonic::POP2 => Some(seq![1u8, 1, 143, 2, 1, 0, 0, 3, 2, 2, 0, 12, 2, 0, 4, 0, 0]),
        Mnemonic::POP2P => Some(seq![1u8, 1, 143, 2, 1, 0, 0, 3, 2, 2, 0, 12, 2, 0, 4, 1, 0]),
        Mnemonic::RDGSBASE => Some(seq![1u8, 2, 15, 174, 6, 243, 4, 2, 1, 1, 1]),
        Mnemonic::RDFSBASE => Some(seq![1u8, 2, 15, 174, 6, 243, 4, 2, 1, 1, 0]),
        Mnemonic::MOVDIR64B => Some(seq![1u8, 3, 15, 56, 248, 6, 102, 4, 3, 2, 1, 0, 2, 1, 0, 0]),
        Mnemonic::WBNOINVD => Some(seq![1u8, 2, 15, 9, 6, 243]),
        Mnemonic::PREFETCHIT0 => Some(seq![1u8, 2, 15, 24, 2, 1, 1, 6]),
        Mnemonic::PREFETCHIT1 => Some(seq![1u8, 2, 15, 24, 2, 1, 1, 7]),
        Mnemonic::PTWRITE => Some(seq![1u8, 2, 15, 174, 6, 243, 2, 1, 1, 4]),
        Mnemonic::ENQCMD => Some(seq![1u8, 3, 15, 56, 248, 6, 242, 2, 1, 0, 0, 3, 2, 1, 0]),
        Mnemonic::AENQCMD => Some(seq![1u8, 1, 248, 2, 1, 0, 0, 3, 2, 1, 0, 12, 2, 242, 4, 0, 0]),
        Mnemonic::ENQCMDS => Some(seq![1u8, 3, 15, 56, 248, 6, 243, 2, 1, 0, 0, 3, 2, 1, 0]),
        Mnemonic::AENQCMDS => Some(seq![1u8, 1, 248, 2, 1, 0, 0, 3, 2, 1, 0, 12, 2, 243, 4, 0, 0]),
        Mnemonic::WRMSRLIST => Some(seq![1u8, 3, 15, 1, 198, 6, 243]),
        Mnemonic::RDMSRLIST => Some(seq![1u8, 3, 15, 1, 198, 6, 242]),
        Mnemonic::POPAW => Some(seq![1u8, 1, 97, 8, 2]),
        Mnemonic::POPAD => Some(seq![1u8, 1, 97, 8, 4]),
        Mnemonic::POPAQ => Some(seq![1u8, 1, 97, 8, 8]),
        Mnemonic::PUSHAW => Some(seq![1u8, 1, 96, 8, 2]),
        Mnemonic::PUSHAD => Some(seq![1u8, 1, 96, 8, 4]),
        Mnemonic::PUSHAQ => Some(seq![1u8, 1, 96, 8, 8]),
        Mnemonic::SIDT => Some(seq![1u8, 2, 15, 1, 2, 1, 1, 1, 9, 0]),
        Mnemonic::SGDT => Some(seq![1u8, 2, 15, 1, 2, 1, 1, 0, 9, 0]),
        Mnemonic::SLDT => Some(seq![1u8, 2, 15, 0, 2, 1, 1, 0, 9, 0]),
        Mnemonic::LFS => Some(seq![1u8, 2, 15, 180, 2, 1, 0, 0, 3, 2, 1, 0]),
        Mnemonic::LGS => Some(seq![1u8, 2, 15, 181, 2, 1, 0, 0, 3, 2, 1, 0]),
        Mnemonic::MOVSXD => Some(seq![1u8, 1, 99, 2, 1, 0, 0, 3, 2, 1, 0, 4]),
        Mnemonic::NOPL => Some(seq![1u8, 2, 15, 31, 2, 1, 1, 1]),
        Mnemonic::VMGEXIT => Some(seq![1u8, 3, 15, 1, 217, 6, 242]),
        Mnemonic::PSMASH => Some(seq![1u8, 3, 15, 1, 255, 6, 243]),
        Mnemonic::RMPUPDATE => Some(seq![1u8, 3, 15, 1, 254, 6, 242]),
        Mnemonic::PVALIDATE => Some(seq![1u8, 3, 15, 1, 255, 6, 242]),
        Mnemonic::RMPADJUST => Some(seq![1u8, 3, 15, 1, 254, 6, 243]),
        Mnemonic::RMPQUERY => Some(seq![1u8, 3, 15, 1, 253, 6, 243]),
        Mnemonic::RMPREAD => Some(seq![1u8, 3, 15, 1, 253, 6, 242]),
        Mnemonic::VMXON => Some(seq![1u8, 2, 15, 199, 6, 243, 2, 1, 1, 6]),
        Mnemonic::VMPTRLD => Some(seq![1u8, 2, 15, 199, 2, 1, 1, 6]),
        Mnemonic::VMPTRST => Some(seq![1u8, 2, 15, 199, 2, 1, 1, 7]),
        Mnemonic::VMCLEAR => Some(seq![1u8, 2, 15, 199, 2, 1, 1, 6, 6, 102]),
        Mnemonic::VMREAD => Some(seq![1u8, 2, 15, 120, 2, 1, 0, 0]),
        Mnemonic::VMWRITE => Some(seq![1u8, 2, 15, 121, 3, 2, 1, 0, 2, 1, 0, 0]),
        Mnemonic::INVEPT => Some(seq![1u8, 3, 15, 56, 128, 6, 102, 3, 2, 1, 0, 2, 1, 0, 0]),
        Mnemonic::INVVPID => Some(seq![1u8, 3, 15, 56, 129, 6, 102, 3, 2, 1, 0, 2, 1, 0, 0]),
        Mnemonic::SEAMOPS => Some(seq![1u8, 3, 15, 1, 206, 6, 102]),
        Mnemonic::SEAMRET => Some(seq![1u8, 3, 15, 1, 205, 6, 102]),
        Mnemonic::SEAMCALL => Some(seq![1u8, 3, 15, 1, 207, 6, 102]),
        Mnemonic::TDCALL => Some(seq![1u8, 3, 15, 1, 204, 6, 102]),
        Mnemonic::FNSTCW => Some(seq![1u8, 1, 217, 2, 1, 1, 7]),
        Mnemonic::FSTCW => Some(seq![1u8, 2, 155, 217, 2, 1, 1, 7]),
        Mnemonic::FNSTSW => Some(seq![1u8, 1, 221, 2, 1, 1, 7]),
        Mnemonic::FSTSW => Some(seq![1u8, 2, 155, 221, 2, 1, 1, 7]),
        Mnemonic::FLDCW => Some(seq![1u8, 1, 217, 2, 1, 1, 5]),
        Mnemonic::FLDENV => Some(seq![1u8, 1, 217, 2, 1, 1, 4]),
        Mnemonic::FNSTENV => Some(seq![1u8, 1, 217, 2, 1, 1, 6]),
        Mnemonic::FSTENV => Some(seq![1u8, 2, 155, 217, 2, 1, 1, 6]),
        Mnemonic::FNSAVE => Some(seq![1u8, 1, 221, 2, 1, 1, 6]),
        Mnemonic::FSAVE => Some(seq![1u8, 2, 155, 221, 2, 1, 1, 6]),
        Mnemonic::FRSTOR => Some(seq![1u8, 1, 221, 2, 1, 1, 4]),
        Mnemonic::FBLD => Some(seq![1u8, 1, 223, 2, 1, 1, 4]),
        Mnemonic::FBSTP => Some(seq![1u8, 1, 223, 2, 1, 1, 6]),
        _ => None,
    }
}

/// The layout program of a mnemonic of part 10 of the table.
fn prog_10(m: Mnemonic) -> (r: Option<Vec<u8>>)
    ensures
        match spec_prog_10(m) {
            Some(p) => r matches Some(v) && v@ == p,
            None => r is None,
        },
{
    proof {
        reveal(spec_prog_10);
    }
    match m {
        Mnemonic::ASHRX => Some(vec![1u8, 1, 247, 2, 1, 0, 0, 3, 3, 1, 0, 2, 15, 1, 242, 2, 0, 0]),
        Mnemonic::ATZCNT => Some(vec![1u8, 1, 244, 2, 1, 0, 0, 3, 2, 1, 0, 12, 2, 0, 4, 0, 0]),
        Mnemonic::JMPABS => Some(vec![1u8, 1, 161, 5, 0, 8, 12, 5, 0, 0, 0, 0]),
        Mnemonic::SETOZU => Some(vec![1u8, 1, 64, 2, 1, 0, 0, 12, 2, 242, 4, 0, 0]),
        Mnemonic::SETNOZU => Some(vec![1u8, 1, 65, 2, 1, 0, 0, 12, 2, 242, 4, 0, 0]),
        Mnemonic::SETEZU | Mnemonic::SETZZU => Some(vec![1u8, 1, 68, 2, 1, 0, 0, 12, 2, 242, 4, 0, 0]),
        Mnemonic::SETSZU => Some(vec![1u8, 1, 72, 2, 1, 0, 0, 12, 2, 242, 4, 0, 0]),
        Mnemonic::SETNSZU => Some(vec![1u8, 1, 73, 2, 1, 0, 0, 12, 2, 242, 4, 0, 0]),
        Mnemonic::CFCMOVA => Some(vec![1u8, 1, 71, 2, 1, 0, 0, 12, 2, 0, 4, 0, 0, 17]),
        Mnemonic::CFCMOVAE => Some(vec![1u8, 1, 67, 2, 1, 0, 0, 12, 2, 0, 4, 0, 0, 17]),
        Mnemonic::CFCMOVB => Some(vec![1u8, 1, 66, 2, 1, 0, 0, 12, 2, 0, 4, 0, 0, 17]),
        Mnemonic::CFCMOVBE => Some(vec![1u8, 1, 70, 2, 1, 0, 0, 12, 2, 0, 4, 0, 0, 17]),
        Mnemonic::CFCMOVE => Some(vec![1u8, 1, 68, 2, 1, 0, 0, 12, 2, 0, 4, 0, 0, 17]),
        Mnemonic::CFCMOVG => Some(vec![1u8, 1, 79, 2, 1, 0, 0, 12, 2, 0, 4, 0, 0, 17]),
        Mnemonic::CFCMOVGE => Some(vec![1u8, 1, 77, 2, 1, 0, 0, 12, 2, 0, 4, 0, 0, 17]),
        Mnemonic::CFCMOVL => Some(vec![1u8, 1, 76, 2, 1, 0, 0, 12, 2, 0, 4, 0, 0, 17]),
        Mnemonic::CFCMOVLE => Some(vec![1u8, 1, 78, 2, 1, 0, 0, 12, 2, 0, 4, 0, 0, 17]),
        Mnemonic::CFCMOVNA => Some(vec![1u8, 1, 70, 2, 1, 0, 0, 12, 2, 0, 4, 0, 0, 17]),
        Mnemonic::CFCMOVNB => Some(vec![1u8, 1, 67, 2, 1, 0, 0, 12, 2, 0, 4, 0, 0, 17]),
        Mnemonic::CFCMOVNBE => Some(vec![1u8, 1, 71, 2, 1, 0, 0, 12, 2, 0, 4, 0, 0, 17]),
        Mnemonic::CFCMOVNE => Some(vec![1u8, 1, 69, 2, 1, 0, 0, 12, 2, 0, 4, 0, 0, 17]),
        Mnemonic::CFCMOVNG => Some(vec![1u8, 1, 78, 2, 1, 0, 0, 12, 2, 0, 4, 0, 0, 17]),
        Mnemonic::CFCMOVNGE => Some(vec![1u8, 1, 76, 2, 1, 0, 0, 12, 2, 0, 4, 0, 0, 17]),
        Mnemonic::CFCMOVNL => Some(vec![1u8, 1, 77, 2, 1, 0, 0, 12, 2, 0, 4, 0, 0, 17]),
        Mnemonic::CFCMOVNLE => Some(vec![1u8, 1, 79, 2, 1, 0, 0, 12, 2, 0, 4, 0, 0, 17]),
        Mnemonic::CFCMOVNAE => Some(vec![1u8, 1, 66, 2, 1, 0, 0, 12, 2, 0, 4, 0, 0, 17]),
        Mnemonic::CFCMOVNO => Some(vec![1u8, 1, 65, 2, 1, 0, 0, 12, 2, 0, 4, 0, 0, 17]),
        Mnemonic::CFCMOVNP => Some(vec![1u8, 1, 75, 2, 1, 0, 0, 12, 2, 0, 4, 0, 0, 17]),
        Mnemonic::CFCMOVNS => Some(vec![1u8, 1, 73, 2, 1, 0, 0, 12, 2, 0, 4, 0, 0, 17]),
        Mnemonic::CFCMOVNZ => Some(vec![1u8, 1, 69, 2, 1, 0, 0, 12, 2, 0, 4, 0, 0, 17]),
        Mnemonic::CFCMOVO => Some(vec![1u8, 1, 64, 2, 1, 0, 0, 12, 2, 0, 4, 0, 0, 17]),
        Mnemonic::CFCMOVP => Some(vec![1u8, 1, 74, 2, 1, 0, 0, 12, 2, 0, 4, 0, 0, 17]),
        Mnemonic::CFCMOVPO => Some(vec![1u8, 1, 75, 2, 1, 0, 0, 12, 2, 0, 4, 0, 0, 17]),
        Mnemonic::CFCMOVS => Some(vec![1u8, 1, 72, 2, 1, 0, 0, 12, 2, 0, 4, 0, 0, 17]),
        Mnemonic::CFCMOVZ => Some(vec![1u8, 1, 68, 2, 1, 0, 0, 12, 2, 0, 4, 0, 0, 17]),
        Mnemonic::CFCMOVPE => Some(vec![1u8, 1, 74, 2, 1, 0, 0, 12, 2, 0, 4, 0, 0, 17]),
        Mnemonic::CFCMOVC => Some(vec![1u8, 1, 66, 2, 1, 0, 0, 12, 2, 0, 4, 0, 0, 17]),
        Mnemonic::CFCMOVNC => Some(vec![1u8, 1, 67, 2, 1, 0, 0, 12, 2, 0, 4, 0, 0, 17]),
        Mnemonic::PUSH2 => Some(vec![1u8, 1, 255, 2, 1, 1, 6, 3, 2, 2, 0, 12, 2, 0, 4, 0, 0]),
        Mnemonic::PUSH2P => Some(vec![1u8, 1, 255, 2, 1, 1, 6, 3, 2, 2, 0, 12, 2, 0, 4, 1, 0]),
        Mnemonic::POP2 => Some(vec![1u8, 1, 143, 2, 1, 0, 0, 3, 2, 2, 0, 12, 2, 0, 4, 0, 0]),
        Mnemonic::POP2P => Some(vec![1u8, 1, 143, 2, 1, 0, 0, 3, 2, 2, 0, 12, 2, 0, 4, 1, 0]),
        Mnemonic::RDGSBASE => Some(vec![1u8, 2, 15, 174, 6, 243, 4, 2, 1, 1, 1]),
        Mnemonic::RDFSBASE => Some(vec![1u8, 2, 15, 174, 6, 243, 4, 2, 1, 1, 0]),
        Mnemonic::MOVDIR64B => Some(vec![1u8, 3, 15, 56, 248, 6, 102, 4, 3, 2, 1, 0, 2, 1, 0, 0]),
        Mnemonic::WBNOINVD => Some(vec![1u8, 2, 15, 9, 6, 243]),
        Mnemonic::PREFETCHIT0 => Some(vec![1u8, 2, 15, 24, 2, 1, 1, 6]),
        Mnemonic::PREFETCHIT1 => Some(vec![1u8, 2, 15, 24, 2, 1, 1, 7]),
        Mnemonic::PTWRITE => Some(vec![1u8, 2, 15, 174, 6, 243, 2, 1, 1, 4]),
        Mnemonic::ENQCMD => Some(vec![1u8, 3, 15, 56, 248, 6, 242, 2, 1, 0, 0, 3, 2, 1, 0]),
        Mnemonic::AENQCMD => Some(vec![1u8, 1, 248, 2, 1, 0, 0, 3, 2, 1, 0, 12, 2, 242, 4, 0, 0]),
        Mnemonic::ENQCMDS => Some(vec![1u8, 3, 15, 56, 248, 6, 243, 2, 1, 0, 0, 3, 2, 1, 0]),
        Mnemonic::AENQCMDS => Some(vec![1u8, 1, 248, 2, 1, 0, 0, 3, 2, 1, 0, 12, 2, 243, 4, 0, 0]),
        Mnemonic::WRMSRLIST => Some(vec![1u8, 3, 15, 1, 198, 6, 243]),
        Mnemonic::RDMSRLIST => Some(vec![1u8, 3, 15, 1, 198, 6, 242]),
        Mnemonic::POPAW => Some(vec![1u8, 1, 97, 8, 2]),
        Mnemonic::POPAD => Some(vec![1u8, 1, 97, 8, 4]),
        Mnemonic::POPAQ => Some(vec![1u8, 1, 97, 8, 8]),
        Mnemonic::PUSHAW => Some(vec![1u8, 1, 96, 8, 2]),
        Mnemonic::PUSHAD => Some(vec![1u8, 1, 96, 8, 4]),
        Mnemonic::PUSHAQ => Some(vec![1u8, 1, 96, 8, 8]),
        Mnemonic::SIDT => Some(vec![1u8, 2, 15, 1, 2, 1, 1, 1, 9, 0]),
        Mnemonic::SGDT => Some(vec![1u8, 2, 15, 1, 2, 1, 1, 0, 9, 0]),
        Mnemonic::SLDT => Some(vec![1u8, 2, 15, 0, 2, 1, 1, 0, 9, 0]),
        Mnemonic::LFS => Some(vec![1u8, 2, 15, 180, 2, 1, 0, 0, 3, 2, 1, 0]),
        Mnemonic::LGS => Some(vec![1u8, 2, 15, 181, 2, 1, 0, 0, 3, 2, 1, 0]),
        Mnemonic::MOVSXD => Some(vec![1u8, 1, 99, 2, 1, 0, 0, 3, 2, 1, 0, 4]),
        Mnemonic::NOPL => Some(vec![1u8, 2, 15, 31, 2, 1, 1, 1]),
        Mnemonic::VMGEXIT => Some(vec![1u8, 3, 15, 1, 217, 6, 242]),
        Mnemonic::PSMASH => Some(vec![1u8, 3, 15, 1, 255, 6, 243]),
        Mnemonic::RMPUPDATE => Some(vec![1u8, 3, 15, 1, 254, 6, 242]),
        Mnemonic::PVALIDATE => Some(vec![1u8, 3, 15, 1, 255, 6, 242]),
        Mnemonic::RMPADJUST => Some(vec![1u8, 3, 15, 1, 254, 6, 243]),
        Mnemonic::RMPQUERY => Some(vec![1u8, 3, 15, 1, 253, 6, 243]),
        Mnemonic::RMPREAD => Some(vec![1u8, 3, 15, 1, 253, 6, 242]),
        Mnemonic::VMXON => Some(vec![1u8, 2, 15, 199, 6, 243, 2, 1, 1, 6]),
        Mnemonic::VMPTRLD => Some(vec![1u8, 2, 15, 199, 2, 1, 1, 6]),
        Mnemonic::VMPTRST => Some(vec![1u8, 2, 15, 199, 2, 1, 1, 7]),
        Mnemonic::VMCLEAR => Some(vec![1u8, 2, 15, 199, 2, 1, 1, 6, 6, 102]),
        Mnemonic::VMREAD => Some(vec![1u8, 2, 15, 120, 2, 1, 0, 0]),
        Mnemonic::VMWRITE => Some(vec![1u8, 2, 15, 121, 3, 2, 1, 0, 2, 1, 0, 0]),
        Mnemonic::INVEPT => Some(vec![1u8, 3, 15, 56, 128, 6, 102, 3, 2, 1, 0, 2, 1, 0, 0]),
        Mnemonic::INVVPID => Some(vec![1u8, 3, 15, 56, 129, 6, 102, 3, 2, 1, 0, 2, 1, 0, 0]),
        Mnemonic::SEAMOPS => Some(vec![1u8, 3, 15, 1, 206, 6, 102]),
        Mnemonic::SEAMRET => Some(vec![1u8, 3, 15, 1, 205, 6, 102]),
        Mnemonic::SEAMCALL => Some(vec![1u8, 3, 15, 1, 207, 6, 102]),
        Mnemonic::TDCALL => Some(vec![1u8, 3, 15, 1, 204, 6, 102]),
        Mnemonic::FNSTCW => Some(vec![1u8, 1, 217, 2, 1, 1, 7]),
        Mnemonic::FSTCW => Some(vec![1u8, 2, 155, 217, 2, 1, 1, 7]),
        Mnemonic::FNSTSW => Some(vec![1u8, 1, 221, 2, 1, 1, 7]),
        Mnemonic::FSTSW => Some(vec![1u8, 2, 155, 221, 2, 1, 1, 7]),
        Mnemonic::FLDCW => Some(vec![1u8, 1, 217, 2, 1, 1, 5]),
        Mnemonic::FLDENV => Some(vec![1u8, 1, 217, 2, 1, 1, 4]),
        Mnemonic::FNSTENV => Some(vec![1u8, 1, 217, 2, 1, 1, 6]),
        Mnemonic::FSTENV => Some(vec![1u8, 2, 155, 217, 2, 1, 1, 6]),
        Mnemonic::FNSAVE => Some(vec![1u8, 1, 221, 2, 1, 1, 6]),
        Mnemonic::FSAVE => Some(vec![1u8, 2, 155, 221, 2, 1, 1, 6]),
        Mnemonic::FRSTOR => Some(vec![1u8, 1, 221, 2, 1, 1, 4]),
        Mnemonic::FBLD => Some(vec![1u8, 1, 223, 2, 1, 1, 4]),
        Mnemonic::FBSTP => Some(vec![1u8, 1, 223, 2, 1, 1, 6]),
        _ => None,
    }
}

/// Layout programs (see `run_prog`) of the mnemonics of part 11 of the table.
#[verifier::opaque]
pub open spec fn spec_prog_11(m: Mnemonic) -> Option<Seq<u8>> {
    match m {
        Mnemonic::FXSAVE => Some(seq![1u8, 2, 15, 174, 2, 1, 1, 0]),
        Mnemonic::FXRSTOR => Some(seq![1u8, 2, 15, 174, 2, 1, 1, 1]),
        Mnemonic::FXSAVE64 => Some(seq![1u8, 3, 72, 15, 174, 2, 1, 1, 0]),
        Mnemonic::FXRSTOR64 => Some(seq![1u8, 3, 72, 15, 174, 2, 1, 1, 1]),
        Mnemonic::LOADIWKEY => Some(seq![1u8, 3, 15, 56, 220, 6, 243, 2, 1, 0, 0]),
        Mnemonic::ENCODEKEY128 => Some(seq![1u8, 3, 15, 56, 250, 6, 243, 2, 1, 0, 0]),
        Mnemonic::ENCODEKEY256 => Some(seq![1u8, 3, 15, 56, 251, 6, 243, 2, 1, 0, 0]),
        Mnemonic::AESENC128KL => Some(seq![1u8, 3, 15, 56, 220, 6, 243, 2, 1, 0, 0]),
        Mnemonic::AESDEC128KL => Some(seq![1u8, 3, 15, 56, 221, 6, 243, 2, 1, 0, 0]),
        Mnemonic::AESENC256KL => Some(seq![1u8, 3, 15, 56, 222, 6, 243, 2, 1, 0, 0]),
        Mnemonic::AESDEC256KL => Some(seq![1u8, 3, 15, 56, 223, 6, 243, 2, 1, 0, 0]),
        Mnemonic::AESENCWIDE128KL => Some(seq![1u8, 3, 15, 56, 216, 6, 243, 2, 1, 1, 0]),
        Mnemonic::AESDECWIDE128KL => Some(seq![1u8, 3, 15, 56, 216, 6, 243, 2, 1, 1, 1]),
        Mnemonic::AESENCWIDE256KL => Some(seq![1u8, 3, 15, 56, 216, 6, 243, 2, 1, 1, 2]),
        Mnemonic::AESDECWIDE256KL => Some(seq![1u8, 3, 15, 56, 216, 6, 243, 2, 1, 1, 3]),
        Mnemonic::CMPAXADD => Some(seq![1u8, 1, 231, 2, 1, 0, 0, 3, 3, 0, 1, 2, 14, 102, 56, 0, 0]),
        Mnemonic::CMPAEXADD => Some(seq![1u8, 1, 227, 2, 1, 0, 0, 3, 3, 0, 1, 2, 14, 102, 56, 0, 0]),
        Mnemonic::CMPBXADD => Some(seq![1u8, 1, 226, 2, 1, 0, 0, 3, 3, 0, 1, 2, 14, 102, 56, 0, 0]),
        Mnemonic::CMPBEXADD => Some(seq![1u8, 1, 230, 2, 1, 0, 0, 3, 3, 0, 1, 2, 14, 102, 56, 0, 0]),
        Mnemonic::CMPCXADD => Some(seq![1u8, 1, 226, 2, 1, 0, 0, 3, 3, 0, 1, 2, 14, 102, 56, 0, 0]),
        Mnemonic::CMPNCXADD => Some(seq![1u8, 1, 227, 2, 1, 0, 0, 3, 3, 0, 1, 2, 14, 102, 56, 0, 0]),
        Mnemonic::CMPEXADD => Some(seq![1u8, 1, 228, 2, 1, 0, 0, 3, 3, 0, 1, 2, 14, 102, 56, 0, 0]),
        Mnemonic::CMPGXADD => Some(seq![1u8, 1, 239, 2, 1, 0, 0, 3, 3, 0, 1, 2, 14, 102, 56, 0, 0]),
        Mnemonic::CMPGEXADD => Some(seq![1u8, 1, 237, 2, 1, 0, 0, 3, 3, 0, 1, 2, 14, 102, 56, 0, 0]),
        Mnemonic::CMPLXADD => Some(seq![1u8, 1, 236, 2, 1, 0, 0, 3, 3, 0, 1, 2, 14, 102, 56, 0, 0]),
        Mnemonic::CMPLEXADD => Some(seq![1u8, 1, 238, 2, 1, 0, 0, 3, 3, 0, 1, 2, 14, 102, 56, 0, 0]),
        Mnemonic::CMPNAXADD => Some(seq![1u8, 1, 230, 2, 1, 0, 0, 3, 3, 0, 1, 2, 14, 102, 56, 0, 0]),
        Mnemonic::CMPNBXADD => Some(seq![1u8, 1, 227, 2, 1, 0, 0, 3, 3, 0, 1, 2, 14, 102, 56, 0, 0]),
        Mnemonic::CMPNBEXADD => Some(seq![1u8, 1, 231, 2, 1, 0, 0, 3, 3, 0, 1, 2, 14, 102, 56, 0, 0]),
        Mnemonic::CMPNEXADD => Some(seq![1u8, 1, 229, 2, 1, 0, 0, 3, 3, 0, 1, 2, 14, 102, 56, 0, 0]),
        Mnemonic::CMPNGXADD => Some(seq![1u8, 1, 238, 2, 1, 0, 0, 3, 3, 0, 1, 2, 14, 102, 56, 0, 0]),
        Mnemonic::CMPNGEXADD => Some(seq![1u8, 1, 236, 2, 1, 0, 0, 3, 3, 0, 1, 2, 14, 102, 56, 0, 0]),
        Mnemonic::CMPNLXADD => Some(seq![1u8, 1, 237, 2, 1, 0, 0, 3, 3, 0, 1, 2, 14, 102, 56, 0, 0]),
        Mnemonic::CMPNLEXADD => Some(seq![1u8, 1, 239, 2, 1, 0, 0, 3, 3, 0, 1, 2, 14, 102, 56, 0, 0]),
        Mnemonic::CMPNAEXADD => Some(seq![1u8, 1, 226, 2, 1, 0, 0, 3, 3, 0, 1, 2, 14, 102, 56, 0, 0]),
        Mnemonic::CMPNOXADD => Some(seq![1u8, 1, 225, 2, 1, 0, 0, 3, 3, 0, 1, 2, 14, 102, 56, 0, 0]),
        Mnemonic::CMPNSXADD => Some(seq![1u8, 1, 233, 2, 1, 0, 0, 3, 3, 0, 1, 2, 14, 102, 56, 0, 0]),
        Mnemonic::CMPNZXADD => Some(seq![1u8, 1, 229, 2, 1, 0, 0, 3, 3, 0, 1, 2, 14, 102, 56, 0, 0]),
        Mnemonic::CMPOXADD => Some(seq![1u8, 1, 224, 2, 1, 0, 0, 3, 3, 0, 1, 2, 14, 102, 56, 0, 0]),
        Mnemonic::CMPSXADD => Some(seq![1u8, 1, 232, 2, 1, 0, 0, 3, 3, 0, 1, 2, 14, 102, 56, 0, 0]),
        Mnemonic::CMPZXADD => Some(seq![1u8, 1, 228, 2, 1, 0, 0, 3, 3, 0, 1, 2, 14, 102, 56, 0, 0]),
        Mnemonic::ACMPAXADD => Some(seq![1u8, 1, 231, 2, 1, 0, 0, 3, 3, 0, 1, 2, 15, 1, 102, 2, 0, 0]),
        Mnemonic::ACMPAEXADD => Some(seq![1u8, 1, 227, 2, 1, 0, 0, 3, 3, 0, 1, 2, 15, 1, 102, 2, 0, 0]),
        Mnemonic::ACMPBXADD => Some(seq![1u8, 1, 226, 2, 1, 0, 0, 3, 3, 0, 1, 2, 15, 1, 102, 2, 0, 0]),
        Mnemonic::ACMPBEXADD => Some(seq![1u8, 1, 230, 2, 1, 0, 0, 3, 3, 0, 1, 2, 15, 1, 102, 2, 0, 0]),
        Mnemonic::ACMPCXADD => Some(seq![1u8, 1, 226, 2, 1, 0, 0, 3, 3, 0, 1, 2, 15, 1, 102, 2, 0, 0]),
        Mnemonic::ACMPNCXADD => Some(seq![1u8, 1, 227, 2, 1, 0, 0, 3, 3, 0, 1, 2, 15, 1, 102, 2, 0, 0]),
        Mnemonic::ACMPEXADD => Some(seq![1u8, 1, 228, 2, 1, 0, 0, 3, 3, 0, 1, 2, 15, 1, 102, 2, 0, 0]),
        Mnemonic::ACMPGXADD => Some(seq![1u8, 1, 239, 2, 1, 0, 0, 3, 3, 0, 1, 2, 15, 1, 102, 2, 0, 0]),
        Mnemonic::ACMPGEXADD => Some(seq![1u8, 1, 237, 2, 1, 0, 0, 3, 3, 0, 1, 2, 15, 1, 102, 2, 0, 0]),
        Mnemonic::ACMPLXADD => Some(seq![1u8, 1, 236, 2, 1, 0, 0, 3, 3, 0, 1, 2, 15, 1, 102, 2, 0, 0]),
        Mnemonic::ACMPLEXADD => Some(seq![1u8, 1, 238, 2, 1, 0, 0, 3, 3, 0, 1, 2, 15, 1, 102, 2, 0, 0]),
        Mnemonic::ACMPNAXADD => Some(seq![1u8, 1, 230, 2, 1, 0, 0, 3, 3, 0, 1, 2, 15, 1, 102, 2, 0, 0]),
        Mnemonic::ACMPNBXADD => Some(seq![1u8, 1, 227, 2, 1, 0, 0, 3, 3, 0, 1, 2, 15, 1, 102, 2, 0, 0]),
        Mnemonic::ACMPNBEXADD => Some(seq![1u8, 1, 231, 2, 1, 0, 0, 3, 3, 0, 1, 2, 15, 1, 102, 2, 0, 0]),
        Mnemonic::ACMPNEXADD => Some(seq![1u8, 1, 229, 2, 1, 0, 0, 3, 3, 0, 1, 2, 15, 1, 102, 2, 0, 0]),
        Mnemonic::ACMPNGXADD => Some(seq![1u8, 1, 238, 2, 1, 0, 0, 3, 3, 0, 1, 2, 15, 1, 102, 2, 0, 0]),
        Mnemonic::ACMPNGEXADD => Some(seq![1u8, 1, 236, 2, 1, 0, 0, 3, 3, 0, 1, 2, 15, 1, 102, 2, 0, 0]),
        Mnemonic::ACMPNLXADD => Some(seq![1u8, 1, 237, 2, 1, 0, 0, 3, 3, 0, 1, 2, 15, 1, 102, 2, 0, 0]),
        Mnemonic::ACMPNLEXADD => Some(seq![1u8, 1, 239, 2, 1, 0, 0, 3, 3, 0, 1, 2, 15, 1, 102, 2, 0, 0]),
        Mnemonic::ACMPNAEXADD => Some(seq![1u8, 1, 226, 2, 1, 0, 0, 3, 3, 0, 1, 2, 15, 1, 102, 2, 0, 0]),
        Mnemonic::ACMPNOXADD => Some(seq![1u8, 1, 225, 2, 1, 0, 0, 3, 3, 0, 1, 2, 15, 1, 102, 2, 0, 0]),
        Mnemonic::ACMPNSXADD => Some(seq![1u8, 1, 233, 2, 1, 0, 0, 3, 3, 0, 1, 2, 15, 1, 102, 2, 0, 0]),
        Mnemonic::ACMPNZXADD => Some(seq![1u8, 1, 229, 2, 1, 0, 0, 3, 3, 0, 1, 2, 15, 1, 102, 2, 0, 0]),
        Mnemonic::ACMPOXADD => Some(seq![1u8, 1, 224, 2, 1, 0, 0, 3, 3, 0, 1, 2, 15, 1, 102, 2, 0, 0]),
        Mnemonic::ACMPSXADD => Some(seq![1u8, 1, 232, 2, 1, 0, 0, 3, 3, 0, 1, 2, 15, 1, 102, 2, 0, 0]),
        Mnemonic::ACMPZXADD => Some(seq![1u8, 1, 228, 2, 1, 0, 0, 3, 3, 0, 1, 2, 15, 1, 102, 2, 0, 0]),
        Mnemonic::ENCLV => Some(seq![1u8, 3, 15, 1, 32]),
        Mnemonic::ENCLS => Some(seq![1u8, 3, 15, 1, 207]),
        Mnemonic::ENCLU => Some(seq![1u8, 3, 15, 1, 215]),
        Mnemonic::INCSSPD => Some(seq![1u8, 2, 15, 174, 6, 243, 2, 1, 1, 5]),
        Mnemonic::INCSSPQ => Some(seq![4u8, 1, 2, 15, 174, 6, 243, 2, 1, 1, 5]),
        Mnemonic::SAVEPREVSSP => Some(seq![1u8, 4, 15, 1, 234, 42, 6, 243]),
        Mnemonic::WRSSD => Some(seq![1u8, 3, 15, 56, 246, 2, 1, 0, 0]),
        Mnemonic::WRSSQ => Some(seq![4u8, 1, 3, 15, 56, 246, 2, 1, 0, 0]),
        Mnemonic::WRUSSD => Some(seq![6u8, 102, 1, 3, 15, 56, 245, 2, 1, 0, 0]),
        Mnemonic::WRUSSQ => Some(seq![4u8, 6, 102, 1, 3, 15, 56, 245, 2, 1, 0, 0]),
        Mnemonic::CLRSSBSY => Some(seq![4u8, 1, 2, 15, 174, 2, 1, 1, 6, 6, 243]),
        Mnemonic::AWRSSD => Some(seq![1u8, 1, 102, 2, 1, 0, 0, 12, 2, 0, 4, 0, 0]),
        Mnemonic::AWRSSQ => Some(seq![1u8, 1, 102, 2, 1, 0, 0, 12, 2, 0, 4, 1, 0]),
        Mnemonic::AWRUSSD => Some(seq![1u8, 1, 101, 2, 1, 0, 0, 12, 2, 102, 4, 0, 0]),
        Mnemonic::AWRUSSQ => Some(seq![1u8, 1, 101, 2, 1, 0, 0, 12, 2, 102, 4, 1, 0]),
        Mnemonic::PMOVSXBW => Some(seq![1u8, 3, 15, 56, 32, 2, 1, 0, 0, 6, 102, 3, 2, 1, 0]),
        Mnemonic::PMOVSXBD => Some(seq![1u8, 3, 15, 56, 33, 2, 1, 0, 0, 6, 102, 3, 2, 1, 0]),
        Mnemonic::PMOVSXBQ => Some(seq![1u8, 3, 15, 56, 34, 2, 1, 0, 0, 6, 102, 3, 2, 1, 0]),
        Mnemonic::PMOVSXWD => Some(seq![1u8, 3, 15, 56, 35, 2, 1, 0, 0, 6, 102, 3, 2, 1, 0]),
        Mnemonic::PMOVSXWQ => Some(seq![1u8, 3, 15, 56, 36, 2, 1, 0, 0, 6, 102, 3, 2, 1, 0]),
        Mnemonic::PMOVSXDQ => Some(seq![1u8, 3, 15, 56, 37, 2, 1, 0, 0, 6, 102, 3, 2, 1, 0]),
        Mnemonic::PMOVZXBW => Some(seq![1u8, 3, 15, 56, 48, 2, 1, 0, 0, 6, 102, 3, 2, 1, 0]),
        Mnemonic::PMOVZXBD => Some(seq![1u8, 3, 15, 56, 49, 2, 1, 0, 0, 6, 102, 3, 2, 1, 0]),
        Mnemonic::PMOVZXBQ => Some(seq![1u8, 3, 15, 56, 50, 2, 1, 0, 0, 6, 102, 3, 2, 1, 0]),
        Mnemonic::PMOVZXWD => Some(seq![1u8, 3, 15, 56, 51, 2, 1, 0, 0, 6, 102, 3, 2, 1, 0]),
        Mnemonic::PMOVZXWQ => Some(seq![1u8, 3, 15, 56, 52, 2, 1, 0, 0, 6, 102, 3, 2, 1, 0]),
        Mnemonic::PMOVZXDQ => Some(seq![1u8, 3, 15, 56, 53, 2, 1, 0, 0, 6, 102, 3, 2, 1, 0]),
        Mnemonic::VPMOVSXBW => Some(seq![1u8, 1, 32, 2, 1, 0, 0, 10, 102, 56, 0, 0, 3, 2, 1, 0]),
        Mnemonic::VPMOVSXBD => Some(seq![1u8, 1, 33, 2, 1, 0, 0, 10, 102, 56, 0, 0, 3, 2, 1, 0]),
        Mnemonic::VPMOVSXBQ => Some(seq![1u8, 1, 34, 2, 1, 0, 0, 10, 102, 56, 0, 0, 3, 2, 1, 0]),
        Mnemonic::VPMOVSXWD => Some(seq![1u8, 1, 35, 2, 1, 0, 0, 10, 102, 56, 0, 0, 3, 2, 1, 0]),
        Mnemonic::VPMOVSXWQ => Some(seq![1u8, 1, 36, 2, 1, 0, 0, 10, 102, 56, 0, 0, 3, 2, 1, 0]),
        Mnemonic::VPMOVSXDQ => Some(seq![1u8, 1, 37, 2, 1, 0, 0, 10, 102, 56, 0, 0, 3, 2, 1, 0]),
        _ => None,
    }
}

/// The layout program of a mnemonic of part 11 of the table.
fn prog_11(m: Mnemonic) -> (r: Option<Vec<u8>>)
    ensures
        match spec_prog_11(m) {
            Some(p) => r matches Some(v) && v@ == p,
            None => r is None,
        },
{
    proof {
        reveal(spec_prog_11);
    }
    match m {
        Mnemonic::FXSAVE => Some(vec![1u8, 2, 15, 174, 2, 1, 1, 0]),
        Mnemonic::FXRSTOR => Some(vec![1u8, 2, 15, 174, 2, 1, 1, 1]),
        Mnemonic::FXSAVE64 => Some(vec![1u8, 3, 72, 15, 174, 2, 1, 1, 0]),
        Mnemonic::FXRSTOR64 => Some(vec![1u8, 3, 72, 15, 174, 2, 1, 1, 1]),
        Mnemonic::LOADIWKEY => Some(vec![1u8, 3, 15, 56, 220, 6, 243, 2, 1, 0, 0]),
        Mnemonic::ENCODEKEY128 => Some(vec![1u8, 3, 15, 56, 250, 6, 243, 2, 1, 0, 0]),
        Mnemonic::ENCODEKEY256 => Some(vec![1u8, 3, 15, 56, 251, 6, 243, 2, 1, 0, 0]),
        Mnemonic::AESENC128KL => Some(vec![1u8, 3, 15, 56, 220, 6, 243, 2, 1, 0, 0]),
        Mnemonic::AESDEC128KL => Some(vec![1u8, 3, 15, 56, 221, 6, 243, 2, 1, 0, 0]),
        Mnemonic::AESENC256KL => Some(vec![1u8, 3, 15, 56, 222, 6, 243, 2, 1, 0, 0]),
        Mnemonic::AESDEC256KL => Some(vec![1u8, 3, 15, 56, 223, 6, 243, 2, 1, 0, 0]),
        Mnemonic::AESENCWIDE128KL => Some(vec![1u8, 3, 15, 56, 216, 6, 243, 2, 1, 1, 0]),
        Mnemonic::AESDECWIDE128KL => Some(vec![1u8, 3, 15, 56, 216, 6, 243, 2, 1, 1, 1]),
        Mnemonic::AESENCWIDE256KL => Some(vec![1u8, 3, 15, 56, 216, 6, 243, 2, 1, 1, 2]),
        Mnemonic::AESDECWIDE256KL => Some(vec![1u8, 3, 15, 56, 216, 6, 243, 2, 1, 1, 3]),
        Mnemonic::CMPAXADD => Some(vec![1u8, 1, 231, 2, 1, 0, 0, 3, 3, 0, 1, 2, 14, 102, 56, 0, 0]),
        Mnemonic::CMPAEXADD => Some(vec![1u8, 1, 227, 2, 1, 0, 0, 3, 3, 0, 1, 2, 14, 102, 56, 0, 0]),
        Mnemonic::CMPBXADD => Some(vec![1u8, 1, 226, 2, 1, 0, 0, 3, 3, 0, 1, 2, 14, 102, 56, 0, 0]),
        Mnemonic::CMPBEXADD => Some(vec![1u8, 1, 230, 2, 1, 0, 0, 3, 3, 0, 1, 2, 14, 102, 56, 0, 0]),
        Mnemonic::CMPCXADD => Some(vec![1u8, 1, 226, 2, 1, 0, 0, 3, 3, 0, 1, 2, 14, 102, 56, 0, 0]),
        Mnemonic::CMPNCXADD => Some(vec![1u8, 1, 227, 2, 1, 0, 0, 3, 3, 0, 1, 2, 14, 102, 56, 0, 0]),
        Mnemonic::CMPEXADD => Some(vec![1u8, 1, 228, 2, 1, 0, 0, 3, 3, 0, 1, 2, 14, 102, 56, 0, 0]),
        Mnemonic::CMPGXADD => Some(vec![1u8, 1, 239, 2, 1, 0, 0, 3, 3, 0, 1, 2, 14, 102, 56, 0, 0]),
        Mnemonic::CMPGEXADD => Some(vec![1u8, 1, 237, 2, 1, 0, 0, 3, 3, 0, 1, 2, 14, 102, 56, 0, 0]),
        Mnemonic::CMPLXADD => Some(vec![1u8, 1, 236, 2, 1, 0, 0, 3, 3, 0, 1, 2, 14, 102, 56, 0, 0]),
        Mnemonic::CMPLEXADD => Some(vec![1u8, 1, 238, 2, 1, 0, 0, 3, 3, 0, 1, 2, 14, 102, 56, 0, 0]),
        Mnemonic::CMPNAXADD => Some(vec![1u8, 1, 230, 2, 1, 0, 0, 3, 3, 0, 1, 2, 14, 102, 56, 0, 0]),
        Mnemonic::CMPNBXADD => Some(vec![1u8, 1, 227, 2, 1, 0, 0, 3, 3, 0, 1, 2, 14, 102, 56, 0, 0]),
        Mnemonic::CMPNBEXADD => Some(vec![1u8, 1, 231, 2, 1, 0, 0, 3, 3, 0, 1, 2, 14, 102, 56, 0, 0]),
        Mnemonic::CMPNEXADD => Some(vec![1u8, 1, 229, 2, 1, 0, 0, 3, 3, 0, 1, 2, 14, 102, 56, 0, 0]),
        Mnemonic::CMPNGXADD => Some(vec![1u8, 1, 238, 2, 1, 0, 0, 3, 3, 0, 1, 2, 14, 102, 56, 0, 0]),
        Mnemonic::CMPNGEXADD => Some(vec![1u8, 1, 236, 2, 1, 0, 0, 3, 3, 0, 1, 2, 14, 102, 56, 0, 0]),
        Mnemonic::CMPNLXADD => Some(vec![1u8, 1, 237, 2, 1, 0, 0, 3, 3, 0, 1, 2, 14, 102, 56, 0, 0]),
        Mnemonic::CMPNLEXADD => Some(vec![1u8, 1, 239, 2, 1, 0, 0, 3, 3, 0, 1, 2, 14, 102, 56, 0, 0]),
        Mnemonic::CMPNAEXADD => Some(vec![1u8, 1, 226, 2, 1, 0, 0, 3, 3, 0, 1, 2, 14, 102, 56, 0, 0]),
        Mnemonic::CMPNOXADD => Some(vec![1u8, 1, 225, 2, 1, 0, 0, 3, 3, 0, 1, 2, 14, 102, 56, 0, 0]),
        Mnemonic::CMPNSXADD => Some(vec![1u8, 1, 233, 2, 1, 0, 0, 3, 3, 0, 1, 2, 14, 102, 56, 0, 0]),
        Mnemonic::CMPNZXADD => Some(vec![1u8, 1, 229, 2, 1, 0, 0, 3, 3, 0, 1, 2, 14, 102, 56, 0, 0]),
        Mnemonic::CMPOXADD => Some(vec![1u8, 1, 224, 2, 1, 0, 0, 3, 3, 0, 1, 2, 14, 102, 56, 0, 0]),
        Mnemonic::CMPSXADD => Some(vec![1u8, 1, 232, 2, 1, 0, 0, 3, 3, 0, 1, 2, 14, 102, 56, 0, 0]),
        Mnemonic::CMPZXADD => Some(vec![1u8, 1, 228, 2, 1, 0, 0, 3, 3, 0, 1, 2, 14, 102, 56, 0, 0]),
        Mnemonic::ACMPAXADD => Some(vec![1u8, 1, 231, 2, 1, 0, 0, 3, 3, 0, 1, 2, 15, 1, 102, 2, 0, 0]),
        Mnemonic::ACMPAEXADD => Some(vec![1u8, 1, 227, 2, 1, 0, 0, 3, 3, 0, 1, 2, 15, 1, 102, 2, 0, 0]),
        Mnemonic::ACMPBXADD => Some(vec![1u8, 1, 226, 2, 1, 0, 0, 3, 3, 0, 1, 2, 15, 1, 102, 2, 0, 0]),
        Mnemonic::ACMPBEXADD => Some(vec![1u8, 1, 230, 2, 1, 0, 0, 3, 3, 0, 1, 2, 15, 1, 102, 2, 0, 0]),
        Mnemonic::ACMPCXADD => Some(vec![1u8, 1, 226, 2, 1, 0, 0, 3, 3, 0, 1, 2, 15, 1, 102, 2, 0, 0]),
        Mnemonic::ACMPNCXADD => Some(vec![1u8, 1, 227, 2, 1, 0, 0, 3, 3, 0, 1, 2, 15, 1, 102, 2, 0, 0]),
        Mnemonic::ACMPEXADD => Some(vec![1u8, 1, 228, 2, 1, 0, 0, 3, 3, 0, 1, 2, 15, 1, 102, 2, 0, 0]),
        Mnemonic::ACMPGXADD => Some(vec![1u8, 1, 239, 2, 1, 0, 0, 3, 3, 0, 1, 2, 15, 1, 102, 2, 0, 0]),
        Mnemonic::ACMPGEXADD => Some(vec![1u8, 1, 237, 2, 1, 0, 0, 3, 3, 0, 1, 2, 15, 1, 102, 2, 0, 0]),
        Mnemonic::ACMPLXADD => Some(vec![1u8, 1, 236, 2, 1, 0, 0, 3, 3, 0, 1, 2, 15, 1, 102, 2, 0, 0]),
        Mnemonic::ACMPLEXADD => Some(vec![1u8, 1, 238, 2, 1, 0, 0, 3, 3, 0, 1, 2, 15, 1, 102, 2, 0, 0]),
        Mnemonic::ACMPNAXADD => Some(vec![1u8, 1, 230, 2, 1, 0, 0, 3, 3, 0, 1, 2, 15, 1, 102, 2, 0, 0]),
        Mnemonic::ACMPNBXADD => Some(vec![1u8, 1, 227, 2, 1, 0, 0, 3, 3, 0, 1, 2, 15, 1, 102, 2, 0, 0]),
        Mnemonic::ACMPNBEXADD => Some(vec![1u8, 1, 231, 2, 1, 0, 0, 3, 3, 0, 1, 2, 15, 1, 102, 2, 0, 0]),
        Mnemonic::ACMPNEXADD => Some(vec![1u8, 1, 229, 2, 1, 0, 0, 3, 3, 0, 1, 2, 15, 1, 102, 2, 0, 0]),
        Mnemonic::ACMPNGXADD => Some(vec![1u8, 1, 238, 2, 1, 0, 0, 3, 3, 0, 1, 2, 15, 1, 102, 2, 0, 0]),
        Mnemonic::ACMPNGEXADD => Some(vec![1u8, 1, 236, 2, 1, 0, 0, 3, 3, 0, 1, 2, 15, 1, 102, 2, 0, 0]),
        Mnemonic::ACMPNLXADD => Some(vec![1u8, 1, 237, 2, 1, 0, 0, 3, 3, 0, 1, 2, 15, 1, 102, 2, 0, 0]),
        Mnemonic::ACMPNLEXADD => Some(vec![1u8, 1, 239, 2, 1, 0, 0, 3, 3, 0, 1, 2, 15, 1, 102, 2, 0, 0]),
        Mnemonic::ACMPNAEXADD => Some(vec![1u8, 1, 226, 2, 1, 0, 0, 3, 3, 0, 1, 2, 15, 1, 102, 2, 0, 0]),
        Mnemonic::ACMPNOXADD => Some(vec![1u8, 1, 225, 2, 1, 0, 0, 3, 3, 0, 1, 2, 15, 1, 102, 2, 0, 0]),
        Mnemonic::ACMPNSXADD => Some(vec![1u8, 1, 233, 2, 1, 0, 0, 3, 3, 0, 1, 2, 15, 1, 102, 2, 0, 0]),
        Mnemonic::ACMPNZXADD => Some(vec![1u8, 1, 229, 2, 1, 0, 0, 3, 3, 0, 1, 2, 15, 1, 102, 2, 0, 0]),
        Mnemonic::ACMPOXADD => Some(vec![1u8, 1, 224, 2, 1, 0, 0, 3, 3, 0, 1, 2, 15, 1, 102, 2, 0, 0]),
        Mnemonic::ACMPSXADD => Some(vec![1u8, 1, 232, 2, 1, 0, 0, 3, 3, 0, 1, 2, 15, 1, 102, 2, 0, 0]),
        Mnemonic::ACMPZXADD => Some(vec![1u8, 1, 228, 2, 1, 0, 0, 3, 3, 0, 1, 2, 15, 1, 102, 2, 0, 0]),
        Mnemonic::ENCLV => Some(vec![1u8, 3, 15, 1, 32]),
        Mnemonic::ENCLS => Some(vec![1u8, 3, 15, 1, 207]),
        Mnemonic::ENCLU => Some(vec![1u8, 3, 15, 1, 215]),
        Mnemonic::INCSSPD => Some(vec![1u8, 2, 15, 174, 6, 243, 2, 1, 1, 5]),
        Mnemonic::INCSSPQ => Some(vec![4u8, 1, 2, 15, 174, 6, 243, 2, 1, 1, 5]),
        Mnemonic::SAVEPREVSSP => Some(vec![1u8, 4, 15, 1, 234, 42, 6, 243]),
        Mnemonic::WRSSD => Some(vec![1u8, 3, 15, 56, 246, 2, 1, 0, 0]),
        Mnemonic::WRSSQ => Some(vec![4u8, 1, 3, 15, 56, 246, 2, 1, 0, 0]),
        Mnemonic::WRUSSD => Some(vec![6u8, 102, 1, 3, 15, 56, 245, 2, 1, 0, 0]),
        Mnemonic::WRUSSQ => Some(vec![4u8, 6, 102, 1, 3, 15, 56, 245, 2, 1, 0, 0]),
        Mnemonic::CLRSSBSY => Some(vec![4u8, 1, 2, 15, 174, 2, 1, 1, 6, 6, 243]),
        Mnemonic::AWRSSD => Some(vec![1u8, 1, 102, 2, 1, 0, 0, 12, 2, 0, 4, 0, 0]),
        Mnemonic::AWRSSQ => Some(vec![1u8, 1, 102, 2, 1, 0, 0, 12, 2, 0, 4, 1, 0]),
        Mnemonic::AWRUSSD => Some(vec![1u8, 1, 101, 2, 1, 0, 0, 12, 2, 102, 4, 0, 0]),
        Mnemonic::AWRUSSQ => Some(vec![1u8, 1, 101, 2, 1, 0, 0, 12, 2, 102, 4, 1, 0]),
        Mnemonic::PMOVSXBW => Some(vec![1u8, 3, 15, 56, 32, 2, 1, 0, 0, 6, 102, 3, 2, 1, 0]),
        Mnemonic::PMOVSXBD => Some(vec![1u8, 3, 15, 56, 33, 2, 1, 0, 0, 6, 102, 3, 2, 1, 0]),
        Mnemonic::PMOVSXBQ => Some(vec![1u8, 3, 15, 56, 34, 2, 1, 0, 0, 6, 102, 3, 2, 1, 0]),
        Mnemonic::PMOVSXWD => Some(vec![1u8, 3, 15, 56, 35, 2, 1, 0, 0, 6, 102, 3, 2, 1, 0]),
        Mnemonic::PMOVSXWQ => Some(vec![1u8, 3, 15, 56, 36, 2, 1, 0, 0, 6, 102, 3, 2, 1, 0]),
        Mnemonic::PMOVSXDQ => Some(vec![1u8, 3, 15, 56, 37, 2, 1, 0, 0, 6, 102, 3, 2, 1, 0]),
        Mnemonic::PMOVZXBW => Some(vec![1u8, 3, 15, 56, 48, 2, 1, 0, 0, 6, 102, 3, 2, 1, 0]),
        Mnemonic::PMOVZXBD => Some(vec![1u8, 3, 15, 56, 49, 2, 1, 0, 0, 6, 102, 3, 2, 1, 0]),
        Mnemonic::PMOVZXBQ => Some(vec![1u8, 3, 15, 56, 50, 2, 1, 0, 0, 6, 102, 3, 2, 1, 0]),
        Mnemonic::PMOVZXWD => Some(vec![1u8, 3, 15, 56, 51, 2, 1, 0, 0, 6, 102, 3, 2, 1, 0]),
        Mnemonic::PMOVZXWQ => Some(vec![1u8, 3, 15, 56, 52, 2, 1, 0, 0, 6, 102, 3, 2, 1, 0]),
        Mnemonic::PMOVZXDQ => Some(vec![1u8, 3, 15, 56, 53, 2, 1, 0, 0, 6, 102, 3, 2, 1, 0]),
        Mnemonic::VPMOVSXBW => Some(vec![1u8, 1, 32, 2, 1, 0, 0, 10, 102, 56, 0, 0, 3, 2, 1, 0]),
        Mnemonic::VPMOVSXBD => Some(vec![1u8, 1, 33, 2, 1, 0, 0, 10, 102, 56, 0, 0, 3, 2, 1, 0]),
        Mnemonic::VPMOVSXBQ => Some(vec![1u8, 1, 34, 2, 1, 0, 0, 10, 102, 56, 0, 0, 3, 2, 1, 0]),
        Mnemonic::VPMOVSXWD => Some(vec![1u8, 1, 35, 2, 1, 0, 0, 10, 102, 56, 0, 0, 3, 2, 1, 0]),
        Mnemonic::VPMOVSXWQ => Some(vec![1u8, 1, 36, 2, 1, 0, 0, 10, 102, 56, 0, 0, 3, 2, 1, 0]),
        Mnemonic::VPMOVSXDQ => Some(vec![1u8, 1, 37, 2, 1, 0, 0, 10, 102, 56, 0, 0, 3, 2, 1, 0]),
        _ => None,
    }
}

/// Layout programs (see `run_prog`) of the mnemonics of part 12 of the table.
#[verifier::opaque]
pub open spec fn spec_prog_12(m: Mnemonic) -> Option<Seq<u8>> {
    match m {
        Mnemonic::VPMOVZXBW => Some(seq![1u8, 1, 48, 2, 1, 0, 0, 10, 102, 56, 0, 0, 3, 2, 1, 0]),
        Mnemonic::VPMOVZXBD => Some(seq![1u8, 1, 49, 2, 1, 0, 0, 10, 102, 56, 0, 0, 3, 2, 1, 0]),
        Mnemonic::VPMOVZXBQ => Some(seq![1u8, 1, 50, 2, 1, 0, 0, 10, 102, 56, 0, 0, 3, 2, 1, 0]),
        Mnemonic::VPMOVZXWD => Some(seq![1u8, 1, 51, 2, 1, 0, 0, 10, 102, 56, 0, 0, 3, 2, 1, 0]),
        Mnemonic::VPMOVZXWQ => Some(seq![1u8, 1, 52, 2, 1, 0, 0, 10, 102, 56, 0, 0, 3, 2, 1, 0]),
        Mnemonic::VPMOVZXDQ => Some(seq![1u8, 1, 53, 2, 1, 0, 0, 10, 102, 56, 0, 0, 3, 2, 1, 0]),
        _ => None,
    }
}

/// The layout program of a mnemonic of part 12 of the table.
fn prog_12(m: Mnemonic) -> (r: Option<Vec<u8>>)
    ensures
        match spec_prog_12(m) {
            Some(p) => r matches Some(v) && v@ == p,
            None => r is None,
        },
{
    proof {
        reveal(spec_prog_12);
    }
    match m {
        Mnemonic::VPMOVZXBW => Some(vec![1u8, 1, 48, 2, 1, 0, 0, 10, 102, 56, 0, 0, 3, 2, 1, 0]),
        Mnemonic::VPMOVZXBD => Some(vec![1u8, 1, 49, 2, 1, 0, 0, 10, 102, 56, 0, 0, 3, 2, 1, 0]),
        Mnemonic::VPMOVZXBQ => Some(vec![1u8, 1, 50, 2, 1, 0, 0, 10, 102, 56, 0, 0, 3, 2, 1, 0]),
        Mnemonic::VPMOVZXWD => Some(vec![1u8, 1, 51, 2, 1, 0, 0, 10, 102, 56, 0, 0, 3, 2, 1, 0]),
        Mnemonic::VPMOVZXWQ => Some(vec![1u8, 1, 52, 2, 1, 0, 0, 10, 102, 56, 0, 0, 3, 2, 1, 0]),
        Mnemonic::VPMOVZXDQ => Some(vec![1u8, 1, 53, 2, 1, 0, 0, 10, 102, 56, 0, 0, 3, 2, 1, 0]),
        _ => None,
    }
}

/// The layout program of a mnemonic whose layout depends on nothing but the mnemonic, if it
/// is one.
pub open spec fn spec_layout_prog(m: Mnemonic) -> Option<Seq<u8>> {
    if spec_prog_0(m) is Some {
        spec_prog_0(m)
    } else if spec_prog_1(m) is Some {
        spec_prog_1(m)
    } else if spec_prog_2(m) is Some {
        spec_prog_2(m)
    } else if spec_prog_3(m) is Some {
        spec_prog_3(m)
    } else if spec_prog_4(m) is Some {
        spec_prog_4(m)
    } else if spec_prog_5(m) is Some {
        spec_prog_5(m)
    } else if spec_prog_6(m) is Some {
        spec_prog_6(m)
    } else if spec_prog_7(m) is Some {
        spec_prog_7(m)
    } else if spec_prog_8(m) is Some {
        spec_prog_8(m)
    } else if spec_prog_9(m) is Some {
        spec_prog_9(m)
    } else if spec_prog_10(m) is Some {
        spec_prog_10(m)
    } else if spec_prog_11(m) is Some {
        spec_prog_11(m)
    } else {
        spec_prog_12(m)
    }
}

/// The layout program of a mnemonic, as `spec_layout_prog` gives it.
pub fn layout_prog(m: Mnemonic) -> (r: Option<Vec<u8>>)
    ensures
        match spec_layout_prog(m) {
            Some(p) => r matches Some(v) && v@ == p,
            None => r is None,
        },
{
    let p = prog_0(m);
    if p.is_some() {
        return p;
    }
    let p = prog_1(m);
    if p.is_some() {
        return p;
    }
    let p = prog_2(m);
    if p.is_some() {
        return p;
    }
    let p = prog_3(m);
    if p.is_some() {
        return p;
    }
    let p = prog_4(m);
    if p.is_some() {
        return p;
    }
    let p = prog_5(m);
    if p.is_some() {
        return p;
    }
    let p = prog_6(m);
    if p.is_some() {
        return p;
    }
    let p = prog_7(m);
    if p.is_some() {
        return p;
    }
    let p = prog_8(m);
    if p.is_some() {
        return p;
    }
    let p = prog_9(m);
    if p.is_some() {
        return p;
    }
    let p = prog_10(m);
    if p.is_some() {
        return p;
    }
    let p = prog_11(m);
    if p.is_some() {
        return p;
    }
    prog_12(m)
}

} // verus!
