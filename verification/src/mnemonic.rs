use vstd::prelude::*;

use crate::rex::RexClass;

verus! {

/// The mnemonics the assembler knows: data directives, instructions and prefixes.
#[allow(non_camel_case_types)]
#[derive(Clone, Copy, Debug, PartialEq, Eq, Structural)]
pub enum Mnemonic {
    BYTELE,
    BYTEBE,
    WORDLE,
    WORDBE,
    DWORDLE,
    DWORDBE,
    QWORDLE,
    QWORDBE,
    ASCII,
    STRING,
    EMPTY,
    MOV,
    ADD,
    OR,
    AND,
    SUB,
    XOR,
    ADC,
    SBB,
    AADD,
    AOR,
    AADC,
    ASBB,
    AAND,
    ASUB,
    AXOR,
    IMUL,
    CMP,
    TEST,
    DEC,
    INC,
    NOT,
    NEG,
    XCHG,
    SAR,
    SAL,
    SHL,
    SHR,
    LEA,
    CMPXCHG16B,
    CLFLUSH,
    MOVHLPS,
    MOVLHPS,
    ADDPS,
    ADDSS,
    SUBPS,
    SUBSS,
    MULPS,
    MULSS,
    DIVPS,
    DIVSS,
    MINPS,
    MINSS,
    MAXPS,
    MAXSS,
    RSQRTPS,
    RSQRTSS,
    SHUFPS,
    SQRTPS,
    SQRTSS,
    CMPPS,
    CMPSS,
    RCPPS,
    RCPSS,
    UCOMISS,
    COMISS,
    ORPS,
    ANDPS,
    ANDNPS,
    XORPS,
    UNPCKLPS,
    UNPCKHPS,
    MOVNTI,
    MOVNTPD,
    MOVNTDQ,
    MOVDQ2Q,
    MOVQ2DQ,
    ADDPD,
    ADDSD,
    SUBPD,
    SUBSD,
    MULPD,
    MULSD,
    DIVPD,
    DIVSD,
    MINPD,
    MINSD,
    MAXPD,
    MAXSD,
    SQRTPD,
    SQRTSD,
    CMPPD,
    CMPSD,
    COMISD,
    UCOMISD,
    ORPD,
    ANDPD,
    ANDNPD,
    XORPD,
    PSHUFLW,
    PSHUFHW,
    PSHUFD,
    PSLLDQ,
    PSRLDQ,
    PUNPCKHQDQ,
    PUNPCKLQDQ,
    MASKMOVDQU,
    ADDSUBPD,
    ADDSUBPS,
    HADDPD,
    HADDPS,
    HSUBPD,
    HSUBPS,
    MOVSLDUP,
    MOVSHDUP,
    MOVDDUP,
    LDDQU,
    DPPS,
    DPPD,
    PTEST,
    PEXTRB,
    PEXTRD,
    PINSRB,
    PINSRD,
    PMAXSB,
    PMAXSD,
    PMAXUW,
    PMINSB,
    PMINSD,
    PMINUW,
    PMULDQ,
    PMULLD,
    BLENDPS,
    BLENDPD,
    PBLENDW,
    PCMPEQQ,
    ROUNDPS,
    ROUNDPD,
    ROUNDSS,
    ROUNDSD,
    MPSADBW,
    PCMPGTQ,
    BLENDVPS,
    BLENDVPD,
    PBLENDVB,
    INSERTPS,
    PACKUSDW,
    MOVNTDQA,
    PCMPESTRM,
    PCMPESTRI,
    PCMPISTRM,
    PCMPISTRI,
    PHMINPOSUW,
    CRC32,
    VMOVSLDUP,
    VLDDQU,
    VMOVDDUP,
    VMOVSHDUP,
    VMOVMSKPD,
    VADDPS,
    VADDSUBPS,
    VADDSUBPD,
    VHADDPS,
    VHADDPD,
    VHSUBPS,
    VHSUBPD,
    VADDPD,
    VADDSS,
    VADDSD,
    VSUBPS,
    VSUBPD,
    VSUBSS,
    VSUBSD,
    VMULPS,
    VMULPD,
    VMULSS,
    VMULSD,
    VDIVPS,
    VDIVPD,
    VDIVSS,
    VDIVSD,
    VRCPPS,
    VRCPSS,
    VSQRTPS,
    VSQRTPD,
    VSQRTSS,
    VSQRTSD,
    VRSQRTPS,
    VRSQRTSS,
    VPMULDQ,
    VPMULLD,
    VPMINSB,
    VPMINSD,
    VPMINUB,
    VPMINUW,
    VPMAXSB,
    VPMAXSD,
    VPMAXUB,
    VPMAXUW,
    VMINPS,
    VMINPD,
    VMINSS,
    VMINSD,
    VMAXPS,
    VMAXPD,
    VMAXSS,
    VMAXSD,
    VORPS,
    VORPD,
    VANDPS,
    VANDPD,
    VANDNPD,
    VXORPD,
    VBLENDVPS,
    VPBLENDVB,
    VBLENDVPD,
    VPHMINPOSUW,
    VEXTRACTPS,
    VMOVNTDQA,
    VPACKUSDW,
    VPCMPESTRM,
    VPCMPESTRI,
    VPCMPISTRM,
    VPCMPISTRI,
    VINSERTPS,
    VBLENDPS,
    VBLENDPD,
    VPCMPGTQ,
    VPCMPEQQ,
    VMPSADBW,
    VROUNDSS,
    VROUNDSD,
    VROUNDPS,
    VROUNDPD,
    VPBLENDW,
    VCMPPD,
    VANDNPS,
    VXORPS,
    VPTEST,
    VDPPS,
    VDPPD,
    VCMPPS,
    VCMPSS,
    VCMPSD,
    VUCOMISS,
    VUCOMISD,
    VCOMISS,
    VCOMISD,
    VUNPCKLPS,
    VUNPCKHPS,
    VSHUFPS,
    VMOVLHPS,
    VMOVHLPS,
    VPEXTRB,
    VPEXTRW,
    VPEXTRD,
    VPEXTRQ,
    VPINSRB,
    VPINSRD,
    VPINSRQ,
    VPOR,
    VPAND,
    VPXOR,
    VPADDB,
    VPADDW,
    VPADDD,
    VPADDQ,
    VPSUBB,
    VPSUBW,
    VPSUBD,
    VPSUBQ,
    VPANDN,
    VPSUBSB,
    VPSUBSW,
    VPADDSB,
    VPADDSW,
    VPMULHW,
    VPMULLW,
    VPADDUSB,
    VPADDUSW,
    VPSUBUSB,
    VPSUBUSW,
    VPMADDWD,
    VPCMPEQB,
    VPCMPEQW,
    VPCMPEQD,
    VPCMPGTB,
    VPCMPGTW,
    VPCMPGTD,
    VPACKUSWB,
    VPACKSSWB,
    VPACKSSDW,
    VPUNPCKLBW,
    VPUNPCKLWD,
    VPUNPCKLDQ,
    VPUNPCKHBW,
    VPUNPCKHWD,
    VPUNPCKHDQ,
    VPAVGB,
    VPAVGW,
    VPHADDW,
    VPHADDD,
    VPHSUBW,
    VPHSUBD,
    VPALIGNR,
    VINSERTF128,
    VEXTRACTF128,
    VBROADCASTSS,
    VBROADCASTF128,
    STMXCSR,
    LDMXCSR,
    VSTMXCSR,
    VLDMXCSR,
    VMOVMSKPS,
    PCLMULQDQ,
    VPCLMULQDQ,
    VPERM2F128,
    VPERM2I128,
    VPINSRW,
    VPMAXSW,
    VPMINSW,
    VPSRLDQ,
    VPSIGNB,
    VPSIGNW,
    VPSIGND,
    VPMULUDQ,
    VPMULHUW,
    VPMULHRSW,
    PMAXUD,
    VPMAXUD,
    VFMADD132PS,
    VFMADD213PS,
    VFMADD231PS,
    VFMADD132PD,
    VFMADD213PD,
    VFMADD231PD,
    VFMADD132SD,
    VFMADD213SD,
    VFMADD231SD,
    VFMADD132SS,
    VFMADD213SS,
    VFMADD231SS,
    VFMSUB132PS,
    VFMSUB213PS,
    VFMSUB231PS,
    VFMSUB132PD,
    VFMSUB213PD,
    VFMSUB231PD,
    VFMSUB132SD,
    VFMSUB213SD,
    VFMSUB231SD,
    VFMSUB132SS,
    VFMSUB213SS,
    VFMSUB231SS,
    VFNMADD132PS,
    VFNMADD213PS,
    VFNMADD231PS,
    VFNMADD132PD,
    VFNMADD213PD,
    VFNMADD231PD,
    VFNMADD132SS,
    VFNMADD213SS,
    VFNMADD231SS,
    VFNMADD132SD,
    VFNMADD213SD,
    VFNMADD231SD,
    VFNMSUB132PS,
    VFNMSUB213PS,
    VFNMSUB231PS,
    VFNMSUB132PD,
    VFNMSUB213PD,
    VFNMSUB231PD,
    VFNMSUB132SS,
    VFNMSUB213SS,
    VFNMSUB231SS,
    VFNMSUB132SD,
    VFNMSUB213SD,
    VFNMSUB231SD,
    VFMADDSUB132PS,
    VFMADDSUB213PS,
    VFMADDSUB231PS,
    VFMADDSUB132PD,
    VFMADDSUB213PD,
    VFMADDSUB231PD,
    VFMSUBADD132PS,
    VFMSUBADD213PS,
    VFMSUBADD231PS,
    VFMSUBADD132PD,
    VFMSUBADD213PD,
    VFMSUBADD231PD,
    AESDEC,
    AESENC,
    AESIMC,
    AESDECLAST,
    AESENCLAST,
    VAESDEC,
    VAESENC,
    VAESIMC,
    VAESENCLAST,
    VAESDECLAST,
    VAESKEYGENASSIST,
    AESKEYGENASSIST,
    CVTPD2PI,
    CVTSS2SD,
    CVTPD2PS,
    CVTPS2PD,
    CVTPI2PD,
    CVTPD2DQ,
    CVTSD2SS,
    CVTPS2DQ,
    CVTDQ2PS,
    CVTDQ2PD,
    CVTSD2SI,
    CVTSI2SD,
    CVTTPS2DQ,
    CVTTSD2SI,
    CVTTPD2PI,
    CVTPS2PI,
    CVTTPS2PI,
    CVTPI2PS,
    CVTTPD2DQ,
    CVTTSS2SI,
    VCVTPD2DQ,
    VCVTPD2PS,
    VCVTPS2DQ,
    VCVTPS2PD,
    VCVTSD2SI,
    VCVTSD2SS,
    VCVTSI2SD,
    VCVTSI2SS,
    VCVTSS2SD,
    VCVTSS2SI,
    VCVTDQ2PD,
    VCVTDQ2PS,
    VCVTTPD2DQ,
    VCVTTPS2DQ,
    VCVTTSD2SI,
    VCVTTSS2SI,
    CWD,
    CDQ,
    CBW,
    ANDN,
    CWDE,
    CLUI,
    CLWB,
    ARPL,
    BLSR,
    BLSI,
    BZHI,
    BEXTR,
    BLSMSK,
    CMPSTRB,
    CMPSTRW,
    CMPSTRD,
    CMPSTRQ,
    ENDBR64,
    ENDBR32,
    CLDEMOTE,
    CMPXCHG8B,
    HRESET,
    INSB,
    INSW,
    INSD,
    INVLPG,
    LAR,
    LLDT,
    LMSW,
    LODSB,
    LODSW,
    LODSD,
    LODSQ,
    LTR,
    MOVSTRB,
    MOVSTRW,
    MOVSTRD,
    MOVSTRQ,
    MULX,
    OUTSB,
    OUTSW,
    OUTSD,
    PEXT,
    PDEP,
    PREFETCHW,
    PREFETCH0,
    PREFETCH1,
    PREFETCH2,
    PREFETCHA,
    RDPID,
    RDSSPD,
    RORX,
    RSTORSSP,
    SHLX,
    SHRX,
    SARX,
    SCASB,
    SCASW,
    SCASD,
    SCASQ,
    SENDUIPI,
    SETSSBY,
    SETO,
    SETNO,
    SETS,
    SETNS,
    STUI,
    STOSW,
    STOSD,
    TESTUI,
    UD0,
    TPAUSE,
    UMWAIT,
    UMONITOR,
    STR,
    VERR,
    VERW,
    XABORT,
    XRESLDTRK,
    XSUSLDTRK,
    SHA1MSG1,
    SHA1NEXTE,
    SHA1MSG2,
    SHA1RNDS4,
    SHA256RNDS2,
    SHA256MSG2,
    SHA256MSG1,
    LIDT,
    LGDT,
    VADDPH,
    VADDSH,
    VALIGNQ,
    VALIGND,
    VBCSTNESH2PS,
    VBCSTNEBF162PS,
    VBLENDMPS,
    VBLENDMPD,
    VBROADCASTF32X2,
    VBROADCASTF32X4,
    VBROADCASTF64X2,
    VBROADCASTF32X8,
    VBROADCASTF64X4,
    VCMPPH,
    VCMPSH,
    VCOMISH,
    KADDB,
    KADDW,
    KADDD,
    KADDQ,
    KANDB,
    KANDW,
    KANDD,
    KANDQ,
    KANDNB,
    KANDNW,
    KANDND,
    KANDNQ,
    KNOTB,
    KNOTW,
    KNOTD,
    KNOTQ,
    KORB,
    KORW,
    KORD,
    KORQ,
    KXORB,
    KXORW,
    KXORD,
    KXORQ,
    KTESTB,
    KTESTW,
    KTESTD,
    KTESTQ,
    KXNORB,
    KXNORW,
    KXNORD,
    KXNORQ,
    KUNPCKBW,
    KUNPCKWD,
    KUNPCKDQ,
    KORTESTB,
    KORTESTW,
    KORTESTD,
    KORTESTQ,
    KSHIFTLB,
    KSHIFTLW,
    KSHIFTLD,
    KSHIFTLQ,
    KSHIFTRB,
    KSHIFTRW,
    KSHIFTRD,
    KSHIFTRQ,
    VCVTDQ2PH,
    VCVTNE2PS2BF16,
    VCVTNEEBF162PS,
    VCVTNEEPH2PS,
    VCVTNEOBF162PS,
    VCVTNEOPH2PS,
    VCVTNEPS2BF16,
    VCVTPD2PH,
    VCVTPD2QQ,
    VCVTPD2UDQ,
    VCVTPD2UQQ,
    VCVTPH2DQ,
    VCVTPH2PD,
    VCVTPH2PS,
    VCVTPH2PSX,
    VCVTPH2QQ,
    VCVTPH2UDQ,
    VCVTPH2UQQ,
    VCVTPH2UW,
    VCVTPH2W,
    VCVTPS2PH,
    VCVTPS2PHX,
    VCVTPS2QQ,
    VCVTPS2UDQ,
    VCVTPS2UQQ,
    VCVTQQ2PD,
    VCVTQQ2PH,
    VCVTQQ2PS,
    VCVTSD2SH,
    VCVTSD2USI,
    VCVTSH2SD,
    VCVTSH2SI,
    VCVTSH2SS,
    VCVTSH2USI,
    VCVTSI2SH,
    VCVTSS2SH,
    VCVTSS2USI,
    VCVTTPD2QQ,
    VCVTTPD2UDQ,
    VCVTTPD2UQQ,
    VCVTTPH2DQ,
    VCVTTPH2QQ,
    VCVTTPH2UDQ,
    VCVTTPH2UQQ,
    VCVTTPH2UW,
    VCVTTPH2W,
    VCVTTPS2QQ,
    VCVTTPS2UDQ,
    VCVTTPS2UQQ,
    VCVTTSD2USI,
    VCVTTSH2SI,
    VCVTTSH2USI,
    VCVTTSS2USI,
    VCVTUDQ2PD,
    VCVTUDQ2PH,
    VCVTUDQ2PS,
    VCVTUQQ2PD,
    VCVTUQQ2PH,
    VCVTUQQ2PS,
    VCVTUSI2SD,
    VCVTUSI2SH,
    VCVTUSI2SS,
    VCVTUW2PH,
    VCVTW2PH,
    VDBPSADBW,
    VDIVPH,
    VDIVSH,
    VDPBF16PS,
    VEXPANDPD,
    VEXPANDPS,
    VEXTRACTF32X4,
    VEXTRACTF64X2,
    VEXTRACTF32X8,
    VEXTRACTF64X4,
    VEXTRACTI128,
    VEXTRACTI32X4,
    VEXTRACTI32X8,
    VEXTRACTI64X4,
    VEXTRACTI64X2,
    VFCMADDCPH,
    VFMADDCPH,
    VFCMADDCSH,
    VFMADDCSH,
    VFCMULCPH,
    VFMULCPH,
    VFCMULCSH,
    VFMULCSH,
    VFIXUPIMMPD,
    VFIXUPIMMPS,
    VFIXUPIMMSD,
    VFIXUPIMMSS,
    VFMADD132PH,
    VFMADD213PH,
    VFMADD231PH,
    VFNMADD132PH,
    VFNMADD213PH,
    VFNMADD231PH,
    VFMADD132SH,
    VFMADD213SH,
    VFMADD231SH,
    VFNMADD132SH,
    VFNMADD213SH,
    VFNMADD231SH,
    VFMADDSUB132PH,
    VFMADDSUB213PH,
    VFMADDSUB231PH,
    VFMSUB132PH,
    VFMSUB213PH,
    VFMSUB231PH,
    VFNMSUB132PH,
    VFNMSUB213PH,
    VFNMSUB231PH,
    VFMSUB132SH,
    VFMSUB213SH,
    VFMSUB231SH,
    VFNMSUB132SH,
    VFNMSUB213SH,
    VFNMSUB231SH,
    VFMSUBADD132PH,
    VFMSUBADD213PH,
    VFMSUBADD231PH,
    VFPCLASSPD,
    VFPCLASSPH,
    VFPCLASSPS,
    VFPCLASSSD,
    VFPCLASSSH,
    VFPCLASSSS,
    VGETEXPPD,
    VGETEXPPH,
    VGETEXPPS,
    VGETEXPSH,
    VGETEXPSS,
    VGETMANTPD,
    VGETMANTPH,
    VGETMANTPS,
    VGETMANTSD,
    VGETMANTSH,
    VGETMANTSS,
    VINSERTF32X4,
    VINSERTF64X2,
    VINSERTF32X8,
    VINSERTF64X4,
    VINSERTI32X4,
    VINSERTI64X2,
    VINSERTI32X8,
    VINSERTI64X4,
    VINSERTI128,
    VMAXPH,
    VMAXSH,
    VMINPH,
    VMINSH,
    VMULPH,
    VMULSH,
    VP2INTERSECTD,
    VP2INTERSECTQ,
    VPBLENDD,
    VPBLENDMB,
    VPBLENDMW,
    VPBLENDMD,
    VPBLENDMQ,
    VPBROADCASTB,
    VPBROADCASTW,
    VPBROADCASTD,
    VPBROADCASTI32X2,
    VPBROADCASTI128,
    VPBROADCASTI32X4,
    VPBROADCASTI64X2,
    VPBROADCASTI32X8,
    VPBROADCASTI64X4,
    VPBROADCASTMB2Q,
    VPBROADCASTMW2D,
    VPCMPB,
    VPCMPUB,
    VPCMPD,
    VPCMPUD,
    VPCMPQ,
    VPCMPUQ,
    VPCMPW,
    VPCMPUW,
    VPCOMPRESSD,
    VPCOMPRESSQ,
    VPCONFLICTD,
    VPCONFLICTQ,
    VPDPBSSD,
    VPDPBSSDS,
    VPDPBSUD,
    VPDPBSUDS,
    VPDPBUUD,
    VPDPBUUDS,
    VPDPBUSD,
    VPDPBUSDS,
    VPDPWSSD,
    VPDPWSSDS,
    VPDPWUSD,
    VPDPWUSDS,
    VPDPWSUD,
    VPDPWSUDS,
    VPDPWUUD,
    VPDPWUUDS,
    VPERMB,
    VPERMD,
    VPERMW,
    VPERMI2B,
    VPERMI2W,
    VPERMI2D,
    VPERMI2Q,
    VPERMI2PS,
    VPERMI2PD,
    VPERMPS,
    VPERMT2B,
    VPERMT2W,
    VPERMT2D,
    VPERMT2Q,
    VPERMT2PS,
    VPERMT2PD,
    VPEXPANDB,
    VPEXPANDW,
    VPEXPANDD,
    VPEXPANDQ,
    VPLZCNTD,
    VPLZCNTQ,
    VPMADD52LUQ,
    VPMADD52HUQ,
    VPMOVB2M,
    VPMOVW2M,
    VPMOVD2M,
    VPMOVQ2M,
    VPMOVDB,
    VPMOVSDB,
    VPMOVUSDB,
    VPMOVDW,
    VPMOVSDW,
    VPMOVUSDW,
    VPMOVM2B,
    VPMOVM2W,
    VPMOVM2D,
    VPMOVM2Q,
    VPMOVQB,
    VPMOVSQB,
    VPMOVUSQB,
    VPMOVQD,
    VPMOVSQD,
    VPMOVUSQD,
    VPMOVQW,
    VPMOVSQW,
    VPMOVUSQW,
    VPMOVWB,
    VPMOVSWB,
    VPMOVUSWB,
    VPMULTISHIFTQB,
    VPOPCNTB,
    VPOPCNTW,
    VPOPCNTD,
    VPOPCNTQ,
    VPROLD,
    VPROLQ,
    VPROLVD,
    VPROLVQ,
    VPRORD,
    VPRORQ,
    VPRORVD,
    VPRORVQ,
    VPSHLDW,
    VPSHLDD,
    VPSHLDQ,
    VPSHRDW,
    VPSHRDD,
    VPSHRDQ,
    VPSHLDVW,
    VPSHLDVD,
    VPSHLDVQ,
    VPSHRDVW,
    VPSHRDVD,
    VPSHRDVQ,
    VPSHUFBITQMB,
    VPSLLVW,
    VPSLLVD,
    VPSLLVQ,
    VPSRAVW,
    VPSRAVD,
    VPSRAVQ,
    VPSRLVW,
    VPSRLVD,
    VPSRLVQ,
    VPTERNLOGD,
    VPTERNLOGQ,
    VPTESTMB,
    VPTESTMW,
    VPTESTMD,
    VPTESTMQ,
    VPTESTNMB,
    VPTESTNMW,
    VPTESTNMD,
    VPTESTNMQ,
    VRANGEPS,
    VRANGEPD,
    VRANGESS,
    VRANGESD,
    VRCP14PS,
    VRCP14PD,
    VRCP14SS,
    VRCP14SD,
    VRCPPH,
    VRCPSH,
    VREDUCEPS,
    VREDUCEPD,
    VREDUCEPH,
    VREDUCESS,
    VREDUCESD,
    VREDUCESH,
    VRNDSCALEPS,
    VRNDSCALEPD,
    VRNDSCALEPH,
    VRNDSCALESS,
    VRNDSCALESD,
    VRNDSCALESH,
    VRSQRT14PS,
    VRSQRT14PD,
    VRSQRT14SS,
    VRSQRT14SD,
    VRSQRTPH,
    VRSQRTSH,
    VSCALEFPS,
    VSCALEFPD,
    VSCALEFSS,
    VSCALEFSD,
    VSCALEFPH,
    VSCALEFSH,
    VSHA512MSG1,
    VSHA512MSG2,
    VSHA512RNDS2,
    VSHUFF32X4,
    VSHUFF64X2,
    VSHUFI32X4,
    VSHUFI64X2,
    VSM3MSG1,
    VSM3MSG2,
    VSM3RNDS2,
    VSM4KEY4,
    VSM4RNDS4,
    VSQRTPH,
    VSQRTSH,
    VSUBPH,
    VSUBSH,
    VTESTPS,
    VTESTPD,
    VUCOMISH,
    PREFETCHWT1,
    V4FMADDPS,
    V4FNMADDPS,
    V4FMADDSS,
    V4FNMADDSS,
    VEXP2PS,
    VEXP2PD,
    VP4DPWSSDS,
    VP4DPWSSD,
    VRCP28PD,
    VRCP28SD,
    VRCP28PS,
    VRCP28SS,
    VRSQRT28PD,
    VRSQRT28SD,
    VRSQRT28PS,
    VRSQRT28SS,
    VPGATHERDD,
    VPGATHERDQ,
    VPGATHERQD,
    VPGATHERQQ,
    VSCATTERDPS,
    VSCATTERDPD,
    VSCATTERQPS,
    VSCATTERQPD,
    VGATHERPF0DPS,
    VGATHERPF0DPD,
    VGATHERPF0QPS,
    VGATHERPF0QPD,
    VGATHERPF1DPS,
    VGATHERPF1DPD,
    VGATHERPF1QPS,
    VGATHERPF1QPD,
    VSCATTERPF0DPS,
    VSCATTERPF0DPD,
    VSCATTERPF0QPS,
    VSCATTERPF0QPD,
    VSCATTERPF1DPS,
    VSCATTERPF1DPD,
    VSCATTERPF1QPS,
    VSCATTERPF1QPD,
    VGETEXPSD,
    VGATHERDPS,
    VGATHERDPD,
    VGATHERQPS,
    VGATHERQPD,
    VPSCATTERDD,
    VPSCATTERDQ,
    VPSCATTERQD,
    VPSCATTERQQ,
    AAADD,
    AAXOR,
    AAOR,
    AAAND,
    AANDN,
    ABZHI,
    ABEXTR,
    ABLSMSK,
    ABLSR,
    ABLSI,
    ACMOVA,
    ACMOVAE,
    ACMOVB,
    ACMOVBE,
    ACMOVC,
    ACMOVE,
    ACMOVG,
    ACMOVGE,
    ACMOVL,
    ACMOVLE,
    ACMOVNA,
    ACMOVNB,
    ACMOVNBE,
    ACMOVNC,
    ACMOVNE,
    ACMOVNG,
    ACMOVNGE,
    ACMOVNL,
    ACMOVNLE,
    ACMOVNAE,
    ACMOVNO,
    ACMOVNP,
    ACMOVNS,
    ACMOVNZ,
    ACMOVO,
    ACMOVP,
    ACMOVPO,
    ACMOVS,
    ACMOVZ,
    ACMOVPE,
    AINVEPT,
    AINVVPID,
    AINVPCID,
    ALZCNT,
    AMOVDIRI,
    AMULX,
    APEXT,
    APDEP,
    APOPCNT,
    ARDMSR,
    ASARX,
    ARORX,
    ASHLX,
    ASHRX,
    ATZCNT,
    JMPABS,
    SETOZU,
    SETNOZU,
    SETEZU,
    SETZZU,
    SETSZU,
    SETNSZU,
    CFCMOVA,
    CFCMOVAE,
    CFCMOVB,
    CFCMOVBE,
    CFCMOVE,
    CFCMOVG,
    CFCMOVGE,
    CFCMOVL,
    CFCMOVLE,
    CFCMOVNA,
    CFCMOVNB,
    CFCMOVNBE,
    CFCMOVNE,
    CFCMOVNG,
    CFCMOVNGE,
    CFCMOVNL,
    CFCMOVNLE,
    CFCMOVNAE,
    CFCMOVNO,
    CFCMOVNP,
    CFCMOVNS,
    CFCMOVNZ,
    CFCMOVO,
    CFCMOVP,
    CFCMOVPO,
    CFCMOVS,
    CFCMOVZ,
    CFCMOVPE,
    CFCMOVC,
    CFCMOVNC,
    PUSH2,
    PUSH2P,
    POP2,
    POP2P,
    RDGSBASE,
    RDFSBASE,
    MOVDIR64B,
    WBNOINVD,
    PREFETCHIT0,
    PREFETCHIT1,
    PTWRITE,
    ENQCMD,
    AENQCMD,
    ENQCMDS,
    AENQCMDS,
    WRMSRLIST,
    RDMSRLIST,
    POPAW,
    POPAD,
    POPAQ,
    PUSHAW,
    PUSHAD,
    PUSHAQ,
    SIDT,
    SGDT,
    SLDT,
    LFS,
    LGS,
    MOVSXD,
    NOPL,
    VMGEXIT,
    PSMASH,
    RMPUPDATE,
    PVALIDATE,
    RMPADJUST,
    RMPQUERY,
    RMPREAD,
    VMXON,
    VMPTRLD,
    VMPTRST,
    VMCLEAR,
    VMREAD,
    VMWRITE,
    INVEPT,
    INVVPID,
    SEAMOPS,
    SEAMRET,
    SEAMCALL,
    TDCALL,
    FNSTCW,
    FSTCW,
    FNSTSW,
    FSTSW,
    FLDCW,
    FLDENV,
    FNSTENV,
    FSTENV,
    FNSAVE,
    FSAVE,
    FRSTOR,
    FBLD,
    FBSTP,
    FXSAVE,
    FXRSTOR,
    FXSAVE64,
    FXRSTOR64,
    LOADIWKEY,
    ENCODEKEY128,
    ENCODEKEY256,
    AESENC128KL,
    AESDEC128KL,
    AESENC256KL,
    AESDEC256KL,
    AESENCWIDE128KL,
    AESDECWIDE128KL,
    AESENCWIDE256KL,
    AESDECWIDE256KL,
    CMPAXADD,
    CMPAEXADD,
    CMPBXADD,
    CMPBEXADD,
    CMPCXADD,
    CMPNCXADD,
    CMPEXADD,
    CMPGXADD,
    CMPGEXADD,
    CMPLXADD,
    CMPLEXADD,
    CMPNAXADD,
    CMPNBXADD,
    CMPNBEXADD,
    CMPNEXADD,
    CMPNGXADD,
    CMPNGEXADD,
    CMPNLXADD,
    CMPNLEXADD,
    CMPNAEXADD,
    CMPNOXADD,
    CMPNSXADD,
    CMPNZXADD,
    CMPOXADD,
    CMPSXADD,
    CMPZXADD,
    ACMPAXADD,
    ACMPAEXADD,
    ACMPBXADD,
    ACMPBEXADD,
    ACMPCXADD,
    ACMPNCXADD,
    ACMPEXADD,
    ACMPGXADD,
    ACMPGEXADD,
    ACMPLXADD,
    ACMPLEXADD,
    ACMPNAXADD,
    ACMPNBXADD,
    ACMPNBEXADD,
    ACMPNEXADD,
    ACMPNGXADD,
    ACMPNGEXADD,
    ACMPNLXADD,
    ACMPNLEXADD,
    ACMPNAEXADD,
    ACMPNOXADD,
    ACMPNSXADD,
    ACMPNZXADD,
    ACMPOXADD,
    ACMPSXADD,
    ACMPZXADD,
    ENCLV,
    ENCLS,
    ENCLU,
    INCSSPD,
    INCSSPQ,
    SAVEPREVSSP,
    WRSSD,
    WRSSQ,
    WRUSSD,
    WRUSSQ,
    CLRSSBSY,
    AWRSSD,
    AWRSSQ,
    AWRUSSD,
    AWRUSSQ,
    PMOVSXBW,
    PMOVSXBD,
    PMOVSXBQ,
    PMOVSXWD,
    PMOVSXWQ,
    PMOVSXDQ,
    PMOVZXBW,
    PMOVZXBD,
    PMOVZXBQ,
    PMOVZXWD,
    PMOVZXWQ,
    PMOVZXDQ,
    VPMOVSXBW,
    VPMOVSXBD,
    VPMOVSXBQ,
    VPMOVSXWD,
    VPMOVSXWQ,
    VPMOVSXDQ,
    VPMOVZXBW,
    VPMOVZXBD,
    VPMOVZXBQ,
    VPMOVZXWD,
    VPMOVZXWQ,
    VPMOVZXDQ,
    CCMPB,
    CCMPBE,
    CCMPNB,
    CCMPL,
    CCMPLE,
    CCMPNL,
    CCMPT,
    CCMPF,
    CCMPNO,
    CCMPO,
    CCMPNZ,
    CCMPZ,
    CCMPNE,
    CCMPE,
    CCMPS,
    CCMPNS,
    CCMPC,
    CCMPNC,
    CCMPG,
    CCMPGE,
    CCMPNG,
    CCMPA,
    CCMPAE,
    CCMPNA,
    CTESTB,
    CTESTBE,
    CTESTNB,
    CTESTL,
    CTESTLE,
    CTESTNL,
    CTESTT,
    CTESTF,
    CTESTNO,
    CTESTO,
    CTESTNZ,
    CTESTZ,
    CTESTNE,
    CTESTE,
    CTESTS,
    CTESTNS,
    CTESTC,
    CTESTNC,
    CTESTG,
    CTESTGE,
    CTESTNG,
    CTESTA,
    CTESTAE,
    CTESTNA,
    PUSH,
    POP,
    JMP,
    CALL,
    JA,
    JB,
    JC,
    JO,
    JP,
    JS,
    JL,
    JG,
    JE,
    JZ,
    JAE,
    JBE,
    JNA,
    JNB,
    JNC,
    JNG,
    JNL,
    JNO,
    JNP,
    JNS,
    JPE,
    JPO,
    JNE,
    JNZ,
    JLE,
    JGE,
    JNAE,
    JNBE,
    JNGE,
    JNLE,
    JCXZ,
    JECXZ,
    JRCXZ,
    DIV,
    IDIV,
    MUL,
    UD1,
    UD2,
    XADD,
    XRSTOR,
    XRSTOR64,
    XRSTORS,
    XRSTORS64,
    XSAVE,
    XSAVE64,
    XSAVEC,
    XSAVEC64,
    XSAVEOPT,
    XSAVEOPT64,
    XSAVES,
    XSAVES64,
    SHLD,
    SHRD,
    SMSW,
    WRFSBASE,
    WRGSBASE,
    ROL,
    RDRAND,
    RDSEED,
    RDSSPQ,
    ROR,
    RCL,
    RCR,
    BSF,
    INVPCID,
    ADCX,
    ADOX,
    BSWAP,
    CMPXCHG,
    BSR,
    BT,
    BTC,
    BTS,
    BTR,
    CMOVA,
    CMOVB,
    CMOVC,
    CMOVE,
    CMOVG,
    CMOVL,
    CMOVO,
    CMOVP,
    CMOVS,
    CMOVZ,
    CMOVAE,
    CMOVBE,
    CMOVLE,
    CMOVGE,
    CMOVNA,
    CMOVNB,
    CMOVNC,
    CMOVNE,
    CMOVNG,
    CMOVNL,
    CMOVNO,
    CMOVNP,
    CMOVNS,
    CMOVNZ,
    CMOVPE,
    CMOVPO,
    CMOVNBE,
    CMOVNLE,
    CMOVNGE,
    MOVZX,
    MOVDIRI,
    MOVBE,
    LZCNT,
    LSL,
    CMOVNAE,
    MOVMSKPD,
    CVTSS2SI,
    CVTSI2SS,
    PINSRQ,
    MOVQ,
    PEXTRW,
    PEXTRQ,
    POPCNT,
    EXTRACTPS,
    CPUID,
    RET,
    SYSCALL,
    NOP,
    PUSHF,
    PUSHFD,
    PUSHFQ,
    POPF,
    POPFD,
    POPFQ,
    PAUSE,
    MWAIT,
    MFENCE,
    LFENCE,
    EMMS,
    MONITOR,
    VZEROUPPER,
    VZEROALL,
    CLC,
    CMC,
    CQO,
    DAA,
    DAS,
    CLD,
    CLI,
    AAA,
    AAS,
    CDQE,
    CLAC,
    CLTS,
    HLT,
    INTO,
    INT3,
    INT1,
    INVD,
    IRET,
    IRETD,
    IRETQ,
    LAHF,
    LEAVE,
    RDMSR,
    RDPKRU,
    RDPMC,
    RDTSC,
    RDTSCP,
    RSM,
    SAHF,
    SERIALIZE,
    SFENCE,
    STAC,
    STC,
    STD,
    STI,
    STOSB,
    STOSQ,
    SYSENTER,
    SYSEXIT,
    SYSRET,
    UIRET,
    WAIT,
    FWAIT,
    WBINVD,
    WRMSR,
    WRPKRU,
    XACQUIRE,
    XRELEASE,
    XEND,
    XGETBV,
    XLAT,
    XLATB,
    XLATB64,
    XSETBV,
    XTEST,
    LOCK,
    REPNE,
    REPNZ,
    REP,
    REPE,
    REPZ,
    PCONFIG,
    PBNDKB,
    SWAPGS,
    INVLPGA,
    VMRUN,
    VMLOAD,
    VMSAVE,
    STGI,
    CLGI,
    VMMCALL,
    SKINIT,
    VMXOFF,
    VMLAUNCH,
    VMRESUME,
    VMCALL,
    VMFUNC,
    GETSEC,
    FNINIT,
    FINIT,
    FNCLEX,
    FCLEX,
    FNENI,
    FENI,
    FNDISI,
    FDISI,
    FLDZ,
    FLD1,
    FLDPI,
    FLDL2T,
    FLDL2E,
    FLDLG2,
    FLDLN2,
    FCOMPP,
    FCHS,
    FABS,
    FTST,
    FXAM,
    FXTRACT,
    FPREM,
    FSQRT,
    FRNDINT,
    FSCALE,
    F2XM1,
    FYL2X,
    FPTAN,
    FPATAN,
    FYL2XP1,
    FNOP,
    FDECSTP,
    FINCSTP,
    FNSTSWAX,
    FSTSWAX,
    FSETPM,
    FNSETPM,
    FUCOMPP,
    FPREM1,
    FSINCOS,
    FSIN,
    FCOS,
    AAD,
    AADCX,
    AADOX,
    AAM,
    ACRC32,
    ADEC,
    ADIV,
    AIDIV,
    AIMUL,
    AIMULZU,
    AINC,
    AKMOVB,
    AKMOVD,
    AKMOVQ,
    AKMOVW,
    AMOVBE,
    AMOVRS,
    AMUL,
    ANEG,
    ANOT,
    ARCL,
    ARCR,
    AROL,
    AROR,
    ASAR,
    ASHL,
    ASHLD,
    ASHR,
    ASHRD,
    ENTER,
    INT,
    KMOVB,
    KMOVD,
    KMOVQ,
    KMOVW,
    MOVAPD,
    MOVAPS,
    MOVD,
    MOVDQA,
    MOVHPD,
    MOVHPS,
    MOVLPD,
    MOVLPS,
    MOVSD,
    MOVSS,
    MOVSX,
    MOVUPD,
    MOVUPS,
    PABSB,
    PABSD,
    PABSW,
    PACKSSDW,
    PACKSSWB,
    PACKUSWB,
    PADDB,
    PADDD,
    PADDQ,
    PADDSB,
    PADDSW,
    PADDUSB,
    PADDUSW,
    PADDW,
    PALIGNR,
    PAND,
    PANDN,
    PAVGB,
    PAVGW,
    PCMPEQB,
    PCMPEQD,
    PCMPEQW,
    PCMPGTB,
    PCMPGTD,
    PCMPGTW,
    PHADDD,
    PHADDSW,
    PHADDW,
    PHSUBD,
    PHSUBSW,
    PHSUBW,
    PINSRW,
    PMADDUBSW,
    PMADDWD,
    PMAXSW,
    PMINSW,
    PMULHRSW,
    PMULHUW,
    PMULHW,
    PMULLW,
    PMULUDQ,
    POPP,
    POR,
    PSHUFB,
    PSIGNB,
    PSIGND,
    PSIGNW,
    PSLLD,
    PSLLQ,
    PSLLW,
    PSRAD,
    PSRAW,
    PSRLD,
    PSRLQ,
    PSRLW,
    PSUBB,
    PSUBD,
    PSUBQ,
    PSUBSB,
    PSUBSW,
    PSUBUSB,
    PSUBUSW,
    PSUBW,
    PUNPCKHBW,
    PUNPCKHDQ,
    PUNPCKHWD,
    PUNPCKLBW,
    PUNPCKLDQ,
    PUNPCKLWD,
    PUSHP,
    PXOR,
    SETA,
    SETAE,
    SETAEZU,
    SETAZU,
    SETB,
    SETBE,
    SETBEZU,
    SETBZU,
    SETC,
    SETCZU,
    SETE,
    SETG,
    SETGE,
    SETGEZU,
    SETGZU,
    SETL,
    SETLE,
    SETLEZU,
    SETLZU,
    SETNA,
    SETNAE,
    SETNAEZU,
    SETNAZU,
    SETNB,
    SETNBE,
    SETNBEZU,
    SETNBZU,
    SETNC,
    SETNCZU,
    SETNE,
    SETNEZU,
    SETNG,
    SETNGE,
    SETNGEZU,
    SETNGZU,
    SETNL,
    SETNLE,
    SETNLEZU,
    SETNLZU,
    SETNP,
    SETNPZU,
    SETNZ,
    SETNZZU,
    SETP,
    SETPE,
    SETPEZU,
    SETPO,
    SETPOZU,
    SETPZU,
    SETZ,
    VBROADCASTSD,
    VCOMPRESSPD,
    VCOMPRESSPS,
    VMASKMOVPD,
    VMASKMOVPS,
    VMOVAPD,
    VMOVAPS,
    VMOVD,
    VMOVDQA,
    VMOVHPD,
    VMOVHPS,
    VMOVLPD,
    VMOVLPS,
    VMOVQ,
    VMOVSD,
    VMOVSH,
    VMOVSS,
    VMOVUPD,
    VMOVUPS,
    VMOVW,
    VPBROADCASTQ,
    VPCOMPRESSB,
    VPCOMPRESSW,
    VPERMILPD,
    VPERMILPS,
    VPERMPD,
    VPERMQ,
    VPMASKMOVD,
    VPMASKMOVQ,
    VPSLLD,
    VPSLLQ,
    VPSLLW,
    VPSRAD,
    VPSRAW,
    VPSRLD,
    VPSRLQ,
    VPSRLW,
    IN,
    OUT,
    LOOP,
    LOOPE,
    LOOPNE,
    XBEGIN,
    LJMP,
    LCALL,
    FLD,
    FSTP,
    FST,
    FXCH,
    FILD,
    FISTP,
    FIST,
    FADD,
    FMUL,
    FSUB,
    FSUBR,
    FDIV,
    FDIVR,
    FCOM,
    FADDP,
    FMULP,
    FSUBP,
    FSUBRP,
    FDIVRP,
    FDIVP,
    FCOMP,
    FIADD,
    FIMUL,
    FICOM,
    FICOMP,
    FISUB,
    FISUBR,
    FIDIV,
    FIDIVR,
    FFREE,
    FUCOM,
    FUCOMP,
    FCMOVB,
    FCMOVE,
    FCMOVBE,
    FCMOVU,
    FCMOVNB,
    FCMOVNE,
    FCMOVNBE,
    FCMOVNU,
    FCOMI,
    FCOMIP,
    FUCOMIP,
    FUCOMI,
    FISTTP,
    CCMPNBE,
    CCMPNLE,
    CCMPNGE,
    CCMPNAE,
    CTESTNBE,
    CTESTNLE,
    CTESTNGE,
    CTESTNAE,
}

/// The opcode of a mnemonic written as a fixed byte sequence with no operands, if it is one.
#[verifier::opaque]
pub open spec fn spec_fixed_opcode(m: Mnemonic) -> Option<Seq<u8>> {
    match m {
        Mnemonic::CPUID => Some(seq![0x0Fu8, 0xA2]),
        Mnemonic::RET => Some(seq![0xC3u8]),
        Mnemonic::SYSCALL => Some(seq![0x0Fu8, 0x05]),
        Mnemonic::NOP => Some(seq![0x90u8]),
        Mnemonic::PUSHF | Mnemonic::PUSHFD | Mnemonic::PUSHFQ => Some(seq![0x9Cu8]),
        Mnemonic::POPF | Mnemonic::POPFD | Mnemonic::POPFQ => Some(seq![0x9Du8]),
        Mnemonic::PAUSE => Some(seq![0xF3u8, 0x90]),
        Mnemonic::MWAIT => Some(seq![0x0Fu8, 0x01, 0xC9]),
        Mnemonic::MFENCE => Some(seq![0xF0u8, 0xAE, 0xF0]),
        Mnemonic::LFENCE => Some(seq![0xF0u8, 0xAE, 0xE8]),
        Mnemonic::EMMS => Some(seq![0x0Fu8, 0x77]),
        Mnemonic::MONITOR => Some(seq![0x0Fu8, 0x01, 0xC8]),
        Mnemonic::VZEROUPPER => Some(seq![0xC5u8, 0xF8, 0x77]),
        Mnemonic::VZEROALL => Some(seq![0xC5u8, 0xFC, 0x77]),
        Mnemonic::CLC => Some(seq![0xF8u8]),
        Mnemonic::CMC => Some(seq![0xF5u8]),
        Mnemonic::CQO => Some(seq![0x48u8, 0x99]),
        Mnemonic::DAA => Some(seq![0x27u8]),
        Mnemonic::DAS => Some(seq![0x2Fu8]),
        Mnemonic::CLD => Some(seq![0xFCu8]),
        Mnemonic::CLI => Some(seq![0xFAu8]),
        Mnemonic::AAA => Some(seq![0x37u8]),
        Mnemonic::AAS => Some(seq![0x3Fu8]),
        Mnemonic::CDQE => Some(seq![0x48u8, 0x98]),
        Mnemonic::CLAC => Some(seq![0x0Fu8, 0x01, 0xCA]),
        Mnemonic::CLTS => Some(seq![0x0Fu8, 0x06]),
        Mnemonic::HLT => Some(seq![0xF4u8]),
        Mnemonic::INTO => Some(seq![0xCEu8]),
        Mnemonic::INT3 => Some(seq![0xCCu8]),
        Mnemonic::INT1 => Some(seq![0xF1u8]),
        Mnemonic::INVD => Some(seq![0x0Fu8, 0x08]),
        Mnemonic::IRET | Mnemonic::IRETD => Some(seq![0xCFu8]),
        Mnemonic::IRETQ => Some(seq![0x48u8, 0xCF]),
        Mnemonic::LAHF => Some(seq![0x9Fu8]),
        Mnemonic::LEAVE => Some(seq![0xC9u8]),
        Mnemonic::RDMSR => Some(seq![0x0Fu8, 0x32]),
        Mnemonic::RDPKRU => Some(seq![0x0Fu8, 0x01, 0xEE]),
        Mnemonic::RDPMC => Some(seq![0x0Fu8, 0x33]),
        Mnemonic::RDTSC => Some(seq![0x0Fu8, 0x31]),
        Mnemonic::RDTSCP => Some(seq![0x0Fu8, 0x01, 0xF9]),
        Mnemonic::RSM => Some(seq![0x0Fu8, 0xAA]),
        Mnemonic::SAHF => Some(seq![0x9Eu8]),
        Mnemonic::SERIALIZE => Some(seq![0x0Fu8, 0x01, 0xE8]),
        Mnemonic::SFENCE => Some(seq![0x0Fu8, 0xAE, 0xF8]),
        Mnemonic::STAC => Some(seq![0x0Fu8, 0x01, 0xCB]),
        Mnemonic::STC => Some(seq![0xF9u8]),
        Mnemonic::STD => Some(seq![0xFDu8]),
        Mnemonic::STI => Some(seq![0xFBu8]),
        Mnemonic::STOSB => Some(seq![0xAAu8]),
        Mnemonic::STOSQ => Some(seq![0x48u8, 0xAB]),
        Mnemonic::SYSENTER => Some(seq![0x0Fu8, 0x34]),
        Mnemonic::SYSEXIT => Some(seq![0x0Fu8, 0x35]),
        Mnemonic::SYSRET => Some(seq![0x0Fu8, 0x07]),
        Mnemonic::UD2 => Some(seq![0x0Fu8, 0x0B]),
        Mnemonic::UIRET => Some(seq![0xF3u8, 0x0F, 0x01, 0xEC]),
        Mnemonic::WAIT | Mnemonic::FWAIT => Some(seq![0x9Bu8]),
        Mnemonic::WBINVD => Some(seq![0x0Fu8, 0x09]),
        Mnemonic::WRMSR => Some(seq![0x0Fu8, 0x30]),
        Mnemonic::WRPKRU => Some(seq![0x0Fu8, 0x01, 0xEF]),
        Mnemonic::XACQUIRE => Some(seq![0xF2u8]),
        Mnemonic::XRELEASE => Some(seq![0xF3u8]),
        Mnemonic::XEND => Some(seq![0x0Fu8, 0x01, 0xD5]),
        Mnemonic::XGETBV => Some(seq![0x0Fu8, 0x01, 0xD0]),
        Mnemonic::XLAT | Mnemonic::XLATB => Some(seq![0xD7u8]),
        Mnemonic::XLATB64 => Some(seq![0x48u8, 0xD7]),
        Mnemonic::XSETBV => Some(seq![0x0Fu8, 0x01, 0xD1]),
        Mnemonic::XTEST => Some(seq![0x0Fu8, 0x01, 0xD6]),
        Mnemonic::LOCK => Some(seq![0xF0u8]),
        Mnemonic::REPNE | Mnemonic::REPNZ => Some(seq![0xF2u8]),
        Mnemonic::REP | Mnemonic::REPE | Mnemonic::REPZ => Some(seq![0xF3u8]),
        Mnemonic::PCONFIG => Some(seq![0x0Fu8, 0x01, 0xC5]),
        Mnemonic::PBNDKB => Some(seq![0x0Fu8, 0x01, 0xC7]),
        Mnemonic::SWAPGS => Some(seq![0x0Fu8, 0x01, 0xF8]),
        Mnemonic::INVLPGA => Some(seq![0x0Fu8, 0x01, 0xDF]),
        Mnemonic::VMRUN => Some(seq![0x0Fu8, 0x01, 0xD8]),
        Mnemonic::VMLOAD => Some(seq![0x0Fu8, 0x01, 0xDA]),
        Mnemonic::VMSAVE => Some(seq![0x0Fu8, 0x01, 0xDB]),
        Mnemonic::STGI => Some(seq![0x0Fu8, 0x01, 0xDC]),
        Mnemonic::CLGI => Some(seq![0x0Fu8, 0x01, 0xDD]),
        Mnemonic::VMMCALL => Some(seq![0x0Fu8, 0x01, 0xD9]),
        Mnemonic::SKINIT => Some(seq![0x0Fu8, 0x01, 0xDE]),
        Mnemonic::VMXOFF => Some(seq![0x0Fu8, 0x01, 0xC4]),
        Mnemonic::VMLAUNCH => Some(seq![0x0Fu8, 0x01, 0xC2]),
        Mnemonic::VMRESUME => Some(seq![0x0Fu8, 0x01, 0xC3]),
        Mnemonic::VMCALL => Some(seq![0x0Fu8, 0xC1]),
        Mnemonic::VMFUNC => Some(seq![0x0Fu8, 0x01, 0xD4]),
        Mnemonic::GETSEC => Some(seq![0x0Fu8, 0x37]),
        Mnemonic::FNINIT => Some(seq![0xDBu8, 0xE3]),
        Mnemonic::FINIT => Some(seq![0x9Bu8, 0xDB, 0xE3]),
        Mnemonic::FNCLEX => Some(seq![0xDBu8, 0xE2]),
        Mnemonic::FCLEX => Some(seq![0x9Bu8, 0xDB, 0xE2]),
        Mnemonic::FNENI => Some(seq![0xDBu8, 0xE0]),
        Mnemonic::FENI => Some(seq![0x9Bu8, 0xDB, 0xE0]),
        Mnemonic::FNDISI => Some(seq![0xDBu8, 0xE1]),
        Mnemonic::FDISI => Some(seq![0x9Bu8, 0xDB, 0xE1]),
        Mnemonic::FLDZ => Some(seq![0xD9u8, 0xEE]),
        Mnemonic::FLD1 => Some(seq![0xD9u8, 0xE8]),
        Mnemonic::FLDPI => Some(seq![0xD9u8, 0xEB]),
        Mnemonic::FLDL2T => Some(seq![0xD9u8, 0xE9]),
        Mnemonic::FLDL2E => Some(seq![0xD9u8, 0xEA]),
        Mnemonic::FLDLG2 => Some(seq![0xD9u8, 0xEC]),
        Mnemonic::FLDLN2 => Some(seq![0xD9u8, 0xED]),
        Mnemonic::FCOMPP => Some(seq![0xDEu8, 0xD9]),
        Mnemonic::FCHS => Some(seq![0xD9u8, 0xE0]),
        Mnemonic::FABS => Some(seq![0xD9u8, 0xE1]),
        Mnemonic::FTST => Some(seq![0xD9u8, 0xE4]),
        Mnemonic::FXAM => Some(seq![0xD9u8, 0xE5]),
        Mnemonic::FXTRACT => Some(seq![0xD9u8, 0xF4]),
        Mnemonic::FPREM => Some(seq![0xD9u8, 0xF8]),
        Mnemonic::FSQRT => Some(seq![0xD9u8, 0xFA]),
        Mnemonic::FRNDINT => Some(seq![0xD9u8, 0xFC]),
        Mnemonic::FSCALE => Some(seq![0xD9u8, 0xFD]),
        Mnemonic::F2XM1 => Some(seq![0xD9u8, 0xF0]),
        Mnemonic::FYL2X => Some(seq![0xD9u8, 0xF1]),
        Mnemonic::FPTAN => Some(seq![0xD9u8, 0xF2]),
        Mnemonic::FPATAN => Some(seq![0xD9u8, 0xF3]),
        Mnemonic::FYL2XP1 => Some(seq![0xD9u8, 0xF9]),
        Mnemonic::FNOP => Some(seq![0xD9u8, 0xD0]),
        Mnemonic::FDECSTP => Some(seq![0xD9u8, 0xF6]),
        Mnemonic::FINCSTP => Some(seq![0xD9u8, 0xF7]),
        Mnemonic::FNSTSWAX => Some(seq![0xDFu8, 0xE0]),
        Mnemonic::FSTSWAX => Some(seq![0x9Bu8, 0xDF, 0xE0]),
        Mnemonic::FSETPM => Some(seq![0x9Bu8, 0xD8, 0xE4]),
        Mnemonic::FNSETPM => Some(seq![0xD8u8, 0xE4]),
        Mnemonic::FUCOMPP => Some(seq![0xDAu8, 0xE9]),
        Mnemonic::FPREM1 => Some(seq![0xD9u8, 0xF5]),
        Mnemonic::FSINCOS => Some(seq![0xD9u8, 0xFB]),
        Mnemonic::FSIN => Some(seq![0xD9u8, 0xFE]),
        Mnemonic::FCOS => Some(seq![0xD9u8, 0xFF]),
        _ => None,
    }
}

/// The opcode of a mnemonic written as a fixed byte sequence with no operands, if it is one.
pub fn fixed_opcode(m: Mnemonic) -> (r: Option<Vec<u8>>)
    ensures
        r matches Some(v) ==> v@.len() <= 4,
        match spec_fixed_opcode(m) {
            Some(o) => r matches Some(v) && v@ == o,
            None => r is None,
        },
{
    proof {
        reveal(spec_fixed_opcode);
    }
    match m {
        Mnemonic::CPUID => Some(vec![0x0Fu8, 0xA2]),
        Mnemonic::RET => Some(vec![0xC3u8]),
        Mnemonic::SYSCALL => Some(vec![0x0Fu8, 0x05]),
        Mnemonic::NOP => Some(vec![0x90u8]),
        Mnemonic::PUSHF | Mnemonic::PUSHFD | Mnemonic::PUSHFQ => Some(vec![0x9Cu8]),
        Mnemonic::POPF | Mnemonic::POPFD | Mnemonic::POPFQ => Some(vec![0x9Du8]),
        Mnemonic::PAUSE => Some(vec![0xF3u8, 0x90]),
        Mnemonic::MWAIT => Some(vec![0x0Fu8, 0x01, 0xC9]),
        Mnemonic::MFENCE => Some(vec![0xF0u8, 0xAE, 0xF0]),
        Mnemonic::LFENCE => Some(vec![0xF0u8, 0xAE, 0xE8]),
        Mnemonic::EMMS => Some(vec![0x0Fu8, 0x77]),
        Mnemonic::MONITOR => Some(vec![0x0Fu8, 0x01, 0xC8]),
        Mnemonic::VZEROUPPER => Some(vec![0xC5u8, 0xF8, 0x77]),
        Mnemonic::VZEROALL => Some(vec![0xC5u8, 0xFC, 0x77]),
        Mnemonic::CLC => Some(vec![0xF8u8]),
        Mnemonic::CMC => Some(vec![0xF5u8]),
        Mnemonic::CQO => Some(vec![0x48u8, 0x99]),
        Mnemonic::DAA => Some(vec![0x27u8]),
        Mnemonic::DAS => Some(vec![0x2Fu8]),
        Mnemonic::CLD => Some(vec![0xFCu8]),
        Mnemonic::CLI => Some(vec![0xFAu8]),
        Mnemonic::AAA => Some(vec![0x37u8]),
        Mnemonic::AAS => Some(vec![0x3Fu8]),
        Mnemonic::CDQE => Some(vec![0x48u8, 0x98]),
        Mnemonic::CLAC => Some(vec![0x0Fu8, 0x01, 0xCA]),
        Mnemonic::CLTS => Some(vec![0x0Fu8, 0x06]),
        Mnemonic::HLT => Some(vec![0xF4u8]),
        Mnemonic::INTO => Some(vec![0xCEu8]),
        Mnemonic::INT3 => Some(vec![0xCCu8]),
        Mnemonic::INT1 => Some(vec![0xF1u8]),
        Mnemonic::INVD => Some(vec![0x0Fu8, 0x08]),
        Mnemonic::IRET | Mnemonic::IRETD => Some(vec![0xCFu8]),
        Mnemonic::IRETQ => Some(vec![0x48u8, 0xCF]),
        Mnemonic::LAHF => Some(vec![0x9Fu8]),
        Mnemonic::LEAVE => Some(vec![0xC9u8]),
        Mnemonic::RDMSR => Some(vec![0x0Fu8, 0x32]),
        Mnemonic::RDPKRU => Some(vec![0x0Fu8, 0x01, 0xEE]),
        Mnemonic::RDPMC => Some(vec![0x0Fu8, 0x33]),
        Mnemonic::RDTSC => Some(vec![0x0Fu8, 0x31]),
        Mnemonic::RDTSCP => Some(vec![0x0Fu8, 0x01, 0xF9]),
        Mnemonic::RSM => Some(vec![0x0Fu8, 0xAA]),
        Mnemonic::SAHF => Some(vec![0x9Eu8]),
        Mnemonic::SERIALIZE => Some(vec![0x0Fu8, 0x01, 0xE8]),
        Mnemonic::SFENCE => Some(vec![0x0Fu8, 0xAE, 0xF8]),
        Mnemonic::STAC => Some(vec![0x0Fu8, 0x01, 0xCB]),
        Mnemonic::STC => Some(vec![0xF9u8]),
        Mnemonic::STD => Some(vec![0xFDu8]),
        Mnemonic::STI => Some(vec![0xFBu8]),
        Mnemonic::STOSB => Some(vec![0xAAu8]),
        Mnemonic::STOSQ => Some(vec![0x48u8, 0xAB]),
        Mnemonic::SYSENTER => Some(vec![0x0Fu8, 0x34]),
        Mnemonic::SYSEXIT => Some(vec![0x0Fu8, 0x35]),
        Mnemonic::SYSRET => Some(vec![0x0Fu8, 0x07]),
        Mnemonic::UD2 => Some(vec![0x0Fu8, 0x0B]),
        Mnemonic::UIRET => Some(vec![0xF3u8, 0x0F, 0x01, 0xEC]),
        Mnemonic::WAIT | Mnemonic::FWAIT => Some(vec![0x9Bu8]),
        Mnemonic::WBINVD => Some(vec![0x0Fu8, 0x09]),
        Mnemonic::WRMSR => Some(vec![0x0Fu8, 0x30]),
        Mnemonic::WRPKRU => Some(vec![0x0Fu8, 0x01, 0xEF]),
        Mnemonic::XACQUIRE => Some(vec![0xF2u8]),
        Mnemonic::XRELEASE => Some(vec![0xF3u8]),
        Mnemonic::XEND => Some(vec![0x0Fu8, 0x01, 0xD5]),
        Mnemonic::XGETBV => Some(vec![0x0Fu8, 0x01, 0xD0]),
        Mnemonic::XLAT | Mnemonic::XLATB => Some(vec![0xD7u8]),
        Mnemonic::XLATB64 => Some(vec![0x48u8, 0xD7]),
        Mnemonic::XSETBV => Some(vec![0x0Fu8, 0x01, 0xD1]),
        Mnemonic::XTEST => Some(vec![0x0Fu8, 0x01, 0xD6]),
        Mnemonic::LOCK => Some(vec![0xF0u8]),
        Mnemonic::REPNE | Mnemonic::REPNZ => Some(vec![0xF2u8]),
        Mnemonic::REP | Mnemonic::REPE | Mnemonic::REPZ => Some(vec![0xF3u8]),
        Mnemonic::PCONFIG => Some(vec![0x0Fu8, 0x01, 0xC5]),
        Mnemonic::PBNDKB => Some(vec![0x0Fu8, 0x01, 0xC7]),
        Mnemonic::SWAPGS => Some(vec![0x0Fu8, 0x01, 0xF8]),
        Mnemonic::INVLPGA => Some(vec![0x0Fu8, 0x01, 0xDF]),
        Mnemonic::VMRUN => Some(vec![0x0Fu8, 0x01, 0xD8]),
        Mnemonic::VMLOAD => Some(vec![0x0Fu8, 0x01, 0xDA]),
        Mnemonic::VMSAVE => Some(vec![0x0Fu8, 0x01, 0xDB]),
        Mnemonic::STGI => Some(vec![0x0Fu8, 0x01, 0xDC]),
        Mnemonic::CLGI => Some(vec![0x0Fu8, 0x01, 0xDD]),
        Mnemonic::VMMCALL => Some(vec![0x0Fu8, 0x01, 0xD9]),
        Mnemonic::SKINIT => Some(vec![0x0Fu8, 0x01, 0xDE]),
        Mnemonic::VMXOFF => Some(vec![0x0Fu8, 0x01, 0xC4]),
        Mnemonic::VMLAUNCH => Some(vec![0x0Fu8, 0x01, 0xC2]),
        Mnemonic::VMRESUME => Some(vec![0x0Fu8, 0x01, 0xC3]),
        Mnemonic::VMCALL => Some(vec![0x0Fu8, 0xC1]),
        Mnemonic::VMFUNC => Some(vec![0x0Fu8, 0x01, 0xD4]),
        Mnemonic::GETSEC => Some(vec![0x0Fu8, 0x37]),
        Mnemonic::FNINIT => Some(vec![0xDBu8, 0xE3]),
        Mnemonic::FINIT => Some(vec![0x9Bu8, 0xDB, 0xE3]),
        Mnemonic::FNCLEX => Some(vec![0xDBu8, 0xE2]),
        Mnemonic::FCLEX => Some(vec![0x9Bu8, 0xDB, 0xE2]),
        Mnemonic::FNENI => Some(vec![0xDBu8, 0xE0]),
        Mnemonic::FENI => Some(vec![0x9Bu8, 0xDB, 0xE0]),
        Mnemonic::FNDISI => Some(vec![0xDBu8, 0xE1]),
        Mnemonic::FDISI => Some(vec![0x9Bu8, 0xDB, 0xE1]),
        Mnemonic::FLDZ => Some(vec![0xD9u8, 0xEE]),
        Mnemonic::FLD1 => Some(vec![0xD9u8, 0xE8]),
        Mnemonic::FLDPI => Some(vec![0xD9u8, 0xEB]),
        Mnemonic::FLDL2T => Some(vec![0xD9u8, 0xE9]),
        Mnemonic::FLDL2E => Some(vec![0xD9u8, 0xEA]),
        Mnemonic::FLDLG2 => Some(vec![0xD9u8, 0xEC]),
        Mnemonic::FLDLN2 => Some(vec![0xD9u8, 0xED]),
        Mnemonic::FCOMPP => Some(vec![0xDEu8, 0xD9]),
        Mnemonic::FCHS => Some(vec![0xD9u8, 0xE0]),
        Mnemonic::FABS => Some(vec![0xD9u8, 0xE1]),
        Mnemonic::FTST => Some(vec![0xD9u8, 0xE4]),
        Mnemonic::FXAM => Some(vec![0xD9u8, 0xE5]),
        Mnemonic::FXTRACT => Some(vec![0xD9u8, 0xF4]),
        Mnemonic::FPREM => Some(vec![0xD9u8, 0xF8]),
        Mnemonic::FSQRT => Some(vec![0xD9u8, 0xFA]),
        Mnemonic::FRNDINT => Some(vec![0xD9u8, 0xFC]),
        Mnemonic::FSCALE => Some(vec![0xD9u8, 0xFD]),
        Mnemonic::F2XM1 => Some(vec![0xD9u8, 0xF0]),
        Mnemonic::FYL2X => Some(vec![0xD9u8, 0xF1]),
        Mnemonic::FPTAN => Some(vec![0xD9u8, 0xF2]),
        Mnemonic::FPATAN => Some(vec![0xD9u8, 0xF3]),
        Mnemonic::FYL2XP1 => Some(vec![0xD9u8, 0xF9]),
        Mnemonic::FNOP => Some(vec![0xD9u8, 0xD0]),
        Mnemonic::FDECSTP => Some(vec![0xD9u8, 0xF6]),
        Mnemonic::FINCSTP => Some(vec![0xD9u8, 0xF7]),
        Mnemonic::FNSTSWAX => Some(vec![0xDFu8, 0xE0]),
        Mnemonic::FSTSWAX => Some(vec![0x9Bu8, 0xDF, 0xE0]),
        Mnemonic::FSETPM => Some(vec![0x9Bu8, 0xD8, 0xE4]),
        Mnemonic::FNSETPM => Some(vec![0xD8u8, 0xE4]),
        Mnemonic::FUCOMPP => Some(vec![0xDAu8, 0xE9]),
        Mnemonic::FPREM1 => Some(vec![0xD9u8, 0xF5]),
        Mnemonic::FSINCOS => Some(vec![0xD9u8, 0xFB]),
        Mnemonic::FSIN => Some(vec![0xD9u8, 0xFE]),
        Mnemonic::FCOS => Some(vec![0xD9u8, 0xFF]),
        _ => None,
    }
}

/// How a mnemonic decides whether its instruction needs a REX prefix.
#[verifier::opaque]
pub open spec fn spec_rex_class(m: Mnemonic) -> RexClass {
    match m {
        Mnemonic::CMPXCHG16B => RexClass::Cmpxchg16b,
        Mnemonic::XADD | Mnemonic::XRSTOR | Mnemonic::XRSTOR64 | Mnemonic::XRSTORS | Mnemonic::XRSTORS64 | Mnemonic::XSAVE | Mnemonic::XSAVE64 | Mnemonic::XSAVEC | Mnemonic::XSAVEC64 | Mnemonic::XSAVEOPT | Mnemonic::XSAVEOPT64 | Mnemonic::XSAVES | Mnemonic::XSAVES64 | Mnemonic::SHLD | Mnemonic::SHRD | Mnemonic::SMSW | Mnemonic::WRFSBASE | Mnemonic::WRGSBASE | Mnemonic::ROL | Mnemonic::RDRAND | Mnemonic::RDSEED | Mnemonic::RDSSPQ | Mnemonic::ROR | Mnemonic::RCL | Mnemonic::RCR | Mnemonic::BSF | Mnemonic::INVPCID | Mnemonic::ADCX | Mnemonic::ADOX | Mnemonic::BSWAP | Mnemonic::CMPXCHG | Mnemonic::BSR | Mnemonic::BT | Mnemonic::BTC | Mnemonic::BTS | Mnemonic::BTR | Mnemonic::CMOVA | Mnemonic::CMOVB | Mnemonic::CMOVC | Mnemonic::CMOVE | Mnemonic::CMOVG | Mnemonic::CMOVL | Mnemonic::CMOVO | Mnemonic::CMOVP | Mnemonic::CMOVS | Mnemonic::CMOVZ | Mnemonic::CMOVAE | Mnemonic::CMOVBE | Mnemonic::CMOVLE | Mnemonic::CMOVGE | Mnemonic::CMOVNA | Mnemonic::CMOVNB | Mnemonic::CMOVNC | Mnemonic::CMOVNE | Mnemonic::CMOVNG | Mnemonic::CMOVNL | Mnemonic::CMOVNO | Mnemonic::CMOVNP | Mnemonic::CMOVNS | Mnemonic::CMOVNZ | Mnemonic::CMOVPE | Mnemonic::CMOVPO | Mnemonic::CMOVNBE | Mnemonic::CMOVNLE | Mnemonic::CMOVNGE | Mnemonic::MOVZX | Mnemonic::MOVDIRI | Mnemonic::MOVBE | Mnemonic::LZCNT | Mnemonic::LSL | Mnemonic::CMOVNAE | Mnemonic::MOVMSKPD | Mnemonic::CVTSS2SI | Mnemonic::CVTSI2SS | Mnemonic::PINSRQ | Mnemonic::MOVQ | Mnemonic::PEXTRW | Mnemonic::PEXTRQ | Mnemonic::POPCNT | Mnemonic::EXTRACTPS => RexClass::QwordAlways,
        Mnemonic::MOV => RexClass::Mov,
        Mnemonic::SUB | Mnemonic::ADD | Mnemonic::IMUL | Mnemonic::CMP | Mnemonic::TEST | Mnemonic::DEC | Mnemonic::INC | Mnemonic::OR | Mnemonic::AND | Mnemonic::NOT | Mnemonic::NEG | Mnemonic::ADC | Mnemonic::SBB | Mnemonic::XCHG | Mnemonic::XOR => RexClass::Arith,
        Mnemonic::SAR | Mnemonic::SAL | Mnemonic::SHL | Mnemonic::SHR | Mnemonic::LEA => RexClass::ShiftLea,
        _ => RexClass::Other,
    }
}

/// How a mnemonic decides whether its instruction needs a REX prefix.
pub fn rex_class(m: Mnemonic) -> (r: RexClass)
    ensures
        r == spec_rex_class(m),
{
    proof {
        reveal(spec_rex_class);
    }
    match m {
        Mnemonic::CMPXCHG16B => RexClass::Cmpxchg16b,
        Mnemonic::XADD | Mnemonic::XRSTOR | Mnemonic::XRSTOR64 | Mnemonic::XRSTORS | Mnemonic::XRSTORS64 | Mnemonic::XSAVE | Mnemonic::XSAVE64 | Mnemonic::XSAVEC | Mnemonic::XSAVEC64 | Mnemonic::XSAVEOPT | Mnemonic::XSAVEOPT64 | Mnemonic::XSAVES | Mnemonic::XSAVES64 | Mnemonic::SHLD | Mnemonic::SHRD | Mnemonic::SMSW | Mnemonic::WRFSBASE | Mnemonic::WRGSBASE | Mnemonic::ROL | Mnemonic::RDRAND | Mnemonic::RDSEED | Mnemonic::RDSSPQ | Mnemonic::ROR | Mnemonic::RCL | Mnemonic::RCR | Mnemonic::BSF | Mnemonic::INVPCID | Mnemonic::ADCX | Mnemonic::ADOX | Mnemonic::BSWAP | Mnemonic::CMPXCHG | Mnemonic::BSR | Mnemonic::BT | Mnemonic::BTC | Mnemonic::BTS | Mnemonic::BTR | Mnemonic::CMOVA | Mnemonic::CMOVB | Mnemonic::CMOVC | Mnemonic::CMOVE | Mnemonic::CMOVG | Mnemonic::CMOVL | Mnemonic::CMOVO | Mnemonic::CMOVP | Mnemonic::CMOVS | Mnemonic::CMOVZ | Mnemonic::CMOVAE | Mnemonic::CMOVBE | Mnemonic::CMOVLE | Mnemonic::CMOVGE | Mnemonic::CMOVNA | Mnemonic::CMOVNB | Mnemonic::CMOVNC | Mnemonic::CMOVNE | Mnemonic::CMOVNG | Mnemonic::CMOVNL | Mnemonic::CMOVNO | Mnemonic::CMOVNP | Mnemonic::CMOVNS | Mnemonic::CMOVNZ | Mnemonic::CMOVPE | Mnemonic::CMOVPO | Mnemonic::CMOVNBE | Mnemonic::CMOVNLE | Mnemonic::CMOVNGE | Mnemonic::MOVZX | Mnemonic::MOVDIRI | Mnemonic::MOVBE | Mnemonic::LZCNT | Mnemonic::LSL | Mnemonic::CMOVNAE | Mnemonic::MOVMSKPD | Mnemonic::CVTSS2SI | Mnemonic::CVTSI2SS | Mnemonic::PINSRQ | Mnemonic::MOVQ | Mnemonic::PEXTRW | Mnemonic::PEXTRQ | Mnemonic::POPCNT | Mnemonic::EXTRACTPS => RexClass::QwordAlways,
        Mnemonic::MOV => RexClass::Mov,
        Mnemonic::SUB | Mnemonic::ADD | Mnemonic::IMUL | Mnemonic::CMP | Mnemonic::TEST | Mnemonic::DEC | Mnemonic::INC | Mnemonic::OR | Mnemonic::AND | Mnemonic::NOT | Mnemonic::NEG | Mnemonic::ADC | Mnemonic::SBB | Mnemonic::XCHG | Mnemonic::XOR => RexClass::Arith,
        Mnemonic::SAR | Mnemonic::SAL | Mnemonic::SHL | Mnemonic::SHR | Mnemonic::LEA => RexClass::ShiftLea,
        _ => RexClass::Other,
    }
}

/// The opcodes of a jump or call: with a 32-bit displacement, with ModRM, with an 8-bit
/// displacement; and the ModRM.reg of its ModRM form; for the mnemonics that are jumps or calls.
///
/// JG's short form is 0x7C here, the byte JL's short form also has. This is deliberate:
/// the table keeps the bytes this assembler emits for JG, and its users may depend on them.
#[verifier::opaque]
pub open spec fn spec_jump_opcodes(m: Mnemonic) -> Option<(Seq<u8>, Seq<u8>, Seq<u8>, u8)> {
    match m {
        Mnemonic::JMP => Some((seq![0xE9u8], seq![0xFFu8], seq![0xEBu8], 4u8)),
        Mnemonic::CALL => Some((seq![0xE8u8], seq![0xFFu8], seq![0xE8u8], 2u8)),
        Mnemonic::JA => Some((seq![0x0Fu8, 0x87], Seq::empty(), seq![0x77u8], 0u8)),
        Mnemonic::JB => Some((seq![0x0Fu8, 0x82], Seq::empty(), seq![0x72u8], 0u8)),
        Mnemonic::JC => Some((seq![0x0Fu8, 0x82], Seq::empty(), seq![0x72u8], 0u8)),
        Mnemonic::JO => Some((seq![0x0Fu8, 0x80], Seq::empty(), seq![0x70u8], 0u8)),
        Mnemonic::JP => Some((seq![0x0Fu8, 0x8A], Seq::empty(), seq![0x7Au8], 0u8)),
        Mnemonic::JS => Some((seq![0x0Fu8, 0x88], Seq::empty(), seq![0x78u8], 0u8)),
        Mnemonic::JL => Some((seq![0x0Fu8, 0x8C], Seq::empty(), seq![0x7Cu8], 0u8)),
        Mnemonic::JG => Some((seq![0x0Fu8, 0x8F], Seq::empty(), seq![0x7Cu8], 0u8)),
        Mnemonic::JE | Mnemonic::JZ => Some((seq![0x0Fu8, 0x84], Seq::empty(), seq![0x74u8], 0u8)),
        Mnemonic::JAE => Some((seq![0x0Fu8, 0x83], Seq::empty(), seq![0x73u8], 0u8)),
        Mnemonic::JBE => Some((seq![0x0Fu8, 0x86], Seq::empty(), seq![0x76u8], 0u8)),
        Mnemonic::JNA => Some((seq![0x0Fu8, 0x86], Seq::empty(), seq![0x76u8], 0u8)),
        Mnemonic::JNB => Some((seq![0x0Fu8, 0x83], Seq::empty(), seq![0x73u8], 0u8)),
        Mnemonic::JNC => Some((seq![0x0Fu8, 0x83], Seq::empty(), seq![0x73u8], 0u8)),
        Mnemonic::JNG => Some((seq![0x0Fu8, 0x8E], Seq::empty(), seq![0x7Eu8], 0u8)),
        Mnemonic::JNL => Some((seq![0x0Fu8, 0x8D], Seq::empty(), seq![0x7Du8], 0u8)),
        Mnemonic::JNO => Some((seq![0x0Fu8, 0x81], Seq::empty(), seq![0x71u8], 0u8)),
        Mnemonic::JNP => Some((seq![0x0Fu8, 0x8B], Seq::empty(), seq![0x7Bu8], 0u8)),
        Mnemonic::JNS => Some((seq![0x0Fu8, 0x89], Seq::empty(), seq![0x79u8], 0u8)),
        Mnemonic::JPE => Some((seq![0x0Fu8, 0x8A], Seq::empty(), seq![0x7Au8], 0u8)),
        Mnemonic::JPO => Some((seq![0x0Fu8, 0x8B], Seq::empty(), seq![0x7Bu8], 0u8)),
        Mnemonic::JNE | Mnemonic::JNZ => Some((seq![0x0Fu8, 0x85], Seq::empty(), seq![0x75u8], 0u8)),
        Mnemonic::JLE => Some((seq![0x0Fu8, 0x8E], Seq::empty(), seq![0x7Eu8], 0u8)),
        Mnemonic::JGE => Some((seq![0x0Fu8, 0x8D], Seq::empty(), seq![0x7Du8], 0u8)),
        Mnemonic::JNAE => Some((seq![0x0Fu8, 0x82], Seq::empty(), seq![0x72u8], 0u8)),
        Mnemonic::JNBE => Some((seq![0x0Fu8, 0x87], Seq::empty(), seq![0x77u8], 0u8)),
        Mnemonic::JNGE => Some((seq![0x0Fu8, 0x8C], Seq::empty(), seq![0x7Cu8], 0u8)),
        Mnemonic::JNLE => Some((seq![0x0Fu8, 0x8F], Seq::empty(), seq![0x7Fu8], 0u8)),
        Mnemonic::JCXZ => Some((Seq::empty(), Seq::empty(), seq![0xE3u8], 0u8)),
        Mnemonic::JECXZ => Some((Seq::empty(), Seq::empty(), seq![0xE3u8], 0u8)),
        Mnemonic::JRCXZ => Some((Seq::empty(), Seq::empty(), seq![0xE3u8], 0u8)),
        _ => None,
    }
}

/// The opcodes of a jump or call, as `spec_jump_opcodes` gives them.
pub fn jump_opcodes(m: Mnemonic) -> (r: Option<(Vec<u8>, Vec<u8>, Vec<u8>, u8)>)
    ensures
        r matches Some((x, y, z, w)) ==> x@.len() <= 4 && y@.len() <= 4 && z@.len() <= 4,
        match spec_jump_opcodes(m) {
            Some((a, b, c, d)) => r matches Some((x, y, z, w)) && x@ == a && y@ == b && z@ == c && w == d,
            None => r is None,
        },
{
    proof {
        reveal(spec_jump_opcodes);
    }
    match m {
        Mnemonic::JMP => Some((vec![0xE9u8], vec![0xFFu8], vec![0xEBu8], 4u8)),
        Mnemonic::CALL => Some((vec![0xE8u8], vec![0xFFu8], vec![0xE8u8], 2u8)),
        Mnemonic::JA => Some((vec![0x0Fu8, 0x87], Vec::new(), vec![0x77u8], 0u8)),
        Mnemonic::JB => Some((vec![0x0Fu8, 0x82], Vec::new(), vec![0x72u8], 0u8)),
        Mnemonic::JC => Some((vec![0x0Fu8, 0x82], Vec::new(), vec![0x72u8], 0u8)),
        Mnemonic::JO => Some((vec![0x0Fu8, 0x80], Vec::new(), vec![0x70u8], 0u8)),
        Mnemonic::JP => Some((vec![0x0Fu8, 0x8A], Vec::new(), vec![0x7Au8], 0u8)),
        Mnemonic::JS => Some((vec![0x0Fu8, 0x88], Vec::new(), vec![0x78u8], 0u8)),
        Mnemonic::JL => Some((vec![0x0Fu8, 0x8C], Vec::new(), vec![0x7Cu8], 0u8)),
        Mnemonic::JG => Some((vec![0x0Fu8, 0x8F], Vec::new(), vec![0x7Cu8], 0u8)),
        Mnemonic::JE | Mnemonic::JZ => Some((vec![0x0Fu8, 0x84], Vec::new(), vec![0x74u8], 0u8)),
        Mnemonic::JAE => Some((vec![0x0Fu8, 0x83], Vec::new(), vec![0x73u8], 0u8)),
        Mnemonic::JBE => Some((vec![0x0Fu8, 0x86], Vec::new(), vec![0x76u8], 0u8)),
        Mnemonic::JNA => Some((vec![0x0Fu8, 0x86], Vec::new(), vec![0x76u8], 0u8)),
        Mnemonic::JNB => Some((vec![0x0Fu8, 0x83], Vec::new(), vec![0x73u8], 0u8)),
        Mnemonic::JNC => Some((vec![0x0Fu8, 0x83], Vec::new(), vec![0x73u8], 0u8)),
        Mnemonic::JNG => Some((vec![0x0Fu8, 0x8E], Vec::new(), vec![0x7Eu8], 0u8)),
        Mnemonic::JNL => Some((vec![0x0Fu8, 0x8D], Vec::new(), vec![0x7Du8], 0u8)),
        Mnemonic::JNO => Some((vec![0x0Fu8, 0x81], Vec::new(), vec![0x71u8], 0u8)),
        Mnemonic::JNP => Some((vec![0x0Fu8, 0x8B], Vec::new(), vec![0x7Bu8], 0u8)),
        Mnemonic::JNS => Some((vec![0x0Fu8, 0x89], Vec::new(), vec![0x79u8], 0u8)),
        Mnemonic::JPE => Some((vec![0x0Fu8, 0x8A], Vec::new(), vec![0x7Au8], 0u8)),
        Mnemonic::JPO => Some((vec![0x0Fu8, 0x8B], Vec::new(), vec![0x7Bu8], 0u8)),
        Mnemonic::JNE | Mnemonic::JNZ => Some((vec![0x0Fu8, 0x85], Vec::new(), vec![0x75u8], 0u8)),
        Mnemonic::JLE => Some((vec![0x0Fu8, 0x8E], Vec::new(), vec![0x7Eu8], 0u8)),
        Mnemonic::JGE => Some((vec![0x0Fu8, 0x8D], Vec::new(), vec![0x7Du8], 0u8)),
        Mnemonic::JNAE => Some((vec![0x0Fu8, 0x82], Vec::new(), vec![0x72u8], 0u8)),
        Mnemonic::JNBE => Some((vec![0x0Fu8, 0x87], Vec::new(), vec![0x77u8], 0u8)),
        Mnemonic::JNGE => Some((vec![0x0Fu8, 0x8C], Vec::new(), vec![0x7Cu8], 0u8)),
        Mnemonic::JNLE => Some((vec![0x0Fu8, 0x8F], Vec::new(), vec![0x7Fu8], 0u8)),
        Mnemonic::JCXZ => Some((Vec::new(), Vec::new(), vec![0xE3u8], 0u8)),
        Mnemonic::JECXZ => Some((Vec::new(), Vec::new(), vec![0xE3u8], 0u8)),
        Mnemonic::JRCXZ => Some((Vec::new(), Vec::new(), vec![0xE3u8], 0u8)),
        _ => None,
    }
}

/// The second opcode byte (after 0x0F) of a conditional move, for the mnemonics that are one.
#[verifier::opaque]
pub open spec fn spec_cmov_opcode(m: Mnemonic) -> Option<u8> {
    match m {
        Mnemonic::CMOVA => Some(0x47u8),
        Mnemonic::CMOVAE => Some(0x43u8),
        Mnemonic::CMOVB => Some(0x42u8),
        Mnemonic::CMOVBE => Some(0x46u8),
        Mnemonic::CMOVC => Some(0x42u8),
        Mnemonic::CMOVNC => Some(0x43u8),
        Mnemonic::CMOVE => Some(0x44u8),
        Mnemonic::CMOVG => Some(0x4Fu8),
        Mnemonic::CMOVGE => Some(0x4Du8),
        Mnemonic::CMOVL => Some(0x4Cu8),
        Mnemonic::CMOVLE => Some(0x4Eu8),
        Mnemonic::CMOVNA => Some(0x46u8),
        Mnemonic::CMOVNB => Some(0x43u8),
        Mnemonic::CMOVNBE => Some(0x47u8),
        Mnemonic::CMOVNE => Some(0x45u8),
        Mnemonic::CMOVNG => Some(0x4Eu8),
        Mnemonic::CMOVNGE => Some(0x4Cu8),
        Mnemonic::CMOVNL => Some(0x4Du8),
        Mnemonic::CMOVNLE => Some(0x4Fu8),
        Mnemonic::CMOVNAE => Some(0x42u8),
        Mnemonic::CMOVNO => Some(0x41u8),
        Mnemonic::CMOVNP => Some(0x4Bu8),
        Mnemonic::CMOVNS => Some(0x49u8),
        Mnemonic::CMOVNZ => Some(0x45u8),
        Mnemonic::CMOVO => Some(0x40u8),
        Mnemonic::CMOVP => Some(0x4Au8),
        Mnemonic::CMOVPO => Some(0x4Bu8),
        Mnemonic::CMOVS => Some(0x48u8),
        Mnemonic::CMOVZ => Some(0x44u8),
        Mnemonic::CMOVPE => Some(0x4Au8),
        _ => None,
    }
}

/// The second opcode byte of a conditional move, as `spec_cmov_opcode` gives it.
pub fn cmov_opcode(m: Mnemonic) -> (r: Option<u8>)
    ensures
        r == spec_cmov_opcode(m),
{
    proof {
        reveal(spec_cmov_opcode);
    }
    match m {
        Mnemonic::CMOVA => Some(0x47u8),
        Mnemonic::CMOVAE => Some(0x43u8),
        Mnemonic::CMOVB => Some(0x42u8),
        Mnemonic::CMOVBE => Some(0x46u8),
        Mnemonic::CMOVC => Some(0x42u8),
        Mnemonic::CMOVNC => Some(0x43u8),
        Mnemonic::CMOVE => Some(0x44u8),
        Mnemonic::CMOVG => Some(0x4Fu8),
        Mnemonic::CMOVGE => Some(0x4Du8),
        Mnemonic::CMOVL => Some(0x4Cu8),
        Mnemonic::CMOVLE => Some(0x4Eu8),
        Mnemonic::CMOVNA => Some(0x46u8),
        Mnemonic::CMOVNB => Some(0x43u8),
        Mnemonic::CMOVNBE => Some(0x47u8),
        Mnemonic::CMOVNE => Some(0x45u8),
        Mnemonic::CMOVNG => Some(0x4Eu8),
        Mnemonic::CMOVNGE => Some(0x4Cu8),
        Mnemonic::CMOVNL => Some(0x4Du8),
        Mnemonic::CMOVNLE => Some(0x4Fu8),
        Mnemonic::CMOVNAE => Some(0x42u8),
        Mnemonic::CMOVNO => Some(0x41u8),
        Mnemonic::CMOVNP => Some(0x4Bu8),
        Mnemonic::CMOVNS => Some(0x49u8),
        Mnemonic::CMOVNZ => Some(0x45u8),
        Mnemonic::CMOVO => Some(0x40u8),
        Mnemonic::CMOVP => Some(0x4Au8),
        Mnemonic::CMOVPO => Some(0x4Bu8),
        Mnemonic::CMOVS => Some(0x48u8),
        Mnemonic::CMOVZ => Some(0x44u8),
        Mnemonic::CMOVPE => Some(0x4Au8),
        _ => None,
    }
}

/// For a conditional compare or test (CCMPcc, CTESTcc): whether it is a test, and its
/// condition code.
#[verifier::opaque]
pub open spec fn spec_condcomp_cond(m: Mnemonic) -> Option<(bool, u8)> {
    match m {
        Mnemonic::CCMPNBE => Some((false, 7u8)),
        Mnemonic::CCMPNLE => Some((false, 15u8)),
        Mnemonic::CCMPNGE => Some((false, 12u8)),
        Mnemonic::CCMPNAE => Some((false, 2u8)),
        Mnemonic::CTESTNBE => Some((true, 7u8)),
        Mnemonic::CTESTNLE => Some((true, 15u8)),
        Mnemonic::CTESTNGE => Some((true, 12u8)),
        Mnemonic::CTESTNAE => Some((true, 2u8)),
        Mnemonic::CCMPB => Some((false, 2u8)),
        Mnemonic::CCMPBE => Some((false, 6u8)),
        Mnemonic::CCMPNB => Some((false, 3u8)),
        Mnemonic::CCMPL => Some((false, 12u8)),
        Mnemonic::CCMPLE => Some((false, 14u8)),
        Mnemonic::CCMPNL => Some((false, 13u8)),
        Mnemonic::CCMPT => Some((false, 10u8)),
        Mnemonic::CCMPF => Some((false, 11u8)),
        Mnemonic::CCMPNO => Some((false, 1u8)),
        Mnemonic::CCMPO => Some((false, 0u8)),
        Mnemonic::CCMPNZ => Some((false, 5u8)),
        Mnemonic::CCMPZ => Some((false, 4u8)),
        Mnemonic::CCMPNE => Some((false, 5u8)),
        Mnemonic::CCMPE => Some((false, 4u8)),
        Mnemonic::CCMPS => Some((false, 8u8)),
        Mnemonic::CCMPNS => Some((false, 9u8)),
        Mnemonic::CCMPC => Some((false, 2u8)),
        Mnemonic::CCMPNC => Some((false, 3u8)),
        Mnemonic::CCMPG => Some((false, 15u8)),
        Mnemonic::CCMPGE => Some((false, 13u8)),
        Mnemonic::CCMPNG => Some((false, 14u8)),
        Mnemonic::CCMPA => Some((false, 7u8)),
        Mnemonic::CCMPAE => Some((false, 3u8)),
        Mnemonic::CCMPNA => Some((false, 6u8)),
        Mnemonic::CTESTB => Some((true, 2u8)),
        Mnemonic::CTESTBE => Some((true, 6u8)),
        Mnemonic::CTESTNB => Some((true, 3u8)),
        Mnemonic::CTESTL => Some((true, 12u8)),
        Mnemonic::CTESTLE => Some((true, 14u8)),
        Mnemonic::CTESTNL => Some((true, 13u8)),
        Mnemonic::CTESTT => Some((true, 10u8)),
        Mnemonic::CTESTF => Some((true, 11u8)),
        Mnemonic::CTESTNO => Some((true, 1u8)),
        Mnemonic::CTESTO => Some((true, 0u8)),
        Mnemonic::CTESTNZ => Some((true, 5u8)),
        Mnemonic::CTESTZ => Some((true, 4u8)),
        Mnemonic::CTESTNE => Some((true, 5u8)),
        Mnemonic::CTESTE => Some((true, 4u8)),
        Mnemonic::CTESTS => Some((true, 8u8)),
        Mnemonic::CTESTNS => Some((true, 9u8)),
        Mnemonic::CTESTC => Some((true, 2u8)),
        Mnemonic::CTESTNC => Some((true, 3u8)),
        Mnemonic::CTESTG => Some((true, 15u8)),
        Mnemonic::CTESTGE => Some((true, 13u8)),
        Mnemonic::CTESTNG => Some((true, 14u8)),
        Mnemonic::CTESTA => Some((true, 7u8)),
        Mnemonic::CTESTAE => Some((true, 3u8)),
        Mnemonic::CTESTNA => Some((true, 6u8)),
        _ => None,
    }
}

/// For a conditional compare or test: whether it is a test, and its condition code.
pub fn condcomp_cond(m: Mnemonic) -> (r: Option<(bool, u8)>)
    ensures
        r == spec_condcomp_cond(m),
{
    proof {
        reveal(spec_condcomp_cond);
    }
    match m {
        Mnemonic::CCMPNBE => Some((false, 7u8)),
        Mnemonic::CCMPNLE => Some((false, 15u8)),
        Mnemonic::CCMPNGE => Some((false, 12u8)),
        Mnemonic::CCMPNAE => Some((false, 2u8)),
        Mnemonic::CTESTNBE => Some((true, 7u8)),
        Mnemonic::CTESTNLE => Some((true, 15u8)),
        Mnemonic::CTESTNGE => Some((true, 12u8)),
        Mnemonic::CTESTNAE => Some((true, 2u8)),
        Mnemonic::CCMPB => Some((false, 2u8)),
        Mnemonic::CCMPBE => Some((false, 6u8)),
        Mnemonic::CCMPNB => Some((false, 3u8)),
        Mnemonic::CCMPL => Some((false, 12u8)),
        Mnemonic::CCMPLE => Some((false, 14u8)),
        Mnemonic::CCMPNL => Some((false, 13u8)),
        Mnemonic::CCMPT => Some((false, 10u8)),
        Mnemonic::CCMPF => Some((false, 11u8)),
        Mnemonic::CCMPNO => Some((false, 1u8)),
        Mnemonic::CCMPO => Some((false, 0u8)),
        Mnemonic::CCMPNZ => Some((false, 5u8)),
        Mnemonic::CCMPZ => Some((false, 4u8)),
        Mnemonic::CCMPNE => Some((false, 5u8)),
        Mnemonic::CCMPE => Some((false, 4u8)),
        Mnemonic::CCMPS => Some((false, 8u8)),
        Mnemonic::CCMPNS => Some((false, 9u8)),
        Mnemonic::CCMPC => Some((false, 2u8)),
        Mnemonic::CCMPNC => Some((false, 3u8)),
        Mnemonic::CCMPG => Some((false, 15u8)),
        Mnemonic::CCMPGE => Some((false, 13u8)),
        Mnemonic::CCMPNG => Some((false, 14u8)),
        Mnemonic::CCMPA => Some((false, 7u8)),
        Mnemonic::CCMPAE => Some((false, 3u8)),
        Mnemonic::CCMPNA => Some((false, 6u8)),
        Mnemonic::CTESTB => Some((true, 2u8)),
        Mnemonic::CTESTBE => Some((true, 6u8)),
        Mnemonic::CTESTNB => Some((true, 3u8)),
        Mnemonic::CTESTL => Some((true, 12u8)),
        Mnemonic::CTESTLE => Some((true, 14u8)),
        Mnemonic::CTESTNL => Some((true, 13u8)),
        Mnemonic::CTESTT => Some((true, 10u8)),
        Mnemonic::CTESTF => Some((true, 11u8)),
        Mnemonic::CTESTNO => Some((true, 1u8)),
        Mnemonic::CTESTO => Some((true, 0u8)),
        Mnemonic::CTESTNZ => Some((true, 5u8)),
        Mnemonic::CTESTZ => Some((true, 4u8)),
        Mnemonic::CTESTNE => Some((true, 5u8)),
        Mnemonic::CTESTE => Some((true, 4u8)),
        Mnemonic::CTESTS => Some((true, 8u8)),
        Mnemonic::CTESTNS => Some((true, 9u8)),
        Mnemonic::CTESTC => Some((true, 2u8)),
        Mnemonic::CTESTNC => Some((true, 3u8)),
        Mnemonic::CTESTG => Some((true, 15u8)),
        Mnemonic::CTESTGE => Some((true, 13u8)),
        Mnemonic::CTESTNG => Some((true, 14u8)),
        Mnemonic::CTESTA => Some((true, 7u8)),
        Mnemonic::CTESTAE => Some((true, 3u8)),
        Mnemonic::CTESTNA => Some((true, 6u8)),
        _ => None,
    }
}

} // verus!
