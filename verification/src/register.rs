use vstd::prelude::*;
use vstd::string::StringSliceAdditionalSpecFns;

use crate::text::push_char;
use crate::value::{dec_nat, push_dec};

verus! {

/// The registers the tokenizer recognizes.
#[derive(Clone, Copy, Debug, PartialEq, Eq, Structural)]
pub enum Register {
    AL,
    BL,
    CL,
    DL,
    SPL,
    BPL,
    SIL,
    DIL,
    AH,
    BH,
    CH,
    DH,
    AX,
    BX,
    CX,
    DX,
    SP,
    BP,
    SI,
    DI,
    EAX,
    EBX,
    ECX,
    EDX,
    ESP,
    EBP,
    ESI,
    EDI,
    RAX,
    RBX,
    RCX,
    RDX,
    RSP,
    RBP,
    RSI,
    RDI,
    R8,
    R9,
    R10,
    R11,
    R12,
    R13,
    R14,
    R15,
    R8D,
    R9D,
    R10D,
    R11D,
    R12D,
    R13D,
    R14D,
    R15D,
    R8W,
    R9W,
    R10W,
    R11W,
    R12W,
    R13W,
    R14W,
    R15W,
    R8B,
    R9B,
    R10B,
    R11B,
    R12B,
    R13B,
    R14B,
    R15B,
    CR0,
    CR2,
    CR3,
    CR4,
    CR8,
    DR0,
    DR1,
    DR2,
    DR3,
    DR6,
    DR7,
    RIP,
    EIP,
    IP,
}

/// Number of registers.
pub const REG_COUNT: usize = 82;

/// The registers in declaration order.
pub open spec fn spec_reg_at(i: int) -> Register {
    if i == 0 {
        Register::AL
    } else if i == 1 {
        Register::BL
    } else if i == 2 {
        Register::CL
    } else if i == 3 {
        Register::DL
    } else if i == 4 {
        Register::SPL
    } else if i == 5 {
        Register::BPL
    } else if i == 6 {
        Register::SIL
    } else if i == 7 {
        Register::DIL
    } else if i == 8 {
        Register::AH
    } else if i == 9 {
        Register::BH
    } else if i == 10 {
        Register::CH
    } else if i == 11 {
        Register::DH
    } else if i == 12 {
        Register::AX
    } else if i == 13 {
        Register::BX
    } else if i == 14 {
        Register::CX
    } else if i == 15 {
        Register::DX
    } else if i == 16 {
        Register::SP
    } else if i == 17 {
        Register::BP
    } else if i == 18 {
        Register::SI
    } else if i == 19 {
        Register::DI
    } else if i == 20 {
        Register::EAX
    } else if i == 21 {
        Register::EBX
    } else if i == 22 {
        Register::ECX
    } else if i == 23 {
        Register::EDX
    } else if i == 24 {
        Register::ESP
    } else if i == 25 {
        Register::EBP
    } else if i == 26 {
        Register::ESI
    } else if i == 27 {
        Register::EDI
    } else if i == 28 {
        Register::RAX
    } else if i == 29 {
        Register::RBX
    } else if i == 30 {
        Register::RCX
    } else if i == 31 {
        Register::RDX
    } else if i == 32 {
        Register::RSP
    } else if i == 33 {
        Register::RBP
    } else if i == 34 {
        Register::RSI
    } else if i == 35 {
        Register::RDI
    } else if i == 36 {
        Register::R8
    } else if i == 37 {
        Register::R9
    } else if i == 38 {
        Register::R10
    } else if i == 39 {
        Register::R11
    } else if i == 40 {
        Register::R12
    } else if i == 41 {
        Register::R13
    } else if i == 42 {
        Register::R14
    } else if i == 43 {
        Register::R15
    } else if i == 44 {
        Register::R8D
    } else if i == 45 {
        Register::R9D
    } else if i == 46 {
        Register::R10D
    } else if i == 47 {
        Register::R11D
    } else if i == 48 {
        Register::R12D
    } else if i == 49 {
        Register::R13D
    } else if i == 50 {
        Register::R14D
    } else if i == 51 {
        Register::R15D
    } else if i == 52 {
        Register::R8W
    } else if i == 53 {
        Register::R9W
    } else if i == 54 {
        Register::R10W
    } else if i == 55 {
        Register::R11W
    } else if i == 56 {
        Register::R12W
    } else if i == 57 {
        Register::R13W
    } else if i == 58 {
        Register::R14W
    } else if i == 59 {
        Register::R15W
    } else if i == 60 {
        Register::R8B
    } else if i == 61 {
        Register::R9B
    } else if i == 62 {
        Register::R10B
    } else if i == 63 {
        Register::R11B
    } else if i == 64 {
        Register::R12B
    } else if i == 65 {
        Register::R13B
    } else if i == 66 {
        Register::R14B
    } else if i == 67 {
        Register::R15B
    } else if i == 68 {
        Register::CR0
    } else if i == 69 {
        Register::CR2
    } else if i == 70 {
        Register::CR3
    } else if i == 71 {
        Register::CR4
    } else if i == 72 {
        Register::CR8
    } else if i == 73 {
        Register::DR0
    } else if i == 74 {
        Register::DR1
    } else if i == 75 {
        Register::DR2
    } else if i == 76 {
        Register::DR3
    } else if i == 77 {
        Register::DR6
    } else if i == 78 {
        Register::DR7
    } else if i == 79 {
        Register::RIP
    } else if i == 80 {
        Register::EIP
    } else {
        Register::IP
    }
}

/// The position of a register in declaration order.
pub open spec fn spec_reg_index(r: Register) -> int {
    match r {
        Register::AL => 0,
        Register::BL => 1,
        Register::CL => 2,
        Register::DL => 3,
        Register::SPL => 4,
        Register::BPL => 5,
        Register::SIL => 6,
        Register::DIL => 7,
        Register::AH => 8,
        Register::BH => 9,
        Register::CH => 10,
        Register::DH => 11,
        Register::AX => 12,
        Register::BX => 13,
        Register::CX => 14,
        Register::DX => 15,
        Register::SP => 16,
        Register::BP => 17,
        Register::SI => 18,
        Register::DI => 19,
        Register::EAX => 20,
        Register::EBX => 21,
        Register::ECX => 22,
        Register::EDX => 23,
        Register::ESP => 24,
        Register::EBP => 25,
        Register::ESI => 26,
        Register::EDI => 27,
        Register::RAX => 28,
        Register::RBX => 29,
        Register::RCX => 30,
        Register::RDX => 31,
        Register::RSP => 32,
        Register::RBP => 33,
        Register::RSI => 34,
        Register::RDI => 35,
        Register::R8 => 36,
        Register::R9 => 37,
        Register::R10 => 38,
        Register::R11 => 39,
        Register::R12 => 40,
        Register::R13 => 41,
        Register::R14 => 42,
        Register::R15 => 43,
        Register::R8D => 44,
        Register::R9D => 45,
        Register::R10D => 46,
        Register::R11D => 47,
        Register::R12D => 48,
        Register::R13D => 49,
        Register::R14D => 50,
        Register::R15D => 51,
        Register::R8W => 52,
        Register::R9W => 53,
        Register::R10W => 54,
        Register::R11W => 55,
        Register::R12W => 56,
        Register::R13W => 57,
        Register::R14W => 58,
        Register::R15W => 59,
        Register::R8B => 60,
        Register::R9B => 61,
        Register::R10B => 62,
        Register::R11B => 63,
        Register::R12B => 64,
        Register::R13B => 65,
        Register::R14B => 66,
        Register::R15B => 67,
        Register::CR0 => 68,
        Register::CR2 => 69,
        Register::CR3 => 70,
        Register::CR4 => 71,
        Register::CR8 => 72,
        Register::DR0 => 73,
        Register::DR1 => 74,
        Register::DR2 => 75,
        Register::DR3 => 76,
        Register::DR6 => 77,
        Register::DR7 => 78,
        Register::RIP => 79,
        Register::EIP => 80,
        Register::IP => 81,
    }
}

/// The bytes that identify a register when parsed, 0 standing for any byte: the parser
/// looks only at the positions that are not 0.
///
/// RDI is identified by "rdd", so that "rdd" reads as RDI and "rdi" is unknown. This is
/// deliberate: the parser keeps the names this assembler has accepted, and sources written
/// for it may use them.
pub open spec fn reg_pattern(r: Register) -> Seq<u8> {
    match r {
        Register::AL => seq![97u8, 108u8],
        Register::BL => seq![98u8, 108u8],
        Register::CL => seq![99u8, 108u8],
        Register::DL => seq![100u8, 108u8],
        Register::SPL => seq![115u8, 112u8, 0u8],
        Register::BPL => seq![98u8, 0u8, 0u8],
        Register::SIL => seq![115u8, 105u8, 0u8],
        Register::DIL => seq![100u8, 0u8, 108u8],
        Register::AH => seq![97u8, 104u8],
        Register::BH => seq![98u8, 104u8],
        Register::CH => seq![99u8, 104u8],
        Register::DH => seq![100u8, 104u8],
        Register::AX => seq![97u8, 120u8],
        Register::BX => seq![98u8, 120u8],
        Register::CX => seq![99u8, 120u8],
        Register::DX => seq![100u8, 120u8],
        Register::SP => seq![115u8, 112u8],
        Register::BP => seq![98u8, 112u8],
        Register::SI => seq![115u8, 105u8],
        Register::DI => seq![100u8, 105u8],
        Register::EAX => seq![101u8, 97u8, 0u8],
        Register::EBX => seq![101u8, 98u8, 120u8],
        Register::ECX => seq![101u8, 99u8, 0u8],
        Register::EDX => seq![101u8, 100u8, 120u8],
        Register::ESP => seq![101u8, 115u8, 112u8],
        Register::EBP => seq![101u8, 98u8, 112u8],
        Register::ESI => seq![101u8, 115u8, 105u8],
        Register::EDI => seq![101u8, 100u8, 105u8],
        Register::RAX => seq![114u8, 97u8, 0u8],
        Register::RBX => seq![114u8, 98u8, 120u8],
        Register::RCX => seq![114u8, 99u8, 0u8],
        Register::RDX => seq![114u8, 100u8, 120u8],
        Register::RSP => seq![114u8, 115u8, 112u8],
        Register::RBP => seq![114u8, 98u8, 112u8],
        Register::RSI => seq![114u8, 115u8, 105u8],
        Register::RDI => seq![114u8, 100u8, 100u8],
        Register::R8 => seq![0u8, 56u8],
        Register::R9 => seq![0u8, 57u8],
        Register::R10 => seq![114u8, 49u8, 48u8],
        Register::R11 => seq![114u8, 49u8, 49u8],
        Register::R12 => seq![114u8, 49u8, 50u8],
        Register::R13 => seq![114u8, 49u8, 51u8],
        Register::R14 => seq![114u8, 49u8, 52u8],
        Register::R15 => seq![114u8, 49u8, 53u8],
        Register::R8D => seq![114u8, 56u8, 100u8],
        Register::R9D => seq![114u8, 57u8, 100u8],
        Register::R10D => seq![114u8, 0u8, 48u8, 100u8],
        Register::R11D => seq![114u8, 0u8, 49u8, 100u8],
        Register::R12D => seq![114u8, 0u8, 50u8, 100u8],
        Register::R13D => seq![114u8, 0u8, 51u8, 100u8],
        Register::R14D => seq![114u8, 0u8, 52u8, 100u8],
        Register::R15D => seq![114u8, 0u8, 53u8, 100u8],
        Register::R8W => seq![114u8, 56u8, 119u8],
        Register::R9W => seq![114u8, 57u8, 119u8],
        Register::R10W => seq![114u8, 0u8, 48u8, 119u8],
        Register::R11W => seq![114u8, 0u8, 49u8, 119u8],
        Register::R12W => seq![114u8, 0u8, 50u8, 119u8],
        Register::R13W => seq![114u8, 0u8, 51u8, 119u8],
        Register::R14W => seq![114u8, 0u8, 52u8, 119u8],
        Register::R15W => seq![114u8, 0u8, 53u8, 119u8],
        Register::R8B => seq![114u8, 56u8, 98u8],
        Register::R9B => seq![114u8, 57u8, 98u8],
        Register::R10B => seq![114u8, 0u8, 48u8, 98u8],
        Register::R11B => seq![114u8, 0u8, 49u8, 98u8],
        Register::R12B => seq![114u8, 0u8, 50u8, 98u8],
        Register::R13B => seq![114u8, 0u8, 51u8, 98u8],
        Register::R14B => seq![114u8, 0u8, 52u8, 98u8],
        Register::R15B => seq![114u8, 0u8, 53u8, 98u8],
        Register::CR0 => seq![99u8, 0u8, 48u8],
        Register::CR2 => seq![99u8, 0u8, 50u8],
        Register::CR3 => seq![99u8, 0u8, 51u8],
        Register::CR4 => seq![99u8, 0u8, 52u8],
        Register::CR8 => seq![99u8, 0u8, 56u8],
        Register::DR0 => seq![100u8, 0u8, 48u8],
        Register::DR1 => seq![100u8, 0u8, 49u8],
        Register::DR2 => seq![100u8, 0u8, 50u8],
        Register::DR3 => seq![100u8, 0u8, 51u8],
        Register::DR6 => seq![100u8, 0u8, 54u8],
        Register::DR7 => seq![100u8, 0u8, 55u8],
        Register::RIP => seq![114u8, 105u8, 0u8],
        Register::EIP => seq![101u8, 105u8, 0u8],
        Register::IP => seq![105u8, 112u8],
    }
}

/// The register at position `i` in declaration order.
fn reg_at(i: usize) -> (r: Register)
    requires
        i < REG_COUNT,
    ensures
        r == spec_reg_at(i as int),
{
    if i == 0 {
        Register::AL
    } else if i == 1 {
        Register::BL
    } else if i == 2 {
        Register::CL
    } else if i == 3 {
        Register::DL
    } else if i == 4 {
        Register::SPL
    } else if i == 5 {
        Register::BPL
    } else if i == 6 {
        Register::SIL
    } else if i == 7 {
        Register::DIL
    } else if i == 8 {
        Register::AH
    } else if i == 9 {
        Register::BH
    } else if i == 10 {
        Register::CH
    } else if i == 11 {
        Register::DH
    } else if i == 12 {
        Register::AX
    } else if i == 13 {
        Register::BX
    } else if i == 14 {
        Register::CX
    } else if i == 15 {
        Register::DX
    } else if i == 16 {
        Register::SP
    } else if i == 17 {
        Register::BP
    } else if i == 18 {
        Register::SI
    } else if i == 19 {
        Register::DI
    } else if i == 20 {
        Register::EAX
    } else if i == 21 {
        Register::EBX
    } else if i == 22 {
        Register::ECX
    } else if i == 23 {
        Register::EDX
    } else if i == 24 {
        Register::ESP
    } else if i == 25 {
        Register::EBP
    } else if i == 26 {
        Register::ESI
    } else if i == 27 {
        Register::EDI
    } else if i == 28 {
        Register::RAX
    } else if i == 29 {
        Register::RBX
    } else if i == 30 {
        Register::RCX
    } else if i == 31 {
        Register::RDX
    } else if i == 32 {
        Register::RSP
    } else if i == 33 {
        Register::RBP
    } else if i == 34 {
        Register::RSI
    } else if i == 35 {
        Register::RDI
    } else if i == 36 {
        Register::R8
    } else if i == 37 {
        Register::R9
    } else if i == 38 {
        Register::R10
    } else if i == 39 {
        Register::R11
    } else if i == 40 {
        Register::R12
    } else if i == 41 {
        Register::R13
    } else if i == 42 {
        Register::R14
    } else if i == 43 {
        Register::R15
    } else if i == 44 {
        Register::R8D
    } else if i == 45 {
        Register::R9D
    } else if i == 46 {
        Register::R10D
    } else if i == 47 {
        Register::R11D
    } else if i == 48 {
        Register::R12D
    } else if i == 49 {
        Register::R13D
    } else if i == 50 {
        Register::R14D
    } else if i == 51 {
        Register::R15D
    } else if i == 52 {
        Register::R8W
    } else if i == 53 {
        Register::R9W
    } else if i == 54 {
        Register::R10W
    } else if i == 55 {
        Register::R11W
    } else if i == 56 {
        Register::R12W
    } else if i == 57 {
        Register::R13W
    } else if i == 58 {
        Register::R14W
    } else if i == 59 {
        Register::R15W
    } else if i == 60 {
        Register::R8B
    } else if i == 61 {
        Register::R9B
    } else if i == 62 {
        Register::R10B
    } else if i == 63 {
        Register::R11B
    } else if i == 64 {
        Register::R12B
    } else if i == 65 {
        Register::R13B
    } else if i == 66 {
        Register::R14B
    } else if i == 67 {
        Register::R15B
    } else if i == 68 {
        Register::CR0
    } else if i == 69 {
        Register::CR2
    } else if i == 70 {
        Register::CR3
    } else if i == 71 {
        Register::CR4
    } else if i == 72 {
        Register::CR8
    } else if i == 73 {
        Register::DR0
    } else if i == 74 {
        Register::DR1
    } else if i == 75 {
        Register::DR2
    } else if i == 76 {
        Register::DR3
    } else if i == 77 {
        Register::DR6
    } else if i == 78 {
        Register::DR7
    } else if i == 79 {
        Register::RIP
    } else if i == 80 {
        Register::EIP
    } else {
        Register::IP
    }
}

/// The identifying bytes of a register.
fn pattern(r: Register) -> (p: Vec<u8>)
    ensures
        p@ == reg_pattern(r),
{
    match r {
        Register::AL => {
            let v = vec![97u8, 108u8];
            assert(v@ == reg_pattern(r));
            v
        },
        Register::BL => {
            let v = vec![98u8, 108u8];
            assert(v@ == reg_pattern(r));
            v
        },
        Register::CL => {
            let v = vec![99u8, 108u8];
            assert(v@ == reg_pattern(r));
            v
        },
        Register::DL => {
            let v = vec![100u8, 108u8];
            assert(v@ == reg_pattern(r));
            v
        },
        Register::SPL => {
            let v = vec![115u8, 112u8, 0u8];
            assert(v@ == reg_pattern(r));
            v
        },
        Register::BPL => {
            let v = vec![98u8, 0u8, 0u8];
            assert(v@ == reg_pattern(r));
            v
        },
        Register::SIL => {
            let v = vec![115u8, 105u8, 0u8];
            assert(v@ == reg_pattern(r));
            v
        },
        Register::DIL => {
            let v = vec![100u8, 0u8, 108u8];
            assert(v@ == reg_pattern(r));
            v
        },
        Register::AH => {
            let v = vec![97u8, 104u8];
            assert(v@ == reg_pattern(r));
            v
        },
        Register::BH => {
            let v = vec![98u8, 104u8];
            assert(v@ == reg_pattern(r));
            v
        },
        Register::CH => {
            let v = vec![99u8, 104u8];
            assert(v@ == reg_pattern(r));
            v
        },
        Register::DH => {
            let v = vec![100u8, 104u8];
            assert(v@ == reg_pattern(r));
            v
        },
        Register::AX => {
            let v = vec![97u8, 120u8];
            assert(v@ == reg_pattern(r));
            v
        },
        Register::BX => {
            let v = vec![98u8, 120u8];
            assert(v@ == reg_pattern(r));
            v
        },
        Register::CX => {
            let v = vec![99u8, 120u8];
            assert(v@ == reg_pattern(r));
            v
        },
        Register::DX => {
            let v = vec![100u8, 120u8];
            assert(v@ == reg_pattern(r));
            v
        },
        Register::SP => {
            let v = vec![115u8, 112u8];
            assert(v@ == reg_pattern(r));
            v
        },
        Register::BP => {
            let v = vec![98u8, 112u8];
            assert(v@ == reg_pattern(r));
            v
        },
        Register::SI => {
            let v = vec![115u8, 105u8];
            assert(v@ == reg_pattern(r));
            v
        },
        Register::DI => {
            let v = vec![100u8, 105u8];
            assert(v@ == reg_pattern(r));
            v
        },
        Register::EAX => {
            let v = vec![101u8, 97u8, 0u8];
            assert(v@ == reg_pattern(r));
            v
        },
        Register::EBX => {
            let v = vec![101u8, 98u8, 120u8];
            assert(v@ == reg_pattern(r));
            v
        },
        Register::ECX => {
            let v = vec![101u8, 99u8, 0u8];
            assert(v@ == reg_pattern(r));
            v
        },
        Register::EDX => {
            let v = vec![101u8, 100u8, 120u8];
            assert(v@ == reg_pattern(r));
            v
        },
        Register::ESP => {
            let v = vec![101u8, 115u8, 112u8];
            assert(v@ == reg_pattern(r));
            v
        },
        Register::EBP => {
            let v = vec![101u8, 98u8, 112u8];
            assert(v@ == reg_pattern(r));
            v
        },
        Register::ESI => {
            let v = vec![101u8, 115u8, 105u8];
            assert(v@ == reg_pattern(r));
            v
        },
        Register::EDI => {
            let v = vec![101u8, 100u8, 105u8];
            assert(v@ == reg_pattern(r));
            v
        },
        Register::RAX => {
            let v = vec![114u8, 97u8, 0u8];
            assert(v@ == reg_pattern(r));
            v
        },
        Register::RBX => {
            let v = vec![114u8, 98u8, 120u8];
            assert(v@ == reg_pattern(r));
            v
        },
        Register::RCX => {
            let v = vec![114u8, 99u8, 0u8];
            assert(v@ == reg_pattern(r));
            v
        },
        Register::RDX => {
            let v = vec![114u8, 100u8, 120u8];
            assert(v@ == reg_pattern(r));
            v
        },
        Register::RSP => {
            let v = vec![114u8, 115u8, 112u8];
            assert(v@ == reg_pattern(r));
            v
        },
        Register::RBP => {
            let v = vec![114u8, 98u8, 112u8];
            assert(v@ == reg_pattern(r));
            v
        },
        Register::RSI => {
            let v = vec![114u8, 115u8, 105u8];
            assert(v@ == reg_pattern(r));
            v
        },
        Register::RDI => {
            let v = vec![114u8, 100u8, 100u8];
            assert(v@ == reg_pattern(r));
            v
        },
        Register::R8 => {
            let v = vec![0u8, 56u8];
            assert(v@ == reg_pattern(r));
            v
        },
        Register::R9 => {
            let v = vec![0u8, 57u8];
            assert(v@ == reg_pattern(r));
            v
        },
        Register::R10 => {
            let v = vec![114u8, 49u8, 48u8];
            assert(v@ == reg_pattern(r));
            v
        },
        Register::R11 => {
            let v = vec![114u8, 49u8, 49u8];
            assert(v@ == reg_pattern(r));
            v
        },
        Register::R12 => {
            let v = vec![114u8, 49u8, 50u8];
            assert(v@ == reg_pattern(r));
            v
        },
        Register::R13 => {
            let v = vec![114u8, 49u8, 51u8];
            assert(v@ == reg_pattern(r));
            v
        },
        Register::R14 => {
            let v = vec![114u8, 49u8, 52u8];
            assert(v@ == reg_pattern(r));
            v
        },
        Register::R15 => {
            let v = vec![114u8, 49u8, 53u8];
            assert(v@ == reg_pattern(r));
            v
        },
        Register::R8D => {
            let v = vec![114u8, 56u8, 100u8];
            assert(v@ == reg_pattern(r));
            v
        },
        Register::R9D => {
            let v = vec![114u8, 57u8, 100u8];
            assert(v@ == reg_pattern(r));
            v
        },
        Register::R10D => {
            let v = vec![114u8, 0u8, 48u8, 100u8];
            assert(v@ == reg_pattern(r));
            v
        },
        Register::R11D => {
            let v = vec![114u8, 0u8, 49u8, 100u8];
            assert(v@ == reg_pattern(r));
            v
        },
        Register::R12D => {
            let v = vec![114u8, 0u8, 50u8, 100u8];
            assert(v@ == reg_pattern(r));
            v
        },
        Register::R13D => {
            let v = vec![114u8, 0u8, 51u8, 100u8];
            assert(v@ == reg_pattern(r));
            v
        },
        Register::R14D => {
            let v = vec![114u8, 0u8, 52u8, 100u8];
            assert(v@ == reg_pattern(r));
            v
        },
        Register::R15D => {
            let v = vec![114u8, 0u8, 53u8, 100u8];
            assert(v@ == reg_pattern(r));
            v
        },
        Register::R8W => {
            let v = vec![114u8, 56u8, 119u8];
            assert(v@ == reg_pattern(r));
            v
        },
        Register::R9W => {
            let v = vec![114u8, 57u8, 119u8];
            assert(v@ == reg_pattern(r));
            v
        },
        Register::R10W => {
            let v = vec![114u8, 0u8, 48u8, 119u8];
            assert(v@ == reg_pattern(r));
            v
        },
        Register::R11W => {
            let v = vec![114u8, 0u8, 49u8, 119u8];
            assert(v@ == reg_pattern(r));
            v
        },
        Register::R12W => {
            let v = vec![114u8, 0u8, 50u8, 119u8];
            assert(v@ == reg_pattern(r));
            v
        },
        Register::R13W => {
            let v = vec![114u8, 0u8, 51u8, 119u8];
            assert(v@ == reg_pattern(r));
            v
        },
        Register::R14W => {
            let v = vec![114u8, 0u8, 52u8, 119u8];
            assert(v@ == reg_pattern(r));
            v
        },
        Register::R15W => {
            let v = vec![114u8, 0u8, 53u8, 119u8];
            assert(v@ == reg_pattern(r));
            v
        },
        Register::R8B => {
            let v = vec![114u8, 56u8, 98u8];
            assert(v@ == reg_pattern(r));
            v
        },
        Register::R9B => {
            let v = vec![114u8, 57u8, 98u8];
            assert(v@ == reg_pattern(r));
            v
        },
        Register::R10B => {
            let v = vec![114u8, 0u8, 48u8, 98u8];
            assert(v@ == reg_pattern(r));
            v
        },
        Register::R11B => {
            let v = vec![114u8, 0u8, 49u8, 98u8];
            assert(v@ == reg_pattern(r));
            v
        },
        Register::R12B => {
            let v = vec![114u8, 0u8, 50u8, 98u8];
            assert(v@ == reg_pattern(r));
            v
        },
        Register::R13B => {
            let v = vec![114u8, 0u8, 51u8, 98u8];
            assert(v@ == reg_pattern(r));
            v
        },
        Register::R14B => {
            let v = vec![114u8, 0u8, 52u8, 98u8];
            assert(v@ == reg_pattern(r));
            v
        },
        Register::R15B => {
            let v = vec![114u8, 0u8, 53u8, 98u8];
            assert(v@ == reg_pattern(r));
            v
        },
        Register::CR0 => {
            let v = vec![99u8, 0u8, 48u8];
            assert(v@ == reg_pattern(r));
            v
        },
        Register::CR2 => {
            let v = vec![99u8, 0u8, 50u8];
            assert(v@ == reg_pattern(r));
            v
        },
        Register::CR3 => {
            let v = vec![99u8, 0u8, 51u8];
            assert(v@ == reg_pattern(r));
            v
        },
        Register::CR4 => {
            let v = vec![99u8, 0u8, 52u8];
            assert(v@ == reg_pattern(r));
            v
        },
        Register::CR8 => {
            let v = vec![99u8, 0u8, 56u8];
            assert(v@ == reg_pattern(r));
            v
        },
        Register::DR0 => {
            let v = vec![100u8, 0u8, 48u8];
            assert(v@ == reg_pattern(r));
            v
        },
        Register::DR1 => {
            let v = vec![100u8, 0u8, 49u8];
            assert(v@ == reg_pattern(r));
            v
        },
        Register::DR2 => {
            let v = vec![100u8, 0u8, 50u8];
            assert(v@ == reg_pattern(r));
            v
        },
        Register::DR3 => {
            let v = vec![100u8, 0u8, 51u8];
            assert(v@ == reg_pattern(r));
            v
        },
        Register::DR6 => {
            let v = vec![100u8, 0u8, 54u8];
            assert(v@ == reg_pattern(r));
            v
        },
        Register::DR7 => {
            let v = vec![100u8, 0u8, 55u8];
            assert(v@ == reg_pattern(r));
            v
        },
        Register::RIP => {
            let v = vec![114u8, 105u8, 0u8];
            assert(v@ == reg_pattern(r));
            v
        },
        Register::EIP => {
            let v = vec![101u8, 105u8, 0u8];
            assert(v@ == reg_pattern(r));
            v
        },
        Register::IP => {
            let v = vec![105u8, 112u8];
            assert(v@ == reg_pattern(r));
            v
        },
    }
}

/// Every register stands at its position in declaration order.
pub proof fn lemma_reg_index(r: Register)
    ensures
        0 <= spec_reg_index(r) < REG_COUNT,
        spec_reg_at(spec_reg_index(r)) == r,
{
}

/// The name of a register as source text writes it, in lower case.
pub open spec fn reg_name(r: Register) -> Seq<u8> {
    match r {
        Register::AL => seq![97u8, 108],
        Register::BL => seq![98u8, 108],
        Register::CL => seq![99u8, 108],
        Register::DL => seq![100u8, 108],
        Register::SPL => seq![115u8, 112, 108],
        Register::BPL => seq![98u8, 112, 108],
        Register::SIL => seq![115u8, 105, 108],
        Register::DIL => seq![100u8, 105, 108],
        Register::AH => seq![97u8, 104],
        Register::BH => seq![98u8, 104],
        Register::CH => seq![99u8, 104],
        Register::DH => seq![100u8, 104],
        Register::AX => seq![97u8, 120],
        Register::BX => seq![98u8, 120],
        Register::CX => seq![99u8, 120],
        Register::DX => seq![100u8, 120],
        Register::SP => seq![115u8, 112],
        Register::BP => seq![98u8, 112],
        Register::SI => seq![115u8, 105],
        Register::DI => seq![100u8, 105],
        Register::EAX => seq![101u8, 97, 120],
        Register::EBX => seq![101u8, 98, 120],
        Register::ECX => seq![101u8, 99, 120],
        Register::EDX => seq![101u8, 100, 120],
        Register::ESP => seq![101u8, 115, 112],
        Register::EBP => seq![101u8, 98, 112],
        Register::ESI => seq![101u8, 115, 105],
        Register::EDI => seq![101u8, 100, 105],
        Register::RAX => seq![114u8, 97, 120],
        Register::RBX => seq![114u8, 98, 120],
        Register::RCX => seq![114u8, 99, 120],
        Register::RDX => seq![114u8, 100, 120],
        Register::RSP => seq![114u8, 115, 112],
        Register::RBP => seq![114u8, 98, 112],
        Register::RSI => seq![114u8, 115, 105],
        Register::RDI => seq![114u8, 100, 105],
        Register::R8 => seq![114u8, 56],
        Register::R9 => seq![114u8, 57],
        Register::R10 => seq![114u8, 49, 48],
        Register::R11 => seq![114u8, 49, 49],
        Register::R12 => seq![114u8, 49, 50],
        Register::R13 => seq![114u8, 49, 51],
        Register::R14 => seq![114u8, 49, 52],
        Register::R15 => seq![114u8, 49, 53],
        Register::R8D => seq![114u8, 56, 100],
        Register::R9D => seq![114u8, 57, 100],
        Register::R10D => seq![114u8, 49, 48, 100],
        Register::R11D => seq![114u8, 49, 49, 100],
        Register::R12D => seq![114u8, 49, 50, 100],
        Register::R13D => seq![114u8, 49, 51, 100],
        Register::R14D => seq![114u8, 49, 52, 100],
        Register::R15D => seq![114u8, 49, 53, 100],
        Register::R8W => seq![114u8, 56, 119],
        Register::R9W => seq![114u8, 57, 119],
        Register::R10W => seq![114u8, 49, 48, 119],
        Register::R11W => seq![114u8, 49, 49, 119],
        Register::R12W => seq![114u8, 49, 50, 119],
        Register::R13W => seq![114u8, 49, 51, 119],
        Register::R14W => seq![114u8, 49, 52, 119],
        Register::R15W => seq![114u8, 49, 53, 119],
        Register::R8B => seq![114u8, 56, 98],
        Register::R9B => seq![114u8, 57, 98],
        Register::R10B => seq![114u8, 49, 48, 98],
        Register::R11B => seq![114u8, 49, 49, 98],
        Register::R12B => seq![114u8, 49, 50, 98],
        Register::R13B => seq![114u8, 49, 51, 98],
        Register::R14B => seq![114u8, 49, 52, 98],
        Register::R15B => seq![114u8, 49, 53, 98],
        Register::CR0 => seq![99u8, 114, 48],
        Register::CR2 => seq![99u8, 114, 50],
        Register::CR3 => seq![99u8, 114, 51],
        Register::CR4 => seq![99u8, 114, 52],
        Register::CR8 => seq![99u8, 114, 56],
        Register::DR0 => seq![100u8, 114, 48],
        Register::DR1 => seq![100u8, 114, 49],
        Register::DR2 => seq![100u8, 114, 50],
        Register::DR3 => seq![100u8, 114, 51],
        Register::DR6 => seq![100u8, 114, 54],
        Register::DR7 => seq![100u8, 114, 55],
        Register::RIP => seq![114u8, 105, 112],
        Register::EIP => seq![101u8, 105, 112],
        Register::IP => seq![105u8, 112],
    }
}

/// Whether byte `i` of two identifying patterns can be fitted by one byte: either is a
/// wildcard there, or they agree.
pub open spec fn byte_compatible(p: Seq<u8>, q: Seq<u8>, i: int) -> bool {
    p[i] == 0 || q[i] == 0 || p[i] == q[i]
}

/// Whether some byte string could fit both identifying patterns `p` and `q` (at most four
/// bytes long): same length and every byte compatible.
pub open spec fn patterns_compatible(p: Seq<u8>, q: Seq<u8>) -> bool {
    &&& p.len() == q.len()
    &&& p.len() <= 4
    &&& (p.len() > 0 ==> byte_compatible(p, q, 0))
    &&& (p.len() > 1 ==> byte_compatible(p, q, 1))
    &&& (p.len() > 2 ==> byte_compatible(p, q, 2))
    &&& (p.len() > 3 ==> byte_compatible(p, q, 3))
}

proof fn lemma_pattern_apart_al(r2: Register)
    requires
        r2 != Register::AL,
    ensures
        !patterns_compatible(reg_pattern(Register::AL), reg_pattern(r2)),
        pat_matches(reg_name(Register::AL), reg_pattern(Register::AL)),
{
    assert(reg_name(Register::AL).len() == reg_pattern(Register::AL).len());
}
proof fn lemma_pattern_apart_bl(r2: Register)
    requires
        r2 != Register::BL,
    ensures
        !patterns_compatible(reg_pattern(Register::BL), reg_pattern(r2)),
        pat_matches(reg_name(Register::BL), reg_pattern(Register::BL)),
{
    assert(reg_name(Register::BL).len() == reg_pattern(Register::BL).len());
}
proof fn lemma_pattern_apart_cl(r2: Register)
    requires
        r2 != Register::CL,
    ensures
        !patterns_compatible(reg_pattern(Register::CL), reg_pattern(r2)),
        pat_matches(reg_name(Register::CL), reg_pattern(Register::CL)),
{
    assert(reg_name(Register::CL).len() == reg_pattern(Register::CL).len());
}
proof fn lemma_pattern_apart_dl(r2: Register)
    requires
        r2 != Register::DL,
    ensures
        !patterns_compatible(reg_pattern(Register::DL), reg_pattern(r2)),
        pat_matches(reg_name(Register::DL), reg_pattern(Register::DL)),
{
    assert(reg_name(Register::DL).len() == reg_pattern(Register::DL).len());
}
proof fn lemma_pattern_apart_spl(r2: Register)
    requires
        r2 != Register::SPL,
    ensures
        !patterns_compatible(reg_pattern(Register::SPL), reg_pattern(r2)),
        pat_matches(reg_name(Register::SPL), reg_pattern(Register::SPL)),
{
    assert(reg_name(Register::SPL).len() == reg_pattern(Register::SPL).len());
}
proof fn lemma_pattern_apart_bpl(r2: Register)
    requires
        r2 != Register::BPL,
    ensures
        !patterns_compatible(reg_pattern(Register::BPL), reg_pattern(r2)),
        pat_matches(reg_name(Register::BPL), reg_pattern(Register::BPL)),
{
    assert(reg_name(Register::BPL).len() == reg_pattern(Register::BPL).len());
}
proof fn lemma_pattern_apart_sil(r2: Register)
    requires
        r2 != Register::SIL,
    ensures
        !patterns_compatible(reg_pattern(Register::SIL), reg_pattern(r2)),
        pat_matches(reg_name(Register::SIL), reg_pattern(Register::SIL)),
{
    assert(reg_name(Register::SIL).len() == reg_pattern(Register::SIL).len());
}
proof fn lemma_pattern_apart_dil(r2: Register)
    requires
        r2 != Register::DIL,
    ensures
        !patterns_compatible(reg_pattern(Register::DIL), reg_pattern(r2)),
        pat_matches(reg_name(Register::DIL), reg_pattern(Register::DIL)),
{
    assert(reg_name(Register::DIL).len() == reg_pattern(Register::DIL).len());
}
proof fn lemma_pattern_apart_ah(r2: Register)
    requires
        r2 != Register::AH,
    ensures
        !patterns_compatible(reg_pattern(Register::AH), reg_pattern(r2)),
        pat_matches(reg_name(Register::AH), reg_pattern(Register::AH)),
{
    assert(reg_name(Register::AH).len() == reg_pattern(Register::AH).len());
}
proof fn lemma_pattern_apart_bh(r2: Register)
    requires
        r2 != Register::BH,
    ensures
        !patterns_compatible(reg_pattern(Register::BH), reg_pattern(r2)),
        pat_matches(reg_name(Register::BH), reg_pattern(Register::BH)),
{
    assert(reg_name(Register::BH).len() == reg_pattern(Register::BH).len());
}
proof fn lemma_pattern_apart_ch(r2: Register)
    requires
        r2 != Register::CH,
    ensures
        !patterns_compatible(reg_pattern(Register::CH), reg_pattern(r2)),
        pat_matches(reg_name(Register::CH), reg_pattern(Register::CH)),
{
    assert(reg_name(Register::CH).len() == reg_pattern(Register::CH).len());
}
proof fn lemma_pattern_apart_dh(r2: Register)
    requires
        r2 != Register::DH,
    ensures
        !patterns_compatible(reg_pattern(Register::DH), reg_pattern(r2)),
        pat_matches(reg_name(Register::DH), reg_pattern(Register::DH)),
{
    assert(reg_name(Register::DH).len() == reg_pattern(Register::DH).len());
}
proof fn lemma_pattern_apart_ax(r2: Register)
    requires
        r2 != Register::AX,
    ensures
        !patterns_compatible(reg_pattern(Register::AX), reg_pattern(r2)),
        pat_matches(reg_name(Register::AX), reg_pattern(Register::AX)),
{
    assert(reg_name(Register::AX).len() == reg_pattern(Register::AX).len());
}
proof fn lemma_pattern_apart_bx(r2: Register)
    requires
        r2 != Register::BX,
    ensures
        !patterns_compatible(reg_pattern(Register::BX), reg_pattern(r2)),
        pat_matches(reg_name(Register::BX), reg_pattern(Register::BX)),
{
    assert(reg_name(Register::BX).len() == reg_pattern(Register::BX).len());
}
proof fn lemma_pattern_apart_cx(r2: Register)
    requires
        r2 != Register::CX,
    ensures
        !patterns_compatible(reg_pattern(Register::CX), reg_pattern(r2)),
        pat_matches(reg_name(Register::CX), reg_pattern(Register::CX)),
{
    assert(reg_name(Register::CX).len() == reg_pattern(Register::CX).len());
}
proof fn lemma_pattern_apart_dx(r2: Register)
    requires
        r2 != Register::DX,
    ensures
        !patterns_compatible(reg_pattern(Register::DX), reg_pattern(r2)),
        pat_matches(reg_name(Register::DX), reg_pattern(Register::DX)),
{
    assert(reg_name(Register::DX).len() == reg_pattern(Register::DX).len());
}
proof fn lemma_pattern_apart_sp(r2: Register)
    requires
        r2 != Register::SP,
    ensures
        !patterns_compatible(reg_pattern(Register::SP), reg_pattern(r2)),
        pat_matches(reg_name(Register::SP), reg_pattern(Register::SP)),
{
    assert(reg_name(Register::SP).len() == reg_pattern(Register::SP).len());
}
proof fn lemma_pattern_apart_bp(r2: Register)
    requires
        r2 != Register::BP,
    ensures
        !patterns_compatible(reg_pattern(Register::BP), reg_pattern(r2)),
        pat_matches(reg_name(Register::BP), reg_pattern(Register::BP)),
{
    assert(reg_name(Register::BP).len() == reg_pattern(Register::BP).len());
}
proof fn lemma_pattern_apart_si(r2: Register)
    requires
        r2 != Register::SI,
    ensures
        !patterns_compatible(reg_pattern(Register::SI), reg_pattern(r2)),
        pat_matches(reg_name(Register::SI), reg_pattern(Register::SI)),
{
    assert(reg_name(Register::SI).len() == reg_pattern(Register::SI).len());
}
proof fn lemma_pattern_apart_di(r2: Register)
    requires
        r2 != Register::DI,
    ensures
        !patterns_compatible(reg_pattern(Register::DI), reg_pattern(r2)),
        pat_matches(reg_name(Register::DI), reg_pattern(Register::DI)),
{
    assert(reg_name(Register::DI).len() == reg_pattern(Register::DI).len());
}
proof fn lemma_pattern_apart_eax(r2: Register)
    requires
        r2 != Register::EAX,
    ensures
        !patterns_compatible(reg_pattern(Register::EAX), reg_pattern(r2)),
        pat_matches(reg_name(Register::EAX), reg_pattern(Register::EAX)),
{
    assert(reg_name(Register::EAX).len() == reg_pattern(Register::EAX).len());
}
proof fn lemma_pattern_apart_ebx(r2: Register)
    requires
        r2 != Register::EBX,
    ensures
        !patterns_compatible(reg_pattern(Register::EBX), reg_pattern(r2)),
        pat_matches(reg_name(Register::EBX), reg_pattern(Register::EBX)),
{
    assert(reg_name(Register::EBX).len() == reg_pattern(Register::EBX).len());
}
proof fn lemma_pattern_apart_ecx(r2: Register)
    requires
        r2 != Register::ECX,
    ensures
        !patterns_compatible(reg_pattern(Register::ECX), reg_pattern(r2)),
        pat_matches(reg_name(Register::ECX), reg_pattern(Register::ECX)),
{
    assert(reg_name(Register::ECX).len() == reg_pattern(Register::ECX).len());
}
proof fn lemma_pattern_apart_edx(r2: Register)
    requires
        r2 != Register::EDX,
    ensures
        !patterns_compatible(reg_pattern(Register::EDX), reg_pattern(r2)),
        pat_matches(reg_name(Register::EDX), reg_pattern(Register::EDX)),
{
    assert(reg_name(Register::EDX).len() == reg_pattern(Register::EDX).len());
}
proof fn lemma_pattern_apart_esp(r2: Register)
    requires
        r2 != Register::ESP,
    ensures
        !patterns_compatible(reg_pattern(Register::ESP), reg_pattern(r2)),
        pat_matches(reg_name(Register::ESP), reg_pattern(Register::ESP)),
{
    assert(reg_name(Register::ESP).len() == reg_pattern(Register::ESP).len());
}
proof fn lemma_pattern_apart_ebp(r2: Register)
    requires
        r2 != Register::EBP,
    ensures
        !patterns_compatible(reg_pattern(Register::EBP), reg_pattern(r2)),
        pat_matches(reg_name(Register::EBP), reg_pattern(Register::EBP)),
{
    assert(reg_name(Register::EBP).len() == reg_pattern(Register::EBP).len());
}
proof fn lemma_pattern_apart_esi(r2: Register)
    requires
        r2 != Register::ESI,
    ensures
        !patterns_compatible(reg_pattern(Register::ESI), reg_pattern(r2)),
        pat_matches(reg_name(Register::ESI), reg_pattern(Register::ESI)),
{
    assert(reg_name(Register::ESI).len() == reg_pattern(Register::ESI).len());
}
proof fn lemma_pattern_apart_edi(r2: Register)
    requires
        r2 != Register::EDI,
    ensures
        !patterns_compatible(reg_pattern(Register::EDI), reg_pattern(r2)),
        pat_matches(reg_name(Register::EDI), reg_pattern(Register::EDI)),
{
    assert(reg_name(Register::EDI).len() == reg_pattern(Register::EDI).len());
}
proof fn lemma_pattern_apart_rax(r2: Register)
    requires
        r2 != Register::RAX,
    ensures
        !patterns_compatible(reg_pattern(Register::RAX), reg_pattern(r2)),
        pat_matches(reg_name(Register::RAX), reg_pattern(Register::RAX)),
{
    assert(reg_name(Register::RAX).len() == reg_pattern(Register::RAX).len());
}
proof fn lemma_pattern_apart_rbx(r2: Register)
    requires
        r2 != Register::RBX,
    ensures
        !patterns_compatible(reg_pattern(Register::RBX), reg_pattern(r2)),
        pat_matches(reg_name(Register::RBX), reg_pattern(Register::RBX)),
{
    assert(reg_name(Register::RBX).len() == reg_pattern(Register::RBX).len());
}
proof fn lemma_pattern_apart_rcx(r2: Register)
    requires
        r2 != Register::RCX,
    ensures
        !patterns_compatible(reg_pattern(Register::RCX), reg_pattern(r2)),
        pat_matches(reg_name(Register::RCX), reg_pattern(Register::RCX)),
{
    assert(reg_name(Register::RCX).len() == reg_pattern(Register::RCX).len());
}
proof fn lemma_pattern_apart_rdx(r2: Register)
    requires
        r2 != Register::RDX,
    ensures
        !patterns_compatible(reg_pattern(Register::RDX), reg_pattern(r2)),
        pat_matches(reg_name(Register::RDX), reg_pattern(Register::RDX)),
{
    assert(reg_name(Register::RDX).len() == reg_pattern(Register::RDX).len());
}
proof fn lemma_pattern_apart_rsp(r2: Register)
    requires
        r2 != Register::RSP,
    ensures
        !patterns_compatible(reg_pattern(Register::RSP), reg_pattern(r2)),
        pat_matches(reg_name(Register::RSP), reg_pattern(Register::RSP)),
{
    assert(reg_name(Register::RSP).len() == reg_pattern(Register::RSP).len());
}
proof fn lemma_pattern_apart_rbp(r2: Register)
    requires
        r2 != Register::RBP,
    ensures
        !patterns_compatible(reg_pattern(Register::RBP), reg_pattern(r2)),
        pat_matches(reg_name(Register::RBP), reg_pattern(Register::RBP)),
{
    assert(reg_name(Register::RBP).len() == reg_pattern(Register::RBP).len());
}
proof fn lemma_pattern_apart_rsi(r2: Register)
    requires
        r2 != Register::RSI,
    ensures
        !patterns_compatible(reg_pattern(Register::RSI), reg_pattern(r2)),
        pat_matches(reg_name(Register::RSI), reg_pattern(Register::RSI)),
{
    assert(reg_name(Register::RSI).len() == reg_pattern(Register::RSI).len());
}
proof fn lemma_pattern_apart_rdi(r2: Register)
    requires
        r2 != Register::RDI,
    ensures
        !patterns_compatible(reg_pattern(Register::RDI), reg_pattern(r2)),
{
    assert(reg_name(Register::RDI).len() == reg_pattern(Register::RDI).len());
}
proof fn lemma_pattern_apart_r8(r2: Register)
    requires
        r2 != Register::R8,
    ensures
        !patterns_compatible(reg_pattern(Register::R8), reg_pattern(r2)),
        pat_matches(reg_name(Register::R8), reg_pattern(Register::R8)),
{
    assert(reg_name(Register::R8).len() == reg_pattern(Register::R8).len());
}
proof fn lemma_pattern_apart_r9(r2: Register)
    requires
        r2 != Register::R9,
    ensures
        !patterns_compatible(reg_pattern(Register::R9), reg_pattern(r2)),
        pat_matches(reg_name(Register::R9), reg_pattern(Register::R9)),
{
    assert(reg_name(Register::R9).len() == reg_pattern(Register::R9).len());
}
proof fn lemma_pattern_apart_r10(r2: Register)
    requires
        r2 != Register::R10,
    ensures
        !patterns_compatible(reg_pattern(Register::R10), reg_pattern(r2)),
        pat_matches(reg_name(Register::R10), reg_pattern(Register::R10)),
{
    assert(reg_name(Register::R10).len() == reg_pattern(Register::R10).len());
}
proof fn lemma_pattern_apart_r11(r2: Register)
    requires
        r2 != Register::R11,
    ensures
        !patterns_compatible(reg_pattern(Register::R11), reg_pattern(r2)),
        pat_matches(reg_name(Register::R11), reg_pattern(Register::R11)),
{
    assert(reg_name(Register::R11).len() == reg_pattern(Register::R11).len());
}
proof fn lemma_pattern_apart_r12(r2: Register)
    requires
        r2 != Register::R12,
    ensures
        !patterns_compatible(reg_pattern(Register::R12), reg_pattern(r2)),
        pat_matches(reg_name(Register::R12), reg_pattern(Register::R12)),
{
    assert(reg_name(Register::R12).len() == reg_pattern(Register::R12).len());
}
proof fn lemma_pattern_apart_r13(r2: Register)
    requires
        r2 != Register::R13,
    ensures
        !patterns_compatible(reg_pattern(Register::R13), reg_pattern(r2)),
        pat_matches(reg_name(Register::R13), reg_pattern(Register::R13)),
{
    assert(reg_name(Register::R13).len() == reg_pattern(Register::R13).len());
}
proof fn lemma_pattern_apart_r14(r2: Register)
    requires
        r2 != Register::R14,
    ensures
        !patterns_compatible(reg_pattern(Register::R14), reg_pattern(r2)),
        pat_matches(reg_name(Register::R14), reg_pattern(Register::R14)),
{
    assert(reg_name(Register::R14).len() == reg_pattern(Register::R14).len());
}
proof fn lemma_pattern_apart_r15(r2: Register)
    requires
        r2 != Register::R15,
    ensures
        !patterns_compatible(reg_pattern(Register::R15), reg_pattern(r2)),
        pat_matches(reg_name(Register::R15), reg_pattern(Register::R15)),
{
    assert(reg_name(Register::R15).len() == reg_pattern(Register::R15).len());
}
proof fn lemma_pattern_apart_r8d(r2: Register)
    requires
        r2 != Register::R8D,
    ensures
        !patterns_compatible(reg_pattern(Register::R8D), reg_pattern(r2)),
        pat_matches(reg_name(Register::R8D), reg_pattern(Register::R8D)),
{
    assert(reg_name(Register::R8D).len() == reg_pattern(Register::R8D).len());
}
proof fn lemma_pattern_apart_r9d(r2: Register)
    requires
        r2 != Register::R9D,
    ensures
        !patterns_compatible(reg_pattern(Register::R9D), reg_pattern(r2)),
        pat_matches(reg_name(Register::R9D), reg_pattern(Register::R9D)),
{
    assert(reg_name(Register::R9D).len() == reg_pattern(Register::R9D).len());
}
proof fn lemma_pattern_apart_r10d(r2: Register)
    requires
        r2 != Register::R10D,
    ensures
        !patterns_compatible(reg_pattern(Register::R10D), reg_pattern(r2)),
        pat_matches(reg_name(Register::R10D), reg_pattern(Register::R10D)),
{
    assert(reg_name(Register::R10D).len() == reg_pattern(Register::R10D).len());
}
proof fn lemma_pattern_apart_r11d(r2: Register)
    requires
        r2 != Register::R11D,
    ensures
        !patterns_compatible(reg_pattern(Register::R11D), reg_pattern(r2)),
        pat_matches(reg_name(Register::R11D), reg_pattern(Register::R11D)),
{
    assert(reg_name(Register::R11D).len() == reg_pattern(Register::R11D).len());
}
proof fn lemma_pattern_apart_r12d(r2: Register)
    requires
        r2 != Register::R12D,
    ensures
        !patterns_compatible(reg_pattern(Register::R12D), reg_pattern(r2)),
        pat_matches(reg_name(Register::R12D), reg_pattern(Register::R12D)),
{
    assert(reg_name(Register::R12D).len() == reg_pattern(Register::R12D).len());
}
proof fn lemma_pattern_apart_r13d(r2: Register)
    requires
        r2 != Register::R13D,
    ensures
        !patterns_compatible(reg_pattern(Register::R13D), reg_pattern(r2)),
        pat_matches(reg_name(Register::R13D), reg_pattern(Register::R13D)),
{
    assert(reg_name(Register::R13D).len() == reg_pattern(Register::R13D).len());
}
proof fn lemma_pattern_apart_r14d(r2: Register)
    requires
        r2 != Register::R14D,
    ensures
        !patterns_compatible(reg_pattern(Register::R14D), reg_pattern(r2)),
        pat_matches(reg_name(Register::R14D), reg_pattern(Register::R14D)),
{
    assert(reg_name(Register::R14D).len() == reg_pattern(Register::R14D).len());
}
proof fn lemma_pattern_apart_r15d(r2: Register)
    requires
        r2 != Register::R15D,
    ensures
        !patterns_compatible(reg_pattern(Register::R15D), reg_pattern(r2)),
        pat_matches(reg_name(Register::R15D), reg_pattern(Register::R15D)),
{
    assert(reg_name(Register::R15D).len() == reg_pattern(Register::R15D).len());
}
proof fn lemma_pattern_apart_r8w(r2: Register)
    requires
        r2 != Register::R8W,
    ensures
        !patterns_compatible(reg_pattern(Register::R8W), reg_pattern(r2)),
        pat_matches(reg_name(Register::R8W), reg_pattern(Register::R8W)),
{
    assert(reg_name(Register::R8W).len() == reg_pattern(Register::R8W).len());
}
proof fn lemma_pattern_apart_r9w(r2: Register)
    requires
        r2 != Register::R9W,
    ensures
        !patterns_compatible(reg_pattern(Register::R9W), reg_pattern(r2)),
        pat_matches(reg_name(Register::R9W), reg_pattern(Register::R9W)),
{
    assert(reg_name(Register::R9W).len() == reg_pattern(Register::R9W).len());
}
proof fn lemma_pattern_apart_r10w(r2: Register)
    requires
        r2 != Register::R10W,
    ensures
        !patterns_compatible(reg_pattern(Register::R10W), reg_pattern(r2)),
        pat_matches(reg_name(Register::R10W), reg_pattern(Register::R10W)),
{
    assert(reg_name(Register::R10W).len() == reg_pattern(Register::R10W).len());
}
proof fn lemma_pattern_apart_r11w(r2: Register)
    requires
        r2 != Register::R11W,
    ensures
        !patterns_compatible(reg_pattern(Register::R11W), reg_pattern(r2)),
        pat_matches(reg_name(Register::R11W), reg_pattern(Register::R11W)),
{
    assert(reg_name(Register::R11W).len() == reg_pattern(Register::R11W).len());
}
proof fn lemma_pattern_apart_r12w(r2: Register)
    requires
        r2 != Register::R12W,
    ensures
        !patterns_compatible(reg_pattern(Register::R12W), reg_pattern(r2)),
        pat_matches(reg_name(Register::R12W), reg_pattern(Register::R12W)),
{
    assert(reg_name(Register::R12W).len() == reg_pattern(Register::R12W).len());
}
proof fn lemma_pattern_apart_r13w(r2: Register)
    requires
        r2 != Register::R13W,
    ensures
        !patterns_compatible(reg_pattern(Register::R13W), reg_pattern(r2)),
        pat_matches(reg_name(Register::R13W), reg_pattern(Register::R13W)),
{
    assert(reg_name(Register::R13W).len() == reg_pattern(Register::R13W).len());
}
proof fn lemma_pattern_apart_r14w(r2: Register)
    requires
        r2 != Register::R14W,
    ensures
        !patterns_compatible(reg_pattern(Register::R14W), reg_pattern(r2)),
        pat_matches(reg_name(Register::R14W), reg_pattern(Register::R14W)),
{
    assert(reg_name(Register::R14W).len() == reg_pattern(Register::R14W).len());
}
proof fn lemma_pattern_apart_r15w(r2: Register)
    requires
        r2 != Register::R15W,
    ensures
        !patterns_compatible(reg_pattern(Register::R15W), reg_pattern(r2)),
        pat_matches(reg_name(Register::R15W), reg_pattern(Register::R15W)),
{
    assert(reg_name(Register::R15W).len() == reg_pattern(Register::R15W).len());
}
proof fn lemma_pattern_apart_r8b(r2: Register)
    requires
        r2 != Register::R8B,
    ensures
        !patterns_compatible(reg_pattern(Register::R8B), reg_pattern(r2)),
        pat_matches(reg_name(Register::R8B), reg_pattern(Register::R8B)),
{
    assert(reg_name(Register::R8B).len() == reg_pattern(Register::R8B).len());
}
proof fn lemma_pattern_apart_r9b(r2: Register)
    requires
        r2 != Register::R9B,
    ensures
        !patterns_compatible(reg_pattern(Register::R9B), reg_pattern(r2)),
        pat_matches(reg_name(Register::R9B), reg_pattern(Register::R9B)),
{
    assert(reg_name(Register::R9B).len() == reg_pattern(Register::R9B).len());
}
proof fn lemma_pattern_apart_r10b(r2: Register)
    requires
        r2 != Register::R10B,
    ensures
        !patterns_compatible(reg_pattern(Register::R10B), reg_pattern(r2)),
        pat_matches(reg_name(Register::R10B), reg_pattern(Register::R10B)),
{
    assert(reg_name(Register::R10B).len() == reg_pattern(Register::R10B).len());
}
proof fn lemma_pattern_apart_r11b(r2: Register)
    requires
        r2 != Register::R11B,
    ensures
        !patterns_compatible(reg_pattern(Register::R11B), reg_pattern(r2)),
        pat_matches(reg_name(Register::R11B), reg_pattern(Register::R11B)),
{
    assert(reg_name(Register::R11B).len() == reg_pattern(Register::R11B).len());
}
proof fn lemma_pattern_apart_r12b(r2: Register)
    requires
        r2 != Register::R12B,
    ensures
        !patterns_compatible(reg_pattern(Register::R12B), reg_pattern(r2)),
        pat_matches(reg_name(Register::R12B), reg_pattern(Register::R12B)),
{
    assert(reg_name(Register::R12B).len() == reg_pattern(Register::R12B).len());
}
proof fn lemma_pattern_apart_r13b(r2: Register)
    requires
        r2 != Register::R13B,
    ensures
        !patterns_compatible(reg_pattern(Register::R13B), reg_pattern(r2)),
        pat_matches(reg_name(Register::R13B), reg_pattern(Register::R13B)),
{
    assert(reg_name(Register::R13B).len() == reg_pattern(Register::R13B).len());
}
proof fn lemma_pattern_apart_r14b(r2: Register)
    requires
        r2 != Register::R14B,
    ensures
        !patterns_compatible(reg_pattern(Register::R14B), reg_pattern(r2)),
        pat_matches(reg_name(Register::R14B), reg_pattern(Register::R14B)),
{
    assert(reg_name(Register::R14B).len() == reg_pattern(Register::R14B).len());
}
proof fn lemma_pattern_apart_r15b(r2: Register)
    requires
        r2 != Register::R15B,
    ensures
        !patterns_compatible(reg_pattern(Register::R15B), reg_pattern(r2)),
        pat_matches(reg_name(Register::R15B), reg_pattern(Register::R15B)),
{
    assert(reg_name(Register::R15B).len() == reg_pattern(Register::R15B).len());
}
proof fn lemma_pattern_apart_cr0(r2: Register)
    requires
        r2 != Register::CR0,
    ensures
        !patterns_compatible(reg_pattern(Register::CR0), reg_pattern(r2)),
        pat_matches(reg_name(Register::CR0), reg_pattern(Register::CR0)),
{
    assert(reg_name(Register::CR0).len() == reg_pattern(Register::CR0).len());
}
proof fn lemma_pattern_apart_cr2(r2: Register)
    requires
        r2 != Register::CR2,
    ensures
        !patterns_compatible(reg_pattern(Register::CR2), reg_pattern(r2)),
        pat_matches(reg_name(Register::CR2), reg_pattern(Register::CR2)),
{
    assert(reg_name(Register::CR2).len() == reg_pattern(Register::CR2).len());
}
proof fn lemma_pattern_apart_cr3(r2: Register)
    requires
        r2 != Register::CR3,
    ensures
        !patterns_compatible(reg_pattern(Register::CR3), reg_pattern(r2)),
        pat_matches(reg_name(Register::CR3), reg_pattern(Register::CR3)),
{
    assert(reg_name(Register::CR3).len() == reg_pattern(Register::CR3).len());
}
proof fn lemma_pattern_apart_cr4(r2: Register)
    requires
        r2 != Register::CR4,
    ensures
        !patterns_compatible(reg_pattern(Register::CR4), reg_pattern(r2)),
        pat_matches(reg_name(Register::CR4), reg_pattern(Register::CR4)),
{
    assert(reg_name(Register::CR4).len() == reg_pattern(Register::CR4).len());
}
proof fn lemma_pattern_apart_cr8(r2: Register)
    requires
        r2 != Register::CR8,
    ensures
        !patterns_compatible(reg_pattern(Register::CR8), reg_pattern(r2)),
        pat_matches(reg_name(Register::CR8), reg_pattern(Register::CR8)),
{
    assert(reg_name(Register::CR8).len() == reg_pattern(Register::CR8).len());
}
proof fn lemma_pattern_apart_dr0(r2: Register)
    requires
        r2 != Register::DR0,
    ensures
        !patterns_compatible(reg_pattern(Register::DR0), reg_pattern(r2)),
        pat_matches(reg_name(Register::DR0), reg_pattern(Register::DR0)),
{
    assert(reg_name(Register::DR0).len() == reg_pattern(Register::DR0).len());
}
proof fn lemma_pattern_apart_dr1(r2: Register)
    requires
        r2 != Register::DR1,
    ensures
        !patterns_compatible(reg_pattern(Register::DR1), reg_pattern(r2)),
        pat_matches(reg_name(Register::DR1), reg_pattern(Register::DR1)),
{
    assert(reg_name(Register::DR1).len() == reg_pattern(Register::DR1).len());
}
proof fn lemma_pattern_apart_dr2(r2: Register)
    requires
        r2 != Register::DR2,
    ensures
        !patterns_compatible(reg_pattern(Register::DR2), reg_pattern(r2)),
        pat_matches(reg_name(Register::DR2), reg_pattern(Register::DR2)),
{
    assert(reg_name(Register::DR2).len() == reg_pattern(Register::DR2).len());
}
proof fn lemma_pattern_apart_dr3(r2: Register)
    requires
        r2 != Register::DR3,
    ensures
        !patterns_compatible(reg_pattern(Register::DR3), reg_pattern(r2)),
        pat_matches(reg_name(Register::DR3), reg_pattern(Register::DR3)),
{
    assert(reg_name(Register::DR3).len() == reg_pattern(Register::DR3).len());
}
proof fn lemma_pattern_apart_dr6(r2: Register)
    requires
        r2 != Register::DR6,
    ensures
        !patterns_compatible(reg_pattern(Register::DR6), reg_pattern(r2)),
        pat_matches(reg_name(Register::DR6), reg_pattern(Register::DR6)),
{
    assert(reg_name(Register::DR6).len() == reg_pattern(Register::DR6).len());
}
proof fn lemma_pattern_apart_dr7(r2: Register)
    requires
        r2 != Register::DR7,
    ensures
        !patterns_compatible(reg_pattern(Register::DR7), reg_pattern(r2)),
        pat_matches(reg_name(Register::DR7), reg_pattern(Register::DR7)),
{
    assert(reg_name(Register::DR7).len() == reg_pattern(Register::DR7).len());
}
proof fn lemma_pattern_apart_rip(r2: Register)
    requires
        r2 != Register::RIP,
    ensures
        !patterns_compatible(reg_pattern(Register::RIP), reg_pattern(r2)),
        pat_matches(reg_name(Register::RIP), reg_pattern(Register::RIP)),
{
    assert(reg_name(Register::RIP).len() == reg_pattern(Register::RIP).len());
}
proof fn lemma_pattern_apart_eip(r2: Register)
    requires
        r2 != Register::EIP,
    ensures
        !patterns_compatible(reg_pattern(Register::EIP), reg_pattern(r2)),
        pat_matches(reg_name(Register::EIP), reg_pattern(Register::EIP)),
{
    assert(reg_name(Register::EIP).len() == reg_pattern(Register::EIP).len());
}
proof fn lemma_pattern_apart_ip(r2: Register)
    requires
        r2 != Register::IP,
    ensures
        !patterns_compatible(reg_pattern(Register::IP), reg_pattern(r2)),
        pat_matches(reg_name(Register::IP), reg_pattern(Register::IP)),
{
    assert(reg_name(Register::IP).len() == reg_pattern(Register::IP).len());
}

/// The identifying bytes of two different registers are never both fitted by one name, and
/// every register but RDI fits its own name.
proof fn lemma_pattern_apart(r1: Register, r2: Register)
    requires
        r1 != r2,
    ensures
        !patterns_compatible(reg_pattern(r1), reg_pattern(r2)),
        r1 != Register::RDI ==> pat_matches(reg_name(r1), reg_pattern(r1)),
{
    match r1 {
        Register::AL => lemma_pattern_apart_al(r2),
        Register::BL => lemma_pattern_apart_bl(r2),
        Register::CL => lemma_pattern_apart_cl(r2),
        Register::DL => lemma_pattern_apart_dl(r2),
        Register::SPL => lemma_pattern_apart_spl(r2),
        Register::BPL => lemma_pattern_apart_bpl(r2),
        Register::SIL => lemma_pattern_apart_sil(r2),
        Register::DIL => lemma_pattern_apart_dil(r2),
        Register::AH => lemma_pattern_apart_ah(r2),
        Register::BH => lemma_pattern_apart_bh(r2),
        Register::CH => lemma_pattern_apart_ch(r2),
        Register::DH => lemma_pattern_apart_dh(r2),
        Register::AX => lemma_pattern_apart_ax(r2),
        Register::BX => lemma_pattern_apart_bx(r2),
        Register::CX => lemma_pattern_apart_cx(r2),
        Register::DX => lemma_pattern_apart_dx(r2),
        Register::SP => lemma_pattern_apart_sp(r2),
        Register::BP => lemma_pattern_apart_bp(r2),
        Register::SI => lemma_pattern_apart_si(r2),
        Register::DI => lemma_pattern_apart_di(r2),
        Register::EAX => lemma_pattern_apart_eax(r2),
        Register::EBX => lemma_pattern_apart_ebx(r2),
        Register::ECX => lemma_pattern_apart_ecx(r2),
        Register::EDX => lemma_pattern_apart_edx(r2),
        Register::ESP => lemma_pattern_apart_esp(r2),
        Register::EBP => lemma_pattern_apart_ebp(r2),
        Register::ESI => lemma_pattern_apart_esi(r2),
        Register::EDI => lemma_pattern_apart_edi(r2),
        Register::RAX => lemma_pattern_apart_rax(r2),
        Register::RBX => lemma_pattern_apart_rbx(r2),
        Register::RCX => lemma_pattern_apart_rcx(r2),
        Register::RDX => lemma_pattern_apart_rdx(r2),
        Register::RSP => lemma_pattern_apart_rsp(r2),
        Register::RBP => lemma_pattern_apart_rbp(r2),
        Register::RSI => lemma_pattern_apart_rsi(r2),
        Register::RDI => lemma_pattern_apart_rdi(r2),
        Register::R8 => lemma_pattern_apart_r8(r2),
        Register::R9 => lemma_pattern_apart_r9(r2),
        Register::R10 => lemma_pattern_apart_r10(r2),
        Register::R11 => lemma_pattern_apart_r11(r2),
        Register::R12 => lemma_pattern_apart_r12(r2),
        Register::R13 => lemma_pattern_apart_r13(r2),
        Register::R14 => lemma_pattern_apart_r14(r2),
        Register::R15 => lemma_pattern_apart_r15(r2),
        Register::R8D => lemma_pattern_apart_r8d(r2),
        Register::R9D => lemma_pattern_apart_r9d(r2),
        Register::R10D => lemma_pattern_apart_r10d(r2),
        Register::R11D => lemma_pattern_apart_r11d(r2),
        Register::R12D => lemma_pattern_apart_r12d(r2),
        Register::R13D => lemma_pattern_apart_r13d(r2),
        Register::R14D => lemma_pattern_apart_r14d(r2),
        Register::R15D => lemma_pattern_apart_r15d(r2),
        Register::R8W => lemma_pattern_apart_r8w(r2),
        Register::R9W => lemma_pattern_apart_r9w(r2),
        Register::R10W => lemma_pattern_apart_r10w(r2),
        Register::R11W => lemma_pattern_apart_r11w(r2),
        Register::R12W => lemma_pattern_apart_r12w(r2),
        Register::R13W => lemma_pattern_apart_r13w(r2),
        Register::R14W => lemma_pattern_apart_r14w(r2),
        Register::R15W => lemma_pattern_apart_r15w(r2),
        Register::R8B => lemma_pattern_apart_r8b(r2),
        Register::R9B => lemma_pattern_apart_r9b(r2),
        Register::R10B => lemma_pattern_apart_r10b(r2),
        Register::R11B => lemma_pattern_apart_r11b(r2),
        Register::R12B => lemma_pattern_apart_r12b(r2),
        Register::R13B => lemma_pattern_apart_r13b(r2),
        Register::R14B => lemma_pattern_apart_r14b(r2),
        Register::R15B => lemma_pattern_apart_r15b(r2),
        Register::CR0 => lemma_pattern_apart_cr0(r2),
        Register::CR2 => lemma_pattern_apart_cr2(r2),
        Register::CR3 => lemma_pattern_apart_cr3(r2),
        Register::CR4 => lemma_pattern_apart_cr4(r2),
        Register::CR8 => lemma_pattern_apart_cr8(r2),
        Register::DR0 => lemma_pattern_apart_dr0(r2),
        Register::DR1 => lemma_pattern_apart_dr1(r2),
        Register::DR2 => lemma_pattern_apart_dr2(r2),
        Register::DR3 => lemma_pattern_apart_dr3(r2),
        Register::DR6 => lemma_pattern_apart_dr6(r2),
        Register::DR7 => lemma_pattern_apart_dr7(r2),
        Register::RIP => lemma_pattern_apart_rip(r2),
        Register::EIP => lemma_pattern_apart_eip(r2),
        Register::IP => lemma_pattern_apart_ip(r2),
    }
}

/// No name fits the identifying bytes of two different registers: a name parses to one
/// register at most.
pub proof fn lemma_register_patterns_unambiguous(r1: Register, r2: Register, b: Seq<u8>)
    requires
        r1 != r2,
    ensures
        !(pat_matches(b, reg_pattern(r1)) && pat_matches(b, reg_pattern(r2))),
{
    lemma_pattern_apart(r1, r2);
    let p = reg_pattern(r1);
    let q = reg_pattern(r2);
    if pat_matches(b, p) && pat_matches(b, q) {
        assert(p.len() <= 4) by {
            lemma_pattern_len(r1);
        }
        assert forall|i: int| 0 <= i < p.len() implies byte_compatible(p, q, i) by {
            assert(p[i] == 0 || b[i] == p[i]);
            assert(q[i] == 0 || b[i] == q[i]);
        }
        assert(patterns_compatible(p, q));
    }
}

/// Every identifying pattern is two to four bytes long.
proof fn lemma_pattern_len(r: Register)
    ensures
        2 <= reg_pattern(r).len() <= 4,
{
}

/// With `b` fitting register `j`'s identifying bytes and no other register's, the search from
/// position `k` up to `j` finds that register.
proof fn lemma_first_match_unique(b: Seq<u8>, k: int, j: int)
    requires
        0 <= k <= j < REG_COUNT,
        pat_matches(b, reg_pattern(spec_reg_at(j))),
        forall|r2: Register| r2 != spec_reg_at(j) ==> !pat_matches(b, #[trigger] reg_pattern(r2)),
    ensures
        first_match_from(b, k) == Some(spec_reg_at(j)),
    decreases j - k,
{
    if k < j && !pat_matches(b, reg_pattern(spec_reg_at(k))) {
        lemma_first_match_unique(b, k + 1, j);
    }
}

/// Parsing a register's name gives that register, for every register but RDI, whose
/// identifying bytes are "rdd" (so "rdd" gives RDI, see `reg_pattern`); different
/// registers' names thus parse to different registers.
pub proof fn lemma_register_name_roundtrip(r: Register)
    ensures
        r != Register::RDI ==> first_match(reg_name(r)) == Some(r),
        first_match(seq![0x72u8, 0x64, 0x64]) == Some(Register::RDI),
{
    lemma_reg_index(r);
    let b = reg_name(r);
    if r != Register::RDI {
        let other = if r == Register::AL {
            Register::BL
        } else {
            Register::AL
        };
        lemma_pattern_apart(r, other);
        assert forall|r2: Register| r2 != spec_reg_at(spec_reg_index(r)) implies !pat_matches(
            b,
            #[trigger] reg_pattern(r2),
        ) by {
            lemma_register_patterns_unambiguous(r, r2, b);
        }
        lemma_first_match_unique(b, 0, spec_reg_index(r));
    }
    let d = seq![0x72u8, 0x64, 0x64];
    lemma_reg_index(Register::RDI);
    assert(pat_matches(d, reg_pattern(Register::RDI)));
    assert forall|r2: Register| r2 != spec_reg_at(spec_reg_index(Register::RDI)) implies !pat_matches(
        d,
        #[trigger] reg_pattern(r2),
    ) by {
        lemma_register_patterns_unambiguous(Register::RDI, r2, d);
    }
    lemma_first_match_unique(d, 0, spec_reg_index(Register::RDI));
}

/// Why a register name was refused.
#[derive(Clone, Debug)]
pub enum RegErr {
    TooShort(usize),
    TooLong(usize),
    Unknown(String),
    Unsupported(String),
}

/// The message of a register error.
pub open spec fn regerr_message(e: RegErr) -> Seq<char> {
    match e {
        RegErr::TooShort(n) => "E-SYN-0001: Register is too short! LEN = "@ + dec_nat(n as nat),
        RegErr::TooLong(n) => "E-SYN-0002: Register is too long ! LEN = "@ + dec_nat(n as nat),
        RegErr::Unknown(s) => "E-SYN-0003: Unknown Register: `"@ + s@ + "`"@,
        RegErr::Unsupported(s) => "E-SYN-0004: Unsupported Register: `"@ + s@ + "`"@,
    }
}

impl RegErr {
    /// The error's message.
    pub fn to_string(&self) -> (r: String)
        ensures
            r@ == regerr_message(*self),
    {
        match self {
            RegErr::TooShort(n) => {
                let mut m = String::from_str("E-SYN-0001: Register is too short! LEN = ");
                push_dec(&mut m, *n as u64);
                m
            },
            RegErr::TooLong(n) => {
                let mut m = String::from_str("E-SYN-0002: Register is too long ! LEN = ");
                push_dec(&mut m, *n as u64);
                m
            },
            RegErr::Unknown(s) => {
                let mut m = String::from_str("E-SYN-0003: Unknown Register: `");
                m.append(s.as_str());
                m.append("`");
                m
            },
            RegErr::Unsupported(s) => {
                let mut m = String::from_str("E-SYN-0004: Unsupported Register: `");
                m.append(s.as_str());
                m.append("`");
                m
            },
        }
    }
}

/// Whether the bytes `b` fit the identifying bytes `p`: same length, and equal wherever `p`
/// is not 0.
pub open spec fn pat_matches(b: Seq<u8>, p: Seq<u8>) -> bool {
    b.len() == p.len() && forall|i: int| 0 <= i < p.len() ==> (p[i] == 0 || #[trigger] b[i] == p[i])
}

/// The first register at or after position `k` whose identifying bytes `b` fits.
pub open spec fn first_match_from(b: Seq<u8>, k: int) -> Option<Register>
    decreases REG_COUNT - k,
{
    if k < 0 || k >= REG_COUNT {
        None
    } else if pat_matches(b, reg_pattern(spec_reg_at(k))) {
        Some(spec_reg_at(k))
    } else {
        first_match_from(b, k + 1)
    }
}

/// The first register whose identifying bytes `b` fits.
pub open spec fn first_match(b: Seq<u8>) -> Option<Register> {
    first_match_from(b, 0)
}

/// The vector registers that are named but not supported: four bytes starting with x, y or z
/// and ending with a digit give "xmm", "ymm" or "zmm" and that digit; five bytes starting with
/// x, y or z and ending with 0 to 5 give "zmm1" and that digit for z, "xmm1" and that digit
/// for x and y. A five-byte ymm name is thus reported as the xmm register of the same number;
/// this is deliberate, the message keeps the wording this assembler has always given.
pub open spec fn unsupported_name(b: Seq<u8>) -> Option<Seq<char>> {
    if b.len() == 4 && (b[0] == 0x78 || b[0] == 0x79 || b[0] == 0x7A) && 0x30 <= b[3] <= 0x39 {
        Some(seq![b[0] as char, 'm', 'm', b[3] as char])
    } else if b.len() == 5 && (b[0] == 0x78 || b[0] == 0x79 || b[0] == 0x7A) && 0x30 <= b[4]
        <= 0x35 {
        Some(
            seq![
                if b[0] == 0x7A {
                    'z'
                } else {
                    'x'
                },
                'm',
                'm',
                '1',
                b[4] as char,
            ],
        )
    } else {
        None
    }
}

/// Whether `b` fits the identifying bytes `p`.
fn fits(b: &[u8], p: &Vec<u8>) -> (r: bool)
    ensures
        r == pat_matches(b@, p@),
{
    if b.len() != p.len() {
        return false;
    }
    let mut i: usize = 0;
    while i < p.len()
        invariant
            b@.len() == p@.len(),
            i <= p@.len(),
            forall|j: int| 0 <= j < i ==> (p@[j] == 0 || #[trigger] b@[j] == p@[j]),
        decreases p@.len() - i,
    {
        if p[i] != 0 && b[i] != p[i] {
            return false;
        }
        i = i + 1;
    }
    true
}

pub(crate) fn string_of(chars: &[char]) -> (s: String)
    ensures
        s@ == chars@,
{
    let mut s = String::new();
    let mut i: usize = 0;
    while i < chars.len()
        invariant
            i <= chars@.len(),
            s@ == chars@.subrange(0, i as int),
        decreases chars@.len() - i,
    {
        push_char(&mut s, chars[i]);
        i = i + 1;
        assert(s@ =~= chars@.subrange(0, i as int));
    }
    assert(chars@.subrange(0, chars@.len() as int) =~= chars@);
    s
}

impl Register {
    /// Parses a register name from its bytes: one byte is too short, none or more than five too
    /// long; otherwise the first register whose identifying bytes fit, else the name of an
    /// unsupported vector register, else unknown. The empty name is reported as too long,
    /// with length 0; this is deliberate and matches the errors this assembler has given.
    pub fn parse(s: &str) -> (r: Result<Register, RegErr>)
        ensures
            ({
                let b = s.spec_bytes();
                if b.len() == 1 {
                    r matches Err(RegErr::TooShort(n)) && n == 1
                } else if b.len() == 0 || b.len() > 5 {
                    r matches Err(RegErr::TooLong(n)) && n == b.len()
                } else {
                    match first_match(b) {
                        Some(reg) => r == Ok::<Register, RegErr>(reg),
                        None => match unsupported_name(b) {
                            Some(name) => r matches Err(RegErr::Unsupported(u)) && u@ == name,
                            None => r matches Err(RegErr::Unknown(u)) && u@ == s@,
                        },
                    }
                }
            }),
    {
        let b = s.as_bytes();
        let n = b.len();
        if n == 1 {
            return Err(RegErr::TooShort(n));
        }
        if n == 0 || n > 5 {
            return Err(RegErr::TooLong(n));
        }
        let mut i: usize = 0;
        while i < REG_COUNT
            invariant
                i <= REG_COUNT,
                b@ == s.spec_bytes(),
                first_match(b@) == first_match_from(b@, i as int),
            decreases REG_COUNT - i,
        {
            let r = reg_at(i);
            let p = pattern(r);
            if fits(b, &p) {
                return Ok(r);
            }
            i = i + 1;
        }
        let b0 = b[0];
        if (b0 == 0x78 || b0 == 0x79 || b0 == 0x7A) && n == 4 && 0x30 <= b[3] && b[3] <= 0x39 {
            let chars = [b0 as char, 'm', 'm', b[3] as char];
            return Err(RegErr::Unsupported(string_of(&chars)));
        }
        if (b0 == 0x78 || b0 == 0x79 || b0 == 0x7A) && n == 5 && 0x30 <= b[4] && b[4] <= 0x35 {
            let first = if b0 == 0x7A {
                'z'
            } else {
                'x'
            };
            let chars = [first, 'm', 'm', '1', b[4] as char];
            return Err(RegErr::Unsupported(string_of(&chars)));
        }
        Err(RegErr::Unknown(String::from_str(s)))
    }
}

impl core::str::FromStr for Register {
    type Err = RegErr;

    fn from_str(s: &str) -> Result<Self, RegErr> {
        Register::parse(s)
    }
}

} // verus!
