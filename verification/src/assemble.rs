use vstd::prelude::*;

use crate::api::{
    gen_addt_pfx, gen_segm_pref, gen_size_ovr, gen_sizeovr_fixed_size, spec_gen_addt_pfx,
    spec_gen_size_ovr, spec_gen_sizeovr_fixed_size, spec_ord_oprs, spec_segm_byte, AddtPrefix,
    AssembleResult, GenAPI, SizeOvrFacts, CAN_H66O, IMM, IMM_LEBE, PREFIX_APX, PREFIX_EVEX,
    PREFIX_REX, PREFIX_VEX, STRICT_PFX, USE_MODRM,
};
use crate::apx::{apx, spec_apx, ApxFacts};
use crate::disp::{gen_disp_ins, spec_gen_disp};
use crate::evex::{evex, spec_evex_bytes};
use crate::le::{push_all, read_le64};
use crate::mnemonic::Mnemonic;
use crate::modrm::{modrm, spec_modrm};
use crate::operand::{operand_wf, opt_wf, Mem, Operand};
use crate::rex::{gen_rex, spec_gen_rex, RexFacts};
use crate::sib::{gen_sib_ins, spec_gen_sib};
use crate::size::Size;
use crate::vex::{spec_vex_bytes, vex, vex_operands};

verus! {

/// The relocation type of a symbol reference: its code and the number of bytes it patches.
#[derive(Clone, Copy, Debug, PartialEq, Eq, Structural)]
pub struct RelType {
    pub code: u8,
    pub size: u8,
}

/// A symbol named by an operand: its name, whether it is dereferenced, and its relocation
/// type and addend where the source gives them.
#[derive(Clone, Debug)]
pub struct SymRef {
    pub name: String,
    pub deref: bool,
    pub reltype: Option<RelType>,
    pub addend: Option<i32>,
}

/// A number operand: its value's eight little-endian bytes and how many of them it takes.
#[derive(Clone, Copy, Debug)]
pub struct Number {
    pub le: [u8; 8],
    pub real_size: u8,
}

/// What an operand holds beyond what the encoders read: a number, the bytes of a string, a
/// symbol, or nothing more.
#[derive(Clone, Debug)]
pub enum Payload {
    Plain,
    Number(Number),
    Text(Vec<u8>),
    Symbol(SymRef),
}

/// Which encoding family an instruction is written for: a standard one, MMX, SSE or AVX.
#[derive(Clone, Copy, Debug, PartialEq, Eq, Structural)]
pub enum IVariant {
    STD,
    MMX,
    SSE,
    AVX,
}

/// An instruction as the assembler reads it: its mnemonic, its encoding family, its operands (destination, source, second and
/// third source, in that order) with what each holds, its size, its additional prefix
/// mnemonic, the facts the REX, size-override, APX and EVEX computations read, whether it
/// needs the APX extension, and whether it works on YMM registers.
#[derive(Clone, Debug)]
pub struct Instr {
    pub mnemonic: Mnemonic,
    pub variant: IVariant,
    pub operands: Vec<Operand>,
    pub payloads: Vec<Payload>,
    pub size: Size,
    pub addt: Option<AddtPrefix>,
    pub rex: RexFacts,
    pub size_ovr: SizeOvrFacts,
    pub needs_apx_extension: bool,
    pub apx: ApxFacts,
    pub is_ymm: bool,
}

/// A relocation that assembling an instruction asks for: the symbol, the offset of the
/// bytes to patch within the instruction, the addend and the relocation type.
#[derive(Clone, Debug)]
pub struct AsmReloc {
    pub symbol: String,
    pub offset: usize,
    pub addend: i32,
    pub reltype: RelType,
}

/// Whether a payload goes with an operand: a number with an immediate, text with a string,
/// a symbol with a symbol operand of the same dereferencing, nothing more with the rest.
pub open spec fn payload_fits(op: Operand, p: Payload) -> bool {
    match p {
        Payload::Number(_) => op is Imm,
        Payload::Text(_) => op is String,
        Payload::Symbol(s) => op matches Operand::Symbol(d) && d == s.deref,
        Payload::Plain => !(op is Imm) && !(op is String) && !(op is Symbol),
    }
}

/// An instruction is well formed: one payload per operand, each fitting it, each operand's
/// registers well formed, and each memory operand that needs a SIB byte has an index.
pub open spec fn instr_wf(ins: Instr) -> bool {
    &&& ins.operands@.len() == ins.payloads@.len()
    &&& forall|k: int|
        0 <= k < ins.operands@.len() ==> payload_fits(
            #[trigger] ins.operands@[k],
            ins.payloads@[k],
        )
    &&& forall|k: int| 0 <= k < ins.operands@.len() ==> operand_wf(#[trigger] ins.operands@[k])
    &&& forall|k: int|
        0 <= k < ins.operands@.len() ==> (#[trigger] ins.operands@[k] matches Operand::Mem(m) ==> (
        m.sib ==> m.index.is_some()))
}

/// The operand at position `k`, if the instruction has one.
pub open spec fn op_at(ins: Instr, k: int) -> Option<Operand> {
    if 0 <= k < ins.operands@.len() {
        Some(ins.operands@[k])
    } else {
        None
    }
}

/// The operand at position `k`, if the instruction has one.
fn get_op(ins: &Instr, k: usize) -> (r: Option<Operand>)
    ensures
        r == op_at(*ins, k as int),
{
    if k < ins.operands.len() {
        Some(ins.operands[k])
    } else {
        None
    }
}

/// The operands placed in ModRM.r/m, ModRM.reg and (E)VEX.vvvv by the layout.
pub open spec fn asm_ord(api: GenAPI, ins: Instr) -> (Option<Operand>, Option<Operand>, Option<
    Operand,
>) {
    spec_ord_oprs(api.ord.ord, op_at(ins, 0), op_at(ins, 1), op_at(ins, 2))
}

/// The size an instruction is assembled at, and whether the layout fixes it.
pub open spec fn asm_size(api: GenAPI, ins: Instr) -> (Size, bool) {
    match api.spec_get_size() {
        Some(sz) => (sz, true),
        None => (ins.size, false),
    }
}

/// The REX byte: for a layout of the REX kind that does not restrict prefixes, in 64-bit
/// mode, the REX prefix the operands need; 0 otherwise.
pub open spec fn asm_rex(api: GenAPI, ins: Instr, bits: u8) -> u8 {
    if api.spec_fpfx() == PREFIX_REX && !api.flags.has(STRICT_PFX as int) && bits == 64 {
        match spec_gen_rex(ins.operands@, api.ord.ord & 3 == 1, ins.rex) {
            Some(r) => r,
            None => 0,
        }
    } else {
        0
    }
}

/// Whether the instruction is a 64-bit one: in 64-bit mode, REX.W when there is a REX byte,
/// else a quadword or any-size instruction.
pub open spec fn asm_rexw(api: GenAPI, ins: Instr, bits: u8) -> bool {
    bits == 64 && if asm_rex(api, ins, bits) != 0 {
        asm_rex(api, ins, bits) & 0x08 == 0x08
    } else {
        asm_size(api, ins).0 == Size::Qword || asm_size(api, ins).0 == Size::Any
    }
}

/// The first memory operand of `ops`.
pub open spec fn first_mem(ops: Seq<Operand>) -> Option<Mem>
    decreases ops.len(),
{
    if ops.len() == 0 {
        None
    } else {
        match ops[0] {
            Operand::Mem(m) => Some(m),
            _ => first_mem(ops.drop_first()),
        }
    }
}

/// The byte, if any, as a sequence.
pub open spec fn opt_byte(b: Option<u8>) -> Seq<u8> {
    match b {
        Some(x) => seq![x],
        None => Seq::empty(),
    }
}

/// Whether the layout's prefix kind is VEX, EVEX or APX.
pub open spec fn not_std_prefix(api: GenAPI) -> bool {
    api.spec_fpfx() == PREFIX_VEX || api.spec_fpfx() == PREFIX_EVEX || api.spec_fpfx()
        == PREFIX_APX
}

/// The size-override prefixes: for a fixed size the one it needs; otherwise 0x66 where the
/// size needs it, the prefix kind is a legacy one, the layout allows it and its own prefix is
/// not 0x66 already, and 0x67 where the addressing needs it.
pub open spec fn size_prefixes(api: GenAPI, ins: Instr, bits: u8) -> Seq<u8> {
    let (sz, fixed) = asm_size(api, ins);
    if fixed {
        opt_byte(spec_gen_sizeovr_fixed_size(sz, bits))
    } else {
        match spec_gen_size_ovr(ins.size_ovr, asm_ord(api, ins).0, sz, bits, asm_rexw(api, ins, bits)) {
            Some((h66, h67)) => (if h66 is Some && !not_std_prefix(api) && api.flags.has(
                CAN_H66O as int,
            ) && api.prefix != 0x66 {
                seq![0x66u8]
            } else {
                Seq::empty()
            }) + (if h67 is Some {
                seq![0x67u8]
            } else {
                Seq::empty()
            }),
            None => Seq::empty(),
        }
    }
}

/// The legacy prefixes: the additional prefix (LOCK, REP...), the segment override of the
/// first memory operand, the size overrides, and the layout's own prefix byte for a legacy
/// prefix kind.
pub open spec fn legacy_prefixes(api: GenAPI, ins: Instr, bits: u8) -> Seq<u8> {
    opt_byte(spec_gen_addt_pfx(ins.addt)) + opt_byte(
        match first_mem(ins.operands@) {
            Some(m) => match m.segment {
                Some(s) => Some(spec_segm_byte(s)),
                None => None,
            },
            None => None,
        },
    ) + size_prefixes(api, ins, bits) + (if !not_std_prefix(api) && api.prefix != 0 {
        seq![(api.prefix & 0xff) as u8]
    } else {
        Seq::empty()
    })
}

/// The prefix of the layout's kind: the REX byte where there is one; for VEX the APX prefix
/// when the instruction needs the APX extension, else EVEX when it needs EVEX and the
/// layout does not restrict prefixes, else VEX; for EVEX the APX prefix or EVEX; for APX
/// the APX prefix.
pub open spec fn kind_prefix(api: GenAPI, ins: Instr, bits: u8) -> Seq<u8> {
    let f = api.spec_fpfx();
    let (rm, reg, vv) = asm_ord(api, ins);
    let apx_bytes = spec_apx(api, rm, reg, vv, ins.apx, bits);
    let evex_bytes = spec_evex_bytes(api, rm, reg, vv, ins.apx.evex);
    let (vrm, vreg, vvv) = vex_operands(api, op_at(ins, 0), op_at(ins, 1), op_at(ins, 2), op_at(ins, 3));
    let vex_bytes = spec_vex_bytes(api, vrm, vreg, vvv, ins.is_ymm);
    if f == PREFIX_REX {
        if asm_rex(api, ins, bits) != 0 {
            seq![asm_rex(api, ins, bits)]
        } else {
            Seq::empty()
        }
    } else if f == PREFIX_VEX {
        if ins.needs_apx_extension {
            apx_bytes
        } else if ins.apx.needs_evex && !api.flags.has(STRICT_PFX as int) {
            evex_bytes
        } else {
            vex_bytes
        }
    } else if f == PREFIX_EVEX {
        if ins.needs_apx_extension {
            apx_bytes
        } else {
            evex_bytes
        }
    } else if f == PREFIX_APX {
        apx_bytes
    } else {
        Seq::empty()
    }
}

/// The REX byte of an instruction under a layout, 0 when it gets none.
fn rex_byte(api: &GenAPI, ins: &Instr, bits: u8) -> (r: u8)
    ensures
        r == asm_rex(*api, *ins, bits),
{
    if api.get_fpfx() == PREFIX_REX && !api.flags.at(STRICT_PFX) && bits == 64 {
        match gen_rex(ins.operands.as_slice(), api.modrm_reg_is_dst(), &ins.rex) {
            Some(r) => r,
            None => 0,
        }
    } else {
        0
    }
}

/// The first memory operand of an instruction.
fn find_mem(ops: &Vec<Operand>) -> (r: Option<Mem>)
    ensures
        r == first_mem(ops@),
{
    let mut i: usize = 0;
    assert(ops@.subrange(0, ops@.len() as int) =~= ops@);
    while i < ops.len()
        invariant
            i <= ops@.len(),
            first_mem(ops@) == first_mem(ops@.subrange(i as int, ops@.len() as int)),
        decreases ops@.len() - i,
    {
        let ghost rest = ops@.subrange(i as int, ops@.len() as int);
        assert(rest.drop_first() =~= ops@.subrange(i + 1, ops@.len() as int));
        match ops[i] {
            Operand::Mem(m) => {
                return Some(m);
            },
            _ => {},
        }
        i = i + 1;
    }
    None
}

/// Whether the instruction is a 64-bit one under the layout.
fn rexw_of(api: &GenAPI, ins: &Instr, bits: u8) -> (r: bool)
    ensures
        r == asm_rexw(*api, *ins, bits),
{
    let ins_size = match api.get_size() {
        Some(sz) => sz,
        None => ins.size,
    };
    let rex = rex_byte(api, ins, bits);
    if bits == 64 {
        if rex != 0 {
            rex & 0x08 == 0x08
        } else {
            ins_size == Size::Qword || ins_size == Size::Any
        }
    } else {
        false
    }
}

/// Appends the size-override prefixes of an instruction under a layout.
fn push_size_prefixes(base: &mut Vec<u8>, api: &GenAPI, ins: &Instr, bits: u8)
    ensures
        final(base)@ == old(base)@ + size_prefixes(*api, *ins, bits),
{
    let prefix_flag = api.get_fpfx();
    let not_std = prefix_flag == PREFIX_VEX || prefix_flag == PREFIX_EVEX || prefix_flag
        == PREFIX_APX;
    match api.get_size() {
        Some(sz) => {
            if let Some(size_ovr) = gen_sizeovr_fixed_size(sz, bits) {
                base.push(size_ovr);
            }
        },
        None => {
            let rexw = rexw_of(api, ins, bits);
            let rm = api.get_ord_oprs(get_op(ins, 0), get_op(ins, 1), get_op(ins, 2));
            if let Some(size_ovr) = gen_size_ovr(&ins.size_ovr, &rm[0], ins.size, bits, rexw) {
                let h66 = size_ovr[0];
                let h67 = size_ovr[1];
                let ghost start = base@;
                if h66.is_some() && !not_std && api.flags.at(CAN_H66O) && api.prefix != 0x66 {
                    base.push(0x66);
                }
                if h67.is_some() {
                    base.push(0x67);
                }
            }
        },
    }
    assert(base@ =~= old(base)@ + size_prefixes(*api, *ins, bits));
}

/// Appends the legacy prefixes of an instruction under a layout.
fn push_legacy_prefixes(base: &mut Vec<u8>, api: &GenAPI, ins: &Instr, bits: u8)
    ensures
        final(base)@ == old(base)@ + legacy_prefixes(*api, *ins, bits),
{
    if let Some(a) = gen_addt_pfx(ins.addt) {
        base.push(a);
    }
    let mem = find_mem(&ins.operands);
    if let Some(segm) = gen_segm_pref(&mem) {
        base.push(segm);
    }
    let ghost after_segm = base@;
    push_size_prefixes(base, api, ins, bits);
    let prefix_flag = api.get_fpfx();
    let not_std = prefix_flag == PREFIX_VEX || prefix_flag == PREFIX_EVEX || prefix_flag
        == PREFIX_APX;
    if !not_std && api.prefix != 0 {
        base.push((api.prefix & 0xff) as u8);
    }
    assert(base@ =~= old(base)@ + legacy_prefixes(*api, *ins, bits));
}

/// The prefix of the layout's kind for an instruction.
fn push_kind_prefix(base: &mut Vec<u8>, api: &GenAPI, ins: &Instr, bits: u8)
    requires
        instr_wf(*ins),
        api.spec_fpfx() == PREFIX_APX ==> api.spec_apx_version() is Some,
    ensures
        final(base)@ == old(base)@ + kind_prefix(*api, *ins, bits),
{
    let prefix_flag = api.get_fpfx();
    let dst = get_op(ins, 0);
    let src = get_op(ins, 1);
    let ssrc = get_op(ins, 2);
    let src2 = get_op(ins, 3);
    if prefix_flag == PREFIX_REX {
        let rex = rex_byte(api, ins, bits);
        if rex != 0 {
            base.push(rex);
        }
    } else if prefix_flag == PREFIX_VEX {
        if ins.needs_apx_extension {
            let b = apx(api, dst, src, ssrc, &ins.apx, bits);
            push_all(base, b.as_slice());
        } else if ins.apx.needs_evex && !api.flags.at(STRICT_PFX) {
            let b = evex(api, dst, src, ssrc, &ins.apx.evex);
            push_all(base, &b);
        } else {
            match vex(api, dst, src, ssrc, src2, ins.is_ymm) {
                Some(b) => push_all(base, b.as_slice()),
                None => {},
            }
        }
    } else if prefix_flag == PREFIX_EVEX {
        if ins.needs_apx_extension {
            let b = apx(api, dst, src, ssrc, &ins.apx, bits);
            push_all(base, b.as_slice());
        } else {
            let b = evex(api, dst, src, ssrc, &ins.apx.evex);
            push_all(base, &b);
        }
    } else if prefix_flag == PREFIX_APX {
        let b = apx(api, dst, src, ssrc, &ins.apx, bits);
        push_all(base, b.as_slice());
    }
    assert(base@ =~= old(base)@ + kind_prefix(*api, *ins, bits));
}

/// `n` zero bytes.
pub open spec fn zeros(n: int) -> Seq<u8> {
    Seq::new(n as nat, |i: int| 0u8)
}

/// Appends `n` zero bytes.
fn push_zeros(v: &mut Vec<u8>, n: usize)
    ensures
        final(v)@ == old(v)@ + zeros(n as int),
{
    let mut i: usize = 0;
    while i < n
        invariant
            i <= n,
            v@ == old(v)@ + zeros(i as int),
        decreases n - i,
    {
        v.push(0);
        i = i + 1;
        assert(v@ =~= old(v)@ + zeros(i as int));
    }
}

/// The first dereferenced symbol among the payloads.
pub open spec fn first_deref(p: Seq<Payload>) -> Option<SymRef>
    decreases p.len(),
{
    if p.len() == 0 {
        None
    } else {
        match p[0] {
            Payload::Symbol(s) => if s.deref {
                Some(s)
            } else {
                first_deref(p.drop_first())
            },
            _ => first_deref(p.drop_first()),
        }
    }
}

/// The first dereferenced symbol among an instruction's payloads.
fn find_deref(p: &Vec<Payload>) -> (r: Option<&SymRef>)
    ensures
        match first_deref(p@) {
            Some(s) => r == Some(&s),
            None => r.is_none(),
        },
{
    let mut i: usize = 0;
    assert(p@.subrange(0, p@.len() as int) =~= p@);
    while i < p.len()
        invariant
            i <= p@.len(),
            first_deref(p@) == first_deref(p@.subrange(i as int, p@.len() as int)),
        decreases p@.len() - i,
    {
        let ghost rest = p@.subrange(i as int, p@.len() as int);
        assert(rest.drop_first() =~= p@.subrange(i + 1, p@.len() as int));
        match &p[i] {
            Payload::Symbol(s) => {
                if s.deref {
                    return Some(s);
                }
            },
            _ => {},
        }
        i = i + 1;
    }
    None
}

/// The relocation type of a symbol reference: its own, else the default.
pub open spec fn reltype_of(s: SymRef, default_rel: RelType) -> RelType {
    match s.reltype {
        Some(r) => r,
        None => default_rel,
    }
}

/// The addend of a symbol reference's relocation: its own addend (0 when it has none) less
/// the number of bytes the relocation patches.
pub open spec fn reloc_addend(s: SymRef, default_rel: RelType) -> int {
    (match s.addend {
        Some(a) => a as int,
        None => 0,
    }) - reltype_of(s, default_rel).size
}

/// Whether a relocation is the one asked for symbol `s` at `offset`.
pub open spec fn reloc_is(r: AsmReloc, s: SymRef, offset: int, default_rel: RelType) -> bool {
    &&& r.symbol@ == s.name@
    &&& r.offset == offset
    &&& r.addend == reloc_addend(s, default_rel)
    &&& r.reltype == reltype_of(s, default_rel)
}

/// The relocation for symbol `s` at `offset`.
fn make_reloc(s: &SymRef, offset: usize, default_rel: RelType) -> (r: AsmReloc)
    requires
        reloc_addend(*s, default_rel) >= i32::MIN,
    ensures
        reloc_is(r, *s, offset as int, default_rel),
{
    let reltype = match s.reltype {
        Some(t) => t,
        None => default_rel,
    };
    let addend: i32 = match s.addend {
        Some(a) => a,
        None => 0,
    };
    AsmReloc {
        symbol: s.name.clone(),
        offset,
        addend: addend - reltype.size as i32,
        reltype,
    }
}

/// The displacement of the r/m operand, where it is memory that has one.
pub open spec fn rm_disp(api: GenAPI, ins: Instr, bits: u8) -> Option<Seq<u8>> {
    match asm_ord(api, ins).0 {
        Some(Operand::Mem(m)) => spec_gen_disp(m, bits),
        _ => None,
    }
}

/// The SIB byte of the r/m operand where it needs one, outside 16-bit mode.
pub open spec fn sib_part(api: GenAPI, ins: Instr, bits: u8) -> Seq<u8> {
    if bits != 16 {
        match asm_ord(api, ins).0 {
            Some(Operand::Mem(m)) => opt_byte(spec_gen_sib(m)),
            _ => Seq::empty(),
        }
    } else {
        Seq::empty()
    }
}

/// The symbol whose address fills the displacement: where the layout uses ModRM and the r/m
/// operand has no displacement, the first dereferenced symbol.
pub open spec fn modrm_symbol(api: GenAPI, ins: Instr, bits: u8) -> Option<SymRef> {
    if api.flags.has(USE_MODRM as int) && rm_disp(api, ins, bits) is None {
        first_deref(ins.payloads@)
    } else {
        None
    }
}

/// The ModRM byte, the SIB byte and the displacement, where the layout uses ModRM; where
/// the r/m operand has no displacement, room for a dereferenced symbol's address (four
/// bytes, two in 16-bit mode).
pub open spec fn modrm_part(api: GenAPI, ins: Instr, bits: u8) -> Seq<u8> {
    let (rm, reg, _) = asm_ord(api, ins);
    if api.flags.has(USE_MODRM as int) {
        seq![spec_modrm(rm, reg, api)] + sib_part(api, ins, bits) + match rm_disp(api, ins, bits) {
            Some(d) => d,
            None => match first_deref(ins.payloads@) {
                Some(_) => zeros(if bits != 16 {
                    4
                } else {
                    2
                }),
                None => Seq::empty(),
            },
        }
    } else {
        Seq::empty()
    }
}

/// The first dereferenced symbol is one of the payloads.
proof fn lemma_first_deref_in(p: Seq<Payload>)
    ensures
        first_deref(p) matches Some(s) ==> exists|k: int|
            0 <= k < p.len() && #[trigger] p[k] == Payload::Symbol(s),
    decreases p.len(),
{
    if p.len() > 0 {
        lemma_first_deref_in(p.drop_first());
        if let Some(s) = first_deref(p) {
            if p[0] != Payload::Symbol(s) {
                let k = choose|k: int|
                    0 <= k < p.drop_first().len() && #[trigger] p.drop_first()[k] == Payload::Symbol(
                        s,
                    );
                assert(p[k + 1] == Payload::Symbol(s));
            }
        }
    }
}

/// The operands the layout places are well formed, and so is a memory r/m operand's SIB need.
proof fn lemma_ord_wf(api: GenAPI, ins: Instr)
    requires
        instr_wf(ins),
    ensures
        ({
            let (rm, reg, vv) = asm_ord(api, ins);
            &&& opt_wf(rm)
            &&& opt_wf(reg)
            &&& opt_wf(vv)
            &&& (rm matches Some(Operand::Mem(m)) ==> (m.sib ==> m.index.is_some()))
        }),
{
    assert(opt_wf(op_at(ins, 0)) && opt_wf(op_at(ins, 1)) && opt_wf(op_at(ins, 2)));
    assert(op_at(ins, 0) matches Some(Operand::Mem(m)) ==> (m.sib ==> m.index.is_some()));
    assert(op_at(ins, 1) matches Some(Operand::Mem(m)) ==> (m.sib ==> m.index.is_some()));
    assert(op_at(ins, 2) matches Some(Operand::Mem(m)) ==> (m.sib ==> m.index.is_some()));
}

/// Appends the ModRM part of an instruction; returns the relocation of the symbol it makes
/// room for, if any.
fn push_modrm_part(
    base: &mut Vec<u8>,
    api: &GenAPI,
    ins: &Instr,
    bits: u8,
    default_rel: RelType,
) -> (r: Option<AsmReloc>)
    requires
        instr_wf(*ins),
        forall|k: int|
            0 <= k < ins.payloads@.len() ==> (#[trigger] ins.payloads@[k] matches Payload::Symbol(
                s,
            ) ==> reloc_addend(s, default_rel) >= i32::MIN),
    ensures
        final(base)@ == old(base)@ + modrm_part(*api, *ins, bits),
        match modrm_symbol(*api, *ins, bits) {
            Some(s) => r matches Some(rel) && reloc_is(
                rel,
                s,
                (old(base)@.len() + 1 + sib_part(*api, *ins, bits).len()) as int,
                default_rel,
            ),
            None => r is None,
        },
{
    if !api.flags.at(USE_MODRM) {
        return None;
    }
    let ops = api.get_ord_oprs(get_op(ins, 0), get_op(ins, 1), get_op(ins, 2));
    let rm = ops[0];
    let reg = ops[1];
    proof {
        lemma_ord_wf(*api, *ins);
    }
    base.push(modrm(&rm, &reg, api));
    if bits != 16 {
        if let Some(sib) = gen_sib_ins(&rm) {
            base.push(sib);
        }
    }
    let ghost before_disp = base@;
    let mut rel: Option<AsmReloc> = None;
    match gen_disp_ins(&rm, bits) {
        Some(disp) => push_all(base, disp.as_slice()),
        None => {
            match find_deref(&ins.payloads) {
                Some(s) => {
                    proof {
                        lemma_first_deref_in(ins.payloads@);
                    }
                    rel = Some(make_reloc(s, base.len(), default_rel));
                    if bits != 16 {
                        push_zeros(base, 4);
                    } else {
                        push_zeros(base, 2);
                    }
                },
                None => {},
            }
        },
    }
    assert(base@ =~= old(base)@ + modrm_part(*api, *ins, bits));
    rel
}

/// The size of the immediate, from the layout's `addt` (its second nibble).
pub open spec fn imm_size(api: GenAPI) -> int {
    ((api.addt & 0xF0) >> 4u16) as int
}

/// The position of the immediate's operand, from the layout's `addt` (its first nibble).
pub open spec fn imm_index(api: GenAPI) -> int {
    (api.addt & 0x0F) as int
}

/// The payload of the operand the immediate comes from, where the layout has an immediate
/// and the instruction that operand.
pub open spec fn imm_payload(api: GenAPI, ins: Instr) -> Option<Payload> {
    if api.flags.has(IMM as int) && imm_index(api) < ins.payloads@.len() {
        Some(ins.payloads@[imm_index(api)])
    } else {
        None
    }
}

/// The bytes a number takes, little endian, or big endian when `be`.
pub open spec fn number_bytes(n: Number, be: bool) -> Seq<u8> {
    let b = n.le@.take(n.real_size as int);
    if be {
        b.reverse()
    } else {
        b
    }
}

/// A number written into an immediate field of `size` bytes: little endian, its bytes cut
/// or followed by zeros to fill the field; big endian, as many zeros as the field and the
/// number differ in length, then as much of the number as fills the field.
pub open spec fn number_field(n: Number, size: int, be: bool) -> Seq<u8> {
    let b = number_bytes(n, be);
    if be {
        let pad = if size >= b.len() {
            size - b.len()
        } else {
            b.len() - size
        };
        let room = if size - pad > 0 {
            size - pad
        } else {
            0
        };
        zeros(pad) + b.take(if room < b.len() {
            room
        } else {
            b.len() as int
        })
    } else {
        let k = if size < b.len() {
            size
        } else {
            b.len() as int
        };
        b.take(k) + zeros(size - k)
    }
}

/// A register written into an immediate field (the is4 form): bit 3 of its number in bit 7,
/// its low three bits from bit 4, zeros up to `size` bytes.
pub open spec fn register_field(r: crate::operand::Reg, size: int) -> Seq<u8> {
    let first = ((if r.ext3 {
        0x80u8
    } else {
        0u8
    }) | (r.byte << 4u8)) as u8;
    if size > 1 {
        seq![first] + zeros(size - 1)
    } else {
        seq![first]
    }
}

/// What an escaped character stands for: newline, tab, zero, carriage return, double or
/// single quote for `n`, `t`, `0`, `r`, `"` and `'`; the backslash and the character
/// otherwise.
pub open spec fn escaped(c: u8) -> Seq<u8> {
    if c == 0x6e {
        seq![0x0au8]
    } else if c == 0x74 {
        seq![0x09u8]
    } else if c == 0x30 {
        seq![0x00u8]
    } else if c == 0x72 {
        seq![0x0du8]
    } else if c == 0x22 {
        seq![0x22u8]
    } else if c == 0x27 {
        seq![0x27u8]
    } else {
        seq![0x5cu8, c]
    }
}

/// The bytes of a string with its escapes resolved, `esc` telling whether a backslash came
/// just before; a final lone backslash is dropped.
pub open spec fn unescape_from(s: Seq<u8>, esc: bool) -> Seq<u8>
    decreases s.len(),
{
    if s.len() == 0 {
        Seq::empty()
    } else if esc {
        escaped(s[0]) + unescape_from(s.drop_first(), false)
    } else if s[0] == 0x5c {
        unescape_from(s.drop_first(), true)
    } else {
        seq![s[0]] + unescape_from(s.drop_first(), false)
    }
}

/// The immediate bytes that go with the rest of the instruction: a number of nonzero size,
/// room for a symbol's address (the relocation's width when the size is 0), or a register.
pub open spec fn imm_part(api: GenAPI, ins: Instr, default_rel: RelType) -> Seq<u8> {
    let size = imm_size(api);
    match imm_payload(api, ins) {
        Some(Payload::Number(n)) => if size == 0 {
            Seq::empty()
        } else {
            number_field(n, size, api.flags.has(IMM_LEBE as int))
        },
        Some(Payload::Symbol(s)) => zeros(if size == 0 {
            reltype_of(s, default_rel).size as int
        } else {
            size
        }),
        Some(Payload::Plain) => match op_at(ins, imm_index(api)) {
            Some(Operand::Register(r)) => register_field(r, size),
            _ => Seq::empty(),
        },
        _ => Seq::empty(),
    }
}

/// The value of a number, from its little-endian bytes.
pub open spec fn number_value(n: Number) -> u64 {
    read_le64(n.le@, 0)
}

/// The long immediate that follows the instruction: as many zeros as a number of size 0
/// says, or a string (cut to the immediate's size when that is not 0) with its escapes
/// resolved.
pub open spec fn imm_tail(api: GenAPI, ins: Instr) -> Seq<u8> {
    let size = imm_size(api);
    match imm_payload(api, ins) {
        Some(Payload::Number(n)) => if size == 0 {
            zeros(number_value(n) as int)
        } else {
            Seq::empty()
        },
        Some(Payload::Text(t)) => unescape_from(
            if size == 0 {
                t@
            } else {
                t@.take(size)
            },
            false,
        ),
        _ => Seq::empty(),
    }
}

/// The symbol whose address fills the immediate, if it comes from one.
pub open spec fn imm_symbol(api: GenAPI, ins: Instr) -> Option<SymRef> {
    match imm_payload(api, ins) {
        Some(Payload::Symbol(s)) => Some(s),
        _ => None,
    }
}

/// What the immediate needs of an instruction: a number of at most eight bytes, whose value
/// fits a `usize` where it counts zeros; a string at least as long as a nonzero immediate
/// size; a register in at most eight bytes.
pub open spec fn imm_ok(api: GenAPI, ins: Instr) -> bool {
    match imm_payload(api, ins) {
        Some(Payload::Number(n)) => n.real_size <= 8 && (imm_size(api) == 0 ==> number_value(n)
            <= usize::MAX),
        Some(Payload::Text(t)) => imm_size(api) == 0 || imm_size(api) <= t@.len(),
        Some(Payload::Plain) => imm_size(api) <= 8,
        _ => true,
    }
}

/// The value of a number.
fn value_of(n: &Number) -> (r: u64)
    ensures
        r == number_value(*n),
{
    let b = &n.le;
    let lo: u32 = (b[0] as u32) | ((b[1] as u32) << 8u32) | ((b[2] as u32) << 16u32) | ((
    b[3] as u32) << 24u32);
    let hi: u32 = (b[4] as u32) | ((b[5] as u32) << 8u32) | ((b[6] as u32) << 16u32) | ((
    b[7] as u32) << 24u32);
    (lo as u64) | ((hi as u64) << 32u64)
}

/// Appends a number written into an immediate field of `size` bytes.
fn push_number_field(base: &mut Vec<u8>, n: &Number, size: usize, be: bool)
    requires
        n.real_size <= 8,
        size < 16,
    ensures
        final(base)@ == old(base)@ + number_field(*n, size as int, be),
{
    let nbytes = n.real_size as usize;
    let mut b: Vec<u8> = Vec::new();
    if be {
        let mut j: usize = nbytes;
        while j > 0
            invariant
                j <= nbytes,
                nbytes <= 8,
                b@ == n.le@.take(nbytes as int).reverse().take((nbytes - j) as int),
            decreases j,
        {
            j = j - 1;
            b.push(n.le[j]);
            assert(b@ =~= n.le@.take(nbytes as int).reverse().take((nbytes - j) as int));
        }
    } else {
        let mut j: usize = 0;
        while j < nbytes
            invariant
                j <= nbytes,
                nbytes <= 8,
                b@ == n.le@.take(j as int),
            decreases nbytes - j,
        {
            b.push(n.le[j]);
            j = j + 1;
            assert(b@ =~= n.le@.take(j as int));
        }
    }
    assert(b@ =~= number_bytes(*n, be));
    let mut idx: usize = 0;
    let ghost start = base@;
    if be {
        let pad = if size >= b.len() {
            size - b.len()
        } else {
            b.len() - size
        };
        push_zeros(base, pad);
        idx = pad;
    }
    let ghost padded = base@;
    let ghost idx0 = idx;
    let mut k: usize = 0;
    while k < b.len() && idx < size
        invariant
            k <= b@.len(),
            idx == idx0 + k,
            idx0 <= size ==> idx <= size,
            idx0 > size ==> k == 0,
            !be ==> idx0 == 0,
            base@ == padded + b@.take(k as int),
        decreases b@.len() - k,
    {
        base.push(b[k]);
        idx = idx + 1;
        k = k + 1;
        assert(base@ =~= padded + b@.take(k as int));
    }
    let ghost kk: int = if idx0 >= size {
        0
    } else if size - idx0 < b@.len() {
        size - idx0
    } else {
        b@.len() as int
    };
    assert(k == kk);
    if !be {
        push_zeros(base, size - idx);
    }
    assert(base@ =~= old(base)@ + number_field(*n, size as int, be));
}

/// Appends a string with its escapes resolved.
fn push_unescaped(imm: &mut Vec<u8>, s: &[u8])
    ensures
        final(imm)@ == old(imm)@ + unescape_from(s@, false),
{
    let mut esc = false;
    let mut i: usize = 0;
    assert(s@.subrange(0, s@.len() as int) =~= s@);
    while i < s.len()
        invariant
            i <= s@.len(),
            old(imm)@ + unescape_from(s@, false) == imm@ + unescape_from(
                s@.subrange(i as int, s@.len() as int),
                esc,
            ),
        decreases s@.len() - i,
    {
        let b = s[i];
        let ghost rest = s@.subrange(i as int, s@.len() as int);
        assert(rest.drop_first() =~= s@.subrange(i + 1, s@.len() as int));
        let ghost before = imm@;
        if esc {
            if b == 0x6e {
                imm.push(0x0a);
            } else if b == 0x74 {
                imm.push(0x09);
            } else if b == 0x30 {
                imm.push(0x00);
            } else if b == 0x72 {
                imm.push(0x0d);
            } else if b == 0x22 {
                imm.push(0x22);
            } else if b == 0x27 {
                imm.push(0x27);
            } else {
                imm.push(0x5c);
                imm.push(b);
            }
            assert(imm@ =~= before + escaped(b));
            esc = false;
        } else if b == 0x5c {
            esc = true;
        } else {
            imm.push(b);
        }
        i = i + 1;
    }
}

/// Appends the immediate part of an instruction to `base` and its long immediate to `tail`;
/// returns the relocation of the symbol whose address fills it, if any.
fn push_imm_part(
    base: &mut Vec<u8>,
    tail: &mut Vec<u8>,
    api: &GenAPI,
    ins: &Instr,
    default_rel: RelType,
) -> (r: Option<AsmReloc>)
    requires
        instr_wf(*ins),
        imm_ok(*api, *ins),
        forall|k: int|
            0 <= k < ins.payloads@.len() ==> (#[trigger] ins.payloads@[k] matches Payload::Symbol(
                s,
            ) ==> reloc_addend(s, default_rel) >= i32::MIN),
    ensures
        final(base)@ == old(base)@ + imm_part(*api, *ins, default_rel),
        final(tail)@ == old(tail)@ + imm_tail(*api, *ins),
        match imm_symbol(*api, *ins) {
            Some(s) => r matches Some(rel) && reloc_is(
                rel,
                s,
                old(base)@.len() as int,
                default_rel,
            ),
            None => r is None,
        },
{
    if !api.flags.at(IMM) {
        return None;
    }
    let size = ((api.addt & 0x00F0) >> 4u16) as usize;
    let idx = (api.addt & 0x000F) as usize;
    let a: u16 = api.addt;
    assert(((a & 0xF0) >> 4u16) < 16) by (bit_vector);
    if idx >= ins.payloads.len() {
        return None;
    }
    let mut rel: Option<AsmReloc> = None;
    match &ins.payloads[idx] {
        Payload::Number(n) => {
            if size == 0 {
                let v = value_of(n);
                push_zeros(tail, v as usize);
            } else {
                push_number_field(base, n, size, api.flags.at(IMM_LEBE));
            }
        },
        Payload::Text(t) => {
            if size == 0 {
                push_unescaped(tail, t.as_slice());
            } else {
                let mut part: Vec<u8> = Vec::new();
                let mut j: usize = 0;
                while j < size
                    invariant
                        j <= size,
                        size <= t@.len(),
                        part@ == t@.take(j as int),
                    decreases size - j,
                {
                    part.push(t[j]);
                    j = j + 1;
                    assert(part@ =~= t@.take(j as int));
                }
                push_unescaped(tail, part.as_slice());
            }
        },
        Payload::Symbol(s) => {
            rel = Some(make_reloc(s, base.len(), default_rel));
            let reltype = match s.reltype {
                Some(t) => t,
                None => default_rel,
            };
            if size == 0 {
                push_zeros(base, reltype.size as usize);
            } else {
                push_zeros(base, size);
            }
        },
        Payload::Plain => {
            match ins.operands[idx] {
                Operand::Register(r) => {
                    let mut v: Vec<u8> = Vec::new();
                    let hi: u8 = if r.ext3 {
                        0x80
                    } else {
                        0
                    };
                    assert(r.byte < 8);
                    v.push(hi | (r.byte << 4u8));
                    crate::api::extend_imm(&mut v, size as u8);
                    push_all(base, v.as_slice());
                    assert(v@ =~= register_field(r, size as int));
                },
                _ => {},
            }
        },
    }
    rel
}

/// What assembling an instruction under a layout needs: a well-formed instruction, an
/// opcode of at most four bytes, a known variant for an APX layout, what the immediate
/// needs, and symbol addends that leave room for subtracting the relocation's width.
pub open spec fn assemble_ok(api: GenAPI, ins: Instr, default_rel: RelType) -> bool {
    &&& instr_wf(ins)
    &&& api.meta_0 & 7 <= 4
    &&& (api.spec_fpfx() == PREFIX_APX ==> api.spec_apx_version() is Some)
    &&& imm_ok(api, ins)
    &&& forall|k: int|
        0 <= k < ins.payloads@.len() ==> (#[trigger] ins.payloads@[k] matches Payload::Symbol(s)
            ==> reloc_addend(s, default_rel) >= i32::MIN)
}

/// The prefixes and the opcode of an instruction.
pub open spec fn assembled_head(api: GenAPI, ins: Instr, bits: u8) -> Seq<u8> {
    legacy_prefixes(api, ins, bits) + kind_prefix(api, ins, bits) + api.opcode@.subrange(
        0,
        (api.meta_0 & 7) as int,
    )
}

/// The bytes of an instruction before any long immediate: prefixes, opcode, the ModRM part
/// and the immediate part.
pub open spec fn assembled_base(api: GenAPI, ins: Instr, bits: u8, default_rel: RelType) -> Seq<
    u8,
> {
    assembled_head(api, ins, bits) + modrm_part(api, ins, bits) + imm_part(api, ins, default_rel)
}

/// The relocations assembling asks for: that of the symbol in the displacement, then that of
/// the symbol in the immediate, each where there is one, at the offsets of their bytes.
pub open spec fn assembled_relocs(
    rs: Seq<AsmReloc>,
    api: GenAPI,
    ins: Instr,
    bits: u8,
    default_rel: RelType,
) -> bool {
    let m = modrm_symbol(api, ins, bits);
    let i = imm_symbol(api, ins);
    let head = assembled_head(api, ins, bits).len() as int;
    &&& rs.len() == (if m is Some {
        1int
    } else {
        0
    }) + (if i is Some {
        1int
    } else {
        0
    })
    &&& (m matches Some(s) ==> reloc_is(
        rs[0],
        s,
        head + 1 + sib_part(api, ins, bits).len(),
        default_rel,
    ))
    &&& (i matches Some(s) ==> reloc_is(
        rs[rs.len() - 1],
        s,
        head + modrm_part(api, ins, bits).len(),
        default_rel,
    ))
}

impl GenAPI {
    /// Assembles an instruction under this layout in `bits`-bit mode: the legacy prefixes,
    /// the prefix of the layout's kind, the opcode, ModRM, SIB and displacement, then the
    /// immediate; with the relocations its symbols ask for (`default_rel` where a symbol
    /// gives no relocation type). A long immediate (zeros a number of size 0 counts, or a
    /// string) makes the result a `WLargeImm`.
    pub fn assemble(self, ins: &Instr, bits: u8, default_rel: RelType) -> (r: (
        AssembleResult,
        Vec<AsmReloc>,
    ))
        requires
            assemble_ok(self, *ins, default_rel),
        ensures
            ({
                let base = assembled_base(self, *ins, bits, default_rel);
                let tail = imm_tail(self, *ins);
                &&& tail.len() == 0 ==> (r.0 matches AssembleResult::NoLargeImm(v) && v@ == base)
                &&& tail.len() > 0 ==> (r.0 matches AssembleResult::WLargeImm(v) && v@ == base
                    + tail)
            }),
            assembled_relocs(r.1@, self, *ins, bits, default_rel),
    {
        let mut base: Vec<u8> = Vec::new();
        push_legacy_prefixes(&mut base, &self, ins, bits);
        push_kind_prefix(&mut base, &self, ins, bits);
        let opc = self.get_opcode();
        push_all(&mut base, opc.as_slice());
        let ghost head = base@;
        let mut rels: Vec<AsmReloc> = Vec::new();
        if let Some(r) = push_modrm_part(&mut base, &self, ins, bits, default_rel) {
            rels.push(r);
        }
        let ghost after_modrm = base@;
        let mut imm: Vec<u8> = Vec::new();
        if let Some(r) = push_imm_part(&mut base, &mut imm, &self, ins, default_rel) {
            rels.push(r);
        }
        assert(head =~= assembled_head(self, *ins, bits));
        assert(base@ =~= assembled_base(self, *ins, bits, default_rel));
        if imm.len() > 0 {
            push_all(&mut base, imm.as_slice());
            (AssembleResult::WLargeImm(base), rels)
        } else {
            (AssembleResult::NoLargeImm(base), rels)
        }
    }
}

/// The bytes a relocation patches are reserved as zeros in the assembled instruction, at the
/// relocation's offset: four for a symbol in the displacement (two in 16-bit mode), and for
/// a symbol in the immediate the immediate's size, or the relocation's width when that size
/// is 0.
pub proof fn lemma_relocations_point_at_room(
    api: GenAPI,
    ins: Instr,
    bits: u8,
    default_rel: RelType,
)
    ensures
        ({
            let base = assembled_base(api, ins, bits, default_rel);
            let head = assembled_head(api, ins, bits).len() as int;
            let at_disp = head + 1 + sib_part(api, ins, bits).len();
            let disp_width: int = if bits != 16 {
                4
            } else {
                2
            };
            let at_imm = head + modrm_part(api, ins, bits).len();
            &&& modrm_symbol(api, ins, bits) is Some ==> base.subrange(
                at_disp,
                at_disp + disp_width,
            ) == zeros(disp_width)
            &&& imm_symbol(api, ins) matches Some(s) ==> ({
                let width: int = if imm_size(api) == 0 {
                    reltype_of(s, default_rel).size as int
                } else {
                    imm_size(api)
                };
                base.subrange(at_imm, at_imm + width) == zeros(width)
            })
        }),
{
    let base = assembled_base(api, ins, bits, default_rel);
    let hd = assembled_head(api, ins, bits);
    let head = hd.len() as int;
    let mp = modrm_part(api, ins, bits);
    let ip = imm_part(api, ins, default_rel);
    assert(base == hd + mp + ip);
    if modrm_symbol(api, ins, bits) is Some {
        let (rm, reg, _) = asm_ord(api, ins);
        let sp = sib_part(api, ins, bits);
        let disp_width: int = if bits != 16 {
            4
        } else {
            2
        };
        assert(mp == seq![spec_modrm(rm, reg, api)] + sp + zeros(disp_width));
        let at_disp = head + 1 + sp.len();
        assert(base.subrange(at_disp, at_disp + disp_width) =~= zeros(disp_width));
    }
    if let Some(s) = imm_symbol(api, ins) {
        let width: int = if imm_size(api) == 0 {
            reltype_of(s, default_rel).size as int
        } else {
            imm_size(api)
        };
        assert(ip == zeros(width));
        let at_imm = head + mp.len();
        assert(base.subrange(at_imm, at_imm + width) =~= zeros(width));
    }
}

} // verus!
