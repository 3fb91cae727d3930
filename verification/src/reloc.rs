use vstd::prelude::*;

use crate::le::{le_i32, le32, lemma_le32_readback, read_le32};
use crate::symbol::{Symbol, VarContent};
use crate::text::str_eq;

verus! {

/// A relocation type.
#[derive(Clone, Copy, Debug, PartialEq, Eq, Structural)]
pub enum RType {
    /// Relative 32-bit (jumps and calls).
    PCRel32,
    /// Absolute 64-bit (global variables and pointers).
    Abs64,
    NoReloc,
}

/// The ELF code of a relocation type.
pub open spec fn spec_rtype_code(t: RType) -> u32 {
    match t {
        RType::PCRel32 => 2,
        RType::Abs64 => 1,
        RType::NoReloc => 0,
    }
}

impl RType {
    /// The ELF code of this relocation type.
    pub fn code(self) -> (c: u32)
        ensures
            c == spec_rtype_code(self),
    {
        match self {
            RType::PCRel32 => 2,
            RType::Abs64 => 1,
            RType::NoReloc => 0,
        }
    }
}

/// What a relocation patches: a jump target or a loaded value.
#[derive(Clone, Copy, Debug, PartialEq, Eq, Structural)]
pub enum RCategory {
    Jump,
    Lea,
}

/// A place in the code that refers to a symbol: the symbol's name, the relocation type, the
/// offset of the place, the addend, what it patches and the size of the instruction.
#[derive(Clone, Debug)]
pub struct Relocation {
    pub symbol: String,
    pub rtype: RType,
    pub offset: u64,
    pub addend: i32,
    pub catg: RCategory,
    pub size: u8,
}

/// Why a relocation could not be applied.
#[derive(Clone, Debug)]
pub enum RelocError {
    /// The symbol holds a string.
    StringContent,
    /// The symbol is an uninitialized variable.
    UninitContent,
    /// The symbol has no content (a `.bss` variable).
    NoContent,
    /// No symbol has the relocation's name.
    SymbolNotFound(String),
    /// The relocation type is not supported.
    UnsupportedType(RType),
}

/// The index of the first symbol at or after `i` whose name is `name`.
pub open spec fn find_from(table: Seq<Symbol>, name: Seq<char>, i: int) -> Option<int>
    decreases table.len() - i,
{
    if i < 0 || i >= table.len() {
        None
    } else if table[i].name@ == name {
        Some(i)
    } else {
        find_from(table, name, i + 1)
    }
}

/// The index of the first symbol whose name is `name`.
pub open spec fn find_index(table: Seq<Symbol>, name: Seq<char>) -> Option<int> {
    find_from(table, name, 0)
}

/// The first symbol of `table` named `object`.
pub fn find<'a>(table: &'a [Symbol], object: &str) -> (r: Option<&'a Symbol>)
    ensures
        match find_index(table@, object@) {
            Some(i) => r == Some(&table@[i]),
            None => r.is_none(),
        },
{
    let mut i: usize = 0;
    while i < table.len()
        invariant
            i <= table@.len(),
            find_index(table@, object@) == find_from(table@, object@, i as int),
        decreases table@.len() - i,
    {
        if str_eq(table[i].name.as_str(), object) {
            return Some(&table[i]);
        }
        i = i + 1;
    }
    None
}

/// `buf` with `bytes` written from `off` on.
pub open spec fn write_at(buf: Seq<u8>, off: int, bytes: Seq<u8>) -> Seq<u8> {
    Seq::new(
        buf.len(),
        |k: int|
            if off <= k < off + bytes.len() {
                bytes[k - off]
            } else {
                buf[k]
            },
    )
}

/// The 32-bit distance from the end of the relocated instruction to the symbol, with the
/// offsets taken as 32-bit two's-complement values.
pub open spec fn rel32_of(sym: Symbol, r: Relocation) -> int {
    (sym.offset as i32) as int - ((r.offset + r.size) as u64 as i32) as int
}

/// Whether applying relocation `r` to a buffer of `len` bytes stays within the buffer and the
/// arithmetic bounds.
pub open spec fn step_ok(len: int, r: Relocation, symbols: Seq<Symbol>) -> bool {
    r.rtype == RType::PCRel32 ==> match find_index(symbols, r.symbol@) {
        Some(i) => {
            let sym = symbols[i];
            &&& r.offset + r.size <= u64::MAX
            &&& i32::MIN <= rel32_of(sym, r) <= i32::MAX
            &&& (r.catg == RCategory::Jump ==> r.offset + 4 <= len)
            &&& (r.catg != RCategory::Jump ==> (sym.content matches Some(VarContent::Number(n))
                ==> r.offset + n@.len() <= len))
        },
        None => true,
    }
}

/// Applying one relocation: the new buffer, the error if any, and whether processing stops.
/// A relative 32-bit relocation to a known symbol writes, for a jump, the little-endian
/// distance from the instruction's end to the symbol, and otherwise the bytes of the symbol's
/// numeric content (a string or uninitialized content is an error that stops processing; no
/// content is an error); an unknown symbol or another relocation type is an error.
pub open spec fn step(buf: Seq<u8>, r: Relocation, symbols: Seq<Symbol>) -> (
    Seq<u8>,
    Option<RelocError>,
    bool,
) {
    if r.rtype == RType::PCRel32 {
        match find_index(symbols, r.symbol@) {
            Some(i) => {
                let sym = symbols[i];
                if r.catg == RCategory::Jump {
                    (write_at(buf, r.offset as int, le_i32(rel32_of(sym, r) as i32)), None, false)
                } else {
                    match sym.content {
                        Some(VarContent::Number(n)) => (write_at(buf, r.offset as int, n@), None, false),
                        Some(VarContent::String(_)) => (buf, Some(RelocError::StringContent), true),
                        Some(VarContent::Uninit) => (buf, Some(RelocError::UninitContent), true),
                        None => (buf, Some(RelocError::NoContent), false),
                    }
                }
            },
            None => (buf, Some(RelocError::SymbolNotFound(r.symbol)), false),
        }
    } else {
        (buf, Some(RelocError::UnsupportedType(r.rtype)), false)
    }
}

/// The errors as a sequence.
pub open spec fn opt_seq(e: Option<RelocError>) -> Seq<RelocError> {
    match e {
        Some(e) => seq![e],
        None => Seq::empty(),
    }
}

/// Applying relocations in order until one stops processing: the final buffer and the errors.
pub open spec fn process(buf: Seq<u8>, relocs: Seq<Relocation>, symbols: Seq<Symbol>) -> (
    Seq<u8>,
    Seq<RelocError>,
)
    decreases relocs.len(),
{
    if relocs.len() == 0 {
        (buf, Seq::empty())
    } else {
        let (b1, e, stop) = step(buf, relocs[0], symbols);
        if stop {
            (b1, opt_seq(e))
        } else {
            let (b2, es) = process(b1, relocs.drop_first(), symbols);
            (b2, opt_seq(e) + es)
        }
    }
}

/// Whether every relocation that is applied stays within the buffer and the arithmetic
/// bounds.
pub open spec fn process_ok(buf: Seq<u8>, relocs: Seq<Relocation>, symbols: Seq<Symbol>) -> bool
    decreases relocs.len(),
{
    if relocs.len() == 0 {
        true
    } else {
        let (b1, e, stop) = step(buf, relocs[0], symbols);
        step_ok(buf.len() as int, relocs[0], symbols) && (stop || process_ok(
            b1,
            relocs.drop_first(),
            symbols,
        ))
    }
}

proof fn lemma_process_split(
    buf: Seq<u8>,
    relocs: Seq<Relocation>,
    symbols: Seq<Symbol>,
    i: int,
)
    requires
        0 <= i < relocs.len(),
    ensures
        process(buf, relocs.subrange(i, relocs.len() as int), symbols) == ({
            let (b1, e, stop) = step(buf, relocs[i], symbols);
            if stop {
                (b1, opt_seq(e))
            } else {
                let (b2, es) = process(b1, relocs.subrange(i + 1, relocs.len() as int), symbols);
                (b2, opt_seq(e) + es)
            }
        }),
        process_ok(buf, relocs.subrange(i, relocs.len() as int), symbols) == ({
            let (b1, e, stop) = step(buf, relocs[i], symbols);
            step_ok(buf.len() as int, relocs[i], symbols) && (stop || process_ok(
                b1,
                relocs.subrange(i + 1, relocs.len() as int),
                symbols,
            ))
        }),
{
    let s = relocs.subrange(i, relocs.len() as int);
    assert(s[0] == relocs[i]);
    assert(s.drop_first() =~= relocs.subrange(i + 1, relocs.len() as int));
}

/// Writes `bytes` into `buf` from `off` on.
fn write_bytes(buf: &mut Vec<u8>, off: usize, bytes: &[u8])
    requires
        off + bytes@.len() <= old(buf)@.len(),
    ensures
        final(buf)@ == write_at(old(buf)@, off as int, bytes@),
{
    let n = buf.len();
    let mut tmp: usize = 0;
    while tmp < bytes.len()
        invariant
            off + bytes@.len() <= buf@.len(),
            buf@.len() == old(buf)@.len(),
            n == buf@.len(),
            tmp <= bytes@.len(),
            buf@ =~= write_at(old(buf)@, off as int, bytes@.subrange(0, tmp as int)),
        decreases bytes@.len() - tmp,
    {
        buf.set(off + tmp, bytes[tmp]);
        tmp = tmp + 1;
        assert(buf@ =~= write_at(old(buf)@, off as int, bytes@.subrange(0, tmp as int)));
    }
    assert(bytes@.subrange(0, bytes@.len() as int) =~= bytes@);
}

/// Applies the relative 32-bit relocations to `buf`, in order: a jump gets the little-endian
/// distance from the end of its instruction to the symbol, anything else the bytes of the
/// symbol's numeric content. Returns the errors met, `None` when there were none; a symbol
/// holding a string or uninitialized content stops the processing.
pub fn relocate_addresses(buf: &mut Vec<u8>, relocs: Vec<Relocation>, symbols: &[Symbol]) -> (r:
    Option<Vec<RelocError>>)
    requires
        process_ok(old(buf)@, relocs@, symbols@),
    ensures
        final(buf)@ == process(old(buf)@, relocs@, symbols@).0,
        match r {
            Some(errs) => errs@ == process(old(buf)@, relocs@, symbols@).1 && errs@.len() > 0,
            None => process(old(buf)@, relocs@, symbols@).1.len() == 0,
        },
{
    let mut errors: Vec<RelocError> = Vec::new();
    let ghost start = buf@;
    let ghost total = process(start, relocs@, symbols@);
    let mut i: usize = 0;
    assert(relocs@.subrange(0, relocs@.len() as int) =~= relocs@);
    while i < relocs.len()
        invariant_except_break
            i <= relocs@.len(),
            buf@.len() == start.len(),
            total == process(start, relocs@, symbols@),
            total.0 == process(buf@, relocs@.subrange(i as int, relocs@.len() as int), symbols@).0,
            total.1 == errors@ + process(
                buf@,
                relocs@.subrange(i as int, relocs@.len() as int),
                symbols@,
            ).1,
            process_ok(buf@, relocs@.subrange(i as int, relocs@.len() as int), symbols@),
        ensures
            total == process(start, relocs@, symbols@),
            buf@ == total.0,
            errors@ == total.1,
        decreases relocs@.len() - i,
    {
        proof {
            lemma_process_split(buf@, relocs@, symbols@, i as int);
        }
        let ghost before = buf@;
        let ghost errs_before = errors@;
        let blen = buf.len();
        let reloc = &relocs[i];
        let ghost st = step(before, *reloc, symbols@);
        if reloc.rtype == RType::PCRel32 {
            match find(symbols, reloc.symbol.as_str()) {
                Some(symbol) => {
                    proof {
                        let idx = find_index(symbols@, reloc.symbol@).unwrap();
                        assert(*symbol == symbols@[idx]);
                        assert(step_ok(before.len() as int, *reloc, symbols@));
                    }
                    let end: u64 = reloc.offset + reloc.size as u64;
                    let rel32: i32 = (#[verifier::truncate] (symbol.offset as i32)) - (#[verifier::truncate] (end as i32));
                    let offs = reloc.offset;
                    if reloc.catg == RCategory::Jump {
                        let u = #[verifier::truncate] (rel32 as u32);
                        let bytes = [
                            (u & 0xff) as u8,
                            ((u >> 8u32) & 0xff) as u8,
                            ((u >> 16u32) & 0xff) as u8,
                            ((u >> 24u32) & 0xff) as u8,
                        ];
                        assert(bytes@ =~= le_i32(rel32));
                        assert(rel32 == rel32_of(*symbol, *reloc) as i32);
                        assert(st.0 == write_at(before, reloc.offset as int, le_i32(rel32)));
                        assert(offs as usize as int == reloc.offset as int);
                        write_bytes(buf, offs as usize, &bytes);
                        assert(buf@ == st.0);
                    } else {
                        match &symbol.content {
                            Some(VarContent::Number(n)) => {
                                write_bytes(buf, offs as usize, n.as_slice());
                                assert(buf@ == st.0);
                            },
                            Some(VarContent::String(_)) => {
                                errors.push(RelocError::StringContent);
                                assert(errors@ =~= errs_before + opt_seq(st.1));
                                break ;
                            },
                            Some(VarContent::Uninit) => {
                                errors.push(RelocError::UninitContent);
                                assert(errors@ =~= errs_before + opt_seq(st.1));
                                break ;
                            },
                            None => {
                                errors.push(RelocError::NoContent);
                            },
                        }
                    }
                },
                None => {
                    errors.push(RelocError::SymbolNotFound(reloc.symbol.clone()));
                },
            }
        } else {
            errors.push(RelocError::UnsupportedType(reloc.rtype));
        }
        proof {
            assert(buf@ == st.0);
            assert(errors@ =~= errs_before + opt_seq(st.1));
            let rest = process(buf@, relocs@.subrange(i + 1, relocs@.len() as int), symbols@);
            assert(errs_before + (opt_seq(st.1) + rest.1) =~= errors@ + rest.1);
        }
        i = i + 1;
    }
    if errors.len() == 0 {
        None
    } else {
        Some(errors)
    }
}

/// A jump relocation to a known symbol that stays within the buffer writes the distance from
/// the end of the instruction to the symbol: reading the four bytes at the relocation's
/// offset back little endian gives it, every other byte is left as it was, and no error
/// comes of it.
pub proof fn lemma_jump_relocation_readback(buf: Seq<u8>, r: Relocation, symbols: Seq<Symbol>)
    requires
        r.rtype == RType::PCRel32,
        r.catg == RCategory::Jump,
        find_index(symbols, r.symbol@) is Some,
        step_ok(buf.len() as int, r, symbols),
    ensures
        ({
            let (b1, e, stop) = step(buf, r, symbols);
            let sym = symbols[find_index(symbols, r.symbol@).unwrap()];
            &&& read_le32(b1, r.offset as int) == rel32_of(sym, r) as i32 as u32
            &&& forall|k: int|
                0 <= k < buf.len() && !(r.offset <= k < r.offset + 4) ==> #[trigger] b1[k]
                    == buf[k]
            &&& b1.len() == buf.len()
            &&& e is None
            &&& !stop
        }),
{
    let sym = symbols[find_index(symbols, r.symbol@).unwrap()];
    let v = rel32_of(sym, r) as i32;
    let b1 = step(buf, r, symbols).0;
    lemma_le32_readback(v as u32);
    assert(b1.subrange(r.offset as int, r.offset + 4) =~= le32(v as u32));
    assert(read_le32(b1, r.offset as int) == read_le32(le32(v as u32), 0));
}

} // verus!
