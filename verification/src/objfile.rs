use vstd::prelude::*;
use vstd::utf8::encode_utf8;

use crate::elf32::{asciiz, collect_asciiz};
use crate::le::push_all;
use crate::reloc::Relocation;
use crate::symbol::{spec_stype_code, spec_visibility_code, Symbol, Visibility};
use crate::text::str_eq;

verus! {

/// `.text` and its terminating zero.
pub open spec fn text_name() -> Seq<u8> {
    seq![0x2eu8, 0x74, 0x65, 0x78, 0x74, 0]
}

/// `.symtab` and its terminating zero.
pub open spec fn symtab_name() -> Seq<u8> {
    seq![0x2eu8, 0x73, 0x79, 0x6d, 0x74, 0x61, 0x62, 0]
}

/// `.shstrtab` and its terminating zero.
pub open spec fn shstrtab_name() -> Seq<u8> {
    seq![0x2eu8, 0x73, 0x68, 0x73, 0x74, 0x72, 0x74, 0x61, 0x62, 0]
}

/// `.strtab` and its terminating zero.
pub open spec fn strtab_name() -> Seq<u8> {
    seq![0x2eu8, 0x73, 0x74, 0x72, 0x74, 0x61, 0x62, 0]
}

/// `.rel.text` and its terminating zero.
pub open spec fn rel_text_name() -> Seq<u8> {
    seq![0x2eu8, 0x72, 0x65, 0x6c, 0x2e, 0x74, 0x65, 0x78, 0x74, 0]
}

/// `.rela.text` and its terminating zero.
pub open spec fn rela_text_name() -> Seq<u8> {
    seq![0x2eu8, 0x72, 0x65, 0x6c, 0x61, 0x2e, 0x74, 0x65, 0x78, 0x74, 0]
}

/// `.data` and its terminating zero.
pub open spec fn data_name() -> Seq<u8> {
    seq![0x2eu8, 0x64, 0x61, 0x74, 0x61, 0]
}

/// `.rodata` and its terminating zero.
pub open spec fn rodata_name() -> Seq<u8> {
    seq![0x2eu8, 0x72, 0x6f, 0x64, 0x61, 0x74, 0x61, 0]
}

/// `.bss` and its terminating zero.
pub open spec fn bss_name() -> Seq<u8> {
    seq![0x2eu8, 0x62, 0x73, 0x73, 0]
}

/// Which of the section names above.
#[derive(Clone, Copy, Debug, PartialEq, Eq, Structural)]
pub enum SectionName {
    Text,
    Symtab,
    Shstrtab,
    Strtab,
    RelText,
    RelaText,
    Data,
    Rodata,
    Bss,
}

/// The bytes of a section name, its terminating zero included.
pub open spec fn section_name(n: SectionName) -> Seq<u8> {
    match n {
        SectionName::Text => text_name(),
        SectionName::Symtab => symtab_name(),
        SectionName::Shstrtab => shstrtab_name(),
        SectionName::Strtab => strtab_name(),
        SectionName::RelText => rel_text_name(),
        SectionName::RelaText => rela_text_name(),
        SectionName::Data => data_name(),
        SectionName::Rodata => rodata_name(),
        SectionName::Bss => bss_name(),
    }
}

/// Appends a section name and its terminating zero.
pub fn push_section_name(v: &mut Vec<u8>, n: SectionName)
    ensures
        final(v)@ == old(v)@ + section_name(n),
{
    match n {
        SectionName::Text => {
            let a: [u8; 6] = [0x2e, 0x74, 0x65, 0x78, 0x74, 0];
            push_all(v, &a);
            assert(a@ =~= text_name());
        },
        SectionName::Symtab => {
            let a: [u8; 8] = [0x2e, 0x73, 0x79, 0x6d, 0x74, 0x61, 0x62, 0];
            push_all(v, &a);
            assert(a@ =~= symtab_name());
        },
        SectionName::Shstrtab => {
            let a: [u8; 10] = [0x2e, 0x73, 0x68, 0x73, 0x74, 0x72, 0x74, 0x61, 0x62, 0];
            push_all(v, &a);
            assert(a@ =~= shstrtab_name());
        },
        SectionName::Strtab => {
            let a: [u8; 8] = [0x2e, 0x73, 0x74, 0x72, 0x74, 0x61, 0x62, 0];
            push_all(v, &a);
            assert(a@ =~= strtab_name());
        },
        SectionName::RelText => {
            let a: [u8; 10] = [0x2e, 0x72, 0x65, 0x6c, 0x2e, 0x74, 0x65, 0x78, 0x74, 0];
            push_all(v, &a);
            assert(a@ =~= rel_text_name());
        },
        SectionName::RelaText => {
            let a: [u8; 11] = [0x2e, 0x72, 0x65, 0x6c, 0x61, 0x2e, 0x74, 0x65, 0x78, 0x74, 0];
            push_all(v, &a);
            assert(a@ =~= rela_text_name());
        },
        SectionName::Data => {
            let a: [u8; 6] = [0x2e, 0x64, 0x61, 0x74, 0x61, 0];
            push_all(v, &a);
            assert(a@ =~= data_name());
        },
        SectionName::Rodata => {
            let a: [u8; 8] = [0x2e, 0x72, 0x6f, 0x64, 0x61, 0x74, 0x61, 0];
            push_all(v, &a);
            assert(a@ =~= rodata_name());
        },
        SectionName::Bss => {
            let a: [u8; 5] = [0x2e, 0x62, 0x73, 0x73, 0];
            push_all(v, &a);
            assert(a@ =~= bss_name());
        },
    }
}

/// A name as it stands in a string table: its UTF-8 bytes, then a zero.
pub open spec fn name_entry(name: Seq<char>) -> Seq<u8> {
    encode_utf8(name).push(0)
}

/// Appends a name and its terminating zero to a string table.
pub fn push_name(v: &mut Vec<u8>, name: &str)
    ensures
        final(v)@ == old(v)@ + name_entry(name@),
{
    push_all(v, name.as_bytes());
    v.push(0);
    assert(v@ =~= old(v)@ + name_entry(name@));
}

/// The symbols of `s` with binding `vis`, in their order.
pub open spec fn bound_as(s: Seq<Symbol>, vis: Visibility) -> Seq<Symbol>
    decreases s.len(),
{
    if s.len() == 0 {
        Seq::empty()
    } else if s.last().visibility == vis {
        bound_as(s.drop_last(), vis).push(s.last())
    } else {
        bound_as(s.drop_last(), vis)
    }
}

/// The string-table entries of the names of `s`, in order.
pub open spec fn names_blob(s: Seq<Symbol>) -> Seq<u8>
    decreases s.len(),
{
    if s.len() == 0 {
        Seq::empty()
    } else {
        names_blob(s.drop_last()) + name_entry(s.last().name@)
    }
}

/// The binding (high four bits) and type (low four bits) of a symbol as one byte.
pub open spec fn sym_info(s: Symbol) -> u8 {
    (spec_visibility_code(s.visibility) * 16 + spec_stype_code(s.stype)) as u8
}

/// The binding and type byte of a symbol.
pub fn info_byte(s: &Symbol) -> (r: u8)
    ensures
        r == sym_info(*s),
{
    s.visibility.code() * 16 + s.stype.code()
}

/// The size of a symbol, 0 when it has none.
pub open spec fn size_or_zero(size: Option<u32>) -> u32 {
    match size {
        Some(z) => z,
        None => 0,
    }
}

/// The name whose entry starts at `off` in the string table `tab`; `None` past its end.
pub open spec fn name_at(tab: Seq<u8>, off: int) -> Option<Seq<char>> {
    if off <= tab.len() {
        Some(asciiz(tab.subrange(off, tab.len() as int)))
    } else {
        None
    }
}

/// The first position from `k` on whose name offset in `offs` names `name` in `tab`.
pub open spec fn first_named(tab: Seq<u8>, offs: Seq<u32>, name: Seq<char>, k: int) -> Option<
    int,
>
    decreases offs.len() - k,
{
    if k < 0 || k >= offs.len() {
        None
    } else if name_at(tab, offs[k] as int) == Some(name) {
        Some(k)
    } else {
        first_named(tab, offs, name, k + 1)
    }
}

/// The position of the first name offset in `offs` that names `name` in `tab`.
pub fn find_named(tab: &[u8], offs: &[u32], name: &str) -> (r: Option<usize>)
    ensures
        first_named(tab@, offs@, name@, 0) == match r {
            Some(k) => Some(k as int),
            None => None::<int>,
        },
{
    let mut k: usize = 0;
    while k < offs.len()
        invariant
            k <= offs@.len(),
            first_named(tab@, offs@, name@, 0) == first_named(tab@, offs@, name@, k as int),
        decreases offs@.len() - k,
    {
        match collect_asciiz(tab, offs[k] as usize) {
            Some(s) => {
                if str_eq(s.as_str(), name) {
                    return Some(k);
                }
            },
            None => {},
        }
        k = k + 1;
    }
    None
}

/// The relocations of `r` without an addend (`with_addend` false) or with one (true), in
/// their order.
pub open spec fn relocs_with_addend(r: Seq<Relocation>, with_addend: bool) -> Seq<Relocation>
    decreases r.len(),
{
    if r.len() == 0 {
        Seq::empty()
    } else if (r.last().addend != 0) == with_addend {
        relocs_with_addend(r.drop_last(), with_addend).push(r.last())
    } else {
        relocs_with_addend(r.drop_last(), with_addend)
    }
}

/// Parts relocations into those without an addend and those with one, each in their order.
pub fn split_relocs(relocs: Vec<Relocation>) -> (r: (Vec<Relocation>, Vec<Relocation>))
    ensures
        r.0@ == relocs_with_addend(relocs@, false),
        r.1@ == relocs_with_addend(relocs@, true),
{
    let ghost all = relocs@;
    let n: usize = relocs.len();
    let mut rest = relocs;
    let mut rels: Vec<Relocation> = Vec::new();
    let mut relas: Vec<Relocation> = Vec::new();
    let mut i: usize = 0;
    while rest.len() > 0
        invariant
            i <= all.len(),
            all.len() == n,
            rest@ == all.subrange(i as int, all.len() as int),
            rels@ == relocs_with_addend(all.take(i as int), false),
            relas@ == relocs_with_addend(all.take(i as int), true),
        decreases rest@.len(),
    {
        let r = rest.remove(0);
        proof {
            assert(all.take(i + 1).drop_last() =~= all.take(i as int));
            assert(all.take(i + 1).last() == r);
        }
        if r.addend == 0 {
            rels.push(r);
        } else {
            relas.push(r);
        }
        i = i + 1;
        assert(rest@ =~= all.subrange(i as int, all.len() as int));
    }
    assert(all.take(all.len() as int) =~= all);
    (rels, relas)
}

/// The identification bytes of a little-endian, current-version System V ELF object of
/// class `class` (1 for 32-bit objects, 2 for 64-bit ones).
pub open spec fn elf_ident(class: u8) -> [u8; 16] {
    [0x7fu8, 0x45, 0x4c, 0x46, class, 1, 1, 0, 0, 0, 0, 0, 0, 0, 0, 0]
}

/// The identification bytes of an ELF object of class `class`.
pub fn make_ident(class: u8) -> (r: [u8; 16])
    ensures
        r == elf_ident(class),
{
    let a: [u8; 16] = [0x7f, 0x45, 0x4c, 0x46, class, 1, 1, 0, 0, 0, 0, 0, 0, 0, 0, 0];
    assert(a@ =~= elf_ident(class)@);
    a
}

/// The front of a symbol string table: a zero, the output path, and `.text`.
pub open spec fn strtab_head(outpath: Seq<char>) -> Seq<u8> {
    seq![0u8] + name_entry(outpath) + text_name()
}

/// The symbol string table of an object: its front, then the names of the local symbols,
/// then those of the global ones.
pub open spec fn symbol_strtab(symbols: Seq<Symbol>, outpath: Seq<char>) -> Seq<u8> {
    strtab_head(outpath) + names_blob(bound_as(symbols, Visibility::Local)) + names_blob(
        bound_as(symbols, Visibility::Global),
    )
}

/// `bytes` when `present`, else nothing.
pub open spec fn present_if(present: bool, bytes: Seq<u8>) -> Seq<u8> {
    if present {
        bytes
    } else {
        Seq::empty()
    }
}

/// The section-name string table: a zero, `.rel.text` and `.rela.text` where those sections
/// exist, then `.text`, `.symtab`, `.shstrtab` and `.strtab`.
pub open spec fn section_strtab(has_rel: bool, has_rela: bool) -> Seq<u8> {
    seq![0u8] + present_if(has_rel, rel_text_name()) + present_if(has_rela, rela_text_name())
        + text_name() + symtab_name() + shstrtab_name() + strtab_name()
}

} // verus!
