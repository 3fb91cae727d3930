use vstd::prelude::*;

use crate::le::{
    le16, le32, le64, le_i64, lemma_le16_readback, lemma_le32_readback, lemma_le64_readback,
    lemma_read_le16_sub, lemma_read_le64_sub, push_all, push_le16, push_le32, push_le64,
    push_le_i64, read_le16, read_le32, read_le64,
};
use crate::objfile::{
    bound_as, elf_ident, find_named, first_named, info_byte, make_ident, name_entry, names_blob,
    push_name, push_section_name, section_strtab, size_or_zero, split_relocs, strtab_head,
    relocs_with_addend, sym_info, symbol_strtab, SectionName,
};
use crate::reloc::{spec_rtype_code, Relocation};
use crate::symbol::{spec_stype_code, Symbol, SymbolType, Visibility};

verus! {

pub const SHF_ALLOC: u64 = 0x2;
pub const SHF_EXECINSTR: u64 = 0x4;

/// The ELF64 file header.
#[derive(Clone, Copy, Debug)]
pub struct Elf64Ehdr {
    pub ident: [u8; 16],
    pub etype: u16,
    pub machine: u16,
    pub version: u32,
    pub entry: u64,
    pub phoff: u64,
    pub shoff: u64,
    pub flags: u32,
    pub ehsize: u16,
    pub phentsize: u16,
    pub phnum: u16,
    pub shentsize: u16,
    pub shnum: u16,
    pub shstrndx: u16,
}

/// An ELF64 section header.
#[derive(Clone, Copy, Debug)]
pub struct Elf64Shdr {
    pub name: u32,
    pub etype: u32,
    pub flags: u64,
    pub addr: u64,
    pub offset: u64,
    pub size: u64,
    pub link: u32,
    pub info: u32,
    pub addralign: u64,
    pub entsize: u64,
}

/// An ELF64 symbol-table entry.
#[derive(Clone, Copy, Debug)]
pub struct Elf64Sym {
    pub name: u32,
    pub info: u8,
    pub other: u8,
    pub shndx: u16,
    pub value: u64,
    pub size: u64,
}

/// An ELF64 relocation without addend.
#[derive(Clone, Copy, Debug)]
pub struct Elf64Rel {
    pub offset: u64,
    pub info: u64,
}

/// An ELF64 relocation with addend.
#[derive(Clone, Copy, Debug)]
pub struct Elf64Rela {
    pub offset: u64,
    pub info: u64,
    pub addend: i64,
}

/// The file layout of an ELF64 header: the ident bytes, then each field little endian.
pub open spec fn elf64_ehdr_bytes(h: Elf64Ehdr) -> Seq<u8> {
    h.ident@ + le16(h.etype) + le16(h.machine) + le32(h.version) + le64(h.entry) + le64(h.phoff)
        + le64(h.shoff) + le32(h.flags) + le16(h.ehsize) + le16(h.phentsize) + le16(h.phnum) + le16(
        h.shentsize,
    ) + le16(h.shnum) + le16(h.shstrndx)
}

/// The file layout of an ELF64 section header: each field little endian, in order.
pub open spec fn elf64_shdr_bytes(h: Elf64Shdr) -> Seq<u8> {
    le32(h.name) + le32(h.etype) + le64(h.flags) + le64(h.addr) + le64(h.offset) + le64(h.size)
        + le32(h.link) + le32(h.info) + le64(h.addralign) + le64(h.entsize)
}

/// The file layout of an ELF64 symbol: each field little endian, in order.
pub open spec fn elf64_sym_bytes(s: Elf64Sym) -> Seq<u8> {
    le32(s.name) + seq![s.info] + seq![s.other] + le16(s.shndx) + le64(s.value) + le64(s.size)
}

/// The file layout of an ELF64 relocation without addend.
pub open spec fn elf64_rel_bytes(r: Elf64Rel) -> Seq<u8> {
    le64(r.offset) + le64(r.info)
}

/// The file layout of an ELF64 relocation with addend.
pub open spec fn elf64_rela_bytes(r: Elf64Rela) -> Seq<u8> {
    le64(r.offset) + le64(r.info) + le_i64(r.addend)
}

impl Elf64Shdr {
    /// The section header as it stands in the file.
    pub fn bytes(&self) -> (r: Vec<u8>)
        ensures
            r@ == elf64_shdr_bytes(*self),
            r@.len() == 64,
    {
        let mut bytes: Vec<u8> = Vec::new();
        push_le32(&mut bytes, self.name);
        push_le32(&mut bytes, self.etype);
        push_le64(&mut bytes, self.flags);
        push_le64(&mut bytes, self.addr);
        push_le64(&mut bytes, self.offset);
        push_le64(&mut bytes, self.size);
        push_le32(&mut bytes, self.link);
        push_le32(&mut bytes, self.info);
        push_le64(&mut bytes, self.addralign);
        push_le64(&mut bytes, self.entsize);
        assert(bytes@ =~= elf64_shdr_bytes(*self));
        bytes
    }
}

impl Elf64Ehdr {
    /// The file header as it stands in the file.
    pub fn bytes(&self) -> (r: Vec<u8>)
        ensures
            r@ == elf64_ehdr_bytes(*self),
            r@.len() == 64,
    {
        let mut bytes: Vec<u8> = Vec::new();
        push_all(&mut bytes, &self.ident);
        push_le16(&mut bytes, self.etype);
        push_le16(&mut bytes, self.machine);
        push_le32(&mut bytes, self.version);
        push_le64(&mut bytes, self.entry);
        push_le64(&mut bytes, self.phoff);
        push_le64(&mut bytes, self.shoff);
        push_le32(&mut bytes, self.flags);
        push_le16(&mut bytes, self.ehsize);
        push_le16(&mut bytes, self.phentsize);
        push_le16(&mut bytes, self.phnum);
        push_le16(&mut bytes, self.shentsize);
        push_le16(&mut bytes, self.shnum);
        push_le16(&mut bytes, self.shstrndx);
        assert(bytes@ =~= elf64_ehdr_bytes(*self));
        bytes
    }
}

impl Elf64Sym {
    /// The symbol as it stands in the file.
    pub fn bytes(&self) -> (r: Vec<u8>)
        ensures
            r@ == elf64_sym_bytes(*self),
            r@.len() == 24,
    {
        let mut bytes: Vec<u8> = Vec::new();
        push_le32(&mut bytes, self.name);
        bytes.push(self.info);
        bytes.push(self.other);
        push_le16(&mut bytes, self.shndx);
        push_le64(&mut bytes, self.value);
        push_le64(&mut bytes, self.size);
        assert(bytes@ =~= elf64_sym_bytes(*self));
        bytes
    }
}

impl Elf64Rel {
    /// The relocation as it stands in the file.
    pub fn bytes(&self) -> (r: Vec<u8>)
        ensures
            r@ == elf64_rel_bytes(*self),
            r@.len() == 16,
    {
        let mut bytes: Vec<u8> = Vec::new();
        push_le64(&mut bytes, self.offset);
        push_le64(&mut bytes, self.info);
        assert(bytes@ =~= elf64_rel_bytes(*self));
        bytes
    }
}

impl Elf64Rela {
    /// The relocation as it stands in the file.
    pub fn bytes(&self) -> (r: Vec<u8>)
        ensures
            r@ == elf64_rela_bytes(*self),
            r@.len() == 24,
    {
        let mut bytes: Vec<u8> = Vec::new();
        push_le64(&mut bytes, self.offset);
        push_le64(&mut bytes, self.info);
        push_le_i64(&mut bytes, self.addend);
        assert(bytes@ =~= elf64_rela_bytes(*self));
        bytes
    }
}

/// Each field of a section header is read back little endian at its offset in its bytes.
pub proof fn lemma_elf64_shdr_readback(h: Elf64Shdr)
    ensures
        ({
            let b = elf64_shdr_bytes(h);
            &&& read_le32(b, 0) == h.name
            &&& read_le32(b, 4) == h.etype
            &&& read_le64(b, 8) == h.flags
            &&& read_le64(b, 16) == h.addr
            &&& read_le64(b, 24) == h.offset
            &&& read_le64(b, 32) == h.size
            &&& read_le32(b, 40) == h.link
            &&& read_le32(b, 44) == h.info
            &&& read_le64(b, 48) == h.addralign
            &&& read_le64(b, 56) == h.entsize
        }),
{
    let b = elf64_shdr_bytes(h);
    lemma_le32_readback(h.name);
    lemma_le32_readback(h.etype);
    lemma_le64_readback(h.flags);
    lemma_le64_readback(h.addr);
    lemma_le64_readback(h.offset);
    lemma_le64_readback(h.size);
    lemma_le32_readback(h.link);
    lemma_le32_readback(h.info);
    lemma_le64_readback(h.addralign);
    lemma_le64_readback(h.entsize);
    assert(read_le32(b, 0) == read_le32(le32(h.name), 0));
    assert(read_le32(b, 4) == read_le32(le32(h.etype), 0));
    assert(read_le64(b, 8) == read_le64(le64(h.flags), 0));
    assert(read_le64(b, 16) == read_le64(le64(h.addr), 0));
    assert(read_le64(b, 24) == read_le64(le64(h.offset), 0));
    assert(read_le64(b, 32) == read_le64(le64(h.size), 0));
    assert(read_le32(b, 40) == read_le32(le32(h.link), 0));
    assert(read_le32(b, 44) == read_le32(le32(h.info), 0));
    assert(read_le64(b, 48) == read_le64(le64(h.addralign), 0));
    assert(read_le64(b, 56) == read_le64(le64(h.entsize), 0));
}

/// Each field of a file header after the ident bytes is read back little endian at its offset.
pub proof fn lemma_elf64_ehdr_readback(h: Elf64Ehdr)
    ensures
        ({
            let b = elf64_ehdr_bytes(h);
            &&& b.len() == 64
            &&& b.subrange(0, 16) == h.ident@
            &&& read_le16(b, 16) == h.etype
            &&& read_le16(b, 18) == h.machine
            &&& read_le32(b, 20) == h.version
            &&& read_le64(b, 24) == h.entry
            &&& read_le64(b, 32) == h.phoff
            &&& read_le64(b, 40) == h.shoff
            &&& read_le32(b, 48) == h.flags
            &&& read_le16(b, 52) == h.ehsize
            &&& read_le16(b, 54) == h.phentsize
            &&& read_le16(b, 56) == h.phnum
            &&& read_le16(b, 58) == h.shentsize
            &&& read_le16(b, 60) == h.shnum
            &&& read_le16(b, 62) == h.shstrndx
        }),
{
    let b = elf64_ehdr_bytes(h);
    lemma_le16_readback(h.etype);
    lemma_le16_readback(h.machine);
    lemma_le32_readback(h.version);
    lemma_le64_readback(h.entry);
    lemma_le64_readback(h.phoff);
    lemma_le64_readback(h.shoff);
    lemma_le32_readback(h.flags);
    lemma_le16_readback(h.ehsize);
    lemma_le16_readback(h.phentsize);
    lemma_le16_readback(h.phnum);
    lemma_le16_readback(h.shentsize);
    lemma_le16_readback(h.shnum);
    lemma_le16_readback(h.shstrndx);
    assert(b.subrange(0, 16) =~= h.ident@);
    assert(read_le16(b, 16) == read_le16(le16(h.etype), 0));
    assert(read_le16(b, 18) == read_le16(le16(h.machine), 0));
    assert(read_le32(b, 20) == read_le32(le32(h.version), 0));
    assert(read_le64(b, 24) == read_le64(le64(h.entry), 0));
    assert(read_le64(b, 32) == read_le64(le64(h.phoff), 0));
    assert(read_le64(b, 40) == read_le64(le64(h.shoff), 0));
    assert(read_le32(b, 48) == read_le32(le32(h.flags), 0));
    assert(read_le16(b, 52) == read_le16(le16(h.ehsize), 0));
    assert(read_le16(b, 54) == read_le16(le16(h.phentsize), 0));
    assert(read_le16(b, 56) == read_le16(le16(h.phnum), 0));
    assert(read_le16(b, 58) == read_le16(le16(h.shentsize), 0));
    assert(read_le16(b, 60) == read_le16(le16(h.shnum), 0));
    assert(read_le16(b, 62) == read_le16(le16(h.shstrndx), 0));
}

/// Each field of a symbol is read back little endian at its offset in its bytes.
pub proof fn lemma_elf64_sym_readback(s: Elf64Sym)
    ensures
        ({
            let b = elf64_sym_bytes(s);
            &&& read_le32(b, 0) == s.name
            &&& b[4] == s.info
            &&& b[5] == s.other
            &&& read_le16(b, 6) == s.shndx
            &&& read_le64(b, 8) == s.value
            &&& read_le64(b, 16) == s.size
        }),
{
    let b = elf64_sym_bytes(s);
    lemma_le32_readback(s.name);
    lemma_le16_readback(s.shndx);
    lemma_le64_readback(s.value);
    lemma_le64_readback(s.size);
    assert(read_le32(b, 0) == read_le32(le32(s.name), 0));
    assert(read_le16(b, 6) == read_le16(le16(s.shndx), 0));
    assert(read_le64(b, 8) == read_le64(le64(s.value), 0));
    assert(read_le64(b, 16) == read_le64(le64(s.size), 0));
}

/// The symbol-table entry of `s`, its name at `name_off` in the string table.
pub open spec fn sym64_entry(s: Symbol, name_off: int) -> Elf64Sym {
    Elf64Sym {
        name: name_off as u32,
        info: sym_info(s),
        other: 0,
        shndx: s.sindex,
        value: s.offset as u64,
        size: size_or_zero(s.size) as u64,
    }
}

/// The entries of `s`, their names laid out in the string table from `base` on.
pub open spec fn syms64(s: Seq<Symbol>, base: int) -> Seq<Elf64Sym>
    decreases s.len(),
{
    if s.len() == 0 {
        Seq::empty()
    } else {
        syms64(s.drop_last(), base).push(
            sym64_entry(s.last(), base + names_blob(s.drop_last()).len()),
        )
    }
}

/// An entry of nothing but the given name offset, binding and type byte, and section index.
pub open spec fn plain_sym64(name: int, info: u8, shndx: u16) -> Elf64Sym {
    Elf64Sym { name: name as u32, info, other: 0, shndx, value: 0, size: 0 }
}

/// The symbol table of an object: the null symbol, the file symbol, the `.text` section
/// symbol, then the local symbols and then the global ones, each in their order.
pub open spec fn symtab64(symbols: Seq<Symbol>, outpath: Seq<char>) -> Seq<Elf64Sym> {
    let head = strtab_head(outpath).len() as int;
    let locals = bound_as(symbols, Visibility::Local);
    let globals = bound_as(symbols, Visibility::Global);
    seq![
        plain_sym64(0, 0, 0),
        plain_sym64(1, spec_stype_code(SymbolType::File), 0xFFF1),
        plain_sym64((1 + name_entry(outpath).len()) as int, spec_stype_code(SymbolType::Section), 1),
    ] + syms64(locals, head) + syms64(globals, head + names_blob(locals).len())
}

/// The name offsets of the entries of a symbol table.
pub open spec fn names64(t: Seq<Elf64Sym>) -> Seq<u32> {
    Seq::new(t.len(), |i: int| t[i].name)
}

/// The `r_info` of a relocation: its type, and the index of its symbol in the high half
/// where one was found.
pub open spec fn info64(r: Relocation, idx: Option<int>) -> u64 {
    match idx {
        Some(k) => (spec_rtype_code(r.rtype) + ((k as u64) << 32u64)) as u64,
        None => spec_rtype_code(r.rtype) as u64,
    }
}

/// The relocation entries without addend of `rs`, each pointing at the first entry of the
/// symbol table (name offsets `offs` in `tab`) with the relocation's symbol name.
pub open spec fn rels64(rs: Seq<Relocation>, tab: Seq<u8>, offs: Seq<u32>) -> Seq<Elf64Rel> {
    Seq::new(
        rs.len(),
        |i: int|
            Elf64Rel {
                offset: rs[i].offset,
                info: info64(rs[i], first_named(tab, offs, rs[i].symbol@, 0)),
            },
    )
}

/// The relocation entries with addend of `rs`, found as in `rels64`.
pub open spec fn relas64(rs: Seq<Relocation>, tab: Seq<u8>, offs: Seq<u32>) -> Seq<Elf64Rela> {
    Seq::new(
        rs.len(),
        |i: int|
            Elf64Rela {
                offset: rs[i].offset,
                info: info64(rs[i], first_named(tab, offs, rs[i].symbol@, 0)),
                addend: rs[i].addend as i64,
            },
    )
}

/// The bytes of a sequence of symbols, one after another.
pub open spec fn flat_syms64(s: Seq<Elf64Sym>) -> Seq<u8>
    decreases s.len(),
{
    if s.len() == 0 {
        Seq::empty()
    } else {
        flat_syms64(s.drop_last()) + elf64_sym_bytes(s.last())
    }
}

/// The bytes of a sequence of relocations without addend, one after another.
pub open spec fn flat_rels64(s: Seq<Elf64Rel>) -> Seq<u8>
    decreases s.len(),
{
    if s.len() == 0 {
        Seq::empty()
    } else {
        flat_rels64(s.drop_last()) + elf64_rel_bytes(s.last())
    }
}

/// The bytes of a sequence of relocations with addend, one after another.
pub open spec fn flat_relas64(s: Seq<Elf64Rela>) -> Seq<u8>
    decreases s.len(),
{
    if s.len() == 0 {
        Seq::empty()
    } else {
        flat_relas64(s.drop_last()) + elf64_rela_bytes(s.last())
    }
}

/// A section header with no address.
pub open spec fn shdr64(
    name: int,
    etype: u32,
    flags: u64,
    offset: int,
    size: int,
    link: u32,
    info: u32,
    addralign: u64,
    entsize: u64,
) -> Elf64Shdr {
    Elf64Shdr {
        name: name as u32,
        etype,
        flags,
        addr: 0,
        offset: offset as u64,
        size: size as u64,
        link,
        info,
        addralign,
        entsize,
    }
}

/// The bytes of a sequence of section headers, one after another.
pub open spec fn flat_shdrs64(s: Seq<Elf64Shdr>) -> Seq<u8>
    decreases s.len(),
{
    if s.len() == 0 {
        Seq::empty()
    } else {
        flat_shdrs64(s.drop_last()) + elf64_shdr_bytes(s.last())
    }
}

/// The number of sections of an object with `nrel` relocations without addend and `nrela`
/// with one.
pub open spec fn section_count(nrel: int, nrela: int) -> int {
    5 + (if nrel > 0 { 1int } else { 0 }) + (if nrela > 0 { 1int } else { 0 })
}

/// The file header of a 64-bit object with `code_len` bytes of code and `shnum` sections.
pub open spec fn elf64_header(code_len: int, shnum: int) -> Elf64Ehdr {
    Elf64Ehdr {
        ident: elf_ident(2),
        etype: 1,
        machine: 62,
        version: 1,
        entry: 0,
        phoff: 0,
        shoff: (64 + code_len) as u64,
        flags: 0,
        ehsize: 64,
        phentsize: 0,
        phnum: 0,
        shentsize: 64,
        shnum: shnum as u16,
        shstrndx: 3,
    }
}

/// The section headers of a 64-bit object with `code_len` bytes of code, `nsyms` symbols of
/// which `nlocal` are local (the three leading ones included), a symbol string table of
/// `strtab_len` bytes and `nrel` relocations without addend and `nrela` with one: null,
/// `.text`, `.symtab`, `.shstrtab`, `.strtab`, then `.rel.text` and `.rela.text` where they
/// have entries. The sections' contents follow the headers in that order.
pub open spec fn elf64_shdrs(
    code_len: int,
    nsyms: int,
    nlocal: int,
    strtab_len: int,
    nrel: int,
    nrela: int,
) -> Seq<Elf64Shdr> {
    let has_rel = nrel > 0;
    let has_rela = nrela > 0;
    let rela_name: int = 1 + (if has_rel { 10int } else { 0 });
    let text_name: int = rela_name + (if has_rela { 11int } else { 0 });
    let shstr_len = section_strtab(has_rel, has_rela).len() as int;
    let symoff = 64 + code_len + 64 * section_count(nrel, nrela);
    let shstroff = symoff + 24 * nsyms;
    let stroff = shstroff + shstr_len;
    let reloff = stroff + strtab_len;
    let relaoff = reloff + 16 * nrel;
    seq![
        shdr64(0, 0, 0, 0, 0, 0, 0, 0, 0),
        shdr64(text_name, 1, 6, 64, code_len, 0, 0, 16, 0),
        shdr64(text_name + 6, 2, 0, symoff, 24 * nsyms, 4, nlocal as u32, 0, 24),
        shdr64(text_name + 14, 3, 0, shstroff, shstr_len, 0, 0, 1, 0),
        shdr64(text_name + 24, 3, 0, stroff, strtab_len, 0, 0, 0, 0),
    ] + (if has_rel {
        seq![shdr64(1, 9, 0, reloff, 16 * nrel, 2, 1, 0, 16)]
    } else {
        Seq::empty()
    }) + (if has_rela {
        seq![shdr64(rela_name, 4, 0, relaoff, 24 * nrela, 2, 1, 0, 24)]
    } else {
        Seq::empty()
    })
}

/// A relocatable x86-64 ELF object holding `code` as `.text`, with `symbols` and `relocs`:
/// the file header; the code; the section headers; the symbol table; the section-name and
/// symbol string tables; the relocation entries without addend, then those with one.
#[verifier::opaque]
pub open spec fn elf64_object(
    code: Seq<u8>,
    relocs: Seq<Relocation>,
    symbols: Seq<Symbol>,
    outpath: Seq<char>,
) -> Seq<u8> {
    let rels = relocs_with_addend(relocs, false);
    let relas = relocs_with_addend(relocs, true);
    let table = symtab64(symbols, outpath);
    let strtab = symbol_strtab(symbols, outpath);
    let nlocal = 3 + bound_as(symbols, Visibility::Local).len() as int;
    elf64_ehdr_bytes(
        elf64_header(code.len() as int, section_count(rels.len() as int, relas.len() as int)),
    ) + code + flat_shdrs64(
        elf64_shdrs(
            code.len() as int,
            table.len() as int,
            nlocal,
            strtab.len() as int,
            rels.len() as int,
            relas.len() as int,
        ),
    ) + flat_syms64(table) + section_strtab(rels.len() > 0, relas.len() > 0) + strtab
        + flat_rels64(rels64(rels, strtab, names64(table))) + flat_relas64(
        relas64(relas, strtab, names64(table)),
    )
}

/// Appends the entries of the symbols of `symbols` bound as `vis`, and their names.
fn append_syms64(
    symbols: &[Symbol],
    vis: Visibility,
    table: &mut Vec<Elf64Sym>,
    strtab: &mut Vec<u8>,
)
    ensures
        final(table)@ == old(table)@ + syms64(bound_as(symbols@, vis), old(strtab)@.len() as int),
        final(strtab)@ == old(strtab)@ + names_blob(bound_as(symbols@, vis)),
{
    let ghost base = old(strtab)@.len() as int;
    let mut i: usize = 0;
    while i < symbols.len()
        invariant
            i <= symbols@.len(),
            base == old(strtab)@.len(),
            table@ == old(table)@ + syms64(bound_as(symbols@.take(i as int), vis), base),
            strtab@ == old(strtab)@ + names_blob(bound_as(symbols@.take(i as int), vis)),
        decreases symbols@.len() - i,
    {
        let s = &symbols[i];
        let ghost prefix = bound_as(symbols@.take(i as int), vis);
        proof {
            assert(symbols@.take(i + 1).drop_last() =~= symbols@.take(i as int));
            assert(symbols@.take(i + 1).last() == *s);
        }
        if s.visibility == vis {
            let e = Elf64Sym {
                name: strtab.len() as u32,
                info: info_byte(s),
                other: 0,
                shndx: s.sindex,
                value: s.offset as u64,
                size: match s.size {
                    Some(z) => z,
                    None => 0,
                } as u64,
            };
            assert(e == sym64_entry(*s, base + names_blob(prefix).len()));
            assert(prefix.push(*s).drop_last() =~= prefix);
            table.push(e);
            push_name(strtab, s.name.as_str());
            assert(bound_as(symbols@.take(i + 1), vis) == prefix.push(*s));
            assert(table@ =~= old(table)@ + syms64(prefix.push(*s), base));
            assert(strtab@ =~= old(strtab)@ + names_blob(prefix.push(*s)));
        } else {
            assert(bound_as(symbols@.take(i + 1), vis) == prefix);
        }
        i = i + 1;
    }
    assert(symbols@.take(symbols@.len() as int) =~= symbols@);
}

/// A sequence of symbols has one entry each.
proof fn lemma_syms64_len(s: Seq<Symbol>, base: int)
    ensures
        syms64(s, base).len() == s.len(),
    decreases s.len(),
{
    if s.len() > 0 {
        lemma_syms64_len(s.drop_last(), base);
    }
}

/// The symbol table of an object, its string table, and the number of its local entries.
fn build_symtab64(symbols: &[Symbol], outpath: &str) -> (r: (Vec<Elf64Sym>, Vec<u8>, usize))
    ensures
        r.0@ == symtab64(symbols@, outpath@),
        r.1@ == symbol_strtab(symbols@, outpath@),
        r.2 == 3 + bound_as(symbols@, Visibility::Local).len(),
{
    let mut strtab: Vec<u8> = Vec::new();
    strtab.push(0);
    let mut table: Vec<Elf64Sym> = Vec::new();
    table.push(Elf64Sym { name: 0, info: 0, other: 0, shndx: 0, value: 0, size: 0 });
    table.push(
        Elf64Sym {
            name: strtab.len() as u32,
            info: SymbolType::File.code(),
            other: 0,
            shndx: 0xFFF1,
            value: 0,
            size: 0,
        },
    );
    push_name(&mut strtab, outpath);
    table.push(
        Elf64Sym {
            name: strtab.len() as u32,
            info: SymbolType::Section.code(),
            other: 0,
            shndx: 1,
            value: 0,
            size: 0,
        },
    );
    push_section_name(&mut strtab, SectionName::Text);
    let ghost head = strtab@;
    let ghost front = table@;
    assert(head =~= strtab_head(outpath@));
    append_syms64(symbols, Visibility::Local, &mut table, &mut strtab);
    let nlocal = table.len();
    proof {
        lemma_syms64_len(bound_as(symbols@, Visibility::Local), head.len() as int);
    }
    let ghost mid = strtab@;
    append_syms64(symbols, Visibility::Global, &mut table, &mut strtab);
    proof {
        let locals = bound_as(symbols@, Visibility::Local);
        assert(mid.len() == head.len() + names_blob(locals).len());
        assert(front =~= seq![
            plain_sym64(0, 0, 0),
            plain_sym64(1, spec_stype_code(SymbolType::File), 0xFFF1),
            plain_sym64((1 + name_entry(outpath@).len()) as int, spec_stype_code(SymbolType::Section), 1),
        ]);
        assert(table@ =~= symtab64(symbols@, outpath@));
        assert(strtab@ =~= symbol_strtab(symbols@, outpath@));
    }
    (table, strtab, nlocal)
}

/// The name offsets of the entries of a symbol table.
fn name_offsets64(table: &Vec<Elf64Sym>) -> (r: Vec<u32>)
    ensures
        r@ == names64(table@),
{
    let mut r: Vec<u32> = Vec::new();
    let mut i: usize = 0;
    while i < table.len()
        invariant
            i <= table@.len(),
            r@ == names64(table@).take(i as int),
        decreases table@.len() - i,
    {
        r.push(table[i].name);
        i = i + 1;
        assert(r@ =~= names64(table@).take(i as int));
    }
    assert(r@ =~= names64(table@));
    r
}

/// The `r_info` of a relocation whose symbol is at `idx`, where one was found.
fn reloc_info64(r: &Relocation, idx: Option<usize>) -> (info: u64)
    ensures
        info == info64(*r, match idx {
            Some(k) => Some(k as int),
            None => None,
        }),
{
    let code = r.rtype.code() as u64;
    match idx {
        Some(k) => {
            let hi = (k as u64) << 32u64;
            assert(hi <= 0xffff_ffff_0000_0000u64) by (bit_vector)
                requires
                    hi == (k as u64) << 32u64,
            ;
            code + hi
        },
        None => code,
    }
}

/// The relocation entries without addend of `rels`.
fn rel_entries64(rels: &Vec<Relocation>, strtab: &Vec<u8>, offs: &Vec<u32>) -> (r: Vec<Elf64Rel>)
    ensures
        r@ == rels64(rels@, strtab@, offs@),
{
    let mut r: Vec<Elf64Rel> = Vec::new();
    let mut i: usize = 0;
    while i < rels.len()
        invariant
            i <= rels@.len(),
            r@ == rels64(rels@, strtab@, offs@).take(i as int),
        decreases rels@.len() - i,
    {
        let idx = find_named(strtab.as_slice(), offs.as_slice(), rels[i].symbol.as_str());
        r.push(Elf64Rel { offset: rels[i].offset, info: reloc_info64(&rels[i], idx) });
        i = i + 1;
        assert(r@ =~= rels64(rels@, strtab@, offs@).take(i as int));
    }
    assert(r@ =~= rels64(rels@, strtab@, offs@));
    r
}

/// The relocation entries with addend of `relas`.
fn rela_entries64(relas: &Vec<Relocation>, strtab: &Vec<u8>, offs: &Vec<u32>) -> (r: Vec<
    Elf64Rela,
>)
    ensures
        r@ == relas64(relas@, strtab@, offs@),
{
    let mut r: Vec<Elf64Rela> = Vec::new();
    let mut i: usize = 0;
    while i < relas.len()
        invariant
            i <= relas@.len(),
            r@ == relas64(relas@, strtab@, offs@).take(i as int),
        decreases relas@.len() - i,
    {
        let idx = find_named(strtab.as_slice(), offs.as_slice(), relas[i].symbol.as_str());
        r.push(
            Elf64Rela {
                offset: relas[i].offset,
                info: reloc_info64(&relas[i], idx),
                addend: relas[i].addend as i64,
            },
        );
        i = i + 1;
        assert(r@ =~= relas64(relas@, strtab@, offs@).take(i as int));
    }
    assert(r@ =~= relas64(relas@, strtab@, offs@));
    r
}

/// The bytes of a sequence of symbols are 24 per symbol.
proof fn lemma_flat_syms64_len(s: Seq<Elf64Sym>)
    ensures
        flat_syms64(s).len() == 24 * s.len(),
    decreases s.len(),
{
    if s.len() > 0 {
        lemma_flat_syms64_len(s.drop_last());
    }
}

/// The bytes of a sequence of relocations without addend are 16 per relocation.
proof fn lemma_flat_rels64_len(s: Seq<Elf64Rel>)
    ensures
        flat_rels64(s).len() == 16 * s.len(),
    decreases s.len(),
{
    if s.len() > 0 {
        lemma_flat_rels64_len(s.drop_last());
    }
}

/// The bytes of a sequence of relocations with addend are 24 per relocation.
proof fn lemma_flat_relas64_len(s: Seq<Elf64Rela>)
    ensures
        flat_relas64(s).len() == 24 * s.len(),
    decreases s.len(),
{
    if s.len() > 0 {
        lemma_flat_relas64_len(s.drop_last());
    }
}

/// Appends the bytes of each symbol in turn.
fn push_syms64(bytes: &mut Vec<u8>, s: &Vec<Elf64Sym>)
    ensures
        final(bytes)@ == old(bytes)@ + flat_syms64(s@),
{
    let mut i: usize = 0;
    while i < s.len()
        invariant
            i <= s@.len(),
            bytes@ == old(bytes)@ + flat_syms64(s@.take(i as int)),
        decreases s@.len() - i,
    {
        let b = s[i].bytes();
        push_all(bytes, b.as_slice());
        proof {
            assert(s@.take(i + 1).drop_last() =~= s@.take(i as int));
        }
        i = i + 1;
        assert(bytes@ =~= old(bytes)@ + flat_syms64(s@.take(i as int)));
    }
    assert(s@.take(s@.len() as int) =~= s@);
}

/// Appends the bytes of each relocation without addend in turn.
fn push_rels64(bytes: &mut Vec<u8>, s: &Vec<Elf64Rel>)
    ensures
        final(bytes)@ == old(bytes)@ + flat_rels64(s@),
{
    let mut i: usize = 0;
    while i < s.len()
        invariant
            i <= s@.len(),
            bytes@ == old(bytes)@ + flat_rels64(s@.take(i as int)),
        decreases s@.len() - i,
    {
        let b = s[i].bytes();
        push_all(bytes, b.as_slice());
        proof {
            assert(s@.take(i + 1).drop_last() =~= s@.take(i as int));
        }
        i = i + 1;
        assert(bytes@ =~= old(bytes)@ + flat_rels64(s@.take(i as int)));
    }
    assert(s@.take(s@.len() as int) =~= s@);
}

/// Appends the bytes of each relocation with addend in turn.
fn push_relas64(bytes: &mut Vec<u8>, s: &Vec<Elf64Rela>)
    ensures
        final(bytes)@ == old(bytes)@ + flat_relas64(s@),
{
    let mut i: usize = 0;
    while i < s.len()
        invariant
            i <= s@.len(),
            bytes@ == old(bytes)@ + flat_relas64(s@.take(i as int)),
        decreases s@.len() - i,
    {
        let b = s[i].bytes();
        push_all(bytes, b.as_slice());
        proof {
            assert(s@.take(i + 1).drop_last() =~= s@.take(i as int));
        }
        i = i + 1;
        assert(bytes@ =~= old(bytes)@ + flat_relas64(s@.take(i as int)));
    }
    assert(s@.take(s@.len() as int) =~= s@);
}

/// The bytes of a sequence of section headers are 64 per header.
proof fn lemma_flat_shdrs64_len(s: Seq<Elf64Shdr>)
    ensures
        flat_shdrs64(s).len() == 64 * s.len(),
    decreases s.len(),
{
    if s.len() > 0 {
        lemma_flat_shdrs64_len(s.drop_last());
    }
}

/// Appends the bytes of each section header in turn.
fn push_shdrs64(bytes: &mut Vec<u8>, s: &Vec<Elf64Shdr>)
    ensures
        final(bytes)@ == old(bytes)@ + flat_shdrs64(s@),
{
    let mut i: usize = 0;
    while i < s.len()
        invariant
            i <= s@.len(),
            bytes@ == old(bytes)@ + flat_shdrs64(s@.take(i as int)),
        decreases s@.len() - i,
    {
        let b = s[i].bytes();
        push_all(bytes, b.as_slice());
        proof {
            assert(s@.take(i + 1).drop_last() =~= s@.take(i as int));
        }
        i = i + 1;
        assert(bytes@ =~= old(bytes)@ + flat_shdrs64(s@.take(i as int)));
    }
    assert(s@.take(s@.len() as int) =~= s@);
}

/// The section headers of a 64-bit object, as `elf64_shdrs` lays them out.
fn section_headers64(
    code_len: usize,
    nsyms: usize,
    nlocal: usize,
    strtab_len: usize,
    nrel: usize,
    nrela: usize,
) -> (r: Vec<Elf64Shdr>)
    requires
        64 + code_len + 64 * section_count(nrel as int, nrela as int) + 24 * nsyms
            + section_strtab(nrel > 0, nrela > 0).len() + strtab_len + 16 * nrel + 24 * nrela
            <= usize::MAX,
    ensures
        r@ == elf64_shdrs(
            code_len as int,
            nsyms as int,
            nlocal as int,
            strtab_len as int,
            nrel as int,
            nrela as int,
        ),
{
    let has_rel = nrel > 0;
    let has_rela = nrela > 0;
    let mut shnum: usize = 5;
    let mut rela_name: usize = 1;
    if has_rel {
        shnum = shnum + 1;
        rela_name = rela_name + 10;
    }
    let mut text_name: usize = rela_name;
    if has_rela {
        shnum = shnum + 1;
        text_name = text_name + 11;
    }
    let shstr_len: usize = text_name + 32;
    assert(shstr_len == section_strtab(has_rel, has_rela).len());
    let symoff: usize = 64 + code_len + 64 * shnum;
    let shstroff: usize = symoff + 24 * nsyms;
    let stroff: usize = shstroff + shstr_len;
    let reloff: usize = stroff + strtab_len;
    let relaoff: usize = reloff + 16 * nrel;
    let mut r: Vec<Elf64Shdr> = Vec::new();
    r.push(
        Elf64Shdr {
            name: 0,
            etype: 0,
            flags: 0,
            addr: 0,
            offset: 0,
            size: 0,
            link: 0,
            info: 0,
            addralign: 0,
            entsize: 0,
        },
    );
    r.push(
        Elf64Shdr {
            name: text_name as u32,
            etype: 1,
            flags: 6,
            addr: 0,
            offset: 64,
            size: code_len as u64,
            link: 0,
            info: 0,
            addralign: 16,
            entsize: 0,
        },
    );
    r.push(
        Elf64Shdr {
            name: (text_name + 6) as u32,
            etype: 2,
            flags: 0,
            addr: 0,
            offset: symoff as u64,
            size: (24 * nsyms) as u64,
            link: 4,
            info: nlocal as u32,
            addralign: 0,
            entsize: 24,
        },
    );
    r.push(
        Elf64Shdr {
            name: (text_name + 14) as u32,
            etype: 3,
            flags: 0,
            addr: 0,
            offset: shstroff as u64,
            size: shstr_len as u64,
            link: 0,
            info: 0,
            addralign: 1,
            entsize: 0,
        },
    );
    r.push(
        Elf64Shdr {
            name: (text_name + 24) as u32,
            etype: 3,
            flags: 0,
            addr: 0,
            offset: stroff as u64,
            size: strtab_len as u64,
            link: 0,
            info: 0,
            addralign: 0,
            entsize: 0,
        },
    );
    if has_rel {
        r.push(
            Elf64Shdr {
                name: 1,
                etype: 9,
                flags: 0,
                addr: 0,
                offset: reloff as u64,
                size: (16 * nrel) as u64,
                link: 2,
                info: 1,
                addralign: 0,
                entsize: 16,
            },
        );
    }
    if has_rela {
        r.push(
            Elf64Shdr {
                name: rela_name as u32,
                etype: 4,
                flags: 0,
                addr: 0,
                offset: relaoff as u64,
                size: (24 * nrela) as u64,
                link: 2,
                info: 1,
                addralign: 0,
                entsize: 24,
            },
        );
    }
    assert(r@ =~= elf64_shdrs(
        code_len as int,
        nsyms as int,
        nlocal as int,
        strtab_len as int,
        nrel as int,
        nrela as int,
    ));
    r
}

/// Builds a relocatable x86-64 ELF object holding `code` as its `.text` section, with the
/// symbols of `symbols` (locals first) and the relocations of `relocs`, named after
/// `outpath` in its file symbol: the bytes are those of `elf64_object`.
#[verifier::spinoff_prover]
#[verifier::rlimit(40)]
pub fn make_elf64(code: &[u8], relocs: Vec<Relocation>, symbols: &[Symbol], outpath: &str) -> (r:
    Vec<u8>)
    requires
        elf64_object(code@, relocs@, symbols@, outpath@).len() <= usize::MAX,
    ensures
        r@ == elf64_object(code@, relocs@, symbols@, outpath@),
{
    proof {
        reveal(elf64_object);
    }
    let ghost all_relocs = relocs@;
    let (rels, relas) = split_relocs(relocs);
    let has_rel = rels.len() > 0;
    let has_rela = relas.len() > 0;
    let mut shstrtab: Vec<u8> = Vec::new();
    shstrtab.push(0);
    let mut shnum: u16 = 5;
    if has_rel {
        shnum = shnum + 1;
        push_section_name(&mut shstrtab, SectionName::RelText);
    }
    if has_rela {
        shnum = shnum + 1;
        push_section_name(&mut shstrtab, SectionName::RelaText);
    }
    push_section_name(&mut shstrtab, SectionName::Text);
    push_section_name(&mut shstrtab, SectionName::Symtab);
    push_section_name(&mut shstrtab, SectionName::Shstrtab);
    push_section_name(&mut shstrtab, SectionName::Strtab);
    assert(shstrtab@ =~= section_strtab(has_rel, has_rela));
    let (table, strtab, nlocal) = build_symtab64(symbols, outpath);
    let offs = name_offsets64(&table);
    let rel_entries = rel_entries64(&rels, &strtab, &offs);
    let rela_entries = rela_entries64(&relas, &strtab, &offs);
    let ghost shdrs_spec = elf64_shdrs(
        code@.len() as int,
        table@.len() as int,
        nlocal as int,
        strtab@.len() as int,
        rels@.len() as int,
        relas@.len() as int,
    );
    proof {
        let whole = elf64_object(code@, all_relocs, symbols@, outpath@);
        lemma_flat_shdrs64_len(shdrs_spec);
        lemma_flat_syms64_len(table@);
        lemma_flat_rels64_len(rel_entries@);
        lemma_flat_relas64_len(rela_entries@);
        assert(shdrs_spec.len() == section_count(rels@.len() as int, relas@.len() as int));
        assert(whole.len() == 64 + code@.len() + 64 * shdrs_spec.len() + 24 * table@.len()
            + shstrtab@.len() + strtab@.len() + 16 * rels@.len() + 24 * relas@.len());
    }
    let shdrs = section_headers64(
        code.len(),
        table.len(),
        nlocal,
        strtab.len(),
        rels.len(),
        relas.len(),
    );
    let header = Elf64Ehdr {
        ident: make_ident(2),
        etype: 1,
        machine: 62,
        version: 1,
        entry: 0,
        phoff: 0,
        shoff: (64 + code.len()) as u64,
        flags: 0,
        ehsize: 64,
        phentsize: 0,
        phnum: 0,
        shentsize: 64,
        shnum,
        shstrndx: 3,
    };
    assert(header == elf64_header(
        code@.len() as int,
        section_count(rels@.len() as int, relas@.len() as int),
    ));
    let mut bytes = header.bytes();
    push_all(&mut bytes, code);
    push_shdrs64(&mut bytes, &shdrs);
    push_syms64(&mut bytes, &table);
    push_all(&mut bytes, shstrtab.as_slice());
    push_all(&mut bytes, strtab.as_slice());
    push_rels64(&mut bytes, &rel_entries);
    push_relas64(&mut bytes, &rela_entries);
    bytes
}

/// The bytes of the section header at position `i` of a sequence stand at `64 * i` in their
/// bytes.
proof fn lemma_flat_shdrs64_at(s: Seq<Elf64Shdr>, i: int)
    requires
        0 <= i < s.len(),
    ensures
        flat_shdrs64(s).subrange(64 * i, 64 * i + 64) == elf64_shdr_bytes(s[i]),
    decreases s.len(),
{
    let a = flat_shdrs64(s.drop_last());
    lemma_flat_shdrs64_len(s.drop_last());
    if i == s.len() - 1 {
        assert(flat_shdrs64(s).subrange(64 * i, 64 * i + 64) =~= elf64_shdr_bytes(s[i]));
    } else {
        lemma_flat_shdrs64_at(s.drop_last(), i);
        assert(flat_shdrs64(s).subrange(64 * i, 64 * i + 64) =~= a.subrange(64 * i, 64 * i + 64));
    }
}

/// The section headers of the object of these inputs.
#[verifier::opaque]
pub open spec fn object_shdrs64(
    code: Seq<u8>,
    relocs: Seq<Relocation>,
    symbols: Seq<Symbol>,
    outpath: Seq<char>,
) -> Seq<Elf64Shdr> {
    elf64_shdrs(
        code.len() as int,
        symtab64(symbols, outpath).len() as int,
        3 + bound_as(symbols, Visibility::Local).len() as int,
        symbol_strtab(symbols, outpath).len() as int,
        relocs_with_addend(relocs, false).len() as int,
        relocs_with_addend(relocs, true).len() as int,
    )
}

/// What follows the section headers in the object of these inputs.
#[verifier::opaque]
pub open spec fn object_tail64(
    relocs: Seq<Relocation>,
    symbols: Seq<Symbol>,
    outpath: Seq<char>,
) -> Seq<u8> {
    let rels = relocs_with_addend(relocs, false);
    let relas = relocs_with_addend(relocs, true);
    let table = symtab64(symbols, outpath);
    let strtab = symbol_strtab(symbols, outpath);
    flat_syms64(table) + section_strtab(rels.len() > 0, relas.len() > 0) + strtab + flat_rels64(
        rels64(rels, strtab, names64(table)),
    ) + flat_relas64(relas64(relas, strtab, names64(table)))
}

/// An object is its header, its code, its section headers and the rest.
proof fn lemma_elf64_object_split(
    code: Seq<u8>,
    relocs: Seq<Relocation>,
    symbols: Seq<Symbol>,
    outpath: Seq<char>,
)
    ensures
        elf64_object(code, relocs, symbols, outpath) == elf64_ehdr_bytes(
            elf64_header(
                code.len() as int,
                section_count(
                    relocs_with_addend(relocs, false).len() as int,
                    relocs_with_addend(relocs, true).len() as int,
                ),
            ),
        ) + code + flat_shdrs64(object_shdrs64(code, relocs, symbols, outpath)) + object_tail64(
            relocs,
            symbols,
            outpath,
        ),
{
    reveal(elf64_object);
    reveal(object_shdrs64);
    reveal(object_tail64);
}

/// The second section header of an object is that of `.text`: the code right after the file
/// header.
proof fn lemma_text_shdr64(
    code: Seq<u8>,
    relocs: Seq<Relocation>,
    symbols: Seq<Symbol>,
    outpath: Seq<char>,
)
    ensures
        object_shdrs64(code, relocs, symbols, outpath).len() >= 5,
        object_shdrs64(code, relocs, symbols, outpath)[1].offset == 64,
        object_shdrs64(code, relocs, symbols, outpath)[1].size == code.len() as u64,
{
    reveal(object_shdrs64);
}

/// In an x86-64 object the file header names a 64-bit little-endian ELF object for x86-64
/// and the number of its sections; the code stands right after the header, at the offset
/// and with the size that the `.text` section header (the second of the section headers,
/// which start where the file header says) gives.
#[verifier::spinoff_prover]
pub proof fn lemma_elf64_object_layout(
    code: Seq<u8>,
    relocs: Seq<Relocation>,
    symbols: Seq<Symbol>,
    outpath: Seq<char>,
)
    requires
        elf64_object(code, relocs, symbols, outpath).len() <= usize::MAX,
    ensures
        ({
            let obj = elf64_object(code, relocs, symbols, outpath);
            let nrel = relocs_with_addend(relocs, false).len() as int;
            let nrela = relocs_with_addend(relocs, true).len() as int;
            let shoff = 64 + code.len() as int;
            &&& obj.subrange(0, 6) == seq![0x7fu8, 0x45, 0x4c, 0x46, 2, 1]
            &&& read_le16(obj, 18) == 62
            &&& read_le64(obj, 40) == shoff
            &&& read_le16(obj, 60) == section_count(nrel, nrela)
            &&& obj.subrange(64, shoff) == code
            &&& read_le64(obj, shoff + 64 + 24) == 64
            &&& read_le64(obj, shoff + 64 + 32) == code.len()
        }),
{
    let obj = elf64_object(code, relocs, symbols, outpath);
    let nrel = relocs_with_addend(relocs, false).len() as int;
    let nrela = relocs_with_addend(relocs, true).len() as int;
    let h = elf64_header(code.len() as int, section_count(nrel, nrela));
    let hb = elf64_ehdr_bytes(h);
    let shdrs = object_shdrs64(code, relocs, symbols, outpath);
    let fb = flat_shdrs64(shdrs);
    let shoff = 64 + code.len() as int;
    lemma_elf64_object_split(code, relocs, symbols, outpath);
    assert(obj == hb + code + fb + object_tail64(relocs, symbols, outpath));
    assert(hb.len() == 64 && obj.subrange(0, 64) == hb) by {
        lemma_elf64_ehdr_readback(h);
        assert(obj.subrange(0, 64) =~= hb);
    }
    assert(obj.subrange(0, 6) == seq![0x7fu8, 0x45, 0x4c, 0x46, 2, 1]) by {
        lemma_elf64_ehdr_readback(h);
        assert(obj.subrange(0, 6) =~= hb.subrange(0, 6));
        assert(hb.subrange(0, 6) =~= h.ident@.subrange(0, 6));
    }
    assert(read_le16(obj, 18) == 62 && read_le64(obj, 40) == shoff && read_le16(obj, 60)
        == section_count(nrel, nrela)) by {
        lemma_elf64_ehdr_readback(h);
        lemma_read_le16_sub(obj, 0, 64, 18);
        lemma_read_le64_sub(obj, 0, 64, 40);
        lemma_read_le16_sub(obj, 0, 64, 60);
    }
    assert(obj.subrange(64, shoff) == code) by {
        assert(obj.subrange(64, shoff) =~= code);
    }
    assert(read_le64(obj, shoff + 64 + 24) == 64 && read_le64(obj, shoff + 64 + 32)
        == code.len()) by {
        lemma_flat_shdrs64_len(shdrs);
        lemma_text_shdr64(code, relocs, symbols, outpath);
        lemma_flat_shdrs64_at(shdrs, 1);
        lemma_elf64_shdr_readback(shdrs[1]);
        assert(obj.subrange(shoff + 64, shoff + 128) =~= fb.subrange(64, 128));
        lemma_read_le64_sub(obj, shoff + 64, shoff + 128, 24);
        lemma_read_le64_sub(obj, shoff + 64, shoff + 128, 32);
    }
}

} // verus!
