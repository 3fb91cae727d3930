use vstd::prelude::*;

use crate::le::{
    le16, le32, le_i32, lemma_le16_readback, lemma_le32_readback, lemma_read_le16_sub,
    lemma_read_le32_sub, push_all, push_le16, push_le32, push_le_i32, read_le16, read_le32,
};
use crate::objfile::{
    bound_as, data_name, elf_ident, find_named, first_named, info_byte, make_ident, name_entry,
    names_blob, present_if, push_name, push_section_name, relocs_with_addend, rodata_name,
    bss_name, section_strtab, size_or_zero, split_relocs, strtab_head, sym_info, symbol_strtab,
    SectionName,
};
use crate::reloc::{spec_rtype_code, Relocation};
use crate::symbol::{content_bytes, spec_stype_code, Symbol, SymbolType, VarContent, Visibility};
use crate::text::{byte_char, push_char};

verus! {

pub const EI_NIDENT: usize = 16;
pub const SHF_WRITE: u32 = 0x1;
pub const SHF_ALLOC: u32 = 0x2;
pub const SHF_EXECINSTR: u32 = 0x4;

/// The ELF32 file header.
#[derive(Clone, Copy, Debug)]
pub struct Elf32Ehdr {
    pub ident: [u8; 16],
    pub etype: u16,
    pub machine: u16,
    pub version: u32,
    pub entry: u32,
    pub phoff: u32,
    pub shoff: u32,
    pub flags: u32,
    pub ehsize: u16,
    pub phentsize: u16,
    pub phnum: u16,
    pub shentsize: u16,
    pub shnum: u16,
    pub shstrndx: u16,
}

/// An ELF32 section header.
#[derive(Clone, Copy, Debug)]
pub struct Elf32Shdr {
    pub name: u32,
    pub etype: u32,
    pub flags: u32,
    pub addr: u32,
    pub offset: u32,
    pub size: u32,
    pub link: u32,
    pub info: u32,
    pub addralign: u32,
    pub entsize: u32,
}

/// An ELF32 symbol-table entry.
#[derive(Clone, Copy, Debug)]
pub struct Elf32Sym {
    pub name: u32,
    pub value: u32,
    pub size: u32,
    pub info: u8,
    pub other: u8,
    pub shndx: u16,
}

/// An ELF32 relocation without addend.
#[derive(Clone, Copy, Debug)]
pub struct Elf32Rel {
    pub offset: u32,
    pub info: u32,
}

/// An ELF32 relocation with addend.
#[derive(Clone, Copy, Debug)]
pub struct Elf32Rela {
    pub offset: u32,
    pub info: u32,
    pub addend: i32,
}

/// The file layout of an ELF32 header: the ident bytes, then each field little endian.
pub open spec fn elf32_ehdr_bytes(h: Elf32Ehdr) -> Seq<u8> {
    h.ident@ + le16(h.etype) + le16(h.machine) + le32(h.version) + le32(h.entry) + le32(h.phoff)
        + le32(h.shoff) + le32(h.flags) + le16(h.ehsize) + le16(h.phentsize) + le16(h.phnum) + le16(
        h.shentsize,
    ) + le16(h.shnum) + le16(h.shstrndx)
}

/// The file layout of an ELF32 section header: each field little endian, in order.
pub open spec fn elf32_shdr_bytes(h: Elf32Shdr) -> Seq<u8> {
    le32(h.name) + le32(h.etype) + le32(h.flags) + le32(h.addr) + le32(h.offset) + le32(h.size)
        + le32(h.link) + le32(h.info) + le32(h.addralign) + le32(h.entsize)
}

/// The file layout of an ELF32 symbol: each field little endian, in order.
pub open spec fn elf32_sym_bytes(s: Elf32Sym) -> Seq<u8> {
    le32(s.name) + le32(s.value) + le32(s.size) + seq![s.info] + seq![s.other] + le16(s.shndx)
}

/// The file layout of an ELF32 relocation without addend.
pub open spec fn elf32_rel_bytes(r: Elf32Rel) -> Seq<u8> {
    le32(r.offset) + le32(r.info)
}

/// The file layout of an ELF32 relocation with addend.
pub open spec fn elf32_rela_bytes(r: Elf32Rela) -> Seq<u8> {
    le32(r.offset) + le32(r.info) + le_i32(r.addend)
}

impl Elf32Shdr {
    /// The section header as it stands in the file.
    pub fn bytes(&self) -> (r: Vec<u8>)
        ensures
            r@ == elf32_shdr_bytes(*self),
            r@.len() == 40,
    {
        let mut bytes: Vec<u8> = Vec::new();
        push_le32(&mut bytes, self.name);
        push_le32(&mut bytes, self.etype);
        push_le32(&mut bytes, self.flags);
        push_le32(&mut bytes, self.addr);
        push_le32(&mut bytes, self.offset);
        push_le32(&mut bytes, self.size);
        push_le32(&mut bytes, self.link);
        push_le32(&mut bytes, self.info);
        push_le32(&mut bytes, self.addralign);
        push_le32(&mut bytes, self.entsize);
        assert(bytes@ =~= elf32_shdr_bytes(*self));
        bytes
    }
}

impl Elf32Ehdr {
    /// The file header as it stands in the file.
    pub fn bytes(&self) -> (r: Vec<u8>)
        ensures
            r@ == elf32_ehdr_bytes(*self),
            r@.len() == 52,
    {
        let mut bytes: Vec<u8> = Vec::new();
        push_all(&mut bytes, &self.ident);
        push_le16(&mut bytes, self.etype);
        push_le16(&mut bytes, self.machine);
        push_le32(&mut bytes, self.version);
        push_le32(&mut bytes, self.entry);
        push_le32(&mut bytes, self.phoff);
        push_le32(&mut bytes, self.shoff);
        push_le32(&mut bytes, self.flags);
        push_le16(&mut bytes, self.ehsize);
        push_le16(&mut bytes, self.phentsize);
        push_le16(&mut bytes, self.phnum);
        push_le16(&mut bytes, self.shentsize);
        push_le16(&mut bytes, self.shnum);
        push_le16(&mut bytes, self.shstrndx);
        assert(bytes@ =~= elf32_ehdr_bytes(*self));
        bytes
    }
}

impl Elf32Sym {
    /// The symbol as it stands in the file.
    pub fn bytes(&self) -> (r: Vec<u8>)
        ensures
            r@ == elf32_sym_bytes(*self),
            r@.len() == 16,
    {
        let mut bytes: Vec<u8> = Vec::new();
        push_le32(&mut bytes, self.name);
        push_le32(&mut bytes, self.value);
        push_le32(&mut bytes, self.size);
        bytes.push(self.info);
        bytes.push(self.other);
        push_le16(&mut bytes, self.shndx);
        assert(bytes@ =~= elf32_sym_bytes(*self));
        bytes
    }
}

impl Elf32Rel {
    /// The relocation as it stands in the file.
    pub fn bytes(&self) -> (r: Vec<u8>)
        ensures
            r@ == elf32_rel_bytes(*self),
            r@.len() == 8,
    {
        let mut bytes: Vec<u8> = Vec::new();
        push_le32(&mut bytes, self.offset);
        push_le32(&mut bytes, self.info);
        assert(bytes@ =~= elf32_rel_bytes(*self));
        bytes
    }
}

impl Elf32Rela {
    /// The relocation as it stands in the file.
    pub fn bytes(&self) -> (r: Vec<u8>)
        ensures
            r@ == elf32_rela_bytes(*self),
            r@.len() == 12,
    {
        let mut bytes: Vec<u8> = Vec::new();
        push_le32(&mut bytes, self.offset);
        push_le32(&mut bytes, self.info);
        push_le_i32(&mut bytes, self.addend);
        assert(bytes@ =~= elf32_rela_bytes(*self));
        bytes
    }
}

/// Each field of a section header is read back little endian at its offset in its bytes.
pub proof fn lemma_elf32_shdr_readback(h: Elf32Shdr)
    ensures
        ({
            let b = elf32_shdr_bytes(h);
            &&& read_le32(b, 0) == h.name
            &&& read_le32(b, 4) == h.etype
            &&& read_le32(b, 8) == h.flags
            &&& read_le32(b, 12) == h.addr
            &&& read_le32(b, 16) == h.offset
            &&& read_le32(b, 20) == h.size
            &&& read_le32(b, 24) == h.link
            &&& read_le32(b, 28) == h.info
            &&& read_le32(b, 32) == h.addralign
            &&& read_le32(b, 36) == h.entsize
        }),
{
    let b = elf32_shdr_bytes(h);
    lemma_le32_readback(h.name);
    lemma_le32_readback(h.etype);
    lemma_le32_readback(h.flags);
    lemma_le32_readback(h.addr);
    lemma_le32_readback(h.offset);
    lemma_le32_readback(h.size);
    lemma_le32_readback(h.link);
    lemma_le32_readback(h.info);
    lemma_le32_readback(h.addralign);
    lemma_le32_readback(h.entsize);
    assert(read_le32(b, 0) == read_le32(le32(h.name), 0));
    assert(read_le32(b, 4) == read_le32(le32(h.etype), 0));
    assert(read_le32(b, 8) == read_le32(le32(h.flags), 0));
    assert(read_le32(b, 12) == read_le32(le32(h.addr), 0));
    assert(read_le32(b, 16) == read_le32(le32(h.offset), 0));
    assert(read_le32(b, 20) == read_le32(le32(h.size), 0));
    assert(read_le32(b, 24) == read_le32(le32(h.link), 0));
    assert(read_le32(b, 28) == read_le32(le32(h.info), 0));
    assert(read_le32(b, 32) == read_le32(le32(h.addralign), 0));
    assert(read_le32(b, 36) == read_le32(le32(h.entsize), 0));
}

/// Each field of a file header after the ident bytes is read back little endian at its offset.
pub proof fn lemma_elf32_ehdr_readback(h: Elf32Ehdr)
    ensures
        ({
            let b = elf32_ehdr_bytes(h);
            &&& b.subrange(0, 16) == h.ident@
            &&& read_le16(b, 16) == h.etype
            &&& read_le16(b, 18) == h.machine
            &&& read_le32(b, 20) == h.version
            &&& read_le32(b, 24) == h.entry
            &&& read_le32(b, 28) == h.phoff
            &&& read_le32(b, 32) == h.shoff
            &&& read_le32(b, 36) == h.flags
            &&& read_le16(b, 40) == h.ehsize
            &&& read_le16(b, 42) == h.phentsize
            &&& read_le16(b, 44) == h.phnum
            &&& read_le16(b, 46) == h.shentsize
            &&& read_le16(b, 48) == h.shnum
            &&& read_le16(b, 50) == h.shstrndx
        }),
{
    let b = elf32_ehdr_bytes(h);
    lemma_le16_readback(h.etype);
    lemma_le16_readback(h.machine);
    lemma_le32_readback(h.version);
    lemma_le32_readback(h.entry);
    lemma_le32_readback(h.phoff);
    lemma_le32_readback(h.shoff);
    lemma_le32_readback(h.flags);
    lemma_le16_readback(h.ehsize);
    lemma_le16_readback(h.phentsize);
    lemma_le16_readback(h.phnum);
    lemma_le16_readback(h.shentsize);
    lemma_le16_readback(h.shnum);
    lemma_le16_readback(h.shstrndx);
    assert(b.subrange(0, 16) =~= h.ident@);
    assert(read_le16(b, 16) == read_le16(le16(h.etype), 0));
    assert(read_le16(b, 18) == read_le16(le16(h.machine), 0));
    assert(read_le32(b, 20) == read_le32(le32(h.version), 0));
    assert(read_le32(b, 24) == read_le32(le32(h.entry), 0));
    assert(read_le32(b, 28) == read_le32(le32(h.phoff), 0));
    assert(read_le32(b, 32) == read_le32(le32(h.shoff), 0));
    assert(read_le32(b, 36) == read_le32(le32(h.flags), 0));
    assert(read_le16(b, 40) == read_le16(le16(h.ehsize), 0));
    assert(read_le16(b, 42) == read_le16(le16(h.phentsize), 0));
    assert(read_le16(b, 44) == read_le16(le16(h.phnum), 0));
    assert(read_le16(b, 46) == read_le16(le16(h.shentsize), 0));
    assert(read_le16(b, 48) == read_le16(le16(h.shnum), 0));
    assert(read_le16(b, 50) == read_le16(le16(h.shstrndx), 0));
}

/// The characters of the zero-terminated byte string at the front of `s` (all of `s` when it
/// has no zero byte), each byte taken as the character of the same number.
pub open spec fn asciiz(s: Seq<u8>) -> Seq<char>
    decreases s.len(),
{
    if s.len() == 0 || s[0] == 0 {
        Seq::empty()
    } else {
        seq![byte_char(s[0])] + asciiz(s.drop_first())
    }
}

/// The zero-terminated string starting at `start` in `tab`; `None` when `start` is past the
/// end of `tab`.
pub fn collect_asciiz(tab: &[u8], start: usize) -> (r: Option<String>)
    ensures
        tab@.len() < start ==> r.is_none(),
        tab@.len() >= start ==> (r matches Some(s) && s@ == asciiz(
            tab@.subrange(start as int, tab@.len() as int),
        )),
{
    if tab.len() < start {
        return None;
    }
    let mut string = String::new();
    let mut i: usize = start;
    let ghost whole = tab@.subrange(start as int, tab@.len() as int);
    while i < tab.len()
        invariant
            start <= i <= tab@.len(),
            whole == tab@.subrange(start as int, tab@.len() as int),
            string@ + asciiz(tab@.subrange(i as int, tab@.len() as int)) == asciiz(whole),
        decreases tab@.len() - i,
    {
        let n = tab[i];
        let ghost rest = tab@.subrange(i as int, tab@.len() as int);
        if n != 0 {
            push_char(&mut string, n as char);
            assert(rest.drop_first() =~= tab@.subrange(i + 1, tab@.len() as int));
            assert(asciiz(rest) == seq![byte_char(n)] + asciiz(rest.drop_first()));
            assert(string@ + asciiz(tab@.subrange(i + 1, tab@.len() as int)) =~= asciiz(whole));
        } else {
            assert(asciiz(rest) == Seq::<char>::empty());
            assert(string@ =~= asciiz(whole));
            return Some(string);
        }
        i = i + 1;
    }
    assert(asciiz(tab@.subrange(i as int, tab@.len() as int)) == Seq::<char>::empty());
    assert(string@ =~= asciiz(whole));
    Some(string)
}

/// Whether a symbol's content is a string.
pub open spec fn is_string_content(c: Option<VarContent>) -> bool {
    c matches Some(VarContent::String(_))
}

/// The offset before symbol `k`: that of symbol `k - 1`, 0 for the first.
pub open spec fn prev_offset(s: Seq<(String, u32, u32, Option<VarContent>)>, k: int) -> u32 {
    if k == 0 {
        0
    } else {
        s[k - 1].1
    }
}

/// Whether a non-string symbol starts a multiple of four bytes after the one before it.
pub open spec fn word_aligned_gap(s: Seq<(String, u32, u32, Option<VarContent>)>, k: int) -> bool {
    !is_string_content(s[k].3) && (s[k].1 - prev_offset(s, k)) % 4 == 0
}

/// The alignment of a data section: 4 when some non-string symbol starts a multiple of four
/// bytes after the one before it (the first one after offset 0), else 1.
#[verifier::rlimit(40)]
pub fn calc_lsize(symbs: &[(String, u32, u32, Option<VarContent>)]) -> (r: u32)
    requires
        forall|k: int| 0 <= k < symbs@.len() ==> prev_offset(symbs@, k) <= #[trigger] symbs@[k].1,
    ensures
        r == if exists|k: int| 0 <= k < symbs@.len() && #[trigger] word_aligned_gap(symbs@, k) {
            4u32
        } else {
            1u32
        },
{
    let mut lsize: u32 = 1;
    let mut prvoff: u32 = 0;
    let mut i: usize = 0;
    while i < symbs.len()
        invariant
            forall|k: int|
                0 <= k < symbs@.len() ==> prev_offset(symbs@, k) <= #[trigger] symbs@[k].1,
            i <= symbs@.len(),
            prvoff == prev_offset(symbs@, i as int),
            lsize == if exists|k: int| 0 <= k < i && #[trigger] word_aligned_gap(symbs@, k) {
                4u32
            } else {
                1u32
            },
        decreases symbs@.len() - i,
    {
        let entry = &symbs[i];
        let tsize = entry.1 - prvoff;
        let is_str = match &entry.3 {
            Some(VarContent::String(_)) => true,
            _ => false,
        };
        if is_str {
            if lsize < 1 {
                lsize = 1;
            }
        } else {
            if tsize % 4 == 0 {
                if lsize < 4 {
                    lsize = 4;
                }
            } else if tsize % 8 == 0 {
                if lsize < 8 {
                    lsize = 8;
                }
            }
        }
        assert(word_aligned_gap(symbs@, i as int) == (!is_str && tsize % 4 == 0));
        prvoff = entry.1;
        i = i + 1;
        assert(exists|k: int| 0 <= k < i && #[trigger] word_aligned_gap(symbs@, k) <==> (exists|
            k: int,
        | 0 <= k < i - 1 && #[trigger] word_aligned_gap(symbs@, k)) || word_aligned_gap(
            symbs@,
            i - 1,
        ));
    }
    lsize
}

/// The content bytes of the symbols of `s` whose content goes to section kind `kind`
/// (1 `.data`, 2 `.rodata`), one after another.
pub open spec fn section_data(s: Seq<Symbol>, kind: u8) -> Seq<u8>
    decreases s.len(),
{
    if s.len() == 0 {
        Seq::empty()
    } else if s.last().addt == kind {
        section_data(s.drop_last(), kind) + content_bytes(s.last().content.unwrap())
    } else {
        section_data(s.drop_last(), kind)
    }
}

/// The offsets of the symbols of `s` of section kind `kind`, in order.
pub open spec fn section_offsets(s: Seq<Symbol>, kind: u8) -> Seq<u32>
    decreases s.len(),
{
    if s.len() == 0 {
        Seq::empty()
    } else if s.last().addt == kind {
        section_offsets(s.drop_last(), kind).push(s.last().offset)
    } else {
        section_offsets(s.drop_last(), kind)
    }
}

/// The total size of the symbols of `s` in `.bss` (section kind 3).
pub open spec fn bss_size(s: Seq<Symbol>) -> int
    decreases s.len(),
{
    if s.len() == 0 {
        0
    } else if s.last().addt == 3 {
        bss_size(s.drop_last()) + size_or_zero(s.last().size)
    } else {
        bss_size(s.drop_last())
    }
}

/// Whether some symbol of `s` is of section kind `kind`.
pub open spec fn has_kind(s: Seq<Symbol>, kind: u8) -> bool {
    exists|i: int| 0 <= i < s.len() && #[trigger] s[i].addt == kind
}

/// The offset before position `k` of `offs`: the one at `k - 1`, 0 for the first.
pub open spec fn prev_off(offs: Seq<u32>, k: int) -> int {
    if k == 0 {
        0
    } else {
        offs[k - 1] as int
    }
}

/// Whether the offsets `offs` never go down.
pub open spec fn ascending(offs: Seq<u32>) -> bool {
    forall|k: int| 0 <= k < offs.len() ==> prev_off(offs, k) <= #[trigger] offs[k]
}

/// The alignment of a data section whose symbols start at `offs`: 4 when some symbol starts
/// a multiple of four bytes after the one before it (the first one after offset 0), else 1.
pub open spec fn section_align(offs: Seq<u32>) -> u32 {
    if exists|k: int| 0 <= k < offs.len() && (#[trigger] offs[k] - prev_off(offs, k)) % 4 == 0 {
        4
    } else {
        1
    }
}

/// The section index of a symbol: that of `.data`, `.rodata` or `.bss` for a symbol whose
/// content goes there (those sections follow `.text`, each where it exists), else its own.
pub open spec fn section_index32(s: Symbol, has_data: bool, has_rodata: bool) -> u16 {
    let d: u16 = if has_data { 1 } else { 0 };
    let r: u16 = if has_rodata { 1 } else { 0 };
    if s.addt == 1 {
        2
    } else if s.addt == 2 {
        (2 + d) as u16
    } else if s.addt == 3 {
        (2 + d + r) as u16
    } else {
        s.sindex
    }
}

/// The symbol-table entry of `s`, its name at `name_off` in the string table.
pub open spec fn sym32_entry(s: Symbol, name_off: int, has_data: bool, has_rodata: bool) -> Elf32Sym {
    Elf32Sym {
        name: name_off as u32,
        value: s.offset,
        size: size_or_zero(s.size),
        info: sym_info(s),
        other: 0,
        shndx: section_index32(s, has_data, has_rodata),
    }
}

/// The entries of `s`, their names laid out in the string table from `base` on.
pub open spec fn syms32(s: Seq<Symbol>, base: int, has_data: bool, has_rodata: bool) -> Seq<
    Elf32Sym,
>
    decreases s.len(),
{
    if s.len() == 0 {
        Seq::empty()
    } else {
        syms32(s.drop_last(), base, has_data, has_rodata).push(
            sym32_entry(s.last(), base + names_blob(s.drop_last()).len(), has_data, has_rodata),
        )
    }
}

/// An entry of nothing but the given name offset, binding and type byte, and section index.
pub open spec fn plain_sym32(name: int, info: u8, shndx: u16) -> Elf32Sym {
    Elf32Sym { name: name as u32, value: 0, size: 0, info, other: 0, shndx }
}

/// The symbol table of a 32-bit object: the null symbol, the file symbol, the `.text`
/// section symbol, then the local symbols and then the global ones, each in their order.
pub open spec fn symtab32(symbols: Seq<Symbol>, outpath: Seq<char>) -> Seq<Elf32Sym> {
    let head = strtab_head(outpath).len() as int;
    let locals = bound_as(symbols, Visibility::Local);
    let globals = bound_as(symbols, Visibility::Global);
    let d = has_kind(symbols, 1);
    let r = has_kind(symbols, 2);
    seq![
        plain_sym32(0, 0, 0),
        plain_sym32(1, spec_stype_code(SymbolType::File), 0xFFF1),
        plain_sym32((1 + name_entry(outpath).len()) as int, spec_stype_code(SymbolType::Section), 1),
    ] + syms32(locals, head, d, r) + syms32(globals, head + names_blob(locals).len(), d, r)
}

/// The name offsets of the entries of a symbol table.
pub open spec fn names32(t: Seq<Elf32Sym>) -> Seq<u32> {
    Seq::new(t.len(), |i: int| t[i].name)
}

/// The `r_info` of a relocation: its type, and the index of its symbol from bit 8 on where
/// one was found.
pub open spec fn info32(r: Relocation, idx: Option<int>) -> u32 {
    match idx {
        Some(k) => (spec_rtype_code(r.rtype) + ((k as u32) << 8u32)) as u32,
        None => spec_rtype_code(r.rtype),
    }
}

/// The relocation entries without addend of `rs`, each pointing at the first entry of the
/// symbol table (name offsets `offs` in `tab`) with the relocation's symbol name.
pub open spec fn rels32(rs: Seq<Relocation>, tab: Seq<u8>, offs: Seq<u32>) -> Seq<Elf32Rel> {
    Seq::new(
        rs.len(),
        |i: int|
            Elf32Rel {
                offset: rs[i].offset as u32,
                info: info32(rs[i], first_named(tab, offs, rs[i].symbol@, 0)),
            },
    )
}

/// The relocation entries with addend of `rs`; the one at position `i` points at the symbol
/// named by the relocation without addend at the same position in `names`. This pairing is
/// deliberate: it is how this writer has always named them, kept so that its objects stay
/// byte for byte the same.
pub open spec fn relas32(
    rs: Seq<Relocation>,
    names: Seq<Relocation>,
    tab: Seq<u8>,
    offs: Seq<u32>,
) -> Seq<Elf32Rela> {
    Seq::new(
        rs.len(),
        |i: int|
            Elf32Rela {
                offset: rs[i].offset as u32,
                info: info32(rs[i], first_named(tab, offs, names[i].symbol@, 0)),
                addend: rs[i].addend,
            },
    )
}

/// The bytes of a sequence of symbols, one after another.
pub open spec fn flat_syms32(s: Seq<Elf32Sym>) -> Seq<u8>
    decreases s.len(),
{
    if s.len() == 0 {
        Seq::empty()
    } else {
        flat_syms32(s.drop_last()) + elf32_sym_bytes(s.last())
    }
}

/// The bytes of a sequence of relocations without addend, one after another.
pub open spec fn flat_rels32(s: Seq<Elf32Rel>) -> Seq<u8>
    decreases s.len(),
{
    if s.len() == 0 {
        Seq::empty()
    } else {
        flat_rels32(s.drop_last()) + elf32_rel_bytes(s.last())
    }
}

/// The bytes of a sequence of relocations with addend, one after another.
pub open spec fn flat_relas32(s: Seq<Elf32Rela>) -> Seq<u8>
    decreases s.len(),
{
    if s.len() == 0 {
        Seq::empty()
    } else {
        flat_relas32(s.drop_last()) + elf32_rela_bytes(s.last())
    }
}

/// The bytes of a sequence of section headers, one after another.
pub open spec fn flat_shdrs32(s: Seq<Elf32Shdr>) -> Seq<u8>
    decreases s.len(),
{
    if s.len() == 0 {
        Seq::empty()
    } else {
        flat_shdrs32(s.drop_last()) + elf32_shdr_bytes(s.last())
    }
}

/// A section header with no address.
pub open spec fn shdr32(
    name: int,
    etype: u32,
    flags: u32,
    offset: int,
    size: int,
    link: int,
    info: int,
    addralign: u32,
    entsize: u32,
) -> Elf32Shdr {
    Elf32Shdr {
        name: name as u32,
        etype,
        flags,
        addr: 0,
        offset: offset as u32,
        size: size as u32,
        link: link as u32,
        info: info as u32,
        addralign,
        entsize,
    }
}

/// What the section headers of a 32-bit object depend on: the lengths of its code, `.data`
/// and `.rodata` contents, the size of `.bss`, the three sections' alignments and whether
/// they exist, the number of symbols and of local ones, the length of the symbol string
/// table and the numbers of relocations without and with addend.
#[derive(Clone, Copy, Debug)]
pub struct Sections32 {
    pub code_len: usize,
    pub data_len: usize,
    pub rodata_len: usize,
    pub bss_len: u64,
    pub data_align: u32,
    pub rodata_align: u32,
    pub bss_align: u32,
    pub has_data: bool,
    pub has_rodata: bool,
    pub has_bss: bool,
    pub nsyms: usize,
    pub nlocal: usize,
    pub strtab_len: usize,
    pub nrel: usize,
    pub nrela: usize,
}

/// 1 when `b`, else 0.
pub open spec fn one_if(b: bool) -> int {
    if b {
        1
    } else {
        0
    }
}

/// The number of data sections (`.data`, `.rodata`, `.bss`) of an object.
pub open spec fn data_sections(l: Sections32) -> int {
    one_if(l.has_data) + one_if(l.has_rodata) + one_if(l.has_bss)
}

/// The number of sections of a 32-bit object.
pub open spec fn section_count32(l: Sections32) -> int {
    5 + one_if(l.nrel > 0) + one_if(l.nrela > 0) + data_sections(l)
}

/// The section-name string table of a 32-bit object: that of `section_strtab`, then
/// `.data`, `.rodata` and `.bss` where those sections exist.
pub open spec fn section_strtab32(l: Sections32) -> Seq<u8> {
    section_strtab(l.nrel > 0, l.nrela > 0) + present_if(l.has_data, data_name()) + present_if(
        l.has_rodata,
        rodata_name(),
    ) + present_if(l.has_bss, bss_name())
}

/// The file header of a 32-bit object.
pub open spec fn elf32_header(l: Sections32) -> Elf32Ehdr {
    Elf32Ehdr {
        ident: elf_ident(1),
        etype: 1,
        machine: 3,
        version: 1,
        entry: 0,
        phoff: 0,
        shoff: (52 + l.code_len + l.data_len + l.rodata_len) as u32,
        flags: 0,
        ehsize: 52,
        phentsize: 0,
        phnum: 0,
        shentsize: 40,
        shnum: section_count32(l) as u16,
        shstrndx: (3 + data_sections(l)) as u16,
    }
}

/// The offset of `.text` in the section-name string table.
pub open spec fn text_name32(l: Sections32) -> int {
    1 + 10 * one_if(l.nrel > 0) + 11 * one_if(l.nrela > 0)
}

/// The offset of the data section names in the section-name string table.
pub open spec fn data_name32(l: Sections32) -> int {
    text_name32(l) + 32
}

/// Where the symbol table starts: after the header, the code, `.data`, `.rodata` and the
/// section headers.
pub open spec fn symoff32(l: Sections32) -> int {
    52 + l.code_len + l.data_len + l.rodata_len + 40 * section_count32(l)
}

/// The null and `.text` section headers.
pub open spec fn head_shdrs32(l: Sections32) -> Seq<Elf32Shdr> {
    seq![
        shdr32(0, 0, 0, 0, 0, 0, 0, 0, 0),
        shdr32(text_name32(l), 1, 6, 52, l.code_len as int, 0, 0, 16, 0),
    ]
}

/// The `.data`, `.rodata` and `.bss` section headers, each where the section exists;
/// `.rodata` is given the size of `.data`, and `.bss` the offset of `.data`. Both are
/// deliberate: they are the headers this writer has always produced, and they are kept so
/// that its objects stay byte for byte the same.
pub open spec fn data_shdrs32(l: Sections32) -> Seq<Elf32Shdr> {
    let data_name = data_name32(l);
    let rodata_name = data_name + 6 * one_if(l.has_data);
    let bss_name = rodata_name + 8 * one_if(l.has_rodata);
    let data_off = 52 + l.code_len;
    (if l.has_data {
        seq![shdr32(data_name, 1, 3, data_off, l.data_len as int, 0, 0, l.data_align, 0)]
    } else {
        Seq::empty()
    }) + (if l.has_rodata {
        seq![
            shdr32(
                rodata_name,
                1,
                2,
                data_off + l.data_len,
                l.data_len as int,
                0,
                0,
                l.rodata_align,
                0,
            ),
        ]
    } else {
        Seq::empty()
    }) + (if l.has_bss {
        seq![shdr32(bss_name, 8, 3, data_off, l.bss_len as int, 0, 0, l.bss_align, 0)]
    } else {
        Seq::empty()
    })
}

/// The `.symtab`, `.shstrtab` and `.strtab` section headers.
pub open spec fn table_shdrs32(l: Sections32) -> Seq<Elf32Shdr> {
    let text_name = text_name32(l);
    let symoff = symoff32(l);
    let shstr_len = section_strtab32(l).len() as int;
    seq![
        shdr32(text_name + 6, 2, 0, symoff, 16 * l.nsyms, 4 + data_sections(l), l.nlocal as int, 0, 16),
        shdr32(text_name + 14, 3, 0, symoff + 16 * l.nsyms, shstr_len, 0, 0, 1, 0),
        shdr32(
            text_name + 24,
            3,
            0,
            symoff + 16 * l.nsyms + shstr_len,
            l.strtab_len as int,
            0,
            0,
            0,
            0,
        ),
    ]
}

/// The `.rel.text` and `.rela.text` section headers, each where it has entries.
pub open spec fn reloc_shdrs32(l: Sections32) -> Seq<Elf32Shdr> {
    let reloff = symoff32(l) + 16 * l.nsyms + section_strtab32(l).len() + l.strtab_len;
    let modf = data_sections(l);
    (if l.nrel > 0 {
        seq![shdr32(1, 9, 0, reloff, 8 * l.nrel, modf + 2, 1, 0, 8)]
    } else {
        Seq::empty()
    }) + (if l.nrela > 0 {
        seq![
            shdr32(
                1 + 10 * one_if(l.nrel > 0),
                4,
                0,
                reloff + 8 * l.nrel,
                12 * l.nrela,
                modf + 2,
                1,
                0,
                12,
            ),
        ]
    } else {
        Seq::empty()
    })
}

/// The section headers of a 32-bit object: null, `.text`, `.data`, `.rodata` and `.bss`
/// where they exist, `.symtab`, `.shstrtab`, `.strtab`, then `.rel.text` and `.rela.text`
/// where they have entries.
pub open spec fn elf32_shdrs(l: Sections32) -> Seq<Elf32Shdr> {
    head_shdrs32(l) + data_shdrs32(l) + table_shdrs32(l) + reloc_shdrs32(l)
}

/// The contents of `.data` (section kind 1) of an object: the content bytes of its local
/// symbols there, then of its global ones.
pub open spec fn data32(symbols: Seq<Symbol>, kind: u8) -> Seq<u8> {
    section_data(bound_as(symbols, Visibility::Local), kind) + section_data(
        bound_as(symbols, Visibility::Global),
        kind,
    )
}

/// The offsets of the symbols of section kind `kind`, locals first.
pub open spec fn offsets32(symbols: Seq<Symbol>, kind: u8) -> Seq<u32> {
    section_offsets(bound_as(symbols, Visibility::Local), kind) + section_offsets(
        bound_as(symbols, Visibility::Global),
        kind,
    )
}

/// What the section headers of the 32-bit object of these inputs depend on.
pub open spec fn sections32_of(
    code: Seq<u8>,
    relocs: Seq<Relocation>,
    symbols: Seq<Symbol>,
    outpath: Seq<char>,
) -> Sections32 {
    Sections32 {
        code_len: code.len() as usize,
        data_len: data32(symbols, 1).len() as usize,
        rodata_len: data32(symbols, 2).len() as usize,
        bss_len: (bss_size(bound_as(symbols, Visibility::Local)) + bss_size(
            bound_as(symbols, Visibility::Global),
        )) as u64,
        data_align: section_align(offsets32(symbols, 1)),
        rodata_align: section_align(offsets32(symbols, 2)),
        bss_align: section_align(offsets32(symbols, 3)),
        has_data: has_kind(symbols, 1),
        has_rodata: has_kind(symbols, 2),
        has_bss: has_kind(symbols, 3),
        nsyms: symtab32(symbols, outpath).len() as usize,
        nlocal: (3 + bound_as(symbols, Visibility::Local).len()) as usize,
        strtab_len: symbol_strtab(symbols, outpath).len() as usize,
        nrel: relocs_with_addend(relocs, false).len() as usize,
        nrela: relocs_with_addend(relocs, true).len() as usize,
    }
}

/// A relocatable i386 ELF object holding `code` as `.text`, with `symbols` and `relocs`: the
/// file header; the code; the contents of `.data` and `.rodata`; the section headers; the
/// symbol table; the section-name and symbol string tables; the relocation entries without
/// addend, then those with one.
#[verifier::opaque]
pub open spec fn elf32_object(
    code: Seq<u8>,
    relocs: Seq<Relocation>,
    symbols: Seq<Symbol>,
    outpath: Seq<char>,
) -> Seq<u8> {
    let l = sections32_of(code, relocs, symbols, outpath);
    let rels = relocs_with_addend(relocs, false);
    let relas = relocs_with_addend(relocs, true);
    let table = symtab32(symbols, outpath);
    let strtab = symbol_strtab(symbols, outpath);
    elf32_ehdr_bytes(elf32_header(l)) + code + data32(symbols, 1) + data32(symbols, 2)
        + flat_shdrs32(elf32_shdrs(l)) + flat_syms32(table) + section_strtab32(l) + strtab
        + flat_rels32(rels32(rels, strtab, names32(table))) + flat_relas32(
        relas32(relas, rels, strtab, names32(table)),
    )
}

/// Why symbols and relocations cannot make a 32-bit object.
#[derive(Clone, Copy, Debug, PartialEq, Eq, Structural)]
pub enum Elf32Misfit {
    /// A `.data` or `.rodata` symbol has no content.
    NoContent,
    /// A `.bss` symbol has no size.
    NoSize,
    /// The offsets of the symbols of a data section go down.
    Descending,
    /// There are more relocations with an addend than without.
    ExtraAddends,
}

/// Each `.data` and `.rodata` symbol has content.
pub open spec fn contents_present(symbols: Seq<Symbol>) -> bool {
    forall|i: int|
        0 <= i < symbols.len() && (symbols[i].addt == 1 || symbols[i].addt == 2)
            ==> (#[trigger] symbols[i]).content.is_some()
}

/// Each `.bss` symbol has a size.
pub open spec fn sizes_present(symbols: Seq<Symbol>) -> bool {
    forall|i: int|
        0 <= i < symbols.len() && symbols[i].addt == 3 ==> (#[trigger] symbols[i]).size.is_some()
}

/// The symbols of each data section, locals first, have ascending offsets.
pub open spec fn offsets_ascend(symbols: Seq<Symbol>) -> bool {
    &&& ascending(offsets32(symbols, 1))
    &&& ascending(offsets32(symbols, 2))
    &&& ascending(offsets32(symbols, 3))
}

/// There are no more relocations with an addend than without.
pub open spec fn addends_fit(relocs: Seq<Relocation>) -> bool {
    relocs_with_addend(relocs, true).len() <= relocs_with_addend(relocs, false).len()
}

/// The first thing, in that order, that keeps symbols and relocations from making a 32-bit
/// object.
pub open spec fn spec_elf32_misfit(relocs: Seq<Relocation>, symbols: Seq<Symbol>) -> Option<
    Elf32Misfit,
> {
    if !contents_present(symbols) {
        Some(Elf32Misfit::NoContent)
    } else if !sizes_present(symbols) {
        Some(Elf32Misfit::NoSize)
    } else if !offsets_ascend(symbols) {
        Some(Elf32Misfit::Descending)
    } else if !addends_fit(relocs) {
        Some(Elf32Misfit::ExtraAddends)
    } else {
        None
    }
}

/// What a 32-bit object needs of its inputs: each `.data` and `.rodata` symbol has content
/// and each `.bss` one a size; the symbols of each of those sections have ascending offsets;
/// there are no more relocations with addend than without; the whole file fits the 32-bit
/// offsets of the format.
pub open spec fn elf32_inputs_ok(
    code: Seq<u8>,
    relocs: Seq<Relocation>,
    symbols: Seq<Symbol>,
    outpath: Seq<char>,
) -> bool {
    &&& contents_present(symbols)
    &&& sizes_present(symbols)
    &&& offsets_ascend(symbols)
    &&& addends_fit(relocs)
    &&& elf32_object(code, relocs, symbols, outpath).len() <= u32::MAX
}

/// Whether every `.data` and `.rodata` symbol has content.
fn all_have_content(symbols: &[Symbol]) -> (r: bool)
    ensures
        r == contents_present(symbols@),
{
    let mut i: usize = 0;
    while i < symbols.len()
        invariant
            i <= symbols@.len(),
            forall|j: int|
                0 <= j < i && (symbols@[j].addt == 1 || symbols@[j].addt == 2)
                    ==> (#[trigger] symbols@[j]).content.is_some(),
        decreases symbols@.len() - i,
    {
        let s = &symbols[i];
        if (s.addt == 1 || s.addt == 2) && s.content.is_none() {
            return false;
        }
        i = i + 1;
    }
    true
}

/// Whether every `.bss` symbol has a size.
fn all_have_size(symbols: &[Symbol]) -> (r: bool)
    ensures
        r == sizes_present(symbols@),
{
    let mut i: usize = 0;
    while i < symbols.len()
        invariant
            i <= symbols@.len(),
            forall|j: int|
                0 <= j < i && symbols@[j].addt == 3 ==> (#[trigger] symbols@[j]).size.is_some(),
        decreases symbols@.len() - i,
    {
        let s = &symbols[i];
        if s.addt == 3 && s.size.is_none() {
            return false;
        }
        i = i + 1;
    }
    true
}

/// Appends the offsets of the symbols bound as `vis` of section kind `kind`.
fn push_offsets(symbols: &[Symbol], vis: Visibility, kind: u8, offs: &mut Vec<u32>)
    ensures
        final(offs)@ == old(offs)@ + section_offsets(bound_as(symbols@, vis), kind),
{
    let mut i: usize = 0;
    while i < symbols.len()
        invariant
            i <= symbols@.len(),
            offs@ == old(offs)@ + section_offsets(bound_as(symbols@.take(i as int), vis), kind),
        decreases symbols@.len() - i,
    {
        let s = &symbols[i];
        let ghost prefix = bound_as(symbols@.take(i as int), vis);
        proof {
            assert(symbols@.take(i + 1).drop_last() =~= symbols@.take(i as int));
            assert(symbols@.take(i + 1).last() == *s);
        }
        if s.visibility == vis {
            assert(bound_as(symbols@.take(i + 1), vis) == prefix.push(*s));
            assert(prefix.push(*s).drop_last() =~= prefix);
            if s.addt == kind {
                offs.push(s.offset);
            }
        }
        i = i + 1;
        assert(offs@ =~= old(offs)@ + section_offsets(bound_as(symbols@.take(i as int), vis), kind));
    }
    assert(symbols@.take(symbols@.len() as int) =~= symbols@);
}

/// Whether the offsets `offs` never go down.
fn is_ascending(offs: &Vec<u32>) -> (r: bool)
    ensures
        r == ascending(offs@),
{
    let mut prev: u32 = 0;
    let mut k: usize = 0;
    while k < offs.len()
        invariant
            k <= offs@.len(),
            prev == prev_off(offs@, k as int),
            forall|j: int| 0 <= j < k ==> prev_off(offs@, j) <= #[trigger] offs@[j],
        decreases offs@.len() - k,
    {
        if offs[k] < prev {
            assert(!(prev_off(offs@, k as int) <= offs@[k as int]));
            return false;
        }
        prev = offs[k];
        k = k + 1;
    }
    true
}

/// Whether the symbols of section kind `kind`, locals first, have ascending offsets.
fn kind_ascends(symbols: &[Symbol], kind: u8) -> (r: bool)
    ensures
        r == ascending(offsets32(symbols@, kind)),
{
    let mut offs: Vec<u32> = Vec::new();
    push_offsets(symbols, Visibility::Local, kind, &mut offs);
    push_offsets(symbols, Visibility::Global, kind, &mut offs);
    assert(offs@ =~= offsets32(symbols@, kind));
    is_ascending(&offs)
}

/// Whether there are no more relocations with an addend than without.
fn addends_within(relocs: &Vec<Relocation>) -> (r: bool)
    ensures
        r == addends_fit(relocs@),
{
    let mut plain: usize = 0;
    let mut with: usize = 0;
    let mut i: usize = 0;
    while i < relocs.len()
        invariant
            i <= relocs@.len(),
            plain == relocs_with_addend(relocs@.take(i as int), false).len(),
            with == relocs_with_addend(relocs@.take(i as int), true).len(),
            plain + with == i,
        decreases relocs@.len() - i,
    {
        proof {
            assert(relocs@.take(i + 1).drop_last() =~= relocs@.take(i as int));
            assert(relocs@.take(i + 1).last() == relocs@[i as int]);
        }
        if relocs[i].addend == 0 {
            plain = plain + 1;
        } else {
            with = with + 1;
        }
        i = i + 1;
    }
    assert(relocs@.take(relocs@.len() as int) =~= relocs@);
    with <= plain
}

/// The first thing, in the order `spec_elf32_misfit` takes them, that keeps the symbols and
/// relocations from making a 32-bit object, if any; whether the whole file fits the format's
/// 32-bit offsets is left to the caller.
pub fn elf32_misfit(relocs: &Vec<Relocation>, symbols: &[Symbol]) -> (r: Option<Elf32Misfit>)
    ensures
        r == spec_elf32_misfit(relocs@, symbols@),
{
    if !all_have_content(symbols) {
        return Some(Elf32Misfit::NoContent);
    }
    if !all_have_size(symbols) {
        return Some(Elf32Misfit::NoSize);
    }
    if !kind_ascends(symbols, 1) || !kind_ascends(symbols, 2) || !kind_ascends(symbols, 3) {
        return Some(Elf32Misfit::Descending);
    }
    if !addends_within(relocs) {
        return Some(Elf32Misfit::ExtraAddends);
    }
    None
}

/// Whether some symbol of `symbols` is of section kind `kind`.
fn any_of_kind(symbols: &[Symbol], kind: u8) -> (r: bool)
    ensures
        r == has_kind(symbols@, kind),
{
    let mut i: usize = 0;
    while i < symbols.len()
        invariant
            i <= symbols@.len(),
            forall|j: int| 0 <= j < i ==> #[trigger] symbols@[j].addt != kind,
        decreases symbols@.len() - i,
    {
        if symbols[i].addt == kind {
            return true;
        }
        i = i + 1;
    }
    false
}

/// Appends the entries of the symbols of `symbols` bound as `vis`, and their names.
fn append_syms32(
    symbols: &[Symbol],
    vis: Visibility,
    has_data: bool,
    has_rodata: bool,
    table: &mut Vec<Elf32Sym>,
    strtab: &mut Vec<u8>,
)
    ensures
        final(table)@ == old(table)@ + syms32(
            bound_as(symbols@, vis),
            old(strtab)@.len() as int,
            has_data,
            has_rodata,
        ),
        final(strtab)@ == old(strtab)@ + names_blob(bound_as(symbols@, vis)),
{
    let ghost base = old(strtab)@.len() as int;
    let mut i: usize = 0;
    while i < symbols.len()
        invariant
            i <= symbols@.len(),
            base == old(strtab)@.len(),
            table@ == old(table)@ + syms32(
                bound_as(symbols@.take(i as int), vis),
                base,
                has_data,
                has_rodata,
            ),
            strtab@ == old(strtab)@ + names_blob(bound_as(symbols@.take(i as int), vis)),
        decreases symbols@.len() - i,
    {
        let s = &symbols[i];
        let ghost prefix = bound_as(symbols@.take(i as int), vis);
        proof {
            assert(symbols@.take(i + 1).drop_last() =~= symbols@.take(i as int));
            assert(symbols@.take(i + 1).last() == *s);
        }
        if s.visibility == vis {
            let d: u16 = if has_data {
                1
            } else {
                0
            };
            let r: u16 = if has_rodata {
                1
            } else {
                0
            };
            let shndx: u16 = if s.addt == 1 {
                2
            } else if s.addt == 2 {
                2 + d
            } else if s.addt == 3 {
                2 + d + r
            } else {
                s.sindex
            };
            let e = Elf32Sym {
                name: strtab.len() as u32,
                value: s.offset,
                size: match s.size {
                    Some(z) => z,
                    None => 0,
                },
                info: info_byte(s),
                other: 0,
                shndx,
            };
            assert(e == sym32_entry(*s, base + names_blob(prefix).len(), has_data, has_rodata));
            assert(prefix.push(*s).drop_last() =~= prefix);
            table.push(e);
            push_name(strtab, s.name.as_str());
            assert(bound_as(symbols@.take(i + 1), vis) == prefix.push(*s));
            assert(table@ =~= old(table)@ + syms32(prefix.push(*s), base, has_data, has_rodata));
            assert(strtab@ =~= old(strtab)@ + names_blob(prefix.push(*s)));
        } else {
            assert(bound_as(symbols@.take(i + 1), vis) == prefix);
        }
        i = i + 1;
    }
    assert(symbols@.take(symbols@.len() as int) =~= symbols@);
}

/// A sequence of symbols has one entry each.
proof fn lemma_syms32_len(s: Seq<Symbol>, base: int, d: bool, r: bool)
    ensures
        syms32(s, base, d, r).len() == s.len(),
    decreases s.len(),
{
    if s.len() > 0 {
        lemma_syms32_len(s.drop_last(), base, d, r);
    }
}

/// The symbol table of a 32-bit object, its string table, and the number of its local
/// entries.
fn build_symtab32(symbols: &[Symbol], outpath: &str, has_data: bool, has_rodata: bool) -> (r: (
    Vec<Elf32Sym>,
    Vec<u8>,
    usize,
))
    requires
        has_data == has_kind(symbols@, 1),
        has_rodata == has_kind(symbols@, 2),
    ensures
        r.0@ == symtab32(symbols@, outpath@),
        r.1@ == symbol_strtab(symbols@, outpath@),
        r.2 == 3 + bound_as(symbols@, Visibility::Local).len(),
{
    let mut strtab: Vec<u8> = Vec::new();
    strtab.push(0);
    let mut table: Vec<Elf32Sym> = Vec::new();
    table.push(Elf32Sym { name: 0, value: 0, size: 0, info: 0, other: 0, shndx: 0 });
    table.push(
        Elf32Sym {
            name: strtab.len() as u32,
            value: 0,
            size: 0,
            info: SymbolType::File.code(),
            other: 0,
            shndx: 0xFFF1,
        },
    );
    push_name(&mut strtab, outpath);
    table.push(
        Elf32Sym {
            name: strtab.len() as u32,
            value: 0,
            size: 0,
            info: SymbolType::Section.code(),
            other: 0,
            shndx: 1,
        },
    );
    push_section_name(&mut strtab, SectionName::Text);
    let ghost head = strtab@;
    let ghost front = table@;
    assert(head =~= strtab_head(outpath@));
    append_syms32(symbols, Visibility::Local, has_data, has_rodata, &mut table, &mut strtab);
    let nlocal = table.len();
    proof {
        lemma_syms32_len(
            bound_as(symbols@, Visibility::Local),
            head.len() as int,
            has_data,
            has_rodata,
        );
    }
    let ghost mid = strtab@;
    append_syms32(symbols, Visibility::Global, has_data, has_rodata, &mut table, &mut strtab);
    proof {
        let locals = bound_as(symbols@, Visibility::Local);
        assert(mid.len() == head.len() + names_blob(locals).len());
        assert(front =~= seq![
            plain_sym32(0, 0, 0),
            plain_sym32(1, spec_stype_code(SymbolType::File), 0xFFF1),
            plain_sym32((1 + name_entry(outpath@).len()) as int, spec_stype_code(SymbolType::Section), 1),
        ]);
        assert(table@ =~= symtab32(symbols@, outpath@));
        assert(strtab@ =~= symbol_strtab(symbols@, outpath@));
    }
    (table, strtab, nlocal)
}

/// Appends the content bytes and the offsets of the symbols of `symbols` bound as `vis` and
/// of section kind `kind`, and adds up their sizes.
fn collect_section(
    symbols: &[Symbol],
    vis: Visibility,
    kind: u8,
    data: &mut Vec<u8>,
    offs: &mut Vec<u32>,
    size: &mut u64,
)
    requires
        forall|i: int|
            0 <= i < symbols@.len() && (symbols@[i].addt == 1 || symbols@[i].addt == 2)
                ==> (#[trigger] symbols@[i]).content.is_some(),
        *old(size) + bss_size(bound_as(symbols@, vis)) <= u64::MAX,
        1 <= kind <= 3,
    ensures
        kind != 3 ==> final(data)@ == old(data)@ + section_data(bound_as(symbols@, vis), kind),
        final(offs)@ == old(offs)@ + section_offsets(bound_as(symbols@, vis), kind),
        kind == 3 ==> *final(size) == *old(size) + bss_size(bound_as(symbols@, vis)),
        kind != 3 ==> *final(size) == *old(size),
{
    let mut i: usize = 0;
    while i < symbols.len()
        invariant
            i <= symbols@.len(),
            forall|i: int|
                0 <= i < symbols@.len() && (symbols@[i].addt == 1 || symbols@[i].addt == 2)
                    ==> (#[trigger] symbols@[i]).content.is_some(),
            *old(size) + bss_size(bound_as(symbols@, vis)) <= u64::MAX,
            1 <= kind <= 3,
            kind != 3 ==> data@ == old(data)@ + section_data(
                bound_as(symbols@.take(i as int), vis),
                kind,
            ),
            offs@ == old(offs)@ + section_offsets(bound_as(symbols@.take(i as int), vis), kind),
            kind == 3 ==> *size == *old(size) + bss_size(bound_as(symbols@.take(i as int), vis)),
            kind != 3 ==> *size == *old(size),
        decreases symbols@.len() - i,
    {
        let s = &symbols[i];
        let ghost prefix = bound_as(symbols@.take(i as int), vis);
        proof {
            assert(symbols@.take(i + 1).drop_last() =~= symbols@.take(i as int));
            assert(symbols@.take(i + 1).last() == *s);
            lemma_bss_size_prefix(symbols@, vis, i + 1);
        }
        if s.visibility == vis {
            assert(bound_as(symbols@.take(i + 1), vis) == prefix.push(*s));
            assert(prefix.push(*s).drop_last() =~= prefix);
            if s.addt == kind {
                if kind == 3 {
                    let z: u32 = match s.size {
                        Some(z) => z,
                        None => 0,
                    };
                    *size = *size + z as u64;
                } else if kind == 1 || kind == 2 {
                    match &s.content {
                        Some(c) => {
                            let b = c.bytes();
                            push_all(data, b.as_slice());
                        },
                        None => {},
                    }
                }
                offs.push(s.offset);
            }
            assert(kind != 3 ==> data@ =~= old(data)@ + section_data(prefix.push(*s), kind));
            assert(offs@ =~= old(offs)@ + section_offsets(prefix.push(*s), kind));
        } else {
            assert(bound_as(symbols@.take(i + 1), vis) == prefix);
        }
        i = i + 1;
    }
    assert(symbols@.take(symbols@.len() as int) =~= symbols@);
}

/// The sizes of the `.bss` symbols of a prefix add up to no more than those of the whole.
proof fn lemma_bss_size_prefix(s: Seq<Symbol>, vis: Visibility, i: int)
    requires
        0 <= i <= s.len(),
    ensures
        bss_size(bound_as(s.take(i), vis)) <= bss_size(bound_as(s, vis)),
    decreases s.len() - i,
{
    if i < s.len() {
        lemma_bss_size_prefix(s, vis, i + 1);
        let t = s.take(i + 1);
        assert(t.drop_last() =~= s.take(i));
        if t.last().visibility == vis {
            assert(bound_as(t, vis).drop_last() =~= bound_as(s.take(i), vis));
        }
    } else {
        assert(s.take(i) =~= s);
    }
}

/// The alignment of a data section whose symbols start at `offs`, as `calc_lsize` gives it.
fn section_alignment(offs: &Vec<u32>) -> (r: u32)
    requires
        ascending(offs@),
    ensures
        r == section_align(offs@),
{
    let mut symbs: Vec<(String, u32, u32, Option<VarContent>)> = Vec::new();
    let mut i: usize = 0;
    while i < offs.len()
        invariant
            i <= offs@.len(),
            symbs@.len() == i,
            forall|k: int| 0 <= k < i ==> (#[trigger] symbs@[k]).1 == offs@[k],
            forall|k: int| 0 <= k < i ==> (#[trigger] symbs@[k]).3.is_none(),
        decreases offs@.len() - i,
    {
        symbs.push((String::new(), offs[i], 0, None));
        i = i + 1;
    }
    proof {
        assert forall|k: int| 0 <= k < symbs@.len() implies prev_offset(symbs@, k) == prev_off(
            offs@,
            k,
        ) && prev_offset(symbs@, k) <= #[trigger] symbs@[k].1 by {
            if k > 0 {
                assert(symbs@[k - 1].1 == offs@[k - 1]);
            }
            assert(prev_off(offs@, k) <= offs@[k]);
        }
    }
    let r = calc_lsize(symbs.as_slice());
    proof {
        if exists|k: int| 0 <= k < offs@.len() && (#[trigger] offs@[k] - prev_off(offs@, k)) % 4 == 0 {
            let k = choose|k: int|
                0 <= k < offs@.len() && (#[trigger] offs@[k] - prev_off(offs@, k)) % 4 == 0;
            assert(word_aligned_gap(symbs@, k));
        }
        if exists|k: int| 0 <= k < symbs@.len() && #[trigger] word_aligned_gap(symbs@, k) {
            let k = choose|k: int| 0 <= k < symbs@.len() && #[trigger] word_aligned_gap(symbs@, k);
            assert((offs@[k] - prev_off(offs@, k)) % 4 == 0);
        }
    }
    r
}

/// What a 32-bit object's section headers need to fit its 32-bit offsets.
pub open spec fn shdrs32_fit(l: Sections32) -> bool {
    symoff32(l) + 16 * l.nsyms + section_strtab32(l).len() + l.strtab_len + 8 * l.nrel + 12
        * l.nrela <= u32::MAX
}

/// The offset of `.text` in the section-name string table, and the number of sections.
fn section_names32(l: &Sections32) -> (r: (usize, usize, usize))
    ensures
        r.0 == text_name32(*l),
        r.1 == section_count32(*l),
        r.2 == data_sections(*l),
{
    let mut shnum: usize = 5;
    let mut text_name: usize = 1;
    if l.nrel > 0 {
        shnum = shnum + 1;
        text_name = text_name + 10;
    }
    if l.nrela > 0 {
        shnum = shnum + 1;
        text_name = text_name + 11;
    }
    let mut modf: usize = 0;
    if l.has_data {
        modf = modf + 1;
    }
    if l.has_rodata {
        modf = modf + 1;
    }
    if l.has_bss {
        modf = modf + 1;
    }
    (text_name, shnum + modf, modf)
}

/// Appends the `.data`, `.rodata` and `.bss` section headers.
fn push_data_shdrs32(r: &mut Vec<Elf32Shdr>, l: &Sections32, text_name: usize)
    requires
        text_name == text_name32(*l),
        shdrs32_fit(*l),
    ensures
        final(r)@ == old(r)@ + data_shdrs32(*l),
{
    let data_name: usize = text_name + 32;
    let mut rodata_name: usize = data_name;
    if l.has_data {
        rodata_name = rodata_name + 6;
    }
    let mut bss_name: usize = rodata_name;
    if l.has_rodata {
        bss_name = bss_name + 8;
    }
    let data_off: usize = 52 + l.code_len;
    let ghost start = r@;
    if l.has_data {
        r.push(
            Elf32Shdr {
                name: data_name as u32,
                etype: 1,
                flags: 3,
                addr: 0,
                offset: data_off as u32,
                size: l.data_len as u32,
                link: 0,
                info: 0,
                addralign: l.data_align,
                entsize: 0,
            },
        );
    }
    let ghost after_data = r@;
    if l.has_rodata {
        r.push(
            Elf32Shdr {
                name: rodata_name as u32,
                etype: 1,
                flags: 2,
                addr: 0,
                offset: (data_off + l.data_len) as u32,
                size: l.data_len as u32,
                link: 0,
                info: 0,
                addralign: l.rodata_align,
                entsize: 0,
            },
        );
    }
    let ghost after_rodata = r@;
    if l.has_bss {
        r.push(
            Elf32Shdr {
                name: bss_name as u32,
                etype: 8,
                flags: 3,
                addr: 0,
                offset: data_off as u32,
                size: l.bss_len as u32,
                link: 0,
                info: 0,
                addralign: l.bss_align,
                entsize: 0,
            },
        );
    }
    assert(r@ =~= old(r)@ + data_shdrs32(*l));
}

/// Appends the `.symtab`, `.shstrtab` and `.strtab` section headers.
fn push_table_shdrs32(r: &mut Vec<Elf32Shdr>, l: &Sections32, text_name: usize, shnum: usize, modf: usize)
    requires
        text_name == text_name32(*l),
        shnum == section_count32(*l),
        modf == data_sections(*l),
        shdrs32_fit(*l),
    ensures
        final(r)@ == old(r)@ + table_shdrs32(*l),
{
    let mut shstr_len: usize = text_name + 32;
    if l.has_data {
        shstr_len = shstr_len + 6;
    }
    if l.has_rodata {
        shstr_len = shstr_len + 8;
    }
    if l.has_bss {
        shstr_len = shstr_len + 5;
    }
    assert(shstr_len == section_strtab32(*l).len());
    let symoff: usize = 52 + l.code_len + l.data_len + l.rodata_len + 40 * shnum;
    let shstroff: usize = symoff + 16 * l.nsyms;
    let stroff: usize = shstroff + shstr_len;
    r.push(
        Elf32Shdr {
            name: (text_name + 6) as u32,
            etype: 2,
            flags: 0,
            addr: 0,
            offset: symoff as u32,
            size: (16 * l.nsyms) as u32,
            link: (4 + modf) as u32,
            info: l.nlocal as u32,
            addralign: 0,
            entsize: 16,
        },
    );
    r.push(
        Elf32Shdr {
            name: (text_name + 14) as u32,
            etype: 3,
            flags: 0,
            addr: 0,
            offset: shstroff as u32,
            size: shstr_len as u32,
            link: 0,
            info: 0,
            addralign: 1,
            entsize: 0,
        },
    );
    r.push(
        Elf32Shdr {
            name: (text_name + 24) as u32,
            etype: 3,
            flags: 0,
            addr: 0,
            offset: stroff as u32,
            size: l.strtab_len as u32,
            link: 0,
            info: 0,
            addralign: 0,
            entsize: 0,
        },
    );
    assert(r@ =~= old(r)@ + table_shdrs32(*l));
}

/// Appends the `.rel.text` and `.rela.text` section headers.
fn push_reloc_shdrs32(r: &mut Vec<Elf32Shdr>, l: &Sections32, text_name: usize, shnum: usize, modf: usize)
    requires
        text_name == text_name32(*l),
        shnum == section_count32(*l),
        modf == data_sections(*l),
        shdrs32_fit(*l),
    ensures
        final(r)@ == old(r)@ + reloc_shdrs32(*l),
{
    let mut shstr_len: usize = text_name + 32;
    if l.has_data {
        shstr_len = shstr_len + 6;
    }
    if l.has_rodata {
        shstr_len = shstr_len + 8;
    }
    if l.has_bss {
        shstr_len = shstr_len + 5;
    }
    assert(shstr_len == section_strtab32(*l).len());
    let reloff: usize = 52 + l.code_len + l.data_len + l.rodata_len + 40 * shnum + 16 * l.nsyms
        + shstr_len + l.strtab_len;
    let mut rela_name: usize = 1;
    if l.nrel > 0 {
        rela_name = 11;
        r.push(
            Elf32Shdr {
                name: 1,
                etype: 9,
                flags: 0,
                addr: 0,
                offset: reloff as u32,
                size: (8 * l.nrel) as u32,
                link: (modf + 2) as u32,
                info: 1,
                addralign: 0,
                entsize: 8,
            },
        );
    }
    let ghost mid = r@;
    if l.nrela > 0 {
        r.push(
            Elf32Shdr {
                name: rela_name as u32,
                etype: 4,
                flags: 0,
                addr: 0,
                offset: (reloff + 8 * l.nrel) as u32,
                size: (12 * l.nrela) as u32,
                link: (modf + 2) as u32,
                info: 1,
                addralign: 0,
                entsize: 12,
            },
        );
    }
    assert(r@ =~= old(r)@ + reloc_shdrs32(*l));
}

/// The section headers of a 32-bit object, as `elf32_shdrs` lays them out.
fn section_headers32(l: &Sections32) -> (r: Vec<Elf32Shdr>)
    requires
        shdrs32_fit(*l),
    ensures
        r@ == elf32_shdrs(*l),
{
    let (text_name, shnum, modf) = section_names32(l);
    let mut r: Vec<Elf32Shdr> = Vec::new();
    r.push(
        Elf32Shdr {
            name: 0,
            etype: 0,
            flags: 0,
            addr: 0,
            offset: 0,
            size: 0,
            link: 0,
            info: 0,
            addralign: 0,
            entsize: 0,
        },
    );
    r.push(
        Elf32Shdr {
            name: text_name as u32,
            etype: 1,
            flags: 6,
            addr: 0,
            offset: 52,
            size: l.code_len as u32,
            link: 0,
            info: 0,
            addralign: 16,
            entsize: 0,
        },
    );
    assert(r@ =~= head_shdrs32(*l));
    push_data_shdrs32(&mut r, l, text_name);
    push_table_shdrs32(&mut r, l, text_name, shnum, modf);
    push_reloc_shdrs32(&mut r, l, text_name, shnum, modf);
    r
}

/// The name offsets of the entries of a symbol table.
fn name_offsets32(table: &Vec<Elf32Sym>) -> (r: Vec<u32>)
    ensures
        r@ == names32(table@),
{
    let mut r: Vec<u32> = Vec::new();
    let mut i: usize = 0;
    while i < table.len()
        invariant
            i <= table@.len(),
            r@ == names32(table@).take(i as int),
        decreases table@.len() - i,
    {
        r.push(table[i].name);
        i = i + 1;
        assert(r@ =~= names32(table@).take(i as int));
    }
    assert(r@ =~= names32(table@));
    r
}

/// The `r_info` of a 32-bit relocation whose symbol is at `idx`, where one was found.
fn reloc_info32(r: &Relocation, idx: Option<usize>) -> (info: u32)
    ensures
        info == info32(*r, match idx {
            Some(k) => Some(k as int),
            None => None,
        }),
{
    let code = r.rtype.code();
    match idx {
        Some(k) => {
            let hi = (k as u32) << 8u32;
            assert(hi <= 0xffff_ff00u32) by (bit_vector)
                requires
                    hi == (k as u32) << 8u32,
            ;
            code + hi
        },
        None => code,
    }
}

/// The relocation entries without addend of `rels`.
fn rel_entries32(rels: &Vec<Relocation>, strtab: &Vec<u8>, offs: &Vec<u32>) -> (r: Vec<Elf32Rel>)
    ensures
        r@ == rels32(rels@, strtab@, offs@),
{
    let mut r: Vec<Elf32Rel> = Vec::new();
    let mut i: usize = 0;
    while i < rels.len()
        invariant
            i <= rels@.len(),
            r@ == rels32(rels@, strtab@, offs@).take(i as int),
        decreases rels@.len() - i,
    {
        let idx = find_named(strtab.as_slice(), offs.as_slice(), rels[i].symbol.as_str());
        r.push(Elf32Rel { offset: rels[i].offset as u32, info: reloc_info32(&rels[i], idx) });
        i = i + 1;
        assert(r@ =~= rels32(rels@, strtab@, offs@).take(i as int));
    }
    assert(r@ =~= rels32(rels@, strtab@, offs@));
    r
}

/// The relocation entries with addend of `relas`, each resolved by the name of the
/// relocation without addend at the same position.
fn rela_entries32(
    relas: &Vec<Relocation>,
    rels: &Vec<Relocation>,
    strtab: &Vec<u8>,
    offs: &Vec<u32>,
) -> (r: Vec<Elf32Rela>)
    requires
        relas@.len() <= rels@.len(),
    ensures
        r@ == relas32(relas@, rels@, strtab@, offs@),
{
    let mut r: Vec<Elf32Rela> = Vec::new();
    let mut i: usize = 0;
    while i < relas.len()
        invariant
            i <= relas@.len(),
            relas@.len() <= rels@.len(),
            r@ == relas32(relas@, rels@, strtab@, offs@).take(i as int),
        decreases relas@.len() - i,
    {
        let idx = find_named(strtab.as_slice(), offs.as_slice(), rels[i].symbol.as_str());
        r.push(
            Elf32Rela {
                offset: relas[i].offset as u32,
                info: reloc_info32(&relas[i], idx),
                addend: relas[i].addend,
            },
        );
        i = i + 1;
        assert(r@ =~= relas32(relas@, rels@, strtab@, offs@).take(i as int));
    }
    assert(r@ =~= relas32(relas@, rels@, strtab@, offs@));
    r
}

/// The bytes of a sequence of symbols are 16 per symbol.
proof fn lemma_flat_syms32_len(s: Seq<Elf32Sym>)
    ensures
        flat_syms32(s).len() == 16 * s.len(),
    decreases s.len(),
{
    if s.len() > 0 {
        lemma_flat_syms32_len(s.drop_last());
    }
}

/// The bytes of a sequence of relocations without addend are 8 per relocation.
proof fn lemma_flat_rels32_len(s: Seq<Elf32Rel>)
    ensures
        flat_rels32(s).len() == 8 * s.len(),
    decreases s.len(),
{
    if s.len() > 0 {
        lemma_flat_rels32_len(s.drop_last());
    }
}

/// The bytes of a sequence of relocations with addend are 12 per relocation.
proof fn lemma_flat_relas32_len(s: Seq<Elf32Rela>)
    ensures
        flat_relas32(s).len() == 12 * s.len(),
    decreases s.len(),
{
    if s.len() > 0 {
        lemma_flat_relas32_len(s.drop_last());
    }
}

/// The bytes of a sequence of section headers are 40 per header.
proof fn lemma_flat_shdrs32_len(s: Seq<Elf32Shdr>)
    ensures
        flat_shdrs32(s).len() == 40 * s.len(),
    decreases s.len(),
{
    if s.len() > 0 {
        lemma_flat_shdrs32_len(s.drop_last());
    }
}

/// Appends the bytes of each symbol in turn.
fn push_syms32(bytes: &mut Vec<u8>, s: &Vec<Elf32Sym>)
    ensures
        final(bytes)@ == old(bytes)@ + flat_syms32(s@),
{
    let mut i: usize = 0;
    while i < s.len()
        invariant
            i <= s@.len(),
            bytes@ == old(bytes)@ + flat_syms32(s@.take(i as int)),
        decreases s@.len() - i,
    {
        let b = s[i].bytes();
        push_all(bytes, b.as_slice());
        proof {
            assert(s@.take(i + 1).drop_last() =~= s@.take(i as int));
        }
        i = i + 1;
        assert(bytes@ =~= old(bytes)@ + flat_syms32(s@.take(i as int)));
    }
    assert(s@.take(s@.len() as int) =~= s@);
}

/// Appends the bytes of each relocation without addend in turn.
fn push_rels32(bytes: &mut Vec<u8>, s: &Vec<Elf32Rel>)
    ensures
        final(bytes)@ == old(bytes)@ + flat_rels32(s@),
{
    let mut i: usize = 0;
    while i < s.len()
        invariant
            i <= s@.len(),
            bytes@ == old(bytes)@ + flat_rels32(s@.take(i as int)),
        decreases s@.len() - i,
    {
        let b = s[i].bytes();
        push_all(bytes, b.as_slice());
        proof {
            assert(s@.take(i + 1).drop_last() =~= s@.take(i as int));
        }
        i = i + 1;
        assert(bytes@ =~= old(bytes)@ + flat_rels32(s@.take(i as int)));
    }
    assert(s@.take(s@.len() as int) =~= s@);
}

/// Appends the bytes of each relocation with addend in turn.
fn push_relas32(bytes: &mut Vec<u8>, s: &Vec<Elf32Rela>)
    ensures
        final(bytes)@ == old(bytes)@ + flat_relas32(s@),
{
    let mut i: usize = 0;
    while i < s.len()
        invariant
            i <= s@.len(),
            bytes@ == old(bytes)@ + flat_relas32(s@.take(i as int)),
        decreases s@.len() - i,
    {
        let b = s[i].bytes();
        push_all(bytes, b.as_slice());
        proof {
            assert(s@.take(i + 1).drop_last() =~= s@.take(i as int));
        }
        i = i + 1;
        assert(bytes@ =~= old(bytes)@ + flat_relas32(s@.take(i as int)));
    }
    assert(s@.take(s@.len() as int) =~= s@);
}

/// Appends the bytes of each section header in turn.
fn push_shdrs32(bytes: &mut Vec<u8>, s: &Vec<Elf32Shdr>)
    ensures
        final(bytes)@ == old(bytes)@ + flat_shdrs32(s@),
{
    let mut i: usize = 0;
    while i < s.len()
        invariant
            i <= s@.len(),
            bytes@ == old(bytes)@ + flat_shdrs32(s@.take(i as int)),
        decreases s@.len() - i,
    {
        let b = s[i].bytes();
        push_all(bytes, b.as_slice());
        proof {
            assert(s@.take(i + 1).drop_last() =~= s@.take(i as int));
        }
        i = i + 1;
        assert(bytes@ =~= old(bytes)@ + flat_shdrs32(s@.take(i as int)));
    }
    assert(s@.take(s@.len() as int) =~= s@);
}

/// The `.bss` sizes of a sequence of symbols add up to no more than the largest size each.
proof fn lemma_bss_size_bound(s: Seq<Symbol>)
    ensures
        0 <= bss_size(s) <= s.len() * 0xffff_ffff,
    decreases s.len(),
{
    if s.len() > 0 {
        lemma_bss_size_bound(s.drop_last());
    }
}

/// Every symbol is either local or global.
proof fn lemma_bound_as_split(s: Seq<Symbol>)
    ensures
        bound_as(s, Visibility::Local).len() + bound_as(s, Visibility::Global).len() == s.len(),
    decreases s.len(),
{
    if s.len() > 0 {
        lemma_bound_as_split(s.drop_last());
    }
}

/// The symbol table of a 32-bit object has three leading entries and one per symbol.
proof fn lemma_symtab32_len(symbols: Seq<Symbol>, outpath: Seq<char>)
    ensures
        symtab32(symbols, outpath).len() == 3 + symbols.len(),
{
    let locals = bound_as(symbols, Visibility::Local);
    let globals = bound_as(symbols, Visibility::Global);
    let d = has_kind(symbols, 1);
    let r = has_kind(symbols, 2);
    lemma_bound_as_split(symbols);
    lemma_syms32_len(locals, strtab_head(outpath).len() as int, d, r);
    lemma_syms32_len(globals, (strtab_head(outpath).len() + names_blob(locals).len()) as int, d, r);
}

/// A 32-bit object has one section header per section.
proof fn lemma_elf32_shdrs_len(l: Sections32)
    ensures
        elf32_shdrs(l).len() == section_count32(l),
{
    assert(head_shdrs32(l).len() == 2);
    assert(data_shdrs32(l).len() == data_sections(l));
    assert(table_shdrs32(l).len() == 3);
    assert(reloc_shdrs32(l).len() == one_if(l.nrel > 0) + one_if(l.nrela > 0));
}

/// The length of a 32-bit object, part by part.
proof fn lemma_elf32_object_len(
    code: Seq<u8>,
    relocs: Seq<Relocation>,
    symbols: Seq<Symbol>,
    outpath: Seq<char>,
)
    ensures
        ({
            let l = sections32_of(code, relocs, symbols, outpath);
            let rels = relocs_with_addend(relocs, false);
            let relas = relocs_with_addend(relocs, true);
            let table = symtab32(symbols, outpath);
            elf32_object(code, relocs, symbols, outpath).len() == 52 + code.len() + data32(
                symbols,
                1,
            ).len() + data32(symbols, 2).len() + 40 * section_count32(l) + 16 * table.len()
                + section_strtab32(l).len() + symbol_strtab(symbols, outpath).len() + 8
                * rels.len() + 12 * relas.len()
        }),
{
    reveal(elf32_object);
    let l = sections32_of(code, relocs, symbols, outpath);
    let rels = relocs_with_addend(relocs, false);
    let relas = relocs_with_addend(relocs, true);
    let table = symtab32(symbols, outpath);
    let strtab = symbol_strtab(symbols, outpath);
    let shdrs = elf32_shdrs(l);
    let rel_entries = rels32(rels, strtab, names32(table));
    let rela_entries = relas32(relas, rels, strtab, names32(table));
    lemma_elf32_shdrs_len(l);
    lemma_flat_shdrs32_len(shdrs);
    lemma_flat_syms32_len(table);
    lemma_flat_rels32_len(rel_entries);
    lemma_flat_relas32_len(rela_entries);
    assert(elf32_object(code, relocs, symbols, outpath) == elf32_ehdr_bytes(elf32_header(l))
        + code + data32(symbols, 1) + data32(symbols, 2) + flat_shdrs32(shdrs) + flat_syms32(
        table,
    ) + section_strtab32(l) + strtab + flat_rels32(rel_entries) + flat_relas32(rela_entries));
}

/// The `.bss` sizes of a few symbols add up to a 64-bit number.
proof fn lemma_bss_fits(symbols: Seq<Symbol>)
    requires
        symbols.len() <= 0x1000_0000,
    ensures
        0 <= bss_size(bound_as(symbols, Visibility::Local)),
        0 <= bss_size(bound_as(symbols, Visibility::Global)),
        bss_size(bound_as(symbols, Visibility::Local)) + bss_size(
            bound_as(symbols, Visibility::Global),
        ) <= u64::MAX,
{
    let locals = bound_as(symbols, Visibility::Local);
    let globals = bound_as(symbols, Visibility::Global);
    lemma_bound_as_split(symbols);
    lemma_bss_size_bound(locals);
    lemma_bss_size_bound(globals);
    assert(locals.len() * 0xffff_ffff + globals.len() * 0xffff_ffff <= u64::MAX)
        by (nonlinear_arith)
        requires
            locals.len() + globals.len() <= 0x1000_0000,
    ;
}

/// Builds a relocatable i386 ELF object holding `code` as its `.text` section, the contents
/// of `.data` and `.rodata` variables after it, with the symbols of `symbols` (locals first)
/// and the relocations of `relocs`, named after `outpath` in its file symbol: the bytes are
/// those of `elf32_object`.
pub fn make_elf32(code: &[u8], relocs: Vec<Relocation>, symbols: &[Symbol], outpath: &str) -> (r:
    Vec<u8>)
    requires
        elf32_inputs_ok(code@, relocs@, symbols@, outpath@),
    ensures
        r@ == elf32_object(code@, relocs@, symbols@, outpath@),
{
    let ghost all_relocs = relocs@;
    proof {
        reveal(elf32_object);
        lemma_elf32_object_len(code@, all_relocs, symbols@, outpath@);
        lemma_elf32_shdrs_len(sections32_of(code@, all_relocs, symbols@, outpath@));
        lemma_symtab32_len(symbols@, outpath@);
        lemma_bss_fits(symbols@);
    }
    let (rels, relas) = split_relocs(relocs);
    let has_data = any_of_kind(symbols, 1);
    let has_rodata = any_of_kind(symbols, 2);
    let has_bss = any_of_kind(symbols, 3);
    let (table, strtab, nlocal) = build_symtab32(symbols, outpath, has_data, has_rodata);
    let mut data: Vec<u8> = Vec::new();
    let mut data_offs: Vec<u32> = Vec::new();
    let mut rodata: Vec<u8> = Vec::new();
    let mut rodata_offs: Vec<u32> = Vec::new();
    let mut bss_offs: Vec<u32> = Vec::new();
    let mut unused: Vec<u8> = Vec::new();
    let mut no_size: u64 = 0;
    let mut bss_len: u64 = 0;
    collect_section(symbols, Visibility::Local, 1, &mut data, &mut data_offs, &mut no_size);
    collect_section(symbols, Visibility::Global, 1, &mut data, &mut data_offs, &mut no_size);
    collect_section(symbols, Visibility::Local, 2, &mut rodata, &mut rodata_offs, &mut no_size);
    collect_section(symbols, Visibility::Global, 2, &mut rodata, &mut rodata_offs, &mut no_size);
    collect_section(symbols, Visibility::Local, 3, &mut unused, &mut bss_offs, &mut bss_len);
    collect_section(symbols, Visibility::Global, 3, &mut unused, &mut bss_offs, &mut bss_len);
    assert(data@ =~= data32(symbols@, 1));
    assert(rodata@ =~= data32(symbols@, 2));
    assert(data_offs@ =~= offsets32(symbols@, 1));
    assert(rodata_offs@ =~= offsets32(symbols@, 2));
    assert(bss_offs@ =~= offsets32(symbols@, 3));
    let data_align = section_alignment(&data_offs);
    let rodata_align = section_alignment(&rodata_offs);
    let bss_align = section_alignment(&bss_offs);
    let l = Sections32 {
        code_len: code.len(),
        data_len: data.len(),
        rodata_len: rodata.len(),
        bss_len,
        data_align,
        rodata_align,
        bss_align,
        has_data,
        has_rodata,
        has_bss,
        nsyms: table.len(),
        nlocal,
        strtab_len: strtab.len(),
        nrel: rels.len(),
        nrela: relas.len(),
    };
    assert(l == sections32_of(code@, all_relocs, symbols@, outpath@));
    let offs = name_offsets32(&table);
    let rel_entries = rel_entries32(&rels, &strtab, &offs);
    let rela_entries = rela_entries32(&relas, &rels, &strtab, &offs);
    let shdrs = section_headers32(&l);
    let (_text_name, shnum, modf) = section_names32(&l);
    let mut shstrtab: Vec<u8> = Vec::new();
    shstrtab.push(0);
    if rels.len() > 0 {
        push_section_name(&mut shstrtab, SectionName::RelText);
    }
    if relas.len() > 0 {
        push_section_name(&mut shstrtab, SectionName::RelaText);
    }
    push_section_name(&mut shstrtab, SectionName::Text);
    push_section_name(&mut shstrtab, SectionName::Symtab);
    push_section_name(&mut shstrtab, SectionName::Shstrtab);
    push_section_name(&mut shstrtab, SectionName::Strtab);
    if has_data {
        push_section_name(&mut shstrtab, SectionName::Data);
    }
    if has_rodata {
        push_section_name(&mut shstrtab, SectionName::Rodata);
    }
    if has_bss {
        push_section_name(&mut shstrtab, SectionName::Bss);
    }
    assert(shstrtab@ =~= section_strtab32(l));
    let header = Elf32Ehdr {
        ident: make_ident(1),
        etype: 1,
        machine: 3,
        version: 1,
        entry: 0,
        phoff: 0,
        shoff: (52 + code.len() + data.len() + rodata.len()) as u32,
        flags: 0,
        ehsize: 52,
        phentsize: 0,
        phnum: 0,
        shentsize: 40,
        shnum: shnum as u16,
        shstrndx: (3 + modf) as u16,
    };
    assert(header == elf32_header(l));
    let mut bytes = header.bytes();
    push_all(&mut bytes, code);
    push_all(&mut bytes, data.as_slice());
    push_all(&mut bytes, rodata.as_slice());
    push_shdrs32(&mut bytes, &shdrs);
    push_syms32(&mut bytes, &table);
    push_all(&mut bytes, shstrtab.as_slice());
    push_all(&mut bytes, strtab.as_slice());
    push_rels32(&mut bytes, &rel_entries);
    push_relas32(&mut bytes, &rela_entries);
    bytes
}

/// The bytes of the section header at position `i` of a sequence stand at `40 * i` in their
/// bytes.
proof fn lemma_flat_shdrs32_at(s: Seq<Elf32Shdr>, i: int)
    requires
        0 <= i < s.len(),
    ensures
        flat_shdrs32(s).subrange(40 * i, 40 * i + 40) == elf32_shdr_bytes(s[i]),
    decreases s.len(),
{
    let a = flat_shdrs32(s.drop_last());
    lemma_flat_shdrs32_len(s.drop_last());
    if i == s.len() - 1 {
        assert(flat_shdrs32(s).subrange(40 * i, 40 * i + 40) =~= elf32_shdr_bytes(s[i]));
    } else {
        lemma_flat_shdrs32_at(s.drop_last(), i);
        assert(flat_shdrs32(s).subrange(40 * i, 40 * i + 40) =~= a.subrange(40 * i, 40 * i + 40));
    }
}

/// What follows the section headers in the 32-bit object of these inputs.
#[verifier::opaque]
pub open spec fn object_tail32(
    code: Seq<u8>,
    relocs: Seq<Relocation>,
    symbols: Seq<Symbol>,
    outpath: Seq<char>,
) -> Seq<u8> {
    let l = sections32_of(code, relocs, symbols, outpath);
    let rels = relocs_with_addend(relocs, false);
    let relas = relocs_with_addend(relocs, true);
    let table = symtab32(symbols, outpath);
    let strtab = symbol_strtab(symbols, outpath);
    flat_syms32(table) + section_strtab32(l) + strtab + flat_rels32(
        rels32(rels, strtab, names32(table)),
    ) + flat_relas32(relas32(relas, rels, strtab, names32(table)))
}

/// A 32-bit object is its header, its code, its `.data` and `.rodata` contents, its section
/// headers and the rest.
proof fn lemma_elf32_object_split(
    code: Seq<u8>,
    relocs: Seq<Relocation>,
    symbols: Seq<Symbol>,
    outpath: Seq<char>,
)
    ensures
        elf32_object(code, relocs, symbols, outpath) == elf32_ehdr_bytes(
            elf32_header(sections32_of(code, relocs, symbols, outpath)),
        ) + code + data32(symbols, 1) + data32(symbols, 2) + flat_shdrs32(
            elf32_shdrs(sections32_of(code, relocs, symbols, outpath)),
        ) + object_tail32(code, relocs, symbols, outpath),
{
    reveal(elf32_object);
    reveal(object_tail32);
}

/// The second section header of a 32-bit object is that of `.text`: the code right after the
/// file header.
proof fn lemma_text_shdr32(l: Sections32)
    ensures
        elf32_shdrs(l).len() >= 5,
        elf32_shdrs(l)[1].offset == 52,
        elf32_shdrs(l)[1].size == l.code_len as u32,
{
    lemma_elf32_shdrs_len(l);
}

/// Where each piece of a 32-bit object stands in it.
proof fn lemma_object32_pieces(
    obj: Seq<u8>,
    hb: Seq<u8>,
    code: Seq<u8>,
    data: Seq<u8>,
    rodata: Seq<u8>,
    fb: Seq<u8>,
    tail: Seq<u8>,
)
    requires
        obj == hb + code + data + rodata + fb + tail,
        hb.len() == 52,
    ensures
        obj.subrange(0, 52) == hb,
        obj.subrange(52, 52 + code.len() as int) == code,
        obj.subrange(52 + code.len() as int, 52 + code.len() as int + data.len() as int) == data,
        ({
            let shoff = 52 + code.len() as int + data.len() as int + rodata.len() as int;
            obj.subrange(shoff, shoff + fb.len() as int) == fb
        }),
{
    let shoff = 52 + code.len() as int + data.len() as int + rodata.len() as int;
    assert(obj.subrange(0, 52) =~= hb);
    assert(obj.subrange(52, 52 + code.len() as int) =~= code);
    assert(obj.subrange(52 + code.len() as int, 52 + code.len() as int + data.len() as int)
        =~= data);
    assert(obj.subrange(shoff, shoff + fb.len() as int) =~= fb);
}

/// What a 32-bit file header says, read back from the first bytes of an object that starts
/// with it.
proof fn lemma_object32_header(obj: Seq<u8>, h: Elf32Ehdr)
    requires
        obj.len() >= 52,
        obj.subrange(0, 52) == elf32_ehdr_bytes(h),
    ensures
        obj.subrange(0, 6) == h.ident@.subrange(0, 6),
        read_le16(obj, 18) == h.machine,
        read_le32(obj, 32) == h.shoff,
        read_le16(obj, 48) == h.shnum,
{
    let hb = elf32_ehdr_bytes(h);
    lemma_elf32_ehdr_readback(h);
    assert(obj.subrange(0, 6) =~= hb.subrange(0, 6));
    assert(hb.subrange(0, 6) =~= h.ident@.subrange(0, 6));
    lemma_read_le16_sub(obj, 0, 52, 18);
    lemma_read_le32_sub(obj, 0, 52, 32);
    lemma_read_le16_sub(obj, 0, 52, 48);
}

/// What the second section header says of its offset and size, read back from an object
/// whose section headers start at `shoff`.
#[verifier::spinoff_prover]
proof fn lemma_object32_second_shdr(obj: Seq<u8>, shdrs: Seq<Elf32Shdr>, shoff: int)
    requires
        0 <= shoff,
        2 <= shdrs.len(),
        shoff + 40 * shdrs.len() <= obj.len(),
        obj.subrange(shoff, shoff + 40 * shdrs.len()) == flat_shdrs32(shdrs),
    ensures
        read_le32(obj, shoff + 40 + 16) == shdrs[1].offset,
        read_le32(obj, shoff + 40 + 20) == shdrs[1].size,
{
    let hb = elf32_shdr_bytes(shdrs[1]);
    lemma_flat_shdrs32_len(shdrs);
    lemma_flat_shdrs32_at(shdrs, 1);
    lemma_elf32_shdr_readback(shdrs[1]);
    assert(obj.subrange(shoff + 40, shoff + 80) =~= hb);
    lemma_read_le32_sub(obj, shoff + 40, shoff + 80, 16);
    lemma_read_le32_sub(obj, shoff + 40, shoff + 80, 20);
}

/// In an i386 object the file header names a 32-bit little-endian ELF object for i386, the
/// number of its sections, and where the section headers start: after the code and the
/// `.data` and `.rodata` contents; the code stands right after the header, at the offset and
/// with the size the `.text` section header (the second one) gives, and the `.data`
/// contents right after it.
#[verifier::spinoff_prover]
#[verifier::rlimit(60)]
pub proof fn lemma_elf32_object_layout(
    code: Seq<u8>,
    relocs: Seq<Relocation>,
    symbols: Seq<Symbol>,
    outpath: Seq<char>,
)
    requires
        elf32_object(code, relocs, symbols, outpath).len() <= u32::MAX,
    ensures
        ({
            let obj = elf32_object(code, relocs, symbols, outpath);
            let l = sections32_of(code, relocs, symbols, outpath);
            let data = data32(symbols, 1);
            let shoff = 52 + code.len() as int + data.len() as int + data32(symbols, 2).len() as int;
            &&& obj.subrange(0, 6) == seq![0x7fu8, 0x45, 0x4c, 0x46, 1, 1]
            &&& read_le16(obj, 18) == 3
            &&& read_le32(obj, 32) == shoff
            &&& read_le16(obj, 48) == section_count32(l)
            &&& obj.subrange(52, 52 + code.len() as int) == code
            &&& obj.subrange(52 + code.len() as int, 52 + code.len() as int + data.len() as int) == data
            &&& read_le32(obj, shoff + 40 + 16) == 52
            &&& read_le32(obj, shoff + 40 + 20) == code.len()
        }),
{
    let obj = elf32_object(code, relocs, symbols, outpath);
    let l = sections32_of(code, relocs, symbols, outpath);
    let h = elf32_header(l);
    let hb = elf32_ehdr_bytes(h);
    let data = data32(symbols, 1);
    let rodata = data32(symbols, 2);
    let shdrs = elf32_shdrs(l);
    let fb = flat_shdrs32(shdrs);
    let tail = object_tail32(code, relocs, symbols, outpath);
    let shoff = 52 + code.len() as int + data.len() as int + rodata.len() as int;
    lemma_elf32_object_split(code, relocs, symbols, outpath);
    assert(hb.len() == 52) by {
        lemma_elf32_ehdr_readback(h);
    }
    lemma_object32_pieces(obj, hb, code, data, rodata, fb, tail);
    lemma_flat_shdrs32_len(shdrs);
    assert(shoff + fb.len() <= obj.len());
    lemma_object32_header(obj, h);
    assert(h.ident@.subrange(0, 6) =~= seq![0x7fu8, 0x45, 0x4c, 0x46, 1, 1]);
    lemma_text_shdr32(l);
    lemma_object32_second_shdr(obj, shdrs, shoff);
}

} // verus!
