use lib::elf32::{elf32_misfit, make_elf32, Elf32Misfit};
use lib::elf64::make_elf64;
use lib::reloc::{RCategory, RType, Relocation};
use lib::symbol::{Symbol, SymbolType, VarContent, Visibility};

fn rd16(b: &[u8], at: usize) -> u16 {
    u16::from_le_bytes([b[at], b[at + 1]])
}

fn rd32(b: &[u8], at: usize) -> u32 {
    u32::from_le_bytes([b[at], b[at + 1], b[at + 2], b[at + 3]])
}

fn rd64(b: &[u8], at: usize) -> u64 {
    let mut a = [0u8; 8];
    a.copy_from_slice(&b[at..at + 8]);
    u64::from_le_bytes(a)
}

fn sym(name: &str, stype: SymbolType, vis: Visibility, offset: u32, addt: u8) -> Symbol {
    Symbol {
        name: name.to_string(),
        offset,
        size: None,
        sindex: 1,
        stype,
        visibility: vis,
        content: None,
        addt,
    }
}

fn reloc(name: &str, rtype: RType, offset: u64, addend: i32) -> Relocation {
    Relocation {
        symbol: name.to_string(),
        rtype,
        offset,
        addend,
        catg: RCategory::Jump,
        size: 5,
    }
}

#[test]
fn elf64_bare_object() {
    let out = make_elf64(&[0xC3], Vec::new(), &[], "a.o");
    assert_eq!(out.len(), 501);
    assert_eq!(&out[0..7], &[0x7F, b'E', b'L', b'F', 2, 1, 1]);
    assert_eq!(rd16(&out, 16), 1);
    assert_eq!(rd16(&out, 18), 62);
    assert_eq!(rd64(&out, 40), 65);
    assert_eq!(rd16(&out, 52), 64);
    assert_eq!(rd16(&out, 58), 64);
    assert_eq!(rd16(&out, 60), 5);
    assert_eq!(rd16(&out, 62), 3);
    assert_eq!(out[64], 0xC3);
    // the .text header
    let text = 65 + 64;
    assert_eq!(rd32(&out, text), 1);
    assert_eq!(rd32(&out, text + 4), 1);
    assert_eq!(rd64(&out, text + 8), 6);
    assert_eq!(rd64(&out, text + 24), 64);
    assert_eq!(rd64(&out, text + 32), 1);
    assert_eq!(rd64(&out, text + 48), 16);
    // the .symtab header
    let symtab = 65 + 2 * 64;
    assert_eq!(rd32(&out, symtab), 7);
    assert_eq!(rd32(&out, symtab + 4), 2);
    assert_eq!(rd64(&out, symtab + 24), 385);
    assert_eq!(rd64(&out, symtab + 32), 72);
    assert_eq!(rd32(&out, symtab + 40), 4);
    assert_eq!(rd32(&out, symtab + 44), 3);
    assert_eq!(rd64(&out, symtab + 56), 24);
    // the file symbol and the .text section symbol
    assert_eq!(rd32(&out, 385 + 24), 1);
    assert_eq!(out[385 + 24 + 4], 4);
    assert_eq!(rd16(&out, 385 + 24 + 6), 0xFFF1);
    assert_eq!(rd32(&out, 385 + 48), 5);
    assert_eq!(out[385 + 48 + 4], 3);
    // the two string tables
    assert_eq!(&out[457..490], b"\0.text\0.symtab\0.shstrtab\0.strtab\0");
    assert_eq!(&out[490..501], b"\0a.o\0.text\0");
}

#[test]
fn elf64_symbols_and_relocations() {
    let symbols = vec![
        sym("main", SymbolType::Func, Visibility::Global, 0, 0),
        sym("loop", SymbolType::NoType, Visibility::Local, 2, 0),
    ];
    let relocs = vec![
        reloc("loop", RType::PCRel32, 5, 0),
        reloc("main", RType::Abs64, 9, -4),
    ];
    let out = make_elf64(&[0x90; 12], relocs, &symbols, "x.o");
    assert_eq!(rd16(&out, 60), 7);
    // section names: .rel.text at 1, .rela.text at 11, .text at 22
    let text = 64 + 12 + 64;
    assert_eq!(rd32(&out, text), 22);
    let symtab = text + 64;
    assert_eq!(rd32(&out, symtab + 44), 4);
    let symoff = 64 + 12 + 7 * 64;
    assert_eq!(rd64(&out, symtab + 24), symoff as u64);
    // local "loop" comes before global "main"
    let loop_sym = symoff + 3 * 24;
    assert_eq!(rd32(&out, loop_sym), 11);
    assert_eq!(out[loop_sym + 4], 0);
    assert_eq!(rd64(&out, loop_sym + 8), 2);
    let main_sym = symoff + 4 * 24;
    assert_eq!(rd32(&out, main_sym), 16);
    assert_eq!(out[main_sym + 4], 0x12);
    let shstr = symoff + 5 * 24;
    assert_eq!(&out[shstr..shstr + 22], b"\0.rel.text\0.rela.text\0");
    let strtab = shstr + 54;
    assert_eq!(&out[strtab..strtab + 21], b"\0x.o\0.text\0loop\0main\0");
    // the relocations: symbol index in the high half of r_info
    let rel = strtab + 21;
    assert_eq!(rd64(&out, rel), 5);
    assert_eq!(rd64(&out, rel + 8), 2 + (3u64 << 32));
    let rela = rel + 16;
    assert_eq!(rd64(&out, rela), 9);
    assert_eq!(rd64(&out, rela + 8), 1 + (4u64 << 32));
    assert_eq!(rd64(&out, rela + 16), (-4i64) as u64);
    assert_eq!(out.len(), rela + 24);
    // the .rel.text and .rela.text headers
    let relh = text + 4 * 64;
    assert_eq!(rd32(&out, relh), 1);
    assert_eq!(rd32(&out, relh + 4), 9);
    assert_eq!(rd64(&out, relh + 24), rel as u64);
    assert_eq!(rd32(&out, relh + 40), 2);
    let relah = relh + 64;
    assert_eq!(rd32(&out, relah), 11);
    assert_eq!(rd32(&out, relah + 4), 4);
    assert_eq!(rd64(&out, relah + 24), rela as u64);
}

#[test]
fn elf64_unknown_relocation_symbol() {
    let relocs = vec![reloc("nowhere", RType::PCRel32, 1, 0)];
    let out = make_elf64(&[0x90; 4], relocs, &[], "y.o");
    let n = out.len();
    assert_eq!(rd64(&out, n - 8), 2);
}

#[test]
fn elf32_data_sections() {
    let mut v = sym("v", SymbolType::Object, Visibility::Local, 0, 1);
    v.content = Some(VarContent::Number(vec![1, 2, 3, 4]));
    v.size = Some(4);
    let mut s = sym("s", SymbolType::Object, Visibility::Local, 0, 2);
    s.content = Some(VarContent::String("hi".to_string()));
    let mut b = sym("b", SymbolType::Object, Visibility::Global, 0, 3);
    b.size = Some(8);
    let out = make_elf32(&[0x90, 0xC3], Vec::new(), &[v, s, b], "t.o");
    assert_eq!(out.len(), 545);
    assert_eq!(&out[0..7], &[0x7F, b'E', b'L', b'F', 1, 1, 1]);
    assert_eq!(rd16(&out, 18), 3);
    assert_eq!(rd32(&out, 32), 60);
    assert_eq!(rd16(&out, 40), 52);
    assert_eq!(rd16(&out, 46), 40);
    assert_eq!(rd16(&out, 48), 8);
    assert_eq!(rd16(&out, 50), 6);
    assert_eq!(&out[52..60], &[0x90, 0xC3, 1, 2, 3, 4, b'h', b'i']);
    let shdr = |k: usize| 60 + 40 * k;
    // .text: the code right after the file header
    assert_eq!(rd32(&out, shdr(1) + 16), 52);
    assert_eq!(rd32(&out, shdr(1) + 20), 2);
    // .data
    assert_eq!(rd32(&out, shdr(2)), 33);
    assert_eq!(rd32(&out, shdr(2) + 8), 3);
    assert_eq!(rd32(&out, shdr(2) + 16), 54);
    assert_eq!(rd32(&out, shdr(2) + 20), 4);
    assert_eq!(rd32(&out, shdr(2) + 32), 4);
    // .rodata: placed after .data, sized as .data is
    assert_eq!(rd32(&out, shdr(3)), 39);
    assert_eq!(rd32(&out, shdr(3) + 8), 2);
    assert_eq!(rd32(&out, shdr(3) + 16), 58);
    assert_eq!(rd32(&out, shdr(3) + 20), 4);
    // .bss: no bytes in the file, its size in the header
    assert_eq!(rd32(&out, shdr(4)), 47);
    assert_eq!(rd32(&out, shdr(4) + 4), 8);
    assert_eq!(rd32(&out, shdr(4) + 16), 54);
    assert_eq!(rd32(&out, shdr(4) + 20), 8);
    // .symtab
    assert_eq!(rd32(&out, shdr(5)), 7);
    assert_eq!(rd32(&out, shdr(5) + 16), 380);
    assert_eq!(rd32(&out, shdr(5) + 20), 96);
    assert_eq!(rd32(&out, shdr(5) + 24), 7);
    assert_eq!(rd32(&out, shdr(5) + 28), 5);
    // the symbols point at their sections
    let entry = |k: usize| 380 + 16 * k;
    assert_eq!(rd16(&out, entry(3) + 14), 2);
    assert_eq!(rd16(&out, entry(4) + 14), 3);
    assert_eq!(rd16(&out, entry(5) + 14), 4);
    assert_eq!(out[entry(5) + 12], 0x11);
    assert_eq!(&out[476..528], b"\0.text\0.symtab\0.shstrtab\0.strtab\0.data\0.rodata\0.bss\0");
    assert_eq!(&out[528..545], b"\0t.o\0.text\0v\0s\0b\0");
}

#[test]
fn elf32_relocation_names_follow_the_plain_ones() {
    let symbols = vec![
        sym("f", SymbolType::Func, Visibility::Global, 0, 0),
        sym("g", SymbolType::Func, Visibility::Global, 4, 0),
    ];
    let relocs = vec![reloc("g", RType::PCRel32, 1, 0), reloc("f", RType::PCRel32, 6, 8)];
    let out = make_elf32(&[0x90; 10], relocs, &symbols, "r.o");
    let n = out.len();
    // the entry with addend is resolved by the name of the first plain one: "g", index 4
    assert_eq!(rd32(&out, n - 12), 6);
    assert_eq!(rd32(&out, n - 8), 2 + (4 << 8));
    assert_eq!(rd32(&out, n - 4), 8);
    assert_eq!(rd32(&out, n - 20), 1);
    assert_eq!(rd32(&out, n - 16), 2 + (4 << 8));
}

#[test]
fn elf32_inputs_that_cannot_make_an_object() {
    let mut v = sym("v", SymbolType::Object, Visibility::Local, 8, 1);
    v.content = Some(VarContent::Number(vec![1, 2]));
    let mut w = sym("w", SymbolType::Object, Visibility::Global, 4, 1);
    w.content = Some(VarContent::Number(vec![3]));
    let mut b = sym("b", SymbolType::Object, Visibility::Local, 0, 3);
    b.size = Some(4);
    assert_eq!(elf32_misfit(&Vec::new(), &[v.clone(), b.clone()]), None);
    // locals come first, so `w` at 4 follows `v` at 8
    assert_eq!(elf32_misfit(&Vec::new(), &[v.clone(), w.clone()]), Some(Elf32Misfit::Descending));
    let mut empty = v.clone();
    empty.content = None;
    assert_eq!(elf32_misfit(&Vec::new(), &[empty, w]), Some(Elf32Misfit::NoContent));
    let mut no_size = b.clone();
    no_size.size = None;
    assert_eq!(elf32_misfit(&Vec::new(), &[no_size]), Some(Elf32Misfit::NoSize));
    let relocs = vec![reloc("f", RType::PCRel32, 1, 0), reloc("g", RType::PCRel32, 5, -4), reloc("h", RType::PCRel32, 9, -4)];
    assert_eq!(elf32_misfit(&relocs, &[]), Some(Elf32Misfit::ExtraAddends));
    assert_eq!(elf32_misfit(&relocs[..2].to_vec(), &[]), None);
}
