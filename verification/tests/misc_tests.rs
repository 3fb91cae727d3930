use lib::booltable::BoolTable16;
use lib::cli::Cli;
use lib::color::{ColString, Color, Modifier};
use lib::elf32::{calc_lsize, collect_asciiz, Elf32Ehdr, Elf32Rel, Elf32Rela, Elf32Shdr, Elf32Sym};
use lib::elf64::{Elf64Ehdr, Elf64Rel, Elf64Rela, Elf64Shdr, Elf64Sym};
use lib::help::{help, version};
use lib::register::{RegErr, Register};
use lib::reloc::{find, relocate_addresses, RCategory, RType, RelocError, Relocation};
use lib::symbol::{Symbol, SymbolType, VarContent, Visibility};
use lib::tokenizer::{hextoint, KeyWord};
use std::str::FromStr;

#[test]
fn booltable_set_get() {
    let mut t = BoolTable16::new();
    t.set(3, true);
    t.set(15, true);
    assert_eq!(t.get(3), Some(true));
    assert_eq!(t.get(4), Some(false));
    assert_eq!(t.get(16), None);
    t.set(3, false);
    assert!(!t.at(3));
    assert!(t.at(15));
    assert_eq!(t.data, 0x8000);
}

fn args(a: &[&str]) -> Vec<String> {
    a.iter().map(|s| s.to_string()).collect()
}

#[test]
fn cli_parsing() {
    let c = Cli::new(args(&["pasm", "-i=in.asm", "--output=out.o", "-n", "-d", "-f=elf64", "junk"]));
    assert_eq!(c.infile(), &Some("in.asm".to_string()));
    assert_eq!(c.outfile(), &Some("out.o".to_string()));
    assert_eq!(c.target, Some("elf64".to_string()));
    assert!(c.nocolor());
    assert!(c.debug());
    assert!(!c.help());
    assert!(!c.version());
    let c = Cli::new(args(&["pasm", "-i", "--help", "-v", "-c", "-C", "-s", "-S"]));
    assert_eq!(c.infile(), &None);
    assert!(c.help() && c.version() && c.check() && c.nocheck());
    assert!(c.supported_instructions() && c.supported_instructions_raw());
    let c = Cli::new(args(&["pasm", "-o=a=b"]));
    assert_eq!(c.outfile(), &Some("a=b".to_string()));
}

#[test]
fn colored_strings() {
    let s = ColString::new("hi".to_string()).set_color(Color::RED).set_modf(Modifier::Bold);
    assert_eq!(s.render(false), "\x1b[1;31mhi\x1b[0m");
    assert_eq!(s.render(true), "hi");
    let s = ColString::new("x".to_string()).set_modf(Modifier::Underline);
    assert_eq!(s.render(false), "\x1b[4;37mx\x1b[0m");
}

#[test]
fn help_and_version() {
    assert_eq!(version(), "25.06-beta2");
    let h = help();
    assert!(h.starts_with("pasm - 25.06-beta2\nFlags:\n"));
    assert!(h.ends_with("source code: https://github.com/Matissoss/pasm"));
    assert!(h.contains("-n / --nocolor"));
    assert!(!h.contains("supported-instructions"));
}

#[test]
fn keywords_and_hex_digits() {
    assert_eq!(KeyWord::from_str("qword"), Ok(KeyWord::Qword));
    assert_eq!(KeyWord::from_str(".end"), Ok(KeyWord::EndLabel));
    assert_eq!(KeyWord::from_str("syscall"), Ok(KeyWord::SysCall));
    assert_eq!(KeyWord::from_str("Qword"), Err(()));
    assert_eq!(hextoint('7'), 7);
    assert_eq!(hextoint('a'), 10);
    assert_eq!(hextoint('F'), 15);
    assert_eq!(hextoint('g'), 0);
}

#[test]
fn register_names() {
    assert_eq!(Register::from_str("rax").ok(), Some(Register::RAX));
    assert_eq!(Register::from_str("al").ok(), Some(Register::AL));
    assert_eq!(Register::from_str("r8").ok(), Some(Register::R8));
    assert_eq!(Register::from_str("r15d").ok(), Some(Register::R15D));
    assert_eq!(Register::from_str("r12w").ok(), Some(Register::R12W));
    assert_eq!(Register::from_str("r9b").ok(), Some(Register::R9B));
    assert_eq!(Register::from_str("cr3").ok(), Some(Register::CR3));
    assert_eq!(Register::from_str("dr7").ok(), Some(Register::DR7));
    assert_eq!(Register::from_str("dil").ok(), Some(Register::DIL));
    assert_eq!(Register::from_str("spl").ok(), Some(Register::SPL));
    assert_eq!(Register::from_str("bpl").ok(), Some(Register::BPL));
    assert_eq!(Register::from_str("esp").ok(), Some(Register::ESP));
    assert_eq!(Register::from_str("rip").ok(), Some(Register::RIP));
    assert_eq!(Register::from_str("ip").ok(), Some(Register::IP));
    // the parser looks only at some positions
    assert_eq!(Register::from_str("raz").ok(), Some(Register::RAX));
    assert_eq!(Register::from_str("rdd").ok(), Some(Register::RDI));
    assert!(matches!(Register::from_str("rdi"), Err(RegErr::Unknown(s)) if s == "rdi"));
    assert!(matches!(Register::from_str("a"), Err(RegErr::TooShort(1))));
    assert!(matches!(Register::from_str(""), Err(RegErr::TooLong(0))));
    assert!(matches!(Register::from_str("raxraxr"), Err(RegErr::TooLong(7))));
    assert!(matches!(Register::from_str("xmm3"), Err(RegErr::Unsupported(s)) if s == "xmm3"));
    assert!(matches!(Register::from_str("ymm12"), Err(RegErr::Unsupported(s)) if s == "xmm12"));
    assert!(matches!(Register::from_str("zmm15"), Err(RegErr::Unsupported(s)) if s == "zmm15"));
    assert!(matches!(Register::from_str("qq"), Err(RegErr::Unknown(s)) if s == "qq"));
}

#[test]
fn elf32_layouts() {
    let sh = Elf32Shdr {
        name: 1,
        etype: 2,
        flags: 3,
        addr: 4,
        offset: 0x01020304,
        size: 6,
        link: 7,
        info: 8,
        addralign: 16,
        entsize: 0,
    };
    let b = sh.bytes();
    assert_eq!(b.len(), 40);
    assert_eq!(&b[0..4], &[1, 0, 0, 0]);
    assert_eq!(&b[16..20], &[4, 3, 2, 1]);
    let eh = Elf32Ehdr {
        ident: [0x7F, b'E', b'L', b'F', 1, 1, 1, 0, 0, 0, 0, 0, 0, 0, 0, 0],
        etype: 1,
        machine: 3,
        version: 1,
        entry: 0,
        phoff: 0,
        shoff: 0x40,
        flags: 0,
        ehsize: 52,
        phentsize: 0,
        phnum: 0,
        shentsize: 40,
        shnum: 7,
        shstrndx: 3,
    };
    let b = eh.bytes();
    assert_eq!(b.len(), 52);
    assert_eq!(&b[0..4], &[0x7F, b'E', b'L', b'F']);
    assert_eq!(&b[16..20], &[1, 0, 3, 0]);
    assert_eq!(&b[50..52], &[3, 0]);
    let sym = Elf32Sym { name: 9, value: 0x10, size: 4, info: 0x11, other: 0, shndx: 0xFFF1 };
    assert_eq!(sym.bytes(), vec![9, 0, 0, 0, 0x10, 0, 0, 0, 4, 0, 0, 0, 0x11, 0, 0xF1, 0xFF]);
    assert_eq!(Elf32Rel { offset: 2, info: 0x102 }.bytes(), vec![2, 0, 0, 0, 2, 1, 0, 0]);
    assert_eq!(
        Elf32Rela { offset: 2, info: 2, addend: -4 }.bytes(),
        vec![2, 0, 0, 0, 2, 0, 0, 0, 0xFC, 0xFF, 0xFF, 0xFF]
    );
}

#[test]
fn elf64_layouts() {
    let sh = Elf64Shdr {
        name: 1,
        etype: 1,
        flags: 6,
        addr: 0,
        offset: 64,
        size: 3,
        link: 0,
        info: 0,
        addralign: 16,
        entsize: 0,
    };
    let b = sh.bytes();
    assert_eq!(b.len(), 64);
    assert_eq!(&b[8..16], &[6, 0, 0, 0, 0, 0, 0, 0]);
    assert_eq!(&b[24..32], &[64, 0, 0, 0, 0, 0, 0, 0]);
    let eh = Elf64Ehdr {
        ident: [0x7F, b'E', b'L', b'F', 2, 1, 1, 0, 0, 0, 0, 0, 0, 0, 0, 0],
        etype: 1,
        machine: 62,
        version: 1,
        entry: 0,
        phoff: 0,
        shoff: 0x100,
        flags: 0,
        ehsize: 64,
        phentsize: 0,
        phnum: 0,
        shentsize: 64,
        shnum: 5,
        shstrndx: 2,
    };
    let b = eh.bytes();
    assert_eq!(b.len(), 64);
    assert_eq!(&b[40..48], &[0, 1, 0, 0, 0, 0, 0, 0]);
    assert_eq!(&b[52..54], &[64, 0]);
    let sym = Elf64Sym { name: 1, info: 0x12, other: 0, shndx: 1, value: 0x1000, size: 0 };
    let b = sym.bytes();
    assert_eq!(b.len(), 24);
    assert_eq!(&b[0..8], &[1, 0, 0, 0, 0x12, 0, 1, 0]);
    assert_eq!(Elf64Rel { offset: 1, info: 2 }.bytes().len(), 16);
    let r = Elf64Rela { offset: 1, info: 2, addend: -1 }.bytes();
    assert_eq!(&r[16..24], &[0xFF; 8]);
}

#[test]
fn asciiz_strings() {
    let tab = b"\0.text\0.data\0end";
    assert_eq!(collect_asciiz(tab, 1), Some(".text".to_string()));
    assert_eq!(collect_asciiz(tab, 0), Some(String::new()));
    assert_eq!(collect_asciiz(tab, 13), Some("end".to_string()));
    assert_eq!(tab.len(), 16);
    assert_eq!(collect_asciiz(tab, 16), Some(String::new()));
    assert_eq!(collect_asciiz(tab, 17), None);
}

#[test]
fn data_alignment() {
    let n = |off: u32, s: bool| {
        (
            "v".to_string(),
            off,
            4u32,
            if s { Some(VarContent::String("x".to_string())) } else { None },
        )
    };
    assert_eq!(calc_lsize(&[]), 1);
    assert_eq!(calc_lsize(&[n(0, false)]), 4);
    assert_eq!(calc_lsize(&[n(3, false)]), 1);
    assert_eq!(calc_lsize(&[n(0, true), n(3, false), n(7, false)]), 4);
    assert_eq!(calc_lsize(&[n(0, true), n(3, false)]), 1);
}

fn sym(name: &str, offset: u32, content: Option<VarContent>) -> Symbol {
    Symbol {
        name: name.to_string(),
        offset,
        size: None,
        sindex: 1,
        stype: SymbolType::NoType,
        visibility: Visibility::Local,
        content,
        addt: 0,
    }
}

fn rel(name: &str, rtype: RType, offset: u64, catg: RCategory, size: u8) -> Relocation {
    Relocation { symbol: name.to_string(), rtype, offset, addend: 0, catg, size }
}

#[test]
fn relocations() {
    let symbols = vec![
        sym("start", 0, None),
        sym("num", 0x20, Some(VarContent::Number(vec![0xAA, 0xBB]))),
        sym("txt", 0x30, Some(VarContent::String("s".to_string()))),
    ];
    assert_eq!(find(&symbols, "num").map(|s| s.offset), Some(0x20));
    assert!(find(&symbols, "nope").is_none());
    // jmp start at offset 1 of a 5-byte instruction: rel32 = 0 - (1 + 4) = -5
    let mut buf = vec![0u8; 8];
    let r = relocate_addresses(&mut buf, vec![rel("start", RType::PCRel32, 1, RCategory::Jump, 4)], &symbols);
    assert!(r.is_none());
    assert_eq!(buf, vec![0, 0xFB, 0xFF, 0xFF, 0xFF, 0, 0, 0]);
    // a numeric variable writes its bytes
    let mut buf = vec![0u8; 4];
    let r = relocate_addresses(&mut buf, vec![rel("num", RType::PCRel32, 2, RCategory::Lea, 0)], &symbols);
    assert!(r.is_none());
    assert_eq!(buf, vec![0, 0, 0xAA, 0xBB]);
    // errors: unknown symbol, unsupported type, no content; a string stops processing
    let mut buf = vec![0u8; 4];
    let r = relocate_addresses(
        &mut buf,
        vec![
            rel("nope", RType::PCRel32, 0, RCategory::Jump, 0),
            rel("num", RType::Abs64, 0, RCategory::Jump, 0),
            rel("start", RType::PCRel32, 0, RCategory::Lea, 0),
            rel("txt", RType::PCRel32, 0, RCategory::Lea, 0),
            rel("num", RType::PCRel32, 0, RCategory::Lea, 0),
        ],
        &symbols,
    )
    .unwrap();
    assert_eq!(r.len(), 4);
    assert!(matches!(&r[0], RelocError::SymbolNotFound(s) if s == "nope"));
    assert!(matches!(&r[1], RelocError::UnsupportedType(RType::Abs64)));
    assert!(matches!(&r[2], RelocError::NoContent));
    assert!(matches!(&r[3], RelocError::StringContent));
    assert_eq!(buf, vec![0, 0, 0, 0]);
}

#[test]
fn cli_skip_check_flag() {
    let c = Cli::new(args(&["pasm", "--skip-check"]));
    let d = Cli::new(args(&["pasm", "-C"]));
    assert!(c.nocheck() && d.nocheck());
    assert!(!c.check());
}
