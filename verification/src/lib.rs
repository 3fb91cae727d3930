pub mod booltable;
pub mod size;
pub mod apx;
pub mod api;
pub mod operand;
pub mod modrm;
pub mod sib;
pub mod disp;
pub mod rex;
pub mod vex;
pub mod evex;
pub mod le;
pub mod text;
pub mod symbol;
pub mod elf32;
pub mod elf64;
pub mod reloc;
pub mod register;
pub mod cli;
pub mod color;
pub mod conf;
pub mod consts;
pub mod global;
pub mod help;
pub mod tokenizer;
pub mod lexer;
pub mod parser;
pub mod objfile;
pub mod assemble;
pub mod value;
pub mod comp;
pub mod mnemonic;
pub mod layout;
pub mod table;
pub mod branching;
pub mod x87;
pub mod legacy;
pub mod forms;
