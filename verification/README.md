# pasm core, verified

The encoding and object-file core of the pasm x86-64 assembler, written in Verus.

- `src/` is the verified library: the mnemonic table (`mnemonic`, `comp`, `table`,
  `branching`, `x87`, `legacy`, `layout`: which layout each mnemonic and operand shape
  takes), covering every mnemonic the assembler knows (1822 names with their aliases and
  data directives): general purpose, x87, MMX and SSE (the MMX or SSE form chosen by the
  instruction's variant), AVX, AVX-512 and APX; the instruction layout builder (`api`), the prefix,
  ModRM, SIB and displacement encoders (`rex`, `vex`, `evex`, `apx`, `modrm`, `sib`,
  `disp`), instruction assembly (`assemble`), relocation resolution (`reloc`), the
  32-bit and 64-bit ELF object writers (`elf32`, `elf64`, `objfile`, `le`), and the
  front end that reads source text (`tokenizer`, `value`, `register`, `lexer`, `cli`).
  Each public function states what it returns in its `ensures`; the `lemma_*` proof
  functions state the laws that hold across calls (read-back of encoded headers, the
  layout of a written object, where relocations point).
- `tests/` runs the library on concrete inputs.
- `app/` is the command-line program: argument handling, reading the source file,
  floating-point values, and printing what the front end reads from each line (with `-d`).
  It also holds the glue that turns symbols and relocations into an object file's bytes.
  Before writing a 32-bit object it checks the symbols and relocations as the writer needs
  them (`elf32_misfit`); it does not check that the object's offsets fit in 32 bits, so an
  object past 4 GiB is outside what it guards.
