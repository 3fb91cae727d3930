use lib::lexer::{DValue, FromToken, Instruction};
use lib::register::{RegErr, Register};
use lib::tokenizer::{KeyWord, LexKind, Token, Tokenizer};
use lib::value::Value;

fn read(s: &str) -> Result<Value, String> {
    Value::parse(s, false)
}

#[test]
fn values_numbers() {
    assert_eq!(read("42"), Ok(Value::Uint(42)));
    assert_eq!(read("+7"), Ok(Value::Uint(7)));
    assert_eq!(read("-5"), Ok(Value::Int(-5)));
    assert_eq!(read("18446744073709551615"), Ok(Value::Uint(u64::MAX)));
    assert_eq!(read("-9223372036854775808"), Ok(Value::Int(i64::MIN)));
    assert_eq!(read("0b101"), Ok(Value::Uint(5)));
    assert_eq!(read("-0b11"), Ok(Value::Int(-3)));
    assert_eq!(read("0xff"), Ok(Value::Uint(255)));
    assert_eq!(read("0xZZ"), Ok(Value::Uint(0)));
    assert_eq!(read("-0x10"), Ok(Value::Int(-16)));
}

#[test]
fn values_registers_and_memory() {
    assert_eq!(read("rax"), Ok(Value::Register(Register::RAX)));
    assert_eq!(read(" rax\t"), Ok(Value::Register(Register::RAX)));
    assert_eq!(read("rbp-8"), Ok(Value::MemWOffset(Register::RBP, -8)));
    assert_eq!(read("rax+16"), Ok(Value::MemWOffset(Register::RAX, 16)));
    assert_eq!(read("rbx+"), Ok(Value::MemAddr(Register::RBX)));
}

#[test]
fn values_characters_and_floats() {
    assert_eq!(read("a"), Ok(Value::Char('a')));
    assert_eq!(Value::parse("1.5", true), Ok(Value::Float("1.5".to_string())));
}

#[test]
fn values_errors() {
    assert_eq!(read(""), Err("E-VAL-0001: Passed empty value!".to_string()));
    assert_eq!(read("0b12"), Err("ERR-VAL-0002: Invalid binary number found: `0b12`".to_string()));
    assert_eq!(
        read("5+3"),
        Err("E-VAL-0002: Found `offset = 3`, but didn't found register in `5+3`".to_string())
    );
    assert_eq!(
        read("5-12"),
        Err("E-VAL-0002: Found `offset = -12`, but didn't found register in `5-12`".to_string())
    );
    assert_eq!(
        read("xyz"),
        Err("E-VAL-0003: In beetwen '[' and ']' expected memory address (with or without offset), found: `xyz`".to_string())
    );
}

#[test]
fn tokens_from_words() {
    assert!(matches!(Token::parse(",", false), Ok(Token::Symbol(','))));
    assert!(matches!(Token::parse("7", false), Ok(Token::Value(Value::Int(7)))));
    assert!(matches!(Token::parse("dword", false), Ok(Token::KeyWord(KeyWord::Dword))));
    match Token::parse("main:", false) {
        Ok(Token::Label(l)) => assert_eq!(l, "main"),
        _ => panic!("expected a label"),
    }
    match Token::parse("mov", false) {
        Ok(Token::String(s)) => assert_eq!(s, "mov"),
        _ => panic!("expected a string"),
    }
    assert!(matches!(Token::parse("rcx", false), Ok(Token::Value(Value::Register(Register::RCX)))));
}

fn lexemes(line: &str) -> Vec<(LexKind, String)> {
    Tokenizer::lex_line(line).into_iter().map(|l| (l.kind, l.text)).collect()
}

#[test]
fn lexing_lines() {
    assert_eq!(
        lexemes("mov rax, 5 ; the rest is a comment"),
        vec![
            (LexKind::Word, "mov".to_string()),
            (LexKind::Word, "rax".to_string()),
            (LexKind::Word, "5".to_string()),
        ]
    );
    assert_eq!(
        lexemes("db \"a, b\" $CONST %buf [rbp-8]"),
        vec![
            (LexKind::Word, "db".to_string()),
            (LexKind::Str, "\"a b\"".to_string()),
            (LexKind::ConstRef, "CONST".to_string()),
            (LexKind::BSSRef, "buf".to_string()),
            (LexKind::Bracket, "rbp-8".to_string()),
        ]
    );
    assert_eq!(lexemes("push $X"), vec![(LexKind::Word, "push".to_string()), (LexKind::ConstRef, "X".to_string())]);
    assert!(lexemes("   ").is_empty());
}

#[test]
fn instructions_from_tokens() {
    let tokens = vec![
        Token::String("mov".to_string()),
        Token::Value(Value::Register(Register::RAX)),
        Token::Value(Value::Uint(5)),
    ];
    let ins = Instruction::from_token(&tokens).unwrap();
    assert_eq!(ins.ins, "mov");
    assert_eq!(ins.des, Some(DValue::Register(Register::RAX)));
    assert_eq!(ins.src, Some(Value::Uint(5)));
    let tokens = vec![Token::Symbol(',')];
    assert_eq!(Instruction::from_token(&tokens), None);
    let tokens = vec![Token::String("ret".to_string()), Token::Value(Value::Uint(1))];
    let ins = Instruction::from_token(&tokens).unwrap();
    assert_eq!(ins.des, None);
}

#[test]
fn register_error_messages() {
    assert_eq!(RegErr::TooShort(1).to_string(), "E-SYN-0001: Register is too short! LEN = 1");
    assert_eq!(RegErr::TooLong(12).to_string(), "E-SYN-0002: Register is too long ! LEN = 12");
    assert_eq!(RegErr::Unknown("foo".to_string()).to_string(), "E-SYN-0003: Unknown Register: `foo`");
    assert_eq!(
        RegErr::Unsupported("xmm9".to_string()).to_string(),
        "E-SYN-0004: Unsupported Register: `xmm9`"
    );
    match Register::parse("abcdef") {
        Err(e) => assert_eq!(e.to_string(), "E-SYN-0002: Register is too long ! LEN = 6"),
        Ok(_) => panic!("expected an error"),
    }
}

#[test]
fn values_that_fit() {
    assert!(Value::fits("42", false));
    assert!(Value::fits("0x0123456789abcdef", false));
    assert!(!Value::fits("0x0123456789abcdef0", false));
    assert!(Value::fits("-0x7fffffffffffffff", false));
    assert!(!Value::fits("-0x8000000000000000", false));
    let mut wide = String::from("0b1");
    wide.push_str(&"0".repeat(64));
    assert!(!Value::fits(&wide, false));
    let mut padded = String::from("0b1");
    padded.push_str(&"0".repeat(63));
    assert!(Value::fits(&padded, false));
    let mut min = String::from("-0b1");
    min.push_str(&"0".repeat(63));
    assert!(!Value::fits(&min, false));
    assert!(Value::fits("0b12", false));
    assert!(Token::fits("loop:", false));
}

#[test]
fn reading_lexemes() {
    let lexemes = Tokenizer::lex_line("mov rax, \"hi\" $c [rbx+8]");
    let floats = vec![false; lexemes.len()];
    let (tokens, errors) = Tokenizer::read_lexemes(&lexemes, &floats);
    assert_eq!(tokens.len(), 5);
    assert!(matches!(&tokens[0], Token::String(s) if s == "mov"));
    assert!(matches!(&tokens[1], Token::Value(Value::Register(Register::RAX))));
    assert!(matches!(&tokens[2], Token::Value(Value::String(s)) if s == "\"hi\""));
    assert!(matches!(&tokens[3], Token::Value(Value::ConstRef(s)) if s == "c"));
    assert!(matches!(&tokens[4], Token::Value(Value::MemWOffset(Register::RBX, 8))));
    assert!(errors.is_empty());
    let lexemes = Tokenizer::lex_line("add [zz]");
    let (tokens, errors) = Tokenizer::read_lexemes(&lexemes, &[false, false]);
    assert_eq!(tokens.len(), 1);
    assert_eq!(errors.len(), 1);
    assert_eq!(
        errors[0],
        "E-VAL-0003: In beetwen '[' and ']' expected memory address (with or without offset), found: `zz`"
    );
}
