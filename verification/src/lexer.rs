use vstd::prelude::*;

use crate::register::Register;
use crate::tokenizer::Token;
use crate::value::Value;

verus! {

/// Turns tokens into instructions.
pub struct Lexer;

/// A value that the tokens of a source line may make.
pub trait FromToken: Sized {
    /// The value the tokens make, if any.
    fn from_token(tokens: &[Token]) -> Option<Self>;
}

/// A destination value: a register, a memory address in a register, a reference to a `.bss`
/// variable, or a memory address in a register with an offset.
#[derive(Clone, Debug, PartialEq)]
pub enum DValue {
    Register(Register),
    MemAddr(Register),
    BSSRef(String),
    MemWOffset(Register, i64),
}

/// An instruction: its mnemonic, its source value and its destination.
#[derive(Clone, Debug, Default, PartialEq)]
pub struct Instruction {
    pub ins: String,
    pub src: Option<Value>,
    pub des: Option<DValue>,
}

/// Whether two values are the same, their texts compared by their characters.
pub open spec fn same_value(a: Value, b: Value) -> bool {
    match (a, b) {
        (Value::Register(x), Value::Register(y)) => x == y,
        (Value::Char(x), Value::Char(y)) => x == y,
        (Value::Int(x), Value::Int(y)) => x == y,
        (Value::Uint(x), Value::Uint(y)) => x == y,
        (Value::Float(x), Value::Float(y)) => x@ == y@,
        (Value::String(x), Value::String(y)) => x@ == y@,
        (Value::ConstRef(x), Value::ConstRef(y)) => x@ == y@,
        (Value::BSSRef(x), Value::BSSRef(y)) => x@ == y@,
        (Value::MemAddr(x), Value::MemAddr(y)) => x == y,
        (Value::MemWOffset(x, o), Value::MemWOffset(y, p)) => x == y && o == p,
        _ => false,
    }
}

/// A copy of a value.
pub fn copy_value(v: &Value) -> (r: Value)
    ensures
        same_value(r, *v),
{
    match v {
        Value::Register(x) => Value::Register(*x),
        Value::Char(x) => Value::Char(*x),
        Value::Int(x) => Value::Int(*x),
        Value::Uint(x) => Value::Uint(*x),
        Value::Float(x) => Value::Float(x.clone()),
        Value::String(x) => Value::String(x.clone()),
        Value::ConstRef(x) => Value::ConstRef(x.clone()),
        Value::BSSRef(x) => Value::BSSRef(x.clone()),
        Value::MemAddr(x) => Value::MemAddr(*x),
        Value::MemWOffset(x, o) => Value::MemWOffset(*x, *o),
    }
}

/// The destination a value can be: a register, a memory address (with or without offset)
/// or a `.bss` reference; none for any other value.
pub open spec fn dest_of(v: Value, d: Option<DValue>) -> bool {
    match v {
        Value::Register(r) => d == Some(DValue::Register(r)),
        Value::MemAddr(r) => d == Some(DValue::MemAddr(r)),
        Value::MemWOffset(r, o) => d == Some(DValue::MemWOffset(r, o)),
        Value::BSSRef(s) => d matches Some(DValue::BSSRef(t)) && t@ == s@,
        _ => d is None,
    }
}

/// The instruction that `tokens` make: the mnemonic from a first string token (empty
/// otherwise), the destination from a second value token, the source from a third value
/// token; none when all three are missing.
pub open spec fn instruction_of(tokens: Seq<Token>, r: Option<Instruction>) -> bool {
    let ins: Seq<char> = match tokens.len() > 0 {
        true => match tokens[0] {
            Token::String(s) => s@,
            _ => Seq::empty(),
        },
        false => Seq::empty(),
    };
    let has_des = tokens.len() > 1 && (tokens[1] matches Token::Value(v) && !(v is Char || v is Int
        || v is Uint || v is Float || v is String || v is ConstRef));
    let has_src = tokens.len() > 2 && tokens[2] is Value;
    if ins.len() == 0 && !has_des && !has_src {
        r is None
    } else {
        r matches Some(i) && i.ins@ == ins && (match (tokens.len() > 1, has_des) {
            (true, true) => (tokens[1] matches Token::Value(v) && dest_of(v, i.des)),
            _ => i.des is None,
        }) && (if has_src {
            tokens[2] matches Token::Value(v) && i.src matches Some(s) && same_value(s, v)
        } else {
            i.src is None
        })
    }
}

impl FromToken for Instruction {
    /// The instruction the tokens of a line make, if any.
    fn from_token(tokens: &[Token]) -> (r: Option<Instruction>)
        ensures
            instruction_of(tokens@, r),
    {
        let ins: String = if tokens.len() > 0 {
            match &tokens[0] {
                Token::String(s) => s.clone(),
                _ => String::new(),
            }
        } else {
            String::new()
        };
        let des: Option<DValue> = if tokens.len() > 1 {
            match &tokens[1] {
                Token::Value(v) => match v {
                    Value::Register(r) => Some(DValue::Register(*r)),
                    Value::BSSRef(r) => Some(DValue::BSSRef(r.clone())),
                    Value::MemAddr(r) => Some(DValue::MemAddr(*r)),
                    Value::MemWOffset(r, o) => Some(DValue::MemWOffset(*r, *o)),
                    _ => None,
                },
                _ => None,
            }
        } else {
            None
        };
        let src: Option<Value> = if tokens.len() > 2 {
            match &tokens[2] {
                Token::Value(v) => Some(copy_value(v)),
                _ => None,
            }
        } else {
            None
        };
        if ins.as_str().unicode_len() == 0 && des.is_none() && src.is_none() {
            None
        } else {
            Some(Instruction { ins, src, des })
        }
    }
}

} // verus!
