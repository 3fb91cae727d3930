use vstd::prelude::*;

use vstd::utf8::encode_utf8;

use crate::register::string_of;
use crate::text::{byte_char, str_eq};
use crate::value::{
    is_numeric_byte, spec_read_value, value_fits, value_result_is, Value, ValueRead,
};
use vstd::string::StrSliceExecFns;

verus! {

/// Splits source lines into tokens.
pub struct Tokenizer;

/// The value of a hexadecimal digit; 0 for any other character.
pub open spec fn spec_hextoint(c: char) -> u8 {
    if '0' <= c <= '9' {
        (c as u32 - '0' as u32) as u8
    } else if c == 'A' || c == 'a' {
        10
    } else if c == 'B' || c == 'b' {
        11
    } else if c == 'C' || c == 'c' {
        12
    } else if c == 'D' || c == 'd' {
        13
    } else if c == 'E' || c == 'e' {
        14
    } else if c == 'F' || c == 'f' {
        15
    } else {
        0
    }
}

/// A hexadecimal digit's value is its base-16 value: the digits '0' to '9' give 0 to 9 and the
/// letters 'a' to 'f' and 'A' to 'F' give 10 to 15 in alphabetical order; anything else gives 0.
pub proof fn lemma_hex_digit_value(c: char)
    ensures
        '0' <= c <= '9' ==> spec_hextoint(c) == c as int - '0' as int,
        'a' <= c <= 'f' ==> spec_hextoint(c) == c as int - 'a' as int + 10,
        'A' <= c <= 'F' ==> spec_hextoint(c) == c as int - 'A' as int + 10,
        !('0' <= c <= '9' || 'a' <= c <= 'f' || 'A' <= c <= 'F') ==> spec_hextoint(c) == 0,
{
}

/// The value of a hexadecimal digit; 0 for any other character.
pub fn hextoint(c: char) -> (r: u8)
    ensures
        r == spec_hextoint(c),
        r < 16,
{
    if '0' <= c && c <= '9' {
        (c as u32 - '0' as u32) as u8
    } else if c == 'A' || c == 'a' {
        10
    } else if c == 'B' || c == 'b' {
        11
    } else if c == 'C' || c == 'c' {
        12
    } else if c == 'D' || c == 'd' {
        13
    } else if c == 'E' || c == 'e' {
        14
    } else if c == 'F' || c == 'f' {
        15
    } else {
        0
    }
}

/// Keywords of the source language.
#[derive(Clone, Copy, Debug, PartialEq, Eq, Structural)]
pub enum KeyWord {
    Byte,
    Word,
    Dword,
    Qword,
    Global,
    Section,
    SysCall,
    EndLabel,
}

/// The keyword spelled `s`, if any.
pub open spec fn spec_keyword(s: Seq<char>) -> Option<KeyWord> {
    if s == "dword"@ {
        Some(KeyWord::Dword)
    } else if s == "qword"@ {
        Some(KeyWord::Qword)
    } else if s == "word"@ {
        Some(KeyWord::Word)
    } else if s == "byte"@ {
        Some(KeyWord::Byte)
    } else if s == "syscall"@ {
        Some(KeyWord::SysCall)
    } else if s == ".end"@ {
        Some(KeyWord::EndLabel)
    } else if s == "global"@ {
        Some(KeyWord::Global)
    } else if s == "section"@ {
        Some(KeyWord::Section)
    } else {
        None
    }
}

impl KeyWord {
    /// The keyword spelled `keyword`, or `Err(())` for any other word.
    pub fn parse(keyword: &str) -> (r: Result<KeyWord, ()>)
        ensures
            match spec_keyword(keyword@) {
                Some(k) => r == Ok::<KeyWord, ()>(k),
                None => r == Err::<KeyWord, ()>(()),
            },
    {
        if str_eq(keyword, "dword") {
            Ok(KeyWord::Dword)
        } else if str_eq(keyword, "qword") {
            Ok(KeyWord::Qword)
        } else if str_eq(keyword, "word") {
            Ok(KeyWord::Word)
        } else if str_eq(keyword, "byte") {
            Ok(KeyWord::Byte)
        } else if str_eq(keyword, "syscall") {
            Ok(KeyWord::SysCall)
        } else if str_eq(keyword, ".end") {
            Ok(KeyWord::EndLabel)
        } else if str_eq(keyword, "global") {
            Ok(KeyWord::Global)
        } else if str_eq(keyword, "section") {
            Ok(KeyWord::Section)
        } else {
            Err(())
        }
    }
}

impl core::str::FromStr for KeyWord {
    type Err = ();

    fn from_str(keyword: &str) -> Result<Self, ()> {
        KeyWord::parse(keyword)
    }
}

/// What a lexeme of a source line is: a word (a keyword, value, symbol, label or string,
/// told apart afterwards), a quoted string, a `$` constant reference, a `%` reference to
/// uninitialized data, or the text between `[` and `]`.
#[derive(Clone, Copy, Debug, PartialEq, Eq, Structural)]
pub enum LexKind {
    Word,
    Str,
    ConstRef,
    BSSRef,
    Bracket,
}

/// A lexeme of a source line: its kind and its text.
#[derive(Clone, Debug)]
pub struct Lexeme {
    pub kind: LexKind,
    pub text: String,
}

/// Where the lexer stands: inside a closure or not and which (its opening character, a
/// space outside), the text gathered, the lexemes so far, and whether a `;` ended the line.
pub struct LexState {
    pub inside: bool,
    pub mode: char,
    pub tmp: Seq<char>,
    pub out: Seq<(LexKind, Seq<char>)>,
    pub stopped: bool,
}

/// Whether a character separates words: a space, a tab or a newline.
pub open spec fn is_sep(c: char) -> bool {
    c == ' ' || c == '\t' || c == '\n'
}

/// The lexer's state after one more byte, taken as the character of the same number.
pub open spec fn lex_step(st: LexState, b: u8) -> LexState {
    let c = byte_char(b);
    if st.stopped {
        st
    } else if c == ';' {
        LexState { stopped: true, ..st }
    } else if !st.inside && is_sep(c) {
        if st.tmp.len() > 0 {
            LexState { tmp: Seq::empty(), out: st.out.push((LexKind::Word, st.tmp)), ..st }
        } else {
            st
        }
    } else if !st.inside && st.mode == ' ' && c == '$' {
        LexState { inside: true, mode: '$', ..st }
    } else if !st.inside && st.mode == ' ' && c == '%' {
        LexState { inside: true, mode: '%', ..st }
    } else if !st.inside && st.mode == ' ' && c == '"' {
        LexState { inside: true, mode: '"', tmp: st.tmp.push('"'), ..st }
    } else if st.inside && st.mode == '"' && c == '"' {
        LexState {
            inside: false,
            mode: ' ',
            tmp: Seq::empty(),
            out: st.out.push((LexKind::Str, st.tmp.push('"'))),
            ..st
        }
    } else if c == ',' {
        st
    } else if st.inside && st.mode == '$' && is_sep(c) {
        LexState {
            inside: false,
            mode: ' ',
            tmp: Seq::empty(),
            out: st.out.push((LexKind::ConstRef, st.tmp)),
            ..st
        }
    } else if st.inside && st.mode == '%' && is_sep(c) {
        LexState {
            inside: false,
            mode: ' ',
            tmp: Seq::empty(),
            out: st.out.push((LexKind::BSSRef, st.tmp)),
            ..st
        }
    } else if st.inside && st.mode == '"' && is_sep(c) {
        LexState { tmp: st.tmp.push(c), ..st }
    } else if st.inside && is_sep(c) {
        st
    } else if !st.inside && st.mode == ' ' && c == '[' {
        LexState { inside: true, mode: '[', ..st }
    } else if st.inside && st.mode == '[' && c == ']' {
        LexState { tmp: Seq::empty(), out: st.out.push((LexKind::Bracket, st.tmp)), ..st }
    } else {
        LexState { tmp: st.tmp.push(c), ..st }
    }
}

/// The lexer's state after the bytes `b`, from the start of a line.
pub open spec fn lex_fold(b: Seq<u8>) -> LexState
    decreases b.len(),
{
    if b.len() == 0 {
        LexState { inside: false, mode: ' ', tmp: Seq::empty(), out: Seq::empty(), stopped: false }
    } else {
        lex_step(lex_fold(b.drop_last()), b.last())
    }
}

/// The lexemes of a line: those the bytes give, then what is left gathered (a constant or
/// uninitialized-data reference when its closure is open, a word otherwise).
pub open spec fn spec_lex(b: Seq<u8>) -> Seq<(LexKind, Seq<char>)> {
    let st = lex_fold(b);
    if st.tmp.len() > 0 {
        if st.inside && st.mode == '$' {
            st.out.push((LexKind::ConstRef, st.tmp))
        } else if st.inside && st.mode == '%' {
            st.out.push((LexKind::BSSRef, st.tmp))
        } else {
            st.out.push((LexKind::Word, st.tmp))
        }
    } else {
        st.out
    }
}

/// Whether the lexemes `r` are those `s` describes.
pub open spec fn lexemes_are(r: Seq<Lexeme>, s: Seq<(LexKind, Seq<char>)>) -> bool {
    r.len() == s.len() && forall|i: int| 0 <= i < r.len() ==> (#[trigger] r[i]).kind == s[i].0
        && r[i].text@ == s[i].1
}

/// Appends a lexeme.
fn push_lexeme(out: &mut Vec<Lexeme>, kind: LexKind, text: &Vec<char>, Ghost(spec_out): Ghost<
    Seq<(LexKind, Seq<char>)>,
>)
    requires
        lexemes_are(old(out)@, spec_out),
    ensures
        lexemes_are(final(out)@, spec_out.push((kind, text@))),
{
    let s = string_of(text.as_slice());
    out.push(Lexeme { kind, text: s });
    assert forall|i: int| 0 <= i < out@.len() implies (#[trigger] out@[i]).kind == spec_out.push(
        (kind, text@),
    )[i].0 && out@[i].text@ == spec_out.push((kind, text@))[i].1 by {
        if i < old(out)@.len() {
            assert(out@[i] == old(out)@[i]);
        }
    }
}

impl Tokenizer {
    /// The lexemes of a source line, as `spec_lex` reads its bytes: words split at spaces,
    /// tabs and newlines, quoted strings, `$` and `%` references, bracketed text; commas
    /// dropped (inside strings too); a `;` ends the line.
    pub fn lex_line(line: &str) -> (r: Vec<Lexeme>)
        ensures
            lexemes_are(r@, spec_lex(encode_utf8(line@))),
    {
        let bytes = line.as_bytes();
        let mut inside: bool = false;
        let mut mode: char = ' ';
        let mut tmp: Vec<char> = Vec::new();
        let mut out: Vec<Lexeme> = Vec::new();
        let ghost mut spec_out: Seq<(LexKind, Seq<char>)> = Seq::empty();
        let mut i: usize = 0;
        assert(bytes@.take(bytes@.len() as int) =~= bytes@);
        while i < bytes.len()
            invariant_except_break
                i <= bytes@.len(),
                bytes@.take(bytes@.len() as int) == bytes@,
                ({
                    let st = lex_fold(bytes@.take(i as int));
                    &&& st.inside == inside
                    &&& st.mode == mode
                    &&& st.tmp == tmp@
                    &&& st.out == spec_out
                    &&& !st.stopped
                }),
                lexemes_are(out@, spec_out),
            ensures
                ({
                    let st = lex_fold(bytes@);
                    &&& st.inside == inside
                    &&& st.mode == mode
                    &&& st.tmp == tmp@
                    &&& st.out == spec_out
                }),
                lexemes_are(out@, spec_out),
            decreases bytes@.len() - i,
        {
            let b = bytes[i];
            let c = b as char;
            assert(bytes@.take(i + 1).drop_last() =~= bytes@.take(i as int));
            assert(bytes@.take(i + 1).last() == b);
            if c == ';' {
                proof {
                    lemma_lex_stopped(bytes@, i as int + 1);
                }
                assert(bytes@.take(bytes@.len() as int) =~= bytes@);
                break;
            }
            let sep = c == ' ' || c == '\t' || c == '\n';
            if !inside && sep {
                if tmp.len() > 0 {
                    push_lexeme(&mut out, LexKind::Word, &tmp, Ghost(spec_out));
                    proof {
                        spec_out = spec_out.push((LexKind::Word, tmp@));
                    }
                    tmp = Vec::new();
                }
            } else if !inside && mode == ' ' && c == '$' {
                inside = true;
                mode = '$';
            } else if !inside && mode == ' ' && c == '%' {
                inside = true;
                mode = '%';
            } else if !inside && mode == ' ' && c == '"' {
                tmp.push('"');
                inside = true;
                mode = '"';
            } else if inside && mode == '"' && c == '"' {
                tmp.push('"');
                push_lexeme(&mut out, LexKind::Str, &tmp, Ghost(spec_out));
                proof {
                    spec_out = spec_out.push((LexKind::Str, tmp@));
                }
                tmp = Vec::new();
                inside = false;
                mode = ' ';
            } else if c == ',' {
            } else if inside && mode == '$' && sep {
                push_lexeme(&mut out, LexKind::ConstRef, &tmp, Ghost(spec_out));
                proof {
                    spec_out = spec_out.push((LexKind::ConstRef, tmp@));
                }
                tmp = Vec::new();
                inside = false;
                mode = ' ';
            } else if inside && mode == '%' && sep {
                push_lexeme(&mut out, LexKind::BSSRef, &tmp, Ghost(spec_out));
                proof {
                    spec_out = spec_out.push((LexKind::BSSRef, tmp@));
                }
                tmp = Vec::new();
                inside = false;
                mode = ' ';
            } else if inside && mode == '"' && sep {
                tmp.push(c);
            } else if inside && sep {
            } else if !inside && mode == ' ' && c == '[' {
                inside = true;
                mode = '[';
            } else if inside && mode == '[' && c == ']' {
                push_lexeme(&mut out, LexKind::Bracket, &tmp, Ghost(spec_out));
                proof {
                    spec_out = spec_out.push((LexKind::Bracket, tmp@));
                }
                tmp = Vec::new();
            } else {
                tmp.push(c);
            }
            i = i + 1;
            proof {
                if i == bytes@.len() {
                    assert(bytes@.take(i as int) =~= bytes@);
                }
            }
        }
        if tmp.len() > 0 {
            if inside && mode == '$' {
                push_lexeme(&mut out, LexKind::ConstRef, &tmp, Ghost(spec_out));
            } else if inside && mode == '%' {
                push_lexeme(&mut out, LexKind::BSSRef, &tmp, Ghost(spec_out));
            } else {
                push_lexeme(&mut out, LexKind::Word, &tmp, Ghost(spec_out));
            }
        }
        out
    }
}

/// Once a `;` is read, the rest of the line changes nothing.
proof fn lemma_lex_stopped(b: Seq<u8>, i: int)
    requires
        0 < i <= b.len(),
        lex_fold(b.take(i)).stopped,
    ensures
        lex_fold(b) == lex_fold(b.take(i)),
    decreases b.len() - i,
{
    if i < b.len() {
        assert(b.take(i + 1).drop_last() =~= b.take(i));
        lemma_lex_stopped(b, i + 1);
    } else {
        assert(b.take(i) =~= b);
    }
}

/// A token of a source line.
#[derive(Clone, Debug)]
pub enum Token {
    KeyWord(KeyWord),
    Value(Value),
    Symbol(char),
    String(String),
    Label(String),
}

/// What reading a word as a token gives.
pub enum TokenRead {
    KeyWord(KeyWord),
    Value(ValueRead),
    Symbol(char),
    String,
    Label(Seq<char>),
}

/// Reading a word as a token, `is_float` telling whether it reads as a floating-point
/// number: one byte is a digit's value or a symbol; else a keyword, else a value, else a
/// label when it ends with `:` (its characters as many as its bytes less one), else a
/// string.
pub open spec fn spec_read_token(token: Seq<char>, is_float: bool) -> TokenRead {
    let b = encode_utf8(token);
    if b.len() == 1 {
        if is_numeric_byte(b[0]) {
            TokenRead::Value(ValueRead::Int((b[0] - 0x30) as i64))
        } else {
            TokenRead::Symbol(byte_char(b[0]))
        }
    } else if spec_keyword(token) is Some {
        TokenRead::KeyWord(spec_keyword(token).unwrap())
    } else if !(spec_read_value(token, is_float) is Error) {
        TokenRead::Value(spec_read_value(token, is_float))
    } else if b.len() > 0 && b.last() == 0x3a {
        TokenRead::Label(token.take(b.len() - 1))
    } else {
        TokenRead::String
    }
}

/// What reading a word as a token needs: what reading it as a value needs, and for a label
/// no more bytes less one than characters.
pub open spec fn token_fits(token: Seq<char>, is_float: bool) -> bool {
    let b = encode_utf8(token);
    &&& value_fits(token, is_float)
    &&& (b.len() > 0 && b.last() == 0x3a ==> b.len() - 1 <= token.len())
}

/// Whether a token read from `text` is the one `t` describes.
pub open spec fn token_is(r: Token, t: TokenRead, text: Seq<char>) -> bool {
    match t {
        TokenRead::KeyWord(k) => r == Token::KeyWord(k),
        TokenRead::Value(v) => r matches Token::Value(x) && value_result_is(
            Ok::<Value, String>(x),
            v,
            text,
        ),
        TokenRead::Symbol(c) => r matches Token::Symbol(d) && d == c,
        TokenRead::String => r matches Token::String(s) && s@ == text,
        TokenRead::Label(l) => r matches Token::Label(s) && s@ == l,
    }
}

impl Token {
    /// Reads a word as a token, `is_float` telling whether it reads as a floating-point
    /// number; every word is some token.
    pub fn parse(token: &str, is_float: bool) -> (r: Result<Token, String>)
        requires
            token_fits(token@, is_float),
        ensures
            r matches Ok(t) && token_is(t, spec_read_token(token@, is_float), token@),
    {
        let b = token.as_bytes();
        if b.len() == 1 {
            let c = b[0];
            if (0x30 <= c && c <= 0x39) || c == 0xb2 || c == 0xb3 || c == 0xb9 || c == 0xbc || c
                == 0xbd || c == 0xbe {
                return Ok(Token::Value(Value::Int((c - 0x30) as i64)));
            }
            return Ok(Token::Symbol(c as char));
        }
        if let Ok(kw) = KeyWord::parse(token) {
            return Ok(Token::KeyWord(kw));
        }
        if let Ok(v) = Value::parse(token, is_float) {
            return Ok(Token::Value(v));
        }
        if b.len() > 0 && b[b.len() - 1] == 0x3a {
            let n = token.unicode_len();
            let mut chars: Vec<char> = Vec::new();
            let mut i: usize = 0;
            while i < b.len() - 1
                invariant
                    n == token@.len(),
                    b.len() - 1 <= n,
                    i <= b.len() - 1,
                    chars@ == token@.take(i as int),
                decreases b.len() - 1 - i,
            {
                chars.push(token.get_char(i));
                i = i + 1;
                assert(chars@ =~= token@.take(i as int));
            }
            return Ok(Token::Label(string_of(chars.as_slice())));
        }
        Ok(Token::String(String::from_str(token)))
    }

    /// Whether reading `token` as a token stays within 64-bit arithmetic and, for a label,
    /// within its characters, as `token_fits` says.
    pub fn fits(token: &str, is_float: bool) -> (r: bool)
        ensures
            r == token_fits(token@, is_float),
    {
        let b = token.as_bytes();
        if !Value::fits(token, is_float) {
            return false;
        }
        if b.len() > 0 && b[b.len() - 1] == 0x3a {
            return b.len() - 1 <= token.unicode_len();
        }
        true
    }
}

/// Whether reading a lexeme fails: bracketed text that is no value.
pub open spec fn lexeme_fails(kind: LexKind, text: Seq<char>, is_float: bool) -> bool {
    kind == LexKind::Bracket && spec_read_value(text, is_float) is Error
}

/// How many of the first `i` lexemes are read without failing.
pub open spec fn kept_before(
    lex: Seq<(LexKind, Seq<char>)>,
    floats: Seq<bool>,
    i: int,
) -> nat
    decreases i,
{
    if i <= 0 {
        0
    } else if lexeme_fails(lex[i - 1].0, lex[i - 1].1, floats[i - 1]) {
        kept_before(lex, floats, i - 1)
    } else {
        kept_before(lex, floats, i - 1) + 1
    }
}

/// How many of the first `i` lexemes fail to read.
pub open spec fn failed_before(
    lex: Seq<(LexKind, Seq<char>)>,
    floats: Seq<bool>,
    i: int,
) -> nat
    decreases i,
{
    if i <= 0 {
        0
    } else if lexeme_fails(lex[i - 1].0, lex[i - 1].1, floats[i - 1]) {
        failed_before(lex, floats, i - 1) + 1
    } else {
        failed_before(lex, floats, i - 1)
    }
}

/// Whether `t` is the token a lexeme reads as: a word as `spec_read_token` reads it; a
/// string, constant reference or uninitialized-data reference as that value with the
/// lexeme's text; bracketed text as the value `spec_read_value` reads.
pub open spec fn lexeme_token(t: Token, kind: LexKind, text: Seq<char>, is_float: bool) -> bool {
    match kind {
        LexKind::Word => token_is(t, spec_read_token(text, is_float), text),
        LexKind::Str => t matches Token::Value(Value::String(x)) && x@ == text,
        LexKind::ConstRef => t matches Token::Value(Value::ConstRef(x)) && x@ == text,
        LexKind::BSSRef => t matches Token::Value(Value::BSSRef(x)) && x@ == text,
        LexKind::Bracket => t matches Token::Value(v) && value_result_is(
            Ok::<Value, String>(v),
            spec_read_value(text, is_float),
            text,
        ),
    }
}

/// What reading a lexeme needs: a word reads as a token and bracketed text as a value
/// within 64-bit arithmetic.
pub open spec fn lexeme_fits(l: (LexKind, Seq<char>), is_float: bool) -> bool {
    match l.0 {
        LexKind::Word => token_fits(l.1, is_float),
        LexKind::Bracket => value_fits(l.1, is_float),
        _ => true,
    }
}

/// What reading the lexemes needs: each one fits.
pub open spec fn lexemes_fit(lex: Seq<(LexKind, Seq<char>)>, floats: Seq<bool>) -> bool {
    &&& floats.len() == lex.len()
    &&& forall|i: int| 0 <= i < lex.len() ==> lexeme_fits(#[trigger] lex[i], floats[i])
}

/// The counts of read and failed lexemes never go down.
proof fn lemma_counts_grow(lex: Seq<(LexKind, Seq<char>)>, floats: Seq<bool>, j: int, k: int)
    requires
        0 <= j <= k,
    ensures
        kept_before(lex, floats, j) <= kept_before(lex, floats, k),
        failed_before(lex, floats, j) <= failed_before(lex, floats, k),
    decreases k - j,
{
    if j < k {
        lemma_counts_grow(lex, floats, j, k - 1);
    }
}

/// The lexemes `r` as the pairs of kind and text they hold.
pub open spec fn lexeme_pairs(r: Seq<Lexeme>) -> Seq<(LexKind, Seq<char>)> {
    r.map_values(|l: Lexeme| (l.kind, l.text@))
}

impl Tokenizer {
    /// Reads the lexemes of a line as tokens, `is_float[i]` telling whether the text of
    /// lexeme `i` reads as a floating-point number: each lexeme in turn gives its token,
    /// except bracketed text that is no value, which gives its error message instead.
    pub fn read_lexemes(lexemes: &Vec<Lexeme>, is_float: &[bool]) -> (r: (Vec<Token>, Vec<String>))
        requires
            lexemes_fit(lexeme_pairs(lexemes@), is_float@),
        ensures
            ({
                let lex = lexeme_pairs(lexemes@);
                let n = lex.len() as int;
                &&& r.0@.len() == kept_before(lex, is_float@, n)
                &&& r.1@.len() == failed_before(lex, is_float@, n)
                &&& forall|i: int|
                    0 <= i < n && !lexeme_fails(lex[i].0, lex[i].1, is_float@[i]) ==> lexeme_token(
                        #[trigger] r.0@[kept_before(lex, is_float@, i) as int],
                        lex[i].0,
                        lex[i].1,
                        is_float@[i],
                    )
                &&& forall|i: int|
                    0 <= i < n && lexeme_fails(lex[i].0, lex[i].1, is_float@[i]) ==> (
                    spec_read_value(lex[i].1, is_float@[i]) matches ValueRead::Error(m) && (
                    #[trigger] r.1@[failed_before(lex, is_float@, i) as int])@ == m)
            }),
    {
        let ghost lex = lexeme_pairs(lexemes@);
        let mut tokens: Vec<Token> = Vec::new();
        let mut errors: Vec<String> = Vec::new();
        let mut i: usize = 0;
        while i < lexemes.len()
            invariant
                lex == lexeme_pairs(lexemes@),
                lexemes_fit(lex, is_float@),
                i <= lex.len(),
                tokens@.len() == kept_before(lex, is_float@, i as int),
                errors@.len() == failed_before(lex, is_float@, i as int),
                forall|j: int|
                    0 <= j < i && !lexeme_fails(lex[j].0, lex[j].1, is_float@[j]) ==> lexeme_token(
                        #[trigger] tokens@[kept_before(lex, is_float@, j) as int],
                        lex[j].0,
                        lex[j].1,
                        is_float@[j],
                    ),
                forall|j: int|
                    0 <= j < i && lexeme_fails(lex[j].0, lex[j].1, is_float@[j]) ==> (
                    spec_read_value(lex[j].1, is_float@[j]) matches ValueRead::Error(m) && (
                    #[trigger] errors@[failed_before(lex, is_float@, j) as int])@ == m),
            decreases lex.len() - i,
        {
            let l = &lexemes[i];
            let f = is_float[i];
            assert(lex[i as int] == (l.kind, l.text@));
            let ghost old_tokens = tokens@;
            let ghost old_errors = errors@;
            match l.kind {
                LexKind::Word => {
                    let t = Token::parse(l.text.as_str(), f);
                    match t {
                        Ok(t) => tokens.push(t),
                        Err(_) => {},
                    }
                },
                LexKind::Str => tokens.push(Token::Value(Value::String(l.text.clone()))),
                LexKind::ConstRef => tokens.push(Token::Value(Value::ConstRef(l.text.clone()))),
                LexKind::BSSRef => tokens.push(Token::Value(Value::BSSRef(l.text.clone()))),
                LexKind::Bracket => match Value::parse(l.text.as_str(), f) {
                    Ok(v) => tokens.push(Token::Value(v)),
                    Err(e) => errors.push(e),
                },
            }
            assert forall|j: int|
                0 <= j < i + 1 && !lexeme_fails(lex[j].0, lex[j].1, is_float@[j]) implies lexeme_token(
                #[trigger] tokens@[kept_before(lex, is_float@, j) as int],
                lex[j].0,
                lex[j].1,
                is_float@[j],
            ) by {
                if j < i {
                    lemma_counts_grow(lex, is_float@, j + 1, i as int);
                    assert(tokens@[kept_before(lex, is_float@, j) as int] == old_tokens[kept_before(
                        lex,
                        is_float@,
                        j,
                    ) as int]);
                }
            }
            assert forall|j: int|
                0 <= j < i + 1 && lexeme_fails(lex[j].0, lex[j].1, is_float@[j]) implies (
                spec_read_value(lex[j].1, is_float@[j]) matches ValueRead::Error(m) && (
                #[trigger] errors@[failed_before(lex, is_float@, j) as int])@ == m) by {
                if j < i {
                    lemma_counts_grow(lex, is_float@, j + 1, i as int);
                    assert(errors@[failed_before(lex, is_float@, j) as int] == old_errors[failed_before(
                        lex,
                        is_float@,
                        j,
                    ) as int]);
                }
            }
            i = i + 1;
        }
        (tokens, errors)
    }
}

} // verus!
