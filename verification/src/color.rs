use vstd::prelude::*;

use crate::text::push_char;

verus! {

/// Terminal colors.
#[derive(Clone, Copy, Debug, PartialEq, Eq, Structural)]
pub enum Color {
    BLACK,
    RED,
    GREEN,
    YELLOW,
    BLUE,
    PURPLE,
    CYAN,
    WHITE,
}

/// Text modifiers.
#[derive(Clone, Copy, Debug, PartialEq, Eq, Structural)]
pub enum Modifier {
    Regular,
    Bold,
    Underline,
}

/// The ANSI number of a color (added to 30 for the foreground code).
pub open spec fn spec_color_code(c: Color) -> u8 {
    match c {
        Color::BLACK => 0,
        Color::RED => 1,
        Color::GREEN => 2,
        Color::YELLOW => 3,
        Color::BLUE => 4,
        Color::PURPLE => 5,
        Color::CYAN => 6,
        Color::WHITE => 7,
    }
}

/// The ANSI number of a modifier.
pub open spec fn spec_modifier_code(m: Modifier) -> u8 {
    match m {
        Modifier::Regular => 0,
        Modifier::Bold => 1,
        Modifier::Underline => 4,
    }
}

impl Color {
    /// The ANSI number of this color.
    pub fn code(self) -> (c: u8)
        ensures
            c == spec_color_code(self),
            c < 8,
    {
        match self {
            Color::BLACK => 0,
            Color::RED => 1,
            Color::GREEN => 2,
            Color::YELLOW => 3,
            Color::BLUE => 4,
            Color::PURPLE => 5,
            Color::CYAN => 6,
            Color::WHITE => 7,
        }
    }
}

impl Modifier {
    /// The ANSI number of this modifier.
    pub fn code(self) -> (c: u8)
        ensures
            c == spec_modifier_code(self),
            c < 8,
    {
        match self {
            Modifier::Regular => 0,
            Modifier::Bold => 1,
            Modifier::Underline => 4,
        }
    }
}

/// A string with a color and a modifier.
#[derive(Clone, Debug)]
pub struct ColString {
    pub val: String,
    pub col: Color,
    pub mdf: Modifier,
}

/// The decimal digit character of a number below 10.
pub open spec fn digit_char(d: u8) -> char {
    (48 + d) as char
}

/// The text shown for a colored string: the plain text when colors are off, otherwise the
/// text between the ANSI sequence `ESC [ <modifier> ; 3<color> m` and the reset `ESC [ 0 m`.
pub open spec fn spec_render(val: Seq<char>, col: Color, mdf: Modifier, nocolor: bool) -> Seq<char> {
    if nocolor {
        val
    } else {
        seq!['\x1b', '[', digit_char(spec_modifier_code(mdf)), ';', '3', digit_char(
            spec_color_code(col),
        ), 'm'] + val + seq!['\x1b', '[', '0', 'm']
    }
}

fn push_str_chars(s: &mut String, t: &str)
    ensures
        final(s)@ == old(s)@ + t@,
{
    let n = t.unicode_len();
    let mut i: usize = 0;
    while i < n
        invariant
            n == t@.len(),
            i <= n,
            s@ == old(s)@ + t@.subrange(0, i as int),
        decreases n - i,
    {
        push_char(s, t.get_char(i));
        i = i + 1;
        assert(s@ =~= old(s)@ + t@.subrange(0, i as int));
    }
    assert(t@.subrange(0, n as int) =~= t@);
}

impl ColString {
    /// A white, regular string.
    pub fn new(arg: String) -> (c: Self)
        ensures
            c.val@ == arg@,
            c.col == Color::WHITE,
            c.mdf == Modifier::Regular,
    {
        ColString { val: arg, col: Color::WHITE, mdf: Modifier::Regular }
    }

    /// The same string with color `col`.
    pub fn set_color(self, col: Color) -> (c: Self)
        ensures
            c.val == self.val,
            c.col == col,
            c.mdf == self.mdf,
    {
        ColString { val: self.val, col, mdf: self.mdf }
    }

    /// The same string with modifier `mdf`.
    pub fn set_modf(self, mdf: Modifier) -> (c: Self)
        ensures
            c.val == self.val,
            c.col == self.col,
            c.mdf == mdf,
    {
        ColString { val: self.val, col: self.col, mdf }
    }

    /// The text to show: plain when colors are off, else wrapped in ANSI sequences.
    pub fn render(&self, nocolor: bool) -> (r: String)
        ensures
            r@ == spec_render(self.val@, self.col, self.mdf, nocolor),
    {
        let mut s = String::new();
        if nocolor {
            push_str_chars(&mut s, self.val.as_str());
            assert(s@ =~= self.val@);
            return s;
        }
        let m = self.mdf.code();
        let c = self.col.code();
        push_char(&mut s, '\x1b');
        push_char(&mut s, '[');
        push_char(&mut s, (48u8 + m) as char);
        push_char(&mut s, ';');
        push_char(&mut s, '3');
        push_char(&mut s, (48u8 + c) as char);
        push_char(&mut s, 'm');
        push_str_chars(&mut s, self.val.as_str());
        push_char(&mut s, '\x1b');
        push_char(&mut s, '[');
        push_char(&mut s, '0');
        push_char(&mut s, 'm');
        assert(s@ =~= spec_render(self.val@, self.col, self.mdf, nocolor));
        s
    }
}

} // verus!
