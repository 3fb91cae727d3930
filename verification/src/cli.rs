use vstd::prelude::*;

use crate::booltable::{with_flag, BoolTable16};
use crate::text::str_eq;

verus! {

pub const HELP: u8 = 0x0;
pub const DBG: u8 = 0x1;
pub const NOCOL: u8 = 0x2;
pub const SUPPORTED_INS: u8 = 0x3;
pub const SUPPORTEDINSR: u8 = 0x4;
pub const VER: u8 = 0x5;
pub const NO_ASSEMBLE: u8 = 0x6;
pub const NO_CHECK: u8 = 0x7;

/// The command line: the target (`-f`), the input (`-i`) and output (`-o`) paths and the
/// flags.
#[derive(Clone, Debug)]
pub struct Cli {
    pub target: Option<String>,
    pub infile: Option<String>,
    pub outfile: Option<String>,
    pub flags: BoolTable16,
}

/// The characters of an optional string.
pub open spec fn opt_view(o: Option<String>) -> Option<Seq<char>> {
    match o {
        Some(s) => Some(s@),
        None => None,
    }
}

/// The parsed command line as values: target, input, output, flag word.
pub type CliModel = (Option<Seq<char>>, Option<Seq<char>>, Option<Seq<char>>, u16);

/// The position of the first '=' in `s` at or after `i`.
pub open spec fn eq_pos_from(s: Seq<char>, i: int) -> Option<int>
    decreases s.len() - i,
{
    if i < 0 || i >= s.len() {
        None
    } else if s[i] == '=' {
        Some(i)
    } else {
        eq_pos_from(s, i + 1)
    }
}

/// An argument split at its first '=' into key and value; the whole argument as key and no
/// value without '='.
pub open spec fn split_arg(a: Seq<char>) -> (Seq<char>, Option<Seq<char>>) {
    match eq_pos_from(a, 0) {
        Some(p) => (a.subrange(0, p), Some(a.subrange(p + 1, a.len() as int))),
        None => (a, None),
    }
}

/// The flag a key sets, if it is a flag key. "--skip-check" is the name the help text gives
/// the flag that "-C" and "--no-check" set, and is accepted with them.
pub open spec fn flag_of_key(k: Seq<char>) -> Option<u8> {
    if k == "-h"@ || k == "--help"@ {
        Some(HELP)
    } else if k == "-d"@ || k == "--debug"@ {
        Some(DBG)
    } else if k == "-C"@ || k == "--skip-check"@ || k == "--no-check"@ {
        Some(NO_CHECK)
    } else if k == "-v"@ || k == "--version"@ {
        Some(VER)
    } else if k == "-c"@ || k == "--check"@ {
        Some(NO_ASSEMBLE)
    } else if k == "-s"@ || k == "--supported-instructions"@ {
        Some(SUPPORTED_INS)
    } else if k == "-S"@ || k == "--supported-instructions-raw"@ {
        Some(SUPPORTEDINSR)
    } else if k == "-n"@ || k == "--nocolor"@ {
        Some(NOCOL)
    } else {
        None
    }
}

/// The effect of one argument: a flag key sets its flag; `-i`/`--input`, `-o`/`--output` and
/// `-f` set the input, output and target to the value (to none without value); anything else
/// changes nothing.
pub open spec fn apply_arg(m: CliModel, a: Seq<char>) -> CliModel {
    let (k, v) = split_arg(a);
    match flag_of_key(k) {
        Some(f) => (m.0, m.1, m.2, with_flag(m.3, f as u16, true)),
        None => if k == "-i"@ || k == "--input"@ {
            (m.0, v, m.2, m.3)
        } else if k == "-o"@ || k == "--output"@ {
            (m.0, m.1, v, m.3)
        } else if k == "-f"@ {
            (v, m.1, m.2, m.3)
        } else {
            m
        },
    }
}

/// The command line after the arguments `args[1..k]`.
pub open spec fn cli_after(args: Seq<String>, k: int) -> CliModel
    decreases k,
{
    if k <= 1 {
        (None, None, None, 0u16)
    } else {
        apply_arg(cli_after(args, k - 1), args[k - 1]@)
    }
}

proof fn lemma_eq_pos_bounds(s: Seq<char>, i: int)
    ensures
        eq_pos_from(s, i) matches Some(p) ==> i <= p < s.len() && s[p] == '=',
    decreases s.len() - i,
{
    if 0 <= i < s.len() && s[i] != '=' {
        lemma_eq_pos_bounds(s, i + 1);
    }
}

/// The position of the first '=' in `s`.
fn find_eq(s: &str) -> (r: Option<usize>)
    ensures
        match eq_pos_from(s@, 0) {
            Some(p) => r == Some(p as usize),
            None => r.is_none(),
        },
{
    let n = s.unicode_len();
    let mut i: usize = 0;
    while i < n
        invariant
            n == s@.len(),
            i <= n,
            eq_pos_from(s@, 0) == eq_pos_from(s@, i as int),
        decreases n - i,
    {
        if s.get_char(i) == '=' {
            return Some(i);
        }
        i = i + 1;
    }
    None
}

/// The flag a key sets, if it is a flag key.
fn key_flag(k: &str) -> (r: Option<u8>)
    ensures
        r == flag_of_key(k@),
{
    if str_eq(k, "-h") || str_eq(k, "--help") {
        Some(HELP)
    } else if str_eq(k, "-d") || str_eq(k, "--debug") {
        Some(DBG)
    } else if str_eq(k, "-C") || str_eq(k, "--skip-check") || str_eq(k, "--no-check") {
        Some(NO_CHECK)
    } else if str_eq(k, "-v") || str_eq(k, "--version") {
        Some(VER)
    } else if str_eq(k, "-c") || str_eq(k, "--check") {
        Some(NO_ASSEMBLE)
    } else if str_eq(k, "-s") || str_eq(k, "--supported-instructions") {
        Some(SUPPORTED_INS)
    } else if str_eq(k, "-S") || str_eq(k, "--supported-instructions-raw") {
        Some(SUPPORTEDINSR)
    } else if str_eq(k, "-n") || str_eq(k, "--nocolor") {
        Some(NOCOL)
    } else {
        None
    }
}

impl Cli {
    /// The command line as values.
    pub open spec fn model(self) -> CliModel {
        (opt_view(self.target), opt_view(self.infile), opt_view(self.outfile), self.flags.data)
    }

    /// The input path.
    pub fn infile(&self) -> (r: &Option<String>)
        ensures
            r == &self.infile,
    {
        &self.infile
    }

    /// The output path.
    pub fn outfile(&self) -> (r: &Option<String>)
        ensures
            r == &self.outfile,
    {
        &self.outfile
    }

    /// Whether colored output is off (`-n`).
    pub fn nocolor(&self) -> (r: bool)
        ensures
            r == self.flags.has(NOCOL as int),
    {
        self.flags.at(NOCOL)
    }

    /// Whether checking is skipped (`-C`).
    pub fn nocheck(&self) -> (r: bool)
        ensures
            r == self.flags.has(NO_CHECK as int),
    {
        self.flags.at(NO_CHECK)
    }

    /// Whether help was asked for (`-h`).
    pub fn help(&self) -> (r: bool)
        ensures
            r == self.flags.has(HELP as int),
    {
        self.flags.at(HELP)
    }

    /// Whether the version was asked for (`-v`).
    pub fn version(&self) -> (r: bool)
        ensures
            r == self.flags.has(VER as int),
    {
        self.flags.at(VER)
    }

    /// Whether debug output is on (`-d`).
    pub fn debug(&self) -> (r: bool)
        ensures
            r == self.flags.has(DBG as int),
    {
        self.flags.at(DBG)
    }

    /// Whether only checking is asked for (`-c`).
    pub fn check(&self) -> (r: bool)
        ensures
            r == self.flags.has(NO_ASSEMBLE as int),
    {
        self.flags.at(NO_ASSEMBLE)
    }

    /// Whether the raw list of supported instructions was asked for (`-S`).
    pub fn supported_instructions_raw(&self) -> (r: bool)
        ensures
            r == self.flags.has(SUPPORTEDINSR as int),
    {
        self.flags.at(SUPPORTEDINSR)
    }

    /// Whether the list of supported instructions was asked for (`-s`).
    pub fn supported_instructions(&self) -> (r: bool)
        ensures
            r == self.flags.has(SUPPORTED_INS as int),
    {
        self.flags.at(SUPPORTED_INS)
    }

    /// Parses the arguments after the program name, in order.
    pub fn new(args: Vec<String>) -> (cli: Self)
        requires
            args@.len() >= 1,
        ensures
            cli.model() == cli_after(args@, args@.len() as int),
    {
        let mut cli = Cli { target: None, infile: None, outfile: None, flags: BoolTable16::new() };
        let mut k: usize = 1;
        while k < args.len()
            invariant
                1 <= k <= args@.len(),
                cli.model() == cli_after(args@, k as int),
            decreases args@.len() - k,
        {
            let a = args[k].as_str();
            let n = a.unicode_len();
            proof {
                lemma_eq_pos_bounds(a@, 0);
            }
            let (key, val): (&str, Option<&str>) = match find_eq(a) {
                Some(p) => (a.substring_char(0, p), Some(a.substring_char(p + 1, n))),
                None => (a, None),
            };
            let val_owned: Option<String> = match val {
                Some(v) => Some(String::from_str(v)),
                None => None,
            };
            proof {
                let (sk, sv) = split_arg(a@);
                assert(key@ == sk);
                assert(opt_view(val_owned) == sv);
            }
            match key_flag(key) {
                Some(f) => {
                    cli.flags.set(f, true);
                },
                None => {
                    if str_eq(key, "-i") || str_eq(key, "--input") {
                        cli.infile = val_owned;
                    } else if str_eq(key, "-o") || str_eq(key, "--output") {
                        cli.outfile = val_owned;
                    } else if str_eq(key, "-f") {
                        cli.target = val_owned;
                    }
                },
            }
            k = k + 1;
        }
        cli
    }
}

} // verus!
