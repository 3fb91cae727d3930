use vstd::prelude::*;

use crate::conf::{BIN, VER};

verus! {

/// The version string.
pub fn version() -> (r: String)
    ensures
        r@ == VER@,
{
    String::from_str(VER)
}

/// The help message: name and version, the flags with what they do, author, license and
/// source.
pub fn help() -> (r: String)
    ensures
        r@ == BIN@ + " - "@ + VER@ + "\n"@ + "Flags:\n"@ + "\t--help / -h                       ; prints this message\n"@ + "\t-d / --debug                      ; prints hex dump of each instruction\n"@ + "\t-i=[PATH] / --input=[PATH]        ; specifies input file\n"@ + "\t-o=[PATH] / --output=[PATH]       ; specifies output file, by default a.out\n"@ + "\t-v / --version                    ; prints version\n"@ + "\t-C / --skip-check                 ; skips checking part to gain performance (up to 25%)\n"@ + "\t-n / --nocolor                    ; prints all colored text without color\n"@ + "made by matissoss\nlicensed under MPL 2.0"@ + "\nsource code: https://github.com/Matissoss/pasm"@,
{
    let mut help_string = String::from_str(BIN);
    help_string.append(" - ");
    help_string.append(VER);
    help_string.append("\n");
    help_string.append("Flags:\n");
    help_string.append("\t--help / -h                       ; prints this message\n");
    help_string.append("\t-d / --debug                      ; prints hex dump of each instruction\n");
    help_string.append("\t-i=[PATH] / --input=[PATH]        ; specifies input file\n");
    help_string.append("\t-o=[PATH] / --output=[PATH]       ; specifies output file, by default a.out\n");
    help_string.append("\t-v / --version                    ; prints version\n");
    help_string.append("\t-C / --skip-check                 ; skips checking part to gain performance (up to 25%)\n");
    help_string.append("\t-n / --nocolor                    ; prints all colored text without color\n");
    help_string.append("made by matissoss\nlicensed under MPL 2.0");
    help_string.append("\nsource code: https://github.com/Matissoss/pasm");
    help_string
}

} // verus!
