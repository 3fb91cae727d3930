use vstd::prelude::*;

verus! {

/// Width of a line when listing supported instructions.
pub const LINE_WIDTH: usize = 25;

/// Characters that begin and end closures.
pub const CLOSURE_START: char = '(';
pub const CLOSURE_END: char = ')';

/// Characters that begin and end subexpressions.
pub const SUBEXPR_START: char = '{';
pub const SUBEXPR_CLOSE: char = '}';

/// Prefix of registers.
pub const PREFIX_REG: char = '%';
/// Prefix of constant and immediate values.
pub const PREFIX_VAL: char = '$';
/// Prefix of symbol references.
pub const PREFIX_REF: char = '@';

/// Program name.
pub const BIN: &'static str = "pasm";
/// Program version.
pub const VER: &'static str = "25.06-beta2";

} // verus!
