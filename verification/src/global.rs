use vstd::prelude::*;

verus! {

/// One of two values.
#[derive(PartialEq, Debug, Eq, Hash, Ord, PartialOrd)]
pub enum Orb<T, Y> {
    A(T),
    B(Y),
}

} // verus!
