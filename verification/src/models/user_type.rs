use vstd::prelude::*;

verus! {

/// Whether a caller is a known user or an anonymous one.
#[derive(Debug, PartialEq, Eq, Clone, Copy, Structural)]
pub enum UserType {
    Known,
    Anonymous,
}

} // verus!
