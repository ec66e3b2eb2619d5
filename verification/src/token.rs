//! Tokens that name connections.
use vstd::prelude::*;

verus! {

/// The identifier of a connection: the number of its socket.
#[derive(Debug, Clone, Copy, PartialEq, Eq, Structural, Hash)]
pub struct Token(pub usize);

impl From<usize> for Token {
    fn from(val: usize) -> (r: Token) {
        Token(val)
    }
}

impl vstd::std_specs::convert::FromSpecImpl<usize> for Token {
    open spec fn obeys_from_spec() -> bool {
        true
    }

    open spec fn from_spec(val: usize) -> Token {
        Token(val)
    }
}

} // verus!
