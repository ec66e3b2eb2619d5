//! HTTP/2 error codes.
use vstd::prelude::*;

verus! {

/// An HTTP/2 error code, as carried by RST_STREAM and GOAWAY frames.
#[derive(Debug, Clone, Copy, PartialEq, Eq, Structural, Hash)]
pub struct Reason(pub u32);

impl Reason {
    /// The error code as an integer.
    pub fn code(&self) -> (r: u32)
        ensures
            r == self.0,
    {
        self.0
    }
}

impl From<u32> for Reason {
    fn from(src: u32) -> (r: Reason) {
        Reason(src)
    }
}

impl vstd::std_specs::convert::FromSpecImpl<u32> for Reason {
    open spec fn obeys_from_spec() -> bool {
        true
    }

    open spec fn from_spec(src: u32) -> Reason {
        Reason(src)
    }
}

impl From<Reason> for u32 {
    fn from(src: Reason) -> (r: u32) {
        src.0
    }
}

impl vstd::std_specs::convert::FromSpecImpl<Reason> for u32 {
    open spec fn obeys_from_spec() -> bool {
        true
    }

    open spec fn from_spec(src: Reason) -> u32 {
        src.0
    }
}

} // verus!
