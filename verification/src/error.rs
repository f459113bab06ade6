//! The error raised at the core seams.
use vstd::prelude::*;

use crate::wire::WireError;

verus! {

/// Error raised at the core seams.
#[derive(Debug)]
pub enum CoreError {
    /// A wire-framing failure.
    Wire(WireError),
    /// Any other core-side failure, with its reason.
    Other(String),
}

impl From<WireError> for CoreError {
    fn from(e: WireError) -> (r: CoreError) {
        CoreError::Wire(e)
    }
}

impl vstd::std_specs::convert::FromSpecImpl<WireError> for CoreError {
    open spec fn obeys_from_spec() -> bool {
        true
    }

    open spec fn from_spec(e: WireError) -> CoreError {
        CoreError::Wire(e)
    }
}

} // verus!
