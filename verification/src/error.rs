//! Errors reported by a renderer.

use vstd::prelude::*;
use crate::element::ElementId;

verus! {

/// A refusal by the native host, with the host's own account of it.
#[derive(Debug, PartialEq, Eq)]
pub struct HostFailure {
    pub message: String,
}

/// Why a renderer operation did not take effect.
#[derive(Debug, PartialEq, Eq)]
pub enum RenderError {
    /// The element was never created by this renderer.
    MissingElement(ElementId),
    /// Nothing has been created yet, so there is no element 0 to publish.
    MissingRoot,
    /// Every identifier has been handed out.
    Exhausted,
    /// The native host refused the request.
    Native(HostFailure),
}

impl RenderError {
    /// Turns what the host answered into the renderer's own result: a host
    /// success is passed through, a host refusal becomes `Native`.
    pub fn from_host<T>(outcome: Result<T, HostFailure>) -> (r: Result<T, RenderError>)
        ensures
            r == Self::host_result(outcome),
    {
        match outcome {
            Ok(v) => Ok(v),
            Err(failure) => Err(RenderError::Native(failure)),
        }
    }

    /// The renderer's result for a given answer of the host.
    pub open spec fn host_result<T>(outcome: Result<T, HostFailure>) -> Result<T, RenderError> {
        match outcome {
            Ok(v) => Ok(v),
            Err(failure) => Err(RenderError::Native(failure)),
        }
    }

    /// True for the errors that come from looking an element up.
    pub open spec fn is_lookup(self) -> bool {
        self is MissingElement || self is MissingRoot
    }
}

} // verus!
