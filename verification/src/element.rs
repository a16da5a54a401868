//! Identifiers for elements and for the native widgets behind them.

use vstd::prelude::*;

verus! {

/// Identifies one element within the renderer that issued it.
///
/// A renderer hands out its identifiers in order of creation, starting at 0,
/// and never reuses one.
#[derive(Debug, PartialEq, Eq, Hash, Copy, Clone, Structural)]
pub struct ElementId(pub u32);

/// An opaque reference to a native widget.
///
/// The host platform owns the widget; the number only names it in requests
/// made to that host.
#[derive(Debug, PartialEq, Eq, Hash, Copy, Clone, Structural)]
pub struct ViewHandle(pub u64);

} // verus!
