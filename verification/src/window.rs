//! Marker for the host window integration.

use vstd::prelude::*;

verus! {

/// The simulation core owns no window. The embedding shell supplies the
/// plugin behaviour (window sizing, titling, icon) keyed to this marker.
pub struct WindowPlugin;

} // verus!
