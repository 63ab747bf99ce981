//! Tracing setup hook.
use vstd::prelude::*;

verus! {

/// Initialise tracing. The subscriber itself is installed by the binary;
/// the library keeps no global state, so this hook does nothing.
pub fn init_placeholder() {
}

} // verus!
