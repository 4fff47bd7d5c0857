//! State kept for the stateful button widget.

use vstd::prelude::*;

verus! {

/// The button widget's render state; it carries nothing yet.
#[derive(Debug, Default)]
pub struct ButtonState;

} // verus!
