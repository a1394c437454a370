//! What a driver registers for an interrupt line.

use vstd::prelude::*;
use crate::interface::IRQHandler;

verus! {

/// Interrupt descriptor: a label and the handler to call.
///
/// The handler is borrowed for the rest of the program's life. Nothing here
/// owns it.
#[derive(Clone, Copy)]
pub struct IRQDescriptor {
    /// Descriptive name.
    pub name: &'static str,
    /// The handler that is called when the interrupt is asserted.
    pub handler: &'static dyn IRQHandler,
}

} // verus!
