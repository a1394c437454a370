//! Evidence of running in interrupt context.

use vstd::prelude::*;
use core::marker::PhantomData;
use crate::masking::LocalIRQState;

verus! {

/// A token that stands for "this core is handling an interrupt right now".
///
/// Functions that may only run while an interrupt is being serviced take a
/// reference to a token. The token holds no data. It borrows the state of the
/// core for as long as it lives, so the mask cannot be changed in that time
/// and the token cannot be kept beyond the interrupt that it was made for.
#[derive(Clone, Copy)]
pub struct IRQContext<'irq_context> {
    _0: PhantomData<&'irq_context ()>,
}

impl<'irq_context> IRQContext<'irq_context> {
    /// Creates the token for the interrupt that `core` has just taken.
    ///
    /// This is for the interrupt vector alone. A core enters its vector with
    /// interrupts masked, so an unmasked core is refused.
    #[inline(always)]
    pub fn new(core: &'irq_context LocalIRQState) -> (ic: Self)
        requires
            core.is_masked(),
    {
        IRQContext { _0: PhantomData }
    }
}

} // verus!
