//! The manager that is in place before a driver has registered itself.

use vstd::prelude::*;
use core::marker::PhantomData;
use crate::context::IRQContext;
use crate::descriptor::IRQDescriptor;
use crate::interface::IRQManager;

verus! {

/// A manager without lines. It accepts no handler and dispatches nothing.
pub struct NullIRQManager<N> {
    _number: PhantomData<N>,
}

impl<N> NullIRQManager<N> {
    /// The reason with which the null manager refuses a registration.
    pub open spec fn spec_refusal() -> &'static str {
        "No IRQ manager registered yet"
    }

    /// The reason with which the null manager refuses a registration.
    pub fn refusal() -> (reason: &'static str)
        ensures
            reason == Self::spec_refusal(),
    {
        "No IRQ manager registered yet"
    }

    /// Creates the null manager.
    pub fn new() -> (manager: Self) {
        NullIRQManager { _number: PhantomData }
    }
}

impl<N> IRQManager for NullIRQManager<N> {
    type IRQNumberType = N;

    open spec fn registered(&self) -> Map<N, IRQDescriptor> {
        Map::empty()
    }

    open spec fn enabled(&self) -> Set<N> {
        Set::empty()
    }

    open spec fn supports(&self, irq_number: N) -> bool {
        false
    }

    /// Refuses every registration, always with the same reason.
    fn register_handler(&mut self, irq_number: N, descriptor: IRQDescriptor) -> (result: Result<
        (),
        &'static str,
    >)
        ensures
            result == Err::<(), &'static str>(Self::spec_refusal()),
            *final(self) == *old(self),
    {
        Err(Self::refusal())
    }

    /// Does nothing: there is no line to enable.
    fn enable(&mut self, irq_number: N)
        ensures
            *final(self) == *old(self),
    {
    }

    /// Does nothing: no interrupt is ever pending here.
    fn handle_pending_irqs<'irq_context>(&'irq_context mut self, ic: &IRQContext<'irq_context>)
        ensures
            *final(self) == *old(self),
    {
    }
}

} // verus!
