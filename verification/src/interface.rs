//! The capabilities that handlers and interrupt controllers provide.

use vstd::prelude::*;
use crate::context::IRQContext;
use crate::descriptor::IRQDescriptor;

verus! {

/// Implemented by types that handle interrupts.
pub trait IRQHandler: Sync {
    /// Called when the corresponding interrupt is asserted.
    ///
    /// Returns the reason when the handler could not do its work.
    fn handle(&self) -> Result<(), &'static str>;
}

/// Interrupt management functions, typically implemented by the driver of
/// the platform's interrupt controller.
///
/// A manager is described by the lines it has, the lines that have a handler
/// and the lines that it delivers. The operations that change it take it by
/// exclusive reference, so none of them can run while another one does: a
/// registration cannot interleave with a dispatch.
pub trait IRQManager: Sized {
    /// The interrupt number type depends on the implementation.
    type IRQNumberType;

    /// The lines that have a handler, each with its descriptor.
    spec fn registered(&self) -> Map<Self::IRQNumberType, IRQDescriptor>;

    /// The lines that the controller delivers.
    spec fn enabled(&self) -> Set<Self::IRQNumberType>;

    /// Whether the controller has a line `irq_number`.
    spec fn supports(&self, irq_number: Self::IRQNumberType) -> bool;

    /// Registers a handler for a line.
    ///
    /// Fails with the reason when the line already has a handler or is not
    /// one of the controller's, and then changes no registration. Otherwise
    /// the registrations are those from before and the new one. Must not be
    /// called from interrupt context.
    fn register_handler(
        &mut self,
        irq_number: Self::IRQNumberType,
        descriptor: IRQDescriptor,
    ) -> (result: Result<(), &'static str>)
        ensures
            old(self).registered().contains_key(irq_number) ==> result is Err,
            !old(self).supports(irq_number) ==> result is Err,
            result is Ok ==> final(self).registered() == old(self).registered().insert(
                irq_number,
                descriptor,
            ),
            result is Err ==> final(self).registered() == old(self).registered(),
            final(self).enabled() == old(self).enabled(),
            forall|line: Self::IRQNumberType|
                final(self).supports(line) == old(self).supports(line),
    ;

    /// Enables a line in the controller.
    ///
    /// A line with a handler is delivered afterwards, and no line stops
    /// being delivered. What becomes of a line without a handler is for the
    /// implementation to decide and to say.
    fn enable(&mut self, irq_number: Self::IRQNumberType)
        ensures
            old(self).registered().contains_key(irq_number) ==> final(self).enabled().contains(
                irq_number,
            ),
            old(self).enabled().subset_of(final(self).enabled()),
            final(self).registered() == old(self).registered(),
            forall|line: Self::IRQNumberType|
                final(self).supports(line) == old(self).supports(line),
    ;

    /// Handles the pending interrupts.
    ///
    /// This is called from the interrupt vector of the core, with the core's
    /// interrupts masked. It cannot be preempted and runs from start to
    /// finish. The token makes sure that it is called from nowhere else.
    /// Which lines are pending, and in which order their handlers are called,
    /// is for the implementation to decide and to say. Registrations and
    /// enabled lines are left as they are.
    fn handle_pending_irqs<'irq_context>(&'irq_context mut self, ic: &IRQContext<'irq_context>)
        ensures
            final(self).registered() == old(self).registered(),
            final(self).enabled() == old(self).enabled(),
            forall|line: Self::IRQNumberType|
                final(self).supports(line) == old(self).supports(line),
    ;

    /// Prints the list of registered handlers. Does nothing unless the
    /// implementation says otherwise.
    fn print_handler(&self) {
    }
}

} // verus!
