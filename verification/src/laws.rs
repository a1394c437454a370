//! What holds of the library's functions taken together.
//!
//! Each law speaks of calls through `call_ensures`: of everything that a
//! call may return and leave behind according to the function's contract.

use vstd::prelude::*;
use crate::descriptor::IRQDescriptor;
use crate::interface::IRQManager;
use crate::context::IRQContext;
use crate::irq_number::IRQNumber;
use crate::null_irq_manager::NullIRQManager;
use crate::registry::{irq_manager, register_irq_manager, ActiveIRQManager, IRQManagerRegistry};

verus! {

/// Every number up to the maximum can be wrapped, and the number that was
/// wrapped is the number that comes back.
pub proof fn lemma_wrapped_number_comes_back<const MAX_INCLUSIVE: usize>(number: usize)
    requires
        number <= MAX_INCLUSIVE,
    ensures
        call_requires(IRQNumber::<MAX_INCLUSIVE>::new, (number,)),
        forall|irq_number: IRQNumber<MAX_INCLUSIVE>, back: usize|
            #[trigger] call_ensures(IRQNumber::<MAX_INCLUSIVE>::new, (number,), irq_number)
                && #[trigger] call_ensures(IRQNumber::<MAX_INCLUSIVE>::get, (irq_number,), back)
                ==> back == number,
{
}

/// While no driver has registered itself, a registration through the
/// manager that the registry answers with is refused with the null manager's
/// reason, and the registry is afterwards as it was.
pub proof fn lemma_registration_before_any_manager<M: IRQManager>()
    ensures
        forall|
            reading: &mut IRQManagerRegistry<M>,
            manager: &mut ActiveIRQManager<M>,
            irq_number: M::IRQNumberType,
            descriptor: IRQDescriptor,
            result: Result<(), &'static str>,
        |
            {
                &&& !reading.is_initialized()
                &&& #[trigger] call_ensures(irq_manager::<M>, (reading,), manager)
                &&& #[trigger] call_ensures(
                    ActiveIRQManager::<M>::register_handler,
                    (manager, irq_number, descriptor),
                    result,
                )
            } ==> {
                &&& result == Err::<(), &'static str>(
                    NullIRQManager::<M::IRQNumberType>::spec_refusal(),
                )
                &&& final(reading).current() == reading.current()
            },
{
}

/// While no driver has registered itself, a dispatch through the manager
/// that the registry answers with changes nothing.
pub proof fn lemma_dispatch_before_any_manager<M: IRQManager>()
    ensures
        forall|
            reading: &mut IRQManagerRegistry<M>,
            manager: &mut ActiveIRQManager<M>,
            ic: &IRQContext,
        |
            {
                &&& !reading.is_initialized()
                &&& #[trigger] call_ensures(irq_manager::<M>, (reading,), manager)
                &&& #[trigger] call_ensures(
                    ActiveIRQManager::<M>::handle_pending_irqs,
                    (manager, ic),
                    (),
                )
            } ==> final(reading).current() == reading.current(),
{
}

/// After a manager has registered itself, the registry answers with that
/// manager, whatever it answered with before.
pub proof fn lemma_registered_manager_is_current<M: IRQManager>(
    registry: IRQManagerRegistry<M>,
    new_manager: M,
)
    ensures
        registry.with_manager(new_manager).is_initialized(),
        registry.with_manager(new_manager).current() == ActiveIRQManager::Registered(new_manager),
{
    IRQManagerRegistry::lemma_with_manager(registry, new_manager);
}

/// A read that follows a registration returns the manager that was
/// registered. A read through which nothing is changed leaves that manager in
/// the registry, so the next read returns it again.
pub proof fn lemma_reads_return_the_registered_manager<M: IRQManager>()
    ensures
        forall|
            registering: &mut IRQManagerRegistry<M>,
            new_manager: M,
            reading: &mut IRQManagerRegistry<M>,
            manager: &mut ActiveIRQManager<M>,
        |
            {
                &&& #[trigger] call_ensures(
                    register_irq_manager::<M>,
                    (registering, new_manager),
                    (),
                )
                &&& *reading == *final(registering)
                &&& #[trigger] call_ensures(irq_manager::<M>, (reading,), manager)
            } ==> {
                &&& *manager == ActiveIRQManager::Registered(new_manager)
                &&& *final(manager) == *manager ==> final(reading).current()
                    == ActiveIRQManager::Registered(new_manager)
            },
{
}

/// Once a line has a handler, every manager refuses a second registration
/// for it, and the first one stays in place.
pub proof fn lemma_second_registration_is_refused<M: IRQManager>()
    ensures
        forall|
            first: &mut M,
            second: &mut M,
            irq_number: M::IRQNumberType,
            first_descriptor: IRQDescriptor,
            second_descriptor: IRQDescriptor,
            first_result: Result<(), &'static str>,
            second_result: Result<(), &'static str>,
        |
            {
                &&& #[trigger] call_ensures(
                    M::register_handler,
                    (first, irq_number, first_descriptor),
                    first_result,
                )
                &&& first_result is Ok
                &&& *second == *final(first)
                &&& #[trigger] call_ensures(
                    M::register_handler,
                    (second, irq_number, second_descriptor),
                    second_result,
                )
            } ==> {
                &&& second_result is Err
                &&& final(second).registered() == second.registered()
                &&& final(second).registered().contains_key(irq_number)
                &&& final(second).registered()[irq_number] == first_descriptor
            },
{
}

} // verus!
