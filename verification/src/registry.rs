//! The registry of the active interrupt manager.

use vstd::prelude::*;
use crate::context::IRQContext;
use crate::descriptor::IRQDescriptor;
use crate::interface::IRQManager;
use crate::null_irq_manager::NullIRQManager;

verus! {

/// The manager that the registry currently answers with.
pub enum ActiveIRQManager<M: IRQManager> {
    /// No driver has registered itself yet.
    Null(NullIRQManager<M::IRQNumberType>),
    /// The registered driver.
    Registered(M),
}

impl<M: IRQManager> IRQManager for ActiveIRQManager<M> {
    type IRQNumberType = M::IRQNumberType;

    open spec fn registered(&self) -> Map<M::IRQNumberType, IRQDescriptor> {
        match self {
            ActiveIRQManager::Null(null) => null.registered(),
            ActiveIRQManager::Registered(manager) => manager.registered(),
        }
    }

    open spec fn enabled(&self) -> Set<M::IRQNumberType> {
        match self {
            ActiveIRQManager::Null(null) => null.enabled(),
            ActiveIRQManager::Registered(manager) => manager.enabled(),
        }
    }

    open spec fn supports(&self, irq_number: M::IRQNumberType) -> bool {
        match self {
            ActiveIRQManager::Null(null) => null.supports(irq_number),
            ActiveIRQManager::Registered(manager) => manager.supports(irq_number),
        }
    }

    fn register_handler(
        &mut self,
        irq_number: M::IRQNumberType,
        descriptor: IRQDescriptor,
    ) -> (result: Result<(), &'static str>)
        ensures
            *old(self) is Null ==> {
                &&& result == Err::<(), &'static str>(
                    NullIRQManager::<M::IRQNumberType>::spec_refusal(),
                )
                &&& *final(self) == *old(self)
            },
            *old(self) is Registered ==> {
                &&& *final(self) is Registered
                &&& exists|manager: &mut M|
                    {
                        &&& *manager == old(self)->Registered_0
                        &&& *final(manager) == final(self)->Registered_0
                        &&& call_ensures(
                            M::register_handler,
                            (manager, irq_number, descriptor),
                            result,
                        )
                    }
            },
    {
        match self {
            ActiveIRQManager::Null(null) => null.register_handler(irq_number, descriptor),
            ActiveIRQManager::Registered(manager) => manager.register_handler(
                irq_number,
                descriptor,
            ),
        }
    }

    fn enable(&mut self, irq_number: M::IRQNumberType)
        ensures
            *old(self) is Null ==> *final(self) == *old(self),
            *old(self) is Registered ==> {
                &&& *final(self) is Registered
                &&& exists|manager: &mut M|
                    {
                        &&& *manager == old(self)->Registered_0
                        &&& *final(manager) == final(self)->Registered_0
                        &&& call_ensures(M::enable, (manager, irq_number), ())
                    }
            },
    {
        match self {
            ActiveIRQManager::Null(null) => null.enable(irq_number),
            ActiveIRQManager::Registered(manager) => manager.enable(irq_number),
        }
    }

    fn handle_pending_irqs<'irq_context>(&'irq_context mut self, ic: &IRQContext<'irq_context>)
        ensures
            *old(self) is Null ==> *final(self) == *old(self),
            *old(self) is Registered ==> {
                &&& *final(self) is Registered
                &&& exists|manager: &mut M|
                    {
                        &&& *manager == old(self)->Registered_0
                        &&& *final(manager) == final(self)->Registered_0
                        &&& call_ensures(M::handle_pending_irqs, (manager, ic), ())
                    }
            },
    {
        match self {
            ActiveIRQManager::Null(null) => null.handle_pending_irqs(ic),
            ActiveIRQManager::Registered(manager) => manager.handle_pending_irqs(ic),
        }
    }

    /// Prints what the active manager prints.
    fn print_handler(&self) {
        match self {
            ActiveIRQManager::Null(null) => null.print_handler(),
            ActiveIRQManager::Registered(manager) => manager.print_handler(),
        }
    }
}

/// The registry of the active manager: one slot, filled by the driver that
/// registers itself and read by everyone who needs the manager.
///
/// A registry starts out uninitialised. In that phase it answers with the
/// null manager, so a read never finds the slot empty.
pub struct IRQManagerRegistry<M: IRQManager> {
    current: ActiveIRQManager<M>,
}

impl<M: IRQManager> IRQManagerRegistry<M> {
    /// The manager that the registry answers with.
    pub closed spec fn current(&self) -> ActiveIRQManager<M> {
        self.current
    }

    /// Whether a driver has registered itself.
    pub open spec fn is_initialized(&self) -> bool {
        self.current() is Registered
    }

    /// The registry after `new_manager` has registered itself in it.
    pub closed spec fn with_manager(self, new_manager: M) -> Self {
        IRQManagerRegistry { current: ActiveIRQManager::Registered(new_manager) }
    }

    /// What `with_manager` leaves in the registry.
    pub proof fn lemma_with_manager(self, new_manager: M)
        ensures
            self.with_manager(new_manager).current() == ActiveIRQManager::Registered(new_manager),
    {
    }

    /// Creates the registry in its uninitialised phase.
    pub fn new() -> (registry: Self)
        ensures
            !registry.is_initialized(),
    {
        IRQManagerRegistry { current: ActiveIRQManager::Null(NullIRQManager::new()) }
    }

    /// Returns whether a driver has registered itself.
    pub fn initialized(&self) -> (initialized: bool)
        ensures
            initialized == self.is_initialized(),
    {
        match self.current {
            ActiveIRQManager::Null(_) => false,
            ActiveIRQManager::Registered(_) => true,
        }
    }
}

/// Registers a new manager. It takes the place of the one that was active.
pub fn register_irq_manager<M: IRQManager>(registry: &mut IRQManagerRegistry<M>, new_manager: M)
    ensures
        *final(registry) == old(registry).with_manager(new_manager),
        final(registry).current() == ActiveIRQManager::Registered(new_manager),
{
    registry.current = ActiveIRQManager::Registered(new_manager);
}

/// Returns the active manager: the one that was registered last, or the null
/// manager while none has been.
///
/// What is done to the manager through the reference is done to the manager
/// in the registry.
pub fn irq_manager<M: IRQManager>(registry: &mut IRQManagerRegistry<M>) -> (manager:
    &mut ActiveIRQManager<M>)
    ensures
        *manager == old(registry).current(),
        final(registry).current() == *final(manager),
{
    &mut registry.current
}

} // verus!
