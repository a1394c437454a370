//! Interrupt management for a bare-metal kernel.
//!
//! The crate defines how interrupt handlers are represented, registered and
//! called, and how code shows that it runs in interrupt context:
//!
//! - [`IRQNumber`]: an interrupt number with a range check built into the type;
//! - [`IRQContext`]: the token that stands for "this core is handling an
//!   interrupt";
//! - [`interface::IRQHandler`] and [`interface::IRQManager`]: what a handler
//!   and the driver of an interrupt controller provide;
//! - [`IRQManagerRegistry`]: the slot that holds the active manager, with the
//!   null manager in it until a driver registers itself;
//! - [`LocalIRQState`] and its functions: the interrupt mask of a core, and
//!   running code with interrupts masked;
//! - [`VirtualIRQController`]: a manager kept in software.

pub mod context;
pub mod controller;
pub mod descriptor;
pub mod interface;
pub mod irq_number;
pub mod laws;
pub mod masking;
pub mod null_irq_manager;
pub mod registry;

pub use context::IRQContext;
pub use controller::{DispatchRecord, VirtualIRQController};
pub use descriptor::IRQDescriptor;
pub use interface::{IRQHandler, IRQManager};
pub use irq_number::IRQNumber;
pub use masking::{
    exec_with_irq_masked, is_local_irq_masked, local_irq_mask, local_irq_mask_save,
    local_irq_restore, local_irq_unmask, LocalIRQState,
};
pub use null_irq_manager::NullIRQManager;
pub use registry::{irq_manager, register_irq_manager, ActiveIRQManager, IRQManagerRegistry};
