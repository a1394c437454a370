//! The interrupt mask of the executing core.
//!
//! The mask belongs to the hardware. Here it is carried as a value:
//! the code that owns the core hands a [`LocalIRQState`] to the functions of
//! this module and commits what they leave in it.

use vstd::prelude::*;

verus! {

/// The interrupt mask of one core: whether delivery of interrupts to it is
/// disabled.
#[derive(Clone, Copy, Debug, PartialEq, Eq, Structural)]
pub struct LocalIRQState {
    masked: bool,
}

impl LocalIRQState {
    /// Whether interrupts are masked in this state.
    pub closed spec fn is_masked(&self) -> bool {
        self.masked
    }

    /// The state of a core whose interrupts are masked iff `masked`.
    pub fn new(masked: bool) -> (state: Self)
        ensures
            state.is_masked() == masked,
    {
        LocalIRQState { masked }
    }

    /// Two states are the same state iff they agree on the mask.
    pub proof fn lemma_determined_by_mask(self, other: Self)
        ensures
            self == other <==> self.is_masked() == other.is_masked(),
    {
    }
}

/// Returns whether interrupts are masked on the core.
pub fn is_local_irq_masked(core: &LocalIRQState) -> (masked: bool)
    ensures
        masked == core.is_masked(),
{
    core.masked
}

/// Masks interrupts on the core.
pub fn local_irq_mask(core: &mut LocalIRQState)
    ensures
        final(core).is_masked(),
{
    core.masked = true;
}

/// Unmasks interrupts on the core.
pub fn local_irq_unmask(core: &mut LocalIRQState)
    ensures
        !final(core).is_masked(),
{
    core.masked = false;
}

/// Masks interrupts on the core and returns the state it was in before.
pub fn local_irq_mask_save(core: &mut LocalIRQState) -> (saved: LocalIRQState)
    ensures
        saved == *old(core),
        final(core).is_masked(),
{
    let saved = *core;
    core.masked = true;
    saved
}

/// Puts the core back into a state that was saved earlier.
pub fn local_irq_restore(core: &mut LocalIRQState, saved: LocalIRQState)
    ensures
        *final(core) == saved,
{
    *core = saved;
}

/// Runs `f` with interrupts masked on the core and returns what `f` returned.
///
/// The core is handed to `f` masked. Whatever `f` does to the mask, and
/// whatever it returns, the core leaves this function in the state in which
/// it entered it.
pub fn exec_with_irq_masked<T, F: FnOnce(&mut LocalIRQState) -> T>(
    core: &mut LocalIRQState,
    f: F,
) -> (ret: T)
    requires
        forall|masked_core: &mut LocalIRQState|
            masked_core.is_masked() ==> call_requires(f, (masked_core,)),
    ensures
        *final(core) == *old(core),
        exists|masked_core: &mut LocalIRQState|
            masked_core.is_masked() && call_ensures(f, (masked_core,), ret),
{
    let saved = local_irq_mask_save(core);
    let ret = f(core);
    local_irq_restore(core, saved);

    ret
}

} // verus!
