//! An interrupt controller kept in software.
//!
//! It has the lines `0..=MAX_INCLUSIVE`. Software raises a line; dispatch
//! then calls the handlers of the lines that are pending, enabled and have a
//! handler, in ascending order of their numbers. A handler that fails is
//! recorded with its reason and never disabled; the lines after it are served
//! all the same.

use vstd::prelude::*;
use crate::context::IRQContext;
use crate::descriptor::IRQDescriptor;
use crate::interface::IRQManager;
use crate::irq_number::IRQNumber;

verus! {

/// One handler call made by a dispatch: the line, and what its handler
/// returned.
#[derive(Clone, Copy)]
pub struct DispatchRecord {
    /// The number of the line that was served.
    pub line: usize,
    /// What the handler of the line returned.
    pub outcome: Result<(), &'static str>,
}

/// Whether the records are in strictly ascending order of their lines, so
/// that no line occurs twice.
pub open spec fn ascending(records: Seq<DispatchRecord>) -> bool {
    forall|i: int, j: int|
        0 <= i < j < records.len() ==> (#[trigger] records[i]).line < (#[trigger] records[j]).line
}

/// Whether the records are those of the lines in `lines`: every record is of
/// one of them, and each of them has a record.
pub open spec fn serves(records: Seq<DispatchRecord>, lines: Set<nat>) -> bool {
    &&& forall|i: int|
        0 <= i < records.len() ==> lines.contains((#[trigger] records[i]).line as nat)
    &&& forall|line: nat|
        lines.contains(line) ==> exists|i: int|
            0 <= i < records.len() && (#[trigger] records[i]).line == line
}

/// The lines served and their order leave no choice: two ascending runs of
/// records for the same lines have the same length and, place by place, the
/// same lines.
pub proof fn lemma_served_lines_are_determined(
    first: Seq<DispatchRecord>,
    second: Seq<DispatchRecord>,
    lines: Set<nat>,
)
    requires
        ascending(first),
        ascending(second),
        serves(first, lines),
        serves(second, lines),
    ensures
        first.len() == second.len(),
        forall|i: int| 0 <= i < first.len() ==> first[i].line == second[i].line,
    decreases first.len(),
{
    if first.len() == 0 {
        if second.len() > 0 {
            assert(lines.contains(second[0].line as nat));
        }
    } else if second.len() == 0 {
        assert(lines.contains(first[0].line as nat));
    } else {
        let top = first.last().line;
        let other_top = second.last().line;
        assert(lines.contains(top as nat));
        assert(lines.contains(other_top as nat));
        let at_second = choose|i: int| 0 <= i < second.len() && (#[trigger] second[i]).line == top;
        let at_first = choose|i: int|
            0 <= i < first.len() && (#[trigger] first[i]).line == other_top;
        assert(top == other_top) by {
            if at_second < second.len() - 1 {
                assert(second[at_second].line < second[second.len() - 1].line);
            }
            if at_first < first.len() - 1 {
                assert(first[at_first].line < first[first.len() - 1].line);
            }
        }
        let rest = lines.remove(top as nat);
        let shorter = first.drop_last();
        let other_shorter = second.drop_last();
        assert(serves(shorter, rest)) by {
            assert forall|i: int| 0 <= i < shorter.len() implies rest.contains(
                (#[trigger] shorter[i]).line as nat,
            ) by {
                assert(first[i].line < first[first.len() - 1].line);
                assert(lines.contains(first[i].line as nat));
            }
            assert forall|line: nat| rest.contains(line) implies exists|i: int|
                0 <= i < shorter.len() && (#[trigger] shorter[i]).line == line by {
                let i = choose|i: int| 0 <= i < first.len() && (#[trigger] first[i]).line == line;
                assert(shorter[i].line == line);
            }
        }
        assert(serves(other_shorter, rest)) by {
            assert forall|i: int| 0 <= i < other_shorter.len() implies rest.contains(
                (#[trigger] other_shorter[i]).line as nat,
            ) by {
                assert(second[i].line < second[second.len() - 1].line);
                assert(lines.contains(second[i].line as nat));
            }
            assert forall|line: nat| rest.contains(line) implies exists|i: int|
                0 <= i < other_shorter.len() && (#[trigger] other_shorter[i]).line == line by {
                let i = choose|i: int|
                    0 <= i < second.len() && (#[trigger] second[i]).line == line;
                assert(other_shorter[i].line == line);
            }
        }
        assert(ascending(shorter)) by {
            assert forall|i: int, j: int| 0 <= i < j < shorter.len() implies (
            #[trigger] shorter[i]).line < (#[trigger] shorter[j]).line by {
                assert(first[i].line < first[j].line);
            }
        }
        assert(ascending(other_shorter)) by {
            assert forall|i: int, j: int| 0 <= i < j < other_shorter.len() implies (
            #[trigger] other_shorter[i]).line < (#[trigger] other_shorter[j]).line by {
                assert(second[i].line < second[j].line);
            }
        }
        lemma_served_lines_are_determined(shorter, other_shorter, rest);
        assert forall|i: int| 0 <= i < first.len() implies first[i].line == second[i].line by {
            if i < first.len() - 1 {
                assert(shorter[i].line == other_shorter[i].line);
            }
        }
    }
}

#[derive(Clone, Copy)]
struct Line {
    descriptor: Option<IRQDescriptor>,
    enabled: bool,
    pending: bool,
}

/// An interrupt controller with the lines `0..=MAX_INCLUSIVE`.
pub struct VirtualIRQController<const MAX_INCLUSIVE: usize> {
    lines: Vec<Line>,
    last_dispatch: Vec<DispatchRecord>,
}

impl<const MAX_INCLUSIVE: usize> VirtualIRQController<MAX_INCLUSIVE> {
    #[verifier::type_invariant]
    spec fn one_entry_per_line(self) -> bool {
        self.lines.len() == MAX_INCLUSIVE + 1
    }

    /// The reason with which a line that has a handler refuses a second one.
    pub open spec fn spec_already_registered() -> &'static str {
        "IRQ handler already registered"
    }

    /// The reason with which a line that has a handler refuses a second one.
    pub fn already_registered() -> (reason: &'static str)
        ensures
            reason == Self::spec_already_registered(),
    {
        "IRQ handler already registered"
    }

    /// The descriptor registered for `line`, if there is one.
    pub closed spec fn handler_at(&self, line: nat) -> Option<IRQDescriptor> {
        if line < self.lines.len() {
            self.lines[line as int].descriptor
        } else {
            None
        }
    }

    /// Whether `line` is enabled.
    pub closed spec fn is_enabled(&self, line: nat) -> bool {
        line < self.lines.len() && self.lines[line as int].enabled
    }

    /// Whether `line` has been raised and not been served since.
    pub closed spec fn is_pending(&self, line: nat) -> bool {
        line < self.lines.len() && self.lines[line as int].pending
    }

    /// Whether the next dispatch serves `line`: it is pending, enabled and
    /// has a handler.
    pub open spec fn deliverable(&self, line: nat) -> bool {
        self.is_pending(line) && self.is_enabled(line) && self.handler_at(line) is Some
    }

    /// The lines that the next dispatch serves.
    pub open spec fn deliverable_lines(&self) -> Set<nat> {
        Set::new(|line: nat| self.deliverable(line))
    }

    /// The handler calls that the most recent dispatch made, in the order in
    /// which it made them.
    pub closed spec fn dispatched(&self) -> Seq<DispatchRecord> {
        self.last_dispatch@
    }

    /// Creates a controller on which no line has a handler, is enabled or
    /// pending.
    pub fn new() -> (controller: Self)
        requires
            MAX_INCLUSIVE < usize::MAX,
        ensures
            forall|line: nat| controller.handler_at(line) is None,
            forall|line: nat| !controller.is_enabled(line),
            forall|line: nat| !controller.is_pending(line),
            controller.dispatched() == Seq::<DispatchRecord>::empty(),
    {
        let mut lines: Vec<Line> = Vec::new();
        let mut line: usize = 0;
        while line <= MAX_INCLUSIVE
            invariant
                MAX_INCLUSIVE < usize::MAX,
                line <= MAX_INCLUSIVE + 1,
                lines.len() == line,
                forall|i: int|
                    0 <= i < line ==> {
                        &&& (#[trigger] lines[i]).descriptor is None
                        &&& !lines[i].enabled
                        &&& !lines[i].pending
                    },
            decreases MAX_INCLUSIVE + 1 - line,
        {
            lines.push(Line { descriptor: None, enabled: false, pending: false });
            line = line + 1;
        }
        VirtualIRQController { lines, last_dispatch: Vec::new() }
    }

    /// Returns the descriptor registered for the line, if there is one.
    pub fn handler(&self, irq_number: IRQNumber<MAX_INCLUSIVE>) -> (descriptor: Option<
        IRQDescriptor,
    >)
        ensures
            descriptor == self.handler_at(irq_number@),
    {
        proof {
            use_type_invariant(self);
        }
        self.lines[irq_number.get()].descriptor
    }

    /// Returns whether the line is enabled.
    pub fn enabled_line(&self, irq_number: IRQNumber<MAX_INCLUSIVE>) -> (enabled: bool)
        ensures
            enabled == self.is_enabled(irq_number@),
    {
        proof {
            use_type_invariant(self);
        }
        self.lines[irq_number.get()].enabled
    }

    /// Returns whether the line is pending.
    pub fn pending_line(&self, irq_number: IRQNumber<MAX_INCLUSIVE>) -> (pending: bool)
        ensures
            pending == self.is_pending(irq_number@),
    {
        proof {
            use_type_invariant(self);
        }
        self.lines[irq_number.get()].pending
    }

    /// Returns the handler calls that the most recent dispatch made, in the
    /// order in which it made them.
    pub fn last_dispatch(&self) -> (records: &Vec<DispatchRecord>)
        ensures
            records@ == self.dispatched(),
    {
        &self.last_dispatch
    }

    /// Raises the line: it is pending until a dispatch serves it.
    pub fn raise(&mut self, irq_number: IRQNumber<MAX_INCLUSIVE>)
        ensures
            final(self).is_pending(irq_number@),
            forall|line: nat|
                line != irq_number@ ==> final(self).is_pending(line) == old(self).is_pending(line),
            forall|line: nat| final(self).is_enabled(line) == old(self).is_enabled(line),
            forall|line: nat| final(self).handler_at(line) == old(self).handler_at(line),
            final(self).dispatched() == old(self).dispatched(),
    {
        proof {
            use_type_invariant(&*self);
        }
        let line = irq_number.get();
        let entry = self.lines[line];
        self.lines[line] = Line { pending: true, ..entry };
    }
}

impl<const MAX_INCLUSIVE: usize> IRQManager for VirtualIRQController<MAX_INCLUSIVE> {
    type IRQNumberType = IRQNumber<MAX_INCLUSIVE>;

    open spec fn registered(&self) -> Map<IRQNumber<MAX_INCLUSIVE>, IRQDescriptor> {
        Map::new(
            |irq_number: IRQNumber<MAX_INCLUSIVE>| self.handler_at(irq_number@) is Some,
            |irq_number: IRQNumber<MAX_INCLUSIVE>| self.handler_at(irq_number@)->0,
        )
    }

    open spec fn enabled(&self) -> Set<IRQNumber<MAX_INCLUSIVE>> {
        Set::new(|irq_number: IRQNumber<MAX_INCLUSIVE>| self.is_enabled(irq_number@))
    }

    open spec fn supports(&self, irq_number: IRQNumber<MAX_INCLUSIVE>) -> bool {
        irq_number@ <= MAX_INCLUSIVE
    }

    /// Registers the descriptor for the line unless the line has one.
    ///
    /// Every number of the type names a line of the controller, so a second
    /// registration is the only one that is refused.
    fn register_handler(
        &mut self,
        irq_number: IRQNumber<MAX_INCLUSIVE>,
        descriptor: IRQDescriptor,
    ) -> (result: Result<(), &'static str>)
        ensures
            result == if old(self).handler_at(irq_number@) is Some {
                Err::<(), &'static str>(Self::spec_already_registered())
            } else {
                Ok::<(), &'static str>(())
            },
            result is Err ==> *final(self) == *old(self),
            result is Ok ==> final(self).handler_at(irq_number@) == Some(descriptor),
            forall|line: nat|
                line != irq_number@ ==> final(self).handler_at(line) == old(self).handler_at(line),
            forall|line: nat| final(self).is_enabled(line) == old(self).is_enabled(line),
            forall|line: nat| final(self).is_pending(line) == old(self).is_pending(line),
            final(self).dispatched() == old(self).dispatched(),
    {
        proof {
            use_type_invariant(&*self);
        }
        let line = irq_number.get();
        let entry = self.lines[line];
        if entry.descriptor.is_some() {
            return Err(Self::already_registered());
        }
        self.lines[line] = Line { descriptor: Some(descriptor), ..entry };
        proof {
            assert forall|other: IRQNumber<MAX_INCLUSIVE>| other@ == irq_number@ implies other
                == irq_number by {
                other.lemma_same_line_same_number(irq_number);
            }
            assert(final(self).registered() =~= old(self).registered().insert(
                irq_number,
                descriptor,
            ));
            assert(final(self).enabled() =~= old(self).enabled());
        }
        Ok(())
    }

    /// Enables the line, whether it has a handler or not.
    fn enable(&mut self, irq_number: IRQNumber<MAX_INCLUSIVE>)
        ensures
            final(self).is_enabled(irq_number@),
            forall|line: nat|
                line != irq_number@ ==> final(self).is_enabled(line) == old(self).is_enabled(line),
            forall|line: nat| final(self).handler_at(line) == old(self).handler_at(line),
            forall|line: nat| final(self).is_pending(line) == old(self).is_pending(line),
            final(self).dispatched() == old(self).dispatched(),
    {
        proof {
            use_type_invariant(&*self);
        }
        let line = irq_number.get();
        let entry = self.lines[line];
        self.lines[line] = Line { enabled: true, ..entry };
        proof {
            assert(final(self).registered() =~= old(self).registered());
        }
    }

    /// Serves the lines that are pending, enabled and have a handler, in
    /// ascending order of their numbers, each once.
    ///
    /// A served line is no longer pending. The other lines stay as they are:
    /// a pending line that is disabled or has no handler is still pending.
    /// The handler calls are on record afterwards, each with what the handler
    /// returned; a failure does not keep the lines after it from being
    /// served.
    fn handle_pending_irqs<'irq_context>(&'irq_context mut self, ic: &IRQContext<'irq_context>)
        ensures
            forall|line: nat| final(self).handler_at(line) == old(self).handler_at(line),
            forall|line: nat| final(self).is_enabled(line) == old(self).is_enabled(line),
            forall|line: nat|
                final(self).is_pending(line) == (old(self).is_pending(line)
                    && !old(self).deliverable(line)),
            ascending(final(self).dispatched()),
            serves(final(self).dispatched(), old(self).deliverable_lines()),
    {
        proof {
            use_type_invariant(&*self);
        }
        let ghost before = *self;
        let mut records: Vec<DispatchRecord> = Vec::new();
        let mut line: usize = 0;
        while line < self.lines.len()
            invariant
                self.lines.len() == MAX_INCLUSIVE + 1,
                before.lines.len() == MAX_INCLUSIVE + 1,
                line <= self.lines.len(),
                forall|l: nat| self.handler_at(l) == before.handler_at(l),
                forall|l: nat| self.is_enabled(l) == before.is_enabled(l),
                forall|l: nat|
                    self.is_pending(l) == (before.is_pending(l) && !(l < line
                        && before.deliverable(l))),
                ascending(records@),
                forall|i: int|
                    0 <= i < records.len() ==> (#[trigger] records[i]).line < line
                        && before.deliverable(records[i].line as nat),
                forall|l: nat|
                    l < line && before.deliverable(l) ==> exists|i: int|
                        0 <= i < records.len() && (#[trigger] records[i]).line == l,
            decreases self.lines.len() - line,
        {
            let entry = self.lines[line];
            if entry.pending && entry.enabled {
                if let Some(descriptor) = entry.descriptor {
                    self.lines[line] = Line { pending: false, ..entry };
                    let outcome = descriptor.handler.handle();
                    let ghost earlier = records@;
                    records.push(DispatchRecord { line, outcome });
                    proof {
                        assert forall|l: nat|
                            l < line + 1 && before.deliverable(l) implies exists|i: int|
                            0 <= i < records.len() && (#[trigger] records[i]).line == l by {
                            if l < line {
                                let i = choose|i: int|
                                    0 <= i < earlier.len() && (#[trigger] earlier[i]).line == l;
                                assert(records[i].line == l);
                            } else {
                                assert(records[earlier.len() as int].line == l);
                            }
                        }
                    }
                }
            }
            line = line + 1;
        }
        self.last_dispatch = records;
        proof {
            assert(final(self).registered() =~= old(self).registered());
            assert(final(self).enabled() =~= old(self).enabled());
        }
    }
}

} // verus!
