//! What a bring-up sequence asks of the hardware, step by step.

use crate::irq::InterruptSlot;
use crate::regs::{RegWrite, RegWriteView, Register};
use crate::serial::SerialConfig;
use vstd::prelude::*;

verus! {

/// One step of a sequence. The steps are carried out in order, each to
/// completion before the next.
#[derive(Debug, PartialEq, Eq)]
pub enum Action {
    /// Perform one register write.
    Write(RegWrite),
    /// Busy-wait for the given number of iterations.
    Spin(u32),
    /// Enable delivery of an interrupt source.
    EnableInterrupt(InterruptSlot),
    /// Open the serial transport with the given settings.
    OpenSerial(SerialConfig),
    /// Send the greeting over the serial transport.
    Greet,
}

/// What an [`Action`] says, as a mathematical value.
#[verifier::ext_equal]
pub enum ActionView {
    Write(RegWriteView),
    Spin(u32),
    EnableInterrupt(InterruptSlot),
    OpenSerial(SerialConfig),
    Greet,
}

impl View for Action {
    type V = ActionView;

    open spec fn view(&self) -> ActionView {
        match self {
            Action::Write(w) => ActionView::Write(w@),
            Action::Spin(n) => ActionView::Spin(*n),
            Action::EnableInterrupt(slot) => ActionView::EnableInterrupt(*slot),
            Action::OpenSerial(config) => ActionView::OpenSerial(*config),
            Action::Greet => ActionView::Greet,
        }
    }
}

impl DeepView for Action {
    type V = ActionView;

    open spec fn deep_view(&self) -> ActionView {
        self@
    }
}

/// The register writes among the first `n` actions, in order.
pub open spec fn writes_before(actions: Seq<ActionView>, n: nat) -> Seq<RegWriteView>
    decreases n,
{
    if n == 0 {
        Seq::empty()
    } else {
        match actions[n - 1] {
            ActionView::Write(w) => writes_before(actions, (n - 1) as nat).push(w),
            _ => writes_before(actions, (n - 1) as nat),
        }
    }
}

/// The register writes among the actions, in order.
pub open spec fn writes_of(actions: Seq<ActionView>) -> Seq<RegWriteView> {
    writes_before(actions, actions.len())
}

/// No write among the actions goes to `reg`.
pub open spec fn keeps_off(actions: Seq<ActionView>, reg: Register) -> bool {
    forall|i: int|
        0 <= i < actions.len() ==> ((#[trigger] actions[i]) matches ActionView::Write(w) ==> w.reg
            != reg)
}

/// Every write among the actions goes to `reg`.
pub open spec fn writes_only(actions: Seq<ActionView>, reg: Register) -> bool {
    forall|i: int|
        0 <= i < actions.len() ==> ((#[trigger] actions[i]) matches ActionView::Write(w) ==> w.reg
            == reg)
}

/// Once an interrupt has been enabled, no register write follows. A
/// sequence like this cannot race with the handler of that interrupt: by the
/// time the handler may run, the sequence has made its last write.
pub open spec fn writes_precede_interrupts(actions: Seq<ActionView>) -> bool {
    forall|i: int, j: int|
        0 <= i < j < actions.len() && (#[trigger] actions[i]) is EnableInterrupt ==> !(
        #[trigger] actions[j] is Write)
}

/// Register writes as actions, one for one.
pub open spec fn as_actions(writes: Seq<RegWriteView>) -> Seq<ActionView> {
    writes.map_values(|w: RegWriteView| ActionView::Write(w))
}

/// The register writes among register writes taken as actions are those
/// writes.
pub proof fn lemma_writes_of_writes(writes: Seq<RegWriteView>, n: nat)
    requires
        n <= writes.len(),
    ensures
        writes_before(as_actions(writes), n) == writes.take(n as int),
    decreases n,
{
    if n > 0 {
        lemma_writes_of_writes(writes, (n - 1) as nat);
        assert(writes.take(n as int) =~= writes.take(n - 1).push(writes[n - 1]));
    } else {
        assert(writes.take(0) =~= Seq::empty());
    }
}

/// Within `first`, the register writes of `first + second` are those of
/// `first`.
pub proof fn lemma_writes_before_prefix(first: Seq<ActionView>, second: Seq<ActionView>, n: nat)
    requires
        n <= first.len(),
    ensures
        writes_before(first + second, n) == writes_before(first, n),
    decreases n,
{
    if n > 0 {
        lemma_writes_before_prefix(first, second, (n - 1) as nat);
        assert((first + second)[n - 1] == first[n - 1]);
    }
}

/// Appends one action to a sequence.
pub fn push_action(actions: &mut Vec<Action>, a: Action)
    ensures
        final(actions).deep_view() == old(actions).deep_view().push(a@),
{
    actions.push(a);
    assert(actions.deep_view() =~= old(actions).deep_view().push(a@));
}

/// Appends register writes to a sequence, as actions, keeping their order.
pub fn push_writes(actions: &mut Vec<Action>, writes: Vec<RegWrite>)
    ensures
        final(actions).deep_view() == old(actions).deep_view() + as_actions(writes.deep_view()),
{
    let mut rest = writes;
    let ghost all = rest.deep_view();
    let ghost start = actions.deep_view();
    let mut moved: usize = 0;
    assert(all.len() == rest.len());
    while rest.len() > 0
        invariant
            moved + rest@.len() == all.len(),
            all.len() <= usize::MAX,
            rest.deep_view() == all.skip(moved as int),
            actions.deep_view() == start + as_actions(all.take(moved as int)),
        decreases rest@.len(),
    {
        let ghost before = rest;
        let w = rest.remove(0);
        assert(w@ == before.deep_view()[0]);
        assert forall|j: int| 0 <= j < rest@.len() implies #[trigger] rest.deep_view()[j]
            == all[moved + 1 + j] by {
            assert(rest@[j] == before@[j + 1]);
            assert(before.deep_view()[j + 1] == all.skip(moved as int)[j + 1]);
        }
        assert(rest.deep_view() =~= all.skip(moved + 1));
        push_action(actions, Action::Write(w));
        moved = moved + 1;
        assert(actions.deep_view() =~= start + as_actions(all.take(moved as int)));
    }
    assert(all.take(moved as int) =~= all);
}

/// Busy-waits for `iterations` empty iterations and returns how many it
/// made. How long that takes depends on the core clock and on the compiler.
pub fn spin(iterations: u32) -> (done: u32)
    ensures
        done == iterations,
{
    let mut done: u32 = 0;
    while done < iterations
        invariant
            done <= iterations,
        decreases iterations - done,
    {
        done = done + 1;
    }
    done
}

} // verus!
