//! The boot sequence of the shell firmware, from reset to the point where
//! the shell loop can start.

use crate::actions::{
    as_actions, keeps_off, lemma_writes_before_prefix, lemma_writes_of_writes, push_action,
    push_writes, writes_before, writes_of, writes_precede_interrupts, Action, ActionView,
};
use crate::blink::led_register;
use crate::clocks::{
    clock_tree_sequence, configure_clock_tree, enable_peripheral_clocks,
    lemma_clock_tree_order, lemma_peripheral_clock_sequence_shape,
    lemma_selector_order_survives_suffix, peripheral_clock_sequence, selectors_follow_plls,
    ClockDomain,
};
use crate::irq::{console_interrupt, interrupt_slot, slot_of, spec_console_interrupt};
use crate::pinmux::{
    configure_pins, lemma_pin_mux_sequence_shape, lemma_remap_order_survives, pin_mux_sequence,
    remap_cleared_first, remap_write,
};
use crate::pll::{
    held_down_while_configured, leaves_alone, lemma_discipline_survives_suffix,
    pll0_1_000_000_000, pll2_1_188_000_000, spec_pll0_1_000_000_000, spec_pll2_1_188_000_000,
    Pll,
};
use crate::regs::{
    append_writes, lemma_unwritten_register_avoided, trace_avoids, trace_skips,
    trace_well_formed, trace_within, Block, RegWrite, RegWriteView, Register,
};
use crate::serial::{console_config, spec_console_config};
use vstd::prelude::*;

verus! {

/// All register writes of the boot sequence: the clock tree first, then
/// the pin multiplexer, then the peripheral clocks.
pub open spec fn boot_writes() -> Seq<RegWriteView> {
    clock_tree_sequence(spec_pll0_1_000_000_000(), spec_pll2_1_188_000_000())
        + pin_mux_sequence() + peripheral_clock_sequence()
}

/// What follows the register writes: the interrupt of the console is
/// enabled, the console is opened, and it prints its greeting.
pub open spec fn console_bring_up() -> Seq<ActionView> {
    seq![
        ActionView::EnableInterrupt(slot_of(spec_console_interrupt())),
        ActionView::OpenSerial(spec_console_config()),
        ActionView::Greet,
    ]
}

/// The boot sequence: every register write, then the console.
pub open spec fn boot_sequence() -> Seq<ActionView> {
    as_actions(boot_writes()) + console_bring_up()
}

/// The register writes of the boot sequence are [`boot_writes`], and all of
/// them come before the interrupt is enabled and the console is touched.
pub proof fn lemma_boot_writes_come_first()
    ensures
        writes_of(boot_sequence()) == boot_writes(),
        forall|i: int|
            0 <= i < boot_sequence().len() ==> ((#[trigger] boot_sequence()[i]) is Write <==> i
                < boot_writes().len()),
        writes_precede_interrupts(boot_sequence()),
{
    let writes = boot_writes();
    let all = boot_sequence();
    let n = writes.len() as int;
    assert(all.len() == n + 3);
    reveal_with_fuel(writes_before, 4);
    lemma_writes_of_writes(writes, n as nat);
    assert(writes.take(n) =~= writes);
    lemma_writes_before_prefix(as_actions(writes), console_bring_up(), n as nat);
    assert(writes_before(all, n as nat) == writes);
    assert(all[n] == console_bring_up()[0]);
    assert(all[n + 1] == console_bring_up()[1]);
    assert(all[n + 2] == console_bring_up()[2]);
    assert forall|i: int| 0 <= i < all.len() implies ((#[trigger] all[i]) is Write <==> i
        < n) by {
        if i < n {
            assert(all[i] == as_actions(writes)[i]);
        } else {
            assert(all[i] == console_bring_up()[i - n]);
        }
    }
}

/// What the boot sequence does after the clock tree is up stays off the
/// PLLs and the clock selectors.
proof fn lemma_after_clock_tree()
    ensures
        trace_well_formed(pin_mux_sequence() + peripheral_clock_sequence()),
        leaves_alone(pin_mux_sequence() + peripheral_clock_sequence(), Pll::Pll0),
        leaves_alone(pin_mux_sequence() + peripheral_clock_sequence(), Pll::Pll2),
        forall|d: ClockDomain|
            trace_avoids(
                pin_mux_sequence() + peripheral_clock_sequence(),
                #[trigger] d.selector_of(),
            ),
        trace_within(peripheral_clock_sequence(), Block::SysCrg),
        trace_skips(pin_mux_sequence() + peripheral_clock_sequence(), led_register()),
{
    let pins = pin_mux_sequence();
    let clocks = peripheral_clock_sequence();
    let rest = pins + clocks;
    lemma_pin_mux_sequence_shape();
    lemma_peripheral_clock_sequence_shape();
    assert forall|i: int| 0 <= i < rest.len() implies {
        &&& (#[trigger] rest[i]).well_formed()
        &&& (rest[i].reg == Register::SysSyscfg3 || rest[i].reg.block_of() == Block::SysPinctrl
            || rest[i].reg == Register::ClkApb0 || rest[i].reg == Register::ClkU0UartApb)
        &&& rest[i].reg != Register::GpoDout10
    } by {
        if i < 17 {
            assert(rest[i] == pins[i]);
            if i == 0 {
                assert(pins[0] == remap_write());
            }
        } else {
            assert(rest[i] == clocks[i - 17]);
        }
    }
    let cpu = Pll::Pll0.fields_of();
    let bus = Pll::Pll2.fields_of();
    lemma_unwritten_register_avoided(rest, cpu.pd);
    lemma_unwritten_register_avoided(rest, cpu.dacpd);
    lemma_unwritten_register_avoided(rest, cpu.dsmpd);
    lemma_unwritten_register_avoided(rest, cpu.prediv);
    lemma_unwritten_register_avoided(rest, cpu.fbdiv);
    lemma_unwritten_register_avoided(rest, cpu.postdiv1);
    lemma_unwritten_register_avoided(rest, bus.pd);
    lemma_unwritten_register_avoided(rest, bus.dacpd);
    lemma_unwritten_register_avoided(rest, bus.dsmpd);
    lemma_unwritten_register_avoided(rest, bus.prediv);
    lemma_unwritten_register_avoided(rest, bus.fbdiv);
    lemma_unwritten_register_avoided(rest, bus.postdiv1);
    assert forall|d: ClockDomain| trace_avoids(rest, #[trigger] d.selector_of()) by {
        lemma_unwritten_register_avoided(rest, d.selector_of());
    }
}

/// Over the whole boot sequence each PLL is held down while it is
/// configured, the clock selectors are written only after both PLLs are back
/// up, and the voltage remap is cleared before the pin controller is
/// touched.
pub proof fn lemma_boot_order()
    ensures
        held_down_while_configured(boot_writes(), Pll::Pll0),
        held_down_while_configured(boot_writes(), Pll::Pll2),
        selectors_follow_plls(boot_writes()),
        remap_cleared_first(boot_writes()),
        trace_well_formed(boot_writes()),
{
    let tree = clock_tree_sequence(spec_pll0_1_000_000_000(), spec_pll2_1_188_000_000());
    let pins = pin_mux_sequence();
    let clocks = peripheral_clock_sequence();
    let rest = pins + clocks;
    assert(boot_writes() =~= tree + rest);
    lemma_clock_tree_order(spec_pll0_1_000_000_000(), spec_pll2_1_188_000_000());
    lemma_after_clock_tree();
    lemma_discipline_survives_suffix(tree, rest, Pll::Pll0);
    lemma_discipline_survives_suffix(tree, rest, Pll::Pll2);
    lemma_selector_order_survives_suffix(tree, rest);
    lemma_pin_mux_sequence_shape();
    lemma_clock_tree_stays_off_pins();
    lemma_remap_order_survives(tree, pins, clocks);
    let writes = boot_writes();
    assert forall|i: int| 0 <= i < writes.len() implies (#[trigger] writes[i]).well_formed() by {
        if i < tree.len() {
            assert(writes[i] == tree[i]);
        } else {
            assert(writes[i] == rest[i - tree.len()]);
        }
    }
}

/// The boot sequence never writes the register that drives the LED: that
/// register is left to the interrupt handler.
pub proof fn lemma_boot_keeps_off_led()
    ensures
        trace_skips(boot_writes(), led_register()),
        keeps_off(boot_sequence(), led_register()),
{
    let tree = clock_tree_sequence(spec_pll0_1_000_000_000(), spec_pll2_1_188_000_000());
    let rest = pin_mux_sequence() + peripheral_clock_sequence();
    let writes = boot_writes();
    let all = boot_sequence();
    assert(writes =~= tree + rest);
    lemma_clock_tree_stays_off_pins();
    lemma_after_clock_tree();
    assert forall|i: int| 0 <= i < writes.len() implies (#[trigger] writes[i]).reg
        != Register::GpoDout10 by {
        if i < tree.len() {
            assert(writes[i] == tree[i]);
            assert(tree[i].reg.block_of() != Block::SysPinctrl);
        } else {
            assert(writes[i] == rest[i - tree.len()]);
        }
    }
    assert forall|i: int| 0 <= i < all.len() implies (
    (#[trigger] all[i]) matches ActionView::Write(w) ==> w.reg != Register::GpoDout10) by {
        if i < writes.len() {
            assert(all[i] == as_actions(writes)[i]);
        } else {
            assert(all[i] == console_bring_up()[i - writes.len()]);
        }
    }
}

/// No write of the clock tree sequence goes to the pin controller.
proof fn lemma_clock_tree_stays_off_pins()
    ensures
        forall|i: int|
            0 <= i < clock_tree_sequence(
                spec_pll0_1_000_000_000(),
                spec_pll2_1_188_000_000(),
            ).len() ==> (#[trigger] clock_tree_sequence(
                spec_pll0_1_000_000_000(),
                spec_pll2_1_188_000_000(),
            )[i]).reg.block_of() != Block::SysPinctrl,
{
    let tree = clock_tree_sequence(spec_pll0_1_000_000_000(), spec_pll2_1_188_000_000());
    assert(tree.len() == 14);
}

/// The register writes of the boot sequence.
pub fn boot_register_writes() -> (plan: Vec<RegWrite>)
    ensures
        plan.deep_view() == boot_writes(),
        trace_well_formed(plan.deep_view()),
{
    let mut plan = configure_clock_tree(pll0_1_000_000_000(), pll2_1_188_000_000());
    append_writes(&mut plan, configure_pins());
    append_writes(&mut plan, enable_peripheral_clocks());
    proof {
        lemma_boot_order();
    }
    plan
}

/// The boot sequence of the shell firmware. Its steps are to be carried out
/// in order; when the last is done, the shell loop may start.
pub fn boot() -> (steps: Vec<Action>)
    ensures
        steps.deep_view() == boot_sequence(),
        writes_of(steps.deep_view()) == boot_writes(),
        held_down_while_configured(writes_of(steps.deep_view()), Pll::Pll0),
        held_down_while_configured(writes_of(steps.deep_view()), Pll::Pll2),
        selectors_follow_plls(writes_of(steps.deep_view())),
        remap_cleared_first(writes_of(steps.deep_view())),
        trace_well_formed(writes_of(steps.deep_view())),
        writes_precede_interrupts(steps.deep_view()),
        keeps_off(steps.deep_view(), led_register()),
{
    let mut steps: Vec<Action> = Vec::new();
    push_writes(&mut steps, boot_register_writes());
    push_action(&mut steps, Action::EnableInterrupt(interrupt_slot(console_interrupt())));
    push_action(&mut steps, Action::OpenSerial(console_config()));
    push_action(&mut steps, Action::Greet);
    proof {
        assert(steps.deep_view() =~= boot_sequence());
        lemma_boot_writes_come_first();
        lemma_boot_order();
        lemma_boot_keeps_off_led();
    }
    steps
}

} // verus!
