//! The clock tree: both PLLs, then the selectors that route a source to each
//! clock domain, and the enable bits of the peripheral clocks.

use crate::pll::{
    held_down_while_configured, leaves_alone, lemma_discipline_survives_prefix,
    lemma_discipline_survives_suffix, lemma_pll_sequence_is_safe,
    lemma_pll_sequences_independent, pll_sequence, set_pll_freq, Pll, PllFreq,
};
use crate::regs::{
    append_writes, apply_write, field_value_after, last_written_before,
    lemma_avoided_field_unwritten, lemma_last_written_concat_left,
    lemma_last_written_concat_right, push_write, trace_avoids,
    trace_well_formed, Field, FieldWrite, RegState, RegWrite, RegWriteView, Register,
};
use vstd::prelude::*;

verus! {

/// A clock domain with a source selector.
#[derive(Clone, Copy, Debug, PartialEq, Eq, Structural)]
pub enum ClockDomain {
    CpuRoot,
    BusRoot,
    PeripheralRoot,
    /// The always-on APB bus.
    AonApb,
}

impl ClockDomain {
    /// The selector field of this domain.
    pub open spec fn selector_of(self) -> Field {
        match self {
            ClockDomain::CpuRoot => Field::CpuRootMuxSel,
            ClockDomain::BusRoot => Field::BusRootMuxSel,
            ClockDomain::PeripheralRoot => Field::PeripheralRootMuxSel,
            ClockDomain::AonApb => Field::AonApbMuxSel,
        }
    }

    /// The selector field of this domain.
    #[verifier::when_used_as_spec(selector_of)]
    pub fn selector(self) -> (field: Field)
        ensures
            field == self.selector_of(),
    {
        match self {
            ClockDomain::CpuRoot => Field::CpuRootMuxSel,
            ClockDomain::BusRoot => Field::BusRootMuxSel,
            ClockDomain::PeripheralRoot => Field::PeripheralRootMuxSel,
            ClockDomain::AonApb => Field::AonApbMuxSel,
        }
    }
}

/// Which upstream source feeds a clock domain.
#[derive(Clone, Copy, Debug, PartialEq, Eq, Structural)]
pub struct ClockMuxSelection {
    pub domain: ClockDomain,
    /// Index of the source among the inputs of the domain's selector.
    pub source: u8,
}

impl ClockMuxSelection {
    /// The write that makes this selection: one field, nothing else.
    pub open spec fn write_of(self) -> RegWriteView {
        RegWriteView::single(self.domain.selector_of(), self.source as u32)
    }

    /// The write that makes this selection.
    pub fn write(self) -> (w: RegWrite)
        ensures
            w@ == self.write_of(),
            w@.well_formed(),
    {
        RegWrite::single(self.domain.selector(), self.source as u32)
    }
}

/// The selections made at boot, in the order they are written: input 0 for
/// the CPU root, input 1 for the bus root, the peripheral root and the
/// always-on APB bus.
pub open spec fn boot_selections() -> Seq<ClockMuxSelection> {
    seq![
        ClockMuxSelection { domain: ClockDomain::CpuRoot, source: 0 },
        ClockMuxSelection { domain: ClockDomain::BusRoot, source: 1 },
        ClockMuxSelection { domain: ClockDomain::PeripheralRoot, source: 1 },
        ClockMuxSelection { domain: ClockDomain::AonApb, source: 1 },
    ]
}

/// The writes that make the boot selections.
pub open spec fn mux_sequence() -> Seq<RegWriteView> {
    boot_selections().map_values(|s: ClockMuxSelection| s.write_of())
}

/// The writes that make the boot selections, one single-field write each.
pub fn configure_clock_muxes() -> (plan: Vec<RegWrite>)
    ensures
        plan.deep_view() == mux_sequence(),
        trace_well_formed(plan.deep_view()),
{
    let mut plan: Vec<RegWrite> = Vec::new();
    push_write(&mut plan, ClockMuxSelection { domain: ClockDomain::CpuRoot, source: 0 }.write());
    push_write(&mut plan, ClockMuxSelection { domain: ClockDomain::BusRoot, source: 1 }.write());
    push_write(
        &mut plan,
        ClockMuxSelection { domain: ClockDomain::PeripheralRoot, source: 1 }.write(),
    );
    push_write(&mut plan, ClockMuxSelection { domain: ClockDomain::AonApb, source: 1 }.write());
    proof {
        assert(plan.deep_view() =~~= mux_sequence());
    }
    plan
}

/// The whole clock tree: PLL0, then PLL2, and only then the selectors.
pub open spec fn clock_tree_sequence(cpu: PllFreq, bus: PllFreq) -> Seq<RegWriteView> {
    pll_sequence(Pll::Pll0, cpu) + pll_sequence(Pll::Pll2, bus) + mux_sequence()
}

/// The boot selections leave both PLLs alone.
pub proof fn lemma_mux_sequence_leaves_plls_alone(pll: Pll)
    ensures
        leaves_alone(mux_sequence(), pll),
        mux_sequence().len() == 4,
        trace_well_formed(mux_sequence()),
{
    reveal_with_fuel(field_value_after, 2);
}

/// Every write that names a clock selector comes after both PLLs have been
/// powered up again.
pub open spec fn selectors_follow_plls(trace: Seq<RegWriteView>) -> bool {
    forall|i: int, d: ClockDomain|
        0 <= i < trace.len() && (#[trigger] trace[i]).touches(#[trigger] d.selector_of()) ==> {
            &&& last_written_before(trace, i as nat, Field::Pll0Pd) == Some(0u32)
            &&& last_written_before(trace, i as nat, Field::Pll2Pd) == Some(0u32)
        }
}

/// Whatever the profiles, in the clock tree sequence each PLL keeps its
/// power-down discipline, and the selectors are written only after both
/// PLLs are back up.
pub proof fn lemma_clock_tree_order(cpu: PllFreq, bus: PllFreq)
    ensures
        held_down_while_configured(clock_tree_sequence(cpu, bus), Pll::Pll0),
        held_down_while_configured(clock_tree_sequence(cpu, bus), Pll::Pll2),
        selectors_follow_plls(clock_tree_sequence(cpu, bus)),
        trace_well_formed(clock_tree_sequence(cpu, bus)),
{
    let cpu_pll = pll_sequence(Pll::Pll0, cpu);
    let bus_pll = pll_sequence(Pll::Pll2, bus);
    let m = mux_sequence();
    let plls = cpu_pll + bus_pll;
    let t = clock_tree_sequence(cpu, bus);
    lemma_pll_sequence_is_safe(Pll::Pll0, cpu);
    lemma_pll_sequence_is_safe(Pll::Pll2, bus);
    lemma_pll_sequences_independent(Pll::Pll0, Pll::Pll2, cpu);
    lemma_pll_sequences_independent(Pll::Pll2, Pll::Pll0, bus);
    lemma_mux_sequence_leaves_plls_alone(Pll::Pll0);
    lemma_mux_sequence_leaves_plls_alone(Pll::Pll2);
    lemma_discipline_survives_suffix(cpu_pll, bus_pll, Pll::Pll0);
    lemma_discipline_survives_suffix(plls, m, Pll::Pll0);
    lemma_discipline_survives_prefix(cpu_pll, bus_pll, Pll::Pll2);
    lemma_discipline_survives_suffix(plls, m, Pll::Pll2);
    assert forall|i: int, d: ClockDomain|
        0 <= i < t.len() && (#[trigger] t[i]).touches(#[trigger] d.selector_of()) implies {
        &&& last_written_before(t, i as nat, Field::Pll0Pd) == Some(0u32)
        &&& last_written_before(t, i as nat, Field::Pll2Pd) == Some(0u32)
    } by {
        if i < plls.len() {
            lemma_selectors_not_in_pll_sequences(cpu, bus, i, d);
        } else {
            let n = (i - plls.len()) as nat;
            lemma_last_written_concat_right(plls, m, n, Field::Pll0Pd);
            lemma_last_written_concat_right(plls, m, n, Field::Pll2Pd);
            lemma_avoided_field_unwritten(m, n, Field::Pll0Pd);
            lemma_avoided_field_unwritten(m, n, Field::Pll2Pd);
        }
    }
}

proof fn lemma_selectors_not_in_pll_sequences(cpu: PllFreq, bus: PllFreq, i: int, d: ClockDomain)
    requires
        0 <= i < 10,
    ensures
        !clock_tree_sequence(cpu, bus)[i].touches(d.selector_of()),
{
    reveal_with_fuel(field_value_after, 3);
}

/// Writes that name no selector, put after a trace in which the selectors
/// follow the PLLs, do not change that.
pub proof fn lemma_selector_order_survives_suffix(
    trace: Seq<RegWriteView>,
    after: Seq<RegWriteView>,
)
    requires
        selectors_follow_plls(trace),
        forall|d: ClockDomain| trace_avoids(after, #[trigger] d.selector_of()),
    ensures
        selectors_follow_plls(trace + after),
{
    let all = trace + after;
    assert forall|i: int, d: ClockDomain|
        0 <= i < all.len() && (#[trigger] all[i]).touches(#[trigger] d.selector_of()) implies {
        &&& last_written_before(all, i as nat, Field::Pll0Pd) == Some(0u32)
        &&& last_written_before(all, i as nat, Field::Pll2Pd) == Some(0u32)
    } by {
        if i < trace.len() {
            assert(all[i] == trace[i]);
            lemma_last_written_concat_left(trace, after, i as nat, Field::Pll0Pd);
            lemma_last_written_concat_left(trace, after, i as nat, Field::Pll2Pd);
        } else {
            assert(all[i] == after[i - trace.len()]);
            assert(trace_avoids(after, d.selector_of()));
        }
    }
}

/// The writes that bring up the clock tree with the given profiles for PLL0
/// and PLL2.
pub fn configure_clock_tree(cpu: PllFreq, bus: PllFreq) -> (plan: Vec<RegWrite>)
    ensures
        plan.deep_view() == clock_tree_sequence(cpu, bus),
        held_down_while_configured(plan.deep_view(), Pll::Pll0),
        held_down_while_configured(plan.deep_view(), Pll::Pll2),
        selectors_follow_plls(plan.deep_view()),
        trace_well_formed(plan.deep_view()),
{
    let mut plan = set_pll_freq(Pll::Pll0, cpu);
    append_writes(&mut plan, set_pll_freq(Pll::Pll2, bus));
    append_writes(&mut plan, configure_clock_muxes());
    proof {
        lemma_clock_tree_order(cpu, bus);
    }
    plan
}

/// A peripheral clock that can be switched off.
#[derive(Clone, Copy, Debug, PartialEq, Eq, Structural)]
pub enum PeripheralClock {
    Apb0,
    Uart0Apb,
}

impl PeripheralClock {
    /// The enable bit of this clock.
    pub open spec fn enable_bit_of(self) -> Field {
        match self {
            PeripheralClock::Apb0 => Field::Apb0Icg,
            PeripheralClock::Uart0Apb => Field::U0UartApbIcg,
        }
    }

    /// The enable bit of this clock.
    #[verifier::when_used_as_spec(enable_bit_of)]
    pub fn enable_bit(self) -> (field: Field)
        ensures
            field == self.enable_bit_of(),
    {
        match self {
            PeripheralClock::Apb0 => Field::Apb0Icg,
            PeripheralClock::Uart0Apb => Field::U0UartApbIcg,
        }
    }
}

/// The write that switches a peripheral clock on: within one store its
/// enable bit is first cleared and then set.
pub open spec fn enable_pulse(clock: PeripheralClock) -> RegWriteView {
    RegWriteView {
        reg: clock.enable_bit_of().register_of(),
        fields: seq![
            FieldWrite { field: clock.enable_bit_of(), value: 0 },
            FieldWrite { field: clock.enable_bit_of(), value: 1 },
        ],
    }
}

/// The write that switches a peripheral clock on. Whatever the enable bit
/// held before, it holds 1 afterwards.
pub fn pulse_clock_enable(clock: PeripheralClock) -> (w: RegWrite)
    ensures
        w@ == enable_pulse(clock),
        w@.well_formed(),
        forall|s: RegState| #[trigger] apply_write(s, w@)[clock.enable_bit_of()] == 1,
{
    let bit = clock.enable_bit();
    let w = RegWrite::to(bit.register()).with(bit, 0).with(bit, 1);
    proof {
        reveal_with_fuel(field_value_after, 3);
        assert(w@ =~~= enable_pulse(clock));
    }
    w
}

/// The clocks switched on at boot, in order: APB0, then the APB clock of
/// UART0.
pub open spec fn peripheral_clock_sequence() -> Seq<RegWriteView> {
    seq![enable_pulse(PeripheralClock::Apb0), enable_pulse(PeripheralClock::Uart0Apb)]
}

/// The writes that switch the peripheral clocks on are well formed and go
/// to the clock registers of APB0 and of UART0.
pub proof fn lemma_peripheral_clock_sequence_shape()
    ensures
        peripheral_clock_sequence().len() == 2,
        trace_well_formed(peripheral_clock_sequence()),
        peripheral_clock_sequence()[0].reg == Register::ClkApb0,
        peripheral_clock_sequence()[1].reg == Register::ClkU0UartApb,
{
}

/// The writes that enable the peripheral clocks.
pub fn enable_peripheral_clocks() -> (plan: Vec<RegWrite>)
    ensures
        plan.deep_view() == peripheral_clock_sequence(),
        trace_well_formed(plan.deep_view()),
{
    let mut plan: Vec<RegWrite> = Vec::new();
    push_write(&mut plan, pulse_clock_enable(PeripheralClock::Apb0));
    push_write(&mut plan, pulse_clock_enable(PeripheralClock::Uart0Apb));
    proof {
        lemma_peripheral_clock_sequence_shape();
    }
    plan
}

} // verus!
