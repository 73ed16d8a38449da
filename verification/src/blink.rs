//! The LED patterns: the burst that the serial interrupt triggers, and the
//! free-running blinker.
//!
//! Both drive the output selection of pad GPIO40 and keep time by spinning.
//!
//! The burst runs in interrupt context while the shell runs in the
//! foreground, and no lock stands between them. What keeps them apart is
//! that they never write the same register: the burst writes
//! [`led_register`] and nothing else, and the foreground is proved to keep
//! off it. Foreground code that did want to drive the LED would have to keep
//! the serial interrupt disabled while it does.

use crate::actions::{
    push_action, writes_before, writes_of, writes_only, Action, ActionView,
};
use crate::regs::{
    apply_trace, field_value_after, lemma_apply_prefix_by_field, push_write, trace_well_formed,
    Field, RegState, RegWrite, RegWriteView, Register,
};
use vstd::arithmetic::div_mod::{lemma_fundamental_div_mod, lemma_fundamental_div_mod_converse};
use vstd::arithmetic::mul::lemma_mul_is_distributive_add;
use vstd::prelude::*;

verus! {

/// Level changes that one run of the interrupt handler makes.
pub const BLINK_TRANSITIONS: u32 = 100;

/// Iterations the interrupt handler spins before each level change.
pub const BLINK_SPIN: u32 = 1_500_000;

/// Iterations the free-running blinker holds each level.
pub const BLINKY_SPIN: u32 = 750_000;

/// The state of the LED.
#[derive(Clone, Copy, Debug, PartialEq, Eq, Structural)]
pub enum LedLevel {
    High,
    Low,
}

impl LedLevel {
    /// The other level.
    pub open spec fn toggled(self) -> LedLevel {
        match self {
            LedLevel::High => LedLevel::Low,
            LedLevel::Low => LedLevel::High,
        }
    }

    /// The output selection with which the interrupt handler drives this
    /// level.
    pub open spec fn pulse_code(self) -> u32 {
        match self {
            LedLevel::High => 0b10,
            LedLevel::Low => 0b00,
        }
    }

    /// The output selection with which the free-running blinker drives this
    /// level.
    pub open spec fn blinky_code(self) -> u32 {
        match self {
            LedLevel::High => 0b01,
            LedLevel::Low => 0b00,
        }
    }
}

/// The register that drives the LED: the output selection of pad GPIO40. It
/// belongs to the interrupt handler.
pub open spec fn led_register() -> Register {
    Register::GpoDout10
}

/// The level entered by level change number `k`, counted from 0: high, low,
/// high, low, and so on.
pub open spec fn level_at(k: int) -> LedLevel {
    if k % 2 == 0 {
        LedLevel::High
    } else {
        LedLevel::Low
    }
}

/// The write with which the interrupt handler makes level change number `k`.
pub open spec fn pulse_write(k: int) -> RegWriteView {
    RegWriteView::single(Field::Dout40, level_at(k).pulse_code())
}

/// A burst of `transitions` level changes: before each one a spin of
/// [`BLINK_SPIN`] iterations, then the write that enters the next level.
pub open spec fn blink_pattern(transitions: nat) -> Seq<ActionView> {
    Seq::new(
        2 * transitions,
        |i: int|
            if i % 2 == 0 {
                ActionView::Spin(BLINK_SPIN)
            } else {
                ActionView::Write(pulse_write(i / 2))
            },
    )
}

/// The register writes of a burst are its level changes, one write each.
pub proof fn lemma_blink_pattern_writes(transitions: nat, k: nat)
    requires
        k <= transitions,
    ensures
        writes_before(blink_pattern(transitions), 2 * k) == Seq::new(k, |j: int| pulse_write(j)),
    decreases k,
{
    let pattern = blink_pattern(transitions);
    if k > 0 {
        lemma_blink_pattern_writes(transitions, (k - 1) as nat);
        reveal_with_fuel(writes_before, 3);
        assert(pattern[2 * k - 1] == ActionView::Write(pulse_write(k - 1)));
        assert(pattern[2 * k - 2] == ActionView::Spin(BLINK_SPIN));
        assert(writes_before(pattern, 2 * k) == writes_before(
            pattern,
            (2 * (k - 1)) as nat,
        ).push(pulse_write(k - 1)));
    }
    assert(writes_before(pattern, 2 * k) =~= Seq::new(k, |j: int| pulse_write(j)));
}

/// What one run of the interrupt handler does, for every register state it
/// may start from: it makes exactly [`BLINK_TRANSITIONS`] writes, high and
/// low in turn, so that each one changes the level the one before it left;
/// and it leaves the LED low.
pub proof fn lemma_blink_burst(state: RegState)
    ensures
        writes_of(blink_pattern(BLINK_TRANSITIONS as nat)).len() == BLINK_TRANSITIONS,
        forall|k: int|
            0 <= k < BLINK_TRANSITIONS ==> #[trigger] writes_of(
                blink_pattern(BLINK_TRANSITIONS as nat),
            )[k] == pulse_write(k),
        forall|k: int|
            0 <= k < BLINK_TRANSITIONS - 1 ==> #[trigger] pulse_write(k).written(Field::Dout40)
                != pulse_write(k + 1).written(Field::Dout40),
        apply_trace(state, writes_of(blink_pattern(BLINK_TRANSITIONS as nat)))[Field::Dout40]
            == LedLevel::Low.pulse_code(),
{
    let writes = writes_of(blink_pattern(BLINK_TRANSITIONS as nat));
    lemma_blink_pattern_writes(BLINK_TRANSITIONS as nat, BLINK_TRANSITIONS as nat);
    assert(writes == Seq::new(BLINK_TRANSITIONS as nat, |j: int| pulse_write(j)));
    lemma_apply_prefix_by_field(state, writes, writes.len(), Field::Dout40);
    assert(writes[99] == pulse_write(99));
    reveal_with_fuel(field_value_after, 2);
}

/// The handler of the serial interrupt: a burst of [`BLINK_TRANSITIONS`]
/// level changes on the LED, each after a spin of [`BLINK_SPIN`]
/// iterations. The burst always runs to its end and leaves the LED low.
pub fn uart0() -> (steps: Vec<Action>)
    ensures
        steps.deep_view() == blink_pattern(BLINK_TRANSITIONS as nat),
        writes_only(steps.deep_view(), led_register()),
        writes_of(steps.deep_view()).len() == BLINK_TRANSITIONS,
        forall|k: int|
            0 <= k < BLINK_TRANSITIONS ==> #[trigger] writes_of(steps.deep_view())[k]
                == pulse_write(k),
        trace_well_formed(writes_of(steps.deep_view())),
        forall|s: RegState| #[trigger]
            apply_trace(s, writes_of(steps.deep_view()))[Field::Dout40]
                == LedLevel::Low.pulse_code(),
{
    let mut steps: Vec<Action> = Vec::new();
    let mut k: u32 = 0;
    while k < BLINK_TRANSITIONS
        invariant
            k <= BLINK_TRANSITIONS,
            steps.deep_view() == blink_pattern(k as nat),
        decreases BLINK_TRANSITIONS - k,
    {
        let code: u32 = if k % 2 == 0 {
            0b10
        } else {
            0b00
        };
        push_action(&mut steps, Action::Spin(BLINK_SPIN));
        push_action(&mut steps, Action::Write(RegWrite::single(Field::Dout40, code)));
        k = k + 1;
        assert(steps.deep_view() =~~= blink_pattern(k as nat));
    }
    proof {
        assert forall|s: RegState| #[trigger]
            apply_trace(s, writes_of(steps.deep_view()))[Field::Dout40]
                == LedLevel::Low.pulse_code() by {
            lemma_blink_burst(s);
        }
        lemma_blink_burst(Map::empty());
    }
    steps
}

/// The writes that prepare the LED pad for the free-running blinker: GPIO
/// interrupt requests are enabled, and the pad's output-enable selection is
/// set to 1.
pub open spec fn blinky_setup_sequence() -> Seq<RegWriteView> {
    seq![RegWriteView::single(Field::Gpen0, 1), RegWriteView::single(Field::Doen40, 0b1)]
}

/// The writes that prepare the LED pad for the free-running blinker.
pub fn blinky_setup() -> (plan: Vec<RegWrite>)
    ensures
        plan.deep_view() == blinky_setup_sequence(),
        trace_well_formed(plan.deep_view()),
{
    let mut plan: Vec<RegWrite> = Vec::new();
    push_write(&mut plan, RegWrite::single(Field::Gpen0, 1));
    push_write(&mut plan, RegWrite::single(Field::Doen40, 0b1));
    plan
}

/// The free-running blinker, as a mathematical value: the level it drives,
/// for how many iterations it has driven it, and for how many it holds each
/// level.
pub struct BlinkyState {
    pub level: LedLevel,
    pub held: nat,
    pub spin: nat,
}

impl BlinkyState {
    /// The blinker has a level to hold and has not held it to the end.
    pub open spec fn well_formed(self) -> bool {
        self.held < self.spin
    }

    /// The blinker at its start: high, not yet held.
    pub open spec fn start(spin: nat) -> BlinkyState {
        BlinkyState { level: LedLevel::High, held: 0, spin }
    }

    /// The write of the next iteration: it drives the current level.
    pub open spec fn output(self) -> RegWriteView {
        RegWriteView::single(Field::Dout40, self.level.blinky_code())
    }

    /// The blinker after one more iteration: the level changes exactly when
    /// it has been held for `spin` iterations.
    pub open spec fn next(self) -> BlinkyState {
        if self.held + 1 >= self.spin {
            BlinkyState { level: self.level.toggled(), held: 0, spin: self.spin }
        } else {
            BlinkyState { level: self.level, held: self.held + 1, spin: self.spin }
        }
    }

    /// The blinker after `i` iterations from its start.
    pub open spec fn after(spin: nat, i: nat) -> BlinkyState
        decreases i,
    {
        if i == 0 {
            BlinkyState::start(spin)
        } else {
            BlinkyState::after(spin, (i - 1) as nat).next()
        }
    }
}

/// Where the blinker stands after `i` iterations: it is in hold number
/// `i / spin`, of which it has done `i % spin` iterations; the holds are
/// high and low in turn, starting high.
pub proof fn lemma_blinky_position(spin: nat, i: nat)
    requires
        spin > 0,
    ensures
        BlinkyState::after(spin, i) == (BlinkyState {
            level: level_at(i as int / spin as int),
            held: (i % spin) as nat,
            spin,
        }),
        BlinkyState::after(spin, i).well_formed(),
    decreases i,
{
    if i > 0 {
        let j = (i - 1) as int;
        let d = spin as int;
        lemma_blinky_position(spin, j as nat);
        lemma_fundamental_div_mod(j, d);
        if j % d + 1 < d {
            lemma_fundamental_div_mod_converse(i as int, d, j / d, j % d + 1);
        } else {
            lemma_mul_is_distributive_add(d, j / d, 1);
            assert((j / d + 1) * d == d * (j / d) + d) by (nonlinear_arith);
            lemma_fundamental_div_mod_converse(i as int, d, j / d + 1, 0);
        }
    } else {
        lemma_fundamental_div_mod_converse(0, spin as int, 0, 0);
    }
}

/// The blinker never misses or repeats a level change: for every hold length
/// above zero, iteration `i` drives the high selection when `i / spin` is
/// even and the low selection when it is odd, so two iterations in a row
/// differ exactly when the second starts a new hold.
pub proof fn lemma_blinky_alternates(spin: nat, i: nat)
    requires
        spin > 0,
    ensures
        BlinkyState::after(spin, i).output() == RegWriteView::single(
            Field::Dout40,
            level_at(i as int / spin as int).blinky_code(),
        ),
        (BlinkyState::after(spin, i).output() != BlinkyState::after(spin, i + 1).output()) <==> (i
            + 1) % spin == 0,
{
    lemma_blinky_position(spin, i);
    lemma_blinky_position(spin, i + 1);
    let a = BlinkyState::after(spin, i);
    let b = BlinkyState::after(spin, i + 1);
    assert(b == a.next());
    if a.level.blinky_code() != b.level.blinky_code() {
        assert(a.output().fields[0].value != b.output().fields[0].value);
    }
}

/// The free-running blinker. Each call of [`Blinky::step`] is one iteration
/// of its loop. A blinker always has a hold of at least one iteration and is
/// never at the end of it.
pub struct Blinky {
    level: LedLevel,
    held: u32,
    spin: u32,
}

impl View for Blinky {
    type V = BlinkyState;

    closed spec fn view(&self) -> BlinkyState {
        BlinkyState { level: self.level, held: self.held as nat, spin: self.spin as nat }
    }
}

impl Blinky {
    #[verifier::type_invariant]
    spec fn holds_less_than_spin(self) -> bool {
        self.held < self.spin
    }

    /// A blinker that holds each level for `spin` iterations. There is none
    /// for a hold of zero iterations, which would never drive the pin.
    pub fn new(spin: u32) -> (blinky: Option<Blinky>)
        ensures
            blinky.is_some() == (spin > 0),
            blinky matches Some(b) ==> b@ == BlinkyState::start(spin as nat),
    {
        if spin == 0 {
            None
        } else {
            Some(Blinky { level: LedLevel::High, held: 0, spin })
        }
    }

    /// The blinker of the board, which holds each level for [`BLINKY_SPIN`]
    /// iterations.
    pub fn start() -> (blinky: Blinky)
        ensures
            blinky@ == BlinkyState::start(BLINKY_SPIN as nat),
    {
        Blinky { level: LedLevel::High, held: 0, spin: BLINKY_SPIN }
    }

    /// One iteration: hands out the write that drives the current level and
    /// moves on.
    pub fn step(&mut self) -> (w: RegWrite)
        ensures
            old(self)@.well_formed(),
            w@ == old(self)@.output(),
            w@.well_formed(),
            final(self)@ == old(self)@.next(),
            final(self)@.well_formed(),
    {
        proof {
            use_type_invariant(&*self);
        }
        let code: u32 = match self.level {
            LedLevel::High => 0b01,
            LedLevel::Low => 0b00,
        };
        if self.held + 1 >= self.spin {
            self.held = 0;
            self.level =
            match self.level {
                LedLevel::High => LedLevel::Low,
                LedLevel::Low => LedLevel::High,
            };
        } else {
            self.held = self.held + 1;
        }
        RegWrite::single(Field::Dout40, code)
    }
}

} // verus!
