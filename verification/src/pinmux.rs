//! The pin multiplexer: which signal each pad carries and how it is driven.
//!
//! Before any pad is configured the GPIO banks are taken out of the remapped
//! voltage domain. Then each pad gets two writes: its output-enable
//! selection, and its signal routing.

use crate::hal::{
    gpo_jtag_tdo, gpo_uart0_sout, pad_gpio36, pad_gpio6, pad_gpio60, pad_gpio61, pad_gpio63,
};
use crate::regs::{
    append_writes, apply_trace, field_value_after, last_written_before,
    lemma_apply_trace_idempotent, lemma_avoided_field_unwritten, lemma_last_written_concat_left,
    lemma_last_written_concat_right,
    lemma_other_block_avoided, push_write, trace_skips, trace_well_formed, trace_within, Block,
    Field,
    FieldWrite, RegState, RegWrite, RegWriteView, Register,
};
use vstd::prelude::*;

verus! {

/// Which way a pad carries its signal.
#[derive(Clone, Copy, Debug, PartialEq, Eq, Structural)]
pub enum Direction {
    Output,
    Input,
}

/// How a pad is driven: the output-enable selection of the pad.
#[derive(Clone, Copy, Debug, PartialEq, Eq, Structural)]
pub enum DriveMode {
    PushPullOutput,
    PullUpInput,
    FloatingOutput,
}

impl DriveMode {
    /// The code written to the output-enable field.
    pub open spec fn code_of(self) -> u32 {
        match self {
            DriveMode::PushPullOutput => 0b01,
            DriveMode::PullUpInput => 0b10,
            DriveMode::FloatingOutput => 0b1000,
        }
    }

    /// The code written to the output-enable field.
    #[verifier::when_used_as_spec(code_of)]
    pub fn code(self) -> (code: u32)
        ensures
            code == self.code_of(),
    {
        match self {
            DriveMode::PushPullOutput => 0b01,
            DriveMode::PullUpInput => 0b10,
            DriveMode::FloatingOutput => 0b1000,
        }
    }

    /// The direction that goes with this mode.
    pub open spec fn direction_of(self) -> Direction {
        match self {
            DriveMode::PullUpInput => Direction::Input,
            _ => Direction::Output,
        }
    }

    /// The direction that goes with this mode.
    #[verifier::when_used_as_spec(direction_of)]
    pub fn direction(self) -> (d: Direction)
        ensures
            d == self.direction_of(),
    {
        match self {
            DriveMode::PullUpInput => Direction::Input,
            _ => Direction::Output,
        }
    }
}

/// A signal that the SoC can drive onto a pad.
#[derive(Clone, Copy, Debug, PartialEq, Eq, Structural)]
pub enum OutputSignal {
    Uart0Tx,
    JtagTdo,
}

impl OutputSignal {
    /// The index of the signal among the output signals of the SoC.
    pub open spec fn index_of(self) -> u32 {
        match self {
            OutputSignal::Uart0Tx => 20,
            OutputSignal::JtagTdo => 22,
        }
    }

    /// The index of the signal among the output signals of the SoC.
    #[verifier::when_used_as_spec(index_of)]
    pub fn index(self) -> (index: u32)
        ensures
            index == self.index_of(),
    {
        match self {
            OutputSignal::Uart0Tx => gpo_uart0_sout() as u32,
            OutputSignal::JtagTdo => gpo_jtag_tdo() as u32,
        }
    }
}

/// A signal that the SoC takes from a pad.
#[derive(Clone, Copy, Debug, PartialEq, Eq, Structural)]
pub enum InputSignal {
    Uart0Rx,
    JtagTrstn,
    JtagTdi,
    JtagTms,
    JtagTck,
}

impl InputSignal {
    /// The field that selects the pad feeding this signal.
    pub open spec fn selector_of(self) -> Field {
        match self {
            InputSignal::Uart0Rx => Field::UartSin0,
            InputSignal::JtagTrstn => Field::JtagTrstn,
            InputSignal::JtagTdi => Field::JtagTdi,
            InputSignal::JtagTms => Field::JtagTms,
            InputSignal::JtagTck => Field::JtagTck,
        }
    }

    /// The field that selects the pad feeding this signal.
    #[verifier::when_used_as_spec(selector_of)]
    pub fn selector(self) -> (field: Field)
        ensures
            field == self.selector_of(),
    {
        match self {
            InputSignal::Uart0Rx => Field::UartSin0,
            InputSignal::JtagTrstn => Field::JtagTrstn,
            InputSignal::JtagTdi => Field::JtagTdi,
            InputSignal::JtagTms => Field::JtagTms,
            InputSignal::JtagTck => Field::JtagTck,
        }
    }
}

/// The signal a pad carries.
#[derive(Clone, Copy, Debug, PartialEq, Eq, Structural)]
pub enum PinFunction {
    /// The pad is driven by an output signal of the SoC.
    Drives(OutputSignal),
    /// An input signal of the SoC is fed from the pad with the given number.
    Feeds(InputSignal, u32),
}

/// Selections 0 and 1 of an input signal are the constant levels; pad `n`
/// is selection `n + 2`.
pub open spec fn pad_selection(pad: u32) -> u32
    recommends
        pad <= 63,
{
    (pad + 2) as u32
}

/// A pin of the board that the bring-up routes.
#[derive(Clone, Copy, Debug, PartialEq, Eq, Structural)]
pub enum BoardPin {
    UartTx,
    UartRx,
    JtagTrst,
    JtagTdi,
    JtagTms,
    JtagTck,
    JtagTdo,
}

/// How one pin is wired into the SoC.
#[derive(Clone, Copy, Debug, PartialEq, Eq, Structural)]
pub struct PinFunctionAssignment {
    pub pin: BoardPin,
    pub mode: DriveMode,
    pub function: PinFunction,
}

impl BoardPin {
    /// The output-enable field of the pin. For TRST this is the field of pad
    /// GPIO35, although the signal is fed from pad GPIO36.
    pub open spec fn drive_field_of(self) -> Field {
        match self {
            BoardPin::UartTx => Field::Doen5,
            BoardPin::UartRx => Field::Doen6,
            BoardPin::JtagTrst => Field::Doen35,
            BoardPin::JtagTdi => Field::Doen61,
            BoardPin::JtagTms => Field::Doen63,
            BoardPin::JtagTck => Field::Doen60,
            BoardPin::JtagTdo => Field::Doen44,
        }
    }

    /// The output-enable field of the pin.
    #[verifier::when_used_as_spec(drive_field_of)]
    pub fn drive_field(self) -> (field: Field)
        ensures
            field == self.drive_field_of(),
    {
        match self {
            BoardPin::UartTx => Field::Doen5,
            BoardPin::UartRx => Field::Doen6,
            BoardPin::JtagTrst => Field::Doen35,
            BoardPin::JtagTdi => Field::Doen61,
            BoardPin::JtagTms => Field::Doen63,
            BoardPin::JtagTck => Field::Doen60,
            BoardPin::JtagTdo => Field::Doen44,
        }
    }

    /// How the board wires this pin: the transmit line is a push-pull
    /// output, TDO a floating output, and every input is pulled up and fed
    /// from its pad.
    pub open spec fn assignment_of(self) -> PinFunctionAssignment {
        match self {
            BoardPin::UartTx => PinFunctionAssignment {
                pin: self,
                mode: DriveMode::PushPullOutput,
                function: PinFunction::Drives(OutputSignal::Uart0Tx),
            },
            BoardPin::UartRx => PinFunctionAssignment {
                pin: self,
                mode: DriveMode::PullUpInput,
                function: PinFunction::Feeds(InputSignal::Uart0Rx, 6),
            },
            BoardPin::JtagTrst => PinFunctionAssignment {
                pin: self,
                mode: DriveMode::PullUpInput,
                function: PinFunction::Feeds(InputSignal::JtagTrstn, 36),
            },
            BoardPin::JtagTdi => PinFunctionAssignment {
                pin: self,
                mode: DriveMode::PullUpInput,
                function: PinFunction::Feeds(InputSignal::JtagTdi, 61),
            },
            BoardPin::JtagTms => PinFunctionAssignment {
                pin: self,
                mode: DriveMode::PullUpInput,
                function: PinFunction::Feeds(InputSignal::JtagTms, 63),
            },
            BoardPin::JtagTck => PinFunctionAssignment {
                pin: self,
                mode: DriveMode::PullUpInput,
                function: PinFunction::Feeds(InputSignal::JtagTck, 60),
            },
            BoardPin::JtagTdo => PinFunctionAssignment {
                pin: self,
                mode: DriveMode::FloatingOutput,
                function: PinFunction::Drives(OutputSignal::JtagTdo),
            },
        }
    }

    /// How the board wires this pin.
    #[verifier::when_used_as_spec(assignment_of)]
    pub fn assignment(self) -> (a: PinFunctionAssignment)
        ensures
            a == self.assignment_of(),
    {
        match self {
            BoardPin::UartTx => PinFunctionAssignment {
                pin: self,
                mode: DriveMode::PushPullOutput,
                function: PinFunction::Drives(OutputSignal::Uart0Tx),
            },
            BoardPin::UartRx => PinFunctionAssignment {
                pin: self,
                mode: DriveMode::PullUpInput,
                function: PinFunction::Feeds(InputSignal::Uart0Rx, pad_gpio6()),
            },
            BoardPin::JtagTrst => PinFunctionAssignment {
                pin: self,
                mode: DriveMode::PullUpInput,
                function: PinFunction::Feeds(InputSignal::JtagTrstn, pad_gpio36()),
            },
            BoardPin::JtagTdi => PinFunctionAssignment {
                pin: self,
                mode: DriveMode::PullUpInput,
                function: PinFunction::Feeds(InputSignal::JtagTdi, pad_gpio61()),
            },
            BoardPin::JtagTms => PinFunctionAssignment {
                pin: self,
                mode: DriveMode::PullUpInput,
                function: PinFunction::Feeds(InputSignal::JtagTms, pad_gpio63()),
            },
            BoardPin::JtagTck => PinFunctionAssignment {
                pin: self,
                mode: DriveMode::PullUpInput,
                function: PinFunction::Feeds(InputSignal::JtagTck, pad_gpio60()),
            },
            BoardPin::JtagTdo => PinFunctionAssignment {
                pin: self,
                mode: DriveMode::FloatingOutput,
                function: PinFunction::Drives(OutputSignal::JtagTdo),
            },
        }
    }
}

impl PinFunctionAssignment {
    /// The write that sets how the pin is driven.
    pub open spec fn drive_write(self) -> RegWriteView {
        RegWriteView::single(self.pin.drive_field_of(), self.mode.code_of())
    }

    /// The write that routes the signal. For an output it names the signal
    /// in the pad's output field; for an input it names the pad in the
    /// signal's selector. `None` where the pin has no output field.
    pub open spec fn function_write(self) -> Option<RegWriteView> {
        match self.function {
            PinFunction::Drives(signal) => match self.pin {
                BoardPin::UartTx => Some(RegWriteView::single(Field::Dout5, signal.index_of())),
                BoardPin::JtagTdo => Some(RegWriteView::single(Field::Dout44, signal.index_of())),
                _ => None,
            },
            PinFunction::Feeds(signal, pad) => if pad <= 63 {
                Some(RegWriteView::single(signal.selector_of(), pad_selection(pad)))
            } else {
                None
            },
        }
    }

    /// Both writes, the drive write first.
    pub open spec fn sequence(self) -> Option<Seq<RegWriteView>> {
        match self.function_write() {
            Some(w) => Some(seq![self.drive_write(), w]),
            None => None,
        }
    }

    /// The writes that put this assignment into effect: the drive write, then
    /// the function write. `None` if, and only if, the assignment asks for
    /// an output on a pin without an output field, or names a pad beyond 63.
    pub fn writes(self) -> (plan: Option<Vec<RegWrite>>)
        ensures
            plan.is_some() == self.sequence().is_some(),
            plan matches Some(p) ==> p.deep_view() == self.sequence().unwrap()
                && trace_well_formed(p.deep_view()),
    {
        let function: RegWrite = match self.function {
            PinFunction::Drives(signal) => match self.pin {
                BoardPin::UartTx => RegWrite::single(Field::Dout5, signal.index()),
                BoardPin::JtagTdo => RegWrite::single(Field::Dout44, signal.index()),
                _ => {
                    return None;
                },
            },
            PinFunction::Feeds(signal, pad) => {
                if pad > 63 {
                    return None;
                }
                RegWrite::single(signal.selector(), pad + 2)
            },
        };
        let mut plan: Vec<RegWrite> = Vec::new();
        push_write(&mut plan, RegWrite::single(self.pin.drive_field(), self.mode.code()));
        push_write(&mut plan, function);
        Some(plan)
    }
}

/// The write that takes all four GPIO banks out of the remapped voltage
/// domain: one store that clears the four remap bits.
pub open spec fn remap_write() -> RegWriteView {
    RegWriteView {
        reg: Register::SysSyscfg3,
        fields: seq![
            FieldWrite { field: Field::VoutRemapGpio0, value: 0 },
            FieldWrite { field: Field::VoutRemapGpio1, value: 0 },
            FieldWrite { field: Field::VoutRemapGpio2, value: 0 },
            FieldWrite { field: Field::VoutRemapGpio3, value: 0 },
        ],
    }
}

/// The write that takes all four GPIO banks out of the remapped voltage
/// domain.
pub fn clear_voltage_remap() -> (w: RegWrite)
    ensures
        w@ == remap_write(),
        w@.well_formed(),
{
    let w = RegWrite::to(Register::SysSyscfg3).with(Field::VoutRemapGpio0, 0).with(
        Field::VoutRemapGpio1,
        0,
    ).with(Field::VoutRemapGpio2, 0).with(Field::VoutRemapGpio3, 0);
    proof {
        assert(w@ =~~= remap_write());
    }
    w
}

/// The writes for the LED pad: GPIO interrupt requests are enabled, then the
/// pad gets its input buffer disabled with both pull-down and pull-up on.
pub open spec fn led_pad_sequence() -> Seq<RegWriteView> {
    seq![
        RegWriteView::single(Field::Gpen0, 1),
        RegWriteView {
            reg: Register::PadGpio40,
            fields: seq![
                FieldWrite { field: Field::Gpio40Ie, value: 0 },
                FieldWrite { field: Field::Gpio40Pd, value: 1 },
                FieldWrite { field: Field::Gpio40Pu, value: 1 },
            ],
        },
    ]
}

/// The writes for the LED pad.
pub fn configure_led_pad() -> (plan: Vec<RegWrite>)
    ensures
        plan.deep_view() == led_pad_sequence(),
        trace_well_formed(plan.deep_view()),
{
    let mut plan: Vec<RegWrite> = Vec::new();
    push_write(&mut plan, RegWrite::single(Field::Gpen0, 1));
    push_write(
        &mut plan,
        RegWrite::to(Register::PadGpio40).with(Field::Gpio40Ie, 0).with(Field::Gpio40Pd, 1).with(
            Field::Gpio40Pu,
            1,
        ),
    );
    proof {
        assert(plan.deep_view() =~~= led_pad_sequence());
    }
    plan
}

/// The pins of the board in the order they are routed.
pub open spec fn board_pins() -> Seq<BoardPin> {
    seq![
        BoardPin::UartTx,
        BoardPin::UartRx,
        BoardPin::JtagTrst,
        BoardPin::JtagTdi,
        BoardPin::JtagTms,
        BoardPin::JtagTck,
        BoardPin::JtagTdo,
    ]
}

/// The drive write and the function write of the first `n` board pins.
pub open spec fn routing_sequence(n: nat) -> Seq<RegWriteView>
    decreases n,
{
    if n == 0 || n > board_pins().len() {
        Seq::empty()
    } else {
        routing_sequence((n - 1) as nat) + board_pins()[n - 1].assignment_of().sequence().unwrap()
    }
}

/// The whole pin multiplexer configuration: the voltage remap is cleared
/// first, then the LED pad is set up, then every board pin is routed.
pub open spec fn pin_mux_sequence() -> Seq<RegWriteView> {
    seq![remap_write()] + led_pad_sequence() + routing_sequence(board_pins().len())
}

/// Every write to the pin controller comes after the write that cleared the
/// four voltage remap bits.
pub open spec fn remap_cleared_first(trace: Seq<RegWriteView>) -> bool {
    forall|i: int|
        0 <= i < trace.len() && (#[trigger] trace[i]).reg.block_of() == Block::SysPinctrl ==> {
            &&& last_written_before(trace, i as nat, Field::VoutRemapGpio0) == Some(0u32)
            &&& last_written_before(trace, i as nat, Field::VoutRemapGpio1) == Some(0u32)
            &&& last_written_before(trace, i as nat, Field::VoutRemapGpio2) == Some(0u32)
            &&& last_written_before(trace, i as nat, Field::VoutRemapGpio3) == Some(0u32)
        }
}

/// The writes that configure the pin multiplexer.
pub fn configure_pins() -> (plan: Vec<RegWrite>)
    ensures
        plan.deep_view() == pin_mux_sequence(),
        remap_cleared_first(plan.deep_view()),
        trace_well_formed(plan.deep_view()),
        forall|s: RegState| #[trigger]
            apply_trace(apply_trace(s, plan.deep_view()), plan.deep_view()) == apply_trace(
                s,
                plan.deep_view(),
            ),
{
    let pins: [BoardPin; 7] = [
        BoardPin::UartTx,
        BoardPin::UartRx,
        BoardPin::JtagTrst,
        BoardPin::JtagTdi,
        BoardPin::JtagTms,
        BoardPin::JtagTck,
        BoardPin::JtagTdo,
    ];
    assert(pins@ =~= board_pins());
    let mut plan: Vec<RegWrite> = Vec::new();
    push_write(&mut plan, clear_voltage_remap());
    append_writes(&mut plan, configure_led_pad());
    let ghost head = plan.deep_view();
    assert(head == seq![remap_write()] + led_pad_sequence());
    let mut i: usize = 0;
    while i < 7
        invariant
            i <= 7,
            pins@ == board_pins(),
            plan.deep_view() == head + routing_sequence(i as nat),
        decreases 7 - i,
    {
        proof {
            lemma_board_pin_is_routable(pins[i as int]);
        }
        if let Some(more) = pins[i].assignment().writes() {
            append_writes(&mut plan, more);
        }
        i = i + 1;
        assert(plan.deep_view() =~= head + routing_sequence(i as nat));
    }
    proof {
        lemma_pin_mux_sequence_shape();
        assert forall|s: RegState| #[trigger]
            apply_trace(apply_trace(s, plan.deep_view()), plan.deep_view()) == apply_trace(
                s,
                plan.deep_view(),
            ) by {
            lemma_apply_trace_idempotent(s, plan.deep_view());
        }
    }
    plan
}

/// Every board pin has both of its writes, each a single-field write to the
/// pin controller.
pub proof fn lemma_board_pin_is_routable(pin: BoardPin)
    ensures
        pin.assignment_of().sequence().is_some(),
        pin.assignment_of().sequence().unwrap().len() == 2,
        trace_well_formed(pin.assignment_of().sequence().unwrap()),
        trace_within(pin.assignment_of().sequence().unwrap(), Block::SysPinctrl),
        trace_skips(pin.assignment_of().sequence().unwrap(), Register::GpoDout10),
{
}

/// The routing writes are well formed and all go to the pin controller.
pub proof fn lemma_routing_sequence_shape(n: nat)
    requires
        n <= board_pins().len(),
    ensures
        routing_sequence(n).len() == 2 * n,
        trace_well_formed(routing_sequence(n)),
        trace_within(routing_sequence(n), Block::SysPinctrl),
        trace_skips(routing_sequence(n), Register::GpoDout10),
    decreases n,
{
    if n > 0 {
        lemma_routing_sequence_shape((n - 1) as nat);
        lemma_board_pin_is_routable(board_pins()[n - 1]);
    }
}

/// The pin multiplexer sequence clears the remap before it touches the pin
/// controller, and each of its writes stays within one register.
pub proof fn lemma_pin_mux_sequence_shape()
    ensures
        remap_cleared_first(pin_mux_sequence()),
        trace_well_formed(pin_mux_sequence()),
        pin_mux_sequence().len() == 17,
        pin_mux_sequence()[0] == remap_write(),
        forall|i: int|
            1 <= i < 17 ==> (#[trigger] pin_mux_sequence()[i]).reg.block_of()
                == Block::SysPinctrl,
        trace_skips(pin_mux_sequence(), Register::GpoDout10),
{
    let first = seq![remap_write()];
    let rest = led_pad_sequence() + routing_sequence(board_pins().len());
    let all = pin_mux_sequence();
    lemma_routing_sequence_shape(board_pins().len());
    assert(all =~= first + rest);
    assert(trace_well_formed(rest) && trace_within(rest, Block::SysPinctrl));
    assert forall|i: int| 1 <= i < 17 implies (#[trigger] all[i]).reg.block_of()
        == Block::SysPinctrl by {
        assert(all[i] == rest[i - 1]);
    }
    assert(trace_skips(rest, Register::GpoDout10)) by {
        let routing = routing_sequence(board_pins().len());
        assert forall|i: int| 0 <= i < rest.len() implies (#[trigger] rest[i]).reg
            != Register::GpoDout10 by {
            if i >= 2 {
                assert(rest[i] == routing[i - 2]);
            }
        }
    }
    assert forall|i: int| 0 <= i < all.len() implies (#[trigger] all[i]).reg
        != Register::GpoDout10 by {
        if i > 0 {
            assert(all[i] == rest[i - 1]);
        }
    }
    assert(trace_well_formed(all)) by {
        assert forall|i: int| 0 <= i < all.len() implies (#[trigger] all[i]).well_formed() by {
            if i > 0 {
                assert(all[i] == rest[i - 1]);
            }
        }
    }
    assert forall|i: int|
        0 <= i < all.len() && (#[trigger] all[i]).reg.block_of() == Block::SysPinctrl implies {
        &&& last_written_before(all, i as nat, Field::VoutRemapGpio0) == Some(0u32)
        &&& last_written_before(all, i as nat, Field::VoutRemapGpio1) == Some(0u32)
        &&& last_written_before(all, i as nat, Field::VoutRemapGpio2) == Some(0u32)
        &&& last_written_before(all, i as nat, Field::VoutRemapGpio3) == Some(0u32)
    } by {
        lemma_remap_stays_cleared(rest, (i - 1) as nat, Field::VoutRemapGpio0);
        lemma_remap_stays_cleared(rest, (i - 1) as nat, Field::VoutRemapGpio1);
        lemma_remap_stays_cleared(rest, (i - 1) as nat, Field::VoutRemapGpio2);
        lemma_remap_stays_cleared(rest, (i - 1) as nat, Field::VoutRemapGpio3);
    }
}

/// After the remap write, writes to the pin controller leave the remap bits
/// cleared.
proof fn lemma_remap_stays_cleared(rest: Seq<RegWriteView>, n: nat, field: Field)
    requires
        trace_well_formed(rest),
        trace_within(rest, Block::SysPinctrl),
        n <= rest.len(),
        field == Field::VoutRemapGpio0 || field == Field::VoutRemapGpio1 || field
            == Field::VoutRemapGpio2 || field == Field::VoutRemapGpio3,
    ensures
        last_written_before(seq![remap_write()] + rest, 1 + n, field) == Some(0u32),
{
    let first = seq![remap_write()];
    lemma_other_block_avoided(rest, Block::SysPinctrl, field);
    lemma_avoided_field_unwritten(rest, n, field);
    lemma_last_written_concat_right(first, rest, n, field);
    reveal_with_fuel(field_value_after, 5);
    reveal_with_fuel(last_written_before, 2);
}

/// Writes that stay off the pin controller, put before and after a trace
/// that clears the remap first, do not change that.
pub proof fn lemma_remap_order_survives(
    before: Seq<RegWriteView>,
    trace: Seq<RegWriteView>,
    after: Seq<RegWriteView>,
)
    requires
        remap_cleared_first(trace),
        forall|i: int|
            0 <= i < before.len() ==> (#[trigger] before[i]).reg.block_of() != Block::SysPinctrl,
        forall|i: int|
            0 <= i < after.len() ==> (#[trigger] after[i]).reg.block_of() != Block::SysPinctrl,
    ensures
        remap_cleared_first(before + trace + after),
{
    let tail = trace + after;
    let all = before + trace + after;
    assert(all =~= before + tail);
    assert forall|i: int|
        0 <= i < all.len() && (#[trigger] all[i]).reg.block_of() == Block::SysPinctrl implies {
        &&& last_written_before(all, i as nat, Field::VoutRemapGpio0) == Some(0u32)
        &&& last_written_before(all, i as nat, Field::VoutRemapGpio1) == Some(0u32)
        &&& last_written_before(all, i as nat, Field::VoutRemapGpio2) == Some(0u32)
        &&& last_written_before(all, i as nat, Field::VoutRemapGpio3) == Some(0u32)
    } by {
        if i < before.len() {
            assert(all[i] == before[i]);
        } else if i < before.len() + trace.len() {
            let n = (i - before.len()) as nat;
            assert(all[i] == trace[n as int]);
            lemma_remap_seen_through(before, trace, after, n, Field::VoutRemapGpio0);
            lemma_remap_seen_through(before, trace, after, n, Field::VoutRemapGpio1);
            lemma_remap_seen_through(before, trace, after, n, Field::VoutRemapGpio2);
            lemma_remap_seen_through(before, trace, after, n, Field::VoutRemapGpio3);
        } else {
            assert(all[i] == after[i - before.len() - trace.len()]);
        }
    }
}

proof fn lemma_remap_seen_through(
    before: Seq<RegWriteView>,
    trace: Seq<RegWriteView>,
    after: Seq<RegWriteView>,
    n: nat,
    field: Field,
)
    requires
        n <= trace.len(),
        last_written_before(trace, n, field).is_some(),
    ensures
        last_written_before(before + trace + after, before.len() + n, field)
            == last_written_before(trace, n, field),
{
    assert(before + trace + after =~= before + (trace + after));
    lemma_last_written_concat_right(before, trace + after, n, field);
    lemma_last_written_concat_left(trace, after, n, field);
}

/// Configuring the pin multiplexer twice in a row leaves the registers as
/// configuring it once does, whatever they held before.
pub proof fn lemma_pin_mux_idempotent(state: RegState)
    ensures
        apply_trace(apply_trace(state, pin_mux_sequence()), pin_mux_sequence()) == apply_trace(
            state,
            pin_mux_sequence(),
        ),
{
    lemma_apply_trace_idempotent(state, pin_mux_sequence());
}

} // verus!
