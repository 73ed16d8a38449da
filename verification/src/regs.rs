//! The register model: named registers, their named bit-fields, and
//! read-modify-write operations on them.
//!
//! Nothing here touches hardware. A [`RegWrite`] describes one
//! read-modify-write of one register; whoever owns the peripherals performs
//! it. The meaning of a write is given over a [`RegState`], a map from each
//! field to the value it holds.

use vstd::prelude::*;

verus! {

/// A peripheral block of the SoC.
#[derive(Clone, Copy, Debug, PartialEq, Eq, Structural)]
pub enum Block {
    /// System control registers: PLL settings, voltage-domain remap.
    SysSyscon,
    /// System clock and reset generator.
    SysCrg,
    /// Always-on clock and reset generator.
    AonCrg,
    /// System pin controller.
    SysPinctrl,
}

/// A memory-mapped register that the bring-up sequences write.
#[derive(Clone, Copy, Debug, PartialEq, Eq, Structural)]
pub enum Register {
    SysSyscfg3,
    SysSyscfg6,
    SysSyscfg7,
    SysSyscfg8,
    SysSyscfg9,
    SysSyscfg11,
    SysSyscfg12,
    SysSyscfg13,
    ClkCpuRoot,
    ClkBusRoot,
    ClkPeripheralRoot,
    ClkApb0,
    ClkU0UartApb,
    ClkAonApb,
    Ioirq0,
    PadGpio40,
    GpoDoen1,
    GpoDoen8,
    GpoDoen10,
    GpoDoen11,
    GpoDoen15,
    GpoDout1,
    GpoDout10,
    GpoDout11,
    Gpi1,
    Gpi3,
    Gpi4,
    Gpi5,
    Gpi7,
}

/// A named bit-field of a register.
#[derive(Clone, Copy, Debug, PartialEq, Eq, Structural)]
pub enum Field {
    /// Voltage-domain remap bit of GPIO bank 0.
    VoutRemapGpio0,
    /// Voltage-domain remap bit of GPIO bank 1.
    VoutRemapGpio1,
    /// Voltage-domain remap bit of GPIO bank 2.
    VoutRemapGpio2,
    /// Voltage-domain remap bit of GPIO bank 3.
    VoutRemapGpio3,
    Pll0Dacpd,
    Pll0Dsmpd,
    Pll0Fbdiv,
    Pll0Pd,
    Pll0Postdiv1,
    Pll0Prediv,
    Pll2Dacpd,
    Pll2Dsmpd,
    Pll2Fbdiv,
    Pll2Pd,
    Pll2Postdiv1,
    Pll2Prediv,
    CpuRootMuxSel,
    BusRootMuxSel,
    PeripheralRootMuxSel,
    AonApbMuxSel,
    Apb0Icg,
    U0UartApbIcg,
    /// Global enable of GPIO interrupt requests.
    Gpen0,
    /// Input enable of pad GPIO40.
    Gpio40Ie,
    /// Pull-down of pad GPIO40.
    Gpio40Pd,
    /// Pull-up of pad GPIO40.
    Gpio40Pu,
    Doen5,
    Doen6,
    Doen35,
    Doen40,
    Doen44,
    Doen60,
    Doen61,
    Doen63,
    Dout5,
    Dout40,
    Dout44,
    /// Pad that feeds the JTAG TRSTN input.
    JtagTrstn,
    /// Pad that feeds the UART0 receive input.
    UartSin0,
    /// Pad that feeds the JTAG TDI input.
    JtagTdi,
    /// Pad that feeds the JTAG TMS input.
    JtagTms,
    /// Pad that feeds the JTAG TCK input.
    JtagTck,
}

impl Register {
    /// The peripheral block that holds this register.
    pub open spec fn block_of(self) -> Block {
        match self {
            Register::SysSyscfg3
            | Register::SysSyscfg6
            | Register::SysSyscfg7
            | Register::SysSyscfg8
            | Register::SysSyscfg9
            | Register::SysSyscfg11
            | Register::SysSyscfg12
            | Register::SysSyscfg13 => Block::SysSyscon,
            Register::ClkCpuRoot
            | Register::ClkBusRoot
            | Register::ClkPeripheralRoot
            | Register::ClkApb0
            | Register::ClkU0UartApb => Block::SysCrg,
            Register::ClkAonApb => Block::AonCrg,
            _ => Block::SysPinctrl,
        }
    }

    /// The peripheral block that holds this register.
    #[verifier::when_used_as_spec(block_of)]
    pub fn block(self) -> (b: Block)
        ensures
            b == self.block_of(),
    {
        match self {
            Register::SysSyscfg3
            | Register::SysSyscfg6
            | Register::SysSyscfg7
            | Register::SysSyscfg8
            | Register::SysSyscfg9
            | Register::SysSyscfg11
            | Register::SysSyscfg12
            | Register::SysSyscfg13 => Block::SysSyscon,
            Register::ClkCpuRoot
            | Register::ClkBusRoot
            | Register::ClkPeripheralRoot
            | Register::ClkApb0
            | Register::ClkU0UartApb => Block::SysCrg,
            Register::ClkAonApb => Block::AonCrg,
            _ => Block::SysPinctrl,
        }
    }
}

impl Field {
    /// The register that holds this field.
    pub open spec fn register_of(self) -> Register {
        match self {
            Field::VoutRemapGpio0
            | Field::VoutRemapGpio1
            | Field::VoutRemapGpio2
            | Field::VoutRemapGpio3 => Register::SysSyscfg3,
            Field::Pll0Dacpd | Field::Pll0Dsmpd => Register::SysSyscfg6,
            Field::Pll0Fbdiv => Register::SysSyscfg7,
            Field::Pll0Pd | Field::Pll0Postdiv1 => Register::SysSyscfg8,
            Field::Pll0Prediv => Register::SysSyscfg9,
            Field::Pll2Dacpd | Field::Pll2Dsmpd | Field::Pll2Fbdiv => Register::SysSyscfg11,
            Field::Pll2Pd | Field::Pll2Postdiv1 => Register::SysSyscfg12,
            Field::Pll2Prediv => Register::SysSyscfg13,
            Field::CpuRootMuxSel => Register::ClkCpuRoot,
            Field::BusRootMuxSel => Register::ClkBusRoot,
            Field::PeripheralRootMuxSel => Register::ClkPeripheralRoot,
            Field::AonApbMuxSel => Register::ClkAonApb,
            Field::Apb0Icg => Register::ClkApb0,
            Field::U0UartApbIcg => Register::ClkU0UartApb,
            Field::Gpen0 => Register::Ioirq0,
            Field::Gpio40Ie | Field::Gpio40Pd | Field::Gpio40Pu => Register::PadGpio40,
            Field::Doen5 | Field::Doen6 => Register::GpoDoen1,
            Field::Doen35 => Register::GpoDoen8,
            Field::Doen40 => Register::GpoDoen10,
            Field::Doen44 => Register::GpoDoen11,
            Field::Doen60 | Field::Doen61 | Field::Doen63 => Register::GpoDoen15,
            Field::Dout5 => Register::GpoDout1,
            Field::Dout40 => Register::GpoDout10,
            Field::Dout44 => Register::GpoDout11,
            Field::JtagTrstn => Register::Gpi1,
            Field::UartSin0 => Register::Gpi3,
            Field::JtagTdi => Register::Gpi4,
            Field::JtagTms => Register::Gpi5,
            Field::JtagTck => Register::Gpi7,
        }
    }

    /// The register that holds this field.
    #[verifier::when_used_as_spec(register_of)]
    pub fn register(self) -> (r: Register)
        ensures
            r == self.register_of(),
    {
        match self {
            Field::VoutRemapGpio0
            | Field::VoutRemapGpio1
            | Field::VoutRemapGpio2
            | Field::VoutRemapGpio3 => Register::SysSyscfg3,
            Field::Pll0Dacpd | Field::Pll0Dsmpd => Register::SysSyscfg6,
            Field::Pll0Fbdiv => Register::SysSyscfg7,
            Field::Pll0Pd | Field::Pll0Postdiv1 => Register::SysSyscfg8,
            Field::Pll0Prediv => Register::SysSyscfg9,
            Field::Pll2Dacpd | Field::Pll2Dsmpd | Field::Pll2Fbdiv => Register::SysSyscfg11,
            Field::Pll2Pd | Field::Pll2Postdiv1 => Register::SysSyscfg12,
            Field::Pll2Prediv => Register::SysSyscfg13,
            Field::CpuRootMuxSel => Register::ClkCpuRoot,
            Field::BusRootMuxSel => Register::ClkBusRoot,
            Field::PeripheralRootMuxSel => Register::ClkPeripheralRoot,
            Field::AonApbMuxSel => Register::ClkAonApb,
            Field::Apb0Icg => Register::ClkApb0,
            Field::U0UartApbIcg => Register::ClkU0UartApb,
            Field::Gpen0 => Register::Ioirq0,
            Field::Gpio40Ie | Field::Gpio40Pd | Field::Gpio40Pu => Register::PadGpio40,
            Field::Doen5 | Field::Doen6 => Register::GpoDoen1,
            Field::Doen35 => Register::GpoDoen8,
            Field::Doen40 => Register::GpoDoen10,
            Field::Doen44 => Register::GpoDoen11,
            Field::Doen60 | Field::Doen61 | Field::Doen63 => Register::GpoDoen15,
            Field::Dout5 => Register::GpoDout1,
            Field::Dout40 => Register::GpoDout10,
            Field::Dout44 => Register::GpoDout11,
            Field::JtagTrstn => Register::Gpi1,
            Field::UartSin0 => Register::Gpi3,
            Field::JtagTdi => Register::Gpi4,
            Field::JtagTms => Register::Gpi5,
            Field::JtagTck => Register::Gpi7,
        }
    }
}

/// A new value for one field.
#[derive(Clone, Copy, Debug, PartialEq, Eq, Structural)]
pub struct FieldWrite {
    pub field: Field,
    pub value: u32,
}

/// One read-modify-write of one register: the register is read, the listed
/// fields are given their new values in the order listed, and the result is
/// written back in a single store. Fields that are not listed keep the value
/// they had.
#[derive(Clone, Debug, PartialEq, Eq)]
pub struct RegWrite {
    pub reg: Register,
    pub fields: Vec<FieldWrite>,
}

/// What a [`RegWrite`] says, as a mathematical value.
#[verifier::ext_equal]
pub struct RegWriteView {
    pub reg: Register,
    pub fields: Seq<FieldWrite>,
}

impl View for RegWrite {
    type V = RegWriteView;

    open spec fn view(&self) -> RegWriteView {
        RegWriteView { reg: self.reg, fields: self.fields@ }
    }
}

impl DeepView for RegWrite {
    type V = RegWriteView;

    open spec fn deep_view(&self) -> RegWriteView {
        self@
    }
}

/// The value that the first `n` entries of `fields` leave in `field`, if any
/// of them names it: the last entry that names it wins.
pub open spec fn field_value_after(fields: Seq<FieldWrite>, n: nat, field: Field) -> Option<u32>
    decreases n,
{
    if n == 0 {
        None
    } else if fields[n - 1].field == field {
        Some(fields[n - 1].value)
    } else {
        field_value_after(fields, (n - 1) as nat, field)
    }
}

impl RegWriteView {
    /// A write of a single field to the register that holds it.
    pub open spec fn single(field: Field, value: u32) -> RegWriteView {
        RegWriteView { reg: field.register_of(), fields: seq![FieldWrite { field, value }] }
    }

    /// Every listed field lives in the register that is written.
    pub open spec fn well_formed(self) -> bool {
        forall|k: int|
            0 <= k < self.fields.len() ==> (#[trigger] self.fields[k]).field.register_of()
                == self.reg
    }

    /// The value this write leaves in `field`, if it names the field at all.
    pub open spec fn written(self, field: Field) -> Option<u32> {
        field_value_after(self.fields, self.fields.len(), field)
    }

    /// Whether the write names `field`.
    pub open spec fn touches(self, field: Field) -> bool {
        self.written(field).is_some()
    }
}

/// The value held by each field of the register file.
pub type RegState = Map<Field, u32>;

/// The state after one write: a field that the write names holds the value
/// written, every other field holds what it held before.
pub open spec fn apply_write(state: RegState, w: RegWriteView) -> RegState {
    Map::total(
        |f: Field|
            match w.written(f) {
                Some(v) => v,
                None => state[f],
            },
    )
}

/// The state after the first `n` writes of a trace.
pub open spec fn apply_prefix(state: RegState, trace: Seq<RegWriteView>, n: nat) -> RegState
    decreases n,
{
    if n == 0 {
        state
    } else {
        apply_write(apply_prefix(state, trace, (n - 1) as nat), trace[n - 1])
    }
}

/// The state after all writes of a trace, applied first to last.
pub open spec fn apply_trace(state: RegState, trace: Seq<RegWriteView>) -> RegState {
    apply_prefix(state, trace, trace.len())
}

/// The value that the first `n` writes of a trace leave in `field`, if any of
/// them names it: the last write that names it wins.
pub open spec fn last_written_before(trace: Seq<RegWriteView>, n: nat, field: Field) -> Option<
    u32,
>
    decreases n,
{
    if n == 0 {
        None
    } else {
        match trace[n - 1].written(field) {
            Some(v) => Some(v),
            None => last_written_before(trace, (n - 1) as nat, field),
        }
    }
}

/// The value that a trace leaves in `field`, if any of its writes names it.
pub open spec fn last_written(trace: Seq<RegWriteView>, field: Field) -> Option<u32> {
    last_written_before(trace, trace.len(), field)
}

/// Every write of the trace is well formed.
pub open spec fn trace_well_formed(trace: Seq<RegWriteView>) -> bool {
    forall|i: int| 0 <= i < trace.len() ==> (#[trigger] trace[i]).well_formed()
}

/// Every write of the trace goes to a register of `block`.
pub open spec fn trace_within(trace: Seq<RegWriteView>, block: Block) -> bool {
    forall|i: int| 0 <= i < trace.len() ==> (#[trigger] trace[i]).reg.block_of() == block
}

/// No write of the trace goes to `reg`.
pub open spec fn trace_skips(trace: Seq<RegWriteView>, reg: Register) -> bool {
    forall|i: int| 0 <= i < trace.len() ==> (#[trigger] trace[i]).reg != reg
}

/// No write of the trace names `field`.
pub open spec fn trace_avoids(trace: Seq<RegWriteView>, field: Field) -> bool {
    forall|i: int| 0 <= i < trace.len() ==> !(#[trigger] trace[i]).touches(field)
}

/// A well-formed write names only fields of the register it writes.
pub proof fn lemma_write_stays_in_register(w: RegWriteView, field: Field)
    requires
        w.well_formed(),
        w.touches(field),
    ensures
        field.register_of() == w.reg,
{
    lemma_named_field_is_listed(w.fields, w.fields.len(), field);
}

proof fn lemma_named_field_is_listed(fields: Seq<FieldWrite>, n: nat, field: Field)
    requires
        n <= fields.len(),
        field_value_after(fields, n, field).is_some(),
    ensures
        exists|k: int| 0 <= k < n && (#[trigger] fields[k]).field == field,
    decreases n,
{
    if fields[n - 1].field != field {
        lemma_named_field_is_listed(fields, (n - 1) as nat, field);
    }
}

/// Well-formed writes that all go to other registers never name a field of
/// this register.
pub proof fn lemma_unwritten_register_avoided(trace: Seq<RegWriteView>, field: Field)
    requires
        trace_well_formed(trace),
        trace_skips(trace, field.register_of()),
    ensures
        trace_avoids(trace, field),
{
    assert forall|i: int| 0 <= i < trace.len() implies !(#[trigger] trace[i]).touches(field) by {
        if trace[i].touches(field) {
            lemma_write_stays_in_register(trace[i], field);
        }
    }
}

/// Well-formed writes to one block never name a field of another block.
pub proof fn lemma_other_block_avoided(trace: Seq<RegWriteView>, block: Block, field: Field)
    requires
        trace_well_formed(trace),
        trace_within(trace, block),
        field.register_of().block_of() != block,
    ensures
        trace_avoids(trace, field),
{
    assert forall|i: int| 0 <= i < trace.len() implies !(#[trigger] trace[i]).touches(field) by {
        if trace[i].touches(field) {
            lemma_write_stays_in_register(trace[i], field);
        }
    }
}

/// A trace that avoids a field never gives it a value.
pub proof fn lemma_avoided_field_unwritten(trace: Seq<RegWriteView>, n: nat, field: Field)
    requires
        trace_avoids(trace, field),
        n <= trace.len(),
    ensures
        last_written_before(trace, n, field).is_none(),
    decreases n,
{
    if n > 0 {
        lemma_avoided_field_unwritten(trace, (n - 1) as nat, field);
        assert(!trace[n - 1].touches(field));
    }
}

/// Within `first`, what `first + second` has written is what `first` has
/// written.
pub proof fn lemma_last_written_concat_left(
    first: Seq<RegWriteView>,
    second: Seq<RegWriteView>,
    n: nat,
    field: Field,
)
    requires
        n <= first.len(),
    ensures
        last_written_before(first + second, n, field) == last_written_before(first, n, field),
    decreases n,
{
    if n > 0 {
        lemma_last_written_concat_left(first, second, (n - 1) as nat, field);
        assert((first + second)[n - 1] == first[n - 1]);
    }
}

/// Within `second`, what `first + second` has written is what `second` has
/// written so far, and where that is nothing, what `first` wrote.
pub proof fn lemma_last_written_concat_right(
    first: Seq<RegWriteView>,
    second: Seq<RegWriteView>,
    n: nat,
    field: Field,
)
    requires
        n <= second.len(),
    ensures
        last_written_before(first + second, first.len() + n, field) == match last_written_before(
            second,
            n,
            field,
        ) {
            Some(v) => Some(v),
            None => last_written(first, field),
        },
    decreases n,
{
    if n > 0 {
        lemma_last_written_concat_right(first, second, (n - 1) as nat, field);
        assert((first + second)[first.len() + n - 1] == second[n - 1]);
    } else {
        lemma_last_written_concat_left(first, second, first.len(), field);
    }
}

/// What the first `n` writes of a trace do to a state is decided field by
/// field: a field that one of them names ends with the last value written to
/// it, and every other field keeps its value.
pub proof fn lemma_apply_prefix_by_field(
    state: RegState,
    trace: Seq<RegWriteView>,
    n: nat,
    field: Field,
)
    ensures
        apply_prefix(state, trace, n)[field] == match last_written_before(trace, n, field) {
            Some(v) => v,
            None => state[field],
        },
        n > 0 ==> apply_prefix(state, trace, n).dom().contains(field),
    decreases n,
{
    if n > 0 {
        lemma_apply_prefix_by_field(state, trace, (n - 1) as nat, field);
    }
}

/// Writes only ever store constants, so replaying a trace changes nothing:
/// the state after applying a trace twice is the state after applying it
/// once.
pub proof fn lemma_apply_trace_idempotent(state: RegState, trace: Seq<RegWriteView>)
    ensures
        apply_trace(apply_trace(state, trace), trace) == apply_trace(state, trace),
{
    let once = apply_trace(state, trace);
    let twice = apply_trace(once, trace);
    if trace.len() > 0 {
        assert forall|f: Field|
            twice.dom().contains(f) && once.dom().contains(f) && twice[f] == once[f] by {
            lemma_apply_prefix_by_field(state, trace, trace.len(), f);
            lemma_apply_prefix_by_field(once, trace, trace.len(), f);
        }
        assert(twice =~= once);
    }
}

/// What a field write list leaves in `field` once more entries are appended:
/// the appended entries win where they name the field.
pub proof fn lemma_field_value_concat(
    first: Seq<FieldWrite>,
    second: Seq<FieldWrite>,
    n: nat,
    field: Field,
)
    requires
        n <= second.len(),
    ensures
        field_value_after(first + second, first.len() + n, field) == match field_value_after(
            second,
            n,
            field,
        ) {
            Some(v) => Some(v),
            None => field_value_after(first, first.len(), field),
        },
    decreases n,
{
    if n > 0 {
        lemma_field_value_concat(first, second, (n - 1) as nat, field);
        assert((first + second)[first.len() + n - 1] == second[n - 1]);
    } else {
        lemma_field_value_prefix(first, second, first.len(), field);
    }
}

proof fn lemma_field_value_prefix(
    first: Seq<FieldWrite>,
    second: Seq<FieldWrite>,
    n: nat,
    field: Field,
)
    requires
        n <= first.len(),
    ensures
        field_value_after(first + second, n, field) == field_value_after(first, n, field),
    decreases n,
{
    if n > 0 {
        lemma_field_value_prefix(first, second, (n - 1) as nat, field);
        assert((first + second)[n - 1] == first[n - 1]);
    }
}

impl RegWrite {
    /// A write of a single field to the register that holds it.
    pub fn single(field: Field, value: u32) -> (w: RegWrite)
        ensures
            w@ == RegWriteView::single(field, value),
            w@.well_formed(),
    {
        RegWrite::to(field.register()).with(field, value)
    }

    /// Whether every listed field lives in the register that is written.
    pub fn is_well_formed(&self) -> (ok: bool)
        ensures
            ok == self@.well_formed(),
    {
        let mut k: usize = 0;
        while k < self.fields.len()
            invariant
                k <= self.fields@.len(),
                forall|j: int|
                    0 <= j < k ==> (#[trigger] self.fields@[j]).field.register_of() == self.reg,
            decreases self.fields@.len() - k,
        {
            if self.fields[k].field.register() != self.reg {
                return false;
            }
            k = k + 1;
        }
        true
    }

    /// A write to `reg` that names no field yet.
    pub fn to(reg: Register) -> (w: RegWrite)
        ensures
            w@ == (RegWriteView { reg, fields: Seq::empty() }),
    {
        RegWrite { reg, fields: Vec::new() }
    }

    /// The same write with one more field set, after those already listed.
    pub fn with(self, field: Field, value: u32) -> (w: RegWrite)
        ensures
            w@ == (RegWriteView {
                reg: self@.reg,
                fields: self@.fields.push(FieldWrite { field, value }),
            }),
    {
        let mut w = self;
        w.fields.push(FieldWrite { field, value });
        w
    }
}

/// Appends one write to a plan.
pub fn push_write(plan: &mut Vec<RegWrite>, w: RegWrite)
    ensures
        final(plan).deep_view() == old(plan).deep_view().push(w@),
{
    plan.push(w);
    assert(plan.deep_view() =~= old(plan).deep_view().push(w@));
}

/// Appends all writes of `more` to a plan, keeping their order.
pub fn append_writes(plan: &mut Vec<RegWrite>, more: Vec<RegWrite>)
    ensures
        final(plan).deep_view() == old(plan).deep_view() + more.deep_view(),
{
    let mut more = more;
    let ghost appended = more.deep_view();
    plan.append(&mut more);
    assert(plan.deep_view() =~= old(plan).deep_view() + appended);
}

/// A software stand-in for the register file. It starts with every field at
/// zero and remembers what the writes applied to it have stored.
pub struct RegisterFile {
    log: Vec<FieldWrite>,
}

impl View for RegisterFile {
    type V = RegState;

    closed spec fn view(&self) -> RegState {
        Map::total(
            |f: Field|
                match field_value_after(self.log@, self.log@.len(), f) {
                    Some(v) => v,
                    None => 0u32,
                },
        )
    }
}

impl RegisterFile {
    /// A register file in which every field holds zero.
    pub fn new() -> (regs: RegisterFile)
        ensures
            regs@ == Map::<Field, u32>::total(|f: Field| 0u32),
    {
        let regs = RegisterFile { log: Vec::new() };
        assert(regs@ =~= Map::<Field, u32>::total(|f: Field| 0u32));
        regs
    }

    /// The value that `field` holds.
    pub fn get(&self, field: Field) -> (value: u32)
        ensures
            value == self@[field],
    {
        let mut i: usize = self.log.len();
        while i > 0
            invariant
                i <= self.log@.len(),
                field_value_after(self.log@, self.log@.len(), field) == field_value_after(
                    self.log@,
                    i as nat,
                    field,
                ),
            decreases i,
        {
            i = i - 1;
            if self.log[i].field == field {
                return self.log[i].value;
            }
        }
        0
    }

    /// Performs one write.
    pub fn apply(&mut self, w: &RegWrite)
        ensures
            final(self)@ == apply_write(old(self)@, w@),
    {
        let mut i: usize = 0;
        while i < w.fields.len()
            invariant
                i <= w.fields@.len(),
                self.log@ == old(self).log@ + w.fields@.take(i as int),
            decreases w.fields@.len() - i,
        {
            self.log.push(w.fields[i]);
            i = i + 1;
            assert(self.log@ =~= old(self).log@ + w.fields@.take(i as int));
        }
        proof {
            assert(w.fields@.take(i as int) =~= w.fields@);
            assert forall|f: Field| #[trigger] self@[f] == apply_write(old(self)@, w@)[f] by {
                lemma_field_value_concat(old(self).log@, w.fields@, w.fields@.len(), f);
            }
            assert(self@ =~= apply_write(old(self)@, w@));
        }
    }

    /// Performs the writes of a plan, first to last.
    pub fn apply_all(&mut self, plan: &Vec<RegWrite>)
        ensures
            final(self)@ == apply_trace(old(self)@, plan.deep_view()),
    {
        let mut i: usize = 0;
        while i < plan.len()
            invariant
                i <= plan@.len(),
                self@ == apply_prefix(old(self)@, plan.deep_view(), i as nat),
            decreases plan@.len() - i,
        {
            self.apply(&plan[i]);
            i = i + 1;
        }
    }
}

} // verus!
