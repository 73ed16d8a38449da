//! PLL reconfiguration.
//!
//! A PLL must not run while its dividers change. Each sequence here takes the
//! PLL offline first, writes the new settings, and brings it back in the same
//! store that commits the last divider.

use crate::regs::{
    apply_prefix, apply_trace, field_value_after, last_written, last_written_before,
    lemma_apply_prefix_by_field, lemma_avoided_field_unwritten, lemma_last_written_concat_left,
    lemma_last_written_concat_right, push_write, trace_avoids, trace_well_formed, trace_within,
    Block, Field, FieldWrite, RegState, RegWrite, RegWriteView,
};
use vstd::prelude::*;

verus! {

/// Frequency settings of one PLL.
#[derive(Clone, Copy, Debug, PartialEq, Eq, Structural)]
pub struct PllFreq {
    /// Pre-divider.
    pub prediv: u8,
    /// Feedback divider.
    pub fbdiv: u16,
    /// Post-divider, as the intended divider; the hardware holds half of it.
    pub postdiv1: u8,
    /// Power down the DAC of the fractional path.
    pub dacpd: bool,
    /// Power down the delta-sigma modulator.
    pub dsmpd: bool,
}

/// The profile for 1.000 GHz on PLL0.
pub open spec fn spec_pll0_1_000_000_000() -> PllFreq {
    PllFreq { prediv: 3, fbdiv: 125, postdiv1: 1, dacpd: true, dsmpd: true }
}

/// The profile for 1.000 GHz on PLL0.
#[verifier::when_used_as_spec(spec_pll0_1_000_000_000)]
pub fn pll0_1_000_000_000() -> (f: PllFreq)
    ensures
        f == spec_pll0_1_000_000_000(),
{
    PllFreq { prediv: 3, fbdiv: 125, postdiv1: 1, dacpd: true, dsmpd: true }
}

/// The profile for 1.188 GHz on PLL2.
pub open spec fn spec_pll2_1_188_000_000() -> PllFreq {
    PllFreq { prediv: 3, fbdiv: 99, postdiv1: 1, dacpd: true, dsmpd: true }
}

/// The profile for 1.188 GHz on PLL2.
#[verifier::when_used_as_spec(spec_pll2_1_188_000_000)]
pub fn pll2_1_188_000_000() -> (f: PllFreq)
    ensures
        f == spec_pll2_1_188_000_000(),
{
    PllFreq { prediv: 3, fbdiv: 99, postdiv1: 1, dacpd: true, dsmpd: true }
}

/// The PLLs that the bring-up reconfigures.
#[derive(Clone, Copy, Debug, PartialEq, Eq, Structural)]
pub enum Pll {
    /// Feeds the CPU clock.
    Pll0,
    /// Feeds the bus and peripheral clocks.
    Pll2,
}

/// The fields that hold the settings of one PLL.
#[derive(Clone, Copy, Debug, PartialEq, Eq, Structural)]
pub struct PllFields {
    pub pd: Field,
    pub dacpd: Field,
    pub dsmpd: Field,
    pub prediv: Field,
    pub fbdiv: Field,
    pub postdiv1: Field,
}

impl Pll {
    /// Where the settings of this PLL live.
    pub open spec fn fields_of(self) -> PllFields {
        match self {
            Pll::Pll0 => PllFields {
                pd: Field::Pll0Pd,
                dacpd: Field::Pll0Dacpd,
                dsmpd: Field::Pll0Dsmpd,
                prediv: Field::Pll0Prediv,
                fbdiv: Field::Pll0Fbdiv,
                postdiv1: Field::Pll0Postdiv1,
            },
            Pll::Pll2 => PllFields {
                pd: Field::Pll2Pd,
                dacpd: Field::Pll2Dacpd,
                dsmpd: Field::Pll2Dsmpd,
                prediv: Field::Pll2Prediv,
                fbdiv: Field::Pll2Fbdiv,
                postdiv1: Field::Pll2Postdiv1,
            },
        }
    }

    /// Where the settings of this PLL live.
    #[verifier::when_used_as_spec(fields_of)]
    pub fn fields(self) -> (k: PllFields)
        ensures
            k == self.fields_of(),
    {
        match self {
            Pll::Pll0 => PllFields {
                pd: Field::Pll0Pd,
                dacpd: Field::Pll0Dacpd,
                dsmpd: Field::Pll0Dsmpd,
                prediv: Field::Pll0Prediv,
                fbdiv: Field::Pll0Fbdiv,
                postdiv1: Field::Pll0Postdiv1,
            },
            Pll::Pll2 => PllFields {
                pd: Field::Pll2Pd,
                dacpd: Field::Pll2Dacpd,
                dsmpd: Field::Pll2Dsmpd,
                prediv: Field::Pll2Prediv,
                fbdiv: Field::Pll2Fbdiv,
                postdiv1: Field::Pll2Postdiv1,
            },
        }
    }
}

/// A flag as the value of a one-bit field.
pub open spec fn bit(flag: bool) -> u32 {
    if flag {
        1
    } else {
        0
    }
}

/// The post-divider value that the hardware holds for an intended divider:
/// the intended divider shifted right by one bit.
pub open spec fn stored_postdiv(postdiv1: u8) -> u32 {
    (postdiv1 >> 1) as u32
}

/// The writes that retune `pll` to `f`, in the order the hardware needs:
/// power down; calibration paths; pre-divider; feedback divider; and last the
/// post-divider together with power up.
pub open spec fn pll_sequence(pll: Pll, f: PllFreq) -> Seq<RegWriteView> {
    let k = pll.fields_of();
    seq![
        RegWriteView::single(k.pd, 1),
        RegWriteView {
            reg: k.dacpd.register_of(),
            fields: seq![
                FieldWrite { field: k.dacpd, value: bit(f.dacpd) },
                FieldWrite { field: k.dsmpd, value: bit(f.dsmpd) },
            ],
        },
        RegWriteView::single(k.prediv, f.prediv as u32),
        RegWriteView::single(k.fbdiv, f.fbdiv as u32),
        RegWriteView {
            reg: k.postdiv1.register_of(),
            fields: seq![
                FieldWrite { field: k.postdiv1, value: stored_postdiv(f.postdiv1) },
                FieldWrite { field: k.pd, value: 0 },
            ],
        },
    ]
}

/// Whether a write changes a divider or a calibration setting of `pll`.
pub open spec fn writes_setting(w: RegWriteView, pll: Pll) -> bool {
    let k = pll.fields_of();
    w.touches(k.dacpd) || w.touches(k.dsmpd) || w.touches(k.prediv) || w.touches(k.fbdiv)
        || w.touches(k.postdiv1)
}

/// The power-down discipline of a trace, for one PLL:
/// - whenever a write changes a setting of the PLL, the last value that the
///   earlier writes gave to the power-down bit is 1;
/// - a write that clears the power-down bit also commits the post-divider,
///   and no later write changes a setting;
/// - the trace leaves the power-down bit cleared.
pub open spec fn held_down_while_configured(trace: Seq<RegWriteView>, pll: Pll) -> bool {
    let k = pll.fields_of();
    &&& forall|i: int|
        0 <= i < trace.len() && writes_setting(#[trigger] trace[i], pll) ==> last_written_before(
            trace,
            i as nat,
            k.pd,
        ) == Some(1u32)
    &&& forall|i: int|
        0 <= i < trace.len() && (#[trigger] trace[i]).written(k.pd) == Some(0u32)
            ==> trace[i].touches(k.postdiv1) && forall|j: int|
            i < j < trace.len() ==> !writes_setting(#[trigger] trace[j], pll)
    &&& last_written(trace, k.pd) == Some(0u32)
}

/// The discipline in terms of the register state: whatever the registers
/// held at the start, the power-down bit holds 1 at the moment a write
/// changes a setting, and holds 0 once the trace is done.
pub proof fn lemma_settings_change_while_down(
    state: RegState,
    trace: Seq<RegWriteView>,
    pll: Pll,
    i: int,
)
    requires
        held_down_while_configured(trace, pll),
        0 <= i < trace.len(),
        writes_setting(trace[i], pll),
    ensures
        apply_prefix(state, trace, i as nat)[pll.fields_of().pd] == 1,
        apply_trace(state, trace)[pll.fields_of().pd] == 0,
{
    lemma_apply_prefix_by_field(state, trace, i as nat, pll.fields_of().pd);
    lemma_apply_prefix_by_field(state, trace, trace.len(), pll.fields_of().pd);
}

/// Shifting the intended post-divider right by one bit halves it, rounding
/// down, for every value an 8-bit field can hold.
pub proof fn lemma_stored_postdiv_is_half(postdiv1: u8)
    ensures
        stored_postdiv(postdiv1) == postdiv1 / 2,
        stored_postdiv(postdiv1) <= 127,
{
    assert((postdiv1 >> 1) == postdiv1 / 2) by (bit_vector);
}

/// Whatever the settings, the sequence for a PLL keeps the power-down
/// discipline, commits the shifted post-divider, and stays within the system
/// control block.
pub proof fn lemma_pll_sequence_is_safe(pll: Pll, f: PllFreq)
    ensures
        held_down_while_configured(pll_sequence(pll, f), pll),
        last_written(pll_sequence(pll, f), pll.fields_of().postdiv1) == Some(
            stored_postdiv(f.postdiv1),
        ),
        trace_well_formed(pll_sequence(pll, f)),
        trace_within(pll_sequence(pll, f), Block::SysSyscon),
{
    reveal_with_fuel(field_value_after, 3);
    reveal_with_fuel(last_written_before, 6);
}

/// No write of the trace names the power-down bit or a setting of `pll`.
pub open spec fn leaves_alone(trace: Seq<RegWriteView>, pll: Pll) -> bool {
    let k = pll.fields_of();
    &&& trace_avoids(trace, k.pd)
    &&& trace_avoids(trace, k.dacpd)
    &&& trace_avoids(trace, k.dsmpd)
    &&& trace_avoids(trace, k.prediv)
    &&& trace_avoids(trace, k.fbdiv)
    &&& trace_avoids(trace, k.postdiv1)
}

/// The sequence for one PLL leaves the other PLL alone.
pub proof fn lemma_pll_sequences_independent(pll: Pll, other: Pll, f: PllFreq)
    requires
        pll != other,
    ensures
        leaves_alone(pll_sequence(pll, f), other),
{
    reveal_with_fuel(field_value_after, 3);
}

/// Writes that leave a PLL alone, put after a trace that keeps the
/// power-down discipline of that PLL, do not break it.
pub proof fn lemma_discipline_survives_suffix(
    trace: Seq<RegWriteView>,
    after: Seq<RegWriteView>,
    pll: Pll,
)
    requires
        held_down_while_configured(trace, pll),
        leaves_alone(after, pll),
    ensures
        held_down_while_configured(trace + after, pll),
{
    let k = pll.fields_of();
    let all = trace + after;
    assert forall|i: int| 0 <= i < all.len() && writes_setting(#[trigger] all[i], pll) implies {
        &&& i < trace.len()
        &&& last_written_before(all, i as nat, k.pd) == Some(1u32)
    } by {
        if i < trace.len() {
            assert(all[i] == trace[i]);
            lemma_last_written_concat_left(trace, after, i as nat, k.pd);
        } else {
            assert(all[i] == after[i - trace.len()]);
        }
    }
    assert forall|i: int|
        0 <= i < all.len() && (#[trigger] all[i]).written(k.pd) == Some(0u32) implies {
        &&& all[i].touches(k.postdiv1)
        &&& forall|j: int| i < j < all.len() ==> !writes_setting(#[trigger] all[j], pll)
    } by {
        if i < trace.len() {
            assert(all[i] == trace[i]);
            assert forall|j: int| i < j < all.len() implies !writes_setting(
                #[trigger] all[j],
                pll,
            ) by {
                if j < trace.len() {
                    assert(all[j] == trace[j]);
                } else {
                    assert(all[j] == after[j - trace.len()]);
                }
            }
        } else {
            assert(all[i] == after[i - trace.len()]);
        }
    }
    lemma_last_written_concat_right(trace, after, after.len(), k.pd);
    lemma_avoided_field_unwritten(after, after.len(), k.pd);
}

/// Writes that leave a PLL alone, put before a trace that keeps the
/// power-down discipline of that PLL, do not break it.
pub proof fn lemma_discipline_survives_prefix(
    before: Seq<RegWriteView>,
    trace: Seq<RegWriteView>,
    pll: Pll,
)
    requires
        held_down_while_configured(trace, pll),
        leaves_alone(before, pll),
    ensures
        held_down_while_configured(before + trace, pll),
{
    let k = pll.fields_of();
    let all = before + trace;
    let shift = before.len() as int;
    assert forall|i: int| 0 <= i < all.len() && writes_setting(#[trigger] all[i], pll) implies {
        last_written_before(all, i as nat, k.pd) == Some(1u32)
    } by {
        if i < shift {
            assert(all[i] == before[i]);
        } else {
            assert(all[i] == trace[i - shift]);
            lemma_last_written_concat_right(before, trace, (i - shift) as nat, k.pd);
        }
    }
    assert forall|i: int|
        0 <= i < all.len() && (#[trigger] all[i]).written(k.pd) == Some(0u32) implies {
        &&& all[i].touches(k.postdiv1)
        &&& forall|j: int| i < j < all.len() ==> !writes_setting(#[trigger] all[j], pll)
    } by {
        if i < shift {
            assert(all[i] == before[i]);
        } else {
            assert(all[i] == trace[i - shift]);
            assert forall|j: int| i < j < all.len() implies !writes_setting(
                #[trigger] all[j],
                pll,
            ) by {
                assert(all[j] == trace[j - shift]);
            }
        }
    }
    lemma_last_written_concat_right(before, trace, trace.len(), k.pd);
}

/// The writes that retune `pll` to `f`.
pub fn set_pll_freq(pll: Pll, f: PllFreq) -> (plan: Vec<RegWrite>)
    ensures
        plan.deep_view() == pll_sequence(pll, f),
        held_down_while_configured(plan.deep_view(), pll),
        last_written(plan.deep_view(), pll.fields_of().postdiv1) == Some(
            stored_postdiv(f.postdiv1),
        ),
        trace_well_formed(plan.deep_view()),
        trace_within(plan.deep_view(), Block::SysSyscon),
{
    let k = pll.fields();
    let dacpd: u32 = if f.dacpd {
        1
    } else {
        0
    };
    let dsmpd: u32 = if f.dsmpd {
        1
    } else {
        0
    };
    let mut plan: Vec<RegWrite> = Vec::new();
    push_write(&mut plan, RegWrite::single(k.pd, 1));
    push_write(
        &mut plan,
        RegWrite::to(k.dacpd.register()).with(k.dacpd, dacpd).with(k.dsmpd, dsmpd),
    );
    push_write(&mut plan, RegWrite::single(k.prediv, f.prediv as u32));
    push_write(&mut plan, RegWrite::single(k.fbdiv, f.fbdiv as u32));
    push_write(
        &mut plan,
        RegWrite::to(k.postdiv1.register()).with(k.postdiv1, (f.postdiv1 >> 1) as u32).with(
            k.pd,
            0,
        ),
    );
    proof {
        assert(plan.deep_view() =~~= pll_sequence(pll, f));
        lemma_pll_sequence_is_safe(pll, f);
    }
    plan
}

/// The writes that retune PLL0, the CPU clock PLL, to `f`.
pub fn set_pll0_freq(f: PllFreq) -> (plan: Vec<RegWrite>)
    ensures
        plan.deep_view() == pll_sequence(Pll::Pll0, f),
        held_down_while_configured(plan.deep_view(), Pll::Pll0),
        last_written(plan.deep_view(), Field::Pll0Postdiv1) == Some(stored_postdiv(f.postdiv1)),
        trace_well_formed(plan.deep_view()),
        trace_within(plan.deep_view(), Block::SysSyscon),
{
    set_pll_freq(Pll::Pll0, f)
}

/// The writes that retune PLL2, the bus and peripheral clock PLL, to `f`.
pub fn set_pll2_freq(f: PllFreq) -> (plan: Vec<RegWrite>)
    ensures
        plan.deep_view() == pll_sequence(Pll::Pll2, f),
        held_down_while_configured(plan.deep_view(), Pll::Pll2),
        last_written(plan.deep_view(), Field::Pll2Postdiv1) == Some(stored_postdiv(f.postdiv1)),
        trace_well_formed(plan.deep_view()),
        trace_within(plan.deep_view(), Block::SysSyscon),
{
    set_pll_freq(Pll::Pll2, f)
}

} // verus!
