use jh7110_bringup::clocks::{
    configure_clock_muxes, configure_clock_tree, enable_peripheral_clocks, pulse_clock_enable,
    ClockDomain, ClockMuxSelection, PeripheralClock,
};
use jh7110_bringup::pll::{pll0_1_000_000_000, pll2_1_188_000_000, set_pll0_freq, set_pll2_freq};
use jh7110_bringup::regs::{Field, FieldWrite, RegWrite, Register, RegisterFile};

#[test]
fn boot_selections_in_order() {
    let plan = configure_clock_muxes();
    let expected = vec![
        RegWrite::single(Field::CpuRootMuxSel, 0),
        RegWrite::single(Field::BusRootMuxSel, 1),
        RegWrite::single(Field::PeripheralRootMuxSel, 1),
        RegWrite::single(Field::AonApbMuxSel, 1),
    ];
    assert_eq!(plan, expected);
    let regs: Vec<Register> = plan.iter().map(|w| w.reg).collect();
    assert_eq!(
        regs,
        vec![
            Register::ClkCpuRoot,
            Register::ClkBusRoot,
            Register::ClkPeripheralRoot,
            Register::ClkAonApb
        ]
    );
}

#[test]
fn a_selection_is_one_single_field_write() {
    let w = ClockMuxSelection { domain: ClockDomain::BusRoot, source: 3 }.write();
    assert_eq!(
        w,
        RegWrite {
            reg: Register::ClkBusRoot,
            fields: vec![FieldWrite { field: Field::BusRootMuxSel, value: 3 }],
        }
    );
    assert_eq!(ClockDomain::CpuRoot.selector(), Field::CpuRootMuxSel);
    assert_eq!(ClockDomain::PeripheralRoot.selector(), Field::PeripheralRootMuxSel);
    assert_eq!(ClockDomain::AonApb.selector(), Field::AonApbMuxSel);
}

#[test]
fn clock_tree_is_both_plls_then_the_selectors() {
    let tree = configure_clock_tree(pll0_1_000_000_000(), pll2_1_188_000_000());
    let mut expected = set_pll0_freq(pll0_1_000_000_000());
    expected.extend(set_pll2_freq(pll2_1_188_000_000()));
    expected.extend(configure_clock_muxes());
    assert_eq!(tree.len(), 14);
    assert_eq!(tree, expected);
}

#[test]
fn selectors_are_written_with_both_plls_running() {
    let selectors = [
        Field::CpuRootMuxSel,
        Field::BusRootMuxSel,
        Field::PeripheralRootMuxSel,
        Field::AonApbMuxSel,
    ];
    let tree = configure_clock_tree(pll0_1_000_000_000(), pll2_1_188_000_000());
    let mut regs = RegisterFile::new();
    regs.apply(&RegWrite::single(Field::Pll0Pd, 1));
    regs.apply(&RegWrite::single(Field::Pll2Pd, 1));
    let mut seen = 0;
    for w in &tree {
        if w.fields.iter().any(|f| selectors.contains(&f.field)) {
            assert_eq!(regs.get(Field::Pll0Pd), 0);
            assert_eq!(regs.get(Field::Pll2Pd), 0);
            seen += 1;
        }
        regs.apply(w);
    }
    assert_eq!(seen, 4);
}

#[test]
fn a_clock_is_switched_on_by_clearing_then_setting_its_bit() {
    let w = pulse_clock_enable(PeripheralClock::Uart0Apb);
    assert_eq!(
        w,
        RegWrite {
            reg: Register::ClkU0UartApb,
            fields: vec![
                FieldWrite { field: Field::U0UartApbIcg, value: 0 },
                FieldWrite { field: Field::U0UartApbIcg, value: 1 },
            ],
        }
    );
    let mut regs = RegisterFile::new();
    regs.apply(&w);
    assert_eq!(regs.get(Field::U0UartApbIcg), 1);
    assert_eq!(PeripheralClock::Apb0.enable_bit(), Field::Apb0Icg);
}

#[test]
fn peripheral_clocks_apb0_first() {
    let plan = enable_peripheral_clocks();
    assert_eq!(
        plan,
        vec![
            pulse_clock_enable(PeripheralClock::Apb0),
            pulse_clock_enable(PeripheralClock::Uart0Apb)
        ]
    );
    assert_eq!(plan[0].reg, Register::ClkApb0);
    assert_eq!(plan[0].fields.len(), 2);
}
