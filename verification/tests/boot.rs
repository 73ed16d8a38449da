use jh7110_bringup::actions::{push_action, push_writes, Action};
use jh7110_bringup::boot::{boot, boot_register_writes};
use jh7110_bringup::clocks::{configure_clock_tree, enable_peripheral_clocks};
use jh7110_bringup::irq::{console_interrupt, interrupt_slot, InterruptSlot};
use jh7110_bringup::pinmux::configure_pins;
use jh7110_bringup::pll::{pll0_1_000_000_000, pll2_1_188_000_000};
use jh7110_bringup::blink::uart0;
use jh7110_bringup::regs::{Block, Field, RegWrite, Register, RegisterFile};
use jh7110_bringup::serial::{
    console_config, BaudRate, DataLength, Parity, SerialConfig, StopBits, GREETING,
};
use jh71xx_hal::pac::Interrupt;

#[test]
fn boot_is_clock_tree_then_pins_then_clocks_then_console() {
    let mut expected: Vec<Action> = Vec::new();
    for w in configure_clock_tree(pll0_1_000_000_000(), pll2_1_188_000_000()) {
        expected.push(Action::Write(w));
    }
    for w in configure_pins() {
        expected.push(Action::Write(w));
    }
    for w in enable_peripheral_clocks() {
        expected.push(Action::Write(w));
    }
    expected.push(Action::EnableInterrupt(InterruptSlot { word: 1, bit: 0 }));
    expected.push(Action::OpenSerial(SerialConfig {
        data_len: DataLength::Eight,
        stop: StopBits::One,
        parity: Parity::Off,
        baud_rate: BaudRate::B115200,
        clk_hz: 1_000_000_000,
    }));
    expected.push(Action::Greet);
    let steps = boot();
    assert_eq!(steps.len(), 14 + 17 + 2 + 3);
    assert_eq!(steps, expected);
}

#[test]
fn every_register_is_written_before_the_console_is_touched() {
    let steps = boot();
    let first_other = steps.iter().position(|s| !matches!(s, Action::Write(_))).unwrap();
    assert_eq!(first_other, 33);
    assert!(steps[first_other..].iter().all(|s| !matches!(s, Action::Write(_))));
    assert!(matches!(steps[33], Action::EnableInterrupt(_)));
    assert!(matches!(steps[34], Action::OpenSerial(_)));
    assert_eq!(steps[35], Action::Greet);
}

#[test]
fn boot_register_writes_are_the_writes_of_boot() {
    let writes: Vec<RegWrite> = boot()
        .into_iter()
        .filter_map(|s| match s {
            Action::Write(w) => Some(w),
            _ => None,
        })
        .collect();
    assert_eq!(writes, boot_register_writes());
}

#[test]
fn the_stages_come_in_order() {
    let writes = boot_register_writes();
    let blocks: Vec<Block> = writes.iter().map(|w| w.reg.block()).collect();
    let first_pin = blocks.iter().position(|b| *b == Block::SysPinctrl).unwrap();
    let last_pin = blocks.iter().rposition(|b| *b == Block::SysPinctrl).unwrap();
    assert_eq!(first_pin, 15);
    assert_eq!(last_pin, 30);
    assert!(blocks[..14].iter().all(|b| *b != Block::SysPinctrl));
    assert!(blocks[31..].iter().all(|b| *b == Block::SysCrg));
}

#[test]
fn after_boot_the_plls_run_and_the_clocks_are_on() {
    let mut regs = RegisterFile::new();
    regs.apply(&RegWrite::single(Field::Pll0Pd, 1));
    regs.apply(&RegWrite::single(Field::Pll2Pd, 1));
    regs.apply_all(&boot_register_writes());
    assert_eq!(regs.get(Field::Pll0Pd), 0);
    assert_eq!(regs.get(Field::Pll2Pd), 0);
    assert_eq!(regs.get(Field::Pll0Fbdiv), 125);
    assert_eq!(regs.get(Field::Pll2Fbdiv), 99);
    assert_eq!(regs.get(Field::CpuRootMuxSel), 0);
    assert_eq!(regs.get(Field::BusRootMuxSel), 1);
    assert_eq!(regs.get(Field::Apb0Icg), 1);
    assert_eq!(regs.get(Field::U0UartApbIcg), 1);
    assert_eq!(regs.get(Field::Dout5), 20);
}

#[test]
fn the_console_interrupt_is_the_one_of_uart0() {
    assert_eq!(console_interrupt(), Interrupt::UART0 as u32);
    assert_eq!(console_interrupt(), 32);
    assert_eq!(interrupt_slot(console_interrupt()), InterruptSlot { word: 1, bit: 0 });
}

#[test]
fn interrupt_slots() {
    assert_eq!(interrupt_slot(0), InterruptSlot { word: 0, bit: 0 });
    assert_eq!(interrupt_slot(31), InterruptSlot { word: 0, bit: 31 });
    assert_eq!(interrupt_slot(32), InterruptSlot { word: 1, bit: 0 });
    assert_eq!(interrupt_slot(45), InterruptSlot { word: 1, bit: 13 });
    assert_eq!(interrupt_slot(111), InterruptSlot { word: 3, bit: 15 });
    assert_eq!(interrupt_slot(u32::MAX), InterruptSlot { word: 134_217_727, bit: 31 });
    for source in 0..300u32 {
        let slot = interrupt_slot(source);
        assert!(slot.bit < 32);
        assert_eq!(slot.word * 32 + slot.bit, source);
    }
}

#[test]
fn console_settings() {
    let c = console_config();
    assert_eq!(c.data_len, DataLength::Eight);
    assert_eq!(c.stop, StopBits::One);
    assert_eq!(c.parity, Parity::Off);
    assert_eq!(c.baud_rate, BaudRate::B115200);
    assert_eq!(c.clk_hz, 1_000_000_000);
    assert_eq!(GREETING, "Hello from VisionFive2!\n");
}

#[test]
fn actions_are_appended_in_order() {
    let mut steps = vec![Action::Greet];
    push_writes(
        &mut steps,
        vec![
            RegWrite::single(Field::Doen5, 1),
            RegWrite::single(Field::Dout5, 20),
            RegWrite::single(Field::Doen6, 2),
        ],
    );
    push_action(&mut steps, Action::Spin(7));
    assert_eq!(
        steps,
        vec![
            Action::Greet,
            Action::Write(RegWrite::single(Field::Doen5, 1)),
            Action::Write(RegWrite::single(Field::Dout5, 20)),
            Action::Write(RegWrite::single(Field::Doen6, 2)),
            Action::Spin(7),
        ]
    );
}

#[test]
fn every_write_of_boot_is_well_formed() {
    for w in boot_register_writes() {
        assert!(w.is_well_formed(), "{:?}", w);
    }
}

#[test]
fn no_register_is_written_once_the_interrupt_is_enabled() {
    let steps = boot();
    let enabled = steps.iter().position(|s| matches!(s, Action::EnableInterrupt(_))).unwrap();
    assert!(steps[enabled..].iter().all(|s| !matches!(s, Action::Write(_))));
    assert!(steps[..enabled].iter().all(|s| matches!(s, Action::Write(_))));
}

#[test]
fn the_led_register_belongs_to_the_interrupt_handler() {
    for w in boot_register_writes() {
        assert_ne!(w.reg, Register::GpoDout10);
        assert!(w.fields.iter().all(|f| f.field != Field::Dout40));
    }
    for step in uart0() {
        if let Action::Write(w) = step {
            assert_eq!(w.reg, Register::GpoDout10);
            assert!(w.is_well_formed());
        }
    }
}
