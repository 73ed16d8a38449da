use jh7110_bringup::actions::{spin, Action};
use jh7110_bringup::blink::{
    blinky_setup, uart0, Blinky, LedLevel, BLINKY_SPIN, BLINK_SPIN, BLINK_TRANSITIONS,
};
use jh7110_bringup::regs::{Field, RegWrite, RegisterFile};

#[test]
fn constants() {
    assert_eq!(BLINK_TRANSITIONS, 100);
    assert_eq!(BLINK_SPIN, 1_500_000);
    assert_eq!(BLINKY_SPIN, 750_000);
    assert_ne!(LedLevel::High, LedLevel::Low);
}

#[test]
fn the_burst_is_a_spin_before_every_level_change() {
    let steps = uart0();
    assert_eq!(steps.len(), 200);
    for (i, step) in steps.iter().enumerate() {
        if i % 2 == 0 {
            assert_eq!(*step, Action::Spin(1_500_000));
        } else {
            let code = if (i / 2) % 2 == 0 { 0b10 } else { 0b00 };
            assert_eq!(*step, Action::Write(RegWrite::single(Field::Dout40, code)));
        }
    }
}

#[test]
fn the_burst_makes_exactly_one_hundred_level_changes_and_ends_low() {
    let mut regs = RegisterFile::new();
    let mut level = regs.get(Field::Dout40);
    let mut writes = 0;
    let mut changes = 0;
    for step in uart0() {
        if let Action::Write(w) = step {
            regs.apply(&w);
            writes += 1;
            if regs.get(Field::Dout40) != level {
                changes += 1;
                level = regs.get(Field::Dout40);
            }
        }
    }
    assert_eq!(writes, 100);
    assert_eq!(changes, 100);
    assert_eq!(regs.get(Field::Dout40), 0b00);
}

#[test]
fn the_burst_ends_low_from_any_level() {
    for before in [0b00, 0b01, 0b10, 77] {
        let mut regs = RegisterFile::new();
        regs.apply(&RegWrite::single(Field::Dout40, before));
        for step in uart0() {
            if let Action::Write(w) = step {
                regs.apply(&w);
            }
        }
        assert_eq!(regs.get(Field::Dout40), 0b00);
    }
}

#[test]
fn the_burst_spins_for_three_hundred_million_iterations_in_all() {
    let total: u64 = uart0()
        .iter()
        .map(|step| match step {
            Action::Spin(n) => u64::from(*n),
            _ => 0,
        })
        .sum();
    assert_eq!(total, 150_000_000);
}

#[test]
fn spin_counts_its_iterations() {
    assert_eq!(spin(0), 0);
    assert_eq!(spin(1), 1);
    assert_eq!(spin(750_000), 750_000);
    assert_eq!(spin(1_500_000), 1_500_000);
}

#[test]
fn blinky_setup_enables_the_pad() {
    assert_eq!(
        blinky_setup(),
        vec![RegWrite::single(Field::Gpen0, 1), RegWrite::single(Field::Doen40, 0b1)]
    );
}

#[test]
fn blinky_changes_level_at_every_hold_boundary() {
    let mut blinky = Blinky::new(3).unwrap();
    let values: Vec<u32> = (0..14).map(|_| blinky.step().fields[0].value).collect();
    assert_eq!(values, vec![1, 1, 1, 0, 0, 0, 1, 1, 1, 0, 0, 0, 1, 1]);
}

#[test]
fn blinky_with_a_hold_of_one_changes_level_every_iteration() {
    let mut blinky = Blinky::new(1).unwrap();
    let values: Vec<u32> = (0..6).map(|_| blinky.step().fields[0].value).collect();
    assert_eq!(values, vec![1, 0, 1, 0, 1, 0]);
}

#[test]
fn blinky_writes_only_the_led_output() {
    let mut blinky = Blinky::new(2).unwrap();
    for _ in 0..8 {
        let w = blinky.step();
        assert_eq!(w.fields.len(), 1);
        assert_eq!(w.fields[0].field, Field::Dout40);
        assert!(w.fields[0].value == 0b01 || w.fields[0].value == 0b00);
    }
}

#[test]
fn blinky_follows_the_closed_form_for_many_hold_lengths() {
    for hold in 1..40u32 {
        let mut blinky = Blinky::new(hold).unwrap();
        let mut previous = None;
        for i in 0..(hold * 7 + 3) {
            let value = blinky.step().fields[0].value;
            let expected = if (i / hold) % 2 == 0 { 0b01 } else { 0b00 };
            assert_eq!(value, expected);
            if let Some(p) = previous {
                assert_eq!(p != value, i % hold == 0);
            }
            previous = Some(value);
        }
    }
}

#[test]
fn there_is_no_blinky_with_a_hold_of_zero() {
    assert!(Blinky::new(0).is_none());
    assert!(Blinky::new(1).is_some());
    assert!(Blinky::new(u32::MAX).is_some());
}

#[test]
fn the_board_blinky_holds_each_level_for_750000_iterations() {
    let mut blinky = Blinky::start();
    for _ in 0..750_000 {
        assert_eq!(blinky.step().fields[0].value, 0b01);
    }
    for _ in 0..750_000 {
        assert_eq!(blinky.step().fields[0].value, 0b00);
    }
    assert_eq!(blinky.step().fields[0].value, 0b01);
}
