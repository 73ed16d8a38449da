use jh7110_bringup::regs::{
    append_writes, push_write, Block, Field, FieldWrite, RegWrite, Register, RegisterFile,
};

#[test]
fn a_fresh_register_file_holds_zero_everywhere() {
    let regs = RegisterFile::new();
    assert_eq!(regs.get(Field::Pll0Pd), 0);
    assert_eq!(regs.get(Field::Dout40), 0);
    assert_eq!(regs.get(Field::JtagTck), 0);
}

#[test]
fn a_write_changes_only_the_fields_it_names() {
    let mut regs = RegisterFile::new();
    regs.apply(&RegWrite::single(Field::Doen5, 1));
    regs.apply(&RegWrite::single(Field::Doen6, 2));
    assert_eq!(regs.get(Field::Doen5), 1);
    assert_eq!(regs.get(Field::Doen6), 2);
    regs.apply(&RegWrite::single(Field::Doen5, 7));
    assert_eq!(regs.get(Field::Doen5), 7);
    assert_eq!(regs.get(Field::Doen6), 2);
    assert_eq!(regs.get(Field::Dout5), 0);
}

#[test]
fn within_one_write_the_last_value_wins() {
    let mut regs = RegisterFile::new();
    let w = RegWrite::to(Register::ClkApb0).with(Field::Apb0Icg, 0).with(Field::Apb0Icg, 1);
    assert_eq!(
        w,
        RegWrite {
            reg: Register::ClkApb0,
            fields: vec![
                FieldWrite { field: Field::Apb0Icg, value: 0 },
                FieldWrite { field: Field::Apb0Icg, value: 1 },
            ],
        }
    );
    regs.apply(&w);
    assert_eq!(regs.get(Field::Apb0Icg), 1);
}

#[test]
fn apply_all_runs_first_to_last() {
    let plan = vec![
        RegWrite::single(Field::Dout40, 2),
        RegWrite::single(Field::Dout40, 0),
        RegWrite::single(Field::Dout40, 1),
    ];
    let mut regs = RegisterFile::new();
    regs.apply_all(&plan);
    assert_eq!(regs.get(Field::Dout40), 1);
}

#[test]
fn single_goes_to_the_register_of_the_field() {
    let w = RegWrite::single(Field::Pll2Fbdiv, 99);
    assert_eq!(w.reg, Register::SysSyscfg11);
    assert_eq!(w.fields, vec![FieldWrite { field: Field::Pll2Fbdiv, value: 99 }]);
}

#[test]
fn fields_know_their_registers() {
    assert_eq!(Field::VoutRemapGpio3.register(), Register::SysSyscfg3);
    assert_eq!(Field::Pll0Fbdiv.register(), Register::SysSyscfg7);
    assert_eq!(Field::Pll2Fbdiv.register(), Register::SysSyscfg11);
    assert_eq!(Field::Pll2Dacpd.register(), Register::SysSyscfg11);
    assert_eq!(Field::Pll0Pd.register(), Register::SysSyscfg8);
    assert_eq!(Field::Pll0Postdiv1.register(), Register::SysSyscfg8);
    assert_eq!(Field::AonApbMuxSel.register(), Register::ClkAonApb);
    assert_eq!(Field::Doen5.register(), Register::GpoDoen1);
    assert_eq!(Field::Doen6.register(), Register::GpoDoen1);
    assert_eq!(Field::Doen35.register(), Register::GpoDoen8);
    assert_eq!(Field::Doen40.register(), Register::GpoDoen10);
    assert_eq!(Field::Doen44.register(), Register::GpoDoen11);
    assert_eq!(Field::Doen63.register(), Register::GpoDoen15);
    assert_eq!(Field::Dout5.register(), Register::GpoDout1);
    assert_eq!(Field::Dout40.register(), Register::GpoDout10);
    assert_eq!(Field::UartSin0.register(), Register::Gpi3);
    assert_eq!(Field::JtagTck.register(), Register::Gpi7);
    assert_eq!(Field::Gpio40Pu.register(), Register::PadGpio40);
}

#[test]
fn registers_know_their_blocks() {
    assert_eq!(Register::SysSyscfg3.block(), Block::SysSyscon);
    assert_eq!(Register::SysSyscfg13.block(), Block::SysSyscon);
    assert_eq!(Register::ClkCpuRoot.block(), Block::SysCrg);
    assert_eq!(Register::ClkU0UartApb.block(), Block::SysCrg);
    assert_eq!(Register::ClkAonApb.block(), Block::AonCrg);
    assert_eq!(Register::Ioirq0.block(), Block::SysPinctrl);
    assert_eq!(Register::PadGpio40.block(), Block::SysPinctrl);
    assert_eq!(Register::Gpi7.block(), Block::SysPinctrl);
}

#[test]
fn plans_grow_at_the_end() {
    let mut plan = vec![RegWrite::single(Field::Gpen0, 1)];
    push_write(&mut plan, RegWrite::single(Field::Doen40, 1));
    append_writes(
        &mut plan,
        vec![RegWrite::single(Field::Dout40, 1), RegWrite::single(Field::Dout40, 0)],
    );
    let fields: Vec<Field> = plan.iter().map(|w| w.fields[0].field).collect();
    assert_eq!(fields, vec![Field::Gpen0, Field::Doen40, Field::Dout40, Field::Dout40]);
}

#[test]
fn a_write_is_well_formed_when_its_fields_live_in_its_register() {
    assert!(RegWrite::single(Field::Pll0Pd, 1).is_well_formed());
    assert!(RegWrite::to(Register::SysSyscfg8).is_well_formed());
    assert!(RegWrite::to(Register::SysSyscfg8)
        .with(Field::Pll0Postdiv1, 0)
        .with(Field::Pll0Pd, 0)
        .is_well_formed());
    assert!(!RegWrite::to(Register::SysSyscfg8)
        .with(Field::Pll0Postdiv1, 0)
        .with(Field::Pll2Pd, 0)
        .is_well_formed());
    assert!(!RegWrite::to(Register::SysSyscfg12).with(Field::Pll0Pd, 0).is_well_formed());
    let stray = RegWrite {
        reg: Register::Gpi1,
        fields: vec![FieldWrite { field: Field::JtagTck, value: 2 }],
    };
    assert!(!stray.is_well_formed());
}
