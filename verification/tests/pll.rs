use jh7110_bringup::pll::{
    pll0_1_000_000_000, pll2_1_188_000_000, set_pll0_freq, set_pll2_freq, set_pll_freq, Pll,
    PllFreq,
};
use jh7110_bringup::regs::{Block, Field, FieldWrite, RegWrite, Register, RegisterFile};

fn write(reg: Register, fields: &[(Field, u32)]) -> RegWrite {
    RegWrite {
        reg,
        fields: fields.iter().map(|&(field, value)| FieldWrite { field, value }).collect(),
    }
}

fn names(w: &RegWrite, field: Field) -> bool {
    w.fields.iter().any(|f| f.field == field)
}

#[test]
fn profiles_hold_the_board_values() {
    assert_eq!(
        pll0_1_000_000_000(),
        PllFreq { prediv: 3, fbdiv: 125, postdiv1: 1, dacpd: true, dsmpd: true }
    );
    assert_eq!(
        pll2_1_188_000_000(),
        PllFreq { prediv: 3, fbdiv: 99, postdiv1: 1, dacpd: true, dsmpd: true }
    );
}

#[test]
fn pll0_sequence_for_one_gigahertz() {
    let plan = set_pll0_freq(pll0_1_000_000_000());
    let expected = vec![
        write(Register::SysSyscfg8, &[(Field::Pll0Pd, 1)]),
        write(Register::SysSyscfg6, &[(Field::Pll0Dacpd, 1), (Field::Pll0Dsmpd, 1)]),
        write(Register::SysSyscfg9, &[(Field::Pll0Prediv, 3)]),
        write(Register::SysSyscfg7, &[(Field::Pll0Fbdiv, 125)]),
        write(Register::SysSyscfg8, &[(Field::Pll0Postdiv1, 0), (Field::Pll0Pd, 0)]),
    ];
    assert_eq!(plan, expected);
}

#[test]
fn pll2_sequence_uses_its_own_registers() {
    let plan = set_pll2_freq(pll2_1_188_000_000());
    let expected = vec![
        write(Register::SysSyscfg12, &[(Field::Pll2Pd, 1)]),
        write(Register::SysSyscfg11, &[(Field::Pll2Dacpd, 1), (Field::Pll2Dsmpd, 1)]),
        write(Register::SysSyscfg13, &[(Field::Pll2Prediv, 3)]),
        write(Register::SysSyscfg11, &[(Field::Pll2Fbdiv, 99)]),
        write(Register::SysSyscfg12, &[(Field::Pll2Postdiv1, 0), (Field::Pll2Pd, 0)]),
    ];
    assert_eq!(plan, expected);
}

#[test]
fn settings_are_written_as_given() {
    let f = PllFreq { prediv: 12, fbdiv: 533, postdiv1: 6, dacpd: false, dsmpd: true };
    let plan = set_pll_freq(Pll::Pll0, f);
    let mut regs = RegisterFile::new();
    regs.apply_all(&plan);
    assert_eq!(regs.get(Field::Pll0Prediv), 12);
    assert_eq!(regs.get(Field::Pll0Fbdiv), 533);
    assert_eq!(regs.get(Field::Pll0Postdiv1), 3);
    assert_eq!(regs.get(Field::Pll0Dacpd), 0);
    assert_eq!(regs.get(Field::Pll0Dsmpd), 1);
    assert_eq!(regs.get(Field::Pll0Pd), 0);
    assert_eq!(regs.get(Field::Pll2Prediv), 0);
}

#[test]
fn the_pll_is_down_while_its_settings_change() {
    let settings = [
        Field::Pll2Dacpd,
        Field::Pll2Dsmpd,
        Field::Pll2Prediv,
        Field::Pll2Fbdiv,
        Field::Pll2Postdiv1,
    ];
    let plan =
        set_pll2_freq(PllFreq { prediv: 2, fbdiv: 99, postdiv1: 1, dacpd: true, dsmpd: true });
    let mut regs = RegisterFile::new();
    let last = plan.len() - 1;
    for (i, w) in plan.iter().enumerate() {
        if settings.iter().any(|&s| names(w, s)) {
            assert_eq!(regs.get(Field::Pll2Pd), 1, "write {} changes a running PLL", i);
        }
        if w.fields.contains(&FieldWrite { field: Field::Pll2Pd, value: 0 }) {
            assert_eq!(i, last);
            assert!(names(w, Field::Pll2Postdiv1));
        }
        regs.apply(w);
    }
    assert_eq!(regs.get(Field::Pll2Pd), 0);
}

#[test]
fn postdiv_is_halved_for_every_value() {
    for postdiv1 in 0..=255u8 {
        let f = PllFreq { prediv: 1, fbdiv: 1, postdiv1, dacpd: false, dsmpd: false };
        let plan = set_pll0_freq(f);
        let mut regs = RegisterFile::new();
        regs.apply_all(&plan);
        assert_eq!(regs.get(Field::Pll0Postdiv1), u32::from(postdiv1 / 2));
        assert_eq!(regs.get(Field::Pll0Pd), 0);
        assert_eq!(
            plan[4].fields[0],
            FieldWrite { field: Field::Pll0Postdiv1, value: u32::from(postdiv1 >> 1) }
        );
    }
}

#[test]
fn postdiv_edge_values() {
    let at = |postdiv1: u8| {
        let f = PllFreq { prediv: 1, fbdiv: 1, postdiv1, dacpd: false, dsmpd: false };
        set_pll2_freq(f)[4].fields[0].value
    };
    assert_eq!(at(0), 0);
    assert_eq!(at(1), 0);
    assert_eq!(at(2), 1);
    assert_eq!(at(3), 1);
    assert_eq!(at(254), 127);
    assert_eq!(at(255), 127);
}

#[test]
fn pll_writes_stay_in_the_system_control_block() {
    for pll in [Pll::Pll0, Pll::Pll2] {
        for w in set_pll_freq(pll, pll0_1_000_000_000()) {
            assert_eq!(w.reg.block(), Block::SysSyscon);
            for f in &w.fields {
                assert_eq!(f.field.register(), w.reg);
            }
        }
    }
}

#[test]
fn pll_fields_are_disjoint() {
    let a = Pll::Pll0.fields();
    let b = Pll::Pll2.fields();
    let left = [a.pd, a.dacpd, a.dsmpd, a.prediv, a.fbdiv, a.postdiv1];
    let right = [b.pd, b.dacpd, b.dsmpd, b.prediv, b.fbdiv, b.postdiv1];
    for l in left {
        assert!(!right.contains(&l));
    }
}
