use i8080::alu::{
    Adder, DecimalAdjuster, IncDecOperator, LogicalOperator, Rotator, StatusFlag, StatusFlagSet,
    ALU,
};
use i8080::processor::AluUnit;
use i8080::alu::StatusFlag::{AuxiliaryCarry, Carry, Parity, Sign, Zero};

#[test]
fn alu_alu() {
    let adder = Adder::adder();
    assert_eq!(adder.op(10, 3), (13, StatusFlagSet::empty()));
    assert_eq!(
        adder.op(103, 191),
        (38, StatusFlagSet::empty().with(Carry).with(AuxiliaryCarry))
    );
    assert_eq!(
        adder.op(1, 255),
        (0, StatusFlagSet::empty().with(Carry).with(Zero).with(Parity).with(AuxiliaryCarry))
    );
    assert_eq!(adder.op(1, 254), (255, StatusFlagSet::empty().with(Parity).with(Sign)));
    assert_eq!(
        adder.op(0x19, 0x28),
        (0x41, StatusFlagSet::empty().with(AuxiliaryCarry).with(Parity))
    );
    let c_adder = Adder::carried_adder();
    assert_eq!(
        c_adder.op(0, 255),
        (0, StatusFlagSet::empty().with(Carry).with(Zero).with(Parity).with(AuxiliaryCarry))
    );
    assert_eq!(c_adder.op(6, 9), (16, StatusFlagSet::empty().with(AuxiliaryCarry)));
    let subber = Adder::subber();
    assert_eq!(
        subber.op(18, 3),
        (15, StatusFlagSet::empty().with(Parity).with(AuxiliaryCarry))
    );
    assert_eq!(
        subber.op(16, 19),
        (253, StatusFlagSet::empty().with(Sign).with(Carry).with(AuxiliaryCarry))
    );
    assert_eq!(subber.op(9, 9), (0, StatusFlagSet::empty().with(Zero).with(Parity)));
    let b_subber = Adder::borrowed_subber();
    assert_eq!(b_subber.op(10, 3), (6, StatusFlagSet::empty().with(Parity)));
    let alus: Vec<AluUnit> = vec![
        AluUnit::Add(Adder::adder()),
        AluUnit::Add(Adder::subber()),
        AluUnit::Logic(LogicalOperator::And),
        AluUnit::Logic(LogicalOperator::Or),
        AluUnit::Logic(LogicalOperator::Xor),
        AluUnit::Logic(LogicalOperator::Not),
    ];
    println!("{:?}", alus.iter().map(|alu| alu.op(31, 41)).collect::<Vec<_>>());
}

#[test]
fn daa() {
    for lhs in 0..=255u8 {
        if let Ok(ld) = format!("{lhs:x}").parse::<u8>() {
            for rhs in 0..=255u8 {
                if let Ok(rd) = format!("{rhs:x}").parse::<u8>() {
                    let (res, status) = Adder::adder().op(lhs, rhs);
                    let (res, status) = DecimalAdjuster::from_status(status).op(0, res);
                    if let Ok(res) = format!("{res:x}").parse::<u8>() {
                        assert_eq!(res, (ld + rd) % 100);
                        assert_eq!(status.contains(StatusFlag::Carry), (ld + rd) >= 100)
                    } else {
                        panic!("decimal adjust fail")
                    }
                }
            }
        }
    }
}

#[test]
fn rotate() {
    let t = 0b0011_0011;
    assert_eq!(Rotator::rotate_left().op(0, t), (0b0110_0110, StatusFlagSet::empty()));
    assert_eq!(
        Rotator::rotate_left().through_carry().carried(true).op(0, t),
        (0b0110_0111, StatusFlagSet::empty())
    );
    assert_eq!(
        Rotator::rotate_right().through_carry().op(0, t),
        (0b0001_1001, StatusFlagSet::empty().with(StatusFlag::Carry))
    );
    assert_eq!(
        Rotator::rotate_right().op(0, t),
        (0b1001_1001, StatusFlagSet::empty().with(StatusFlag::Carry))
    );
    let t = 0b1000_1000;
    assert_eq!(
        Rotator::rotate_left().through_carry().carried(true).op(0, t),
        (0b0001_0001, StatusFlagSet::empty().with(StatusFlag::Carry))
    );
    assert_eq!(
        Rotator::rotate_left().through_carry().op(0, t),
        (0b0001_0000, StatusFlagSet::empty().with(StatusFlag::Carry))
    );
}

#[test]
fn set_by_result_sets_zero_sign_parity() {
    assert_eq!(StatusFlag::set_by_result(0), StatusFlagSet::empty().with(Zero).with(Parity));
    assert_eq!(StatusFlag::set_by_result(0x80), StatusFlagSet::empty().with(Sign));
    assert_eq!(StatusFlag::set_by_result(0x7F), StatusFlagSet::empty());
    assert_eq!(StatusFlag::set_by_result(0xFF), StatusFlagSet::empty().with(Sign).with(Parity));
    assert_eq!(StatusFlag::set_by_result(0x03), StatusFlagSet::empty().with(Parity));
    assert_eq!(StatusFlag::set_by_result(0x01), StatusFlagSet::empty());
}

#[test]
fn adder_and_subber_wrap() {
    for (l, r) in [(0u8, 0u8), (255, 1), (200, 100), (17, 250), (128, 128)] {
        assert_eq!(Adder::adder().op(l, r).0, l.wrapping_add(r));
        assert_eq!(Adder::subber().op(l, r).0, l.wrapping_sub(r));
    }
}

#[test]
fn adder_scenarios() {
    assert_eq!(Adder::adder().op(10, 3), (13, StatusFlagSet::empty()));
    assert_eq!(
        Adder::adder().op(1, 255),
        (0, StatusFlagSet::empty().with(Carry).with(Zero).with(Parity).with(AuxiliaryCarry))
    );
    assert_eq!(
        Adder::subber().op(16, 19),
        (253, StatusFlagSet::empty().with(Sign).with(Carry).with(AuxiliaryCarry))
    );
}

#[test]
fn decimal_adjust_round_trip_examples() {
    // 38 + 45 = 83; 99 + 1 = 100; 50 + 50 = 100; 9 + 9 = 18
    for (l, r, sum, carry) in [
        (0x38u8, 0x45u8, 0x83u8, false),
        (0x99, 0x01, 0x00, true),
        (0x50, 0x50, 0x00, true),
        (0x09, 0x09, 0x18, false),
        (0x99, 0x99, 0x98, true),
    ] {
        let (res, status) = Adder::adder().op(l, r);
        let (res, status) = DecimalAdjuster::from_status(status).op(0, res);
        assert_eq!(res, sum);
        assert_eq!(status.contains(StatusFlag::Carry), carry);
    }
}

#[test]
fn inc_dec_flags() {
    assert_eq!(
        IncDecOperator::Increase.op(0, 0xFF),
        (0, StatusFlagSet::empty().with(Zero).with(Parity).with(Carry).with(AuxiliaryCarry))
    );
    assert_eq!(
        IncDecOperator::Increase.op(0, 0x0F),
        (0x10, StatusFlagSet::empty().with(AuxiliaryCarry))
    );
    assert_eq!(IncDecOperator::Increase.op(0, 0x01), (0x02, StatusFlagSet::empty()));
    assert_eq!(
        IncDecOperator::Decrease.op(0, 0),
        (0xFF, StatusFlagSet::empty().with(Sign).with(Parity).with(Carry))
    );
    assert_eq!(
        IncDecOperator::Decrease.op(0, 0x12),
        (0x11, StatusFlagSet::empty().with(Parity).with(AuxiliaryCarry))
    );
}

#[test]
fn logical_operators() {
    assert_eq!(LogicalOperator::And.op(0xF0, 0x3C), (0x30, StatusFlagSet::empty().with(Parity)));
    assert_eq!(LogicalOperator::Or.op(0xF0, 0x0F), (0xFF, StatusFlagSet::empty().with(Sign).with(Parity)));
    assert_eq!(LogicalOperator::Xor.op(0x5A, 0x5A), (0, StatusFlagSet::empty().with(Zero).with(Parity)));
    assert_eq!(LogicalOperator::Not.op(0x12, 0xFE), (0x01, StatusFlagSet::empty()));
}

#[test]
fn flag_set_operations() {
    let a = StatusFlagSet::empty().with(Zero).with(Carry);
    let b = StatusFlagSet::empty().with(Carry).with(Sign);
    assert_eq!(a.union(b), StatusFlagSet::empty().with(Zero).with(Carry).with(Sign));
    assert_eq!(a.intersection(b), StatusFlagSet::empty().with(Carry));
    assert_eq!(a.symmetric_difference(b), StatusFlagSet::empty().with(Zero).with(Sign));
    assert_eq!(
        a.complement(),
        StatusFlagSet::empty().with(Sign).with(Parity).with(AuxiliaryCarry)
    );
    assert!(StatusFlagSet::empty().is_empty());
    assert!(!a.is_empty());
    assert_eq!(StatusFlagSet::all().complement(), StatusFlagSet::empty());
    let mut c = a;
    c.toggle(Zero);
    c.toggle(Parity);
    assert_eq!(c, StatusFlagSet::empty().with(Carry).with(Parity));
    assert!(c.contains(Parity) && !c.contains(Zero));
}

#[test]
fn present_flags_in_order() {
    let s = StatusFlagSet::empty().with(AuxiliaryCarry).with(Zero).with(Carry);
    assert_eq!(s.present_flags(), vec![Zero, Carry, AuxiliaryCarry]);
    assert!(StatusFlagSet::empty().present_flags().is_empty());
    assert_eq!(StatusFlagSet::all().present_flags(), vec![Zero, Sign, Parity, Carry, AuxiliaryCarry]);
}
