use mango_tcs::fixed_point::Fixed;
use mango_tcs::program::{
    determine_oracle_type, openbook_v2_cancel_order, same_key, stub_oracle_discriminator, trigger_check,
    validate_openbook_v2_cancel_order, InstructionError, MangoError, OpenbookV2CancelOrder, OpenbookV2Side, OracleType,
    StubOracle, Trigger,
};

fn trigger() -> Trigger {
    Trigger { id: 3, condition_was_met: 0, expiry_slot: 500, incentive_lamports: 4242 }
}

#[test]
fn trigger_check_marks_and_pays() {
    let mut t = trigger();
    assert_eq!(trigger_check(true, Ok(()), &mut t, 100, Ok(())), Ok(4242));
    assert_eq!(t.condition_was_met, 1);
    assert_eq!(t.expiry_slot, 1100);
    assert_eq!(t.id, 3);
}

#[test]
fn trigger_fires_only_once() {
    let mut t = trigger();
    assert!(trigger_check(true, Ok(()), &mut t, 100, Ok(())).is_ok());
    assert_eq!(
        trigger_check(true, Ok(()), &mut t, 101, Ok(())),
        Err(InstructionError::Mango(MangoError::SomeError))
    );
}

#[test]
fn trigger_check_errors() {
    let mut t = trigger();
    assert_eq!(
        trigger_check(false, Ok(()), &mut t, 100, Ok(())),
        Err(InstructionError::Mango(MangoError::IxIsDisabled))
    );
    assert_eq!(trigger_check(true, Err(InstructionError::Other(7)), &mut t, 100, Ok(())), Err(InstructionError::Other(7)));
    assert_eq!(trigger_check(true, Ok(()), &mut t, 500, Ok(())), Err(InstructionError::RequireGtViolated));
    assert_eq!(trigger_check(true, Ok(()), &mut t, 100, Err(InstructionError::Other(9))), Err(InstructionError::Other(9)));
    assert_eq!(t, trigger());
}

fn accounts() -> OpenbookV2CancelOrder {
    OpenbookV2CancelOrder {
        group: [1; 32],
        group_ix_enabled: true,
        account: [2; 32],
        account_group: [1; 32],
        account_is_operational: true,
        authority: [3; 32],
        open_orders: [4; 32],
        open_orders_market: [6; 32],
        openbook_v2_market: [5; 32],
        market_group: [1; 32],
        market_openbook_v2_program: [7; 32],
        market_openbook_v2_market_external: [6; 32],
        openbook_v2_program: [7; 32],
        openbook_v2_market_external: [6; 32],
        external_bids: [8; 32],
        external_asks: [9; 32],
        bids: [8; 32],
        asks: [9; 32],
    }
}

#[test]
fn cancel_order_constraints() {
    assert_eq!(accounts().check_constraints(), Ok(()));
    let mut a = accounts();
    a.group_ix_enabled = false;
    assert_eq!(a.check_constraints(), Err(InstructionError::Mango(MangoError::IxIsDisabled)));
    let mut a = accounts();
    a.account_group = [0; 32];
    assert_eq!(a.check_constraints(), Err(InstructionError::ConstraintHasOne));
    let mut a = accounts();
    a.account_is_operational = false;
    assert_eq!(a.check_constraints(), Err(InstructionError::Mango(MangoError::AccountIsFrozen)));
    let mut a = accounts();
    a.open_orders_market = [0; 32];
    assert_eq!(a.check_constraints(), Err(InstructionError::ConstraintRaw));
    let mut a = accounts();
    a.market_openbook_v2_program = [0; 32];
    assert_eq!(a.check_constraints(), Err(InstructionError::ConstraintHasOne));
    let mut a = accounts();
    a.external_asks = [0; 32];
    assert_eq!(a.check_constraints(), Err(InstructionError::ConstraintHasOne));
}

#[test]
fn cancel_order_validation() {
    let oo = [4u8; 32];
    assert_eq!(validate_openbook_v2_cancel_order(true, Ok(oo), &oo), Ok(()));
    assert_eq!(
        validate_openbook_v2_cancel_order(false, Ok(oo), &oo),
        Err(InstructionError::Mango(MangoError::SomeError))
    );
    assert_eq!(
        validate_openbook_v2_cancel_order(true, Ok([5; 32]), &oo),
        Err(InstructionError::Mango(MangoError::SomeError))
    );
    assert_eq!(validate_openbook_v2_cancel_order(true, Err(InstructionError::Other(1)), &oo), Err(InstructionError::Other(1)));
}

#[test]
fn cancel_order_call() {
    let a = accounts();
    let call = openbook_v2_cancel_order(&a, true, Ok([4; 32]), OpenbookV2Side::Bid, 77).unwrap();
    assert_eq!(call.program, [7; 32]);
    assert_eq!(call.signer, [2; 32]);
    assert_eq!(call.open_orders_account, [4; 32]);
    assert_eq!(call.market, [6; 32]);
    assert_eq!(call.bids, [8; 32]);
    assert_eq!(call.asks, [9; 32]);
    assert_eq!(call.order_id, 77);
    let mut off = accounts();
    off.group_ix_enabled = false;
    assert_eq!(
        openbook_v2_cancel_order(&off, false, Ok([4; 32]), OpenbookV2Side::Ask, 77).unwrap_err(),
        InstructionError::Mango(MangoError::IxIsDisabled)
    );
    assert_eq!(
        openbook_v2_cancel_order(&a, true, Ok([1; 32]), OpenbookV2Side::Ask, 77).unwrap_err(),
        InstructionError::Mango(MangoError::SomeError)
    );
}

#[test]
fn oracle_type_from_discriminator() {
    let mut data = stub_oracle_discriminator().to_vec();
    data.extend_from_slice(&[0u8; 24]);
    assert_eq!(determine_oracle_type(&data), Ok(OracleType::Stub));
    data[3] ^= 1;
    assert_eq!(determine_oracle_type(&data), Err(InstructionError::Mango(MangoError::UnknownOracle)));
    assert_eq!(stub_oracle_discriminator(), [224, 251, 254, 99, 177, 174, 137, 4]);
    let o = StubOracle { price: Fixed::from_u64(3), last_updated: 9 };
    assert_eq!(o.price.bits, 3 << 48);
}

#[test]
fn keys_compare_bytewise() {
    assert!(same_key(&[1; 32], &[1; 32]));
    let mut k = [1u8; 32];
    k[31] = 2;
    assert!(!same_key(&[1; 32], &k));
}
