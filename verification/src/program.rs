//! Checks and state changes of three mango-v4 instructions: triggering a
//! trigger, cancelling an openbook v2 order, and recognising an oracle.

use vstd::prelude::*;
use crate::fixed_point::Fixed;
use crate::prepare::Key;

verus! {

/// Errors of the mango program that these instructions raise.
#[derive(Clone, Copy, PartialEq, Eq, Structural, Debug)]
pub enum MangoError {
    SomeError,
    IxIsDisabled,
    AccountIsFrozen,
    UnknownOracle,
}

/// How an instruction fails.
#[derive(Clone, Copy, PartialEq, Eq, Structural, Debug)]
pub enum InstructionError {
    Mango(MangoError),
    /// A `require_gt!` check failed.
    RequireGtViolated,
    /// A `has_one` account constraint failed.
    ConstraintHasOne,
    /// A plain account `constraint` without its own error failed.
    ConstraintRaw,
    /// An error passed on from a step the caller performed, by its code.
    Other(u32),
}

/// Whether two addresses are the same.
pub fn same_key(a: &Key, b: &Key) -> (r: bool)
    ensures
        r == (a@ == b@),
{
    for k in 0..32
        invariant
            a@.len() == 32,
            b@.len() == 32,
            forall|j: int| 0 <= j < k ==> a@[j] == b@[j],
    {
        if a[k] != b[k] {
            return false;
        }
    }
    assert(a@ =~= b@);
    true
}

// ---------------------------------------------------------------------------
// trigger_check

/// How far in the future a trigger expires once its condition was met.
pub const MET_TRIGGER_EXPIRY_SLOTS: u64 = 1000;

/// The fields of a trigger that checking it reads and writes.
#[derive(Clone, Copy, PartialEq, Eq, Structural, Debug)]
pub struct Trigger {
    pub id: u64,
    /// Zero until the condition was met.
    pub condition_was_met: u8,
    pub expiry_slot: u64,
    /// What the triggerer is paid, in lamports.
    pub incentive_lamports: u64,
}

/// The outcome of checking a trigger: the incentive to pay or the error,
/// and the trigger afterwards.
pub open spec fn trigger_check_spec(
    ix_enabled: bool,
    lookup: Result<(), InstructionError>,
    trigger: Trigger,
    now_slot: u64,
    condition: Result<(), InstructionError>,
) -> (Result<u64, InstructionError>, Trigger) {
    if !ix_enabled {
        (Err(InstructionError::Mango(MangoError::IxIsDisabled)), trigger)
    } else if lookup is Err {
        (Err(lookup->Err_0), trigger)
    } else if trigger.condition_was_met != 0 {
        (Err(InstructionError::Mango(MangoError::SomeError)), trigger)
    } else if !(trigger.expiry_slot > now_slot) {
        (Err(InstructionError::RequireGtViolated), trigger)
    } else if condition is Err {
        (Err(condition->Err_0), trigger)
    } else {
        (
            Ok(trigger.incentive_lamports),
            Trigger { condition_was_met: 1, expiry_slot: (now_slot + MET_TRIGGER_EXPIRY_SLOTS) as u64, ..trigger },
        )
    }
}

/// The inputs on which checking a trigger succeeds.
pub open spec fn trigger_check_succeeds(
    ix_enabled: bool,
    lookup: Result<(), InstructionError>,
    trigger: Trigger,
    now_slot: u64,
    condition: Result<(), InstructionError>,
) -> bool {
    ix_enabled && lookup is Ok && trigger.condition_was_met == 0 && trigger.expiry_slot > now_slot
        && condition is Ok
}

/// Checks a trigger whose condition may have been met.
///
/// The instruction must be enabled; `lookup` is the outcome of loading the
/// triggers account, reading the clock and finding the trigger (which is
/// `trigger`); the trigger's condition must not have been met yet and it
/// must not have expired at `now_slot`; `condition` is the outcome of
/// checking the condition against the given accounts. On success the
/// condition is marked met, the trigger now expires
/// `MET_TRIGGER_EXPIRY_SLOTS` after `now_slot`, and the incentive to pay
/// the triggerer is returned. On failure the trigger is unchanged.
pub fn trigger_check(
    ix_enabled: bool,
    lookup: Result<(), InstructionError>,
    trigger: &mut Trigger,
    now_slot: u64,
    condition: Result<(), InstructionError>,
) -> (r: Result<u64, InstructionError>)
    requires
        trigger_check_succeeds(ix_enabled, lookup, *old(trigger), now_slot, condition)
            ==> now_slot + MET_TRIGGER_EXPIRY_SLOTS <= u64::MAX,
    ensures
        (r, *final(trigger)) == trigger_check_spec(ix_enabled, lookup, *old(trigger), now_slot, condition),
        r is Ok <==> trigger_check_succeeds(ix_enabled, lookup, *old(trigger), now_slot, condition),
        r is Ok ==> {
            &&& r == Ok::<u64, InstructionError>(old(trigger).incentive_lamports)
            &&& final(trigger).condition_was_met == 1
            &&& final(trigger).expiry_slot == now_slot + MET_TRIGGER_EXPIRY_SLOTS
            &&& final(trigger).id == old(trigger).id
            &&& final(trigger).incentive_lamports == old(trigger).incentive_lamports
        },
        r is Err ==> *final(trigger) == *old(trigger),
        !ix_enabled ==> r == Err::<u64, InstructionError>(InstructionError::Mango(MangoError::IxIsDisabled)),
        ix_enabled && old(trigger).condition_was_met != 0 && lookup is Ok
            ==> r == Err::<u64, InstructionError>(InstructionError::Mango(MangoError::SomeError)),
        ix_enabled && lookup is Ok && old(trigger).condition_was_met == 0 && old(trigger).expiry_slot <= now_slot
            ==> r == Err::<u64, InstructionError>(InstructionError::RequireGtViolated),
{
    if !ix_enabled {
        return Err(InstructionError::Mango(MangoError::IxIsDisabled));
    }
    match lookup {
        Err(e) => { return Err(e); },
        Ok(()) => {},
    }
    if trigger.condition_was_met != 0 {
        return Err(InstructionError::Mango(MangoError::SomeError));
    }
    if !(trigger.expiry_slot > now_slot) {
        return Err(InstructionError::RequireGtViolated);
    }
    match condition {
        Err(e) => { return Err(e); },
        Ok(()) => {},
    }
    trigger.condition_was_met = 1;
    trigger.expiry_slot = now_slot + MET_TRIGGER_EXPIRY_SLOTS;
    Ok(trigger.incentive_lamports)
}

/// A trigger fires at most once: after a successful check, checking the
/// same trigger again fails with `SomeError`, whatever the slot and the
/// condition, as long as the instruction is enabled and the trigger is
/// found.
pub proof fn lemma_trigger_fires_once(
    trigger: Trigger,
    now_slot: u64,
    condition: Result<(), InstructionError>,
    later_slot: u64,
    later_condition: Result<(), InstructionError>,
)
    requires
        trigger_check_spec(true, Ok(()), trigger, now_slot, condition).0 is Ok,
    ensures
        trigger_check_spec(
            true,
            Ok(()),
            trigger_check_spec(true, Ok(()), trigger, now_slot, condition).1,
            later_slot,
            later_condition,
        ).0 == Err::<u64, InstructionError>(InstructionError::Mango(MangoError::SomeError)),
{
}

/// A successful check marks the condition met and makes the trigger expire
/// `MET_TRIGGER_EXPIRY_SLOTS` after the slot of the check, whatever expiry
/// it had before; it pays the trigger's incentive and keeps its id and
/// incentive.
pub proof fn lemma_trigger_check_resets_expiry(
    trigger: Trigger,
    now_slot: u64,
    condition: Result<(), InstructionError>,
)
    requires
        now_slot + MET_TRIGGER_EXPIRY_SLOTS <= u64::MAX,
    ensures
        trigger_check_spec(true, Ok(()), trigger, now_slot, condition).0 is Ok ==> {
            let after = trigger_check_spec(true, Ok(()), trigger, now_slot, condition).1;
            &&& trigger_check_spec(true, Ok(()), trigger, now_slot, condition).0
                == Ok::<u64, InstructionError>(trigger.incentive_lamports)
            &&& after.condition_was_met == 1
            &&& after.expiry_slot == now_slot + MET_TRIGGER_EXPIRY_SLOTS
            &&& after.id == trigger.id
            &&& after.incentive_lamports == trigger.incentive_lamports
        },
        trigger_check_spec(true, Ok(()), trigger, now_slot, condition).0 is Err
            ==> trigger_check_spec(true, Ok(()), trigger, now_slot, condition).1 == trigger,
{
}

// ---------------------------------------------------------------------------
// openbook v2 cancel order

/// The side of an openbook v2 order.
#[derive(Clone, Copy, PartialEq, Eq, Structural, Debug)]
pub enum OpenbookV2Side {
    Bid,
    Ask,
}

/// The accounts of the openbook v2 cancel-order instruction, with the
/// loaded fields that its account constraints read.
#[derive(Clone, Copy, Debug)]
pub struct OpenbookV2CancelOrder {
    pub group: Key,
    /// Whether the group enables the cancel-order instruction.
    pub group_ix_enabled: bool,
    pub account: Key,
    pub account_group: Key,
    pub account_is_operational: bool,
    pub authority: Key,
    pub open_orders: Key,
    pub open_orders_market: Key,
    pub openbook_v2_market: Key,
    pub market_group: Key,
    pub market_openbook_v2_program: Key,
    pub market_openbook_v2_market_external: Key,
    pub openbook_v2_program: Key,
    pub openbook_v2_market_external: Key,
    pub external_bids: Key,
    pub external_asks: Key,
    pub bids: Key,
    pub asks: Key,
}

/// The first account constraint that fails, field after field, or none.
pub open spec fn constraints_spec(a: OpenbookV2CancelOrder) -> Result<(), InstructionError> {
    if !a.group_ix_enabled {
        Err(InstructionError::Mango(MangoError::IxIsDisabled))
    } else if a.account_group@ != a.group@ {
        Err(InstructionError::ConstraintHasOne)
    } else if !a.account_is_operational {
        Err(InstructionError::Mango(MangoError::AccountIsFrozen))
    } else if a.open_orders_market@ != a.openbook_v2_market_external@ {
        Err(InstructionError::ConstraintRaw)
    } else if a.market_group@ != a.group@ || a.market_openbook_v2_program@ != a.openbook_v2_program@
        || a.market_openbook_v2_market_external@ != a.openbook_v2_market_external@ {
        Err(InstructionError::ConstraintHasOne)
    } else if a.external_bids@ != a.bids@ || a.external_asks@ != a.asks@ {
        Err(InstructionError::ConstraintHasOne)
    } else {
        Ok(())
    }
}

impl OpenbookV2CancelOrder {
    /// Checks the account constraints of the instruction in the order in
    /// which its accounts are declared: the group enables the instruction;
    /// the account belongs to the group and is operational; the open orders
    /// belong to the external market; the registered market belongs to the
    /// group and names the program and the external market; the external
    /// market names the bids and asks.
    pub fn check_constraints(&self) -> (r: Result<(), InstructionError>)
        ensures
            r == constraints_spec(*self),
            r is Ok <==> {
                &&& self.group_ix_enabled
                &&& self.account_group@ == self.group@
                &&& self.account_is_operational
                &&& self.open_orders_market@ == self.openbook_v2_market_external@
                &&& self.market_group@ == self.group@
                &&& self.market_openbook_v2_program@ == self.openbook_v2_program@
                &&& self.market_openbook_v2_market_external@ == self.openbook_v2_market_external@
                &&& self.external_bids@ == self.bids@
                &&& self.external_asks@ == self.asks@
            },
            !self.group_ix_enabled ==> r == Err::<(), InstructionError>(InstructionError::Mango(MangoError::IxIsDisabled)),
            self.group_ix_enabled && self.account_group@ == self.group@ && !self.account_is_operational
                ==> r == Err::<(), InstructionError>(InstructionError::Mango(MangoError::AccountIsFrozen)),
            r matches Err(e) ==> e == InstructionError::Mango(MangoError::IxIsDisabled)
                || e == InstructionError::Mango(MangoError::AccountIsFrozen)
                || e == InstructionError::ConstraintHasOne || e == InstructionError::ConstraintRaw,
    {
        if !self.group_ix_enabled {
            return Err(InstructionError::Mango(MangoError::IxIsDisabled));
        }
        if !same_key(&self.account_group, &self.group) {
            return Err(InstructionError::ConstraintHasOne);
        }
        if !self.account_is_operational {
            return Err(InstructionError::Mango(MangoError::AccountIsFrozen));
        }
        if !same_key(&self.open_orders_market, &self.openbook_v2_market_external) {
            return Err(InstructionError::ConstraintRaw);
        }
        if !same_key(&self.market_group, &self.group)
            || !same_key(&self.market_openbook_v2_program, &self.openbook_v2_program)
            || !same_key(&self.market_openbook_v2_market_external, &self.openbook_v2_market_external)
        {
            return Err(InstructionError::ConstraintHasOne);
        }
        if !same_key(&self.external_bids, &self.bids) || !same_key(&self.external_asks, &self.asks) {
            return Err(InstructionError::ConstraintHasOne);
        }
        Ok(())
    }
}

/// The validation outcome of a cancel-order request.
pub open spec fn validate_cancel_spec(
    is_owner_or_delegate: bool,
    registered_open_orders: Result<Key, InstructionError>,
    open_orders: Key,
) -> Result<(), InstructionError> {
    if !is_owner_or_delegate {
        Err(InstructionError::Mango(MangoError::SomeError))
    } else if registered_open_orders is Err {
        Err(registered_open_orders->Err_0)
    } else if registered_open_orders->Ok_0@ != open_orders@ {
        Err(InstructionError::Mango(MangoError::SomeError))
    } else {
        Ok(())
    }
}

/// Validates a cancel-order request: the authority must be the account's
/// owner or delegate, and the open orders account must be the one the
/// mango account registered for the market (`registered_open_orders`, or
/// the error met looking it up).
pub fn validate_openbook_v2_cancel_order(
    is_owner_or_delegate: bool,
    registered_open_orders: Result<Key, InstructionError>,
    open_orders: &Key,
) -> (r: Result<(), InstructionError>)
    ensures
        r == validate_cancel_spec(is_owner_or_delegate, registered_open_orders, *open_orders),
        r is Ok <==> (is_owner_or_delegate && registered_open_orders is Ok
            && registered_open_orders->Ok_0@ == open_orders@),
        !is_owner_or_delegate ==> r == Err::<(), InstructionError>(InstructionError::Mango(MangoError::SomeError)),
        is_owner_or_delegate && registered_open_orders is Err
            ==> r == Err::<(), InstructionError>(registered_open_orders->Err_0),
        is_owner_or_delegate && registered_open_orders is Ok && registered_open_orders->Ok_0@ != open_orders@
            ==> r == Err::<(), InstructionError>(InstructionError::Mango(MangoError::SomeError)),
{
    if !is_owner_or_delegate {
        return Err(InstructionError::Mango(MangoError::SomeError));
    }
    match registered_open_orders {
        Err(e) => Err(e),
        Ok(k) => {
            if !same_key(&k, open_orders) {
                Err(InstructionError::Mango(MangoError::SomeError))
            } else {
                Ok(())
            }
        },
    }
}

/// The cross-program call that cancels an openbook v2 order.
#[derive(Clone, Copy, Debug)]
pub struct CancelOrderCall {
    pub program: Key,
    /// The mango account signs with its seeds.
    pub signer: Key,
    pub open_orders_account: Key,
    pub market: Key,
    pub bids: Key,
    pub asks: Key,
    pub order_id: u128,
}

/// Decides a cancel-order instruction: the group must enable it, the
/// request must validate (see `validate_openbook_v2_cancel_order`), and
/// then the call to openbook v2 is made with the mango account as signer,
/// its open orders, the external market and its book sides. The order's
/// `side` is not read: openbook v2 cancels by id. After the call the
/// caller logs the open orders balances.
pub fn openbook_v2_cancel_order(
    accounts: &OpenbookV2CancelOrder,
    is_owner_or_delegate: bool,
    registered_open_orders: Result<Key, InstructionError>,
    side: OpenbookV2Side,
    order_id: u128,
) -> (r: Result<CancelOrderCall, InstructionError>)
    ensures
        !accounts.group_ix_enabled ==> r == Err::<CancelOrderCall, InstructionError>(
            InstructionError::Mango(MangoError::IxIsDisabled),
        ),
        accounts.group_ix_enabled && validate_cancel_spec(is_owner_or_delegate, registered_open_orders, accounts.open_orders) is Err
            ==> r == Err::<CancelOrderCall, InstructionError>(
            validate_cancel_spec(is_owner_or_delegate, registered_open_orders, accounts.open_orders)->Err_0,
        ),
        r is Ok <==> accounts.group_ix_enabled
            && validate_cancel_spec(is_owner_or_delegate, registered_open_orders, accounts.open_orders) is Ok,
        r matches Ok(c) ==> c == (CancelOrderCall {
            program: accounts.openbook_v2_program,
            signer: accounts.account,
            open_orders_account: accounts.open_orders,
            market: accounts.openbook_v2_market_external,
            bids: accounts.bids,
            asks: accounts.asks,
            order_id,
        }),
{
    if !accounts.group_ix_enabled {
        return Err(InstructionError::Mango(MangoError::IxIsDisabled));
    }
    match validate_openbook_v2_cancel_order(is_owner_or_delegate, registered_open_orders, &accounts.open_orders) {
        Err(e) => Err(e),
        Ok(()) => Ok(CancelOrderCall {
            program: accounts.openbook_v2_program,
            signer: accounts.account,
            open_orders_account: accounts.open_orders,
            market: accounts.openbook_v2_market_external,
            bids: accounts.bids,
            asks: accounts.asks,
            order_id,
        }),
    }
}

// ---------------------------------------------------------------------------
// oracles

/// The kinds of oracle accounts.
#[derive(Clone, Copy, PartialEq, Eq, Structural, Debug)]
pub enum OracleType {
    Stub,
}

/// An oracle whose price is set by hand (for tests).
#[derive(Clone, Copy, PartialEq, Eq, Structural, Debug)]
pub struct StubOracle {
    pub price: Fixed,
    pub last_updated: i64,
}

/// The account discriminator of `StubOracle`: the first eight bytes of the
/// sha256 hash of "account:StubOracle".
pub open spec fn stub_oracle_discriminator_spec() -> Seq<u8> {
    seq![224u8, 251u8, 254u8, 99u8, 177u8, 174u8, 137u8, 4u8]
}

/// The account discriminator of `StubOracle`.
pub fn stub_oracle_discriminator() -> (r: [u8; 8])
    ensures
        r@ == stub_oracle_discriminator_spec(),
{
    let r: [u8; 8] = [224, 251, 254, 99, 177, 174, 137, 4];
    assert(r@ =~= stub_oracle_discriminator_spec());
    r
}

/// The oracle type of an account from the first eight bytes of its data:
/// `Stub` for the stub oracle's discriminator, else `UnknownOracle`.
pub fn determine_oracle_type(data: &[u8]) -> (r: Result<OracleType, InstructionError>)
    requires
        data@.len() >= 8,
    ensures
        r is Ok <==> data@.subrange(0, 8) == stub_oracle_discriminator_spec(),
        r matches Ok(t) ==> t == OracleType::Stub,
        r matches Err(e) ==> e == InstructionError::Mango(MangoError::UnknownOracle),
{
    let disc = stub_oracle_discriminator();
    let mut k: usize = 0;
    while k < 8
        invariant
            k <= 8,
            data@.len() >= 8,
            disc@ == stub_oracle_discriminator_spec(),
            forall|j: int| 0 <= j < k ==> data@[j] == disc@[j],
        decreases 8 - k,
    {
        if data[k] != disc[k] {
            assert(data@.subrange(0, 8)[k as int] != stub_oracle_discriminator_spec()[k as int]);
            return Err(InstructionError::Mango(MangoError::UnknownOracle));
        }
        k = k + 1;
    }
    assert(data@.subrange(0, 8) =~= stub_oracle_discriminator_spec());
    Ok(OracleType::Stub)
}

} // verus!
