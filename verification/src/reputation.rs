//! Per-identity reputation counters.

use crate::errors::ErrorCode;
use crate::identity::same_key;
use anchor_lang::prelude::Pubkey;
use vstd::prelude::*;

verus! {

/// The counters kept for one identity. A record is created once and never
/// deleted; every later operation of its owner updates it.
#[derive(Clone, Copy, Debug, PartialEq, Eq)]
pub struct UserReputation {
    pub wallet: Pubkey,
    pub contracts_created: u32,
    pub contracts_completed: u32,
    pub contracts_approved: u32,
    pub total_value_escrowed: u64,
    pub first_activity: i64,
    pub last_activity: i64,
    pub bump: u8,
}

/// What an identity did, as far as its reputation record is concerned.
#[derive(Clone, Copy, Debug, PartialEq, Eq)]
pub enum Activity {
    /// Created a contract.
    ContractCreated,
    /// Took part in a contract that completed.
    ContractCompleted,
    /// Approved a contract.
    ContractApproved,
    /// Put the given amount into escrow.
    ValueEscrowed(u64),
    /// Acted without moving any counter.
    Touched,
}

/// The records an `initialize_reputation` call works on.
#[derive(Clone, Copy, Debug, PartialEq, Eq)]
pub struct InitializeReputation {
    /// What the ledger holds under the user's reputation key.
    pub reputation: Option<UserReputation>,
    /// The identity asking for a record, authenticated by the caller.
    pub user: Pubkey,
}

impl UserReputation {
    /// The record's last activity is not before its first.
    pub open spec fn wf(self) -> bool {
        self.first_activity <= self.last_activity
    }

    /// No counter of `self` is below the same counter of `earlier`.
    pub open spec fn counters_at_least(self, earlier: UserReputation) -> bool {
        &&& self.contracts_created >= earlier.contracts_created
        &&& self.contracts_completed >= earlier.contracts_completed
        &&& self.contracts_approved >= earlier.contracts_approved
        &&& self.total_value_escrowed >= earlier.total_value_escrowed
    }

    /// The record a first `initialize_reputation` creates.
    pub open spec fn fresh(wallet: Pubkey, now: i64, bump: u8) -> UserReputation {
        UserReputation {
            wallet,
            contracts_created: 0,
            contracts_completed: 0,
            contracts_approved: 0,
            total_value_escrowed: 0,
            first_activity: now,
            last_activity: now,
            bump,
        }
    }

    /// Whether `activity` would push a counter of `self` out of range.
    pub open spec fn overflows(self, activity: Activity) -> bool {
        match activity {
            Activity::ContractCreated => self.contracts_created == u32::MAX,
            Activity::ContractCompleted => self.contracts_completed == u32::MAX,
            Activity::ContractApproved => self.contracts_approved == u32::MAX,
            Activity::ValueEscrowed(amount) => self.total_value_escrowed + amount > u64::MAX,
            Activity::Touched => false,
        }
    }

    /// `self` after `activity` at time `now`: the counter the activity names
    /// moves, the last activity time becomes `now`, the rest stays.
    pub open spec fn after(self, activity: Activity, now: i64) -> UserReputation {
        let touched = UserReputation { last_activity: now, ..self };
        match activity {
            Activity::ContractCreated => UserReputation {
                contracts_created: (self.contracts_created + 1) as u32,
                ..touched
            },
            Activity::ContractCompleted => UserReputation {
                contracts_completed: (self.contracts_completed + 1) as u32,
                ..touched
            },
            Activity::ContractApproved => UserReputation {
                contracts_approved: (self.contracts_approved + 1) as u32,
                ..touched
            },
            Activity::ValueEscrowed(amount) => UserReputation {
                total_value_escrowed: (self.total_value_escrowed + amount) as u64,
                ..touched
            },
            Activity::Touched => touched,
        }
    }
}

/// What `record_activity` returns: the updated record of `identity`, or why
/// there is none. A slot that is empty, or that holds another identity's
/// record, holds no record for `identity`.
pub open spec fn record_activity_outcome(
    slot: Option<UserReputation>,
    identity: Pubkey,
    activity: Activity,
    now: i64,
) -> Result<UserReputation, ErrorCode> {
    match slot {
        None => Err(ErrorCode::NotInitialized),
        Some(record) => if record.wallet != identity {
            Err(ErrorCode::NotInitialized)
        } else if record.overflows(activity) {
            Err(ErrorCode::ArithmeticOverflow)
        } else {
            Ok(record.after(activity, now))
        },
    }
}

/// Books `activity` of `identity` at time `now` against the record in `slot`.
///
/// This is the bookkeeping step of the contract and escrow operations; it is
/// not an operation that a user of the ledger submits.
pub fn record_activity(
    slot: Option<UserReputation>,
    identity: Pubkey,
    activity: Activity,
    now: i64,
) -> (r: Result<UserReputation, ErrorCode>)
    ensures
        r == record_activity_outcome(slot, identity, activity, now),
{
    let record = match slot {
        None => { return Err(ErrorCode::NotInitialized); },
        Some(record) => record,
    };
    if !same_key(&record.wallet, &identity) {
        return Err(ErrorCode::NotInitialized);
    }
    let mut updated = record;
    match activity {
        Activity::ContractCreated => {
            if record.contracts_created == u32::MAX {
                return Err(ErrorCode::ArithmeticOverflow);
            }
            updated.contracts_created = record.contracts_created + 1;
        },
        Activity::ContractCompleted => {
            if record.contracts_completed == u32::MAX {
                return Err(ErrorCode::ArithmeticOverflow);
            }
            updated.contracts_completed = record.contracts_completed + 1;
        },
        Activity::ContractApproved => {
            if record.contracts_approved == u32::MAX {
                return Err(ErrorCode::ArithmeticOverflow);
            }
            updated.contracts_approved = record.contracts_approved + 1;
        },
        Activity::ValueEscrowed(amount) => {
            if amount > u64::MAX - record.total_value_escrowed {
                return Err(ErrorCode::ArithmeticOverflow);
            }
            updated.total_value_escrowed = record.total_value_escrowed + amount;
        },
        Activity::Touched => {},
    }
    updated.last_activity = now;
    Ok(updated)
}

/// What `initialize_reputation` leaves under the user's key, or why it
/// refuses.
pub open spec fn initialize_reputation_outcome(
    ctx: InitializeReputation,
    now: i64,
    bump: u8,
) -> Result<UserReputation, ErrorCode> {
    if ctx.reputation is Some {
        Err(ErrorCode::AlreadyExists)
    } else {
        Ok(UserReputation::fresh(ctx.user, now, bump))
    }
}

/// Creates the reputation record of `ctx.user`, all counters at zero and both
/// activity times at `now`. Refused with `AlreadyExists` when the user has a
/// record.
pub fn initialize_reputation(ctx: &mut InitializeReputation, now: i64, bump: u8) -> (r: Result<
    (),
    ErrorCode,
>)
    ensures
        final(ctx).user == old(ctx).user,
        match initialize_reputation_outcome(*old(ctx), now, bump) {
            Ok(record) => r is Ok && final(ctx).reputation == Some(record),
            Err(e) => r == Err::<(), ErrorCode>(e) && *final(ctx) == *old(ctx),
        },
{
    if ctx.reputation.is_some() {
        return Err(ErrorCode::AlreadyExists);
    }
    ctx.reputation = Some(
        UserReputation {
            wallet: ctx.user,
            contracts_created: 0,
            contracts_completed: 0,
            contracts_approved: 0,
            total_value_escrowed: 0,
            first_activity: now,
            last_activity: now,
            bump,
        },
    );
    Ok(())
}

} // verus!
