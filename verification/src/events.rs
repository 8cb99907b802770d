//! The records that successful operations hand back for their host to
//! publish, and the timestamp they carry.

use vstd::prelude::*;
use crate::address::Address;

verus! {

/// Largest clock reading, in seconds, whose microsecond count fits in `u64`.
pub const MAX_UNIX_SECONDS: i64 = 18_446_744_073_709;

/// A vault was created for `user`.
#[derive(Clone, Copy, Debug, PartialEq, Eq)]
pub struct BalanceManagerCreatedEvent {
    pub user: Address,
    pub timestamp_microseconds: u64,
}

/// The admin replaced the vault's bot.
#[derive(Clone, Copy, Debug, PartialEq, Eq)]
pub struct BotUpdatedEvent {
    pub user: Address,
    pub old_bot_address: Address,
    pub new_bot_address: Address,
    pub timestamp_microseconds: u64,
}

/// The admin handed the admin role on.
#[derive(Clone, Copy, Debug, PartialEq, Eq)]
pub struct AdminUpdatedEvent {
    pub user: Address,
    pub old_admin: Address,
    pub new_admin: Address,
    pub timestamp_microseconds: u64,
}

/// The investor deposited `amount` of `asset_metadata`.
#[derive(Clone, Copy, Debug, PartialEq, Eq)]
pub struct UserDepositEvent {
    pub user: Address,
    pub asset_metadata: Address,
    pub amount: u64,
    pub timestamp_microseconds: u64,
}

/// The investor withdrew `amount` of `asset_metadata`.
#[derive(Clone, Copy, Debug, PartialEq, Eq)]
pub struct UserWithdrawEvent {
    pub user: Address,
    pub asset_metadata: Address,
    pub amount: u64,
    pub timestamp_microseconds: u64,
}

/// The bot swapped `amount_in` of one token for `amount_out` of another, of
/// which `fee_amount` is owed to `fee_recipient`.
#[derive(Clone, Copy, Debug, PartialEq, Eq)]
pub struct TradeSignalEvent {
    pub user: Address,
    pub from_asset_metadata: Address,
    pub to_asset_metadata: Address,
    pub amount_in: u64,
    pub amount_out_min: u64,
    pub amount_out: u64,
    pub fee_recipient: Address,
    pub fee_amount: u64,
    pub timestamp_microseconds: u64,
}

/// A clock reading in whole seconds since the Unix epoch, as the microseconds
/// that events carry.
pub fn timestamp_microseconds(unix_timestamp: i64) -> (microseconds: u64)
    requires
        0 <= unix_timestamp <= MAX_UNIX_SECONDS,
    ensures
        microseconds == unix_timestamp * 1_000_000,
{
    (unix_timestamp as u64) * 1_000_000
}

} // verus!
