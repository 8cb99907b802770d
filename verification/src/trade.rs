//! The swap protocol: the bot trades one of the vault's holdings for another
//! token on an external venue, within the vault's balance and never below
//! the minimum it asked for.
//!
//! The venue is not part of this library. Its host checks the signal with
//! `authorize_trade`, calls the venue, and hands the venue's answer to
//! `send_trade_signal`, which settles the whole trade or changes nothing.

use vstd::prelude::*;
use crate::address::Address;
use crate::error::ErrorCode;
use crate::events::TradeSignalEvent;
use crate::ledger::{get_token_balance, set_token_balance};
use crate::state::{PersonalVault, VaultView};

verus! {

/// The fee rate that takes everything: fees are stated in parts per million.
pub const FEE_RATE_DENOMINATOR: u64 = 1_000_000;

/// The fee on `amount_out` at `fee_rate` parts per million, rounded down.
pub open spec fn fee_of(amount_out: u64, fee_rate: u64) -> u64 {
    (amount_out * fee_rate / 1_000_000) as u64
}

/// What a trade credits to the vault: the venue's payout less the fee.
pub open spec fn user_amount_of(amount_out: u64, fee_rate: u64) -> u64 {
    (amount_out - fee_of(amount_out, fee_rate)) as u64
}

/// A fee that the host is to pay out of a trade's proceeds.
#[derive(Clone, Copy, Debug, PartialEq, Eq)]
pub struct FeePayout {
    pub recipient: Address,
    pub amount: u64,
}

/// The payout that a trade owes: its fee, to its recipient, where the fee is
/// positive and a recipient is named.
pub open spec fn fee_payout_of(fee_recipient: Address, fee_amount: u64) -> Option<FeePayout> {
    if fee_amount > 0 && !fee_recipient.is_null() {
        Some(FeePayout { recipient: fee_recipient, amount: fee_amount })
    } else {
        None
    }
}

/// What a settled trade hands back.
#[derive(Clone, Copy, Debug, PartialEq, Eq)]
pub struct TradeReceipt {
    /// What the venue paid out.
    pub amount_out: u64,
    /// The fee transfer that the host is to make, if one is owed.
    pub fee_payout: Option<FeePayout>,
    /// The record of the trade.
    pub event: TradeSignalEvent,
}

/// Why the venue's answer cannot be settled, if it cannot: the venue failed,
/// and its code is passed on, or it paid out less than the minimum.
pub open spec fn settlement_rejection(
    swap: Result<u64, ErrorCode>,
    amount_out_minimum: u64,
) -> Option<ErrorCode> {
    match swap {
        Err(code) => Some(code),
        Ok(amount_out) => if amount_out < amount_out_minimum {
            Some(ErrorCode::InsufficientOutputAmount)
        } else {
            None
        },
    }
}

impl VaultView {
    /// Why `caller` may not have `amount_in` of `token_in` traded at
    /// `fee_rate`, if it may not. Decided before the venue is called.
    pub open spec fn signal_rejection(
        self,
        caller: Address,
        token_in: Address,
        amount_in: u64,
        fee_rate: u64,
    ) -> Option<ErrorCode> {
        if caller != self.bot {
            Some(ErrorCode::OnlyBot)
        } else if amount_in == 0 {
            Some(ErrorCode::InvalidAmount)
        } else if fee_rate > 1_000_000 {
            Some(ErrorCode::InvalidFeeRate)
        } else if !self.is_initialized {
            Some(ErrorCode::VaultNotInitialized)
        } else if self.balance_of(token_in) < amount_in {
            Some(ErrorCode::InsufficientBalance)
        } else {
            None
        }
    }

    /// Why a trade is refused, if it is: the signal's own rejection comes
    /// first, then what the venue's answer gives rise to.
    pub open spec fn trade_rejection(
        self,
        caller: Address,
        token_in: Address,
        amount_in: u64,
        amount_out_minimum: u64,
        fee_rate: u64,
        swap: Result<u64, ErrorCode>,
    ) -> Option<ErrorCode> {
        if self.signal_rejection(caller, token_in, amount_in, fee_rate) is Some {
            self.signal_rejection(caller, token_in, amount_in, fee_rate)
        } else {
            settlement_rejection(swap, amount_out_minimum)
        }
    }

    /// The vault after a settled trade: `amount_in` has left the balance of
    /// `token_in`, and the venue's payout less the fee has been added to the
    /// balance of `token_out`.
    pub open spec fn traded(
        self,
        token_in: Address,
        token_out: Address,
        amount_in: u64,
        amount_out: u64,
        fee_rate: u64,
    ) -> VaultView {
        self.debited(token_in, amount_in).credited(
            token_out,
            user_amount_of(amount_out, fee_rate),
        )
    }

    /// The vault after `caller` has signalled a trade and the venue has
    /// answered `swap`.
    pub open spec fn after_trade(
        self,
        caller: Address,
        token_in: Address,
        token_out: Address,
        amount_in: u64,
        amount_out_minimum: u64,
        fee_rate: u64,
        swap: Result<u64, ErrorCode>,
    ) -> VaultView {
        if self.trade_rejection(caller, token_in, amount_in, amount_out_minimum, fee_rate, swap)
            is None {
            self.traded(token_in, token_out, amount_in, swap->Ok_0, fee_rate)
        } else {
            self
        }
    }
}

/// For every payout and every fee rate of at most 1,000,000 parts per
/// million, the fee is the floor of `amount_out * fee_rate / 1_000_000`, it
/// never exceeds the payout, and the fee and what the vault is credited add
/// up to the payout exactly.
pub proof fn lemma_fee_split_exact(amount_out: u64, fee_rate: u64)
    requires
        fee_rate <= 1_000_000,
    ensures
        amount_out * fee_rate / 1_000_000 <= amount_out,
        fee_of(amount_out, fee_rate) == amount_out * fee_rate / 1_000_000,
        fee_of(amount_out, fee_rate) + user_amount_of(amount_out, fee_rate) == amount_out,
{
    assert(amount_out * fee_rate / 1_000_000 <= amount_out) by (nonlinear_arith)
        requires
            fee_rate <= 1_000_000,
            0 <= amount_out,
    ;
    assert(0 <= amount_out * fee_rate / 1_000_000) by (nonlinear_arith)
        requires
            0 <= fee_rate,
            0 <= amount_out,
    ;
}

/// Splits the venue's payout into the fee and what is left for the vault.
/// The fee is rounded down, so the two parts add up to the payout exactly.
pub fn split_fee(amount_out: u64, fee_rate: u64) -> (parts: (u64, u64))
    requires
        fee_rate <= FEE_RATE_DENOMINATOR,
    ensures
        parts.0 == fee_of(amount_out, fee_rate),
        parts.1 == user_amount_of(amount_out, fee_rate),
        parts.0 == amount_out * fee_rate / 1_000_000,
        parts.0 + parts.1 == amount_out,
{
    proof {
        lemma_fee_split_exact(amount_out, fee_rate);
        assert(amount_out * fee_rate <= u64::MAX * 1_000_000) by (nonlinear_arith)
            requires
                fee_rate <= 1_000_000,
                amount_out <= u64::MAX,
        ;
    }
    let product: u128 = (amount_out as u128) * (fee_rate as u128);
    let fee_amount: u64 = (product / 1_000_000) as u64;
    let user_amount: u64 = amount_out - fee_amount;
    (fee_amount, user_amount)
}

/// Decides whether `caller` may have `amount_in` of `token_in` traded at
/// `fee_rate`: the caller must be the bot, the amount positive, the fee rate
/// at most 1,000,000, the vault initialized, and the balance sufficient.
/// Changes nothing; the host asks this before it calls the venue.
pub fn authorize_trade(
    vault: &PersonalVault,
    caller: Address,
    token_in: Address,
    amount_in: u64,
    fee_rate: u64,
) -> (result: Result<(), ErrorCode>)
    ensures
        match result {
            Ok(_) => vault@.signal_rejection(caller, token_in, amount_in, fee_rate) is None,
            Err(code) => vault@.signal_rejection(caller, token_in, amount_in, fee_rate) == Some(
                code,
            ),
        },
{
    if !vault.is_bot(&caller) {
        return Err(ErrorCode::OnlyBot);
    }
    if amount_in == 0 {
        return Err(ErrorCode::InvalidAmount);
    }
    if fee_rate > FEE_RATE_DENOMINATOR {
        return Err(ErrorCode::InvalidFeeRate);
    }
    if !vault.is_initialized {
        return Err(ErrorCode::VaultNotInitialized);
    }
    let current_balance = get_token_balance(vault, token_in);
    if current_balance < amount_in {
        return Err(ErrorCode::InsufficientBalance);
    }
    Ok(())
}

/// Carries out the bot's trade of `amount_in` of `token_in` for `token_out`,
/// given the venue's answer `swap`: what it paid out, or the code it failed
/// with.
///
/// The trade is refused where the signal is (see `authorize_trade`), where
/// the venue failed, and where it paid out less than `amount_out_minimum`.
/// A refused trade leaves the vault as it was. A settled trade takes
/// `amount_in` from the balance of `token_in` and adds the payout less the
/// fee to the balance of `token_out`.
///
/// A trade that is not refused must leave the credited balance within `u64`.
pub fn send_trade_signal(
    vault: &mut PersonalVault,
    caller: Address,
    fee_recipient: Address,
    token_in: Address,
    token_out: Address,
    amount_in: u64,
    amount_out_minimum: u64,
    fee_rate: u64,
    swap: Result<u64, ErrorCode>,
    timestamp_microseconds: u64,
) -> (result: Result<TradeReceipt, ErrorCode>)
    requires
        old(vault)@.trade_rejection(
            caller,
            token_in,
            amount_in,
            amount_out_minimum,
            fee_rate,
            swap,
        ) is None ==> old(vault)@.debited(token_in, amount_in).balance_of(token_out)
            + user_amount_of(swap->Ok_0, fee_rate) <= u64::MAX,
    ensures
        match result {
            Ok(receipt) => {
                &&& old(vault)@.trade_rejection(
                    caller,
                    token_in,
                    amount_in,
                    amount_out_minimum,
                    fee_rate,
                    swap,
                ) is None
                &&& swap == Ok::<u64, ErrorCode>(receipt.amount_out)
                &&& final(vault)@ == old(vault)@.traded(
                    token_in,
                    token_out,
                    amount_in,
                    receipt.amount_out,
                    fee_rate,
                )
                &&& token_out != token_in ==> {
                    &&& final(vault)@.balance_of(token_in) == old(vault)@.balance_of(token_in)
                        - amount_in
                    &&& final(vault)@.balance_of(token_out) == old(vault)@.balance_of(token_out)
                        + user_amount_of(receipt.amount_out, fee_rate)
                }
                &&& token_out == token_in ==> final(vault)@.balance_of(token_in)
                    == old(vault)@.balance_of(token_in) - amount_in
                    + user_amount_of(receipt.amount_out, fee_rate)
                &&& forall|other: Address|
                    other != token_in && other != token_out
                        ==> #[trigger] final(vault)@.balance_of(other)
                        == old(vault)@.balance_of(other)
                &&& receipt.fee_payout == fee_payout_of(
                    fee_recipient,
                    fee_of(receipt.amount_out, fee_rate),
                )
                &&& receipt.event == (TradeSignalEvent {
                    user: caller,
                    from_asset_metadata: token_in,
                    to_asset_metadata: token_out,
                    amount_in,
                    amount_out_min: amount_out_minimum,
                    amount_out: receipt.amount_out,
                    fee_recipient,
                    fee_amount: fee_of(receipt.amount_out, fee_rate),
                    timestamp_microseconds,
                })
            },
            Err(code) => {
                &&& old(vault)@.trade_rejection(
                    caller,
                    token_in,
                    amount_in,
                    amount_out_minimum,
                    fee_rate,
                    swap,
                ) == Some(code)
                &&& final(vault)@ == old(vault)@
            },
        },
        final(vault)@ == old(vault)@.after_trade(
            caller,
            token_in,
            token_out,
            amount_in,
            amount_out_minimum,
            fee_rate,
            swap,
        ),
        old(vault)@.wf() ==> final(vault)@.wf(),
{
    match authorize_trade(vault, caller, token_in, amount_in, fee_rate) {
        Err(code) => {
            return Err(code);
        },
        Ok(_) => {},
    }
    let amount_out = match swap {
        Err(code) => {
            return Err(code);
        },
        Ok(amount_out) => amount_out,
    };
    if amount_out < amount_out_minimum {
        return Err(ErrorCode::InsufficientOutputAmount);
    }
    let (fee_amount, user_amount) = split_fee(amount_out, fee_rate);

    let current_balance = get_token_balance(vault, token_in);
    set_token_balance(vault, token_in, current_balance - amount_in);
    let current_out_balance = get_token_balance(vault, token_out);
    set_token_balance(vault, token_out, current_out_balance + user_amount);

    let fee_payout = if fee_amount > 0 && !fee_recipient.is_null() {
        Some(FeePayout { recipient: fee_recipient, amount: fee_amount })
    } else {
        None
    };
    let event = TradeSignalEvent {
        user: caller,
        from_asset_metadata: token_in,
        to_asset_metadata: token_out,
        amount_in,
        amount_out_min: amount_out_minimum,
        amount_out,
        fee_recipient,
        fee_amount,
        timestamp_microseconds,
    };
    Ok(TradeReceipt { amount_out, fee_payout, event })
}

} // verus!
