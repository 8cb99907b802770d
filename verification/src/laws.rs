//! What holds of the vault's operations taken together, proved from the
//! models that their contracts are stated in.

use vstd::prelude::*;
use crate::address::Address;
use crate::error::ErrorCode;
use crate::ledger::{lemma_set_keeps_others, lemma_set_then_get};
use crate::state::VaultView;

verus! {

/// Depositing an amount and then withdrawing the same amount of the same
/// token restores every balance: that of the token itself and that of every
/// other token. Where the deposit is accepted, so is the withdrawal.
pub proof fn law_deposit_then_withdraw_restores(
    vault: VaultView,
    caller: Address,
    token: Address,
    amount: u64,
)
    requires
        amount > 0,
        vault.deposit_rejection(caller, amount) is None ==> vault.balance_of(token) + amount
            <= u64::MAX,
    ensures
        vault.deposit_rejection(caller, amount) is None ==> vault.after_deposit(
            caller,
            token,
            amount,
        ).withdraw_rejection(caller, token, amount) is None,
        forall|any: Address|
            (#[trigger] vault.after_deposit(caller, token, amount).after_withdraw(
                caller,
                token,
                amount,
            ).balance_of(any)) == vault.balance_of(any),
{
    let deposited = vault.after_deposit(caller, token, amount);
    let restored = deposited.after_withdraw(caller, token, amount);
    if vault.deposit_rejection(caller, amount) is None {
        let raised = (vault.balance_of(token) + amount) as u64;
        lemma_set_then_get(vault.balances, token, raised);
        assert(deposited.balance_of(token) == raised);
        assert(deposited.withdraw_rejection(caller, token, amount) is None);
        let lowered = (deposited.balance_of(token) - amount) as u64;
        lemma_set_then_get(deposited.balances, token, lowered);
        assert forall|any: Address| restored.balance_of(any) == vault.balance_of(any) by {
            if any != token {
                lemma_set_keeps_others(vault.balances, token, raised, any);
                lemma_set_keeps_others(deposited.balances, token, lowered, any);
            }
        }
    } else {
        assert(deposited == vault);
        assert(restored == vault);
    }
}

/// A withdrawal of more than the vault holds of the token is refused and
/// leaves the vault unchanged. Where the investor asks it of an initialized
/// vault, the code is `InsufficientBalance`.
pub proof fn law_overdraw_is_refused(vault: VaultView, caller: Address, token: Address, amount: u64)
    requires
        amount > vault.balance_of(token),
    ensures
        vault.withdraw_rejection(caller, token, amount) is Some,
        vault.after_withdraw(caller, token, amount) == vault,
        caller == vault.investor && vault.is_initialized ==> vault.withdraw_rejection(
            caller,
            token,
            amount,
        ) == Some(ErrorCode::InsufficientBalance),
{
}

/// Nobody but the investor can deposit or withdraw: any other caller is
/// refused with `OnlyInvestor`, whatever the token and the amount, and the
/// vault stays as it was.
pub proof fn law_only_investor_moves_funds(
    vault: VaultView,
    caller: Address,
    token: Address,
    amount: u64,
)
    ensures
        caller != vault.investor ==> {
            &&& vault.deposit_rejection(caller, amount) == Some(ErrorCode::OnlyInvestor)
            &&& vault.withdraw_rejection(caller, token, amount) == Some(ErrorCode::OnlyInvestor)
            &&& vault.after_deposit(caller, token, amount) == vault
            &&& vault.after_withdraw(caller, token, amount) == vault
        },
        vault.deposit_rejection(caller, amount) is None ==> caller == vault.investor,
        vault.withdraw_rejection(caller, token, amount) is None ==> caller == vault.investor,
{
}

/// Nobody but the admin can rotate the bot or the admin: any other caller is
/// refused with `Unauthorized`. Rotating either role to the address that
/// already holds it is refused for every caller, and a refused rotation
/// leaves the vault as it was.
pub proof fn law_only_admin_rotates_roles(vault: VaultView, caller: Address, candidate: Address)
    ensures
        caller != vault.admin ==> {
            &&& vault.bot_rotation_rejection(caller, candidate) == Some(ErrorCode::Unauthorized)
            &&& vault.admin_rotation_rejection(caller, candidate) == Some(ErrorCode::Unauthorized)
            &&& vault.after_set_bot(caller, candidate) == vault
            &&& vault.after_set_admin(caller, candidate) == vault
        },
        vault.bot_rotation_rejection(caller, candidate) is None ==> caller == vault.admin,
        vault.admin_rotation_rejection(caller, candidate) is None ==> caller == vault.admin,
        vault.bot_rotation_rejection(caller, vault.bot) is Some,
        vault.admin_rotation_rejection(caller, vault.admin) is Some,
        vault.after_set_bot(caller, vault.bot) == vault,
        vault.after_set_admin(caller, vault.admin) == vault,
{
}

/// Nobody but the bot can trade: any other caller is refused with `OnlyBot`
/// before the venue's answer is looked at, and the vault stays as it was.
pub proof fn law_only_bot_trades(
    vault: VaultView,
    caller: Address,
    token_in: Address,
    token_out: Address,
    amount_in: u64,
    amount_out_minimum: u64,
    fee_rate: u64,
    swap: Result<u64, ErrorCode>,
)
    ensures
        caller != vault.bot ==> {
            &&& vault.signal_rejection(caller, token_in, amount_in, fee_rate) == Some(
                ErrorCode::OnlyBot,
            )
            &&& vault.trade_rejection(
                caller,
                token_in,
                amount_in,
                amount_out_minimum,
                fee_rate,
                swap,
            ) == Some(ErrorCode::OnlyBot)
            &&& vault.after_trade(
                caller,
                token_in,
                token_out,
                amount_in,
                amount_out_minimum,
                fee_rate,
                swap,
            ) == vault
        },
        vault.trade_rejection(caller, token_in, amount_in, amount_out_minimum, fee_rate, swap)
            is None ==> caller == vault.bot,
{
}

/// A trade for which the venue pays out less than the minimum is refused
/// and leaves the vault, the input token's balance included, exactly as it
/// was. Where the signal itself was in order, the code is
/// `InsufficientOutputAmount`.
pub proof fn law_slippage_leaves_vault_unchanged(
    vault: VaultView,
    caller: Address,
    token_in: Address,
    token_out: Address,
    amount_in: u64,
    amount_out_minimum: u64,
    fee_rate: u64,
    amount_out: u64,
)
    requires
        amount_out < amount_out_minimum,
    ensures
        vault.trade_rejection(
            caller,
            token_in,
            amount_in,
            amount_out_minimum,
            fee_rate,
            Ok(amount_out),
        ) is Some,
        vault.after_trade(
            caller,
            token_in,
            token_out,
            amount_in,
            amount_out_minimum,
            fee_rate,
            Ok(amount_out),
        ) == vault,
        vault.signal_rejection(caller, token_in, amount_in, fee_rate) is None
            ==> vault.trade_rejection(
            caller,
            token_in,
            amount_in,
            amount_out_minimum,
            fee_rate,
            Ok(amount_out),
        ) == Some(ErrorCode::InsufficientOutputAmount),
{
}

} // verus!
