//! The vault's lifecycle and the investor's operations: creation, role
//! rotation, deposit, withdrawal and balance queries.
//!
//! Every operation first decides whether it is refused, and with which code;
//! only an operation that is not refused touches the vault.

use vstd::prelude::*;
use crate::address::Address;
use crate::error::ErrorCode;
use crate::events::{
    AdminUpdatedEvent, BalanceManagerCreatedEvent, BotUpdatedEvent, UserDepositEvent,
    UserWithdrawEvent,
};
use crate::ledger::{get_token_balance, set_token_balance};
use crate::state::{PersonalVault, TokenBalance, VaultView};

verus! {

/// Why a vault cannot be created with this configuration, if it cannot: the
/// bot, the swap router and the wrapped native token must each be named.
pub open spec fn creation_rejection(
    bot_address: Address,
    swap_router: Address,
    wrapped_native: Address,
) -> Option<ErrorCode> {
    if bot_address.is_null() {
        Some(ErrorCode::InvalidBotAddress)
    } else if swap_router.is_null() {
        Some(ErrorCode::InvalidSwapRouter)
    } else if wrapped_native.is_null() {
        Some(ErrorCode::InvalidWrappedNative)
    } else {
        None
    }
}

/// The vault that creation yields: `user` is investor and admin, the
/// configuration is stored, and the ledger is empty.
pub open spec fn created_vault(
    user: Address,
    bot_address: Address,
    swap_router: Address,
    wrapped_native: Address,
) -> VaultView {
    VaultView {
        investor: user,
        admin: user,
        bot: bot_address,
        swap_router,
        wrapped_native,
        is_initialized: true,
        balances: Seq::empty(),
    }
}

impl VaultView {
    /// Why `caller` may not replace the bot by `new_bot`, if it may not.
    pub open spec fn bot_rotation_rejection(self, caller: Address, new_bot: Address) -> Option<
        ErrorCode,
    > {
        if caller != self.admin {
            Some(ErrorCode::Unauthorized)
        } else if new_bot.is_null() {
            Some(ErrorCode::InvalidBotAddress)
        } else if !self.is_initialized {
            Some(ErrorCode::VaultNotInitialized)
        } else if new_bot == self.bot {
            Some(ErrorCode::SameBotAddress)
        } else {
            None
        }
    }

    /// Why `caller` may not hand the admin role to `new_admin`, if it may not.
    pub open spec fn admin_rotation_rejection(self, caller: Address, new_admin: Address) -> Option<
        ErrorCode,
    > {
        if caller != self.admin {
            Some(ErrorCode::Unauthorized)
        } else if new_admin.is_null() {
            Some(ErrorCode::InvalidAdminAddress)
        } else if !self.is_initialized {
            Some(ErrorCode::VaultNotInitialized)
        } else if new_admin == self.admin {
            Some(ErrorCode::SameAdminAddress)
        } else {
            None
        }
    }

    /// Why `caller` may not deposit `amount`, if it may not.
    pub open spec fn deposit_rejection(self, caller: Address, amount: u64) -> Option<ErrorCode> {
        if caller != self.investor {
            Some(ErrorCode::OnlyInvestor)
        } else if amount == 0 {
            Some(ErrorCode::InvalidAmount)
        } else if !self.is_initialized {
            Some(ErrorCode::VaultNotInitialized)
        } else {
            None
        }
    }

    /// Why `caller` may not withdraw `amount` of `token`, if it may not.
    pub open spec fn withdraw_rejection(self, caller: Address, token: Address, amount: u64) -> Option<
        ErrorCode,
    > {
        if caller != self.investor {
            Some(ErrorCode::OnlyInvestor)
        } else if amount == 0 {
            Some(ErrorCode::InvalidAmount)
        } else if !self.is_initialized {
            Some(ErrorCode::VaultNotInitialized)
        } else if self.balance_of(token) < amount {
            Some(ErrorCode::InsufficientBalance)
        } else {
            None
        }
    }

    /// The vault after `amount` of `token` has been added to its balance.
    pub open spec fn credited(self, token: Address, amount: u64) -> VaultView {
        self.with_balance(token, (self.balance_of(token) + amount) as u64)
    }

    /// The vault after `amount` of `token` has been taken from its balance.
    pub open spec fn debited(self, token: Address, amount: u64) -> VaultView {
        self.with_balance(token, (self.balance_of(token) - amount) as u64)
    }

    /// The vault after `caller` has asked to replace the bot by `new_bot`.
    pub open spec fn after_set_bot(self, caller: Address, new_bot: Address) -> VaultView {
        if self.bot_rotation_rejection(caller, new_bot) is None {
            VaultView { bot: new_bot, ..self }
        } else {
            self
        }
    }

    /// The vault after `caller` has asked to hand the admin role to
    /// `new_admin`.
    pub open spec fn after_set_admin(self, caller: Address, new_admin: Address) -> VaultView {
        if self.admin_rotation_rejection(caller, new_admin) is None {
            VaultView { admin: new_admin, ..self }
        } else {
            self
        }
    }

    /// The vault after `caller` has asked to deposit `amount` of `token`.
    pub open spec fn after_deposit(self, caller: Address, token: Address, amount: u64) -> VaultView {
        if self.deposit_rejection(caller, amount) is None {
            self.credited(token, amount)
        } else {
            self
        }
    }

    /// The vault after `caller` has asked to withdraw `amount` of `token`.
    pub open spec fn after_withdraw(self, caller: Address, token: Address, amount: u64) -> VaultView {
        if self.withdraw_rejection(caller, token, amount) is None {
            self.debited(token, amount)
        } else {
            self
        }
    }
}

impl PersonalVault {
    /// Whether `caller` is the vault's investor.
    pub fn is_investor(&self, caller: &Address) -> (accepted: bool)
        ensures
            accepted == (*caller == self.investor),
    {
        *caller == self.investor
    }

    /// Whether `caller` is the vault's admin.
    pub fn is_admin(&self, caller: &Address) -> (accepted: bool)
        ensures
            accepted == (*caller == self.admin),
    {
        *caller == self.admin
    }

    /// Whether `caller` is the vault's bot.
    pub fn is_bot(&self, caller: &Address) -> (accepted: bool)
        ensures
            accepted == (*caller == self.bot),
    {
        *caller == self.bot
    }
}

/// Creates the vault of `user`, who becomes its investor and its admin.
/// Refused where the bot, the swap router or the wrapped native token is the
/// null address.
pub fn create_balance_manager(
    user: Address,
    bot_address: Address,
    swap_router: Address,
    wrapped_native: Address,
    timestamp_microseconds: u64,
) -> (result: Result<(PersonalVault, BalanceManagerCreatedEvent), ErrorCode>)
    ensures
        match result {
            Ok((vault, event)) => {
                &&& creation_rejection(bot_address, swap_router, wrapped_native) is None
                &&& vault@ == created_vault(user, bot_address, swap_router, wrapped_native)
                &&& vault@.wf()
                &&& event == (BalanceManagerCreatedEvent { user, timestamp_microseconds })
            },
            Err(code) => creation_rejection(bot_address, swap_router, wrapped_native) == Some(
                code,
            ),
        },
{
    if bot_address.is_null() {
        return Err(ErrorCode::InvalidBotAddress);
    }
    if swap_router.is_null() {
        return Err(ErrorCode::InvalidSwapRouter);
    }
    if wrapped_native.is_null() {
        return Err(ErrorCode::InvalidWrappedNative);
    }
    let balances: Vec<TokenBalance> = Vec::new();
    let vault = PersonalVault {
        investor: user,
        admin: user,
        bot: bot_address,
        swap_router,
        wrapped_native,
        is_initialized: true,
        balances,
    };
    Ok((vault, BalanceManagerCreatedEvent { user, timestamp_microseconds }))
}

/// Replaces the vault's bot. Only the admin may do so, and only by an
/// address that is neither null nor the bot already in place.
pub fn set_bot(
    vault: &mut PersonalVault,
    caller: Address,
    new_bot_address: Address,
    timestamp_microseconds: u64,
) -> (result: Result<BotUpdatedEvent, ErrorCode>)
    ensures
        match result {
            Ok(event) => {
                &&& old(vault)@.bot_rotation_rejection(caller, new_bot_address) is None
                &&& final(vault)@ == (VaultView { bot: new_bot_address, ..old(vault)@ })
                &&& event == (BotUpdatedEvent {
                    user: caller,
                    old_bot_address: old(vault).bot,
                    new_bot_address,
                    timestamp_microseconds,
                })
            },
            Err(code) => {
                &&& old(vault)@.bot_rotation_rejection(caller, new_bot_address) == Some(code)
                &&& final(vault)@ == old(vault)@
            },
        },
        final(vault)@ == old(vault)@.after_set_bot(caller, new_bot_address),
        old(vault)@.wf() ==> final(vault)@.wf(),
{
    if !vault.is_admin(&caller) {
        return Err(ErrorCode::Unauthorized);
    }
    if new_bot_address.is_null() {
        return Err(ErrorCode::InvalidBotAddress);
    }
    if !vault.is_initialized {
        return Err(ErrorCode::VaultNotInitialized);
    }
    let old_bot_address = vault.bot;
    if new_bot_address == old_bot_address {
        return Err(ErrorCode::SameBotAddress);
    }
    vault.bot = new_bot_address;
    Ok(BotUpdatedEvent { user: caller, old_bot_address, new_bot_address, timestamp_microseconds })
}

/// Hands the admin role on. Only the admin may do so, and only to an address
/// that is neither null nor its own.
pub fn set_admin(
    vault: &mut PersonalVault,
    caller: Address,
    new_admin: Address,
    timestamp_microseconds: u64,
) -> (result: Result<AdminUpdatedEvent, ErrorCode>)
    ensures
        match result {
            Ok(event) => {
                &&& old(vault)@.admin_rotation_rejection(caller, new_admin) is None
                &&& final(vault)@ == (VaultView { admin: new_admin, ..old(vault)@ })
                &&& event == (AdminUpdatedEvent {
                    user: caller,
                    old_admin: old(vault).admin,
                    new_admin,
                    timestamp_microseconds,
                })
            },
            Err(code) => {
                &&& old(vault)@.admin_rotation_rejection(caller, new_admin) == Some(code)
                &&& final(vault)@ == old(vault)@
            },
        },
        final(vault)@ == old(vault)@.after_set_admin(caller, new_admin),
        old(vault)@.wf() ==> final(vault)@.wf(),
{
    if !vault.is_admin(&caller) {
        return Err(ErrorCode::Unauthorized);
    }
    if new_admin.is_null() {
        return Err(ErrorCode::InvalidAdminAddress);
    }
    if !vault.is_initialized {
        return Err(ErrorCode::VaultNotInitialized);
    }
    let old_admin = vault.admin;
    if new_admin == old_admin {
        return Err(ErrorCode::SameAdminAddress);
    }
    vault.admin = new_admin;
    Ok(AdminUpdatedEvent { user: caller, old_admin, new_admin, timestamp_microseconds })
}

/// Adds `amount` of `token` to the vault's balance. Only the investor may
/// deposit, the amount must be positive, and the vault must be initialized.
///
/// A deposit that is not refused must leave the balance within `u64`.
pub fn user_deposit(
    vault: &mut PersonalVault,
    caller: Address,
    token: Address,
    amount: u64,
    timestamp_microseconds: u64,
) -> (result: Result<UserDepositEvent, ErrorCode>)
    requires
        old(vault)@.deposit_rejection(caller, amount) is None ==> old(vault)@.balance_of(token)
            + amount <= u64::MAX,
    ensures
        match result {
            Ok(event) => {
                &&& old(vault)@.deposit_rejection(caller, amount) is None
                &&& final(vault)@ == old(vault)@.credited(token, amount)
                &&& final(vault)@.balance_of(token) == old(vault)@.balance_of(token) + amount
                &&& forall|other: Address|
                    other != token ==> #[trigger] final(vault)@.balance_of(other)
                        == old(vault)@.balance_of(other)
                &&& event == (UserDepositEvent {
                    user: caller,
                    asset_metadata: token,
                    amount,
                    timestamp_microseconds,
                })
            },
            Err(code) => {
                &&& old(vault)@.deposit_rejection(caller, amount) == Some(code)
                &&& final(vault)@ == old(vault)@
            },
        },
        final(vault)@ == old(vault)@.after_deposit(caller, token, amount),
        old(vault)@.wf() ==> final(vault)@.wf(),
{
    if !vault.is_investor(&caller) {
        return Err(ErrorCode::OnlyInvestor);
    }
    if amount == 0 {
        return Err(ErrorCode::InvalidAmount);
    }
    if !vault.is_initialized {
        return Err(ErrorCode::VaultNotInitialized);
    }
    let current_balance = get_token_balance(vault, token);
    set_token_balance(vault, token, current_balance + amount);
    Ok(UserDepositEvent { user: caller, asset_metadata: token, amount, timestamp_microseconds })
}

/// Takes `amount` of `token` from the vault's balance. Only the investor may
/// withdraw, the amount must be positive, the vault must be initialized, and
/// the balance must cover the amount.
pub fn user_withdraw(
    vault: &mut PersonalVault,
    caller: Address,
    token: Address,
    amount: u64,
    timestamp_microseconds: u64,
) -> (result: Result<UserWithdrawEvent, ErrorCode>)
    ensures
        match result {
            Ok(event) => {
                &&& old(vault)@.withdraw_rejection(caller, token, amount) is None
                &&& final(vault)@ == old(vault)@.debited(token, amount)
                &&& final(vault)@.balance_of(token) == old(vault)@.balance_of(token) - amount
                &&& forall|other: Address|
                    other != token ==> #[trigger] final(vault)@.balance_of(other)
                        == old(vault)@.balance_of(other)
                &&& event == (UserWithdrawEvent {
                    user: caller,
                    asset_metadata: token,
                    amount,
                    timestamp_microseconds,
                })
            },
            Err(code) => {
                &&& old(vault)@.withdraw_rejection(caller, token, amount) == Some(code)
                &&& final(vault)@ == old(vault)@
            },
        },
        final(vault)@ == old(vault)@.after_withdraw(caller, token, amount),
        old(vault)@.wf() ==> final(vault)@.wf(),
{
    if !vault.is_investor(&caller) {
        return Err(ErrorCode::OnlyInvestor);
    }
    if amount == 0 {
        return Err(ErrorCode::InvalidAmount);
    }
    if !vault.is_initialized {
        return Err(ErrorCode::VaultNotInitialized);
    }
    let current_balance = get_token_balance(vault, token);
    if current_balance < amount {
        return Err(ErrorCode::InsufficientBalance);
    }
    set_token_balance(vault, token, current_balance - amount);
    Ok(UserWithdrawEvent { user: caller, asset_metadata: token, amount, timestamp_microseconds })
}

/// The vault's balance of `token`. Anyone may ask; the answer is zero for a
/// token the vault never held.
pub fn get_balance(vault: &PersonalVault, token: Address) -> (result: Result<u64, ErrorCode>)
    ensures
        result == Ok::<u64, ErrorCode>(vault@.balance_of(token)),
{
    Ok(get_token_balance(vault, token))
}

} // verus!
