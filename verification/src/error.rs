//! The failure codes that vault operations report.

use vstd::prelude::*;

verus! {

/// Why an operation was refused. An operation that returns one of these has
/// left the vault exactly as it found it.
#[derive(Clone, Copy, Debug, PartialEq, Eq, Structural)]
pub enum ErrorCode {
    /// Validation: the bot address is the null address.
    InvalidBotAddress,
    /// Validation: the swap router address is the null address.
    InvalidSwapRouter,
    /// Validation: the wrapped native token address is the null address.
    InvalidWrappedNative,
    /// Validation: the admin address is the null address.
    InvalidAdminAddress,
    /// State: the new bot is the bot already in place.
    SameBotAddress,
    /// State: the new admin is the admin already in place.
    SameAdminAddress,
    /// Authorization: the caller is not the vault's investor.
    OnlyInvestor,
    /// Validation: an amount that must be positive is zero.
    InvalidAmount,
    /// Balance: the vault holds less of the token than the operation takes.
    InsufficientBalance,
    /// State: the vault has not been initialized.
    VaultNotInitialized,
    /// Authorization: the caller is not the vault's admin.
    Unauthorized,
    /// Authorization: the caller is not the vault's bot.
    OnlyBot,
    /// Validation: the fee rate is above 1,000,000 parts per million.
    InvalidFeeRate,
    /// Execution: the venue paid out less than the caller's minimum.
    InsufficientOutputAmount,
    /// Execution: the venue could not be addressed or did not fill the swap.
    SwapFailed,
}

} // verus!
