//! The vault record and its mathematical model.

use vstd::prelude::*;
use crate::address::Address;

verus! {

/// One ledger line: how much of `token` the vault holds.
#[derive(Clone, Copy, Debug, PartialEq, Eq)]
pub struct TokenBalance {
    pub token: Address,
    pub amount: u64,
}

/// The custody record of one investor: who may do what, and the ledger.
#[derive(Clone, Debug, PartialEq, Eq)]
pub struct PersonalVault {
    /// May deposit and withdraw. Set at creation, never reassigned.
    pub investor: Address,
    /// May rotate `bot` and `admin`. Starts out as the investor.
    pub admin: Address,
    /// May trade the vault's holdings; can never withdraw them.
    pub bot: Address,
    /// Swap router the vault was configured with.
    pub swap_router: Address,
    /// Wrapped native token the vault was configured with.
    pub wrapped_native: Address,
    /// False only before creation has completed.
    pub is_initialized: bool,
    /// The ledger, in the order in which tokens were first credited.
    pub balances: Vec<TokenBalance>,
}

/// `i` is where `entries` keeps its line for `token`: the first line that
/// names the token.
pub open spec fn is_line_of(entries: Seq<TokenBalance>, token: Address, i: int) -> bool {
    &&& 0 <= i < entries.len()
    &&& entries[i].token == token
    &&& forall|j: int| 0 <= j < i ==> (#[trigger] entries[j]).token != token
}

/// Whether `entries` has a line for `token`.
pub open spec fn has_line(entries: Seq<TokenBalance>, token: Address) -> bool {
    exists|i: int| is_line_of(entries, token, i)
}

/// Where `entries` keeps its line for `token`, if it has one.
pub open spec fn line_of(entries: Seq<TokenBalance>, token: Address) -> int {
    choose|i: int| is_line_of(entries, token, i)
}

/// The amount of `token` that `entries` records: that of its line, or zero
/// where the token has none.
pub open spec fn balance_in(entries: Seq<TokenBalance>, token: Address) -> u64 {
    if has_line(entries, token) {
        entries[line_of(entries, token)].amount
    } else {
        0
    }
}

/// `entries` after the balance of `token` has been set to `amount`: its line
/// is overwritten in place, or a new line is appended where it had none.
pub open spec fn set_in(entries: Seq<TokenBalance>, token: Address, amount: u64) -> Seq<
    TokenBalance,
> {
    let line = TokenBalance { token, amount };
    if has_line(entries, token) {
        entries.update(line_of(entries, token), line)
    } else {
        entries.push(line)
    }
}

/// No token has two lines.
pub open spec fn distinct_tokens(entries: Seq<TokenBalance>) -> bool {
    forall|i: int, j: int|
        0 <= i < j < entries.len() ==> (#[trigger] entries[i]).token != (#[trigger] entries[j]).token
}

/// What a vault is, as plain mathematics: five addresses, a flag and the
/// sequence of ledger lines.
pub struct VaultView {
    pub investor: Address,
    pub admin: Address,
    pub bot: Address,
    pub swap_router: Address,
    pub wrapped_native: Address,
    pub is_initialized: bool,
    pub balances: Seq<TokenBalance>,
}

impl VaultView {
    /// The vault's balance of `token`; zero for a token it never held.
    pub open spec fn balance_of(self, token: Address) -> u64 {
        balance_in(self.balances, token)
    }

    /// The vault with the balance of `token` set to `amount` and nothing else
    /// changed.
    pub open spec fn with_balance(self, token: Address, amount: u64) -> VaultView {
        VaultView { balances: set_in(self.balances, token, amount), ..self }
    }

    /// The ledger invariant, and the configuration that creation checks: no
    /// token has two lines, and an initialized vault names a bot, a swap
    /// router and a wrapped native token.
    pub open spec fn wf(self) -> bool {
        &&& distinct_tokens(self.balances)
        &&& self.is_initialized ==> {
            &&& !self.bot.is_null()
            &&& !self.swap_router.is_null()
            &&& !self.wrapped_native.is_null()
        }
    }
}

impl View for PersonalVault {
    type V = VaultView;

    open spec fn view(&self) -> VaultView {
        VaultView {
            investor: self.investor,
            admin: self.admin,
            bot: self.bot,
            swap_router: self.swap_router,
            wrapped_native: self.wrapped_native,
            is_initialized: self.is_initialized,
            balances: self.balances@,
        }
    }
}

} // verus!
