//! The ledger: one line per token, looked up and overwritten by token.
//! Lines are never removed; a balance that drops to zero keeps its line.

use vstd::prelude::*;
use crate::address::Address;
use crate::state::{
    balance_in, distinct_tokens, has_line, is_line_of, line_of, set_in, PersonalVault,
    TokenBalance,
};

verus! {

/// A token has at most one first line: two indices that both qualify are equal.
pub proof fn lemma_line_unique(entries: Seq<TokenBalance>, token: Address, i: int, k: int)
    requires
        is_line_of(entries, token, i),
        is_line_of(entries, token, k),
    ensures
        i == k,
{
    if i < k {
        assert(entries[i].token != token);
    } else if k < i {
        assert(entries[k].token != token);
    }
}

/// Once `i` is known to be the line of `token`, the model functions are
/// determined by it.
pub proof fn lemma_line_found(entries: Seq<TokenBalance>, token: Address, i: int)
    requires
        is_line_of(entries, token, i),
    ensures
        has_line(entries, token),
        line_of(entries, token) == i,
        balance_in(entries, token) == entries[i].amount,
{
    lemma_line_unique(entries, token, i, line_of(entries, token));
}

/// A ledger none of whose lines names `token` has no line for it.
pub proof fn lemma_line_absent(entries: Seq<TokenBalance>, token: Address)
    requires
        forall|j: int| 0 <= j < entries.len() ==> (#[trigger] entries[j]).token != token,
    ensures
        !has_line(entries, token),
        balance_in(entries, token) == 0,
{
    assert forall|i: int| !is_line_of(entries, token, i) by {
        if 0 <= i < entries.len() {
            assert(entries[i].token != token);
        }
    }
}

/// A token that some line names has a first line.
pub proof fn lemma_named_has_line(entries: Seq<TokenBalance>, token: Address, k: int)
    requires
        0 <= k < entries.len(),
        entries[k].token == token,
    ensures
        has_line(entries, token),
        line_of(entries, token) <= k,
    decreases k,
{
    if exists|j: int| 0 <= j < k && (#[trigger] entries[j]).token == token {
        let j = choose|j: int| 0 <= j < k && (#[trigger] entries[j]).token == token;
        lemma_named_has_line(entries, token, j);
    } else {
        assert(is_line_of(entries, token, k));
        lemma_line_found(entries, token, k);
    }
}

/// Reading back what was just set gives the amount that was set.
pub proof fn lemma_set_then_get(entries: Seq<TokenBalance>, token: Address, amount: u64)
    ensures
        has_line(set_in(entries, token, amount), token),
        balance_in(set_in(entries, token, amount), token) == amount,
{
    let after = set_in(entries, token, amount);
    if has_line(entries, token) {
        let i = line_of(entries, token);
        assert forall|j: int| 0 <= j < i implies (#[trigger] after[j]).token != token by {
            assert(entries[j].token != token);
        }
        assert(is_line_of(after, token, i));
        lemma_line_found(after, token, i);
    } else {
        let n = entries.len() as int;
        assert forall|j: int| 0 <= j < n implies (#[trigger] after[j]).token != token by {
            if entries[j].token == token {
                lemma_named_has_line(entries, token, j);
            }
        }
        assert(is_line_of(after, token, n));
        lemma_line_found(after, token, n);
    }
}

/// Setting one token's balance leaves every other token as it was: whether it
/// has a line, and what its balance is.
pub proof fn lemma_set_keeps_others(
    entries: Seq<TokenBalance>,
    token: Address,
    amount: u64,
    other: Address,
)
    requires
        other != token,
    ensures
        has_line(set_in(entries, token, amount), other) == has_line(entries, other),
        balance_in(set_in(entries, token, amount), other) == balance_in(entries, other),
{
    let after = set_in(entries, token, amount);
    assert forall|j: int| 0 <= j < entries.len() implies ((#[trigger] after[j]).token == other) == (
    entries[j].token == other) && (entries[j].token == other ==> after[j] == entries[j]) by {}
    if has_line(entries, other) {
        let i = line_of(entries, other);
        assert forall|j: int| 0 <= j < i implies (#[trigger] after[j]).token != other by {
            assert(entries[j].token != other);
        }
        assert(is_line_of(after, other, i));
        lemma_line_found(after, other, i);
    } else if has_line(after, other) {
        let i = line_of(after, other);
        assert(i < entries.len());
        lemma_named_has_line(entries, other, i);
    }
}

/// Setting a balance never gives a token a second line.
pub proof fn lemma_set_keeps_distinct(entries: Seq<TokenBalance>, token: Address, amount: u64)
    requires
        distinct_tokens(entries),
    ensures
        distinct_tokens(set_in(entries, token, amount)),
{
    let after = set_in(entries, token, amount);
    if has_line(entries, token) {
        let k = line_of(entries, token);
        assert forall|i: int, j: int| 0 <= i < j < after.len() implies (#[trigger] after[i]).token != (
        #[trigger] after[j]).token by {
            assert(after[i].token == entries[i].token);
            assert(after[j].token == entries[j].token);
        }
    } else {
        let n = entries.len() as int;
        assert forall|i: int, j: int| 0 <= i < j < after.len() implies (#[trigger] after[i]).token != (
        #[trigger] after[j]).token by {
            if j == n {
                if entries[i].token == token {
                    lemma_named_has_line(entries, token, i);
                }
            } else {
                assert(after[i] == entries[i] && after[j] == entries[j]);
            }
        }
    }
}

/// Setting one token's balance changes no other token's balance.
pub proof fn lemma_set_changes_one_balance(entries: Seq<TokenBalance>, token: Address, amount: u64)
    ensures
        balance_in(set_in(entries, token, amount), token) == amount,
        forall|other: Address|
            other != token ==> #[trigger] balance_in(set_in(entries, token, amount), other)
                == balance_in(entries, other),
{
    lemma_set_then_get(entries, token, amount);
    assert forall|other: Address| other != token implies #[trigger] balance_in(
        set_in(entries, token, amount),
        other,
    ) == balance_in(entries, other) by {
        lemma_set_keeps_others(entries, token, amount, other);
    }
}

/// Finds the line of `token`, if the ledger has one.
fn find_line(balances: &Vec<TokenBalance>, token: Address) -> (found: Option<usize>)
    ensures
        found matches Some(i) ==> is_line_of(balances@, token, i as int),
        found is None ==> !has_line(balances@, token),
{
    let mut i: usize = 0;
    while i < balances.len()
        invariant
            i <= balances.len(),
            forall|j: int| 0 <= j < i ==> (#[trigger] balances@[j]).token != token,
        decreases balances.len() - i,
    {
        if balances[i].token == token {
            return Some(i);
        }
        i += 1;
    }
    proof {
        lemma_line_absent(balances@, token);
    }
    None
}

/// The vault's balance of `token`: the amount on its line, or zero where the
/// ledger has no line for it. Never fails.
pub fn get_token_balance(vault: &PersonalVault, token: Address) -> (amount: u64)
    ensures
        amount == vault@.balance_of(token),
{
    match find_line(&vault.balances, token) {
        Some(i) => {
            proof {
                lemma_line_found(vault.balances@, token, i as int);
            }
            vault.balances[i].amount
        },
        None => 0,
    }
}

/// Sets the vault's balance of `token` to `amount`: overwrites the token's
/// line where it has one, appends a line where it has none. A zero amount
/// is recorded like any other. No other token's balance changes. Never fails.
pub fn set_token_balance(vault: &mut PersonalVault, token: Address, amount: u64)
    ensures
        final(vault)@ == old(vault)@.with_balance(token, amount),
        final(vault)@.balance_of(token) == amount,
        forall|other: Address|
            other != token ==> #[trigger] final(vault)@.balance_of(other)
                == old(vault)@.balance_of(other),
        old(vault)@.wf() ==> final(vault)@.wf(),
{
    proof {
        lemma_set_changes_one_balance(vault.balances@, token, amount);
        if distinct_tokens(vault.balances@) {
            lemma_set_keeps_distinct(vault.balances@, token, amount);
        }
    }
    match find_line(&vault.balances, token) {
        Some(i) => {
            proof {
                lemma_line_found(vault.balances@, token, i as int);
            }
            vault.balances[i] = TokenBalance { token, amount };
        },
        None => {
            vault.balances.push(TokenBalance { token, amount });
        },
    }
}

} // verus!
