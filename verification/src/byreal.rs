//! The Byreal CLMM venue: how a swap request is encoded, how the venue's pool
//! is addressed, and what the instruction that invokes it looks like.

use vstd::prelude::*;
use crate::address::{address_lt, lemma_address_order, null_bytes, Address};
use crate::error::ErrorCode;
use crate::solana::{found_program_address, try_find_program_address};

verus! {

/// Base58 address of the Byreal CLMM program on mainnet.
pub const BYREAL_CLMM_PROGRAM_ID: &'static str = "REALQqNEomY6cQGZJUGwywTBD2UmDT32rZcNnfxQ5N2";

/// Base58 address of the Byreal CLMM program on devnet.
pub const BYREAL_CLMM_DEVNET_PROGRAM_ID: &'static str = "45iBNkaENereLKMjLm2LHkF3hpDapf6mnvrM5HWFg9cY";

/// Operation tag of the venue's `swap` instruction.
pub const BYREAL_SWAP_INSTRUCTION_DISCRIMINATOR: [u8; 8] = [248, 198, 158, 145, 225, 117, 135, 200];

/// Operation tag of the venue's `swap_v2` instruction.
pub const BYREAL_SWAP_V2_INSTRUCTION_DISCRIMINATOR: [u8; 8] = [43, 4, 237, 11, 26, 201, 30, 98];

/// Namespace tag under which the venue derives its pool addresses: `pool`.
pub const POOL_SEED: [u8; 4] = [112, 111, 111, 108];

/// The `width` low-order bytes of `value`, least significant first.
pub open spec fn le_bytes(value: nat, width: nat) -> Seq<u8>
    decreases width,
{
    if width == 0 {
        Seq::empty()
    } else {
        seq![(value % 256) as u8] + le_bytes(value / 256, (width - 1) as nat)
    }
}

/// The 41 bytes of a swap request: the `swap` tag, the input amount and the
/// output threshold as 8 little-endian bytes each, the price limit as 16
/// little-endian bytes (zero for none), and one byte that is 1 where the
/// amount is the swap's input.
pub open spec fn swap_instruction_data(
    amount: u64,
    other_amount_threshold: u64,
    sqrt_price_limit_x64: u128,
    is_base_input: bool,
) -> Seq<u8> {
    BYREAL_SWAP_INSTRUCTION_DISCRIMINATOR@ + le_bytes(amount as nat, 8) + le_bytes(
        other_amount_threshold as nat,
        8,
    ) + le_bytes(sqrt_price_limit_x64 as nat, 16) + seq![if is_base_input { 1u8 } else { 0u8 }]
}

/// Appends the `width` low-order bytes of `value`, least significant first.
fn push_le_bytes(data: &mut Vec<u8>, value: u128, width: usize)
    ensures
        final(data)@ == old(data)@ + le_bytes(value as nat, width as nat),
{
    let mut rest: u128 = value;
    let mut k: usize = 0;
    assert(data@ + le_bytes(rest as nat, (width - k) as nat) =~= old(data)@ + le_bytes(
        value as nat,
        width as nat,
    ));
    while k < width
        invariant
            k <= width,
            data@ + le_bytes(rest as nat, (width - k) as nat) == old(data)@ + le_bytes(
                value as nat,
                width as nat,
            ),
        decreases width - k,
    {
        let ghost before = data@;
        let byte: u8 = (rest % 256) as u8;
        data.push(byte);
        assert(before + le_bytes(rest as nat, (width - k) as nat) =~= before.push(byte) + le_bytes(
            (rest / 256) as nat,
            (width - k - 1) as nat,
        ));
        rest = rest / 256;
        k += 1;
    }
    assert(le_bytes(rest as nat, 0) =~= Seq::<u8>::empty());
    assert(data@ + Seq::<u8>::empty() =~= data@);
}

/// Encodes a swap request for the venue.
pub fn build_byreal_clmm_swap_instruction(
    amount: u64,
    other_amount_threshold: u64,
    sqrt_price_limit_x64: u128,
    is_base_input: bool,
) -> (result: Result<Vec<u8>, ErrorCode>)
    ensures
        result matches Ok(data) && data@ == swap_instruction_data(
            amount,
            other_amount_threshold,
            sqrt_price_limit_x64,
            is_base_input,
        ),
{
    let mut instruction_data: Vec<u8> = Vec::new();
    let mut i: usize = 0;
    while i < 8
        invariant
            i <= 8,
            instruction_data@ == BYREAL_SWAP_INSTRUCTION_DISCRIMINATOR@.subrange(0, i as int),
        decreases 8 - i,
    {
        instruction_data.push(BYREAL_SWAP_INSTRUCTION_DISCRIMINATOR[i]);
        i += 1;
    }
    assert(instruction_data@ =~= BYREAL_SWAP_INSTRUCTION_DISCRIMINATOR@);
    push_le_bytes(&mut instruction_data, amount as u128, 8);
    push_le_bytes(&mut instruction_data, other_amount_threshold as u128, 8);
    push_le_bytes(&mut instruction_data, sqrt_price_limit_x64, 16);
    instruction_data.push(if is_base_input { 1u8 } else { 0u8 });
    Ok(instruction_data)
}

/// What the simulated venue pays out for `amount_in`: 99 parts in 100,
/// rounded down.
pub open spec fn simulated_amount_out(amount_in: u64) -> u64 {
    (amount_in * 99 / 100) as u64
}

/// The two mints of a pool in the venue's canonical order: the smaller
/// address first.
pub open spec fn sorted_mints(token_a: Address, token_b: Address) -> (Address, Address) {
    if address_lt(token_a, token_b) {
        (token_a, token_b)
    } else {
        (token_b, token_a)
    }
}

/// The seeds from which the venue derives the address of the pool that
/// trades `token_a` against `token_b` under `amm_config`: the `pool` tag, the
/// configuration's address, then the two mints in canonical order.
pub open spec fn pool_seeds(amm_config: Address, token_a: Address, token_b: Address) -> Seq<
    Seq<u8>,
> {
    let (mint_0, mint_1) = sorted_mints(token_a, token_b);
    seq![POOL_SEED@, amm_config@, mint_0@, mint_1@]
}

/// The pool seeds of a pair of tokens under the null configuration.
pub open spec fn default_pool_seeds(token_a: Address, token_b: Address) -> Seq<Seq<u8>> {
    let (mint_0, mint_1) = sorted_mints(token_a, token_b);
    seq![POOL_SEED@, null_bytes(), mint_0@, mint_1@]
}

/// A pool has one address, in whichever order its two tokens are named: the
/// seeds of a pair and of the reversed pair are the same.
pub proof fn lemma_pool_seeds_symmetric(amm_config: Address, token_a: Address, token_b: Address)
    ensures
        sorted_mints(token_a, token_b) == sorted_mints(token_b, token_a),
        pool_seeds(amm_config, token_a, token_b) == pool_seeds(amm_config, token_b, token_a),
        default_pool_seeds(token_a, token_b) == default_pool_seeds(token_b, token_a),
{
    lemma_address_order(token_a, token_b);
}

/// One account that an instruction touches, and how.
#[derive(Clone, Copy, Debug, PartialEq, Eq)]
pub struct AccountMeta {
    pub pubkey: Address,
    /// The instruction needs this account's signature.
    pub is_signer: bool,
    /// The instruction may change this account.
    pub is_writable: bool,
}

impl AccountMeta {
    /// A writable account.
    pub fn new(pubkey: Address, is_signer: bool) -> (meta: AccountMeta)
        ensures
            meta == (AccountMeta { pubkey, is_signer, is_writable: true }),
    {
        AccountMeta { pubkey, is_signer, is_writable: true }
    }

    /// A read-only account.
    pub fn new_readonly(pubkey: Address, is_signer: bool) -> (meta: AccountMeta)
        ensures
            meta == (AccountMeta { pubkey, is_signer, is_writable: false }),
    {
        AccountMeta { pubkey, is_signer, is_writable: false }
    }
}

/// A call to another program: which program, on which accounts, with what
/// data.
#[derive(Clone, Debug, PartialEq, Eq)]
pub struct Instruction {
    pub program_id: Address,
    pub accounts: Vec<AccountMeta>,
    pub data: Vec<u8>,
}

/// An instruction as plain mathematics.
pub struct InstructionView {
    pub program_id: Address,
    pub accounts: Seq<AccountMeta>,
    pub data: Seq<u8>,
}

impl View for Instruction {
    type V = InstructionView;

    open spec fn view(&self) -> InstructionView {
        InstructionView {
            program_id: self.program_id,
            accounts: self.accounts@,
            data: self.data@,
        }
    }
}

/// The accounts that take part in a swap on the venue.
#[derive(Clone, Copy, Debug, PartialEq, Eq)]
pub struct SwapAccounts {
    /// Who signs for the swap.
    pub user: Address,
    pub amm_config: Address,
    pub pool_state: Address,
    pub input_token_account: Address,
    pub output_token_account: Address,
    pub input_vault: Address,
    pub output_vault: Address,
    pub observation_state: Address,
    pub token_program: Address,
    pub tick_array: Address,
}

/// The account list of a swap instruction, in the order the venue expects:
/// the user signs; the configuration and the token program are read-only;
/// everything else is writable.
pub open spec fn swap_account_metas(accounts: SwapAccounts) -> Seq<AccountMeta> {
    seq![
        AccountMeta { pubkey: accounts.user, is_signer: true, is_writable: true },
        AccountMeta { pubkey: accounts.amm_config, is_signer: false, is_writable: false },
        AccountMeta { pubkey: accounts.pool_state, is_signer: false, is_writable: true },
        AccountMeta { pubkey: accounts.input_token_account, is_signer: false, is_writable: true },
        AccountMeta { pubkey: accounts.output_token_account, is_signer: false, is_writable: true },
        AccountMeta { pubkey: accounts.input_vault, is_signer: false, is_writable: true },
        AccountMeta { pubkey: accounts.output_vault, is_signer: false, is_writable: true },
        AccountMeta { pubkey: accounts.observation_state, is_signer: false, is_writable: true },
        AccountMeta { pubkey: accounts.token_program, is_signer: false, is_writable: false },
        AccountMeta { pubkey: accounts.tick_array, is_signer: false, is_writable: true },
    ]
}

/// The instruction that asks the venue at `program_id` to swap exactly
/// `amount_in`, with no price limit, for at least `amount_out_minimum`.
pub open spec fn swap_instruction(
    program_id: Address,
    accounts: SwapAccounts,
    amount_in: u64,
    amount_out_minimum: u64,
) -> InstructionView {
    InstructionView {
        program_id,
        accounts: swap_account_metas(accounts),
        data: swap_instruction_data(amount_in, amount_out_minimum, 0, true),
    }
}

/// A swap that is ready for the host to carry out.
#[derive(Clone, Debug, PartialEq, Eq)]
pub struct SwapCpi {
    /// What the host invokes.
    pub instruction: Instruction,
    /// What the venue is taken to pay out once the invocation has succeeded.
    pub amount_out: u64,
}

/// Computes what the simulated venue pays out for `amount_in`.
pub fn simulate_amount_out(amount_in: u64) -> (amount_out: u64)
    ensures
        amount_out == simulated_amount_out(amount_in),
{
    let scaled: u128 = (amount_in as u128) * 99;
    (scaled / 100) as u64
}

/// Puts two mints in the venue's canonical order.
pub fn sort_mints(token_a: Address, token_b: Address) -> (mints: (Address, Address))
    ensures
        mints == sorted_mints(token_a, token_b),
{
    if token_a.precedes(&token_b) {
        (token_a, token_b)
    } else {
        (token_b, token_a)
    }
}

/// Turns the outcome of an address search into a pool address: the address
/// that was found, without its bump seed, or `SwapFailed` where none was.
pub fn pool_address_from(found: Option<([u8; 32], u8)>) -> (result: Result<Address, ErrorCode>)
    ensures
        found matches Some((bytes, _)) ==> result matches Ok(pool) && pool.bytes == bytes,
        found is None ==> result == Err::<Address, ErrorCode>(ErrorCode::SwapFailed),
{
    match found {
        Some((bytes, _)) => Ok(Address { bytes }),
        None => Err(ErrorCode::SwapFailed),
    }
}

/// The address of the venue's pool for a pair of tokens: the program address
/// that the program `program_id` derives from `pool_seeds`. The order in
/// which the two tokens are given does not matter. `SwapFailed` where the
/// seeds derive no address.
pub fn get_byreal_pool_address(
    program_id: Address,
    amm_config: Address,
    token_a: Address,
    token_b: Address,
) -> (result: Result<Address, ErrorCode>)
    ensures
        match found_program_address(pool_seeds(amm_config, token_a, token_b), program_id@) {
            Some((bytes, _)) => result matches Ok(pool) && pool@ == bytes,
            None => result == Err::<Address, ErrorCode>(ErrorCode::SwapFailed),
        },
{
    let (token_mint_0, token_mint_1) = sort_mints(token_a, token_b);
    let found = try_find_program_address(
        POOL_SEED.as_slice(),
        amm_config.bytes.as_slice(),
        token_mint_0.bytes.as_slice(),
        token_mint_1.bytes.as_slice(),
        &program_id.bytes,
    );
    pool_address_from(found)
}

/// Carries out a swap against the simulated venue: encodes the request as
/// the venue would receive it and reports the simulated fill, which depends
/// on `amount_in` alone.
#[allow(unused_variables)]
pub fn execute_byreal_clmm_swap(
    pool_address: Address,
    token_in: Address,
    token_out: Address,
    amount_in: u64,
    amount_out_minimum: u64,
) -> (result: Result<u64, ErrorCode>)
    ensures
        result == Ok::<u64, ErrorCode>(simulated_amount_out(amount_in)),
{
    let _swap_instruction = build_byreal_clmm_swap_instruction(
        amount_in,
        amount_out_minimum,
        0,
        true,
    )?;
    Ok(simulate_amount_out(amount_in))
}

/// Swaps exactly `amount_in` of `token_in` for `token_out` on the simulated
/// venue at `program_id`, through the pool of the two tokens under the null
/// configuration. Pays out `simulated_amount_out(amount_in)`; `SwapFailed`
/// where the pool cannot be addressed.
pub fn byreal_swap_exact_input_single(
    program_id: Address,
    token_in: Address,
    token_out: Address,
    amount_in: u64,
    amount_out_minimum: u64,
) -> (result: Result<u64, ErrorCode>)
    ensures
        match found_program_address(default_pool_seeds(token_in, token_out), program_id@) {
            Some(_) => result == Ok::<u64, ErrorCode>(simulated_amount_out(amount_in)),
            None => result == Err::<u64, ErrorCode>(ErrorCode::SwapFailed),
        },
{
    let amm_config = Address::default();
    assert(pool_seeds(amm_config, token_in, token_out) =~= default_pool_seeds(token_in, token_out))
        by {
        assert(amm_config@ =~= null_bytes());
    }
    let pool_address = get_byreal_pool_address(program_id, amm_config, token_in, token_out)?;
    execute_byreal_clmm_swap(pool_address, token_in, token_out, amount_in, amount_out_minimum)
}

/// Prepares the swap that the host is to invoke on the venue at
/// `program_id`: the instruction, and the fill to settle with once the
/// invocation has succeeded.
pub fn execute_byreal_swap_cpi(
    program_id: Address,
    accounts: &SwapAccounts,
    amount_in: u64,
    amount_out_minimum: u64,
) -> (result: Result<SwapCpi, ErrorCode>)
    ensures
        result matches Ok(cpi) && cpi.instruction@ == swap_instruction(
            program_id,
            *accounts,
            amount_in,
            amount_out_minimum,
        ) && cpi.amount_out == simulated_amount_out(amount_in),
{
    let sqrt_price_limit_x64: u128 = 0;
    let is_base_input = true;
    let instruction_data = build_byreal_clmm_swap_instruction(
        amount_in,
        amount_out_minimum,
        sqrt_price_limit_x64,
        is_base_input,
    )?;
    let mut metas: Vec<AccountMeta> = Vec::new();
    metas.push(AccountMeta::new(accounts.user, true));
    metas.push(AccountMeta::new_readonly(accounts.amm_config, false));
    metas.push(AccountMeta::new(accounts.pool_state, false));
    metas.push(AccountMeta::new(accounts.input_token_account, false));
    metas.push(AccountMeta::new(accounts.output_token_account, false));
    metas.push(AccountMeta::new(accounts.input_vault, false));
    metas.push(AccountMeta::new(accounts.output_vault, false));
    metas.push(AccountMeta::new(accounts.observation_state, false));
    metas.push(AccountMeta::new_readonly(accounts.token_program, false));
    metas.push(AccountMeta::new(accounts.tick_array, false));
    assert(metas@ =~= swap_account_metas(*accounts));
    let instruction = Instruction { program_id, accounts: metas, data: instruction_data };
    let amount_out = simulate_amount_out(amount_in);
    Ok(SwapCpi { instruction, amount_out })
}

} // verus!
