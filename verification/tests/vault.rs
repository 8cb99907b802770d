use personal_vault::address::Address;
use personal_vault::error::ErrorCode;
use personal_vault::events::{
    timestamp_microseconds, AdminUpdatedEvent, BalanceManagerCreatedEvent, BotUpdatedEvent,
    UserDepositEvent, UserWithdrawEvent, MAX_UNIX_SECONDS,
};
use personal_vault::state::{PersonalVault, TokenBalance};
use personal_vault::vault::{
    create_balance_manager, get_balance, set_admin, set_bot, user_deposit, user_withdraw,
};

fn addr(tag: u8) -> Address {
    Address::new([tag; 32])
}

const INVESTOR: u8 = 1;
const BOT: u8 = 2;
const ROUTER: u8 = 3;
const WRAPPED: u8 = 4;
const STRANGER: u8 = 9;
const TOKEN_X: u8 = 20;
const TOKEN_Y: u8 = 21;

fn new_vault() -> PersonalVault {
    create_balance_manager(addr(INVESTOR), addr(BOT), addr(ROUTER), addr(WRAPPED), 5)
        .unwrap()
        .0
}

#[test]
fn create_sets_roles_configuration_and_empty_ledger() {
    let (vault, event) =
        create_balance_manager(addr(INVESTOR), addr(BOT), addr(ROUTER), addr(WRAPPED), 1_700_000)
            .unwrap();
    assert_eq!(
        vault,
        PersonalVault {
            investor: addr(INVESTOR),
            admin: addr(INVESTOR),
            bot: addr(BOT),
            swap_router: addr(ROUTER),
            wrapped_native: addr(WRAPPED),
            is_initialized: true,
            balances: Vec::new(),
        }
    );
    assert_eq!(
        event,
        BalanceManagerCreatedEvent { user: addr(INVESTOR), timestamp_microseconds: 1_700_000 }
    );
}

#[test]
fn create_rejects_null_bot() {
    let result =
        create_balance_manager(addr(INVESTOR), Address::default(), addr(ROUTER), addr(WRAPPED), 0);
    assert_eq!(result, Err(ErrorCode::InvalidBotAddress));
}

#[test]
fn create_rejects_null_swap_router() {
    let result =
        create_balance_manager(addr(INVESTOR), addr(BOT), Address::default(), addr(WRAPPED), 0);
    assert_eq!(result, Err(ErrorCode::InvalidSwapRouter));
}

#[test]
fn create_rejects_null_wrapped_native() {
    let result =
        create_balance_manager(addr(INVESTOR), addr(BOT), addr(ROUTER), Address::default(), 0);
    assert_eq!(result, Err(ErrorCode::InvalidWrappedNative));
}

#[test]
fn create_reports_the_first_null_address() {
    let null = Address::default();
    assert_eq!(
        create_balance_manager(addr(INVESTOR), null, null, null, 0),
        Err(ErrorCode::InvalidBotAddress)
    );
    assert_eq!(
        create_balance_manager(addr(INVESTOR), addr(BOT), null, null, 0),
        Err(ErrorCode::InvalidSwapRouter)
    );
}

#[test]
fn admin_rotates_bot() {
    let mut vault = new_vault();
    let event = set_bot(&mut vault, addr(INVESTOR), addr(30), 77).unwrap();
    assert_eq!(vault, PersonalVault { bot: addr(30), ..new_vault() });
    assert_eq!(
        event,
        BotUpdatedEvent {
            user: addr(INVESTOR),
            old_bot_address: addr(BOT),
            new_bot_address: addr(30),
            timestamp_microseconds: 77,
        }
    );
}

#[test]
fn stranger_cannot_set_bot() {
    let mut vault = new_vault();
    let result = set_bot(&mut vault, addr(STRANGER), addr(30), 0);
    assert_eq!(result, Err(ErrorCode::Unauthorized));
    assert_eq!(vault.bot, addr(BOT));
    assert_eq!(vault, new_vault());
}

#[test]
fn bot_cannot_set_bot() {
    let mut vault = new_vault();
    assert_eq!(set_bot(&mut vault, addr(BOT), addr(30), 0), Err(ErrorCode::Unauthorized));
    assert_eq!(vault, new_vault());
}

#[test]
fn set_bot_rejects_null_and_unchanged_bot() {
    let mut vault = new_vault();
    assert_eq!(
        set_bot(&mut vault, addr(INVESTOR), Address::default(), 0),
        Err(ErrorCode::InvalidBotAddress)
    );
    assert_eq!(
        set_bot(&mut vault, addr(INVESTOR), addr(BOT), 0),
        Err(ErrorCode::SameBotAddress)
    );
    assert_eq!(vault, new_vault());
}

#[test]
fn stranger_is_turned_away_before_the_new_bot_is_looked_at() {
    let mut vault = new_vault();
    assert_eq!(
        set_bot(&mut vault, addr(STRANGER), Address::default(), 0),
        Err(ErrorCode::Unauthorized)
    );
    assert_eq!(set_bot(&mut vault, addr(STRANGER), addr(BOT), 0), Err(ErrorCode::Unauthorized));
    assert_eq!(vault, new_vault());
}

#[test]
fn admin_hands_role_on() {
    let mut vault = new_vault();
    let event = set_admin(&mut vault, addr(INVESTOR), addr(40), 8).unwrap();
    assert_eq!(vault, PersonalVault { admin: addr(40), ..new_vault() });
    assert_eq!(
        event,
        AdminUpdatedEvent {
            user: addr(INVESTOR),
            old_admin: addr(INVESTOR),
            new_admin: addr(40),
            timestamp_microseconds: 8,
        }
    );

    // The investor is no longer admin; the new admin is.
    assert_eq!(set_bot(&mut vault, addr(INVESTOR), addr(30), 0), Err(ErrorCode::Unauthorized));
    assert!(set_bot(&mut vault, addr(40), addr(30), 0).is_ok());
    assert_eq!(vault.bot, addr(30));
    // The investor keeps the funds.
    assert!(user_deposit(&mut vault, addr(INVESTOR), addr(TOKEN_X), 1, 0).is_ok());
    assert_eq!(
        user_deposit(&mut vault, addr(40), addr(TOKEN_X), 1, 0),
        Err(ErrorCode::OnlyInvestor)
    );
}

#[test]
fn set_admin_rejections() {
    let mut vault = new_vault();
    assert_eq!(
        set_admin(&mut vault, addr(STRANGER), addr(40), 0),
        Err(ErrorCode::Unauthorized)
    );
    assert_eq!(
        set_admin(&mut vault, addr(INVESTOR), Address::default(), 0),
        Err(ErrorCode::InvalidAdminAddress)
    );
    assert_eq!(
        set_admin(&mut vault, addr(INVESTOR), addr(INVESTOR), 0),
        Err(ErrorCode::SameAdminAddress)
    );
    assert_eq!(vault, new_vault());
}

#[test]
fn rotation_on_uninitialized_vault_is_refused() {
    let mut vault = PersonalVault { is_initialized: false, ..new_vault() };
    let before = vault.clone();
    assert_eq!(
        set_bot(&mut vault, addr(INVESTOR), addr(30), 0),
        Err(ErrorCode::VaultNotInitialized)
    );
    assert_eq!(
        set_admin(&mut vault, addr(INVESTOR), addr(40), 0),
        Err(ErrorCode::VaultNotInitialized)
    );
    assert_eq!(vault, before);
}

#[test]
fn deposit_adds_to_balance() {
    let mut vault = new_vault();
    let event = user_deposit(&mut vault, addr(INVESTOR), addr(TOKEN_X), 1000, 42).unwrap();
    assert_eq!(
        event,
        UserDepositEvent {
            user: addr(INVESTOR),
            asset_metadata: addr(TOKEN_X),
            amount: 1000,
            timestamp_microseconds: 42,
        }
    );
    assert_eq!(get_balance(&vault, addr(TOKEN_X)), Ok(1000));
    user_deposit(&mut vault, addr(INVESTOR), addr(TOKEN_X), 234, 43).unwrap();
    assert_eq!(get_balance(&vault, addr(TOKEN_X)), Ok(1234));
    assert_eq!(vault.balances, vec![TokenBalance { token: addr(TOKEN_X), amount: 1234 }]);
    assert_eq!(get_balance(&vault, addr(TOKEN_Y)), Ok(0));
}

#[test]
fn deposit_can_fill_the_balance_to_the_brim() {
    let mut vault = new_vault();
    user_deposit(&mut vault, addr(INVESTOR), addr(TOKEN_X), u64::MAX - 1, 0).unwrap();
    user_deposit(&mut vault, addr(INVESTOR), addr(TOKEN_X), 1, 0).unwrap();
    assert_eq!(get_balance(&vault, addr(TOKEN_X)), Ok(u64::MAX));
}

#[test]
fn deposit_rejections() {
    let mut vault = new_vault();
    assert_eq!(
        user_deposit(&mut vault, addr(STRANGER), addr(TOKEN_X), 10, 0),
        Err(ErrorCode::OnlyInvestor)
    );
    assert_eq!(
        user_deposit(&mut vault, addr(BOT), addr(TOKEN_X), 10, 0),
        Err(ErrorCode::OnlyInvestor)
    );
    assert_eq!(
        user_deposit(&mut vault, addr(INVESTOR), addr(TOKEN_X), 0, 0),
        Err(ErrorCode::InvalidAmount)
    );
    // The caller is checked before the amount.
    assert_eq!(
        user_deposit(&mut vault, addr(STRANGER), addr(TOKEN_X), 0, 0),
        Err(ErrorCode::OnlyInvestor)
    );
    assert_eq!(vault, new_vault());

    let mut blank = PersonalVault { is_initialized: false, ..new_vault() };
    assert_eq!(
        user_deposit(&mut blank, addr(INVESTOR), addr(TOKEN_X), 10, 0),
        Err(ErrorCode::VaultNotInitialized)
    );
    // The amount is checked before the initialization flag.
    assert_eq!(
        user_deposit(&mut blank, addr(INVESTOR), addr(TOKEN_X), 0, 0),
        Err(ErrorCode::InvalidAmount)
    );
    assert!(blank.balances.is_empty());
}

#[test]
fn withdraw_takes_from_balance() {
    let mut vault = new_vault();
    user_deposit(&mut vault, addr(INVESTOR), addr(TOKEN_X), 1000, 0).unwrap();
    let event = user_withdraw(&mut vault, addr(INVESTOR), addr(TOKEN_X), 400, 99).unwrap();
    assert_eq!(
        event,
        UserWithdrawEvent {
            user: addr(INVESTOR),
            asset_metadata: addr(TOKEN_X),
            amount: 400,
            timestamp_microseconds: 99,
        }
    );
    assert_eq!(get_balance(&vault, addr(TOKEN_X)), Ok(600));
}

#[test]
fn withdrawing_everything_keeps_a_zero_line() {
    let mut vault = new_vault();
    user_deposit(&mut vault, addr(INVESTOR), addr(TOKEN_X), 1000, 0).unwrap();
    user_withdraw(&mut vault, addr(INVESTOR), addr(TOKEN_X), 1000, 0).unwrap();
    assert_eq!(vault.balances, vec![TokenBalance { token: addr(TOKEN_X), amount: 0 }]);
    assert_eq!(get_balance(&vault, addr(TOKEN_X)), Ok(0));
}

#[test]
fn deposit_then_withdraw_restores_balances() {
    let mut vault = new_vault();
    user_deposit(&mut vault, addr(INVESTOR), addr(TOKEN_X), 50, 0).unwrap();
    user_deposit(&mut vault, addr(INVESTOR), addr(TOKEN_Y), 70, 0).unwrap();
    let before = vault.clone();

    user_deposit(&mut vault, addr(INVESTOR), addr(TOKEN_X), 25, 0).unwrap();
    assert_eq!(get_balance(&vault, addr(TOKEN_X)), Ok(75));
    user_withdraw(&mut vault, addr(INVESTOR), addr(TOKEN_X), 25, 0).unwrap();
    assert_eq!(vault, before);

    // For a token the vault never held, the balance is restored to zero.
    user_deposit(&mut vault, addr(INVESTOR), addr(22), 9, 0).unwrap();
    user_withdraw(&mut vault, addr(INVESTOR), addr(22), 9, 0).unwrap();
    assert_eq!(get_balance(&vault, addr(22)), Ok(0));
    assert_eq!(get_balance(&vault, addr(TOKEN_X)), Ok(50));
    assert_eq!(get_balance(&vault, addr(TOKEN_Y)), Ok(70));
}

#[test]
fn overdraw_is_refused_and_changes_nothing() {
    let mut vault = new_vault();
    user_deposit(&mut vault, addr(INVESTOR), addr(TOKEN_X), 600, 0).unwrap();
    let before = vault.clone();
    assert_eq!(
        user_withdraw(&mut vault, addr(INVESTOR), addr(TOKEN_X), 601, 0),
        Err(ErrorCode::InsufficientBalance)
    );
    assert_eq!(
        user_withdraw(&mut vault, addr(INVESTOR), addr(TOKEN_Y), 1, 0),
        Err(ErrorCode::InsufficientBalance)
    );
    assert_eq!(
        user_withdraw(&mut vault, addr(INVESTOR), addr(TOKEN_X), u64::MAX, 0),
        Err(ErrorCode::InsufficientBalance)
    );
    assert_eq!(vault, before);
    // The whole balance can still be taken.
    assert!(user_withdraw(&mut vault, addr(INVESTOR), addr(TOKEN_X), 600, 0).is_ok());
}

#[test]
fn withdraw_rejections() {
    let mut vault = new_vault();
    user_deposit(&mut vault, addr(INVESTOR), addr(TOKEN_X), 600, 0).unwrap();
    let before = vault.clone();
    assert_eq!(
        user_withdraw(&mut vault, addr(STRANGER), addr(TOKEN_X), 10, 0),
        Err(ErrorCode::OnlyInvestor)
    );
    assert_eq!(
        user_withdraw(&mut vault, addr(BOT), addr(TOKEN_X), 10, 0),
        Err(ErrorCode::OnlyInvestor)
    );
    assert_eq!(
        user_withdraw(&mut vault, addr(STRANGER), addr(TOKEN_X), 5000, 0),
        Err(ErrorCode::OnlyInvestor)
    );
    assert_eq!(
        user_withdraw(&mut vault, addr(INVESTOR), addr(TOKEN_X), 0, 0),
        Err(ErrorCode::InvalidAmount)
    );
    assert_eq!(vault, before);

    let mut blank = PersonalVault { is_initialized: false, ..before.clone() };
    assert_eq!(
        user_withdraw(&mut blank, addr(INVESTOR), addr(TOKEN_X), 10, 0),
        Err(ErrorCode::VaultNotInitialized)
    );
    assert_eq!(
        user_withdraw(&mut blank, addr(INVESTOR), addr(TOKEN_X), 5000, 0),
        Err(ErrorCode::VaultNotInitialized)
    );
    assert_eq!(blank.balances, before.balances);
}

#[test]
fn get_balance_is_open_to_anyone_and_never_fails() {
    let mut vault = new_vault();
    user_deposit(&mut vault, addr(INVESTOR), addr(TOKEN_X), 5, 0).unwrap();
    assert_eq!(get_balance(&vault, addr(TOKEN_X)), Ok(5));
    assert_eq!(get_balance(&vault, addr(TOKEN_Y)), Ok(0));
    let blank = PersonalVault { is_initialized: false, ..vault.clone() };
    assert_eq!(get_balance(&blank, addr(TOKEN_X)), Ok(5));
}

#[test]
fn role_predicates_compare_with_the_stored_addresses() {
    let vault = new_vault();
    assert!(vault.is_investor(&addr(INVESTOR)));
    assert!(vault.is_admin(&addr(INVESTOR)));
    assert!(vault.is_bot(&addr(BOT)));
    assert!(!vault.is_investor(&addr(BOT)));
    assert!(!vault.is_admin(&addr(BOT)));
    assert!(!vault.is_bot(&addr(INVESTOR)));
    assert!(!vault.is_bot(&addr(STRANGER)));
}

#[test]
fn timestamp_is_seconds_times_a_million() {
    assert_eq!(timestamp_microseconds(0), 0);
    assert_eq!(timestamp_microseconds(1), 1_000_000);
    assert_eq!(timestamp_microseconds(1_700_000_000), 1_700_000_000_000_000);
    assert_eq!(timestamp_microseconds(MAX_UNIX_SECONDS), 18_446_744_073_709_000_000);
}
