use amm::contexts::withdraw::withdraw_amounts;
use amm::AmmError;
use amm::Config;
use amm::Mint;
use amm::Pubkey;
use amm::TokenAccount;
use amm::Withdraw;

fn address(tag: u8) -> Pubkey {
    Pubkey { bytes: [tag; 32] }
}

fn seeded(reserve_x: u64, reserve_y: u64, lp_supply: u64, taker_lp: u64) -> Withdraw {
    Withdraw {
        taker: address(8),
        mint_x: Mint { key: address(1), decimals: 6, supply: u64::MAX },
        mint_y: Mint { key: address(2), decimals: 9, supply: u64::MAX },
        taker_ata_x: TokenAccount { mint: address(1), amount: 0 },
        taker_ata_y: TokenAccount { mint: address(2), amount: 0 },
        mint_lp: Mint { key: address(3), decimals: 6, supply: lp_supply },
        vault_x: TokenAccount { mint: address(1), amount: reserve_x },
        vault_y: TokenAccount { mint: address(2), amount: reserve_y },
        taker_lp_ata: TokenAccount { mint: address(3), amount: taker_lp },
        config: Config {
            seed: 7,
            fee: 30,
            mint_x: address(1),
            mint_y: address(2),
            lp_bump: 254,
            bump: 255,
            k: (reserve_x as u128) * (reserve_y as u128),
        },
    }
}

#[test]
fn withdraw_below_supply_pays_nothing() {
    assert_eq!(withdraw_amounts(1000, 100, 500, 300), Ok((0, 0)));
    assert_eq!(withdraw_amounts(1000, 100, u64::MAX, 0), Ok((0, 0)));
    assert_eq!(withdraw_amounts(1000, 999, 1, 1), Ok((0, 0)));
    let mut accounts = seeded(200, 100, 1000, 400);
    assert_eq!(accounts.withdraw(100, 500, 300), Ok(()));
    assert_eq!(accounts.vault_x.amount, 200);
    assert_eq!(accounts.vault_y.amount, 100);
    assert_eq!(accounts.taker_ata_x.amount, 0);
    assert_eq!(accounts.taker_ata_y.amount, 0);
    assert_eq!(accounts.mint_lp.supply, 900);
    assert_eq!(accounts.taker_lp_ata.amount, 300);
}

#[test]
fn withdraw_from_pool_without_shares_overflows() {
    assert_eq!(withdraw_amounts(0, 100, 5, 5), Err(AmmError::Overflow));
    assert_eq!(withdraw_amounts(0, 0, 0, 0), Err(AmmError::Overflow));
    let mut accounts = seeded(200, 100, 0, 400);
    let before = accounts;
    assert_eq!(accounts.withdraw(100, 5, 5), Err(AmmError::Overflow));
    assert_eq!(accounts, before);
}

#[test]
fn withdraw_amounts_scale_the_bases() {
    assert_eq!(withdraw_amounts(100, 250, 7, 5), Ok((14, 10)));
    assert_eq!(withdraw_amounts(100, 100, 7, 5), Ok((7, 5)));
    assert_eq!(withdraw_amounts(100, 199, 7, 5), Ok((7, 5)));
    assert_eq!(withdraw_amounts(1, 3, 0, 9), Ok((0, 27)));
}

#[test]
fn withdraw_pays_scaled_bases_and_burns_shares() {
    let mut accounts = seeded(200, 100, 100, 400);
    assert_eq!(accounts.withdraw(250, 7, 5), Err(AmmError::BurnError));
    let mut larger = seeded(200, 100, 300, 400);
    assert_eq!(larger.withdraw(300, 7, 5), Ok(()));
    assert_eq!(larger.vault_x.amount, 193);
    assert_eq!(larger.vault_y.amount, 95);
    assert_eq!(larger.taker_ata_x.amount, 7);
    assert_eq!(larger.taker_ata_y.amount, 5);
    assert_eq!(larger.mint_lp.supply, 0);
    assert_eq!(larger.taker_lp_ata.amount, 100);
    assert_eq!(larger.config.k, 193 * 95);
}

#[test]
fn withdraw_share_sum_overflow() {
    assert_eq!(withdraw_amounts(u64::MAX, 1, 0, 0), Err(AmmError::Overflow));
    assert_eq!(withdraw_amounts(1, u64::MAX, 0, 0), Err(AmmError::Overflow));
    assert_eq!(withdraw_amounts(u64::MAX - 1, 1, 3, 4), Ok((0, 0)));
    let mut accounts = seeded(200, 100, u64::MAX, 400);
    let before = accounts;
    assert_eq!(accounts.withdraw(1, 0, 0), Err(AmmError::Overflow));
    assert_eq!(accounts, before);
}

#[test]
fn withdraw_scaled_base_overflow() {
    assert_eq!(withdraw_amounts(1, 1, u64::MAX, 0), Err(AmmError::Overflow));
    assert_eq!(withdraw_amounts(1, 1, 0, u64::MAX), Err(AmmError::Overflow));
    assert_eq!(withdraw_amounts(1, 1, u64::MAX / 2, 0), Ok((u64::MAX / 2, 0)));
    let mut accounts = seeded(200, 100, 1, 400);
    let before = accounts;
    assert_eq!(accounts.withdraw(1, u64::MAX, 0), Err(AmmError::Overflow));
    assert_eq!(accounts, before);
}

#[test]
fn withdraw_beyond_reserve_is_a_transfer_error() {
    let mut accounts = seeded(6, 100, 100, 400);
    let before = accounts;
    assert_eq!(accounts.withdraw(100, 7, 5), Err(AmmError::TransferError));
    assert_eq!(accounts, before);
    let mut short_y = seeded(200, 4, 100, 400);
    let before_y = short_y;
    assert_eq!(short_y.withdraw(100, 7, 5), Err(AmmError::TransferError));
    assert_eq!(short_y, before_y);
}

#[test]
fn withdraw_of_more_shares_than_held_is_a_burn_error() {
    let mut accounts = seeded(200, 100, 1000, 99);
    let before = accounts;
    assert_eq!(accounts.withdraw(100, 7, 5), Err(AmmError::BurnError));
    assert_eq!(accounts, before);
}

#[test]
fn withdraw_into_wrong_asset_is_a_mismatch() {
    let mut accounts = seeded(200, 100, 1000, 400);
    accounts.taker_ata_y.mint = address(1);
    let before = accounts;
    assert_eq!(accounts.withdraw(100, 7, 5), Err(AmmError::AssetMismatch));
    assert_eq!(accounts, before);
}

#[test]
fn withdraw_tokens_moves_one_asset() {
    let mut accounts = seeded(200, 100, 1000, 400);
    assert_eq!(accounts.withdraw_tokens(30, true), Ok(()));
    assert_eq!((accounts.vault_x.amount, accounts.taker_ata_x.amount), (170, 30));
    assert_eq!((accounts.vault_y.amount, accounts.taker_ata_y.amount), (100, 0));
    assert_eq!(accounts.withdraw_tokens(100, false), Ok(()));
    assert_eq!((accounts.vault_y.amount, accounts.taker_ata_y.amount), (0, 100));
    assert_eq!(accounts.withdraw_tokens(1, false), Err(AmmError::TransferError));
}

#[test]
fn burn_lp_tokens_shrinks_supply_and_balance() {
    let mut accounts = seeded(200, 100, 1000, 400);
    assert_eq!(accounts.burn_lp_tokens(150), Ok(()));
    assert_eq!(accounts.mint_lp.supply, 850);
    assert_eq!(accounts.taker_lp_ata.amount, 250);
    let before = accounts;
    assert_eq!(accounts.burn_lp_tokens(251), Err(AmmError::BurnError));
    assert_eq!(accounts, before);
}

#[test]
fn withdraw_entry_point_acts_as_the_method() {
    let mut by_entry = seeded(200, 100, 300, 400);
    let mut by_method = by_entry;
    assert_eq!(amm::withdraw(&mut by_entry, 300, 7, 5), by_method.withdraw(300, 7, 5));
    assert_eq!(by_entry, by_method);
}
