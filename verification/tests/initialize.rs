use amm::AmmError;
use amm::Config;
use amm::Initialize;
use amm::InitializeBumps;
use amm::Mint;
use amm::Pubkey;
use amm::Swap;
use amm::TokenAccount;

fn id(tag: u8) -> Pubkey {
    Pubkey { bytes: [tag; 32] }
}

fn blank() -> Initialize {
    Initialize {
        signer: id(9),
        mint_x: Mint { key: id(1), decimals: 6, supply: 1_000_000 },
        mint_y: Mint { key: id(2), decimals: 9, supply: 2_000_000 },
        config: None,
        mint_lp: Mint { key: id(3), decimals: 0, supply: 0 },
        vault_x: TokenAccount { mint: id(0), amount: 0 },
        vault_y: TokenAccount { mint: id(0), amount: 0 },
    }
}

#[test]
fn initialize_creates_an_empty_pool() {
    let mut accounts = blank();
    let bumps = InitializeBumps { config: 255, mint_lp: 254 };
    assert_eq!(accounts.initailize(42, 500, &bumps), Ok(()));
    assert_eq!(
        accounts.config,
        Some(Config {
            seed: 42,
            fee: 500,
            mint_x: id(1),
            mint_y: id(2),
            lp_bump: 254,
            bump: 255,
            k: 0,
        })
    );
    assert_eq!(accounts.mint_lp, Mint { key: id(3), decimals: 6, supply: 0 });
    assert_eq!(accounts.vault_x, TokenAccount { mint: id(1), amount: 0 });
    assert_eq!(accounts.vault_y, TokenAccount { mint: id(2), amount: 0 });
    assert_eq!(accounts.mint_x, blank().mint_x);
    assert_eq!(accounts.mint_y, blank().mint_y);
    assert_eq!(accounts.signer, id(9));
}

#[test]
fn initialize_accepts_any_fee() {
    let bumps = InitializeBumps { config: 1, mint_lp: 2 };
    let mut free = blank();
    assert_eq!(free.initailize(0, 0, &bumps), Ok(()));
    assert_eq!(free.config.unwrap().fee, 0);
    let mut steep = blank();
    assert_eq!(steep.initailize(u64::MAX, u16::MAX, &bumps), Ok(()));
    assert_eq!(steep.config.unwrap().fee, 65535);
    assert_eq!(steep.config.unwrap().seed, u64::MAX);
}

#[test]
fn initialize_twice_fails_and_changes_nothing() {
    let mut accounts = blank();
    let bumps = InitializeBumps { config: 255, mint_lp: 254 };
    assert_eq!(accounts.initailize(42, 500, &bumps), Ok(()));
    let after_first = accounts;
    assert_eq!(accounts.initailize(42, 500, &bumps), Err(AmmError::AlreadyInitialized));
    assert_eq!(accounts, after_first);
    let other = InitializeBumps { config: 3, mint_lp: 4 };
    assert_eq!(accounts.initailize(43, 1, &other), Err(AmmError::AlreadyInitialized));
    assert_eq!(accounts, after_first);
}

#[test]
fn initialize_entry_point_acts_as_the_method() {
    let bumps = InitializeBumps { config: 255, mint_lp: 254 };
    let mut by_entry = blank();
    let mut by_method = blank();
    assert_eq!(amm::initialize(&mut by_entry, &bumps, 42, 500), by_method.initailize(42, 500, &bumps));
    assert_eq!(by_entry, by_method);
    assert_eq!(amm::initialize(&mut by_entry, &bumps, 42, 500), Err(AmmError::AlreadyInitialized));
    assert_eq!(by_entry, by_method);
}

#[test]
fn swap_is_accepted_and_moves_nothing() {
    let mut accounts = Swap { signer: id(5) };
    assert_eq!(amm::swap(&mut accounts, 100, 90, true), Ok(()));
    assert_eq!(accounts, Swap { signer: id(5) });
    assert_eq!(amm::swap(&mut accounts, u64::MAX, 0, false), Ok(()));
    assert_eq!(accounts, Swap { signer: id(5) });
}
