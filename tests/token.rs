use gadder_gold_token::error::LedgerError;
use gadder_gold_token::pubkey::{admin_pubkey, bridge_admin_pubkey, governance_pubkey, Pubkey};
use gadder_gold_token::token_contract::{check_transfer, Burn, TokenContract};
use spl_token::solana_program::program_option::COption;
use spl_token::solana_program::program_pack::Pack;

fn key(b: u8) -> Pubkey {
    Pubkey::new_from_array([b; 32])
}

fn token_account(delegate: Option<Pubkey>, delegated_amount: u64) -> Vec<u8> {
    let account = spl_token::state::Account {
        mint: spl_token::solana_program::pubkey::Pubkey::new_from_array([1; 32]),
        owner: spl_token::solana_program::pubkey::Pubkey::new_from_array([2; 32]),
        amount: 1000,
        delegate: match delegate {
            Some(k) => COption::Some(spl_token::solana_program::pubkey::Pubkey::new_from_array(k.bytes)),
            None => COption::None,
        },
        state: spl_token::state::AccountState::Initialized,
        is_native: COption::None,
        delegated_amount,
        close_authority: COption::None,
    };
    let mut data = vec![0u8; spl_token::state::Account::LEN];
    spl_token::state::Account::pack(account, &mut data).unwrap();
    data
}

#[test]
fn privileged_identities() {
    assert_eq!(admin_pubkey().bytes, [0xAA; 32]);
    assert_eq!(governance_pubkey().bytes, [0xBB; 32]);
    assert_eq!(bridge_admin_pubkey().bytes, [0xCC; 32]);
    assert!(admin_pubkey().same_as(&key(0xAA)));
    assert!(!admin_pubkey().same_as(&governance_pubkey()));
}

#[test]
fn burn_is_gated() {
    assert_eq!(
        TokenContract::burn_tokens(&key(1), &key(2), &key(3), true, 10),
        Err(LedgerError::Unauthorized)
    );
    assert_eq!(
        TokenContract::burn_tokens(&key(1), &key(2), &governance_pubkey(), false, 10),
        Err(LedgerError::MissingSignature)
    );
    assert_eq!(
        TokenContract::burn_tokens(&key(1), &key(2), &admin_pubkey(), true, 10),
        Ok(Burn { account: key(1), mint: key(2), authority: admin_pubkey(), amount: 10 })
    );
}

#[test]
fn initialize_token_setup() {
    assert_eq!(
        TokenContract::initialize_token(&key(1), false).unwrap_err(),
        LedgerError::MissingSignature
    );
    let s = TokenContract::initialize_token(&key(1), true).unwrap();
    assert_eq!((s.mint_authority, s.decimals), (key(1), 9));
    assert_eq!((s.name.as_str(), s.symbol.as_str(), s.uri.as_str()), ("Gadder Gold", "GGT", "http://example.com/metadata"));
}

#[test]
fn transfer_checks_signatures_and_delegation() {
    let plain = token_account(None, 0);
    let t = TokenContract::transfer_tokens(&key(1), &plain, &key(2), &key(3), true, None, 50).unwrap();
    assert_eq!((t.from, t.to, t.authority, t.amount), (key(1), key(2), key(3), 50));
    assert_eq!(
        TokenContract::transfer_tokens(&key(1), &plain, &key(2), &key(3), false, None, 50),
        Err(LedgerError::MissingSignature)
    );
    let delegated = token_account(Some(key(9)), 40);
    assert!(TokenContract::transfer_tokens(&key(1), &delegated, &key(2), &key(3), false, Some((key(9), true)), 40).is_ok());
    assert_eq!(
        TokenContract::transfer_tokens(&key(1), &delegated, &key(2), &key(3), false, Some((key(9), true)), 41),
        Err(LedgerError::InsufficientFunds)
    );
    assert_eq!(
        TokenContract::transfer_tokens(&key(1), &delegated, &key(2), &key(3), true, Some((key(8), false)), 1),
        Err(LedgerError::InsufficientFunds)
    );
    assert_eq!(
        TokenContract::transfer_tokens(&key(1), &[0u8; 10], &key(2), &key(3), true, None, 1),
        Err(LedgerError::MalformedData)
    );
    assert_eq!(
        TokenContract::transfer_tokens(&key(1), &vec![0u8; 165], &key(2), &key(3), true, None, 1),
        Err(LedgerError::MalformedData)
    );
}

#[test]
fn check_transfer_decisions() {
    assert_eq!(check_transfer(true, None, None, 1), Err(LedgerError::MalformedData));
    assert_eq!(check_transfer(true, None, Some((None, 0)), 1), Ok(()));
    assert_eq!(check_transfer(false, Some((key(1), false)), Some((Some(key(1)), 5)), 1), Err(LedgerError::MissingSignature));
    assert_eq!(check_transfer(false, Some((key(1), true)), Some((Some(key(1)), 5)), 5), Ok(()));
    assert_eq!(check_transfer(false, Some((key(1), true)), Some((None, 5)), 5), Err(LedgerError::InsufficientFunds));
}
