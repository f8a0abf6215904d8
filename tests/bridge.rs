use gadder_gold_token::cross_chain_bridge_contract::CrossChainBridge;
use gadder_gold_token::error::LedgerError;
use gadder_gold_token::pubkey::Pubkey;
use gadder_gold_token::transfer::Asset;

fn key(b: u8) -> Pubkey {
    Pubkey::new_from_array([b; 32])
}

#[test]
fn test_lock_tokens_for_bridge() {
    let res = CrossChainBridge::lock_tokens_for_bridge(&key(1), true, &key(2), 500, "Ethereum");
    assert!(res.is_ok());
    let lock = res.unwrap();
    assert_eq!(lock.target_chain, "Ethereum");
    assert_eq!(lock.transfer.asset, Asset::Native);
    assert_eq!((lock.transfer.from, lock.transfer.to, lock.transfer.amount), (key(1), key(2), 500));
}

#[test]
fn lock_requires_sender_signature() {
    let res = CrossChainBridge::lock_tokens_for_bridge(&key(1), false, &key(2), 500, "Ethereum");
    assert_eq!(res.unwrap_err(), LedgerError::MissingSignature);
}

#[test]
fn test_release_tokens_on_target_chain() {
    let r = CrossChainBridge::release_tokens_on_target_chain(
        &key(2),
        &key(3),
        500,
        "TargetChainAddress123",
        &[0u8; 64],
    );
    assert_eq!((r.transfer.from, r.transfer.to, r.transfer.amount), (key(2), key(3), 500));
    assert_eq!(r.target_chain_address, "TargetChainAddress123");
}
