//! The bridge engine: locking value for another chain and releasing it on
//! this one. Both are single authorized transfers; the cross-chain leg is
//! driven by a relayer outside the ledger.

use vstd::prelude::*;

use crate::error::LedgerError;
use crate::pubkey::Pubkey;
use crate::transfer::{Asset, Transfer};

verus! {

/// The bridge operations.
pub struct CrossChainBridge;

/// An accepted lock: the movement into the bridge pool, and the chain it is
/// bound for, which a relayer watching the ledger acts on.
#[derive(Clone, Debug)]
pub struct BridgeLock {
    pub transfer: Transfer,
    pub target_chain: String,
}

/// An accepted release: the movement out of the bridge pool, and the address
/// on the other chain it answers.
#[derive(Clone, Debug)]
pub struct BridgeRelease {
    pub transfer: Transfer,
    pub target_chain_address: String,
}

impl CrossChainBridge {
    /// Locks `amount` from `sender` into the bridge pool for `target_chain`.
    /// The sender must have signed.
    pub fn lock_tokens_for_bridge(
        sender: &Pubkey,
        sender_is_signer: bool,
        bridge: &Pubkey,
        amount: u64,
        target_chain: &str,
    ) -> (r: Result<BridgeLock, LedgerError>)
        ensures
            !sender_is_signer ==> r is Err && r->Err_0 == LedgerError::MissingSignature,
            sender_is_signer ==> r is Ok && r->Ok_0.transfer == (Transfer {
                asset: Asset::Native,
                from: *sender,
                to: *bridge,
                authority: *sender,
                amount,
            }) && r->Ok_0.target_chain@ == target_chain@,
    {
        if !sender_is_signer {
            return Err(LedgerError::MissingSignature);
        }
        let transfer = Transfer {
            asset: Asset::Native,
            from: *sender,
            to: *bridge,
            authority: *sender,
            amount,
        };
        Ok(BridgeLock { transfer, target_chain: target_chain.to_owned() })
    }

    /// Releases `amount` from the bridge pool to `recipient`.
    ///
    /// The attestation is accepted but not checked: the caller stands as the
    /// trusted authority for the release.
    pub fn release_tokens_on_target_chain(
        bridge: &Pubkey,
        recipient: &Pubkey,
        amount: u64,
        target_chain_address: &str,
        _attestation: &[u8],
    ) -> (r: BridgeRelease)
        ensures
            r.transfer == (Transfer {
                asset: Asset::Native,
                from: *bridge,
                to: *recipient,
                authority: *bridge,
                amount,
            }),
            r.target_chain_address@ == target_chain_address@,
    {
        let transfer = Transfer {
            asset: Asset::Native,
            from: *bridge,
            to: *recipient,
            authority: *bridge,
            amount,
        };
        BridgeRelease { transfer, target_chain_address: target_chain_address.to_owned() }
    }
}

} // verus!
