//! Token administration: mint setup, delegated transfers and privileged burns.
//! The token program itself carries out each movement; these functions decide
//! whether it is allowed and what is asked of the program.

use spl_token::solana_program::program_option::COption;
use spl_token::solana_program::program_pack::Pack;
use vstd::prelude::*;

use crate::error::LedgerError;
use crate::pubkey::{is_privileged, is_privileged_key, Pubkey};
use crate::transfer::{Asset, Transfer};

verus! {

/// Display name of the token.
pub const TOKEN_NAME: &'static str = "Gadder Gold";

/// Ticker symbol of the token.
pub const TOKEN_SYMBOL: &'static str = "GGT";

/// Where the token's metadata document lives.
pub const TOKEN_URI: &'static str = "http://example.com/metadata";

/// Decimal places of the token.
pub const TOKEN_DECIMALS: u8 = 9;

/// The token operations.
pub struct TokenContract;

/// What the host must set up for a new token: the mint and its metadata.
#[derive(Clone, Debug)]
pub struct TokenSetup {
    pub mint_authority: Pubkey,
    pub decimals: u8,
    pub name: String,
    pub symbol: String,
    pub uri: String,
}

/// A removal of tokens from an account and from the mint's supply.
#[derive(Clone, Copy, Debug, PartialEq, Eq)]
pub struct Burn {
    pub account: Pubkey,
    pub mint: Pubkey,
    pub authority: Pubkey,
    pub amount: u64,
}

/// An optional identity, as values.
pub open spec fn key_option_view(k: Option<Pubkey>) -> Option<Seq<u8>> {
    match k {
        Some(p) => Some(p@),
        None => None,
    }
}

/// The delegate and the delegated amount that token-account bytes record,
/// when they hold an initialized token account.
pub uninterp spec fn token_account_delegation(data: Seq<u8>) -> Option<(Option<Seq<u8>>, u64)>;

/// Relies on `spl_token::state::Account::unpack`: it reads the account's
/// fields, and fails on bytes that are not an initialized token account.
#[verifier::external_body]
fn read_delegation(data: &[u8]) -> (r: Option<(Option<Pubkey>, u64)>)
    ensures
        match r {
            Some((d, amount)) => token_account_delegation(data@) == Some(
                (key_option_view(d), amount),
            ),
            None => token_account_delegation(data@) is None,
        },
{
    match spl_token::state::Account::unpack(data) {
        Ok(a) => {
            let d = match a.delegate {
                COption::Some(k) => Some(Pubkey { bytes: k.to_bytes() }),
                COption::None => None,
            };
            Some((d, a.delegated_amount))
        },
        Err(_) => None,
    }
}

/// Whether a transfer of `amount` may go ahead, given whether the owner
/// signed, the delegate account named (with whether it signed), and the
/// delegation the source account records (`None` when it cannot be read).
pub open spec fn transfer_check(
    owner_signed: bool,
    delegate: Option<(Seq<u8>, bool)>,
    delegation: Option<(Option<Seq<u8>>, u64)>,
    amount: u64,
) -> Result<(), LedgerError> {
    if !owner_signed && !(delegate is Some && delegate->Some_0.1) {
        Err(LedgerError::MissingSignature)
    } else {
        match delegation {
            None => Err(LedgerError::MalformedData),
            Some((recorded, allowance)) => match delegate {
                Some((k, _)) => if recorded != Some(k) || allowance < amount {
                    Err(LedgerError::InsufficientFunds)
                } else {
                    Ok(())
                },
                None => Ok(()),
            },
        }
    }
}

/// A delegate account, as values.
pub open spec fn delegate_view(d: Option<(Pubkey, bool)>) -> Option<(Seq<u8>, bool)> {
    match d {
        Some((k, s)) => Some((k@, s)),
        None => None,
    }
}

/// Decides whether a transfer may go ahead, from the signatures, the delegate
/// account named, and the delegation recorded by the source account.
pub fn check_transfer(
    owner_signed: bool,
    delegate: Option<(Pubkey, bool)>,
    delegation: Option<(Option<Pubkey>, u64)>,
    amount: u64,
) -> (r: Result<(), LedgerError>)
    ensures
        r == transfer_check(
            owner_signed,
            delegate_view(delegate),
            match delegation {
                Some((d, a)) => Some((key_option_view(d), a)),
                None => None,
            },
            amount,
        ),
{
    let delegate_signed = match delegate {
        Some((_, s)) => s,
        None => false,
    };
    if !owner_signed && !delegate_signed {
        return Err(LedgerError::MissingSignature);
    }
    match delegation {
        None => Err(LedgerError::MalformedData),
        Some((recorded, allowance)) => match delegate {
            Some((k, _)) => {
                let matches = match recorded {
                    Some(r) => r.same_as(&k),
                    None => false,
                };
                if !matches || allowance < amount {
                    Err(LedgerError::InsufficientFunds)
                } else {
                    Ok(())
                }
            },
            None => Ok(()),
        },
    }
}

impl TokenContract {
    /// The mint and metadata to create for the token, with `authority` as
    /// mint authority. The authority must have signed.
    pub fn initialize_token(authority: &Pubkey, authority_is_signer: bool) -> (r: Result<
        TokenSetup,
        LedgerError,
    >)
        ensures
            !authority_is_signer ==> r is Err && r->Err_0 == LedgerError::MissingSignature,
            authority_is_signer ==> r is Ok && r->Ok_0.mint_authority == *authority
                && r->Ok_0.decimals == TOKEN_DECIMALS && r->Ok_0.name@ == TOKEN_NAME@
                && r->Ok_0.symbol@ == TOKEN_SYMBOL@ && r->Ok_0.uri@ == TOKEN_URI@,
    {
        if !authority_is_signer {
            return Err(LedgerError::MissingSignature);
        }
        Ok(
            TokenSetup {
                mint_authority: *authority,
                decimals: TOKEN_DECIMALS,
                name: TOKEN_NAME.to_owned(),
                symbol: TOKEN_SYMBOL.to_owned(),
                uri: TOKEN_URI.to_owned(),
            },
        )
    }

    /// Moves `amount` tokens from `source` to `dest` on the owner's authority.
    /// The owner or the named delegate must have signed; when a delegate is
    /// named, the source must record it as delegate for at least `amount`.
    pub fn transfer_tokens(
        source: &Pubkey,
        source_data: &[u8],
        dest: &Pubkey,
        owner: &Pubkey,
        owner_is_signer: bool,
        delegate: Option<(Pubkey, bool)>,
        amount: u64,
    ) -> (r: Result<Transfer, LedgerError>)
        ensures
            match transfer_check(
                owner_is_signer,
                delegate_view(delegate),
                token_account_delegation(source_data@),
                amount,
            ) {
                Ok(_) => r == Ok::<Transfer, LedgerError>(
                    Transfer {
                        asset: Asset::Token,
                        from: *source,
                        to: *dest,
                        authority: *owner,
                        amount,
                    },
                ),
                Err(e) => r == Err::<Transfer, LedgerError>(e),
            },
    {
        let delegation = read_delegation(source_data);
        check_transfer(owner_is_signer, delegate, delegation, amount)?;
        Ok(Transfer { asset: Asset::Token, from: *source, to: *dest, authority: *owner, amount })
    }

    /// Burns `amount` tokens of `account`. The authority must be the
    /// administrator or the governance identity, and must have signed.
    pub fn burn_tokens(
        account: &Pubkey,
        mint: &Pubkey,
        authority: &Pubkey,
        authority_is_signer: bool,
        amount: u64,
    ) -> (r: Result<Burn, LedgerError>)
        ensures
            !is_privileged(authority@) ==> r == Err::<Burn, LedgerError>(LedgerError::Unauthorized),
            is_privileged(authority@) && !authority_is_signer ==> r == Err::<Burn, LedgerError>(
                LedgerError::MissingSignature,
            ),
            is_privileged(authority@) && authority_is_signer ==> r == Ok::<Burn, LedgerError>(
                Burn { account: *account, mint: *mint, authority: *authority, amount },
            ),
    {
        if !is_privileged_key(authority) {
            return Err(LedgerError::Unauthorized);
        }
        if !authority_is_signer {
            return Err(LedgerError::MissingSignature);
        }
        Ok(Burn { account: *account, mint: *mint, authority: *authority, amount })
    }
}

} // verus!
