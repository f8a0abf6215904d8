use gadder_gold_token::error::LedgerError;
use gadder_gold_token::governance_contract::{
    GovernanceContract, Proposal, Vote, PROPOSAL_LEN, VOTE_LEN,
};
use gadder_gold_token::pubkey::{admin_pubkey, governance_pubkey, Pubkey};
use gadder_gold_token::staking_contract::{Stake, STAKE_LEN};

fn key(b: u8) -> Pubkey {
    Pubkey::new_from_array([b; 32])
}

fn stake_record(amount: u64) -> Vec<u8> {
    let mut data = vec![0u8; STAKE_LEN];
    Stake { amount, lock_until: 0, is_initialized: true }.pack_into_slice(&mut data);
    data
}

#[test]
fn proposal_round_trip() {
    for d in ["", "Fund the bridge", "été ✓ 🚀"] {
        let p = Proposal {
            description: d.to_string(),
            proposer: key(4),
            active: true,
            timestamp: -42,
            is_initialized: true,
        };
        let mut buf = vec![0u8; PROPOSAL_LEN];
        p.pack_into_slice(&mut buf);
        assert_eq!(Proposal::unpack_from_slice(&buf), Ok(p));
    }
}

#[test]
fn proposal_layout() {
    let p = Proposal {
        description: "ab".to_string(),
        proposer: key(5),
        active: false,
        timestamp: 1,
        is_initialized: true,
    };
    let b = p.to_bytes();
    assert_eq!(b.len(), 48);
    assert_eq!(b[..6], [2, 0, 0, 0, b'a', b'b']);
    assert_eq!(b[6..38], [5u8; 32]);
    assert_eq!(b[38..], [0, 1, 0, 0, 0, 0, 0, 0, 0, 1]);
}

#[test]
fn proposal_decode_rejects_bad_lengths() {
    assert_eq!(Proposal::unpack_from_slice(&[0u8; 45]), Err(LedgerError::MalformedData));
    let mut b = vec![0u8; 60];
    b[0] = 15;
    assert_eq!(Proposal::unpack_from_slice(&b), Err(LedgerError::MalformedData));
    b[0] = 14;
    assert!(Proposal::unpack_from_slice(&b).is_ok());
    let mut big = vec![0u8; 400];
    big[0] = 255;
    assert_eq!(Proposal::unpack_from_slice(&big), Err(LedgerError::MalformedData));
    let mut bad = vec![0u8; 50];
    bad[0] = 1;
    bad[4] = 0xff;
    assert_eq!(Proposal::unpack_from_slice(&bad), Err(LedgerError::MalformedData));
}

#[test]
fn vote_round_trip() {
    let v = Vote { proposal: key(1), voter: key(2), vote: true, weight: 0xdead_beef, is_initialized: true };
    let mut buf = vec![0u8; VOTE_LEN];
    v.pack_into_slice(&mut buf);
    assert_eq!(buf[64], 1);
    assert_eq!(buf[65..73], 0xdead_beefu64.to_le_bytes());
    assert_eq!(Vote::unpack_from_slice(&buf), Ok(v));
    assert_eq!(Vote::unpack_from_slice(&buf[..VOTE_LEN - 1]), Err(LedgerError::MalformedData));
}

#[test]
fn execute_proposal_closes_once() {
    let mut data = vec![0u8; PROPOSAL_LEN];
    GovernanceContract::create_proposal(&mut data, &key(4), true, 100, "Raise rewards").unwrap();
    assert!(Proposal::unpack(&data).unwrap().active);
    assert_eq!(GovernanceContract::execute_proposal(&mut data, &admin_pubkey(), true), Ok(()));
    let p = Proposal::unpack(&data).unwrap();
    assert!(!p.active);
    assert_eq!(p.description, "Raise rewards");
    assert_eq!(p.timestamp, 100);
    assert_eq!(
        GovernanceContract::execute_proposal(&mut data, &governance_pubkey(), true),
        Err(LedgerError::InvalidState)
    );
}

#[test]
fn execute_proposal_requires_privileged_signer() {
    let mut data = vec![0u8; PROPOSAL_LEN];
    GovernanceContract::create_proposal(&mut data, &key(4), true, 100, "x").unwrap();
    let before = data.clone();
    assert_eq!(
        GovernanceContract::execute_proposal(&mut data, &key(4), true),
        Err(LedgerError::Unauthorized)
    );
    assert_eq!(
        GovernanceContract::execute_proposal(&mut data, &admin_pubkey(), false),
        Err(LedgerError::MissingSignature)
    );
    assert_eq!(data, before);
    let mut empty = vec![0u8; PROPOSAL_LEN];
    assert_eq!(
        GovernanceContract::execute_proposal(&mut empty, &admin_pubkey(), true),
        Err(LedgerError::InvalidState)
    );
}

#[test]
fn create_proposal_checks() {
    let mut data = vec![0u8; PROPOSAL_LEN];
    assert_eq!(
        GovernanceContract::create_proposal(&mut data, &key(4), false, 0, "x"),
        Err(LedgerError::MissingSignature)
    );
    let long = "a".repeat(255);
    assert_eq!(
        GovernanceContract::create_proposal(&mut data, &key(4), true, 0, &long),
        Err(LedgerError::MalformedData)
    );
    let fits = "a".repeat(254);
    assert_eq!(GovernanceContract::create_proposal(&mut data, &key(4), true, 0, &fits), Ok(()));
    assert_eq!(Proposal::unpack(&data).unwrap().description, fits);
}

#[test]
fn vote_weight_is_stake_and_closed_proposals_refuse_votes() {
    let mut proposal = vec![0u8; PROPOSAL_LEN];
    GovernanceContract::create_proposal(&mut proposal, &key(4), true, 0, "Adopt").unwrap();
    let staking = stake_record(200);
    let mut ballot = vec![0u8; VOTE_LEN];
    GovernanceContract::vote_on_proposal(&mut ballot, &key(6), true, &key(7), &proposal, &staking, true)
        .unwrap();
    let v = Vote::unpack_from_slice(&ballot).unwrap();
    assert_eq!(v.weight, 200);
    assert_eq!((v.proposal, v.voter, v.vote, v.is_initialized), (key(7), key(6), true, true));

    // A second ballot in another slot while the proposal is open.
    let mut second = vec![0u8; VOTE_LEN];
    GovernanceContract::vote_on_proposal(&mut second, &key(8), true, &key(7), &proposal, &[], false)
        .unwrap();
    assert_eq!(Vote::unpack_from_slice(&second).unwrap().weight, 0);

    GovernanceContract::execute_proposal(&mut proposal, &admin_pubkey(), true).unwrap();
    let mut late = vec![0u8; VOTE_LEN];
    assert_eq!(
        GovernanceContract::vote_on_proposal(&mut late, &key(6), true, &key(7), &proposal, &staking, true),
        Err(LedgerError::InvalidState)
    );
    assert_eq!(late, vec![0u8; VOTE_LEN]);
    // The ballot written before execution stays as it was.
    assert_eq!(Vote::unpack_from_slice(&ballot).unwrap().weight, 200);
}

#[test]
fn vote_requires_signature_and_room() {
    let mut proposal = vec![0u8; PROPOSAL_LEN];
    GovernanceContract::create_proposal(&mut proposal, &key(4), true, 0, "Adopt").unwrap();
    let mut ballot = vec![0u8; VOTE_LEN];
    assert_eq!(
        GovernanceContract::vote_on_proposal(&mut ballot, &key(6), false, &key(7), &proposal, &[], true),
        Err(LedgerError::MissingSignature)
    );
    let mut small = vec![0u8; VOTE_LEN - 1];
    assert_eq!(
        GovernanceContract::vote_on_proposal(&mut small, &key(6), true, &key(7), &proposal, &[], true),
        Err(LedgerError::MalformedData)
    );
}
