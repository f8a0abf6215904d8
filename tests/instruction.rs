use gadder_gold_token::error::LedgerError;
use gadder_gold_token::instruction::{decode_instruction, parse_amount, LedgerInstruction};

fn payload(tag: u8, words: &[u64], tail: &[u8]) -> Vec<u8> {
    let mut v = vec![tag];
    for w in words {
        v.extend_from_slice(&w.to_le_bytes());
    }
    v.extend_from_slice(tail);
    v
}

#[test]
fn parse_amount_reads_little_endian() {
    assert_eq!(parse_amount(&[1, 2, 0, 0, 0, 0, 0, 0, 99]), Ok(0x0201));
    assert_eq!(parse_amount(&[1, 2, 3]), Err(LedgerError::InvalidInstruction));
}

#[test]
fn decodes_each_operation() {
    assert_eq!(decode_instruction(&[0]), Ok(LedgerInstruction::InitializeToken));
    assert_eq!(
        decode_instruction(&payload(1, &[500], &[])),
        Ok(LedgerInstruction::TransferTokens { amount: 500 })
    );
    assert_eq!(
        decode_instruction(&payload(2, &[7], &[])),
        Ok(LedgerInstruction::BurnTokens { amount: 7 })
    );
    assert_eq!(
        decode_instruction(&payload(3, &[1000, 30], &[])),
        Ok(LedgerInstruction::StakeTokens { amount: 1000, lock_period_in_days: 30 })
    );
    assert_eq!(
        decode_instruction(&payload(4, &[500], &[])),
        Ok(LedgerInstruction::UnstakeTokens { amount: 500 })
    );
    assert_eq!(
        decode_instruction(&payload(5, &[], "Raise rewards".as_bytes())),
        Ok(LedgerInstruction::CreateProposal { description: "Raise rewards".to_string() })
    );
    assert_eq!(
        decode_instruction(&payload(6, &[3], &[])),
        Ok(LedgerInstruction::ExecuteProposal { proposal_id: 3 })
    );
    assert_eq!(
        decode_instruction(&payload(7, &[3], &[1])),
        Ok(LedgerInstruction::VoteOnProposal { proposal_id: 3, vote_in_favor: true })
    );
    assert_eq!(
        decode_instruction(&payload(7, &[3], &[2])),
        Ok(LedgerInstruction::VoteOnProposal { proposal_id: 3, vote_in_favor: false })
    );
    assert_eq!(
        decode_instruction(&payload(7, &[3], &[])),
        Ok(LedgerInstruction::VoteOnProposal { proposal_id: 3, vote_in_favor: false })
    );
    assert_eq!(
        decode_instruction(&payload(8, &[500], "Ethereum".as_bytes())),
        Ok(LedgerInstruction::LockTokensForBridge { amount: 500, target_chain: "Ethereum".to_string() })
    );
    assert_eq!(
        decode_instruction(&payload(9, &[500], "TargetChainAddress123".as_bytes())),
        Ok(LedgerInstruction::ReleaseTokensOnTargetChain {
            amount: 500,
            target_chain_address: "TargetChainAddress123".to_string()
        })
    );
    assert_eq!(
        decode_instruction(&payload(10, &[], "Test requirements".as_bytes())),
        Ok(LedgerInstruction::MatchConsultant { requirements: "Test requirements".to_string() })
    );
}

#[test]
fn invalid_text_is_replaced() {
    assert_eq!(
        decode_instruction(&[5, b'a', 0xff]),
        Ok(LedgerInstruction::CreateProposal { description: "a\u{FFFD}".to_string() })
    );
}

#[test]
fn rejects_bad_payloads() {
    assert_eq!(decode_instruction(&[]), Err(LedgerError::InvalidInstruction));
    assert_eq!(decode_instruction(&[11]), Err(LedgerError::InvalidInstruction));
    assert_eq!(decode_instruction(&[255, 0, 0]), Err(LedgerError::InvalidInstruction));
    assert_eq!(decode_instruction(&[1, 0, 0]), Err(LedgerError::InvalidInstruction));
    assert_eq!(decode_instruction(&payload(3, &[1], &[0, 0])), Err(LedgerError::InvalidInstruction));
    assert_eq!(decode_instruction(&[9]), Err(LedgerError::InvalidInstruction));
}

#[test]
fn error_messages_are_distinct() {
    let all = [
        LedgerError::MissingSignature,
        LedgerError::Unauthorized,
        LedgerError::MalformedData,
        LedgerError::InsufficientFunds,
        LedgerError::InvalidState,
        LedgerError::TransferFailed,
        LedgerError::InvalidAccount,
        LedgerError::InvalidInstruction,
    ];
    for (i, a) in all.iter().enumerate() {
        for b in &all[i + 1..] {
            assert_ne!(a.message(), b.message());
        }
    }
}
