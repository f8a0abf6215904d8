//! Instruction payloads: a one-byte tag followed by the operation's
//! arguments, decoded once into a typed request.

use vstd::prelude::*;
use vstd::slice::slice_subrange;
use vstd::utf8::{decode_utf8, valid_utf8};

use crate::bytes::{read_u64, u64_at};
use crate::error::LedgerError;

verus! {

/// The highest tag that names an operation.
pub const LAST_TAG: u8 = 10;

/// A decoded request for one operation of the ledger.
#[derive(Clone, Debug, PartialEq, Eq)]
pub enum LedgerInstruction {
    InitializeToken,
    TransferTokens { amount: u64 },
    BurnTokens { amount: u64 },
    StakeTokens { amount: u64, lock_period_in_days: u64 },
    UnstakeTokens { amount: u64 },
    CreateProposal { description: String },
    ExecuteProposal { proposal_id: u64 },
    VoteOnProposal { proposal_id: u64, vote_in_favor: bool },
    LockTokensForBridge { amount: u64, target_chain: String },
    ReleaseTokensOnTargetChain { amount: u64, target_chain_address: String },
    MatchConsultant { requirements: String },
}

/// Whether the payload after a tag is long enough for the operation it names.
pub open spec fn payload_fits(tag: u8, n: int) -> bool {
    if tag == 3 {
        n >= 16
    } else if tag == 0 || tag == 5 || tag == 10 {
        true
    } else {
        n >= 8
    }
}

/// Whether `data` is a payload that decodes.
pub open spec fn well_formed(data: Seq<u8>) -> bool {
    data.len() > 0 && data[0] <= LAST_TAG && payload_fits(data[0], data.len() - 1)
}

/// Whether `s` is the text of the bytes `b`, where they are valid UTF-8.
pub open spec fn text_of(s: Seq<char>, b: Seq<u8>) -> bool {
    valid_utf8(b) ==> s == decode_utf8(b)
}

/// Whether `ins` is what the payload `data` asks for.
pub open spec fn describes(ins: LedgerInstruction, data: Seq<u8>) -> bool {
    let tail = data.subrange(9, data.len() as int);
    let rest = data.subrange(1, data.len() as int);
    match ins {
        LedgerInstruction::InitializeToken => data[0] == 0,
        LedgerInstruction::TransferTokens { amount } => data[0] == 1 && amount == u64_at(data, 1),
        LedgerInstruction::BurnTokens { amount } => data[0] == 2 && amount == u64_at(data, 1),
        LedgerInstruction::StakeTokens { amount, lock_period_in_days } => data[0] == 3 && amount
            == u64_at(data, 1) && lock_period_in_days == u64_at(data, 9),
        LedgerInstruction::UnstakeTokens { amount } => data[0] == 4 && amount == u64_at(data, 1),
        LedgerInstruction::CreateProposal { description } => data[0] == 5 && text_of(
            description@,
            rest,
        ),
        LedgerInstruction::ExecuteProposal { proposal_id } => data[0] == 6 && proposal_id
            == u64_at(data, 1),
        LedgerInstruction::VoteOnProposal { proposal_id, vote_in_favor } => data[0] == 7
            && proposal_id == u64_at(data, 1) && vote_in_favor == (data.len() > 9 && data[9]
            == 1),
        LedgerInstruction::LockTokensForBridge { amount, target_chain } => data[0] == 8 && amount
            == u64_at(data, 1) && text_of(target_chain@, tail),
        LedgerInstruction::ReleaseTokensOnTargetChain { amount, target_chain_address } => data[0]
            == 9 && amount == u64_at(data, 1) && text_of(target_chain_address@, tail),
        LedgerInstruction::MatchConsultant { requirements } => data[0] == 10 && text_of(
            requirements@,
            rest,
        ),
    }
}

/// Relies on `String::from_utf8_lossy`: bytes that are valid UTF-8 come back
/// as the text they encode.
#[verifier::external_body]
fn text_lossy(b: &[u8]) -> (r: String)
    ensures
        valid_utf8(b@) ==> r@ == decode_utf8(b@),
{
    String::from_utf8_lossy(b).into_owned()
}

/// Reads a little-endian amount from the first eight bytes of `data`.
pub fn parse_amount(data: &[u8]) -> (r: Result<u64, LedgerError>)
    ensures
        data@.len() < 8 ==> r == Err::<u64, LedgerError>(LedgerError::InvalidInstruction),
        data@.len() >= 8 ==> r == Ok::<u64, LedgerError>(u64_at(data@, 0)),
{
    if data.len() < 8 {
        return Err(LedgerError::InvalidInstruction);
    }
    Ok(read_u64(data, 0))
}

/// Decodes an instruction payload: a tag byte, then the operation's amounts
/// as little-endian 64-bit values and its text as trailing bytes.
pub fn decode_instruction(data: &[u8]) -> (r: Result<LedgerInstruction, LedgerError>)
    ensures
        r is Ok <==> well_formed(data@),
        r is Ok ==> describes(r->Ok_0, data@),
        r is Err ==> r->Err_0 == LedgerError::InvalidInstruction,
{
    let len = data.len();
    if len == 0 {
        return Err(LedgerError::InvalidInstruction);
    }
    let tag = data[0];
    let rest = slice_subrange(data, 1, len);
    proof {
        assert forall|k: int| 0 <= k <= rest@.len() - 8 implies u64_at(rest@, k) == u64_at(
            data@,
            k + 1,
        ) by {
            assert(rest@.subrange(k, k + 8) =~= data@.subrange(k + 1, k + 9));
        }
    }
    if tag == 0 {
        Ok(LedgerInstruction::InitializeToken)
    } else if tag == 5 {
        Ok(LedgerInstruction::CreateProposal { description: text_lossy(rest) })
    } else if tag == 10 {
        Ok(LedgerInstruction::MatchConsultant { requirements: text_lossy(rest) })
    } else if tag > LAST_TAG {
        Err(LedgerError::InvalidInstruction)
    } else {
        let amount = parse_amount(rest)?;
        let after = slice_subrange(rest, 8, len - 1);
        assert(after@ =~= data@.subrange(9, data@.len() as int));
        if tag == 1 {
            Ok(LedgerInstruction::TransferTokens { amount })
        } else if tag == 2 {
            Ok(LedgerInstruction::BurnTokens { amount })
        } else if tag == 3 {
            let lock_period_in_days = parse_amount(after)?;
            assert(after@.subrange(0, 8) =~= data@.subrange(9, 17));
            Ok(LedgerInstruction::StakeTokens { amount, lock_period_in_days })
        } else if tag == 4 {
            Ok(LedgerInstruction::UnstakeTokens { amount })
        } else if tag == 6 {
            Ok(LedgerInstruction::ExecuteProposal { proposal_id: amount })
        } else if tag == 7 {
            let vote_in_favor = len > 9 && data[9] == 1;
            Ok(LedgerInstruction::VoteOnProposal { proposal_id: amount, vote_in_favor })
        } else if tag == 8 {
            Ok(LedgerInstruction::LockTokensForBridge { amount, target_chain: text_lossy(after) })
        } else {
            Ok(
                LedgerInstruction::ReleaseTokensOnTargetChain {
                    amount,
                    target_chain_address: text_lossy(after),
                },
            )
        }
    }
}

} // verus!
