//! The governance engine: proposal and vote records, and the
//! propose / vote / execute operations, with vote weight taken from stake.

use vstd::prelude::*;
use vstd::slice::{slice_subrange, slice_to_vec};
use vstd::utf8::{decode_utf8, encode_utf8, valid_utf8};

use crate::bytes::{
    bool_byte, le_u32, le_u64, lemma_le_u32_round_trip, lemma_le_u64_round_trip, push_bool,
    push_key, push_slice, push_u32, push_u64, read_key, read_u32, read_u64, splice, u32_at, u64_at,
    write_at,
};
use crate::error::LedgerError;
use crate::pubkey::{is_privileged, is_privileged_key, Pubkey};
use crate::staking_contract::{load_stake, StakingContract};

verus! {

/// The largest size in bytes of an encoded proposal record.
pub const PROPOSAL_LEN: usize = 300;

/// Bytes of a proposal record besides its description.
pub const PROPOSAL_FIXED_LEN: usize = 46;

/// The longest description, in bytes, that fits a proposal record.
pub const MAX_DESCRIPTION_LEN: usize = 254;

/// Size in bytes of an encoded vote record.
pub const VOTE_LEN: usize = 74;

/// A governance proposal.
#[derive(Clone, Debug, PartialEq, Eq)]
pub struct Proposal {
    pub description: String,
    pub proposer: Pubkey,
    pub active: bool,
    pub timestamp: i64,
    pub is_initialized: bool,
}

/// The contents of a proposal, as values.
pub struct ProposalView {
    pub description: Seq<char>,
    pub proposer: Seq<u8>,
    pub active: bool,
    pub timestamp: i64,
    pub is_initialized: bool,
}

impl View for Proposal {
    type V = ProposalView;

    open spec fn view(&self) -> ProposalView {
        ProposalView {
            description: self.description@,
            proposer: self.proposer@,
            active: self.active,
            timestamp: self.timestamp,
            is_initialized: self.is_initialized,
        }
    }
}

/// One ballot cast on a proposal.
#[derive(Clone, Copy, Debug, PartialEq, Eq)]
pub struct Vote {
    pub proposal: Pubkey,
    pub voter: Pubkey,
    pub vote: bool,
    pub weight: u64,
    pub is_initialized: bool,
}

/// The contents of a vote, as values.
pub struct VoteView {
    pub proposal: Seq<u8>,
    pub voter: Seq<u8>,
    pub vote: bool,
    pub weight: u64,
    pub is_initialized: bool,
}

impl View for Vote {
    type V = VoteView;

    open spec fn view(&self) -> VoteView {
        VoteView {
            proposal: self.proposal@,
            voter: self.voter@,
            vote: self.vote,
            weight: self.weight,
            is_initialized: self.is_initialized,
        }
    }
}

/// The operations of governance.
pub struct GovernanceContract;

/// Whether the description of `p` fits a proposal record.
pub open spec fn description_fits(p: ProposalView) -> bool {
    encode_utf8(p.description).len() <= MAX_DESCRIPTION_LEN
}

/// The bytes a proposal record is stored as.
pub open spec fn proposal_bytes(p: ProposalView) -> Seq<u8> {
    let d = encode_utf8(p.description);
    le_u32(d.len() as u32) + d + p.proposer + seq![bool_byte(p.active)] + le_u64(
        p.timestamp as u64,
    ) + seq![bool_byte(p.is_initialized)]
}

/// The proposal record that `b` holds, if its declared description length
/// fits both the record and `b`, and the description is valid UTF-8.
pub open spec fn decode_proposal(b: Seq<u8>) -> Result<ProposalView, LedgerError> {
    if b.len() < PROPOSAL_FIXED_LEN {
        Err(LedgerError::MalformedData)
    } else {
        let n = u32_at(b, 0) as int;
        if n > MAX_DESCRIPTION_LEN || n + PROPOSAL_FIXED_LEN > b.len() {
            Err(LedgerError::MalformedData)
        } else if !valid_utf8(b.subrange(4, 4 + n)) {
            Err(LedgerError::MalformedData)
        } else {
            Ok(
                ProposalView {
                    description: decode_utf8(b.subrange(4, 4 + n)),
                    proposer: b.subrange(4 + n, 36 + n),
                    active: b[36 + n] != 0,
                    timestamp: u64_at(b, 37 + n) as i64,
                    is_initialized: b[45 + n] != 0,
                },
            )
        }
    }
}

/// The proposal record that `b` holds, if it is also initialized.
pub open spec fn load_proposal(b: Seq<u8>) -> Result<ProposalView, LedgerError> {
    match decode_proposal(b) {
        Ok(p) => if p.is_initialized {
            Ok(p)
        } else {
            Err(LedgerError::InvalidState)
        },
        Err(e) => Err(e),
    }
}

/// The bytes a vote record is stored as.
pub open spec fn vote_bytes(v: VoteView) -> Seq<u8> {
    let flag = bool_byte(v.is_initialized);
    v.proposal + v.voter + seq![bool_byte(v.vote)] + le_u64(v.weight) + seq![flag]
}

/// The vote record that `b` holds, if it is long enough.
pub open spec fn decode_vote(b: Seq<u8>) -> Result<VoteView, LedgerError> {
    if b.len() < VOTE_LEN {
        Err(LedgerError::MalformedData)
    } else {
        Ok(
            VoteView {
                proposal: b.subrange(0, 32),
                voter: b.subrange(32, 64),
                vote: b[64] != 0,
                weight: u64_at(b, 65),
                is_initialized: b[73] != 0,
            },
        )
    }
}

/// Relies on `String::from_utf8`: it accepts exactly the valid UTF-8 byte
/// sequences and returns the text they encode.
#[verifier::external_body]
fn string_from_utf8(b: Vec<u8>) -> (r: Option<String>)
    ensures
        r is Some <==> valid_utf8(b@),
        r is Some ==> r->Some_0@ == decode_utf8(b@),
{
    String::from_utf8(b).ok()
}

impl Proposal {
    /// Whether the record has been written by a proposal creation.
    pub fn is_initialized(&self) -> (r: bool)
        ensures
            r == self.is_initialized,
    {
        self.is_initialized
    }

    /// The record's bytes.
    pub fn to_bytes(&self) -> (r: Vec<u8>)
        requires
            description_fits(self@),
        ensures
            r@ == proposal_bytes(self@),
    {
        let d = self.description.as_str().as_bytes();
        let mut v: Vec<u8> = Vec::new();
        push_u32(&mut v, d.len() as u32);
        push_slice(&mut v, d);
        push_key(&mut v, &self.proposer);
        push_bool(&mut v, self.active);
        push_u64(&mut v, self.timestamp as u64);
        push_bool(&mut v, self.is_initialized);
        v
    }

    /// Writes the record at the start of `dst`.
    pub fn pack_into_slice(&self, dst: &mut Vec<u8>)
        requires
            description_fits(self@),
            old(dst)@.len() >= PROPOSAL_FIXED_LEN + encode_utf8(self.description@).len(),
        ensures
            final(dst)@ == splice(old(dst)@, 0, proposal_bytes(self@)),
    {
        let b = self.to_bytes();
        proof {
            lemma_le_u32_round_trip(encode_utf8(self.description@).len() as u32);
            lemma_le_u64_round_trip(self.timestamp as u64);
        }
        write_at(dst, 0, b.as_slice());
    }

    /// Reads a record from the start of `src`.
    pub fn unpack_from_slice(src: &[u8]) -> (r: Result<Proposal, LedgerError>)
        ensures
            match decode_proposal(src@) {
                Ok(p) => r is Ok && r->Ok_0@ == p,
                Err(e) => r == Err::<Proposal, LedgerError>(e),
            },
    {
        let len = src.len();
        if len < PROPOSAL_FIXED_LEN {
            return Err(LedgerError::MalformedData);
        }
        let n = read_u32(src, 0) as usize;
        if n > MAX_DESCRIPTION_LEN || n > len - PROPOSAL_FIXED_LEN {
            return Err(LedgerError::MalformedData);
        }
        let d = slice_to_vec(slice_subrange(src, 4, 4 + n));
        let description = match string_from_utf8(d) {
            Some(s) => s,
            None => return Err(LedgerError::MalformedData),
        };
        let proposer = read_key(src, 4 + n);
        let active = src[36 + n] != 0;
        let timestamp = read_u64(src, 37 + n) as i64;
        let is_initialized = src[45 + n] != 0;
        Ok(Proposal { description, proposer, active, timestamp, is_initialized })
    }

    /// Reads an initialized record from the start of `src`.
    pub fn unpack(src: &[u8]) -> (r: Result<Proposal, LedgerError>)
        ensures
            match load_proposal(src@) {
                Ok(p) => r is Ok && r->Ok_0@ == p,
                Err(e) => r == Err::<Proposal, LedgerError>(e),
            },
    {
        let p = Proposal::unpack_from_slice(src)?;
        if !p.is_initialized {
            return Err(LedgerError::InvalidState);
        }
        Ok(p)
    }
}

impl Vote {
    /// Whether the record has been written by a vote.
    pub fn is_initialized(&self) -> (r: bool)
        ensures
            r == self.is_initialized,
    {
        self.is_initialized
    }

    /// The record's bytes.
    pub fn to_bytes(&self) -> (r: Vec<u8>)
        ensures
            r@ == vote_bytes(self@),
    {
        let mut v: Vec<u8> = Vec::new();
        push_key(&mut v, &self.proposal);
        push_key(&mut v, &self.voter);
        push_bool(&mut v, self.vote);
        push_u64(&mut v, self.weight);
        push_bool(&mut v, self.is_initialized);
        v
    }

    /// Writes the record at the start of `dst`.
    pub fn pack_into_slice(&self, dst: &mut Vec<u8>)
        requires
            old(dst)@.len() >= VOTE_LEN,
        ensures
            final(dst)@ == splice(old(dst)@, 0, vote_bytes(self@)),
    {
        let b = self.to_bytes();
        proof {
            lemma_le_u64_round_trip(self.weight);
            assert(self.proposal@.len() == 32 && self.voter@.len() == 32);
            assert(vote_bytes(self@).len() == VOTE_LEN);
        }
        write_at(dst, 0, b.as_slice());
    }

    /// Reads a record from the start of `src`.
    pub fn unpack_from_slice(src: &[u8]) -> (r: Result<Vote, LedgerError>)
        ensures
            match decode_vote(src@) {
                Ok(v) => r is Ok && r->Ok_0@ == v,
                Err(e) => r == Err::<Vote, LedgerError>(e),
            },
    {
        if src.len() < VOTE_LEN {
            return Err(LedgerError::MalformedData);
        }
        let proposal = read_key(src, 0);
        let voter = read_key(src, 32);
        let vote = src[64] != 0;
        let weight = read_u64(src, 65);
        let is_initialized = src[73] != 0;
        Ok(Vote { proposal, voter, vote, weight, is_initialized })
    }
}

/// A proposal record whose description fits reads back as the proposal it
/// was written from.
pub proof fn lemma_proposal_round_trip(p: ProposalView, buf: Seq<u8>)
    requires
        description_fits(p),
        p.proposer.len() == 32,
        buf.len() >= PROPOSAL_FIXED_LEN + encode_utf8(p.description).len(),
    ensures
        decode_proposal(splice(buf, 0, proposal_bytes(p))) == Ok::<ProposalView, LedgerError>(p),
{
    let d = encode_utf8(p.description);
    let n = d.len() as int;
    lemma_le_u32_round_trip(n as u32);
    lemma_le_u64_round_trip(p.timestamp as u64);
    vstd::utf8::encode_utf8_valid_utf8(p.description);
    vstd::utf8::encode_utf8_decode_utf8(p.description);
    let pb = proposal_bytes(p);
    assert(pb.len() == n + PROPOSAL_FIXED_LEN);
    assert(pb[45 + n] == bool_byte(p.is_initialized));
    let b = splice(buf, 0, pb);
    assert(b.subrange(0, n + 46) =~= pb);
    assert(b.subrange(0, 4) =~= le_u32(n as u32));
    assert(b.subrange(4, 4 + n) =~= d);
    assert(b.subrange(4 + n, 36 + n) =~= p.proposer);
    assert(b[36 + n] == bool_byte(p.active));
    assert(b.subrange(37 + n, 45 + n) =~= le_u64(p.timestamp as u64));
    assert(b[45 + n] == bool_byte(p.is_initialized));
    let x = p.timestamp;
    assert((x as u64) as i64 == x) by (bit_vector);
}

/// A vote record reads back as the vote it was written from.
pub proof fn lemma_vote_round_trip(v: VoteView, buf: Seq<u8>)
    requires
        v.proposal.len() == 32,
        v.voter.len() == 32,
        buf.len() >= VOTE_LEN,
    ensures
        decode_vote(splice(buf, 0, vote_bytes(v))) == Ok::<VoteView, LedgerError>(v),
{
    lemma_le_u64_round_trip(v.weight);
    let vb = vote_bytes(v);
    assert(vb.len() == VOTE_LEN);
    assert(vb[73] == bool_byte(v.is_initialized));
    let b = splice(buf, 0, vb);
    assert(b.subrange(0, 74) =~= vb);
    assert(b.subrange(0, 32) =~= v.proposal);
    assert(b.subrange(32, 64) =~= v.voter);
    assert(b[64] == bool_byte(v.vote));
    assert(b.subrange(65, 73) =~= le_u64(v.weight));
    assert(b[73] == bool_byte(v.is_initialized));
}

/// The proposal that a creation writes.
pub open spec fn new_proposal(description: Seq<char>, proposer: Seq<u8>, now: i64) -> ProposalView {
    ProposalView { description, proposer, active: true, timestamp: now, is_initialized: true }
}

/// What executing the proposal stored in `data` yields: the closed proposal
/// to store back, or the reason it is refused.
pub open spec fn execute_result(authority: Seq<u8>, signed: bool, data: Seq<u8>) -> Result<
    ProposalView,
    LedgerError,
> {
    if !is_privileged(authority) {
        Err(LedgerError::Unauthorized)
    } else if !signed {
        Err(LedgerError::MissingSignature)
    } else {
        match load_proposal(data) {
            Err(e) => Err(e),
            Ok(p) => if !p.active {
                Err(LedgerError::InvalidState)
            } else {
                Ok(ProposalView { active: false, ..p })
            },
        }
    }
}

/// The vote weight that the stake record in `data` gives: its amount, or 0
/// when it cannot be read.
pub open spec fn stake_weight(data: Seq<u8>) -> u64 {
    match load_stake(data) {
        Ok(s) => s.amount,
        Err(_) => 0,
    }
}

/// What casting a vote yields: the vote to store, or the reason it is refused.
pub open spec fn vote_result(
    voter: Seq<u8>,
    signed: bool,
    proposal: Seq<u8>,
    proposal_data: Seq<u8>,
    staking_data: Seq<u8>,
    in_favor: bool,
    vote_len: nat,
) -> Result<VoteView, LedgerError> {
    if !signed {
        Err(LedgerError::MissingSignature)
    } else {
        match load_proposal(proposal_data) {
            Err(e) => Err(e),
            Ok(p) => if !p.active {
                Err(LedgerError::InvalidState)
            } else if vote_len < VOTE_LEN {
                Err(LedgerError::MalformedData)
            } else {
                Ok(
                    VoteView {
                        proposal,
                        voter,
                        vote: in_favor,
                        weight: stake_weight(staking_data),
                        is_initialized: true,
                    },
                )
            },
        }
    }
}

/// A decoded proposal fits the record it came from.
proof fn lemma_decoded_proposal_fits(b: Seq<u8>)
    requires
        decode_proposal(b) is Ok,
    ensures
        description_fits(decode_proposal(b)->Ok_0),
        decode_proposal(b)->Ok_0.proposer.len() == 32,
        encode_utf8(decode_proposal(b)->Ok_0.description).len() == u32_at(b, 0),
        b.len() >= PROPOSAL_FIXED_LEN + encode_utf8(decode_proposal(b)->Ok_0.description).len(),
{
    let n = u32_at(b, 0) as int;
    vstd::utf8::decode_utf8_encode_utf8(b.subrange(4, 4 + n));
}

impl GovernanceContract {
    /// Writes a new open proposal by `proposer` with `description`, made at
    /// `now`. The proposer must have signed, and the record must fit both the
    /// size cap and `proposal_data`.
    pub fn create_proposal(
        proposal_data: &mut Vec<u8>,
        proposer: &Pubkey,
        proposer_is_signer: bool,
        now: i64,
        description: &str,
    ) -> (r: Result<(), LedgerError>)
        ensures
            !proposer_is_signer ==> r == Err::<(), LedgerError>(LedgerError::MissingSignature),
            proposer_is_signer && !(encode_utf8(description@).len() <= MAX_DESCRIPTION_LEN
                && old(proposal_data)@.len() >= PROPOSAL_FIXED_LEN + encode_utf8(description@).len())
                ==> r == Err::<(), LedgerError>(LedgerError::MalformedData),
            proposer_is_signer && encode_utf8(description@).len() <= MAX_DESCRIPTION_LEN
                && old(proposal_data)@.len() >= PROPOSAL_FIXED_LEN + encode_utf8(description@).len()
                ==> r == Ok::<(), LedgerError>(()),
            r is Ok ==> final(proposal_data)@ == splice(
                old(proposal_data)@,
                0,
                proposal_bytes(new_proposal(description@, proposer@, now)),
            ),
            r is Err ==> final(proposal_data)@ == old(proposal_data)@,
    {
        if !proposer_is_signer {
            return Err(LedgerError::MissingSignature);
        }
        let n = description.as_bytes().len();
        if n > MAX_DESCRIPTION_LEN || proposal_data.len() < PROPOSAL_FIXED_LEN + n {
            return Err(LedgerError::MalformedData);
        }
        let proposal = Proposal {
            description: description.to_owned(),
            proposer: *proposer,
            active: true,
            timestamp: now,
            is_initialized: true,
        };
        proposal.pack_into_slice(proposal_data);
        Ok(())
    }

    /// Closes the open proposal in `proposal_data`. The authority must be
    /// the administrator or the governance identity, and must have signed.
    pub fn execute_proposal(
        proposal_data: &mut Vec<u8>,
        authority: &Pubkey,
        authority_is_signer: bool,
    ) -> (r: Result<(), LedgerError>)
        ensures
            match execute_result(authority@, authority_is_signer, old(proposal_data)@) {
                Ok(p) => r is Ok && final(proposal_data)@ == splice(
                    old(proposal_data)@,
                    0,
                    proposal_bytes(p),
                ),
                Err(e) => r == Err::<(), LedgerError>(e) && final(proposal_data)@ == old(
                    proposal_data,
                )@,
            },
    {
        if !is_privileged_key(authority) {
            return Err(LedgerError::Unauthorized);
        }
        if !authority_is_signer {
            return Err(LedgerError::MissingSignature);
        }
        let mut proposal = Proposal::unpack(proposal_data.as_slice())?;
        if !proposal.active {
            return Err(LedgerError::InvalidState);
        }
        proof {
            lemma_decoded_proposal_fits(proposal_data@);
        }
        proposal.active = false;
        proposal.pack_into_slice(proposal_data);
        Ok(())
    }

    /// Records `voter`'s ballot on the open proposal `proposal`, weighted by
    /// the amount staked in `staking_data` (0 when that record cannot be read).
    pub fn vote_on_proposal(
        vote_data: &mut Vec<u8>,
        voter: &Pubkey,
        voter_is_signer: bool,
        proposal: &Pubkey,
        proposal_data: &[u8],
        staking_data: &[u8],
        vote_in_favor: bool,
    ) -> (r: Result<(), LedgerError>)
        ensures
            match vote_result(
                voter@,
                voter_is_signer,
                proposal@,
                proposal_data@,
                staking_data@,
                vote_in_favor,
                old(vote_data)@.len(),
            ) {
                Ok(v) => r is Ok && final(vote_data)@ == splice(old(vote_data)@, 0, vote_bytes(v)),
                Err(e) => r == Err::<(), LedgerError>(e) && final(vote_data)@ == old(vote_data)@,
            },
    {
        if !voter_is_signer {
            return Err(LedgerError::MissingSignature);
        }
        let p = Proposal::unpack(proposal_data)?;
        if !p.active {
            return Err(LedgerError::InvalidState);
        }
        if vote_data.len() < VOTE_LEN {
            return Err(LedgerError::MalformedData);
        }
        let staking = StakingContract::new();
        let weight = match staking.get_staked_amount(staking_data) {
            Ok(a) => a,
            Err(_) => 0,
        };
        let vote = Vote {
            proposal: *proposal,
            voter: *voter,
            vote: vote_in_favor,
            weight,
            is_initialized: true,
        };
        vote.pack_into_slice(vote_data);
        Ok(())
    }
}

/// A proposal that has just been executed cannot be executed again.
pub proof fn lemma_execute_once(authority: Seq<u8>, signed: bool, data: Seq<u8>)
    requires
        execute_result(authority, signed, data) is Ok,
    ensures
        execute_result(
            authority,
            signed,
            splice(data, 0, proposal_bytes(execute_result(authority, signed, data)->Ok_0)),
        ) == Err::<ProposalView, LedgerError>(LedgerError::InvalidState),
{
    let p = execute_result(authority, signed, data)->Ok_0;
    lemma_decoded_proposal_fits(data);
    lemma_proposal_round_trip(p, data);
}

} // verus!
