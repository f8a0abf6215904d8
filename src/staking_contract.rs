//! The staking engine: stake records, time-locked withdrawal penalties and
//! the pool-level redistribution of collected penalties.

use vstd::prelude::*;

use crate::bytes::{
    bool_byte, le_u64, lemma_le_u64_round_trip, push_bool, push_u64, read_u64, splice, u64_at,
    write_at,
};
use crate::error::LedgerError;
use crate::pubkey::Pubkey;
use crate::transfer::{is_token_program, is_token_program_id, Asset, Transfer};

verus! {

/// Size in bytes of an encoded stake record.
pub const STAKE_LEN: usize = 17;

/// Seconds in one day of lock time.
pub const SECONDS_PER_DAY: i64 = 86400;

/// The reward pool a fresh engine starts with.
pub const INITIAL_REWARD_POOL: u64 = 15_000_000;

/// Running economic totals shared by the staking operations of one engine.
#[derive(Clone, Copy, Debug, PartialEq, Eq, Structural)]
pub struct StakingContract {
    pub total_staked: u64,
    pub reward_pool: u64,
    pub penalty_pool: u64,
}

/// One staking position.
#[derive(Clone, Copy, Debug, PartialEq, Eq, Structural)]
pub struct Stake {
    pub amount: u64,
    pub lock_until: i64,
    pub is_initialized: bool,
}

/// The accounts that a stake or unstake names.
#[derive(Clone, Copy, Debug, PartialEq, Eq)]
pub struct StakeAccounts {
    /// The staker's token account.
    pub staker: Pubkey,
    /// The pool's token account.
    pub pool: Pubkey,
    /// The identity that authorizes the movement.
    pub authority: Pubkey,
    /// Whether `authority` signed this invocation.
    pub authority_is_signer: bool,
    /// The program that is to carry out the token transfer.
    pub token_program: Pubkey,
}

/// What an accepted unstake hands back: the payout and how it was reduced.
#[derive(Clone, Copy, Debug, PartialEq, Eq)]
pub struct Withdrawal {
    /// The movement of the payout from the pool to the staker.
    pub transfer: Transfer,
    /// The penalty rate applied, in percent.
    pub penalty_percent: u64,
    /// The part of the requested amount kept back as penalty.
    pub penalty_amount: u64,
}

/// The bytes a stake record is stored as.
pub open spec fn stake_bytes(s: Stake) -> Seq<u8> {
    le_u64(s.amount) + le_u64(s.lock_until as u64) + seq![bool_byte(s.is_initialized)]
}

/// The stake record that `b` holds, if it is long enough.
pub open spec fn decode_stake(b: Seq<u8>) -> Result<Stake, LedgerError> {
    if b.len() < STAKE_LEN {
        Err(LedgerError::MalformedData)
    } else {
        Ok(
            Stake {
                amount: u64_at(b, 0),
                lock_until: u64_at(b, 8) as i64,
                is_initialized: b[16] != 0,
            },
        )
    }
}

/// The stake record that `b` holds, if it is also initialized.
pub open spec fn load_stake(b: Seq<u8>) -> Result<Stake, LedgerError> {
    match decode_stake(b) {
        Ok(s) => if s.is_initialized {
            Ok(s)
        } else {
            Err(LedgerError::InvalidState)
        },
        Err(e) => Err(e),
    }
}

/// Whole days of lock left at `now`, when the lock has not yet expired.
pub open spec fn remaining_lock_days(now: i64, lock_until: i64) -> int {
    (lock_until - now) / (SECONDS_PER_DAY as int)
}

/// The early-withdrawal penalty rate, in percent, at `now`.
pub open spec fn penalty_rate(now: i64, lock_until: i64) -> u64 {
    if now < lock_until {
        let r = remaining_lock_days(now, lock_until);
        if r > 90 {
            10
        } else if r > 30 {
            7
        } else {
            5
        }
    } else {
        0
    }
}

/// The part of `amount` kept back at a rate of `pct` percent, rounded down.
pub open spec fn penalty_of(amount: u64, pct: u64) -> int {
    (amount * pct) / 100
}

/// The aggregate after moving every collected penalty into the reward pool.
pub open spec fn redistributed(c: StakingContract) -> StakingContract {
    if c.total_staked == 0 || c.penalty_pool == 0 {
        c
    } else {
        StakingContract {
            reward_pool: (c.reward_pool + c.penalty_pool) as u64,
            penalty_pool: 0,
            ..c
        }
    }
}

/// Whether the redistribution of `c` stays within 64 bits.
pub open spec fn can_redistribute(c: StakingContract) -> bool {
    c.reward_pool + c.penalty_pool <= u64::MAX
}

/// The authorization outcome of a stake or unstake, given whether the named
/// token program is the expected one.
pub open spec fn token_op_check(signed: bool, token_program_ok: bool) -> Result<(), LedgerError> {
    if !signed {
        Err(LedgerError::MissingSignature)
    } else if !token_program_ok {
        Err(LedgerError::InvalidAccount)
    } else {
        Ok(())
    }
}

/// Checks the signature and the token program of a stake or unstake.
pub fn check_token_op(signed: bool, token_program_ok: bool) -> (r: Result<(), LedgerError>)
    ensures
        r == token_op_check(signed, token_program_ok),
{
    if !signed {
        Err(LedgerError::MissingSignature)
    } else if !token_program_ok {
        Err(LedgerError::InvalidAccount)
    } else {
        Ok(())
    }
}

impl Stake {
    /// Whether the record has been written by a stake.
    pub fn is_initialized(&self) -> (r: bool)
        ensures
            r == self.is_initialized,
    {
        self.is_initialized
    }

    /// The record's bytes.
    pub fn to_bytes(&self) -> (r: Vec<u8>)
        ensures
            r@ == stake_bytes(*self),
    {
        let mut v: Vec<u8> = Vec::new();
        push_u64(&mut v, self.amount);
        push_u64(&mut v, self.lock_until as u64);
        push_bool(&mut v, self.is_initialized);
        v
    }

    /// Writes the record at the start of `dst`.
    pub fn pack_into_slice(&self, dst: &mut Vec<u8>)
        requires
            old(dst)@.len() >= STAKE_LEN,
        ensures
            final(dst)@ == splice(old(dst)@, 0, stake_bytes(*self)),
    {
        let b = self.to_bytes();
        proof {
            lemma_le_u64_round_trip(self.amount);
            lemma_le_u64_round_trip(self.lock_until as u64);
        }
        write_at(dst, 0, b.as_slice());
    }

    /// Reads a record from the start of `src`.
    pub fn unpack_from_slice(src: &[u8]) -> (r: Result<Stake, LedgerError>)
        ensures
            r == decode_stake(src@),
    {
        if src.len() < STAKE_LEN {
            return Err(LedgerError::MalformedData);
        }
        let amount = read_u64(src, 0);
        let lock_until = read_u64(src, 8) as i64;
        let is_initialized = src[16] != 0;
        Ok(Stake { amount, lock_until, is_initialized })
    }

    /// Reads an initialized record from the start of `src`.
    pub fn unpack(src: &[u8]) -> (r: Result<Stake, LedgerError>)
        ensures
            r == load_stake(src@),
    {
        let s = Stake::unpack_from_slice(src)?;
        if !s.is_initialized {
            return Err(LedgerError::InvalidState);
        }
        Ok(s)
    }
}

/// A stake record read back from the bytes it was written as is the record.
pub proof fn lemma_stake_round_trip(s: Stake, buf: Seq<u8>)
    requires
        buf.len() >= STAKE_LEN,
    ensures
        decode_stake(splice(buf, 0, stake_bytes(s))) == Ok::<Stake, LedgerError>(s),
{
    lemma_le_u64_round_trip(s.amount);
    lemma_le_u64_round_trip(s.lock_until as u64);
    let b = splice(buf, 0, stake_bytes(s));
    assert(b.subrange(0, 8) =~= le_u64(s.amount));
    assert(b.subrange(8, 16) =~= le_u64(s.lock_until as u64));
    let x = s.lock_until;
    assert((x as u64) as i64 == x) by (bit_vector);
    assert(b[16] == bool_byte(s.is_initialized));
}

/// The record left after `amount` is withdrawn from `s`.
pub open spec fn withdrawn(s: Stake, amount: u64) -> Stake {
    Stake { amount: (s.amount - amount) as u64, ..s }
}

/// What an unstake of `amount` at `now` returns, given the signature, whether
/// the named token program is the expected one, and the stored record bytes.
pub open spec fn unstake_result(
    accounts: StakeAccounts,
    token_program_ok: bool,
    data: Seq<u8>,
    now: i64,
    amount: u64,
) -> Result<Withdrawal, LedgerError> {
    match token_op_check(accounts.authority_is_signer, token_program_ok) {
        Err(e) => Err(e),
        Ok(_) => match load_stake(data) {
            Err(e) => Err(e),
            Ok(s) => if s.amount < amount {
                Err(LedgerError::InsufficientFunds)
            } else {
                let pct = penalty_rate(now, s.lock_until);
                let pen = penalty_of(amount, pct);
                Ok(
                    Withdrawal {
                        transfer: Transfer {
                            asset: Asset::Token,
                            from: accounts.pool,
                            to: accounts.staker,
                            authority: accounts.authority,
                            amount: (amount - pen) as u64,
                        },
                        penalty_percent: pct,
                        penalty_amount: pen as u64,
                    },
                )
            },
        },
    }
}

/// The aggregate after an accepted unstake of `amount` with `penalty` kept back.
pub open spec fn after_unstake(c: StakingContract, amount: u64, penalty: u64) -> StakingContract {
    StakingContract {
        total_staked: if c.total_staked >= amount {
            (c.total_staked - amount) as u64
        } else {
            0
        },
        penalty_pool: (c.penalty_pool + penalty) as u64,
        ..c
    }
}

/// The early-withdrawal penalty rate, in percent, of a lock ending at
/// `lock_until`, at `now`: 10 with more than 90 whole days left, 7 with more
/// than 30, 5 with fewer, and 0 once the lock has expired.
pub fn penalty_percent(now: i64, lock_until: i64) -> (r: u64)
    ensures
        r == penalty_rate(now, lock_until),
{
    if now < lock_until {
        let left = (lock_until as i128 - now as i128) as u64;
        let days = left / (SECONDS_PER_DAY as u64);
        if days > 90 {
            10
        } else if days > 30 {
            7
        } else {
            5
        }
    } else {
        0
    }
}

/// The part of `amount` kept back at a rate of `pct` percent, rounded down.
pub fn penalty_amount(amount: u64, pct: u64) -> (r: u64)
    requires
        pct <= 100,
    ensures
        r == penalty_of(amount, pct),
        r <= amount,
{
    assert((amount as u128) * (pct as u128) <= 100 * 0xffff_ffff_ffff_ffffu128) by (nonlinear_arith)
        requires
            pct <= 100,
    ;
    let p = (amount as u128) * (pct as u128) / 100;
    assert(p <= amount) by (nonlinear_arith)
        requires
            p == (amount as u128) * (pct as u128) / 100,
            pct <= 100,
    ;
    p as u64
}

impl StakingContract {
    /// A fresh engine: nothing staked, no penalties, the seed reward pool.
    pub fn new() -> (r: Self)
        ensures
            r == (StakingContract {
                total_staked: 0,
                reward_pool: INITIAL_REWARD_POOL,
                penalty_pool: 0,
            }),
    {
        StakingContract { total_staked: 0, reward_pool: INITIAL_REWARD_POOL, penalty_pool: 0 }
    }

    /// Opens a position of `amount` locked for `lock_period_in_days` days from
    /// `now`, overwriting whatever the record held. On success the record is
    /// written and the transfer of `amount` from the staker to the pool is
    /// returned; `finish_stake` books it once the host has carried it out.
    pub fn stake_tokens(
        &self,
        staking_data: &mut Vec<u8>,
        accounts: &StakeAccounts,
        now: i64,
        amount: u64,
        lock_period_in_days: u64,
    ) -> (r: Result<Transfer, LedgerError>)
        requires
            now + lock_period_in_days * SECONDS_PER_DAY <= i64::MAX,
        ensures
            !accounts.authority_is_signer ==> r == Err::<Transfer, LedgerError>(
                LedgerError::MissingSignature,
            ),
            accounts.authority_is_signer && !is_token_program_id(accounts.token_program@) ==> r
                == Err::<Transfer, LedgerError>(LedgerError::InvalidAccount),
            accounts.authority_is_signer && is_token_program_id(accounts.token_program@) && old(staking_data)@.len() < STAKE_LEN ==> r == Err::<Transfer, LedgerError>(LedgerError::MalformedData),
            accounts.authority_is_signer && is_token_program_id(accounts.token_program@) && old(staking_data)@.len() >= STAKE_LEN ==> r == Ok::<Transfer, LedgerError>(
                Transfer {
                    asset: Asset::Token,
                    from: accounts.staker,
                    to: accounts.pool,
                    authority: accounts.authority,
                    amount,
                },
            ),
            r is Ok ==> final(staking_data)@ == splice(
                old(staking_data)@,
                0,
                stake_bytes(
                    Stake {
                        amount,
                        lock_until: (now + lock_period_in_days * SECONDS_PER_DAY) as i64,
                        is_initialized: true,
                    },
                ),
            ),
            r is Err ==> final(staking_data)@ == old(staking_data)@,
    {
        check_token_op(accounts.authority_is_signer, is_token_program(&accounts.token_program))?;
        if staking_data.len() < STAKE_LEN {
            return Err(LedgerError::MalformedData);
        }
        let lock_until = (now as i128 + (lock_period_in_days as i128) * (SECONDS_PER_DAY as i128)) as i64;
        let stake = Stake { amount, lock_until, is_initialized: true };
        stake.pack_into_slice(staking_data);
        Ok(
            Transfer {
                asset: Asset::Token,
                from: accounts.staker,
                to: accounts.pool,
                authority: accounts.authority,
                amount,
            },
        )
    }

    /// Books a stake of `amount` once its transfer has been attempted: the
    /// total grows by `amount` if the transfer went through.
    pub fn finish_stake(&mut self, amount: u64, transferred: bool) -> (r: Result<(), LedgerError>)
        requires
            transferred ==> old(self).total_staked + amount <= u64::MAX,
        ensures
            transferred ==> r == Ok::<(), LedgerError>(()) && *final(self) == (StakingContract {
                total_staked: (old(self).total_staked + amount) as u64,
                ..*old(self)
            }),
            !transferred ==> r == Err::<(), LedgerError>(LedgerError::TransferFailed) && *final(self) == *old(self),
    {
        if !transferred {
            return Err(LedgerError::TransferFailed);
        }
        self.total_staked = self.total_staked + amount;
        Ok(())
    }

    /// Withdraws `amount` from the position at `now`. A withdrawal before the
    /// lock expires is penalized by `penalty_percent`; the full `amount` leaves
    /// the record, the penalty goes to the penalty pool, and the rest is
    /// returned as a transfer from the pool to the staker. `finish_unstake`
    /// completes the operation once the host has attempted that transfer.
    pub fn unstake_tokens(
        &mut self,
        staking_data: &mut Vec<u8>,
        accounts: &StakeAccounts,
        now: i64,
        amount: u64,
    ) -> (r: Result<Withdrawal, LedgerError>)
        requires
            old(self).penalty_pool + amount <= u64::MAX,
        ensures
            r == unstake_result(
                *accounts,
                is_token_program_id(accounts.token_program@),
                old(staking_data)@,
                now,
                amount,
            ),
            r is Err ==> *final(self) == *old(self) && final(staking_data)@ == old(staking_data)@,
            r is Ok ==> final(staking_data)@ == splice(
                old(staking_data)@,
                0,
                stake_bytes(withdrawn(load_stake(old(staking_data)@)->Ok_0, amount)),
            ) && *final(self) == after_unstake(*old(self), amount, r->Ok_0.penalty_amount),
    {
        check_token_op(accounts.authority_is_signer, is_token_program(&accounts.token_program))?;
        let mut stake = Stake::unpack(staking_data.as_slice())?;
        if stake.amount < amount {
            return Err(LedgerError::InsufficientFunds);
        }
        let pct = penalty_percent(now, stake.lock_until);
        let penalty = penalty_amount(amount, pct);
        let payout = amount.saturating_sub(penalty);
        stake.amount = stake.amount - amount;
        stake.pack_into_slice(staking_data);
        self.total_staked = self.total_staked.saturating_sub(amount);
        self.penalty_pool = self.penalty_pool + penalty;
        Ok(
            Withdrawal {
                transfer: Transfer {
                    asset: Asset::Token,
                    from: accounts.pool,
                    to: accounts.staker,
                    authority: accounts.authority,
                    amount: payout,
                },
                penalty_percent: pct,
                penalty_amount: penalty,
            },
        )
    }

    /// Completes an unstake once its payout transfer has been attempted: the
    /// collected penalties are redistributed if the transfer went through.
    pub fn finish_unstake(&mut self, transferred: bool) -> (r: Result<(), LedgerError>)
        requires
            transferred ==> can_redistribute(*old(self)),
        ensures
            transferred ==> r == Ok::<(), LedgerError>(()) && *final(self) == redistributed(
                *old(self),
            ),
            !transferred ==> r == Err::<(), LedgerError>(LedgerError::TransferFailed) && *final(self) == *old(self),
    {
        if !transferred {
            return Err(LedgerError::TransferFailed);
        }
        self.redistribute_penalty();
        Ok(())
    }

    /// Moves the whole penalty pool into the reward pool, unless nothing is
    /// staked or no penalty has been collected.
    pub fn redistribute_penalty(&mut self)
        requires
            can_redistribute(*old(self)),
        ensures
            *final(self) == redistributed(*old(self)),
    {
        if self.total_staked == 0 || self.penalty_pool == 0 {
            return;
        }
        self.reward_pool = self.reward_pool + self.penalty_pool;
        self.penalty_pool = 0;
    }

    /// The amount held by the initialized position in `staking_data`.
    pub fn get_staked_amount(&self, staking_data: &[u8]) -> (r: Result<u64, LedgerError>)
        ensures
            r == (match load_stake(staking_data@) {
                Ok(s) => Ok::<u64, LedgerError>(s.amount),
                Err(e) => Err(e),
            }),
    {
        let s = Stake::unpack(staking_data)?;
        Ok(s.amount)
    }
}

/// Withdrawing more than an authorized, readable position holds is refused
/// with `InsufficientFunds`; `unstake_tokens` then leaves the record and the
/// aggregate as they were.
pub proof fn lemma_unstake_beyond_balance(
    accounts: StakeAccounts,
    token_program_ok: bool,
    data: Seq<u8>,
    now: i64,
    amount: u64,
)
    requires
        accounts.authority_is_signer,
        token_program_ok,
        load_stake(data) is Ok,
        amount > load_stake(data)->Ok_0.amount,
    ensures
        unstake_result(accounts, token_program_ok, data, now, amount) == Err::<
            Withdrawal,
            LedgerError,
        >(LedgerError::InsufficientFunds),
{
}

/// Redistributing twice in a row changes nothing the second time.
pub proof fn lemma_redistribute_idempotent(c: StakingContract)
    requires
        can_redistribute(c),
    ensures
        can_redistribute(redistributed(c)),
        redistributed(redistributed(c)) == redistributed(c),
        redistributed(c).penalty_pool == 0 || redistributed(c) == c,
{
}

} // verus!
