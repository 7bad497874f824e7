//! Unstaking: the asset is unlocked, the points it earned are claimed, and
//! its stake record ends.

use crate::accrual::{award_points, elapsed_between, freeze_elapsed, is_freeze_elapsed,
    lemma_freeze_boundary, lemma_parts_of_days_count, points_awarded, whole_days};
use crate::address::Address;
use crate::error::StakeError;
use crate::protocol::{Signal, Turn};
use crate::registry::RegistryCall;
use crate::state::{CollectionInfo, RegistryAccount, StakeAccount, StakeConfig, UserAccount};
use vstd::prelude::*;

verus! {

/// What unstaking settles to: the points paid out and the records as they
/// stand after it.
#[derive(Clone, Copy, Debug, PartialEq, Eq)]
pub struct UnstakeSettlement {
    /// Points earned by the stake that ends.
    pub points_awarded: u64,
    /// The staker's ledger with the points added and one asset fewer.
    pub user_account: UserAccount,
    /// The collection's counter with one asset fewer.
    pub collection_info: CollectionInfo,
}

/// How far an unstaking has come.
#[derive(Clone, Copy, Debug, PartialEq, Eq)]
pub enum UnstakeProgress {
    /// Nothing is under way.
    Idle,
    /// The registry was asked to unfreeze the asset and has not answered.
    Unlocking(UnstakeSettlement),
    /// The asset is unfrozen; the registry was asked to take the lock off
    /// and has not answered.
    Removing(UnstakeSettlement),
}

/// The accounts of one unstaking, and how far it has come.
#[derive(Clone, Copy, Debug, PartialEq, Eq)]
pub struct Unstake {
    /// The caller.
    pub user: Address,
    /// The asset to unstake.
    pub asset: RegistryAccount,
    /// The collection of the asset.
    pub collection: RegistryAccount,
    /// The counter of the collection.
    pub collection_info: CollectionInfo,
    /// The stake record of the asset, if there is one.
    pub stake_account: Option<StakeAccount>,
    /// The configuration.
    pub config: StakeConfig,
    /// The caller's ledger.
    pub user_account: UserAccount,
    /// The asset registry.
    pub core_program: Address,
    /// How far the operation has come.
    pub progress: UnstakeProgress,
}

impl Unstake {
    /// Why unstaking may not begin when the clock reads `now`, if anything
    /// stands against it. The first of these that fails decides: a stake
    /// record exists; the caller is its owner; the asset's account belongs
    /// to the registry; the collection's account belongs to the registry
    /// and is the one that the counter counts; the stake has lasted the
    /// freeze period, in whole days; the points and both counters stay in
    /// range.
    pub open spec fn refusal(self, now: i64) -> Option<StakeError> {
        match self.stake_account {
            None => Some(StakeError::RecordNotFound),
            Some(record) => {
                if record.owner != self.user {
                    Some(StakeError::InvalidOwnership)
                } else if self.asset.program != self.core_program {
                    Some(StakeError::InvalidOwnership)
                } else if self.collection.program != self.core_program
                    || self.collection_info.collection != self.collection.key {
                    Some(StakeError::InvalidCollectionMembership)
                } else if !freeze_elapsed(now - record.staked_at, self.config.freeze_period as int) {
                    Some(StakeError::FreezePeriodNotElapsed)
                } else if self.user_account.points + points_awarded(
                    now - record.staked_at,
                    self.config.points_per_stake as int,
                ) > u64::MAX || self.user_account.amount_staked == 0
                    || self.collection_info.staked_count == 0 {
                    Some(StakeError::ArithmeticOverflow)
                } else {
                    None
                }
            },
        }
    }

    /// What unstaking at `now` settles to where nothing stands against it:
    /// the points earned from staking to `now` go to the ledger, and the
    /// ledger and the counter each count one asset fewer.
    pub open spec fn settlement(self, now: i64) -> UnstakeSettlement {
        let award = points_awarded(
            now - self.stake_account->0.staked_at,
            self.config.points_per_stake as int,
        );
        UnstakeSettlement {
            points_awarded: award as u64,
            user_account: UserAccount {
                points: (self.user_account.points + award) as u64,
                amount_staked: (self.user_account.amount_staked - 1) as u32,
            },
            collection_info: CollectionInfo {
                collection: self.collection_info.collection,
                staked_count: (self.collection_info.staked_count - 1) as u32,
            },
        }
    }

    /// The first call: unfreeze the asset, signed by the stake record,
    /// which is the lock's authority since staking.
    pub open spec fn unlock_call(self) -> RegistryCall {
        RegistryCall::SetLockState {
            asset: self.asset.key,
            collection: self.collection.key,
            signer: self.stake_account->0.address,
            frozen: false,
        }
    }

    /// The second call: take the lock off, signed by the caller, who holds
    /// the asset.
    pub open spec fn remove_call(self) -> RegistryCall {
        RegistryCall::RemoveLock {
            asset: self.asset.key,
            collection: self.collection.key,
            signer: self.user,
        }
    }

    /// Whether the signal is the one that the operation awaits: the clock
    /// while nothing is under way, the registry's reply while a call is
    /// out.
    pub open spec fn awaits(self, signal: Signal) -> bool {
        match self.progress {
            UnstakeProgress::Idle => signal is Clock,
            UnstakeProgress::Unlocking(_) | UnstakeProgress::Removing(_) => signal is Registry,
        }
    }

    /// The answer to a signal.
    pub open spec fn turn(self, signal: Signal) -> Turn<UnstakeSettlement> {
        match (self.progress, signal) {
            (UnstakeProgress::Idle, Signal::Clock { now }) => match self.refusal(now) {
                Some(error) => Turn::Failed(error),
                None => Turn::Call(self.unlock_call()),
            },
            (UnstakeProgress::Unlocking(_), Signal::Registry { accepted }) => if accepted {
                Turn::Call(self.remove_call())
            } else {
                Turn::Failed(StakeError::RegistryCallFailed)
            },
            (UnstakeProgress::Removing(settlement), Signal::Registry { accepted }) => if accepted {
                Turn::Settled(settlement)
            } else {
                Turn::Failed(StakeError::RegistryCallFailed)
            },
            _ => Turn::Ignored,
        }
    }

    /// The accounts and the progress after a signal. The records change in
    /// one place only: where the registry has accepted the second call.
    pub open spec fn next(self, signal: Signal) -> Unstake {
        match (self.progress, signal) {
            (UnstakeProgress::Idle, Signal::Clock { now }) => match self.refusal(now) {
                Some(_) => self,
                None => Unstake {
                    progress: UnstakeProgress::Unlocking(self.settlement(now)),
                    ..self
                },
            },
            (UnstakeProgress::Unlocking(settlement), Signal::Registry { accepted }) => Unstake {
                progress: if accepted {
                    UnstakeProgress::Removing(settlement)
                } else {
                    UnstakeProgress::Idle
                },
                ..self
            },
            (UnstakeProgress::Removing(settlement), Signal::Registry { accepted }) => if accepted {
                Unstake {
                    user_account: settlement.user_account,
                    collection_info: settlement.collection_info,
                    stake_account: None,
                    progress: UnstakeProgress::Idle,
                    ..self
                }
            } else {
                Unstake { progress: UnstakeProgress::Idle, ..self }
            },
            _ => self,
        }
    }

    /// The accounts of an unstaking that has not begun.
    pub fn new(
        user: Address,
        asset: RegistryAccount,
        collection: RegistryAccount,
        collection_info: CollectionInfo,
        stake_account: Option<StakeAccount>,
        config: StakeConfig,
        user_account: UserAccount,
        core_program: Address,
    ) -> (accounts: Unstake)
        ensures
            accounts == (Unstake {
                user,
                asset,
                collection,
                collection_info,
                stake_account,
                config,
                user_account,
                core_program,
                progress: UnstakeProgress::Idle,
            }),
    {
        Unstake {
            user,
            asset,
            collection,
            collection_info,
            stake_account,
            config,
            user_account,
            core_program,
            progress: UnstakeProgress::Idle,
        }
    }

    /// Says whether unstaking may begin at `now`, and what it settles to if
    /// it may. Nothing is changed.
    pub fn assess(&self, now: i64) -> (outcome: Result<UnstakeSettlement, StakeError>)
        ensures
            outcome == match self.refusal(now) {
                Some(error) => Err::<UnstakeSettlement, StakeError>(error),
                None => Ok(self.settlement(now)),
            },
    {
        let record = match self.stake_account {
            None => {
                return Err(StakeError::RecordNotFound);
            },
            Some(record) => record,
        };
        if !record.owner.same(&self.user) {
            return Err(StakeError::InvalidOwnership);
        }
        if !self.asset.program.same(&self.core_program) {
            return Err(StakeError::InvalidOwnership);
        }
        if !self.collection.program.same(&self.core_program) || !self.collection_info.collection.same(
            &self.collection.key,
        ) {
            return Err(StakeError::InvalidCollectionMembership);
        }
        let elapsed = match elapsed_between(record.staked_at, now) {
            None => {
                return Err(StakeError::FreezePeriodNotElapsed);
            },
            Some(elapsed) => elapsed,
        };
        if !is_freeze_elapsed(elapsed, self.config.freeze_period) {
            return Err(StakeError::FreezePeriodNotElapsed);
        }
        let award: u128 = award_points(elapsed, self.config.points_per_stake);
        if award > (u64::MAX - self.user_account.points) as u128 {
            return Err(StakeError::ArithmeticOverflow);
        }
        if self.user_account.amount_staked == 0 || self.collection_info.staked_count == 0 {
            return Err(StakeError::ArithmeticOverflow);
        }
        Ok(
            UnstakeSettlement {
                points_awarded: award as u64,
                user_account: UserAccount {
                    points: self.user_account.points + award as u64,
                    amount_staked: self.user_account.amount_staked - 1,
                },
                collection_info: CollectionInfo {
                    collection: self.collection_info.collection,
                    staked_count: self.collection_info.staked_count - 1,
                },
            },
        )
    }

    /// Takes the operation one step on. Invoked with the clock, it tries
    /// the accounts and hands out the call that unfreezes the asset; told
    /// that the registry accepted it, it hands out the call that takes the
    /// lock off; told that the registry accepted that too, it claims the
    /// points, counts the asset off and ends the stake record. A call that
    /// the registry turned down ends the operation with the records
    /// untouched.
    pub fn unstake(&mut self, signal: Signal) -> (turn: Turn<UnstakeSettlement>)
        ensures
            turn == old(self).turn(signal),
            *final(self) == old(self).next(signal),
    {
        match (self.progress, signal) {
            (UnstakeProgress::Idle, Signal::Clock { now }) => match self.assess(now) {
                Err(error) => Turn::Failed(error),
                Ok(settlement) => {
                    let record = self.stake_account.unwrap();
                    self.progress = UnstakeProgress::Unlocking(settlement);
                    Turn::Call(
                        RegistryCall::SetLockState {
                            asset: self.asset.key,
                            collection: self.collection.key,
                            signer: record.address,
                            frozen: false,
                        },
                    )
                },
            },
            (UnstakeProgress::Unlocking(settlement), Signal::Registry { accepted }) => {
                if accepted {
                    self.progress = UnstakeProgress::Removing(settlement);
                    Turn::Call(
                        RegistryCall::RemoveLock {
                            asset: self.asset.key,
                            collection: self.collection.key,
                            signer: self.user,
                        },
                    )
                } else {
                    self.progress = UnstakeProgress::Idle;
                    Turn::Failed(StakeError::RegistryCallFailed)
                }
            },
            (UnstakeProgress::Removing(settlement), Signal::Registry { accepted }) => {
                self.progress = UnstakeProgress::Idle;
                if accepted {
                    self.user_account = settlement.user_account;
                    self.collection_info = settlement.collection_info;
                    self.stake_account = None;
                    Turn::Settled(settlement)
                } else {
                    Turn::Failed(StakeError::RegistryCallFailed)
                }
            },
            _ => Turn::Ignored,
        }
    }
}

impl Unstake {
    /// The accounts and the progress after a sequence of signals, taken in
    /// order.
    pub open spec fn run(self, signals: Seq<Signal>) -> Unstake
        decreases signals.len(),
    {
        if signals.len() == 0 {
            self
        } else {
            self.run(signals.drop_last()).next(signals.last())
        }
    }

    /// The calls handed out over a sequence of signals, in the order in
    /// which they were handed out.
    pub open spec fn calls(self, signals: Seq<Signal>) -> Seq<RegistryCall>
        decreases signals.len(),
    {
        if signals.len() == 0 {
            Seq::empty()
        } else {
            self.calls(signals.drop_last()) + self.run(signals.drop_last()).turn(
                signals.last(),
            ).calls()
        }
    }

    /// Whether a settlement that is under way is one that the records give
    /// rise to. It is so from the first signal on, as long as the records
    /// are changed by [`Unstake::unstake`] alone.
    pub open spec fn coherent(self) -> bool {
        match self.progress {
            UnstakeProgress::Idle => true,
            UnstakeProgress::Unlocking(settlement) | UnstakeProgress::Removing(settlement) => {
                exists|now: i64| self.refusal(now) is None && settlement == self.settlement(now)
            },
        }
    }

    /// What the calls handed out so far say of the progress: while the
    /// unlock is awaited it is the last call, and while the removal is
    /// awaited the last two calls are the unlock and the removal.
    spec fn calls_match_progress(self, calls: Seq<RegistryCall>) -> bool {
        match self.progress {
            UnstakeProgress::Idle => true,
            UnstakeProgress::Unlocking(_) => calls.len() >= 1 && calls.last() == self.unlock_call(),
            UnstakeProgress::Removing(_) => calls.len() >= 2 && calls[calls.len() - 2]
                == self.unlock_call() && calls.last() == self.remove_call(),
        }
    }

    /// Whether every removal among the calls comes directly after the
    /// unlock of the same asset.
    spec fn removals_follow_unlocks(self, calls: Seq<RegistryCall>) -> bool {
        forall|i: int|
            0 <= i < calls.len() && #[trigger] calls[i] is RemoveLock ==> i >= 1 && calls[i - 1]
                == self.unlock_call() && calls[i] == self.remove_call()
    }

    proof fn lemma_trace(self, signals: Seq<Signal>)
        requires
            self.progress is Idle,
        ensures
            self.run(signals).coherent(),
            self.run(signals).calls_match_progress(self.calls(signals)),
            self.removals_follow_unlocks(self.calls(signals)),
            self.run(signals).user == self.user,
            self.run(signals).asset == self.asset,
            self.run(signals).collection == self.collection,
            self.run(signals).config == self.config,
            self.run(signals).core_program == self.core_program,
            self.run(signals).stake_account is Some ==> self.run(signals).stake_account
                == self.stake_account,
            self.run(signals).user_account.points >= self.user_account.points,
        decreases signals.len(),
    {
        if signals.len() > 0 {
            let before = self.run(signals.drop_last());
            let earlier = self.calls(signals.drop_last());
            let signal = signals.last();
            self.lemma_trace(signals.drop_last());
            lemma_coherence_is_kept(before, signal);
            let after = before.next(signal);
            let calls = self.calls(signals);
            assert(calls == earlier + before.turn(signal).calls());
            assert(after.unlock_call() == self.unlock_call() || after.stake_account is None);
            assert(after.remove_call() == self.remove_call());
            assert forall|i: int| 0 <= i < calls.len() && #[trigger] calls[i] is RemoveLock implies i
                >= 1 && calls[i - 1] == self.unlock_call() && calls[i] == self.remove_call() by {
                if i < earlier.len() {
                    assert(calls[i] == earlier[i]);
                    assert(calls[i - 1] == earlier[i - 1]);
                } else {
                    assert(before.progress is Unlocking);
                    assert(calls[i - 1] == earlier.last());
                }
            }
        }
    }
}

/// Accounts that have not begun are coherent, and every signal keeps
/// coherent accounts coherent and their points from decreasing.
pub proof fn lemma_coherence_is_kept(accounts: Unstake, signal: Signal)
    requires
        accounts.coherent(),
    ensures
        accounts.next(signal).coherent(),
        accounts.next(signal).user_account.points >= accounts.user_account.points,
        accounts.progress is Idle ==> accounts.coherent(),
{
    let after = accounts.next(signal);
    match (accounts.progress, signal) {
        (UnstakeProgress::Idle, Signal::Clock { now }) => {
            if accounts.refusal(now) is None {
                assert(after.refusal(now) is None);
                assert(after.settlement(now) == accounts.settlement(now));
            }
        },
        (UnstakeProgress::Unlocking(settlement), Signal::Registry { accepted }) => {
            if accepted {
                let now = choose|now: i64|
                    accounts.refusal(now) is None && settlement == accounts.settlement(now);
                assert(after.refusal(now) is None && settlement == after.settlement(now));
            }
        },
        (UnstakeProgress::Removing(settlement), Signal::Registry { accepted }) => {
            if accepted {
                let now = choose|now: i64|
                    accounts.refusal(now) is None && settlement == accounts.settlement(now);
                lemma_parts_of_days_count(
                    now - accounts.stake_account->0.staked_at,
                    accounts.config.points_per_stake as int,
                );
            }
        },
        _ => {},
    }
}

/// A signal is ignored exactly if it is not the one awaited. After a call
/// is handed out the registry's reply is awaited, and after any other
/// answer to an awaited signal nothing is under way. So whoever starts with
/// the clock and answers each call with the registry's reply is never
/// ignored, and is done after three signals at most.
pub proof fn lemma_awaited_signals_are_answered(accounts: Unstake, signal: Signal)
    ensures
        accounts.turn(signal) is Ignored <==> !accounts.awaits(signal),
        accounts.turn(signal) is Call ==> accounts.next(signal).awaits(
            Signal::Registry { accepted: true },
        ) && accounts.next(signal).awaits(Signal::Registry { accepted: false }),
        accounts.turn(signal) is Settled || accounts.turn(signal) is Failed ==> accounts.next(
            signal,
        ).progress is Idle,
        accounts.turn(signal) is Call ==> !(accounts.progress is Removing) && !(accounts.next(
            signal,
        ).progress is Idle),
{
}

/// Whoever is not the owner of the stake record is refused for that reason,
/// whatever else holds, and the accounts stay as they were.
pub proof fn lemma_stranger_is_refused(accounts: Unstake, now: i64)
    requires
        accounts.progress is Idle,
        accounts.stake_account is Some,
        accounts.stake_account->0.owner != accounts.user,
    ensures
        accounts.turn(Signal::Clock { now }) == Turn::<UnstakeSettlement>::Failed(
            StakeError::InvalidOwnership,
        ),
        accounts.next(Signal::Clock { now }) == accounts,
{
}

/// Where the accounts are in order, the freeze period alone decides up to
/// the first second of the day on which its whole days end. Before that
/// second, one second before it too, unstaking is refused as too early and
/// nothing changes. At that second and after it, it is not refused as too
/// early, and it hands out the unlock unless a total would leave its range.
pub proof fn lemma_freeze_boundary_decides(accounts: Unstake, now: i64)
    requires
        accounts.progress is Idle,
        accounts.stake_account is Some,
        accounts.stake_account->0.owner == accounts.user,
        accounts.asset.program == accounts.core_program,
        accounts.collection.program == accounts.core_program,
        accounts.collection_info.collection == accounts.collection.key,
    ensures
        ({
            let elapsed = now - accounts.stake_account->0.staked_at;
            let boundary = whole_days(accounts.config.freeze_period as int) * 86_400;
            let turn = accounts.turn(Signal::Clock { now });
            &&& elapsed < boundary ==> turn == Turn::<UnstakeSettlement>::Failed(
                StakeError::FreezePeriodNotElapsed,
            ) && accounts.next(Signal::Clock { now }) == accounts
            &&& elapsed >= boundary ==> turn != Turn::<UnstakeSettlement>::Failed(
                StakeError::FreezePeriodNotElapsed,
            )
            &&& elapsed >= boundary ==> turn == Turn::<UnstakeSettlement>::Call(
                accounts.unlock_call(),
            ) || turn == Turn::<UnstakeSettlement>::Failed(StakeError::ArithmeticOverflow)
        }),
{
    lemma_freeze_boundary(
        now - accounts.stake_account->0.staked_at,
        accounts.config.freeze_period as int,
    );
}

/// A signal changes the records only where it settles the operation. Then
/// the ledger and the counter are those of the settlement and the stake
/// record is gone. In every other case, a refusal too, the ledger, the
/// counter and the stake record are as they were. The caller, the asset,
/// the collection, the configuration and the registry never change.
pub proof fn lemma_records_change_on_settlement_only(accounts: Unstake, signal: Signal)
    ensures
        accounts.turn(signal) matches Turn::Settled(settlement) ==> {
            &&& accounts.next(signal).user_account == settlement.user_account
            &&& accounts.next(signal).collection_info == settlement.collection_info
            &&& accounts.next(signal).stake_account is None
            &&& accounts.next(signal).progress is Idle
        },
        !(accounts.turn(signal) is Settled) ==> {
            &&& accounts.next(signal).user_account == accounts.user_account
            &&& accounts.next(signal).collection_info == accounts.collection_info
            &&& accounts.next(signal).stake_account == accounts.stake_account
        },
        accounts.turn(signal) is Failed ==> accounts.next(signal) == (Unstake {
            progress: UnstakeProgress::Idle,
            ..accounts
        }),
        accounts.turn(signal) is Ignored ==> accounts.next(signal) == accounts,
        accounts.next(signal).user == accounts.user,
        accounts.next(signal).asset == accounts.asset,
        accounts.next(signal).collection == accounts.collection,
        accounts.next(signal).config == accounts.config,
        accounts.next(signal).core_program == accounts.core_program,
{
}

/// Carried through with a registry that accepts both calls, an unstaking
/// that may begin hands out the unlock, then the removal, and settles: the
/// points earned go to the ledger, the ledger and the counter each count
/// one asset fewer, and the stake record is gone.
pub proof fn lemma_accepted_unstake_settles(accounts: Unstake, now: i64)
    requires
        accounts.progress is Idle,
        accounts.refusal(now) is None,
    ensures
        ({
            let signals = seq![
                Signal::Clock { now },
                Signal::Registry { accepted: true },
                Signal::Registry { accepted: true },
            ];
            let unlocking = accounts.next(signals[0]);
            let removing = unlocking.next(signals[1]);
            let settled = removing.next(signals[2]);
            &&& accounts.turn(signals[0]) == Turn::<UnstakeSettlement>::Call(accounts.unlock_call())
            &&& unlocking.turn(signals[1]) == Turn::<UnstakeSettlement>::Call(
                accounts.remove_call(),
            )
            &&& removing.turn(signals[2]) == Turn::Settled(accounts.settlement(now))
            &&& accounts.run(signals) == settled
            &&& accounts.calls(signals) == seq![accounts.unlock_call(), accounts.remove_call()]
            &&& settled == (Unstake {
                user_account: accounts.settlement(now).user_account,
                collection_info: accounts.settlement(now).collection_info,
                stake_account: None,
                ..accounts
            })
            &&& settled.user_account.points == accounts.user_account.points + points_awarded(
                now - accounts.stake_account->0.staked_at,
                accounts.config.points_per_stake as int,
            )
            &&& settled.user_account.amount_staked == accounts.user_account.amount_staked - 1
            &&& settled.collection_info.staked_count == accounts.collection_info.staked_count - 1
            &&& accounts.settlement(now).points_awarded == points_awarded(
                now - accounts.stake_account->0.staked_at,
                accounts.config.points_per_stake as int,
            )
        }),
{
    let signals = seq![
        Signal::Clock { now },
        Signal::Registry { accepted: true },
        Signal::Registry { accepted: true },
    ];
    let elapsed = now - accounts.stake_account->0.staked_at;
    lemma_parts_of_days_count(elapsed, accounts.config.points_per_stake as int);
    let s0 = signals.drop_last().drop_last().drop_last();
    let s1 = signals.drop_last().drop_last();
    let s2 = signals.drop_last();
    assert(s0.len() == 0);
    assert(accounts.run(s0) == accounts);
    assert(s1.drop_last() == s0);
    assert(accounts.run(s1) == accounts.next(signals[0]));
    assert(accounts.run(s2) == accounts.next(signals[0]).next(signals[1]));
    assert(accounts.calls(s0) == Seq::<RegistryCall>::empty());
    assert(accounts.calls(s1) == seq![accounts.unlock_call()]);
    assert(accounts.calls(s2) == seq![accounts.unlock_call(), accounts.remove_call()]);
    assert(accounts.calls(signals) == seq![accounts.unlock_call(), accounts.remove_call()]);
}

/// A call that the registry turns down ends the operation as failed at the
/// registry, and the accounts are as they were before the operation began:
/// no points are claimed, no counter moves, and the stake record stays.
pub proof fn lemma_rejected_call_changes_nothing(accounts: Unstake, now: i64)
    requires
        accounts.progress is Idle,
        accounts.refusal(now) is None,
    ensures
        ({
            let unlocking = accounts.next(Signal::Clock { now });
            let removing = unlocking.next(Signal::Registry { accepted: true });
            let rejected = Signal::Registry { accepted: false };
            &&& unlocking.turn(rejected) == Turn::<UnstakeSettlement>::Failed(
                StakeError::RegistryCallFailed,
            )
            &&& unlocking.next(rejected) == accounts
            &&& removing.turn(rejected) == Turn::<UnstakeSettlement>::Failed(
                StakeError::RegistryCallFailed,
            )
            &&& removing.next(rejected) == accounts
        }),
{
}

/// Among the calls of any sequence of signals, each removal of the lock
/// comes directly after the unlock: no lock is asked off an asset that was
/// not asked unfrozen just before, under the stake record as signer.
pub proof fn lemma_unlock_comes_before_removal(start: Unstake, signals: Seq<Signal>, i: int)
    requires
        start.progress is Idle,
        0 <= i < start.calls(signals).len(),
        start.calls(signals)[i] is RemoveLock,
    ensures
        i >= 1,
        start.calls(signals)[i - 1] == start.unlock_call(),
        start.calls(signals)[i] == start.remove_call(),
{
    start.lemma_trace(signals);
}

/// Whenever a signal settles the operation, the two calls handed out last
/// are the unlock and then the removal of the lock.
pub proof fn lemma_settlement_follows_both_calls(start: Unstake, signals: Seq<Signal>)
    requires
        start.progress is Idle,
        signals.len() > 0,
        start.run(signals.drop_last()).turn(signals.last()) is Settled,
    ensures
        start.calls(signals).len() >= 2,
        start.calls(signals)[start.calls(signals).len() - 2] == start.unlock_call(),
        start.calls(signals).last() == start.remove_call(),
        start.run(signals).stake_account is None,
{
    start.lemma_trace(signals.drop_last());
    let before = start.run(signals.drop_last());
    assert(before.progress is Removing);
    assert(start.calls(signals) == start.calls(signals.drop_last()));
}

/// Whatever the signals, the points in the ledger never decrease, and the
/// accounts that the operation only reads stay as they were.
pub proof fn lemma_points_never_decrease(start: Unstake, signals: Seq<Signal>)
    requires
        start.progress is Idle,
    ensures
        start.run(signals).user_account.points >= start.user_account.points,
        start.run(signals).coherent(),
        start.run(signals).user == start.user,
        start.run(signals).asset == start.asset,
        start.run(signals).collection == start.collection,
        start.run(signals).config == start.config,
        start.run(signals).core_program == start.core_program,
{
    start.lemma_trace(signals);
}

/// Once an unstaking has settled, invoking it again finds no stake record:
/// no stake pays out twice.
pub proof fn lemma_settled_stake_is_gone(accounts: Unstake, signal: Signal, now: i64)
    requires
        accounts.turn(signal) is Settled,
    ensures
        accounts.next(signal).turn(Signal::Clock { now }) == Turn::<UnstakeSettlement>::Failed(
            StakeError::RecordNotFound,
        ),
{
}

} // verus!
