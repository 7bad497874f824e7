//! Staking: the asset is locked in the registry under a stake record of its
//! own, and counted.

use crate::address::Address;
use crate::error::StakeError;
use crate::protocol::{Signal, Turn};
use crate::registry::RegistryCall;
use crate::state::{AssetAccount, CollectionInfo, RegistryAccount, StakeAccount, StakeConfig,
    UserAccount};
use vstd::prelude::*;

verus! {

/// What staking settles to: the new stake record, and the records as they
/// stand after it.
#[derive(Clone, Copy, Debug, PartialEq, Eq)]
pub struct StakeSettlement {
    /// The record of the stake that begins.
    pub stake_account: StakeAccount,
    /// The staker's ledger with one asset more.
    pub user_account: UserAccount,
    /// The collection's counter with one asset more.
    pub collection_info: CollectionInfo,
}

/// How far a staking has come.
#[derive(Clone, Copy, Debug, PartialEq, Eq)]
pub enum StakeProgress {
    /// Nothing is under way.
    Idle,
    /// The registry was asked to lock the asset and has not answered.
    Locking(StakeSettlement),
}

/// The accounts of one staking, and how far it has come.
#[derive(Clone, Copy, Debug, PartialEq, Eq)]
pub struct Stake {
    /// The caller.
    pub user: Address,
    /// The asset to stake.
    pub asset: AssetAccount,
    /// The collection that the caller declares for the asset.
    pub collection: RegistryAccount,
    /// The counter of the collection.
    pub collection_info: CollectionInfo,
    /// The stake record of the asset, if there is one already.
    pub stake_account: Option<StakeAccount>,
    /// The address derived for the asset's stake record.
    pub stake_address: Address,
    /// The last seed of that derivation.
    pub stake_bump: u8,
    /// The configuration.
    pub config: StakeConfig,
    /// The caller's ledger.
    pub user_account: UserAccount,
    /// The asset registry.
    pub core_program: Address,
    /// How far the operation has come.
    pub progress: StakeProgress,
}

impl Stake {
    /// Why staking may not begin, if anything stands against it. The first
    /// of these that fails decides: the caller holds the asset; the asset's
    /// account belongs to the registry; the collection declared is the
    /// asset's, its account belongs to the registry, and it is the one that
    /// the counter counts; the asset has no stake record yet; both counters
    /// stay in range.
    pub open spec fn refusal(self) -> Option<StakeError> {
        if self.asset.holder != self.user {
            Some(StakeError::InvalidOwnership)
        } else if self.asset.program != self.core_program {
            Some(StakeError::InvalidOwnership)
        } else if self.asset.collection != self.collection.key || self.collection.program
            != self.core_program || self.collection_info.collection != self.collection.key {
            Some(StakeError::InvalidCollectionMembership)
        } else if self.stake_account is Some {
            Some(StakeError::AlreadyStaked)
        } else if self.user_account.amount_staked == u32::MAX || self.collection_info.staked_count
            == u32::MAX {
            Some(StakeError::ArithmeticOverflow)
        } else {
            None
        }
    }

    /// What staking at `now` settles to where nothing stands against it: a
    /// record owned by the caller and dated `now`, at the address derived
    /// for it, and the ledger and the counter each counting one asset more.
    pub open spec fn settlement(self, now: i64) -> StakeSettlement {
        StakeSettlement {
            stake_account: StakeAccount {
                address: self.stake_address,
                owner: self.user,
                staked_at: now,
                bump: self.stake_bump,
            },
            user_account: UserAccount {
                points: self.user_account.points,
                amount_staked: (self.user_account.amount_staked + 1) as u32,
            },
            collection_info: CollectionInfo {
                collection: self.collection_info.collection,
                staked_count: (self.collection_info.staked_count + 1) as u32,
            },
        }
    }

    /// The one call: lock the asset, with the stake record's address as the
    /// authority that may unlock it.
    pub open spec fn attach_call(self) -> RegistryCall {
        RegistryCall::AttachLock {
            asset: self.asset.key,
            collection: self.collection.key,
            authority: self.stake_address,
        }
    }

    /// Whether the signal is the one that the operation awaits: the clock
    /// while nothing is under way, the registry's reply while the call is
    /// out.
    pub open spec fn awaits(self, signal: Signal) -> bool {
        match self.progress {
            StakeProgress::Idle => signal is Clock,
            StakeProgress::Locking(_) => signal is Registry,
        }
    }

    /// The answer to a signal.
    pub open spec fn turn(self, signal: Signal) -> Turn<StakeSettlement> {
        match (self.progress, signal) {
            (StakeProgress::Idle, Signal::Clock { now }) => match self.refusal() {
                Some(error) => Turn::Failed(error),
                None => Turn::Call(self.attach_call()),
            },
            (StakeProgress::Locking(settlement), Signal::Registry { accepted }) => if accepted {
                Turn::Settled(settlement)
            } else {
                Turn::Failed(StakeError::RegistryCallFailed)
            },
            _ => Turn::Ignored,
        }
    }

    /// The accounts and the progress after a signal. The records change in
    /// one place only: where the registry has accepted the lock.
    pub open spec fn next(self, signal: Signal) -> Stake {
        match (self.progress, signal) {
            (StakeProgress::Idle, Signal::Clock { now }) => match self.refusal() {
                Some(_) => self,
                None => Stake { progress: StakeProgress::Locking(self.settlement(now)), ..self },
            },
            (StakeProgress::Locking(settlement), Signal::Registry { accepted }) => if accepted {
                Stake {
                    stake_account: Some(settlement.stake_account),
                    user_account: settlement.user_account,
                    collection_info: settlement.collection_info,
                    progress: StakeProgress::Idle,
                    ..self
                }
            } else {
                Stake { progress: StakeProgress::Idle, ..self }
            },
            _ => self,
        }
    }

    /// The accounts of a staking that has not begun.
    pub fn new(
        user: Address,
        asset: AssetAccount,
        collection: RegistryAccount,
        collection_info: CollectionInfo,
        stake_account: Option<StakeAccount>,
        stake_address: Address,
        stake_bump: u8,
        config: StakeConfig,
        user_account: UserAccount,
        core_program: Address,
    ) -> (accounts: Stake)
        ensures
            accounts == (Stake {
                user,
                asset,
                collection,
                collection_info,
                stake_account,
                stake_address,
                stake_bump,
                config,
                user_account,
                core_program,
                progress: StakeProgress::Idle,
            }),
    {
        Stake {
            user,
            asset,
            collection,
            collection_info,
            stake_account,
            stake_address,
            stake_bump,
            config,
            user_account,
            core_program,
            progress: StakeProgress::Idle,
        }
    }

    /// Says whether staking may begin, and what staking at `now` settles to
    /// if it may. Nothing is changed.
    pub fn assess(&self, now: i64) -> (outcome: Result<StakeSettlement, StakeError>)
        ensures
            outcome == match self.refusal() {
                Some(error) => Err::<StakeSettlement, StakeError>(error),
                None => Ok(self.settlement(now)),
            },
    {
        if !self.asset.holder.same(&self.user) {
            return Err(StakeError::InvalidOwnership);
        }
        if !self.asset.program.same(&self.core_program) {
            return Err(StakeError::InvalidOwnership);
        }
        if !self.asset.collection.same(&self.collection.key) || !self.collection.program.same(
            &self.core_program,
        ) || !self.collection_info.collection.same(&self.collection.key) {
            return Err(StakeError::InvalidCollectionMembership);
        }
        if self.stake_account.is_some() {
            return Err(StakeError::AlreadyStaked);
        }
        if self.user_account.amount_staked == u32::MAX || self.collection_info.staked_count
            == u32::MAX {
            return Err(StakeError::ArithmeticOverflow);
        }
        Ok(
            StakeSettlement {
                stake_account: StakeAccount {
                    address: self.stake_address,
                    owner: self.user,
                    staked_at: now,
                    bump: self.stake_bump,
                },
                user_account: UserAccount {
                    points: self.user_account.points,
                    amount_staked: self.user_account.amount_staked + 1,
                },
                collection_info: CollectionInfo {
                    collection: self.collection_info.collection,
                    staked_count: self.collection_info.staked_count + 1,
                },
            },
        )
    }

    /// Takes the operation one step on. Invoked with the clock, it tries
    /// the accounts and hands out the call that locks the asset; told that
    /// the registry accepted it, it writes the stake record and counts the
    /// asset. A call that the registry turned down ends the operation with
    /// the records untouched.
    pub fn stake(&mut self, signal: Signal) -> (turn: Turn<StakeSettlement>)
        ensures
            turn == old(self).turn(signal),
            *final(self) == old(self).next(signal),
    {
        match (self.progress, signal) {
            (StakeProgress::Idle, Signal::Clock { now }) => match self.assess(now) {
                Err(error) => Turn::Failed(error),
                Ok(settlement) => {
                    self.progress = StakeProgress::Locking(settlement);
                    Turn::Call(
                        RegistryCall::AttachLock {
                            asset: self.asset.key,
                            collection: self.collection.key,
                            authority: self.stake_address,
                        },
                    )
                },
            },
            (StakeProgress::Locking(settlement), Signal::Registry { accepted }) => {
                self.progress = StakeProgress::Idle;
                if accepted {
                    self.stake_account = Some(settlement.stake_account);
                    self.user_account = settlement.user_account;
                    self.collection_info = settlement.collection_info;
                    Turn::Settled(settlement)
                } else {
                    Turn::Failed(StakeError::RegistryCallFailed)
                }
            },
            _ => Turn::Ignored,
        }
    }
}

impl Stake {
    /// Whether a settlement that is under way is one that the records give
    /// rise to. It is so from the first signal on, as long as the records
    /// are changed by [`Stake::stake`] alone.
    pub open spec fn coherent(self) -> bool {
        match self.progress {
            StakeProgress::Idle => true,
            StakeProgress::Locking(settlement) => self.refusal() is None && exists|now: i64|
                settlement == self.settlement(now),
        }
    }
}

/// Accounts that have not begun are coherent, and every signal keeps
/// coherent accounts coherent.
pub proof fn lemma_coherence_is_kept(accounts: Stake, signal: Signal)
    requires
        accounts.coherent(),
    ensures
        accounts.next(signal).coherent(),
        accounts.progress is Idle ==> accounts.coherent(),
{
    match (accounts.progress, signal) {
        (StakeProgress::Idle, Signal::Clock { now }) => {
            if accounts.refusal() is None {
                let after = accounts.next(signal);
                assert(after.refusal() is None);
                assert(after.settlement(now) == accounts.settlement(now));
            }
        },
        _ => {},
    }
}

/// Staking never touches the points: whatever the signal, coherent
/// accounts keep the points they have.
pub proof fn lemma_stake_keeps_points(accounts: Stake, signal: Signal)
    requires
        accounts.coherent(),
    ensures
        accounts.next(signal).user_account.points == accounts.user_account.points,
{
}

/// A signal is ignored exactly if it is not the one awaited. After the
/// call is handed out the registry's reply is awaited, and its answer ends
/// the operation. So whoever starts with the clock and answers the call
/// with the registry's reply is never ignored, and is done after two
/// signals at most.
pub proof fn lemma_awaited_signals_are_answered(accounts: Stake, signal: Signal)
    ensures
        accounts.turn(signal) is Ignored <==> !accounts.awaits(signal),
        accounts.turn(signal) is Call ==> accounts.progress is Idle && accounts.next(
            signal,
        ).awaits(Signal::Registry { accepted: true }) && accounts.next(signal).awaits(
            Signal::Registry { accepted: false },
        ),
        accounts.turn(signal) is Settled || accounts.turn(signal) is Failed ==> accounts.next(
            signal,
        ).progress is Idle,
{
}

/// Whoever does not hold the asset is refused for that reason, whatever
/// else holds.
pub proof fn lemma_only_holder_stakes(accounts: Stake, now: i64)
    requires
        accounts.progress is Idle,
        accounts.asset.holder != accounts.user,
    ensures
        accounts.turn(Signal::Clock { now }) == Turn::<StakeSettlement>::Failed(
            StakeError::InvalidOwnership,
        ),
        accounts.next(Signal::Clock { now }) == accounts,
{
}

/// An asset of another collection than the one declared is refused for
/// that reason, if the caller holds it and its account is the registry's.
pub proof fn lemma_collection_must_match(accounts: Stake, now: i64)
    requires
        accounts.progress is Idle,
        accounts.asset.holder == accounts.user,
        accounts.asset.program == accounts.core_program,
        accounts.asset.collection != accounts.collection.key,
    ensures
        accounts.turn(Signal::Clock { now }) == Turn::<StakeSettlement>::Failed(
            StakeError::InvalidCollectionMembership,
        ),
        accounts.next(Signal::Clock { now }) == accounts,
{
}

/// An asset that has a stake record is not staked again, if the accounts
/// are in order otherwise.
pub proof fn lemma_staked_asset_is_refused(accounts: Stake, now: i64)
    requires
        accounts.progress is Idle,
        accounts.asset.holder == accounts.user,
        accounts.asset.program == accounts.core_program,
        accounts.asset.collection == accounts.collection.key,
        accounts.collection.program == accounts.core_program,
        accounts.collection_info.collection == accounts.collection.key,
        accounts.stake_account is Some,
    ensures
        accounts.turn(Signal::Clock { now }) == Turn::<StakeSettlement>::Failed(
            StakeError::AlreadyStaked,
        ),
        accounts.next(Signal::Clock { now }) == accounts,
{
}

/// A signal changes the records only where it settles the operation. Then
/// the stake record, the ledger and the counter are those of the
/// settlement. In every other case, a refusal too, they are as they were,
/// and a refusal hands out no call. The other accounts never change.
pub proof fn lemma_records_change_on_settlement_only(accounts: Stake, signal: Signal)
    ensures
        accounts.turn(signal) matches Turn::Settled(settlement) ==> {
            &&& accounts.next(signal).stake_account == Some(settlement.stake_account)
            &&& accounts.next(signal).user_account == settlement.user_account
            &&& accounts.next(signal).collection_info == settlement.collection_info
            &&& accounts.next(signal).progress is Idle
        },
        !(accounts.turn(signal) is Settled) ==> {
            &&& accounts.next(signal).stake_account == accounts.stake_account
            &&& accounts.next(signal).user_account == accounts.user_account
            &&& accounts.next(signal).collection_info == accounts.collection_info
        },
        accounts.turn(signal) is Failed ==> accounts.next(signal) == (Stake {
            progress: StakeProgress::Idle,
            ..accounts
        }) && accounts.turn(signal).calls().len() == 0,
        accounts.turn(signal) is Ignored ==> accounts.next(signal) == accounts,
        accounts.next(signal).user == accounts.user,
        accounts.next(signal).asset == accounts.asset,
        accounts.next(signal).collection == accounts.collection,
        accounts.next(signal).stake_address == accounts.stake_address,
        accounts.next(signal).stake_bump == accounts.stake_bump,
        accounts.next(signal).config == accounts.config,
        accounts.next(signal).core_program == accounts.core_program,
{
}

/// Carried through with a registry that accepts the lock, a staking that
/// may begin hands out the lock and settles: the asset has a stake record
/// owned by the caller and dated `now`, the ledger and the counter each
/// count one asset more, and the points are as they were.
pub proof fn lemma_accepted_stake_settles(accounts: Stake, now: i64)
    requires
        accounts.progress is Idle,
        accounts.refusal() is None,
    ensures
        ({
            let locking = accounts.next(Signal::Clock { now });
            let settled = locking.next(Signal::Registry { accepted: true });
            &&& accounts.turn(Signal::Clock { now }) == Turn::<StakeSettlement>::Call(
                accounts.attach_call(),
            )
            &&& locking.turn(Signal::Registry { accepted: true }) == Turn::Settled(
                accounts.settlement(now),
            )
            &&& settled == (Stake {
                stake_account: Some(accounts.settlement(now).stake_account),
                user_account: accounts.settlement(now).user_account,
                collection_info: accounts.settlement(now).collection_info,
                ..accounts
            })
            &&& settled.stake_account == Some(
                StakeAccount {
                    address: accounts.stake_address,
                    owner: accounts.user,
                    staked_at: now,
                    bump: accounts.stake_bump,
                },
            )
            &&& settled.user_account.amount_staked == accounts.user_account.amount_staked + 1
            &&& settled.user_account.points == accounts.user_account.points
            &&& settled.collection_info.staked_count == accounts.collection_info.staked_count + 1
            &&& settled.collection_info.collection == accounts.collection_info.collection
        }),
{
}

/// A lock that the registry turns down ends the staking as failed at the
/// registry, and the accounts are as they were before it began: no stake
/// record is written and no counter moves.
pub proof fn lemma_rejected_lock_changes_nothing(accounts: Stake, now: i64)
    requires
        accounts.progress is Idle,
        accounts.refusal() is None,
    ensures
        ({
            let locking = accounts.next(Signal::Clock { now });
            let rejected = Signal::Registry { accepted: false };
            &&& locking.turn(rejected) == Turn::<StakeSettlement>::Failed(
                StakeError::RegistryCallFailed,
            )
            &&& locking.next(rejected) == accounts
        }),
{
}

} // verus!
