//! An asset's way from unstaked to staked and back, with the registry that
//! holds its lock.
//!
//! An asset has no lock while it is unstaked. Staking attaches a frozen
//! lock whose authority is the stake record. Unstaking first unfreezes the
//! lock, signed by the stake record, and then takes it off, signed by the
//! holder. The laws here show that a registry which follows its interface
//! accepts these calls in this order and in no other, and that staking and
//! unstaking undo each other in the counters.

use crate::accrual::points_awarded;
use crate::protocol::Signal;
use crate::registry::{Lock, LockStatus, LockedAsset};
use crate::stake::Stake;
use crate::unstake::{Unstake, UnstakeProgress};
use vstd::prelude::*;

verus! {

/// Whether the registry's asset is the one that the staking is about, in
/// the hands of the caller.
pub open spec fn presented_to_stake(asset: LockedAsset, accounts: Stake) -> bool {
    &&& asset.key == accounts.asset.key
    &&& asset.collection == accounts.collection.key
    &&& asset.holder == accounts.user
}

/// Whether the registry's asset is the one that the unstaking is about, in
/// the hands of the caller.
pub open spec fn presented_to_unstake(asset: LockedAsset, accounts: Unstake) -> bool {
    &&& asset.key == accounts.asset.key
    &&& asset.collection == accounts.collection.key
    &&& asset.holder == accounts.user
}

/// Whether the accounts of an unstaking are those that a staking left
/// behind: the same caller, asset, collection, configuration and registry,
/// with the stake record, the ledger and the counter as staking wrote
/// them.
pub open spec fn continues(unstaking: Unstake, staked: Stake) -> bool {
    &&& unstaking.progress is Idle
    &&& unstaking.user == staked.user
    &&& unstaking.asset.key == staked.asset.key
    &&& unstaking.asset.program == staked.asset.program
    &&& unstaking.collection == staked.collection
    &&& unstaking.collection_info == staked.collection_info
    &&& unstaking.stake_account == staked.stake_account
    &&& unstaking.config == staked.config
    &&& unstaking.user_account == staked.user_account
    &&& unstaking.core_program == staked.core_program
}

/// A registry that follows its interface accepts the lock of a staking
/// that may begin, if the asset has no lock yet, and then holds the asset
/// frozen under the stake record's address.
pub proof fn lemma_registry_accepts_stake(accounts: Stake, asset: LockedAsset)
    requires
        presented_to_stake(asset, accounts),
        asset.lock is None,
    ensures
        asset.status() == LockStatus::Unstaked,
        asset.accepts(accounts.attach_call()),
        asset.answer(accounts.attach_call()).status() == LockStatus::Frozen,
        asset.answer(accounts.attach_call()).frozen_under(accounts.stake_address),
        asset.answer(accounts.attach_call()) == (LockedAsset {
            lock: Some(Lock { authority: accounts.stake_address, frozen: true }),
            ..asset
        }),
{
}

/// A registry that follows its interface accepts both calls of an
/// unstaking in their order, if it holds the asset frozen under the stake
/// record's address, and the asset has no lock afterwards. In any other
/// order it refuses: while the asset is frozen it does not take the lock
/// off.
pub proof fn lemma_registry_accepts_unstake(accounts: Unstake, asset: LockedAsset)
    requires
        presented_to_unstake(asset, accounts),
        accounts.stake_account is Some,
        asset.frozen_under(accounts.stake_account->0.address),
    ensures
        asset.status() == LockStatus::Frozen,
        !asset.accepts(accounts.remove_call()),
        asset.accepts(accounts.unlock_call()),
        asset.answer(accounts.unlock_call()).status() == LockStatus::Unfrozen,
        asset.answer(accounts.unlock_call()).accepts(accounts.remove_call()),
        asset.answer(accounts.unlock_call()).answer(accounts.remove_call()).status()
            == LockStatus::Unstaked,
        asset.answer(accounts.unlock_call()).answer(accounts.remove_call()) == (LockedAsset {
            lock: None,
            ..asset
        }),
{
}

/// Staking and then unstaking the same asset leaves the staker's count of
/// staked assets, the collection's counter and the asset's lock as they
/// were before staking, with no stake record left; the ledger has gained
/// the points of the time between the two, and nothing else.
pub proof fn lemma_stake_then_unstake_restores_counts(
    staking: Stake,
    staked_at: i64,
    unstaking: Unstake,
    now: i64,
    asset: LockedAsset,
)
    requires
        staking.progress is Idle,
        staking.refusal() is None,
        continues(
            unstaking,
            staking.next(Signal::Clock { now: staked_at }).next(Signal::Registry { accepted: true }),
        ),
        unstaking.refusal(now) is None,
        presented_to_stake(asset, staking),
        asset.lock is None,
    ensures
        ({
            let unstaked = unstaking.next(Signal::Clock { now }).next(
                Signal::Registry { accepted: true },
            ).next(Signal::Registry { accepted: true });
            let locked = asset.answer(staking.attach_call());
            let released = locked.answer(unstaking.unlock_call()).answer(unstaking.remove_call());
            &&& unstaked.user_account.amount_staked == staking.user_account.amount_staked
            &&& unstaked.collection_info == staking.collection_info
            &&& unstaked.stake_account == staking.stake_account
            &&& unstaked.progress == UnstakeProgress::Idle
            &&& unstaked.user_account.points == staking.user_account.points + points_awarded(
                now - staked_at,
                staking.config.points_per_stake as int,
            )
            &&& asset.accepts(staking.attach_call())
            &&& locked.accepts(unstaking.unlock_call())
            &&& locked.answer(unstaking.unlock_call()).accepts(unstaking.remove_call())
            &&& released == asset
        }),
{
    crate::stake::lemma_accepted_stake_settles(staking, staked_at);
    crate::unstake::lemma_accepted_unstake_settles(unstaking, now);
}

} // verus!
