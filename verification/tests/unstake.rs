use nft_staking::address::Address;
use nft_staking::error::StakeError;
use nft_staking::protocol::{Signal, Turn};
use nft_staking::registry::{Lock, LockedAsset, RegistryCall};
use nft_staking::state::{CollectionInfo, RegistryAccount, StakeAccount, StakeConfig, UserAccount};
use nft_staking::unstake::{Unstake, UnstakeProgress, UnstakeSettlement};

const USER: u8 = 1;
const ASSET: u8 = 2;
const COLLECTION: u8 = 3;
const CONFIG: u8 = 4;
const RECORD: u8 = 5;
const REGISTRY: u8 = 6;
const STRANGER: u8 = 9;

fn key(tag: u8) -> Address {
    Address::new([tag; 32])
}

/// One asset staked at second nought under a freeze period of one day and
/// ten points a day, by a staker who has five points and holds this one
/// asset staked, in a collection of which three assets are staked.
fn staked_at_nought() -> Unstake {
    Unstake::new(
        key(USER),
        RegistryAccount { key: key(ASSET), program: key(REGISTRY) },
        RegistryAccount { key: key(COLLECTION), program: key(REGISTRY) },
        CollectionInfo { collection: key(COLLECTION), staked_count: 3 },
        Some(StakeAccount { address: key(RECORD), owner: key(USER), staked_at: 0, bump: 254 }),
        StakeConfig { address: key(CONFIG), freeze_period: 86_400, points_per_stake: 10 },
        UserAccount { points: 5, amount_staked: 1 },
        key(REGISTRY),
    )
}

fn frozen_in_registry() -> LockedAsset {
    let mut asset = LockedAsset::new(key(ASSET), key(COLLECTION), key(USER));
    asset.lock = Some(Lock { authority: key(RECORD), frozen: true });
    asset
}

fn unlock_call() -> RegistryCall {
    RegistryCall::SetLockState {
        asset: key(ASSET),
        collection: key(COLLECTION),
        signer: key(RECORD),
        frozen: false,
    }
}

fn remove_call() -> RegistryCall {
    RegistryCall::RemoveLock { asset: key(ASSET), collection: key(COLLECTION), signer: key(USER) }
}

/// Carries the operation through against the registry, and says how it
/// ended and which calls the registry saw.
fn carry_through(
    accounts: &mut Unstake,
    registry: &mut LockedAsset,
    now: i64,
) -> (Turn<UnstakeSettlement>, Vec<RegistryCall>) {
    let mut calls = Vec::new();
    let mut turn = accounts.unstake(Signal::Clock { now });
    loop {
        match turn {
            Turn::Call(call) => {
                calls.push(call);
                let accepted = registry.apply(&call);
                turn = accounts.unstake(Signal::Registry { accepted });
            }
            ended => return (ended, calls),
        }
    }
}

fn refused_at(accounts: &Unstake, now: i64, error: StakeError) {
    let mut tried = *accounts;
    assert_eq!(tried.assess(now), Err(error));
    assert_eq!(tried.unstake(Signal::Clock { now }), Turn::Failed(error));
    assert_eq!(tried, *accounts);
}

#[test]
fn new_accounts_are_idle() {
    let accounts = staked_at_nought();
    assert_eq!(accounts.progress, UnstakeProgress::Idle);
    assert_eq!(accounts.user, key(USER));
    assert_eq!(accounts.asset.key, key(ASSET));
    assert_eq!(accounts.collection.key, key(COLLECTION));
    assert_eq!(accounts.collection_info.staked_count, 3);
    assert_eq!(accounts.config.freeze_period, 86_400);
    assert_eq!(accounts.user_account.points, 5);
    assert_eq!(accounts.core_program, key(REGISTRY));
}

#[test]
fn unstake_after_two_days_pays_twenty_points() {
    let mut accounts = staked_at_nought();
    let mut registry = frozen_in_registry();
    let (ended, calls) = carry_through(&mut accounts, &mut registry, 172_800);
    let settlement = match ended {
        Turn::Settled(settlement) => settlement,
        other => panic!("not settled: {:?}", other),
    };
    assert_eq!(settlement.points_awarded, 20);
    assert_eq!(settlement.user_account, UserAccount { points: 25, amount_staked: 0 });
    // The stake record is gone.
    assert_eq!(accounts.stake_account, None);
    // The collection counts one asset fewer.
    assert_eq!(
        accounts.collection_info,
        CollectionInfo { collection: key(COLLECTION), staked_count: 2 }
    );
    // The ledger has the points and counts one asset fewer.
    assert_eq!(accounts.user_account, UserAccount { points: 25, amount_staked: 0 });
    // The registry holds no lock on the asset.
    assert_eq!(registry.lock, None);
    assert_eq!(registry, LockedAsset::new(key(ASSET), key(COLLECTION), key(USER)));
    assert_eq!(calls, vec![unlock_call(), remove_call()]);
    assert_eq!(accounts.progress, UnstakeProgress::Idle);
}

#[test]
fn unstake_after_one_hour_is_too_early() {
    let mut accounts = staked_at_nought();
    let mut registry = frozen_in_registry();
    let (ended, calls) = carry_through(&mut accounts, &mut registry, 3_600);
    assert_eq!(ended, Turn::Failed(StakeError::FreezePeriodNotElapsed));
    // Nothing changed, and the registry was not asked anything.
    assert_eq!(accounts, staked_at_nought());
    assert_eq!(registry, frozen_in_registry());
    assert!(calls.is_empty());
}

#[test]
fn unstake_one_second_short_of_the_freeze_period_is_too_early() {
    refused_at(&staked_at_nought(), 86_399, StakeError::FreezePeriodNotElapsed);
}

#[test]
fn unstake_at_the_freeze_boundary_succeeds() {
    let mut accounts = staked_at_nought();
    let mut registry = frozen_in_registry();
    let (ended, calls) = carry_through(&mut accounts, &mut registry, 86_400);
    match ended {
        Turn::Settled(settlement) => assert_eq!(settlement.points_awarded, 10),
        other => panic!("not settled: {:?}", other),
    }
    assert_eq!(accounts.user_account, UserAccount { points: 15, amount_staked: 0 });
    assert_eq!(accounts.stake_account, None);
    assert_eq!(calls.len(), 2);
}

#[test]
fn the_freeze_boundary_moves_with_the_time_of_staking() {
    let mut accounts = staked_at_nought();
    accounts.stake_account =
        Some(StakeAccount { address: key(RECORD), owner: key(USER), staked_at: 1_000, bump: 254 });
    accounts.config.freeze_period = 3 * 86_400;
    refused_at(&accounts, 1_000 + 3 * 86_400 - 1, StakeError::FreezePeriodNotElapsed);
    let settlement = accounts.assess(1_000 + 3 * 86_400).unwrap();
    assert_eq!(settlement.points_awarded, 30);
}

#[test]
fn a_freeze_period_of_less_than_a_day_asks_for_no_wait() {
    let mut accounts = staked_at_nought();
    accounts.config.freeze_period = 86_399;
    let settlement = accounts.assess(0).unwrap();
    assert_eq!(settlement.points_awarded, 0);
    assert_eq!(settlement.user_account, UserAccount { points: 5, amount_staked: 0 });
}

#[test]
fn a_clock_before_the_time_of_staking_is_too_early() {
    let mut accounts = staked_at_nought();
    accounts.config.freeze_period = 0;
    refused_at(&accounts, -1, StakeError::FreezePeriodNotElapsed);
    refused_at(&accounts, i64::MIN, StakeError::FreezePeriodNotElapsed);
    assert!(accounts.assess(0).is_ok());
}

#[test]
fn a_part_of_a_day_is_paid() {
    let accounts = staked_at_nought();
    // A day and a half at ten points a day.
    let settlement = accounts.assess(129_600).unwrap();
    assert_eq!(settlement.points_awarded, 15);
    assert_eq!(settlement.user_account.points, 20);
}

#[test]
fn a_stranger_cannot_unstake() {
    let mut accounts = staked_at_nought();
    accounts.user = key(STRANGER);
    let before = accounts;
    let mut registry = frozen_in_registry();
    let (ended, calls) = carry_through(&mut accounts, &mut registry, 172_800);
    assert_eq!(ended, Turn::Failed(StakeError::InvalidOwnership));
    assert_eq!(accounts, before);
    assert_eq!(registry, frozen_in_registry());
    assert!(calls.is_empty());
}

#[test]
fn a_stranger_is_refused_as_a_stranger_before_anything_else() {
    let mut accounts = staked_at_nought();
    accounts.user = key(STRANGER);
    accounts.asset.program = key(STRANGER);
    accounts.collection.program = key(STRANGER);
    accounts.user_account.amount_staked = 0;
    // Too early as well.
    refused_at(&accounts, 3_600, StakeError::InvalidOwnership);
}

#[test]
fn an_asset_outside_the_registry_is_refused() {
    let mut accounts = staked_at_nought();
    accounts.asset.program = key(STRANGER);
    refused_at(&accounts, 172_800, StakeError::InvalidOwnership);
}

#[test]
fn a_collection_outside_the_registry_is_refused() {
    let mut accounts = staked_at_nought();
    accounts.collection.program = key(STRANGER);
    refused_at(&accounts, 172_800, StakeError::InvalidCollectionMembership);
}

#[test]
fn the_counter_of_another_collection_is_refused() {
    let mut accounts = staked_at_nought();
    accounts.collection_info.collection = key(STRANGER);
    refused_at(&accounts, 172_800, StakeError::InvalidCollectionMembership);
    // The wrong collection is named before the early hour.
    refused_at(&accounts, 3_600, StakeError::InvalidCollectionMembership);
}

#[test]
fn unstake_without_a_stake_record_finds_none() {
    let mut accounts = staked_at_nought();
    accounts.stake_account = None;
    refused_at(&accounts, 172_800, StakeError::RecordNotFound);
}

#[test]
fn unstake_twice_finds_no_record_the_second_time() {
    let mut accounts = staked_at_nought();
    let mut registry = frozen_in_registry();
    let (first, _) = carry_through(&mut accounts, &mut registry, 172_800);
    assert!(matches!(first, Turn::Settled(_)));
    let after_first = accounts;
    let (second, calls) = carry_through(&mut accounts, &mut registry, 172_800);
    assert_eq!(second, Turn::Failed(StakeError::RecordNotFound));
    assert!(calls.is_empty());
    // No points are paid twice.
    assert_eq!(accounts, after_first);
    assert_eq!(accounts.user_account.points, 25);
}

#[test]
fn points_that_do_not_fit_are_refused() {
    let mut accounts = staked_at_nought();
    accounts.user_account.points = u64::MAX - 19;
    refused_at(&accounts, 172_800, StakeError::ArithmeticOverflow);
    accounts.user_account.points = u64::MAX - 20;
    let settlement = accounts.assess(172_800).unwrap();
    assert_eq!(settlement.user_account.points, u64::MAX);
}

#[test]
fn the_longest_stake_at_the_highest_rate_is_refused_not_wrapped() {
    let mut accounts = staked_at_nought();
    accounts.stake_account = Some(StakeAccount {
        address: key(RECORD),
        owner: key(USER),
        staked_at: i64::MIN,
        bump: 254,
    });
    accounts.config.points_per_stake = u32::MAX;
    accounts.user_account.points = 0;
    refused_at(&accounts, i64::MAX, StakeError::ArithmeticOverflow);
}

#[test]
fn a_ledger_without_staked_assets_is_refused() {
    let mut accounts = staked_at_nought();
    accounts.user_account.amount_staked = 0;
    refused_at(&accounts, 172_800, StakeError::ArithmeticOverflow);
}

#[test]
fn a_counter_at_nought_is_refused() {
    let mut accounts = staked_at_nought();
    accounts.collection_info.staked_count = 0;
    refused_at(&accounts, 172_800, StakeError::ArithmeticOverflow);
}

#[test]
fn the_unlock_is_signed_by_the_stake_record() {
    let mut accounts = staked_at_nought();
    let turn = accounts.unstake(Signal::Clock { now: 172_800 });
    assert_eq!(turn, Turn::Call(unlock_call()));
    match accounts.progress {
        UnstakeProgress::Unlocking(settlement) => assert_eq!(settlement.points_awarded, 20),
        other => panic!("not unlocking: {:?}", other),
    }
    // The records wait for the registry.
    assert_eq!(accounts.user_account, staked_at_nought().user_account);
    assert_eq!(accounts.collection_info, staked_at_nought().collection_info);
    assert_eq!(accounts.stake_account, staked_at_nought().stake_account);
}

#[test]
fn the_removal_is_signed_by_the_owner_and_follows_the_unlock() {
    let mut accounts = staked_at_nought();
    assert_eq!(accounts.unstake(Signal::Clock { now: 172_800 }), Turn::Call(unlock_call()));
    let turn = accounts.unstake(Signal::Registry { accepted: true });
    assert_eq!(turn, Turn::Call(remove_call()));
    assert!(matches!(accounts.progress, UnstakeProgress::Removing(_)));
    assert_eq!(accounts.user_account, staked_at_nought().user_account);
    assert_eq!(accounts.stake_account, staked_at_nought().stake_account);
}

#[test]
fn a_rejected_unlock_changes_nothing() {
    let mut accounts = staked_at_nought();
    assert_eq!(accounts.unstake(Signal::Clock { now: 172_800 }), Turn::Call(unlock_call()));
    let turn = accounts.unstake(Signal::Registry { accepted: false });
    assert_eq!(turn, Turn::Failed(StakeError::RegistryCallFailed));
    assert_eq!(accounts, staked_at_nought());
}

#[test]
fn a_rejected_removal_changes_nothing() {
    let mut accounts = staked_at_nought();
    assert_eq!(accounts.unstake(Signal::Clock { now: 172_800 }), Turn::Call(unlock_call()));
    assert_eq!(accounts.unstake(Signal::Registry { accepted: true }), Turn::Call(remove_call()));
    let turn = accounts.unstake(Signal::Registry { accepted: false });
    assert_eq!(turn, Turn::Failed(StakeError::RegistryCallFailed));
    assert_eq!(accounts, staked_at_nought());
}

#[test]
fn a_registry_that_holds_no_lock_fails_the_unstake() {
    let mut accounts = staked_at_nought();
    let mut registry = LockedAsset::new(key(ASSET), key(COLLECTION), key(USER));
    let (ended, calls) = carry_through(&mut accounts, &mut registry, 172_800);
    assert_eq!(ended, Turn::Failed(StakeError::RegistryCallFailed));
    assert_eq!(calls, vec![unlock_call()]);
    assert_eq!(accounts, staked_at_nought());
}

#[test]
fn a_lock_under_another_authority_fails_the_unstake() {
    let mut accounts = staked_at_nought();
    let mut registry = frozen_in_registry();
    registry.lock = Some(Lock { authority: key(STRANGER), frozen: true });
    let before = registry;
    let (ended, calls) = carry_through(&mut accounts, &mut registry, 172_800);
    assert_eq!(ended, Turn::Failed(StakeError::RegistryCallFailed));
    assert_eq!(calls, vec![unlock_call()]);
    assert_eq!(accounts, staked_at_nought());
    assert_eq!(registry, before);
}

#[test]
fn an_asset_that_changed_hands_fails_at_the_removal() {
    let mut accounts = staked_at_nought();
    let mut registry = frozen_in_registry();
    registry.holder = key(STRANGER);
    let (ended, calls) = carry_through(&mut accounts, &mut registry, 172_800);
    assert_eq!(ended, Turn::Failed(StakeError::RegistryCallFailed));
    assert_eq!(calls, vec![unlock_call(), remove_call()]);
    // No points are claimed and the record stays.
    assert_eq!(accounts, staked_at_nought());
}

#[test]
fn a_failed_unstake_can_be_tried_again() {
    let mut accounts = staked_at_nought();
    assert_eq!(
        accounts.unstake(Signal::Clock { now: 3_600 }),
        Turn::Failed(StakeError::FreezePeriodNotElapsed)
    );
    let mut registry = frozen_in_registry();
    let (ended, _) = carry_through(&mut accounts, &mut registry, 90_000);
    match ended {
        Turn::Settled(settlement) => assert_eq!(settlement.points_awarded, 10),
        other => panic!("not settled: {:?}", other),
    }
}

#[test]
fn a_registry_reply_without_a_call_is_ignored() {
    let mut accounts = staked_at_nought();
    assert_eq!(accounts.unstake(Signal::Registry { accepted: true }), Turn::Ignored);
    assert_eq!(accounts, staked_at_nought());
    assert_eq!(accounts.unstake(Signal::Registry { accepted: false }), Turn::Ignored);
    assert_eq!(accounts, staked_at_nought());
}

#[test]
fn the_clock_is_read_once() {
    let mut accounts = staked_at_nought();
    assert_eq!(accounts.unstake(Signal::Clock { now: 172_800 }), Turn::Call(unlock_call()));
    let unlocking = accounts;
    // A second reading while the registry is awaited changes nothing.
    assert_eq!(accounts.unstake(Signal::Clock { now: 864_000 }), Turn::Ignored);
    assert_eq!(accounts, unlocking);
    assert_eq!(accounts.unstake(Signal::Registry { accepted: true }), Turn::Call(remove_call()));
    let removing = accounts;
    assert_eq!(accounts.unstake(Signal::Clock { now: 864_000 }), Turn::Ignored);
    assert_eq!(accounts, removing);
    match accounts.unstake(Signal::Registry { accepted: true }) {
        Turn::Settled(settlement) => assert_eq!(settlement.points_awarded, 20),
        other => panic!("not settled: {:?}", other),
    }
}

#[test]
fn assess_changes_nothing_and_agrees_with_unstake() {
    let accounts = staked_at_nought();
    let settlement = accounts.assess(172_800).unwrap();
    assert_eq!(accounts, staked_at_nought());
    assert_eq!(
        settlement,
        UnstakeSettlement {
            points_awarded: 20,
            user_account: UserAccount { points: 25, amount_staked: 0 },
            collection_info: CollectionInfo { collection: key(COLLECTION), staked_count: 2 },
        }
    );
    let mut carried = accounts;
    let mut registry = frozen_in_registry();
    let (ended, _) = carry_through(&mut carried, &mut registry, 172_800);
    assert_eq!(ended, Turn::Settled(settlement));
}

#[test]
fn points_never_decrease() {
    let signals = [
        Signal::Registry { accepted: true },
        Signal::Clock { now: 10 },
        Signal::Clock { now: 200_000 },
        Signal::Clock { now: 5 },
        Signal::Registry { accepted: false },
        Signal::Clock { now: 300_000 },
        Signal::Registry { accepted: true },
        Signal::Registry { accepted: true },
        Signal::Registry { accepted: true },
        Signal::Clock { now: 400_000 },
    ];
    let mut accounts = staked_at_nought();
    let mut points = accounts.user_account.points;
    let mut calls = Vec::new();
    for signal in signals {
        if let Turn::Call(call) = accounts.unstake(signal) {
            calls.push(call);
        }
        assert!(accounts.user_account.points >= points);
        points = accounts.user_account.points;
    }
    // 300 000 seconds at ten points a day.
    assert_eq!(points, 5 + 34);
    assert_eq!(accounts.stake_account, None);
    // Each removal comes directly after an unlock.
    assert_eq!(calls, vec![unlock_call(), unlock_call(), remove_call()]);
}
