//! The record store as staking sees it: the stake records, the ledgers and
//! the counters, each under its key.
//!
//! The store itself belongs to the host ledger. What is stated here is what
//! the operations keep true of it, if it hands them the records that it
//! keeps under their keys and takes back what they settle to: a staker's
//! ledger counts exactly the stake records that the staker owns, and an
//! asset has at most one stake record.

use crate::address::Address;
use crate::protocol::Signal;
use crate::stake::Stake;
use crate::state::{CollectionInfo, StakeAccount, UserAccount};
use crate::unstake::Unstake;
use vstd::prelude::*;

verus! {

/// The key of a stake record: the configuration and the asset.
pub type StakeKey = (Address, Address);

/// The records that the store keeps.
pub struct Store {
    /// The stake records. The key allows one record for each asset.
    pub stakes: Map<StakeKey, StakeAccount>,
    /// The ledgers, each under its staker.
    pub ledgers: Map<Address, UserAccount>,
    /// The counters, each under its collection.
    pub counters: Map<Address, CollectionInfo>,
}

impl Store {
    /// The keys of the stake records that `user` owns.
    pub open spec fn staked_by(self, user: Address) -> Set<StakeKey> {
        self.stakes.dom().filter(|key: StakeKey| self.stakes[key].owner == user)
    }

    /// Whether every ledger counts exactly the stake records that its
    /// staker owns.
    pub open spec fn consistent(self) -> bool {
        &&& self.stakes.dom().finite()
        &&& forall|user: Address| #[trigger]
            self.ledgers.dom().contains(user) ==> self.ledgers[user].amount_staked
                == self.staked_by(user).len()
    }

    /// What the store finds under the key of a stake record.
    pub open spec fn stake_record(self, config: Address, asset: Address) -> Option<StakeAccount> {
        if self.stakes.dom().contains((config, asset)) {
            Some(self.stakes[(config, asset)])
        } else {
            None
        }
    }

    /// Whether the records are those that the store keeps under the keys
    /// given.
    pub open spec fn keeps(
        self,
        key: StakeKey,
        stake_account: Option<StakeAccount>,
        user: Address,
        user_account: UserAccount,
        collection: Address,
        collection_info: CollectionInfo,
    ) -> bool {
        &&& stake_account == self.stake_record(key.0, key.1)
        &&& self.ledgers.dom().contains(user)
        &&& self.ledgers[user] == user_account
        &&& self.counters.dom().contains(collection)
        &&& self.counters[collection] == collection_info
    }

    /// The store with the records put under the keys given; no stake
    /// record means that the one under the key is deleted.
    pub open spec fn put(
        self,
        key: StakeKey,
        stake_account: Option<StakeAccount>,
        user: Address,
        user_account: UserAccount,
        collection: Address,
        collection_info: CollectionInfo,
    ) -> Store {
        Store {
            stakes: match stake_account {
                Some(record) => self.stakes.insert(key, record),
                None => self.stakes.remove(key),
            },
            ledgers: self.ledgers.insert(user, user_account),
            counters: self.counters.insert(collection, collection_info),
        }
    }

    /// Whether the accounts of a staking hold the records that the store
    /// keeps for the caller, the asset and the collection.
    pub open spec fn keeps_for_stake(self, accounts: Stake) -> bool {
        self.keeps(
            (accounts.config.address, accounts.asset.key),
            accounts.stake_account,
            accounts.user,
            accounts.user_account,
            accounts.collection.key,
            accounts.collection_info,
        )
    }

    /// The store once it has taken the records of a staking back.
    pub open spec fn after_stake(self, accounts: Stake) -> Store {
        self.put(
            (accounts.config.address, accounts.asset.key),
            accounts.stake_account,
            accounts.user,
            accounts.user_account,
            accounts.collection.key,
            accounts.collection_info,
        )
    }

    /// Whether the accounts of an unstaking hold the records that the
    /// store keeps for the caller, the asset and the collection.
    pub open spec fn keeps_for_unstake(self, accounts: Unstake) -> bool {
        self.keeps(
            (accounts.config.address, accounts.asset.key),
            accounts.stake_account,
            accounts.user,
            accounts.user_account,
            accounts.collection.key,
            accounts.collection_info,
        )
    }

    /// The store once it has taken the records of an unstaking back.
    pub open spec fn after_unstake(self, accounts: Unstake) -> Store {
        self.put(
            (accounts.config.address, accounts.asset.key),
            accounts.stake_account,
            accounts.user,
            accounts.user_account,
            accounts.collection.key,
            accounts.collection_info,
        )
    }

    /// Putting back what the store keeps changes nothing.
    proof fn lemma_put_what_is_kept(
        self,
        key: StakeKey,
        stake_account: Option<StakeAccount>,
        user: Address,
        user_account: UserAccount,
        collection: Address,
        collection_info: CollectionInfo,
    )
        requires
            self.keeps(key, stake_account, user, user_account, collection, collection_info),
        ensures
            self.put(key, stake_account, user, user_account, collection, collection_info) == self,
    {
        let put = self.put(key, stake_account, user, user_account, collection, collection_info);
        assert(put.stakes =~= self.stakes);
        assert(put.ledgers =~= self.ledgers);
        assert(put.counters =~= self.counters);
    }

    /// A new stake record under a free key, counted in its owner's ledger,
    /// keeps the store consistent.
    proof fn lemma_record_added(self, key: StakeKey, record: StakeAccount, ledger: UserAccount)
        requires
            self.consistent(),
            !self.stakes.dom().contains(key),
            self.ledgers.dom().contains(record.owner),
            ledger.amount_staked == self.ledgers[record.owner].amount_staked + 1,
        ensures
            (Store {
                stakes: self.stakes.insert(key, record),
                ledgers: self.ledgers.insert(record.owner, ledger),
                counters: self.counters,
            }).consistent(),
    {
        let after = Store {
            stakes: self.stakes.insert(key, record),
            ledgers: self.ledgers.insert(record.owner, ledger),
            counters: self.counters,
        };
        assert forall|user: Address| #[trigger]
            after.ledgers.dom().contains(user) implies after.ledgers[user].amount_staked
            == after.staked_by(user).len() by {
            self.stakes.dom().lemma_len_filter(|k: StakeKey| self.stakes[k].owner == user);
            if user == record.owner {
                assert(after.staked_by(user) =~= self.staked_by(user).insert(key));
            } else {
                assert(after.staked_by(user) =~= self.staked_by(user));
            }
        }
    }

    /// A stake record deleted, and counted off its owner's ledger, keeps
    /// the store consistent.
    proof fn lemma_record_removed(self, key: StakeKey, ledger: UserAccount)
        requires
            self.consistent(),
            self.stakes.dom().contains(key),
            self.ledgers.dom().contains(self.stakes[key].owner),
            ledger.amount_staked == self.ledgers[self.stakes[key].owner].amount_staked - 1,
        ensures
            (Store {
                stakes: self.stakes.remove(key),
                ledgers: self.ledgers.insert(self.stakes[key].owner, ledger),
                counters: self.counters,
            }).consistent(),
    {
        let owner = self.stakes[key].owner;
        let after = Store {
            stakes: self.stakes.remove(key),
            ledgers: self.ledgers.insert(owner, ledger),
            counters: self.counters,
        };
        assert forall|user: Address| #[trigger]
            after.ledgers.dom().contains(user) implies after.ledgers[user].amount_staked
            == after.staked_by(user).len() by {
            self.stakes.dom().lemma_len_filter(|k: StakeKey| self.stakes[k].owner == user);
            if user == owner {
                assert(after.staked_by(user) =~= self.staked_by(user).remove(key));
            } else {
                assert(after.staked_by(user) =~= self.staked_by(user));
            }
        }
    }
}

/// In a consistent store, the ledger of a staker who owns a stake record
/// counts at least that one.
pub proof fn lemma_owner_has_assets_staked(store: Store, accounts: Unstake)
    requires
        store.consistent(),
        store.keeps_for_unstake(accounts),
        accounts.stake_account is Some,
        accounts.stake_account->0.owner == accounts.user,
    ensures
        accounts.user_account.amount_staked >= 1,
{
    let key = (accounts.config.address, accounts.asset.key);
    store.stakes.dom().lemma_len_filter(|k: StakeKey| store.stakes[k].owner == accounts.user);
    assert(store.staked_by(accounts.user).contains(key));
    if store.staked_by(accounts.user).len() == 0 {
        assert(store.staked_by(accounts.user) =~= Set::empty());
    }
}

/// Staking keeps the store consistent. If the store is consistent and the
/// accounts hold its records, then after any signal the store that takes
/// the records back is consistent again, the accounts hold its records
/// again, and the asset has a stake record exactly if it had one before or
/// the signal settled the staking.
pub proof fn lemma_stake_keeps_store_consistent(store: Store, accounts: Stake, signal: Signal)
    requires
        store.consistent(),
        store.keeps_for_stake(accounts),
        accounts.coherent(),
    ensures
        store.after_stake(accounts.next(signal)).consistent(),
        store.after_stake(accounts.next(signal)).keeps_for_stake(accounts.next(signal)),
        accounts.next(signal).coherent(),
        !(accounts.turn(signal) is Settled) ==> store.after_stake(accounts.next(signal)) == store,
        accounts.turn(signal) is Settled ==> accounts.stake_account is None && store.after_stake(
            accounts.next(signal),
        ).stake_record(accounts.config.address, accounts.asset.key) is Some,
{
    let key = (accounts.config.address, accounts.asset.key);
    let after = accounts.next(signal);
    crate::stake::lemma_coherence_is_kept(accounts, signal);
    if accounts.turn(signal) is Settled {
        let settlement = accounts.progress->Locking_0;
        let now = choose|now: i64| settlement == accounts.settlement(now);
        let added = Store {
            stakes: store.stakes.insert(key, settlement.stake_account),
            ledgers: store.ledgers.insert(accounts.user, settlement.user_account),
            counters: store.counters,
        };
        store.lemma_record_added(key, settlement.stake_account, settlement.user_account);
        let put = store.after_stake(after);
        assert(put.stakes =~= added.stakes);
        assert(put.ledgers =~= added.ledgers);
        assert forall|user: Address| #[trigger]
            put.ledgers.dom().contains(user) implies put.ledgers[user].amount_staked
            == put.staked_by(user).len() by {
            assert(added.ledgers.dom().contains(user));
            assert(put.staked_by(user) =~= added.staked_by(user));
        }
    } else {
        store.lemma_put_what_is_kept(
            key,
            accounts.stake_account,
            accounts.user,
            accounts.user_account,
            accounts.collection.key,
            accounts.collection_info,
        );
    }
}

/// Unstaking keeps the store consistent. If the store is consistent and
/// the accounts hold its records, then after any signal the store that
/// takes the records back is consistent again, the accounts hold its
/// records again, and the asset's stake record is gone exactly if there
/// was none before or the signal settled the unstaking.
pub proof fn lemma_unstake_keeps_store_consistent(store: Store, accounts: Unstake, signal: Signal)
    requires
        store.consistent(),
        store.keeps_for_unstake(accounts),
        accounts.coherent(),
    ensures
        store.after_unstake(accounts.next(signal)).consistent(),
        store.after_unstake(accounts.next(signal)).keeps_for_unstake(accounts.next(signal)),
        accounts.next(signal).coherent(),
        !(accounts.turn(signal) is Settled) ==> store.after_unstake(accounts.next(signal))
            == store,
        accounts.turn(signal) is Settled ==> accounts.stake_account is Some
            && store.after_unstake(accounts.next(signal)).stake_record(
            accounts.config.address,
            accounts.asset.key,
        ) is None,
{
    let key = (accounts.config.address, accounts.asset.key);
    let after = accounts.next(signal);
    crate::unstake::lemma_coherence_is_kept(accounts, signal);
    if accounts.turn(signal) is Settled {
        let settlement = accounts.progress->Removing_0;
        let now = choose|now: i64|
            accounts.refusal(now) is None && settlement == accounts.settlement(now);
        let removed = Store {
            stakes: store.stakes.remove(key),
            ledgers: store.ledgers.insert(accounts.user, settlement.user_account),
            counters: store.counters,
        };
        store.lemma_record_removed(key, settlement.user_account);
        let put = store.after_unstake(after);
        assert(put.stakes =~= removed.stakes);
        assert(put.ledgers =~= removed.ledgers);
        assert forall|user: Address| #[trigger]
            put.ledgers.dom().contains(user) implies put.ledgers[user].amount_staked
            == put.staked_by(user).len() by {
            assert(removed.ledgers.dom().contains(user));
            assert(put.staked_by(user) =~= removed.staked_by(user));
        }
    } else {
        store.lemma_put_what_is_kept(
            key,
            accounts.stake_account,
            accounts.user,
            accounts.user_account,
            accounts.collection.key,
            accounts.collection_info,
        );
    }
}

/// Operations on different assets, by different stakers, in different
/// collections do not touch each other's records: what one puts back
/// leaves the other's records as the store kept them, and the store ends
/// the same in whichever order the two put their records back.
pub proof fn lemma_separate_operations_are_independent(
    store: Store,
    key: StakeKey,
    stake_account: Option<StakeAccount>,
    user: Address,
    user_account: UserAccount,
    collection: Address,
    collection_info: CollectionInfo,
    other_key: StakeKey,
    other_stake_account: Option<StakeAccount>,
    other_user: Address,
    other_user_account: UserAccount,
    other_collection: Address,
    other_collection_info: CollectionInfo,
)
    requires
        key != other_key,
        user != other_user,
        collection != other_collection,
    ensures
        store.keeps(
            other_key,
            other_stake_account,
            other_user,
            other_user_account,
            other_collection,
            other_collection_info,
        ) ==> store.put(
            key,
            stake_account,
            user,
            user_account,
            collection,
            collection_info,
        ).keeps(
            other_key,
            other_stake_account,
            other_user,
            other_user_account,
            other_collection,
            other_collection_info,
        ),
        store.put(key, stake_account, user, user_account, collection, collection_info).put(
            other_key,
            other_stake_account,
            other_user,
            other_user_account,
            other_collection,
            other_collection_info,
        ) == store.put(
            other_key,
            other_stake_account,
            other_user,
            other_user_account,
            other_collection,
            other_collection_info,
        ).put(key, stake_account, user, user_account, collection, collection_info),
{
    let first = store.put(key, stake_account, user, user_account, collection, collection_info).put(
        other_key,
        other_stake_account,
        other_user,
        other_user_account,
        other_collection,
        other_collection_info,
    );
    let second = store.put(
        other_key,
        other_stake_account,
        other_user,
        other_user_account,
        other_collection,
        other_collection_info,
    ).put(key, stake_account, user, user_account, collection, collection_info);
    assert(first.stakes =~= second.stakes);
    assert(first.ledgers =~= second.ledgers);
    assert(first.counters =~= second.counters);
}

} // verus!
