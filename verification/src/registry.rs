//! The asset registry: what it is asked, and how a registry that follows its
//! interface answers.
//!
//! The registry itself is another program. Staking hands out
//! [`RegistryCall`]s and is told whether each was accepted. [`LockedAsset`]
//! states the behaviour that staking counts on, so that the order and the
//! signers of the calls can be checked against it.

use crate::address::Address;
use vstd::prelude::*;

verus! {

/// A request to the asset registry. Each names the signer that it is made
/// under: none relies on a signer known from elsewhere.
#[derive(Clone, Copy, Debug, PartialEq, Eq)]
pub enum RegistryCall {
    /// Attach a lock to the asset, frozen, with `authority` as the one
    /// signer that may change its state.
    AttachLock { asset: Address, collection: Address, authority: Address },
    /// Set the lock's state, signed by the lock's authority.
    SetLockState { asset: Address, collection: Address, signer: Address, frozen: bool },
    /// Take the lock off the asset, signed by the asset's holder.
    RemoveLock { asset: Address, collection: Address, signer: Address },
}

impl RegistryCall {
    /// The asset that the call is about.
    pub open spec fn asset(self) -> Address {
        match self {
            RegistryCall::AttachLock { asset, .. } => asset,
            RegistryCall::SetLockState { asset, .. } => asset,
            RegistryCall::RemoveLock { asset, .. } => asset,
        }
    }

    /// The collection that the call names.
    pub open spec fn collection(self) -> Address {
        match self {
            RegistryCall::AttachLock { collection, .. } => collection,
            RegistryCall::SetLockState { collection, .. } => collection,
            RegistryCall::RemoveLock { collection, .. } => collection,
        }
    }
}

/// A lock on an asset.
#[derive(Clone, Copy, Debug, PartialEq, Eq)]
pub struct Lock {
    /// The one signer that may freeze and unfreeze.
    pub authority: Address,
    /// Whether the asset is held in place.
    pub frozen: bool,
}

/// Where an asset stands on its way from unstaked to staked and back.
#[derive(Clone, Copy, Debug, PartialEq, Eq)]
pub enum LockStatus {
    /// The asset has no lock.
    Unstaked,
    /// The asset has a lock and is held in place.
    Frozen,
    /// The asset has a lock that holds it no longer and can be taken off.
    Unfrozen,
}

/// One asset as a registry that follows its interface keeps it.
#[derive(Clone, Copy, Debug, PartialEq, Eq)]
pub struct LockedAsset {
    /// The identity of the asset.
    pub key: Address,
    /// The collection that the asset belongs to.
    pub collection: Address,
    /// Who holds the asset.
    pub holder: Address,
    /// The lock, if one is attached.
    pub lock: Option<Lock>,
}

impl LockedAsset {
    /// Whether the registry accepts the call. It turns down a call that
    /// names another asset or collection; a lock on an asset that has one;
    /// a change of state that the lock's authority did not sign, or on an
    /// asset without a lock; and the removal of a lock that is still frozen,
    /// that the holder did not sign, or that is not there.
    pub open spec fn accepts(self, call: RegistryCall) -> bool {
        &&& call.asset() == self.key
        &&& call.collection() == self.collection
        &&& match call {
            RegistryCall::AttachLock { .. } => self.lock is None,
            RegistryCall::SetLockState { signer, .. } => self.lock matches Some(lock)
                && lock.authority == signer,
            RegistryCall::RemoveLock { signer, .. } => self.lock matches Some(lock) && !lock.frozen
                && signer == self.holder,
        }
    }

    /// The asset after a call that the registry accepted.
    pub open spec fn after(self, call: RegistryCall) -> LockedAsset {
        match call {
            RegistryCall::AttachLock { authority, .. } => LockedAsset {
                lock: Some(Lock { authority, frozen: true }),
                ..self
            },
            RegistryCall::SetLockState { signer, frozen, .. } => LockedAsset {
                lock: Some(Lock { authority: signer, frozen }),
                ..self
            },
            RegistryCall::RemoveLock { .. } => LockedAsset { lock: None, ..self },
        }
    }

    /// The asset after any call: changed if the call was accepted, as it
    /// was if not.
    pub open spec fn answer(self, call: RegistryCall) -> LockedAsset {
        if self.accepts(call) {
            self.after(call)
        } else {
            self
        }
    }

    /// Where the asset stands.
    pub open spec fn status(self) -> LockStatus {
        match self.lock {
            None => LockStatus::Unstaked,
            Some(lock) => if lock.frozen {
                LockStatus::Frozen
            } else {
                LockStatus::Unfrozen
            },
        }
    }

    /// Whether the asset is held frozen under the given authority.
    pub open spec fn frozen_under(self, authority: Address) -> bool {
        self.lock == Some(Lock { authority, frozen: true })
    }

    /// An asset of `collection` in the hands of `holder`, without a lock.
    pub fn new(key: Address, collection: Address, holder: Address) -> (asset: LockedAsset)
        ensures
            asset == (LockedAsset { key, collection, holder, lock: None }),
    {
        LockedAsset { key, collection, holder, lock: None }
    }

    /// The exact value of [`LockedAsset::status`].
    pub fn lock_status(&self) -> (status: LockStatus)
        ensures
            status == self.status(),
    {
        match self.lock {
            None => LockStatus::Unstaked,
            Some(lock) => if lock.frozen {
                LockStatus::Frozen
            } else {
                LockStatus::Unfrozen
            },
        }
    }

    /// Answers one call: says whether it was accepted, and carries it out
    /// if it was.
    pub fn apply(&mut self, call: &RegistryCall) -> (accepted: bool)
        ensures
            accepted == old(self).accepts(*call),
            *final(self) == old(self).answer(*call),
    {
        match call {
            RegistryCall::AttachLock { asset, collection, authority } => {
                if !asset.same(&self.key) || !collection.same(&self.collection) {
                    return false;
                }
                if self.lock.is_some() {
                    return false;
                }
                self.lock = Some(Lock { authority: *authority, frozen: true });
                true
            },
            RegistryCall::SetLockState { asset, collection, signer, frozen } => {
                if !asset.same(&self.key) || !collection.same(&self.collection) {
                    return false;
                }
                match self.lock {
                    Some(lock) => {
                        if !lock.authority.same(signer) {
                            return false;
                        }
                        self.lock = Some(Lock { authority: *signer, frozen: *frozen });
                        true
                    },
                    None => false,
                }
            },
            RegistryCall::RemoveLock { asset, collection, signer } => {
                if !asset.same(&self.key) || !collection.same(&self.collection) {
                    return false;
                }
                match self.lock {
                    Some(lock) => {
                        if lock.frozen || !signer.same(&self.holder) {
                            return false;
                        }
                        self.lock = None;
                        true
                    },
                    None => false,
                }
            },
        }
    }
}

/// An accepted call moves an asset one step and never past the unfreezing:
/// an unstaked asset can only be locked, and is frozen then; a frozen asset
/// can only have its state set by the lock's authority; the lock comes off
/// an unfrozen asset only, and leaves it unstaked.
pub proof fn lemma_status_moves_one_step(asset: LockedAsset, call: RegistryCall)
    requires
        asset.accepts(call),
    ensures
        match asset.status() {
            LockStatus::Unstaked => call is AttachLock && asset.after(call).status()
                == LockStatus::Frozen,
            LockStatus::Frozen => call matches RegistryCall::SetLockState { signer, frozen, .. }
                && signer == asset.lock->0.authority && asset.after(call).status() == (if frozen {
                LockStatus::Frozen
            } else {
                LockStatus::Unfrozen
            }),
            LockStatus::Unfrozen => (call matches RegistryCall::SetLockState { signer, frozen, .. }
                && signer == asset.lock->0.authority && asset.after(call).status() == (if frozen {
                LockStatus::Frozen
            } else {
                LockStatus::Unfrozen
            })) || (call matches RegistryCall::RemoveLock { signer, .. } && signer == asset.holder
                && asset.after(call).status() == LockStatus::Unstaked),
        },
        asset.after(call).key == asset.key,
        asset.after(call).collection == asset.collection,
        asset.after(call).holder == asset.holder,
        asset.after(call).lock is Some ==> asset.lock is Some ==> asset.after(call).lock->0.authority
            == asset.lock->0.authority,
{
}

/// A call that the registry turns down changes nothing.
pub proof fn lemma_refused_call_changes_nothing(asset: LockedAsset, call: RegistryCall)
    requires
        !asset.accepts(call),
    ensures
        asset.answer(call) == asset,
{
}

} // verus!
