//! Why an operation was refused.

use vstd::prelude::*;

verus! {

/// The reasons for which staking or unstaking is refused. Every refusal
/// leaves the records as they were.
#[derive(Clone, Copy, Debug, PartialEq, Eq, Hash)]
pub enum StakeError {
    /// The caller does not own the asset or the stake record, or the asset's
    /// account does not belong to the asset registry.
    InvalidOwnership,
    /// The collection presented is not the collection of the asset, of the
    /// counter, or of the asset registry.
    InvalidCollectionMembership,
    /// The stake has lasted fewer whole days than the freeze period asks
    /// for. Trying again later can succeed.
    FreezePeriodNotElapsed,
    /// The asset registry turned down a request to lock, unlock or release
    /// the asset.
    RegistryCallFailed,
    /// There is no stake record for the asset.
    RecordNotFound,
    /// The asset already has a stake record.
    AlreadyStaked,
    /// A counter or the points total would leave the range of its type.
    ArithmeticOverflow,
}

impl StakeError {
    /// Whether the same call can succeed later without anything else
    /// changing but the clock.
    pub open spec fn clears_with_time(self) -> bool {
        self is FreezePeriodNotElapsed
    }

    /// The exact value of [`StakeError::clears_with_time`].
    pub fn is_retryable(&self) -> (retryable: bool)
        ensures
            retryable == self.clears_with_time(),
    {
        match self {
            StakeError::FreezePeriodNotElapsed => true,
            _ => false,
        }
    }
}

} // verus!
