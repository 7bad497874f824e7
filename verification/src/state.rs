//! The records that staking reads and writes, as plain values.

use crate::address::Address;
use vstd::prelude::*;

verus! {

/// The parameters that the administrator set once.
#[derive(Clone, Copy, Debug, PartialEq, Eq)]
pub struct StakeConfig {
    /// Where the configuration lives; part of every stake record's address.
    pub address: Address,
    /// Least time in seconds that an asset stays staked. It is compared in
    /// whole days.
    pub freeze_period: u32,
    /// Points earned by one asset in one full day.
    pub points_per_stake: u32,
}

/// How many assets of one collection are staked at present.
#[derive(Clone, Copy, Debug, PartialEq, Eq)]
pub struct CollectionInfo {
    /// The collection that is counted.
    pub collection: Address,
    /// Assets of the collection that are staked now.
    pub staked_count: u32,
}

/// What one staker has earned and holds staked.
#[derive(Clone, Copy, Debug, PartialEq, Eq)]
pub struct UserAccount {
    /// Points earned so far. They never decrease.
    pub points: u64,
    /// Assets that the staker has staked now.
    pub amount_staked: u32,
}

/// The record of one staked asset. It exists from staking to unstaking, and
/// its own address is the authority that may unlock the asset.
#[derive(Clone, Copy, Debug, PartialEq, Eq)]
pub struct StakeAccount {
    /// Where the record lives. The address is derived from the
    /// configuration and the asset, so an asset has at most one record.
    pub address: Address,
    /// The staker, who alone may unstake.
    pub owner: Address,
    /// When the asset was locked, in seconds of the host clock.
    pub staked_at: i64,
    /// The last seed of the derivation of `address`.
    pub bump: u8,
}

/// An account of the asset registry as the host ledger presents it.
#[derive(Clone, Copy, Debug, PartialEq, Eq)]
pub struct RegistryAccount {
    /// The identity of the asset or collection.
    pub key: Address,
    /// The program that owns the account.
    pub program: Address,
}

/// An asset as the registry records it.
#[derive(Clone, Copy, Debug, PartialEq, Eq)]
pub struct AssetAccount {
    /// The identity of the asset.
    pub key: Address,
    /// The program that owns the account.
    pub program: Address,
    /// Who holds the asset.
    pub holder: Address,
    /// The collection that the asset belongs to.
    pub collection: Address,
}

/// The tag that every stake record's address is derived under: the bytes of
/// the word "stake".
pub open spec fn stake_tag() -> Seq<u8> {
    seq![115u8, 116u8, 97u8, 107u8, 101u8]
}

/// The seeds under which the record of `asset` signs, and from which its
/// address is derived: the tag, the configuration, the asset, and the bump.
pub open spec fn stake_seeds(config: Address, asset: Address, bump: u8) -> Seq<Seq<u8>> {
    seq![stake_tag(), config@, asset@, seq![bump]]
}

/// The exact value of [`stake_seeds`].
pub fn signer_seeds(config: &Address, asset: &Address, bump: u8) -> (seeds: Vec<Vec<u8>>)
    ensures
        seeds.deep_view() == stake_seeds(*config, *asset, bump),
{
    let mut tag: Vec<u8> = Vec::new();
    tag.push(115u8);
    tag.push(116u8);
    tag.push(97u8);
    tag.push(107u8);
    tag.push(101u8);
    let mut last: Vec<u8> = Vec::new();
    last.push(bump);
    let mut seeds: Vec<Vec<u8>> = Vec::new();
    seeds.push(tag);
    seeds.push(config.to_vec());
    seeds.push(asset.to_vec());
    seeds.push(last);
    assert(seeds.deep_view() =~~= stake_seeds(*config, *asset, bump));
    seeds
}

} // verus!
