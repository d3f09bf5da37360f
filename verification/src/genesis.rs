//! The genesis-block data model: chain configuration and the table of
//! pre-funded accounts.

use crate::encoding::{decimal, decimal_text};
use std::collections::BTreeMap;
use vstd::prelude::*;

verus! {

/// Block numbers at which the chain's forks take effect, and the consensus
/// engine's parameters by name.
#[derive(Clone, Debug)]
pub struct ConfigBlock {
    pub chain_id: u32,
    pub homestead_block: u32,
    pub dao_fork_block: u32,
    pub eip150_block: u32,
    pub eip155_block: u32,
    pub eip158_block: u32,
    pub byzantium_block: u32,
    pub constantinople_block: u32,
    pub constantinoplefixblock: u32,
    pub muir_glacier_block: u32,
    pub berlin_block: u32,
    pub london_block: u32,
    pub arrow_glacier_block: u32,
    pub gray_glacier_block: u32,
    pub zero_base_fee: u32,
    pub qbft: BTreeMap<String, u32>,
}

/// One pre-funded account. The balance is decimal text, so that it can
/// exceed 64 bits.
#[derive(Clone, Debug)]
pub struct Allocation {
    pub balance: String,
    pub address: String,
    pub comment: Option<String>,
    pub private_key: Option<String>,
    pub public_key: Option<String>,
}

impl Allocation {
    /// An allocation of `balance` to `address`: the balance is stored as its
    /// decimal text, every other field as given.
    pub fn new(
        balance: u128,
        address: String,
        private_key: Option<String>,
        public_key: Option<String>,
        comment: Option<String>,
    ) -> (allocation: Allocation)
        ensures
            allocation.balance@ == decimal(balance as nat),
            allocation.address == address,
            allocation.private_key == private_key,
            allocation.public_key == public_key,
            allocation.comment == comment,
    {
        Allocation { balance: decimal_text(balance), address, private_key, public_key, comment }
    }
}

/// The first block of a chain: its configuration, header fields as text, and
/// the allocations by address.
#[derive(Clone, Debug)]
pub struct GenesisBlock {
    pub config: ConfigBlock,
    pub nonce: String,
    pub gas_limit: String,
    pub difficulty: String,
    pub number: String,
    pub gas_used: String,
    pub parent_hash: String,
    pub mix_hash: String,
    pub extra_data: String,
    pub coinbase: String,
    pub alloc: BTreeMap<String, Allocation>,
}

} // verus!
