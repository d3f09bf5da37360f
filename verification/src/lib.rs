//! Ethereum-compatible key generation: a secp256k1 key pair, the address
//! derived from it, its textual renderings, and the genesis-block data model.

pub mod encoding;
pub mod entropy;
pub mod genesis;
pub mod keys;
pub mod params;

pub use crate::entropy::get_nstime;
pub use crate::genesis::{Allocation, ConfigBlock, GenesisBlock};
pub use crate::keys::{Address, KeyError, KeyPair};
pub use crate::params::{Output, OutputError, Params};
