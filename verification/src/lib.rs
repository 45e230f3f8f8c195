//! Verified core of the HookSwap programs: a registry of approved transfer
//! hooks, a constant-product pool, a KYC hook, a whitelist hook and a token
//! layer.  Every record is a plain value; every instruction is a function
//! from the records and its arguments to the new records and a result.

pub mod hook_interface;
pub mod hook_registry;
pub mod hookswap_amm;
pub mod host;
pub mod kyc_hook;
pub mod math;
pub mod pubkey;
pub mod token_layer;
pub mod token_program;
pub mod whitelist_hook;
