//! Addresses of stake accounts derived from one base key, and the messages
//! that create them, hand their authorities over and move them to a new base
//! key.

pub mod hash;
pub mod instruction;
pub mod message;
pub mod pubkey;
pub mod seed;
pub mod stake_accounts;
pub mod stake_program;
