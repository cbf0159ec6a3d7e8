//! Proof-of-work solutions and RandomX seed scheduling, with verified contracts.

pub mod block;
pub mod bytes;
pub mod difficulty;
pub mod equihash;
pub mod equihash_verify;
pub mod hex_codec;
pub mod mining;
pub mod randomx;
