//! Deterministic key derivation, address enumeration and wallet export for
//! Chia wallets generated from a mnemonic seed phrase.

pub mod address;
pub mod chia_rpc;
pub mod derivation;
pub mod dispatch;
pub mod enumerate;
pub mod export;
pub mod hexadecimal;
pub mod keys;
pub mod label;
pub mod mnemonic;
pub mod random;
pub mod wallet;
