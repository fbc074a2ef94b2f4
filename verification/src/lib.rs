pub mod account;
pub mod airdrop;
pub mod codec;
pub mod crypto;
pub mod derivation;
pub mod errors;
pub mod instruction;
pub mod keypair;
pub mod message;
pub mod send;
pub mod token;
pub mod transfer;
pub mod validate;
