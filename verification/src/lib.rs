//! Confidential payments on Token-2022: a program whose instructions stand in front of the
//! token program's confidential transfers, and a client that keeps the encrypted balances of
//! a wallet.
//!
//! - `instructions` is the program: what each instruction demands of its accounts, and the
//!   calls that its handler makes.
//! - `client` and `session` are the client. A request is a conversation: the library says
//!   what to read, to send or to tell, and goes on with the answer. Nothing here touches the
//!   network.
//! - `keys` and `balance` are the secrets: deriving the keys of an account, reading its
//!   balances, and proving what a payment claims.
//! - `calls`, `token`, `system` and `zk` are the instructions that travel: the program's own,
//!   and those of the programs that it works with.
//! - `meanings` says what the words of the contracts mean: numbers in bytes, balances, accounts
//!   that were read, calls.
//! - `program` states what becomes of each instruction, and `requests` what becomes of each
//!   request, from the call that opens it to its answer.
//! - `laws`, `promises` and `outcomes` state what holds of whole conversations and of the
//!   money.
pub mod address;
pub mod balance;
pub mod bytes;
pub mod calls;
pub mod client;
pub mod error;
pub mod instruction;
pub mod instructions;
pub mod keys;
pub mod laws;
pub mod meanings;
pub mod outcomes;
pub mod program;
pub mod promises;
pub mod requests;
pub mod session;
pub mod state;
pub mod system;
pub mod token;
pub mod zk;
