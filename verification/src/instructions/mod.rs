//! The payments program: for each instruction the accounts that it demands, and the calls
//! that its handler makes.
pub mod accounts;
pub mod apply_pending;
pub mod deposit;
pub mod initialize_mint;
pub mod transfer_confidential;
pub mod withdraw;
