//! Addresses, and those of the programs that take part.
use vstd::prelude::*;

verus! {

/// The address of an account or a program.
pub type Pubkey = [u8; 32];

/// The payments program: `8DXYc6hMDiU9jh5QJSYVR59kkvpoJKCnLWoSUn8V1L27`.
pub const ID: Pubkey = [
    107, 55, 80, 192, 177, 79, 176, 30, 112, 136, 7, 148, 59, 180, 95, 5,
    253, 150, 119, 89, 167, 105, 161, 34, 208, 47, 152, 170, 66, 192, 244, 204,
];

/// The Token-2022 program: `TokenzQdBNbLqP5VEhdkAS6EPFLC1PHnBqCXEpPxuEb`.
pub const TOKEN_2022: Pubkey = [
    6, 221, 246, 225, 238, 117, 143, 222, 24, 66, 93, 188, 228, 108, 205, 218,
    182, 26, 252, 77, 131, 185, 13, 39, 254, 189, 249, 40, 216, 161, 139, 252,
];

/// The first token program: `TokenkegQfeZyiNwAJbNbGKPFXCWuBvf9Ss623VQ5DA`.
pub const TOKEN: Pubkey = [
    6, 221, 246, 225, 215, 101, 161, 147, 217, 203, 225, 70, 206, 235, 121, 172,
    28, 180, 133, 237, 95, 91, 55, 145, 58, 140, 245, 133, 126, 255, 0, 169,
];

/// The associated token account program: `ATokenGPvbdGVxr1b2hvZbsiqW5xWH25efTNsLJA8knL`.
pub const ASSOCIATED_TOKEN: Pubkey = [
    140, 151, 37, 143, 78, 36, 137, 241, 187, 61, 16, 41, 20, 142, 13, 131,
    11, 90, 19, 153, 218, 255, 16, 132, 4, 142, 123, 216, 219, 233, 248, 89,
];

/// The ZK ElGamal proof program: `ZkE1Gama1Proof11111111111111111111111111111`.
pub const ZK_ELGAMAL_PROOF: Pubkey = [
    8, 99, 117, 172, 226, 174, 234, 40, 26, 107, 55, 77, 104, 27, 167, 106,
    83, 204, 246, 56, 192, 116, 85, 147, 108, 5, 208, 101, 64, 0, 0, 0,
];

/// The system program, whose address is 32 zero bytes.
pub const SYSTEM: Pubkey = [
    0, 0, 0, 0, 0, 0, 0, 0, 0, 0, 0, 0, 0, 0, 0, 0,
    0, 0, 0, 0, 0, 0, 0, 0, 0, 0, 0, 0, 0, 0, 0, 0,
];

} // verus!
