//! The accounts that a settlement reads, as plain values.

use vstd::prelude::*;

verus! {

/// An asset type: its key and the number of decimals of its amounts.
#[derive(Clone, Copy, Debug, PartialEq, Eq)]
pub struct Mint {
    pub key: [u8; 32],
    pub decimals: u8,
}

/// A holding of one asset type, owned by one authority.
#[derive(Clone, Copy, Debug, PartialEq, Eq)]
pub struct TokenAccount {
    pub key: [u8; 32],
    pub mint: [u8; 32],
    pub owner: [u8; 32],
    pub amount: u64,
    /// The storage allowance held by the account, returned when it closes.
    pub lamports: u64,
}

/// The record of one pending trade.
#[derive(Clone, Copy, Debug, PartialEq, Eq)]
pub struct Escrow {
    pub seed: u64,
    pub maker: [u8; 32],
    pub mint_a: [u8; 32],
    pub mint_b: [u8; 32],
    /// The amount of asset B that the maker asks for.
    pub receive: u64,
    pub bump: u8,
}

/// A checked transfer of `amount` of the asset `mint` from `from` to `to`,
/// authorized by `authority`; `signer_seeds` is empty where `authority` signs
/// itself, else the seeds of the derived authority.
#[derive(Clone, Debug, PartialEq, Eq)]
pub struct TransferChecked {
    pub from: [u8; 32],
    pub mint: [u8; 32],
    pub to: [u8; 32],
    pub authority: [u8; 32],
    pub amount: u64,
    pub decimals: u8,
    pub signer_seeds: Vec<Vec<u8>>,
}

/// The closing of the token account `account`, whose storage allowance goes to
/// `destination`, authorized by the derived authority `authority`.
#[derive(Clone, Debug, PartialEq, Eq)]
pub struct CloseAccount {
    pub account: [u8; 32],
    pub destination: [u8; 32],
    pub authority: [u8; 32],
    pub signer_seeds: Vec<Vec<u8>>,
}

} // verus!
