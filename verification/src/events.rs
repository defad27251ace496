use vstd::prelude::*;
use crate::state::Identity;

verus! {

/// Emitted once when a token (mint plus metadata descriptor) is created.
#[derive(Clone, Debug)]
pub struct TokenCreated {
    pub mint: Identity,
    pub authority: Identity,
    pub decimals: u8,
    pub name: String,
    pub symbol: String,
}

/// Emitted once per successful issuance.
#[derive(Clone, Copy, Debug)]
pub struct TokensMinted {
    pub mint: Identity,
    pub recipient: Identity,
    pub amount: u64,
}

/// Emitted once per successful transfer.
#[derive(Clone, Copy, Debug)]
pub struct TokensTransferred {
    pub mint: Identity,
    pub from: Identity,
    pub to: Identity,
    pub amount: u64,
}

/// Emitted once per successful burn.
#[derive(Clone, Copy, Debug)]
pub struct TokensBurned {
    pub mint: Identity,
    pub account: Identity,
    pub amount: u64,
}

/// Emitted once when an account is frozen.
#[derive(Clone, Copy, Debug)]
pub struct AccountFrozen {
    pub mint: Identity,
    pub account: Identity,
}

/// Emitted once when a frozen account is thawed.
#[derive(Clone, Copy, Debug)]
pub struct AccountThawed {
    pub mint: Identity,
    pub account: Identity,
}

} // verus!
