//! The durable records of the wallet registry.
use vstd::prelude::*;

use crate::address::{Address, Passkey};

verus! {

/// The most programs the rule whitelist holds.
pub const MAX_WHITELIST_LEN: usize = 10;

/// Program-wide settings.
#[derive(Clone, Copy, Debug)]
pub struct Config {
    pub create_smart_wallet_fee: u64,
    pub default_rule_program: Address,
    pub authority_bump: u8,
    pub bump: u8,
}

/// The rule programs that wallets may attach.
#[derive(Clone, Debug)]
pub struct WhitelistRulePrograms {
    pub list: Vec<Address>,
    pub bump: u8,
}

impl WhitelistRulePrograms {
    /// The list stays within its bound.
    pub open spec fn wf(&self) -> bool {
        self.list@.len() <= MAX_WHITELIST_LEN
    }

    /// Whether the list holds the program.
    pub open spec fn holds(&self, program: Seq<u8>) -> bool {
        exists|i: int| 0 <= i < self.list@.len() && #[trigger] self.list@[i]@ == program
    }
}

/// The source of wallet ids.
#[derive(Clone, Copy, Debug)]
pub struct SmartWalletSeq {
    pub seq: u64,
    pub bump: u8,
}

/// Per-wallet settings.
#[derive(Clone, Copy, Debug)]
pub struct SmartWalletConfig {
    pub id: u64,
    pub rule_program: Address,
    pub bump: u8,
}

/// The binding of one passkey to one wallet, with the nonce that the next
/// signed message must carry.
#[derive(Clone, Copy, Debug)]
pub struct SmartWalletAuthenticator {
    pub passkey_pubkey: Passkey,
    pub smart_wallet: Address,
    pub nonce: u64,
    pub bump: u8,
}

} // verus!
