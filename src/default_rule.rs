//! The default rule module: the wallet's first authenticator is its admin,
//! and every action by the admin is allowed.
use vstd::prelude::*;
use vstd::string::StringSliceAdditionalSpecFns;

use crate::address::{derive_address, program_address_of, Address};
use crate::secp::AccountMeta;

verus! {

/// Errors of the default rule module.
#[derive(Debug, Clone, Copy, PartialEq, Eq, Structural)]
pub enum DefaultRuleError {
    /// The authenticator is not the rule's admin, or did not sign.
    InvalidAuthenticator,
    /// The rule belongs to another wallet.
    InvalidSmartWallet,
    /// The rule account is not the one derived for the wallet.
    InvalidRuleAccount,
    /// A balance would overflow.
    ArithmeticOverflow,
}

/// A wallet's policy record.
#[derive(Clone, Copy, Debug)]
pub struct Rule {
    pub smart_wallet: Address,
    pub admin: Address,
    pub is_initialized: bool,
    pub bump: u8,
}

/// The module's settings.
#[derive(Clone, Copy, Debug)]
pub struct Config {
    pub authority: Address,
}

/// Seeds of a wallet's rule record.
pub open spec fn rule_seeds(wallet: Seq<u8>) -> Seq<Seq<u8>> {
    seq!["rule".spec_bytes(), wallet]
}

/// The module's settings, naming the engine's authority.
pub fn initialize(lazorkit_author: Address) -> (r: Config)
    ensures
        r.authority == lazorkit_author,
{
    Config { authority: lazorkit_author }
}

/// Creates the rule record of `smart_wallet` at `rule`, with the signing
/// authenticator as admin.
pub fn init_rule(
    program_id: &Address,
    smart_wallet: &Address,
    smart_wallet_authenticator: &AccountMeta,
    rule: &Address,
) -> (r: Result<Rule, DefaultRuleError>)
    ensures
        !smart_wallet_authenticator.is_signer ==> r == Err::<Rule, DefaultRuleError>(
            DefaultRuleError::InvalidAuthenticator,
        ),
        smart_wallet_authenticator.is_signer ==> match program_address_of(
            rule_seeds(smart_wallet@),
            program_id@,
        ) {
            Some((a, b)) => if a == rule@ {
                r == Ok::<Rule, DefaultRuleError>(
                    Rule {
                        smart_wallet: *smart_wallet,
                        admin: smart_wallet_authenticator.pubkey,
                        is_initialized: false,
                        bump: b,
                    },
                )
            } else {
                r == Err::<Rule, DefaultRuleError>(DefaultRuleError::InvalidRuleAccount)
            },
            None => r == Err::<Rule, DefaultRuleError>(DefaultRuleError::InvalidRuleAccount),
        },
{
    if !smart_wallet_authenticator.is_signer {
        return Err(DefaultRuleError::InvalidAuthenticator);
    }
    let seeds = rule_seed_list(smart_wallet);
    match derive_address(&seeds, program_id) {
        Ok((a, b)) => {
            if crate::bytes::slice_eq(&a, rule) {
                Ok(
                    Rule {
                        smart_wallet: *smart_wallet,
                        admin: smart_wallet_authenticator.pubkey,
                        is_initialized: false,
                        bump: b,
                    },
                )
            } else {
                Err(DefaultRuleError::InvalidRuleAccount)
            }
        },
        Err(_) => Err(DefaultRuleError::InvalidRuleAccount),
    }
}

fn rule_seed_list(wallet: &Address) -> (r: Vec<Vec<u8>>)
    ensures
        r.deep_view() == rule_seeds(wallet@),
{
    let a = vstd::slice::slice_to_vec("rule".as_bytes());
    let b = vstd::slice::slice_to_vec(wallet.as_slice());
    let ghost av = a@;
    let ghost bv = b@;
    let r: Vec<Vec<u8>> = vec![a, b];
    assert(r@[0].deep_view() =~= av);
    assert(r@[1].deep_view() =~= bv);
    assert(r.deep_view() =~= rule_seeds(wallet@));
    r
}

/// Allows an action exactly when the rule's admin signed it.
pub fn check_rule(smart_wallet_authenticator: &AccountMeta, rule: &Rule) -> (r: Result<
    (),
    DefaultRuleError,
>)
    ensures
        r is Ok <==> (smart_wallet_authenticator.is_signer && smart_wallet_authenticator.pubkey@
            == rule.admin@),
        r is Err ==> r == Err::<(), DefaultRuleError>(DefaultRuleError::InvalidAuthenticator),
{
    if smart_wallet_authenticator.is_signer && crate::bytes::slice_eq(
        &smart_wallet_authenticator.pubkey,
        &rule.admin,
    ) {
        Ok(())
    } else {
        Err(DefaultRuleError::InvalidAuthenticator)
    }
}

/// Closes the wallet's rule record at the admin's request, refunding its
/// balance to the wallet.
pub fn destroy(
    smart_wallet: &Address,
    smart_wallet_authenticator: &AccountMeta,
    rule: &Rule,
    rule_balance: &mut u64,
    wallet_balance: &mut u64,
) -> (r: Result<(), DefaultRuleError>)
    ensures
        r is Ok <==> (smart_wallet_authenticator.is_signer && smart_wallet_authenticator.pubkey@
            == rule.admin@ && rule.smart_wallet@ == smart_wallet@ && *old(rule_balance) + *old(
            wallet_balance,
        ) <= u64::MAX),
        !(smart_wallet_authenticator.is_signer && smart_wallet_authenticator.pubkey@
            == rule.admin@) ==> r == Err::<(), DefaultRuleError>(
            DefaultRuleError::InvalidAuthenticator,
        ),
        smart_wallet_authenticator.is_signer && smart_wallet_authenticator.pubkey@ == rule.admin@
            && rule.smart_wallet@ != smart_wallet@ ==> r == Err::<(), DefaultRuleError>(
            DefaultRuleError::InvalidSmartWallet,
        ),
        r is Ok ==> *final(rule_balance) == 0 && *final(wallet_balance) == *old(wallet_balance)
            + *old(rule_balance),
        r is Err ==> *final(rule_balance) == *old(rule_balance) && *final(wallet_balance) == *old(
            wallet_balance,
        ),
{
    if let Err(e) = check_rule(smart_wallet_authenticator, rule) {
        return Err(e);
    }
    if !crate::bytes::slice_eq(&rule.smart_wallet, smart_wallet) {
        return Err(DefaultRuleError::InvalidSmartWallet);
    }
    if *wallet_balance > u64::MAX - *rule_balance {
        return Err(DefaultRuleError::ArithmeticOverflow);
    }
    *wallet_balance = *wallet_balance + *rule_balance;
    *rule_balance = 0;
    Ok(())
}

} // verus!
