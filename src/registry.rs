//! Program bootstrap, wallet creation and the rule whitelist.
use vstd::prelude::*;
use vstd::string::StringSliceAdditionalSpecFns;

use crate::address::{
    authenticator_seeds, check_derived, derived_check, passkey_binding, singleton_seed,
    singleton_seeds, smart_wallet_authenticator_seeds, smart_wallet_config_seeds,
    smart_wallet_seeds, wallet_config_seeds, wallet_seeds, Address, Passkey,
};
use crate::cpi::{create_cpi_instruction, get_pda_signer, outgoing_accounts, signer_address};
use crate::engine::{invokes, Step};
use crate::error::LazorKitError;
use crate::secp::AccountMeta;
use crate::state::{
    Config, SmartWalletAuthenticator, SmartWalletConfig, SmartWalletSeq, WhitelistRulePrograms,
    MAX_WHITELIST_LEN,
};

verus! {

/// The accounts of the program's bootstrap.
#[derive(Clone, Copy, Debug)]
pub struct Initialize {
    pub program_id: Address,
    pub config: Address,
    pub whitelist_rule_programs: Address,
    pub smart_wallet_seq: Address,
    pub authority: Address,
    pub default_rule_program: Address,
}

/// The outcome of checking the bootstrap accounts; on success the bumps of
/// the configuration, whitelist, sequence and authority records.
pub open spec fn initialize_check(ctx: Initialize) -> Result<(u8, u8, u8, u8), LazorKitError> {
    let pid = ctx.program_id@;
    let c = derived_check(ctx.config@, singleton_seeds("config".spec_bytes()), pid);
    let w = derived_check(
        ctx.whitelist_rule_programs@,
        singleton_seeds("whitelist_rule_programs".spec_bytes()),
        pid,
    );
    let s = derived_check(ctx.smart_wallet_seq@, singleton_seeds("smart_wallet_seq".spec_bytes()), pid);
    let a = derived_check(ctx.authority@, singleton_seeds("authority".spec_bytes()), pid);
    if c is Err || w is Err || s is Err || a is Err {
        Err(LazorKitError::InvalidBump)
    } else {
        Ok((c->Ok_0, w->Ok_0, s->Ok_0, a->Ok_0))
    }
}

/// Creates the program-wide records: a configuration with no creation fee
/// and the given default rule program, a whitelist holding only that
/// program, and a sequence counter at zero.
pub fn initialize(ctx: &Initialize) -> (r: Result<
    (Config, WhitelistRulePrograms, SmartWalletSeq),
    LazorKitError,
>)
    ensures
        match r {
            Ok((config, whitelist, seq)) => initialize_check(*ctx) matches Ok((cb, wb, sb, ab)) && config
                == (Config {
                create_smart_wallet_fee: 0,
                default_rule_program: ctx.default_rule_program,
                authority_bump: ab,
                bump: cb,
            }) && whitelist.list@ == seq![ctx.default_rule_program] && whitelist.bump == wb
                && seq == (SmartWalletSeq { seq: 0, bump: sb }),
            Err(e) => initialize_check(*ctx) == Err::<(u8, u8, u8, u8), LazorKitError>(e),
        },
{
    let pid = &ctx.program_id;
    let c = check_derived(&ctx.config, &singleton_seed("config"), pid);
    let w = check_derived(&ctx.whitelist_rule_programs, &singleton_seed("whitelist_rule_programs"), pid);
    let s = check_derived(&ctx.smart_wallet_seq, &singleton_seed("smart_wallet_seq"), pid);
    let a = check_derived(&ctx.authority, &singleton_seed("authority"), pid);
    match (c, w, s, a) {
        (Ok(cb), Ok(wb), Ok(sb), Ok(ab)) => {
            let mut list: Vec<Address> = Vec::new();
            list.push(ctx.default_rule_program);
            Ok(
                (
                    Config {
                        create_smart_wallet_fee: 0,
                        default_rule_program: ctx.default_rule_program,
                        authority_bump: ab,
                        bump: cb,
                    },
                    WhitelistRulePrograms { list, bump: wb },
                    SmartWalletSeq { seq: 0, bump: sb },
                ),
            )
        },
        _ => Err(LazorKitError::InvalidBump),
    }
}

/// Adds a program to the whitelist; a full whitelist is refused unchanged.
pub fn upsert_whitelist_rule_programs(whitelist: &mut WhitelistRulePrograms, hook: Address) -> (r:
    Result<(), LazorKitError>)
    ensures
        old(whitelist).wf() ==> final(whitelist).wf(),
        final(whitelist).bump == old(whitelist).bump,
        old(whitelist).list@.len() < MAX_WHITELIST_LEN ==> r is Ok && final(whitelist).list@ == old(
            whitelist,
        ).list@.push(hook),
        old(whitelist).list@.len() >= MAX_WHITELIST_LEN ==> r == Err::<(), LazorKitError>(
            LazorKitError::WhitelistFull,
        ) && *final(whitelist) == *old(whitelist),
{
    if whitelist.list.len() >= MAX_WHITELIST_LEN {
        return Err(LazorKitError::WhitelistFull);
    }
    whitelist.list.push(hook);
    Ok(())
}

/// The accounts of a wallet creation.
#[derive(Clone, Debug)]
pub struct CreateSmartWallet {
    pub program_id: Address,
    pub signer: Address,
    pub smart_wallet_seq_key: Address,
    pub smart_wallet_seq: SmartWalletSeq,
    pub whitelist_rule_programs_key: Address,
    pub smart_wallet: Address,
    pub smart_wallet_config: Address,
    pub smart_wallet_authenticator: Address,
    pub config_key: Address,
    pub config: Config,
    pub default_rule_program: Address,
    pub remaining_accounts: Vec<AccountMeta>,
}

/// What an authorized creation does: the rule's initialization signed as the
/// new authenticator and the creation fee paid to the signer out of the
/// wallet, then the records it stores and the next sequence number.
#[derive(Clone, Debug)]
pub struct CreatePlan {
    pub steps: Vec<Step>,
    pub wallet_config: SmartWalletConfig,
    pub authenticator: SmartWalletAuthenticator,
    pub new_seq: u64,
}

/// The outcome of the checks of a wallet creation; on success the bumps of
/// the wallet and of its first authenticator.
pub open spec fn create_check(ctx: CreateSmartWallet, passkey: Seq<u8>) -> Result<
    (u8, u8),
    LazorKitError,
> {
    let pid = ctx.program_id@;
    let wallet = ctx.smart_wallet@;
    let wb = derived_check(wallet, wallet_seeds(ctx.smart_wallet_seq.seq), pid);
    let ab = derived_check(ctx.smart_wallet_authenticator@, authenticator_seeds(passkey, wallet), pid);
    if derived_check(
        ctx.smart_wallet_seq_key@,
        singleton_seeds("smart_wallet_seq".spec_bytes()),
        pid,
    ) is Err || derived_check(
        ctx.whitelist_rule_programs_key@,
        singleton_seeds("whitelist_rule_programs".spec_bytes()),
        pid,
    ) is Err || wb is Err || derived_check(
        ctx.smart_wallet_config@,
        wallet_config_seeds(wallet),
        pid,
    ) is Err || ab is Err || derived_check(
        ctx.config_key@,
        singleton_seeds("config".spec_bytes()),
        pid,
    ) is Err {
        Err(LazorKitError::InvalidBump)
    } else if ctx.default_rule_program@ != ctx.config.default_rule_program@ {
        Err(LazorKitError::InvalidRuleProgram)
    } else if ctx.smart_wallet_seq.seq == u64::MAX {
        Err(LazorKitError::ArithmeticOverflow)
    } else {
        Ok((wb->Ok_0, ab->Ok_0))
    }
}

/// Plans the creation of the wallet with the next sequence id, bound to
/// `passkey_pubkey` and governed by the default rule program, whose
/// initialization is called with `rule_data` on the remaining accounts.
pub fn create_smart_wallet(ctx: &CreateSmartWallet, passkey_pubkey: Passkey, rule_data: Vec<u8>) -> (r:
    Result<CreatePlan, LazorKitError>)
    ensures
        match r {
            Ok(plan) => create_check(*ctx, passkey_pubkey@) matches Ok((wb, ab)) && plan.wallet_config
                == (SmartWalletConfig {
                id: ctx.smart_wallet_seq.seq,
                rule_program: ctx.config.default_rule_program,
                bump: wb,
            }) && plan.authenticator == (SmartWalletAuthenticator {
                passkey_pubkey,
                smart_wallet: ctx.smart_wallet,
                nonce: 0,
                bump: ab,
            }) && plan.new_seq == ctx.smart_wallet_seq.seq + 1 && plan.steps@.len() == 2
                && invokes(
                plan.steps@[0],
                ctx.default_rule_program@,
                rule_data@,
                outgoing_accounts(ctx.remaining_accounts@, Some(ctx.smart_wallet_authenticator@)),
                passkey_binding(passkey_pubkey@, ctx.smart_wallet@),
                ab,
            ) && plan.steps@[1] == (Step::Transfer {
                to: ctx.signer,
                amount: ctx.config.create_smart_wallet_fee,
            }),
            Err(e) => create_check(*ctx, passkey_pubkey@) == Err::<(u8, u8), LazorKitError>(e),
        },
{
    let pid = &ctx.program_id;
    let wallet = &ctx.smart_wallet;
    let s = check_derived(&ctx.smart_wallet_seq_key, &singleton_seed("smart_wallet_seq"), pid);
    let w = check_derived(
        &ctx.whitelist_rule_programs_key,
        &singleton_seed("whitelist_rule_programs"),
        pid,
    );
    let wb = check_derived(wallet, &smart_wallet_seeds(ctx.smart_wallet_seq.seq), pid);
    let cb = check_derived(&ctx.smart_wallet_config, &smart_wallet_config_seeds(wallet), pid);
    let ab = check_derived(
        &ctx.smart_wallet_authenticator,
        &smart_wallet_authenticator_seeds(&passkey_pubkey, wallet),
        pid,
    );
    let gb = check_derived(&ctx.config_key, &singleton_seed("config"), pid);
    let (wallet_bump, auth_bump) = match (s, w, wb, cb, ab, gb) {
        (Ok(_), Ok(_), Ok(x), Ok(_), Ok(y), Ok(_)) => (x, y),
        _ => {
            return Err(LazorKitError::InvalidBump);
        },
    };
    if !crate::bytes::slice_eq(&ctx.default_rule_program, &ctx.config.default_rule_program) {
        return Err(LazorKitError::InvalidRuleProgram);
    }
    if ctx.smart_wallet_seq.seq == u64::MAX {
        return Err(LazorKitError::ArithmeticOverflow);
    }
    let signer = get_pda_signer(&passkey_pubkey, wallet, auth_bump);
    let signer_opt = Some(get_pda_signer(&passkey_pubkey, wallet, auth_bump));
    assert(signer_address(signer_opt, pid@) == Some(Some(ctx.smart_wallet_authenticator@)));
    let ix = match create_cpi_instruction(
        ctx.remaining_accounts.as_slice(),
        rule_data,
        &ctx.default_rule_program,
        &signer_opt,
        pid,
    ) {
        Ok(ix) => ix,
        Err(e) => {
            return Err(e);
        },
    };
    let mut steps: Vec<Step> = Vec::new();
    steps.push(Step::Invoke { instruction: ix, signer });
    steps.push(Step::Transfer { to: ctx.signer, amount: ctx.config.create_smart_wallet_fee });
    Ok(
        CreatePlan {
            steps,
            wallet_config: SmartWalletConfig {
                id: ctx.smart_wallet_seq.seq,
                rule_program: ctx.config.default_rule_program,
                bump: wallet_bump,
            },
            authenticator: SmartWalletAuthenticator {
                passkey_pubkey,
                smart_wallet: ctx.smart_wallet,
                nonce: 0,
                bump: auth_bump,
            },
            new_seq: ctx.smart_wallet_seq.seq + 1,
        },
    )
}

/// Commits a creation whose invocations succeeded: the sequence advances.
pub fn complete_creation(seq: &mut SmartWalletSeq, plan: &CreatePlan) -> (r: (
    SmartWalletConfig,
    SmartWalletAuthenticator,
))
    ensures
        *final(seq) == (SmartWalletSeq { seq: plan.new_seq, ..*old(seq) }),
        r == (plan.wallet_config, plan.authenticator),
{
    seq.seq = plan.new_seq;
    (plan.wallet_config, plan.authenticator)
}

} // verus!
