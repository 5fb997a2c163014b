//! The action dispatcher: validates the accounts and the signed request of
//! one execution and plans the invocations it authorizes; the plan's state
//! changes are committed only once every invocation has succeeded.
use vstd::prelude::*;
use vstd::string::StringSliceAdditionalSpecFns;

use crate::address::{
    authenticator_seeds, check_derived, derived_check, passkey_binding, program_address_of,
    singleton_seed, singleton_seeds, smart_wallet_authenticator_seeds, smart_wallet_config_seeds,
    smart_wallet_seed, smart_wallet_seeds, smart_wallet_signer_seed, wallet_config_seeds,
    wallet_seeds, Address, Passkey,
};
use crate::authority::{authority_check, validate_authority, Message};
use crate::bytes::{le_bytes, read_u64_le, u64_from_le};
use crate::cpi::{
    account_range, check_whitelist, create_cpi_instruction, get_account_slice, get_pda_signer,
    global_selector, has_selector, outgoing_accounts, sighash, signer_address, starts_with,
    PdaSigner,
};
use crate::error::LazorKitError;
use crate::secp::{AccountMeta, Instruction};
use crate::state::{Config, SmartWalletAuthenticator, SmartWalletConfig, WhitelistRulePrograms};

verus! {

/// The flat amount the payer bears itself before it is reimbursed.
pub const REIMBURSEMENT_DEDUCTION: u64 = 10000;

/// The action a request asks for.
#[derive(Clone, Copy, Debug, PartialEq, Eq, Structural)]
pub enum Action {
    ExecuteCpi,
    ChangeProgramRule,
    CheckAuthenticator,
    CallRuleProgram,
}

/// Instruction data with the range of remaining accounts it takes.
#[derive(Clone, Debug)]
pub struct CpiData {
    pub data: Vec<u8>,
    pub start_index: u8,
    pub length: u8,
}

/// A signed request.
#[derive(Clone, Debug)]
pub struct ExecuteInstructionArgs {
    pub passkey_pubkey: Passkey,
    pub signature: Vec<u8>,
    pub message: Message,
    pub verify_instruction_index: u8,
    pub rule_data: CpiData,
    pub cpi_data: Option<CpiData>,
    pub action: Action,
    pub create_new_authenticator: Option<Passkey>,
}

/// The accounts of one execution, as the engine reads them.
#[derive(Clone, Debug)]
pub struct ExecuteInstruction {
    /// This program's address, under which every record is derived.
    pub program_id: Address,
    pub payer: Address,
    pub config_key: Address,
    pub config: Config,
    pub smart_wallet: Address,
    pub smart_wallet_config_key: Address,
    pub smart_wallet_config: SmartWalletConfig,
    pub smart_wallet_authenticator_key: Address,
    pub smart_wallet_authenticator: SmartWalletAuthenticator,
    pub whitelist_rule_programs_key: Address,
    pub whitelist_rule_programs: WhitelistRulePrograms,
    pub authenticator_program: Address,
    pub cpi_program: Address,
    pub new_smart_wallet_authenticator: Option<Address>,
    pub remaining_accounts: Vec<AccountMeta>,
}

/// One invocation the host performs for the engine.
#[derive(Clone, Debug)]
pub enum Step {
    /// Invoke a program, signing with the derived address of `signer`.
    Invoke { instruction: Instruction, signer: PdaSigner },
    /// Move value out of the wallet's own balance.
    Transfer { to: Address, amount: u64 },
}

/// What an authorized execution does: its invocations in order, then the
/// state it commits once they all succeeded.
#[derive(Clone, Debug)]
pub struct Plan {
    pub steps: Vec<Step>,
    pub new_nonce: u64,
    pub new_rule_program: Option<Address>,
    pub new_authenticator: Option<(Address, SmartWalletAuthenticator)>,
}

/// The system program's address.
pub open spec fn system_program() -> Seq<u8> {
    Seq::new(32, |i: int| 0u8)
}

/// The leading bytes of a native value-transfer instruction.
pub open spec fn native_transfer_tag() -> Seq<u8> {
    seq![2u8, 0, 0, 0]
}

/// Whether an invocation is a native value transfer.
pub open spec fn is_native_transfer(data: Seq<u8>, program: Seq<u8>) -> bool {
    data.len() >= 4 && data.subrange(0, 4) == native_transfer_tag() && program == system_program()
}

/// The passkey the new authenticator account is derived for.
pub open spec fn new_passkey_or_zero(args: ExecuteInstructionArgs) -> Seq<u8> {
    match args.create_new_authenticator {
        Some(p) => p@,
        None => Seq::new(33, |i: int| 0u8),
    }
}

/// The outcome of checking every account against its derivation; on
/// success, the bumps of the authenticator and of the new authenticator.
pub open spec fn accounts_check(ctx: ExecuteInstruction, args: ExecuteInstructionArgs) -> Result<
    (u8, u8),
    LazorKitError,
> {
    let pid = ctx.program_id@;
    let wallet = ctx.smart_wallet@;
    if derived_check(ctx.config_key@, singleton_seeds("config".spec_bytes()), pid) is Err {
        Err(LazorKitError::InvalidBump)
    } else if derived_check(wallet, wallet_seeds(ctx.smart_wallet_config.id), pid) is Err {
        Err(LazorKitError::InvalidBump)
    } else if derived_check(ctx.smart_wallet_config_key@, wallet_config_seeds(wallet), pid) is Err {
        Err(LazorKitError::InvalidBump)
    } else if derived_check(
        ctx.smart_wallet_authenticator_key@,
        authenticator_seeds(args.passkey_pubkey@, wallet),
        pid,
    ) is Err {
        Err(LazorKitError::InvalidBump)
    } else if derived_check(
        ctx.whitelist_rule_programs_key@,
        singleton_seeds("whitelist_rule_programs".spec_bytes()),
        pid,
    ) is Err {
        Err(LazorKitError::InvalidBump)
    } else {
        let auth_bump = derived_check(
            ctx.smart_wallet_authenticator_key@,
            authenticator_seeds(args.passkey_pubkey@, wallet),
            pid,
        )->Ok_0;
        match ctx.new_smart_wallet_authenticator {
            None => Ok((auth_bump, 0u8)),
            Some(k) => match derived_check(
                k@,
                authenticator_seeds(new_passkey_or_zero(args), wallet),
                pid,
            ) {
                Ok(b) => Ok((auth_bump, b)),
                Err(e) => Err(e),
            },
        }
    }
}

/// Checks every account of an execution against its derivation.
pub fn validate_accounts(ctx: &ExecuteInstruction, args: &ExecuteInstructionArgs) -> (r: Result<
    (u8, u8),
    LazorKitError,
>)
    ensures
        r == accounts_check(*ctx, *args),
{
    let pid = &ctx.program_id;
    let config_seeds = singleton_seed("config");
    if check_derived(&ctx.config_key, &config_seeds, pid).is_err() {
        return Err(LazorKitError::InvalidBump);
    }
    let wseeds = smart_wallet_seeds(ctx.smart_wallet_config.id);
    if check_derived(&ctx.smart_wallet, &wseeds, pid).is_err() {
        return Err(LazorKitError::InvalidBump);
    }
    let cseeds = smart_wallet_config_seeds(&ctx.smart_wallet);
    if check_derived(&ctx.smart_wallet_config_key, &cseeds, pid).is_err() {
        return Err(LazorKitError::InvalidBump);
    }
    let aseeds = smart_wallet_authenticator_seeds(&args.passkey_pubkey, &ctx.smart_wallet);
    let auth_bump = match check_derived(&ctx.smart_wallet_authenticator_key, &aseeds, pid) {
        Ok(b) => b,
        Err(_) => {
            return Err(LazorKitError::InvalidBump);
        },
    };
    let whitelist_seeds = singleton_seed("whitelist_rule_programs");
    if check_derived(&ctx.whitelist_rule_programs_key, &whitelist_seeds, pid).is_err() {
        return Err(LazorKitError::InvalidBump);
    }
    match ctx.new_smart_wallet_authenticator {
        None => Ok((auth_bump, 0u8)),
        Some(k) => {
            let new_passkey: Passkey = match args.create_new_authenticator {
                Some(p) => p,
                None => [0u8; 33],
            };
            assert(new_passkey@ =~= new_passkey_or_zero(*args));
            let nseeds = smart_wallet_authenticator_seeds(&new_passkey, &ctx.smart_wallet);
            match check_derived(&k, &nseeds, pid) {
                Ok(b) => Ok((auth_bump, b)),
                Err(e) => Err(e),
            }
        },
    }
}

/// The seeds with which the engine signs as the wallet.
pub open spec fn wallet_signer_seed(id: u64) -> Seq<u8> {
    smart_wallet_seed() + le_bytes(id as nat, 8)
}

/// The step invokes `program` with `data` and `accounts`, signing with `seeds` and `bump`.
pub open spec fn invokes(
    step: Step,
    program: Seq<u8>,
    data: Seq<u8>,
    accounts: Seq<AccountMeta>,
    seeds: Seq<u8>,
    bump: u8,
) -> bool {
    &&& step matches Step::Invoke { instruction, signer }
    &&& instruction.program_id@ == program
    &&& instruction.data@ == data
    &&& instruction.accounts@ == accounts
    &&& signer.seeds@ == seeds
    &&& signer.bump == bump
}

/// The step invokes `program` with `data` on the accounts `start..start + len`,
/// signing as the authenticator of the request.
pub open spec fn invokes_as_authenticator(
    step: Step,
    ctx: ExecuteInstruction,
    args: ExecuteInstructionArgs,
    auth_bump: u8,
    program: Seq<u8>,
    data: CpiData,
) -> bool {
    invokes(
        step,
        program,
        data.data@,
        outgoing_accounts(
            account_range(ctx.remaining_accounts@, data.start_index, data.length)->Some_0,
            Some(ctx.smart_wallet_authenticator_key@),
        ),
        passkey_binding(args.passkey_pubkey@, ctx.smart_wallet@),
        auth_bump,
    )
}

/// The outcome of the checks of an `ExecuteCpi` request.
pub open spec fn execute_cpi_check(ctx: ExecuteInstruction, args: ExecuteInstructionArgs) -> Result<
    (),
    LazorKitError,
> {
    let rem = ctx.remaining_accounts@;
    let rule = args.rule_data;
    if !ctx.whitelist_rule_programs.holds(ctx.authenticator_program@) {
        Err(LazorKitError::ProgramNotInWhitelist)
    } else if account_range(rem, rule.start_index, rule.length) is None {
        Err(LazorKitError::InvalidAccountInput)
    } else if !starts_with(rule.data@, global_selector("check_rule")) {
        Err(LazorKitError::InvalidRuleInstruction)
    } else {
        match args.cpi_data {
            None => Err(LazorKitError::InvalidAccountInput),
            Some(cpi) => if account_range(rem, cpi.start_index, cpi.length) is None {
                Err(LazorKitError::InvalidAccountInput)
            } else if is_native_transfer(cpi.data@, ctx.cpi_program@) {
                if rem.len() < 2 {
                    Err(LazorKitError::InvalidAccountInput)
                } else if cpi.data@.len() < 12 {
                    Err(LazorKitError::InvalidInstructionData)
                } else {
                    Ok(())
                }
            } else if program_address_of(
                seq![wallet_signer_seed(ctx.smart_wallet_config.id)],
                ctx.program_id@,
            ) is None {
                Err(LazorKitError::InvalidBump)
            } else {
                Ok(())
            },
        }
    }
}

/// The steps of an authorized `ExecuteCpi` request: the rule check signed
/// as the authenticator, then either a native transfer out of the wallet or
/// the requested invocation signed as the wallet.
pub open spec fn execute_cpi_steps(
    ctx: ExecuteInstruction,
    args: ExecuteInstructionArgs,
    auth_bump: u8,
    steps: Seq<Step>,
) -> bool {
    let cpi = args.cpi_data->Some_0;
    &&& steps.len() == 2
    &&& invokes_as_authenticator(
        steps[0],
        ctx,
        args,
        auth_bump,
        ctx.authenticator_program@,
        args.rule_data,
    )
    &&& if is_native_transfer(cpi.data@, ctx.cpi_program@) {
        steps[1] matches Step::Transfer { to, amount } && to == ctx.remaining_accounts@[1].pubkey
            && amount == u64_from_le(cpi.data@.subrange(4, 12))
    } else {
        invokes(
            steps[1],
            ctx.cpi_program@,
            cpi.data@,
            outgoing_accounts(
                account_range(ctx.remaining_accounts@, cpi.start_index, cpi.length)->Some_0,
                Some(
                    program_address_of(
                        seq![wallet_signer_seed(ctx.smart_wallet_config.id)],
                        ctx.program_id@,
                    )->Some_0.0,
                ),
            ),
            wallet_signer_seed(ctx.smart_wallet_config.id),
            ctx.smart_wallet_config.bump,
        )
    }
}

/// A copy of a signer.
fn copy_signer(s: &PdaSigner) -> (r: PdaSigner)
    ensures
        r.seeds@ == s.seeds@,
        r.bump == s.bump,
{
    PdaSigner { seeds: vstd::slice::slice_to_vec(s.seeds.as_slice()), bump: s.bump }
}

/// Whether `data` is a native value transfer to the system program.
fn is_native_transfer_exec(data: &[u8], program: &Address) -> (r: bool)
    ensures
        r == is_native_transfer(data@, program@),
{
    if data.len() < 4 || data[0] != 2 || data[1] != 0 || data[2] != 0 || data[3] != 0 {
        assert(data@.len() >= 4 ==> data@.subrange(0, 4)[0] == data@[0] && data@.subrange(0, 4)[1]
            == data@[1] && data@.subrange(0, 4)[2] == data@[2] && data@.subrange(0, 4)[3]
            == data@[3]);
        return false;
    }
    assert(data@.subrange(0, 4) =~= native_transfer_tag());
    let mut i: usize = 0;
    while i < 32
        invariant
            i <= 32,
            forall|j: int| 0 <= j < i ==> program@[j] == 0u8,
        decreases 32 - i,
    {
        if program[i] != 0 {
            assert(program@ != system_program());
            return false;
        }
        i = i + 1;
    }
    assert(program@ =~= system_program());
    true
}

/// Plans an `ExecuteCpi` request.
fn execute_cpi_action(ctx: &ExecuteInstruction, args: &ExecuteInstructionArgs, auth_bump: u8) -> (r:
    Result<Vec<Step>, LazorKitError>)
    requires
        accounts_check(*ctx, *args) matches Ok((b, _)) && b == auth_bump,
    ensures
        match r {
            Ok(steps) => execute_cpi_check(*ctx, *args) is Ok && execute_cpi_steps(
                *ctx,
                *args,
                auth_bump,
                steps@,
            ),
            Err(e) => execute_cpi_check(*ctx, *args) == Err::<(), LazorKitError>(e),
        },
{
    let pid = &ctx.program_id;
    if let Err(e) = check_whitelist(&ctx.whitelist_rule_programs, &ctx.authenticator_program) {
        return Err(e);
    }
    let rule_signer = get_pda_signer(&args.passkey_pubkey, &ctx.smart_wallet, auth_bump);
    let rule_accounts = match get_account_slice(
        ctx.remaining_accounts.as_slice(),
        args.rule_data.start_index,
        args.rule_data.length,
    ) {
        Ok(v) => v,
        Err(e) => {
            return Err(e);
        },
    };
    let check_rule = sighash("global", "check_rule");
    if !has_selector(args.rule_data.data.as_slice(), &check_rule) {
        return Err(LazorKitError::InvalidRuleInstruction);
    }
    let rule_signer_opt = Some(copy_signer(&rule_signer));
    assert(signer_address(rule_signer_opt, pid@) == Some(
        Some(ctx.smart_wallet_authenticator_key@),
    ));
    let rule_ix = match create_cpi_instruction(
        rule_accounts.as_slice(),
        vstd::slice::slice_to_vec(args.rule_data.data.as_slice()),
        &ctx.authenticator_program,
        &rule_signer_opt,
        pid,
    ) {
        Ok(ix) => ix,
        Err(e) => {
            return Err(e);
        },
    };
    let mut steps: Vec<Step> = Vec::new();
    steps.push(Step::Invoke { instruction: rule_ix, signer: rule_signer });
    let cpi = match &args.cpi_data {
        Some(c) => c,
        None => {
            return Err(LazorKitError::InvalidAccountInput);
        },
    };
    let cpi_accounts = match get_account_slice(
        ctx.remaining_accounts.as_slice(),
        cpi.start_index,
        cpi.length,
    ) {
        Ok(v) => v,
        Err(e) => {
            return Err(e);
        },
    };
    if is_native_transfer_exec(cpi.data.as_slice(), &ctx.cpi_program) {
        if ctx.remaining_accounts.len() < 2 {
            return Err(LazorKitError::InvalidAccountInput);
        }
        if cpi.data.len() < 12 {
            return Err(LazorKitError::InvalidInstructionData);
        }
        let amount = read_u64_le(cpi.data.as_slice(), 4);
        steps.push(Step::Transfer { to: ctx.remaining_accounts[1].pubkey, amount });
    } else {
        let wallet_signer = PdaSigner {
            seeds: smart_wallet_signer_seed(ctx.smart_wallet_config.id),
            bump: ctx.smart_wallet_config.bump,
        };
        let wallet_signer_opt = Some(copy_signer(&wallet_signer));
        let ix = match create_cpi_instruction(
            cpi_accounts.as_slice(),
            vstd::slice::slice_to_vec(cpi.data.as_slice()),
            &ctx.cpi_program,
            &wallet_signer_opt,
            pid,
        ) {
            Ok(ix) => ix,
            Err(e) => {
                return Err(e);
            },
        };
        steps.push(Step::Invoke { instruction: ix, signer: wallet_signer });
    }
    Ok(steps)
}


/// Rule replacement is allowed when one of the two programs is the default
/// and the two differ.
pub open spec fn rule_change_allowed(old: Seq<u8>, new: Seq<u8>, default: Seq<u8>) -> bool {
    (old == default || new == default) && old != new
}

/// Checks that replacing rule program `old` by `new` is allowed.
pub fn check_rule_change(old: &Address, new: &Address, default: &Address) -> (r: Result<
    (),
    LazorKitError,
>)
    ensures
        r is Ok <==> rule_change_allowed(old@, new@, default@),
        r is Err ==> r == Err::<(), LazorKitError>(LazorKitError::InvalidRuleProgram),
{
    let old_default = crate::bytes::slice_eq(old, default);
    let new_default = crate::bytes::slice_eq(new, default);
    let same = crate::bytes::slice_eq(old, new);
    if (old_default || new_default) && !same {
        Ok(())
    } else {
        Err(LazorKitError::InvalidRuleProgram)
    }
}

/// The outcome of the checks of a `ChangeProgramRule` request.
pub open spec fn change_rule_check(ctx: ExecuteInstruction, args: ExecuteInstructionArgs) -> Result<
    (),
    LazorKitError,
> {
    let rem = ctx.remaining_accounts@;
    let rule = args.rule_data;
    let old = ctx.authenticator_program@;
    let new = ctx.cpi_program@;
    match args.cpi_data {
        None => Err(LazorKitError::InvalidAccountInput),
        Some(cpi) => if !ctx.whitelist_rule_programs.holds(old) {
            Err(LazorKitError::ProgramNotInWhitelist)
        } else if !ctx.whitelist_rule_programs.holds(new) {
            Err(LazorKitError::ProgramNotInWhitelist)
        } else if !starts_with(rule.data@, global_selector("destroy")) {
            Err(LazorKitError::InvalidRuleInstruction)
        } else if !starts_with(cpi.data@, global_selector("init_rule")) {
            Err(LazorKitError::InvalidRuleInstruction)
        } else if !rule_change_allowed(old, new, ctx.config.default_rule_program@) {
            Err(LazorKitError::InvalidRuleProgram)
        } else if account_range(rem, rule.start_index, rule.length) is None {
            Err(LazorKitError::InvalidAccountInput)
        } else if account_range(rem, cpi.start_index, cpi.length) is None {
            Err(LazorKitError::InvalidAccountInput)
        } else {
            Ok(())
        },
    }
}

/// The steps of an authorized `ChangeProgramRule` request: the old rule's
/// `destroy`, then the new rule's `init_rule`, both signed as the authenticator.
pub open spec fn change_rule_steps(
    ctx: ExecuteInstruction,
    args: ExecuteInstructionArgs,
    auth_bump: u8,
    steps: Seq<Step>,
) -> bool {
    &&& steps.len() == 2
    &&& invokes_as_authenticator(
        steps[0],
        ctx,
        args,
        auth_bump,
        ctx.authenticator_program@,
        args.rule_data,
    )
    &&& invokes_as_authenticator(
        steps[1],
        ctx,
        args,
        auth_bump,
        ctx.cpi_program@,
        args.cpi_data->Some_0,
    )
}

/// Plans an invocation of `program` with `data`, signed as the authenticator.
fn invoke_as_authenticator(
    ctx: &ExecuteInstruction,
    args: &ExecuteInstructionArgs,
    auth_bump: u8,
    program: &Address,
    data: &CpiData,
) -> (r: Result<Step, LazorKitError>)
    requires
        accounts_check(*ctx, *args) matches Ok((b, _)) && b == auth_bump,
    ensures
        match r {
            Ok(step) => account_range(ctx.remaining_accounts@, data.start_index, data.length) is Some
                && invokes_as_authenticator(step, *ctx, *args, auth_bump, program@, *data),
            Err(e) => e == LazorKitError::InvalidAccountInput && account_range(
                ctx.remaining_accounts@,
                data.start_index,
                data.length,
            ) is None,
        },
{
    let accounts = match get_account_slice(
        ctx.remaining_accounts.as_slice(),
        data.start_index,
        data.length,
    ) {
        Ok(v) => v,
        Err(e) => {
            return Err(e);
        },
    };
    let signer = get_pda_signer(&args.passkey_pubkey, &ctx.smart_wallet, auth_bump);
    let signer_opt = Some(copy_signer(&signer));
    assert(signer_address(signer_opt, ctx.program_id@) == Some(
        Some(ctx.smart_wallet_authenticator_key@),
    ));
    match create_cpi_instruction(
        accounts.as_slice(),
        vstd::slice::slice_to_vec(data.data.as_slice()),
        program,
        &signer_opt,
        &ctx.program_id,
    ) {
        Ok(ix) => Ok(Step::Invoke { instruction: ix, signer }),
        Err(_) => Err(LazorKitError::InvalidAccountInput),
    }
}

/// Plans a `ChangeProgramRule` request.
fn change_rule_action(ctx: &ExecuteInstruction, args: &ExecuteInstructionArgs, auth_bump: u8) -> (r:
    Result<Vec<Step>, LazorKitError>)
    requires
        accounts_check(*ctx, *args) matches Ok((b, _)) && b == auth_bump,
    ensures
        match r {
            Ok(steps) => change_rule_check(*ctx, *args) is Ok && change_rule_steps(
                *ctx,
                *args,
                auth_bump,
                steps@,
            ),
            Err(e) => change_rule_check(*ctx, *args) == Err::<(), LazorKitError>(e),
        },
{
    let cpi = match &args.cpi_data {
        Some(c) => c,
        None => {
            return Err(LazorKitError::InvalidAccountInput);
        },
    };
    if let Err(e) = check_whitelist(&ctx.whitelist_rule_programs, &ctx.authenticator_program) {
        return Err(e);
    }
    if let Err(e) = check_whitelist(&ctx.whitelist_rule_programs, &ctx.cpi_program) {
        return Err(e);
    }
    let destroy = sighash("global", "destroy");
    if !has_selector(args.rule_data.data.as_slice(), &destroy) {
        return Err(LazorKitError::InvalidRuleInstruction);
    }
    let init_rule = sighash("global", "init_rule");
    if !has_selector(cpi.data.as_slice(), &init_rule) {
        return Err(LazorKitError::InvalidRuleInstruction);
    }
    if let Err(e) = check_rule_change(
        &ctx.authenticator_program,
        &ctx.cpi_program,
        &ctx.config.default_rule_program,
    ) {
        return Err(e);
    }
    let first = match invoke_as_authenticator(
        ctx,
        args,
        auth_bump,
        &ctx.authenticator_program,
        &args.rule_data,
    ) {
        Ok(s) => s,
        Err(e) => {
            return Err(e);
        },
    };
    let second = match invoke_as_authenticator(ctx, args, auth_bump, &ctx.cpi_program, cpi) {
        Ok(s) => s,
        Err(e) => {
            return Err(e);
        },
    };
    let mut steps: Vec<Step> = Vec::new();
    steps.push(first);
    steps.push(second);
    Ok(steps)
}

/// The outcome of the checks of a `CallRuleProgram` request.
pub open spec fn call_rule_check(ctx: ExecuteInstruction, args: ExecuteInstructionArgs) -> Result<
    (),
    LazorKitError,
> {
    if !ctx.whitelist_rule_programs.holds(ctx.authenticator_program@) {
        Err(LazorKitError::ProgramNotInWhitelist)
    } else if args.create_new_authenticator is Some && ctx.new_smart_wallet_authenticator is None {
        Err(LazorKitError::InvalidAccountInput)
    } else if account_range(
        ctx.remaining_accounts@,
        args.rule_data.start_index,
        args.rule_data.length,
    ) is None {
        Err(LazorKitError::InvalidAccountInput)
    } else {
        Ok(())
    }
}

/// The authenticator record a `CallRuleProgram` request creates, if any.
pub open spec fn enrolled(ctx: ExecuteInstruction, args: ExecuteInstructionArgs, new_bump: u8) -> Option<
    (Address, SmartWalletAuthenticator),
> {
    match args.create_new_authenticator {
        None => None,
        Some(p) => Some(
            (
                ctx.new_smart_wallet_authenticator->Some_0,
                SmartWalletAuthenticator {
                    passkey_pubkey: p,
                    smart_wallet: ctx.smart_wallet,
                    nonce: 0,
                    bump: new_bump,
                },
            ),
        ),
    }
}

/// Plans a `CallRuleProgram` request: the new authenticator record, if one
/// is asked for, and the rule call signed as the current authenticator.
fn call_rule_action(
    ctx: &ExecuteInstruction,
    args: &ExecuteInstructionArgs,
    auth_bump: u8,
    new_bump: u8,
) -> (r: Result<(Vec<Step>, Option<(Address, SmartWalletAuthenticator)>), LazorKitError>)
    requires
        accounts_check(*ctx, *args) matches Ok((b, nb)) && b == auth_bump && nb == new_bump,
    ensures
        match r {
            Ok((steps, created)) => {
                &&& call_rule_check(*ctx, *args) is Ok
                &&& steps@.len() == 1
                &&& invokes_as_authenticator(
                    steps@[0],
                    *ctx,
                    *args,
                    auth_bump,
                    ctx.authenticator_program@,
                    args.rule_data,
                )
                &&& created == enrolled(*ctx, *args, new_bump)
            },
            Err(e) => call_rule_check(*ctx, *args) == Err::<(), LazorKitError>(e),
        },
{
    if let Err(e) = check_whitelist(&ctx.whitelist_rule_programs, &ctx.authenticator_program) {
        return Err(e);
    }
    let created = match args.create_new_authenticator {
        None => None,
        Some(passkey) => match ctx.new_smart_wallet_authenticator {
            Some(key) => Some(
                (
                    key,
                    SmartWalletAuthenticator {
                        passkey_pubkey: passkey,
                        smart_wallet: ctx.smart_wallet,
                        nonce: 0,
                        bump: new_bump,
                    },
                ),
            ),
            None => {
                return Err(LazorKitError::InvalidAccountInput);
            },
        },
    };
    let step = match invoke_as_authenticator(
        ctx,
        args,
        auth_bump,
        &ctx.authenticator_program,
        &args.rule_data,
    ) {
        Ok(s) => s,
        Err(e) => {
            return Err(e);
        },
    };
    let mut steps: Vec<Step> = Vec::new();
    steps.push(step);
    Ok((steps, created))
}

/// The authenticator belongs to the request's passkey and to the wallet.
pub open spec fn identity_matches(ctx: ExecuteInstruction, args: ExecuteInstructionArgs) -> bool {
    ctx.smart_wallet_authenticator.passkey_pubkey@ == args.passkey_pubkey@
        && ctx.smart_wallet_authenticator.smart_wallet@ == ctx.smart_wallet@
}

/// The outcome of an execution request verified by record `ix` at time `now`.
pub open spec fn execute_check(
    ctx: ExecuteInstruction,
    args: ExecuteInstructionArgs,
    ix: Instruction,
    now: i64,
) -> Result<(), LazorKitError> {
    let auth = ctx.smart_wallet_authenticator;
    if accounts_check(ctx, args) is Err {
        Err(accounts_check(ctx, args)->Err_0)
    } else if !identity_matches(ctx, args) {
        Err(LazorKitError::InvalidPasskey)
    } else if authority_check(
        ix,
        now,
        args.passkey_pubkey@,
        args.message,
        args.signature@,
        auth.nonce,
        auth.passkey_pubkey@,
    ) is Err {
        authority_check(
            ix,
            now,
            args.passkey_pubkey@,
            args.message,
            args.signature@,
            auth.nonce,
            auth.passkey_pubkey@,
        )
    } else {
        let dispatched = match args.action {
            Action::ExecuteCpi => execute_cpi_check(ctx, args),
            Action::ChangeProgramRule => change_rule_check(ctx, args),
            Action::CallRuleProgram => call_rule_check(ctx, args),
            Action::CheckAuthenticator => Ok(()),
        };
        if dispatched is Err {
            dispatched
        } else if args.action != Action::CheckAuthenticator && auth.nonce == u64::MAX {
            Err(LazorKitError::ArithmeticOverflow)
        } else {
            Ok(())
        }
    }
}

/// The nonce after an execution: one more for every action that invokes.
pub open spec fn next_nonce(nonce: u64, action: Action) -> int {
    if action == Action::CheckAuthenticator {
        nonce as int
    } else {
        nonce + 1
    }
}

/// The plan of an authorized request.
pub open spec fn plan_matches(ctx: ExecuteInstruction, args: ExecuteInstructionArgs, plan: Plan) -> bool {
    let (auth_bump, new_bump) = accounts_check(ctx, args)->Ok_0;
    let steps = plan.steps@;
    &&& plan.new_nonce == next_nonce(ctx.smart_wallet_authenticator.nonce, args.action)
    &&& plan.new_rule_program == (if args.action == Action::ChangeProgramRule {
        Some(ctx.cpi_program)
    } else {
        None
    })
    &&& plan.new_authenticator == (if args.action == Action::CallRuleProgram {
        enrolled(ctx, args, new_bump)
    } else {
        None
    })
    &&& match args.action {
        Action::ExecuteCpi => execute_cpi_steps(ctx, args, auth_bump, steps),
        Action::ChangeProgramRule => change_rule_steps(ctx, args, auth_bump, steps),
        Action::CallRuleProgram => steps.len() == 1 && invokes_as_authenticator(
            steps[0],
            ctx,
            args,
            auth_bump,
            ctx.authenticator_program@,
            args.rule_data,
        ),
        Action::CheckAuthenticator => steps.len() == 0,
    }
}

/// Validates a signed request against the accounts, the verification record
/// `verify_ix` and the time `now`, and plans what it authorizes. Nothing is
/// changed here: the plan's state is committed by `complete_execution`.
pub fn execute_instruction(
    ctx: &ExecuteInstruction,
    args: &ExecuteInstructionArgs,
    verify_ix: &Instruction,
    now: i64,
) -> (r: Result<Plan, LazorKitError>)
    ensures
        match r {
            Ok(plan) => execute_check(*ctx, *args, *verify_ix, now) is Ok && plan_matches(
                *ctx,
                *args,
                plan,
            ),
            Err(e) => execute_check(*ctx, *args, *verify_ix, now) == Err::<(), LazorKitError>(e),
        },
{
    let (auth_bump, new_bump) = match validate_accounts(ctx, args) {
        Ok(b) => b,
        Err(e) => {
            return Err(e);
        },
    };
    let auth = &ctx.smart_wallet_authenticator;
    if !crate::bytes::slice_eq(&auth.passkey_pubkey, &args.passkey_pubkey)
        || !crate::bytes::slice_eq(&auth.smart_wallet, &ctx.smart_wallet) {
        return Err(LazorKitError::InvalidPasskey);
    }
    if let Err(e) = validate_authority(
        verify_ix,
        now,
        &args.passkey_pubkey,
        &args.message,
        args.signature.as_slice(),
        auth.nonce,
        &auth.passkey_pubkey,
    ) {
        return Err(e);
    }
    let mut new_rule_program: Option<Address> = None;
    let mut new_authenticator: Option<(Address, SmartWalletAuthenticator)> = None;
    let steps: Vec<Step> = match args.action {
        Action::ExecuteCpi => match execute_cpi_action(ctx, args, auth_bump) {
            Ok(s) => s,
            Err(e) => {
                return Err(e);
            },
        },
        Action::ChangeProgramRule => match change_rule_action(ctx, args, auth_bump) {
            Ok(s) => {
                new_rule_program = Some(ctx.cpi_program);
                s
            },
            Err(e) => {
                return Err(e);
            },
        },
        Action::CallRuleProgram => match call_rule_action(ctx, args, auth_bump, new_bump) {
            Ok((s, created)) => {
                new_authenticator = created;
                s
            },
            Err(e) => {
                return Err(e);
            },
        },
        Action::CheckAuthenticator => Vec::new(),
    };
    let new_nonce: u64 = if args.action == Action::CheckAuthenticator {
        auth.nonce
    } else if auth.nonce == u64::MAX {
        return Err(LazorKitError::ArithmeticOverflow);
    } else {
        auth.nonce + 1
    };
    Ok(Plan { steps, new_nonce, new_rule_program, new_authenticator })
}

/// Commits a plan whose invocations all succeeded: the authenticator takes
/// the new nonce, the wallet the new rule program, and the new authenticator
/// record, if any, is returned for storing.
pub fn complete_execution(
    authenticator: &mut SmartWalletAuthenticator,
    wallet_config: &mut SmartWalletConfig,
    plan: &Plan,
) -> (r: Option<(Address, SmartWalletAuthenticator)>)
    ensures
        *final(authenticator) == (SmartWalletAuthenticator {
            nonce: plan.new_nonce,
            ..*old(authenticator)
        }),
        *final(wallet_config) == (match plan.new_rule_program {
            Some(p) => SmartWalletConfig { rule_program: p, ..*old(wallet_config) },
            None => *old(wallet_config),
        }),
        r == plan.new_authenticator,
{
    authenticator.nonce = plan.new_nonce;
    if let Some(p) = plan.new_rule_program {
        wallet_config.rule_program = p;
    }
    plan.new_authenticator
}

/// What the payer is reimbursed: what it spent beyond the flat deduction.
pub open spec fn reimbursement_of(balance_before: u64, balance_after: u64) -> int {
    let after = if balance_after >= REIMBURSEMENT_DEDUCTION {
        balance_after - REIMBURSEMENT_DEDUCTION
    } else {
        0
    };
    if balance_before >= after {
        balance_before - after
    } else {
        0
    }
}

/// What the payer is reimbursed after an execution.
pub fn reimbursement(balance_before: u64, balance_after: u64) -> (r: u64)
    ensures
        r == reimbursement_of(balance_before, balance_after),
{
    let after = balance_after.saturating_sub(REIMBURSEMENT_DEDUCTION);
    balance_before.saturating_sub(after)
}

/// Reimburses the payer out of the wallet's balance for what it spent.
pub fn reimburse_payer(wallet_balance: &mut u64, payer_balance: &mut u64, payer_balance_before: u64) -> (r:
    Result<u64, LazorKitError>)
    ensures
        match r {
            Ok(amount) => amount == reimbursement_of(payer_balance_before, *old(payer_balance))
                && *final(wallet_balance) == *old(wallet_balance) - amount && *final(payer_balance)
                == *old(payer_balance) + amount,
            Err(_) => *old(wallet_balance) < reimbursement_of(
                payer_balance_before,
                *old(payer_balance),
            ) || *old(payer_balance) + reimbursement_of(payer_balance_before, *old(payer_balance))
                > u64::MAX,
        },
{
    let amount = reimbursement(payer_balance_before, *payer_balance);
    if amount > 0 {
        match crate::cpi::transfer_sol_from_pda(wallet_balance, payer_balance, amount) {
            Ok(()) => Ok(amount),
            Err(e) => Err(e),
        }
    } else {
        Ok(0)
    }
}

/// The state after committing a plan.
pub open spec fn committed(ctx: ExecuteInstruction, plan: Plan) -> ExecuteInstruction {
    ExecuteInstruction {
        smart_wallet_authenticator: SmartWalletAuthenticator {
            nonce: plan.new_nonce,
            ..ctx.smart_wallet_authenticator
        },
        ..ctx
    }
}

/// Every authorized request that invokes advances the nonce by exactly one,
/// and once it is committed the same signed request is refused with
/// `InvalidNonce`.
pub proof fn lemma_nonce_advances_and_replay_fails(
    ctx: ExecuteInstruction,
    args: ExecuteInstructionArgs,
    ix: Instruction,
    now: i64,
    plan: Plan,
)
    requires
        execute_check(ctx, args, ix, now) is Ok,
        plan_matches(ctx, args, plan),
        args.action != Action::CheckAuthenticator,
    ensures
        plan.new_nonce == ctx.smart_wallet_authenticator.nonce + 1,
        args.message.nonce == ctx.smart_wallet_authenticator.nonce,
        execute_check(committed(ctx, plan), args, ix, now) == Err::<(), LazorKitError>(
            LazorKitError::InvalidNonce,
        ),
{
    let c2 = committed(ctx, plan);
    assert(accounts_check(c2, args) == accounts_check(ctx, args));
}

/// A `CheckAuthenticator` request changes nothing: its plan keeps the nonce,
/// the rule program and the authenticators.
pub proof fn lemma_check_authenticator_changes_nothing(
    ctx: ExecuteInstruction,
    args: ExecuteInstructionArgs,
    plan: Plan,
)
    requires
        plan_matches(ctx, args, plan),
        args.action == Action::CheckAuthenticator,
    ensures
        plan.new_nonce == ctx.smart_wallet_authenticator.nonce,
        plan.new_rule_program is None,
        plan.new_authenticator is None,
        plan.steps@.len() == 0,
{
}

/// Rule replacement is allowed exactly when one of the two programs, and
/// only one, is the default.
pub proof fn lemma_rule_change_exactly_one_default(old: Seq<u8>, new: Seq<u8>, default: Seq<u8>)
    ensures
        rule_change_allowed(old, new, default) <==> ((old == default) != (new == default)),
        !rule_change_allowed(default, default, default),
        old != default && new != default ==> !rule_change_allowed(old, new, default),
        !rule_change_allowed(old, old, default),
{
}

/// The account `supplied` is the address derived from the seeds.
pub open spec fn is_derived(supplied: Seq<u8>, seeds: Seq<Seq<u8>>, program_id: Seq<u8>) -> bool {
    program_address_of(seeds, program_id) matches Some((a, _)) && a == supplied
}

/// A request whose wallet, wallet configuration or authenticator account is
/// not the one derived from its documented seeds is refused with
/// `InvalidBump`, whatever else it holds.
pub proof fn lemma_wrongly_derived_account_rejected(
    ctx: ExecuteInstruction,
    args: ExecuteInstructionArgs,
    ix: Instruction,
    now: i64,
)
    requires
        !is_derived(ctx.smart_wallet@, wallet_seeds(ctx.smart_wallet_config.id), ctx.program_id@)
            || !is_derived(
            ctx.smart_wallet_config_key@,
            wallet_config_seeds(ctx.smart_wallet@),
            ctx.program_id@,
        ) || !is_derived(
            ctx.smart_wallet_authenticator_key@,
            authenticator_seeds(args.passkey_pubkey@, ctx.smart_wallet@),
            ctx.program_id@,
        ),
    ensures
        execute_check(ctx, args, ix, now) == Err::<(), LazorKitError>(LazorKitError::InvalidBump),
{
}

} // verus!
