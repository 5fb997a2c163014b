use anchor_lang::prelude::Pubkey;
use lazorkit::address::to_hashed_bytes;
use lazorkit::authority::{encode_message, Message};
use lazorkit::cpi::{sighash, transfer_sol_from_pda};
use lazorkit::default_rule;
use lazorkit::engine::{
    check_rule_change, complete_execution, execute_instruction, reimburse_payer, reimbursement,
    Action, CpiData, ExecuteInstruction, ExecuteInstructionArgs, Plan, Step,
};
use lazorkit::error::LazorKitError;
use lazorkit::registry::{
    complete_creation, create_smart_wallet, initialize, CreateSmartWallet, Initialize,
};
use lazorkit::secp::{secp256r1_program_id, AccountMeta, Instruction};
use lazorkit::state::{
    Config, SmartWalletAuthenticator, SmartWalletConfig, SmartWalletSeq, WhitelistRulePrograms,
};

const PROGRAM: [u8; 32] = [7u8; 32];
const DEFAULT_RULE: [u8; 32] = [9u8; 32];
const OTHER_RULE: [u8; 32] = [10u8; 32];
const PAYER: [u8; 32] = [11u8; 32];
const RECIPIENT: [u8; 32] = [12u8; 32];
const SYSTEM: [u8; 32] = [0u8; 32];
const NOW: i64 = 1_700_000_000;

fn pda(seeds: &[&[u8]], program: &[u8; 32]) -> [u8; 32] {
    Pubkey::find_program_address(seeds, &Pubkey::new_from_array(*program)).0.to_bytes()
}

fn record(pubkey: &[u8], sig: &[u8], msg: &[u8]) -> Instruction {
    let mut d = vec![1u8, 0];
    for v in [49u16, 0xFFFF, 16, 0xFFFF, 113, msg.len() as u16, 0xFFFF] {
        d.extend_from_slice(&v.to_le_bytes());
    }
    d.extend_from_slice(pubkey);
    d.extend_from_slice(sig);
    d.extend_from_slice(msg);
    Instruction { program_id: secp256r1_program_id(), accounts: vec![], data: d }
}

struct World {
    config: Config,
    whitelist: WhitelistRulePrograms,
    seq: SmartWalletSeq,
    wallet: [u8; 32],
    wallet_config: SmartWalletConfig,
    authenticator_key: [u8; 32],
    authenticator: SmartWalletAuthenticator,
    rule_key: [u8; 32],
    rule: default_rule::Rule,
    wallet_balance: u64,
    recipient_balance: u64,
}

fn first_passkey() -> [u8; 33] {
    let mut p = [0u8; 33];
    p[0] = 2;
    for (i, b) in p.iter_mut().enumerate().skip(1) {
        *b = i as u8;
    }
    p
}

fn bootstrap() -> World {
    let init = Initialize {
        program_id: PROGRAM,
        config: pda(&[b"config"], &PROGRAM),
        whitelist_rule_programs: pda(&[b"whitelist_rule_programs"], &PROGRAM),
        smart_wallet_seq: pda(&[b"smart_wallet_seq"], &PROGRAM),
        authority: pda(&[b"authority"], &PROGRAM),
        default_rule_program: DEFAULT_RULE,
    };
    let (config, whitelist, mut seq) = initialize(&init).unwrap();
    assert_eq!(whitelist.list, vec![DEFAULT_RULE]);
    assert_eq!(seq.seq, 0);
    assert_eq!(config.create_smart_wallet_fee, 0);
    let first_key = first_passkey();
    let wallet = pda(&[b"smart_wallet", &0u64.to_le_bytes()], &PROGRAM);
    let authenticator_key = pda(&[&to_hashed_bytes(&first_key, &wallet)], &PROGRAM);
    let rule_key = pda(&[b"rule", &wallet], &DEFAULT_RULE);
    let create = CreateSmartWallet {
        program_id: PROGRAM,
        signer: PAYER,
        smart_wallet_seq_key: pda(&[b"smart_wallet_seq"], &PROGRAM),
        smart_wallet_seq: seq,
        whitelist_rule_programs_key: pda(&[b"whitelist_rule_programs"], &PROGRAM),
        smart_wallet: wallet,
        smart_wallet_config: pda(&[b"smart_wallet_config", &wallet], &PROGRAM),
        smart_wallet_authenticator: authenticator_key,
        config_key: pda(&[b"config"], &PROGRAM),
        config,
        default_rule_program: DEFAULT_RULE,
        remaining_accounts: vec![
            AccountMeta { pubkey: wallet, is_signer: false, is_writable: false },
            AccountMeta { pubkey: authenticator_key, is_signer: false, is_writable: false },
            AccountMeta { pubkey: rule_key, is_signer: false, is_writable: true },
        ],
    };
    let init_rule_data = sighash("global", "init_rule").to_vec();
    let plan = create_smart_wallet(&create, first_key, init_rule_data.clone()).unwrap();
    assert_eq!(plan.steps.len(), 2);
    let rule = match &plan.steps[0] {
        Step::Invoke { instruction, signer } => {
            assert_eq!(instruction.program_id, DEFAULT_RULE);
            assert_eq!(instruction.data, init_rule_data);
            assert_eq!(signer.seeds, to_hashed_bytes(&first_key, &wallet).to_vec());
            assert!(instruction.accounts[1].is_signer);
            assert!(!instruction.accounts[0].is_signer);
            default_rule::init_rule(&DEFAULT_RULE, &wallet, &instruction.accounts[1], &rule_key)
                .unwrap()
        }
        _ => panic!("rule initialization expected"),
    };
    assert!(matches!(plan.steps[1], Step::Transfer { to: PAYER, amount: 0 }));
    let (wallet_config, authenticator) = complete_creation(&mut seq, &plan);
    assert_eq!(seq.seq, 1);
    assert_eq!(wallet_config.id, 0);
    assert_eq!(wallet_config.rule_program, DEFAULT_RULE);
    assert_eq!(authenticator.nonce, 0);
    assert_eq!(rule.admin, authenticator_key);
    World {
        config,
        whitelist,
        seq,
        wallet,
        wallet_config,
        authenticator_key,
        authenticator,
        rule_key,
        rule,
        wallet_balance: 1_000_000,
        recipient_balance: 10,
    }
}

fn context(w: &World, rule_program: [u8; 32], cpi_program: [u8; 32]) -> ExecuteInstruction {
    ExecuteInstruction {
        program_id: PROGRAM,
        payer: PAYER,
        config_key: pda(&[b"config"], &PROGRAM),
        config: w.config,
        smart_wallet: w.wallet,
        smart_wallet_config_key: pda(&[b"smart_wallet_config", &w.wallet], &PROGRAM),
        smart_wallet_config: w.wallet_config,
        smart_wallet_authenticator_key: w.authenticator_key,
        smart_wallet_authenticator: w.authenticator,
        whitelist_rule_programs_key: pda(&[b"whitelist_rule_programs"], &PROGRAM),
        whitelist_rule_programs: w.whitelist.clone(),
        authenticator_program: rule_program,
        cpi_program,
        new_smart_wallet_authenticator: None,
        remaining_accounts: vec![
            AccountMeta { pubkey: w.wallet, is_signer: false, is_writable: true },
            AccountMeta { pubkey: RECIPIENT, is_signer: false, is_writable: true },
            AccountMeta { pubkey: w.authenticator_key, is_signer: false, is_writable: false },
            AccountMeta { pubkey: w.rule_key, is_signer: false, is_writable: false },
        ],
    }
}

fn transfer_args(nonce: u64, amount: u64) -> (ExecuteInstructionArgs, Instruction) {
    let first_key = first_passkey();
    let sig = vec![0x5Au8; 64];
    let message = Message { nonce, timestamp: NOW, payload: vec![1] };
    let ix = record(&first_key, &sig, &encode_message(&message));
    let mut transfer = vec![2u8, 0, 0, 0];
    transfer.extend_from_slice(&amount.to_le_bytes());
    let args = ExecuteInstructionArgs {
        passkey_pubkey: first_key,
        signature: sig,
        message,
        verify_instruction_index: 0,
        rule_data: CpiData { data: sighash("global", "check_rule").to_vec(), start_index: 2, length: 2 },
        cpi_data: Some(CpiData { data: transfer, start_index: 0, length: 2 }),
        action: Action::ExecuteCpi,
        create_new_authenticator: None,
    };
    (args, ix)
}

/// Performs the plan's steps as the host would, for the default rule.
fn run_steps(w: &mut World, plan: &Plan) -> Result<(), String> {
    for step in &plan.steps {
        match step {
            Step::Invoke { instruction, .. } => {
                if instruction.program_id == DEFAULT_RULE {
                    let signer = instruction
                        .accounts
                        .iter()
                        .find(|a| a.pubkey == w.authenticator_key)
                        .ok_or("authenticator missing")?;
                    default_rule::check_rule(signer, &w.rule).map_err(|e| format!("{:?}", e))?;
                }
            }
            Step::Transfer { to, amount } => {
                assert_eq!(*to, RECIPIENT);
                transfer_sol_from_pda(&mut w.wallet_balance, &mut w.recipient_balance, *amount)
                    .map_err(|e| format!("{:?}", e))?;
            }
        }
    }
    Ok(())
}

#[test]
fn create_transfer_and_replay() {
    let mut w = bootstrap();
    let (args, ix) = transfer_args(0, 25_000);
    let ctx = context(&w, DEFAULT_RULE, SYSTEM);
    let plan = execute_instruction(&ctx, &args, &ix, NOW + 5).unwrap();
    assert_eq!(plan.new_nonce, 1);
    assert_eq!(plan.steps.len(), 2);
    match &plan.steps[0] {
        Step::Invoke { instruction, signer } => {
            assert_eq!(instruction.program_id, DEFAULT_RULE);
            assert_eq!(instruction.accounts.len(), 2);
            assert!(instruction.accounts[0].is_signer);
            assert_eq!(signer.seeds, to_hashed_bytes(&first_passkey(), &w.wallet).to_vec());
        }
        _ => panic!("rule check expected"),
    }
    run_steps(&mut w, &plan).unwrap();
    let created = complete_execution(&mut w.authenticator, &mut w.wallet_config, &plan);
    assert!(created.is_none());
    assert_eq!(w.authenticator.nonce, 1);
    assert_eq!(w.wallet_balance, 1_000_000 - 25_000);
    assert_eq!(w.recipient_balance, 10 + 25_000);
    assert_eq!(w.wallet_config.rule_program, DEFAULT_RULE);

    let ctx = context(&w, DEFAULT_RULE, SYSTEM);
    assert!(matches!(execute_instruction(&ctx, &args, &ix, NOW + 5), Err(LazorKitError::InvalidNonce)));
    assert_eq!(w.authenticator.nonce, 1);
    assert_eq!(w.seq.seq, 1);
}

#[test]
fn next_nonce_is_accepted_after_commit() {
    let mut w = bootstrap();
    let (args, ix) = transfer_args(0, 1);
    let plan = execute_instruction(&context(&w, DEFAULT_RULE, SYSTEM), &args, &ix, NOW).unwrap();
    run_steps(&mut w, &plan).unwrap();
    complete_execution(&mut w.authenticator, &mut w.wallet_config, &plan);
    let (args, ix) = transfer_args(1, 2);
    let plan = execute_instruction(&context(&w, DEFAULT_RULE, SYSTEM), &args, &ix, NOW).unwrap();
    assert_eq!(plan.new_nonce, 2);
}

#[test]
fn failed_invocation_leaves_nonce() {
    let mut w = bootstrap();
    let (args, ix) = transfer_args(0, 5_000_000);
    let plan = execute_instruction(&context(&w, DEFAULT_RULE, SYSTEM), &args, &ix, NOW).unwrap();
    assert!(run_steps(&mut w, &plan).is_err());
    assert_eq!(w.authenticator.nonce, 0);
    let again = execute_instruction(&context(&w, DEFAULT_RULE, SYSTEM), &args, &ix, NOW);
    assert!(again.is_ok());
}

#[test]
fn rule_program_outside_whitelist_is_refused() {
    let w = bootstrap();
    let (args, ix) = transfer_args(0, 100);
    let ctx = context(&w, OTHER_RULE, SYSTEM);
    assert!(matches!(
        execute_instruction(&ctx, &args, &ix, NOW),
        Err(LazorKitError::ProgramNotInWhitelist)
    ));
    assert_eq!(ctx.smart_wallet_authenticator.nonce, 0);
    assert_eq!(w.authenticator.nonce, 0);
    assert_eq!(w.wallet_balance, 1_000_000);
}

#[test]
fn expired_and_future_requests() {
    let w = bootstrap();
    let (args, ix) = transfer_args(0, 100);
    let ctx = context(&w, DEFAULT_RULE, SYSTEM);
    assert!(execute_instruction(&ctx, &args, &ix, NOW + 30).is_ok());
    assert!(execute_instruction(&ctx, &args, &ix, NOW - 30).is_ok());
    assert!(matches!(execute_instruction(&ctx, &args, &ix, NOW + 31), Err(LazorKitError::SignatureExpired)));
    assert!(matches!(execute_instruction(&ctx, &args, &ix, NOW - 31), Err(LazorKitError::InvalidTimestamp)));
}

#[test]
fn wrong_selector_or_accounts() {
    let w = bootstrap();
    let (mut args, ix) = transfer_args(0, 100);
    let ctx = context(&w, DEFAULT_RULE, SYSTEM);
    args.rule_data.data = sighash("global", "destroy").to_vec();
    assert!(matches!(execute_instruction(&ctx, &args, &ix, NOW), Err(LazorKitError::InvalidRuleInstruction)));
    let (mut args, ix) = transfer_args(0, 100);
    args.rule_data.start_index = 3;
    assert!(matches!(execute_instruction(&ctx, &args, &ix, NOW), Err(LazorKitError::InvalidAccountInput)));
    let (mut args, ix) = transfer_args(0, 100);
    args.cpi_data = None;
    assert!(matches!(execute_instruction(&ctx, &args, &ix, NOW), Err(LazorKitError::InvalidAccountInput)));
    let (mut args, ix) = transfer_args(0, 100);
    args.cpi_data.as_mut().unwrap().data.truncate(8);
    assert!(matches!(execute_instruction(&ctx, &args, &ix, NOW), Err(LazorKitError::InvalidInstructionData)));
}

#[test]
fn wrong_wallet_or_passkey_is_refused() {
    let w = bootstrap();
    let (args, ix) = transfer_args(0, 100);
    let mut ctx = context(&w, DEFAULT_RULE, SYSTEM);
    ctx.smart_wallet_config_key = [1u8; 32];
    assert!(matches!(execute_instruction(&ctx, &args, &ix, NOW), Err(LazorKitError::InvalidBump)));
    let mut ctx = context(&w, DEFAULT_RULE, SYSTEM);
    ctx.smart_wallet_authenticator.passkey_pubkey[5] ^= 1;
    assert!(matches!(execute_instruction(&ctx, &args, &ix, NOW), Err(LazorKitError::InvalidPasskey)));
    let ctx = context(&w, DEFAULT_RULE, SYSTEM);
    let mut bad = ix.clone();
    bad.data[0] = 2;
    assert!(matches!(
        execute_instruction(&ctx, &args, &bad, NOW),
        Err(LazorKitError::VerifyHeaderMismatchError)
    ));
}

#[test]
fn generic_invocation_signs_as_wallet() {
    let w = bootstrap();
    let (mut args, ix) = transfer_args(0, 100);
    let target = [33u8; 32];
    args.cpi_data = Some(CpiData { data: vec![7, 7, 7], start_index: 0, length: 2 });
    let ctx = context(&w, DEFAULT_RULE, target);
    let plan = execute_instruction(&ctx, &args, &ix, NOW).unwrap();
    match &plan.steps[1] {
        Step::Invoke { instruction, signer } => {
            assert_eq!(instruction.program_id, target);
            assert_eq!(instruction.data, vec![7, 7, 7]);
            assert!(instruction.accounts[0].is_signer);
            assert!(!instruction.accounts[1].is_signer);
            let mut seed = b"smart_wallet".to_vec();
            seed.extend_from_slice(&0u64.to_le_bytes());
            assert_eq!(signer.seeds, seed);
            assert_eq!(signer.bump, w.wallet_config.bump);
        }
        _ => panic!("invocation expected"),
    }
}

fn change_args(w: &World, old: [u8; 32], new: [u8; 32]) -> (ExecuteInstruction, ExecuteInstructionArgs, Instruction) {
    let (mut args, ix) = transfer_args(0, 0);
    args.action = Action::ChangeProgramRule;
    args.rule_data = CpiData { data: sighash("global", "destroy").to_vec(), start_index: 2, length: 2 };
    args.cpi_data = Some(CpiData { data: sighash("global", "init_rule").to_vec(), start_index: 0, length: 3 });
    let mut ctx = context(w, old, new);
    ctx.whitelist_rule_programs.list.push(OTHER_RULE);
    (ctx, args, ix)
}

#[test]
fn rule_change_combinations() {
    let w = bootstrap();
    let (ctx, args, ix) = change_args(&w, DEFAULT_RULE, DEFAULT_RULE);
    assert!(matches!(execute_instruction(&ctx, &args, &ix, NOW), Err(LazorKitError::InvalidRuleProgram)));
    let (mut ctx, args, ix) = change_args(&w, OTHER_RULE, [13u8; 32]);
    ctx.whitelist_rule_programs.list.push([13u8; 32]);
    assert!(matches!(execute_instruction(&ctx, &args, &ix, NOW), Err(LazorKitError::InvalidRuleProgram)));
    let (ctx, args, ix) = change_args(&w, OTHER_RULE, OTHER_RULE);
    assert!(matches!(execute_instruction(&ctx, &args, &ix, NOW), Err(LazorKitError::InvalidRuleProgram)));
    let (ctx, args, ix) = change_args(&w, DEFAULT_RULE, OTHER_RULE);
    let plan = execute_instruction(&ctx, &args, &ix, NOW).unwrap();
    assert_eq!(plan.new_rule_program, Some(OTHER_RULE));
    assert_eq!(plan.steps.len(), 2);
    let (ctx, args, ix) = change_args(&w, OTHER_RULE, DEFAULT_RULE);
    assert!(execute_instruction(&ctx, &args, &ix, NOW).is_ok());
}

#[test]
fn rule_change_commit_updates_wallet() {
    let mut w = bootstrap();
    let (ctx, args, ix) = change_args(&w, DEFAULT_RULE, OTHER_RULE);
    let plan = execute_instruction(&ctx, &args, &ix, NOW).unwrap();
    complete_execution(&mut w.authenticator, &mut w.wallet_config, &plan);
    assert_eq!(w.wallet_config.rule_program, OTHER_RULE);
    assert_eq!(w.authenticator.nonce, 1);
}

#[test]
fn rule_change_check_alone() {
    let d = DEFAULT_RULE;
    assert_eq!(check_rule_change(&d, &OTHER_RULE, &d), Ok(()));
    assert_eq!(check_rule_change(&OTHER_RULE, &d, &d), Ok(()));
    assert_eq!(check_rule_change(&d, &d, &d), Err(LazorKitError::InvalidRuleProgram));
    assert_eq!(check_rule_change(&OTHER_RULE, &[14u8; 32], &d), Err(LazorKitError::InvalidRuleProgram));
}

#[test]
fn rule_change_needs_whitelisted_programs_and_selectors() {
    let w = bootstrap();
    let (mut ctx, args, ix) = change_args(&w, DEFAULT_RULE, [15u8; 32]);
    ctx.cpi_program = [15u8; 32];
    assert!(matches!(execute_instruction(&ctx, &args, &ix, NOW), Err(LazorKitError::ProgramNotInWhitelist)));
    let (ctx, mut args, ix) = change_args(&w, DEFAULT_RULE, OTHER_RULE);
    args.cpi_data.as_mut().unwrap().data = sighash("global", "check_rule").to_vec();
    assert!(matches!(execute_instruction(&ctx, &args, &ix, NOW), Err(LazorKitError::InvalidRuleInstruction)));
}

#[test]
fn check_authenticator_changes_nothing() {
    let mut w = bootstrap();
    let (mut args, ix) = transfer_args(0, 0);
    args.action = Action::CheckAuthenticator;
    let plan = execute_instruction(&context(&w, OTHER_RULE, SYSTEM), &args, &ix, NOW).unwrap();
    assert!(plan.steps.is_empty());
    assert_eq!(plan.new_nonce, 0);
    complete_execution(&mut w.authenticator, &mut w.wallet_config, &plan);
    assert_eq!(w.authenticator.nonce, 0);
}

#[test]
fn call_rule_program_enrolls_authenticator() {
    let mut w = bootstrap();
    let (mut args, ix) = transfer_args(0, 0);
    let new_passkey = [3u8; 33];
    args.action = Action::CallRuleProgram;
    args.create_new_authenticator = Some(new_passkey);
    let mut ctx = context(&w, DEFAULT_RULE, SYSTEM);
    assert!(matches!(execute_instruction(&ctx, &args, &ix, NOW), Err(LazorKitError::InvalidAccountInput)));
    let new_key = pda(&[&to_hashed_bytes(&new_passkey, &w.wallet)], &PROGRAM);
    ctx.new_smart_wallet_authenticator = Some([4u8; 32]);
    assert!(matches!(execute_instruction(&ctx, &args, &ix, NOW), Err(LazorKitError::InvalidBump)));
    ctx.new_smart_wallet_authenticator = Some(new_key);
    let plan = execute_instruction(&ctx, &args, &ix, NOW).unwrap();
    assert_eq!(plan.steps.len(), 1);
    let created = complete_execution(&mut w.authenticator, &mut w.wallet_config, &plan).unwrap();
    assert_eq!(created.0, new_key);
    assert_eq!(created.1.passkey_pubkey, new_passkey);
    assert_eq!(created.1.smart_wallet, w.wallet);
    assert_eq!(created.1.nonce, 0);
    assert_eq!(w.authenticator.nonce, 1);
}

#[test]
fn payer_reimbursement() {
    assert_eq!(reimbursement(50_000, 30_000), 30_000);
    assert_eq!(reimbursement(50_000, 55_000), 5_000);
    assert_eq!(reimbursement(50_000, 70_000), 0);
    assert_eq!(reimbursement(50_000, 5_000), 50_000);
    let (mut wallet, mut payer) = (100_000u64, 30_000u64);
    assert_eq!(reimburse_payer(&mut wallet, &mut payer, 50_000), Ok(30_000));
    assert_eq!((wallet, payer), (70_000, 60_000));
    let (mut wallet, mut payer) = (10u64, 30_000u64);
    assert_eq!(reimburse_payer(&mut wallet, &mut payer, 50_000), Err(LazorKitError::InsufficientFunds));
    assert_eq!((wallet, payer), (10, 30_000));
}

#[test]
fn call_rule_program_without_enrollment() {
    let mut w = bootstrap();
    let (mut args, ix) = transfer_args(0, 0);
    args.action = Action::CallRuleProgram;
    let ctx = context(&w, DEFAULT_RULE, SYSTEM);
    let plan = execute_instruction(&ctx, &args, &ix, NOW).unwrap();
    assert_eq!(plan.steps.len(), 1);
    assert!(plan.new_authenticator.is_none());
    run_steps(&mut w, &plan).unwrap();
    assert!(complete_execution(&mut w.authenticator, &mut w.wallet_config, &plan).is_none());
    assert_eq!(w.authenticator.nonce, 1);
    let outside = context(&w, OTHER_RULE, SYSTEM);
    let (mut args, ix) = transfer_args(1, 0);
    args.action = Action::CallRuleProgram;
    assert!(matches!(
        execute_instruction(&outside, &args, &ix, NOW),
        Err(LazorKitError::ProgramNotInWhitelist)
    ));
}
