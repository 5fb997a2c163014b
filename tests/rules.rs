use anchor_lang::prelude::Pubkey;
use lazorkit::address::to_hashed_bytes;
use lazorkit::default_rule::{self, DefaultRuleError, Rule};
use lazorkit::secp::AccountMeta;
use lazorkit::state::SmartWalletAuthenticator;
use lazorkit::transfer_limit::{
    add_member, check_rule, init_rule, InitRuleArgs, Member, MemberType, RuleData,
    TransferLimitError,
};

const LAZORKIT: [u8; 32] = [7u8; 32];
const RULE_PROGRAM: [u8; 32] = [9u8; 32];
const SYSTEM: [u8; 32] = [0u8; 32];

fn pda(seeds: &[&[u8]], program: &[u8; 32]) -> (Pubkey, u8) {
    Pubkey::find_program_address(seeds, &Pubkey::new_from_array(*program))
}

fn token_program() -> [u8; 32] {
    let p: Pubkey = "TokenkegQfeZyiNwAJbNbGKPFXCWuBvf9Ss623VQ5DA".parse().unwrap();
    p.to_bytes()
}

fn transfer(amount: u64) -> Vec<u8> {
    let mut d = vec![2u8, 0, 0, 0];
    d.extend_from_slice(&amount.to_le_bytes());
    d
}

fn member(kind: MemberType, initialized: bool) -> Member {
    Member { owner: [1u8; 32], member_type: kind, smart_wallet: [2u8; 32], bump: 1, is_initialized: initialized }
}

fn limit(amount: u64) -> RuleData {
    RuleData { token: None, limit_amount: amount, bump: 1, is_initialized: true }
}

#[test]
fn default_rule_admin_checks() {
    let wallet = [2u8; 32];
    let admin = AccountMeta { pubkey: [3u8; 32], is_signer: true, is_writable: false };
    let rule_key = pda(&[b"rule", &wallet], &RULE_PROGRAM).0.to_bytes();
    let rule = default_rule::init_rule(&RULE_PROGRAM, &wallet, &admin, &rule_key).unwrap();
    assert_eq!(rule.admin, [3u8; 32]);
    assert_eq!(rule.smart_wallet, wallet);
    assert!(!rule.is_initialized);
    assert!(matches!(
        default_rule::init_rule(&RULE_PROGRAM, &wallet, &admin, &[0u8; 32]),
        Err(DefaultRuleError::InvalidRuleAccount)
    ));
    let unsigned = AccountMeta { is_signer: false, ..admin };
    assert!(matches!(
        default_rule::init_rule(&RULE_PROGRAM, &wallet, &unsigned, &rule_key),
        Err(DefaultRuleError::InvalidAuthenticator)
    ));
    assert_eq!(default_rule::check_rule(&admin, &rule), Ok(()));
    assert_eq!(default_rule::check_rule(&unsigned, &rule), Err(DefaultRuleError::InvalidAuthenticator));
    let stranger = AccountMeta { pubkey: [4u8; 32], ..admin };
    assert_eq!(default_rule::check_rule(&stranger, &rule), Err(DefaultRuleError::InvalidAuthenticator));
    assert_eq!(default_rule::initialize([5u8; 32]).authority, [5u8; 32]);
}

#[test]
fn default_rule_destroy_refunds_wallet() {
    let wallet = [2u8; 32];
    let admin = AccountMeta { pubkey: [3u8; 32], is_signer: true, is_writable: false };
    let rule = Rule { smart_wallet: wallet, admin: [3u8; 32], is_initialized: false, bump: 1 };
    let (mut rule_balance, mut wallet_balance) = (900u64, 100u64);
    assert_eq!(
        default_rule::destroy(&[8u8; 32], &admin, &rule, &mut rule_balance, &mut wallet_balance),
        Err(DefaultRuleError::InvalidSmartWallet)
    );
    assert_eq!((rule_balance, wallet_balance), (900, 100));
    let stranger = AccountMeta { pubkey: [4u8; 32], ..admin };
    assert_eq!(
        default_rule::destroy(&wallet, &stranger, &rule, &mut rule_balance, &mut wallet_balance),
        Err(DefaultRuleError::InvalidAuthenticator)
    );
    assert_eq!(default_rule::destroy(&wallet, &admin, &rule, &mut rule_balance, &mut wallet_balance), Ok(()));
    assert_eq!((rule_balance, wallet_balance), (0, 1000));
}

#[test]
fn transfer_limit_admin_and_uninitialized() {
    assert_eq!(
        check_rule(&member(MemberType::Member, false), &limit(10), &transfer(5), &SYSTEM),
        Err(TransferLimitError::MemberNotInitialized)
    );
    assert_eq!(check_rule(&member(MemberType::Admin, true), &limit(10), &[9, 9], &[44u8; 32]), Ok(()));
    let mut open = limit(10);
    open.is_initialized = false;
    assert_eq!(check_rule(&member(MemberType::Member, true), &open, &transfer(50), &SYSTEM), Ok(()));
}

#[test]
fn transfer_limit_member_amounts() {
    let m = member(MemberType::Member, true);
    assert_eq!(check_rule(&m, &limit(10), &transfer(10), &SYSTEM), Ok(()));
    assert_eq!(
        check_rule(&m, &limit(10), &transfer(11), &SYSTEM),
        Err(TransferLimitError::TransferAmountExceedLimit)
    );
    assert_eq!(check_rule(&m, &limit(10), &transfer(3), &token_program()), Ok(()));
    assert_eq!(
        check_rule(&m, &limit(10), &transfer(300), &token_program()),
        Err(TransferLimitError::TransferAmountExceedLimit)
    );
    assert_eq!(check_rule(&m, &limit(10), &transfer(1), &[44u8; 32]), Err(TransferLimitError::InvalidProgram));
    assert_eq!(check_rule(&m, &limit(10), &[3, 0, 0, 0, 1], &SYSTEM), Err(TransferLimitError::UnAuthorize));
    assert_eq!(check_rule(&m, &limit(10), &[2, 0, 0, 0, 1], &SYSTEM), Err(TransferLimitError::InvalidCpiData));
}

#[test]
fn transfer_limit_init_rule_makes_admin() {
    let wallet_id = 3u64;
    let (wallet, _) = pda(&[b"smart_wallet", &wallet_id.to_le_bytes()], &LAZORKIT);
    let wallet = wallet.to_bytes();
    let passkey = [6u8; 33];
    let (auth, auth_bump) = pda(&[&to_hashed_bytes(&passkey, &wallet)], &LAZORKIT);
    let auth = auth.to_bytes();
    let args = InitRuleArgs { passkey_pubkey: passkey, token: None, limit_amount: 77, limit_period: 0 };
    let fresh = Member { owner: [0u8; 32], member_type: MemberType::Member, smart_wallet: [0u8; 32], bump: 0, is_initialized: false };
    let (rule, m) = init_rule(&LAZORKIT, wallet_id, &wallet, &auth, &fresh, &args).unwrap();
    assert_eq!(rule.limit_amount, 77);
    assert!(rule.is_initialized);
    assert_eq!(rule.bump, auth_bump);
    assert_eq!(m.member_type, MemberType::Admin);
    assert_eq!(m.owner, auth);
    let existing = member(MemberType::Member, true);
    let (_, kept) = init_rule(&LAZORKIT, wallet_id, &wallet, &auth, &existing, &args).unwrap();
    assert_eq!(kept.member_type, MemberType::Member);
    assert!(matches!(
        init_rule(&LAZORKIT, wallet_id + 1, &wallet, &auth, &fresh, &args),
        Err(TransferLimitError::InvalidBump)
    ));
}

#[test]
fn transfer_limit_add_member() {
    let wallet = [2u8; 32];
    let authenticator = SmartWalletAuthenticator { passkey_pubkey: [1u8; 33], smart_wallet: wallet, nonce: 0, bump: 0 };
    let new_passkey = [8u8; 33];
    let (new_key, bump) = pda(&[&to_hashed_bytes(&new_passkey, &wallet)], &LAZORKIT);
    let new_key = new_key.to_bytes();
    let admin = member(MemberType::Admin, true);
    let added = add_member(&LAZORKIT, &authenticator, &admin, &new_key, new_passkey, bump).unwrap();
    assert_eq!(added.owner, new_key);
    assert_eq!(added.member_type, MemberType::Member);
    assert_eq!(added.smart_wallet, wallet);
    assert!(matches!(
        add_member(&LAZORKIT, &authenticator, &admin, &[5u8; 32], new_passkey, bump),
        Err(TransferLimitError::InvalidNewPasskey)
    ));
    assert!(matches!(
        add_member(&LAZORKIT, &authenticator, &admin, &new_key, new_passkey, bump.wrapping_add(1)),
        Err(TransferLimitError::InvalidBump)
    ));
    assert!(matches!(
        add_member(&LAZORKIT, &authenticator, &member(MemberType::Member, true), &new_key, new_passkey, bump),
        Err(TransferLimitError::UnAuthorize)
    ));
}
