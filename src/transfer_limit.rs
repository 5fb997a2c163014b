//! The transfer-limit rule module: admins may do anything; members may only
//! move value through the system or token program, up to the rule's limit.
use vstd::prelude::*;

use crate::address::{
    authenticator_seeds, derive_address, program_address_of, smart_wallet_authenticator_seeds,
    smart_wallet_seeds, wallet_seeds, Address, Passkey,
};
use crate::bytes::{read_u64_le, u64_from_le};
use crate::engine::{native_transfer_tag, system_program};
use crate::state::SmartWalletAuthenticator;

verus! {

/// Errors of the transfer-limit module.
#[derive(Debug, Clone, Copy, PartialEq, Eq, Structural)]
pub enum TransferLimitError {
    /// The instruction data is too short to hold an amount.
    InvalidCpiData,
    /// The member record was never initialized.
    MemberNotInitialized,
    /// The amount exceeds the rule's limit.
    TransferAmountExceedLimit,
    /// The target program is neither the system nor the token program.
    InvalidProgram,
    /// The member may not perform this action (an unrecognized instruction
    /// shape, or a non-admin adding members).
    UnAuthorize,
    /// The new authenticator is not the one derived for the passkey.
    InvalidNewPasskey,
    /// A bump or derived account does not match.
    InvalidBump,
}

/// The role of a member.
#[derive(Debug, Clone, Copy, PartialEq, Eq, Structural)]
pub enum MemberType {
    Admin,
    Member,
}

/// A member of a wallet's policy.
#[derive(Clone, Copy, Debug)]
pub struct Member {
    pub owner: Address,
    pub member_type: MemberType,
    pub smart_wallet: Address,
    pub bump: u8,
    pub is_initialized: bool,
}

/// A wallet's limit for one token (or for native value when `token` is `None`).
#[derive(Clone, Copy, Debug)]
pub struct RuleData {
    pub token: Option<Address>,
    pub limit_amount: u64,
    pub bump: u8,
    pub is_initialized: bool,
}

/// The module's settings.
#[derive(Clone, Copy, Debug)]
pub struct Config {
    pub authority: Address,
}

/// Arguments of `init_rule`.
#[derive(Clone, Copy, Debug)]
pub struct InitRuleArgs {
    pub passkey_pubkey: Passkey,
    pub token: Option<Address>,
    pub limit_amount: u64,
    pub limit_period: u64,
}

/// Arguments naming a member.
#[derive(Clone, Copy, Debug)]
pub struct AddMemberArgs {
    pub member: Address,
}

/// The address of the token program.
pub open spec fn token_program() -> Seq<u8> {
    seq![6u8, 221, 246, 225, 215, 101, 161, 147, 217, 203, 225, 70, 206, 235, 121, 172, 28, 180,
        133, 237, 95, 91, 55, 145, 58, 140, 245, 133, 126, 255, 0, 169]
}

/// Relies on `anchor_spl::token::ID`: the token program's address, declared
/// there as `TokenkegQfeZyiNwAJbNbGKPFXCWuBvf9Ss623VQ5DA`.
#[verifier::external_body]
fn token_program_id() -> (r: Address)
    ensures
        r@ == token_program(),
{
    anchor_spl::token::ID.to_bytes()
}

/// The module's settings, naming the engine's authority.
pub fn initialize(lazorkit_author: Address) -> (r: Config)
    ensures
        r.authority == lazorkit_author,
{
    Config { authority: lazorkit_author }
}

/// Whether the data starts with the native transfer tag.
pub open spec fn transfer_tagged(data: Seq<u8>) -> bool {
    data.len() >= 4 && data.subrange(0, 4) == native_transfer_tag()
}

/// The outcome of checking an action on `program` with `cpi_data`.
pub open spec fn check_rule_outcome(
    member: Member,
    rule_data: RuleData,
    cpi_data: Seq<u8>,
    program_id: Seq<u8>,
) -> Result<(), TransferLimitError> {
    if !member.is_initialized {
        Err(TransferLimitError::MemberNotInitialized)
    } else if member.member_type == MemberType::Admin || !rule_data.is_initialized {
        Ok(())
    } else if program_id != system_program() && program_id != token_program() {
        Err(TransferLimitError::InvalidProgram)
    } else if !transfer_tagged(cpi_data) {
        Err(TransferLimitError::UnAuthorize)
    } else if cpi_data.len() < 12 {
        Err(TransferLimitError::InvalidCpiData)
    } else if u64_from_le(cpi_data.subrange(4, 12)) > rule_data.limit_amount {
        Err(TransferLimitError::TransferAmountExceedLimit)
    } else {
        Ok(())
    }
}

fn is_transfer_tagged(data: &[u8]) -> (r: bool)
    ensures
        r == transfer_tagged(data@),
{
    if data.len() < 4 {
        return false;
    }
    let r = data[0] == 2 && data[1] == 0 && data[2] == 0 && data[3] == 0;
    assert(r == (data@.subrange(0, 4) =~= native_transfer_tag()));
    r
}

/// Allows an action of `member` on `program_id` with `cpi_data`: admins and
/// wallets without a limit may do anything; other members only a tagged
/// transfer through the system or token program of at most the limit.
pub fn check_rule(member: &Member, rule_data: &RuleData, cpi_data: &[u8], program_id: &Address) -> (r:
    Result<(), TransferLimitError>)
    ensures
        r == check_rule_outcome(*member, *rule_data, cpi_data@, program_id@),
{
    if !member.is_initialized {
        return Err(TransferLimitError::MemberNotInitialized);
    }
    if member.member_type == MemberType::Admin || !rule_data.is_initialized {
        return Ok(());
    }
    let system: Address = [0u8; 32];
    assert(system@ =~= system_program());
    let token = token_program_id();
    if !crate::bytes::slice_eq(program_id, &system) && !crate::bytes::slice_eq(program_id, &token) {
        return Err(TransferLimitError::InvalidProgram);
    }
    if !is_transfer_tagged(cpi_data) {
        return Err(TransferLimitError::UnAuthorize);
    }
    if cpi_data.len() < 12 {
        return Err(TransferLimitError::InvalidCpiData);
    }
    let amount = read_u64_le(cpi_data, 4);
    if amount > rule_data.limit_amount {
        return Err(TransferLimitError::TransferAmountExceedLimit);
    }
    Ok(())
}

/// The wallet is the one derived for its id, and the authenticator the one
/// derived for the passkey and the wallet.
pub open spec fn init_rule_accounts_derived(
    lazorkit: Seq<u8>,
    wallet_id: u64,
    wallet: Seq<u8>,
    authenticator: Seq<u8>,
    passkey: Seq<u8>,
) -> bool {
    &&& program_address_of(wallet_seeds(wallet_id), lazorkit) matches Some((w, _)) && w == wallet
    &&& program_address_of(authenticator_seeds(passkey, wallet), lazorkit) matches Some((a, _)) && a
        == authenticator
}

/// Creates the wallet's limit record and, unless the authenticator is
/// already a member, makes it the admin. The wallet and the authenticator
/// must be the ones the engine derives for the wallet's id and the passkey.
pub fn init_rule(
    lazorkit: &Address,
    wallet_id: u64,
    smart_wallet: &Address,
    smart_wallet_authenticator: &Address,
    member: &Member,
    args: &InitRuleArgs,
) -> (r: Result<(RuleData, Member), TransferLimitError>)
    ensures
        match r {
            Ok((rule, m)) => {
                &&& program_address_of(wallet_seeds(wallet_id), lazorkit@) matches Some((w, _))
                    && w == smart_wallet@
                &&& program_address_of(
                    authenticator_seeds(args.passkey_pubkey@, smart_wallet@),
                    lazorkit@,
                ) matches Some((a, b)) && a == smart_wallet_authenticator@ && rule == (RuleData {
                    token: args.token,
                    limit_amount: args.limit_amount,
                    bump: b,
                    is_initialized: true,
                }) && m == (if member.is_initialized {
                    *member
                } else {
                    Member {
                        owner: *smart_wallet_authenticator,
                        member_type: MemberType::Admin,
                        smart_wallet: *smart_wallet,
                        bump: b,
                        is_initialized: true,
                    }
                })
            },
            Err(e) => e == TransferLimitError::InvalidBump && !init_rule_accounts_derived(
                lazorkit@,
                wallet_id,
                smart_wallet@,
                smart_wallet_authenticator@,
                args.passkey_pubkey@,
            ),
        },
{
    match derive_address(&smart_wallet_seeds(wallet_id), lazorkit) {
        Ok((w, _)) => {
            if !crate::bytes::slice_eq(&w, smart_wallet) {
                return Err(TransferLimitError::InvalidBump);
            }
        },
        Err(_) => {
            return Err(TransferLimitError::InvalidBump);
        },
    }
    let seeds = smart_wallet_authenticator_seeds(&args.passkey_pubkey, smart_wallet);
    let bump = match derive_address(&seeds, lazorkit) {
        Ok((a, b)) => {
            if !crate::bytes::slice_eq(&a, smart_wallet_authenticator) {
                return Err(TransferLimitError::InvalidBump);
            }
            b
        },
        Err(_) => {
            return Err(TransferLimitError::InvalidBump);
        },
    };
    let rule = RuleData {
        token: args.token,
        limit_amount: args.limit_amount,
        bump,
        is_initialized: true,
    };
    let m = if member.is_initialized {
        *member
    } else {
        Member {
            owner: *smart_wallet_authenticator,
            member_type: MemberType::Admin,
            smart_wallet: *smart_wallet,
            bump,
            is_initialized: true,
        }
    };
    Ok((rule, m))
}

/// An admin adds the authenticator of `new_passkey_pubkey` as a member; the
/// new authenticator account and `bump` must be the ones the engine derives.
pub fn add_member(
    lazorkit: &Address,
    smart_wallet_authenticator: &SmartWalletAuthenticator,
    admin: &Member,
    new_smart_wallet_authenticator: &Address,
    new_passkey_pubkey: Passkey,
    bump: u8,
) -> (r: Result<Member, TransferLimitError>)
    ensures
        admin.member_type != MemberType::Admin ==> r == Err::<Member, TransferLimitError>(
            TransferLimitError::UnAuthorize,
        ),
        admin.member_type == MemberType::Admin ==> match program_address_of(
            authenticator_seeds(new_passkey_pubkey@, smart_wallet_authenticator.smart_wallet@),
            lazorkit@,
        ) {
            None => r == Err::<Member, TransferLimitError>(TransferLimitError::InvalidBump),
            Some((a, b)) => if a != new_smart_wallet_authenticator@ {
                r == Err::<Member, TransferLimitError>(TransferLimitError::InvalidNewPasskey)
            } else if b != bump {
                r == Err::<Member, TransferLimitError>(TransferLimitError::InvalidBump)
            } else {
                r == Ok::<Member, TransferLimitError>(
                    Member {
                        owner: *new_smart_wallet_authenticator,
                        member_type: MemberType::Member,
                        smart_wallet: smart_wallet_authenticator.smart_wallet,
                        bump,
                        is_initialized: true,
                    },
                )
            },
        },
{
    if admin.member_type != MemberType::Admin {
        return Err(TransferLimitError::UnAuthorize);
    }
    let seeds = smart_wallet_authenticator_seeds(
        &new_passkey_pubkey,
        &smart_wallet_authenticator.smart_wallet,
    );
    let (expected, expected_bump) = match derive_address(&seeds, lazorkit) {
        Ok(found) => found,
        Err(_) => {
            return Err(TransferLimitError::InvalidBump);
        },
    };
    if !crate::bytes::slice_eq(&expected, new_smart_wallet_authenticator) {
        return Err(TransferLimitError::InvalidNewPasskey);
    }
    if expected_bump != bump {
        return Err(TransferLimitError::InvalidBump);
    }
    Ok(
        Member {
            owner: *new_smart_wallet_authenticator,
            member_type: MemberType::Member,
            smart_wallet: smart_wallet_authenticator.smart_wallet,
            bump: expected_bump,
            is_initialized: true,
        },
    )
}

} // verus!
