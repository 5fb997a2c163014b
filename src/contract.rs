//! The earlier wallet program: one authority record per passkey, carrying
//! its own nonce, and a single signed invocation per request.
use vstd::prelude::*;
use vstd::string::StringSliceAdditionalSpecFns;

use crate::address::{
    authenticator_seeds, check_derived, derived_check, smart_wallet_authenticator_seeds,
    smart_wallet_seeds, smart_wallet_signer_seed, wallet_seeds, Address,
};
use crate::authority::{authority_check, verify_authority, PasskeyPubkey, VerifyParam};
use crate::cpi::PdaSigner;
use crate::engine::wallet_signer_seed;
use crate::error::LazorKitError;
use crate::secp::{AccountMeta, Instruction};

verus! {

/// The binding of a passkey to a wallet, with the nonce of the next request.
#[derive(Clone, Copy, Debug)]
pub struct SmartWalletAuthority {
    pub pubkey: PasskeyPubkey,
    pub smart_wallet_pubkey: Address,
    pub nonce: u64,
}

/// A wallet's id and the bump of its address.
#[derive(Clone, Copy, Debug)]
pub struct SmartWalletData {
    pub bump: u8,
    pub id: u64,
}

/// A request to add a key.
#[derive(Clone, Copy, Debug)]
pub struct AddPubkeyMessage {
    pub nonce: u64,
    pub timestamp: i64,
    pub id: u64,
}

/// Seeds of a wallet's data record.
pub open spec fn wallet_data_seeds(wallet: Seq<u8>) -> Seq<Seq<u8>> {
    seq!["smart_wallet_data".spec_bytes(), wallet]
}

fn wallet_data_seed_list(wallet: &Address) -> (r: Vec<Vec<u8>>)
    ensures
        r.deep_view() == wallet_data_seeds(wallet@),
{
    let a = vstd::slice::slice_to_vec("smart_wallet_data".as_bytes());
    let b = vstd::slice::slice_to_vec(wallet.as_slice());
    let ghost av = a@;
    let ghost bv = b@;
    let r: Vec<Vec<u8>> = vec![a, b];
    assert(r@[0].deep_view() =~= av);
    assert(r@[1].deep_view() =~= bv);
    assert(r.deep_view() =~= wallet_data_seeds(wallet@));
    r
}

/// The accounts of a wallet's creation.
#[derive(Clone, Copy, Debug)]
pub struct InitSmartWallet {
    pub program_id: Address,
    pub smart_wallet: Address,
    pub smart_wallet_data: Address,
    pub smart_wallet_authority: Address,
}

/// The outcome of checking a creation's accounts; on success the wallet's bump.
pub open spec fn init_check(ctx: InitSmartWallet, pubkey: Seq<u8>, id: u64) -> Result<u8, LazorKitError> {
    let pid = ctx.program_id@;
    let w = derived_check(ctx.smart_wallet@, wallet_seeds(id), pid);
    if w is Err || derived_check(ctx.smart_wallet_data@, wallet_data_seeds(ctx.smart_wallet@), pid)
        is Err || derived_check(
        ctx.smart_wallet_authority@,
        authenticator_seeds(pubkey, ctx.smart_wallet@),
        pid,
    ) is Err {
        Err(LazorKitError::InvalidBump)
    } else {
        Ok(w->Ok_0)
    }
}

/// Creates wallet `id` with `pubkey` as its first authority, at nonce zero.
pub fn init_smart_wallet(ctx: &InitSmartWallet, pubkey: PasskeyPubkey, id: u64) -> (r: Result<
    (SmartWalletAuthority, SmartWalletData),
    LazorKitError,
>)
    ensures
        match r {
            Ok((authority, data)) => init_check(*ctx, pubkey.data@, id) matches Ok(b) && authority
                == (SmartWalletAuthority {
                pubkey,
                smart_wallet_pubkey: ctx.smart_wallet,
                nonce: 0,
            }) && data == (SmartWalletData { bump: b, id }),
            Err(e) => init_check(*ctx, pubkey.data@, id) == Err::<u8, LazorKitError>(e),
        },
{
    let pid = &ctx.program_id;
    let w = check_derived(&ctx.smart_wallet, &smart_wallet_seeds(id), pid);
    let d = check_derived(&ctx.smart_wallet_data, &wallet_data_seed_list(&ctx.smart_wallet), pid);
    let a = check_derived(
        &ctx.smart_wallet_authority,
        &smart_wallet_authenticator_seeds(&pubkey.data, &ctx.smart_wallet),
        pid,
    );
    match (w, d, a) {
        (Ok(b), Ok(_), Ok(_)) => Ok(
            (
                SmartWalletAuthority { pubkey, smart_wallet_pubkey: ctx.smart_wallet, nonce: 0 },
                SmartWalletData { bump: b, id },
            ),
        ),
        _ => Err(LazorKitError::InvalidBump),
    }
}

/// The accounts of a signed request.
#[derive(Clone, Debug)]
pub struct Verify {
    pub program_id: Address,
    pub smart_wallet: Address,
    pub smart_wallet_data_key: Address,
    pub smart_wallet_data: SmartWalletData,
    pub smart_wallet_authority_key: Address,
    pub smart_wallet_authority: SmartWalletAuthority,
    pub cpi_program: Address,
    pub remaining_accounts: Vec<AccountMeta>,
}

/// The wallet, its data record and the signer's authority are the derived ones.
pub open spec fn verify_accounts_ok(ctx: Verify, signer: Seq<u8>) -> bool {
    let pid = ctx.program_id@;
    &&& derived_check(ctx.smart_wallet@, wallet_seeds(ctx.smart_wallet_data.id), pid) == Ok::<
        u8,
        LazorKitError,
    >(ctx.smart_wallet_data.bump)
    &&& derived_check(ctx.smart_wallet_data_key@, wallet_data_seeds(ctx.smart_wallet@), pid) is Ok
    &&& derived_check(
        ctx.smart_wallet_authority_key@,
        authenticator_seeds(signer, ctx.smart_wallet@),
        pid,
    ) is Ok
}

fn check_verify_accounts(ctx: &Verify, signer: &PasskeyPubkey) -> (r: Result<(), LazorKitError>)
    ensures
        r is Ok <==> verify_accounts_ok(*ctx, signer.data@),
        r is Err ==> r == Err::<(), LazorKitError>(LazorKitError::InvalidBump),
{
    let pid = &ctx.program_id;
    match check_derived(&ctx.smart_wallet, &smart_wallet_seeds(ctx.smart_wallet_data.id), pid) {
        Ok(b) => {
            if b != ctx.smart_wallet_data.bump {
                return Err(LazorKitError::InvalidBump);
            }
        },
        Err(_) => {
            return Err(LazorKitError::InvalidBump);
        },
    }
    if check_derived(
        &ctx.smart_wallet_data_key,
        &wallet_data_seed_list(&ctx.smart_wallet),
        pid,
    ).is_err() {
        return Err(LazorKitError::InvalidBump);
    }
    if check_derived(
        &ctx.smart_wallet_authority_key,
        &smart_wallet_authenticator_seeds(&signer.data, &ctx.smart_wallet),
        pid,
    ).is_err() {
        return Err(LazorKitError::InvalidBump);
    }
    Ok(())
}

/// The outcome of checking a signed request against record `ix` at `now`.
pub open spec fn request_check(ctx: Verify, ix: Instruction, now: i64, verify_param: VerifyParam) -> Result<
    (),
    LazorKitError,
> {
    if !verify_accounts_ok(ctx, verify_param.pubkey.data@) {
        Err(LazorKitError::InvalidBump)
    } else {
        authority_check(
            ix,
            now,
            verify_param.pubkey.data@,
            verify_param.msg,
            verify_param.sig@,
            ctx.smart_wallet_authority.nonce,
            ctx.smart_wallet_authority.pubkey.data@,
        )
    }
}

/// The accounts of the wallet's invocation: each keeps its key and
/// writability and signs exactly when it is the wallet.
pub open spec fn wallet_signed_accounts(accounts: Seq<AccountMeta>, wallet: Seq<u8>) -> Seq<AccountMeta> {
    Seq::new(
        accounts.len(),
        |i: int|
            AccountMeta {
                pubkey: accounts[i].pubkey,
                is_signer: accounts[i].pubkey@ == wallet,
                is_writable: accounts[i].is_writable,
            },
    )
}

/// An authorized request: the invocation, signed as the wallet, and the
/// authority's nonce once it has succeeded.
#[derive(Clone, Debug)]
pub struct LegacyPlan {
    pub instruction: Instruction,
    pub signer: PdaSigner,
    pub new_nonce: u64,
}

/// Validates a signed request and plans the invocation of `cpi_program` with
/// `instruction_data` on all remaining accounts, signed as the wallet.
pub fn execute_instruction(
    ctx: &Verify,
    ix: &Instruction,
    now: i64,
    verify_param: &VerifyParam,
    instruction_data: Vec<u8>,
) -> (r: Result<LegacyPlan, LazorKitError>)
    ensures
        match r {
            Ok(plan) => {
                &&& request_check(*ctx, *ix, now, *verify_param) is Ok
                &&& ctx.smart_wallet_authority.nonce < u64::MAX
                &&& plan.new_nonce == ctx.smart_wallet_authority.nonce + 1
                &&& plan.instruction.program_id == ctx.cpi_program
                &&& plan.instruction.data@ == instruction_data@
                &&& plan.instruction.accounts@ == wallet_signed_accounts(
                    ctx.remaining_accounts@,
                    ctx.smart_wallet@,
                )
                &&& plan.signer.seeds@ == wallet_signer_seed(ctx.smart_wallet_data.id)
                &&& plan.signer.bump == ctx.smart_wallet_data.bump
            },
            Err(e) => request_check(*ctx, *ix, now, *verify_param) == Err::<(), LazorKitError>(e)
                || (request_check(*ctx, *ix, now, *verify_param) is Ok && ctx.smart_wallet_authority.nonce
                == u64::MAX && e == LazorKitError::ArithmeticOverflow),
        },
{
    if let Err(e) = check_verify_accounts(ctx, &verify_param.pubkey) {
        return Err(e);
    }
    if let Err(e) = verify_authority(
        ix,
        now,
        verify_param,
        ctx.smart_wallet_authority.nonce,
        ctx.smart_wallet_authority.pubkey,
    ) {
        return Err(e);
    }
    if ctx.smart_wallet_authority.nonce == u64::MAX {
        return Err(LazorKitError::ArithmeticOverflow);
    }
    let mut metas: Vec<AccountMeta> = Vec::new();
    let mut i: usize = 0;
    while i < ctx.remaining_accounts.len()
        invariant
            i <= ctx.remaining_accounts@.len(),
            metas@ == wallet_signed_accounts(ctx.remaining_accounts@, ctx.smart_wallet@).subrange(
                0,
                i as int,
            ),
        decreases ctx.remaining_accounts@.len() - i,
    {
        let acc = ctx.remaining_accounts[i];
        metas.push(
            AccountMeta {
                pubkey: acc.pubkey,
                is_signer: crate::bytes::slice_eq(&acc.pubkey, &ctx.smart_wallet),
                is_writable: acc.is_writable,
            },
        );
        i = i + 1;
        assert(metas@ =~= wallet_signed_accounts(ctx.remaining_accounts@, ctx.smart_wallet@).subrange(
            0,
            i as int,
        ));
    }
    assert(metas@ =~= wallet_signed_accounts(ctx.remaining_accounts@, ctx.smart_wallet@));
    Ok(
        LegacyPlan {
            instruction: Instruction {
                program_id: ctx.cpi_program,
                accounts: metas,
                data: instruction_data,
            },
            signer: PdaSigner {
                seeds: smart_wallet_signer_seed(ctx.smart_wallet_data.id),
                bump: ctx.smart_wallet_data.bump,
            },
            new_nonce: ctx.smart_wallet_authority.nonce + 1,
        },
    )
}

/// Commits a request whose invocation succeeded: the nonce advances.
pub fn complete_request(authority: &mut SmartWalletAuthority, plan: &LegacyPlan)
    ensures
        *final(authority) == (SmartWalletAuthority { nonce: plan.new_nonce, ..*old(authority) }),
{
    authority.nonce = plan.new_nonce;
}

/// Validates a signed request and creates the authority of `new_passkey`
/// for the same wallet, at nonce zero.
pub fn add_authenticator(
    ctx: &Verify,
    new_wallet_authority: &Address,
    ix: &Instruction,
    now: i64,
    verify_param: &VerifyParam,
    new_passkey: PasskeyPubkey,
) -> (r: Result<SmartWalletAuthority, LazorKitError>)
    ensures
        match r {
            Ok(a) => request_check(*ctx, *ix, now, *verify_param) is Ok && derived_check(
                new_wallet_authority@,
                authenticator_seeds(new_passkey.data@, ctx.smart_wallet@),
                ctx.program_id@,
            ) is Ok && a == (SmartWalletAuthority {
                pubkey: new_passkey,
                smart_wallet_pubkey: ctx.smart_wallet,
                nonce: 0,
            }),
            Err(e) => request_check(*ctx, *ix, now, *verify_param) == Err::<(), LazorKitError>(e)
                || (request_check(*ctx, *ix, now, *verify_param) is Ok && e
                == LazorKitError::InvalidBump && derived_check(
                new_wallet_authority@,
                authenticator_seeds(new_passkey.data@, ctx.smart_wallet@),
                ctx.program_id@,
            ) is Err),
        },
{
    if let Err(e) = check_verify_accounts(ctx, &verify_param.pubkey) {
        return Err(e);
    }
    if let Err(e) = verify_authority(
        ix,
        now,
        verify_param,
        ctx.smart_wallet_authority.nonce,
        ctx.smart_wallet_authority.pubkey,
    ) {
        return Err(e);
    }
    if check_derived(
        new_wallet_authority,
        &smart_wallet_authenticator_seeds(&new_passkey.data, &ctx.smart_wallet),
        &ctx.program_id,
    ).is_err() {
        return Err(LazorKitError::InvalidBump);
    }
    Ok(SmartWalletAuthority { pubkey: new_passkey, smart_wallet_pubkey: ctx.smart_wallet, nonce: 0 })
}

} // verus!
