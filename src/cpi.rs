//! Delegated invocations: account ranges, signer flags, selectors, native
//! value transfer and the whitelist.
use vstd::prelude::*;
use vstd::string::StringSliceAdditionalSpecFns;

use crate::address::{
    passkey_binding, program_address_of, sha256, sha256_digest, to_hashed_bytes,
    try_find_program_address, Address, Passkey,
};
use crate::bytes::slice_eq;
use crate::error::LazorKitError;
use crate::secp::{AccountMeta, Instruction};
use crate::state::WhitelistRulePrograms;

verus! {

/// Seeds and bump with which the engine signs as a derived address.
#[derive(Clone, Debug)]
pub struct PdaSigner {
    pub seeds: Vec<u8>,
    pub bump: u8,
}

/// The eight-byte selector of entry point `name` in `namespace`: the first
/// eight bytes of SHA-256 of `namespace:name`.
pub open spec fn selector(namespace: Seq<u8>, name: Seq<u8>) -> Seq<u8> {
    sha256_digest(namespace + seq![58u8] + name).subrange(0, 8)
}

/// The selector of a global entry point.
pub open spec fn global_selector(name: &str) -> Seq<u8> {
    selector("global".spec_bytes(), name.spec_bytes())
}

/// Whether `data` starts with the eight bytes `sel`.
pub open spec fn starts_with(data: Seq<u8>, sel: Seq<u8>) -> bool {
    data.len() >= 8 && data.subrange(0, 8) == sel
}

/// The selector of entry point `name` in `namespace`.
pub fn sighash(namespace: &str, name: &str) -> (r: [u8; 8])
    ensures
        r@ == selector(namespace.spec_bytes(), name.spec_bytes()),
{
    let mut pre = vstd::slice::slice_to_vec(namespace.as_bytes());
    pre.push(58u8);
    let mut tail = vstd::slice::slice_to_vec(name.as_bytes());
    pre.append(&mut tail);
    assert(pre@ =~= namespace.spec_bytes() + seq![58u8] + name.spec_bytes());
    let h = sha256(pre.as_slice());
    let r: [u8; 8] = [h[0], h[1], h[2], h[3], h[4], h[5], h[6], h[7]];
    assert(r@ =~= h@.subrange(0, 8));
    r
}

/// Whether `data` starts with the selector `sel`.
pub fn has_selector(data: &[u8], sel: &[u8; 8]) -> (r: bool)
    ensures
        r == starts_with(data@, sel@),
{
    if data.len() < 8 {
        return false;
    }
    let mut i: usize = 0;
    while i < 8
        invariant
            i <= 8 <= data@.len(),
            forall|j: int| 0 <= j < i ==> data@[j] == sel@[j],
        decreases 8 - i,
    {
        if data[i] != sel[i] {
            assert(data@.subrange(0, 8)[i as int] != sel@[i as int]);
            return false;
        }
        i = i + 1;
    }
    assert(data@.subrange(0, 8) =~= sel@);
    true
}

/// The accounts from `start` on, `len` of them, if they exist.
pub open spec fn account_range(accounts: Seq<AccountMeta>, start: u8, len: u8) -> Option<
    Seq<AccountMeta>,
> {
    if start + len <= accounts.len() {
        Some(accounts.subrange(start as int, start + len))
    } else {
        None
    }
}

/// The accounts from `start` on, `len` of them.
pub fn get_account_slice(accounts: &[AccountMeta], start: u8, len: u8) -> (r: Result<
    Vec<AccountMeta>,
    LazorKitError,
>)
    ensures
        match r {
            Ok(v) => account_range(accounts@, start, len) == Some(v@),
            Err(e) => e == LazorKitError::InvalidAccountInput && account_range(
                accounts@,
                start,
                len,
            ) is None,
        },
{
    let end: usize = start as usize + len as usize;
    if end > accounts.len() {
        return Err(LazorKitError::InvalidAccountInput);
    }
    let mut v: Vec<AccountMeta> = Vec::new();
    let mut i: usize = start as usize;
    while i < end
        invariant
            start <= i <= end <= accounts@.len(),
            end == start + len,
            v@ == accounts@.subrange(start as int, i as int),
        decreases end - i,
    {
        v.push(accounts[i]);
        i = i + 1;
        assert(v@ =~= accounts@.subrange(start as int, i as int));
    }
    Ok(v)
}

/// The signer that acts as the authenticator binding `passkey` to `wallet`.
pub fn get_pda_signer(passkey: &Passkey, wallet: &Address, bump: u8) -> (r: PdaSigner)
    ensures
        r.seeds@ == passkey_binding(passkey@, wallet@),
        r.bump == bump,
{
    let h = to_hashed_bytes(passkey, wallet);
    PdaSigner { seeds: vstd::slice::slice_to_vec(h.as_slice()), bump }
}

/// The outgoing account list: each account keeps its key and writability,
/// and signs if it already signed or is the signer's derived address.
pub open spec fn outgoing_accounts(accounts: Seq<AccountMeta>, pda: Option<Seq<u8>>) -> Seq<
    AccountMeta,
> {
    Seq::new(
        accounts.len(),
        |i: int|
            AccountMeta {
                pubkey: accounts[i].pubkey,
                is_signer: accounts[i].is_signer || (pda matches Some(p) && accounts[i].pubkey@
                    == p),
                is_writable: accounts[i].is_writable,
            },
    )
}

/// The derived address of a signer's seeds under `program_id`.
pub open spec fn signer_address(signer: Option<PdaSigner>, program_id: Seq<u8>) -> Option<
    Option<Seq<u8>>,
> {
    match signer {
        None => Some(None),
        Some(s) => match program_address_of(seq![s.seeds@], program_id) {
            Some((a, _)) => Some(Some(a)),
            None => None,
        },
    }
}

/// Builds the invocation of `program` with `accounts` and `data`, marking as
/// signer the account that the signer's seeds derive under `program_id`
/// (this program).
pub fn create_cpi_instruction(
    accounts: &[AccountMeta],
    data: Vec<u8>,
    program: &Address,
    pda_signer: &Option<PdaSigner>,
    program_id: &Address,
) -> (r: Result<Instruction, LazorKitError>)
    ensures
        match signer_address(*pda_signer, program_id@) {
            Some(pda) => r matches Ok(ix) && ix.program_id == *program && ix.data@ == data@
                && ix.accounts@ == outgoing_accounts(accounts@, pda),
            None => r == Err::<Instruction, LazorKitError>(LazorKitError::InvalidBump),
        },
{
    let mut pda: Option<Address> = None;
    match pda_signer {
        Some(s) => {
            let seeds: Vec<Vec<u8>> = vec![s.seeds.clone()];
            assert(seeds@[0].deep_view() =~= s.seeds@);
            assert(seeds.deep_view() =~= seq![s.seeds@]);
            match try_find_program_address(&seeds, program_id) {
                Some((a, _)) => {
                    pda = Some(a);
                },
                None => {
                    return Err(LazorKitError::InvalidBump);
                },
            }
        },
        None => {},
    }
    let ghost pda_view: Option<Seq<u8>> = match pda {
        Some(a) => Some(a@),
        None => None,
    };
    assert(signer_address(*pda_signer, program_id@) == Some(pda_view));
    let mut metas: Vec<AccountMeta> = Vec::new();
    let mut i: usize = 0;
    while i < accounts.len()
        invariant
            i <= accounts@.len(),
            pda_view == match pda {
                Some(a) => Some(a@),
                None => None::<Seq<u8>>,
            },
            metas@ == outgoing_accounts(accounts@, pda_view).subrange(0, i as int),
        decreases accounts@.len() - i,
    {
        let acc = accounts[i];
        let is_signer = match pda {
            Some(a) => acc.is_signer || slice_eq(&acc.pubkey, &a),
            None => acc.is_signer,
        };
        metas.push(AccountMeta { pubkey: acc.pubkey, is_signer, is_writable: acc.is_writable });
        i = i + 1;
        assert(metas@ =~= outgoing_accounts(accounts@, pda_view).subrange(0, i as int));
    }
    assert(metas@ =~= outgoing_accounts(accounts@, pda_view));
    Ok(Instruction { program_id: *program, accounts: metas, data })
}

/// Checks that the whitelist holds `program`.
pub fn check_whitelist(whitelist: &WhitelistRulePrograms, program: &Address) -> (r: Result<
    (),
    LazorKitError,
>)
    ensures
        r is Ok <==> whitelist.holds(program@),
        r is Err ==> r == Err::<(), LazorKitError>(LazorKitError::ProgramNotInWhitelist),
{
    let mut i: usize = 0;
    while i < whitelist.list.len()
        invariant
            i <= whitelist.list@.len(),
            forall|j: int| 0 <= j < i ==> whitelist.list@[j]@ != program@,
        decreases whitelist.list@.len() - i,
    {
        if slice_eq(&whitelist.list[i], program) {
            return Ok(());
        }
        i = i + 1;
    }
    Err(LazorKitError::ProgramNotInWhitelist)
}

/// Moves `amount` from one balance to another; fails, changing neither,
/// when the source holds less or the destination would overflow.
pub fn transfer_sol_from_pda(from: &mut u64, to: &mut u64, amount: u64) -> (r: Result<
    (),
    LazorKitError,
>)
    ensures
        *old(from) < amount ==> r == Err::<(), LazorKitError>(LazorKitError::InsufficientFunds),
        *old(from) >= amount && *old(to) + amount > u64::MAX ==> r == Err::<(), LazorKitError>(
            LazorKitError::ArithmeticOverflow,
        ),
        r is Ok <==> (*old(from) >= amount && *old(to) + amount <= u64::MAX),
        r is Ok ==> *final(from) == *old(from) - amount && *final(to) == *old(to) + amount,
        r is Err ==> *final(from) == *old(from) && *final(to) == *old(to),
{
    if *from < amount {
        return Err(LazorKitError::InsufficientFunds);
    }
    if *to > u64::MAX - amount {
        return Err(LazorKitError::ArithmeticOverflow);
    }
    *from = *from - amount;
    *to = *to + amount;
    Ok(())
}

} // verus!
