//! Deterministic addresses: the hash that binds a passkey to a wallet, and
//! the program-derived addresses of the wallet's records.
use vstd::prelude::*;
use vstd::string::StringSliceAdditionalSpecFns;

use crate::bytes::{le_bytes, u64_to_le_bytes};
use crate::error::LazorKitError;

verus! {

/// A 32-byte account address.
pub type Address = [u8; 32];

/// A 33-byte compressed secp256r1 public key.
pub type Passkey = [u8; 33];

/// What SHA-256 yields on the given bytes.
pub uninterp spec fn sha256_digest(bytes: Seq<u8>) -> Seq<u8>;

/// The program-derived address and bump that the platform finds for the
/// seeds under the program, if it finds one.
pub uninterp spec fn program_address_of(seeds: Seq<Seq<u8>>, program_id: Seq<u8>) -> Option<
    (Seq<u8>, u8),
>;

/// Relies on `solana_program::hash::hash`: the SHA-256 digest of `data`,
/// a function of the bytes alone.
#[verifier::external_body]
pub(crate) fn sha256(data: &[u8]) -> (r: [u8; 32])
    ensures
        r@ == sha256_digest(data@),
{
    anchor_lang::solana_program::hash::hash(data).to_bytes()
}

/// The view of a found address and bump.
pub open spec fn found_view(r: Option<(Address, u8)>) -> Option<(Seq<u8>, u8)> {
    match r {
        Some((a, b)) => Some((a@, b)),
        None => None,
    }
}

/// Relies on `Pubkey::try_find_program_address`: the first bump, counting
/// down from 255, whose address off the curve exists, with that address; a
/// function of the seeds and the program id alone (`None` when none exists or
/// the seeds are too many or too long).
#[verifier::external_body]
pub(crate) fn try_find_program_address(seeds: &Vec<Vec<u8>>, program_id: &Address) -> (r: Option<
    (Address, u8),
>)
    ensures
        found_view(r) == program_address_of(seeds.deep_view(), program_id@),
{
    let refs: Vec<&[u8]> = seeds.iter().map(|s| s.as_slice()).collect();
    let program = anchor_lang::prelude::Pubkey::new_from_array(*program_id);
    match anchor_lang::prelude::Pubkey::try_find_program_address(&refs, &program) {
        Some((k, b)) => Some((k.to_bytes(), b)),
        None => None,
    }
}

/// The seed literal of wallet addresses.
pub open spec fn smart_wallet_seed() -> Seq<u8> {
    "smart_wallet".spec_bytes()
}

/// The seed literal of wallet configuration records.
pub open spec fn smart_wallet_config_seed() -> Seq<u8> {
    "smart_wallet_config".spec_bytes()
}

/// Seeds of the wallet with sequence id `id`.
pub open spec fn wallet_seeds(id: u64) -> Seq<Seq<u8>> {
    seq![smart_wallet_seed(), le_bytes(id as nat, 8)]
}

/// Seeds of a wallet's configuration record.
pub open spec fn wallet_config_seeds(wallet: Seq<u8>) -> Seq<Seq<u8>> {
    seq![smart_wallet_config_seed(), wallet]
}

/// The 32 bytes binding a passkey to a wallet.
pub open spec fn passkey_binding(passkey: Seq<u8>, wallet: Seq<u8>) -> Seq<u8> {
    sha256_digest(passkey + wallet)
}

/// Seeds of the authenticator binding `passkey` to `wallet`.
pub open spec fn authenticator_seeds(passkey: Seq<u8>, wallet: Seq<u8>) -> Seq<Seq<u8>> {
    seq![passkey_binding(passkey, wallet)]
}

/// Seeds of a program-wide singleton record named `name`.
pub open spec fn singleton_seeds(name: Seq<u8>) -> Seq<Seq<u8>> {
    seq![name]
}

/// The outcome of checking that `supplied` is the address derived from the seeds.
pub open spec fn derived_check(supplied: Seq<u8>, seeds: Seq<Seq<u8>>, program_id: Seq<u8>) -> Result<
    u8,
    LazorKitError,
> {
    match program_address_of(seeds, program_id) {
        Some((a, b)) => if a == supplied {
            Ok(b)
        } else {
            Err(LazorKitError::InvalidBump)
        },
        None => Err(LazorKitError::InvalidBump),
    }
}

/// SHA-256 of the passkey followed by the wallet address.
pub fn to_hashed_bytes(passkey: &Passkey, wallet: &Address) -> (r: Address)
    ensures
        r@ == passkey_binding(passkey@, wallet@),
{
    let mut buf: Vec<u8> = Vec::new();
    let mut i: usize = 0;
    while i < 33
        invariant
            i <= 33,
            buf@ == passkey@.subrange(0, i as int),
        decreases 33 - i,
    {
        buf.push(passkey[i]);
        i = i + 1;
        assert(buf@ =~= passkey@.subrange(0, i as int));
    }
    let mut j: usize = 0;
    while j < 32
        invariant
            j <= 32,
            buf@ == passkey@ + wallet@.subrange(0, j as int),
        decreases 32 - j,
    {
        buf.push(wallet[j]);
        j = j + 1;
        assert(buf@ =~= passkey@ + wallet@.subrange(0, j as int));
    }
    assert(passkey@.subrange(0, 33) =~= passkey@);
    assert(wallet@.subrange(0, 32) =~= wallet@);
    sha256(buf.as_slice())
}

/// The bytes of a string.
fn str_bytes(s: &str) -> (r: Vec<u8>)
    ensures
        r@ == s.spec_bytes(),
{
    vstd::slice::slice_to_vec(s.as_bytes())
}

/// A copy of an address as a seed.
fn address_seed(a: &Address) -> (r: Vec<u8>)
    ensures
        r@ == a@,
{
    vstd::slice::slice_to_vec(a.as_slice())
}

/// A list of one seed.
fn seed_list1(a: Vec<u8>) -> (r: Vec<Vec<u8>>)
    ensures
        r.deep_view() == seq![a@],
{
    let ghost av = a@;
    let r: Vec<Vec<u8>> = vec![a];
    assert(r@[0].deep_view() =~= av);
    assert(r.deep_view() =~= seq![av]);
    r
}

/// A list of two seeds.
fn seed_list2(a: Vec<u8>, b: Vec<u8>) -> (r: Vec<Vec<u8>>)
    ensures
        r.deep_view() == seq![a@, b@],
{
    let ghost av = a@;
    let ghost bv = b@;
    let r: Vec<Vec<u8>> = vec![a, b];
    assert(r@[0].deep_view() =~= av);
    assert(r@[1].deep_view() =~= bv);
    assert(r.deep_view() =~= seq![av, bv]);
    r
}

/// Seeds of the wallet with sequence id `id`.
pub fn smart_wallet_seeds(id: u64) -> (r: Vec<Vec<u8>>)
    ensures
        r.deep_view() == wallet_seeds(id),
{
    seed_list2(str_bytes("smart_wallet"), u64_to_le_bytes(id))
}

/// The wallet's signer seed: the wallet seed literal and the id's bytes, joined.
pub fn smart_wallet_signer_seed(id: u64) -> (r: Vec<u8>)
    ensures
        r@ == smart_wallet_seed() + le_bytes(id as nat, 8),
{
    let mut r = str_bytes("smart_wallet");
    let mut tail = u64_to_le_bytes(id);
    r.append(&mut tail);
    r
}

/// Seeds of a wallet's configuration record.
pub fn smart_wallet_config_seeds(wallet: &Address) -> (r: Vec<Vec<u8>>)
    ensures
        r.deep_view() == wallet_config_seeds(wallet@),
{
    seed_list2(str_bytes("smart_wallet_config"), address_seed(wallet))
}

/// Seeds of the authenticator binding `passkey` to `wallet`.
pub fn smart_wallet_authenticator_seeds(passkey: &Passkey, wallet: &Address) -> (r: Vec<Vec<u8>>)
    ensures
        r.deep_view() == authenticator_seeds(passkey@, wallet@),
{
    let h = to_hashed_bytes(passkey, wallet);
    seed_list1(address_seed(&h))
}

/// Seeds of a program-wide singleton record.
pub fn singleton_seed(name: &str) -> (r: Vec<Vec<u8>>)
    ensures
        r.deep_view() == singleton_seeds(name.spec_bytes()),
{
    seed_list1(str_bytes(name))
}

/// The address and bump derived from the seeds under `program_id`.
pub fn derive_address(seeds: &Vec<Vec<u8>>, program_id: &Address) -> (r: Result<
    (Address, u8),
    LazorKitError,
>)
    ensures
        match r {
            Ok((a, b)) => program_address_of(seeds.deep_view(), program_id@) == Some((a@, b)),
            Err(e) => e == LazorKitError::InvalidBump && program_address_of(
                seeds.deep_view(),
                program_id@,
            ) is None,
        },
{
    match try_find_program_address(seeds, program_id) {
        Some((a, b)) => Ok((a, b)),
        None => Err(LazorKitError::InvalidBump),
    }
}

/// Checks that `supplied` is the address derived from the seeds under
/// `program_id`, and returns its bump.
pub fn check_derived(supplied: &Address, seeds: &Vec<Vec<u8>>, program_id: &Address) -> (r: Result<
    u8,
    LazorKitError,
>)
    ensures
        r == derived_check(supplied@, seeds.deep_view(), program_id@),
{
    match try_find_program_address(seeds, program_id) {
        Some((a, b)) => {
            if crate::bytes::slice_eq(&a, supplied) {
                Ok(b)
            } else {
                Err(LazorKitError::InvalidBump)
            }
        },
        None => Err(LazorKitError::InvalidBump),
    }
}

/// Derivation is a function of its seeds: equal seeds under equal programs
/// give the same outcome, and an account is accepted only when it is the
/// derived address; a wrongly derived account is rejected, never replaced.
pub proof fn lemma_derivation_pure(
    supplied: Seq<u8>,
    seeds: Seq<Seq<u8>>,
    other_seeds: Seq<Seq<u8>>,
    program_id: Seq<u8>,
)
    requires
        seeds == other_seeds,
    ensures
        program_address_of(seeds, program_id) == program_address_of(other_seeds, program_id),
        derived_check(supplied, seeds, program_id) == derived_check(
            supplied,
            other_seeds,
            program_id,
        ),
        derived_check(supplied, seeds, program_id) is Ok <==> (program_address_of(
            seeds,
            program_id,
        ) matches Some((a, _)) && a == supplied),
        derived_check(supplied, seeds, program_id) is Err ==> derived_check(
            supplied,
            seeds,
            program_id,
        ) == Err::<u8, LazorKitError>(LazorKitError::InvalidBump),
{
}

} // verus!
