//! The secp256r1 verification record: the instruction that the platform's
//! signature-verification program checked, read back and compared byte for byte.
use vstd::prelude::*;

use crate::address::{Address, Passkey};
use crate::bytes::{le_bytes, lemma_le_bytes_2, slice_eq};
use crate::error::LazorKitError;

verus! {

/// Size of the offsets block that follows the count and padding bytes.
pub const SECP_HEADER_SIZE: u16 = 14;

/// Where the embedded public key starts.
pub const SECP_DATA_START: u16 = 16;

/// Length of a compressed secp256r1 public key.
pub const SECP_PUBKEY_SIZE: u16 = 33;

/// Length of a secp256r1 signature.
pub const SECP_SIGNATURE_SIZE: u16 = 64;

/// Where the embedded signature starts.
pub const SECP_SIG_START: u16 = 49;

/// Where the embedded message starts.
pub const SECP_MSG_START: u16 = 113;

/// The instruction index meaning "this instruction".
pub const SECP_THIS_INSTRUCTION: u16 = 0xFFFF;

/// An account named by an instruction.
#[derive(Clone, Copy, Debug)]
pub struct AccountMeta {
    pub pubkey: Address,
    pub is_signer: bool,
    pub is_writable: bool,
}

/// An instruction: the program it addresses, its accounts and its data.
#[derive(Clone, Debug)]
pub struct Instruction {
    pub program_id: Address,
    pub accounts: Vec<AccountMeta>,
    pub data: Vec<u8>,
}

/// The address of the secp256r1 signature-verification program.
pub open spec fn secp256r1_program() -> Seq<u8> {
    seq![6u8, 146, 13, 236, 47, 234, 113, 181, 183, 35, 129, 77, 116, 45, 169, 3, 28, 131, 231, 95,
        219, 121, 93, 86, 142, 117, 71, 128, 32, 0, 0, 0]
}

/// The address of the secp256r1 signature-verification program.
pub fn secp256r1_program_id() -> (r: Address)
    ensures
        r@ == secp256r1_program(),
{
    let r: Address = [6u8, 146, 13, 236, 47, 234, 113, 181, 183, 35, 129, 77, 116, 45, 169, 3, 28,
        131, 231, 95, 219, 121, 93, 86, 142, 117, 71, 128, 32, 0, 0, 0];
    assert(r@ =~= secp256r1_program());
    r
}

/// The record length for a message of `msg_len` bytes.
pub open spec fn record_len(msg_len: nat) -> nat {
    (SECP_MSG_START + msg_len) as nat
}

/// Bytes `at` and `at + 1` hold the 16-bit value `v`, least significant first.
pub open spec fn u16_field(data: Seq<u8>, at: int, v: nat) -> bool {
    data.subrange(at, at + 2) == le_bytes(v, 2)
}

/// The sixteen header bytes describe one signature over a message of
/// `msg_len` bytes, all held in this instruction. Byte 1 is padding.
pub open spec fn header_matches(data: Seq<u8>, msg_len: nat) -> bool {
    &&& data.len() >= SECP_DATA_START
    &&& msg_len <= 0xFFFF
    &&& data[0] == 1
    &&& u16_field(data, 2, SECP_SIG_START as nat)
    &&& u16_field(data, 4, SECP_THIS_INSTRUCTION as nat)
    &&& u16_field(data, 6, SECP_DATA_START as nat)
    &&& u16_field(data, 8, SECP_THIS_INSTRUCTION as nat)
    &&& u16_field(data, 10, SECP_MSG_START as nat)
    &&& u16_field(data, 12, msg_len)
    &&& u16_field(data, 14, SECP_THIS_INSTRUCTION as nat)
}

/// The record embeds exactly this public key, signature and message.
pub open spec fn content_matches(data: Seq<u8>, pubkey: Seq<u8>, sig: Seq<u8>, msg: Seq<u8>) -> bool {
    &&& data.len() >= SECP_MSG_START
    &&& data.subrange(SECP_DATA_START as int, SECP_SIG_START as int) == pubkey
    &&& data.subrange(SECP_SIG_START as int, SECP_MSG_START as int) == sig
    &&& data.subrange(SECP_MSG_START as int, data.len() as int) == msg
}

/// The outcome of checking an instruction as the verification record of
/// `sig` by `pubkey` over `msg`.
pub open spec fn secp_check(
    program_id: Seq<u8>,
    n_accounts: nat,
    data: Seq<u8>,
    pubkey: Seq<u8>,
    msg: Seq<u8>,
    sig: Seq<u8>,
) -> Result<(), LazorKitError> {
    if program_id != secp256r1_program() {
        Err(LazorKitError::InvalidSecp256r1Program)
    } else if n_accounts != 0 {
        Err(LazorKitError::InvalidSecp256r1VerifyAccounts)
    } else if data.len() != record_len(msg.len()) {
        Err(LazorKitError::InvalidSecp256r1VerifyData)
    } else if !header_matches(data, msg.len()) {
        Err(LazorKitError::VerifyHeaderMismatchError)
    } else if !content_matches(data, pubkey, sig, msg) {
        Err(LazorKitError::VerifyDataMismatchError)
    } else {
        Ok(())
    }
}

/// The instruction is a valid verification record of `sig` by `pubkey` over `msg`.
pub open spec fn record_valid(ix: Instruction, pubkey: Seq<u8>, msg: Seq<u8>, sig: Seq<u8>) -> bool {
    secp_check(ix.program_id@, ix.accounts@.len(), ix.data@, pubkey, msg, sig) is Ok
}

/// The offsets a record must carry for a message of `msg_len` bytes.
#[derive(Debug)]
struct SecpOffsets {
    pubkey_offset: u16,
    sig_offset: u16,
    msg_offset: u16,
    msg_len: u16,
}

fn calculate_secp_offsets(msg_len: u16) -> (r: SecpOffsets)
    ensures
        r.pubkey_offset == SECP_DATA_START,
        r.sig_offset == SECP_SIG_START,
        r.msg_offset == SECP_MSG_START,
        r.msg_len == msg_len,
{
    SecpOffsets {
        pubkey_offset: SECP_DATA_START,
        sig_offset: SECP_DATA_START + SECP_PUBKEY_SIZE,
        msg_offset: SECP_DATA_START + SECP_PUBKEY_SIZE + SECP_SIGNATURE_SIZE,
        msg_len,
    }
}

/// Whether bytes `at` and `at + 1` hold `v` little-endian.
fn u16_at(data: &[u8], at: usize, v: u16) -> (r: bool)
    requires
        at + 2 <= data@.len(),
    ensures
        r == u16_field(data@, at as int, v as nat),
{
    let lo: u8 = (v % 256) as u8;
    let hi: u8 = (v / 256) as u8;
    proof {
        lemma_le_bytes_2(v as nat);
    }
    let r = data[at] == lo && data[at + 1] == hi;
    assert(r == (data@.subrange(at as int, at + 2) =~= seq![lo, hi]));
    r
}

fn verify_secp_header(data: &[u8], offsets: &SecpOffsets) -> (r: bool)
    requires
        data@.len() >= SECP_DATA_START,
        offsets.pubkey_offset == SECP_DATA_START,
        offsets.sig_offset == SECP_SIG_START,
        offsets.msg_offset == SECP_MSG_START,
    ensures
        r == header_matches(data@, offsets.msg_len as nat),
{
    data[0] == 1 && u16_at(data, 2, offsets.sig_offset) && u16_at(data, 4, SECP_THIS_INSTRUCTION)
        && u16_at(data, 6, offsets.pubkey_offset) && u16_at(data, 8, SECP_THIS_INSTRUCTION)
        && u16_at(data, 10, offsets.msg_offset) && u16_at(data, 12, offsets.msg_len) && u16_at(
        data,
        14,
        SECP_THIS_INSTRUCTION,
    )
}

/// The bytes of `data` from `start` to `end`.
fn sub_bytes(data: &[u8], start: usize, end: usize) -> (r: Vec<u8>)
    requires
        start <= end <= data@.len(),
    ensures
        r@ == data@.subrange(start as int, end as int),
{
    let mut r: Vec<u8> = Vec::new();
    let mut i: usize = start;
    while i < end
        invariant
            start <= i <= end <= data@.len(),
            r@ == data@.subrange(start as int, i as int),
        decreases end - i,
    {
        r.push(data[i]);
        i = i + 1;
        assert(r@ =~= data@.subrange(start as int, i as int));
    }
    r
}

fn verify_secp_data(data: &[u8], public_key: &[u8], signature: &[u8], message: &[u8]) -> (r: bool)
    requires
        data@.len() >= SECP_MSG_START,
    ensures
        r == content_matches(data@, public_key@, signature@, message@),
{
    let pubkey_end: usize = SECP_SIG_START as usize;
    let sig_end: usize = SECP_MSG_START as usize;
    let embedded_pubkey = sub_bytes(data, SECP_DATA_START as usize, pubkey_end);
    let embedded_sig = sub_bytes(data, pubkey_end, sig_end);
    let embedded_msg = sub_bytes(data, sig_end, data.len());
    slice_eq(embedded_pubkey.as_slice(), public_key) && slice_eq(embedded_sig.as_slice(), signature)
        && slice_eq(embedded_msg.as_slice(), message)
}

/// Checks the header and the embedded bytes of a record whose length is right.
pub(crate) fn verify_secp256r1_data(
    data: &[u8],
    public_key: &Passkey,
    message: &[u8],
    signature: &[u8],
) -> (r: Result<(), LazorKitError>)
    requires
        data@.len() == record_len(message@.len()),
    ensures
        r == (if !header_matches(data@, message@.len()) {
            Err(LazorKitError::VerifyHeaderMismatchError)
        } else if !content_matches(data@, public_key@, signature@, message@) {
            Err(LazorKitError::VerifyDataMismatchError)
        } else {
            Ok(())
        }),
{
    if message.len() > 0xFFFF {
        return Err(LazorKitError::VerifyHeaderMismatchError);
    }
    let offsets = calculate_secp_offsets(message.len() as u16);
    if !verify_secp_header(data, &offsets) {
        return Err(LazorKitError::VerifyHeaderMismatchError);
    }
    if !verify_secp_data(data, public_key, signature, message) {
        return Err(LazorKitError::VerifyDataMismatchError);
    }
    Ok(())
}

/// Checks that `ix` is the secp256r1 program's record of `sig` by `pubkey`
/// over exactly `msg`: addressed to no accounts, of length
/// `16 + 33 + 64 + msg.len()`, with the fixed header and the same bytes.
pub fn verify_secp256r1_instruction(
    ix: &Instruction,
    pubkey: &Passkey,
    msg: &[u8],
    sig: &[u8],
) -> (r: Result<(), LazorKitError>)
    ensures
        r == secp_check(ix.program_id@, ix.accounts@.len(), ix.data@, pubkey@, msg@, sig@),
{
    let secp_id = secp256r1_program_id();
    if !slice_eq(&ix.program_id, &secp_id) {
        return Err(LazorKitError::InvalidSecp256r1Program);
    }
    if ix.accounts.len() != 0 {
        return Err(LazorKitError::InvalidSecp256r1VerifyAccounts);
    }
    if ix.data.len() < SECP_MSG_START as usize || ix.data.len() - (SECP_MSG_START as usize)
        != msg.len() {
        return Err(LazorKitError::InvalidSecp256r1VerifyData);
    }
    verify_secp256r1_data(ix.data.as_slice(), pubkey, msg, sig)
}

/// A valid record is rejected once any one of its bytes is changed, but for
/// the padding byte at index 1, which the layout leaves free.
pub proof fn lemma_record_byte_mutation_rejected(
    program_id: Seq<u8>,
    data: Seq<u8>,
    pubkey: Seq<u8>,
    msg: Seq<u8>,
    sig: Seq<u8>,
    i: int,
    b: u8,
)
    requires
        secp_check(program_id, 0, data, pubkey, msg, sig) is Ok,
        0 <= i < data.len(),
        i != 1,
        data[i] != b,
    ensures
        secp_check(program_id, 0, data.update(i, b), pubkey, msg, sig) is Err,
{
    let d = data.update(i, b);
    if i == 0 {
        assert(d[0] != 1);
    } else if i < SECP_DATA_START {
        let at = if i % 2 == 0 { i } else { i - 1 };
        assert(d.subrange(at, at + 2)[i - at] != data.subrange(at, at + 2)[i - at]);
    } else if i < SECP_SIG_START {
        assert(d.subrange(16, 49)[i - 16] != pubkey[i - 16]);
    } else if i < SECP_MSG_START {
        assert(d.subrange(49, 113)[i - 49] != sig[i - 49]);
    } else {
        assert(d.subrange(113, d.len() as int)[i - 113] != msg[i - 113]);
    }
}

/// A record is accepted exactly when every field of the layout holds: the
/// program, no accounts, the length, the header and the embedded bytes.
pub proof fn lemma_record_accepted_iff_layout(
    ix: Instruction,
    pubkey: Seq<u8>,
    msg: Seq<u8>,
    sig: Seq<u8>,
)
    ensures
        record_valid(ix, pubkey, msg, sig) <==> {
            &&& ix.program_id@ == secp256r1_program()
            &&& ix.accounts@.len() == 0
            &&& ix.data@.len() == record_len(msg.len())
            &&& header_matches(ix.data@, msg.len())
            &&& content_matches(ix.data@, pubkey, sig, msg)
        },
{
}

} // verus!
