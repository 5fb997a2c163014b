//! Replay and expiry protection layered on a verified signature.
use vstd::prelude::*;

use crate::address::{passkey_binding, to_hashed_bytes, Address, Passkey};
use crate::bytes::{i64_bits, i64_to_bits, le_bytes, push_le_bytes, slice_eq};
use crate::error::LazorKitError;
use crate::secp::{
    content_matches, header_matches, record_len, secp_check, verify_secp256r1_data,
    verify_secp256r1_instruction, Instruction,
};

verus! {

/// How far, in time units, a message timestamp may lie from the current time.
pub const TIMESTAMP_WINDOW: i64 = 30;

/// A compressed secp256r1 public key.
#[derive(Clone, Copy, Debug)]
pub struct PasskeyPubkey {
    pub data: Passkey,
}

/// The envelope a passkey signs: a nonce, a timestamp and an opaque payload.
#[derive(Clone, Debug)]
pub struct Message {
    pub nonce: u64,
    pub timestamp: i64,
    pub payload: Vec<u8>,
}

/// A signed message with the key that signed it.
#[derive(Clone, Debug)]
pub struct VerifyParam {
    pub pubkey: PasskeyPubkey,
    pub msg: Message,
    pub sig: [u8; 64],
}

/// Whether the message's payload length fits the four-byte length prefix.
pub open spec fn message_encodable(m: Message) -> bool {
    m.payload@.len() <= u32::MAX
}

/// The signed bytes of a message: nonce, timestamp (two's complement) and
/// payload length, each little-endian, then the payload.
pub open spec fn message_bytes(m: Message) -> Seq<u8> {
    le_bytes(m.nonce as nat, 8) + le_bytes(i64_bits(m.timestamp), 8) + le_bytes(
        m.payload@.len(),
        4,
    ) + m.payload@
}

/// The signed bytes of a message.
pub fn encode_message(m: &Message) -> (r: Vec<u8>)
    requires
        message_encodable(*m),
    ensures
        r@ == message_bytes(*m),
{
    let mut r: Vec<u8> = Vec::new();
    push_le_bytes(&mut r, m.nonce, 8);
    push_le_bytes(&mut r, i64_to_bits(m.timestamp), 8);
    push_le_bytes(&mut r, m.payload.len() as u64, 4);
    let mut i: usize = 0;
    let ghost head = r@;
    while i < m.payload.len()
        invariant
            i <= m.payload@.len(),
            r@ == head + m.payload@.subrange(0, i as int),
        decreases m.payload@.len() - i,
    {
        r.push(m.payload[i]);
        i = i + 1;
        assert(r@ =~= head + m.payload@.subrange(0, i as int));
    }
    assert(m.payload@.subrange(0, i as int) =~= m.payload@);
    assert(Seq::<u8>::empty() + le_bytes(m.nonce as nat, 8) =~= le_bytes(m.nonce as nat, 8));
    r
}

/// A timestamp is fresh at `now` when it lies at most the window away, on either side.
pub open spec fn timestamp_fresh(timestamp: int, now: int) -> bool {
    timestamp <= now + TIMESTAMP_WINDOW && now <= timestamp + TIMESTAMP_WINDOW
}

/// The outcome of the freshness, nonce and identity checks on a message
/// whose signature was verified.
pub open spec fn message_check(
    msg: Message,
    now: i64,
    pubkey: Seq<u8>,
    expected_nonce: u64,
    expected_pubkey: Seq<u8>,
) -> Result<(), LazorKitError> {
    if msg.timestamp > now + TIMESTAMP_WINDOW {
        Err(LazorKitError::InvalidTimestamp)
    } else if now > msg.timestamp + TIMESTAMP_WINDOW {
        Err(LazorKitError::SignatureExpired)
    } else if msg.nonce != expected_nonce {
        Err(LazorKitError::InvalidNonce)
    } else if pubkey != expected_pubkey {
        Err(LazorKitError::InvalidPasskey)
    } else {
        Ok(())
    }
}

/// The outcome of validating a signed message against the verification
/// record `ix`, the time `now` and the authenticator's nonce and key.
pub open spec fn authority_check(
    ix: Instruction,
    now: i64,
    pubkey: Seq<u8>,
    msg: Message,
    sig: Seq<u8>,
    expected_nonce: u64,
    expected_pubkey: Seq<u8>,
) -> Result<(), LazorKitError> {
    if !message_encodable(msg) {
        Err(LazorKitError::InvalidSecp256r1VerifyData)
    } else if secp_check(
        ix.program_id@,
        ix.accounts@.len(),
        ix.data@,
        pubkey,
        message_bytes(msg),
        sig,
    ) is Err {
        secp_check(ix.program_id@, ix.accounts@.len(), ix.data@, pubkey, message_bytes(msg), sig)
    } else {
        message_check(msg, now, pubkey, expected_nonce, expected_pubkey)
    }
}

/// Checks the freshness, nonce and identity of a message.
pub fn check_message(
    msg: &Message,
    now: i64,
    pubkey: &Passkey,
    expected_nonce: u64,
    expected_pubkey: &Passkey,
) -> (r: Result<(), LazorKitError>)
    ensures
        r == message_check(*msg, now, pubkey@, expected_nonce, expected_pubkey@),
{
    if msg.timestamp as i128 > now as i128 + TIMESTAMP_WINDOW as i128 {
        return Err(LazorKitError::InvalidTimestamp);
    }
    if now as i128 > msg.timestamp as i128 + TIMESTAMP_WINDOW as i128 {
        return Err(LazorKitError::SignatureExpired);
    }
    if msg.nonce != expected_nonce {
        return Err(LazorKitError::InvalidNonce);
    }
    if !slice_eq(pubkey, expected_pubkey) {
        return Err(LazorKitError::InvalidPasskey);
    }
    Ok(())
}

/// Verifies that `ix` records `sig` by `pubkey` over the encoded `msg`, then
/// that the message is fresh at `now`, carries the expected nonce and was
/// signed by the expected key.
pub fn validate_authority(
    ix: &Instruction,
    now: i64,
    pubkey: &Passkey,
    msg: &Message,
    sig: &[u8],
    expected_nonce: u64,
    expected_pubkey: &Passkey,
) -> (r: Result<(), LazorKitError>)
    ensures
        r == authority_check(*ix, now, pubkey@, *msg, sig@, expected_nonce, expected_pubkey@),
{
    if msg.payload.len() > u32::MAX as usize {
        return Err(LazorKitError::InvalidSecp256r1VerifyData);
    }
    let bytes = encode_message(msg);
    match verify_secp256r1_instruction(ix, pubkey, bytes.as_slice(), sig) {
        Err(e) => Err(e),
        Ok(()) => check_message(msg, now, pubkey, expected_nonce, expected_pubkey),
    }
}

/// Checks a verification record against a signed message (the message is
/// signed in its encoded form).
pub fn verify_secp256r1_ix(ix: &Instruction, verify_params: &VerifyParam) -> (r: Result<
    (),
    LazorKitError,
>)
    ensures
        r == (if !message_encodable(verify_params.msg) {
            Err(LazorKitError::InvalidSecp256r1VerifyData)
        } else {
            secp_check(
                ix.program_id@,
                ix.accounts@.len(),
                ix.data@,
                verify_params.pubkey.data@,
                message_bytes(verify_params.msg),
                verify_params.sig@,
            )
        }),
{
    if verify_params.msg.payload.len() > u32::MAX as usize {
        return Err(LazorKitError::InvalidSecp256r1VerifyData);
    }
    let bytes = encode_message(&verify_params.msg);
    verify_secp256r1_instruction(ix, &verify_params.pubkey.data, bytes.as_slice(), &verify_params.sig)
}

/// Checks the header and embedded bytes of a record of the right length
/// against a signed message.
pub fn check_secp256r1_data(data: &[u8], verify_params: &VerifyParam) -> (r: Result<
    (),
    LazorKitError,
>)
    requires
        message_encodable(verify_params.msg),
        data@.len() == record_len(message_bytes(verify_params.msg).len()),
    ensures
        r == (if !header_matches(data@, message_bytes(verify_params.msg).len()) {
            Err(LazorKitError::VerifyHeaderMismatchError)
        } else if !content_matches(
            data@,
            verify_params.pubkey.data@,
            verify_params.sig@,
            message_bytes(verify_params.msg),
        ) {
            Err(LazorKitError::VerifyDataMismatchError)
        } else {
            Ok(())
        }),
{
    let bytes = encode_message(&verify_params.msg);
    verify_secp256r1_data(data, &verify_params.pubkey.data, bytes.as_slice(), &verify_params.sig)
}

impl PasskeyPubkey {
    /// SHA-256 of the key followed by the wallet address.
    pub fn to_hashed_bytes(&self, smart_wallet: &Address) -> (r: Address)
        ensures
            r@ == passkey_binding(self.data@, smart_wallet@),
    {
        to_hashed_bytes(&self.data, smart_wallet)
    }
}

/// Validates a signed message against the record `ix` at time `now` and
/// returns its payload.
pub fn verify_authority(
    ix: &Instruction,
    now: i64,
    verify_params: &VerifyParam,
    expected_nonce: u64,
    expected_pubkey: PasskeyPubkey,
) -> (r: Result<Vec<u8>, LazorKitError>)
    ensures
        match r {
            Ok(p) => authority_check(
                *ix,
                now,
                verify_params.pubkey.data@,
                verify_params.msg,
                verify_params.sig@,
                expected_nonce,
                expected_pubkey.data@,
            ) is Ok && p@ == verify_params.msg.payload@,
            Err(e) => authority_check(
                *ix,
                now,
                verify_params.pubkey.data@,
                verify_params.msg,
                verify_params.sig@,
                expected_nonce,
                expected_pubkey.data@,
            ) == Err::<(), LazorKitError>(e),
        },
{
    match validate_authority(
        ix,
        now,
        &verify_params.pubkey.data,
        &verify_params.msg,
        &verify_params.sig,
        expected_nonce,
        &expected_pubkey.data,
    ) {
        Err(e) => Err(e),
        Ok(()) => Ok(verify_params.msg.payload.clone()),
    }
}

/// Freshness is symmetric: a message is accepted exactly when its timestamp
/// lies within the window on either side of the current time, boundaries
/// included, and a timestamp `d` ahead is accepted exactly when one `d`
/// behind is.
pub proof fn lemma_timestamp_window_symmetric(now: int, d: int)
    ensures
        timestamp_fresh(now + d, now) <==> -TIMESTAMP_WINDOW <= d <= TIMESTAMP_WINDOW,
        timestamp_fresh(now + d, now) <==> timestamp_fresh(now - d, now),
        timestamp_fresh(now + TIMESTAMP_WINDOW, now),
        timestamp_fresh(now - TIMESTAMP_WINDOW, now),
{
}

/// The freshness checks of message validation reject exactly the
/// timestamps that are not fresh.
pub proof fn lemma_message_check_fresh(
    msg: Message,
    now: i64,
    pubkey: Seq<u8>,
    expected_nonce: u64,
    expected_pubkey: Seq<u8>,
)
    ensures
        !timestamp_fresh(msg.timestamp as int, now as int) <==> (message_check(
            msg,
            now,
            pubkey,
            expected_nonce,
            expected_pubkey,
        ) == Err::<(), LazorKitError>(LazorKitError::InvalidTimestamp) || message_check(
            msg,
            now,
            pubkey,
            expected_nonce,
            expected_pubkey,
        ) == Err::<(), LazorKitError>(LazorKitError::SignatureExpired)),
{
}

} // verus!
