use lazorkit::authority::{
    check_message, encode_message, validate_authority, verify_authority, verify_secp256r1_ix,
    Message, PasskeyPubkey, VerifyParam,
};
use lazorkit::error::LazorKitError;
use lazorkit::secp::{secp256r1_program_id, verify_secp256r1_instruction, AccountMeta, Instruction};

fn passkey(seed: u8) -> [u8; 33] {
    let mut p = [0u8; 33];
    for (i, b) in p.iter_mut().enumerate() {
        *b = seed.wrapping_add(i as u8);
    }
    p
}

fn signature(seed: u8) -> [u8; 64] {
    let mut s = [0u8; 64];
    for (i, b) in s.iter_mut().enumerate() {
        *b = seed.wrapping_mul(3).wrapping_add(i as u8);
    }
    s
}

fn record_data(pubkey: &[u8], sig: &[u8], msg: &[u8]) -> Vec<u8> {
    let mut d = vec![1u8, 0];
    for v in [49u16, 0xFFFF, 16, 0xFFFF, 113, msg.len() as u16, 0xFFFF] {
        d.extend_from_slice(&v.to_le_bytes());
    }
    d.extend_from_slice(pubkey);
    d.extend_from_slice(sig);
    d.extend_from_slice(msg);
    d
}

fn record(pubkey: &[u8], sig: &[u8], msg: &[u8]) -> Instruction {
    Instruction { program_id: secp256r1_program_id(), accounts: vec![], data: record_data(pubkey, sig, msg) }
}

#[test]
fn secp256r1_program_id_matches_platform_constant() {
    let expected: anchor_lang::prelude::Pubkey =
        "Secp256r1SigVerify1111111111111111111111111".parse().unwrap();
    assert_eq!(secp256r1_program_id(), expected.to_bytes());
}

#[test]
fn valid_record_is_accepted() {
    let pk = passkey(1);
    let sig = signature(2);
    let msg = b"hello wallet".to_vec();
    let ix = record(&pk, &sig, &msg);
    assert_eq!(verify_secp256r1_instruction(&ix, &pk, &msg, &sig), Ok(()));
}

#[test]
fn every_header_byte_but_padding_is_checked() {
    let pk = passkey(1);
    let sig = signature(2);
    let msg = b"m".to_vec();
    let base = record(&pk, &sig, &msg);
    for i in 0..base.data.len() {
        let mut ix = base.clone();
        ix.data[i] ^= 0x01;
        let r = verify_secp256r1_instruction(&ix, &pk, &msg, &sig);
        if i == 1 {
            assert_eq!(r, Ok(()));
        } else if i < 16 {
            assert_eq!(r, Err(LazorKitError::VerifyHeaderMismatchError), "byte {}", i);
        } else {
            assert_eq!(r, Err(LazorKitError::VerifyDataMismatchError), "byte {}", i);
        }
    }
}

#[test]
fn record_from_other_program_is_rejected() {
    let pk = passkey(1);
    let sig = signature(2);
    let msg = vec![5u8; 10];
    let mut ix = record(&pk, &sig, &msg);
    ix.program_id = [3u8; 32];
    assert_eq!(
        verify_secp256r1_instruction(&ix, &pk, &msg, &sig),
        Err(LazorKitError::InvalidSecp256r1Program)
    );
}

#[test]
fn record_with_accounts_is_rejected() {
    let pk = passkey(1);
    let sig = signature(2);
    let msg = vec![5u8; 10];
    let mut ix = record(&pk, &sig, &msg);
    ix.accounts.push(AccountMeta { pubkey: [1u8; 32], is_signer: false, is_writable: false });
    assert_eq!(
        verify_secp256r1_instruction(&ix, &pk, &msg, &sig),
        Err(LazorKitError::InvalidSecp256r1VerifyAccounts)
    );
}

#[test]
fn short_or_long_record_is_rejected() {
    let pk = passkey(1);
    let sig = signature(2);
    let msg = vec![5u8; 10];
    let mut ix = record(&pk, &sig, &msg);
    ix.data.pop();
    assert_eq!(
        verify_secp256r1_instruction(&ix, &pk, &msg, &sig),
        Err(LazorKitError::InvalidSecp256r1VerifyData)
    );
    ix.data = vec![1u8; 20];
    assert_eq!(
        verify_secp256r1_instruction(&ix, &pk, &msg, &sig),
        Err(LazorKitError::InvalidSecp256r1VerifyData)
    );
    ix.data.extend_from_slice(&[0u8; 120]);
    assert_eq!(
        verify_secp256r1_instruction(&ix, &pk, &msg, &sig),
        Err(LazorKitError::InvalidSecp256r1VerifyData)
    );
}

#[test]
fn record_for_other_key_or_message_is_rejected() {
    let pk = passkey(1);
    let sig = signature(2);
    let msg = vec![5u8; 10];
    let ix = record(&pk, &sig, &msg);
    assert_eq!(
        verify_secp256r1_instruction(&ix, &passkey(9), &msg, &sig),
        Err(LazorKitError::VerifyDataMismatchError)
    );
    assert_eq!(
        verify_secp256r1_instruction(&ix, &pk, &[6u8; 10], &sig),
        Err(LazorKitError::VerifyDataMismatchError)
    );
    assert_eq!(
        verify_secp256r1_instruction(&ix, &pk, &msg, &signature(7)),
        Err(LazorKitError::VerifyDataMismatchError)
    );
    assert_eq!(
        verify_secp256r1_instruction(&ix, &pk, &msg, &sig[..63]),
        Err(LazorKitError::VerifyDataMismatchError)
    );
}

#[test]
fn empty_message_record() {
    let pk = passkey(4);
    let sig = signature(4);
    let ix = record(&pk, &sig, &[]);
    assert_eq!(ix.data.len(), 113);
    assert_eq!(verify_secp256r1_instruction(&ix, &pk, &[], &sig), Ok(()));
}

#[test]
fn message_encoding_layout() {
    let m = Message { nonce: 0x0102, timestamp: -2, payload: vec![9, 8, 7] };
    let bytes = encode_message(&m);
    let mut expected = vec![0x02, 0x01, 0, 0, 0, 0, 0, 0];
    expected.extend_from_slice(&[0xFE, 0xFF, 0xFF, 0xFF, 0xFF, 0xFF, 0xFF, 0xFF]);
    expected.extend_from_slice(&[3, 0, 0, 0, 9, 8, 7]);
    assert_eq!(bytes, expected);
}

fn message(nonce: u64, timestamp: i64) -> Message {
    Message { nonce, timestamp, payload: vec![1, 2, 3] }
}

#[test]
fn timestamp_window_boundaries() {
    let pk = passkey(1);
    let now = 1_000_000i64;
    assert_eq!(check_message(&message(0, now), now, &pk, 0, &pk), Ok(()));
    assert_eq!(check_message(&message(0, now + 30), now, &pk, 0, &pk), Ok(()));
    assert_eq!(check_message(&message(0, now - 30), now, &pk, 0, &pk), Ok(()));
    assert_eq!(
        check_message(&message(0, now + 31), now, &pk, 0, &pk),
        Err(LazorKitError::InvalidTimestamp)
    );
    assert_eq!(
        check_message(&message(0, now - 31), now, &pk, 0, &pk),
        Err(LazorKitError::SignatureExpired)
    );
}

#[test]
fn timestamp_window_at_extremes() {
    let pk = passkey(1);
    assert_eq!(check_message(&message(0, i64::MAX), i64::MAX - 30, &pk, 0, &pk), Ok(()));
    assert_eq!(
        check_message(&message(0, i64::MIN), i64::MAX, &pk, 0, &pk),
        Err(LazorKitError::SignatureExpired)
    );
    assert_eq!(
        check_message(&message(0, i64::MAX), i64::MIN, &pk, 0, &pk),
        Err(LazorKitError::InvalidTimestamp)
    );
}

#[test]
fn nonce_and_identity_mismatch() {
    let pk = passkey(1);
    let now = 500i64;
    assert_eq!(check_message(&message(3, now), now, &pk, 4, &pk), Err(LazorKitError::InvalidNonce));
    assert_eq!(
        check_message(&message(4, now), now, &pk, 4, &passkey(2)),
        Err(LazorKitError::InvalidPasskey)
    );
}

#[test]
fn authority_validation_end_to_end() {
    let pk = passkey(1);
    let sig = signature(1);
    let m = message(7, 100);
    let ix = record(&pk, &sig, &encode_message(&m));
    assert_eq!(validate_authority(&ix, 110, &pk, &m, &sig, 7, &pk), Ok(()));
    assert_eq!(
        validate_authority(&ix, 110, &pk, &m, &sig, 8, &pk),
        Err(LazorKitError::InvalidNonce)
    );
    assert_eq!(
        validate_authority(&ix, 131, &pk, &m, &sig, 7, &pk),
        Err(LazorKitError::SignatureExpired)
    );
    let other = message(7, 101);
    assert_eq!(
        validate_authority(&ix, 110, &pk, &other, &sig, 7, &pk),
        Err(LazorKitError::VerifyDataMismatchError)
    );
}

#[test]
fn verify_authority_returns_payload() {
    let pk = PasskeyPubkey { data: passkey(3) };
    let sig = signature(3);
    let m = Message { nonce: 0, timestamp: 50, payload: vec![42, 43] };
    let ix = record(&pk.data, &sig, &encode_message(&m));
    let params = VerifyParam { pubkey: pk, msg: m, sig };
    assert_eq!(verify_secp256r1_ix(&ix, &params), Ok(()));
    assert_eq!(verify_authority(&ix, 50, &params, 0, pk), Ok(vec![42, 43]));
    assert_eq!(
        verify_authority(&ix, 50, &params, 0, PasskeyPubkey { data: passkey(4) }),
        Err(LazorKitError::InvalidPasskey)
    );
}
