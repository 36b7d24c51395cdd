use nimble::endorser::EndorserServiceState;
use sha2::Digest;
use nimble::endorser_state::LedgerTailMapEntry;
use nimble::errors::EndorserError;
use nimble::crypto::verify_signature;
use nimble::messages::{compute_genesis_tail, compute_next_tail, view_id_bytes, zero_digest_bytes};

fn b32(x: u8) -> Vec<u8> {
    vec![x; 32]
}

fn seed(x: u8) -> Vec<u8> {
    vec![x; 32]
}

fn sha256_direct(m: &[u8]) -> Vec<u8> {
    sha2::Sha256::digest(m).to_vec()
}

fn dalek_verify(pk: &[u8], m: &[u8], sig: &[u8]) -> bool {
    let pk_arr: [u8; 32] = match pk.try_into() {
        Ok(a) => a,
        Err(_) => return false,
    };
    let key = match ed25519_dalek::VerifyingKey::from_bytes(&pk_arr) {
        Ok(k) => k,
        Err(_) => return false,
    };
    let s = match ed25519_dalek::Signature::from_slice(sig) {
        Ok(s) => s,
        Err(_) => return false,
    };
    ed25519_dalek::Verifier::verify(&key, m, &s).is_ok()
}

#[test]
fn genesis_signature() {
    let mut e = EndorserServiceState::with_seed(seed(7));
    let (pk, self_sig) = e.get_endorser_public_key();
    assert!(verify_signature(&pk, &pk, &self_sig));

    let handle = b32(0x00);
    let sig = e.new_ledger(handle.clone()).unwrap();

    // tail_0 = H(0^32 ‖ 0^32 ‖ 0^64), computed independently
    let mut preimage = vec![0u8; 32];
    preimage.extend_from_slice(&handle);
    preimage.extend_from_slice(&0u64.to_be_bytes());
    let tail0 = sha256_direct(&preimage);
    assert_eq!(tail0, compute_genesis_tail(&handle));

    // signed message = tail_0 ‖ handle ‖ 0^64
    let mut msg = tail0.clone();
    msg.extend_from_slice(&handle);
    msg.extend_from_slice(&0u64.to_be_bytes());
    assert!(verify_signature(&pk, &msg, &sig));
    assert!(dalek_verify(&pk, &msg, &sig));
}

#[test]
fn single_append() {
    let mut e = EndorserServiceState::with_seed(seed(9));
    let handle = b32(0x01);
    let block = b32(0x02);
    e.new_ledger(handle.clone()).unwrap();

    let tail0 = compute_genesis_tail(&handle);
    let (tail1, height1, sig) = e.append_to_ledger(&handle, &block, &tail0).unwrap();
    assert_eq!(height1, 1);

    // tail_1 = H(tail_0 ‖ b ‖ 0x0000000000000001), computed independently
    let mut preimage = tail0.clone();
    preimage.extend_from_slice(&block);
    preimage.extend_from_slice(&1u64.to_be_bytes());
    assert_eq!(tail1, sha256_direct(&preimage));
    assert_eq!(tail1, compute_next_tail(&tail0, &block, 1));

    let (pk, _) = e.get_endorser_public_key();
    let mut msg = tail1.clone();
    msg.extend_from_slice(&handle);
    msg.extend_from_slice(&1u64.to_be_bytes());
    assert!(verify_signature(&pk, &msg, &sig));
}

#[test]
fn stale_conditional() {
    let mut e = EndorserServiceState::with_seed(seed(9));
    let handle = b32(0x01);
    let block = b32(0x02);
    e.new_ledger(handle.clone()).unwrap();
    let tail0 = compute_genesis_tail(&handle);
    e.append_to_ledger(&handle, &block, &tail0).unwrap();

    // at height 1 the zero digest no longer matches: strict conditional
    let r = e.append_to_ledger(&handle, &block, &zero_digest_bytes());
    assert_eq!(r.unwrap_err(), EndorserError::InvalidTailHeight);
}

#[test]
fn duplicate_create() {
    let mut e = EndorserServiceState::with_seed(seed(3));
    let handle = b32(0x05);
    e.new_ledger(handle.clone()).unwrap();
    let r = e.new_ledger(handle);
    assert_eq!(r.unwrap_err(), EndorserError::LedgerExists);
}

#[test]
fn locked_append() {
    let mut e = EndorserServiceState::with_seed(seed(4));
    let block = b32(0x06);
    e.initialize_state(&Vec::new(), &zero_digest_bytes(), 0, &block, &zero_digest_bytes())
        .unwrap();
    let handle = b32(0x05);
    e.new_ledger(handle.clone()).unwrap();

    // a view-ledger append acquires the endorser lock ...
    let view_tail1 = compute_next_tail(&zero_digest_bytes(), &block, 1);
    e.append_view_ledger(&block, &view_tail1).unwrap();

    // ... so the immediately following data append is refused
    let cond = compute_genesis_tail(&handle);
    let r = e.append_to_ledger(&handle, &block, &cond);
    assert_eq!(r.unwrap_err(), EndorserError::IsLocked);
    let r2 = e.new_ledger(b32(0x07));
    assert_eq!(r2.unwrap_err(), EndorserError::IsLocked);

    // the next successful view-ledger append releases the lock
    let view_tail2 = compute_next_tail(&view_tail1, &block, 2);
    e.append_view_ledger(&block, &view_tail2).unwrap();
    let (_, h, _) = e.append_to_ledger(&handle, &block, &cond).unwrap();
    assert_eq!(h, 1);
}

#[test]
fn read_latest_binds_nonce() {
    let mut e = EndorserServiceState::with_seed(seed(5));
    let handle = b32(0x0a);
    e.new_ledger(handle.clone()).unwrap();
    let nonce: Vec<u8> = vec![0x11u8; 16];
    let (nonce_back, tail, sig) = e.read_latest(&handle, &nonce).unwrap();
    assert_eq!(nonce_back, nonce);
    assert_eq!(tail, compute_genesis_tail(&handle));

    // signed message = tail ‖ height_be64 ‖ nonce
    let (pk, _) = e.get_endorser_public_key();
    let mut msg = tail.clone();
    msg.extend_from_slice(&0u64.to_be_bytes());
    msg.extend_from_slice(&nonce);
    assert!(verify_signature(&pk, &msg, &sig));
}

#[test]
fn read_absent_ledger() {
    let e = EndorserServiceState::with_seed(seed(5));
    let nonce: Vec<u8> = vec![0u8; 16];
    let r = e.read_latest(&b32(0x0b), &nonce);
    assert_eq!(r.unwrap_err(), EndorserError::InvalidLedgerName);
}

#[test]
fn append_absent_ledger() {
    let mut e = EndorserServiceState::with_seed(seed(5));
    let r = e.append_to_ledger(&b32(0x0c), &b32(0x0d), &zero_digest_bytes());
    assert_eq!(r.unwrap_err(), EndorserError::InvalidLedgerName);
}

#[test]
fn initialize_twice() {
    let mut e = EndorserServiceState::with_seed(seed(6));
    let block = b32(0x01);
    e.initialize_state(&Vec::new(), &zero_digest_bytes(), 0, &block, &zero_digest_bytes())
        .unwrap();
    let r = e.initialize_state(&Vec::new(), &zero_digest_bytes(), 0, &block, &zero_digest_bytes());
    assert_eq!(r.unwrap_err(), EndorserError::AlreadyInitialized);
}

#[test]
fn initialize_stale_conditional() {
    let mut e = EndorserServiceState::with_seed(seed(6));
    let block = b32(0x01);
    let r = e.initialize_state(&Vec::new(), &b32(0x02), 3, &block, &zero_digest_bytes());
    assert_eq!(r.unwrap_err(), EndorserError::InvalidTailHeight);
}

#[test]
fn initialize_view_height_overflow() {
    let mut e = EndorserServiceState::with_seed(seed(6));
    let block = b32(0x01);
    let r = e.initialize_state(&Vec::new(), &b32(0x02), u64::MAX, &block, &b32(0x02));
    assert_eq!(r.unwrap_err(), EndorserError::LedgerHeightOverflow);
}

#[test]
fn view_ledger_signature_uses_view_id() {
    let mut e = EndorserServiceState::with_seed(seed(8));
    let block = b32(0x01);
    let sig = e
        .initialize_state(&Vec::new(), &zero_digest_bytes(), 0, &block, &zero_digest_bytes())
        .unwrap();
    let view_tail1 = compute_next_tail(&zero_digest_bytes(), &block, 1);
    let (pk, _) = e.get_endorser_public_key();
    let mut msg = view_tail1.clone();
    msg.extend_from_slice(&view_id_bytes());
    msg.extend_from_slice(&1u64.to_be_bytes());
    assert!(verify_signature(&pk, &msg, &sig));
}

#[test]
fn view_read_before_initialize() {
    let e = EndorserServiceState::with_seed(seed(8));
    let nonce: Vec<u8> = vec![0u8; 16];
    let r = e.read_latest_view_ledger(&nonce);
    assert_eq!(r.unwrap_err(), EndorserError::NotInitialized);
}

#[test]
fn installed_ledger_at_max_height_overflows() {
    let mut e = EndorserServiceState::with_seed(seed(2));
    let handle = b32(0x0e);
    let tail = b32(0x0f);
    let entry = LedgerTailMapEntry { handle: handle.clone(), tail: tail.clone(), height: u64::MAX };
    let block = b32(0x01);
    let map = vec![entry];
    e.initialize_state(&map, &zero_digest_bytes(), 0, &block, &zero_digest_bytes()).unwrap();
    let r = e.append_to_ledger(&handle, &block, &tail);
    assert_eq!(r.unwrap_err(), EndorserError::LedgerHeightOverflow);
}

#[test]
fn installed_ledger_continues_chain() {
    let mut e = EndorserServiceState::with_seed(seed(2));
    let handle = b32(0x0e);
    let tail = b32(0x0f);
    let entry = LedgerTailMapEntry { handle: handle.clone(), tail: tail.clone(), height: 41 };
    let block = b32(0x01);
    let map = vec![entry];
    e.initialize_state(&map, &zero_digest_bytes(), 0, &block, &zero_digest_bytes()).unwrap();
    let (t, h, _) = e.append_to_ledger(&handle, &block, &tail).unwrap();
    assert_eq!(h, 42);
    assert_eq!(t, compute_next_tail(&tail, &block, 42));
}

#[test]
fn tamper_detection() {
    let mut e = EndorserServiceState::with_seed(seed(1));
    let handle = b32(0x01);
    let sig = e.new_ledger(handle.clone()).unwrap();
    let (pk, _) = e.get_endorser_public_key();
    let tail0 = compute_genesis_tail(&handle);
    let mut msg = tail0.clone();
    msg.extend_from_slice(&handle);
    msg.extend_from_slice(&0u64.to_be_bytes());
    assert!(verify_signature(&pk, &msg, &sig));

    // altering a single byte of the message makes verification fail
    let mut bad_msg = msg.clone();
    bad_msg[0] ^= 0x01;
    assert!(!verify_signature(&pk, &bad_msg, &sig));

    // altering a single byte of the signature makes verification fail
    let mut bad_sig = sig.clone();
    bad_sig[5] ^= 0x80;
    assert!(!verify_signature(&pk, &msg, &bad_sig));
}

#[test]
fn tail_computation_is_deterministic() {
    let tail = b32(0x21);
    let block = b32(0x22);
    let a = compute_next_tail(&tail, &block, 9);
    let b = compute_next_tail(&tail, &block, 9);
    assert_eq!(a, b);
    let g1 = compute_genesis_tail(&b32(0x23));
    let g2 = compute_genesis_tail(&b32(0x23));
    assert_eq!(g1, g2);
}
