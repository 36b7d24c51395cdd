use nimble::coordinator::{
    append_ledger_receipt, create_ledger_receipt, collect_signatures, read_ledger_tail_receipt,
    ConnectionStore, EndorserReply,
};
use nimble::endorser::EndorserServiceState;
use nimble::errors::{CoordinatorError, EndorserError};
use nimble::messages::{compute_genesis_tail, compute_next_tail};

fn b32(x: u8) -> Vec<u8> {
    vec![x; 32]
}

fn seed(x: u8) -> Vec<u8> {
    vec![x; 32]
}

fn register(store: &mut ConnectionStore, e: &EndorserServiceState) -> Vec<u8> {
    let (pk, self_sig) = e.get_endorser_public_key();
    store.admit_endorser(pk.clone(), self_sig).unwrap();
    pk
}

#[test]
fn admit_and_get_all() {
    let mut store = ConnectionStore::new();
    let e1 = EndorserServiceState::with_seed(seed(1));
    let e2 = EndorserServiceState::with_seed(seed(2));
    let pk1 = register(&mut store, &e1);
    let pk2 = register(&mut store, &e2);
    let all = store.get_all();
    assert_eq!(all, vec![pk1.clone(), pk2.clone()]);

    // a second admission of the same key does not duplicate it
    let (pk, self_sig) = e1.get_endorser_public_key();
    store.admit_endorser(pk, self_sig).unwrap();
    assert_eq!(store.get_all().len(), 2);
}

#[test]
fn admit_rejects_bad_self_signature() {
    let mut store = ConnectionStore::new();
    let e = EndorserServiceState::with_seed(seed(1));
    let (pk, mut self_sig) = e.get_endorser_public_key();
    self_sig[3] ^= 0xff;
    let r = store.admit_endorser(pk, self_sig);
    assert_eq!(r.unwrap_err(), CoordinatorError::UnableToRetrievePublicKey);
    assert_eq!(store.get_all().len(), 0);
}

#[test]
fn validate_endorsers_rejects_unknown_key() {
    let mut store = ConnectionStore::new();
    let e = EndorserServiceState::with_seed(seed(1));
    let pk = register(&mut store, &e);
    assert!(store.validate_endorsers(&vec![pk.clone()]).is_ok());
    let r = store.validate_endorsers(&vec![pk, b32(0x77)]);
    assert_eq!(r.unwrap_err(), CoordinatorError::InvalidEndorserPublicKey);
}

#[test]
fn receipt_collects_all_signatures_in_order() {
    let mut endorsers = vec![
        EndorserServiceState::with_seed(seed(1)),
        EndorserServiceState::with_seed(seed(2)),
        EndorserServiceState::with_seed(seed(3)),
    ];
    let handle = b32(0x10);
    let mut replies: Vec<EndorserReply> = Vec::new();
    let mut pks: Vec<Vec<u8>> = Vec::new();
    let mut sigs: Vec<Vec<u8>> = Vec::new();
    for e in endorsers.iter_mut() {
        let (pk, _) = e.get_endorser_public_key();
        let sig = e.new_ledger(handle.clone()).unwrap();
        pks.push(pk.clone());
        sigs.push(sig.clone());
        replies.push(EndorserReply { pk, signature: Some(sig) });
    }
    let receipt = create_ledger_receipt(&replies).unwrap();
    assert_eq!(receipt.num_signatures(), 3);
    for i in 0..3 {
        assert_eq!(receipt.pk_at(i), &pks[i]);
        assert_eq!(receipt.signature_at(i), &sigs[i]);
    }

    // every signature verifies over the canonical creation message
    let tail0 = compute_genesis_tail(&handle);
    let mut msg = tail0.clone();
    msg.extend_from_slice(&handle);
    msg.extend_from_slice(&0u64.to_be_bytes());
    assert!(receipt.verify(&msg));
    let mut other = msg.clone();
    other[0] ^= 1;
    assert!(!receipt.verify(&other));
}

#[test]
fn fan_out_all_or_nothing() {
    // three endorsers, one deliberately given a stale conditional tail
    let mut endorsers = vec![
        EndorserServiceState::with_seed(seed(1)),
        EndorserServiceState::with_seed(seed(2)),
        EndorserServiceState::with_seed(seed(3)),
    ];
    let handle = b32(0x10);
    let block = b32(0x20);
    for e in endorsers.iter_mut() {
        e.new_ledger(handle.clone()).unwrap();
    }
    let tail0 = compute_genesis_tail(&handle);
    let stale = b32(0x00);

    let mut replies: Vec<EndorserReply> = Vec::new();
    for (i, e) in endorsers.iter_mut().enumerate() {
        let (pk, _) = e.get_endorser_public_key();
        let cond = if i == 1 { &stale } else { &tail0 };
        let signature = match e.append_to_ledger(&handle, &block, cond) {
            Ok((_, _, sig)) => Some(sig),
            Err(err) => {
                assert_eq!(err, EndorserError::InvalidTailHeight);
                None
            },
        };
        replies.push(EndorserReply { pk, signature });
    }
    let r = append_ledger_receipt(&replies);
    assert_eq!(r.unwrap_err(), CoordinatorError::FailedToAppendLedger);

    // the other two endorsers have advanced: silent divergence the clients
    // detect through receipt verification
    let nonce: Vec<u8> = vec![0u8; 16];
    let tail1 = compute_next_tail(&tail0, &block, 1);
    let (_, t0, _) = endorsers[0].read_latest(&handle, &nonce).unwrap();
    let (_, t1, _) = endorsers[1].read_latest(&handle, &nonce).unwrap();
    let (_, t2, _) = endorsers[2].read_latest(&handle, &nonce).unwrap();
    assert_eq!(t0, tail1);
    assert_eq!(t1, tail0);
    assert_eq!(t2, tail1);
}

#[test]
fn collect_signatures_fails_on_any_missing_reply() {
    let replies = vec![
        EndorserReply { pk: b32(1), signature: Some(vec![0u8; 64]) },
        EndorserReply { pk: b32(2), signature: None },
    ];
    assert!(collect_signatures(&replies).is_none());
    assert_eq!(
        read_ledger_tail_receipt(&replies).unwrap_err(),
        CoordinatorError::FailedToReadLedger
    );
}
