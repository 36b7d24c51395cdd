//! The coordinator's decision core: the connection store of known endorser
//! public keys, and the all-or-nothing aggregation of per-endorser replies
//! into receipts.
//!
//! Dispatch itself — opening channels, issuing the parallel requests and
//! awaiting them — is transport work that lives outside this crate; it hands
//! each verb's replies back as plain values, one per contacted endorser, in
//! dispatch order.

use vstd::prelude::*;
use crate::bytes::{bytes_eq, clone_bytes};
use crate::crypto::verify_signature;
use crate::crypto::sig_ok;
use crate::errors::CoordinatorError;
use crate::receipt::Receipt;

verus! {

/// One endorser's answer to a fanned-out request: its public key and, on
/// success, its signature.
pub struct EndorserReply {
    pub pk: Vec<u8>,
    pub signature: Option<Vec<u8>>,
}

/// Every endorser replied with a signature.
pub open spec fn all_replied(rs: Seq<EndorserReply>) -> bool {
    forall|i: int| 0 <= i < rs.len() ==> (#[trigger] rs[i]).signature is Some
}

/// The receipt pairs are exactly the replies' (public key, signature)
/// pairs, one per reply, in order.
pub open spec fn receipt_matches(rs: Seq<EndorserReply>, pairs: Seq<(Seq<u8>, Seq<u8>)>) -> bool {
    &&& pairs.len() == rs.len()
    &&& forall|i: int|
        0 <= i < rs.len() ==> #[trigger] pairs[i] == (rs[i].pk@, rs[i].signature.unwrap()@)
}

/// Aggregate one verb's replies: a receipt when every endorser replied with
/// a signature, nothing as soon as any failed.
pub fn collect_signatures(responses: &Vec<EndorserReply>) -> (r: Option<Receipt>)
    ensures
        match r {
            Some(rec) => all_replied(responses@) && receipt_matches(responses@, rec.pairs_view()),
            None => !all_replied(responses@),
        },
{
    let mut pairs: Vec<(Vec<u8>, Vec<u8>)> = Vec::new();
    let mut i: usize = 0;
    while i < responses.len()
        invariant
            i <= responses@.len(),
            pairs@.len() == i,
            forall|j: int|
                0 <= j < i ==> (#[trigger] responses@[j]).signature is Some && pairs@[j].0@
                    == responses@[j].pk@ && pairs@[j].1@ == responses@[j].signature.unwrap()@,
        decreases responses@.len() - i,
    {
        match &responses[i].signature {
            Some(sig) => {
                pairs.push((clone_bytes(&responses[i].pk), clone_bytes(sig)));
            },
            None => {
                return None;
            },
        }
        i += 1;
    }
    let rec = Receipt::from_bytes(pairs);
    proof {
        assert(receipt_matches(responses@, rec.pairs_view()));
    }
    Some(rec)
}

/// Fan-out atomicity: a receipt is assembled only when every endorser
/// replied with a signature for the verb, and it then carries exactly one
/// (public key, signature) pair per reply, in dispatch order. When any
/// endorser fails, no receipt exists, and nothing is said of the states the
/// other endorsers may have advanced to.
pub proof fn law_fanout_atomicity(rs: Seq<EndorserReply>, pairs: Seq<(Seq<u8>, Seq<u8>)>)
    requires
        receipt_matches(rs, pairs),
        all_replied(rs),
    ensures
        pairs.len() == rs.len(),
        forall|i: int|
            0 <= i < rs.len() ==> (#[trigger] pairs[i]).0 == rs[i].pk@ && pairs[i].1 == rs[
                i].signature.unwrap()@,
{
}

/// The connection store: the set of endorser public keys the coordinator
/// holds live stubs for.
pub struct ConnectionStore {
    keys: Vec<Vec<u8>>,
}

impl ConnectionStore {
    /// The known public keys, in admission order (specification-only).
    pub closed spec fn keys_view(self) -> Seq<Seq<u8>> {
        self.keys@.map(|i: int, k: Vec<u8>| k@)
    }

    /// Whether this public key names a known endorser.
    pub open spec fn knows(self, pk: Seq<u8>) -> bool {
        exists|i: int| 0 <= i < self.keys_view().len() && #[trigger] self.keys_view()[i] == pk
    }

    /// No key is held twice.
    pub open spec fn wf(self) -> bool {
        forall|i: int, j: int|
            0 <= i < j < self.keys_view().len() ==> #[trigger] self.keys_view()[i]
                != #[trigger] self.keys_view()[j]
    }

    /// An empty connection store.
    pub fn new() -> (s: ConnectionStore)
        ensures
            s.wf(),
            s.keys_view().len() == 0,
    {
        ConnectionStore { keys: Vec::new() }
    }

    /// A snapshot of the known public keys, in admission order.
    pub fn get_all(&self) -> (r: Vec<Vec<u8>>)
        ensures
            r@.len() == self.keys_view().len(),
            forall|i: int| 0 <= i < r@.len() ==> #[trigger] r@[i]@ == self.keys_view()[i],
    {
        let mut r: Vec<Vec<u8>> = Vec::new();
        let mut i: usize = 0;
        while i < self.keys.len()
            invariant
                i <= self.keys@.len(),
                r@.len() == i,
                forall|j: int| 0 <= j < i ==> #[trigger] r@[j]@ == self.keys_view()[j],
            decreases self.keys@.len() - i,
        {
            r.push(clone_bytes(&self.keys[i]));
            i += 1;
        }
        r
    }

    /// Whether this public key names a known endorser.
    pub fn contains(&self, pk: &Vec<u8>) -> (r: bool)
        ensures
            r == self.knows(pk@),
    {
        let mut i: usize = 0;
        while i < self.keys.len()
            invariant
                i <= self.keys@.len(),
                forall|j: int| 0 <= j < i ==> #[trigger] self.keys_view()[j] != pk@,
            decreases self.keys@.len() - i,
        {
            if bytes_eq(&self.keys[i], pk) {
                proof {
                    assert(self.keys_view()[i as int] == pk@);
                }
                return true;
            }
            i += 1;
        }
        false
    }

    /// Admit an endorser after transport retrieved its public key and
    /// self-signature: the key is recorded only when it is 32 bytes and the
    /// self-signature verifies under it.
    pub fn admit_endorser(&mut self, pk: Vec<u8>, self_sig: Vec<u8>) -> (r: Result<
        (),
        CoordinatorError,
    >)
        requires
            old(self).wf(),
        ensures
            final(self).wf(),
            if pk@.len() == 32 && sig_ok(pk@, pk@, self_sig@) {
                &&& r == Ok::<(), CoordinatorError>(())
                &&& final(self).knows(pk@)
                &&& forall|k2: Seq<u8>|
                    k2 != pk@ ==> #[trigger] final(self).knows(k2) == old(self).knows(k2)
            } else {
                r == Err::<(), CoordinatorError>(CoordinatorError::UnableToRetrievePublicKey)
                    && *final(self) == *old(self)
            },
    {
        if pk.len() != 32 {
            return Err(CoordinatorError::UnableToRetrievePublicKey);
        }
        if !verify_signature(&pk, &pk, &self_sig) {
            return Err(CoordinatorError::UnableToRetrievePublicKey);
        }
        if self.contains(&pk) {
            return Ok(());
        }
        let ghost pre = *self;
        let ghost pkv = pk@;
        self.keys.push(pk);
        proof {
            assert(self.keys_view() =~= pre.keys_view().push(pkv));
            assert(self.keys_view()[pre.keys_view().len() as int] == pkv);
            assert forall|a: int, b: int| 0 <= a < b < self.keys_view().len() implies
                #[trigger] self.keys_view()[a] != #[trigger] self.keys_view()[b] by {
                if b < pre.keys_view().len() {
                } else {
                    assert(self.keys_view()[b] == pkv);
                    if pre.keys_view()[a] == pkv {
                        assert(pre.knows(pkv));
                    }
                }
            }
            assert forall|k2: Seq<u8>| k2 != pkv implies #[trigger] self.knows(k2) == pre.knows(
                k2,
            ) by {
                if pre.knows(k2) {
                    let i = choose|i: int|
                        0 <= i < pre.keys_view().len() && #[trigger] pre.keys_view()[i] == k2;
                    assert(self.keys_view()[i] == k2);
                } else {
                    if self.knows(k2) {
                        let i = choose|i: int|
                            0 <= i < self.keys_view().len() && #[trigger] self.keys_view()[i]
                                == k2;
                        assert(i == pre.keys_view().len());
                    }
                }
            }
        }
        Ok(())
    }

    /// Check a caller-supplied endorser list before any request is issued:
    /// any key that names no known endorser refuses the whole verb.
    pub fn validate_endorsers(&self, endorsers: &Vec<Vec<u8>>) -> (r: Result<(), CoordinatorError>)
        ensures
            if forall|i: int| 0 <= i < endorsers@.len() ==> self.knows(#[trigger] endorsers@[i]@) {
                r == Ok::<(), CoordinatorError>(())
            } else {
                r == Err::<(), CoordinatorError>(CoordinatorError::InvalidEndorserPublicKey)
            },
    {
        let mut i: usize = 0;
        while i < endorsers.len()
            invariant
                i <= endorsers@.len(),
                forall|j: int| 0 <= j < i ==> self.knows(#[trigger] endorsers@[j]@),
            decreases endorsers@.len() - i,
        {
            if !self.contains(&endorsers[i]) {
                return Err(CoordinatorError::InvalidEndorserPublicKey);
            }
            i += 1;
        }
        Ok(())
    }
}

/// Aggregate replies to an initialize-state fan-out.
pub fn initialize_state_receipt(responses: &Vec<EndorserReply>) -> (r: Result<
    Receipt,
    CoordinatorError,
>)
    ensures
        match r {
            Ok(rec) => all_replied(responses@) && receipt_matches(responses@, rec.pairs_view()),
            Err(e) => !all_replied(responses@) && e
                == CoordinatorError::FailedToInitializeEndorser,
        },
{
    match collect_signatures(responses) {
        Some(rec) => Ok(rec),
        None => Err(CoordinatorError::FailedToInitializeEndorser),
    }
}

/// Aggregate replies to a create-ledger fan-out.
pub fn create_ledger_receipt(responses: &Vec<EndorserReply>) -> (r: Result<
    Receipt,
    CoordinatorError,
>)
    ensures
        match r {
            Ok(rec) => all_replied(responses@) && receipt_matches(responses@, rec.pairs_view()),
            Err(e) => !all_replied(responses@) && e == CoordinatorError::FailedToCreateLedger,
        },
{
    match collect_signatures(responses) {
        Some(rec) => Ok(rec),
        None => Err(CoordinatorError::FailedToCreateLedger),
    }
}

/// Aggregate replies to an append fan-out.
pub fn append_ledger_receipt(responses: &Vec<EndorserReply>) -> (r: Result<
    Receipt,
    CoordinatorError,
>)
    ensures
        match r {
            Ok(rec) => all_replied(responses@) && receipt_matches(responses@, rec.pairs_view()),
            Err(e) => !all_replied(responses@) && e == CoordinatorError::FailedToAppendLedger,
        },
{
    match collect_signatures(responses) {
        Some(rec) => Ok(rec),
        None => Err(CoordinatorError::FailedToAppendLedger),
    }
}

/// Aggregate replies to a read fan-out.
pub fn read_ledger_tail_receipt(responses: &Vec<EndorserReply>) -> (r: Result<
    Receipt,
    CoordinatorError,
>)
    ensures
        match r {
            Ok(rec) => all_replied(responses@) && receipt_matches(responses@, rec.pairs_view()),
            Err(e) => !all_replied(responses@) && e == CoordinatorError::FailedToReadLedger,
        },
{
    match collect_signatures(responses) {
        Some(rec) => Ok(rec),
        None => Err(CoordinatorError::FailedToReadLedger),
    }
}

/// Aggregate replies to a view-ledger append fan-out.
pub fn append_view_ledger_receipt(responses: &Vec<EndorserReply>) -> (r: Result<
    Receipt,
    CoordinatorError,
>)
    ensures
        match r {
            Ok(rec) => all_replied(responses@) && receipt_matches(responses@, rec.pairs_view()),
            Err(e) => !all_replied(responses@) && e
                == CoordinatorError::FailedToAppendViewLedger,
        },
{
    match collect_signatures(responses) {
        Some(rec) => Ok(rec),
        None => Err(CoordinatorError::FailedToAppendViewLedger),
    }
}

/// Aggregate replies to a view-ledger read fan-out.
pub fn read_view_ledger_tail_receipt(responses: &Vec<EndorserReply>) -> (r: Result<
    Receipt,
    CoordinatorError,
>)
    ensures
        match r {
            Ok(rec) => all_replied(responses@) && receipt_matches(responses@, rec.pairs_view()),
            Err(e) => !all_replied(responses@) && e == CoordinatorError::FailedToReadViewLedger,
        },
{
    match collect_signatures(responses) {
        Some(rec) => Ok(rec),
        None => Err(CoordinatorError::FailedToReadViewLedger),
    }
}

} // verus!
