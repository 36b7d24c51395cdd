//! Receipts: ordered collections of (public key, signature) pairs over one
//! canonical message.

use vstd::prelude::*;
use crate::crypto::{sig_ok, verify_signature};

verus! {

/// An ordered sequence of (public key, signature) pairs aggregated by the
/// coordinator. Order is stable within one receipt.
#[derive(Debug)]
pub struct Receipt {
    pairs: Vec<(Vec<u8>, Vec<u8>)>,
}

impl Receipt {
    /// The pairs as byte sequences (specification-only).
    pub closed spec fn pairs_view(self) -> Seq<(Seq<u8>, Seq<u8>)> {
        self.pairs@.map(|i: int, p: (Vec<u8>, Vec<u8>)| (p.0@, p.1@))
    }

    /// Assemble a receipt from (public key, signature) byte pairs, keeping
    /// their order.
    pub fn from_bytes(receipt_bytes: Vec<(Vec<u8>, Vec<u8>)>) -> (r: Receipt)
        ensures
            r.pairs_view().len() == receipt_bytes@.len(),
            forall|i: int|
                0 <= i < receipt_bytes@.len() ==> #[trigger] r.pairs_view()[i] == (
                receipt_bytes@[i].0@,
                receipt_bytes@[i].1@,
            ),
    {
        Receipt { pairs: receipt_bytes }
    }

    /// How many signatures the receipt carries.
    pub fn num_signatures(&self) -> (n: usize)
        ensures
            n == self.pairs_view().len(),
    {
        self.pairs.len()
    }

    /// The public key of the i-th pair.
    pub fn pk_at(&self, i: usize) -> (r: &Vec<u8>)
        requires
            i < self.pairs_view().len(),
        ensures
            r@ == self.pairs_view()[i as int].0,
    {
        &self.pairs[i].0
    }

    /// The signature of the i-th pair.
    pub fn signature_at(&self, i: usize) -> (r: &Vec<u8>)
        requires
            i < self.pairs_view().len(),
        ensures
            r@ == self.pairs_view()[i as int].1,
    {
        &self.pairs[i].1
    }

    /// Verify every signature in the receipt over the canonical message
    /// under its paired public key.
    pub fn verify(&self, msg: &Vec<u8>) -> (r: bool)
        ensures
            r == (forall|i: int|
                0 <= i < self.pairs_view().len() ==> sig_ok(
                    #[trigger] self.pairs_view()[i].0,
                    msg@,
                    self.pairs_view()[i].1,
                )),
    {
        let mut i: usize = 0;
        while i < self.pairs.len()
            invariant
                i <= self.pairs_view().len(),
                self.pairs_view().len() == self.pairs@.len(),
                forall|j: int|
                    0 <= j < i ==> sig_ok(
                        #[trigger] self.pairs_view()[j].0,
                        msg@,
                        self.pairs_view()[j].1,
                    ),
            decreases self.pairs@.len() - i,
        {
            if !verify_signature(&self.pairs[i].0, msg, &self.pairs[i].1) {
                proof {
                    assert(!sig_ok(self.pairs_view()[i as int].0, msg@, self.pairs_view()[
                        i as int].1));
                }
                return false;
            }
            i += 1;
        }
        true
    }
}

} // verus!
