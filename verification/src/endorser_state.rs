//! The endorser store: the append-only, per-handle ledger state machine.
//!
//! Each ledger is a pair of a 32-byte chained tail digest and a 64-bit
//! height; the store enforces existence, strict conditional-match,
//! monotonicity, overflow and lock invariants, and signs every transition
//! with the endorser's key.
//!
//! The conditional check is strict: an append succeeds only when the
//! caller-supplied conditional tail equals the current tail bytewise.

use vstd::prelude::*;
use vstd::pervasive::VecAdditionalExecFns;
use crate::bytes::{bytes_eq, clone_bytes};
use crate::crypto::{ed25519_public_key, ed25519_sign, pk_of, sig_of, sig_ok};
use crate::errors::EndorserError;
use crate::messages::{
    append_msg, build_append_msg, build_read_msg, compute_genesis_tail, compute_next_tail,
    genesis_tail, next_tail, read_msg, view_id, view_id_bytes, zero_digest, zero_digest_bytes,
};

verus! {

/// The accepted history of one ledger: the tail and height it was seeded
/// with, and the ordered block hashes accepted since.
pub ghost struct LedgerHistory {
    pub base_tail: Seq<u8>,
    pub base_height: int,
    pub blocks: Seq<Seq<u8>>,
}

/// One ledger held by an endorser.
pub struct LedgerEntry {
    pub handle: Vec<u8>,
    pub tail: Vec<u8>,
    pub height: u64,
    pub hist: Ghost<LedgerHistory>,
}

/// One row of the ledger-tail snapshot handed to `initialize_state`.
pub struct LedgerTailMapEntry {
    pub handle: Vec<u8>,
    pub tail: Vec<u8>,
    pub height: u64,
}

/// The tail reached from `base` (the tail at height `base_height`) after
/// accepting `blocks` in order, the i-th at height `base_height + i + 1`.
pub open spec fn chain_from(base: Seq<u8>, base_height: int, blocks: Seq<Seq<u8>>) -> Seq<u8>
    decreases blocks.len(),
{
    if blocks.len() == 0 {
        base
    } else {
        next_tail(
            chain_from(base, base_height, blocks.drop_last()),
            blocks.last(),
            (base_height + blocks.len()) as u64,
        )
    }
}

/// Well-formedness of one ledger entry: field widths, the height counting
/// the accepted blocks, and the tail reproducing the chain from the base.
pub open spec fn entry_wf(e: LedgerEntry) -> bool {
    &&& e.handle@.len() == 32
    &&& e.tail@.len() == 32
    &&& 0 <= e.hist@.base_height
    &&& e.hist@.base_height + e.hist@.blocks.len() == e.height
    &&& e.tail@ == chain_from(e.hist@.base_tail, e.hist@.base_height, e.hist@.blocks)
}

/// The endorser store: per-handle ledger state, the view ledger, the lock
/// flag, and the signing seed.
pub struct EndorserState {
    seed: Vec<u8>,
    ledgers: Vec<LedgerEntry>,
    view_tail: Vec<u8>,
    view_height: u64,
    initialized: bool,
    locked: bool,
}

impl EndorserState {
    /// The 32-byte signing seed (specification-only).
    pub closed spec fn key_seed(self) -> Seq<u8> {
        self.seed@
    }

    /// The held ledger entries (specification-only).
    pub closed spec fn entries(self) -> Seq<LedgerEntry> {
        self.ledgers@
    }

    /// The view ledger's tail.
    pub closed spec fn view_tail_spec(self) -> Seq<u8> {
        self.view_tail@
    }

    /// The view ledger's height.
    pub closed spec fn view_height_spec(self) -> u64 {
        self.view_height
    }

    /// Whether the store has been initialized.
    pub closed spec fn is_initialized(self) -> bool {
        self.initialized
    }

    /// Whether the endorser lock is held.
    pub closed spec fn is_locked(self) -> bool {
        self.locked
    }

    /// Whether a ledger with this handle is present.
    pub open spec fn has_ledger(self, h: Seq<u8>) -> bool {
        exists|i: int| 0 <= i < self.entries().len() && (#[trigger] self.entries()[i]).handle@ == h
    }

    /// The index of the ledger with this handle.
    pub open spec fn idx_of(self, h: Seq<u8>) -> int {
        choose|i: int| 0 <= i < self.entries().len() && (#[trigger] self.entries()[i]).handle@ == h
    }

    /// The current tail of the ledger with this handle.
    pub open spec fn tail_of(self, h: Seq<u8>) -> Seq<u8> {
        self.entries()[self.idx_of(h)].tail@
    }

    /// The current height of the ledger with this handle.
    pub open spec fn height_of(self, h: Seq<u8>) -> u64 {
        self.entries()[self.idx_of(h)].height
    }

    /// The accepted history of the ledger with this handle.
    pub open spec fn hist_of(self, h: Seq<u8>) -> LedgerHistory {
        self.entries()[self.idx_of(h)].hist@
    }

    /// No two entries share a handle.
    pub open spec fn handles_distinct(self) -> bool {
        forall|i: int, j: int|
            0 <= i < j < self.entries().len() ==> (#[trigger] self.entries()[i]).handle@ != (
            #[trigger] self.entries()[j]).handle@
    }

    /// Well-formedness of the whole store.
    pub open spec fn wf(self) -> bool {
        &&& self.key_seed().len() == 32
        &&& self.view_tail_spec().len() == 32
        &&& self.handles_distinct()
        &&& forall|i: int| 0 <= i < self.entries().len() ==> entry_wf(#[trigger] self.entries()[i])
    }
}

/// The seed, the view ledger, the lock and the initialization flag are
/// untouched.
pub open spec fn same_config(pre: EndorserState, post: EndorserState) -> bool {
    &&& post.key_seed() == pre.key_seed()
    &&& post.view_tail_spec() == pre.view_tail_spec()
    &&& post.view_height_spec() == pre.view_height_spec()
    &&& post.is_initialized() == pre.is_initialized()
    &&& post.is_locked() == pre.is_locked()
}

/// Every ledger other than `h` is present in `post` exactly as in `pre`.
pub open spec fn ledgers_unchanged_except(
    pre: EndorserState,
    post: EndorserState,
    h: Seq<u8>,
) -> bool {
    forall|h2: Seq<u8>|
        #![auto]
        h2 != h ==> {
            &&& post.has_ledger(h2) == pre.has_ledger(h2)
            &&& (pre.has_ledger(h2) ==> {
                &&& post.tail_of(h2) == pre.tail_of(h2)
                &&& post.height_of(h2) == pre.height_of(h2)
                &&& post.hist_of(h2) == pre.hist_of(h2)
            })
        }
}

/// A handle that occurs at index `i` is the one `idx_of` finds.
proof fn lemma_idx_unique(s: EndorserState, h: Seq<u8>, i: int)
    requires
        s.handles_distinct(),
        0 <= i < s.entries().len(),
        s.entries()[i].handle@ == h,
    ensures
        s.has_ledger(h),
        s.idx_of(h) == i,
{
    assert(s.has_ledger(h));
    let j = s.idx_of(h);
    assert(0 <= j < s.entries().len() && s.entries()[j].handle@ == h);
    if i < j {
        assert(s.entries()[i].handle@ != s.entries()[j].handle@);
    } else if j < i {
        assert(s.entries()[j].handle@ != s.entries()[i].handle@);
    }
}

/// Pushing an entry with a fresh handle keeps handles distinct and leaves
/// every other ledger as it was.
proof fn lemma_push_frame(pre: EndorserState, post: EndorserState, e: LedgerEntry)
    requires
        pre.handles_distinct(),
        !pre.has_ledger(e.handle@),
        post.entries() == pre.entries().push(e),
    ensures
        post.handles_distinct(),
        post.has_ledger(e.handle@),
        post.idx_of(e.handle@) == pre.entries().len(),
        post.tail_of(e.handle@) == e.tail@,
        post.height_of(e.handle@) == e.height,
        post.hist_of(e.handle@) == e.hist@,
        ledgers_unchanged_except(pre, post, e.handle@),
{
    let n = pre.entries().len() as int;
    assert forall|i: int, j: int| 0 <= i < j < post.entries().len() implies (
    #[trigger] post.entries()[i]).handle@ != (#[trigger] post.entries()[j]).handle@ by {
        if j < n {
            assert(post.entries()[i] == pre.entries()[i]);
            assert(post.entries()[j] == pre.entries()[j]);
        } else {
            assert(post.entries()[j] == e);
            assert(post.entries()[i] == pre.entries()[i]);
            if pre.entries()[i].handle@ == e.handle@ {
                lemma_idx_unique(pre, e.handle@, i);
            }
        }
    }
    assert(post.entries()[n] == e);
    lemma_idx_unique(post, e.handle@, n);
    assert forall|h2: Seq<u8>| h2 != e.handle@ implies {
        &&& post.has_ledger(h2) == pre.has_ledger(h2)
        &&& (pre.has_ledger(h2) ==> {
            &&& post.tail_of(h2) == pre.tail_of(h2)
            &&& post.height_of(h2) == pre.height_of(h2)
            &&& post.hist_of(h2) == pre.hist_of(h2)
        })
    } by {
        if pre.has_ledger(h2) {
            let i = pre.idx_of(h2);
            assert(0 <= i < n && pre.entries()[i].handle@ == h2);
            assert(post.entries()[i] == pre.entries()[i]);
            lemma_idx_unique(post, h2, i);
        } else {
            if post.has_ledger(h2) {
                let i = post.idx_of(h2);
                assert(0 <= i < n + 1 && post.entries()[i].handle@ == h2);
                if i < n {
                    assert(pre.entries()[i] == post.entries()[i]);
                    assert(pre.has_ledger(h2));
                } else {
                    assert(post.entries()[i] == e);
                }
            }
        }
    }
}

/// Replacing the entry at `i` with one carrying the same handle keeps
/// handles distinct and leaves every other ledger as it was.
proof fn lemma_update_frame(pre: EndorserState, post: EndorserState, i: int, e: LedgerEntry)
    requires
        pre.handles_distinct(),
        0 <= i < pre.entries().len(),
        e.handle@ == pre.entries()[i].handle@,
        post.entries() == pre.entries().update(i, e),
    ensures
        post.handles_distinct(),
        post.has_ledger(e.handle@),
        post.idx_of(e.handle@) == i,
        post.tail_of(e.handle@) == e.tail@,
        post.height_of(e.handle@) == e.height,
        post.hist_of(e.handle@) == e.hist@,
        ledgers_unchanged_except(pre, post, e.handle@),
{
    assert forall|a: int, b: int| 0 <= a < b < post.entries().len() implies (
    #[trigger] post.entries()[a]).handle@ != (#[trigger] post.entries()[b]).handle@ by {
        assert(post.entries()[a].handle@ == pre.entries()[a].handle@);
        assert(post.entries()[b].handle@ == pre.entries()[b].handle@);
    }
    assert(post.entries()[i] == e);
    lemma_idx_unique(post, e.handle@, i);
    assert forall|h2: Seq<u8>| h2 != e.handle@ implies {
        &&& post.has_ledger(h2) == pre.has_ledger(h2)
        &&& (pre.has_ledger(h2) ==> {
            &&& post.tail_of(h2) == pre.tail_of(h2)
            &&& post.height_of(h2) == pre.height_of(h2)
            &&& post.hist_of(h2) == pre.hist_of(h2)
        })
    } by {
        if pre.has_ledger(h2) {
            let a = pre.idx_of(h2);
            assert(0 <= a < pre.entries().len() && pre.entries()[a].handle@ == h2);
            assert(a != i);
            assert(post.entries()[a] == pre.entries()[a]);
            lemma_idx_unique(post, h2, a);
        } else {
            if post.has_ledger(h2) {
                let a = post.idx_of(h2);
                assert(0 <= a < post.entries().len() && post.entries()[a].handle@ == h2);
                assert(a != i);
                assert(pre.entries()[a] == post.entries()[a]);
                assert(pre.has_ledger(h2));
            }
        }
    }
}

/// What `new_ledger` returns and how the store changes, for every input.
pub open spec fn new_ledger_spec(
    pre: EndorserState,
    handle: Seq<u8>,
    post: EndorserState,
    r: Result<Vec<u8>, EndorserError>,
) -> bool {
    if pre.is_locked() {
        r == Err::<Vec<u8>, EndorserError>(EndorserError::IsLocked) && post == pre
    } else if pre.has_ledger(handle) {
        r == Err::<Vec<u8>, EndorserError>(EndorserError::LedgerExists) && post == pre
    } else {
        &&& r matches Ok(sig) && sig@ == sig_of(
            pre.key_seed(),
            append_msg(genesis_tail(handle), handle, 0),
        ) && sig_ok(pk_of(pre.key_seed()), append_msg(genesis_tail(handle), handle, 0), sig@)
        &&& post.has_ledger(handle)
        &&& post.tail_of(handle) == genesis_tail(handle)
        &&& post.height_of(handle) == 0
        &&& post.hist_of(handle) == (LedgerHistory {
            base_tail: genesis_tail(handle),
            base_height: 0,
            blocks: Seq::<Seq<u8>>::empty(),
        })
        &&& ledgers_unchanged_except(pre, post, handle)
        &&& same_config(pre, post)
        &&& post.wf()
    }
}

/// Which error an append meets, if any, in the order the checks are made:
/// the lock, existence, overflow, then the strict conditional match.
pub open spec fn append_err(
    pre: EndorserState,
    handle: Seq<u8>,
    cond: Seq<u8>,
) -> Option<EndorserError> {
    if pre.is_locked() {
        Some(EndorserError::IsLocked)
    } else if !pre.has_ledger(handle) {
        Some(EndorserError::InvalidLedgerName)
    } else if pre.height_of(handle) == u64::MAX {
        Some(EndorserError::LedgerHeightOverflow)
    } else if cond != pre.tail_of(handle) {
        Some(EndorserError::InvalidTailHeight)
    } else {
        None
    }
}

/// What `append` returns and how the store changes, for every input.
pub open spec fn append_spec(
    pre: EndorserState,
    handle: Seq<u8>,
    block: Seq<u8>,
    cond: Seq<u8>,
    post: EndorserState,
    r: Result<(Vec<u8>, u64, Vec<u8>), EndorserError>,
) -> bool {
    match append_err(pre, handle, cond) {
        Some(e) => r == Err::<(Vec<u8>, u64, Vec<u8>), EndorserError>(e) && post == pre,
        None => {
            let h_new = (pre.height_of(handle) + 1) as u64;
            let t_new = next_tail(pre.tail_of(handle), block, h_new);
            &&& r matches Ok(t) && t.0@ == t_new && t.1 == h_new && t.2@ == sig_of(
                pre.key_seed(),
                append_msg(t_new, handle, h_new),
            ) && sig_ok(pk_of(pre.key_seed()), append_msg(t_new, handle, h_new), t.2@)
            &&& post.has_ledger(handle)
            &&& post.tail_of(handle) == t_new
            &&& post.height_of(handle) == h_new
            &&& post.hist_of(handle) == (LedgerHistory {
                base_tail: pre.hist_of(handle).base_tail,
                base_height: pre.hist_of(handle).base_height,
                blocks: pre.hist_of(handle).blocks.push(block),
            })
            &&& ledgers_unchanged_except(pre, post, handle)
            &&& same_config(pre, post)
            &&& post.wf()
        },
    }
}

/// What `read_latest` returns, for every input.
pub open spec fn read_latest_spec(
    pre: EndorserState,
    handle: Seq<u8>,
    nonce: Seq<u8>,
    r: Result<(Vec<u8>, Vec<u8>, Vec<u8>), EndorserError>,
) -> bool {
    if pre.has_ledger(handle) {
        r matches Ok(t) && t.0@ == nonce && t.1@ == pre.tail_of(handle) && t.2@ == sig_of(
            pre.key_seed(),
            read_msg(pre.tail_of(handle), pre.height_of(handle), nonce),
        ) && sig_ok(
            pk_of(pre.key_seed()),
            read_msg(pre.tail_of(handle), pre.height_of(handle), nonce),
            t.2@,
        )
    } else {
        r == Err::<(Vec<u8>, Vec<u8>, Vec<u8>), EndorserError>(EndorserError::InvalidLedgerName)
    }
}

/// Well-formedness of a ledger-tail snapshot: field widths and distinct
/// handles, as a map demands.
pub open spec fn tail_map_wf(m: Seq<LedgerTailMapEntry>) -> bool {
    &&& forall|i: int|
        0 <= i < m.len() ==> (#[trigger] m[i]).handle@.len() == 32 && m[i].tail@.len() == 32
    &&& forall|i: int, j: int|
        0 <= i < j < m.len() ==> (#[trigger] m[i]).handle@ != (#[trigger] m[j]).handle@
}

/// Which error `initialize_state` meets, if any, in the order the checks are
/// made: the lock, prior initialization, overflow, then the strict
/// conditional match against the installed view tail.
pub open spec fn init_err(
    pre: EndorserState,
    view_tail: Seq<u8>,
    view_height: u64,
    cond: Seq<u8>,
) -> Option<EndorserError> {
    if pre.is_locked() {
        Some(EndorserError::IsLocked)
    } else if pre.is_initialized() {
        Some(EndorserError::AlreadyInitialized)
    } else if view_height == u64::MAX {
        Some(EndorserError::LedgerHeightOverflow)
    } else if cond != view_tail {
        Some(EndorserError::InvalidTailHeight)
    } else {
        None
    }
}

/// What `initialize_state` returns and how the store changes, for every
/// input.
pub open spec fn initialize_state_spec(
    pre: EndorserState,
    map: Seq<LedgerTailMapEntry>,
    view_tail: Seq<u8>,
    view_height: u64,
    block: Seq<u8>,
    cond: Seq<u8>,
    post: EndorserState,
    r: Result<Vec<u8>, EndorserError>,
) -> bool {
    match init_err(pre, view_tail, view_height, cond) {
        Some(e) => r == Err::<Vec<u8>, EndorserError>(e) && post == pre,
        None => {
            let h_new = (view_height + 1) as u64;
            let t_new = next_tail(view_tail, block, h_new);
            &&& r matches Ok(sig) && sig@ == sig_of(
                pre.key_seed(),
                append_msg(t_new, view_id(), h_new),
            ) && sig_ok(pk_of(pre.key_seed()), append_msg(t_new, view_id(), h_new), sig@)
            &&& post.is_initialized()
            &&& !post.is_locked()
            &&& post.view_tail_spec() == t_new
            &&& post.view_height_spec() == h_new
            &&& post.key_seed() == pre.key_seed()
            &&& post.entries().len() == map.len()
            &&& forall|i: int|
                0 <= i < map.len() ==> {
                    let e = #[trigger] post.entries()[i];
                    e.handle@ == map[i].handle@ && e.tail@ == map[i].tail@ && e.height
                        == map[i].height
                }
            &&& forall|i: int|
                0 <= i < map.len() ==> #[trigger] post.has_ledger(map[i].handle@)
                    && post.tail_of(map[i].handle@) == map[i].tail@ && post.height_of(
                    map[i].handle@,
                ) == map[i].height
            &&& post.wf()
        },
    }
}

/// Which error a view-ledger append meets, if any: missing initialization,
/// overflow, then the strict conditional match. The lock is not checked: a
/// view-ledger append is what releases it.
pub open spec fn view_append_err(pre: EndorserState, cond: Seq<u8>) -> Option<EndorserError> {
    if !pre.is_initialized() {
        Some(EndorserError::NotInitialized)
    } else if pre.view_height_spec() == u64::MAX {
        Some(EndorserError::LedgerHeightOverflow)
    } else if cond != pre.view_tail_spec() {
        Some(EndorserError::InvalidTailHeight)
    } else {
        None
    }
}

/// What `append_view_ledger` returns and how the store changes, for every
/// input. A successful call flips the lock: it acquires the lock when free,
/// and releases a lock held by a previous view-ledger append.
pub open spec fn append_view_spec(
    pre: EndorserState,
    block: Seq<u8>,
    cond: Seq<u8>,
    post: EndorserState,
    r: Result<Vec<u8>, EndorserError>,
) -> bool {
    match view_append_err(pre, cond) {
        Some(e) => r == Err::<Vec<u8>, EndorserError>(e) && post == pre,
        None => {
            let h_new = (pre.view_height_spec() + 1) as u64;
            let t_new = next_tail(pre.view_tail_spec(), block, h_new);
            &&& r matches Ok(sig) && sig@ == sig_of(
                pre.key_seed(),
                append_msg(t_new, view_id(), h_new),
            ) && sig_ok(pk_of(pre.key_seed()), append_msg(t_new, view_id(), h_new), sig@)
            &&& post.view_tail_spec() == t_new
            &&& post.view_height_spec() == h_new
            &&& post.is_locked() == !pre.is_locked()
            &&& post.is_initialized()
            &&& post.key_seed() == pre.key_seed()
            &&& post.entries() == pre.entries()
            &&& post.wf()
        },
    }
}

/// What `read_latest_view_ledger` returns, for every input.
pub open spec fn read_view_spec(
    pre: EndorserState,
    nonce: Seq<u8>,
    r: Result<(Vec<u8>, Vec<u8>, Vec<u8>), EndorserError>,
) -> bool {
    if pre.is_initialized() {
        r matches Ok(t) && t.0@ == nonce && t.1@ == pre.view_tail_spec() && t.2@ == sig_of(
            pre.key_seed(),
            read_msg(pre.view_tail_spec(), pre.view_height_spec(), nonce),
        ) && sig_ok(
            pk_of(pre.key_seed()),
            read_msg(pre.view_tail_spec(), pre.view_height_spec(), nonce),
            t.2@,
        )
    } else {
        r == Err::<(Vec<u8>, Vec<u8>, Vec<u8>), EndorserError>(EndorserError::NotInitialized)
    }
}

impl EndorserState {
    /// A fresh, uninitialized, unlocked store signing under `seed`.
    pub fn new(seed: Vec<u8>) -> (s: EndorserState)
        requires
            seed@.len() == 32,
        ensures
            s.wf(),
            s.key_seed() == seed@,
            s.entries().len() == 0,
            s.view_tail_spec() == zero_digest(),
            s.view_height_spec() == 0,
            !s.is_initialized(),
            !s.is_locked(),
    {
        EndorserState {
            seed,
            ledgers: Vec::new(),
            view_tail: zero_digest_bytes(),
            view_height: 0,
            initialized: false,
            locked: false,
        }
    }

    /// The endorser's raw public key and its self-signature, which binds the
    /// key to the principal without a PKI.
    pub fn get_public_key(&self) -> (r: (Vec<u8>, Vec<u8>))
        requires
            self.wf(),
        ensures
            r.0@ == pk_of(self.key_seed()),
            r.1@ == sig_of(self.key_seed(), pk_of(self.key_seed())),
            sig_ok(r.0@, r.0@, r.1@),
    {
        let pk = ed25519_public_key(&self.seed);
        let sig = ed25519_sign(&self.seed, &pk);
        (pk, sig)
    }

    /// Find the index of the ledger with this handle.
    fn find_ledger(&self, handle: &Vec<u8>) -> (r: Option<usize>)
        ensures
            match r {
                Some(i) => i < self.entries().len() && self.entries()[i as int].handle@ == handle@,
                None => !self.has_ledger(handle@),
            },
    {
        let mut i: usize = 0;
        while i < self.ledgers.len()
            invariant
                i <= self.entries().len(),
                forall|j: int| 0 <= j < i ==> (#[trigger] self.entries()[j]).handle@ != handle@,
            decreases self.entries().len() - i,
        {
            if bytes_eq(&self.ledgers[i].handle, handle) {
                return Some(i);
            }
            i += 1;
        }
        None
    }

    /// Create the ledger named by `handle` at its genesis tail and sign the
    /// creation.
    pub fn new_ledger(&mut self, handle: Vec<u8>) -> (r: Result<Vec<u8>, EndorserError>)
        requires
            old(self).wf(),
            handle@.len() == 32,
        ensures
            final(self).wf(),
            new_ledger_spec(*old(self), handle@, *final(self), r),
    {
        if self.locked {
            return Err(EndorserError::IsLocked);
        }
        match self.find_ledger(&handle) {
            Some(i) => {
                proof {
                    lemma_idx_unique(*self, handle@, i as int);
                }
                Err(EndorserError::LedgerExists)
            },
            None => {
                let ghost hv = handle@;
                let tail0 = compute_genesis_tail(&handle);
                let msg = build_append_msg(&tail0, &handle, 0);
                let sig = ed25519_sign(&self.seed, &msg);
                let entry = LedgerEntry {
                    handle,
                    tail: tail0,
                    height: 0,
                    hist: Ghost(
                        LedgerHistory {
                            base_tail: genesis_tail(hv),
                            base_height: 0,
                            blocks: Seq::<Seq<u8>>::empty(),
                        },
                    ),
                };
                proof {
                    assert(entry.hist@.base_tail == entry.tail@);
                    assert(entry_wf(entry));
                }
                let ghost pre = *self;
                self.ledgers.push(entry);
                proof {
                    lemma_push_frame(pre, *self, entry);
                    assert(self.wf());
                }
                Ok(sig)
            },
        }
    }

    /// Append `block_hash` to the ledger named by `handle`, advancing its
    /// height and chaining its tail, and sign the transition.
    pub fn append(
        &mut self,
        handle: &Vec<u8>,
        block_hash: &Vec<u8>,
        cond_tail: &Vec<u8>,
    ) -> (r: Result<(Vec<u8>, u64, Vec<u8>), EndorserError>)
        requires
            old(self).wf(),
            handle@.len() == 32,
            block_hash@.len() == 32,
            cond_tail@.len() == 32,
        ensures
            final(self).wf(),
            append_spec(*old(self), handle@, block_hash@, cond_tail@, *final(self), r),
    {
        if self.locked {
            return Err(EndorserError::IsLocked);
        }
        let i = match self.find_ledger(handle) {
            Some(i) => i,
            None => {
                return Err(EndorserError::InvalidLedgerName);
            },
        };
        proof {
            lemma_idx_unique(*self, handle@, i as int);
        }
        if self.ledgers[i].height == u64::MAX {
            return Err(EndorserError::LedgerHeightOverflow);
        }
        if !bytes_eq(cond_tail, &self.ledgers[i].tail) {
            return Err(EndorserError::InvalidTailHeight);
        }
        let h_new = self.ledgers[i].height + 1;
        let t_new = compute_next_tail(&self.ledgers[i].tail, block_hash, h_new);
        let msg = build_append_msg(&t_new, handle, h_new);
        let sig = ed25519_sign(&self.seed, &msg);
        let ghost old_e = self.entries()[i as int];
        let entry = LedgerEntry {
            handle: clone_bytes(handle),
            tail: clone_bytes(&t_new),
            height: h_new,
            hist: Ghost(
                LedgerHistory {
                    base_tail: old_e.hist@.base_tail,
                    base_height: old_e.hist@.base_height,
                    blocks: old_e.hist@.blocks.push(block_hash@),
                },
            ),
        };
        proof {
            assert(entry.hist@.blocks.drop_last() =~= old_e.hist@.blocks);
            assert(entry.hist@.blocks.last() == block_hash@);
            assert(old_e.hist@.base_height + entry.hist@.blocks.len() == h_new as int);
            assert(chain_from(entry.hist@.base_tail, entry.hist@.base_height, entry.hist@.blocks)
                == next_tail(old_e.tail@, block_hash@, h_new));
            assert(entry_wf(entry));
        }
        let ghost pre = *self;
        self.ledgers.set(i, entry);
        proof {
            lemma_update_frame(pre, *self, i as int, entry);
            assert(self.wf());
        }
        Ok((t_new, h_new, sig))
    }

    /// Read the current tail of the ledger named by `handle`, binding the
    /// signed answer to the caller's nonce.
    pub fn read_latest(&self, handle: &Vec<u8>, nonce: &Vec<u8>) -> (r: Result<
        (Vec<u8>, Vec<u8>, Vec<u8>),
        EndorserError,
    >)
        requires
            self.wf(),
            handle@.len() == 32,
            nonce@.len() == 16,
        ensures
            read_latest_spec(*self, handle@, nonce@, r),
    {
        let i = match self.find_ledger(handle) {
            Some(i) => i,
            None => {
                return Err(EndorserError::InvalidLedgerName);
            },
        };
        proof {
            lemma_idx_unique(*self, handle@, i as int);
        }
        let tail = clone_bytes(&self.ledgers[i].tail);
        let msg = build_read_msg(&tail, self.ledgers[i].height, nonce);
        let sig = ed25519_sign(&self.seed, &msg);
        Ok((clone_bytes(nonce), tail, sig))
    }

    /// Install a ledger-tail snapshot and the view ledger, perform the first
    /// view-ledger append, and mark the store initialized.
    pub fn initialize_state(
        &mut self,
        ledger_tail_map: &Vec<LedgerTailMapEntry>,
        view_tail: &Vec<u8>,
        view_height: u64,
        block_hash: &Vec<u8>,
        cond_tail: &Vec<u8>,
    ) -> (r: Result<Vec<u8>, EndorserError>)
        requires
            old(self).wf(),
            tail_map_wf(ledger_tail_map@),
            view_tail@.len() == 32,
            block_hash@.len() == 32,
            cond_tail@.len() == 32,
        ensures
            final(self).wf(),
            initialize_state_spec(
                *old(self),
                ledger_tail_map@,
                view_tail@,
                view_height,
                block_hash@,
                cond_tail@,
                *final(self),
                r,
            ),
    {
        if self.locked {
            return Err(EndorserError::IsLocked);
        }
        if self.initialized {
            return Err(EndorserError::AlreadyInitialized);
        }
        if view_height == u64::MAX {
            return Err(EndorserError::LedgerHeightOverflow);
        }
        if !bytes_eq(cond_tail, view_tail) {
            return Err(EndorserError::InvalidTailHeight);
        }
        let h_new = view_height + 1;
        let t_new = compute_next_tail(view_tail, block_hash, h_new);
        let vid = view_id_bytes();
        let msg = build_append_msg(&t_new, &vid, h_new);
        let sig = ed25519_sign(&self.seed, &msg);
        let mut ledgers: Vec<LedgerEntry> = Vec::new();
        let mut i: usize = 0;
        while i < ledger_tail_map.len()
            invariant
                i <= ledger_tail_map@.len(),
                tail_map_wf(ledger_tail_map@),
                ledgers@.len() == i,
                forall|j: int|
                    0 <= j < i ==> {
                        let e = #[trigger] ledgers@[j];
                        &&& e.handle@ == ledger_tail_map@[j].handle@
                        &&& e.tail@ == ledger_tail_map@[j].tail@
                        &&& e.height == ledger_tail_map@[j].height
                        &&& entry_wf(e)
                    },
            decreases ledger_tail_map@.len() - i,
        {
            let e = LedgerEntry {
                handle: clone_bytes(&ledger_tail_map[i].handle),
                tail: clone_bytes(&ledger_tail_map[i].tail),
                height: ledger_tail_map[i].height,
                hist: Ghost(
                    LedgerHistory {
                        base_tail: ledger_tail_map@[i as int].tail@,
                        base_height: ledger_tail_map@[i as int].height as int,
                        blocks: Seq::<Seq<u8>>::empty(),
                    },
                ),
            };
            ledgers.push(e);
            i += 1;
        }
        self.ledgers = ledgers;
        self.view_tail = t_new;
        self.view_height = h_new;
        self.initialized = true;
        proof {
            assert forall|a: int, b: int| 0 <= a < b < self.entries().len() implies (
            #[trigger] self.entries()[a]).handle@ != (#[trigger] self.entries()[b]).handle@ by {
                assert(self.entries()[a].handle@ == ledger_tail_map@[a].handle@);
                assert(self.entries()[b].handle@ == ledger_tail_map@[b].handle@);
            }
            assert(self.wf());
            assert forall|j: int| 0 <= j < ledger_tail_map@.len() implies
                #[trigger] self.has_ledger(ledger_tail_map@[j].handle@) && self.tail_of(
                ledger_tail_map@[j].handle@,
            ) == ledger_tail_map@[j].tail@ && self.height_of(ledger_tail_map@[j].handle@)
                == ledger_tail_map@[j].height by {
                lemma_idx_unique(*self, ledger_tail_map@[j].handle@, j);
            }
        }
        Ok(sig)
    }

    /// Append to the view ledger. A successful call flips the endorser lock:
    /// it freezes data-ledger mutation during a membership change, and the
    /// next successful view-ledger append releases the freeze.
    pub fn append_view_ledger(&mut self, block_hash: &Vec<u8>, cond_tail: &Vec<u8>) -> (r: Result<
        Vec<u8>,
        EndorserError,
    >)
        requires
            old(self).wf(),
            block_hash@.len() == 32,
            cond_tail@.len() == 32,
        ensures
            final(self).wf(),
            append_view_spec(*old(self), block_hash@, cond_tail@, *final(self), r),
    {
        if !self.initialized {
            return Err(EndorserError::NotInitialized);
        }
        if self.view_height == u64::MAX {
            return Err(EndorserError::LedgerHeightOverflow);
        }
        if !bytes_eq(cond_tail, &self.view_tail) {
            return Err(EndorserError::InvalidTailHeight);
        }
        let h_new = self.view_height + 1;
        let t_new = compute_next_tail(&self.view_tail, block_hash, h_new);
        let vid = view_id_bytes();
        let msg = build_append_msg(&t_new, &vid, h_new);
        let sig = ed25519_sign(&self.seed, &msg);
        self.view_tail = t_new;
        self.view_height = h_new;
        self.locked = !self.locked;
        proof {
            assert(self.entries() == old(self).entries());
            assert(self.wf());
        }
        Ok(sig)
    }

    /// Read the view ledger's current tail, binding the signed answer to the
    /// caller's nonce.
    pub fn read_latest_view_ledger(&self, nonce: &Vec<u8>) -> (r: Result<
        (Vec<u8>, Vec<u8>, Vec<u8>),
        EndorserError,
    >)
        requires
            self.wf(),
            nonce@.len() == 16,
        ensures
            read_view_spec(*self, nonce@, r),
    {
        if !self.initialized {
            return Err(EndorserError::NotInitialized);
        }
        let tail = clone_bytes(&self.view_tail);
        let msg = build_read_msg(&tail, self.view_height, nonce);
        let sig = ed25519_sign(&self.seed, &msg);
        Ok((clone_bytes(nonce), tail, sig))
    }
}

/// The height of every present ledger counts the appends accepted since its
/// base. A ledger created by `new_ledger` starts at base height 0 with no
/// accepted blocks, so successive accepted appends take it through the
/// heights 0, 1, 2, …, n.
pub proof fn law_height_counts_appends(s: EndorserState, h: Seq<u8>)
    requires
        s.wf(),
        s.has_ledger(h),
    ensures
        s.height_of(h) == s.hist_of(h).base_height + s.hist_of(h).blocks.len(),
{
    let i = s.idx_of(h);
    assert(0 <= i < s.entries().len() && s.entries()[i].handle@ == h);
    assert(entry_wf(s.entries()[i]));
}

/// Recomputing the chain from a ledger's base over its ordered list of
/// accepted block hashes reproduces the current tail. A ledger created by
/// `new_ledger` has its genesis tail as base, so its tail recomputes from
/// genesis.
pub proof fn law_tail_recomputes_chain(s: EndorserState, h: Seq<u8>)
    requires
        s.wf(),
        s.has_ledger(h),
    ensures
        s.tail_of(h) == chain_from(
            s.hist_of(h).base_tail,
            s.hist_of(h).base_height,
            s.hist_of(h).blocks,
        ),
{
    let i = s.idx_of(h);
    assert(0 <= i < s.entries().len() && s.entries()[i].handle@ == h);
    assert(entry_wf(s.entries()[i]));
}

/// The tail computation is a pure function of (tail_old, block_hash,
/// height_new): equal inputs yield bytewise identical tails.
pub proof fn law_next_tail_deterministic(
    t1: Seq<u8>,
    b1: Seq<u8>,
    h1: u64,
    t2: Seq<u8>,
    b2: Seq<u8>,
    h2: u64,
)
    requires
        t1 == t2,
        b1 == b2,
        h1 == h2,
    ensures
        next_tail(t1, b1, h1) == next_tail(t2, b2, h2),
{
}

} // verus!
