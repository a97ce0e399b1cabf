use vstd::prelude::*;

use std::sync::Arc;

use crate::app_config::AppSpecificConfig;

verus! {

/// Holder of the current configuration snapshot. A snapshot is never changed
/// in place: `replace` swaps in a whole new one, and readers keep the one they
/// were handed for as long as they need it. Shared use wraps the store in a
/// reader-writer lock, so that `replace` is exclusive and `current` is not.
pub struct ConfigStore {
    current: Arc<AppSpecificConfig>,
}

/// A configuration document pushed by the config center that failed to parse.
pub struct ConfigParseError {
    pub detail: String,
}

/// What became of one pushed configuration document.
pub enum PushOutcome {
    /// It parsed and is now the current snapshot.
    Applied,
    /// It did not parse; the previous snapshot stays current. The error is to
    /// be logged once, and goes no further.
    Rejected(ConfigParseError),
}

/// One operation on the store, in a history of them.
pub enum StoreOp {
    Read,
    Replace(AppSpecificConfig),
}

/// The current snapshot after a history of operations, starting from `init`.
pub open spec fn snapshot_after(init: AppSpecificConfig, ops: Seq<StoreOp>) -> AppSpecificConfig
    decreases ops.len(),
{
    if ops.len() == 0 {
        init
    } else {
        match ops.last() {
            StoreOp::Read => snapshot_after(init, ops.drop_last()),
            StoreOp::Replace(c) => c,
        }
    }
}

/// What the operation at position `i` of a history observes when it is a read.
pub open spec fn observed(init: AppSpecificConfig, ops: Seq<StoreOp>, i: int) -> AppSpecificConfig {
    snapshot_after(init, ops.take(i))
}

/// The current snapshot once a pushed document, run through the parser, has
/// been handled.
pub open spec fn snapshot_after_push(
    before: AppSpecificConfig,
    parsed: Result<AppSpecificConfig, String>,
) -> AppSpecificConfig {
    match parsed {
        Ok(c) => c,
        Err(_) => before,
    }
}

/// `outcome` reports how a pushed document was handled.
pub open spec fn push_outcome(outcome: PushOutcome, parsed: Result<AppSpecificConfig, String>) -> bool {
    match parsed {
        Ok(_) => outcome is Applied,
        Err(detail) => outcome matches PushOutcome::Rejected(e) && e.detail == detail,
    }
}

/// Relies on `Arc::clone`: the new pointer shares the same allocation.
#[verifier::external_body]
fn share(a: &Arc<AppSpecificConfig>) -> (r: Arc<AppSpecificConfig>)
    ensures
        r == *a,
{
    Arc::clone(a)
}

impl View for ConfigStore {
    type V = AppSpecificConfig;

    closed spec fn view(&self) -> AppSpecificConfig {
        *self.current
    }
}

impl ConfigStore {
    pub fn new(initial: AppSpecificConfig) -> (s: ConfigStore)
        ensures
            s@ == initial,
    {
        ConfigStore { current: Arc::new(initial) }
    }

    /// The current snapshot, whole.
    pub fn current(&self) -> (r: Arc<AppSpecificConfig>)
        ensures
            *r == self@,
    {
        share(&self.current)
    }

    /// Makes `new` the current snapshot, whole.
    pub fn replace(&mut self, new: AppSpecificConfig)
        ensures
            final(self)@ == new,
    {
        self.current = Arc::new(new);
    }

    /// Handles one pushed configuration document, already run through the
    /// parser: a parsed one replaces the current snapshot; a parse failure
    /// leaves it as it was and comes back as the one error to log.
    pub fn apply_push(&mut self, parsed: Result<AppSpecificConfig, String>) -> (r: PushOutcome)
        ensures
            final(self)@ == snapshot_after_push(old(self)@, parsed),
            push_outcome(r, parsed),
    {
        match parsed {
            Ok(c) => {
                self.replace(c);
                PushOutcome::Applied
            },
            Err(detail) => PushOutcome::Rejected(ConfigParseError { detail }),
        }
    }
}

/// In any history of reads around a single replace, each read observes one
/// whole snapshot, the initial one or the new one, never a mix: the initial
/// one up to the replace, and the new one after it. Whatever a reader derives
/// from what it observed (every field of a reply) thus comes from that one
/// snapshot.
pub proof fn lemma_single_replace_visibility(
    init: AppSpecificConfig,
    ops: Seq<StoreOp>,
    k: int,
    new: AppSpecificConfig,
)
    requires
        0 <= k < ops.len(),
        ops[k] == StoreOp::Replace(new),
        forall|j: int| 0 <= j < ops.len() && j != k ==> ops[j] is Read,
    ensures
        forall|i: int|
            0 <= i <= ops.len() ==> #[trigger] observed(init, ops, i) == init || observed(
                init,
                ops,
                i,
            ) == new,
        forall|i: int| 0 <= i <= k ==> #[trigger] observed(init, ops, i) == init,
        forall|i: int| k < i <= ops.len() ==> #[trigger] observed(init, ops, i) == new,
{
    assert forall|i: int| 0 <= i <= k implies #[trigger] observed(init, ops, i) == init by {
        lemma_reads_keep(init, ops.take(i));
    }
    assert forall|i: int| k < i <= ops.len() implies #[trigger] observed(init, ops, i) == new by {
        let p = ops.take(i);
        let q = ops.take(k + 1);
        assert(snapshot_after(init, q) == new) by {
            assert(q.last() == ops[k]);
        }
        lemma_reads_after(init, p, k + 1);
        assert(p.take(k + 1) =~= q);
    }
}

/// Reads alone never change the snapshot.
proof fn lemma_reads_keep(init: AppSpecificConfig, ops: Seq<StoreOp>)
    requires
        forall|j: int| 0 <= j < ops.len() ==> ops[j] is Read,
    ensures
        snapshot_after(init, ops) == init,
    decreases ops.len(),
{
    if ops.len() > 0 {
        lemma_reads_keep(init, ops.drop_last());
    }
}

/// Reads appended after the first `n` operations leave the snapshot as it was
/// after them.
proof fn lemma_reads_after(init: AppSpecificConfig, ops: Seq<StoreOp>, n: int)
    requires
        0 <= n <= ops.len(),
        forall|j: int| n <= j < ops.len() ==> ops[j] is Read,
    ensures
        snapshot_after(init, ops) == snapshot_after(init, ops.take(n)),
    decreases ops.len(),
{
    if ops.len() > n {
        lemma_reads_after(init, ops.drop_last(), n);
        assert(ops.drop_last().take(n) =~= ops.take(n));
    } else {
        assert(ops.take(n) =~= ops);
    }
}

/// A pushed document that fails to parse leaves the current snapshot as it
/// was, and yields exactly one error to log, carrying the parser's message.
pub proof fn lemma_malformed_push_keeps_snapshot(
    before: AppSpecificConfig,
    detail: String,
    outcome: PushOutcome,
)
    requires
        push_outcome(outcome, Err(detail)),
    ensures
        snapshot_after_push(before, Err(detail)) == before,
        outcome matches PushOutcome::Rejected(e) && e.detail == detail,
{
}

} // verus!
