use vstd::prelude::*;
use crate::admin::can_update;
use crate::authorization::BurnRole;
use crate::error::ContractError;
use crate::ledger::{Collection, CollectionView};
use crate::types::{Block, TransferOperation};

verus! {

/// A batch holds fewer ids than this.
pub const BATCH_LIMIT: usize = 30;

/// The single-item operation a batch repeats.
#[derive(Debug, Clone, PartialEq, Eq)]
pub enum BatchOp {
    Burn,
    Pledge,
    Transfer { recipient: String, block: Block },
}

/// The per-item outcomes of a batch, in the order of its ids.
#[derive(Debug, Clone, PartialEq, Eq)]
pub struct BatchOutcome {
    pub succeeded: Vec<u128>,
    pub failed: Vec<(u128, ContractError)>,
}

/// The state after a batch, and its per-item outcomes.
pub struct BatchRun {
    pub state: CollectionView,
    pub succeeded: Seq<u128>,
    pub failed: Seq<(u128, ContractError)>,
}

/// The ids of the failed items of a run.
pub open spec fn failed_ids(failed: Seq<(u128, ContractError)>) -> Seq<u128> {
    failed.map_values(|p: (u128, ContractError)| p.0)
}

/// The refusal of a batch of `len` ids for its size, if any.
pub open spec fn batch_size_refusal(len: usize) -> Option<ContractError> {
    if len >= BATCH_LIMIT {
        Some(ContractError::RequestTooLarge { size: len })
    } else if len == 0 {
        Some(ContractError::RequestTooSmall { size: len })
    } else {
        None
    }
}

impl CollectionView {
    /// One step of a batch of `op` on item `id`.
    pub open spec fn op_step(self, op: BatchOp, id: u128, caller: String) -> (CollectionView, Result<(), ContractError>) {
        match op {
            BatchOp::Burn => {
                let (s, r) = self.burn_step(id, caller);
                (s, match r {
                    Ok(_) => Ok(()),
                    Err(e) => Err(e),
                })
            },
            BatchOp::Pledge => self.pledge_step(id, caller),
            BatchOp::Transfer { recipient, block } => self.transfer_step(id, caller, recipient, block),
        }
    }

    /// A batch of `op` over `ids`, partial-continue: each item is tried in
    /// turn on the state the earlier ones left; a failure is recorded with
    /// its id and the next item is tried.
    pub open spec fn run_batch(self, op: BatchOp, ids: Seq<u128>, caller: String) -> BatchRun
        decreases ids.len(),
    {
        if ids.len() == 0 {
            BatchRun { state: self, succeeded: Seq::empty(), failed: Seq::empty() }
        } else {
            let before = self.run_batch(op, ids.drop_last(), caller);
            let id = ids.last();
            let (s, r) = before.state.op_step(op, id, caller);
            match r {
                Ok(_) => BatchRun { state: s, succeeded: before.succeeded.push(id), failed: before.failed },
                Err(e) => BatchRun { state: s, succeeded: before.succeeded, failed: before.failed.push((id, e)) },
            }
        }
    }

    /// Whether item `id` shows the effect of `op`: burnt (gone, with a
    /// tombstone), pledged, or owned by the recipient without approvals.
    pub open spec fn applied(self, op: BatchOp, id: u128) -> bool {
        match op {
            BatchOp::Burn => !self.tokens.contains_key(id) && self.burned.contains_key(id) && self.burned[id],
            BatchOp::Pledge => self.pledged.contains_key(id),
            BatchOp::Transfer { recipient, block } => self.tokens.contains_key(id) && self.tokens[id].owner == recipient
                && !self.approvals.contains_key(id),
        }
    }
}

/// One step of a batch touches only its own item; a failed step changes
/// nothing, and a successful one shows its effect.
pub proof fn lemma_op_step_frame(s: CollectionView, op: BatchOp, id: u128, caller: String)
    ensures
        forall|y: u128| y != id ==> (#[trigger] s.op_step(op, id, caller).0.item(y)) == s.item(y),
        s.op_step(op, id, caller).1 is Err ==> s.op_step(op, id, caller).0 == s,
        s.op_step(op, id, caller).1 is Ok ==> s.op_step(op, id, caller).0.applied(op, id),
{
}

/// Items whose ids a batch does not name keep their state.
pub proof fn lemma_run_batch_untouched(s: CollectionView, op: BatchOp, ids: Seq<u128>, caller: String, y: u128)
    requires
        !ids.contains(y),
    ensures
        s.run_batch(op, ids, caller).state.item(y) == s.item(y),
    decreases ids.len(),
{
    if ids.len() > 0 {
        assert(!ids.drop_last().contains(y)) by {
            if ids.drop_last().contains(y) {
                let k = choose|k: int| 0 <= k < ids.drop_last().len() && ids.drop_last()[k] == y;
                assert(ids[k] == y);
            }
        }
        lemma_run_batch_untouched(s, op, ids.drop_last(), caller, y);
        let before = s.run_batch(op, ids.drop_last(), caller);
        lemma_op_step_frame(before.state, op, ids.last(), caller);
        assert(ids.last() != y);
    }
}

/// Partial-continue semantics of a batch over distinct ids: every id ends up
/// in exactly one of the two lists, and no other id does; each item in the
/// success list shows the effect of the operation; each item in the failure
/// list is as it was before the batch.
pub proof fn lemma_partial_continue(s: CollectionView, op: BatchOp, ids: Seq<u128>, caller: String)
    requires
        ids.no_duplicates(),
    ensures
        ({
            let run = s.run_batch(op, ids, caller);
            &&& run.succeeded.len() + run.failed.len() == ids.len()
            &&& forall|i: int| 0 <= i < ids.len() ==> (run.succeeded.contains(#[trigger] ids[i]) <==> !failed_ids(run.failed).contains(ids[i]))
            &&& forall|j: int| 0 <= j < run.succeeded.len() ==> ids.contains(#[trigger] run.succeeded[j]) && run.state.applied(op, run.succeeded[j])
            &&& forall|j: int|
                0 <= j < run.failed.len() ==> ids.contains(#[trigger] run.failed[j].0) && run.state.item(run.failed[j].0) == s.item(run.failed[j].0)
        }),
    decreases ids.len(),
{
    if ids.len() > 0 {
        let prefix = ids.drop_last();
        let id = ids.last();
        assert(prefix.no_duplicates());
        lemma_partial_continue(s, op, prefix, caller);
        let before = s.run_batch(op, prefix, caller);
        let run = s.run_batch(op, ids, caller);
        lemma_op_step_frame(before.state, op, id, caller);
        assert(!prefix.contains(id)) by {
            if prefix.contains(id) {
                let k = choose|k: int| 0 <= k < prefix.len() && prefix[k] == id;
                assert(ids[k] == ids[ids.len() - 1]);
            }
        }
        lemma_run_batch_untouched(s, op, prefix, caller, id);
        assert(!before.succeeded.contains(id)) by {
            if before.succeeded.contains(id) {
                let k = choose|k: int| 0 <= k < before.succeeded.len() && before.succeeded[k] == id;
                assert(prefix.contains(before.succeeded[k]));
            }
        }
        assert(!failed_ids(before.failed).contains(id)) by {
            if failed_ids(before.failed).contains(id) {
                let k = choose|k: int| 0 <= k < failed_ids(before.failed).len() && failed_ids(before.failed)[k] == id;
                assert(prefix.contains(before.failed[k].0));
            }
        }
        assert forall|i: int| 0 <= i < ids.len() implies (run.succeeded.contains(#[trigger] ids[i]) <==> !failed_ids(run.failed).contains(ids[i])) by {
            if i < ids.len() - 1 {
                assert(prefix[i] == ids[i]);
                assert(ids[i] != id);
                if run.succeeded.contains(ids[i]) {
                    let k = choose|k: int| 0 <= k < run.succeeded.len() && run.succeeded[k] == ids[i];
                    if k < before.succeeded.len() {
                        assert(before.succeeded[k] == ids[i]);
                    }
                }
                if failed_ids(run.failed).contains(ids[i]) {
                    let k = choose|k: int| 0 <= k < failed_ids(run.failed).len() && failed_ids(run.failed)[k] == ids[i];
                    if k < before.failed.len() {
                        assert(failed_ids(before.failed)[k] == ids[i]);
                    }
                }
                if before.succeeded.contains(ids[i]) {
                    let k = choose|k: int| 0 <= k < before.succeeded.len() && before.succeeded[k] == ids[i];
                    assert(run.succeeded[k] == ids[i]);
                }
                if failed_ids(before.failed).contains(ids[i]) {
                    let k = choose|k: int| 0 <= k < failed_ids(before.failed).len() && failed_ids(before.failed)[k] == ids[i];
                    assert(failed_ids(run.failed)[k] == ids[i]);
                }
            } else {
                if run.succeeded.contains(id) {
                    let k = choose|k: int| 0 <= k < run.succeeded.len() && run.succeeded[k] == id;
                    if k < before.succeeded.len() {
                        assert(before.succeeded[k] == id);
                    }
                }
                if failed_ids(run.failed).contains(id) {
                    let k = choose|k: int| 0 <= k < failed_ids(run.failed).len() && failed_ids(run.failed)[k] == id;
                    if k < before.failed.len() {
                        assert(failed_ids(before.failed)[k] == id);
                    }
                }
                if before.state.op_step(op, id, caller).1 is Ok {
                    assert(run.succeeded[run.succeeded.len() - 1] == id);
                } else {
                    assert(failed_ids(run.failed)[run.failed.len() - 1] == id);
                }
            }
        }
        assert forall|j: int| 0 <= j < run.succeeded.len() implies ids.contains(#[trigger] run.succeeded[j]) && run.state.applied(op, run.succeeded[j]) by {
            if j < before.succeeded.len() {
                assert(run.succeeded[j] == before.succeeded[j]);
                let y = before.succeeded[j];
                let k = choose|k: int| 0 <= k < prefix.len() && prefix[k] == y;
                assert(ids[k] == y);
                assert(y != id);
                assert(run.state.item(y) == before.state.item(y));
            } else {
                assert(ids[ids.len() - 1] == id);
            }
        }
        assert forall|j: int| 0 <= j < run.failed.len() implies ids.contains(#[trigger] run.failed[j].0) && run.state.item(run.failed[j].0) == s.item(
            run.failed[j].0,
        ) by {
            if j < before.failed.len() {
                assert(run.failed[j] == before.failed[j]);
                let y = before.failed[j].0;
                let k = choose|k: int| 0 <= k < prefix.len() && prefix[k] == y;
                assert(ids[k] == y);
                assert(y != id);
                assert(run.state.item(y) == before.state.item(y));
            } else {
                assert(ids[ids.len() - 1] == id);
            }
        }
    }
}

/// The ids of `ids` that `out` does not hold, in order.
pub open spec fn ids_without(ids: Seq<u128>, out: Seq<u128>) -> Seq<u128>
    decreases ids.len(),
{
    if ids.len() == 0 {
        Seq::empty()
    } else {
        let rest = ids_without(ids.drop_last(), out);
        if out.contains(ids.last()) {
            rest
        } else {
            rest.push(ids.last())
        }
    }
}

/// The ids of `ids` that `out` holds, in order.
pub open spec fn ids_within(ids: Seq<u128>, out: Seq<u128>) -> Seq<u128>
    decreases ids.len(),
{
    if ids.len() == 0 {
        Seq::empty()
    } else {
        let rest = ids_within(ids.drop_last(), out);
        if out.contains(ids.last()) {
            rest.push(ids.last())
        } else {
            rest
        }
    }
}

/// An id that `ids` does not name makes no difference to either selection.
proof fn lemma_select_extra(ids: Seq<u128>, out: Seq<u128>, id: u128)
    requires
        !ids.contains(id),
    ensures
        ids_without(ids, out.push(id)) == ids_without(ids, out),
        ids_within(ids, out.push(id)) == ids_within(ids, out),
    decreases ids.len(),
{
    if ids.len() > 0 {
        assert(!ids.drop_last().contains(id)) by {
            if ids.drop_last().contains(id) {
                let k = choose|k: int| 0 <= k < ids.drop_last().len() && ids.drop_last()[k] == id;
                assert(ids[k] == id);
            }
        }
        lemma_select_extra(ids.drop_last(), out, id);
        let x = ids.last();
        assert(x != id);
        assert(out.push(id).contains(x) == out.contains(x)) by {
            if out.push(id).contains(x) {
                let k = choose|k: int| 0 <= k < out.push(id).len() && out.push(id)[k] == x;
                assert(out[k] == x);
            }
            if out.contains(x) {
                let k = choose|k: int| 0 <= k < out.len() && out[k] == x;
                assert(out.push(id)[k] == x);
            }
        }
    }
}

/// The order of a partial-continue batch over distinct ids: the success list
/// is the batch's ids without the failed ones, in the batch's order, and the
/// failure list names the failed ids in the batch's order.
pub proof fn lemma_partial_continue_order(s: CollectionView, op: BatchOp, ids: Seq<u128>, caller: String)
    requires
        ids.no_duplicates(),
    ensures
        ({
            let run = s.run_batch(op, ids, caller);
            &&& run.succeeded == ids_without(ids, failed_ids(run.failed))
            &&& failed_ids(run.failed) == ids_within(ids, failed_ids(run.failed))
        }),
    decreases ids.len(),
{
    if ids.len() > 0 {
        let prefix = ids.drop_last();
        let id = ids.last();
        assert(prefix.no_duplicates());
        lemma_partial_continue_order(s, op, prefix, caller);
        lemma_partial_continue(s, op, prefix, caller);
        let before = s.run_batch(op, prefix, caller);
        let run = s.run_batch(op, ids, caller);
        let out_b = failed_ids(before.failed);
        assert(!prefix.contains(id)) by {
            if prefix.contains(id) {
                let k = choose|k: int| 0 <= k < prefix.len() && prefix[k] == id;
                assert(ids[k] == ids[ids.len() - 1]);
            }
        }
        assert(!out_b.contains(id)) by {
            if out_b.contains(id) {
                let k = choose|k: int| 0 <= k < out_b.len() && out_b[k] == id;
                assert(prefix.contains(before.failed[k].0));
            }
        }
        if before.state.op_step(op, id, caller).1 is Ok {
            assert(run.failed == before.failed);
        } else {
            let e = before.state.op_step(op, id, caller).1->Err_0;
            assert(run.failed == before.failed.push((id, e)));
            assert(failed_ids(run.failed) =~= out_b.push(id));
            lemma_select_extra(prefix, out_b, id);
            assert(out_b.push(id).contains(id)) by {
                assert(out_b.push(id)[out_b.len() as int] == id);
            }
        }
    }
}

/// A burn batch never changes which ids are pledged.
pub proof fn lemma_burn_batch_keeps_pledges(s: CollectionView, ids: Seq<u128>, caller: String)
    ensures
        s.run_batch(BatchOp::Burn, ids, caller).state.pledged == s.pledged,
    decreases ids.len(),
{
    if ids.len() > 0 {
        lemma_burn_batch_keeps_pledges(s, ids.drop_last(), caller);
    }
}

/// In a burn batch, an id without a pledge fails with `TokenNotPledged`
/// wherever it stands and however often, whoever owns it and whatever the
/// burn policy says, and what the collection records of it is unchanged.
pub proof fn lemma_burn_batch_needs_pledge(s: CollectionView, ids: Seq<u128>, caller: String, t: u128)
    requires
        ids.contains(t),
        !s.pledged.contains_key(t),
    ensures
        s.run_batch(BatchOp::Burn, ids, caller).failed.contains((t, ContractError::TokenNotPledged { token_id: t })),
        s.run_batch(BatchOp::Burn, ids, caller).state.item(t) == s.item(t),
    decreases ids.len(),
{
    let prefix = ids.drop_last();
    let id = ids.last();
    let before = s.run_batch(BatchOp::Burn, prefix, caller);
    let run = s.run_batch(BatchOp::Burn, ids, caller);
    let entry = (t, ContractError::TokenNotPledged { token_id: t });
    lemma_burn_batch_keeps_pledges(s, prefix, caller);
    lemma_op_step_frame(before.state, BatchOp::Burn, id, caller);
    if prefix.contains(t) {
        lemma_burn_batch_needs_pledge(s, prefix, caller, t);
        let k = choose|k: int| 0 <= k < before.failed.len() && before.failed[k] == entry;
        assert(run.failed[k] == entry);
        if id == t {
            assert(run.state == before.state);
        }
    } else {
        assert(id == t) by {
            let k = choose|k: int| 0 <= k < ids.len() && ids[k] == t;
            if k < ids.len() - 1 {
                assert(prefix[k] == t);
            }
        }
        lemma_run_batch_untouched(s, BatchOp::Burn, prefix, caller, t);
        assert(run.failed[run.failed.len() - 1] == entry);
    }
}

impl Collection {
    /// Runs one step of a batch of `op` on item `id`.
    fn op_step(&mut self, op: &BatchOp, id: u128, caller: &String) -> (r: Result<(), ContractError>)
        ensures
            (final(self)@, r) == old(self)@.op_step(*op, id, *caller),
    {
        match op {
            BatchOp::Burn => match self.burn_and_update(id, caller) {
                Ok(_) => Ok(()),
                Err(e) => Err(e),
            },
            BatchOp::Pledge => self.pledge_token(id, caller),
            BatchOp::Transfer { recipient, block } => self.transfer_nft(id, caller, recipient, block),
        }
    }

    /// Runs a batch of `op` over `ids`, partial-continue.
    pub fn run_batch(&mut self, op: &BatchOp, ids: &Vec<u128>, caller: &String) -> (r: BatchOutcome)
        ensures
            final(self)@ == old(self)@.run_batch(*op, ids@, *caller).state,
            r.succeeded@ == old(self)@.run_batch(*op, ids@, *caller).succeeded,
            r.failed@ == old(self)@.run_batch(*op, ids@, *caller).failed,
    {
        let mut succeeded: Vec<u128> = Vec::new();
        let mut failed: Vec<(u128, ContractError)> = Vec::new();
        let mut i: usize = 0;
        proof {
            assert(ids@.take(0) =~= Seq::<u128>::empty());
        }
        while i < ids.len()
            invariant
                0 <= i <= ids@.len(),
                self@ == old(self)@.run_batch(*op, ids@.take(i as int), *caller).state,
                succeeded@ == old(self)@.run_batch(*op, ids@.take(i as int), *caller).succeeded,
                failed@ == old(self)@.run_batch(*op, ids@.take(i as int), *caller).failed,
            decreases ids@.len() - i,
        {
            let id = ids[i];
            proof {
                assert(ids@.take(i + 1).drop_last() =~= ids@.take(i as int));
                assert(ids@.take(i + 1).last() == id);
            }
            match self.op_step(op, id, caller) {
                Ok(()) => succeeded.push(id),
                Err(e) => failed.push((id, e)),
            }
            i = i + 1;
        }
        proof {
            assert(ids@.take(ids@.len() as int) =~= ids@);
        }
        BatchOutcome { succeeded, failed }
    }
}

/// Refuses a batch of `len` ids that is empty or not under the limit.
pub fn check_batch_size(len: usize) -> (r: Result<(), ContractError>)
    ensures
        match batch_size_refusal(len) {
            Some(e) => r == Err::<(), ContractError>(e),
            None => r is Ok,
        },
{
    if len >= BATCH_LIMIT {
        return Err(ContractError::RequestTooLarge { size: len });
    }
    if len == 0 {
        return Err(ContractError::RequestTooSmall { size: len });
    }
    Ok(())
}

/// What a batch of `op` over `ids` on behalf of `caller` leaves, and what it
/// returns: an empty or oversized batch is refused untouched; otherwise the
/// batch runs partial-continue.
pub open spec fn batch_post(
    before: CollectionView,
    after: CollectionView,
    r: Result<BatchOutcome, ContractError>,
    op: BatchOp,
    ids: Seq<u128>,
    caller: String,
) -> bool {
    match batch_size_refusal(ids.len() as usize) {
        Some(e) => r == Err::<BatchOutcome, ContractError>(e) && after == before,
        None => r is Ok && {
            let run = before.run_batch(op, ids, caller);
            &&& after == run.state
            &&& r->Ok_0.succeeded@ == run.succeeded
            &&& r->Ok_0.failed@ == run.failed
        },
    }
}

/// Pledges the items `tokens` for burning on behalf of `sender`,
/// partial-continue; an empty or oversized batch is refused untouched.
pub fn execute_pledge(state: &mut Collection, sender: &String, tokens: &Vec<u128>) -> (r: Result<BatchOutcome, ContractError>)
    ensures
        batch_post(old(state)@, final(state)@, r, BatchOp::Pledge, tokens@, *sender),
{
    check_batch_size(tokens.len())?;
    Ok(state.run_batch(&BatchOp::Pledge, tokens, sender))
}

/// Burns one item on behalf of `sender`: it must be pledged, exist, and the
/// burn policy must allow `sender` to burn it. Returns the path taken.
pub fn execute_burn(state: &mut Collection, sender: &String, token_id: u128) -> (r: Result<BurnRole, ContractError>)
    ensures
        (final(state)@, r) == old(state)@.burn_step(token_id, *sender),
{
    state.burn_and_update(token_id, sender)
}

/// Burns the items `tokens` on behalf of `sender`, partial-continue; an
/// empty or oversized batch is refused untouched.
pub fn execute_burn_batch(state: &mut Collection, sender: &String, tokens: &Vec<u128>) -> (r: Result<BatchOutcome, ContractError>)
    ensures
        batch_post(old(state)@, final(state)@, r, BatchOp::Burn, tokens@, *sender),
{
    check_batch_size(tokens.len())?;
    Ok(state.run_batch(&BatchOp::Burn, tokens, sender))
}

/// The administrator burns the items `tokens` on behalf of `owner`.
pub fn execute_remote_burn_batch(state: &mut Collection, sender: &String, tokens: &Vec<u128>, owner: &String) -> (r: Result<
    BatchOutcome,
    ContractError,
>)
    ensures
        sender@ != old(state)@.minter@ ==> r == Err::<BatchOutcome, ContractError>(ContractError::Unauthorized)
            && final(state)@ == old(state)@,
        sender@ == old(state)@.minter@ ==> batch_post(old(state)@, final(state)@, r, BatchOp::Burn, tokens@, *owner),
{
    can_update(state, sender)?;
    execute_burn_batch(state, owner, tokens)
}

/// Transfers the items of `transfer` to its recipient on behalf of
/// `sender`, partial-continue; an empty or oversized batch is refused
/// untouched.
pub fn execute_transfer_batch(state: &mut Collection, sender: &String, transfer: &TransferOperation, block: &Block) -> (r: Result<
    BatchOutcome,
    ContractError,
>)
    ensures
        batch_post(
            old(state)@,
            final(state)@,
            r,
            BatchOp::Transfer { recipient: transfer.recipient, block: *block },
            transfer.tokens@,
            *sender,
        ),
{
    check_batch_size(transfer.tokens.len())?;
    let op = BatchOp::Transfer { recipient: transfer.recipient.clone(), block: *block };
    Ok(state.run_batch(&op, &transfer.tokens, sender))
}

} // verus!
