//! Carrying a batch of deliveries out. Every delivery attempt is isolated:
//! a recipient whose channel has closed never aborts the rest of the batch,
//! it only yields the removal command that lets the session state converge
//! with the disconnect.

use vstd::prelude::*;

use crate::channel::channel_send;
use crate::message::{is_removal_of, removal_for, AppMessage, Delivery, Recipient};

verus! {

/// The removal commands in `failed` correspond one-to-one, in order, to
/// distinct deliveries of the batch: `idx` lists the batch positions whose
/// recipients were gone, strictly ascending, and the command at each
/// position removes exactly the recipient of the delivery it answers for.
pub open spec fn removals_match_batch(
    failed: Seq<AppMessage>,
    dels: Seq<Delivery>,
    idx: Seq<int>,
) -> bool {
    &&& idx.len() == failed.len()
    &&& forall|k: int|
        0 <= k < idx.len() ==> 0 <= #[trigger] idx[k] < dels.len() && is_removal_of(
            failed[k],
            dels[idx[k]].to,
        )
    &&& forall|k1: int, k2: int| 0 <= k1 < k2 < idx.len() ==> idx[k1] < idx[k2]
}

/// Attempts every delivery in the batch, regardless of earlier failures,
/// and returns the removal commands of the recipients whose channels were
/// gone — one per failed delivery, in batch order, and nothing else.
pub fn dispatch_deliveries(dels: Vec<Delivery>) -> (failed: Vec<AppMessage>)
    ensures
        failed@.len() <= dels@.len(),
        exists|idx: Seq<int>| removals_match_batch(failed@, dels@, idx),
{
    let ghost orig = dels@;
    let ghost mut idxs: Seq<int> = Seq::empty();
    let mut rest = dels;
    let mut failed: Vec<AppMessage> = Vec::new();
    while rest.len() > 0
        invariant
            rest@.len() <= orig.len(),
            failed@.len() <= orig.len() - rest@.len(),
            forall|j: int|
                0 <= j < rest@.len() ==> rest@[j] == orig[orig.len() - rest@.len() + j],
            removals_match_batch(failed@, orig, idxs),
            forall|k: int| 0 <= k < idxs.len() ==> #[trigger] idxs[k] < orig.len() - rest@.len(),
        decreases rest@.len(),
    {
        let ghost at = orig.len() - rest@.len();
        let d = rest.remove(0);
        proof {
            assert(d == orig[at]);
        }
        let Delivery { to, message } = d;
        let ok = match &to {
            Recipient::Client { tx, .. } => channel_send(tx, message),
            Recipient::Member { player } => channel_send(&player.tx, message),
            Recipient::Channel { tx } => channel_send(tx, message),
        };
        if !ok {
            match removal_for(to) {
                Some(m) => {
                    let ghost gm = m;
                    failed.push(m);
                    proof {
                        assert(failed@.last() == gm);
                        assert(is_removal_of(gm, orig[at].to));
                        idxs = idxs.push(at);
                    }
                },
                None => {},
            }
        }
    }
    proof {
        assert(removals_match_batch(failed@, dels@, idxs));
    }
    failed
}

/// Self-enqueues a batch of follow-up commands onto the actor's own queue.
/// They go to the back of the same queue, never inline; when the actor's
/// receiving half is already gone the commands are dropped, as the whole
/// session is shutting down.
pub fn enqueue_all(tx: &tokio::sync::mpsc::UnboundedSender<AppMessage>, msgs: Vec<AppMessage>) {
    let mut rest = msgs;
    while rest.len() > 0
        decreases rest@.len(),
    {
        let m = rest.remove(0);
        let _ = channel_send(tx, m);
    }
}

} // verus!
