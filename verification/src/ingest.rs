//! Purchase update ingestion: unsolicited batches of transaction records
//! and standalone error notifications pushed by a native backend are held
//! against the data model. A malformed event is dropped — there is no
//! original caller to answer — and every well-formed event is kept, in
//! arrival order.

use vstd::prelude::*;

use crate::models::IAPError;
use crate::models::PurchaseDetails;
use crate::models::PurchaseDetailsView;
use crate::models::purchase_views;

verus! {

/// The events of a batch that satisfy the data-model invariant, in arrival
/// order.
pub open spec fn accepted_updates(evs: Seq<PurchaseDetailsView>) -> Seq<PurchaseDetailsView> {
    evs.filter(|e: PurchaseDetailsView| e.wf())
}

/// Admits one pushed transaction record into the data model.
pub fn accept_purchase_update(event: PurchaseDetails) -> (r: Option<PurchaseDetails>)
    ensures
        event@.wf() ==> r == Some(event),
        !event@.wf() ==> r is None,
{
    if event.well_formed() {
        Some(event)
    } else {
        None
    }
}

/// Admits a pushed batch of transaction records: the well-formed events
/// are kept in arrival order, the malformed ones are counted and dropped.
pub fn ingest_purchase_updates(batch: Vec<PurchaseDetails>) -> (r: (Vec<PurchaseDetails>, usize))
    ensures
        purchase_views(r.0@) == accepted_updates(purchase_views(batch@)),
        r.1 + r.0@.len() == batch@.len(),
{
    let ghost evs = purchase_views(batch@);
    let mut kept: Vec<PurchaseDetails> = Vec::new();
    let mut dropped: usize = 0;
    let mut k: usize = 0;
    proof {
        reveal(Seq::filter);
        assert(evs.take(0) =~= Seq::<PurchaseDetailsView>::empty());
        assert(purchase_views(kept@) =~= accepted_updates(evs.take(0)));
    }
    while k < batch.len()
        invariant
            k <= batch@.len(),
            evs == purchase_views(batch@),
            purchase_views(kept@) == accepted_updates(evs.take(k as int)),
            dropped + kept@.len() == k,
        decreases batch@.len() - k,
    {
        proof {
            reveal(Seq::filter);
            assert(evs.take(k + 1).drop_last() =~= evs.take(k as int));
            assert(evs.take(k + 1).last() == evs[k as int]);
        }
        if batch[k].well_formed() {
            let event = batch[k].clone();
            kept.push(event);
            proof {
                assert(purchase_views(kept@) =~= accepted_updates(evs.take(k as int)).push(
                    evs[k as int],
                ));
            }
        } else {
            dropped += 1;
            proof {
                assert(accepted_updates(evs.take(k + 1)) =~= accepted_updates(evs.take(k as int)));
            }
        }
        k += 1;
    }
    proof {
        assert(evs.take(batch@.len() as int) =~= evs);
    }
    (kept, dropped)
}

/// Admits one pushed error notification: a payload whose code falls outside
/// the taxonomy is dropped.
pub fn accept_error_event(event: IAPError) -> (r: Option<IAPError>)
    ensures
        event@.wf() ==> r == Some(event),
        !event@.wf() ==> r is None,
{
    if event.well_formed() {
        Some(event)
    } else {
        None
    }
}

} // verus!
