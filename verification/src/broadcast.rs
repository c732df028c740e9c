//! The broadcast engine: one payload to every registered endpoint.

use crate::channel::enqueue;
use crate::channel::Endpoint;
use crate::enrich::enrich_results;
use crate::enrich::enriched;
use crate::envelope::ParseError;
use crate::payload::Payload;
use crate::payload::PayloadView;
use crate::registry::lists_each_once;
use crate::registry::Registry;
use vstd::prelude::*;

verus! {

/// What one broadcast did.
#[derive(Clone, Debug, PartialEq, Eq)]
pub struct BroadcastReport {
    /// The identities whose endpoints took the payload, in the order in
    /// which they were tried.
    pub delivered: Vec<usize>,
    /// The identity whose endpoint refused the payload, which ended the
    /// broadcast. `None` where no endpoint refused.
    pub refused: Option<usize>,
}

impl BroadcastReport {
    /// The number of endpoints that the broadcast tried.
    pub open spec fn attempts(&self) -> nat {
        self.delivered@.len() + if self.refused is Some {
            1nat
        } else {
            0nat
        }
    }

    /// The report of a broadcast that has tried nothing yet.
    pub fn new() -> (report: BroadcastReport)
        ensures
            report.delivered@ == Seq::<usize>::empty(),
            report.refused is None,
    {
        BroadcastReport { delivered: Vec::new(), refused: None }
    }

    /// Notes the answer of the endpoint of `id`: it joins the delivered
    /// where its endpoint took the payload, and is the refusing one where
    /// it did not.
    pub fn record(self, id: usize, accepted: bool) -> (report: BroadcastReport)
        ensures
            accepted ==> report.delivered@ == self.delivered@.push(id) && report.refused
                == self.refused,
            !accepted ==> report.delivered@ == self.delivered@ && report.refused == Some(id),
    {
        let mut report = self;
        if accepted {
            report.delivered.push(id);
        } else {
            report.refused = Some(id);
        }
        report
    }

    /// Whether every endpoint that was tried took the payload.
    pub fn is_complete(&self) -> (complete: bool)
        ensures
            complete == (self.refused is None),
    {
        self.refused.is_none()
    }
}

/// What the report of a broadcast of a text payload to `users` looks like.
///
/// Every identity in the report is registered, and none is tried twice.
/// Where no endpoint refused, the delivered are exactly the registered
/// identities. Where one refused, the broadcast ended with it.
pub open spec fn fans_out(report: BroadcastReport, users: Map<usize, Endpoint>) -> bool {
    &&& report.delivered@.no_duplicates()
    &&& forall|i: int|
        0 <= i < report.delivered@.len() ==> users.contains_key(#[trigger] report.delivered@[i])
    &&& match report.refused {
        Some(id) => users.contains_key(id) && !report.delivered@.contains(id),
        None => report.delivered@.to_set() == users.dom() && report.delivered@.len()
            == users.dom().len(),
    }
}

/// Queues a copy of `msg` on the endpoint of every registered identity, the
/// sender's own included, and reports which endpoints took it.
///
/// Only a text payload is broadcast: for any other nothing is tried. The
/// broadcast ends at the first endpoint that refuses; the endpoints not yet
/// tried are then left out. Whether an endpoint refuses is not for this side
/// to know, so the contract says what holds either way.
pub fn broadcast_msg(msg: &Payload, users: &Registry) -> (report: BroadcastReport)
    ensures
        !(msg@ is Text) ==> report.delivered@.len() == 0 && report.refused is None,
        msg@ is Text ==> fans_out(report, users@),
        msg@ is Text && report.refused is None ==> report.attempts() == users@.dom().len(),
{
    let mut report = BroadcastReport::new();
    if !msg.is_text() {
        return report;
    }
    let entries = users.snapshot();
    let mut i: usize = 0;
    while i < entries.len()
        invariant
            i <= entries.len(),
            msg@ is Text,
            lists_each_once(entries@, users@),
            report.refused is None,
            report.delivered@.len() == i,
            forall|j: int| 0 <= j < i ==> (#[trigger] report.delivered@[j]) == entries@[j].0,
        decreases entries.len() - i,
    {
        let (id, endpoint) = entries[i];
        let accepted = enqueue(endpoint, msg.duplicate());
        report = report.record(id, accepted);
        if !accepted {
            assert(!report.delivered@.contains(id)) by {
                if report.delivered@.contains(id) {
                    let j = choose|j: int|
                        0 <= j < report.delivered@.len() && report.delivered@[j] == id;
                    assert(entries@[j].0 == entries@[i as int].0);
                }
            }
            return report;
        }
        i += 1;
    }
    proof {
        let delivered = report.delivered@;
        assert forall|id: usize| users@.dom().contains(id) implies delivered.to_set().contains(
            id,
        ) by {
            let j = choose|j: int| 0 <= j < entries@.len() && (#[trigger] entries@[j]).0 == id;
            assert(delivered[j] == id);
        }
        assert(delivered.to_set() =~= users@.dom());
    }
    report
}

/// What became of an inbound frame.
#[derive(Clone, Debug, PartialEq, Eq)]
pub enum Relayed {
    /// The frame was dropped, for the reason given. Nothing was queued
    /// anywhere.
    Dropped(ParseError),
    /// The frame was enriched to `payload`, which was handed to the
    /// broadcast that `report` describes.
    Broadcast { payload: Payload, report: BroadcastReport },
}

/// Handles one frame that the connection `sender` has read: enriches it
/// and broadcasts the result.
///
/// A text frame that holds no envelope is dropped: it reaches no endpoint.
/// Otherwise the enriched payload goes to [`broadcast_msg`]. A sender that
/// is registered is among the targets, so that it gets its own message back
/// unless an endpoint refuses.
pub fn relay_frame(frame: Payload, sender: usize, users: &Registry) -> (outcome: Relayed)
    ensures
        match enriched(frame@, sender) {
            Err(e) => outcome == Relayed::Dropped(e),
            Ok(enrichment) => outcome matches Relayed::Broadcast { payload, report }
                && payload@ == enrichment && (payload@ is Text ==> fans_out(report, users@)) && (!(
            payload@ is Text) ==> report.delivered@.len() == 0 && report.refused is None),
        },
        outcome matches Relayed::Broadcast { payload, report } ==> (payload@ is Text
            && report.refused is None && users@.contains_key(sender)
            ==> report.delivered@.contains(sender)),
{
    match enrich_results(frame, sender) {
        Err(e) => Relayed::Dropped(e),
        Ok(payload) => {
            let report = broadcast_msg(&payload, users);
            proof {
                if payload@ is Text && report.refused is None && users@.contains_key(sender) {
                    assert(report.delivered@.to_set().contains(sender));
                }
            }
            Relayed::Broadcast { payload, report }
        },
    }
}

} // verus!
