//! Delivery endpoints: the sending halves of the per-connection queues.

use crate::payload::Payload;
use tokio::sync::mpsc::UnboundedSender;
use vstd::prelude::*;

verus! {

/// `tokio::sync::mpsc::UnboundedSender`, the sending half of an unbounded
/// queue. Nothing inside it is visible to the verifier.
#[verifier::external_type_specification]
#[verifier::external_body]
#[verifier::reject_recursive_types(T)]
pub struct ExUnboundedSender<T>(UnboundedSender<T>);

/// The handle through which payloads are queued for one connection.
pub type Endpoint = UnboundedSender<Payload>;

/// `UnboundedSender::send`: queues `payload` without waiting, and says
/// whether the queue took it. The queue refuses once its receiving half is
/// closed or dropped, which this side cannot foresee, so nothing is claimed
/// of the answer. The call always returns, short of a queue that holds half
/// of `usize::MAX` payloads, at which tokio ends the process.
#[verifier::external_body]
pub(crate) fn enqueue(endpoint: &Endpoint, payload: Payload) -> (accepted: bool) {
    endpoint.send(payload).is_ok()
}

} // verus!
