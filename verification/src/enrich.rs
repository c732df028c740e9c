//! Message enrichment: stamping an inbound payload with its sender.

use crate::envelope::envelope_of;
use crate::envelope::rendered;
use crate::envelope::stamped;
use crate::envelope::Envelope;
use crate::envelope::ParseError;
use crate::payload::Payload;
use crate::payload::PayloadView;
use vstd::prelude::*;

verus! {

/// What enrichment makes of a payload that `id` sent.
///
/// A text payload must hold an envelope; it comes back as the JSON text of
/// that envelope with `id` as its `uid`. Any other payload comes back as it
/// is.
pub open spec fn enriched(payload: PayloadView, id: usize) -> Result<PayloadView, ParseError> {
    match payload {
        PayloadView::Text(text) => match envelope_of(text) {
            Err(e) => Err(e),
            Ok(envelope) => match rendered(stamped(envelope, id)) {
                None => Err(ParseError::Encoding),
                Some(out) => Ok(PayloadView::Text(out)),
            },
        },
        other => Ok(other),
    }
}

/// Stamps an inbound payload with the identity of the connection that sent
/// it.
///
/// A payload that is not text is returned unchanged. A text payload is read
/// as an envelope, given `id` as its `uid` and written back; where that
/// fails the error says why, and the caller is expected to drop the message.
pub fn enrich_results(result: Payload, id: usize) -> (r: Result<Payload, ParseError>)
    ensures
        match r {
            Ok(payload) => enriched(result@, id) == Ok::<PayloadView, ParseError>(payload@),
            Err(e) => enriched(result@, id) == Err::<PayloadView, ParseError>(e),
        },
        !(result@ is Text) ==> r == Ok::<Payload, ParseError>(result),
{
    match result {
        Payload::Text(text) => {
            let envelope = match Envelope::parse(text.as_str()) {
                Ok(envelope) => envelope,
                Err(e) => {
                    return Err(e);
                },
            };
            match envelope.stamp(id).to_json() {
                Ok(out) => Ok(Payload::Text(out)),
                Err(e) => Err(e),
            }
        },
        other => Ok(other),
    }
}

/// Enrichment of a payload that holds an envelope yields, where it yields
/// anything, the envelope with the same name and message and with the
/// sender's identity as `uid`. Whatever `uid` the payload carried plays no
/// part.
pub proof fn enrichment_keeps_name_and_message(text: Seq<char>, id: usize)
    requires
        envelope_of(text) is Ok,
    ensures
        match enriched(PayloadView::Text(text), id) {
            Ok(out) => out is Text && rendered(stamped(envelope_of(text)->Ok_0, id)) == Some(
                out->Text_0,
            ),
            Err(e) => e == ParseError::Encoding,
        },
        stamped(envelope_of(text)->Ok_0, id).uid == Some(id),
        stamped(envelope_of(text)->Ok_0, id).name == envelope_of(text)->Ok_0.name,
        stamped(envelope_of(text)->Ok_0, id).message == envelope_of(text)->Ok_0.message,
{
}

/// A text payload that holds no envelope is never enriched: it yields the
/// reason why it holds none, and no payload.
pub proof fn malformed_text_is_rejected(text: Seq<char>, id: usize)
    requires
        envelope_of(text) is Err,
    ensures
        enriched(PayloadView::Text(text), id) == Err::<PayloadView, ParseError>(
            envelope_of(text)->Err_0,
        ),
{
}

} // verus!
