//! What the ingestion endpoint answers to a program that sends a log message.
use vstd::prelude::*;

verus! {

/// What became of a log message sent to the endpoint.
pub enum IngestOutcome {
    /// The body was not a valid message; the reason.
    Malformed(String),
    /// The message could not be handed on for storage; the reason.
    Undelivered(String),
    /// The message was handed on for storage.
    Delivered,
}

/// The endpoint's answer: the reason when the message was malformed or could
/// not be handed on, else the empty text.
pub fn ingest_reply(outcome: IngestOutcome) -> (r: String)
    ensures
        r@ == match outcome {
            IngestOutcome::Malformed(reason) => reason@,
            IngestOutcome::Undelivered(reason) => reason@,
            IngestOutcome::Delivered => Seq::<char>::empty(),
        },
{
    match outcome {
        IngestOutcome::Malformed(reason) => reason,
        IngestOutcome::Undelivered(reason) => reason,
        IngestOutcome::Delivered => String::new(),
    }
}

} // verus!
