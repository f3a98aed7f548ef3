//! The gateway's guarantees, stated once over the spec functions that the
//! executable functions' contracts are written against.

use vstd::prelude::*;
use crate::bridge::BodyEvent;
use crate::bridge::all_chunks;
use crate::json::response_json;
use crate::translate::failure_text;
use crate::translate::reply_body;
use crate::translate::reply_status;
use crate::verdict::ScanFailure;
use crate::verdict::ScanVerdict;

verus! {

/// A benign verdict, whatever payload the backend judged, is answered with
/// status 200 and a body whose `virus` field is null.
pub proof fn lemma_benign_verdict_replies_ok()
    ensures
        reply_status(Result::<ScanVerdict, ScanFailure>::Ok(ScanVerdict::Benign)) == 200,
        reply_body(Result::<ScanVerdict, ScanFailure>::Ok(ScanVerdict::Benign)) == response_json(
            Option::<Seq<Seq<char>>>::None,
        ),
{
}

/// A malignant verdict with its non-empty identifier list, whatever payload
/// the backend judged, is answered with status 200 and a body whose `virus`
/// field holds the backend's identifiers unchanged and in the backend's
/// order.
pub proof fn lemma_malignant_verdict_replies_ok(v: ScanVerdict)
    requires
        v is Malignant,
        v.well_formed(),
    ensures
        reply_status(Result::<ScanVerdict, ScanFailure>::Ok(v)) == 200,
        reply_body(Result::<ScanVerdict, ScanFailure>::Ok(v)) == response_json(v.virus_view()),
        v.virus_view() matches Some(ids) && ids.len() > 0,
{
}

/// The wire body never confuses the two verdict kinds: a benign verdict and
/// a malignant one always encode to different bodies.
pub proof fn lemma_verdict_kinds_distinguishable(benign: ScanVerdict, malignant: ScanVerdict)
    requires
        benign is Benign,
        malignant is Malignant,
    ensures
        reply_body(Result::<ScanVerdict, ScanFailure>::Ok(benign)) != reply_body(
            Result::<ScanVerdict, ScanFailure>::Ok(malignant),
        ),
{
    reveal_strlit("{\"virus\":null}");
    reveal_strlit("{\"virus\":[");
    let b = reply_body(Result::<ScanVerdict, ScanFailure>::Ok(benign));
    let m = reply_body(Result::<ScanVerdict, ScanFailure>::Ok(malignant));
    assert(b[9] == 'n');
    assert(m[9] == '[');
}

/// A body stream with a transport failure anywhere in it never counts as a
/// complete body, and the failure is answered with the uniform status-500
/// reply: no truncated body ever earns a success reply.
pub proof fn lemma_truncated_body_is_failure(events: Seq<BodyEvent>, i: int)
    requires
        0 <= i < events.len(),
        events[i] is TransportFailure,
    ensures
        !all_chunks(events),
        reply_status(Result::<ScanVerdict, ScanFailure>::Err(ScanFailure::Transport)) == 500,
        reply_body(Result::<ScanVerdict, ScanFailure>::Err(ScanFailure::Transport))
            == failure_text(),
{
}

/// Every failure kind — transport, connection, protocol — is answered with
/// status 500 and the same uniform body, whatever the payload was: the
/// caller cannot tell the kinds apart and no internal detail leaks.
pub proof fn lemma_any_failure_replies_500(f: ScanFailure)
    ensures
        reply_status(Result::<ScanVerdict, ScanFailure>::Err(f)) == 500,
        reply_body(Result::<ScanVerdict, ScanFailure>::Err(f)) == failure_text(),
{
}

/// The reply is a function of the scan outcome alone: equal outcomes — as
/// from one payload scanned twice against a deterministic backend — earn
/// replies equal in status and body.
pub proof fn lemma_reply_deterministic(
    o1: Result<ScanVerdict, ScanFailure>,
    o2: Result<ScanVerdict, ScanFailure>,
)
    requires
        o1 == o2,
    ensures
        reply_status(o1) == reply_status(o2),
        reply_body(o1) == reply_body(o2),
{
}

} // verus!
