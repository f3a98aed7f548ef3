//! The verdict translator: maps the outcome of one scan attempt — a verdict
//! or a failure — onto an HTTP status and a complete response body. A
//! malignant verdict is a successful scan, so it answers 200 like a benign
//! one; every failure kind collapses to a single 500 reply whose body names
//! no internal detail.

use vstd::prelude::*;
use vstd::string::StringExecFns;
use crate::json::response_json;
use crate::verdict::ScanFailure;
use crate::verdict::ScanVerdict;
use crate::verdict::verdict_to_response;

verus! {

/// One complete HTTP reply: a status code and the full response body.
#[derive(Debug, PartialEq, Eq, Clone)]
pub struct HttpReply {
    pub status: u16,
    pub body: String,
}

/// The status a scan outcome earns: 200 for any completed verdict,
/// 500 for any failure.
pub open spec fn reply_status(outcome: Result<ScanVerdict, ScanFailure>) -> u16 {
    match outcome {
        Ok(_) => 200u16,
        Err(_) => 500u16,
    }
}

/// The uniform body of a failure reply; it carries no internal detail.
pub open spec fn failure_text() -> Seq<char> {
    "scan failed"@
}

/// The body a scan outcome earns: the exact JSON encoding of the verdict,
/// or the uniform failure text.
pub open spec fn reply_body(outcome: Result<ScanVerdict, ScanFailure>) -> Seq<char> {
    match outcome {
        Ok(v) => response_json(v.virus_view()),
        Err(_) => failure_text(),
    }
}

/// Translates one scan outcome into its HTTP reply, exactly as
/// `reply_status` and `reply_body` pin it down.
pub fn translate_outcome(outcome: Result<ScanVerdict, ScanFailure>) -> (r: HttpReply)
    ensures
        r.status == reply_status(outcome),
        r.body@ == reply_body(outcome),
{
    match outcome {
        Ok(v) => {
            let resp = verdict_to_response(v);
            let body = crate::json::encode_response(&resp);
            HttpReply { status: 200, body }
        },
        Err(_) => {
            let mut body = String::new();
            body.append("scan failed");
            HttpReply { status: 500, body }
        },
    }
}

} // verus!
