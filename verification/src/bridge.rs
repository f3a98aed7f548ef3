//! The streaming bridge, modelled on plain values: an HTTP request body is a
//! finite sequence of events, each either a chunk of bytes or a transport
//! failure (connection reset, timeout, malformed framing). The bridge
//! forwards chunks downstream in arrival order, exactly once each, and turns
//! any transport failure into a stream error instead of silent truncation.
//!
//! The server adapts its body stream chunk by chunk; `collect_body` is the
//! same decision logic run over a whole recorded body, and is what the
//! contracts and the backend doubles in the tests are stated against.
//!
//! Two deliberate decisions: an empty body is a complete body, bridged as
//! the empty byte stream and scanned like any other payload; and no size
//! cap is enforced, a body of any length is forwarded in full.

use vstd::prelude::*;
use crate::verdict::ScanFailure;

verus! {

/// One event of a request body stream: a chunk of bytes, or a transport
/// failure while pulling the next chunk.
#[derive(Debug, PartialEq, Eq, Clone)]
pub enum BodyEvent {
    Chunk(Vec<u8>),
    TransportFailure,
}

/// The bytes an event contributes downstream: a chunk's own bytes;
/// a failure contributes none.
pub open spec fn chunk_bytes(e: BodyEvent) -> Seq<u8> {
    match e {
        BodyEvent::Chunk(b) => b@,
        BodyEvent::TransportFailure => Seq::<u8>::empty(),
    }
}

/// Whether a body stream ran to its end without a transport failure.
pub open spec fn all_chunks(events: Seq<BodyEvent>) -> bool {
    forall|i: int| 0 <= i < events.len() ==> events[i] is Chunk
}

/// The full byte stream a body presents downstream: every chunk's bytes,
/// in arrival order, nothing else.
pub open spec fn forwarded_bytes(events: Seq<BodyEvent>) -> Seq<u8> {
    events.map_values(|e: BodyEvent| chunk_bytes(e)).flatten()
}

/// One more event at the end of a body appends exactly that event's bytes
/// to the forwarded stream: nothing is dropped, reordered or invented.
pub proof fn lemma_forwarded_bytes_push(events: Seq<BodyEvent>, e: BodyEvent)
    ensures
        forwarded_bytes(events.push(e)) == forwarded_bytes(events) + chunk_bytes(e),
{
    let f = |ev: BodyEvent| chunk_bytes(ev);
    assert(events.push(e).map_values(f) =~= events.map_values(f).push(chunk_bytes(e)));
    events.map_values(f).lemma_flatten_push(chunk_bytes(e));
}

/// An empty body forwards no bytes at all.
pub proof fn lemma_forwarded_bytes_empty(events: Seq<BodyEvent>)
    requires
        events.len() == 0,
    ensures
        forwarded_bytes(events) == Seq::<u8>::empty(),
{
    let f = |ev: BodyEvent| chunk_bytes(ev);
    assert(events.map_values(f) =~= Seq::<Seq<u8>>::empty());
    assert(forwarded_bytes(events) =~= Seq::<u8>::empty());
}

/// The number of bytes a body's chunks hold in all.
pub open spec fn total_chunk_len(events: Seq<BodyEvent>) -> nat
    decreases events.len(),
{
    if events.len() == 0 {
        0
    } else {
        total_chunk_len(events.drop_last()) + chunk_bytes(events.last()).len()
    }
}

/// The forwarded stream holds exactly as many bytes as the body's chunks
/// do in all, however large the body and however it is cut into chunks:
/// the bridge neither truncates nor duplicates.
pub proof fn lemma_forwarded_bytes_length(events: Seq<BodyEvent>)
    ensures
        forwarded_bytes(events).len() == total_chunk_len(events),
    decreases events.len(),
{
    if events.len() == 0 {
        lemma_forwarded_bytes_empty(events);
    } else {
        let pre = events.drop_last();
        lemma_forwarded_bytes_length(pre);
        lemma_forwarded_bytes_push(pre, events.last());
        assert(pre.push(events.last()) =~= events);
    }
}

/// Runs the bridge's decision logic over one whole recorded body: forwards
/// every chunk's bytes in order until the body ends, and turns the first
/// transport failure into a stream error. It returns the exact forwarded
/// byte stream if and only if the body ran to its end without failure,
/// and the transport failure kind otherwise — never a truncated success.
pub fn collect_body(events: &Vec<BodyEvent>) -> (r: Result<Vec<u8>, ScanFailure>)
    ensures
        r is Ok <==> all_chunks(events@),
        r matches Ok(bytes) ==> bytes@ == forwarded_bytes(events@),
        r matches Err(f) ==> f == ScanFailure::Transport,
{
    let mut acc: Vec<u8> = Vec::new();
    let mut i: usize = 0;
    proof {
        assert(events@.subrange(0, 0) =~= Seq::<BodyEvent>::empty());
        lemma_forwarded_bytes_empty(events@.subrange(0, 0));
    }
    while i < events.len()
        invariant
            i <= events@.len(),
            all_chunks(events@.subrange(0, i as int)),
            acc@ == forwarded_bytes(events@.subrange(0, i as int)),
        decreases events@.len() - i,
    {
        match &events[i] {
            BodyEvent::TransportFailure => {
                return Err(ScanFailure::Transport);
            },
            BodyEvent::Chunk(b) => {
                let ghost acc_before = acc@;
                let mut k: usize = 0;
                while k < b.len()
                    invariant
                        k <= b@.len(),
                        acc@ == acc_before + b@.subrange(0, k as int),
                    decreases b@.len() - k,
                {
                    let byte = b[k];
                    acc.push(byte);
                    proof {
                        assert(acc@ =~= acc_before + b@.subrange(0, k + 1 as int));
                    }
                    k = k + 1;
                }
                proof {
                    assert(b@.subrange(0, b@.len() as int) =~= b@);
                    let pre = events@.subrange(0, i as int);
                    let post = events@.subrange(0, i + 1 as int);
                    assert(post =~= pre.push(events@[i as int]));
                    lemma_forwarded_bytes_push(pre, events@[i as int]);
                    assert(acc@ =~= forwarded_bytes(post));
                }
            },
        }
        i = i + 1;
    }
    proof {
        assert(events@.subrange(0, events@.len() as int) =~= events@);
    }
    Ok(acc)
}

} // verus!
