//! End-to-end scenarios over the verified core, run against deterministic
//! backend doubles: a recorded body stream goes through the bridge, the
//! double judges the forwarded bytes, and the translator builds the reply.

use clamav_api_rs::bridge::{collect_body, BodyEvent};
use clamav_api_rs::json::encode_response;
use clamav_api_rs::verdict::{response_to_verdict, verdict_to_response};
use clamav_api_rs::{translate_outcome, HttpReply, ScanFailure, ScanResponse, ScanVerdict};

/// A deterministic backend double: payloads containing the marker `b"EVIL"`
/// are malignant with one fixed identifier, everything else is benign.
fn marker_double(bytes: &[u8]) -> Result<ScanVerdict, ScanFailure> {
    let found = bytes.windows(4).any(|w| w == b"EVIL");
    if found {
        Ok(ScanVerdict::Malignant {
            infection_types: vec!["Test.Marker.Signature".to_string()],
        })
    } else {
        Ok(ScanVerdict::Benign)
    }
}

/// Runs one request through the verified pipeline with the given double.
fn run_gateway(
    events: &Vec<BodyEvent>,
    double: fn(&[u8]) -> Result<ScanVerdict, ScanFailure>,
) -> HttpReply {
    match collect_body(events) {
        Ok(bytes) => translate_outcome(double(&bytes)),
        Err(f) => translate_outcome(Err(f)),
    }
}

fn parsed(body: &str) -> serde_json::Value {
    serde_json::from_str(body).expect("reply body must be valid JSON")
}

#[test]
fn benign_payload_replies_200_with_null_virus() {
    let events = vec![BodyEvent::Chunk(b"hello world".to_vec())];
    let reply = run_gateway(&events, marker_double);
    assert_eq!(reply.status, 200);
    assert_eq!(reply.body, "{\"virus\":null}");
    let v = parsed(&reply.body);
    assert!(v["virus"].is_null());
}

#[test]
fn malignant_payload_replies_200_with_identifiers_in_order() {
    fn two_findings_double(_bytes: &[u8]) -> Result<ScanVerdict, ScanFailure> {
        Ok(ScanVerdict::Malignant {
            infection_types: vec!["Zeta.Second".to_string(), "Alpha.First".to_string()],
        })
    }
    let events = vec![BodyEvent::Chunk(b"anything".to_vec())];
    let reply = run_gateway(&events, two_findings_double);
    assert_eq!(reply.status, 200);
    let v = parsed(&reply.body);
    let list = v["virus"].as_array().expect("virus must be an array");
    // The backend's order is preserved, not sorted.
    assert_eq!(list.len(), 2);
    assert_eq!(list[0].as_str(), Some("Zeta.Second"));
    assert_eq!(list[1].as_str(), Some("Alpha.First"));
}

#[test]
fn malignant_marker_is_detected_across_chunks() {
    let events = vec![
        BodyEvent::Chunk(b"abcEV".to_vec()),
        BodyEvent::Chunk(b"ILdef".to_vec()),
    ];
    let reply = run_gateway(&events, marker_double);
    assert_eq!(reply.status, 200);
    let v = parsed(&reply.body);
    assert_eq!(v["virus"][0].as_str(), Some("Test.Marker.Signature"));
}

#[test]
fn truncated_body_replies_500_never_partial_200() {
    let events = vec![
        BodyEvent::Chunk(b"first part".to_vec()),
        BodyEvent::TransportFailure,
        BodyEvent::Chunk(b"never seen".to_vec()),
    ];
    let bridged = collect_body(&events);
    assert_eq!(bridged, Err(ScanFailure::Transport));
    let reply = run_gateway(&events, marker_double);
    assert_eq!(reply.status, 500);
    assert_eq!(reply.body, "scan failed");
}

#[test]
fn connection_failure_replies_500_regardless_of_payload() {
    fn unreachable_backend(_bytes: &[u8]) -> Result<ScanVerdict, ScanFailure> {
        Err(ScanFailure::Connection)
    }
    let benign_like = vec![BodyEvent::Chunk(b"hello".to_vec())];
    let malignant_like = vec![BodyEvent::Chunk(b"EVIL".to_vec())];
    let r1 = run_gateway(&benign_like, unreachable_backend);
    let r2 = run_gateway(&malignant_like, unreachable_backend);
    assert_eq!(r1.status, 500);
    assert_eq!(r2.status, 500);
    assert_eq!(r1.body, "scan failed");
    assert_eq!(r2.body, "scan failed");
}

#[test]
fn protocol_failure_replies_500() {
    let reply = translate_outcome(Err(ScanFailure::Protocol));
    assert_eq!(reply.status, 500);
    assert_eq!(reply.body, "scan failed");
}

#[test]
fn same_payload_twice_yields_the_same_reply() {
    let events = vec![
        BodyEvent::Chunk(b"stable ".to_vec()),
        BodyEvent::Chunk(b"payload EVIL".to_vec()),
    ];
    let first = run_gateway(&events, marker_double);
    let second = run_gateway(&events, marker_double);
    assert_eq!(first, second);
}

#[test]
fn large_payload_is_forwarded_without_truncation() {
    let chunk_size = 8192usize;
    let chunk_count = 64usize;
    let mut events: Vec<BodyEvent> = Vec::new();
    let mut expected: Vec<u8> = Vec::new();
    for c in 0..chunk_count {
        let mut chunk = Vec::with_capacity(chunk_size);
        for k in 0..chunk_size {
            chunk.push(((c * 31 + k * 7) % 251) as u8);
        }
        expected.extend_from_slice(&chunk);
        events.push(BodyEvent::Chunk(chunk));
    }
    let bytes = collect_body(&events).expect("a failure-free body must bridge");
    assert_eq!(bytes.len(), chunk_size * chunk_count);
    assert_eq!(bytes, expected);
    // A counting double sees every byte the client sent, in order.
    let checksum: u64 = bytes.iter().map(|b| *b as u64).sum();
    let expected_sum: u64 = expected.iter().map(|b| *b as u64).sum();
    assert_eq!(checksum, expected_sum);
}

#[test]
fn empty_body_is_pinned_to_benign_with_the_benign_double() {
    // Pinned decision: an empty body is bridged as an empty byte stream and
    // handed to the backend like any other payload; with a double that
    // reports benign for empty input the endpoint answers 200 with a null
    // `virus` field, not an error.
    let events: Vec<BodyEvent> = Vec::new();
    let bytes = collect_body(&events).expect("an empty body is a complete body");
    assert_eq!(bytes.len(), 0);
    let reply = run_gateway(&events, marker_double);
    assert_eq!(reply.status, 200);
    assert_eq!(reply.body, "{\"virus\":null}");
}

#[test]
fn verdict_and_response_round_trip_both_ways() {
    let malignant = ScanVerdict::Malignant {
        infection_types: vec!["One".to_string(), "Two".to_string()],
    };
    let back = response_to_verdict(verdict_to_response(malignant.clone()));
    assert_eq!(back, malignant);

    let benign_back = response_to_verdict(verdict_to_response(ScanVerdict::Benign));
    assert_eq!(benign_back, ScanVerdict::Benign);

    // Even an identifier list the domain invariant forbids survives the trip.
    let odd = ScanResponse {
        virus: Some(Vec::new()),
    };
    let there = verdict_to_response(response_to_verdict(odd.clone()));
    assert_eq!(there, odd);
}

#[test]
fn encoded_identifiers_survive_json_escaping() {
    let tricky = vec![
        "quote\"and\\backslash".to_string(),
        "line\nbreak\ttab\rreturn".to_string(),
        "control\u{1}char\u{1f}end".to_string(),
        "plain.Signature-1".to_string(),
    ];
    let response = ScanResponse {
        virus: Some(tricky.clone()),
    };
    let body = encode_response(&response);
    let v = parsed(&body);
    let list = v["virus"].as_array().expect("virus must be an array");
    assert_eq!(list.len(), tricky.len());
    for (got, want) in list.iter().zip(tricky.iter()) {
        assert_eq!(got.as_str(), Some(want.as_str()));
    }
}

#[test]
fn exact_wire_bytes_for_one_identifier() {
    let response = ScanResponse {
        virus: Some(vec!["X".to_string()]),
    };
    assert_eq!(encode_response(&response), "{\"virus\":[\"X\"]}");
}

#[test]
fn exact_wire_bytes_for_two_identifiers_and_for_an_empty_list() {
    let two = ScanResponse {
        virus: Some(vec!["A".to_string(), "B".to_string()]),
    };
    assert_eq!(encode_response(&two), "{\"virus\":[\"A\",\"B\"]}");

    // The domain invariant forbids producing an empty list, but the wire
    // mapping still gives it one exact shape.
    let empty = ScanResponse {
        virus: Some(Vec::new()),
    };
    assert_eq!(encode_response(&empty), "{\"virus\":[]}");

    let benign = ScanResponse { virus: None };
    assert_eq!(encode_response(&benign), "{\"virus\":null}");
}
