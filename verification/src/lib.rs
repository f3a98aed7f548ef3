//! Verified core of an HTTP gateway that streams uploaded content to a
//! malware-scanning backend and reports the verdict to the caller.
//!
//! The library holds the logic that can be checked: the verdict model, the
//! translation of verdicts and failures into an HTTP status and a JSON wire
//! body, and the bridging of a chunked request body into one byte stream.
//! The surrounding server (sockets, routing, the scanner connection) lives
//! outside the library and hands it plain values.

pub mod bridge;
pub mod json;
pub mod laws;
pub mod translate;
pub mod verdict;

pub use translate::HttpReply;
pub use translate::translate_outcome;
pub use verdict::ScanFailure;
pub use verdict::ScanResponse;
pub use verdict::ScanVerdict;
