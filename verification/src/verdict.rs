//! The outcome model of one scan: the verdict a backend returns, the closed
//! set of failure kinds, and the wire-level response record.

use vstd::prelude::*;

verus! {

/// The outcome of one completed scan.
///
/// `Malignant` carries the infection-type identifiers the backend reported,
/// in the backend's order; a well-formed malignant verdict names at least one.
#[derive(Debug, PartialEq, Eq, Clone)]
pub enum ScanVerdict {
    Benign,
    Malignant { infection_types: Vec<String> },
}

/// The closed set of failure kinds a scan attempt can end in:
/// a transport failure while reading the request body, a failure to reach
/// the backend, and a malformed or unexpected backend response.
#[derive(Debug, PartialEq, Eq, Clone, Copy)]
pub enum ScanFailure {
    Transport,
    Connection,
    Protocol,
}

/// The wire shape of a scan response: `virus` is absent for a benign verdict
/// and holds the infection-type identifiers, in order, for a malignant one.
#[derive(Debug, PartialEq, Eq, Clone)]
pub struct ScanResponse {
    pub virus: Option<Vec<String>>,
}

impl ScanVerdict {
    /// A completed scan either found nothing or names at least one
    /// infection type.
    pub open spec fn well_formed(&self) -> bool {
        match self {
            ScanVerdict::Benign => true,
            ScanVerdict::Malignant { infection_types } => infection_types@.len() > 0,
        }
    }

    /// The identifier sequences this verdict carries: `None` for benign,
    /// the identifiers in backend order for malignant.
    pub open spec fn virus_view(&self) -> Option<Seq<Seq<char>>> {
        match self {
            ScanVerdict::Benign => None,
            ScanVerdict::Malignant { infection_types } => Some(
                infection_types@.map_values(|s: String| s@),
            ),
        }
    }
}

impl ScanResponse {
    /// The identifier sequences this response carries.
    pub open spec fn virus_view(&self) -> Option<Seq<Seq<char>>> {
        match &self.virus {
            None => None,
            Some(types) => Some(types@.map_values(|s: String| s@)),
        }
    }
}

/// Maps a verdict onto the wire record: benign becomes an absent `virus`
/// field, malignant carries its identifiers unchanged and in order.
pub fn verdict_to_response(v: ScanVerdict) -> (r: ScanResponse)
    ensures
        r.virus_view() == v.virus_view(),
        v is Benign <==> r.virus is None,
{
    match v {
        ScanVerdict::Benign => ScanResponse { virus: None },
        ScanVerdict::Malignant { infection_types } => ScanResponse {
            virus: Some(infection_types),
        },
    }
}

/// The inverse mapping: an absent `virus` field is benign, a present one
/// malignant with the same identifiers in order. It is total on all wire
/// records, so even an identifier list the domain invariant forbids
/// survives a round trip through `verdict_to_response`.
pub fn response_to_verdict(r: ScanResponse) -> (v: ScanVerdict)
    ensures
        v.virus_view() == r.virus_view(),
        r.virus is None <==> v is Benign,
{
    match r.virus {
        None => ScanVerdict::Benign,
        Some(infection_types) => ScanVerdict::Malignant { infection_types },
    }
}

} // verus!
