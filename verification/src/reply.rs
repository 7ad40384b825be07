//! A distance-matrix reply, held as plain values.
//!
//! The caller copies into these types what the mapping service sent; the
//! rules that read a reply work on them.

use google_maps::distance_matrix::response::status::Status;
use vstd::prelude::*;

verus! {

/// The status of a reply as a whole.
#[derive(Debug, Clone, Copy, PartialEq, Eq, Structural)]
pub enum MatrixStatus {
    InvalidRequest,
    MaxElementsExceeded,
    MaxDimensionsExceeded,
    Okay,
    OverDailyLimit,
    OverQueryLimit,
    RequestDenied,
    UnknownError,
}

/// The status of the answer for one pair of addresses.
#[derive(Debug, Clone, Copy, PartialEq, Eq, Structural)]
pub enum ElementStatus {
    MaxRouteLengthExceeded,
    NotFound,
    Okay,
    ZeroResults,
}

impl MatrixStatus {
    /// The words in which the status is shown to a person.
    pub open spec fn text(self) -> Seq<char> {
        match self {
            MatrixStatus::InvalidRequest => "Invalid Request"@,
            MatrixStatus::MaxElementsExceeded => "Maximum Elements Exceeded"@,
            MatrixStatus::MaxDimensionsExceeded => "Maximum Dimensions Exceeded"@,
            MatrixStatus::Okay => "OK"@,
            MatrixStatus::OverDailyLimit => "Over Daily Limit"@,
            MatrixStatus::OverQueryLimit => "Over Query Limit"@,
            MatrixStatus::RequestDenied => "Request Denied"@,
            MatrixStatus::UnknownError => "Unknown Error"@,
        }
    }
}

impl ElementStatus {
    /// The code under which the status is shown.
    pub open spec fn text(self) -> Seq<char> {
        match self {
            ElementStatus::MaxRouteLengthExceeded => "MAX_ROUTE_LENGTH_EXCEEDED"@,
            ElementStatus::NotFound => "NOT_FOUND"@,
            ElementStatus::Okay => "OK"@,
            ElementStatus::ZeroResults => "ZERO_RESULTS"@,
        }
    }
}

/// Formats a reply's status with the `Display` impl that google_maps gives
/// its distance-matrix `Status`.
///
/// Trusted: the text is the one that impl writes for the variant of the
/// same name, a fixed phrase for each.
#[verifier::external_body]
pub(crate) fn matrix_status_text(status: MatrixStatus) -> (text: String)
    ensures
        text@ == status.text(),
{
    let outside = match status {
        MatrixStatus::InvalidRequest => Status::InvalidRequest,
        MatrixStatus::MaxElementsExceeded => Status::MaxElementsExceeded,
        MatrixStatus::MaxDimensionsExceeded => Status::MaxDimensionsExceeded,
        MatrixStatus::Okay => Status::Ok,
        MatrixStatus::OverDailyLimit => Status::OverDailyLimit,
        MatrixStatus::OverQueryLimit => Status::OverQueryLimit,
        MatrixStatus::RequestDenied => Status::RequestDenied,
        MatrixStatus::UnknownError => Status::UnknownError,
    };
    outside.to_string()
}

/// Formats an answer's status with the `Display` impl that google_maps gives
/// its `ElementStatus`.
///
/// Trusted: the text is the one that impl writes for the variant of the
/// same name, which is the status code in capitals.
#[verifier::external_body]
pub(crate) fn element_status_text(status: ElementStatus) -> (text: String)
    ensures
        text@ == status.text(),
{
    let outside = match status {
        ElementStatus::MaxRouteLengthExceeded =>
            google_maps::distance_matrix::response::element_status::ElementStatus::MaxRouteLengthExceeded,
        ElementStatus::NotFound =>
            google_maps::distance_matrix::response::element_status::ElementStatus::NotFound,
        ElementStatus::Okay => google_maps::distance_matrix::response::element_status::ElementStatus::Ok,
        ElementStatus::ZeroResults =>
            google_maps::distance_matrix::response::element_status::ElementStatus::ZeroResults,
    };
    outside.to_string()
}

/// A distance: its length in meters and the text that shows it.
#[derive(Debug)]
pub struct Distance {
    pub value: u32,
    pub text: String,
}

/// A duration: its length in seconds and the text that shows it.
#[derive(Debug)]
pub struct Duration {
    pub value: i64,
    pub text: String,
}

/// The answer for one origin and one destination.
#[derive(Debug)]
pub struct MatrixElement {
    pub status: ElementStatus,
    pub distance: Option<Distance>,
    pub duration: Option<Duration>,
}

/// The answers for one origin, one for each destination.
#[derive(Debug)]
pub struct MatrixRow {
    pub elements: Vec<MatrixElement>,
}

/// A whole reply: its status, and one row for each origin.
#[derive(Debug)]
pub struct MatrixReply {
    pub status: MatrixStatus,
    pub rows: Vec<MatrixRow>,
}

impl MatrixReply {
    /// Whether the reply holds an answer for the first origin and the first
    /// destination.
    pub open spec fn has_first(self) -> bool {
        self.rows@.len() > 0 && self.rows@[0].elements@.len() > 0
    }

    /// The answer for the first origin and the first destination.
    pub open spec fn first(self) -> MatrixElement
        recommends
            self.has_first(),
    {
        self.rows@[0].elements@[0]
    }
}

} // verus!
