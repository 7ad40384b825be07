//! The values that travel between the cache and the mapping service.

use crate::reply::{ElementStatus, MatrixElement, MatrixReply, MatrixStatus};
use crate::reply::{element_status_text, matrix_status_text};
use vstd::prelude::*;
use vstd::string::*;

verus! {

/// The pair of addresses that identifies one lookup.
///
/// Two queries are the same when both addresses match character for
/// character; nothing is trimmed or folded.
#[derive(Debug, Hash)]
pub struct DistanceQuery {
    pub from: String,
    pub dest: String,
}

/// A query as mathematics sees it: two sequences of characters.
pub struct QueryView {
    pub from: Seq<char>,
    pub dest: Seq<char>,
}

impl View for DistanceQuery {
    type V = QueryView;

    open spec fn view(&self) -> QueryView {
        QueryView { from: self.from@, dest: self.dest@ }
    }
}

impl PartialEq for DistanceQuery {
    fn eq(&self, other: &Self) -> (same: bool) {
        self.from == other.from && self.dest == other.dest
    }
}

impl Eq for DistanceQuery {

}

impl vstd::std_specs::cmp::PartialEqSpecImpl for DistanceQuery {
    open spec fn obeys_eq_spec() -> bool {
        true
    }

    open spec fn eq_spec(&self, other: &Self) -> bool {
        self@ == other@
    }
}

impl Clone for DistanceQuery {
    fn clone(&self) -> (copy: Self)
        ensures
            copy@ == self@,
    {
        DistanceQuery { from: self.from.clone(), dest: self.dest.clone() }
    }
}

/// What the mapping service said of one pair of addresses.
///
/// Each field may be missing on its own: the service can leave out the
/// distance or the duration of an answer that is otherwise good.
#[derive(Debug, Hash)]
pub struct DistanceResponse {
    pub distance_meters: Option<u32>,
    pub distance_text: Option<String>,
    pub duration_secs: Option<i64>,
    pub duration_text: Option<String>,
}

/// A response as mathematics sees it.
pub struct ResponseView {
    pub distance_meters: Option<u32>,
    pub distance_text: Option<Seq<char>>,
    pub duration_secs: Option<i64>,
    pub duration_text: Option<Seq<char>>,
}

/// The characters of an optional text.
pub open spec fn text_view(text: Option<String>) -> Option<Seq<char>> {
    match text {
        Some(t) => Some(t@),
        None => None,
    }
}

impl View for DistanceResponse {
    type V = ResponseView;

    open spec fn view(&self) -> ResponseView {
        ResponseView {
            distance_meters: self.distance_meters,
            distance_text: text_view(self.distance_text),
            duration_secs: self.duration_secs,
            duration_text: text_view(self.duration_text),
        }
    }
}

/// Copies an optional text.
pub fn clone_text(text: &Option<String>) -> (copy: Option<String>)
    ensures
        text_view(copy) == text_view(*text),
{
    match text {
        Some(t) => Some(t.clone()),
        None => None,
    }
}

/// Whether two optional texts hold the same characters, or are both missing.
pub fn same_text(a: &Option<String>, b: &Option<String>) -> (same: bool)
    ensures
        same == (text_view(*a) == text_view(*b)),
{
    match a {
        Some(x) => match b {
            Some(y) => *x == *y,
            None => false,
        },
        None => b.is_none(),
    }
}

impl PartialEq for DistanceResponse {
    fn eq(&self, other: &Self) -> (same: bool) {
        self.distance_meters == other.distance_meters
            && same_text(&self.distance_text, &other.distance_text)
            && self.duration_secs == other.duration_secs
            && same_text(&self.duration_text, &other.duration_text)
    }
}

impl Eq for DistanceResponse {

}

impl vstd::std_specs::cmp::PartialEqSpecImpl for DistanceResponse {
    open spec fn obeys_eq_spec() -> bool {
        true
    }

    open spec fn eq_spec(&self, other: &Self) -> bool {
        self@ == other@
    }
}

impl Clone for DistanceResponse {
    fn clone(&self) -> (copy: Self)
        ensures
            copy@ == self@,
    {
        DistanceResponse {
            distance_meters: self.distance_meters,
            distance_text: clone_text(&self.distance_text),
            duration_secs: self.duration_secs,
            duration_text: clone_text(&self.duration_text),
        }
    }
}

/// Why no answer could be had for a query.
#[derive(Debug)]
#[allow(inconsistent_fields)]
pub enum FetchError {
    /// The call to the mapping service failed; `detail` is what it reported.
    Upstream { detail: String },
    /// The service refused the request as a whole.
    Matrix { query: DistanceQuery, status: MatrixStatus },
    /// The service accepted the request and sent no answer for the pair.
    Missing { query: DistanceQuery },
    /// The service found no route between the two addresses.
    Element { query: DistanceQuery, status: ElementStatus },
}

/// A fetch error as mathematics sees it.
#[allow(inconsistent_fields)]
pub enum FetchErrorView {
    Upstream { detail: Seq<char> },
    Matrix { query: QueryView, status: MatrixStatus },
    Missing { query: QueryView },
    Element { query: QueryView, status: ElementStatus },
}

impl View for FetchError {
    type V = FetchErrorView;

    open spec fn view(&self) -> FetchErrorView {
        match self {
            FetchError::Upstream { detail } => FetchErrorView::Upstream { detail: detail@ },
            FetchError::Matrix { query, status } => FetchErrorView::Matrix {
                query: query@,
                status: *status,
            },
            FetchError::Missing { query } => FetchErrorView::Missing { query: query@ },
            FetchError::Element { query, status } => FetchErrorView::Element {
                query: query@,
                status: *status,
            },
        }
    }
}

impl FetchErrorView {
    /// The sentence that reports the error: the two addresses and what the
    /// service said, or the upstream report as it came.
    pub open spec fn text(self) -> Seq<char> {
        match self {
            FetchErrorView::Upstream { detail } => detail,
            FetchErrorView::Matrix { query, status } =>
                "an error occurred when fetching the distance between "@ + query.from + " and "@
                    + query.dest + ": "@ + status.text(),
            FetchErrorView::Missing { query } =>
                "an error occurred when fetching the distance between '"@ + query.from
                    + "' and '"@ + query.dest + "': "@ + "no result in the response"@,
            FetchErrorView::Element { query, status } =>
                "an error occurred when fetching the distance between '"@ + query.from
                    + "' and '"@ + query.dest + "': "@ + status.text(),
        }
    }
}

/// Joins five pieces of text.
fn join5(a: &str, b: &str, c: &str, d: &str, e: &str) -> (text: String)
    ensures
        text@ == a@ + b@ + c@ + d@ + e@,
{
    let mut text = String::from_str(a);
    text.append(b);
    text.append(c);
    text.append(d);
    text.append(e);
    text
}

impl FetchError {
    /// The sentence that reports the error.
    pub fn message(&self) -> (text: String)
        ensures
            text@ == self@.text(),
    {
        match self {
            FetchError::Upstream { detail } => detail.clone(),
            FetchError::Matrix { query, status } => {
                let mut text = join5(
                    "an error occurred when fetching the distance between ",
                    query.from.as_str(),
                    " and ",
                    query.dest.as_str(),
                    ": ",
                );
                text.append(matrix_status_text(*status).as_str());
                text
            },
            FetchError::Missing { query } => {
                let mut text = join5(
                    "an error occurred when fetching the distance between '",
                    query.from.as_str(),
                    "' and '",
                    query.dest.as_str(),
                    "': ",
                );
                text.append("no result in the response");
                text
            },
            FetchError::Element { query, status } => {
                let mut text = join5(
                    "an error occurred when fetching the distance between '",
                    query.from.as_str(),
                    "' and '",
                    query.dest.as_str(),
                    "': ",
                );
                text.append(element_status_text(*status).as_str());
                text
            },
        }
    }
}

/// What an answer says of distance and duration, each part present only
/// where the answer holds it.
pub open spec fn answer_view(element: MatrixElement) -> ResponseView {
    ResponseView {
        distance_meters: match element.distance {
            Some(d) => Some(d.value),
            None => None,
        },
        distance_text: match element.distance {
            Some(d) => Some(d.text@),
            None => None,
        },
        duration_secs: match element.duration {
            Some(d) => Some(d.value),
            None => None,
        },
        duration_text: match element.duration {
            Some(d) => Some(d.text@),
            None => None,
        },
    }
}

/// What a call to the mapping service yields for a query.
///
/// A failed call, a reply whose status is not OK, a reply without an answer
/// for the pair and an answer whose status is not OK are errors, looked for
/// in that order; otherwise the first answer of the first row is the result.
pub open spec fn fetch_outcome(query: QueryView, reply: Result<MatrixReply, String>) -> Result<
    ResponseView,
    FetchErrorView,
> {
    match reply {
        Err(detail) => Err(FetchErrorView::Upstream { detail: detail@ }),
        Ok(reply) => {
            if reply.status != MatrixStatus::Okay {
                Err(FetchErrorView::Matrix { query, status: reply.status })
            } else if !reply.has_first() {
                Err(FetchErrorView::Missing { query })
            } else if reply.first().status != ElementStatus::Okay {
                Err(FetchErrorView::Element { query, status: reply.first().status })
            } else {
                Ok(answer_view(reply.first()))
            }
        },
    }
}

/// The view of a fetch's result.
pub open spec fn outcome_view(out: Result<DistanceResponse, FetchError>) -> Result<
    ResponseView,
    FetchErrorView,
> {
    match out {
        Ok(response) => Ok(response@),
        Err(error) => Err(error@),
    }
}

/// Reads the response for `query` out of what the call to the mapping
/// service returned: the reply, or the report of a failed call.
pub fn fetch_distance(query: &DistanceQuery, reply: Result<MatrixReply, String>) -> (out: Result<
    DistanceResponse,
    FetchError,
>)
    ensures
        outcome_view(out) == fetch_outcome(query@, reply),
{
    let reply = match reply {
        Ok(reply) => reply,
        Err(detail) => {
            return Err(FetchError::Upstream { detail });
        },
    };
    if reply.status != MatrixStatus::Okay {
        return Err(FetchError::Matrix { query: query.clone(), status: reply.status });
    }
    if reply.rows.len() == 0 || reply.rows[0].elements.len() == 0 {
        return Err(FetchError::Missing { query: query.clone() });
    }
    let element = &reply.rows[0].elements[0];
    if element.status != ElementStatus::Okay {
        return Err(FetchError::Element { query: query.clone(), status: element.status });
    }
    let (distance_meters, distance_text) = match &element.distance {
        Some(d) => (Some(d.value), Some(d.text.clone())),
        None => (None, None),
    };
    let (duration_secs, duration_text) = match &element.duration {
        Some(d) => (Some(d.value), Some(d.text.clone())),
        None => (None, None),
    };
    Ok(DistanceResponse { distance_meters, distance_text, duration_secs, duration_text })
}

} // verus!
