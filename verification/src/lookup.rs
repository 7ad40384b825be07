//! One run of the program: the cache is asked first, the mapping service
//! only where the cache has no answer, and the answer is shown in two lines.

use crate::caching::Cache;
use crate::data::{DistanceQuery, DistanceResponse, FetchError, FetchErrorView};
use crate::data::{text_view, QueryView, ResponseView};
use vstd::prelude::*;
use vstd::string::*;

verus! {

/// A text as it is shown: itself, or `N/A` where it is missing.
pub open spec fn shown(text: Option<Seq<char>>) -> Seq<char> {
    match text {
        Some(t) => t,
        None => "N/A"@,
    }
}

/// The line that shows the distance of a response.
pub open spec fn distance_line(response: ResponseView) -> Seq<char> {
    "Distance:    "@ + shown(response.distance_text)
}

/// The line that shows the duration of a response.
pub open spec fn travel_time_line(response: ResponseView) -> Seq<char> {
    "Travel time: "@ + shown(response.duration_text)
}

/// A response without the text of its distance shows `N/A` for the
/// distance, and one without the text of its duration shows `N/A` for the
/// travel time, whatever its other fields hold.
pub proof fn lemma_missing_text_is_not_available(response: ResponseView)
    ensures
        response.distance_text is None ==> distance_line(response) == "Distance:    N/A"@,
        response.duration_text is None ==> travel_time_line(response) == "Travel time: N/A"@,
{
    reveal_strlit("N/A");
    reveal_strlit("Distance:    ");
    reveal_strlit("Distance:    N/A");
    reveal_strlit("Travel time: ");
    reveal_strlit("Travel time: N/A");
    assert("Distance:    "@ + "N/A"@ =~= "Distance:    N/A"@);
    assert("Travel time: "@ + "N/A"@ =~= "Travel time: N/A"@);
}

/// Builds a line from its label and the text to show after it.
fn line(label: &str, text: &Option<String>) -> (out: String)
    ensures
        out@ == label@ + shown(text_view(*text)),
{
    let mut out = String::from_str(label);
    match text {
        Some(t) => out.append(t.as_str()),
        None => out.append("N/A"),
    }
    out
}

impl DistanceResponse {
    /// The line that shows the distance.
    pub fn distance_line(&self) -> (out: String)
        ensures
            out@ == distance_line(self@),
    {
        line("Distance:    ", &self.distance_text)
    }

    /// The line that shows the duration.
    pub fn travel_time_line(&self) -> (out: String)
        ensures
            out@ == travel_time_line(self@),
    {
        line("Travel time: ", &self.duration_text)
    }
}

/// Where a run stands once the cache is loaded.
#[derive(Debug)]
pub enum Lookup {
    /// The cache holds no answer for `key`: the mapping service has to be
    /// asked, and what it said handed to [`Lookup::resume`].
    Fetch { cache: Cache, key: DistanceQuery },
    /// The answer is known: the two lines are to be printed and the cache
    /// written back.
    Report { cache: Cache, distance: String, travel_time: String },
    /// The mapping service gave no answer: nothing is printed and nothing
    /// written.
    Failed { error: FetchError },
}

/// A state of a run as mathematics sees it.
pub enum LookupView {
    Fetch { cache: Map<QueryView, ResponseView>, key: QueryView },
    Report { cache: Map<QueryView, ResponseView>, distance: Seq<char>, travel_time: Seq<char> },
    Failed { error: FetchErrorView },
}

impl View for Lookup {
    type V = LookupView;

    open spec fn view(&self) -> LookupView {
        match self {
            Lookup::Fetch { cache, key } => LookupView::Fetch { cache: cache@, key: key@ },
            Lookup::Report { cache, distance, travel_time } => LookupView::Report {
                cache: cache@,
                distance: distance@,
                travel_time: travel_time@,
            },
            Lookup::Failed { error } => LookupView::Failed { error: error@ },
        }
    }
}

/// The report of a response, with the cache that is written back.
pub open spec fn report(cache: Map<QueryView, ResponseView>, response: ResponseView) -> LookupView {
    LookupView::Report {
        cache,
        distance: distance_line(response),
        travel_time: travel_time_line(response),
    }
}

/// The state in which a run starts: the report of the cached answer where
/// the cache holds one for `key`, and a fetch exactly where it holds none.
pub open spec fn lookup_start(cache: Map<QueryView, ResponseView>, key: QueryView) -> LookupView {
    if cache.dom().contains(key) {
        report(cache, cache[key])
    } else {
        LookupView::Fetch { cache, key }
    }
}

/// The state that follows `state` once the mapping service was asked.
///
/// An answer is bound to the query in the cache and reported; an error ends
/// the run. A state that waits for no fetch stays as it is.
pub open spec fn lookup_next(
    state: LookupView,
    fetched: Result<DistanceResponse, FetchError>,
) -> LookupView {
    match (state, fetched) {
        (LookupView::Fetch { cache, key }, Ok(response)) => report(
            cache.insert(key, response@),
            response@,
        ),
        (LookupView::Fetch { .. }, Err(error)) => LookupView::Failed { error: error@ },
        _ => state,
    }
}

/// The mapping service is asked exactly when the cache holds no answer for
/// the query: a run that starts on a cache that holds one reports it and
/// leaves the cache as it is.
pub proof fn lemma_fetch_only_on_miss(cache: Map<QueryView, ResponseView>, key: QueryView)
    ensures
        lookup_start(cache, key) is Fetch <==> !cache.dom().contains(key),
        cache.dom().contains(key) ==> lookup_start(cache, key) == report(cache, cache[key]),
        !(lookup_start(cache, key) is Failed),
{
}

/// After a miss and a fetch that succeeds, the cache binds the query to
/// exactly the response that was fetched, that response is the one
/// reported, and a run on the new cache for the same query fetches nothing.
pub proof fn lemma_miss_then_insert(
    cache: Map<QueryView, ResponseView>,
    key: QueryView,
    response: DistanceResponse,
)
    requires
        !cache.dom().contains(key),
    ensures
        lookup_next(lookup_start(cache, key), Ok(response)) == report(
            cache.insert(key, response@),
            response@,
        ),
        cache.insert(key, response@)[key] == response@,
        lookup_start(cache.insert(key, response@), key) == report(
            cache.insert(key, response@),
            response@,
        ),
{
}

/// A fetch that fails ends the run with the error of the fetch, unchanged.
pub proof fn lemma_failed_fetch_fails(
    cache: Map<QueryView, ResponseView>,
    key: QueryView,
    error: FetchError,
)
    requires
        !cache.dom().contains(key),
    ensures
        lookup_next(lookup_start(cache, key), Err(error)) == (LookupView::Failed {
            error: error@,
        }),
{
}

/// Starts a run for `key` on the loaded cache.
pub fn lookup(cache: Cache, key: DistanceQuery) -> (state: Lookup)
    ensures
        state@ == lookup_start(cache@, key@),
{
    let lines = match cache.get(&key) {
        Some(response) => Some((response.distance_line(), response.travel_time_line())),
        None => None,
    };
    match lines {
        Some((distance, travel_time)) => Lookup::Report { cache, distance, travel_time },
        None => Lookup::Fetch { cache, key },
    }
}

impl Lookup {
    /// Goes on with the run once the mapping service was asked.
    pub fn resume(self, fetched: Result<DistanceResponse, FetchError>) -> (state: Lookup)
        ensures
            state@ == lookup_next(self@, fetched),
    {
        match self {
            Lookup::Fetch { cache, key } => match fetched {
                Ok(response) => {
                    let distance = response.distance_line();
                    let travel_time = response.travel_time_line();
                    let mut cache = cache;
                    cache.insert(key, response);
                    Lookup::Report { cache, distance, travel_time }
                },
                Err(error) => Lookup::Failed { error },
            },
            Lookup::Report { cache, distance, travel_time } => Lookup::Report {
                cache,
                distance,
                travel_time,
            },
            Lookup::Failed { error } => Lookup::Failed { error },
        }
    }
}

} // verus!
