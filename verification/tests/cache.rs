use travel_time::caching::{flush_cache, get_cache, get_default_cache_path};
use travel_time::caching::{Cache, CacheFlush, CacheLoad, FlushStep, LoadEvent};
use travel_time::data::{DistanceQuery, DistanceResponse};

fn query(from: &str, dest: &str) -> DistanceQuery {
    DistanceQuery { from: from.to_string(), dest: dest.to_string() }
}

fn response(meters: u32, distance: &str, secs: i64, duration: &str) -> DistanceResponse {
    DistanceResponse {
        distance_meters: Some(meters),
        distance_text: Some(distance.to_string()),
        duration_secs: Some(secs),
        duration_text: Some(duration.to_string()),
    }
}

type Plain = Vec<((String, String), (Option<u32>, Option<String>, Option<i64>, Option<String>))>;

fn to_plain(cache: &Cache) -> Plain {
    cache
        .entries()
        .iter()
        .map(|(k, v)| {
            (
                (k.from.clone(), k.dest.clone()),
                (v.distance_meters, v.distance_text.clone(), v.duration_secs, v.duration_text.clone()),
            )
        })
        .collect()
}

fn from_plain(plain: Plain) -> Vec<(DistanceQuery, DistanceResponse)> {
    plain
        .into_iter()
        .map(|((from, dest), (distance_meters, distance_text, duration_secs, duration_text))| {
            (
                DistanceQuery { from, dest },
                DistanceResponse { distance_meters, distance_text, duration_secs, duration_text },
            )
        })
        .collect()
}

fn same_cache(a: &Cache, b: &Cache) -> bool {
    a.entries().len() == b.entries().len()
        && a.entries().iter().all(|(k, v)| b.get(k) == Some(v))
}

#[test]
fn new_cache_holds_nothing() {
    let cache = Cache::new();
    assert!(cache.entries().is_empty());
    assert!(!cache.contains_key(&query("a", "b")));
    assert_eq!(cache.get(&query("a", "b")), None);
    assert!(Cache::default().entries().is_empty());
}

#[test]
fn insert_then_get_returns_the_value() {
    let mut cache = Cache::new();
    cache.insert(query("Paris", "Lyon"), response(465_000, "465 km", 16_200, "4 hours 30 mins"));
    assert!(cache.contains_key(&query("Paris", "Lyon")));
    assert_eq!(
        cache.get(&query("Paris", "Lyon")),
        Some(&response(465_000, "465 km", 16_200, "4 hours 30 mins"))
    );
    assert!(!cache.contains_key(&query("Lyon", "Paris")));
    assert_eq!(cache.get(&query("Lyon", "Paris")), None);
}

#[test]
fn insert_for_a_known_key_replaces_the_whole_value() {
    let mut cache = Cache::new();
    cache.insert(query("a", "b"), response(1, "1 m", 2, "2 secs"));
    cache.insert(query("c", "d"), response(3, "3 m", 4, "4 secs"));
    let partial = DistanceResponse {
        distance_meters: None,
        distance_text: Some("far".to_string()),
        duration_secs: None,
        duration_text: None,
    };
    cache.insert(query("a", "b"), partial.clone());
    assert_eq!(cache.get(&query("a", "b")), Some(&partial));
    assert_eq!(cache.get(&query("a", "b")).unwrap().distance_meters, None);
    assert_eq!(cache.get(&query("a", "b")).unwrap().duration_text, None);
    assert_eq!(cache.get(&query("c", "d")), Some(&response(3, "3 m", 4, "4 secs")));
    assert_eq!(cache.entries().len(), 2);
}

#[test]
fn keys_are_compared_exactly() {
    let mut cache = Cache::new();
    cache.insert(query("Paris", "Lyon"), response(1, "x", 1, "y"));
    assert!(!cache.contains_key(&query("paris", "Lyon")));
    assert!(!cache.contains_key(&query("Paris ", "Lyon")));
    assert!(!cache.contains_key(&query("Paris", "lyon")));
    assert!(!cache.contains_key(&query("Lyon", "Paris")));
    assert!(query("a", "b") == query("a", "b"));
    assert!(query("a", "b") != query("a", "B"));
    assert!(query("a", "b") != query("A", "b"));
}

#[test]
fn empty_addresses_make_a_key() {
    let mut cache = Cache::new();
    cache.insert(query("", ""), response(0, "", 0, ""));
    assert!(cache.contains_key(&query("", "")));
    assert!(!cache.contains_key(&query("", " ")));
    assert_eq!(cache.get(&query("", "")), Some(&response(0, "", 0, "")));
}

#[test]
fn responses_tell_absent_from_zero() {
    let zero = DistanceResponse {
        distance_meters: Some(0),
        distance_text: Some(String::new()),
        duration_secs: Some(0),
        duration_text: Some(String::new()),
    };
    let absent = DistanceResponse {
        distance_meters: None,
        distance_text: None,
        duration_secs: None,
        duration_text: None,
    };
    assert!(zero != absent);
    assert!(zero == zero.clone());
    assert!(absent == absent.clone());
    let only_text = DistanceResponse { distance_text: Some("1 km".to_string()), ..absent.clone() };
    assert!(only_text != absent);
}

#[test]
fn from_entries_lets_the_last_entry_count() {
    let cache = Cache::from_entries(vec![
        (query("a", "b"), response(1, "one", 1, "one")),
        (query("c", "d"), response(2, "two", 2, "two")),
        (query("a", "b"), response(3, "three", 3, "three")),
    ]);
    assert_eq!(cache.entries().len(), 2);
    assert_eq!(cache.get(&query("a", "b")), Some(&response(3, "three", 3, "three")));
    assert_eq!(cache.get(&query("c", "d")), Some(&response(2, "two", 2, "two")));
}

#[test]
fn entries_rebuild_the_cache_in_any_order() {
    let mut cache = Cache::new();
    for i in 0..20u32 {
        cache.insert(
            query(&format!("from {i}"), &format!("to {i}")),
            response(i, &format!("{i} m"), i64::from(i) * 60, &format!("{i} mins")),
        );
    }
    let mut list = cache.entries().clone();
    assert_eq!(list.len(), 20);
    list.reverse();
    let back = Cache::from_entries(list);
    assert!(same_cache(&cache, &back));
    let empty = Cache::from_entries(Cache::new().entries().clone());
    assert!(empty.entries().is_empty());
}

#[test]
fn written_text_loads_back_as_the_same_cache() {
    let mut cache = Cache::new();
    cache.insert(query("Paris", "Lyon"), response(465_000, "465 km", 16_200, "4 hours 30 mins"));
    cache.insert(
        query("quote \" and \\ slash", "caf\u{e9}"),
        DistanceResponse {
            distance_meters: Some(0),
            distance_text: None,
            duration_secs: Some(-1),
            duration_text: Some(String::new()),
        },
    );
    let text = ron::to_string(&to_plain(&cache)).unwrap();
    assert!(!text.is_empty());
    let state = get_cache(Some(text.clone()));
    assert!(matches!(&state, CacheLoad::Decode { text: t } if *t == text));
    let decoded: Option<Plain> = ron::from_str(&text).ok();
    let state = state.resume(LoadEvent::Decoded(decoded.map(from_plain)));
    match state {
        CacheLoad::Ready { cache: back, bootstrap_failed } => {
            assert!(!bootstrap_failed);
            assert!(same_cache(&cache, &back));
        }
        other => panic!("unexpected state {other:?}"),
    }
}

#[test]
fn empty_cache_survives_writing_and_loading() {
    let cache = Cache::new();
    let text = ron::to_string(&to_plain(&cache)).unwrap();
    let decoded: Option<Plain> = ron::from_str(&text).ok();
    match get_cache(Some(text)).resume(LoadEvent::Decoded(decoded.map(from_plain))) {
        CacheLoad::Ready { cache: back, bootstrap_failed: false } => {
            assert!(back.entries().is_empty())
        }
        other => panic!("unexpected state {other:?}"),
    }
}

#[test]
fn empty_file_is_an_empty_cache() {
    match get_cache(Some(String::new())) {
        CacheLoad::Ready { cache, bootstrap_failed } => {
            assert!(cache.entries().is_empty());
            assert!(!bootstrap_failed);
        }
        other => panic!("unexpected state {other:?}"),
    }
}

#[test]
fn whitespace_is_not_an_empty_file() {
    assert!(matches!(get_cache(Some(" ".to_string())), CacheLoad::Decode { text } if text == " "));
    assert!(matches!(get_cache(Some("\n".to_string())), CacheLoad::Decode { text } if text == "\n"));
}

#[test]
fn missing_file_is_created_with_its_directory() {
    let state = get_cache(None);
    assert!(matches!(state, CacheLoad::CreateDir));
    let state = state.resume(LoadEvent::DirCreated(true));
    assert!(matches!(state, CacheLoad::CreateFile));
    match state.resume(LoadEvent::FileCreated(true)) {
        CacheLoad::Ready { cache, bootstrap_failed } => {
            assert!(cache.entries().is_empty());
            assert!(!bootstrap_failed);
        }
        other => panic!("unexpected state {other:?}"),
    }
}

#[test]
fn failed_bootstrap_still_gives_an_empty_cache() {
    match get_cache(None).resume(LoadEvent::DirCreated(false)) {
        CacheLoad::Ready { cache, bootstrap_failed } => {
            assert!(cache.entries().is_empty());
            assert!(bootstrap_failed);
        }
        other => panic!("unexpected state {other:?}"),
    }
    let state = get_cache(None).resume(LoadEvent::DirCreated(true));
    match state.resume(LoadEvent::FileCreated(false)) {
        CacheLoad::Ready { cache, bootstrap_failed } => {
            assert!(cache.entries().is_empty());
            assert!(bootstrap_failed);
        }
        other => panic!("unexpected state {other:?}"),
    }
}

#[test]
fn text_that_is_no_cache_is_corruption() {
    let text = "this is not a cache".to_string();
    let state = get_cache(Some(text.clone()));
    assert!(matches!(&state, CacheLoad::Decode { .. }));
    let decoded: Option<Plain> = ron::from_str(&text).ok();
    assert!(decoded.is_none());
    let state = state.resume(LoadEvent::Decoded(decoded.map(from_plain)));
    assert!(matches!(state, CacheLoad::Corrupted));
    let state = state.resume(LoadEvent::Decoded(Some(Vec::new())));
    assert!(matches!(state, CacheLoad::Corrupted));
}

#[test]
fn load_ignores_an_event_it_did_not_ask_for() {
    let state = get_cache(None).resume(LoadEvent::FileCreated(true));
    assert!(matches!(state, CacheLoad::CreateDir));
    let state = state.resume(LoadEvent::Decoded(None));
    assert!(matches!(state, CacheLoad::CreateDir));
    let state = get_cache(Some("x".to_string())).resume(LoadEvent::DirCreated(false));
    assert!(matches!(state, CacheLoad::Decode { text } if text == "x"));
    let state = get_cache(None).resume(LoadEvent::DirCreated(true));
    let state = state.resume(LoadEvent::DirCreated(false));
    assert!(matches!(state, CacheLoad::CreateFile));
    let done = get_cache(Some(String::new())).resume(LoadEvent::Decoded(None));
    assert!(matches!(done, CacheLoad::Ready { bootstrap_failed: false, .. }));
}

#[test]
fn flush_takes_its_steps_in_order() {
    let path = "/tmp/cache.ron";
    assert!(matches!(
        flush_cache(path, FlushStep::Open, true),
        CacheFlush::Pending { step: FlushStep::Serialize }
    ));
    assert!(matches!(
        flush_cache(path, FlushStep::Serialize, true),
        CacheFlush::Pending { step: FlushStep::Write }
    ));
    assert!(matches!(
        flush_cache(path, FlushStep::Write, true),
        CacheFlush::Pending { step: FlushStep::Sync }
    ));
    assert!(matches!(flush_cache(path, FlushStep::Sync, true), CacheFlush::Done));
}

#[test]
fn flush_failure_names_the_step_and_the_path() {
    let path = "/home/u/.cache/app/cache.ron";
    let message = |step| match flush_cache(path, step, false) {
        CacheFlush::Failed { message } => message,
        other => panic!("unexpected state {other:?}"),
    };
    assert_eq!(message(FlushStep::Open), "failed to open cache at '/home/u/.cache/app/cache.ron'");
    assert_eq!(
        message(FlushStep::Serialize),
        "failed to serialize cache for '/home/u/.cache/app/cache.ron'"
    );
    assert_eq!(
        message(FlushStep::Write),
        "failed to write to cache at '/home/u/.cache/app/cache.ron'"
    );
    assert_eq!(
        message(FlushStep::Sync),
        "failed to flush cache to disk at '/home/u/.cache/app/cache.ron'"
    );
}

#[test]
fn default_cache_path_is_below_the_home_of_the_user() {
    assert_eq!(get_default_cache_path("alice"), "/home/alice/.cache/travel_time/cache.ron");
    assert_eq!(get_default_cache_path(""), "/home//.cache/travel_time/cache.ron");
}
