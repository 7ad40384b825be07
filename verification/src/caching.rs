//! The cache of answers: a map from query to response that is read from a
//! file when the program starts and written back before it ends.

use crate::configs::{home_file, home_path, DEFAULT_CACHE_PATH};
use crate::data::{text_view, DistanceQuery, DistanceResponse, QueryView, ResponseView};
use vstd::prelude::*;
use vstd::string::*;

verus! {

/// The map that a list of entries stands for: each entry binds its query to
/// its response, and a later entry replaces an earlier one for the same
/// query.
pub open spec fn entries_map(entries: Seq<(DistanceQuery, DistanceResponse)>) -> Map<
    QueryView,
    ResponseView,
>
    decreases entries.len(),
{
    if entries.len() == 0 {
        Map::empty()
    } else {
        entries_map(entries.drop_last()).insert(entries.last().0@, entries.last().1@)
    }
}

/// No two entries of the list are for the same query.
pub open spec fn distinct_queries(entries: Seq<(DistanceQuery, DistanceResponse)>) -> bool {
    forall|i: int, j: int|
        0 <= i < j < entries.len() ==> (#[trigger] entries[i]).0@ != (#[trigger] entries[j]).0@
}

/// The list holds an entry that binds `key` to `value`.
pub open spec fn holds_entry(
    entries: Seq<(DistanceQuery, DistanceResponse)>,
    key: QueryView,
    value: ResponseView,
) -> bool {
    exists|i: int|
        0 <= i < entries.len() && (#[trigger] entries[i]).0@ == key && entries[i].1@ == value
}

/// Two lists hold the same bindings, in whatever order and however often.
pub open spec fn same_entries(
    a: Seq<(DistanceQuery, DistanceResponse)>,
    b: Seq<(DistanceQuery, DistanceResponse)>,
) -> bool {
    forall|key: QueryView, value: ResponseView| #[trigger]
        holds_entry(a, key, value) <==> holds_entry(b, key, value)
}

/// A query is bound by the map of a list exactly when some entry holds it.
pub proof fn lemma_entries_map_dom(entries: Seq<(DistanceQuery, DistanceResponse)>, key: QueryView)
    ensures
        entries_map(entries).dom().contains(key) <==> exists|i: int|
            0 <= i < entries.len() && (#[trigger] entries[i]).0@ == key,
    decreases entries.len(),
{
    if entries.len() > 0 {
        let front = entries.drop_last();
        lemma_entries_map_dom(front, key);
        if entries_map(entries).dom().contains(key) {
            if entries.last().0@ == key {
                assert(entries[entries.len() - 1].0@ == key);
            } else {
                let i = choose|i: int| 0 <= i < front.len() && (#[trigger] front[i]).0@ == key;
                assert(entries[i].0@ == key);
            }
        }
        if exists|i: int| 0 <= i < entries.len() && (#[trigger] entries[i]).0@ == key {
            let i = choose|i: int| 0 <= i < entries.len() && (#[trigger] entries[i]).0@ == key;
            if i < entries.len() - 1 {
                assert(front[i].0@ == key);
            }
        }
    }
}

/// In a list without repeated queries, the map binds each entry's query to
/// that entry's response.
pub proof fn lemma_entries_map_at(entries: Seq<(DistanceQuery, DistanceResponse)>, i: int)
    requires
        distinct_queries(entries),
        0 <= i < entries.len(),
    ensures
        entries_map(entries).dom().contains(entries[i].0@),
        entries_map(entries)[entries[i].0@] == entries[i].1@,
    decreases entries.len(),
{
    let front = entries.drop_last();
    if i < entries.len() - 1 {
        assert(front[i] == entries[i]);
        assert(entries[i].0@ != entries[entries.len() - 1].0@);
        assert(distinct_queries(front)) by {
            assert forall|a: int, b: int| 0 <= a < b < front.len() implies (#[trigger] front[a]).0@
                != (#[trigger] front[b]).0@ by {
                assert(front[a] == entries[a] && front[b] == entries[b]);
            }
        }
        lemma_entries_map_at(front, i);
    }
}

/// Replacing the response of one entry, in a list without repeated queries,
/// rebinds that entry's query in the map and changes nothing else.
pub proof fn lemma_entries_map_update(
    entries: Seq<(DistanceQuery, DistanceResponse)>,
    i: int,
    entry: (DistanceQuery, DistanceResponse),
)
    requires
        distinct_queries(entries),
        0 <= i < entries.len(),
        entry.0@ == entries[i].0@,
    ensures
        distinct_queries(entries.update(i, entry)),
        entries_map(entries.update(i, entry)) == entries_map(entries).insert(entry.0@, entry.1@),
    decreases entries.len(),
{
    let changed = entries.update(i, entry);
    assert(distinct_queries(changed)) by {
        assert forall|a: int, b: int| 0 <= a < b < changed.len() implies (#[trigger] changed[a]).0@
            != (#[trigger] changed[b]).0@ by {
            assert(changed[a].0@ == entries[a].0@ && changed[b].0@ == entries[b].0@);
        }
    }
    let front = entries.drop_last();
    if i == entries.len() - 1 {
        assert(changed.drop_last() == front);
        assert(entries_map(changed) == entries_map(entries).insert(entry.0@, entry.1@));
    } else {
        assert(distinct_queries(front)) by {
            assert forall|a: int, b: int| 0 <= a < b < front.len() implies (#[trigger] front[a]).0@
                != (#[trigger] front[b]).0@ by {
                assert(front[a] == entries[a] && front[b] == entries[b]);
            }
        }
        assert(front[i] == entries[i]);
        lemma_entries_map_update(front, i, entry);
        assert(changed.drop_last() == front.update(i, entry));
        assert(changed.last() == entries.last());
        assert(entries[i].0@ != entries[entries.len() - 1].0@);
        assert(entries_map(changed) == entries_map(entries).insert(entry.0@, entry.1@));
    }
}

/// A query that the map of a list binds is bound to the response of one of
/// the list's entries for that query.
pub proof fn lemma_entries_map_witness(
    entries: Seq<(DistanceQuery, DistanceResponse)>,
    key: QueryView,
)
    requires
        entries_map(entries).dom().contains(key),
    ensures
        holds_entry(entries, key, entries_map(entries)[key]),
    decreases entries.len(),
{
    if entries.len() > 0 {
        let front = entries.drop_last();
        if entries.last().0@ == key {
            assert(entries[entries.len() - 1].1@ == entries_map(entries)[key]);
        } else {
            lemma_entries_map_witness(front, key);
            let i = choose|i: int|
                0 <= i < front.len() && (#[trigger] front[i]).0@ == key && front[i].1@
                    == entries_map(front)[key];
            assert(entries[i] == front[i]);
        }
    }
}

/// A cache comes back as it was from any list that holds the bindings of its
/// own entries: when the entries of a cache are written out and read back,
/// neither the order in which they return nor a repeated entry changes the
/// cache that is built from them.
pub proof fn lemma_same_entries_same_map(
    written: Seq<(DistanceQuery, DistanceResponse)>,
    read: Seq<(DistanceQuery, DistanceResponse)>,
)
    requires
        distinct_queries(written),
        same_entries(written, read),
    ensures
        entries_map(read) == entries_map(written),
{
    let before = entries_map(written);
    let after = entries_map(read);
    assert forall|key: QueryView| before.dom().contains(key) implies after.dom().contains(
        key,
    ) by {
        lemma_entries_map_dom(written, key);
        let i = choose|i: int| 0 <= i < written.len() && (#[trigger] written[i]).0@ == key;
        assert(holds_entry(written, key, written[i].1@));
        assert(holds_entry(read, key, written[i].1@));
        lemma_entries_map_dom(read, key);
    }
    assert forall|key: QueryView| #[trigger] after.dom().contains(key) implies before.dom().contains(
        key,
    ) && before[key] == after[key] by {
        lemma_entries_map_witness(read, key);
        assert(holds_entry(written, key, after[key]));
        let i = choose|i: int|
            0 <= i < written.len() && (#[trigger] written[i]).0@ == key && written[i].1@
                == after[key];
        lemma_entries_map_at(written, i);
    }
    assert(after.dom() =~= before.dom());
    assert forall|key: QueryView| after.dom().contains(key) implies #[trigger] after[key]
        == before[key] by {
        assert(after.dom().contains(key));
    }
    assert(after =~= before);
}

/// Binding a query that is already bound replaces its response as a whole:
/// the query is then bound to the new response alone, as if the old one had
/// never been there, and every other query keeps what it had.
pub proof fn lemma_insert_overwrites(
    cache: Map<QueryView, ResponseView>,
    key: QueryView,
    first: ResponseView,
    second: ResponseView,
)
    ensures
        cache.insert(key, first).insert(key, second) == cache.insert(key, second),
        cache.insert(key, first).insert(key, second)[key] == second,
        cache.insert(key, first).insert(key, second).dom() == cache.dom().insert(key),
        forall|other: QueryView|
            other != key && cache.dom().contains(other) ==> #[trigger] cache.insert(
                key,
                first,
            ).insert(key, second)[other] == cache[other],
{
    assert(cache.insert(key, first).insert(key, second) =~= cache.insert(key, second));
    assert(cache.insert(key, second).dom() =~= cache.dom().insert(key));
}

/// The answers known so far, at most one for each query.
#[derive(Debug)]
pub struct Cache {
    entries: Vec<(DistanceQuery, DistanceResponse)>,
}

impl View for Cache {
    type V = Map<QueryView, ResponseView>;

    closed spec fn view(&self) -> Map<QueryView, ResponseView> {
        entries_map(self.entries@)
    }
}

impl Cache {
    #[verifier::type_invariant]
    spec fn well_formed(self) -> bool {
        distinct_queries(self.entries@)
    }

    /// A cache that knows nothing.
    pub fn new() -> (cache: Cache)
        ensures
            cache@ == Map::<QueryView, ResponseView>::empty(),
    {
        Cache { entries: Vec::new() }
    }

    /// Where the entry for `key` stands, if there is one.
    fn position(&self, key: &DistanceQuery) -> (found: Option<usize>)
        ensures
            match found {
                Some(i) => i < self.entries@.len() && self.entries@[i as int].0@ == key@,
                None => forall|i: int|
                    0 <= i < self.entries@.len() ==> (#[trigger] self.entries@[i]).0@ != key@,
            },
    {
        let mut i: usize = 0;
        while i < self.entries.len()
            invariant
                i <= self.entries@.len(),
                forall|j: int| 0 <= j < i ==> (#[trigger] self.entries@[j]).0@ != key@,
            decreases self.entries@.len() - i,
        {
            if self.entries[i].0 == *key {
                return Some(i);
            }
            i += 1;
        }
        None
    }

    /// Binds `key` to `value`. A response already held for `key` is replaced
    /// as a whole; every other query keeps its response.
    pub fn insert(&mut self, key: DistanceQuery, value: DistanceResponse)
        ensures
            final(self)@ == old(self)@.insert(key@, value@),
    {
        proof {
            use_type_invariant(&*self);
        }
        let found = self.position(&key);
        let mut entries = Vec::new();
        std::mem::swap(&mut entries, &mut self.entries);
        match found {
            Some(i) => {
                proof {
                    lemma_entries_map_update(entries@, i as int, (key, value));
                }
                entries.set(i, (key, value));
            },
            None => {
                proof {
                    assert(entries@.push((key, value)).drop_last() == entries@);
                }
                entries.push((key, value));
            },
        }
        self.entries = entries;
    }

    /// The response held for `key`, if there is one.
    pub fn get(&self, key: &DistanceQuery) -> (found: Option<&DistanceResponse>)
        ensures
            match found {
                Some(response) => self@.dom().contains(key@) && response@ == self@[key@],
                None => !self@.dom().contains(key@),
            },
    {
        proof {
            use_type_invariant(self);
            lemma_entries_map_dom(self.entries@, key@);
        }
        match self.position(key) {
            Some(i) => {
                proof {
                    lemma_entries_map_at(self.entries@, i as int);
                }
                Some(&self.entries[i].1)
            },
            None => None,
        }
    }

    /// Whether a response is held for `key`.
    pub fn contains_key(&self, key: &DistanceQuery) -> (held: bool)
        ensures
            held == self@.dom().contains(key@),
    {
        proof {
            lemma_entries_map_dom(self.entries@, key@);
        }
        self.position(key).is_some()
    }

    /// The entries of the cache, one for each query it holds, in no
    /// particular order.
    pub fn entries(&self) -> (list: &Vec<(DistanceQuery, DistanceResponse)>)
        ensures
            distinct_queries(list@),
            entries_map(list@) == self@,
    {
        proof {
            use_type_invariant(self);
        }
        &self.entries
    }

    /// The cache that a list of entries stands for. Where the list holds a
    /// query more than once, the last entry for it counts.
    pub fn from_entries(list: Vec<(DistanceQuery, DistanceResponse)>) -> (cache: Cache)
        ensures
            cache@ == entries_map(list@),
    {
        let mut cache = Cache::new();
        let mut i: usize = 0;
        while i < list.len()
            invariant
                i <= list@.len(),
                cache@ == entries_map(list@.take(i as int)),
            decreases list@.len() - i,
        {
            let key = list[i].0.clone();
            let value = list[i].1.clone();
            proof {
                let next = list@.take(i + 1);
                assert(next.drop_last() == list@.take(i as int));
                assert(next.last() == list@[i as int]);
            }
            cache.insert(key, value);
            i += 1;
        }
        proof {
            assert(list@.take(list@.len() as int) == list@);
        }
        cache
    }
}

impl Default for Cache {
    fn default() -> (cache: Cache)
        ensures
            cache@ == Map::<QueryView, ResponseView>::empty(),
    {
        Cache::new()
    }
}

/// Where the loading of the cache stands. Each state but the last two names
/// what has to be done next; the outcome is handed to [`CacheLoad::resume`].
#[derive(Debug)]
pub enum CacheLoad {
    /// The file holds text, which has to be decoded into entries.
    Decode { text: String },
    /// There is no file: the directory that will hold it has to be created
    /// with all its parents.
    CreateDir,
    /// The directory is there: an empty file has to be created.
    CreateFile,
    /// The cache is loaded. `bootstrap_failed` tells that the directory or
    /// the file could not be created, which is worth a warning and no more.
    Ready { cache: Cache, bootstrap_failed: bool },
    /// The file holds text that is no cache. Nothing is discarded and
    /// nothing is loaded.
    Corrupted,
}

/// What happened to the step that a [`CacheLoad`] asked for.
#[derive(Debug)]
pub enum LoadEvent {
    /// The text was decoded into these entries, or could not be decoded.
    Decoded(Option<Vec<(DistanceQuery, DistanceResponse)>>),
    /// Whether the directory could be created.
    DirCreated(bool),
    /// Whether the empty file could be created.
    FileCreated(bool),
}

/// A state of loading as mathematics sees it.
pub enum LoadView {
    Decode { text: Seq<char> },
    CreateDir,
    CreateFile,
    Ready { cache: Map<QueryView, ResponseView>, bootstrap_failed: bool },
    Corrupted,
}

impl View for CacheLoad {
    type V = LoadView;

    open spec fn view(&self) -> LoadView {
        match self {
            CacheLoad::Decode { text } => LoadView::Decode { text: text@ },
            CacheLoad::CreateDir => LoadView::CreateDir,
            CacheLoad::CreateFile => LoadView::CreateFile,
            CacheLoad::Ready { cache, bootstrap_failed } => LoadView::Ready {
                cache: cache@,
                bootstrap_failed: *bootstrap_failed,
            },
            CacheLoad::Corrupted => LoadView::Corrupted,
        }
    }
}

/// The state in which loading starts, given what reading the file gave:
/// its text, or nothing where it could not be read.
///
/// A file without any text is an empty cache and is not decoded. A missing
/// file is to be created, beginning with its directory.
pub open spec fn load_start(read: Option<Seq<char>>) -> LoadView {
    match read {
        Some(text) => if text.len() == 0 {
            LoadView::Ready { cache: Map::empty(), bootstrap_failed: false }
        } else {
            LoadView::Decode { text }
        },
        None => LoadView::CreateDir,
    }
}

/// The state that follows `state` on `event`.
///
/// Text that cannot be decoded is corruption. A directory or a file that
/// cannot be created leaves an empty cache to work with. An event that the
/// state did not ask for changes nothing.
pub open spec fn load_next(state: LoadView, event: LoadEvent) -> LoadView {
    match (state, event) {
        (LoadView::Decode { .. }, LoadEvent::Decoded(Some(list))) => LoadView::Ready {
            cache: entries_map(list@),
            bootstrap_failed: false,
        },
        (LoadView::Decode { .. }, LoadEvent::Decoded(None)) => LoadView::Corrupted,
        (LoadView::CreateDir, LoadEvent::DirCreated(created)) => if created {
            LoadView::CreateFile
        } else {
            LoadView::Ready { cache: Map::empty(), bootstrap_failed: true }
        },
        (LoadView::CreateFile, LoadEvent::FileCreated(created)) => LoadView::Ready {
            cache: Map::empty(),
            bootstrap_failed: !created,
        },
        _ => state,
    }
}

/// A file without any text loads as the empty cache; nothing is decoded, so
/// nothing can fail to decode.
pub proof fn lemma_empty_file_is_empty_cache()
    ensures
        load_start(Some(Seq::<char>::empty())) == (LoadView::Ready {
            cache: Map::empty(),
            bootstrap_failed: false,
        }),
{
}

/// A missing file leads to the empty cache whatever becomes of creating the
/// directory and the file: first the directory is asked for, then the file,
/// and a failure of either is noted and goes no further.
pub proof fn lemma_missing_file_is_bootstrapped(dir_created: bool, file_created: bool)
    ensures
        load_start(None) == LoadView::CreateDir,
        load_next(LoadView::CreateDir, LoadEvent::DirCreated(true)) == LoadView::CreateFile,
        load_next(LoadView::CreateDir, LoadEvent::DirCreated(false)) == (LoadView::Ready {
            cache: Map::empty(),
            bootstrap_failed: true,
        }),
        load_next(LoadView::CreateFile, LoadEvent::FileCreated(file_created)) == (LoadView::Ready {
            cache: Map::empty(),
            bootstrap_failed: !file_created,
        }),
        load_next(
            load_next(load_start(None), LoadEvent::DirCreated(dir_created)),
            LoadEvent::FileCreated(file_created),
        ) == (LoadView::Ready {
            cache: Map::empty(),
            bootstrap_failed: !(dir_created && file_created),
        }),
{
}

/// A file that holds text which cannot be decoded is corruption: loading
/// ends there, with no cache at all, and no later event changes that.
pub proof fn lemma_undecodable_text_is_corruption(text: Seq<char>, later: LoadEvent)
    requires
        text.len() > 0,
    ensures
        load_start(Some(text)) == (LoadView::Decode { text }),
        load_next(load_start(Some(text)), LoadEvent::Decoded(None)) == LoadView::Corrupted,
        load_next(LoadView::Corrupted, later) == LoadView::Corrupted,
{
}

/// Loading gives back the cache that was written: where the text of the
/// file decodes into a list that holds the bindings of the entries that
/// were written, in whatever order, the loaded cache is the map of the
/// written entries.
pub proof fn lemma_load_restores_written_cache(
    written: Seq<(DistanceQuery, DistanceResponse)>,
    text: Seq<char>,
    read: Vec<(DistanceQuery, DistanceResponse)>,
)
    requires
        distinct_queries(written),
        same_entries(written, read@),
        text.len() > 0,
    ensures
        load_next(load_start(Some(text)), LoadEvent::Decoded(Some(read))) == (LoadView::Ready {
            cache: entries_map(written),
            bootstrap_failed: false,
        }),
{
    lemma_same_entries_same_map(written, read@);
}

/// Starts loading the cache from what reading its file gave: the file's
/// text, or `None` where the file could not be read.
pub fn get_cache(read: Option<String>) -> (state: CacheLoad)
    ensures
        state@ == load_start(text_view(read)),
{
    match read {
        Some(text) => {
            if text.as_str().is_empty() {
                CacheLoad::Ready { cache: Cache::new(), bootstrap_failed: false }
            } else {
                CacheLoad::Decode { text }
            }
        },
        None => CacheLoad::CreateDir,
    }
}

impl CacheLoad {
    /// Goes on with loading once the step that the state asked for is done.
    pub fn resume(self, event: LoadEvent) -> (state: CacheLoad)
        ensures
            state@ == load_next(self@, event),
    {
        match self {
            CacheLoad::Decode { text } => match event {
                LoadEvent::Decoded(Some(list)) => CacheLoad::Ready {
                    cache: Cache::from_entries(list),
                    bootstrap_failed: false,
                },
                LoadEvent::Decoded(None) => CacheLoad::Corrupted,
                _ => CacheLoad::Decode { text },
            },
            CacheLoad::CreateDir => match event {
                LoadEvent::DirCreated(true) => CacheLoad::CreateFile,
                LoadEvent::DirCreated(false) => CacheLoad::Ready {
                    cache: Cache::new(),
                    bootstrap_failed: true,
                },
                _ => CacheLoad::CreateDir,
            },
            CacheLoad::CreateFile => match event {
                LoadEvent::FileCreated(created) => CacheLoad::Ready {
                    cache: Cache::new(),
                    bootstrap_failed: !created,
                },
                _ => CacheLoad::CreateFile,
            },
            CacheLoad::Ready { cache, bootstrap_failed } => CacheLoad::Ready {
                cache,
                bootstrap_failed,
            },
            CacheLoad::Corrupted => CacheLoad::Corrupted,
        }
    }
}

/// One of the steps that write the cache to its file, in the order in
/// which they are taken.
#[derive(Debug, Clone, Copy, PartialEq, Eq, Structural)]
pub enum FlushStep {
    /// The file is opened for writing.
    Open,
    /// The entries of the cache are turned into text.
    Serialize,
    /// The text replaces what the file held.
    Write,
    /// What was written is committed to the disk.
    Sync,
}

/// Where the writing of the cache stands.
#[derive(Debug)]
pub enum CacheFlush {
    /// This step has to be taken next.
    Pending { step: FlushStep },
    /// The cache is on disk.
    Done,
    /// A step failed, which ends the run; `message` names the step and the
    /// file.
    Failed { message: String },
}

/// A state of writing as mathematics sees it.
pub enum FlushView {
    Pending { step: FlushStep },
    Done,
    Failed { message: Seq<char> },
}

impl View for CacheFlush {
    type V = FlushView;

    open spec fn view(&self) -> FlushView {
        match self {
            CacheFlush::Pending { step } => FlushView::Pending { step: *step },
            CacheFlush::Done => FlushView::Done,
            CacheFlush::Failed { message } => FlushView::Failed { message: message@ },
        }
    }
}

/// The report of a step that failed while the cache was written to `path`.
pub open spec fn flush_failure(step: FlushStep, path: Seq<char>) -> Seq<char> {
    match step {
        FlushStep::Open => "failed to open cache at '"@ + path + "'"@,
        FlushStep::Serialize => "failed to serialize cache for '"@ + path + "'"@,
        FlushStep::Write => "failed to write to cache at '"@ + path + "'"@,
        FlushStep::Sync => "failed to flush cache to disk at '"@ + path + "'"@,
    }
}

/// What follows a step of writing the cache to `path`: the next step while
/// all goes well, the end after the last one, and a failure as soon as a
/// step fails.
pub open spec fn flush_next(path: Seq<char>, step: FlushStep, succeeded: bool) -> FlushView {
    if !succeeded {
        FlushView::Failed { message: flush_failure(step, path) }
    } else {
        match step {
            FlushStep::Open => FlushView::Pending { step: FlushStep::Serialize },
            FlushStep::Serialize => FlushView::Pending { step: FlushStep::Write },
            FlushStep::Write => FlushView::Pending { step: FlushStep::Sync },
            FlushStep::Sync => FlushView::Done,
        }
    }
}

/// Goes on with writing the cache to `path` once `step` was taken, with or
/// without success. Writing starts with [`FlushStep::Open`].
pub fn flush_cache(path: &str, step: FlushStep, succeeded: bool) -> (state: CacheFlush)
    ensures
        state@ == flush_next(path@, step, succeeded),
{
    if succeeded {
        match step {
            FlushStep::Open => CacheFlush::Pending { step: FlushStep::Serialize },
            FlushStep::Serialize => CacheFlush::Pending { step: FlushStep::Write },
            FlushStep::Write => CacheFlush::Pending { step: FlushStep::Sync },
            FlushStep::Sync => CacheFlush::Done,
        }
    } else {
        let mut message = String::from_str(
            match step {
                FlushStep::Open => "failed to open cache at '",
                FlushStep::Serialize => "failed to serialize cache for '",
                FlushStep::Write => "failed to write to cache at '",
                FlushStep::Sync => "failed to flush cache to disk at '",
            },
        );
        message.append(path);
        message.append("'");
        CacheFlush::Failed { message }
    }
}

/// Where the cache of `user` is kept unless the configuration says
/// otherwise.
pub fn get_default_cache_path(user: &str) -> (path: String)
    ensures
        path@ == home_path(user@, DEFAULT_CACHE_PATH@, "cache.ron"@),
{
    home_file(user, DEFAULT_CACHE_PATH, "cache.ron")
}

} // verus!
