//! Suppression of repeated file events within a short window.
use vstd::prelude::*;
use lru::LruCache;
use crate::model::{FileEvent, FileEventKey};

verus! {

/// What identifies the file of an event: its path or its inode.
#[derive(Clone, Debug, PartialEq, Eq, Hash)]
pub enum KeyVal {
    Path(String),
    Inode(u64),
}

/// The deduplication key of a file event: thread, file and the kind-specific fields.
#[derive(Clone, Debug, PartialEq, Eq, Hash)]
pub struct FileKey {
    pub pid: u32,
    pub tid: u32,
    pub key: KeyVal,
    pub event_type: FileEventKey,
}

/// A file identity as plain values.
pub enum KeyValView {
    Path(Seq<char>),
    Inode(u64),
}

/// A deduplication key as plain values.
pub struct FileKeyView {
    pub pid: u32,
    pub tid: u32,
    pub key: KeyValView,
    pub event_type: FileEventKey,
}

impl View for FileKey {
    type V = FileKeyView;

    open spec fn view(&self) -> FileKeyView {
        FileKeyView {
            pid: self.pid,
            tid: self.tid,
            key: match self.key {
                KeyVal::Path(p) => KeyValView::Path(p@),
                KeyVal::Inode(i) => KeyValView::Inode(i),
            },
            event_type: self.event_type,
        }
    }
}

/// When a key was last let through (nanoseconds on the monotonic clock the
/// caller reads) and how often it was seen.
#[derive(Clone, Copy, Debug, PartialEq, Eq, Structural)]
pub struct Aggregate {
    pub last_seen: u64,
    pub count: u64,
}

#[verifier::external_type_specification]
#[verifier::external_body]
#[verifier::reject_recursive_types(K)]
#[verifier::reject_recursive_types(V)]
#[verifier::reject_recursive_types(S)]
pub struct ExLruCache<K, V, S>(LruCache<K, V, S>);

#[verifier::external_type_specification]
#[verifier::external_body]
pub struct ExLruHasher(lru::DefaultHasher);

/// No entries.
pub open spec fn no_entries() -> Map<FileKeyView, Aggregate> {
    Map::empty()
}

/// The entries a cache holds, by key.
pub uninterp spec fn lru_entries(c: LruCache<FileKey, Aggregate>) -> Map<FileKeyView, Aggregate>;

/// The number of entries a cache was made to hold at most.
pub uninterp spec fn lru_capacity(c: LruCache<FileKey, Aggregate>) -> nat;

/// `lru::LruCache::new`: an empty cache holding at most `cap` entries.
#[verifier::external_body]
fn lru_new(cap: usize) -> (res: LruCache<FileKey, Aggregate>)
    requires
        cap > 0,
    ensures
        lru_entries(res) == no_entries(),
        lru_capacity(res) == cap,
{
    LruCache::new(std::num::NonZeroUsize::new(cap).unwrap())
}

/// `lru::LruCache::get`: the value of a key (looked up by `Eq` and `Hash`,
/// which `FileKey` derives, so equal views find each other); only the
/// recency order changes, which is not modelled.
#[verifier::external_body]
fn lru_get(c: &mut LruCache<FileKey, Aggregate>, k: &FileKey) -> (res: Option<Aggregate>)
    ensures
        lru_entries(*final(c)) == lru_entries(*old(c)),
        lru_capacity(*final(c)) == lru_capacity(*old(c)),
        res == (if lru_entries(*old(c)).contains_key(k@) { Some(lru_entries(*old(c))[k@]) } else { None }),
{
    c.get(k).copied()
}

/// `lru::LruCache::put`: the key now maps to the value; a key already present
/// is updated in place, else the entry is added, evicting one other entry
/// when the cache is full (the least recently used one, which is not named here).
#[verifier::external_body]
fn lru_put(c: &mut LruCache<FileKey, Aggregate>, k: FileKey, v: Aggregate)
    ensures
        lru_capacity(*final(c)) == lru_capacity(*old(c)),
        ({
            let m0 = lru_entries(*old(c));
            let m1 = lru_entries(*final(c));
            if m0.contains_key(k@) || m0.len() < lru_capacity(*old(c)) {
                m1 == m0.insert(k@, v)
            } else {
                exists|j: FileKeyView| #[trigger] m0.contains_key(j) && j != k@ && m1 == m0.remove(j).insert(k@, v)
            }
        }),
{
    c.put(k, v);
}

/// Remembers recently seen file events.
pub struct FileEventFilter {
    filter: LruCache<FileKey, Aggregate>,
}

/// Events of the same key closer together than this are dropped.
pub const DEDUP_WINDOW_NS: u64 = 1_000_000_000;

/// Number of keys remembered.
pub const FILTER_CAPACITY: usize = 4096;

/// An event of key `k` at `now` comes less than the window after the last
/// event of that key that was let through.
pub open spec fn within_window(m: Map<FileKeyView, Aggregate>, k: FileKeyView, now: u64) -> bool {
    m.contains_key(k) && now - m[k].last_seen < DEDUP_WINDOW_NS
}

/// Once an event is let through at `t`, another of the same key at `t2`
/// within the window is dropped, as long as the key is still remembered with
/// that time.
pub proof fn lemma_repeat_within_window_dropped(m: Map<FileKeyView, Aggregate>, k: FileKeyView, t: u64, t2: u64)
    requires
        m.contains_key(k),
        m[k].last_seen == t,
        t <= t2,
        t2 - t < DEDUP_WINDOW_NS,
    ensures
        within_window(m, k, t2),
{
}

/// One check leaves the time of a remembered key `k` alone, unless it is a
/// check of `k` itself that lets the event through, or `k` is forgotten.
proof fn lemma_check_keeps_time(f0: FileEventFilter, f1: FileEventFilter, own: bool, k2: FileKeyView, now: u64, res: bool, k: FileKeyView)
    requires
        f1.checked(&f0, own, k2, now, res),
        f0.entries().contains_key(k),
        f1.entries().contains_key(k),
        !(k2 == k && !own && !res),
    ensures
        f1.entries()[k].last_seen == f0.entries()[k].last_seen,
{
    let m0 = f0.entries();
    if !own && !m0.contains_key(k2) && m0.len() >= f0.capacity() {
        let a = Aggregate { last_seen: now, count: 1 };
        let j = choose|j: FileKeyView| #[trigger] m0.contains_key(j) && j != k2 && f1.entries() == m0.remove(j).insert(k2, a);
        assert(j != k);
    }
}

proof fn lemma_time_kept_upto(
    fs: Seq<FileEventFilter>,
    owns: Seq<bool>,
    keys: Seq<FileKeyView>,
    times: Seq<u64>,
    results: Seq<bool>,
    k: FileKeyView,
    t1: u64,
    i: int,
)
    requires
        fs.len() == owns.len() + 1,
        owns.len() == keys.len(),
        keys.len() == times.len(),
        times.len() == results.len(),
        0 <= i < owns.len(),
        forall|i: int| 0 <= i < owns.len() ==> #[trigger] fs[i + 1].checked(&fs[i], owns[i], keys[i], times[i], results[i]),
        forall|i: int| 0 <= i < fs.len() ==> #[trigger] fs[i].entries().contains_key(k),
        fs[0].entries()[k].last_seen == t1,
        forall|i: int| 0 <= i < owns.len() - 1 ==> !(#[trigger] keys[i] == k && !owns[i] && !results[i]),
    ensures
        fs[i].entries()[k].last_seen == t1,
    decreases i,
{
    if i > 0 {
        lemma_time_kept_upto(fs, owns, keys, times, results, k, t1, i - 1);
        let p = i - 1;
        assert(fs[p + 1].checked(&fs[p], owns[p], keys[p], times[p], results[p]));
        assert(fs[p].entries().contains_key(k) && fs[p + 1].entries().contains_key(k));
        assert(!(keys[p] == k && !owns[p] && !results[p]));
        lemma_check_keeps_time(fs[p], fs[p + 1], owns[p], keys[p], times[p], results[p], k);
    }
}


/// Per key, at most one event is let through per window: after a key was
/// let through at `t1`, in a run of checks during which it stays remembered
/// and no check lets it through before the last one, the last check, if it
/// lets that key through, comes at least the window after `t1`.
pub proof fn lemma_let_through_once_per_window(
    fs: Seq<FileEventFilter>,
    owns: Seq<bool>,
    keys: Seq<FileKeyView>,
    times: Seq<u64>,
    results: Seq<bool>,
    k: FileKeyView,
    t1: u64,
)
    requires
        fs.len() == owns.len() + 1,
        owns.len() == keys.len(),
        keys.len() == times.len(),
        times.len() == results.len(),
        results.len() > 0,
        forall|i: int| 0 <= i < owns.len() ==> #[trigger] fs[i + 1].checked(&fs[i], owns[i], keys[i], times[i], results[i]),
        forall|i: int| 0 <= i < fs.len() ==> #[trigger] fs[i].entries().contains_key(k),
        fs[0].entries()[k].last_seen == t1,
        forall|i: int| 0 <= i < owns.len() - 1 ==> !(#[trigger] keys[i] == k && !owns[i] && !results[i]),
        keys.last() == k,
        !owns.last(),
        !results.last(),
    ensures
        times.last() - t1 >= DEDUP_WINDOW_NS,
{
    let n: int = owns.len() as int;
    lemma_time_kept_upto(fs, owns, keys, times, results, k, t1, n - 1);
    let p = n - 1;
    assert(fs[p + 1].checked(&fs[p], owns[p], keys[p], times[p], results[p]));
    assert(fs[p].entries().contains_key(k));
}

impl FileEventFilter {
    /// The remembered keys.
    pub closed spec fn entries(&self) -> Map<FileKeyView, Aggregate> {
        lru_entries(self.filter)
    }

    /// How many keys are remembered at most.
    pub closed spec fn capacity(&self) -> nat {
        lru_capacity(self.filter)
    }

    /// The filter remembers at most as many keys as it was made to hold.
    pub open spec fn wf(&self) -> bool {
        &&& self.entries().dom().finite()
        &&& self.entries().len() <= self.capacity()
    }

    /// An empty filter remembering up to 4096 keys.
    pub fn new() -> (f: FileEventFilter)
        ensures
            f.wf(),
            f.entries() == no_entries(),
            f.capacity() == FILTER_CAPACITY,
    {
        FileEventFilter { filter: lru_new(FILTER_CAPACITY) }
    }

    /// What checking an event of key `k` at `now_ns` does to the filter `o`,
    /// with `res` whether the event is dropped. The watcher's own events
    /// (`own`) are dropped and change nothing. A remembered key is dropped
    /// within the window after its last let-through time, which only a kept
    /// event refreshes, and its count goes up; no other key changes. A new key
    /// is kept and remembered as seen once now; when the filter is full one
    /// other key is forgotten, and no other key changes.
    pub open spec fn checked(&self, o: &FileEventFilter, own: bool, k: FileKeyView, now_ns: u64, res: bool) -> bool {
        let m0 = o.entries();
        &&& self.capacity() == o.capacity()
        &&& own ==> res && self.entries() == m0
        &&& !own ==> res == within_window(m0, k, now_ns)
        &&& !own && m0.contains_key(k) ==> ({
            let a = m0[k];
            self.entries() == m0.insert(k, (Aggregate {
                last_seen: if res { a.last_seen } else { now_ns },
                count: if a.count < u64::MAX { (a.count + 1) as u64 } else { a.count },
            }))
        })
        &&& !own && !m0.contains_key(k) ==> ({
            let a = Aggregate { last_seen: now_ns, count: 1 };
            &&& m0.len() < o.capacity() ==> self.entries() == m0.insert(k, a)
            &&& m0.len() >= o.capacity() ==> exists|j: FileKeyView| #[trigger] m0.contains_key(j) && j != k
                && self.entries() == m0.remove(j).insert(k, a)
        })
    }

    /// Whether to drop a file event: always for the watcher's own process
    /// (`own_pid`); otherwise when its key was let through less than a second
    /// before `now_ns`. A kept event refreshes the key's time; every event of
    /// another process counts towards its key.
    pub fn should_drop(&mut self, event: &FileEvent, file_key: FileKey, own_pid: u32, now_ns: u64) -> (res: bool)
        requires
            old(self).wf(),
        ensures
            final(self).wf(),
            final(self).checked(old(self), event.spec_header().pid == own_pid, file_key@, now_ns, res),
    {
        if event.header().pid == own_pid {
            return true;
        }
        match lru_get(&mut self.filter, &file_key) {
            Some(val) => {
                let count = val.count.saturating_add(1);
                let elapsed = now_ns.saturating_sub(val.last_seen);
                if elapsed < DEDUP_WINDOW_NS {
                    lru_put(&mut self.filter, file_key, Aggregate { last_seen: val.last_seen, count });
                    true
                } else {
                    lru_put(&mut self.filter, file_key, Aggregate { last_seen: now_ns, count });
                    false
                }
            },
            None => {
                let ghost k = file_key@;
                lru_put(&mut self.filter, file_key, Aggregate { last_seen: now_ns, count: 1 });
                false
            },
        }
    }
}

} // verus!
