//! Event storage: length-prefixed frames in segment files, the batch index,
//! and the decisions of the writer.
use vstd::prelude::*;
use crate::path::{join_path, path_join};
use crate::scan::lemma_dec_injective;
use crate::text::{dec, dec_string, has_prefix, str_starts_with};

verus! {

/// Number of events written together as one batch.
pub const PER_BATCH_SIZE: usize = 1000;

/// Where a batch of events lies: its segment file, its offset there, and the
/// number of batches written up to and including it.
#[derive(Clone, Copy, Debug, PartialEq, Eq, Structural)]
pub struct BatchInfo {
    pub segment_id: u64,
    pub file_offset: u64,
    pub count: usize,
}

impl Default for BatchInfo {
    /// Segment 0, offset 0, a full batch.
    fn default() -> (res: BatchInfo)
        ensures
            res == (BatchInfo { segment_id: 0, file_offset: 0, count: PER_BATCH_SIZE }),
    {
        BatchInfo { segment_id: 0, file_offset: 0, count: PER_BATCH_SIZE }
    }
}

/// Storage limits in bytes.
#[derive(Clone, Copy, Debug, PartialEq, Eq, Structural)]
pub struct RuntimeLogConfig {
    pub max_segment_size: u64,
    pub max_storage_size: u64,
}

/// The little-endian bytes of a 32-bit value.
pub open spec fn le32(x: nat) -> Seq<u8> {
    seq![(x % 256) as u8, ((x / 256) % 256) as u8, ((x / 65536) % 256) as u8, ((x / 16777216) % 256) as u8]
}

/// The value of four little-endian bytes.
pub open spec fn le32_value(b: Seq<u8>) -> nat {
    (b[0] as nat) + (b[1] as nat) * 256 + (b[2] as nat) * 65536 + (b[3] as nat) * 16777216
}

/// A frame: the payload's length as a little-endian `u32` (the length taken
/// modulo 2^32, as the conversion to `u32` does), then the payload.
pub open spec fn frame(payload: Seq<u8>) -> Seq<u8> {
    le32(payload.len() % 0x1_0000_0000) + payload
}

/// The payloads of consecutive frames: reading stops cleanly where fewer than
/// four bytes are left, and fails where a frame claims more bytes than remain.
pub open spec fn split_frames(s: Seq<u8>) -> Option<Seq<Seq<u8>>>
    decreases s.len(),
{
    if s.len() < 4 {
        Some(Seq::empty())
    } else if s.len() - 4 < le32_value(s.take(4)) {
        None
    } else {
        let n = le32_value(s.take(4)) as int;
        match split_frames(s.skip(4 + n)) {
            Some(rest) => Some(seq![s.subrange(4, 4 + n)] + rest),
            None => None,
        }
    }
}

/// The frames of all payloads, one after the other.
pub open spec fn frames(ps: Seq<Seq<u8>>) -> Seq<u8>
    decreases ps.len(),
{
    if ps.len() == 0 { Seq::empty() } else { frame(ps[0]) + frames(ps.drop_first()) }
}

proof fn lemma_le32_roundtrip(x: nat)
    requires
        x < 0x1_0000_0000,
    ensures
        le32(x).len() == 4,
        le32_value(le32(x)) == x,
{
    let b = le32(x);
    assert(le32_value(b) == x) by (nonlinear_arith)
        requires
            b[0] as nat == x % 256,
            b[1] as nat == (x / 256) % 256,
            b[2] as nat == (x / 65536) % 256,
            b[3] as nat == (x / 16777216) % 256,
            x < 0x1_0000_0000,
    ;
}

/// Reading back what was written gives the payloads again, as long as each
/// payload is shorter than 2^32 bytes.
pub proof fn lemma_frames_roundtrip(ps: Seq<Seq<u8>>)
    requires
        forall|i: int| 0 <= i < ps.len() ==> #[trigger] ps[i].len() < 0x1_0000_0000,
    ensures
        split_frames(frames(ps)) == Some(ps),
    decreases ps.len(),
{
    if ps.len() == 0 {
        assert(frames(ps) =~= Seq::<u8>::empty());
    } else {
        let p = ps[0];
        let rest = ps.drop_first();
        assert forall|i: int| 0 <= i < rest.len() implies #[trigger] rest[i].len() < 0x1_0000_0000 by {
            assert(rest[i] == ps[i + 1]);
        }
        lemma_frames_roundtrip(rest);
        lemma_le32_roundtrip(p.len());
        let s = frames(ps);
        assert(s == frame(p) + frames(rest));
        assert(p.len() % 0x1_0000_0000 == p.len());
        assert(s.take(4) =~= le32(p.len()));
        assert(s.subrange(4, 4 + p.len() as int) =~= p);
        assert(s.skip(4 + p.len() as int) =~= frames(rest));
        assert(split_frames(s) == Some(seq![p] + rest));
        assert(seq![p] + rest =~= ps);
    }
}

/// The frame of a payload: its length as a little-endian `u32`, then the
/// payload (what is appended to a segment or to the index for one record).
pub fn frame_bytes(payload: &[u8]) -> (res: Vec<u8>)
    ensures
        res@ == frame(payload@),
{
    let n: u64 = payload.len() as u64 % 0x1_0000_0000;
    let mut out: Vec<u8> = Vec::new();
    out.push((n % 256) as u8);
    out.push(((n / 256) % 256) as u8);
    out.push(((n / 65536) % 256) as u8);
    out.push(((n / 16777216) % 256) as u8);
    let mut i: usize = 0;
    while i < payload.len()
        invariant
            i <= payload@.len(),
            n == payload@.len() % 0x1_0000_0000,
            out@ == le32(n as nat) + payload@.take(i as int),
        decreases payload.len() - i,
    {
        out.push(payload[i]);
        assert(payload@.take(i + 1) =~= payload@.take(i as int).push(payload@[i as int]));
        assert(out@ =~= le32(n as nat) + payload@.take(i + 1));
        i = i + 1;
    }
    assert(payload@.take(payload@.len() as int) =~= payload@);
    out
}

fn read_le32(bytes: &[u8], at: usize) -> (res: u64)
    requires
        at + 4 <= bytes@.len(),
    ensures
        res == le32_value(bytes@.subrange(at as int, at + 4)),
{
    let b0 = bytes[at] as u64;
    let b1 = bytes[at + 1] as u64;
    let b2 = bytes[at + 2] as u64;
    let b3 = bytes[at + 3] as u64;
    b0 + b1 * 256 + b2 * 65536 + b3 * 16777216
}

/// The positions and lengths of the payloads of consecutive frames, or `None`
/// where a frame claims more bytes than remain (what reading the index file
/// record by record does).
pub fn frame_ranges(bytes: &[u8]) -> (res: Option<Vec<(usize, usize)>>)
    ensures
        match split_frames(bytes@) {
            Some(ps) => res matches Some(v) && v@.len() == ps.len()
                && forall|i: int| 0 <= i < ps.len() ==> (#[trigger] v@[i]).0 + v@[i].1 <= bytes@.len()
                    && bytes@.subrange(v@[i].0 as int, v@[i].0 + v@[i].1) == ps[i],
            None => res is None,
        },
{
    let n = bytes.len();
    let mut pos: usize = 0;
    let mut out: Vec<(usize, usize)> = Vec::new();
    let ghost mut got: Seq<Seq<u8>> = Seq::empty();
    assert(bytes@.skip(0) =~= bytes@);
    while n - pos >= 4
        invariant
            n == bytes@.len(),
            pos <= n,
            out@.len() == got.len(),
            forall|i: int| 0 <= i < got.len() ==> (#[trigger] out@[i]).0 + out@[i].1 <= n
                && bytes@.subrange(out@[i].0 as int, out@[i].0 + out@[i].1) == got[i],
            split_frames(bytes@) == (match split_frames(bytes@.skip(pos as int)) {
                Some(r) => Some(got + r),
                None => None::<Seq<Seq<u8>>>,
            }),
        decreases n - pos,
    {
        let ghost s = bytes@.skip(pos as int);
        assert(s.take(4) =~= bytes@.subrange(pos as int, pos + 4));
        let len = read_le32(bytes, pos);
        if ((n - pos - 4) as u64) < len {
            assert(split_frames(s) is None);
            return None;
        }
        let start = pos + 4;
        let l = len as usize;
        out.push((start, l));
        proof {
            assert(s.subrange(4, 4 + l) =~= bytes@.subrange(start as int, start + l));
            assert(s.skip(4 + l) =~= bytes@.skip(start + l));
            got = got.push(bytes@.subrange(start as int, start + l));
        }
        pos = start + l;
        proof {
            match split_frames(bytes@.skip(pos as int)) {
                Some(r) => {
                    assert(got + r =~= got.drop_last() + (seq![got.last()] + r));
                },
                None => {},
            }
        }
    }
    assert(split_frames(bytes@.skip(pos as int)) == Some(Seq::<Seq<u8>>::empty()));
    assert(got + Seq::<Seq<u8>>::empty() =~= got);
    Some(out)
}

/// The payload of the frame at `offset`, or `None` where the bytes end first.
pub open spec fn frame_at(s: Seq<u8>, offset: int) -> Option<(int, int)> {
    if offset + 4 > s.len() {
        None
    } else if offset + 4 + le32_value(s.subrange(offset, offset + 4)) > s.len() {
        None
    } else {
        Some((offset + 4, le32_value(s.subrange(offset, offset + 4)) as int))
    }
}

/// Position and length of the payload of the frame that starts at `offset`
/// (what reading one batch from a segment does), or `None` where the bytes
/// end before it does.
pub fn frame_range_at(bytes: &[u8], offset: u64) -> (res: Option<(usize, usize)>)
    ensures
        match frame_at(bytes@, offset as int) {
            Some((a, b)) => res == Some((a as usize, b as usize)),
            None => res is None,
        },
{
    let n = bytes.len() as u64;
    if offset > n || n - offset < 4 {
        return None;
    }
    let at = offset as usize;
    let len = read_le32(bytes, at);
    if (n - offset - 4) < len {
        return None;
    }
    Some((at + 4, len as usize))
}

/// Position of the first batch of a segment later than `segment_id`, or the
/// number of batches when there is none.
pub open spec fn first_after(infos: Seq<BatchInfo>, segment_id: u64) -> int
    decreases infos.len(),
{
    if infos.len() == 0 {
        0
    } else if infos[0].segment_id > segment_id {
        0
    } else {
        1 + first_after(infos.drop_first(), segment_id)
    }
}

/// The index without the batches before the first one that lies in a segment
/// later than `segment_id` (what is kept when that segment is removed).
pub fn batches_after(infos: &[BatchInfo], segment_id: u64) -> (res: Vec<BatchInfo>)
    ensures
        res@ == infos@.skip(first_after(infos@, segment_id)),
{
    let n = infos.len();
    let mut first: usize = 0;
    assert(infos@.skip(0) =~= infos@);
    while first < n && infos[first].segment_id <= segment_id
        invariant
            first <= n == infos@.len(),
            first_after(infos@, segment_id) == first + first_after(infos@.skip(first as int), segment_id),
        decreases n - first,
    {
        assert(infos@.skip(first as int).drop_first() =~= infos@.skip(first + 1));
        first = first + 1;
    }
    let mut out: Vec<BatchInfo> = Vec::new();
    let mut i = first;
    while i < n
        invariant
            first <= i <= n == infos@.len(),
            out@ == infos@.subrange(first as int, i as int),
        decreases n - i,
    {
        out.push(infos[i]);
        assert(out@ =~= infos@.subrange(first as int, i + 1));
        i = i + 1;
    }
    assert(infos@.subrange(first as int, n as int) =~= infos@.skip(first as int));
    out
}

/// The name of a segment file.
pub open spec fn segment_name(id: u64) -> Seq<char> {
    "events.bin."@ + dec(id as nat)
}

/// The path of segment `id` in the state directory `state_dir`.
pub fn segment_path(state_dir: &str, id: u64) -> (res: String)
    ensures
        res@ == path_join(state_dir@, segment_name(id)),
{
    let mut name = "events.bin.".to_owned();
    let num = dec_string(id);
    name.append(num.as_str());
    join_path(state_dir, name.as_str())
}

/// The path of the first segment in the state directory.
pub fn log_path(state_dir: &str) -> (res: String)
    ensures
        res@ == path_join(state_dir@, "events.bin.0"@),
{
    join_path(state_dir, "events.bin.0")
}

/// The path of the batch index in the state directory.
pub fn index_path(state_dir: &str) -> (res: String)
    ensures
        res@ == path_join(state_dir@, "index.bin"@),
{
    join_path(state_dir, "index.bin")
}

/// Whether a file of the state directory is an event segment.
pub fn is_segment_file(name: &str) -> (res: bool)
    ensures
        res == has_prefix(name@, "events.bin."@),
{
    str_starts_with(name, "events.bin.")
}

/// The writer's bookkeeping across batches: the segment being written, the
/// bytes written and not yet removed, the oldest segment still on disk, and
/// the number of batches written.
#[derive(Clone, Copy, Debug, PartialEq, Eq, Structural)]
pub struct WriterState {
    pub segment_id: u64,
    pub total_size: u64,
    pub oldest_segment_id: u64,
    pub count: usize,
}

impl WriterState {
    /// Nothing written yet, segment 0.
    pub fn new() -> (w: WriterState)
        ensures
            w == (WriterState { segment_id: 0, total_size: 0, oldest_segment_id: 0, count: 0 }),
    {
        WriterState { segment_id: 0, total_size: 0, oldest_segment_id: 0, count: 0 }
    }

    /// A batch is written once this many events are waiting.
    pub fn batch_ready(pending: usize) -> (res: bool)
        ensures
            res == (pending >= PER_BATCH_SIZE),
    {
        pending >= PER_BATCH_SIZE
    }

    /// Before writing a batch of `batch_size` bytes to a segment that holds
    /// `file_size` bytes: moves on to the next segment when the current one is
    /// not empty and the batch would take it past `max_segment_size`; returns
    /// whether it did.
    pub fn rotate_for(&mut self, file_size: u64, batch_size: u64, max_segment_size: u64) -> (rotated: bool)
        requires
            old(self).segment_id < u64::MAX,
        ensures
            rotated == (file_size > 0 && file_size + batch_size > max_segment_size),
            final(self).segment_id == (if rotated { old(self).segment_id + 1 } else { old(self).segment_id as int }),
            final(self).total_size == old(self).total_size,
            final(self).oldest_segment_id == old(self).oldest_segment_id,
            final(self).count == old(self).count,
    {
        let over = (file_size as u128) + (batch_size as u128) > max_segment_size as u128;
        if file_size > 0 && over {
            self.segment_id = self.segment_id + 1;
            true
        } else {
            false
        }
    }

    /// Accounts for a batch of `batch_size` bytes written.
    pub fn record_write(&mut self, batch_size: u64)
        requires
            old(self).total_size + batch_size <= u64::MAX,
        ensures
            *final(self) == (WriterState { total_size: (old(self).total_size + batch_size) as u64, ..*old(self) }),
    {
        self.total_size = self.total_size + batch_size;
    }

    /// Whether the oldest segment has to go: more than `max_storage_size`
    /// bytes are kept and it is not the segment being written.
    pub fn must_evict(&self, max_storage_size: u64) -> (res: bool)
        ensures
            res == (self.total_size > max_storage_size && self.oldest_segment_id < self.segment_id),
    {
        self.total_size > max_storage_size && self.oldest_segment_id < self.segment_id
    }

    /// Accounts for the removal of the oldest segment, of `size` bytes.
    pub fn evicted(&mut self, size: u64)
        requires
            size <= old(self).total_size,
            old(self).oldest_segment_id < old(self).segment_id,
        ensures
            *final(self) == (WriterState {
                total_size: (old(self).total_size - size) as u64,
                oldest_segment_id: (old(self).oldest_segment_id + 1) as u64,
                ..*old(self)
            }),
    {
        self.total_size = self.total_size - size;
        self.oldest_segment_id = self.oldest_segment_id + 1;
    }

    /// Counts a finished batch that starts at `file_offset` in the current
    /// segment and gives its index entry.
    pub fn finish_batch(&mut self, file_offset: u64) -> (info: BatchInfo)
        requires
            old(self).count < usize::MAX,
        ensures
            *final(self) == (WriterState { count: (old(self).count + 1) as usize, ..*old(self) }),
            info == (BatchInfo { segment_id: old(self).segment_id, file_offset, count: final(self).count }),
    {
        self.count = self.count + 1;
        BatchInfo { segment_id: self.segment_id, file_offset, count: self.count }
    }
}

/// The bytes a batch of `payload_len` serialized bytes takes in a segment.
pub fn batch_size_of(payload_len: usize) -> (res: u64)
    requires
        payload_len as int + 4 <= u64::MAX,
    ensures
        res == payload_len + 4,
{
    4 + payload_len as u64
}

/// Segments of distinct ids lie at distinct paths of the state directory,
/// segment 0 is the log file, and every segment's name starts with
/// `events.bin.`.
pub proof fn lemma_segment_paths_distinct(state_dir: Seq<char>, a: u64, b: u64)
    ensures
        path_join(state_dir, segment_name(a)) == path_join(state_dir, segment_name(b)) <==> a == b,
        path_join(state_dir, segment_name(0)) == path_join(state_dir, "events.bin.0"@),
        has_prefix(segment_name(a), "events.bin."@),
{
    reveal_strlit("events.bin.");
    reveal_strlit("events.bin.0");
    let pre = "events.bin."@;
    let na = segment_name(a);
    let nb = segment_name(b);
    assert(na[0] == 'e' && nb[0] == 'e');
    let lead = if state_dir.len() > 0 && state_dir.last() != '/' { state_dir + seq!['/'] } else { state_dir };
    assert(path_join(state_dir, na) =~= lead + na);
    assert(path_join(state_dir, nb) =~= lead + nb);
    if path_join(state_dir, na) == path_join(state_dir, nb) {
        assert(na =~= (lead + na).skip(lead.len() as int));
        assert(nb =~= (lead + nb).skip(lead.len() as int));
        assert(dec(a as nat) =~= na.skip(pre.len() as int));
        assert(dec(b as nat) =~= nb.skip(pre.len() as int));
        lemma_dec_injective(a as nat, b as nat);
    }
    assert(dec(0) == seq!['0']);
    assert(segment_name(0) =~= "events.bin.0"@);
    assert(na.take(pre.len() as int) =~= pre);
}
/// Bytes held by segments `lo..=hi`, given the size of each segment.
pub open spec fn stored_bytes(sizes: Map<u64, nat>, lo: int, hi: int) -> int
    decreases hi + 1 - lo,
{
    if lo > hi { 0 } else { sizes[lo as u64] + stored_bytes(sizes, lo + 1, hi) }
}

/// Removing the oldest segment keeps the writer's account right: when its
/// total is what the segments from the oldest to the current one hold, the
/// oldest one's size fits in it, and afterwards the total is what the
/// remaining segments hold.
pub proof fn lemma_eviction_keeps_account(w: WriterState, sizes: Map<u64, nat>)
    requires
        w.oldest_segment_id < w.segment_id,
        w.total_size == stored_bytes(sizes, w.oldest_segment_id as int, w.segment_id as int),
    ensures
        sizes[w.oldest_segment_id] <= w.total_size,
        w.total_size - sizes[w.oldest_segment_id]
            == stored_bytes(sizes, w.oldest_segment_id + 1, w.segment_id as int),
{
    lemma_stored_nonneg(sizes, w.oldest_segment_id + 1, w.segment_id as int);
}

proof fn lemma_stored_nonneg(sizes: Map<u64, nat>, lo: int, hi: int)
    ensures
        stored_bytes(sizes, lo, hi) >= 0,
    decreases hi + 1 - lo,
{
    if lo <= hi {
        lemma_stored_nonneg(sizes, lo + 1, hi);
    }
}

/// When the writer stops evicting, the segments it keeps hold at most
/// `max_storage_size` bytes, or only the segment being written is left.
pub proof fn lemma_storage_within_limit(w: WriterState, max_storage_size: u64)
    requires
        !(w.total_size > max_storage_size && w.oldest_segment_id < w.segment_id),
    ensures
        w.total_size <= max_storage_size || w.oldest_segment_id >= w.segment_id,
{
}
/// Writing a batch keeps the writer's account right: when its total is what
/// the segments from the oldest to the current one hold, then after the batch
/// is added to the current segment it still is.
pub proof fn lemma_write_keeps_account(w: WriterState, sizes: Map<u64, nat>, batch_size: u64)
    requires
        w.oldest_segment_id <= w.segment_id,
        w.total_size == stored_bytes(sizes, w.oldest_segment_id as int, w.segment_id as int),
    ensures
        w.total_size + batch_size == stored_bytes(
            sizes.insert(w.segment_id, sizes[w.segment_id] + batch_size as nat),
            w.oldest_segment_id as int,
            w.segment_id as int,
        ),
{
    lemma_stored_update_last(sizes, w.oldest_segment_id as int, w.segment_id as int, sizes[w.segment_id] + batch_size as nat);
}

proof fn lemma_stored_update_last(sizes: Map<u64, nat>, lo: int, hi: int, v: nat)
    requires
        0 <= lo <= hi <= u64::MAX,
    ensures
        stored_bytes(sizes.insert(hi as u64, v), lo, hi) == stored_bytes(sizes, lo, hi) - sizes[hi as u64] + v,
    decreases hi + 1 - lo,
{
    let s2 = sizes.insert(hi as u64, v);
    if lo < hi {
        lemma_stored_update_last(sizes, lo + 1, hi, v);
        assert((lo as u64) != (hi as u64));
        assert(s2[lo as u64] == sizes[lo as u64]);
    } else {
        assert(stored_bytes(s2, lo + 1, hi) == 0);
        assert(stored_bytes(sizes, lo + 1, hi) == 0);
    }
}
/// Moving on to a new, empty segment keeps the writer's account right.
pub proof fn lemma_rotation_keeps_account(w: WriterState, sizes: Map<u64, nat>)
    requires
        w.oldest_segment_id <= w.segment_id < u64::MAX,
        w.total_size == stored_bytes(sizes, w.oldest_segment_id as int, w.segment_id as int),
    ensures
        w.total_size == stored_bytes(sizes.insert((w.segment_id + 1) as u64, 0), w.oldest_segment_id as int, w.segment_id + 1),
{
    lemma_stored_extend(sizes, w.oldest_segment_id as int, w.segment_id as int);
}

proof fn lemma_stored_extend(sizes: Map<u64, nat>, lo: int, hi: int)
    requires
        0 <= lo <= hi < u64::MAX,
    ensures
        stored_bytes(sizes.insert((hi + 1) as u64, 0), lo, hi + 1) == stored_bytes(sizes, lo, hi),
    decreases hi + 1 - lo,
{
    let s2 = sizes.insert((hi + 1) as u64, 0);
    assert((lo as u64) != ((hi + 1) as u64));
    assert(s2[lo as u64] == sizes[lo as u64]);
    if lo < hi {
        lemma_stored_extend(sizes, lo + 1, hi);
    } else {
        assert(stored_bytes(s2, hi + 2, hi + 1) == 0);
        assert(stored_bytes(s2, lo + 1, hi + 1) == s2[(hi + 1) as u64]);
        assert(stored_bytes(sizes, lo + 1, hi) == 0);
    }
}
/// The writer's account matches the segments it keeps: the oldest kept
/// segment is at most the current one, and the total is what the kept
/// segments hold.
pub open spec fn accounted(w: WriterState, sizes: Map<u64, nat>) -> bool {
    &&& w.oldest_segment_id <= w.segment_id
    &&& w.total_size == stored_bytes(sizes, w.oldest_segment_id as int, w.segment_id as int)
}

/// The writer after removing oldest segments while it keeps more than
/// `max_storage_size` bytes and an older segment is left (what `evicted`
/// does, for each segment `must_evict` asks for).
pub open spec fn evict_until(w: WriterState, sizes: Map<u64, nat>, max_storage_size: u64) -> WriterState
    decreases w.segment_id - w.oldest_segment_id,
{
    if w.total_size > max_storage_size && w.oldest_segment_id < w.segment_id && sizes[w.oldest_segment_id] <= w.total_size {
        evict_until(WriterState {
            total_size: (w.total_size - sizes[w.oldest_segment_id]) as u64,
            oldest_segment_id: (w.oldest_segment_id + 1) as u64,
            ..w
        }, sizes, max_storage_size)
    } else {
        w
    }
}

/// Evicting until the limit keeps the account right, removes segments oldest
/// first without touching the current one, and ends within the limit or with
/// only the current segment left.
pub proof fn lemma_evict_until(w: WriterState, sizes: Map<u64, nat>, max_storage_size: u64)
    requires
        accounted(w, sizes),
    ensures
        accounted(evict_until(w, sizes, max_storage_size), sizes),
        evict_until(w, sizes, max_storage_size).segment_id == w.segment_id,
        evict_until(w, sizes, max_storage_size).count == w.count,
        evict_until(w, sizes, max_storage_size).oldest_segment_id >= w.oldest_segment_id,
        evict_until(w, sizes, max_storage_size).total_size <= max_storage_size
            || evict_until(w, sizes, max_storage_size).oldest_segment_id == w.segment_id,
    decreases w.segment_id - w.oldest_segment_id,
{
    if w.total_size > max_storage_size && w.oldest_segment_id < w.segment_id {
        lemma_eviction_keeps_account(w, sizes);
        let w2 = WriterState {
            total_size: (w.total_size - sizes[w.oldest_segment_id]) as u64,
            oldest_segment_id: (w.oldest_segment_id + 1) as u64,
            ..w
        };
        lemma_evict_until(w2, sizes, max_storage_size);
    }
}

/// One batch of the writer loop keeps the account right and ends within the
/// storage limit: with the account matching the segments before the batch
/// (the current one holding `file_size` bytes), it moves on to a new, empty
/// segment exactly when the current one is not empty and the batch would
/// take it past `max_segment_size`, adds the batch there, and evicts oldest
/// segments first until at most `max_storage_size` bytes are kept or only the
/// current segment is left.
pub proof fn lemma_writer_batch(
    w: WriterState,
    sizes: Map<u64, nat>,
    file_size: u64,
    batch_size: u64,
    max_segment_size: u64,
    max_storage_size: u64,
)
    requires
        accounted(w, sizes),
        sizes[w.segment_id] == file_size,
        w.segment_id < u64::MAX,
        w.total_size + batch_size <= u64::MAX,
    ensures
        ({
            let rotated = file_size > 0 && file_size + batch_size > max_segment_size;
            let seg = if rotated { (w.segment_id + 1) as u64 } else { w.segment_id };
            let sizes1 = if rotated { sizes.insert(seg, 0) } else { sizes };
            let sizes2 = sizes1.insert(seg, sizes1[seg] + batch_size as nat);
            let w2 = WriterState { segment_id: seg, total_size: (w.total_size + batch_size) as u64, ..w };
            let w3 = evict_until(w2, sizes2, max_storage_size);
            &&& accounted(w3, sizes2)
            &&& w3.segment_id == seg
            &&& w3.total_size <= max_storage_size || w3.oldest_segment_id == seg
        }),
{
    let rotated = file_size > 0 && file_size + batch_size > max_segment_size;
    let seg = if rotated { (w.segment_id + 1) as u64 } else { w.segment_id };
    let sizes1 = if rotated { sizes.insert(seg, 0) } else { sizes };
    let w1 = WriterState { segment_id: seg, ..w };
    if rotated {
        lemma_rotation_keeps_account(w, sizes);
    }
    assert(accounted(w1, sizes1));
    lemma_write_keeps_account(w1, sizes1, batch_size);
    let sizes2 = sizes1.insert(seg, sizes1[seg] + batch_size as nat);
    let w2 = WriterState { segment_id: seg, total_size: (w.total_size + batch_size) as u64, ..w };
    assert(accounted(w2, sizes2));
    lemma_evict_until(w2, sizes2, max_storage_size);
}
/// Appending one more frame to the frames of `ps` gives the frames of `ps`
/// with the payload added at the end.
proof fn lemma_frames_push(ps: Seq<Seq<u8>>, p: Seq<u8>)
    ensures
        frames(ps.push(p)) == frames(ps) + frame(p),
    decreases ps.len(),
{
    if ps.len() == 0 {
        assert(ps.push(p).drop_first() =~= Seq::<Seq<u8>>::empty());
        assert(frames(ps.push(p)) =~= frame(p) + frames(Seq::<Seq<u8>>::empty()));
        assert(frames(ps.push(p)) =~= frames(ps) + frame(p));
    } else {
        lemma_frames_push(ps.drop_first(), p);
        assert(ps.push(p).drop_first() =~= ps.drop_first().push(p));
        assert(frames(ps.push(p)) =~= frame(ps[0]) + frames(ps.drop_first().push(p)));
        assert(frames(ps.push(p)) =~= frames(ps) + frame(p));
    }
}

/// The batch index reads back the records written to it: starting from an
/// empty index, appending the frames of the records one by one leaves bytes
/// that read back as exactly those records, in order.
pub proof fn lemma_index_reads_back(ps: Seq<Seq<u8>>, p: Seq<u8>)
    requires
        forall|i: int| 0 <= i < ps.len() ==> #[trigger] ps[i].len() < 0x1_0000_0000,
        p.len() < 0x1_0000_0000,
    ensures
        frames(ps) + frame(p) == frames(ps.push(p)),
        split_frames(frames(ps) + frame(p)) == Some(ps.push(p)),
{
    lemma_frames_push(ps, p);
    assert forall|i: int| 0 <= i < ps.push(p).len() implies #[trigger] ps.push(p)[i].len() < 0x1_0000_0000 by {
        if i < ps.len() {
            assert(ps.push(p)[i] == ps[i]);
        }
    }
    lemma_frames_roundtrip(ps.push(p));
}

/// A batch reads back from its segment as written: when a frame was appended
/// after `prefix` (its offset is the length of `prefix`), whatever was
/// appended after it, the frame at that offset holds exactly the payload.
pub proof fn lemma_batch_reads_back(prefix: Seq<u8>, p: Seq<u8>, rest: Seq<u8>)
    requires
        p.len() < 0x1_0000_0000,
    ensures
        ({
            let s = prefix + frame(p) + rest;
            &&& frame_at(s, prefix.len() as int) == Some((prefix.len() as int + 4, p.len() as int))
            &&& s.subrange(prefix.len() as int + 4, prefix.len() as int + 4 + p.len()) == p
        }),
{
    let s = prefix + frame(p) + rest;
    let o = prefix.len() as int;
    lemma_le32_roundtrip(p.len());
    assert(s.subrange(o, o + 4) =~= le32(p.len()));
    assert(s.subrange(o + 4, o + 4 + p.len()) =~= p);
}
} // verus!
