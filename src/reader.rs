use vstd::prelude::*;
use crate::chunk::{slice_chunk, slice_fits, slice_spec};
use crate::error::{Error, ErrorKind};
use crate::keys::{content_key, format_content_cache_path};
use crate::partition::{ChunkTriple, FixedCacheRangeIterator};
use crate::range::BytesRange;

verus! {

/// What to do after a read from the cache store failed.
pub enum MissStep {
    /// The entry is absent: fetch from the origin and fill the cache.
    Fill,
    /// Any other failure: hand it to the caller.
    Fail(Error),
}

/// A cache `ObjectNotFound` is recovered by filling from the origin; any
/// other cache error is surfaced.
pub fn on_cache_read_error(e: Error) -> (r: MissStep)
    ensures
        e.kind == ErrorKind::ObjectNotFound ==> r is Fill,
        e.kind != ErrorKind::ObjectNotFound ==> (r matches MissStep::Fail(x) && x == e),
{
    if e.kind == ErrorKind::ObjectNotFound {
        MissStep::Fill
    } else {
        MissStep::Fail(e)
    }
}

/// The loading of one chunk: the cache key to read, the range to read
/// inside the chunk, and the aligned chunk range to fetch from the origin
/// on a miss.
pub struct ChunkRequest {
    pub cache_path: String,
    pub cache_range: BytesRange,
    pub total_range: BytesRange,
}

impl ChunkRequest {
    /// The request is the one that triple `t` of the object at `path` gives.
    pub open spec fn is_for(&self, path: Seq<char>, t: ChunkTriple) -> bool {
        &&& self.cache_path@ == content_key(path, t.0)
        &&& self.cache_range == t.1
        &&& self.total_range == t.2
    }
}

/// What a chunk miss leaves behind: the bytes to write to the cache at `key`
/// and the part of them that is served to the caller.
pub struct ChunkFill {
    pub key: String,
    pub bytes: Vec<u8>,
    pub served: Vec<u8>,
}

/// Handles a chunk that missed: `origin` is the whole aligned chunk as read
/// from the origin. All of it goes to the cache under the chunk's key, and
/// the requested range is cut out of it for the caller.
///
/// `None` when the requested range starts past the end of what the origin
/// returned.
pub fn fill_chunk(req: &ChunkRequest, origin: Vec<u8>) -> (r: Option<ChunkFill>)
    ensures
        r is Some <==> slice_fits(origin@.len(), req.cache_range),
        r matches Some(f) ==> f.key@ == req.cache_path@ && f.bytes@ == origin@
            && f.served@ == slice_spec(origin@, req.cache_range),
{
    let len: u64 = origin.len() as u64;
    let fits: bool = match req.cache_range.offset {
        Some(o) => o <= len,
        None => match req.cache_range.size {
            Some(s) => s <= len,
            None => true,
        },
    };
    if !fits {
        return None;
    }
    let mut copy: Vec<u8> = Vec::new();
    let n: usize = origin.len();
    let mut i: usize = 0;
    while i < n
        invariant
            n == origin@.len(),
            i <= n,
            copy@ == origin@.subrange(0, i as int),
        decreases n - i,
    {
        copy.push(origin[i]);
        i = i + 1;
        assert(copy@ =~= origin@.subrange(0, i as int));
    }
    assert(copy@ =~= origin@);
    let served = slice_chunk(origin, req.cache_range);
    Some(ChunkFill { key: req.cache_path.clone(), bytes: copy, served })
}

/// The state of a fixed-step reader.
pub enum FixedCacheState {
    /// Idle: about to ask for the next chunk.
    Iterating,
    /// The load of a chunk is in flight.
    Fetching,
    /// Draining the stream of the current chunk.
    Reading,
    /// A load or a read failed; the reader yields nothing more.
    Failed,
}

/// A reader that serves a byte range of the object at `path` one aligned
/// chunk at a time. It holds the decisions; the caller performs the loads
/// and reports back.
pub struct FixedCacheReader {
    pub path: String,
    pub it: FixedCacheRangeIterator,
    pub state: FixedCacheState,
}

impl FixedCacheReader {
    pub open spec fn wf(&self) -> bool {
        self.it.wf()
    }

    pub fn new(path: &str, it: FixedCacheRangeIterator) -> (r: Self)
        requires
            it.wf(),
        ensures
            r.wf(),
            r.path@ == path@,
            r.it == it,
            r.state is Iterating,
    {
        FixedCacheReader { path: path.to_owned(), it, state: FixedCacheState::Iterating }
    }

    /// The number of bytes that the reader yields in all.
    pub fn content_length(&self) -> (r: u64)
        ensures
            r == self.it.size,
    {
        self.it.size()
    }

    /// From `Iterating`: the request for the next chunk, after which the
    /// reader is `Fetching`; or `None` once the range is covered, and the
    /// read ends with zero bytes.
    pub fn next_request(&mut self) -> (r: Option<ChunkRequest>)
        requires
            old(self).wf(),
            old(self).state is Iterating,
        ensures
            final(self).wf(),
            final(self).path == old(self).path,
            old(self).it.remaining().len() == 0 ==> r is None && *final(self) == *old(self),
            old(self).it.remaining().len() > 0 ==> (r matches Some(req)
                && req.is_for(old(self).path@, old(self).it.remaining()[0])
                && final(self).it.remaining() == old(self).it.remaining().drop_first()
                && final(self).state is Fetching),
    {
        match self.it.next() {
            None => None,
            Some((idx, cache_range, total_range)) => {
                let cache_path = format_content_cache_path(self.path.as_str(), idx);
                self.state = FixedCacheState::Fetching;
                Some(ChunkRequest { cache_path, cache_range, total_range })
            },
        }
    }

    /// From `Fetching`: the load resolved. On success the chunk's stream is
    /// read next; on failure the reader stops and the error goes to the
    /// caller.
    pub fn on_loaded(&mut self, loaded: Result<(), Error>) -> (r: Option<Error>)
        requires
            old(self).wf(),
            old(self).state is Fetching,
        ensures
            final(self).wf(),
            final(self).path == old(self).path,
            final(self).it == old(self).it,
            loaded is Ok ==> r is None && final(self).state is Reading,
            loaded matches Err(e) ==> r == Some(e) && final(self).state is Failed,
    {
        match loaded {
            Ok(()) => {
                self.state = FixedCacheState::Reading;
                None
            },
            Err(e) => {
                self.state = FixedCacheState::Failed;
                Some(e)
            },
        }
    }

    /// From `Reading`: the chunk's stream yielded `n` bytes. Returns whether
    /// they go to the caller; a drained stream (`n == 0`) sends the reader
    /// back to `Iterating` for the next chunk.
    pub fn on_read(&mut self, n: usize) -> (r: bool)
        requires
            old(self).wf(),
            old(self).state is Reading,
        ensures
            final(self).wf(),
            final(self).path == old(self).path,
            final(self).it == old(self).it,
            r == (n > 0),
            n > 0 ==> final(self).state is Reading,
            n == 0 ==> final(self).state is Iterating,
    {
        if n == 0 {
            self.state = FixedCacheState::Iterating;
            false
        } else {
            true
        }
    }

    /// From `Reading`: the chunk's stream failed. The reader stops; the
    /// stream's error goes to the caller.
    pub fn on_read_failed(&mut self)
        requires
            old(self).wf(),
            old(self).state is Reading,
        ensures
            final(self).wf(),
            final(self).path == old(self).path,
            final(self).it == old(self).it,
            final(self).state is Failed,
    {
        self.state = FixedCacheState::Failed;
    }
}

/// The absolute window `(offset, size)` that `range` selects in an object of
/// `total` bytes: an open end runs to the end of the object, and a range
/// with only a size is a suffix of that many bytes.
pub open spec fn resolve_spec(range: BytesRange, total: u64) -> (u64, u64) {
    match (range.offset, range.size) {
        (Some(o), Some(s)) => (o, s),
        (Some(o), None) => (o, (total - o) as u64),
        (None, Some(s)) => ((total - s) as u64, s),
        (None, None) => (0, total),
    }
}

/// Whether `range` lies within an object of `total` bytes where it leaves
/// an end open.
pub open spec fn resolvable(range: BytesRange, total: u64) -> bool {
    &&& (range.offset matches Some(o) ==> (range.size is None ==> o <= total))
    &&& (range.offset is None ==> (range.size matches Some(s) ==> s <= total))
}

pub fn resolve_range(range: BytesRange, total: u64) -> (r: (u64, u64))
    requires
        resolvable(range, total),
    ensures
        r == resolve_spec(range, total),
{
    match range.offset {
        Some(o) => match range.size {
            Some(s) => (o, s),
            None => (o, total - o),
        },
        None => match range.size {
            Some(s) => (total - s, s),
            None => (0, total),
        },
    }
}

/// How a fixed-step read begins.
pub enum FixedStart {
    /// Both ends of the range were given: the reader is ready.
    Ready(FixedCacheReader),
    /// An end of the range is open: the object's length must be fetched
    /// first (see `start_fixed_read_with_length`).
    NeedLength,
    /// Both ends were given, but the end of the range does not fit in a
    /// `u64`.
    Invalid(Error),
}

/// Starts a fixed-step read of `range` over the object at `path`.
pub fn start_fixed_read(path: &str, range: BytesRange, step: u64) -> (r: FixedStart)
    requires
        step > 0,
    ensures
        (range.offset is None || range.size is None) <==> r is NeedLength,
        (range.offset is Some && range.size is Some && range.offset.unwrap() + range.size.unwrap()
            > u64::MAX) <==> r is Invalid,
        r matches FixedStart::Invalid(e) ==> e.kind == ErrorKind::Unexpected,
        r matches FixedStart::Ready(rd) ==> rd.wf() && rd.path@ == path@ && rd.state is Iterating
            && rd.it == FixedCacheRangeIterator::new_spec(
            range.offset.unwrap(),
            range.size.unwrap(),
            step,
        ),
{
    match range.offset {
        Some(o) => match range.size {
            Some(s) => {
                if s <= u64::MAX - o {
                    let it = FixedCacheRangeIterator::new(o, s, step);
                    FixedStart::Ready(FixedCacheReader::new(path, it))
                } else {
                    FixedStart::Invalid(
                        Error::new(ErrorKind::Unexpected, "the end of the byte range overflows", "read"),
                    )
                }
            },
            None => FixedStart::NeedLength,
        },
        None => FixedStart::NeedLength,
    }
}

/// Starts a fixed-step read of `range` over the object at `path`, whose
/// length `total` is known; `None` when an open range does not lie within
/// the object.
pub fn start_fixed_read_with_length(path: &str, range: BytesRange, step: u64, total: u64) -> (r:
    Option<FixedCacheReader>)
    requires
        step > 0,
    ensures
        r is Some <==> (resolvable(range, total) && resolve_spec(range, total).0 + resolve_spec(
            range,
            total,
        ).1 <= u64::MAX),
        r matches Some(rd) ==> rd.wf() && rd.path@ == path@ && rd.state is Iterating
            && rd.it == FixedCacheRangeIterator::new_spec(
            resolve_spec(range, total).0,
            resolve_spec(range, total).1,
            step,
        ),
{
    let ok: bool = match range.offset {
        Some(o) => match range.size {
            Some(_) => true,
            None => o <= total,
        },
        None => match range.size {
            Some(s) => s <= total,
            None => true,
        },
    };
    if !ok {
        return None;
    }
    let (o, s) = resolve_range(range, total);
    if s > u64::MAX - o {
        return None;
    }
    let it = FixedCacheRangeIterator::new(o, s, step);
    Some(FixedCacheReader::new(path, it))
}

} // verus!
