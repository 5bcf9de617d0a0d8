use vstd::prelude::*;
use crate::error::{Error, ErrorKind};
use crate::keys::{format_meta_cache_path, meta_key};
use crate::metadata::{
    decode_metadata, encode_metadata, metadata_bytes, ObjectMetadata, MAX_METADATA_LEN,
};

verus! {

/// What a stat does once the metadata cache has answered.
pub enum StatStep {
    /// The answer, taken from the cache.
    Done(Result<ObjectMetadata, Error>),
    /// Stat the origin. With `fill`, write what it returns back to the
    /// metadata cache; without, bypass the cache.
    StatOrigin { fill: bool },
}

/// Decides a stat from what the metadata cache returned for the object's
/// metadata key: the bytes of the entry, or the cache's error. A hit is
/// decoded and answered without the origin; a miss stats the origin and
/// fills the cache; any other cache error falls back to the origin alone.
pub fn stat_on_cache_read(cached: Result<Vec<u8>, Error>) -> (r: StatStep)
    ensures
        cached matches Ok(bs) ==> (r matches StatStep::Done(res)
            && (forall|m| #[trigger] metadata_bytes(m) == bs@ && bs@.len() <= MAX_METADATA_LEN
                ==> (res matches Ok(x) && x@ == m))
            && (res matches Err(e) ==> e.kind == ErrorKind::Unexpected
                && e.operation@ == "CacheLayer::decode_metadata"@)),
        cached matches Err(e) ==> (r matches StatStep::StatOrigin { fill }
            && fill == (e.kind == ErrorKind::ObjectNotFound)),
{
    match cached {
        Ok(bs) => StatStep::Done(decode_metadata(bs.as_slice())),
        Err(e) => StatStep::StatOrigin { fill: e.kind == ErrorKind::ObjectNotFound },
    }
}

/// After a miss, the origin's metadata `meta` is written to the cache: the
/// key and the bytes of that write, which always come. A later stat that
/// reads these bytes decodes `meta` back (see `stat_on_cache_read`).
pub fn stat_fill(path: &str, meta: &ObjectMetadata) -> (r: Result<(String, Vec<u8>), Error>)
    ensures
        r is Ok,
        r matches Ok((k, b)) ==> k@ == meta_key(path@) && b@ == metadata_bytes(meta@),
{
    match encode_metadata(meta) {
        Ok(b) => Ok((format_meta_cache_path(path), b)),
        Err(e) => Err(e),
    }
}

} // verus!
