use std::collections::HashMap;

use cache_layer::chunk::slice_chunk;
use cache_layer::error::{Error, ErrorKind};
use cache_layer::keys::format_meta_cache_path;
use cache_layer::metadata::{decode_metadata, encode_metadata, ObjectMetadata};
use cache_layer::range::BytesRange;
use cache_layer::reader::{
    fill_chunk, on_cache_read_error, start_fixed_read, start_fixed_read_with_length,
    FixedCacheReader, FixedCacheState, FixedStart, MissStep,
};
use cache_layer::stat::{stat_fill, stat_on_cache_read, StatStep};
use cache_layer::{CacheLayer, CacheStrategy};

/// A memory-backed store that counts the calls made to it.
#[derive(Default)]
struct Mem {
    objects: HashMap<String, Vec<u8>>,
    calls: usize,
}

fn not_found() -> Error {
    Error::new(ErrorKind::ObjectNotFound, "object not found", "read")
}

impl Mem {
    fn read(&mut self, path: &str, range: BytesRange) -> Result<Vec<u8>, Error> {
        self.calls += 1;
        let data = self.objects.get(path).cloned().ok_or_else(not_found)?;
        let range = match range.offset() {
            Some(o) if o as usize > data.len() => BytesRange::new(Some(data.len() as u64), Some(0)),
            _ => range,
        };
        Ok(slice_chunk(data, range))
    }

    fn write(&mut self, path: &str, bs: Vec<u8>) {
        self.calls += 1;
        self.objects.insert(path.to_string(), bs);
    }

    fn stat(&mut self, path: &str) -> Result<ObjectMetadata, Error> {
        self.calls += 1;
        let data = self.objects.get(path).ok_or_else(not_found)?;
        Ok(ObjectMetadata::new(data.len() as u64))
    }

    fn delete(&mut self, path: &str) {
        self.calls += 1;
        self.objects.remove(path);
    }
}

/// An origin store with the cache layer in front of it.
struct Cached {
    origin: Mem,
    cache: Mem,
    layer: CacheLayer<()>,
}

impl Cached {
    fn new(strategy: CacheStrategy) -> Self {
        Cached { origin: Mem::default(), cache: Mem::default(), layer: CacheLayer::new((), strategy) }
    }

    fn read(&mut self, path: &str, range: BytesRange) -> Result<Vec<u8>, Error> {
        match self.layer.strategy() {
            CacheStrategy::Whole => match self.cache.read(path, range) {
                Ok(bs) => Ok(bs),
                Err(e) => match on_cache_read_error(e) {
                    MissStep::Fill => {
                        let bs = self.origin.read(path, BytesRange::new(None, None))?;
                        self.cache.write(path, bs);
                        self.cache.read(path, range)
                    }
                    MissStep::Fail(e) => Err(e),
                },
            },
            CacheStrategy::Fixed(step) => {
                let mut reader = match start_fixed_read(path, range, step) {
                    FixedStart::Ready(r) => r,
                    FixedStart::Invalid(e) => return Err(e),
                    FixedStart::NeedLength => {
                        let total = self.origin.stat(path)?.content_length();
                        start_fixed_read_with_length(path, range, step, total).unwrap()
                    }
                };
                let mut out = Vec::new();
                while let Some(req) = reader.next_request() {
                    let loaded = match self.cache.read(&req.cache_path, req.cache_range) {
                        Ok(bs) => Ok(bs),
                        Err(e) => match on_cache_read_error(e) {
                            MissStep::Fill => match self.origin.read(path, req.total_range) {
                                Ok(chunk) => {
                                    let fill = fill_chunk(&req, chunk).unwrap();
                                    self.cache.write(&fill.key, fill.bytes);
                                    Ok(fill.served)
                                }
                                Err(e) => Err(e),
                            },
                            MissStep::Fail(e) => Err(e),
                        },
                    };
                    let bs = match loaded {
                        Ok(bs) => {
                            reader.on_loaded(Ok(()));
                            bs
                        }
                        Err(e) => {
                            let e = reader.on_loaded(Err(e)).unwrap();
                            return Err(e);
                        }
                    };
                    if reader.on_read(bs.len()) {
                        out.extend(bs);
                    }
                    reader.on_read(0);
                }
                assert_eq!(out.len() as u64, reader.content_length());
                Ok(out)
            }
        }
    }

    fn stat(&mut self, path: &str) -> Result<ObjectMetadata, Error> {
        let key = format_meta_cache_path(path);
        match stat_on_cache_read(self.cache.read(&key, BytesRange::new(None, None))) {
            StatStep::Done(r) => r,
            StatStep::StatOrigin { fill: true } => {
                let meta = self.origin.stat(path)?;
                let (k, bs) = stat_fill(path, &meta)?;
                self.cache.write(&k, bs);
                Ok(meta)
            }
            StatStep::StatOrigin { fill: false } => self.origin.stat(path),
        }
    }

    fn write(&mut self, path: &str, bs: &[u8]) {
        self.cache.delete(&format_meta_cache_path(path));
        self.origin.write(path, bs.to_vec());
    }

    fn delete(&mut self, path: &str) {
        self.cache.delete(&format_meta_cache_path(path));
        self.origin.delete(path);
    }
}

fn ready(start: FixedStart) -> FixedCacheReader {
    match start {
        FixedStart::Ready(r) => r,
        _ => panic!("both ends of the range are given"),
    }
}

fn all() -> BytesRange {
    BytesRange::new(None, None)
}

fn from(offset: u64) -> BytesRange {
    BytesRange::new(Some(offset), None)
}

#[test]
fn test_whole_content_cache() {
    let mut c = Cached::new(CacheStrategy::Whole);
    c.origin.write("test_exist", "Hello, World!".as_bytes().to_vec());

    let data = c.read("test_exist", all()).unwrap();
    assert_eq!(data.len(), 13);
    assert_eq!(data, "Hello, World!".as_bytes());
    assert_eq!(c.cache.objects.get("test_exist").unwrap().len(), 13);

    let data = c.read("test_not_exist", all());
    assert_eq!(data.unwrap_err().kind(), ErrorKind::ObjectNotFound);
}

#[test]
fn test_fixed_content_cache() {
    let mut c = Cached::new(CacheStrategy::Fixed(5));
    c.origin.write("test_exist", "Hello, World!".as_bytes().to_vec());

    let data = c.read("test_exist", all()).unwrap();
    assert_eq!(data.len(), 13);

    let data = c.read("test_exist", from(5)).unwrap();
    assert_eq!(data.len(), 8);
    assert_eq!(data, ", World!".as_bytes());

    c.origin.write("test_new", "Hello, OpenDAL!".as_bytes().to_vec());
    let data = c.read("test_new", from(6)).unwrap();
    assert_eq!(data.len(), 9);
    assert_eq!(data, " OpenDAL!".as_bytes());

    let data = c.read("test_not_exist", all());
    assert_eq!(data.unwrap_err().kind(), ErrorKind::ObjectNotFound);
}

#[test]
fn test_metadata_cache() {
    let mut c = Cached::new(CacheStrategy::Fixed(5));
    c.origin.write("test_exist", "Hello, World!".as_bytes().to_vec());

    let meta = c.stat("test_exist").unwrap();
    assert_eq!(meta.content_length(), 13);

    c.write("test_exist", "Hello, Xuanwo!".as_bytes());
    let meta = c.origin.stat("test_exist").unwrap();
    assert_eq!(meta.content_length(), 14);
    let meta = c.stat("test_exist").unwrap();
    assert_eq!(meta.content_length(), 14);

    let meta = c.stat("test_not_exist");
    assert_eq!(meta.unwrap_err().kind(), ErrorKind::ObjectNotFound);
}

#[test]
fn second_stat_does_not_touch_origin() {
    let mut c = Cached::new(CacheStrategy::Whole);
    c.origin.write("p", b"abc".to_vec());
    let before = c.origin.calls;
    assert_eq!(c.stat("p").unwrap().content_length(), 3);
    let after_first = c.origin.calls;
    assert!(after_first > before);
    assert_eq!(c.stat("p").unwrap().content_length(), 3);
    assert_eq!(c.origin.calls, after_first);
    assert!(c.cache.objects.contains_key("p.omc"));
}

#[test]
fn delete_invalidates_metadata() {
    let mut c = Cached::new(CacheStrategy::Whole);
    c.origin.write("p", b"abc".to_vec());
    assert_eq!(c.stat("p").unwrap().content_length(), 3);
    c.delete("p");
    assert!(!c.cache.objects.contains_key("p.omc"));
    assert_eq!(c.stat("p").unwrap_err().kind(), ErrorKind::ObjectNotFound);
}

#[test]
fn missed_chunks_are_cached_at_their_keys() {
    let mut c = Cached::new(CacheStrategy::Fixed(5));
    c.origin.write("test_exist", "Hello, World!".as_bytes().to_vec());
    let data = c.read("test_exist", BytesRange::from_bounds(6, 12)).unwrap();
    assert_eq!(data, " World".as_bytes());
    assert_eq!(c.cache.objects.get("test_exist.occ_1").unwrap(), &b", Wor".to_vec());
    assert_eq!(c.cache.objects.get("test_exist.occ_2").unwrap(), &b"ld!".to_vec());
    assert!(!c.cache.objects.contains_key("test_exist.occ_0"));

    // A second read is served from the chunks now in the cache.
    let origin_calls = c.origin.calls;
    let data = c.read("test_exist", BytesRange::from_bounds(6, 12)).unwrap();
    assert_eq!(data, " World".as_bytes());
    assert_eq!(c.origin.calls, origin_calls);
}

#[test]
fn cache_failure_other_than_miss_is_surfaced() {
    let e = Error::new(ErrorKind::Other, "broken", "read");
    match on_cache_read_error(e) {
        MissStep::Fail(e) => assert_eq!(e.kind(), ErrorKind::Other),
        MissStep::Fill => panic!("a failure is no miss"),
    }
    assert!(matches!(on_cache_read_error(not_found()), MissStep::Fill));
}

#[test]
fn stat_bypasses_cache_on_other_errors() {
    let e = Error::new(ErrorKind::Other, "broken", "read");
    assert!(matches!(stat_on_cache_read(Err(e)), StatStep::StatOrigin { fill: false }));
    assert!(matches!(stat_on_cache_read(Err(not_found())), StatStep::StatOrigin { fill: true }));
}

#[test]
fn metadata_round_trip() {
    let mut m = ObjectMetadata::new(13);
    m.content_type = Some("text/plain".to_string());
    m.etag = Some("\"abc\"".to_string());
    m.last_modified = Some(1_660_000_000);
    let bs = encode_metadata(&m).unwrap();
    assert!(!bs.is_empty());
    let back = decode_metadata(&bs).unwrap();
    assert_eq!(back, m);
    assert_eq!(back.content_length(), 13);
}

#[test]
fn metadata_decode_refuses_a_huge_claimed_length() {
    let bs = [0x00, 0x01, 0xFD, 0xFF, 0xFF, 0xFF, 0xFF, 0xFF, 0xFF, 0xFF, 0xFF];
    let e = decode_metadata(&bs).unwrap_err();
    assert_eq!(e.kind(), ErrorKind::Unexpected);
    assert_eq!(e.operation, "CacheLayer::decode_metadata");
}

#[test]
fn metadata_encoding_is_deterministic() {
    let mut m = ObjectMetadata::new(7);
    m.content_md5 = Some("d41d8cd98f00b204e9800998ecf8427e".to_string());
    assert_eq!(encode_metadata(&m).unwrap(), encode_metadata(&m.clone()).unwrap());
}

#[test]
fn metadata_decode_rejects_garbage() {
    let e = decode_metadata(&[]).unwrap_err();
    assert_eq!(e.kind(), ErrorKind::Unexpected);
    assert_eq!(e.operation, "CacheLayer::decode_metadata");
}

#[test]
fn stat_fill_writes_at_metadata_key() {
    let m = ObjectMetadata::new(42);
    let (k, bs) = stat_fill("dir/obj", &m).unwrap();
    assert_eq!(k, "dir/obj.omc");
    assert_eq!(decode_metadata(&bs).unwrap(), m);
    match stat_on_cache_read(Ok(bs)) {
        StatStep::Done(r) => assert_eq!(r.unwrap(), m),
        StatStep::StatOrigin { .. } => panic!("a hit needs no origin"),
    }
}

#[test]
fn open_range_past_the_end_is_refused() {
    assert!(start_fixed_read_with_length("p", from(14), 5, 13).is_none());
    assert!(start_fixed_read_with_length("p", BytesRange::new(None, Some(14)), 5, 13).is_none());
    let r = start_fixed_read_with_length("p", from(5), 5, 13).unwrap();
    assert_eq!(r.content_length(), 8);
    assert!(matches!(start_fixed_read("p", from(5), 5), FixedStart::NeedLength));
    assert!(matches!(start_fixed_read("p", BytesRange::new(None, Some(3)), 5), FixedStart::NeedLength));
    assert_eq!(ready(start_fixed_read("p", BytesRange::from_bounds(2, 9), 5)).content_length(), 7);
    match start_fixed_read("p", BytesRange::new(Some(u64::MAX), Some(1)), 5) {
        FixedStart::Invalid(e) => assert_eq!(e.kind(), ErrorKind::Unexpected),
        _ => panic!("an overflowing range is refused"),
    }
}

#[test]
fn short_origin_chunk_is_refused() {
    let mut r = ready(start_fixed_read("p", BytesRange::from_bounds(13, 14), 5));
    let req = r.next_request().unwrap();
    assert_eq!(req.cache_path, "p.occ_2");
    assert!(fill_chunk(&req, b"ab".to_vec()).is_none());
    assert!(fill_chunk(&req, b"abc".to_vec()).unwrap().served.is_empty());
    let fill = fill_chunk(&req, b"abcde".to_vec()).unwrap();
    assert_eq!(fill.key, "p.occ_2");
    assert_eq!(fill.bytes, b"abcde".to_vec());
    assert_eq!(fill.served, b"d".to_vec());
}

#[test]
fn reader_walks_its_states() {
    let mut r = ready(start_fixed_read("p", BytesRange::from_bounds(3, 7), 5));
    assert_eq!(r.content_length(), 4);
    assert!(matches!(r.state, FixedCacheState::Iterating));

    let req = r.next_request().unwrap();
    assert_eq!(req.cache_path, "p.occ_0");
    assert_eq!(req.cache_range, BytesRange::from_bounds(3, 5));
    assert_eq!(req.total_range, BytesRange::from_bounds(0, 5));
    assert!(matches!(r.state, FixedCacheState::Fetching));
    assert!(r.on_loaded(Ok(())).is_none());
    assert!(matches!(r.state, FixedCacheState::Reading));
    assert!(r.on_read(2));
    assert!(matches!(r.state, FixedCacheState::Reading));
    assert!(!r.on_read(0));
    assert!(matches!(r.state, FixedCacheState::Iterating));

    let req = r.next_request().unwrap();
    assert_eq!(req.cache_path, "p.occ_1");
    assert_eq!(req.cache_range, BytesRange::from_bounds(0, 2));
    assert_eq!(req.total_range, BytesRange::from_bounds(5, 10));
    let e = r.on_loaded(Err(Error::new(ErrorKind::Other, "broken", "read"))).unwrap();
    assert_eq!(e.kind(), ErrorKind::Other);
    assert!(matches!(r.state, FixedCacheState::Failed));
}

#[test]
fn reader_stops_on_a_failed_stream() {
    let mut r = ready(start_fixed_read("p", BytesRange::from_bounds(0, 1), 5));
    r.next_request().unwrap();
    r.on_loaded(Ok(()));
    r.on_read_failed();
    assert!(matches!(r.state, FixedCacheState::Failed));
}

#[test]
fn reader_of_empty_range_ends_at_once() {
    let mut r = ready(start_fixed_read("p", BytesRange::from_bounds(4, 4), 5));
    assert!(r.next_request().is_none());
    assert!(matches!(r.state, FixedCacheState::Iterating));
}
