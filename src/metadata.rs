use vstd::prelude::*;
use crate::error::{Error, ErrorKind};

verus! {

/// The attributes of an object that the metadata cache keeps.
#[derive(Debug, Clone, PartialEq, Eq)]
pub struct ObjectMetadata {
    pub content_length: u64,
    pub content_md5: Option<String>,
    pub content_type: Option<String>,
    pub etag: Option<String>,
    /// Seconds since the Unix epoch.
    pub last_modified: Option<i64>,
}

/// The value of an `ObjectMetadata`.
pub struct MetadataView {
    pub content_length: u64,
    pub content_md5: Option<Seq<char>>,
    pub content_type: Option<Seq<char>>,
    pub etag: Option<Seq<char>>,
    pub last_modified: Option<i64>,
}

pub open spec fn opt_str_view(o: Option<String>) -> Option<Seq<char>> {
    match o {
        Some(s) => Some(s@),
        None => None,
    }
}

impl View for ObjectMetadata {
    type V = MetadataView;

    open spec fn view(&self) -> MetadataView {
        MetadataView {
            content_length: self.content_length,
            content_md5: opt_str_view(self.content_md5),
            content_type: opt_str_view(self.content_type),
            etag: opt_str_view(self.etag),
            last_modified: self.last_modified,
        }
    }
}

impl ObjectMetadata {
    pub fn new(content_length: u64) -> (r: Self)
        ensures
            r@.content_length == content_length,
            r@.content_md5 is None,
            r@.content_type is None,
            r@.etag is None,
            r@.last_modified is None,
    {
        ObjectMetadata {
            content_length,
            content_md5: None,
            content_type: None,
            etag: None,
            last_modified: None,
        }
    }

    pub fn content_length(&self) -> (r: u64)
        ensures
            r == self.content_length,
    {
        self.content_length
    }
}

#[verifier::external_type_specification]
#[verifier::external_body]
pub struct ExEncodeError(bincode::error::EncodeError);

#[verifier::external_type_specification]
#[verifier::external_body]
pub struct ExDecodeError(bincode::error::DecodeError);

/// The bytes that bincode's standard configuration (little endian, variable
/// int encoding) writes for the fields of `m`, in declaration order.
pub uninterp spec fn metadata_bytes(m: MetadataView) -> Seq<u8>;

/// The byte limit under which metadata is decoded. bincode checks every
/// length that it reads against it before allocating, and it counts at most
/// eight bytes for each byte of input (a varint integer counts its full
/// width, a string its length).
const DECODE_LIMIT: usize = 1048576;

/// The longest encoded metadata that is certain to decode within
/// `DECODE_LIMIT`: an eighth of it.
pub const MAX_METADATA_LEN: usize = 131072;

/// Relies on `bincode::encode_to_vec` with `bincode::config::standard()`:
/// it returns the encoding of the fields, and it cannot fail, as its writer
/// into a `Vec` never does and these field types have no other error.
#[verifier::external_body]
fn bincode_encode(meta: &ObjectMetadata) -> (r: Result<Vec<u8>, bincode::error::EncodeError>)
    ensures
        r is Ok,
        r matches Ok(b) ==> b@ == metadata_bytes(meta@),
{
    let fields = (
        meta.content_length,
        meta.content_md5.clone(),
        meta.content_type.clone(),
        meta.etag.clone(),
        meta.last_modified,
    );
    bincode::encode_to_vec(fields, bincode::config::standard())
}

/// Relies on `bincode::decode_from_slice` with `bincode::config::standard()`
/// limited to `DECODE_LIMIT` bytes (the limit does not change the format):
/// bytes that the standard configuration wrote for some fields, no longer
/// than `MAX_METADATA_LEN`, decode back to exactly those fields. A length
/// over the limit is an error, not an allocation.
#[verifier::external_body]
fn bincode_decode(bs: &[u8]) -> (r: Result<ObjectMetadata, bincode::error::DecodeError>)
    ensures
        forall|m: MetadataView| #[trigger] metadata_bytes(m) == bs@ && bs@.len() <= MAX_METADATA_LEN
            ==> r is Ok && r->Ok_0@ == m,
{
    let config = bincode::config::standard().with_limit::<DECODE_LIMIT>();
    let decoded: Result<((u64, Option<String>, Option<String>, Option<String>, Option<i64>), usize), _> =
        bincode::decode_from_slice(bs, config);
    match decoded {
        Ok(((content_length, content_md5, content_type, etag, last_modified), _)) => Ok(
            ObjectMetadata { content_length, content_md5, content_type, etag, last_modified },
        ),
        Err(e) => Err(e),
    }
}

/// Encodes metadata for the metadata cache; this always succeeds.
pub fn encode_metadata(meta: &ObjectMetadata) -> (r: Result<Vec<u8>, Error>)
    ensures
        r is Ok,
        r matches Ok(b) ==> b@ == metadata_bytes(meta@),
{
    match bincode_encode(meta) {
        Ok(b) => Ok(b),
        Err(_) => Err(Error::new(
            ErrorKind::Unexpected,
            "encode object metadata into cache",
            "CacheLayer::encode_metadata",
        )),
    }
}

/// Decodes metadata read from the metadata cache. Bytes that
/// `encode_metadata` wrote for some metadata, up to `MAX_METADATA_LEN` of
/// them, decode back to that metadata; anything else may be refused, and
/// never makes the decoder allocate past its limit.
pub fn decode_metadata(bs: &[u8]) -> (r: Result<ObjectMetadata, Error>)
    ensures
        forall|m: MetadataView| #[trigger] metadata_bytes(m) == bs@ && bs@.len() <= MAX_METADATA_LEN
            ==> (r matches Ok(x) && x@ == m),
        r matches Err(e) ==> e.kind == ErrorKind::Unexpected
            && e.operation@ == "CacheLayer::decode_metadata"@,
{
    match bincode_decode(bs) {
        Ok(m) => Ok(m),
        Err(_) => Err(Error::new(
            ErrorKind::Unexpected,
            "decode object metadata from cache",
            "CacheLayer::decode_metadata",
        )),
    }
}

} // verus!
