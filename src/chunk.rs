use vstd::prelude::*;
use crate::range::BytesRange;

verus! {

/// The bytes of `buf` that the range `r` selects: `[offset, offset + size)`
/// cut at the end of the buffer; a suffix from `offset`; the last `size`
/// bytes; or the whole buffer.
pub open spec fn slice_spec(buf: Seq<u8>, r: BytesRange) -> Seq<u8> {
    match (r.offset, r.size) {
        (Some(o), Some(s)) => {
            let end = if o + s < buf.len() { o + s } else { buf.len() as int };
            buf.subrange(o as int, end)
        },
        (Some(o), None) => buf.subrange(o as int, buf.len() as int),
        (None, Some(s)) => buf.subrange(buf.len() - s, buf.len() as int),
        (None, None) => buf,
    }
}

/// Whether `r` can be cut out of a buffer of `len` bytes.
pub open spec fn slice_fits(len: nat, r: BytesRange) -> bool {
    &&& (r.offset matches Some(o) ==> o <= len)
    &&& (r.offset is None ==> (r.size matches Some(s) ==> s <= len))
}

/// Cuts the range `r` out of a buffered chunk.
pub fn slice_chunk(buf: Vec<u8>, r: BytesRange) -> (out: Vec<u8>)
    requires
        slice_fits(buf@.len(), r),
    ensures
        out@ == slice_spec(buf@, r),
{
    let ghost whole = buf@;
    let mut buf = buf;
    match r.offset {
        Some(offset) => {
            let _len: usize = buf.len();
            let at: usize = offset as usize;
            let mut bs = buf.split_off(at);
            match r.size {
                Some(size) => {
                    if size < bs.len() as u64 {
                        let _ = bs.split_off(size as usize);
                    }
                },
                None => {},
            }
            assert(bs@ =~= slice_spec(whole, r));
            bs
        },
        None => match r.size {
            Some(size) => {
                let at: usize = buf.len() - size as usize;
                buf.split_off(at)
            },
            None => buf,
        },
    }
}

} // verus!
