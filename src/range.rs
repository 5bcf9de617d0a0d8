use vstd::prelude::*;

verus! {

/// A byte range over an object: `offset` and `size`, either of which may be
/// left open.
#[derive(Debug, Clone, Copy, PartialEq, Eq)]
pub struct BytesRange {
    pub offset: Option<u64>,
    pub size: Option<u64>,
}

impl BytesRange {
    /// The range with the given offset and size; `None` leaves that end open.
    pub fn new(offset: Option<u64>, size: Option<u64>) -> (r: Self)
        ensures
            r.offset == offset,
            r.size == size,
    {
        BytesRange { offset, size }
    }

    /// The half-open range `[start, end)`.
    pub fn from_bounds(start: u64, end: u64) -> (r: Self)
        requires
            start <= end,
        ensures
            r.offset == Some(start),
            r.size == Some((end - start) as u64),
    {
        BytesRange { offset: Some(start), size: Some(end - start) }
    }

    pub fn offset(&self) -> (r: Option<u64>)
        ensures
            r == self.offset,
    {
        self.offset
    }

    pub fn size(&self) -> (r: Option<u64>)
        ensures
            r == self.size,
    {
        self.size
    }
}

} // verus!
