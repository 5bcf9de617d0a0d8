use vstd::prelude::*;
use crate::chunk::{slice_fits, slice_spec};
use crate::range::BytesRange;

verus! {

/// One step of a partition: the chunk index, the range to read inside that
/// chunk, and the chunk's own range over the whole object.
pub type ChunkTriple = (u64, BytesRange, BytesRange);

/// Splits the byte range `[offset, offset + size)` of an object into reads
/// of aligned chunks of `step` bytes.
#[derive(Debug, Clone, Copy)]
pub struct FixedCacheRangeIterator {
    pub offset: u64,
    pub size: u64,
    pub step: u64,
    pub cur: u64,
}

/// The triple produced at position `cur`.
pub open spec fn triple_at(offset: u64, size: u64, step: u64, cur: u64) -> ChunkTriple
    recommends
        step > 0,
        cur < offset + size,
{
    let idx = cur / step;
    let skipped = cur % step;
    let remaining = offset + size - cur;
    let len = if remaining >= step - skipped { step - skipped } else { remaining };
    (
        idx as u64,
        BytesRange { offset: Some(skipped as u64), size: Some(len as u64) },
        BytesRange { offset: Some((step * idx) as u64), size: Some(step) },
    )
}

/// The length of the read inside the chunk at position `cur`.
pub open spec fn piece_len(offset: u64, size: u64, step: u64, cur: u64) -> int {
    let skipped = cur % step;
    let remaining = offset + size - cur;
    if remaining >= step - skipped { (step - skipped) as int } else { remaining }
}

/// Every triple still to come from position `cur`.
pub open spec fn triples_from(offset: u64, size: u64, step: u64, cur: u64) -> Seq<ChunkTriple>
    decreases offset + size - cur,
{
    if step == 0 || cur >= offset + size || offset + size > u64::MAX {
        Seq::empty()
    } else {
        let next = (cur + piece_len(offset, size, step, cur)) as u64;
        seq![triple_at(offset, size, step, cur)] + triples_from(offset, size, step, next)
    }
}

impl FixedCacheRangeIterator {
    pub open spec fn wf(&self) -> bool {
        &&& self.step > 0
        &&& self.offset <= self.cur
        &&& self.cur <= self.offset + self.size
        &&& self.offset + self.size <= u64::MAX
    }

    /// The triples that this iterator has still to produce.
    pub open spec fn remaining(&self) -> Seq<ChunkTriple> {
        triples_from(self.offset, self.size, self.step, self.cur)
    }

    /// The iterator that `new` returns.
    pub open spec fn new_spec(offset: u64, size: u64, step: u64) -> Self {
        FixedCacheRangeIterator { offset, size, step, cur: offset }
    }

    pub fn new(offset: u64, size: u64, step: u64) -> (r: Self)
        requires
            step > 0,
            offset + size <= u64::MAX,
        ensures
            r.wf(),
            r.offset == offset,
            r.size == size,
            r.step == step,
            r.cur == offset,
            r == Self::new_spec(offset, size, step),
    {
        FixedCacheRangeIterator { offset, size, step, cur: offset }
    }

    pub fn size(&self) -> (r: u64)
        ensures
            r == self.size,
    {
        self.size
    }

    /// The index of the chunk that holds the current position.
    pub fn cache_index(&self) -> (r: u64)
        requires
            self.wf(),
        ensures
            r == self.cur / self.step,
    {
        self.cur / self.step
    }

    /// The range to read inside the current chunk.
    pub fn cache_range(&self) -> (r: BytesRange)
        requires
            self.wf(),
            self.cur < self.offset + self.size,
        ensures
            r == triple_at(self.offset, self.size, self.step, self.cur).1,
    {
        let skipped_rem: u64 = self.cur % self.step;
        let to_read: u64 = self.size + self.offset - self.cur;
        if to_read >= self.step - skipped_rem {
            BytesRange { offset: Some(skipped_rem), size: Some(self.step - skipped_rem) }
        } else {
            BytesRange { offset: Some(skipped_rem), size: Some(to_read) }
        }
    }

    /// The range of the whole current chunk over the object: always `step`
    /// bytes, read from the origin on a miss.
    pub fn total_range(&self) -> (r: BytesRange)
        requires
            self.wf(),
        ensures
            r == triple_at(self.offset, self.size, self.step, self.cur).2,
    {
        let idx: u64 = self.cur / self.step;
        proof {
            vstd::arithmetic::div_mod::lemma_fundamental_div_mod(self.cur as int, self.step as int);
            vstd::arithmetic::div_mod::lemma_mod_pos_bound(self.cur as int, self.step as int);
        }
        BytesRange { offset: Some(self.step * idx), size: Some(self.step) }
    }

    /// Produces the next triple and advances past it, or `None` once the
    /// whole range has been covered.
    pub fn next(&mut self) -> (r: Option<ChunkTriple>)
        requires
            old(self).wf(),
        ensures
            final(self).wf(),
            final(self).offset == old(self).offset,
            final(self).size == old(self).size,
            final(self).step == old(self).step,
            old(self).remaining().len() == 0 ==> r.is_none() && *final(self) == *old(self),
            old(self).remaining().len() > 0 ==> r == Some(old(self).remaining()[0])
                && final(self).remaining() == old(self).remaining().drop_first(),
            r.is_none() <==> old(self).cur >= old(self).offset + old(self).size,
            r.is_none() <==> old(self).remaining().len() == 0,
            r.is_some() ==> final(self).cur > old(self).cur,
    {
        if self.cur >= self.offset + self.size {
            None
        } else {
            let idx: u64 = self.cache_index();
            let cache_range = self.cache_range();
            let total_range = self.total_range();
            let len: u64 = match cache_range.size {
                Some(n) => n,
                None => 0,
            };
            proof {
                vstd::arithmetic::div_mod::lemma_mod_pos_bound(self.cur as int, self.step as int);
            }
            self.cur = self.cur + len;
            let ghost prev = *old(self);
            assert(prev.remaining() == seq![triple_at(prev.offset, prev.size, prev.step, prev.cur)]
                + self.remaining());
            assert(prev.remaining().drop_first() =~= self.remaining());
            Some((idx, cache_range, total_range))
        }
    }

    /// Every remaining triple, in order.
    pub fn collect_ranges(&self) -> (r: Vec<ChunkTriple>)
        requires
            self.wf(),
        ensures
            r@ == self.remaining(),
    {
        let mut it = *self;
        let ghost start = self.remaining();
        let mut out: Vec<ChunkTriple> = Vec::new();
        loop
            invariant
                it.wf(),
                start == self.remaining(),
                out@ + it.remaining() == start,
            decreases it.offset + it.size - it.cur,
        {
            let ghost before = it.remaining();
            let ghost before_cur = it.cur;
            match it.next() {
                None => {
                    assert(out@ + before =~= out@);
                    return out;
                },
                Some(t) => {
                    proof {
                        vstd::arithmetic::div_mod::lemma_mod_pos_bound(before_cur as int, it.step as int);
                    }
                    out.push(t);
                    assert(out@ + it.remaining() =~= start) by {
                        assert(before =~= seq![t] + before.drop_first());
                    }
                },
            }
        }
    }
}

/// The number of bytes that the in-chunk ranges of `ts` select.
pub open spec fn total_len(ts: Seq<ChunkTriple>) -> int
    decreases ts.len(),
{
    if ts.len() == 0 {
        0
    } else {
        let s = match ts[0].1.size {
            Some(n) => n as int,
            None => 0,
        };
        s + total_len(ts.drop_first())
    }
}

/// The bytes of the object `data` that the aligned chunk `total` holds, as
/// read from the origin (the last chunk may be short).
pub open spec fn chunk_of(data: Seq<u8>, total: BytesRange) -> Seq<u8> {
    let start = match total.offset {
        Some(o) => o as int,
        None => 0,
    };
    let end = match total.size {
        Some(s) => start + s,
        None => data.len() as int,
    };
    let lo = if start < data.len() { start } else { data.len() as int };
    let hi = if end < data.len() { end } else { data.len() as int };
    data.subrange(lo, if hi < lo { lo } else { hi })
}

/// What a reader streams for the triples `ts`: each in-chunk range cut out
/// of its chunk, one after the other.
pub open spec fn assemble(data: Seq<u8>, ts: Seq<ChunkTriple>) -> Seq<u8>
    decreases ts.len(),
{
    if ts.len() == 0 {
        Seq::empty()
    } else {
        slice_spec(chunk_of(data, ts[0].2), ts[0].1) + assemble(data, ts.drop_first())
    }
}

proof fn lemma_step_facts(offset: u64, size: u64, step: u64, cur: u64)
    requires
        step > 0,
        offset <= cur < offset + size,
        offset + size <= u64::MAX,
    ensures
        0 < piece_len(offset, size, step, cur),
        cur + piece_len(offset, size, step, cur) <= offset + size,
        (cur % step) + piece_len(offset, size, step, cur) <= step,
        step * (cur / step) + cur % step == cur,
        0 <= cur % step < step,
        ({
            let next = cur + piece_len(offset, size, step, cur);
            next < offset + size ==> next / (step as int) == (cur as int) / (step as int) || next / (step as int) == (cur as int) / (step as int) + 1
        }),
{
    vstd::arithmetic::div_mod::lemma_fundamental_div_mod(cur as int, step as int);
    vstd::arithmetic::div_mod::lemma_mod_pos_bound(cur as int, step as int);
    let q: int = (cur as int) / (step as int);
    let r: int = (cur as int) % (step as int);
    let next: int = cur + piece_len(offset, size, step, cur);
    if r + piece_len(offset, size, step, cur) == step {
        assert(next == (q + 1) * step + 0) by (nonlinear_arith)
            requires next == step * q + r + (step - r);
        vstd::arithmetic::div_mod::lemma_fundamental_div_mod_converse(next, step as int, q + 1, 0);
    } else {
        let r2 = r + piece_len(offset, size, step, cur);
        assert(next == q * step + r2) by (nonlinear_arith)
            requires next == step * q + r + piece_len(offset, size, step, cur), r2 == r + piece_len(offset, size, step, cur);
        vstd::arithmetic::div_mod::lemma_fundamental_div_mod_converse(next, step as int, q, r2);
    }
}

proof fn lemma_total_len_from(offset: u64, size: u64, step: u64, cur: u64)
    requires
        step > 0,
        offset <= cur <= offset + size,
        offset + size <= u64::MAX,
    ensures
        total_len(triples_from(offset, size, step, cur)) == offset + size - cur,
    decreases offset + size - cur,
{
    if cur < offset + size {
        lemma_step_facts(offset, size, step, cur);
        let next = (cur + piece_len(offset, size, step, cur)) as u64;
        lemma_total_len_from(offset, size, step, next);
        let ts = triples_from(offset, size, step, cur);
        assert(ts.drop_first() =~= triples_from(offset, size, step, next));
    }
}

/// The in-chunk ranges of a partition add up to the requested size.
pub proof fn lemma_partition_covers_size(offset: u64, size: u64, step: u64)
    requires
        step > 0,
        offset + size <= u64::MAX,
    ensures
        total_len(FixedCacheRangeIterator::new_spec(offset, size, step).remaining()) == size,
{
    lemma_total_len_from(offset, size, step, offset);
}

proof fn lemma_indices_from(offset: u64, size: u64, step: u64, cur: u64)
    requires
        step > 0,
        offset <= cur <= offset + size,
        offset + size <= u64::MAX,
    ensures
        ({
            let ts = triples_from(offset, size, step, cur);
            &&& ts.len() > 0 ==> ts[0].0 == cur / step
            &&& forall|i: int| 0 <= i < ts.len() - 1 ==>
                ts[i + 1].0 == #[trigger] ts[i].0 || ts[i + 1].0 == ts[i].0 + 1
        }),
    decreases offset + size - cur,
{
    if cur < offset + size {
        lemma_step_facts(offset, size, step, cur);
        let next = (cur + piece_len(offset, size, step, cur)) as u64;
        lemma_indices_from(offset, size, step, next);
        let ts = triples_from(offset, size, step, cur);
        let rest = triples_from(offset, size, step, next);
        assert(ts.drop_first() =~= rest);
        assert forall|i: int| 0 <= i < ts.len() - 1 implies
            ts[i + 1].0 == #[trigger] ts[i].0 || ts[i + 1].0 == ts[i].0 + 1 by {
            if i > 0 {
                assert(ts[i] == rest[i - 1]);
                assert(ts[i + 1] == rest[i]);
            } else {
                assert(ts[1] == rest[0]);
            }
        }
    }
}

/// Successive chunk indices of a partition never decrease and grow by at
/// most one.
pub proof fn lemma_partition_indices_step(offset: u64, size: u64, step: u64)
    requires
        step > 0,
        offset + size <= u64::MAX,
    ensures
        ({
            let ts = FixedCacheRangeIterator::new_spec(offset, size, step).remaining();
            forall|i: int| 0 <= i < ts.len() - 1 ==>
                ts[i + 1].0 == #[trigger] ts[i].0 || ts[i + 1].0 == ts[i].0 + 1
        }),
{
    lemma_indices_from(offset, size, step, offset);
}

proof fn lemma_assemble_from(data: Seq<u8>, offset: u64, size: u64, step: u64, cur: u64)
    requires
        step > 0,
        offset <= cur <= offset + size,
        offset + size <= u64::MAX,
        offset + size <= data.len(),
    ensures
        assemble(data, triples_from(offset, size, step, cur))
            == data.subrange(cur as int, offset + size),
    decreases offset + size - cur,
{
    let ts = triples_from(offset, size, step, cur);
    if cur < offset + size {
        lemma_step_facts(offset, size, step, cur);
        let len = piece_len(offset, size, step, cur);
        let next = (cur + len) as u64;
        lemma_assemble_from(data, offset, size, step, next);
        assert(ts.drop_first() =~= triples_from(offset, size, step, next));
        let t = ts[0];
        let q = cur / step;
        let r = cur % step;
        let start = step * q;
        assert(t.2.offset == Some(start as u64));
        let chunk = chunk_of(data, t.2);
        let end = if start + step < data.len() { start + step } else { data.len() as int };
        assert(chunk =~= data.subrange(start, end));
        assert(slice_spec(chunk, t.1) =~= data.subrange(cur as int, cur + len));
        assert(data.subrange(cur as int, cur + len) + data.subrange(cur + len, offset + size)
            =~= data.subrange(cur as int, offset + size));
    } else {
        assert(ts =~= Seq::empty());
        assert(data.subrange(cur as int, offset + size) =~= Seq::<u8>::empty());
    }
}

/// Cutting each in-chunk range of a partition out of its aligned chunk of
/// the object, and joining the pieces, gives back exactly the requested
/// bytes `[offset, offset + size)`.
pub proof fn lemma_partition_reassembles(data: Seq<u8>, offset: u64, size: u64, step: u64)
    requires
        step > 0,
        offset + size <= data.len(),
        offset + size <= u64::MAX,
    ensures
        assemble(data, FixedCacheRangeIterator::new_spec(offset, size, step).remaining())
            == data.subrange(offset as int, offset + size),
{
    lemma_assemble_from(data, offset, size, step, offset);
}

/// What a triple asks of the object `data`: its chunk is the aligned
/// window `[step * idx, step * (idx + 1))`, the origin returns for it the
/// bytes of that window that the object has, and the in-chunk range can be
/// cut out of those bytes.
pub open spec fn triple_fits(data: Seq<u8>, step: u64, t: ChunkTriple) -> bool {
    let start = step * t.0;
    let end = if step * (t.0 + 1) < data.len() { step * (t.0 + 1) } else { data.len() as int };
    &&& t.2.offset == Some(start as u64)
    &&& t.2.size == Some(step)
    &&& start <= end
    &&& chunk_of(data, t.2) == data.subrange(start, end)
    &&& slice_fits(chunk_of(data, t.2).len(), t.1)
}

proof fn lemma_fits_from(data: Seq<u8>, offset: u64, size: u64, step: u64, cur: u64)
    requires
        step > 0,
        offset <= cur <= offset + size,
        offset + size <= u64::MAX,
        offset + size <= data.len(),
    ensures
        ({
            let ts = triples_from(offset, size, step, cur);
            forall|i: int| 0 <= i < ts.len() ==> triple_fits(data, step, #[trigger] ts[i])
        }),
    decreases offset + size - cur,
{
    let ts = triples_from(offset, size, step, cur);
    if cur < offset + size {
        lemma_step_facts(offset, size, step, cur);
        let len = piece_len(offset, size, step, cur);
        let next = (cur + len) as u64;
        lemma_fits_from(data, offset, size, step, next);
        let rest = triples_from(offset, size, step, next);
        assert(ts.drop_first() =~= rest);
        let t = ts[0];
        let q = cur / step;
        assert(t.0 == q);
        assert(step * (t.0 + 1) == step * t.0 + step) by (nonlinear_arith);
        let start = step * t.0;
        let end = if step * (t.0 + 1) < data.len() { step * (t.0 + 1) } else { data.len() as int };
        assert(chunk_of(data, t.2) =~= data.subrange(start, end));
        assert(triple_fits(data, step, t));
        assert forall|i: int| 0 <= i < ts.len() implies triple_fits(data, step, #[trigger] ts[i]) by {
            if i > 0 {
                assert(ts[i] == rest[i - 1]);
            }
        }
    }
}

/// Every chunk that a partition reads is the aligned window of its index,
/// and its in-chunk range lies within what the origin returns for that
/// window. So a missed chunk is always filled (see `fill_chunk`), and what
/// is written to the cache is exactly the object's bytes in that window.
pub proof fn lemma_partition_chunks_fit(data: Seq<u8>, offset: u64, size: u64, step: u64)
    requires
        step > 0,
        offset + size <= data.len(),
        offset + size <= u64::MAX,
    ensures
        ({
            let ts = FixedCacheRangeIterator::new_spec(offset, size, step).remaining();
            forall|i: int| 0 <= i < ts.len() ==> triple_fits(data, step, #[trigger] ts[i])
        }),
{
    lemma_fits_from(data, offset, size, step, offset);
}

} // verus!
