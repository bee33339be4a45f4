//! Laws relating whole sequences of write operations to the final state.

use crate::bytes_slice::RegionModel;
use vstd::prelude::*;

verus! {

/// The total length of a sequence of writes.
pub open spec fn total_len(ws: Seq<Seq<u8>>) -> nat
    decreases ws.len(),
{
    if ws.len() == 0 {
        0nat
    } else {
        ws[0].len() + total_len(ws.drop_first())
    }
}

/// The concatenation, in order, of a sequence of writes.
pub open spec fn concat_all(ws: Seq<Seq<u8>>) -> Seq<u8>
    decreases ws.len(),
{
    if ws.len() == 0 {
        Seq::empty()
    } else {
        ws[0] + concat_all(ws.drop_first())
    }
}

/// The region state after appending each write of `ws`, in order.
pub open spec fn put_all(m: RegionModel, ws: Seq<Seq<u8>>) -> RegionModel
    decreases ws.len(),
{
    if ws.len() == 0 {
        m
    } else {
        put_all(m.put(ws[0]), ws.drop_first())
    }
}

/// A write that fits in the space left lands, in full, right after the bytes
/// already written: the written prefix grows by exactly the source, the
/// overflow flag is untouched, and the capacity never changes.
pub proof fn lemma_put_fits(m: RegionModel, src: Seq<u8>)
    requires
        m.wf(),
        m.written + src.len() <= m.cap(),
    ensures
        m.put(src).wf(),
        m.put(src).cap() == m.cap(),
        m.put(src).written == m.written + src.len(),
        m.put(src).exceeded == m.exceeded,
        m.put(src).data() == m.data() + src,
{
    assert(m.put(src).data() =~= m.data() + src);
}

/// Boundary exactness: a write whose length equals the remaining capacity
/// succeeds, fills the region to capacity, and does not trigger overflow.
pub proof fn lemma_exact_fit_write(m: RegionModel, src: Seq<u8>)
    requires
        m.wf(),
        !m.exceeded,
        m.written + src.len() == m.cap(),
    ensures
        !m.put(src).exceeded,
        m.put(src).written == m.put(src).cap(),
        m.put(src).data() == m.data() + src,
        m.put(src).wf(),
{
    lemma_put_fits(m, src);
}

/// Overflow is sticky and idempotent: once a region has overflowed, any
/// number of further writes leaves the whole state — bytes, cursor and flag —
/// exactly as it was, so finalization keeps failing.
pub proof fn lemma_overflow_sticky(m: RegionModel, ws: Seq<Seq<u8>>)
    requires
        m.wf(),
        m.exceeded,
    ensures
        put_all(m, ws) == m,
        put_all(m, ws).exceeded,
    decreases ws.len(),
{
    if ws.len() > 0 {
        assert(m.put(ws[0]) =~= m);
        lemma_overflow_sticky(m, ws.drop_first());
    }
}

/// A single write larger than the space left contributes no bytes at all:
/// the region's bytes are unchanged, overflow is flagged at once, and every
/// later write is a no-op with respect to the data.
pub proof fn lemma_oversized_write_overflows(m: RegionModel, src: Seq<u8>, ws: Seq<Seq<u8>>)
    requires
        m.wf(),
        m.written + src.len() > m.cap(),
    ensures
        m.put(src).exceeded,
        m.put(src).region == m.region,
        m.put(src).wf(),
        put_all(m.put(src), ws).exceeded,
        put_all(m.put(src), ws).region == m.region,
{
    lemma_overflow_sticky(m.put(src), ws);
}

/// Every sequence of writes whose total length fits in the capacity
/// succeeds: no overflow is flagged, and the written prefix is exactly the
/// concatenation, in order, of all the bytes written.
pub proof fn lemma_writes_within_capacity(m: RegionModel, ws: Seq<Seq<u8>>)
    requires
        m.wf(),
        !m.exceeded,
        m.written + total_len(ws) <= m.cap(),
    ensures
        put_all(m, ws).wf(),
        !put_all(m, ws).exceeded,
        put_all(m, ws).cap() == m.cap(),
        put_all(m, ws).written == m.written + total_len(ws),
        put_all(m, ws).data() == m.data() + concat_all(ws),
    decreases ws.len(),
{
    if ws.len() == 0 {
        assert(m.data() + concat_all(ws) =~= m.data());
    } else {
        let m1 = m.put(ws[0]);
        lemma_put_fits(m, ws[0]);
        lemma_writes_within_capacity(m1, ws.drop_first());
        assert(put_all(m, ws).data() =~= m.data() + concat_all(ws));
    }
}

} // verus!
