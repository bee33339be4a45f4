//! The bounded write region and its mathematical model.

use crate::error::CapacityExceeded;
use vstd::prelude::*;

verus! {

/// Mathematical model of a bounded write region: the full backing region,
/// the count of bytes written so far, and the sticky overflow flag.
#[verifier::ext_equal]
pub struct RegionModel {
    /// Every byte of the backing region, written or not.
    pub region: Seq<u8>,
    /// How many bytes at the front of `region` have been written.
    pub written: nat,
    /// Whether some write demanded more space than the region had left.
    pub exceeded: bool,
}

impl RegionModel {
    /// The fixed capacity of the region.
    pub open spec fn cap(self) -> nat {
        self.region.len()
    }

    /// Internal well-formedness: the cursor never passes the end, and an
    /// overflowed region always reports a full cursor.
    pub open spec fn wf(self) -> bool {
        &&& self.written <= self.cap()
        &&& (self.exceeded ==> self.written == self.cap())
    }

    /// The written prefix: the only bytes a successful finalization exposes.
    pub open spec fn data(self) -> Seq<u8> {
        self.region.subrange(0, self.written as int)
    }

    /// The state after appending `src`: if `src` does not fit in the space
    /// left, the region keeps its bytes, the cursor clamps to the end and the
    /// overflow flag is set; otherwise `src` lands right after the written
    /// prefix and the cursor moves past it.
    pub open spec fn put(self, src: Seq<u8>) -> RegionModel {
        if self.written + src.len() > self.cap() {
            RegionModel { region: self.region, written: self.cap(), exceeded: true }
        } else {
            RegionModel {
                region: self.region.subrange(0, self.written as int) + src + self.region.subrange(
                    self.written + src.len() as int,
                    self.cap() as int,
                ),
                written: self.written + src.len(),
                exceeded: self.exceeded,
            }
        }
    }

    /// The state after moving the cursor by `cnt` without touching memory:
    /// past the end it clamps and flags overflow, otherwise it advances.
    pub open spec fn advance(self, cnt: nat) -> RegionModel {
        if self.written + cnt > self.cap() {
            RegionModel { region: self.region, written: self.cap(), exceeded: true }
        } else {
            RegionModel { region: self.region, written: self.written + cnt, exceeded: self.exceeded }
        }
    }
}

/// A non-panicking, bounds-checked write adapter over a fixed-size byte
/// region.
///
/// Writes that fit are copied after the written prefix; a write that does not
/// fit is rejected in its entirety, clamps the cursor to the end and flips the
/// sticky overflow flag.  `try_into_bytes` yields exactly the written prefix,
/// or `CapacityExceeded` once overflow has occurred.
pub struct SafeBytesSlice {
    buf: Vec<u8>,
    bytes_written: usize,
    // capacity exceeded: the caller tried to put more bytes than available
    cap_exceeded: bool,
}

impl View for SafeBytesSlice {
    type V = RegionModel;

    closed spec fn view(&self) -> RegionModel {
        RegionModel {
            region: self.buf@,
            written: self.bytes_written as nat,
            exceeded: self.cap_exceeded,
        }
    }
}

impl SafeBytesSlice {
    /// Wraps a fixed-size region: nothing written yet, no overflow.
    pub fn from(region: Vec<u8>) -> (s: Self)
        ensures
            s@ == (RegionModel { region: region@, written: 0nat, exceeded: false }),
            s@.wf(),
    {
        Self { buf: region, bytes_written: 0, cap_exceeded: false }
    }

    /// Returns true if capacity was exceeded.
    ///
    /// An overflowed `SafeBytesSlice` is not usable any more: there is no
    /// access to the inner bytes because they are in an improper state.
    pub fn is_exceed(&self) -> (r: bool)
        ensures
            r == self@.exceeded,
    {
        self.cap_exceeded
    }

    /// Returns the number of bytes written into the inner region.
    ///
    /// Exposing this count for an overflowed region would let a caller pair a
    /// bogus length with the backing storage, so it may only be asked of a
    /// region that has not overflowed.
    pub fn bytes_written(&self) -> (n: usize)
        requires
            !self@.exceeded,
        ensures
            n == self@.written,
    {
        self.bytes_written
    }

    /// Returns true if nothing has been written yet.
    pub fn is_empty(&self) -> (r: bool)
        requires
            !self@.exceeded,
        ensures
            r == (self@.written == 0),
    {
        self.bytes_written() == 0
    }

    /// The number of bytes that can still be written before the region is
    /// full.  After overflow the cursor sits at the end, so this is zero.
    pub fn remaining_mut(&self) -> (n: usize)
        requires
            self@.wf(),
        ensures
            n == self@.cap() - self@.written,
    {
        self.buf.len() - self.bytes_written
    }

    /// Moves the write cursor by `cnt` bytes without touching memory,
    /// reconciling the bookkeeping with writes the caller already performed
    /// into the region.  A count that would pass the end clamps the cursor to
    /// the end and flags overflow instead of trapping.
    pub fn advance_mut(&mut self, cnt: usize)
        requires
            old(self)@.wf(),
        ensures
            final(self)@ == old(self)@.advance(cnt as nat),
            final(self)@.wf(),
    {
        let cap = self.buf.len();
        if cnt > cap - self.bytes_written {
            self.bytes_written = cap;  // make `remaining_mut()` return 0
            self.cap_exceeded = true;
        } else {
            self.bytes_written = self.bytes_written + cnt;
        }
    }

    /// Appends `src` right after the written prefix.  A source that does not
    /// fit in the space left is rejected in its entirety: no byte is copied,
    /// the cursor clamps to the end and the overflow flag is set, instead of
    /// panicking.
    pub fn put_slice(&mut self, src: &[u8])
        requires
            old(self)@.wf(),
        ensures
            final(self)@ == old(self)@.put(src@),
            final(self)@.wf(),
    {
        let src_len = src.len();
        // check if we have enough space to put the slice; if not, set the
        // flag instead of panicking
        if self.buf.len() - self.bytes_written < src_len {
            self.bytes_written = self.buf.len();  // make `remaining_mut()` return 0
            self.cap_exceeded = true;
            return;
        }
        let ghost pre = self@;
        let mut i: usize = 0;
        while i < src_len
            invariant
                pre.wf(),
                i <= src_len,
                src_len == src@.len(),
                self.bytes_written == pre.written,
                self.cap_exceeded == pre.exceeded,
                self.buf@.len() == pre.cap(),
                pre.cap() <= usize::MAX,
                pre.written + src_len <= pre.cap(),
                forall|j: int| 0 <= j < pre.written ==> self.buf@[j] == pre.region[j],
                forall|j: int| 0 <= j < i ==> self.buf@[pre.written + j] == src@[j],
                forall|j: int|
                    pre.written + src_len <= j < pre.cap() ==> self.buf@[j] == pre.region[j],
            decreases src_len - i,
        {
            self.buf.set(self.bytes_written + i, src[i]);
            i = i + 1;
        }
        self.bytes_written = self.bytes_written + src_len;
        proof {
            assert(self@.region =~= pre.put(src@).region);
            assert(self@ =~= pre.put(src@));
        }
    }

    /// Appends one byte, with the same overflow policy as `put_slice`.
    pub fn put_u8(&mut self, b: u8)
        requires
            old(self)@.wf(),
        ensures
            final(self)@ == old(self)@.put(seq![b]),
            final(self)@.wf(),
    {
        let ghost pre = self@;
        if self.buf.len() - self.bytes_written < 1 {
            self.bytes_written = self.buf.len();
            self.cap_exceeded = true;
        } else {
            self.buf.set(self.bytes_written, b);
            self.bytes_written = self.bytes_written + 1;
            proof {
                assert(self@.region =~= pre.put(seq![b]).region);
            }
        }
        proof {
            assert(self@ =~= pre.put(seq![b]));
        }
    }

    /// Returns the written bytes or an error if capacity was exceeded.
    ///
    /// Finalization consumes the region: on success exactly the written
    /// prefix comes back, and an overflowed region yields `CapacityExceeded`
    /// with no partial-data recovery path.
    pub fn try_into_bytes(self) -> (r: Result<Vec<u8>, CapacityExceeded>)
        requires
            self@.wf(),
        ensures
            match r {
                Ok(bytes) => !self@.exceeded && bytes@ == self@.data(),
                Err(_) => self@.exceeded,
            },
    {
        if self.cap_exceeded {
            Err(CapacityExceeded)
        } else {
            let n = self.bytes_written;
            let mut bytes = self.buf;
            bytes.truncate(n);
            Ok(bytes)
        }
    }
}

} // verus!
