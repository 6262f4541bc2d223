//! The cursor backend: an immutable byte region paired with a position
//! counter, composing the slice backend's sequential reading with absolute,
//! end-relative and current-relative repositioning.

use vstd::prelude::*;

use crate::seek_target;
use crate::EndOfFile;
use crate::Never;
use crate::OutOfBounds;
use crate::Read;
use crate::Seek;
use crate::SeekFrom;

verus! {

/// A byte region, fixed for the cursor's lifetime, together with the sole
/// piece of mutable state: a 64-bit position counter. Reading starts at the
/// position and advances it; seeking moves it, clamped to the region.
pub struct Cursor<T> {
    inner: T,
    pos: u64,
}

impl<T> Cursor<T> {
    /// The wrapped region.
    pub closed spec fn spec_inner(&self) -> T {
        self.inner
    }

    /// The raw position counter.
    pub closed spec fn spec_pos(&self) -> u64 {
        self.pos
    }

    /// Create a cursor over `inner`, positioned at its start.
    pub fn new(inner: T) -> (r: Cursor<T>)
        ensures
            r.spec_inner() == inner,
            r.spec_pos() == 0,
    {
        Cursor { inner, pos: 0 }
    }
}

impl<'a> Cursor<&'a [u8]> {
    /// The bytes after the (clamped) position: what reading will produce.
    pub open spec fn spec_rest(&self) -> Seq<u8> {
        self.spec_inner()@.skip(
            vstd::math::min(self.spec_pos() as int, self.spec_inner()@.len() as int),
        )
    }
}

impl<'a> Read for Cursor<&'a [u8]> {
    type Error = Never;

    open spec fn remaining(&self) -> Seq<u8> {
        self.spec_rest()
    }

    open spec fn infallible() -> bool {
        true
    }

    /// Reads through a fresh slice window over the sub-region that starts at
    /// the current position, then advances the position by the number of
    /// bytes actually transferred.
    fn read(&mut self, buf: &mut [u8]) -> (r: Result<usize, Never>)
        ensures
            r matches Ok(n) && n as int == vstd::math::min(
                old(buf)@.len() as int,
                old(self).spec_rest().len() as int,
            ),
            final(self).spec_inner() == old(self).spec_inner(),
            r matches Ok(n) ==> final(self).spec_pos() as int == vstd::math::min(
                old(self).spec_pos() as int,
                old(self).spec_inner()@.len() as int,
            ) + n,
    {
        let region_len = self.inner.len();
        let start: usize = if self.pos >= region_len as u64 {
            region_len
        } else {
            self.pos as usize
        };
        let mut window: &[u8] = vstd::slice::slice_subrange(self.inner, start, region_len);
        let r = window.read(buf);
        match r {
            Ok(n) => {
                self.pos = start as u64 + n as u64;
                proof {
                    assert(self.spec_rest() =~= old(self).spec_rest().skip(n as int));
                }
                Ok(n)
            },
            Err(e) => Err(e),
        }
    }

    /// One transfer gives `min(buf.len(), rest)` bytes, so the fill either
    /// completes at once or the region is exhausted: on failure every byte
    /// the region still held has streamed into the front of `buf` and the
    /// position rests at the end of the region.
    fn read_all<E: From<Never> + From<EndOfFile>>(&mut self, buf: &mut [u8]) -> (r: Result<(), E>)
        ensures
            final(self).spec_inner() == old(self).spec_inner(),
            r is Ok <==> old(self).spec_rest().len() >= old(buf)@.len(),
            r is Ok ==> final(self).spec_pos() as int == vstd::math::min(
                old(self).spec_pos() as int,
                old(self).spec_inner()@.len() as int,
            ) + old(buf)@.len(),
            r is Err ==> {
                &&& final(self).spec_pos() as int == old(self).spec_inner()@.len() as int
                &&& final(buf)@ == old(self).spec_rest() + old(buf)@.skip(
                    old(self).spec_rest().len() as int,
                )
            },
    {
        let n = match self.read(buf) {
            Ok(n) => n,
            Err(e) => {
                return Err(E::from(e));
            },
        };
        if n < buf.len() {
            proof {
                assert(final(buf)@ =~= old(self).spec_rest() + old(buf)@.skip(
                    old(self).spec_rest().len() as int,
                ));
            }
            return Err(E::from(EndOfFile));
        }
        Ok(())
    }
}

impl<'a> Seek for Cursor<&'a [u8]> {
    type Error = OutOfBounds;

    open spec fn position(&self) -> int {
        vstd::math::min(self.spec_pos() as int, self.spec_inner()@.len() as int)
    }

    open spec fn extent(&self) -> int {
        self.spec_inner()@.len() as int
    }

    /// Resolves the target as anchor plus offset; a negative target fails
    /// with `OutOfBounds` and moves nothing, any other target becomes the new
    /// position, clamped to the end of the region.
    fn seek(&mut self, pos: SeekFrom) -> (r: Result<u64, OutOfBounds>)
        ensures
            final(self).spec_inner() == old(self).spec_inner(),
            r matches Ok(p) ==> final(self).spec_pos() == p,
            r matches Err(e) ==> {
                &&& e == OutOfBounds
                &&& final(self).spec_pos() == old(self).spec_pos()
            },
    {
        let region_len: u64 = self.inner.len() as u64;
        let cur: u64 = if self.pos > region_len {
            region_len
        } else {
            self.pos
        };
        let target: i128 = match pos {
            SeekFrom::Start(offset) => offset as i128,
            SeekFrom::End(offset) => region_len as i128 + offset as i128,
            SeekFrom::Current(offset) => cur as i128 + offset as i128,
        };
        if target < 0 {
            return Err(OutOfBounds);
        }
        let new_pos: u64 = if target >= region_len as i128 {
            region_len
        } else {
            target as u64
        };
        self.pos = new_pos;
        Ok(new_pos)
    }

    /// A seek of zero from the current position: it writes the position
    /// counter back unchanged, so a cursor comes out of `tell` exactly as it
    /// went in.
    fn tell(&mut self) -> (r: Result<u64, OutOfBounds>)
        ensures
            final(self).spec_inner() == old(self).spec_inner(),
            old(self).spec_pos() <= old(self).spec_inner()@.len() ==> final(self).spec_pos() == old(
                self,
            ).spec_pos(),
            r is Ok,
            r matches Ok(p) ==> p as int == vstd::math::min(
                old(self).spec_pos() as int,
                old(self).spec_inner()@.len() as int,
            ),
    {
        self.seek(SeekFrom::Current(0))
    }
}

} // verus!
