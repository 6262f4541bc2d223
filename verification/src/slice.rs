//! The slice backends: `Read` over an immutable byte view and `Write` over a
//! mutable byte view. Both work on a fixed memory region through a remaining
//! window that shrinks from the front as bytes are consumed or produced, and
//! neither can fail for a local reason, so their local error is `Never`.

use vstd::prelude::*;

use crate::EndOfFile;
use crate::Never;
use crate::Read;
use crate::Write;

verus! {

impl<'a> Read for &'a [u8] {
    type Error = Never;

    open spec fn remaining(&self) -> Seq<u8> {
        (**self)@
    }

    open spec fn infallible() -> bool {
        true
    }

    /// Transfers `min(buf.len(), remaining)` bytes out of the front of the
    /// window, then shrinks the window past them.
    fn read(&mut self, buf: &mut [u8]) -> (r: Result<usize, Never>)
        ensures
            r matches Ok(n) && n as int == vstd::math::min(
                old(buf)@.len() as int,
                (*old(self))@.len() as int,
            ),
    {
        let len = if buf.len() < self.len() {
            buf.len()
        } else {
            self.len()
        };
        let mut i: usize = 0;
        while i < len
            invariant
                0 <= i <= len,
                (**self)@ == (*old(self))@,
                len <= buf@.len(),
                len <= (*old(self))@.len(),
                buf@.len() == old(buf)@.len(),
                buf@ == (*old(self))@.take(i as int) + old(buf)@.skip(i as int),
            decreases len - i,
        {
            let v = *vstd::slice::slice_index_get(*self, i);
            buf[i] = v;
            proof {
                assert(buf@ =~= (*old(self))@.take(i + 1) + old(buf)@.skip(i + 1));
            }
            i += 1;
        }
        let rest = vstd::slice::slice_subrange(*self, len, self.len());
        *self = rest;
        proof {
            assert((**self)@ =~= (*old(self))@.skip(len as int));
            // instantiate `remaining` at the entry and exit windows
            let s_cur: &'a [u8] = *self;
            assert(s_cur.remaining() == (**self)@);
            let s_old: &'a [u8] = *old(self);
            assert(s_old.remaining() == (*old(self))@);
        }
        Ok(len)
    }

    /// All-or-nothing override: either the window holds enough bytes and one
    /// full transfer fills `buf`, or nothing is consumed and the call fails
    /// with `EndOfFile`.
    fn read_all<E: From<Never> + From<EndOfFile>>(&mut self, buf: &mut [u8]) -> (r: Result<(), E>)
        ensures
            r is Err <==> (*old(self))@.len() < old(buf)@.len(),
            r is Err ==> {
                &&& (*final(self))@ == (*old(self))@
                &&& final(buf)@ == old(buf)@
            },
    {
        if self.len() < buf.len() {
            return Err(E::from(EndOfFile));
        }
        match self.read(buf) {
            Ok(_) => Ok(()),
            Err(e) => Err(E::from(e)),
        }
    }
}

/// Round trip through a fixed region. Draining `data` into a mutable window
/// leaves the underlying region holding `data` followed by whatever the rest
/// of the window ends up with (`write_all`'s contract on success); reading
/// from an immutable view over such a region yields its leading bytes in
/// order (`read`'s contract). So for any byte sequence no longer than the
/// region, writing it and reading the same count back reproduces it exactly,
/// whatever the rest of the region holds.
pub proof fn lemma_write_read_round_trip(data: Seq<u8>, rest: Seq<u8>)
    ensures
        (data + rest).take(data.len() as int) == data,
        (data + rest).skip(data.len() as int) == rest,
{
    assert((data + rest).take(data.len() as int) =~= data);
    assert((data + rest).skip(data.len() as int) =~= rest);
}

impl<'a> Write for &'a mut [u8] {
    type Error = Never;

    open spec fn room(&self) -> nat {
        (**self)@.len()
    }

    open spec fn infallible() -> bool {
        true
    }

    /// Transfers `min(buf.len(), room)` bytes from `buf` into the front of
    /// the window, then shrinks the window past them: once every borrow of
    /// the underlying region has expired, the region holds the transferred
    /// prefix of `buf` followed by whatever the shrunk window ends up with.
    fn write(&mut self, buf: &[u8]) -> (r: Result<usize, Never>)
        ensures
            r matches Ok(n) && n as int == vstd::math::min(
                buf@.len() as int,
                (*old(self))@.len() as int,
            ),
            r matches Ok(n) ==> final(*old(self))@ == buf@.take(n as int) + final(*final(self))@,
            r matches Ok(n) ==> (*final(self))@ == (*old(self))@.skip(n as int),
    {
        let len = if buf.len() < self.len() {
            buf.len()
        } else {
            self.len()
        };
        let mut taken: &'a mut [u8] = &mut [];
        core::mem::swap(self, &mut taken);
        let (head, tail) = taken.split_at_mut(len);
        let mut i: usize = 0;
        while i < len
            invariant
                0 <= i <= len,
                len <= buf@.len(),
                head@.len() == len,
                forall|j: int| 0 <= j < i ==> head@[j] == buf@[j],
            decreases len - i,
        {
            let v = *vstd::slice::slice_index_get(buf, i);
            head[i] = v;
            i += 1;
        }
        proof {
            assert(head@ =~= buf@.take(len as int));
        }
        *self = tail;
        Ok(len)
    }

    /// All-or-nothing override: either the window has room for all of `buf`
    /// and one full transfer drains it, or nothing is written and the call
    /// fails with `EndOfFile`.
    fn write_all<E: From<Never> + From<EndOfFile>>(&mut self, buf: &[u8]) -> (r: Result<(), E>)
        ensures
            r is Err <==> (*old(self))@.len() < buf@.len(),
            r is Err ==> *final(self) == *old(self),
            r is Ok ==> final(*old(self))@ == buf@ + final(*final(self))@,
            r is Ok ==> (*final(self))@ == (*old(self))@.skip(buf@.len() as int),
    {
        if self.len() < buf.len() {
            return Err(E::from(EndOfFile));
        }
        match self.write(buf) {
            Ok(_) => Ok(()),
            Err(e) => Err(E::from(e)),
        }
    }
}

} // verus!
