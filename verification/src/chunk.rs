//! A deliberately miserly reader: it produces the same bytes as the slice
//! backend, but at most `step` of them per call. It exists as a baseline for
//! the partial-transfer convention — against it, the generic fill loop must
//! accumulate several short transfers before a buffer is full.

use vstd::prelude::*;

use crate::Never;
use crate::Read;

verus! {

/// Reads out of a byte region at most `step` bytes at a time.
pub struct Chunked<'a> {
    data: &'a [u8],
    step: usize,
}

impl<'a> Chunked<'a> {
    /// The bytes not yet produced.
    pub closed spec fn spec_data(&self) -> Seq<u8> {
        self.data@
    }

    /// The cap on a single transfer: at least one byte, so that a short
    /// transfer is never mistaken for exhaustion.
    pub closed spec fn spec_step(&self) -> int {
        vstd::math::max(self.step as int, 1)
    }

    /// Read `data` at most `step` bytes at a time; a cap of zero is raised
    /// to one byte.
    pub fn new(data: &'a [u8], step: usize) -> (r: Chunked<'a>)
        ensures
            r.spec_data() == data@,
            r.spec_step() == vstd::math::max(step as int, 1),
    {
        Chunked { data, step }
    }
}

impl<'a> Read for Chunked<'a> {
    type Error = Never;

    open spec fn remaining(&self) -> Seq<u8> {
        self.spec_data()
    }

    open spec fn infallible() -> bool {
        true
    }

    /// Transfers `min(step, buf.len(), remaining)` bytes: a partial transfer
    /// whenever the buffer asks for more than one step.
    fn read(&mut self, buf: &mut [u8]) -> (r: Result<usize, Never>)
        ensures
            final(self).spec_step() == old(self).spec_step(),
            r matches Ok(n) && n as int == vstd::math::min(
                old(self).spec_step(),
                vstd::math::min(old(buf)@.len() as int, old(self).spec_data().len() as int),
            ),
    {
        let step = if self.step == 0 {
            1
        } else {
            self.step
        };
        let most = if buf.len() < self.data.len() {
            buf.len()
        } else {
            self.data.len()
        };
        let len = if most < step {
            most
        } else {
            step
        };
        let mut i: usize = 0;
        while i < len
            invariant
                0 <= i <= len,
                self.spec_data() == old(self).spec_data(),
                len <= buf@.len(),
                len <= old(self).spec_data().len(),
                buf@.len() == old(buf)@.len(),
                buf@ == old(self).spec_data().take(i as int) + old(buf)@.skip(i as int),
            decreases len - i,
        {
            let v = *vstd::slice::slice_index_get(self.data, i);
            buf[i] = v;
            proof {
                assert(buf@ =~= old(self).spec_data().take(i + 1) + old(buf)@.skip(i + 1));
            }
            i += 1;
        }
        self.data = vstd::slice::slice_subrange(self.data, len, self.data.len());
        proof {
            assert(self.spec_data() =~= old(self).spec_data().skip(len as int));
        }
        Ok(len)
    }
}

} // verus!
