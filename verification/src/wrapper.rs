//! Pass-through capability implementations over borrowed handles: a mutable
//! borrow of a backend offers the same capabilities as the backend itself, by
//! forwarding every operation, so generic algorithms work uniformly whether a
//! caller holds a value or a transient borrow of one.

use vstd::prelude::*;

use crate::EndOfFile;
use crate::Read;
use crate::Seek;
use crate::SeekFrom;
use crate::Write;

verus! {

impl<'a, R: Read> Read for &'a mut R {
    type Error = R::Error;

    open spec fn remaining(&self) -> Seq<u8> {
        (**self).remaining()
    }

    open spec fn infallible() -> bool {
        R::infallible()
    }

    fn read(&mut self, buf: &mut [u8]) -> (r: Result<usize, R::Error>) {
        (**self).read(buf)
    }

    fn read_all<E: From<R::Error> + From<EndOfFile>>(&mut self, buf: &mut [u8]) -> (r: Result<
        (),
        E,
    >) {
        (**self).read_all(buf)
    }
}

impl<'a, W: Write> Write for &'a mut W {
    type Error = W::Error;

    open spec fn room(&self) -> nat {
        (**self).room()
    }

    open spec fn infallible() -> bool {
        W::infallible()
    }

    fn write(&mut self, buf: &[u8]) -> (r: Result<usize, W::Error>) {
        (**self).write(buf)
    }

    fn write_all<E: From<W::Error> + From<EndOfFile>>(&mut self, buf: &[u8]) -> (r: Result<
        (),
        E,
    >) {
        (**self).write_all(buf)
    }
}

impl<'a, S: Seek> Seek for &'a mut S {
    type Error = S::Error;

    open spec fn position(&self) -> int {
        (**self).position()
    }

    open spec fn extent(&self) -> int {
        (**self).extent()
    }

    fn seek(&mut self, pos: SeekFrom) -> (r: Result<u64, S::Error>) {
        (**self).seek(pos)
    }

    fn tell(&mut self) -> (r: Result<u64, S::Error>) {
        (**self).tell()
    }
}

} // verus!
