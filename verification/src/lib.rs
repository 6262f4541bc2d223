//! Byte-oriented input/output capabilities for environments without an
//! operating system or heap: `Read`, `Write` and `Seek` contracts, generic
//! fill/drain algorithms written once against those contracts, and reference
//! backends over plain byte regions (`slice`) and over a position-tracking
//! `Cursor`.

use vstd::prelude::*;

pub mod chunk;
pub mod cursor;
pub mod relay;
pub mod slice;
pub mod wrapper;

pub use cursor::Cursor;

verus! {

/// An operation that had to transfer bytes could transfer none, because the
/// backing region is exhausted. Carries no data.
#[derive(Clone, Copy, Debug, PartialEq, Eq, Structural)]
pub struct EndOfFile;

/// A seek resolved to a position outside the representable range (a negative
/// absolute position). Carries no data.
#[derive(Clone, Copy, Debug, PartialEq, Eq, Structural)]
pub struct OutOfBounds;

/// The uninhabited error: a type with no values, used as the local error type
/// of operations that can be seen statically to never fail. Code receiving a
/// value of this type is unreachable, so it may convert it to any other error
/// type without inspecting it.
pub type Never = core::convert::Infallible;

impl From<Never> for EndOfFile {
    fn from(v: Never) -> (r: EndOfFile) {
        EndOfFile
    }
}

impl vstd::std_specs::convert::FromSpecImpl<Never> for EndOfFile {
    open spec fn obeys_from_spec() -> bool {
        true
    }

    open spec fn from_spec(v: Never) -> EndOfFile {
        EndOfFile
    }
}

impl From<Never> for OutOfBounds {
    fn from(v: Never) -> (r: OutOfBounds) {
        OutOfBounds
    }
}

impl vstd::std_specs::convert::FromSpecImpl<Never> for OutOfBounds {
    open spec fn obeys_from_spec() -> bool {
        true
    }

    open spec fn from_spec(v: Never) -> OutOfBounds {
        OutOfBounds
    }
}

/// A source of bytes that are pulled into a caller-supplied buffer.
///
/// The model of a source is the sequence of bytes it will still produce, in
/// order (`remaining`). A call to `read` may transfer fewer bytes than the
/// buffer asks for, including zero; by the contract of this capability, a
/// zero-byte transfer into a nonempty buffer means the source is exhausted,
/// never that an error occurred.
pub trait Read {
    /// The local error type of this backend; `Never` when reads cannot fail
    /// for a local reason.
    type Error;

    /// The bytes this source will still produce, in order.
    spec fn remaining(&self) -> Seq<u8>;

    /// Whether this backend's `read` can be seen statically to never fail.
    spec fn infallible() -> bool;

    /// Pull bytes into a prefix of `buf`; return how many were transferred.
    fn read(&mut self, buf: &mut [u8]) -> (r: Result<usize, Self::Error>)
        ensures
            final(buf)@.len() == old(buf)@.len(),
            match r {
                Ok(n) => {
                    &&& n <= old(buf)@.len()
                    &&& n <= (*old(self)).remaining().len()
                    &&& (*final(self)).remaining() == (*old(self)).remaining().skip(n as int)
                    &&& final(buf)@ == (*old(self)).remaining().take(n as int)
                        + old(buf)@.skip(n as int)
                    &&& (n == 0 && old(buf)@.len() > 0 ==> (*old(self)).remaining().len() == 0)
                },
                Err(_) => {
                    &&& !Self::infallible()
                    &&& (*final(self)).remaining() == (*old(self)).remaining()
                    &&& final(buf)@ == old(buf)@
                },
            },
    ;

    /// Fill `buf` exactly, retrying partial transfers; fail with `EndOfFile`
    /// if the source is exhausted before `buf` is full.
    fn read_all<E: From<Self::Error> + From<EndOfFile>>(&mut self, buf: &mut [u8]) -> (r: Result<
        (),
        E,
    >)
        ensures
            final(buf)@.len() == old(buf)@.len(),
            r is Ok ==> {
                &&& (*old(self)).remaining().len() >= old(buf)@.len()
                &&& final(buf)@ == (*old(self)).remaining().take(old(buf)@.len() as int)
                &&& (*final(self)).remaining() == (*old(self)).remaining().skip(old(buf)@.len() as int)
            },
            Self::infallible() && (*old(self)).remaining().len() >= old(buf)@.len() ==> r is Ok,
            old(buf)@.len() == 0 ==> r is Ok && (*final(self)).remaining() == (*old(
                self,
            )).remaining(),
        default_ensures
            r is Err ==> exists|k: int|
                {
                    &&& 0 <= k <= old(buf)@.len()
                    &&& k <= (*old(self)).remaining().len()
                    &&& (*final(self)).remaining() == (*old(self)).remaining().skip(k)
                    &&& final(buf)@ == (*old(self)).remaining().take(k) + old(buf)@.skip(k)
                },
            r is Err && Self::infallible() ==> {
                &&& (*old(self)).remaining().len() < old(buf)@.len()
                &&& (*final(self)).remaining().len() == 0
                &&& final(buf)@ == (*old(self)).remaining() + old(buf)@.skip(
                    (*old(self)).remaining().len() as int,
                )
            },
    {
        let mut offset: usize = 0;
        while offset < buf.len()
            invariant
                0 <= offset <= buf@.len(),
                buf@.len() == old(buf)@.len(),
                offset <= (*old(self)).remaining().len(),
                (*self).remaining() == (*old(self)).remaining().skip(offset as int),
                buf@ == (*old(self)).remaining().take(offset as int) + old(buf)@.skip(offset as int),
            decreases buf@.len() - offset,
        {
            let (_filled, tail) = buf.split_at_mut(offset);
            match self.read(tail) {
                Ok(n) => {
                    if n == 0 {
                        return Err(E::from(EndOfFile));
                    }
                    proof {
                        assert(buf@ == (*old(self)).remaining().take(offset + n as int) + old(
                            buf,
                        )@.skip(offset + n as int));
                    }
                    offset += n;
                },
                Err(e) => {
                    return Err(E::from(e));
                },
            }
        }
        Ok(())
    }
}

/// A sink that accepts bytes pushed from a caller-supplied buffer.
///
/// The model of a sink is how many more bytes it can still accept (`room`).
/// A call to `write` may transfer fewer bytes than offered, including zero;
/// by the contract of this capability, a zero-byte transfer of a nonempty
/// buffer means the sink is full, never that an error occurred. What the
/// accepted bytes end up in is a property of the concrete backend.
pub trait Write {
    /// The local error type of this backend; `Never` when writes cannot fail
    /// for a local reason.
    type Error;

    /// How many more bytes this sink can still accept.
    spec fn room(&self) -> nat;

    /// Whether this backend's `write` can be seen statically to never fail.
    spec fn infallible() -> bool;

    /// Push a prefix of `buf` into the sink; return how many bytes it took.
    fn write(&mut self, buf: &[u8]) -> (r: Result<usize, Self::Error>)
        ensures
            match r {
                Ok(n) => {
                    &&& n <= buf@.len()
                    &&& n <= (*old(self)).room()
                    &&& (*final(self)).room() == (*old(self)).room() - n
                    &&& (n == 0 && buf@.len() > 0 ==> (*old(self)).room() == 0)
                },
                Err(_) => {
                    &&& !Self::infallible()
                    &&& (*final(self)).room() == (*old(self)).room()
                },
            },
    ;

    /// Drain all of `buf` into the sink, retrying partial transfers; fail
    /// with `EndOfFile` if the sink fills up before `buf` is consumed.
    fn write_all<E: From<Self::Error> + From<EndOfFile>>(&mut self, buf: &[u8]) -> (r: Result<
        (),
        E,
    >)
        ensures
            r is Ok ==> {
                &&& (*old(self)).room() >= buf@.len()
                &&& (*final(self)).room() == (*old(self)).room() - buf@.len()
            },
            Self::infallible() && (*old(self)).room() >= buf@.len() ==> r is Ok,
            buf@.len() == 0 ==> r is Ok && (*final(self)).room() == (*old(self)).room(),
        default_ensures
            r is Err ==> {
                &&& (*final(self)).room() <= (*old(self)).room()
                &&& (*old(self)).room() - (*final(self)).room() <= buf@.len()
            },
            r is Err && Self::infallible() ==> {
                &&& (*old(self)).room() < buf@.len()
                &&& (*final(self)).room() == 0
            },
    {
        let mut offset: usize = 0;
        while offset < buf.len()
            invariant
                0 <= offset <= buf@.len(),
                offset <= (*old(self)).room(),
                (*self).room() == (*old(self)).room() - offset,
            decreases buf@.len() - offset,
        {
            let rest = vstd::slice::slice_subrange(buf, offset, buf.len());
            match self.write(rest) {
                Ok(n) => {
                    if n == 0 {
                        return Err(E::from(EndOfFile));
                    }
                    offset += n;
                },
                Err(e) => {
                    return Err(E::from(e));
                },
            }
        }
        Ok(())
    }
}

/// The anchor and offset a seek target is computed from.
#[derive(Clone, Copy, Debug, PartialEq, Eq, Structural)]
pub enum SeekFrom {
    /// Absolute offset from the start of the extent.
    Start(u64),
    /// Signed offset from the end of the extent.
    End(i64),
    /// Signed offset from the current position.
    Current(i64),
}

/// The absolute position a seek resolves to before clamping: the anchor named
/// by `from` (start, end of the extent, or the current position) plus the
/// signed offset. May be negative, and may lie past the end of the extent.
pub open spec fn seek_target(from: SeekFrom, cur: int, len: int) -> int {
    match from {
        SeekFrom::Start(offset) => offset as int,
        SeekFrom::End(offset) => len + offset as int,
        SeekFrom::Current(offset) => cur + offset as int,
    }
}

/// Repositioning within a finite addressable extent.
///
/// The model is the extent's length (`extent`) and the current position
/// (`position`), always within `[0, extent]`. A seek target below zero fails
/// with the backend's local error and moves nothing; any other target is
/// clamped to the end of the extent, so seeking past the end succeeds and
/// saturates there.
pub trait Seek {
    /// The local error type of this backend, reported exactly when a seek
    /// target resolves below zero.
    type Error;

    /// The current position, clamped to `[0, extent]`.
    spec fn position(&self) -> int;

    /// The length of the addressable extent.
    spec fn extent(&self) -> int;

    /// Move to `pos`, clamping targets past the end; report the new position.
    fn seek(&mut self, pos: SeekFrom) -> (r: Result<u64, Self::Error>)
        ensures
            (*final(self)).extent() == (*old(self)).extent(),
            match r {
                Ok(p) => {
                    &&& seek_target(pos, (*old(self)).position(), (*old(self)).extent()) >= 0
                    &&& p as int == vstd::math::min(
                        seek_target(pos, (*old(self)).position(), (*old(self)).extent()),
                        (*old(self)).extent(),
                    )
                    &&& (*final(self)).position() == p as int
                },
                Err(_) => {
                    &&& seek_target(pos, (*old(self)).position(), (*old(self)).extent()) < 0
                    &&& (*final(self)).position() == (*old(self)).position()
                },
            },
    ;

    /// Report the current position without moving it.
    fn tell(&mut self) -> (r: Result<u64, Self::Error>)
        ensures
            (*final(self)).extent() == (*old(self)).extent(),
            0 <= (*old(self)).position() <= (*old(self)).extent() ==> {
                &&& r is Ok
                &&& (r matches Ok(p) ==> p as int == (*old(self)).position())
                &&& (*final(self)).position() == (*old(self)).position()
            },
    {
        self.seek(SeekFrom::Current(0))
    }
}

} // verus!
