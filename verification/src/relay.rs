//! The byte-sink side of formatted text output. A text-rendering layer's own
//! failure signal carries no payload, so an error from the underlying byte
//! sink would be lost if it were reported through that channel alone. The
//! relay here implements the text-sink duty in terms of the `Write` contract
//! and carries the real sink error out-of-band: each rendered fragment is
//! drained into the sink as it arrives, a failure is stored in a side slot,
//! and after rendering the slot takes precedence over the rendering layer's
//! own generic success or failure signal.

use vstd::prelude::*;

use crate::EndOfFile;
use crate::Write;

verus! {

/// An adapter around a borrowed byte sink that accepts text fragments and
/// remembers a sink error for later, instead of discarding it.
pub struct TextSink<'a, W, E> {
    sink: &'a mut W,
    stored: Option<E>,
}

impl<'a, W: Write, E: From<W::Error> + From<EndOfFile>> TextSink<'a, W, E> {
    /// The sink error kept for `finish`, if one has occurred: the first one.
    pub closed spec fn stored_error(&self) -> Option<E> {
        self.stored
    }

    /// Whether a fragment has failed to drain into the sink so far.
    pub open spec fn failed(&self) -> bool {
        self.stored_error() is Some
    }

    /// How many more bytes the underlying sink can still accept.
    pub closed spec fn sink_room(&self) -> nat {
        (*self.sink).room()
    }

    /// Start relaying into `sink`, with no error stored yet.
    pub fn new(sink: &'a mut W) -> (r: TextSink<'a, W, E>)
        ensures
            !r.failed(),
            r.sink_room() == (*old(sink)).room(),
    {
        TextSink { sink, stored: None }
    }

    /// Drain one rendered fragment into the sink. Reports whether rendering
    /// may continue; on the first failure the real sink error is stored for
    /// `finish`, and a stored error is never displaced by a later one.
    pub fn accept(&mut self, frag: &[u8]) -> (ok: bool)
        ensures
            ok ==> {
                &&& old(self).sink_room() >= frag@.len()
                &&& final(self).sink_room() == old(self).sink_room() - frag@.len()
            },
            !ok ==> final(self).failed(),
            ok || old(self).failed() ==> final(self).stored_error() == old(self).stored_error(),
            W::infallible() && old(self).sink_room() >= frag@.len() ==> ok,
    {
        match self.sink.write_all(frag) {
            Ok(_) => true,
            Err(e) => {
                if self.stored.is_none() {
                    self.stored = Some(e);
                }
                false
            },
        }
    }

    /// Consult the side slot once rendering is over: the first real sink
    /// error wins; only if none was stored did the routing succeed.
    pub fn finish(self) -> (r: Result<(), E>)
        ensures
            r is Ok <==> !self.failed(),
            self.stored_error() matches Some(e) ==> r == Err::<(), E>(e),
    {
        match self.stored {
            Some(e) => Err(e),
            None => Ok(()),
        }
    }
}

} // verus!
