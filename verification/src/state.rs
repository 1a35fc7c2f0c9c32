//! Render state and the consumer loop's decision.
//!
//! The consumer side keeps exactly one buffer: the most recent fully
//! received one.  A newly received buffer replaces it wholesale — never a
//! merge, never a window over older buffers — and the end of the stream
//! ends the loop silently, leaving the last published buffer in place.

use vstd::prelude::*;
use crate::relay::RecvOutcome;

verus! {

/// The single most-recently consumed buffer, shared with the renderer
/// for the next paint pass.  Starts empty: nothing has been captured yet.
pub struct RenderState {
    latest: Vec<i64>,
}

impl RenderState {
    /// The buffer the next paint pass will draw.
    pub closed spec fn latest(&self) -> Seq<i64> {
        self.latest@
    }

    /// Fresh render state: an empty buffer.
    pub fn new() -> (r: RenderState)
        ensures
            r.latest() == Seq::<i64>::empty(),
    {
        let r = RenderState { latest: Vec::new() };
        proof {
            assert(r.latest() =~= Seq::<i64>::empty());
        }
        r
    }

    /// Replaces the published buffer wholesale with a newly received one.
    pub fn publish(&mut self, buf: Vec<i64>)
        ensures
            final(self).latest() == buf@,
    {
        self.latest = buf;
    }

    /// The buffer to draw, for the paint pass.
    pub fn snapshot(&self) -> (r: &Vec<i64>)
        ensures
            r@ == self.latest(),
    {
        &self.latest
    }
}

/// One turn of the consumer loop, given what the relay's receive came
/// back with: a received buffer replaces the render state (and the host
/// is owed a repaint); an empty relay changes nothing and the loop keeps
/// waiting; end-of-stream changes nothing and ends the loop silently.
/// Returns whether the loop continues.
pub fn consumer_step(outcome: RecvOutcome, state: &mut RenderState) -> (more: bool)
    ensures
        outcome matches RecvOutcome::Received(b) ==> more && final(state).latest() == b@,
        outcome is Empty ==> more && final(state).latest() == old(state).latest(),
        outcome is Disconnected ==> !more && final(state).latest() == old(state).latest(),
{
    match outcome {
        RecvOutcome::Received(buf) => {
            state.publish(buf);
            true
        },
        RecvOutcome::Empty => true,
        RecvOutcome::Disconnected => false,
    }
}

} // verus!
