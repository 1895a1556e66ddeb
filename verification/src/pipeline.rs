//! The bookkeeping of pipelined rendering, where the render world runs one frame behind
//! the app world on its own thread or worker.
//!
//! The render app travels between the two over channels. Which side holds it decides
//! whether dropping the channels must wait for it to come back. On the web, submitted
//! frames are fenced so that no more than [`FRAMES_IN_FLIGHT`] are in flight at once.
use vstd::prelude::*;

use std::collections::VecDeque;

verus! {

/// A label for the sub app that runs the parts of pipelined rendering that need to run on
/// the main thread.
#[derive(Debug, Clone, Copy, Hash, PartialEq, Eq, Default)]
pub struct RenderExtractApp;

/// Moves rendering to another thread, so that frame N is rendered while frame N + 1 is
/// simulated.
#[derive(Debug, Clone, Copy, Default)]
pub struct PipelinedRenderingPlugin;

/// Where the render app is: sent to the render thread or not.
#[derive(Debug, Clone, Copy, PartialEq, Eq, Structural)]
pub struct RenderHandoff {
    render_app_in_render_thread: bool,
}

impl RenderHandoff {
    /// Whether the render app was sent to the render thread and has not come back.
    pub closed spec fn spec_in_render_thread(self) -> bool {
        self.render_app_in_render_thread
    }

    /// At first the render app is not on the render thread.
    pub fn new() -> (r: Self)
        ensures
            !r.spec_in_render_thread(),
    {
        RenderHandoff { render_app_in_render_thread: false }
    }

    /// The state after the render app is sent to the render thread.
    pub closed spec fn after_send(self) -> Self {
        RenderHandoff { render_app_in_render_thread: true }
    }

    /// The state after waiting for the render app, which came back or not.
    pub closed spec fn after_receive(self, came_back: bool) -> Self {
        if came_back {
            RenderHandoff { render_app_in_render_thread: false }
        } else {
            self
        }
    }

    /// Records that the render app was sent to the render thread.
    pub fn sent(&mut self)
        ensures
            *final(self) == old(self).after_send(),
            final(self).spec_in_render_thread(),
    {
        self.render_app_in_render_thread = true;
    }

    /// Records the outcome of waiting for the render app: when it came back it is no longer
    /// on the render thread; when the channel closed (the render thread panicked) nothing
    /// changes. Returns whether it came back.
    pub fn received(&mut self, came_back: bool) -> (r: bool)
        ensures
            r == came_back,
            *final(self) == old(self).after_receive(came_back),
            final(self).spec_in_render_thread() == if came_back {
                false
            } else {
                old(self).spec_in_render_thread()
            },
    {
        if came_back {
            self.render_app_in_render_thread = false;
        }
        came_back
    }

    /// Whether dropping the channels must wait for the render app to come back, so that the
    /// data it holds is dropped on the thread that made it.
    pub fn must_wait_on_drop(&self) -> (r: bool)
        ensures
            r == self.spec_in_render_thread(),
    {
        self.render_app_in_render_thread
    }
}

/// Sending the render app and then waiting for it leaves it on the render thread exactly
/// when it did not come back.
pub proof fn lemma_send_then_receive(start: RenderHandoff, came_back: bool)
    ensures
        start.after_send().after_receive(came_back).spec_in_render_thread() == !came_back,
{
}

/// Submitted frames the GPU may still be working on.
pub const FRAMES_IN_FLIGHT: usize = 2;

/// The fences of the frames in flight, oldest first, and the count of frames fenced.
pub struct FramePacer {
    in_flight: VecDeque<usize>,
    frame: usize,
}

impl View for FramePacer {
    type V = (Seq<usize>, nat);

    closed spec fn view(&self) -> (Seq<usize>, nat) {
        (self.in_flight@, self.frame as nat)
    }
}

/// The fence a frame uses: one per frame in flight, in turn.
pub open spec fn fence_of(frame: nat) -> usize {
    (frame % (FRAMES_IN_FLIGHT as nat)) as usize
}

/// At most [`FRAMES_IN_FLIGHT`] fences in flight, each the fence of its frame, the newest
/// being that of the last frame fenced.
pub open spec fn pacing_ok(q: Seq<usize>, frame: nat) -> bool {
    &&& q.len() <= FRAMES_IN_FLIGHT
    &&& q.len() <= frame
    &&& forall|i: int| 0 <= i < q.len() ==> #[trigger] q[i] == fence_of((frame - q.len() + i) as nat)
}

impl FramePacer {
    /// The pacer's invariant, [`pacing_ok`] of its queue and frame count.
    #[verifier::type_invariant]
    spec fn inv(self) -> bool {
        pacing_ok(self.in_flight@, self.frame as nat)
    }

    /// No frame in flight and none fenced yet.
    pub fn new() -> (r: Self)
        ensures
            r@.0 == Seq::<usize>::empty(),
            r@.1 == 0,
    {
        FramePacer { in_flight: VecDeque::new(), frame: 0 }
    }

    /// The fences to wait for before the next frame, oldest first: while
    /// [`FRAMES_IN_FLIGHT`] frames are in flight the oldest is retired. Afterwards fewer
    /// than [`FRAMES_IN_FLIGHT`] are in flight.
    pub fn retire_backlog(&mut self) -> (r: Vec<usize>)
        ensures
            pacing_ok(old(self)@.0, old(self)@.1),
            pacing_ok(final(self)@.0, final(self)@.1),
            final(self)@.1 == old(self)@.1,
            final(self)@.0.len() == if old(self)@.0.len() >= FRAMES_IN_FLIGHT {
                (FRAMES_IN_FLIGHT - 1) as nat
            } else {
                old(self)@.0.len()
            },
            r@ + final(self)@.0 == old(self)@.0,
    {
        proof {
            use_type_invariant(&*self);
        }
        let frame = self.frame;
        let mut q: VecDeque<usize> = VecDeque::new();
        core::mem::swap(&mut q, &mut self.in_flight);
        let ghost q0 = q@;
        let mut retired: Vec<usize> = Vec::new();
        while q.len() >= FRAMES_IN_FLIGHT
            invariant
                pacing_ok(q@, frame as nat),
                retired@ + q@ == q0,
                q0.len() >= FRAMES_IN_FLIGHT ==> q@.len() >= FRAMES_IN_FLIGHT - 1,
                q0.len() < FRAMES_IN_FLIGHT ==> retired@.len() == 0,
            decreases q@.len(),
        {
            let ghost before = q@;
            let oldest = q.pop_front().unwrap();
            retired.push(oldest);
            proof {
                assert forall|i: int| 0 <= i < q@.len() implies #[trigger] q@[i] == fence_of(
                    (frame - q@.len() + i) as nat,
                ) by {
                    assert(q@[i] == before[i + 1]);
                }
                assert(retired@ + q@ =~= q0);
            }
        }
        *self = FramePacer { in_flight: q, frame };
        retired
    }

    /// Fences the frame just submitted and returns the fence it uses. Fewer than
    /// [`FRAMES_IN_FLIGHT`] frames may be in flight before, as after
    /// [`FramePacer::retire_backlog`].
    pub fn fence_next(&mut self) -> (r: usize)
        requires
            old(self)@.0.len() < FRAMES_IN_FLIGHT,
            old(self)@.1 < usize::MAX,
        ensures
            pacing_ok(final(self)@.0, final(self)@.1),
            r == fence_of(old(self)@.1),
            r < FRAMES_IN_FLIGHT,
            final(self)@.0 == old(self)@.0.push(r),
            final(self)@.1 == old(self)@.1 + 1,
    {
        proof {
            use_type_invariant(&*self);
        }
        let frame = self.frame;
        let mut q: VecDeque<usize> = VecDeque::new();
        core::mem::swap(&mut q, &mut self.in_flight);
        let index = frame % FRAMES_IN_FLIGHT;
        q.push_back(index);
        *self = FramePacer { in_flight: q, frame: frame + 1 };
        index
    }

    /// The count of frames fenced so far.
    pub fn frames_fenced(&self) -> (r: usize)
        ensures
            r == self@.1,
    {
        self.frame
    }

    /// The count of frames in flight, never more than [`FRAMES_IN_FLIGHT`].
    pub fn frames_in_flight(&self) -> (r: usize)
        ensures
            r == self@.0.len(),
            r <= FRAMES_IN_FLIGHT,
            pacing_ok(self@.0, self@.1),
    {
        proof {
            use_type_invariant(self);
        }
        self.in_flight.len()
    }
}

} // verus!
