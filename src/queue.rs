//! A queue of cross-domain events that keeps the frame's phase discipline.
//!
//! Each event is stamped with the frame and phase in which it was produced. A
//! consumer sees an event only from a later point of the frame loop, oldest
//! first, so work running in parallel within one phase never reads what that
//! same phase wrote.

use crate::schedule::{is_before, point_before, KotoUpdate};
use vstd::prelude::*;

verus! {

/// An event together with the point of the frame loop at which it was produced.
pub struct StagedEvent<T> {
    pub frame: u64,
    pub phase: KotoUpdate,
    pub event: T,
}

/// A first-in first-out queue of events, with the current point of the frame loop.
pub struct PhasedQueue<T> {
    items: Vec<StagedEvent<T>>,
    frame: u64,
    phase: KotoUpdate,
}

impl<T> PhasedQueue<T> {
    pub closed spec fn items(self) -> Seq<StagedEvent<T>> {
        self.items@
    }

    pub closed spec fn frame(self) -> nat {
        self.frame as nat
    }

    pub closed spec fn phase(self) -> KotoUpdate {
        self.phase
    }

    /// The stamps never run backwards, and none lies after the current point.
    pub open spec fn wf(self) -> bool {
        &&& forall|i: int, j: int|
            #![trigger self.items()[i], self.items()[j]]
            0 <= i < j < self.items().len() ==> !point_before(
                self.items()[j].frame as nat,
                self.items()[j].phase,
                self.items()[i].frame as nat,
                self.items()[i].phase,
            )
        &&& forall|i: int|
            #![trigger self.items()[i]]
            0 <= i < self.items().len() ==> !point_before(
                self.frame(),
                self.phase(),
                self.items()[i].frame as nat,
                self.items()[i].phase,
            )
    }

    /// True when the event at position `i` may be seen at the current point.
    pub open spec fn visible(self, i: int) -> bool {
        point_before(
            self.items()[i].frame as nat,
            self.items()[i].phase,
            self.frame(),
            self.phase(),
        )
    }

    /// An empty queue at the first phase of the first frame.
    pub fn new() -> (r: PhasedQueue<T>)
        ensures
            r.wf(),
            r.items().len() == 0,
            r.frame() == 0,
            r.phase() == KotoUpdate::Compile,
    {
        PhasedQueue { items: Vec::new(), frame: 0, phase: KotoUpdate::Compile }
    }

    /// The current frame.
    pub fn current_frame(&self) -> (r: u64)
        ensures
            r == self.frame(),
    {
        self.frame
    }

    /// The current phase.
    pub fn current_phase(&self) -> (r: KotoUpdate)
        ensures
            r == self.phase(),
    {
        self.phase
    }

    /// The number of events waiting, visible or not.
    pub fn len(&self) -> (r: usize)
        ensures
            r == self.items().len(),
    {
        self.items.len()
    }

    /// Moves to the next phase, or to the first phase of the next frame.
    pub fn advance(&mut self)
        requires
            old(self).wf(),
            old(self).phase() == KotoUpdate::PostUpdate ==> old(self).frame() < u64::MAX,
        ensures
            final(self).wf(),
            final(self).items() == old(self).items(),
            point_before(old(self).frame(), old(self).phase(), final(self).frame(), final(self).phase()),
            old(self).phase() != KotoUpdate::PostUpdate ==> final(self).frame() == old(self).frame()
                && final(self).phase().rank() == old(self).phase().rank() + 1,
            old(self).phase() == KotoUpdate::PostUpdate ==> final(self).frame() == old(self).frame()
                + 1 && final(self).phase() == KotoUpdate::Compile,
    {
        match self.phase.next() {
            Some(p) => {
                self.phase = p;
            },
            None => {
                self.frame = self.frame + 1;
                self.phase = KotoUpdate::Compile;
            },
        }
    }

    /// Adds an event, stamped with the current point.
    pub fn send(&mut self, event: T)
        requires
            old(self).wf(),
        ensures
            final(self).wf(),
            final(self).frame() == old(self).frame(),
            final(self).phase() == old(self).phase(),
            final(self).items() == old(self).items().push(
                StagedEvent { frame: old(self).frame() as u64, phase: old(self).phase(), event },
            ),
    {
        let staged = StagedEvent { frame: self.frame, phase: self.phase, event };
        self.items.push(staged);
    }

    /// Takes the oldest event, when it was produced before the current point.
    ///
    /// Returns `None` when the queue is empty or its oldest event was produced
    /// in the current phase.
    pub fn receive(&mut self) -> (r: Option<T>)
        requires
            old(self).wf(),
        ensures
            final(self).wf(),
            final(self).frame() == old(self).frame(),
            final(self).phase() == old(self).phase(),
            old(self).items().len() > 0 && old(self).visible(0) ==> r == Some(
                old(self).items()[0].event,
            ) && final(self).items() == old(self).items().drop_first(),
            !(old(self).items().len() > 0 && old(self).visible(0)) ==> r.is_none()
                && final(self).items() == old(self).items(),
    {
        if self.items.len() == 0 {
            return None;
        }
        if !is_before(self.items[0].frame, self.items[0].phase, self.frame, self.phase) {
            return None;
        }
        let staged = self.items.remove(0);
        Some(staged.event)
    }
}

/// Events sent during a frame's Update phase are not seen by a consumer running
/// in that same phase, nor earlier; from the PostUpdate phase of that frame on,
/// they are.
pub proof fn lemma_update_events_wait_for_post_update<T>(q: PhasedQueue<T>, i: int)
    requires
        q.wf(),
        0 <= i < q.items().len(),
        q.items()[i].phase == KotoUpdate::Update,
    ensures
        q.frame() == q.items()[i].frame && q.phase().rank() <= KotoUpdate::Update.rank()
            ==> !q.visible(i),
        q.frame() == q.items()[i].frame && q.phase() == KotoUpdate::PostUpdate ==> q.visible(i),
        q.frame() > q.items()[i].frame ==> q.visible(i),
{
}

/// Events leave the queue in the order in which they were sent: whatever is
/// received next is the oldest event still waiting, and every event that
/// follows it in the queue is visible no earlier than it.
pub proof fn lemma_visible_in_order<T>(q: PhasedQueue<T>, i: int, j: int)
    requires
        q.wf(),
        0 <= i < j < q.items().len(),
        q.visible(j),
    ensures
        q.visible(i),
{
}

} // verus!
