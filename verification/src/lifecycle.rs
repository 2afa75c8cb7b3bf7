//! The service lifecycle that the probes report: startup completes once,
//! and a drain, once begun, is never undone.

use vstd::prelude::*;

verus! {

/// What a lifecycle is, as a mathematical value.
pub struct LifecycleView {
    pub revision: Seq<char>,
    pub started: bool,
    pub draining: bool,
}

impl LifecycleView {
    /// The service accepts traffic: startup completed and no drain began.
    pub open spec fn ready(self) -> bool {
        self.started && !self.draining
    }
}

/// A change that the server applies to its lifecycle.
#[derive(Clone, Copy, Debug, PartialEq, Eq, Structural)]
pub enum LifecycleEvent {
    /// The listener is bound and the service has started.
    Started,
    /// A shutdown was requested; in-flight requests are drained.
    DrainBegun,
}

/// The lifecycle after `event`.
pub open spec fn apply_event(state: LifecycleView, event: LifecycleEvent) -> LifecycleView {
    match event {
        LifecycleEvent::Started => LifecycleView { started: true, ..state },
        LifecycleEvent::DrainBegun => LifecycleView { draining: true, ..state },
    }
}

/// The lifecycle after each of `events`, in order.
pub open spec fn apply_events(state: LifecycleView, events: Seq<LifecycleEvent>) -> LifecycleView
    decreases events.len(),
{
    if events.len() == 0 {
        state
    } else {
        apply_events(apply_event(state, events[0]), events.drop_first())
    }
}

/// The lifecycle of one service revision.
pub struct LifecycleState {
    revision: String,
    started: bool,
    draining: bool,
}

impl View for LifecycleState {
    type V = LifecycleView;

    closed spec fn view(&self) -> LifecycleView {
        LifecycleView { revision: self.revision@, started: self.started, draining: self.draining }
    }
}

impl LifecycleState {
    /// A lifecycle that has neither started nor begun to drain.
    pub fn new(revision: &str) -> (state: Self)
        ensures
            state@ == (LifecycleView { revision: revision@, started: false, draining: false }),
    {
        LifecycleState { revision: revision.to_owned(), started: false, draining: false }
    }

    /// Records that startup completed.
    pub fn mark_started(&mut self)
        ensures
            final(self)@ == apply_event(old(self)@, LifecycleEvent::Started),
    {
        self.started = true;
    }

    /// Records that a drain began; the service is no longer ready.
    pub fn begin_drain(&mut self)
        ensures
            final(self)@ == apply_event(old(self)@, LifecycleEvent::DrainBegun),
    {
        self.draining = true;
    }

    /// Applies one lifecycle event.
    pub fn apply(&mut self, event: LifecycleEvent)
        ensures
            final(self)@ == apply_event(old(self)@, event),
    {
        match event {
            LifecycleEvent::Started => self.mark_started(),
            LifecycleEvent::DrainBegun => self.begin_drain(),
        }
    }

    /// Whether startup completed.
    pub fn is_started(&self) -> (started: bool)
        ensures
            started == self@.started,
    {
        self.started
    }

    /// Whether the service accepts traffic.
    pub fn is_ready(&self) -> (ready: bool)
        ensures
            ready == self@.ready(),
    {
        self.started && !self.draining
    }

    /// The revision the service runs.
    pub fn revision(&self) -> (revision: &str)
        ensures
            revision@ == self@.revision,
    {
        self.revision.as_str()
    }
}

/// Readiness implies that startup completed, in every lifecycle state.
pub proof fn lemma_ready_implies_started(state: LifecycleView)
    ensures
        state.ready() ==> state.started,
{
}

/// After any sequence of lifecycle events the service is ready exactly when
/// startup was recorded and no drain was: readiness fails closed, and no
/// later event undoes a drain. The revision never changes.
pub proof fn lemma_ready_after_events(state: LifecycleView, events: Seq<LifecycleEvent>)
    ensures
        apply_events(state, events).ready() == ((state.started || events.contains(
            LifecycleEvent::Started,
        )) && !(state.draining || events.contains(LifecycleEvent::DrainBegun))),
        apply_events(state, events).started == (state.started || events.contains(
            LifecycleEvent::Started,
        )),
        apply_events(state, events).revision == state.revision,
    decreases events.len(),
{
    if events.len() > 0 {
        let next = apply_event(state, events[0]);
        lemma_ready_after_events(next, events.drop_first());
        assert forall|e: LifecycleEvent| events.contains(e) <==> (e == events[0]
            || events.drop_first().contains(e)) by {
            if events.contains(e) {
                let i = choose|i: int| 0 <= i < events.len() && events[i] == e;
                if i > 0 {
                    assert(events.drop_first()[i - 1] == e);
                }
            }
            if events.drop_first().contains(e) {
                let i = choose|i: int| 0 <= i < events.drop_first().len() && events.drop_first()[i] == e;
                assert(events[i + 1] == e);
            }
        }
    }
}

/// Once a drain has begun, no sequence of later events makes the service
/// ready again.
pub proof fn lemma_drain_is_final(state: LifecycleView, events: Seq<LifecycleEvent>)
    requires
        state.draining,
    ensures
        !apply_events(state, events).ready(),
{
    lemma_ready_after_events(state, events);
}

} // verus!
