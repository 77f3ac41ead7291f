//! The worker of one window: the state machine that builds the window's
//! surface context and then serves the events routed to it.
//!
//! The host runs the worker on a thread of its own. It starts with the event
//! `Started`, carries out the action each step returns, and hands the
//! outcome to the next step, until a step returns `Exit`.

use crate::event::{ChildEvent, PhysicalSize, WindowEvent};
use crate::viewport::{SurfaceConfiguration, SurfaceUpdate, Viewport, ViewportError, ViewportView};
use vstd::prelude::*;

verus! {

/// Where a worker is in its life.
#[derive(Clone, Copy, Debug, PartialEq, Eq, Structural)]
pub enum Phase {
    /// Created; its thread has not reported in yet.
    Spawned,
    /// Acquiring the graphics device and configuring the surface for the
    /// first time.
    Building,
    /// Built and waiting for the next routed event.
    Ready,
    /// Waiting for the host to apply a new configuration.
    Resizing,
    /// Waiting for the host to present a frame.
    Painting,
    /// Finished; nothing more will be asked of the host.
    Stopped,
}

/// What the host reports to a worker.
#[derive(Clone, Copy, Debug, PartialEq, Eq, Structural)]
pub enum WorkerEvent {
    /// The worker's thread is running.
    Started,
    /// Adapter, device and queue are acquired; the window's drawable area
    /// has the given size.
    Negotiated(PhysicalSize),
    /// The action asked for last was carried out.
    Completed,
    /// The action asked for last could not be carried out.
    Failed,
    /// The channel from the coordinator yielded an event.
    Received(ChildEvent),
    /// The coordinator dropped its end of the channel.
    Disconnected,
}

/// Why a worker stopped.
#[derive(Clone, Copy, Debug, PartialEq, Eq, Structural)]
pub enum StopReason {
    /// The coordinator dropped the worker's handle: the regular end.
    ChannelClosed,
    /// No adapter or device could be had, or the first configuration failed.
    BuildFailed,
    /// A configuration asked for by a resize could not be applied.
    ConfigureFailed,
    /// An operation on the surface context failed.
    Surface(ViewportError),
    /// The host reported an event that the worker's phase does not expect.
    OutOfTurn,
}

/// What a worker asks of the host.
#[derive(Clone, Copy, Debug, PartialEq, Eq, Structural)]
pub enum WorkerAction {
    /// Acquire adapter, device and queue for the window's surface and
    /// report the window's current size.
    Negotiate,
    /// Configure the surface as the update says and, if it says so, ask the
    /// window for a redraw afterwards.
    Configure(SurfaceUpdate),
    /// Acquire the next frame, clear it, submit and present it.
    Paint,
    /// Wait for the next event on the channel from the coordinator.
    Receive,
    /// Leave the loop and end the thread.
    Exit(StopReason),
}

impl WorkerAction {
    /// True for the two actions that touch a surface after its build: a
    /// paint, and the configuration a resize asks for.
    pub open spec fn is_surface_work(self) -> bool {
        self is Paint || (self matches WorkerAction::Configure(update) && !update.redraw)
    }
}

/// Mathematical content of a `Worker`.
pub struct WorkerView {
    pub phase: Phase,
    pub viewport: ViewportView,
}

impl WorkerView {
    /// A worker that was just created.
    pub open spec fn spawned() -> WorkerView {
        WorkerView { phase: Phase::Spawned, viewport: ViewportView::fresh() }
    }

    /// The worker gives up for `reason`. Every failure is fatal for the
    /// worker's window and for nothing else.
    pub open spec fn stop(self, reason: StopReason) -> (WorkerView, WorkerAction) {
        (WorkerView { phase: Phase::Stopped, ..self }, WorkerAction::Exit(reason))
    }

    /// The worker goes to `phase` and asks for `action`.
    pub open spec fn go(self, phase: Phase, action: WorkerAction) -> (WorkerView, WorkerAction) {
        (WorkerView { phase, ..self }, action)
    }

    /// The step of a worker in phase `Building`.
    pub open spec fn step_building(self, event: WorkerEvent) -> (WorkerView, WorkerAction) {
        match event {
            WorkerEvent::Negotiated(size) => match self.viewport.build(size) {
                (viewport, Ok(update)) => (
                    WorkerView { viewport, ..self },
                    WorkerAction::Configure(update),
                ),
                (_, Err(error)) => self.stop(StopReason::Surface(error)),
            },
            WorkerEvent::Completed => if self.viewport.is_built() {
                self.go(Phase::Ready, WorkerAction::Receive)
            } else {
                self.stop(StopReason::OutOfTurn)
            },
            WorkerEvent::Failed => self.stop(StopReason::BuildFailed),
            _ => self.stop(StopReason::OutOfTurn),
        }
    }

    /// The step of a worker in phase `Ready` that received `event` from the
    /// coordinator: a resize reconfigures the surface, a redraw request
    /// paints, and every other event is passed over.
    pub open spec fn step_received(self, event: ChildEvent) -> (WorkerView, WorkerAction) {
        match event {
            ChildEvent::WindowEvent(WindowEvent::Resized(size)) => (
                WorkerView { phase: Phase::Resizing, viewport: self.viewport.resize(size).0 },
                WorkerAction::Configure(self.viewport.resize(size).1),
            ),
            ChildEvent::WindowEvent(WindowEvent::RedrawRequested) => self.go(
                Phase::Painting,
                WorkerAction::Paint,
            ),
            _ => self.go(Phase::Ready, WorkerAction::Receive),
        }
    }

    /// The step of a worker in phase `Painting`. A frame that could not be
    /// acquired ends the worker: there is no second attempt.
    pub open spec fn step_painting(self, event: WorkerEvent) -> (WorkerView, WorkerAction) {
        match event {
            WorkerEvent::Completed | WorkerEvent::Failed => match self.viewport.paint(
                event is Completed,
            ) {
                (viewport, Ok(_)) => (
                    WorkerView { phase: Phase::Ready, viewport },
                    WorkerAction::Receive,
                ),
                (_, Err(error)) => self.stop(StopReason::Surface(error)),
            },
            _ => self.stop(StopReason::OutOfTurn),
        }
    }

    /// One step of the worker: the state after `event` and the action asked
    /// of the host.
    ///
    /// An event that the current phase does not expect stops the worker, and
    /// so does every failure.
    pub open spec fn step(self, event: WorkerEvent) -> (WorkerView, WorkerAction) {
        match self.phase {
            Phase::Spawned => match event {
                WorkerEvent::Started => self.go(Phase::Building, WorkerAction::Negotiate),
                _ => self.stop(StopReason::OutOfTurn),
            },
            Phase::Building => self.step_building(event),
            Phase::Ready => match event {
                WorkerEvent::Received(routed) => self.step_received(routed),
                WorkerEvent::Disconnected => self.stop(StopReason::ChannelClosed),
                _ => self.stop(StopReason::OutOfTurn),
            },
            Phase::Resizing => match event {
                WorkerEvent::Completed => self.go(Phase::Ready, WorkerAction::Receive),
                WorkerEvent::Failed => self.stop(StopReason::ConfigureFailed),
                _ => self.stop(StopReason::OutOfTurn),
            },
            Phase::Painting => self.step_painting(event),
            Phase::Stopped => self.stop(StopReason::OutOfTurn),
        }
    }
}

/// The worker of one window. It owns the window's surface context; nothing
/// else touches it.
#[derive(Debug)]
pub struct Worker {
    phase: Phase,
    viewport: Viewport,
}

impl View for Worker {
    type V = WorkerView;

    closed spec fn view(&self) -> WorkerView {
        WorkerView { phase: self.phase, viewport: self.viewport@ }
    }
}

impl Worker {
    /// A worker is consistent throughout its life; in particular its surface
    /// context is built whenever it resizes or paints.
    #[verifier::type_invariant]
    spec fn well_formed(self) -> bool {
        self@.consistent()
    }

    /// Creates a worker in phase `Spawned` with an unbuilt surface context.
    pub fn new() -> (worker: Worker)
        ensures
            worker@ == WorkerView::spawned(),
    {
        Worker { phase: Phase::Spawned, viewport: Viewport::new() }
    }

    /// The phase the worker is in.
    pub fn phase(&self) -> (phase: Phase)
        ensures
            phase == self@.phase,
            self@.consistent(),
    {
        proof {
            use_type_invariant(self);
        }
        self.phase
    }

    /// The worker's surface context.
    pub fn viewport(&self) -> (viewport: &Viewport)
        ensures
            viewport@ == self@.viewport,
            self@.consistent(),
    {
        proof {
            use_type_invariant(self);
        }
        &self.viewport
    }

    fn stop(&mut self, reason: StopReason) -> (action: WorkerAction)
        ensures
            (final(self)@, action) == old(self)@.stop(reason),
    {
        proof {
            use_type_invariant(&*self);
        }
        self.phase = Phase::Stopped;
        WorkerAction::Exit(reason)
    }

    fn go(&mut self, phase: Phase, action: WorkerAction) -> (asked: WorkerAction)
        requires
            old(self)@.go(phase, action).0.consistent(),
        ensures
            (final(self)@, asked) == old(self)@.go(phase, action),
    {
        self.phase = phase;
        action
    }

    fn step_building(&mut self, event: WorkerEvent) -> (action: WorkerAction)
        requires
            old(self)@.phase is Building,
        ensures
            (final(self)@, action) == old(self)@.step_building(event),
    {
        proof {
            use_type_invariant(&*self);
        }
        match event {
            WorkerEvent::Negotiated(size) => match self.viewport.build(size) {
                Ok(update) => WorkerAction::Configure(update),
                Err(error) => self.stop(StopReason::Surface(error)),
            },
            WorkerEvent::Completed => if self.viewport.is_built() {
                self.go(Phase::Ready, WorkerAction::Receive)
            } else {
                self.stop(StopReason::OutOfTurn)
            },
            WorkerEvent::Failed => self.stop(StopReason::BuildFailed),
            _ => self.stop(StopReason::OutOfTurn),
        }
    }

    fn step_received(&mut self, event: ChildEvent) -> (action: WorkerAction)
        requires
            old(self)@.phase is Ready,
        ensures
            (final(self)@, action) == old(self)@.step_received(event),
    {
        proof {
            use_type_invariant(&*self);
        }
        match event {
            ChildEvent::WindowEvent(WindowEvent::Resized(size)) => {
                let update = self.viewport.resize(size);
                self.go(Phase::Resizing, WorkerAction::Configure(update))
            },
            ChildEvent::WindowEvent(WindowEvent::RedrawRequested) => self.go(
                Phase::Painting,
                WorkerAction::Paint,
            ),
            _ => self.go(Phase::Ready, WorkerAction::Receive),
        }
    }

    fn step_painting(&mut self, event: WorkerEvent) -> (action: WorkerAction)
        requires
            old(self)@.phase is Painting,
        ensures
            (final(self)@, action) == old(self)@.step_painting(event),
    {
        proof {
            use_type_invariant(&*self);
        }
        let acquired = match event {
            WorkerEvent::Completed => true,
            WorkerEvent::Failed => false,
            _ => { return self.stop(StopReason::OutOfTurn); },
        };
        match self.viewport.paint(acquired) {
            Ok(_) => self.go(Phase::Ready, WorkerAction::Receive),
            Err(error) => self.stop(StopReason::Surface(error)),
        }
    }

    /// Takes `event` from the host and returns what the host must do next.
    ///
    /// The worker builds before it receives: `Negotiate` is asked for first,
    /// and `Receive` only once the surface context is built. A resize or a
    /// paint is asked for only in answer to a received event. Once `Exit`
    /// has been returned the worker stays stopped.
    pub fn step(&mut self, event: WorkerEvent) -> (action: WorkerAction)
        ensures
            (final(self)@, action) == old(self)@.step(event),
            final(self)@.consistent(),
    {
        proof {
            use_type_invariant(&*self);
        }
        match self.phase {
            Phase::Spawned => match event {
                WorkerEvent::Started => self.go(Phase::Building, WorkerAction::Negotiate),
                _ => self.stop(StopReason::OutOfTurn),
            },
            Phase::Building => self.step_building(event),
            Phase::Ready => match event {
                WorkerEvent::Received(routed) => self.step_received(routed),
                WorkerEvent::Disconnected => self.stop(StopReason::ChannelClosed),
                _ => self.stop(StopReason::OutOfTurn),
            },
            Phase::Resizing => match event {
                WorkerEvent::Completed => self.go(Phase::Ready, WorkerAction::Receive),
                WorkerEvent::Failed => self.stop(StopReason::ConfigureFailed),
                _ => self.stop(StopReason::OutOfTurn),
            },
            Phase::Painting => self.step_painting(event),
            Phase::Stopped => self.stop(StopReason::OutOfTurn),
        }
    }
}

impl WorkerView {
    /// The state after the host has reported `events`, in order.
    pub open spec fn run(self, events: Seq<WorkerEvent>) -> WorkerView
        decreases events.len(),
    {
        if events.len() == 0 {
            self
        } else {
            self.run(events.drop_last()).step(events.last()).0
        }
    }

    /// The state after a worker that waits on the channel has received
    /// `event` and the host has carried out what the worker asked for in
    /// answer.
    pub open spec fn serve(self, event: ChildEvent) -> WorkerView {
        let (next, action) = self.step(WorkerEvent::Received(event));
        if action is Configure || action is Paint {
            next.step(WorkerEvent::Completed).0
        } else {
            next
        }
    }

    /// The state after the events of `inbox` have been served in order.
    pub open spec fn serve_all(self, inbox: Seq<ChildEvent>) -> WorkerView
        decreases inbox.len(),
    {
        if inbox.len() == 0 {
            self
        } else {
            self.serve_all(inbox.drop_last()).serve(inbox.last())
        }
    }

    /// What holds of a worker throughout its life: the configuration of
    /// its surface is valid, before its thread reports in its surface
    /// context is untouched, and while it serves events its surface context
    /// is built.
    pub open spec fn consistent(self) -> bool {
        &&& self.viewport.is_valid()
        &&& match self.phase {
            Phase::Spawned => self.viewport == ViewportView::fresh(),
            Phase::Ready | Phase::Resizing | Phase::Painting => self.viewport.is_built(),
            _ => true,
        }
    }

    /// True in the phases a worker can only be in after its build.
    pub open spec fn is_serving(self) -> bool {
        self.phase is Ready || self.phase is Resizing || self.phase is Painting
    }
}

/// True when the event at index `at` of `events`, reported to a new worker,
/// is the one that completes the worker's build.
pub open spec fn completes_build(events: Seq<WorkerEvent>, at: int) -> bool {
    &&& 0 <= at < events.len()
    &&& WorkerView::spawned().run(events.take(at)).phase is Building
    &&& WorkerView::spawned().run(events.take(at + 1)).phase is Ready
}

/// The size of the last resize among `inbox`, if there is one.
pub open spec fn last_resize(inbox: Seq<ChildEvent>) -> Option<PhysicalSize>
    decreases inbox.len(),
{
    if inbox.len() == 0 {
        None
    } else {
        match inbox.last() {
            ChildEvent::WindowEvent(WindowEvent::Resized(size)) => Some(size),
            _ => last_resize(inbox.drop_last()),
        }
    }
}

/// Number of redraw requests among `inbox`.
pub open spec fn redraws(inbox: Seq<ChildEvent>) -> nat
    decreases inbox.len(),
{
    if inbox.len() == 0 {
        0
    } else {
        redraws(inbox.drop_last()) + if inbox.last() == ChildEvent::WindowEvent(
            WindowEvent::RedrawRequested,
        ) {
            1nat
        } else {
            0nat
        }
    }
}

proof fn lemma_serving_follows_build(events: Seq<WorkerEvent>)
    ensures
        WorkerView::spawned().run(events).consistent(),
        WorkerView::spawned().run(events).is_serving() ==> exists|at: int|
            completes_build(events, at),
    decreases events.len(),
{
    if events.len() > 0 {
        let shorter = events.drop_last();
        let before = WorkerView::spawned().run(shorter);
        let after = WorkerView::spawned().run(events);
        lemma_serving_follows_build(shorter);
        assert(after == before.step(events.last()).0);
        if after.is_serving() {
            assert(events.take(events.len() as int) =~= events);
            assert(events.take(events.len() - 1) =~= shorter);
            if before.is_serving() {
                let at = choose|at: int| completes_build(shorter, at);
                assert(shorter.take(at) =~= events.take(at));
                assert(shorter.take(at + 1) =~= events.take(at + 1));
                assert(completes_build(events, at));
            } else {
                assert(completes_build(events, events.len() - 1));
            }
        }
    }
}

/// A worker asks for no paint and for no resize of its surface before its
/// build is complete, and it does not wait on the channel before either.
/// Whatever the host reports to a new worker: when the worker asks for a
/// paint or a resize, it does so from phase `Ready` in answer to a received
/// event, its surface context is built, and an earlier event completed the
/// build; when it asks to receive, the build was completed by then.
pub proof fn law_build_precedes_surface_work(events: Seq<WorkerEvent>, at: int)
    requires
        0 <= at < events.len(),
    ensures
        ({
            let before = WorkerView::spawned().run(events.take(at));
            let (after, action) = before.step(events[at]);
            &&& action.is_surface_work() ==> {
                &&& before.phase is Ready
                &&& before.viewport.is_built()
                &&& events[at] is Received
                &&& exists|earlier: int| earlier < at && completes_build(events, earlier)
            }
            &&& action is Receive ==> {
                &&& after.phase is Ready
                &&& after.viewport.is_built()
                &&& exists|earlier: int| earlier <= at && completes_build(events, earlier)
            }
        }),
{
    let prefix = events.take(at);
    let longer = events.take(at + 1);
    let before = WorkerView::spawned().run(prefix);
    let (after, action) = before.step(events[at]);
    assert(longer.drop_last() =~= prefix);
    assert(WorkerView::spawned().run(longer) == after);
    lemma_serving_follows_build(prefix);
    lemma_serving_follows_build(longer);
    if action.is_surface_work() {
        let earlier = choose|earlier: int| completes_build(prefix, earlier);
        assert(prefix.take(earlier) =~= events.take(earlier));
        assert(prefix.take(earlier + 1) =~= events.take(earlier + 1));
        assert(completes_build(events, earlier));
    }
    if action is Receive {
        let earlier = choose|earlier: int| completes_build(longer, earlier);
        assert(longer.take(earlier) =~= events.take(earlier));
        assert(longer.take(earlier + 1) =~= events.take(earlier + 1));
        assert(completes_build(events, earlier));
    }
}

/// A worker is consistent at every point of its life, and it never asks for
/// a surface to be configured with a width or a height of zero.
pub proof fn law_worker_stays_consistent(events: Seq<WorkerEvent>, event: WorkerEvent)
    ensures
        WorkerView::spawned().run(events).consistent(),
        WorkerView::spawned().run(events).step(event).1 matches WorkerAction::Configure(update)
            ==> update.config.is_valid(),
{
    lemma_serving_follows_build(events);
}

/// Events are applied in the order they were sent. After a built worker has
/// served `inbox`, it waits for the next event, the configuration of its
/// surface is the one fitting the last resize of `inbox` (the size of that
/// resize itself, unless a side of it is zero), or the configuration it
/// had if `inbox` holds no resize, and the surface has presented one more
/// frame for every redraw request of `inbox`.
pub proof fn law_events_apply_in_order(worker: WorkerView, inbox: Seq<ChildEvent>)
    requires
        worker.phase is Ready,
        worker.viewport.is_built(),
    ensures
        worker.serve_all(inbox).phase is Ready,
        worker.serve_all(inbox).viewport.config == match last_resize(inbox) {
            Some(size) => Some(SurfaceConfiguration::fitting(size)),
            None => worker.viewport.config,
        },
        last_resize(inbox) matches Some(size) ==> size.width > 0 && size.height > 0
            ==> worker.serve_all(inbox).viewport.config == Some(
            SurfaceConfiguration { width: size.width, height: size.height },
        ),
        worker.serve_all(inbox).viewport.frames == if worker.viewport.frames + redraws(inbox)
            <= u64::MAX {
            worker.viewport.frames + redraws(inbox)
        } else {
            u64::MAX as int
        },
    decreases inbox.len(),
{
    if inbox.len() > 0 {
        law_events_apply_in_order(worker, inbox.drop_last());
    }
}

} // verus!
