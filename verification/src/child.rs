//! The coordinator's side of one worker.

use crate::event::{ChildEvent, WindowEvent, WindowId};
use vstd::prelude::*;

verus! {

/// Mathematical content of a `Child`.
pub struct ChildView<S> {
    /// Identity of the worker's window.
    pub id: WindowId,
    /// The sending end of the channel to the worker, once it runs.
    pub sender: Option<S>,
}

/// Handle of one worker as the coordinator holds it: the identity of the
/// worker's window and the sending end `S` of the channel to the worker.
///
/// The handle owns the sending end. Dropping the handle drops it, which is
/// the one signal that ends the worker.
#[derive(Debug)]
pub struct Child<S> {
    id: WindowId,
    sender: Option<S>,
}

impl<S> View for Child<S> {
    type V = ChildView<S>;

    closed spec fn view(&self) -> ChildView<S> {
        ChildView { id: self.id, sender: self.sender }
    }
}

impl<S> Child<S> {
    /// Creates the handle for the window with identity `id`. Its worker
    /// does not run yet.
    pub fn new(id: WindowId) -> (child: Child<S>)
        ensures
            child@ == (ChildView::<S> { id, sender: None }),
    {
        Child { id, sender: None }
    }

    /// Identity of the worker's window.
    pub fn id(&self) -> (id: WindowId)
        ensures
            id == self@.id,
    {
        self.id
    }

    /// Tells whether the worker has been started.
    pub fn is_running(&self) -> (running: bool)
        ensures
            running == self@.sender is Some,
    {
        self.sender.is_some()
    }

    /// The sending end of the channel to the worker, if the worker runs.
    pub fn sender(&self) -> (sender: Option<&S>)
        ensures
            sender is Some == self@.sender is Some,
            sender matches Some(s) ==> self@.sender == Some(*s),
    {
        self.sender.as_ref()
    }

    /// Records that the worker runs and is reached through `sender`. A
    /// sending end held before is dropped.
    pub fn run(&mut self, sender: S)
        ensures
            final(self)@ == (ChildView { id: old(self)@.id, sender: Some(sender) }),
    {
        self.sender = Some(sender);
    }

    /// Wraps `event` for the worker: `Some` of what is to be sent when the
    /// worker runs, `None` when it does not and the event is dropped.
    pub fn window_event(&self, event: WindowEvent) -> (routed: Option<ChildEvent>)
        ensures
            routed == if self@.sender is Some {
                Some(ChildEvent::WindowEvent(event))
            } else {
                None
            },
    {
        if self.sender.is_some() {
            Some(ChildEvent::WindowEvent(event))
        } else {
            None
        }
    }
}

} // verus!
