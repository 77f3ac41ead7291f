//! The coordinator: the registry of live workers and the routing of window
//! events to them.

use crate::child::{Child, ChildView};
use crate::event::{ChildEvent, ElementState, KeyCode, WindowEvent, WindowId};
use std::collections::HashMap;
use vstd::prelude::*;

verus! {

/// What the host must do after the coordinator has seen an event.
#[derive(Clone, Copy, Debug, PartialEq, Eq, Structural)]
pub enum Dispatch {
    /// A close request removed the last live window: end the event loop.
    Exit,
    /// A close request was handled and the event loop goes on: windows
    /// remain, or the request named no live window.
    Closed,
    /// Create a native window and register it with `create_child`.
    CreateWindow,
    /// Send `event` to the worker of window `id`.
    Forward { id: WindowId, event: ChildEvent },
    /// The event has no recipient: nothing to do.
    Dropped,
}

/// Mathematical content of the coordinator's registry: the live windows,
/// each with the handle of its worker.
pub type Registry<S> = Map<WindowId, ChildView<S>>;

/// What the coordinator decides for `event`, tagged with window `id`, when
/// `registry` maps the live windows to the handles of their workers: the
/// registry afterwards and the instruction to the host.
///
/// A close request is looked at first: it removes the window and asks for
/// exit when that removal took the last window out of the registry. A
/// close request for a window that is not registered removes nothing and
/// never asks for exit. The key press for a new window comes second. Every
/// other event goes to the worker of its window, or nowhere if that window
/// is not registered or its worker does not run.
pub open spec fn route<S>(registry: Registry<S>, id: WindowId, event: WindowEvent) -> (
    Registry<S>,
    Dispatch,
) {
    if event is CloseRequested {
        let remaining = registry.remove(id);
        (
            remaining,
            if registry.contains_key(id) && remaining.is_empty() {
                Dispatch::Exit
            } else {
                Dispatch::Closed
            },
        )
    } else if event.is_new_window_command() {
        (registry, Dispatch::CreateWindow)
    } else if registry.contains_key(id) && registry[id].sender is Some {
        (registry, Dispatch::Forward { id, event: ChildEvent::WindowEvent(event) })
    } else {
        (registry, Dispatch::Dropped)
    }
}

/// The coordinator. It owns the registry of live workers, keyed by window
/// identity; `S` is the sending end of the channel to a worker.
///
/// A window is registered from `create_child` until its close request is
/// dispatched. Removing the entry drops the worker's handle and with it the
/// sending end, which ends the worker.
#[derive(Debug)]
pub struct App<S> {
    children: HashMap<WindowId, Child<S>>,
}

impl<S> View for App<S> {
    type V = Registry<S>;

    /// The live windows, each with the handle of its worker.
    closed spec fn view(&self) -> Registry<S> {
        self.children@.map_values(|child: Child<S>| child@)
    }
}

impl<S> App<S> {
    /// Creates a coordinator with no window.
    pub fn new() -> (app: App<S>)
        ensures
            app@ == Registry::<S>::empty(),
    {
        let app = App { children: HashMap::new() };
        assert(app@ =~= Registry::<S>::empty());
        app
    }

    /// Number of live windows.
    pub fn len(&self) -> (len: usize)
        ensures
            len == self@.len(),
            self@.dom().finite(),
    {
        broadcast use vstd::std_specs::hash::group_hash_axioms;

        assert(self@.dom() =~= self.children@.dom());
        self.children.len()
    }

    /// Tells whether no window is live.
    pub fn is_empty(&self) -> (empty: bool)
        ensures
            empty == self@.is_empty(),
    {
        assert(self@.dom() =~= self.children@.dom());
        self.children.is_empty()
    }

    /// Tells whether the window with identity `id` is live.
    pub fn contains(&self, id: WindowId) -> (live: bool)
        ensures
            live == self@.contains_key(id),
    {
        broadcast use vstd::std_specs::hash::group_hash_axioms;

        self.children.contains_key(&id)
    }

    /// The sending end of the channel to the worker of window `id`, if that
    /// window is live and its worker runs.
    pub fn sender(&self, id: WindowId) -> (sender: Option<&S>)
        ensures
            sender is Some == (self@.contains_key(id) && self@[id].sender is Some),
            sender matches Some(s) ==> self@[id].sender == Some(*s),
    {
        broadcast use vstd::std_specs::hash::group_hash_axioms;

        match self.children.get(&id) {
            Some(child) => child.sender(),
            None => None,
        }
    }

    /// The first instruction to the host, once the platform allows windows
    /// to be created: open the first window.
    pub fn resumed(&self) -> (dispatch: Dispatch)
        ensures
            dispatch == Dispatch::CreateWindow,
    {
        Dispatch::CreateWindow
    }

    /// Registers the window with identity `id`, which the host has created,
    /// together with the sending end of the channel to its worker, which the
    /// host has started.
    ///
    /// The windowing system hands out an identity to one live window at a
    /// time. Should `id` be registered already, the new entry replaces the
    /// old one, whose handle is dropped.
    pub fn create_child(&mut self, id: WindowId, sender: S)
        ensures
            final(self)@ == old(self)@.insert(id, ChildView { id, sender: Some(sender) }),
    {
        broadcast use vstd::std_specs::hash::group_hash_axioms;

        let mut child = Child::new(id);
        child.run(sender);
        self.children.insert(id, child);
        assert(self@ =~= old(self)@.insert(id, ChildView { id, sender: Some(sender) }));
    }

    /// Handles `event`, which the windowing system tagged with window `id`,
    /// and returns what the host must do.
    ///
    /// The registry changes only on a close request, which removes `id`.
    /// `Exit` is returned exactly when a close request removes the last
    /// live window, and `Forward` exactly when the event is neither a close
    /// request nor the key press for a new window and the worker of `id` is
    /// registered and runs.
    pub fn window_event(&mut self, id: WindowId, event: WindowEvent) -> (dispatch: Dispatch)
        ensures
            (final(self)@, dispatch) == route(old(self)@, id, event),
    {
        broadcast use vstd::std_specs::hash::group_hash_axioms;

        match event {
            WindowEvent::CloseRequested => {
                let removed = self.children.remove(&id);
                assert(self@ =~= old(self)@.remove(id));
                assert(self@.dom() =~= self.children@.dom());
                if removed.is_some() && self.children.is_empty() {
                    Dispatch::Exit
                } else {
                    Dispatch::Closed
                }
            },
            WindowEvent::KeyboardInput { state: ElementState::Pressed, key: KeyCode::KeyN } => {
                Dispatch::CreateWindow
            },
            event => match self.children.get(&id) {
                Some(child) => match child.window_event(event) {
                    Some(routed) => Dispatch::Forward { id, event: routed },
                    None => Dispatch::Dropped,
                },
                None => Dispatch::Dropped,
            },
        }
    }
}

impl<S> Default for App<S> {
    /// A coordinator with no window.
    fn default() -> (app: App<S>)
        ensures
            app@ == Registry::<S>::empty(),
    {
        App::new()
    }
}

/// One call on the coordinator, as the laws below speak of it.
pub enum Command<S> {
    /// `create_child(id, sender)`.
    CreateChild { id: WindowId, sender: S },
    /// `window_event(id, event)`.
    WindowEvent { id: WindowId, event: WindowEvent },
}

impl<S> Command<S> {
    /// The registry after this call on `registry`.
    pub open spec fn apply(self, registry: Registry<S>) -> Registry<S> {
        match self {
            Command::CreateChild { id, sender } => registry.insert(
                id,
                ChildView { id, sender: Some(sender) },
            ),
            Command::WindowEvent { id, event } => route(registry, id, event).0,
        }
    }

    /// True for a close request whose window is live in `registry`.
    pub open spec fn is_matched_close(self, registry: Registry<S>) -> bool {
        self matches Command::WindowEvent { id, event } && event is CloseRequested
            && registry.contains_key(id)
    }

    /// True for a call on `registry` whose dispatch asks for exit.
    pub open spec fn asks_for_exit(self, registry: Registry<S>) -> bool {
        self matches Command::WindowEvent { id, event } && route(registry, id, event).1 is Exit
    }

    /// True unless the call registers an identity that is live in
    /// `registry`.
    pub open spec fn respects_identities(self, registry: Registry<S>) -> bool {
        self matches Command::CreateChild { id, .. } ==> !registry.contains_key(id)
    }
}

/// The registry after `commands`, made in order on `registry`.
pub open spec fn replay<S>(registry: Registry<S>, commands: Seq<Command<S>>) -> Registry<S>
    decreases commands.len(),
{
    if commands.len() == 0 {
        registry
    } else {
        commands.last().apply(replay(registry, commands.drop_last()))
    }
}

/// Number of `create_child` calls among `commands`.
pub open spec fn creates<S>(commands: Seq<Command<S>>) -> nat
    decreases commands.len(),
{
    if commands.len() == 0 {
        0
    } else {
        creates(commands.drop_last()) + if commands.last() is CreateChild {
            1nat
        } else {
            0nat
        }
    }
}

/// Number of close requests among `commands`, made in order on `registry`,
/// that found their window live.
pub open spec fn matched_closes<S>(
    registry: Registry<S>,
    commands: Seq<Command<S>>,
) -> nat
    decreases commands.len(),
{
    if commands.len() == 0 {
        0
    } else {
        let before = replay(registry, commands.drop_last());
        matched_closes(registry, commands.drop_last()) + if commands.last().is_matched_close(
            before,
        ) {
            1nat
        } else {
            0nat
        }
    }
}

/// True when no call among `commands`, made in order on `registry`,
/// registers an identity that is live at that moment: the windowing system
/// gives an identity to one live window at a time.
pub open spec fn identities_unique<S>(
    registry: Registry<S>,
    commands: Seq<Command<S>>,
) -> bool
    decreases commands.len(),
{
    commands.len() > 0 ==> {
        &&& identities_unique(registry, commands.drop_last())
        &&& commands.last().respects_identities(replay(registry, commands.drop_last()))
    }
}

/// True when every handle in `registry` is filed under the identity of its
/// own window and its worker runs.
pub open spec fn all_running<S>(registry: Registry<S>) -> bool {
    forall|id: WindowId| #[trigger]
        registry.contains_key(id) ==> registry[id].id == id && registry[id].sender is Some
}

proof fn lemma_identities_unique_in_prefix<S>(
    registry: Registry<S>,
    commands: Seq<Command<S>>,
    at: int,
)
    requires
        identities_unique(registry, commands),
        0 <= at <= commands.len(),
    ensures
        identities_unique(registry, commands.take(at)),
    decreases commands.len(),
{
    if at == commands.len() {
        assert(commands.take(at) =~= commands);
    } else {
        assert(commands.drop_last().take(at) =~= commands.take(at));
        lemma_identities_unique_in_prefix(registry, commands.drop_last(), at);
    }
}

/// At every point of any sequence of calls on the coordinator, the number
/// of live windows is the number of windows registered so far less the
/// number of close requests so far that found their window live. `at` is
/// the number of calls made; the calls must respect that an identity
/// belongs to one live window at a time.
pub proof fn law_registry_size<S>(
    registry: Registry<S>,
    commands: Seq<Command<S>>,
    at: int,
)
    requires
        registry.dom().finite(),
        identities_unique(registry, commands),
        0 <= at <= commands.len(),
    ensures
        replay(registry, commands.take(at)).dom().finite(),
        replay(registry, commands.take(at)).len() == registry.len() + creates(commands.take(at))
            - matched_closes(registry, commands.take(at)),
        registry.is_empty() ==> replay(registry, commands.take(at)).len() == creates(
            commands.take(at),
        ) - matched_closes(registry, commands.take(at)),
    decreases at,
{
    let made = commands.take(at);
    lemma_identities_unique_in_prefix(registry, commands, at);
    if at > 0 {
        assert(made.drop_last() =~= commands.take(at - 1));
        law_registry_size(registry, commands, at - 1);
    }
}

/// Calls on the coordinator keep every registered worker running and filed
/// under the identity of its own window. A live window's events therefore
/// always have a worker to go to.
pub proof fn law_registered_workers_run<S>(
    registry: Registry<S>,
    commands: Seq<Command<S>>,
)
    requires
        all_running(registry),
    ensures
        all_running(replay(registry, commands)),
    decreases commands.len(),
{
    if commands.len() > 0 {
        law_registered_workers_run(registry, commands.drop_last());
    }
}

/// Number of calls among `commands`, made in order on `registry`, whose
/// dispatch asks for exit.
pub open spec fn exits<S>(registry: Registry<S>, commands: Seq<Command<S>>) -> nat
    decreases commands.len(),
{
    if commands.len() == 0 {
        0
    } else {
        let before = replay(registry, commands.drop_last());
        exits(registry, commands.drop_last()) + if commands.last().asks_for_exit(before) {
            1nat
        } else {
            0nat
        }
    }
}

/// The close request for the last live window asks for exit, in the one
/// instruction its dispatch returns, and leaves the registry empty. No
/// other dispatch asks for exit: not a close request that leaves a window
/// live, not a close request for a window that is not registered, and no
/// other event.
pub proof fn law_exit_on_last_close<S>(registry: Registry<S>, id: WindowId, event: WindowEvent)
    ensures
        registry.dom() == set![id] ==> route(registry, id, WindowEvent::CloseRequested) == (
            Registry::<S>::empty(),
            Dispatch::Exit,
        ),
        route(registry, id, event).1 is Exit <==> event is CloseRequested && registry.contains_key(
            id,
        ) && registry.remove(id).is_empty(),
        route(registry, id, event).1 is Exit <==> event is CloseRequested && registry.dom()
            == set![id],
        (exists|other: WindowId| other != id && registry.contains_key(other)) ==> !(route(
            registry,
            id,
            event,
        ).1 is Exit),
{
    if registry.dom() == set![id] {
        assert(registry.contains_key(id));
        assert(registry.remove(id) =~= Registry::<S>::empty());
    }
    if registry.contains_key(id) && registry.remove(id).is_empty() {
        assert forall|other: WindowId| registry.contains_key(other) implies other == id by {
            if other != id {
                assert(registry.remove(id).contains_key(other));
            }
        }
        assert(registry.dom() =~= set![id]);
    }
    if exists|other: WindowId| other != id && registry.contains_key(other) {
        let other = choose|other: WindowId| other != id && registry.contains_key(other);
        assert(registry.remove(id).contains_key(other));
    }
}

proof fn lemma_creates_bound_exits<S>(registry: Registry<S>, commands: Seq<Command<S>>)
    ensures
        exits(registry, commands) + (if replay(registry, commands).is_empty() {
            0nat
        } else {
            1nat
        }) <= creates(commands) + (if registry.is_empty() {
            0nat
        } else {
            1nat
        }),
    decreases commands.len(),
{
    if commands.len() > 0 {
        let before = replay(registry, commands.drop_last());
        lemma_creates_bound_exits(registry, commands.drop_last());
        match commands.last() {
            Command::CreateChild { id, .. } => {
                assert(replay(registry, commands).contains_key(id));
            },
            Command::WindowEvent { id, event } => {
                if event is CloseRequested && !before.contains_key(id) {
                    assert(before.remove(id) =~= before);
                }
            },
        }
    }
}

/// Exit is never asked for a second time. A dispatch that asks for exit
/// found its window registered and leaves the registry empty, and on an
/// empty registry no dispatch asks for exit: not the same close request
/// made again, and no request at all before a window was registered. Over
/// any sequence of calls, every exit beyond the first is preceded by the
/// registration of a window: there are no more exits than windows
/// registered, and one more at most where windows were live at the start.
pub proof fn law_exit_is_not_repeated<S>(
    registry: Registry<S>,
    id: WindowId,
    event: WindowEvent,
    commands: Seq<Command<S>>,
)
    ensures
        route(registry, id, event).1 is Exit ==> registry.contains_key(id) && route(
            registry,
            id,
            event,
        ).0.is_empty(),
        registry.is_empty() ==> route(registry, id, event).0 == registry && !(route(
            registry,
            id,
            event,
        ).1 is Exit),
        route(registry, id, WindowEvent::CloseRequested).1 is Exit ==> route(
            route(registry, id, WindowEvent::CloseRequested).0,
            id,
            WindowEvent::CloseRequested,
        ).1 == Dispatch::Closed,
        exits(registry, commands) + (if replay(registry, commands).is_empty() {
            0nat
        } else {
            1nat
        }) <= creates(commands) + (if registry.is_empty() {
            0nat
        } else {
            1nat
        }),
        creates(commands) == 0 ==> exits(registry, commands) <= 1,
        registry.is_empty() ==> exits(registry, commands) <= creates(commands),
{
    if registry.is_empty() {
        assert(!registry.contains_key(id));
        assert(registry.remove(id) =~= registry);
    }
    lemma_creates_bound_exits(registry, commands);
}

/// An event for a window that is not registered never changes the registry
/// and never reaches a worker. It is dropped, unless it is a close request,
/// which is answered without exit, or the key press for a new window. This
/// holds in particular of every event that follows a window's own close
/// request. Whatever the event and whether or not its window is
/// registered, its dispatch leaves the entries of all other windows
/// untouched and forwards to no other window.
pub proof fn law_unknown_window_is_ignored<S>(
    registry: Registry<S>,
    id: WindowId,
    event: WindowEvent,
)
    ensures
        !registry.contains_key(id) ==> route(registry, id, event) == (
            registry,
            if event is CloseRequested {
                Dispatch::Closed
            } else if event.is_new_window_command() {
                Dispatch::CreateWindow
            } else {
                Dispatch::Dropped
            },
        ),
        forall|other: WindowId|
            other != id ==> (#[trigger] route(registry, id, event).0.contains_key(other)
                <==> registry.contains_key(other)),
        forall|other: WindowId|
            other != id && registry.contains_key(other) ==> #[trigger] route(
                registry,
                id,
                event,
            ).0[other] == registry[other],
        route(registry, id, event).1 matches Dispatch::Forward { id: target, .. } ==> target == id
            && registry.contains_key(id),
        !(route(route(registry, id, WindowEvent::CloseRequested).0, id, event).1 is Forward),
        !(route(route(registry, id, WindowEvent::CloseRequested).0, id, event).1 is Exit),
{
    if !registry.contains_key(id) {
        assert(registry.remove(id) =~= registry);
    }
}

} // verus!
