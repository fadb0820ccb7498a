//! The life of one plugin process.
//!
//! The embedding program does the outside work (spawning the child, writing the
//! probe, running the receive loop, reaping the child) and reports each result as
//! an [`Event`]. [`PluginProcess::on_event`] decides the next state and the next
//! piece of work, an [`Action`]. A process moves only forward through its
//! [`Lifecycle`] and ends in `Exited`, which it enters once and never leaves.

use crate::editor::PluginPeer;
use vstd::prelude::*;

verus! {

/// The directory of the plugin, beside the host's own executable.
pub const PLUGIN_DIR: &'static str = "python";

/// The file name of the plugin executable in [`PLUGIN_DIR`].
pub const PLUGIN_FILE: &'static str = "plugin.py";

/// Where a plugin process stands.
#[derive(Debug, Clone, Copy, PartialEq, Eq, Structural)]
pub enum Lifecycle {
    /// Nothing has been spawned yet.
    NotStarted,
    /// The child runs and its pipes are open.
    Spawned,
    /// The liveness probe has been written to the child.
    Connected,
    /// The editor knows the plugin and the receive loop is running.
    Dispatching,
    /// The process is gone, or never started. Terminal.
    Exited,
}

impl Lifecycle {
    /// The position of the state in the order in which states are passed.
    pub open spec fn rank(self) -> nat {
        match self {
            Lifecycle::NotStarted => 0,
            Lifecycle::Spawned => 1,
            Lifecycle::Connected => 2,
            Lifecycle::Dispatching => 3,
            Lifecycle::Exited => 4,
        }
    }

    /// Whether a child process is running in this state.
    pub open spec fn is_running(self) -> bool {
        self is Spawned || self is Connected || self is Dispatching
    }
}

/// Why a plugin could not be started.
#[derive(Debug, Clone, Copy, PartialEq, Eq, Structural)]
pub enum PluginStartupError {
    /// The path of the plugin executable could not be worked out.
    PathUnresolved,
    /// The executable could not be spawned.
    SpawnFailed,
}

/// How a child process ended.
#[derive(Debug, Clone, Copy, PartialEq, Eq, Structural)]
pub enum ChildExit {
    /// It exited with status zero.
    Success,
    /// It exited with the given non-zero status.
    Failed(i32),
    /// It was ended by the given signal.
    Killed(i32),
    /// Its status could not be obtained.
    Unobserved,
}

/// The result of a piece of outside work.
#[derive(Debug, Clone, Copy, PartialEq, Eq, Structural)]
pub enum Event {
    /// The child was spawned with piped input and output, and the host filed its
    /// outbound channel under the given peer.
    Spawned(PluginPeer),
    /// The child could not be started.
    StartupFailed(PluginStartupError),
    /// The liveness probe was written; no answer is awaited.
    ProbeSent,
    /// The editor has recorded the plugin's peer.
    Registered,
    /// The channel closed and the child was reaped.
    Closed(ChildExit),
}

/// The next piece of outside work.
#[derive(Debug, Clone, Copy, PartialEq, Eq, Structural)]
pub enum Action {
    /// Write the liveness probe to the child, without waiting for an answer.
    SendProbe,
    /// Hand the peer to the editor.
    Register(PluginPeer),
    /// Run the receive loop until the channel closes, then reap the child.
    Dispatch,
    /// Log that the plugin could not be started. Nothing follows.
    ReportStartupError(PluginStartupError),
    /// Log how the child ended. Nothing follows.
    ReportExit(ChildExit),
    /// The event does not belong to the current state: do nothing.
    Nothing,
}

impl Action {
    /// Whether the action reports the end of the process to the host.
    pub open spec fn is_report(self) -> bool {
        self is ReportStartupError || self is ReportExit
    }
}

/// The mathematical content of a [`PluginProcess`].
pub struct ProcessModel {
    /// Where the process stands.
    pub state: Lifecycle,
    /// The peer of the child, once it is spawned.
    pub peer: Option<PluginPeer>,
    /// How the child ended, once it has.
    pub exit: Option<ChildExit>,
}

impl ProcessModel {
    /// A process that has not been started.
    pub open spec fn initial() -> ProcessModel {
        ProcessModel { state: Lifecycle::NotStarted, peer: None, exit: None }
    }

    /// A running child has a peer, only an exited one has an exit status, and a
    /// process that has not started has neither.
    pub open spec fn wf(self) -> bool {
        &&& self.state.is_running() ==> self.peer is Some
        &&& self.exit is Some ==> self.state is Exited
        &&& self.state is NotStarted ==> self.peer is None
    }
}

/// The state after `event` and the work to do next.
///
/// An event that does not belong to the current state changes nothing and asks for
/// nothing; in particular nothing happens to a process that has exited.
pub open spec fn advance(process: ProcessModel, event: Event) -> (ProcessModel, Action) {
    match (process.state, event) {
        (Lifecycle::NotStarted, Event::Spawned(peer)) => (
            ProcessModel { state: Lifecycle::Spawned, peer: Some(peer), exit: None },
            Action::SendProbe,
        ),
        (Lifecycle::NotStarted, Event::StartupFailed(error)) => (
            ProcessModel { state: Lifecycle::Exited, ..process },
            Action::ReportStartupError(error),
        ),
        (Lifecycle::Spawned, Event::ProbeSent) => (
            ProcessModel { state: Lifecycle::Connected, ..process },
            Action::Register(process.peer->0),
        ),
        (Lifecycle::Connected, Event::Registered) => (
            ProcessModel { state: Lifecycle::Dispatching, ..process },
            Action::Dispatch,
        ),
        (Lifecycle::Spawned, Event::Closed(status))
        | (Lifecycle::Connected, Event::Closed(status))
        | (Lifecycle::Dispatching, Event::Closed(status)) => (
            ProcessModel { state: Lifecycle::Exited, exit: Some(status), ..process },
            Action::ReportExit(status),
        ),
        _ => (process, Action::Nothing),
    }
}

/// The state after a sequence of events, taken in order.
pub open spec fn run(process: ProcessModel, events: Seq<Event>) -> ProcessModel
    decreases events.len(),
{
    if events.len() == 0 {
        process
    } else {
        run(advance(process, events[0]).0, events.drop_first())
    }
}

/// How many times the process enters `Exited` while the events are taken in order.
pub open spec fn exits(process: ProcessModel, events: Seq<Event>) -> nat
    decreases events.len(),
{
    if events.len() == 0 {
        0
    } else {
        let next = advance(process, events[0]).0;
        let entered: nat = if !(process.state is Exited) && next.state is Exited {
            1
        } else {
            0
        };
        entered + exits(next, events.drop_first())
    }
}

/// How many times the end of the process is reported to the host while the events
/// are taken in order.
pub open spec fn reports(process: ProcessModel, events: Seq<Event>) -> nat
    decreases events.len(),
{
    if events.len() == 0 {
        0
    } else {
        let (next, action) = advance(process, events[0]);
        let reported: nat = if action.is_report() {
            1
        } else {
            0
        };
        reported + reports(next, events.drop_first())
    }
}

/// How many times an action that `wanted` holds of is asked for while the events
/// are taken in order.
pub open spec fn asked(
    process: ProcessModel,
    events: Seq<Event>,
    wanted: spec_fn(Action) -> bool,
) -> nat
    decreases events.len(),
{
    if events.len() == 0 {
        0
    } else {
        let (next, action) = advance(process, events[0]);
        let now: nat = if wanted(action) {
            1
        } else {
            0
        };
        now + asked(next, events.drop_first(), wanted)
    }
}

/// One event never moves a process backwards, keeps its record well formed, and
/// asks for work only when the process moves forward. The end of the process is
/// reported exactly when it enters `Exited`.
pub proof fn lemma_advance_moves_forward(process: ProcessModel, event: Event)
    requires
        process.wf(),
    ensures
        advance(process, event).0.wf(),
        advance(process, event).0.state.rank() >= process.state.rank(),
        !(advance(process, event).1 is Nothing) ==> advance(process, event).0.state.rank()
            > process.state.rank(),
        advance(process, event).1 is Nothing ==> advance(process, event).0 == process,
        advance(process, event).1.is_report() <==> !(process.state is Exited) && advance(
            process,
            event,
        ).0.state is Exited,
{
}

/// `Exited` is terminal: no event changes an exited process or asks for more work.
pub proof fn lemma_exited_is_terminal(process: ProcessModel, event: Event)
    requires
        process.state is Exited,
    ensures
        advance(process, event) == (process, Action::Nothing),
{
}

/// The end of a running child takes the process to `Exited` and is reported with
/// the child's status, whether the child ended cleanly or not.
pub proof fn lemma_close_exits(process: ProcessModel, status: ChildExit)
    requires
        process.state.is_running(),
    ensures
        advance(process, Event::Closed(status)).0.state is Exited,
        advance(process, Event::Closed(status)).0.exit == Some(status),
        advance(process, Event::Closed(status)).1 == Action::ReportExit(status),
{
}

/// A failed start takes the process from `NotStarted` straight to `Exited` and is
/// reported; no child is ever handed to the editor.
pub proof fn lemma_failed_start_exits(error: PluginStartupError)
    ensures
        advance(ProcessModel::initial(), Event::StartupFailed(error)).0.state is Exited,
        advance(ProcessModel::initial(), Event::StartupFailed(error)).0.peer is None,
        advance(ProcessModel::initial(), Event::StartupFailed(error)).1
            == Action::ReportStartupError(error),
{
}

/// Over any sequence of events a process enters `Exited` at most once, and exactly
/// once if it was not there at the start and is there at the end. Its end is
/// reported as often as it enters `Exited`: once or never, and never twice.
pub proof fn lemma_exits_once(process: ProcessModel, events: Seq<Event>)
    requires
        process.wf(),
    ensures
        run(process, events).wf(),
        run(process, events).state.rank() >= process.state.rank(),
        exits(process, events) <= 1,
        exits(process, events) == 1 <==> !(process.state is Exited) && run(
            process,
            events,
        ).state is Exited,
        reports(process, events) == exits(process, events),
    decreases events.len(),
{
    if events.len() > 0 {
        let next = advance(process, events[0]).0;
        lemma_advance_moves_forward(process, events[0]);
        lemma_exits_once(next, events.drop_first());
    }
}

/// A kind of work that is only ever asked for in the state `source` is asked for at
/// most once over any sequence of events, and never once the process is past that
/// state.
pub proof fn lemma_asked_once(
    process: ProcessModel,
    events: Seq<Event>,
    source: Lifecycle,
    wanted: spec_fn(Action) -> bool,
)
    requires
        process.wf(),
        !wanted(Action::Nothing),
        forall|p: ProcessModel, e: Event| #[trigger]
            wanted(advance(p, e).1) ==> p.state == source,
    ensures
        asked(process, events, wanted) <= 1,
        process.state.rank() > source.rank() ==> asked(process, events, wanted) == 0,
    decreases events.len(),
{
    if events.len() > 0 {
        let next = advance(process, events[0]).0;
        lemma_advance_moves_forward(process, events[0]);
        lemma_asked_once(next, events.drop_first(), source, wanted);
    }
}

/// Over any sequence of events the probe is sent at most once, the plugin is handed
/// to the editor at most once, and at most one receive loop is started.
pub proof fn lemma_each_step_once(process: ProcessModel, events: Seq<Event>)
    requires
        process.wf(),
    ensures
        asked(process, events, |a: Action| a is SendProbe) <= 1,
        asked(process, events, |a: Action| a is Register) <= 1,
        asked(process, events, |a: Action| a is Dispatch) <= 1,
{
    lemma_asked_once(process, events, Lifecycle::NotStarted, |a: Action| a is SendProbe);
    lemma_asked_once(process, events, Lifecycle::Spawned, |a: Action| a is Register);
    lemma_asked_once(process, events, Lifecycle::Connected, |a: Action| a is Dispatch);
}

/// The supervisor's record of one plugin process.
#[derive(Debug, Clone, Copy)]
pub struct PluginProcess {
    state: Lifecycle,
    peer: Option<PluginPeer>,
    exit: Option<ChildExit>,
}

impl View for PluginProcess {
    type V = ProcessModel;

    closed spec fn view(&self) -> ProcessModel {
        ProcessModel { state: self.state, peer: self.peer, exit: self.exit }
    }
}

impl PluginProcess {
    #[verifier::type_invariant]
    spec fn inv(self) -> bool {
        self@.wf()
    }

    /// The record of a process that has not been started.
    pub fn new() -> (process: PluginProcess)
        ensures
            process@ == ProcessModel::initial(),
    {
        PluginProcess { state: Lifecycle::NotStarted, peer: None, exit: None }
    }

    /// Where the process stands.
    pub fn state(&self) -> (state: Lifecycle)
        ensures
            state == self@.state,
            self@.wf(),
    {
        proof {
            use_type_invariant(self);
        }
        self.state
    }

    /// The peer of the child, once it is spawned.
    pub fn peer(&self) -> (peer: Option<PluginPeer>)
        ensures
            peer == self@.peer,
    {
        self.peer
    }

    /// How the child ended, once it has.
    pub fn exit(&self) -> (exit: Option<ChildExit>)
        ensures
            exit == self@.exit,
    {
        self.exit
    }

    /// Takes in the result of the last piece of outside work and says what to do
    /// next.
    pub fn on_event(&mut self, event: Event) -> (action: Action)
        ensures
            (final(self)@, action) == advance(old(self)@, event),
            final(self)@.wf(),
    {
        proof {
            use_type_invariant(&*self);
        }
        let peer = self.peer;
        let exit = self.exit;
        match (self.state, event) {
            (Lifecycle::NotStarted, Event::Spawned(child)) => {
                *self = PluginProcess { state: Lifecycle::Spawned, peer: Some(child), exit: None };
                Action::SendProbe
            },
            (Lifecycle::NotStarted, Event::StartupFailed(error)) => {
                *self = PluginProcess { state: Lifecycle::Exited, peer, exit };
                Action::ReportStartupError(error)
            },
            (Lifecycle::Spawned, Event::ProbeSent) => {
                *self = PluginProcess { state: Lifecycle::Connected, peer, exit };
                Action::Register(peer.unwrap())
            },
            (Lifecycle::Connected, Event::Registered) => {
                *self = PluginProcess { state: Lifecycle::Dispatching, peer, exit };
                Action::Dispatch
            },
            (Lifecycle::Spawned, Event::Closed(status))
            | (Lifecycle::Connected, Event::Closed(status))
            | (Lifecycle::Dispatching, Event::Closed(status)) => {
                *self = PluginProcess { state: Lifecycle::Exited, peer, exit: Some(status) };
                Action::ReportExit(status)
            },
            _ => Action::Nothing,
        }
    }
}

} // verus!
