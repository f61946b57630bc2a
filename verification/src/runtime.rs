//! The runtime loop as a state machine.
//!
//! The runtime owns the one state of the application, the one live widget
//! tree and the queue of pending messages. It decides; the embedding program
//! acts. The program pumps the native event loop, hands over the messages
//! that callbacks and workers produced, reports each pump step and each close
//! signal, and does what the runtime answers: rebuild the window from the
//! tree, quit, or stop.

use crate::channel::Channel;
use crate::sandbox::{lemma_replay_first, lemma_replay_push, redraw_count, replay, Sandbox};
use crate::settings::Settings;
use crate::theme::{plan, startup_plan, Step};
use crate::window::{bounds_of, height_of, layout, width_of, Window};
use vstd::prelude::*;

verus! {

/// Where the runtime stands in its life.
#[derive(Clone, Copy, Debug, PartialEq, Eq, Structural)]
pub enum Phase {
    /// The state and the first tree exist; the window is not shown yet.
    Init,
    /// The window is shown and messages are applied.
    Running,
    /// Nothing is pumped any more.
    Terminated,
}

/// When the widget tree is rebuilt after a message.
#[derive(Clone, Copy, Debug, PartialEq, Eq, Structural)]
pub enum Redraw {
    /// After every message, whatever `update` answers.
    Always,
    /// Only where `update` calls for it.
    OnDemand,
}

/// What the embedding program does after a pump step.
#[derive(Clone, Copy, Debug, PartialEq, Eq, Structural)]
pub enum Action {
    /// Nothing: pump again.
    Idle,
    /// Discard the widgets of the window, build them anew from the tree of
    /// the runtime, refresh the caption and redraw.
    Rebuild,
    /// Stop pumping and release the window.
    Stop,
}

/// What the embedding program does with a close signal.
#[derive(Clone, Copy, Debug, PartialEq, Eq, Structural)]
pub enum Closing {
    /// Quit: close the window; the runtime has terminated.
    Quit,
    /// Run the close handler of the application; the runtime goes on.
    Defer,
    /// Nothing: no window is shown.
    Ignore,
}

/// How the embedding program waits for the next native event.
#[derive(Clone, Copy, Debug, PartialEq, Eq, Structural)]
pub enum Pace {
    /// Until an event comes.
    Block,
    /// For at most the given number of milliseconds, so that the result of a
    /// background worker is picked up soon after it is there.
    Poll(u64),
}

/// The interval, in milliseconds, at which the channel is polled while a
/// background worker is at work.
pub const POLL_MILLIS: u64 = 20;

/// What is applied and made before the first pump step.
#[derive(Debug)]
pub struct Launch {
    /// The steps to apply to the toolkit, first to last.
    pub plan: Vec<Step>,
    /// The window to make.
    pub window: Window,
}

/// The runtime as a mathematical value.
pub struct Snapshot<S: Sandbox> {
    pub phase: Phase,
    pub redraw: Redraw,
    /// Whether the application handles close signals itself.
    pub custom_close: bool,
    /// The state of the application.
    pub state: S::State,
    /// The caption of the window.
    pub caption: Seq<char>,
    /// The live widget tree.
    pub scene: S::Scene,
    /// The messages that wait to be applied, oldest first.
    pub pending: Seq<S::Message>,
    /// The messages that have been applied, oldest first.
    pub applied: Seq<S::Message>,
    /// How often the widget tree has been rebuilt.
    pub rebuilds: nat,
    /// How many background workers are at work.
    pub workers: nat,
}

impl<S: Sandbox> Snapshot<S> {
    /// The runtime before anything has happened to it.
    pub open spec fn fresh(redraw: Redraw, custom_close: bool) -> Self {
        Snapshot {
            phase: Phase::Init,
            redraw,
            custom_close,
            state: S::initial(),
            caption: S::caption(S::initial()),
            scene: S::shown(S::initial()),
            pending: Seq::empty(),
            applied: Seq::empty(),
            rebuilds: 0,
            workers: 0,
        }
    }

    /// What holds of the runtime at all times: the state is what replaying
    /// the applied messages from the initial state gives, and the caption and
    /// the live widget tree are those of the state.
    pub open spec fn wf(self) -> bool {
        &&& self.state == replay::<S>(S::initial(), self.applied)
        &&& self.caption == S::caption(self.state)
        &&& self.scene == S::shown(self.state)
        &&& self.workers <= usize::MAX
    }

    /// Whether applying a message now rebuilds the widget tree.
    pub open spec fn rebuilds_on(self, message: S::Message) -> bool {
        self.redraw == Redraw::Always || S::redraws(self.state, message)
    }

    /// The runtime once the window has been shown.
    pub open spec fn shown(self) -> Self {
        if self.phase == Phase::Init {
            Snapshot { phase: Phase::Running, ..self }
        } else {
            self
        }
    }

    /// The runtime after a message has been sent.
    pub open spec fn sent(self, message: S::Message) -> Self {
        Snapshot { pending: self.pending.push(message), ..self }
    }

    /// The runtime after a pump step. `alive` says whether the toolkit still
    /// has a window to serve. A running runtime with a live window applies
    /// the oldest pending message, if there is one, and no more than that
    /// one.
    pub open spec fn pumped(self, alive: bool) -> Self {
        if self.phase != Phase::Running {
            self
        } else if !alive {
            Snapshot { phase: Phase::Terminated, ..self }
        } else if self.pending.len() == 0 {
            self
        } else {
            let message = self.pending.first();
            let state = S::next(self.state, message);
            let rebuild = self.rebuilds_on(message);
            Snapshot {
                state,
                caption: if rebuild {
                    S::caption(state)
                } else {
                    self.caption
                },
                scene: if rebuild {
                    S::shown(state)
                } else {
                    self.scene
                },
                pending: self.pending.drop_first(),
                applied: self.applied.push(message),
                rebuilds: if rebuild {
                    self.rebuilds + 1
                } else {
                    self.rebuilds
                },
                ..self
            }
        }
    }

    /// What the runtime answers to a pump step.
    pub open spec fn answer(self, alive: bool) -> Action {
        match self.phase {
            Phase::Init => Action::Idle,
            Phase::Terminated => Action::Stop,
            Phase::Running => if !alive {
                Action::Stop
            } else if self.pending.len() > 0 && self.rebuilds_on(self.pending.first()) {
                Action::Rebuild
            } else {
                Action::Idle
            },
        }
    }

    /// The runtime after a close signal: by default a running runtime
    /// terminates.
    pub open spec fn closed(self) -> Self {
        if self.phase == Phase::Running && !self.custom_close {
            Snapshot { phase: Phase::Terminated, ..self }
        } else {
            self
        }
    }

    /// What the runtime answers to a close signal.
    pub open spec fn reply(self) -> Closing {
        if self.phase != Phase::Running {
            Closing::Ignore
        } else if self.custom_close {
            Closing::Defer
        } else {
            Closing::Quit
        }
    }

    /// The runtime after a background worker has been started.
    pub open spec fn spawned(self) -> Self {
        if self.workers < usize::MAX {
            Snapshot { workers: self.workers + 1, ..self }
        } else {
            self
        }
    }

    /// The runtime after a background worker has finished with the given
    /// message as its result.
    pub open spec fn completed(self, message: S::Message) -> Self {
        Snapshot {
            workers: if self.workers > 0 {
                (self.workers - 1) as nat
            } else {
                0
            },
            pending: self.pending.push(message),
            ..self
        }
    }

    /// How the embedding program is to wait: never without a limit while a
    /// worker is at work.
    pub open spec fn pace(self) -> Pace {
        if self.workers > 0 {
            Pace::Poll(POLL_MILLIS)
        } else {
            Pace::Block
        }
    }

    /// The runtime after the given number of pump steps with a live window.
    pub open spec fn pumped_times(self, steps: nat) -> Self
        decreases steps,
    {
        if steps == 0 {
            self
        } else {
            self.pumped(true).pumped_times((steps - 1) as nat)
        }
    }
}

/// The runtime: the state of the application, the live widget tree, the
/// caption and the pending messages.
pub struct Runtime<S: Sandbox> {
    model: S,
    tree: S::Tree,
    title: String,
    inbox: Channel<S::Message>,
    phase: Phase,
    redraw: Redraw,
    custom_close: bool,
    workers: usize,
    applied: Ghost<Seq<S::Message>>,
    rebuilds: Ghost<nat>,
}

impl<S: Sandbox> View for Runtime<S> {
    type V = Snapshot<S>;

    closed spec fn view(&self) -> Snapshot<S> {
        Snapshot {
            phase: self.phase,
            redraw: self.redraw,
            custom_close: self.custom_close,
            state: self.model.state(),
            caption: self.title@,
            scene: S::scene(&self.tree),
            pending: self.inbox@,
            applied: self.applied@,
            rebuilds: self.rebuilds@,
            workers: self.workers as nat,
        }
    }
}

impl<S: Sandbox> Runtime<S> {
    /// What holds of a runtime at all times.
    pub open spec fn wf(&self) -> bool {
        self@.wf()
    }

    /// Starts up: builds the start-up plan from the settings, then the
    /// initial state, its caption and the first widget tree, and lays out
    /// the window. The settings are used up. The embedding program applies
    /// the plan before it makes the first widget. The runtime is in phase
    /// `Init` until the window is reported as shown.
    pub fn init(settings: Settings, redraw: Redraw) -> (ready: (Self, Launch))
        ensures
            ready.0.wf(),
            ready.0@ == Snapshot::<S>::fresh(redraw, settings.custom_close),
            ready.1.plan@ == startup_plan(&settings),
            ready.1.window.width == width_of(&settings),
            ready.1.window.height == height_of(&settings),
            ready.1.window.pos == settings.pos,
            ready.1.window.bounds == bounds_of(&settings),
            ready.1.window.icon == settings.icon,
            ready.1.window.label@ == S::caption(S::initial()),
            ready.1.window.xclass@ == (match settings.xclass {
                Some(name) => name@,
                None => S::caption(S::initial()),
            }),
    {
        let steps = plan(&settings);
        let custom_close = settings.custom_close;
        let model = S::new();
        let title = model.title();
        let tree = model.view();
        let window = layout(settings, title.clone());
        let runtime = Runtime {
            model,
            tree,
            title,
            inbox: Channel::new(),
            phase: Phase::Init,
            redraw,
            custom_close,
            workers: 0,
            applied: Ghost(Seq::empty()),
            rebuilds: Ghost(0),
        };
        (runtime, Launch { plan: steps, window })
    }

    /// Reports that the window is shown: the runtime runs from now on.
    pub fn shown(&mut self)
        requires
            old(self).wf(),
        ensures
            final(self).wf(),
            final(self)@ == old(self)@.shown(),
    {
        match self.phase {
            Phase::Init => {
                self.phase = Phase::Running;
            },
            _ => {},
        }
    }

    /// Puts a message at the tail of the queue. This is what a widget
    /// callback does with the message that stands for its interaction. It
    /// never waits, and the state is not touched.
    pub fn send(&mut self, message: S::Message)
        requires
            old(self).wf(),
        ensures
            final(self).wf(),
            final(self)@ == old(self)@.sent(message),
    {
        self.inbox.send(message);
    }

    /// Handles one pump step of the native event loop. `alive` says whether
    /// the toolkit still has a window to serve. A running runtime takes the
    /// oldest pending message, if there is one, applies it to the state and,
    /// where a redraw is called for, rebuilds the widget tree and the
    /// caption from the new state. It applies at most this one message.
    pub fn pump(&mut self, alive: bool) -> (action: Action)
        requires
            old(self).wf(),
        ensures
            final(self).wf(),
            final(self)@ == old(self)@.pumped(alive),
            action == old(self)@.answer(alive),
    {
        match self.phase {
            Phase::Init => Action::Idle,
            Phase::Terminated => Action::Stop,
            Phase::Running => {
                if !alive {
                    self.phase = Phase::Terminated;
                    return Action::Stop;
                }
                match self.inbox.try_recv() {
                    None => Action::Idle,
                    Some(message) => {
                        let ghost before = self.model.state();
                        let ghost taken = message;
                        let redraw = self.model.update(message);
                        proof {
                            lemma_replay_push::<S>(S::initial(), self.applied@, taken);
                        }
                        self.applied = Ghost(self.applied@.push(taken));
                        let always = match self.redraw {
                            Redraw::Always => true,
                            Redraw::OnDemand => false,
                        };
                        if always || redraw {
                            self.tree = self.model.view();
                            self.title = self.model.title();
                            self.rebuilds = Ghost(self.rebuilds@ + 1);
                            Action::Rebuild
                        } else {
                            proof {
                                S::lemma_absorbed(before, taken);
                            }
                            Action::Idle
                        }
                    },
                }
            },
        }
    }

    /// Handles a close signal of the window. By default a running runtime
    /// terminates; where the application handles the signal itself, the
    /// runtime goes on and leaves the signal to the application.
    pub fn close(&mut self) -> (closing: Closing)
        requires
            old(self).wf(),
        ensures
            final(self).wf(),
            final(self)@ == old(self)@.closed(),
            closing == old(self)@.reply(),
    {
        match self.phase {
            Phase::Running => {
                if self.custom_close {
                    Closing::Defer
                } else {
                    self.phase = Phase::Terminated;
                    Closing::Quit
                }
            },
            _ => Closing::Ignore,
        }
    }

    /// Notes that a background worker has been started.
    pub fn spawned(&mut self)
        requires
            old(self).wf(),
        ensures
            final(self).wf(),
            final(self)@ == old(self)@.spawned(),
    {
        if self.workers < usize::MAX {
            self.workers = self.workers + 1;
        }
    }

    /// Takes the result of a background worker: the worker is done, and its
    /// message waits in the queue behind those sent before.
    pub fn completed(&mut self, message: S::Message)
        requires
            old(self).wf(),
        ensures
            final(self).wf(),
            final(self)@ == old(self)@.completed(message),
    {
        if self.workers > 0 {
            self.workers = self.workers - 1;
        }
        self.inbox.send(message);
    }

    /// How to wait for the next native event: for a short while only as long
    /// as a background worker is at work, so that the user interface stays
    /// responsive and the result is picked up.
    pub fn pace(&self) -> (pace: Pace)
        ensures
            pace == self@.pace(),
    {
        if self.workers > 0 {
            Pace::Poll(POLL_MILLIS)
        } else {
            Pace::Block
        }
    }

    /// The state of the application.
    pub fn model(&self) -> (model: &S)
        ensures
            model.state() == self@.state,
    {
        &self.model
    }

    /// The live widget tree.
    pub fn tree(&self) -> (tree: &S::Tree)
        ensures
            S::scene(tree) == self@.scene,
    {
        &self.tree
    }

    /// The caption of the window.
    pub fn title(&self) -> (title: &String)
        ensures
            title@ == self@.caption,
    {
        &self.title
    }

    /// Where the runtime stands in its life.
    pub fn phase(&self) -> (phase: Phase)
        ensures
            phase == self@.phase,
    {
        self.phase
    }

    /// The number of messages that wait to be applied.
    pub fn pending(&self) -> (count: usize)
        ensures
            count == self@.pending.len(),
    {
        self.inbox.len()
    }
}

/// Every step keeps what holds of the runtime at all times.
pub proof fn lemma_steps_keep_wf<S: Sandbox>(
    snapshot: Snapshot<S>,
    message: S::Message,
    alive: bool,
)
    requires
        snapshot.wf(),
    ensures
        Snapshot::<S>::fresh(snapshot.redraw, snapshot.custom_close).wf(),
        snapshot.shown().wf(),
        snapshot.sent(message).wf(),
        snapshot.pumped(alive).wf(),
        snapshot.closed().wf(),
        snapshot.spawned().wf(),
        snapshot.completed(message).wf(),
{
    if snapshot.phase == Phase::Running && alive && snapshot.pending.len() > 0 {
        let first = snapshot.pending.first();
        lemma_replay_push::<S>(S::initial(), snapshot.applied, first);
        if !snapshot.rebuilds_on(first) {
            S::lemma_absorbed(snapshot.state, first);
        }
    }
}

/// Messages are applied one per pump step, in the order in which they were
/// sent. After `steps` pump steps of a running runtime with a live window
/// and at least `steps` pending messages:
/// - exactly those first `steps` messages have been applied, each once and
///   in order, and the others still wait;
/// - the state is the left fold of `next` over them;
/// - where the tree is rebuilt after every message, it has been rebuilt
///   `steps` times; where it is rebuilt on demand, as often as a message
///   called for it.
pub proof fn lemma_pumped_times<S: Sandbox>(snapshot: Snapshot<S>, steps: nat)
    requires
        snapshot.wf(),
        snapshot.phase == Phase::Running,
        steps <= snapshot.pending.len(),
    ensures
        snapshot.pumped_times(steps).wf(),
        snapshot.pumped_times(steps).phase == Phase::Running,
        snapshot.pumped_times(steps).applied == snapshot.applied + snapshot.pending.take(
            steps as int,
        ),
        snapshot.pumped_times(steps).pending == snapshot.pending.skip(steps as int),
        snapshot.pumped_times(steps).state == replay::<S>(
            snapshot.state,
            snapshot.pending.take(steps as int),
        ),
        snapshot.pumped_times(steps).state == replay::<S>(
            S::initial(),
            snapshot.applied + snapshot.pending.take(steps as int),
        ),
        snapshot.pumped_times(steps).rebuilds == snapshot.rebuilds + (match snapshot.redraw {
            Redraw::Always => steps,
            Redraw::OnDemand => redraw_count::<S>(
                snapshot.state,
                snapshot.pending.take(steps as int),
            ),
        }),
    decreases steps,
{
    let taken = snapshot.pending.take(steps as int);
    if steps == 0 {
        assert(taken =~= Seq::<S::Message>::empty());
        assert(snapshot.applied + taken =~= snapshot.applied);
        assert(snapshot.pending.skip(0) =~= snapshot.pending);
    } else {
        let first = snapshot.pending.first();
        let one = snapshot.pumped(true);
        let rest = (steps - 1) as nat;
        lemma_steps_keep_wf(snapshot, first, true);
        lemma_pumped_times(one, rest);
        assert(one.pending.take(rest as int) =~= taken.drop_first());
        assert(one.applied + one.pending.take(rest as int) =~= snapshot.applied + taken);
        assert(one.pending.skip(rest as int) =~= snapshot.pending.skip(steps as int));
        assert(taken.first() == first);
        lemma_replay_first::<S>(snapshot.state, taken);
    }
}

} // verus!
