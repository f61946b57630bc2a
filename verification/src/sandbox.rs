//! The contract between the runtime and the application that it runs.

use vstd::prelude::*;

verus! {

/// What an application supplies: how its state is built, captioned, shown,
/// and changed by one message.
///
/// Each operation is held to a mathematical account of itself. `State` is the
/// state as a value, `Scene` a widget tree as a value, and `initial`,
/// `caption`, `shown`, `next` and `redraws` say what `new`, `title`, `view`
/// and `update` compute. So the operations are functions of the state and the
/// message alone: there is no hidden state, and asking twice gives the same
/// answer.
pub trait Sandbox: Sized {
    /// One discrete event: a user interaction or the result of background
    /// work. It carries data only, can be copied, and can be handed from a
    /// background worker to the loop.
    type Message: Clone + Send + Sync + 'static;

    /// The widget tree that `view` builds.
    type Tree;

    /// The state as a mathematical value.
    type State;

    /// A widget tree as a mathematical value.
    type Scene;

    /// The value of this state.
    spec fn state(&self) -> Self::State;

    /// The value of a widget tree.
    spec fn scene(tree: &Self::Tree) -> Self::Scene;

    /// The state in which every application starts.
    spec fn initial() -> Self::State;

    /// The caption of the window in a state.
    spec fn caption(state: Self::State) -> Seq<char>;

    /// The widget tree that shows a state.
    spec fn shown(state: Self::State) -> Self::Scene;

    /// The state after a message has been applied to a state.
    spec fn next(state: Self::State, message: Self::Message) -> Self::State;

    /// Whether applying a message to a state calls for a redraw.
    spec fn redraws(state: Self::State, message: Self::Message) -> bool;

    /// A message that calls for no redraw is absorbed with no visible effect:
    /// it changes neither the caption nor the widget tree.
    proof fn lemma_absorbed(state: Self::State, message: Self::Message)
        ensures
            !Self::redraws(state, message) ==> {
                &&& Self::caption(Self::next(state, message)) == Self::caption(state)
                &&& Self::shown(Self::next(state, message)) == Self::shown(state)
            },
    ;

    /// Builds the initial state.
    fn new() -> (model: Self)
        ensures
            model.state() == Self::initial(),
    ;

    /// The caption of the window.
    fn title(&self) -> (caption: String)
        ensures
            caption@ == Self::caption(self.state()),
    ;

    /// Builds the widget tree that shows the state.
    fn view(&self) -> (tree: Self::Tree)
        ensures
            Self::scene(&tree) == Self::shown(self.state()),
    ;

    /// Applies one message to the state, and says whether a redraw is called
    /// for. Every message is applied: one that cannot be honoured leaves a
    /// state that says so.
    fn update(&mut self, message: Self::Message) -> (redraw: bool)
        ensures
            final(self).state() == Self::next(old(self).state(), message),
            redraw == Self::redraws(old(self).state(), message),
    ;
}

/// The state after the messages of a sequence have been applied to a state
/// one by one, first to last: the left fold of `next`.
pub open spec fn replay<S: Sandbox>(state: S::State, messages: Seq<S::Message>) -> S::State
    decreases messages.len(),
{
    if messages.len() == 0 {
        state
    } else {
        S::next(replay::<S>(state, messages.drop_last()), messages.last())
    }
}

/// The number of messages of a sequence that call for a redraw when the
/// sequence is applied to a state, first to last.
pub open spec fn redraw_count<S: Sandbox>(state: S::State, messages: Seq<S::Message>) -> nat
    decreases messages.len(),
{
    if messages.len() == 0 {
        0
    } else {
        let before = redraw_count::<S>(state, messages.drop_last());
        if S::redraws(replay::<S>(state, messages.drop_last()), messages.last()) {
            before + 1
        } else {
            before
        }
    }
}

/// Replaying a sequence and then one more message is replaying the longer
/// sequence.
pub proof fn lemma_replay_push<S: Sandbox>(
    state: S::State,
    messages: Seq<S::Message>,
    message: S::Message,
)
    ensures
        replay::<S>(state, messages.push(message)) == S::next(
            replay::<S>(state, messages),
            message,
        ),
        redraw_count::<S>(state, messages.push(message)) == redraw_count::<S>(state, messages) + (
        if S::redraws(replay::<S>(state, messages), message) {
            1nat
        } else {
            0nat
        }),
{
    assert(messages.push(message).drop_last() =~= messages);
}

/// Replaying a message first and the rest after it is replaying the whole
/// sequence.
pub proof fn lemma_replay_first<S: Sandbox>(state: S::State, messages: Seq<S::Message>)
    requires
        messages.len() > 0,
    ensures
        replay::<S>(state, messages) == replay::<S>(
            S::next(state, messages.first()),
            messages.drop_first(),
        ),
        redraw_count::<S>(state, messages) == redraw_count::<S>(
            S::next(state, messages.first()),
            messages.drop_first(),
        ) + (if S::redraws(state, messages.first()) {
            1nat
        } else {
            0nat
        }),
    decreases messages.len(),
{
    let front = messages.drop_last();
    let rest = messages.drop_first();
    let moved = S::next(state, messages.first());
    if messages.len() == 1 {
        assert(front.len() == 0);
        assert(rest.len() == 0);
        assert(replay::<S>(state, front) == state);
        assert(replay::<S>(moved, rest) == moved);
        assert(redraw_count::<S>(state, front) == 0);
        assert(redraw_count::<S>(moved, rest) == 0);
    } else {
        lemma_replay_first::<S>(state, front);
        assert(front.drop_first() =~= rest.drop_last());
        assert(front.first() == messages.first());
        assert(rest.last() == messages.last());
        assert(replay::<S>(moved, rest) == S::next(
            replay::<S>(moved, rest.drop_last()),
            rest.last(),
        ));
    }
}

/// The caption is a function of the state: whatever two calls of `title` on
/// one state return, it is the same text.
pub proof fn lemma_title_is_pure<S: Sandbox>(model: &S, first: String, second: String)
    requires
        call_ensures(S::title, (model,), first),
        call_ensures(S::title, (model,), second),
    ensures
        first@ == second@,
{
}

/// The widget tree is a function of the state: whatever two calls of `view`
/// on one state return, it is the same tree.
pub proof fn lemma_view_is_pure<S: Sandbox>(model: &S, first: S::Tree, second: S::Tree)
    requires
        call_ensures(S::view, (model,), first),
        call_ensures(S::view, (model,), second),
    ensures
        S::scene(&first) == S::scene(&second),
{
}

} // verus!
