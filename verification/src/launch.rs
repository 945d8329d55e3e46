//! What holds of every launch.
//!
//! A launch is the sequence of events that one supervisor takes in, from
//! [`State::Idle`] on. The laws below speak of every such sequence, whatever
//! the caller reports and in whatever order.

use crate::locator::located;
use crate::supervisor::spawn_plan;
use crate::supervisor::{holds_agent, transition, ActionView, Context, Event, State};
use vstd::prelude::*;

verus! {

/// The state that is reached from `state` when `events` are taken in one
/// after another.
pub open spec fn state_after(ctx: Context, state: State, events: Seq<Event>) -> State
    decreases events.len(),
{
    if events.len() == 0 {
        state
    } else {
        transition(ctx, state_after(ctx, state, events.drop_last()), events.last()).0
    }
}

/// The state of a launch when its first `i` events have been taken in.
pub open spec fn state_at(ctx: Context, events: Seq<Event>, i: int) -> State {
    state_after(ctx, State::Idle, events.take(i))
}

/// The action that a launch asks for on its event number `i`.
pub open spec fn action_at(ctx: Context, events: Seq<Event>, i: int) -> ActionView {
    transition(ctx, state_at(ctx, events, i), events[i]).1
}

/// Whether a launch that is in state `from` can later be in state `to`.
pub open spec fn can_lead_to(from: State, to: State) -> bool {
    match from {
        State::Idle => true,
        State::Probing => !(to is Idle),
        State::AlreadyRunning => to is AlreadyRunning,
        State::Locating => to is Locating || to is NotFound || to is Spawning || to is SpawnFailed
            || to is Running || to is Terminating || to is Terminated,
        State::NotFound => to is NotFound,
        State::Spawning => to is Spawning || to is SpawnFailed || to is Running
            || to is Terminating || to is Terminated,
        State::SpawnFailed => to is SpawnFailed,
        State::Running => to is Running || to is Terminating || to is Terminated,
        State::Terminating => to is Terminating || to is Terminated,
        State::Terminated => to is Terminated,
    }
}

/// One more event makes the next prefix of a launch.
pub proof fn lemma_state_at_next(ctx: Context, events: Seq<Event>, i: int)
    requires
        0 <= i < events.len(),
    ensures
        state_at(ctx, events, i + 1) == transition(ctx, state_at(ctx, events, i), events[i]).0,
{
    assert(events.take(i + 1).drop_last() =~= events.take(i));
}

/// A launch never goes back: the state at a later point is one that the
/// state at an earlier point can lead to.
pub proof fn lemma_states_in_order(ctx: Context, events: Seq<Event>, i: int, j: int)
    requires
        0 <= i <= j <= events.len(),
    ensures
        can_lead_to(state_at(ctx, events, i), state_at(ctx, events, j)),
    decreases j - i,
{
    if i < j {
        lemma_states_in_order(ctx, events, i, j - 1);
        lemma_state_at_next(ctx, events, j - 1);
    }
}

/// A spawn is asked for on leaving [`State::Locating`] for
/// [`State::Spawning`], and at no other point.
pub proof fn lemma_spawn_point(ctx: Context, events: Seq<Event>, i: int)
    requires
        0 <= i < events.len(),
        action_at(ctx, events, i) is Spawn,
    ensures
        state_at(ctx, events, i) is Locating,
        state_at(ctx, events, i + 1) is Spawning,
{
    lemma_state_at_next(ctx, events, i);
}

/// Single instance: once the probe has met a running agent, the launch asks
/// for no spawn at any point, before or after, and never holds an agent.
pub proof fn lemma_no_spawn_beside_running_agent(ctx: Context, events: Seq<Event>, k: int)
    requires
        0 <= k < events.len(),
        state_at(ctx, events, k) is Probing,
        events[k] == (Event::ProbeFinished { connected: true }),
    ensures
        forall|i: int|
            0 <= i < events.len() ==> !(#[trigger] action_at(ctx, events, i) is Spawn),
        forall|i: int|
            0 <= i <= events.len() ==> !holds_agent(#[trigger] state_at(ctx, events, i)),
        forall|i: int|
            k < i <= events.len() ==> #[trigger] state_at(ctx, events, i) is AlreadyRunning,
{
    lemma_state_at_next(ctx, events, k);
    assert forall|i: int| 0 <= i <= events.len() implies !holds_agent(
        #[trigger] state_at(ctx, events, i),
    ) && (k < i ==> state_at(ctx, events, i) is AlreadyRunning) by {
        if i <= k {
            lemma_states_in_order(ctx, events, i, k);
        } else {
            lemma_states_in_order(ctx, events, k + 1, i);
        }
    }
    assert forall|i: int| 0 <= i < events.len() implies !(#[trigger] action_at(ctx, events, i)
        is Spawn) by {
        if action_at(ctx, events, i) is Spawn {
            lemma_spawn_point(ctx, events, i);
            if i <= k {
                lemma_states_in_order(ctx, events, i, k);
            } else {
                lemma_states_in_order(ctx, events, k + 1, i);
            }
        }
    }
}

/// The bundle wins: a launch that sees the entry file under its bundled
/// directory asks for the spawn of the agent there, under its own token,
/// whatever it sees under the installation directory.
pub proof fn lemma_bundled_agent_is_spawned(
    ctx: Context,
    events: Seq<Event>,
    k: int,
    installed: bool,
)
    requires
        0 <= k < events.len(),
        state_at(ctx, events, k) is Locating,
        events[k] == (Event::EntriesChecked { bundled: true, installed }),
        ctx.candidates.bundled is Some,
    ensures
        action_at(ctx, events, k) == ActionView::Spawn(
            spawn_plan(ctx.candidates.bundled->0, ctx.token),
        ),
        state_at(ctx, events, k + 1) is Spawning,
{
    lemma_state_at_next(ctx, events, k);
}

/// Not found: once neither candidate was seen to hold the entry file, the
/// launch asks for no spawn at any point and never holds an agent.
pub proof fn lemma_no_spawn_without_entry(
    ctx: Context,
    events: Seq<Event>,
    k: int,
    bundled: bool,
    installed: bool,
)
    requires
        0 <= k < events.len(),
        state_at(ctx, events, k) is Locating,
        events[k] == (Event::EntriesChecked { bundled, installed }),
        located(ctx.candidates, bundled, installed) is None,
    ensures
        forall|i: int|
            0 <= i < events.len() ==> !(#[trigger] action_at(ctx, events, i) is Spawn),
        forall|i: int|
            0 <= i <= events.len() ==> !holds_agent(#[trigger] state_at(ctx, events, i)),
        forall|i: int| k < i <= events.len() ==> #[trigger] state_at(ctx, events, i) is NotFound,
{
    lemma_state_at_next(ctx, events, k);
    assert forall|i: int| 0 <= i <= events.len() implies !holds_agent(
        #[trigger] state_at(ctx, events, i),
    ) && (k < i ==> state_at(ctx, events, i) is NotFound) by {
        if i <= k {
            lemma_states_in_order(ctx, events, i, k);
        } else {
            lemma_states_in_order(ctx, events, k + 1, i);
        }
    }
    assert forall|i: int| 0 <= i < events.len() implies !(#[trigger] action_at(ctx, events, i)
        is Spawn) by {
        if action_at(ctx, events, i) is Spawn {
            lemma_spawn_point(ctx, events, i);
            lemma_state_at_next(ctx, events, i);
            if i < k {
                lemma_states_in_order(ctx, events, i + 1, k);
            } else if i > k {
                lemma_states_in_order(ctx, events, k + 1, i);
            }
        }
    }
}

/// At most one agent: a launch asks for a spawn at most once.
pub proof fn lemma_spawn_at_most_once(ctx: Context, events: Seq<Event>, i: int, j: int)
    requires
        0 <= i < j < events.len(),
    ensures
        !(action_at(ctx, events, i) is Spawn && action_at(ctx, events, j) is Spawn),
{
    if action_at(ctx, events, i) is Spawn && action_at(ctx, events, j) is Spawn {
        lemma_spawn_point(ctx, events, i);
        lemma_spawn_point(ctx, events, j);
        lemma_states_in_order(ctx, events, i + 1, j);
    }
}

/// An agent is held only after the launch asked for its spawn.
pub proof fn lemma_agent_was_spawned(ctx: Context, events: Seq<Event>, j: int)
    requires
        0 <= j <= events.len(),
        holds_agent(state_at(ctx, events, j)),
    ensures
        exists|i: int| 0 <= i < j && #[trigger] action_at(ctx, events, i) is Spawn,
    decreases j,
{
    if j > 0 {
        lemma_state_at_next(ctx, events, j - 1);
        if state_at(ctx, events, j - 1) is Running {
            lemma_agent_was_spawned(ctx, events, j - 1);
        } else {
            lemma_spawning_was_asked_for(ctx, events, j - 1);
        }
    }
}

/// A launch is in [`State::Spawning`] only after it asked for the spawn.
pub proof fn lemma_spawning_was_asked_for(ctx: Context, events: Seq<Event>, j: int)
    requires
        0 <= j <= events.len(),
        state_at(ctx, events, j) is Spawning,
    ensures
        exists|i: int| 0 <= i < j && #[trigger] action_at(ctx, events, i) is Spawn,
    decreases j,
{
    if j > 0 {
        lemma_state_at_next(ctx, events, j - 1);
        if state_at(ctx, events, j - 1) is Spawning {
            lemma_spawning_was_asked_for(ctx, events, j - 1);
        } else {
            assert(action_at(ctx, events, j - 1) is Spawn);
        }
    }
}

/// Termination: the destruction of the window, met while an agent is held,
/// asks for its kill, and the launch asks for a kill at no other point,
/// however often the window is reported destroyed.
pub proof fn lemma_kill_exactly_once(ctx: Context, events: Seq<Event>, k: int, i: int)
    requires
        0 <= k < events.len(),
        0 <= i < events.len(),
        holds_agent(state_at(ctx, events, k)),
        events[k] == Event::WindowDestroyed,
    ensures
        action_at(ctx, events, i) is Kill <==> i == k,
{
    if action_at(ctx, events, i) is Kill && i != k {
        lemma_state_at_next(ctx, events, i);
        lemma_state_at_next(ctx, events, k);
        if i < k {
            lemma_states_in_order(ctx, events, i + 1, k);
        } else {
            lemma_states_in_order(ctx, events, k + 1, i);
        }
    }
}

/// A launch asks for a kill at most once, and only of an agent it holds.
pub proof fn lemma_kill_at_most_once(ctx: Context, events: Seq<Event>, i: int, j: int)
    requires
        0 <= i < j < events.len(),
    ensures
        action_at(ctx, events, i) is Kill ==> holds_agent(state_at(ctx, events, i)),
        !(action_at(ctx, events, i) is Kill && action_at(ctx, events, j) is Kill),
{
    if action_at(ctx, events, i) is Kill && action_at(ctx, events, j) is Kill {
        lemma_state_at_next(ctx, events, i);
        lemma_states_in_order(ctx, events, i + 1, j);
    }
}

/// Token consistency: the agent is given, for inference and for
/// administration alike, the very token that the launch holds and that
/// [`crate::supervisor::Supervisor::local_token`] hands to the user
/// interface.
pub proof fn lemma_agent_is_given_the_token(ctx: Context, events: Seq<Event>, i: int)
    requires
        0 <= i < events.len(),
        action_at(ctx, events, i) is Spawn,
    ensures
        action_at(ctx, events, i)->Spawn_0.env.len() == 3,
        action_at(ctx, events, i)->Spawn_0.env[1] == ("INFERENCE_AUTH_TOKEN"@, ctx.token),
        action_at(ctx, events, i)->Spawn_0.env[2] == ("ADMIN_API_TOKEN"@, ctx.token),
{
}

} // verus!
