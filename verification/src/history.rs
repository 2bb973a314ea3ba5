//! All requests of a plugin server, on the one state that they share.
//!
//! Requests are served side by side: their steps interleave as they may. Here
//! stands what holds whatever the order, as long as one request at a time holds
//! the state.

use vstd::prelude::*;

use crate::plugin;
use crate::plugin::{Action, Event, Phase, PluginState};
use crate::request::{Fault, Message};
use crate::server;
use crate::server::{ServerAction, ServerEvent};

verus! {

/// What a plugin server has come to.
///
/// Applications are numbered in the order in which they are launched. One that
/// was told to stop counts as killed.
#[verifier::ext_equal]
pub struct World {
    /// What is remembered between requests.
    pub state: PluginState,
    /// The request that holds the state.
    pub holder: Option<nat>,
    /// The application that is kept with the state.
    pub app: Option<nat>,
    /// How many applications were launched.
    pub launched: nat,
    /// The applications that were killed.
    pub killed: Set<nat>,
    /// Where each request stands, and what it does next.
    pub requests: Map<nat, (Phase, Action)>,
}

/// What can happen next.
pub enum Move {
    /// A request arrives. There may be no room to state its length.
    Arrival { id: nat, message: Message, no_room: bool },
    /// A request has done what it had to, and this came of it.
    Step { id: nat, event: Event, no_room: bool },
}

/// The world when the server starts.
pub open spec fn beginning() -> World {
    World {
        state: PluginState { app_running: false },
        holder: None,
        app: None,
        launched: 0,
        killed: Set::empty(),
        requests: Map::empty(),
    }
}

/// Whether an event can come of an action. The state is held by one request at
/// a time, which finds it as it was given back.
pub open spec fn can_come(world: World, action: Action, event: Event) -> bool {
    match action {
        Action::Lock => world.holder is None && event == Event::Locked(world.state),
        Action::Unlock(_) => event is Unlocked,
        Action::Kill => event is Killed,
        Action::Launch(_) => event is Launched || event is LaunchFailed,
        Action::AwaitPlugin(_) => event is Ready,
        Action::Send(_) => event is Responded,
        _ => false,
    }
}

/// Whether a move can happen.
pub open spec fn possible(world: World, next: Move) -> bool {
    match next {
        Move::Arrival { id, message, no_room } => {
            &&& !world.requests.contains_key(id)
            &&& no_room ==> plugin::crowded_first_step(message)
        },
        Move::Step { id, event, no_room } => {
            &&& world.requests.contains_key(id)
            &&& can_come(world, world.requests[id].1, event)
            &&& no_room ==> plugin::crowded_step(world.requests[id].0, event)
        },
    }
}

/// What an action does to the world. The kept application is the one that is
/// killed; one that is launched is kept; none is kept where none runs.
pub open spec fn acted(world: World, id: nat, action: Action, event: Event) -> World {
    match action {
        Action::Lock => World { holder: Some(id), ..world },
        Action::Unlock(state) => World {
            state,
            holder: None,
            app: if state.app_running {
                world.app
            } else {
                None
            },
            ..world
        },
        Action::Kill => match world.app {
            Some(app) => World { killed: world.killed.insert(app), ..world },
            None => world,
        },
        Action::Launch(_) => if event is Launched {
            World { app: Some(world.launched), launched: world.launched + 1, ..world }
        } else {
            world
        },
        _ => world,
    }
}

/// The world after a move.
pub open spec fn moved(world: World, next: Move, native_host: Seq<char>, port: u16) -> World {
    let given_up = (Phase::Done, Action::Abort(Fault::NoRoom));
    match next {
        Move::Arrival { id, message, no_room } => {
            let step = if no_room {
                given_up
            } else {
                plugin::first_step(message, native_host, port)
            };
            World { requests: world.requests.insert(id, step), ..world }
        },
        Move::Step { id, event, no_room } => {
            let (phase, action) = world.requests[id];
            let step = if no_room {
                given_up
            } else {
                plugin::next_step(phase, event, native_host, port)
            };
            World {
                requests: world.requests.insert(id, step),
                ..acted(world, id, action, event)
            }
        },
    }
}

/// The world after all moves.
pub open spec fn outcome(moves: Seq<Move>, native_host: Seq<char>, port: u16) -> World
    decreases moves.len(),
{
    if moves.len() == 0 {
        beginning()
    } else {
        moved(outcome(moves.drop_last(), native_host, port), moves.last(), native_host, port)
    }
}

/// Whether the moves can happen one after the other.
pub open spec fn can_happen(moves: Seq<Move>, native_host: Seq<char>, port: u16) -> bool
    decreases moves.len(),
{
    moves.len() == 0 || {
        &&& can_happen(moves.drop_last(), native_host, port)
        &&& possible(outcome(moves.drop_last(), native_host, port), moves.last())
    }
}

/// Whether every application was killed.
pub open spec fn all_killed(world: World) -> bool {
    forall|app: nat| app < world.launched ==> #[trigger] world.killed.contains(app)
}

/// Whether every application but the kept one was killed.
pub open spec fn others_killed(world: World) -> bool {
    forall|app: nat|
        app < world.launched ==> #[trigger] world.killed.contains(app) || world.app == Some(app)
}

/// Whether a request does next what it has to where it stands.
pub open spec fn in_turn(phase: Phase, action: Action) -> bool {
    match phase {
        Phase::Locking { .. } | Phase::Closing => action is Lock,
        Phase::Killing { .. } | Phase::Ending => action is Kill,
        Phase::Launching { .. } => action is Launch,
        Phase::Launched { .. } => action == Action::Unlock(PluginState { app_running: true }),
        Phase::Failing { .. } => action is Unlock,
        Phase::Ended => action == Action::Unlock(PluginState { app_running: false }),
        Phase::Waiting { .. } => action is AwaitPlugin,
        Phase::Sending { .. } => action is Send,
        Phase::Done => plugin::answers(action),
    }
}

/// Whether the state tells if an application is kept.
pub open spec fn told(world: World) -> bool {
    world.state.app_running <==> world.app is Some
}

/// Whether the world is as the request that holds the state must find it.
pub open spec fn fits(world: World, phase: Phase, action: Action) -> bool {
    match phase {
        Phase::Killing { state, .. } => told(world) && state == world.state && state.app_running,
        Phase::Launching { state, .. } => told(world) && state == world.state && all_killed(world),
        Phase::Launched { .. } => world.app is Some,
        Phase::Failing { .. } => told(world) && action == Action::Unlock(world.state),
        Phase::Ending => told(world) && world.state.app_running,
        Phase::Ended => all_killed(world),
        _ => true,
    }
}

/// What every move keeps.
pub open spec fn sound(world: World) -> bool {
    &&& others_killed(world)
    &&& world.app matches Some(app) ==> app < world.launched
    &&& forall|id: nat| #[trigger]
        world.requests.contains_key(id) ==> {
            let (phase, action) = world.requests[id];
            &&& in_turn(phase, action)
            &&& plugin::holds_state(phase) <==> world.holder == Some(id)
        }
    &&& match world.holder {
        Some(id) => world.requests.contains_key(id) && fits(
            world,
            world.requests[id].0,
            world.requests[id].1,
        ),
        None => told(world),
    }
}

/// An arrival keeps the world sound.
proof fn lemma_arrival_is_sound(world: World, next: Move, native_host: Seq<char>, port: u16)
    requires
        sound(world),
        next is Arrival,
        possible(world, next),
    ensures
        sound(moved(world, next, native_host, port)),
{
    let after = moved(world, next, native_host, port);
    if let Move::Arrival { id, .. } = next {
        assert forall|other: nat| #[trigger] after.requests.contains_key(other) implies {
            let (phase, action) = after.requests[other];
            &&& in_turn(phase, action)
            &&& plugin::holds_state(phase) <==> after.holder == Some(other)
        } by {
            if other != id {
                assert(world.requests.contains_key(other));
            }
        }
    }
}

/// A step keeps the world sound.
proof fn lemma_step_is_sound(world: World, next: Move, native_host: Seq<char>, port: u16)
    requires
        sound(world),
        next is Step,
        possible(world, next),
    ensures
        sound(moved(world, next, native_host, port)),
{
    let after = moved(world, next, native_host, port);
    if let Move::Step { id, event, .. } = next {
        let (phase, action) = world.requests[id];
        assert(world.requests.contains_key(id));
        assert forall|other: nat| #[trigger] after.requests.contains_key(other) implies {
            let (phase, action) = after.requests[other];
            &&& in_turn(phase, action)
            &&& plugin::holds_state(phase) <==> after.holder == Some(other)
        } by {
            if other != id {
                assert(world.requests.contains_key(other));
            }
        }
        assert(others_killed(after)) by {
            assert forall|app: nat| app < after.launched implies #[trigger] after.killed.contains(
                app,
            ) || after.app == Some(app) by {
                if app < world.launched {
                    assert(world.killed.contains(app) || world.app == Some(app));
                }
            }
        }
        if phase is Killing || phase is Ending {
            assert forall|app: nat| app < after.launched implies #[trigger] after.killed.contains(
                app,
            ) by {
                assert(world.killed.contains(app) || world.app == Some(app));
            }
        }
    }
}

/// Whatever happens, the world stays sound.
proof fn lemma_history_is_sound(moves: Seq<Move>, native_host: Seq<char>, port: u16)
    requires
        can_happen(moves, native_host, port),
    ensures
        sound(outcome(moves, native_host, port)),
    decreases moves.len(),
{
    if moves.len() > 0 {
        lemma_history_is_sound(moves.drop_last(), native_host, port);
        let before = outcome(moves.drop_last(), native_host, port);
        match moves.last() {
            Move::Arrival { .. } => {
                lemma_arrival_is_sound(before, moves.last(), native_host, port);
            },
            Move::Step { .. } => {
                lemma_step_is_sound(before, moves.last(), native_host, port);
            },
        }
    }
}

/// Whatever requests come, and however their steps interleave, at most one
/// application is left running: every other was killed, and the one that is left
/// is kept with the state.
pub proof fn law_one_app_is_left(moves: Seq<Move>, native_host: Seq<char>, port: u16, app: nat)
    requires
        can_happen(moves, native_host, port),
        app < outcome(moves, native_host, port).launched,
        !outcome(moves, native_host, port).killed.contains(app),
    ensures
        outcome(moves, native_host, port).app == Some(app),
{
    lemma_history_is_sound(moves, native_host, port);
}

/// The applications that were launched and not killed.
pub open spec fn left(world: World) -> Set<nat> {
    Set::new(|app: nat| app < world.launched && !world.killed.contains(app))
}

/// Whatever requests come, and however their steps interleave, the state that
/// no request holds accounts for every application that is left running: there
/// is one at most, and none where it knows of none.
pub proof fn law_every_app_is_accounted_for(moves: Seq<Move>, native_host: Seq<char>, port: u16)
    requires
        can_happen(moves, native_host, port),
        outcome(moves, native_host, port).holder is None,
    ensures
        ({
            let world = outcome(moves, native_host, port);
            plugin::accounted_for(left(world).len(), world.state)
        }),
{
    lemma_history_is_sound(moves, native_host, port);
    let world = outcome(moves, native_host, port);
    assert forall|app: nat| left(world).contains(app) implies world.app == Some(app) by {
        assert(world.killed.contains(app) || world.app == Some(app));
    }
    match world.app {
        Some(app) if !world.killed.contains(app) => {
            assert(left(world) =~= Set::empty().insert(app));
        },
        _ => {
            assert(left(world) =~= Set::empty());
        },
    }
}

/// An application is launched only when every earlier one was killed.
pub proof fn law_launch_comes_after_the_kill(
    moves: Seq<Move>,
    native_host: Seq<char>,
    port: u16,
    id: nat,
)
    requires
        can_happen(moves, native_host, port),
        outcome(moves, native_host, port).requests.contains_key(id),
        outcome(moves, native_host, port).requests[id].1 is Launch,
    ensures
        all_killed(outcome(moves, native_host, port)),
{
    lemma_history_is_sound(moves, native_host, port);
}

/// The state that no request holds tells whether an application is kept. So a
/// session that is deleted on any connection finds the application that was
/// launched on any other, and kills it.
pub proof fn law_requests_share_the_state(
    moves: Seq<Move>,
    native_host: Seq<char>,
    port: u16,
    id: nat,
)
    requires
        can_happen(moves, native_host, port),
        outcome(moves, native_host, port).holder is None,
        outcome(moves, native_host, port).requests.contains_key(id),
        outcome(moves, native_host, port).requests[id].0 is Closing,
    ensures
        ({
            let before = outcome(moves, native_host, port);
            let lock = Move::Step { id, event: Event::Locked(before.state), no_room: false };
            let held = moved(before, lock, native_host, port);
            let kill = Move::Step { id, event: Event::Killed, no_room: false };
            &&& possible(before, lock)
            &&& match before.app {
                Some(app) => {
                    &&& held.requests[id].1 == Action::Kill
                    &&& possible(held, kill)
                    &&& moved(held, kill, native_host, port).killed == before.killed.insert(app)
                    &&& all_killed(moved(held, kill, native_host, port))
                },
                None => all_killed(before),
            }
        }),
{
    lemma_history_is_sound(moves, native_host, port);
    let before = outcome(moves, native_host, port);
    if let Some(app) = before.app {
        let killed = before.killed.insert(app);
        assert forall|other: nat| other < before.launched implies #[trigger] killed.contains(
            other,
        ) by {
            assert(before.killed.contains(other) || before.app == Some(other));
        }
    } else {
        assert forall|other: nat| other < before.launched implies #[trigger] before.killed.contains(
            other,
        ) by {
            assert(before.killed.contains(other) || before.app == Some(other));
        }
    }
}

/// When the deletion of a session gives the state back, every application was
/// killed, and none is kept after it.
pub proof fn law_deletion_leaves_nothing_behind(
    moves: Seq<Move>,
    native_host: Seq<char>,
    port: u16,
    id: nat,
)
    requires
        can_happen(moves, native_host, port),
        outcome(moves, native_host, port).requests.contains_key(id),
        outcome(moves, native_host, port).requests[id].0 is Ended,
    ensures
        ({
            let before = outcome(moves, native_host, port);
            let unlock = Move::Step { id, event: Event::Unlocked, no_room: false };
            let after = moved(before, unlock, native_host, port);
            &&& all_killed(before)
            &&& possible(before, unlock)
            &&& all_killed(after)
            &&& after.app is None
            &&& after.state == PluginState { app_running: false }
        }),
{
    lemma_history_is_sound(moves, native_host, port);
}

/// A program that is told to end while no request holds the state kills the
/// application that is kept, and ends at once only where every one was killed.
pub proof fn law_signal_finds_the_app(moves: Seq<Move>, native_host: Seq<char>, port: u16)
    requires
        can_happen(moves, native_host, port),
        outcome(moves, native_host, port).holder is None,
    ensures
        ({
            let world = outcome(moves, native_host, port);
            let action = server::next_action(
                true,
                ServerEvent::Signalled(world.state.app_running),
                port,
            );
            match world.app {
                Some(_) => action == ServerAction::Kill,
                None => action == ServerAction::Exit(0) && all_killed(world),
            }
        }),
{
    lemma_history_is_sound(moves, native_host, port);
    let world = outcome(moves, native_host, port);
    assert forall|app: nat|
        app < world.launched && world.app is None implies #[trigger] world.killed.contains(app) by {
        assert(world.killed.contains(app) || world.app == Some(app));
    }
}

} // verus!
