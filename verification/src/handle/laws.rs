//! What holds of a whole run of stages, whichever way they go.

#[allow(unused_imports)]
use std::time::Duration;

use vstd::prelude::*;

#[allow(unused_imports)]
use crate::handle::{
    collect, listen, only_if, post_drain, post_listen, pre_drain, pre_listen, prepare, recovery,
    on_signal, setup_stages, signal_error, stop_around, teardown, unwind, HandleError, HandleState,
    Outcome, ServerExit, ServerKind, Setup, SetupStage, SetupState, SignalAction, SignalEvent,
    Stage, TeardownStage,
};
#[allow(unused_imports)]
use crate::config::AppConfig;
#[allow(unused_imports)]
use crate::util::str::{framed_alike, lemma_framed_alike};

pub mod order;

verus! {

/// Stages performed while their outcomes are reported one by one.
pub open spec fn trace<P>(state: HandleState<P>, outcomes: Seq<Outcome>) -> Seq<Stage>
    decreases outcomes.len(),
{
    match state.current() {
        Some(stage) if outcomes.len() > 0 => seq![stage] + trace(
            state.after(outcomes[0]),
            outcomes.skip(1),
        ),
        _ => Seq::empty(),
    }
}

/// State after outcomes were reported one by one.
pub open spec fn end_state<P>(state: HandleState<P>, outcomes: Seq<Outcome>) -> HandleState<P>
    decreases outcomes.len(),
{
    if outcomes.len() == 0 {
        state
    } else {
        end_state(state.after(outcomes[0]), outcomes.skip(1))
    }
}

/// No stage has failed.
pub open spec fn none_failed(outcomes: Seq<Outcome>) -> bool {
    forall|i: int| 0 <= i < outcomes.len() ==> !(#[trigger] outcomes[i] is Failed)
}

/// Error of the first server task that has exited with one.
pub open spec fn first_error(outcomes: Seq<Outcome>) -> Option<HandleError>
    decreases outcomes.len(),
{
    if outcomes.len() == 0 {
        None
    } else if outcomes[0] is Failed {
        outcomes[0].error()
    } else {
        first_error(outcomes.skip(1))
    }
}

/// Servers that are started by stages.
spec fn started(stages: Seq<Stage>, servers: Seq<ServerKind>) -> Seq<ServerKind>
    decreases stages.len(),
{
    if stages.len() == 0 {
        Seq::empty()
    } else {
        let before = started(stages.drop_last(), servers);
        match stages.last() {
            Stage::Listen(server) => before.push(servers[server as int]),
            _ => before,
        }
    }
}

/// Error after stages that wait for server tasks, with an error from before.
spec fn collected(
    stages: Seq<Stage>,
    outcomes: Seq<Outcome>,
    error: Option<HandleError>,
) -> Option<HandleError>
    decreases outcomes.len(),
{
    if outcomes.len() == 0 {
        error
    } else {
        collected(
            stages.skip(1),
            outcomes.skip(1),
            if waits(stages[0]) && error is None {
                outcomes[0].error()
            } else {
                error
            },
        )
    }
}

/// The stage, if it went this way, is followed by the next one of the same script.
spec fn steady(stage: Stage, outcome: Outcome) -> bool {
    &&& !(stage is AwaitShutdown)
    &&& outcome is Failed ==> recovery(stage, 0) is None && !(stage is SpawnWatchdog)
}

/// Stages that wait for a server task to exit.
pub open spec fn waits(stage: Stage) -> bool {
    stage is CollectServer || stage is JoinServer
}

/// Stages of shutdown: they move on whichever way they go.
spec fn unstoppable(stage: Stage) -> bool {
    recovery(stage, 0) is None && !(stage is AwaitShutdown) && !(stage is SpawnWatchdog)
}

proof fn lemma_started_add(left: Seq<Stage>, right: Seq<Stage>, servers: Seq<ServerKind>)
    ensures
        started(left + right, servers) == started(left, servers) + started(right, servers),
    decreases right.len(),
{
    if right.len() == 0 {
        assert(left + right == left);
        assert(started(right, servers) == Seq::<ServerKind>::empty());
    } else {
        assert((left + right).drop_last() == left + right.drop_last());
        lemma_started_add(left, right.drop_last(), servers);
    }
}

proof fn lemma_started_none(stages: Seq<Stage>, servers: Seq<ServerKind>)
    requires
        forall|i: int| 0 <= i < stages.len() ==> !(#[trigger] stages[i] is Listen),
    ensures
        started(stages, servers) == Seq::<ServerKind>::empty(),
    decreases stages.len(),
{
    if stages.len() > 0 {
        lemma_started_none(stages.drop_last(), servers);
    }
}

proof fn lemma_started_listen(servers: Seq<ServerKind>, count: int)
    requires
        0 <= count <= servers.len() <= usize::MAX,
    ensures
        started(listen(servers.take(count)), servers) == servers.take(count),
    decreases count,
{
    let part = servers.take(count);
    if count > 0 {
        assert(part.drop_last() == servers.take(count - 1));
        lemma_started_listen(servers, count - 1);
        let init = listen(part.drop_last());
        let crypto = only_if(!(part.last() is Plain), Stage::EnsureCryptoProvider);
        let last = seq![Stage::Listen((count - 1) as usize)];
        lemma_started_add(init + crypto, last, servers);
        lemma_started_add(init, crypto, servers);
        lemma_started_none(crypto, servers);
        assert(last.drop_last() == Seq::<Stage>::empty());
        assert(started(last, servers) == seq![servers[count - 1]]) by {
            reveal_with_fuel(started, 2);
        }
    }
}

/// Servers started before the server that is started at an index.
proof fn lemma_started_until(servers: Seq<ServerKind>, count: int, index: int)
    requires
        0 <= count <= servers.len() <= usize::MAX,
        0 <= index < listen(servers.take(count)).len(),
    ensures
        ({
            let stages = listen(servers.take(count));
            stages[index] matches Stage::Listen(server) ==> server < count && started(
                stages.take(index),
                servers,
            ) == servers.take(server as int)
        }),
    decreases count,
{
    let part = servers.take(count);
    let stages = listen(part);
    if count > 0 {
        assert(part.drop_last() == servers.take(count - 1));
        let init = listen(part.drop_last());
        let crypto = only_if(!(part.last() is Plain), Stage::EnsureCryptoProvider);
        if index < init.len() {
            lemma_started_until(servers, count - 1, index);
            assert(stages[index] == init[index]);
            assert(stages.take(index) == init.take(index));
        } else if index == init.len() + crypto.len() {
            assert(stages.take(index) == init + crypto);
            lemma_started_add(init, crypto, servers);
            lemma_started_none(crypto, servers);
            lemma_started_listen(servers, count - 1);
        }
    }
}

/// Servers started before a stage of startup.
proof fn lemma_started_before<P>(state: HandleState<P>, servers: Seq<ServerKind>, index: int)
    requires
        servers.len() <= usize::MAX,
        0 <= index < state.start_script(servers).len(),
    ensures
        ({
            let script = state.start_script(servers);
            let done = started(script.take(index), servers);
            match script[index] {
                Stage::Listen(server) => done == servers.take(server as int),
                Stage::SpawnSignalHandler | Stage::PreListen(_) => done.len() == 0,
                _ => true,
            }
        }),
{
    let count = state.participants.len();
    let before = prepare(state.signal_handler, state.service_watchdog) + pre_listen(count);
    let middle = listen(servers);
    let script = state.start_script(servers);
    assert(servers.take(servers.len() as int) == servers);
    lemma_listen_startup(servers);
    if index < before.len() {
        lemma_started_none(script.take(index), servers);
    } else if index < before.len() + middle.len() {
        let place = index - before.len();
        assert(script[index] == middle[place]);
        assert(script.take(index) == before + middle.take(place));
        lemma_started_add(before, middle.take(place), servers);
        lemma_started_none(before, servers);
        lemma_started_until(servers, servers.len() as int, place);
    }
}

/// While stages follow each other, they are performed in the order of the script.
proof fn lemma_steady<P>(state: HandleState<P>, outcomes: Seq<Outcome>)
    requires
        state.position + outcomes.len() <= state.script.len(),
        state.wait_next ==> state.position + outcomes.len() < state.script.len(),
        forall|i: int|
            0 <= i < outcomes.len() ==> steady(
                state.script[state.position + i],
                #[trigger] outcomes[i],
            ),
    ensures
        ({
            let done = state.script.subrange(
                state.position as int,
                (state.position + outcomes.len()) as int,
            );
            &&& trace(state, outcomes) == done
            &&& end_state(state, outcomes) == (HandleState {
                position: state.position + outcomes.len(),
                signal_handler: state.signal_handler || done.contains(Stage::SpawnSignalHandler),
                service_watchdog: state.service_watchdog || done.contains(Stage::SpawnWatchdog),
                server_tasks: state.server_tasks + started(done, state.servers),
                consumed: state.consumed && started(done, state.servers).len() == 0,
                error: collected(done, outcomes, state.error),
                ..state
            })
        }),
    decreases outcomes.len(),
{
    let done = state.script.subrange(
        state.position as int,
        (state.position + outcomes.len()) as int,
    );
    if outcomes.len() == 0 {
        assert(done == Seq::<Stage>::empty());
        assert(started(done, state.servers) == Seq::<ServerKind>::empty());
        assert(state.server_tasks + Seq::<ServerKind>::empty() == state.server_tasks);
    } else {
        let next = state.after(outcomes[0]);
        let rest = outcomes.skip(1);
        let head = seq![done[0]];
        let tail = done.skip(1);
        assert(done == head + tail);
        assert(steady(state.script[state.position as int], outcomes[0]));
        assert forall|i: int| 0 <= i < rest.len() implies steady(
            next.script[next.position + i],
            #[trigger] rest[i],
        ) by {
            assert(rest[i] == outcomes[i + 1]);
        }
        lemma_steady(next, rest);
        assert(tail == next.script.subrange(
            next.position as int,
            (next.position + rest.len()) as int,
        ));
        lemma_started_add(head, tail, state.servers);
        assert(head.drop_last() == Seq::<Stage>::empty());
        assert(started(head, state.servers).len() == (if head[0] is Listen {
            1nat
        } else {
            0nat
        })) by {
            reveal_with_fuel(started, 2);
        }
        assert(next.server_tasks == state.server_tasks + started(head, state.servers)) by {
            reveal_with_fuel(started, 2);
        }
        assert(done[0] == head[0]);
        assert(forall|stage: Stage| #[trigger]
            done.contains(stage) <==> head[0] == stage || tail.contains(stage)) by {
            assert forall|stage: Stage| #[trigger] done.contains(stage) implies head[0] == stage
                || tail.contains(stage) by {
                let i = done.index_of(stage);
                assert(done[i] == stage);
                if i > 0 {
                    assert(tail[i - 1] == stage);
                }
            }
            assert forall|stage: Stage| head[0] == stage || #[trigger] tail.contains(
                stage,
            ) implies done.contains(stage) by {
                if head[0] == stage {
                    assert(done[0] == stage);
                } else {
                    let i = tail.index_of(stage);
                    assert(done[i + 1] == stage);
                }
            }
        }
    }
}

/// Outcomes reported in two parts.
proof fn lemma_trace_add<P>(state: HandleState<P>, first: Seq<Outcome>, second: Seq<Outcome>)
    requires
        trace(state, first).len() == first.len(),
    ensures
        trace(state, first + second) == trace(state, first) + trace(
            end_state(state, first),
            second,
        ),
        end_state(state, first + second) == end_state(end_state(state, first), second),
    decreases first.len(),
{
    if first.len() == 0 {
        assert(first + second == second);
        assert(trace(state, first) == Seq::<Stage>::empty());
        assert(Seq::<Stage>::empty() + trace(state, second) == trace(state, second));
    } else {
        let next = state.after(first[0]);
        assert((first + second).skip(1) == first.skip(1) + second);
        assert(trace(state, first) == seq![state.current()->0] + trace(next, first.skip(1)));
        lemma_trace_add(next, first.skip(1), second);
        assert(trace(state, first + second) == trace(state, first) + trace(
            end_state(state, first),
            second,
        ));
    }
}

proof fn lemma_collected_add(
    left: Seq<Stage>,
    right: Seq<Stage>,
    first: Seq<Outcome>,
    second: Seq<Outcome>,
    error: Option<HandleError>,
)
    requires
        left.len() == first.len(),
    ensures
        collected(left + right, first + second, error) == collected(
            right,
            second,
            collected(left, first, error),
        ),
    decreases first.len(),
{
    if first.len() == 0 {
        assert(left + right == right);
        assert(first + second == second);
    } else {
        assert((left + right).skip(1) == left.skip(1) + right);
        assert((first + second).skip(1) == first.skip(1) + second);
        lemma_collected_add(
            left.skip(1),
            right,
            first.skip(1),
            second,
            if waits(left[0]) && error is None {
                first[0].error()
            } else {
                error
            },
        );
    }
}

proof fn lemma_collected_none(
    stages: Seq<Stage>,
    outcomes: Seq<Outcome>,
    error: Option<HandleError>,
)
    requires
        stages.len() == outcomes.len(),
        forall|i: int| 0 <= i < stages.len() ==> !waits(#[trigger] stages[i]),
    ensures
        collected(stages, outcomes, error) == error,
    decreases outcomes.len(),
{
    if outcomes.len() > 0 {
        assert(!waits(stages[0]));
        lemma_collected_none(stages.skip(1), outcomes.skip(1), error);
    }
}

proof fn lemma_collected_all(
    stages: Seq<Stage>,
    outcomes: Seq<Outcome>,
    error: Option<HandleError>,
)
    requires
        stages.len() == outcomes.len(),
        forall|i: int| 0 <= i < stages.len() ==> waits(#[trigger] stages[i]),
    ensures
        collected(stages, outcomes, error) == (if error is None {
            first_error(outcomes)
        } else {
            error
        }),
    decreases outcomes.len(),
{
    if outcomes.len() > 0 {
        assert(waits(stages[0]));
        lemma_collected_all(
            stages.skip(1),
            outcomes.skip(1),
            if error is None {
                outcomes[0].error()
            } else {
                error
            },
        );
    }
}

/// Shutdown around a point where servers stop goes through whichever way its stages go, and
/// ends with the first error of a server task.
proof fn lemma_stop<P>(
    state: HandleState<P>,
    first: Seq<Stage>,
    point: Stage,
    tasks: nat,
    outcomes: Seq<Outcome>,
)
    requires
        !state.wait_next,
        state.position == 0,
        state.script == first + stop_around(point, state.participants.len(), tasks),
        outcomes.len() == state.script.len(),
        point is DrainServers || point is CloseServers,
        forall|i: int| 0 <= i < first.len() ==> #[trigger] first[i] is CancelTrigger,
    ensures
        trace(state, outcomes) == state.script,
        ({
            let from = first.len() + 2 + state.participants.len();
            let exits = outcomes.subrange(from as int, (from + tasks) as int);
            end_state(state, outcomes) == (HandleState {
                position: state.script.len(),
                error: if state.error is None {
                    first_error(exits)
                } else {
                    state.error
                },
                ..state
            })
        }),
{
    let count = state.participants.len();
    let from = (first.len() + 2 + count) as int;
    let to = from + tasks;
    let head = first + seq![Stage::AnnounceShutdown] + pre_drain(count) + seq![point];
    let middle = collect(point, tasks);
    let tail = post_drain(count);
    let script = state.script;
    assert(script == head + middle + tail);
    assert forall|i: int| 0 <= i < script.len() implies unstoppable(#[trigger] script[i])
        && !(script[i] is SpawnSignalHandler) && !(script[i] is Listen) by {}
    assert forall|i: int| 0 <= i < outcomes.len() implies steady(
        script[state.position + i],
        #[trigger] outcomes[i],
    ) by {
        assert(unstoppable(script[i]));
    }
    lemma_steady(state, outcomes);
    assert(script.subrange(0, script.len() as int) == script);
    lemma_started_none(script, state.servers);
    let early = outcomes.subrange(0, from);
    let exits = outcomes.subrange(from, to);
    let late = outcomes.subrange(to, outcomes.len() as int);
    assert(outcomes == early + exits + late);
    lemma_collected_add(head + middle, tail, early + exits, late, state.error);
    lemma_collected_add(head, middle, early, exits, state.error);
    lemma_collected_none(head, early, state.error);
    lemma_collected_all(middle, exits, state.error);
    lemma_collected_none(
        tail,
        late,
        if state.error is None {
            first_error(exits)
        } else {
            state.error
        },
    );
}

/// Stages between a request for shutdown, or exit of a server task, and the end of the run.
pub open spec fn drain_stages(
    exited: bool,
    graceful: Option<Duration>,
    participants: nat,
    tasks: nat,
) -> Seq<Stage> {
    only_if(exited, Stage::CancelTrigger) + stop_around(
        Stage::DrainServers(graceful),
        participants,
        if exited {
            (tasks - 1) as nat
        } else {
            tasks
        },
    )
}

/// Outcomes of server tasks, out of the outcomes of all stages of a shutdown that begins with
/// `first` other stages.
pub open spec fn exits(
    first: nat,
    participants: nat,
    tasks: nat,
    outcomes: Seq<Outcome>,
) -> Seq<Outcome> {
    outcomes.subrange(
        (first + 2 + participants) as int,
        (first + 2 + participants + tasks) as int,
    )
}

/// Common part of everything that waits for shutdown.
proof fn lemma_drain<P>(state: HandleState<P>, woken: Outcome, rest: Seq<Outcome>)
    requires
        state.current() == Some(Stage::AwaitShutdown),
        state.awaited > 0,
        rest.len() == drain_stages(
            !(woken is ShutdownRequested),
            state.graceful,
            state.participants.len(),
            state.awaited,
        ).len(),
    ensures
        ({
            let exited = !(woken is ShutdownRequested);
            let count = state.participants.len();
            let script = drain_stages(exited, state.graceful, count, state.awaited);
            let left = if exited {
                (state.awaited - 1) as nat
            } else {
                state.awaited
            };
            let after = exits(only_if(exited, Stage::CancelTrigger).len(), count, left, rest);
            &&& trace(state, seq![woken] + rest) == seq![Stage::AwaitShutdown] + script
            &&& end_state(state, seq![woken] + rest) == (HandleState {
                script,
                position: script.len(),
                wait_next: false,
                error: first_error(seq![woken] + after),
                ..state
            })
        }),
{
    let exited = !(woken is ShutdownRequested);
    let count = state.participants.len();
    let outcomes = seq![woken] + rest;
    let next = state.after(woken);
    assert(outcomes[0] == woken);
    assert(outcomes.skip(1) == rest);
    let left = if exited {
        (state.awaited - 1) as nat
    } else {
        state.awaited
    };
    lemma_stop(
        next,
        only_if(exited, Stage::CancelTrigger),
        Stage::DrainServers(state.graceful),
        left,
        rest,
    );
    let after = exits(only_if(exited, Stage::CancelTrigger).len(), count, left, rest);
    assert((seq![woken] + after).skip(1) == after);
}

/// Waiting for shutdown runs the orchestrated shutdown sequence to its end, whichever way its
/// stages go: pre-drain hooks in reverse registration order, then the drain of servers, then the
/// exit of every server task, then post-drain hooks in reverse registration order. The result
/// is the first error of a server task.
pub proof fn lemma_wait<P>(
    state: HandleState<P>,
    graceful: Option<Duration>,
    woken: Outcome,
    rest: Seq<Outcome>,
)
    requires
        state.server_tasks.len() > 0,
        rest.len() == drain_stages(
            !(woken is ShutdownRequested),
            graceful,
            state.participants.len(),
            state.server_tasks.len(),
        ).len(),
    ensures
        ({
            let begun = (HandleState { graceful, ..state }).waiting(Seq::empty());
            let exited = !(woken is ShutdownRequested);
            let count = state.participants.len();
            let tasks = state.server_tasks.len();
            let left = if exited {
                (tasks - 1) as nat
            } else {
                tasks
            };
            let after = exits(only_if(exited, Stage::CancelTrigger).len(), count, left, rest);
            let end = end_state(begun, seq![woken] + rest);
            &&& trace(begun, seq![woken] + rest) == seq![Stage::AwaitShutdown] + drain_stages(
                exited,
                graceful,
                count,
                tasks,
            )
            &&& end.current() is None
            &&& end.error == first_error(seq![woken] + after)
            &&& end.consumed
            &&& end.server_tasks.len() == 0
        }),
{
    let begun = (HandleState { graceful, ..state }).waiting(Seq::empty());
    lemma_drain(begun, woken, rest);
}

/// Graceful shutdown cancels the shutdown trigger before everything else, and then goes on as
/// waiting for shutdown does.
pub proof fn lemma_graceful_shutdown<P>(
    state: HandleState<P>,
    graceful: Option<Duration>,
    cancelled: Outcome,
    woken: Outcome,
    rest: Seq<Outcome>,
)
    requires
        state.server_tasks.len() > 0,
        rest.len() == drain_stages(
            !(woken is ShutdownRequested),
            graceful,
            state.participants.len(),
            state.server_tasks.len(),
        ).len(),
    ensures
        ({
            let begun = (HandleState { graceful, ..state }).waiting(seq![Stage::CancelTrigger]);
            let waiting = (HandleState { graceful, ..state }).waiting(Seq::empty());
            let outcomes = seq![woken] + rest;
            let end = end_state(begun, seq![cancelled] + outcomes);
            &&& trace(begun, seq![cancelled] + outcomes) == seq![Stage::CancelTrigger] + trace(
                waiting,
                outcomes,
            )
            &&& end == end_state(waiting, outcomes)
            &&& end.current() is None
        }),
{
    let begun = (HandleState { graceful, ..state }).waiting(seq![Stage::CancelTrigger]);
    let waiting = (HandleState { graceful, ..state }).waiting(Seq::empty());
    let outcomes = seq![woken] + rest;
    let all = seq![cancelled] + outcomes;
    assert(all[0] == cancelled);
    assert(all.skip(1) == outcomes);
    lemma_drain(begun.after(cancelled), woken, rest);
    lemma_drain(waiting, woken, rest);
}

/// When no server task was started, waiting for shutdown performs nothing, graceful shutdown
/// only cancels the shutdown trigger, and both fail.
pub proof fn lemma_not_running<P>(
    state: HandleState<P>,
    graceful: Option<Duration>,
    outcomes: Seq<Outcome>,
)
    requires
        state.server_tasks.len() == 0,
        outcomes.len() > 0,
    ensures
        ({
            let state = HandleState { graceful, ..state };
            let waiting = state.waiting(Seq::empty());
            let stopping = state.waiting(seq![Stage::CancelTrigger]);
            &&& trace(waiting, outcomes) == Seq::<Stage>::empty()
            &&& waiting.error == Some(HandleError::NotRunning)
            &&& trace(stopping, outcomes) == seq![Stage::CancelTrigger]
            &&& end_state(stopping, outcomes).error == Some(HandleError::NotRunning)
            &&& end_state(stopping, outcomes).current() is None
        }),
{
    let state = HandleState { graceful, ..state };
    let stopping = state.waiting(seq![Stage::CancelTrigger]);
    let next = stopping.after(outcomes[0]);
    lemma_idle(next, outcomes.skip(1));
}

/// Nothing is performed after the end of a run.
pub proof fn lemma_idle<P>(state: HandleState<P>, outcomes: Seq<Outcome>)
    requires
        state.current() is None,
    ensures
        trace(state, outcomes) == Seq::<Stage>::empty(),
        end_state(state, outcomes) == state,
    decreases outcomes.len(),
{
    if outcomes.len() > 0 {
        lemma_idle(state.after(outcomes[0]), outcomes.skip(1));
    }
}

/// Immediate shutdown runs to its end whichever way its stages go. The shutdown trigger is
/// cancelled before everything else, and hooks run around the point where servers close all
/// connections. The result is the first error of a server task.
pub proof fn lemma_shutdown<P>(state: HandleState<P>, outcomes: Seq<Outcome>)
    requires
        !state.consumed,
        outcomes.len() == 1 + stop_around(
            Stage::CloseServers,
            state.participants.len(),
            state.server_tasks.len(),
        ).len(),
    ensures
        ({
            let count = state.participants.len();
            let tasks = state.server_tasks.len();
            let end = end_state(state.shutting_down(), outcomes);
            &&& trace(state.shutting_down(), outcomes) == seq![Stage::CancelTrigger] + stop_around(
                Stage::CloseServers,
                count,
                tasks,
            )
            &&& end.current() is None
            &&& end.error == first_error(exits(1, count, tasks, outcomes))
            &&& end.consumed == (tasks > 0)
            &&& end.server_tasks.len() == 0
        }),
{
    lemma_stop(
        state.shutting_down(),
        seq![Stage::CancelTrigger],
        Stage::CloseServers,
        state.server_tasks.len(),
        outcomes,
    );
}

/// Shutdown after server tasks were already consumed performs nothing and succeeds. They are
/// consumed by waiting, by another shutdown, and by an abort.
pub proof fn lemma_shutdown_again<P>(state: HandleState<P>, outcomes: Seq<Outcome>)
    requires
        state.consumed,
    ensures
        trace(state.shutting_down(), outcomes) == Seq::<Stage>::empty(),
        end_state(state.shutting_down(), outcomes).error is None,
{
    lemma_idle(state.shutting_down(), outcomes);
}

/// Abort only aborts server tasks: no lifecycle participant is called.
pub proof fn lemma_abort<P>(state: HandleState<P>, first: Outcome, second: Outcome)
    ensures
        trace(state.aborting(), seq![first, second]) == seq![
            Stage::AnnounceShutdown,
            Stage::AbortServers,
        ],
        end_state(state.aborting(), seq![first, second]).current() is None,
        end_state(state.aborting(), seq![first, second]).error is None,
        end_state(state.aborting(), seq![first, second]).consumed == (state.consumed
            || state.server_tasks.len() > 0),
{
    let begun = state.aborting();
    let outcomes = seq![first, second];
    lemma_steady(begun, outcomes);
    let done = begun.script.subrange(0, 2);
    assert(done == begun.script);
    lemma_started_none(done, begun.servers);
    lemma_collected_none(done, outcomes, None);
}

/// Stages that may be a part of startup.
spec fn is_startup(stage: Stage) -> bool {
    match stage {
        Stage::SpawnSignalHandler
        | Stage::SpawnWatchdog
        | Stage::PreListen(_)
        | Stage::EnsureCryptoProvider
        | Stage::Listen(_)
        | Stage::PostListen(_)
        | Stage::AnnounceReady => true,
        _ => false,
    }
}

proof fn lemma_listen_startup(servers: Seq<ServerKind>)
    ensures
        forall|i: int|
            0 <= i < listen(servers).len() ==> #[trigger] listen(servers)[i] is Listen || listen(
                servers,
            )[i] is EnsureCryptoProvider,
    decreases servers.len(),
{
    if servers.len() > 0 {
        lemma_listen_startup(servers.drop_last());
    }
}

/// Stages of startup, and what they leave behind when all of them are done.
proof fn lemma_start_script<P>(state: HandleState<P>, servers: Seq<ServerKind>)
    requires
        servers.len() <= usize::MAX,
    ensures
        ({
            let script = state.start_script(servers);
            &&& script.len() > 0
            &&& forall|i: int| 0 <= i < script.len() ==> is_startup(#[trigger] script[i])
            &&& started(script, servers) == servers
            &&& !state.signal_handler ==> script.contains(Stage::SpawnSignalHandler)
            &&& !state.service_watchdog ==> script.contains(Stage::SpawnWatchdog)
        }),
{
    let count = state.participants.len();
    let before = prepare(state.signal_handler, state.service_watchdog) + pre_listen(count);
    let middle = listen(servers);
    let after = post_listen(count) + seq![Stage::AnnounceReady];
    let script = state.start_script(servers);
    assert(script == before + middle + after);
    lemma_listen_startup(servers);
    lemma_started_add(before + middle, after, servers);
    lemma_started_add(before, middle, servers);
    lemma_started_none(before, servers);
    lemma_started_none(after, servers);
    assert(servers.take(servers.len() as int) == servers);
    lemma_started_listen(servers, servers.len() as int);
    assert(Seq::<ServerKind>::empty() + servers + Seq::<ServerKind>::empty() == servers);
    if !state.signal_handler {
        assert(script[0] == Stage::SpawnSignalHandler);
    }
    if !state.service_watchdog {
        assert(script[if state.signal_handler {
            0
        } else {
            1
        }] == Stage::SpawnWatchdog);
    }
}

/// First part of a startup, in which nothing fails.
proof fn lemma_start_part<P>(begun: HandleState<P>, outcomes: Seq<Outcome>)
    requires
        begun.position == 0,
        forall|i: int| 0 <= i < begun.script.len() ==> is_startup(#[trigger] begun.script[i]),
        none_failed(outcomes),
        outcomes.len() <= begun.script.len(),
        begun.wait_next ==> outcomes.len() < begun.script.len(),
    ensures
        ({
            let done = begun.script.take(outcomes.len() as int);
            &&& trace(begun, outcomes) == done
            &&& end_state(begun, outcomes) == (HandleState {
                position: outcomes.len(),
                signal_handler: begun.signal_handler || done.contains(Stage::SpawnSignalHandler),
                service_watchdog: begun.service_watchdog || done.contains(Stage::SpawnWatchdog),
                server_tasks: begun.server_tasks + started(done, begun.servers),
                consumed: begun.consumed && started(done, begun.servers).len() == 0,
                ..begun
            })
        }),
{
    let done = begun.script.take(outcomes.len() as int);
    assert forall|i: int| 0 <= i < outcomes.len() implies steady(
        begun.script[begun.position + i],
        #[trigger] outcomes[i],
    ) by {
        assert(is_startup(begun.script[i]));
    }
    lemma_steady(begun, outcomes);
    assert(done == begun.script.subrange(0, outcomes.len() as int));
    assert forall|i: int| 0 <= i < done.len() implies !waits(#[trigger] done[i]) by {
        assert(is_startup(begun.script[i]));
    }
    lemma_collected_none(done, outcomes, begun.error);
}

/// Startup in which nothing fails performs its stages in order: participants in registration
/// order before servers begin listening, servers, and participants in registration order again.
/// Every server is running afterwards, and background service tasks are not spawned again by
/// another startup.
pub proof fn lemma_start<P>(
    state: HandleState<P>,
    servers: Seq<ServerKind>,
    outcomes: Seq<Outcome>,
)
    requires
        servers.len() <= usize::MAX,
        none_failed(outcomes),
        outcomes.len() == state.start_script(servers).len(),
    ensures
        ({
            let end = end_state(state.starting(servers), outcomes);
            &&& trace(state.starting(servers), outcomes) == state.start_script(servers)
            &&& end.current() is None
            &&& end.error is None
            &&& end.signal_handler
            &&& end.service_watchdog
            &&& end.server_tasks == state.server_tasks + servers
            &&& !end.consumed
        }),
{
    lemma_start_script(state, servers);
    lemma_start_part(state.starting(servers), outcomes);
    let script = state.start_script(servers);
    assert(script.take(script.len() as int) == script);
}

/// Common part of startups in which a stage fails.
proof fn lemma_failure<P>(
    begun: HandleState<P>,
    before: Seq<Outcome>,
    err: HandleError,
    after: Seq<Outcome>,
)
    requires
        begun.position == 0,
        begun.participants.len() <= usize::MAX,
        forall|i: int| 0 <= i < begun.script.len() ==> is_startup(#[trigger] begun.script[i]),
        none_failed(before),
        before.len() < begun.script.len(),
        recovery(begun.script[before.len() as int], begun.participants.len()) is Some,
        after.len() == recovery(
            begun.script[before.len() as int],
            begun.participants.len(),
        )->0.len(),
    ensures
        ({
            let outcomes = before + seq![Outcome::Failed(err)] + after;
            let failed = begun.script[before.len() as int];
            let end = end_state(begun, outcomes);
            &&& trace(begun, outcomes) == begun.script.take(before.len() as int).push(failed)
                + recovery(failed, begun.participants.len())->0
            &&& end.current() is None
            &&& end.error == Some(err)
            &&& end.server_tasks == if failed is PostListen {
                Seq::empty()
            } else {
                begun.server_tasks + started(begun.script.take(before.len() as int), begun.servers)
            }
        }),
{
    let failed = begun.script[before.len() as int];
    let script = recovery(failed, begun.participants.len())->0;
    let failure = seq![Outcome::Failed(err)];
    lemma_start_part(begun, before);
    let reached = end_state(begun, before);
    assert(reached.current() == Some(failed));
    let next = reached.after(Outcome::Failed(err));
    assert(failure.skip(1) == Seq::<Outcome>::empty());
    assert(trace(reached, failure) == seq![failed]) by {
        reveal_with_fuel(trace, 2);
    }
    assert(end_state(reached, failure) == next) by {
        reveal_with_fuel(end_state, 2);
    }
    assert(next.script == script);
    assert forall|i: int| 0 <= i < script.len() implies unstoppable(#[trigger] script[i])
        && !waits(script[i]) by {}
    assert forall|i: int| 0 <= i < after.len() implies steady(
        next.script[next.position + i],
        #[trigger] after[i],
    ) by {
        assert(unstoppable(script[i]));
    }
    lemma_steady(next, after);
    assert(script.subrange(0, script.len() as int) == script);
    assert forall|i: int| 0 <= i < script.len() implies !(#[trigger] script[i] is Listen) by {
        assert(unstoppable(script[i]));
    }
    lemma_started_none(script, next.servers);
    lemma_collected_none(script, after, Some(err));
    lemma_trace_add(begun, before, failure);
    lemma_trace_add(begun, before + failure, after);
}

/// When a stage of startup fails, no further stage of startup is performed. What was already
/// started is undone instead, whichever way that goes, and the result is the error. No server
/// task is left if servers were listening already, and those that were started before are left
/// if one of servers does not start.
pub proof fn lemma_start_failed<P>(
    state: HandleState<P>,
    servers: Seq<ServerKind>,
    before: Seq<Outcome>,
    err: HandleError,
    after: Seq<Outcome>,
)
    requires
        state.wf(),
        servers.len() <= usize::MAX,
        none_failed(before),
        before.len() < state.start_script(servers).len(),
        ({
            let failed = state.start_script(servers)[before.len() as int];
            let script = recovery(failed, state.participants.len());
            script is Some && after.len() == script->0.len()
        }),
    ensures
        ({
            let outcomes = before + seq![Outcome::Failed(err)] + after;
            let failed = state.start_script(servers)[before.len() as int];
            let end = end_state(state.starting(servers), outcomes);
            &&& trace(state.starting(servers), outcomes) == state.start_script(servers).take(
                before.len() as int,
            ).push(failed) + recovery(failed, state.participants.len())->0
            &&& end.current() is None
            &&& end.error == Some(err)
            &&& end.server_tasks == match failed {
                Stage::PostListen(_) => Seq::empty(),
                Stage::Listen(server) => state.server_tasks + servers.take(server as int),
                _ => state.server_tasks,
            }
        }),
{
    lemma_start_script(state, servers);
    lemma_started_before(state, servers, before.len() as int);
    assert(state.server_tasks + Seq::<ServerKind>::empty() == state.server_tasks);
    lemma_failure(state.starting(servers), before, err, after);
}

/// When the startup part of a run fails, the run ends as the startup alone would: it does not
/// go on to wait for shutdown.
pub proof fn lemma_run_failed<P>(
    state: HandleState<P>,
    servers: Seq<ServerKind>,
    graceful: Option<Duration>,
    before: Seq<Outcome>,
    err: HandleError,
    after: Seq<Outcome>,
)
    requires
        state.wf(),
        servers.len() <= usize::MAX,
        none_failed(before),
        before.len() < state.start_script(servers).len(),
        ({
            let failed = state.start_script(servers)[before.len() as int];
            let script = recovery(failed, state.participants.len());
            script is Some && after.len() == script->0.len()
        }),
    ensures
        ({
            let outcomes = before + seq![Outcome::Failed(err)] + after;
            let end = end_state(state.running(servers, graceful), outcomes);
            &&& trace(state.running(servers, graceful), outcomes) == trace(
                state.starting(servers),
                outcomes,
            )
            &&& end.current() is None
            &&& end.error == Some(err)
            &&& end.server_tasks == end_state(state.starting(servers), outcomes).server_tasks
        }),
{
    lemma_start_script(state, servers);
    lemma_failure(state.starting(servers), before, err, after);
    lemma_failure(state.running(servers, graceful), before, err, after);
}

/// A run in which startup does not fail performs startup, and then waits for shutdown.
pub proof fn lemma_run<P>(
    state: HandleState<P>,
    servers: Seq<ServerKind>,
    graceful: Option<Duration>,
    starting: Seq<Outcome>,
    waiting: Seq<Outcome>,
)
    requires
        servers.len() <= usize::MAX,
        none_failed(starting),
        starting.len() == state.start_script(servers).len(),
    ensures
        ({
            let begun = state.running(servers, graceful);
            let up = HandleState {
                graceful,
                ..end_state(state.starting(servers), starting)
            };
            &&& trace(begun, starting + waiting) == state.start_script(servers) + trace(
                up.waiting(Seq::empty()),
                waiting,
            )
            &&& end_state(begun, starting + waiting) == end_state(
                up.waiting(Seq::empty()),
                waiting,
            )
        }),
{
    lemma_start(state, servers, starting);
    lemma_start_script(state, servers);
    let script = state.start_script(servers);
    let begun = state.running(servers, graceful);
    let alone = state.starting(servers);
    let most = starting.drop_last();
    let last = seq![starting.last()];
    assert(starting == most + last);
    lemma_start_part(begun, most);
    lemma_start_part(alone, most);
    let reached = end_state(begun, most);
    let reached_alone = end_state(alone, most);
    let up = HandleState { graceful, ..end_state(alone, starting) };
    assert(last.skip(1) == Seq::<Outcome>::empty());
    assert(starting[starting.len() - 1] == starting.last());
    let stage = script.last();
    assert(is_startup(stage));
    assert(stage == Stage::AnnounceReady);
    assert(reached.current() == Some(stage));
    assert(reached_alone.current() == Some(stage));
    lemma_trace_add(alone, most, last);
    assert(end_state(reached_alone, last) == reached_alone.after(starting.last())) by {
        reveal_with_fuel(end_state, 2);
    }
    assert(trace(reached, last) == seq![stage]) by {
        reveal_with_fuel(trace, 2);
    }
    assert(end_state(reached, last) == reached.after(starting.last())) by {
        reveal_with_fuel(end_state, 2);
    }
    assert(reached.after(starting.last()) == up.waiting(Seq::empty()));
    lemma_trace_add(begun, most, last);
    assert(script.take(most.len() as int) + seq![stage] == script);
    lemma_trace_add(begun, starting, waiting);
}

/// Shutdown hooks run in the reverse of the order in which participants were started: who was
/// started first is called last, in both stages.
pub proof fn lemma_reverse_order(count: nat, index: int)
    requires
        count <= usize::MAX,
        0 <= index < count,
    ensures
        pre_listen(count)[index] == Stage::PreListen(index as usize),
        post_listen(count)[index] == Stage::PostListen(index as usize),
        pre_drain(count)[count - 1 - index] == Stage::PreDrain(index as usize),
        post_drain(count)[count - 1 - index] == Stage::PostDrain(index as usize),
{
}

/// Number of participants that are undone when a stage of startup fails.
pub open spec fn undone(failed: Stage, count: nat) -> nat {
    match failed {
        Stage::PreListen(started) => started as nat,
        Stage::Listen(_) | Stage::PostListen(_) => count,
        _ => 0,
    }
}

/// When a stage of startup fails, those participants that came first are undone, each of them
/// once by either of shutdown stages, and no other one.
pub proof fn lemma_undone_once(failed: Stage, count: nat, participant: usize)
    requires
        count <= usize::MAX,
        recovery(failed, count) is Some,
    ensures
        ({
            let undo = recovery(failed, count)->0;
            &&& undo.no_duplicates()
            &&& undo.contains(Stage::PreDrain(participant)) <==> participant < undone(failed, count)
            &&& undo.contains(Stage::PostDrain(participant)) <==> participant < undone(
                failed,
                count,
            )
        }),
{
    let undo = recovery(failed, count)->0;
    let number = undone(failed, count);
    let first: int = match failed {
        Stage::Listen(_) => 1,
        Stage::PostListen(_) => 2,
        _ => 0,
    };
    if participant < number {
        assert(undo[first + number - 1 - participant] == Stage::PreDrain(participant));
        assert(undo[first + 2 * number - 1 - participant] == Stage::PostDrain(participant));
    }
}

/// Where participants and servers stand in a startup.
proof fn lemma_start_positions<P>(state: HandleState<P>, servers: Seq<ServerKind>, index: int)
    requires
        state.participants.len() <= usize::MAX,
        0 <= index < state.start_script(servers).len(),
    ensures
        ({
            let script = state.start_script(servers);
            let first = prepare(state.signal_handler, state.service_watchdog).len();
            let count = state.participants.len();
            &&& script[index] is PreListen <==> first <= index < first + count
            &&& first <= index < first + count ==> script[index] == Stage::PreListen(
                (index - first) as usize,
            )
            &&& script[index] is Listen || script[index] is PostListen ==> index >= first + count
            &&& script[index] is SpawnSignalHandler ==> index < first
            &&& !(script[index] is PreDrain) && !(script[index] is PostDrain)
        }),
{
    lemma_listen_startup(servers);
    let script = state.start_script(servers);
    let count = state.participants.len();
    let before = prepare(state.signal_handler, state.service_watchdog);
    let middle = listen(servers);
    if before.len() + count <= index < before.len() + count + middle.len() {
        assert(script[index] == middle[index - before.len() - count]);
    }
}

/// When startup fails, exactly those participants are shut down, by either of shutdown stages,
/// that had been started before servers began listening.
pub proof fn lemma_undone_if_started<P>(
    state: HandleState<P>,
    servers: Seq<ServerKind>,
    before: Seq<Outcome>,
    err: HandleError,
    after: Seq<Outcome>,
    participant: usize,
)
    requires
        state.wf(),
        servers.len() <= usize::MAX,
        none_failed(before),
        before.len() < state.start_script(servers).len(),
        ({
            let failed = state.start_script(servers)[before.len() as int];
            let script = recovery(failed, state.participants.len());
            script is Some && after.len() == script->0.len()
        }),
    ensures
        ({
            let outcomes = before + seq![Outcome::Failed(err)] + after;
            let all = trace(state.starting(servers), outcomes);
            let started = trace(state.starting(servers), before).contains(
                Stage::PreListen(participant),
            );
            &&& all.contains(Stage::PreDrain(participant)) <==> started
            &&& all.contains(Stage::PostDrain(participant)) <==> started
        }),
{
    let outcomes = before + seq![Outcome::Failed(err)] + after;
    let script = state.start_script(servers);
    let begun = state.starting(servers);
    let count = state.participants.len();
    let failed = script[before.len() as int];
    let first = prepare(state.signal_handler, state.service_watchdog).len();
    let undo = recovery(failed, count)->0;
    let done = script.take(before.len() as int);
    let all = trace(begun, outcomes);
    lemma_start_failed(state, servers, before, err, after);
    lemma_start_script(state, servers);
    lemma_start_part(begun, before);
    lemma_start_positions(state, servers, before.len() as int);
    lemma_undone_once(failed, count, participant);
    assert(all == done.push(failed) + undo);
    // Who was started.
    assert(done.contains(Stage::PreListen(participant)) <==> participant < undone(failed, count))
        by {
        if done.contains(Stage::PreListen(participant)) {
            let i = done.index_of(Stage::PreListen(participant));
            lemma_start_positions(state, servers, i);
            assert(script[i] == Stage::PreListen(participant));
        }
        if participant < undone(failed, count) {
            let i = first + participant;
            lemma_start_positions(state, servers, i);
            assert(done[i] == Stage::PreListen(participant));
        }
    }
    // Who is shut down.
    assert forall|stage: Stage|
        (stage is PreDrain || stage is PostDrain) implies #[trigger] all.contains(stage)
        == undo.contains(stage) by {
        if undo.contains(stage) {
            let i = undo.index_of(stage);
            assert(all[done.len() + 1 + i] == stage);
        }
        if all.contains(stage) {
            let i = all.index_of(stage);
            if i < done.len() {
                lemma_start_positions(state, servers, i);
                assert(all[i] == script[i]);
            } else if i == done.len() {
                assert(all[i] == failed);
            } else {
                assert(undo[i - done.len() - 1] == stage);
            }
        }
    }
    assert(all.contains(Stage::PreDrain(participant)) == undo.contains(
        Stage::PreDrain(participant),
    ));
    assert(all.contains(Stage::PostDrain(participant)) == undo.contains(
        Stage::PostDrain(participant),
    ));
}

/// During shutdown every participant is called exactly once before servers stop, and exactly once
/// after every server task was waited for.
pub proof fn lemma_called_once(point: Stage, count: nat, tasks: nat, participant: usize)
    requires
        point is DrainServers || point is CloseServers,
        count <= usize::MAX,
        tasks <= usize::MAX,
        participant < count,
    ensures
        ({
            let script = stop_around(point, count, tasks);
            let stop = (1 + count) as int;
            let before = count - participant;
            let after = 1 + 2 * count + tasks - participant;
            &&& script[stop] == point
            &&& forall|i: int| stop < i <= stop + tasks ==> waits(#[trigger] script[i])
            &&& 0 < before < stop
            &&& stop + tasks < after < script.len()
            &&& forall|i: int|
                0 <= i < script.len() ==> (#[trigger] script[i] == Stage::PreDrain(participant)
                    <==> i == before)
            &&& forall|i: int|
                0 <= i < script.len() ==> (#[trigger] script[i] == Stage::PostDrain(participant)
                    <==> i == after)
        }),
{
}

/// Setup performs its stages in order, until one of them fails. Nothing is performed after that,
/// and the error stays.
pub proof fn lemma_setup(
    state: SetupState,
    done: nat,
    failure: Option<String>,
    later: Option<String>,
)
    requires
        state.position == 0,
        state.error is None,
        done <= state.stages.len(),
    ensures
        ({
            let reached = state.after_done(done);
            let stage = state.stages[done as int];
            &&& reached == (SetupState { position: done, ..state })
            &&& done < state.stages.len() ==> reached.current() == Some(stage)
            &&& done == state.stages.len() ==> reached.current() is None
            &&& done < state.stages.len() && stage.error_of(failure) is Some ==> {
                &&& reached.after(failure).current() is None
                &&& reached.after(failure).error == stage.error_of(failure)
                &&& reached.after(failure).after(later) == reached.after(failure)
            }
        }),
    decreases done,
{
    if done > 0 {
        lemma_setup(state, (done - 1) as nat, failure, later);
    }
}

/// Place of a stage in any setup it is a part of.
pub open spec fn setup_rank(stage: SetupStage) -> int {
    match stage {
        SetupStage::MakeRegistry => 0,
        SetupStage::BuildTracing => 1,
        SetupStage::InstallWithTracing | SetupStage::InstallRegistry => 2,
        SetupStage::InstallPropagator => 3,
        SetupStage::BuildMetrics => 4,
        SetupStage::SpawnRuntimeMetrics => 5,
        SetupStage::InstallMetrics => 6,
    }
}

/// Setup makes the registry of log outputs before everything else, and installs it exactly once:
/// together with trace collection if that is configured, and alone if it is not, whether or not
/// metrics are configured. Trace collection is built before that, and trace propagation is
/// installed after it. Metrics collection is built, gathered and installed after all of those, if
/// it is configured. Nothing is done twice, and nothing is done that is not configured.
pub proof fn lemma_setup_stages<C>(config: AppConfig<C>, setup: Setup)
    requires
        call_ensures(AppConfig::<C>::setup, (&config,), setup),
    ensures
        setup@.position == 0,
        setup@.error is None,
        ({
            let stages = setup@.stages;
            &&& stages.len() > 1
            &&& stages[0] == SetupStage::MakeRegistry
            &&& stages.contains(SetupStage::InstallWithTracing) <==> config.tracing
            &&& stages.contains(SetupStage::InstallRegistry) <==> !config.tracing
            &&& stages.contains(SetupStage::BuildTracing) <==> config.tracing
            &&& stages.contains(SetupStage::InstallPropagator) <==> config.tracing
            &&& stages.contains(SetupStage::BuildMetrics) <==> config.metrics
            &&& stages.contains(SetupStage::SpawnRuntimeMetrics) <==> config.metrics
            &&& stages.contains(SetupStage::InstallMetrics) <==> config.metrics
            &&& forall|i: int, j: int|
                0 <= i < j < stages.len() ==> setup_rank(#[trigger] stages[i]) < setup_rank(
                    #[trigger] stages[j],
                )
        }),
{
    let stages = setup@.stages;
    assert(stages == setup_stages(config.tracing, config.metrics));
    if config.tracing {
        assert(stages[1] == SetupStage::BuildTracing);
        assert(stages[2] == SetupStage::InstallWithTracing);
        assert(stages[3] == SetupStage::InstallPropagator);
        if config.metrics {
            assert(stages[4] == SetupStage::BuildMetrics);
            assert(stages[5] == SetupStage::SpawnRuntimeMetrics);
            assert(stages[6] == SetupStage::InstallMetrics);
        }
    } else {
        assert(stages[1] == SetupStage::InstallRegistry);
        if config.metrics {
            assert(stages[2] == SetupStage::BuildMetrics);
            assert(stages[3] == SetupStage::SpawnRuntimeMetrics);
            assert(stages[4] == SetupStage::InstallMetrics);
        }
    }
}

/// A stage of setup that did not fail has no error. The error of one that did holds exactly the
/// text of the failure. It is an error of logging if the registry could not be made or installed,
/// and an error of tracing or of metrics if those could not be built. What only puts things in
/// place afterwards does not fail.
pub proof fn lemma_setup_error(stage: SetupStage, failure: String)
    ensures
        stage.error_of(None) is None,
        stage.error_of(Some(failure)) == Some(HandleError::Logging(failure)) <==> stage
            == SetupStage::MakeRegistry || stage == SetupStage::InstallRegistry || stage
            == SetupStage::InstallWithTracing,
        stage.error_of(Some(failure)) == Some(HandleError::Tracing(failure)) <==> stage
            == SetupStage::BuildTracing,
        stage.error_of(Some(failure)) == Some(HandleError::Metrics(failure)) <==> stage
            == SetupStage::BuildMetrics,
        stage.error_of(Some(failure)) is None <==> stage == SetupStage::InstallPropagator || stage
            == SetupStage::SpawnRuntimeMetrics || stage == SetupStage::InstallMetrics,
{
}

/// Setup goes on to the next stage after one that has no error, and stops for good after one that
/// has. Its stages stay.
pub proof fn lemma_setup_step(state: SetupState, failure: Option<String>)
    requires
        state.error is None,
        state.position < state.stages.len(),
    ensures
        ({
            let stage = state.stages[state.position as int];
            let next = state.after(failure);
            &&& state.current() == Some(stage)
            &&& next.stages == state.stages
            &&& next.error == stage.error_of(failure)
            &&& next.error is None ==> next.position == state.position + 1
            &&& next.error is Some ==> next.current() is None
        }),
{
}

/// Text of an error holds the text of what has caused it, behind the same words whatever that is.
pub proof fn lemma_error_texts(left: String, right: String)
    ensures
        HandleError::Logging(left).text() == left@,
        HandleError::Tracing(left).text() == left@,
        HandleError::Metrics(left).text() == left@,
        HandleError::ServerBuilder(left).text() == left@,
        HandleError::SignalHandler(left).text() == left@,
        framed_alike(
            HandleError::Server(left).text(),
            left@,
            HandleError::Server(right).text(),
            right@,
        ),
        framed_alike(
            HandleError::TlsServer(left).text(),
            left@,
            HandleError::TlsServer(right).text(),
            right@,
        ),
        framed_alike(
            HandleError::SpiffeServer(left).text(),
            left@,
            HandleError::SpiffeServer(right).text(),
            right@,
        ),
        framed_alike(
            HandleError::ServerTask(left).text(),
            left@,
            HandleError::ServerTask(right).text(),
            right@,
        ),
        framed_alike(
            HandleError::Custom(left).text(),
            left@,
            HandleError::Custom(right).text(),
            right@,
        ),
{
    lemma_framed_alike("HTTP server error: "@, left@, right@);
    lemma_framed_alike("HTTPS server error: "@, left@, right@);
    lemma_framed_alike("SPIFFE HTTPS server error: "@, left@, right@);
    lemma_framed_alike("Server task error: "@, left@, right@);
    lemma_framed_alike("Custom error: "@, left@, right@);
}

/// Text about a stage of teardown that has failed holds the text of the error, behind the same
/// words whatever that is. There is none about cancelling tokens.
pub proof fn lemma_teardown_texts(stage: TeardownStage, left: Seq<char>, right: Seq<char>)
    ensures
        stage.alert_text(left) is None <==> stage == TeardownStage::CancelTrigger || stage
            == TeardownStage::CancelToken,
        stage.alert_text(left) is Some ==> stage.alert_text(right) is Some && framed_alike(
            stage.alert_text(left)->0,
            left,
            stage.alert_text(right)->0,
            right,
        ),
{
    lemma_framed_alike("Error flushing metrics: "@, left, right);
    lemma_framed_alike("Error shutting down OTel metrics provider: "@, left, right);
    lemma_framed_alike("Error flushing spans: "@, left, right);
    lemma_framed_alike("Error shutting down OTel tracing provider: "@, left, right);
}

/// Place of a stage in any teardown it is a part of.
pub open spec fn teardown_rank(stage: TeardownStage) -> int {
    match stage {
        TeardownStage::CancelTrigger => 0,
        TeardownStage::CancelToken => 1,
        TeardownStage::FlushMetrics => 2,
        TeardownStage::ShutdownMetrics => 3,
        TeardownStage::FlushSpans => 4,
        TeardownStage::ShutdownTracing => 5,
    }
}

/// Both tokens are cancelled before everything else. Metrics and spans are flushed before their
/// collection is shut down, and nothing is flushed or shut down that is not there.
pub proof fn lemma_teardown(metrics: bool, tracing: bool, stages: Vec<TeardownStage>)
    requires
        call_ensures(teardown, (metrics, tracing), stages),
    ensures
        stages@.contains(TeardownStage::CancelTrigger),
        stages@.contains(TeardownStage::CancelToken),
        stages@.contains(TeardownStage::FlushMetrics) <==> metrics,
        stages@.contains(TeardownStage::ShutdownMetrics) <==> metrics,
        stages@.contains(TeardownStage::FlushSpans) <==> tracing,
        stages@.contains(TeardownStage::ShutdownTracing) <==> tracing,
        forall|i: int, j: int|
            0 <= i < j < stages@.len() ==> teardown_rank(#[trigger] stages@[i]) < teardown_rank(
                #[trigger] stages@[j],
            ),
{
    assert(stages@[0] == TeardownStage::CancelTrigger);
    assert(stages@[1] == TeardownStage::CancelToken);
    if metrics {
        assert(stages@[2] == TeardownStage::FlushMetrics);
        assert(stages@[3] == TeardownStage::ShutdownMetrics);
        if tracing {
            assert(stages@[4] == TeardownStage::FlushSpans);
            assert(stages@[5] == TeardownStage::ShutdownTracing);
        }
    } else if tracing {
        assert(stages@[2] == TeardownStage::FlushSpans);
        assert(stages@[3] == TeardownStage::ShutdownTracing);
    }
}

/// Shutdown is requested by a signal that asks for it, and by nothing else. Signals are not waited
/// for any more once shutdown was requested, and are in all other cases.
pub proof fn lemma_on_signal(event: SignalEvent, action: SignalAction)
    requires
        call_ensures(on_signal, (event,), action),
    ensures
        action == SignalAction::RequestShutdown <==> event is Received && event->is_shutdown,
        action == SignalAction::Stop <==> event is ShutdownRequested,
        action == SignalAction::Wait <==> event is Failed || event is Received
            && !event->is_shutdown,
{
}

/// Errors of a server hold the text of their cause. Those of a running server tell servers of
/// different kinds apart, and none of them is taken for a server that could not be built.
pub proof fn lemma_server_errors(
    kind: ServerKind,
    other: ServerKind,
    err: String,
    built: HandleError,
    ran: HandleError,
    other_ran: HandleError,
    signal: HandleError,
    lost: Outcome,
)
    requires
        call_ensures(ServerKind::build_error, (&kind, err), built),
        call_ensures(ServerKind::task_error, (&kind, err), ran),
        call_ensures(ServerKind::task_error, (&other, err), other_ran),
        call_ensures(signal_error, (err,), signal),
        call_ensures(ServerExit::outcome, (ServerExit::Lost(err),), lost),
    ensures
        built == HandleError::ServerBuilder(err),
        signal == HandleError::SignalHandler(err),
        ran == other_ran <==> kind == other,
        ran is Server <==> kind == ServerKind::Plain,
        ran is TlsServer <==> kind == ServerKind::Tls,
        ran is SpiffeServer <==> kind == ServerKind::Spiffe,
        ran == HandleError::Server(err) || ran == HandleError::TlsServer(err) || ran
            == HandleError::SpiffeServer(err),
        lost == Outcome::Failed(HandleError::ServerTask(err)),
{
}

/// A server task that has stopped has no error, and one that has failed has its own.
pub proof fn lemma_server_exit(err: HandleError, stopped: Outcome, failed: Outcome)
    requires
        call_ensures(ServerExit::outcome, (ServerExit::Stopped,), stopped),
        call_ensures(ServerExit::outcome, (ServerExit::Failed(err),), failed),
    ensures
        stopped.error() is None,
        failed.error() == Some(err),
{
}

} // verus!
