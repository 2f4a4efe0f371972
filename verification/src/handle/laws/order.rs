//! Where every stage of a run stands.

#[allow(unused_imports)]
use std::time::Duration;

#[allow(unused_imports)]
use tokio_util::sync::CancellationToken;
use vstd::prelude::*;

#[allow(unused_imports)]
use crate::handle::laws::{
    end_state, exits, first_error, lemma_drain, lemma_failure, lemma_graceful_shutdown, lemma_run,
    lemma_shutdown, lemma_start, lemma_start_script, lemma_trace_add, lemma_wait, none_failed,
    trace,
};
#[allow(unused_imports)]
use crate::handle::{
    collect, listen, only_if, post_drain, post_listen, pre_drain, pre_listen, prepare, recovery,
    stop_around, HandleError, HandleState, Outcome, ServerKind, Stage,
};

verus! {

/// Number of servers that need a crypto provider.
pub open spec fn secured(servers: Seq<ServerKind>) -> nat {
    servers.filter(|kind: ServerKind| kind != ServerKind::Plain).len()
}

/// One more server.
proof fn lemma_secured_push(servers: Seq<ServerKind>, count: int)
    requires
        0 <= count < servers.len(),
    ensures
        secured(servers.take(count + 1)) == secured(servers.take(count)) + if servers[count]
            == ServerKind::Plain {
            0nat
        } else {
            1nat
        },
{
    reveal(Seq::filter);
    let part = servers.take(count + 1);
    assert(part.drop_last() == servers.take(count));
    assert(part.last() == servers[count]);
}

/// Where servers stand among stages that start the first of them.
proof fn lemma_listen_places(servers: Seq<ServerKind>, count: int)
    requires
        0 <= count <= servers.len(),
    ensures
        listen(servers.take(count)).len() == count + secured(servers.take(count)),
        forall|i: int|
            0 <= i < count ==> {
                let place = i + secured(#[trigger] servers.take(i + 1));
                let stages = listen(servers.take(count));
                &&& 0 <= place < stages.len()
                &&& stages[place] == Stage::Listen(i as usize)
                &&& servers[i] != ServerKind::Plain ==> place > 0 && stages[place - 1]
                    == Stage::EnsureCryptoProvider
                &&& servers[i] == ServerKind::Plain && place > 0 ==> stages[place - 1]
                    != Stage::EnsureCryptoProvider
            },
    decreases count,
{
    if count == 0 {
        reveal(Seq::filter);
        assert(servers.take(0).len() == 0);
    } else {
        let part = servers.take(count);
        let stages = listen(part);
        let init = listen(servers.take(count - 1));
        assert(part.drop_last() == servers.take(count - 1));
        assert(part.last() == servers[count - 1]);
        lemma_listen_places(servers, count - 1);
        lemma_secured_push(servers, count - 1);
        assert(servers.take(count - 1 + 1) == part);
        assert forall|i: int| 0 <= i < count implies {
            let place = i + secured(#[trigger] servers.take(i + 1));
            &&& 0 <= place < stages.len()
            &&& stages[place] == Stage::Listen(i as usize)
            &&& servers[i] != ServerKind::Plain ==> place > 0 && stages[place - 1]
                == Stage::EnsureCryptoProvider
            &&& servers[i] == ServerKind::Plain && place > 0 ==> stages[place - 1]
                != Stage::EnsureCryptoProvider
        } by {
            let place = i + secured(servers.take(i + 1));
            if i < count - 1 {
                assert(stages[place] == init[place]);
                if place > 0 {
                    assert(stages[place - 1] == init[place - 1]);
                }
            } else if servers[i] == ServerKind::Plain && place > 0 {
                assert(count > 1);
                let last = count - 2 + secured(servers.take(count - 2 + 1));
                assert(servers.take(count - 2 + 1) == servers.take(count - 1));
                assert(init[last] == Stage::Listen((count - 2) as usize));
                assert(stages[place - 1] == init[last]);
            }
        }
    }
}

/// Number of background service tasks to spawn.
pub open spec fn to_spawn<P>(state: HandleState<P>) -> int {
    (if state.signal_handler {
        0int
    } else {
        1int
    }) + (if state.service_watchdog {
        0int
    } else {
        1int
    })
}

/// Number of stages of a startup in which nothing fails: background service tasks, participants,
/// servers and crypto providers for them, participants again, and the announcement.
pub open spec fn startup_len<P>(state: HandleState<P>, servers: Seq<ServerKind>) -> int {
    to_spawn(state) + 2 * state.participants.len() + servers.len() + secured(servers) + 1
}

/// Length of a startup.
proof fn lemma_startup_len<P>(state: HandleState<P>, servers: Seq<ServerKind>)
    ensures
        state.start_script(servers).len() == startup_len(state, servers),
{
    assert(servers.take(servers.len() as int) == servers);
    lemma_listen_places(servers, servers.len() as int);
    assert(prepare(state.signal_handler, state.service_watchdog).len() == to_spawn(state));
}

/// Startup in which nothing fails spawns background service tasks that are not running, then calls
/// every participant in registration order, then starts every server in the given order, then
/// calls every participant in registration order again, then announces that the service is ready,
/// and performs nothing else. Right before a server is started, a crypto provider is put in place
/// if and only if the server is not a plain one.
pub proof fn lemma_startup_stages<P>(
    state: HandleState<P>,
    servers: Seq<ServerKind>,
    outcomes: Seq<Outcome>,
)
    requires
        servers.len() <= usize::MAX,
        forall|i: int| 0 <= i < outcomes.len() ==> !(#[trigger] outcomes[i] is Failed),
        outcomes.len() == startup_len(state, servers),
    ensures
        end_state(state.starting(servers), outcomes).current() is None,
        end_state(state.starting(servers), outcomes).error is None,
        ({
            let stages = trace(state.starting(servers), outcomes);
            let count = state.participants.len();
            let first = to_spawn(state);
            let middle = first + count;
            let last = middle + servers.len() + secured(servers);
            &&& stages.len() == outcomes.len()
            &&& !state.signal_handler ==> stages[0] == Stage::SpawnSignalHandler
            &&& !state.service_watchdog ==> stages[first - 1] == Stage::SpawnWatchdog
            &&& forall|k: int|
                first <= k < middle ==> #[trigger] stages[k] == Stage::PreListen(
                    (k - first) as usize,
                )
            &&& forall|i: int|
                0 <= i < servers.len() ==> {
                    let place = middle + i + secured(#[trigger] servers.take(i + 1));
                    &&& stages[place] == Stage::Listen(i as usize)
                    &&& servers[i] != ServerKind::Plain ==> stages[place - 1]
                        == Stage::EnsureCryptoProvider
                    &&& servers[i] == ServerKind::Plain && place > 0 ==> stages[place - 1]
                        != Stage::EnsureCryptoProvider
                }
            &&& forall|k: int|
                last <= k < last + count ==> #[trigger] stages[k] == Stage::PostListen(
                    (k - last) as usize,
                )
            &&& stages[last + count] == Stage::AnnounceReady
        }),
{
    let script = state.start_script(servers);
    let count = state.participants.len();
    let first = to_spawn(state);
    let middle = first + count;
    let last = middle + servers.len() + secured(servers);
    assert(servers.take(servers.len() as int) == servers);
    lemma_listen_places(servers, servers.len() as int);
    let ready = prepare(state.signal_handler, state.service_watchdog);
    assert(ready.len() == first);
    assert(script.len() == outcomes.len());
    lemma_start(state, servers, outcomes);
    assert forall|i: int| 0 <= i < servers.len() implies {
        let place = middle + i + secured(#[trigger] servers.take(i + 1));
        &&& script[place] == Stage::Listen(i as usize)
        &&& servers[i] != ServerKind::Plain ==> script[place - 1] == Stage::EnsureCryptoProvider
        &&& servers[i] == ServerKind::Plain && place > 0 ==> script[place - 1]
            != Stage::EnsureCryptoProvider
    } by {
        let inner = i + secured(servers.take(i + 1));
        assert(script[middle + inner] == listen(servers)[inner]);
        if inner > 0 {
            assert(script[middle + inner - 1] == listen(servers)[inner - 1]);
        }
    }
}

/// Servers are started after every participant was called for the first time, and before any of
/// them is called for the second time.
pub proof fn lemma_servers_between_hooks<P>(
    state: HandleState<P>,
    servers: Seq<ServerKind>,
    outcomes: Seq<Outcome>,
    k: int,
)
    requires
        servers.len() <= usize::MAX,
        forall|i: int| 0 <= i < outcomes.len() ==> !(#[trigger] outcomes[i] is Failed),
        outcomes.len() == startup_len(state, servers),
        0 <= k < outcomes.len(),
    ensures
        ({
            let stage = trace(state.starting(servers), outcomes)[k];
            let middle = to_spawn(state) + state.participants.len();
            let last = middle + servers.len() + secured(servers);
            &&& stage is Listen || stage is EnsureCryptoProvider <==> middle <= k < last
            &&& stage is PreListen <==> to_spawn(state) <= k < middle
            &&& stage is PostListen <==> last <= k < last + state.participants.len()
            &&& stage is AnnounceReady <==> k == outcomes.len() - 1
            &&& stage is SpawnSignalHandler <==> !state.signal_handler && k == 0
        }),
{
    lemma_startup_stages(state, servers, outcomes);
    lemma_startup_len(state, servers);
    lemma_start(state, servers, outcomes);
    assert(servers.take(servers.len() as int) == servers);
    lemma_listen_places(servers, servers.len() as int);
    lemma_listen_only(servers);
    let script = state.start_script(servers);
    let middle = to_spawn(state) + state.participants.len();
    assert(prepare(state.signal_handler, state.service_watchdog).len() == to_spawn(state));
    if middle <= k < middle + listen(servers).len() {
        assert(script[k] == listen(servers)[k - middle]);
    }
}

/// Stages that start servers are of two kinds.
proof fn lemma_listen_only(servers: Seq<ServerKind>)
    ensures
        forall|k: int|
            0 <= k < listen(servers).len() ==> #[trigger] listen(servers)[k] is Listen || listen(
                servers,
            )[k] is EnsureCryptoProvider,
    decreases servers.len(),
{
    if servers.len() > 0 {
        lemma_listen_only(servers.drop_last());
    }
}

/// Shutdown hooks of participants are called around a point where servers stop: it is announced
/// first, then every participant is called in reverse registration order, then servers stop, then
/// every server task is waited for, then every participant is called in reverse registration order
/// again, and nothing else is done.
pub open spec fn hooks_around(
    stages: Seq<Stage>,
    from: int,
    count: nat,
    point: Stage,
    tasks: nat,
) -> bool {
    let stop = from + 1 + count;
    &&& stages.len() == stop + 1 + tasks + count
    &&& stages[from] == Stage::AnnounceShutdown
    &&& forall|k: int|
        from < k < stop ==> #[trigger] stages[k] == Stage::PreDrain((stop - 1 - k) as usize)
    &&& stages[stop] == point
    &&& forall|k: int|
        stop < k <= stop + tasks ==> #[trigger] stages[k] == if point is DrainServers {
            Stage::CollectServer
        } else {
            Stage::JoinServer((k - stop - 1) as usize)
        }
    &&& forall|k: int|
        stop + tasks < k < stages.len() ==> #[trigger] stages[k] == Stage::PostDrain(
            (stages.len() - 1 - k) as usize,
        )
}

/// Stages around a point where servers stop, after some other ones.
proof fn lemma_hooks_around(first: Seq<Stage>, point: Stage, count: nat, tasks: nat)
    requires
        point is DrainServers || point is CloseServers,
    ensures
        hooks_around(
            first + stop_around(point, count, tasks),
            first.len() as int,
            count,
            point,
            tasks,
        ),
{
    let inner = stop_around(point, count, tasks);
    let stages = first + inner;
    let from = first.len() as int;
    let stop = from + 1 + count;
    let parts = seq![Stage::AnnounceShutdown] + pre_drain(count) + seq![point] + collect(
        point,
        tasks,
    ) + post_drain(count);
    assert(inner == parts);
    assert(stages[from] == parts[0]);
    assert forall|k: int| from < k < stop implies #[trigger] stages[k] == Stage::PreDrain(
        (stop - 1 - k) as usize,
    ) by {
        assert(stages[k] == pre_drain(count)[k - from - 1]);
    }
    assert forall|k: int| stop < k <= stop + tasks implies #[trigger] stages[k]
        == if point is DrainServers {
        Stage::CollectServer
    } else {
        Stage::JoinServer((k - stop - 1) as usize)
    } by {
        assert(stages[k] == collect(point, tasks)[k - stop - 1]);
    }
    assert forall|k: int| stop + tasks < k < stages.len() implies #[trigger] stages[k]
        == Stage::PostDrain((stages.len() - 1 - k) as usize) by {
        assert(stages[k] == post_drain(count)[k - stop - 1 - tasks]);
    }
}

/// Server tasks that are left to wait for, once one of them has exited, or shutdown was requested.
pub open spec fn tasks_left(tasks: nat, woken: Outcome) -> nat {
    match woken {
        Outcome::ShutdownRequested => tasks,
        _ => (tasks - 1) as nat,
    }
}

/// Number of stages before shutdown is announced: servers are waited for, and if one of them has
/// exited, the shutdown trigger is cancelled.
pub open spec fn stages_before(woken: Outcome) -> int {
    match woken {
        Outcome::ShutdownRequested => 1,
        _ => 2,
    }
}

/// Waiting for shutdown, with any number of participants and at least one server task: whatever it
/// was woken up by and whichever way later stages go, shutdown hooks are called around the drain
/// of servers, which have exactly the given time for it. The shutdown trigger is cancelled if
/// shutdown was not requested by it. Every server task that has not exited yet is waited for.
pub proof fn lemma_wait_stages<P>(
    state: HandleState<P>,
    graceful: Option<Duration>,
    outcomes: Seq<Outcome>,
)
    requires
        state.server_tasks.len() > 0,
        outcomes.len() > 0,
        outcomes.len() == stages_before(outcomes[0]) + 2 + 2 * state.participants.len()
            + tasks_left(state.server_tasks.len(), outcomes[0]),
    ensures
        ({
            let begun = (HandleState { graceful, ..state }).waiting(Seq::empty());
            let stages = trace(begun, outcomes);
            let end = end_state(begun, outcomes);
            let from = stages_before(outcomes[0]);
            &&& stages[0] == Stage::AwaitShutdown
            &&& !(outcomes[0] is ShutdownRequested) ==> stages[1] == Stage::CancelTrigger
            &&& hooks_around(
                stages,
                from,
                state.participants.len(),
                Stage::DrainServers(graceful),
                tasks_left(state.server_tasks.len(), outcomes[0]),
            )
            &&& stages.len() == outcomes.len()
            &&& end.current() is None
            &&& end.server_tasks.len() == 0
            &&& end.consumed
        }),
{
    let woken = outcomes[0];
    let rest = outcomes.skip(1);
    let exited = !(woken is ShutdownRequested);
    let count = state.participants.len();
    let left = tasks_left(state.server_tasks.len(), woken);
    let point = Stage::DrainServers(graceful);
    let first = seq![Stage::AwaitShutdown] + only_if(exited, Stage::CancelTrigger);
    assert(seq![woken] + rest == outcomes);
    lemma_hooks_around(first, point, count, left);
    assert(first + stop_around(point, count, left) == seq![Stage::AwaitShutdown] + (only_if(
        exited,
        Stage::CancelTrigger,
    ) + stop_around(point, count, left)));
    lemma_wait(state, graceful, woken, rest);
}

/// Graceful shutdown cancels the shutdown trigger, and then performs the same stages as waiting for
/// shutdown does.
pub proof fn lemma_graceful_stages<P>(
    state: HandleState<P>,
    graceful: Option<Duration>,
    cancelled: Outcome,
    outcomes: Seq<Outcome>,
)
    requires
        state.server_tasks.len() > 0,
        outcomes.len() > 0,
        outcomes.len() == stages_before(outcomes[0]) + 2 + 2 * state.participants.len()
            + tasks_left(state.server_tasks.len(), outcomes[0]),
    ensures
        ({
            let waiting = (HandleState { graceful, ..state }).waiting(Seq::empty());
            let begun = (HandleState { graceful, ..state }).waiting(seq![Stage::CancelTrigger]);
            let stages = trace(begun, seq![cancelled] + outcomes);
            &&& stages[0] == Stage::CancelTrigger
            &&& stages.skip(1) == trace(waiting, outcomes)
            &&& stages.len() == outcomes.len() + 1
            &&& end_state(begun, seq![cancelled] + outcomes) == end_state(waiting, outcomes)
        }),
{
    let woken = outcomes[0];
    let rest = outcomes.skip(1);
    assert(seq![woken] + rest == outcomes);
    lemma_wait_stages(state, graceful, outcomes);
    lemma_hooks_around(
        only_if(!(woken is ShutdownRequested), Stage::CancelTrigger),
        Stage::DrainServers(graceful),
        state.participants.len(),
        tasks_left(state.server_tasks.len(), woken),
    );
    lemma_graceful_shutdown(state, graceful, cancelled, woken, rest);
    let waiting = (HandleState { graceful, ..state }).waiting(Seq::empty());
    assert((seq![Stage::CancelTrigger] + trace(waiting, outcomes)).skip(1) == trace(
        waiting,
        outcomes,
    ));
}

/// A run in which startup does not fail performs the stages of that startup, and then those of
/// waiting for shutdown, with every server task that there was before and that was started.
pub proof fn lemma_run_stages<P>(
    state: HandleState<P>,
    servers: Seq<ServerKind>,
    graceful: Option<Duration>,
    starting: Seq<Outcome>,
    outcomes: Seq<Outcome>,
)
    requires
        servers.len() <= usize::MAX,
        forall|i: int| 0 <= i < starting.len() ==> !(#[trigger] starting[i] is Failed),
        starting.len() == startup_len(state, servers),
        state.server_tasks.len() + servers.len() > 0,
        outcomes.len() > 0,
        outcomes.len() == stages_before(outcomes[0]) + 2 + 2 * state.participants.len()
            + tasks_left(state.server_tasks.len() + servers.len(), outcomes[0]),
    ensures
        ({
            let begun = state.running(servers, graceful);
            let stages = trace(begun, starting + outcomes);
            let rest = stages.skip(starting.len() as int);
            let end = end_state(begun, starting + outcomes);
            &&& stages.take(starting.len() as int) == trace(state.starting(servers), starting)
            &&& rest[0] == Stage::AwaitShutdown
            &&& !(outcomes[0] is ShutdownRequested) ==> rest[1] == Stage::CancelTrigger
            &&& hooks_around(
                rest,
                stages_before(outcomes[0]),
                state.participants.len(),
                Stage::DrainServers(graceful),
                tasks_left(state.server_tasks.len() + servers.len(), outcomes[0]),
            )
            &&& end.current() is None
            &&& end.server_tasks.len() == 0
            &&& end.consumed
        }),
{
    lemma_startup_stages(state, servers, starting);
    lemma_startup_len(state, servers);
    lemma_start(state, servers, starting);
    lemma_run(state, servers, graceful, starting, outcomes);
    lemma_kept_by_run(state.starting(servers), starting);
    let up = end_state(state.starting(servers), starting);
    lemma_wait_stages(up, graceful, outcomes);
    let stages = trace(state.running(servers, graceful), starting + outcomes);
    let tail = trace((HandleState { graceful, ..up }).waiting(Seq::empty()), outcomes);
    assert(stages == trace(state.starting(servers), starting) + tail);
    assert(stages.take(starting.len() as int) == trace(state.starting(servers), starting));
    assert(stages.skip(starting.len() as int) == tail);
}

/// Whatever a run was woken up by, and with any number of participants, none included, servers are
/// drained exactly once, with the time that was given. Nothing that waits for shutdown ever closes
/// connections, or aborts server tasks.
pub proof fn lemma_drained_once<P>(
    state: HandleState<P>,
    graceful: Option<Duration>,
    outcomes: Seq<Outcome>,
    k: int,
)
    requires
        state.server_tasks.len() > 0,
        outcomes.len() > 0,
        outcomes.len() == stages_before(outcomes[0]) + 2 + 2 * state.participants.len()
            + tasks_left(state.server_tasks.len(), outcomes[0]),
        0 <= k < outcomes.len(),
    ensures
        ({
            let begun = (HandleState { graceful, ..state }).waiting(Seq::empty());
            let stages = trace(begun, outcomes);
            let stop = stages_before(outcomes[0]) + 1 + state.participants.len();
            &&& stages[k] == Stage::DrainServers(graceful) <==> k == stop
            &&& stages[k] is DrainServers <==> k == stop
            &&& !(stages[k] is CloseServers)
            &&& !(stages[k] is AbortServers)
            &&& stages[k] is CollectServer ==> k > stop
            &&& stages[k] is PreDrain ==> k < stop
            &&& stages[k] is PostDrain ==> forall|j: int|
                0 <= j < stages.len() && #[trigger] stages[j] is CollectServer ==> j < k
        }),
{
    lemma_wait_stages(state, graceful, outcomes);
}

/// Immediate shutdown, unless server tasks were already consumed, cancels the shutdown trigger, and
/// calls shutdown hooks around the point where servers close all connections, whichever way its
/// stages go. Every server task is waited for, in the order in which they were started. Servers are
/// not drained.
pub proof fn lemma_shutdown_stages<P>(state: HandleState<P>, outcomes: Seq<Outcome>)
    requires
        !state.consumed,
        outcomes.len() == 3 + 2 * state.participants.len() + state.server_tasks.len(),
    ensures
        ({
            let stages = trace(state.shutting_down(), outcomes);
            let end = end_state(state.shutting_down(), outcomes);
            &&& stages[0] == Stage::CancelTrigger
            &&& hooks_around(
                stages,
                1,
                state.participants.len(),
                Stage::CloseServers,
                state.server_tasks.len(),
            )
            &&& end.current() is None
            &&& end.server_tasks.len() == 0
            &&& end.consumed <==> state.server_tasks.len() > 0
        }),
{
    lemma_hooks_around(
        seq![Stage::CancelTrigger],
        Stage::CloseServers,
        state.participants.len(),
        state.server_tasks.len(),
    );
    lemma_shutdown(state, outcomes);
}

/// A stage that waits for server tasks.
pub open spec fn awaits(stage: Stage) -> bool {
    stage is AwaitShutdown || stage is CollectServer || stage is JoinServer
}

/// First error, by its place.
proof fn lemma_first_error(outcomes: Seq<Outcome>, index: int, err: HandleError)
    ensures
        (forall|i: int| 0 <= i < outcomes.len() ==> !(#[trigger] outcomes[i] is Failed))
            ==> first_error(outcomes) is None,
        0 <= index < outcomes.len() && outcomes[index] == Outcome::Failed(err) && (forall|i: int|
            0 <= i < index ==> !(#[trigger] outcomes[i] is Failed)) ==> first_error(outcomes)
            == Some(err),
    decreases outcomes.len(),
{
    if outcomes.len() > 0 {
        let rest = outcomes.skip(1);
        lemma_first_error(rest, index - 1, err);
        if !(outcomes[0] is Failed) {
            assert forall|i: int| 0 <= i < rest.len() implies #[trigger] rest[i] == outcomes[i
                + 1] by {}
        }
    }
}

/// Waiting for shutdown results in the error of the first server task that has exited with one, in
/// the order in which they were waited for, and in no error if there was none. Errors of
/// participants do not count.
pub proof fn lemma_wait_error<P>(
    state: HandleState<P>,
    graceful: Option<Duration>,
    outcomes: Seq<Outcome>,
    index: int,
    err: HandleError,
)
    requires
        state.server_tasks.len() > 0,
        outcomes.len() > 0,
        outcomes.len() == stages_before(outcomes[0]) + 2 + 2 * state.participants.len()
            + tasks_left(state.server_tasks.len(), outcomes[0]),
    ensures
        ({
            let begun = (HandleState { graceful, ..state }).waiting(Seq::empty());
            let stages = trace(begun, outcomes);
            let end = end_state(begun, outcomes);
            &&& (forall|i: int|
                0 <= i < outcomes.len() && awaits(stages[i]) ==> !(
                #[trigger] outcomes[i] is Failed)) ==> end.error is None
            &&& 0 <= index < outcomes.len() && awaits(stages[index]) && outcomes[index]
                == Outcome::Failed(err) && (forall|i: int|
                0 <= i < index && awaits(stages[i]) ==> !(#[trigger] outcomes[i] is Failed))
                ==> end.error == Some(err)
        }),
{
    let woken = outcomes[0];
    let rest = outcomes.skip(1);
    let count = state.participants.len();
    let left = tasks_left(state.server_tasks.len(), woken);
    let exited = !(woken is ShutdownRequested);
    assert(seq![woken] + rest == outcomes);
    lemma_wait_stages(state, graceful, outcomes);
    lemma_hooks_around(
        only_if(exited, Stage::CancelTrigger),
        Stage::DrainServers(graceful),
        count,
        left,
    );
    lemma_wait(state, graceful, woken, rest);
    let begun = (HandleState { graceful, ..state }).waiting(Seq::empty());
    let stages = trace(begun, outcomes);
    let stop = stages_before(woken) + 1 + count;
    let after = exits(only_if(exited, Stage::CancelTrigger).len(), count, left, rest);
    let all = seq![woken] + after;
    assert forall|i: int| 0 < i < all.len() implies #[trigger] all[i] == outcomes[stop + i] by {}
    assert(awaits(stages[0]));
    assert forall|k: int| stop < k <= stop + left implies awaits(#[trigger] stages[k]) by {}
    lemma_first_error(
        all,
        if index == 0 {
            0
        } else {
            index - stop
        },
        err,
    );
}

/// Immediate shutdown results in the error of the first server task that has exited with one, in
/// the order in which they were started, and in no error if there was none. Errors of participants
/// do not count.
pub proof fn lemma_shutdown_error<P>(
    state: HandleState<P>,
    outcomes: Seq<Outcome>,
    index: int,
    err: HandleError,
)
    requires
        !state.consumed,
        outcomes.len() == 3 + 2 * state.participants.len() + state.server_tasks.len(),
    ensures
        ({
            let stages = trace(state.shutting_down(), outcomes);
            let end = end_state(state.shutting_down(), outcomes);
            &&& (forall|i: int|
                0 <= i < outcomes.len() && awaits(stages[i]) ==> !(
                #[trigger] outcomes[i] is Failed)) ==> end.error is None
            &&& 0 <= index < outcomes.len() && awaits(stages[index]) && outcomes[index]
                == Outcome::Failed(err) && (forall|i: int|
                0 <= i < index && awaits(stages[i]) ==> !(#[trigger] outcomes[i] is Failed))
                ==> end.error == Some(err)
        }),
{
    let count = state.participants.len();
    let tasks = state.server_tasks.len();
    lemma_shutdown_stages(state, outcomes);
    lemma_hooks_around(seq![Stage::CancelTrigger], Stage::CloseServers, count, tasks);
    lemma_shutdown(state, outcomes);
    let stages = trace(state.shutting_down(), outcomes);
    let stop = 2 + count;
    let all = exits(1, count, tasks, outcomes);
    assert forall|i: int| 0 <= i < all.len() implies #[trigger] all[i] == outcomes[stop + 1 + i] by {}
    assert forall|k: int| stop < k <= stop + tasks implies awaits(#[trigger] stages[k]) by {}
    lemma_first_error(all, index - stop - 1, err);
}

/// Number of participants that are shut down when a stage of startup fails.
pub open spec fn to_undo(failed: Stage, count: nat) -> nat {
    match failed {
        Stage::PreListen(index) => index as nat,
        Stage::Listen(_) | Stage::PostListen(_) => count,
        _ => 0,
    }
}

/// Number of other stages that are performed when a stage of startup fails.
pub open spec fn notices(failed: Stage) -> int {
    match failed {
        Stage::SpawnSignalHandler | Stage::Listen(_) => 1,
        Stage::PostListen(_) => 2,
        _ => 0,
    }
}

/// Where stages stand that are performed when a stage of startup fails.
proof fn lemma_recovery_places(failed: Stage, count: nat)
    requires
        failed is SpawnSignalHandler || failed is PreListen || failed is Listen
            || failed is PostListen,
    ensures
        recovery(failed, count) is Some,
        ({
            let undo = recovery(failed, count)->0;
            let from = notices(failed);
            let number = to_undo(failed, count);
            &&& undo.len() == from + 2 * number
            &&& failed is SpawnSignalHandler || failed is Listen ==> undo[0] == Stage::ReportFailure
            &&& failed is PostListen ==> undo[0] == Stage::AnnounceShutdown && undo[1]
                == Stage::AbortServers
            &&& forall|k: int|
                from <= k < from + number ==> #[trigger] undo[k] == Stage::PreDrain(
                    (from + number - 1 - k) as usize,
                )
            &&& forall|k: int|
                from + number <= k < undo.len() ==> #[trigger] undo[k] == Stage::PostDrain(
                    (undo.len() - 1 - k) as usize,
                )
        }),
{
    let undo = recovery(failed, count)->0;
    let from = notices(failed);
    let number = to_undo(failed, count);
    assert forall|k: int| from <= k < from + number implies #[trigger] undo[k] == Stage::PreDrain(
        (from + number - 1 - k) as usize,
    ) by {
        assert(undo[k] == pre_drain(number)[k - from]);
    }
    assert forall|k: int| from + number <= k < undo.len() implies #[trigger] undo[k]
        == Stage::PostDrain((undo.len() - 1 - k) as usize) by {
        assert(undo[k] == post_drain(number)[k - from - number]);
    }
}

/// When the signal handler, a participant or a server fails to start, stages up to that one are
/// the same as if nothing had failed. After it participants that were started before are shut
/// down, by both of their hooks, in reverse registration order. Failure of the signal handler or of
/// a server is reported before that. When it is a participant that fails while servers are
/// listening, shutdown is announced, and servers are aborted, before that. Nothing else is done,
/// and the result is the error.
pub proof fn lemma_failed_startup_stages<P>(
    state: HandleState<P>,
    servers: Seq<ServerKind>,
    whole: Seq<Outcome>,
    place: int,
    err: HandleError,
    after: Seq<Outcome>,
)
    requires
        servers.len() <= usize::MAX,
        state.participants.len() <= usize::MAX,
        forall|i: int| 0 <= i < whole.len() ==> !(#[trigger] whole[i] is Failed),
        whole.len() == startup_len(state, servers),
        0 <= place < whole.len(),
        ({
            let failed = trace(state.starting(servers), whole)[place];
            &&& failed is SpawnSignalHandler || failed is PreListen || failed is Listen
                || failed is PostListen
            &&& after.len() == notices(failed) + 2 * to_undo(failed, state.participants.len())
        }),
    ensures
        ({
            let begun = state.starting(servers);
            let failed = trace(begun, whole)[place];
            let outcomes = whole.take(place) + seq![Outcome::Failed(err)] + after;
            let stages = trace(begun, outcomes);
            let end = end_state(begun, outcomes);
            let from = place + 1 + notices(failed);
            let count = to_undo(failed, state.participants.len());
            &&& stages.len() == outcomes.len()
            &&& stages.take(place + 1) == trace(begun, whole).take(place + 1)
            &&& failed is SpawnSignalHandler || failed is Listen ==> stages[place + 1]
                == Stage::ReportFailure
            &&& failed is PostListen ==> stages[place + 1] == Stage::AnnounceShutdown
                && stages[place + 2] == Stage::AbortServers
            &&& forall|k: int|
                from <= k < from + count ==> #[trigger] stages[k] == Stage::PreDrain(
                    (from + count - 1 - k) as usize,
                )
            &&& forall|k: int|
                from + count <= k < stages.len() ==> #[trigger] stages[k] == Stage::PostDrain(
                    (stages.len() - 1 - k) as usize,
                )
            &&& end.current() is None
            &&& end.error == Some(err)
        }),
{
    let begun = state.starting(servers);
    let script = state.start_script(servers);
    let count = state.participants.len();
    let before = whole.take(place);
    let outcomes = before + seq![Outcome::Failed(err)] + after;
    lemma_startup_len(state, servers);
    lemma_start(state, servers, whole);
    lemma_start_script(state, servers);
    let failed = script[place];
    let undo = recovery(failed, count)->0;
    lemma_recovery_places(failed, count);
    assert forall|i: int| 0 <= i < before.len() implies !(#[trigger] before[i] is Failed) by {
        assert(before[i] == whole[i]);
    }
    lemma_failure(begun, before, err, after);
    let stages = trace(begun, outcomes);
    let head = script.take(place).push(failed);
    assert(stages == head + undo);
    assert(head == script.take(place + 1));
    assert(stages.take(place + 1) == head);
    assert forall|k: int| place < k < stages.len() implies #[trigger] stages[k] == undo[k - place
        - 1] by {}
}

/// Whatever is performed, and whichever way it goes, participants, tokens and names stay. A
/// background service task counts as running once it was spawned. A server task is added if and
/// only if its server was started.
pub proof fn lemma_step<P>(state: HandleState<P>, outcome: Outcome)
    ensures
        ({
            let next = state.after(outcome);
            let failed = outcome is Failed;
            let stage = state.script[state.position as int];
            let performed = state.position < state.script.len();
            &&& next.participants == state.participants
            &&& next.token == state.token
            &&& next.shutdown_trigger == state.shutdown_trigger
            &&& next.app_name == state.app_name
            &&& next.app_version == state.app_version
            &&& next.graceful == state.graceful
            &&& next.servers == state.servers
            &&& next.signal_handler <==> state.signal_handler || performed
                && stage is SpawnSignalHandler && !failed
            &&& next.service_watchdog <==> state.service_watchdog || performed
                && stage is SpawnWatchdog && !failed
            &&& !performed ==> next == state
            &&& performed && !state.wait_next ==> next.server_tasks == match stage {
                Stage::Listen(server) if !failed => state.server_tasks.push(
                    state.servers[server as int],
                ),
                Stage::PostListen(_) if failed => Seq::empty(),
                _ => state.server_tasks,
            }
            &&& performed && !state.wait_next ==> (next.consumed <==> match stage {
                Stage::Listen(_) if !failed => false,
                Stage::PostListen(_) if failed => state.consumed || state.server_tasks.len() > 0,
                _ => state.consumed,
            })
        }),
{
}

/// A stage that did not fail is followed by the next one of the same run, and so is one that cannot
/// fail a run: everything apart from the signal handler, participants and servers of a startup. What
/// waits for shutdown is the exception, since it decides how the run goes on. Only server tasks that
/// are waited for leave an error behind, and only the first of them does.
pub proof fn lemma_goes_on<P>(state: HandleState<P>, outcome: Outcome)
    requires
        !state.wait_next,
        state.position < state.script.len(),
        ({
            let stage = state.script[state.position as int];
            &&& !(stage is AwaitShutdown)
            &&& outcome is Failed ==> !(stage is SpawnSignalHandler) && !(stage is PreListen) && !(
            stage is Listen) && !(stage is PostListen)
        }),
    ensures
        ({
            let next = state.after(outcome);
            let stage = state.script[state.position as int];
            &&& next.script == state.script
            &&& next.position == state.position + 1
            &&& !next.wait_next
            &&& !awaits(stage) || state.error is Some || !(outcome is Failed) ==> next.error
                == state.error
            &&& awaits(stage) && state.error is None ==> match outcome {
                Outcome::Failed(err) => next.error == Some(err),
                _ => next.error is None,
            }
        }),
{
}

/// Over a whole run, whichever way it goes, participants, tokens and names stay.
pub proof fn lemma_kept_by_run<P>(state: HandleState<P>, outcomes: Seq<Outcome>)
    ensures
        ({
            let end = end_state(state, outcomes);
            &&& end.participants == state.participants
            &&& end.token == state.token
            &&& end.shutdown_trigger == state.shutdown_trigger
            &&& end.app_name == state.app_name
            &&& end.app_version == state.app_version
            &&& state.signal_handler ==> end.signal_handler
            &&& state.service_watchdog ==> end.service_watchdog
        }),
    decreases outcomes.len(),
{
    if outcomes.len() > 0 {
        lemma_step(state, outcomes[0]);
        lemma_kept_by_run(state.after(outcomes[0]), outcomes.skip(1));
    }
}

/// Beginning any run keeps participants, tokens, names and background service tasks. Startup also
/// keeps server tasks, and everything that stops the service takes them over.
pub proof fn lemma_kept_by_begin<P>(
    state: HandleState<P>,
    servers: Seq<ServerKind>,
    graceful: Option<Duration>,
    first: Seq<Stage>,
)
    ensures
        forall|begun: HandleState<P>|
            begun == state.starting(servers) || begun == state.running(servers, graceful) || begun
                == state.waiting(first) || begun == state.shutting_down() || begun
                == state.aborting() ==> {
                &&& #[trigger] begun.participants == state.participants
                &&& begun.token == state.token
                &&& begun.shutdown_trigger == state.shutdown_trigger
                &&& begun.app_name == state.app_name
                &&& begun.app_version == state.app_version
                &&& begun.signal_handler == state.signal_handler
                &&& begun.service_watchdog == state.service_watchdog
            },
        state.starting(servers).server_tasks == state.server_tasks,
        state.running(servers, graceful).server_tasks == state.server_tasks,
        state.waiting(first).server_tasks.len() == 0,
        state.aborting().server_tasks.len() == 0,
        !state.consumed ==> state.shutting_down().server_tasks.len() == 0,
        state.server_tasks.len() > 0 ==> state.waiting(first).consumed && state.aborting().consumed,
        !state.starting(servers).consumed,
{
}

/// A new handle has no participants and no server tasks, and nothing to perform. Background service
/// tasks are spawned by its first startup, waiting for shutdown fails, and immediate shutdown is
/// not skipped.
pub proof fn lemma_new_handle<P>(
    token: CancellationToken,
    shutdown_trigger: CancellationToken,
    app_name: Option<Seq<char>>,
    app_version: Option<Seq<char>>,
    servers: Seq<ServerKind>,
)
    ensures
        ({
            let new = HandleState::<P>::initial(token, shutdown_trigger, app_name, app_version);
            &&& new.token == token
            &&& new.shutdown_trigger == shutdown_trigger
            &&& new.app_name == app_name
            &&& new.app_version == app_version
            &&& new.participants.len() == 0
            &&& new.server_tasks.len() == 0
            &&& new.current() is None
            &&& new.error is None
            &&& to_spawn(new) == 2
            &&& !new.consumed
            &&& !new.wait_next
        }),
{
}

} // verus!
