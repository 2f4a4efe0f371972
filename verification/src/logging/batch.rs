//! Batching of log messages on their way to a remote HTTP collector.
//!
//! The sender task waits for one of four things to happen, and [`HttpLoggerTask`] decides what
//! has to be sent then. Nothing here waits or sends by itself.

use vstd::prelude::*;
#[allow(unused_imports)]
use vstd::seq_lib::lemma_flatten_concat;

verus! {

/// Type which inhabits HTTP log queue.
pub enum HttpLog {
    /// Flush accumulated buffer.
    Flush,
    /// Send log message to buffer.
    Message {
        /// Raw (albeit formatted) log message data.
        data: Vec<u8>,
    },
}

/// What the sender task was woken up by.
pub enum LogEvent {
    /// Termination of the task was signalled.
    Cancelled,
    /// Period of the forced flush has elapsed.
    Tick,
    /// An item was taken from the queue.
    Received(HttpLog),
    /// The queue is closed, and there is nothing left in it.
    Closed,
}

/// What the sender task has to do next.
pub enum LogAction {
    /// Wait for the next event.
    Wait,
    /// Send these messages in a single request, then wait for the next event.
    Send {
        /// Messages to send.
        batch: Vec<Vec<u8>>,
    },
    /// Stop waiting, and send what is left.
    Stop,
}

/// State of the task that collects, batches and forwards logs to a remote collector.
pub struct HttpLoggerTask {
    /// Messages that were received, but not sent yet.
    buffered: Vec<Vec<u8>>,
    /// Max count of log messages to batch together and send in a single request.
    max_batch_size: usize,
    /// Do not initiate new HTTP request on receiving flush operation.
    ignore_flush: bool,
}

/// Mathematical model of [`HttpLoggerTask`].
#[verifier::ext_equal]
pub struct LoggerState {
    /// Messages that were received, but not sent yet, oldest first.
    pub buffered: Seq<Vec<u8>>,
    /// Max count of messages in a batch.
    pub max_batch_size: nat,
    /// Flush requests have no effect.
    pub ignore_flush: bool,
}

/// Messages that a queue item adds to the buffer.
pub open spec fn carried(item: HttpLog) -> Seq<Vec<u8>> {
    match item {
        HttpLog::Flush => Seq::empty(),
        HttpLog::Message { data } => seq![data],
    }
}

/// Messages that an event adds to the buffer.
pub open spec fn event_carried(event: LogEvent) -> Seq<Vec<u8>> {
    match event {
        LogEvent::Received(item) => carried(item),
        _ => Seq::empty(),
    }
}

/// All messages of a sequence of queue items, in order.
pub open spec fn all_carried(items: Seq<HttpLog>) -> Seq<Vec<u8>>
    decreases items.len(),
{
    if items.len() == 0 {
        Seq::empty()
    } else {
        all_carried(items.drop_last()) + carried(items.last())
    }
}

/// All messages that were received over a sequence of events, in order.
pub open spec fn all_received(events: Seq<LogEvent>) -> Seq<Vec<u8>>
    decreases events.len(),
{
    if events.len() == 0 {
        Seq::empty()
    } else {
        all_received(events.drop_last()) + event_carried(events.last())
    }
}

/// Whether an event ends the main loop of the task.
pub open spec fn stops(event: LogEvent) -> bool {
    event is Cancelled || event is Closed
}

/// Messages cut into pieces of `size`, the last of which may be shorter.
pub open spec fn chunks(messages: Seq<Vec<u8>>, size: nat) -> Seq<Seq<Vec<u8>>>
    decreases messages.len(),
{
    if messages.len() == 0 || size == 0 {
        Seq::empty()
    } else if messages.len() <= size {
        seq![messages]
    } else {
        seq![messages.take(size as int)] + chunks(messages.skip(size as int), size)
    }
}

impl LoggerState {
    /// The buffer has room for at least one more message.
    pub open spec fn wf(self) -> bool {
        self.buffered.len() < self.max_batch_size
    }

    /// The buffer together with what the event adds to it.
    pub open spec fn pending(self, event: LogEvent) -> Seq<Vec<u8>> {
        self.buffered + event_carried(event)
    }

    /// Whether the event makes the task send everything it has.
    pub open spec fn sends(self, event: LogEvent) -> bool {
        match event {
            LogEvent::Cancelled | LogEvent::Closed => false,
            LogEvent::Tick => self.buffered.len() > 0,
            LogEvent::Received(HttpLog::Flush) => !self.ignore_flush && self.buffered.len() > 0,
            LogEvent::Received(HttpLog::Message { .. }) => self.pending(event).len()
                >= self.max_batch_size,
        }
    }

    /// The event does not make the task send a batch before it is full.
    pub open spec fn lets_fill(self, event: LogEvent) -> bool {
        match event {
            LogEvent::Tick => false,
            LogEvent::Received(HttpLog::Flush) => self.ignore_flush,
            _ => true,
        }
    }

    /// State with other messages in the buffer.
    pub open spec fn with_buffered(self, buffered: Seq<Vec<u8>>) -> LoggerState {
        LoggerState { buffered, ..self }
    }

    /// State after the event.
    pub open spec fn after(self, event: LogEvent) -> LoggerState {
        self.with_buffered(
            if self.sends(event) {
                Seq::empty()
            } else {
                self.pending(event)
            },
        )
    }

    /// Batches sent on account of the event: one or none.
    pub open spec fn batches(self, event: LogEvent) -> Seq<Seq<Vec<u8>>> {
        if self.sends(event) {
            seq![self.pending(event)]
        } else {
            Seq::empty()
        }
    }

    /// State after a sequence of events.
    pub open spec fn after_all(self, events: Seq<LogEvent>) -> LoggerState
        decreases events.len(),
    {
        if events.len() == 0 {
            self
        } else {
            self.after_all(events.drop_last()).after(events.last())
        }
    }

    /// Batches sent over a sequence of events, in order.
    pub open spec fn all_batches(self, events: Seq<LogEvent>) -> Seq<Seq<Vec<u8>>>
        decreases events.len(),
    {
        if events.len() == 0 {
            Seq::empty()
        } else {
            self.all_batches(events.drop_last()) + self.after_all(events.drop_last()).batches(
                events.last(),
            )
        }
    }

    /// Batches sent over the whole life of a task: over the events of the main loop, and after
    /// it, with the leftovers of the queue.
    pub open spec fn lifetime_batches(
        self,
        events: Seq<LogEvent>,
        leftovers: Seq<HttpLog>,
    ) -> Seq<Seq<Vec<u8>>> {
        self.all_batches(events) + chunks(
            self.after_all(events).buffered + all_carried(leftovers),
            self.max_batch_size,
        )
    }
}

impl View for HttpLoggerTask {
    type V = LoggerState;

    closed spec fn view(&self) -> LoggerState {
        LoggerState {
            buffered: self.buffered@,
            max_batch_size: self.max_batch_size as nat,
            ignore_flush: self.ignore_flush,
        }
    }
}

impl HttpLoggerTask {
    /// A batch has room for at least one message.
    #[verifier::type_invariant]
    spec fn inv(self) -> bool {
        self.max_batch_size > 0
    }

    /// Create a task with an empty buffer.
    pub fn new(max_batch_size: usize, ignore_flush: bool) -> (task: Self)
        requires
            max_batch_size > 0,
        ensures
            task@ == (LoggerState {
                buffered: Seq::empty(),
                max_batch_size: max_batch_size as nat,
                ignore_flush,
            }),
            task@.wf(),
    {
        HttpLoggerTask { buffered: Vec::new(), max_batch_size, ignore_flush }
    }

    /// Take everything out of the buffer.
    fn take_buffered(&mut self) -> (batch: Vec<Vec<u8>>)
        ensures
            batch@ == old(self)@.buffered,
            final(self)@ == old(self)@.with_buffered(Seq::empty()),
    {
        proof {
            use_type_invariant(&*self);
        }
        let mut batch: Vec<Vec<u8>> = Vec::new();
        std::mem::swap(&mut batch, &mut self.buffered);
        batch
    }

    /// Add a message to the buffer.
    fn keep(&mut self, data: Vec<u8>)
        ensures
            final(self)@ == old(self)@.with_buffered(old(self)@.buffered.push(data)),
    {
        proof {
            use_type_invariant(&*self);
        }
        let mut buffered: Vec<Vec<u8>> = self.take_buffered();
        buffered.push(data);
        self.buffered = buffered;
    }

    /// Account for an event of the main loop.
    pub fn on_event(&mut self, event: LogEvent) -> (action: LogAction)
        ensures
            final(self)@ == old(self)@.after(event),
            old(self)@.wf() ==> final(self)@.wf(),
            action is Stop <==> stops(event),
            action is Send <==> old(self)@.sends(event),
            action matches LogAction::Send { batch } ==> batch@ == old(self)@.pending(event),
            event is Tick || event == LogEvent::Received(HttpLog::Flush) && !old(
                self,
            )@.ignore_flush ==> final(self)@.buffered.len() == 0 && (action is Send <==> old(
                self,
            )@.buffered.len() > 0),
            event is Cancelled || event is Closed <==> action is Stop,
            action is Send ==> final(self)@.buffered.len() == 0 && action->batch@.len() > 0,
    {
        match event {
            LogEvent::Cancelled => LogAction::Stop,
            LogEvent::Closed => LogAction::Stop,
            LogEvent::Tick => {
                if self.buffered.len() > 0 {
                    LogAction::Send { batch: self.take_buffered() }
                } else {
                    LogAction::Wait
                }
            },
            LogEvent::Received(HttpLog::Flush) => {
                if !self.ignore_flush && self.buffered.len() > 0 {
                    LogAction::Send { batch: self.take_buffered() }
                } else {
                    LogAction::Wait
                }
            },
            LogEvent::Received(HttpLog::Message { data }) => {
                self.keep(data);
                if self.buffered.len() >= self.max_batch_size {
                    LogAction::Send { batch: self.take_buffered() }
                } else {
                    LogAction::Wait
                }
            },
        }
    }

    /// Account for an item that was left in the queue after the main loop has ended.
    pub fn on_leftover(&mut self, item: HttpLog)
        ensures
            final(self)@ == old(self)@.with_buffered(old(self)@.buffered + carried(item)),
    {
        if let HttpLog::Message { data } = item {
            self.keep(data);
        }
    }

    /// Batches to send before the task ends, in order.
    pub fn finish(self) -> (batches: Vec<Vec<Vec<u8>>>)
        ensures
            batches@.map_values(|batch: Vec<Vec<u8>>| batch@) == chunks(
                self@.buffered,
                self@.max_batch_size,
            ),
    {
        proof {
            use_type_invariant(&self);
        }
        let size: usize = self.max_batch_size;
        let mut rest: Vec<Vec<u8>> = self.buffered;
        let mut batches: Vec<Vec<Vec<u8>>> = Vec::new();
        while rest.len() > size
            invariant
                size > 0,
                batches@.map_values(|batch: Vec<Vec<u8>>| batch@) + chunks(rest@, size as nat)
                    == chunks(self@.buffered, size as nat),
            decreases rest.len(),
        {
            let ghost before = batches@.map_values(|batch: Vec<Vec<u8>>| batch@);
            let ghost whole = rest@;
            let tail: Vec<Vec<u8>> = rest.split_off(size);
            batches.push(rest);
            rest = tail;
            proof {
                assert(batches@.map_values(|batch: Vec<Vec<u8>>| batch@) == before.push(
                    whole.take(size as int),
                ));
                assert(rest@ == whole.skip(size as int));
                assert(before.push(whole.take(size as int)) + chunks(rest@, size as nat) == before
                    + (seq![whole.take(size as int)] + chunks(rest@, size as nat)));
            }
        }
        let ghost before = batches@.map_values(|batch: Vec<Vec<u8>>| batch@);
        if rest.len() > 0 {
            batches.push(rest);
            proof {
                assert(batches@.map_values(|batch: Vec<Vec<u8>>| batch@) == before + seq![rest@]);
            }
        }
        batches
    }
}

/// Concatenate the messages of a batch into a request body.
pub fn request_body(batch: &Vec<Vec<u8>>) -> (body: Vec<u8>)
    ensures
        body@ == batch@.map_values(|line: Vec<u8>| line@).flatten(),
{
    let ghost lines = batch@.map_values(|line: Vec<u8>| line@);
    let mut body: Vec<u8> = Vec::new();
    for i in 0..batch.len()
        invariant
            lines == batch@.map_values(|line: Vec<u8>| line@),
            body@ == lines.take(i as int).flatten(),
    {
        let ghost before = body@;
        body.extend_from_slice(batch[i].as_slice());
        proof {
            assert(body@ == before + lines[i as int]);
            lines.take(i as int).lemma_flatten_push(lines[i as int]);
            assert(lines.take(i as int).push(lines[i as int]) == lines.take(i + 1));
        }
    }
    proof {
        assert(lines.take(lines.len() as int) == lines);
    }
    body
}

/// Cutting messages into pieces loses none, repeats none, and keeps their order.
pub proof fn lemma_chunks_cover(messages: Seq<Vec<u8>>, size: nat)
    requires
        size > 0,
    ensures
        chunks(messages, size).flatten() == messages,
    decreases messages.len(),
{
    if messages.len() == 0 {
    } else if messages.len() <= size {
        seq![messages].lemma_flatten_one_element();
    } else {
        let head = messages.take(size as int);
        let tail = messages.skip(size as int);
        lemma_chunks_cover(tail, size);
        lemma_flatten_concat(seq![head], chunks(tail, size));
        seq![head].lemma_flatten_one_element();
        assert(head + tail == messages);
    }
}

/// A piece has at least one message, and no more than fit into a request.
pub proof fn lemma_chunks_bounded(messages: Seq<Vec<u8>>, size: nat)
    ensures
        forall|i: int|
            0 <= i < chunks(messages, size).len() ==> 0 < #[trigger] chunks(messages, size)[i].len()
                <= size,
    decreases messages.len(),
{
    if messages.len() > size > 0 {
        let tail = messages.skip(size as int);
        lemma_chunks_bounded(tail, size);
        let all = chunks(messages, size);
        assert forall|i: int| 0 <= i < all.len() implies 0 < #[trigger] all[i].len() <= size by {
            if i > 0 {
                assert(all[i] == chunks(tail, size)[i - 1]);
            }
        }
    }
}

/// Whatever happens, the buffer keeps room for one more message, and settings do not change.
pub proof fn lemma_buffer_has_room(state: LoggerState, events: Seq<LogEvent>)
    requires
        state.wf(),
    ensures
        state.after_all(events).wf(),
        state.after_all(events).max_batch_size == state.max_batch_size,
        state.after_all(events).ignore_flush == state.ignore_flush,
    decreases events.len(),
{
    if events.len() > 0 {
        lemma_buffer_has_room(state, events.drop_last());
    }
}

/// At any time, what was sent so far followed by what is in the buffer is what was received,
/// in the order in which it was received.
pub proof fn lemma_messages_conserved(state: LoggerState, events: Seq<LogEvent>)
    ensures
        state.all_batches(events).flatten() + state.after_all(events).buffered == state.buffered
            + all_received(events),
    decreases events.len(),
{
    if events.len() == 0 {
        assert(state.all_batches(events).flatten() + state.buffered == state.buffered);
    } else {
        let past = events.drop_last();
        let event = events.last();
        let before = state.after_all(past);
        lemma_messages_conserved(state, past);
        lemma_flatten_concat(state.all_batches(past), before.batches(event));
        if before.sends(event) {
            seq![before.pending(event)].lemma_flatten_one_element();
        }
        assert(before.batches(event).flatten() + before.after(event).buffered == before.pending(
            event,
        ));
        assert(state.all_batches(events).flatten() + state.after_all(events).buffered
            == state.all_batches(past).flatten() + before.pending(event));
        assert(state.all_batches(past).flatten() + before.pending(event) == (state.all_batches(
            past,
        ).flatten() + before.buffered) + event_carried(event));
        assert((state.buffered + all_received(past)) + event_carried(event) == state.buffered
            + all_received(events));
    }
}

/// Over its whole life a task that starts with an empty buffer sends every message it was given
/// exactly once, and in order.
pub proof fn lemma_all_delivered(
    state: LoggerState,
    events: Seq<LogEvent>,
    leftovers: Seq<HttpLog>,
)
    requires
        state.wf(),
        state.buffered.len() == 0,
    ensures
        state.lifetime_batches(events, leftovers).flatten() == all_received(events) + all_carried(
            leftovers,
        ),
{
    let rest = state.after_all(events).buffered + all_carried(leftovers);
    lemma_messages_conserved(state, events);
    lemma_chunks_cover(rest, state.max_batch_size);
    lemma_flatten_concat(state.all_batches(events), chunks(rest, state.max_batch_size));
    assert(state.lifetime_batches(events, leftovers).flatten() == (state.all_batches(
        events,
    ).flatten() + state.after_all(events).buffered) + all_carried(leftovers));
    assert(state.buffered + all_received(events) == all_received(events));
}

/// No request is empty, and none carries more messages than the limit allows.
pub proof fn lemma_batches_bounded(
    state: LoggerState,
    events: Seq<LogEvent>,
    leftovers: Seq<HttpLog>,
)
    requires
        state.wf(),
    ensures
        forall|i: int|
            0 <= i < state.lifetime_batches(events, leftovers).len() ==> 0
                < #[trigger] state.lifetime_batches(events, leftovers)[i].len()
                <= state.max_batch_size,
{
    let rest = state.after_all(events).buffered + all_carried(leftovers);
    lemma_sent_bounded(state, events);
    lemma_chunks_bounded(rest, state.max_batch_size);
    let sent = state.all_batches(events);
    let all = state.lifetime_batches(events, leftovers);
    assert forall|i: int| 0 <= i < all.len() implies 0 < #[trigger] all[i].len()
        <= state.max_batch_size by {
        if i < sent.len() {
            assert(all[i] == sent[i]);
        } else {
            assert(all[i] == chunks(rest, state.max_batch_size)[i - sent.len()]);
        }
    }
}

/// Batches sent from the main loop are within bounds.
proof fn lemma_sent_bounded(state: LoggerState, events: Seq<LogEvent>)
    requires
        state.wf(),
    ensures
        forall|i: int|
            0 <= i < state.all_batches(events).len() ==> 0 < #[trigger] state.all_batches(
                events,
            )[i].len() <= state.max_batch_size,
    decreases events.len(),
{
    if events.len() > 0 {
        let past = events.drop_last();
        lemma_sent_bounded(state, past);
        lemma_buffer_has_room(state, past);
        let sent = state.all_batches(past);
        let all = state.all_batches(events);
        assert forall|i: int| 0 <= i < all.len() implies 0 < #[trigger] all[i].len()
            <= state.max_batch_size by {
            if i < sent.len() {
                assert(all[i] == sent[i]);
            }
        }
    }
}

/// A task that ignores flush requests sends nothing on account of them.
pub proof fn lemma_flush_ignored(state: LoggerState)
    requires
        state.ignore_flush,
    ensures
        state.batches(LogEvent::Received(HttpLog::Flush)).len() == 0,
        state.after(LogEvent::Received(HttpLog::Flush)) == state,
{
    assert(state.buffered + Seq::<Vec<u8>>::empty() == state.buffered);
}

/// Over its whole life a task that starts with an empty buffer, ignores flush requests and sees
/// no period of the forced flush elapse sends the messages it was given in full batches, of which
/// only the last may be shorter, wherever among the messages the flush requests stand.
///
/// A task that does not ignore flush requests does the same if it gets none in its main loop.
pub proof fn lemma_batches_full(
    state: LoggerState,
    events: Seq<LogEvent>,
    leftovers: Seq<HttpLog>,
)
    requires
        state.wf(),
        state.buffered.len() == 0,
        forall|i: int| 0 <= i < events.len() ==> state.lets_fill(#[trigger] events[i]),
    ensures
        state.lifetime_batches(events, leftovers) == chunks(
            all_received(events) + all_carried(leftovers),
            state.max_batch_size,
        ),
{
    lemma_fills(state, events, all_carried(leftovers));
    assert(state.buffered + all_received(events) == all_received(events));
}

/// What is sent, followed by pieces of what is in the buffer and of what comes later, are pieces
/// of everything.
proof fn lemma_fills(state: LoggerState, events: Seq<LogEvent>, later: Seq<Vec<u8>>)
    requires
        state.wf(),
        forall|i: int| 0 <= i < events.len() ==> state.lets_fill(#[trigger] events[i]),
    ensures
        state.all_batches(events) + chunks(
            state.after_all(events).buffered + later,
            state.max_batch_size,
        ) == chunks(state.buffered + all_received(events) + later, state.max_batch_size),
    decreases events.len(),
{
    let size = state.max_batch_size;
    if events.len() == 0 {
        assert(state.buffered + all_received(events) == state.buffered);
    } else {
        let past = events.drop_last();
        let event = events.last();
        let before = state.after_all(past);
        let pending = before.pending(event);
        lemma_buffer_has_room(state, past);
        assert(state.lets_fill(events[events.len() - 1]));
        assert forall|i: int| 0 <= i < past.len() implies state.lets_fill(#[trigger] past[i]) by {
            assert(past[i] == events[i]);
        }
        lemma_fills(state, past, event_carried(event) + later);
        assert(before.buffered + (event_carried(event) + later) == pending + later);
        assert(state.buffered + all_received(past) + (event_carried(event) + later)
            == state.buffered + all_received(events) + later);
        if before.sends(event) {
            assert(Seq::<Vec<u8>>::empty() + later == later);
            if later.len() == 0 {
                assert(pending + later == pending);
            } else {
                assert((pending + later).take(size as int) == pending);
                assert((pending + later).skip(size as int) == later);
            }
            assert(before.batches(event) + chunks(later, size) == chunks(pending + later, size));
        }
        assert(state.all_batches(events) + chunks(
            state.after_all(events).buffered + later,
            size,
        ) == state.all_batches(past) + chunks(pending + later, size));
    }
}

/// When the period of the forced flush elapses, everything in the buffer is sent in one batch, and
/// the buffer is empty afterwards, however many messages there were. Nothing is sent if there were
/// none.
pub proof fn lemma_tick(state: LoggerState)
    ensures
        state.after(LogEvent::Tick).buffered.len() == 0,
        state.sends(LogEvent::Tick) <==> state.buffered.len() > 0,
        state.pending(LogEvent::Tick) == state.buffered,
        state.buffered.len() > 0 ==> state.batches(LogEvent::Tick) == seq![state.buffered],
        state.buffered.len() == 0 ==> state.batches(LogEvent::Tick).len() == 0,
{
    assert(state.buffered + Seq::<Vec<u8>>::empty() == state.buffered);
}

/// A flush request does what the period of the forced flush does, unless flush requests are
/// ignored.
pub proof fn lemma_flush(state: LoggerState)
    ensures
        ({
            let flush = LogEvent::Received(HttpLog::Flush);
            &&& !state.ignore_flush ==> state.after(flush).buffered.len() == 0
            &&& state.sends(flush) <==> !state.ignore_flush && state.buffered.len() > 0
            &&& state.pending(flush) == state.buffered
            &&& !state.ignore_flush && state.buffered.len() > 0 ==> state.batches(flush)
                == seq![state.buffered]
            &&& state.ignore_flush ==> state.after(flush).buffered == state.buffered
        }),
{
    assert(state.buffered + Seq::<Vec<u8>>::empty() == state.buffered);
}

/// A message is put behind those in the buffer. Everything is sent in one batch, and the buffer is
/// empty afterwards, if and only if that makes a full batch.
pub proof fn lemma_message(state: LoggerState, data: Vec<u8>)
    requires
        state.buffered.len() < state.max_batch_size,
    ensures
        ({
            let event = LogEvent::Received(HttpLog::Message { data });
            let all = state.buffered.push(data);
            let full = all.len() == state.max_batch_size;
            &&& state.pending(event) == all
            &&& state.sends(event) <==> full
            &&& full ==> state.after(event).buffered.len() == 0 && state.batches(event) == seq![all]
            &&& !full ==> state.after(event).buffered == all && state.batches(event).len() == 0
        }),
{
    assert(state.buffered + seq![data] == state.buffered.push(data));
}

/// A signal of termination, and a closed queue, stop the task. Nothing is sent on account of them,
/// and nothing is lost from the buffer. No other event stops the task.
pub proof fn lemma_stopped(state: LoggerState, event: LogEvent)
    ensures
        stops(event) <==> event == LogEvent::Cancelled || event == LogEvent::Closed,
        stops(event) ==> {
            &&& !state.sends(event)
            &&& state.after(event).buffered == state.buffered
            &&& state.batches(event).len() == 0
        },
{
    assert(state.buffered + Seq::<Vec<u8>>::empty() == state.buffered);
}

/// No event changes settings of the task.
pub proof fn lemma_settings_kept(state: LoggerState, event: LogEvent)
    ensures
        state.after(event).max_batch_size == state.max_batch_size,
        state.after(event).ignore_flush == state.ignore_flush,
{
}

/// A queue item that was left after the main loop is kept if it is a message, and nothing is kept
/// of a flush request.
pub proof fn lemma_leftover(data: Vec<u8>, items: Seq<HttpLog>)
    ensures
        carried(HttpLog::Message { data }) == seq![data],
        carried(HttpLog::Flush).len() == 0,
        all_carried(items.push(HttpLog::Message { data })) == all_carried(items).push(data),
        all_carried(items.push(HttpLog::Flush)) == all_carried(items),
{
    assert(items.push(HttpLog::Message { data }).drop_last() == items);
    assert(items.push(HttpLog::Flush).drop_last() == items);
}

/// Every piece apart from the last one is full.
pub proof fn lemma_chunks_full(messages: Seq<Vec<u8>>, size: nat)
    requires
        size > 0,
    ensures
        forall|i: int|
            0 <= i < chunks(messages, size).len() - 1 ==> #[trigger] chunks(messages, size)[i].len()
                == size,
        chunks(messages, size).len() == 0 <==> messages.len() == 0,
    decreases messages.len(),
{
    if messages.len() > size {
        let tail = messages.skip(size as int);
        lemma_chunks_full(tail, size);
        let all = chunks(messages, size);
        assert forall|i: int| 0 <= i < all.len() - 1 implies #[trigger] all[i].len() == size by {
            if i > 0 {
                assert(all[i] == chunks(tail, size)[i - 1]);
            }
        }
    }
}

/// All messages that are received count, in order, and nothing else does.
pub proof fn lemma_received(events: Seq<LogEvent>, event: LogEvent, data: Vec<u8>)
    ensures
        event == LogEvent::Received(HttpLog::Message { data }) ==> all_received(events.push(event))
            == all_received(events).push(data),
        !(event is Received) || event->Received_0 is Flush ==> all_received(events.push(event))
            == all_received(events),
{
    assert(events.push(event).drop_last() == events);
}

/// A request body is made of messages one behind another: that of one batch and another one
/// together is the body of the one, followed by the body of the other.
pub proof fn lemma_request_body(
    left: Vec<Vec<u8>>,
    right: Vec<Vec<u8>>,
    both: Vec<Vec<u8>>,
    left_body: Vec<u8>,
    right_body: Vec<u8>,
    body: Vec<u8>,
)
    requires
        both@ == left@ + right@,
        call_ensures(request_body, (&left,), left_body),
        call_ensures(request_body, (&right,), right_body),
        call_ensures(request_body, (&both,), body),
    ensures
        body@ == left_body@ + right_body@,
        left@.len() == 0 ==> left_body@.len() == 0,
        left@.len() == 1 ==> left_body@ == left@[0]@,
{
    let lines = |batch: Seq<Vec<u8>>| batch.map_values(|line: Vec<u8>| line@);
    assert(lines(both@) == lines(left@) + lines(right@));
    lemma_flatten_concat(lines(left@), lines(right@));
    if left@.len() == 0 {
        assert(lines(left@) == Seq::<Seq<u8>>::empty());
    }
    if left@.len() == 1 {
        assert(lines(left@) == seq![left@[0]@]);
        seq![left@[0]@].lemma_flatten_one_element();
    }
}

} // verus!
