//! The connection adapter: the state machine that owns one streaming
//! connection and one subscription, and pumps every message that the
//! subscription delivers to the connection until either of them ends.
//!
//! The adapter itself never waits and never touches a transport. It is told
//! what happened (an [`Event`]) and answers with what to do next (an
//! [`Action`]); whoever drives it carries the action out and reports the
//! outcome as the next event.

use vstd::prelude::*;
use crate::channel::ReceiveError;
use crate::message::{Message, MessageView};
use crate::wire::{encode, wire_text};

verus! {

/// Where a connection is in its life.
#[derive(Clone, Copy, Debug, PartialEq, Eq, Structural)]
pub enum Phase {
    /// The connection has been upgraded and has no subscription yet.
    Established,
    /// The connection holds a subscription and forwards what it delivers.
    Streaming,
    /// The connection is over; its subscription is to be released.
    Closed,
}

/// What the driver reports to the adapter.
#[derive(Debug, PartialEq, Eq)]
pub enum Event {
    /// A fresh subscription has been obtained for the connection.
    Subscribed,
    /// The subscription delivered a message.
    Received(Message),
    /// The subscription fell behind and lost this many messages.
    Lagged(u64),
    /// The broadcast channel has been torn down.
    ChannelClosed,
    /// The last frame was handed to the transport.
    Sent,
    /// The transport refused the last frame: the peer is gone.
    SendFailed,
}

/// An `Event` with its message as mathematical text.
pub enum EventView {
    Subscribed,
    Received(MessageView),
    Lagged(u64),
    ChannelClosed,
    Sent,
    SendFailed,
}

impl View for Event {
    type V = EventView;

    open spec fn view(&self) -> EventView {
        match *self {
            Event::Subscribed => EventView::Subscribed,
            Event::Received(m) => EventView::Received(m@),
            Event::Lagged(n) => EventView::Lagged(n),
            Event::ChannelClosed => EventView::ChannelClosed,
            Event::Sent => EventView::Sent,
            Event::SendFailed => EventView::SendFailed,
        }
    }
}

/// What the adapter asks its driver to do next.
#[derive(Debug, PartialEq, Eq)]
pub enum Action {
    /// Subscribe to the broadcast channel, then report `Subscribed`.
    Subscribe,
    /// Wait on the subscription, then report what it gave.
    Receive,
    /// Send this text frame, then report `Sent` or `SendFailed`.
    Send(String),
    /// Release the subscription and stop.
    Release,
}

/// An `Action` with its frame as mathematical text.
pub enum ActionView {
    Subscribe,
    Receive,
    Send(Seq<char>),
    Release,
}

impl View for Action {
    type V = ActionView;

    open spec fn view(&self) -> ActionView {
        match *self {
            Action::Subscribe => ActionView::Subscribe,
            Action::Receive => ActionView::Receive,
            Action::Send(f) => ActionView::Send(f@),
            Action::Release => ActionView::Release,
        }
    }
}

/// The phase that follows `phase` once `event` has been reported.
///
/// A connection leaves `Established` when its subscription is there, and
/// leaves `Streaming` only when the channel is torn down or a send fails.
/// Nothing leads out of `Closed`.
pub open spec fn next_phase(phase: Phase, event: EventView) -> Phase {
    match phase {
        Phase::Established => match event {
            EventView::Subscribed => Phase::Streaming,
            _ => Phase::Established,
        },
        Phase::Streaming => match event {
            EventView::ChannelClosed => Phase::Closed,
            EventView::SendFailed => Phase::Closed,
            _ => Phase::Streaming,
        },
        Phase::Closed => Phase::Closed,
    }
}

/// The action that answers `event` in `phase`.
///
/// A message received while streaming is sent as its frame; a message that
/// has no frame is dropped, and the adapter goes on receiving. An event that
/// the phase does not wait for is answered by what the phase is waiting on:
/// `Subscribe` while established, `Receive` while streaming. Once closed,
/// the answer to everything is `Release`.
pub open spec fn next_action(phase: Phase, event: EventView) -> ActionView {
    match phase {
        Phase::Established => match event {
            EventView::Subscribed => ActionView::Receive,
            _ => ActionView::Subscribe,
        },
        Phase::Streaming => match event {
            EventView::Received(m) => match wire_text(m) {
                Some(f) => ActionView::Send(f),
                None => ActionView::Receive,
            },
            EventView::ChannelClosed => ActionView::Release,
            EventView::SendFailed => ActionView::Release,
            _ => ActionView::Receive,
        },
        Phase::Closed => ActionView::Release,
    }
}

impl Event {
    /// What the outcome of a receive tells the adapter: a message is
    /// `Received`, a lag is `Lagged` by as many, a torn-down channel is
    /// `ChannelClosed`. When nothing was waiting there is nothing to tell.
    pub fn of_receive(outcome: Result<Option<Message>, ReceiveError>) -> (event: Option<Event>)
        ensures
            event == match outcome {
                Ok(Some(msg)) => Some(Event::Received(msg)),
                Ok(None) => None,
                Err(ReceiveError::Lagged(skipped)) => Some(Event::Lagged(skipped)),
                Err(ReceiveError::Closed) => Some(Event::ChannelClosed),
            },
    {
        match outcome {
            Ok(Some(msg)) => Some(Event::Received(msg)),
            Ok(None) => None,
            Err(ReceiveError::Lagged(skipped)) => Some(Event::Lagged(skipped)),
            Err(ReceiveError::Closed) => Some(Event::ChannelClosed),
        }
    }
}

/// The answer to a delivered message, given the outcome of framing it: the
/// frame is sent if there is one, and the next message is awaited if not.
pub fn forward(frame: Option<String>) -> (action: Action)
    ensures
        action@ == match frame {
            Some(f) => ActionView::Send(f@),
            None => ActionView::Receive,
        },
{
    match frame {
        Some(f) => Action::Send(f),
        None => Action::Receive,
    }
}

impl Phase {
    /// A connection that has just been upgraded, and the first thing to do
    /// for it: subscribe.
    pub fn start() -> (res: (Phase, Action))
        ensures
            res.0 == Phase::Established,
            res.1@ == ActionView::Subscribe,
    {
        (Phase::Established, Action::Subscribe)
    }

    /// One step of the adapter: takes the event that the driver reports and
    /// returns the phase that follows together with the next action.
    pub fn step(self, event: Event) -> (res: (Phase, Action))
        ensures
            res.0 == next_phase(self, event@),
            res.1@ == next_action(self, event@),
    {
        match self {
            Phase::Established => match event {
                Event::Subscribed => (Phase::Streaming, Action::Receive),
                _ => (Phase::Established, Action::Subscribe),
            },
            Phase::Streaming => match event {
                Event::Received(msg) => (Phase::Streaming, forward(encode(&msg))),
                Event::ChannelClosed => (Phase::Closed, Action::Release),
                Event::SendFailed => (Phase::Closed, Action::Release),
                _ => (Phase::Streaming, Action::Receive),
            },
            Phase::Closed => (Phase::Closed, Action::Release),
        }
    }
}

/// The phase of a connection that was in `phase` and has since been told
/// of `events`, one after the other.
pub open spec fn phase_after(phase: Phase, events: Seq<EventView>) -> Phase
    decreases events.len(),
{
    if events.len() == 0 {
        phase
    } else {
        phase_after(next_phase(phase, events[0]), events.drop_first())
    }
}

/// The frames that the adapter asks to send, in order, when it starts in
/// `phase` and is told of `events` one after the other.
pub open spec fn frames_sent(phase: Phase, events: Seq<EventView>) -> Seq<Seq<char>>
    decreases events.len(),
{
    if events.len() == 0 {
        Seq::empty()
    } else {
        let head = match next_action(phase, events[0]) {
            ActionView::Send(f) => seq![f],
            _ => Seq::empty(),
        };
        head + frames_sent(next_phase(phase, events[0]), events.drop_first())
    }
}

/// The frames that a streaming connection owes for `events`: the frame of
/// each message received, in the order of receipt, up to the first report
/// of a torn-down channel or of a failed send, and nothing after it. A
/// message without a frame owes none.
pub open spec fn frames_due(events: Seq<EventView>) -> Seq<Seq<char>>
    decreases events.len(),
{
    if events.len() == 0 {
        Seq::empty()
    } else {
        match events[0] {
            EventView::Received(m) => {
                let head = match wire_text(m) {
                    Some(f) => seq![f],
                    None => Seq::empty(),
                };
                head + frames_due(events.drop_first())
            },
            EventView::ChannelClosed => Seq::empty(),
            EventView::SendFailed => Seq::empty(),
            _ => frames_due(events.drop_first()),
        }
    }
}

/// Whether `event` ends a stream: the channel was torn down, or a send
/// failed.
pub open spec fn ends_stream(event: EventView) -> bool {
    event is ChannelClosed || event is SendFailed
}

/// One step closes a connection for two reasons only: it was streaming and
/// the channel was torn down, or it was streaming and a send failed. No
/// other event closes it, a lag least of all.
pub proof fn lemma_closes_only_on_teardown_or_failed_send(phase: Phase, event: EventView)
    ensures
        next_phase(phase, event) == Phase::Closed <==> phase == Phase::Closed || (phase
            == Phase::Streaming && ends_stream(event)),
{
}

/// A closed connection stays closed and sends nothing, whatever it is told.
pub proof fn lemma_closed_is_final(events: Seq<EventView>)
    ensures
        phase_after(Phase::Closed, events) == Phase::Closed,
        frames_sent(Phase::Closed, events) == Seq::<Seq<char>>::empty(),
    decreases events.len(),
{
    if events.len() > 0 {
        lemma_closed_is_final(events.drop_first());
    }
}

/// A streaming connection goes on streaming, whatever it is told, for as
/// long as the channel stands and every send succeeds, and is closed from
/// the first event that says otherwise.
pub proof fn lemma_streams_until_teardown_or_failed_send(events: Seq<EventView>)
    ensures
        phase_after(Phase::Streaming, events) == Phase::Closed <==> exists|i: int|
            0 <= i < events.len() && ends_stream(#[trigger] events[i]),
        phase_after(Phase::Streaming, events) == Phase::Closed || phase_after(
            Phase::Streaming,
            events,
        ) == Phase::Streaming,
    decreases events.len(),
{
    if events.len() > 0 {
        let rest = events.drop_first();
        if ends_stream(events[0]) {
            lemma_closed_is_final(rest);
        } else {
            lemma_streams_until_teardown_or_failed_send(rest);
            if exists|i: int| 0 <= i < events.len() && ends_stream(#[trigger] events[i]) {
                let i = choose|i: int| 0 <= i < events.len() && ends_stream(#[trigger] events[i]);
                assert(ends_stream(rest[i - 1]));
            }
        }
    }
}

/// A streaming connection forwards what it receives in the order of receipt:
/// the frames it sends are the frames of the messages it is given, each once
/// and none out of turn, until the channel is torn down or a send fails;
/// after that it sends nothing. The same holds of a connection from its
/// upgrade on, for what it is told once it has its subscription.
pub proof fn lemma_frames_follow_receipts(events: Seq<EventView>)
    ensures
        frames_sent(Phase::Streaming, events) == frames_due(events),
        frames_sent(Phase::Established, seq![EventView::Subscribed] + events) == frames_due(
            events,
        ),
    decreases events.len(),
{
    if events.len() > 0 {
        let rest = events.drop_first();
        if next_phase(Phase::Streaming, events[0]) == Phase::Closed {
            lemma_closed_is_final(rest);
        } else {
            lemma_frames_follow_receipts(rest);
        }
    }
    assert((seq![EventView::Subscribed] + events).drop_first() =~= events);
}

/// A lag is tolerated: a report of lost messages, wherever it comes in the
/// life of a connection, changes neither the phase the connection ends in
/// nor the frames it sends. Delivery resumes with the next message.
pub proof fn lemma_lag_is_tolerated(
    phase: Phase,
    before: Seq<EventView>,
    skipped: u64,
    after: Seq<EventView>,
)
    ensures
        phase_after(phase, before + seq![EventView::Lagged(skipped)] + after) == phase_after(
            phase,
            before + after,
        ),
        frames_sent(phase, before + seq![EventView::Lagged(skipped)] + after) == frames_sent(
            phase,
            before + after,
        ),
    decreases before.len(),
{
    let lag = EventView::Lagged(skipped);
    let with_lag = before + seq![lag] + after;
    if before.len() == 0 {
        assert(with_lag.drop_first() =~= after);
        assert(before + after =~= after);
    } else {
        assert(with_lag.drop_first() =~= before.drop_first() + seq![lag] + after);
        assert((before + after).drop_first() =~= before.drop_first() + after);
        lemma_lag_is_tolerated(next_phase(phase, before[0]), before.drop_first(), skipped, after);
    }
}

} // verus!
