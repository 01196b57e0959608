use relay::adapter::{forward, Action, Event, Phase};
use relay::channel::ReceiveError;
use relay::message::Message;

fn msg(user: &str, text: &str) -> Message {
    Message::new(user.to_string(), text.to_string())
}

fn every_event() -> Vec<Event> {
    vec![
        Event::Subscribed,
        Event::Received(msg("a", "hi")),
        Event::Lagged(3),
        Event::ChannelClosed,
        Event::Sent,
        Event::SendFailed,
    ]
}

#[test]
fn a_connection_starts_established_and_subscribes() {
    assert_eq!(Phase::start(), (Phase::Established, Action::Subscribe));
}

#[test]
fn subscribing_starts_the_stream() {
    assert_eq!(
        Phase::Established.step(Event::Subscribed),
        (Phase::Streaming, Action::Receive)
    );
}

#[test]
fn established_waits_for_its_subscription() {
    for event in every_event() {
        if event != Event::Subscribed {
            assert_eq!(
                Phase::Established.step(event),
                (Phase::Established, Action::Subscribe)
            );
        }
    }
}

#[test]
fn a_received_message_is_sent_as_its_frame() {
    assert_eq!(
        Phase::Streaming.step(Event::Received(msg("a", "hi"))),
        (
            Phase::Streaming,
            Action::Send("{\"user\":\"a\",\"text\":\"hi\"}".to_string())
        )
    );
}

#[test]
fn a_sent_frame_leads_to_the_next_receive() {
    assert_eq!(Phase::Streaming.step(Event::Sent), (Phase::Streaming, Action::Receive));
}

#[test]
fn a_lag_does_not_close_the_connection() {
    for skipped in [1u64, 2, 100, u64::MAX] {
        assert_eq!(
            Phase::Streaming.step(Event::Lagged(skipped)),
            (Phase::Streaming, Action::Receive)
        );
    }
}

#[test]
fn a_torn_down_channel_closes_the_connection() {
    assert_eq!(
        Phase::Streaming.step(Event::ChannelClosed),
        (Phase::Closed, Action::Release)
    );
}

#[test]
fn a_failed_send_closes_the_connection() {
    assert_eq!(
        Phase::Streaming.step(Event::SendFailed),
        (Phase::Closed, Action::Release)
    );
}

#[test]
fn a_second_subscription_report_changes_nothing() {
    assert_eq!(
        Phase::Streaming.step(Event::Subscribed),
        (Phase::Streaming, Action::Receive)
    );
}

#[test]
fn closed_is_final() {
    for event in every_event() {
        assert_eq!(Phase::Closed.step(event), (Phase::Closed, Action::Release));
    }
}

#[test]
fn forward_sends_a_frame_and_skips_a_missing_one() {
    assert_eq!(forward(Some("f".to_string())), Action::Send("f".to_string()));
    assert_eq!(forward(None), Action::Receive);
}

#[test]
fn frames_go_out_in_the_order_of_receipt() {
    let events = vec![
        Event::Subscribed,
        Event::Received(msg("a", "1")),
        Event::Sent,
        Event::Lagged(2),
        Event::Received(msg("b", "2")),
        Event::Sent,
        Event::Received(msg("c", "3")),
        Event::SendFailed,
        Event::Received(msg("d", "4")),
        Event::Sent,
    ];
    let (mut phase, first) = Phase::start();
    assert_eq!(first, Action::Subscribe);
    let mut frames = Vec::new();
    for event in events {
        let (next, action) = phase.step(event);
        phase = next;
        if let Action::Send(frame) = action {
            frames.push(frame);
        }
    }
    assert_eq!(phase, Phase::Closed);
    assert_eq!(
        frames,
        vec![
            "{\"user\":\"a\",\"text\":\"1\"}".to_string(),
            "{\"user\":\"b\",\"text\":\"2\"}".to_string(),
            "{\"user\":\"c\",\"text\":\"3\"}".to_string(),
        ]
    );
}

#[test]
fn a_lag_in_the_middle_changes_no_frame() {
    let run = |events: Vec<Event>| {
        let mut phase = Phase::Streaming;
        let mut frames = Vec::new();
        for event in events {
            let (next, action) = phase.step(event);
            phase = next;
            if let Action::Send(frame) = action {
                frames.push(frame);
            }
        }
        (phase, frames)
    };
    let plain = run(vec![
        Event::Received(msg("a", "1")),
        Event::Sent,
        Event::Received(msg("a", "2")),
        Event::Sent,
    ]);
    let lagged = run(vec![
        Event::Received(msg("a", "1")),
        Event::Sent,
        Event::Lagged(7),
        Event::Received(msg("a", "2")),
        Event::Sent,
    ]);
    assert_eq!(plain, lagged);
    assert_eq!(plain.0, Phase::Streaming);
    assert_eq!(plain.1.len(), 2);
}

#[test]
fn a_receive_outcome_becomes_the_event_to_report() {
    assert_eq!(
        Event::of_receive(Ok(Some(msg("a", "hi")))),
        Some(Event::Received(msg("a", "hi")))
    );
    assert_eq!(Event::of_receive(Ok(None)), None);
    assert_eq!(
        Event::of_receive(Err(ReceiveError::Lagged(5))),
        Some(Event::Lagged(5))
    );
    assert_eq!(
        Event::of_receive(Err(ReceiveError::Closed)),
        Some(Event::ChannelClosed)
    );
}
