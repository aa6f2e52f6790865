use broadcast_relay::dispatch::{Failure, Outcome};
use broadcast_relay::message::InboundMessage;
use broadcast_relay::update_loop::{advance, LoopAction, LoopEvent, LoopState, Termination};

fn hello() -> InboundMessage {
    InboundMessage { chat: 1, username: Some("eve".to_string()), text: Some("hi".to_string()) }
}

#[test]
fn the_loop_polls_when_it_starts() {
    assert_eq!(
        advance(LoopState::Polling, LoopEvent::Started),
        (LoopState::Polling, LoopAction::Poll)
    );
}

#[test]
fn a_message_is_dispatched() {
    assert_eq!(
        advance(LoopState::Polling, LoopEvent::Update { message: hello() }),
        (LoopState::Polling, LoopAction::Dispatch { message: hello() })
    );
}

#[test]
fn other_updates_are_discarded() {
    assert_eq!(
        advance(LoopState::Polling, LoopEvent::Skipped),
        (LoopState::Polling, LoopAction::Poll)
    );
}

#[test]
fn the_loop_goes_on_after_every_command() {
    let outcomes = [
        Outcome::Completed,
        Outcome::Aborted(Failure::Store),
        Outcome::Aborted(Failure::Feed),
        Outcome::Aborted(Failure::Send),
    ];
    for outcome in outcomes {
        assert_eq!(
            advance(LoopState::Polling, LoopEvent::Handled { outcome }),
            (LoopState::Polling, LoopAction::Poll)
        );
    }
}

#[test]
fn the_end_of_the_stream_terminates() {
    assert_eq!(
        advance(LoopState::Polling, LoopEvent::StreamEnded),
        (
            LoopState::Terminated(Termination::Ended),
            LoopAction::Stop { cause: Termination::Ended }
        )
    );
}

#[test]
fn a_stream_error_terminates() {
    assert_eq!(
        advance(LoopState::Polling, LoopEvent::StreamFailed),
        (
            LoopState::Terminated(Termination::Failed),
            LoopAction::Stop { cause: Termination::Failed }
        )
    );
}

#[test]
fn a_terminated_loop_stays_terminated() {
    for cause in [Termination::Ended, Termination::Failed] {
        let events = vec![
            LoopEvent::Started,
            LoopEvent::Update { message: hello() },
            LoopEvent::Skipped,
            LoopEvent::Handled { outcome: Outcome::Completed },
            LoopEvent::StreamEnded,
            LoopEvent::StreamFailed,
        ];
        for event in events {
            assert_eq!(
                advance(LoopState::Terminated(cause), event),
                (LoopState::Terminated(cause), LoopAction::Stop { cause })
            );
        }
    }
}

#[test]
fn a_stream_of_three_updates_then_its_end() {
    let mut state = LoopState::Polling;
    let mut handled = 0;
    let mut stream = vec![
        LoopEvent::Update { message: hello() },
        LoopEvent::Skipped,
        LoopEvent::Update { message: hello() },
    ]
    .into_iter();
    let mut event = LoopEvent::Started;
    let cause = loop {
        let (next, action) = advance(state, event);
        state = next;
        match action {
            LoopAction::Poll => {
                event = stream.next().unwrap_or(LoopEvent::StreamEnded);
            }
            LoopAction::Dispatch { .. } => {
                handled += 1;
                event = LoopEvent::Handled { outcome: Outcome::Aborted(Failure::Store) };
            }
            LoopAction::Stop { cause } => break cause,
        }
    };
    assert_eq!(handled, 2);
    assert_eq!(cause, Termination::Ended);
    assert_eq!(state, LoopState::Terminated(Termination::Ended));
}
