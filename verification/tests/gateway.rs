use tinylevel::gateway::{event_flags, next_step, Event, ReceiveError, Step};
use tinylevel::id::Id;
use tinylevel::model::{InteractionCreate, Message, User};
use twilight_gateway::EventTypeFlags;

fn id(n: u64) -> Id {
    Id::new_checked(n).unwrap()
}

fn message() -> Message {
    Message {
        id: id(1),
        author: User { id: id(2), bot: false },
        guild_id: None,
        member: None,
    }
}

#[test]
fn events_are_handled_also_during_shutdown() {
    for shutting_down in [false, true] {
        match next_step(Some(Ok(Event::MessageCreate(message()))), shutting_down) {
            Step::HandleMessage(handled) => assert_eq!(handled, message()),
            other => panic!("{other:?}"),
        }
        let interaction = InteractionCreate {
            id: id(3),
            application_id: id(4),
            token: "token".to_string(),
            data: None,
        };
        match next_step(Some(Ok(Event::InteractionCreate(interaction))), shutting_down) {
            Step::HandleInteraction(handled) => assert_eq!(handled.token, "token"),
            other => panic!("{other:?}"),
        }
        assert!(matches!(next_step(Some(Ok(Event::Other)), shutting_down), Step::Continue));
        assert!(matches!(
            next_step(Some(Err(ReceiveError::Other)), shutting_down),
            Step::Report
        ));
    }
}

#[test]
fn loop_goes_on_unless_shutting_down() {
    assert!(matches!(next_step(Some(Ok(Event::GatewayClose)), false), Step::Continue));
    assert!(matches!(next_step(Some(Err(ReceiveError::Reconnect)), false), Step::Report));
}

#[test]
fn shutdown_ends_the_loop() {
    assert!(matches!(next_step(Some(Ok(Event::GatewayClose)), true), Step::CloseAndStop));
    assert!(matches!(next_step(Some(Err(ReceiveError::Reconnect)), true), Step::CloseAndStop));
}

#[test]
fn end_of_events_ends_the_loop() {
    assert!(matches!(next_step(None, false), Step::CloseAndStop));
    assert!(matches!(next_step(None, true), Step::CloseAndStop));
}

#[test]
fn messages_and_interactions_are_asked_for() {
    let expected = EventTypeFlags::INTERACTION_CREATE | EventTypeFlags::MESSAGE_CREATE;
    assert_eq!(event_flags(), expected.bits());
    assert_eq!(event_flags(), 1 << 56 | 1 << 19);
}

#[test]
fn each_event_is_handled_once_until_the_end() {
    let received = vec![
        (Some(Ok(Event::MessageCreate(message()))), false),
        (Some(Ok(Event::Other)), false),
        (Some(Err(ReceiveError::Reconnect)), false),
        (Some(Ok(Event::GatewayClose)), false),
        (Some(Err(ReceiveError::Other)), true),
        (Some(Ok(Event::MessageCreate(message()))), true),
        (Some(Ok(Event::GatewayClose)), true),
        (Some(Ok(Event::MessageCreate(message()))), true),
    ];
    let mut handled = 0;
    let mut seen = 0;
    for (received, shutting_down) in received {
        seen += 1;
        match next_step(received, shutting_down) {
            Step::HandleMessage(_) => handled += 1,
            Step::HandleInteraction(_) => panic!("there was no interaction"),
            Step::Continue | Step::Report => {}
            Step::CloseAndStop => break,
        }
    }
    assert_eq!(handled, 2);
    assert_eq!(seen, 7);
}
