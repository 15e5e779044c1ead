//! The loop over the events of the gateway: what is done with each of them.

use twilight_gateway::EventTypeFlags;
use vstd::prelude::*;

use crate::model::{InteractionCreate, Message};

verus! {

/// The bit of the events in which a message was written.
pub const MESSAGE_CREATE: u128 = 0x8_0000;

/// The bit of the events in which someone interacted with the bot.
pub const INTERACTION_CREATE: u128 = 0x100_0000_0000_0000;

/// `EventTypeFlags::MESSAGE_CREATE` of `twilight_gateway`, as bits: the bit 19.
#[verifier::external_body]
fn message_create() -> (bits: u128)
    ensures
        bits == MESSAGE_CREATE,
{
    EventTypeFlags::MESSAGE_CREATE.bits()
}

/// `EventTypeFlags::INTERACTION_CREATE` of `twilight_gateway`, as bits: the bit 56.
#[verifier::external_body]
fn interaction_create() -> (bits: u128)
    ensures
        bits == INTERACTION_CREATE,
{
    EventTypeFlags::INTERACTION_CREATE.bits()
}

/// The bits of the events that the loop asks the gateway for: messages and
/// interactions.
pub fn event_flags() -> (bits: u128)
    ensures
        bits == INTERACTION_CREATE | MESSAGE_CREATE,
{
    interaction_create() | message_create()
}

/// An event of the gateway.
#[derive(Debug)]
pub enum Event {
    MessageCreate(Message),
    InteractionCreate(InteractionCreate),
    /// The gateway closed the connection.
    GatewayClose,
    /// Any other event.
    Other,
}

/// Why no event could be received.
#[derive(Clone, Copy, Debug, PartialEq, Eq, Structural)]
pub enum ReceiveError {
    /// The connection to the gateway could not be made again.
    Reconnect,
    /// Anything else.
    Other,
}

/// What the loop does next.
#[derive(Debug)]
pub enum Step {
    /// It has a handler record the message, in the background.
    HandleMessage(Message),
    /// It has a handler answer the interaction, in the background.
    HandleInteraction(InteractionCreate),
    /// It waits for the next event.
    Continue,
    /// It logs that an event could not be received, and waits for the next one.
    Report,
    /// It takes no more handlers on, and ends once those that it started have
    /// completed.
    CloseAndStop,
}

/// What is received of an event, with `shutting_down` as it then is: an error
/// of a reconnect during shutdown passes for the end of the connection.
pub open spec fn taken_for(received: Result<Event, ReceiveError>, shutting_down: bool) -> Result<
    Event,
    ReceiveError,
> {
    if received == Err::<Event, ReceiveError>(ReceiveError::Reconnect) && shutting_down {
        Ok(Event::GatewayClose)
    } else {
        received
    }
}

/// What the loop does with an event.
pub open spec fn step_of(
    received: Option<Result<Event, ReceiveError>>,
    shutting_down: bool,
) -> Step {
    match received {
        None => Step::CloseAndStop,
        Some(received) => match taken_for(received, shutting_down) {
            Ok(Event::MessageCreate(message)) => Step::HandleMessage(message),
            Ok(Event::InteractionCreate(interaction)) => Step::HandleInteraction(interaction),
            Ok(Event::GatewayClose) => if shutting_down {
                Step::CloseAndStop
            } else {
                Step::Continue
            },
            Ok(Event::Other) => Step::Continue,
            Err(_) => Step::Report,
        },
    }
}

/// What the loop does with what it received from the gateway, where nothing
/// stands for the end of all events.
pub fn next_step(
    received: Option<Result<Event, ReceiveError>>,
    shutting_down: bool,
) -> (step: Step)
    ensures
        step == step_of(received, shutting_down),
{
    let event: Event = match received {
        None => return Step::CloseAndStop,
        Some(Ok(event)) => event,
        Some(Err(ReceiveError::Reconnect)) => {
            if shutting_down {
                Event::GatewayClose
            } else {
                return Step::Report;
            }
        },
        Some(Err(ReceiveError::Other)) => return Step::Report,
    };
    match event {
        Event::MessageCreate(message) => Step::HandleMessage(message),
        Event::InteractionCreate(interaction) => Step::HandleInteraction(interaction),
        Event::GatewayClose => {
            if shutting_down {
                Step::CloseAndStop
            } else {
                Step::Continue
            }
        },
        Event::Other => Step::Continue,
    }
}

/// Unless the bot is shutting down, the loop goes on as long as something is
/// received, be it an error or the end of a connection.
pub proof fn law_loop_goes_on(received: Result<Event, ReceiveError>)
    ensures
        step_of(Some(received), false) !is CloseAndStop,
{
}

/// When the events have dried up, the loop ends, be the bot shutting down or not.
pub proof fn law_end_of_events_ends_the_loop(shutting_down: bool)
    ensures
        step_of(None, shutting_down) is CloseAndStop,
{
}

/// Each message and each interaction gets its handler, also during shutdown.
pub proof fn law_events_are_handled(
    message: Message,
    interaction: InteractionCreate,
    shutting_down: bool,
)
    ensures
        step_of(Some(Ok(Event::MessageCreate(message))), shutting_down) == Step::HandleMessage(
            message,
        ),
        step_of(Some(Ok(Event::InteractionCreate(interaction))), shutting_down)
            == Step::HandleInteraction(interaction),
{
}

/// During shutdown both the end of the connection and a failed reconnect end
/// the loop.
pub proof fn law_shutdown_ends_the_loop(received: Result<Event, ReceiveError>)
    ensures
        step_of(Some(received), true) is CloseAndStop <==> received == Ok::<Event, ReceiveError>(
            Event::GatewayClose,
        ) || received == Err::<Event, ReceiveError>(ReceiveError::Reconnect),
{
}

/// What the loop received, and whether the bot was shutting down then.
pub struct Item {
    pub received: Option<Result<Event, ReceiveError>>,
    pub shutting_down: bool,
}

/// Whether the loop ends with `item`.
pub open spec fn ends_loop(item: Item) -> bool {
    step_of(item.received, item.shutting_down) is CloseAndStop
}

/// The steps with which the loop starts a handler, in their order, until it ends.
pub open spec fn started_handlers(items: Seq<Item>) -> Seq<Step>
    decreases items.len(),
{
    if items.len() == 0 || ends_loop(items[0]) {
        seq![]
    } else {
        let step = step_of(items[0].received, items[0].shutting_down);
        let rest = started_handlers(items.drop_first());
        if step is HandleMessage || step is HandleInteraction {
            seq![step] + rest
        } else {
            rest
        }
    }
}

/// One handler for each message and each interaction among `items`, in their order.
pub open spec fn due_handlers(items: Seq<Item>) -> Seq<Step>
    decreases items.len(),
{
    if items.len() == 0 {
        seq![]
    } else {
        let rest = due_handlers(items.drop_first());
        match items[0].received {
            Some(Ok(Event::MessageCreate(message))) => seq![Step::HandleMessage(message)] + rest,
            Some(Ok(Event::InteractionCreate(interaction))) => seq![
                Step::HandleInteraction(interaction),
            ] + rest,
            _ => rest,
        }
    }
}

/// Until it ends, the loop starts one handler for each message and for each
/// interaction that it receives, in their order, and no other handler.
pub proof fn law_each_event_is_handled_once(items: Seq<Item>)
    requires
        forall|i: int| 0 <= i < items.len() - 1 ==> !ends_loop(#[trigger] items[i]),
    ensures
        started_handlers(items) == due_handlers(items),
    decreases items.len(),
{
    if items.len() > 0 {
        let rest = items.drop_first();
        assert forall|i: int| 0 <= i < rest.len() - 1 implies !ends_loop(#[trigger] rest[i]) by {
            assert(rest[i] == items[i + 1]);
        }
        law_each_event_is_handled_once(rest);
        if ends_loop(items[0]) {
            assert(rest.len() == 0);
        }
    }
}

/// What comes after the end of the loop starts no handler.
pub proof fn law_nothing_is_handled_after_the_end(items: Seq<Item>, more: Seq<Item>)
    requires
        items.len() > 0,
        ends_loop(items.last()),
    ensures
        started_handlers(items + more) == started_handlers(items),
    decreases items.len(),
{
    assert((items + more)[0] == items[0]);
    if !ends_loop(items[0]) {
        assert((items + more).drop_first() =~= items.drop_first() + more);
        law_nothing_is_handled_after_the_end(items.drop_first(), more);
    }
}

/// A handler is started for what was received and for nothing else.
pub proof fn law_handlers_get_what_was_received(
    received: Option<Result<Event, ReceiveError>>,
    shutting_down: bool,
    message: Message,
    interaction: InteractionCreate,
)
    ensures
        step_of(received, shutting_down) == Step::HandleMessage(message) <==> received == Some(
            Ok::<Event, ReceiveError>(Event::MessageCreate(message)),
        ),
        step_of(received, shutting_down) == Step::HandleInteraction(interaction) <==> received
            == Some(Ok::<Event, ReceiveError>(Event::InteractionCreate(interaction))),
{
}

/// An error is logged if and only if it does not end the loop: any error but
/// that of a reconnect during shutdown.
pub proof fn law_errors_are_logged(
    received: Option<Result<Event, ReceiveError>>,
    shutting_down: bool,
)
    ensures
        step_of(received, shutting_down) is Report <==> (match received {
            Some(Err(e)) => !(e == ReceiveError::Reconnect && shutting_down),
            _ => false,
        }),
{
}

} // verus!
