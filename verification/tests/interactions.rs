use std::collections::HashMap;

use tinylevel::commands::Route;
use tinylevel::error::{report, Error, Severity};
use tinylevel::id::Id;
use tinylevel::interaction::{
    command, get_progress, get_target, handle_interaction, reset_progress, InteractionResponseType,
    StoreError,
};
use tinylevel::model::{
    AppState, CommandData, CommandDataOption, CommandOptionValue, CommandType, InteractionCreate,
    InteractionData, InteractionDataResolved, User,
};
use tinylevel::payload::InteractionResponseData;
use twilight_model::channel::message::MessageFlags;

fn id(n: u64) -> Id {
    Id::new_checked(n).unwrap()
}

fn state() -> AppState {
    AppState {
        guild_id: id(10),
        role_id: id(20),
        activity_minutes: 60,
        cooldown_seconds: 60,
        app_id: id(30),
        bot_id: id(40),
    }
}

fn data(name: &str, kind: CommandType) -> CommandData {
    CommandData {
        name: name.to_string(),
        kind,
        target_id: None,
        resolved: None,
        options: Vec::new(),
    }
}

fn user_option(name: &str, n: u64) -> CommandDataOption {
    CommandDataOption {
        name: name.to_string(),
        value: CommandOptionValue::User(id(n)),
    }
}

fn other_option(name: &str) -> CommandDataOption {
    CommandDataOption {
        name: name.to_string(),
        value: CommandOptionValue::Other,
    }
}

fn interaction(data: Option<InteractionData>) -> InteractionCreate {
    InteractionCreate {
        id: id(1),
        application_id: id(2),
        token: "token".to_string(),
        data,
    }
}

fn description(data: &InteractionResponseData) -> &str {
    assert_eq!(data.content, None);
    let embeds = data.embeds.as_ref().unwrap();
    assert_eq!(embeds.len(), 1);
    assert_eq!(embeds[0].kind, "rich");
    embeds[0].description.as_deref().unwrap()
}

#[test]
fn user_commands_target_their_user() {
    let mut data = data("Get Role Progress", CommandType::User);
    assert_eq!(get_target(&data), Err(Error::NoTargetId));
    data.target_id = Some(id(7));
    assert_eq!(get_target(&data), Ok(id(7)));
}

#[test]
fn message_commands_target_the_author() {
    let mut data = data("Get Role Progress", CommandType::Message);
    assert_eq!(get_target(&data), Err(Error::NoTargetId));
    data.target_id = Some(id(100));
    assert_eq!(get_target(&data), Err(Error::NoResolvedData));
    let mut messages = HashMap::new();
    messages.insert(99, User { id: id(8), bot: false });
    data.resolved = Some(InteractionDataResolved { messages });
    assert_eq!(get_target(&data), Err(Error::NoAuthorResolvedData));
    let author = User { id: id(9), bot: true };
    data.resolved.as_mut().unwrap().messages.insert(100, author);
    assert_eq!(get_target(&data), Ok(id(9)));
}

#[test]
fn slash_commands_target_the_first_option_of_that_name() {
    let mut data = data("progress", CommandType::ChatInput);
    data.target_id = Some(id(1));
    assert_eq!(get_target(&data), Err(Error::NoChatInputOption));
    data.options.push(user_option("Name", 2));
    assert_eq!(get_target(&data), Err(Error::NoChatInputOption));
    data.options.push(user_option("name", 3));
    data.options.push(other_option("name"));
    assert_eq!(get_target(&data), Ok(id(3)));
    data.options.remove(1);
    assert_eq!(get_target(&data), Err(Error::WrongChatInputOptionValue));
}

#[test]
fn other_commands_have_no_target() {
    let mut data = data("progress", CommandType::Unknown(4));
    data.target_id = Some(id(1));
    assert_eq!(get_target(&data), Err(Error::UnknownCommandType));
}

#[test]
fn commands_become_queries() {
    let mut get = data("Get Role Progress", CommandType::User);
    get.target_id = Some(id(u64::MAX));
    let query = command(&interaction(Some(InteractionData::ApplicationCommand(get)))).unwrap();
    assert_eq!(query.route, Route::GetProgress);
    assert_eq!(query.user, id(u64::MAX));
    assert_eq!(query.key, -1);

    let mut reset = data("reset", CommandType::ChatInput);
    reset.options.push(user_option("name", 5));
    let query = command(&interaction(Some(InteractionData::ApplicationCommand(reset)))).unwrap();
    assert_eq!(query.route, Route::ResetProgress);
    assert_eq!(query.user, id(5));
    assert_eq!(query.key, 5);
}

#[test]
fn bad_commands_are_errors() {
    assert_eq!(command(&interaction(None)), Err(Error::NoInteractionData));
    assert_eq!(
        command(&interaction(Some(InteractionData::Other))),
        Err(Error::NoInteractionData)
    );
    // the name is looked at before the target
    let unknown = data("levels", CommandType::Unknown(4));
    assert_eq!(
        command(&interaction(Some(InteractionData::ApplicationCommand(unknown)))),
        Err(Error::UnknownCommand)
    );
    let no_target = data("reset", CommandType::User);
    assert_eq!(
        command(&interaction(Some(InteractionData::ApplicationCommand(no_target)))),
        Err(Error::NoTargetId)
    );
}

#[test]
fn progress_is_told_in_words() {
    let user = id(175_928_847_299_117_063);
    assert_eq!(
        description(&get_progress(user, Ok(None), &state()).unwrap()),
        "<@175928847299117063> has no activity."
    );
    assert_eq!(
        description(&get_progress(user, Ok(Some(0)), &state()).unwrap()),
        "<@175928847299117063> has no activity."
    );
    assert_eq!(
        description(&get_progress(user, Ok(Some(1)), &state()).unwrap()),
        "User <@175928847299117063> has been active for 1 minute out of 60 required to receive the role."
    );
    assert_eq!(
        description(&get_progress(user, Ok(Some(10)), &state()).unwrap()),
        "User <@175928847299117063> has been active for 10 minutes out of 60 required to receive the role."
    );
}

#[test]
fn numbers_are_written_as_std_writes_them() {
    for n in [1, -1, 9, 10, 99, 100, 1_000_000, i64::MAX, i64::MIN, i64::MIN + 1] {
        for user in [1, 9, 10, 12_345, u64::MAX] {
            let mut state = state();
            state.activity_minutes = n;
            let s = if n == 1 { "" } else { "s" };
            assert_eq!(
                description(&get_progress(id(user), Ok(Some(n)), &state).unwrap()),
                format!("User <@{user}> has been active for {n} minute{s} out of {n} required to receive the role.")
            );
        }
    }
}

#[test]
fn resets_tell_whether_there_was_progress() {
    assert_eq!(description(&reset_progress(id(7), Ok(0)).unwrap()), "<@7> had no previous progress.");
    assert_eq!(description(&reset_progress(id(7), Ok(1)).unwrap()), "<@7>'s progress has been reset.");
    assert_eq!(description(&reset_progress(id(7), Ok(2)).unwrap()), "<@7>'s progress has been reset.");
}

#[test]
fn answers_are_never_public() {
    let ephemeral = Some(MessageFlags::EPHEMERAL.bits());
    assert_eq!(ephemeral, Some(64));
    assert_eq!(get_progress(id(1), Ok(None), &state()).unwrap().flags, ephemeral);
    assert_eq!(reset_progress(id(1), Ok(0)).unwrap().flags, ephemeral);
    let public = InteractionResponseData {
        content: Some("hello".to_string()),
        embeds: None,
        flags: None,
    };
    let response = handle_interaction(&interaction(None), Ok(public));
    assert_eq!(response.data.flags, ephemeral);
    assert_eq!(response.data.content.as_deref(), Some("hello"));
    assert_eq!(response.data.embeds, None);
    let crossposted = InteractionResponseData {
        content: None,
        embeds: None,
        flags: Some(1),
    };
    let response = handle_interaction(&interaction(None), Ok(crossposted));
    assert_eq!(response.data.flags, ephemeral);
    let response = handle_interaction(&interaction(None), Err(Error::Sqlx));
    assert_eq!(response.data.flags, ephemeral);
}

#[test]
fn answers_go_to_their_interaction() {
    let ic = interaction(None);
    let response = handle_interaction(&ic, reset_progress(id(7), Ok(1)));
    assert_eq!(response.interaction_id, id(1));
    assert_eq!(response.application_id, id(2));
    assert_eq!(response.token, "token");
    assert_eq!(response.kind, InteractionResponseType::ChannelMessageWithSource);
    assert_eq!(description(&response.data), "<@7>'s progress has been reset.");
}

#[test]
fn errors_are_told_in_their_words() {
    let sentences = [
        (Error::DiscordApi, "twilight-http error"),
        (Error::Sqlx, "sqlx error"),
        (
            Error::NoResolvedData,
            "Discord did not send the resolved data section of the interaction!",
        ),
        (
            Error::NoAuthorResolvedData,
            "Discord did not send a message author matching the target of the interaction!",
        ),
        (
            Error::NoInteractionData,
            "Discord did not send the target of the interaction!",
        ),
        (
            Error::NoPartialMember,
            "Discord did not send the partial member for this message!",
        ),
        (Error::NoGuildId, "Discord did not send guild ID"),
        (Error::UnknownCommand, "There is no command with this name"),
        (
            Error::UnknownCommandType,
            "There is a command with this name, but not with this type",
        ),
        (Error::NoTargetId, "Discord did not send a target ID"),
        (Error::NoChatInputOption, "Required argument was not found"),
        (
            Error::WrongChatInputOptionValue,
            "Required argument was of wrong type",
        ),
    ];
    for (error, sentence) in sentences {
        assert_eq!(error.message(), sentence);
        let response = handle_interaction(&interaction(None), Err(error));
        assert_eq!(response.data.content, Some(format!("Error: {sentence}")));
        assert_eq!(response.data.embeds, None);
    }
}

#[test]
fn errors_of_discord_are_warnings() {
    assert_eq!(report(Ok(())), None);
    assert_eq!(report(Err(Error::DiscordApi)), Some(Severity::Warn));
    assert_eq!(report(Err(Error::Sqlx)), Some(Severity::Error));
    assert_eq!(report(Err(Error::NoPartialMember)), Some(Severity::Error));
}

#[test]
fn failures_of_the_store_are_told() {
    assert_eq!(get_progress(id(7), Err(StoreError), &state()), Err(Error::Sqlx));
    assert_eq!(reset_progress(id(7), Err(StoreError)), Err(Error::Sqlx));
    let outcome = get_progress(id(7), Err(StoreError), &state());
    let response = handle_interaction(&interaction(None), outcome);
    assert_eq!(response.data.content.as_deref(), Some("Error: sqlx error"));
}
