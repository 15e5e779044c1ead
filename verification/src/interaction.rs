//! Commands that someone used: what is asked of the store, and what is answered.

use vstd::prelude::*;
use vstd::string::*;

use crate::commands::{law_routes_are_apart, route, route_of, Route, SLASH_ARG_NAME};
use crate::error::Error;
use crate::id::{db_key, id_to_db, Id};
use crate::model::{
    AppState, CommandData, CommandDataOption, CommandOptionValue, CommandType, InteractionCreate,
    InteractionData,
};
use crate::payload::{
    build_embed_reply, build_text_reply, ephemeral, EmbedView, InteractionResponseData,
    InteractionResponseDataView, EPHEMERAL,
};
use crate::text::{
    decimal, law_decimals_are_digits, law_decimals_are_distinct,
    law_signed_decimals_are_distinct, law_the_sign_comes_first, push_decimal, push_signed_decimal,
    signed_decimal,
};

verus! {

broadcast use vstd::std_specs::hash::group_hash_axioms;

/// The first of `options` that has the name of the target option.
pub open spec fn target_option(options: Seq<CommandDataOption>) -> Option<CommandDataOption>
    decreases options.len(),
{
    if options.len() == 0 {
        None
    } else if options[0].name@ == SLASH_ARG_NAME@ {
        Some(options[0])
    } else {
        target_option(options.drop_first())
    }
}

/// The number of the user whom the command acts upon: the target of a command
/// on a user, the author of the target of a command on a message, and the user
/// whom a slash command names.
pub open spec fn target_of(data: CommandData) -> Result<u64, Error> {
    match data.kind {
        CommandType::User => match data.target_id {
            Some(target_id) => Ok(target_id@),
            None => Err(Error::NoTargetId),
        },
        CommandType::Message => match (data.target_id, data.resolved) {
            (None, _) => Err(Error::NoTargetId),
            (Some(_), None) => Err(Error::NoResolvedData),
            (Some(target_id), Some(resolved)) => if resolved.messages@.contains_key(target_id@) {
                Ok(resolved.messages@[target_id@].id@)
            } else {
                Err(Error::NoAuthorResolvedData)
            },
        },
        CommandType::ChatInput => match target_option(data.options@) {
            None => Err(Error::NoChatInputOption),
            Some(option) => match option.value {
                CommandOptionValue::User(user) => Ok(user@),
                CommandOptionValue::Other => Err(Error::WrongChatInputOptionValue),
            },
        },
        CommandType::Unknown(_) => Err(Error::UnknownCommandType),
    }
}

/// The user whom the command acts upon.
pub fn get_target(data: &CommandData) -> (target: Result<Id, Error>)
    ensures
        match target {
            Ok(user) => target_of(*data) == Ok::<u64, Error>(user@),
            Err(e) => target_of(*data) == Err::<u64, Error>(e),
        },
{
    match data.kind {
        CommandType::User => match data.target_id {
            Some(target_id) => Ok(target_id),
            None => Err(Error::NoTargetId),
        },
        CommandType::Message => {
            let target_id = match data.target_id {
                Some(target_id) => target_id,
                None => return Err(Error::NoTargetId),
            };
            let resolved = match &data.resolved {
                Some(resolved) => resolved,
                None => return Err(Error::NoResolvedData),
            };
            match resolved.messages.get(&target_id.get()) {
                Some(author) => Ok(author.id),
                None => Err(Error::NoAuthorResolvedData),
            }
        },
        CommandType::ChatInput => {
            let name: String = SLASH_ARG_NAME.to_string();
            let ghost options = data.options@;
            assert(options.skip(0) =~= options);
            let mut i: usize = 0;
            while i < data.options.len()
                invariant
                    data.kind is ChatInput,
                    options == data.options@,
                    name@ == SLASH_ARG_NAME@,
                    i <= options.len(),
                    target_option(options) == target_option(options.skip(i as int)),
                decreases options.len() - i,
            {
                assert(options.skip(i as int).drop_first() =~= options.skip(i + 1));
                let option = &data.options[i];
                if option.name == name {
                    return match option.value {
                        CommandOptionValue::User(user) => Ok(user),
                        CommandOptionValue::Other => Err(Error::WrongChatInputOptionValue),
                    };
                }
                i = i + 1;
            }
            Err(Error::NoChatInputOption)
        },
        CommandType::Unknown(_) => Err(Error::UnknownCommandType),
    }
}

/// A slash command acts upon the user whom its option names, whatever options
/// of other names come before and whatever comes after.
pub proof fn law_named_user_is_the_target(data: CommandData, i: int, user: Id)
    requires
        data.kind is ChatInput,
        0 <= i < data.options@.len(),
        data.options@[i].name@ == SLASH_ARG_NAME@,
        data.options@[i].value == CommandOptionValue::User(user),
        forall|j: int| 0 <= j < i ==> #[trigger] data.options@[j].name@ != SLASH_ARG_NAME@,
    ensures
        target_of(data) == Ok::<u64, Error>(user@),
{
    lemma_first_named_option(data.options@, i);
}

proof fn lemma_first_named_option(options: Seq<CommandDataOption>, i: int)
    requires
        0 <= i < options.len(),
        options[i].name@ == SLASH_ARG_NAME@,
        forall|j: int| 0 <= j < i ==> #[trigger] options[j].name@ != SLASH_ARG_NAME@,
    ensures
        target_option(options) == Some(options[i]),
    decreases i,
{
    if i > 0 {
        assert(options[0].name@ != SLASH_ARG_NAME@);
        let rest = options.drop_first();
        assert forall|j: int| 0 <= j < i - 1 implies #[trigger] rest[j].name@
            != SLASH_ARG_NAME@ by {
            assert(rest[j] == options[j + 1]);
        }
        assert(rest[i - 1] == options[i]);
        lemma_first_named_option(rest, i - 1);
    }
}

/// What a command asks of the store.
#[derive(Clone, Copy, Debug, PartialEq, Eq)]
pub struct Query {
    /// What is done with the user's row: it is read, or it is deleted.
    pub route: Route,
    /// The user whom the command acts upon.
    pub user: Id,
    /// The key of the user's row.
    pub key: i64,
}

/// What the command in `data` does, and the number of the user whom it acts upon.
pub open spec fn command_of(data: Option<InteractionData>) -> Result<(Route, u64), Error> {
    match data {
        Some(InteractionData::ApplicationCommand(command)) => match route_of(command.name@) {
            Some(route) => match target_of(command) {
                Ok(user) => Ok((route, user)),
                Err(e) => Err(e),
            },
            None => Err(Error::UnknownCommand),
        },
        _ => Err(Error::NoInteractionData),
    }
}

/// What the store is asked for the interaction.
pub fn command(ic: &InteractionCreate) -> (query: Result<Query, Error>)
    ensures
        match query {
            Ok(q) => command_of(ic.data) == Ok::<(Route, u64), Error>((q.route, q.user@)) && q.key
                == db_key(q.user@),
            Err(e) => command_of(ic.data) == Err::<(Route, u64), Error>(e),
        },
{
    match &ic.data {
        Some(InteractionData::ApplicationCommand(data)) => match route(&data.name) {
            Some(route) => match get_target(data) {
                Ok(user) => Ok(Query { route, user, key: id_to_db(user) }),
                Err(e) => Err(e),
            },
            None => Err(Error::UnknownCommand),
        },
        _ => Err(Error::NoInteractionData),
    }
}

/// The text that Discord shows as the name of the user with the number `user`.
pub open spec fn mention(user: u64) -> Seq<char> {
    "<@"@ + decimal(user as nat) + ">"@
}

fn push_mention(out: &mut String, user: Id)
    ensures
        final(out)@ == old(out)@ + mention(user@),
{
    out.append("<@");
    push_decimal(out, user.get());
    out.append(">");
    assert(out@ =~= old(out)@ + mention(user@));
}

/// The progress of a user in words.
pub open spec fn progress_text(user: u64, active_minutes: i64, required: i64) -> Seq<char> {
    if active_minutes == 0 {
        mention(user) + " has no activity."@
    } else {
        "User "@ + mention(user) + " has been active for "@ + signed_decimal(active_minutes as int)
            + " minute"@ + (if active_minutes == 1 {
            ""@
        } else {
            "s"@
        }) + " out of "@ + signed_decimal(required as int) + " required to receive the role."@
    }
}

/// A message that shows `text` in an embed, to the user alone who asked.
pub open spec fn embed_reply(text: Seq<char>) -> InteractionResponseDataView {
    InteractionResponseDataView {
        content: None,
        embeds: Some(seq![EmbedView { kind: "rich"@, description: Some(text) }]),
        flags: Some(EPHEMERAL),
    }
}

/// The active minutes that are shown for a row: none where there is no row.
pub open spec fn shown_minutes(active_minutes: Option<i64>) -> i64 {
    match active_minutes {
        Some(minutes) => minutes,
        None => 0,
    }
}

/// The store could not do what it was asked for.
#[derive(Clone, Copy, Debug, PartialEq, Eq, Structural)]
pub struct StoreError;

/// The outcome of a command that shows the progress of the user with the number
/// `user`, of whose row `read` was read. That there is no row is no error.
pub open spec fn progress_outcome(
    user: u64,
    read: Result<Option<i64>, StoreError>,
    required: i64,
) -> Result<InteractionResponseDataView, Error> {
    match read {
        Ok(active_minutes) => Ok(
            embed_reply(progress_text(user, shown_minutes(active_minutes), required)),
        ),
        Err(_) => Err(Error::Sqlx),
    }
}

/// The outcome of a command that shows the progress of `user`, where `read` is
/// what the store gave as the active minutes of the user's row.
pub fn get_progress(
    user: Id,
    read: Result<Option<i64>, StoreError>,
    state: &AppState,
) -> (outcome: Result<InteractionResponseData, Error>)
    ensures
        outcome_view(outcome) == progress_outcome(user@, read, state.activity_minutes),
{
    let minutes: i64 = match read {
        Ok(active_minutes) => active_minutes.unwrap_or(0),
        Err(_) => return Err(Error::Sqlx),
    };
    let mut text: String = String::new();
    if minutes == 0 {
        push_mention(&mut text, user);
        text.append(" has no activity.");
    } else {
        text.append("User ");
        push_mention(&mut text, user);
        text.append(" has been active for ");
        push_signed_decimal(&mut text, minutes);
        text.append(" minute");
        text.append(if minutes == 1 { "" } else { "s" });
        text.append(" out of ");
        push_signed_decimal(&mut text, state.activity_minutes);
        text.append(" required to receive the role.");
    }
    assert(text@ =~= progress_text(user@, minutes, state.activity_minutes));
    Ok(build_embed_reply(text, ephemeral()))
}

/// What became of the progress of a user, in words, where `rows` rows were deleted.
pub open spec fn reset_text(user: u64, rows: u64) -> Seq<char> {
    if rows == 0 {
        mention(user) + " had no previous progress."@
    } else {
        mention(user) + "'s progress has been reset."@
    }
}

/// The outcome of a command that takes the progress of the user with the number
/// `user` away, for which `deleted` rows were deleted. That there was none to
/// delete is no error.
pub open spec fn reset_outcome(user: u64, deleted: Result<u64, StoreError>) -> Result<
    InteractionResponseDataView,
    Error,
> {
    match deleted {
        Ok(rows) => Ok(embed_reply(reset_text(user, rows))),
        Err(_) => Err(Error::Sqlx),
    }
}

/// The outcome of a command that takes the progress of `user` away, where
/// `deleted` is what the store gave as the number of rows that it deleted.
pub fn reset_progress(user: Id, deleted: Result<u64, StoreError>) -> (outcome: Result<
    InteractionResponseData,
    Error,
>)
    ensures
        outcome_view(outcome) == reset_outcome(user@, deleted),
{
    let rows_affected: u64 = match deleted {
        Ok(rows) => rows,
        Err(_) => return Err(Error::Sqlx),
    };
    let mut text: String = String::new();
    push_mention(&mut text, user);
    if rows_affected == 0 {
        text.append(" had no previous progress.");
    } else {
        text.append("'s progress has been reset.");
    }
    assert(text@ =~= reset_text(user@, rows_affected));
    Ok(build_embed_reply(text, ephemeral()))
}

/// How an interaction is answered.
#[derive(Clone, Copy, Debug, PartialEq, Eq, Structural)]
pub enum InteractionResponseType {
    /// With a message.
    ChannelMessageWithSource,
}

/// An answer, and the interaction that it belongs to.
#[derive(Debug, PartialEq, Eq)]
pub struct InteractionResponse {
    pub application_id: Id,
    pub interaction_id: Id,
    pub token: String,
    pub kind: InteractionResponseType,
    pub data: InteractionResponseData,
}

/// The message that answers an interaction whose command ended with `outcome`:
/// what the command answered, or its error. Nobody but the user sees it.
pub open spec fn response_of(
    outcome: Result<InteractionResponseDataView, Error>,
) -> InteractionResponseDataView {
    match outcome {
        Ok(data) => InteractionResponseDataView { flags: Some(EPHEMERAL), ..data },
        Err(e) => InteractionResponseDataView {
            content: Some("Error: "@ + e.text()),
            embeds: None,
            flags: Some(EPHEMERAL),
        },
    }
}

/// The contents of the outcome of a command.
pub open spec fn outcome_view(outcome: Result<InteractionResponseData, Error>) -> Result<
    InteractionResponseDataView,
    Error,
> {
    match outcome {
        Ok(data) => Ok(data@),
        Err(e) => Err(e),
    }
}

/// The answer to the interaction `ic`, whose command ended with `outcome`.
pub fn handle_interaction(
    ic: &InteractionCreate,
    outcome: Result<InteractionResponseData, Error>,
) -> (response: InteractionResponse)
    ensures
        response.application_id == ic.application_id,
        response.interaction_id == ic.id,
        response.token@ == ic.token@,
        response.kind == InteractionResponseType::ChannelMessageWithSource,
        response.data@ == response_of(outcome_view(outcome)),
{
    let mut data: InteractionResponseData = match outcome {
        Ok(data) => data,
        Err(e) => {
            let mut content: String = String::new();
            content.append("Error: ");
            content.append(e.message());
            assert(content@ =~= "Error: "@ + e.text());
            build_text_reply(content, ephemeral())
        },
    };
    data.flags = Some(ephemeral());
    InteractionResponse {
        application_id: ic.application_id,
        interaction_id: ic.id,
        token: ic.token.clone(),
        kind: InteractionResponseType::ChannelMessageWithSource,
        data,
    }
}

/// The outcome of a command, where `read` and `deleted` are what the store gives
/// when it is asked for a row's active minutes and for the deletion of a row.
pub open spec fn command_outcome(
    data: Option<InteractionData>,
    read: Result<Option<i64>, StoreError>,
    deleted: Result<u64, StoreError>,
    required: i64,
) -> Result<InteractionResponseDataView, Error> {
    match command_of(data) {
        Ok((Route::GetProgress, user)) => progress_outcome(user, read, required),
        Ok((Route::ResetProgress, user)) => reset_outcome(user, deleted),
        Err(e) => Err(e),
    }
}

/// Showing progress fails for two reasons only: there is no target, and then the
/// store is not asked, or the store fails.
pub proof fn law_progress_fails_without_target_or_store(
    command: CommandData,
    read: Result<Option<i64>, StoreError>,
    deleted: Result<u64, StoreError>,
    required: i64,
)
    requires
        route_of(command.name@) == Some(Route::GetProgress),
    ensures
        ({
            let data = Some(InteractionData::ApplicationCommand(command));
            let outcome = command_outcome(data, read, deleted, required);
            match target_of(command) {
                Err(e) => command_of(data) == Err::<(Route, u64), Error>(e) && outcome == Err::<
                    InteractionResponseDataView,
                    Error,
                >(e),
                Ok(_) => if read is Err {
                    outcome == Err::<InteractionResponseDataView, Error>(Error::Sqlx)
                } else {
                    outcome is Ok
                },
            }
        }),
{
}

/// Taking progress away fails for two reasons only: there is no target, and then
/// the store is not asked, or the store fails.
pub proof fn law_reset_fails_without_target_or_store(
    command: CommandData,
    read: Result<Option<i64>, StoreError>,
    deleted: Result<u64, StoreError>,
    required: i64,
)
    requires
        route_of(command.name@) == Some(Route::ResetProgress),
    ensures
        ({
            let data = Some(InteractionData::ApplicationCommand(command));
            let outcome = command_outcome(data, read, deleted, required);
            match target_of(command) {
                Err(e) => command_of(data) == Err::<(Route, u64), Error>(e) && outcome == Err::<
                    InteractionResponseDataView,
                    Error,
                >(e),
                Ok(_) => if deleted is Err {
                    outcome == Err::<InteractionResponseDataView, Error>(Error::Sqlx)
                } else {
                    outcome is Ok
                },
            }
        }),
{
}

/// No answer is ever public, whatever the command did.
pub proof fn law_answers_are_ephemeral(outcome: Result<InteractionResponseDataView, Error>)
    ensures
        response_of(outcome).flags == Some(EPHEMERAL),
{
}

/// An answer says what the command answered: only its flags are fixed.
pub proof fn law_answers_keep_their_message(data: InteractionResponseDataView)
    ensures
        response_of(Ok(data)).content == data.content,
        response_of(Ok(data)).embeds == data.embeds,
{
}

/// Every error is told to the user, in its own words.
pub proof fn law_errors_are_told(e: Error)
    ensures
        response_of(Err(e)).content == Some("Error: "@ + e.text()),
{
}

/// A command on a user acts upon that user, and fails only where it came without
/// its target, whatever else came with it.
pub proof fn law_user_commands_act_upon_their_target(data: CommandData)
    requires
        data.kind is User,
    ensures
        match (data.target_id, target_of(data)) {
            (Some(t), Ok(user)) => user == t@,
            (None, Err(e)) => e == Error::NoTargetId,
            _ => false,
        },
{
}

/// A command on a message acts upon whoever wrote that message, be it a person
/// or a bot, and fails only where its target, the resolved data, or the target
/// among them did not come.
pub proof fn law_message_commands_act_upon_the_author(data: CommandData)
    requires
        data.kind is Message,
    ensures
        match (data.target_id, data.resolved, target_of(data)) {
            (Some(t), Some(resolved), Ok(user)) => resolved.messages@.contains_key(t@) && user
                == resolved.messages@[t@].id@,
            (Some(t), Some(resolved), Err(e)) => !resolved.messages@.contains_key(t@) && e
                == Error::NoAuthorResolvedData,
            (Some(_), None, Err(e)) => e == Error::NoResolvedData,
            (None, _, Err(e)) => e == Error::NoTargetId,
            _ => false,
        },
{
}

/// A slash command fails where none of its options has the name, and where the
/// first one that has it holds no user.
pub proof fn law_slash_commands_fail_without_a_user(data: CommandData, i: int)
    requires
        data.kind is ChatInput,
    ensures
        (forall|j: int|
            0 <= j < data.options@.len() ==> #[trigger] data.options@[j].name@ != SLASH_ARG_NAME@)
            ==> target_of(data) == Err::<u64, Error>(Error::NoChatInputOption),
        0 <= i < data.options@.len() && data.options@[i].name@ == SLASH_ARG_NAME@
            && data.options@[i].value is Other && (forall|j: int|
            0 <= j < i ==> #[trigger] data.options@[j].name@ != SLASH_ARG_NAME@) ==> target_of(data)
            == Err::<u64, Error>(Error::WrongChatInputOptionValue),
{
    if forall|j: int|
        0 <= j < data.options@.len() ==> #[trigger] data.options@[j].name@ != SLASH_ARG_NAME@ {
        lemma_no_named_option(data.options@);
    }
    if 0 <= i < data.options@.len() && data.options@[i].name@ == SLASH_ARG_NAME@ && (forall|j: int|
        0 <= j < i ==> #[trigger] data.options@[j].name@ != SLASH_ARG_NAME@) {
        lemma_first_named_option(data.options@, i);
    }
}

proof fn lemma_no_named_option(options: Seq<CommandDataOption>)
    requires
        forall|j: int| 0 <= j < options.len() ==> #[trigger] options[j].name@ != SLASH_ARG_NAME@,
    ensures
        target_option(options) is None,
    decreases options.len(),
{
    if options.len() > 0 {
        assert(options[0].name@ != SLASH_ARG_NAME@);
        let rest = options.drop_first();
        assert forall|j: int| 0 <= j < rest.len() implies #[trigger] rest[j].name@
            != SLASH_ARG_NAME@ by {
            assert(rest[j] == options[j + 1]);
        }
        lemma_no_named_option(rest);
    }
}

/// A command of a type that is not known has no target.
pub proof fn law_unknown_commands_have_no_target(data: CommandData)
    requires
        data.kind is Unknown,
    ensures
        target_of(data) == Err::<u64, Error>(Error::UnknownCommandType),
{
}

/// A command does what its name says, upon its target and upon nobody else; it
/// fails with the error of its target, or because nothing has that name.
pub proof fn law_commands_do_what_their_name_says(command: CommandData)
    ensures
        ({
            let shows = command.name@ == "Get Role Progress"@ || command.name@ == "progress"@;
            let resets = command.name@ == "Reset Role Progress"@ || command.name@ == "reset"@;
            match command_of(Some(InteractionData::ApplicationCommand(command))) {
                Ok((Route::GetProgress, user)) => shows && target_of(command) == Ok::<u64, Error>(
                    user,
                ),
                Ok((Route::ResetProgress, user)) => resets && target_of(command) == Ok::<
                    u64,
                    Error,
                >(user),
                Err(e) => if shows || resets {
                    target_of(command) == Err::<u64, Error>(e)
                } else {
                    e == Error::UnknownCommand
                },
            }
        }),
{
    law_routes_are_apart(command.name@);
}

/// An interaction that is no command is an error.
pub proof fn law_only_commands_are_run(data: Option<InteractionData>)
    requires
        data is None || data->0 is Other,
    ensures
        command_of(data) == Err::<(Route, u64), Error>(Error::NoInteractionData),
{
}

/// For a user with active minutes, progress tells the number of these, as it was
/// read, and the number that is required, to the user alone who asked.
pub proof fn law_progress_tells_the_minutes_that_were_read(user: u64, minutes: i64, required: i64)
    requires
        minutes != 0,
    ensures
        progress_outcome(user, Ok(Some(minutes)), required) == Ok::<
            InteractionResponseDataView,
            Error,
        >(
            InteractionResponseDataView {
                content: None,
                embeds: Some(
                    seq![
                        EmbedView {
                            kind: "rich"@,
                            description: Some(
                                "User <@"@ + decimal(user as nat) + "> has been active for "@
                                    + signed_decimal(minutes as int) + (if minutes == 1 {
                                    " minute out of "@
                                } else {
                                    " minutes out of "@
                                }) + signed_decimal(required as int)
                                    + " required to receive the role."@,
                            ),
                        },
                    ],
                ),
                flags: Some(0x40),
            },
        ),
{
    reveal_strlit("User <@");
    reveal_strlit("User ");
    reveal_strlit("<@");
    reveal_strlit("> has been active for ");
    reveal_strlit(">");
    reveal_strlit(" has been active for ");
    reveal_strlit(" minute out of ");
    reveal_strlit(" minutes out of ");
    reveal_strlit(" minute");
    reveal_strlit("");
    reveal_strlit("s");
    reveal_strlit(" out of ");
    assert(progress_text(user, minutes, required) =~= "User <@"@ + decimal(user as nat)
        + "> has been active for "@ + signed_decimal(minutes as int) + (if minutes == 1 {
        " minute out of "@
    } else {
        " minutes out of "@
    }) + signed_decimal(required as int) + " required to receive the role."@);
}

/// A user without a row and one without active minutes are both told to have no
/// activity, whatever is required.
pub proof fn law_no_minutes_are_no_activity(user: u64, read: Option<i64>, required: i64)
    requires
        read is None || read->0 == 0,
    ensures
        progress_outcome(user, Ok(read), required) == Ok::<InteractionResponseDataView, Error>(
            InteractionResponseDataView {
                content: None,
                embeds: Some(
                    seq![
                        EmbedView {
                            kind: "rich"@,
                            description: Some(
                                "<@"@ + decimal(user as nat) + "> has no activity."@,
                            ),
                        },
                    ],
                ),
                flags: Some(0x40),
            },
        ),
{
    reveal_strlit("<@");
    reveal_strlit(">");
    reveal_strlit("> has no activity.");
    reveal_strlit(" has no activity.");
    assert(mention(user) + " has no activity."@ =~= "<@"@ + decimal(user as nat)
        + "> has no activity."@);
}

/// A reset tells each user that their progress is gone if and only if a row was
/// deleted, and that there was none otherwise.
pub proof fn law_reset_tells_whether_a_row_was_deleted(user: u64, deleted: u64)
    ensures
        reset_outcome(user, Ok(deleted)) == Ok::<InteractionResponseDataView, Error>(
            InteractionResponseDataView {
                content: None,
                embeds: Some(
                    seq![
                        EmbedView {
                            kind: "rich"@,
                            description: Some(
                                "<@"@ + decimal(user as nat) + (if deleted > 0 {
                                    ">'s progress has been reset."@
                                } else {
                                    "> had no previous progress."@
                                }),
                            ),
                        },
                    ],
                ),
                flags: Some(0x40),
            },
        ),
{
    reveal_strlit("<@");
    reveal_strlit(">");
    reveal_strlit(">'s progress has been reset.");
    reveal_strlit("'s progress has been reset.");
    reveal_strlit("> had no previous progress.");
    reveal_strlit(" had no previous progress.");
    assert(reset_text(user, deleted) =~= "<@"@ + decimal(user as nat) + (if deleted > 0 {
        ">'s progress has been reset."@
    } else {
        "> had no previous progress."@
    }));
}

/// Nothing but a failure of the store makes showing or taking away progress fail
/// once the target is known, and it always does.
pub proof fn law_failures_of_the_store_are_told(
    user: u64,
    read: Result<Option<i64>, StoreError>,
    deleted: Result<u64, StoreError>,
    required: i64,
)
    ensures
        progress_outcome(user, read, required) is Err <==> read is Err,
        read is Err ==> progress_outcome(user, read, required)->Err_0 == Error::Sqlx,
        reset_outcome(user, deleted) is Err <==> deleted is Err,
        deleted is Err ==> reset_outcome(user, deleted)->Err_0 == Error::Sqlx,
{
}

/// Where two texts go on with the same character after parts that do not hold
/// it, these parts are the same, and so is what comes after them.
proof fn lemma_same_part(a: Seq<char>, x: Seq<char>, b: Seq<char>, y: Seq<char>, end: char)
    requires
        forall|i: int| 0 <= i < a.len() ==> a[i] != end,
        forall|i: int| 0 <= i < b.len() ==> b[i] != end,
        x.len() > 0,
        y.len() > 0,
        x[0] == end,
        y[0] == end,
        a + x == b + y,
    ensures
        a == b,
        x == y,
{
    if a.len() < b.len() {
        assert((a + x)[a.len() as int] == end);
        assert((b + y)[a.len() as int] == b[a.len() as int]);
    } else if b.len() < a.len() {
        assert((b + y)[b.len() as int] == end);
        assert((a + x)[b.len() as int] == a[b.len() as int]);
    }
    assert(a =~= (a + x).take(a.len() as int));
    assert(b =~= (b + y).take(b.len() as int));
    assert(x =~= (a + x).skip(a.len() as int));
    assert(y =~= (b + y).skip(b.len() as int));
}

/// A number in decimal holds neither a space nor a bracket.
proof fn lemma_decimal_chars(n: int, i: int)
    requires
        0 <= i < signed_decimal(n).len(),
    ensures
        signed_decimal(n)[i] != ' ',
        signed_decimal(n)[i] != '>',
{
    let m: nat = (if n < 0 { -n } else { n }) as nat;
    law_the_sign_comes_first(m);
    if n >= 0 {
        law_decimals_are_digits(m, i);
    } else if i > 0 {
        law_decimals_are_digits(m, i - 1);
    }
}

/// Where two texts with the same frame are the same, what is filled in is.
proof fn lemma_same_fields(
    start: Seq<char>,
    middle: Seq<char>,
    end: Seq<char>,
    a: (Seq<char>, Seq<char>, Seq<char>, Seq<char>),
    b: (Seq<char>, Seq<char>, Seq<char>, Seq<char>),
)
    requires
        start + a.0 + middle + a.1 + a.2 + a.3 + end == start + b.0 + middle + b.1 + b.2 + b.3
            + end,
        middle.len() > 0,
        middle[0] == '>',
        a.2.len() > 0,
        a.2[0] == ' ',
        b.2.len() > 0,
        b.2[0] == ' ',
        forall|i: int| 0 <= i < a.0.len() ==> a.0[i] != '>',
        forall|i: int| 0 <= i < b.0.len() ==> b.0[i] != '>',
        forall|i: int| 0 <= i < a.1.len() ==> a.1[i] != ' ',
        forall|i: int| 0 <= i < b.1.len() ==> b.1[i] != ' ',
    ensures
        a.0 == b.0,
        a.1 == b.1,
        a.2 == b.2 ==> a.3 == b.3,
{
    let s = start + a.0 + middle + a.1 + a.2 + a.3 + end;
    let m = a.2 + a.3 + end;
    let n = b.2 + b.3 + end;
    let x = middle + (a.1 + m);
    let y = middle + (b.1 + n);
    assert(s.skip(start.len() as int) =~= a.0 + x);
    assert(s.skip(start.len() as int) =~= b.0 + y);
    lemma_same_part(a.0, x, b.0, y, '>');
    assert(x.skip(middle.len() as int) =~= a.1 + m);
    assert(y.skip(middle.len() as int) =~= b.1 + n);
    lemma_same_part(a.1, m, b.1, n, ' ');
    if a.2 == b.2 {
        assert(m.len() == n.len());
        assert(a.3 =~= m.subrange(a.2.len() as int, m.len() - end.len()));
        assert(b.3 =~= n.subrange(a.2.len() as int, m.len() - end.len()));
    }
}

/// Whoever reads the progress of a user knows whose it is, how many active
/// minutes there are and, unless there are none, how many are required: where
/// any of these differs, the answer does.
pub proof fn law_progress_tells_everything(
    user: u64,
    minutes: i64,
    required: i64,
    other_user: u64,
    other_minutes: i64,
    other_required: i64,
)
    requires
        progress_outcome(user, Ok(Some(minutes)), required) == progress_outcome(
            other_user,
            Ok(Some(other_minutes)),
            other_required,
        ),
    ensures
        user == other_user,
        minutes == other_minutes,
        minutes != 0 ==> required == other_required,
{
    let s = progress_outcome(user, Ok(Some(minutes)), required)->Ok_0.embeds->0[0].description->0;
    let d = decimal(user as nat);
    let e = decimal(other_user as nat);
    law_the_sign_comes_first(user as nat);
    law_the_sign_comes_first(other_user as nat);
    assert forall|i: int| 0 <= i < d.len() implies d[i] != '>' by {
        lemma_decimal_chars(user as int, i);
    }
    assert forall|i: int| 0 <= i < e.len() implies e[i] != '>' by {
        lemma_decimal_chars(other_user as int, i);
    }
    let m = signed_decimal(minutes as int);
    let n = signed_decimal(other_minutes as int);
    assert forall|i: int| 0 <= i < m.len() implies m[i] != ' ' by {
        lemma_decimal_chars(minutes as int, i);
    }
    assert forall|i: int| 0 <= i < n.len() implies n[i] != ' ' by {
        lemma_decimal_chars(other_minutes as int, i);
    }
    lemma_progress_starts(user, minutes, required);
    lemma_progress_starts(other_user, other_minutes, other_required);
    if minutes == 0 {
        law_no_minutes_are_no_activity(user, Some(minutes), required);
        law_no_minutes_are_no_activity(other_user, Some(other_minutes), other_required);
        let x = "> has no activity."@;
        assert(x[0] == '>' && x.len() > 0) by {
            reveal_strlit("> has no activity.");
        }
        assert(s.skip("<@"@.len() as int) =~= d + x);
        assert(s.skip("<@"@.len() as int) =~= e + x);
        lemma_same_part(d, x, e, x, '>');
    } else {
        law_progress_tells_the_minutes_that_were_read(user, minutes, required);
        law_progress_tells_the_minutes_that_were_read(other_user, other_minutes, other_required);
        let one = " minute out of "@;
        let more = " minutes out of "@;
        let middle = "> has been active for "@;
        assert(one.len() > 0 && one[0] == ' ') by {
            reveal_strlit(" minute out of ");
        }
        assert(more.len() > 0 && more[0] == ' ') by {
            reveal_strlit(" minutes out of ");
        }
        assert(middle.len() > 0 && middle[0] == '>') by {
            reveal_strlit("> has been active for ");
        }
        let p = signed_decimal(required as int);
        let q = signed_decimal(other_required as int);
        lemma_same_fields(
            "User <@"@,
            middle,
            " required to receive the role."@,
            (d, m, if minutes == 1 { one } else { more }, p),
            (e, n, if other_minutes == 1 { one } else { more }, q),
        );
        law_signed_decimals_are_distinct(minutes as int, other_minutes as int);
        law_signed_decimals_are_distinct(required as int, other_required as int);
    }
    law_decimals_are_distinct(user as nat, other_user as nat);
}

/// The first character already tells whether there are any active minutes.
proof fn lemma_progress_starts(user: u64, minutes: i64, required: i64)
    ensures
        progress_outcome(user, Ok(Some(minutes)), required)->Ok_0.embeds->0[0].description->0[0]
            == (if minutes == 0 {
            '<'
        } else {
            'U'
        }),
{
    reveal_strlit("<@");
    reveal_strlit("User <@");
    if minutes == 0 {
        law_no_minutes_are_no_activity(user, Some(minutes), required);
    } else {
        law_progress_tells_the_minutes_that_were_read(user, minutes, required);
    }
}

/// Whoever reads the answer to a reset knows whose progress it was about, and
/// whether there was any.
pub proof fn law_reset_tells_everything(user: u64, deleted: u64, other_user: u64, other: u64)
    requires
        reset_outcome(user, Ok(deleted)) == reset_outcome(other_user, Ok(other)),
    ensures
        user == other_user,
        deleted == 0 <==> other == 0,
{
    let a = reset_outcome(user, Ok(deleted))->Ok_0.embeds->0[0].description->0;
    let b = reset_outcome(other_user, Ok(other))->Ok_0.embeds->0[0].description->0;
    reveal_strlit("<@");
    reveal_strlit(">");
    reveal_strlit(" had no previous progress.");
    reveal_strlit("'s progress has been reset.");
    let d = decimal(user as nat);
    let e = decimal(other_user as nat);
    law_the_sign_comes_first(user as nat);
    law_the_sign_comes_first(other_user as nat);
    assert forall|i: int| 0 <= i < d.len() implies d[i] != '>' by {
        lemma_decimal_chars(user as int, i);
    }
    assert forall|i: int| 0 <= i < e.len() implies e[i] != '>' by {
        lemma_decimal_chars(other_user as int, i);
    }
    let x = a.skip((2 + d.len()) as int);
    let y = b.skip((2 + e.len()) as int);
    assert(a.skip(2) =~= d + x);
    assert(b.skip(2) =~= e + y);
    assert(x[0] == '>' && y[0] == '>');
    lemma_same_part(d, x, e, y, '>');
    assert(x[1] == ' ' <==> deleted == 0);
    assert(y[1] == ' ' <==> other == 0);
    law_decimals_are_distinct(user as nat, other_user as nat);
}

/// The contents of an outcome are those of its message, or its error.
pub proof fn law_outcomes_hold_their_contents(data: InteractionResponseData, e: Error)
    ensures
        outcome_view(Ok(data)) == Ok::<InteractionResponseDataView, Error>(data@),
        outcome_view(Err(e)) == Err::<InteractionResponseDataView, Error>(e),
{
}

/// An error is told by its sentence and by nothing else.
pub proof fn law_errors_are_told_without_embeds(e: Error)
    ensures
        response_of(Err(e)).embeds is None,
{
}

} // verus!
