//! What can go wrong while an event is handled, and how it is told.

use vstd::prelude::*;

verus! {

/// Why an event could not be handled.
#[derive(Clone, Copy, Debug, PartialEq, Eq, Structural)]
pub enum Error {
    /// A request to the Discord API failed.
    DiscordApi,
    /// A query of the database failed.
    Sqlx,
    /// A command on a message came without its resolved data.
    NoResolvedData,
    /// The resolved data do not hold the message that the command was used on.
    NoAuthorResolvedData,
    /// The interaction is not a command.
    NoInteractionData,
    /// A message came without the member who wrote it.
    NoPartialMember,
    /// An event came without the guild that it happened in.
    NoGuildId,
    /// No command has this name.
    UnknownCommand,
    /// Commands of this type are not known.
    UnknownCommandType,
    /// A command on a user or a message came without the id of its target.
    NoTargetId,
    /// A slash command came without the option that names its target.
    NoChatInputOption,
    /// The option that names the target of a slash command holds no user.
    WrongChatInputOptionValue,
}

impl Error {
    /// The sentence that tells a user about the error.
    pub open spec fn text(self) -> Seq<char> {
        match self {
            Error::DiscordApi => "twilight-http error"@,
            Error::Sqlx => "sqlx error"@,
            Error::NoResolvedData =>
                "Discord did not send the resolved data section of the interaction!"@,
            Error::NoAuthorResolvedData =>
                "Discord did not send a message author matching the target of the interaction!"@,
            Error::NoInteractionData => "Discord did not send the target of the interaction!"@,
            Error::NoPartialMember => "Discord did not send the partial member for this message!"@,
            Error::NoGuildId => "Discord did not send guild ID"@,
            Error::UnknownCommand => "There is no command with this name"@,
            Error::UnknownCommandType =>
                "There is a command with this name, but not with this type"@,
            Error::NoTargetId => "Discord did not send a target ID"@,
            Error::NoChatInputOption => "Required argument was not found"@,
            Error::WrongChatInputOptionValue => "Required argument was of wrong type"@,
        }
    }

    /// The sentence that tells a user about the error.
    pub fn message(self) -> (message: &'static str)
        ensures
            message@ == self.text(),
    {
        match self {
            Error::DiscordApi => "twilight-http error",
            Error::Sqlx => "sqlx error",
            Error::NoResolvedData =>
                "Discord did not send the resolved data section of the interaction!",
            Error::NoAuthorResolvedData =>
                "Discord did not send a message author matching the target of the interaction!",
            Error::NoInteractionData => "Discord did not send the target of the interaction!",
            Error::NoPartialMember => "Discord did not send the partial member for this message!",
            Error::NoGuildId => "Discord did not send guild ID",
            Error::UnknownCommand => "There is no command with this name",
            Error::UnknownCommandType =>
                "There is a command with this name, but not with this type",
            Error::NoTargetId => "Discord did not send a target ID",
            Error::NoChatInputOption => "Required argument was not found",
            Error::WrongChatInputOptionValue => "Required argument was of wrong type",
        }
    }
}

/// How loudly the outcome of a handler is logged.
#[derive(Clone, Copy, Debug, PartialEq, Eq, Structural)]
pub enum Severity {
    /// Something that Discord did.
    Warn,
    /// Something that this bot, or its database, did.
    Error,
}

/// How loudly the outcome of a handler is logged, where it is.
pub open spec fn severity_of(outcome: Result<(), Error>) -> Option<Severity> {
    match outcome {
        Ok(()) => None,
        Err(e) => if e == Error::DiscordApi {
            Some(Severity::Warn)
        } else {
            Some(Severity::Error)
        },
    }
}

/// What is logged of the outcome of a handler: nothing of a success, a warning
/// of an error of the Discord API, an error of anything else.
pub fn report(outcome: Result<(), Error>) -> (severity: Option<Severity>)
    ensures
        severity == severity_of(outcome),
{
    match outcome {
        Ok(()) => None,
        Err(Error::DiscordApi) => Some(Severity::Warn),
        Err(_) => Some(Severity::Error),
    }
}

/// Failures are logged, and nothing but failures: those of the Discord API as
/// warnings, and no others.
pub proof fn law_only_discord_is_warned_of(e: Error)
    ensures
        severity_of(Ok(())) is None,
        severity_of(Err(e)) is Some,
        severity_of(Err(e))->0 is Warn <==> e is DiscordApi,
{
}

/// Each error has a sentence of its own: whoever reads it knows which one it was.
pub proof fn law_errors_are_told_apart(a: Error, b: Error)
    requires
        a.text() == b.text(),
    ensures
        a == b,
{
    reveal_strlit("twilight-http error");
    reveal_strlit("sqlx error");
    reveal_strlit("Discord did not send the resolved data section of the interaction!");
    reveal_strlit(
        "Discord did not send a message author matching the target of the interaction!",
    );
    reveal_strlit("Discord did not send the target of the interaction!");
    reveal_strlit("Discord did not send the partial member for this message!");
    reveal_strlit("Discord did not send guild ID");
    reveal_strlit("There is no command with this name");
    reveal_strlit("There is a command with this name, but not with this type");
    reveal_strlit("Discord did not send a target ID");
    reveal_strlit("Required argument was not found");
    reveal_strlit("Required argument was of wrong type");
    assert(Error::DiscordApi.text().len() == 19);
    assert(Error::Sqlx.text().len() == 10);
    assert(Error::NoResolvedData.text().len() == 66);
    assert(Error::NoAuthorResolvedData.text().len() == 77);
    assert(Error::NoInteractionData.text().len() == 51);
    assert(Error::NoPartialMember.text().len() == 57);
    assert(Error::NoGuildId.text().len() == 29);
    assert(Error::UnknownCommand.text().len() == 34);
    assert(Error::UnknownCommandType.text().len() == 57);
    assert(Error::NoTargetId.text().len() == 32);
    assert(Error::NoChatInputOption.text().len() == 31);
    assert(Error::WrongChatInputOptionValue.text().len() == 35);
    assert(Error::NoPartialMember.text()[0] == 'D');
    assert(Error::UnknownCommandType.text()[0] == 'T');
}

} // verus!
