//! The parts of Discord's events that the bot reads.

use std::collections::HashMap;
use vstd::prelude::*;

use crate::id::Id;

verus! {

/// The configuration of the bot.
#[derive(Clone, Copy, Debug, PartialEq, Eq)]
pub struct AppState {
    /// The guild that the bot serves.
    pub guild_id: Id,
    /// The role that the bot grants.
    pub role_id: Id,
    /// How many active minutes earn the role.
    pub activity_minutes: i64,
    /// How many seconds have to pass between two messages that count.
    pub cooldown_seconds: i64,
    /// The application that the bot belongs to.
    pub app_id: Id,
    /// The user that the bot acts as.
    pub bot_id: Id,
}

/// The author of a message.
#[derive(Clone, Copy, Debug, PartialEq, Eq)]
pub struct User {
    pub id: Id,
    pub bot: bool,
}

/// The author of a message as a member of its guild.
#[derive(Debug, PartialEq, Eq)]
pub struct PartialMember {
    pub roles: Vec<Id>,
}

/// A message that someone wrote.
#[derive(Debug, PartialEq, Eq)]
pub struct Message {
    pub id: Id,
    pub author: User,
    pub guild_id: Option<Id>,
    pub member: Option<PartialMember>,
}

/// The type of a command.
#[derive(Clone, Copy, Debug, PartialEq, Eq, Structural)]
pub enum CommandType {
    /// A slash command.
    ChatInput,
    /// A command in the menu of a user.
    User,
    /// A command in the menu of a message.
    Message,
    /// A type that is not known here, with its number.
    Unknown(u8),
}

impl CommandType {
    /// The number that stands for the type in Discord's API.
    pub open spec fn spec_code(self) -> u8 {
        match self {
            CommandType::ChatInput => 1,
            CommandType::User => 2,
            CommandType::Message => 3,
            CommandType::Unknown(code) => code,
        }
    }

    /// The number that stands for the type in Discord's API.
    pub fn code(self) -> (code: u8)
        ensures
            code == self.spec_code(),
    {
        match self {
            CommandType::ChatInput => 1,
            CommandType::User => 2,
            CommandType::Message => 3,
            CommandType::Unknown(code) => code,
        }
    }

    /// The type that the number `code` stands for.
    pub open spec fn spec_from_code(code: u8) -> CommandType {
        if code == 1 {
            CommandType::ChatInput
        } else if code == 2 {
            CommandType::User
        } else if code == 3 {
            CommandType::Message
        } else {
            CommandType::Unknown(code)
        }
    }

    /// The type that the number `code` stands for.
    pub fn from_code(code: u8) -> (kind: CommandType)
        ensures
            kind == CommandType::spec_from_code(code),
    {
        match code {
            1 => CommandType::ChatInput,
            2 => CommandType::User,
            3 => CommandType::Message,
            _ => CommandType::Unknown(code),
        }
    }
}

/// A number keeps its meaning: the type that it stands for has that number.
pub proof fn law_command_type_keeps_code(code: u8)
    ensures
        CommandType::spec_from_code(code).spec_code() == code,
{
}

/// The value of an option of a slash command.
#[derive(Clone, Copy, Debug, PartialEq, Eq)]
pub enum CommandOptionValue {
    /// A user.
    User(Id),
    /// A value of any other type.
    Other,
}

/// An option that a slash command was used with.
#[derive(Debug, PartialEq, Eq)]
pub struct CommandDataOption {
    pub name: String,
    pub value: CommandOptionValue,
}

/// The messages that a command refers to: for the number of each message's id
/// its author.
#[derive(Debug)]
pub struct InteractionDataResolved {
    pub messages: HashMap<u64, User>,
}

/// A command that someone used.
#[derive(Debug)]
pub struct CommandData {
    pub name: String,
    pub kind: CommandType,
    pub target_id: Option<Id>,
    pub resolved: Option<InteractionDataResolved>,
    pub options: Vec<CommandDataOption>,
}

/// What an interaction is about.
#[derive(Debug)]
pub enum InteractionData {
    ApplicationCommand(CommandData),
    /// Anything but a command.
    Other,
}

/// Someone's interaction with the bot.
#[derive(Debug)]
pub struct InteractionCreate {
    pub id: Id,
    pub application_id: Id,
    pub token: String,
    pub data: Option<InteractionData>,
}

/// The types have the numbers 1, 2 and 3 in Discord's API, and any other type
/// the number that it came with. A known type is read back from its number.
pub proof fn law_command_types_have_their_numbers(kind: CommandType)
    ensures
        kind == CommandType::ChatInput ==> kind.spec_code() == 1,
        kind == CommandType::User ==> kind.spec_code() == 2,
        kind == CommandType::Message ==> kind.spec_code() == 3,
        kind matches CommandType::Unknown(code) ==> kind.spec_code() == code,
        kind !is Unknown ==> CommandType::spec_from_code(kind.spec_code()) == kind,
{
}

} // verus!
