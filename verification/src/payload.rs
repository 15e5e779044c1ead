//! What the bot sends to Discord. The payloads are put together by the builders
//! of `twilight_util`; here they are held as plain values.

use twilight_model::application::command::CommandType;
use twilight_model::application::interaction::InteractionContextType;
use twilight_model::channel::message::MessageFlags;
use twilight_model::guild::Permissions;
use twilight_util::builder::command::{CommandBuilder, UserBuilder};
use twilight_util::builder::embed::EmbedBuilder;
use twilight_util::builder::InteractionResponseDataBuilder;
use vstd::prelude::*;

verus! {

/// An option of a slash command.
#[derive(Debug, PartialEq, Eq)]
pub struct CommandOption {
    pub name: String,
    pub description: String,
    /// The number of the option's type.
    pub kind: u8,
    pub required: Option<bool>,
}

/// The contents of a `CommandOption`.
pub struct CommandOptionView {
    pub name: Seq<char>,
    pub description: Seq<char>,
    pub kind: u8,
    pub required: Option<bool>,
}

impl View for CommandOption {
    type V = CommandOptionView;

    open spec fn view(&self) -> CommandOptionView {
        CommandOptionView {
            name: self.name@,
            description: self.description@,
            kind: self.kind,
            required: self.required,
        }
    }
}

/// A command as it is registered.
#[derive(Debug, PartialEq, Eq)]
pub struct Command {
    pub name: String,
    pub description: String,
    /// The number of the command's type.
    pub kind: u8,
    /// The bits of the permissions that a member needs to use the command.
    pub default_member_permissions: Option<u64>,
    /// The numbers of the places in which the command can be used.
    pub contexts: Option<Vec<u8>>,
    pub options: Vec<CommandOption>,
    pub version: u64,
}

/// The contents of a `Command`.
pub struct CommandView {
    pub name: Seq<char>,
    pub description: Seq<char>,
    pub kind: u8,
    pub default_member_permissions: Option<u64>,
    pub contexts: Option<Seq<u8>>,
    pub options: Seq<CommandOptionView>,
    pub version: u64,
}

impl View for Command {
    type V = CommandView;

    open spec fn view(&self) -> CommandView {
        CommandView {
            name: self.name@,
            description: self.description@,
            kind: self.kind,
            default_member_permissions: self.default_member_permissions,
            contexts: match self.contexts {
                Some(contexts) => Some(contexts@),
                None => None,
            },
            options: self.options@.map_values(|option: CommandOption| option@),
            version: self.version,
        }
    }
}

/// An embed of a message.
#[derive(Debug, PartialEq, Eq)]
pub struct Embed {
    pub kind: String,
    pub description: Option<String>,
}

/// The contents of an `Embed`.
pub struct EmbedView {
    pub kind: Seq<char>,
    pub description: Option<Seq<char>>,
}

impl View for Embed {
    type V = EmbedView;

    open spec fn view(&self) -> EmbedView {
        EmbedView {
            kind: self.kind@,
            description: match self.description {
                Some(description) => Some(description@),
                None => None,
            },
        }
    }
}

/// The message that answers an interaction.
#[derive(Debug, PartialEq, Eq)]
pub struct InteractionResponseData {
    pub content: Option<String>,
    pub embeds: Option<Vec<Embed>>,
    /// The bits of the message's flags.
    pub flags: Option<u64>,
}

/// The contents of an `InteractionResponseData`.
pub struct InteractionResponseDataView {
    pub content: Option<Seq<char>>,
    pub embeds: Option<Seq<EmbedView>>,
    pub flags: Option<u64>,
}

impl View for InteractionResponseData {
    type V = InteractionResponseDataView;

    open spec fn view(&self) -> InteractionResponseDataView {
        InteractionResponseDataView {
            content: match self.content {
                Some(content) => Some(content@),
                None => None,
            },
            embeds: match self.embeds {
                Some(embeds) => Some(embeds@.map_values(|embed: Embed| embed@)),
                None => None,
            },
            flags: self.flags,
        }
    }
}

/// The bit of the permission to moderate members.
pub const MODERATE_MEMBERS: u64 = 0x100_0000_0000;

/// The bit of the flag that shows a message to nobody but the user whose
/// interaction it answers.
pub const EPHEMERAL: u64 = 0x40;

/// The number of the context in which commands are used inside a guild.
pub const GUILD_CONTEXT: u8 = 0;

/// The number of the type of an option that holds a user.
pub const USER_OPTION: u8 = 6;

/// `Permissions::MODERATE_MEMBERS` of `twilight_model`, as bits: the bit 40.
#[verifier::external_body]
pub(crate) fn moderate_members() -> (bits: u64)
    ensures
        bits == MODERATE_MEMBERS,
{
    Permissions::MODERATE_MEMBERS.bits()
}

/// `MessageFlags::EPHEMERAL` of `twilight_model`, as bits: the bit 6.
#[verifier::external_body]
pub(crate) fn ephemeral() -> (bits: u64)
    ensures
        bits == EPHEMERAL,
{
    MessageFlags::EPHEMERAL.bits()
}

/// `InteractionContextType::Guild` of `twilight_model`, as the number that its
/// conversion to `u8` gives.
#[verifier::external_body]
pub(crate) fn guild_context() -> (code: u8)
    ensures
        code == GUILD_CONTEXT,
{
    u8::from(InteractionContextType::Guild)
}

/// `CommandBuilder` of `twilight_util`: `new`, `default_member_permissions`,
/// `contexts` and `build`. The command holds what was handed in, no option, and
/// the version 1. Its other fields, which stay unset, are not carried over.
#[verifier::external_body]
pub(crate) fn build_command(
    name: &str,
    description: &str,
    kind: u8,
    permissions: u64,
    context: u8,
) -> (command: Command)
    ensures
        command@ == (CommandView {
            name: name@,
            description: description@,
            kind,
            default_member_permissions: Some(permissions),
            contexts: Some(seq![context]),
            options: seq![],
            version: 1,
        }),
{
    let built = CommandBuilder::new(name, description, CommandType::from(kind))
        .default_member_permissions(Permissions::from_bits_retain(permissions))
        .contexts([InteractionContextType::from(context)])
        .build();
    Command {
        name: built.name,
        description: built.description,
        kind: u8::from(built.kind),
        default_member_permissions: built.default_member_permissions.map(|p| p.bits()),
        contexts: built.contexts.map(|c| c.into_iter().map(u8::from).collect()),
        options: built.options.into_iter().map(|o| CommandOption {
            name: o.name, description: o.description, kind: o.kind as u8, required: o.required,
        }).collect(),
        version: built.version.get(),
    }
}

/// `CommandBuilder` of `twilight_util` as in `build_command`, and its `option`
/// with what `UserBuilder::new` and `UserBuilder::required` give: the command
/// holds one option, which takes a user, has the name and the description that
/// were handed in, and is required if and only if that was asked for.
#[verifier::external_body]
pub(crate) fn build_user_command(
    name: &str,
    description: &str,
    kind: u8,
    permissions: u64,
    context: u8,
    option_name: &str,
    option_description: &str,
    required: bool,
) -> (command: Command)
    ensures
        command@ == (CommandView {
            name: name@,
            description: description@,
            kind,
            default_member_permissions: Some(permissions),
            contexts: Some(seq![context]),
            options: seq![
                CommandOptionView {
                    name: option_name@,
                    description: option_description@,
                    kind: USER_OPTION,
                    required: Some(required),
                },
            ],
            version: 1,
        }),
{
    let built = CommandBuilder::new(name, description, CommandType::from(kind))
        .default_member_permissions(Permissions::from_bits_retain(permissions))
        .contexts([InteractionContextType::from(context)])
        .option(UserBuilder::new(option_name, option_description).required(required)).build();
    Command {
        name: built.name,
        description: built.description,
        kind: u8::from(built.kind),
        default_member_permissions: built.default_member_permissions.map(|p| p.bits()),
        contexts: built.contexts.map(|c| c.into_iter().map(u8::from).collect()),
        options: built.options.into_iter().map(|o| CommandOption {
            name: o.name, description: o.description, kind: o.kind as u8, required: o.required,
        }).collect(),
        version: built.version.get(),
    }
}

/// `EmbedBuilder` of `twilight_util` (`new`, `description`, `build`) and its
/// `InteractionResponseDataBuilder` (`new`, `embeds`, `flags`, `build`): the
/// message has no content, the flags that were handed in and one embed, which
/// is of the kind "rich" and has the description that was handed in. The other
/// fields, which stay unset, are not carried over.
#[verifier::external_body]
pub(crate) fn build_embed_reply(description: String, flags: u64) -> (data: InteractionResponseData)
    ensures
        data@ == (InteractionResponseDataView {
            content: None,
            embeds: Some(seq![EmbedView { kind: "rich"@, description: Some(description@) }]),
            flags: Some(flags),
        }),
{
    let built = InteractionResponseDataBuilder::new()
        .embeds([EmbedBuilder::new().description(description).build()])
        .flags(MessageFlags::from_bits_retain(flags))
        .build();
    InteractionResponseData {
        content: built.content,
        embeds: built.embeds.map(|embeds| embeds.into_iter().map(|e| Embed {
            kind: e.kind, description: e.description,
        }).collect()),
        flags: built.flags.map(|f| f.bits()),
    }
}

/// `InteractionResponseDataBuilder` of `twilight_util` (`new`, `content`,
/// `flags`, `build`): the message has the content and the flags that were
/// handed in and no embeds. The other fields, which stay unset, are not
/// carried over.
#[verifier::external_body]
pub(crate) fn build_text_reply(content: String, flags: u64) -> (data: InteractionResponseData)
    ensures
        data@ == (InteractionResponseDataView {
            content: Some(content@),
            embeds: None,
            flags: Some(flags),
        }),
{
    let built = InteractionResponseDataBuilder::new()
        .content(content)
        .flags(MessageFlags::from_bits_retain(flags))
        .build();
    InteractionResponseData {
        content: built.content,
        embeds: built.embeds.map(|embeds| embeds.into_iter().map(|e| Embed {
            kind: e.kind, description: e.description,
        }).collect()),
        flags: built.flags.map(|f| f.bits()),
    }
}

/// The contents of an answer are its fields, each as it is.
pub proof fn law_answers_hold_their_fields(data: InteractionResponseData, i: int)
    ensures
        data@.flags == data.flags,
        data@.content is Some <==> data.content is Some,
        data.content is Some ==> data@.content->0 == data.content->0@,
        data@.embeds is Some <==> data.embeds is Some,
        data.embeds is Some ==> data@.embeds->0.len() == data.embeds->0@.len(),
        data.embeds is Some && 0 <= i < data.embeds->0@.len() ==> {
            let shown = data@.embeds->0[i];
            let embed = data.embeds->0@[i];
            &&& shown.kind == embed.kind@
            &&& shown.description is Some <==> embed.description is Some
            &&& embed.description is Some ==> shown.description->0 == embed.description->0@
        },
{
}

/// The contents of a command are its fields, each as it is.
pub proof fn law_commands_hold_their_fields(command: Command, i: int)
    ensures
        command@.name == command.name@,
        command@.description == command.description@,
        command@.kind == command.kind,
        command@.default_member_permissions == command.default_member_permissions,
        command@.contexts is Some <==> command.contexts is Some,
        command.contexts is Some ==> command@.contexts->0 == command.contexts->0@,
        command@.version == command.version,
        command@.options.len() == command.options@.len(),
        0 <= i < command.options@.len() ==> {
            let shown = command@.options[i];
            let option = command.options@[i];
            &&& shown.name == option.name@
            &&& shown.description == option.description@
            &&& shown.kind == option.kind
            &&& shown.required == option.required
        },
{
}

} // verus!
