//! The commands of the bot: which ones are registered, and which one a name
//! stands for.

use vstd::prelude::*;

use crate::model::CommandType;
use crate::payload::{
    build_command, build_user_command, guild_context, moderate_members, Command, CommandOptionView,
    CommandView, GUILD_CONTEXT, MODERATE_MEMBERS, USER_OPTION,
};

verus! {

/// The name of the menu command that shows someone's progress.
pub const GET_PROGRESS_NAME_CTX: &'static str = "Get Role Progress";

/// The name of the menu command that takes someone's progress away.
pub const RESET_PROGRESS_NAME_CTX: &'static str = "Reset Role Progress";

/// The name of the slash command that shows someone's progress.
pub const GET_PROGRESS_NAME_SLASH: &'static str = "progress";

/// The name of the slash command that takes someone's progress away.
pub const RESET_PROGRESS_NAME_SLASH: &'static str = "reset";

/// The name of the option in which a slash command gets its target.
pub const SLASH_ARG_NAME: &'static str = "name";

/// What a command does.
#[derive(Clone, Copy, Debug, PartialEq, Eq, Structural)]
pub enum Route {
    GetProgress,
    ResetProgress,
}

/// What the command with the name `name` does, where there is one.
pub open spec fn route_of(name: Seq<char>) -> Option<Route> {
    if name == GET_PROGRESS_NAME_CTX@ || name == GET_PROGRESS_NAME_SLASH@ {
        Some(Route::GetProgress)
    } else if name == RESET_PROGRESS_NAME_CTX@ || name == RESET_PROGRESS_NAME_SLASH@ {
        Some(Route::ResetProgress)
    } else {
        None
    }
}

/// What the command with the name `name` does, where there is one. The name
/// alone decides.
pub fn route(name: &String) -> (route: Option<Route>)
    ensures
        route == route_of(name@),
{
    if *name == GET_PROGRESS_NAME_CTX.to_string() || *name == GET_PROGRESS_NAME_SLASH.to_string() {
        Some(Route::GetProgress)
    } else if *name == RESET_PROGRESS_NAME_CTX.to_string() || *name
        == RESET_PROGRESS_NAME_SLASH.to_string() {
        Some(Route::ResetProgress)
    } else {
        None
    }
}

/// A command in a menu, for moderators in a guild.
pub open spec fn menu_command(name: Seq<char>, kind: CommandType) -> CommandView {
    CommandView {
        name,
        description: ""@,
        kind: kind.spec_code(),
        default_member_permissions: Some(MODERATE_MEMBERS),
        contexts: Some(seq![GUILD_CONTEXT]),
        options: seq![],
        version: 1,
    }
}

/// A slash command for moderators in a guild, with the required option that
/// names the user to act upon.
pub open spec fn slash_command(name: Seq<char>, description: Seq<char>) -> CommandView {
    CommandView {
        name,
        description,
        kind: CommandType::ChatInput.spec_code(),
        default_member_permissions: Some(MODERATE_MEMBERS),
        contexts: Some(seq![GUILD_CONTEXT]),
        options: seq![
            CommandOptionView {
                name: SLASH_ARG_NAME@,
                description: "Which user to target"@,
                kind: USER_OPTION,
                required: Some(true),
            },
        ],
        version: 1,
    }
}

/// The commands that the bot registers.
pub open spec fn registered() -> Seq<CommandView> {
    seq![
        menu_command(GET_PROGRESS_NAME_CTX@, CommandType::Message),
        menu_command(GET_PROGRESS_NAME_CTX@, CommandType::User),
        menu_command(RESET_PROGRESS_NAME_CTX@, CommandType::Message),
        menu_command(RESET_PROGRESS_NAME_CTX@, CommandType::User),
        slash_command(GET_PROGRESS_NAME_SLASH@, "Get a user's leveling progress."@),
        slash_command(RESET_PROGRESS_NAME_SLASH@, "Reset a user's leveling progress."@),
    ]
}

fn build_menu_command(name: &str, kind: CommandType) -> (command: Command)
    ensures
        command@ == menu_command(name@, kind),
{
    build_command(name, "", kind.code(), moderate_members(), guild_context())
}

fn build_slash_command(name: &str, description: &str) -> (command: Command)
    ensures
        command@ == slash_command(name@, description@),
{
    build_user_command(
        name,
        description,
        CommandType::ChatInput.code(),
        moderate_members(),
        guild_context(),
        SLASH_ARG_NAME,
        "Which user to target",
        true,
    )
}

/// The commands that the bot registers.
pub fn get_commands() -> (commands: Vec<Command>)
    ensures
        commands@.map_values(|command: Command| command@) == registered(),
{
    let mut commands: Vec<Command> = Vec::new();
    commands.push(build_menu_command(GET_PROGRESS_NAME_CTX, CommandType::Message));
    commands.push(build_menu_command(GET_PROGRESS_NAME_CTX, CommandType::User));
    commands.push(build_menu_command(RESET_PROGRESS_NAME_CTX, CommandType::Message));
    commands.push(build_menu_command(RESET_PROGRESS_NAME_CTX, CommandType::User));
    commands.push(build_slash_command(GET_PROGRESS_NAME_SLASH, "Get a user's leveling progress."));
    commands.push(
        build_slash_command(RESET_PROGRESS_NAME_SLASH, "Reset a user's leveling progress."),
    );
    assert(commands@.map_values(|command: Command| command@) =~= registered());
    commands
}

/// Every registered command is routed, is of a known type, and is for
/// moderators and for guilds only.
pub proof fn law_registered_commands_are_handled(i: int)
    requires
        0 <= i < registered().len(),
    ensures
        route_of(registered()[i].name) is Some,
        CommandType::spec_from_code(registered()[i].kind) !is Unknown,
        registered()[i].default_member_permissions == Some(MODERATE_MEMBERS),
        registered()[i].contexts == Some(seq![GUILD_CONTEXT]),
{
}

/// Of the registered commands exactly the slash commands take options: one,
/// which is required, holds a user, and has the name under which the target of
/// a slash command is looked up.
pub proof fn law_slash_commands_name_their_target(i: int)
    requires
        0 <= i < registered().len(),
    ensures
        registered()[i].options.len() == (if registered()[i].kind
            == CommandType::ChatInput.spec_code() {
            1int
        } else {
            0
        }),
        forall|j: int|
            0 <= j < registered()[i].options.len() ==> {
                let option = #[trigger] registered()[i].options[j];
                &&& option.name == SLASH_ARG_NAME@
                &&& option.kind == USER_OPTION
                &&& option.required == Some(true)
            },
{
}

/// Each name that is routed is registered.
pub proof fn law_registered_commands_cover_the_routes(name: Seq<char>)
    requires
        route_of(name) is Some,
    ensures
        exists|i: int| 0 <= i < registered().len() && #[trigger] registered()[i].name == name,
{
    assert(registered()[0].name == GET_PROGRESS_NAME_CTX@);
    assert(registered()[2].name == RESET_PROGRESS_NAME_CTX@);
    assert(registered()[4].name == GET_PROGRESS_NAME_SLASH@);
    assert(registered()[5].name == RESET_PROGRESS_NAME_SLASH@);
}

/// No two registered commands have both the same name and the same type.
pub proof fn law_registered_commands_are_distinct(i: int, j: int)
    requires
        0 <= i < j < registered().len(),
    ensures
        registered()[i].name != registered()[j].name || registered()[i].kind
            != registered()[j].kind,
{
    lemma_names_are_distinct();
}

/// Showing and taking away progress go by different names: a name is routed to
/// one of them if and only if it is one of its two names.
pub proof fn law_routes_are_apart(name: Seq<char>)
    ensures
        route_of(name) == Some(Route::GetProgress) <==> name == GET_PROGRESS_NAME_CTX@ || name
            == GET_PROGRESS_NAME_SLASH@,
        route_of(name) == Some(Route::ResetProgress) <==> name == RESET_PROGRESS_NAME_CTX@ || name
            == RESET_PROGRESS_NAME_SLASH@,
{
    lemma_names_are_distinct();
}

proof fn lemma_names_are_distinct()
    ensures
        GET_PROGRESS_NAME_CTX@.len() == 17,
        RESET_PROGRESS_NAME_CTX@.len() == 19,
        GET_PROGRESS_NAME_SLASH@.len() == 8,
        RESET_PROGRESS_NAME_SLASH@.len() == 5,
{
    reveal_strlit("Get Role Progress");
    reveal_strlit("Reset Role Progress");
    reveal_strlit("progress");
    reveal_strlit("reset");
}

} // verus!
