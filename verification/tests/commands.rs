use tinylevel::commands::{get_commands, route, Route};
use tinylevel::model::CommandType;
use twilight_model::application::command::{CommandOptionType, CommandType as ModelCommandType};
use twilight_model::application::interaction::InteractionContextType;
use twilight_model::guild::Permissions;

#[test]
fn six_commands_are_registered() {
    let commands = get_commands();
    let summary: Vec<(&str, &str, u8, usize)> = commands
        .iter()
        .map(|c| (c.name.as_str(), c.description.as_str(), c.kind, c.options.len()))
        .collect();
    assert_eq!(
        summary,
        vec![
            ("Get Role Progress", "", 3, 0),
            ("Get Role Progress", "", 2, 0),
            ("Reset Role Progress", "", 3, 0),
            ("Reset Role Progress", "", 2, 0),
            ("progress", "Get a user's leveling progress.", 1, 1),
            ("reset", "Reset a user's leveling progress.", 1, 1),
        ]
    );
}

#[test]
fn commands_are_for_moderators_in_guilds() {
    for command in get_commands() {
        assert_eq!(
            command.default_member_permissions,
            Some(Permissions::MODERATE_MEMBERS.bits())
        );
        assert_eq!(command.default_member_permissions, Some(1 << 40));
        assert_eq!(
            command.contexts,
            Some(vec![u8::from(InteractionContextType::Guild)])
        );
        assert_eq!(command.version, 1);
    }
}

#[test]
fn slash_commands_take_a_required_user() {
    for command in get_commands() {
        for option in &command.options {
            assert_eq!(option.name, "name");
            assert_eq!(option.description, "Which user to target");
            assert_eq!(option.kind, CommandOptionType::User as u8);
            assert_eq!(option.required, Some(true));
        }
        assert_eq!(command.options.is_empty(), command.kind != CommandType::ChatInput.code());
    }
}

#[test]
fn every_registered_command_is_routed() {
    for command in get_commands() {
        assert!(route(&command.name).is_some());
        assert!(!matches!(CommandType::from_code(command.kind), CommandType::Unknown(_)));
    }
}

#[test]
fn registered_commands_are_distinct() {
    let commands = get_commands();
    for (i, a) in commands.iter().enumerate() {
        for b in &commands[i + 1..] {
            assert!(a.name != b.name || a.kind != b.kind);
        }
    }
}

#[test]
fn names_are_routed() {
    assert_eq!(route(&"Get Role Progress".to_string()), Some(Route::GetProgress));
    assert_eq!(route(&"progress".to_string()), Some(Route::GetProgress));
    assert_eq!(route(&"Reset Role Progress".to_string()), Some(Route::ResetProgress));
    assert_eq!(route(&"reset".to_string()), Some(Route::ResetProgress));
    assert_eq!(route(&"Progress".to_string()), None);
    assert_eq!(route(&String::new()), None);
}

#[test]
fn type_numbers_are_those_of_discord() {
    for code in 0..=u8::MAX {
        let kind = CommandType::from_code(code);
        assert_eq!(kind.code(), code);
        let expected = match ModelCommandType::from(code) {
            ModelCommandType::ChatInput => CommandType::ChatInput,
            ModelCommandType::User => CommandType::User,
            ModelCommandType::Message => CommandType::Message,
            _ => CommandType::Unknown(code),
        };
        assert_eq!(kind, expected);
    }
}
