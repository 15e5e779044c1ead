use std::collections::HashMap;

use tinylevel::activity::{handle_message, record_activity, role_grant, Activity, Reaction, Skip, UserRow};
use tinylevel::error::Error;
use tinylevel::id::Id;
use tinylevel::interaction::{get_progress, reset_progress};
use tinylevel::model::{AppState, Message, PartialMember, User};
use tinylevel::payload::InteractionResponseData;

fn id(n: u64) -> Id {
    Id::new_checked(n).unwrap()
}

fn state(activity_minutes: i64, cooldown_seconds: i64) -> AppState {
    AppState {
        guild_id: id(10),
        role_id: id(20),
        activity_minutes,
        cooldown_seconds,
        app_id: id(30),
        bot_id: id(40),
    }
}

fn message(author: u64, second: u64) -> Message {
    Message {
        id: id((second * 1000) << 22 | 5),
        author: User { id: id(author), bot: false },
        guild_id: Some(id(10)),
        member: Some(PartialMember { roles: vec![id(21), id(22)] }),
    }
}

fn row(active_minutes: i64, last_message: i64) -> UserRow {
    UserRow { active_minutes, last_message }
}

fn at(second: i64) -> Activity {
    Activity { user: id(7), key: 7, at: second }
}

/// Writes a message of `author` in the second `second`; tells whether the role was earned.
fn write(rows: &mut HashMap<i64, UserRow>, author: u64, second: u64, state: &AppState) -> bool {
    let activity = match handle_message(&message(author, second), state) {
        Ok(Reaction::Record(activity)) => activity,
        other => panic!("{other:?}"),
    };
    let written = record_activity(rows.get(&activity.key).copied(), &activity, state);
    if let Some(row) = written {
        rows.insert(activity.key, row);
    }
    role_grant(written, &activity, state).is_some()
}

/// The answer that shows the progress of `user`.
fn shown(rows: &HashMap<i64, UserRow>, user: u64, state: &AppState) -> InteractionResponseData {
    let read = rows.get(&(user as i64)).map(|r| r.active_minutes);
    get_progress(id(user), Ok(read), state).unwrap()
}

#[test]
fn messages_become_activity() {
    let activity = handle_message(&message(u64::MAX, 12), &state(60, 60));
    let expected = Activity { user: id(u64::MAX), key: -1, at: 12 };
    assert_eq!(activity, Ok(Reaction::Record(expected)));
}

#[test]
fn messages_without_member_are_errors() {
    let mut mc = message(7, 12);
    mc.member = None;
    assert_eq!(handle_message(&mc, &state(60, 60)), Err(Error::NoPartialMember));
    mc.author.bot = true;
    mc.guild_id = None;
    assert_eq!(handle_message(&mc, &state(60, 60)), Err(Error::NoPartialMember));
}

#[test]
fn messages_that_cannot_count_are_ignored() {
    let skip = |bot, incorrect_guild, has_role| {
        Ok(Reaction::Ignore(Skip { bot, incorrect_guild, has_role }))
    };
    let mut bot = message(7, 12);
    bot.author.bot = true;
    assert_eq!(handle_message(&bot, &state(60, 60)), skip(true, false, false));
    let mut elsewhere = message(7, 12);
    elsewhere.guild_id = Some(id(11));
    assert_eq!(handle_message(&elsewhere, &state(60, 60)), skip(false, true, false));
    let mut nowhere = message(7, 12);
    nowhere.guild_id = None;
    assert_eq!(handle_message(&nowhere, &state(60, 60)), skip(false, true, false));
    let mut has_role = message(7, 12);
    has_role.member.as_mut().unwrap().roles.push(id(20));
    assert_eq!(handle_message(&has_role, &state(60, 60)), skip(false, false, true));
    has_role.author.bot = true;
    has_role.guild_id = None;
    assert_eq!(handle_message(&has_role, &state(60, 60)), skip(true, true, true));
}

#[test]
fn first_message_counts() {
    assert_eq!(record_activity(None, &at(0), &state(60, i64::MAX)), Some(row(1, 0)));
}

#[test]
fn cooldown_is_kept_to_the_second() {
    let state = state(60, 60);
    assert_eq!(record_activity(Some(row(5, 100)), &at(159), &state), None);
    assert_eq!(record_activity(Some(row(5, 100)), &at(160), &state), Some(row(6, 160)));
    assert_eq!(record_activity(Some(row(5, 100)), &at(99), &state), None);
}

#[test]
fn extreme_cooldowns_do_not_overflow() {
    let long = state(60, i64::MAX);
    assert_eq!(record_activity(Some(row(5, 100)), &at(i64::MAX), &long), None);
    assert_eq!(record_activity(Some(row(5, 0)), &at(i64::MAX), &long), Some(row(6, i64::MAX)));
    let negative = state(60, i64::MIN);
    assert_eq!(record_activity(Some(row(5, -1)), &at(i64::MIN), &negative), Some(row(6, i64::MIN)));
    let none = state(60, 0);
    assert_eq!(record_activity(Some(row(5, 100)), &at(100), &none), Some(row(6, 100)));
}

#[test]
fn minutes_stop_at_the_largest_number() {
    let full = Some(row(i64::MAX, 0));
    assert_eq!(record_activity(full, &at(60), &state(60, 60)), Some(row(i64::MAX, 60)));
}

#[test]
fn role_is_granted_from_the_required_minutes_on() {
    let state = state(60, 60);
    assert_eq!(role_grant(Some(row(59, 0)), &at(0), &state), None);
    for minutes in [60, 61] {
        let grant = role_grant(Some(row(minutes, 0)), &at(0), &state).unwrap();
        assert_eq!(grant.guild_id, id(10));
        assert_eq!(grant.user_id, id(7));
        assert_eq!(grant.role_id, id(20));
    }
    assert_eq!(role_grant(None, &at(0), &state), None);
}

#[test]
fn spaced_messages_all_count_and_earn_the_role() {
    let state = state(3, 60);
    let mut rows = HashMap::new();
    let earned: Vec<bool> = [0, 60, 125, 200]
        .iter()
        .map(|second| write(&mut rows, 7, *second, &state))
        .collect();
    assert_eq!(earned, vec![false, false, true, true]);
    assert_eq!(rows[&7], row(4, 200));
}

#[test]
fn bursts_count_once() {
    let state = state(1, 60);
    let mut rows = HashMap::new();
    assert!(write(&mut rows, 7, 10, &state));
    for second in 10..70 {
        assert!(!write(&mut rows, 7, second, &state));
        assert_eq!(rows[&7], row(1, 10));
    }
    assert!(write(&mut rows, 7, 70, &state));
    assert_eq!(rows[&7], row(2, 70));
}

#[test]
fn minutes_take_their_time() {
    let state = state(60, 60);
    let mut rows = HashMap::new();
    for second in (0..1000).step_by(7) {
        write(&mut rows, 7, second, &state);
        let row = rows[&7];
        assert!(60 * (row.active_minutes - 1) <= row.last_message);
    }
}

#[test]
fn users_do_not_share_rows() {
    let state = state(60, 60);
    let mut rows = HashMap::new();
    write(&mut rows, 7, 0, &state);
    write(&mut rows, 8, 1, &state);
    write(&mut rows, 8, 100, &state);
    assert_eq!(rows[&7], row(1, 0));
    assert_eq!(rows[&8], row(2, 100));
}

#[test]
fn progress_shows_what_was_recorded_until_it_is_reset() {
    let state = state(60, 60);
    let mut rows = HashMap::new();
    write(&mut rows, 7, 0, &state);
    write(&mut rows, 7, 60, &state);
    let answer = shown(&rows, 7, &state);
    let embed = &answer.embeds.as_ref().unwrap()[0];
    assert_eq!(
        embed.description.as_deref(),
        Some("User <@7> has been active for 2 minutes out of 60 required to receive the role.")
    );
    let deleted = u64::from(rows.remove(&7).is_some());
    let reset = reset_progress(id(7), Ok(deleted)).unwrap();
    let embed = &reset.embeds.as_ref().unwrap()[0];
    assert_eq!(embed.description.as_deref(), Some("<@7>'s progress has been reset."));
    let answer = shown(&rows, 7, &state);
    let embed = &answer.embeds.as_ref().unwrap()[0];
    assert_eq!(embed.description.as_deref(), Some("<@7> has no activity."));
    write(&mut rows, 7, 61, &state);
    assert_eq!(rows[&7], row(1, 61));
}

#[test]
fn minutes_are_the_messages_that_counted() {
    let state = state(4, 60);
    let mut rows = HashMap::new();
    let mut counted = 0;
    let mut earned_at = Vec::new();
    for second in [5, 30, 64, 65, 70, 125, 184, 184, 185, 186, 300] {
        let before = rows.get(&7).copied();
        let earned = write(&mut rows, 7, second, &state);
        if rows.get(&7).copied() != before {
            counted += 1;
        }
        if earned {
            earned_at.push((second, counted));
        }
        assert_eq!(rows[&7].active_minutes, counted);
    }
    assert_eq!(counted, 5);
    assert_eq!(earned_at, vec![(185, 4), (300, 5)]);
}

#[test]
fn role_without_required_minutes_comes_with_the_first_message() {
    for required in [1, 0, -5] {
        let mut rows = HashMap::new();
        assert!(write(&mut rows, 7, 10, &state(required, 60)));
        assert_eq!(rows[&7], row(1, 10));
    }
}

#[test]
fn progress_shows_each_users_messages_since_the_last_reset() {
    let state = state(60, 60);
    let mut rows = HashMap::new();
    let description = |rows: &HashMap<i64, UserRow>, user| {
        shown(rows, user, &state).embeds.unwrap().remove(0).description.unwrap()
    };
    for (author, second) in [(7, 0), (8, 1), (7, 30), (8, 61), (7, 60), (8, 62), (7, 119)] {
        write(&mut rows, author, second, &state);
    }
    let active = |user, n| {
        format!("User <@{user}> has been active for {n} minutes out of 60 required to receive the role.")
    };
    assert_eq!(description(&rows, 7), active(7, 2));
    assert_eq!(description(&rows, 8), active(8, 2));
    assert_eq!(description(&rows, 9), "<@9> has no activity.");
    rows.remove(&7);
    write(&mut rows, 8, 121, &state);
    assert_eq!(description(&rows, 7), "<@7> has no activity.");
    assert_eq!(description(&rows, 8), active(8, 3));
    write(&mut rows, 7, 122, &state);
    write(&mut rows, 7, 182, &state);
    assert_eq!(description(&rows, 7), active(7, 2));
}

#[test]
fn messages_take_nothing() {
    let state = state(60, 60);
    let mut rows = HashMap::new();
    for (author, second) in [(7, 100), (8, 100), (7, 50), (7, 160), (8, 99), (9, 0), (7, 161)] {
        let before = rows.clone();
        write(&mut rows, author, second, &state);
        for (key, old) in &before {
            let new = rows[key];
            let added = new.active_minutes - old.active_minutes;
            assert!(added == 0 || added == 1);
            assert!(new.last_message >= old.last_message);
            assert_eq!(new.last_message != old.last_message, added == 1);
        }
        for (key, new) in &rows {
            assert!(before.contains_key(key) || (*key == author as i64 && new.active_minutes == 1));
        }
    }
}
