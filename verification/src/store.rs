//! What messages and commands do to the stored rows, seen together: the store
//! is a table that holds at most one row under each key.

use vstd::prelude::*;

use crate::activity::{
    activity_of, after_message, counted, earns_role, has_id, minutes_of, UserRow,
};
use crate::commands::Route;
use crate::error::Error;
use crate::id::{db_key, law_keys_are_distinct, law_timestamp_range, snowflake_seconds};
use crate::interaction::{
    command_of, embed_reply, progress_text, reset_text, response_of, shown_minutes,
};
use crate::model::{AppState, InteractionData, Message};
use crate::payload::{InteractionResponseDataView, EPHEMERAL};

verus! {

/// The row that `table` holds for the user with the number `user`.
pub open spec fn row_of(table: Map<i64, UserRow>, user: u64) -> Option<UserRow> {
    if table.contains_key(db_key(user)) {
        Some(table[db_key(user)])
    } else {
        None
    }
}

/// The table after a message of `user`, written in the second `at`.
pub open spec fn after_activity(
    table: Map<i64, UserRow>,
    user: u64,
    at: i64,
    cooldown: i64,
) -> Map<i64, UserRow> {
    match counted(row_of(table, user), at, cooldown) {
        Some(row) => table.insert(db_key(user), row),
        None => table,
    }
}

/// The table after a message, of which nothing may have to be recorded.
pub open spec fn after_event(table: Map<i64, UserRow>, mc: Message, state: AppState) -> Map<
    i64,
    UserRow,
> {
    match activity_of(mc, state) {
        Ok(Some((user, at))) => after_activity(table, user, at, state.cooldown_seconds),
        _ => table,
    }
}

/// Whether the author of a message gets the role for it.
pub open spec fn event_earns_role(
    table: Map<i64, UserRow>,
    mc: Message,
    state: AppState,
) -> bool {
    match activity_of(mc, state) {
        Ok(Some((user, at))) => earns_role(
            counted(row_of(table, user), at, state.cooldown_seconds),
            state.activity_minutes,
        ),
        _ => false,
    }
}

/// The table after an interaction.
pub open spec fn after_command(
    table: Map<i64, UserRow>,
    data: Option<InteractionData>,
) -> Map<i64, UserRow> {
    match command_of(data) {
        Ok((Route::ResetProgress, user)) => table.remove(db_key(user)),
        _ => table,
    }
}

/// The active minutes that a command reads of a row.
pub open spec fn read_minutes(row: Option<UserRow>) -> Option<i64> {
    match row {
        Some(row) => Some(row.active_minutes),
        None => None,
    }
}

/// The message that answers a command which shows the progress of `user`.
pub open spec fn progress_answer(
    table: Map<i64, UserRow>,
    user: u64,
    required: i64,
) -> InteractionResponseDataView {
    embed_reply(progress_text(user, shown_minutes(read_minutes(row_of(table, user))), required))
}

/// The message that answers a command which takes the progress of `user` away.
pub open spec fn reset_answer(
    table: Map<i64, UserRow>,
    user: u64,
) -> InteractionResponseDataView {
    embed_reply(reset_text(user, if row_of(table, user) is Some { 1 } else { 0 }))
}

/// The message that answers an interaction.
pub open spec fn answer(
    table: Map<i64, UserRow>,
    data: Option<InteractionData>,
    required: i64,
) -> InteractionResponseDataView {
    match command_of(data) {
        Ok((Route::GetProgress, user)) => response_of(Ok(progress_answer(table, user, required))),
        Ok((Route::ResetProgress, user)) => response_of(Ok(reset_answer(table, user))),
        Err(e) => response_of(Err(e)),
    }
}

/// Whether each row of the table counts at least one active minute.
pub open spec fn is_valid(table: Map<i64, UserRow>) -> bool {
    forall|key: i64| #[trigger]
        table.contains_key(key) ==> table[key].active_minutes >= 1
}

/// Neither messages nor commands leave a row without active minutes.
pub proof fn law_tables_stay_valid(
    table: Map<i64, UserRow>,
    user: u64,
    at: i64,
    cooldown: i64,
    data: Option<InteractionData>,
)
    requires
        is_valid(table),
    ensures
        is_valid(after_activity(table, user, at, cooldown)),
        is_valid(after_command(table, data)),
{
}

/// A message changes the row of its author, as the rule for one row says, and
/// no other user's.
pub proof fn law_messages_change_their_authors_row(
    table: Map<i64, UserRow>,
    user: u64,
    other: u64,
    at: i64,
    cooldown: i64,
)
    ensures
        row_of(after_activity(table, user, at, cooldown), user) == after_message(
            row_of(table, user),
            at,
            cooldown,
        ),
        other != user ==> row_of(after_activity(table, user, at, cooldown), other) == row_of(
            table,
            other,
        ),
{
    if other != user {
        law_keys_are_distinct(user, other);
    }
}

/// Whether a bot wrote the message, or it was written outside the guild, or by a
/// member who has the role already, or came without its member.
pub open spec fn is_ignored(mc: Message, state: AppState) -> bool {
    ||| mc.author.bot
    ||| mc.guild_id is None
    ||| mc.guild_id->0@ != state.guild_id@
    ||| mc.member is None
    ||| has_id(mc.member->0.roles@, state.role_id@)
}

/// Messages of bots, messages outside the guild and messages of members who have
/// the role already change nothing and earn nothing, nor do messages that come
/// without their member.
pub proof fn law_ignored_messages_change_nothing(
    table: Map<i64, UserRow>,
    mc: Message,
    state: AppState,
)
    requires
        is_ignored(mc, state),
    ensures
        after_event(table, mc, state) == table,
        !event_earns_role(table, mc, state),
{
}

/// The role comes with a message that counted and with nothing else: the row of
/// its author then holds at least the required active minutes, and this message
/// is the last one that counted.
pub proof fn law_role_comes_with_a_counted_message(
    table: Map<i64, UserRow>,
    mc: Message,
    state: AppState,
)
    requires
        event_earns_role(table, mc, state),
    ensures
        !is_ignored(mc, state),
        row_of(after_event(table, mc, state), mc.author.id@) is Some,
        row_of(after_event(table, mc, state), mc.author.id@)->0.active_minutes
            >= state.activity_minutes,
        row_of(after_event(table, mc, state), mc.author.id@)->0.last_message == snowflake_seconds(
            mc.id@,
        ),
{
    law_timestamp_range(mc.id@);
}

/// What messages recorded is what the progress command shows.
pub proof fn law_progress_shows_what_was_recorded(
    table: Map<i64, UserRow>,
    user: u64,
    at: i64,
    cooldown: i64,
    required: i64,
)
    ensures
        progress_answer(after_activity(table, user, at, cooldown), user, required) == embed_reply(
            progress_text(
                user,
                minutes_of(after_message(row_of(table, user), at, cooldown)) as i64,
                required,
            ),
        ),
{
    law_messages_change_their_authors_row(table, user, user, at, cooldown);
}

/// Only a command that takes progress away changes the table: one that shows
/// progress does not, nor one that fails.
pub proof fn law_only_resets_change_the_table(
    table: Map<i64, UserRow>,
    data: Option<InteractionData>,
)
    requires
        after_command(table, data) != table,
    ensures
        command_of(data) matches Ok(c) && c.0 == Route::ResetProgress,
{
}

/// Taking the progress of a user away removes their row and no other user's:
/// they have no activity then, a second try finds no progress, and their next
/// message counts as their first.
pub proof fn law_reset_forgets_one_user(
    table: Map<i64, UserRow>,
    data: Option<InteractionData>,
    user: u64,
    other: u64,
    at: i64,
    cooldown: i64,
    required: i64,
)
    requires
        command_of(data) == Ok::<_, Error>((Route::ResetProgress, user)),
    ensures
        row_of(after_command(table, data), user) is None,
        other != user ==> row_of(after_command(table, data), other) == row_of(table, other),
        progress_answer(after_command(table, data), user, required) == embed_reply(
            progress_text(user, 0, required),
        ),
        reset_answer(after_command(table, data), user) == embed_reply(reset_text(user, 0)),
        row_of(after_activity(after_command(table, data), user, at, cooldown), user) == Some(
            UserRow { active_minutes: 1, last_message: at },
        ),
{
    if other != user {
        law_keys_are_distinct(user, other);
    }
}

/// The answer to a reset tells whether there was any progress: after a message
/// of the user there was.
pub proof fn law_reset_finds_what_was_recorded(
    table: Map<i64, UserRow>,
    user: u64,
    at: i64,
    cooldown: i64,
)
    ensures
        reset_answer(after_activity(table, user, at, cooldown), user) == embed_reply(
            reset_text(user, 1),
        ),
{
    law_messages_change_their_authors_row(table, user, user, at, cooldown);
}

/// Exactly the users without a row are shown to have no activity.
pub proof fn law_no_activity_means_no_row(table: Map<i64, UserRow>, user: u64)
    requires
        is_valid(table),
    ensures
        shown_minutes(read_minutes(row_of(table, user))) == 0 <==> row_of(table, user) is None,
{
}

/// Every interaction is answered to its user alone.
pub proof fn law_every_interaction_is_answered_in_private(
    table: Map<i64, UserRow>,
    data: Option<InteractionData>,
    required: i64,
)
    ensures
        answer(table, data, required).flags == Some(EPHEMERAL),
{
}

/// A message takes nothing from the table. Each row is still there, with as many
/// active minutes as before or one more; its last message is not older than
/// before, unless the cooldown is negative, and is another one only if a minute
/// was added. A row that is new is its author's and has one active minute. Only
/// where the active minutes are the largest number already, the last message
/// changes without them.
pub proof fn law_messages_take_nothing(
    table: Map<i64, UserRow>,
    mc: Message,
    state: AppState,
    key: i64,
)
    requires
        is_valid(table),
    ensures
        is_valid(after_event(table, mc, state)),
        table.contains_key(key) ==> {
            let before = table[key];
            let after = after_event(table, mc, state)[key];
            &&& after_event(table, mc, state).contains_key(key)
            &&& before.active_minutes <= after.active_minutes <= before.active_minutes + 1
            &&& state.cooldown_seconds >= 0 ==> before.last_message <= after.last_message
            &&& before.active_minutes < i64::MAX && after.last_message != before.last_message
                ==> after.active_minutes == before.active_minutes + 1
        },
        !table.contains_key(key) && after_event(table, mc, state).contains_key(key) ==> key
            == db_key(mc.author.id@) && after_event(table, mc, state)[key].active_minutes == 1,
{
}

/// The table after the messages `mcs`, in this order, whoever wrote them.
pub open spec fn after_events(
    table: Map<i64, UserRow>,
    mcs: Seq<Message>,
    state: AppState,
) -> Map<i64, UserRow>
    decreases mcs.len(),
{
    if mcs.len() == 0 {
        table
    } else {
        after_event(after_events(table, mcs.drop_last(), state), mcs.last(), state)
    }
}

/// Whether the message is one of the user with the number `user`, and counts.
pub open spec fn counts_for(
    table: Map<i64, UserRow>,
    mc: Message,
    user: u64,
    state: AppState,
) -> bool {
    match activity_of(mc, state) {
        Ok(Some((author, at))) => author == user && counted(
            row_of(table, user),
            at,
            state.cooldown_seconds,
        ) is Some,
        _ => false,
    }
}

/// How many of the messages `mcs` were written by the user with the number
/// `user` and counted.
pub open spec fn n_counted_for(
    table: Map<i64, UserRow>,
    mcs: Seq<Message>,
    user: u64,
    state: AppState,
) -> nat
    decreases mcs.len(),
{
    if mcs.len() == 0 {
        0
    } else {
        n_counted_for(table, mcs.drop_last(), user, state) + if counts_for(
            after_events(table, mcs.drop_last(), state),
            mcs.last(),
            user,
            state,
        ) {
            1nat
        } else {
            0
        }
    }
}

/// One message adds a minute to the row of the user for whom it counts, and
/// leaves everyone else's row as it is.
proof fn lemma_minutes_after_event(
    table: Map<i64, UserRow>,
    mc: Message,
    user: u64,
    state: AppState,
)
    requires
        minutes_of(row_of(table, user)) < i64::MAX || !counts_for(table, mc, user, state),
    ensures
        minutes_of(row_of(after_event(table, mc, state), user)) == minutes_of(row_of(table, user))
            + (if counts_for(table, mc, user, state) {
            1int
        } else {
            0
        }),
{
    match activity_of(mc, state) {
        Ok(Some((author, at))) => {
            law_messages_change_their_authors_row(
                table,
                author,
                user,
                at,
                state.cooldown_seconds,
            );
        },
        _ => {},
    }
}

/// After any messages of any users, progress shows for each user what there was
/// before and one active minute for each of that user's messages that counted;
/// for a user without a row before, it shows the number of those messages.
pub proof fn law_progress_shows_all_that_was_recorded(
    table: Map<i64, UserRow>,
    mcs: Seq<Message>,
    user: u64,
    state: AppState,
    required: i64,
)
    requires
        minutes_of(row_of(table, user)) + n_counted_for(table, mcs, user, state) <= i64::MAX,
    ensures
        minutes_of(row_of(after_events(table, mcs, state), user)) == minutes_of(row_of(table, user))
            + n_counted_for(table, mcs, user, state),
        progress_answer(after_events(table, mcs, state), user, required) == embed_reply(
            progress_text(
                user,
                (minutes_of(row_of(table, user)) + n_counted_for(table, mcs, user, state)) as i64,
                required,
            ),
        ),
    decreases mcs.len(),
{
    if mcs.len() > 0 {
        let before = mcs.drop_last();
        law_progress_shows_all_that_was_recorded(table, before, user, state, required);
        lemma_minutes_after_event(after_events(table, before, state), mcs.last(), user, state);
    }
}

/// Something that happened: a message, or an interaction.
pub enum Happening {
    Message(Message),
    Interaction(Option<InteractionData>),
}

/// The table after all that happened, in this order.
pub open spec fn after_history(
    table: Map<i64, UserRow>,
    history: Seq<Happening>,
    state: AppState,
) -> Map<i64, UserRow>
    decreases history.len(),
{
    if history.len() == 0 {
        table
    } else {
        let before = after_history(table, history.drop_last(), state);
        match history.last() {
            Happening::Message(mc) => after_event(before, mc, state),
            Happening::Interaction(data) => after_command(before, data),
        }
    }
}

/// The active minutes of the user with the number `user` by the history: what
/// there was before, and one for each of the user's messages that counted; all
/// of it only since the last command that took the user's progress away.
pub open spec fn tally(
    table: Map<i64, UserRow>,
    history: Seq<Happening>,
    user: u64,
    state: AppState,
) -> int
    decreases history.len(),
{
    if history.len() == 0 {
        minutes_of(row_of(table, user))
    } else {
        let before = tally(table, history.drop_last(), user, state);
        match history.last() {
            Happening::Message(mc) => if counts_for(
                after_history(table, history.drop_last(), state),
                mc,
                user,
                state,
            ) {
                before + 1
            } else {
                before
            },
            Happening::Interaction(data) => if command_of(data) == Ok::<(Route, u64), Error>(
                (Route::ResetProgress, user),
            ) {
                0
            } else {
                before
            },
        }
    }
}

/// Whatever happened, messages of any users and commands of any kind, progress
/// shows for each user the messages that counted since the user's last reset.
pub proof fn law_progress_shows_the_tally(
    table: Map<i64, UserRow>,
    history: Seq<Happening>,
    user: u64,
    state: AppState,
    required: i64,
)
    requires
        forall|k: int|
            0 <= k <= history.len() ==> #[trigger] tally(table, history.take(k), user, state)
                <= i64::MAX,
    ensures
        minutes_of(row_of(after_history(table, history, state), user)) == tally(
            table,
            history,
            user,
            state,
        ),
        progress_answer(after_history(table, history, state), user, required) == embed_reply(
            progress_text(user, tally(table, history, user, state) as i64, required),
        ),
    decreases history.len(),
{
    if history.len() > 0 {
        let before = history.drop_last();
        assert forall|k: int| 0 <= k <= before.len() implies #[trigger] tally(
            table,
            before.take(k),
            user,
            state,
        ) <= i64::MAX by {
            assert(before.take(k) =~= history.take(k));
        }
        law_progress_shows_the_tally(table, before, user, state, required);
        assert(history.take(history.len() as int) =~= history);
        let earlier = after_history(table, before, state);
        match history.last() {
            Happening::Message(mc) => {
                assert(tally(table, history, user, state) <= i64::MAX);
                lemma_minutes_after_event(earlier, mc, user, state);
            },
            Happening::Interaction(data) => {
                match command_of(data) {
                    Ok((Route::ResetProgress, target)) => {
                        if target != user {
                            law_keys_are_distinct(target, user);
                        }
                    },
                    _ => {},
                }
            },
        }
    }
}

} // verus!
