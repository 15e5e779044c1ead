//! Messages that someone wrote: which ones count, and when they earn the role.

use vstd::prelude::*;

use crate::error::Error;
use crate::id::{
    db_key, id_to_db, law_timestamp_counts_whole_seconds, law_timestamp_range,
    law_timestamps_keep_distances, snowflake_seconds, snowflake_to_timestamp, Id,
};
use crate::model::{AppState, Message};

verus! {

/// Whether the id with the number `n` is among `ids`.
pub open spec fn has_id(ids: Seq<Id>, n: u64) -> bool {
    exists|i: int| 0 <= i < ids.len() && #[trigger] ids[i]@ == n
}

fn contains_id(ids: &Vec<Id>, id: Id) -> (found: bool)
    ensures
        found == has_id(ids@, id@),
{
    let n: u64 = id.get();
    let mut i: usize = 0;
    while i < ids.len()
        invariant
            i <= ids.len(),
            n == id@,
            forall|j: int| 0 <= j < i ==> #[trigger] ids@[j]@ != n,
        decreases ids.len() - i,
    {
        let candidate: u64 = ids[i].get();
        if candidate == n {
            assert(ids@[i as int]@ == n);
            return true;
        }
        i = i + 1;
    }
    false
}

/// Whether a message can count at all: a person wrote it, in the bot's guild,
/// and does not have the role yet.
pub open spec fn is_eligible(mc: Message, roles: Seq<Id>, state: AppState) -> bool {
    &&& !mc.author.bot
    &&& mc.guild_id matches Some(guild_id) && guild_id@ == state.guild_id@
    &&& !has_id(roles, state.role_id@)
}

/// A message that counts if its author's cooldown is over.
#[derive(Clone, Copy, Debug, PartialEq, Eq)]
pub struct Activity {
    /// The author of the message.
    pub user: Id,
    /// The key of the author's row.
    pub key: i64,
    /// The second in which the message was written.
    pub at: i64,
}

/// Why a message cannot count; at least one of these holds.
#[derive(Clone, Copy, Debug, PartialEq, Eq, Structural)]
pub struct Skip {
    /// A bot wrote it.
    pub bot: bool,
    /// It was written outside the bot's guild.
    pub incorrect_guild: bool,
    /// Its author has the role already.
    pub has_role: bool,
}

/// What is done with a message.
#[derive(Clone, Copy, Debug, PartialEq, Eq)]
pub enum Reaction {
    /// It is recorded.
    Record(Activity),
    /// It is ignored.
    Ignore(Skip),
}

/// What is to be recorded of a message: the number of its author and the second
/// in which it was written, or nothing if it cannot count. A message without
/// the member who wrote it is an error.
pub open spec fn activity_of(mc: Message, state: AppState) -> Result<Option<(u64, i64)>, Error> {
    match mc.member {
        None => Err(Error::NoPartialMember),
        Some(member) => if is_eligible(mc, member.roles@, state) {
            Ok(Some((mc.author.id@, snowflake_seconds(mc.id@) as i64)))
        } else {
            Ok(None)
        },
    }
}

/// Why a message whose author has the roles `roles` cannot count.
pub open spec fn skip_of(mc: Message, roles: Seq<Id>, state: AppState) -> Skip {
    Skip {
        bot: mc.author.bot,
        incorrect_guild: !(mc.guild_id matches Some(guild_id) && guild_id@ == state.guild_id@),
        has_role: has_id(roles, state.role_id@),
    }
}

/// What is done with a message.
pub fn handle_message(mc: &Message, state: &AppState) -> (reaction: Result<Reaction, Error>)
    ensures
        match reaction {
            Ok(Reaction::Record(a)) => activity_of(*mc, *state) == Ok::<
                Option<(u64, i64)>,
                Error,
            >(Some((a.user@, a.at))) && a.key == db_key(a.user@),
            Ok(Reaction::Ignore(skip)) => activity_of(*mc, *state) == Ok::<
                Option<(u64, i64)>,
                Error,
            >(None) && skip == skip_of(*mc, mc.member->0.roles@, *state),
            Err(e) => activity_of(*mc, *state) == Err::<Option<(u64, i64)>, Error>(e),
        },
{
    let member = match &mc.member {
        Some(member) => member,
        None => return Err(Error::NoPartialMember),
    };
    let incorrect_guild: bool = match mc.guild_id {
        Some(guild_id) => guild_id.get() != state.guild_id.get(),
        None => true,
    };
    let has_role: bool = contains_id(&member.roles, state.role_id);
    if mc.author.bot || incorrect_guild || has_role {
        return Ok(Reaction::Ignore(Skip { bot: mc.author.bot, incorrect_guild, has_role }));
    }
    Ok(
        Reaction::Record(
            Activity {
                user: mc.author.id,
                key: id_to_db(mc.author.id),
                at: snowflake_to_timestamp(mc.id),
            },
        ),
    )
}

/// What the store holds of a user.
#[derive(Clone, Copy, Debug, PartialEq, Eq, Structural)]
pub struct UserRow {
    /// How many messages of the user have counted.
    pub active_minutes: i64,
    /// The second in which the last of them was written.
    pub last_message: i64,
}

/// `n + 1`, or `n` where that is the largest number.
pub open spec fn next_minute(n: i64) -> i64 {
    if n < i64::MAX {
        (n + 1) as i64
    } else {
        n
    }
}

/// The row that a message written in the second `at` makes of the row `stored`,
/// where it counts. The first message of a user counts; another one counts if
/// the cooldown after the last one that counted is over.
pub open spec fn counted(stored: Option<UserRow>, at: i64, cooldown: i64) -> Option<UserRow> {
    match stored {
        None => Some(UserRow { active_minutes: 1, last_message: at }),
        Some(row) => if row.last_message + cooldown <= at {
            Some(UserRow { active_minutes: next_minute(row.active_minutes), last_message: at })
        } else {
            None
        },
    }
}

/// The row to be stored for a message, where the store holds `stored` for its
/// author; none if the author is on cooldown.
pub fn record_activity(
    stored: Option<UserRow>,
    activity: &Activity,
    state: &AppState,
) -> (row: Option<UserRow>)
    ensures
        row == counted(stored, activity.at, state.cooldown_seconds),
{
    match stored {
        None => Some(UserRow { active_minutes: 1, last_message: activity.at }),
        Some(row) => {
            let over: i128 = row.last_message as i128 + state.cooldown_seconds as i128;
            if over <= activity.at as i128 {
                let active_minutes: i64 = if row.active_minutes < i64::MAX {
                    row.active_minutes + 1
                } else {
                    row.active_minutes
                };
                Some(UserRow { active_minutes, last_message: activity.at })
            } else {
                None
            }
        },
    }
}

/// The role that is to be given to a member.
#[derive(Clone, Copy, Debug, PartialEq, Eq)]
pub struct RoleGrant {
    pub guild_id: Id,
    pub user_id: Id,
    pub role_id: Id,
}

/// Whether a message earns the role: it counted, and its author has enough
/// active minutes.
pub open spec fn earns_role(row: Option<UserRow>, required: i64) -> bool {
    row matches Some(row) && row.active_minutes >= required
}

/// The role that `user` gets for a message, for which `row` was stored.
pub open spec fn grant_of(row: Option<UserRow>, user: Id, state: AppState) -> Option<RoleGrant> {
    if earns_role(row, state.activity_minutes) {
        Some(RoleGrant { guild_id: state.guild_id, user_id: user, role_id: state.role_id })
    } else {
        None
    }
}

/// The role that the author gets for a message, for which `row` was stored.
pub fn role_grant(row: Option<UserRow>, activity: &Activity, state: &AppState) -> (grant: Option<
    RoleGrant,
>)
    ensures
        grant == grant_of(row, activity.user, *state),
{
    match row {
        Some(row) => if row.active_minutes >= state.activity_minutes {
            Some(
                RoleGrant {
                    guild_id: state.guild_id,
                    user_id: activity.user,
                    role_id: state.role_id,
                },
            )
        } else {
            None
        },
        None => None,
    }
}

/// The row of a user after a message.
pub open spec fn after_message(stored: Option<UserRow>, at: i64, cooldown: i64) -> Option<UserRow> {
    match counted(stored, at, cooldown) {
        Some(row) => Some(row),
        None => stored,
    }
}

/// The row of a user after messages that were written in the seconds `times`,
/// in this order.
pub open spec fn after_messages(stored: Option<UserRow>, times: Seq<i64>, cooldown: i64) -> Option<
    UserRow,
>
    decreases times.len(),
{
    if times.len() == 0 {
        stored
    } else {
        after_message(after_messages(stored, times.drop_last(), cooldown), times.last(), cooldown)
    }
}

/// The active minutes of a row: none where there is no row.
pub open spec fn minutes_of(stored: Option<UserRow>) -> int {
    match stored {
        Some(row) => row.active_minutes as int,
        None => 0,
    }
}

/// A message during the cooldown changes nothing and earns nothing.
pub proof fn law_cooldown_holds(row: UserRow, at: i64, cooldown: i64, required: i64)
    requires
        at < row.last_message + cooldown,
    ensures
        after_message(Some(row), at, cooldown) == Some(row),
        !earns_role(counted(Some(row), at, cooldown), required),
{
}

/// A message adds one active minute or none.
pub proof fn law_a_message_adds_at_most_one_minute(stored: Option<UserRow>, at: i64, cooldown: i64)
    ensures
        minutes_of(stored) <= minutes_of(after_message(stored, at, cooldown)) <= minutes_of(stored)
            + 1,
{
}

/// Whoever has a row has at least one active minute: no message takes that away.
pub proof fn law_rows_stay_positive(stored: Option<UserRow>, at: i64, cooldown: i64)
    requires
        stored matches Some(row) ==> row.active_minutes >= 1,
    ensures
        after_message(stored, at, cooldown) matches Some(row) && row.active_minutes >= 1,
{
}

/// A user never has more active minutes than messages, and each message leaves
/// a row behind.
pub proof fn law_minutes_are_at_most_messages(times: Seq<i64>, cooldown: i64)
    ensures
        minutes_of(after_messages(None, times, cooldown)) <= times.len(),
        times.len() > 0 ==> after_messages(None, times, cooldown) is Some,
    decreases times.len(),
{
    if times.len() > 0 {
        law_minutes_are_at_most_messages(times.drop_last(), cooldown);
    }
}

/// Active minutes take their time: between the first message of a user and the
/// last one that counted lies the cooldown, once for each active minute after
/// the first.
pub proof fn law_minutes_take_their_time(times: Seq<i64>, cooldown: i64)
    requires
        0 < times.len() <= i64::MAX,
    ensures
        after_messages(None, times, cooldown) matches Some(row) && times[0] + cooldown * (
        row.active_minutes - 1) <= row.last_message,
    decreases times.len(),
{
    let before = after_messages(None, times.drop_last(), cooldown);
    if times.len() == 1 {
        assert(before is None);
        assert(cooldown * 0 == 0) by (nonlinear_arith);
    } else {
        law_minutes_take_their_time(times.drop_last(), cooldown);
        law_minutes_are_at_most_messages(times.drop_last(), cooldown);
        let row = before->0;
        assert(cooldown * row.active_minutes == cooldown * (row.active_minutes - 1) + cooldown)
            by (nonlinear_arith);
    }
}

/// How many messages counted, of those that were written in the seconds `times`,
/// in this order, by a user with the row `stored`.
pub open spec fn n_counted(stored: Option<UserRow>, times: Seq<i64>, cooldown: i64) -> nat
    decreases times.len(),
{
    if times.len() == 0 {
        0
    } else {
        n_counted(stored, times.drop_last(), cooldown) + if last_counts(stored, times, cooldown) {
            1nat
        } else {
            0
        }
    }
}

/// Whether the last message counted.
pub open spec fn last_counts(stored: Option<UserRow>, times: Seq<i64>, cooldown: i64) -> bool {
    times.len() > 0 && counted(
        after_messages(stored, times.drop_last(), cooldown),
        times.last(),
        cooldown,
    ) is Some
}

/// Whether the last message earned the role.
pub open spec fn last_earns_role(
    stored: Option<UserRow>,
    times: Seq<i64>,
    cooldown: i64,
    required: i64,
) -> bool {
    times.len() > 0 && earns_role(
        counted(after_messages(stored, times.drop_last(), cooldown), times.last(), cooldown),
        required,
    )
}

/// Active minutes are the messages that counted: whenever they were written,
/// a user has gained one for each of them and none for the others.
pub proof fn law_minutes_are_counted_messages(
    stored: Option<UserRow>,
    times: Seq<i64>,
    cooldown: i64,
)
    requires
        minutes_of(stored) + times.len() <= i64::MAX,
    ensures
        minutes_of(after_messages(stored, times, cooldown)) == minutes_of(stored) + n_counted(
            stored,
            times,
            cooldown,
        ),
        n_counted(stored, times, cooldown) <= times.len(),
    decreases times.len(),
{
    if times.len() > 0 {
        law_minutes_are_counted_messages(stored, times.drop_last(), cooldown);
    }
}

/// A message earns the role if and only if it counted and the active minutes of
/// its author, with this one, are as many as required.
pub proof fn law_role_is_earned_by_counted_messages(
    stored: Option<UserRow>,
    times: Seq<i64>,
    cooldown: i64,
    required: i64,
)
    requires
        minutes_of(stored) + times.len() <= i64::MAX,
    ensures
        last_earns_role(stored, times, cooldown, required) <==> last_counts(stored, times, cooldown)
            && minutes_of(stored) + n_counted(stored, times, cooldown) >= required,
{
    law_minutes_are_counted_messages(stored, times, cooldown);
}

/// Whoever starts without a row first earns the role with the required number of
/// messages that counted: no message before that one earns it. Where no more
/// than one active minute is required, it is the first message.
pub proof fn law_first_grant_comes_with_the_required_minutes(
    times: Seq<i64>,
    cooldown: i64,
    required: i64,
)
    requires
        times.len() <= i64::MAX,
        last_earns_role(None, times, cooldown, required),
        forall|k: int|
            0 < k < times.len() ==> !#[trigger] last_earns_role(
                None,
                times.take(k),
                cooldown,
                required,
            ),
    ensures
        n_counted(None, times, cooldown) == (if required >= 1 {
            required as int
        } else {
            1
        }),
{
    let before = times.drop_last();
    assert forall|k: int| 0 < k <= before.len() implies !#[trigger] last_earns_role(
        None,
        before.take(k),
        cooldown,
        required,
    ) by {
        assert(before.take(k) =~= times.take(k));
    }
    lemma_without_grant(before, cooldown, required);
    law_role_is_earned_by_counted_messages(None, times, cooldown, required);
}

/// As long as no message earned the role, either none counted or too few did.
proof fn lemma_without_grant(times: Seq<i64>, cooldown: i64, required: i64)
    requires
        times.len() <= i64::MAX,
        forall|k: int|
            0 < k <= times.len() ==> !#[trigger] last_earns_role(
                None,
                times.take(k),
                cooldown,
                required,
            ),
    ensures
        n_counted(None, times, cooldown) == 0 || n_counted(None, times, cooldown) < required,
    decreases times.len(),
{
    if times.len() > 0 {
        let before = times.drop_last();
        assert forall|k: int| 0 < k <= before.len() implies !#[trigger] last_earns_role(
            None,
            before.take(k),
            cooldown,
            required,
        ) by {
            assert(before.take(k) =~= times.take(k));
        }
        lemma_without_grant(before, cooldown, required);
        assert(times.take(times.len() as int) =~= times);
        law_role_is_earned_by_counted_messages(None, times, cooldown, required);
    }
}

/// Whether each message was written when the cooldown after the one before it
/// was over.
pub open spec fn spaced(times: Seq<i64>, cooldown: i64) -> bool {
    forall|i: int| 0 < i < times.len() ==> times[i - 1] + cooldown <= #[trigger] times[i]
}

/// Of messages that are far enough apart each one counts.
pub proof fn law_spaced_messages_all_count(times: Seq<i64>, cooldown: i64)
    requires
        0 < times.len() <= i64::MAX,
        spaced(times, cooldown),
    ensures
        after_messages(None, times, cooldown) == Some(
            UserRow { active_minutes: times.len() as i64, last_message: times.last() },
        ),
    decreases times.len(),
{
    let before = after_messages(None, times.drop_last(), cooldown);
    if times.len() == 1 {
        assert(before is None);
    } else {
        law_spaced_messages_all_count(times.drop_last(), cooldown);
        assert(times[times.len() - 1 - 1] + cooldown <= times[times.len() - 1]);
    }
}

/// Whoever writes messages that are far enough apart gets the role for the last
/// of them if and only if there are as many of them as active minutes are
/// required: not earlier, and from then on for each.
pub proof fn law_role_comes_with_the_required_minutes(
    times: Seq<i64>,
    cooldown: i64,
    required: i64,
)
    requires
        0 < times.len() <= i64::MAX,
        spaced(times, cooldown),
    ensures
        earns_role(
            counted(after_messages(None, times.drop_last(), cooldown), times.last(), cooldown),
            required,
        ) <==> times.len() >= required,
{
    law_spaced_messages_all_count(times, cooldown);
    let before = after_messages(None, times.drop_last(), cooldown);
    if times.len() > 1 {
        law_spaced_messages_all_count(times.drop_last(), cooldown);
        assert(times[times.len() - 1 - 1] + cooldown <= times[times.len() - 1]);
    } else {
        assert(before is None);
    }
}

/// Every message counts that a person wrote in the bot's guild without having
/// the role, whatever other roles the author has, be it none: it is recorded
/// for its author, in the second that its id carries.
pub proof fn law_every_other_message_is_recorded(mc: Message, state: AppState)
    requires
        mc.member is Some,
        !mc.author.bot,
        mc.guild_id is Some,
        mc.guild_id->0@ == state.guild_id@,
        forall|i: int|
            0 <= i < mc.member->0.roles@.len() ==> #[trigger] mc.member->0.roles@[i]@
                != state.role_id@,
    ensures
        match activity_of(mc, state) {
            Ok(Some((user, at))) => user == mc.author.id@ && at * 1000 <= (mc.id@ >> 22u64) < (at
                + 1) * 1000,
            _ => false,
        },
{
    law_timestamp_range(mc.id@);
    law_timestamp_counts_whole_seconds(mc.id@);
}

/// A message that comes with its member is ignored if and only if a bot wrote
/// it, it was written outside the bot's guild, or its author has the role. One
/// that comes without its member is an error, and no other message is.
pub proof fn law_three_reasons_to_ignore_a_message(mc: Message, state: AppState)
    ensures
        mc.member is None <==> activity_of(mc, state) is Err,
        mc.member is None ==> activity_of(mc, state)->Err_0 == Error::NoPartialMember,
        mc.member is Some ==> (activity_of(mc, state)->Ok_0 is None <==> (mc.author.bot
            || mc.guild_id is None || mc.guild_id->0@ != state.guild_id@ || exists|i: int|
            0 <= i < mc.member->0.roles@.len() && #[trigger] mc.member->0.roles@[i]@
                == state.role_id@)),
{
}

/// What is said of an ignored message tells each reason that holds, and no other.
pub proof fn law_each_reason_is_told(mc: Message, roles: Seq<Id>, state: AppState)
    ensures
        skip_of(mc, roles, state).bot <==> mc.author.bot,
        skip_of(mc, roles, state).incorrect_guild <==> (mc.guild_id is None || mc.guild_id->0@
            != state.guild_id@),
        skip_of(mc, roles, state).has_role <==> exists|i: int|
            0 <= i < roles.len() && #[trigger] roles[i]@ == state.role_id@,
{
}

/// The first message of a user counts, whenever it was written and however long
/// the cooldown is, and makes a row with one active minute.
pub proof fn law_first_message_counts(at: i64, cooldown: i64)
    ensures
        counted(None, at, cooldown) is Some,
        counted(None, at, cooldown)->0.active_minutes == 1,
        counted(None, at, cooldown)->0.last_message == at,
{
}

/// A later message counts if and only if the cooldown is over. Then it adds one
/// active minute, unless there is no larger number, and is the last message
/// that counted.
pub proof fn law_later_messages_count_after_the_cooldown(row: UserRow, at: i64, cooldown: i64)
    ensures
        counted(Some(row), at, cooldown) is Some <==> at - row.last_message >= cooldown,
        at - row.last_message >= cooldown ==> {
            let after = counted(Some(row), at, cooldown)->0;
            &&& after.last_message == at
            &&& row.active_minutes < i64::MAX ==> after.active_minutes - row.active_minutes == 1
            &&& row.active_minutes == i64::MAX ==> after.active_minutes == i64::MAX
        },
{
}

/// The cooldown goes by the clock: after a message with the id `a` that counted,
/// one with the id `b`, so many seconds later, counts if and only if the
/// cooldown is no longer than that.
pub proof fn law_cooldown_goes_by_the_clock(
    a: u64,
    b: u64,
    seconds: int,
    active_minutes: i64,
    cooldown: i64,
)
    requires
        (b >> 22u64) == (a >> 22u64) + 1000 * seconds,
    ensures
        counted(
            Some(UserRow { active_minutes, last_message: snowflake_seconds(a) as i64 }),
            snowflake_seconds(b) as i64,
            cooldown,
        ) is Some <==> seconds >= cooldown,
{
    law_timestamp_range(a);
    law_timestamp_range(b);
    law_timestamps_keep_distances(a, b, seconds);
}

/// A message that counted earns the role exactly from the required number of
/// active minutes on; one that did not count never earns it.
pub proof fn law_enough_minutes_earn_the_role(row: UserRow, required: i64)
    ensures
        earns_role(Some(row), required) <==> required <= row.active_minutes,
        !earns_role(None, required),
{
}

/// Whoever earns the role gets it, in the bot's guild and nowhere else, and the
/// author of the message does so and nobody else.
pub proof fn law_authors_get_the_role_that_they_earn(
    row: Option<UserRow>,
    user: Id,
    state: AppState,
)
    ensures
        grant_of(row, user, state) is Some <==> (row is Some && state.activity_minutes
            <= row->0.active_minutes),
        grant_of(row, user, state) is Some ==> {
            let grant = grant_of(row, user, state)->0;
            &&& grant.guild_id == state.guild_id
            &&& grant.user_id == user
            &&& grant.role_id == state.role_id
        },
{
}

} // verus!
