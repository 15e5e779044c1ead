//! Snowflake ids, the keys under which users are stored, and the seconds that
//! a message id carries.

use vstd::prelude::*;

verus! {

/// The id of a Discord resource: a 64-bit snowflake that is never zero.
#[derive(Clone, Copy, Debug, PartialEq, Eq)]
pub struct Id {
    value: u64,
}

impl View for Id {
    type V = u64;

    closed spec fn view(&self) -> u64 {
        self.value
    }
}

impl Id {
    #[verifier::type_invariant]
    spec fn nonzero(self) -> bool {
        self.value != 0
    }

    /// The id with the number `n`; zero is no id.
    pub fn new_checked(n: u64) -> (id: Option<Id>)
        ensures
            id is Some <==> n != 0,
            id matches Some(i) ==> i@ == n,
    {
        if n != 0 {
            Some(Id { value: n })
        } else {
            None
        }
    }

    /// The number of the id.
    pub fn get(self) -> (n: u64)
        ensures
            n == self@,
            n != 0,
    {
        proof {
            use_type_invariant(&self);
        }
        self.value
    }
}

/// The signed reading of a 64-bit number in two's complement.
pub open spec fn db_key(n: u64) -> i64 {
    if n <= i64::MAX {
        n as i64
    } else {
        (n - 0x1_0000_0000_0000_0000) as i64
    }
}

/// The key of an id in the database, whose integers are signed: the number of
/// the id, read in two's complement.
pub fn id_to_db(id: Id) -> (key: i64)
    ensures
        key == db_key(id@),
{
    let n: u64 = id.get();
    proof {
        assert(n <= 0x7fff_ffff_ffff_ffffu64 ==> n as i64 == n) by (bit_vector);
        assert(n > 0x7fff_ffff_ffff_ffffu64 ==> n as i64 == n - 0x1_0000_0000_0000_0000)
            by (bit_vector);
    }
    #[verifier::truncate]
    let key: i64 = n as i64;
    key
}

/// Different ids have different keys: no two users share a row.
pub proof fn law_keys_are_distinct(a: u64, b: u64)
    requires
        a != b,
    ensures
        db_key(a) != db_key(b),
{
}

/// A key gives its id back: reading it as an unsigned number undoes `id_to_db`.
pub proof fn law_key_gives_id_back(n: u64)
    ensures
        db_key(n) as u64 == n,
{
    let key: i64 = db_key(n);
    assert(key >= 0 ==> key as u64 == key) by (bit_vector);
    assert(key < 0 ==> key as u64 == key + 0x1_0000_0000_0000_0000) by (bit_vector);
}

/// The second, counted from the Discord epoch, in which the resource with the
/// number `n` was made: the number without its lowest 22 bits is the count of
/// milliseconds.
pub open spec fn snowflake_seconds(n: u64) -> int {
    n as int / 0x40_0000 / 1000
}

/// The second in which the resource `id` was made, counted from the Discord epoch.
pub fn snowflake_to_timestamp(id: Id) -> (seconds: i64)
    ensures
        seconds == snowflake_seconds(id@),
{
    let n: u64 = id.get();
    proof {
        assert(n >> 22u64 == n / 0x40_0000u64) by (bit_vector);
    }
    let seconds: u64 = (n >> 22) / 1000;
    seconds as i64
}

/// A timestamp is never negative and stays far below the largest signed number,
/// so that it always fits.
pub proof fn law_timestamp_range(n: u64)
    ensures
        0 <= snowflake_seconds(n) <= 4_398_046_511,
{
}

/// Of two snowflakes the larger one is not the older one.
pub proof fn law_timestamp_is_monotone(a: u64, b: u64)
    requires
        a <= b,
    ensures
        snowflake_seconds(a) <= snowflake_seconds(b),
{
}

/// The timestamp is the whole seconds of the milliseconds that stand above the
/// lowest 22 bits of a snowflake, be it ever so old or new.
pub proof fn law_timestamp_counts_whole_seconds(n: u64)
    ensures
        snowflake_seconds(n) * 1000 <= (n >> 22u64) < (snowflake_seconds(n) + 1) * 1000,
{
    assert(n >> 22u64 == n / 0x40_0000u64) by (bit_vector);
}

/// What is made so many seconds after something else has a timestamp that is
/// larger by that many.
pub proof fn law_timestamps_keep_distances(a: u64, b: u64, seconds: int)
    requires
        (b >> 22u64) == (a >> 22u64) + 1000 * seconds,
    ensures
        snowflake_seconds(b) == snowflake_seconds(a) + seconds,
{
    law_timestamp_counts_whole_seconds(a);
    law_timestamp_counts_whole_seconds(b);
}

} // verus!
