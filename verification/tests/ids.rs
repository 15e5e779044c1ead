use tinylevel::id::{id_to_db, snowflake_to_timestamp, Id};

fn id(n: u64) -> Id {
    Id::new_checked(n).unwrap()
}

#[test]
fn zero_is_no_id() {
    assert!(Id::new_checked(0).is_none());
    assert_eq!(id(1).get(), 1);
    assert_eq!(id(u64::MAX).get(), u64::MAX);
}

#[test]
fn keys_are_twos_complement() {
    assert_eq!(id_to_db(id(1)), 1);
    assert_eq!(id_to_db(id(175_928_847_299_117_063)), 175_928_847_299_117_063);
    assert_eq!(id_to_db(id(9_223_372_036_854_775_807)), i64::MAX);
    assert_eq!(id_to_db(id(9_223_372_036_854_775_808)), i64::MIN);
    assert_eq!(id_to_db(id(u64::MAX)), -1);
}

#[test]
fn keys_are_distinct_and_give_their_ids_back() {
    let numbers = [1, 2, 1 << 62, (1 << 63) - 1, 1 << 63, (1 << 63) + 1, u64::MAX];
    for a in numbers {
        assert_eq!(id_to_db(id(a)) as u64, a);
        for b in numbers {
            assert_eq!(id_to_db(id(a)) == id_to_db(id(b)), a == b);
        }
    }
}

#[test]
fn snowflakes_carry_their_second() {
    // the snowflake of Discord's own documentation: 41944705796 ms after the epoch
    assert_eq!(snowflake_to_timestamp(id(175_928_847_299_117_063)), 41_944_705);
    assert_eq!(snowflake_to_timestamp(id(1)), 0);
    assert_eq!(snowflake_to_timestamp(id((1000 << 22) - 1)), 0);
    assert_eq!(snowflake_to_timestamp(id(1000 << 22)), 1);
    assert_eq!(snowflake_to_timestamp(id(u64::MAX)), 4_398_046_511);
}

#[test]
fn later_snowflakes_are_not_older() {
    let mut last = 0;
    for n in [1u64, 999 << 22, 1000 << 22, 1001 << 22, 1 << 40, 1 << 63, u64::MAX] {
        let seconds = snowflake_to_timestamp(id(n));
        assert!(seconds >= last);
        last = seconds;
    }
}
