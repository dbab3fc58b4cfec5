use rustylogs::ids::{db_key, snowflake};
use rustylogs::protocol::{statement, DbRequest, RowShape};
use rustylogs::text::{decimal, decimal_unsigned};

#[test]
fn decimal_of_zero_and_small_numbers() {
    assert_eq!(decimal(0), "0");
    assert_eq!(decimal(7), "7");
    assert_eq!(decimal(10), "10");
    assert_eq!(decimal(1234567890), "1234567890");
}

#[test]
fn decimal_of_negative_numbers() {
    assert_eq!(decimal(-1), "-1");
    assert_eq!(decimal(-907), "-907");
}

#[test]
fn decimal_of_extremes_matches_display() {
    assert_eq!(decimal(i64::MIN), i64::MIN.to_string());
    assert_eq!(decimal(i64::MAX), i64::MAX.to_string());
    assert_eq!(decimal_unsigned(u64::MAX), u64::MAX.to_string());
    assert_eq!(decimal_unsigned(0), "0");
}

#[test]
fn db_key_is_the_bits_read_signed() {
    assert_eq!(db_key(0), 0);
    assert_eq!(db_key(1109472318492741632), 1109472318492741632);
    assert_eq!(db_key(u64::MAX), -1);
    assert_eq!(db_key(1u64 << 63), i64::MIN);
    for id in [0u64, 5, 1 << 62, (1 << 63) - 1, 1 << 63, u64::MAX - 3, u64::MAX] {
        assert_eq!(db_key(id), id as i64);
    }
}

#[test]
fn snowflake_is_the_bits_read_unsigned() {
    assert_eq!(snowflake(-1), u64::MAX);
    assert_eq!(snowflake(i64::MIN), 1u64 << 63);
    for key in [0i64, 5, i64::MAX, -1, -5, i64::MIN] {
        assert_eq!(snowflake(key), key as u64);
    }
}

#[test]
fn keys_and_ids_round_trip() {
    for id in [0u64, 42, 1 << 63, u64::MAX, 998877665544332211] {
        assert_eq!(snowflake(db_key(id)), id);
    }
    for key in [0i64, -42, i64::MIN, i64::MAX] {
        assert_eq!(db_key(snowflake(key)), key);
    }
}

#[test]
fn statements_bind_in_parameter_order() {
    let s = statement(DbRequest::FindTarget { guild: 1, channel: 2 });
    assert_eq!(s.sql, "SELECT target_id FROM channels WHERE guild_id = ? AND id = ?");
    assert_eq!(s.binds, vec![1, 2]);
    assert!(matches!(s.shape, RowShape::OptionalKey));
    let s = statement(DbRequest::InsertChannel { channel: 5, guild: 6, target: 7, created_at: 8 });
    assert_eq!(s.sql, "INSERT INTO channels (id, guild_id, target_id, created_at) VALUES ($1, $2, $3, $4)");
    assert_eq!(s.binds, vec![5, 6, 7, 8]);
    assert!(matches!(s.shape, RowShape::Nothing));
    let s = statement(DbRequest::FetchTarget { guild: 3, channel: 4 });
    assert_eq!(s.binds, vec![3, 4]);
    assert!(matches!(s.shape, RowShape::RequiredKey));
    let s = statement(DbRequest::ListChannels { guild: 9 });
    assert_eq!(s.sql, "SELECT id, target_id, created_at FROM channels WHERE guild_id = ?");
    assert!(matches!(s.shape, RowShape::ChannelRows));
    let s = statement(DbRequest::DeleteMessage { source: -1 });
    assert_eq!(s.sql, "DELETE FROM messages WHERE id = ?");
    assert_eq!(s.binds, vec![-1]);
}
