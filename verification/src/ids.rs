//! Discord ids are unsigned 64-bit snowflakes; the database keeps them in signed
//! 64-bit `INTEGER` columns, bit for bit.

use vstd::prelude::*;

verus! {

/// 2 to the 64th: the distance between an id and its signed reading when the top bit is set.
pub open spec fn two_pow_64() -> int {
    18446744073709551616
}

/// The signed value that the 64 bits of `id` read as.
pub open spec fn stored_key(id: u64) -> int {
    if id <= i64::MAX {
        id as int
    } else {
        id - two_pow_64()
    }
}

/// The unsigned id that the 64 bits of a stored `key` read as.
pub open spec fn stored_id(key: i64) -> int {
    if key >= 0 {
        key as int
    } else {
        key + two_pow_64()
    }
}

/// The database key of a Discord id (`id as i64`).
pub fn db_key(id: u64) -> (key: i64)
    ensures
        key as int == stored_key(id),
{
    if id <= 9223372036854775807u64 {
        id as i64
    } else {
        let high: u64 = id - 9223372036854775808u64;
        (high as i64) + i64::MIN
    }
}

/// The Discord id held in a database key (`key as u64`).
pub fn snowflake(key: i64) -> (id: u64)
    ensures
        id as int == stored_id(key),
{
    if key >= 0 {
        key as u64
    } else {
        let low: i64 = key - i64::MIN;
        (low as u64) + 9223372036854775808u64
    }
}

/// Storing an id and reading it back gives the same id: no two ids share a key.
pub proof fn stored_id_of_stored_key(id: u64)
    ensures
        i64::MIN <= stored_key(id) <= i64::MAX,
        stored_id(stored_key(id) as i64) == id,
{
}

/// Reading a key as an id and storing that id gives the same key back.
pub proof fn stored_key_of_stored_id(key: i64)
    ensures
        0 <= stored_id(key) <= u64::MAX,
        stored_key(stored_id(key) as u64) == key,
{
}

} // verus!
