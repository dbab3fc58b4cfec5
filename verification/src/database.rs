//! A model of the bot's SQLite tables and of what each SQL text the bot sends does to
//! them, read off the text itself: which table, which columns are compared with which
//! parameter, which column comes back. The laws below run the statements the handlers
//! ask for through this model.

use vstd::prelude::*;
use crate::protocol::{statement_binds, statement_text, DbRequest};

verus! {

/// A row of `channels`.
pub struct ChannelRecord {
    pub id: i64,
    pub guild_id: i64,
    pub target_id: i64,
    pub created_at: i64,
}

/// A row of `messages`.
pub struct MessageRecord {
    pub id: i64,
    pub guild_id: i64,
    pub message_id: i64,
    pub created_at: i64,
}

/// The three tables: `guilds` rows are `(id, created_at)`.
pub struct Tables {
    pub guilds: Set<(i64, i64)>,
    pub channels: Set<ChannelRecord>,
    pub messages: Set<MessageRecord>,
}

/// What running a SQL text gives back.
pub enum SqlResult {
    /// A statement without rows ran.
    Done,
    /// A one-column query: the column of a matching row, or `None` when no row matches.
    Key(Option<i64>),
    /// A query that needs a row found none.
    NoRow,
    /// The rows of `SELECT id, target_id, created_at`.
    Rows(Set<(i64, i64, i64)>),
    /// The text is not one this model knows, or the number of values does not fit it.
    Unknown,
}

/// The `channels` rows whose `id` and `guild_id` are the given ones.
pub open spec fn channel_matches(db: Tables, id: i64, guild_id: i64) -> Set<ChannelRecord> {
    db.channels.filter(|r: ChannelRecord| r.id == id && r.guild_id == guild_id)
}

/// One column of some row of `rows`, or `None` when there is none.
pub open spec fn some_channel_column(rows: Set<ChannelRecord>, column: spec_fn(ChannelRecord) -> i64) -> Option<i64> {
    if exists|r: ChannelRecord| rows.contains(r) {
        Some(column(choose|r: ChannelRecord| rows.contains(r)))
    } else {
        None
    }
}

/// The `messages` rows whose `id` is the given one.
pub open spec fn message_matches(db: Tables, id: i64) -> Set<MessageRecord> {
    db.messages.filter(|r: MessageRecord| r.id == id)
}

/// What SQLite does with `sql` and the values `binds` bound to its parameters in order.
pub open spec fn run_sql(db: Tables, sql: Seq<char>, binds: Seq<i64>) -> (Tables, SqlResult) {
    if sql == "INSERT OR IGNORE INTO guilds (id, created_at) VALUES (?, ?)"@ && binds.len() == 2 {
        if exists|c: i64| db.guilds.contains((binds[0], c)) {
            (db, SqlResult::Done)
        } else {
            (Tables { guilds: db.guilds.insert((binds[0], binds[1])), ..db }, SqlResult::Done)
        }
    } else if sql == "DELETE FROM guilds WHERE id = ?"@ && binds.len() == 1 {
        (Tables { guilds: db.guilds.filter(|g: (i64, i64)| g.0 != binds[0]), ..db }, SqlResult::Done)
    } else if sql == "INSERT INTO channels (id, guild_id, target_id, created_at) VALUES ($1, $2, $3, $4)"@
        && binds.len() == 4 {
        (
            Tables {
                channels: db.channels.insert(
                    ChannelRecord { id: binds[0], guild_id: binds[1], target_id: binds[2], created_at: binds[3] },
                ),
                ..db
            },
            SqlResult::Done,
        )
    } else if sql == "SELECT id FROM channels WHERE id = ? AND guild_id = ?"@ && binds.len() == 2 {
        (db, SqlResult::Key(some_channel_column(channel_matches(db, binds[0], binds[1]), |r: ChannelRecord| r.id)))
    } else if sql == "DELETE FROM channels WHERE id = ? AND guild_id = ?"@ && binds.len() == 2 {
        (
            Tables {
                channels: db.channels.filter(|r: ChannelRecord| !(r.id == binds[0] && r.guild_id == binds[1])),
                ..db
            },
            SqlResult::Done,
        )
    } else if sql == "SELECT id, target_id, created_at FROM channels WHERE guild_id = ?"@ && binds.len() == 1 {
        (
            db,
            SqlResult::Rows(
                db.channels.filter(|r: ChannelRecord| r.guild_id == binds[0]).map(
                    |r: ChannelRecord| (r.id, r.target_id, r.created_at),
                ),
            ),
        )
    } else if sql == "SELECT target_id FROM channels WHERE guild_id = ? AND id = ?"@ && binds.len() == 2 {
        (db, SqlResult::Key(some_channel_column(channel_matches(db, binds[1], binds[0]), |r: ChannelRecord| r.target_id)))
    } else if sql == "SELECT target_id FROM channels WHERE guild_id = $1 AND id = $2"@ && binds.len() == 2 {
        match some_channel_column(channel_matches(db, binds[1], binds[0]), |r: ChannelRecord| r.target_id) {
            Some(t) => (db, SqlResult::Key(Some(t))),
            None => (db, SqlResult::NoRow),
        }
    } else if sql == "INSERT INTO messages (id, guild_id, message_id, created_at) VALUES (?, ?, ?, ?)"@
        && binds.len() == 4 {
        (
            Tables {
                messages: db.messages.insert(
                    MessageRecord { id: binds[0], guild_id: binds[1], message_id: binds[2], created_at: binds[3] },
                ),
                ..db
            },
            SqlResult::Done,
        )
    } else if sql == "SELECT message_id FROM messages WHERE id = ?"@ && binds.len() == 1 {
        let rows = message_matches(db, binds[0]);
        if exists|r: MessageRecord| rows.contains(r) {
            (db, SqlResult::Key(Some((choose|r: MessageRecord| rows.contains(r)).message_id)))
        } else {
            (db, SqlResult::Key(None))
        }
    } else if sql == "DELETE FROM messages WHERE id = ?"@ && binds.len() == 1 {
        (Tables { messages: db.messages.filter(|r: MessageRecord| r.id != binds[0]), ..db }, SqlResult::Done)
    } else {
        (db, SqlResult::Unknown)
    }
}

/// Running the statement the library words for `request`.
pub open spec fn run(db: Tables, request: DbRequest) -> (Tables, SqlResult) {
    run_sql(db, statement_text(request), statement_binds(request))
}

/// The lengths of the SQL texts the model knows: all differ, so no text is mistaken for
/// another.
proof fn lemma_known_texts()
    ensures
        "INSERT OR IGNORE INTO guilds (id, created_at) VALUES (?, ?)"@.len() == 59,
        "DELETE FROM guilds WHERE id = ?"@.len() == 31,
        "INSERT INTO channels (id, guild_id, target_id, created_at) VALUES ($1, $2, $3, $4)"@.len() == 82,
        "SELECT id FROM channels WHERE id = ? AND guild_id = ?"@.len() == 53,
        "DELETE FROM channels WHERE id = ? AND guild_id = ?"@.len() == 50,
        "SELECT id, target_id, created_at FROM channels WHERE guild_id = ?"@.len() == 65,
        "SELECT target_id FROM channels WHERE guild_id = ? AND id = ?"@.len() == 60,
        "SELECT target_id FROM channels WHERE guild_id = $1 AND id = $2"@.len() == 62,
        "INSERT INTO messages (id, guild_id, message_id, created_at) VALUES (?, ?, ?, ?)"@.len() == 79,
        "SELECT message_id FROM messages WHERE id = ?"@.len() == 44,
        "DELETE FROM messages WHERE id = ?"@.len() == 33,
{
    reveal_strlit("INSERT OR IGNORE INTO guilds (id, created_at) VALUES (?, ?)");
    reveal_strlit("DELETE FROM guilds WHERE id = ?");
    reveal_strlit("INSERT INTO channels (id, guild_id, target_id, created_at) VALUES ($1, $2, $3, $4)");
    reveal_strlit("SELECT id FROM channels WHERE id = ? AND guild_id = ?");
    reveal_strlit("DELETE FROM channels WHERE id = ? AND guild_id = ?");
    reveal_strlit("SELECT id, target_id, created_at FROM channels WHERE guild_id = ?");
    reveal_strlit("SELECT target_id FROM channels WHERE guild_id = ? AND id = ?");
    reveal_strlit("SELECT target_id FROM channels WHERE guild_id = $1 AND id = $2");
    reveal_strlit("INSERT INTO messages (id, guild_id, message_id, created_at) VALUES (?, ?, ?, ?)");
    reveal_strlit("SELECT message_id FROM messages WHERE id = ?");
    reveal_strlit("DELETE FROM messages WHERE id = ?");
}

/// No `channels` row with this id in this guild.
pub open spec fn channel_unwatched(db: Tables, channel: i64, guild: i64) -> bool {
    forall|r: ChannelRecord| db.channels.contains(r) ==> !(r.id == channel && r.guild_id == guild)
}

/// What `/listen` records is what `/stop` and the message handlers find: after the insert of
/// `/listen` for a channel that was not watched in the guild, the lookup of `/stop` finds
/// the channel, and both target lookups of the message handlers find the target `/listen`
/// was given.
pub proof fn listen_is_found_by_stop_and_message(db: Tables, channel: i64, guild: i64, target: i64, now: i64)
    requires
        channel_unwatched(db, channel, guild),
    ensures
        ({
            let db1 = run(db, DbRequest::InsertChannel { channel, guild, target, created_at: now }).0;
            &&& run(db1, DbRequest::FindChannel { channel, guild }).1 == SqlResult::Key(Some(channel))
            &&& run(db1, DbRequest::FindTarget { guild, channel }).1 == SqlResult::Key(Some(target))
            &&& run(db1, DbRequest::FetchTarget { guild, channel }).1 == SqlResult::Key(Some(target))
        }),
{
    lemma_known_texts();
    let rec = ChannelRecord { id: channel, guild_id: guild, target_id: target, created_at: now };
    let db1 = run(db, DbRequest::InsertChannel { channel, guild, target, created_at: now }).0;
    assert(db1.channels == db.channels.insert(rec));
    let rows = channel_matches(db1, channel, guild);
    assert(rows.contains(rec));
    assert(rows =~= set![rec]);
}

/// What `/stop` deletes is gone: after its delete, its lookup and both target lookups of
/// the message handlers find nothing for the channel in the guild, and a second delete
/// changes nothing.
pub proof fn stop_removes_the_watch(db: Tables, channel: i64, guild: i64)
    ensures
        ({
            let db1 = run(db, DbRequest::DeleteChannel { channel, guild }).0;
            &&& channel_unwatched(db1, channel, guild)
            &&& run(db1, DbRequest::FindChannel { channel, guild }).1 == SqlResult::Key(None)
            &&& run(db1, DbRequest::FindTarget { guild, channel }).1 == SqlResult::Key(None)
            &&& run(db1, DbRequest::FetchTarget { guild, channel }).1 == SqlResult::NoRow
            &&& run(db1, DbRequest::DeleteChannel { channel, guild }).0 == db1
        }),
{
    lemma_known_texts();
    let db1 = run(db, DbRequest::DeleteChannel { channel, guild }).0;
    assert(channel_matches(db1, channel, guild) =~= Set::<ChannelRecord>::empty());
    let db2 = run(db1, DbRequest::DeleteChannel { channel, guild }).0;
    assert(db2.channels =~= db1.channels);
}

/// The relay's record is what the deletion handler finds: after the message handler
/// records the pair of a message not recorded before, the answer lookup for that message
/// gives back the key of the posted answer.
pub proof fn recorded_answer_is_found(db: Tables, source: i64, guild: i64, reply: i64, sent_at: i64)
    requires
        forall|r: MessageRecord| db.messages.contains(r) ==> r.id != source,
    ensures
        ({
            let db1 = run(db, DbRequest::InsertMessage { source, guild, reply, created_at: sent_at }).0;
            run(db1, DbRequest::FindReply { source }).1 == SqlResult::Key(Some(reply))
        }),
{
    lemma_known_texts();
    let rec = MessageRecord { id: source, guild_id: guild, message_id: reply, created_at: sent_at };
    let db1 = run(db, DbRequest::InsertMessage { source, guild, reply, created_at: sent_at }).0;
    assert(db1.messages == db.messages.insert(rec));
    let rows = message_matches(db1, source);
    assert(rows.contains(rec));
    assert(rows =~= set![rec]);
}

/// Recording a guild leaves a row with its id, and deleting it leaves none; deleting a
/// guild's record twice leaves the tables as deleting it once, and recording a guild twice
/// leaves them as recording it once.
pub proof fn guild_statements_are_idempotent(db: Tables, guild: i64, created_at: i64, later: i64)
    ensures
        ({
            let d1 = run(db, DbRequest::DeleteGuild { guild }).0;
            let i1 = run(db, DbRequest::InsertGuildIfAbsent { guild, created_at }).0;
            &&& run(d1, DbRequest::DeleteGuild { guild }).0 == d1
            &&& exists|c: i64| i1.guilds.contains((guild, c))
            &&& forall|c: i64| !d1.guilds.contains((guild, c))
            &&& run(i1, DbRequest::InsertGuildIfAbsent { guild, created_at: later }).0 == i1
        }),
{
    lemma_known_texts();
    let d1 = run(db, DbRequest::DeleteGuild { guild }).0;
    assert(run(d1, DbRequest::DeleteGuild { guild }).0.guilds =~= d1.guilds);
    let i1 = run(db, DbRequest::InsertGuildIfAbsent { guild, created_at }).0;
    if !(exists|c: i64| db.guilds.contains((guild, c))) {
        assert(i1.guilds.contains((guild, created_at)));
    } else {
        let c = choose|c: i64| db.guilds.contains((guild, c));
        assert(i1.guilds.contains((guild, c)));
    }
}

/// Deleting a message's record leaves no answer to find for it.
pub proof fn deleted_record_is_not_found(db: Tables, source: i64)
    ensures
        ({
            let db1 = run(db, DbRequest::DeleteMessage { source }).0;
            run(db1, DbRequest::FindReply { source }).1 == SqlResult::Key(None)
        }),
{
    lemma_known_texts();
    let db1 = run(db, DbRequest::DeleteMessage { source }).0;
    assert(message_matches(db1, source) =~= Set::<MessageRecord>::empty());
}

/// A channel recorded by `/listen` is among the rows `/list` gets for its guild, with its
/// target and its time; rows of other guilds are not.
pub proof fn listed_rows_are_the_guilds_watches(db: Tables, channel: i64, guild: i64, target: i64, now: i64, other: i64)
    requires
        other != guild,
    ensures
        ({
            let db1 = run(db, DbRequest::InsertChannel { channel, guild, target, created_at: now }).0;
            &&& run(db1, DbRequest::ListChannels { guild }).1 matches SqlResult::Rows(rows)
                && rows.contains((channel, target, now))
            &&& run(db1, DbRequest::ListChannels { guild: other }).1 == run(db, DbRequest::ListChannels { guild: other }).1
        }),
{
    lemma_known_texts();
    let rec = ChannelRecord { id: channel, guild_id: guild, target_id: target, created_at: now };
    let db1 = run(db, DbRequest::InsertChannel { channel, guild, target, created_at: now }).0;
    assert(db1.channels == db.channels.insert(rec));
    let mine = db1.channels.filter(|r: ChannelRecord| r.guild_id == guild);
    assert(mine.contains(rec));
    assert(mine.map(|r: ChannelRecord| (r.id, r.target_id, r.created_at)).contains((channel, target, now)));
    assert(db1.channels.filter(|r: ChannelRecord| r.guild_id == other) =~= db.channels.filter(
        |r: ChannelRecord| r.guild_id == other,
    ));
}

} // verus!
