//! The vocabulary shared by the bot's handlers: the outside work a handler asks for
//! (`Action`), what that work gave back (`Outcome`), and the database statements.
//!
//! Every handler is a state machine: it is called with its input, its stage and the
//! outcome of the action it asked for last, and answers with its next stage and the
//! next action. The driver performs the action and calls again, until the action is
//! `Finish` or `Abort`.

use vstd::prelude::*;

verus! {

/// What went wrong in an outside call: its `Display` text and its `Debug` text; for a
/// database call also whether the database itself refused the statement, and whether
/// it refused it for a unique constraint.
pub struct Failure {
    pub text: String,
    pub detail: String,
    pub database_error: bool,
    pub unique_violation: bool,
}

/// One row of `SELECT id, target_id, created_at FROM channels`.
#[derive(Clone, Copy)]
pub struct ChannelRow {
    pub channel: i64,
    pub target: i64,
    pub created_at: i64,
}

/// The statements the bot runs on its database; every id is a database key.
#[derive(Clone, Copy)]
pub enum DbRequest {
    /// `INSERT OR IGNORE INTO guilds (id, created_at) VALUES (?, ?)`
    InsertGuildIfAbsent { guild: i64, created_at: i64 },
    /// `DELETE FROM guilds WHERE id = ?`
    DeleteGuild { guild: i64 },
    /// `INSERT INTO channels (id, guild_id, target_id, created_at) VALUES (?, ?, ?, ?)`
    InsertChannel { channel: i64, guild: i64, target: i64, created_at: i64 },
    /// `SELECT id FROM channels WHERE id = ? AND guild_id = ?`, at most one row
    FindChannel { channel: i64, guild: i64 },
    /// `DELETE FROM channels WHERE id = ? AND guild_id = ?`
    DeleteChannel { channel: i64, guild: i64 },
    /// `SELECT id, target_id, created_at FROM channels WHERE guild_id = ?`, every row
    ListChannels { guild: i64 },
    /// `SELECT target_id FROM channels WHERE guild_id = ? AND id = ?`, at most one row
    FindTarget { guild: i64, channel: i64 },
    /// `SELECT target_id FROM channels WHERE guild_id = ? AND id = ?`, exactly one row
    /// (no row is an error)
    FetchTarget { guild: i64, channel: i64 },
    /// `INSERT INTO messages (id, guild_id, message_id, created_at) VALUES (?, ?, ?, ?)`
    InsertMessage { source: i64, guild: i64, reply: i64, created_at: i64 },
    /// `SELECT message_id FROM messages WHERE id = ?`, at most one row
    FindReply { source: i64 },
    /// `DELETE FROM messages WHERE id = ?`
    DeleteMessage { source: i64 },
}

/// What a statement gives back.
#[derive(Clone, Copy)]
pub enum RowShape {
    /// No rows: the statement is executed.
    Nothing,
    /// At most one row of one key.
    OptionalKey,
    /// Exactly one row of one key; no row is an error.
    RequiredKey,
    /// Every row, each a `ChannelRow`.
    ChannelRows,
}

/// The SQL of a statement, the values bound to its parameters in order, and what it gives
/// back.
pub struct Statement {
    pub sql: String,
    pub binds: Vec<i64>,
    pub shape: RowShape,
}

/// The SQL text of each statement.
pub open spec fn statement_text(request: DbRequest) -> Seq<char> {
    match request {
        DbRequest::InsertGuildIfAbsent { .. } => "INSERT OR IGNORE INTO guilds (id, created_at) VALUES (?, ?)"@,
        DbRequest::DeleteGuild { .. } => "DELETE FROM guilds WHERE id = ?"@,
        DbRequest::InsertChannel { .. } =>
            "INSERT INTO channels (id, guild_id, target_id, created_at) VALUES ($1, $2, $3, $4)"@,
        DbRequest::FindChannel { .. } => "SELECT id FROM channels WHERE id = ? AND guild_id = ?"@,
        DbRequest::DeleteChannel { .. } => "DELETE FROM channels WHERE id = ? AND guild_id = ?"@,
        DbRequest::ListChannels { .. } => "SELECT id, target_id, created_at FROM channels WHERE guild_id = ?"@,
        DbRequest::FindTarget { .. } => "SELECT target_id FROM channels WHERE guild_id = ? AND id = ?"@,
        DbRequest::FetchTarget { .. } => "SELECT target_id FROM channels WHERE guild_id = $1 AND id = $2"@,
        DbRequest::InsertMessage { .. } =>
            "INSERT INTO messages (id, guild_id, message_id, created_at) VALUES (?, ?, ?, ?)"@,
        DbRequest::FindReply { .. } => "SELECT message_id FROM messages WHERE id = ?"@,
        DbRequest::DeleteMessage { .. } => "DELETE FROM messages WHERE id = ?"@,
    }
}

/// The values bound to a statement's parameters, in the order of the parameters.
pub open spec fn statement_binds(request: DbRequest) -> Seq<i64> {
    match request {
        DbRequest::InsertGuildIfAbsent { guild, created_at } => seq![guild, created_at],
        DbRequest::DeleteGuild { guild } => seq![guild],
        DbRequest::InsertChannel { channel, guild, target, created_at } => seq![channel, guild, target, created_at],
        DbRequest::FindChannel { channel, guild } => seq![channel, guild],
        DbRequest::DeleteChannel { channel, guild } => seq![channel, guild],
        DbRequest::ListChannels { guild } => seq![guild],
        DbRequest::FindTarget { guild, channel } => seq![guild, channel],
        DbRequest::FetchTarget { guild, channel } => seq![guild, channel],
        DbRequest::InsertMessage { source, guild, reply, created_at } => seq![source, guild, reply, created_at],
        DbRequest::FindReply { source } => seq![source],
        DbRequest::DeleteMessage { source } => seq![source],
    }
}

/// What each statement gives back.
pub open spec fn statement_shape(request: DbRequest) -> RowShape {
    match request {
        DbRequest::FindChannel { .. } | DbRequest::FindTarget { .. } | DbRequest::FindReply { .. } => RowShape::OptionalKey,
        DbRequest::FetchTarget { .. } => RowShape::RequiredKey,
        DbRequest::ListChannels { .. } => RowShape::ChannelRows,
        _ => RowShape::Nothing,
    }
}

fn bound(values: &[i64]) -> (binds: Vec<i64>)
    ensures
        binds@ == values@,
{
    let mut binds: Vec<i64> = Vec::new();
    let mut i: usize = 0;
    while i < values.len()
        invariant
            i <= values.len(),
            binds@ == values@.take(i as int),
        decreases values.len() - i,
    {
        binds.push(values[i]);
        assert(values@.take(i + 1) =~= values@.take(i as int).push(values[i as int]));
        i = i + 1;
    }
    assert(values@.take(i as int) =~= values@);
    binds
}

fn prepared(sql: &str, values: &[i64], shape: RowShape) -> (s: Statement)
    ensures
        s.sql@ == sql@,
        s.binds@ == values@,
        s.shape == shape,
{
    Statement { sql: sql.to_owned(), binds: bound(values), shape }
}

/// The statement to run for a request: its SQL, its parameters' values in order, and what
/// it gives back.
pub fn statement(request: DbRequest) -> (s: Statement)
    ensures
        s.sql@ == statement_text(request),
        s.binds@ == statement_binds(request),
        s.shape == statement_shape(request),
{
    let s = match request {
        DbRequest::InsertGuildIfAbsent { guild, created_at } => prepared(
            "INSERT OR IGNORE INTO guilds (id, created_at) VALUES (?, ?)",
            &[guild, created_at],
            RowShape::Nothing,
        ),
        DbRequest::DeleteGuild { guild } => prepared("DELETE FROM guilds WHERE id = ?", &[guild], RowShape::Nothing),
        DbRequest::InsertChannel { channel, guild, target, created_at } => prepared(
            "INSERT INTO channels (id, guild_id, target_id, created_at) VALUES ($1, $2, $3, $4)",
            &[channel, guild, target, created_at],
            RowShape::Nothing,
        ),
        DbRequest::FindChannel { channel, guild } => prepared(
            "SELECT id FROM channels WHERE id = ? AND guild_id = ?",
            &[channel, guild],
            RowShape::OptionalKey,
        ),
        DbRequest::DeleteChannel { channel, guild } => prepared(
            "DELETE FROM channels WHERE id = ? AND guild_id = ?",
            &[channel, guild],
            RowShape::Nothing,
        ),
        DbRequest::ListChannels { guild } => prepared(
            "SELECT id, target_id, created_at FROM channels WHERE guild_id = ?",
            &[guild],
            RowShape::ChannelRows,
        ),
        DbRequest::FindTarget { guild, channel } => prepared(
            "SELECT target_id FROM channels WHERE guild_id = ? AND id = ?",
            &[guild, channel],
            RowShape::OptionalKey,
        ),
        DbRequest::FetchTarget { guild, channel } => prepared(
            "SELECT target_id FROM channels WHERE guild_id = $1 AND id = $2",
            &[guild, channel],
            RowShape::RequiredKey,
        ),
        DbRequest::InsertMessage { source, guild, reply, created_at } => prepared(
            "INSERT INTO messages (id, guild_id, message_id, created_at) VALUES (?, ?, ?, ?)",
            &[source, guild, reply, created_at],
            RowShape::Nothing,
        ),
        DbRequest::FindReply { source } => prepared(
            "SELECT message_id FROM messages WHERE id = ?",
            &[source],
            RowShape::OptionalKey,
        ),
        DbRequest::DeleteMessage { source } => prepared(
            "DELETE FROM messages WHERE id = ?",
            &[source],
            RowShape::Nothing,
        ),
    };
    proof {
        assert(s.binds@ =~= statement_binds(request));
    }
    s
}

/// The look of a message component button.
#[derive(Clone, Copy)]
pub enum ButtonStyle {
    Danger,
}

/// A button attached to a posted message.
pub struct Button {
    pub custom_id: String,
    pub label: String,
    pub style: ButtonStyle,
}

pub struct ButtonView {
    pub custom_id: Seq<char>,
    pub label: Seq<char>,
    pub style: ButtonStyle,
}

impl View for Button {
    type V = ButtonView;

    open spec fn view(&self) -> ButtonView {
        ButtonView { custom_id: self.custom_id@, label: self.label@, style: self.style }
    }
}

/// The outside work a handler asks for next.
pub enum Action {
    /// Print a line on standard output, or on standard error.
    Print { line: String, stderr: bool },
    /// Answer the invoking command (ephemeral: only its author sees it).
    Reply { content: String, ephemeral: bool },
    /// Tell Discord that the command's ephemeral answer will come later.
    DeferEphemeral,
    /// Take the lock of the shared ChatGPT conversation, and hold it to the end.
    LockConversation,
    /// Send `prompt` in the ChatGPT conversation.
    Ask { prompt: String },
    /// Run a database statement.
    Query(DbRequest),
    /// Fetch a channel over HTTP; the outcome says whether it is a guild channel.
    FetchChannel { channel: u64 },
    /// Look a channel up in the gateway cache.
    LookupCachedChannel { channel: u64 },
    /// Fetch a message over HTTP.
    FetchMessage { channel: u64, message: u64 },
    /// Acknowledge a component interaction with a deferred update; its result is ignored.
    AcknowledgeComponent,
    /// Replace the content of a message.
    EditMessage { channel: u64, message: u64, content: String },
    /// Post a message in a channel, with a button when one is given.
    PostMessage { channel: u64, content: String, button: Option<Button> },
    /// Delete messages of a channel.
    DeleteMessages { channel: u64, messages: Vec<u64> },
    /// Load the configuration file.
    LoadConfig,
    /// Register the slash commands globally.
    RegisterCommands,
    /// Open the SQLite pool.
    ConnectDatabase { file: String, max_connections: u32, create_if_missing: bool, foreign_keys: bool },
    /// Apply the migrations found in `dir`.
    RunMigrations { dir: String },
    /// Create the ChatGPT client.
    CreateGptClient { api_key: String, timeout_secs: u64 },
    /// Open the conversation, directed by `direction`.
    StartConversation { direction: String },
    /// Stop with a panic: `message`, then `": "` and `detail` where there is one.
    Abort { message: String, detail: Option<String> },
    /// The handler is done: with no error, or with the error of the last outside call.
    Finish { error: Option<String> },
}

/// `Action` with its texts as sequences of characters.
pub enum ActionView {
    Print { line: Seq<char>, stderr: bool },
    Reply { content: Seq<char>, ephemeral: bool },
    DeferEphemeral,
    LockConversation,
    Ask { prompt: Seq<char> },
    Query(DbRequest),
    FetchChannel { channel: u64 },
    LookupCachedChannel { channel: u64 },
    FetchMessage { channel: u64, message: u64 },
    AcknowledgeComponent,
    EditMessage { channel: u64, message: u64, content: Seq<char> },
    PostMessage { channel: u64, content: Seq<char>, button: Option<ButtonView> },
    DeleteMessages { channel: u64, messages: Seq<u64> },
    LoadConfig,
    RegisterCommands,
    ConnectDatabase { file: Seq<char>, max_connections: u32, create_if_missing: bool, foreign_keys: bool },
    RunMigrations { dir: Seq<char> },
    CreateGptClient { api_key: Seq<char>, timeout_secs: u64 },
    StartConversation { direction: Seq<char> },
    Abort { message: Seq<char>, detail: Option<Seq<char>> },
    Finish { error: Option<Seq<char>> },
}

impl ActionView {
    /// The run of the handler is over after this action.
    pub open spec fn ends(self) -> bool {
        self is Abort || self is Finish
    }
}

pub open spec fn opt_text(o: Option<String>) -> Option<Seq<char>> {
    match o {
        Some(s) => Some(s@),
        None => None,
    }
}

pub open spec fn opt_button(o: Option<Button>) -> Option<ButtonView> {
    match o {
        Some(b) => Some(b@),
        None => None,
    }
}

impl View for Action {
    type V = ActionView;

    open spec fn view(&self) -> ActionView {
        match self {
            Action::Print { line, stderr } => ActionView::Print { line: line@, stderr: *stderr },
            Action::Reply { content, ephemeral } => ActionView::Reply {
                content: content@,
                ephemeral: *ephemeral,
            },
            Action::DeferEphemeral => ActionView::DeferEphemeral,
            Action::LockConversation => ActionView::LockConversation,
            Action::Ask { prompt } => ActionView::Ask { prompt: prompt@ },
            Action::Query(q) => ActionView::Query(*q),
            Action::FetchChannel { channel } => ActionView::FetchChannel { channel: *channel },
            Action::LookupCachedChannel { channel } => ActionView::LookupCachedChannel {
                channel: *channel,
            },
            Action::FetchMessage { channel, message } => ActionView::FetchMessage {
                channel: *channel,
                message: *message,
            },
            Action::AcknowledgeComponent => ActionView::AcknowledgeComponent,
            Action::EditMessage { channel, message, content } => ActionView::EditMessage {
                channel: *channel,
                message: *message,
                content: content@,
            },
            Action::PostMessage { channel, content, button } => ActionView::PostMessage {
                channel: *channel,
                content: content@,
                button: opt_button(*button),
            },
            Action::DeleteMessages { channel, messages } => ActionView::DeleteMessages {
                channel: *channel,
                messages: messages@,
            },
            Action::LoadConfig => ActionView::LoadConfig,
            Action::RegisterCommands => ActionView::RegisterCommands,
            Action::ConnectDatabase { file, max_connections, create_if_missing, foreign_keys } =>
                ActionView::ConnectDatabase {
                file: file@,
                max_connections: *max_connections,
                create_if_missing: *create_if_missing,
                foreign_keys: *foreign_keys,
            },
            Action::RunMigrations { dir } => ActionView::RunMigrations { dir: dir@ },
            Action::CreateGptClient { api_key, timeout_secs } => ActionView::CreateGptClient {
                api_key: api_key@,
                timeout_secs: *timeout_secs,
            },
            Action::StartConversation { direction } => ActionView::StartConversation {
                direction: direction@,
            },
            Action::Abort { message, detail } => ActionView::Abort {
                message: message@,
                detail: opt_text(*detail),
            },
            Action::Finish { error } => ActionView::Finish { error: opt_text(*error) },
        }
    }
}

/// What the last action gave back.
pub enum Outcome {
    /// The first call of a handler: no action was performed yet.
    Begin,
    /// An action that gives nothing back was performed (print, lock, acknowledge).
    Done,
    /// A statement without rows ran.
    Executed(Result<(), Failure>),
    /// A statement with at most one row of one key ran.
    Row(Result<Option<i64>, Failure>),
    /// The channel listing ran.
    Rows(Result<Vec<ChannelRow>, Failure>),
    /// A command answer, or the deferral, was sent.
    Sent(Result<(), Failure>),
    /// A channel was fetched: `true` for a guild channel.
    ChannelFetched(Result<bool, Failure>),
    /// The cache lookup: `None` when the channel is not cached, else whether it is a
    /// guild channel.
    CachedChannel(Option<bool>),
    /// A message was fetched: its content.
    MessageFetched(Result<String, Failure>),
    /// A message was posted: its id.
    Posted(Result<u64, Failure>),
    /// A message was edited.
    Edited(Result<(), Failure>),
    /// Messages were deleted.
    Deleted(Result<(), Failure>),
    /// ChatGPT answered, with the content of its answer.
    Answer(Result<String, Failure>),
    /// The configuration file was loaded: its ChatGPT key and prompt.
    ConfigLoaded(Result<(String, String), Failure>),
    /// The pool, the client or the conversation was made.
    Ready(Result<(), Failure>),
}

pub open spec fn failure_detail(f: Failure) -> Option<Seq<char>> {
    Some(f.detail@)
}

/// A panic message with the error's `Debug` text after it (`expect` on a `Result`).
pub fn abort_with(message: &str, failure: &Failure) -> (a: Action)
    ensures
        a@ == (ActionView::Abort { message: message@, detail: Some(failure.detail@) }),
{
    Action::Abort { message: message.to_owned(), detail: Some(failure.detail.clone()) }
}

/// A panic message alone (`expect` on an `Option`).
pub fn abort_plain(message: &str) -> (a: Action)
    ensures
        a@ == (ActionView::Abort { message: message@, detail: None }),
{
    Action::Abort { message: message.to_owned(), detail: None }
}

/// The end of a handler that went through.
pub fn finish_ok() -> (a: Action)
    ensures
        a@ == (ActionView::Finish { error: None }),
{
    Action::Finish { error: None }
}

/// The end of a handler that gives back the error of its last outside call.
pub fn finish_err(failure: &Failure) -> (a: Action)
    ensures
        a@ == (ActionView::Finish { error: Some(failure.text@) }),
{
    Action::Finish { error: Some(failure.text.clone()) }
}

/// A command answer.
pub fn reply(content: String, ephemeral: bool) -> (a: Action)
    ensures
        a@ == (ActionView::Reply { content: content@, ephemeral }),
{
    Action::Reply { content, ephemeral }
}

/// A command answer of fixed text.
pub fn reply_text(content: &str, ephemeral: bool) -> (a: Action)
    ensures
        a@ == (ActionView::Reply { content: content@, ephemeral }),
{
    Action::Reply { content: content.to_owned(), ephemeral }
}

/// A printed line.
pub fn print(line: String, stderr: bool) -> (a: Action)
    ensures
        a@ == (ActionView::Print { line: line@, stderr }),
{
    Action::Print { line, stderr }
}

/// `prefix` followed by `rest`.
pub fn joined(prefix: &str, rest: &str) -> (s: String)
    ensures
        s@ == prefix@ + rest@,
{
    let mut s = prefix.to_owned();
    s.append(rest);
    s
}

} // verus!
