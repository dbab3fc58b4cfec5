//! Handlers of the gateway events the bot listens to, the dispatch among them, and the
//! start-up run once the bot is connected.

pub mod guild_create;
pub mod guild_delete;
pub mod interaction_create;
pub mod message;
pub mod message_delete;

use vstd::prelude::*;
use crate::protocol::{abort_with, finish_err, finish_ok, joined, print, Action, ActionView, Outcome};
use crate::text::{decimal_text, decimal_unsigned};
use self::guild_create::GuildCreateInput;
use self::guild_delete::GuildDeleteInput;
use self::interaction_create::InteractionInput;
use self::message::MessageInput;
use self::message_delete::MessageDeleteInput;
use crate::commands::listen::{listen_next, ListenInput, ListenStage};
use crate::commands::stop::{stop_next, StopInput, StopStage};
use crate::ids::{stored_id, stored_id_of_stored_key, stored_key};
use crate::protocol::DbRequest;
use self::message::{message_next, MessageStage};
use self::message_delete::{message_delete_next, MessageDeleteStage};

verus! {

/// A gateway event, with what its handler reads of it.
pub enum Event {
    Message(MessageInput),
    MessageDelete(MessageDeleteInput),
    GuildCreate(GuildCreateInput),
    GuildDelete(GuildDeleteInput),
    InteractionCreate(InteractionInput),
    /// Any other event.
    Other,
}

/// The handler an event goes to.
#[derive(Clone, Copy)]
pub enum Route {
    Message,
    MessageDelete,
    GuildCreate,
    GuildDelete,
    InteractionCreate,
    /// The event is ignored: the listener returns at once with no error.
    Ignore,
}

/// The handler of each kind of event.
pub open spec fn route_of(event: Event) -> Route {
    match event {
        Event::Message(_) => Route::Message,
        Event::MessageDelete(_) => Route::MessageDelete,
        Event::GuildCreate(_) => Route::GuildCreate,
        Event::GuildDelete(_) => Route::GuildDelete,
        Event::InteractionCreate(_) => Route::InteractionCreate,
        Event::Other => Route::Ignore,
    }
}

/// The event listener: picks the handler of `event`.
pub fn listen(event: &Event) -> (route: Route)
    ensures
        route == route_of(*event),
{
    match event {
        Event::Message(_) => Route::Message,
        Event::MessageDelete(_) => Route::MessageDelete,
        Event::GuildCreate(_) => Route::GuildCreate,
        Event::GuildDelete(_) => Route::GuildDelete,
        Event::InteractionCreate(_) => Route::InteractionCreate,
        Event::Other => Route::Ignore,
    }
}

/// The user the bot is logged in as.
pub struct ReadyInput {
    pub user_name: String,
    pub discriminator: u16,
}

/// The ChatGPT key and prompt of the loaded configuration.
pub struct Settings {
    pub api_key: String,
    pub prompt: String,
}

/// Where the start-up run stands: the action whose outcome it awaits, and the settings
/// once they are loaded.
pub enum ReadyStage {
    Start,
    ConfigLoaded,
    LoggedIn { settings: Settings },
    CommandsRegistered { settings: Settings },
    DatabaseConnected { settings: Settings },
    Migrated { settings: Settings },
    MigrationReported { settings: Settings },
    ClientCreated { prompt: String },
    ConversationStarted,
    Over,
}

/// `ReadyStage` with its texts as sequences of characters: the key, then the prompt.
pub enum ReadyStageView {
    Start,
    ConfigLoaded,
    LoggedIn { key: Seq<char>, prompt: Seq<char> },
    CommandsRegistered { key: Seq<char>, prompt: Seq<char> },
    DatabaseConnected { key: Seq<char>, prompt: Seq<char> },
    Migrated { key: Seq<char>, prompt: Seq<char> },
    MigrationReported { key: Seq<char>, prompt: Seq<char> },
    ClientCreated { prompt: Seq<char> },
    ConversationStarted,
    Over,
}

impl View for ReadyStage {
    type V = ReadyStageView;

    open spec fn view(&self) -> ReadyStageView {
        match self {
            ReadyStage::Start => ReadyStageView::Start,
            ReadyStage::ConfigLoaded => ReadyStageView::ConfigLoaded,
            ReadyStage::LoggedIn { settings: s } => ReadyStageView::LoggedIn {
                key: s.api_key@,
                prompt: s.prompt@,
            },
            ReadyStage::CommandsRegistered { settings: s } => ReadyStageView::CommandsRegistered {
                key: s.api_key@,
                prompt: s.prompt@,
            },
            ReadyStage::DatabaseConnected { settings: s } => ReadyStageView::DatabaseConnected {
                key: s.api_key@,
                prompt: s.prompt@,
            },
            ReadyStage::Migrated { settings: s } => ReadyStageView::Migrated {
                key: s.api_key@,
                prompt: s.prompt@,
            },
            ReadyStage::MigrationReported { settings: s } => ReadyStageView::MigrationReported {
                key: s.api_key@,
                prompt: s.prompt@,
            },
            ReadyStage::ClientCreated { prompt } => ReadyStageView::ClientCreated { prompt: prompt@ },
            ReadyStage::ConversationStarted => ReadyStageView::ConversationStarted,
            ReadyStage::Over => ReadyStageView::Over,
        }
    }
}

pub open spec fn ready_rank(stage: ReadyStageView) -> nat {
    match stage {
        ReadyStageView::Start => 9,
        ReadyStageView::ConfigLoaded => 8,
        ReadyStageView::LoggedIn { .. } => 7,
        ReadyStageView::CommandsRegistered { .. } => 6,
        ReadyStageView::DatabaseConnected { .. } => 5,
        ReadyStageView::Migrated { .. } => 4,
        ReadyStageView::MigrationReported { .. } => 3,
        ReadyStageView::ClientCreated { .. } => 2,
        ReadyStageView::ConversationStarted => 1,
        ReadyStageView::Over => 0,
    }
}

pub open spec fn ready_awaits(stage: ReadyStageView, outcome: Outcome) -> bool {
    match stage {
        ReadyStageView::Start => outcome is Begin,
        ReadyStageView::ConfigLoaded => outcome is ConfigLoaded,
        ReadyStageView::LoggedIn { .. } => outcome is Done,
        ReadyStageView::CommandsRegistered { .. } => outcome is Sent,
        ReadyStageView::DatabaseConnected { .. } => outcome is Ready,
        ReadyStageView::Migrated { .. } => outcome is Executed,
        ReadyStageView::MigrationReported { .. } => outcome is Done,
        ReadyStageView::ClientCreated { .. } => outcome is Ready,
        ReadyStageView::ConversationStarted => outcome is Ready,
        ReadyStageView::Over => false,
    }
}

/// The line printed once the configuration is loaded.
pub open spec fn logged_in_line(input: ReadyInput) -> Seq<char> {
    "Logged in as "@ + input.user_name@ + "#"@ + decimal_text(input.discriminator as int)
}

/// One step of the start-up run.
pub open spec fn ready_next(input: ReadyInput, stage: ReadyStageView, outcome: Outcome) -> (
    ReadyStageView,
    ActionView,
) {
    let over = ReadyStageView::Over;
    match stage {
        ReadyStageView::Start => (ReadyStageView::ConfigLoaded, ActionView::LoadConfig),
        ReadyStageView::ConfigLoaded => match outcome {
            Outcome::ConfigLoaded(Ok((key, prompt))) => (
                ReadyStageView::LoggedIn { key: key@, prompt: prompt@ },
                ActionView::Print { line: logged_in_line(input), stderr: false },
            ),
            Outcome::ConfigLoaded(Err(f)) => (
                over,
                ActionView::Abort {
                    message: "Failed to load configuration file"@,
                    detail: Some(f.detail@),
                },
            ),
            _ => (over, ActionView::Finish { error: None }),
        },
        ReadyStageView::LoggedIn { key, prompt } => (
            ReadyStageView::CommandsRegistered { key, prompt },
            ActionView::RegisterCommands,
        ),
        ReadyStageView::CommandsRegistered { key, prompt } => match outcome {
            Outcome::Sent(Err(f)) => (over, ActionView::Finish { error: Some(f.text@) }),
            _ => (
                ReadyStageView::DatabaseConnected { key, prompt },
                ActionView::ConnectDatabase {
                    file: "database.sqlite"@,
                    max_connections: 5,
                    create_if_missing: true,
                    foreign_keys: true,
                },
            ),
        },
        ReadyStageView::DatabaseConnected { key, prompt } => match outcome {
            Outcome::Ready(Err(f)) => (
                over,
                ActionView::Abort {
                    message: "Couldn't connect to the database"@,
                    detail: Some(f.detail@),
                },
            ),
            _ => (ReadyStageView::Migrated { key, prompt }, ActionView::RunMigrations { dir: "./migrations"@ }),
        },
        ReadyStageView::Migrated { key, prompt } => match outcome {
            Outcome::Executed(Err(f)) => (
                ReadyStageView::MigrationReported { key, prompt },
                ActionView::Print { line: "Couldn't run database migrations: "@ + f.detail@, stderr: false },
            ),
            _ => (
                ReadyStageView::ClientCreated { prompt },
                ActionView::CreateGptClient { api_key: key, timeout_secs: 360 },
            ),
        },
        ReadyStageView::MigrationReported { key, prompt } => (
            ReadyStageView::ClientCreated { prompt },
            ActionView::CreateGptClient { api_key: key, timeout_secs: 360 },
        ),
        ReadyStageView::ClientCreated { prompt } => match outcome {
            Outcome::Ready(Err(f)) => (
                over,
                ActionView::Abort {
                    message: "Failed to create ChatGPT client"@,
                    detail: Some(f.detail@),
                },
            ),
            _ => (ReadyStageView::ConversationStarted, ActionView::StartConversation { direction: prompt }),
        },
        _ => (over, ActionView::Finish { error: None }),
    }
}

fn create_client(api_key: String) -> (a: Action)
    ensures
        a@ == (ActionView::CreateGptClient { api_key: api_key@, timeout_secs: 360 }),
{
    Action::CreateGptClient { api_key, timeout_secs: 360 }
}

/// The start-up run once the bot is connected: loads the configuration, registers the
/// commands, opens and migrates the database, and starts the ChatGPT conversation.
/// `stage` is where the run stands and `outcome` what the action it asked for last gave
/// back (`Begin` on the first call, with stage `Start`).
pub fn on_bot_ready(input: &ReadyInput, stage: ReadyStage, outcome: Outcome) -> (res: (
    ReadyStage,
    Action,
))
    requires
        ready_awaits(stage@, outcome),
    ensures
        (res.0@, res.1@) == ready_next(*input, stage@, outcome),
        res.1@.ends() <==> res.0 is Over,
        ready_rank(res.0@) < ready_rank(stage@),
{
    match stage {
        ReadyStage::Start => (ReadyStage::ConfigLoaded, Action::LoadConfig),
        ReadyStage::ConfigLoaded => match outcome {
            Outcome::ConfigLoaded(Ok((api_key, prompt))) => {
                let mut line = joined("Logged in as ", input.user_name.as_str());
                line.append("#");
                line.append(decimal_unsigned(input.discriminator as u64).as_str());
                proof {
                    reveal_strlit("#");
                }
                (ReadyStage::LoggedIn { settings: Settings { api_key, prompt } }, print(line, false))
            },
            Outcome::ConfigLoaded(Err(f)) => (
                ReadyStage::Over,
                abort_with("Failed to load configuration file", &f),
            ),
            _ => (ReadyStage::Over, finish_ok()),
        },
        ReadyStage::LoggedIn { settings } => (
            ReadyStage::CommandsRegistered { settings },
            Action::RegisterCommands,
        ),
        ReadyStage::CommandsRegistered { settings } => match outcome {
            Outcome::Sent(Err(f)) => (ReadyStage::Over, finish_err(&f)),
            _ => (
                ReadyStage::DatabaseConnected { settings },
                Action::ConnectDatabase {
                    file: String::from_str("database.sqlite"),
                    max_connections: 5,
                    create_if_missing: true,
                    foreign_keys: true,
                },
            ),
        },
        ReadyStage::DatabaseConnected { settings } => match outcome {
            Outcome::Ready(Err(f)) => (
                ReadyStage::Over,
                abort_with("Couldn't connect to the database", &f),
            ),
            _ => (
                ReadyStage::Migrated { settings },
                Action::RunMigrations { dir: String::from_str("./migrations") },
            ),
        },
        ReadyStage::Migrated { settings } => match outcome {
            Outcome::Executed(Err(f)) => (
                ReadyStage::MigrationReported { settings },
                print(joined("Couldn't run database migrations: ", f.detail.as_str()), false),
            ),
            _ => (
                ReadyStage::ClientCreated { prompt: settings.prompt },
                create_client(settings.api_key),
            ),
        },
        ReadyStage::MigrationReported { settings } => (
            ReadyStage::ClientCreated { prompt: settings.prompt },
            create_client(settings.api_key),
        ),
        ReadyStage::ClientCreated { prompt } => match outcome {
            Outcome::Ready(Err(f)) => (
                ReadyStage::Over,
                abort_with("Failed to create ChatGPT client", &f),
            ),
            _ => (ReadyStage::ConversationStarted, Action::StartConversation { direction: prompt }),
        },
        _ => (ReadyStage::Over, finish_ok()),
    }
}

/// What `/listen` records is what the other handlers look for: `/stop` looks the channel up
/// by the keys `/listen` wrote, a message of the channel has its target looked up by them,
/// and when the lookup gives back the target's key written by `/listen`, the channel fetched
/// for the answer is the target that `/listen` was given.
pub proof fn listened_channel_is_relayed_to_its_target(
    registration: ListenInput,
    removal: StopInput,
    incoming: MessageInput,
    guild: u64,
)
    requires
        registration.guild == Some(guild),
        removal.guild == Some(guild),
        incoming.guild == Some(guild),
        removal.channel == registration.channel,
        incoming.channel == registration.channel,
        !incoming.author_is_bot,
    ensures
        ({
            let g = stored_key(guild) as i64;
            let c = stored_key(registration.channel) as i64;
            let t = stored_key(registration.target) as i64;
            let registered = listen_next(registration, ListenStage::Start, Outcome::Begin);
            let looked_up = stop_next(removal, StopStage::Start, Outcome::Begin);
            let m1 = message_next(incoming, MessageStage::Start, Outcome::Begin);
            let m2 = message_next(incoming, m1.0, Outcome::Executed(Ok(())));
            let m3 = message_next(incoming, m2.0, Outcome::Row(Ok(Some(t))));
            &&& registered.1 == ActionView::Query(
                DbRequest::InsertChannel { channel: c, guild: g, target: t, created_at: registration.now },
            )
            &&& looked_up.1 == ActionView::Query(DbRequest::FindChannel { channel: c, guild: g })
            &&& m2.1 == ActionView::Query(DbRequest::FindTarget { guild: g, channel: c })
            &&& m3.1 == ActionView::FetchChannel { channel: registration.target }
        }),
{
    stored_id_of_stored_key(registration.target);
}

/// The answer posted for a message is the one deleted with it, in the channel it was
/// posted in: the message handler records the pair under the message's key and posts in
/// the target looked up by the guild's and the channel's keys; the deletion handler looks up
/// the pair by the same message key and the target by the same keys, and given back the
/// recorded answer's key and the same target row, it deletes that answer in the channel the
/// message handler posted it in.
pub proof fn deleting_a_relayed_message_deletes_its_answer(
    incoming: MessageInput,
    deletion: MessageDeleteInput,
    guild: u64,
    target_key: i64,
    answer: String,
    reply: u64,
)
    requires
        !incoming.author_is_bot,
        incoming.guild == Some(guild),
        deletion.guild == Some(guild),
        deletion.channel == incoming.channel,
        deletion.deleted == incoming.id,
    ensures
        ({
            let g = stored_key(guild) as i64;
            let c = stored_key(incoming.channel) as i64;
            let source = stored_key(incoming.id) as i64;
            let r = stored_key(reply) as i64;
            let m1 = message_next(incoming, MessageStage::Start, Outcome::Begin);
            let m2 = message_next(incoming, m1.0, Outcome::Executed(Ok(())));
            let m3 = message_next(incoming, m2.0, Outcome::Row(Ok(Some(target_key))));
            let m4 = message_next(incoming, m3.0, Outcome::ChannelFetched(Ok(true)));
            let m5 = message_next(incoming, m4.0, Outcome::Done);
            let m6 = message_next(incoming, m5.0, Outcome::Answer(Ok(answer)));
            let m7 = message_next(incoming, m6.0, Outcome::Posted(Ok(reply)));
            let d1 = message_delete_next(deletion, MessageDeleteStage::Start, Outcome::Begin);
            let d2 = message_delete_next(deletion, d1.0, Outcome::Row(Ok(Some(r))));
            let d3 = message_delete_next(deletion, d2.0, Outcome::Row(Ok(Some(target_key))));
            let d4 = message_delete_next(deletion, d3.0, Outcome::ChannelFetched(Ok(true)));
            &&& m2.1 == ActionView::Query(DbRequest::FindTarget { guild: g, channel: c })
            &&& m6.1 is PostMessage
            &&& m7.1 == ActionView::Query(
                DbRequest::InsertMessage { source, guild: g, reply: r, created_at: incoming.sent_at },
            )
            &&& d1.1 == ActionView::Query(DbRequest::FindReply { source })
            &&& d2.1 == ActionView::Query(DbRequest::FindTarget { guild: g, channel: c })
            &&& m6.1->PostMessage_channel == stored_id(target_key)
            &&& d4.1 == ActionView::DeleteMessages {
                channel: m6.1->PostMessage_channel,
                messages: seq![reply],
            }
        }),
{
    stored_id_of_stored_key(reply);
}

} // verus!
