use rustylogs::events::guild_create::{guild_create, GuildCreateInput, GuildCreateStage};
use rustylogs::events::guild_delete::{guild_delete, GuildDeleteInput, GuildDeleteStage};
use rustylogs::events::interaction_create::{interaction_create, Component, InteractionInput, InteractionStage};
use rustylogs::events::message::{message, MessageInput, MessageStage};
use rustylogs::events::message_delete::{message_delete, MessageDeleteInput, MessageDeleteStage};
use rustylogs::events::{listen, on_bot_ready, Event, ReadyInput, ReadyStage, Route, Settings};
use rustylogs::handler::{Handler, HandlerMessageInput, HandlerStage};
use rustylogs::ids::db_key;
use rustylogs::protocol::{Action, ButtonStyle, DbRequest, Failure, Outcome};

fn failure(text: &str) -> Failure {
    Failure {
        text: text.to_string(),
        detail: format!("Debug({text})"),
        database_error: false,
        unique_violation: false,
    }
}

fn print_of(action: &Action) -> (String, bool) {
    match action {
        Action::Print { line, stderr } => (line.clone(), *stderr),
        _ => panic!("not a print"),
    }
}

fn new_message(bot: bool) -> MessageInput {
    MessageInput {
        author_is_bot: bot,
        guild: Some(100),
        channel: 200,
        id: u64::MAX,
        content: "v1.2: fixed crash".to_string(),
        sent_at: 1_600_000_000,
        now: 1_700_000_000,
    }
}

#[test]
fn message_from_bot_is_ignored() {
    let (s, a) = message(&new_message(true), MessageStage::Start, Outcome::Begin);
    assert!(matches!(s, MessageStage::Over));
    assert!(matches!(a, Action::Finish { error: None }));
}

#[test]
fn message_is_relayed_and_recorded() {
    let input = new_message(false);
    let (s, a) = message(&input, MessageStage::Start, Outcome::Begin);
    assert!(matches!(
        a,
        Action::Query(DbRequest::InsertGuildIfAbsent { guild: 100, created_at: 1_700_000_000 })
    ));
    let (s, a) = message(&input, s, Outcome::Executed(Ok(())));
    assert!(matches!(a, Action::Query(DbRequest::FindTarget { guild: 100, channel: 200 })));
    let (s, a) = message(&input, s, Outcome::Row(Ok(Some(-2))));
    assert!(matches!(a, Action::FetchChannel { channel } if channel == u64::MAX - 1));
    let (s, a) = message(&input, s, Outcome::ChannelFetched(Ok(true)));
    assert!(matches!(a, Action::LockConversation));
    let (s, a) = message(&input, s, Outcome::Done);
    match a {
        Action::Ask { prompt } => assert_eq!(prompt, "v1.2: fixed crash"),
        _ => panic!("expected the prompt"),
    }
    let (s, a) = message(&input, s, Outcome::Answer(Ok("Crash fixed.".to_string())));
    match a {
        Action::PostMessage { channel, content, button: Some(b) } => {
            assert_eq!(channel, u64::MAX - 1);
            assert_eq!(content, "Crash fixed.");
            assert_eq!(b.custom_id, "send");
            assert_eq!(b.label, "Send");
            assert!(matches!(b.style, ButtonStyle::Danger));
        }
        _ => panic!("expected the post"),
    }
    let (s, a) = message(&input, s, Outcome::Posted(Ok(777)));
    match a {
        Action::Query(DbRequest::InsertMessage { source, guild, reply, created_at }) => {
            assert_eq!((source, guild, reply, created_at), (-1, 100, 777, 1_600_000_000));
        }
        _ => panic!("expected the record"),
    }
    let (s, a) = message(&input, s, Outcome::Executed(Ok(())));
    assert!(matches!(s, MessageStage::Over));
    assert!(matches!(a, Action::Finish { error: None }));
}

#[test]
fn message_in_unwatched_channel_stops_after_lookup() {
    let input = new_message(false);
    let (s, _) = message(&input, MessageStage::Start, Outcome::Begin);
    let (s, _) = message(&input, s, Outcome::Executed(Ok(())));
    let (s, a) = message(&input, s, Outcome::Row(Ok(None)));
    assert!(matches!(s, MessageStage::Over));
    assert!(matches!(a, Action::Finish { error: None }));
}

#[test]
fn message_failures_panic_with_their_messages() {
    let input = new_message(false);
    let mut no_guild = new_message(false);
    no_guild.guild = None;
    let (_, a) = message(&no_guild, MessageStage::Start, Outcome::Begin);
    assert!(matches!(a, Action::Abort { ref message, detail: None } if message == "Failed to fetch guild id"));
    let (s, _) = message(&input, MessageStage::Start, Outcome::Begin);
    let (_, a) = message(&input, s, Outcome::Executed(Err(failure("busy"))));
    match a {
        Action::Abort { message, detail } => {
            assert_eq!(message, "Failed to insert guild");
            assert_eq!(detail.unwrap(), "Debug(busy)");
        }
        _ => panic!("expected an abort"),
    }
    let stage = MessageStage::Answered { guild: 1, target: 2 };
    let (_, a) = message(&input, stage, Outcome::Answer(Err(failure("quota"))));
    assert!(matches!(a, Action::Abort { ref message, .. } if message == "Failed to send message to GPT"));
    let (_, a) = message(&input, MessageStage::Posted { guild: 1 }, Outcome::Posted(Err(failure("403"))));
    assert!(matches!(a, Action::Abort { ref message, .. } if message == "Failed to send message to Discord"));
    let (_, a) = message(&input, MessageStage::Recorded, Outcome::Executed(Err(failure("full"))));
    assert!(matches!(a, Action::Abort { ref message, .. } if message == "Failed to insert message into database"));
}

#[test]
fn message_to_non_guild_target_stops() {
    let input = new_message(false);
    let (s, a) = message(&input, MessageStage::ChannelFetched { guild: 1, target: 2 }, Outcome::ChannelFetched(Ok(false)));
    assert!(matches!(s, MessageStage::Over));
    assert!(matches!(a, Action::Finish { error: None }));
}

#[test]
fn message_delete_removes_answer_in_target_channel() {
    let input = MessageDeleteInput { channel: 42, guild: Some(7), deleted: 1 << 63 };
    let (s, a) = message_delete(&input, MessageDeleteStage::Start, Outcome::Begin);
    assert!(matches!(a, Action::Query(DbRequest::FindReply { source }) if source == i64::MIN));
    let (s, a) = message_delete(&input, s, Outcome::Row(Ok(Some(-10))));
    assert!(matches!(a, Action::Query(DbRequest::FindTarget { guild: 7, channel: 42 })));
    let (s, a) = message_delete(&input, s, Outcome::Row(Ok(Some(99))));
    assert!(matches!(a, Action::FetchChannel { channel: 99 }));
    let (s, a) = message_delete(&input, s, Outcome::ChannelFetched(Ok(true)));
    match a {
        Action::DeleteMessages { channel, messages } => {
            assert_eq!(channel, 99);
            assert_eq!(messages, vec![u64::MAX - 9]);
        }
        _ => panic!("expected the deletion"),
    }
    let (s, a) = message_delete(&input, s, Outcome::Deleted(Ok(())));
    assert!(matches!(a, Action::Query(DbRequest::DeleteMessage { source: -10 })));
    let (s, a) = message_delete(&input, s, Outcome::Executed(Ok(())));
    assert!(matches!(s, MessageDeleteStage::Over));
    assert!(matches!(a, Action::Finish { error: None }));
}

#[test]
fn relayed_answer_is_deleted_where_it_was_posted() {
    let incoming = new_message(false);
    let (s, _) = message(&incoming, MessageStage::Start, Outcome::Begin);
    let (s, _) = message(&incoming, s, Outcome::Executed(Ok(())));
    let (s, _) = message(&incoming, s, Outcome::Row(Ok(Some(31))));
    let (s, _) = message(&incoming, s, Outcome::ChannelFetched(Ok(true)));
    let (s, _) = message(&incoming, s, Outcome::Done);
    let (_, posted) = message(&incoming, s, Outcome::Answer(Ok("a".to_string())));
    let posted_in = match posted {
        Action::PostMessage { channel, .. } => channel,
        _ => panic!("expected the post"),
    };
    let deletion = MessageDeleteInput { channel: incoming.channel, guild: incoming.guild, deleted: incoming.id };
    let (s, _) = message_delete(&deletion, MessageDeleteStage::Start, Outcome::Begin);
    let (s, _) = message_delete(&deletion, s, Outcome::Row(Ok(Some(500))));
    let (s, _) = message_delete(&deletion, s, Outcome::Row(Ok(Some(31))));
    let (_, a) = message_delete(&deletion, s, Outcome::ChannelFetched(Ok(true)));
    assert!(matches!(a, Action::DeleteMessages { channel, ref messages } if channel == posted_in && messages == &vec![500]));
}

#[test]
fn message_delete_without_record_does_nothing() {
    let input = MessageDeleteInput { channel: 42, guild: Some(7), deleted: 5 };
    let (s, _) = message_delete(&input, MessageDeleteStage::Start, Outcome::Begin);
    let (s, a) = message_delete(&input, s, Outcome::Row(Ok(None)));
    assert!(matches!(s, MessageDeleteStage::Over));
    assert!(matches!(a, Action::Finish { error: None }));
}

#[test]
fn message_delete_falls_back_to_own_channel() {
    let outside = MessageDeleteInput { channel: 42, guild: None, deleted: 5 };
    let (s, _) = message_delete(&outside, MessageDeleteStage::Start, Outcome::Begin);
    let (s, a) = message_delete(&outside, s, Outcome::Row(Ok(Some(3))));
    assert!(matches!(a, Action::FetchChannel { channel: 42 }));
    let (_, a) = message_delete(&outside, s, Outcome::ChannelFetched(Ok(true)));
    assert!(matches!(a, Action::DeleteMessages { channel: 42, ref messages } if messages == &vec![3]));
    let input = MessageDeleteInput { channel: 42, guild: Some(7), deleted: 5 };
    let (_, a) = message_delete(&input, MessageDeleteStage::TargetFound { reply: 3 }, Outcome::Row(Ok(None)));
    assert!(matches!(a, Action::FetchChannel { channel: 42 }));
    let (_, a) = message_delete(&input, MessageDeleteStage::TargetFound { reply: 3 }, Outcome::Row(Err(failure("x"))));
    assert!(matches!(a, Action::FetchChannel { channel: 42 }));
}

#[test]
fn message_delete_failure_panics() {
    let input = MessageDeleteInput { channel: 42, guild: Some(7), deleted: 5 };
    let (_, a) = message_delete(&input, MessageDeleteStage::ReplyDeleted { reply: 3 }, Outcome::Deleted(Err(failure("gone"))));
    assert!(matches!(a, Action::Abort { ref message, .. } if message == "Failed to delete message"));
    let (_, a) = message_delete(&input, MessageDeleteStage::ChannelFetched { reply: 3, target: 42 }, Outcome::ChannelFetched(Err(failure("x"))));
    assert!(matches!(a, Action::Abort { ref message, .. } if message == "Failed to fetch channel"));
}

#[test]
fn guild_create_records_new_guild_only() {
    let old = GuildCreateInput { guild: 9, is_new: false, now: 1 };
    let (s, a) = guild_create(&old, GuildCreateStage::Start, Outcome::Begin);
    assert!(matches!(s, GuildCreateStage::Over));
    assert!(matches!(a, Action::Finish { error: None }));
    let fresh = GuildCreateInput { guild: u64::MAX, is_new: true, now: 77 };
    let (s, a) = guild_create(&fresh, GuildCreateStage::Start, Outcome::Begin);
    assert!(matches!(a, Action::Query(DbRequest::InsertGuildIfAbsent { guild: -1, created_at: 77 })));
    let (s2, a) = guild_create(&fresh, s, Outcome::Executed(Ok(())));
    assert_eq!(print_of(&a), ("Successfully inserted guild -1".to_string(), false));
    let (s3, a) = guild_create(&fresh, s2, Outcome::Done);
    assert!(matches!(s3, GuildCreateStage::Over));
    assert!(matches!(a, Action::Finish { error: None }));
    let (_, a) = guild_create(&fresh, s, Outcome::Executed(Err(failure("no table"))));
    assert_eq!(print_of(&a), ("Failed to insert guild: no table".to_string(), false));
}

#[test]
fn guild_delete_prefers_full_guild() {
    let input = GuildDeleteInput { incomplete: 1, full: Some(2) };
    let (s, a) = guild_delete(&input, GuildDeleteStage::Start, Outcome::Begin);
    assert!(matches!(a, Action::Query(DbRequest::DeleteGuild { guild: 2 })));
    let (_, a) = guild_delete(&input, s, Outcome::Executed(Ok(())));
    assert_eq!(print_of(&a), ("Successfully deleted guild 2".to_string(), false));
    let only = GuildDeleteInput { incomplete: 3, full: None };
    let (s, a) = guild_delete(&only, GuildDeleteStage::Start, Outcome::Begin);
    assert!(matches!(a, Action::Query(DbRequest::DeleteGuild { guild: 3 })));
    let (s, a) = guild_delete(&only, s, Outcome::Executed(Err(failure("locked"))));
    assert_eq!(print_of(&a), ("Failed to delete guild 3: locked".to_string(), true));
    let (_, a) = guild_delete(&only, s, Outcome::Done);
    assert!(matches!(a, Action::Finish { error: None }));
}

fn press(custom_id: &str) -> InteractionInput {
    InteractionInput {
        component: Some(Component { custom_id: custom_id.to_string(), channel: 5, message: 6 }),
    }
}

#[test]
fn adjust_button_rewrites_message() {
    let input = press("adjust");
    let (s, a) = interaction_create(&input, InteractionStage::Start, Outcome::Begin);
    assert!(matches!(a, Action::FetchMessage { channel: 5, message: 6 }));
    let (s, a) = interaction_create(&input, s, Outcome::MessageFetched(Ok("draft".to_string())));
    assert!(matches!(a, Action::LockConversation));
    let (s, a) = interaction_create(&input, s, Outcome::Done);
    assert!(matches!(a, Action::AcknowledgeComponent));
    let (s, a) = interaction_create(&input, s, Outcome::Done);
    assert!(matches!(a, Action::Ask { ref prompt } if prompt == "draft"));
    let (s, a) = interaction_create(&input, s, Outcome::Answer(Ok("better".to_string())));
    assert!(matches!(a, Action::EditMessage { channel: 5, message: 6, ref content } if content == "better"));
    let (s, a) = interaction_create(&input, s, Outcome::Edited(Ok(())));
    assert!(matches!(s, InteractionStage::Over));
    assert!(matches!(a, Action::Finish { error: None }));
}

#[test]
fn send_button_is_only_acknowledged() {
    let input = press("send");
    let (s, a) = interaction_create(&input, InteractionStage::Start, Outcome::Begin);
    assert!(matches!(a, Action::AcknowledgeComponent));
    let (s, a) = interaction_create(&input, s, Outcome::Done);
    assert!(matches!(s, InteractionStage::Over));
    assert!(matches!(a, Action::Finish { error: None }));
}

#[test]
fn other_interactions_are_ignored() {
    let (_, a) = interaction_create(&press("other"), InteractionStage::Start, Outcome::Begin);
    assert!(matches!(a, Action::Finish { error: None }));
    let (_, a) = interaction_create(&InteractionInput { component: None }, InteractionStage::Start, Outcome::Begin);
    assert!(matches!(a, Action::Finish { error: None }));
}

#[test]
fn fetch_failure_of_pressed_message_is_returned() {
    let input = press("adjust");
    let (s, _) = interaction_create(&input, InteractionStage::Start, Outcome::Begin);
    let (_, a) = interaction_create(&input, s, Outcome::MessageFetched(Err(failure("Unknown Message"))));
    assert!(matches!(a, Action::Finish { error: Some(ref e) } if e == "Unknown Message"));
}

#[test]
fn events_are_routed_to_their_handlers() {
    assert!(matches!(listen(&Event::Message(new_message(false))), Route::Message));
    assert!(matches!(
        listen(&Event::MessageDelete(MessageDeleteInput { channel: 1, guild: None, deleted: 2 })),
        Route::MessageDelete
    ));
    assert!(matches!(
        listen(&Event::GuildCreate(GuildCreateInput { guild: 1, is_new: true, now: 0 })),
        Route::GuildCreate
    ));
    assert!(matches!(
        listen(&Event::GuildDelete(GuildDeleteInput { incomplete: 1, full: None })),
        Route::GuildDelete
    ));
    assert!(matches!(listen(&Event::InteractionCreate(press("send"))), Route::InteractionCreate));
    assert!(matches!(listen(&Event::Other), Route::Ignore));
}

#[test]
fn start_up_runs_in_order() {
    let input = ReadyInput { user_name: "rustylogs".to_string(), discriminator: 42 };
    let (s, a) = on_bot_ready(&input, ReadyStage::Start, Outcome::Begin);
    assert!(matches!(a, Action::LoadConfig));
    let (s, a) = on_bot_ready(&input, s, Outcome::ConfigLoaded(Ok(("sk-1".to_string(), "Be brief".to_string()))));
    assert_eq!(print_of(&a), ("Logged in as rustylogs#42".to_string(), false));
    let (s, a) = on_bot_ready(&input, s, Outcome::Done);
    assert!(matches!(a, Action::RegisterCommands));
    let (s, a) = on_bot_ready(&input, s, Outcome::Sent(Ok(())));
    match &a {
        Action::ConnectDatabase { file, max_connections, create_if_missing, foreign_keys } => {
            assert_eq!(file, "database.sqlite");
            assert_eq!(*max_connections, 5);
            assert!(*create_if_missing && *foreign_keys);
        }
        _ => panic!("expected the connection"),
    }
    let (s, a) = on_bot_ready(&input, s, Outcome::Ready(Ok(())));
    assert!(matches!(a, Action::RunMigrations { ref dir } if dir == "./migrations"));
    let migrated = ReadyStage::Migrated {
        settings: Settings { api_key: "sk-2".to_string(), prompt: "p".to_string() },
    };
    let (s2, a) = on_bot_ready(&input, migrated, Outcome::Executed(Err(failure("bad"))));
    assert_eq!(print_of(&a), ("Couldn't run database migrations: Debug(bad)".to_string(), false));
    let (s2, a2) = on_bot_ready(&input, s2, Outcome::Done);
    assert!(matches!(a2, Action::CreateGptClient { ref api_key, timeout_secs: 360 } if api_key == "sk-2"));
    let (s, a) = on_bot_ready(&input, s, Outcome::Executed(Ok(())));
    assert!(matches!(a, Action::CreateGptClient { ref api_key, timeout_secs: 360 } if api_key == "sk-1"));
    let (s, a) = on_bot_ready(&input, s, Outcome::Ready(Ok(())));
    assert!(matches!(a, Action::StartConversation { ref direction } if direction == "Be brief"));
    let (s, a) = on_bot_ready(&input, s, Outcome::Ready(Ok(())));
    assert!(matches!(s, ReadyStage::Over));
    assert!(matches!(a, Action::Finish { error: None }));
    let (_, a) = on_bot_ready(&input, s2, Outcome::Ready(Err(failure("no key"))));
    assert!(matches!(a, Action::Abort { ref message, .. } if message == "Failed to create ChatGPT client"));
}

#[test]
fn start_up_stops_on_missing_configuration() {
    let input = ReadyInput { user_name: "x".to_string(), discriminator: 0 };
    let (s, _) = on_bot_ready(&input, ReadyStage::Start, Outcome::Begin);
    let (s, a) = on_bot_ready(&input, s, Outcome::ConfigLoaded(Err(failure("parse"))));
    assert!(matches!(s, ReadyStage::Over));
    assert!(matches!(a, Action::Abort { ref message, .. } if message == "Failed to load configuration file"));
}

#[test]
fn handler_relays_through_cache() {
    let handler = Handler;
    let input = HandlerMessageInput { author_is_bot: false, guild: Some(1), channel: 2, content: "hi".to_string() };
    let (s, a) = handler.message(&input, HandlerStage::Start, Outcome::Begin);
    assert!(matches!(a, Action::Query(DbRequest::FetchTarget { guild: 1, channel: 2 })));
    let (s, a) = handler.message(&input, s, Outcome::Row(Ok(Some(3))));
    assert!(matches!(a, Action::LookupCachedChannel { channel: 3 }));
    let (s, a) = handler.message(&input, s, Outcome::CachedChannel(Some(true)));
    assert!(matches!(a, Action::LockConversation));
    let (s, a) = handler.message(&input, s, Outcome::Done);
    assert!(matches!(a, Action::Ask { ref prompt } if prompt == "hi"));
    let (s, a) = handler.message(&input, s, Outcome::Answer(Ok("hello".to_string())));
    assert!(matches!(a, Action::PostMessage { channel: 3, ref content, button: None } if content == "hello"));
    let (s, a) = handler.message(&input, s, Outcome::Posted(Ok(9)));
    assert_eq!(print_of(&a), ("Successfully sent message".to_string(), false));
    let (s, a) = handler.message(&input, s, Outcome::Done);
    assert!(matches!(s, HandlerStage::Over));
    assert!(matches!(a, Action::Finish { error: None }));
}

#[test]
fn handler_reports_instead_of_panicking() {
    let handler = Handler;
    let input = HandlerMessageInput { author_is_bot: false, guild: None, channel: 2, content: String::new() };
    let (_, a) = handler.message(&input, HandlerStage::Start, Outcome::Begin);
    assert_eq!(print_of(&a), ("Command has not been executed in a guild".to_string(), false));
    let input = HandlerMessageInput { author_is_bot: false, guild: Some(1), channel: 2, content: String::new() };
    let (_, a) = handler.message(&input, HandlerStage::TargetFetched, Outcome::Row(Err(failure("RowNotFound"))));
    assert_eq!(print_of(&a), ("No channel found: Debug(RowNotFound)".to_string(), true));
    let (_, a) = handler.message(&input, HandlerStage::CacheSearched { target: 3 }, Outcome::CachedChannel(None));
    assert_eq!(print_of(&a), ("Channel not found in cache".to_string(), true));
    let (_, a) = handler.message(&input, HandlerStage::CacheSearched { target: 3 }, Outcome::CachedChannel(Some(false)));
    assert_eq!(print_of(&a), ("2 is not a guild channel".to_string(), false));
    let bot = HandlerMessageInput { author_is_bot: true, guild: Some(1), channel: 2, content: String::new() };
    let (s, _) = handler.message(&bot, HandlerStage::Start, Outcome::Begin);
    assert!(matches!(s, HandlerStage::Over));
    assert_eq!(print_of(&handler.ready(&"Rusty".to_string())), ("Rusty is connected!".to_string(), false));
}

#[test]
fn db_key_of_message_source_matches_record() {
    assert_eq!(db_key(u64::MAX), -1);
}
