use rustylogs::commands::adjust::{adjust, AdjustInput, AdjustStage};
use rustylogs::commands::list::{list, list_lines, listing_line_text, ListInput, ListStage};
use rustylogs::commands::listen::{listen, ListenInput, ListenStage};
use rustylogs::commands::stop::{stop, StopInput, StopStage};
use rustylogs::ids::db_key;
use rustylogs::protocol::{Action, ChannelRow, DbRequest, Failure, Outcome};

fn failure(text: &str, database_error: bool, unique_violation: bool) -> Failure {
    Failure {
        text: text.to_string(),
        detail: format!("Debug({text})"),
        database_error,
        unique_violation,
    }
}

fn reply_of(action: &Action) -> (String, bool) {
    match action {
        Action::Reply { content, ephemeral } => (content.clone(), *ephemeral),
        _ => panic!("not a reply"),
    }
}

#[test]
fn adjust_sends_prompt_with_confirmation_line() {
    let input = AdjustInput { content: "Summarize patch notes".to_string() };
    let (s, a) = adjust(&input, AdjustStage::Start, Outcome::Begin);
    assert!(matches!(a, Action::LockConversation));
    let (s, a) = adjust(&input, s, Outcome::Done);
    assert!(matches!(a, Action::DeferEphemeral));
    let (s, a) = adjust(&input, s, Outcome::Sent(Ok(())));
    match a {
        Action::Ask { prompt } => assert_eq!(
            prompt,
            "Summarize patch notes\nConfirm the prompt and wait for other messages to be generated."
        ),
        _ => panic!("expected a prompt"),
    }
    let (s, a) = adjust(&input, s, Outcome::Answer(Ok("OK".to_string())));
    assert_eq!(reply_of(&a), ("Prompt adjusted successfully.".to_string(), false));
    let (s, a) = adjust(&input, s, Outcome::Sent(Ok(())));
    assert!(matches!(s, AdjustStage::Over));
    assert!(matches!(a, Action::Finish { error: None }));
}

#[test]
fn adjust_reports_refusal_then_success() {
    let input = AdjustInput { content: "p".to_string() };
    let (s, _) = adjust(&input, AdjustStage::Start, Outcome::Begin);
    let (s, _) = adjust(&input, s, Outcome::Done);
    let (s, _) = adjust(&input, s, Outcome::Sent(Ok(())));
    let (s, a) = adjust(&input, s, Outcome::Answer(Err(failure("rate limited", false, false))));
    assert_eq!(reply_of(&a), ("Failed to adjust the prompt: rate limited".to_string(), false));
    let (s, a) = adjust(&input, s, Outcome::Sent(Ok(())));
    assert_eq!(reply_of(&a), ("Prompt adjusted successfully.".to_string(), false));
    let (_, a) = adjust(&input, s, Outcome::Sent(Ok(())));
    assert!(matches!(a, Action::Finish { error: None }));
}

#[test]
fn adjust_stops_when_deferral_fails() {
    let input = AdjustInput { content: "p".to_string() };
    let (s, _) = adjust(&input, AdjustStage::Start, Outcome::Begin);
    let (s, _) = adjust(&input, s, Outcome::Done);
    let (s, a) = adjust(&input, s, Outcome::Sent(Err(failure("gone", false, false))));
    assert!(matches!(s, AdjustStage::Over));
    match a {
        Action::Finish { error: Some(e) } => assert_eq!(e, "gone"),
        _ => panic!("expected an error"),
    }
}

#[test]
fn list_lines_formats_each_row() {
    let rows = vec![
        ChannelRow { channel: 11, target: 22, created_at: 0 },
        ChannelRow { channel: 33, target: 44, created_at: 1700000000 },
    ];
    assert_eq!(
        list_lines(&rows).unwrap(),
        "<#11> -> <#22> (since 1970-01-01 00:00:00)\n<#33> -> <#44> (since 2023-11-14 22:13:20)\n"
    );
}

#[test]
fn list_lines_has_no_text_for_out_of_range_timestamp() {
    let rows = vec![
        ChannelRow { channel: 1, target: 2, created_at: 0 },
        ChannelRow { channel: 3, target: 4, created_at: i64::MAX },
    ];
    assert!(list_lines(&rows).is_none());
    assert_eq!(list_lines(&Vec::new()).unwrap(), "");
}

#[test]
fn list_runs_the_listing_query_for_the_guild() {
    let input = ListInput { guild: Some(555) };
    let (s, a) = list(&input, ListStage::Start, Outcome::Begin);
    assert!(matches!(a, Action::Query(DbRequest::ListChannels { guild: 555 })));
    let rows = vec![ChannelRow { channel: -5, target: 9, created_at: 86400 }];
    let (s, a) = list(&input, s, Outcome::Rows(Ok(rows)));
    assert_eq!(reply_of(&a), ("<#-5> -> <#9> (since 1970-01-02 00:00:00)\n".to_string(), true));
    let (s, a) = list(&input, s, Outcome::Sent(Ok(())));
    assert!(matches!(s, ListStage::Over));
    assert!(matches!(a, Action::Finish { error: None }));
}

#[test]
fn list_with_no_rows_says_so() {
    let input = ListInput { guild: Some(1) };
    let (s, _) = list(&input, ListStage::Start, Outcome::Begin);
    let (_, a) = list(&input, s, Outcome::Rows(Ok(Vec::new())));
    assert_eq!(reply_of(&a), ("There are no channels being monitored.".to_string(), true));
}

#[test]
fn list_reports_query_failure() {
    let input = ListInput { guild: Some(1) };
    let (s, _) = list(&input, ListStage::Start, Outcome::Begin);
    let (_, a) = list(&input, s, Outcome::Rows(Err(failure("disk I/O error", true, false))));
    assert_eq!(reply_of(&a), ("Failed to fetch channels: disk I/O error".to_string(), true));
}

#[test]
fn list_panics_on_undated_row() {
    let input = ListInput { guild: Some(1) };
    let (s, _) = list(&input, ListStage::Start, Outcome::Begin);
    let rows = vec![ChannelRow { channel: 1, target: 2, created_at: i64::MIN }];
    let (s, a) = list(&input, s, Outcome::Rows(Ok(rows)));
    assert!(matches!(s, ListStage::Over));
    match a {
        Action::Abort { message, detail: None } => {
            assert_eq!(message, "called `Option::unwrap()` on a `None` value")
        }
        _ => panic!("expected an abort"),
    }
}

#[test]
fn list_without_guild_panics() {
    let (_, a) = list(&ListInput { guild: None }, ListStage::Start, Outcome::Begin);
    assert!(matches!(a, Action::Abort { .. }));
}

#[test]
fn listen_inserts_channel_with_keys() {
    let big: u64 = (1 << 63) + 7;
    let input = ListenInput { guild: Some(10), channel: big, target: 30, now: 1234 };
    let (s, a) = listen(&input, ListenStage::Start, Outcome::Begin);
    match a {
        Action::Query(DbRequest::InsertChannel { channel, guild, target, created_at }) => {
            assert_eq!((channel, guild, target, created_at), (db_key(big), 10, 30, 1234));
            assert!(channel < 0);
        }
        _ => panic!("expected the insert"),
    }
    let (s, a) = listen(&input, s, Outcome::Executed(Ok(())));
    assert_eq!(reply_of(&a), ("This channel is now being monitored.".to_string(), true));
    let (s, a) = listen(&input, s, Outcome::Sent(Ok(())));
    assert!(matches!(s, ListenStage::Over));
    assert!(matches!(a, Action::Finish { error: None }));
}

#[test]
fn listen_answers_each_kind_of_failure() {
    let input = ListenInput { guild: Some(1), channel: 2, target: 3, now: 0 };
    let (s, _) = listen(&input, ListenStage::Start, Outcome::Begin);
    let (_, a) = listen(&input, s, Outcome::Executed(Err(failure("UNIQUE", true, true))));
    assert_eq!(reply_of(&a), ("This channel is already being monitored.".to_string(), true));
    let (s2, a) = listen(&input, s, Outcome::Executed(Err(failure("FOREIGN KEY", true, false))));
    assert!(matches!(s2, ListenStage::Over));
    assert!(matches!(a, Action::Finish { error: None }));
    let (_, a) = listen(&input, s, Outcome::Executed(Err(failure("pool timed out", false, false))));
    assert_eq!(
        reply_of(&a),
        ("Failed to start monitoring this channel: pool timed out".to_string(), true)
    );
}

#[test]
fn stop_deletes_a_watched_channel() {
    let input = StopInput { guild: Some(8), channel: 9 };
    let (s, a) = stop(&input, StopStage::Start, Outcome::Begin);
    assert!(matches!(a, Action::Query(DbRequest::FindChannel { channel: 9, guild: 8 })));
    let (s, a) = stop(&input, s, Outcome::Row(Ok(Some(9))));
    assert!(matches!(a, Action::Query(DbRequest::DeleteChannel { channel: 9, guild: 8 })));
    let (s, a) = stop(&input, s, Outcome::Executed(Ok(())));
    assert_eq!(reply_of(&a), ("This channel is no longer being monitored.".to_string(), true));
    let (_, a) = stop(&input, s, Outcome::Sent(Ok(())));
    assert!(matches!(a, Action::Finish { error: None }));
}

#[test]
fn stop_answers_unwatched_and_failed() {
    let input = StopInput { guild: Some(8), channel: 9 };
    let (s, _) = stop(&input, StopStage::Start, Outcome::Begin);
    let (_, a) = stop(&input, s, Outcome::Row(Ok(None)));
    assert_eq!(reply_of(&a), ("This channel is not being monitored.".to_string(), true));
    let (s2, _) = stop(&input, s, Outcome::Row(Ok(Some(9))));
    let (_, a) = stop(&input, s2, Outcome::Executed(Err(failure("locked", true, false))));
    assert_eq!(reply_of(&a), ("Failed to stop monitoring this channel: locked".to_string(), true));
    let (_, a) = stop(&input, s, Outcome::Row(Err(failure("x", true, false))));
    match a {
        Action::Abort { message, detail } => {
            assert_eq!(message, "Failed to fetch channel id");
            assert_eq!(detail.unwrap(), "Debug(x)");
        }
        _ => panic!("expected an abort"),
    }
}

#[test]
fn listing_line_is_built_from_given_date() {
    let row = ChannelRow { channel: 1, target: -2, created_at: 0 };
    assert_eq!(listing_line_text(row, &"DATE".to_string()), "<#1> -> <#-2> (since DATE)\n");
}

#[test]
fn list_lines_at_the_edges_of_the_date_range() {
    let rows = vec![
        ChannelRow { channel: 1, target: 2, created_at: -8_000_000_000_000 },
        ChannelRow { channel: 3, target: 4, created_at: 8_000_000_000_000 },
    ];
    assert!(list_lines(&rows).is_some());
}
