//! A new message in a watched channel: ChatGPT condenses it, the answer is posted in the
//! channel's target with a "Send" button, and the pair of messages is recorded.

use vstd::prelude::*;
use crate::ids::{db_key, snowflake, stored_id, stored_key};
use crate::protocol::{
    abort_plain, abort_with, failure_detail, finish_ok, Action, ActionView, Button, ButtonStyle,
    ButtonView, DbRequest, Outcome,
};

verus! {

/// The message that arrived.
pub struct MessageInput {
    pub author_is_bot: bool,
    pub guild: Option<u64>,
    pub channel: u64,
    pub id: u64,
    pub content: String,
    /// When the message was sent, in seconds since the Unix epoch.
    pub sent_at: i64,
    /// The time of handling, in seconds since the Unix epoch.
    pub now: i64,
}

/// Where a run of `message` stands: the action whose outcome it awaits.
#[derive(Clone, Copy)]
pub enum MessageStage {
    Start,
    GuildRecorded { guild: i64 },
    TargetFound { guild: i64 },
    ChannelFetched { guild: i64, target: u64 },
    ConversationLocked { guild: i64, target: u64 },
    Answered { guild: i64, target: u64 },
    Posted { guild: i64 },
    Recorded,
    Over,
}

/// The stages still ahead: each step lowers it, so a run asks for at most eight actions.
pub open spec fn message_rank(stage: MessageStage) -> nat {
    match stage {
        MessageStage::Start => 8,
        MessageStage::GuildRecorded { .. } => 7,
        MessageStage::TargetFound { .. } => 6,
        MessageStage::ChannelFetched { .. } => 5,
        MessageStage::ConversationLocked { .. } => 4,
        MessageStage::Answered { .. } => 3,
        MessageStage::Posted { .. } => 2,
        MessageStage::Recorded => 1,
        MessageStage::Over => 0,
    }
}

/// The outcome that answers the action a stage awaits.
pub open spec fn message_awaits(stage: MessageStage, outcome: Outcome) -> bool {
    match stage {
        MessageStage::Start => outcome is Begin,
        MessageStage::GuildRecorded { .. } => outcome is Executed,
        MessageStage::TargetFound { .. } => outcome is Row,
        MessageStage::ChannelFetched { .. } => outcome is ChannelFetched,
        MessageStage::ConversationLocked { .. } => outcome is Done,
        MessageStage::Answered { .. } => outcome is Answer,
        MessageStage::Posted { .. } => outcome is Posted,
        MessageStage::Recorded => outcome is Executed,
        MessageStage::Over => false,
    }
}

/// The button posted under every answer.
pub open spec fn send_button_view() -> ButtonView {
    ButtonView { custom_id: "send"@, label: "Send"@, style: ButtonStyle::Danger }
}

/// One step of the handler.
pub open spec fn message_next(input: MessageInput, stage: MessageStage, outcome: Outcome) -> (
    MessageStage,
    ActionView,
) {
    let over = MessageStage::Over;
    match stage {
        MessageStage::Start => if input.author_is_bot {
            (over, ActionView::Finish { error: None })
        } else {
            match input.guild {
                None => (over, ActionView::Abort { message: "Failed to fetch guild id"@, detail: None }),
                Some(g) => (
                    MessageStage::GuildRecorded { guild: stored_key(g) as i64 },
                    ActionView::Query(
                        DbRequest::InsertGuildIfAbsent {
                            guild: stored_key(g) as i64,
                            created_at: input.now,
                        },
                    ),
                ),
            }
        },
        MessageStage::GuildRecorded { guild } => match outcome {
            Outcome::Executed(Err(f)) => (
                over,
                ActionView::Abort { message: "Failed to insert guild"@, detail: failure_detail(f) },
            ),
            _ => (
                MessageStage::TargetFound { guild },
                ActionView::Query(
                    DbRequest::FindTarget { guild, channel: stored_key(input.channel) as i64 },
                ),
            ),
        },
        MessageStage::TargetFound { guild } => match outcome {
            Outcome::Row(Err(f)) => (
                over,
                ActionView::Abort {
                    message: "Failed to fetch channel target"@,
                    detail: failure_detail(f),
                },
            ),
            Outcome::Row(Ok(Some(t))) => (
                MessageStage::ChannelFetched { guild, target: stored_id(t) as u64 },
                ActionView::FetchChannel { channel: stored_id(t) as u64 },
            ),
            _ => (over, ActionView::Finish { error: None }),
        },
        MessageStage::ChannelFetched { guild, target } => match outcome {
            Outcome::ChannelFetched(Err(f)) => (
                over,
                ActionView::Abort { message: "Failed to fetch channel"@, detail: failure_detail(f) },
            ),
            Outcome::ChannelFetched(Ok(true)) => (
                MessageStage::ConversationLocked { guild, target },
                ActionView::LockConversation,
            ),
            _ => (over, ActionView::Finish { error: None }),
        },
        MessageStage::ConversationLocked { guild, target } => (
            MessageStage::Answered { guild, target },
            ActionView::Ask { prompt: input.content@ },
        ),
        MessageStage::Answered { guild, target } => match outcome {
            Outcome::Answer(Ok(answer)) => (
                MessageStage::Posted { guild },
                ActionView::PostMessage {
                    channel: target,
                    content: answer@,
                    button: Some(send_button_view()),
                },
            ),
            Outcome::Answer(Err(f)) => (
                over,
                ActionView::Abort {
                    message: "Failed to send message to GPT"@,
                    detail: failure_detail(f),
                },
            ),
            _ => (over, ActionView::Finish { error: None }),
        },
        MessageStage::Posted { guild } => match outcome {
            Outcome::Posted(Ok(reply)) => (
                MessageStage::Recorded,
                ActionView::Query(
                    DbRequest::InsertMessage {
                        source: stored_key(input.id) as i64,
                        guild,
                        reply: stored_key(reply) as i64,
                        created_at: input.sent_at,
                    },
                ),
            ),
            Outcome::Posted(Err(f)) => (
                over,
                ActionView::Abort {
                    message: "Failed to send message to Discord"@,
                    detail: failure_detail(f),
                },
            ),
            _ => (over, ActionView::Finish { error: None }),
        },
        MessageStage::Recorded => match outcome {
            Outcome::Executed(Err(f)) => (
                over,
                ActionView::Abort {
                    message: "Failed to insert message into database"@,
                    detail: failure_detail(f),
                },
            ),
            _ => (over, ActionView::Finish { error: None }),
        },
        MessageStage::Over => (over, ActionView::Finish { error: None }),
    }
}

fn send_button() -> (b: Button)
    ensures
        b@ == send_button_view(),
{
    Button {
        custom_id: String::from_str("send"),
        label: String::from_str("Send"),
        style: ButtonStyle::Danger,
    }
}

/// The handler of a new message: `stage` is where the run stands and `outcome` what the
/// action it asked for last gave back (`Begin` on the first call, with stage `Start`).
pub fn message(input: &MessageInput, stage: MessageStage, outcome: Outcome) -> (res: (
    MessageStage,
    Action,
))
    requires
        message_awaits(stage, outcome),
    ensures
        (res.0, res.1@) == message_next(*input, stage, outcome),
        res.1@.ends() <==> res.0 is Over,
        message_rank(res.0) < message_rank(stage),
{
    match stage {
        MessageStage::Start => {
            if input.author_is_bot {
                return (MessageStage::Over, finish_ok());
            }
            match input.guild {
                None => (MessageStage::Over, abort_plain("Failed to fetch guild id")),
                Some(g) => {
                    let guild = db_key(g);
                    (
                        MessageStage::GuildRecorded { guild },
                        Action::Query(
                            DbRequest::InsertGuildIfAbsent { guild, created_at: input.now },
                        ),
                    )
                },
            }
        },
        MessageStage::GuildRecorded { guild } => match outcome {
            Outcome::Executed(Err(f)) => (
                MessageStage::Over,
                abort_with("Failed to insert guild", &f),
            ),
            _ => (
                MessageStage::TargetFound { guild },
                Action::Query(DbRequest::FindTarget { guild, channel: db_key(input.channel) }),
            ),
        },
        MessageStage::TargetFound { guild } => match outcome {
            Outcome::Row(Err(f)) => (
                MessageStage::Over,
                abort_with("Failed to fetch channel target", &f),
            ),
            Outcome::Row(Ok(Some(t))) => {
                let target = snowflake(t);
                (MessageStage::ChannelFetched { guild, target }, Action::FetchChannel { channel: target })
            },
            _ => (MessageStage::Over, finish_ok()),
        },
        MessageStage::ChannelFetched { guild, target } => match outcome {
            Outcome::ChannelFetched(Err(f)) => (
                MessageStage::Over,
                abort_with("Failed to fetch channel", &f),
            ),
            Outcome::ChannelFetched(Ok(true)) => (
                MessageStage::ConversationLocked { guild, target },
                Action::LockConversation,
            ),
            _ => (MessageStage::Over, finish_ok()),
        },
        MessageStage::ConversationLocked { guild, target } => (
            MessageStage::Answered { guild, target },
            Action::Ask { prompt: input.content.clone() },
        ),
        MessageStage::Answered { guild, target } => match outcome {
            Outcome::Answer(Ok(answer)) => (
                MessageStage::Posted { guild },
                Action::PostMessage { channel: target, content: answer, button: Some(send_button()) },
            ),
            Outcome::Answer(Err(f)) => (
                MessageStage::Over,
                abort_with("Failed to send message to GPT", &f),
            ),
            _ => (MessageStage::Over, finish_ok()),
        },
        MessageStage::Posted { guild } => match outcome {
            Outcome::Posted(Ok(reply)) => (
                MessageStage::Recorded,
                Action::Query(
                    DbRequest::InsertMessage {
                        source: db_key(input.id),
                        guild,
                        reply: db_key(reply),
                        created_at: input.sent_at,
                    },
                ),
            ),
            Outcome::Posted(Err(f)) => (
                MessageStage::Over,
                abort_with("Failed to send message to Discord", &f),
            ),
            _ => (MessageStage::Over, finish_ok()),
        },
        MessageStage::Recorded => match outcome {
            Outcome::Executed(Err(f)) => (
                MessageStage::Over,
                abort_with("Failed to insert message into database", &f),
            ),
            _ => (MessageStage::Over, finish_ok()),
        },
        MessageStage::Over => (MessageStage::Over, finish_ok()),
    }
}

/// A message written by a bot ends the run at once: no statement, no call.
pub proof fn bot_messages_are_ignored(input: MessageInput)
    requires
        input.author_is_bot,
    ensures
        message_next(input, MessageStage::Start, Outcome::Begin) == (
            MessageStage::Over,
            ActionView::Finish { error: None },
        ),
{
}

/// A message of a watched channel whose calls all go through: the guild is recorded, the
/// channel's target is looked up by the guild's and the channel's keys, ChatGPT is sent the
/// message's content under the conversation's lock, its answer is posted with the "Send"
/// button in the target channel, and the pair of the message and the answer is recorded;
/// then the run ends without error.
pub proof fn watched_message_is_relayed(
    input: MessageInput,
    guild: u64,
    target_key: i64,
    answer: String,
    reply: u64,
)
    requires
        !input.author_is_bot,
        input.guild == Some(guild),
    ensures
        ({
            let g = stored_key(guild) as i64;
            let target = stored_id(target_key) as u64;
            let s1 = message_next(input, MessageStage::Start, Outcome::Begin);
            let s2 = message_next(input, s1.0, Outcome::Executed(Ok(())));
            let s3 = message_next(input, s2.0, Outcome::Row(Ok(Some(target_key))));
            let s4 = message_next(input, s3.0, Outcome::ChannelFetched(Ok(true)));
            let s5 = message_next(input, s4.0, Outcome::Done);
            let s6 = message_next(input, s5.0, Outcome::Answer(Ok(answer)));
            let s7 = message_next(input, s6.0, Outcome::Posted(Ok(reply)));
            let s8 = message_next(input, s7.0, Outcome::Executed(Ok(())));
            &&& s1.1 == ActionView::Query(DbRequest::InsertGuildIfAbsent { guild: g, created_at: input.now })
            &&& s2.1 == ActionView::Query(
                DbRequest::FindTarget { guild: g, channel: stored_key(input.channel) as i64 },
            )
            &&& s3.1 == ActionView::FetchChannel { channel: target }
            &&& s4.1 == ActionView::LockConversation
            &&& s5.1 == ActionView::Ask { prompt: input.content@ }
            &&& s6.1 == ActionView::PostMessage {
                channel: target,
                content: answer@,
                button: Some(send_button_view()),
            }
            &&& s7.1 == ActionView::Query(
                DbRequest::InsertMessage {
                    source: stored_key(input.id) as i64,
                    guild: g,
                    reply: stored_key(reply) as i64,
                    created_at: input.sent_at,
                },
            )
            &&& s8 == (MessageStage::Over, ActionView::Finish { error: None })
        }),
{
}

/// A message of a channel that is not watched (no target row) ends the run without error
/// once the guild is recorded and the lookup comes back empty: nothing is sent to ChatGPT.
pub proof fn unwatched_message_is_not_relayed(input: MessageInput, guild: u64)
    requires
        !input.author_is_bot,
        input.guild == Some(guild),
    ensures
        ({
            let s1 = message_next(input, MessageStage::Start, Outcome::Begin);
            let s2 = message_next(input, s1.0, Outcome::Executed(Ok(())));
            let s3 = message_next(input, s2.0, Outcome::Row(Ok(None)));
            s3 == (MessageStage::Over, ActionView::Finish { error: None })
        }),
{
}

/// Whatever the stage and the outcome, a step that prompts ChatGPT sends it the message's
/// content, and nothing else.
pub proof fn only_the_message_content_is_sent_to_chatgpt(input: MessageInput, stage: MessageStage, outcome: Outcome)
    ensures
        message_next(input, stage, outcome).1 matches ActionView::Ask { prompt } ==> prompt == input.content@,
{
}

/// Whatever the stage and the outcome, a step that posts a message posts ChatGPT's answer
/// that just came back, with the "Send" button, in the target channel held by the stage.
pub proof fn only_chatgpt_answers_are_posted(input: MessageInput, stage: MessageStage, outcome: Outcome)
    ensures
        message_next(input, stage, outcome).1 matches ActionView::PostMessage { channel, content, button } ==> {
            &&& stage matches MessageStage::Answered { target, .. } && channel == target
            &&& outcome matches Outcome::Answer(Ok(answer)) && content == answer@
            &&& button == Some(send_button_view())
        },
{
}

/// Whatever the stage and the outcome, a step that records a pair records the key of the
/// message being handled with the key of the answer just posted.
pub proof fn only_posted_answers_are_recorded(input: MessageInput, stage: MessageStage, outcome: Outcome)
    ensures
        message_next(input, stage, outcome).1 matches ActionView::Query(DbRequest::InsertMessage { source, reply, .. }) ==> {
            &&& source == stored_key(input.id)
            &&& outcome matches Outcome::Posted(Ok(posted)) && reply == stored_key(posted)
        },
{
}

/// The target channel a stage holds.
pub open spec fn held_target(stage: MessageStage) -> Option<u64> {
    match stage {
        MessageStage::ChannelFetched { target, .. } => Some(target),
        MessageStage::ConversationLocked { target, .. } => Some(target),
        MessageStage::Answered { target, .. } => Some(target),
        _ => None,
    }
}

/// A target held after a step was read from the lookup's row on that step, or was held
/// before it.
pub proof fn held_target_comes_from_the_lookup(input: MessageInput, stage: MessageStage, outcome: Outcome)
    ensures
        held_target(message_next(input, stage, outcome).0) matches Some(target) ==> {
            ||| (stage is TargetFound && (outcome matches Outcome::Row(Ok(Some(t))) && target == stored_id(t)))
            ||| held_target(stage) == Some(target)
        },
{
}

/// The stages in which a run of `message` holds the conversation's lock: from the step that asks
/// for it to the end of the run.
pub open spec fn message_holds_lock(stage: MessageStage) -> bool {
    match stage {
        MessageStage::ConversationLocked { .. } | MessageStage::Answered { .. } | MessageStage::Posted { .. }
        | MessageStage::Recorded => true,
        _ => false,
    }
}

/// ChatGPT is prompted only while the conversation's lock is held: a step that prompts starts
/// from a stage holding the lock; the lock is taken once, by the step that asks for it, and
/// no stage comes to hold it otherwise. No action releases it: the driver holds it until
/// the run ends, so one run's exchange is never interleaved with another's.
pub proof fn message_prompts_only_under_the_lock(input: MessageInput, stage: MessageStage, outcome: Outcome)
    ensures
        ({
            let next = message_next(input, stage, outcome);
            &&& next.1 is Ask ==> message_holds_lock(stage)
            &&& next.1 is LockConversation ==> message_holds_lock(next.0) && !message_holds_lock(stage)
            &&& (message_holds_lock(next.0) && !message_holds_lock(stage)) ==> next.1 is LockConversation
            &&& message_holds_lock(stage) ==> message_holds_lock(next.0) || next.0 is Over
        }),
{
}

} // verus!
