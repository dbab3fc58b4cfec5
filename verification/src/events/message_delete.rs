//! A deleted message: when the bot had answered it, the answer is deleted too, in the
//! target channel the answer was posted in; where that target cannot be found, in the
//! deleted message's own channel.

use vstd::prelude::*;
use crate::ids::{db_key, snowflake, stored_id, stored_key};
use crate::protocol::{abort_with, failure_detail, finish_ok, Action, ActionView, DbRequest, Outcome};

verus! {

/// The deletion that arrived: the channel and guild of the deleted message, and its id.
pub struct MessageDeleteInput {
    pub channel: u64,
    pub guild: Option<u64>,
    pub deleted: u64,
}

/// Where a run of `message_delete` stands: the action whose outcome it awaits.
#[derive(Clone, Copy)]
pub enum MessageDeleteStage {
    Start,
    ReplyFound,
    TargetFound { reply: u64 },
    ChannelFetched { reply: u64, target: u64 },
    ReplyDeleted { reply: u64 },
    RowDeleted,
    Over,
}

/// The stages still ahead: each step lowers it.
pub open spec fn message_delete_rank(stage: MessageDeleteStage) -> nat {
    match stage {
        MessageDeleteStage::Start => 6,
        MessageDeleteStage::ReplyFound => 5,
        MessageDeleteStage::TargetFound { .. } => 4,
        MessageDeleteStage::ChannelFetched { .. } => 3,
        MessageDeleteStage::ReplyDeleted { .. } => 2,
        MessageDeleteStage::RowDeleted => 1,
        MessageDeleteStage::Over => 0,
    }
}

/// The outcome that answers the action a stage awaits.
pub open spec fn message_delete_awaits(stage: MessageDeleteStage, outcome: Outcome) -> bool {
    match stage {
        MessageDeleteStage::Start => outcome is Begin,
        MessageDeleteStage::ReplyFound => outcome is Row,
        MessageDeleteStage::TargetFound { .. } => outcome is Row,
        MessageDeleteStage::ChannelFetched { .. } => outcome is ChannelFetched,
        MessageDeleteStage::ReplyDeleted { .. } => outcome is Deleted,
        MessageDeleteStage::RowDeleted => outcome is Executed,
        MessageDeleteStage::Over => false,
    }
}

/// The channel the answer is deleted in, given what the target lookup gave back: the
/// target found, else the deleted message's own channel.
pub open spec fn deletion_channel(input: MessageDeleteInput, lookup: Outcome) -> u64 {
    match lookup {
        Outcome::Row(Ok(Some(t))) => stored_id(t) as u64,
        _ => input.channel,
    }
}

/// One step of the handler. The answer is deleted in the target channel of the deleted
/// message's channel, where the message handler posted it; when there is no guild, no
/// target row, or the lookup fails, in the deleted message's own channel. The statement
/// that removes the record binds the key of the answer.
pub open spec fn message_delete_next(
    input: MessageDeleteInput,
    stage: MessageDeleteStage,
    outcome: Outcome,
) -> (MessageDeleteStage, ActionView) {
    let over = MessageDeleteStage::Over;
    match stage {
        MessageDeleteStage::Start => (
            MessageDeleteStage::ReplyFound,
            ActionView::Query(DbRequest::FindReply { source: stored_key(input.deleted) as i64 }),
        ),
        MessageDeleteStage::ReplyFound => match outcome {
            Outcome::Row(Err(f)) => (
                over,
                ActionView::Abort { message: "Failed to fetch message id"@, detail: failure_detail(f) },
            ),
            Outcome::Row(Ok(Some(r))) => match input.guild {
                Some(g) => (
                    MessageDeleteStage::TargetFound { reply: stored_id(r) as u64 },
                    ActionView::Query(
                        DbRequest::FindTarget {
                            guild: stored_key(g) as i64,
                            channel: stored_key(input.channel) as i64,
                        },
                    ),
                ),
                None => (
                    MessageDeleteStage::ChannelFetched { reply: stored_id(r) as u64, target: input.channel },
                    ActionView::FetchChannel { channel: input.channel },
                ),
            },
            _ => (over, ActionView::Finish { error: None }),
        },
        MessageDeleteStage::TargetFound { reply } => (
            MessageDeleteStage::ChannelFetched { reply, target: deletion_channel(input, outcome) },
            ActionView::FetchChannel { channel: deletion_channel(input, outcome) },
        ),
        MessageDeleteStage::ChannelFetched { reply, target } => match outcome {
            Outcome::ChannelFetched(Err(f)) => (
                over,
                ActionView::Abort { message: "Failed to fetch channel"@, detail: failure_detail(f) },
            ),
            Outcome::ChannelFetched(Ok(true)) => (
                MessageDeleteStage::ReplyDeleted { reply },
                ActionView::DeleteMessages { channel: target, messages: seq![reply] },
            ),
            _ => (over, ActionView::Finish { error: None }),
        },
        MessageDeleteStage::ReplyDeleted { reply } => match outcome {
            Outcome::Deleted(Err(f)) => (
                over,
                ActionView::Abort { message: "Failed to delete message"@, detail: failure_detail(f) },
            ),
            _ => (
                MessageDeleteStage::RowDeleted,
                ActionView::Query(DbRequest::DeleteMessage { source: stored_key(reply) as i64 }),
            ),
        },
        MessageDeleteStage::RowDeleted => match outcome {
            Outcome::Executed(Err(f)) => (
                over,
                ActionView::Abort { message: "Failed to delete message"@, detail: failure_detail(f) },
            ),
            _ => (over, ActionView::Finish { error: None }),
        },
        MessageDeleteStage::Over => (over, ActionView::Finish { error: None }),
    }
}

/// The handler of a message deletion: `stage` is where the run stands and `outcome` what
/// the action it asked for last gave back (`Begin` on the first call, with stage `Start`).
pub fn message_delete(input: &MessageDeleteInput, stage: MessageDeleteStage, outcome: Outcome) -> (res: (
    MessageDeleteStage,
    Action,
))
    requires
        message_delete_awaits(stage, outcome),
    ensures
        (res.0, res.1@) == message_delete_next(*input, stage, outcome),
        res.1@.ends() <==> res.0 is Over,
        message_delete_rank(res.0) < message_delete_rank(stage),
{
    match stage {
        MessageDeleteStage::Start => (
            MessageDeleteStage::ReplyFound,
            Action::Query(DbRequest::FindReply { source: db_key(input.deleted) }),
        ),
        MessageDeleteStage::ReplyFound => match outcome {
            Outcome::Row(Err(f)) => (MessageDeleteStage::Over, abort_with("Failed to fetch message id", &f)),
            Outcome::Row(Ok(Some(r))) => match input.guild {
                Some(g) => (
                    MessageDeleteStage::TargetFound { reply: snowflake(r) },
                    Action::Query(DbRequest::FindTarget { guild: db_key(g), channel: db_key(input.channel) }),
                ),
                None => (
                    MessageDeleteStage::ChannelFetched { reply: snowflake(r), target: input.channel },
                    Action::FetchChannel { channel: input.channel },
                ),
            },
            _ => (MessageDeleteStage::Over, finish_ok()),
        },
        MessageDeleteStage::TargetFound { reply } => {
            let target = match outcome {
                Outcome::Row(Ok(Some(t))) => snowflake(t),
                _ => input.channel,
            };
            (MessageDeleteStage::ChannelFetched { reply, target }, Action::FetchChannel { channel: target })
        },
        MessageDeleteStage::ChannelFetched { reply, target } => match outcome {
            Outcome::ChannelFetched(Err(f)) => (
                MessageDeleteStage::Over,
                abort_with("Failed to fetch channel", &f),
            ),
            Outcome::ChannelFetched(Ok(true)) => {
                let mut messages: Vec<u64> = Vec::new();
                messages.push(reply);
                assert(messages@ =~= seq![reply]);
                (
                    MessageDeleteStage::ReplyDeleted { reply },
                    Action::DeleteMessages { channel: target, messages },
                )
            },
            _ => (MessageDeleteStage::Over, finish_ok()),
        },
        MessageDeleteStage::ReplyDeleted { reply } => match outcome {
            Outcome::Deleted(Err(f)) => (MessageDeleteStage::Over, abort_with("Failed to delete message", &f)),
            _ => (
                MessageDeleteStage::RowDeleted,
                Action::Query(DbRequest::DeleteMessage { source: db_key(reply) }),
            ),
        },
        MessageDeleteStage::RowDeleted => match outcome {
            Outcome::Executed(Err(f)) => (MessageDeleteStage::Over, abort_with("Failed to delete message", &f)),
            _ => (MessageDeleteStage::Over, finish_ok()),
        },
        MessageDeleteStage::Over => (MessageDeleteStage::Over, finish_ok()),
    }
}

/// Where the answer's target cannot be found (the lookup comes back empty or fails), the
/// recorded answer is deleted in the deleted message's own channel.
pub proof fn unknown_target_falls_back_to_own_channel(input: MessageDeleteInput, r: i64, lookup: Outcome)
    requires
        !(lookup matches Outcome::Row(Ok(Some(_)))),
    ensures
        ({
            let s1 = message_delete_next(input, MessageDeleteStage::Start, Outcome::Begin);
            let s2 = message_delete_next(input, s1.0, Outcome::Row(Ok(Some(r))));
            let s3 = if input.guild is Some { message_delete_next(input, s2.0, lookup) } else { s2 };
            let s4 = message_delete_next(input, s3.0, Outcome::ChannelFetched(Ok(true)));
            &&& s3.1 == ActionView::FetchChannel { channel: input.channel }
            &&& s4.1 == ActionView::DeleteMessages {
                channel: input.channel,
                messages: seq![stored_id(r) as u64],
            }
        }),
{
}

} // verus!
