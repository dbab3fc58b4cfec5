//! A serenity event handler for new messages: relays a watched channel's message through
//! ChatGPT into its target channel found in the cache, and prints failures rather than
//! panicking.

use vstd::prelude::*;
use crate::ids::{db_key, snowflake, stored_id, stored_key};
use crate::protocol::{finish_ok, joined, print, Action, ActionView, DbRequest, Failure, Outcome};
use crate::text::{decimal, decimal_text};

verus! {

/// The event handler; the database pool and the conversation it works with are held by
/// whoever performs its actions.
pub struct Handler;

/// The message that arrived.
pub struct HandlerMessageInput {
    pub author_is_bot: bool,
    pub guild: Option<u64>,
    pub channel: u64,
    pub content: String,
}

/// Where a run of `Handler::message` stands: the action whose outcome it awaits.
#[derive(Clone, Copy)]
pub enum HandlerStage {
    Start,
    TargetFetched,
    CacheSearched { target: u64 },
    ConversationLocked { target: u64 },
    Answered { target: u64 },
    Posted,
    Reported,
    Over,
}

pub open spec fn handler_rank(stage: HandlerStage) -> nat {
    match stage {
        HandlerStage::Start => 7,
        HandlerStage::TargetFetched => 6,
        HandlerStage::CacheSearched { .. } => 5,
        HandlerStage::ConversationLocked { .. } => 4,
        HandlerStage::Answered { .. } => 3,
        HandlerStage::Posted => 2,
        HandlerStage::Reported => 1,
        HandlerStage::Over => 0,
    }
}

/// The outcome that answers the action a stage awaits; the target is fetched as exactly
/// one row, so its outcome is a row or an error.
pub open spec fn handler_awaits(stage: HandlerStage, outcome: Outcome) -> bool {
    match stage {
        HandlerStage::Start => outcome is Begin,
        HandlerStage::TargetFetched => outcome matches Outcome::Row(r) && r != Ok::<Option<i64>, Failure>(None),
        HandlerStage::CacheSearched { .. } => outcome is CachedChannel,
        HandlerStage::ConversationLocked { .. } => outcome is Done,
        HandlerStage::Answered { .. } => outcome is Answer,
        HandlerStage::Posted => outcome is Posted,
        HandlerStage::Reported => outcome is Done,
        HandlerStage::Over => false,
    }
}

/// One step of the handler.
pub open spec fn handler_next(input: HandlerMessageInput, stage: HandlerStage, outcome: Outcome) -> (
    HandlerStage,
    ActionView,
) {
    let over = HandlerStage::Over;
    let reported = HandlerStage::Reported;
    let channel = stored_key(input.channel);
    match stage {
        HandlerStage::Start => if input.author_is_bot {
            (over, ActionView::Finish { error: None })
        } else {
            match input.guild {
                None => (
                    reported,
                    ActionView::Print { line: "Command has not been executed in a guild"@, stderr: false },
                ),
                Some(g) => (
                    HandlerStage::TargetFetched,
                    ActionView::Query(DbRequest::FetchTarget { guild: stored_key(g) as i64, channel: channel as i64 }),
                ),
            }
        },
        HandlerStage::TargetFetched => match outcome {
            Outcome::Row(Ok(Some(t))) => (
                HandlerStage::CacheSearched { target: stored_id(t) as u64 },
                ActionView::LookupCachedChannel { channel: stored_id(t) as u64 },
            ),
            Outcome::Row(Err(f)) => (
                reported,
                ActionView::Print { line: "No channel found: "@ + f.detail@, stderr: true },
            ),
            _ => (over, ActionView::Finish { error: None }),
        },
        HandlerStage::CacheSearched { target } => match outcome {
            Outcome::CachedChannel(Some(true)) => (
                HandlerStage::ConversationLocked { target },
                ActionView::LockConversation,
            ),
            Outcome::CachedChannel(Some(false)) => (
                reported,
                ActionView::Print { line: decimal_text(channel) + " is not a guild channel"@, stderr: false },
            ),
            _ => (reported, ActionView::Print { line: "Channel not found in cache"@, stderr: true }),
        },
        HandlerStage::ConversationLocked { target } => (
            HandlerStage::Answered { target },
            ActionView::Ask { prompt: input.content@ },
        ),
        HandlerStage::Answered { target } => match outcome {
            Outcome::Answer(Ok(answer)) => (
                HandlerStage::Posted,
                ActionView::PostMessage { channel: target, content: answer@, button: None },
            ),
            Outcome::Answer(Err(f)) => (
                reported,
                ActionView::Print {
                    line: "Failed to get a response from ChatGPT: "@ + f.detail@,
                    stderr: true,
                },
            ),
            _ => (over, ActionView::Finish { error: None }),
        },
        HandlerStage::Posted => match outcome {
            Outcome::Posted(Err(f)) => (
                reported,
                ActionView::Print { line: "Failed sending message: "@ + f.detail@, stderr: true },
            ),
            _ => (reported, ActionView::Print { line: "Successfully sent message"@, stderr: false }),
        },
        _ => (over, ActionView::Finish { error: None }),
    }
}

fn print_text(line: &str, stderr: bool) -> (a: Action)
    ensures
        a@ == (ActionView::Print { line: line@, stderr }),
{
    Action::Print { line: line.to_owned(), stderr }
}

impl Handler {
    /// The handler of a new message: `stage` is where the run stands and `outcome` what
    /// the action it asked for last gave back (`Begin` on the first call, with stage `Start`).
    pub fn message(&self, input: &HandlerMessageInput, stage: HandlerStage, outcome: Outcome) -> (res: (
        HandlerStage,
        Action,
    ))
        requires
            handler_awaits(stage, outcome),
        ensures
            (res.0, res.1@) == handler_next(*input, stage, outcome),
            res.1@.ends() <==> res.0 is Over,
            handler_rank(res.0) < handler_rank(stage),
    {
        let channel = db_key(input.channel);
        match stage {
            HandlerStage::Start => if input.author_is_bot {
                (HandlerStage::Over, finish_ok())
            } else {
                match input.guild {
                    None => (
                        HandlerStage::Reported,
                        print_text("Command has not been executed in a guild", false),
                    ),
                    Some(g) => (
                        HandlerStage::TargetFetched,
                        Action::Query(DbRequest::FetchTarget { guild: db_key(g), channel }),
                    ),
                }
            },
            HandlerStage::TargetFetched => match outcome {
                Outcome::Row(Ok(Some(t))) => {
                    let target = snowflake(t);
                    (HandlerStage::CacheSearched { target }, Action::LookupCachedChannel { channel: target })
                },
                Outcome::Row(Err(f)) => (
                    HandlerStage::Reported,
                    print(joined("No channel found: ", f.detail.as_str()), true),
                ),
                _ => (HandlerStage::Over, finish_ok()),
            },
            HandlerStage::CacheSearched { target } => match outcome {
                Outcome::CachedChannel(Some(true)) => (
                    HandlerStage::ConversationLocked { target },
                    Action::LockConversation,
                ),
                Outcome::CachedChannel(Some(false)) => {
                    let mut line = decimal(channel);
                    line.append(" is not a guild channel");
                    (HandlerStage::Reported, print(line, false))
                },
                _ => (HandlerStage::Reported, print_text("Channel not found in cache", true)),
            },
            HandlerStage::ConversationLocked { target } => (
                HandlerStage::Answered { target },
                Action::Ask { prompt: input.content.clone() },
            ),
            HandlerStage::Answered { target } => match outcome {
                Outcome::Answer(Ok(answer)) => (
                    HandlerStage::Posted,
                    Action::PostMessage { channel: target, content: answer, button: None },
                ),
                Outcome::Answer(Err(f)) => (
                    HandlerStage::Reported,
                    print(joined("Failed to get a response from ChatGPT: ", f.detail.as_str()), true),
                ),
                _ => (HandlerStage::Over, finish_ok()),
            },
            HandlerStage::Posted => match outcome {
                Outcome::Posted(Err(f)) => (
                    HandlerStage::Reported,
                    print(joined("Failed sending message: ", f.detail.as_str()), true),
                ),
                _ => (HandlerStage::Reported, print_text("Successfully sent message", false)),
            },
            _ => (HandlerStage::Over, finish_ok()),
        }
    }

    /// The handler of the gateway's ready event: prints that the bot's user is connected.
    pub fn ready(&self, user_name: &String) -> (a: Action)
        ensures
            a@ == (ActionView::Print { line: user_name@ + " is connected!"@, stderr: false }),
    {
        let mut line = user_name.clone();
        line.append(" is connected!");
        Action::Print { line, stderr: false }
    }
}

/// A message of a watched channel whose calls all go through: the target is fetched by
/// the guild's and the channel's keys, found in the cache, ChatGPT is sent the message's
/// content, and its answer is posted in the target without a button.
pub proof fn handler_relays_to_cached_target(input: HandlerMessageInput, guild: u64, target_key: i64, answer: String, posted: u64)
    requires
        !input.author_is_bot,
        input.guild == Some(guild),
    ensures
        ({
            let target = stored_id(target_key) as u64;
            let s1 = handler_next(input, HandlerStage::Start, Outcome::Begin);
            let s2 = handler_next(input, s1.0, Outcome::Row(Ok(Some(target_key))));
            let s3 = handler_next(input, s2.0, Outcome::CachedChannel(Some(true)));
            let s4 = handler_next(input, s3.0, Outcome::Done);
            let s5 = handler_next(input, s4.0, Outcome::Answer(Ok(answer)));
            let s6 = handler_next(input, s5.0, Outcome::Posted(Ok(posted)));
            &&& s1.1 == ActionView::Query(
                DbRequest::FetchTarget {
                    guild: stored_key(guild) as i64,
                    channel: stored_key(input.channel) as i64,
                },
            )
            &&& s2.1 == ActionView::LookupCachedChannel { channel: target }
            &&& s3.1 == ActionView::LockConversation
            &&& s4.1 == ActionView::Ask { prompt: input.content@ }
            &&& s5.1 == ActionView::PostMessage { channel: target, content: answer@, button: None }
            &&& s6.1 == ActionView::Print { line: "Successfully sent message"@, stderr: false }
        }),
{
}

/// The stages in which a run of `Handler::message` holds the conversation's lock, from the
/// step that asks for it on (the closing report stage, which runs that never took the lock
/// share, is left out).
pub open spec fn handler_holds_lock(stage: HandlerStage) -> bool {
    match stage {
        HandlerStage::ConversationLocked { .. } | HandlerStage::Answered { .. } | HandlerStage::Posted => true,
        _ => false,
    }
}

/// ChatGPT is prompted only while the conversation's lock is held: a step that prompts starts
/// from a stage holding the lock; the lock is taken once, by the step that asks for it, and
/// no stage comes to hold it otherwise. No action releases it: the driver holds it until
/// the run ends, so one run's exchange is never interleaved with another's.
pub proof fn handler_prompts_only_under_the_lock(input: HandlerMessageInput, stage: HandlerStage, outcome: Outcome)
    ensures
        ({
            let next = handler_next(input, stage, outcome);
            &&& next.1 is Ask ==> handler_holds_lock(stage)
            &&& next.1 is LockConversation ==> handler_holds_lock(next.0) && !handler_holds_lock(stage)
            &&& (handler_holds_lock(next.0) && !handler_holds_lock(stage)) ==> next.1 is LockConversation
            &&& handler_holds_lock(stage) ==> handler_holds_lock(next.0) || next.0 is Over || next.0 is Reported
        }),
{
}

} // verus!
