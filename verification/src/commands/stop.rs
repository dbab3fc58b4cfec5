//! `/stop`: stops watching a channel.

use vstd::prelude::*;
use crate::commands::listen::unwrap_none_message;
use crate::ids::{db_key, stored_key};
use crate::protocol::{abort_plain, abort_with, finish_err, finish_ok, joined, reply, reply_text, Action, ActionView, DbRequest, Outcome};

verus! {

/// The command's context and argument.
pub struct StopInput {
    /// The guild the command runs in (always present for a guild-only command).
    pub guild: Option<u64>,
    /// The channel to stop watching.
    pub channel: u64,
}

/// Where a run of `stop` stands: the action whose outcome it awaits.
#[derive(Clone, Copy)]
pub enum StopStage {
    Start,
    Found { guild: i64 },
    Deleted,
    Answered,
    Over,
}

pub open spec fn stop_rank(stage: StopStage) -> nat {
    match stage {
        StopStage::Start => 4,
        StopStage::Found { .. } => 3,
        StopStage::Deleted => 2,
        StopStage::Answered => 1,
        StopStage::Over => 0,
    }
}

pub open spec fn stop_awaits(stage: StopStage, outcome: Outcome) -> bool {
    match stage {
        StopStage::Start => outcome is Begin,
        StopStage::Found { .. } => outcome is Row,
        StopStage::Deleted => outcome is Executed,
        StopStage::Answered => outcome is Sent,
        StopStage::Over => false,
    }
}

/// One step of the command.
pub open spec fn stop_next(input: StopInput, stage: StopStage, outcome: Outcome) -> (StopStage, ActionView) {
    let over = StopStage::Over;
    let channel = stored_key(input.channel) as i64;
    match stage {
        StopStage::Start => match input.guild {
            None => (over, ActionView::Abort { message: unwrap_none_message(), detail: None }),
            Some(g) => (
                StopStage::Found { guild: stored_key(g) as i64 },
                ActionView::Query(DbRequest::FindChannel { channel, guild: stored_key(g) as i64 }),
            ),
        },
        StopStage::Found { guild } => match outcome {
            Outcome::Row(Err(f)) => (
                over,
                ActionView::Abort { message: "Failed to fetch channel id"@, detail: Some(f.detail@) },
            ),
            Outcome::Row(Ok(Some(_))) => (
                StopStage::Deleted,
                ActionView::Query(DbRequest::DeleteChannel { channel, guild }),
            ),
            _ => (
                StopStage::Answered,
                ActionView::Reply { content: "This channel is not being monitored."@, ephemeral: true },
            ),
        },
        StopStage::Deleted => match outcome {
            Outcome::Executed(Err(f)) => (
                StopStage::Answered,
                ActionView::Reply {
                    content: "Failed to stop monitoring this channel: "@ + f.text@,
                    ephemeral: true,
                },
            ),
            _ => (
                StopStage::Answered,
                ActionView::Reply {
                    content: "This channel is no longer being monitored."@,
                    ephemeral: true,
                },
            ),
        },
        _ => match outcome {
            Outcome::Sent(Err(f)) => (over, ActionView::Finish { error: Some(f.text@) }),
            _ => (over, ActionView::Finish { error: None }),
        },
    }
}

/// The `/stop` command (guild only): `stage` is where the run stands and `outcome` what
/// the action it asked for last gave back (`Begin` on the first call, with stage `Start`).
pub fn stop(input: &StopInput, stage: StopStage, outcome: Outcome) -> (res: (StopStage, Action))
    requires
        stop_awaits(stage, outcome),
    ensures
        (res.0, res.1@) == stop_next(*input, stage, outcome),
        res.1@.ends() <==> res.0 is Over,
        stop_rank(res.0) < stop_rank(stage),
{
    let channel = db_key(input.channel);
    match stage {
        StopStage::Start => match input.guild {
            None => (StopStage::Over, abort_plain("called `Option::unwrap()` on a `None` value")),
            Some(g) => {
                let guild = db_key(g);
                (StopStage::Found { guild }, Action::Query(DbRequest::FindChannel { channel, guild }))
            },
        },
        StopStage::Found { guild } => match outcome {
            Outcome::Row(Err(f)) => (StopStage::Over, abort_with("Failed to fetch channel id", &f)),
            Outcome::Row(Ok(Some(_))) => (
                StopStage::Deleted,
                Action::Query(DbRequest::DeleteChannel { channel, guild }),
            ),
            _ => (StopStage::Answered, reply_text("This channel is not being monitored.", true)),
        },
        StopStage::Deleted => match outcome {
            Outcome::Executed(Err(f)) => (
                StopStage::Answered,
                reply(joined("Failed to stop monitoring this channel: ", f.text.as_str()), true),
            ),
            _ => (StopStage::Answered, reply_text("This channel is no longer being monitored.", true)),
        },
        _ => match outcome {
            Outcome::Sent(Err(f)) => (StopStage::Over, finish_err(&f)),
            _ => (StopStage::Over, finish_ok()),
        },
    }
}

/// Stopping a channel that is not watched deletes nothing: when the lookup comes back
/// empty, no `DELETE` is run, the answer is "This channel is not being monitored.", and the
/// run ends. A second `/stop` after a first that removed the row goes this way.
pub proof fn stopping_an_unwatched_channel_deletes_nothing(input: StopInput, guild: u64)
    requires
        input.guild == Some(guild),
    ensures
        ({
            let s1 = stop_next(input, StopStage::Start, Outcome::Begin);
            let s2 = stop_next(input, s1.0, Outcome::Row(Ok(None)));
            let s3 = stop_next(input, s2.0, Outcome::Sent(Ok(())));
            &&& s1.1 == ActionView::Query(
                DbRequest::FindChannel { channel: stored_key(input.channel) as i64, guild: stored_key(guild) as i64 },
            )
            &&& s2.1 == ActionView::Reply { content: "This channel is not being monitored."@, ephemeral: true }
            &&& s3 == (StopStage::Over, ActionView::Finish { error: None })
        }),
{
}

} // verus!
