//! `/listen`: starts watching a channel, whose messages go to a target channel.

use vstd::prelude::*;
use crate::ids::{db_key, stored_key};
use crate::protocol::{abort_plain, finish_err, finish_ok, joined, reply, reply_text, Action, ActionView, DbRequest, Outcome};

verus! {

/// The command's context and arguments.
pub struct ListenInput {
    /// The guild the command runs in (always present for a guild-only command).
    pub guild: Option<u64>,
    /// The channel to watch.
    pub channel: u64,
    /// The channel its answers go to.
    pub target: u64,
    /// The time of handling, in seconds since the Unix epoch.
    pub now: i64,
}

/// Where a run of `listen` stands: the action whose outcome it awaits.
#[derive(Clone, Copy)]
pub enum ListenStage {
    Start,
    Inserted,
    Answered,
    Over,
}

pub open spec fn listen_rank(stage: ListenStage) -> nat {
    match stage {
        ListenStage::Start => 3,
        ListenStage::Inserted => 2,
        ListenStage::Answered => 1,
        ListenStage::Over => 0,
    }
}

pub open spec fn listen_awaits(stage: ListenStage, outcome: Outcome) -> bool {
    match stage {
        ListenStage::Start => outcome is Begin,
        ListenStage::Inserted => outcome is Executed,
        ListenStage::Answered => outcome is Sent,
        ListenStage::Over => false,
    }
}

/// The panic of `Option::unwrap` on `None`.
pub open spec fn unwrap_none_message() -> Seq<char> {
    "called `Option::unwrap()` on a `None` value"@
}

/// One step of the command. A refusal by the database for another reason than a unique
/// constraint ends the command without an answer.
pub open spec fn listen_next(input: ListenInput, stage: ListenStage, outcome: Outcome) -> (
    ListenStage,
    ActionView,
) {
    let over = ListenStage::Over;
    match stage {
        ListenStage::Start => match input.guild {
            None => (over, ActionView::Abort { message: unwrap_none_message(), detail: None }),
            Some(g) => (
                ListenStage::Inserted,
                ActionView::Query(
                    DbRequest::InsertChannel {
                        channel: stored_key(input.channel) as i64,
                        guild: stored_key(g) as i64,
                        target: stored_key(input.target) as i64,
                        created_at: input.now,
                    },
                ),
            ),
        },
        ListenStage::Inserted => match outcome {
            Outcome::Executed(Err(f)) => if f.database_error {
                if f.unique_violation {
                    (
                        ListenStage::Answered,
                        ActionView::Reply {
                            content: "This channel is already being monitored."@,
                            ephemeral: true,
                        },
                    )
                } else {
                    (over, ActionView::Finish { error: None })
                }
            } else {
                (
                    ListenStage::Answered,
                    ActionView::Reply {
                        content: "Failed to start monitoring this channel: "@ + f.text@,
                        ephemeral: true,
                    },
                )
            },
            _ => (
                ListenStage::Answered,
                ActionView::Reply { content: "This channel is now being monitored."@, ephemeral: true },
            ),
        },
        _ => match outcome {
            Outcome::Sent(Err(f)) => (over, ActionView::Finish { error: Some(f.text@) }),
            _ => (over, ActionView::Finish { error: None }),
        },
    }
}

/// The `/listen` command (guild only): `stage` is where the run stands and `outcome` what
/// the action it asked for last gave back (`Begin` on the first call, with stage `Start`).
pub fn listen(input: &ListenInput, stage: ListenStage, outcome: Outcome) -> (res: (ListenStage, Action))
    requires
        listen_awaits(stage, outcome),
    ensures
        (res.0, res.1@) == listen_next(*input, stage, outcome),
        res.1@.ends() <==> res.0 is Over,
        listen_rank(res.0) < listen_rank(stage),
{
    match stage {
        ListenStage::Start => match input.guild {
            None => (ListenStage::Over, abort_plain("called `Option::unwrap()` on a `None` value")),
            Some(g) => (
                ListenStage::Inserted,
                Action::Query(
                    DbRequest::InsertChannel {
                        channel: db_key(input.channel),
                        guild: db_key(g),
                        target: db_key(input.target),
                        created_at: input.now,
                    },
                ),
            ),
        },
        ListenStage::Inserted => match outcome {
            Outcome::Executed(Err(f)) => if f.database_error {
                if f.unique_violation {
                    (ListenStage::Answered, reply_text("This channel is already being monitored.", true))
                } else {
                    (ListenStage::Over, finish_ok())
                }
            } else {
                (
                    ListenStage::Answered,
                    reply(joined("Failed to start monitoring this channel: ", f.text.as_str()), true),
                )
            },
            _ => (ListenStage::Answered, reply_text("This channel is now being monitored.", true)),
        },
        _ => match outcome {
            Outcome::Sent(Err(f)) => (ListenStage::Over, finish_err(&f)),
            _ => (ListenStage::Over, finish_ok()),
        },
    }
}

} // verus!
