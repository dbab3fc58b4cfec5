//! The bot joined a guild: a new guild is recorded.

use vstd::prelude::*;
use crate::ids::{db_key, stored_key};
use crate::protocol::{finish_ok, joined, print, Action, ActionView, DbRequest, Outcome};
use crate::text::{decimal, decimal_text};

verus! {

/// The guild that became available.
pub struct GuildCreateInput {
    pub guild: u64,
    /// Whether the bot has just joined it (as opposed to it becoming available again).
    pub is_new: bool,
    /// The time of handling, in seconds since the Unix epoch.
    pub now: i64,
}

/// Where a run of `guild_create` stands: the action whose outcome it awaits.
#[derive(Clone, Copy)]
pub enum GuildCreateStage {
    Start,
    Inserted,
    Reported,
    Over,
}

pub open spec fn guild_create_rank(stage: GuildCreateStage) -> nat {
    match stage {
        GuildCreateStage::Start => 3,
        GuildCreateStage::Inserted => 2,
        GuildCreateStage::Reported => 1,
        GuildCreateStage::Over => 0,
    }
}

pub open spec fn guild_create_awaits(stage: GuildCreateStage, outcome: Outcome) -> bool {
    match stage {
        GuildCreateStage::Start => outcome is Begin,
        GuildCreateStage::Inserted => outcome is Executed,
        GuildCreateStage::Reported => outcome is Done,
        GuildCreateStage::Over => false,
    }
}

/// One step of the handler.
pub open spec fn guild_create_next(input: GuildCreateInput, stage: GuildCreateStage, outcome: Outcome) -> (
    GuildCreateStage,
    ActionView,
) {
    let key = stored_key(input.guild);
    match stage {
        GuildCreateStage::Start => if !input.is_new {
            (GuildCreateStage::Over, ActionView::Finish { error: None })
        } else {
            (
                GuildCreateStage::Inserted,
                ActionView::Query(DbRequest::InsertGuildIfAbsent { guild: key as i64, created_at: input.now }),
            )
        },
        GuildCreateStage::Inserted => match outcome {
            Outcome::Executed(Err(f)) => (
                GuildCreateStage::Reported,
                ActionView::Print { line: "Failed to insert guild: "@ + f.text@, stderr: false },
            ),
            _ => (
                GuildCreateStage::Reported,
                ActionView::Print {
                    line: "Successfully inserted guild "@ + decimal_text(key),
                    stderr: false,
                },
            ),
        },
        _ => (GuildCreateStage::Over, ActionView::Finish { error: None }),
    }
}

/// The handler of a guild becoming available: `stage` is where the run stands and
/// `outcome` what the action it asked for last gave back.
pub fn guild_create(input: &GuildCreateInput, stage: GuildCreateStage, outcome: Outcome) -> (res: (
    GuildCreateStage,
    Action,
))
    requires
        guild_create_awaits(stage, outcome),
    ensures
        (res.0, res.1@) == guild_create_next(*input, stage, outcome),
        res.1@.ends() <==> res.0 is Over,
        guild_create_rank(res.0) < guild_create_rank(stage),
{
    let key = db_key(input.guild);
    match stage {
        GuildCreateStage::Start => if !input.is_new {
            (GuildCreateStage::Over, finish_ok())
        } else {
            (
                GuildCreateStage::Inserted,
                Action::Query(DbRequest::InsertGuildIfAbsent { guild: key, created_at: input.now }),
            )
        },
        GuildCreateStage::Inserted => match outcome {
            Outcome::Executed(Err(f)) => (
                GuildCreateStage::Reported,
                print(joined("Failed to insert guild: ", f.text.as_str()), false),
            ),
            _ => (
                GuildCreateStage::Reported,
                print(joined("Successfully inserted guild ", decimal(key).as_str()), false),
            ),
        },
        _ => (GuildCreateStage::Over, finish_ok()),
    }
}

} // verus!
