//! The bot left a guild, or the guild went away: its record is deleted.

use vstd::prelude::*;
use crate::ids::{db_key, stored_key};
use crate::protocol::{finish_ok, joined, print, Action, ActionView, DbRequest, Outcome};
use crate::text::{decimal, decimal_text};

verus! {

/// The guild that went away: the id of the unavailable guild, and of the full guild
/// when the cache held it.
pub struct GuildDeleteInput {
    pub incomplete: u64,
    pub full: Option<u64>,
}

/// Where a run of `guild_delete` stands: the action whose outcome it awaits.
#[derive(Clone, Copy)]
pub enum GuildDeleteStage {
    Start,
    Deleted,
    Reported,
    Over,
}

pub open spec fn guild_delete_rank(stage: GuildDeleteStage) -> nat {
    match stage {
        GuildDeleteStage::Start => 3,
        GuildDeleteStage::Deleted => 2,
        GuildDeleteStage::Reported => 1,
        GuildDeleteStage::Over => 0,
    }
}

pub open spec fn guild_delete_awaits(stage: GuildDeleteStage, outcome: Outcome) -> bool {
    match stage {
        GuildDeleteStage::Start => outcome is Begin,
        GuildDeleteStage::Deleted => outcome is Executed,
        GuildDeleteStage::Reported => outcome is Done,
        GuildDeleteStage::Over => false,
    }
}

/// The guild whose record goes: the full guild's id where there is one.
pub open spec fn departed_guild(input: GuildDeleteInput) -> u64 {
    match input.full {
        Some(g) => g,
        None => input.incomplete,
    }
}

/// One step of the handler.
pub open spec fn guild_delete_next(input: GuildDeleteInput, stage: GuildDeleteStage, outcome: Outcome) -> (
    GuildDeleteStage,
    ActionView,
) {
    let key = stored_key(departed_guild(input));
    match stage {
        GuildDeleteStage::Start => (
            GuildDeleteStage::Deleted,
            ActionView::Query(DbRequest::DeleteGuild { guild: key as i64 }),
        ),
        GuildDeleteStage::Deleted => match outcome {
            Outcome::Executed(Err(f)) => (
                GuildDeleteStage::Reported,
                ActionView::Print {
                    line: "Failed to delete guild "@ + decimal_text(key) + ": "@ + f.text@,
                    stderr: true,
                },
            ),
            _ => (
                GuildDeleteStage::Reported,
                ActionView::Print {
                    line: "Successfully deleted guild "@ + decimal_text(key),
                    stderr: false,
                },
            ),
        },
        _ => (GuildDeleteStage::Over, ActionView::Finish { error: None }),
    }
}

/// The handler of a guild going away: `stage` is where the run stands and `outcome` what
/// the action it asked for last gave back.
pub fn guild_delete(input: &GuildDeleteInput, stage: GuildDeleteStage, outcome: Outcome) -> (res: (
    GuildDeleteStage,
    Action,
))
    requires
        guild_delete_awaits(stage, outcome),
    ensures
        (res.0, res.1@) == guild_delete_next(*input, stage, outcome),
        res.1@.ends() <==> res.0 is Over,
        guild_delete_rank(res.0) < guild_delete_rank(stage),
{
    let guild = match input.full {
        Some(g) => g,
        None => input.incomplete,
    };
    let key = db_key(guild);
    match stage {
        GuildDeleteStage::Start => (
            GuildDeleteStage::Deleted,
            Action::Query(DbRequest::DeleteGuild { guild: key }),
        ),
        GuildDeleteStage::Deleted => match outcome {
            Outcome::Executed(Err(f)) => {
                let mut line = joined("Failed to delete guild ", decimal(key).as_str());
                line.append(": ");
                line.append(f.text.as_str());
                proof {
                    reveal_strlit(": ");
                }
                (GuildDeleteStage::Reported, print(line, true))
            },
            _ => (
                GuildDeleteStage::Reported,
                print(joined("Successfully deleted guild ", decimal(key).as_str()), false),
            ),
        },
        _ => (GuildDeleteStage::Over, finish_ok()),
    }
}

} // verus!
