//! `/adjust`: gives the shared ChatGPT conversation a new prompt without a restart.

use vstd::prelude::*;
use crate::protocol::{finish_err, finish_ok, joined, reply, reply_text, Action, ActionView, Outcome};

verus! {

/// The text sent after the new prompt, on a line of its own.
pub open spec fn confirmation_request() -> Seq<char> {
    "Confirm the prompt and wait for other messages to be generated."@
}

/// What ChatGPT is sent: the prompt, a line break, and the confirmation request.
pub open spec fn adjusted_prompt(content: Seq<char>) -> Seq<char> {
    content + "\n"@ + confirmation_request()
}

/// The command's argument: the content of the new prompt.
pub struct AdjustInput {
    pub content: String,
}

/// Where a run of `adjust` stands: the action whose outcome it awaits.
#[derive(Clone, Copy)]
pub enum AdjustStage {
    Start,
    ConversationLocked,
    Deferred,
    Answered,
    FailureReported,
    SuccessReported,
    Over,
}

pub open spec fn adjust_rank(stage: AdjustStage) -> nat {
    match stage {
        AdjustStage::Start => 6,
        AdjustStage::ConversationLocked => 5,
        AdjustStage::Deferred => 4,
        AdjustStage::Answered => 3,
        AdjustStage::FailureReported => 2,
        AdjustStage::SuccessReported => 1,
        AdjustStage::Over => 0,
    }
}

pub open spec fn adjust_awaits(stage: AdjustStage, outcome: Outcome) -> bool {
    match stage {
        AdjustStage::Start => outcome is Begin,
        AdjustStage::ConversationLocked => outcome is Done,
        AdjustStage::Deferred => outcome is Sent,
        AdjustStage::Answered => outcome is Answer,
        AdjustStage::FailureReported => outcome is Sent,
        AdjustStage::SuccessReported => outcome is Sent,
        AdjustStage::Over => false,
    }
}

/// One step of the command. A failed prompt is reported, and the success message follows
/// it in either case.
pub open spec fn adjust_next(input: AdjustInput, stage: AdjustStage, outcome: Outcome) -> (
    AdjustStage,
    ActionView,
) {
    let over = AdjustStage::Over;
    let success = ActionView::Reply { content: "Prompt adjusted successfully."@, ephemeral: false };
    match stage {
        AdjustStage::Start => (AdjustStage::ConversationLocked, ActionView::LockConversation),
        AdjustStage::ConversationLocked => (AdjustStage::Deferred, ActionView::DeferEphemeral),
        AdjustStage::Deferred => match outcome {
            Outcome::Sent(Err(f)) => (over, ActionView::Finish { error: Some(f.text@) }),
            _ => (AdjustStage::Answered, ActionView::Ask { prompt: adjusted_prompt(input.content@) }),
        },
        AdjustStage::Answered => match outcome {
            Outcome::Answer(Err(f)) => (
                AdjustStage::FailureReported,
                ActionView::Reply {
                    content: "Failed to adjust the prompt: "@ + f.text@,
                    ephemeral: false,
                },
            ),
            _ => (AdjustStage::SuccessReported, success),
        },
        AdjustStage::FailureReported => match outcome {
            Outcome::Sent(Err(f)) => (over, ActionView::Finish { error: Some(f.text@) }),
            _ => (AdjustStage::SuccessReported, success),
        },
        _ => match outcome {
            Outcome::Sent(Err(f)) => (over, ActionView::Finish { error: Some(f.text@) }),
            _ => (over, ActionView::Finish { error: None }),
        },
    }
}

/// The `/adjust` command (guild only): `stage` is where the run stands and `outcome` what
/// the action it asked for last gave back (`Begin` on the first call, with stage `Start`).
pub fn adjust(input: &AdjustInput, stage: AdjustStage, outcome: Outcome) -> (res: (AdjustStage, Action))
    requires
        adjust_awaits(stage, outcome),
    ensures
        (res.0, res.1@) == adjust_next(*input, stage, outcome),
        res.1@.ends() <==> res.0 is Over,
        adjust_rank(res.0) < adjust_rank(stage),
{
    match stage {
        AdjustStage::Start => (AdjustStage::ConversationLocked, Action::LockConversation),
        AdjustStage::ConversationLocked => (AdjustStage::Deferred, Action::DeferEphemeral),
        AdjustStage::Deferred => match outcome {
            Outcome::Sent(Err(f)) => (AdjustStage::Over, finish_err(&f)),
            _ => {
                let mut prompt = input.content.clone();
                prompt.append("\n");
                prompt.append("Confirm the prompt and wait for other messages to be generated.");
                (AdjustStage::Answered, Action::Ask { prompt })
            },
        },
        AdjustStage::Answered => match outcome {
            Outcome::Answer(Err(f)) => (
                AdjustStage::FailureReported,
                reply(joined("Failed to adjust the prompt: ", f.text.as_str()), false),
            ),
            _ => (AdjustStage::SuccessReported, reply_text("Prompt adjusted successfully.", false)),
        },
        AdjustStage::FailureReported => match outcome {
            Outcome::Sent(Err(f)) => (AdjustStage::Over, finish_err(&f)),
            _ => (AdjustStage::SuccessReported, reply_text("Prompt adjusted successfully.", false)),
        },
        _ => match outcome {
            Outcome::Sent(Err(f)) => (AdjustStage::Over, finish_err(&f)),
            _ => (AdjustStage::Over, finish_ok()),
        },
    }
}

/// When ChatGPT refuses the new prompt, the refusal is reported and the success message is
/// sent after it all the same; the run ends without error when both answers go through.
pub proof fn refused_prompt_is_reported_before_the_success_answer(input: AdjustInput, refusal: crate::protocol::Failure)
    ensures
        ({
            let s1 = adjust_next(input, AdjustStage::Start, Outcome::Begin);
            let s2 = adjust_next(input, s1.0, Outcome::Done);
            let s3 = adjust_next(input, s2.0, Outcome::Sent(Ok(())));
            let s4 = adjust_next(input, s3.0, Outcome::Answer(Err(refusal)));
            let s5 = adjust_next(input, s4.0, Outcome::Sent(Ok(())));
            let s6 = adjust_next(input, s5.0, Outcome::Sent(Ok(())));
            &&& s1.1 == ActionView::LockConversation
            &&& s2.1 == ActionView::DeferEphemeral
            &&& s3.1 == ActionView::Ask { prompt: adjusted_prompt(input.content@) }
            &&& s4.1 == ActionView::Reply {
                content: "Failed to adjust the prompt: "@ + refusal.text@,
                ephemeral: false,
            }
            &&& s5.1 == ActionView::Reply { content: "Prompt adjusted successfully."@, ephemeral: false }
            &&& s6 == (AdjustStage::Over, ActionView::Finish { error: None })
        }),
{
}

/// The stages in which a run of `adjust` holds the conversation's lock: from the step that asks
/// for it to the end of the run.
pub open spec fn adjust_holds_lock(stage: AdjustStage) -> bool {
    match stage {
        AdjustStage::Start | AdjustStage::Over => false,
        _ => true,
    }
}

/// ChatGPT is prompted only while the conversation's lock is held: a step that prompts starts
/// from a stage holding the lock; the lock is taken once, by the step that asks for it, and
/// no stage comes to hold it otherwise. No action releases it: the driver holds it until
/// the run ends, so one run's exchange is never interleaved with another's.
pub proof fn adjust_prompts_only_under_the_lock(input: AdjustInput, stage: AdjustStage, outcome: Outcome)
    ensures
        ({
            let next = adjust_next(input, stage, outcome);
            &&& next.1 is Ask ==> adjust_holds_lock(stage)
            &&& next.1 is LockConversation ==> adjust_holds_lock(next.0) && !adjust_holds_lock(stage)
            &&& (adjust_holds_lock(next.0) && !adjust_holds_lock(stage)) ==> next.1 is LockConversation
            &&& adjust_holds_lock(stage) ==> adjust_holds_lock(next.0) || next.0 is Over
        }),
{
}

/// The prompt keeps the whole content, of any length: it starts with the content, it is 64
/// characters longer (a line break and the 63 of the confirmation request), and different
/// contents give different prompts.
pub proof fn adjusted_prompt_keeps_the_whole_content(content: Seq<char>, other: Seq<char>)
    ensures
        adjusted_prompt(content).take(content.len() as int) == content,
        adjusted_prompt(content).len() == content.len() + 64,
        adjusted_prompt(content) == adjusted_prompt(other) ==> content == other,
{
    reveal_strlit("\n");
    reveal_strlit("Confirm the prompt and wait for other messages to be generated.");
    assert(adjusted_prompt(content).take(content.len() as int) =~= content);
    assert(adjusted_prompt(other).len() == other.len() + 64);
    if adjusted_prompt(content) == adjusted_prompt(other) {
        assert(other.len() == content.len());
        assert(adjusted_prompt(other).take(other.len() as int) =~= other);
    }
}

} // verus!
