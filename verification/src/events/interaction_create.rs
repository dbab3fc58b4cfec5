//! A press on a button of a posted answer: "adjust" has ChatGPT rework the message it
//! sits under; "send" is only acknowledged.

use vstd::prelude::*;
use crate::protocol::{abort_with, failure_detail, finish_err, finish_ok, Action, ActionView, Outcome};

verus! {

/// A message component interaction: the button's custom id and the message it sits under.
pub struct Component {
    pub custom_id: String,
    pub channel: u64,
    pub message: u64,
}

/// The interaction that arrived: a component interaction, or another kind.
pub struct InteractionInput {
    pub component: Option<Component>,
}

/// Where a run of `interaction_create` stands: the action whose outcome it awaits, and
/// the content of the fetched message once it is known.
pub enum InteractionStage {
    Start,
    MessageFetched,
    ConversationLocked { content: String },
    Acknowledged { content: String },
    Answered,
    Edited,
    SendAcknowledged,
    Over,
}

/// `InteractionStage` with its texts as sequences of characters.
pub enum InteractionStageView {
    Start,
    MessageFetched,
    ConversationLocked { content: Seq<char> },
    Acknowledged { content: Seq<char> },
    Answered,
    Edited,
    SendAcknowledged,
    Over,
}

impl View for InteractionStage {
    type V = InteractionStageView;

    open spec fn view(&self) -> InteractionStageView {
        match self {
            InteractionStage::Start => InteractionStageView::Start,
            InteractionStage::MessageFetched => InteractionStageView::MessageFetched,
            InteractionStage::ConversationLocked { content } => InteractionStageView::ConversationLocked {
                content: content@,
            },
            InteractionStage::Acknowledged { content } => InteractionStageView::Acknowledged {
                content: content@,
            },
            InteractionStage::Answered => InteractionStageView::Answered,
            InteractionStage::Edited => InteractionStageView::Edited,
            InteractionStage::SendAcknowledged => InteractionStageView::SendAcknowledged,
            InteractionStage::Over => InteractionStageView::Over,
        }
    }
}

pub open spec fn interaction_rank(stage: InteractionStageView) -> nat {
    match stage {
        InteractionStageView::Start => 6,
        InteractionStageView::MessageFetched => 5,
        InteractionStageView::ConversationLocked { .. } => 4,
        InteractionStageView::Acknowledged { .. } => 3,
        InteractionStageView::Answered => 2,
        InteractionStageView::Edited => 1,
        InteractionStageView::SendAcknowledged => 1,
        InteractionStageView::Over => 0,
    }
}

pub open spec fn interaction_awaits(stage: InteractionStageView, outcome: Outcome) -> bool {
    match stage {
        InteractionStageView::Start => outcome is Begin,
        InteractionStageView::MessageFetched => outcome is MessageFetched,
        InteractionStageView::ConversationLocked { .. } => outcome is Done,
        InteractionStageView::Acknowledged { .. } => outcome is Done,
        InteractionStageView::Answered => outcome is Answer,
        InteractionStageView::Edited => outcome is Edited,
        InteractionStageView::SendAcknowledged => outcome is Done,
        InteractionStageView::Over => false,
    }
}

/// One step of the handler.
pub open spec fn interaction_next(
    input: InteractionInput,
    stage: InteractionStageView,
    outcome: Outcome,
) -> (InteractionStageView, ActionView) {
    let over = InteractionStageView::Over;
    match input.component {
        None => (over, ActionView::Finish { error: None }),
        Some(c) => match stage {
            InteractionStageView::Start => if c.custom_id@ == "adjust"@ {
                (
                    InteractionStageView::MessageFetched,
                    ActionView::FetchMessage { channel: c.channel, message: c.message },
                )
            } else if c.custom_id@ == "send"@ {
                (InteractionStageView::SendAcknowledged, ActionView::AcknowledgeComponent)
            } else {
                (over, ActionView::Finish { error: None })
            },
            InteractionStageView::MessageFetched => match outcome {
                Outcome::MessageFetched(Err(f)) => (over, ActionView::Finish { error: Some(f.text@) }),
                Outcome::MessageFetched(Ok(content)) => (
                    InteractionStageView::ConversationLocked { content: content@ },
                    ActionView::LockConversation,
                ),
                _ => (over, ActionView::Finish { error: None }),
            },
            InteractionStageView::ConversationLocked { content } => (
                InteractionStageView::Acknowledged { content },
                ActionView::AcknowledgeComponent,
            ),
            InteractionStageView::Acknowledged { content } => (
                InteractionStageView::Answered,
                ActionView::Ask { prompt: content },
            ),
            InteractionStageView::Answered => match outcome {
                Outcome::Answer(Ok(answer)) => (
                    InteractionStageView::Edited,
                    ActionView::EditMessage { channel: c.channel, message: c.message, content: answer@ },
                ),
                Outcome::Answer(Err(f)) => (
                    over,
                    ActionView::Abort {
                        message: "Failed to send message to GPT"@,
                        detail: failure_detail(f),
                    },
                ),
                _ => (over, ActionView::Finish { error: None }),
            },
            InteractionStageView::Edited => match outcome {
                Outcome::Edited(Err(f)) => (over, ActionView::Finish { error: Some(f.text@) }),
                _ => (over, ActionView::Finish { error: None }),
            },
            _ => (over, ActionView::Finish { error: None }),
        },
    }
}

/// The handler of an interaction: `stage` is where the run stands and `outcome` what the
/// action it asked for last gave back (`Begin` on the first call, with stage `Start`).
pub fn interaction_create(input: &InteractionInput, stage: InteractionStage, outcome: Outcome) -> (res: (
    InteractionStage,
    Action,
))
    requires
        interaction_awaits(stage@, outcome),
    ensures
        (res.0@, res.1@) == interaction_next(*input, stage@, outcome),
        res.1@.ends() <==> res.0 is Over,
        interaction_rank(res.0@) < interaction_rank(stage@),
{
    match &input.component {
        None => (InteractionStage::Over, finish_ok()),
        Some(c) => match stage {
            InteractionStage::Start => {
                let adjust = String::from_str("adjust");
                let send = String::from_str("send");
                if c.custom_id == adjust {
                    (
                        InteractionStage::MessageFetched,
                        Action::FetchMessage { channel: c.channel, message: c.message },
                    )
                } else if c.custom_id == send {
                    (InteractionStage::SendAcknowledged, Action::AcknowledgeComponent)
                } else {
                    (InteractionStage::Over, finish_ok())
                }
            },
            InteractionStage::MessageFetched => match outcome {
                Outcome::MessageFetched(Err(f)) => (InteractionStage::Over, finish_err(&f)),
                Outcome::MessageFetched(Ok(content)) => (
                    InteractionStage::ConversationLocked { content },
                    Action::LockConversation,
                ),
                _ => (InteractionStage::Over, finish_ok()),
            },
            InteractionStage::ConversationLocked { content } => (
                InteractionStage::Acknowledged { content },
                Action::AcknowledgeComponent,
            ),
            InteractionStage::Acknowledged { content } => (
                InteractionStage::Answered,
                Action::Ask { prompt: content },
            ),
            InteractionStage::Answered => match outcome {
                Outcome::Answer(Ok(answer)) => (
                    InteractionStage::Edited,
                    Action::EditMessage { channel: c.channel, message: c.message, content: answer },
                ),
                Outcome::Answer(Err(f)) => (
                    InteractionStage::Over,
                    abort_with("Failed to send message to GPT", &f),
                ),
                _ => (InteractionStage::Over, finish_ok()),
            },
            InteractionStage::Edited => match outcome {
                Outcome::Edited(Err(f)) => (InteractionStage::Over, finish_err(&f)),
                _ => (InteractionStage::Over, finish_ok()),
            },
            _ => (InteractionStage::Over, finish_ok()),
        },
    }
}

/// A press on an "adjust" button whose calls go through: the message under the button is
/// fetched, its content is sent to ChatGPT under the conversation's lock after the press is
/// acknowledged, and the message's content is replaced by the answer.
pub proof fn adjust_button_rewrites_its_message(input: InteractionInput, content: String, answer: String)
    requires
        input.component matches Some(c) && c.custom_id@ == "adjust"@,
    ensures
        ({
            let c = input.component.unwrap();
            let s1 = interaction_next(input, InteractionStageView::Start, Outcome::Begin);
            let s2 = interaction_next(input, s1.0, Outcome::MessageFetched(Ok(content)));
            let s3 = interaction_next(input, s2.0, Outcome::Done);
            let s4 = interaction_next(input, s3.0, Outcome::Done);
            let s5 = interaction_next(input, s4.0, Outcome::Answer(Ok(answer)));
            let s6 = interaction_next(input, s5.0, Outcome::Edited(Ok(())));
            &&& s1.1 == ActionView::FetchMessage { channel: c.channel, message: c.message }
            &&& s2.1 == ActionView::LockConversation
            &&& s3.1 == ActionView::AcknowledgeComponent
            &&& s4.1 == ActionView::Ask { prompt: content@ }
            &&& s5.1 == ActionView::EditMessage { channel: c.channel, message: c.message, content: answer@ }
            &&& s6 == (InteractionStageView::Over, ActionView::Finish { error: None })
        }),
{
}

/// The stages in which a run of `interaction_create` holds the conversation's lock: from the step that asks
/// for it to the end of the run.
pub open spec fn interaction_holds_lock(stage: InteractionStageView) -> bool {
    match stage {
        InteractionStageView::ConversationLocked { .. } | InteractionStageView::Acknowledged { .. }
        | InteractionStageView::Answered | InteractionStageView::Edited => true,
        _ => false,
    }
}

/// ChatGPT is prompted only while the conversation's lock is held: a step that prompts starts
/// from a stage holding the lock; the lock is taken once, by the step that asks for it, and
/// no stage comes to hold it otherwise. No action releases it: the driver holds it until
/// the run ends, so one run's exchange is never interleaved with another's.
pub proof fn interaction_prompts_only_under_the_lock(input: InteractionInput, stage: InteractionStageView, outcome: Outcome)
    ensures
        ({
            let next = interaction_next(input, stage, outcome);
            &&& next.1 is Ask ==> interaction_holds_lock(stage)
            &&& next.1 is LockConversation ==> interaction_holds_lock(next.0) && !interaction_holds_lock(stage)
            &&& (interaction_holds_lock(next.0) && !interaction_holds_lock(stage)) ==> next.1 is LockConversation
            &&& interaction_holds_lock(stage) ==> interaction_holds_lock(next.0) || next.0 is Over
        }),
{
}

} // verus!
