//! The inbound-message usecase: text that matches the greeting token yields
//! a one-step plan that posts the greeting reply back to the channel; any
//! other text yields the empty plan.

use vstd::prelude::*;

use crate::greeting::{is_greeting, spec_greeting, spec_trim};
use crate::plan::{DiscordExecPlan, DiscordExecStep, MessagePayload};
use crate::validate::{
    produce_validated, spec_has_interaction, spec_has_send, spec_validate, PlanValidationError,
};

verus! {

/// The plain values that an inbound platform message is reduced to before
/// business logic sees it.
#[derive(Debug, Clone)]
pub struct MessageInput {
    pub content: String,
    pub channel_id: u64,
}

impl MessageInput {
    pub fn new(content: String, channel_id: u64) -> (r: Self)
        ensures
            r.content@ == content@,
            r.channel_id == channel_id,
    {
        Self { content, channel_id }
    }
}

/// The reply posted when the greeting token is recognized.
pub open spec fn spec_greeting_reply() -> Seq<char> {
    "おはようございます！"@
}

/// The exact plan this usecase owes for a given input: one `Send` step with
/// the greeting reply to the input's channel when the trimmed text is the
/// greeting token, and the empty plan otherwise.
pub open spec fn spec_greeting_plan(input: MessageInput, steps: Seq<DiscordExecStep>) -> bool {
    if spec_trim(input.content@) == spec_greeting() {
        &&& steps.len() == 1
        &&& steps[0] matches DiscordExecStep::Send { channel_id, payload }
        &&& channel_id == input.channel_id
        &&& payload.content matches Some(c)
        &&& c@ == spec_greeting_reply()
        &&& payload.embeds is None
        &&& payload.components is None
        &&& payload.ephemeral is None
    } else {
        steps.len() == 0
    }
}

/// Any plan this usecase owes also passes the validator.
proof fn lemma_greeting_plan_validates(input: MessageInput, steps: Seq<DiscordExecStep>)
    requires
        spec_greeting_plan(input, steps),
    ensures
        spec_validate(steps) is Ok,
{
    if spec_trim(input.content@) == spec_greeting() {
        assert(steps[0] is Send);
        assert(spec_has_send(steps));
        assert(!spec_has_interaction(steps));
    }
}

fn build_greeting_plan(input: MessageInput) -> (r: Result<DiscordExecPlan, PlanValidationError>)
    ensures
        r matches Ok(plan) && spec_greeting_plan(input, plan@),
{
    if !is_greeting(input.content.as_str()) {
        return Ok(DiscordExecPlan::new(Vec::new()));
    }
    let payload = MessagePayload {
        content: Some("おはようございます！".to_owned()),
        embeds: None,
        components: None,
        ephemeral: None,
    };
    let step = DiscordExecStep::Send { channel_id: input.channel_id, payload };
    let mut steps: Vec<DiscordExecStep> = Vec::new();
    steps.push(step);
    Ok(DiscordExecPlan::new(steps))
}

/// Build the plan for an inbound message and validate it before returning.
pub fn execute(input: MessageInput) -> (r: Result<DiscordExecPlan, PlanValidationError>)
    ensures
        r matches Ok(plan) && spec_greeting_plan(input, plan@),
{
    let r = produce_validated(build_greeting_plan, input);
    proof {
        if let Err(e) = &r {
            if exists|plan: DiscordExecPlan|
                call_ensures(build_greeting_plan, (input,), Ok(plan)) && spec_validate(plan@)
                    == Err::<(), PlanValidationError>(*e) {
                let plan = choose|plan: DiscordExecPlan|
                    call_ensures(build_greeting_plan, (input,), Ok(plan)) && spec_validate(plan@)
                        == Err::<(), PlanValidationError>(*e);
                lemma_greeting_plan_validates(input, plan@);
            }
        }
    }
    r
}

} // verus!
