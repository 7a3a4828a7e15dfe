//! The help command usecase: always a one-step plan holding the initial
//! interaction response with the command overview, never ephemeral.

use vstd::prelude::*;

use crate::plan::{DiscordExecPlan, DiscordExecStep, MessagePayload};
use crate::validate::{
    produce_validated, spec_has_send, spec_valid_first, spec_validate, PlanValidationError,
};

verus! {

/// The help text the command replies with.
pub open spec fn spec_help_reply() -> Seq<char> {
    "利用可能なコマンド: /help"@
}

/// The exact plan the help command owes: one `Response` step carrying the
/// help text, with no embeds, no components, and no ephemeral flag.
pub open spec fn spec_help_plan(steps: Seq<DiscordExecStep>) -> bool {
    &&& steps.len() == 1
    &&& steps[0] matches DiscordExecStep::Response(payload)
    &&& payload.content matches Some(c)
    &&& c@ == spec_help_reply()
    &&& payload.embeds is None
    &&& payload.components is None
    &&& payload.ephemeral is None
}

/// The plan the help command owes also passes the validator.
proof fn lemma_help_plan_validates(steps: Seq<DiscordExecStep>)
    requires
        spec_help_plan(steps),
    ensures
        spec_validate(steps) is Ok,
{
    assert(steps[0] is Response);
    assert(!spec_has_send(steps));
    assert(spec_valid_first(steps[0]));
}

fn build_help_plan(_input: ()) -> (r: Result<DiscordExecPlan, PlanValidationError>)
    ensures
        r matches Ok(plan) && spec_help_plan(plan@),
{
    let payload = MessagePayload {
        content: Some("利用可能なコマンド: /help".to_owned()),
        embeds: None,
        components: None,
        ephemeral: None,
    };
    let step = DiscordExecStep::Response(payload);
    let mut steps: Vec<DiscordExecStep> = Vec::new();
    steps.push(step);
    Ok(DiscordExecPlan::new(steps))
}

/// Build the help plan and validate it before returning.
pub fn execute() -> (r: Result<DiscordExecPlan, PlanValidationError>)
    ensures
        r matches Ok(plan) && spec_help_plan(plan@),
{
    let r = produce_validated(build_help_plan, ());
    proof {
        if let Err(e) = &r {
            if exists|plan: DiscordExecPlan|
                call_ensures(build_help_plan, ((),), Ok(plan)) && spec_validate(plan@) == Err::<
                    (),
                    PlanValidationError,
                >(*e) {
                let plan = choose|plan: DiscordExecPlan|
                    call_ensures(build_help_plan, ((),), Ok(plan)) && spec_validate(plan@) == Err::<
                        (),
                        PlanValidationError,
                    >(*e);
                lemma_help_plan_validates(plan@);
            }
        }
    }
    r
}

} // verus!
