//! The plan validator: a pure check of a plan against the platform's
//! interaction-ordering rules.
//!
//! An interaction has exactly one initial-response slot, filled by `Defer`,
//! `Response`, or `OpenModal`; after it only edits and follow-ups are legal,
//! and a modal consumes the slot exclusively. `Send` steps need no
//! interaction context and may not be mixed with interaction steps.

use vstd::prelude::*;

use crate::plan::{DiscordExecPlan, DiscordExecStep};

verus! {

/// The structural defects a plan can have. Validation always runs before
/// execution, so none of these ever reaches the network layer.
#[derive(Debug, Clone, PartialEq, Eq, Structural)]
pub enum PlanValidationError {
    MixedSendAndInteraction,
    InvalidFirstStep,
    ResponseNotFirst,
    DeferNotFirst,
    DeferAndResponse,
    OpenModalNotExclusive,
}

impl PlanValidationError {
    /// A human-readable description of the defect.
    pub fn message(&self) -> (r: &'static str)
        ensures
            r@ == self.spec_message(),
    {
        match self {
            PlanValidationError::MixedSendAndInteraction => {
                "Send cannot be mixed with interaction steps"
            },
            PlanValidationError::InvalidFirstStep => {
                "interaction plan must start with Defer, Response, or OpenModal"
            },
            PlanValidationError::ResponseNotFirst => "Response must be the first step",
            PlanValidationError::DeferNotFirst => "Defer must be the first step",
            PlanValidationError::DeferAndResponse => "Defer and Response cannot both appear",
            PlanValidationError::OpenModalNotExclusive => "OpenModal must be the only step",
        }
    }

    pub open spec fn spec_message(&self) -> Seq<char> {
        match self {
            PlanValidationError::MixedSendAndInteraction => {
                "Send cannot be mixed with interaction steps"@
            },
            PlanValidationError::InvalidFirstStep => {
                "interaction plan must start with Defer, Response, or OpenModal"@
            },
            PlanValidationError::ResponseNotFirst => "Response must be the first step"@,
            PlanValidationError::DeferNotFirst => "Defer must be the first step"@,
            PlanValidationError::DeferAndResponse => "Defer and Response cannot both appear"@,
            PlanValidationError::OpenModalNotExclusive => "OpenModal must be the only step"@,
        }
    }
}

/// Does the plan hold a channel-targeted `Send` step anywhere?
pub open spec fn spec_has_send(steps: Seq<DiscordExecStep>) -> bool {
    exists|i: int| 0 <= i < steps.len() && steps[i] is Send
}

/// Does the plan hold an interaction step (any kind but `Send`) anywhere?
pub open spec fn spec_has_interaction(steps: Seq<DiscordExecStep>) -> bool {
    exists|i: int| 0 <= i < steps.len() && !(steps[i] is Send)
}

pub open spec fn spec_has_response_after_first(steps: Seq<DiscordExecStep>) -> bool {
    exists|i: int| 1 <= i < steps.len() && steps[i] is Response
}

pub open spec fn spec_has_defer_after_first(steps: Seq<DiscordExecStep>) -> bool {
    exists|i: int| 1 <= i < steps.len() && steps[i] is Defer
}

pub open spec fn spec_has_defer(steps: Seq<DiscordExecStep>) -> bool {
    exists|i: int| 0 <= i < steps.len() && steps[i] is Defer
}

pub open spec fn spec_has_response(steps: Seq<DiscordExecStep>) -> bool {
    exists|i: int| 0 <= i < steps.len() && steps[i] is Response
}

pub open spec fn spec_has_open_modal(steps: Seq<DiscordExecStep>) -> bool {
    exists|i: int| 0 <= i < steps.len() && steps[i] is OpenModal
}

/// May a step fill an interaction's initial-response slot?
pub open spec fn spec_valid_first(step: DiscordExecStep) -> bool {
    step is Defer || step is Response || step is OpenModal
}

/// What `validate_plan` returns, rule by rule in order of precedence:
/// an empty plan is valid; mixing `Send` with interaction steps is rejected;
/// a plan of only `Send` steps is valid; an interaction plan must open its
/// initial-response slot first, may hold `Response` and `Defer` only at
/// position 0 and never both, and a modal must be the plan's only step.
pub open spec fn spec_validate(steps: Seq<DiscordExecStep>) -> Result<(), PlanValidationError> {
    if steps.len() == 0 {
        Ok(())
    } else if spec_has_send(steps) && spec_has_interaction(steps) {
        Err(PlanValidationError::MixedSendAndInteraction)
    } else if spec_has_send(steps) {
        Ok(())
    } else if !spec_valid_first(steps[0]) {
        Err(PlanValidationError::InvalidFirstStep)
    } else if spec_has_response_after_first(steps) {
        Err(PlanValidationError::ResponseNotFirst)
    } else if spec_has_defer_after_first(steps) {
        Err(PlanValidationError::DeferNotFirst)
    } else if spec_has_defer(steps) && spec_has_response(steps) {
        Err(PlanValidationError::DeferAndResponse)
    } else if steps.len() > 1 && spec_has_open_modal(steps) {
        Err(PlanValidationError::OpenModalNotExclusive)
    } else {
        Ok(())
    }
}

/// Check a plan against the ordering rules. Pure; no side effects.
pub fn validate_plan(plan: &DiscordExecPlan) -> (r: Result<(), PlanValidationError>)
    ensures
        r == spec_validate(plan@),
{
    validate_steps(plan.steps())
}

fn has_send_step(steps: &[DiscordExecStep]) -> (r: bool)
    ensures
        r == spec_has_send(steps@),
{
    let n = steps.len();
    for i in 0..n
        invariant
            n == steps@.len(),
            forall|j: int| 0 <= j < i ==> !(steps@[j] is Send),
    {
        if matches!(steps[i], DiscordExecStep::Send { .. }) {
            return true;
        }
    }
    false
}

fn has_interaction_step(steps: &[DiscordExecStep]) -> (r: bool)
    ensures
        r == spec_has_interaction(steps@),
{
    let n = steps.len();
    for i in 0..n
        invariant
            n == steps@.len(),
            forall|j: int| 0 <= j < i ==> steps@[j] is Send,
    {
        if !matches!(steps[i], DiscordExecStep::Send { .. }) {
            return true;
        }
    }
    false
}

fn has_response_from(steps: &[DiscordExecStep], from: usize) -> (r: bool)
    ensures
        r == exists|i: int| from <= i < steps@.len() && steps@[i] is Response,
{
    let n = steps.len();
    let mut i = from;
    while i < n
        invariant
            n == steps@.len(),
            from <= i,
            forall|j: int| from <= j < i ==> !(steps@[j] is Response),
        decreases n - i,
    {
        if matches!(steps[i], DiscordExecStep::Response(_)) {
            return true;
        }
        i = i + 1;
    }
    false
}

fn has_defer_from(steps: &[DiscordExecStep], from: usize) -> (r: bool)
    ensures
        r == exists|i: int| from <= i < steps@.len() && steps@[i] is Defer,
{
    let n = steps.len();
    let mut i = from;
    while i < n
        invariant
            n == steps@.len(),
            from <= i,
            forall|j: int| from <= j < i ==> !(steps@[j] is Defer),
        decreases n - i,
    {
        if matches!(steps[i], DiscordExecStep::Defer(_)) {
            return true;
        }
        i = i + 1;
    }
    false
}

fn has_open_modal_step(steps: &[DiscordExecStep]) -> (r: bool)
    ensures
        r == spec_has_open_modal(steps@),
{
    let n = steps.len();
    for i in 0..n
        invariant
            n == steps@.len(),
            forall|j: int| 0 <= j < i ==> !(steps@[j] is OpenModal),
    {
        if matches!(steps[i], DiscordExecStep::OpenModal(_)) {
            return true;
        }
    }
    false
}

/// Check an ordered step sequence against the ordering rules.
pub fn validate_steps(steps: &[DiscordExecStep]) -> (r: Result<(), PlanValidationError>)
    ensures
        r == spec_validate(steps@),
{
    if steps.len() == 0 {
        return Ok(());
    }

    let has_send = has_send_step(steps);
    let has_interaction = has_interaction_step(steps);

    if has_send && has_interaction {
        return Err(PlanValidationError::MixedSendAndInteraction);
    }

    if has_send {
        return Ok(());
    }

    let first_ok = matches!(
        &steps[0],
        DiscordExecStep::Defer(_) | DiscordExecStep::Response(_) | DiscordExecStep::OpenModal(_)
    );
    if !first_ok {
        return Err(PlanValidationError::InvalidFirstStep);
    }

    if has_response_from(steps, 1) {
        return Err(PlanValidationError::ResponseNotFirst);
    }

    if has_defer_from(steps, 1) {
        return Err(PlanValidationError::DeferNotFirst);
    }

    let has_defer = has_defer_from(steps, 0);
    let has_response = has_response_from(steps, 0);
    if has_defer && has_response {
        return Err(PlanValidationError::DeferAndResponse);
    }

    if steps.len() > 1 && has_open_modal_step(steps) {
        return Err(PlanValidationError::OpenModalNotExclusive);
    }

    Ok(())
}

/// Runs a plan-producing operation and threads its successful result through
/// the validator: a plan that fails validation never escapes as success.
/// Every plan-producing operation is wrapped in this uniformly, so the
/// executor only ever sees validated plans.
pub fn produce_validated<A, F: FnOnce(A) -> Result<DiscordExecPlan, PlanValidationError>>(
    producer: F,
    input: A,
) -> (r: Result<DiscordExecPlan, PlanValidationError>)
    requires
        call_requires(producer, (input,)),
    ensures
        r matches Ok(plan) ==> call_ensures(producer, (input,), Ok(plan)) && spec_validate(plan@)
            is Ok,
        r matches Err(e) ==> call_ensures(producer, (input,), Err(e)) || (exists|
            plan: DiscordExecPlan,
        |
            call_ensures(producer, (input,), Ok(plan)) && spec_validate(plan@) == Err::<
                (),
                PlanValidationError,
            >(e)),
{
    match producer(input) {
        Ok(plan) => {
            match validate_plan(&plan) {
                Ok(_) => Ok(plan),
                Err(e) => {
                    proof {
                        assert(call_ensures(producer, (input,), Ok(plan)) && spec_validate(plan@)
                            == Err::<(), PlanValidationError>(e));
                    }
                    Err(e)
                },
            }
        },
        Err(e) => Err(e),
    }
}

/// Law: a plan composed only of `Send` steps is valid, in any order and any
/// count.
pub proof fn lemma_all_send_plans_valid(steps: Seq<DiscordExecStep>)
    requires
        forall|i: int| 0 <= i < steps.len() ==> steps[i] is Send,
    ensures
        spec_validate(steps) == Ok::<(), PlanValidationError>(()),
{
}

/// Law: a plan holding both a `Send` step and an interaction step is
/// rejected as `MixedSendAndInteraction`.
pub proof fn lemma_mixed_plans_rejected(steps: Seq<DiscordExecStep>)
    requires
        spec_has_send(steps),
        spec_has_interaction(steps),
    ensures
        spec_validate(steps) == Err::<(), PlanValidationError>(
            PlanValidationError::MixedSendAndInteraction,
        ),
{
}

/// Law: an interaction-only plan whose first step is not `Defer`,
/// `Response`, or `OpenModal` is rejected as `InvalidFirstStep`.
pub proof fn lemma_invalid_first_step_rejected(steps: Seq<DiscordExecStep>)
    requires
        steps.len() > 0,
        !spec_has_send(steps),
        !spec_valid_first(steps[0]),
    ensures
        spec_validate(steps) == Err::<(), PlanValidationError>(
            PlanValidationError::InvalidFirstStep,
        ),
{
}

/// Law: the empty plan always validates successfully.
pub proof fn lemma_empty_plan_valid()
    ensures
        spec_validate(Seq::<DiscordExecStep>::empty()) == Ok::<(), PlanValidationError>(()),
{
}

} // verus!
