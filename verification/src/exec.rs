//! The executor's per-step decisions.
//!
//! The executor has two surfaces: a channel executor for fire-and-forget
//! `Send` steps, and an interaction executor for the five interaction step
//! kinds. Both walk a plan strictly in order and stop at the first failure.
//! Everything except the outbound network call itself is decided here: which
//! platform action a step translates to, and which steps are faulted before
//! any call is made. The caller performs one network call per returned
//! action, in order, until the first failure.

use vstd::prelude::*;

use crate::plan::{
    ActionRowPayload, ButtonPayload, ButtonStylePayload, DiscordExecPlan, DiscordExecStep,
    MessagePayload, ModalPayload,
};

verus! {

/// The faults an executor can raise before making any platform call: a step
/// kind the surface does not implement, or a payload the platform's wire
/// format cannot carry.
#[derive(Debug, Clone, Copy, PartialEq, Eq, Structural)]
pub enum ExecError {
    UnsupportedStep,
    EphemeralNotSupportedForSend,
    EphemeralEditNotSupported,
    EditOriginalRequiresApplication,
    OpenModalRequiresApplication,
    LinkButtonRequiresUrl,
    ButtonRequiresCustomId,
}

impl ExecError {
    /// A human-readable description of the fault.
    pub fn message(&self) -> (r: &'static str)
        ensures
            r@ == self.spec_message(),
    {
        match self {
            ExecError::UnsupportedStep => "unsupported step",
            ExecError::EphemeralNotSupportedForSend => {
                "ephemeral is only supported for interaction responses"
            },
            ExecError::EphemeralEditNotSupported => "ephemeral is not supported for edit_original",
            ExecError::EditOriginalRequiresApplication => {
                "edit_original is only supported for application commands"
            },
            ExecError::OpenModalRequiresApplication => {
                "open_modal is only supported for application commands"
            },
            ExecError::LinkButtonRequiresUrl => "link button requires url",
            ExecError::ButtonRequiresCustomId => "button requires custom_id",
        }
    }

    pub open spec fn spec_message(&self) -> Seq<char> {
        match self {
            ExecError::UnsupportedStep => "unsupported step"@,
            ExecError::EphemeralNotSupportedForSend => {
                "ephemeral is only supported for interaction responses"@
            },
            ExecError::EphemeralEditNotSupported => "ephemeral is not supported for edit_original"@,
            ExecError::EditOriginalRequiresApplication => {
                "edit_original is only supported for application commands"@
            },
            ExecError::OpenModalRequiresApplication => {
                "open_modal is only supported for application commands"@
            },
            ExecError::LinkButtonRequiresUrl => "link button requires url"@,
            ExecError::ButtonRequiresCustomId => "button requires custom_id"@,
        }
    }
}

/// The two families of interaction context: an application (slash) command,
/// or a prefix-style plain-message command. Some operations are only legal
/// in the former.
#[derive(Debug, Clone, Copy, PartialEq, Eq, Structural)]
pub enum ContextKind {
    Application,
    Prefix,
}

/// One platform call the channel executor owes: post the payload to the
/// channel.
#[derive(Debug, Clone)]
pub struct SendAction {
    pub channel_id: u64,
    pub payload: MessagePayload,
}

/// One platform call the interaction executor owes. `SendReply` is the
/// documented fallback of a `FollowUp` step outside an application context:
/// it degrades to a plain reply in the channel.
#[derive(Debug, Clone)]
pub enum InteractionAction {
    Defer { ephemeral: bool },
    Respond(MessagePayload),
    EditResponse(MessagePayload),
    CreateFollowup(MessagePayload),
    SendReply(MessagePayload),
    OpenModal(ModalPayload),
}

/// A button the wire format can carry: `Link` style needs a URL, every other
/// style needs a custom identifier.
pub open spec fn spec_button_check(b: ButtonPayload) -> Result<(), ExecError> {
    match b.style {
        ButtonStylePayload::Link => if b.url is Some {
            Ok(())
        } else {
            Err(ExecError::LinkButtonRequiresUrl)
        },
        _ => if b.custom_id is Some {
            Ok(())
        } else {
            Err(ExecError::ButtonRequiresCustomId)
        },
    }
}

/// The first fault among a row's buttons, in order.
pub open spec fn spec_buttons_check(buttons: Seq<ButtonPayload>) -> Result<(), ExecError>
    decreases buttons.len(),
{
    if buttons.len() == 0 {
        Ok(())
    } else if spec_button_check(buttons[0]) is Err {
        spec_button_check(buttons[0])
    } else {
        spec_buttons_check(buttons.drop_first())
    }
}

/// The first fault within one component row; select menus and text inputs
/// carry no checked constraint.
pub open spec fn spec_row_check(row: ActionRowPayload) -> Result<(), ExecError> {
    match row {
        ActionRowPayload::Buttons(buttons) => spec_buttons_check(buttons@),
        ActionRowPayload::SelectMenu(_) => Ok(()),
        ActionRowPayload::InputText(_) => Ok(()),
    }
}

/// The first fault among a payload's component rows, in order.
pub open spec fn spec_rows_check(rows: Seq<ActionRowPayload>) -> Result<(), ExecError>
    decreases rows.len(),
{
    if rows.len() == 0 {
        Ok(())
    } else if spec_row_check(rows[0]) is Err {
        spec_row_check(rows[0])
    } else {
        spec_rows_check(rows.drop_first())
    }
}

/// The first component fault of a payload, if any.
pub open spec fn spec_payload_check(p: MessagePayload) -> Result<(), ExecError> {
    match p.components {
        Some(rows) => spec_rows_check(rows@),
        None => Ok(()),
    }
}

fn check_button(b: &ButtonPayload) -> (r: Result<(), ExecError>)
    ensures
        r == spec_button_check(*b),
{
    match &b.style {
        ButtonStylePayload::Link => {
            if b.url.is_some() {
                Ok(())
            } else {
                Err(ExecError::LinkButtonRequiresUrl)
            }
        },
        _ => {
            if b.custom_id.is_some() {
                Ok(())
            } else {
                Err(ExecError::ButtonRequiresCustomId)
            }
        },
    }
}

fn check_buttons(buttons: &Vec<ButtonPayload>) -> (r: Result<(), ExecError>)
    ensures
        r == spec_buttons_check(buttons@),
{
    proof {
        assert(buttons@.skip(0) =~= buttons@);
    }
    let n = buttons.len();
    for i in 0..n
        invariant
            n == buttons@.len(),
            spec_buttons_check(buttons@) == spec_buttons_check(buttons@.skip(i as int)),
    {
        proof {
            assert(buttons@.skip(i as int)[0] == buttons@[i as int]);
        }
        let r = check_button(&buttons[i]);
        if let Err(e) = r {
            return Err(e);
        }
        proof {
            assert(buttons@.skip(i as int).drop_first() =~= buttons@.skip(i as int + 1));
        }
    }
    proof {
        assert(buttons@.skip(n as int) =~= Seq::<ButtonPayload>::empty());
    }
    Ok(())
}

fn check_rows(rows: &Vec<ActionRowPayload>) -> (r: Result<(), ExecError>)
    ensures
        r == spec_rows_check(rows@),
{
    proof {
        assert(rows@.skip(0) =~= rows@);
    }
    let n = rows.len();
    for i in 0..n
        invariant
            n == rows@.len(),
            spec_rows_check(rows@) == spec_rows_check(rows@.skip(i as int)),
    {
        proof {
            assert(rows@.skip(i as int)[0] == rows@[i as int]);
        }
        let r = match &rows[i] {
            ActionRowPayload::Buttons(buttons) => check_buttons(buttons),
            ActionRowPayload::SelectMenu(_) => Ok(()),
            ActionRowPayload::InputText(_) => Ok(()),
        };
        if let Err(e) = r {
            return Err(e);
        }
        proof {
            assert(rows@.skip(i as int).drop_first() =~= rows@.skip(i as int + 1));
        }
    }
    proof {
        assert(rows@.skip(n as int) =~= Seq::<ActionRowPayload>::empty());
    }
    Ok(())
}

fn check_payload(p: &MessagePayload) -> (r: Result<(), ExecError>)
    ensures
        r == spec_payload_check(*p),
{
    match &p.components {
        Some(rows) => check_rows(rows),
        None => Ok(()),
    }
}

/// What the channel executor does with one step: only `Send` is recognized;
/// an ephemeral flag set to true is faulted before the post, as is the first
/// ill-formed button; anything else is an unsupported step.
pub open spec fn spec_channel_step(step: DiscordExecStep) -> Result<SendAction, ExecError> {
    match step {
        DiscordExecStep::Send { channel_id, payload } => {
            if payload.ephemeral == Some(true) {
                Err(ExecError::EphemeralNotSupportedForSend)
            } else {
                match spec_payload_check(payload) {
                    Err(e) => Err(e),
                    Ok(_) => Ok(SendAction { channel_id, payload }),
                }
            }
        },
        _ => Err(ExecError::UnsupportedStep),
    }
}

/// Decide what the channel executor owes for one step.
pub fn channel_step_action(step: DiscordExecStep) -> (r: Result<SendAction, ExecError>)
    ensures
        r == spec_channel_step(step),
{
    match step {
        DiscordExecStep::Send { channel_id, payload } => {
            if matches!(payload.ephemeral, Some(true)) {
                return Err(ExecError::EphemeralNotSupportedForSend);
            }
            if let Err(e) = check_payload(&payload) {
                return Err(e);
            }
            Ok(SendAction { channel_id, payload })
        },
        _ => Err(ExecError::UnsupportedStep),
    }
}

/// What the interaction executor does with one step: `Defer` and `Response`
/// fill the initial-response slot; `EditOriginal` cannot change visibility
/// after the fact and, like `OpenModal`, is only legal for application
/// commands; `FollowUp` degrades to a plain reply outside an application
/// context; `Send` is unsupported on this surface.
pub open spec fn spec_interaction_step(step: DiscordExecStep, kind: ContextKind) -> Result<
    InteractionAction,
    ExecError,
> {
    match step {
        DiscordExecStep::Defer(d) => Ok(InteractionAction::Defer { ephemeral: d.ephemeral }),
        DiscordExecStep::Response(p) => {
            match spec_payload_check(p) {
                Err(e) => Err(e),
                Ok(_) => Ok(InteractionAction::Respond(p)),
            }
        },
        DiscordExecStep::EditOriginal(p) => {
            if p.ephemeral == Some(true) {
                Err(ExecError::EphemeralEditNotSupported)
            } else {
                match spec_payload_check(p) {
                    Err(e) => Err(e),
                    Ok(_) => match kind {
                        ContextKind::Application => Ok(InteractionAction::EditResponse(p)),
                        ContextKind::Prefix => Err(ExecError::EditOriginalRequiresApplication),
                    },
                }
            }
        },
        DiscordExecStep::FollowUp(p) => {
            match spec_payload_check(p) {
                Err(e) => Err(e),
                Ok(_) => match kind {
                    ContextKind::Application => Ok(InteractionAction::CreateFollowup(p)),
                    ContextKind::Prefix => Ok(InteractionAction::SendReply(p)),
                },
            }
        },
        DiscordExecStep::OpenModal(m) => match kind {
            ContextKind::Application => Ok(InteractionAction::OpenModal(m)),
            ContextKind::Prefix => Err(ExecError::OpenModalRequiresApplication),
        },
        DiscordExecStep::Send { .. } => Err(ExecError::UnsupportedStep),
    }
}

/// Decide what the interaction executor owes for one step in the given
/// context family.
pub fn interaction_step_action(step: DiscordExecStep, kind: ContextKind) -> (r: Result<
    InteractionAction,
    ExecError,
>)
    ensures
        r == spec_interaction_step(step, kind),
{
    match step {
        DiscordExecStep::Defer(d) => Ok(InteractionAction::Defer { ephemeral: d.ephemeral }),
        DiscordExecStep::Response(p) => {
            if let Err(e) = check_payload(&p) {
                return Err(e);
            }
            Ok(InteractionAction::Respond(p))
        },
        DiscordExecStep::EditOriginal(p) => {
            if matches!(p.ephemeral, Some(true)) {
                return Err(ExecError::EphemeralEditNotSupported);
            }
            if let Err(e) = check_payload(&p) {
                return Err(e);
            }
            match kind {
                ContextKind::Application => Ok(InteractionAction::EditResponse(p)),
                ContextKind::Prefix => Err(ExecError::EditOriginalRequiresApplication),
            }
        },
        DiscordExecStep::FollowUp(p) => {
            if let Err(e) = check_payload(&p) {
                return Err(e);
            }
            match kind {
                ContextKind::Application => Ok(InteractionAction::CreateFollowup(p)),
                ContextKind::Prefix => Ok(InteractionAction::SendReply(p)),
            }
        },
        DiscordExecStep::OpenModal(m) => {
            match kind {
                ContextKind::Application => Ok(InteractionAction::OpenModal(m)),
                ContextKind::Prefix => Err(ExecError::OpenModalRequiresApplication),
            }
        },
        DiscordExecStep::Send { .. } => Err(ExecError::UnsupportedStep),
    }
}

/// The channel executor's whole translation of a plan: the actions of every
/// step in order, or the first step's fault.
pub open spec fn spec_channel_dispatch(steps: Seq<DiscordExecStep>) -> Result<
    Seq<SendAction>,
    ExecError,
>
    decreases steps.len(),
{
    if steps.len() == 0 {
        Ok(Seq::empty())
    } else {
        match spec_channel_step(steps[0]) {
            Err(e) => Err(e),
            Ok(a) => match spec_channel_dispatch(steps.drop_first()) {
                Err(e) => Err(e),
                Ok(rest) => Ok(seq![a] + rest),
            },
        }
    }
}

/// The interaction executor's whole translation of a plan.
pub open spec fn spec_interaction_dispatch(steps: Seq<DiscordExecStep>, kind: ContextKind) -> Result<
    Seq<InteractionAction>,
    ExecError,
>
    decreases steps.len(),
{
    if steps.len() == 0 {
        Ok(Seq::empty())
    } else {
        match spec_interaction_step(steps[0], kind) {
            Err(e) => Err(e),
            Ok(a) => match spec_interaction_dispatch(steps.drop_first(), kind) {
                Err(e) => Err(e),
                Ok(rest) => Ok(seq![a] + rest),
            },
        }
    }
}

/// Translate a whole plan for the channel executor, stopping at the first
/// faulted step. An empty plan owes no platform call at all.
pub fn channel_dispatch(plan: DiscordExecPlan) -> (r: Result<Vec<SendAction>, ExecError>)
    ensures
        r matches Ok(actions) ==> spec_channel_dispatch(plan@) == Ok::<Seq<SendAction>, ExecError>(
            actions@,
        ),
        r matches Err(e) ==> spec_channel_dispatch(plan@) == Err::<Seq<SendAction>, ExecError>(e),
{
    let ghost all = plan@;
    let mut steps = plan.into_steps();
    let mut actions: Vec<SendAction> = Vec::new();
    proof {
        assert(all.skip(0) =~= all);
        if spec_channel_dispatch(all) is Ok {
            assert(Seq::<SendAction>::empty() + spec_channel_dispatch(all)->Ok_0
                =~= spec_channel_dispatch(all)->Ok_0);
        }
    }
    let ghost mut i: int = 0;
    while steps.len() > 0
        invariant
            all == plan@,
            0 <= i <= all.len(),
            steps@ == all.skip(i),
            spec_channel_dispatch(all) == match spec_channel_dispatch(steps@) {
                Ok(rest) => Ok::<Seq<SendAction>, ExecError>(actions@ + rest),
                Err(e) => Err::<Seq<SendAction>, ExecError>(e),
            },
        decreases steps.len(),
    {
        let ghost suffix = steps@;
        let step = steps.remove(0);
        proof {
            assert(steps@ =~= suffix.drop_first());
            assert(step == suffix[0]);
        }
        match channel_step_action(step) {
            Err(e) => {
                proof {
                    assert(spec_channel_step(suffix[0]) == Err::<SendAction, ExecError>(e));
                    assert(spec_channel_dispatch(suffix) == Err::<Seq<SendAction>, ExecError>(e));
                }
                return Err(e);
            },
            Ok(a) => {
                let ghost done = actions@;
                actions.push(a);
                proof {
                    i = i + 1;
                    assert(steps@ =~= all.skip(i));
                    if spec_channel_dispatch(steps@) is Ok {
                        let rest = spec_channel_dispatch(steps@)->Ok_0;
                        assert(done + (seq![a] + rest) =~= actions@ + rest);
                    }
                }
            },
        }
    }
    proof {
        assert(steps@ =~= Seq::<DiscordExecStep>::empty());
        assert(actions@ + Seq::<SendAction>::empty() =~= actions@);
    }
    Ok(actions)
}

/// Translate a whole plan for the interaction executor, stopping at the
/// first faulted step. An empty plan owes no platform call at all.
pub fn interaction_dispatch(plan: DiscordExecPlan, kind: ContextKind) -> (r: Result<
    Vec<InteractionAction>,
    ExecError,
>)
    ensures
        r matches Ok(actions) ==> spec_interaction_dispatch(plan@, kind) == Ok::<
            Seq<InteractionAction>,
            ExecError,
        >(actions@),
        r matches Err(e) ==> spec_interaction_dispatch(plan@, kind) == Err::<
            Seq<InteractionAction>,
            ExecError,
        >(e),
{
    let ghost all = plan@;
    let mut steps = plan.into_steps();
    let mut actions: Vec<InteractionAction> = Vec::new();
    proof {
        assert(all.skip(0) =~= all);
        if spec_interaction_dispatch(all, kind) is Ok {
            assert(Seq::<InteractionAction>::empty() + spec_interaction_dispatch(all, kind)->Ok_0
                =~= spec_interaction_dispatch(all, kind)->Ok_0);
        }
    }
    let ghost mut i: int = 0;
    while steps.len() > 0
        invariant
            all == plan@,
            0 <= i <= all.len(),
            steps@ == all.skip(i),
            spec_interaction_dispatch(all, kind) == match spec_interaction_dispatch(steps@, kind) {
                Ok(rest) => Ok::<Seq<InteractionAction>, ExecError>(actions@ + rest),
                Err(e) => Err::<Seq<InteractionAction>, ExecError>(e),
            },
        decreases steps.len(),
    {
        let ghost suffix = steps@;
        let step = steps.remove(0);
        proof {
            assert(steps@ =~= suffix.drop_first());
            assert(step == suffix[0]);
        }
        match interaction_step_action(step, kind) {
            Err(e) => {
                proof {
                    assert(spec_interaction_step(suffix[0], kind) == Err::<
                        InteractionAction,
                        ExecError,
                    >(e));
                    assert(spec_interaction_dispatch(suffix, kind) == Err::<
                        Seq<InteractionAction>,
                        ExecError,
                    >(e));
                }
                return Err(e);
            },
            Ok(a) => {
                let ghost done = actions@;
                actions.push(a);
                proof {
                    i = i + 1;
                    assert(steps@ =~= all.skip(i));
                    if spec_interaction_dispatch(steps@, kind) is Ok {
                        let rest = spec_interaction_dispatch(steps@, kind)->Ok_0;
                        assert(done + (seq![a] + rest) =~= actions@ + rest);
                    }
                }
            },
        }
    }
    proof {
        assert(steps@ =~= Seq::<DiscordExecStep>::empty());
        assert(actions@ + Seq::<InteractionAction>::empty() =~= actions@);
    }
    Ok(actions)
}

/// Law: the empty plan translates to no platform call on either executor
/// surface.
pub proof fn lemma_empty_plan_executes_nothing(kind: ContextKind)
    ensures
        spec_channel_dispatch(Seq::empty()) == Ok::<Seq<SendAction>, ExecError>(Seq::empty()),
        spec_interaction_dispatch(Seq::empty(), kind) == Ok::<Seq<InteractionAction>, ExecError>(
            Seq::empty(),
        ),
{
}

} // verus!
