use kiduku::greeting;
use kiduku::on_message::{self, MessageInput};
use kiduku::plan::{DiscordExecPlan, DiscordExecStep, MessagePayload};
use kiduku::help as slash_help;
use kiduku::validate::{produce_validated, validate_plan, PlanValidationError};

#[test]
fn returns_output_for_greeting() {
    let input = MessageInput::new(greeting::greeting_text().to_string(), 1);
    let output = on_message::execute(input).expect("expected plan");
    let step = output
        .into_steps()
        .into_iter()
        .next()
        .expect("expected exec step");
    match step {
        DiscordExecStep::Send {
            channel_id,
            payload,
        } => {
            assert_eq!(channel_id, 1);
            assert_eq!(payload.content.as_deref(), Some("おはようございます！"));
        }
        other => panic!("unexpected exec step: {:?}", other),
    }
}

#[test]
fn returns_empty_plan_for_other_text() {
    let input = MessageInput::new("こんばんは".to_string(), 1);
    let output = on_message::execute(input).expect("expected plan");
    assert!(output.steps().is_empty());
}

#[test]
fn test_greeting_integration_flow() {
    let message_content = "おはよう";
    let channel_id = 12345u64;

    let input = MessageInput::new(message_content.to_string(), channel_id);

    assert!(
        greeting::is_greeting(message_content),
        "Domain policy should recognize greeting"
    );

    let result = on_message::execute(input);
    assert!(result.is_ok(), "Usecase should return valid plan");
    let plan = result.unwrap();

    let steps = plan.into_steps();
    assert_eq!(steps.len(), 1, "Plan should contain exactly one step");

    match &steps[0] {
        DiscordExecStep::Send {
            channel_id: response_channel_id,
            payload,
        } => {
            assert_eq!(*response_channel_id, channel_id);
            assert_eq!(
                payload.content.as_deref(),
                Some("おはようございます！"),
                "Response message should match domain logic"
            );
        }
        other => panic!("Expected Send step, got {:?}", other),
    }
}

#[test]
fn test_non_greeting_integration_flow() {
    let message_content = "こんばんは";
    let channel_id = 12345u64;

    assert!(
        !greeting::is_greeting(message_content),
        "Domain policy should reject non-greeting"
    );

    let input = MessageInput::new(message_content.to_string(), channel_id);
    let result = on_message::execute(input);

    assert!(result.is_ok());
    let plan = result.unwrap();

    assert!(
        plan.steps().is_empty(),
        "Non-greeting should produce empty plan"
    );
}

#[test]
fn test_whitespace_handling_integration() {
    let message_content = "  おはよう  ";
    let channel_id = 12345u64;

    assert!(
        greeting::is_greeting(message_content),
        "Domain policy should handle whitespace"
    );

    let input = MessageInput::new(message_content.to_string(), channel_id);
    let result = on_message::execute(input);

    assert!(result.is_ok());
    let plan = result.unwrap();
    assert_eq!(plan.steps().len(), 1, "Whitespace should be trimmed");
}

#[test]
fn test_plan_validation_is_applied() {
    let input = MessageInput::new("おはよう".to_string(), 12345);
    let result = on_message::execute(input);

    assert!(result.is_ok(), "Valid plan should pass validation");
    assert!(validate_plan(&result.unwrap()).is_ok());
}

#[test]
fn test_help_command_plan() {
    let plan = slash_help::execute().expect("help usecase should return plan");
    let steps = plan.into_steps();

    assert_eq!(steps.len(), 1, "help should return single step");

    match &steps[0] {
        DiscordExecStep::Response(payload) => {
            assert_eq!(
                payload.content.as_deref(),
                Some("利用可能なコマンド: /help"),
                "help response content should match"
            );
            assert!(
                payload.ephemeral.is_none(),
                "help should not force ephemeral"
            );
        }
        other => panic!("Expected Response step, got {:?}", other),
    }
}

fn ill_ordered_producer(_nothing: ()) -> Result<DiscordExecPlan, PlanValidationError> {
    Ok(DiscordExecPlan::new(vec![DiscordExecStep::FollowUp(
        MessagePayload::default(),
    )]))
}

#[test]
fn produce_validated_rejects_ill_ordered_plan() {
    let result = produce_validated(ill_ordered_producer, ());
    assert_eq!(result.unwrap_err(), PlanValidationError::InvalidFirstStep);
}

fn failing_producer(_nothing: ()) -> Result<DiscordExecPlan, PlanValidationError> {
    Err(PlanValidationError::OpenModalNotExclusive)
}

#[test]
fn produce_validated_passes_producer_error_through() {
    let result = produce_validated(failing_producer, ());
    assert_eq!(
        result.unwrap_err(),
        PlanValidationError::OpenModalNotExclusive
    );
}
