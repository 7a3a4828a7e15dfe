//! The plan data model: message payloads, steps, and the ordered plan.
//!
//! A plan is an ordered, immutable-once-built sequence of steps. Payload
//! types carry no behaviour beyond construction.

use vstd::prelude::*;

verus! {

/// An ordered sequence of outbound actions, built once and thereafter
/// read-only. A plan that fails validation must never reach the executor;
/// every plan-producing operation validates its own output before returning
/// it as success.
#[derive(Debug, Clone)]
pub struct DiscordExecPlan {
    steps: Vec<DiscordExecStep>,
}

impl View for DiscordExecPlan {
    type V = Seq<DiscordExecStep>;

    closed spec fn view(&self) -> Seq<DiscordExecStep> {
        self.steps@
    }
}

impl DiscordExecPlan {
    pub fn new(steps: Vec<DiscordExecStep>) -> (r: Self)
        ensures
            r@ == steps@,
    {
        Self { steps }
    }

    pub fn steps(&self) -> (r: &[DiscordExecStep])
        ensures
            r@ == self@,
    {
        self.steps.as_slice()
    }

    pub fn into_steps(self) -> (r: Vec<DiscordExecStep>)
        ensures
            r@ == self@,
    {
        self.steps
    }
}

/// One action within a plan. Exactly these six kinds exist.
///
/// `Send` is a fire-and-forget post to a channel and needs no interaction
/// context; the other five kinds respond to an interaction.
#[derive(Debug, Clone)]
pub enum DiscordExecStep {
    Send { channel_id: u64, payload: MessagePayload },
    Defer(DeferPayload),
    Response(MessagePayload),
    EditOriginal(MessagePayload),
    FollowUp(MessagePayload),
    OpenModal(ModalPayload),
}

/// How an interaction is acknowledged when deferring: publicly or only
/// visibly to the invoking user.
#[derive(Debug, Clone, Copy)]
pub struct DeferPayload {
    pub ephemeral: bool,
}

impl DeferPayload {
    pub fn public() -> (r: Self)
        ensures
            !r.ephemeral,
    {
        Self { ephemeral: false }
    }

    pub fn ephemeral() -> (r: Self)
        ensures
            r.ephemeral,
    {
        Self { ephemeral: true }
    }
}

/// A message to post: optional text, optional embeds, optional interactive
/// component rows, and an optional ephemeral visibility hint (meaningful for
/// interaction responses only). An all-empty payload is legal here.
#[derive(Debug, Clone)]
pub struct MessagePayload {
    pub content: Option<String>,
    pub embeds: Option<Vec<EmbedPayload>>,
    pub components: Option<Vec<ActionRowPayload>>,
    pub ephemeral: Option<bool>,
}

impl Default for MessagePayload {
    fn default() -> (r: Self)
        ensures
            r.content is None,
            r.embeds is None,
            r.components is None,
            r.ephemeral is None,
    {
        Self { content: None, embeds: None, components: None, ephemeral: None }
    }
}

/// A rich-text block inside a message.
#[derive(Debug, Clone)]
pub struct EmbedPayload {
    pub title: Option<String>,
    pub description: Option<String>,
    pub fields: Vec<EmbedFieldPayload>,
}

impl Default for EmbedPayload {
    fn default() -> (r: Self)
        ensures
            r.title is None,
            r.description is None,
            r.fields@ == Seq::<EmbedFieldPayload>::empty(),
    {
        Self { title: None, description: None, fields: Vec::new() }
    }
}

impl EmbedPayload {
    pub fn new() -> (r: Self)
        ensures
            r.title is None,
            r.description is None,
            r.fields@ == Seq::<EmbedFieldPayload>::empty(),
    {
        Self::default()
    }

    pub fn title(self, title: String) -> (r: Self)
        ensures
            r.title matches Some(t) && t@ == title@,
            r.description == self.description,
            r.fields@ == self.fields@,
    {
        Self { title: Some(title), ..self }
    }

    pub fn description(self, description: String) -> (r: Self)
        ensures
            r.title == self.title,
            r.description matches Some(d) && d@ == description@,
            r.fields@ == self.fields@,
    {
        Self { description: Some(description), ..self }
    }

    pub fn field(self, field: EmbedFieldPayload) -> (r: Self)
        ensures
            r.title == self.title,
            r.description == self.description,
            r.fields@ == self.fields@.push(field),
    {
        let mut fields = self.fields;
        fields.push(field);
        Self { title: self.title, description: self.description, fields }
    }
}

/// One named field of an embed.
#[derive(Debug, Clone)]
pub struct EmbedFieldPayload {
    pub name: String,
    pub value: String,
    pub inline: bool,
}

impl EmbedFieldPayload {
    pub fn new(name: String, value: String, inline: bool) -> (r: Self)
        ensures
            r.name@ == name@,
            r.value@ == value@,
            r.inline == inline,
    {
        Self { name, value, inline }
    }
}

/// One row of interactive components: a row of buttons, a single select
/// menu, or a single text input.
#[derive(Debug, Clone)]
pub enum ActionRowPayload {
    Buttons(Vec<ButtonPayload>),
    SelectMenu(SelectMenuPayload),
    InputText(TextInputPayload),
}

/// The five button styles. `Link` buttons carry a URL instead of a custom
/// identifier.
#[derive(Debug, Clone)]
pub enum ButtonStylePayload {
    Primary,
    Secondary,
    Success,
    Danger,
    Link,
}

/// A button. `Link` style requires a URL; all other styles require a custom
/// identifier.
#[derive(Debug, Clone)]
pub struct ButtonPayload {
    pub style: ButtonStylePayload,
    pub label: Option<String>,
    pub custom_id: Option<String>,
    pub url: Option<String>,
    pub disabled: bool,
}

impl ButtonPayload {
    pub fn new(custom_id: String, label: String) -> (r: Self)
        ensures
            r.style is Primary,
            r.label matches Some(l) && l@ == label@,
            r.custom_id matches Some(c) && c@ == custom_id@,
            r.url is None,
            !r.disabled,
    {
        Self {
            style: ButtonStylePayload::Primary,
            label: Some(label),
            custom_id: Some(custom_id),
            url: None,
            disabled: false,
        }
    }

    pub fn link(url: String, label: String) -> (r: Self)
        ensures
            r.style is Link,
            r.label matches Some(l) && l@ == label@,
            r.custom_id is None,
            r.url matches Some(u) && u@ == url@,
            !r.disabled,
    {
        Self {
            style: ButtonStylePayload::Link,
            label: Some(label),
            custom_id: None,
            url: Some(url),
            disabled: false,
        }
    }
}

/// A select menu with an ordered list of options.
#[derive(Debug, Clone)]
pub struct SelectMenuPayload {
    pub custom_id: String,
    pub options: Vec<SelectOptionPayload>,
    pub placeholder: Option<String>,
    pub min_values: Option<u8>,
    pub max_values: Option<u8>,
    pub disabled: bool,
}

impl SelectMenuPayload {
    pub fn new(custom_id: String, options: Vec<SelectOptionPayload>) -> (r: Self)
        ensures
            r.custom_id@ == custom_id@,
            r.options@ == options@,
            r.placeholder is None,
            r.min_values is None,
            r.max_values is None,
            !r.disabled,
    {
        Self {
            custom_id,
            options,
            placeholder: None,
            min_values: None,
            max_values: None,
            disabled: false,
        }
    }
}

/// One option of a select menu.
#[derive(Debug, Clone)]
pub struct SelectOptionPayload {
    pub label: String,
    pub value: String,
    pub description: Option<String>,
    pub default: bool,
}

impl SelectOptionPayload {
    pub fn new(label: String, value: String) -> (r: Self)
        ensures
            r.label@ == label@,
            r.value@ == value@,
            r.description is None,
            !r.default,
    {
        Self { label, value, description: None, default: false }
    }
}

/// A modal dialog: opening one consumes an interaction's initial-response
/// slot exclusively.
#[derive(Debug, Clone)]
pub struct ModalPayload {
    pub custom_id: String,
    pub title: String,
    pub inputs: Vec<TextInputPayload>,
}

impl ModalPayload {
    pub fn new(custom_id: String, title: String, inputs: Vec<TextInputPayload>) -> (r: Self)
        ensures
            r.custom_id@ == custom_id@,
            r.title@ == title@,
            r.inputs@ == inputs@,
    {
        Self { custom_id, title, inputs }
    }
}

/// The two text-input styles.
#[derive(Debug, Clone)]
pub enum TextInputStylePayload {
    Short,
    Paragraph,
}

/// A text input inside a modal. `required` defaults to true.
#[derive(Debug, Clone)]
pub struct TextInputPayload {
    pub custom_id: String,
    pub label: String,
    pub style: TextInputStylePayload,
    pub placeholder: Option<String>,
    pub min_length: Option<u16>,
    pub max_length: Option<u16>,
    pub required: bool,
    pub value: Option<String>,
}

impl TextInputPayload {
    pub fn new(custom_id: String, label: String, style: TextInputStylePayload) -> (r: Self)
        ensures
            r.custom_id@ == custom_id@,
            r.label@ == label@,
            r.style == style,
            r.placeholder is None,
            r.min_length is None,
            r.max_length is None,
            r.required,
            r.value is None,
    {
        Self {
            custom_id,
            label,
            style,
            placeholder: None,
            min_length: None,
            max_length: None,
            required: true,
            value: None,
        }
    }
}

} // verus!
