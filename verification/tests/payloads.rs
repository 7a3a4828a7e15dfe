use kiduku::plan::{
    ButtonPayload, ButtonStylePayload, DeferPayload, EmbedFieldPayload, EmbedPayload,
    MessagePayload, ModalPayload, SelectMenuPayload, SelectOptionPayload, TextInputPayload,
    TextInputStylePayload,
};

#[test]
fn defer_payload_visibility() {
    assert!(!DeferPayload::public().ephemeral);
    assert!(DeferPayload::ephemeral().ephemeral);
}

#[test]
fn message_payload_default_is_all_empty() {
    let p = MessagePayload::default();
    assert!(p.content.is_none());
    assert!(p.embeds.is_none());
    assert!(p.components.is_none());
    assert!(p.ephemeral.is_none());
}

#[test]
fn embed_builder_accumulates_fields() {
    let embed = EmbedPayload::new()
        .title("t".to_string())
        .description("d".to_string())
        .field(EmbedFieldPayload::new("n1".to_string(), "v1".to_string(), true))
        .field(EmbedFieldPayload::new("n2".to_string(), "v2".to_string(), false));
    assert_eq!(embed.title.as_deref(), Some("t"));
    assert_eq!(embed.description.as_deref(), Some("d"));
    assert_eq!(embed.fields.len(), 2);
    assert_eq!(embed.fields[0].name, "n1");
    assert!(embed.fields[0].inline);
    assert_eq!(embed.fields[1].value, "v2");
    assert!(!embed.fields[1].inline);
}

#[test]
fn button_constructors_fill_the_right_identifier() {
    let b = ButtonPayload::new("click".to_string(), "Click".to_string());
    assert!(matches!(b.style, ButtonStylePayload::Primary));
    assert_eq!(b.custom_id.as_deref(), Some("click"));
    assert!(b.url.is_none());
    assert!(!b.disabled);

    let l = ButtonPayload::link("https://example.test".to_string(), "Open".to_string());
    assert!(matches!(l.style, ButtonStylePayload::Link));
    assert!(l.custom_id.is_none());
    assert_eq!(l.url.as_deref(), Some("https://example.test"));
}

#[test]
fn select_menu_defaults() {
    let option = SelectOptionPayload::new("Label".to_string(), "value".to_string());
    assert!(option.description.is_none());
    assert!(!option.default);

    let menu = SelectMenuPayload::new("menu".to_string(), vec![option]);
    assert_eq!(menu.custom_id, "menu");
    assert_eq!(menu.options.len(), 1);
    assert!(menu.placeholder.is_none());
    assert!(menu.min_values.is_none());
    assert!(menu.max_values.is_none());
    assert!(!menu.disabled);
}

#[test]
fn modal_and_text_input_defaults() {
    let input = TextInputPayload::new(
        "field".to_string(),
        "Field".to_string(),
        TextInputStylePayload::Short,
    );
    assert!(input.required);
    assert!(input.placeholder.is_none());
    assert!(input.min_length.is_none());
    assert!(input.max_length.is_none());
    assert!(input.value.is_none());

    let modal = ModalPayload::new("m".to_string(), "Title".to_string(), vec![input]);
    assert_eq!(modal.custom_id, "m");
    assert_eq!(modal.title, "Title");
    assert_eq!(modal.inputs.len(), 1);
}
