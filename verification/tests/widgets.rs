use bevy_xilem::ecs::{
    EntityId, UiCheckbox, UiCheckboxChanged, UiComboBox, UiComboOption, UiDialog, UiRadioGroup,
    UiSwitch, UiTextInput, UiTreeNode,
};
use bevy_xilem::style::UiInteractionEvent;
use bevy_xilem::templates::{
    plan_template_parts, template_part_class, template_part_glyph, TemplateControl, TemplatePart,
    checkbox_template_texts, combo_template_texts, dialog_template_texts, find_template_part,
    switch_track_text, text_input_field_text,
};
use bevy_xilem::widget_actions::{apply_widget_action, WidgetChanged, WidgetComponent, WidgetUiAction};
use bevy_xilem::widgets::{button_pointer_event, key_activates_button, ButtonKey, ButtonPointerInput, ButtonPointerState};

#[test]
fn checkbox_toggles_and_reports_change() {
    let entity = EntityId(3);
    let mut component = WidgetComponent::Checkbox(UiCheckbox {
        label: "Accept".to_string(),
        checked: false,
    });
    let changed = apply_widget_action(WidgetUiAction::ToggleCheckbox { checkbox: entity }, &mut component);
    assert_eq!(
        changed,
        Some(WidgetChanged::Checkbox(UiCheckboxChanged {
            checkbox: entity,
            checked: true
        }))
    );
    assert_eq!(
        component,
        WidgetComponent::Checkbox(UiCheckbox {
            label: "Accept".to_string(),
            checked: true
        })
    );
}

#[test]
fn mismatched_action_leaves_component_alone() {
    let mut component = WidgetComponent::TreeNode(UiTreeNode::new("Root"));
    let before = component.clone();
    let changed = apply_widget_action(WidgetUiAction::ToggleSwitch { switch: EntityId(1) }, &mut component);
    assert_eq!(changed, None);
    assert_eq!(component, before);
}

#[test]
fn radio_selection_and_text_input_update_state() {
    let mut radio = WidgetComponent::RadioGroup(UiRadioGroup::new(vec!["a".to_string(), "b".to_string()]));
    apply_widget_action(WidgetUiAction::SelectRadioItem { group: EntityId(1), index: 1 }, &mut radio);
    assert!(matches!(radio, WidgetComponent::RadioGroup(ref g) if g.selected == 1));

    let mut input = WidgetComponent::TextInput(UiTextInput {
        value: String::new(),
        placeholder: "Name".to_string(),
    });
    let changed = apply_widget_action(
        WidgetUiAction::SetTextInput { input: EntityId(2), value: "Ada".to_string() },
        &mut input,
    );
    assert!(matches!(input, WidgetComponent::TextInput(ref t) if t.value == "Ada" && t.placeholder == "Name"));
    assert!(matches!(changed, Some(WidgetChanged::TextInput(ref e)) if e.value == "Ada"));
}

#[test]
fn button_click_needs_captured_hovered_primary_release() {
    let idle = ButtonPointerState { hovered: false, pressed: false };
    let down = button_pointer_event(idle, ButtonPointerInput::Down { hovered: true });
    assert!(!down.clicked);
    assert_eq!(
        down.interactions,
        vec![UiInteractionEvent::PointerEntered, UiInteractionEvent::PointerPressed]
    );

    let up = button_pointer_event(down.state, ButtonPointerInput::Up { primary: true, active: true, hovered: true });
    assert!(up.clicked);
    assert_eq!(up.interactions, vec![UiInteractionEvent::PointerReleased]);

    let outside = button_pointer_event(down.state, ButtonPointerInput::Up { primary: true, active: true, hovered: false });
    assert!(!outside.clicked);

    let leave = button_pointer_event(down.state, ButtonPointerInput::Leave);
    assert_eq!(leave.state, idle);
}

#[test]
fn enter_and_space_activate_on_release() {
    assert!(key_activates_button(true, ButtonKey::Enter));
    assert!(key_activates_button(true, ButtonKey::Space));
    assert!(!key_activates_button(false, ButtonKey::Enter));
}

#[test]
fn template_texts_follow_component_state() {
    let (indicator, label) = checkbox_template_texts(&UiCheckbox { label: "Remember".to_string(), checked: true });
    assert_eq!(indicator, "☑");
    assert_eq!(label, "Remember");

    assert_eq!(switch_track_text(&UiSwitch { on: true, label: Some("Wi-Fi".to_string()) }), "On · Wi-Fi");
    assert_eq!(switch_track_text(&UiSwitch { on: false, label: Some(String::new()) }), "Off");
    assert_eq!(
        text_input_field_text(&UiTextInput { value: "x".to_string(), placeholder: "Type".to_string() }),
        "Type"
    );

    let dialog = UiDialog::new("Title", "Body");
    assert_eq!(
        dialog_template_texts(&dialog),
        ("Title".to_string(), "Body".to_string(), "Close".to_string())
    );

    let mut combo = UiComboBox::new(vec![UiComboOption::new("a", "Alpha")]);
    combo.selected = 5;
    assert_eq!(combo_template_texts(&combo), ("Alpha".to_string(), "▾".to_string()));
    let empty = UiComboBox::new(Vec::new());
    assert_eq!(combo_template_texts(&empty).0, "Select");

    assert_eq!(find_template_part(&vec![false, true, true]), Some(1));
    assert_eq!(find_template_part(&vec![false]), None);
}

#[test]
fn template_parts_have_fixed_classes_and_glyphs() {
    assert_eq!(template_part_class(TemplatePart::DialogTitle), "overlay.dialog.title");
    assert_eq!(template_part_class(TemplatePart::CheckboxIndicator), "template.checkbox.indicator");
    assert_eq!(template_part_class(TemplatePart::ComboBoxChevron), "template.combo_box.chevron");
    assert_eq!(template_part_glyph(TemplatePart::SliderDecrease), Some("−".to_string()));
    assert_eq!(template_part_glyph(TemplatePart::SwitchThumb), Some("●".to_string()));
    assert_eq!(template_part_glyph(TemplatePart::SliderTrack), None);
}

#[test]
fn template_plan_lists_parts_in_order() {
    let parts = plan_template_parts(&TemplateControl::Slider {
        track_text: "0.50".to_string(),
    });
    assert_eq!(
        parts,
        vec![
            (TemplatePart::SliderDecrease, "−".to_string()),
            (TemplatePart::SliderTrack, "0.50".to_string()),
            (TemplatePart::SliderThumb, "●".to_string()),
            (TemplatePart::SliderIncrease, "+".to_string()),
        ]
    );
    let parts = plan_template_parts(&TemplateControl::Switch(UiSwitch {
        on: true,
        label: Some("Sound".to_string()),
    }));
    assert_eq!(parts[0], (TemplatePart::SwitchTrack, "On · Sound".to_string()));
}
