use bevy_xilem::ecs::EntityId;
use bevy_xilem::style::{
    hide_style_without_collapsing_layout, BoxShadow, F64Bits,
    resolve_style, resolve_style_for_classes, resolve_style_for_entity_classes, ColorStyle,
    CurrentColorStyle, F32Bits, PseudoClass, Rgba8, Selector, StyleClass, StyleNode, StyleRule,
    StyleSetter, StyleSheet, StyleTransition, UiInteractionEvent,
};
use bevy_xilem::style_sync::{
    mark_style_dirty, plan_style_targets, sync_ui_interaction_markers, InteractionMarkers,
    StyleDirtyInput, TweenPlan, TypedUiEvent,
};

fn node(id: u64) -> StyleNode {
    StyleNode::new(EntityId(id))
}

fn with_classes(mut node: StyleNode, classes: &[&str]) -> StyleNode {
    node.classes = Some(StyleClass(classes.iter().map(|c| c.to_string()).collect()));
    node
}

fn bg_setter(color: Rgba8) -> StyleSetter {
    StyleSetter {
        colors: ColorStyle {
            bg: Some(color),
            ..ColorStyle::default()
        },
        ..StyleSetter::default()
    }
}

#[test]
fn resolve_style_for_entity_classes_applies_hover_pseudo_state() {
    let mut sheet = StyleSheet::default();
    let base = Rgba8::rgb(0x11, 0x22, 0x33);
    let hover = Rgba8::rgb(0xAA, 0xBB, 0xCC);

    sheet.set_class(
        "test.button",
        StyleSetter {
            colors: ColorStyle {
                bg: Some(base),
                hover_bg: Some(hover),
                ..ColorStyle::default()
            },
            ..StyleSetter::default()
        },
    );

    let mut entity = node(1);
    entity.hovered = true;
    let resolved = resolve_style_for_entity_classes(
        Some(&sheet),
        &vec![entity],
        &vec!["test.button".to_string()],
    );

    assert_eq!(resolved.colors.bg, Some(hover));
}

#[test]
fn selector_and_rule_applies_hover_and_pressed_states() {
    let mut sheet = StyleSheet::default();

    let base = Rgba8::rgb(0x22, 0x22, 0x22);
    let hover = Rgba8::rgb(0x44, 0x44, 0x44);
    let pressed = Rgba8::rgb(0x66, 0x66, 0x66);

    sheet.add_rule(StyleRule::new(Selector::class("test.button"), bg_setter(base)));
    sheet.add_rule(StyleRule::new(
        Selector::and(vec![
            Selector::class("test.button"),
            Selector::pseudo(PseudoClass::Hovered),
        ]),
        bg_setter(hover),
    ));
    sheet.add_rule(StyleRule::new(
        Selector::and(vec![
            Selector::class("test.button"),
            Selector::pseudo(PseudoClass::Pressed),
        ]),
        bg_setter(pressed),
    ));

    let mut entity = with_classes(node(1), &["test.button"]);
    entity.hovered = true;
    entity.pressed = true;

    let resolved = resolve_style(Some(&sheet), &vec![entity]);
    assert_eq!(resolved.colors.bg, Some(pressed));
}

#[test]
fn selector_type_rule_matches_component_type() {
    let mut sheet = StyleSheet::default();
    let type_color = Rgba8::rgb(0x12, 0x34, 0x56);

    sheet.add_rule(StyleRule::new(Selector::of_type("TypeStyled"), bg_setter(type_color)));

    let mut entity = node(1);
    entity.component_names = vec!["TypeStyled".to_string()];

    let resolved = resolve_style(Some(&sheet), &vec![entity]);
    assert_eq!(resolved.colors.bg, Some(type_color));
}

#[test]
fn selector_descendant_rule_matches_nested_entity_and_updates_on_ancestor_change() {
    let mut sheet = StyleSheet::default();

    let dark_bg = Rgba8::rgb(0x20, 0x2A, 0x44);
    let light_bg = Rgba8::rgb(0xE8, 0xEE, 0xFF);

    sheet.add_rule(StyleRule::new(
        Selector::descendant(Selector::class("theme.dark"), Selector::class("gallery.target")),
        bg_setter(dark_bg),
    ));
    sheet.add_rule(StyleRule::new(
        Selector::descendant(Selector::class("theme.light"), Selector::class("gallery.target")),
        bg_setter(light_bg),
    ));

    let child = with_classes(node(2), &["gallery.target"]);
    let root = with_classes(node(1), &["theme.dark"]);
    assert_eq!(
        resolve_style(Some(&sheet), &vec![child.clone(), root]).colors.bg,
        Some(dark_bg)
    );

    // The ancestor's class changes: the child is invalidated and restyled.
    let nodes = vec![
        StyleDirtyInput {
            entity: EntityId(1),
            parent: None,
            style_changed: true,
            has_style_components: true,
            has_computed: true,
            is_dirty: false,
        },
        StyleDirtyInput {
            entity: EntityId(2),
            parent: Some(0),
            style_changed: false,
            has_style_components: true,
            has_computed: true,
            is_dirty: false,
        },
    ];
    let marks = mark_style_dirty(&nodes, Some(&sheet), false);
    assert_eq!(marks, vec![true, true]);

    let root = with_classes(node(1), &["theme.light"]);
    assert_eq!(
        resolve_style(Some(&sheet), &vec![child, root]).colors.bg,
        Some(light_bg)
    );
}

#[test]
fn sync_style_targets_restarts_tween_when_current_differs_but_target_unchanged() {
    let mut sheet = StyleSheet::default();

    let base = Rgba8::rgb(0x20, 0x2A, 0x44);
    let mid = Rgba8::rgb(0x90, 0x99, 0xB3);

    sheet.set_class(
        "test.animated",
        StyleSetter {
            colors: ColorStyle {
                bg: Some(base),
                ..ColorStyle::default()
            },
            transition: Some(StyleTransition {
                duration: F32Bits(0.2f32.to_bits()),
            }),
            ..StyleSetter::default()
        },
    );

    let entity = with_classes(node(1), &["test.animated"]);
    let resolved = resolve_style(Some(&sheet), &vec![entity]);
    let current = CurrentColorStyle {
        bg: Some(mid),
        text: None,
        border: None,
    };

    let plan = plan_style_targets(Some(resolved), Some(current), false);

    assert_eq!(plan.target.and_then(|target| target.bg), Some(base));
    assert_eq!(
        plan.tween,
        TweenPlan::Start {
            start: current,
            end: CurrentColorStyle {
                bg: Some(base),
                text: None,
                border: None
            },
        }
    );
}

#[test]
fn pointer_left_does_not_clear_pressed_marker() {
    let entity = EntityId(7);
    let mut markers = vec![InteractionMarkers {
        entity,
        hovered: true,
        pressed: true,
        style_dirty: false,
    }];

    sync_ui_interaction_markers(
        &mut markers,
        &vec![TypedUiEvent {
            entity,
            action: UiInteractionEvent::PointerLeft,
        }],
    );

    assert!(!markers[0].hovered);
    assert!(markers[0].pressed);
}

#[test]
fn unstyled_entity_plan_removes_all_style_state() {
    // An entity with no style source at all loses its cache, its colours and its
    // style-managed tween.
    let plan = plan_style_targets(None, None, false);
    assert_eq!(plan.tween, TweenPlan::Clear);
    assert!(plan.computed.is_none());
    assert!(plan.target.is_none());
}

#[test]
fn resolve_style_for_classes_applies_font_family() {
    let mut sheet = StyleSheet::default();

    sheet.set_class(
        "cjk-text",
        StyleSetter {
            font_family: Some(vec![
                "Primary Family".to_string(),
                "Fallback Family".to_string(),
            ]),
            ..StyleSetter::default()
        },
    );

    let resolved = resolve_style_for_classes(Some(&sheet), &vec!["cjk-text".to_string()]);
    assert_eq!(
        resolved.font_family,
        Some(vec![
            "Primary Family".to_string(),
            "Fallback Family".to_string()
        ])
    );
}

#[test]
fn later_class_setting_replaces_earlier_one() {
    let mut sheet = StyleSheet::default();
    sheet.set_class("card", bg_setter(Rgba8::rgb(1, 2, 3)));
    sheet.set_class("card", bg_setter(Rgba8::rgb(4, 5, 6)));
    assert_eq!(sheet.rules.len(), 1);
    assert_eq!(
        sheet.get_class("card").and_then(|setter| setter.colors.bg),
        Some(Rgba8::rgb(4, 5, 6))
    );
    assert!(sheet.get_class("missing").is_none());
}

#[test]
fn inline_colors_override_class_colors() {
    let mut sheet = StyleSheet::default();
    sheet.set_class("card", bg_setter(Rgba8::rgb(1, 2, 3)));
    let mut entity = with_classes(node(1), &["card"]);
    entity.colors = Some(ColorStyle {
        bg: Some(Rgba8::rgb(9, 9, 9)),
        ..ColorStyle::default()
    });
    assert_eq!(
        resolve_style(Some(&sheet), &vec![entity]).colors.bg,
        Some(Rgba8::rgb(9, 9, 9))
    );
}

#[test]
fn selectors_report_type_and_descendant_parts() {
    let nested = Selector::and(vec![
        Selector::class("a"),
        Selector::descendant(Selector::of_type("UiLabel"), Selector::class("b")),
    ]);
    assert!(nested.contains_type());
    assert!(nested.contains_descendant());
    assert!(!Selector::class("a").contains_type());
    let sheet = StyleSheet::default().with_rule(StyleRule::new(nested, StyleSetter::default()));
    assert!(sheet.has_type_selectors());
    assert!(sheet.has_descendant_selectors());
}

#[test]
fn unstyled_entity_resolves_to_defaults() {
    let resolved = resolve_style(None, &vec![node(3)]);
    assert_eq!(resolved.colors.bg, None);
    assert_eq!(resolved.font_family, None);
}

#[test]
fn box_shadow_cascades_and_is_dropped_when_hidden() {
    let shadow = BoxShadow {
        color: Rgba8::rgb(0, 0, 0),
        offset_x: F64Bits(0.0f64.to_bits()),
        offset_y: F64Bits(2.0f64.to_bits()),
        blur_radius: F64Bits(8.0f64.to_bits()),
    };
    let mut sheet = StyleSheet::default();
    sheet.set_class(
        "card",
        StyleSetter {
            box_shadow: Some(shadow),
            ..StyleSetter::default()
        },
    );
    let mut resolved = resolve_style(Some(&sheet), &vec![with_classes(node(1), &["card"])]);
    assert_eq!(resolved.box_shadow, Some(shadow));

    resolved.colors.bg = Some(Rgba8::rgb(1, 2, 3));
    hide_style_without_collapsing_layout(&mut resolved);
    assert_eq!(resolved.box_shadow, None);
    assert_eq!(resolved.colors.bg, Some(Rgba8 { r: 1, g: 2, b: 3, a: 0 }));
    assert_eq!(resolved.colors.text, Some(Rgba8 { r: 0, g: 0, b: 0, a: 0 }));
}
