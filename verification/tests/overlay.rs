use bevy_xilem::ecs::{OverlayPlacement, OverlayStack};
use bevy_xilem::overlay::{overlay_defaults, plan_outside_click, sync_overlay_stack};
use bevy_xilem::pointer::{plan_pointer_bubbling, BubbleStep, PointerPathNode};
use bevy_xilem::ecs::{EntityId, UiComboBox, UiComboOption};
use bevy_xilem::overlay::{
    needs_overlay_root, overlay_entities_to_reparent, plan_overlay_action, OverlayActionTarget,
    OverlayCommand, OverlayUiAction, ParentedEntity,
};

fn target() -> OverlayActionTarget {
    OverlayActionTarget {
        exists: true,
        is_dialog: false,
        is_dropdown: false,
        combo: None,
        anchored_to: None,
        anchor_combo: None,
        open_dropdowns: Vec::new(),
    }
}

/// Applies commands to a single combo box and the set of live dropdowns.
fn apply(
    commands: &[OverlayCommand],
    combo_entity: EntityId,
    combo: &mut UiComboBox,
    dropdowns: &mut Vec<EntityId>,
    next_id: &mut u64,
) {
    for command in commands {
        match command {
            OverlayCommand::SpawnDropdown { anchor } => {
                assert_eq!(*anchor, combo_entity);
                dropdowns.push(EntityId(*next_id));
                *next_id += 1;
            }
            OverlayCommand::SetComboOpen { combo: target, open } => {
                assert_eq!(*target, combo_entity);
                combo.is_open = *open;
            }
            OverlayCommand::SetComboSelected { combo: target, selected } => {
                assert_eq!(*target, combo_entity);
                combo.selected = *selected;
            }
            OverlayCommand::CloseDropdown(dropdown) => {
                dropdowns.retain(|d| d != dropdown);
                combo.is_open = false;
            }
            OverlayCommand::DespawnTree(entity) => dropdowns.retain(|d| d != entity),
            OverlayCommand::EmitComboChanged(_) => {}
        }
    }
}

#[test]
fn ensure_overlay_root_spawns_once() {
    let mut overlay_roots = 0;
    for _ in 0..2 {
        if needs_overlay_root(overlay_roots > 0, true) {
            overlay_roots += 1;
        }
    }
    assert_eq!(overlay_roots, 1);
    assert!(!needs_overlay_root(false, false));
}

#[test]
fn overlay_actions_toggle_and_select_combo_box() {
    let combo_entity = EntityId(10);
    let mut combo = UiComboBox::new(vec![
        UiComboOption::new("one", "One"),
        UiComboOption::new("two", "Two"),
    ]);
    let mut dropdowns = Vec::new();
    let mut next_id = 100;

    let toggle_target = OverlayActionTarget {
        combo: Some(combo.clone()),
        ..target()
    };
    let commands = plan_overlay_action(combo_entity, OverlayUiAction::ToggleCombo, &toggle_target);
    apply(&commands, combo_entity, &mut combo, &mut dropdowns, &mut next_id);

    assert_eq!(dropdowns.len(), 1);
    let dropdown = dropdowns[0];
    assert!(combo.is_open);

    let select_target = OverlayActionTarget {
        is_dropdown: true,
        anchored_to: Some(combo_entity),
        anchor_combo: Some(combo.clone()),
        ..target()
    };
    let commands = plan_overlay_action(
        dropdown,
        OverlayUiAction::SelectComboItem { index: 1 },
        &select_target,
    );
    apply(&commands, combo_entity, &mut combo, &mut dropdowns, &mut next_id);

    assert_eq!(combo.selected, 1);
    assert!(!combo.is_open);
    assert!(!dropdowns.contains(&dropdown));
    assert!(commands.iter().any(|command| matches!(
        command,
        OverlayCommand::EmitComboChanged(changed) if changed.selected == 1 && changed.value == "two"
    )));
}

#[test]
fn reparent_overlay_entities_moves_dialog_to_overlay_root() {
    let overlay_root = EntityId(1);
    let dialog = EntityId(2);
    let moved = overlay_entities_to_reparent(
        &vec![ParentedEntity {
            entity: dialog,
            parent: None,
        }],
        overlay_root,
    );
    assert_eq!(moved, vec![dialog]);

    let again = overlay_entities_to_reparent(
        &vec![ParentedEntity {
            entity: dialog,
            parent: Some(overlay_root),
        }],
        overlay_root,
    );
    assert!(again.is_empty());
}

#[test]
fn overlay_action_dismiss_dialog_despawns_dialog() {
    let dialog = EntityId(5);
    let commands = plan_overlay_action(
        dialog,
        OverlayUiAction::DismissDialog,
        &OverlayActionTarget {
            is_dialog: true,
            ..target()
        },
    );
    assert_eq!(commands, vec![OverlayCommand::DespawnTree(dialog)]);
}

#[test]
fn selection_beyond_options_is_clamped() {
    let combo_entity = EntityId(10);
    let combo = UiComboBox::new(vec![UiComboOption::new("only", "Only")]);
    let dropdown = EntityId(11);
    let commands = plan_overlay_action(
        dropdown,
        OverlayUiAction::SelectComboItem { index: 9 },
        &OverlayActionTarget {
            anchored_to: Some(combo_entity),
            anchor_combo: Some(combo),
            ..target()
        },
    );
    assert_eq!(
        commands[0],
        OverlayCommand::SetComboSelected {
            combo: combo_entity,
            selected: 0
        }
    );
    assert_eq!(commands[2], OverlayCommand::CloseDropdown(dropdown));
}

#[test]
fn actions_on_missing_entities_do_nothing() {
    let commands = plan_overlay_action(
        EntityId(3),
        OverlayUiAction::DismissDropdown,
        &OverlayActionTarget {
            exists: false,
            is_dropdown: true,
            ..target()
        },
    );
    assert!(commands.is_empty());
}

struct Rect {
    min: (f32, f32),
    max: (f32, f32),
}

impl Rect {
    fn from_corners(a: (f32, f32), b: (f32, f32)) -> Self {
        Rect {
            min: (a.0.min(b.0), a.1.min(b.1)),
            max: (a.0.max(b.0), a.1.max(b.1)),
        }
    }

    fn contains(&self, p: (f32, f32)) -> bool {
        p.0 >= self.min.0 && p.0 <= self.max.0 && p.1 >= self.min.1 && p.1 <= self.max.1
    }
}

#[test]
fn ensure_overlay_defaults_assigns_dialog_and_dropdown_configs() {
    let combo_entity = EntityId(1);
    let combo = UiComboBox::new(vec![UiComboOption::new("v", "V")]);

    let (dialog_config, dialog_state) =
        overlay_defaults(true, false, None, None).expect("dialog should receive overlay config");
    assert_eq!(dialog_config.placement, OverlayPlacement::Center);
    assert_eq!(dialog_config.anchor, None);
    assert!(!dialog_config.auto_flip);
    assert!(dialog_state.is_modal);
    assert_eq!(dialog_state.anchor, None);

    let (dropdown_config, dropdown_state) =
        overlay_defaults(false, true, Some(combo_entity), Some(&combo))
            .expect("dropdown should receive overlay config");
    assert_eq!(dropdown_config.placement, OverlayPlacement::BottomStart);
    assert_eq!(dropdown_config.anchor, Some(combo_entity));
    assert!(dropdown_config.auto_flip);
    assert!(!dropdown_state.is_modal);
    assert_eq!(dropdown_state.anchor, Some(combo_entity));

    assert_eq!(overlay_defaults(false, false, None, None), None);
}

#[test]
fn native_dismiss_overlays_on_click_closes_only_outside_bounds_and_anchor() {
    let dropdown = EntityId(5);
    let mut stack = OverlayStack::default();
    sync_overlay_stack(&mut stack, &vec![dropdown]);

    let content = Rect::from_corners((100.0, 100.0), (200.0, 200.0));
    let trigger = Rect::from_corners((220.0, 100.0), (300.0, 130.0));

    let cursor = (240.0, 120.0);
    assert_eq!(
        plan_outside_click(&stack, content.contains(cursor), trigger.contains(cursor)),
        None
    );

    let cursor = (500.0, 500.0);
    assert_eq!(
        plan_outside_click(&stack, content.contains(cursor), trigger.contains(cursor)),
        Some(dropdown)
    );
}

#[test]
fn native_dismiss_overlays_on_click_closes_nested_topmost_overlay_first() {
    let dialog = EntityId(1);
    let dropdown = EntityId(3);
    let mut stack = OverlayStack::default();
    sync_overlay_stack(&mut stack, &vec![dialog, dropdown]);
    assert_eq!(stack.active_overlays, vec![dialog, dropdown]);

    let dialog_content = Rect::from_corners((150.0, 120.0), (650.0, 500.0));
    let dropdown_content = Rect::from_corners((200.0, 220.0), (360.0, 340.0));
    let dropdown_trigger = Rect::from_corners((180.0, 160.0), (340.0, 196.0));

    // Inside the dialog but outside the dropdown: only the dropdown closes.
    let cursor = (500.0, 180.0);
    let closed = plan_outside_click(
        &stack,
        dropdown_content.contains(cursor),
        dropdown_trigger.contains(cursor),
    );
    assert_eq!(closed, Some(dropdown));
    sync_overlay_stack(&mut stack, &vec![dialog]);
    assert_eq!(stack.active_overlays, vec![dialog]);

    // Outside the dialog: the dialog closes next.
    let cursor = (60.0, 60.0);
    let closed = plan_outside_click(&stack, dialog_content.contains(cursor), false);
    assert_eq!(closed, Some(dialog));
    sync_overlay_stack(&mut stack, &vec![]);
    assert!(stack.active_overlays.is_empty());
}

#[test]
fn overlay_stack_prunes_stale_entries_and_keeps_order() {
    let mut stack = OverlayStack {
        active_overlays: vec![EntityId(1), EntityId(2), EntityId(3)],
    };
    sync_overlay_stack(&mut stack, &vec![EntityId(4), EntityId(3), EntityId(1), EntityId(4)]);
    assert_eq!(stack.active_overlays, vec![EntityId(1), EntityId(3), EntityId(4)]);
}

#[test]
fn pointer_hits_bubble_to_parent_until_consumed() {
    let root = EntityId(1);
    let parent = EntityId(2);
    let child = EntityId(3);

    let bubbled = plan_pointer_bubbling(&vec![
        PointerPathNode {
            entity: child,
            stops_propagation: false,
        },
        PointerPathNode {
            entity: parent,
            stops_propagation: true,
        },
        PointerPathNode {
            entity: root,
            stops_propagation: false,
        },
    ]);

    assert_eq!(bubbled.len(), 2);
    assert_eq!(bubbled[0].current_target, child);
    assert!(!bubbled[0].consumed);
    assert_eq!(bubbled[1].current_target, parent);
    assert!(bubbled[1].consumed);
    assert_eq!(
        bubbled,
        vec![
            BubbleStep {
                current_target: child,
                consumed: false
            },
            BubbleStep {
                current_target: parent,
                consumed: true
            },
        ]
    );
}
