use bevy_xilem::ecs::EntityId;
use bevy_xilem::projection::{
    register_builtin_projectors, BuiltinProjector, ProjectorHandle, UiProjectorRegistry,
};
use bevy_xilem::runtime::{
    compose_roots, map_mouse_button, plan_mouse_button, ButtonStateKind, MouseButtonKind,
    PointerButtonKind, PointerDispatch, PressedButtons, RootComposition, WindowFilter,
};

#[test]
fn first_window_is_followed_and_others_ignored() {
    let mut filter = WindowFilter::new();
    assert!(filter.accepts_window(EntityId(1)));
    assert!(!filter.accepts_window(EntityId(2)));
    assert!(filter.accepts_window(EntityId(1)));
    assert_eq!(filter.active_window, Some(EntityId(1)));
}

#[test]
fn mouse_buttons_map_to_pointer_buttons() {
    assert_eq!(map_mouse_button(MouseButtonKind::Left), Some(PointerButtonKind::Primary));
    assert_eq!(map_mouse_button(MouseButtonKind::Right), Some(PointerButtonKind::Secondary));
    assert_eq!(map_mouse_button(MouseButtonKind::Middle), Some(PointerButtonKind::Auxiliary));
    assert_eq!(map_mouse_button(MouseButtonKind::Back), Some(PointerButtonKind::X1));
    assert_eq!(map_mouse_button(MouseButtonKind::Forward), Some(PointerButtonKind::X2));
    assert_eq!(map_mouse_button(MouseButtonKind::Other(9)), None);
}

#[test]
fn press_and_release_track_held_buttons() {
    let mut filter = WindowFilter::new();
    let mut pressed = PressedButtons::new();
    let window = EntityId(4);

    let down = plan_mouse_button(&mut filter, &mut pressed, window, MouseButtonKind::Left, ButtonStateKind::Pressed);
    assert_eq!(down, Some(PointerDispatch::Down(PointerButtonKind::Primary)));
    assert!(pressed.primary);

    let other = plan_mouse_button(&mut filter, &mut pressed, EntityId(5), MouseButtonKind::Left, ButtonStateKind::Released);
    assert_eq!(other, None);
    assert!(pressed.primary);

    let up = plan_mouse_button(&mut filter, &mut pressed, window, MouseButtonKind::Left, ButtonStateKind::Released);
    assert_eq!(up, Some(PointerDispatch::Up(PointerButtonKind::Primary)));
    assert_eq!(pressed, PressedButtons::new());

    let unmapped = plan_mouse_button(&mut filter, &mut pressed, window, MouseButtonKind::Other(3), ButtonStateKind::Pressed);
    assert_eq!(unmapped, None);
}

#[test]
fn roots_compose_by_count() {
    assert_eq!(compose_roots(0), RootComposition::Fallback);
    assert_eq!(compose_roots(1), RootComposition::Single);
    assert_eq!(compose_roots(3), RootComposition::Stacked);
}

#[test]
fn builtin_registry_selects_label_projector() {
    let mut registry = UiProjectorRegistry::new();
    register_builtin_projectors(&mut registry);
    assert_eq!(registry.entries.len(), 8);

    let label_entity = vec!["UiRoot".to_string(), "UiLabel".to_string()];
    assert_eq!(
        registry.select_projector(&label_entity),
        Some(ProjectorHandle::Builtin(BuiltinProjector::Label))
    );
    assert_eq!(registry.select_projector(&vec!["UiRoot".to_string()]), None);
}

#[test]
fn last_registered_projector_wins() {
    let mut registry = UiProjectorRegistry::new();
    register_builtin_projectors(&mut registry);
    registry.register_component("UiLabel", ProjectorHandle::Custom(42));
    let components = vec!["UiLabel".to_string(), "UiFlexColumn".to_string()];
    assert_eq!(registry.select_projector(&components), Some(ProjectorHandle::Custom(42)));

    registry.register_component("UiFlexColumn", ProjectorHandle::Custom(7));
    assert_eq!(registry.select_projector(&components), Some(ProjectorHandle::Custom(7)));
}
