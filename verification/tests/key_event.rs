use pandemist_vehicle_elements::key_event::{ActionKind, ActionSnapshot, KeyEvent, KeyEventCab};

fn snap(kind: ActionKind, cockpit_index: Option<u8>) -> ActionSnapshot {
    ActionSnapshot { kind, cockpit_index }
}

#[test]
fn action_kinds() {
    assert!(ActionKind::JustPressed.is_just_pressed());
    assert!(ActionKind::JustPressed.is_pressed());
    assert!(ActionKind::Pressed.is_pressed());
    assert!(!ActionKind::Pressed.is_released());
    assert!(ActionKind::Inactive.is_released());
    assert!(ActionKind::JustReleased.is_released());
    assert!(ActionKind::JustReleased.is_just_released());
}

#[test]
fn cab_matching() {
    let a = KeyEvent::new(Some("Throttle"), Some(KeyEventCab::ACab));
    assert!(a.matching_cab(&snap(ActionKind::Pressed, Some(0))));
    assert!(!a.matching_cab(&snap(ActionKind::Pressed, Some(1))));
    assert!(!a.matching_cab(&snap(ActionKind::Pressed, None)));
    let any = KeyEvent::new(Some("Horn"), None);
    assert!(any.matching_cab(&snap(ActionKind::Pressed, Some(1))));
    let unnamed = KeyEvent::new(None, None);
    assert!(!unnamed.matching_cab(&snap(ActionKind::Pressed, None)));
    assert_eq!(a.name().as_deref(), Some("Throttle"));
}

#[test]
fn simulator_actions() {
    let mut k = KeyEvent::new(Some("Brake"), Some(KeyEventCab::BCab));
    assert!(k.is_just_pressed(&snap(ActionKind::JustPressed, Some(1))));
    assert!(!k.is_just_pressed(&snap(ActionKind::JustPressed, Some(0))));
    assert!(k.is_pressed(&snap(ActionKind::Pressed, Some(1))));
    assert!(k.is_just_released(&snap(ActionKind::JustReleased, Some(1))));
    assert!(k.is_released(&snap(ActionKind::Inactive, Some(1))));
}

#[test]
fn injected_presses_are_edges() {
    let idle = snap(ActionKind::Inactive, None);
    let mut k = KeyEvent::new(None, None);
    k.injection = true;
    assert!(k.is_just_pressed(&idle));
    assert!(!k.is_just_pressed(&idle));
    assert!(k.is_pressed(&idle));
    assert!(!k.is_released(&idle));
    k.injection = false;
    assert!(k.is_just_released(&idle));
    assert!(!k.is_just_released(&idle));
}
