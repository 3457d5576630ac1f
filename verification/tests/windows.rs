use pandemist_vehicle_elements::host_vars::{VarValue, VarWrite};
use pandemist_vehicle_elements::key_event::{ActionKind, ActionSnapshot, KeyEventCab};
use pandemist_vehicle_elements::windows::FoldingWindow;

fn w(name: &str, v: bool) -> VarWrite {
    VarWrite { name: name.to_string(), value: VarValue::Bool(v) }
}

fn snap(kind: ActionKind, cab: Option<u8>) -> ActionSnapshot {
    ActionSnapshot { kind, cockpit_index: cab }
}

#[test]
fn folding_window_toggles_on_press() {
    let mut win = FoldingWindow::builder("Window_1", None).snd_open("snd_win_open").snd_close("snd_win_close").build();
    assert!(!win.is_open());
    let t = win.tick(&snap(ActionKind::JustPressed, None));
    assert_eq!(t.folded_to, Some(true));
    assert_eq!(t.writes, vec![w("snd_win_open", true)]);
    assert!(win.is_open());
    // holding the key does not fold again
    let t = win.tick(&snap(ActionKind::Pressed, None));
    assert_eq!(t.folded_to, None);
    assert!(t.writes.is_empty());
    let t = win.tick(&snap(ActionKind::JustPressed, None));
    assert_eq!(t.folded_to, Some(false));
    assert_eq!(t.writes, vec![w("snd_win_close", true)]);
    assert!(!win.is_open());
}

#[test]
fn folding_window_of_a_cab_ignores_other_cab() {
    let mut win = FoldingWindow::builder("Window_A", Some(KeyEventCab::ACab)).build();
    let t = win.tick(&snap(ActionKind::JustPressed, Some(1)));
    assert_eq!(t.folded_to, None);
    let t = win.tick(&snap(ActionKind::JustPressed, Some(0)));
    // without sounds nothing is written, but the window folds
    assert_eq!(t.folded_to, Some(true));
    assert!(t.writes.is_empty());
}
