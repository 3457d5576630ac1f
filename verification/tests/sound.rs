use pandemist_vehicle_elements::host_vars::{VarValue, VarWrite};
use pandemist_vehicle_elements::sound::{Sound, SoundTarget, SoundWithEnd, SoundWithStartAndEnd};

fn w(name: &str, v: bool) -> VarWrite {
    VarWrite { name: name.to_string(), value: VarValue::Bool(v) }
}

#[test]
fn sound_target_conversions() {
    assert_eq!(SoundTarget::from(1), SoundTarget::Start);
    assert_eq!(SoundTarget::from(0), SoundTarget::Stop);
    assert_eq!(SoundTarget::from(-1), SoundTarget::Stop);
    assert!(bool::from(SoundTarget::Start));
    assert!(!bool::from(SoundTarget::Stop));
    assert_eq!(SoundTarget::default(), SoundTarget::Stop);
}

#[test]
fn sound_start_stop() {
    let mut s = Sound::new_simple(Some("snd"));
    assert_eq!(s.start(), Some(w("snd", true)));
    assert_eq!(s.stop(), Some(w("snd", false)));
    assert_eq!(s.start_stop(true), Some(w("snd", true)));
    assert_eq!(s.update_target(SoundTarget::Stop), Some(w("snd", false)));
    let mut silent = Sound::new_simple(None);
    assert_eq!(silent.start(), None);
}

#[test]
fn sound_names() {
    let s = Sound::new(Some("a"), Some("b"), None);
    assert_eq!(s.name().as_deref(), Some("a"));
    assert_eq!(s.volume_name().as_deref(), Some("b"));
    assert_eq!(s.pitch_name().as_deref(), None);
}

#[test]
fn sound_with_end_follows_trigger_edges() {
    let mut s = SoundWithEnd::new("run", "end");
    assert!(s.tick(false).is_empty());
    assert_eq!(s.tick(true), vec![w("run", true), w("end", false)]);
    assert!(s.tick(true).is_empty());
    assert_eq!(s.tick(false), vec![w("run", false), w("end", true)]);
}

#[test]
fn sound_with_start_and_end_follows_trigger_edges() {
    let mut s = SoundWithStartAndEnd::new("start", "loop", "end");
    assert_eq!(s.tick(true), vec![w("start", true), w("loop", true)]);
    assert!(s.tick(true).is_empty());
    assert_eq!(s.tick(false), vec![w("end", true), w("loop", false)]);
    assert!(s.tick(false).is_empty());
}
