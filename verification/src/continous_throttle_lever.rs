//! The discrete parts of a continuous throttle lever: its modes, the notch
//! sounds between snap points, and the mode an axis input selects.
//!
//! The lever position itself is a real number moved by the host. Snap
//! points are numbered from `0` (emergency brake) through `4` (neutral) to
//! `7` (full power).
use vstd::prelude::*;

verus! {

/// The mode of a continuous throttle lever.
#[derive(Debug, Clone, Copy, PartialEq, Eq, Structural)]
pub enum ThrottleMode {
    EmBrake,
    Brake,
    Neutral,
    Throttle,
}

/// The notch sound to play when the lever passes between snap points.
#[derive(Debug, Clone, Copy, PartialEq, Eq, Structural)]
pub enum NotchSound {
    /// Leaving the neutral notch.
    Neutral,
    /// Reaching an end notch.
    End,
    /// Any other notch.
    Other,
}

/// The notch sound of a move from snap point `last` to `new`: none without
/// a move; the neutral notch when leaving snap point 4; the end notch from
/// 6 to 7 and from 2 to 1; none from 7 to 6; otherwise the plain notch.
pub open spec fn notch_sound_spec(last: i32, new: i32) -> Option<NotchSound> {
    if new == last {
        None
    } else if last == 4 {
        Some(NotchSound::Neutral)
    } else if (last == 6 && new == 7) || (last == 2 && new == 1) {
        Some(NotchSound::End)
    } else if last == 7 && new == 6 {
        None
    } else {
        Some(NotchSound::Other)
    }
}

/// The notch sound of a move from snap point `last` to `new`.
pub fn notch_sound(last: i32, new: i32) -> (res: Option<NotchSound>)
    ensures
        res == notch_sound_spec(last, new),
{
    if new != last {
        if last == 4 {
            Some(NotchSound::Neutral)
        } else if (last == 6 && new == 7) || (last == 2 && new == 1) {
            Some(NotchSound::End)
        } else if !((last == 7 && new == 6) || (last == 2 && new == 1)) {
            Some(NotchSound::Other)
        } else {
            None
        }
    } else {
        None
    }
}

/// The mode an axis input selects from the current snap point: emergency
/// brake at snap point 0 or at the end of the axis, brake up to snap point
/// 3, neutral at 4, throttle above.
pub fn axis_mode(snappoint: i32, at_emergency_end: bool) -> (res: ThrottleMode)
    ensures
        res == (if snappoint == 0 || at_emergency_end {
            ThrottleMode::EmBrake
        } else if snappoint <= 3 {
            ThrottleMode::Brake
        } else if snappoint == 4 {
            ThrottleMode::Neutral
        } else {
            ThrottleMode::Throttle
        }),
{
    if snappoint == 0 || at_emergency_end {
        ThrottleMode::EmBrake
    } else if snappoint <= 3 {
        ThrottleMode::Brake
    } else if snappoint == 4 {
        ThrottleMode::Neutral
    } else {
        ThrottleMode::Throttle
    }
}

/// The mode after the brake key (see [`mode_after_brake_key`]).
pub open spec fn brake_key_mode(mode: ThrottleMode, above_min_power: bool) -> ThrottleMode {
    match mode {
        ThrottleMode::Throttle => if above_min_power { ThrottleMode::Throttle } else { ThrottleMode::Neutral },
        ThrottleMode::Neutral => ThrottleMode::Brake,
        ThrottleMode::Brake => ThrottleMode::Brake,
        ThrottleMode::EmBrake => ThrottleMode::EmBrake,
    }
}

/// The mode after the throttle key (see [`mode_after_throttle_key`]).
pub open spec fn throttle_key_mode(mode: ThrottleMode, deep_in_brake: bool) -> ThrottleMode {
    match mode {
        ThrottleMode::Throttle => ThrottleMode::Throttle,
        ThrottleMode::Neutral => ThrottleMode::Throttle,
        _ => if deep_in_brake { ThrottleMode::Brake } else { ThrottleMode::Neutral },
    }
}

/// The mode after the brake key in `mode`: throttle falls back to neutral
/// unless the lever stands above the lowest power notch (`above_min_power`);
/// neutral becomes brake; brake and emergency brake stay.
pub fn mode_after_brake_key(mode: ThrottleMode, above_min_power: bool) -> (res: ThrottleMode)
    ensures
        res == brake_key_mode(mode, above_min_power),
{
    match mode {
        ThrottleMode::Throttle => if above_min_power { ThrottleMode::Throttle } else { ThrottleMode::Neutral },
        ThrottleMode::Neutral => ThrottleMode::Brake,
        ThrottleMode::Brake => ThrottleMode::Brake,
        ThrottleMode::EmBrake => ThrottleMode::EmBrake,
    }
}

/// The mode after the throttle key in `mode`: throttle stays and neutral
/// becomes throttle; from brake or emergency brake the lever goes to brake
/// where it stands below the brake release point (`deep_in_brake`), else to
/// neutral.
pub fn mode_after_throttle_key(mode: ThrottleMode, deep_in_brake: bool) -> (res: ThrottleMode)
    ensures
        res == throttle_key_mode(mode, deep_in_brake),
{
    match mode {
        ThrottleMode::Throttle => ThrottleMode::Throttle,
        ThrottleMode::Neutral => ThrottleMode::Throttle,
        _ => if deep_in_brake { ThrottleMode::Brake } else { ThrottleMode::Neutral },
    }
}

/// The throttle key never moves the lever from a brake mode straight to
/// throttle, and the brake key never moves it from throttle straight to
/// brake: the lever always passes neutral.
pub proof fn lemma_lever_passes_neutral(mode: ThrottleMode, flag: bool)
    ensures
        (mode == ThrottleMode::Brake || mode == ThrottleMode::EmBrake)
            ==> throttle_key_mode(mode, flag) != ThrottleMode::Throttle,
        mode == ThrottleMode::Throttle ==> brake_key_mode(mode, flag) != ThrottleMode::Brake,
{
}

/// The order of the modes from emergency brake up to throttle.
pub open spec fn mode_rank(mode: ThrottleMode) -> int {
    match mode {
        ThrottleMode::EmBrake => 0,
        ThrottleMode::Brake => 1,
        ThrottleMode::Neutral => 2,
        ThrottleMode::Throttle => 3,
    }
}

/// The brake key never raises the mode, and lowers it out of neutral; the
/// throttle key never lowers it, and raises it out of neutral.
pub proof fn lemma_keys_move_mode_their_way(mode: ThrottleMode, flag: bool)
    ensures
        mode_rank(brake_key_mode(mode, flag)) <= mode_rank(mode),
        mode == ThrottleMode::Neutral ==> mode_rank(brake_key_mode(mode, flag)) < mode_rank(mode),
        mode_rank(throttle_key_mode(mode, flag)) >= mode_rank(mode),
        mode == ThrottleMode::Neutral ==> mode_rank(throttle_key_mode(mode, flag)) > mode_rank(mode),
{
}

/// A notch sounds only when the lever passes to another snap point, and
/// leaving the neutral notch always sounds the neutral notch.
pub proof fn lemma_notch_only_on_move(last: i32, new: i32)
    ensures
        new == last ==> notch_sound_spec(last, new) is None,
        last == 4 && new != 4 ==> notch_sound_spec(last, new) == Some(NotchSound::Neutral),
        notch_sound_spec(last, new) == Some(NotchSound::End) ==> (new == 7 || new == 1),
{
}

} // verus!
