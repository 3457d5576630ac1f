//! The status lamps of the GT6N's video system.
//!
//! While the system is on and the video image is broken (the default: the
//! simulator provides no video image), the red lamp blinks when there is
//! voltage. Switched off, both lamps go dark. The blink phase is timed by
//! the host, which hands in whether the lamp is in its lit half.
use vstd::prelude::*;
use crate::host_vars::{VarValue, VarWrite, writes_view};
use crate::visible_flag::Visiblility;

verus! {

/// The abstract state of the video system.
pub struct VideoSystemModel {
    pub is_broken: bool,
    pub red: Seq<char>,
    pub green: Seq<char>,
}

impl VideoSystemModel {
    /// The lamp writes of a cycle.
    pub open spec fn tick_writes(self, aktiv: bool, blink_lit: bool, voltage_ok: bool) -> Seq<(Seq<char>, VarValue)> {
        if aktiv {
            if self.is_broken {
                seq![(self.red, VarValue::Bool(blink_lit && voltage_ok))]
            } else {
                Seq::empty()
            }
        } else {
            seq![(self.red, VarValue::Bool(false)), (self.green, VarValue::Bool(false))]
        }
    }
}

/// The video system's lamps.
#[derive(Debug)]
pub struct VideoSystemGt6n {
    is_broken: bool,
    red: Visiblility,
    green: Visiblility,
}

impl View for VideoSystemGt6n {
    type V = VideoSystemModel;

    closed spec fn view(&self) -> VideoSystemModel {
        VideoSystemModel { is_broken: self.is_broken, red: self.red@, green: self.green@ }
    }
}

impl VideoSystemGt6n {
    /// The lamps with the given visibility flags, showing a broken image.
    pub fn new(green_led_name: &str, red_led_name: &str) -> (res: Self)
        ensures
            res@ == (VideoSystemModel { is_broken: true, red: red_led_name@, green: green_led_name@ }),
    {
        Self { red: Visiblility::new(red_led_name), green: Visiblility::new(green_led_name), is_broken: true }
    }

    /// One cycle: whether the system is on, whether the blink is in its lit
    /// half, and whether there is voltage. Returns whether the blink timer
    /// keeps running (while on with a broken image; otherwise, switched off,
    /// it is reset) and the lamp writes.
    pub fn tick(&mut self, aktiv: bool, blink_lit: bool, voltage_ok: bool) -> (res: (bool, Vec<VarWrite>))
        ensures
            res.0 == (aktiv && old(self)@.is_broken),
            writes_view(res.1@) == old(self)@.tick_writes(aktiv, blink_lit, voltage_ok),
            final(self)@ == old(self)@,
    {
        let mut out: Vec<VarWrite> = Vec::new();
        let mut runs = false;
        if aktiv {
            if self.is_broken {
                runs = true;
                out.push(self.red.set_visbility(blink_lit && voltage_ok));
            }
        } else {
            out.push(self.red.make_invisible());
            out.push(self.green.make_invisible());
        }
        assert(writes_view(out@) =~= old(self)@.tick_writes(aktiv, blink_lit, voltage_ok));
        (runs, out)
    }
}

/// Without voltage the red lamp never lights.
pub proof fn lemma_no_voltage_no_light(m: VideoSystemModel, aktiv: bool, blink_lit: bool)
    ensures
        forall|i: int| 0 <= i < m.tick_writes(aktiv, blink_lit, false).len()
            ==> #[trigger] m.tick_writes(aktiv, blink_lit, false)[i].1 == VarValue::Bool(false),
{
}

/// Switched off, the system turns both lamps off; a working system never
/// lights its red lamp; a broken, active one lights red exactly while the
/// blink is lit and the voltage suffices, and never touches green.
pub proof fn lemma_red_lamp_means_broken(m: VideoSystemModel, aktiv: bool, blink_lit: bool, voltage_ok: bool)
    ensures
        !aktiv ==> m.tick_writes(aktiv, blink_lit, voltage_ok)
            == seq![(m.red, VarValue::Bool(false)), (m.green, VarValue::Bool(false))],
        forall|i: int| 0 <= i < m.tick_writes(aktiv, blink_lit, voltage_ok).len()
            && #[trigger] m.tick_writes(aktiv, blink_lit, voltage_ok)[i].1 == VarValue::Bool(true)
            ==> m.is_broken && aktiv && blink_lit && voltage_ok
                && m.tick_writes(aktiv, blink_lit, voltage_ok)[i].0 == m.red,
{
}

} // verus!
