use crate::profile::{BaseEffects, Profile};
use vstd::prelude::*;

verus! {

/// One primitive operation of the device handle.
#[derive(Clone, Copy, Debug, PartialEq, Eq)]
pub enum DeviceCall {
    SetEffect(BaseEffects),
    SetSpeed(u8),
    SetBrightness(u8),
    SetColorsTo([u8; 12]),
    /// Fade to the colours over `steps` sub-steps, pausing
    /// `delay_between_steps` milliseconds after each.
    TransitionColorsTo { rgb_array: [u8; 12], steps: u8, delay_between_steps: u64 },
}

/// The animation loops that render frames themselves rather than letting the
/// device run a built-in mode.
#[derive(Clone, Copy, Debug, PartialEq, Eq)]
pub enum Driver {
    Lightning(Profile),
    AmbientLight { fps: u8 },
    Swipe(Profile),
    Disco(Profile),
    Christmas,
    Fade(Profile),
    Temperature,
    Ripple(Profile),
}

/// What the device shows, as far as its primitive operations set it.
#[derive(Clone, Copy, Debug, PartialEq, Eq)]
pub struct DeviceState {
    pub effect: BaseEffects,
    pub speed: u8,
    pub brightness: u8,
    pub colors: [u8; 12],
}

/// The device state after one primitive operation; a transition ends on its
/// target colours.
pub open spec fn apply_call(s: DeviceState, c: DeviceCall) -> DeviceState {
    match c {
        DeviceCall::SetEffect(m) => DeviceState { effect: m, ..s },
        DeviceCall::SetSpeed(v) => DeviceState { speed: v, ..s },
        DeviceCall::SetBrightness(v) => DeviceState { brightness: v, ..s },
        DeviceCall::SetColorsTo(rgb) => DeviceState { colors: rgb, ..s },
        DeviceCall::TransitionColorsTo { rgb_array, .. } => DeviceState { colors: rgb_array, ..s },
    }
}

/// The device state after a sequence of primitive operations, in order.
pub open spec fn apply_calls(s: DeviceState, cs: Seq<DeviceCall>) -> DeviceState
    decreases cs.len(),
{
    if cs.len() == 0 {
        s
    } else {
        apply_call(apply_calls(s, cs.drop_last()), cs.last())
    }
}

} // verus!
