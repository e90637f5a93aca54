use vstd::prelude::*;

verus! {

/// Direction of the wave-like animations.
#[derive(Clone, Copy, Debug, PartialEq, Eq, Structural)]
pub enum Direction {
    Left,
    Right,
}

/// The animation kinds a profile can select.
#[derive(Clone, Copy, Debug, PartialEq, Eq, Structural)]
pub enum Effects {
    Static,
    Breath,
    Smooth,
    Wave,
    Lightning,
    AmbientLight { fps: u8 },
    SmoothWave,
    Swipe,
    Disco,
    Christmas,
    Fade,
    Temperature,
    Ripple,
}

/// The modes that the device runs by itself.
#[derive(Clone, Copy, Debug, PartialEq, Eq, Structural)]
pub enum BaseEffects {
    Static,
    Breath,
    Smooth,
    LeftWave,
    RightWave,
}

/// One static or animated lighting state: four zones of RGB colours, an
/// animation kind, its direction, its speed and the backlight brightness.
#[derive(Clone, Copy, Debug, PartialEq, Eq)]
pub struct Profile {
    pub rgb_array: [u8; 12],
    pub effect: Effects,
    pub direction: Direction,
    pub speed: u8,
    pub brightness: u8,
}

/// The profile used before any other has been applied: all zones off,
/// static, leftwards, lowest speed and brightness.
pub open spec fn is_default_profile(p: Profile) -> bool {
    &&& p.rgb_array@ == Seq::new(12, |i: int| 0u8)
    &&& p.effect == Effects::Static
    &&& p.direction == Direction::Left
    &&& p.speed == 1
    &&& p.brightness == 1
}

impl Default for Profile {
    fn default() -> (p: Profile)
        ensures
            is_default_profile(p),
    {
        let p = Profile {
            rgb_array: [0u8; 12],
            effect: Effects::Static,
            direction: Direction::Left,
            speed: 1,
            brightness: 1,
        };
        assert(p.rgb_array@ =~= Seq::new(12, |i: int| 0u8));
        p
    }
}

/// How a custom-effect step reaches its colours.
#[derive(Clone, Copy, Debug, PartialEq, Eq, Structural)]
pub enum EffectType {
    SetColors,
    Transition,
}

/// One step of a custom effect.
#[derive(Clone, Copy, Debug, PartialEq, Eq)]
pub struct EffectStep {
    pub rgb_array: [u8; 12],
    pub step_type: EffectType,
    pub speed: u8,
    pub brightness: u8,
    /// Number of sub-steps of a transition.
    pub steps: u8,
    /// Pause between two sub-steps of a transition, in milliseconds.
    pub delay_between_steps: u64,
    /// Pause after the step, in milliseconds.
    pub sleep: u64,
}

/// An ordered list of steps, played once or repeated until cancelled.
#[derive(Clone, Debug, PartialEq, Eq)]
pub struct CustomEffect {
    pub effect_steps: Vec<EffectStep>,
    pub should_loop: bool,
}

} // verus!
