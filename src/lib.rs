//! Command dispatch for a keyboard backlight: a single worker applies lighting
//! profiles and custom effects one at a time, and every running animation is
//! cancelled cooperatively through a pair of stop flags.
mod custom;
mod device;
mod driver;
mod profile;
mod stop;
mod worker;

pub use custom::{
    applied_steps, lemma_loop_until_stopped, lemma_no_step_after_stop, lemma_single_pass, next_position,
    step_calls, CustomRunner,
};
pub use device::{apply_call, apply_calls, DeviceCall, DeviceState, Driver};
pub use driver::{next_frame_count, DriverLoop};
pub use profile::{
    is_default_profile, BaseEffects, CustomEffect, Direction, EffectStep, EffectType, Effects, Profile,
};
pub use stop::StopSignals;
pub use worker::{
    after_profiles, applied_profile, base_calls, last_after, lemma_last_profile_wins,
    lemma_refresh_applies_default, plan_profile, plans, profile_calls, profile_driver, smooth_wave_colors,
    Command, Message, ProfilePlan, Worker,
};
