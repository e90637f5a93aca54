use crate::device::{apply_calls, DeviceCall, DeviceState, Driver};
use crate::custom::CustomRunner;
use crate::profile::{is_default_profile, BaseEffects, CustomEffect, Direction, Effects, Profile};
use crate::stop::StopSignals;
use vstd::prelude::*;

verus! {

/// The fixed palette that the smooth wave sweeps through: red, green, blue
/// and magenta.
pub open spec fn smooth_wave_colors() -> Seq<u8> {
    seq![255u8, 0, 0, 0, 255, 0, 0, 0, 255, 255, 0, 255]
}

/// The safe baseline every profile starts from: static mode, then the
/// profile's speed and brightness.
pub open spec fn base_calls(p: Profile) -> Seq<DeviceCall> {
    seq![
        DeviceCall::SetEffect(BaseEffects::Static),
        DeviceCall::SetSpeed(p.speed),
        DeviceCall::SetBrightness(p.brightness),
    ]
}

/// The primitive operations that applying a profile makes before any
/// animation loop starts.
pub open spec fn profile_calls(p: Profile) -> Seq<DeviceCall> {
    match p.effect {
        Effects::Static => base_calls(p) + seq![
            DeviceCall::SetColorsTo(p.rgb_array),
            DeviceCall::SetEffect(BaseEffects::Static),
        ],
        Effects::Breath => base_calls(p) + seq![
            DeviceCall::SetColorsTo(p.rgb_array),
            DeviceCall::SetEffect(BaseEffects::Breath),
        ],
        Effects::Smooth => base_calls(p).push(DeviceCall::SetEffect(BaseEffects::Smooth)),
        Effects::Wave => base_calls(p).push(
            DeviceCall::SetEffect(
                match p.direction {
                    Direction::Left => BaseEffects::LeftWave,
                    Direction::Right => BaseEffects::RightWave,
                },
            ),
        ),
        _ => base_calls(p),
    }
}

/// Whether `d` is the animation loop that applying `p` hands over to: none
/// for the modes the device runs itself, and for the smooth wave a swipe
/// over the fixed palette, whatever colours `p` holds.
pub open spec fn profile_driver(p: Profile, d: Option<Driver>) -> bool {
    match p.effect {
        Effects::Static | Effects::Breath | Effects::Smooth | Effects::Wave => d is None,
        Effects::Lightning => d == Some(Driver::Lightning(p)),
        Effects::AmbientLight { fps } => d == Some(Driver::AmbientLight { fps }),
        Effects::SmoothWave => match d {
            Some(Driver::Swipe(q)) => {
                &&& q.rgb_array@ == smooth_wave_colors()
                &&& q.effect == p.effect
                &&& q.direction == p.direction
                &&& q.speed == p.speed
                &&& q.brightness == p.brightness
            },
            _ => false,
        },
        Effects::Swipe => d == Some(Driver::Swipe(p)),
        Effects::Disco => d == Some(Driver::Disco(p)),
        Effects::Christmas => d == Some(Driver::Christmas),
        Effects::Fade => d == Some(Driver::Fade(p)),
        Effects::Temperature => d == Some(Driver::Temperature),
        Effects::Ripple => d == Some(Driver::Ripple(p)),
    }
}

/// How a profile is applied: primitive operations first, then, for the
/// animated kinds, the loop that renders the frames.
#[derive(Clone, Debug)]
pub struct ProfilePlan {
    pub calls: Vec<DeviceCall>,
    pub driver: Option<Driver>,
}

/// Whether `plan` is exactly how `p` is applied.
pub open spec fn plans(plan: ProfilePlan, p: Profile) -> bool {
    plan.calls@ == profile_calls(p) && profile_driver(p, plan.driver)
}

/// The operations and the animation loop that apply `profile`.
pub fn plan_profile(profile: Profile) -> (plan: ProfilePlan)
    ensures
        plans(plan, profile),
{
    let mut profile = profile;
    let mut calls: Vec<DeviceCall> = Vec::new();
    calls.push(DeviceCall::SetEffect(BaseEffects::Static));
    calls.push(DeviceCall::SetSpeed(profile.speed));
    calls.push(DeviceCall::SetBrightness(profile.brightness));
    let driver = match profile.effect {
        Effects::Static => {
            calls.push(DeviceCall::SetColorsTo(profile.rgb_array));
            calls.push(DeviceCall::SetEffect(BaseEffects::Static));
            None
        },
        Effects::Breath => {
            calls.push(DeviceCall::SetColorsTo(profile.rgb_array));
            calls.push(DeviceCall::SetEffect(BaseEffects::Breath));
            None
        },
        Effects::Smooth => {
            calls.push(DeviceCall::SetEffect(BaseEffects::Smooth));
            None
        },
        Effects::Wave => {
            match profile.direction {
                Direction::Left => calls.push(DeviceCall::SetEffect(BaseEffects::LeftWave)),
                Direction::Right => calls.push(DeviceCall::SetEffect(BaseEffects::RightWave)),
            }
            None
        },
        Effects::Lightning => Some(Driver::Lightning(profile)),
        Effects::AmbientLight { fps } => Some(Driver::AmbientLight { fps }),
        Effects::SmoothWave => {
            profile.rgb_array = [255, 0, 0, 0, 255, 0, 0, 0, 255, 255, 0, 255];
            proof {
                assert(profile.rgb_array@ =~= smooth_wave_colors());
            }
            Some(Driver::Swipe(profile))
        },
        Effects::Swipe => Some(Driver::Swipe(profile)),
        Effects::Disco => Some(Driver::Disco(profile)),
        Effects::Christmas => Some(Driver::Christmas),
        Effects::Fade => Some(Driver::Fade(profile)),
        Effects::Temperature => Some(Driver::Temperature),
        Effects::Ripple => Some(Driver::Ripple(profile)),
    };
    let plan = ProfilePlan { calls, driver };
    proof {
        assert(plan.calls@ =~= profile_calls(profile));
    }
    plan
}

} // verus!

verus! {

/// A control message for the worker.
#[derive(Clone, Debug)]
pub enum Message {
    /// Apply the last profile again.
    Refresh,
    /// Record and apply a profile.
    Profile { profile: Profile },
    /// Play a custom effect.
    CustomEffect { effect: CustomEffect },
    /// Stop the worker.
    Exit,
}

/// What the worker does about one message.
#[derive(Clone, Debug)]
pub enum Command {
    /// Apply a profile: run its operations, then its animation loop if any.
    Apply(ProfilePlan),
    /// Play a custom effect, step by step.
    RunCustom(CustomRunner),
    /// Leave the command loop.
    Exit,
}

/// The profile recorded as current after `msg`.
pub open spec fn last_after(last: Profile, msg: Message) -> Profile {
    match msg {
        Message::Profile { profile } => profile,
        _ => last,
    }
}

/// The profile that `msg` applies, if it applies one.
pub open spec fn applied_profile(last: Profile, msg: Message) -> Option<Profile> {
    match msg {
        Message::Refresh => Some(last),
        Message::Profile { profile } => Some(profile),
        _ => None,
    }
}

/// The worker's own state: the stop flags and the profile a refresh replays.
pub struct Worker {
    pub stop_signals: StopSignals,
    pub last_profile: Profile,
}

impl Worker {
    /// A worker whose current profile is the default one.
    pub fn new(stop_signals: StopSignals) -> (w: Worker)
        ensures
            w.stop_signals == stop_signals,
            is_default_profile(w.last_profile),
    {
        Worker { stop_signals, last_profile: Profile::default() }
    }

    /// Decides what to do about `msg`. Every message but `Exit` lowers the
    /// stop flags first, so that what it starts may run; the one that raised
    /// them has already made the previous animation return.
    pub fn on_message(&mut self, msg: Message) -> (r: Command)
        ensures
            final(self).stop_signals == old(self).stop_signals,
            final(self).last_profile == last_after(old(self).last_profile, msg),
            match applied_profile(old(self).last_profile, msg) {
                Some(p) => r matches Command::Apply(plan) && plans(plan, p),
                None => true,
            },
            match msg {
                Message::CustomEffect { effect } => r matches Command::RunCustom(run) && run.effect
                    == effect && run.starts(),
                Message::Exit => r is Exit,
                _ => true,
            },
    {
        match msg {
            Message::Refresh => {
                self.stop_signals.store_false();
                Command::Apply(plan_profile(self.last_profile))
            },
            Message::Profile { profile } => {
                self.last_profile = profile;
                self.stop_signals.store_false();
                Command::Apply(plan_profile(profile))
            },
            Message::CustomEffect { effect } => {
                self.stop_signals.store_false();
                Command::RunCustom(CustomRunner::new(effect))
            },
            Message::Exit => Command::Exit,
        }
    }
}

} // verus!

verus! {

/// The recorded profile and the device state once the worker has handled a
/// `Profile` message for each of `ps`, in order, starting from `last` and
/// `dev`.
pub open spec fn after_profiles(last: Profile, dev: DeviceState, ps: Seq<Profile>) -> (Profile, DeviceState)
    decreases ps.len(),
{
    if ps.len() == 0 {
        (last, dev)
    } else {
        let (l, d) = after_profiles(last, dev, ps.drop_last());
        let msg = Message::Profile { profile: ps.last() };
        match applied_profile(l, msg) {
            Some(p) => (last_after(l, msg), apply_calls(d, profile_calls(p))),
            None => (last_after(l, msg), d),
        }
    }
}

proof fn lemma_apply_concat(d: DeviceState, a: Seq<DeviceCall>, b: Seq<DeviceCall>)
    ensures
        apply_calls(d, a + b) == apply_calls(apply_calls(d, a), b),
    decreases b.len(),
{
    if b.len() > 0 {
        lemma_apply_concat(d, a, b.drop_last());
        assert((a + b).drop_last() =~= a + b.drop_last());
    } else {
        assert(a + b =~= a);
    }
}

/// Applying a profile sets the device's mode, speed and brightness whatever
/// it showed before, and its colours too for the static and breathing kinds.
proof fn lemma_profile_overwrites(p: Profile, d1: DeviceState, d2: DeviceState)
    ensures
        apply_calls(d1, profile_calls(p)).effect == apply_calls(d2, profile_calls(p)).effect,
        apply_calls(d1, profile_calls(p)).speed == p.speed,
        apply_calls(d1, profile_calls(p)).brightness == p.brightness,
        (p.effect is Static || p.effect is Breath) ==> apply_calls(d1, profile_calls(p))
            == apply_calls(d2, profile_calls(p)),
{
    reveal_with_fuel(apply_calls, 4);
    let base = base_calls(p);
    let tail = profile_calls(p).subrange(3, profile_calls(p).len() as int);
    assert(profile_calls(p) =~= base + tail);
    lemma_apply_concat(d1, base, tail);
    lemma_apply_concat(d2, base, tail);
    assert(base.drop_last().drop_last().drop_last() =~= Seq::<DeviceCall>::empty());
    let b1 = apply_calls(d1, base);
    let b2 = apply_calls(d2, base);
    assert(b1.effect == b2.effect && b1.speed == p.speed && b1.brightness == p.brightness);
    if tail.len() == 2 {
        assert(tail.drop_last().drop_last() =~= Seq::<DeviceCall>::empty());
    } else if tail.len() == 1 {
        assert(tail.drop_last() =~= Seq::<DeviceCall>::empty());
    }
}

/// However many profiles are submitted, once they have all been handled the
/// worker records the last one, and the device's mode, speed and brightness
/// are those that the last one alone sets, whatever came before. For the
/// static and breathing kinds, which set colours too, the whole device state
/// is the same as if only the last profile had been submitted.
pub proof fn lemma_last_profile_wins(
    last_a: Profile,
    dev_a: DeviceState,
    last_b: Profile,
    dev_b: DeviceState,
    ps: Seq<Profile>,
)
    requires
        ps.len() > 0,
    ensures
        after_profiles(last_a, dev_a, ps).0 == ps.last(),
        after_profiles(last_a, dev_a, ps).0 == after_profiles(last_b, dev_b, seq![ps.last()]).0,
        after_profiles(last_a, dev_a, ps).1.effect == after_profiles(
            last_b,
            dev_b,
            seq![ps.last()],
        ).1.effect,
        after_profiles(last_a, dev_a, ps).1.speed == ps.last().speed,
        after_profiles(last_a, dev_a, ps).1.brightness == ps.last().brightness,
        (ps.last().effect is Static || ps.last().effect is Breath) ==> after_profiles(
            last_a,
            dev_a,
            ps,
        ) == after_profiles(last_b, dev_b, seq![ps.last()]),
{
    let one = seq![ps.last()];
    assert(one.drop_last() =~= Seq::<Profile>::empty());
    assert(one.last() == ps.last());
    assert(after_profiles(last_b, dev_b, one.drop_last()) == (last_b, dev_b));
    let p = ps.last();
    assert(after_profiles(last_b, dev_b, one) == (p, apply_calls(dev_b, profile_calls(p))));
    let (l, d) = after_profiles(last_a, dev_a, ps.drop_last());
    assert(after_profiles(last_a, dev_a, ps) == (p, apply_calls(d, profile_calls(p))));
    lemma_profile_overwrites(p, d, dev_b);
}

/// A refresh sent to a worker that has never been given a profile applies the
/// default profile, as one plan of operations, and leaves it recorded.
pub proof fn lemma_refresh_applies_default(last: Profile)
    requires
        is_default_profile(last),
    ensures
        applied_profile(last, Message::Refresh) == Some(last),
        last_after(last, Message::Refresh) == last,
{
}

} // verus!
