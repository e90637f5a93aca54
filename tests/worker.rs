use std::sync::atomic::Ordering;
use legion_effects::{
    plan_profile, BaseEffects, Command, CustomEffect, DeviceCall, DeviceState, Direction, Driver,
    EffectStep, EffectType, Effects, Message, Profile, StopSignals, Worker,
};

const RED: [u8; 12] = [255, 0, 0, 255, 0, 0, 255, 0, 0, 255, 0, 0];
const BLUE: [u8; 12] = [0, 0, 255, 0, 0, 255, 0, 0, 255, 0, 0, 255];
const PALETTE: [u8; 12] = [255, 0, 0, 0, 255, 0, 0, 0, 255, 255, 0, 255];

fn profile(effect: Effects, rgb_array: [u8; 12], speed: u8, brightness: u8) -> Profile {
    Profile { rgb_array, effect, direction: Direction::Left, speed, brightness }
}

fn apply(state: &mut DeviceState, calls: &[DeviceCall]) {
    for call in calls {
        match *call {
            DeviceCall::SetEffect(m) => state.effect = m,
            DeviceCall::SetSpeed(v) => state.speed = v,
            DeviceCall::SetBrightness(v) => state.brightness = v,
            DeviceCall::SetColorsTo(c) => state.colors = c,
            DeviceCall::TransitionColorsTo { rgb_array, .. } => state.colors = rgb_array,
        }
    }
}

fn blank() -> DeviceState {
    DeviceState { effect: BaseEffects::Smooth, speed: 9, brightness: 9, colors: [7; 12] }
}

fn applied_plan(cmd: Command) -> (Vec<DeviceCall>, Option<Driver>) {
    match cmd {
        Command::Apply(plan) => (plan.calls, plan.driver),
        _ => panic!("expected a profile to be applied"),
    }
}

#[test]
fn static_profile_sets_baseline_then_colours() {
    let plan = plan_profile(profile(Effects::Static, RED, 1, 100));
    assert_eq!(
        plan.calls,
        vec![
            DeviceCall::SetEffect(BaseEffects::Static),
            DeviceCall::SetSpeed(1),
            DeviceCall::SetBrightness(100),
            DeviceCall::SetColorsTo(RED),
            DeviceCall::SetEffect(BaseEffects::Static),
        ]
    );
    assert_eq!(plan.driver, None);
}

#[test]
fn smooth_wave_forces_palette_into_swipe() {
    let p = profile(Effects::SmoothWave, RED, 3, 2);
    let plan = plan_profile(p);
    assert_eq!(
        plan.calls,
        vec![
            DeviceCall::SetEffect(BaseEffects::Static),
            DeviceCall::SetSpeed(3),
            DeviceCall::SetBrightness(2),
        ]
    );
    let expected = Profile { rgb_array: PALETTE, ..p };
    assert_eq!(plan.driver, Some(Driver::Swipe(expected)));
}

#[test]
fn breath_profile_sets_colours_then_breath() {
    let plan = plan_profile(profile(Effects::Breath, BLUE, 2, 1));
    assert_eq!(plan.calls[3], DeviceCall::SetColorsTo(BLUE));
    assert_eq!(plan.calls[4], DeviceCall::SetEffect(BaseEffects::Breath));
    assert_eq!(plan.calls.len(), 5);
    assert_eq!(plan.driver, None);
}

#[test]
fn smooth_and_wave_use_device_modes() {
    let plan = plan_profile(profile(Effects::Smooth, RED, 1, 1));
    assert_eq!(plan.calls.len(), 4);
    assert_eq!(plan.calls[3], DeviceCall::SetEffect(BaseEffects::Smooth));
    assert_eq!(plan.driver, None);

    let left = plan_profile(profile(Effects::Wave, RED, 1, 1));
    assert_eq!(left.calls[3], DeviceCall::SetEffect(BaseEffects::LeftWave));
    let mut p = profile(Effects::Wave, RED, 1, 1);
    p.direction = Direction::Right;
    let right = plan_profile(p);
    assert_eq!(right.calls[3], DeviceCall::SetEffect(BaseEffects::RightWave));
    assert_eq!(right.driver, None);
}

#[test]
fn animated_kinds_hand_over_to_their_driver() {
    let cases = [
        Effects::Lightning,
        Effects::Swipe,
        Effects::Disco,
        Effects::Fade,
        Effects::Ripple,
        Effects::Christmas,
        Effects::Temperature,
    ];
    for effect in cases {
        let p = profile(effect, BLUE, 4, 2);
        let plan = plan_profile(p);
        assert_eq!(plan.calls.len(), 3);
        let expected = match effect {
            Effects::Lightning => Driver::Lightning(p),
            Effects::Swipe => Driver::Swipe(p),
            Effects::Disco => Driver::Disco(p),
            Effects::Fade => Driver::Fade(p),
            Effects::Ripple => Driver::Ripple(p),
            Effects::Christmas => Driver::Christmas,
            _ => Driver::Temperature,
        };
        assert_eq!(plan.driver, Some(expected));
    }
    let plan = plan_profile(profile(Effects::AmbientLight { fps: 30 }, BLUE, 4, 2));
    assert_eq!(plan.driver, Some(Driver::AmbientLight { fps: 30 }));
}

#[test]
fn refresh_on_fresh_worker_applies_default_once() {
    let mut worker = Worker::new(StopSignals::new());
    let (calls, driver) = applied_plan(worker.on_message(Message::Refresh));
    assert_eq!(
        calls,
        vec![
            DeviceCall::SetEffect(BaseEffects::Static),
            DeviceCall::SetSpeed(1),
            DeviceCall::SetBrightness(1),
            DeviceCall::SetColorsTo([0; 12]),
            DeviceCall::SetEffect(BaseEffects::Static),
        ]
    );
    assert_eq!(driver, None);
    assert_eq!(worker.last_profile, Profile::default());
}

#[test]
fn refresh_replays_last_profile() {
    let mut worker = Worker::new(StopSignals::new());
    let p = profile(Effects::Breath, BLUE, 2, 2);
    let first = applied_plan(worker.on_message(Message::Profile { profile: p }));
    let again = applied_plan(worker.on_message(Message::Refresh));
    assert_eq!(first, again);
    assert_eq!(worker.last_profile, p);
}

#[test]
fn last_profile_wins() {
    let mut worker = Worker::new(StopSignals::new());
    let mut device = blank();
    let profiles = [
        profile(Effects::Breath, BLUE, 3, 2),
        profile(Effects::Disco, BLUE, 4, 1),
        profile(Effects::Static, RED, 1, 100),
    ];
    for p in profiles {
        let (calls, _) = applied_plan(worker.on_message(Message::Profile { profile: p }));
        apply(&mut device, &calls);
    }
    let mut alone = DeviceState { effect: BaseEffects::LeftWave, speed: 0, brightness: 0, colors: [1; 12] };
    apply(&mut alone, &plan_profile(profiles[2]).calls);
    assert_eq!(device, alone);
    assert_eq!(device.colors, RED);
    assert_eq!(worker.last_profile, profiles[2]);
}

#[test]
fn messages_lower_the_stop_flags_and_exit_ends() {
    let signals = StopSignals::new();
    let mut worker = Worker::new(signals.clone());
    signals.store_true();
    assert!(signals.is_stopped());
    let effect = CustomEffect { effect_steps: vec![], should_loop: true };
    match worker.on_message(Message::CustomEffect { effect: effect.clone() }) {
        Command::RunCustom(run) => {
            assert_eq!(run.effect, effect);
            assert!(run.done);
        }
        _ => panic!("expected a custom effect"),
    }
    assert!(!signals.is_stopped());
    signals.store_true();
    assert!(matches!(worker.on_message(Message::Exit), Command::Exit));
    assert!(signals.is_stopped());
}

#[test]
fn stop_signals_toggle_both_flags() {
    let signals = StopSignals::new();
    assert!(!signals.keyboard_stop_signal.load(Ordering::SeqCst));
    signals.store_true();
    assert!(signals.keyboard_stop_signal.load(Ordering::SeqCst));
    assert!(signals.manager_stop_signal.load(Ordering::SeqCst));
    signals.store_false();
    assert!(!signals.keyboard_stop_signal.load(Ordering::SeqCst));
    assert!(!signals.manager_stop_signal.load(Ordering::SeqCst));
}

#[test]
fn step_type_decides_set_or_transition() {
    let step = EffectStep {
        rgb_array: RED,
        step_type: EffectType::Transition,
        speed: 2,
        brightness: 1,
        steps: 10,
        delay_between_steps: 5,
        sleep: 40,
    };
    let run = legion_effects::CustomRunner::new(CustomEffect { effect_steps: vec![step], should_loop: false });
    assert_eq!(
        run.next_calls(),
        Some(vec![
            DeviceCall::SetSpeed(2),
            DeviceCall::SetBrightness(1),
            DeviceCall::TransitionColorsTo { rgb_array: RED, steps: 10, delay_between_steps: 5 },
        ])
    );
}
