use crate::device::DeviceCall;
use crate::profile::{CustomEffect, EffectStep, EffectType};
use vstd::arithmetic::div_mod::{lemma_mod_add_multiples_vanish, lemma_small_mod};
use vstd::prelude::*;

verus! {

/// The primitive operations of one step: speed, brightness, then the colours,
/// set at once or reached by a transition.
pub open spec fn step_calls(step: EffectStep) -> Seq<DeviceCall> {
    seq![
        DeviceCall::SetSpeed(step.speed),
        DeviceCall::SetBrightness(step.brightness),
        match step.step_type {
            EffectType::SetColors => DeviceCall::SetColorsTo(step.rgb_array),
            EffectType::Transition => DeviceCall::TransitionColorsTo {
                rgb_array: step.rgb_array,
                steps: step.steps,
                delay_between_steps: step.delay_between_steps,
            },
        },
    ]
}

/// Where a run stands after one step has been applied at `pos`, of `len`
/// steps, given whether the stop flag was then raised: `(next step, over)`.
pub open spec fn next_position(len: nat, should_loop: bool, pos: nat, stopped: bool) -> (nat, bool) {
    if stopped {
        (pos, true)
    } else if pos + 1 < len {
        ((pos + 1) as nat, false)
    } else if should_loop {
        (0, false)
    } else {
        (pos, true)
    }
}

/// The positions of the steps that a run applies from step `pos` (over when
/// `done`), when the stop flag reads `stops[i]` after its `i`-th step.
pub open spec fn applied_steps(len: nat, should_loop: bool, pos: nat, done: bool, stops: Seq<bool>) -> Seq<nat>
    decreases stops.len(),
{
    if done || stops.len() == 0 {
        Seq::empty()
    } else {
        let (next, over) = next_position(len, should_loop, pos, stops[0]);
        seq![pos] + applied_steps(len, should_loop, next, over, stops.drop_first())
    }
}

/// A custom effect being played: the step to apply next, and whether the run
/// is over.
#[derive(Clone, Debug)]
pub struct CustomRunner {
    pub effect: CustomEffect,
    pub pos: usize,
    pub done: bool,
}

impl CustomRunner {
    /// A position inside the step list, or a finished run.
    pub open spec fn wf(&self) -> bool {
        self.done || self.pos < self.effect.effect_steps@.len()
    }

    /// At the first step, unless there is none to play.
    pub open spec fn starts(&self) -> bool {
        &&& self.pos == 0
        &&& self.done == (self.effect.effect_steps@.len() == 0)
    }

    /// A run of `effect` from its first step. A run without steps is over at
    /// once, looping or not.
    pub fn new(effect: CustomEffect) -> (r: CustomRunner)
        ensures
            r.effect == effect,
            r.starts(),
            r.wf(),
    {
        let done = effect.effect_steps.len() == 0;
        CustomRunner { effect, pos: 0, done }
    }

    /// The operations of the step to apply next, or `None` once the run is over.
    pub fn next_calls(&self) -> (r: Option<Vec<DeviceCall>>)
        requires
            self.wf(),
        ensures
            match r {
                None => self.done,
                Some(calls) => !self.done && calls@ == step_calls(
                    self.effect.effect_steps@[self.pos as int],
                ),
            },
    {
        if self.done {
            return None;
        }
        let step = self.effect.effect_steps[self.pos];
        let mut calls: Vec<DeviceCall> = Vec::new();
        calls.push(DeviceCall::SetSpeed(step.speed));
        calls.push(DeviceCall::SetBrightness(step.brightness));
        match step.step_type {
            EffectType::SetColors => calls.push(DeviceCall::SetColorsTo(step.rgb_array)),
            EffectType::Transition => calls.push(
                DeviceCall::TransitionColorsTo {
                    rgb_array: step.rgb_array,
                    steps: step.steps,
                    delay_between_steps: step.delay_between_steps,
                },
            ),
        }
        proof {
            assert(calls@ =~= step_calls(step));
        }
        Some(calls)
    }

    /// Records that the current step was applied and the stop flag then read
    /// `stopped`. Returns how long to sleep before the next step; a raised
    /// flag ends the run at once, with no sleep and no further step.
    pub fn after_step(&mut self, stopped: bool) -> (r: Option<u64>)
        requires
            old(self).wf(),
            !old(self).done,
        ensures
            final(self).wf(),
            final(self).effect == old(self).effect,
            (final(self).pos as nat, final(self).done) == next_position(
                old(self).effect.effect_steps@.len(),
                old(self).effect.should_loop,
                old(self).pos as nat,
                stopped,
            ),
            stopped ==> r is None,
            !stopped ==> r == Some(old(self).effect.effect_steps@[old(self).pos as int].sleep),
    {
        if stopped {
            self.done = true;
            return None;
        }
        let sleep = self.effect.effect_steps[self.pos].sleep;
        if self.pos < self.effect.effect_steps.len() - 1 {
            self.pos = self.pos + 1;
        } else if self.effect.should_loop {
            self.pos = 0;
        } else {
            self.done = true;
        }
        Some(sleep)
    }
}

proof fn lemma_single_pass_from(len: nat, k: nat, stops: Seq<bool>)
    requires
        k < len,
        stops.len() >= len - k,
        forall|i: int| 0 <= i < stops.len() ==> !stops[i],
    ensures
        applied_steps(len, false, k, false, stops) == Seq::new((len - k) as nat, |i: int| (k + i) as nat),
    decreases stops.len(),
{
    let (next, over) = next_position(len, false, k, stops[0]);
    let rest = stops.drop_first();
    assert(applied_steps(len, false, k, false, stops) == seq![k] + applied_steps(len, false, next, over, rest));
    if k + 1 < len {
        lemma_single_pass_from(len, next, rest);
    }
    assert(applied_steps(len, false, k, false, stops) =~= Seq::new(
        (len - k) as nat,
        |i: int| (k + i) as nat,
    ));
}

/// Played once and never stopped, an effect of `len > 0` steps applies each
/// step exactly once, in list order, and then is over: the flag may be read
/// any number of further times without another step being applied.
pub proof fn lemma_single_pass(len: nat, stops: Seq<bool>)
    requires
        len > 0,
        stops.len() >= len,
        forall|i: int| 0 <= i < stops.len() ==> !stops[i],
    ensures
        applied_steps(len, false, 0, false, stops) == Seq::new(len, |i: int| i as nat),
{
    lemma_single_pass_from(len, 0, stops);
    assert(Seq::new((len - 0) as nat, |i: int| (0 + i) as nat) =~= Seq::new(len, |i: int| i as nat));
}

proof fn lemma_loop_until_stopped_from(len: nat, k: nat, stops: Seq<bool>, j: nat)
    requires
        k < len,
        j < stops.len(),
        stops[j as int],
        forall|i: int| 0 <= i < j ==> !stops[i],
    ensures
        applied_steps(len, true, k, false, stops) == Seq::new(j + 1, |i: int| ((k + i) % (len as int)) as nat),
    decreases j,
{
    let (next, over) = next_position(len, true, k, stops[0]);
    let rest = stops.drop_first();
    lemma_small_mod(k, len);
    assert(applied_steps(len, true, k, false, stops) == seq![k] + applied_steps(len, true, next, over, rest));
    if j > 0 {
        lemma_loop_until_stopped_from(len, next, rest, (j - 1) as nat);
        assert forall|i: int| 0 <= i < j implies #[trigger] ((next + i) % (len as int)) == ((k + (i + 1)) % (len as int)) by {
            if k + 1 == len {
                lemma_mod_add_multiples_vanish(i, len as int);
            }
        }
    }
    assert(applied_steps(len, true, k, false, stops) =~= Seq::new(
        j + 1,
        |i: int| ((k + i) % (len as int)) as nat,
    ));
}

/// A looping effect of `len > 0` steps applies its steps in list order,
/// going round from the last to the first, for as long as the stop flag reads
/// lowered; the step after which it first reads raised (the `j`-th) is the
/// last one applied.
pub proof fn lemma_loop_until_stopped(len: nat, stops: Seq<bool>, j: nat)
    requires
        len > 0,
        j < stops.len(),
        stops[j as int],
        forall|i: int| 0 <= i < j ==> !stops[i],
    ensures
        applied_steps(len, true, 0, false, stops) == Seq::new(j + 1, |i: int| (i % (len as int)) as nat),
{
    lemma_loop_until_stopped_from(len, 0, stops, j);
    assert(Seq::new(j + 1, |i: int| ((0 + i) % (len as int)) as nat) =~= Seq::new(
        j + 1,
        |i: int| (i % (len as int)) as nat,
    ));
}

/// Once the stop flag has been read raised after some step, no further step
/// is applied, whatever the effect and wherever the run stood.
pub proof fn lemma_no_step_after_stop(len: nat, should_loop: bool, pos: nat, done: bool, stops: Seq<bool>, j: nat)
    requires
        j < stops.len(),
        stops[j as int],
    ensures
        applied_steps(len, should_loop, pos, done, stops).len() <= j + 1,
    decreases j,
{
    if !done && stops.len() > 0 {
        let (next, over) = next_position(len, should_loop, pos, stops[0]);
        let rest = stops.drop_first();
        assert(applied_steps(len, should_loop, pos, done, stops) == seq![pos] + applied_steps(
            len,
            should_loop,
            next,
            over,
            rest,
        ));
        if j > 0 {
            lemma_no_step_after_stop(len, should_loop, next, over, rest, (j - 1) as nat);
        }
    }
}

} // verus!
