use vstd::prelude::*;

use crate::controller::{
    mute_of, run_actions, run_state, step, timeout_spec, Action, ControllerState, Input,
    CHANNEL_TIMEOUT_MS, MIN_TIMEOUT_MS,
};

verus! {

/// When an input happened.
pub open spec fn input_time(i: Input) -> u64 {
    match i {
        Input::Event { at, .. } => at,
        Input::Tick { at } => at,
    }
}

/// Whether an input is a press event.
pub open spec fn is_press(i: Input) -> bool {
    match i {
        Input::Event { pressed, .. } => pressed,
        Input::Tick { .. } => false,
    }
}

/// The wait for the next event lies between `MIN_TIMEOUT_MS` and
/// `CHANNEL_TIMEOUT_MS` in every state, at every time, for every window,
/// also when a pending release is long overdue.
pub proof fn receive_timeout_is_bounded(s: ControllerState, now: u64, debounce: u64)
    ensures
        MIN_TIMEOUT_MS <= timeout_spec(s, now, debounce) <= CHANNEL_TIMEOUT_MS,
{
}

/// Number of requests in `acts` that mute the microphone.
pub open spec fn mutes(acts: Seq<Action>) -> nat
    decreases acts.len(),
{
    if acts.len() == 0 {
        0
    } else {
        mutes(acts.drop_last()) + if mute_of(acts.last()) == Some(true) { 1nat } else { 0nat }
    }
}

/// The loop takes one action per input.
pub proof fn lemma_run_actions_len(s: ControllerState, inputs: Seq<Input>, debounce: u64)
    ensures
        run_actions(s, inputs, debounce).len() == inputs.len(),
    decreases inputs.len(),
{
    if inputs.len() > 0 {
        lemma_run_actions_len(s, inputs.drop_last(), debounce);
    }
}

/// The last action of a run is the one of its last step.
pub proof fn lemma_run_last(s: ControllerState, inputs: Seq<Input>, debounce: u64)
    requires
        inputs.len() > 0,
    ensures
        run_actions(s, inputs, debounce).drop_last() == run_actions(s, inputs.drop_last(), debounce),
        run_actions(s, inputs, debounce).last() == step(
            run_state(s, inputs.drop_last(), debounce),
            inputs.last(),
            debounce,
        ).1,
        run_state(s, inputs, debounce) == step(run_state(s, inputs.drop_last(), debounce), inputs.last(), debounce).0,
{
    let prev = run_actions(s, inputs.drop_last(), debounce);
    let a = step(run_state(s, inputs.drop_last(), debounce), inputs.last(), debounce).1;
    assert(prev.push(a).drop_last() =~= prev);
}

/// Running a single input is one step.
pub proof fn lemma_run_one(s: ControllerState, input: Input, debounce: u64)
    ensures
        run_state(s, seq![input], debounce) == step(s, input, debounce).0,
        run_actions(s, seq![input], debounce) == seq![step(s, input, debounce).1],
        mutes(seq![step(s, input, debounce).1]) == if mute_of(step(s, input, debounce).1) == Some(true) {
            1nat
        } else {
            0nat
        },
{
    let one = seq![input];
    assert(one.drop_last() =~= Seq::<Input>::empty());
    assert(one.last() == input);
    assert(run_state(s, Seq::<Input>::empty(), debounce) == s);
    assert(run_actions(s, Seq::<Input>::empty(), debounce) == Seq::<Action>::empty());
    assert(Seq::<Action>::empty().push(step(s, input, debounce).1) =~= seq![step(s, input, debounce).1]);
    let acts = seq![step(s, input, debounce).1];
    assert(acts.drop_last() =~= Seq::<Action>::empty());
    assert(mutes(Seq::<Action>::empty()) == 0);
}

/// Running two input sequences one after the other is running their concatenation.
pub proof fn lemma_run_append(s: ControllerState, a: Seq<Input>, b: Seq<Input>, debounce: u64)
    ensures
        run_state(s, a + b, debounce) == run_state(run_state(s, a, debounce), b, debounce),
        run_actions(s, a + b, debounce) == run_actions(s, a, debounce) + run_actions(
            run_state(s, a, debounce),
            b,
            debounce,
        ),
    decreases b.len(),
{
    if b.len() == 0 {
        assert(a + b =~= a);
        assert(run_actions(s, a, debounce) + Seq::<Action>::empty() =~= run_actions(s, a, debounce));
    } else {
        lemma_run_append(s, a, b.drop_last(), debounce);
        assert((a + b).drop_last() =~= a + b.drop_last());
        assert((a + b).last() == b.last());
        let mid = run_state(s, a, debounce);
        assert(run_actions(s, a, debounce) + run_actions(mid, b.drop_last(), debounce).push(
            step(run_state(mid, b.drop_last(), debounce), b.last(), debounce).1,
        ) =~= (run_actions(s, a, debounce) + run_actions(mid, b.drop_last(), debounce)).push(
            step(run_state(mid, b.drop_last(), debounce), b.last(), debounce).1,
        ));
    }
}

/// Counting mutes distributes over concatenation.
pub proof fn lemma_mutes_append(a: Seq<Action>, b: Seq<Action>)
    ensures
        mutes(a + b) == mutes(a) + mutes(b),
    decreases b.len(),
{
    if b.len() == 0 {
        assert(a + b =~= a);
    } else {
        lemma_mutes_append(a, b.drop_last());
        assert((a + b).drop_last() =~= a + b.drop_last());
    }
}

/// Within an open debounce window: the button is held, or a release at or
/// after `t` is pending.
pub open spec fn window_open(s: ControllerState, t: u64) -> bool {
    match s {
        ControllerState::Held => true,
        ControllerState::ReleaseWait(at) => t <= at,
        _ => false,
    }
}

proof fn lemma_window_stays_open(s: ControllerState, inputs: Seq<Input>, t: u64, tp: u64, debounce: u64)
    requires
        window_open(s, t),
        t <= tp,
        tp < t + debounce,
        forall|i: int| 0 <= i < inputs.len() ==> t <= #[trigger] input_time(inputs[i]) <= tp,
    ensures
        window_open(run_state(s, inputs, debounce), t),
        forall|i: int| 0 <= i < inputs.len() ==> #[trigger] run_actions(s, inputs, debounce)[i] == Action::Idle,
    decreases inputs.len(),
{
    if inputs.len() > 0 {
        let prefix = inputs.drop_last();
        assert forall|i: int| 0 <= i < prefix.len() implies t <= #[trigger] input_time(prefix[i]) <= tp by {
            assert(prefix[i] == inputs[i]);
        }
        lemma_window_stays_open(s, prefix, t, tp, debounce);
        assert(t <= input_time(inputs[inputs.len() - 1]) <= tp);
        lemma_run_actions_len(s, prefix, debounce);
        let acts = run_actions(s, inputs, debounce);
        assert forall|i: int| 0 <= i < inputs.len() implies #[trigger] acts[i] == Action::Idle by {
            if i < prefix.len() {
                assert(acts[i] == run_actions(s, prefix, debounce)[i]);
            }
        }
    }
}

/// A release followed, less than the debounce window later, by a press makes
/// no mute request at all, neither in between, whatever comes between them
/// within that time, nor for the press, and leaves the button held.
pub proof fn release_then_quick_press_never_mutes(
    s: ControllerState,
    t: u64,
    between: Seq<Input>,
    tp: u64,
    debounce: u64,
)
    requires
        t <= tp,
        tp < t + debounce,
        forall|i: int| 0 <= i < between.len() ==> t <= #[trigger] input_time(between[i]) <= tp,
    ensures
        ({
            let inputs = seq![Input::Event { pressed: false, at: t }] + between + seq![
                Input::Event { pressed: true, at: tp },
            ];
            &&& run_state(s, inputs, debounce) == ControllerState::Held
            &&& forall|i: int|
                0 <= i < inputs.len() ==> mute_of(#[trigger] run_actions(s, inputs, debounce)[i]) is None
        }),
{
    let release = seq![Input::Event { pressed: false, at: t }];
    let press = seq![Input::Event { pressed: true, at: tp }];
    let inputs = release + between + press;
    let s1 = run_state(s, release, debounce);
    lemma_run_one(s, Input::Event { pressed: false, at: t }, debounce);
    assert(s1 == ControllerState::ReleaseWait(t));
    lemma_window_stays_open(s1, between, t, tp, debounce);
    lemma_run_actions_len(s, release, debounce);
    lemma_run_actions_len(s1, between, debounce);
    lemma_run_actions_len(s, release + between, debounce);
    lemma_run_append(s, release, between, debounce);
    lemma_run_append(s, release + between, press, debounce);
    let s2 = run_state(s, release + between, debounce);
    lemma_run_one(s2, Input::Event { pressed: true, at: tp }, debounce);
    assert(run_state(s2, press, debounce) == ControllerState::Held);
    let acts = run_actions(s, inputs, debounce);
    let acts1 = run_actions(s, release + between, debounce);
    assert forall|i: int| 0 <= i < inputs.len() implies mute_of(#[trigger] acts[i]) is None by {
        if i < 1 {
            assert(acts[i] == acts1[i]);
        } else if i < 1 + between.len() {
            assert(acts[i] == acts1[i]);
            assert(acts1[i] == run_actions(s1, between, debounce)[i - 1]);
        } else {
            assert(acts[i] == run_actions(s2, press, debounce)[i - acts1.len()]);
        }
    }
}

/// Whether some tick in `ticks` comes when the window opened at `t` has closed.
pub open spec fn some_tick_late(ticks: Seq<Input>, t: u64, debounce: u64) -> bool {
    exists|i: int| 0 <= i < ticks.len() && #[trigger] input_time(ticks[i]) >= t + debounce
}

proof fn lemma_ticks_after_release(t: u64, ticks: Seq<Input>, debounce: u64)
    requires
        0 < debounce,
        forall|i: int| 0 <= i < ticks.len() ==> #[trigger] ticks[i] is Tick,
    ensures
        some_tick_late(ticks, t, debounce) ==> run_state(ControllerState::ReleaseWait(t), ticks, debounce)
            == ControllerState::Released && mutes(run_actions(ControllerState::ReleaseWait(t), ticks, debounce))
            == 1,
        !some_tick_late(ticks, t, debounce) ==> run_state(ControllerState::ReleaseWait(t), ticks, debounce)
            == ControllerState::ReleaseWait(t) && mutes(run_actions(ControllerState::ReleaseWait(t), ticks, debounce))
            == 0,
        run_actions(ControllerState::ReleaseWait(t), ticks, debounce).len() == ticks.len(),
        forall|i: int|
            0 <= i < ticks.len() ==> mute_of(#[trigger] run_actions(ControllerState::ReleaseWait(t), ticks, debounce)[i])
                != Some(false),
    decreases ticks.len(),
{
    if ticks.len() > 0 {
        let prefix = ticks.drop_last();
        assert forall|i: int| 0 <= i < prefix.len() implies #[trigger] prefix[i] is Tick by {
            assert(prefix[i] == ticks[i]);
        }
        lemma_ticks_after_release(t, prefix, debounce);
        let last = ticks[ticks.len() - 1];
        assert(last is Tick);
        lemma_run_last(ControllerState::ReleaseWait(t), ticks, debounce);
        lemma_run_actions_len(ControllerState::ReleaseWait(t), ticks, debounce);
        let acts = run_actions(ControllerState::ReleaseWait(t), ticks, debounce);
        assert forall|i: int| 0 <= i < ticks.len() implies mute_of(#[trigger] acts[i]) != Some(false) by {
            if i < prefix.len() {
                assert(acts[i] == acts.drop_last()[i]);
            }
        }
        if some_tick_late(prefix, t, debounce) {
            let i = choose|i: int| 0 <= i < prefix.len() && #[trigger] input_time(prefix[i]) >= t + debounce;
            assert(ticks[i] == prefix[i]);
        } else if input_time(last) >= t + debounce {
            assert(input_time(ticks[ticks.len() - 1]) >= t + debounce);
        } else {
            assert forall|i: int| 0 <= i < ticks.len() implies !(#[trigger] input_time(ticks[i]) >= t
                + debounce) by {
                if i < prefix.len() {
                    assert(ticks[i] == prefix[i]);
                }
            }
        }
    }
}

/// A release followed only by timeouts, the last of them at least the
/// debounce window after the release, mutes the microphone exactly once,
/// never unmutes it, and leaves the button released.
pub proof fn release_outlasting_window_mutes_once(
    s: ControllerState,
    t: u64,
    ticks: Seq<Input>,
    debounce: u64,
)
    requires
        0 < debounce,
        ticks.len() > 0,
        forall|i: int| 0 <= i < ticks.len() ==> #[trigger] ticks[i] is Tick,
        input_time(ticks.last()) >= t + debounce,
    ensures
        ({
            let inputs = seq![Input::Event { pressed: false, at: t }] + ticks;
            &&& run_state(s, inputs, debounce) == ControllerState::Released
            &&& mutes(run_actions(s, inputs, debounce)) == 1
            &&& forall|i: int|
                0 <= i < inputs.len() ==> mute_of(#[trigger] run_actions(s, inputs, debounce)[i]) != Some(false)
        }),
{
    let release = seq![Input::Event { pressed: false, at: t }];
    lemma_run_one(s, Input::Event { pressed: false, at: t }, debounce);
    assert(run_state(s, release, debounce) == ControllerState::ReleaseWait(t));
    assert(input_time(ticks[ticks.len() - 1]) >= t + debounce);
    lemma_ticks_after_release(t, ticks, debounce);
    lemma_run_append(s, release, ticks, debounce);
    lemma_mutes_append(run_actions(s, release, debounce), run_actions(ControllerState::ReleaseWait(t), ticks, debounce));
    let acts = run_actions(s, release + ticks, debounce);
    let tail = run_actions(ControllerState::ReleaseWait(t), ticks, debounce);
    assert forall|i: int| 0 <= i < acts.len() implies mute_of(#[trigger] acts[i]) != Some(false) by {
        if i >= 1 {
            assert(acts[i] == tail[i - 1]);
        }
    }
}

/// Each action of a run is the one of its step from the state that the
/// inputs before it reached.
pub proof fn lemma_run_action_at(s: ControllerState, inputs: Seq<Input>, debounce: u64, k: int)
    requires
        0 <= k < inputs.len(),
    ensures
        run_actions(s, inputs, debounce)[k] == step(run_state(s, inputs.subrange(0, k), debounce), inputs[k], debounce).1,
    decreases inputs.len(),
{
    lemma_run_last(s, inputs, debounce);
    lemma_run_actions_len(s, inputs.drop_last(), debounce);
    if k == inputs.len() - 1 {
        assert(inputs.subrange(0, k) =~= inputs.drop_last());
    } else {
        lemma_run_action_at(s, inputs.drop_last(), debounce, k);
        assert(inputs.drop_last().subrange(0, k) =~= inputs.subrange(0, k));
        assert(run_actions(s, inputs, debounce)[k] == run_actions(s, inputs, debounce).drop_last()[k]);
    }
}

/// Whether input `j` is a release at `at` followed only by timeouts.
pub open spec fn release_undisturbed(inputs: Seq<Input>, j: int, at: u64) -> bool {
    &&& 0 <= j < inputs.len()
    &&& inputs[j] == (Input::Event { pressed: false, at })
    &&& forall|m: int| j < m < inputs.len() ==> #[trigger] inputs[m] is Tick
}

proof fn lemma_wait_has_release(s: ControllerState, inputs: Seq<Input>, debounce: u64)
    requires
        !(s is ReleaseWait),
    ensures
        run_state(s, inputs, debounce) is ReleaseWait ==> exists|j: int|
            release_undisturbed(inputs, j, run_state(s, inputs, debounce)->ReleaseWait_0),
    decreases inputs.len(),
{
    if inputs.len() > 0 {
        let prefix = inputs.drop_last();
        lemma_wait_has_release(s, prefix, debounce);
        lemma_run_last(s, inputs, debounce);
        let last = inputs.last();
        let before = run_state(s, prefix, debounce);
        let after = run_state(s, inputs, debounce);
        if after is ReleaseWait {
            match last {
                Input::Event { pressed, at } => {
                    assert(!pressed);
                    assert(release_undisturbed(inputs, inputs.len() - 1, after->ReleaseWait_0));
                },
                Input::Tick { at } => {
                    assert(before == after);
                    let j = choose|j: int| release_undisturbed(prefix, j, before->ReleaseWait_0);
                    assert forall|m: int| j < m < inputs.len() implies #[trigger] inputs[m] is Tick by {
                        if m < prefix.len() {
                            assert(inputs[m] == prefix[m]);
                        }
                    }
                    assert(inputs[j] == prefix[j]);
                    assert(release_undisturbed(inputs, j, after->ReleaseWait_0));
                },
            }
        }
    }
}

/// From the released state, the microphone is muted only on a timeout that
/// comes at least the debounce window after a release that no event has
/// followed: a later release restarts the window and a press cancels it.
pub proof fn mute_only_after_undisturbed_window(inputs: Seq<Input>, debounce: u64, k: int)
    requires
        0 < debounce,
        0 <= k < inputs.len(),
        mute_of(run_actions(ControllerState::Released, inputs, debounce)[k]) == Some(true),
    ensures
        inputs[k] is Tick,
        exists|j: int|
            0 <= j < k && #[trigger] release_undisturbed(inputs.subrange(0, k + 1), j, input_time(inputs[j]))
                && input_time(inputs[k]) >= input_time(inputs[j]) + debounce,
{
    let pre = inputs.subrange(0, k);
    lemma_run_action_at(ControllerState::Released, inputs, debounce, k);
    let st = run_state(ControllerState::Released, pre, debounce);
    lemma_wait_has_release(ControllerState::Released, pre, debounce);
    assert(st is ReleaseWait);
    assert(inputs[k] is Tick);
    let r = st->ReleaseWait_0;
    let j = choose|j: int| release_undisturbed(pre, j, r);
    let upto = inputs.subrange(0, k + 1);
    assert(upto[j] == pre[j]);
    assert forall|m: int| j < m < upto.len() implies #[trigger] upto[m] is Tick by {
        if m < k {
            assert(upto[m] == pre[m]);
        }
    }
    assert(input_time(inputs[j]) == r);
    assert(release_undisturbed(upto, j, input_time(inputs[j])));
}

/// Press events while the button is held change nothing and make no mute
/// request.
pub proof fn presses_while_held_are_silent(presses: Seq<Input>, debounce: u64)
    requires
        forall|i: int| 0 <= i < presses.len() ==> is_press(#[trigger] presses[i]),
    ensures
        run_state(ControllerState::Held, presses, debounce) == ControllerState::Held,
        forall|i: int| 0 <= i < presses.len() ==> #[trigger] run_actions(ControllerState::Held, presses, debounce)[i]
            == Action::Idle,
        forall|i: int|
            0 <= i < presses.len() ==> mute_of(#[trigger] run_actions(ControllerState::Held, presses, debounce)[i])
                is None,
    decreases presses.len(),
{
    if presses.len() > 0 {
        let prefix = presses.drop_last();
        assert forall|i: int| 0 <= i < prefix.len() implies is_press(#[trigger] prefix[i]) by {
            assert(prefix[i] == presses[i]);
        }
        presses_while_held_are_silent(prefix, debounce);
        lemma_run_actions_len(ControllerState::Held, prefix, debounce);
        assert(is_press(presses[presses.len() - 1]));
        let acts = run_actions(ControllerState::Held, presses, debounce);
        assert forall|i: int| 0 <= i < presses.len() implies #[trigger] acts[i] == Action::Idle by {
            if i < prefix.len() {
                assert(acts[i] == run_actions(ControllerState::Held, prefix, debounce)[i]);
            }
        }
    }
}

} // verus!
