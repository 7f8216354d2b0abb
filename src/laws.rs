//! Properties of whole event sequences, proved from the one-step rules.

use vstd::prelude::*;

use crate::event::{DeviceKind, Event, MouseButton, OutputAction, WheelAxis};
use crate::machine::{
    actions, next_mode, side_button, wheel_action, within_click_window, Mode, CLICK_WINDOW_MICROS,
};

verus! {

/// One delivered report: the event, its device, and when it arrived.
pub type Step = (Event, DeviceKind, u64);

/// The mode reached and the actions produced, in order, when `steps` are
/// fed one by one to the machine in `mode`.
pub open spec fn run(mode: Mode, steps: Seq<Step>) -> (Mode, Seq<OutputAction>)
    decreases steps.len(),
{
    if steps.len() == 0 {
        (mode, seq![])
    } else {
        let (m, out) = run(mode, steps.drop_last());
        let (event, device, now) = steps.last();
        (next_mode(m, event, now), out + actions(m, event, device, now))
    }
}

proof fn lemma_run_push(mode: Mode, steps: Seq<Step>, s: Step)
    ensures
        run(mode, steps.push(s)) == (
        next_mode(run(mode, steps).0, s.0, s.2),
        run(mode, steps).1 + actions(run(mode, steps).0, s.0, s.1, s.2),
        ),
{
    assert(steps.push(s).drop_last() =~= steps);
}

/// A press released without any axis motion in between, whatever came
/// before it, ends in `Idle`; the press itself produces nothing, and the
/// release produces exactly one middle click when at most the click window
/// has passed on a non-decreasing clock, and nothing otherwise.
pub proof fn law_plain_press(
    mode: Mode,
    before: Seq<Step>,
    down_device: DeviceKind,
    down_at: u64,
    up_device: DeviceKind,
    up_at: u64,
)
    requires
        down_at <= up_at,
    ensures
        ({
            let steps = before.push((Event::ButtonDown, down_device, down_at)).push(
                (Event::ButtonUp, up_device, up_at),
            );
            let clicks = if up_at - down_at <= CLICK_WINDOW_MICROS {
                seq![OutputAction::SynthesizeClick(MouseButton::Middle)]
            } else {
                seq![]
            };
            &&& run(mode, steps).0 == Mode::Idle
            &&& run(mode, steps).1 == run(mode, before).1 + clicks
        }),
{
    let s1 = before.push((Event::ButtonDown, down_device, down_at));
    lemma_run_push(mode, before, (Event::ButtonDown, down_device, down_at));
    lemma_run_push(mode, s1, (Event::ButtonUp, up_device, up_at));
    assert(run(mode, s1).1 =~= run(mode, before).1);
    let clicks = if up_at - down_at <= CLICK_WINDOW_MICROS {
        seq![OutputAction::SynthesizeClick(MouseButton::Middle)]
    } else {
        seq![]
    };
    assert(run(mode, s1.push((Event::ButtonUp, up_device, up_at))).1 =~= run(mode, before).1
        + clicks);
}

/// A press with one horizontal delta before its release clicks back (for a
/// negative delta) or forward (otherwise) at the delta, and the release adds
/// nothing.
pub proof fn law_side_click(
    mode: Mode,
    before: Seq<Step>,
    down: Step,
    dx: i8,
    move_device: DeviceKind,
    move_at: u64,
    up: Step,
)
    requires
        down.0 == Event::ButtonDown,
        up.0 == Event::ButtonUp,
    ensures
        ({
            let steps = before.push(down).push((Event::Horizontal(dx), move_device, move_at)).push(
                up,
            );
            &&& run(mode, steps).0 == Mode::Idle
            &&& run(mode, steps).1 == run(mode, before).1 + seq![
                OutputAction::SynthesizeClick(side_button(dx)),
            ]
        }),
{
    let s1 = before.push(down);
    let s2 = s1.push((Event::Horizontal(dx), move_device, move_at));
    lemma_run_push(mode, before, down);
    lemma_run_push(mode, s1, (Event::Horizontal(dx), move_device, move_at));
    lemma_run_push(mode, s2, up);
    assert(run(mode, s2.push(up)).1 =~= run(mode, before).1 + seq![
        OutputAction::SynthesizeClick(side_button(dx)),
    ]);
}

/// After the side click of a press, the next horizontal delta becomes
/// horizontal wheel motion of that delta times one notch, and the release
/// adds nothing.
pub proof fn law_side_click_then_wheel(
    mode: Mode,
    before: Seq<Step>,
    down: Step,
    first: Step,
    dx1: i8,
    second: Step,
    dx2: i8,
    up: Step,
)
    requires
        down.0 == Event::ButtonDown,
        first.0 == Event::Horizontal(dx1),
        second.0 == Event::Horizontal(dx2),
        up.0 == Event::ButtonUp,
    ensures
        ({
            let steps = before.push(down).push(first).push(second).push(up);
            &&& run(mode, steps).0 == Mode::Idle
            &&& run(mode, steps).1 == run(mode, before).1 + seq![
                OutputAction::SynthesizeClick(side_button(dx1)),
                wheel_action(WheelAxis::Horizontal, dx2),
            ]
        }),
{
    let s1 = before.push(down);
    let s2 = s1.push(first);
    let s3 = s2.push(second);
    lemma_run_push(mode, before, down);
    lemma_run_push(mode, s1, first);
    lemma_run_push(mode, s2, second);
    lemma_run_push(mode, s3, up);
    assert(run(mode, s3.push(up)).1 =~= run(mode, before).1 + seq![
        OutputAction::SynthesizeClick(side_button(dx1)),
        wheel_action(WheelAxis::Horizontal, dx2),
    ]);
}

/// Any number of releases fed to an idle machine produce nothing and leave
/// it idle.
pub proof fn law_idle_release_is_noop(steps: Seq<Step>)
    requires
        forall|i: int| 0 <= i < steps.len() ==> (#[trigger] steps[i]).0 == Event::ButtonUp,
    ensures
        run(Mode::Idle, steps) == (Mode::Idle, Seq::<OutputAction>::empty()),
    decreases steps.len(),
{
    if steps.len() > 0 {
        let rest = steps.drop_last();
        assert forall|i: int| 0 <= i < rest.len() implies (#[trigger] rest[i]).0
            == Event::ButtonUp by {
            assert(rest[i] == steps[i]);
        }
        law_idle_release_is_noop(rest);
        assert(steps.last() == steps[steps.len() - 1]);
        assert(run(Mode::Idle, steps).1 =~= Seq::<OutputAction>::empty());
    }
}

/// On a non-decreasing clock the click test is the elapsed time against the
/// click window, and a release that is a click would also have been one at
/// any earlier time after the press.
pub proof fn law_click_window_monotone(since: u64, earlier: u64, later: u64)
    requires
        since <= earlier <= later,
    ensures
        within_click_window(since, earlier) <==> earlier - since <= CLICK_WINDOW_MICROS,
        within_click_window(since, later) ==> within_click_window(since, earlier),
{
}

} // verus!
