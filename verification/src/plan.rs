//! From one frame of input to the camera operations of that frame.
//!
//! A frame is served in four phases, in this order: the mouse (panning while
//! the pan modifier is held, looking otherwise), the rotation keys, the
//! translation keys, and one closing orthonormalization.

use vstd::prelude::*;
use crate::input::{FrameInput, Sign};
use crate::step::{Amount, Measure, Step};

verus! {

/// The one step, if the control is held; nothing otherwise.
pub open spec fn when(held: bool, step: Step) -> Seq<Step> {
    if held {
        seq![step]
    } else {
        Seq::empty()
    }
}

/// The steps of the controls that are held, in the controls' order.
pub open spec fn phase(controls: Seq<(bool, Step)>) -> Seq<Step>
    decreases controls.len(),
{
    if controls.len() == 0 {
        Seq::empty()
    } else {
        phase(controls.drop_last()) + when(controls.last().0, controls.last().1)
    }
}

/// Panning: the mouse translates along right and up, by the pan amount,
/// in the direction of its motion on each axis. Moving the mouse down the
/// screen moves the camera down.
pub open spec fn pan_controls(input: FrameInput) -> Seq<(bool, Step)> {
    seq![
        (input.mouse_x == Sign::Positive, Step::MoveRight(Amount::plus_spec(Measure::Pan))),
        (input.mouse_x == Sign::Negative, Step::MoveRight(Amount::minus_spec(Measure::Pan))),
        (input.mouse_y == Sign::Positive, Step::MoveUp(Amount::minus_spec(Measure::Pan))),
        (input.mouse_y == Sign::Negative, Step::MoveUp(Amount::plus_spec(Measure::Pan))),
    ]
}

/// The rotation keys: pitch down, pitch up, yaw right, yaw left.
pub open spec fn turn_controls(input: FrameInput) -> Seq<(bool, Step)> {
    seq![
        (input.pitch_down, Step::Pitch(Amount::minus_spec(Measure::Turn))),
        (input.pitch_up, Step::Pitch(Amount::plus_spec(Measure::Turn))),
        (input.yaw_right, Step::Yaw(Amount::minus_spec(Measure::Turn))),
        (input.yaw_left, Step::Yaw(Amount::plus_spec(Measure::Turn))),
    ]
}

/// The translation keys: forward, back, right, left, up, down.
pub open spec fn travel_controls(input: FrameInput) -> Seq<(bool, Step)> {
    seq![
        (input.forward, Step::MoveForward(Amount::plus_spec(Measure::Travel))),
        (input.back, Step::MoveForward(Amount::minus_spec(Measure::Travel))),
        (input.right, Step::MoveRight(Amount::plus_spec(Measure::Travel))),
        (input.left, Step::MoveRight(Amount::minus_spec(Measure::Travel))),
        (input.up, Step::MoveUp(Amount::plus_spec(Measure::Travel))),
        (input.down, Step::MoveUp(Amount::minus_spec(Measure::Travel))),
    ]
}

/// The steps of panning.
pub open spec fn pan_steps(input: FrameInput) -> Seq<Step> {
    phase(pan_controls(input))
}

/// Looking: a yaw, then a pitch, each against the mouse motion on its axis.
pub open spec fn look_steps() -> Seq<Step> {
    seq![
        Step::Yaw(Amount::minus_spec(Measure::MouseX)),
        Step::Pitch(Amount::minus_spec(Measure::MouseY)),
    ]
}

/// The mouse phase: panning while the pan modifier is held, looking otherwise.
pub open spec fn mouse_steps(input: FrameInput) -> Seq<Step> {
    if input.pan {
        pan_steps(input)
    } else {
        look_steps()
    }
}

/// The steps of the rotation keys.
pub open spec fn turn_steps(input: FrameInput) -> Seq<Step> {
    phase(turn_controls(input))
}

/// The steps of the translation keys.
pub open spec fn travel_steps(input: FrameInput) -> Seq<Step> {
    phase(travel_controls(input))
}

/// Everything a frame does to the camera, in order.
pub open spec fn frame_steps(input: FrameInput) -> Seq<Step> {
    mouse_steps(input) + turn_steps(input) + travel_steps(input) + seq![Step::Orthonormalize]
}

/// Appending two runs in turn appends their concatenation.
proof fn lemma_append_twice(head: Seq<Step>, first: Seq<Step>, second: Seq<Step>)
    ensures
        (head + first) + second == head + (first + second),
{
    assert((head + first) + second =~= head + (first + second));
}

/// Appends the steps of the controls that are held.
fn push_phase(steps: &mut Vec<Step>, controls: &Vec<(bool, Step)>)
    ensures
        final(steps)@ == old(steps)@ + phase(controls@),
{
    let ghost before = steps@;
    let mut i: usize = 0;
    assert(steps@ =~= before + phase(controls@.take(0)));
    while i < controls.len()
        invariant
            i <= controls.len(),
            steps@ == before + phase(controls@.take(i as int)),
        decreases controls.len() - i,
    {
        let (held, step) = controls[i];
        let ghost so_far = steps@;
        if held {
            steps.push(step);
        }
        proof {
            let next = controls@.take(i + 1);
            assert(next.drop_last() =~= controls@.take(i as int));
            assert(next.last() == controls@[i as int]);
            assert(steps@ =~= so_far + when(held, step));
            lemma_append_twice(before, phase(controls@.take(i as int)), when(held, step));
        }
        i += 1;
    }
    proof {
        assert(controls@.take(controls.len() as int) =~= controls@);
    }
}

fn pan_controls_of(input: &FrameInput) -> (controls: Vec<(bool, Step)>)
    ensures
        controls@ == pan_controls(*input),
{
    let controls = vec![
        (input.mouse_x == Sign::Positive, Step::MoveRight(Amount::plus(Measure::Pan))),
        (input.mouse_x == Sign::Negative, Step::MoveRight(Amount::minus(Measure::Pan))),
        (input.mouse_y == Sign::Positive, Step::MoveUp(Amount::minus(Measure::Pan))),
        (input.mouse_y == Sign::Negative, Step::MoveUp(Amount::plus(Measure::Pan))),
    ];
    proof {
        assert(controls@ =~= pan_controls(*input));
    }
    controls
}

fn turn_controls_of(input: &FrameInput) -> (controls: Vec<(bool, Step)>)
    ensures
        controls@ == turn_controls(*input),
{
    let controls = vec![
        (input.pitch_down, Step::Pitch(Amount::minus(Measure::Turn))),
        (input.pitch_up, Step::Pitch(Amount::plus(Measure::Turn))),
        (input.yaw_right, Step::Yaw(Amount::minus(Measure::Turn))),
        (input.yaw_left, Step::Yaw(Amount::plus(Measure::Turn))),
    ];
    proof {
        assert(controls@ =~= turn_controls(*input));
    }
    controls
}

fn travel_controls_of(input: &FrameInput) -> (controls: Vec<(bool, Step)>)
    ensures
        controls@ == travel_controls(*input),
{
    let controls = vec![
        (input.forward, Step::MoveForward(Amount::plus(Measure::Travel))),
        (input.back, Step::MoveForward(Amount::minus(Measure::Travel))),
        (input.right, Step::MoveRight(Amount::plus(Measure::Travel))),
        (input.left, Step::MoveRight(Amount::minus(Measure::Travel))),
        (input.up, Step::MoveUp(Amount::plus(Measure::Travel))),
        (input.down, Step::MoveUp(Amount::minus(Measure::Travel))),
    ];
    proof {
        assert(controls@ =~= travel_controls(*input));
    }
    controls
}

/// Appends the mouse phase of the frame.
fn push_mouse(steps: &mut Vec<Step>, input: &FrameInput)
    ensures
        final(steps)@ == old(steps)@ + mouse_steps(*input),
{
    if input.pan {
        let controls = pan_controls_of(input);
        push_phase(steps, &controls);
    } else {
        steps.push(Step::Yaw(Amount::minus(Measure::MouseX)));
        steps.push(Step::Pitch(Amount::minus(Measure::MouseY)));
        proof {
            assert(steps@ =~= old(steps)@ + look_steps());
        }
    }
}

/// The camera operations that a frame of input asks for, in the order in
/// which they are to be carried out.
pub fn plan_update(input: &FrameInput) -> (steps: Vec<Step>)
    ensures
        steps@ == frame_steps(*input),
{
    let mut steps: Vec<Step> = Vec::new();
    push_mouse(&mut steps, input);
    let turns = turn_controls_of(input);
    push_phase(&mut steps, &turns);
    let travel = travel_controls_of(input);
    push_phase(&mut steps, &travel);
    steps.push(Step::Orthonormalize);
    proof {
        let head = mouse_steps(*input) + turn_steps(*input) + travel_steps(*input);
        assert(Seq::<Step>::empty() + mouse_steps(*input) =~= mouse_steps(*input));
        assert(steps@ =~= head + seq![Step::Orthonormalize]);
    }
    steps
}

/// The property holds of each step of the run.
pub open spec fn every(steps: Seq<Step>, holds: spec_fn(Step) -> bool) -> bool {
    forall|i: int| 0 <= i < steps.len() ==> holds(#[trigger] steps[i])
}

/// The step takes the travel amount.
pub open spec fn by_travel(step: Step) -> bool {
    match step.amount() {
        Some(a) => a.measure == Measure::Travel,
        None => false,
    }
}

proof fn lemma_every_append(a: Seq<Step>, b: Seq<Step>, holds: spec_fn(Step) -> bool)
    ensures
        every(a + b, holds) == (every(a, holds) && every(b, holds)),
{
    if every(a + b, holds) {
        assert forall|i: int| 0 <= i < a.len() implies holds(#[trigger] a[i]) by {
            assert((a + b)[i] == a[i]);
        }
        assert forall|i: int| 0 <= i < b.len() implies holds(#[trigger] b[i]) by {
            assert((a + b)[i + a.len()] == b[i]);
        }
    }
    if every(a, holds) && every(b, holds) {
        assert forall|i: int| 0 <= i < (a + b).len() implies holds(#[trigger] (a + b)[i]) by {
            if i < a.len() {
                assert((a + b)[i] == a[i]);
            } else {
                assert((a + b)[i] == b[i - a.len()]);
            }
        }
    }
}

proof fn lemma_every_when(held: bool, step: Step, holds: spec_fn(Step) -> bool)
    ensures
        every(when(held, step), holds) == (held ==> holds(step)),
{
    if held {
        assert(when(held, step)[0] == step);
    }
}

proof fn lemma_every_phase(controls: Seq<(bool, Step)>, holds: spec_fn(Step) -> bool)
    requires
        forall|i: int| 0 <= i < controls.len() && (#[trigger] controls[i]).0 ==> holds(controls[i].1),
    ensures
        every(phase(controls), holds),
    decreases controls.len(),
{
    if controls.len() > 0 {
        let head = controls.drop_last();
        assert forall|i: int| 0 <= i < head.len() && (#[trigger] head[i]).0 implies holds(
            head[i].1,
        ) by {
            assert(head[i] == controls[i]);
        }
        lemma_every_phase(head, holds);
        assert(controls.last() == controls[controls.len() - 1]);
        lemma_every_when(controls.last().0, controls.last().1, holds);
        lemma_every_append(phase(head), when(controls.last().0, controls.last().1), holds);
    }
}

proof fn lemma_phase_length(controls: Seq<(bool, Step)>)
    ensures
        phase(controls).len() <= controls.len(),
    decreases controls.len(),
{
    if controls.len() > 0 {
        lemma_phase_length(controls.drop_last());
    }
}

proof fn lemma_every_pan(input: FrameInput, holds: spec_fn(Step) -> bool)
    requires
        forall|a: Amount| a.measure == Measure::Pan ==> #[trigger] holds(Step::MoveRight(a)),
        forall|a: Amount| a.measure == Measure::Pan ==> #[trigger] holds(Step::MoveUp(a)),
    ensures
        every(pan_steps(input), holds),
{
    let controls = pan_controls(input);
    assert forall|i: int| 0 <= i < controls.len() && (#[trigger] controls[i]).0 implies holds(
        controls[i].1,
    ) by {
        if i == 0 || i == 1 {
            assert(controls[i].1 is MoveRight);
        } else {
            assert(controls[i].1 is MoveUp);
        }
    }
    lemma_every_phase(controls, holds);
}

proof fn lemma_every_turn(input: FrameInput, holds: spec_fn(Step) -> bool)
    requires
        forall|a: Amount| a.measure == Measure::Turn ==> #[trigger] holds(Step::Pitch(a)),
        forall|a: Amount| a.measure == Measure::Turn ==> #[trigger] holds(Step::Yaw(a)),
    ensures
        every(turn_steps(input), holds),
{
    let controls = turn_controls(input);
    assert forall|i: int| 0 <= i < controls.len() && (#[trigger] controls[i]).0 implies holds(
        controls[i].1,
    ) by {
        if i == 0 || i == 1 {
            assert(controls[i].1 is Pitch);
        } else {
            assert(controls[i].1 is Yaw);
        }
    }
    lemma_every_phase(controls, holds);
}

proof fn lemma_every_travel(input: FrameInput, holds: spec_fn(Step) -> bool)
    requires
        forall|a: Amount| a.measure == Measure::Travel ==> #[trigger] holds(Step::MoveForward(a)),
        forall|a: Amount| a.measure == Measure::Travel ==> #[trigger] holds(Step::MoveRight(a)),
        forall|a: Amount| a.measure == Measure::Travel ==> #[trigger] holds(Step::MoveUp(a)),
    ensures
        every(travel_steps(input), holds),
{
    let controls = travel_controls(input);
    assert forall|i: int| 0 <= i < controls.len() && (#[trigger] controls[i]).0 implies holds(
        controls[i].1,
    ) by {
        if i == 0 || i == 1 {
            assert(controls[i].1 is MoveForward);
        } else if i == 2 || i == 3 {
            assert(controls[i].1 is MoveRight);
        } else {
            assert(controls[i].1 is MoveUp);
        }
    }
    lemma_every_phase(controls, holds);
}

/// Where no control is held the phase is empty.
proof fn lemma_idle_phase(controls: Seq<(bool, Step)>)
    requires
        forall|i: int| 0 <= i < controls.len() ==> !(#[trigger] controls[i]).0,
    ensures
        phase(controls) == Seq::<Step>::empty(),
{
    let never = |s: Step| false;
    lemma_every_phase(controls, never);
    if phase(controls).len() > 0 {
        assert(never(phase(controls)[0]));
    }
    assert(phase(controls) =~= Seq::<Step>::empty());
}

/// Every frame ends with an orthonormalization, and holds no other.
pub proof fn lemma_orthonormalize_once_at_end(input: FrameInput)
    ensures
        frame_steps(input).len() >= 1,
        frame_steps(input).last() == Step::Orthonormalize,
        forall|i: int|
            0 <= i < frame_steps(input).len() - 1 ==> #[trigger] frame_steps(input)[i]
                != Step::Orthonormalize,
{
    let holds = |s: Step| s != Step::Orthonormalize;
    let a = mouse_steps(input);
    let b = turn_steps(input);
    let c = travel_steps(input);
    if input.pan {
        lemma_every_pan(input, holds);
    }
    lemma_every_turn(input, holds);
    lemma_every_travel(input, holds);
    lemma_every_append(a, b, holds);
    lemma_every_append(a + b, c, holds);
    assert forall|i: int| 0 <= i < frame_steps(input).len() - 1 implies #[trigger] frame_steps(
        input,
    )[i] != Step::Orthonormalize by {
        assert(frame_steps(input)[i] == (a + b + c)[i]);
        assert(holds((a + b + c)[i]));
    }
}

/// While the pan modifier is held, no operation of the frame takes its
/// amount from the mouse: the mouse neither yaws nor pitches.
pub proof fn lemma_pan_ignores_mouse_amounts(input: FrameInput)
    requires
        input.pan,
    ensures
        forall|i: int|
            0 <= i < frame_steps(input).len() ==> !(#[trigger] frame_steps(input)[i]).mouse_driven(),
{
    let holds = |s: Step| !s.mouse_driven();
    let a = mouse_steps(input);
    let b = turn_steps(input);
    let c = travel_steps(input);
    let d = seq![Step::Orthonormalize];
    lemma_every_pan(input, holds);
    lemma_every_turn(input, holds);
    lemma_every_travel(input, holds);
    assert(every(d, holds));
    lemma_every_append(a, b, holds);
    lemma_every_append(a + b, c, holds);
    lemma_every_append(a + b + c, d, holds);
    assert forall|i: int| 0 <= i < frame_steps(input).len() implies !(#[trigger] frame_steps(
        input,
    )[i]).mouse_driven() by {
        assert(holds(frame_steps(input)[i]));
    }
}

/// While the pan modifier is not held, the frame opens with a yaw against the
/// horizontal mouse motion and a pitch against the vertical one, and nothing
/// after them takes its amount from the mouse.
pub proof fn lemma_look_opens_frame(input: FrameInput)
    requires
        !input.pan,
    ensures
        frame_steps(input).len() >= 3,
        frame_steps(input)[0] == Step::Yaw(Amount::minus_spec(Measure::MouseX)),
        frame_steps(input)[1] == Step::Pitch(Amount::minus_spec(Measure::MouseY)),
        forall|i: int|
            2 <= i < frame_steps(input).len() ==> !(#[trigger] frame_steps(input)[i]).mouse_driven(),
{
    let holds = |s: Step| !s.mouse_driven();
    let a = mouse_steps(input);
    let b = turn_steps(input);
    let c = travel_steps(input);
    let d = seq![Step::Orthonormalize];
    lemma_every_turn(input, holds);
    lemma_every_travel(input, holds);
    assert(every(d, holds));
    lemma_every_append(b, c, holds);
    lemma_every_append(b + c, d, holds);
    lemma_append_twice(a, b, c);
    lemma_append_twice(a, b + c, d);
    let rest = b + c + d;
    assert(frame_steps(input) == a + rest);
    assert(a.len() == 2);
    assert(frame_steps(input)[0] == a[0]);
    assert(frame_steps(input)[1] == a[1]);
    assert forall|i: int| 2 <= i < frame_steps(input).len() implies !(#[trigger] frame_steps(
        input,
    )[i]).mouse_driven() by {
        assert(frame_steps(input)[i] == rest[i - 2]);
        assert(holds(rest[i - 2]));
    }
}

/// While the pan modifier is held and no rotation key is, every operation
/// before the closing orthonormalization is a pure translation: nothing in
/// the frame turns the view.
pub proof fn lemma_pan_only_translates(input: FrameInput)
    requires
        input.pan,
        !input.turns(),
    ensures
        forall|i: int|
            0 <= i < frame_steps(input).len() - 1 ==> (#[trigger] frame_steps(input)[i]).translates(),
        forall|i: int|
            0 <= i < frame_steps(input).len() ==> !(#[trigger] frame_steps(input)[i]).rotates(),
{
    let holds = |s: Step| s.translates();
    let a = mouse_steps(input);
    let b = turn_steps(input);
    let c = travel_steps(input);
    lemma_every_pan(input, holds);
    lemma_idle_phase(turn_controls(input));
    assert(a + b =~= a);
    lemma_every_travel(input, holds);
    lemma_every_append(a, c, holds);
    lemma_orthonormalize_once_at_end(input);
    assert forall|i: int| 0 <= i < frame_steps(input).len() - 1 implies (#[trigger] frame_steps(
        input,
    )[i]).translates() by {
        assert(frame_steps(input)[i] == (a + c)[i]);
        assert(holds((a + c)[i]));
    }
    assert forall|i: int| 0 <= i < frame_steps(input).len() implies !(#[trigger] frame_steps(
        input,
    )[i]).rotates() by {
        if i < frame_steps(input).len() - 1 {
            assert(frame_steps(input)[i].translates());
        }
    }
}

/// The rotations of a frame are over before its translation keys are served:
/// no rotation follows an operation that takes the travel amount.
pub proof fn lemma_rotations_before_travel(input: FrameInput)
    ensures
        forall|i: int, j: int|
            0 <= i < j < frame_steps(input).len() && by_travel(#[trigger] frame_steps(input)[i])
                ==> !(#[trigger] frame_steps(input)[j]).rotates(),
{
    let early = |s: Step| !by_travel(s);
    let late = |s: Step| !s.rotates();
    let a = mouse_steps(input);
    let b = turn_steps(input);
    let c = travel_steps(input);
    let d = seq![Step::Orthonormalize];
    if input.pan {
        lemma_every_pan(input, early);
    }
    lemma_every_turn(input, early);
    lemma_every_append(a, b, early);
    lemma_every_travel(input, late);
    assert(every(d, late));
    lemma_every_append(c, d, late);
    lemma_append_twice(a + b, c, d);
    let head = a + b;
    let tail = c + d;
    assert(frame_steps(input) == head + tail);
    assert forall|i: int, j: int|
        0 <= i < j < frame_steps(input).len() && by_travel(
            #[trigger] frame_steps(input)[i],
        ) implies !(#[trigger] frame_steps(input)[j]).rotates() by {
        if i < head.len() {
            assert(frame_steps(input)[i] == head[i]);
            assert(early(head[i]));
        } else {
            assert(frame_steps(input)[j] == tail[j - head.len()]);
            assert(late(tail[j - head.len()]));
        }
    }
}

proof fn lemma_mouse_length(input: FrameInput)
    ensures
        mouse_steps(input).len() <= 2,
{
    if input.pan {
        let four = pan_controls(input);
        let three = four.drop_last();
        let two = three.drop_last();
        let one = two.drop_last();
        assert(one.drop_last().len() == 0);
        assert(phase(one).len() == when(four[0].0, four[0].1).len()) by {
            assert(one.last() == four[0]);
            assert(phase(one.drop_last()).len() == 0);
        }
        assert(phase(two).len() == phase(one).len() + when(four[1].0, four[1].1).len()) by {
            assert(two.last() == four[1]);
        }
        assert(phase(three).len() == phase(two).len() + when(four[2].0, four[2].1).len()) by {
            assert(three.last() == four[2]);
        }
        assert(phase(four).len() == phase(three).len() + when(four[3].0, four[3].1).len()) by {
            assert(four.last() == four[3]);
        }
    }
}

proof fn lemma_turn_length(input: FrameInput)
    ensures
        turn_steps(input).len() <= 4,
{
    lemma_phase_length(turn_controls(input));
}

proof fn lemma_travel_length(input: FrameInput)
    ensures
        travel_steps(input).len() <= 6,
{
    lemma_phase_length(travel_controls(input));
}

/// A frame asks for at most thirteen operations: two from the mouse, one for
/// each of the four rotation keys and the six translation keys, and the
/// closing orthonormalization.
pub proof fn lemma_frame_length(input: FrameInput)
    ensures
        1 <= frame_steps(input).len() <= 13,
        frame_steps(input).len() == mouse_steps(input).len() + turn_steps(input).len()
            + travel_steps(input).len() + 1,
{
    lemma_mouse_length(input);
    lemma_turn_length(input);
    lemma_travel_length(input);
    let a = mouse_steps(input);
    let b = turn_steps(input);
    let c = travel_steps(input);
    assert(frame_steps(input) == a + b + c + seq![Step::Orthonormalize]);
    assert((a + b + c + seq![Step::Orthonormalize]).len() == a.len() + b.len() + c.len() + 1);
}

} // verus!
