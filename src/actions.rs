use crate::config::hero::{Key, KeyAction, MouseButton};
use vstd::prelude::*;

verus! {

/// How long a pressed key is held before it is released, in milliseconds.
pub const SETTLE_DELAY_MS: u64 = 50;

/// One thing the output device does.
#[derive(Clone, Copy, Debug, PartialEq, Eq, Structural)]
pub enum Output {
    KeyDown(Key),
    KeyUp(Key),
    /// Wait for the given number of milliseconds.
    Pause(u64),
    /// Move the pointer by the offset, click, and move it back.
    Click(i32, i32, MouseButton),
}

/// Characters the output device can type: ASCII letters and digits.
pub open spec fn is_typeable(c: char) -> bool {
    ('a' <= c <= 'z') || ('A' <= c <= 'Z') || ('0' <= c <= '9')
}

pub fn typeable(c: char) -> (r: bool)
    ensures
        r == is_typeable(c),
{
    ('a' <= c && c <= 'z') || ('A' <= c && c <= 'Z') || ('0' <= c && c <= '9')
}

/// What one step does: a press is a key going down, the settle delay and the
/// key coming up.
pub open spec fn step_outputs(step: KeyAction) -> Seq<Output> {
    match step {
        KeyAction::Press(k) => seq![Output::KeyDown(k), Output::Pause(SETTLE_DELAY_MS), Output::KeyUp(k)],
        KeyAction::Down(k) => seq![Output::KeyDown(k)],
        KeyAction::Up(k) => seq![Output::KeyUp(k)],
        KeyAction::Delay(ms) => seq![Output::Pause(ms)],
        KeyAction::MouseClick(dx, dy, b) => seq![Output::Click(dx, dy, b)],
    }
}

/// What a list of steps does, one step after the other.
pub open spec fn plan_of(steps: Seq<KeyAction>) -> Seq<Output>
    decreases steps.len(),
{
    if steps.len() == 0 {
        Seq::empty()
    } else {
        plan_of(steps.drop_last()) + step_outputs(steps.last())
    }
}

/// The outputs that carry out `steps`, in order.
pub fn plan_actions(steps: &Vec<KeyAction>) -> (r: Vec<Output>)
    ensures
        r@ == plan_of(steps@),
{
    let mut r: Vec<Output> = Vec::new();
    let mut i: usize = 0;
    while i < steps.len()
        invariant
            i <= steps@.len(),
            r@ == plan_of(steps@.subrange(0, i as int)),
        decreases steps.len() - i,
    {
        let ghost before = r@;
        match steps[i] {
            KeyAction::Press(k) => {
                r.push(Output::KeyDown(k));
                r.push(Output::Pause(SETTLE_DELAY_MS));
                r.push(Output::KeyUp(k));
            },
            KeyAction::Down(k) => r.push(Output::KeyDown(k)),
            KeyAction::Up(k) => r.push(Output::KeyUp(k)),
            KeyAction::Delay(ms) => r.push(Output::Pause(ms)),
            KeyAction::MouseClick(dx, dy, b) => r.push(Output::Click(dx, dy, b)),
        }
        assert(steps@.subrange(0, i + 1).drop_last() =~= steps@.subrange(0, i as int));
        assert(r@ =~= before + step_outputs(steps@[i as int]));
        i = i + 1;
    }
    assert(steps@.subrange(0, i as int) =~= steps@);
    r
}

} // verus!
