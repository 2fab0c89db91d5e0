//! The spinner demo's own rules: which texture each color names, the
//! per-frame rotation policy, and the input-driven loop state.

use crate::fx::{Fx, FX_SCALE};
use crate::text::str_eq;
use vstd::prelude::*;

verus! {

/// A full turn, 360 degrees, as a raw fixed-point numerator.
pub const FULL_TURN: i64 = 360 * FX_SCALE;

/// The three spinner colors the demo ships textures for.
#[derive(Clone, Copy, Debug, PartialEq, Eq, Structural)]
pub enum FidgetType {
    Black,
    Green,
    Yellow,
}

impl FidgetType {
    /// The texture file path of this color.
    pub fn path(&self) -> (r: &'static str)
        ensures
            *self == FidgetType::Black ==> r@ == "./textures/fidget-spinner-black.png"@,
            *self == FidgetType::Green ==> r@ == "./textures/fidget-spinner-green.png"@,
            *self == FidgetType::Yellow ==> r@ == "./textures/fidget-spinner-yellow.png"@,
    {
        match *self {
            FidgetType::Black => "./textures/fidget-spinner-black.png",
            FidgetType::Green => "./textures/fidget-spinner-green.png",
            FidgetType::Yellow => "./textures/fidget-spinner-yellow.png",
        }
    }

    /// The color a command-line argument names, if it names one: exactly
    /// `black`, `green` or `yellow`; anything else is rejected.
    pub fn parse(arg: &str) -> (r: Option<FidgetType>)
        ensures
            r == Some(FidgetType::Black) <==> arg@ == "black"@,
            r == Some(FidgetType::Green) <==> arg@ == "green"@,
            r == Some(FidgetType::Yellow) <==> arg@ == "yellow"@,
            r is None <==> arg@ != "black"@ && arg@ != "green"@ && arg@ != "yellow"@,
    {
        proof {
            reveal_strlit("black");
            reveal_strlit("green");
            reveal_strlit("yellow");
            assert("black"@[0] == 'b');
            assert("green"@[0] == 'g');
            assert("yellow"@[0] == 'y');
            assert("black"@ != "green"@);
            assert("black"@ != "yellow"@);
            assert("green"@ != "yellow"@);
        }
        if str_eq(arg, "black") {
            Some(FidgetType::Black)
        } else if str_eq(arg, "green") {
            Some(FidgetType::Green)
        } else if str_eq(arg, "yellow") {
            Some(FidgetType::Yellow)
        } else {
            None
        }
    }
}

/// The per-frame rotation rule: while spinning, the angle grows by the
/// time-scaled increment `delta` and one full turn is subtracted the moment
/// the sum reaches 360 degrees; while not spinning it stays put.
pub fn update_rotation(spinning: bool, rotate: Fx, delta: Fx) -> (r: Fx)
    requires
        0 <= rotate.raw < FULL_TURN,
        0 <= delta.raw <= FULL_TURN,
    ensures
        !spinning ==> r == rotate,
        spinning && rotate.raw + delta.raw < FULL_TURN ==> r.raw == rotate.raw + delta.raw,
        spinning && rotate.raw + delta.raw >= FULL_TURN ==> r.raw == rotate.raw + delta.raw
            - FULL_TURN,
        0 <= r.raw < FULL_TURN,
{
    if spinning {
        let next: i64 = rotate.raw + delta.raw;
        if next >= FULL_TURN {
            Fx { raw: next - FULL_TURN }
        } else {
            Fx { raw: next }
        }
    } else {
        rotate
    }
}

/// What the render loop polls each frame.
#[derive(Clone, Copy, Debug, PartialEq, Eq, Structural)]
pub enum InputEvent {
    MousePressed,
    MouseReleased,
    CloseRequested,
    Other,
}

/// The loop-local state the events drive: whether the loop keeps running,
/// whether the sprite spins, and whether a mouse button is held down.
#[derive(Clone, Copy, Debug, PartialEq, Eq, Structural)]
pub struct LoopState {
    pub running: bool,
    pub spinning: bool,
    pub pressed: bool,
}

/// The loop state after one event: a fresh press toggles spinning and is
/// remembered until released, so holding the button toggles only once; a
/// release forgets the press; a close request stops the loop.
pub open spec fn next_loop_state(s: LoopState, e: InputEvent) -> LoopState {
    match e {
        InputEvent::MousePressed => {
            if !s.pressed {
                LoopState { pressed: true, spinning: !s.spinning, ..s }
            } else {
                s
            }
        },
        InputEvent::MouseReleased => LoopState { pressed: false, ..s },
        InputEvent::CloseRequested => LoopState { running: false, ..s },
        InputEvent::Other => s,
    }
}

impl LoopState {
    /// The state the loop starts in: running, not spinning, nothing held.
    pub fn start() -> (r: LoopState)
        ensures
            r == (LoopState { running: true, spinning: false, pressed: false }),
    {
        LoopState { running: true, spinning: false, pressed: false }
    }

    /// Step the loop state by one polled event.
    pub fn handle_event(self, e: InputEvent) -> (r: LoopState)
        ensures
            r == next_loop_state(self, e),
    {
        match e {
            InputEvent::MousePressed => {
                if !self.pressed {
                    LoopState { pressed: true, spinning: !self.spinning, ..self }
                } else {
                    self
                }
            },
            InputEvent::MouseReleased => LoopState { pressed: false, ..self },
            InputEvent::CloseRequested => LoopState { running: false, ..self },
            InputEvent::Other => self,
        }
    }
}

} // verus!
