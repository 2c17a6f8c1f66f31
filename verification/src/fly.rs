//! The controls of the map viewer: which keys are held, whether the right
//! mouse button steers the camera, and whether the picture must be drawn
//! again.
//!
//! The viewer's loop turns each window event into an [`Event`], hands it to
//! [`State::handle`] and carries out the [`Action`] that comes back; once per
//! frame it calls [`State::tick`] and moves the camera by the [`Motion`].

use vstd::prelude::*;

verus! {

/// The bit of the W key in the set of held keys: forwards.
pub const KEY_W: u8 = 0b1000;

/// The bit of the A key in the set of held keys: to the left.
pub const KEY_A: u8 = 0b0100;

/// The bit of the S key in the set of held keys: backwards.
pub const KEY_S: u8 = 0b0010;

/// The bit of the D key in the set of held keys: to the right.
pub const KEY_D: u8 = 0b0001;

/// How far the camera moves in one frame along an axis on which a key is held.
pub const STEP: i32 = 10;

/// The bit that a key's scancode stands for in the set of held keys, and no
/// bit for a key that does not move the camera.
pub open spec fn held_bits(code: u32) -> u8 {
    if code == 13 {
        KEY_W
    } else if code == 0 {
        KEY_A
    } else if code == 1 {
        KEY_S
    } else if code == 2 {
        KEY_D
    } else {
        0
    }
}

/// The bit that a key's scancode stands for in the set of held keys.
pub fn held_bits_from_scancode(code: u32) -> (bits: u8)
    ensures
        bits == held_bits(code),
{
    match code {
        13 => KEY_W,
        0 => KEY_A,
        1 => KEY_S,
        2 => KEY_D,
        _ => 0,
    }
}

/// What the window reports, as far as the controls depend on it.
#[derive(Clone, Copy, Debug, PartialEq, Eq, Structural)]
pub enum Event {
    /// The window was asked to close.
    CloseRequested,
    /// The window's content is stale.
    Refresh,
    /// A key went down or up.
    Key { pressed: bool, scancode: u32 },
    /// The right mouse button went down or up.
    RightButton { pressed: bool },
    /// The mouse moved.
    MouseMotion,
    /// Anything else.
    Other,
}

/// What the viewer's loop has to do after an event.
#[derive(Clone, Copy, Debug, PartialEq, Eq, Structural)]
pub enum Action {
    /// Nothing.
    Nothing,
    /// Grab and hide the cursor (`true`), or release and show it (`false`).
    GrabCursor(bool),
    /// Pan and tilt the camera by the distance that the mouse moved.
    Rotate,
}

/// How the camera moves in one frame, in its own units: `dolly` along the
/// line of sight, negative forwards, and `truck` across it, negative to the
/// left.
#[derive(Clone, Copy, Debug, PartialEq, Eq, Structural)]
pub struct Motion {
    pub dolly: i32,
    pub truck: i32,
}

/// The state of the controls.
#[derive(Clone, Copy, Debug, PartialEq, Eq, Structural)]
pub struct State {
    /// The window was asked to close.
    pub closed: bool,
    /// The picture on the screen shows the scene as it is.
    pub is_clean: bool,
    /// The keys that are held, one bit each: W, A, S, D from bit 3 down.
    pub held: u8,
    /// The right mouse button is down, so the mouse steers the camera.
    pub mouse_down: bool,
}

impl Default for State {
    fn default() -> (s: State)
        ensures
            s == (State { closed: false, is_clean: false, held: 0, mouse_down: false }),
    {
        State { closed: false, is_clean: false, held: 0, mouse_down: false }
    }
}

impl State {
    /// The state after an event.
    pub open spec fn after(self, ev: Event) -> State {
        match ev {
            Event::CloseRequested => State { closed: true, ..self },
            Event::Refresh => State { is_clean: false, ..self },
            Event::Key { pressed, scancode } => if pressed {
                State { held: self.held | held_bits(scancode), ..self }
            } else {
                State { held: self.held & !held_bits(scancode), ..self }
            },
            Event::RightButton { pressed } => State { mouse_down: pressed, ..self },
            Event::MouseMotion => if self.mouse_down {
                State { is_clean: false, ..self }
            } else {
                self
            },
            Event::Other => self,
        }
    }

    /// What the loop has to do after an event that arrives in this state.
    pub open spec fn action_on(self, ev: Event) -> Action {
        match ev {
            Event::RightButton { pressed } => Action::GrabCursor(pressed),
            Event::MouseMotion => if self.mouse_down {
                Action::Rotate
            } else {
                Action::Nothing
            },
            _ => Action::Nothing,
        }
    }

    /// The movement along one axis: a step back where only the key of `towards`
    /// is held, a step on where only the key of `away` is, and none where both
    /// or neither are.
    pub open spec fn along(held: u8, towards: u8, away: u8) -> int {
        if held & (towards | away) == towards {
            -STEP
        } else if held & (towards | away) == away {
            STEP as int
        } else {
            0
        }
    }

    /// Takes an event in and says what the loop has to do.
    pub fn handle(&mut self, ev: Event) -> (action: Action)
        ensures
            *final(self) == old(self).after(ev),
            action == old(self).action_on(ev),
    {
        match ev {
            Event::CloseRequested => {
                self.closed = true;
                Action::Nothing
            },
            Event::Refresh => {
                self.is_clean = false;
                Action::Nothing
            },
            Event::Key { pressed, scancode } => {
                if pressed {
                    self.held = self.held | held_bits_from_scancode(scancode);
                } else {
                    self.held = self.held & !held_bits_from_scancode(scancode);
                }
                Action::Nothing
            },
            Event::RightButton { pressed } => {
                self.mouse_down = pressed;
                Action::GrabCursor(pressed)
            },
            Event::MouseMotion => {
                if self.mouse_down {
                    self.is_clean = false;
                    Action::Rotate
                } else {
                    Action::Nothing
                }
            },
            Event::Other => Action::Nothing,
        }
    }

    /// One frame passes: the picture is stale if any key is held, and the
    /// camera moves as the held keys say.
    pub fn tick(&mut self) -> (m: Motion)
        ensures
            *final(self) == (State {
                is_clean: old(self).is_clean && old(self).held == 0,
                ..*old(self)
            }),
            m.dolly == State::along(old(self).held, KEY_W, KEY_S),
            m.truck == State::along(old(self).held, KEY_A, KEY_D),
    {
        assert(0b1000u8 | 0b0010u8 == 0b1010u8 && 0b0100u8 | 0b0001u8 == 0b0101u8)
            by (bit_vector);
        if self.held != 0 {
            self.is_clean = false;
        }
        let dolly: i32 = match self.held & 0b1010 {
            0b1000 => -STEP,
            0b0010 => STEP,
            _ => 0,
        };
        let truck: i32 = match self.held & 0b0101 {
            0b0100 => -STEP,
            0b0001 => STEP,
            _ => 0,
        };
        Motion { dolly, truck }
    }
}

} // verus!
