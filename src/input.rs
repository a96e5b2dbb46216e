//! The commanded-input accumulator: which movement, roll and modifier
//! actions are currently held, driven by key and button events.

use vstd::prelude::*;

use crate::types::ControlScheme;

verus! {

/// The mouse button that enables free look while held.
pub const MOUSE_0_ID: u32 = 0;

/// The ten semantic actions that keys and buttons are bound to.
#[derive(Clone, Copy, Debug, PartialEq, Eq, Structural)]
pub enum InputAction {
    Fwd,
    Back,
    Left,
    Right,
    Up,
    Down,
    RollCcw,
    RollCw,
    Run,
    FreeLook,
}

/// Physical keys that carry a binding; `Other` stands for every other key.
#[derive(Clone, Copy, Debug, PartialEq, Eq, Structural)]
pub enum Key {
    W,
    S,
    A,
    D,
    Space,
    C,
    Q,
    E,
    ShiftLeft,
    Other,
}

/// A raw device event, reduced to what the accumulator reacts to.
#[derive(Clone, Copy, Debug, PartialEq, Eq, Structural)]
pub enum InputEvent {
    KeyPressed(Key),
    KeyReleased(Key),
    ButtonPressed(u32),
    ButtonReleased(u32),
}

/// The action bound to each key.
pub open spec fn key_binding(key: Key) -> Option<InputAction> {
    match key {
        Key::W => Some(InputAction::Fwd),
        Key::S => Some(InputAction::Back),
        Key::A => Some(InputAction::Left),
        Key::D => Some(InputAction::Right),
        Key::Space => Some(InputAction::Up),
        Key::C => Some(InputAction::Down),
        Key::Q => Some(InputAction::RollCcw),
        Key::E => Some(InputAction::RollCw),
        Key::ShiftLeft => Some(InputAction::Run),
        Key::Other => None,
    }
}

/// The action an event sets, and the value it sets it to.
pub open spec fn event_effect(event: InputEvent) -> Option<(InputAction, bool)> {
    match event {
        InputEvent::KeyPressed(k) => match key_binding(k) {
            Some(a) => Some((a, true)),
            None => None,
        },
        InputEvent::KeyReleased(k) => match key_binding(k) {
            Some(a) => Some((a, false)),
            None => None,
        },
        InputEvent::ButtonPressed(b) => if b == MOUSE_0_ID {
            Some((InputAction::FreeLook, true))
        } else {
            None
        },
        InputEvent::ButtonReleased(b) => if b == MOUSE_0_ID {
            Some((InputAction::FreeLook, false))
        } else {
            None
        },
    }
}

/// Looks up the action bound to a key.
pub fn key_action(key: Key) -> (r: Option<InputAction>)
    ensures
        r == key_binding(key),
{
    match key {
        Key::W => Some(InputAction::Fwd),
        Key::S => Some(InputAction::Back),
        Key::A => Some(InputAction::Left),
        Key::D => Some(InputAction::Right),
        Key::Space => Some(InputAction::Up),
        Key::C => Some(InputAction::Down),
        Key::Q => Some(InputAction::RollCcw),
        Key::E => Some(InputAction::RollCw),
        Key::ShiftLeft => Some(InputAction::Run),
        Key::Other => None,
    }
}

/// The actions currently held. Flags persist until a release event clears
/// them, so a held key keeps acting on every frame.
#[derive(Clone, Copy, Debug, PartialEq, Eq, Structural)]
pub struct InputsCommanded {
    pub fwd: bool,
    pub back: bool,
    pub left: bool,
    pub right: bool,
    pub up: bool,
    pub down: bool,
    pub roll_ccw: bool,
    pub roll_cw: bool,
    pub run: bool,
    pub free_look: bool,
}

impl Default for InputsCommanded {
    fn default() -> (r: Self)
        ensures
            forall|a: InputAction| !r.held(a),
    {
        InputsCommanded {
            fwd: false,
            back: false,
            left: false,
            right: false,
            up: false,
            down: false,
            roll_ccw: false,
            roll_cw: false,
            run: false,
            free_look: false,
        }
    }
}

impl InputsCommanded {
    /// Whether `action` is held.
    pub open spec fn held(self, action: InputAction) -> bool {
        match action {
            InputAction::Fwd => self.fwd,
            InputAction::Back => self.back,
            InputAction::Left => self.left,
            InputAction::Right => self.right,
            InputAction::Up => self.up,
            InputAction::Down => self.down,
            InputAction::RollCcw => self.roll_ccw,
            InputAction::RollCw => self.roll_cw,
            InputAction::Run => self.run,
            InputAction::FreeLook => self.free_look,
        }
    }

    /// This state with `action` set to `value` and every other flag kept.
    pub open spec fn with_held(self, action: InputAction, value: bool) -> Self {
        match action {
            InputAction::Fwd => InputsCommanded { fwd: value, ..self },
            InputAction::Back => InputsCommanded { back: value, ..self },
            InputAction::Left => InputsCommanded { left: value, ..self },
            InputAction::Right => InputsCommanded { right: value, ..self },
            InputAction::Up => InputsCommanded { up: value, ..self },
            InputAction::Down => InputsCommanded { down: value, ..self },
            InputAction::RollCcw => InputsCommanded { roll_ccw: value, ..self },
            InputAction::RollCw => InputsCommanded { roll_cw: value, ..self },
            InputAction::Run => InputsCommanded { run: value, ..self },
            InputAction::FreeLook => InputsCommanded { free_look: value, ..self },
        }
    }

    /// Whether any movement or roll action is held; `run` and `free_look`
    /// are modifiers and do not count.
    pub open spec fn any_motion_held(self) -> bool {
        self.fwd || self.back || self.left || self.right || self.up || self.down || self.roll_ccw
            || self.roll_cw
    }

    /// Returns whether `action` is held.
    pub fn is_held(&self, action: InputAction) -> (r: bool)
        ensures
            r == self.held(action),
    {
        match action {
            InputAction::Fwd => self.fwd,
            InputAction::Back => self.back,
            InputAction::Left => self.left,
            InputAction::Right => self.right,
            InputAction::Up => self.up,
            InputAction::Down => self.down,
            InputAction::RollCcw => self.roll_ccw,
            InputAction::RollCw => self.roll_cw,
            InputAction::Run => self.run,
            InputAction::FreeLook => self.free_look,
        }
    }

    /// Sets one action's flag, leaving the others as they are.
    pub fn set_held(&mut self, action: InputAction, value: bool)
        ensures
            *final(self) == old(self).with_held(action, value),
            final(self).held(action) == value,
            forall|a: InputAction| a != action ==> final(self).held(a) == old(self).held(a),
    {
        match action {
            InputAction::Fwd => self.fwd = value,
            InputAction::Back => self.back = value,
            InputAction::Left => self.left = value,
            InputAction::Right => self.right = value,
            InputAction::Up => self.up = value,
            InputAction::Down => self.down = value,
            InputAction::RollCcw => self.roll_ccw = value,
            InputAction::RollCw => self.roll_cw = value,
            InputAction::Run => self.run = value,
            InputAction::FreeLook => self.free_look = value,
        }
    }

    /// Returns true if there is anything for the camera to act on: a held
    /// movement or roll action, or mouse motion above the jitter threshold
    /// (`mouse_moved`, decided by the caller from the accumulated deltas).
    pub fn inputs_present(&self, mouse_moved: bool) -> (r: bool)
        ensures
            r == (self.any_motion_held() || mouse_moved),
    {
        self.fwd || self.back || self.left || self.right || self.up || self.down || self.roll_ccw
            || self.roll_cw || mouse_moved
    }
}

/// Applies one device event to the commanded inputs: a press of a bound key
/// or of the free-look button sets its action, a release clears it, and any
/// other event leaves the state unchanged.
pub fn add_input_cmd(event: InputEvent, inputs: &mut InputsCommanded)
    ensures
        *final(inputs) == match event_effect(event) {
            Some((a, v)) => old(inputs).with_held(a, v),
            None => *old(inputs),
        },
{
    match event {
        InputEvent::KeyPressed(k) => {
            if let Some(a) = key_action(k) {
                inputs.set_held(a, true);
            }
        },
        InputEvent::KeyReleased(k) => {
            if let Some(a) = key_action(k) {
                inputs.set_held(a, false);
            }
        },
        InputEvent::ButtonPressed(b) => {
            if b == MOUSE_0_ID {
                inputs.set_held(InputAction::FreeLook, true);
            }
        },
        InputEvent::ButtonReleased(b) => {
            if b == MOUSE_0_ID {
                inputs.set_held(InputAction::FreeLook, false);
            }
        },
    }
}

/// Feeds an event to the accumulator when the control scheme is the free
/// camera; under any other scheme the application handles events itself.
pub fn handle_input(scheme: ControlScheme, event: InputEvent, inputs: &mut InputsCommanded)
    ensures
        scheme == ControlScheme::FreeCamera ==> *final(inputs) == match event_effect(event) {
            Some((a, v)) => old(inputs).with_held(a, v),
            None => *old(inputs),
        },
        scheme != ControlScheme::FreeCamera ==> *final(inputs) == *old(inputs),
{
    match scheme {
        ControlScheme::FreeCamera => add_input_cmd(event, inputs),
        _ => {},
    }
}

/// Pressing a bound key and then releasing it leaves its action clear,
/// whatever the state before.
pub proof fn lemma_press_release(inputs: InputsCommanded, key: Key)
    requires
        key_binding(key) is Some,
    ensures
        ({
            let a = key_binding(key)->Some_0;
            let pressed = inputs.with_held(a, true);
            let released = pressed.with_held(a, false);
            pressed.held(a) && !released.held(a) && released == inputs.with_held(a, false)
        }),
{
}

/// A repeated press is a no-op: applying the same event twice gives the
/// same state as applying it once.
pub proof fn lemma_event_idempotent(inputs: InputsCommanded, a: InputAction, v: bool)
    ensures
        inputs.with_held(a, v).with_held(a, v) == inputs.with_held(a, v),
{
}

} // verus!
