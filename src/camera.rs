use vstd::prelude::*;

use crate::geometry::ONE_BITS;

verus! {

/// Where the camera is and how it looks, as the GPU reads it: a homogeneous
/// position, a view-rotation matrix and the vertical field of view in
/// degrees (all `f32` bit patterns).
#[derive(Clone, Copy, Debug)]
pub struct CameraPose {
    pub view_position: [u32; 4],
    pub view_proj: [[u32; 4]; 4],
    pub fov_degrees: u32,
}

/// The camera uniform: a frame counter that grows by one every frame, and
/// the pose used for that frame.
#[derive(Clone, Copy, Debug)]
pub struct CameraUniform {
    pub frame: u32,
    pub pose: CameraPose,
}

pub open spec fn identity_bits() -> [[u32; 4]; 4] {
    [[ONE_BITS, 0u32, 0u32, 0u32], [0u32, ONE_BITS, 0u32, 0u32], [0u32, 0u32, ONE_BITS, 0u32], [0u32, 0u32, 0u32, ONE_BITS]]
}

impl CameraUniform {
    pub open spec fn spec_new() -> CameraUniform {
        CameraUniform {
            frame: 0,
            pose: CameraPose { view_position: [0u32, 0, 0, 0], view_proj: identity_bits(), fov_degrees: 0 },
        }
    }

    /// Frame zero, at the origin, identity rotation.
    pub fn new() -> (r: CameraUniform)
        ensures
            r == CameraUniform::spec_new(),
    {
        CameraUniform {
            frame: 0,
            pose: CameraPose {
                view_position: [0u32, 0, 0, 0],
                view_proj: [
                    [ONE_BITS, 0u32, 0u32, 0u32],
                    [0u32, ONE_BITS, 0u32, 0u32],
                    [0u32, 0u32, ONE_BITS, 0u32],
                    [0u32, 0u32, 0u32, ONE_BITS],
                ],
                fov_degrees: 0,
            },
        }
    }

    pub fn update_view_proj(&mut self, pose: CameraPose)
        ensures
            final(self).pose == pose,
            final(self).frame == old(self).frame,
    {
        self.pose = pose;
    }

    pub open spec fn next_frame(frame: u32) -> u32 {
        if frame < u32::MAX { (frame + 1) as u32 } else { frame }
    }

    /// Counts one more frame; the counter stops at its largest value rather
    /// than wrap, so it never goes back.
    pub fn update_frame(&mut self)
        ensures
            final(self).frame == CameraUniform::next_frame(old(self).frame),
            final(self).pose == old(self).pose,
    {
        self.frame = self.frame.saturating_add(1);
    }
}

/// Key events as the camera controller reads them.
#[derive(Clone, Debug)]
pub enum KeyInput {
    /// A key that types text.
    Character(String),
    ArrowUp,
    ArrowDown,
    ArrowLeft,
    ArrowRight,
    Space,
    Shift,
    /// Any other named key.
    Other,
}

/// Which movement keys are held.
#[derive(Clone, Copy, Debug, PartialEq, Eq, Structural)]
pub struct MoveState {
    pub forward: bool,
    pub backward: bool,
    pub left: bool,
    pub right: bool,
    pub up: bool,
    pub down: bool,
}

/// A direction of movement.
#[derive(Clone, Copy, Debug, PartialEq, Eq, Structural)]
pub enum Motion {
    Forward,
    Backward,
    Left,
    Right,
    Up,
    Down,
}

/// The text a character key types, lower-cased.
pub uninterp spec fn lower_of(s: Seq<char>) -> Seq<char>;

/// Relies on `str::to_lowercase`: the result depends on the characters alone.
#[verifier::external_body]
fn lowercase(s: &String) -> (r: String)
    ensures
        r@ == lower_of(s@),
{
    s.to_lowercase()
}

/// The motion that lower-cased text `t` stands for: `w`, `s`, `a`, `d`.
pub open spec fn text_motion(t: Seq<char>) -> Option<Motion> {
    if t == seq!['w'] {
        Some(Motion::Forward)
    } else if t == seq!['s'] {
        Some(Motion::Backward)
    } else if t == seq!['a'] {
        Some(Motion::Left)
    } else if t == seq!['d'] {
        Some(Motion::Right)
    } else {
        None
    }
}

impl MoveState {
    pub open spec fn spec_new() -> MoveState {
        MoveState { forward: false, backward: false, left: false, right: false, up: false, down: false }
    }

    /// Nothing held.
    pub fn new() -> (r: MoveState)
        ensures
            r == MoveState::spec_new(),
    {
        MoveState { forward: false, backward: false, left: false, right: false, up: false, down: false }
    }

    /// `self` with the key for `m` held or released.
    pub open spec fn with(self, m: Motion, held: bool) -> MoveState {
        match m {
            Motion::Forward => MoveState { forward: held, ..self },
            Motion::Backward => MoveState { backward: held, ..self },
            Motion::Left => MoveState { left: held, ..self },
            Motion::Right => MoveState { right: held, ..self },
            Motion::Up => MoveState { up: held, ..self },
            Motion::Down => MoveState { down: held, ..self },
        }
    }

    pub fn set(&mut self, m: Motion, held: bool)
        ensures
            *final(self) == old(self).with(m, held),
    {
        match m {
            Motion::Forward => self.forward = held,
            Motion::Backward => self.backward = held,
            Motion::Left => self.left = held,
            Motion::Right => self.right = held,
            Motion::Up => self.up = held,
            Motion::Down => self.down = held,
        }
    }

    /// Applies a character key whose lower-cased text is `folded`. Returns
    /// whether the key moves the camera.
    pub fn process_folded_character(&mut self, folded: &String, pressed: bool) -> (r: bool)
        ensures
            r == text_motion(folded@) is Some,
            r ==> *final(self) == old(self).with(text_motion(folded@)->Some_0, pressed),
            !r ==> *final(self) == *old(self),
    {
        let w = "w".to_owned();
        let s = "s".to_owned();
        let a = "a".to_owned();
        let d = "d".to_owned();
        proof {
            reveal_strlit("w");
            reveal_strlit("s");
            reveal_strlit("a");
            reveal_strlit("d");
            assert(w@ =~= seq!['w']);
            assert(s@ =~= seq!['s']);
            assert(a@ =~= seq!['a']);
            assert(d@ =~= seq!['d']);
        }
        if *folded == w {
            self.set(Motion::Forward, pressed);
            true
        } else if *folded == s {
            self.set(Motion::Backward, pressed);
            true
        } else if *folded == a {
            self.set(Motion::Left, pressed);
            true
        } else if *folded == d {
            self.set(Motion::Right, pressed);
            true
        } else {
            false
        }
    }

    /// Applies a key press (`pressed`) or release. `W`/`S`/`A`/`D` (either
    /// case) and the arrow keys move forward, back, left and right; space
    /// and shift move up and down. Returns whether the key was one of them.
    pub fn process_keyboard(&mut self, key: &KeyInput, pressed: bool) -> (r: bool)
        ensures
            match key {
                KeyInput::Character(c) => {
                    &&& r == text_motion(lower_of(c@)) is Some
                    &&& r ==> *final(self) == old(self).with(text_motion(lower_of(c@))->Some_0, pressed)
                    &&& !r ==> *final(self) == *old(self)
                },
                KeyInput::ArrowUp => r && *final(self) == old(self).with(Motion::Forward, pressed),
                KeyInput::ArrowDown => r && *final(self) == old(self).with(Motion::Backward, pressed),
                KeyInput::ArrowLeft => r && *final(self) == old(self).with(Motion::Left, pressed),
                KeyInput::ArrowRight => r && *final(self) == old(self).with(Motion::Right, pressed),
                KeyInput::Space => r && *final(self) == old(self).with(Motion::Up, pressed),
                KeyInput::Shift => r && *final(self) == old(self).with(Motion::Down, pressed),
                KeyInput::Other => !r && *final(self) == *old(self),
            },
    {
        match key {
            KeyInput::Character(c) => {
                let folded = lowercase(c);
                self.process_folded_character(&folded, pressed)
            },
            KeyInput::ArrowUp => {
                self.set(Motion::Forward, pressed);
                true
            },
            KeyInput::ArrowDown => {
                self.set(Motion::Backward, pressed);
                true
            },
            KeyInput::ArrowLeft => {
                self.set(Motion::Left, pressed);
                true
            },
            KeyInput::ArrowRight => {
                self.set(Motion::Right, pressed);
                true
            },
            KeyInput::Space => {
                self.set(Motion::Up, pressed);
                true
            },
            KeyInput::Shift => {
                self.set(Motion::Down, pressed);
                true
            },
            KeyInput::Other => false,
        }
    }
}

/// Window input as the orchestrator routes it.
#[derive(Clone, Debug)]
pub enum InputEvent {
    /// A key went down (`pressed`) or up.
    Key { key: KeyInput, pressed: bool },
    /// The mouse wheel turned.
    Scroll,
    /// The left mouse button went down (`pressed`) or up.
    LeftButton { pressed: bool },
    /// Anything else.
    Other,
}

/// The input the camera follows: held movement keys, and whether mouse
/// motion turns the view.
#[derive(Clone, Copy, Debug, PartialEq, Eq, Structural)]
pub struct InputState {
    pub moves: MoveState,
    pub mouse_pressed: bool,
}

impl InputState {
    pub fn new() -> (r: InputState)
        ensures
            r == (InputState { moves: MoveState::spec_new(), mouse_pressed: false }),
    {
        InputState { moves: MoveState::new(), mouse_pressed: false }
    }

    /// Routes an event to the camera. Returns whether the camera took it; an
    /// event it does not take is left to the window. The wheel is taken but
    /// does not move the camera.
    pub fn input(&mut self, event: &InputEvent) -> (r: bool)
        ensures
            match event {
                InputEvent::Key { key, pressed } => {
                    &&& final(self).mouse_pressed == old(self).mouse_pressed
                    &&& match key {
                        KeyInput::Character(c) => {
                            &&& r == text_motion(lower_of(c@)) is Some
                            &&& r ==> final(self).moves == old(self).moves.with(text_motion(lower_of(c@))->Some_0, *pressed)
                            &&& !r ==> final(self).moves == old(self).moves
                        },
                        KeyInput::ArrowUp => r && final(self).moves == old(self).moves.with(Motion::Forward, *pressed),
                        KeyInput::ArrowDown => r && final(self).moves == old(self).moves.with(Motion::Backward, *pressed),
                        KeyInput::ArrowLeft => r && final(self).moves == old(self).moves.with(Motion::Left, *pressed),
                        KeyInput::ArrowRight => r && final(self).moves == old(self).moves.with(Motion::Right, *pressed),
                        KeyInput::Space => r && final(self).moves == old(self).moves.with(Motion::Up, *pressed),
                        KeyInput::Shift => r && final(self).moves == old(self).moves.with(Motion::Down, *pressed),
                        KeyInput::Other => !r && final(self).moves == old(self).moves,
                    }
                },
                InputEvent::Scroll => r && *final(self) == *old(self),
                InputEvent::LeftButton { pressed } => r && *final(self) == (InputState {
                    mouse_pressed: *pressed,
                    ..*old(self)
                }),
                InputEvent::Other => !r && *final(self) == *old(self),
            },
    {
        match event {
            InputEvent::Key { key, pressed } => self.moves.process_keyboard(key, *pressed),
            InputEvent::Scroll => true,
            InputEvent::LeftButton { pressed } => {
                self.mouse_pressed = *pressed;
                true
            },
            InputEvent::Other => false,
        }
    }
}

} // verus!
