use vstd::prelude::*;

verus! {

/// A key that steers the camera.
#[derive(Clone, Copy, Debug, PartialEq, Eq, Structural)]
pub enum MoveKey {
    Forward,
    Left,
    Backward,
    Right,
}

/// The direction the camera is steered in: `y` toward or away from the
/// target, `x` sideways; each is -1, 0 or 1.
#[derive(Clone, Copy, Debug, PartialEq, Eq, Structural)]
pub struct MoveDirection {
    pub x: i32,
    pub y: i32,
}

impl MoveDirection {
    pub fn new() -> (r: MoveDirection)
        ensures
            r == (MoveDirection { x: 0, y: 0 }),
    {
        MoveDirection { x: 0, y: 0 }
    }

    /// A press sets the key's axis to its sign; a release sets it to 0.
    pub fn handle_key(&mut self, key: MoveKey, is_pressed: bool)
        ensures
            ({
                let forward: i32 = if is_pressed { 1 } else { 0 };
                let back: i32 = if is_pressed { -1i32 } else { 0i32 };
                *final(self) == match key {
                    MoveKey::Forward => MoveDirection { y: forward, ..*old(self) },
                    MoveKey::Left => MoveDirection { x: back, ..*old(self) },
                    MoveKey::Backward => MoveDirection { y: back, ..*old(self) },
                    MoveKey::Right => MoveDirection { x: forward, ..*old(self) },
                }
            }),
    {
        let v: i32 = if is_pressed { 1 } else { 0 };
        match key {
            MoveKey::Forward => self.y = v,
            MoveKey::Left => self.x = -v,
            MoveKey::Backward => self.y = -v,
            MoveKey::Right => self.x = v,
        }
    }
}

} // verus!
