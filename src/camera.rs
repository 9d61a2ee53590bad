//! The camera as the kernel reads it, and the controller that turns key
//! presses into camera moves.
use vstd::prelude::*;
use crate::layout::{cast_words, words_bytes};

verus! {

/// Bytes of the camera uniform: a 4x4 matrix, then two 16-byte rows.
pub const CAMERA_UNIFORM_SIZE: usize = 96;

/// Byte offset of the eye position within the camera uniform.
pub const CAMERA_EYE_OFFSET: usize = 64;

/// Byte offset of the view-plane parameters within the camera uniform.
pub const CAMERA_VIEW_PARAMS_OFFSET: usize = 80;

/// Bit pattern of the `f32` value one.
pub const F32_ONE_BITS: u32 = 0x3f80_0000;

/// The camera as the kernel reads it. The rotation carries no translation:
/// the eye is given on its own as the ray origin. `view_params` holds the
/// image-plane width, its height and the near distance. Every component is
/// the bit pattern of an `f32`; the pad words put each field on a 16-byte
/// boundary.
#[derive(Debug, Clone, Copy, PartialEq, Eq)]
pub struct CameraUniform {
    pub rotation_matrix: [[u32; 4]; 4],
    pub eye: [u32; 3],
    pub _padding: u32,
    pub view_params: [u32; 3],
    pub _padding2: u32,
}

/// The identity rotation, row by row.
pub open spec fn identity_bits() -> Seq<Seq<u32>> {
    seq![
        seq![F32_ONE_BITS, 0u32, 0u32, 0u32],
        seq![0u32, F32_ONE_BITS, 0u32, 0u32],
        seq![0u32, 0u32, F32_ONE_BITS, 0u32],
        seq![0u32, 0u32, 0u32, F32_ONE_BITS],
    ]
}

impl CameraUniform {
    /// The 24 words of the camera uniform in buffer order.
    pub open spec fn spec_words(self) -> Seq<u32> {
        Seq::new(
            24,
            |j: int|
                if j < 16 {
                    self.rotation_matrix[j / 4][j % 4]
                } else if j < 19 {
                    self.eye[j - 16]
                } else if j == 19 {
                    self._padding
                } else if j < 23 {
                    self.view_params[j - 20]
                } else {
                    self._padding2
                },
        )
    }

    /// An identity rotation, the eye at the origin, a zero view plane and
    /// zero pad words.
    pub fn new() -> (r: Self)
        ensures
            forall|i: int, k: int|
                0 <= i < 4 && 0 <= k < 4 ==> r.rotation_matrix[i][k] == identity_bits()[i][k],
            r.eye@ == seq![0u32, 0u32, 0u32],
            r._padding == 0,
            r.view_params@ == seq![0u32, 0u32, 0u32],
            r._padding2 == 0,
    {
        let r = Self {
            rotation_matrix: [
                [F32_ONE_BITS, 0, 0, 0],
                [0, F32_ONE_BITS, 0, 0],
                [0, 0, F32_ONE_BITS, 0],
                [0, 0, 0, F32_ONE_BITS],
            ],
            eye: [0, 0, 0],
            _padding: 0,
            view_params: [0, 0, 0],
            _padding2: 0,
        };
        assert(r.eye@ =~= seq![0u32, 0u32, 0u32]);
        assert(r.view_params@ =~= seq![0u32, 0u32, 0u32]);
        r
    }

    /// Stores the image-plane width and height and the near distance.
    pub fn update_view_params(&mut self, plane_width: u32, plane_height: u32, znear: u32)
        ensures
            final(self).view_params@ == seq![plane_width, plane_height, znear],
            final(self).rotation_matrix == old(self).rotation_matrix,
            final(self).eye == old(self).eye,
            final(self)._padding == old(self)._padding,
            final(self)._padding2 == old(self)._padding2,
    {
        self.view_params = [plane_width, plane_height, znear];
        assert(self.view_params@ =~= seq![plane_width, plane_height, znear]);
    }

    /// Refreshes the whole uniform from the camera's current rotation, eye
    /// and view plane; the pad words stay.
    pub fn update(
        &mut self,
        rotation_matrix: [[u32; 4]; 4],
        eye: [u32; 3],
        plane_width: u32,
        plane_height: u32,
        znear: u32,
    )
        ensures
            final(self).rotation_matrix == rotation_matrix,
            final(self).eye == eye,
            final(self).view_params@ == seq![plane_width, plane_height, znear],
            final(self)._padding == old(self)._padding,
            final(self)._padding2 == old(self)._padding2,
    {
        self.rotation_matrix = rotation_matrix;
        self.eye = eye;
        self.update_view_params(plane_width, plane_height, znear);
    }

    /// The 24 words of the camera uniform.
    pub fn words(&self) -> (r: Vec<u32>)
        ensures
            r@ == self.spec_words(),
    {
        let mut out: Vec<u32> = Vec::new();
        let mut i: usize = 0;
        while i < 4
            invariant
                i <= 4,
                out@ =~= self.spec_words().take(4 * i as int),
            decreases 4 - i,
        {
            let row = self.rotation_matrix[i];
            out.push(row[0]);
            out.push(row[1]);
            out.push(row[2]);
            out.push(row[3]);
            i = i + 1;
            assert(out@ =~= self.spec_words().take(4 * i as int)) by {
                assert forall|j: int| 0 <= j < 4 * i implies #[trigger] out@[j]
                    == self.spec_words()[j] by {
                    if j >= 4 * (i - 1) {
                        assert(j / 4 == i - 1);
                    }
                }
            }
        }
        out.push(self.eye[0]);
        out.push(self.eye[1]);
        out.push(self.eye[2]);
        out.push(self._padding);
        out.push(self.view_params[0]);
        out.push(self.view_params[1]);
        out.push(self.view_params[2]);
        out.push(self._padding2);
        assert(out@ =~= self.spec_words());
        out
    }

    /// The bytes of the camera buffer.
    pub fn bytes(&self) -> (r: Vec<u8>)
        ensures
            exists|little: bool| r@ == #[trigger] words_bytes(self.spec_words(), little),
            r@.len() == CAMERA_UNIFORM_SIZE,
    {
        let words = self.words();
        cast_words(words.as_slice())
    }
}

/// A key as the window reports it, reduced to the keys the camera reacts to.
#[derive(Debug, Clone, Copy, PartialEq, Eq, Structural)]
pub enum KeyCode {
    W,
    A,
    S,
    D,
    Other,
}

/// An input event as the window reports it.
#[derive(Debug, Clone, Copy, PartialEq, Eq, Structural)]
pub enum InputEvent {
    /// A key changed state.
    Key { code: KeyCode, pressed: bool },
    /// Anything else.
    Other,
}

/// The moves one camera tick makes, in this order: forward, backward, then
/// the strafes, each recomputing the distance to the target first.
#[derive(Debug, Clone, Copy, PartialEq, Eq, Structural)]
pub struct CameraMoves {
    pub forward: bool,
    pub backward: bool,
    pub right: bool,
    pub left: bool,
}

/// Which movement keys are held, and how far one tick moves the eye (the bit
/// pattern of an `f32`).
#[derive(Debug, Clone, Copy, PartialEq, Eq, Structural)]
pub struct CameraController {
    pub speed: u32,
    pub is_forward_pressed: bool,
    pub is_backward_pressed: bool,
    pub is_left_pressed: bool,
    pub is_right_pressed: bool,
}

impl CameraController {
    /// A controller with no key held.
    pub fn new(speed: u32) -> (r: Self)
        ensures
            r.speed == speed,
            !r.is_forward_pressed,
            !r.is_backward_pressed,
            !r.is_left_pressed,
            !r.is_right_pressed,
    {
        Self {
            speed,
            is_forward_pressed: false,
            is_backward_pressed: false,
            is_left_pressed: false,
            is_right_pressed: false,
        }
    }

    /// Records a press or release of W (forward), A (left), S (backward) or
    /// D (right); returns whether the event was one of those.
    pub fn process_events(&mut self, event: &InputEvent) -> (r: bool)
        ensures
            r == (event matches InputEvent::Key { code, .. } && code != KeyCode::Other),
            final(self).speed == old(self).speed,
            final(self).is_forward_pressed == (match *event {
                InputEvent::Key { code: KeyCode::W, pressed } => pressed,
                _ => old(self).is_forward_pressed,
            }),
            final(self).is_left_pressed == (match *event {
                InputEvent::Key { code: KeyCode::A, pressed } => pressed,
                _ => old(self).is_left_pressed,
            }),
            final(self).is_backward_pressed == (match *event {
                InputEvent::Key { code: KeyCode::S, pressed } => pressed,
                _ => old(self).is_backward_pressed,
            }),
            final(self).is_right_pressed == (match *event {
                InputEvent::Key { code: KeyCode::D, pressed } => pressed,
                _ => old(self).is_right_pressed,
            }),
    {
        match *event {
            InputEvent::Key { code, pressed } => match code {
                KeyCode::W => {
                    self.is_forward_pressed = pressed;
                    true
                },
                KeyCode::A => {
                    self.is_left_pressed = pressed;
                    true
                },
                KeyCode::S => {
                    self.is_backward_pressed = pressed;
                    true
                },
                KeyCode::D => {
                    self.is_right_pressed = pressed;
                    true
                },
                KeyCode::Other => false,
            },
            InputEvent::Other => false,
        }
    }

    /// The moves of one tick. Moving forward needs the eye to be farther
    /// from the target than one step, so that it never reaches or crosses
    /// the target; the other moves need only their key.
    pub fn planned_moves(&self, distance_exceeds_speed: bool) -> (r: CameraMoves)
        ensures
            r.forward == (self.is_forward_pressed && distance_exceeds_speed),
            r.backward == self.is_backward_pressed,
            r.right == self.is_right_pressed,
            r.left == self.is_left_pressed,
    {
        CameraMoves {
            forward: self.is_forward_pressed && distance_exceeds_speed,
            backward: self.is_backward_pressed,
            right: self.is_right_pressed,
            left: self.is_left_pressed,
        }
    }
}

} // verus!
