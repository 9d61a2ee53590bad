//! Bytes as the GPU reads them: 32-bit words laid end to end.
use vstd::prelude::*;
use crate::camera::{CameraUniform, CAMERA_EYE_OFFSET, CAMERA_UNIFORM_SIZE, CAMERA_VIEW_PARAMS_OFFSET};
use crate::material::{MaterialUniform, MATERIAL_UNIFORM_SIZE};
use crate::sphere::{SphereUniform, SPHERE_UNIFORM_SIZE};

verus! {

/// The four bytes of `w`, least significant first.
pub open spec fn le_bytes(w: u32) -> Seq<u8> {
    seq![
        (w % 0x100) as u8,
        ((w / 0x100) % 0x100) as u8,
        ((w / 0x1_0000) % 0x100) as u8,
        (w / 0x100_0000) as u8,
    ]
}

/// The four bytes of `w`, most significant first.
pub open spec fn be_bytes(w: u32) -> Seq<u8> {
    seq![
        (w / 0x100_0000) as u8,
        ((w / 0x1_0000) % 0x100) as u8,
        ((w / 0x100) % 0x100) as u8,
        (w % 0x100) as u8,
    ]
}

/// The bytes of one word in the given byte order.
pub open spec fn word_bytes(w: u32, little: bool) -> Seq<u8> {
    if little {
        le_bytes(w)
    } else {
        be_bytes(w)
    }
}

/// The words of `ws` laid end to end, four bytes each, in the given byte order.
pub open spec fn words_bytes(ws: Seq<u32>, little: bool) -> Seq<u8> {
    Seq::new(4 * ws.len(), |j: int| word_bytes(ws[j / 4], little)[j % 4])
}

/// Relies on `bytemuck::cast_slice::<u32, u8>`: it views the same memory as
/// bytes, four per word in the machine's byte order, and cannot fail for this
/// pair of types (the target alignment is 1 and every length divides).
#[verifier::external_body]
pub(crate) fn cast_words(words: &[u32]) -> (r: Vec<u8>)
    ensures
        exists|little: bool| r@ == words_bytes(words@, little),
{
    bytemuck::cast_slice::<u32, u8>(words).to_vec()
}

/// The packed sizes the kernel's structs have: a sphere is exactly 32
/// bytes, a material and the camera are whole 16-byte rows, and the words of
/// each uniform fill exactly its size. The camera's eye and view-plane
/// fields start on 16-byte boundaries.
pub proof fn lemma_uniform_sizes(s: SphereUniform, m: MaterialUniform, c: CameraUniform)
    ensures
        SPHERE_UNIFORM_SIZE == 32,
        MATERIAL_UNIFORM_SIZE % 16 == 0,
        CAMERA_UNIFORM_SIZE % 16 == 0,
        4 * s.spec_words().len() == SPHERE_UNIFORM_SIZE,
        4 * m.spec_words().len() == MATERIAL_UNIFORM_SIZE,
        4 * c.spec_words().len() == CAMERA_UNIFORM_SIZE,
        CAMERA_EYE_OFFSET % 16 == 0,
        CAMERA_VIEW_PARAMS_OFFSET % 16 == 0,
        c.spec_words().subrange(CAMERA_EYE_OFFSET as int / 4, CAMERA_EYE_OFFSET as int / 4 + 3) == c.eye@,
        c.spec_words().subrange(CAMERA_VIEW_PARAMS_OFFSET as int / 4, CAMERA_VIEW_PARAMS_OFFSET as int / 4 + 3)
            == c.view_params@,
{
    assert(c.spec_words().subrange(16, 19) =~= c.eye@);
    assert(c.spec_words().subrange(20, 23) =~= c.view_params@);
}

} // verus!
