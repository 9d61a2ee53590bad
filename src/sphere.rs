//! Spheres and their packed GPU form.
use vstd::prelude::*;
use crate::intersectable::{Intersectable, IntersectableType};
use crate::layout::{cast_words, words_bytes};

verus! {

/// Bytes of one packed sphere: the fixed stride of the sphere array.
pub const SPHERE_UNIFORM_SIZE: usize = 32;

/// A sphere of the scene; `position` and `radius` are bit patterns of `f32`,
/// `material_id` indexes the material array.
#[derive(Debug, Clone, Copy, PartialEq, Eq)]
pub struct Sphere {
    pub position: [u32; 3],
    pub radius: u32,
    pub material_id: u32,
}

/// A sphere as the kernel reads it: position and radius fill the first
/// 16-byte row, the material index and three pad words the second.
#[derive(Debug, Clone, Copy, PartialEq, Eq)]
pub struct SphereUniform {
    pub position: [u32; 3],
    pub radius: u32,
    pub material_id: u32,
    pub _padding: [u32; 3],
}

/// The packed sphere array together with its count, as two separate buffers
/// hold them.
pub struct SphereStorage {
    pub spheres: Vec<SphereUniform>,
    pub sphere_count: u32,
}

impl Intersectable for Sphere {
    fn intersectable_type(&self) -> (r: IntersectableType)
        ensures
            r == IntersectableType::Sphere,
    {
        IntersectableType::Sphere
    }
}

impl Sphere {
    /// The packed form of this sphere, with zero pad words.
    pub open spec fn spec_uniform(self) -> SphereUniform {
        SphereUniform {
            position: self.position,
            radius: self.radius,
            material_id: self.material_id,
            _padding: [0u32, 0u32, 0u32],
        }
    }

    /// Packs this sphere for the kernel.
    pub fn to_uniform(&self) -> (r: SphereUniform)
        ensures
            r == self.spec_uniform(),
    {
        SphereUniform {
            position: self.position,
            radius: self.radius,
            material_id: self.material_id,
            _padding: [0u32, 0u32, 0u32],
        }
    }
}

impl SphereUniform {
    /// The eight words of this sphere in buffer order.
    pub open spec fn spec_words(self) -> Seq<u32> {
        seq![
            self.position[0],
            self.position[1],
            self.position[2],
            self.radius,
            self.material_id,
            self._padding[0],
            self._padding[1],
            self._padding[2],
        ]
    }

    /// Appends the eight words of this sphere to `out`.
    pub fn push_words(&self, out: &mut Vec<u32>)
        ensures
            final(out)@ == old(out)@ + self.spec_words(),
    {
        out.push(self.position[0]);
        out.push(self.position[1]);
        out.push(self.position[2]);
        out.push(self.radius);
        out.push(self.material_id);
        out.push(self._padding[0]);
        out.push(self._padding[1]);
        out.push(self._padding[2]);
        assert(final(out)@ =~= old(out)@ + self.spec_words());
    }
}

/// The words of a sphere array: element `j / 8`, word `j % 8`.
pub open spec fn spheres_words(us: Seq<SphereUniform>) -> Seq<u32> {
    Seq::new(8 * us.len(), |j: int| us[j / 8].spec_words()[j % 8])
}

/// The spheres of a scene, packed for the kernel.
pub struct SphereState {
    pub uniforms: Vec<SphereUniform>,
}

impl SphereState {
    /// The count fits the `u32` the kernel reads it as.
    pub open spec fn wf(&self) -> bool {
        self.uniforms@.len() <= u32::MAX
    }

    /// Packs each sphere, in order.
    pub fn new(objects: &Vec<Sphere>) -> (r: SphereState)
        requires
            objects@.len() <= u32::MAX,
        ensures
            r.wf(),
            r.uniforms@ == objects@.map_values(|s: Sphere| s.spec_uniform()),
    {
        let mut uniforms: Vec<SphereUniform> = Vec::new();
        let mut i: usize = 0;
        while i < objects.len()
            invariant
                i <= objects@.len(),
                uniforms@ == objects@.take(i as int).map_values(|s: Sphere| s.spec_uniform()),
            decreases objects@.len() - i,
        {
            let u = objects[i].to_uniform();
            uniforms.push(u);
            i = i + 1;
            assert(uniforms@ =~= objects@.take(i as int).map_values(|s: Sphere| s.spec_uniform()));
        }
        assert(objects@.take(i as int) =~= objects@);
        SphereState { uniforms }
    }

    /// How many spheres the kernel sees.
    pub fn count(&self) -> (r: u32)
        requires
            self.wf(),
        ensures
            r == self.uniforms@.len(),
    {
        self.uniforms.len() as u32
    }

    /// The packed array and its count.
    pub fn storage(&self) -> (r: SphereStorage)
        requires
            self.wf(),
        ensures
            r.spheres@ == self.uniforms@,
            r.sphere_count == self.uniforms@.len(),
    {
        SphereStorage { spheres: self.uniforms.clone(), sphere_count: self.count() }
    }

    /// The words of the sphere array, eight per sphere.
    pub fn words(&self) -> (r: Vec<u32>)
        ensures
            r@ == spheres_words(self.uniforms@),
    {
        let mut out: Vec<u32> = Vec::new();
        let mut i: usize = 0;
        while i < self.uniforms.len()
            invariant
                i <= self.uniforms@.len(),
                out@ =~= spheres_words(self.uniforms@.take(i as int)),
            decreases self.uniforms@.len() - i,
        {
            self.uniforms[i].push_words(&mut out);
            i = i + 1;
            assert(out@ =~= spheres_words(self.uniforms@.take(i as int))) by {
                assert forall|j: int| 0 <= j < 8 * i implies #[trigger] out@[j]
                    == spheres_words(self.uniforms@.take(i as int))[j] by {
                    if j >= 8 * (i - 1) {
                        assert(j / 8 == i - 1);
                    } else {
                        assert(j / 8 < i - 1);
                    }
                }
            }
        }
        assert(self.uniforms@.take(i as int) =~= self.uniforms@);
        out
    }

    /// The bytes of the sphere storage buffer.
    pub fn array_bytes(&self) -> (r: Vec<u8>)
        ensures
            exists|little: bool| r@ == words_bytes(spheres_words(self.uniforms@), little),
            r@.len() == SPHERE_UNIFORM_SIZE * self.uniforms@.len(),
    {
        let words = self.words();
        cast_words(words.as_slice())
    }

    /// The bytes of the sphere count buffer: one word.
    pub fn count_bytes(&self) -> (r: Vec<u8>)
        requires
            self.wf(),
        ensures
            exists|little: bool| r@ == #[trigger] words_bytes(seq![self.uniforms@.len() as u32], little),
            r@.len() == 4,
    {
        let words = vec![self.count()];
        proof {
            assert(words@ =~= seq![self.uniforms@.len() as u32]);
        }
        cast_words(words.as_slice())
    }
}

} // verus!
