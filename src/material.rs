//! Materials and their packed GPU form.
use vstd::prelude::*;
use crate::layout::{cast_words, words_bytes};

verus! {

/// Bytes of one packed material: two 16-byte rows.
pub const MATERIAL_UNIFORM_SIZE: usize = 32;

/// Words of one packed material.
pub const MATERIAL_UNIFORM_WORDS: usize = 8;

/// A surface description; every component is the bit pattern of an `f32`.
#[derive(Debug, Clone, Copy, PartialEq, Eq)]
pub struct Material {
    pub color: [u32; 3],
    pub emission_color: [u32; 3],
    pub emission_strength: u32,
}

/// A material as the kernel reads it: `color` and a pad word fill the first
/// 16-byte row, `emission_color` and `emission_strength` the second.
#[derive(Debug, Clone, Copy, PartialEq, Eq)]
pub struct MaterialUniform {
    pub color: [u32; 3],
    pub _padding: u32,
    pub emission_color: [u32; 3],
    pub emission_strength: u32,
}

impl Material {
    /// The packed form of this material, with a zero pad word.
    pub open spec fn spec_uniform(self) -> MaterialUniform {
        MaterialUniform {
            color: self.color,
            _padding: 0,
            emission_color: self.emission_color,
            emission_strength: self.emission_strength,
        }
    }

    /// Packs this material for the kernel.
    pub fn to_uniform(&self) -> (r: MaterialUniform)
        ensures
            r == self.spec_uniform(),
    {
        MaterialUniform {
            color: self.color,
            _padding: 0,
            emission_color: self.emission_color,
            emission_strength: self.emission_strength,
        }
    }
}

impl MaterialUniform {
    /// The eight words of this material in buffer order.
    pub open spec fn spec_words(self) -> Seq<u32> {
        seq![
            self.color[0],
            self.color[1],
            self.color[2],
            self._padding,
            self.emission_color[0],
            self.emission_color[1],
            self.emission_color[2],
            self.emission_strength,
        ]
    }

    /// Appends the eight words of this material to `out`.
    pub fn push_words(&self, out: &mut Vec<u32>)
        ensures
            final(out)@ == old(out)@ + self.spec_words(),
    {
        out.push(self.color[0]);
        out.push(self.color[1]);
        out.push(self.color[2]);
        out.push(self._padding);
        out.push(self.emission_color[0]);
        out.push(self.emission_color[1]);
        out.push(self.emission_color[2]);
        out.push(self.emission_strength);
        assert(final(out)@ =~= old(out)@ + self.spec_words());
    }
}

/// The words of a material array: element `j / 8`, word `j % 8`.
pub open spec fn materials_words(us: Seq<MaterialUniform>) -> Seq<u32> {
    Seq::new(8 * us.len(), |j: int| us[j / 8].spec_words()[j % 8])
}

/// The materials of a scene, packed for the kernel, with their count.
pub struct MaterialState {
    pub uniforms: Vec<MaterialUniform>,
}

impl MaterialState {
    /// The count fits the `u32` the kernel reads it as.
    pub open spec fn wf(&self) -> bool {
        self.uniforms@.len() <= u32::MAX
    }

    /// Packs each material, in order.
    pub fn new(materials: &Vec<Material>) -> (r: MaterialState)
        requires
            materials@.len() <= u32::MAX,
        ensures
            r.wf(),
            r.uniforms@ == materials@.map_values(|m: Material| m.spec_uniform()),
    {
        let mut uniforms: Vec<MaterialUniform> = Vec::new();
        let mut i: usize = 0;
        while i < materials.len()
            invariant
                i <= materials@.len(),
                uniforms@ == materials@.take(i as int).map_values(|m: Material| m.spec_uniform()),
            decreases materials@.len() - i,
        {
            let u = materials[i].to_uniform();
            uniforms.push(u);
            i = i + 1;
            assert(uniforms@ =~= materials@.take(i as int).map_values(|m: Material| m.spec_uniform()));
        }
        assert(materials@.take(i as int) =~= materials@);
        MaterialState { uniforms }
    }

    /// How many materials the kernel sees.
    pub fn count(&self) -> (r: u32)
        requires
            self.wf(),
        ensures
            r == self.uniforms@.len(),
    {
        self.uniforms.len() as u32
    }

    /// The words of the material array, eight per material.
    pub fn words(&self) -> (r: Vec<u32>)
        ensures
            r@ == materials_words(self.uniforms@),
    {
        let mut out: Vec<u32> = Vec::new();
        let mut i: usize = 0;
        while i < self.uniforms.len()
            invariant
                i <= self.uniforms@.len(),
                out@ =~= materials_words(self.uniforms@.take(i as int)),
            decreases self.uniforms@.len() - i,
        {
            self.uniforms[i].push_words(&mut out);
            i = i + 1;
            assert(out@ =~= materials_words(self.uniforms@.take(i as int))) by {
                assert forall|j: int| 0 <= j < 8 * i implies #[trigger] out@[j]
                    == materials_words(self.uniforms@.take(i as int))[j] by {
                    if j >= 8 * (i - 1) {
                        assert(j / 8 == i - 1);
                    } else {
                        assert(j / 8 < i - 1);
                    }
                }
            }
        }
        assert(self.uniforms@.take(i as int) =~= self.uniforms@);
        out
    }

    /// The bytes of the material storage buffer.
    pub fn array_bytes(&self) -> (r: Vec<u8>)
        ensures
            exists|little: bool| r@ == words_bytes(materials_words(self.uniforms@), little),
            r@.len() == MATERIAL_UNIFORM_SIZE * self.uniforms@.len(),
    {
        let words = self.words();
        let r = cast_words(words.as_slice());
        r
    }

    /// The bytes of the material count buffer: one word.
    pub fn count_bytes(&self) -> (r: Vec<u8>)
        requires
            self.wf(),
        ensures
            exists|little: bool| r@ == #[trigger] words_bytes(seq![self.uniforms@.len() as u32], little),
            r@.len() == 4,
    {
        let words = vec![self.count()];
        let r = cast_words(words.as_slice());
        proof {
            assert(words@ =~= seq![self.uniforms@.len() as u32]);
        }
        r
    }
}

} // verus!
