//! A fixed scene: its materials and spheres, checked and packed once.
use vstd::prelude::*;
use crate::material::{Material, MaterialState};
use crate::sphere::{Sphere, SphereState};

verus! {

/// Why a scene cannot be uploaded.
#[derive(Debug, Clone, Copy, PartialEq, Eq, Structural)]
pub enum SceneError {
    /// More materials than a `u32` count can hold.
    TooManyMaterials,
    /// More spheres than a `u32` count can hold.
    TooManySpheres,
    /// The sphere at index `sphere` names a material that does not exist.
    MaterialOutOfRange { sphere: usize, material_id: u32 },
}

/// Every sphere before index `n` names an existing material.
pub open spec fn ids_in_range(spheres: Seq<Sphere>, material_count: nat, n: int) -> bool {
    forall|i: int| 0 <= i < n ==> (#[trigger] spheres[i]).material_id < material_count
}

/// A scene made of `materials` and `spheres` can be uploaded: both counts
/// fit a `u32` and every sphere names an existing material.
pub open spec fn scene_accepted(materials: Seq<Material>, spheres: Seq<Sphere>) -> bool {
    &&& materials.len() <= u32::MAX
    &&& spheres.len() <= u32::MAX
    &&& ids_in_range(spheres, materials.len(), spheres.len() as int)
}

/// `e` is the error that such a scene is refused with: the counts are
/// checked first, then the spheres in order, and the first sphere whose
/// material does not exist is named.
pub open spec fn refused_with(materials: Seq<Material>, spheres: Seq<Sphere>, e: SceneError) -> bool {
    match e {
        SceneError::TooManyMaterials => materials.len() > u32::MAX,
        SceneError::TooManySpheres => materials.len() <= u32::MAX && spheres.len() > u32::MAX,
        SceneError::MaterialOutOfRange { sphere, material_id } => {
            &&& materials.len() <= u32::MAX
            &&& spheres.len() <= u32::MAX
            &&& sphere < spheres.len()
            &&& spheres[sphere as int].material_id == material_id
            &&& material_id >= materials.len()
            &&& ids_in_range(spheres, materials.len(), sphere as int)
        },
    }
}

/// The packed materials and spheres of a scene whose spheres all name an
/// existing material.
pub struct SceneModel {
    pub materials: MaterialState,
    pub spheres: SphereState,
}

impl SceneModel {
    pub open spec fn wf(&self) -> bool {
        &&& self.materials.wf()
        &&& self.spheres.wf()
        &&& forall|i: int|
            0 <= i < self.spheres.uniforms@.len()
                ==> (#[trigger] self.spheres.uniforms@[i]).material_id < self.materials.uniforms@.len()
    }

    /// Checks that every sphere names an existing material and packs both
    /// lists, in order.
    pub fn new(materials: &Vec<Material>, spheres: &Vec<Sphere>) -> (r: Result<SceneModel, SceneError>)
        ensures
            r is Ok <==> scene_accepted(materials@, spheres@),
            r is Err ==> refused_with(materials@, spheres@, r->Err_0),
            r is Ok ==> {
                let s = r->Ok_0;
                &&& s.wf()
                &&& s.materials.uniforms@.len() == materials@.len()
                &&& s.spheres.uniforms@.len() == spheres@.len()
                &&& s.materials.uniforms@ == materials@.map_values(|m: Material| m.spec_uniform())
                &&& s.spheres.uniforms@ == spheres@.map_values(|x: Sphere| x.spec_uniform())
            },
    {
        if materials.len() > u32::MAX as usize {
            return Err(SceneError::TooManyMaterials);
        }
        if spheres.len() > u32::MAX as usize {
            return Err(SceneError::TooManySpheres);
        }
        let mut i: usize = 0;
        while i < spheres.len()
            invariant
                i <= spheres@.len(),
                materials@.len() <= u32::MAX,
                spheres@.len() <= u32::MAX,
                ids_in_range(spheres@, materials@.len(), i as int),
            decreases spheres@.len() - i,
        {
            let id = spheres[i].material_id;
            if id as usize >= materials.len() {
                return Err(SceneError::MaterialOutOfRange { sphere: i, material_id: id });
            }
            i = i + 1;
        }
        let materials = MaterialState::new(materials);
        let spheres_state = SphereState::new(spheres);
        proof {
            assert forall|k: int| 0 <= k < spheres_state.uniforms@.len() implies
                (#[trigger] spheres_state.uniforms@[k]).material_id < materials.uniforms@.len() by {
                assert(spheres@[k].material_id < materials.uniforms@.len());
            }
        }
        Ok(SceneModel { materials, spheres: spheres_state })
    }

    /// How many materials the kernel sees.
    pub fn material_count(&self) -> (r: u32)
        requires
            self.wf(),
        ensures
            r == self.materials.uniforms@.len(),
    {
        self.materials.count()
    }

    /// How many spheres the kernel sees.
    pub fn sphere_count(&self) -> (r: u32)
        requires
            self.wf(),
        ensures
            r == self.spheres.uniforms@.len(),
    {
        self.spheres.count()
    }
}

} // verus!
