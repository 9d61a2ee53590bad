//! The fixed binding tables that host and kernels agree on, and how each
//! buffer is created.
use vstd::prelude::*;

verus! {

/// A buffer the host creates.
#[derive(Debug, Clone, Copy, PartialEq, Eq, Structural)]
pub enum BufferRole {
    /// The frame counter, rewritten every frame.
    Globals,
    /// The camera uniform, rewritten every frame.
    Camera,
    /// The number of spheres.
    SphereCount,
    /// The packed sphere array.
    Spheres,
    /// The number of materials.
    MaterialCount,
    /// The packed material array.
    Materials,
    /// The full-screen quad drawn by the render stage.
    QuadVertices,
}

/// What a binding slot holds.
#[derive(Debug, Clone, Copy, PartialEq, Eq, Structural)]
pub enum BoundResource {
    /// The color image the compute stage writes and the render stage samples.
    OutputImage,
    /// The sampler the render stage reads the output image with.
    Sampler,
    Buffer(BufferRole),
}

/// How a kernel sees a binding.
#[derive(Debug, Clone, Copy, PartialEq, Eq, Structural)]
pub enum BindingKind {
    StorageImage,
    UniformBuffer,
    StorageBuffer,
    SampledTexture,
    Sampler,
}

/// What a kernel may do with a binding.
#[derive(Debug, Clone, Copy, PartialEq, Eq, Structural)]
pub enum Access {
    WriteOnly,
    Read,
    ReadOnly,
}

/// One row of a binding table.
#[derive(Debug, Clone, Copy, PartialEq, Eq, Structural)]
pub struct BindingEntry {
    pub slot: u32,
    pub resource: BoundResource,
    pub kind: BindingKind,
    pub access: Access,
}

/// The usages a buffer is created with.
#[derive(Debug, Clone, Copy, PartialEq, Eq, Structural)]
pub struct BufferUsage {
    pub uniform: bool,
    pub storage: bool,
    pub copy_dst: bool,
    pub vertex: bool,
}

pub open spec fn entry(slot: u32, resource: BoundResource, kind: BindingKind, access: Access) -> BindingEntry {
    BindingEntry { slot, resource, kind, access }
}

/// The compute stage's table, slot by slot.
pub open spec fn compute_table() -> Seq<BindingEntry> {
    seq![
        entry(0, BoundResource::OutputImage, BindingKind::StorageImage, Access::WriteOnly),
        entry(1, BoundResource::Buffer(BufferRole::Globals), BindingKind::UniformBuffer, Access::Read),
        entry(2, BoundResource::Buffer(BufferRole::Camera), BindingKind::UniformBuffer, Access::Read),
        entry(3, BoundResource::Buffer(BufferRole::SphereCount), BindingKind::UniformBuffer, Access::Read),
        entry(4, BoundResource::Buffer(BufferRole::Spheres), BindingKind::StorageBuffer, Access::ReadOnly),
        entry(5, BoundResource::Buffer(BufferRole::MaterialCount), BindingKind::UniformBuffer, Access::Read),
        entry(6, BoundResource::Buffer(BufferRole::Materials), BindingKind::StorageBuffer, Access::ReadOnly),
    ]
}

/// The render stage's table: the output image as a texture, then its sampler.
pub open spec fn render_table() -> Seq<BindingEntry> {
    seq![
        entry(0, BoundResource::OutputImage, BindingKind::SampledTexture, Access::Read),
        entry(1, BoundResource::Sampler, BindingKind::Sampler, Access::Read),
    ]
}

/// The buffers rewritten by the host after creation.
pub open spec fn rewritten_each_frame(role: BufferRole) -> bool {
    role == BufferRole::Globals || role == BufferRole::Camera
}

/// The compute stage's binding table.
pub fn compute_bindings() -> (r: Vec<BindingEntry>)
    ensures
        r@ == compute_table(),
{
    let r = vec![
        BindingEntry { slot: 0, resource: BoundResource::OutputImage, kind: BindingKind::StorageImage, access: Access::WriteOnly },
        BindingEntry { slot: 1, resource: BoundResource::Buffer(BufferRole::Globals), kind: BindingKind::UniformBuffer, access: Access::Read },
        BindingEntry { slot: 2, resource: BoundResource::Buffer(BufferRole::Camera), kind: BindingKind::UniformBuffer, access: Access::Read },
        BindingEntry { slot: 3, resource: BoundResource::Buffer(BufferRole::SphereCount), kind: BindingKind::UniformBuffer, access: Access::Read },
        BindingEntry { slot: 4, resource: BoundResource::Buffer(BufferRole::Spheres), kind: BindingKind::StorageBuffer, access: Access::ReadOnly },
        BindingEntry { slot: 5, resource: BoundResource::Buffer(BufferRole::MaterialCount), kind: BindingKind::UniformBuffer, access: Access::Read },
        BindingEntry { slot: 6, resource: BoundResource::Buffer(BufferRole::Materials), kind: BindingKind::StorageBuffer, access: Access::ReadOnly },
    ];
    assert(r@ =~= compute_table());
    r
}

/// The render stage's binding table.
pub fn render_bindings() -> (r: Vec<BindingEntry>)
    ensures
        r@ == render_table(),
{
    let r = vec![
        BindingEntry { slot: 0, resource: BoundResource::OutputImage, kind: BindingKind::SampledTexture, access: Access::Read },
        BindingEntry { slot: 1, resource: BoundResource::Sampler, kind: BindingKind::Sampler, access: Access::Read },
    ];
    assert(r@ =~= render_table());
    r
}

/// The usages a buffer is created with: uniform buffers for the clock, the
/// camera and the two counts, storage for the two arrays, vertex for the
/// quad, and copy-destination exactly for the buffers rewritten each frame.
pub open spec fn spec_usage(role: BufferRole) -> BufferUsage {
    BufferUsage {
        uniform: role == BufferRole::Globals || role == BufferRole::Camera
            || role == BufferRole::SphereCount || role == BufferRole::MaterialCount,
        storage: role == BufferRole::Spheres || role == BufferRole::Materials,
        copy_dst: rewritten_each_frame(role),
        vertex: role == BufferRole::QuadVertices,
    }
}

/// The usages the buffer of `role` is created with.
pub fn buffer_usage(role: BufferRole) -> (r: BufferUsage)
    ensures
        r == spec_usage(role),
{
    match role {
        BufferRole::Globals | BufferRole::Camera => BufferUsage { uniform: true, storage: false, copy_dst: true, vertex: false },
        BufferRole::SphereCount | BufferRole::MaterialCount => BufferUsage { uniform: true, storage: false, copy_dst: false, vertex: false },
        BufferRole::Spheres | BufferRole::Materials => BufferUsage { uniform: false, storage: true, copy_dst: false, vertex: false },
        BufferRole::QuadVertices => BufferUsage { uniform: false, storage: false, copy_dst: false, vertex: true },
    }
}

/// In both tables each row's slot is its index, and no resource is bound
/// twice, so a table can be handed to the device row by row.
pub proof fn lemma_tables_slot_indexed()
    ensures
        forall|i: int| 0 <= i < compute_table().len() ==> (#[trigger] compute_table()[i]).slot == i,
        forall|i: int| 0 <= i < render_table().len() ==> (#[trigger] render_table()[i]).slot == i,
        forall|i: int, j: int|
            0 <= i < j < compute_table().len() ==> compute_table()[i].resource != compute_table()[j].resource,
        forall|i: int, j: int|
            0 <= i < j < render_table().len() ==> render_table()[i].resource != render_table()[j].resource,
{
}

/// The compute stage writes only the output image and only reads the rest;
/// every buffer that it binds as a uniform is created with the uniform usage
/// and every buffer that it binds as storage with the storage usage.
pub proof fn lemma_tables_match_usage()
    ensures
        forall|i: int|
            0 <= i < compute_table().len() ==> ((#[trigger] compute_table()[i]).access == Access::WriteOnly
                <==> compute_table()[i].resource == BoundResource::OutputImage),
        forall|i: int|
            0 <= i < compute_table().len() && (#[trigger] compute_table()[i]).resource is Buffer ==> {
                let usage = spec_usage(compute_table()[i].resource->Buffer_0);
                &&& (compute_table()[i].kind == BindingKind::UniformBuffer <==> usage.uniform)
                &&& (compute_table()[i].kind == BindingKind::StorageBuffer <==> usage.storage)
            },
{
}

} // verus!
