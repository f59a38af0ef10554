//! The surfel global-illumination renderer's resource layer: six persistent
//! spatial-hash buffers that survive across frames, and the allocation pass
//! that reads the frame's geometry and updates the hash state.

use vstd::prelude::*;

use crate::builder::SimpleComputePass;
use crate::desc::{AspectMask, BufferDesc, BufferUsage, Format};
use crate::graph::{
    handle_valid, Buffer, Device, Handle, Image, RenderGraph, ResKind, RetiredRenderGraph,
};
use crate::render_passes::{compute_body_recorded, compute_read_ref, pass_appended};
use crate::temporal::{Temporal, TemporalPhase, TemporalRegistry};

verus! {

/// How many cells the spatial hash has.
pub const MAX_SURFEL_CELLS: usize = 1024 * 1024;

/// How many surfels can live in the structure at once.
pub const MAX_SURFELS: usize = MAX_SURFEL_CELLS;

/// How many surfels one cell can index.
pub const MAX_SURFELS_PER_CELL: usize = 8;

/// A freshly allocated persistent storage buffer of `size` bytes: resident,
/// never retired, zero-filled.
pub open spec fn fresh_storage_temporal(t: Temporal<Buffer>, size: int) -> bool {
    &&& t.phase() == TemporalPhase::Resident
    &&& t.generation() == 0
    &&& t.resource().desc.size == size
    &&& t.resource().desc.usage == BufferUsage::Storage
    &&& t.resource().data@.len() == size
    &&& forall|b: int| 0 <= b < size ==> t.resource().data@[b] == 0u8
}

/// Allocates one persistent storage buffer and takes temporal ownership of
/// it. Allocation happens eagerly, at construction time.
pub fn new_temporal_storage_buffer(device: &Device, size_bytes: usize) -> (t: Temporal<Buffer>)
    ensures
        fresh_storage_temporal(t, size_bytes as int),
{
    Temporal::new(device.create_buffer(BufferDesc::new(size_bytes, BufferUsage::Storage)))
}

/// The renderer: all of its temporal resources live in one registry, so the
/// frame lifecycle is a single iteration rather than one call per field.
/// Registry order: surfel metadata, hash keys, hash values, per-cell index
/// offsets, the surfel index list, and surfel spatial data.
pub struct SurfelGiRenderer {
    pub registry: TemporalRegistry,
}

/// The renderer's frame-local face: one handle per temporal buffer, created
/// by `begin` and consumed by `end`, valid for exactly one frame.
pub struct SurfelGiRenderInstance {
    pub surfel_meta_buf: Handle<Buffer>,
    pub surfel_hash_key_buf: Handle<Buffer>,
    pub surfel_hash_value_buf: Handle<Buffer>,
    pub cell_index_offset_buf: Handle<Buffer>,
    pub surfel_index_buf: Handle<Buffer>,
    pub surfel_spatial_buf: Handle<Buffer>,
}

impl SurfelGiRenderInstance {
    /// The frame-local buffer ids, in registry order.
    pub open spec fn handle_ids(self) -> Seq<usize> {
        seq![
            self.surfel_meta_buf.id,
            self.surfel_hash_key_buf.id,
            self.surfel_hash_value_buf.id,
            self.cell_index_offset_buf.id,
            self.surfel_index_buf.id,
            self.surfel_spatial_buf.id,
        ]
    }
}

impl SurfelGiRenderer {
    /// Builds the renderer, allocating every persistent buffer eagerly:
    /// four bytes of metadata per hash (one 32-bit counter), one 32-bit key
    /// and one 32-bit value per cell, one 32-bit index offset per cell, one
    /// 32-bit index per cell slot, and sixteen bytes of spatial data per
    /// surfel.
    pub fn new(device: &Device) -> (r: SurfelGiRenderer)
        ensures
            r.registry@.len() == 6,
            fresh_storage_temporal(r.registry@[0], 4),
            fresh_storage_temporal(r.registry@[1], 4 * MAX_SURFEL_CELLS),
            fresh_storage_temporal(r.registry@[2], 4 * MAX_SURFEL_CELLS),
            fresh_storage_temporal(r.registry@[3], 4 * MAX_SURFEL_CELLS),
            fresh_storage_temporal(r.registry@[4], 4 * MAX_SURFEL_CELLS * MAX_SURFELS_PER_CELL),
            fresh_storage_temporal(r.registry@[5], 16 * MAX_SURFELS),
    {
        let mut registry = TemporalRegistry::new();
        registry.register(new_temporal_storage_buffer(device, 4));
        registry.register(new_temporal_storage_buffer(device, 4 * MAX_SURFEL_CELLS));
        registry.register(new_temporal_storage_buffer(device, 4 * MAX_SURFEL_CELLS));
        registry.register(new_temporal_storage_buffer(device, 4 * MAX_SURFEL_CELLS));
        registry.register(
            new_temporal_storage_buffer(device, 4 * MAX_SURFEL_CELLS * MAX_SURFELS_PER_CELL),
        );
        registry.register(new_temporal_storage_buffer(device, 16 * MAX_SURFELS));
        SurfelGiRenderer { registry }
    }

    /// Opens the frame: imports all six buffers into the graph, in registry
    /// order, and hands back the frame-local instance.
    pub fn begin(&mut self, rg: &mut RenderGraph) -> (inst: SurfelGiRenderInstance)
        requires
            old(self).registry@.len() == 6,
            forall|i: int|
                0 <= i < 6 ==> (#[trigger] old(self).registry@[i]).phase()
                    == TemporalPhase::Resident,
        ensures
            final(self).registry@.len() == 6,
            forall|i: int|
                0 <= i < 6 ==> {
                    &&& (#[trigger] final(self).registry@[i]).phase() == TemporalPhase::Lent
                    &&& final(self).registry@[i].lent_handle() == inst.handle_ids()[i]
                    &&& final(self).registry@[i].generation() == old(self).registry@[i].generation()
                },
            forall|i: int|
                0 <= i < 6 ==> #[trigger] inst.handle_ids()[i] == old(rg)@.buffers.len() + i,
            final(rg)@.buffers.len() == old(rg)@.buffers.len() + 6,
            forall|j: int|
                0 <= j < old(rg)@.buffers.len() ==> final(rg)@.buffers[j] == old(rg)@.buffers[j],
            forall|i: int|
                0 <= i < 6 ==> {
                    &&& (#[trigger] final(rg)@.buffers[old(rg)@.buffers.len() + i]).desc == old(self).registry@[i].resource().desc
                    &&& final(rg)@.buffers[old(rg)@.buffers.len() + i].data@ == old(self).registry@[i].resource().data@
                },
            final(rg)@.images == old(rg)@.images,
            final(rg)@.accels == old(rg)@.accels,
            final(rg)@.pipelines == old(rg)@.pipelines,
            final(rg)@.passes == old(rg)@.passes,
    {
        let mut handles = self.registry.begin(rg);
        let ghost all = handles@;
        let surfel_meta_buf = handles.remove(0);
        proof {
            assert(handles@ =~= all.skip(1));
        }
        let surfel_hash_key_buf = handles.remove(0);
        proof {
            assert(handles@ =~= all.skip(2));
        }
        let surfel_hash_value_buf = handles.remove(0);
        proof {
            assert(handles@ =~= all.skip(3));
        }
        let cell_index_offset_buf = handles.remove(0);
        proof {
            assert(handles@ =~= all.skip(4));
        }
        let surfel_index_buf = handles.remove(0);
        proof {
            assert(handles@ =~= all.skip(5));
        }
        let surfel_spatial_buf = handles.remove(0);
        let inst = SurfelGiRenderInstance {
            surfel_meta_buf,
            surfel_hash_key_buf,
            surfel_hash_value_buf,
            cell_index_offset_buf,
            surfel_index_buf,
            surfel_spatial_buf,
        };
        proof {
            assert forall|i: int| 0 <= i < 6 implies #[trigger] inst.handle_ids()[i]
                == old(rg)@.buffers.len() + i by {
                assert(self.registry@[i].phase() == TemporalPhase::Lent);
                assert(inst.handle_ids()[i] == all[i].id);
            }
        }
        inst
    }

    /// Closes the frame: exports all six handles back into the registry, in
    /// registry order. The instance must be the one this frame's `begin`
    /// produced, so the handles pair with their entries and are pairwise
    /// distinct.
    pub fn end(&mut self, rg: &mut RenderGraph, inst: SurfelGiRenderInstance)
        requires
            old(self).registry@.len() == 6,
            forall|i: int|
                0 <= i < 6 ==> {
                    &&& (#[trigger] old(self).registry@[i]).phase() == TemporalPhase::Lent
                    &&& old(self).registry@[i].lent_handle() == inst.handle_ids()[i]
                    &&& inst.handle_ids()[i] < old(rg)@.buffers.len()
                },
            forall|i: int, j: int|
                0 <= i < j < 6 ==> inst.handle_ids()[i] != inst.handle_ids()[j],
        ensures
            final(self).registry@.len() == 6,
            forall|i: int|
                0 <= i < 6 ==> {
                    &&& (#[trigger] final(self).registry@[i]).phase() == TemporalPhase::Returned
                    &&& final(self).registry@[i].resource().desc == old(rg)@.buffers[
                        inst.handle_ids()[i] as int
                    ].desc
                    &&& final(self).registry@[i].resource().data@ == old(rg)@.buffers[
                        inst.handle_ids()[i] as int
                    ].data@
                    &&& final(self).registry@[i].generation() == old(self).registry@[i].generation()
                },
            final(rg)@.buffers.len() == old(rg)@.buffers.len(),
            forall|j: int|
                0 <= j < old(rg)@.buffers.len() && (forall|i: int|
                    0 <= i < 6 ==> #[trigger] inst.handle_ids()[i] != j) ==> final(rg)@.buffers[j] == old(rg)@.buffers[j],
            final(rg)@.images == old(rg)@.images,
            final(rg)@.accels == old(rg)@.accels,
            final(rg)@.pipelines == old(rg)@.pipelines,
            final(rg)@.passes == old(rg)@.passes,
    {
        let mut handles: Vec<Handle<Buffer>> = Vec::new();
        handles.push(inst.surfel_meta_buf);
        handles.push(inst.surfel_hash_key_buf);
        handles.push(inst.surfel_hash_value_buf);
        handles.push(inst.cell_index_offset_buf);
        handles.push(inst.surfel_index_buf);
        handles.push(inst.surfel_spatial_buf);
        proof {
            assert forall|i: int| 0 <= i < 6 implies (#[trigger] handles@[i]).id
                == inst.handle_ids()[i] by {}
        }
        self.registry.end(rg, handles);
    }

    /// Reclaims the frame's graph-side bookkeeping for all six buffers once
    /// the frame has been submitted.
    pub fn retire(&mut self, rg: &RetiredRenderGraph)
        requires
            forall|i: int|
                0 <= i < old(self).registry@.len() ==> (#[trigger] old(self).registry@[i]).phase()
                    == TemporalPhase::Returned && old(self).registry@[i].generation() < u64::MAX,
        ensures
            final(self).registry@.len() == old(self).registry@.len(),
            forall|i: int|
                0 <= i < old(self).registry@.len() ==> {
                    &&& (#[trigger] final(self).registry@[i]).phase() == TemporalPhase::Resident
                    &&& final(self).registry@[i].resource() == old(self).registry@[i].resource()
                    &&& final(self).registry@[i].generation() == old(self).registry@[i].generation() + 1
                },
    {
        self.registry.retire(rg);
    }
}

impl SurfelGiRenderInstance {
    /// Declares the surfel allocation pass: reads the frame's geometry
    /// buffer and depth (depth aspect only), updates the hash metadata,
    /// keys and values in place, reads the index structures and spatial
    /// data, and writes a fresh debug visualization target of the geometry
    /// buffer's extent. Binding slots follow registration order.
    pub fn allocate_surfels(
        &mut self,
        rg: &mut RenderGraph,
        gbuffer: &Handle<Image>,
        depth: &Handle<Image>,
    ) -> (h: Handle<Image>)
        requires
            handle_valid::<Image>(old(rg)@, *gbuffer),
            handle_valid::<Image>(old(rg)@, *depth),
            handle_valid::<Buffer>(old(rg)@, old(self).surfel_meta_buf),
            handle_valid::<Buffer>(old(rg)@, old(self).surfel_hash_key_buf),
            handle_valid::<Buffer>(old(rg)@, old(self).surfel_hash_value_buf),
            handle_valid::<Buffer>(old(rg)@, old(self).cell_index_offset_buf),
            handle_valid::<Buffer>(old(rg)@, old(self).surfel_index_buf),
            handle_valid::<Buffer>(old(rg)@, old(self).surfel_spatial_buf),
        ensures
            *final(self) == *old(self),
            h.id == old(rg)@.images.len(),
            crate::graph::images_extended(
                old(rg)@,
                final(rg)@,
                crate::desc::with_format(
                    old(rg)@.images[gbuffer.id as int].desc,
                    Format::R32G32B32A32Sfloat,
                ),
            ),
            crate::graph::pipeline_added_compute(
                old(rg)@,
                final(rg)@,
                "/assets/shaders/surfel_gi/allocate_surfels.hlsl"@,
            ),
            pass_appended(old(rg)@, final(rg)@, allocate_surfels_decls(*old(self), *gbuffer, *depth, h)),
            compute_body_recorded(
                final(rg)@.passes.last().body,
                old(rg)@.pipelines.len() as int,
                allocate_surfels_slots(*old(self), *gbuffer, *depth, h),
                None,
                old(rg)@.images[gbuffer.id as int].desc.extent@,
            ),
            final(rg)@.buffers == old(rg)@.buffers,
            final(rg)@.accels == old(rg)@.accels,
    {
        let pass = rg.add_pass();
        let gbuffer_desc = rg.image_desc(gbuffer);
        let mut debug_out = pass.create(rg, &gbuffer_desc.format(Format::R32G32B32A32Sfloat));

        let composed = SimpleComputePass::new(
            pass,
            rg,
            "/assets/shaders/surfel_gi/allocate_surfels.hlsl",
        ).read(rg, gbuffer).read_aspect(rg, depth, AspectMask::Depth).write(
            rg,
            &mut self.surfel_meta_buf,
        ).write(rg, &mut self.surfel_hash_key_buf).write(rg, &mut self.surfel_hash_value_buf).read(
            rg,
            &self.cell_index_offset_buf,
        ).read(rg, &self.surfel_index_buf).read(rg, &self.surfel_spatial_buf).write(
            rg,
            &mut debug_out,
        );
        proof {
            assert(composed.calls@ =~= allocate_surfels_calls(
                *old(self),
                *gbuffer,
                *depth,
                debug_out,
            ));
        }
        composed.dispatch(rg, gbuffer_desc.extent);

        proof {
            assert(rg@.passes.last().declarations@ =~= allocate_surfels_decls(
                *old(self),
                *gbuffer,
                *depth,
                debug_out,
            ));
        }
        debug_out
    }
}

/// The builder calls the allocation pass makes, in order.
pub open spec fn allocate_surfels_calls(
    inst: SurfelGiRenderInstance,
    gbuffer: Handle<Image>,
    depth: Handle<Image>,
    debug_out: Handle<Image>,
) -> Seq<crate::builder::BuilderCall> {
    seq![
        crate::builder::BuilderCall::Read { kind: ResKind::Image, id: gbuffer.id },
        crate::builder::BuilderCall::ReadAspect { id: depth.id, aspect: AspectMask::Depth },
        crate::builder::BuilderCall::Write { kind: ResKind::Buffer, id: inst.surfel_meta_buf.id },
        crate::builder::BuilderCall::Write {
            kind: ResKind::Buffer,
            id: inst.surfel_hash_key_buf.id,
        },
        crate::builder::BuilderCall::Write {
            kind: ResKind::Buffer,
            id: inst.surfel_hash_value_buf.id,
        },
        crate::builder::BuilderCall::Read {
            kind: ResKind::Buffer,
            id: inst.cell_index_offset_buf.id,
        },
        crate::builder::BuilderCall::Read { kind: ResKind::Buffer, id: inst.surfel_index_buf.id },
        crate::builder::BuilderCall::Read {
            kind: ResKind::Buffer,
            id: inst.surfel_spatial_buf.id,
        },
        crate::builder::BuilderCall::Write { kind: ResKind::Image, id: debug_out.id },
    ]
}

/// The accesses the allocation pass declares, in order.
pub open spec fn allocate_surfels_decls(
    inst: SurfelGiRenderInstance,
    gbuffer: Handle<Image>,
    depth: Handle<Image>,
    debug_out: Handle<Image>,
) -> Seq<crate::graph::AccessRef> {
    allocate_surfels_calls(inst, gbuffer, depth, debug_out).map_values(
        |c: crate::builder::BuilderCall| c.access_ref(),
    )
}

/// The descriptor-slot assignment of the allocation pass, in order.
pub open spec fn allocate_surfels_slots(
    inst: SurfelGiRenderInstance,
    gbuffer: Handle<Image>,
    depth: Handle<Image>,
    debug_out: Handle<Image>,
) -> Seq<crate::graph::RenderPassBinding> {
    crate::builder::slots_of(allocate_surfels_calls(inst, gbuffer, depth, debug_out))
}

} // verus!
