//! The frame graph: a dependency-tracking engine that records pass
//! declarations.
//!
//! A [`RenderGraph`] lives for exactly one frame. Resources are brought in
//! by [`PassBuilder::create`] or, for persistent resources, by
//! [`RenderGraph::import_temporal`]; passes declare their accesses through a
//! [`PassBuilder`] and finish by recording one inspectable command — a
//! pipeline, descriptor sets, and an invocation — on the submission queue.
//! Resolving the declared dependencies into an execution order with barriers
//! is the engine backend's job and happens after this layer is done;
//! nothing here assumes passes run in declaration order.
//!
//! Buffer contents are modeled as plain bytes. A pass body may touch a
//! resource only through the [`AccessRef`] it was granted when it declared
//! the access, and only a write-mode reference permits mutation; that is
//! what makes the temporal persistence guarantee a theorem rather than a
//! convention.

use vstd::prelude::*;

use crate::desc::{AccessType, AspectMask, BufferDesc, ImageDesc, RawDescriptorSet, RenderPass};
use crate::temporal::{Temporal, TemporalPhase};

verus! {

/// The kind of resource a handle or access token refers to.
#[derive(Clone, Copy, Debug, PartialEq, Eq, Structural)]
pub enum ResKind {
    Image,
    Buffer,
    Accel,
}

/// A resource kind that can be registered with the graph.
pub trait Resource {
    /// The kind tag for this resource type.
    spec fn kind() -> ResKind;

    /// Runtime value of the kind tag.
    fn runtime_kind() -> (k: ResKind)
        ensures
            k == Self::kind(),
    ;
}

/// An image resource owned outside any frame graph.
pub struct Image {
    pub desc: ImageDesc,
}

/// A buffer resource owned outside any frame graph: its description and its
/// byte content.
#[derive(Clone, Debug, PartialEq, Eq)]
pub struct Buffer {
    pub desc: BufferDesc,
    pub data: Vec<u8>,
}

/// A top-level ray-tracing acceleration structure, opaque to this layer.
pub struct RayTracingAcceleration;

impl Resource for Image {
    open spec fn kind() -> ResKind {
        ResKind::Image
    }

    fn runtime_kind() -> (k: ResKind) {
        ResKind::Image
    }
}

impl Resource for Buffer {
    open spec fn kind() -> ResKind {
        ResKind::Buffer
    }

    fn runtime_kind() -> (k: ResKind) {
        ResKind::Buffer
    }
}

impl Resource for RayTracingAcceleration {
    open spec fn kind() -> ResKind {
        ResKind::Accel
    }

    fn runtime_kind() -> (k: ResKind) {
        ResKind::Accel
    }
}

/// The device/backend collaborator, reduced to the one service this layer
/// consumes from it: eager resource allocation at construction time.
pub struct Device;

impl Device {
    /// A fresh device.
    pub fn new() -> Device {
        Device
    }

    /// Allocates a buffer eagerly, zero-initialized. Allocation failure is
    /// a hard startup error (the process aborts), never a per-frame
    /// condition, so no error value is surfaced.
    pub fn create_buffer(&self, desc: BufferDesc) -> (b: Buffer)
        ensures
            b.desc == desc,
            b.data@.len() == desc.size,
            forall|i: int| 0 <= i < desc.size ==> b.data@[i] == 0u8,
    {
        let data = vec![0u8; desc.size];
        proof {
            assert forall|i: int| 0 <= i < desc.size implies data@[i] == 0u8 by {
                assert(cloned(0u8, data@[i]));
            }
        }
        Buffer { desc, data }
    }
}

/// A frame-local reference to a resource in the current graph. Valid only
/// for the frame that issued it.
pub struct Handle<R> {
    pub id: usize,
    pub marker: core::marker::PhantomData<R>,
}

/// The token granted when a resource is registered for one access within
/// one pass: the only path through which a pass body may touch the
/// resource, carrying the access mode the engine will honor.
#[derive(Clone, Copy, Debug, PartialEq, Eq, Structural)]
pub struct AccessRef {
    pub kind: ResKind,
    pub id: usize,
    pub access: AccessType,
}

impl AccessRef {
    /// The descriptor binding of this access under the default image view.
    pub open spec fn bound(self) -> RenderPassBinding {
        RenderPassBinding { target: self, aspect: None }
    }

    /// The descriptor binding of this access restricted to `aspect`.
    pub open spec fn bound_view(self, aspect: AspectMask) -> RenderPassBinding {
        RenderPassBinding { target: self, aspect: Some(aspect) }
    }

    /// A descriptor binding for this access, with the default image view.
    pub fn bind(&self) -> (b: RenderPassBinding)
        ensures
            b == self.bound(),
    {
        RenderPassBinding { target: *self, aspect: None }
    }

    /// A descriptor binding restricted to a subset of image planes (for
    /// example the depth aspect of a depth-stencil image).
    pub fn bind_view(&self, aspect: AspectMask) -> (b: RenderPassBinding)
        ensures
            b == self.bound_view(aspect),
    {
        RenderPassBinding { target: *self, aspect: Some(aspect) }
    }
}

/// One entry of a pass's ordered descriptor binding list.
#[derive(Clone, Copy, Debug, PartialEq, Eq, Structural)]
pub struct RenderPassBinding {
    pub target: AccessRef,
    pub aspect: Option<AspectMask>,
}

/// A shader stage of a pipeline.
#[derive(Clone, Copy, Debug, PartialEq, Eq, Structural)]
pub enum ShaderPipelineStage {
    Vertex,
    Pixel,
    RayGen,
    RayMiss,
    RayClosestHit,
}

/// Description of one shader stage.
#[derive(Clone, Copy, Debug, PartialEq, Eq, Structural)]
pub struct PipelineShaderDesc {
    pub stage: ShaderPipelineStage,
}

impl PipelineShaderDesc {
    /// Starts describing a stage.
    pub fn builder(stage: ShaderPipelineStage) -> (b: PipelineShaderDescBuilder)
        ensures
            b.stage == stage,
    {
        PipelineShaderDescBuilder { stage }
    }
}

/// Builder for [`PipelineShaderDesc`].
#[derive(Clone, Copy, Debug, PartialEq, Eq, Structural)]
pub struct PipelineShaderDescBuilder {
    pub stage: ShaderPipelineStage,
}

impl PipelineShaderDescBuilder {
    /// Finishes the description.
    pub fn build(self) -> (d: PipelineShaderDesc)
        ensures
            d.stage == self.stage,
    {
        PipelineShaderDesc { stage: self.stage }
    }
}

/// One shader stage of a pipeline: the shader source path and the stage
/// description.
#[derive(Clone, Debug, PartialEq, Eq)]
pub struct PipelineShader {
    pub code: String,
    pub desc: PipelineShaderDesc,
}

/// Fixed-function state a raster pipeline is compiled with.
#[derive(Clone, Copy, Debug, PartialEq, Eq, Structural)]
pub struct RasterPipelineDesc {
    pub render_pass: RenderPass,
    pub face_cull: bool,
}

impl RasterPipelineDesc {
    /// Starts from the default state: no face culling, the zero render
    /// pass.
    pub fn builder() -> (d: RasterPipelineDesc)
        ensures
            d.render_pass == (RenderPass { id: 0 }),
            !d.face_cull,
    {
        RasterPipelineDesc { render_pass: RenderPass { id: 0 }, face_cull: false }
    }

    /// Sets the render pass the pipeline is compiled against.
    pub fn render_pass(self, render_pass: RenderPass) -> (d: RasterPipelineDesc)
        ensures
            d.render_pass == render_pass,
            d.face_cull == self.face_cull,
    {
        RasterPipelineDesc { render_pass, face_cull: self.face_cull }
    }

    /// Sets back-face culling.
    pub fn face_cull(self, face_cull: bool) -> (d: RasterPipelineDesc)
        ensures
            d.render_pass == self.render_pass,
            d.face_cull == face_cull,
    {
        RasterPipelineDesc { render_pass: self.render_pass, face_cull }
    }
}

/// Fixed state of a ray-tracing pipeline.
#[derive(Clone, Copy, Debug, PartialEq, Eq, Structural)]
pub struct RayTracingPipelineDesc {
    pub max_pipeline_ray_recursion_depth: u32,
}

impl Default for RayTracingPipelineDesc {
    /// Recursion depth 1: rays may be traced from the ray-generation stage
    /// but not from hit or miss stages.
    fn default() -> (d: RayTracingPipelineDesc)
        ensures
            d.max_pipeline_ray_recursion_depth == 1,
    {
        RayTracingPipelineDesc { max_pipeline_ray_recursion_depth: 1 }
    }
}

impl RayTracingPipelineDesc {
    /// Sets the declared maximum recursion depth.
    pub fn max_pipeline_ray_recursion_depth(self, depth: u32) -> (d: RayTracingPipelineDesc)
        ensures
            d.max_pipeline_ray_recursion_depth == depth,
    {
        RayTracingPipelineDesc { max_pipeline_ray_recursion_depth: depth }
    }
}

/// A registered compute pipeline.
#[derive(Clone, Copy, Debug, PartialEq, Eq, Structural)]
pub struct ComputePipelineHandle {
    pub idx: usize,
}

/// A registered raster pipeline.
#[derive(Clone, Copy, Debug, PartialEq, Eq, Structural)]
pub struct RasterPipelineHandle {
    pub idx: usize,
}

/// A registered ray-tracing pipeline.
#[derive(Clone, Copy, Debug, PartialEq, Eq, Structural)]
pub struct RayTracingPipelineHandle {
    pub idx: usize,
}

/// What a registered pipeline was built from.
#[derive(Clone, Debug, PartialEq, Eq)]
pub enum PipelineDef {
    Compute { path: String },
    Raster { shaders: Vec<PipelineShader>, desc: RasterPipelineDesc },
    RayTracing { shaders: Vec<PipelineShader>, desc: RayTracingPipelineDesc },
}

/// One descriptor set of a recorded command: either a binding list composed
/// by this layer, or an externally managed raw set passed through opaquely.
#[derive(Clone, Debug, PartialEq, Eq)]
pub enum DescriptorSetBinding {
    Slots { set_index: u32, bindings: Vec<RenderPassBinding> },
    Raw { set_index: u32, set: RawDescriptorSet },
}

/// The executable body of a recorded pass: everything the engine needs at
/// submission time, captured by value.
#[derive(Clone, Debug, PartialEq, Eq)]
pub enum PassBody {
    Compute {
        pipeline: ComputePipelineHandle,
        sets: Vec<DescriptorSetBinding>,
        extent: [u32; 3],
    },
    Raster {
        pipeline: RasterPipelineHandle,
        render_pass: RenderPass,
        viewport: [u32; 2],
        color: RenderPassBinding,
        depth: RenderPassBinding,
        sets: Vec<DescriptorSetBinding>,
        index_buffer: std::sync::Arc<Buffer>,
        draws: Vec<crate::render_passes::UploadedTriMesh>,
    },
    RayTrace {
        pipeline: RayTracingPipelineHandle,
        sets: Vec<DescriptorSetBinding>,
        extent: [u32; 3],
    },
    ClearDepthStencil {
        target: AccessRef,
    },
    ClearColor {
        target: AccessRef,
        value: [u32; 4],
    },
}

/// One pass on the submission queue: the accesses it declared, and the
/// command it records once all bindings are finalized.
#[derive(Clone, Debug, PartialEq, Eq)]
pub struct RecordedPass {
    pub declarations: Vec<AccessRef>,
    pub body: Option<PassBody>,
}

/// A frame-local image slot.
#[derive(Clone, Copy, Debug, PartialEq, Eq)]
pub struct ImageSlot {
    pub desc: ImageDesc,
}

/// A frame-local buffer slot with its byte content.
#[derive(Clone, Debug, PartialEq, Eq)]
pub struct BufferSlot {
    pub desc: BufferDesc,
    pub data: Vec<u8>,
}

/// The mathematical state of a [`RenderGraph`].
pub ghost struct GraphModel {
    pub images: Seq<ImageSlot>,
    pub buffers: Seq<BufferSlot>,
    pub accels: nat,
    pub pipelines: Seq<PipelineDef>,
    pub passes: Seq<RecordedPass>,
}

/// One frame's dependency graph under construction.
pub struct RenderGraph {
    images: Vec<ImageSlot>,
    buffers: Vec<BufferSlot>,
    accels: usize,
    pipelines: Vec<PipelineDef>,
    passes: Vec<RecordedPass>,
}

impl View for RenderGraph {
    type V = GraphModel;

    closed spec fn view(&self) -> GraphModel {
        GraphModel {
            images: self.images@,
            buffers: self.buffers@,
            accels: self.accels as nat,
            pipelines: self.pipelines@,
            passes: self.passes@,
        }
    }
}

/// Whether a frame-local handle refers to a live slot of its kind.
pub open spec fn handle_valid<R: Resource>(g: GraphModel, h: Handle<R>) -> bool {
    match R::kind() {
        ResKind::Image => h.id < g.images.len(),
        ResKind::Buffer => h.id < g.buffers.len(),
        ResKind::Accel => h.id < g.accels,
    }
}

/// The graphs hold the same resources (slots and their contents).
pub open spec fn same_resources(pre: GraphModel, post: GraphModel) -> bool {
    &&& post.images == pre.images
    &&& post.buffers == pre.buffers
    &&& post.accels == pre.accels
}

/// The graphs hold the same pipeline registrations.
pub open spec fn same_pipelines(pre: GraphModel, post: GraphModel) -> bool {
    post.pipelines == pre.pipelines
}

/// The graphs hold the same pass records.
pub open spec fn same_passes(pre: GraphModel, post: GraphModel) -> bool {
    post.passes == pre.passes
}

/// One pass record gained a fresh, empty entry at index `i`; all prior
/// entries are untouched.
pub open spec fn pass_added(pre: GraphModel, post: GraphModel, i: int) -> bool {
    &&& i == pre.passes.len()
    &&& post.passes.len() == pre.passes.len() + 1
    &&& (forall|j: int| 0 <= j < pre.passes.len() ==> post.passes[j] == pre.passes[j])
    &&& post.passes[i].declarations@ =~= Seq::<AccessRef>::empty()
    &&& post.passes[i].body is None
}

/// Pass `i` declared one more access `r`; everything else about the pass
/// queue is untouched.
pub open spec fn pass_declared(pre: GraphModel, post: GraphModel, i: int, r: AccessRef) -> bool {
    &&& 0 <= i < pre.passes.len()
    &&& post.passes.len() == pre.passes.len()
    &&& (forall|j: int| 0 <= j < pre.passes.len() && j != i ==> post.passes[j] == pre.passes[j])
    &&& post.passes[i].declarations@ == pre.passes[i].declarations@.push(r)
    &&& post.passes[i].body == pre.passes[i].body
}

/// Pass `i` recorded its command; its declarations and every other pass are
/// untouched.
pub open spec fn pass_rendered(pre: GraphModel, post: GraphModel, i: int, body: PassBody) -> bool {
    &&& 0 <= i < pre.passes.len()
    &&& post.passes.len() == pre.passes.len()
    &&& (forall|j: int| 0 <= j < pre.passes.len() && j != i ==> post.passes[j] == pre.passes[j])
    &&& post.passes[i].declarations == pre.passes[i].declarations
    &&& post.passes[i].body == Some(body)
}

/// The image pool gained one slot with the given description.
pub open spec fn images_extended(pre: GraphModel, post: GraphModel, desc: ImageDesc) -> bool {
    post.images == pre.images.push(ImageSlot { desc })
}

/// The buffer pool gained one slot with the given description and content.
pub open spec fn buffers_extended(
    pre: GraphModel,
    post: GraphModel,
    desc: BufferDesc,
    data: Seq<u8>,
) -> bool {
    &&& post.buffers.len() == pre.buffers.len() + 1
    &&& (forall|j: int| 0 <= j < pre.buffers.len() ==> post.buffers[j] == pre.buffers[j])
    &&& post.buffers.last().desc == desc
    &&& post.buffers.last().data@ == data
}

/// The pipeline table gained one compute pipeline for the given shader
/// path.
pub open spec fn pipeline_added_compute(pre: GraphModel, post: GraphModel, path: Seq<char>) -> bool {
    &&& post.pipelines.len() == pre.pipelines.len() + 1
    &&& (forall|j: int| 0 <= j < pre.pipelines.len() ==> post.pipelines[j] == pre.pipelines[j])
    &&& post.pipelines.last() matches PipelineDef::Compute { path: p } && p@ == path
}

/// The pipeline table gained one raster pipeline with the given stages.
pub open spec fn pipeline_added_raster(
    pre: GraphModel,
    post: GraphModel,
    shaders: Vec<PipelineShader>,
    desc: RasterPipelineDesc,
) -> bool {
    &&& post.pipelines.len() == pre.pipelines.len() + 1
    &&& (forall|j: int| 0 <= j < pre.pipelines.len() ==> post.pipelines[j] == pre.pipelines[j])
    &&& post.pipelines.last() matches PipelineDef::Raster { shaders: s, desc: d } && s == shaders
        && d == desc
}

/// The pipeline table gained one ray-tracing pipeline with the given
/// stages.
pub open spec fn pipeline_added_ray_tracing(
    pre: GraphModel,
    post: GraphModel,
    shaders: Vec<PipelineShader>,
    desc: RayTracingPipelineDesc,
) -> bool {
    &&& post.pipelines.len() == pre.pipelines.len() + 1
    &&& (forall|j: int| 0 <= j < pre.pipelines.len() ==> post.pipelines[j] == pre.pipelines[j])
    &&& post.pipelines.last() matches PipelineDef::RayTracing { shaders: s, desc: d } && s == shaders
        && d == desc
}

/// A raster pipeline takes exactly a vertex stage followed by a pixel
/// stage; anything else is an unsupported combination and a setup-time
/// error.
pub open spec fn valid_raster_stages(shaders: Seq<PipelineShader>) -> bool {
    &&& shaders.len() == 2
    &&& shaders[0].desc.stage == ShaderPipelineStage::Vertex
    &&& shaders[1].desc.stage == ShaderPipelineStage::Pixel
}

/// A ray-tracing pipeline takes a ray-generation stage followed by at least
/// one miss stage, with closest-hit stages optional after it.
pub open spec fn valid_ray_tracing_stages(shaders: Seq<PipelineShader>) -> bool {
    &&& shaders.len() >= 2
    &&& shaders[0].desc.stage == ShaderPipelineStage::RayGen
    &&& shaders[1].desc.stage == ShaderPipelineStage::RayMiss
    &&& (forall|j: int| 1 <= j < shaders.len() ==> #[trigger] shaders[j].desc.stage
        == ShaderPipelineStage::RayMiss || shaders[j].desc.stage
        == ShaderPipelineStage::RayClosestHit)
}

/// `data` with `bytes` written at `offset`, everything else untouched.
pub open spec fn written(data: Seq<u8>, offset: int, bytes: Seq<u8>) -> Seq<u8>
    recommends
        0 <= offset,
        offset + bytes.len() <= data.len(),
{
    Seq::new(
        data.len(),
        |k: int|
            if offset <= k < offset + bytes.len() {
                bytes[k - offset]
            } else {
                data[k]
            },
    )
}

impl RenderGraph {
    /// An empty graph for a fresh frame.
    pub fn new() -> (rg: RenderGraph)
        ensures
            rg@.images =~= Seq::<ImageSlot>::empty(),
            rg@.buffers =~= Seq::<BufferSlot>::empty(),
            rg@.accels == 0,
            rg@.pipelines =~= Seq::<PipelineDef>::empty(),
            rg@.passes =~= Seq::<RecordedPass>::empty(),
    {
        RenderGraph {
            images: Vec::new(),
            buffers: Vec::new(),
            accels: 0,
            pipelines: Vec::new(),
            passes: Vec::new(),
        }
    }

    /// Opens a fresh pass. The returned builder accumulates the pass's
    /// declarations and must record its command exactly once.
    pub fn add_pass(&mut self) -> (pb: PassBuilder)
        ensures
            pb.pass_index == old(self)@.passes.len(),
            pass_added(old(self)@, final(self)@, pb.pass_index as int),
            pb.wf(final(self)@),
            same_resources(old(self)@, final(self)@),
            same_pipelines(old(self)@, final(self)@),
    {
        let pass_index = self.passes.len();
        self.passes.push(RecordedPass { declarations: Vec::new(), body: None });
        PassBuilder { pass_index }
    }

    /// Imports a persistent resource into this frame, lending its content
    /// to a fresh frame-local buffer slot. The bracket opened here is
    /// closed by [`RenderGraph::export_temporal`].
    pub fn import_temporal(&mut self, t: &mut Temporal<Buffer>) -> (h: Handle<Buffer>)
        requires
            old(t).phase() == TemporalPhase::Resident,
        ensures
            h.id == old(self)@.buffers.len(),
            buffers_extended(
                old(self)@,
                final(self)@,
                old(t).resource().desc,
                old(t).resource().data@,
            ),
            final(self)@.images == old(self)@.images,
            final(self)@.accels == old(self)@.accels,
            same_pipelines(old(self)@, final(self)@),
            same_passes(old(self)@, final(self)@),
            final(t).phase() == TemporalPhase::Lent,
            final(t).lent_handle() == h.id,
            final(t).generation() == old(t).generation(),
    {
        let id = self.buffers.len();
        let resource = t.lend(id);
        self.buffers.push(BufferSlot { desc: resource.desc, data: resource.data });
        Handle { id, marker: core::marker::PhantomData }
    }

    /// Exports a lent resource back to its registry slot, closing the
    /// bracket opened by import. The content handed back is whatever the
    /// frame's declared writers left in the slot; the drained frame-local
    /// slot stays behind so earlier handles keep their indices.
    pub fn export_temporal(&mut self, handle: Handle<Buffer>, t: &mut Temporal<Buffer>)
        requires
            old(t).phase() == TemporalPhase::Lent,
            old(t).lent_handle() == handle.id,
            handle.id < old(self)@.buffers.len(),
        ensures
            final(t).phase() == TemporalPhase::Returned,
            final(t).resource().desc == old(self)@.buffers[handle.id as int].desc,
            final(t).resource().data@ == old(self)@.buffers[handle.id as int].data@,
            final(t).generation() == old(t).generation(),
            final(self)@.buffers.len() == old(self)@.buffers.len(),
            forall|j: int|
                0 <= j < old(self)@.buffers.len() && j != handle.id ==> final(self)@.buffers[j]
                    == old(self)@.buffers[j],
            final(self)@.buffers[handle.id as int].desc == old(self)@.buffers[
                handle.id as int
            ].desc,
            final(self)@.buffers[handle.id as int].data@ =~= Seq::<u8>::empty(),
            final(self)@.images == old(self)@.images,
            final(self)@.accels == old(self)@.accels,
            same_pipelines(old(self)@, final(self)@),
            same_passes(old(self)@, final(self)@),
    {
        let desc = self.buffers[handle.id].desc;
        let mut slot = BufferSlot { desc, data: Vec::new() };
        core::mem::swap(&mut self.buffers[handle.id], &mut slot);
        t.accept(Buffer { desc: slot.desc, data: slot.data });
    }

    /// Registers an externally built top-level acceleration structure for
    /// this frame.
    pub fn import_ray_tracing_acceleration(&mut self) -> (h: Handle<RayTracingAcceleration>)
        requires
            old(self)@.accels < usize::MAX,
        ensures
            h.id == old(self)@.accels,
            final(self)@.accels == old(self)@.accels + 1,
            final(self)@.images == old(self)@.images,
            final(self)@.buffers == old(self)@.buffers,
            same_pipelines(old(self)@, final(self)@),
            same_passes(old(self)@, final(self)@),
    {
        let id = self.accels;
        self.accels = self.accels + 1;
        Handle { id, marker: core::marker::PhantomData }
    }

    /// Writes bytes into a frame-local buffer, as a pass body does when the
    /// engine executes it. Only a write-mode access token grants this.
    pub fn write_buffer(&mut self, access: &AccessRef, offset: usize, bytes: &[u8])
        requires
            access.kind == ResKind::Buffer,
            access.access.is_write(),
            access.id < old(self)@.buffers.len(),
            offset + bytes@.len() <= old(self)@.buffers[access.id as int].data@.len(),
        ensures
            final(self)@.buffers.len() == old(self)@.buffers.len(),
            forall|j: int|
                0 <= j < old(self)@.buffers.len() && j != access.id ==> final(self)@.buffers[j]
                    == old(self)@.buffers[j],
            final(self)@.buffers[access.id as int].desc == old(self)@.buffers[
                access.id as int
            ].desc,
            final(self)@.buffers[access.id as int].data@ == written(
                old(self)@.buffers[access.id as int].data@,
                offset as int,
                bytes@,
            ),
            final(self)@.images == old(self)@.images,
            final(self)@.accels == old(self)@.accels,
            same_pipelines(old(self)@, final(self)@),
            same_passes(old(self)@, final(self)@),
    {
        let id = access.id;
        let desc = self.buffers[id].desc;
        let mut slot = BufferSlot { desc, data: Vec::new() };
        core::mem::swap(&mut self.buffers[id], &mut slot);
        let ghost pre_data = slot.data@;
        let n = slot.data.len();
        let mut j: usize = 0;
        while j < bytes.len()
            invariant
                j <= bytes@.len(),
                offset + bytes@.len() <= pre_data.len(),
                pre_data.len() == n,
                slot.data@.len() == pre_data.len(),
                slot.desc == desc,
                forall|k: int|
                    0 <= k < pre_data.len() && !(offset <= k < offset + j) ==> slot.data@[k]
                        == pre_data[k],
                forall|k: int|
                    offset <= k < offset + j ==> slot.data@[k] == bytes@[k - offset],
            decreases bytes@.len() - j,
        {
            slot.data[offset + j] = bytes[j];
            j = j + 1;
        }
        core::mem::swap(&mut self.buffers[id], &mut slot);
        proof {
            assert(self.buffers@[id as int].data@ =~= written(pre_data, offset as int, bytes@));
        }
    }

    /// Reads bytes from a frame-local buffer through an access token, as a
    /// pass body does at execution time.
    pub fn read_buffer(&self, access: &AccessRef, offset: usize, len: usize) -> (r: Vec<u8>)
        requires
            access.kind == ResKind::Buffer,
            access.id < self@.buffers.len(),
            offset + len <= self@.buffers[access.id as int].data@.len(),
        ensures
            r@ == self@.buffers[access.id as int].data@.subrange(
                offset as int,
                offset + len,
            ),
    {
        let slot = &self.buffers[access.id];
        let n = slot.data.len();
        let mut out: Vec<u8> = Vec::new();
        let mut j: usize = 0;
        while j < len
            invariant
                j <= len,
                offset + len <= slot.data@.len(),
                slot.data@.len() == n,
                out@.len() == j,
                forall|k: int| 0 <= k < j ==> out@[k] == slot.data@[offset + k],
            decreases len - j,
        {
            out.push(slot.data[offset + j]);
            j = j + 1;
        }
        proof {
            assert(out@ =~= self@.buffers[access.id as int].data@.subrange(
                offset as int,
                offset + len,
            ));
        }
        out
    }

    /// The description an image slot was created with.
    pub fn image_desc(&self, handle: &Handle<Image>) -> (d: ImageDesc)
        requires
            handle.id < self@.images.len(),
        ensures
            d == self@.images[handle.id as int].desc,
    {
        self.images[handle.id].desc
    }

    /// How many passes have been opened this frame.
    pub fn num_passes(&self) -> (n: usize)
        ensures
            n == self@.passes.len(),
    {
        self.passes.len()
    }

    /// One recorded pass, for inspection.
    pub fn recorded_pass(&self, i: usize) -> (p: &RecordedPass)
        requires
            i < self@.passes.len(),
        ensures
            *p == self@.passes[i as int],
    {
        &self.passes[i]
    }

    /// How many pipelines have been registered this frame.
    pub fn num_pipelines(&self) -> (n: usize)
        ensures
            n == self@.pipelines.len(),
    {
        self.pipelines.len()
    }

    /// One registered pipeline, for inspection.
    pub fn pipeline_def(&self, i: usize) -> (p: &PipelineDef)
        requires
            i < self@.pipelines.len(),
        ensures
            *p == self@.pipelines[i as int],
    {
        &self.pipelines[i]
    }

    /// Hands the frame's recorded passes to the engine backend for
    /// dependency resolution and execution, consuming the graph. Every
    /// frame-local handle is invalidated with it.
    pub fn submit(self) -> (r: RetiredRenderGraph)
        ensures
            r.passes@ == self@.passes,
    {
        RetiredRenderGraph { passes: self.passes }
    }
}

/// The remains of a frame whose GPU work has been handed off: the
/// submission queue, kept for inspection, and the authority to reclaim
/// temporal bookkeeping.
pub struct RetiredRenderGraph {
    pub passes: Vec<RecordedPass>,
}

impl RetiredRenderGraph {
    /// Reclaims the per-frame bookkeeping of a temporal resource once its
    /// frame has been submitted. Never releases the resource's memory.
    pub fn retire_temporal(&self, t: &mut Temporal<Buffer>)
        requires
            old(t).phase() == TemporalPhase::Returned,
            old(t).generation() < u64::MAX,
        ensures
            final(t).phase() == TemporalPhase::Resident,
            final(t).resource() == old(t).resource(),
            final(t).generation() == old(t).generation() + 1,
    {
        t.reclaim();
    }
}

/// Accumulates one pass's declarations against the graph and finishes by
/// recording the pass's command.
pub struct PassBuilder {
    pub pass_index: usize,
}

impl PassBuilder {
    /// The builder refers to a live pass record whose command has not been
    /// recorded yet.
    pub open spec fn wf(self, g: GraphModel) -> bool {
        &&& self.pass_index < g.passes.len()
        &&& g.passes[self.pass_index as int].body is None
    }

    /// Creates a fresh frame-local image for this pass to produce.
    pub fn create(&self, rg: &mut RenderGraph, desc: &ImageDesc) -> (h: Handle<Image>)
        ensures
            h.id == old(rg)@.images.len(),
            images_extended(old(rg)@, final(rg)@, *desc),
            final(rg)@.buffers == old(rg)@.buffers,
            final(rg)@.accels == old(rg)@.accels,
            same_pipelines(old(rg)@, final(rg)@),
            same_passes(old(rg)@, final(rg)@),
    {
        let id = rg.images.len();
        rg.images.push(ImageSlot { desc: *desc });
        Handle { id, marker: core::marker::PhantomData }
    }

    /// Declares a read of `handle` with the given access mode, yielding the
    /// token the pass body will read through.
    pub fn read<Res: Resource>(
        &self,
        rg: &mut RenderGraph,
        handle: &Handle<Res>,
        access: AccessType,
    ) -> (r: AccessRef)
        requires
            self.wf(old(rg)@),
            handle_valid::<Res>(old(rg)@, *handle),
            !access.is_write(),
        ensures
            r == (AccessRef { kind: Res::kind(), id: handle.id, access }),
            pass_declared(old(rg)@, final(rg)@, self.pass_index as int, r),
            same_resources(old(rg)@, final(rg)@),
            same_pipelines(old(rg)@, final(rg)@),
            self.wf(final(rg)@),
    {
        let r = AccessRef { kind: Res::runtime_kind(), id: handle.id, access };
        rg.passes[self.pass_index].declarations.push(r);
        r
    }

    /// Declares a write of `handle` with the given access mode, yielding
    /// the token the pass body will write through.
    pub fn write<Res: Resource>(
        &self,
        rg: &mut RenderGraph,
        handle: &mut Handle<Res>,
        access: AccessType,
    ) -> (r: AccessRef)
        requires
            self.wf(old(rg)@),
            handle_valid::<Res>(old(rg)@, *old(handle)),
            access.is_write(),
        ensures
            *final(handle) == *old(handle),
            r == (AccessRef { kind: Res::kind(), id: old(handle).id, access }),
            pass_declared(old(rg)@, final(rg)@, self.pass_index as int, r),
            same_resources(old(rg)@, final(rg)@),
            same_pipelines(old(rg)@, final(rg)@),
            self.wf(final(rg)@),
    {
        let r = AccessRef { kind: Res::runtime_kind(), id: handle.id, access };
        rg.passes[self.pass_index].declarations.push(r);
        r
    }

    /// Declares a raster-attachment write of an image.
    pub fn raster(
        &self,
        rg: &mut RenderGraph,
        handle: &mut Handle<Image>,
        access: AccessType,
    ) -> (r: AccessRef)
        requires
            self.wf(old(rg)@),
            handle_valid::<Image>(old(rg)@, *old(handle)),
            access.is_write(),
        ensures
            *final(handle) == *old(handle),
            r == (AccessRef { kind: ResKind::Image, id: old(handle).id, access }),
            pass_declared(old(rg)@, final(rg)@, self.pass_index as int, r),
            same_resources(old(rg)@, final(rg)@),
            same_pipelines(old(rg)@, final(rg)@),
            self.wf(final(rg)@),
    {
        let r = AccessRef { kind: ResKind::Image, id: handle.id, access };
        rg.passes[self.pass_index].declarations.push(r);
        r
    }

    /// Registers a compute pipeline for the given shader path. Equal paths
    /// may be deduplicated by the engine's cache; this layer records each
    /// registration.
    pub fn register_compute_pipeline(&self, rg: &mut RenderGraph, path: &str) -> (h:
        ComputePipelineHandle)
        ensures
            h.idx == old(rg)@.pipelines.len(),
            pipeline_added_compute(old(rg)@, final(rg)@, path@),
            same_resources(old(rg)@, final(rg)@),
            same_passes(old(rg)@, final(rg)@),
    {
        let idx = rg.pipelines.len();
        rg.pipelines.push(PipelineDef::Compute { path: path.to_owned() });
        ComputePipelineHandle { idx }
    }

    /// Registers a raster pipeline from a vertex and a pixel stage. An
    /// unsupported stage combination is a setup-time hard error, excluded
    /// here by precondition.
    pub fn register_raster_pipeline(
        &self,
        rg: &mut RenderGraph,
        shaders: Vec<PipelineShader>,
        desc: RasterPipelineDesc,
    ) -> (h: RasterPipelineHandle)
        requires
            valid_raster_stages(shaders@),
        ensures
            h.idx == old(rg)@.pipelines.len(),
            pipeline_added_raster(old(rg)@, final(rg)@, shaders, desc),
            same_resources(old(rg)@, final(rg)@),
            same_passes(old(rg)@, final(rg)@),
    {
        let idx = rg.pipelines.len();
        rg.pipelines.push(PipelineDef::Raster { shaders, desc });
        RasterPipelineHandle { idx }
    }

    /// Registers a ray-tracing pipeline from a ray-generation stage, miss
    /// stages and optional closest-hit stages. An unsupported combination
    /// is a setup-time hard error, excluded here by precondition.
    pub fn register_ray_tracing_pipeline(
        &self,
        rg: &mut RenderGraph,
        shaders: Vec<PipelineShader>,
        desc: RayTracingPipelineDesc,
    ) -> (h: RayTracingPipelineHandle)
        requires
            valid_ray_tracing_stages(shaders@),
        ensures
            h.idx == old(rg)@.pipelines.len(),
            pipeline_added_ray_tracing(old(rg)@, final(rg)@, shaders, desc),
            same_resources(old(rg)@, final(rg)@),
            same_passes(old(rg)@, final(rg)@),
    {
        let idx = rg.pipelines.len();
        rg.pipelines.push(PipelineDef::RayTracing { shaders, desc });
        RayTracingPipelineHandle { idx }
    }

    /// Records the pass's command, never to run before all bindings were
    /// finalized: the command captures the pipeline and the ordered binding
    /// lists by value, and the engine invokes it once, at submission.
    pub fn render(self, rg: &mut RenderGraph, body: PassBody)
        requires
            self.wf(old(rg)@),
        ensures
            pass_rendered(old(rg)@, final(rg)@, self.pass_index as int, body),
            same_resources(old(rg)@, final(rg)@),
            same_pipelines(old(rg)@, final(rg)@),
    {
        rg.passes[self.pass_index].body = Some(body);
    }
}

} // verus!
