//! Stand-alone pass recipes: each function declares one unit of GPU work —
//! a pipeline, the precise access type of every resource it touches, and
//! one recorded command — against the frame graph. The contracts pin down
//! exactly which accesses are declared, in what order the bindings land in
//! descriptor set 0, and what command ends up on the submission queue.

use std::sync::Arc;

use vstd::prelude::*;

use crate::desc::{AccessType, AspectMask, Format, ImageDesc, RawDescriptorSet, RenderPass};
use crate::graph::{
    images_extended, pipeline_added_compute, AccessRef, DescriptorSetBinding, GraphModel, Handle,
    handle_valid, Buffer, Image, PassBody, PipelineDef, PipelineShader, PipelineShaderDesc,
    RasterPipelineDesc, RayTracingAcceleration, RayTracingPipelineDesc, RenderGraph,
    RenderPassBinding, ResKind, ShaderPipelineStage,
};

verus! {

/// One mesh already uploaded to the shared vertex/index buffer: where its
/// indices start and how many there are.
#[derive(Clone, Copy, Debug, PartialEq, Eq, Structural)]
pub struct UploadedTriMesh {
    pub index_buffer_offset: u64,
    pub index_count: u32,
}

/// Everything a raster pass needs to draw the scene's meshes: the uploaded
/// meshes, the shared vertex/index buffer they live in, and the externally
/// managed bindless set.
pub struct RasterMeshesData {
    pub meshes: Vec<UploadedTriMesh>,
    pub vertex_buffer: Arc<Buffer>,
    pub bindless_descriptor_set: RawDescriptorSet,
}

/// The pass queue gained exactly one pass, whose declarations are `decls`,
/// in order; prior passes are untouched.
pub open spec fn pass_appended(pre: GraphModel, post: GraphModel, decls: Seq<AccessRef>) -> bool {
    &&& post.passes.len() == pre.passes.len() + 1
    &&& (forall|j: int| 0 <= j < pre.passes.len() ==> post.passes[j] == pre.passes[j])
    &&& post.passes.last().declarations@ == decls
}

/// The recorded command is a compute dispatch over `extent` with pipeline
/// `pipeline_idx`, binding exactly `slots` as descriptor set 0 and, when
/// given, a raw bindless set as set 1.
pub open spec fn compute_body_recorded(
    body: Option<PassBody>,
    pipeline_idx: int,
    slots: Seq<RenderPassBinding>,
    raw1: Option<RawDescriptorSet>,
    extent: Seq<u32>,
) -> bool {
    body matches Some(PassBody::Compute { pipeline, sets, extent: e }) && pipeline.idx
        == pipeline_idx && e@ == extent && (match raw1 {
        None => sets@.len() == 1,
        Some(raw) => sets@.len() == 2 && sets@[1] == (DescriptorSetBinding::Raw {
            set_index: 1,
            set: raw,
        }),
    }) && (sets@[0] matches DescriptorSetBinding::Slots { set_index, bindings } && set_index == 0
        && bindings@ == slots)
}

/// The recorded command traces rays over `extent` with pipeline
/// `pipeline_idx`, binding `slots0` as set 0, optionally a raw bindless set
/// as set 1, and `slots3` (the acceleration structure) as set 3.
pub open spec fn ray_tracing_body_recorded(
    body: Option<PassBody>,
    pipeline_idx: int,
    slots0: Seq<RenderPassBinding>,
    raw1: Option<RawDescriptorSet>,
    slots3: Seq<RenderPassBinding>,
    extent: Seq<u32>,
) -> bool {
    body matches Some(PassBody::RayTrace { pipeline, sets, extent: e }) && pipeline.idx
        == pipeline_idx && e@ == extent && (sets@[0] matches DescriptorSetBinding::Slots {
        set_index,
        bindings,
    } && set_index == 0 && bindings@ == slots0) && (match raw1 {
        None => sets@.len() == 2 && (sets@[1] matches DescriptorSetBinding::Slots {
            set_index: si3,
            bindings: b3,
        } && si3 == 3 && b3@ == slots3),
        Some(raw) => sets@.len() == 3 && sets@[1] == (DescriptorSetBinding::Raw {
            set_index: 1,
            set: raw,
        }) && (sets@[2] matches DescriptorSetBinding::Slots { set_index: si3, bindings: b3 } && si3
            == 3 && b3@ == slots3),
    })
}

/// A compute pipeline read access token.
pub open spec fn compute_read_ref(kind: ResKind, id: usize) -> AccessRef {
    AccessRef {
        kind,
        id,
        access: AccessType::ComputeShaderReadSampledImageOrUniformTexelBuffer,
    }
}

/// Allocates a fresh frame-local image. The pass opened for the allocation
/// records no command.
pub fn create_image(rg: &mut RenderGraph, desc: ImageDesc) -> (h: Handle<Image>)
    ensures
        h.id == old(rg)@.images.len(),
        images_extended(old(rg)@, final(rg)@, desc),
        pass_appended(old(rg)@, final(rg)@, Seq::<AccessRef>::empty()),
        final(rg)@.passes.last().body is None,
        final(rg)@.buffers == old(rg)@.buffers,
        final(rg)@.accels == old(rg)@.accels,
        final(rg)@.pipelines == old(rg)@.pipelines,
{
    let pass = rg.add_pass();
    pass.create(rg, &desc)
}

/// Declares a transfer-write pass that clears a depth-stencil image to
/// depth zero, stencil zero, over both aspects.
pub fn clear_depth(rg: &mut RenderGraph, img: &mut Handle<Image>)
    requires
        handle_valid::<Image>(old(rg)@, *old(img)),
    ensures
        *final(img) == *old(img),
        pass_appended(
            old(rg)@,
            final(rg)@,
            seq![
                (AccessRef {
                    kind: ResKind::Image,
                    id: old(img).id,
                    access: AccessType::TransferWrite,
                }),
            ],
        ),
        final(rg)@.passes.last().body == Some(
            PassBody::ClearDepthStencil {
                target: (AccessRef {
                    kind: ResKind::Image,
                    id: old(img).id,
                    access: AccessType::TransferWrite,
                }),
            },
        ),
        crate::graph::same_resources(old(rg)@, final(rg)@),
        final(rg)@.pipelines == old(rg)@.pipelines,
{
    let pass = rg.add_pass();
    let output_ref = pass.write(rg, img, AccessType::TransferWrite);
    pass.render(rg, PassBody::ClearDepthStencil { target: output_ref });
    proof {
        assert(rg@.passes.last().declarations@ =~= seq![output_ref]);
    }
}

/// Declares a transfer-write pass that clears a color image to the given
/// texel value, written here as the four raw 32-bit words of the clear
/// value.
pub fn clear_color(rg: &mut RenderGraph, img: &mut Handle<Image>, clear_color: [u32; 4])
    requires
        handle_valid::<Image>(old(rg)@, *old(img)),
    ensures
        *final(img) == *old(img),
        pass_appended(
            old(rg)@,
            final(rg)@,
            seq![
                (AccessRef {
                    kind: ResKind::Image,
                    id: old(img).id,
                    access: AccessType::TransferWrite,
                }),
            ],
        ),
        final(rg)@.passes.last().body matches Some(PassBody::ClearColor { target, value })
            && target == (AccessRef {
            kind: ResKind::Image,
            id: old(img).id,
            access: AccessType::TransferWrite,
        }) && value@ == clear_color@,
        crate::graph::same_resources(old(rg)@, final(rg)@),
        final(rg)@.pipelines == old(rg)@.pipelines,
{
    let pass = rg.add_pass();
    let output_ref = pass.write(rg, img, AccessType::TransferWrite);
    pass.render(rg, PassBody::ClearColor { target: output_ref, value: clear_color });
    proof {
        assert(rg@.passes.last().declarations@ =~= seq![output_ref]);
    }
}

/// The raster pipeline every mesh pass is compiled from: the plain vertex
/// and pixel stages, with back-face culling, against `rp`.
pub open spec fn raster_simple_pipeline(def: PipelineDef, rp: RenderPass) -> bool {
    def matches PipelineDef::Raster { shaders, desc } && shaders@.len() == 2 && shaders@[0].code@
        == "/assets/shaders/raster_simple_vs.hlsl"@ && shaders@[0].desc.stage
        == ShaderPipelineStage::Vertex && shaders@[1].code@
        == "/assets/shaders/raster_simple_ps.hlsl"@ && shaders@[1].desc.stage
        == ShaderPipelineStage::Pixel && desc.render_pass == rp && desc.face_cull
}

/// Declares the scene raster pass: depth and color attachment writes, a
/// viewport sized from the color target, the bindless set passed through
/// raw, and one indexed draw per uploaded mesh, in order, out of the shared
/// vertex/index buffer.
pub fn raster_meshes(
    rg: &mut RenderGraph,
    render_pass: RenderPass,
    depth_img: &mut Handle<Image>,
    color_img: &mut Handle<Image>,
    mesh_data: RasterMeshesData,
)
    requires
        handle_valid::<Image>(old(rg)@, *old(depth_img)),
        handle_valid::<Image>(old(rg)@, *old(color_img)),
    ensures
        *final(depth_img) == *old(depth_img),
        *final(color_img) == *old(color_img),
        final(rg)@.pipelines.len() == old(rg)@.pipelines.len() + 1,
        forall|j: int|
            0 <= j < old(rg)@.pipelines.len() ==> final(rg)@.pipelines[j] == old(rg)@.pipelines[j],
        raster_simple_pipeline(final(rg)@.pipelines.last(), render_pass),
        pass_appended(
            old(rg)@,
            final(rg)@,
            seq![
                (AccessRef {
                    kind: ResKind::Image,
                    id: old(depth_img).id,
                    access: AccessType::DepthStencilAttachmentWrite,
                }),
                (AccessRef {
                    kind: ResKind::Image,
                    id: old(color_img).id,
                    access: AccessType::ColorAttachmentWrite,
                }),
            ],
        ),
        final(rg)@.passes.last().body matches Some(PassBody::Raster {
            pipeline,
            render_pass: rp,
            viewport,
            color,
            depth,
            sets,
            draws,
            index_buffer,
        }) && pipeline.idx == old(rg)@.pipelines.len() && rp == render_pass && viewport@ == seq![
            old(rg)@.images[old(color_img).id as int].desc.extent@[0],
            old(rg)@.images[old(color_img).id as int].desc.extent@[1],
        ] && color == (RenderPassBinding {
            target: (AccessRef {
                kind: ResKind::Image,
                id: old(color_img).id,
                access: AccessType::ColorAttachmentWrite,
            }),
            aspect: None,
        }) && depth == (RenderPassBinding {
            target: (AccessRef {
                kind: ResKind::Image,
                id: old(depth_img).id,
                access: AccessType::DepthStencilAttachmentWrite,
            }),
            aspect: Some(AspectMask::DepthStencil),
        }) && sets@.len() == 2 && (sets@[0] matches DescriptorSetBinding::Slots {
            set_index,
            bindings,
        } && set_index == 0 && bindings@.len() == 0) && sets@[1] == (DescriptorSetBinding::Raw {
            set_index: 1,
            set: mesh_data.bindless_descriptor_set,
        }) && index_buffer == mesh_data.vertex_buffer && draws@ == mesh_data.meshes@,
        crate::graph::same_resources(old(rg)@, final(rg)@),
{
    let pass = rg.add_pass();

    let mut shaders: Vec<PipelineShader> = Vec::new();
    shaders.push(
        PipelineShader {
            code: "/assets/shaders/raster_simple_vs.hlsl".to_owned(),
            desc: PipelineShaderDesc::builder(ShaderPipelineStage::Vertex).build(),
        },
    );
    shaders.push(
        PipelineShader {
            code: "/assets/shaders/raster_simple_ps.hlsl".to_owned(),
            desc: PipelineShaderDesc::builder(ShaderPipelineStage::Pixel).build(),
        },
    );
    let pipeline = pass.register_raster_pipeline(
        rg,
        shaders,
        RasterPipelineDesc::builder().render_pass(render_pass).face_cull(true),
    );

    let depth_ref = pass.raster(rg, depth_img, AccessType::DepthStencilAttachmentWrite);
    let color_ref = pass.raster(rg, color_img, AccessType::ColorAttachmentWrite);

    let color_desc = rg.image_desc(color_img);
    let viewport: [u32; 2] = [color_desc.extent[0], color_desc.extent[1]];

    let mut sets: Vec<DescriptorSetBinding> = Vec::new();
    sets.push(DescriptorSetBinding::Slots { set_index: 0, bindings: Vec::new() });
    sets.push(
        DescriptorSetBinding::Raw { set_index: 1, set: mesh_data.bindless_descriptor_set },
    );

    pass.render(
        rg,
        PassBody::Raster {
            pipeline,
            render_pass,
            viewport,
            color: color_ref.bind(),
            depth: depth_ref.bind_view(AspectMask::DepthStencil),
            sets,
            index_buffer: mesh_data.vertex_buffer,
            draws: mesh_data.meshes,
        },
    );
    proof {
        assert(rg@.passes.last().declarations@ =~= seq![depth_ref, color_ref]);
    }
}

/// Declares the deferred-lighting pass: reads the geometry buffer, the
/// depth aspect, and the sun shadow mask; the output is read-modify-written
/// in place, so it is registered as a general access rather than a plain
/// storage write.
pub fn light_gbuffer(
    rg: &mut RenderGraph,
    gbuffer: &Handle<Image>,
    depth: &Handle<Image>,
    sun_shadow_mask: &Handle<Image>,
    output: &mut Handle<Image>,
    bindless_descriptor_set: RawDescriptorSet,
)
    requires
        handle_valid::<Image>(old(rg)@, *gbuffer),
        handle_valid::<Image>(old(rg)@, *depth),
        handle_valid::<Image>(old(rg)@, *sun_shadow_mask),
        handle_valid::<Image>(old(rg)@, *old(output)),
    ensures
        *final(output) == *old(output),
        pipeline_added_compute(old(rg)@, final(rg)@, "/assets/shaders/light_gbuffer.hlsl"@),
        pass_appended(
            old(rg)@,
            final(rg)@,
            seq![
                compute_read_ref(ResKind::Image, gbuffer.id),
                compute_read_ref(ResKind::Image, depth.id),
                compute_read_ref(ResKind::Image, sun_shadow_mask.id),
                (AccessRef {
                    kind: ResKind::Image,
                    id: old(output).id,
                    access: AccessType::General,
                }),
            ],
        ),
        compute_body_recorded(
            final(rg)@.passes.last().body,
            old(rg)@.pipelines.len() as int,
            seq![
                (RenderPassBinding {
                    target: compute_read_ref(ResKind::Image, gbuffer.id),
                    aspect: None,
                }),
                (RenderPassBinding {
                    target: compute_read_ref(ResKind::Image, depth.id),
                    aspect: Some(AspectMask::Depth),
                }),
                (RenderPassBinding {
                    target: compute_read_ref(ResKind::Image, sun_shadow_mask.id),
                    aspect: None,
                }),
                (RenderPassBinding {
                    target: (AccessRef {
                        kind: ResKind::Image,
                        id: old(output).id,
                        access: AccessType::General,
                    }),
                    aspect: None,
                }),
            ],
            Some(bindless_descriptor_set),
            old(rg)@.images[gbuffer.id as int].desc.extent@,
        ),
        crate::graph::same_resources(old(rg)@, final(rg)@),
{
    let pass = rg.add_pass();

    let pipeline = pass.register_compute_pipeline(rg, "/assets/shaders/light_gbuffer.hlsl");

    let gbuffer_ref = pass.read(
        rg,
        gbuffer,
        AccessType::ComputeShaderReadSampledImageOrUniformTexelBuffer,
    );
    let depth_ref = pass.read(
        rg,
        depth,
        AccessType::ComputeShaderReadSampledImageOrUniformTexelBuffer,
    );
    let sun_shadow_mask_ref = pass.read(
        rg,
        sun_shadow_mask,
        AccessType::ComputeShaderReadSampledImageOrUniformTexelBuffer,
    );
    let output_ref = pass.write(rg, output, AccessType::General);

    let gbuffer_desc = rg.image_desc(gbuffer);

    let mut bindings: Vec<RenderPassBinding> = Vec::new();
    bindings.push(gbuffer_ref.bind());
    bindings.push(depth_ref.bind_view(AspectMask::Depth));
    bindings.push(sun_shadow_mask_ref.bind());
    bindings.push(output_ref.bind());

    let ghost slots = bindings@;

    let mut sets: Vec<DescriptorSetBinding> = Vec::new();
    sets.push(DescriptorSetBinding::Slots { set_index: 0, bindings });
    sets.push(DescriptorSetBinding::Raw { set_index: 1, set: bindless_descriptor_set });

    pass.render(
        rg,
        PassBody::Compute { pipeline, sets, extent: gbuffer_desc.extent },
    );
    proof {
        assert(rg@.passes.last().declarations@ =~= seq![
            gbuffer_ref,
            depth_ref,
            sun_shadow_mask_ref,
            output_ref,
        ]);
        assert(slots =~= seq![
            gbuffer_ref.bound(),
            depth_ref.bound_view(AspectMask::Depth),
            sun_shadow_mask_ref.bound(),
            output_ref.bound(),
        ]);
    }
}

/// Declares a blur pass: reads the input, allocates an output with the
/// input's own description, writes it, and dispatches over the input's
/// extent. Identical input content and parameters yield identical output
/// content: the recorded command is a function of the declared bindings
/// alone.
pub fn blur(rg: &mut RenderGraph, input: &Handle<Image>) -> (h: Handle<Image>)
    requires
        handle_valid::<Image>(old(rg)@, *input),
    ensures
        h.id == old(rg)@.images.len(),
        images_extended(old(rg)@, final(rg)@, old(rg)@.images[input.id as int].desc),
        pipeline_added_compute(old(rg)@, final(rg)@, "/assets/shaders/blur.hlsl"@),
        pass_appended(
            old(rg)@,
            final(rg)@,
            seq![
                compute_read_ref(ResKind::Image, input.id),
                (AccessRef {
                    kind: ResKind::Image,
                    id: h.id,
                    access: AccessType::ComputeShaderWrite,
                }),
            ],
        ),
        compute_body_recorded(
            final(rg)@.passes.last().body,
            old(rg)@.pipelines.len() as int,
            seq![
                (RenderPassBinding {
                    target: compute_read_ref(ResKind::Image, input.id),
                    aspect: None,
                }),
                (RenderPassBinding {
                    target: (AccessRef {
                        kind: ResKind::Image,
                        id: h.id,
                        access: AccessType::ComputeShaderWrite,
                    }),
                    aspect: None,
                }),
            ],
            None,
            old(rg)@.images[input.id as int].desc.extent@,
        ),
        final(rg)@.buffers == old(rg)@.buffers,
        final(rg)@.accels == old(rg)@.accels,
{
    let pass = rg.add_pass();

    let pipeline = pass.register_compute_pipeline(rg, "/assets/shaders/blur.hlsl");

    let input_ref = pass.read(
        rg,
        input,
        AccessType::ComputeShaderReadSampledImageOrUniformTexelBuffer,
    );
    let input_desc = rg.image_desc(input);
    let mut output = pass.create(rg, &input_desc);
    let output_ref = pass.write(rg, &mut output, AccessType::ComputeShaderWrite);

    let mut bindings: Vec<RenderPassBinding> = Vec::new();
    bindings.push(input_ref.bind());
    bindings.push(output_ref.bind());

    let ghost slots = bindings@;

    let mut sets: Vec<DescriptorSetBinding> = Vec::new();
    sets.push(DescriptorSetBinding::Slots { set_index: 0, bindings });

    pass.render(rg, PassBody::Compute { pipeline, sets, extent: input_desc.extent });
    proof {
        assert(rg@.passes.last().declarations@ =~= seq![input_ref, output_ref]);
        assert(slots =~= seq![input_ref.bound(), output_ref.bound()]);
    }
    output
}

/// Declares a normalization pass over an accumulation target: reads the
/// input and writes a fresh output of the same extent in the requested
/// format.
pub fn normalize_accum(rg: &mut RenderGraph, input: &Handle<Image>, fmt: Format) -> (h: Handle<
    Image,
>)
    requires
        handle_valid::<Image>(old(rg)@, *input),
    ensures
        h.id == old(rg)@.images.len(),
        images_extended(
            old(rg)@,
            final(rg)@,
            crate::desc::with_format(old(rg)@.images[input.id as int].desc, fmt),
        ),
        pipeline_added_compute(old(rg)@, final(rg)@, "/assets/shaders/normalize_accum.hlsl"@),
        pass_appended(
            old(rg)@,
            final(rg)@,
            seq![
                compute_read_ref(ResKind::Image, input.id),
                (AccessRef {
                    kind: ResKind::Image,
                    id: h.id,
                    access: AccessType::ComputeShaderWrite,
                }),
            ],
        ),
        compute_body_recorded(
            final(rg)@.passes.last().body,
            old(rg)@.pipelines.len() as int,
            seq![
                (RenderPassBinding {
                    target: compute_read_ref(ResKind::Image, input.id),
                    aspect: None,
                }),
                (RenderPassBinding {
                    target: (AccessRef {
                        kind: ResKind::Image,
                        id: h.id,
                        access: AccessType::ComputeShaderWrite,
                    }),
                    aspect: None,
                }),
            ],
            None,
            old(rg)@.images[input.id as int].desc.extent@,
        ),
        final(rg)@.buffers == old(rg)@.buffers,
        final(rg)@.accels == old(rg)@.accels,
{
    let pass = rg.add_pass();

    let pipeline = pass.register_compute_pipeline(rg, "/assets/shaders/normalize_accum.hlsl");

    let input_ref = pass.read(
        rg,
        input,
        AccessType::ComputeShaderReadSampledImageOrUniformTexelBuffer,
    );
    let input_desc = rg.image_desc(input);
    let mut output = pass.create(rg, &input_desc.format(fmt));
    let output_ref = pass.write(rg, &mut output, AccessType::ComputeShaderWrite);

    let mut bindings: Vec<RenderPassBinding> = Vec::new();
    bindings.push(input_ref.bind());
    bindings.push(output_ref.bind());

    let ghost slots = bindings@;

    let mut sets: Vec<DescriptorSetBinding> = Vec::new();
    sets.push(DescriptorSetBinding::Slots { set_index: 0, bindings });

    pass.render(rg, PassBody::Compute { pipeline, sets, extent: input_desc.extent });
    proof {
        assert(rg@.passes.last().declarations@ =~= seq![input_ref, output_ref]);
        assert(slots =~= seq![input_ref.bound(), output_ref.bound()]);
    }
    output
}

/// The four-stage ray-tracing pipeline of the test and reference tracers:
/// a ray-generation stage at `raygen_path`, the triangle and shadow miss
/// stages, the triangle closest-hit stage, and recursion depth 2.
pub open spec fn standard_ray_tracing_pipeline(def: PipelineDef, raygen_path: Seq<char>) -> bool {
    def matches PipelineDef::RayTracing { shaders, desc } && shaders@.len() == 4
        && shaders@[0].code@ == raygen_path && shaders@[0].desc.stage
        == ShaderPipelineStage::RayGen && shaders@[1].code@
        == "/assets/shaders/rt/triangle.rmiss.hlsl"@ && shaders@[1].desc.stage
        == ShaderPipelineStage::RayMiss && shaders@[2].code@
        == "/assets/shaders/rt/shadow.rmiss.hlsl"@ && shaders@[2].desc.stage
        == ShaderPipelineStage::RayMiss && shaders@[3].code@
        == "/assets/shaders/rt/triangle.rchit.hlsl"@ && shaders@[3].desc.stage
        == ShaderPipelineStage::RayClosestHit && desc.max_pipeline_ray_recursion_depth == 2
}

fn standard_ray_tracing_shaders(raygen_path: &str) -> (shaders: Vec<PipelineShader>)
    ensures
        shaders@.len() == 4,
        shaders@[0].code@ == raygen_path@,
        shaders@[0].desc.stage == ShaderPipelineStage::RayGen,
        shaders@[1].code@ == "/assets/shaders/rt/triangle.rmiss.hlsl"@,
        shaders@[1].desc.stage == ShaderPipelineStage::RayMiss,
        shaders@[2].code@ == "/assets/shaders/rt/shadow.rmiss.hlsl"@,
        shaders@[2].desc.stage == ShaderPipelineStage::RayMiss,
        shaders@[3].code@ == "/assets/shaders/rt/triangle.rchit.hlsl"@,
        shaders@[3].desc.stage == ShaderPipelineStage::RayClosestHit,
        crate::graph::valid_ray_tracing_stages(shaders@),
{
    let mut shaders: Vec<PipelineShader> = Vec::new();
    shaders.push(
        PipelineShader {
            code: raygen_path.to_owned(),
            desc: PipelineShaderDesc::builder(ShaderPipelineStage::RayGen).build(),
        },
    );
    shaders.push(
        PipelineShader {
            code: "/assets/shaders/rt/triangle.rmiss.hlsl".to_owned(),
            desc: PipelineShaderDesc::builder(ShaderPipelineStage::RayMiss).build(),
        },
    );
    shaders.push(
        PipelineShader {
            code: "/assets/shaders/rt/shadow.rmiss.hlsl".to_owned(),
            desc: PipelineShaderDesc::builder(ShaderPipelineStage::RayMiss).build(),
        },
    );
    shaders.push(
        PipelineShader {
            code: "/assets/shaders/rt/triangle.rchit.hlsl".to_owned(),
            desc: PipelineShaderDesc::builder(ShaderPipelineStage::RayClosestHit).build(),
        },
    );
    shaders
}

/// Declares a ray-tracing pass writing `output_img`: the standard
/// four-stage pipeline, the acceleration structure bound as set 3, the
/// bindless set as raw set 1, tracing over the output's extent.
fn trace_into_output(
    rg: &mut RenderGraph,
    raygen_path: &str,
    output_img: &mut Handle<Image>,
    bindless_descriptor_set: RawDescriptorSet,
    tlas: Handle<RayTracingAcceleration>,
)
    requires
        handle_valid::<Image>(old(rg)@, *old(output_img)),
        handle_valid::<RayTracingAcceleration>(old(rg)@, tlas),
    ensures
        *final(output_img) == *old(output_img),
        final(rg)@.pipelines.len() == old(rg)@.pipelines.len() + 1,
        forall|j: int|
            0 <= j < old(rg)@.pipelines.len() ==> final(rg)@.pipelines[j] == old(rg)@.pipelines[j],
        standard_ray_tracing_pipeline(final(rg)@.pipelines.last(), raygen_path@),
        pass_appended(
            old(rg)@,
            final(rg)@,
            seq![
                (AccessRef {
                    kind: ResKind::Accel,
                    id: tlas.id,
                    access: AccessType::AnyShaderReadOther,
                }),
                (AccessRef {
                    kind: ResKind::Image,
                    id: old(output_img).id,
                    access: AccessType::AnyShaderWrite,
                }),
            ],
        ),
        ray_tracing_body_recorded(
            final(rg)@.passes.last().body,
            old(rg)@.pipelines.len() as int,
            seq![
                (RenderPassBinding {
                    target: (AccessRef {
                        kind: ResKind::Image,
                        id: old(output_img).id,
                        access: AccessType::AnyShaderWrite,
                    }),
                    aspect: None,
                }),
            ],
            Some(bindless_descriptor_set),
            seq![
                (RenderPassBinding {
                    target: (AccessRef {
                        kind: ResKind::Accel,
                        id: tlas.id,
                        access: AccessType::AnyShaderReadOther,
                    }),
                    aspect: None,
                }),
            ],
            old(rg)@.images[old(output_img).id as int].desc.extent@,
        ),
        crate::graph::same_resources(old(rg)@, final(rg)@),
{
    let pass = rg.add_pass();

    let shaders = standard_ray_tracing_shaders(raygen_path);
    let pipeline = pass.register_ray_tracing_pipeline(
        rg,
        shaders,
        RayTracingPipelineDesc::default().max_pipeline_ray_recursion_depth(2),
    );

    let tlas_ref = pass.read(rg, &tlas, AccessType::AnyShaderReadOther);
    let output_ref = pass.write(rg, output_img, AccessType::AnyShaderWrite);

    let output_desc = rg.image_desc(output_img);

    let mut bindings0: Vec<RenderPassBinding> = Vec::new();
    bindings0.push(output_ref.bind());
    let mut bindings3: Vec<RenderPassBinding> = Vec::new();
    bindings3.push(tlas_ref.bind());

    let ghost slots0 = bindings0@;
    let ghost slots3 = bindings3@;

    let mut sets: Vec<DescriptorSetBinding> = Vec::new();
    sets.push(DescriptorSetBinding::Slots { set_index: 0, bindings: bindings0 });
    sets.push(DescriptorSetBinding::Raw { set_index: 1, set: bindless_descriptor_set });
    sets.push(DescriptorSetBinding::Slots { set_index: 3, bindings: bindings3 });

    pass.render(rg, PassBody::RayTrace { pipeline, sets, extent: output_desc.extent });
    proof {
        assert(rg@.passes.last().declarations@ =~= seq![tlas_ref, output_ref]);
        assert(slots0 =~= seq![output_ref.bound()]);
        assert(slots3 =~= seq![tlas_ref.bound()]);
    }
}

/// Declares the triangle ray-tracing smoke-test pass.
pub fn ray_trace_test(
    rg: &mut RenderGraph,
    output_img: &mut Handle<Image>,
    bindless_descriptor_set: RawDescriptorSet,
    tlas: Handle<RayTracingAcceleration>,
)
    requires
        handle_valid::<Image>(old(rg)@, *old(output_img)),
        handle_valid::<RayTracingAcceleration>(old(rg)@, tlas),
    ensures
        *final(output_img) == *old(output_img),
        final(rg)@.pipelines.len() == old(rg)@.pipelines.len() + 1,
        forall|j: int|
            0 <= j < old(rg)@.pipelines.len() ==> final(rg)@.pipelines[j] == old(rg)@.pipelines[j],
        standard_ray_tracing_pipeline(
            final(rg)@.pipelines.last(),
            "/assets/shaders/rt/triangle.rgen.hlsl"@,
        ),
        pass_appended(
            old(rg)@,
            final(rg)@,
            seq![
                (AccessRef {
                    kind: ResKind::Accel,
                    id: tlas.id,
                    access: AccessType::AnyShaderReadOther,
                }),
                (AccessRef {
                    kind: ResKind::Image,
                    id: old(output_img).id,
                    access: AccessType::AnyShaderWrite,
                }),
            ],
        ),
        ray_tracing_body_recorded(
            final(rg)@.passes.last().body,
            old(rg)@.pipelines.len() as int,
            seq![
                (RenderPassBinding {
                    target: (AccessRef {
                        kind: ResKind::Image,
                        id: old(output_img).id,
                        access: AccessType::AnyShaderWrite,
                    }),
                    aspect: None,
                }),
            ],
            Some(bindless_descriptor_set),
            seq![
                (RenderPassBinding {
                    target: (AccessRef {
                        kind: ResKind::Accel,
                        id: tlas.id,
                        access: AccessType::AnyShaderReadOther,
                    }),
                    aspect: None,
                }),
            ],
            old(rg)@.images[old(output_img).id as int].desc.extent@,
        ),
        crate::graph::same_resources(old(rg)@, final(rg)@),
{
    trace_into_output(
        rg,
        "/assets/shaders/rt/triangle.rgen.hlsl",
        output_img,
        bindless_descriptor_set,
        tlas,
    );
}

/// Declares the reference path-tracing pass: the same shape as the test
/// tracer with the reference ray-generation shader.
pub fn reference_path_trace(
    rg: &mut RenderGraph,
    output_img: &mut Handle<Image>,
    bindless_descriptor_set: RawDescriptorSet,
    tlas: Handle<RayTracingAcceleration>,
)
    requires
        handle_valid::<Image>(old(rg)@, *old(output_img)),
        handle_valid::<RayTracingAcceleration>(old(rg)@, tlas),
    ensures
        *final(output_img) == *old(output_img),
        final(rg)@.pipelines.len() == old(rg)@.pipelines.len() + 1,
        forall|j: int|
            0 <= j < old(rg)@.pipelines.len() ==> final(rg)@.pipelines[j] == old(rg)@.pipelines[j],
        standard_ray_tracing_pipeline(
            final(rg)@.pipelines.last(),
            "/assets/shaders/rt/reference_path_trace.rgen.hlsl"@,
        ),
        pass_appended(
            old(rg)@,
            final(rg)@,
            seq![
                (AccessRef {
                    kind: ResKind::Accel,
                    id: tlas.id,
                    access: AccessType::AnyShaderReadOther,
                }),
                (AccessRef {
                    kind: ResKind::Image,
                    id: old(output_img).id,
                    access: AccessType::AnyShaderWrite,
                }),
            ],
        ),
        ray_tracing_body_recorded(
            final(rg)@.passes.last().body,
            old(rg)@.pipelines.len() as int,
            seq![
                (RenderPassBinding {
                    target: (AccessRef {
                        kind: ResKind::Image,
                        id: old(output_img).id,
                        access: AccessType::AnyShaderWrite,
                    }),
                    aspect: None,
                }),
            ],
            Some(bindless_descriptor_set),
            seq![
                (RenderPassBinding {
                    target: (AccessRef {
                        kind: ResKind::Accel,
                        id: tlas.id,
                        access: AccessType::AnyShaderReadOther,
                    }),
                    aspect: None,
                }),
            ],
            old(rg)@.images[old(output_img).id as int].desc.extent@,
        ),
        crate::graph::same_resources(old(rg)@, final(rg)@),
{
    trace_into_output(
        rg,
        "/assets/shaders/rt/reference_path_trace.rgen.hlsl",
        output_img,
        bindless_descriptor_set,
        tlas,
    );
}

/// The two-stage sun-shadow pipeline: the shadow-mask ray-generation stage,
/// the shadow miss stage, and recursion depth 1.
pub open spec fn sun_shadow_pipeline(def: PipelineDef) -> bool {
    def matches PipelineDef::RayTracing { shaders, desc } && shaders@.len() == 2
        && shaders@[0].code@ == "/assets/shaders/rt/trace_sun_shadow_mask.rgen.hlsl"@
        && shaders@[0].desc.stage == ShaderPipelineStage::RayGen && shaders@[1].code@
        == "/assets/shaders/rt/shadow.rmiss.hlsl"@ && shaders@[1].desc.stage
        == ShaderPipelineStage::RayMiss && desc.max_pipeline_ray_recursion_depth == 1
}

/// Declares the sun shadow-mask pass: reads the depth aspect, traces
/// shadow rays into a fresh single-channel mask of the depth target's
/// extent, and returns the mask.
pub fn trace_sun_shadow_mask(
    rg: &mut RenderGraph,
    depth_img: &Handle<Image>,
    tlas: Handle<RayTracingAcceleration>,
) -> (h: Handle<Image>)
    requires
        handle_valid::<Image>(old(rg)@, *depth_img),
        handle_valid::<RayTracingAcceleration>(old(rg)@, tlas),
    ensures
        h.id == old(rg)@.images.len(),
        images_extended(
            old(rg)@,
            final(rg)@,
            crate::desc::with_format(
                old(rg)@.images[depth_img.id as int].desc,
                Format::R8Unorm,
            ),
        ),
        final(rg)@.pipelines.len() == old(rg)@.pipelines.len() + 1,
        forall|j: int|
            0 <= j < old(rg)@.pipelines.len() ==> final(rg)@.pipelines[j] == old(rg)@.pipelines[j],
        sun_shadow_pipeline(final(rg)@.pipelines.last()),
        pass_appended(
            old(rg)@,
            final(rg)@,
            seq![
                compute_read_ref(ResKind::Image, depth_img.id),
                (AccessRef {
                    kind: ResKind::Accel,
                    id: tlas.id,
                    access: AccessType::AnyShaderReadOther,
                }),
                (AccessRef { kind: ResKind::Image, id: h.id, access: AccessType::AnyShaderWrite }),
            ],
        ),
        ray_tracing_body_recorded(
            final(rg)@.passes.last().body,
            old(rg)@.pipelines.len() as int,
            seq![
                (RenderPassBinding {
                    target: compute_read_ref(ResKind::Image, depth_img.id),
                    aspect: Some(AspectMask::Depth),
                }),
                (RenderPassBinding {
                    target: (AccessRef {
                        kind: ResKind::Image,
                        id: h.id,
                        access: AccessType::AnyShaderWrite,
                    }),
                    aspect: None,
                }),
            ],
            None,
            seq![
                (RenderPassBinding {
                    target: (AccessRef {
                        kind: ResKind::Accel,
                        id: tlas.id,
                        access: AccessType::AnyShaderReadOther,
                    }),
                    aspect: None,
                }),
            ],
            old(rg)@.images[depth_img.id as int].desc.extent@,
        ),
        final(rg)@.buffers == old(rg)@.buffers,
        final(rg)@.accels == old(rg)@.accels,
{
    let pass = rg.add_pass();

    let mut shaders: Vec<PipelineShader> = Vec::new();
    shaders.push(
        PipelineShader {
            code: "/assets/shaders/rt/trace_sun_shadow_mask.rgen.hlsl".to_owned(),
            desc: PipelineShaderDesc::builder(ShaderPipelineStage::RayGen).build(),
        },
    );
    shaders.push(
        PipelineShader {
            code: "/assets/shaders/rt/shadow.rmiss.hlsl".to_owned(),
            desc: PipelineShaderDesc::builder(ShaderPipelineStage::RayMiss).build(),
        },
    );
    let pipeline = pass.register_ray_tracing_pipeline(
        rg,
        shaders,
        RayTracingPipelineDesc::default().max_pipeline_ray_recursion_depth(1),
    );

    let depth_ref = pass.read(
        rg,
        depth_img,
        AccessType::ComputeShaderReadSampledImageOrUniformTexelBuffer,
    );
    let tlas_ref = pass.read(rg, &tlas, AccessType::AnyShaderReadOther);

    let depth_desc = rg.image_desc(depth_img);
    let mut output_img = pass.create(rg, &depth_desc.format(Format::R8Unorm));
    let output_ref = pass.write(rg, &mut output_img, AccessType::AnyShaderWrite);

    let mut bindings0: Vec<RenderPassBinding> = Vec::new();
    bindings0.push(depth_ref.bind_view(AspectMask::Depth));
    bindings0.push(output_ref.bind());
    let mut bindings3: Vec<RenderPassBinding> = Vec::new();
    bindings3.push(tlas_ref.bind());

    let ghost slots0 = bindings0@;
    let ghost slots3 = bindings3@;

    let mut sets: Vec<DescriptorSetBinding> = Vec::new();
    sets.push(DescriptorSetBinding::Slots { set_index: 0, bindings: bindings0 });
    sets.push(DescriptorSetBinding::Slots { set_index: 3, bindings: bindings3 });

    pass.render(rg, PassBody::RayTrace { pipeline, sets, extent: depth_desc.extent });
    proof {
        assert(rg@.passes.last().declarations@ =~= seq![depth_ref, tlas_ref, output_ref]);
        assert(slots0 =~= seq![
            depth_ref.bound_view(AspectMask::Depth),
            output_ref.bound(),
        ]);
        assert(slots3 =~= seq![tlas_ref.bound()]);
    }
    output_img
}

} // verus!
