//! Pass recipe scenarios: binding order, derived-resource sizing, and the
//! exact shape of each recorded command.

use std::sync::Arc;

use frame_graph::builder::SimpleComputePass;
use frame_graph::desc::{
    AccessType, AspectMask, BufferDesc, BufferUsage, Format, ImageDesc, RawDescriptorSet,
    RenderPass,
};
use frame_graph::graph::{
    AccessRef, Buffer, DescriptorSetBinding, Device, PassBody, PipelineDef, RenderGraph,
    RenderPassBinding, ResKind, ShaderPipelineStage,
};
use frame_graph::render_passes::{
    blur, clear_color, clear_depth, create_image, light_gbuffer, normalize_accum,
    raster_meshes, ray_trace_test, reference_path_trace, trace_sun_shadow_mask,
    RasterMeshesData, UploadedTriMesh,
};
use frame_graph::surfel_gi::{new_temporal_storage_buffer, SurfelGiRenderer};
use frame_graph::temporal::TemporalRegistry;

fn slots_of_pass<'a>(rg: &'a RenderGraph, i: usize, set: usize) -> &'a Vec<RenderPassBinding> {
    match &rg.recorded_pass(i).body {
        Some(PassBody::Compute { sets, .. }) => match &sets[set] {
            DescriptorSetBinding::Slots { bindings, .. } => bindings,
            _ => panic!("expected a composed descriptor set"),
        },
        Some(PassBody::RayTrace { sets, .. }) => match &sets[set] {
            DescriptorSetBinding::Slots { bindings, .. } => bindings,
            _ => panic!("expected a composed descriptor set"),
        },
        _ => panic!("expected a compute or ray-tracing command"),
    }
}

#[test]
fn access_types_split_into_reads_and_writes() {
    assert!(AccessType::ComputeShaderWrite.is_write_access());
    assert!(AccessType::TransferWrite.is_write_access());
    assert!(AccessType::DepthStencilAttachmentWrite.is_write_access());
    // General is read-modify-write in place, so it counts as a write.
    assert!(AccessType::General.is_write_access());
    assert!(!AccessType::ComputeShaderReadSampledImageOrUniformTexelBuffer.is_write_access());
    assert!(!AccessType::IndexBuffer.is_write_access());
    assert!(!AccessType::IndirectBuffer.is_write_access());
    assert!(!AccessType::AnyShaderReadOther.is_write_access());
}

#[test]
fn create_image_records_description() {
    let mut rg = RenderGraph::new();
    let desc = ImageDesc::new([640, 360, 1], Format::R16G16B16A16Sfloat);
    let h = create_image(&mut rg, desc);
    assert_eq!(rg.image_desc(&h), desc);
    assert_eq!(rg.num_passes(), 1);
    assert!(rg.recorded_pass(0).body.is_none());
    assert!(rg.recorded_pass(0).declarations.is_empty());
}

#[test]
fn blur_output_matches_input_description() {
    let mut rg = RenderGraph::new();
    let desc = ImageDesc::new([8, 4, 1], Format::R16G16B16A16Sfloat);
    let input = create_image(&mut rg, desc);
    let output = blur(&mut rg, &input);
    assert_eq!(rg.image_desc(&output), desc);

    // One read then one write, slots in call order.
    let pass = rg.recorded_pass(1);
    assert_eq!(
        pass.declarations,
        vec![
            AccessRef {
                kind: ResKind::Image,
                id: input.id,
                access: AccessType::ComputeShaderReadSampledImageOrUniformTexelBuffer,
            },
            AccessRef {
                kind: ResKind::Image,
                id: output.id,
                access: AccessType::ComputeShaderWrite,
            },
        ]
    );
    let slots = slots_of_pass(&rg, 1, 0);
    assert_eq!(slots.len(), 2);
    assert_eq!(slots[0].target.id, input.id);
    assert_eq!(slots[1].target.id, output.id);
    match rg.pipeline_def(0) {
        PipelineDef::Compute { path } => assert_eq!(path, "/assets/shaders/blur.hlsl"),
        _ => panic!("expected a compute pipeline"),
    }
    match &rg.recorded_pass(1).body {
        Some(PassBody::Compute { extent, .. }) => assert_eq!(*extent, [8, 4, 1]),
        _ => panic!("expected a compute command"),
    }
}

#[test]
fn equal_shader_paths_are_registered_separately() {
    // Whether two registrations of one shader path share a compiled
    // pipeline is the engine cache's affair; this layer records each
    // registration it is asked for.
    let mut rg = RenderGraph::new();
    let input = create_image(&mut rg, ImageDesc::new([8, 8, 1], Format::R8Unorm));
    let mid = blur(&mut rg, &input);
    let _out = blur(&mut rg, &mid);
    assert_eq!(rg.num_pipelines(), 2);
    match (rg.pipeline_def(0), rg.pipeline_def(1)) {
        (PipelineDef::Compute { path: a }, PipelineDef::Compute { path: b }) => assert_eq!(a, b),
        _ => panic!("expected two compute pipelines"),
    }
}

#[test]
fn normalize_accum_derives_extent_and_format() {
    let mut rg = RenderGraph::new();
    let input = create_image(&mut rg, ImageDesc::new([320, 180, 1], Format::R32G32B32A32Sfloat));
    let output = normalize_accum(&mut rg, &input, Format::R16G16B16A16Sfloat);
    let out_desc = rg.image_desc(&output);
    // Same extent, the requested format, independent of the input's format.
    assert_eq!(out_desc.extent, [320, 180, 1]);
    assert_eq!(out_desc.format, Format::R16G16B16A16Sfloat);
}

#[test]
fn derived_sizing_is_independent_of_source_format() {
    let a = ImageDesc::new([31, 7, 1], Format::R32Sfloat);
    let b = ImageDesc::new([31, 7, 1], Format::D32Sfloat);
    assert_eq!(a.format(Format::R8Unorm), b.format(Format::R8Unorm));
    assert_eq!(a.format(Format::R8Unorm).extent, [31, 7, 1]);
    assert_eq!(a.format(Format::R8Unorm).format, Format::R8Unorm);
}

#[test]
fn clear_passes_record_their_targets() {
    let mut rg = RenderGraph::new();
    let mut depth = create_image(&mut rg, ImageDesc::new([64, 64, 1], Format::D24UnormS8Uint));
    let mut color = create_image(&mut rg, ImageDesc::new([64, 64, 1], Format::R8Unorm));
    clear_depth(&mut rg, &mut depth);
    clear_color(&mut rg, &mut color, [7, 0, 0, 1]);

    match &rg.recorded_pass(2).body {
        Some(PassBody::ClearDepthStencil { target }) => {
            assert_eq!(target.id, depth.id);
            assert_eq!(target.access, AccessType::TransferWrite);
        }
        _ => panic!("expected a depth-stencil clear"),
    }
    match &rg.recorded_pass(3).body {
        Some(PassBody::ClearColor { target, value }) => {
            assert_eq!(target.id, color.id);
            assert_eq!(*value, [7, 0, 0, 1]);
        }
        _ => panic!("expected a color clear"),
    }
}

#[test]
fn binding_order_is_deterministic_across_runs() {
    // Two identical call sequences over mixed resource kinds produce the
    // same slot assignment, in call order.
    let device = Device::new();
    let mut run = || {
        let mut registry = TemporalRegistry::new();
        registry.register(new_temporal_storage_buffer(&device, 16));
        let mut rg = RenderGraph::new();
        let mut handles = registry.begin(&mut rg);
        let img = create_image(&mut rg, ImageDesc::new([4, 4, 1], Format::R8Unorm));
        let depth = create_image(&mut rg, ImageDesc::new([4, 4, 1], Format::D32Sfloat));
        let pass = rg.add_pass();
        SimpleComputePass::new(pass, &mut rg, "/assets/shaders/blur.hlsl")
            .read(&mut rg, &img)
            .read_aspect(&mut rg, &depth, AspectMask::Depth)
            .write(&mut rg, &mut handles[0])
            .read(&mut rg, &handles[0])
            .dispatch(&mut rg, [4, 4, 1]);
        let n = rg.num_passes();
        rg.recorded_pass(n - 1).clone()
    };
    let first = run();
    let second = run();
    assert_eq!(first, second);
    match &first.body {
        Some(PassBody::Compute { sets, .. }) => match &sets[0] {
            DescriptorSetBinding::Slots { set_index, bindings } => {
                assert_eq!(*set_index, 0);
                assert_eq!(bindings.len(), 4);
                // Slot index == call order.
                assert_eq!(bindings[0].target.kind, ResKind::Image);
                assert_eq!(bindings[1].aspect, Some(AspectMask::Depth));
                assert_eq!(bindings[2].target.kind, ResKind::Buffer);
                assert_eq!(
                    bindings[2].target.access,
                    AccessType::ComputeShaderWrite
                );
                assert_eq!(
                    bindings[3].target.access,
                    AccessType::ComputeShaderReadSampledImageOrUniformTexelBuffer
                );
            }
            _ => panic!("expected a composed descriptor set"),
        },
        _ => panic!("expected a compute command"),
    }
}

#[test]
fn light_gbuffer_binds_in_declaration_order() {
    let mut rg = RenderGraph::new();
    let gbuffer = create_image(&mut rg, ImageDesc::new([16, 8, 1], Format::R32G32B32A32Sfloat));
    let depth = create_image(&mut rg, ImageDesc::new([16, 8, 1], Format::D24UnormS8Uint));
    let mask = create_image(&mut rg, ImageDesc::new([16, 8, 1], Format::R8Unorm));
    let mut output = create_image(&mut rg, ImageDesc::new([16, 8, 1], Format::R16G16B16A16Sfloat));
    let bindless = RawDescriptorSet { id: 11 };
    light_gbuffer(&mut rg, &gbuffer, &depth, &mask, &mut output, bindless);

    let pass = rg.recorded_pass(4);
    assert_eq!(pass.declarations.len(), 4);
    assert_eq!(pass.declarations[3].access, AccessType::General);
    let slots = slots_of_pass(&rg, 4, 0);
    assert_eq!(slots.len(), 4);
    assert_eq!(slots[0].target.id, gbuffer.id);
    assert_eq!(slots[1].aspect, Some(AspectMask::Depth));
    assert_eq!(slots[2].target.id, mask.id);
    assert_eq!(slots[3].target.id, output.id);
    match &pass.body {
        Some(PassBody::Compute { sets, extent, .. }) => {
            assert_eq!(*extent, [16, 8, 1]);
            assert_eq!(
                sets[1],
                DescriptorSetBinding::Raw { set_index: 1, set: bindless }
            );
        }
        _ => panic!("expected a compute command"),
    }
}

#[test]
fn raster_meshes_records_one_draw_per_mesh() {
    let mut rg = RenderGraph::new();
    let mut depth = create_image(&mut rg, ImageDesc::new([128, 64, 1], Format::D24UnormS8Uint));
    let mut color = create_image(&mut rg, ImageDesc::new([128, 64, 1], Format::R8Unorm));
    let meshes = vec![
        UploadedTriMesh { index_buffer_offset: 0, index_count: 36 },
        UploadedTriMesh { index_buffer_offset: 144, index_count: 12 },
    ];
    let vertex_buffer = Arc::new(Buffer {
        desc: BufferDesc::new(4096, BufferUsage::Index),
        data: vec![0; 4096],
    });
    raster_meshes(
        &mut rg,
        RenderPass { id: 3 },
        &mut depth,
        &mut color,
        RasterMeshesData {
            meshes: meshes.clone(),
            vertex_buffer: vertex_buffer.clone(),
            bindless_descriptor_set: RawDescriptorSet { id: 9 },
        },
    );

    let pass = rg.recorded_pass(2);
    assert_eq!(pass.declarations.len(), 2);
    assert_eq!(pass.declarations[0].access, AccessType::DepthStencilAttachmentWrite);
    assert_eq!(pass.declarations[1].access, AccessType::ColorAttachmentWrite);
    match &pass.body {
        Some(PassBody::Raster { render_pass, viewport, color: c, depth: d, draws, index_buffer, .. }) => {
            assert_eq!(*render_pass, RenderPass { id: 3 });
            assert_eq!(*viewport, [128, 64]);
            assert_eq!(c.target.id, color.id);
            assert_eq!(d.aspect, Some(AspectMask::DepthStencil));
            assert_eq!(*draws, meshes);
            assert_eq!(index_buffer, &vertex_buffer);
        }
        _ => panic!("expected a raster command"),
    }
    match rg.pipeline_def(0) {
        PipelineDef::Raster { shaders, desc } => {
            assert_eq!(shaders.len(), 2);
            assert_eq!(shaders[0].desc.stage, ShaderPipelineStage::Vertex);
            assert_eq!(shaders[1].desc.stage, ShaderPipelineStage::Pixel);
            assert!(desc.face_cull);
        }
        _ => panic!("expected a raster pipeline"),
    }
}

#[test]
fn ray_trace_test_binds_tlas_as_set_three() {
    let mut rg = RenderGraph::new();
    let mut output = create_image(&mut rg, ImageDesc::new([32, 32, 1], Format::R8Unorm));
    let tlas = rg.import_ray_tracing_acceleration();
    ray_trace_test(&mut rg, &mut output, RawDescriptorSet { id: 5 }, tlas);

    match rg.pipeline_def(0) {
        PipelineDef::RayTracing { shaders, desc } => {
            assert_eq!(shaders.len(), 4);
            assert_eq!(shaders[0].desc.stage, ShaderPipelineStage::RayGen);
            assert_eq!(shaders[0].code, "/assets/shaders/rt/triangle.rgen.hlsl");
            assert_eq!(shaders[1].desc.stage, ShaderPipelineStage::RayMiss);
            assert_eq!(shaders[3].desc.stage, ShaderPipelineStage::RayClosestHit);
            assert_eq!(desc.max_pipeline_ray_recursion_depth, 2);
        }
        _ => panic!("expected a ray-tracing pipeline"),
    }
    let pass = rg.recorded_pass(1);
    match &pass.body {
        Some(PassBody::RayTrace { sets, extent, .. }) => {
            assert_eq!(*extent, [32, 32, 1]);
            assert_eq!(sets.len(), 3);
            match &sets[2] {
                DescriptorSetBinding::Slots { set_index, bindings } => {
                    assert_eq!(*set_index, 3);
                    assert_eq!(bindings[0].target.kind, ResKind::Accel);
                }
                _ => panic!("expected a composed descriptor set"),
            }
        }
        _ => panic!("expected a ray-tracing command"),
    }
}

#[test]
fn reference_path_trace_uses_reference_raygen() {
    let mut rg = RenderGraph::new();
    let mut output = create_image(&mut rg, ImageDesc::new([32, 32, 1], Format::R8Unorm));
    let tlas = rg.import_ray_tracing_acceleration();
    reference_path_trace(&mut rg, &mut output, RawDescriptorSet { id: 5 }, tlas);
    match rg.pipeline_def(0) {
        PipelineDef::RayTracing { shaders, .. } => {
            assert_eq!(shaders[0].code, "/assets/shaders/rt/reference_path_trace.rgen.hlsl");
        }
        _ => panic!("expected a ray-tracing pipeline"),
    }
}

#[test]
fn sun_shadow_mask_is_single_channel_of_depth_extent() {
    let mut rg = RenderGraph::new();
    let depth = create_image(&mut rg, ImageDesc::new([96, 54, 1], Format::D32Sfloat));
    let tlas = rg.import_ray_tracing_acceleration();
    let mask = trace_sun_shadow_mask(&mut rg, &depth, tlas);

    let mask_desc = rg.image_desc(&mask);
    assert_eq!(mask_desc.extent, [96, 54, 1]);
    assert_eq!(mask_desc.format, Format::R8Unorm);
    match rg.pipeline_def(0) {
        PipelineDef::RayTracing { shaders, desc } => {
            assert_eq!(shaders.len(), 2);
            assert_eq!(desc.max_pipeline_ray_recursion_depth, 1);
        }
        _ => panic!("expected a ray-tracing pipeline"),
    }
    let slots = slots_of_pass(&rg, 1, 0);
    assert_eq!(slots[0].aspect, Some(AspectMask::Depth));
    assert_eq!(slots[1].target.id, mask.id);
}

#[test]
fn allocate_surfels_binds_nine_slots_in_order() {
    let device = Device::new();
    let mut renderer = SurfelGiRenderer::new(&device);
    let mut rg = RenderGraph::new();
    let mut inst = renderer.begin(&mut rg);
    let gbuffer = create_image(&mut rg, ImageDesc::new([20, 10, 1], Format::R32G32B32A32Sfloat));
    let depth = create_image(&mut rg, ImageDesc::new([20, 10, 1], Format::D24UnormS8Uint));

    let debug_out = inst.allocate_surfels(&mut rg, &gbuffer, &depth);

    let debug_desc = rg.image_desc(&debug_out);
    assert_eq!(debug_desc.extent, [20, 10, 1]);
    assert_eq!(debug_desc.format, Format::R32G32B32A32Sfloat);

    let n = rg.num_passes();
    let slots = slots_of_pass(&rg, n - 1, 0);
    assert_eq!(slots.len(), 9);
    assert_eq!(slots[0].target.id, gbuffer.id);
    assert_eq!(slots[1].target.id, depth.id);
    assert_eq!(slots[1].aspect, Some(AspectMask::Depth));
    assert_eq!(slots[2].target.id, inst.surfel_meta_buf.id);
    assert_eq!(slots[2].target.access, AccessType::ComputeShaderWrite);
    assert_eq!(slots[3].target.id, inst.surfel_hash_key_buf.id);
    assert_eq!(slots[4].target.id, inst.surfel_hash_value_buf.id);
    assert_eq!(slots[5].target.id, inst.cell_index_offset_buf.id);
    assert_eq!(
        slots[5].target.access,
        AccessType::ComputeShaderReadSampledImageOrUniformTexelBuffer
    );
    assert_eq!(slots[6].target.id, inst.surfel_index_buf.id);
    assert_eq!(slots[7].target.id, inst.surfel_spatial_buf.id);
    assert_eq!(slots[8].target.id, debug_out.id);
    assert_eq!(slots[8].target.access, AccessType::ComputeShaderWrite);

    match rg.pipeline_def(0) {
        PipelineDef::Compute { path } => {
            assert_eq!(path, "/assets/shaders/surfel_gi/allocate_surfels.hlsl")
        }
        _ => panic!("expected a compute pipeline"),
    }

    renderer.end(&mut rg, inst);
    let retired = rg.submit();
    renderer.retire(&retired);
}
