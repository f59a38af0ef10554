//! Temporal resource lifecycle scenarios: bracket phases, persistence of
//! unwritten buffers across frames, exact buffer sizing at construction,
//! and the multi-frame read-back scenario.

use frame_graph::desc::AccessType;
use frame_graph::graph::{Device, RenderGraph};
use frame_graph::surfel_gi::{new_temporal_storage_buffer, SurfelGiRenderer};
use frame_graph::temporal::{TemporalPhase, TemporalRegistry};

#[test]
fn bracket_phases_step_in_order() {
    let device = Device::new();
    let mut registry = TemporalRegistry::new();
    registry.register(new_temporal_storage_buffer(&device, 4));
    assert_eq!(registry.entry(0).current_phase(), TemporalPhase::Resident);

    let mut rg = RenderGraph::new();
    let handles = registry.begin(&mut rg);
    assert_eq!(handles.len(), 1);
    // Between begin and end the resource is lent out: a second begin is a
    // detectable contract violation.
    assert_eq!(registry.entry(0).current_phase(), TemporalPhase::Lent);

    registry.end(&mut rg, handles);
    // After end the bracket is closed but not yet retired: begin is still a
    // detectable violation.
    assert_eq!(registry.entry(0).current_phase(), TemporalPhase::Returned);

    let retired = rg.submit();
    registry.retire(&retired);
    assert_eq!(registry.entry(0).current_phase(), TemporalPhase::Resident);
}

#[test]
fn retire_bumps_generation_and_keeps_content() {
    let device = Device::new();
    let mut registry = TemporalRegistry::new();
    registry.register(new_temporal_storage_buffer(&device, 4));
    assert_eq!(registry.entry(0).resource_ref().data, vec![0u8; 4]);

    let mut rg = RenderGraph::new();
    let handles = registry.begin(&mut rg);
    registry.end(&mut rg, handles);
    let retired = rg.submit();
    registry.retire(&retired);
    // Retire reclaims bookkeeping; it never releases or alters the memory.
    assert_eq!(registry.entry(0).resource_ref().data, vec![0u8; 4]);
}

#[test]
fn persistence_without_writer_is_pass_through() {
    let device = Device::new();
    let mut registry = TemporalRegistry::new();
    registry.register(new_temporal_storage_buffer(&device, 4));

    // Frame 0 gives the buffer a recognizable content.
    let mut rg = RenderGraph::new();
    let mut handles = registry.begin(&mut rg);
    let pass = rg.add_pass();
    let w = pass.write(&mut rg, &mut handles[0], AccessType::ComputeShaderWrite);
    rg.write_buffer(&w, 0, &[1, 2, 3, 4]);
    registry.end(&mut rg, handles);
    let retired = rg.submit();
    registry.retire(&retired);
    assert_eq!(registry.entry(0).resource_ref().data, vec![1, 2, 3, 4]);

    // Frame 1 only reads: the content at the next begin equals the content
    // at the previous end, byte for byte.
    let mut rg = RenderGraph::new();
    let handles = registry.begin(&mut rg);
    let pass = rg.add_pass();
    let r = pass.read(
        &mut rg,
        &handles[0],
        AccessType::ComputeShaderReadSampledImageOrUniformTexelBuffer,
    );
    assert_eq!(rg.read_buffer(&r, 0, 4), vec![1, 2, 3, 4]);
    registry.end(&mut rg, handles);
    let retired = rg.submit();
    registry.retire(&retired);
    assert_eq!(registry.entry(0).resource_ref().data, vec![1, 2, 3, 4]);
}

#[test]
fn temporal_end_to_end_scenario() {
    let device = Device::new();
    let mut registry = TemporalRegistry::new();
    registry.register(new_temporal_storage_buffer(&device, 4));

    // Frame 1 writes 0x2A.
    let mut rg = RenderGraph::new();
    let mut handles = registry.begin(&mut rg);
    let pass = rg.add_pass();
    let w = pass.write(&mut rg, &mut handles[0], AccessType::ComputeShaderWrite);
    rg.write_buffer(&w, 0, &[0x2A]);
    registry.end(&mut rg, handles);
    let retired = rg.submit();
    registry.retire(&retired);

    // Frame 2 must observe 0x2A before any write, then writes 0x7B.
    let mut rg = RenderGraph::new();
    let mut handles = registry.begin(&mut rg);
    let pass = rg.add_pass();
    let r = pass.read(
        &mut rg,
        &handles[0],
        AccessType::ComputeShaderReadSampledImageOrUniformTexelBuffer,
    );
    assert_eq!(rg.read_buffer(&r, 0, 1), vec![0x2A]);
    let w = pass.write(&mut rg, &mut handles[0], AccessType::ComputeShaderWrite);
    rg.write_buffer(&w, 0, &[0x7B]);
    registry.end(&mut rg, handles);
    let retired = rg.submit();
    registry.retire(&retired);

    // Frame 3 observes 0x7B.
    let mut rg = RenderGraph::new();
    let handles = registry.begin(&mut rg);
    let pass = rg.add_pass();
    let r = pass.read(
        &mut rg,
        &handles[0],
        AccessType::ComputeShaderReadSampledImageOrUniformTexelBuffer,
    );
    assert_eq!(rg.read_buffer(&r, 0, 1), vec![0x7B]);
    registry.end(&mut rg, handles);
    let retired = rg.submit();
    registry.retire(&retired);
}

#[test]
fn empty_registry_round_trips() {
    let mut registry = TemporalRegistry::new();
    assert_eq!(registry.len(), 0);
    let mut rg = RenderGraph::new();
    let handles = registry.begin(&mut rg);
    assert!(handles.is_empty());
    registry.end(&mut rg, handles);
    let retired = rg.submit();
    registry.retire(&retired);
    assert_eq!(registry.len(), 0);
}

#[test]
fn surfel_buffer_sizes_are_exact() {
    let device = Device::new();
    let renderer = SurfelGiRenderer::new(&device);
    assert_eq!(renderer.registry.len(), 6);
    // Metadata: one 32-bit counter.
    assert_eq!(renderer.registry.entry(0).resource_ref().desc.size, 4);
    // Hash key and hash value buffers: 4 bytes per cell.
    assert_eq!(renderer.registry.entry(1).resource_ref().desc.size, 4_194_304);
    assert_eq!(renderer.registry.entry(2).resource_ref().desc.size, 4_194_304);
    // Per-cell index offsets: 4 bytes per cell.
    assert_eq!(renderer.registry.entry(3).resource_ref().desc.size, 4_194_304);
    // Per-cell index buffer: 4 bytes per cell slot, 8 slots per cell.
    assert_eq!(renderer.registry.entry(4).resource_ref().desc.size, 33_554_432);
    // Spatial buffer: 16 bytes per surfel.
    assert_eq!(renderer.registry.entry(5).resource_ref().desc.size, 16_777_216);
}

#[test]
fn surfel_renderer_round_trip() {
    let device = Device::new();
    let mut renderer = SurfelGiRenderer::new(&device);

    let mut rg = RenderGraph::new();
    let inst = renderer.begin(&mut rg);
    assert_eq!(inst.surfel_meta_buf.id, 0);
    assert_eq!(inst.surfel_spatial_buf.id, 5);
    renderer.end(&mut rg, inst);
    let retired = rg.submit();
    renderer.retire(&retired);

    for i in 0..6 {
        assert_eq!(renderer.registry.entry(i).current_phase(), TemporalPhase::Resident);
    }
}
