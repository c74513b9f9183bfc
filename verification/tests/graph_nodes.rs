//! Render graph and node execution tests: node order between the anchors,
//! order stability under removal, the view-target swap, and the per-camera
//! draw/skip decision.

use postfx::aggregate::build_effect_frame;
use postfx::graph::{NodeLabel, RenderGraph};
use postfx::node::{
    run_node, run_node_for_camera, BoundResource, NodeAction, PrepassViews, ViewTargetSwap,
};
use postfx::pipeline::{CompileEvent, PipelineCache};
use postfx::settings::{EffectKind, EffectRecord, OutlineSettings};
use postfx::world::SimWorld;

const ALIGNMENT: usize = 256;
const SURFACE_FORMAT: u32 = 24;

fn outline_world(camera: u64, has_prepass: bool) -> SimWorld {
    let mut world = SimWorld::new();
    assert!(world.spawn_camera(camera, true, has_prepass));
    assert!(world.attach_record(
        camera,
        EffectRecord::Outline(OutlineSettings { cutoff: 0.5f32.to_bits() }),
    ));
    world
}

fn ready_cache(kind: EffectKind) -> (PipelineCache, usize) {
    let mut cache = PipelineCache::new(SURFACE_FORMAT);
    let handle = cache.get_or_create(kind);
    cache.observe(handle, CompileEvent::Started);
    cache.observe(handle, CompileEvent::Succeeded);
    (cache, handle)
}

#[test]
fn effects_execute_between_the_two_anchors_in_registration_order() {
    let mut graph = RenderGraph::new();
    assert!(graph.register_effect(EffectKind::ChromaticAberration));
    assert!(graph.register_effect(EffectKind::Outline));
    assert!(graph.register_effect(EffectKind::VolumetricNebula));
    assert!(!graph.register_effect(EffectKind::Outline)); // one node per effect
    assert_eq!(
        graph.execution_order(),
        vec![
            NodeLabel::Tonemapping,
            NodeLabel::Effect(EffectKind::ChromaticAberration),
            NodeLabel::Effect(EffectKind::Outline),
            NodeLabel::Effect(EffectKind::VolumetricNebula),
            NodeLabel::EndMainPassPostProcessing,
        ],
    );
}

#[test]
fn removing_the_middle_node_keeps_the_remaining_order() {
    let mut graph = RenderGraph::new();
    assert!(graph.register_effect(EffectKind::ChromaticAberration));
    assert!(graph.register_effect(EffectKind::Outline));
    assert!(graph.register_effect(EffectKind::VolumetricNebula));
    assert!(graph.remove_effect(EffectKind::Outline));
    assert_eq!(
        graph.execution_order(),
        vec![
            NodeLabel::Tonemapping,
            NodeLabel::Effect(EffectKind::ChromaticAberration),
            NodeLabel::Effect(EffectKind::VolumetricNebula),
            NodeLabel::EndMainPassPostProcessing,
        ],
    );
    assert!(!graph.remove_effect(EffectKind::Outline));
}

#[test]
fn the_swap_chains_passes_source_to_destination() {
    let mut swap = ViewTargetSwap::new(10, 20);
    let (source, destination) = swap.post_process_write();
    assert_eq!((source, destination), (10, 20));
    let (source, destination) = swap.post_process_write();
    // the second pass reads what the first pass wrote
    assert_eq!((source, destination), (20, 10));
}

#[test]
fn a_node_with_everything_present_draws_one_fullscreen_triangle() {
    let mut swap = ViewTargetSwap::new(10, 20);
    let action = run_node(
        EffectKind::ChromaticAberration,
        true,
        Some(512),
        None,
        &mut swap,
    );
    match action {
        NodeAction::Draw(draw) => {
            assert_eq!(draw.kind, EffectKind::ChromaticAberration);
            assert_eq!(draw.source_view, 10);
            assert_eq!(draw.destination_view, 20);
            assert_eq!(draw.dynamic_offset, 512);
            assert_eq!(draw.vertex_count, 3);
            assert_eq!(draw.instance_count, 1);
            assert!(draw.load_dont_care);
            assert_eq!(
                draw.bindings,
                vec![
                    BoundResource::SourceColor { view: 10 },
                    BoundResource::FilteringSampler,
                    BoundResource::UniformSlice { offset: 512 },
                ],
            );
        }
        NodeAction::Skip => panic!("the draw was skipped with nothing missing"),
    }
    // the swap advanced: the next pass reads view 20
    assert_eq!(swap.post_process_write().0, 20);
}

#[test]
fn a_not_ready_pipeline_skips_without_touching_the_swap() {
    let mut swap = ViewTargetSwap::new(10, 20);
    let action = run_node(EffectKind::VolumetricNebula, false, Some(0), None, &mut swap);
    assert!(matches!(action, NodeAction::Skip));
    assert_eq!(swap.post_process_write().0, 10);
}

#[test]
fn a_camera_without_a_dynamic_index_skips() {
    let mut swap = ViewTargetSwap::new(10, 20);
    let action = run_node(EffectKind::VolumetricNebula, true, None, None, &mut swap);
    assert!(matches!(action, NodeAction::Skip));
    assert_eq!(swap.post_process_write().0, 10);
}

#[test]
fn outline_without_prepass_textures_skips_without_error() {
    let world = outline_world(1, false);
    let (cache, handle) = ready_cache(EffectKind::Outline);
    let frame = build_effect_frame(&world, EffectKind::Outline, ALIGNMENT);
    let mut swap = ViewTargetSwap::new(10, 20);
    // the camera has a slot and the pipeline is ready, but no prepass was
    // rendered for it: the node must skip, not raise
    assert_eq!(frame.dynamic_index_of(1), Some(0));
    let action = run_node_for_camera(&cache, handle, &frame, 1, None, &mut swap);
    assert!(matches!(action, NodeAction::Skip));
    assert_eq!(swap.post_process_write().0, 10);
}

#[test]
fn outline_with_prepass_binds_depth_and_normals_in_order() {
    let world = outline_world(1, true);
    let (cache, handle) = ready_cache(EffectKind::Outline);
    let frame = build_effect_frame(&world, EffectKind::Outline, ALIGNMENT);
    let mut swap = ViewTargetSwap::new(10, 20);
    let prepass = PrepassViews { depth_view: 77, normal_view: 88 };
    let action = run_node_for_camera(&cache, handle, &frame, 1, Some(prepass), &mut swap);
    match action {
        NodeAction::Draw(draw) => {
            assert_eq!(
                draw.bindings,
                vec![
                    BoundResource::SourceColor { view: 10 },
                    BoundResource::FilteringSampler,
                    BoundResource::DepthPrepass { view: 77 },
                    BoundResource::NormalPrepass { view: 88 },
                    BoundResource::UniformSlice { offset: 0 },
                ],
            );
        }
        NodeAction::Skip => panic!("the draw was skipped with nothing missing"),
    }
}

#[test]
fn the_frame_driver_runs_nodes_in_declared_order() {
    let mut world = SimWorld::new();
    assert!(world.spawn_camera(1, true, true));
    // the camera carries chromatic aberration and outline records, but no
    // nebula record this frame
    assert!(world.attach_record(
        1,
        EffectRecord::ChromaticAberration(
            postfx::settings::ChromaticAberrationSettings {
                intensity: 0.01f32.to_bits(),
                distance_exponent: 4.0f32.to_bits(),
            },
        ),
    ));
    assert!(world.attach_record(
        1,
        EffectRecord::Outline(OutlineSettings { cutoff: 0.5f32.to_bits() }),
    ));
    let mut graph = RenderGraph::new();
    assert!(graph.register_effect(EffectKind::VolumetricNebula));
    assert!(graph.register_effect(EffectKind::ChromaticAberration));
    assert!(graph.register_effect(EffectKind::Outline));
    let mut cache = PipelineCache::new(SURFACE_FORMAT);
    for kind in [
        EffectKind::VolumetricNebula,
        EffectKind::ChromaticAberration,
        EffectKind::Outline,
    ] {
        let handle = cache.get_or_create(kind);
        cache.observe(handle, CompileEvent::Succeeded);
    }
    let mut swap = ViewTargetSwap::new(10, 20);
    let prepass = Some(PrepassViews { depth_view: 77, normal_view: 88 });
    let actions = postfx::frame::run_frame_for_camera(
        &world,
        &graph,
        &cache,
        ALIGNMENT,
        1,
        prepass,
        &mut swap,
    );
    assert_eq!(actions.len(), 3);
    // nodes ran in registration order; the nebula skipped for want of a
    // record, the other two drew, chained through the swap
    assert_eq!(actions[0].0, EffectKind::VolumetricNebula);
    assert!(matches!(actions[0].1, NodeAction::Skip));
    assert_eq!(actions[1].0, EffectKind::ChromaticAberration);
    assert_eq!(actions[2].0, EffectKind::Outline);
    match (&actions[1].1, &actions[2].1) {
        (NodeAction::Draw(first), NodeAction::Draw(second)) => {
            assert_eq!(first.source_view, 10);
            assert_eq!(first.destination_view, 20);
            assert_eq!(second.source_view, first.destination_view);
            assert_eq!(second.destination_view, 10);
        }
        other => panic!("both ready effects should draw: {:?}", other),
    }
}

#[test]
fn an_empty_frame_draws_for_no_camera() {
    let mut world = SimWorld::new();
    assert!(world.spawn_camera(1, true, true));
    // no camera carries the effect's record this frame
    let (cache, handle) = ready_cache(EffectKind::ChromaticAberration);
    let frame = build_effect_frame(&world, EffectKind::ChromaticAberration, ALIGNMENT);
    assert_eq!(frame.data.len(), 0);
    let mut swap = ViewTargetSwap::new(10, 20);
    let action = run_node_for_camera(&cache, handle, &frame, 1, None, &mut swap);
    assert!(matches!(action, NodeAction::Skip));
}
