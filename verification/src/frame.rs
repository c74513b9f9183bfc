//! Per-frame driver: the control flow of one frame's post-processing for one
//! camera, in the pipeline's fixed order.
//!
//! For every effect node in the graph's declared order, the driver extracts
//! the frame's snapshots, aggregates them into the effect's uniform buffer,
//! and runs the node — extraction strictly before aggregation, aggregation
//! strictly before execution, and the nodes in registration order. Each node
//! draws exactly when its pipeline is ready, the camera carries its record
//! this frame, and the prepass it needs is there.

use vstd::prelude::*;
use crate::aggregate::{build_effect_frame, spec_stride};
use crate::extract::{camera_carries, count_with_record, extracted, lemma_extraction_membership};
use crate::graph::RenderGraph;
use crate::layout::spec_record_size;
use crate::node::{run_node_for_camera, NodeAction, PrepassViews, ViewTargetSwap};
use crate::pipeline::{has_pipeline, pipeline_ready_for, CachedPipeline, PipelineCache};
use crate::settings::EffectKind;
use crate::world::{SimCamera, SimWorld};

verus! {

/// Whether one effect node draws for one camera on this frame: its pipeline
/// compiled, the camera carries the effect's record, and the prepass the
/// effect needs was rendered. Anything missing means a silent skip.
pub open spec fn spec_node_draws(
    pipelines: Seq<CachedPipeline>,
    cams: Seq<SimCamera>,
    kind: EffectKind,
    camera: u64,
    prepass: Option<PrepassViews>,
) -> bool {
    &&& pipeline_ready_for(pipelines, kind)
    &&& camera_carries(cams, kind, camera)
    &&& (crate::pipeline::spec_needs_prepass(kind) ==> prepass is Some)
}

/// Runs one frame of post-processing for one camera: extraction, then
/// aggregation, then every registered effect node in the graph's declared
/// order, chained through the view-target swap. Returns what each node did,
/// node by node in execution order.
pub fn run_frame_for_camera(
    world: &SimWorld,
    graph: &RenderGraph,
    cache: &PipelineCache,
    alignment: usize,
    camera: u64,
    prepass: Option<PrepassViews>,
    swap: &mut ViewTargetSwap,
) -> (actions: Vec<(EffectKind, NodeAction)>)
    requires
        cache.wf(),
        1 <= alignment,
        forall|k: EffectKind| #[trigger] spec_record_size(k) + alignment <= usize::MAX,
        forall|k: EffectKind|
            count_with_record(world.cameras@, k) * #[trigger] spec_stride(k, alignment as int)
                <= u32::MAX,
        forall|i: int|
            0 <= i < graph.effects@.len() ==> has_pipeline(
                cache.pipelines@,
                #[trigger] graph.effects@[i],
            ),
    ensures
        actions@.len() == graph.effects@.len(),
        forall|i: int|
            0 <= i < actions@.len() ==> (#[trigger] actions@[i]).0 == graph.effects@[i],
        forall|i: int|
            0 <= i < actions@.len() ==> ((#[trigger] actions@[i]).1 is Draw <==> spec_node_draws(
                cache.pipelines@,
                world.cameras@,
                graph.effects@[i],
                camera,
                prepass,
            )),
{
    let mut actions: Vec<(EffectKind, NodeAction)> = Vec::new();
    let mut i: usize = 0;
    while i < graph.effects.len()
        invariant
            i <= graph.effects@.len(),
            cache.wf(),
            1 <= alignment,
            forall|k: EffectKind| #[trigger] spec_record_size(k) + alignment <= usize::MAX,
            forall|k: EffectKind|
                count_with_record(world.cameras@, k) * #[trigger] spec_stride(
                    k,
                    alignment as int,
                ) <= u32::MAX,
            forall|j: int|
                0 <= j < graph.effects@.len() ==> has_pipeline(
                    cache.pipelines@,
                    #[trigger] graph.effects@[j],
                ),
            actions@.len() == i,
            forall|j: int| 0 <= j < i ==> (#[trigger] actions@[j]).0 == graph.effects@[j],
            forall|j: int|
                0 <= j < i ==> ((#[trigger] actions@[j]).1 is Draw <==> spec_node_draws(
                    cache.pipelines@,
                    world.cameras@,
                    graph.effects@[j],
                    camera,
                    prepass,
                )),
        decreases graph.effects@.len() - i,
    {
        let kind = graph.effects[i];
        proof {
            assert(has_pipeline(cache.pipelines@, graph.effects@[i as int]));
        }
        let handle = match cache.find(kind) {
            Some(handle) => handle,
            None => unreached(),
        };
        let frame = build_effect_frame(world, kind, alignment);
        let action = run_node_for_camera(cache, handle, &frame, camera, prepass, swap);
        proof {
            let pipelines = cache.pipelines@;
            let cams = world.cameras@;
            let e = extracted(cams, kind);
            lemma_extraction_membership(cams, kind, camera);
            if action is Draw {
                assert(pipeline_ready_for(pipelines, kind));
                let s = choose|s: int|
                    0 <= s < frame.cameras@.len() && #[trigger] frame.cameras@[s] == camera;
                assert(e[s].camera == camera);
                assert(camera_carries(cams, kind, camera));
            }
            if spec_node_draws(pipelines, cams, kind, camera, prepass) {
                let h2 = choose|h: int|
                    0 <= h < pipelines.len() && #[trigger] pipelines[h].kind == kind
                        && pipelines[h].state is Ready;
                if h2 < handle as int {
                    assert(pipelines[h2].kind != pipelines[handle as int].kind);
                } else if h2 > handle as int {
                    assert(pipelines[handle as int].kind != pipelines[h2].kind);
                }
                assert(pipelines[handle as int].state is Ready);
                let s = choose|s: int| 0 <= s < e.len() && #[trigger] e[s].camera == camera;
                assert(frame.cameras@[s] == camera);
                assert(action is Draw);
            }
        }
        actions.push((kind, action));
        i = i + 1;
    }
    actions
}

} // verus!
