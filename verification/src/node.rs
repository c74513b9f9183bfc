//! Render graph node execution: per camera and per frame, the node resolves
//! its cached pipeline, looks up the camera's dynamic index, binds the
//! frame's resources in the layout's order and issues one full-screen draw —
//! or skips silently when anything is missing.
//!
//! Every absence — a pipeline still compiling or failed, a camera without a
//! record this frame, a missing prepass — is non-fatal: the node returns
//! without drawing and without touching the view-target swap. The node keeps
//! no state between invocations.

use vstd::prelude::*;
use crate::aggregate::UniformFrame;
use crate::pipeline::{
    needs_prepass, spec_bind_group_layout, spec_needs_prepass, BindingLayoutEntry, PipelineCache,
};
use crate::settings::EffectKind;

verus! {

/// The two texture views one camera's post-processing chain alternates
/// between, so each pass reads the previous pass's output and writes the
/// other view, never both on the same image.
#[derive(Clone, Copy, Debug, PartialEq, Eq, Structural)]
pub struct ViewTargetSwap {
    pub view_a: u64,
    pub view_b: u64,
    pub source_is_a: bool,
}

impl ViewTargetSwap {
    /// Creates the swap for one camera's pair of views; the first pass reads
    /// the first view.
    pub fn new(view_a: u64, view_b: u64) -> (s: ViewTargetSwap)
        ensures
            s.view_a == view_a,
            s.view_b == view_b,
            s.source_is_a,
    {
        ViewTargetSwap { view_a, view_b, source_is_a: true }
    }

    /// The view the next pass reads.
    pub open spec fn spec_source(self) -> u64 {
        if self.source_is_a {
            self.view_a
        } else {
            self.view_b
        }
    }

    /// The view the next pass writes.
    pub open spec fn spec_destination(self) -> u64 {
        if self.source_is_a {
            self.view_b
        } else {
            self.view_a
        }
    }

    /// Hands out the current source and destination views and advances the
    /// swap: what this pass writes is what the next pass reads.
    pub fn post_process_write(&mut self) -> (views: (u64, u64))
        ensures
            views.0 == old(self).spec_source(),
            views.1 == old(self).spec_destination(),
            final(self).view_a == old(self).view_a,
            final(self).view_b == old(self).view_b,
            final(self).source_is_a == !old(self).source_is_a,
            final(self).spec_source() == old(self).spec_destination(),
    {
        let source = if self.source_is_a {
            self.view_a
        } else {
            self.view_b
        };
        let destination = if self.source_is_a {
            self.view_b
        } else {
            self.view_a
        };
        self.source_is_a = !self.source_is_a;
        (source, destination)
    }
}

/// The depth and normal prepass texture views rendered for one camera.
#[derive(Clone, Copy, Debug, PartialEq, Eq, Structural)]
pub struct PrepassViews {
    pub depth_view: u64,
    pub normal_view: u64,
}

/// One resource bound for a draw, positionally matching the effect's
/// bind-group layout.
#[derive(Clone, Copy, Debug, PartialEq, Eq, Structural)]
pub enum BoundResource {
    /// The chain's current source color view.
    SourceColor { view: u64 },
    /// The pipeline's filtering sampler.
    FilteringSampler,
    /// The camera's multisampled depth prepass view.
    DepthPrepass { view: u64 },
    /// The camera's multisampled normal prepass view.
    NormalPrepass { view: u64 },
    /// The frame's uniform buffer, bound at the camera's dynamic index.
    UniformSlice { offset: u32 },
}

/// The full-screen pass one node records when nothing is missing: one
/// triangle, one instance, writing only the destination view, which the
/// effect fully overwrites.
#[derive(Debug)]
pub struct DrawCall {
    pub kind: EffectKind,
    pub source_view: u64,
    pub destination_view: u64,
    pub bindings: Vec<BoundResource>,
    pub dynamic_offset: u32,
    pub vertex_count: u32,
    pub instance_count: u32,
    /// The pass loads nothing: every destination pixel is overwritten.
    pub load_dont_care: bool,
}

/// What one node invocation does for one camera on one frame.
#[derive(Debug)]
pub enum NodeAction {
    /// Nothing was drawn and nothing changed; not an error.
    Skip,
    /// One full-screen draw was recorded.
    Draw(DrawCall),
}

/// The resources a draw binds, in the effect's bind-group layout order:
/// source and sampler first, the outline's prepass views in between, the
/// uniform slice at the camera's dynamic offset last.
pub open spec fn spec_bindings(
    kind: EffectKind,
    source: u64,
    prepass: Option<PrepassViews>,
    offset: u32,
) -> Seq<BoundResource>
    recommends
        spec_needs_prepass(kind) ==> prepass is Some,
{
    match kind {
        EffectKind::Outline => seq![
            BoundResource::SourceColor { view: source },
            BoundResource::FilteringSampler,
            BoundResource::DepthPrepass { view: prepass->Some_0.depth_view },
            BoundResource::NormalPrepass { view: prepass->Some_0.normal_view },
            BoundResource::UniformSlice { offset },
        ],
        EffectKind::ChromaticAberration => seq![
            BoundResource::SourceColor { view: source },
            BoundResource::FilteringSampler,
            BoundResource::UniformSlice { offset },
        ],
        EffectKind::VolumetricNebula => seq![
            BoundResource::SourceColor { view: source },
            BoundResource::FilteringSampler,
            BoundResource::UniformSlice { offset },
        ],
    }
}

/// Whether a bound resource is what one layout entry declares.
pub open spec fn binds_entry(r: BoundResource, e: BindingLayoutEntry) -> bool {
    match e {
        BindingLayoutEntry::SourceColorTexture => r is SourceColor,
        BindingLayoutEntry::FilteringSampler => r is FilteringSampler,
        BindingLayoutEntry::MultisampledDepthTexture => r is DepthPrepass,
        BindingLayoutEntry::MultisampledNormalTexture => r is NormalPrepass,
        BindingLayoutEntry::DynamicUniformBuffer => r is UniformSlice,
    }
}

/// A draw's bindings fill the effect's bind-group layout exactly: one
/// resource per declared entry, in the declared order.
pub proof fn lemma_bindings_match_layout(
    kind: EffectKind,
    source: u64,
    prepass: Option<PrepassViews>,
    offset: u32,
)
    ensures
        spec_bindings(kind, source, prepass, offset).len() == spec_bind_group_layout(kind).len(),
        forall|i: int|
            0 <= i < spec_bind_group_layout(kind).len() ==> binds_entry(
                #[trigger] spec_bindings(kind, source, prepass, offset)[i],
                spec_bind_group_layout(kind)[i],
            ),
{
}

/// Runs one effect node for one camera, from already-resolved queries:
/// whether the cached pipeline is ready, the camera's dynamic index if it has
/// one this frame, and the camera's prepass views if rendered. Draws exactly
/// when nothing is missing; otherwise skips without a side effect.
pub fn run_node(
    kind: EffectKind,
    pipeline_ready: bool,
    index: Option<u32>,
    prepass: Option<PrepassViews>,
    swap: &mut ViewTargetSwap,
) -> (action: NodeAction)
    ensures
        action is Skip <==> !(pipeline_ready && index is Some && (spec_needs_prepass(kind)
            ==> prepass is Some)),
        action is Skip ==> *final(swap) == *old(swap),
        action matches NodeAction::Draw(d) ==> {
            &&& d.kind == kind
            &&& d.source_view == old(swap).spec_source()
            &&& d.destination_view == old(swap).spec_destination()
            &&& d.bindings@ == spec_bindings(kind, old(swap).spec_source(), prepass, index->Some_0)
            &&& d.dynamic_offset == index->Some_0
            &&& d.vertex_count == 3
            &&& d.instance_count == 1
            &&& d.load_dont_care
            &&& final(swap).source_is_a == !old(swap).source_is_a
            &&& final(swap).view_a == old(swap).view_a
            &&& final(swap).view_b == old(swap).view_b
        },
{
    if !pipeline_ready {
        return NodeAction::Skip;
    }
    let offset = match index {
        Some(offset) => offset,
        None => {
            return NodeAction::Skip;
        },
    };
    if needs_prepass(kind) && prepass.is_none() {
        return NodeAction::Skip;
    }
    let (source_view, destination_view) = swap.post_process_write();
    let mut bindings: Vec<BoundResource> = Vec::new();
    bindings.push(BoundResource::SourceColor { view: source_view });
    bindings.push(BoundResource::FilteringSampler);
    match kind {
        EffectKind::Outline => {
            let views = match prepass {
                Some(views) => views,
                None => unreached(),
            };
            bindings.push(BoundResource::DepthPrepass { view: views.depth_view });
            bindings.push(BoundResource::NormalPrepass { view: views.normal_view });
        },
        EffectKind::ChromaticAberration => {},
        EffectKind::VolumetricNebula => {},
    }
    bindings.push(BoundResource::UniformSlice { offset });
    proof {
        assert(bindings@ =~= spec_bindings(kind, old(swap).spec_source(), prepass, offset));
    }
    NodeAction::Draw(
        DrawCall {
            kind,
            source_view,
            destination_view,
            bindings,
            dynamic_offset: offset,
            vertex_count: 3,
            instance_count: 1,
            load_dont_care: true,
        },
    )
}

/// Runs one effect node for one camera against the live pipeline cache and
/// the frame's uniform aggregation: queries readiness and the camera's
/// dynamic index, then draws or skips. A frame whose aggregation holds no
/// slot for the camera is never drawn, so an empty frame draws nothing.
pub fn run_node_for_camera(
    cache: &PipelineCache,
    handle: usize,
    frame: &UniformFrame,
    camera: u64,
    prepass: Option<PrepassViews>,
    swap: &mut ViewTargetSwap,
) -> (action: NodeAction)
    requires
        handle < cache.pipelines@.len(),
        cache.pipelines@[handle as int].kind == frame.kind,
        frame.wf(),
    ensures
        action is Skip ==> *final(swap) == *old(swap),
        !(cache.pipelines@[handle as int].state is Ready) ==> action is Skip,
        (forall|i: int|
            0 <= i < frame.cameras@.len() ==> #[trigger] frame.cameras@[i] != camera) ==> action
            is Skip,
        spec_needs_prepass(frame.kind) && prepass is None ==> action is Skip,
        action matches NodeAction::Draw(d) ==> {
            &&& cache.pipelines@[handle as int].state is Ready
            &&& exists|i: int|
                0 <= i < frame.cameras@.len() && #[trigger] frame.cameras@[i] == camera
                    && frame.offsets@[i] == d.dynamic_offset
            &&& d.kind == frame.kind
            &&& d.source_view == old(swap).spec_source()
            &&& d.destination_view == old(swap).spec_destination()
            &&& d.bindings@ == spec_bindings(
                frame.kind,
                old(swap).spec_source(),
                prepass,
                d.dynamic_offset,
            )
            &&& d.vertex_count == 3
            &&& d.instance_count == 1
            &&& d.load_dont_care
            &&& final(swap).source_is_a == !old(swap).source_is_a
            &&& final(swap).view_a == old(swap).view_a
            &&& final(swap).view_b == old(swap).view_b
        },
        (cache.pipelines@[handle as int].state is Ready && (exists|i: int|
            0 <= i < frame.cameras@.len() && #[trigger] frame.cameras@[i] == camera) && (
        spec_needs_prepass(frame.kind) ==> prepass is Some)) ==> action is Draw,
{
    let ready = cache.is_ready(handle);
    let index = frame.dynamic_index_of(camera);
    run_node(frame.kind, ready, index, prepass, swap)
}

} // verus!
