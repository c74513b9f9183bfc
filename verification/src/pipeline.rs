//! Pipeline Cache: one render pipeline per effect, built once from a fixed
//! descriptor and tracked through asynchronous compilation.
//!
//! A pipeline is requested the first time its effect is asked for and never
//! rebuilt. Compilation progresses through an explicit state machine:
//! readiness is reached only by a successful compile and is never left, and a
//! failed compile is permanent, so nodes degrade to skipping their draw
//! rather than erroring.

use vstd::prelude::*;
use crate::settings::EffectKind;

verus! {

/// One binding of an effect's bind-group layout, in the fixed order the
/// effect's fragment shader declares.
#[derive(Clone, Copy, Debug, PartialEq, Eq, Structural)]
pub enum BindingLayoutEntry {
    /// The chain's source color texture: filterable 2D, fragment-visible.
    SourceColorTexture,
    /// The filtering sampler for the source texture.
    FilteringSampler,
    /// The multisampled depth prepass texture.
    MultisampledDepthTexture,
    /// The multisampled normal prepass texture.
    MultisampledNormalTexture,
    /// The effect's settings: a uniform buffer bound at a dynamic offset.
    DynamicUniformBuffer,
}

/// The bind-group layout of one effect: source texture and sampler first,
/// the outline's two prepass textures in between, the settings uniform last.
pub open spec fn spec_bind_group_layout(kind: EffectKind) -> Seq<BindingLayoutEntry> {
    match kind {
        EffectKind::ChromaticAberration => seq![
            BindingLayoutEntry::SourceColorTexture,
            BindingLayoutEntry::FilteringSampler,
            BindingLayoutEntry::DynamicUniformBuffer,
        ],
        EffectKind::Outline => seq![
            BindingLayoutEntry::SourceColorTexture,
            BindingLayoutEntry::FilteringSampler,
            BindingLayoutEntry::MultisampledDepthTexture,
            BindingLayoutEntry::MultisampledNormalTexture,
            BindingLayoutEntry::DynamicUniformBuffer,
        ],
        EffectKind::VolumetricNebula => seq![
            BindingLayoutEntry::SourceColorTexture,
            BindingLayoutEntry::FilteringSampler,
            BindingLayoutEntry::DynamicUniformBuffer,
        ],
    }
}

/// Returns the effect's bind-group layout in declaration order.
pub fn bind_group_layout(kind: EffectKind) -> (entries: Vec<BindingLayoutEntry>)
    ensures
        entries@ == spec_bind_group_layout(kind),
{
    let mut entries: Vec<BindingLayoutEntry> = Vec::new();
    entries.push(BindingLayoutEntry::SourceColorTexture);
    entries.push(BindingLayoutEntry::FilteringSampler);
    match kind {
        EffectKind::Outline => {
            entries.push(BindingLayoutEntry::MultisampledDepthTexture);
            entries.push(BindingLayoutEntry::MultisampledNormalTexture);
        },
        EffectKind::ChromaticAberration => {},
        EffectKind::VolumetricNebula => {},
    }
    entries.push(BindingLayoutEntry::DynamicUniformBuffer);
    proof {
        assert(entries@ =~= spec_bind_group_layout(kind));
    }
    entries
}

/// Whether the effect's shader reads the depth and normal prepass textures.
pub open spec fn spec_needs_prepass(kind: EffectKind) -> bool {
    kind is Outline
}

/// Returns whether the effect needs the depth and normal prepass textures.
#[verifier::when_used_as_spec(spec_needs_prepass)]
pub fn needs_prepass(kind: EffectKind) -> (b: bool)
    ensures
        b == spec_needs_prepass(kind),
{
    match kind {
        EffectKind::Outline => true,
        EffectKind::ChromaticAberration => false,
        EffectKind::VolumetricNebula => false,
    }
}

/// Everything one effect's render pipeline is built from, as plain data: the
/// effect (which names the fragment shader), the ordered bind-group layout,
/// and the fixed full-screen pass settings. The vertex stage is the shared
/// full-screen triangle; the host's GPU backend realizes this descriptor.
#[derive(Debug)]
pub struct PipelineDescriptor {
    /// The effect whose fragment shader the pipeline runs.
    pub kind: EffectKind,
    /// The bind-group layout, in the shader's declared order.
    pub bindings: Vec<BindingLayoutEntry>,
    /// The display's swap-chain format code the color target uses.
    pub target_format: u32,
    /// Whether the color target blends; effects overwrite, so never.
    pub blend_enabled: bool,
    /// Whether the full color write mask is used; always.
    pub write_mask_all: bool,
    /// Multisample count of the pass; post-processing runs single-sampled.
    pub sample_count: u32,
    /// Vertices of the shared full-screen vertex stage: one triangle.
    pub vertex_count: u32,
    /// Whether the pass has a depth-stencil attachment; never.
    pub has_depth_stencil: bool,
}

/// What a well-built descriptor for the given effect and display format says.
pub open spec fn descriptor_wf(d: PipelineDescriptor, kind: EffectKind, target_format: u32) -> bool {
    &&& d.kind == kind
    &&& d.bindings@ == spec_bind_group_layout(kind)
    &&& d.target_format == target_format
    &&& !d.blend_enabled
    &&& d.write_mask_all
    &&& d.sample_count == 1
    &&& d.vertex_count == 3
    &&& !d.has_depth_stencil
}

/// Builds the effect's full pipeline descriptor for the given display
/// format: ordered bind-group layout, shared full-screen triangle vertex
/// stage, no blending, full write mask, no depth-stencil, no multisampling.
pub fn build_descriptor(kind: EffectKind, target_format: u32) -> (d: PipelineDescriptor)
    ensures
        descriptor_wf(d, kind, target_format),
{
    PipelineDescriptor {
        kind,
        bindings: bind_group_layout(kind),
        target_format,
        blend_enabled: false,
        write_mask_all: true,
        sample_count: 1,
        vertex_count: 3,
        has_depth_stencil: false,
    }
}

/// Compilation state of one cached pipeline.
#[derive(Clone, Copy, Debug, PartialEq, Eq, Structural)]
pub enum PipelineState {
    /// Compilation was queued and has not started.
    Requested,
    /// The GPU backend is compiling.
    Compiling,
    /// The pipeline compiled and can be bound.
    Ready,
    /// Compilation failed; the pipeline will never become ready.
    Failed,
}

/// A compilation progress report handed back by the GPU backend.
#[derive(Clone, Copy, Debug, PartialEq, Eq, Structural)]
pub enum CompileEvent {
    /// Compilation began.
    Started,
    /// Compilation finished successfully.
    Succeeded,
    /// Compilation failed.
    Failed,
}

/// The state after observing one compilation event. Readiness is reached
/// only through success and never left; failure is permanent.
pub open spec fn spec_step(s: PipelineState, e: CompileEvent) -> PipelineState {
    match s {
        PipelineState::Ready => PipelineState::Ready,
        PipelineState::Failed => PipelineState::Failed,
        PipelineState::Requested => match e {
            CompileEvent::Started => PipelineState::Compiling,
            CompileEvent::Succeeded => PipelineState::Ready,
            CompileEvent::Failed => PipelineState::Failed,
        },
        PipelineState::Compiling => match e {
            CompileEvent::Started => PipelineState::Compiling,
            CompileEvent::Succeeded => PipelineState::Ready,
            CompileEvent::Failed => PipelineState::Failed,
        },
    }
}

/// Once ready, a pipeline stays ready whatever the backend reports later:
/// readiness is monotonic for the rest of the process.
pub proof fn lemma_ready_is_monotonic(s: PipelineState, e: CompileEvent)
    requires
        s is Ready,
    ensures
        spec_step(s, e) is Ready,
{
}

/// Once compilation failed, the pipeline never reports ready again: its
/// draws stay skipped instead of erroring.
pub proof fn lemma_failed_is_permanent(s: PipelineState, e: CompileEvent)
    requires
        s is Failed,
    ensures
        spec_step(s, e) is Failed,
{
}

/// One cached pipeline: its effect, its descriptor, built once, and the
/// current compilation state.
#[derive(Debug)]
pub struct CachedPipeline {
    pub kind: EffectKind,
    pub descriptor: PipelineDescriptor,
    pub state: PipelineState,
}

/// Whether some cached pipeline serves the given effect.
pub open spec fn has_pipeline(pipelines: Seq<CachedPipeline>, kind: EffectKind) -> bool {
    exists|i: int| 0 <= i < pipelines.len() && pipelines[i].kind == kind
}

/// Whether some cached pipeline serves the given effect and is ready to be
/// bound this frame.
pub open spec fn pipeline_ready_for(pipelines: Seq<CachedPipeline>, kind: EffectKind) -> bool {
    exists|h: int|
        0 <= h < pipelines.len() && #[trigger] pipelines[h].kind == kind && pipelines[h].state
            is Ready
}

/// The process-wide cache of effect pipelines: at most one per effect, each
/// alive for the rest of the process once requested.
#[derive(Debug)]
pub struct PipelineCache {
    /// The display's swap-chain format every effect pipeline targets.
    pub target_format: u32,
    pub pipelines: Vec<CachedPipeline>,
}

impl PipelineCache {
    /// Well-formed: one pipeline per effect at most, every descriptor built
    /// for its effect and the cache's display format.
    pub open spec fn wf(self) -> bool {
        &&& forall|i: int, j: int|
            0 <= i < j < self.pipelines@.len() ==> self.pipelines@[i].kind
                != self.pipelines@[j].kind
        &&& forall|i: int|
            0 <= i < self.pipelines@.len() ==> descriptor_wf(
                (#[trigger] self.pipelines@[i]).descriptor,
                self.pipelines@[i].kind,
                self.target_format,
            )
    }

    /// Creates an empty cache for the given display format.
    pub fn new(target_format: u32) -> (cache: PipelineCache)
        ensures
            cache.wf(),
            cache.target_format == target_format,
            cache.pipelines@.len() == 0,
    {
        PipelineCache { target_format, pipelines: Vec::new() }
    }

    /// Finds the handle of the effect's pipeline, if one was requested.
    pub fn find(&self, kind: EffectKind) -> (r: Option<usize>)
        ensures
            match r {
                Some(h) => h < self.pipelines@.len() && self.pipelines@[h as int].kind == kind,
                None => !has_pipeline(self.pipelines@, kind),
            },
    {
        let mut i: usize = 0;
        while i < self.pipelines.len()
            invariant
                i <= self.pipelines@.len(),
                forall|k: int| 0 <= k < i ==> #[trigger] self.pipelines@[k].kind != kind,
            decreases self.pipelines@.len() - i,
        {
            if self.pipelines[i].kind == kind {
                return Some(i);
            }
            i = i + 1;
        }
        None
    }

    /// Returns the effect's pipeline handle, requesting compilation of a
    /// freshly built descriptor on the first call; later calls return the
    /// same handle and never rebuild.
    pub fn get_or_create(&mut self, kind: EffectKind) -> (h: usize)
        requires
            old(self).wf(),
        ensures
            final(self).wf(),
            final(self).target_format == old(self).target_format,
            h < final(self).pipelines@.len(),
            final(self).pipelines@[h as int].kind == kind,
            has_pipeline(old(self).pipelines@, kind) ==> *final(self) == *old(self),
            !has_pipeline(old(self).pipelines@, kind) ==> {
                &&& h == old(self).pipelines@.len()
                &&& final(self).pipelines@.len() == old(self).pipelines@.len() + 1
                &&& final(self).pipelines@.subrange(0, h as int) == old(self).pipelines@
                &&& final(self).pipelines@[h as int].state is Requested
                &&& descriptor_wf(
                    final(self).pipelines@[h as int].descriptor,
                    kind,
                    old(self).target_format,
                )
            },
    {
        match self.find(kind) {
            Some(h) => h,
            None => {
                let h = self.pipelines.len();
                let descriptor = build_descriptor(kind, self.target_format);
                self.pipelines.push(
                    CachedPipeline { kind, descriptor, state: PipelineState::Requested },
                );
                proof {
                    assert(self.pipelines@.subrange(0, h as int) =~= old(self).pipelines@);
                }
                h
            },
        }
    }

    /// The compilation state of the pipeline behind the handle.
    pub fn state_of(&self, h: usize) -> (s: PipelineState)
        requires
            h < self.pipelines@.len(),
        ensures
            s == self.pipelines@[h as int].state,
    {
        self.pipelines[h].state
    }

    /// Whether the pipeline behind the handle can be bound this frame: true
    /// exactly in the ready state, so a pipeline still compiling reports
    /// not-ready.
    pub fn is_ready(&self, h: usize) -> (r: bool)
        requires
            h < self.pipelines@.len(),
        ensures
            r == (self.pipelines@[h as int].state is Ready),
    {
        match self.pipelines[h].state {
            PipelineState::Ready => true,
            PipelineState::Requested => false,
            PipelineState::Compiling => false,
            PipelineState::Failed => false,
        }
    }

    /// Observes one compilation event for the handle's pipeline, stepping
    /// its state machine; nothing else of the cache changes.
    pub fn observe(&mut self, h: usize, e: CompileEvent)
        requires
            old(self).wf(),
            h < old(self).pipelines@.len(),
        ensures
            final(self).wf(),
            final(self).target_format == old(self).target_format,
            final(self).pipelines@.len() == old(self).pipelines@.len(),
            final(self).pipelines@[h as int].kind == old(self).pipelines@[h as int].kind,
            final(self).pipelines@[h as int].descriptor == old(self).pipelines@[h as int].descriptor,
            final(self).pipelines@[h as int].state == spec_step(
                old(self).pipelines@[h as int].state,
                e,
            ),
            forall|i: int|
                0 <= i < old(self).pipelines@.len() && i != h ==> final(self).pipelines@[i] == old(
                    self,
                ).pipelines@[i],
    {
        let p = pipeline_at_mut(&mut self.pipelines, h);
        let next = match p.state {
            PipelineState::Ready => PipelineState::Ready,
            PipelineState::Failed => PipelineState::Failed,
            PipelineState::Requested => match e {
                CompileEvent::Started => PipelineState::Compiling,
                CompileEvent::Succeeded => PipelineState::Ready,
                CompileEvent::Failed => PipelineState::Failed,
            },
            PipelineState::Compiling => match e {
                CompileEvent::Started => PipelineState::Compiling,
                CompileEvent::Succeeded => PipelineState::Ready,
                CompileEvent::Failed => PipelineState::Failed,
            },
        };
        p.state = next;
    }
}

/// Borrows the cached pipeline behind one handle for in-place update.
fn pipeline_at_mut(pipelines: &mut Vec<CachedPipeline>, i: usize) -> (p: &mut CachedPipeline)
    requires
        i < old(pipelines).len(),
    ensures
        *p == old(pipelines)@[i as int],
        final(pipelines)@ == old(pipelines)@.update(i as int, *final(p)),
{
    &mut pipelines[i]
}

} // verus!
