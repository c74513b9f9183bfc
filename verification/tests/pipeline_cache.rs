//! Pipeline cache tests: one pipeline per effect, descriptor shape, and the
//! compilation state machine's monotonic readiness.

use postfx::pipeline::{
    bind_group_layout, BindingLayoutEntry, CompileEvent, PipelineCache, PipelineState,
};
use postfx::settings::EffectKind;

const SURFACE_FORMAT: u32 = 24; // an arbitrary swap-chain format code

#[test]
fn one_pipeline_per_effect_for_the_process_lifetime() {
    let mut cache = PipelineCache::new(SURFACE_FORMAT);
    let first = cache.get_or_create(EffectKind::Outline);
    let second = cache.get_or_create(EffectKind::Outline);
    assert_eq!(first, second);
    assert_eq!(cache.pipelines.len(), 1);
    let other = cache.get_or_create(EffectKind::VolumetricNebula);
    assert_ne!(first, other);
    assert_eq!(cache.pipelines.len(), 2);
}

#[test]
fn descriptors_declare_the_fixed_fullscreen_pass() {
    let mut cache = PipelineCache::new(SURFACE_FORMAT);
    for kind in [
        EffectKind::ChromaticAberration,
        EffectKind::Outline,
        EffectKind::VolumetricNebula,
    ] {
        let handle = cache.get_or_create(kind);
        let descriptor = &cache.pipelines[handle].descriptor;
        assert_eq!(descriptor.kind, kind);
        assert_eq!(descriptor.target_format, SURFACE_FORMAT);
        assert!(!descriptor.blend_enabled);
        assert!(descriptor.write_mask_all);
        assert_eq!(descriptor.sample_count, 1);
        assert_eq!(descriptor.vertex_count, 3);
        assert!(!descriptor.has_depth_stencil);
        assert_eq!(descriptor.bindings, bind_group_layout(kind));
    }
}

#[test]
fn bind_group_layouts_list_bindings_in_declaration_order() {
    assert_eq!(
        bind_group_layout(EffectKind::ChromaticAberration),
        vec![
            BindingLayoutEntry::SourceColorTexture,
            BindingLayoutEntry::FilteringSampler,
            BindingLayoutEntry::DynamicUniformBuffer,
        ],
    );
    assert_eq!(
        bind_group_layout(EffectKind::Outline),
        vec![
            BindingLayoutEntry::SourceColorTexture,
            BindingLayoutEntry::FilteringSampler,
            BindingLayoutEntry::MultisampledDepthTexture,
            BindingLayoutEntry::MultisampledNormalTexture,
            BindingLayoutEntry::DynamicUniformBuffer,
        ],
    );
    assert_eq!(
        bind_group_layout(EffectKind::VolumetricNebula),
        vec![
            BindingLayoutEntry::SourceColorTexture,
            BindingLayoutEntry::FilteringSampler,
            BindingLayoutEntry::DynamicUniformBuffer,
        ],
    );
}

#[test]
fn readiness_is_reached_once_and_never_left() {
    let mut cache = PipelineCache::new(SURFACE_FORMAT);
    let handle = cache.get_or_create(EffectKind::ChromaticAberration);
    // queried before compilation completes: not ready
    assert_eq!(cache.state_of(handle), PipelineState::Requested);
    assert!(!cache.is_ready(handle));
    cache.observe(handle, CompileEvent::Started);
    assert_eq!(cache.state_of(handle), PipelineState::Compiling);
    assert!(!cache.is_ready(handle));
    cache.observe(handle, CompileEvent::Succeeded);
    assert!(cache.is_ready(handle));
    // once ready, later reports never retract readiness
    for event in [CompileEvent::Started, CompileEvent::Failed, CompileEvent::Succeeded] {
        cache.observe(handle, event);
        assert!(cache.is_ready(handle));
        assert_eq!(cache.state_of(handle), PipelineState::Ready);
    }
}

#[test]
fn a_failed_compile_stays_not_ready_forever() {
    let mut cache = PipelineCache::new(SURFACE_FORMAT);
    let handle = cache.get_or_create(EffectKind::Outline);
    cache.observe(handle, CompileEvent::Started);
    cache.observe(handle, CompileEvent::Failed);
    assert_eq!(cache.state_of(handle), PipelineState::Failed);
    for event in [CompileEvent::Started, CompileEvent::Succeeded] {
        cache.observe(handle, event);
        assert!(!cache.is_ready(handle));
        assert_eq!(cache.state_of(handle), PipelineState::Failed);
    }
}
