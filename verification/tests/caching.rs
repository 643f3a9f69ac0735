use std::sync::Arc;

use wgsl_to_wgpu::binding::ConfigDefault;
use wgsl_to_wgpu::cache::{
    key_eq, ComputePipelineKey, LayoutCache, LayoutKey, PipelineCache, PipelineKey,
    RenderPipelineKey, VertexStepMode,
};

fn render_key(step: VertexStepMode, multiview: Option<u32>) -> PipelineKey {
    PipelineKey::Render(RenderPipelineKey {
        step_modes: vec![step],
        overrides: vec![1, 2],
        fixed_state: vec![7, 8, 9],
        fragment_entry: 0,
        targets: vec![4],
        multiview,
    })
}

/// Looks a key up and builds only when it is absent, counting builds.
fn get_or_build(
    cache: &mut PipelineCache<Arc<u64>>,
    key: &PipelineKey,
    builds: &mut u64,
) -> Arc<u64> {
    if let Some(i) = cache.lookup(key) {
        return cache.handle(i).clone();
    }
    *builds += 1;
    let handle = Arc::new(*builds);
    cache.insert(clone_key(key), handle.clone());
    handle
}

fn clone_key(key: &PipelineKey) -> PipelineKey {
    match key {
        PipelineKey::Render(r) => PipelineKey::Render(RenderPipelineKey {
            step_modes: r.step_modes.clone(),
            overrides: r.overrides.clone(),
            fixed_state: r.fixed_state.clone(),
            fragment_entry: r.fragment_entry,
            targets: r.targets.clone(),
            multiview: r.multiview,
        }),
        PipelineKey::Compute(c) => PipelineKey::Compute(ComputePipelineKey {
            overrides: c.overrides.clone(),
        }),
    }
}

#[test]
fn key_equality_is_structural() {
    let a = render_key(VertexStepMode::Vertex, Some(2));
    let b = render_key(VertexStepMode::Vertex, Some(2));
    let c = render_key(VertexStepMode::Instance, Some(2));
    let d = render_key(VertexStepMode::Vertex, None);
    assert!(key_eq(&a, &b));
    assert!(!key_eq(&a, &c));
    assert!(!key_eq(&a, &d));
    assert!(!key_eq(
        &a,
        &PipelineKey::Compute(ComputePipelineKey {
            overrides: vec![1, 2]
        })
    ));
}

#[test]
fn same_key_builds_once_and_shares_the_handle() {
    let mut cache: PipelineCache<Arc<u64>> = PipelineCache::new();
    let mut builds: u64 = 0;
    let key = render_key(VertexStepMode::Vertex, None);
    let first = get_or_build(&mut cache, &key, &mut builds);
    let second = get_or_build(&mut cache, &key, &mut builds);
    let third = get_or_build(&mut cache, &clone_key(&key), &mut builds);
    assert_eq!(1, builds);
    assert!(Arc::ptr_eq(&first, &second));
    assert!(Arc::ptr_eq(&first, &third));
}

#[test]
fn different_keys_build_distinct_objects() {
    let mut cache: PipelineCache<Arc<u64>> = PipelineCache::new();
    let mut builds: u64 = 0;
    let a = get_or_build(&mut cache, &render_key(VertexStepMode::Vertex, None), &mut builds);
    let b = get_or_build(
        &mut cache,
        &render_key(VertexStepMode::Instance, None),
        &mut builds,
    );
    let c = get_or_build(
        &mut cache,
        &PipelineKey::Compute(ComputePipelineKey { overrides: vec![] }),
        &mut builds,
    );
    assert_eq!(3, builds);
    assert!(!Arc::ptr_eq(&a, &b));
    assert!(!Arc::ptr_eq(&a, &c));
    assert!(!Arc::ptr_eq(&b, &c));
    // the earlier handles stay registered and are found again
    let a2 = get_or_build(&mut cache, &render_key(VertexStepMode::Vertex, None), &mut builds);
    assert_eq!(3, builds);
    assert!(Arc::ptr_eq(&a, &a2));
}

#[test]
fn layout_cache_keys_on_parameter_values() {
    let mut cache: LayoutCache<Arc<&'static str>> = LayoutCache::new();
    let filtering = LayoutKey {
        values: vec![ConfigDefault::Filterable(true)],
    };
    let non_filtering = LayoutKey {
        values: vec![ConfigDefault::Filterable(false)],
    };
    assert!(cache.lookup(&filtering).is_none());
    cache.insert(
        LayoutKey {
            values: filtering.values.clone(),
        },
        Arc::new("filtering"),
    );
    let i = cache.lookup(&filtering).expect("key present after insert");
    assert_eq!("filtering", **cache.handle(i));
    assert!(cache.lookup(&non_filtering).is_none());
    cache.insert(
        LayoutKey {
            values: non_filtering.values.clone(),
        },
        Arc::new("non_filtering"),
    );
    let i1 = cache.lookup(&filtering).unwrap();
    let i2 = cache.lookup(&non_filtering).unwrap();
    assert_ne!(i1, i2);
}
