//! Reflection-to-binding compiler for WebGPU-style shader modules.
//!
//! Given the reflection data of a compiled shader module (its resource
//! bindings, entry points, vertex inputs and override constants), this crate
//! derives the structured intermediate form from which a strongly typed
//! wrapper API is emitted: per bind group a layout and accessor description,
//! per vertex-input struct an attribute layout with natural-alignment
//! offsets, per entry point a pipeline-construction key shape, and a keyed
//! memoization discipline for pipeline and pipeline-layout objects.
//!
//! Parsing shader source into the reflection model, rendering the
//! intermediate form into source text, and constructing device objects are
//! external collaborators and are out of scope here.
use vstd::prelude::*;

pub mod binding;
pub mod bindgroup;
pub mod cache;
pub mod entry;
pub mod module;
pub mod pipeline;
pub mod vertex;

verus! {

/// Validation failure while extracting a module's bind group layout.
#[derive(Clone, Copy, Debug, PartialEq, Eq, Structural)]
pub enum CreateModuleError {
    /// Two resources declare the same binding index within one group.
    DuplicateBinding { binding: u32 },
    /// The group indices present are not exactly `0..N`.
    NonConsecutiveBindGroups,
}

/// Failure while mapping one resource binding onto the target API's
/// closed vocabulary of binding descriptors.
#[derive(Clone, Copy, Debug, PartialEq, Eq, Structural)]
pub enum MappingError {
    /// The resource's value type falls outside the supported mapping table.
    UnsupportedResourceType { group: u32, binding: u32 },
    /// The image's (dimension, arrayed) pair has no target equivalent.
    UnsupportedImageDimension { group: u32, binding: u32 },
}

/// Why a whole generation run failed: extraction rejected the module's
/// grouping, or mapping rejected one resource's type.
#[derive(Clone, Copy, Debug, PartialEq, Eq, Structural)]
pub enum GenerateError {
    Extraction(CreateModuleError),
    Mapping(MappingError),
}

/// The structured intermediate output of one generation run: the
/// validated grouping, each group's layout and accessor description, the
/// vertex-input attribute layouts, the fragment target arities, the
/// pipeline definitions, and the shader-level layout key shape. All of
/// it is derived once, synchronously, as a pure view over the module.
pub struct ShaderModulePlan {
    pub bind_group_data: Vec<bindgroup::GroupData>,
    pub bind_group_plans: Vec<bindgroup::BindGroupPlan>,
    pub bind_groups: Vec<bindgroup::BindGroup>,
    pub vertex_layouts: Vec<vertex::VertexStructLayout>,
    pub fragment_entries: Vec<entry::FragmentEntryDesc>,
    pub pipeline_layout: pipeline::PipelineLayoutPlan,
    pub shader: pipeline::ShaderPlan,
}

/// Runs the whole reflection-to-binding compiler over one module.
///
/// Succeeds exactly when extraction and mapping succeed; each part of
/// the result satisfies its stage's contract against the module. Errors
/// surface as values naming the offending resource, never as a panic;
/// a mapping failure names an annotated global whose type the mapper
/// cannot represent.
#[verifier::rlimit(30)]
pub fn create_shader_plan(
    module: &module::ShaderModule,
    shader_stages: module::ShaderStages,
    push_constant_range: Option<pipeline::PushConstantRange>,
) -> (r: Result<ShaderModulePlan, GenerateError>)
    requires
        module.wf(),
        bindgroup::module_resources_named(*module),
        pipeline::module_args_named(*module),
        entry::spec_vertex_layouts_supported(*module),
    ensures
        match r {
            Ok(plan) => {
                let globals = module.global_variables@;
                let types = module.types@;
                &&& !bindgroup::has_duplicate(globals)
                &&& bindgroup::groups_contiguous(globals)
                &&& forall|g: u32|
                    #[trigger] bindgroup::group_present(globals, g, globals.len() as int) <==> (
                    g as int) < plan.bind_group_data@.len()
                &&& bindgroup::group_complete(
                    globals,
                    plan.bind_group_data@,
                    globals.len() as int,
                )
                &&& bindgroup::group_sound(globals, plan.bind_group_data@, globals.len() as int)
                &&& forall|g: int|
                    0 <= g < plan.bind_group_data@.len() ==> bindgroup::group_sorted(
                        #[trigger] plan.bind_group_data@[g],
                    )
                &&& plan.bind_group_plans@.len() == plan.bind_group_data@.len()
                &&& plan.bind_groups@.len() == plan.bind_group_data@.len()
                &&& forall|g: int|
                    0 <= g < plan.bind_group_data@.len() ==> bindgroup::group_plan_matches(
                        types,
                        shader_stages,
                        g as u32,
                        plan.bind_group_data@[g],
                        #[trigger] plan.bind_group_plans@[g],
                    )
                &&& forall|g: int|
                    0 <= g < plan.bind_group_data@.len() ==> bindgroup::bind_group_matches(
                        types,
                        g as u32,
                        plan.bind_group_data@[g],
                        #[trigger] plan.bind_groups@[g],
                    )
                &&& plan.vertex_layouts@.len() == entry::spec_vertex_input_types(
                    module.entry_points@,
                    types,
                ).len()
                &&& forall|k: int|
                    0 <= k < plan.vertex_layouts@.len() ==> vertex::layout_matches(
                        types,
                        entry::spec_vertex_input_types(module.entry_points@, types)[k] as int,
                        #[trigger] plan.vertex_layouts@[k],
                    )
                &&& plan.fragment_entries@.len() == entry::fragment_entries(
                    module.entry_points@,
                ).len()
                &&& forall|k: int|
                    0 <= k < plan.fragment_entries@.len() ==> {
                        let e = entry::fragment_entries(module.entry_points@)[k];
                        &&& (#[trigger] plan.fragment_entries@[k]).name == e.name
                        &&& plan.fragment_entries@[k].target_count
                            == entry::spec_fragment_target_count(types, e.result)
                    }
                &&& plan.pipeline_layout.pipelines@.len() == pipeline::pipeline_entries(
                    module.entry_points@,
                ).len()
                &&& forall|k: int|
                    0 <= k < plan.pipeline_layout.pipelines@.len()
                        ==> pipeline::pipeline_def_matches(
                        types,
                        pipeline::pipeline_entries(module.entry_points@)[k],
                        #[trigger] plan.pipeline_layout.pipelines@[k],
                    )
                &&& plan.pipeline_layout.group_indices@.len() == plan.bind_groups@.len()
                &&& forall|k: int|
                    0 <= k < plan.bind_groups@.len()
                        ==> #[trigger] plan.pipeline_layout.group_indices@[k]
                        == plan.bind_groups@[k].group_index
                &&& plan.shader.layout_key.params@ == pipeline::spec_concat_params(
                    plan.bind_groups@,
                )
                &&& plan.shader.push_constant_range == push_constant_range
            },
            Err(GenerateError::Extraction(e)) => {
                let globals = module.global_variables@;
                match e {
                    CreateModuleError::DuplicateBinding { .. } => bindgroup::has_duplicate(
                        globals,
                    ),
                    CreateModuleError::NonConsecutiveBindGroups => {
                        &&& !bindgroup::has_duplicate(globals)
                        &&& !bindgroup::groups_contiguous(globals)
                    },
                }
            },
            Err(GenerateError::Mapping(e)) => exists|i: int|
                {
                    &&& 0 <= i < module.global_variables@.len()
                    &&& bindgroup::annotated(#[trigger] module.global_variables@[i])
                    &&& binding::spec_binding_type(
                        module.types@[module.global_variables@[i].ty as int].inner,
                        module.global_variables@[i].space,
                        bindgroup::coords(module.global_variables@[i]).group,
                        bindgroup::coords(module.global_variables@[i]).binding,
                    ) == Err::<binding::BindingType, MappingError>(e)
                },
        },
{
    let bind_group_data = match bindgroup::get_bind_group_data(module) {
        Ok(groups) => groups,
        Err(e) => {
            proof {
                if e is DuplicateBinding {
                    let globals = module.global_variables@;
                    let j = choose|j: int|
                        {
                            &&& 0 <= j < globals.len()
                            &&& #[trigger] bindgroup::collides_at(globals, j)
                            &&& bindgroup::annotated(globals[j])
                            &&& bindgroup::coords(globals[j]).binding == e->DuplicateBinding_binding
                            &&& forall|j2: int|
                                0 <= j2 < j ==> !bindgroup::collides_at(globals, j2)
                        };
                    let i = choose|i: int|
                        0 <= i < j && bindgroup::same_coords(globals[i], globals[j]);
                    assert(bindgroup::dup_within(globals, globals.len() as int));
                }
            }
            return Err(GenerateError::Extraction(e));
        },
    };
    proof {
        bindgroup::lemma_extracted_groups_types_wf(*module, bind_group_data@);
        bindgroup::lemma_extracted_groups_named(*module, bind_group_data@);
    }
    let (bind_group_plans, bind_groups) = match bindgroup::bind_groups_module(
        module,
        &bind_group_data,
        shader_stages,
    ) {
        Ok(pair) => pair,
        Err(e) => {
            proof {
                let globals = module.global_variables@;
                let (g, k) = choose|g: int, k: int|
                    0 <= g < bind_group_data@.len() && 0 <= k < (
                    #[trigger] bind_group_data@[g]).bindings@.len() && binding::spec_binding_type(
                        module.types@[(#[trigger] bind_group_data@[g].bindings@[k]).ty as int].inner,
                        bind_group_data@[g].bindings@[k].address_space,
                        g as u32,
                        bind_group_data@[g].bindings@[k].binding_index,
                    ) == Err::<binding::BindingType, MappingError>(e);
                assert(bindgroup::record_from_group(globals, globals.len() as int, g, bind_group_data@[g].bindings@[k]));
                let i = choose|i: int|
                    0 <= i < globals.len() && bindgroup::annotated(globals[i])
                        && bindgroup::coords(globals[i]).group == g && bindgroup::record_of(
                        globals[i],
                    ) == bind_group_data@[g].bindings@[k];
                assert(bindgroup::coords(globals[i]).group == g as u32);
                assert(binding::spec_binding_type(
                    module.types@[globals[i].ty as int].inner,
                    globals[i].space,
                    bindgroup::coords(globals[i]).group,
                    bindgroup::coords(globals[i]).binding,
                ) == Err::<binding::BindingType, MappingError>(e));
            }
            return Err(GenerateError::Mapping(e));
        },
    };
    let vertex_layouts = entry::vertex_struct_methods(module);
    let fragment_entries = entry::entry_point_constants(module);
    let pipeline_layout = pipeline::define_pipeline_layout(module, &bind_groups);
    let shader = pipeline::define_shader(module, &bind_groups, push_constant_range);
    Ok(
        ShaderModulePlan {
            bind_group_data,
            bind_group_plans,
            bind_groups,
            vertex_layouts,
            fragment_entries,
            pipeline_layout,
            shader,
        },
    )
}

} // verus!
