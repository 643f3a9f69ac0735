//! Pipeline construction contracts.
//!
//! For each vertex entry point a render-pipeline description, for each
//! compute entry point a compute-pipeline description, and for the shader
//! as a whole the shape of the pipeline-layout cache key: the configurable
//! parameters of all participating bind groups. Each pipeline description
//! names its configuration-key type and, for the vertex stage, the
//! per-input step-mode parameters that key carries.
use vstd::prelude::*;
use vstd::string::StringExecFns;

use crate::bindgroup::BindGroup;
use crate::binding::ConfigParam;
use crate::entry::{entry_args_named, spec_vertex_entry_structs, VertexInput};
use crate::module::{EntryPoint, ShaderModule, ShaderStages, Type, TypeInner, WorkgroupSize};
use crate::vertex::{lemma_filter_take_step, lemma_take_one_more};

verus! {

/// The generated description of one render pipeline: the vertex entry
/// point, the name of its configuration-key type, the vertex-input
/// structs it consumes, and the step-mode parameter owed for each.
#[derive(Clone, Debug, PartialEq, Eq)]
pub struct RenderPipelineDef {
    pub name: String,
    pub key_name: String,
    pub vertex_inputs: Vec<VertexInput>,
    pub step_params: Vec<String>,
}

/// The generated description of one compute pipeline: the compute entry
/// point, the name of its configuration-key type, and the fixed
/// workgroup size.
#[derive(Clone, Debug, PartialEq, Eq)]
pub struct ComputePipelineDef {
    pub name: String,
    pub key_name: String,
    pub workgroup_size: WorkgroupSize,
}

/// One pipeline description, in entry-point order.
#[derive(Clone, Debug, PartialEq, Eq)]
pub enum PipelineDef {
    Render(RenderPipelineDef),
    Compute(ComputePipelineDef),
}

/// The shape of the pipeline-layout cache key: one configurable
/// parameter per knob of every participating bind group, in group order,
/// and the participating group indices.
#[derive(Clone, Debug, PartialEq, Eq)]
pub struct PipelineLayoutKeyShape {
    pub params: Vec<ConfigParam>,
    pub group_indices: Vec<u32>,
}

/// A push-constant range exposed by the pipeline layout.
#[derive(Clone, Copy, Debug, PartialEq, Eq, Structural)]
pub struct PushConstantRange {
    pub stages: ShaderStages,
    pub start: u32,
    pub end: u32,
}

/// The full pipeline-construction description of a shader module: its
/// pipeline definitions and the bind-group layout list they share.
#[derive(Clone, Debug, PartialEq, Eq)]
pub struct PipelineLayoutPlan {
    pub pipelines: Vec<PipelineDef>,
    pub group_indices: Vec<u32>,
}

/// The shader-level description: the pipeline-layout cache key shape and
/// the push-constant range handed through to layout construction.
#[derive(Clone, Debug, PartialEq, Eq)]
pub struct ShaderPlan {
    pub layout_key: PipelineLayoutKeyShape,
    pub push_constant_range: Option<PushConstantRange>,
}

/// Fixed workgroup size of a compute entry point.
pub fn workgroup_size(e: &EntryPoint) -> (r: WorkgroupSize)
    ensures
        r == e.workgroup_size,
{
    e.workgroup_size
}

/// Names the configuration-key type of an entry point's pipeline and
/// lists the step-mode parameter owed for each vertex input.
pub fn define_render_pipeline_key(entry_name: &String, inputs: &Vec<VertexInput>) -> (r: (
    String,
    Vec<String>,
))
    ensures
        r.0@ == "PipelineKey_"@ + entry_name@,
        r.1@.len() == inputs@.len(),
        forall|k: int|
            0 <= k < inputs@.len() ==> (#[trigger] r.1@[k])@ == inputs@[k].name@
                + "_step_mode"@,
{
    let key_name = String::from_str("PipelineKey_").concat(entry_name.as_str());
    let n = inputs.len();
    let mut step_params: Vec<String> = Vec::new();
    let mut i: usize = 0;
    while i < n
        invariant
            i <= n,
            n == inputs@.len(),
            step_params@.len() == i,
            forall|k: int|
                0 <= k < i ==> (#[trigger] step_params@[k])@ == inputs@[k].name@
                    + "_step_mode"@,
        decreases n - i,
    {
        step_params.push(inputs[i].name.clone().concat("_step_mode"));
        i += 1;
    }
    (key_name, step_params)
}

/// Names the configuration-key type of a compute entry point's pipeline.
pub fn define_compute_pipeline_key(entry_name: &String) -> (r: String)
    ensures
        r@ == "PipelineKey_"@ + entry_name@,
{
    String::from_str("PipelineKey_").concat(entry_name.as_str())
}

/// The render-pipeline description covers the vertex entry point: its
/// name, its key-type name, its distinct vertex inputs and one step-mode
/// parameter per input.
pub open spec fn render_def_matches(types: Seq<Type>, e: EntryPoint, d: RenderPipelineDef) -> bool {
    &&& d.name == e.name
    &&& d.key_name@ == "PipelineKey_"@ + e.name@
    &&& d.vertex_inputs@ == spec_vertex_entry_structs(e.args@, types)
    &&& d.step_params@.len() == d.vertex_inputs@.len()
    &&& forall|k: int|
        0 <= k < d.vertex_inputs@.len() ==> (#[trigger] d.step_params@[k])@
            == d.vertex_inputs@[k].name@ + "_step_mode"@
}

/// The compute-pipeline description covers the compute entry point.
pub open spec fn compute_def_matches(e: EntryPoint, d: ComputePipelineDef) -> bool {
    &&& d.name == e.name
    &&& d.key_name@ == "PipelineKey_"@ + e.name@
    &&& d.workgroup_size == e.workgroup_size
}

/// Builds the render-pipeline description of one vertex entry point.
pub fn define_create_render_pipeline(module: &ShaderModule, entry: &EntryPoint) -> (r:
    RenderPipelineDef)
    requires
        entry_args_named(entry.args@, module.types@),
    ensures
        render_def_matches(module.types@, *entry, r),
{
    let vertex_inputs = crate::entry::vertex_entry_structs(entry, module);
    let (key_name, step_params) = define_render_pipeline_key(&entry.name, &vertex_inputs);
    RenderPipelineDef { name: entry.name.clone(), key_name, vertex_inputs, step_params }
}

/// Builds the compute-pipeline description of one compute entry point.
pub fn define_create_compute_pipeline(entry: &EntryPoint) -> (r: ComputePipelineDef)
    ensures
        compute_def_matches(*entry, r),
{
    let key_name = define_compute_pipeline_key(&entry.name);
    ComputePipelineDef {
        name: entry.name.clone(),
        key_name,
        workgroup_size: workgroup_size(entry),
    }
}

/// The entry point gets a pipeline: it is a vertex or compute entry.
pub open spec fn is_pipeline_entry(e: EntryPoint) -> bool {
    e.stage is Vertex || e.stage is Compute
}

/// The module's pipeline-bearing entry points, in declaration order.
pub open spec fn pipeline_entries(entries: Seq<EntryPoint>) -> Seq<EntryPoint> {
    entries.filter(|e: EntryPoint| is_pipeline_entry(e))
}

/// The description matches the entry point, by stage.
pub open spec fn pipeline_def_matches(types: Seq<Type>, e: EntryPoint, d: PipelineDef) -> bool {
    match d {
        PipelineDef::Render(rd) => e.stage is Vertex && render_def_matches(types, e, rd),
        PipelineDef::Compute(cd) => e.stage is Compute && compute_def_matches(e, cd),
    }
}

/// Every vertex entry point's struct-typed arguments are named.
pub open spec fn module_args_named(m: ShaderModule) -> bool {
    forall|k: int|
        0 <= k < m.entry_points@.len() && (#[trigger] m.entry_points@[k]).stage is Vertex
            ==> entry_args_named(m.entry_points@[k].args@, m.types@)
}

/// Checks that every vertex entry point's struct-typed arguments are
/// named.
#[verifier::loop_isolation(false)]
pub fn args_named(module: &ShaderModule) -> (b: bool)
    ensures
        b == module_args_named(*module),
{
    let n = module.entry_points.len();
    let mut i: usize = 0;
    while i < n
        invariant
            i <= n,
            n == module.entry_points@.len(),
            forall|k: int|
                0 <= k < i && (#[trigger] module.entry_points@[k]).stage is Vertex
                    ==> entry_args_named(module.entry_points@[k].args@, module.types@),
        decreases n - i,
    {
        let e = &module.entry_points[i];
        if let crate::module::ShaderStage::Vertex = e.stage {
            let na = e.args.len();
            let mut j: usize = 0;
            while j < na
                invariant
                    j <= na,
                    i < module.entry_points@.len(),
                    na == e.args@.len(),
                    e.args@ == module.entry_points@[i as int].args@,
                    forall|k: int|
                        0 <= k < j && (#[trigger] e.args@[k]).ty < module.types@.len()
                            && module.types@[e.args@[k].ty as int].inner is Struct
                            ==> e.args@[k].name is Some,
                decreases na - j,
            {
                let a = &e.args[j];
                if a.ty < module.types.len() {
                    let is_struct = match &module.types[a.ty].inner {
                        TypeInner::Struct { .. } => true,
                        _ => false,
                    };
                    if is_struct && a.name.is_none() {
                        proof {
                            let args = module.entry_points@[i as int].args@;
                            assert(args[j as int].ty < module.types@.len());
                            assert(module.types@[args[j as int].ty as int].inner is Struct);
                            assert(args[j as int].name is None);
                            assert(!entry_args_named(args, module.types@));
                            assert(module.entry_points@[i as int].stage is Vertex);
                            assert(!module_args_named(*module));
                        }
                        return false;
                    }
                }
                j += 1;
            }
        }
        i += 1;
    }
    true
}

/// Builds the pipeline-construction description: one definition per
/// vertex or compute entry point, in declaration order, over the shared
/// bind-group layout list.
#[verifier::loop_isolation(false)]
pub fn define_pipeline_layout(module: &ShaderModule, bind_groups: &Vec<BindGroup>) -> (r:
    PipelineLayoutPlan)
    requires
        module_args_named(*module),
    ensures
        r.pipelines@.len() == pipeline_entries(module.entry_points@).len(),
        forall|k: int|
            0 <= k < r.pipelines@.len() ==> pipeline_def_matches(
                module.types@,
                pipeline_entries(module.entry_points@)[k],
                #[trigger] r.pipelines@[k],
            ),
        r.group_indices@.len() == bind_groups@.len(),
        forall|k: int|
            0 <= k < bind_groups@.len() ==> #[trigger] r.group_indices@[k]
                == bind_groups@[k].group_index,
{
    let ghost entries = module.entry_points@;
    let n = module.entry_points.len();
    let mut pipelines: Vec<PipelineDef> = Vec::new();
    let mut i: usize = 0;
    while i < n
        invariant
            i <= n,
            pipelines@.len() == pipeline_entries(entries.take(i as int)).len(),
            forall|k: int|
                0 <= k < pipelines@.len() ==> pipeline_def_matches(
                    module.types@,
                    pipeline_entries(entries.take(i as int))[k],
                    #[trigger] pipelines@[k],
                ),
        decreases n - i,
    {
        proof {
            lemma_filter_take_step(entries, i as int, |e: EntryPoint| is_pipeline_entry(e));
        }
        let e = &module.entry_points[i];
        match e.stage {
            crate::module::ShaderStage::Vertex => {
                let d = define_create_render_pipeline(module, e);
                pipelines.push(PipelineDef::Render(d));
            },
            crate::module::ShaderStage::Compute => {
                let d = define_create_compute_pipeline(e);
                pipelines.push(PipelineDef::Compute(d));
            },
            crate::module::ShaderStage::Fragment => {},
        }
        i += 1;
    }
    proof {
        assert(entries.take(n as int) =~= entries);
    }
    let ng = bind_groups.len();
    let mut group_indices: Vec<u32> = Vec::new();
    let mut g: usize = 0;
    while g < ng
        invariant
            group_indices@.len() == g,
            g <= ng,
            forall|k: int|
                0 <= k < g ==> #[trigger] group_indices@[k] == bind_groups@[k].group_index,
        decreases ng - g,
    {
        group_indices.push(bind_groups[g].group_index);
        g += 1;
    }
    PipelineLayoutPlan { pipelines, group_indices }
}

/// The flattened configurable parameters of all bind groups, in group
/// order.
pub open spec fn spec_concat_params(bgs: Seq<BindGroup>) -> Seq<ConfigParam>
    decreases bgs.len(),
{
    if bgs.len() == 0 {
        Seq::empty()
    } else {
        spec_concat_params(bgs.drop_last()) + bgs.last().new_args@
    }
}

proof fn lemma_concat_params_take_step(bgs: Seq<BindGroup>, i: int)
    requires
        0 <= i < bgs.len(),
    ensures
        spec_concat_params(bgs.take(i + 1)) == spec_concat_params(bgs.take(i)) + bgs[i].new_args@,
{
    lemma_take_one_more(bgs, i);
    assert(bgs.take(i + 1).drop_last() == bgs.take(i));
    reveal_with_fuel(spec_concat_params, 2);
}

/// Clones one configurable parameter.
fn clone_param(p: &ConfigParam) -> (r: ConfigParam)
    ensures
        r == *p,
{
    ConfigParam { name: p.name.clone(), default: p.default }
}

/// Builds the pipeline-layout cache key shape: the configurable
/// parameters of all bind groups, flattened in group order, beside the
/// participating group indices. Identical parameter values select the
/// same cached layout.
#[verifier::loop_isolation(false)]
pub fn define_create_pipeline_layout(bind_groups: &Vec<BindGroup>) -> (r: PipelineLayoutKeyShape)
    ensures
        r.params@ == spec_concat_params(bind_groups@),
        r.group_indices@.len() == bind_groups@.len(),
        forall|k: int|
            0 <= k < bind_groups@.len() ==> #[trigger] r.group_indices@[k]
                == bind_groups@[k].group_index,
{
    let n = bind_groups.len();
    let mut params: Vec<ConfigParam> = Vec::new();
    let mut group_indices: Vec<u32> = Vec::new();
    let mut i: usize = 0;
    while i < n
        invariant
            i <= n,
            params@ == spec_concat_params(bind_groups@.take(i as int)),
            group_indices@.len() == i,
            forall|k: int|
                0 <= k < i ==> #[trigger] group_indices@[k] == bind_groups@[k].group_index,
        decreases n - i,
    {
        proof {
            lemma_concat_params_take_step(bind_groups@, i as int);
        }
        let bg = &bind_groups[i];
        let m = bg.new_args.len();
        let ghost pre = params@;
        let mut j: usize = 0;
        while j < m
            invariant
                j <= m,
                i < bind_groups@.len(),
                m == bind_groups@[i as int].new_args@.len(),
                bg.new_args@ == bind_groups@[i as int].new_args@,
                params@ == pre + bind_groups@[i as int].new_args@.take(j as int),
            decreases m - j,
        {
            params.push(clone_param(&bg.new_args[j]));
            proof {
                assert(pre + bg.new_args@.take(j as int) + seq![bg.new_args@[j as int]] =~= pre
                    + bg.new_args@.take(j as int + 1));
            }
            j += 1;
        }
        proof {
            assert(bg.new_args@.take(m as int) =~= bg.new_args@);
        }
        group_indices.push(bg.group_index);
        i += 1;
    }
    proof {
        assert(bind_groups@.take(n as int) =~= bind_groups@);
    }
    PipelineLayoutKeyShape { params, group_indices }
}

/// Builds the shader-level description: the pipeline-layout cache key
/// shape over all bind groups, and the push-constant range the layout
/// exposes.
pub fn define_shader(
    module: &ShaderModule,
    bind_groups: &Vec<BindGroup>,
    push_constant_range: Option<PushConstantRange>,
) -> (r: ShaderPlan)
    ensures
        r.layout_key.params@ == spec_concat_params(bind_groups@),
        r.layout_key.group_indices@.len() == bind_groups@.len(),
        forall|k: int|
            0 <= k < bind_groups@.len() ==> #[trigger] r.layout_key.group_indices@[k]
                == bind_groups@[k].group_index,
        r.push_constant_range == push_constant_range,
{
    let layout_key = define_create_pipeline_layout(bind_groups);
    let _ = module;
    ShaderPlan { layout_key, push_constant_range }
}

} // verus!
