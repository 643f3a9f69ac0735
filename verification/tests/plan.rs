use wgsl_to_wgpu::create_shader_plan;
use wgsl_to_wgpu::module::{
    AddressSpace, Binding, EntryPoint, FunctionArgument, FunctionResult, GlobalVariable,
    ResourceBinding, Scalar, ScalarKind, ShaderModule, ShaderStage, ShaderStages, StructMember,
    Type, TypeInner, VectorSize, WorkgroupSize,
};
use wgsl_to_wgpu::pipeline::PipelineDef;
use wgsl_to_wgpu::{CreateModuleError, GenerateError, MappingError};

const VERTEX_FRAGMENT: ShaderStages = ShaderStages {
    vertex: true,
    fragment: true,
    compute: false,
};

/// A full module: one uniform buffer and one texture over two groups, a
/// vertex entry consuming one input struct, and a fragment entry with
/// one render target.
fn full_module() -> ShaderModule {
    ShaderModule {
        types: vec![
            // 0: vec4<f32>
            Type {
                name: None,
                inner: TypeInner::Vector {
                    size: VectorSize::Quad,
                    scalar: Scalar {
                        kind: ScalarKind::Float,
                        width: 4,
                    },
                },
            },
            // 1: sampled float texture
            Type {
                name: None,
                inner: TypeInner::Image {
                    dim: wgsl_to_wgpu::module::ImageDimension::D2,
                    arrayed: false,
                    class: wgsl_to_wgpu::module::ImageClass::Sampled {
                        kind: ScalarKind::Float,
                        multi: false,
                    },
                },
            },
            // 2: the vertex input struct
            Type {
                name: Some("VertexInput0".to_string()),
                inner: TypeInner::Struct {
                    members: vec![
                        StructMember {
                            name: Some("position".to_string()),
                            ty: 0,
                            binding: Some(Binding::Location { location: 0 }),
                        },
                        StructMember {
                            name: Some("color".to_string()),
                            ty: 0,
                            binding: Some(Binding::Location { location: 1 }),
                        },
                    ],
                },
            },
        ],
        global_variables: vec![
            GlobalVariable {
                name: Some("transforms".to_string()),
                space: AddressSpace::Uniform,
                binding: Some(ResourceBinding {
                    group: 0,
                    binding: 0,
                }),
                ty: 0,
            },
            GlobalVariable {
                name: Some("color_texture".to_string()),
                space: AddressSpace::Handle,
                binding: Some(ResourceBinding {
                    group: 1,
                    binding: 0,
                }),
                ty: 1,
            },
        ],
        entry_points: vec![
            EntryPoint {
                name: "vs_main".to_string(),
                stage: ShaderStage::Vertex,
                workgroup_size: WorkgroupSize { x: 0, y: 0, z: 0 },
                args: vec![FunctionArgument {
                    name: Some("input0".to_string()),
                    ty: 2,
                    binding: None,
                }],
                result: None,
            },
            EntryPoint {
                name: "fs_main".to_string(),
                stage: ShaderStage::Fragment,
                workgroup_size: WorkgroupSize { x: 0, y: 0, z: 0 },
                args: Vec::new(),
                result: Some(FunctionResult {
                    ty: 0,
                    binding: Some(Binding::Location { location: 0 }),
                }),
            },
        ],
    }
}

#[test]
fn full_plan_covers_every_component() {
    let module = full_module();
    assert!(module.check_wf());
    let plan = create_shader_plan(&module, VERTEX_FRAGMENT, None).unwrap();

    assert_eq!(2, plan.bind_group_data.len());
    assert_eq!(2, plan.bind_group_plans.len());
    assert_eq!(2, plan.bind_groups.len());
    assert_eq!("color_texture_filterable", plan.bind_groups[1].new_args[0].name);

    assert_eq!(1, plan.vertex_layouts.len());
    assert_eq!("VertexInput0", plan.vertex_layouts[0].struct_name);
    assert_eq!(
        vec![0, 16],
        plan.vertex_layouts[0]
            .attributes
            .iter()
            .map(|a| a.offset)
            .collect::<Vec<u64>>()
    );

    assert_eq!(1, plan.fragment_entries.len());
    assert_eq!("fs_main", plan.fragment_entries[0].name);
    assert_eq!(1, plan.fragment_entries[0].target_count);

    assert_eq!(1, plan.pipeline_layout.pipelines.len());
    match &plan.pipeline_layout.pipelines[0] {
        PipelineDef::Render(rd) => {
            assert_eq!("vs_main", rd.name);
            assert_eq!(vec!["input0_step_mode".to_string()], rd.step_params);
        }
        PipelineDef::Compute(_) => panic!("expected a render pipeline"),
    }

    // the pipeline-layout cache key carries the texture's knob
    assert_eq!(1, plan.shader.layout_key.params.len());
    assert_eq!(
        "color_texture_filterable",
        plan.shader.layout_key.params[0].name
    );
    assert_eq!(None, plan.shader.push_constant_range);
}

#[test]
fn full_plan_surfaces_extraction_errors() {
    let mut module = full_module();
    module.global_variables[1].binding = Some(ResourceBinding {
        group: 2,
        binding: 0,
    });
    assert!(matches!(
        create_shader_plan(&module, VERTEX_FRAGMENT, None),
        Err(GenerateError::Extraction(
            CreateModuleError::NonConsecutiveBindGroups
        ))
    ));
}

#[test]
fn full_plan_surfaces_mapping_errors() {
    let mut module = full_module();
    module.types.push(Type {
        name: None,
        inner: TypeInner::Other,
    });
    module.global_variables[1].ty = 3;
    assert!(matches!(
        create_shader_plan(&module, VERTEX_FRAGMENT, None),
        Err(GenerateError::Mapping(
            MappingError::UnsupportedResourceType {
                group: 1,
                binding: 0
            }
        ))
    ));
}

#[test]
fn full_plan_regenerates_identically() {
    let module = full_module();
    let first = create_shader_plan(&module, VERTEX_FRAGMENT, None).unwrap();
    let second = create_shader_plan(&module, VERTEX_FRAGMENT, None).unwrap();
    assert_eq!(first.bind_group_data, second.bind_group_data);
    assert_eq!(first.bind_group_plans, second.bind_group_plans);
    assert_eq!(first.bind_groups, second.bind_groups);
    assert_eq!(first.vertex_layouts, second.vertex_layouts);
    assert_eq!(first.fragment_entries, second.fragment_entries);
    assert_eq!(first.pipeline_layout, second.pipeline_layout);
    assert_eq!(first.shader, second.shader);
}
