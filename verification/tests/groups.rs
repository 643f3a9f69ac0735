use wgsl_to_wgpu::bindgroup::{bind_groups_module, get_bind_group_data};
use wgsl_to_wgpu::binding::{
    BindingType, BufferBindingType, ConfigDefault, ResourceArgKind, SamplerBindingType,
    StorageTextureAccess, TextureSampleType, TextureViewDimension,
};
use wgsl_to_wgpu::module::{
    AddressSpace, GlobalVariable, ImageClass, ImageDimension, ResourceBinding, Scalar, ScalarKind,
    ShaderModule, ShaderStages, StorageAccess, Type, TypeInner,
};
use wgsl_to_wgpu::MappingError;

const COMPUTE: ShaderStages = ShaderStages {
    vertex: false,
    fragment: false,
    compute: true,
};

const VERTEX_FRAGMENT: ShaderStages = ShaderStages {
    vertex: true,
    fragment: true,
    compute: false,
};

const FRAGMENT: ShaderStages = ShaderStages {
    vertex: false,
    fragment: true,
    compute: false,
};

fn ty(inner: TypeInner) -> Type {
    Type { name: None, inner }
}

fn vec4f() -> TypeInner {
    TypeInner::Vector {
        size: wgsl_to_wgpu::module::VectorSize::Quad,
        scalar: Scalar {
            kind: ScalarKind::Float,
            width: 4,
        },
    }
}

fn image(dim: ImageDimension, arrayed: bool, class: ImageClass) -> TypeInner {
    TypeInner::Image {
        dim,
        arrayed,
        class,
    }
}

fn sampled(kind: ScalarKind, multi: bool) -> ImageClass {
    ImageClass::Sampled { kind, multi }
}

fn global(name: &str, space: AddressSpace, group: u32, binding: u32, ty: usize) -> GlobalVariable {
    GlobalVariable {
        name: Some(name.to_string()),
        space,
        binding: Some(ResourceBinding { group, binding }),
        ty,
    }
}

fn storage(store: bool) -> AddressSpace {
    AddressSpace::Storage {
        access: StorageAccess { load: true, store },
    }
}

#[test]
fn bind_groups_module_compute() {
    // three storage buffers at group 0 and a uniform buffer plus sampled
    // float texture at group 1, visible from the compute stage
    let module = ShaderModule {
        types: vec![
            ty(vec4f()),
            ty(image(ImageDimension::D2, false, sampled(ScalarKind::Float, false))),
        ],
        global_variables: vec![
            global("src", storage(false), 0, 0, 0),
            global("vertex_weights", storage(false), 0, 1, 0),
            global("dst", storage(true), 0, 2, 0),
            global("transforms", AddressSpace::Uniform, 1, 0, 0),
            global("texture", AddressSpace::Handle, 1, 1, 1),
        ],
        entry_points: Vec::new(),
    };
    let groups = get_bind_group_data(&module).unwrap();
    let (plans, bind_groups) = bind_groups_module(&module, &groups, COMPUTE).unwrap();

    assert_eq!(2, plans.len());
    assert_eq!(2, bind_groups.len());

    let g0 = &plans[0];
    assert_eq!(0, g0.group_index);
    assert_eq!(3, g0.entries.len());
    for (k, entry) in g0.entries.iter().enumerate() {
        assert_eq!(k as u32, entry.binding);
        assert_eq!(COMPUTE, entry.visibility);
    }
    assert_eq!(
        BindingType::Buffer {
            ty: BufferBindingType::Storage { read_only: true }
        },
        g0.entries[0].ty
    );
    assert_eq!(
        BindingType::Buffer {
            ty: BufferBindingType::Storage { read_only: true }
        },
        g0.entries[1].ty
    );
    assert_eq!(
        BindingType::Buffer {
            ty: BufferBindingType::Storage { read_only: false }
        },
        g0.entries[2].ty
    );
    let arg_names: Vec<&str> = g0.accessor_args.iter().map(|a| a.name.as_str()).collect();
    assert_eq!(vec!["src", "vertex_weights", "dst"], arg_names);
    assert!(g0
        .accessor_args
        .iter()
        .all(|a| a.kind == ResourceArgKind::BufferBinding));
    assert_eq!(0, bind_groups[0].new_args.len());

    let g1 = &plans[1];
    assert_eq!(1, g1.group_index);
    assert_eq!(2, g1.entries.len());
    assert_eq!(
        BindingType::Buffer {
            ty: BufferBindingType::Uniform
        },
        g1.entries[0].ty
    );
    assert_eq!(
        BindingType::Texture {
            sample_type: TextureSampleType::Float { filterable: true },
            view_dimension: TextureViewDimension::D2,
            multisampled: false,
        },
        g1.entries[1].ty
    );
    assert_eq!(ResourceArgKind::BufferBinding, g1.accessor_args[0].kind);
    assert_eq!(ResourceArgKind::TextureView, g1.accessor_args[1].kind);
    assert_eq!("texture", g1.accessor_args[1].name);
    assert_eq!(1, bind_groups[1].new_args.len());
    assert_eq!("texture_filterable", bind_groups[1].new_args[0].name);
    assert_eq!(
        ConfigDefault::Filterable(true),
        bind_groups[1].new_args[0].default
    );
}

#[test]
fn bind_groups_module_vertex_fragment() {
    // every texture, sampler and storage-texture flavor at group 0, four
    // uniform buffers at group 1
    let module = ShaderModule {
        types: vec![
            ty(vec4f()),
            ty(image(ImageDimension::D2, false, sampled(ScalarKind::Uint, false))),
            ty(image(ImageDimension::D2, false, sampled(ScalarKind::Sint, false))),
            ty(image(ImageDimension::D2, false, sampled(ScalarKind::Float, false))),
            ty(image(ImageDimension::D2, false, ImageClass::Depth { multi: false })),
            ty(TypeInner::Sampler { comparison: false }),
            ty(TypeInner::Sampler { comparison: true }),
            ty(image(
                ImageDimension::D2,
                false,
                ImageClass::Storage {
                    format: "R32Float".to_string(),
                    access: StorageAccess {
                        load: true,
                        store: false,
                    },
                },
            )),
            ty(image(
                ImageDimension::D2,
                false,
                ImageClass::Storage {
                    format: "Rg32Sint".to_string(),
                    access: StorageAccess {
                        load: false,
                        store: true,
                    },
                },
            )),
            ty(image(
                ImageDimension::D2,
                false,
                ImageClass::Storage {
                    format: "Rgba8Uint".to_string(),
                    access: StorageAccess {
                        load: true,
                        store: true,
                    },
                },
            )),
            ty(image(ImageDimension::D2, false, sampled(ScalarKind::Float, true))),
            ty(image(ImageDimension::D2, false, ImageClass::Depth { multi: true })),
            ty(image(ImageDimension::D2, true, sampled(ScalarKind::Float, false))),
            ty(image(ImageDimension::Cube, true, sampled(ScalarKind::Float, false))),
        ],
        global_variables: vec![
            global("color_texture1", AddressSpace::Handle, 0, 0, 1),
            global("color_texture2", AddressSpace::Handle, 0, 1, 2),
            global("color_texture3", AddressSpace::Handle, 0, 2, 3),
            global("depth_texture", AddressSpace::Handle, 0, 3, 4),
            global("color_sampler", AddressSpace::Handle, 0, 4, 5),
            global("comparison_sampler", AddressSpace::Handle, 0, 5, 6),
            global("storage_tex_read", AddressSpace::Handle, 0, 6, 7),
            global("storage_tex_write", AddressSpace::Handle, 0, 7, 8),
            global("storage_tex_read_write", AddressSpace::Handle, 0, 8, 9),
            global("color_texture_msaa", AddressSpace::Handle, 0, 9, 10),
            global("depth_texture_msaa", AddressSpace::Handle, 0, 10, 11),
            global("color_texture_array_2d", AddressSpace::Handle, 0, 11, 12),
            global("color_texture_array_cube", AddressSpace::Handle, 0, 12, 13),
            global("transforms", AddressSpace::Uniform, 1, 0, 0),
            global("scalar", AddressSpace::Uniform, 1, 1, 0),
            global("vector", AddressSpace::Uniform, 1, 2, 0),
            global("matrix", AddressSpace::Uniform, 1, 3, 0),
        ],
        entry_points: Vec::new(),
    };
    let groups = get_bind_group_data(&module).unwrap();
    let (plans, bind_groups) = bind_groups_module(&module, &groups, VERTEX_FRAGMENT).unwrap();

    assert_eq!(2, plans.len());
    let g0 = &plans[0];
    assert_eq!(13, g0.entries.len());
    let d2 = TextureViewDimension::D2;
    let expected0 = vec![
        BindingType::Texture {
            sample_type: TextureSampleType::Uint,
            view_dimension: d2,
            multisampled: false,
        },
        BindingType::Texture {
            sample_type: TextureSampleType::Sint,
            view_dimension: d2,
            multisampled: false,
        },
        BindingType::Texture {
            sample_type: TextureSampleType::Float { filterable: true },
            view_dimension: d2,
            multisampled: false,
        },
        BindingType::Texture {
            sample_type: TextureSampleType::Depth,
            view_dimension: d2,
            multisampled: false,
        },
        BindingType::Sampler {
            ty: SamplerBindingType::Filtering,
        },
        BindingType::Sampler {
            ty: SamplerBindingType::Comparison,
        },
        BindingType::StorageTexture {
            access: StorageTextureAccess::ReadOnly,
            format: "R32Float".to_string(),
            view_dimension: d2,
        },
        BindingType::StorageTexture {
            access: StorageTextureAccess::WriteOnly,
            format: "Rg32Sint".to_string(),
            view_dimension: d2,
        },
        BindingType::StorageTexture {
            access: StorageTextureAccess::ReadWrite,
            format: "Rgba8Uint".to_string(),
            view_dimension: d2,
        },
        BindingType::Texture {
            sample_type: TextureSampleType::Float { filterable: true },
            view_dimension: d2,
            multisampled: true,
        },
        BindingType::Texture {
            sample_type: TextureSampleType::Depth,
            view_dimension: d2,
            multisampled: true,
        },
        BindingType::Texture {
            sample_type: TextureSampleType::Float { filterable: true },
            view_dimension: TextureViewDimension::D2Array,
            multisampled: false,
        },
        BindingType::Texture {
            sample_type: TextureSampleType::Float { filterable: true },
            view_dimension: TextureViewDimension::CubeArray,
            multisampled: false,
        },
    ];
    for (k, expected) in expected0.iter().enumerate() {
        assert_eq!(k as u32, g0.entries[k].binding);
        assert_eq!(VERTEX_FRAGMENT, g0.entries[k].visibility);
        assert_eq!(*expected, g0.entries[k].ty);
    }
    let kinds0: Vec<ResourceArgKind> = g0.accessor_args.iter().map(|a| a.kind).collect();
    let mut expected_kinds = vec![ResourceArgKind::TextureView; 13];
    expected_kinds[4] = ResourceArgKind::Sampler;
    expected_kinds[5] = ResourceArgKind::Sampler;
    assert_eq!(expected_kinds, kinds0);

    // configurable parameters flow in binding order: one per filterable
    // float texture and one per non-comparison sampler
    let param_names: Vec<&str> = bind_groups[0]
        .new_args
        .iter()
        .map(|p| p.name.as_str())
        .collect();
    assert_eq!(
        vec![
            "color_texture3_filterable",
            "color_sampler_filtering",
            "color_texture_msaa_filterable",
            "color_texture_array_2d_filterable",
            "color_texture_array_cube_filterable",
        ],
        param_names
    );
    assert_eq!(
        ConfigDefault::SamplerType(SamplerBindingType::Filtering),
        bind_groups[0].new_args[1].default
    );

    let g1 = &plans[1];
    assert_eq!(4, g1.entries.len());
    assert!(g1.entries.iter().all(|e| e.ty
        == BindingType::Buffer {
            ty: BufferBindingType::Uniform
        }));
    let names1: Vec<&str> = g1.accessor_args.iter().map(|a| a.name.as_str()).collect();
    assert_eq!(vec!["transforms", "scalar", "vector", "matrix"], names1);
    assert_eq!(0, bind_groups[1].new_args.len());
}

#[test]
fn bind_groups_module_fragment() {
    let module = ShaderModule {
        types: vec![ty(vec4f())],
        global_variables: vec![global("transforms", AddressSpace::Uniform, 0, 0, 0)],
        entry_points: Vec::new(),
    };
    let groups = get_bind_group_data(&module).unwrap();
    let (plans, bind_groups) = bind_groups_module(&module, &groups, FRAGMENT).unwrap();
    assert_eq!(1, plans.len());
    assert_eq!(1, plans[0].entries.len());
    assert_eq!(
        BindingType::Buffer {
            ty: BufferBindingType::Uniform
        },
        plans[0].entries[0].ty
    );
    assert_eq!(FRAGMENT, plans[0].entries[0].visibility);
    assert_eq!("transforms", plans[0].accessor_args[0].name);
    assert_eq!(0, bind_groups[0].new_args.len());
}

#[test]
fn unsupported_resource_type_is_rejected() {
    // a resource whose type is outside the closed set fails mapping with
    // its (group, binding) coordinates
    let module = ShaderModule {
        types: vec![ty(TypeInner::Other)],
        global_variables: vec![global("weird", AddressSpace::Handle, 0, 3, 0)],
        entry_points: Vec::new(),
    };
    let groups = get_bind_group_data(&module).unwrap();
    let r = bind_groups_module(&module, &groups, FRAGMENT);
    assert_eq!(
        Err(MappingError::UnsupportedResourceType {
            group: 0,
            binding: 3
        }),
        r.map(|_| ())
    );
}

#[test]
fn unsupported_image_dimension_is_rejected() {
    // a one-dimensional arrayed image has no target equivalent
    let module = ShaderModule {
        types: vec![ty(image(ImageDimension::D1, true, sampled(ScalarKind::Float, false)))],
        global_variables: vec![global("tex", AddressSpace::Handle, 0, 1, 0)],
        entry_points: Vec::new(),
    };
    let groups = get_bind_group_data(&module).unwrap();
    let r = bind_groups_module(&module, &groups, FRAGMENT);
    assert_eq!(
        Err(MappingError::UnsupportedImageDimension {
            group: 0,
            binding: 1
        }),
        r.map(|_| ())
    );
}

#[test]
fn storage_image_without_capabilities_is_rejected() {
    // a storage image declaring neither load nor store capability is an
    // internal inconsistency, reported as an unsupported resource type
    let module = ShaderModule {
        types: vec![ty(image(
            ImageDimension::D2,
            false,
            ImageClass::Storage {
                format: "R32Float".to_string(),
                access: StorageAccess {
                    load: false,
                    store: false,
                },
            },
        ))],
        global_variables: vec![global("tex", AddressSpace::Handle, 0, 0, 0)],
        entry_points: Vec::new(),
    };
    let groups = get_bind_group_data(&module).unwrap();
    let r = bind_groups_module(&module, &groups, FRAGMENT);
    assert_eq!(
        Err(MappingError::UnsupportedResourceType {
            group: 0,
            binding: 0
        }),
        r.map(|_| ())
    );
}

#[test]
fn mapping_is_pure() {
    // identical inputs always yield the identical descriptors and
    // configurable parameters
    let module = ShaderModule {
        types: vec![
            ty(vec4f()),
            ty(image(ImageDimension::D2, false, sampled(ScalarKind::Float, false))),
        ],
        global_variables: vec![
            global("buf", AddressSpace::Uniform, 0, 0, 0),
            global("tex", AddressSpace::Handle, 0, 1, 1),
        ],
        entry_points: Vec::new(),
    };
    let groups = get_bind_group_data(&module).unwrap();
    let first = bind_groups_module(&module, &groups, FRAGMENT).unwrap();
    let second = bind_groups_module(&module, &groups, FRAGMENT).unwrap();
    assert_eq!(first, second);
}

#[test]
fn end_to_end_uniforms_and_texture() {
    // three uniform-buffer globals at group 0, bindings 0..=2, and one
    // sampled float texture plus filtering sampler at group 1: two bind
    // group layouts, with the texture exposing `texture_filterable`
    // defaulting to true
    let module = ShaderModule {
        types: vec![
            ty(vec4f()),
            ty(image(ImageDimension::D2, false, sampled(ScalarKind::Float, false))),
            ty(TypeInner::Sampler { comparison: false }),
        ],
        global_variables: vec![
            global("a", AddressSpace::Uniform, 0, 0, 0),
            global("b", AddressSpace::Uniform, 0, 1, 0),
            global("c", AddressSpace::Uniform, 0, 2, 0),
            global("texture", AddressSpace::Handle, 1, 0, 1),
            global("texture_sampler", AddressSpace::Handle, 1, 1, 2),
        ],
        entry_points: Vec::new(),
    };
    let groups = get_bind_group_data(&module).unwrap();
    assert_eq!(2, groups.len());
    let (plans, bind_groups) = bind_groups_module(&module, &groups, VERTEX_FRAGMENT).unwrap();
    assert_eq!(2, plans.len());
    assert_eq!(3, plans[0].entries.len());
    assert_eq!(2, plans[1].entries.len());
    let params = &bind_groups[1].new_args;
    assert_eq!(2, params.len());
    assert_eq!("texture_filterable", params[0].name);
    assert_eq!(ConfigDefault::Filterable(true), params[0].default);
    assert_eq!("texture_sampler_filtering", params[1].name);
    assert_eq!(
        ConfigDefault::SamplerType(SamplerBindingType::Filtering),
        params[1].default
    );
}
