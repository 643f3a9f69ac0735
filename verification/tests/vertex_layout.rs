use wgsl_to_wgpu::entry::{get_vertex_input_structs, vertex_inputs, vertex_struct_methods};
use wgsl_to_wgpu::module::{
    Binding, EntryPoint, FunctionArgument, Scalar, ScalarKind, ShaderModule, ShaderStage,
    StructMember, Type, TypeInner, VectorSize, WorkgroupSize,
};
use wgsl_to_wgpu::vertex::{attribute_offsets, vertex_format, VertexFormat};

fn scalar(kind: ScalarKind, width: u32) -> TypeInner {
    TypeInner::Scalar {
        scalar: Scalar { kind, width },
    }
}

fn vector(size: VectorSize, kind: ScalarKind, width: u32) -> TypeInner {
    TypeInner::Vector {
        size,
        scalar: Scalar { kind, width },
    }
}

fn member(name: &str, location: u32, ty: usize) -> StructMember {
    StructMember {
        name: Some(name.to_string()),
        ty,
        binding: Some(Binding::Location { location }),
    }
}

fn builtin_member(name: &str, ty: usize) -> StructMember {
    StructMember {
        name: Some(name.to_string()),
        ty,
        binding: Some(Binding::BuiltIn),
    }
}

fn vertex_entry(name: &str, args: Vec<FunctionArgument>) -> EntryPoint {
    EntryPoint {
        name: name.to_string(),
        stage: ShaderStage::Vertex,
        workgroup_size: WorkgroupSize { x: 0, y: 0, z: 0 },
        args,
        result: None,
    }
}

fn struct_arg(name: &str, ty: usize) -> FunctionArgument {
    FunctionArgument {
        name: Some(name.to_string()),
        ty,
        binding: None,
    }
}

/// Three vertex entry points consuming zero, one and two input structs;
/// one struct interleaves a builtin member, which takes no slot in the
/// host struct.
fn vertex_entries_module() -> ShaderModule {
    ShaderModule {
        types: vec![
            // 0: vec4<f32>, 1: vec4<u32>, 2: u32
            Type {
                name: None,
                inner: vector(VectorSize::Quad, ScalarKind::Float, 4),
            },
            Type {
                name: None,
                inner: vector(VectorSize::Quad, ScalarKind::Uint, 4),
            },
            Type {
                name: None,
                inner: scalar(ScalarKind::Uint, 4),
            },
            // 3: Input0, 4: Input1
            Type {
                name: Some("Input0".to_string()),
                inner: TypeInner::Struct {
                    members: vec![
                        member("in0", 0, 0),
                        member("in1", 1, 0),
                        member("in2", 2, 0),
                    ],
                },
            },
            Type {
                name: Some("Input1".to_string()),
                inner: TypeInner::Struct {
                    members: vec![
                        member("in3", 3, 0),
                        member("in4", 4, 0),
                        builtin_member("index", 2),
                        member("in5", 5, 0),
                        member("in6", 6, 1),
                    ],
                },
            },
        ],
        global_variables: Vec::new(),
        entry_points: vec![
            vertex_entry("vs_main_none", vec![]),
            vertex_entry("vs_main_single", vec![struct_arg("in0", 3)]),
            vertex_entry(
                "vs_main_multiple",
                vec![
                    struct_arg("in0", 3),
                    struct_arg("in1", 4),
                    FunctionArgument {
                        name: Some("in2".to_string()),
                        ty: 2,
                        binding: Some(Binding::BuiltIn),
                    },
                    FunctionArgument {
                        name: Some("in3".to_string()),
                        ty: 0,
                        binding: Some(Binding::Location { location: 7 }),
                    },
                ],
            ),
        ],
    }
}

#[test]
fn vertex_entries() {
    let module = vertex_entries_module();

    assert_eq!(0, vertex_inputs(&module.entry_points[0], &module).len());
    assert_eq!(
        vec![("in0".to_string(), "Input0".to_string())],
        vertex_inputs(&module.entry_points[1], &module)
    );
    assert_eq!(
        vec![
            ("in0".to_string(), "Input0".to_string()),
            ("in1".to_string(), "Input1".to_string()),
        ],
        vertex_inputs(&module.entry_points[2], &module)
    );

    assert_eq!(vec![3, 4], get_vertex_input_structs(&module));

    let layouts = vertex_struct_methods(&module);
    assert_eq!(2, layouts.len());

    let input0 = &layouts[0];
    assert_eq!("Input0", input0.struct_name);
    assert_eq!(3, input0.attributes.len());
    for (k, a) in input0.attributes.iter().enumerate() {
        assert_eq!(k as u32, a.location);
        assert_eq!(VertexFormat::Float32x4, a.format);
        assert_eq!(16 * k as u64, a.offset);
    }
    assert_eq!(48, input0.stride);

    let input1 = &layouts[1];
    assert_eq!("Input1", input1.struct_name);
    assert_eq!(4, input1.attributes.len());
    let locations: Vec<u32> = input1.attributes.iter().map(|a| a.location).collect();
    assert_eq!(vec![3, 4, 5, 6], locations);
    let names: Vec<&str> = input1.attributes.iter().map(|a| a.name.as_str()).collect();
    assert_eq!(vec!["in3", "in4", "in5", "in6"], names);
    let offsets: Vec<u64> = input1.attributes.iter().map(|a| a.offset).collect();
    assert_eq!(vec![0, 16, 32, 48], offsets);
    assert_eq!(VertexFormat::Uint32x4, input1.attributes[3].format);
    assert_eq!(64, input1.stride);
}

#[test]
fn vertex_formats() {
    assert_eq!(
        Some(VertexFormat::Float32),
        vertex_format(&scalar(ScalarKind::Float, 4))
    );
    assert_eq!(
        Some(VertexFormat::Sint32x2),
        vertex_format(&vector(VectorSize::Bi, ScalarKind::Sint, 4))
    );
    assert_eq!(
        Some(VertexFormat::Uint32x3),
        vertex_format(&vector(VectorSize::Tri, ScalarKind::Uint, 4))
    );
    assert_eq!(
        Some(VertexFormat::Float16x4),
        vertex_format(&vector(VectorSize::Quad, ScalarKind::Float, 2))
    );
    assert_eq!(None, vertex_format(&scalar(ScalarKind::Bool, 1)));
    assert_eq!(
        None,
        vertex_format(&vector(VectorSize::Tri, ScalarKind::Float, 2))
    );
    assert_eq!(None, vertex_format(&scalar(ScalarKind::Float, 8)));
}

#[test]
fn mixed_field_sizes_force_padding() {
    // a two-byte-aligned half vector followed by a four-byte float: the
    // float may start right after, but a half vector after a 12-byte
    // three-component float vector keeps two-byte alignment, while a
    // four-byte-aligned field after a half vector gets padded
    let sizes: Vec<u64> = vec![4, 12, 4, 16];
    let aligns: Vec<u64> = vec![2, 4, 2, 4];
    let (offsets, stride) = attribute_offsets(&sizes, &aligns);
    assert_eq!(vec![0, 4, 16, 20], offsets);
    assert_eq!(36, stride);

    // the tightly packed sums would be 0, 4, 16, 22 with size 38: the
    // last field must instead start at the next multiple of four
    let sizes: Vec<u64> = vec![4, 12, 6, 16];
    let aligns: Vec<u64> = vec![2, 4, 2, 4];
    let (offsets, stride) = attribute_offsets(&sizes, &aligns);
    assert_eq!(vec![0, 4, 16, 24], offsets);
    assert_eq!(40, stride);
}

#[test]
fn stride_is_padded_to_struct_alignment() {
    // a 16-byte-aligned field followed by a small one: the stride pads
    // back up to the struct's alignment
    let sizes: Vec<u64> = vec![16, 4];
    let aligns: Vec<u64> = vec![16, 4];
    let (offsets, stride) = attribute_offsets(&sizes, &aligns);
    assert_eq!(vec![0, 16], offsets);
    assert_eq!(32, stride);
}

#[test]
fn empty_field_list_has_zero_stride() {
    let (offsets, stride) = attribute_offsets(&Vec::new(), &Vec::new());
    assert!(offsets.is_empty());
    assert_eq!(0, stride);
}

#[test]
fn layouts_regenerate_identically() {
    let module = vertex_entries_module();
    assert_eq!(vertex_struct_methods(&module), vertex_struct_methods(&module));
}
