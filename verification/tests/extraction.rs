use wgsl_to_wgpu::bindgroup::get_bind_group_data;
use wgsl_to_wgpu::module::{
    AddressSpace, GlobalVariable, ResourceBinding, Scalar, ScalarKind, ShaderModule, Type,
    TypeInner, VectorSize,
};
use wgsl_to_wgpu::CreateModuleError;

fn vec4f() -> Type {
    Type {
        name: None,
        inner: TypeInner::Vector {
            size: VectorSize::Quad,
            scalar: Scalar {
                kind: ScalarKind::Float,
                width: 4,
            },
        },
    }
}

fn uniform_global(name: &str, group: u32, binding: u32, ty: usize) -> GlobalVariable {
    GlobalVariable {
        name: Some(name.to_string()),
        space: AddressSpace::Uniform,
        binding: Some(ResourceBinding { group, binding }),
        ty,
    }
}

fn uniform_module(coords: &[(&str, u32, u32)]) -> ShaderModule {
    ShaderModule {
        types: vec![vec4f()],
        global_variables: coords
            .iter()
            .map(|(name, group, binding)| uniform_global(name, *group, *binding, 0))
            .collect(),
        entry_points: Vec::new(),
    }
}

#[test]
fn bind_group_data_consecutive_bind_groups() {
    let module = uniform_module(&[("a", 0, 0), ("b", 1, 0), ("c", 2, 0)]);
    assert_eq!(3, get_bind_group_data(&module).unwrap().len());
}

#[test]
fn bind_group_data_first_group_not_zero() {
    let module = uniform_module(&[("a", 1, 0)]);
    assert!(matches!(
        get_bind_group_data(&module),
        Err(CreateModuleError::NonConsecutiveBindGroups)
    ));
}

#[test]
fn bind_group_data_non_consecutive_bind_groups() {
    let module = uniform_module(&[("a", 0, 0), ("b", 1, 0), ("c", 3, 0)]);
    assert!(matches!(
        get_bind_group_data(&module),
        Err(CreateModuleError::NonConsecutiveBindGroups)
    ));
}

#[test]
fn bind_group_data_duplicate_binding() {
    let module = uniform_module(&[("a", 0, 2), ("b", 0, 2)]);
    assert!(matches!(
        get_bind_group_data(&module),
        Err(CreateModuleError::DuplicateBinding { binding: 2 })
    ));
}

#[test]
fn bind_group_data_duplicate_reported_before_gap() {
    // a duplicate pair is reported even when the grouping also has a gap
    let module = uniform_module(&[("a", 0, 0), ("b", 5, 1), ("c", 5, 1)]);
    assert!(matches!(
        get_bind_group_data(&module),
        Err(CreateModuleError::DuplicateBinding { binding: 1 })
    ));
}

#[test]
fn bind_group_data_empty_module() {
    let module = uniform_module(&[]);
    assert_eq!(0, get_bind_group_data(&module).unwrap().len());
}

#[test]
fn bind_group_data_ignores_unannotated_globals() {
    let mut module = uniform_module(&[("a", 0, 0)]);
    module.global_variables.push(GlobalVariable {
        name: Some("private_value".to_string()),
        space: AddressSpace::Private,
        binding: None,
        ty: 0,
    });
    let groups = get_bind_group_data(&module).unwrap();
    assert_eq!(1, groups.len());
    assert_eq!(1, groups[0].bindings.len());
    assert_eq!(Some("a".to_string()), groups[0].bindings[0].name);
}

#[test]
fn bind_group_data_sorts_bindings_within_group() {
    let module = uniform_module(&[("c", 0, 7), ("a", 0, 1), ("b", 0, 4)]);
    let groups = get_bind_group_data(&module).unwrap();
    assert_eq!(1, groups.len());
    let indices: Vec<u32> = groups[0].bindings.iter().map(|b| b.binding_index).collect();
    assert_eq!(vec![1, 4, 7], indices);
    let names: Vec<Option<String>> = groups[0].bindings.iter().map(|b| b.name.clone()).collect();
    assert_eq!(
        vec![
            Some("a".to_string()),
            Some("b".to_string()),
            Some("c".to_string())
        ],
        names
    );
}

#[test]
fn bind_group_data_regeneration_is_identical() {
    let module = uniform_module(&[("a", 0, 0), ("b", 0, 1), ("c", 1, 0)]);
    let first = get_bind_group_data(&module).unwrap();
    let second = get_bind_group_data(&module).unwrap();
    assert_eq!(first, second);
}
