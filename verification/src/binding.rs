//! Binding type mapping.
//!
//! Converts one extracted resource binding's declared type and address
//! space into exactly one binding descriptor from the target API's closed
//! vocabulary, together with the configurable parameters — values that the
//! shader's static type alone does not determine — that the generated
//! layout constructor must surface, each with its default.
use vstd::prelude::*;
use vstd::string::StringExecFns;

use crate::bindgroup::GroupBinding;
use crate::module::{
    AddressSpace, ImageClass, ImageDimension, ScalarKind, ShaderModule, ShaderStages, TypeInner,
};
use crate::MappingError;

verus! {

/// The buffer flavor of a buffer binding descriptor.
#[derive(Clone, Copy, Debug, PartialEq, Eq, Structural)]
pub enum BufferBindingType {
    Uniform,
    Storage { read_only: bool },
}

/// The sample flavor of a texture binding descriptor. For a filterable
/// float texture the flag holds the generation-time default; whether the
/// binding is filterable is surfaced as a configurable parameter.
#[derive(Clone, Copy, Debug, PartialEq, Eq, Structural)]
pub enum TextureSampleType {
    Float { filterable: bool },
    Sint,
    Uint,
    Depth,
}

/// The dimensionality of a texture view in the target API's vocabulary.
#[derive(Clone, Copy, Debug, PartialEq, Eq, Structural)]
pub enum TextureViewDimension {
    D1,
    D2,
    D2Array,
    D3,
    Cube,
    CubeArray,
}

/// The access variant of a storage texture binding descriptor.
#[derive(Clone, Copy, Debug, PartialEq, Eq, Structural)]
pub enum StorageTextureAccess {
    ReadOnly,
    WriteOnly,
    ReadWrite,
}

/// The flavor of a sampler binding descriptor.
#[derive(Clone, Copy, Debug, PartialEq, Eq, Structural)]
pub enum SamplerBindingType {
    Filtering,
    NonFiltering,
    Comparison,
}

/// One mapped binding descriptor: the target-API-facing shape of a
/// resource binding. A storage texture carries its texel format name.
#[derive(Clone, Debug, PartialEq, Eq)]
pub enum BindingType {
    Buffer { ty: BufferBindingType },
    Texture {
        sample_type: TextureSampleType,
        view_dimension: TextureViewDimension,
        multisampled: bool,
    },
    StorageTexture {
        access: StorageTextureAccess,
        format: String,
        view_dimension: TextureViewDimension,
    },
    Sampler { ty: SamplerBindingType },
}

/// The default of a configurable parameter.
#[derive(Clone, Copy, Debug, PartialEq, Eq, Structural)]
pub enum ConfigDefault {
    /// A boolean filterability knob of a float texture binding.
    Filterable(bool),
    /// The sampler binding flavor of a non-comparison sampler.
    SamplerType(SamplerBindingType),
}

/// One configurable parameter a generated layout constructor takes: a
/// binding property not determined by static reflection, with its default.
#[derive(Clone, Debug, PartialEq, Eq)]
pub struct ConfigParam {
    pub name: String,
    pub default: ConfigDefault,
}

/// One entry of a generated bind group layout: the binding slot, the
/// stage visibility mask, and the mapped descriptor.
#[derive(Clone, Debug, PartialEq, Eq)]
pub struct BindGroupLayoutEntry {
    pub binding: u32,
    pub visibility: ShaderStages,
    pub ty: BindingType,
}

/// The argument flavor a generated bind-group constructor takes for one
/// binding.
#[derive(Clone, Copy, Debug, PartialEq, Eq, Structural)]
pub enum ResourceArgKind {
    BufferBinding,
    TextureView,
    Sampler,
}

/// The buffer flavor derived from an address space: uniform space maps to
/// a uniform buffer, storage space to a storage buffer whose mutability
/// follows the declared access; other spaces hold no buffer resources.
pub open spec fn spec_buffer_binding_type(space: AddressSpace) -> Option<BufferBindingType> {
    match space {
        AddressSpace::Uniform => Some(BufferBindingType::Uniform),
        AddressSpace::Storage { access } => Some(
            BufferBindingType::Storage { read_only: !access.store },
        ),
        _ => None,
    }
}

/// The texture view dimensionality derived from the image's declared
/// dimension and array-ness; pairs without a target equivalent map to
/// nothing.
pub open spec fn spec_view_dimension(dim: ImageDimension, arrayed: bool) -> Option<
    TextureViewDimension,
> {
    match (dim, arrayed) {
        (ImageDimension::D1, false) => Some(TextureViewDimension::D1),
        (ImageDimension::D2, false) => Some(TextureViewDimension::D2),
        (ImageDimension::D2, true) => Some(TextureViewDimension::D2Array),
        (ImageDimension::D3, false) => Some(TextureViewDimension::D3),
        (ImageDimension::Cube, false) => Some(TextureViewDimension::Cube),
        (ImageDimension::Cube, true) => Some(TextureViewDimension::CubeArray),
        _ => None,
    }
}

/// The storage texture access variant derived from the declared
/// load/store capability pair. A declaration with neither capability
/// cannot arise from a well-formed front end and maps to nothing, which
/// the mapper reports as an unsupported resource type.
pub open spec fn spec_storage_access(access: crate::module::StorageAccess) -> Option<
    StorageTextureAccess,
> {
    match (access.load, access.store) {
        (true, true) => Some(StorageTextureAccess::ReadWrite),
        (true, false) => Some(StorageTextureAccess::ReadOnly),
        (false, true) => Some(StorageTextureAccess::WriteOnly),
        (false, false) => None,
    }
}

/// The descriptor mapping: a pure function of the resource's value-type
/// category, its address space, and its image parameters. The group and
/// binding coordinates only name the resource in an error.
pub open spec fn spec_binding_type(
    inner: TypeInner,
    space: AddressSpace,
    group: u32,
    binding: u32,
) -> Result<BindingType, MappingError> {
    match inner {
        TypeInner::Scalar { .. }
        | TypeInner::Vector { .. }
        | TypeInner::Matrix { .. }
        | TypeInner::Array { .. }
        | TypeInner::Struct { .. } => match spec_buffer_binding_type(space) {
            Some(ty) => Ok(BindingType::Buffer { ty }),
            None => Err(MappingError::UnsupportedResourceType { group, binding }),
        },
        TypeInner::Image { dim, arrayed, class } => match spec_view_dimension(dim, arrayed) {
            None => Err(MappingError::UnsupportedImageDimension { group, binding }),
            Some(view_dimension) => match class {
                ImageClass::Sampled { kind, multi } => match kind {
                    ScalarKind::Sint => Ok(
                        BindingType::Texture {
                            sample_type: TextureSampleType::Sint,
                            view_dimension,
                            multisampled: multi,
                        },
                    ),
                    ScalarKind::Uint => Ok(
                        BindingType::Texture {
                            sample_type: TextureSampleType::Uint,
                            view_dimension,
                            multisampled: multi,
                        },
                    ),
                    ScalarKind::Float => Ok(
                        BindingType::Texture {
                            sample_type: TextureSampleType::Float { filterable: true },
                            view_dimension,
                            multisampled: multi,
                        },
                    ),
                    ScalarKind::Bool => Err(
                        MappingError::UnsupportedResourceType { group, binding },
                    ),
                },
                ImageClass::Depth { multi } => Ok(
                    BindingType::Texture {
                        sample_type: TextureSampleType::Depth,
                        view_dimension,
                        multisampled: multi,
                    },
                ),
                ImageClass::Storage { format, access } => match spec_storage_access(access) {
                    Some(sta) => Ok(
                        BindingType::StorageTexture { access: sta, format, view_dimension },
                    ),
                    None => Err(MappingError::UnsupportedResourceType { group, binding }),
                },
            },
        },
        TypeInner::Sampler { comparison } => Ok(
            BindingType::Sampler {
                ty: if comparison {
                    SamplerBindingType::Comparison
                } else {
                    SamplerBindingType::Filtering
                },
            },
        ),
        _ => Err(MappingError::UnsupportedResourceType { group, binding }),
    }
}

/// The configurable parameters owed for a binding of the given type: one
/// `<name>_filterable` boolean, default true, for a sampled float
/// texture; one `<name>_filtering` sampler flavor, default filtering, for
/// a non-comparison sampler; none otherwise.
pub open spec fn spec_params_match(
    inner: TypeInner,
    name: Seq<char>,
    params: Seq<ConfigParam>,
) -> bool {
    match inner {
        TypeInner::Image {
            class: ImageClass::Sampled { kind: ScalarKind::Float, .. },
            ..
        } => {
            &&& params.len() == 1
            &&& params[0].name@ == name + "_filterable"@
            &&& params[0].default == ConfigDefault::Filterable(true)
        },
        TypeInner::Sampler { comparison: false } => {
            &&& params.len() == 1
            &&& params[0].name@ == name + "_filtering"@
            &&& params[0].default == ConfigDefault::SamplerType(SamplerBindingType::Filtering)
        },
        _ => params.len() == 0,
    }
}

/// Derives the buffer flavor of a buffer-category resource from its
/// address space.
pub fn buffer_binding_type(space: &AddressSpace) -> (r: Option<BufferBindingType>)
    ensures
        r == spec_buffer_binding_type(*space),
{
    match space {
        AddressSpace::Uniform => Some(BufferBindingType::Uniform),
        AddressSpace::Storage { access } => Some(
            BufferBindingType::Storage { read_only: !access.store },
        ),
        _ => None,
    }
}

/// Derives the storage texture access variant from the declared
/// load/store capability pair.
pub fn storage_access(access: crate::module::StorageAccess) -> (r: Option<StorageTextureAccess>)
    ensures
        r == spec_storage_access(access),
{
    match (access.load, access.store) {
        (true, true) => Some(StorageTextureAccess::ReadWrite),
        (true, false) => Some(StorageTextureAccess::ReadOnly),
        (false, true) => Some(StorageTextureAccess::WriteOnly),
        (false, false) => None,
    }
}

/// Maps one extracted binding onto its layout entry and its configurable
/// parameters.
///
/// The descriptor is a pure function of the resource's value-type
/// category, address space and image parameters; the parameter names are
/// derived from the resource's name. A type outside the supported closed
/// set or an image dimensionality without a target equivalent fails, and
/// the error names the resource's (group, binding) coordinates.
pub fn bind_group_layout_entry(
    module: &ShaderModule,
    group: u32,
    name: &String,
    binding: &GroupBinding,
    shader_stages: ShaderStages,
) -> (r: Result<(BindGroupLayoutEntry, Vec<ConfigParam>), MappingError>)
    requires
        binding.ty < module.types@.len(),
    ensures
        match r {
            Ok((entry, params)) => {
                &&& entry.binding == binding.binding_index
                &&& entry.visibility == shader_stages
                &&& spec_binding_type(
                    module.types@[binding.ty as int].inner,
                    binding.address_space,
                    group,
                    binding.binding_index,
                ) == Ok::<BindingType, MappingError>(entry.ty)
                &&& spec_params_match(module.types@[binding.ty as int].inner, name@, params@)
            },
            Err(e) => spec_binding_type(
                module.types@[binding.ty as int].inner,
                binding.address_space,
                group,
                binding.binding_index,
            ) == Err::<BindingType, MappingError>(e),
        },
{
    let mut params: Vec<ConfigParam> = Vec::new();
    let inner = &module.types[binding.ty].inner;
    let binding_type: BindingType = match inner {
        TypeInner::Scalar { .. }
        | TypeInner::Vector { .. }
        | TypeInner::Matrix { .. }
        | TypeInner::Array { .. }
        | TypeInner::Struct { .. } => {
            match buffer_binding_type(&binding.address_space) {
                Some(ty) => BindingType::Buffer { ty },
                None => {
                    return Err(
                        MappingError::UnsupportedResourceType {
                            group,
                            binding: binding.binding_index,
                        },
                    );
                },
            }
        },
        TypeInner::Image { dim, arrayed, class } => {
            let view_dimension: TextureViewDimension = match (dim, arrayed) {
                (ImageDimension::D1, false) => TextureViewDimension::D1,
                (ImageDimension::D2, false) => TextureViewDimension::D2,
                (ImageDimension::D2, true) => TextureViewDimension::D2Array,
                (ImageDimension::D3, false) => TextureViewDimension::D3,
                (ImageDimension::Cube, false) => TextureViewDimension::Cube,
                (ImageDimension::Cube, true) => TextureViewDimension::CubeArray,
                _ => {
                    return Err(
                        MappingError::UnsupportedImageDimension {
                            group,
                            binding: binding.binding_index,
                        },
                    );
                },
            };
            match class {
                ImageClass::Sampled { kind, multi } => {
                    let sample_type: TextureSampleType = match kind {
                        ScalarKind::Sint => TextureSampleType::Sint,
                        ScalarKind::Uint => TextureSampleType::Uint,
                        ScalarKind::Float => {
                            params.push(
                                ConfigParam {
                                    name: name.clone().concat("_filterable"),
                                    default: ConfigDefault::Filterable(true),
                                },
                            );
                            TextureSampleType::Float { filterable: true }
                        },
                        ScalarKind::Bool => {
                            return Err(
                                MappingError::UnsupportedResourceType {
                                    group,
                                    binding: binding.binding_index,
                                },
                            );
                        },
                    };
                    BindingType::Texture {
                        sample_type,
                        view_dimension,
                        multisampled: *multi,
                    }
                },
                ImageClass::Depth { multi } => BindingType::Texture {
                    sample_type: TextureSampleType::Depth,
                    view_dimension,
                    multisampled: *multi,
                },
                ImageClass::Storage { format, access } => {
                    let access_variant: StorageTextureAccess = match storage_access(*access) {
                        Some(a) => a,
                        None => {
                            return Err(
                                MappingError::UnsupportedResourceType {
                                    group,
                                    binding: binding.binding_index,
                                },
                            );
                        },
                    };
                    BindingType::StorageTexture {
                        access: access_variant,
                        format: format.clone(),
                        view_dimension,
                    }
                },
            }
        },
        TypeInner::Sampler { comparison } => {
            if *comparison {
                BindingType::Sampler { ty: SamplerBindingType::Comparison }
            } else {
                params.push(
                    ConfigParam {
                        name: name.clone().concat("_filtering"),
                        default: ConfigDefault::SamplerType(SamplerBindingType::Filtering),
                    },
                );
                BindingType::Sampler { ty: SamplerBindingType::Filtering }
            }
        },
        _ => {
            return Err(
                MappingError::UnsupportedResourceType {
                    group,
                    binding: binding.binding_index,
                },
            );
        },
    };
    Ok(
        (
            BindGroupLayoutEntry {
                binding: binding.binding_index,
                visibility: shader_stages,
                ty: binding_type,
            },
            params,
        ),
    )
}

/// The constructor argument flavor owed for a binding: a buffer binding
/// view for buffer-category types, a texture view for images, a sampler
/// handle for samplers; other types hold no bindable resource.
pub open spec fn spec_resource_arg_kind(inner: TypeInner) -> Option<ResourceArgKind> {
    match inner {
        TypeInner::Scalar { .. }
        | TypeInner::Vector { .. }
        | TypeInner::Matrix { .. }
        | TypeInner::Array { .. }
        | TypeInner::Struct { .. } => Some(ResourceArgKind::BufferBinding),
        TypeInner::Image { .. } => Some(ResourceArgKind::TextureView),
        TypeInner::Sampler { .. } => Some(ResourceArgKind::Sampler),
        _ => None,
    }
}

/// Classifies the constructor argument a binding's accessor takes.
pub fn resource_arg_kind(module: &ShaderModule, group: u32, binding: &GroupBinding) -> (r: Result<
    ResourceArgKind,
    MappingError,
>)
    requires
        binding.ty < module.types@.len(),
    ensures
        match r {
            Ok(kind) => spec_resource_arg_kind(module.types@[binding.ty as int].inner) == Some(
                kind,
            ),
            Err(e) => {
                &&& spec_resource_arg_kind(module.types@[binding.ty as int].inner) is None
                &&& e == (MappingError::UnsupportedResourceType {
                    group,
                    binding: binding.binding_index,
                })
            },
        },
{
    match &module.types[binding.ty].inner {
        TypeInner::Scalar { .. }
        | TypeInner::Vector { .. }
        | TypeInner::Matrix { .. }
        | TypeInner::Array { .. }
        | TypeInner::Struct { .. } => Ok(ResourceArgKind::BufferBinding),
        TypeInner::Image { .. } => Ok(ResourceArgKind::TextureView),
        TypeInner::Sampler { .. } => Ok(ResourceArgKind::Sampler),
        _ => Err(
            MappingError::UnsupportedResourceType { group, binding: binding.binding_index },
        ),
    }
}


/// Mapping is a pure function of the resource's value-type category,
/// address space and image parameters: identical inputs always yield the
/// identical descriptor variant. The resource's name and coordinates
/// never influence the descriptor.
pub proof fn lemma_mapping_deterministic(
    t1: TypeInner,
    s1: AddressSpace,
    t2: TypeInner,
    s2: AddressSpace,
    group: u32,
    binding: u32,
)
    requires
        t1 == t2,
        s1 == s2,
    ensures
        spec_binding_type(t1, s1, group, binding) == spec_binding_type(t2, s2, group, binding),
{
}

/// The configurable parameter set owed for a binding is determined by
/// its type and its name: any two parameter lists meeting the owed shape
/// agree in length, names and defaults.
pub proof fn lemma_params_determined(
    inner: TypeInner,
    name: Seq<char>,
    p1: Seq<ConfigParam>,
    p2: Seq<ConfigParam>,
)
    requires
        spec_params_match(inner, name, p1),
        spec_params_match(inner, name, p2),
    ensures
        p1.len() == p2.len(),
        forall|k: int|
            0 <= k < p1.len() ==> (#[trigger] p1[k]).name@ == p2[k].name@ && p1[k].default
                == p2[k].default,
{
}

} // verus!
