//! The shader module reflection model.
//!
//! An immutable graph of declared types, global resource variables and entry
//! points, produced once by an external shader front end and read-only to
//! this crate. Types are stored in a flat table and referenced by index,
//! so the graph needs no shared pointers.
use vstd::prelude::*;

verus! {

/// The scalar kind of a numeric or boolean type.
#[derive(Clone, Copy, Debug, PartialEq, Eq, Structural)]
pub enum ScalarKind {
    Sint,
    Uint,
    Float,
    Bool,
}

/// A scalar type: its kind and its width in bytes.
#[derive(Clone, Copy, Debug, PartialEq, Eq, Structural)]
pub struct Scalar {
    pub kind: ScalarKind,
    pub width: u32,
}

/// The number of components of a vector, or of one matrix axis.
#[derive(Clone, Copy, Debug, PartialEq, Eq, Structural)]
pub enum VectorSize {
    Bi,
    Tri,
    Quad,
}

/// The dimensionality of an image type as declared in the shader.
#[derive(Clone, Copy, Debug, PartialEq, Eq, Structural)]
pub enum ImageDimension {
    D1,
    D2,
    D3,
    Cube,
}

/// The load/store capability pair of a storage image.
#[derive(Clone, Copy, Debug, PartialEq, Eq, Structural)]
pub struct StorageAccess {
    pub load: bool,
    pub store: bool,
}

/// The class of an image type: sampled, depth, or writable storage.
///
/// A storage image carries its texel format as the format's name in the
/// target API's spelling; this crate treats the name as opaque data.
#[derive(Clone, Debug, PartialEq, Eq)]
pub enum ImageClass {
    Sampled { kind: ScalarKind, multi: bool },
    Depth { multi: bool },
    Storage { format: String, access: StorageAccess },
}

/// The interface binding of an entry point argument, result, or struct
/// member: either a builtin value or a user-facing location slot.
#[derive(Clone, Copy, Debug, PartialEq, Eq, Structural)]
pub enum Binding {
    BuiltIn,
    Location { location: u32 },
}

/// One member of a struct type declaration.
#[derive(Clone, Debug, PartialEq, Eq)]
pub struct StructMember {
    pub name: Option<String>,
    /// Index of the member's type in the module's type table.
    pub ty: usize,
    pub binding: Option<Binding>,
}

/// The structural shape of one declared type.
///
/// `Other` stands for any declaration outside the closed set this compiler
/// understands (pointers, atomics, binding arrays and the like); a resource
/// of such a type is rejected during mapping.
#[derive(Clone, Debug, PartialEq, Eq)]
pub enum TypeInner {
    Scalar { scalar: Scalar },
    Vector { size: VectorSize, scalar: Scalar },
    Matrix { columns: VectorSize, rows: VectorSize, scalar: Scalar },
    Array { base: usize },
    Struct { members: Vec<StructMember> },
    Image { dim: ImageDimension, arrayed: bool, class: ImageClass },
    Sampler { comparison: bool },
    Other,
}

/// One entry of the module's type table.
#[derive(Clone, Debug, PartialEq, Eq)]
pub struct Type {
    pub name: Option<String>,
    pub inner: TypeInner,
}

/// The address space (usage classification) of a global variable.
#[derive(Clone, Copy, Debug, PartialEq, Eq, Structural)]
pub enum AddressSpace {
    Function,
    Private,
    WorkGroup,
    Uniform,
    Storage { access: StorageAccess },
    Handle,
    PushConstant,
}

/// An explicit (group, binding) resource annotation.
#[derive(Clone, Copy, Debug, PartialEq, Eq, Structural)]
pub struct ResourceBinding {
    pub group: u32,
    pub binding: u32,
}

/// One global variable declaration. Only globals with an explicit
/// resource annotation take part in bind group extraction.
#[derive(Clone, Debug, PartialEq, Eq)]
pub struct GlobalVariable {
    pub name: Option<String>,
    pub space: AddressSpace,
    pub binding: Option<ResourceBinding>,
    /// Index of the variable's type in the module's type table.
    pub ty: usize,
}

/// The pipeline stage an entry point belongs to.
#[derive(Clone, Copy, Debug, PartialEq, Eq, Structural)]
pub enum ShaderStage {
    Vertex,
    Fragment,
    Compute,
}

/// The fixed three-dimensional workgroup size of a compute entry point.
#[derive(Clone, Copy, Debug, PartialEq, Eq, Structural)]
pub struct WorkgroupSize {
    pub x: u32,
    pub y: u32,
    pub z: u32,
}

/// One parameter of an entry point's function signature.
#[derive(Clone, Debug, PartialEq, Eq)]
pub struct FunctionArgument {
    pub name: Option<String>,
    /// Index of the argument's type in the module's type table.
    pub ty: usize,
    pub binding: Option<Binding>,
}

/// The result of an entry point's function signature.
#[derive(Clone, Debug, PartialEq, Eq)]
pub struct FunctionResult {
    /// Index of the result's type in the module's type table.
    pub ty: usize,
    pub binding: Option<Binding>,
}

/// One exported shader function.
#[derive(Clone, Debug, PartialEq, Eq)]
pub struct EntryPoint {
    pub name: String,
    pub stage: ShaderStage,
    /// Meaningful for the compute stage only; zero elsewhere.
    pub workgroup_size: WorkgroupSize,
    pub args: Vec<FunctionArgument>,
    pub result: Option<FunctionResult>,
}

/// The visibility mask naming the stages from which a binding is reachable.
#[derive(Clone, Copy, Debug, PartialEq, Eq, Structural)]
pub struct ShaderStages {
    pub vertex: bool,
    pub fragment: bool,
    pub compute: bool,
}

/// A whole shader module: the flat type table, the global variables, and
/// the entry points, all referring to types by table index.
#[derive(Clone, Debug, PartialEq, Eq)]
pub struct ShaderModule {
    pub types: Vec<Type>,
    pub global_variables: Vec<GlobalVariable>,
    pub entry_points: Vec<EntryPoint>,
}

impl TypeInner {
    /// All type-table indices held by this declaration are below `n`.
    pub open spec fn wf(&self, n: nat) -> bool {
        match self {
            TypeInner::Array { base } => *base < n,
            TypeInner::Struct { members } => forall|i: int|
                0 <= i < members@.len() ==> (#[trigger] members@[i]).ty < n,
            _ => true,
        }
    }
}

impl EntryPoint {
    /// All type-table indices held by this entry point are below `n`.
    pub open spec fn wf(&self, n: nat) -> bool {
        &&& forall|i: int| 0 <= i < self.args@.len() ==> (#[trigger] self.args@[i]).ty < n
        &&& match self.result {
            Some(r) => r.ty < n,
            None => true,
        }
    }
}

impl ShaderModule {
    /// Well-formedness: every type reference lands inside the type table.
    pub open spec fn wf(&self) -> bool {
        &&& forall|i: int|
            0 <= i < self.types@.len() ==> (#[trigger] self.types@[i]).inner.wf(
                self.types@.len(),
            )
        &&& forall|i: int|
            0 <= i < self.global_variables@.len() ==> (#[trigger] self.global_variables@[i]).ty
                < self.types@.len()
        &&& forall|i: int|
            0 <= i < self.entry_points@.len() ==> (#[trigger] self.entry_points@[i]).wf(
                self.types@.len(),
            )
    }
}

impl Type {
    /// Checks that this declaration's type references land below `n`.
    #[verifier::loop_isolation(false)]
    fn check_wf(&self, n: usize) -> (b: bool)
        ensures
            b == self.inner.wf(n as nat),
    {
        match &self.inner {
            TypeInner::Array { base } => *base < n,
            TypeInner::Struct { members } => {
                let len = members.len();
                let mut k: usize = 0;
                while k < len
                    invariant
                        k <= len,
                        len == members@.len(),
                        forall|j: int| 0 <= j < k ==> (#[trigger] members@[j]).ty < n,
                    decreases len - k,
                {
                    if members[k].ty >= n {
                        proof {
                            assert((members@[k as int]).ty >= n);
                        }
                        return false;
                    }
                    k += 1;
                }
                true
            },
            _ => true,
        }
    }
}

impl EntryPoint {
    /// Checks that this entry point's type references land below `n`.
    #[verifier::loop_isolation(false)]
    fn check_wf(&self, n: usize) -> (b: bool)
        ensures
            b == self.wf(n as nat),
    {
        let len = self.args.len();
        let mut k: usize = 0;
        while k < len
            invariant
                k <= len,
                len == self.args@.len(),
                forall|j: int| 0 <= j < k ==> (#[trigger] self.args@[j]).ty < n,
            decreases len - k,
        {
            if self.args[k].ty >= n {
                proof {
                    assert((self.args@[k as int]).ty >= n);
                }
                return false;
            }
            k += 1;
        }
        match &self.result {
            Some(r) => r.ty < n,
            None => true,
        }
    }
}

impl ShaderModule {
    /// Checks that every type reference lands inside the type table.
    #[verifier::loop_isolation(false)]
    pub fn check_wf(&self) -> (b: bool)
        ensures
            b == self.wf(),
    {
        let n = self.types.len();
        let mut i: usize = 0;
        while i < n
            invariant
                i <= n,
                n == self.types@.len(),
                forall|j: int|
                    0 <= j < i ==> (#[trigger] self.types@[j]).inner.wf(self.types@.len()),
            decreases n - i,
        {
            if !self.types[i].check_wf(n) {
                proof {
                    assert(!(self.types@[i as int]).inner.wf(self.types@.len()));
                }
                return false;
            }
            i += 1;
        }
        let ng = self.global_variables.len();
        let mut g: usize = 0;
        while g < ng
            invariant
                g <= ng,
                n == self.types@.len(),
                ng == self.global_variables@.len(),
                forall|j: int|
                    0 <= j < i ==> (#[trigger] self.types@[j]).inner.wf(self.types@.len()),
                i >= n,
                forall|j: int|
                    0 <= j < g ==> (#[trigger] self.global_variables@[j]).ty
                        < self.types@.len(),
            decreases ng - g,
        {
            if self.global_variables[g].ty >= n {
                proof {
                    assert((self.global_variables@[g as int]).ty >= n);
                }
                return false;
            }
            g += 1;
        }
        let ne = self.entry_points.len();
        let mut e: usize = 0;
        while e < ne
            invariant
                e <= ne,
                n == self.types@.len(),
                ne == self.entry_points@.len(),
                forall|j: int|
                    0 <= j < i ==> (#[trigger] self.types@[j]).inner.wf(self.types@.len()),
                i >= n,
                forall|j: int|
                    0 <= j < g ==> (#[trigger] self.global_variables@[j]).ty
                        < self.types@.len(),
                g >= self.global_variables@.len(),
                forall|j: int|
                    0 <= j < e ==> (#[trigger] self.entry_points@[j]).wf(self.types@.len()),
            decreases ne - e,
        {
            if !self.entry_points[e].check_wf(n) {
                proof {
                    assert(!(self.entry_points@[e as int]).wf(self.types@.len()));
                }
                return false;
            }
            e += 1;
        }
        true
    }
}

} // verus!
