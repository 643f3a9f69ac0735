//! Bind group extraction.
//!
//! Walks a module's global resource declarations and produces the validated,
//! normalized grouping: one entry per group index, groups covering exactly
//! `0..N`, and within each group the bindings ordered by ascending binding
//! index. Two resources at the same (group, binding) pair, or a set of group
//! indices that is not `0..N`, are hard validation failures.
use vstd::prelude::*;

use crate::binding::{
    bind_group_layout_entry, resource_arg_kind, spec_binding_type, spec_params_match,
    spec_resource_arg_kind, BindGroupLayoutEntry, BindingType, ConfigParam, ResourceArgKind,
};
use crate::module::{
    AddressSpace, GlobalVariable, ImageClass, ScalarKind, ShaderModule, ShaderStages, Type,
    TypeInner,
};
use crate::{CreateModuleError, MappingError};

verus! {

/// One extracted resource binding, normalized from a global variable.
#[derive(Clone, Debug, PartialEq, Eq)]
pub struct GroupBinding {
    pub name: Option<String>,
    pub binding_index: u32,
    /// Index of the resource's type in the module's type table.
    pub ty: usize,
    pub address_space: AddressSpace,
}

/// The set of bindings sharing one group index, ordered by binding index.
#[derive(Clone, Debug, PartialEq, Eq)]
pub struct GroupData {
    pub bindings: Vec<GroupBinding>,
}

/// The global variable carries an explicit (group, binding) annotation and
/// therefore takes part in extraction.
pub open spec fn annotated(gv: GlobalVariable) -> bool {
    gv.binding is Some
}

/// The (group, binding) coordinates of an annotated global variable.
pub open spec fn coords(gv: GlobalVariable) -> crate::module::ResourceBinding {
    gv.binding.unwrap()
}

/// The normalized record extraction produces for an annotated global.
pub open spec fn record_of(gv: GlobalVariable) -> GroupBinding {
    GroupBinding {
        name: gv.name,
        binding_index: coords(gv).binding,
        ty: gv.ty,
        address_space: gv.space,
    }
}

/// Both globals are annotated and declare the same (group, binding) pair.
pub open spec fn same_coords(a: GlobalVariable, b: GlobalVariable) -> bool {
    &&& annotated(a)
    &&& annotated(b)
    &&& coords(a).group == coords(b).group
    &&& coords(a).binding == coords(b).binding
}

/// Some two distinct globals among the first `n` share coordinates.
pub open spec fn dup_within(globals: Seq<GlobalVariable>, n: int) -> bool {
    exists|i: int, j: int|
        0 <= i < j < n && same_coords(#[trigger] globals[i], #[trigger] globals[j])
}

/// Some two distinct globals of the module share coordinates.
pub open spec fn has_duplicate(globals: Seq<GlobalVariable>) -> bool {
    dup_within(globals, globals.len() as int)
}

/// Global `j` shares coordinates with an earlier global.
pub open spec fn collides_at(globals: Seq<GlobalVariable>, j: int) -> bool {
    exists|i: int| 0 <= i < j && same_coords(#[trigger] globals[i], globals[j])
}

/// Some global among the first `n` is annotated with group `g`.
pub open spec fn group_present(globals: Seq<GlobalVariable>, g: u32, n: int) -> bool {
    exists|i: int|
        0 <= i < n && annotated(#[trigger] globals[i]) && coords(globals[i]).group == g
}

/// The set of group indices present in the module is downward closed,
/// i.e. equals `0..N` for some `N`.
pub open spec fn groups_contiguous(globals: Seq<GlobalVariable>) -> bool {
    forall|g1: u32, g2: u32|
        g1 < g2 && #[trigger] group_present(globals, g2, globals.len() as int)
            ==> #[trigger] group_present(globals, g1, globals.len() as int)
}

/// `rec` occurs among the group's bindings.
pub open spec fn group_has_record(gd: GroupData, rec: GroupBinding) -> bool {
    exists|k: int| 0 <= k < gd.bindings@.len() && gd.bindings@[k] == rec
}

/// Every annotated global among the first `n` has its record in the
/// entry for its group index.
pub open spec fn group_complete(globals: Seq<GlobalVariable>, r: Seq<GroupData>, n: int) -> bool {
    forall|i: int|
        0 <= i < n && annotated(#[trigger] globals[i]) ==> {
            &&& (coords(globals[i]).group as int) < r.len()
            &&& group_has_record(r[coords(globals[i]).group as int], record_of(globals[i]))
        }
}

/// `rec` is the record of some annotated global among the first `n`
/// declared at group `g`.
pub open spec fn record_from_group(
    globals: Seq<GlobalVariable>,
    n: int,
    g: int,
    rec: GroupBinding,
) -> bool {
    exists|i: int|
        0 <= i < n && annotated(#[trigger] globals[i]) && coords(globals[i]).group == g
            && record_of(globals[i]) == rec
}

/// Every record held by the result comes from an annotated global of the
/// matching group among the first `n`.
pub open spec fn group_sound(globals: Seq<GlobalVariable>, r: Seq<GroupData>, n: int) -> bool {
    forall|g: int, k: int|
        0 <= g < r.len() && 0 <= k < r[g].bindings@.len() ==> record_from_group(
            globals,
            n,
            g,
            #[trigger] r[g].bindings@[k],
        )
}

/// Binding indices strictly ascend within the group.
pub open spec fn group_sorted(gd: GroupData) -> bool {
    forall|k1: int, k2: int|
        0 <= k1 < k2 < gd.bindings@.len() ==> (#[trigger] gd.bindings@[k1]).binding_index < (
        #[trigger] gd.bindings@[k2]).binding_index
}

/// Clones an optional resource name.
fn clone_name(name: &Option<String>) -> (r: Option<String>)
    ensures
        r == *name,
{
    match name {
        Some(s) => Some(s.clone()),
        None => None,
    }
}

/// Inserts a record into a group at its sorted position, rejecting a
/// binding index already present.
fn insert_binding(gd: &mut GroupData, rec: GroupBinding) -> (r: Result<(), CreateModuleError>)
    requires
        group_sorted(*old(gd)),
    ensures
        match r {
            Ok(()) => {
                &&& forall|k: int|
                    0 <= k < old(gd).bindings@.len() ==> (#[trigger] old(
                        gd,
                    ).bindings@[k]).binding_index != rec.binding_index
                &&& group_sorted(*final(gd))
                &&& exists|p: int|
                    0 <= p <= old(gd).bindings@.len() && final(gd).bindings@ == old(
                        gd,
                    ).bindings@.insert(p, rec)
            },
            Err(e) => {
                &&& *final(gd) == *old(gd)
                &&& e == (CreateModuleError::DuplicateBinding { binding: rec.binding_index })
                &&& exists|k: int|
                    0 <= k < old(gd).bindings@.len() && (#[trigger] old(
                        gd,
                    ).bindings@[k]).binding_index == rec.binding_index
            },
        },
{
    let b = rec.binding_index;
    let n = gd.bindings.len();
    let mut p: usize = 0;
    while p < n && gd.bindings[p].binding_index < b
        invariant
            p <= n,
            n == gd.bindings@.len(),
            *gd == *old(gd),
            forall|k: int| 0 <= k < p ==> (#[trigger] gd.bindings@[k]).binding_index < b,
        decreases n - p,
    {
        p += 1;
    }
    if p < n && gd.bindings[p].binding_index == b {
        return Err(CreateModuleError::DuplicateBinding { binding: b });
    }
    proof {
        assert forall|k: int|
            0 <= k < gd.bindings@.len() implies (#[trigger] gd.bindings@[k]).binding_index
            != b by {
            if k >= p && k != p {
                assert(gd.bindings@[p as int].binding_index < gd.bindings@[k].binding_index);
            }
        }
    }
    let ghost pre = gd.bindings@;
    gd.bindings.insert(p, rec);
    proof {
        pre.insert_ensures(p as int, rec);
        assert forall|k1: int, k2: int|
            0 <= k1 < k2 < gd.bindings@.len() implies (#[trigger] gd.bindings@[k1]).binding_index
            < (#[trigger] gd.bindings@[k2]).binding_index by {
            if k1 < p && k2 > p {
                assert(gd.bindings@[k1] == pre[k1]);
                assert(gd.bindings@[k2] == pre[k2 - 1]);
                if k2 - 1 > k1 {
                    assert(pre[k1].binding_index < pre[k2 - 1].binding_index);
                } else {
                    assert(pre[k1].binding_index < b);
                    assert(pre[k2 - 1].binding_index == pre[k1].binding_index);
                }
            }
        }
    }
    Ok(())
}

/// Mutable access to one group entry.
fn group_at<'a>(groups: &'a mut Vec<GroupData>, g: usize) -> (gd: &'a mut GroupData)
    requires
        g < old(groups)@.len(),
    ensures
        *gd == old(groups)@[g as int],
        final(groups)@ == old(groups)@.update(g as int, *final(gd)),
{
    &mut groups[g]
}

/// Extracts the module's bind group layout.
///
/// On success the result holds one entry per group index; the group
/// indices present in the module are exactly `0..N`, each entry holds
/// exactly the records of the globals annotated with its group index, and
/// bindings ascend strictly by binding index. A repeated (group, binding)
/// pair fails with `DuplicateBinding` naming the binding index of the
/// first offending global; group indices that are not `0..N` fail with
/// `NonConsecutiveBindGroups`.
#[verifier::loop_isolation(false)]
pub fn get_bind_group_data(module: &ShaderModule) -> (r: Result<
    Vec<GroupData>,
    CreateModuleError,
>)
    ensures
        match r {
            Ok(groups) => {
                let globals = module.global_variables@;
                &&& !has_duplicate(globals)
                &&& groups_contiguous(globals)
                &&& forall|g: u32|
                    #[trigger] group_present(globals, g, globals.len() as int) <==> (g as int)
                        < groups@.len()
                &&& group_complete(globals, groups@, globals.len() as int)
                &&& group_sound(globals, groups@, globals.len() as int)
                &&& forall|g: int| 0 <= g < groups@.len() ==> group_sorted(#[trigger] groups@[g])
                &&& groups@.len() <= u32::MAX as int + 1
            },
            Err(CreateModuleError::DuplicateBinding { binding }) => {
                let globals = module.global_variables@;
                exists|j: int|
                    {
                        &&& 0 <= j < globals.len()
                        &&& #[trigger] collides_at(globals, j)
                        &&& annotated(globals[j])
                        &&& coords(globals[j]).binding == binding
                        &&& forall|j2: int| 0 <= j2 < j ==> !collides_at(globals, j2)
                    }
            },
            Err(CreateModuleError::NonConsecutiveBindGroups) => {
                &&& !has_duplicate(module.global_variables@)
                &&& !groups_contiguous(module.global_variables@)
            },
        },
{
    let ghost globals = module.global_variables@;
    let mut groups: Vec<GroupData> = Vec::new();
    let num_globals = module.global_variables.len();
    let mut i: usize = 0;
    while i < num_globals
        invariant
            i <= num_globals,
            !dup_within(globals, i as int),
            group_complete(globals, groups@, i as int),
            group_sound(globals, groups@, i as int),
            forall|g: int| 0 <= g < groups@.len() ==> group_sorted(#[trigger] groups@[g]),
            groups@.len() > 0 ==> groups@[groups@.len() - 1].bindings@.len() > 0,
            groups@.len() <= u32::MAX as int + 1,
        decreases num_globals - i,
    {
        let global = &module.global_variables[i];
        if let Some(rb) = &global.binding {
            let g = rb.group as usize;
            let rec = GroupBinding {
                name: clone_name(&global.name),
                binding_index: rb.binding,
                ty: global.ty,
                address_space: global.space,
            };
            assert(rec == record_of(globals[i as int]));
            while groups.len() <= g
                invariant
                    groups@.len() <= u32::MAX as int + 1,
                    groups@.len() > 0 ==> (groups@[groups@.len() - 1].bindings@.len() > 0
                        || groups@.len() <= g + 1),
                    group_complete(globals, groups@, i as int),
                    group_sound(globals, groups@, i as int),
                    forall|g2: int|
                        0 <= g2 < groups@.len() ==> group_sorted(#[trigger] groups@[g2]),
                decreases g + 1 - groups@.len(),
            {
                groups.push(GroupData { bindings: Vec::new() });
            }
            let ghost pre_groups = groups@;
            let gd = group_at(&mut groups, g);
            let ghost pre_gd = *gd;
            match insert_binding(gd, rec) {
                Ok(()) => {
                    proof {
                        let p = choose|p: int|
                            0 <= p <= pre_gd.bindings@.len() && gd.bindings@
                                == pre_gd.bindings@.insert(p, rec);
                        pre_gd.bindings@.insert_ensures(p, rec);
                        // no new duplicate: a colliding earlier global would have
                        // left a record with this binding index in this group
                        assert forall|a: int, b: int|
                            0 <= a < b < i + 1 implies !same_coords(globals[a], globals[b]) by {
                            if b < i as int {
                                assert(!dup_within(globals, i as int) ==> !(0 <= a < b < i
                                    && same_coords(globals[a], globals[b])));
                            } else if same_coords(globals[a], globals[b]) {
                                // b == i: complete puts the record of a into slot g
                                assert(group_has_record(
                                    pre_groups[g as int],
                                    record_of(globals[a]),
                                ));
                                let k = choose|k: int|
                                    0 <= k < pre_gd.bindings@.len() && pre_gd.bindings@[k]
                                        == record_of(globals[a]);
                                assert(pre_gd.bindings@[k].binding_index == rec.binding_index);
                            }
                        }
                        assert(!dup_within(globals, i as int + 1));
                        // completeness for the new prefix
                        assert forall|i2: int|
                            0 <= i2 < i + 1 && annotated(globals[i2]) implies {
                            &&& (coords(globals[i2]).group as int) < groups@.len()
                            &&& group_has_record(
                                groups@[coords(globals[i2]).group as int],
                                record_of(globals[i2]),
                            )
                        } by {
                            let g2 = coords(globals[i2]).group as int;
                            if i2 == i as int {
                                assert(groups@[g2].bindings@[p] == rec);
                                assert(group_has_record(groups@[g2], record_of(globals[i2])));
                            } else {
                                assert((coords(globals[i2]).group as int) < pre_groups.len());
                                assert(group_has_record(pre_groups[g2], record_of(globals[i2])));
                                if g2 == g as int {
                                    let k = choose|k: int|
                                        0 <= k < pre_gd.bindings@.len() && pre_gd.bindings@[k]
                                            == record_of(globals[i2]);
                                    if k < p {
                                        assert(groups@[g2].bindings@[k] == record_of(
                                            globals[i2],
                                        ));
                                    } else {
                                        assert(groups@[g2].bindings@[k + 1] == record_of(
                                            globals[i2],
                                        ));
                                    }
                                    assert(group_has_record(groups@[g2], record_of(globals[i2])));
                                } else {
                                    assert(groups@[g2] == pre_groups[g2]);
                                }
                            }
                        }
                        // soundness for the new prefix
                        assert forall|g2: int, k: int|
                            0 <= g2 < groups@.len() && 0 <= k
                                < groups@[g2].bindings@.len() implies record_from_group(
                            globals,
                            i as int + 1,
                            g2,
                            groups@[g2].bindings@[k],
                        ) by {
                            if g2 == g as int {
                                if k == p {
                                    assert(groups@[g2].bindings@[k] == rec);
                                    assert(annotated(globals[i as int]) && coords(
                                        globals[i as int],
                                    ).group == g2 && record_of(globals[i as int]) == rec);
                                } else {
                                    let kk = if k < p {
                                        k
                                    } else {
                                        k - 1
                                    };
                                    assert(groups@[g2].bindings@[k] == pre_gd.bindings@[kk]);
                                    assert(record_from_group(
                                        globals,
                                        i as int,
                                        g2,
                                        pre_gd.bindings@[kk],
                                    ));
                                    let i2 = choose|i2: int|
                                        0 <= i2 < i && annotated(globals[i2]) && coords(
                                            globals[i2],
                                        ).group == g2 && record_of(globals[i2])
                                            == pre_gd.bindings@[kk];
                                    assert(record_from_group(
                                        globals,
                                        i as int + 1,
                                        g2,
                                        groups@[g2].bindings@[k],
                                    ));
                                }
                            } else {
                                assert(groups@[g2] == pre_groups[g2]);
                                assert(record_from_group(
                                    globals,
                                    i as int,
                                    g2,
                                    groups@[g2].bindings@[k],
                                ));
                                let i2 = choose|i2: int|
                                    0 <= i2 < i && annotated(globals[i2]) && coords(
                                        globals[i2],
                                    ).group == g2 && record_of(globals[i2])
                                        == groups@[g2].bindings@[k];
                                assert(record_from_group(
                                    globals,
                                    i as int + 1,
                                    g2,
                                    groups@[g2].bindings@[k],
                                ));
                            }
                        }
                        // the tail group stays nonempty
                        assert(groups@[groups@.len() - 1].bindings@.len() > 0);
                    }
                },
                Err(e) => {
                    proof {
                        // the found record witnesses an earlier global with the
                        // same coordinates
                        let k = choose|k: int|
                            0 <= k < pre_gd.bindings@.len() && pre_gd.bindings@[k].binding_index
                                == rec.binding_index;
                        assert(record_from_group(
                            globals,
                            i as int,
                            g as int,
                            pre_gd.bindings@[k],
                        ));
                        let i2 = choose|i2: int|
                            0 <= i2 < i && annotated(globals[i2]) && coords(globals[i2]).group
                                == g as int && record_of(globals[i2]) == pre_gd.bindings@[k];
                        assert(same_coords(globals[i2], globals[i as int]));
                        assert(collides_at(globals, i as int));
                        assert forall|j2: int| 0 <= j2 < i implies !collides_at(
                            globals,
                            j2,
                        ) by {
                            if collides_at(globals, j2) {
                                let i3 = choose|i3: int|
                                    0 <= i3 < j2 && same_coords(globals[i3], globals[j2]);
                                assert(dup_within(globals, i as int));
                            }
                        }
                    }
                    return Err(e);
                },
            }
        } else {
            proof {
                assert forall|a: int, b: int|
                    0 <= a < b < i + 1 implies !same_coords(globals[a], globals[b]) by {
                    if b == i as int {
                        assert(!annotated(globals[b]));
                    }
                }
                assert(!dup_within(globals, i as int + 1));
            }
        }
        i += 1;
    }
    // verify the groups cover exactly 0..N
    let n = groups.len();
    let mut g: usize = 0;
    while g < n
        invariant
            g <= n,
            n == groups@.len(),
            forall|g2: int| 0 <= g2 < g ==> groups@[g2].bindings@.len() > 0,
        decreases n - g,
    {
        if groups[g].bindings.len() == 0 {
            proof {
                // slot g is empty: its group index is absent, while the last
                // group index is present, so the set has a gap
                let last = (n - 1) as u32;
                assert(record_from_group(
                    globals,
                    num_globals as int,
                    last as int,
                    groups@[n - 1].bindings@[0],
                ));
                assert(group_present(globals, last, globals.len() as int));
                if group_present(globals, g as u32, globals.len() as int) {
                    let i2 = choose|i2: int|
                        0 <= i2 < globals.len() && annotated(globals[i2]) && coords(
                            globals[i2],
                        ).group == g as u32;
                    assert(group_has_record(groups@[g as int], record_of(globals[i2])));
                }
                assert(!group_present(globals, g as u32, globals.len() as int));
                assert(!groups_contiguous(globals));
            }
            return Err(CreateModuleError::NonConsecutiveBindGroups);
        }
        g += 1;
    }
    proof {
        assert forall|gg: u32| #[trigger]
            group_present(globals, gg, globals.len() as int) implies (gg as int)
            < groups@.len() by {
            let i2 = choose|i2: int|
                0 <= i2 < globals.len() && annotated(globals[i2]) && coords(globals[i2]).group
                    == gg;
        }
        assert forall|gg: u32| (gg as int) < groups@.len() implies #[trigger] group_present(
            globals,
            gg,
            globals.len() as int,
        ) by {
            assert(groups@[gg as int].bindings@.len() > 0);
            assert(record_from_group(
                globals,
                num_globals as int,
                gg as int,
                groups@[gg as int].bindings@[0],
            ));
            let i2 = choose|i2: int|
                0 <= i2 < num_globals && annotated(globals[i2]) && coords(globals[i2]).group
                    == gg as int && record_of(globals[i2]) == groups@[gg as int].bindings@[0];
        }
    }
    Ok(groups)
}


/// The generated description of one bind group: its layout entries and
/// the typed arguments its bound-resource-set constructor takes.
#[derive(Clone, Debug, PartialEq, Eq)]
pub struct BindGroupPlan {
    pub group_index: u32,
    pub entries: Vec<BindGroupLayoutEntry>,
    pub accessor_args: Vec<ResourceArg>,
}

/// One typed argument of a generated bind-group constructor.
#[derive(Clone, Debug, PartialEq, Eq)]
pub struct ResourceArg {
    pub name: String,
    pub binding: u32,
    pub kind: ResourceArgKind,
}

/// What a shader-level description keeps of one bind group: its index
/// and the configurable parameters its layout constructor takes, which
/// compose into the pipeline-layout cache key.
#[derive(Clone, Debug, PartialEq, Eq)]
pub struct BindGroup {
    pub group_index: u32,
    pub new_args: Vec<ConfigParam>,
}

/// Every binding's type index lands inside the type table.
pub open spec fn group_types_wf(types: Seq<Type>, gd: GroupData) -> bool {
    forall|k: int| 0 <= k < gd.bindings@.len() ==> (#[trigger] gd.bindings@[k]).ty < types.len()
}

/// Every binding carries a resource name.
pub open spec fn group_names_ok(gd: GroupData) -> bool {
    forall|k: int| 0 <= k < gd.bindings@.len() ==> (#[trigger] gd.bindings@[k]).name is Some
}

/// The number of configurable parameters one binding contributes.
pub open spec fn spec_param_count(types: Seq<Type>, b: GroupBinding) -> int {
    match types[b.ty as int].inner {
        TypeInner::Image {
            class: ImageClass::Sampled { kind: ScalarKind::Float, .. },
            ..
        } => 1,
        TypeInner::Sampler { comparison: false } => 1,
        _ => 0,
    }
}

/// The index at which binding `k`'s parameters start within the group's
/// flattened parameter list.
pub open spec fn spec_param_offset(types: Seq<Type>, bindings: Seq<GroupBinding>, k: int) -> int
    decreases k,
{
    if k <= 0 {
        0
    } else {
        spec_param_offset(types, bindings, k - 1) + spec_param_count(types, bindings[k - 1])
    }
}

proof fn lemma_param_offset_monotone(
    types: Seq<Type>,
    bindings: Seq<GroupBinding>,
    k1: int,
    k2: int,
)
    requires
        0 <= k1 <= k2,
    ensures
        spec_param_offset(types, bindings, k1) <= spec_param_offset(types, bindings, k2),
    decreases k2 - k1,
{
    if k1 < k2 {
        lemma_param_offset_monotone(types, bindings, k1, k2 - 1);
    }
}

/// The layout entry is the mapped descriptor of the binding, at its slot
/// and with the given visibility.
pub open spec fn plan_entry_ok(
    types: Seq<Type>,
    stages: ShaderStages,
    group_no: u32,
    b: GroupBinding,
    entry: BindGroupLayoutEntry,
) -> bool {
    &&& entry.binding == b.binding_index
    &&& entry.visibility == stages
    &&& spec_binding_type(types[b.ty as int].inner, b.address_space, group_no, b.binding_index)
        == Ok::<BindingType, MappingError>(entry.ty)
}

/// The flattened parameter list holds, in binding order, exactly each
/// binding's owed configurable parameters.
pub open spec fn group_params_ok(
    types: Seq<Type>,
    bindings: Seq<GroupBinding>,
    params: Seq<ConfigParam>,
) -> bool {
    &&& params.len() == spec_param_offset(types, bindings, bindings.len() as int)
    &&& forall|k: int|
        0 <= k < bindings.len() ==> spec_params_match(
            types[(#[trigger] bindings[k]).ty as int].inner,
            bindings[k].name.unwrap()@,
            params.subrange(
                spec_param_offset(types, bindings, k),
                spec_param_offset(types, bindings, k) + spec_param_count(types, bindings[k]),
            ),
        )
}

/// Builds the layout entries of one group together with the configurable
/// parameters its layout constructor takes.
#[verifier::rlimit(60)]
#[verifier::loop_isolation(false)]
pub fn bind_group_layout_new(
    module: &ShaderModule,
    group_no: u32,
    group: &GroupData,
    shader_stages: ShaderStages,
) -> (r: Result<(Vec<BindGroupLayoutEntry>, Vec<ConfigParam>), MappingError>)
    requires
        group_types_wf(module.types@, *group),
        group_names_ok(*group),
    ensures
        match r {
            Ok((entries, args)) => {
                &&& entries@.len() == group.bindings@.len()
                &&& forall|k: int|
                    0 <= k < group.bindings@.len() ==> plan_entry_ok(
                        module.types@,
                        shader_stages,
                        group_no,
                        group.bindings@[k],
                        #[trigger] entries@[k],
                    )
                &&& group_params_ok(module.types@, group.bindings@, args@)
            },
            Err(e) => exists|k: int|
                0 <= k < group.bindings@.len() && spec_binding_type(
                    module.types@[(#[trigger] group.bindings@[k]).ty as int].inner,
                    group.bindings@[k].address_space,
                    group_no,
                    group.bindings@[k].binding_index,
                ) == Err::<BindingType, MappingError>(e),
        },
{
    let ghost types = module.types@;
    let ghost bindings = group.bindings@;
    let n = group.bindings.len();
    let mut entries: Vec<BindGroupLayoutEntry> = Vec::new();
    let mut args: Vec<ConfigParam> = Vec::new();
    let mut i: usize = 0;
    while i < n
        invariant
            i <= n,
            entries@.len() == i,
            forall|k: int|
                0 <= k < i ==> plan_entry_ok(
                    types,
                    shader_stages,
                    group_no,
                    bindings[k],
                    #[trigger] entries@[k],
                ),
            args@.len() == spec_param_offset(types, bindings, i as int),
            forall|k: int|
                0 <= k < i ==> spec_params_match(
                    types[(#[trigger] bindings[k]).ty as int].inner,
                    bindings[k].name.unwrap()@,
                    args@.subrange(
                        spec_param_offset(types, bindings, k),
                        spec_param_offset(types, bindings, k) + spec_param_count(
                            types,
                            bindings[k],
                        ),
                    ),
                ),
        decreases n - i,
    {
        let b = &group.bindings[i];
        let name = match &b.name {
            Some(nm) => nm,
            None => {
                proof {
                    assert(false);
                }
                return Err(
                    MappingError::UnsupportedResourceType {
                        group: group_no,
                        binding: b.binding_index,
                    },
                );
            },
        };
        match bind_group_layout_entry(module, group_no, name, b, shader_stages) {
            Ok((entry, mut ps)) => {
                let ghost old_args = args@;
                let ghost psv = ps@;
                entries.push(entry);
                args.append(&mut ps);
                proof {
                    assert(spec_param_offset(types, bindings, i + 1) == spec_param_offset(
                        types,
                        bindings,
                        i as int,
                    ) + spec_param_count(types, bindings[i as int]));
                    assert(psv.len() == spec_param_count(types, bindings[i as int]));
                    assert(args@ == old_args + psv);
                    assert(args@.subrange(
                        spec_param_offset(types, bindings, i as int),
                        spec_param_offset(types, bindings, i as int) + spec_param_count(
                            types,
                            bindings[i as int],
                        ),
                    ) =~= psv);
                    assert forall|k: int| 0 <= k < i implies spec_params_match(
                        types[(#[trigger] bindings[k]).ty as int].inner,
                        bindings[k].name.unwrap()@,
                        args@.subrange(
                            spec_param_offset(types, bindings, k),
                            spec_param_offset(types, bindings, k) + spec_param_count(
                                types,
                                bindings[k],
                            ),
                        ),
                    ) by {
                        lemma_param_offset_monotone(types, bindings, 0, k);
                        assert(spec_param_offset(types, bindings, k + 1) == spec_param_offset(
                            types,
                            bindings,
                            k,
                        ) + spec_param_count(types, bindings[k]));
                        lemma_param_offset_monotone(types, bindings, k + 1, i as int);
                        assert(args@.subrange(
                            spec_param_offset(types, bindings, k),
                            spec_param_offset(types, bindings, k) + spec_param_count(
                                types,
                                bindings[k],
                            ),
                        ) =~= old_args.subrange(
                            spec_param_offset(types, bindings, k),
                            spec_param_offset(types, bindings, k) + spec_param_count(
                                types,
                                bindings[k],
                            ),
                        ));
                    }
                }
            },
            Err(e) => {
                return Err(e);
            },
        }
        i += 1;
    }
    Ok((entries, args))
}

/// The accessor argument is the binding's name, slot and resource flavor.
pub open spec fn arg_matches(types: Seq<Type>, b: GroupBinding, a: ResourceArg) -> bool {
    &&& b.name matches Some(nm) && a.name == nm
    &&& a.binding == b.binding_index
    &&& Some(a.kind) == spec_resource_arg_kind(types[b.ty as int].inner)
}

/// Builds the typed argument list of one group's bound-resource-set
/// constructor: one argument per binding, in binding order.
#[verifier::loop_isolation(false)]
pub fn bind_group_layout_create_bind_group(
    module: &ShaderModule,
    group_no: u32,
    group: &GroupData,
) -> (r: Result<Vec<ResourceArg>, MappingError>)
    requires
        group_types_wf(module.types@, *group),
        group_names_ok(*group),
    ensures
        match r {
            Ok(accessor_args) => {
                &&& accessor_args@.len() == group.bindings@.len()
                &&& forall|k: int|
                    0 <= k < group.bindings@.len() ==> arg_matches(
                        module.types@,
                        group.bindings@[k],
                        #[trigger] accessor_args@[k],
                    )
            },
            Err(e) => exists|k: int|
                0 <= k < group.bindings@.len() && spec_binding_type(
                    module.types@[(#[trigger] group.bindings@[k]).ty as int].inner,
                    group.bindings@[k].address_space,
                    group_no,
                    group.bindings@[k].binding_index,
                ) == Err::<BindingType, MappingError>(e),
        },
{
    let ghost types = module.types@;
    let ghost bindings = group.bindings@;
    let n = group.bindings.len();
    let mut accessor_args: Vec<ResourceArg> = Vec::new();
    let mut i: usize = 0;
    while i < n
        invariant
            i <= n,
            accessor_args@.len() == i,
            forall|k: int|
                0 <= k < i ==> arg_matches(types, bindings[k], #[trigger] accessor_args@[k]),
        decreases n - i,
    {
        let b = &group.bindings[i];
        let name = match &b.name {
            Some(nm) => nm.clone(),
            None => {
                proof {
                    assert(false);
                }
                String::new()
            },
        };
        match resource_arg_kind(module, group_no, b) {
            Ok(kind) => {
                accessor_args.push(ResourceArg { name, binding: b.binding_index, kind });
            },
            Err(e) => {
                return Err(e);
            },
        }
        i += 1;
    }
    Ok(accessor_args)
}

/// The plan and the shader-level record describe the group faithfully.
pub open spec fn group_plan_matches(
    types: Seq<Type>,
    stages: ShaderStages,
    group_no: u32,
    gd: GroupData,
    plan: BindGroupPlan,
) -> bool {
    &&& plan.group_index == group_no
    &&& plan.entries@.len() == gd.bindings@.len()
    &&& forall|k: int|
        0 <= k < gd.bindings@.len() ==> plan_entry_ok(
            types,
            stages,
            group_no,
            gd.bindings@[k],
            #[trigger] plan.entries@[k],
        )
    &&& plan.accessor_args@.len() == gd.bindings@.len()
    &&& forall|k: int|
        0 <= k < gd.bindings@.len() ==> arg_matches(
            types,
            gd.bindings@[k],
            #[trigger] plan.accessor_args@[k],
        )
}

/// The record holds the group's index and its configurable parameters.
pub open spec fn bind_group_matches(
    types: Seq<Type>,
    group_no: u32,
    gd: GroupData,
    bg: BindGroup,
) -> bool {
    &&& bg.group_index == group_no
    &&& group_params_ok(types, gd.bindings@, bg.new_args@)
}

/// Builds one group's plan and its shader-level record.
pub fn bind_group_layout(
    module: &ShaderModule,
    group_no: u32,
    group: &GroupData,
    shader_stages: ShaderStages,
) -> (r: Result<(BindGroupPlan, BindGroup), MappingError>)
    requires
        group_types_wf(module.types@, *group),
        group_names_ok(*group),
    ensures
        match r {
            Ok((plan, bg)) => {
                &&& group_plan_matches(module.types@, shader_stages, group_no, *group, plan)
                &&& bind_group_matches(module.types@, group_no, *group, bg)
            },
            Err(e) => exists|k: int|
                0 <= k < group.bindings@.len() && spec_binding_type(
                    module.types@[(#[trigger] group.bindings@[k]).ty as int].inner,
                    group.bindings@[k].address_space,
                    group_no,
                    group.bindings@[k].binding_index,
                ) == Err::<BindingType, MappingError>(e),
        },
{
    let (entries, new_args) = match bind_group_layout_new(module, group_no, group, shader_stages) {
        Ok(pair) => pair,
        Err(e) => {
            return Err(e);
        },
    };
    let accessor_args = match bind_group_layout_create_bind_group(module, group_no, group) {
        Ok(a) => a,
        Err(e) => {
            return Err(e);
        },
    };
    Ok(
        (
            BindGroupPlan { group_index: group_no, entries, accessor_args },
            BindGroup { group_index: group_no, new_args },
        ),
    )
}

/// Every group's bindings refer into the type table.
pub open spec fn groups_types_wf(types: Seq<Type>, groups: Seq<GroupData>) -> bool {
    forall|g: int| 0 <= g < groups.len() ==> group_types_wf(types, #[trigger] groups[g])
}

/// Every group's bindings are named.
pub open spec fn groups_names_ok(groups: Seq<GroupData>) -> bool {
    forall|g: int| 0 <= g < groups.len() ==> group_names_ok(#[trigger] groups[g])
}

/// Checks that every extracted binding carries a resource name.
pub fn bind_groups_named(groups: &Vec<GroupData>) -> (b: bool)
    ensures
        b == groups_names_ok(groups@),
{
    let n = groups.len();
    let mut g: usize = 0;
    while g < n
        invariant
            g <= n,
            n == groups@.len(),
            forall|g2: int| 0 <= g2 < g ==> group_names_ok(#[trigger] groups@[g2]),
        decreases n - g,
    {
        let m = groups[g].bindings.len();
        let mut k: usize = 0;
        while k < m
            invariant
                k <= m,
                g < groups@.len(),
                m == groups@[g as int].bindings@.len(),
                forall|k2: int|
                    0 <= k2 < k ==> (#[trigger] groups@[g as int].bindings@[k2]).name is Some,
            decreases m - k,
        {
            if groups[g].bindings[k].name.is_none() {
                return false;
            }
            k += 1;
        }
        g += 1;
    }
    true
}

/// Builds the full bind-groups description: one plan and one shader-level
/// record per group, in ascending group order. Fails exactly when some
/// binding's type cannot be mapped, naming that binding.
#[verifier::loop_isolation(false)]
pub fn bind_groups_module(
    module: &ShaderModule,
    bind_group_data: &Vec<GroupData>,
    shader_stages: ShaderStages,
) -> (r: Result<(Vec<BindGroupPlan>, Vec<BindGroup>), MappingError>)
    requires
        groups_types_wf(module.types@, bind_group_data@),
        groups_names_ok(bind_group_data@),
        bind_group_data@.len() <= u32::MAX as int + 1,
    ensures
        match r {
            Ok((plans, bind_groups)) => {
                &&& plans@.len() == bind_group_data@.len()
                &&& bind_groups@.len() == bind_group_data@.len()
                &&& forall|g: int|
                    0 <= g < bind_group_data@.len() ==> group_plan_matches(
                        module.types@,
                        shader_stages,
                        g as u32,
                        bind_group_data@[g],
                        #[trigger] plans@[g],
                    )
                &&& forall|g: int|
                    0 <= g < bind_group_data@.len() ==> bind_group_matches(
                        module.types@,
                        g as u32,
                        bind_group_data@[g],
                        #[trigger] bind_groups@[g],
                    )
            },
            Err(e) => exists|g: int, k: int|
                0 <= g < bind_group_data@.len() && 0 <= k < (
                #[trigger] bind_group_data@[g]).bindings@.len() && spec_binding_type(
                    module.types@[(#[trigger] bind_group_data@[g].bindings@[k]).ty as int].inner,
                    bind_group_data@[g].bindings@[k].address_space,
                    g as u32,
                    bind_group_data@[g].bindings@[k].binding_index,
                ) == Err::<BindingType, MappingError>(e),
        },
{
    let n = bind_group_data.len();
    let mut plans: Vec<BindGroupPlan> = Vec::new();
    let mut bind_groups: Vec<BindGroup> = Vec::new();
    let mut g: usize = 0;
    while g < n
        invariant
            g <= n,
            plans@.len() == g,
            bind_groups@.len() == g,
            forall|g2: int|
                0 <= g2 < g ==> group_plan_matches(
                    module.types@,
                    shader_stages,
                    g2 as u32,
                    bind_group_data@[g2],
                    #[trigger] plans@[g2],
                ),
            forall|g2: int|
                0 <= g2 < g ==> bind_group_matches(
                    module.types@,
                    g2 as u32,
                    bind_group_data@[g2],
                    #[trigger] bind_groups@[g2],
                ),
        decreases n - g,
    {
        match bind_group_layout(module, g as u32, &bind_group_data[g], shader_stages) {
            Ok((plan, bg)) => {
                plans.push(plan);
                bind_groups.push(bg);
            },
            Err(e) => {
                return Err(e);
            },
        }
        g += 1;
    }
    Ok((plans, bind_groups))
}


proof fn lemma_sorted_unique_seq(s1: Seq<GroupBinding>, s2: Seq<GroupBinding>)
    requires
        forall|k1: int, k2: int|
            0 <= k1 < k2 < s1.len() ==> (#[trigger] s1[k1]).binding_index < (
            #[trigger] s1[k2]).binding_index,
        forall|k1: int, k2: int|
            0 <= k1 < k2 < s2.len() ==> (#[trigger] s2[k1]).binding_index < (
            #[trigger] s2[k2]).binding_index,
        forall|x: GroupBinding| s1.contains(x) <==> s2.contains(x),
    ensures
        s1 =~= s2,
    decreases s1.len(),
{
    if s1.len() == 0 {
        if s2.len() > 0 {
            assert(s2.contains(s2[0]));
            assert(s1.contains(s2[0]));
        }
    } else {
        assert(s1.contains(s1[0]));
        assert(s2.contains(s1[0]));
        let p2 = choose|p: int| 0 <= p < s2.len() && s2[p] == s1[0];
        assert(s2.contains(s2[0]));
        assert(s1.contains(s2[0]));
        let p1 = choose|p: int| 0 <= p < s1.len() && s1[p] == s2[0];
        // the heads carry the minimal binding index on both sides, so
        // they are the same record
        assert(s1[0].binding_index >= s2[0].binding_index);
        assert(s2[0].binding_index >= s1[0].binding_index);
        if p2 > 0 {
            assert(s2[0].binding_index < s2[p2].binding_index);
        }
        assert(s1[0] == s2[0]);
        let t1 = s1.drop_first();
        let t2 = s2.drop_first();
        assert forall|x: GroupBinding| t1.contains(x) implies t2.contains(x) by {
            let q = choose|q: int| 0 <= q < t1.len() && t1[q] == x;
            assert(s1[q + 1] == x);
            assert(s1.contains(x));
            assert(s2.contains(x));
            let q2 = choose|q: int| 0 <= q < s2.len() && s2[q] == x;
            assert(s1[0].binding_index < x.binding_index);
            if q2 == 0 {
                assert(x == s2[0]);
            }
            assert(q2 > 0);
            assert(t2[q2 - 1] == x);
        }
        assert forall|x: GroupBinding| t2.contains(x) implies t1.contains(x) by {
            let q = choose|q: int| 0 <= q < t2.len() && t2[q] == x;
            assert(s2[q + 1] == x);
            assert(s2.contains(x));
            assert(s1.contains(x));
            let q1 = choose|q: int| 0 <= q < s1.len() && s1[q] == x;
            assert(s2[0].binding_index < x.binding_index);
            if q1 == 0 {
                assert(x == s1[0]);
            }
            assert(q1 > 0);
            assert(t1[q1 - 1] == x);
        }
        lemma_sorted_unique_seq(t1, t2);
        assert forall|k: int| 0 <= k < s1.len() implies s1[k] == s2[k] by {
            if k > 0 {
                assert(s1[k] == t1[k - 1]);
                assert(s2[k] == t2[k - 1]);
            }
        }
    }
}

/// Extraction is deterministic: any two results that satisfy its
/// success contract for the same global declarations agree group for
/// group and binding for binding. Regenerating from a fixed module
/// therefore reproduces the same grouping.
pub proof fn lemma_bind_group_data_deterministic(
    globals: Seq<GlobalVariable>,
    r1: Seq<GroupData>,
    r2: Seq<GroupData>,
)
    requires
        forall|g: u32|
            #[trigger] group_present(globals, g, globals.len() as int) <==> (g as int) < r1.len(),
        group_complete(globals, r1, globals.len() as int),
        group_sound(globals, r1, globals.len() as int),
        forall|g: int| 0 <= g < r1.len() ==> group_sorted(#[trigger] r1[g]),
        forall|g: u32|
            #[trigger] group_present(globals, g, globals.len() as int) <==> (g as int) < r2.len(),
        group_complete(globals, r2, globals.len() as int),
        group_sound(globals, r2, globals.len() as int),
        forall|g: int| 0 <= g < r2.len() ==> group_sorted(#[trigger] r2[g]),
        r1.len() <= u32::MAX as int + 1,
        r2.len() <= u32::MAX as int + 1,
    ensures
        r1.len() == r2.len(),
        forall|g: int| 0 <= g < r1.len() ==> (#[trigger] r1[g]).bindings@ =~= r2[g].bindings@,
{
    if r1.len() < r2.len() {
        let g = r1.len() as u32;
        assert(group_present(globals, g, globals.len() as int));
        assert((g as int) < r1.len());
    }
    if r2.len() < r1.len() {
        let g = r2.len() as u32;
        assert(group_present(globals, g, globals.len() as int));
        assert((g as int) < r2.len());
    }
    assert forall|g: int| 0 <= g < r1.len() implies (#[trigger] r1[g]).bindings@
        =~= r2[g].bindings@ by {
        let s1 = r1[g].bindings@;
        let s2 = r2[g].bindings@;
        assert forall|x: GroupBinding| s1.contains(x) implies s2.contains(x) by {
            let k = choose|k: int| 0 <= k < s1.len() && s1[k] == x;
            assert(record_from_group(globals, globals.len() as int, g, s1[k]));
            let i = choose|i: int|
                0 <= i < globals.len() && annotated(globals[i]) && coords(globals[i]).group == g
                    && record_of(globals[i]) == x;
            assert(group_has_record(r2[coords(globals[i]).group as int], record_of(globals[i])));
            let k2 = choose|k2: int| 0 <= k2 < s2.len() && s2[k2] == record_of(globals[i]);
            assert(s2[k2] == x);
        }
        assert forall|x: GroupBinding| s2.contains(x) implies s1.contains(x) by {
            let k = choose|k: int| 0 <= k < s2.len() && s2[k] == x;
            assert(record_from_group(globals, globals.len() as int, g, s2[k]));
            let i = choose|i: int|
                0 <= i < globals.len() && annotated(globals[i]) && coords(globals[i]).group == g
                    && record_of(globals[i]) == x;
            assert(group_has_record(r1[coords(globals[i]).group as int], record_of(globals[i])));
            let k2 = choose|k2: int| 0 <= k2 < s1.len() && s1[k2] == record_of(globals[i]);
            assert(s1[k2] == x);
        }
        lemma_sorted_unique_seq(s1, s2);
    }
}

/// Extracted groups refer only into the type table of a well-formed
/// module, so mapping may follow extraction directly.
pub proof fn lemma_extracted_groups_types_wf(module: ShaderModule, groups: Seq<GroupData>)
    requires
        module.wf(),
        group_sound(module.global_variables@, groups, module.global_variables@.len() as int),
    ensures
        groups_types_wf(module.types@, groups),
{
    assert forall|g: int| 0 <= g < groups.len() implies group_types_wf(
        module.types@,
        #[trigger] groups[g],
    ) by {
        assert forall|k: int| 0 <= k < groups[g].bindings@.len() implies (
        #[trigger] groups[g].bindings@[k]).ty < module.types@.len() by {
            assert(record_from_group(
                module.global_variables@,
                module.global_variables@.len() as int,
                g,
                groups[g].bindings@[k],
            ));
            let i = choose|i: int|
                0 <= i < module.global_variables@.len() && annotated(module.global_variables@[i])
                    && coords(module.global_variables@[i]).group == g && record_of(
                    module.global_variables@[i],
                ) == groups[g].bindings@[k];
            assert(module.global_variables@[i].ty < module.types@.len());
        }
    }
}


/// Every annotated global carries a resource name, so the generated
/// constructors can name their arguments.
pub open spec fn module_resources_named(m: ShaderModule) -> bool {
    forall|i: int|
        0 <= i < m.global_variables@.len() && annotated(#[trigger] m.global_variables@[i])
            ==> m.global_variables@[i].name is Some
}

/// Checks that every annotated global carries a resource name.
pub fn resources_named(module: &ShaderModule) -> (b: bool)
    ensures
        b == module_resources_named(*module),
{
    let n = module.global_variables.len();
    let mut i: usize = 0;
    while i < n
        invariant
            i <= n,
            n == module.global_variables@.len(),
            forall|k: int|
                0 <= k < i && annotated(#[trigger] module.global_variables@[k])
                    ==> module.global_variables@[k].name is Some,
        decreases n - i,
    {
        let g = &module.global_variables[i];
        if g.binding.is_some() && g.name.is_none() {
            return false;
        }
        i += 1;
    }
    true
}

/// Extracted groups inherit their names from the module's annotated
/// globals, so a module whose resources are all named yields groups
/// whose bindings are all named.
pub proof fn lemma_extracted_groups_named(module: ShaderModule, groups: Seq<GroupData>)
    requires
        module_resources_named(module),
        group_sound(module.global_variables@, groups, module.global_variables@.len() as int),
    ensures
        groups_names_ok(groups),
{
    assert forall|g: int| 0 <= g < groups.len() implies group_names_ok(#[trigger] groups[g]) by {
        assert forall|k: int| 0 <= k < groups[g].bindings@.len() implies (
        #[trigger] groups[g].bindings@[k]).name is Some by {
            assert(record_from_group(
                module.global_variables@,
                module.global_variables@.len() as int,
                g,
                groups[g].bindings@[k],
            ));
            let i = choose|i: int|
                0 <= i < module.global_variables@.len() && annotated(module.global_variables@[i])
                    && coords(module.global_variables@[i]).group == g && record_of(
                    module.global_variables@[i],
                ) == groups[g].bindings@[k];
            assert(module.global_variables@[i].name is Some);
        }
    }
}

} // verus!
