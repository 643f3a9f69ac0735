//! Entry point analysis.
//!
//! For a vertex entry point, the ordered list of distinct vertex-input
//! structs it consumes; for a fragment entry point, the number of color
//! render targets its result produces — a location-bound result counts
//! one target, a struct result one per location-bound member, and
//! builtin-bound results none.
use vstd::prelude::*;

use crate::module::{
    Binding, EntryPoint, FunctionArgument, FunctionResult, ShaderModule, ShaderStage, Type,
    TypeInner,
};
use crate::vertex::{
    is_located, lemma_filter_take_step, lemma_take_one_more, located_members, struct_members,
};

verus! {

/// One vertex-input struct consumed by a vertex entry point: the argument
/// name it is bound to and the struct's index in the type table.
#[derive(Clone, Debug, PartialEq, Eq)]
pub struct VertexInput {
    pub name: String,
    pub ty: usize,
}

/// One fragment entry point with its render-target arity.
#[derive(Clone, Debug, PartialEq, Eq)]
pub struct FragmentEntryDesc {
    pub name: String,
    pub target_count: usize,
}

/// The number of color render targets a fragment result produces.
pub open spec fn spec_fragment_target_count(
    types: Seq<Type>,
    result: Option<FunctionResult>,
) -> int {
    match result {
        Some(r) => match r.binding {
            Some(Binding::Location { .. }) => 1,
            Some(Binding::BuiltIn) => 0,
            None => located_members(struct_members(types, r.ty as int)).len() as int,
        },
        None => 0,
    }
}

/// Counts the color render targets of an entry point's result.
///
/// A location-bound result is one target; a builtin-bound result is
/// none; an unbound result must be a struct, counting its location-bound
/// members; anything else contributes no target.
pub fn fragment_target_count(module: &ShaderModule, e: &EntryPoint) -> (r: usize)
    requires
        e.wf(module.types@.len()),
    ensures
        r == spec_fragment_target_count(module.types@, e.result),
{
    match &e.result {
        Some(res) => match &res.binding {
            Some(Binding::Location { .. }) => 1,
            Some(Binding::BuiltIn) => 0,
            None => match &module.types[res.ty].inner {
                TypeInner::Struct { members } => {
                    let n = members.len();
                    let mut count: usize = 0;
                    let mut i: usize = 0;
                    while i < n
                        invariant
                            i <= n,
                            n == members@.len(),
                            members@ == struct_members(module.types@, res.ty as int),
                            count == located_members(members@.take(i as int)).len(),
                        decreases n - i,
                    {
                        proof {
                            lemma_filter_take_step(
                                members@,
                                i as int,
                                |m: crate::module::StructMember| is_located(m),
                            );
                        }
                        if let Some(Binding::Location { .. }) = &members[i].binding {
                            count += 1;
                        }
                        i += 1;
                    }
                    proof {
                        assert(members@.take(n as int) =~= members@);
                    }
                    count
                },
                _ => {
                    proof {
                        assert(located_members(struct_members(module.types@, res.ty as int))
                            =~= Seq::<crate::module::StructMember>::empty());
                    }
                    0
                },
            },
        },
        None => 0,
    }
}

/// Some element of the list refers to the struct at `ty`.
pub open spec fn spec_contains_ty(s: Seq<VertexInput>, ty: int) -> bool {
    exists|k: int| 0 <= k < s.len() && (#[trigger] s[k]).ty == ty
}

/// The ordered list of distinct vertex-input structs an argument list
/// consumes: each struct-typed argument, by first occurrence.
pub open spec fn spec_vertex_entry_structs(
    args: Seq<FunctionArgument>,
    types: Seq<Type>,
) -> Seq<VertexInput>
    decreases args.len(),
{
    if args.len() == 0 {
        Seq::empty()
    } else {
        let rest = spec_vertex_entry_structs(args.drop_last(), types);
        let a = args.last();
        if a.ty < types.len() && types[a.ty as int].inner is Struct && !spec_contains_ty(
            rest,
            a.ty as int,
        ) {
            rest.push(VertexInput { name: a.name.unwrap(), ty: a.ty })
        } else {
            rest
        }
    }
}

/// Every struct-typed argument carries a name.
pub open spec fn entry_args_named(args: Seq<FunctionArgument>, types: Seq<Type>) -> bool {
    forall|k: int|
        0 <= k < args.len() && (#[trigger] args[k]).ty < types.len() && types[args[k].ty as int].inner
            is Struct ==> args[k].name is Some
}

proof fn lemma_ves_take_step(args: Seq<FunctionArgument>, types: Seq<Type>, i: int)
    requires
        0 <= i < args.len(),
    ensures
        spec_vertex_entry_structs(args.take(i + 1), types) == {
            let rest = spec_vertex_entry_structs(args.take(i), types);
            let a = args[i];
            if a.ty < types.len() && types[a.ty as int].inner is Struct && !spec_contains_ty(
                rest,
                a.ty as int,
            ) {
                rest.push(VertexInput { name: a.name.unwrap(), ty: a.ty })
            } else {
                rest
            }
        },
{
    lemma_take_one_more(args, i);
    assert(args.take(i + 1).drop_last() == args.take(i));
    reveal_with_fuel(spec_vertex_entry_structs, 2);
}

/// Tests whether the list already refers to the struct at `ty`.
fn contains_ty(v: &Vec<VertexInput>, ty: usize) -> (b: bool)
    ensures
        b == spec_contains_ty(v@, ty as int),
{
    let n = v.len();
    let mut i: usize = 0;
    while i < n
        invariant
            i <= n,
            n == v@.len(),
            forall|k: int| 0 <= k < i ==> (#[trigger] v@[k]).ty != ty,
        decreases n - i,
    {
        if v[i].ty == ty {
            return true;
        }
        i += 1;
    }
    false
}

/// Lists the distinct vertex-input structs an entry point consumes, in
/// first-reference order.
pub fn vertex_entry_structs(entry_point: &EntryPoint, module: &ShaderModule) -> (r: Vec<
    VertexInput,
>)
    requires
        entry_args_named(entry_point.args@, module.types@),
    ensures
        r@ == spec_vertex_entry_structs(entry_point.args@, module.types@),
{
    let ghost types = module.types@;
    let ghost args = entry_point.args@;
    let n = entry_point.args.len();
    let mut r: Vec<VertexInput> = Vec::new();
    let mut i: usize = 0;
    while i < n
        invariant
            i <= n,
            n == args.len(),
            args == entry_point.args@,
            types == module.types@,
            entry_args_named(args, types),
            r@ == spec_vertex_entry_structs(args.take(i as int), types),
        decreases n - i,
    {
        proof {
            lemma_ves_take_step(args, types, i as int);
        }
        let a = &entry_point.args[i];
        if a.ty < module.types.len() {
            let is_struct = match &module.types[a.ty].inner {
                TypeInner::Struct { .. } => true,
                _ => false,
            };
            if is_struct && !contains_ty(&r, a.ty) {
                let name = match &a.name {
                    Some(s) => s.clone(),
                    None => {
                        proof {
                            assert(false);
                        }
                        String::new()
                    },
                };
                r.push(VertexInput { name, ty: a.ty });
            }
        }
        i += 1;
    }
    proof {
        assert(args.take(n as int) =~= args);
    }
    r
}

/// Lists, for each vertex-input struct an entry point consumes, the
/// argument name and the struct type's name.
pub fn vertex_inputs(entry_point: &EntryPoint, module: &ShaderModule) -> (r: Vec<(String, String)>)
    requires
        entry_args_named(entry_point.args@, module.types@),
        forall|k: int|
            0 <= k < spec_vertex_entry_structs(entry_point.args@, module.types@).len()
                ==> module.types@[(#[trigger] spec_vertex_entry_structs(
                entry_point.args@,
                module.types@,
            )[k]).ty as int].name is Some,
    ensures
        r@.len() == spec_vertex_entry_structs(entry_point.args@, module.types@).len(),
        forall|k: int|
            0 <= k < r@.len() ==> {
                let vi = spec_vertex_entry_structs(entry_point.args@, module.types@)[k];
                &&& (#[trigger] r@[k]).0 == vi.name
                &&& Some(r@[k].1) == module.types@[vi.ty as int].name
            },
{
    let ghost ves = spec_vertex_entry_structs(entry_point.args@, module.types@);
    proof {
        lemma_ves_types_in_bounds(entry_point.args@, module.types@);
    }
    let inputs = vertex_entry_structs(entry_point, module);
    let n = inputs.len();
    let mut r: Vec<(String, String)> = Vec::new();
    let mut i: usize = 0;
    while i < n
        invariant
            i <= n,
            n == inputs@.len(),
            inputs@ == ves,
            ves == spec_vertex_entry_structs(entry_point.args@, module.types@),
            forall|k: int|
                0 <= k < ves.len() ==> module.types@[(#[trigger] ves[k]).ty as int].name is Some,
            forall|k: int|
                0 <= k < ves.len() ==> (#[trigger] ves[k]).ty < module.types@.len(),
            r@.len() == i,
            forall|k: int|
                0 <= k < i ==> {
                    &&& (#[trigger] r@[k]).0 == ves[k].name
                    &&& Some(r@[k].1) == module.types@[ves[k].ty as int].name
                },
        decreases n - i,
    {
        let vi = &inputs[i];
        let tn = match &module.types[vi.ty].name {
            Some(s) => s.clone(),
            None => {
                proof {
                    assert(false);
                }
                String::new()
            },
        };
        r.push((vi.name.clone(), tn));
        i += 1;
    }
    r
}

proof fn lemma_ves_types_in_bounds(args: Seq<FunctionArgument>, types: Seq<Type>)
    ensures
        forall|k: int|
            0 <= k < spec_vertex_entry_structs(args, types).len() ==> (
            #[trigger] spec_vertex_entry_structs(args, types)[k]).ty < types.len(),
    decreases args.len(),
{
    if args.len() > 0 {
        lemma_ves_types_in_bounds(args.drop_last(), types);
        let rest = spec_vertex_entry_structs(args.drop_last(), types);
        let full = spec_vertex_entry_structs(args, types);
        let a = args.last();
        if a.ty < types.len() && types[a.ty as int].inner is Struct && !spec_contains_ty(
            rest,
            a.ty as int,
        ) {
            assert(full == rest.push(VertexInput { name: a.name.unwrap(), ty: a.ty }));
            assert forall|k: int| 0 <= k < full.len() implies (#[trigger] full[k]).ty
                < types.len() by {
                if k < rest.len() {
                    assert(full[k] == rest[k]);
                } else {
                    assert(full[k].ty == a.ty);
                }
            }
        } else {
            assert(full == rest);
        }
    }
}

/// The entry point is a fragment entry.
pub open spec fn is_fragment(e: EntryPoint) -> bool {
    e.stage is Fragment
}

/// The module's fragment entry points, in declaration order.
pub open spec fn fragment_entries(entries: Seq<EntryPoint>) -> Seq<EntryPoint> {
    entries.filter(|e: EntryPoint| is_fragment(e))
}

/// Describes each fragment entry point: its name and the number of color
/// render targets its result produces. Entry points keep declaration
/// order, so one enumerated choice can select among them.
pub fn entry_point_constants(module: &ShaderModule) -> (r: Vec<FragmentEntryDesc>)
    requires
        module.wf(),
    ensures
        r@.len() == fragment_entries(module.entry_points@).len(),
        forall|k: int|
            0 <= k < r@.len() ==> {
                let e = fragment_entries(module.entry_points@)[k];
                &&& (#[trigger] r@[k]).name == e.name
                &&& r@[k].target_count == spec_fragment_target_count(module.types@, e.result)
            },
{
    let ghost entries = module.entry_points@;
    let n = module.entry_points.len();
    let mut r: Vec<FragmentEntryDesc> = Vec::new();
    let mut i: usize = 0;
    while i < n
        invariant
            i <= n,
            n == entries.len(),
            entries == module.entry_points@,
            module.wf(),
            r@.len() == fragment_entries(entries.take(i as int)).len(),
            forall|k: int|
                0 <= k < r@.len() ==> {
                    let e = fragment_entries(entries.take(i as int))[k];
                    &&& (#[trigger] r@[k]).name == e.name
                    &&& r@[k].target_count == spec_fragment_target_count(
                        module.types@,
                        e.result,
                    )
                },
        decreases n - i,
    {
        proof {
            lemma_filter_take_step(entries, i as int, |e: EntryPoint| is_fragment(e));
        }
        let e = &module.entry_points[i];
        if let ShaderStage::Fragment = e.stage {
            let count = fragment_target_count(module, e);
            r.push(FragmentEntryDesc { name: e.name.clone(), target_count: count });
        }
        i += 1;
    }
    proof {
        assert(entries.take(n as int) =~= entries);
    }
    r
}


/// Some element of the index list equals `v`.
pub open spec fn spec_contains_usize(s: Seq<usize>, v: int) -> bool {
    exists|k: int| 0 <= k < s.len() && (#[trigger] s[k]) as int == v
}

/// Extends an accumulated list of struct type indices with the structs
/// an argument list consumes, keeping first occurrences only.
pub open spec fn spec_add_entry_types(
    acc: Seq<usize>,
    args: Seq<FunctionArgument>,
    types: Seq<Type>,
) -> Seq<usize>
    decreases args.len(),
{
    if args.len() == 0 {
        acc
    } else {
        let prev = spec_add_entry_types(acc, args.drop_last(), types);
        let a = args.last();
        if a.ty < types.len() && types[a.ty as int].inner is Struct && !spec_contains_usize(
            prev,
            a.ty as int,
        ) {
            prev.push(a.ty)
        } else {
            prev
        }
    }
}

/// The distinct vertex-input struct types of a module, in the order a
/// scan of its vertex entry points first references them.
pub open spec fn spec_vertex_input_types(entries: Seq<EntryPoint>, types: Seq<Type>) -> Seq<usize>
    decreases entries.len(),
{
    if entries.len() == 0 {
        Seq::empty()
    } else {
        let prev = spec_vertex_input_types(entries.drop_last(), types);
        let e = entries.last();
        if e.stage is Vertex {
            spec_add_entry_types(prev, e.args@, types)
        } else {
            prev
        }
    }
}

proof fn lemma_aet_take_step(acc: Seq<usize>, args: Seq<FunctionArgument>, types: Seq<Type>, j: int)
    requires
        0 <= j < args.len(),
    ensures
        spec_add_entry_types(acc, args.take(j + 1), types) == {
            let prev = spec_add_entry_types(acc, args.take(j), types);
            let a = args[j];
            if a.ty < types.len() && types[a.ty as int].inner is Struct && !spec_contains_usize(
                prev,
                a.ty as int,
            ) {
                prev.push(a.ty)
            } else {
                prev
            }
        },
{
    lemma_take_one_more(args, j);
    assert(args.take(j + 1).drop_last() == args.take(j));
    reveal_with_fuel(spec_add_entry_types, 2);
}

proof fn lemma_vit_take_step(entries: Seq<EntryPoint>, types: Seq<Type>, i: int)
    requires
        0 <= i < entries.len(),
    ensures
        spec_vertex_input_types(entries.take(i + 1), types) == {
            let prev = spec_vertex_input_types(entries.take(i), types);
            let e = entries[i];
            if e.stage is Vertex {
                spec_add_entry_types(prev, e.args@, types)
            } else {
                prev
            }
        },
{
    lemma_take_one_more(entries, i);
    assert(entries.take(i + 1).drop_last() == entries.take(i));
    reveal_with_fuel(spec_vertex_input_types, 2);
}

/// Tests whether the index list already holds `ty`.
fn contains_usize(v: &Vec<usize>, ty: usize) -> (b: bool)
    ensures
        b == spec_contains_usize(v@, ty as int),
{
    let n = v.len();
    let mut i: usize = 0;
    while i < n
        invariant
            i <= n,
            n == v@.len(),
            forall|k: int| 0 <= k < i ==> (#[trigger] v@[k]) != ty,
        decreases n - i,
    {
        if v[i] == ty {
            return true;
        }
        i += 1;
    }
    false
}

/// Lists the distinct vertex-input struct types of the module, in
/// first-reference order over its vertex entry points.
pub fn get_vertex_input_structs(module: &ShaderModule) -> (r: Vec<usize>)
    ensures
        r@ == spec_vertex_input_types(module.entry_points@, module.types@),
{
    let ghost entries = module.entry_points@;
    let ghost types = module.types@;
    let n = module.entry_points.len();
    let mut r: Vec<usize> = Vec::new();
    let mut i: usize = 0;
    while i < n
        invariant
            i <= n,
            n == entries.len(),
            entries == module.entry_points@,
            types == module.types@,
            r@ == spec_vertex_input_types(entries.take(i as int), types),
        decreases n - i,
    {
        proof {
            lemma_vit_take_step(entries, types, i as int);
        }
        let e = &module.entry_points[i];
        if let ShaderStage::Vertex = e.stage {
            let ghost prev = spec_vertex_input_types(entries.take(i as int), types);
            let ghost args = e.args@;
            let na = e.args.len();
            let mut j: usize = 0;
            while j < na
                invariant
                    j <= na,
                    na == args.len(),
                    args == entries[i as int].args@,
                    e.args@ == args,
                    i < entries.len(),
                    types == module.types@,
                    r@ == spec_add_entry_types(prev, args.take(j as int), types),
                decreases na - j,
            {
                proof {
                    lemma_aet_take_step(prev, args, types, j as int);
                }
                let a = &e.args[j];
                if a.ty < module.types.len() {
                    let is_struct = match &module.types[a.ty].inner {
                        TypeInner::Struct { .. } => true,
                        _ => false,
                    };
                    if is_struct && !contains_usize(&r, a.ty) {
                        r.push(a.ty);
                    }
                }
                j += 1;
            }
            proof {
                assert(args.take(na as int) =~= args);
            }
        }
        i += 1;
    }
    proof {
        assert(entries.take(n as int) =~= entries);
    }
    r
}

/// Checks that the struct at `ti` can be laid out as a vertex input.
fn check_struct_layout(module: &ShaderModule, ti: usize) -> (b: bool)
    ensures
        b == crate::vertex::struct_layout_ok(module.types@, ti as int),
{
    let ghost types = module.types@;
    if ti >= module.types.len() {
        return false;
    }
    if module.types[ti].name.is_none() {
        return false;
    }
    let members = match &module.types[ti].inner {
        TypeInner::Struct { members } => members,
        _ => {
            return false;
        },
    };
    let n = members.len();
    if n > 65536 {
        return false;
    }
    let mut i: usize = 0;
    while i < n
        invariant
            i <= n,
            n == members@.len(),
            types == module.types@,
            ti < types.len(),
            members@ == struct_members(types, ti as int),
            forall|k: int|
                0 <= k < i && is_located(#[trigger] struct_members(types, ti as int)[k]) ==> {
                    let m = struct_members(types, ti as int)[k];
                    &&& m.name is Some
                    &&& m.ty < types.len()
                    &&& crate::vertex::spec_vertex_format(types[m.ty as int].inner) is Some
                },
        decreases n - i,
    {
        let m = &members[i];
        if let Some(Binding::Location { .. }) = &m.binding {
            if m.name.is_none() {
                proof {
                    assert(is_located(struct_members(types, ti as int)[i as int]));
                }
                return false;
            }
            if m.ty >= module.types.len() {
                proof {
                    assert(is_located(struct_members(types, ti as int)[i as int]));
                }
                return false;
            }
            if crate::vertex::vertex_format(&module.types[m.ty].inner).is_none() {
                proof {
                    assert(is_located(struct_members(types, ti as int)[i as int]));
                }
                return false;
            }
        }
        i += 1;
    }
    true
}

/// The module's vertex-input structs can all be laid out: each is a
/// named struct whose location-bound members are named and carry a
/// vertex format.
pub open spec fn spec_vertex_layouts_supported(m: ShaderModule) -> bool {
    forall|k: int|
        0 <= k < spec_vertex_input_types(m.entry_points@, m.types@).len()
            ==> crate::vertex::struct_layout_ok(
            m.types@,
            (#[trigger] spec_vertex_input_types(m.entry_points@, m.types@)[k]) as int,
        )
}

/// Checks that every vertex-input struct of the module can be laid out.
pub fn vertex_layouts_supported(module: &ShaderModule) -> (b: bool)
    ensures
        b == spec_vertex_layouts_supported(*module),
{
    let ghost vt = spec_vertex_input_types(module.entry_points@, module.types@);
    let list = get_vertex_input_structs(module);
    let n = list.len();
    let mut i: usize = 0;
    while i < n
        invariant
            i <= n,
            n == list@.len(),
            list@ == vt,
            vt == spec_vertex_input_types(module.entry_points@, module.types@),
            forall|k: int|
                0 <= k < i ==> crate::vertex::struct_layout_ok(
                    module.types@,
                    (#[trigger] vt[k]) as int,
                ),
        decreases n - i,
    {
        if !check_struct_layout(module, list[i]) {
            return false;
        }
        i += 1;
    }
    true
}

/// Derives the attribute layout of every vertex-input struct the
/// module's vertex entry points consume, in first-reference order.
#[verifier::rlimit(30)]
pub fn vertex_struct_methods(module: &ShaderModule) -> (r: Vec<crate::vertex::VertexStructLayout>)
    requires
        spec_vertex_layouts_supported(*module),
    ensures
        r@.len() == spec_vertex_input_types(module.entry_points@, module.types@).len(),
        forall|k: int|
            0 <= k < r@.len() ==> crate::vertex::layout_matches(
                module.types@,
                spec_vertex_input_types(module.entry_points@, module.types@)[k] as int,
                #[trigger] r@[k],
            ),
{
    let ghost vt = spec_vertex_input_types(module.entry_points@, module.types@);
    let list = get_vertex_input_structs(module);
    let n = list.len();
    let mut r: Vec<crate::vertex::VertexStructLayout> = Vec::new();
    let mut i: usize = 0;
    while i < n
        invariant
            i <= n,
            n == list@.len(),
            list@ == vt,
            vt == spec_vertex_input_types(module.entry_points@, module.types@),
            spec_vertex_layouts_supported(*module),
            r@.len() == i,
            forall|k: int|
                0 <= k < i ==> crate::vertex::layout_matches(
                    module.types@,
                    vt[k] as int,
                    #[trigger] r@[k],
                ),
        decreases n - i,
    {
        let layout = crate::vertex::vertex_struct_layout(module, list[i]);
        r.push(layout);
        i += 1;
    }
    r
}

} // verus!
