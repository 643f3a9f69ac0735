//! Vertex input layout.
//!
//! Derives, for each vertex-input struct, the attribute layout a vertex
//! buffer must present: per field its shader location, its numeric format,
//! and its byte offset within the host-side struct. Offsets follow the
//! natural-alignment layout rules of a C-compatible struct — each field
//! starts at the smallest suitably aligned offset at or after the end of
//! the previous field, and the stride is the struct size padded to the
//! struct's own alignment — rather than the tightly packed sum a naive
//! attribute-array computation would assume.
use vstd::prelude::*;
use vstd::arithmetic::div_mod::{
    lemma_fundamental_div_mod, lemma_mod_bound, lemma_mod_multiples_basic,
};

use crate::module::{Binding, ScalarKind, StructMember, Type, TypeInner, VectorSize};

verus! {

/// The numeric format of one vertex attribute in the target API's
/// vocabulary.
#[derive(Clone, Copy, Debug, PartialEq, Eq, Structural)]
pub enum VertexFormat {
    Float32,
    Float32x2,
    Float32x3,
    Float32x4,
    Sint32,
    Sint32x2,
    Sint32x3,
    Sint32x4,
    Uint32,
    Uint32x2,
    Uint32x3,
    Uint32x4,
    Float16x2,
    Float16x4,
}

/// The vertex format of a scalar or vector type: 32-bit scalars and their
/// vectors, and two- or four-component vectors of 16-bit floats. Any
/// other shape has no vertex format.
pub open spec fn spec_vertex_format(inner: TypeInner) -> Option<VertexFormat> {
    match inner {
        TypeInner::Scalar { scalar } => match (scalar.kind, scalar.width) {
            (ScalarKind::Float, 4u32) => Some(VertexFormat::Float32),
            (ScalarKind::Sint, 4u32) => Some(VertexFormat::Sint32),
            (ScalarKind::Uint, 4u32) => Some(VertexFormat::Uint32),
            _ => None,
        },
        TypeInner::Vector { size, scalar } => match (scalar.kind, scalar.width) {
            (ScalarKind::Float, 4u32) => match size {
                VectorSize::Bi => Some(VertexFormat::Float32x2),
                VectorSize::Tri => Some(VertexFormat::Float32x3),
                VectorSize::Quad => Some(VertexFormat::Float32x4),
            },
            (ScalarKind::Sint, 4u32) => match size {
                VectorSize::Bi => Some(VertexFormat::Sint32x2),
                VectorSize::Tri => Some(VertexFormat::Sint32x3),
                VectorSize::Quad => Some(VertexFormat::Sint32x4),
            },
            (ScalarKind::Uint, 4u32) => match size {
                VectorSize::Bi => Some(VertexFormat::Uint32x2),
                VectorSize::Tri => Some(VertexFormat::Uint32x3),
                VectorSize::Quad => Some(VertexFormat::Uint32x4),
            },
            (ScalarKind::Float, 2u32) => match size {
                VectorSize::Bi => Some(VertexFormat::Float16x2),
                VectorSize::Quad => Some(VertexFormat::Float16x4),
                VectorSize::Tri => None,
            },
            _ => None,
        },
        _ => None,
    }
}

/// The byte size of a format's host representation, an array of its
/// scalar elements.
pub open spec fn spec_format_size(f: VertexFormat) -> u64 {
    match f {
        VertexFormat::Float32 => 4,
        VertexFormat::Float32x2 => 8,
        VertexFormat::Float32x3 => 12,
        VertexFormat::Float32x4 => 16,
        VertexFormat::Sint32 => 4,
        VertexFormat::Sint32x2 => 8,
        VertexFormat::Sint32x3 => 12,
        VertexFormat::Sint32x4 => 16,
        VertexFormat::Uint32 => 4,
        VertexFormat::Uint32x2 => 8,
        VertexFormat::Uint32x3 => 12,
        VertexFormat::Uint32x4 => 16,
        VertexFormat::Float16x2 => 4,
        VertexFormat::Float16x4 => 8,
    }
}

/// The natural alignment of a format's host representation: the alignment
/// of its scalar element.
pub open spec fn spec_format_align(f: VertexFormat) -> u64 {
    match f {
        VertexFormat::Float16x2 => 2,
        VertexFormat::Float16x4 => 2,
        _ => 4,
    }
}

/// Classifies a scalar or vector type as a vertex format.
pub fn vertex_format(inner: &TypeInner) -> (r: Option<VertexFormat>)
    ensures
        r == spec_vertex_format(*inner),
{
    match inner {
        TypeInner::Scalar { scalar } => match (scalar.kind, scalar.width) {
            (ScalarKind::Float, 4u32) => Some(VertexFormat::Float32),
            (ScalarKind::Sint, 4u32) => Some(VertexFormat::Sint32),
            (ScalarKind::Uint, 4u32) => Some(VertexFormat::Uint32),
            _ => None,
        },
        TypeInner::Vector { size, scalar } => match (scalar.kind, scalar.width) {
            (ScalarKind::Float, 4u32) => match size {
                VectorSize::Bi => Some(VertexFormat::Float32x2),
                VectorSize::Tri => Some(VertexFormat::Float32x3),
                VectorSize::Quad => Some(VertexFormat::Float32x4),
            },
            (ScalarKind::Sint, 4u32) => match size {
                VectorSize::Bi => Some(VertexFormat::Sint32x2),
                VectorSize::Tri => Some(VertexFormat::Sint32x3),
                VectorSize::Quad => Some(VertexFormat::Sint32x4),
            },
            (ScalarKind::Uint, 4u32) => match size {
                VectorSize::Bi => Some(VertexFormat::Uint32x2),
                VectorSize::Tri => Some(VertexFormat::Uint32x3),
                VectorSize::Quad => Some(VertexFormat::Uint32x4),
            },
            (ScalarKind::Float, 2u32) => match size {
                VectorSize::Bi => Some(VertexFormat::Float16x2),
                VectorSize::Quad => Some(VertexFormat::Float16x4),
                VectorSize::Tri => None,
            },
            _ => None,
        },
        _ => None,
    }
}

/// The byte size of a format's host representation.
pub fn format_size(f: VertexFormat) -> (r: u64)
    ensures
        r == spec_format_size(f),
{
    match f {
        VertexFormat::Float32 => 4,
        VertexFormat::Float32x2 => 8,
        VertexFormat::Float32x3 => 12,
        VertexFormat::Float32x4 => 16,
        VertexFormat::Sint32 => 4,
        VertexFormat::Sint32x2 => 8,
        VertexFormat::Sint32x3 => 12,
        VertexFormat::Sint32x4 => 16,
        VertexFormat::Uint32 => 4,
        VertexFormat::Uint32x2 => 8,
        VertexFormat::Uint32x3 => 12,
        VertexFormat::Uint32x4 => 16,
        VertexFormat::Float16x2 => 4,
        VertexFormat::Float16x4 => 8,
    }
}

/// The natural alignment of a format's host representation.
pub fn format_align(f: VertexFormat) -> (r: u64)
    ensures
        r == spec_format_align(f),
{
    match f {
        VertexFormat::Float16x2 => 2,
        VertexFormat::Float16x4 => 2,
        _ => 4,
    }
}

/// The smallest multiple of `a` at or above `x`.
pub fn align_up(x: u64, a: u64) -> (r: u64)
    requires
        1 <= a,
        x + a <= u64::MAX as int + 1,
    ensures
        r as int % a as int == 0,
        x <= r < x + a,
{
    let m = x % a;
    proof {
        lemma_mod_bound(x as int, a as int);
    }
    if m == 0 {
        x
    } else {
        proof {
            lemma_fundamental_div_mod(x as int, a as int);
            let q = x as int / a as int;
            lemma_mod_multiples_basic(q + 1, a as int);
            assert(x + (a - m) == (q + 1) * a as int) by (nonlinear_arith)
                requires
                    x as int == a as int * q + m as int,
            ;
        }
        x + (a - m)
    }
}

/// The largest alignment among the fields; 1 for an empty struct.
pub open spec fn spec_max_align(aligns: Seq<u64>) -> int
    decreases aligns.len(),
{
    if aligns.len() == 0 {
        1
    } else {
        let rest = spec_max_align(aligns.drop_last());
        if aligns.last() as int > rest {
            aligns.last() as int
        } else {
            rest
        }
    }
}

pub(crate) proof fn lemma_take_one_more<A>(s: Seq<A>, i: int)
    requires
        0 <= i < s.len(),
    ensures
        s.take(i + 1).drop_last() =~= s.take(i),
        s.take(i + 1).last() == s[i],
{
}

proof fn lemma_max_align_bounds(aligns: Seq<u64>)
    ensures
        spec_max_align(aligns) >= 1,
        forall|k: int| 0 <= k < aligns.len() ==> aligns[k] <= spec_max_align(aligns),
    decreases aligns.len(),
{
    if aligns.len() > 0 {
        lemma_max_align_bounds(aligns.drop_last());
        assert forall|k: int| 0 <= k < aligns.len() implies aligns[k] <= spec_max_align(
            aligns,
        ) by {
            if k < aligns.len() - 1 {
                assert(aligns.drop_last()[k] == aligns[k]);
            }
        }
    }
}

/// Natural-alignment byte offsets for a sequence of fields given by size
/// and alignment, with the padded struct stride.
///
/// The first field sits at offset zero; each later field sits at the
/// smallest multiple of its alignment at or after the end of the previous
/// field; the stride is the smallest multiple of the struct's alignment —
/// the largest field alignment — at or after the end of the last field.
/// These three clauses pin every offset uniquely, so the layout is a
/// function of the field list.
#[verifier::rlimit(30)]
pub fn attribute_offsets(sizes: &Vec<u64>, aligns: &Vec<u64>) -> (r: (Vec<u64>, u64))
    requires
        sizes@.len() == aligns@.len(),
        sizes@.len() <= 65536,
        forall|k: int| 0 <= k < sizes@.len() ==> #[trigger] sizes@[k] <= u32::MAX,
        forall|k: int| 0 <= k < aligns@.len() ==> 1 <= #[trigger] aligns@[k] <= u32::MAX,
    ensures
        r.0@.len() == sizes@.len(),
        sizes@.len() > 0 ==> r.0@[0] == 0,
        forall|k: int|
            0 <= k < sizes@.len() ==> (r.0@[k] as int) % (aligns@[k] as int) == 0,
        forall|k: int|
            1 <= k < sizes@.len() ==> r.0@[k - 1] + sizes@[k - 1] <= #[trigger] r.0@[k] < r.0@[
                k - 1] + sizes@[k - 1] + aligns@[k],
        sizes@.len() > 0 ==> {
            let last_end = r.0@[sizes@.len() - 1] + sizes@[sizes@.len() - 1];
            &&& (r.1 as int) % spec_max_align(aligns@) == 0
            &&& last_end <= r.1 < last_end + spec_max_align(aligns@)
        },
        sizes@.len() == 0 ==> r.1 == 0,
{
    let n = sizes.len();
    let mut offsets: Vec<u64> = Vec::new();
    let mut end: u64 = 0;
    let mut i: usize = 0;
    while i < n
        invariant
            i <= n,
            n == sizes@.len() == aligns@.len(),
            n <= 65536,
            forall|k: int| 0 <= k < n ==> #[trigger] sizes@[k] <= u32::MAX,
            forall|k: int| 0 <= k < n ==> 1 <= #[trigger] aligns@[k] <= u32::MAX,
            offsets@.len() == i,
            i > 0 ==> offsets@[0] == 0,
            forall|k: int| 0 <= k < i ==> (offsets@[k] as int) % (aligns@[k] as int) == 0,
            forall|k: int|
                1 <= k < i ==> offsets@[k - 1] + sizes@[k - 1] <= #[trigger] offsets@[k]
                    < offsets@[k - 1] + sizes@[k - 1] + aligns@[k],
            i > 0 ==> end == offsets@[i - 1] + sizes@[i - 1],
            i == 0 ==> end == 0,
            end <= i * (u32::MAX as int + u32::MAX as int),
        decreases n - i,
    {
        let off = if i == 0 {
            proof {
                vstd::arithmetic::div_mod::lemma_small_mod(0nat, aligns@[0] as nat);
            }
            0
        } else {
            align_up(end, aligns[i])
        };
        offsets.push(off);
        end = off + sizes[i];
        i += 1;
    }
    let stride = if n == 0 {
        0
    } else {
        let mut max_a: u64 = 1;
        let mut j: usize = 0;
        while j < n
            invariant
                j <= n,
                n == aligns@.len(),
                forall|k: int| 0 <= k < n ==> 1 <= #[trigger] aligns@[k] <= u32::MAX,
                max_a == spec_max_align(aligns@.take(j as int)),
                1 <= max_a <= u32::MAX,
            decreases n - j,
        {
            proof {
                lemma_take_one_more(aligns@, j as int);
            }
            if aligns[j] > max_a {
                max_a = aligns[j];
            }
            j += 1;
        }
        proof {
            assert(aligns@.take(n as int) =~= aligns@);
        }
        align_up(end, max_a)
    };
    proof {
        if n > 0 {
            lemma_max_align_bounds(aligns@);
        }
    }
    (offsets, stride)
}


/// The struct member is bound to a vertex shader location. Builtin-bound
/// members live only on the shader side and take no slot in the host
/// struct.
pub open spec fn is_located(m: StructMember) -> bool {
    m.binding matches Some(Binding::Location { .. })
}

/// The location-bound members of a struct, in declaration order.
pub open spec fn located_members(members: Seq<StructMember>) -> Seq<StructMember> {
    members.filter(|m: StructMember| is_located(m))
}

pub(crate) proof fn lemma_filter_take_step<A>(s: Seq<A>, i: int, pred: spec_fn(A) -> bool)
    requires
        0 <= i < s.len(),
    ensures
        s.take(i + 1).filter(pred) == (if pred(s[i]) {
            s.take(i).filter(pred).push(s[i])
        } else {
            s.take(i).filter(pred)
        }),
{
    lemma_take_one_more(s, i);
    assert(s.take(i + 1).drop_last() == s.take(i));
    reveal_with_fuel(Seq::filter, 2);
}

/// One derived vertex attribute: the shader location, the field name, the
/// numeric format, and the byte offset within the host struct.
#[derive(Clone, Debug, PartialEq, Eq)]
pub struct VertexAttribute {
    pub location: u32,
    pub name: String,
    pub format: VertexFormat,
    pub offset: u64,
}

/// The derived attribute layout of one vertex-input struct: its
/// attributes in member order and the padded struct stride.
#[derive(Clone, Debug, PartialEq, Eq)]
pub struct VertexStructLayout {
    pub type_index: usize,
    pub struct_name: String,
    pub attributes: Vec<VertexAttribute>,
    pub stride: u64,
}

/// The members of a struct type; empty for any other type.
pub open spec fn struct_members(types: Seq<Type>, ti: int) -> Seq<StructMember> {
    match types[ti].inner {
        TypeInner::Struct { members } => members@,
        _ => Seq::empty(),
    }
}

/// The attribute carries the member's location, name and vertex format.
pub open spec fn attr_matches(types: Seq<Type>, m: StructMember, a: VertexAttribute) -> bool {
    &&& m.binding matches Some(Binding::Location { location }) && a.location == location
    &&& m.name matches Some(nm) && a.name == nm
    &&& m.ty < types.len()
    &&& Some(a.format) == spec_vertex_format(types[m.ty as int].inner)
}

/// The alignments of the attributes' host representations.
pub open spec fn attr_align_seq(attrs: Seq<VertexAttribute>) -> Seq<u64> {
    attrs.map_values(|a: VertexAttribute| spec_format_align(a.format))
}

/// The struct at `ti` can be laid out as a vertex input: it is a named
/// struct, and every location-bound member is named and has a vertex
/// format.
pub open spec fn struct_layout_ok(types: Seq<Type>, ti: int) -> bool {
    &&& 0 <= ti < types.len()
    &&& types[ti].inner is Struct
    &&& types[ti].name is Some
    &&& struct_members(types, ti).len() <= 65536
    &&& forall|k: int|
        0 <= k < struct_members(types, ti).len() && is_located(
            #[trigger] struct_members(types, ti)[k],
        ) ==> {
            let m = struct_members(types, ti)[k];
            &&& m.name is Some
            &&& m.ty < types.len()
            &&& spec_vertex_format(types[m.ty as int].inner) is Some
        }
}

/// The layout is the natural-alignment attribute layout of the struct at
/// `ti`: one attribute per location-bound member, in member order, each
/// at the smallest suitably aligned offset after its predecessor, with
/// the stride padded to the struct's alignment.
pub open spec fn layout_matches(types: Seq<Type>, ti: int, r: VertexStructLayout) -> bool {
    let lm = located_members(struct_members(types, ti));
    let attrs = r.attributes@;
    &&& r.type_index == ti
    &&& Some(r.struct_name) == types[ti].name
    &&& attrs.len() == lm.len()
    &&& forall|k: int| 0 <= k < lm.len() ==> attr_matches(types, lm[k], #[trigger] attrs[k])
    &&& attrs.len() > 0 ==> attrs[0].offset == 0
    &&& forall|k: int|
        0 <= k < attrs.len() ==> ((#[trigger] attrs[k]).offset as int) % (spec_format_align(
            attrs[k].format,
        ) as int) == 0
    &&& forall|k: int|
        1 <= k < attrs.len() ==> attrs[k - 1].offset + spec_format_size(attrs[k - 1].format)
            <= (#[trigger] attrs[k]).offset < attrs[k - 1].offset + spec_format_size(
            attrs[k - 1].format,
        ) + spec_format_align(attrs[k].format)
    &&& attrs.len() > 0 ==> {
        let last_end = attrs[attrs.len() - 1].offset + spec_format_size(
            attrs[attrs.len() - 1].format,
        );
        &&& (r.stride as int) % spec_max_align(attr_align_seq(attrs)) == 0
        &&& last_end <= r.stride < last_end + spec_max_align(attr_align_seq(attrs))
    }
    &&& attrs.len() == 0 ==> r.stride == 0
}

/// Derives the attribute layout of the vertex-input struct at `ti`.
#[verifier::rlimit(40)]
pub fn vertex_struct_layout(module: &crate::module::ShaderModule, ti: usize) -> (r:
    VertexStructLayout)
    requires
        struct_layout_ok(module.types@, ti as int),
    ensures
        layout_matches(module.types@, ti as int, r),
{
    let ghost types = module.types@;
    let struct_name = match &module.types[ti].name {
        Some(n) => n.clone(),
        None => {
            proof {
                assert(false);
            }
            String::new()
        },
    };
    let members = match &module.types[ti].inner {
        TypeInner::Struct { members } => members,
        _ => {
            proof {
                assert(false);
            }
            return VertexStructLayout {
                type_index: ti,
                struct_name,
                attributes: Vec::new(),
                stride: 0,
            };
        },
    };
    let n = members.len();
    let mut fields: Vec<(u32, String, VertexFormat)> = Vec::new();
    let mut sizes: Vec<u64> = Vec::new();
    let mut aligns: Vec<u64> = Vec::new();
    let mut i: usize = 0;
    while i < n
        invariant
            i <= n,
            n == members@.len(),
            types == module.types@,
            struct_layout_ok(types, ti as int),
            members@ == struct_members(types, ti as int),
            fields@.len() == located_members(members@.take(i as int)).len(),
            sizes@.len() == fields@.len(),
            aligns@.len() == fields@.len(),
            forall|k: int|
                0 <= k < fields@.len() ==> {
                    let m = located_members(members@.take(i as int))[k];
                    &&& m.binding matches Some(Binding::Location { location }) && (
                    #[trigger] fields@[k]).0 == location
                    &&& m.name matches Some(nm) && fields@[k].1 == nm
                    &&& m.ty < types.len()
                    &&& Some(fields@[k].2) == spec_vertex_format(types[m.ty as int].inner)
                },
            forall|k: int|
                0 <= k < sizes@.len() ==> #[trigger] sizes@[k] == spec_format_size(fields@[k].2),
            forall|k: int|
                0 <= k < aligns@.len() ==> #[trigger] aligns@[k] == spec_format_align(
                    fields@[k].2,
                ),
        decreases n - i,
    {
        proof {
            lemma_filter_take_step(members@, i as int, |m: StructMember| is_located(m));
        }
        let m = &members[i];
        if let Some(Binding::Location { location }) = &m.binding {
            proof {
                assert(is_located(struct_members(types, ti as int)[i as int]));
            }
            let name = match &m.name {
                Some(nm) => nm.clone(),
                None => {
                    proof {
                        assert(false);
                    }
                    String::new()
                },
            };
            let format = match vertex_format(&module.types[m.ty].inner) {
                Some(f) => f,
                None => {
                    proof {
                        assert(false);
                    }
                    VertexFormat::Float32
                },
            };
            fields.push((*location, name, format));
            sizes.push(format_size(format));
            aligns.push(format_align(format));
        }
        i += 1;
    }
    proof {
        assert(members@.take(n as int) =~= members@);
        members@.lemma_filter_len(|m: StructMember| is_located(m));
    }
    let (offsets, stride) = attribute_offsets(&sizes, &aligns);
    let mut attributes: Vec<VertexAttribute> = Vec::new();
    let nf = fields.len();
    let mut j: usize = 0;
    while j < nf
        invariant
            j <= nf,
            nf == fields@.len(),
            nf == offsets@.len(),
            attributes@.len() == j,
            forall|k: int|
                0 <= k < j ==> #[trigger] attributes@[k] == (VertexAttribute {
                    location: fields@[k].0,
                    name: fields@[k].1,
                    format: fields@[k].2,
                    offset: offsets@[k],
                }),
        decreases nf - j,
    {
        let f = &fields[j];
        attributes.push(
            VertexAttribute { location: f.0, name: f.1.clone(), format: f.2, offset: offsets[j] },
        );
        j += 1;
    }
    proof {
        assert(attr_align_seq(attributes@) =~= aligns@);
    }
    VertexStructLayout { type_index: ti, struct_name, attributes, stride }
}


/// The natural-alignment clauses pin every offset and the stride
/// uniquely: any two offset assignments that both satisfy them for the
/// same field sizes and alignments are identical. The layout is
/// therefore a function of the field list alone.
pub proof fn lemma_natural_offsets_unique(
    sizes: Seq<u64>,
    aligns: Seq<u64>,
    o1: Seq<u64>,
    o2: Seq<u64>,
)
    requires
        o1.len() == sizes.len(),
        o2.len() == sizes.len(),
        sizes.len() == aligns.len(),
        forall|k: int| 0 <= k < aligns.len() ==> 1 <= #[trigger] aligns[k],
        sizes.len() > 0 ==> o1[0] == 0,
        sizes.len() > 0 ==> o2[0] == 0,
        forall|k: int| 0 <= k < sizes.len() ==> ((#[trigger] o1[k]) as int) % (aligns[k] as int) == 0,
        forall|k: int| 0 <= k < sizes.len() ==> ((#[trigger] o2[k]) as int) % (aligns[k] as int) == 0,
        forall|k: int|
            1 <= k < sizes.len() ==> o1[k - 1] + sizes[k - 1] <= #[trigger] o1[k] < o1[k - 1]
                + sizes[k - 1] + aligns[k],
        forall|k: int|
            1 <= k < sizes.len() ==> o2[k - 1] + sizes[k - 1] <= #[trigger] o2[k] < o2[k - 1]
                + sizes[k - 1] + aligns[k],
    ensures
        o1 =~= o2,
{
    assert forall|k: int| 0 <= k < sizes.len() implies o1[k] == o2[k] by {
        lemma_offsets_agree_upto(sizes, aligns, o1, o2, k);
    }
}

proof fn lemma_offsets_agree_upto(
    sizes: Seq<u64>,
    aligns: Seq<u64>,
    o1: Seq<u64>,
    o2: Seq<u64>,
    k: int,
)
    requires
        o1.len() == sizes.len(),
        o2.len() == sizes.len(),
        sizes.len() == aligns.len(),
        forall|j: int| 0 <= j < aligns.len() ==> 1 <= #[trigger] aligns[j],
        sizes.len() > 0 ==> o1[0] == 0,
        sizes.len() > 0 ==> o2[0] == 0,
        forall|j: int| 0 <= j < sizes.len() ==> ((#[trigger] o1[j]) as int) % (aligns[j] as int) == 0,
        forall|j: int| 0 <= j < sizes.len() ==> ((#[trigger] o2[j]) as int) % (aligns[j] as int) == 0,
        forall|j: int|
            1 <= j < sizes.len() ==> o1[j - 1] + sizes[j - 1] <= #[trigger] o1[j] < o1[j - 1]
                + sizes[j - 1] + aligns[j],
        forall|j: int|
            1 <= j < sizes.len() ==> o2[j - 1] + sizes[j - 1] <= #[trigger] o2[j] < o2[j - 1]
                + sizes[j - 1] + aligns[j],
        0 <= k < sizes.len(),
    ensures
        o1[k] == o2[k],
    decreases k,
{
    if k > 0 {
        lemma_offsets_agree_upto(sizes, aligns, o1, o2, k - 1);
        // both offsets are multiples of the alignment inside one window
        // of width less than the alignment, so they coincide
        let e = o1[k - 1] as int + sizes[k - 1] as int;
        let a = aligns[k] as int;
        let x = o1[k] as int;
        let y = o2[k] as int;
        if x < y {
            lemma_mod_bound(x, a);
            lemma_mod_bound(y, a);
            lemma_fundamental_div_mod(x, a);
            lemma_fundamental_div_mod(y, a);
            assert(y - x == a * (y / a) - a * (x / a));
            assert(y - x == a * (y / a - x / a)) by (nonlinear_arith)
                requires
                    y - x == a * (y / a) - a * (x / a),
            ;
            assert(y / a - x / a >= 1) by (nonlinear_arith)
                requires
                    y - x == a * (y / a - x / a),
                    y - x > 0,
                    a >= 1,
            ;
            assert(y - x >= a) by (nonlinear_arith)
                requires
                    y - x == a * (y / a - x / a),
                    y / a - x / a >= 1,
                    a >= 1,
            ;
        }
        if y < x {
            lemma_mod_bound(x, a);
            lemma_mod_bound(y, a);
            lemma_fundamental_div_mod(x, a);
            lemma_fundamental_div_mod(y, a);
            assert(x - y == a * (x / a) - a * (y / a));
            assert(x - y == a * (x / a - y / a)) by (nonlinear_arith)
                requires
                    x - y == a * (x / a) - a * (y / a),
            ;
            assert(x / a - y / a >= 1) by (nonlinear_arith)
                requires
                    x - y == a * (x / a - y / a),
                    x - y > 0,
                    a >= 1,
            ;
            assert(x - y >= a) by (nonlinear_arith)
                requires
                    x - y == a * (x / a - y / a),
                    x / a - y / a >= 1,
                    a >= 1,
            ;
        }
    }
}

} // verus!
