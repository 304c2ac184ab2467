//! Vertex layouts and meshes: validation, translation and identity.
use vstd::prelude::*;
use std::collections::HashSet;
use std::hash::DefaultHasher;
use std::hash::Hasher;
use vstd::std_specs::hash::DefaultHasherAdditionalSpecFns;
use crate::error::{Error, ErrorKind, recoverable_error};
use crate::types::{
    VertexAttribute, VertexBufferLayout, VertexFormat, VertexStepMode,
    spec_vertex_format_size, vertex_format_size,
};

verus! {

broadcast use vstd::std_specs::hash::group_hash_axioms;

/// A vertex layout as the pipeline is created with it.
#[derive(Clone, Debug, PartialEq, Eq)]
pub struct GpuVertexLayout {
    pub array_stride: u64,
    pub attributes: Vec<VertexAttribute>,
    pub step_mode: VertexStepMode,
}

/// What is wrong with attribute `i` of `attrs`, given that the attributes
/// before it are fine: its end overflows, it does not fit in the stride, or
/// an earlier attribute has its location.
pub open spec fn attribute_fault(attrs: Seq<VertexAttribute>, stride: u64, i: int) -> Option<ErrorKind> {
    let a = attrs[i];
    let end = a.offset + spec_vertex_format_size(a.format);
    if end > u64::MAX {
        Some(ErrorKind::InvalidDescriptor("vertex_attribute_overflow"))
    } else if end > stride {
        Some(ErrorKind::InvalidDescriptor("vertex_attribute_out_of_bounds"))
    } else if exists|j: int| 0 <= j < i && attrs[j].location == a.location {
        Some(ErrorKind::InvalidDescriptor("vertex_attribute_duplicate_location"))
    } else {
        None
    }
}

/// The fault of the first faulty attribute among the first `n`.
pub open spec fn first_attribute_fault(attrs: Seq<VertexAttribute>, stride: u64, n: int) -> Option<ErrorKind>
    decreases n,
{
    if n <= 0 {
        None
    } else {
        match first_attribute_fault(attrs, stride, n - 1) {
            Some(k) => Some(k),
            None => attribute_fault(attrs, stride, n - 1),
        }
    }
}

/// The result of translating a vertex layout: it is refused when its
/// stride is zero, when it has no attributes, or with the fault of its first
/// faulty attribute; else it keeps its stride, attributes and step mode.
pub open spec fn spec_translate_vertex_layout(layout: VertexBufferLayout) -> Result<(u64, Seq<VertexAttribute>, VertexStepMode), Error> {
    let attrs = layout.attributes@;
    if layout.array_stride == 0 {
        Err(recoverable_error(ErrorKind::InvalidDescriptor("vertex_layout_zero_stride")))
    } else if attrs.len() == 0 {
        Err(recoverable_error(ErrorKind::InvalidDescriptor("vertex_layout_missing_attributes")))
    } else {
        match first_attribute_fault(attrs, layout.array_stride, attrs.len() as int) {
            Some(k) => Err(recoverable_error(k)),
            None => Ok((layout.array_stride, attrs, layout.step_mode)),
        }
    }
}

/// Whether `r` is the translation of `layout`.
pub open spec fn translates_to(layout: VertexBufferLayout, r: Result<GpuVertexLayout, Error>) -> bool {
    match spec_translate_vertex_layout(layout) {
        Ok((stride, attrs, step)) => r matches Ok(g) && g.array_stride == stride
            && g.attributes@ == attrs && g.step_mode == step,
        Err(e) => r == Err::<GpuVertexLayout, Error>(e),
    }
}

/// Checks a vertex layout and translates it for pipeline creation.
pub fn translate_vertex_layout(layout: &VertexBufferLayout) -> (r: Result<GpuVertexLayout, Error>)
    ensures
        translates_to(*layout, r),
{
    if layout.array_stride == 0 {
        return Err(Error::recoverable(ErrorKind::InvalidDescriptor("vertex_layout_zero_stride")));
    }
    if layout.attributes.len() == 0 {
        return Err(Error::recoverable(ErrorKind::InvalidDescriptor("vertex_layout_missing_attributes")));
    }
    let ghost attrs = layout.attributes@;
    let stride = layout.array_stride;
    let mut locations: HashSet<u32> = HashSet::with_capacity(layout.attributes.len());
    let mut translated: Vec<VertexAttribute> = Vec::with_capacity(layout.attributes.len());
    let mut i: usize = 0;
    while i < layout.attributes.len()
        invariant
            attrs == layout.attributes@,
            stride == layout.array_stride,
            stride > 0,
            attrs.len() > 0,
            i <= attrs.len(),
            first_attribute_fault(attrs, stride, i as int) is None,
            translated@ == attrs.subrange(0, i as int),
            forall|l: u32| locations@.contains(l) <==> exists|j: int| 0 <= j < i && attrs[j].location == l,
        decreases attrs.len() - i,
    {
        let attribute = layout.attributes[i];
        let size = vertex_format_size(attribute.format);
        let end = attribute.offset.checked_add(size);
        match end {
            None => {
                assert(first_attribute_fault(attrs, stride, i + 1) == Some(
                    ErrorKind::InvalidDescriptor("vertex_attribute_overflow"),
                ));
                proof { lemma_first_fault_stays(attrs, stride, i + 1, attrs.len() as int); }
                return Err(Error::recoverable(ErrorKind::InvalidDescriptor("vertex_attribute_overflow")));
            },
            Some(end) => {
                if end > stride {
                    assert(first_attribute_fault(attrs, stride, i + 1) == Some(
                        ErrorKind::InvalidDescriptor("vertex_attribute_out_of_bounds"),
                    ));
                    proof { lemma_first_fault_stays(attrs, stride, i + 1, attrs.len() as int); }
                    return Err(Error::recoverable(ErrorKind::InvalidDescriptor("vertex_attribute_out_of_bounds")));
                }
                let fresh = locations.insert(attribute.location);
                if !fresh {
                    let ghost j = choose|j: int| 0 <= j < i && attrs[j].location == attribute.location;
                    assert(0 <= j < i && attrs[j].location == attrs[i as int].location);
                    assert(first_attribute_fault(attrs, stride, i + 1) == Some(
                        ErrorKind::InvalidDescriptor("vertex_attribute_duplicate_location"),
                    ));
                    proof { lemma_first_fault_stays(attrs, stride, i + 1, attrs.len() as int); }
                    return Err(Error::recoverable(ErrorKind::InvalidDescriptor("vertex_attribute_duplicate_location")));
                }
                assert(!exists|j: int| 0 <= j < i && attrs[j].location == attrs[i as int].location);
                assert(attribute_fault(attrs, stride, i as int) is None);
                translated.push(attribute);
                assert(translated@ =~= attrs.subrange(0, i + 1));
                i = i + 1;
            },
        }
    }
    assert(translated@ =~= attrs);
    Ok(GpuVertexLayout { array_stride: stride, attributes: translated, step_mode: layout.step_mode })
}

/// Once a fault is found among the first `n` attributes, it stays the first
/// fault among more of them.
pub proof fn lemma_first_fault_stays(attrs: Seq<VertexAttribute>, stride: u64, n: int, m: int)
    requires
        n <= m,
        first_attribute_fault(attrs, stride, n) is Some,
    ensures
        first_attribute_fault(attrs, stride, m) == first_attribute_fault(attrs, stride, n),
    decreases m - n,
{
    if n < m {
        lemma_first_fault_stays(attrs, stride, n, m - 1);
    }
}

/// No attribute among the first `n` has a fault exactly when none of them
/// does.
proof fn lemma_no_fault_iff(attrs: Seq<VertexAttribute>, stride: u64, n: int)
    requires
        0 <= n <= attrs.len(),
    ensures
        first_attribute_fault(attrs, stride, n) is None <==> forall|i: int|
            0 <= i < n ==> #[trigger] attribute_fault(attrs, stride, i) is None,
    decreases n,
{
    if n > 0 {
        lemma_no_fault_iff(attrs, stride, n - 1);
    }
}

/// Whether every attribute fits in the stride and no two share a location.
pub open spec fn attributes_well_placed(attrs: Seq<VertexAttribute>, stride: u64) -> bool {
    &&& forall|i: int| 0 <= i < attrs.len()
        ==> #[trigger] attrs[i].offset + spec_vertex_format_size(attrs[i].format) <= stride
    &&& forall|i: int, j: int| 0 <= i < j < attrs.len()
        ==> #[trigger] attrs[i].location != #[trigger] attrs[j].location
}

/// A vertex layout is accepted exactly when its stride is positive, it has
/// attributes, each attribute ends within the stride, and no two attributes
/// share a location.
pub proof fn lemma_vertex_layout_accepted(layout: VertexBufferLayout)
    ensures
        spec_translate_vertex_layout(layout) is Ok <==> {
            &&& layout.array_stride > 0
            &&& layout.attributes@.len() > 0
            &&& attributes_well_placed(layout.attributes@, layout.array_stride)
        },
{
    let attrs = layout.attributes@;
    let stride = layout.array_stride;
    lemma_no_fault_iff(attrs, stride, attrs.len() as int);
    if attributes_well_placed(attrs, stride) {
        assert forall|i: int| 0 <= i < attrs.len() implies #[trigger] attribute_fault(attrs, stride, i) is None by {
            assert forall|j: int| 0 <= j < i implies attrs[j].location != attrs[i].location by {}
        }
    }
    if first_attribute_fault(attrs, stride, attrs.len() as int) is None {
        assert forall|i: int| 0 <= i < attrs.len() implies
            #[trigger] attrs[i].offset + spec_vertex_format_size(attrs[i].format) <= stride by {
            assert(attribute_fault(attrs, stride, i) is None);
        }
        assert forall|i: int, j: int| 0 <= i < j < attrs.len() implies
            #[trigger] attrs[i].location != #[trigger] attrs[j].location by {
            assert(attribute_fault(attrs, stride, j) is None);
        }
    }
}

/// The `n` low bytes of `x`, least significant first.
pub open spec fn le_bytes(x: nat, n: nat) -> Seq<u8>
    decreases n,
{
    if n == 0 {
        Seq::empty()
    } else {
        seq![(x % 256) as u8] + le_bytes(x / 256, (n - 1) as nat)
    }
}

/// The `n` low bytes of `x`, least significant first.
fn le_bytes_vec(x: u64, n: usize) -> (v: Vec<u8>)
    ensures
        v@ == le_bytes(x as nat, n as nat),
{
    let mut v: Vec<u8> = Vec::new();
    let mut cur = x;
    let mut k: usize = 0;
    while k < n
        invariant
            k <= n,
            le_bytes(x as nat, n as nat) == v@ + le_bytes(cur as nat, (n - k) as nat),
        decreases n - k,
    {
        let b = (cur % 256) as u8;
        assert(le_bytes(cur as nat, (n - k) as nat) == seq![b] + le_bytes((cur / 256) as nat, (n - k - 1) as nat));
        assert(v@ + le_bytes(cur as nat, (n - k) as nat) =~= v@.push(b) + le_bytes((cur / 256) as nat, (n - k - 1) as nat));
        v.push(b);
        cur = cur / 256;
        k = k + 1;
    }
    assert(v@ + le_bytes(cur as nat, 0) =~= v@);
    v
}

/// The tag a vertex format is hashed as.
pub open spec fn spec_vertex_format_tag(format: VertexFormat) -> u8 {
    match format {
        VertexFormat::Float32 => 0,
        VertexFormat::Float32x2 => 1,
        VertexFormat::Float32x3 => 2,
        VertexFormat::Float32x4 => 3,
        VertexFormat::Uint32 => 4,
    }
}

/// The tag a vertex format is hashed as.
pub fn vertex_format_tag(format: VertexFormat) -> (t: u8)
    ensures
        t == spec_vertex_format_tag(format),
{
    match format {
        VertexFormat::Float32 => 0,
        VertexFormat::Float32x2 => 1,
        VertexFormat::Float32x3 => 2,
        VertexFormat::Float32x4 => 3,
        VertexFormat::Uint32 => 4,
    }
}

/// The tag a step mode is hashed as.
pub open spec fn spec_step_mode_tag(mode: VertexStepMode) -> u32 {
    match mode {
        VertexStepMode::Vertex => 0,
        VertexStepMode::Instance => 1,
    }
}

/// The writes that hash one attribute: its location, offset and format tag.
pub open spec fn attribute_hash_writes(a: VertexAttribute) -> Seq<Seq<u8>> {
    seq![
        le_bytes(a.location as nat, 4),
        le_bytes(a.offset as nat, 8),
        seq![spec_vertex_format_tag(a.format)],
    ]
}

/// The writes that hash the first `n` attributes, in order.
pub open spec fn attributes_hash_writes(attrs: Seq<VertexAttribute>, n: int) -> Seq<Seq<u8>>
    decreases n,
{
    if n <= 0 {
        Seq::empty()
    } else {
        attributes_hash_writes(attrs, n - 1) + attribute_hash_writes(attrs[n - 1])
    }
}

/// The writes that hash a vertex layout: its stride, its step mode, then
/// each attribute in order; integers are written least significant byte
/// first.
pub open spec fn layout_hash_writes(layout: VertexBufferLayout) -> Seq<Seq<u8>> {
    seq![
        le_bytes(layout.array_stride as nat, 8),
        le_bytes(spec_step_mode_tag(layout.step_mode) as nat, 4),
    ] + attributes_hash_writes(layout.attributes@, layout.attributes@.len() as int)
}

/// The identity of a vertex layout: the default hasher's digest of the
/// layout's writes.
pub open spec fn spec_vertex_layout_id(layout: VertexBufferLayout) -> u64 {
    DefaultHasher::spec_finish(layout_hash_writes(layout))
}

/// The identity of a vertex layout, by which pipelines are cached.
/// Integers are written least significant byte first, which is the
/// machine's own order on little-endian targets; on big-endian targets the
/// identities differ from those of hashing the integers in machine order.
pub fn hash_vertex_layout(layout: &VertexBufferLayout) -> (id: u64)
    ensures
        id == spec_vertex_layout_id(*layout),
{
    let mut hasher = DefaultHasher::new();
    let stride = le_bytes_vec(layout.array_stride, 8);
    hasher.write(stride.as_slice());
    let step: u64 = match layout.step_mode {
        VertexStepMode::Vertex => 0,
        VertexStepMode::Instance => 1,
    };
    let step_bytes = le_bytes_vec(step, 4);
    hasher.write(step_bytes.as_slice());
    let ghost attrs = layout.attributes@;
    assert(hasher@ =~= layout_hash_writes(*layout).subrange(0, 2));
    let mut i: usize = 0;
    while i < layout.attributes.len()
        invariant
            attrs == layout.attributes@,
            i <= attrs.len(),
            hasher@ == seq![
                le_bytes(layout.array_stride as nat, 8),
                le_bytes(spec_step_mode_tag(layout.step_mode) as nat, 4),
            ] + attributes_hash_writes(attrs, i as int),
        decreases attrs.len() - i,
    {
        let attribute = layout.attributes[i];
        let ghost start = hasher@;
        let location = le_bytes_vec(attribute.location as u64, 4);
        hasher.write(location.as_slice());
        let offset = le_bytes_vec(attribute.offset, 8);
        hasher.write(offset.as_slice());
        let ghost before = hasher@;
        let mut tag: Vec<u8> = Vec::new();
        tag.push(vertex_format_tag(attribute.format));
        assert(tag@ =~= seq![spec_vertex_format_tag(attribute.format)]);
        hasher.write(tag.as_slice());
        proof {
            assert(attribute == attrs[i as int]);
            assert(hasher@ =~= start + attribute_hash_writes(attribute)) by {
                assert(hasher@ == before.push(tag@));
                assert(before == start.push(location@).push(offset@));
            }
            assert(attributes_hash_writes(attrs, i + 1) =~= attributes_hash_writes(attrs, i as int)
                + attribute_hash_writes(attrs[i as int]));
        }
        i = i + 1;
        assert(hasher@ =~= seq![
            le_bytes(layout.array_stride as nat, 8),
            le_bytes(spec_step_mode_tag(layout.step_mode) as nat, 4),
        ] + attributes_hash_writes(attrs, i as int));
    }
    hasher.finish()
}

} // verus!
