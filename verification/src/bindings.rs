//! Bind group layouts: how the bindings that shaders declare map onto the
//! layouts a pipeline is created with.
use vstd::prelude::*;
use crate::types::{
    AbstractPipelineLayout, BindGroupLayoutDescriptor, BindGroupLayoutEntry, BindingType,
    ShaderStageFlags,
};

verus! {

/// How a buffer binding is accessed.
#[derive(Clone, Copy, Debug, PartialEq, Eq, Hash, Structural)]
pub enum GpuBufferBindingType {
    Uniform,
    Storage { read_only: bool },
}

/// What a binding of a GPU bind group layout holds: a buffer, or a 2D
/// float texture.
#[derive(Clone, Copy, Debug, PartialEq, Eq, Hash, Structural)]
pub enum GpuBindingType {
    Buffer { ty: GpuBufferBindingType, has_dynamic_offset: bool },
    FloatTexture2D { filterable: bool, multisampled: bool },
}

/// The shader stages that see a GPU binding.
#[derive(Clone, Copy, Debug, PartialEq, Eq, Hash, Structural)]
pub struct GpuShaderStages {
    pub vertex: bool,
    pub fragment: bool,
    pub compute: bool,
}

/// One entry of a GPU bind group layout.
#[derive(Clone, Copy, Debug, PartialEq, Eq, Hash, Structural)]
pub struct GpuBindGroupLayoutEntry {
    pub binding: u32,
    pub visibility: GpuShaderStages,
    pub ty: GpuBindingType,
}

/// The GPU binding type of a declared binding type: uniform buffers (with a
/// dynamic offset for the dynamic kind), storage buffers that are read-only
/// when the entry says so, and filterable single-sampled 2D textures.
pub open spec fn spec_map_binding_type(ty: BindingType, readonly: bool) -> GpuBindingType {
    match ty {
        BindingType::UniformBuffer => GpuBindingType::Buffer {
            ty: GpuBufferBindingType::Uniform,
            has_dynamic_offset: false,
        },
        BindingType::UniformBufferDynamic => GpuBindingType::Buffer {
            ty: GpuBufferBindingType::Uniform,
            has_dynamic_offset: true,
        },
        BindingType::StorageBuffer => GpuBindingType::Buffer {
            ty: GpuBufferBindingType::Storage { read_only: readonly },
            has_dynamic_offset: false,
        },
        BindingType::CombinedImageSampler => GpuBindingType::FloatTexture2D {
            filterable: true,
            multisampled: false,
        },
    }
}

/// The GPU binding type of a declared binding type.
pub fn map_binding_type(ty: BindingType, readonly: bool) -> (t: GpuBindingType)
    ensures
        t == spec_map_binding_type(ty, readonly),
{
    match ty {
        BindingType::UniformBuffer | BindingType::UniformBufferDynamic => GpuBindingType::Buffer {
            ty: GpuBufferBindingType::Uniform,
            has_dynamic_offset: match ty {
                BindingType::UniformBufferDynamic => true,
                _ => false,
            },
        },
        BindingType::StorageBuffer => GpuBindingType::Buffer {
            ty: GpuBufferBindingType::Storage { read_only: readonly },
            has_dynamic_offset: false,
        },
        BindingType::CombinedImageSampler => GpuBindingType::FloatTexture2D {
            filterable: true,
            multisampled: false,
        },
    }
}

/// The GPU stages of a set of declared stages: the same stages.
pub open spec fn spec_map_shader_stages(stages: ShaderStageFlags) -> GpuShaderStages {
    GpuShaderStages { vertex: stages.vertex, fragment: stages.fragment, compute: stages.compute }
}

/// The GPU stages of a set of declared stages.
pub fn map_shader_stages(stages: ShaderStageFlags) -> (flags: GpuShaderStages)
    ensures
        flags == spec_map_shader_stages(stages),
{
    let mut flags = GpuShaderStages { vertex: false, fragment: false, compute: false };
    if stages.vertex {
        flags.vertex = true;
    }
    if stages.fragment {
        flags.fragment = true;
    }
    if stages.compute {
        flags.compute = true;
    }
    flags
}

/// The GPU entry of a declared layout entry.
pub open spec fn spec_map_layout_entry(e: BindGroupLayoutEntry) -> GpuBindGroupLayoutEntry {
    GpuBindGroupLayoutEntry {
        binding: e.binding,
        visibility: spec_map_shader_stages(e.visibility),
        ty: spec_map_binding_type(e.ty, e.readonly),
    }
}

/// The entries of the GPU layout of a declared bind group layout: its
/// entries, mapped one for one and in order.
pub fn create_bind_group_layout(desc: &BindGroupLayoutDescriptor) -> (entries: Vec<GpuBindGroupLayoutEntry>)
    ensures
        entries@ == desc.entries@.map_values(|e: BindGroupLayoutEntry| spec_map_layout_entry(e)),
{
    let mut entries: Vec<GpuBindGroupLayoutEntry> = Vec::with_capacity(desc.entries.len());
    let mut i: usize = 0;
    while i < desc.entries.len()
        invariant
            i <= desc.entries@.len(),
            entries@ == desc.entries@.subrange(0, i as int).map_values(
                |e: BindGroupLayoutEntry| spec_map_layout_entry(e),
            ),
        decreases desc.entries@.len() - i,
    {
        let entry = desc.entries[i];
        entries.push(GpuBindGroupLayoutEntry {
            binding: entry.binding,
            visibility: map_shader_stages(entry.visibility),
            ty: map_binding_type(entry.ty, entry.readonly),
        });
        i = i + 1;
        assert(entries@ =~= desc.entries@.subrange(0, i as int).map_values(
            |e: BindGroupLayoutEntry| spec_map_layout_entry(e),
        ));
    }
    assert(desc.entries@.subrange(0, i as int) =~= desc.entries@);
    entries
}

/// Whether a declared bind group layout has a dynamic uniform buffer.
pub open spec fn spec_layout_has_dynamic_offset(desc: BindGroupLayoutDescriptor) -> bool {
    exists|i: int| 0 <= i < desc.entries@.len() && desc.entries@[i].ty == BindingType::UniformBufferDynamic
}

/// Whether a declared bind group layout has a dynamic uniform buffer.
pub fn layout_has_dynamic_offset(desc: &BindGroupLayoutDescriptor) -> (b: bool)
    ensures
        b == spec_layout_has_dynamic_offset(*desc),
{
    let mut i: usize = 0;
    while i < desc.entries.len()
        invariant
            i <= desc.entries@.len(),
            forall|j: int| 0 <= j < i ==> desc.entries@[j].ty != BindingType::UniformBufferDynamic,
        decreases desc.entries@.len() - i,
    {
        match desc.entries[i].ty {
            BindingType::UniformBufferDynamic => {
                return true;
            },
            _ => {},
        }
        i = i + 1;
    }
    false
}

/// The layout of one bind group index of a pipeline: the entries of the
/// group declared at that index, or an empty layout when none is.
#[derive(Clone, Debug, PartialEq, Eq)]
pub enum SetLayout {
    Group(Vec<GpuBindGroupLayoutEntry>),
    Empty,
}

/// The largest set index among the first `n` groups (zero for none).
pub open spec fn max_set(groups: Seq<BindGroupLayoutDescriptor>, n: int) -> u32
    decreases n,
{
    if n <= 0 {
        0
    } else {
        let m = max_set(groups, n - 1);
        if groups[n - 1].set > m { groups[n - 1].set } else { m }
    }
}

/// The number of bind group indices a pipeline layout spans: none for no
/// groups, else up to and including the largest declared index.
pub open spec fn set_count(layout: AbstractPipelineLayout) -> nat {
    let groups = layout.bind_groups@;
    if groups.len() == 0 { 0 } else { max_set(groups, groups.len() as int) as nat + 1 }
}

/// The index of the first group declared at set index `set`, if any.
pub open spec fn first_group_at(groups: Seq<BindGroupLayoutDescriptor>, set: int) -> Option<int> {
    if exists|i: int| 0 <= i < groups.len() && groups[i].set == set {
        Some(choose|i: int| 0 <= i < groups.len() && groups[i].set == set
            && forall|j: int| 0 <= j < i ==> groups[j].set != set)
    } else {
        None
    }
}

/// Whether `slot` is the layout of set index `set` of `layout`: the first
/// group declared there, mapped, or empty when none is.
pub open spec fn is_set_layout(layout: AbstractPipelineLayout, set: int, slot: SetLayout) -> bool {
    let groups = layout.bind_groups@;
    match slot {
        SetLayout::Group(entries) => exists|i: int| {
            &&& 0 <= i < groups.len()
            &&& groups[i].set == set
            &&& forall|j: int| 0 <= j < i ==> groups[j].set != set
            &&& entries@ == groups[i].entries@.map_values(|e: BindGroupLayoutEntry| spec_map_layout_entry(e))
        },
        SetLayout::Empty => forall|i: int| 0 <= i < groups.len() ==> groups[i].set != set,
    }
}

/// Whether `slots` are the set layouts of `layout`.
pub open spec fn are_set_layouts(layout: AbstractPipelineLayout, slots: Seq<SetLayout>) -> bool {
    &&& slots.len() == set_count(layout)
    &&& forall|s: int| 0 <= s < slots.len() ==> is_set_layout(layout, s, #[trigger] slots[s])
}

proof fn lemma_max_set_bounds(groups: Seq<BindGroupLayoutDescriptor>, n: int)
    requires
        0 <= n <= groups.len(),
    ensures
        forall|i: int| 0 <= i < n ==> groups[i].set <= max_set(groups, n),
        n > 0 ==> exists|i: int| 0 <= i < n && groups[i].set == max_set(groups, n),
    decreases n,
{
    if n > 0 {
        lemma_max_set_bounds(groups, n - 1);
        if groups[n - 1].set > max_set(groups, n - 1) || n == 1 {
            assert(groups[n - 1].set == max_set(groups, n));
        } else {
            let w = choose|i: int| 0 <= i < n - 1 && groups[i].set == max_set(groups, n - 1);
            assert(groups[w].set == max_set(groups, n));
        }
    }
}

/// The layouts of the bind group indices of a pipeline: one per index from
/// zero up to the largest declared index, each the first group declared at
/// that index or empty.
pub fn build_set_layouts_from_abstract_layout(layout: &AbstractPipelineLayout) -> (slots: Vec<SetLayout>)
    ensures
        are_set_layouts(*layout, slots@),
{
    let ghost groups = layout.bind_groups@;
    let n = layout.bind_groups.len();
    if n == 0 {
        return Vec::new();
    }
    let mut max: u32 = 0;
    let mut i: usize = 0;
    while i < n
        invariant
            groups == layout.bind_groups@,
            n == groups.len(),
            i <= n,
            max == max_set(groups, i as int),
        decreases n - i,
    {
        if layout.bind_groups[i].set > max {
            max = layout.bind_groups[i].set;
        }
        i = i + 1;
    }
    proof {
        lemma_max_set_bounds(groups, n as int);
    }
    let mut slots: Vec<SetLayout> = Vec::new();
    let mut set: u64 = 0;
    while set <= max as u64
        invariant
            groups == layout.bind_groups@,
            n == groups.len(),
            n > 0,
            max == max_set(groups, n as int),
            set <= max as u64 + 1,
            slots@.len() == set,
            forall|s: int| 0 <= s < set ==> is_set_layout(*layout, s, #[trigger] slots@[s]),
        decreases max as u64 + 1 - set,
    {
        let mut found: Option<usize> = None;
        let mut j: usize = 0;
        while j < n
            invariant
                groups == layout.bind_groups@,
                n == groups.len(),
                j <= n,
                found is None ==> forall|k: int| 0 <= k < j ==> groups[k].set != set,
                found matches Some(f) ==> f < n && groups[f as int].set == set
                    && forall|k: int| 0 <= k < f ==> groups[k].set != set,
            decreases n - j,
        {
            if found.is_none() && layout.bind_groups[j].set as u64 == set {
                found = Some(j);
            }
            j = j + 1;
        }
        let ghost before = slots@;
        match found {
            Some(f) => {
                let entries = create_bind_group_layout(&layout.bind_groups[f]);
                slots.push(SetLayout::Group(entries));
                assert(is_set_layout(*layout, set as int, slots@[set as int]));
            },
            None => {
                slots.push(SetLayout::Empty);
            },
        }
        assert forall|s: int| 0 <= s < set + 1 implies is_set_layout(*layout, s, #[trigger] slots@[s]) by {
            if s < set {
                assert(slots@[s] == before[s]);
            }
        }
        set = set + 1;
    }
    slots
}

/// The layouts of a material's bind group indices.
pub fn build_material_set_layouts(layout: &AbstractPipelineLayout) -> (slots: Vec<SetLayout>)
    ensures
        are_set_layouts(*layout, slots@),
{
    build_set_layouts_from_abstract_layout(layout)
}

} // verus!
