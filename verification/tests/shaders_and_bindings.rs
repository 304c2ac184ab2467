use rotex_wgpu::bindings::{
    GpuBindGroupLayoutEntry, GpuBindingType, GpuBufferBindingType, GpuShaderStages, SetLayout,
    build_material_set_layouts, build_set_layouts_from_abstract_layout, create_bind_group_layout,
    layout_has_dynamic_offset, map_binding_type, map_shader_stages,
};
use rotex_wgpu::compute::{
    ComputeBindGroupCache, ComputeBindGroupKey, ComputeBufferBinding, compute_buffer_binding,
    create_compute_pipeline, record_compute_dispatch,
};
use rotex_wgpu::error::{Error, ErrorKind, Severity};
use rotex_wgpu::resources::ResourceStorage;
use rotex_wgpu::shader::{ShaderModuleCache, ShaderModuleSource, is_spirv_bytes, package_is_compilable};
use rotex_wgpu::types::{
    AbstractPipelineLayout, BindGroupLayoutDescriptor, BindGroupLayoutEntry, BindingType, BufferId,
    BufferUsageIntent, ComputePassDescriptor, ComputePipelineDescriptor, ComputePipelineId,
    ShaderPackage, ShaderPayload, ShaderStageFlags, ShaderVariants,
};

fn empty_layout() -> AbstractPipelineLayout {
    AbstractPipelineLayout { bind_groups: vec![] }
}

fn package(wgsl: Option<ShaderPayload>, spirv: Option<ShaderPayload>, hash: u64) -> ShaderPackage {
    ShaderPackage {
        entry_point: "main".to_string(),
        variants: ShaderVariants { wgsl, spirv },
        layout: empty_layout(),
        payload_hash: hash,
    }
}

fn stages(vertex: bool, fragment: bool, compute: bool) -> ShaderStageFlags {
    ShaderStageFlags { vertex, fragment, compute }
}

fn entry(binding: u32, ty: BindingType, readonly: bool) -> BindGroupLayoutEntry {
    BindGroupLayoutEntry { binding, visibility: stages(false, true, true), ty, readonly }
}

#[test]
fn binding_types_map() {
    assert_eq!(
        map_binding_type(BindingType::UniformBuffer, true),
        GpuBindingType::Buffer { ty: GpuBufferBindingType::Uniform, has_dynamic_offset: false },
    );
    assert_eq!(
        map_binding_type(BindingType::UniformBufferDynamic, false),
        GpuBindingType::Buffer { ty: GpuBufferBindingType::Uniform, has_dynamic_offset: true },
    );
    assert_eq!(
        map_binding_type(BindingType::StorageBuffer, true),
        GpuBindingType::Buffer { ty: GpuBufferBindingType::Storage { read_only: true }, has_dynamic_offset: false },
    );
    assert_eq!(
        map_binding_type(BindingType::StorageBuffer, false),
        GpuBindingType::Buffer { ty: GpuBufferBindingType::Storage { read_only: false }, has_dynamic_offset: false },
    );
    assert_eq!(
        map_binding_type(BindingType::CombinedImageSampler, false),
        GpuBindingType::FloatTexture2D { filterable: true, multisampled: false },
    );
}

#[test]
fn shader_stages_map() {
    assert_eq!(map_shader_stages(stages(true, false, true)), GpuShaderStages { vertex: true, fragment: false, compute: true });
    assert_eq!(map_shader_stages(stages(false, false, false)), GpuShaderStages { vertex: false, fragment: false, compute: false });
}

#[test]
fn bind_group_layout_entries_in_order() {
    let desc = BindGroupLayoutDescriptor {
        set: 0,
        entries: vec![entry(3, BindingType::StorageBuffer, true), entry(1, BindingType::UniformBuffer, false)],
    };
    let entries = create_bind_group_layout(&desc);
    assert_eq!(entries.len(), 2);
    assert_eq!(entries[0].binding, 3);
    assert_eq!(entries[1].binding, 1);
    assert_eq!(entries[0].visibility, GpuShaderStages { vertex: false, fragment: true, compute: true });
    assert!(!layout_has_dynamic_offset(&desc));
    let dynamic = BindGroupLayoutDescriptor { set: 1, entries: vec![entry(0, BindingType::UniformBufferDynamic, false)] };
    assert!(layout_has_dynamic_offset(&dynamic));
}

#[test]
fn set_layouts_fill_gaps_with_empty_layouts() {
    let layout = AbstractPipelineLayout {
        bind_groups: vec![
            BindGroupLayoutDescriptor { set: 2, entries: vec![entry(0, BindingType::UniformBuffer, false)] },
            BindGroupLayoutDescriptor { set: 0, entries: vec![entry(5, BindingType::StorageBuffer, false)] },
            BindGroupLayoutDescriptor { set: 2, entries: vec![] },
        ],
    };
    let slots = build_set_layouts_from_abstract_layout(&layout);
    assert_eq!(slots.len(), 3);
    assert_eq!(
        slots[0],
        SetLayout::Group(vec![GpuBindGroupLayoutEntry {
            binding: 5,
            visibility: GpuShaderStages { vertex: false, fragment: true, compute: true },
            ty: map_binding_type(BindingType::StorageBuffer, false),
        }]),
    );
    assert_eq!(slots[1], SetLayout::Empty);
    // The first group declared at an index wins.
    match &slots[2] {
        SetLayout::Group(entries) => assert_eq!(entries.len(), 1),
        SetLayout::Empty => panic!("set 2 is declared"),
    }
    assert_eq!(build_material_set_layouts(&layout), slots);
    assert!(build_set_layouts_from_abstract_layout(&empty_layout()).is_empty());
}

#[test]
fn wgsl_module_is_created_once() {
    let mut cache = ShaderModuleCache::new();
    let p = package(Some(ShaderPayload::Wgsl("fn main() {}".to_string())), None, 42);
    let created = cache.get_or_create_shader_module("first", &p).unwrap().unwrap();
    assert_eq!(created.key, 42);
    assert_eq!(created.label, "first");
    assert_eq!(created.source, ShaderModuleSource::Wgsl("fn main() {}".to_string()));
    assert!(cache.contains(42));
    assert_eq!(cache.get_or_create_shader_module("second", &p), Ok(None));
}

#[test]
fn wgsl_slot_wins_over_spirv_slot() {
    let mut cache = ShaderModuleCache::new();
    let p = package(
        Some(ShaderPayload::Wgsl("src".to_string())),
        Some(ShaderPayload::SpirV(vec![0x03, 0x02, 0x23, 0x07])),
        1,
    );
    let created = cache.get_or_create_shader_module("m", &p).unwrap().unwrap();
    assert_eq!(created.source, ShaderModuleSource::Wgsl("src".to_string()));
}

#[test]
fn spirv_words_follow_the_magic_byte_order() {
    // Little-endian module: magic number then one word.
    let mut cache = ShaderModuleCache::new();
    let le = package(None, Some(ShaderPayload::SpirV(vec![0x03, 0x02, 0x23, 0x07, 0x01, 0x02, 0x03, 0x04])), 7);
    let created = cache.get_or_create_shader_module("le", &le).unwrap().unwrap();
    assert_eq!(created.source, ShaderModuleSource::SpirV(vec![0x0723_0203, 0x0403_0201]));
    // Big-endian module: the words are read most significant byte first.
    let be = package(None, Some(ShaderPayload::SpirV(vec![0x07, 0x23, 0x02, 0x03, 0x01, 0x02, 0x03, 0x04])), 8);
    let created = cache.get_or_create_shader_module("be", &be).unwrap().unwrap();
    assert_eq!(created.source, ShaderModuleSource::SpirV(vec![0x0723_0203, 0x0102_0304]));
}

#[test]
fn shader_errors() {
    let mut cache = ShaderModuleCache::new();
    assert_eq!(
        cache.get_or_create_shader_module("m", &package(None, None, 1)),
        Err(Error { kind: ErrorKind::InvalidDescriptor("shader_variant_missing"), severity: Severity::Recoverable }),
    );
    assert_eq!(
        cache.get_or_create_shader_module("m", &package(None, Some(ShaderPayload::SpirV(vec![1, 2, 3])), 2)),
        Err(Error { kind: ErrorKind::InvalidDescriptor("shader_bytes_not_word_aligned"), severity: Severity::Recoverable }),
    );
    assert_eq!(
        cache.get_or_create_shader_module("m", &package(Some(ShaderPayload::Glsl("void main(){}".to_string())), None, 3)),
        Err(Error { kind: ErrorKind::Unsupported("unsupported_shader_payload_for_wgpu"), severity: Severity::Fatal }),
    );
    assert!(!cache.contains(1) && !cache.contains(2) && !cache.contains(3));
}

#[test]
fn spirv_checks() {
    assert!(is_spirv_bytes(&[0x03, 0x02, 0x23, 0x07]));
    assert!(is_spirv_bytes(&[0x07, 0x23, 0x02, 0x03, 0, 0, 0, 0]));
    assert!(!is_spirv_bytes(&[0x03, 0x02, 0x23, 0x07, 0]));
    assert!(!is_spirv_bytes(&[1, 2, 3, 4]));
    assert!(!is_spirv_bytes(&[]));
    assert!(package_is_compilable(&package(None, Some(ShaderPayload::SpirV(vec![1, 2, 3])), 1)));
    assert!(!package_is_compilable(&package(None, Some(ShaderPayload::SpirV(vec![1, 2, 3, 4])), 1)));
    assert!(package_is_compilable(&package(Some(ShaderPayload::Wgsl(String::new())), None, 1)));
}

#[test]
fn compute_pipeline_needs_entry_point() {
    let mut cache = ShaderModuleCache::new();
    let mut p = package(Some(ShaderPayload::Wgsl("cs".to_string())), None, 5);
    p.entry_point = String::new();
    assert_eq!(
        create_compute_pipeline(&mut cache, &ComputePipelineDescriptor { shader: p }),
        Err(Error { kind: ErrorKind::InvalidDescriptor("compute_shader_entry_missing"), severity: Severity::Recoverable }),
    );
    assert!(!cache.contains(5));
}

#[test]
fn compute_pipeline_plan() {
    let mut cache = ShaderModuleCache::new();
    let mut p = package(Some(ShaderPayload::Wgsl("cs".to_string())), None, 5);
    p.layout = AbstractPipelineLayout {
        bind_groups: vec![BindGroupLayoutDescriptor { set: 1, entries: vec![entry(0, BindingType::StorageBuffer, false)] }],
    };
    let (created, plan) = create_compute_pipeline(&mut cache, &ComputePipelineDescriptor { shader: p.clone() }).unwrap();
    assert_eq!(created.unwrap().label, "rotex-wgpu-compute-shader");
    assert_eq!(plan.shader_key, 5);
    assert_eq!(plan.entry_point, "main");
    assert_eq!(plan.set_layouts.len(), 2);
    assert_eq!(plan.set_layouts[0], SetLayout::Empty);
    let (again, _) = create_compute_pipeline(&mut cache, &ComputePipelineDescriptor { shader: p }).unwrap();
    assert_eq!(again, None);
}

#[test]
fn buffer_binding_of_intent() {
    let whole = BufferUsageIntent { buffer: BufferId(1), set: 0, binding: 2, offset: 16, size: 0 };
    assert_eq!(compute_buffer_binding(&whole), ComputeBufferBinding { binding: 2, buffer: BufferId(1), offset: 16, size: None });
    let part = BufferUsageIntent { size: 64, ..whole };
    assert_eq!(compute_buffer_binding(&part).size, Some(64));
}

#[test]
fn dispatch_errors_before_any_pipeline() {
    let st = ResourceStorage::new();
    let mut cache = ComputeBindGroupCache::new();
    let pass = ComputePassDescriptor { pipeline: ComputePipelineId(1), buffer_intents: vec![], workgroup_count: [1, 1, 1] };
    assert_eq!(
        record_compute_dispatch(&st, &mut cache, &pass),
        Err(Error { kind: ErrorKind::ResourceNotFound("compute_pipeline"), severity: Severity::Recoverable }),
    );
    assert!(!cache.contains(&ComputeBindGroupKey { pipeline: ComputePipelineId(1), buffer: BufferId(0) }));
}
