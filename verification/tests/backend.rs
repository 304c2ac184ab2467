use rotex_wgpu::bridge::{BridgeState, SwapchainInfo, create_descriptor_is_ok, update_descriptor_is_ok};
use rotex_wgpu::shader::ShaderModuleCache;
use rotex_wgpu::error::{
    CoreErrorKind, CoreSeverity, Error, ErrorKind, Severity, error_kind_debug, surface_not_attached_error,
    to_core_error,
};
use rotex_wgpu::render::{BundlePlan, DepthCompare, DepthLoadOp, DepthTestPlan, FrameAction, PipelineCreation};
use rotex_wgpu::resources::{CreateAction, UpdateAction};
use rotex_wgpu::pipeline::MaterialPipelineKey;
use rotex_wgpu::types::{
    AbstractPipelineLayout, BindGroupDescriptor, BindGroupEntryDescriptor, BindGroupId,
    BindGroupLayoutDescriptor, BindGroupLayoutEntry, BindGroupLayoutId, BindingType,
    BufferDescriptor, BufferId, BufferUsage, BufferUsageIntent, BufferUsages, ColorAttachmentLoad,
    ComputePassDescriptor, ComputePipelineDescriptor, ComputePipelineId, CullMode,
    DepthAttachmentLoad, Extent2D, GpuTextureFormat, IndexFormat, MaterialDescriptor, MaterialId, MaterialShaders,
    MeshDescriptor, MeshId, PassColorTarget, RenderPassDescriptor, ResourceBatchCreate,
    ResourceBatchUpdate, ResourceCreateDescriptor, ResourceHandle, ResourceUpdateDescriptor,
    RhiCommand, ShaderPackage, ShaderPayload, ShaderStageFlags, ShaderVariants, TextureDescriptor,
    TexelFormat, TextureId, VertexAttribute, VertexBufferLayout, VertexFormat, VertexStepMode,
    VertexStream, VertexStreamData,
};
use rotex_wgpu::vertex::hash_vertex_layout;

const SURFACE_FORMAT: wgpu::TextureFormat = wgpu::TextureFormat::Bgra8UnormSrgb;

fn recoverable(kind: ErrorKind) -> Error {
    Error { kind, severity: Severity::Recoverable }
}

fn fatal(kind: ErrorKind) -> Error {
    Error { kind, severity: Severity::Fatal }
}

fn empty_layout() -> AbstractPipelineLayout {
    AbstractPipelineLayout { bind_groups: vec![] }
}

fn wgsl(source: &str, hash: u64) -> ShaderPackage {
    ShaderPackage {
        entry_point: "main".to_string(),
        variants: ShaderVariants { wgsl: Some(ShaderPayload::Wgsl(source.to_string())), spirv: None },
        layout: empty_layout(),
        payload_hash: hash,
    }
}

fn material(enable_depth: bool) -> MaterialDescriptor {
    MaterialDescriptor {
        shaders: MaterialShaders { vertex: wgsl("vs", 100), fragment: wgsl("fs", 200), layout: empty_layout() },
        enable_depth,
        texture: None,
        cull_mode: CullMode::Back,
    }
}

fn layout() -> VertexBufferLayout {
    VertexBufferLayout {
        array_stride: 12,
        step_mode: VertexStepMode::Vertex,
        attributes: vec![VertexAttribute { format: VertexFormat::Float32x3, offset: 0, location: 0 }],
    }
}

fn mesh() -> MeshDescriptor {
    MeshDescriptor {
        vertex_streams: vec![VertexStream { layout: layout(), data: VertexStreamData::Static(vec![0u8; 36]) }],
        index_data: vec![0, 0, 0, 0, 1, 0, 0, 0, 2, 0, 0, 0],
        index_format: IndexFormat::Uint32,
        index_count: 3,
    }
}

fn buffer(size: u64) -> BufferDescriptor {
    BufferDescriptor {
        size,
        usage: BufferUsage::Storage,
        usages: BufferUsages { vertex: false, index: false, uniform: false, storage: false },
        initial_data: None,
    }
}

fn compute_shader() -> ShaderPackage {
    let mut p = wgsl("cs", 300);
    p.layout = AbstractPipelineLayout {
        bind_groups: vec![BindGroupLayoutDescriptor {
            set: 0,
            entries: vec![BindGroupLayoutEntry {
                binding: 0,
                visibility: ShaderStageFlags { vertex: false, fragment: false, compute: true },
                ty: BindingType::StorageBuffer,
                readonly: false,
            }],
        }],
    };
    p
}

fn scene() -> Vec<ResourceCreateDescriptor> {
    vec![
        ResourceCreateDescriptor::Material { id: 1, material: material(true) },
        ResourceCreateDescriptor::Mesh { id: 2, mesh: mesh() },
        ResourceCreateDescriptor::Buffer { id: 3, buffer: buffer(64) },
        ResourceCreateDescriptor::Texture {
            id: 4,
            texture: TextureDescriptor { width: 2, height: 2, format: TexelFormat::Rgba8Unorm, data: vec![9u8; 16] },
        },
        ResourceCreateDescriptor::BindGroupLayout { id: 5, layout: BindGroupLayoutDescriptor { set: 0, entries: vec![] } },
        ResourceCreateDescriptor::BindGroup {
            id: 6,
            group: BindGroupDescriptor {
                layout: BindGroupLayoutId(5),
                entries: vec![
                    BindGroupEntryDescriptor::Buffer { binding: 0, buffer: BufferId(3), offset: 0, size: 0 },
                    BindGroupEntryDescriptor::Texture { binding: 1, texture: TextureId(4) },
                ],
            },
        },
        ResourceCreateDescriptor::ComputePipeline { id: 7, pipeline: ComputePipelineDescriptor { shader: compute_shader() } },
    ]
}

fn loaded_bridge() -> BridgeState {
    let mut b = BridgeState::new();
    let (_actions, r) = b.create_resources(ResourceBatchCreate { resources: scene() });
    r.unwrap();
    b
}

fn pass(depth: bool) -> RenderPassDescriptor {
    RenderPassDescriptor {
        name: "main".to_string(),
        color_target: PassColorTarget::Swapchain,
        color_load: ColorAttachmentLoad::Clear,
        clear_color_bits: [0; 4],
        depth_attachment: depth,
        depth_load: DepthAttachmentLoad::Clear,
        clear_depth_bits: 0x3f80_0000,
    }
}

fn frame() -> Vec<RhiCommand> {
    vec![
        RhiCommand::BeginFrame { frame_index: 0 },
        RhiCommand::AcquireSwapchainImage,
        RhiCommand::BeginRenderPass { pass: pass(true), image_index: 0 },
        RhiCommand::BindGraphicsPipeline { material: MaterialId(1), mesh: MeshId(2), depth_enabled: true },
        RhiCommand::BindDescriptorSets { first_set: 1, bind_groups: vec![BindGroupId(6)], dynamic_offsets: vec![] },
        RhiCommand::SetVertexBuffers { mesh: MeshId(2), first_binding: 0 },
        RhiCommand::SetIndexBuffer { mesh: MeshId(2) },
        RhiCommand::DrawIndexed { index_count: 3, instance_count: 1, first_index: 0, vertex_offset: 0, first_instance: 0 },
        RhiCommand::EndRenderPass,
        RhiCommand::SubmitFrame { present: true },
    ]
}

/// Runs the commands as the frame loop does, acquiring every surface
/// texture it is asked for; returns the actions and the result.
fn run(b: &mut BridgeState, commands: &Vec<RhiCommand>) -> (Vec<FrameAction>, Result<(), Error>) {
    let mut all = Vec::new();
    let mut pos = 0;
    while pos < commands.len() {
        let (actions, r) = b.execute_command(commands, pos);
        let acquire = actions.contains(&FrameAction::AcquireSurfaceTexture);
        all.extend(actions);
        match r {
            Ok(next) => pos = next,
            Err(e) => return (all, Err(e)),
        }
        if acquire {
            if let Err(e) = b.finish_acquire(true) {
                return (all, Err(e));
            }
        }
    }
    (all, Ok(()))
}

#[test]
fn batch_returns_handles_in_order() {
    let mut b = BridgeState::new();
    let (actions, r) = b.create_resources(ResourceBatchCreate { resources: scene() });
    assert_eq!(
        r.unwrap().handles,
        vec![
            ResourceHandle::Material(MaterialId(1)),
            ResourceHandle::Mesh(MeshId(2)),
            ResourceHandle::Buffer(BufferId(3)),
            ResourceHandle::Texture(TextureId(4)),
            ResourceHandle::BindGroupLayout(BindGroupLayoutId(5)),
            ResourceHandle::BindGroup(BindGroupId(6)),
            ResourceHandle::ComputePipeline(ComputePipelineId(7)),
        ],
    );
    // A material creates nothing on the GPU; the compute pipeline needs its
    // shader module first.
    assert_eq!(actions.len(), 7);
    assert!(matches!(actions[0], CreateAction::Mesh { id: MeshId(2), .. }));
    assert!(matches!(actions[1], CreateAction::Buffer { id: BufferId(3), .. }));
    assert!(matches!(actions[2], CreateAction::Texture { id: TextureId(4), .. }));
    assert!(matches!(actions[3], CreateAction::BindGroupLayout { id: BindGroupLayoutId(5), .. }));
    assert!(matches!(actions[4], CreateAction::BindGroup { id: BindGroupId(6), .. }));
    assert!(matches!(&actions[5], CreateAction::ShaderModule(c) if c.key == 300));
    match &actions[6] {
        CreateAction::ComputePipeline { id, plan } => {
            assert_eq!(*id, ComputePipelineId(7));
            assert_eq!(plan.set_layouts.len(), 1);
            assert_eq!(plan.shader_key, 300);
        },
        other => panic!("unexpected action {:?}", other),
    }
    assert_eq!(b.resources.meshes.get(&2).unwrap().vertex_layout_id, hash_vertex_layout(&layout()));
    assert_eq!(b.resources.buffers.get(&3), Some(&64));
    assert_eq!(b.resources.compute_pipelines.get(&7), Some(&1));
    assert!(b.shader_modules.contains(300));
}

#[test]
fn batch_stops_at_first_refused_resource() {
    let mut b = BridgeState::new();
    let mut bad = material(false);
    bad.shaders.fragment.variants.wgsl = None;
    let (actions, r) = b.create_resources(ResourceBatchCreate {
        resources: vec![
            ResourceCreateDescriptor::Buffer { id: 1, buffer: buffer(8) },
            ResourceCreateDescriptor::Material { id: 2, material: bad },
            ResourceCreateDescriptor::Buffer { id: 3, buffer: buffer(8) },
        ],
    });
    assert_eq!(r.unwrap_err(), recoverable(ErrorKind::InvalidDescriptor("material_shader_source_missing")));
    assert_eq!(actions.len(), 1);
    assert!(b.resources.buffers.contains_key(&1));
    assert!(!b.resources.materials.contains_key(&2));
    assert!(!b.resources.buffers.contains_key(&3));
}

#[test]
fn refused_resources_change_nothing() {
    let mut b = BridgeState::new();
    let mut no_entry = material(false);
    no_entry.shaders.vertex.entry_point = String::new();
    let cases = vec![
        (
            ResourceCreateDescriptor::Material { id: 1, material: no_entry },
            recoverable(ErrorKind::InvalidDescriptor("material_shader_entry_missing")),
        ),
        (
            ResourceCreateDescriptor::BindGroup { id: 2, group: BindGroupDescriptor { layout: BindGroupLayoutId(9), entries: vec![] } },
            fatal(ErrorKind::Unsupported("bind group layout not found")),
        ),
        (
            ResourceCreateDescriptor::Texture {
                id: 3,
                texture: TextureDescriptor { width: 1, height: 1, format: TexelFormat::Rgba8Unorm, data: vec![] },
            },
            recoverable(ErrorKind::TextureUploadFailed("texture_data_too_small")),
        ),
    ];
    for (d, expected) in cases {
        let (actions, r) = b.create_resources(ResourceBatchCreate { resources: vec![d] });
        assert_eq!(r.unwrap_err(), expected);
        assert!(actions.is_empty());
    }
    assert!(b.resources.materials.is_empty() && b.resources.bind_groups.is_empty() && b.resources.textures.is_empty());
}

#[test]
fn bind_group_needs_its_buffers_and_textures() {
    let mut b = BridgeState::new();
    let layout = ResourceCreateDescriptor::BindGroupLayout { id: 5, layout: BindGroupLayoutDescriptor { set: 0, entries: vec![] } };
    b.create_resources(ResourceBatchCreate { resources: vec![layout] }).1.unwrap();
    let missing_buffer = BindGroupDescriptor {
        layout: BindGroupLayoutId(5),
        entries: vec![BindGroupEntryDescriptor::Buffer { binding: 0, buffer: BufferId(1), offset: 0, size: 4 }],
    };
    let (_, r) = b.create_resources(ResourceBatchCreate {
        resources: vec![ResourceCreateDescriptor::BindGroup { id: 6, group: missing_buffer }],
    });
    assert_eq!(r.unwrap_err(), fatal(ErrorKind::Unsupported("buffer not found")));
    let missing_texture = BindGroupDescriptor {
        layout: BindGroupLayoutId(5),
        entries: vec![BindGroupEntryDescriptor::Texture { binding: 0, texture: TextureId(1) }],
    };
    let (_, r) = b.create_resources(ResourceBatchCreate {
        resources: vec![ResourceCreateDescriptor::BindGroup { id: 6, group: missing_texture }],
    });
    assert_eq!(r.unwrap_err(), fatal(ErrorKind::Unsupported("texture not found for bind group")));
}

#[test]
fn creating_an_id_again_replaces_it() {
    let mut b = BridgeState::new();
    b.create_resources(ResourceBatchCreate { resources: vec![ResourceCreateDescriptor::Buffer { id: 1, buffer: buffer(8) }] }).1.unwrap();
    b.create_resources(ResourceBatchCreate { resources: vec![ResourceCreateDescriptor::Buffer { id: 1, buffer: buffer(32) }] }).1.unwrap();
    assert_eq!(b.resources.buffers.get(&1), Some(&32));
    assert_eq!(b.resources.buffers.len(), 1);
}

#[test]
fn update_errors() {
    let mut b = loaded_bridge();
    let (_, r) = b.update_resources(ResourceBatchUpdate {
        updates: vec![ResourceUpdateDescriptor::Material { id: MaterialId(99), enable_depth: None, texture: None }],
    });
    assert_eq!(r.unwrap_err(), recoverable(ErrorKind::ResourceNotFound("material")));
    let (_, r) = b.update_resources(ResourceBatchUpdate {
        updates: vec![ResourceUpdateDescriptor::Texture { id: TextureId(99), data: vec![0; 4] }],
    });
    assert_eq!(r.unwrap_err(), recoverable(ErrorKind::ResourceNotFound("texture")));
    let (_, r) = b.update_resources(ResourceBatchUpdate {
        updates: vec![ResourceUpdateDescriptor::Texture { id: TextureId(4), data: vec![0; 15] }],
    });
    assert_eq!(r.unwrap_err(), recoverable(ErrorKind::TextureUploadFailed("texture_data_too_small")));
}

#[test]
fn material_update_with_missing_texture_keeps_depth_change() {
    let mut b = loaded_bridge();
    let (actions, r) = b.update_resources(ResourceBatchUpdate {
        updates: vec![ResourceUpdateDescriptor::Material {
            id: MaterialId(1),
            enable_depth: Some(false),
            texture: Some(Some(TextureId(42))),
        }],
    });
    assert_eq!(r.unwrap_err(), recoverable(ErrorKind::ResourceNotFound("texture")));
    assert!(actions.is_empty());
    let m = b.resources.materials.get(&1).unwrap();
    assert!(!m.enable_depth);
    assert_eq!(m.texture, None);
}

#[test]
fn texture_update_writes_its_data() {
    let mut b = loaded_bridge();
    let (actions, r) = b.update_resources(ResourceBatchUpdate {
        updates: vec![ResourceUpdateDescriptor::Texture { id: TextureId(4), data: vec![1u8; 20] }],
    });
    r.unwrap();
    match &actions[..] {
        [UpdateAction::WriteTexture { id, upload, data }] => {
            assert_eq!(*id, TextureId(4));
            assert_eq!(upload.expected_len, 16);
            assert_eq!(upload.bytes_per_row, 8);
            assert_eq!(data.len(), 20);
        },
        other => panic!("unexpected actions {:?}", other),
    }
}

#[test]
fn frame_records_then_replays_its_bundle() {
    let mut b = loaded_bridge();
    b.attach_surface(SwapchainInfo { width: 640, height: 480, format: SURFACE_FORMAT });
    let commands = frame();
    let (actions, r) = run(&mut b, &commands);
    r.unwrap();
    assert_eq!(b.current_frame_index, 1);
    assert_eq!(actions[0], FrameAction::BeginEncoder);
    assert_eq!(actions[1], FrameAction::AcquireSurfaceTexture);
    assert_eq!(actions[2], FrameAction::RecreateDepthTarget { width: 640, height: 480 });
    let creations: Vec<&PipelineCreation> = actions
        .iter()
        .filter_map(|a| match a {
            FrameAction::Create(c) => Some(c),
            _ => None,
        })
        .collect();
    assert_eq!(creations.len(), 3);
    let key = MaterialPipelineKey { material_id: MaterialId(1), vertex_layout_id: hash_vertex_layout(&layout()), depth_enabled: true };
    match creations[2] {
        PipelineCreation::RenderPipeline(p) => {
            assert_eq!(p.key, key);
            assert_eq!(p.vertex_shader, 100);
            assert_eq!(p.fragment_shader, 200);
            assert_eq!(p.cull_mode, CullMode::Back);
            assert!(p.depth_enabled);
            assert_eq!(p.color_format, SURFACE_FORMAT);
            assert_eq!(
                p.depth_test,
                Some(DepthTestPlan { format: GpuTextureFormat::Depth24Plus, write_enabled: true, compare: DepthCompare::LessEqual }),
            );
        },
        other => panic!("unexpected creation {:?}", other),
    }
    let plan = actions
        .iter()
        .find_map(|a| match a {
            FrameAction::RenderPass(p) => Some(p.clone()),
            _ => None,
        })
        .unwrap();
    assert_eq!(plan.command, 2);
    assert_eq!(plan.color_format, SURFACE_FORMAT);
    assert_eq!(plan.depth, Some(DepthLoadOp::Clear));
    match &plan.bundle {
        BundlePlan::Record { depth_stencil, ops, bindings } => {
            assert!(*depth_stencil);
            assert_eq!(ops.len(), 1);
            assert_eq!(ops[0].pipeline, key);
            assert_eq!(ops[0].vertex_buffer, Some(MeshId(2)));
            assert_eq!(ops[0].index_buffer, Some(MeshId(2)));
            assert_eq!(ops[0].index_format, IndexFormat::Uint32);
            assert_eq!(ops[0].index_count, 3);
            assert_eq!(ops[0].instance_count, 1);
            assert_eq!(bindings, &vec![(0usize, 1u32, BindGroupId(6))]);
        },
        BundlePlan::Replay => panic!("the first pass records its bundle"),
    }
    assert_eq!(&actions[actions.len() - 2..], &[FrameAction::Submit, FrameAction::Present]);
    assert!(!b.recording_encoder && !b.surface_texture && b.render_bundle);
    assert!(b.active_pass.is_none());

    // The second frame replays the bundle and creates nothing.
    let (again, r) = run(&mut b, &commands);
    r.unwrap();
    assert_eq!(b.current_frame_index, 2);
    assert!(!again.iter().any(|a| matches!(a, FrameAction::Create(_) | FrameAction::RecreateDepthTarget { .. })));
    assert!(again.iter().any(|a| matches!(a, FrameAction::RenderPass(p) if p.bundle == BundlePlan::Replay)));
}

#[test]
fn pipeline_is_cached_per_material_layout_and_depth() {
    let mut b = loaded_bridge();
    b.attach_surface(SwapchainInfo { width: 8, height: 8, format: SURFACE_FORMAT });
    let g = rotex_wgpu::vertex::translate_vertex_layout(&layout()).unwrap();
    let id = hash_vertex_layout(&layout());
    let (created, r) = b.rhi_pipeline_for_draw(MaterialId(1), id, &g, true);
    assert_eq!(created.len(), 3);
    let key = r.unwrap();
    let (again, r2) = b.rhi_pipeline_for_draw(MaterialId(1), id, &g, true);
    assert!(again.is_empty());
    assert_eq!(r2.unwrap(), key);
    // Without depth a new pipeline is built, with the cached shaders.
    let (other, r3) = b.rhi_pipeline_for_draw(MaterialId(1), id, &g, false);
    assert_eq!(other.len(), 1);
    match &other[0] {
        PipelineCreation::RenderPipeline(p) => {
            assert_eq!(p.depth_test, None);
            assert_eq!(p.color_format, SURFACE_FORMAT);
        },
        c => panic!("unexpected creation {:?}", c),
    }
    assert!(!r3.unwrap().depth_enabled);
    assert_eq!(b.pipeline_cache.len(), 2);
    let (_, missing) = b.rhi_pipeline_for_draw(MaterialId(5), id, &g, false);
    assert_eq!(missing.unwrap_err(), recoverable(ErrorKind::ResourceNotFound("material")));
}

#[test]
fn material_without_depth_shares_pipeline() {
    let mut b = BridgeState::new();
    b.create_resources(ResourceBatchCreate {
        resources: vec![ResourceCreateDescriptor::Material { id: 1, material: material(false) }],
    })
    .1
    .unwrap();
    b.attach_surface(SwapchainInfo { width: 8, height: 8, format: SURFACE_FORMAT });
    let g = rotex_wgpu::vertex::translate_vertex_layout(&layout()).unwrap();
    let (_, a) = b.rhi_pipeline_for_draw(MaterialId(1), 7, &g, true);
    let (created, c) = b.rhi_pipeline_for_draw(MaterialId(1), 7, &g, false);
    assert_eq!(a.unwrap(), c.unwrap());
    assert!(created.is_empty());
}

#[test]
fn pipeline_needs_a_surface() {
    let mut b = loaded_bridge();
    let g = rotex_wgpu::vertex::translate_vertex_layout(&layout()).unwrap();
    let (_, r) = b.rhi_pipeline_for_draw(MaterialId(1), 1, &g, false);
    assert_eq!(r.unwrap_err(), fatal(ErrorKind::SurfaceNotAttached));
    // The shaders were compiled and stay cached.
    assert!(b.shader_modules.contains(100) && b.shader_modules.contains(200));
}

#[test]
fn material_update_drops_only_its_pipelines() {
    let mut b = loaded_bridge();
    b.create_resources(ResourceBatchCreate {
        resources: vec![ResourceCreateDescriptor::Material { id: 8, material: material(true) }],
    })
    .1
    .unwrap();
    b.attach_surface(SwapchainInfo { width: 8, height: 8, format: SURFACE_FORMAT });
    let g = rotex_wgpu::vertex::translate_vertex_layout(&layout()).unwrap();
    let (_, k1) = b.rhi_pipeline_for_draw(MaterialId(1), 3, &g, true);
    let (_, k8) = b.rhi_pipeline_for_draw(MaterialId(8), 3, &g, true);
    let (k1, k8) = (k1.unwrap(), k8.unwrap());
    let (actions, r) = b.update_resources(ResourceBatchUpdate {
        updates: vec![ResourceUpdateDescriptor::Material { id: MaterialId(1), enable_depth: Some(false), texture: Some(Some(TextureId(4))) }],
    });
    r.unwrap();
    assert_eq!(actions, vec![UpdateAction::DropMaterialPipelines(MaterialId(1))]);
    assert!(!b.pipeline_cache.contains(&k1));
    assert!(b.pipeline_cache.contains(&k8));
    let m = b.resources.materials.get(&1).unwrap();
    assert!(!m.enable_depth);
    assert_eq!(m.texture, Some(TextureId(4)));
}

#[test]
fn render_pass_errors() {
    let mut b = loaded_bridge();
    let begin = vec![RhiCommand::BeginRenderPass { pass: pass(false), image_index: 0 }];
    let (actions, r) = b.execute_command(&begin, 0);
    assert_eq!(r.unwrap_err(), fatal(ErrorKind::Unsupported("no command encoder for render pass (call BeginFrame first)")));
    assert!(actions.is_empty());

    let no_texture = vec![
        RhiCommand::BeginFrame { frame_index: 0 },
        RhiCommand::BeginRenderPass { pass: pass(false), image_index: 0 },
        RhiCommand::EndRenderPass,
    ];
    let (actions, r) = run(&mut b, &no_texture);
    assert_eq!(r.unwrap_err(), fatal(ErrorKind::Unsupported("no surface texture (call AcquireSwapchainImage first)")));
    assert_eq!(actions.last(), Some(&FrameAction::DiscardEncoder));
    assert!(!b.recording_encoder);

    let mut to_texture = pass(false);
    to_texture.color_target = PassColorTarget::Texture(TextureId(4));
    let cmds = vec![RhiCommand::BeginFrame { frame_index: 0 }, RhiCommand::BeginRenderPass { pass: to_texture, image_index: 0 }];
    let (_, r) = run(&mut b, &cmds);
    assert_eq!(r.unwrap_err(), fatal(ErrorKind::Unsupported("render to texture not implemented")));
}

#[test]
fn render_pass_without_end_fails() {
    let mut b = loaded_bridge();
    b.attach_surface(SwapchainInfo { width: 4, height: 4, format: SURFACE_FORMAT });
    let cmds = vec![
        RhiCommand::BeginFrame { frame_index: 0 },
        RhiCommand::AcquireSwapchainImage,
        RhiCommand::BeginRenderPass { pass: pass(false), image_index: 0 },
        RhiCommand::DrawIndexed { index_count: 3, instance_count: 1, first_index: 0, vertex_offset: 0, first_instance: 0 },
    ];
    let (_, r) = run(&mut b, &cmds);
    assert_eq!(r.unwrap_err(), fatal(ErrorKind::Unsupported("missing EndRenderPass command")));
    assert_eq!(b.active_pass.as_ref().map(|p| p.label.clone()), Some("main".to_string()));
}

#[test]
fn draw_with_unknown_mesh_fails() {
    let mut b = loaded_bridge();
    b.attach_surface(SwapchainInfo { width: 4, height: 4, format: SURFACE_FORMAT });
    let cmds = vec![
        RhiCommand::BeginFrame { frame_index: 0 },
        RhiCommand::AcquireSwapchainImage,
        RhiCommand::BeginRenderPass { pass: pass(false), image_index: 0 },
        RhiCommand::BindGraphicsPipeline { material: MaterialId(1), mesh: MeshId(77), depth_enabled: false },
        RhiCommand::EndRenderPass,
    ];
    let (_, r) = run(&mut b, &cmds);
    assert_eq!(r.unwrap_err(), recoverable(ErrorKind::ResourceNotFound("mesh")));
}

#[test]
fn write_buffer_needs_the_buffer() {
    let mut b = loaded_bridge();
    let cmds = vec![
        RhiCommand::WriteBuffer { buffer: BufferId(3), offset: 8, data: vec![1, 2] },
        RhiCommand::WriteBuffer { buffer: BufferId(30), offset: 0, data: vec![] },
    ];
    let (actions, r) = b.execute_command(&cmds, 0);
    assert_eq!(r, Ok(1));
    assert_eq!(actions, vec![FrameAction::WriteBuffer { buffer: BufferId(3), offset: 8, command: 0 }]);
    let (actions, r) = b.execute_command(&cmds, 1);
    assert_eq!(r.unwrap_err(), fatal(ErrorKind::Unsupported("buffer not found")));
    assert!(actions.is_empty());
}

#[test]
fn compute_bind_groups_are_reused() {
    let mut b = loaded_bridge();
    let dispatch = RhiCommand::DispatchCompute(ComputePassDescriptor {
        pipeline: ComputePipelineId(7),
        buffer_intents: vec![BufferUsageIntent { buffer: BufferId(3), set: 0, binding: 0, offset: 0, size: 0 }],
        workgroup_count: [4, 2, 1],
    });
    let cmds = vec![dispatch.clone(), dispatch];
    let (first, r) = b.execute_command(&cmds, 0);
    assert_eq!(r, Ok(1));
    match &first[..] {
        [FrameAction::Dispatch(plan)] => {
            assert_eq!(plan.workgroup_count, [4, 2, 1]);
            let groups = plan.create.as_ref().unwrap();
            assert_eq!(groups.len(), 1);
            assert_eq!(groups[0].set, 0);
            assert_eq!(groups[0].entries.len(), 1);
        },
        other => panic!("unexpected actions {:?}", other),
    }
    assert!(b.recording_encoder);
    let (second, r) = b.execute_command(&cmds, 1);
    assert_eq!(r, Ok(2));
    match &second[..] {
        [FrameAction::Dispatch(plan)] => assert!(plan.create.is_none()),
        other => panic!("unexpected actions {:?}", other),
    }
}

#[test]
fn compute_dispatch_errors() {
    let mut b = loaded_bridge();
    let no_intent = vec![RhiCommand::DispatchCompute(ComputePassDescriptor {
        pipeline: ComputePipelineId(7),
        buffer_intents: vec![],
        workgroup_count: [1, 1, 1],
    })];
    let (actions, r) = b.execute_command(&no_intent, 0);
    assert_eq!(r.unwrap_err(), recoverable(ErrorKind::InvalidDescriptor("compute_pass_missing_buffer_intent")));
    assert_eq!(actions, vec![FrameAction::DiscardEncoder]);
    let bad_set = vec![RhiCommand::DispatchCompute(ComputePassDescriptor {
        pipeline: ComputePipelineId(7),
        buffer_intents: vec![BufferUsageIntent { buffer: BufferId(3), set: 3, binding: 0, offset: 0, size: 0 }],
        workgroup_count: [1, 1, 1],
    })];
    let (_, r) = b.execute_command(&bad_set, 0);
    assert_eq!(r.unwrap_err(), recoverable(ErrorKind::InvalidDescriptor("compute_bind_group_layout_missing")));
    let no_buffer = vec![RhiCommand::DispatchCompute(ComputePassDescriptor {
        pipeline: ComputePipelineId(7),
        buffer_intents: vec![BufferUsageIntent { buffer: BufferId(33), set: 0, binding: 0, offset: 0, size: 0 }],
        workgroup_count: [1, 1, 1],
    })];
    let (_, r) = b.execute_command(&no_buffer, 0);
    assert_eq!(r.unwrap_err(), recoverable(ErrorKind::ResourceNotFound("buffer")));
}

#[test]
fn submit_without_present_keeps_texture() {
    let mut b = BridgeState::new();
    b.attach_surface(SwapchainInfo { width: 2, height: 2, format: SURFACE_FORMAT });
    let cmds = vec![
        RhiCommand::BeginFrame { frame_index: 0 },
        RhiCommand::AcquireSwapchainImage,
        RhiCommand::SubmitFrame { present: false },
    ];
    let (actions, r) = run(&mut b, &cmds);
    r.unwrap();
    assert_eq!(actions, vec![FrameAction::BeginEncoder, FrameAction::AcquireSurfaceTexture, FrameAction::Submit]);
    assert!(b.surface_texture && !b.recording_encoder);
}

#[test]
fn acquired_texture_needs_a_surface() {
    let mut b = BridgeState::new();
    assert_eq!(b.finish_acquire(true), Err(fatal(ErrorKind::SurfaceNotAttached)));
    assert_eq!(b.finish_acquire(false), Ok(()));
    assert!(!b.surface_texture);
}

#[test]
fn other_commands_do_nothing() {
    let mut b = BridgeState::new();
    let cmds = vec![
        RhiCommand::TransitionBuffer { buffer: BufferId(1) },
        RhiCommand::EndRenderPass,
        RhiCommand::PushConstants { offset: 0, data: vec![1] },
    ];
    let (actions, r) = run(&mut b, &cmds);
    r.unwrap();
    assert!(actions.is_empty());
}

#[test]
fn resize_needs_a_surface() {
    let mut b = BridgeState::new();
    assert_eq!(b.resize(Extent2D { width: 10, height: 20 }), Err(surface_not_attached_error()));
    assert_eq!(b.swapchain, None);
    b.attach_surface(SwapchainInfo { width: 1, height: 1, format: SURFACE_FORMAT });
    assert_eq!(b.resize(Extent2D { width: 10, height: 20 }), Ok(()));
    assert_eq!(b.swapchain, Some(SwapchainInfo { width: 10, height: 20, format: SURFACE_FORMAT }));
}

#[test]
fn texture_readback_is_unsupported() {
    let b = BridgeState::new();
    assert_eq!(
        b.read_texture(TextureId(1)),
        Err(fatal(ErrorKind::Unsupported("Texture readback is not implemented on the WGPU backend"))),
    );
}

#[test]
fn core_error_mapping() {
    let c = to_core_error(fatal(ErrorKind::NoCompatibleDevice));
    assert_eq!(c.severity, CoreSeverity::Fatal);
    assert_eq!(c.kind, CoreErrorKind::NoCompatibleDevice);
    let c = to_core_error(recoverable(ErrorKind::Unsupported("x")));
    assert_eq!(c.severity, CoreSeverity::Warning);
    assert_eq!(c.kind, CoreErrorKind::Unsupported("x"));
    let c = to_core_error(Error { kind: ErrorKind::ResourceNotFound("mesh"), severity: Severity::Info });
    assert_eq!(c.severity, CoreSeverity::Warning);
    assert_eq!(c.kind, CoreErrorKind::Backend("ResourceNotFound(\"mesh\")".to_string()));
    let c = to_core_error(Error { kind: ErrorKind::SurfaceNotAttached, severity: Severity::Warning });
    assert_eq!(c.kind, CoreErrorKind::Backend("SurfaceNotAttached".to_string()));
}

#[test]
fn error_debug_text_matches_derived_debug() {
    let kinds = [
        ErrorKind::NoCompatibleDevice,
        ErrorKind::SurfaceNotAttached,
        ErrorKind::Unsupported("a \"quoted\" word"),
        ErrorKind::InvalidDescriptor("x"),
        ErrorKind::ResourceNotFound("y"),
        ErrorKind::TextureUploadFailed("z"),
        ErrorKind::PipelineCreationFailed("tab\there"),
    ];
    for kind in kinds {
        assert_eq!(error_kind_debug(kind), format!("{:?}", kind));
    }
}

#[test]
fn checks_before_calls() {
    let cache = ShaderModuleCache::new();
    let mut no_stream = mesh();
    no_stream.vertex_streams.clear();
    assert!(!create_descriptor_is_ok(&cache, &ResourceCreateDescriptor::Mesh { id: 1, mesh: no_stream.clone() }));
    // Without indices the vertex streams are never looked at.
    let mut no_stream_no_indices = no_stream;
    no_stream_no_indices.index_count = 0;
    assert!(create_descriptor_is_ok(&cache, &ResourceCreateDescriptor::Mesh { id: 1, mesh: no_stream_no_indices }));
    assert!(create_descriptor_is_ok(&cache, &ResourceCreateDescriptor::Mesh { id: 1, mesh: mesh() }));
    let mut bad_spirv = compute_shader();
    bad_spirv.variants.wgsl = None;
    bad_spirv.variants.spirv = Some(ShaderPayload::SpirV(vec![1, 2, 3, 4]));
    let bad = ResourceCreateDescriptor::ComputePipeline { id: 1, pipeline: ComputePipelineDescriptor { shader: bad_spirv.clone() } };
    assert!(!create_descriptor_is_ok(&cache, &bad));
    // Without an entry point the shader is never compiled.
    let mut no_entry = bad_spirv;
    no_entry.entry_point = String::new();
    assert!(create_descriptor_is_ok(&cache, &ResourceCreateDescriptor::ComputePipeline {
        id: 1,
        pipeline: ComputePipelineDescriptor { shader: no_entry },
    }));
    assert!(update_descriptor_is_ok(&ResourceUpdateDescriptor::Mesh {
        id: MeshId(1),
        vertex_streams: vec![],
        index_data: vec![],
        index_format: IndexFormat::Uint16,
        index_count: 0,
    }));
    assert!(!update_descriptor_is_ok(&ResourceUpdateDescriptor::Mesh {
        id: MeshId(1),
        vertex_streams: vec![],
        index_data: vec![0, 0],
        index_format: IndexFormat::Uint16,
        index_count: 1,
    }));
}

#[test]
fn mesh_without_streams_or_indices_is_refused() {
    let mut b = BridgeState::new();
    let mut m = mesh();
    m.vertex_streams.clear();
    m.index_count = 0;
    let (actions, r) = b.create_resources(ResourceBatchCreate { resources: vec![ResourceCreateDescriptor::Mesh { id: 1, mesh: m }] });
    assert_eq!(r.unwrap_err(), recoverable(ErrorKind::InvalidDescriptor("mesh_missing_indices")));
    assert!(actions.is_empty());
}

#[test]
fn batch_is_not_checked_past_its_first_error() {
    let mut b = BridgeState::new();
    let mut unreachable = mesh();
    unreachable.vertex_streams.clear();
    let mut bad = material(false);
    bad.shaders.vertex.variants.wgsl = None;
    let out = b.try_create_resources(ResourceBatchCreate {
        resources: vec![
            ResourceCreateDescriptor::Material { id: 1, material: bad },
            ResourceCreateDescriptor::Mesh { id: 2, mesh: unreachable.clone() },
        ],
    });
    let (_, r) = out.unwrap();
    assert_eq!(r.unwrap_err(), recoverable(ErrorKind::InvalidDescriptor("material_shader_source_missing")));
    // Reached, the same mesh would panic.
    let out = b.try_create_resources(ResourceBatchCreate {
        resources: vec![ResourceCreateDescriptor::Mesh { id: 2, mesh: unreachable }],
    });
    assert!(out.is_none());
}

#[test]
fn cached_compute_shader_is_not_compiled_again() {
    let mut b = BridgeState::new();
    let mut bad_spirv = compute_shader();
    bad_spirv.variants.wgsl = None;
    bad_spirv.variants.spirv = Some(ShaderPayload::SpirV(vec![1, 2, 3, 4]));
    // The key of `compute_shader()` is cached first, then a package with the
    // same key and bad SPIR-V is answered from the cache.
    b.create_resources(ResourceBatchCreate {
        resources: vec![ResourceCreateDescriptor::ComputePipeline { id: 7, pipeline: ComputePipelineDescriptor { shader: compute_shader() } }],
    })
    .1
    .unwrap();
    let (actions, r) = b.create_resources(ResourceBatchCreate {
        resources: vec![ResourceCreateDescriptor::ComputePipeline { id: 8, pipeline: ComputePipelineDescriptor { shader: bad_spirv } }],
    });
    r.unwrap();
    assert_eq!(actions.len(), 1);
    assert!(matches!(actions[0], CreateAction::ComputePipeline { id: ComputePipelineId(8), .. }));
}

#[test]
fn set_index_overflow_is_caught_only_when_reached() {
    let mut b = loaded_bridge();
    b.attach_surface(SwapchainInfo { width: 4, height: 4, format: SURFACE_FORMAT });
    let overflowing = RhiCommand::BindDescriptorSets {
        first_set: u32::MAX,
        bind_groups: vec![BindGroupId(6), BindGroupId(6)],
        dynamic_offsets: vec![],
    };
    let with_draw = vec![
        RhiCommand::BeginFrame { frame_index: 0 },
        RhiCommand::AcquireSwapchainImage,
        RhiCommand::BeginRenderPass { pass: pass(false), image_index: 0 },
        RhiCommand::BindGraphicsPipeline { material: MaterialId(1), mesh: MeshId(2), depth_enabled: false },
        overflowing.clone(),
        RhiCommand::EndRenderPass,
    ];
    assert!(b.try_execute_command(&with_draw, 0).is_some());
    assert!(b.try_execute_command(&with_draw, 1).is_some());
    b.finish_acquire(true).unwrap();
    assert!(b.try_execute_command(&with_draw, 2).is_none());
    // Without a draw to bind to, no set index is computed.
    let mut c = loaded_bridge();
    c.attach_surface(SwapchainInfo { width: 4, height: 4, format: SURFACE_FORMAT });
    let without_draw = vec![
        RhiCommand::BeginFrame { frame_index: 0 },
        RhiCommand::AcquireSwapchainImage,
        RhiCommand::BeginRenderPass { pass: pass(false), image_index: 0 },
        overflowing,
        RhiCommand::EndRenderPass,
    ];
    let (_, r) = run(&mut c, &without_draw);
    r.unwrap();
}
