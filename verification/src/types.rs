//! The descriptors, identifiers and commands that callers hand to the
//! backend, with the formats and sizes they name.
use vstd::prelude::*;

verus! {

/// The texture formats of the GPU library. A surface is configured with
/// one of them, and the pipelines and passes that render into the surface
/// are built with it; the library carries it through without looking
/// inside.
#[verifier::external_type_specification]
#[verifier::external_body]
pub struct ExTextureFormat(wgpu::TextureFormat);

/// Copying a texture format: wgpu derives `Clone` and `Copy` for it, so a
/// clone is the same format.
pub assume_specification[<wgpu::TextureFormat as std::clone::Clone>::clone](format: &wgpu::TextureFormat) -> (c: wgpu::TextureFormat)
    ensures
        c == *format,
;

/// Identifies a mesh.
#[derive(Clone, Copy, Debug, PartialEq, Eq, Hash, Structural)]
pub struct MeshId(pub u64);

/// Identifies a material.
#[derive(Clone, Copy, Debug, PartialEq, Eq, Hash, Structural)]
pub struct MaterialId(pub u64);

/// Identifies a texture.
#[derive(Clone, Copy, Debug, PartialEq, Eq, Hash, Structural)]
pub struct TextureId(pub u64);

/// Identifies a buffer.
#[derive(Clone, Copy, Debug, PartialEq, Eq, Hash, Structural)]
pub struct BufferId(pub u64);

/// Identifies a bind group layout.
#[derive(Clone, Copy, Debug, PartialEq, Eq, Hash, Structural)]
pub struct BindGroupLayoutId(pub u64);

/// Identifies a bind group.
#[derive(Clone, Copy, Debug, PartialEq, Eq, Hash, Structural)]
pub struct BindGroupId(pub u64);

/// Identifies a compute pipeline.
#[derive(Clone, Copy, Debug, PartialEq, Eq, Hash, Structural)]
pub struct ComputePipelineId(pub u64);

/// The formats a vertex attribute can have.
#[derive(Clone, Copy, Debug, PartialEq, Eq, Hash, Structural)]
pub enum VertexFormat {
    Float32,
    Float32x2,
    Float32x3,
    Float32x4,
    Uint32,
}

/// Size in bytes of one attribute of the given format.
pub open spec fn spec_vertex_format_size(format: VertexFormat) -> u64 {
    match format {
        VertexFormat::Float32 => 4,
        VertexFormat::Float32x2 => 8,
        VertexFormat::Float32x3 => 12,
        VertexFormat::Float32x4 => 16,
        VertexFormat::Uint32 => 4,
    }
}

/// Size in bytes of one attribute of the given format.
pub fn vertex_format_size(format: VertexFormat) -> (size: u64)
    ensures
        size == spec_vertex_format_size(format),
{
    match format {
        VertexFormat::Float32 => 4,
        VertexFormat::Float32x2 => 8,
        VertexFormat::Float32x3 => 12,
        VertexFormat::Float32x4 => 16,
        VertexFormat::Uint32 => 4,
    }
}

/// Whether a vertex buffer advances per vertex or per instance.
#[derive(Clone, Copy, Debug, PartialEq, Eq, Hash, Structural)]
pub enum VertexStepMode {
    Vertex,
    Instance,
}

/// One attribute of a vertex buffer layout.
#[derive(Clone, Copy, Debug, PartialEq, Eq, Hash, Structural)]
pub struct VertexAttribute {
    pub format: VertexFormat,
    pub offset: u64,
    pub location: u32,
}

/// How the vertices of one stream are laid out in memory.
#[derive(Clone, Debug, PartialEq, Eq)]
pub struct VertexBufferLayout {
    pub array_stride: u64,
    pub step_mode: VertexStepMode,
    pub attributes: Vec<VertexAttribute>,
}

/// Where the data of a vertex stream comes from.
#[derive(Clone, Debug, PartialEq, Eq)]
pub enum VertexStreamData {
    /// Bytes uploaded with the mesh.
    Static(Vec<u8>),
    /// A buffer that the caller fills.
    External(BufferId),
}

/// A vertex stream: its layout and its data.
#[derive(Clone, Debug, PartialEq, Eq)]
pub struct VertexStream {
    pub layout: VertexBufferLayout,
    pub data: VertexStreamData,
}

/// The width of the indices of a mesh.
#[derive(Clone, Copy, Debug, PartialEq, Eq, Hash, Structural)]
pub enum IndexFormat {
    Uint16,
    Uint32,
}

/// Size in bytes of one index of the given format.
pub open spec fn spec_index_format_size(format: IndexFormat) -> usize {
    match format {
        IndexFormat::Uint16 => 2,
        IndexFormat::Uint32 => 4,
    }
}

/// Size in bytes of one index of the given format.
pub fn index_format_size(format: IndexFormat) -> (size: usize)
    ensures
        size == spec_index_format_size(format),
{
    match format {
        IndexFormat::Uint16 => 2,
        IndexFormat::Uint32 => 4,
    }
}

/// A mesh to upload.
#[derive(Clone, Debug, PartialEq, Eq)]
pub struct MeshDescriptor {
    pub vertex_streams: Vec<VertexStream>,
    pub index_data: Vec<u8>,
    pub index_format: IndexFormat,
    pub index_count: u32,
}

/// The texel formats that texture descriptors name.
#[derive(Clone, Copy, Debug, PartialEq, Eq, Hash, Structural)]
pub enum TexelFormat {
    Rgba8Unorm,
    Rgba8UnormSrgb,
}

/// Bytes per texel of a texture format.
pub open spec fn spec_bytes_per_pixel(format: TexelFormat) -> u32 {
    match format {
        TexelFormat::Rgba8Unorm => 4,
        TexelFormat::Rgba8UnormSrgb => 4,
    }
}

/// Bytes per texel of a texture format.
pub fn bytes_per_pixel(format: TexelFormat) -> (n: u32)
    ensures
        n == spec_bytes_per_pixel(format),
{
    match format {
        TexelFormat::Rgba8Unorm => 4,
        TexelFormat::Rgba8UnormSrgb => 4,
    }
}

/// The texel formats of the textures that the backend creates.
#[derive(Clone, Copy, Debug, PartialEq, Eq, Hash, Structural)]
pub enum GpuTextureFormat {
    Rgba8Unorm,
    Rgba8UnormSrgb,
    Bgra8Unorm,
    Bgra8UnormSrgb,
    Depth24Plus,
}

/// The backend format a descriptor format is created with: the sRGB variant
/// is not offered, so both formats are created as `Rgba8Unorm`.
pub open spec fn spec_map_texture_format(format: TexelFormat) -> GpuTextureFormat {
    GpuTextureFormat::Rgba8Unorm
}

/// The backend format a descriptor format is created with.
pub fn map_texture_format(format: TexelFormat) -> (f: GpuTextureFormat)
    ensures
        f == spec_map_texture_format(format),
{
    match format {
        TexelFormat::Rgba8Unorm => GpuTextureFormat::Rgba8Unorm,
        TexelFormat::Rgba8UnormSrgb => GpuTextureFormat::Rgba8Unorm,
    }
}

/// A texture to create, with its initial texels.
#[derive(Clone, Debug, PartialEq, Eq)]
pub struct TextureDescriptor {
    pub width: u32,
    pub height: u32,
    pub format: TexelFormat,
    pub data: Vec<u8>,
}

/// The main use a buffer is created for.
#[derive(Clone, Copy, Debug, PartialEq, Eq, Hash, Structural)]
pub enum BufferUsage {
    Vertex,
    Index,
    Uniform,
    Storage,
}

/// A set of buffer uses.
#[derive(Clone, Copy, Debug, PartialEq, Eq, Hash, Structural)]
pub struct BufferUsages {
    pub vertex: bool,
    pub index: bool,
    pub uniform: bool,
    pub storage: bool,
}

/// A buffer to create.
#[derive(Clone, Debug, PartialEq, Eq)]
pub struct BufferDescriptor {
    pub size: u64,
    pub usage: BufferUsage,
    pub usages: BufferUsages,
    pub initial_data: Option<Vec<u8>>,
}

impl BufferDescriptor {
    /// The uses that the descriptor asks for.
    pub fn effective_usages(&self) -> (u: BufferUsages)
        ensures
            u == self.usages,
    {
        self.usages
    }
}

/// The shader stages that can see a binding.
#[derive(Clone, Copy, Debug, PartialEq, Eq, Hash, Structural)]
pub struct ShaderStageFlags {
    pub vertex: bool,
    pub fragment: bool,
    pub compute: bool,
}

/// What a binding of a bind group holds.
#[derive(Clone, Copy, Debug, PartialEq, Eq, Hash, Structural)]
pub enum BindingType {
    UniformBuffer,
    UniformBufferDynamic,
    StorageBuffer,
    CombinedImageSampler,
}

/// One binding of a bind group layout.
#[derive(Clone, Copy, Debug, PartialEq, Eq, Hash, Structural)]
pub struct BindGroupLayoutEntry {
    pub binding: u32,
    pub visibility: ShaderStageFlags,
    pub ty: BindingType,
    pub readonly: bool,
}

/// The layout of the bind group at set index `set`.
#[derive(Clone, Debug, PartialEq, Eq)]
pub struct BindGroupLayoutDescriptor {
    pub set: u32,
    pub entries: Vec<BindGroupLayoutEntry>,
}

/// The bind group layouts a pipeline uses, in any order.
#[derive(Clone, Debug, PartialEq, Eq)]
pub struct AbstractPipelineLayout {
    pub bind_groups: Vec<BindGroupLayoutDescriptor>,
}

/// Shader code in one of the languages a package can carry.
#[derive(Clone, Debug, PartialEq, Eq)]
pub enum ShaderPayload {
    Wgsl(String),
    SpirV(Vec<u8>),
    Glsl(String),
}

/// The variants of a shader that a package offers.
#[derive(Clone, Debug, PartialEq, Eq)]
pub struct ShaderVariants {
    pub wgsl: Option<ShaderPayload>,
    pub spirv: Option<ShaderPayload>,
}

/// A shader: its entry point, its variants, the layout it expects, and
/// the hash of its payload that shader modules are cached by.
#[derive(Clone, Debug, PartialEq, Eq)]
pub struct ShaderPackage {
    pub entry_point: String,
    pub variants: ShaderVariants,
    pub layout: AbstractPipelineLayout,
    pub payload_hash: u64,
}

/// Whether a package carries SPIR-V bytes in its SPIR-V slot.
pub open spec fn has_spirv_bytes(p: ShaderPackage) -> bool {
    p.variants.spirv matches Some(ShaderPayload::SpirV(_))
}

/// Whether a package carries WGSL source in its WGSL slot.
pub open spec fn has_wgsl_source(p: ShaderPackage) -> bool {
    p.variants.wgsl matches Some(ShaderPayload::Wgsl(_))
}

impl ShaderPackage {
    /// The hash that shader modules built from this package are cached by.
    pub fn payload_hash(&self) -> (h: u64)
        ensures
            h == self.payload_hash,
    {
        self.payload_hash
    }

    /// The SPIR-V bytes of the package, if it has them.
    pub fn spirv_bytes(&self) -> (b: Option<&Vec<u8>>)
        ensures
            b is Some <==> has_spirv_bytes(*self),
            b matches Some(bytes) ==> self.variants.spirv == Some(ShaderPayload::SpirV(*bytes)),
    {
        match &self.variants.spirv {
            Some(ShaderPayload::SpirV(bytes)) => Some(bytes),
            _ => None,
        }
    }

    /// The WGSL source of the package, if it has it.
    pub fn wgsl_source(&self) -> (s: Option<&String>)
        ensures
            s is Some <==> has_wgsl_source(*self),
            s matches Some(src) ==> self.variants.wgsl == Some(ShaderPayload::Wgsl(*src)),
    {
        match &self.variants.wgsl {
            Some(ShaderPayload::Wgsl(src)) => Some(src),
            _ => None,
        }
    }
}

/// The shaders of a material and the layout they share.
#[derive(Clone, Debug, PartialEq, Eq)]
pub struct MaterialShaders {
    pub vertex: ShaderPackage,
    pub fragment: ShaderPackage,
    pub layout: AbstractPipelineLayout,
}

/// Which faces are culled.
#[derive(Clone, Copy, Debug, PartialEq, Eq, Hash, Structural)]
pub enum CullMode {
    Off,
    Front,
    Back,
}

/// A material: its shaders and render state.
#[derive(Clone, Debug, PartialEq, Eq)]
pub struct MaterialDescriptor {
    pub shaders: MaterialShaders,
    pub enable_depth: bool,
    pub texture: Option<TextureId>,
    pub cull_mode: CullMode,
}

/// One entry of a bind group to create.
#[derive(Clone, Copy, Debug, PartialEq, Eq, Hash, Structural)]
pub enum BindGroupEntryDescriptor {
    Buffer { binding: u32, buffer: BufferId, offset: u64, size: u64 },
    Texture { binding: u32, texture: TextureId },
}

/// A bind group to create against an existing layout.
#[derive(Clone, Debug, PartialEq, Eq)]
pub struct BindGroupDescriptor {
    pub layout: BindGroupLayoutId,
    pub entries: Vec<BindGroupEntryDescriptor>,
}

/// A compute pipeline to create.
#[derive(Clone, Debug, PartialEq, Eq)]
pub struct ComputePipelineDescriptor {
    pub shader: ShaderPackage,
}

/// One resource to create, under the given raw id.
#[derive(Clone, Debug, PartialEq, Eq)]
pub enum ResourceCreateDescriptor {
    Mesh { id: u64, mesh: MeshDescriptor },
    Material { id: u64, material: MaterialDescriptor },
    Texture { id: u64, texture: TextureDescriptor },
    Buffer { id: u64, buffer: BufferDescriptor },
    BindGroupLayout { id: u64, layout: BindGroupLayoutDescriptor },
    BindGroup { id: u64, group: BindGroupDescriptor },
    ComputePipeline { id: u64, pipeline: ComputePipelineDescriptor },
}

/// A batch of resources to create, in order.
#[derive(Clone, Debug, PartialEq, Eq)]
pub struct ResourceBatchCreate {
    pub resources: Vec<ResourceCreateDescriptor>,
}

/// A handle to a created resource.
#[derive(Clone, Copy, Debug, PartialEq, Eq, Hash, Structural)]
pub enum ResourceHandle {
    Mesh(MeshId),
    Material(MaterialId),
    Texture(TextureId),
    Buffer(BufferId),
    BindGroupLayout(BindGroupLayoutId),
    BindGroup(BindGroupId),
    ComputePipeline(ComputePipelineId),
}

/// The handles of a created batch, in the order of the batch.
#[derive(Clone, Debug, PartialEq, Eq)]
pub struct CreatedResources {
    pub handles: Vec<ResourceHandle>,
}

/// One update of an existing resource.
#[derive(Clone, Debug, PartialEq, Eq)]
pub enum ResourceUpdateDescriptor {
    Mesh {
        id: MeshId,
        vertex_streams: Vec<VertexStream>,
        index_data: Vec<u8>,
        index_format: IndexFormat,
        index_count: u32,
    },
    Material { id: MaterialId, enable_depth: Option<bool>, texture: Option<Option<TextureId>> },
    Texture { id: TextureId, data: Vec<u8> },
}

/// A batch of updates, applied in order.
#[derive(Clone, Debug, PartialEq, Eq)]
pub struct ResourceBatchUpdate {
    pub updates: Vec<ResourceUpdateDescriptor>,
}

/// A size in pixels.
#[derive(Clone, Copy, Debug, PartialEq, Eq, Hash, Structural)]
pub struct Extent2D {
    pub width: u32,
    pub height: u32,
}

/// A buffer that a compute pass binds, with where it is bound.
#[derive(Clone, Copy, Debug, PartialEq, Eq, Hash, Structural)]
pub struct BufferUsageIntent {
    pub buffer: BufferId,
    pub set: u32,
    pub binding: u32,
    pub offset: u64,
    pub size: u64,
}

/// A compute dispatch.
#[derive(Clone, Debug, PartialEq, Eq)]
pub struct ComputePassDescriptor {
    pub pipeline: ComputePipelineId,
    pub buffer_intents: Vec<BufferUsageIntent>,
    pub workgroup_count: [u32; 3],
}

/// What a render pass does with the color target when it begins.
#[derive(Clone, Copy, Debug, PartialEq, Eq, Hash, Structural)]
pub enum ColorAttachmentLoad {
    Clear,
    Load,
}

/// What a render pass does with the depth target when it begins.
#[derive(Clone, Copy, Debug, PartialEq, Eq, Hash, Structural)]
pub enum DepthAttachmentLoad {
    Clear,
    Load,
    Untouched,
}

/// Where a render pass draws.
#[derive(Clone, Copy, Debug, PartialEq, Eq, Hash, Structural)]
pub enum PassColorTarget {
    Swapchain,
    Texture(TextureId),
}

/// A render pass. The clear values are kept as the bit patterns of
/// their `f32` values.
#[derive(Clone, Debug, PartialEq, Eq)]
pub struct RenderPassDescriptor {
    pub name: String,
    pub color_target: PassColorTarget,
    pub color_load: ColorAttachmentLoad,
    pub clear_color_bits: [u32; 4],
    pub depth_attachment: bool,
    pub depth_load: DepthAttachmentLoad,
    pub clear_depth_bits: u32,
}

impl RenderPassDescriptor {
    /// Whether the pass has a depth attachment.
    pub fn uses_depth_attachment(&self) -> (b: bool)
        ensures
            b == self.depth_attachment,
    {
        self.depth_attachment
    }
}

/// One command of a frame.
#[derive(Clone, Debug, PartialEq, Eq)]
pub enum RhiCommand {
    BeginFrame { frame_index: u64 },
    AcquireSwapchainImage,
    WriteBuffer { buffer: BufferId, offset: u64, data: Vec<u8> },
    TransitionBuffer { buffer: BufferId },
    DispatchCompute(ComputePassDescriptor),
    BeginRenderPass { pass: RenderPassDescriptor, image_index: u32 },
    EndRenderPass,
    SubmitFrame { present: bool },
    BindGraphicsPipeline { material: MaterialId, mesh: MeshId, depth_enabled: bool },
    BindDescriptorSets { first_set: u32, bind_groups: Vec<BindGroupId>, dynamic_offsets: Vec<u32> },
    SetVertexBuffers { mesh: MeshId, first_binding: u32 },
    SetIndexBuffer { mesh: MeshId },
    DrawIndexed {
        index_count: u32,
        instance_count: u32,
        first_index: u32,
        vertex_offset: i32,
        first_instance: u32,
    },
    PushConstants { offset: u32, data: Vec<u8> },
}

/// Texels read back from a texture.
#[derive(Clone, Debug, PartialEq, Eq)]
pub struct TextureReadback {
    pub width: u32,
    pub height: u32,
    pub data: Vec<u8>,
}

} // verus!
