//! Buffer sizes, alignment and usage flags.
use vstd::prelude::*;
use crate::types::{BufferDescriptor, BufferUsage, BufferUsages};

verus! {

/// The uses a GPU buffer is created with.
#[derive(Clone, Copy, Debug, PartialEq, Eq, Hash, Structural)]
pub struct GpuBufferUsages {
    pub copy_dst: bool,
    pub vertex: bool,
    pub index: bool,
    pub uniform: bool,
    pub storage: bool,
}

/// `value` rounded up to a multiple of `alignment`; an alignment of zero
/// leaves the value as it is.
pub open spec fn spec_align_to(value: u64, alignment: u64) -> int {
    if alignment == 0 {
        value as int
    } else {
        (value / alignment + if value % alignment == 0 { 0int } else { 1int }) * alignment
    }
}

/// Rounds `value` up to the next multiple of `alignment` (no change for an
/// alignment of zero).
pub fn align_to_u64(value: u64, alignment: u64) -> (r: u64)
    requires
        spec_align_to(value, alignment) <= u64::MAX,
    ensures
        r == spec_align_to(value, alignment),
{
    if alignment == 0 {
        return value;
    }
    let q = value / alignment;
    if value % alignment == 0 {
        assert(q * alignment == value) by (nonlinear_arith)
            requires
                q == value / alignment,
                value % alignment == 0,
                alignment > 0,
        ;
        q * alignment
    } else {
        assert((q + 1) * alignment <= u64::MAX);
        assert(q + 1 <= (q + 1) * alignment) by (nonlinear_arith)
            requires
                alignment >= 1,
                q >= 0,
        ;
        (q + 1) * alignment
    }
}

/// Rounding up to a positive alignment gives the least multiple of the
/// alignment that is not below the value.
pub proof fn lemma_align_to(value: u64, alignment: u64)
    requires
        alignment > 0,
    ensures
        value <= spec_align_to(value, alignment),
        spec_align_to(value, alignment) % (alignment as int) == 0,
        spec_align_to(value, alignment) < value + alignment,
{
    let q = value / alignment;
    let r = value % alignment;
    assert(value == q * alignment + r) by (nonlinear_arith)
        requires
            q == value / alignment,
            r == value % alignment,
            alignment > 0,
    ;
    if r == 0 {
        assert((q * alignment) % (alignment as int) == 0) by (nonlinear_arith)
            requires
                alignment > 0,
        ;
    } else {
        assert(((q + 1) * alignment) % (alignment as int) == 0) by (nonlinear_arith)
            requires
                alignment > 0,
        ;
        assert((q + 1) * alignment == q * alignment + alignment) by (nonlinear_arith);
    }
}

/// The alignment that buffer sizes of copies and mapped ranges must have.
/// Reads the constant `wgpu::COPY_BUFFER_ALIGNMENT`, which wgpu defines as 4.
#[verifier::external_body]
pub(crate) fn copy_buffer_alignment() -> (a: u64)
    ensures
        a == 4,
{
    wgpu::COPY_BUFFER_ALIGNMENT
}

/// The size a GPU buffer is allocated with: buffers are never empty.
pub open spec fn spec_allocation_size(size: u64) -> u64 {
    if size == 0 { 1 } else { size }
}

/// The size a GPU buffer of `size` requested bytes is allocated with.
pub fn allocation_size(size: u64) -> (s: u64)
    ensures
        s == spec_allocation_size(size),
{
    if size == 0 { 1 } else { size }
}

/// The uses a buffer created from `desc` gets: it can always be copied to;
/// the uses the descriptor asks for are added, and when it asks for none of
/// them, the use its main usage names.
pub open spec fn spec_map_buffer_usage(desc: BufferDescriptor) -> GpuBufferUsages {
    let u = desc.usages;
    if u.vertex || u.index || u.uniform || u.storage {
        GpuBufferUsages {
            copy_dst: true,
            vertex: u.vertex,
            index: u.index,
            uniform: u.uniform,
            storage: u.storage,
        }
    } else {
        GpuBufferUsages {
            copy_dst: true,
            vertex: desc.usage == BufferUsage::Vertex,
            index: desc.usage == BufferUsage::Index,
            uniform: desc.usage == BufferUsage::Uniform,
            storage: desc.usage == BufferUsage::Storage,
        }
    }
}

/// The uses a buffer created from `desc` gets.
pub fn map_wgpu_buffer_usage(desc: &BufferDescriptor) -> (flags: GpuBufferUsages)
    ensures
        flags == spec_map_buffer_usage(*desc),
{
    let usages: BufferUsages = desc.effective_usages();
    let mut flags = GpuBufferUsages {
        copy_dst: true,
        vertex: false,
        index: false,
        uniform: false,
        storage: false,
    };
    if usages.vertex {
        flags.vertex = true;
    }
    if usages.index {
        flags.index = true;
    }
    if usages.uniform {
        flags.uniform = true;
    }
    if usages.storage {
        flags.storage = true;
    }
    if !flags.vertex && !flags.index && !flags.uniform && !flags.storage {
        match desc.usage {
            BufferUsage::Vertex => flags.vertex = true,
            BufferUsage::Index => flags.index = true,
            BufferUsage::Uniform => flags.uniform = true,
            BufferUsage::Storage => flags.storage = true,
        }
    }
    flags
}

/// A buffer to create already filled: its size, its uses, and the bytes to
/// copy into it while it is mapped (none when the data is empty).
#[derive(Clone, Debug, PartialEq, Eq)]
pub struct BufferUpload {
    pub size: u64,
    pub usage: GpuBufferUsages,
    pub contents: Option<Vec<u8>>,
}

/// The size of the buffer that holds `len` bytes: at least one byte,
/// rounded up to the copy alignment.
pub open spec fn spec_upload_size(len: nat) -> int {
    spec_align_to(spec_allocation_size(len as u64), 4)
}

/// The bytes a buffer of `size` bytes holds after `data` is staged into it:
/// the data, then zeros up to the size.
pub open spec fn spec_staged(data: Seq<u8>, size: int) -> Seq<u8> {
    data + Seq::new((size - data.len()) as nat, |i: int| 0u8)
}

/// The upload of `data` into a new buffer with the given uses.
pub open spec fn spec_buffer_upload(usage: GpuBufferUsages, data: Seq<u8>) -> (u64, Option<Seq<u8>>) {
    let size = spec_upload_size(data.len());
    (size as u64, if data.len() == 0 { None } else { Some(spec_staged(data, size)) })
}

/// Plans the creation of a buffer with the given uses that holds `data`:
/// the size is the data's length, at least one, rounded up to the copy
/// alignment; the contents are the data padded with zeros to that size.
pub fn plan_buffer_upload(usage: GpuBufferUsages, data: &[u8]) -> (u: BufferUpload)
    requires
        data@.len() + 4 <= u64::MAX,
    ensures
        u.usage == usage,
        u.size == spec_buffer_upload(usage, data@).0,
        u.contents matches Some(c) ==> spec_buffer_upload(usage, data@).1 == Some(c@),
        u.contents is None ==> spec_buffer_upload(usage, data@).1 is None,
{
    let len = data.len() as u64;
    let alignment = copy_buffer_alignment();
    let base = allocation_size(len);
    proof {
        lemma_align_to(base, 4);
    }
    let size = align_to_u64(base, alignment);
    if len == 0 {
        return BufferUpload { size, usage, contents: None };
    }
    let mut staged: Vec<u8> = Vec::new();
    let mut i: usize = 0;
    while i < data.len()
        invariant
            i <= data@.len(),
            staged@ == data@.subrange(0, i as int),
        decreases data@.len() - i,
    {
        staged.push(data[i]);
        i = i + 1;
    }
    let mut k: u64 = len;
    while k < size
        invariant
            len == data@.len(),
            len <= k <= size,
            staged@ == spec_staged(data@, k as int),
        decreases size - k,
    {
        staged.push(0u8);
        k = k + 1;
        assert(staged@ =~= spec_staged(data@, k as int));
    }
    assert(staged@ =~= spec_staged(data@, size as int));
    BufferUpload { size, usage, contents: Some(staged) }
}

} // verus!
