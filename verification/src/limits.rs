//! Alignments, minimum sizes and binding counts that the driver fixes, and the timeout that
//! means none.

use vstd::prelude::*;

verus! {

/// Alignment of the size and storage of a memory block.
pub const DK_MEMBLOCK_ALIGNMENT: u32 = 0x1000;

/// Alignment of memory handed to a command buffer.
pub const DK_CMDMEM_ALIGNMENT: u32 = 4;

/// Smallest command memory a queue accepts.
pub const DK_QUEUE_MIN_CMDMEM_SIZE: u32 = 0x10000;

/// Alignment of the scratch memory given to each warp.
pub const DK_PER_WARP_SCRATCH_MEM_ALIGNMENT: u32 = 0x200;

pub const DK_NUM_UNIFORM_BUFS: u32 = 16;

pub const DK_NUM_STORAGE_BUFS: u32 = 16;

pub const DK_NUM_TEXTURE_BINDINGS: u32 = 32;

pub const DK_NUM_IMAGE_BINDINGS: u32 = 8;

pub const DK_UNIFORM_BUF_ALIGNMENT: u32 = 0x100;

pub const DK_UNIFORM_BUF_MAX_SIZE: u32 = 0x10000;

pub const DK_DEFAULT_MAX_COMPUTE_CONCURRENT_JOBS: u32 = 128;

pub const DK_SHADER_CODE_ALIGNMENT: u32 = 0x100;

/// Bytes at the end of a code memory block that hold no shader code.
pub const DK_SHADER_CODE_UNUSABLE_SIZE: u32 = 0x400;

pub const DK_IMAGE_DESCRIPTOR_ALIGNMENT: u32 = 0x20;

pub const DK_SAMPLER_DESCRIPTOR_ALIGNMENT: u32 = 0x20;

pub const DK_MAX_RENDER_TARGETS: u32 = 8;

pub const DK_NUM_VIEWPORTS: u32 = 16;

pub const DK_NUM_SCISSORS: u32 = 16;

pub const DK_MAX_VERTEX_ATTRIBS: u32 = 32;

pub const DK_MAX_VERTEX_BUFFERS: u32 = 16;

/// Alignment of the row stride of a pitch-linear image.
pub const DK_IMAGE_LINEAR_STRIDE_ALIGNMENT: u32 = 0x20;

/// The timeout, in nanoseconds, with which a wait for a fence has no deadline.
pub const NO_TIMEOUT: i64 = -1;

} // verus!
