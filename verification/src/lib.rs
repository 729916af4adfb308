//! A layer over an explicit, low-level GPU interface, as far as it is plain data: resource
//! handles, the packed fixed-function state objects, the enumerations and flags that the
//! driver's structures and command streams carry as numbers, and the configurations from
//! which devices, memory blocks, command buffers, queues, shaders, image layouts and
//! samplers are made.
//!
//! Nothing here talks to the driver. What is bound into a command stream comes out of
//! `to_bits`, `to_words` and `to_raw`; what the driver hands back goes in through `from` and
//! `into_result`.

pub mod bits;
pub mod blend;
pub mod color;
pub mod command;
pub mod compare;
pub mod depth_stencil;
pub mod device;
pub mod error;
pub mod format;
pub mod handle;
pub mod image;
pub mod limits;
pub mod memory;
pub mod multisample;
pub mod queue;
pub mod raster;
pub mod sampler;
pub mod shader;
pub mod vertex;

pub use crate::blend::{BlendFactor, BlendOp, BlendState};
pub use crate::color::{ColorMask, ColorState, ColorWriteState, LogicOp};
pub use crate::command::{
    Barrier, CmdBufMaker, Counter, IdxFormat, InvalidateFlags, PipelinePos, Primitive, Swizzle,
    TiledCacheOp, VarCompareOp, VarOp, ViewportSwizzle,
};
pub use crate::compare::CompareOp;
pub use crate::depth_stencil::{DepthStencilState, StencilOp};
pub use crate::device::{DeviceFlags, DeviceMaker};
pub use crate::error::{DekoError, into_result};
pub use crate::format::ImageFormat;
pub use crate::handle::{
    ResHandle, make_image_handle, make_sampler_handle, make_texture_handle, MAX_IMAGE_INDEX,
    MAX_SAMPLER_INDEX,
};
pub use crate::image::{
    DsSource, ImageFlags, ImageLayoutMaker, ImageSwizzle, ImageType, ImageView, TileSize,
};
pub use crate::limits::{
    DK_CMDMEM_ALIGNMENT, DK_DEFAULT_MAX_COMPUTE_CONCURRENT_JOBS, DK_IMAGE_DESCRIPTOR_ALIGNMENT,
    DK_IMAGE_LINEAR_STRIDE_ALIGNMENT, DK_MAX_RENDER_TARGETS, DK_MAX_VERTEX_ATTRIBS,
    DK_MAX_VERTEX_BUFFERS, DK_MEMBLOCK_ALIGNMENT, DK_NUM_IMAGE_BINDINGS, DK_NUM_SCISSORS,
    DK_NUM_STORAGE_BUFS, DK_NUM_TEXTURE_BINDINGS, DK_NUM_UNIFORM_BUFS, DK_NUM_VIEWPORTS,
    DK_PER_WARP_SCRATCH_MEM_ALIGNMENT, DK_QUEUE_MIN_CMDMEM_SIZE, DK_SAMPLER_DESCRIPTOR_ALIGNMENT,
    DK_SHADER_CODE_ALIGNMENT, DK_SHADER_CODE_UNUSABLE_SIZE, DK_UNIFORM_BUF_ALIGNMENT,
    DK_UNIFORM_BUF_MAX_SIZE, NO_TIMEOUT,
};
pub use crate::memory::{
    MemAccess, MemBlockFlags, MemBlockMaker, MEMBLOCK_CPU_ACCESS_SHIFT, MEMBLOCK_GPU_ACCESS_SHIFT,
};
pub use crate::multisample::{CoverageModulation, MsMode, MultisampleState};
pub use crate::queue::{QueueFlags, QueueMaker};
pub use crate::raster::{
    Face, FrontFace, PolygonFlag, PolygonMode, ProvokingVertex, RasterizerState,
};
pub use crate::sampler::{
    Filter, MipFilter, Sampler, SamplerReduction, WrapMode, FLOAT_ONE_BITS, FLOAT_THOUSAND_BITS,
};
pub use crate::shader::{ShaderMaker, Stage, StageFlag};
pub use crate::vertex::{VtxAttribSize, VtxAttribState, VtxAttribType, VtxBufferState};
