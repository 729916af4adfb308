//! Resource handles: an image index and a sampler index in one 32-bit word.
//!
//! The low 20 bits hold the image index and the 12 bits above them the sampler index. Handles
//! travel inside command streams and shader bindings as they are, so this layout is fixed.
//! Nothing here checks that an index fits its bits: one that does not is cut or runs into
//! its neighbour.

use vstd::prelude::*;

verus! {

/// A handle to an image, a sampler, or both.
pub type ResHandle = u32;

/// Largest image index that a handle holds.
pub const MAX_IMAGE_INDEX: u32 = 0xF_FFFF;

/// Largest sampler index that a handle holds.
pub const MAX_SAMPLER_INDEX: u32 = 0xFFF;

/// The handle of the image with index `id`: the low 20 bits of `id`.
pub open spec fn image_handle(id: u32) -> u32 {
    id & 0xF_FFFF
}

/// The handle of the sampler with index `id`: `id` moved above the image bits.
pub open spec fn sampler_handle(id: u32) -> u32 {
    id << 20u32
}

/// The handle of an image and a sampler together.
pub open spec fn texture_handle(image_id: u32, sampler_id: u32) -> u32 {
    image_handle(image_id) | sampler_handle(sampler_id)
}

/// The image index that `handle` holds.
pub open spec fn image_index(handle: u32) -> u32 {
    handle & 0xF_FFFF
}

/// The sampler index that `handle` holds.
pub open spec fn sampler_index(handle: u32) -> u32 {
    handle >> 20u32
}

pub fn make_image_handle(id: u32) -> (handle: ResHandle)
    ensures
        handle == image_handle(id),
{
    id & 0xF_FFFF
}

pub fn make_sampler_handle(id: u32) -> (handle: ResHandle)
    ensures
        handle == sampler_handle(id),
{
    id << 20
}

pub fn make_texture_handle(image_id: u32, sampler_id: u32) -> (handle: ResHandle)
    ensures
        handle == texture_handle(image_id, sampler_id),
        handle == image_handle(image_id) | sampler_handle(sampler_id),
{
    make_image_handle(image_id) | make_sampler_handle(sampler_id)
}

/// A texture handle gives back the image index and the sampler index it was made of,
/// provided each fits its bits.
pub proof fn lemma_texture_handle_round_trip(image_id: u32, sampler_id: u32)
    requires
        image_id <= MAX_IMAGE_INDEX,
        sampler_id <= MAX_SAMPLER_INDEX,
    ensures
        image_index(texture_handle(image_id, sampler_id)) == image_id,
        sampler_index(texture_handle(image_id, sampler_id)) == sampler_id,
{
    assert(((image_id & 0xF_FFFF) | (sampler_id << 20u32)) & 0xF_FFFF == image_id && ((image_id
        & 0xF_FFFF) | (sampler_id << 20u32)) >> 20u32 == sampler_id) by (bit_vector)
        requires
            image_id <= 0xF_FFFF,
            sampler_id <= 0xFFF,
    ;
}

} // verus!
