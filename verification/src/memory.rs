//! Memory blocks: how the CPU and the GPU reach them, and the configuration from which one
//! is made.

use crate::bits::{lemma_within, within};
use vstd::prelude::*;

verus! {

/// Where the CPU access of a memory block is found among its flags.
pub const MEMBLOCK_CPU_ACCESS_SHIFT: u32 = 0;

/// Where the GPU access of a memory block is found among its flags.
pub const MEMBLOCK_GPU_ACCESS_SHIFT: u32 = 2;

/// How one side, the CPU or the GPU, reaches a memory block.
#[derive(Debug, Copy, Clone, PartialEq, Eq, Hash, Structural)]
pub enum MemAccess {
    NoAccess,
    Uncached,
    Cached,
    /// The bits that an access takes.
    Mask,
}

impl MemAccess {
    /// The number that stands for this value in driver structures and command streams.
    pub open spec fn raw(self) -> u32 {
        match self {
            MemAccess::NoAccess => 0,
            MemAccess::Uncached => 1,
            MemAccess::Cached => 2,
            MemAccess::Mask => 3,
        }
    }

    pub fn to_raw(self) -> (code: u32)
        ensures
            code == self.raw(),
    {
        match self {
            MemAccess::NoAccess => 0,
            MemAccess::Uncached => 1,
            MemAccess::Cached => 2,
            MemAccess::Mask => 3,
        }
    }
}

/// The flags of a memory block: the access of the CPU in bits 0 and 1, that of the GPU in
/// bits 2 and 3, and what the block is meant for.
#[derive(Debug, Copy, Clone, PartialEq, Eq, Hash, Structural)]
pub struct MemBlockFlags {
    bits: u32,
}

impl View for MemBlockFlags {
    type V = u32;

    /// The bits that are set.
    closed spec fn view(&self) -> u32 {
        self.bits
    }
}

impl MemBlockFlags {
    /// Every bit that a flag of this set uses.
    pub open spec fn all_bits() -> u32 {
        0x13F
    }

    #[verifier::type_invariant]
    spec fn holds_known_bits_only(&self) -> bool {
        within(self.bits, MemBlockFlags::all_bits())
    }

    proof fn lemma_flag_values()
        by (bit_vector)
        ensures
            within(0x1, 0x13F),
            within(0x2, 0x13F),
            within(0x3, 0x13F),
            within(0x4, 0x13F),
            within(0x8, 0x13F),
            within(0xC, 0x13F),
            within(0x10, 0x13F),
            within(0x20, 0x13F),
            within(0x100, 0x13F),
            within(0x13F, 0x13F),
    {
    }

    /// The set without any flag.
    pub fn empty() -> (flags: Self)
        ensures
            flags@ == 0,
    {
        proof {
            lemma_within(0, 0, MemBlockFlags::all_bits());
        }
        MemBlockFlags { bits: 0 }
    }

    /// The set of all flags.
    pub fn all() -> (flags: Self)
        ensures
            flags@ == MemBlockFlags::all_bits(),
    {
        proof {
            MemBlockFlags::lemma_flag_values();
        }
        MemBlockFlags { bits: 0x13F }
    }

    /// The CPU reaches the block without its cache.
    pub fn cpu_uncached() -> (flags: Self)
        ensures
            flags@ == 0x1,
    {
        proof {
            MemBlockFlags::lemma_flag_values();
        }
        MemBlockFlags { bits: 0x1 }
    }

    /// The CPU reaches the block through its cache.
    pub fn cpu_cached() -> (flags: Self)
        ensures
            flags@ == 0x2,
    {
        proof {
            MemBlockFlags::lemma_flag_values();
        }
        MemBlockFlags { bits: 0x2 }
    }

    /// The bits of the CPU access.
    pub fn cpu_access_mask() -> (flags: Self)
        ensures
            flags@ == 0x3,
    {
        proof {
            MemBlockFlags::lemma_flag_values();
        }
        MemBlockFlags { bits: 0x3 }
    }

    /// The GPU reaches the block without its cache.
    pub fn gpu_uncached() -> (flags: Self)
        ensures
            flags@ == 0x4,
    {
        proof {
            MemBlockFlags::lemma_flag_values();
        }
        MemBlockFlags { bits: 0x4 }
    }

    /// The GPU reaches the block through its cache.
    pub fn gpu_cached() -> (flags: Self)
        ensures
            flags@ == 0x8,
    {
        proof {
            MemBlockFlags::lemma_flag_values();
        }
        MemBlockFlags { bits: 0x8 }
    }

    /// The bits of the GPU access.
    pub fn gpu_access_mask() -> (flags: Self)
        ensures
            flags@ == 0xC,
    {
        proof {
            MemBlockFlags::lemma_flag_values();
        }
        MemBlockFlags { bits: 0xC }
    }

    /// The block holds shader code.
    pub fn code() -> (flags: Self)
        ensures
            flags@ == 0x10,
    {
        proof {
            MemBlockFlags::lemma_flag_values();
        }
        MemBlockFlags { bits: 0x10 }
    }

    /// The block holds images.
    pub fn image() -> (flags: Self)
        ensures
            flags@ == 0x20,
    {
        proof {
            MemBlockFlags::lemma_flag_values();
        }
        MemBlockFlags { bits: 0x20 }
    }

    /// The block is filled with zeros when it is made.
    pub fn zero_fill_init() -> (flags: Self)
        ensures
            flags@ == 0x100,
    {
        proof {
            MemBlockFlags::lemma_flag_values();
        }
        MemBlockFlags { bits: 0x100 }
    }

    pub fn bits(&self) -> (bits: u32)
        ensures
            bits == self@,
            within(bits, MemBlockFlags::all_bits()),
    {
        proof {
            use_type_invariant(self);
        }
        self.bits
    }

    /// The flags among `bits`; bits that belong to no flag are dropped.
    pub fn from_bits_truncate(bits: u32) -> (flags: Self)
        ensures
            flags@ == bits & MemBlockFlags::all_bits(),
            within(bits, MemBlockFlags::all_bits()) ==> flags@ == bits,
    {
        proof {
            lemma_within(bits, 0, MemBlockFlags::all_bits());
        }
        MemBlockFlags { bits: bits & 0x13F }
    }

    /// The flags of either set.
    pub fn union(self, other: Self) -> (flags: Self)
        ensures
            flags@ == self@ | other@,
    {
        proof {
            use_type_invariant(self);
            use_type_invariant(other);
            lemma_within(self.bits, other.bits, MemBlockFlags::all_bits());
        }
        MemBlockFlags { bits: self.bits | other.bits }
    }

    /// Whether every flag of `other` is in this set.
    pub fn contains(&self, other: Self) -> (yes: bool)
        ensures
            yes == (self@ & other@ == other@),
    {
        self.bits & other.bits == other.bits
    }
}

/// The configuration from which a memory block is made.
#[derive(Debug, Copy, Clone, PartialEq, Eq, Hash, Structural)]
pub struct MemBlockMaker {
    /// The size of the block in bytes.
    pub size: u32,
    pub flags: MemBlockFlags,
    /// The address of the caller's memory that the block is made of, or zero where the
    /// driver allocates it. Only the driver follows the address.
    pub storage: usize,
}

impl MemBlockMaker {
    /// The configuration of a block of `size` bytes with the defaults: the CPU reaches it
    /// without its cache, the GPU through its cache, and the driver allocates it.
    pub fn new(size: u32) -> (maker: MemBlockMaker)
        ensures
            maker.size == size,
            maker.flags@ == 0x9,
            maker.storage == 0,
    {
        proof {
            assert(0x1u32 | 0x8u32 == 0x9u32) by (bit_vector);
        }
        let flags = MemBlockFlags::cpu_uncached().union(MemBlockFlags::gpu_cached());
        MemBlockMaker { size, flags, storage: 0 }
    }

    pub fn set_flags(&mut self, flags: MemBlockFlags) -> (ret: &mut Self)
        ensures
            *ret == (MemBlockMaker { flags, ..*old(self) }),
            *final(self) == *final(ret),
    {
        self.flags = flags;
        self
    }

    pub fn get_flags(&self) -> (flags: MemBlockFlags)
        ensures
            flags == self.flags,
    {
        self.flags
    }

    pub fn set_storage(&mut self, storage: usize) -> (ret: &mut Self)
        ensures
            *ret == (MemBlockMaker { storage, ..*old(self) }),
            *final(self) == *final(ret),
    {
        self.storage = storage;
        self
    }

    pub fn get_storage(&self) -> (storage: usize)
        ensures
            storage == self.storage,
    {
        self.storage
    }
}

} // verus!
