//! Queues: the configuration from which one is made.

use crate::bits::{lemma_within, within};
use crate::limits::{
    DK_DEFAULT_MAX_COMPUTE_CONCURRENT_JOBS, DK_PER_WARP_SCRATCH_MEM_ALIGNMENT,
    DK_QUEUE_MIN_CMDMEM_SIZE,
};
use vstd::prelude::*;

verus! {

/// The flags of a queue: the kinds of work it takes, its priority in bits 2 and 3, and
/// whether it uses Zcull.
#[derive(Debug, Copy, Clone, PartialEq, Eq, Hash, Structural)]
pub struct QueueFlags {
    bits: u32,
}

impl View for QueueFlags {
    type V = u32;

    /// The bits that are set.
    closed spec fn view(&self) -> u32 {
        self.bits
    }
}

impl QueueFlags {
    /// Every bit that a flag of this set uses.
    pub open spec fn all_bits() -> u32 {
        0x1F
    }

    #[verifier::type_invariant]
    spec fn holds_known_bits_only(&self) -> bool {
        within(self.bits, QueueFlags::all_bits())
    }

    proof fn lemma_flag_values()
        by (bit_vector)
        ensures
            within(0x1, 0x1F),
            within(0x2, 0x1F),
            within(0x0, 0x1F),
            within(0x4, 0x1F),
            within(0x8, 0x1F),
            within(0xC, 0x1F),
            within(0x10, 0x1F),
            within(0x1F, 0x1F),
    {
    }

    /// The set without any flag.
    pub fn empty() -> (flags: Self)
        ensures
            flags@ == 0,
    {
        proof {
            lemma_within(0, 0, QueueFlags::all_bits());
        }
        QueueFlags { bits: 0 }
    }

    /// The set of all flags.
    pub fn all() -> (flags: Self)
        ensures
            flags@ == QueueFlags::all_bits(),
    {
        proof {
            QueueFlags::lemma_flag_values();
        }
        QueueFlags { bits: 0x1F }
    }

    /// The queue takes graphics work.
    pub fn graphics() -> (flags: Self)
        ensures
            flags@ == 0x1,
    {
        proof {
            QueueFlags::lemma_flag_values();
        }
        QueueFlags { bits: 0x1 }
    }

    /// The queue takes compute work.
    pub fn compute() -> (flags: Self)
        ensures
            flags@ == 0x2,
    {
        proof {
            QueueFlags::lemma_flag_values();
        }
        QueueFlags { bits: 0x2 }
    }

    /// Medium priority. This is the choice where no priority flag is set.
    pub fn medium_prio() -> (flags: Self)
        ensures
            flags@ == 0x0,
    {
        proof {
            QueueFlags::lemma_flag_values();
        }
        QueueFlags { bits: 0x0 }
    }

    /// High priority.
    pub fn high_prio() -> (flags: Self)
        ensures
            flags@ == 0x4,
    {
        proof {
            QueueFlags::lemma_flag_values();
        }
        QueueFlags { bits: 0x4 }
    }

    /// Low priority.
    pub fn low_prio() -> (flags: Self)
        ensures
            flags@ == 0x8,
    {
        proof {
            QueueFlags::lemma_flag_values();
        }
        QueueFlags { bits: 0x8 }
    }

    /// The bits of the priority.
    pub fn prio_mask() -> (flags: Self)
        ensures
            flags@ == 0xC,
    {
        proof {
            QueueFlags::lemma_flag_values();
        }
        QueueFlags { bits: 0xC }
    }

    /// Zcull is used. This is the choice where the flag against it is not set.
    pub fn enable_zcull() -> (flags: Self)
        ensures
            flags@ == 0x0,
    {
        proof {
            QueueFlags::lemma_flag_values();
        }
        QueueFlags { bits: 0x0 }
    }

    /// Zcull is not used.
    pub fn disable_zcull() -> (flags: Self)
        ensures
            flags@ == 0x10,
    {
        proof {
            QueueFlags::lemma_flag_values();
        }
        QueueFlags { bits: 0x10 }
    }

    pub fn bits(&self) -> (bits: u32)
        ensures
            bits == self@,
            within(bits, QueueFlags::all_bits()),
    {
        proof {
            use_type_invariant(self);
        }
        self.bits
    }

    /// The flags among `bits`; bits that belong to no flag are dropped.
    pub fn from_bits_truncate(bits: u32) -> (flags: Self)
        ensures
            flags@ == bits & QueueFlags::all_bits(),
            within(bits, QueueFlags::all_bits()) ==> flags@ == bits,
    {
        proof {
            lemma_within(bits, 0, QueueFlags::all_bits());
        }
        QueueFlags { bits: bits & 0x1F }
    }

    /// The flags of either set.
    pub fn union(self, other: Self) -> (flags: Self)
        ensures
            flags@ == self@ | other@,
    {
        proof {
            use_type_invariant(self);
            use_type_invariant(other);
            lemma_within(self.bits, other.bits, QueueFlags::all_bits());
        }
        QueueFlags { bits: self.bits | other.bits }
    }

    /// Whether every flag of `other` is in this set.
    pub fn contains(&self, other: Self) -> (yes: bool)
        ensures
            yes == (self@ & other@ == other@),
    {
        self.bits & other.bits == other.bits
    }
}

/// The configuration from which a queue is made.
#[derive(Debug, Copy, Clone, PartialEq, Eq, Hash, Structural)]
pub struct QueueMaker {
    pub flags: QueueFlags,
    /// Bytes of command memory that the queue keeps for itself.
    pub command_memory_size: u32,
    /// Bytes of recorded commands after which the queue flushes by itself.
    pub flush_threshold: u32,
    pub per_warp_scratch_memory_size: u32,
    pub max_concurrent_compute_jobs: u32,
}

impl QueueMaker {
    /// The configuration with the defaults: graphics and compute work at medium priority
    /// with Zcull, the smallest command memory, a flush after an eighth of it, four units
    /// of scratch memory for each warp, and the usual number of compute jobs at a time.
    pub fn new() -> (maker: QueueMaker)
        ensures
            maker.flags@ == 0x3,
            maker.command_memory_size == DK_QUEUE_MIN_CMDMEM_SIZE,
            maker.flush_threshold == DK_QUEUE_MIN_CMDMEM_SIZE / 8,
            maker.per_warp_scratch_memory_size == 4 * DK_PER_WARP_SCRATCH_MEM_ALIGNMENT,
            maker.max_concurrent_compute_jobs == DK_DEFAULT_MAX_COMPUTE_CONCURRENT_JOBS,
    {
        proof {
            assert(0x1u32 | 0x2u32 == 0x3u32 && 0x3u32 | 0u32 == 0x3u32) by (bit_vector);
        }
        let flags = QueueFlags::graphics().union(QueueFlags::compute()).union(
            QueueFlags::medium_prio(),
        ).union(QueueFlags::enable_zcull());
        QueueMaker {
            flags,
            command_memory_size: DK_QUEUE_MIN_CMDMEM_SIZE,
            flush_threshold: DK_QUEUE_MIN_CMDMEM_SIZE / 8,
            per_warp_scratch_memory_size: 4 * DK_PER_WARP_SCRATCH_MEM_ALIGNMENT,
            max_concurrent_compute_jobs: DK_DEFAULT_MAX_COMPUTE_CONCURRENT_JOBS,
        }
    }

    pub fn set_flags(&mut self, flags: QueueFlags) -> (ret: &mut Self)
        ensures
            *ret == (QueueMaker { flags, ..*old(self) }),
            *final(self) == *final(ret),
    {
        self.flags = flags;
        self
    }

    pub fn get_flags(&self) -> (flags: QueueFlags)
        ensures
            flags == self.flags,
    {
        self.flags
    }

    pub fn set_command_memory_size(&mut self, command_memory_size: u32) -> (ret: &mut Self)
        ensures
            *ret == (QueueMaker { command_memory_size, ..*old(self) }),
            *final(self) == *final(ret),
    {
        self.command_memory_size = command_memory_size;
        self
    }

    pub fn get_command_memory_size(&self) -> (size: u32)
        ensures
            size == self.command_memory_size,
    {
        self.command_memory_size
    }

    pub fn set_flush_threshold(&mut self, flush_threshold: u32) -> (ret: &mut Self)
        ensures
            *ret == (QueueMaker { flush_threshold, ..*old(self) }),
            *final(self) == *final(ret),
    {
        self.flush_threshold = flush_threshold;
        self
    }

    pub fn get_flush_threshold(&self) -> (threshold: u32)
        ensures
            threshold == self.flush_threshold,
    {
        self.flush_threshold
    }

    pub fn set_per_warp_scratch_memory_size(
        &mut self,
        per_warp_scratch_memory_size: u32,
    ) -> (ret: &mut Self)
        ensures
            *ret == (QueueMaker { per_warp_scratch_memory_size, ..*old(self) }),
            *final(self) == *final(ret),
    {
        self.per_warp_scratch_memory_size = per_warp_scratch_memory_size;
        self
    }

    pub fn get_per_warp_scratch_memory_size(&self) -> (size: u32)
        ensures
            size == self.per_warp_scratch_memory_size,
    {
        self.per_warp_scratch_memory_size
    }

    pub fn set_max_concurrent_compute_jobs(
        &mut self,
        max_concurrent_compute_jobs: u32,
    ) -> (ret: &mut Self)
        ensures
            *ret == (QueueMaker { max_concurrent_compute_jobs, ..*old(self) }),
            *final(self) == *final(ret),
    {
        self.max_concurrent_compute_jobs = max_concurrent_compute_jobs;
        self
    }

    pub fn get_max_concurrent_compute_jobs(&self) -> (jobs: u32)
        ensures
            jobs == self.max_concurrent_compute_jobs,
    {
        self.max_concurrent_compute_jobs
    }
}

} // verus!
