//! The device: the conventions it fixes when it is created.

use crate::bits::{lemma_within, within};
use vstd::prelude::*;

verus! {

/// The conventions of a device: the range of depth in clip space and the corner of a
/// viewport that is its origin. They are chosen when the device is made and stay.
#[derive(Debug, Copy, Clone, PartialEq, Eq, Hash, Structural)]
pub struct DeviceFlags {
    bits: u32,
}

impl View for DeviceFlags {
    type V = u32;

    /// The bits that are set.
    closed spec fn view(&self) -> u32 {
        self.bits
    }
}

impl DeviceFlags {
    /// Every bit that a flag of this set uses.
    pub open spec fn all_bits() -> u32 {
        0x300
    }

    #[verifier::type_invariant]
    spec fn holds_known_bits_only(&self) -> bool {
        within(self.bits, DeviceFlags::all_bits())
    }

    proof fn lemma_flag_values()
        by (bit_vector)
        ensures
            within(0x0, 0x300),
            within(0x100, 0x300),
            within(0x200, 0x300),
            within(0x300, 0x300),
    {
    }

    /// The set without any flag.
    pub fn empty() -> (flags: Self)
        ensures
            flags@ == 0,
    {
        proof {
            lemma_within(0, 0, DeviceFlags::all_bits());
        }
        DeviceFlags { bits: 0 }
    }

    /// The set of all flags.
    pub fn all() -> (flags: Self)
        ensures
            flags@ == DeviceFlags::all_bits(),
    {
        proof {
            DeviceFlags::lemma_flag_values();
        }
        DeviceFlags { bits: 0x300 }
    }

    /// Depth in clip space runs from 0 to 1. This is the choice where neither depth flag is set.
    pub fn depth_zero_to_one() -> (flags: Self)
        ensures
            flags@ == 0x0,
    {
        proof {
            DeviceFlags::lemma_flag_values();
        }
        DeviceFlags { bits: 0x0 }
    }

    /// Depth in clip space runs from -1 to 1.
    pub fn depth_minus_one_to_one() -> (flags: Self)
        ensures
            flags@ == 0x100,
    {
        proof {
            DeviceFlags::lemma_flag_values();
        }
        DeviceFlags { bits: 0x100 }
    }

    /// The origin is the upper left corner. This is the choice where neither origin flag is set.
    pub fn origin_upper_left() -> (flags: Self)
        ensures
            flags@ == 0x0,
    {
        proof {
            DeviceFlags::lemma_flag_values();
        }
        DeviceFlags { bits: 0x0 }
    }

    /// The origin is the lower left corner.
    pub fn origin_lower_left() -> (flags: Self)
        ensures
            flags@ == 0x200,
    {
        proof {
            DeviceFlags::lemma_flag_values();
        }
        DeviceFlags { bits: 0x200 }
    }

    pub fn bits(&self) -> (bits: u32)
        ensures
            bits == self@,
            within(bits, DeviceFlags::all_bits()),
    {
        proof {
            use_type_invariant(self);
        }
        self.bits
    }

    /// The flags among `bits`; bits that belong to no flag are dropped.
    pub fn from_bits_truncate(bits: u32) -> (flags: Self)
        ensures
            flags@ == bits & DeviceFlags::all_bits(),
            within(bits, DeviceFlags::all_bits()) ==> flags@ == bits,
    {
        proof {
            lemma_within(bits, 0, DeviceFlags::all_bits());
        }
        DeviceFlags { bits: bits & 0x300 }
    }

    /// The flags of either set.
    pub fn union(self, other: Self) -> (flags: Self)
        ensures
            flags@ == self@ | other@,
    {
        proof {
            use_type_invariant(self);
            use_type_invariant(other);
            lemma_within(self.bits, other.bits, DeviceFlags::all_bits());
        }
        DeviceFlags { bits: self.bits | other.bits }
    }

    /// Whether every flag of `other` is in this set.
    pub fn contains(&self, other: Self) -> (yes: bool)
        ensures
            yes == (self@ & other@ == other@),
    {
        self.bits & other.bits == other.bits
    }
}

/// The configuration from which a device is made.
///
/// The user data and the callbacks belong to the caller's program. They are kept as
/// addresses, which only the driver follows; zero stands for none.
#[derive(Debug, Copy, Clone, PartialEq, Eq, Hash, Structural)]
pub struct DeviceMaker {
    /// What the driver hands to every callback.
    pub user_data: usize,
    /// The function that is told of errors, or zero.
    pub cb_debug: usize,
    /// The function that allocates memory for the driver, or zero for the allocator of
    /// the platform.
    pub cb_alloc: usize,
    /// The function that frees what `cb_alloc` gave, or zero for the allocator of the
    /// platform.
    pub cb_free: usize,
    pub flags: DeviceFlags,
}

impl DeviceMaker {
    /// The configuration with the defaults: no user data, no debug callback, the allocator
    /// of the platform, depth from 0 to 1 and the origin in the upper left corner.
    pub fn new() -> (maker: DeviceMaker)
        ensures
            maker.user_data == 0,
            maker.cb_debug == 0,
            maker.cb_alloc == 0,
            maker.cb_free == 0,
            maker.flags@ == 0,
    {
        proof {
            assert(0u32 | 0u32 == 0u32) by (bit_vector);
        }
        let flags = DeviceFlags::depth_zero_to_one().union(DeviceFlags::origin_upper_left());
        DeviceMaker { user_data: 0, cb_debug: 0, cb_alloc: 0, cb_free: 0, flags }
    }

    pub fn set_user_data(self, user_data: usize) -> (maker: DeviceMaker)
        ensures
            maker == (DeviceMaker { user_data, ..self }),
    {
        DeviceMaker { user_data, ..self }
    }

    pub fn set_debug_callback(self, cb_debug: usize) -> (maker: DeviceMaker)
        ensures
            maker == (DeviceMaker { cb_debug, ..self }),
    {
        DeviceMaker { cb_debug, ..self }
    }

    pub fn set_alloc_callback(self, cb_alloc: usize) -> (maker: DeviceMaker)
        ensures
            maker == (DeviceMaker { cb_alloc, ..self }),
    {
        DeviceMaker { cb_alloc, ..self }
    }

    pub fn set_free_callback(self, cb_free: usize) -> (maker: DeviceMaker)
        ensures
            maker == (DeviceMaker { cb_free, ..self }),
    {
        DeviceMaker { cb_free, ..self }
    }

    pub fn get_debug_callback(&self) -> (cb_debug: usize)
        ensures
            cb_debug == self.cb_debug,
    {
        self.cb_debug
    }

    pub fn get_alloc_callback(&self) -> (cb_alloc: usize)
        ensures
            cb_alloc == self.cb_alloc,
    {
        self.cb_alloc
    }

    pub fn get_free_callback(&self) -> (cb_free: usize)
        ensures
            cb_free == self.cb_free,
    {
        self.cb_free
    }

    pub fn set_flags(self, flags: DeviceFlags) -> (maker: DeviceMaker)
        ensures
            maker == (DeviceMaker { flags, ..self }),
    {
        DeviceMaker { flags, ..self }
    }

    pub fn get_flags(&self) -> (flags: DeviceFlags)
        ensures
            flags == self.flags,
    {
        self.flags
    }
}

} // verus!
