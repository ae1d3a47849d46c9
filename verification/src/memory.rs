//! Handles to native objects, and the description of where a tensor's data
//! lives.

use vstd::prelude::*;

verus! {

/// The address of a live native object. It is never null.
#[derive(Debug, PartialEq, Eq)]
pub struct Handle {
    addr: usize,
}

impl Handle {
    #[verifier::type_invariant]
    spec fn non_null(self) -> bool {
        self.addr != 0
    }

    /// The address that the handle holds.
    pub closed spec fn view(self) -> usize {
        self.addr
    }

    /// The handle for an address that an entry point handed out; none for
    /// the null address.
    pub fn new(addr: usize) -> (h: Option<Handle>)
        ensures
            addr == 0 <==> h is None,
            h matches Some(handle) ==> handle@ == addr,
    {
        if addr == 0 {
            None
        } else {
            Some(Handle { addr })
        }
    }

    pub fn addr(&self) -> (a: usize)
        ensures
            a == self@,
            a != 0,
    {
        proof {
            use_type_invariant(self);
        }
        self.addr
    }

}

/// The memory space that holds a tensor's data.
#[derive(Debug, Clone, Copy, PartialEq, Eq, Structural)]
pub enum AllocationDevice {
    /// Ordinary host memory.
    Cpu,
    /// Host memory that is pinned for transfers to a device.
    CudaPinned,
    /// The memory of a device.
    Cuda,
}

/// The kind of allocator that serves a memory space.
#[derive(Debug, Clone, Copy, PartialEq, Eq, Structural)]
pub enum AllocatorType {
    Device,
    Arena,
}

/// Which memory backs a tensor: the space, the device's number within it,
/// and the kind of allocator.
#[derive(Debug, Clone, Copy, PartialEq, Eq, Structural)]
pub struct MemoryInfo {
    pub device: AllocationDevice,
    pub device_id: i32,
    pub allocator_type: AllocatorType,
}

impl MemoryInfo {
    /// The process's default host allocator.
    pub open spec fn host() -> MemoryInfo {
        MemoryInfo {
            device: AllocationDevice::Cpu,
            device_id: 0,
            allocator_type: AllocatorType::Device,
        }
    }

    pub fn new(device: AllocationDevice, device_id: i32, allocator_type: AllocatorType) -> (m:
        MemoryInfo)
        ensures
            m == (MemoryInfo { device, device_id, allocator_type }),
    {
        MemoryInfo { device, device_id, allocator_type }
    }

    /// Whether the memory can be read by the host.
    pub fn is_cpu_accessible(&self) -> (b: bool)
        ensures
            b == (self.device != AllocationDevice::Cuda),
    {
        match self.device {
            AllocationDevice::Cuda => false,
            _ => true,
        }
    }
}

impl Default for MemoryInfo {
    fn default() -> (m: MemoryInfo)
        ensures
            m == MemoryInfo::host(),
    {
        MemoryInfo {
            device: AllocationDevice::Cpu,
            device_id: 0,
            allocator_type: AllocatorType::Device,
        }
    }
}

/// The allocator that the engine is to use for a value that it allocates.
#[derive(Debug, PartialEq, Eq)]
pub enum Allocator {
    /// The engine's own default allocator, which serves host memory.
    Default,
    /// An allocator that the caller made, and the memory that it serves.
    Custom { handle: Handle, memory_info: MemoryInfo },
}

impl Allocator {
    pub open spec fn memory_info_spec(self) -> MemoryInfo {
        match self {
            Allocator::Default => MemoryInfo::host(),
            Allocator::Custom { memory_info, .. } => memory_info,
        }
    }

    pub open spec fn address_spec(self) -> Option<usize> {
        match self {
            Allocator::Default => None,
            Allocator::Custom { handle, .. } => Some(handle@),
        }
    }

    /// The address of the native allocator, or none for the engine's
    /// default one.
    pub fn address(&self) -> (a: Option<usize>)
        ensures
            a == self.address_spec(),
    {
        match self {
            Allocator::Default => None,
            Allocator::Custom { handle, .. } => Some(handle.addr()),
        }
    }

    /// The memory that the allocator serves.
    pub fn memory_info(&self) -> (m: MemoryInfo)
        ensures
            m == self.memory_info_spec(),
    {
        match self {
            Allocator::Default => MemoryInfo::default(),
            Allocator::Custom { memory_info, .. } => *memory_info,
        }
    }
}

} // verus!
