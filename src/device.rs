//! Accelerators and the owned device memory.
use vstd::prelude::*;

use crate::native::NativeCall;

verus! {

/// One accelerator, identified by its index.
#[derive(Clone, Copy, Debug, PartialEq, Eq, Structural)]
pub struct CudaDevice {
    gpu_index: u32,
}

impl CudaDevice {
    pub closed spec fn index(self) -> u32 {
        self.gpu_index
    }

    /// Names the accelerator with index `gpu_index`; nothing is checked
    /// against the hardware.
    pub fn new(gpu_index: u32) -> (r: Self)
        ensures
            r.index() == gpu_index,
    {
        CudaDevice { gpu_index }
    }

    pub fn gpu_index(&self) -> (r: u32)
        ensures
            r == self.index(),
    {
        self.gpu_index
    }

    /// The call that waits for all work of every stream on this device.
    pub fn synchronize_device(&self) -> (r: NativeCall)
        ensures
            r == (NativeCall::SynchronizeDevice { gpu_index: self.index() }),
    {
        NativeCall::SynchronizeDevice { gpu_index: self.gpu_index }
    }

    /// The call that asks this device for its shared memory per block.
    pub fn get_max_shared_memory(&self) -> (r: NativeCall)
        ensures
            r == (NativeCall::GetMaxSharedMemory { gpu_index: self.index() }),
    {
        NativeCall::GetMaxSharedMemory { gpu_index: self.gpu_index }
    }

    /// The call that counts the accelerators of the machine.
    pub fn get_number_of_gpus(&self) -> (r: NativeCall)
        ensures
            r == NativeCall::GetNumberOfGpus,
    {
        NativeCall::GetNumberOfGpus
    }
}

} // verus!
