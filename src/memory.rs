//! Owned device memory and the typed buffers over it.
//!
//! Every buffer holds 64-bit words: the kernels of the backend work on 64-bit
//! integers, and the Fourier-domain bootstrapping key is an array of 64-bit
//! floating-point values, whose bits this library never reads.
use vstd::prelude::*;

use crate::device::CudaDevice;
use crate::native::NativeCall;

verus! {

/// Bytes in one element of a device buffer.
pub const WORD_BYTES: u64 = 8;

/// One allocation on one device. It is never duplicated and is released
/// once, by [`CudaPtr::release`].
#[derive(Debug)]
pub struct CudaPtr {
    ptr: usize,
    device: CudaDevice,
}

impl CudaPtr {
    pub closed spec fn addr(&self) -> usize {
        self.ptr
    }

    pub closed spec fn home(&self) -> CudaDevice {
        self.device
    }

    /// Takes ownership of the allocation at `ptr` on `device`.
    pub fn new(ptr: usize, device: CudaDevice) -> (r: Self)
        ensures
            r.addr() == ptr,
            r.home() == device,
    {
        CudaPtr { ptr, device }
    }

    /// Address of the allocation, for reading.
    pub fn as_c_ptr(&self) -> (r: usize)
        ensures
            r == self.addr(),
    {
        self.ptr
    }

    /// Address of the allocation, for writing.
    pub fn as_mut_c_ptr(&mut self) -> (r: usize)
        ensures
            r == old(self).addr(),
            *final(self) == *old(self),
    {
        self.ptr
    }

    pub fn device(&self) -> (r: CudaDevice)
        ensures
            r == self.home(),
    {
        self.device
    }

    /// Consumes the handle and gives the calls that free it: first the whole
    /// device is synchronized, so that no stream still uses the memory, then
    /// the allocation is freed.
    pub fn release(self) -> (r: Vec<NativeCall>)
        ensures
            r@ == release_calls(self.addr(), self.home()),
    {
        let gpu_index = self.device.gpu_index();
        let mut calls: Vec<NativeCall> = Vec::new();
        calls.push(self.device.synchronize_device());
        calls.push(NativeCall::Free { ptr: self.ptr, gpu_index });
        calls
    }
}

/// The calls that free the allocation at `ptr` on `device`.
pub open spec fn release_calls(ptr: usize, device: CudaDevice) -> Seq<NativeCall> {
    seq![
        NativeCall::SynchronizeDevice { gpu_index: device.index() },
        NativeCall::Free { ptr, gpu_index: device.index() },
    ]
}

/// A buffer of `len` 64-bit words on one device, owning its allocation.
#[derive(Debug)]
pub struct CudaVec {
    ptr: CudaPtr,
    len: usize,
    device: CudaDevice,
}

impl CudaVec {
    pub closed spec fn addr(&self) -> usize {
        self.ptr.addr()
    }

    pub closed spec fn size(&self) -> nat {
        self.len as nat
    }

    pub closed spec fn home(&self) -> CudaDevice {
        self.device
    }

    /// An allocation count is an unsigned 32-bit value, and the buffer lives
    /// on the device of its allocation.
    pub closed spec fn wf(&self) -> bool {
        &&& self.len <= u32::MAX
        &&& self.ptr.home() == self.device
    }

    /// A well-formed buffer holds at most `u32::MAX` words.
    pub proof fn lemma_size_bound(&self)
        requires
            self.wf(),
        ensures
            self.size() <= u32::MAX,
    {
    }

    pub fn new(ptr: CudaPtr, len: usize, device: CudaDevice) -> (r: Self)
        requires
            len <= u32::MAX,
            ptr.home() == device,
        ensures
            r.wf(),
            r.addr() == ptr.addr(),
            r.size() == len,
            r.home() == device,
    {
        CudaVec { ptr, len, device }
    }

    pub fn len(&self) -> (r: usize)
        requires
            self.wf(),
        ensures
            r == self.size(),
            r <= u32::MAX,
    {
        self.len
    }

    pub fn is_empty(&self) -> (r: bool)
        ensures
            r == (self.size() == 0),
    {
        self.len == 0
    }

    pub fn as_c_ptr(&self) -> (r: usize)
        ensures
            r == self.addr(),
    {
        self.ptr.as_c_ptr()
    }

    pub fn as_mut_c_ptr(&mut self) -> (r: usize)
        ensures
            r == old(self).addr(),
            *final(self) == *old(self),
    {
        self.ptr.as_mut_c_ptr()
    }

    pub fn device(&self) -> (r: CudaDevice)
        ensures
            r == self.home(),
    {
        self.device
    }

    /// Consumes the buffer and gives the calls that free its allocation.
    pub fn release(self) -> (r: Vec<NativeCall>)
        requires
            self.wf(),
        ensures
            r@ == release_calls(self.addr(), self.home()),
    {
        self.ptr.release()
    }
}

} // verus!
