//! Execution streams: ordered queues of work on one device.
//!
//! Each operation of a stream gives the native calls that carry it out, in
//! the order in which they are to be issued on the stream. Buffer sizes are
//! checked before any call is produced.
use vstd::prelude::*;

use crate::device::CudaDevice;
use crate::memory::{CudaPtr, CudaVec, WORD_BYTES};
use crate::native::NativeCall;

verus! {

/// A native stream bound to one device.
#[derive(Debug)]
pub struct CudaStream {
    ptr: usize,
    device: CudaDevice,
}

/// The destination holds at least as many words as the source.
pub open spec fn fits(dest_len: nat, src_len: nat) -> bool {
    dest_len >= src_len
}

/// Number of bytes in `n` words.
pub open spec fn bytes(n: nat) -> u64 {
    (n * WORD_BYTES) as u64
}

/// Whether `src_len` words fit in a destination of `dest_len` words. A copy
/// is only ever planned where this holds; a caller that cannot show it tests
/// it first and treats a `false` as a broken contract.
pub fn capacity_fits(dest_len: usize, src_len: usize) -> (r: bool)
    ensures
        r == fits(dest_len as nat, src_len as nat),
{
    dest_len >= src_len
}

impl CudaStream {
    pub closed spec fn handle(&self) -> usize {
        self.ptr
    }

    pub closed spec fn home(&self) -> CudaDevice {
        self.device
    }

    /// The call that creates a stream on `device`.
    pub fn creation_call(device: CudaDevice) -> (r: NativeCall)
        ensures
            r == (NativeCall::CreateStream { gpu_index: device.index() }),
    {
        NativeCall::CreateStream { gpu_index: device.gpu_index() }
    }

    /// Takes ownership of the native stream `ptr`, created on `device`.
    pub fn new_unchecked(device: CudaDevice, ptr: usize) -> (r: Self)
        ensures
            r.handle() == ptr,
            r.home() == device,
    {
        CudaStream { ptr, device }
    }

    pub fn as_c_ptr(&self) -> (r: usize)
        ensures
            r == self.handle(),
    {
        self.ptr
    }

    pub fn as_mut_c_ptr(&mut self) -> (r: usize)
        ensures
            r == old(self).handle(),
            *final(self) == *old(self),
    {
        self.ptr
    }

    pub fn device(&self) -> (r: CudaDevice)
        ensures
            r == self.home(),
    {
        self.device
    }

    /// The call that waits for all work issued on this stream.
    pub fn synchronize(&self) -> (r: NativeCall)
        ensures
            r == (NativeCall::SynchronizeStream { stream: self.handle() }),
    {
        NativeCall::SynchronizeStream { stream: self.ptr }
    }

    /// Consumes the stream and gives the calls that tear it down: it is
    /// synchronized, then destroyed.
    pub fn teardown(self) -> (r: Vec<NativeCall>)
        ensures
            r@ == seq![
                NativeCall::SynchronizeStream { stream: self.handle() },
                NativeCall::DestroyStream { stream: self.handle() },
            ],
    {
        let mut calls: Vec<NativeCall> = Vec::new();
        calls.push(self.synchronize());
        calls.push(NativeCall::DestroyStream { stream: self.ptr });
        calls
    }

    /// The call that allocates `elements` words on this stream.
    pub fn malloc_async(&self, elements: u32) -> (r: NativeCall)
        ensures
            r == (NativeCall::MallocAsync { size: bytes(elements as nat), stream: self.handle() }),
    {
        NativeCall::MallocAsync { size: elements as u64 * WORD_BYTES, stream: self.ptr }
    }

    /// The buffer of `elements` words that an allocation of this stream gave
    /// at `ptr`.
    pub fn allocated(&self, ptr: usize, elements: u32) -> (r: CudaVec)
        ensures
            r.wf(),
            r.addr() == ptr,
            r.size() == elements,
            r.home() == self.home(),
    {
        CudaVec::new(CudaPtr::new(ptr, self.device), elements as usize, self.device)
    }

    /// The call that sets every byte of `dest` to the low byte of `value`.
    pub fn memset_async(&self, dest: &CudaVec, value: u64) -> (r: NativeCall)
        requires
            dest.wf(),
        ensures
            r == (NativeCall::MemsetAsync {
                dest: dest.addr(),
                value,
                size: bytes(dest.size()),
                stream: self.handle(),
            }),
    {
        NativeCall::MemsetAsync {
            dest: dest.as_c_ptr(),
            value,
            size: dest.len() as u64 * WORD_BYTES,
            stream: self.ptr,
        }
    }

    /// The call that copies all of `src` from the host to the front of
    /// `dest`, which must be large enough.
    pub fn copy_to_gpu_async(&self, dest: &CudaVec, src: &[u64]) -> (r: NativeCall)
        requires
            dest.wf(),
            fits(dest.size(), src@.len()),
        ensures
            r == (NativeCall::MemcpyToGpu {
                dest: dest.addr(),
                size: bytes(src@.len()),
                stream: self.handle(),
            }),
    {
        let src_len = src.len();
        let dest_len = dest.len();
        assert(src_len <= dest_len);
        NativeCall::MemcpyToGpu {
            dest: dest.as_c_ptr(),
            size: src_len as u64 * WORD_BYTES,
            stream: self.ptr,
        }
    }

    /// The call that copies all of `src` to the front of `dest`, on the
    /// device; `dest` must be large enough.
    pub fn copy_gpu_to_gpu_async(&self, dest: &CudaVec, src: &CudaVec) -> (r: NativeCall)
        requires
            dest.wf(),
            src.wf(),
            fits(dest.size(), src.size()),
        ensures
            r == (NativeCall::MemcpyGpuToGpu {
                dest: dest.addr(),
                src: src.addr(),
                size: bytes(src.size()),
                stream: self.handle(),
            }),
    {
        NativeCall::MemcpyGpuToGpu {
            dest: dest.as_c_ptr(),
            src: src.as_c_ptr(),
            size: src.len() as u64 * WORD_BYTES,
            stream: self.ptr,
        }
    }

    /// The call that copies all of `src` from the device to the front of the
    /// host buffer `dest`, which must be large enough.
    pub fn copy_to_cpu_async(&self, dest: &[u64], src: &CudaVec) -> (r: NativeCall)
        requires
            src.wf(),
            fits(dest@.len(), src.size()),
        ensures
            r == (NativeCall::MemcpyToCpu {
                src: src.addr(),
                size: bytes(src.size()),
                stream: self.handle(),
            }),
    {
        NativeCall::MemcpyToCpu {
            src: src.as_c_ptr(),
            size: src.len() as u64 * WORD_BYTES,
            stream: self.ptr,
        }
    }
}

} // verus!
