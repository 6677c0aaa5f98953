use std::collections::HashMap;

use tfhe_gpu::device::CudaDevice;
use tfhe_gpu::memory::{CudaPtr, CudaVec};
use tfhe_gpu::native::NativeCall;
use tfhe_gpu::params::{
    DecompositionBaseLog, DecompositionLevelCount, GlweDimension, LweBskGroupingFactor,
    LweCiphertextIndex, LweDimension, PolynomialSize,
};
use tfhe_gpu::stream::{capacity_fits, CudaStream};

/// Device memory of a simulated accelerator, enough for the memory calls and
/// the addition kernel.
struct SimDevice {
    next: usize,
    buffers: HashMap<usize, Vec<u64>>,
    log: Vec<NativeCall>,
}

impl SimDevice {
    fn new() -> Self {
        SimDevice { next: 0x1000, buffers: HashMap::new(), log: Vec::new() }
    }

    fn allocate(&mut self, stream: &CudaStream, elements: u32) -> CudaVec {
        let call = stream.malloc_async(elements);
        match call {
            NativeCall::MallocAsync { size, .. } => {
                let addr = self.next;
                self.next += 0x1000 + size as usize;
                self.buffers.insert(addr, vec![0xdead_beef; (size / 8) as usize]);
                self.log.push(call);
                stream.allocated(addr, elements)
            }
            other => panic!("unexpected call {:?}", other),
        }
    }

    fn run(&mut self, call: NativeCall, host_in: &[u64], host_out: &mut [u64]) {
        self.log.push(call);
        match call {
            NativeCall::MemsetAsync { dest, value, size, .. } => {
                let byte = value & 0xff;
                let word = byte * 0x0101_0101_0101_0101;
                let buf = self.buffers.get_mut(&dest).unwrap();
                for w in buf.iter_mut().take((size / 8) as usize) {
                    *w = word;
                }
            }
            NativeCall::MemcpyToGpu { dest, size, .. } => {
                let buf = self.buffers.get_mut(&dest).unwrap();
                let n = (size / 8) as usize;
                buf[..n].copy_from_slice(&host_in[..n]);
            }
            NativeCall::MemcpyToCpu { src, size, .. } => {
                let n = (size / 8) as usize;
                host_out[..n].copy_from_slice(&self.buffers[&src][..n]);
            }
            NativeCall::MemcpyGpuToGpu { dest, src, size, .. } => {
                let n = (size / 8) as usize;
                let data: Vec<u64> = self.buffers[&src][..n].to_vec();
                self.buffers.get_mut(&dest).unwrap()[..n].copy_from_slice(&data);
            }
            NativeCall::AddLweCiphertextVector {
                lwe_array_out,
                lwe_array_in_1,
                lwe_array_in_2,
                input_lwe_dimension,
                input_lwe_ciphertext_count,
                ..
            } => {
                let n = ((input_lwe_dimension + 1) * input_lwe_ciphertext_count) as usize;
                let a = self.buffers[&lwe_array_in_1].clone();
                let b = self.buffers[&lwe_array_in_2].clone();
                let out = self.buffers.get_mut(&lwe_array_out).unwrap();
                for i in 0..n {
                    out[i] = a[i].wrapping_add(b[i]);
                }
            }
            NativeCall::Free { ptr, .. } => {
                self.buffers.remove(&ptr).unwrap();
            }
            NativeCall::SynchronizeStream { .. }
            | NativeCall::SynchronizeDevice { .. }
            | NativeCall::DestroyStream { .. } => {}
            other => panic!("not simulated: {:?}", other),
        }
    }

    fn run_all(&mut self, calls: Vec<NativeCall>) {
        for c in calls {
            self.run(c, &[], &mut []);
        }
    }
}

fn stream_on(gpu_index: u32, handle: usize) -> CudaStream {
    CudaStream::new_unchecked(CudaDevice::new(gpu_index), handle)
}

#[test]
fn allocate_and_copy() {
    let vec = vec![1_u64, 2, 3, 4, 5, 6, 7, 8, 9, 10, 11, 12];
    let gpu_index: u32 = 0;
    let device = CudaDevice::new(gpu_index);
    let mut sim = SimDevice::new();
    let stream = CudaStream::new_unchecked(device, 0x77);
    let d_vec = sim.allocate(&stream, vec.len() as u32);
    let up = stream.copy_to_gpu_async(&d_vec, &vec);
    sim.run(up, &vec, &mut []);
    let mut empty = vec![0_u64; vec.len()];
    let down = stream.copy_to_cpu_async(&empty, &d_vec);
    sim.run(down, &[], &mut empty);
    sim.run(stream.synchronize(), &[], &mut []);
    assert_eq!(vec, empty);
}

#[test]
fn copy_calls_move_the_source_size() {
    let stream = stream_on(1, 0x50);
    let mut sim = SimDevice::new();
    let dest = sim.allocate(&stream, 10);
    let src = [5_u64, 6, 7];
    assert_eq!(
        stream.copy_to_gpu_async(&dest, &src),
        NativeCall::MemcpyToGpu { dest: dest.as_c_ptr(), size: 24, stream: 0x50 }
    );
    let small = sim.allocate(&stream, 4);
    assert_eq!(
        stream.copy_gpu_to_gpu_async(&dest, &small),
        NativeCall::MemcpyGpuToGpu {
            dest: dest.as_c_ptr(),
            src: small.as_c_ptr(),
            size: 32,
            stream: 0x50
        }
    );
    let host = [0_u64; 4];
    assert_eq!(
        stream.copy_to_cpu_async(&host, &small),
        NativeCall::MemcpyToCpu { src: small.as_c_ptr(), size: 32, stream: 0x50 }
    );
}

#[test]
fn capacity_guard_rejects_small_destinations() {
    assert!(capacity_fits(12, 12));
    assert!(capacity_fits(13, 12));
    assert!(!capacity_fits(11, 12));
    assert!(!capacity_fits(0, 1));
    assert!(capacity_fits(0, 0));
}

#[test]
fn fill_then_add_on_one_stream() {
    let stream = stream_on(0, 0x10);
    let mut sim = SimDevice::new();
    let dim = LweDimension(3);
    let count: u32 = 2;
    let n = 8;
    let mut acc = sim.allocate(&stream, n);
    let constant = sim.allocate(&stream, n);
    sim.run(stream.copy_to_gpu_async(&constant, &[7; 8]), &[7; 8], &mut []);
    sim.run(stream.memset_async(&acc, 0), &[], &mut []);
    let add = stream.add_lwe_ciphertext_vector_assign_async(&mut acc, &constant, dim, count);
    sim.run(add, &[], &mut []);
    sim.run(stream.synchronize(), &[], &mut []);
    let mut out = vec![0_u64; 8];
    sim.run(stream.copy_to_cpu_async(&out, &acc), &[], &mut out);
    assert_eq!(out, vec![7_u64; 8]);

    sim.run(stream.memset_async(&acc, u64::MAX), &[], &mut []);
    let add = stream.add_lwe_ciphertext_vector_assign_async(&mut acc, &constant, dim, count);
    sim.run(add, &[], &mut []);
    sim.run(stream.copy_to_cpu_async(&out, &acc), &[], &mut out);
    assert_eq!(out, vec![6_u64; 8]);
}

#[test]
fn fill_sets_every_byte() {
    let stream = stream_on(0, 0x10);
    let mut sim = SimDevice::new();
    let buf = sim.allocate(&stream, 2);
    let call = stream.memset_async(&buf, 0x1ab);
    assert_eq!(
        call,
        NativeCall::MemsetAsync { dest: buf.as_c_ptr(), value: 0x1ab, size: 16, stream: 0x10 }
    );
    sim.run(call, &[], &mut []);
    let mut out = vec![0_u64; 2];
    sim.run(stream.copy_to_cpu_async(&out, &buf), &[], &mut out);
    assert_eq!(out, vec![0xabab_abab_abab_abab_u64; 2]);
}

fn aliasing_case(count: u32) {
    let stream = stream_on(0, 0x20);
    let mut sim = SimDevice::new();
    let dim = LweDimension(1);
    let n = (dim.0 as u32 + 1) * count;
    let acc_data: Vec<u64> = (0..n as u64).map(|i| i.wrapping_mul(0x9e37_79b9_7f4a_7c15)).collect();
    let in_data: Vec<u64> = (0..n as u64).map(|i| u64::MAX - 3 * i).collect();
    let mut acc = sim.allocate(&stream, n);
    let acc_copy = sim.allocate(&stream, n);
    let input = sim.allocate(&stream, n);
    let mut out = sim.allocate(&stream, n);
    sim.run(stream.copy_to_gpu_async(&acc, &acc_data), &acc_data, &mut []);
    sim.run(stream.copy_gpu_to_gpu_async(&acc_copy, &acc), &[], &mut []);
    sim.run(stream.copy_to_gpu_async(&input, &in_data), &in_data, &mut []);

    let in_place = stream.add_lwe_ciphertext_vector_assign_async(&mut acc, &input, dim, count);
    let out_of_place =
        stream.add_lwe_ciphertext_vector_async(&mut out, &acc_copy, &input, dim, count);
    sim.run(in_place, &[], &mut []);
    sim.run(out_of_place, &[], &mut []);

    let mut a = vec![0_u64; n as usize];
    let mut b = vec![0_u64; n as usize];
    sim.run(stream.copy_to_cpu_async(&a, &acc), &[], &mut a);
    sim.run(stream.copy_to_cpu_async(&b, &out), &[], &mut b);
    assert_eq!(a, b);
    let expected: Vec<u64> =
        acc_data.iter().zip(in_data.iter()).map(|(x, y)| x.wrapping_add(*y)).collect();
    assert_eq!(a, expected);
}

#[test]
fn add_assign_matches_add_batch_of_one() {
    aliasing_case(1);
}

#[test]
fn add_assign_matches_add_batch_of_two() {
    aliasing_case(2);
}

#[test]
fn add_assign_matches_add_batch_of_thousand() {
    aliasing_case(1000);
}

#[test]
fn assign_forms_alias_the_accumulator() {
    let stream = stream_on(0, 0x30);
    let mut sim = SimDevice::new();
    let mut acc = sim.allocate(&stream, 6);
    let other = sim.allocate(&stream, 6);
    let a = acc.as_c_ptr();
    let o = other.as_c_ptr();
    let dim = LweDimension(2);
    assert_eq!(
        stream.negate_lwe_ciphertext_vector_assign_async(&mut acc, dim, 2),
        NativeCall::NegateLweCiphertextVector {
            stream: 0x30,
            lwe_array_out: a,
            lwe_array_in: a,
            input_lwe_dimension: 2,
            input_lwe_ciphertext_count: 2
        }
    );
    assert_eq!(
        stream.add_lwe_ciphertext_vector_plaintext_vector_assign_async(&mut acc, &other, dim, 2),
        NativeCall::AddLweCiphertextVectorPlaintextVector {
            stream: 0x30,
            lwe_array_out: a,
            lwe_array_in: a,
            plaintext_array_in: o,
            input_lwe_dimension: 2,
            input_lwe_ciphertext_count: 2
        }
    );
    assert_eq!(
        stream.mult_lwe_ciphertext_vector_cleartext_vector_assign_async(&mut acc, &other, dim, 2),
        NativeCall::MultLweCiphertextVectorCleartextVector {
            stream: 0x30,
            lwe_array_out: a,
            lwe_array_in: a,
            cleartext_array_in: o,
            input_lwe_dimension: 2,
            input_lwe_ciphertext_count: 2
        }
    );
    let mut out = sim.allocate(&stream, 6);
    let d = out.as_c_ptr();
    assert_eq!(
        stream.mult_lwe_ciphertext_vector_cleartext_vector(&mut out, &acc, &other, dim, 2),
        NativeCall::MultLweCiphertextVectorCleartextVector {
            stream: 0x30,
            lwe_array_out: d,
            lwe_array_in: a,
            cleartext_array_in: o,
            input_lwe_dimension: 2,
            input_lwe_ciphertext_count: 2
        }
    );
    assert_eq!(
        stream.negate_lwe_ciphertext_vector_async(&mut out, &acc, dim, 2),
        NativeCall::NegateLweCiphertextVector {
            stream: 0x30,
            lwe_array_out: d,
            lwe_array_in: a,
            input_lwe_dimension: 2,
            input_lwe_ciphertext_count: 2
        }
    );
    assert_eq!(
        stream.negate_integer_radix_assign_async(&mut acc, dim, 2, 4, 4),
        NativeCall::NegateIntegerRadixInplace {
            stream: 0x30,
            lwe_array: a,
            lwe_dimension: 2,
            lwe_ciphertext_count: 2,
            message_modulus: 4,
            carry_modulus: 4
        }
    );
}

#[test]
fn teardown_frees_only_the_released_buffer() {
    let device = CudaDevice::new(3);
    let s1 = CudaStream::new_unchecked(device, 0x1);
    let s2 = CudaStream::new_unchecked(device, 0x2);
    let mut sim = SimDevice::new();
    let mut kept = Vec::new();
    for i in 0..20_u64 {
        let stream = if i % 2 == 0 { &s1 } else { &s2 };
        let buf = sim.allocate(stream, 4);
        let data = [i, i + 1, i + 2, i + 3];
        sim.run(stream.copy_to_gpu_async(&buf, &data), &data, &mut []);
        kept.push((buf, data));
    }
    let mut live = Vec::new();
    for (i, (buf, data)) in kept.into_iter().enumerate() {
        if i % 3 == 0 {
            let addr = buf.as_c_ptr();
            let calls = buf.release();
            assert_eq!(calls[0], NativeCall::SynchronizeDevice { gpu_index: 3 });
            assert_eq!(calls[1], NativeCall::Free { ptr: addr, gpu_index: 3 });
            sim.run_all(calls);
            assert!(!sim.buffers.contains_key(&addr));
        } else {
            live.push((buf, data));
        }
    }
    for (buf, data) in &live {
        let mut out = [0_u64; 4];
        sim.run(s1.copy_to_cpu_async(&out, buf), &[], &mut out);
        assert_eq!(&out, data);
    }
    assert_eq!(sim.buffers.len(), live.len());
    let teardown = s2.teardown();
    assert_eq!(
        teardown,
        vec![NativeCall::SynchronizeStream { stream: 0x2 }, NativeCall::DestroyStream { stream: 0x2 }]
    );
    sim.run_all(teardown);
}

#[test]
fn pointer_release_synchronizes_its_device_first() {
    let ptr = CudaPtr::new(0xabc0, CudaDevice::new(5));
    assert_eq!(ptr.as_c_ptr(), 0xabc0);
    assert_eq!(ptr.device(), CudaDevice::new(5));
    assert_eq!(
        ptr.release(),
        vec![
            NativeCall::SynchronizeDevice { gpu_index: 5 },
            NativeCall::Free { ptr: 0xabc0, gpu_index: 5 }
        ]
    );
}

#[test]
fn device_and_stream_calls() {
    let device = CudaDevice::new(2);
    assert_eq!(device.gpu_index(), 2);
    assert_eq!(device.synchronize_device(), NativeCall::SynchronizeDevice { gpu_index: 2 });
    assert_eq!(device.get_max_shared_memory(), NativeCall::GetMaxSharedMemory { gpu_index: 2 });
    assert_eq!(device.get_number_of_gpus(), NativeCall::GetNumberOfGpus);
    assert_eq!(device.get_max_shared_memory(), device.get_max_shared_memory());
    assert_eq!(CudaStream::creation_call(device), NativeCall::CreateStream { gpu_index: 2 });
    let mut stream = CudaStream::new_unchecked(device, 0x99);
    assert_eq!(stream.as_c_ptr(), 0x99);
    assert_eq!(stream.as_mut_c_ptr(), 0x99);
    assert_eq!(stream.device(), device);
    assert_eq!(stream.synchronize(), NativeCall::SynchronizeStream { stream: 0x99 });
    assert_eq!(stream.malloc_async(12), NativeCall::MallocAsync { size: 96, stream: 0x99 });
    let buf = stream.allocated(0x4000, 12);
    assert_eq!(buf.len(), 12);
    assert!(!buf.is_empty());
    assert_eq!(buf.device(), device);
}

fn buffers(stream: &CudaStream, sim: &mut SimDevice, k: usize) -> Vec<CudaVec> {
    (0..k).map(|_| sim.allocate(stream, 4)).collect()
}

#[test]
fn low_latency_bootstrap_is_scratch_run_cleanup() {
    let stream = stream_on(0, 0x40);
    let mut sim = SimDevice::new();
    let mut b = buffers(&stream, &mut sim, 7);
    let addrs: Vec<usize> = b.iter().map(|v| v.as_c_ptr()).collect();
    let mut out = b.remove(0);
    let calls = stream.bootstrap_low_latency_async(
        &mut out,
        &b[0],
        &b[1],
        &b[2],
        &b[3],
        &b[4],
        &b[5],
        LweDimension(742),
        GlweDimension(1),
        PolynomialSize(2048),
        DecompositionBaseLog(23),
        DecompositionLevelCount(1),
        10,
        LweCiphertextIndex(0),
        49152,
    );
    assert_eq!(calls.len(), 3);
    assert_eq!(
        calls[0],
        NativeCall::ScratchBootstrapLowLatency {
            stream: 0x40,
            glwe_dimension: 1,
            polynomial_size: 2048,
            level_count: 1,
            input_lwe_ciphertext_count: 10,
            max_shared_memory: 49152,
            allocate_gpu_memory: true
        }
    );
    assert_eq!(
        calls[1],
        NativeCall::BootstrapLowLatency {
            stream: 0x40,
            lwe_array_out: addrs[0],
            lwe_output_indexes: addrs[1],
            lut_vector: addrs[2],
            lut_vector_indexes: addrs[3],
            lwe_array_in: addrs[4],
            lwe_input_indexes: addrs[5],
            bootstrapping_key: addrs[6],
            lwe_dimension: 742,
            glwe_dimension: 1,
            polynomial_size: 2048,
            base_log: 23,
            level: 1,
            num_samples: 10,
            num_lut_vectors: 10,
            lwe_idx: 0,
            max_shared_memory: 49152
        }
    );
    assert_eq!(calls[2], NativeCall::CleanupBootstrapLowLatency { stream: 0x40 });
}

#[test]
fn multi_bit_bootstrap_is_scratch_run_cleanup() {
    let stream = stream_on(0, 0x41);
    let mut sim = SimDevice::new();
    let mut b = buffers(&stream, &mut sim, 7);
    let addrs: Vec<usize> = b.iter().map(|v| v.as_c_ptr()).collect();
    let mut out = b.remove(0);
    let calls = stream.bootstrap_multi_bit_async(
        &mut out,
        &b[0],
        &b[1],
        &b[2],
        &b[3],
        &b[4],
        &b[5],
        LweDimension(888),
        GlweDimension(1),
        PolynomialSize(2048),
        DecompositionBaseLog(21),
        DecompositionLevelCount(1),
        LweBskGroupingFactor(3),
        4,
        LweCiphertextIndex(0),
        -1,
    );
    assert_eq!(
        calls,
        vec![
            NativeCall::ScratchMultiBit {
                stream: 0x41,
                lwe_dimension: 888,
                glwe_dimension: 1,
                polynomial_size: 2048,
                level_count: 1,
                grouping_factor: 3,
                input_lwe_ciphertext_count: 4,
                max_shared_memory: u32::MAX,
                allocate_gpu_memory: true,
                lwe_chunk_size: 0
            },
            NativeCall::BootstrapMultiBit {
                stream: 0x41,
                lwe_array_out: addrs[0],
                lwe_output_indexes: addrs[1],
                lut_vector: addrs[2],
                lut_vector_indexes: addrs[3],
                lwe_array_in: addrs[4],
                lwe_input_indexes: addrs[5],
                bootstrapping_key: addrs[6],
                lwe_dimension: 888,
                glwe_dimension: 1,
                polynomial_size: 2048,
                grouping_factor: 3,
                base_log: 21,
                level: 1,
                num_samples: 4,
                num_lut_vectors: 4,
                lwe_idx: 0,
                max_shared_memory: u32::MAX,
                lwe_chunk_size: 0
            },
            NativeCall::CleanupMultiBit { stream: 0x41 },
        ]
    );
}

#[test]
fn keyswitch_and_key_conversions() {
    let stream = stream_on(0, 0x42);
    let mut sim = SimDevice::new();
    let mut b = buffers(&stream, &mut sim, 5);
    let addrs: Vec<usize> = b.iter().map(|v| v.as_c_ptr()).collect();
    let mut out = b.remove(0);
    assert_eq!(
        stream.keyswitch_async(
            &mut out,
            &b[0],
            &b[1],
            &b[2],
            LweDimension(2048),
            LweDimension(742),
            &b[3],
            DecompositionBaseLog(3),
            DecompositionLevelCount(5),
            7
        ),
        NativeCall::Keyswitch {
            stream: 0x42,
            lwe_array_out: addrs[0],
            lwe_output_indexes: addrs[1],
            lwe_array_in: addrs[2],
            lwe_input_indexes: addrs[3],
            keyswitch_key: addrs[4],
            input_lwe_dimension: 2048,
            output_lwe_dimension: 742,
            base_log: 3,
            level_count: 5,
            num_samples: 7
        }
    );
    let key = [1_u64, 2, 3, 4];
    assert_eq!(
        stream.convert_lwe_keyswitch_key_async(&mut out, &key),
        NativeCall::MemcpyToGpu { dest: addrs[0], size: 32, stream: 0x42 }
    );
    assert_eq!(
        stream.convert_lwe_bootstrap_key_async(
            &mut out,
            &key,
            LweDimension(1),
            GlweDimension(1),
            DecompositionLevelCount(1),
            PolynomialSize(1)
        ),
        NativeCall::ConvertBootstrapKey {
            dest: addrs[0],
            stream: 0x42,
            input_lwe_dim: 1,
            glwe_dim: 1,
            level_count: 1,
            polynomial_size: 1
        }
    );
    assert_eq!(
        stream.convert_lwe_multi_bit_bootstrap_key_async(
            &mut out,
            &key,
            LweDimension(2),
            GlweDimension(1),
            DecompositionLevelCount(1),
            PolynomialSize(1),
            LweBskGroupingFactor(2)
        ),
        NativeCall::ConvertMultiBitBootstrapKey {
            dest: addrs[0],
            stream: 0x42,
            input_lwe_dim: 2,
            glwe_dim: 1,
            level_count: 1,
            polynomial_size: 1,
            grouping_factor: 2
        }
    );
}
