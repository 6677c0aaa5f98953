//! The calls of the native backend, as values.
//!
//! Device buffers, streams and host buffers are named by their addresses.
//! Sizes are in bytes; dimensions and counts are unsigned 32-bit. A host
//! buffer that a call reads or fills is the one that the operation that
//! produced the call was given. The working memory of a bootstrap lives
//! between its scratch call and its cleanup call and is no caller's buffer.
use vstd::prelude::*;

verus! {

#[derive(Clone, Copy, Debug, PartialEq, Eq, Structural)]
pub enum NativeCall {
    CreateStream { gpu_index: u32 },
    DestroyStream { stream: usize },
    SynchronizeStream { stream: usize },
    SynchronizeDevice { gpu_index: u32 },
    GetMaxSharedMemory { gpu_index: u32 },
    GetNumberOfGpus,
    MallocAsync { size: u64, stream: usize },
    Free { ptr: usize, gpu_index: u32 },
    MemsetAsync { dest: usize, value: u64, size: u64, stream: usize },
    MemcpyToGpu { dest: usize, size: u64, stream: usize },
    MemcpyGpuToGpu { dest: usize, src: usize, size: u64, stream: usize },
    MemcpyToCpu { src: usize, size: u64, stream: usize },
    ScratchBootstrapLowLatency {
        stream: usize,
        glwe_dimension: u32,
        polynomial_size: u32,
        level_count: u32,
        input_lwe_ciphertext_count: u32,
        max_shared_memory: u32,
        allocate_gpu_memory: bool,
    },
    BootstrapLowLatency {
        stream: usize,
        lwe_array_out: usize,
        lwe_output_indexes: usize,
        lut_vector: usize,
        lut_vector_indexes: usize,
        lwe_array_in: usize,
        lwe_input_indexes: usize,
        bootstrapping_key: usize,
        lwe_dimension: u32,
        glwe_dimension: u32,
        polynomial_size: u32,
        base_log: u32,
        level: u32,
        num_samples: u32,
        num_lut_vectors: u32,
        lwe_idx: u32,
        max_shared_memory: u32,
    },
    CleanupBootstrapLowLatency { stream: usize },
    ScratchMultiBit {
        stream: usize,
        lwe_dimension: u32,
        glwe_dimension: u32,
        polynomial_size: u32,
        level_count: u32,
        grouping_factor: u32,
        input_lwe_ciphertext_count: u32,
        max_shared_memory: u32,
        allocate_gpu_memory: bool,
        lwe_chunk_size: u32,
    },
    BootstrapMultiBit {
        stream: usize,
        lwe_array_out: usize,
        lwe_output_indexes: usize,
        lut_vector: usize,
        lut_vector_indexes: usize,
        lwe_array_in: usize,
        lwe_input_indexes: usize,
        bootstrapping_key: usize,
        lwe_dimension: u32,
        glwe_dimension: u32,
        polynomial_size: u32,
        grouping_factor: u32,
        base_log: u32,
        level: u32,
        num_samples: u32,
        num_lut_vectors: u32,
        lwe_idx: u32,
        max_shared_memory: u32,
        lwe_chunk_size: u32,
    },
    CleanupMultiBit { stream: usize },
    Keyswitch {
        stream: usize,
        lwe_array_out: usize,
        lwe_output_indexes: usize,
        lwe_array_in: usize,
        lwe_input_indexes: usize,
        keyswitch_key: usize,
        input_lwe_dimension: u32,
        output_lwe_dimension: u32,
        base_log: u32,
        level_count: u32,
        num_samples: u32,
    },
    ConvertBootstrapKey {
        dest: usize,
        stream: usize,
        input_lwe_dim: u32,
        glwe_dim: u32,
        level_count: u32,
        polynomial_size: u32,
    },
    ConvertMultiBitBootstrapKey {
        dest: usize,
        stream: usize,
        input_lwe_dim: u32,
        glwe_dim: u32,
        level_count: u32,
        polynomial_size: u32,
        grouping_factor: u32,
    },
    AddLweCiphertextVector {
        stream: usize,
        lwe_array_out: usize,
        lwe_array_in_1: usize,
        lwe_array_in_2: usize,
        input_lwe_dimension: u32,
        input_lwe_ciphertext_count: u32,
    },
    AddLweCiphertextVectorPlaintextVector {
        stream: usize,
        lwe_array_out: usize,
        lwe_array_in: usize,
        plaintext_array_in: usize,
        input_lwe_dimension: u32,
        input_lwe_ciphertext_count: u32,
    },
    NegateLweCiphertextVector {
        stream: usize,
        lwe_array_out: usize,
        lwe_array_in: usize,
        input_lwe_dimension: u32,
        input_lwe_ciphertext_count: u32,
    },
    NegateIntegerRadixInplace {
        stream: usize,
        lwe_array: usize,
        lwe_dimension: u32,
        lwe_ciphertext_count: u32,
        message_modulus: u32,
        carry_modulus: u32,
    },
    MultLweCiphertextVectorCleartextVector {
        stream: usize,
        lwe_array_out: usize,
        lwe_array_in: usize,
        cleartext_array_in: usize,
        input_lwe_dimension: u32,
        input_lwe_ciphertext_count: u32,
    },
}

} // verus!
