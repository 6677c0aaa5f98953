//! Kernel dispatch on a stream: bootstraps, key switching, key conversion and
//! linear arithmetic on batches of LWE ciphertexts.
use vstd::prelude::*;

use crate::memory::CudaVec;
use crate::native::NativeCall;
use crate::params::{
    DecompositionBaseLog, DecompositionLevelCount, GlweDimension, LweBskGroupingFactor,
    LweCiphertextIndex, LweDimension, PolynomialSize,
};
use crate::stream::{bytes, fits, CudaStream};

verus! {

/// Chunk size handed to the multi-bit bootstrap: zero lets the backend pick.
pub const LWE_CHUNK_SIZE: u32 = 0;

impl CudaStream {
    /// A bootstrap with the low-latency kernel, in three calls: the scratch
    /// call sizes and allocates the working memory for `num_samples`
    /// ciphertexts, the run call reads it, the cleanup call frees it.
    pub fn bootstrap_low_latency_async(
        &self,
        lwe_array_out: &mut CudaVec,
        lwe_out_indexes: &CudaVec,
        test_vector: &CudaVec,
        test_vector_indexes: &CudaVec,
        lwe_array_in: &CudaVec,
        lwe_in_indexes: &CudaVec,
        bootstrapping_key: &CudaVec,
        lwe_dimension: LweDimension,
        glwe_dimension: GlweDimension,
        polynomial_size: PolynomialSize,
        base_log: DecompositionBaseLog,
        level: DecompositionLevelCount,
        num_samples: u32,
        lwe_idx: LweCiphertextIndex,
        max_shared_memory: i32,
    ) -> (r: Vec<NativeCall>)
        ensures
            *final(lwe_array_out) == *old(lwe_array_out),
            r@ == seq![
                NativeCall::ScratchBootstrapLowLatency {
                    stream: self.handle(),
                    glwe_dimension: glwe_dimension.0 as u32,
                    polynomial_size: polynomial_size.0 as u32,
                    level_count: level.0 as u32,
                    input_lwe_ciphertext_count: num_samples,
                    max_shared_memory: max_shared_memory as u32,
                    allocate_gpu_memory: true,
                },
                NativeCall::BootstrapLowLatency {
                    stream: self.handle(),
                    lwe_array_out: old(lwe_array_out).addr(),
                    lwe_output_indexes: lwe_out_indexes.addr(),
                    lut_vector: test_vector.addr(),
                    lut_vector_indexes: test_vector_indexes.addr(),
                    lwe_array_in: lwe_array_in.addr(),
                    lwe_input_indexes: lwe_in_indexes.addr(),
                    bootstrapping_key: bootstrapping_key.addr(),
                    lwe_dimension: lwe_dimension.0 as u32,
                    glwe_dimension: glwe_dimension.0 as u32,
                    polynomial_size: polynomial_size.0 as u32,
                    base_log: base_log.0 as u32,
                    level: level.0 as u32,
                    num_samples,
                    num_lut_vectors: num_samples,
                    lwe_idx: lwe_idx.0 as u32,
                    max_shared_memory: max_shared_memory as u32,
                },
                NativeCall::CleanupBootstrapLowLatency { stream: self.handle() },
            ],
    {
        let stream = self.as_c_ptr();
        let shared = max_shared_memory as u32;
        let mut calls: Vec<NativeCall> = Vec::new();
        calls.push(
            NativeCall::ScratchBootstrapLowLatency {
                stream,
                glwe_dimension: glwe_dimension.0 as u32,
                polynomial_size: polynomial_size.0 as u32,
                level_count: level.0 as u32,
                input_lwe_ciphertext_count: num_samples,
                max_shared_memory: shared,
                allocate_gpu_memory: true,
            },
        );
        calls.push(
            NativeCall::BootstrapLowLatency {
                stream,
                lwe_array_out: lwe_array_out.as_mut_c_ptr(),
                lwe_output_indexes: lwe_out_indexes.as_c_ptr(),
                lut_vector: test_vector.as_c_ptr(),
                lut_vector_indexes: test_vector_indexes.as_c_ptr(),
                lwe_array_in: lwe_array_in.as_c_ptr(),
                lwe_input_indexes: lwe_in_indexes.as_c_ptr(),
                bootstrapping_key: bootstrapping_key.as_c_ptr(),
                lwe_dimension: lwe_dimension.0 as u32,
                glwe_dimension: glwe_dimension.0 as u32,
                polynomial_size: polynomial_size.0 as u32,
                base_log: base_log.0 as u32,
                level: level.0 as u32,
                num_samples,
                num_lut_vectors: num_samples,
                lwe_idx: lwe_idx.0 as u32,
                max_shared_memory: shared,
            },
        );
        calls.push(NativeCall::CleanupBootstrapLowLatency { stream });
        calls
    }

    /// A bootstrap with the multi-bit kernel, in the same three calls as the
    /// low-latency one.
    pub fn bootstrap_multi_bit_async(
        &self,
        lwe_array_out: &mut CudaVec,
        output_indexes: &CudaVec,
        test_vector: &CudaVec,
        test_vector_indexes: &CudaVec,
        lwe_array_in: &CudaVec,
        input_indexes: &CudaVec,
        bootstrapping_key: &CudaVec,
        lwe_dimension: LweDimension,
        glwe_dimension: GlweDimension,
        polynomial_size: PolynomialSize,
        base_log: DecompositionBaseLog,
        level: DecompositionLevelCount,
        grouping_factor: LweBskGroupingFactor,
        num_samples: u32,
        lwe_idx: LweCiphertextIndex,
        max_shared_memory: i32,
    ) -> (r: Vec<NativeCall>)
        ensures
            *final(lwe_array_out) == *old(lwe_array_out),
            r@ == seq![
                NativeCall::ScratchMultiBit {
                    stream: self.handle(),
                    lwe_dimension: lwe_dimension.0 as u32,
                    glwe_dimension: glwe_dimension.0 as u32,
                    polynomial_size: polynomial_size.0 as u32,
                    level_count: level.0 as u32,
                    grouping_factor: grouping_factor.0 as u32,
                    input_lwe_ciphertext_count: num_samples,
                    max_shared_memory: max_shared_memory as u32,
                    allocate_gpu_memory: true,
                    lwe_chunk_size: LWE_CHUNK_SIZE,
                },
                NativeCall::BootstrapMultiBit {
                    stream: self.handle(),
                    lwe_array_out: old(lwe_array_out).addr(),
                    lwe_output_indexes: output_indexes.addr(),
                    lut_vector: test_vector.addr(),
                    lut_vector_indexes: test_vector_indexes.addr(),
                    lwe_array_in: lwe_array_in.addr(),
                    lwe_input_indexes: input_indexes.addr(),
                    bootstrapping_key: bootstrapping_key.addr(),
                    lwe_dimension: lwe_dimension.0 as u32,
                    glwe_dimension: glwe_dimension.0 as u32,
                    polynomial_size: polynomial_size.0 as u32,
                    grouping_factor: grouping_factor.0 as u32,
                    base_log: base_log.0 as u32,
                    level: level.0 as u32,
                    num_samples,
                    num_lut_vectors: num_samples,
                    lwe_idx: lwe_idx.0 as u32,
                    max_shared_memory: max_shared_memory as u32,
                    lwe_chunk_size: LWE_CHUNK_SIZE,
                },
                NativeCall::CleanupMultiBit { stream: self.handle() },
            ],
    {
        let stream = self.as_c_ptr();
        let shared = max_shared_memory as u32;
        let mut calls: Vec<NativeCall> = Vec::new();
        calls.push(
            NativeCall::ScratchMultiBit {
                stream,
                lwe_dimension: lwe_dimension.0 as u32,
                glwe_dimension: glwe_dimension.0 as u32,
                polynomial_size: polynomial_size.0 as u32,
                level_count: level.0 as u32,
                grouping_factor: grouping_factor.0 as u32,
                input_lwe_ciphertext_count: num_samples,
                max_shared_memory: shared,
                allocate_gpu_memory: true,
                lwe_chunk_size: LWE_CHUNK_SIZE,
            },
        );
        calls.push(
            NativeCall::BootstrapMultiBit {
                stream,
                lwe_array_out: lwe_array_out.as_mut_c_ptr(),
                lwe_output_indexes: output_indexes.as_c_ptr(),
                lut_vector: test_vector.as_c_ptr(),
                lut_vector_indexes: test_vector_indexes.as_c_ptr(),
                lwe_array_in: lwe_array_in.as_c_ptr(),
                lwe_input_indexes: input_indexes.as_c_ptr(),
                bootstrapping_key: bootstrapping_key.as_c_ptr(),
                lwe_dimension: lwe_dimension.0 as u32,
                glwe_dimension: glwe_dimension.0 as u32,
                polynomial_size: polynomial_size.0 as u32,
                grouping_factor: grouping_factor.0 as u32,
                base_log: base_log.0 as u32,
                level: level.0 as u32,
                num_samples,
                num_lut_vectors: num_samples,
                lwe_idx: lwe_idx.0 as u32,
                max_shared_memory: shared,
                lwe_chunk_size: LWE_CHUNK_SIZE,
            },
        );
        calls.push(NativeCall::CleanupMultiBit { stream });
        calls
    }

    /// A key switch of `num_samples` ciphertexts from `input_lwe_dimension`
    /// to `output_lwe_dimension`, in one call.
    pub fn keyswitch_async(
        &self,
        lwe_array_out: &mut CudaVec,
        lwe_out_indexes: &CudaVec,
        lwe_array_in: &CudaVec,
        lwe_in_indexes: &CudaVec,
        input_lwe_dimension: LweDimension,
        output_lwe_dimension: LweDimension,
        keyswitch_key: &CudaVec,
        base_log: DecompositionBaseLog,
        l_gadget: DecompositionLevelCount,
        num_samples: u32,
    ) -> (r: NativeCall)
        ensures
            *final(lwe_array_out) == *old(lwe_array_out),
            r == (NativeCall::Keyswitch {
                stream: self.handle(),
                lwe_array_out: old(lwe_array_out).addr(),
                lwe_output_indexes: lwe_out_indexes.addr(),
                lwe_array_in: lwe_array_in.addr(),
                lwe_input_indexes: lwe_in_indexes.addr(),
                keyswitch_key: keyswitch_key.addr(),
                input_lwe_dimension: input_lwe_dimension.0 as u32,
                output_lwe_dimension: output_lwe_dimension.0 as u32,
                base_log: base_log.0 as u32,
                level_count: l_gadget.0 as u32,
                num_samples,
            }),
    {
        NativeCall::Keyswitch {
            stream: self.as_c_ptr(),
            lwe_array_out: lwe_array_out.as_mut_c_ptr(),
            lwe_output_indexes: lwe_out_indexes.as_c_ptr(),
            lwe_array_in: lwe_array_in.as_c_ptr(),
            lwe_input_indexes: lwe_in_indexes.as_c_ptr(),
            keyswitch_key: keyswitch_key.as_c_ptr(),
            input_lwe_dimension: input_lwe_dimension.0 as u32,
            output_lwe_dimension: output_lwe_dimension.0 as u32,
            base_log: base_log.0 as u32,
            level_count: l_gadget.0 as u32,
            num_samples,
        }
    }

    /// A key-switching key needs no change of layout: it is copied from the
    /// host as it is.
    pub fn convert_lwe_keyswitch_key_async(&self, dest: &mut CudaVec, src: &[u64]) -> (r:
        NativeCall)
        requires
            old(dest).wf(),
            fits(old(dest).size(), src@.len()),
        ensures
            *final(dest) == *old(dest),
            r == (NativeCall::MemcpyToGpu {
                dest: old(dest).addr(),
                size: bytes(src@.len()),
                stream: self.handle(),
            }),
    {
        self.copy_to_gpu_async(dest, src)
    }

    /// The call that copies the bootstrapping key `src` from the host and
    /// brings it to the Fourier domain in `dest`, which holds exactly as many
    /// words.
    pub fn convert_lwe_bootstrap_key_async(
        &self,
        dest: &mut CudaVec,
        src: &[u64],
        input_lwe_dim: LweDimension,
        glwe_dim: GlweDimension,
        l_gadget: DecompositionLevelCount,
        polynomial_size: PolynomialSize,
    ) -> (r: NativeCall)
        requires
            old(dest).size() == src@.len(),
        ensures
            *final(dest) == *old(dest),
            r == (NativeCall::ConvertBootstrapKey {
                dest: old(dest).addr(),
                stream: self.handle(),
                input_lwe_dim: input_lwe_dim.0 as u32,
                glwe_dim: glwe_dim.0 as u32,
                level_count: l_gadget.0 as u32,
                polynomial_size: polynomial_size.0 as u32,
            }),
    {
        NativeCall::ConvertBootstrapKey {
            dest: dest.as_mut_c_ptr(),
            stream: self.as_c_ptr(),
            input_lwe_dim: input_lwe_dim.0 as u32,
            glwe_dim: glwe_dim.0 as u32,
            level_count: l_gadget.0 as u32,
            polynomial_size: polynomial_size.0 as u32,
        }
    }

    /// The call that copies the multi-bit bootstrapping key `src` from the
    /// host into the layout of the multi-bit kernel in `dest`, which holds
    /// exactly as many words.
    pub fn convert_lwe_multi_bit_bootstrap_key_async(
        &self,
        dest: &mut CudaVec,
        src: &[u64],
        input_lwe_dim: LweDimension,
        glwe_dim: GlweDimension,
        l_gadget: DecompositionLevelCount,
        polynomial_size: PolynomialSize,
        grouping_factor: LweBskGroupingFactor,
    ) -> (r: NativeCall)
        requires
            old(dest).size() == src@.len(),
        ensures
            *final(dest) == *old(dest),
            r == (NativeCall::ConvertMultiBitBootstrapKey {
                dest: old(dest).addr(),
                stream: self.handle(),
                input_lwe_dim: input_lwe_dim.0 as u32,
                glwe_dim: glwe_dim.0 as u32,
                level_count: l_gadget.0 as u32,
                polynomial_size: polynomial_size.0 as u32,
                grouping_factor: grouping_factor.0 as u32,
            }),
    {
        NativeCall::ConvertMultiBitBootstrapKey {
            dest: dest.as_mut_c_ptr(),
            stream: self.as_c_ptr(),
            input_lwe_dim: input_lwe_dim.0 as u32,
            glwe_dim: glwe_dim.0 as u32,
            level_count: l_gadget.0 as u32,
            polynomial_size: polynomial_size.0 as u32,
            grouping_factor: grouping_factor.0 as u32,
        }
    }
}

} // verus!
