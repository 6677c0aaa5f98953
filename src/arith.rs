//! Linear arithmetic on batches of LWE ciphertexts.
//!
//! Each operation has an out-of-place form and an in-place form. The in-place
//! form hands the accumulator to the kernel both as its output and as its
//! first input; the backend's linear kernels read each entry before they
//! write it, so this aliasing is sound for them.
use vstd::prelude::*;

use crate::memory::CudaVec;
use crate::native::NativeCall;
use crate::params::LweDimension;
use crate::stream::CudaStream;

verus! {

/// The addition kernel call: `out = in_1 + in_2`, entry by entry.
pub open spec fn add_call(
    stream: usize,
    out: usize,
    in_1: usize,
    in_2: usize,
    lwe_dimension: LweDimension,
    num_samples: u32,
) -> NativeCall {
    NativeCall::AddLweCiphertextVector {
        stream,
        lwe_array_out: out,
        lwe_array_in_1: in_1,
        lwe_array_in_2: in_2,
        input_lwe_dimension: lwe_dimension.0 as u32,
        input_lwe_ciphertext_count: num_samples,
    }
}

/// The kernel call that adds one plaintext to the body of each ciphertext.
pub open spec fn add_plaintext_call(
    stream: usize,
    out: usize,
    input: usize,
    plaintext: usize,
    lwe_dimension: LweDimension,
    num_samples: u32,
) -> NativeCall {
    NativeCall::AddLweCiphertextVectorPlaintextVector {
        stream,
        lwe_array_out: out,
        lwe_array_in: input,
        plaintext_array_in: plaintext,
        input_lwe_dimension: lwe_dimension.0 as u32,
        input_lwe_ciphertext_count: num_samples,
    }
}

/// The negation kernel call: `out = -input`, entry by entry.
pub open spec fn negate_call(
    stream: usize,
    out: usize,
    input: usize,
    lwe_dimension: LweDimension,
    num_samples: u32,
) -> NativeCall {
    NativeCall::NegateLweCiphertextVector {
        stream,
        lwe_array_out: out,
        lwe_array_in: input,
        input_lwe_dimension: lwe_dimension.0 as u32,
        input_lwe_ciphertext_count: num_samples,
    }
}

/// The kernel call that multiplies each ciphertext by its cleartext.
pub open spec fn mult_call(
    stream: usize,
    out: usize,
    input: usize,
    cleartext: usize,
    lwe_dimension: LweDimension,
    num_samples: u32,
) -> NativeCall {
    NativeCall::MultLweCiphertextVectorCleartextVector {
        stream,
        lwe_array_out: out,
        lwe_array_in: input,
        cleartext_array_in: cleartext,
        input_lwe_dimension: lwe_dimension.0 as u32,
        input_lwe_ciphertext_count: num_samples,
    }
}

impl CudaStream {
    /// `lwe_array_out = lwe_array_in_1 + lwe_array_in_2`.
    pub fn add_lwe_ciphertext_vector_async(
        &self,
        lwe_array_out: &mut CudaVec,
        lwe_array_in_1: &CudaVec,
        lwe_array_in_2: &CudaVec,
        lwe_dimension: LweDimension,
        num_samples: u32,
    ) -> (r: NativeCall)
        ensures
            *final(lwe_array_out) == *old(lwe_array_out),
            r == add_call(
                self.handle(),
                old(lwe_array_out).addr(),
                lwe_array_in_1.addr(),
                lwe_array_in_2.addr(),
                lwe_dimension,
                num_samples,
            ),
    {
        NativeCall::AddLweCiphertextVector {
            stream: self.as_c_ptr(),
            lwe_array_out: lwe_array_out.as_mut_c_ptr(),
            lwe_array_in_1: lwe_array_in_1.as_c_ptr(),
            lwe_array_in_2: lwe_array_in_2.as_c_ptr(),
            input_lwe_dimension: lwe_dimension.0 as u32,
            input_lwe_ciphertext_count: num_samples,
        }
    }

    /// `lwe_array_out = lwe_array_out + lwe_array_in`.
    pub fn add_lwe_ciphertext_vector_assign_async(
        &self,
        lwe_array_out: &mut CudaVec,
        lwe_array_in: &CudaVec,
        lwe_dimension: LweDimension,
        num_samples: u32,
    ) -> (r: NativeCall)
        ensures
            *final(lwe_array_out) == *old(lwe_array_out),
            r == add_call(
                self.handle(),
                old(lwe_array_out).addr(),
                old(lwe_array_out).addr(),
                lwe_array_in.addr(),
                lwe_dimension,
                num_samples,
            ),
    {
        let acc = lwe_array_out.as_mut_c_ptr();
        NativeCall::AddLweCiphertextVector {
            stream: self.as_c_ptr(),
            lwe_array_out: acc,
            lwe_array_in_1: acc,
            lwe_array_in_2: lwe_array_in.as_c_ptr(),
            input_lwe_dimension: lwe_dimension.0 as u32,
            input_lwe_ciphertext_count: num_samples,
        }
    }

    /// Adds `plaintext_in[i]` to the body of the `i`-th ciphertext of
    /// `lwe_array_in`, into `lwe_array_out`.
    pub fn add_lwe_ciphertext_vector_plaintext_vector_async(
        &self,
        lwe_array_out: &mut CudaVec,
        lwe_array_in: &CudaVec,
        plaintext_in: &CudaVec,
        lwe_dimension: LweDimension,
        num_samples: u32,
    ) -> (r: NativeCall)
        ensures
            *final(lwe_array_out) == *old(lwe_array_out),
            r == add_plaintext_call(
                self.handle(),
                old(lwe_array_out).addr(),
                lwe_array_in.addr(),
                plaintext_in.addr(),
                lwe_dimension,
                num_samples,
            ),
    {
        NativeCall::AddLweCiphertextVectorPlaintextVector {
            stream: self.as_c_ptr(),
            lwe_array_out: lwe_array_out.as_mut_c_ptr(),
            lwe_array_in: lwe_array_in.as_c_ptr(),
            plaintext_array_in: plaintext_in.as_c_ptr(),
            input_lwe_dimension: lwe_dimension.0 as u32,
            input_lwe_ciphertext_count: num_samples,
        }
    }

    /// Adds `plaintext_in[i]` to the body of the `i`-th ciphertext of
    /// `lwe_array_out`, in place.
    pub fn add_lwe_ciphertext_vector_plaintext_vector_assign_async(
        &self,
        lwe_array_out: &mut CudaVec,
        plaintext_in: &CudaVec,
        lwe_dimension: LweDimension,
        num_samples: u32,
    ) -> (r: NativeCall)
        ensures
            *final(lwe_array_out) == *old(lwe_array_out),
            r == add_plaintext_call(
                self.handle(),
                old(lwe_array_out).addr(),
                old(lwe_array_out).addr(),
                plaintext_in.addr(),
                lwe_dimension,
                num_samples,
            ),
    {
        let acc = lwe_array_out.as_mut_c_ptr();
        NativeCall::AddLweCiphertextVectorPlaintextVector {
            stream: self.as_c_ptr(),
            lwe_array_out: acc,
            lwe_array_in: acc,
            plaintext_array_in: plaintext_in.as_c_ptr(),
            input_lwe_dimension: lwe_dimension.0 as u32,
            input_lwe_ciphertext_count: num_samples,
        }
    }

    /// `lwe_array_out = -lwe_array_in`.
    pub fn negate_lwe_ciphertext_vector_async(
        &self,
        lwe_array_out: &mut CudaVec,
        lwe_array_in: &CudaVec,
        lwe_dimension: LweDimension,
        num_samples: u32,
    ) -> (r: NativeCall)
        ensures
            *final(lwe_array_out) == *old(lwe_array_out),
            r == negate_call(
                self.handle(),
                old(lwe_array_out).addr(),
                lwe_array_in.addr(),
                lwe_dimension,
                num_samples,
            ),
    {
        NativeCall::NegateLweCiphertextVector {
            stream: self.as_c_ptr(),
            lwe_array_out: lwe_array_out.as_mut_c_ptr(),
            lwe_array_in: lwe_array_in.as_c_ptr(),
            input_lwe_dimension: lwe_dimension.0 as u32,
            input_lwe_ciphertext_count: num_samples,
        }
    }

    /// `lwe_array_out = -lwe_array_out`.
    pub fn negate_lwe_ciphertext_vector_assign_async(
        &self,
        lwe_array_out: &mut CudaVec,
        lwe_dimension: LweDimension,
        num_samples: u32,
    ) -> (r: NativeCall)
        ensures
            *final(lwe_array_out) == *old(lwe_array_out),
            r == negate_call(
                self.handle(),
                old(lwe_array_out).addr(),
                old(lwe_array_out).addr(),
                lwe_dimension,
                num_samples,
            ),
    {
        let acc = lwe_array_out.as_mut_c_ptr();
        NativeCall::NegateLweCiphertextVector {
            stream: self.as_c_ptr(),
            lwe_array_out: acc,
            lwe_array_in: acc,
            input_lwe_dimension: lwe_dimension.0 as u32,
            input_lwe_ciphertext_count: num_samples,
        }
    }

    /// Negates, in place, a radix integer made of `num_samples` blocks with
    /// the given message and carry moduli.
    pub fn negate_integer_radix_assign_async(
        &self,
        lwe_array: &mut CudaVec,
        lwe_dimension: LweDimension,
        num_samples: u32,
        message_modulus: u32,
        carry_modulus: u32,
    ) -> (r: NativeCall)
        ensures
            *final(lwe_array) == *old(lwe_array),
            r == (NativeCall::NegateIntegerRadixInplace {
                stream: self.handle(),
                lwe_array: old(lwe_array).addr(),
                lwe_dimension: lwe_dimension.0 as u32,
                lwe_ciphertext_count: num_samples,
                message_modulus,
                carry_modulus,
            }),
    {
        NativeCall::NegateIntegerRadixInplace {
            stream: self.as_c_ptr(),
            lwe_array: lwe_array.as_mut_c_ptr(),
            lwe_dimension: lwe_dimension.0 as u32,
            lwe_ciphertext_count: num_samples,
            message_modulus,
            carry_modulus,
        }
    }

    /// Multiplies the `i`-th ciphertext of `lwe_array` by
    /// `cleartext_array_in[i]`, in place.
    pub fn mult_lwe_ciphertext_vector_cleartext_vector_assign_async(
        &self,
        lwe_array: &mut CudaVec,
        cleartext_array_in: &CudaVec,
        lwe_dimension: LweDimension,
        num_samples: u32,
    ) -> (r: NativeCall)
        ensures
            *final(lwe_array) == *old(lwe_array),
            r == mult_call(
                self.handle(),
                old(lwe_array).addr(),
                old(lwe_array).addr(),
                cleartext_array_in.addr(),
                lwe_dimension,
                num_samples,
            ),
    {
        let acc = lwe_array.as_mut_c_ptr();
        NativeCall::MultLweCiphertextVectorCleartextVector {
            stream: self.as_c_ptr(),
            lwe_array_out: acc,
            lwe_array_in: acc,
            cleartext_array_in: cleartext_array_in.as_c_ptr(),
            input_lwe_dimension: lwe_dimension.0 as u32,
            input_lwe_ciphertext_count: num_samples,
        }
    }

    /// Multiplies the `i`-th ciphertext of `lwe_array_in` by
    /// `cleartext_array_in[i]`, into `lwe_array_out`.
    pub fn mult_lwe_ciphertext_vector_cleartext_vector(
        &self,
        lwe_array_out: &mut CudaVec,
        lwe_array_in: &CudaVec,
        cleartext_array_in: &CudaVec,
        lwe_dimension: LweDimension,
        num_samples: u32,
    ) -> (r: NativeCall)
        ensures
            *final(lwe_array_out) == *old(lwe_array_out),
            r == mult_call(
                self.handle(),
                old(lwe_array_out).addr(),
                lwe_array_in.addr(),
                cleartext_array_in.addr(),
                lwe_dimension,
                num_samples,
            ),
    {
        NativeCall::MultLweCiphertextVectorCleartextVector {
            stream: self.as_c_ptr(),
            lwe_array_out: lwe_array_out.as_mut_c_ptr(),
            lwe_array_in: lwe_array_in.as_c_ptr(),
            cleartext_array_in: cleartext_array_in.as_c_ptr(),
            input_lwe_dimension: lwe_dimension.0 as u32,
            input_lwe_ciphertext_count: num_samples,
        }
    }
}

} // verus!
