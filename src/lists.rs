//! Lists of ciphertexts held on a device.
use vstd::prelude::*;

use crate::memory::CudaVec;
use crate::params::{
    CiphertextModulus, GlweCiphertextCount, GlweDimension, LweCiphertextCount, LweDimension,
    PolynomialSize,
};

verus! {

/// LWE ciphertexts stored one after the other in one device buffer.
#[derive(Debug)]
pub struct CudaLweList {
    pub d_vec: CudaVec,
    pub lwe_ciphertext_count: LweCiphertextCount,
    pub lwe_dimension: LweDimension,
    pub ciphertext_modulus: CiphertextModulus,
}

/// GLWE ciphertexts stored one after the other in one device buffer.
#[derive(Debug)]
pub struct CudaGlweList {
    pub d_vec: CudaVec,
    pub glwe_ciphertext_count: GlweCiphertextCount,
    pub glwe_dimension: GlweDimension,
    pub polynomial_size: PolynomialSize,
    pub ciphertext_modulus: CiphertextModulus,
}

} // verus!
