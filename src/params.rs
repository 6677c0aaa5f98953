//! Cryptographic parameters handed to the kernels. They are plain numeric
//! newtypes; the kernels take each of them as an unsigned 32-bit argument.
use vstd::prelude::*;

verus! {

/// Number of mask elements of an LWE ciphertext.
#[derive(Clone, Copy, Debug, PartialEq, Eq, Structural)]
pub struct LweDimension(pub usize);

/// Number of mask polynomials of a GLWE ciphertext.
#[derive(Clone, Copy, Debug, PartialEq, Eq, Structural)]
pub struct GlweDimension(pub usize);

/// Number of coefficients of a polynomial.
#[derive(Clone, Copy, Debug, PartialEq, Eq, Structural)]
pub struct PolynomialSize(pub usize);

/// Logarithm of the base of a gadget decomposition.
#[derive(Clone, Copy, Debug, PartialEq, Eq, Structural)]
pub struct DecompositionBaseLog(pub usize);

/// Number of levels of a gadget decomposition.
#[derive(Clone, Copy, Debug, PartialEq, Eq, Structural)]
pub struct DecompositionLevelCount(pub usize);

/// Number of key bits combined in one step of a multi-bit bootstrap.
#[derive(Clone, Copy, Debug, PartialEq, Eq, Structural)]
pub struct LweBskGroupingFactor(pub usize);

/// Number of LWE ciphertexts in a list.
#[derive(Clone, Copy, Debug, PartialEq, Eq, Structural)]
pub struct LweCiphertextCount(pub usize);

/// Position of an LWE ciphertext in a list.
#[derive(Clone, Copy, Debug, PartialEq, Eq, Structural)]
pub struct LweCiphertextIndex(pub usize);

/// Number of GLWE ciphertexts in a list.
#[derive(Clone, Copy, Debug, PartialEq, Eq, Structural)]
pub struct GlweCiphertextCount(pub usize);

/// Modulus of a ciphertext; zero stands for the native modulus of the
/// 64-bit integers.
#[derive(Clone, Copy, Debug, PartialEq, Eq, Structural)]
pub struct CiphertextModulus(pub u128);

} // verus!
