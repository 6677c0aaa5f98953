//! A boolean ciphertext in its storage form.
//!
//! Compression happens only at encryption time; a compressed value must be
//! decompressed before it takes part in a computation.
use vstd::prelude::*;

use crate::params::LweDimension;

verus! {

/// The parameters a ciphertext must have to be accepted.
#[derive(Clone, Copy, Debug, PartialEq, Eq, Structural)]
pub struct CiphertextConformanceParams {
    pub lwe_dimension: LweDimension,
    pub message_modulus: u64,
    pub carry_modulus: u64,
    pub degree: u64,
}

/// A single-block ciphertext as it is stored: its words (mask, then body)
/// and the parameters of its encoding.
#[derive(Clone, Debug)]
pub struct CompressedCiphertext {
    pub words: Vec<u64>,
    pub degree: u64,
    pub message_modulus: u64,
    pub carry_modulus: u64,
}

/// A single-block ciphertext ready for computation.
#[derive(Clone, Debug)]
pub struct Ciphertext {
    pub words: Vec<u64>,
    pub degree: u64,
    pub message_modulus: u64,
    pub carry_modulus: u64,
}

/// A block that holds an encrypted boolean.
#[derive(Clone, Debug)]
pub struct BooleanBlock(pub Ciphertext);

/// An encrypted boolean.
#[derive(Clone, Debug)]
pub struct FheBool {
    pub ciphertext: BooleanBlock,
}

/// The stored and the usable form hold the same words and parameters.
pub open spec fn decompressed_from(r: Ciphertext, c: CompressedCiphertext) -> bool {
    &&& r.words@ == c.words@
    &&& r.degree == c.degree
    &&& r.message_modulus == c.message_modulus
    &&& r.carry_modulus == c.carry_modulus
}

/// A ciphertext of `params`: one mask word per LWE dimension and a body,
/// the same moduli, and a degree no larger than allowed.
pub open spec fn conforms(c: CompressedCiphertext, params: CiphertextConformanceParams) -> bool {
    &&& c.words@.len() == params.lwe_dimension.0 + 1
    &&& c.message_modulus == params.message_modulus
    &&& c.carry_modulus == params.carry_modulus
    &&& c.degree <= params.degree
}

impl CompressedCiphertext {
    pub fn decompress(&self) -> (r: Ciphertext)
        ensures
            decompressed_from(r, *self),
    {
        Ciphertext {
            words: self.words.clone(),
            degree: self.degree,
            message_modulus: self.message_modulus,
            carry_modulus: self.carry_modulus,
        }
    }

    pub fn is_conformant(&self, params: &CiphertextConformanceParams) -> (r: bool)
        ensures
            r == conforms(*self, *params),
    {
        let n = self.words.len();
        params.lwe_dimension.0 < usize::MAX && n == params.lwe_dimension.0 + 1
            && self.message_modulus == params.message_modulus && self.carry_modulus
            == params.carry_modulus && self.degree <= params.degree
    }
}

impl BooleanBlock {
    /// Wraps a ciphertext without checking that it encrypts a boolean.
    pub fn new_unchecked(ct: Ciphertext) -> (r: Self)
        ensures
            r.0 == ct,
    {
        BooleanBlock(ct)
    }
}

impl FheBool {
    pub fn new(ciphertext: BooleanBlock) -> (r: Self)
        ensures
            r.ciphertext == ciphertext,
    {
        FheBool { ciphertext }
    }
}

/// A compressed encryption of a boolean.
#[derive(Clone, Debug)]
pub struct CompressedFheBool {
    pub ciphertext: CompressedCiphertext,
}

impl CompressedFheBool {
    pub fn new(ciphertext: CompressedCiphertext) -> (r: Self)
        ensures
            r.ciphertext == ciphertext,
    {
        CompressedFheBool { ciphertext }
    }

    /// The usable form of this boolean.
    pub fn decompress(&self) -> (r: FheBool)
        ensures
            decompressed_from(r.ciphertext.0, self.ciphertext),
    {
        FheBool::new(BooleanBlock::new_unchecked(self.ciphertext.decompress()))
    }

    /// Whether the ciphertext has the parameters `params` asks for.
    pub fn is_conformant(&self, params: &CiphertextConformanceParams) -> (r: bool)
        ensures
            r == conforms(self.ciphertext, *params),
    {
        self.ciphertext.is_conformant(params)
    }
}

} // verus!
