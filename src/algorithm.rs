//! The supported algorithms and the sizes their native interfaces mandate.
use vstd::prelude::*;

verus! {

/// SHA-1 digest size in bytes.
pub const SHA_DIGEST_SIZE: usize = 20;
/// SHA-224 digest size in bytes.
pub const SHA224_DIGEST_SIZE: usize = 28;
/// SHA-256 digest size in bytes.
pub const SHA256_DIGEST_SIZE: usize = 32;
/// SHA-384 digest size in bytes.
pub const SHA384_DIGEST_SIZE: usize = 48;
/// SHA-512 digest size in bytes.
pub const SHA512_DIGEST_SIZE: usize = 64;
/// SHA3-224 digest size in bytes.
pub const SHA3_224_DIGEST_SIZE: usize = 28;
/// SHA3-256 digest size in bytes.
pub const SHA3_256_DIGEST_SIZE: usize = 32;
/// SHA3-384 digest size in bytes.
pub const SHA3_384_DIGEST_SIZE: usize = 48;
/// SHA3-512 digest size in bytes.
pub const SHA3_512_DIGEST_SIZE: usize = 64;
/// SHAKE128 squeeze block size in bytes (the sponge rate).
pub const SHAKE128_BLOCK_SIZE: usize = 168;
/// SHAKE256 squeeze block size in bytes (the sponge rate).
pub const SHAKE256_BLOCK_SIZE: usize = 136;

/// A hash function with a fixed digest size.
#[derive(Clone, Copy, Debug, PartialEq, Eq, Structural)]
pub enum HashAlgorithm {
    Sha1,
    Sha224,
    Sha256,
    Sha384,
    Sha512,
    Sha3_224,
    Sha3_256,
    Sha3_384,
    Sha3_512,
}

impl HashAlgorithm {
    /// The size in bytes of this algorithm's digest.
    pub open spec fn spec_digest_size(self) -> usize {
        match self {
            HashAlgorithm::Sha1 => SHA_DIGEST_SIZE,
            HashAlgorithm::Sha224 => SHA224_DIGEST_SIZE,
            HashAlgorithm::Sha256 => SHA256_DIGEST_SIZE,
            HashAlgorithm::Sha384 => SHA384_DIGEST_SIZE,
            HashAlgorithm::Sha512 => SHA512_DIGEST_SIZE,
            HashAlgorithm::Sha3_224 => SHA3_224_DIGEST_SIZE,
            HashAlgorithm::Sha3_256 => SHA3_256_DIGEST_SIZE,
            HashAlgorithm::Sha3_384 => SHA3_384_DIGEST_SIZE,
            HashAlgorithm::Sha3_512 => SHA3_512_DIGEST_SIZE,
        }
    }

    /// The size in bytes of this algorithm's digest.
    #[verifier::when_used_as_spec(spec_digest_size)]
    pub fn digest_size(self) -> (r: usize)
        ensures
            r == self.spec_digest_size(),
    {
        match self {
            HashAlgorithm::Sha1 => SHA_DIGEST_SIZE,
            HashAlgorithm::Sha224 => SHA224_DIGEST_SIZE,
            HashAlgorithm::Sha256 => SHA256_DIGEST_SIZE,
            HashAlgorithm::Sha384 => SHA384_DIGEST_SIZE,
            HashAlgorithm::Sha512 => SHA512_DIGEST_SIZE,
            HashAlgorithm::Sha3_224 => SHA3_224_DIGEST_SIZE,
            HashAlgorithm::Sha3_256 => SHA3_256_DIGEST_SIZE,
            HashAlgorithm::Sha3_384 => SHA3_384_DIGEST_SIZE,
            HashAlgorithm::Sha3_512 => SHA3_512_DIGEST_SIZE,
        }
    }
}

/// An extendable-output function, squeezed a whole block at a time.
#[derive(Clone, Copy, Debug, PartialEq, Eq, Structural)]
pub enum XofAlgorithm {
    Shake128,
    Shake256,
}

impl XofAlgorithm {
    /// The size in bytes of one squeezed block.
    pub open spec fn spec_block_size(self) -> usize {
        match self {
            XofAlgorithm::Shake128 => SHAKE128_BLOCK_SIZE,
            XofAlgorithm::Shake256 => SHAKE256_BLOCK_SIZE,
        }
    }

    /// The size in bytes of one squeezed block.
    #[verifier::when_used_as_spec(spec_block_size)]
    pub fn block_size(self) -> (r: usize)
        ensures
            r == self.spec_block_size(),
            r > 0,
    {
        match self {
            XofAlgorithm::Shake128 => SHAKE128_BLOCK_SIZE,
            XofAlgorithm::Shake256 => SHAKE256_BLOCK_SIZE,
        }
    }
}

} // verus!
