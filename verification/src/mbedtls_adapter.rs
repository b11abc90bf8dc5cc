//! What the mbedtls backend needs to know to size the buffers it hashes and signs into. The
//! backend itself, which calls mbedtls, plugs into the builders through `PkProvider` and
//! `SigningAdapter`; these are the plain values it works with.

use vstd::prelude::*;

verus! {

/// The number of bytes of a SHA-256 digest.
pub const SHA256_BYTE_LEN: usize = 32;

/// What signing with a key under a signature algorithm needs to know.
pub struct MbedtlsSignatureMeta {
    /// The largest signature the key can give under the algorithm: mbedtls signs into a buffer
    /// that must hold at least this many bytes.
    signature_max_len: usize,
}

impl MbedtlsSignatureMeta {
    pub closed spec fn spec_signature_max_len(&self) -> usize {
        self.signature_max_len
    }

    /// For ECDSA, where mbedtls gives `ecdsa_max_len` as the largest signature of any curve.
    pub fn ecdsa(ecdsa_max_len: usize) -> (r: Self)
        ensures r.spec_signature_max_len() == ecdsa_max_len,
    {
        MbedtlsSignatureMeta { signature_max_len: ecdsa_max_len }
    }

    /// For RSA with a key of `key_bits` bits: a signature is as long as the modulus, in whole
    /// bytes.
    pub fn rsa(key_bits: usize) -> (r: Self)
        ensures r.spec_signature_max_len() == (key_bits + 7) / 8,
    {
        let whole = key_bits / 8;
        let len = if key_bits % 8 == 0 { whole } else { whole + 1 };
        MbedtlsSignatureMeta { signature_max_len: len }
    }

    pub fn signature_max_len(&self) -> (r: usize)
        ensures r == self.spec_signature_max_len(),
    {
        self.signature_max_len
    }
}

/// What hashing with an algorithm needs to know.
pub struct MbedtlsHashMeta {
    /// The length of a digest: mbedtls hashes into a buffer that must hold this many bytes.
    hash_len: usize,
}

impl MbedtlsHashMeta {
    pub closed spec fn spec_hash_len(&self) -> usize {
        self.hash_len
    }

    /// For SHA-256.
    pub fn sha256() -> (r: Self)
        ensures r.spec_hash_len() == SHA256_BYTE_LEN,
    {
        MbedtlsHashMeta { hash_len: SHA256_BYTE_LEN }
    }

    pub fn hash_len(&self) -> (r: usize)
        ensures r == self.spec_hash_len(),
    {
        self.hash_len
    }
}

} // verus!
