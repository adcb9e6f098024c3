//! The Ed25519 signing key: derivation from a seed, deterministic signing,
//! seed extraction, zeroization, and the laws that hold of them.

use vstd::prelude::*;
use vstd::slice::slice_to_vec;
use crate::crypto;
use crate::errors::Error;

verus! {

/// Ed25519 clamping of a 32-byte scalar encoding: the low three bits of
/// byte 0 are cleared, bit 7 of byte 31 is cleared, bit 6 of byte 31 is set.
pub open spec fn spec_clamp(h: Seq<u8>) -> Seq<u8> {
    h.update(0, h[0] & 248).update(31, (h[31] & 127) | 64)
}

/// The clamped scalar derived from a seed: the low 32 bytes of the seed's
/// SHA-512 digest, clamped.
pub open spec fn spec_scalar_bytes(seed: Seq<u8>) -> Seq<u8> {
    spec_clamp(crypto::sha512_of(seed).take(32))
}

/// The nonce-generation prefix derived from a seed: the high 32 bytes of
/// the seed's SHA-512 digest, verbatim.
pub open spec fn spec_prefix_bytes(seed: Seq<u8>) -> Seq<u8> {
    crypto::sha512_of(seed).skip(32)
}

/// The compressed public key derived from a seed: the base point times the
/// clamped scalar.
pub open spec fn spec_public_bytes(seed: Seq<u8>) -> Seq<u8> {
    crypto::base_mul_compressed_of(spec_scalar_bytes(seed))
}

/// The compressed negation of the public-key point derived from a seed.
pub open spec fn spec_neg_public_bytes(seed: Seq<u8>) -> Seq<u8> {
    crypto::base_mul_neg_compressed_of(spec_scalar_bytes(seed))
}

/// The nonce scalar used to sign `msg` under the key derived from `seed`:
/// SHA-512 of the prefix followed by the message, reduced to a scalar.
pub open spec fn spec_nonce_bytes(seed: Seq<u8>, msg: Seq<u8>) -> Seq<u8> {
    crypto::scalar_reduce_wide_of(crypto::sha512_of(spec_prefix_bytes(seed) + msg))
}

/// The first half of a signature on `msg` under the key derived from
/// `seed`: the compressed encoding of the nonce times the base point.
pub open spec fn spec_sig_r_bytes(seed: Seq<u8>, msg: Seq<u8>) -> Seq<u8> {
    crypto::base_mul_compressed_of(spec_nonce_bytes(seed, msg))
}

/// The challenge scalar: SHA-512 over the signature's first half, the
/// public key, and the message, reduced to a scalar.
pub open spec fn spec_challenge_bytes(seed: Seq<u8>, msg: Seq<u8>) -> Seq<u8> {
    crypto::scalar_reduce_wide_of(
        crypto::sha512_of(spec_sig_r_bytes(seed, msg) + spec_public_bytes(seed) + msg),
    )
}

/// The second half of a signature: the nonce plus the challenge times the
/// private scalar, modulo the group order.
pub open spec fn spec_sig_s_bytes(seed: Seq<u8>, msg: Seq<u8>) -> Seq<u8> {
    crypto::scalar_add_of(
        spec_nonce_bytes(seed, msg),
        crypto::scalar_mul_of(spec_challenge_bytes(seed, msg), spec_scalar_bytes(seed)),
    )
}

/// The verification (public) key that belongs to a signing key: the
/// compressed public-key point, and its cached negation, which a verifier
/// can reuse.
pub struct VerificationKey {
    /// The compressed encoding of the public-key point.
    pub a_bytes: Vec<u8>,
    /// The compressed encoding of the negation of the public-key point.
    pub minus_a_bytes: Vec<u8>,
}

/// A 64-byte Ed25519 signature: the compressed nonce point followed by the
/// response scalar.
pub struct Signature {
    /// The compressed encoding of the nonce point (the wire format's first
    /// 32 bytes).
    pub r_bytes: Vec<u8>,
    /// The canonical encoding of the response scalar (the last 32 bytes).
    pub s_bytes: Vec<u8>,
}

impl Signature {
    /// Both halves have their wire length.
    pub open spec fn wf(&self) -> bool {
        self.r_bytes@.len() == 32 && self.s_bytes@.len() == 32
    }

    /// The 64-byte wire encoding: the first half followed by the second.
    pub fn to_bytes(&self) -> (r: Vec<u8>)
        ensures
            r@ == self.r_bytes@ + self.s_bytes@,
    {
        let mut out: Vec<u8> = Vec::new();
        out.extend_from_slice(self.r_bytes.as_slice());
        out.extend_from_slice(self.s_bytes.as_slice());
        proof {
            assert(out@ =~= self.r_bytes@ + self.s_bytes@);
        }
        out
    }
}

/// An Ed25519 signing key: the seed, the clamped private scalar, the
/// nonce-generation prefix, and the cached verification key, all
/// deterministic functions of the seed.
///
/// The secret fields are private; they leave the type only through
/// [`SigningKey::extract_seed`] and the explicitly-hex, documented-as-secret
/// [`SigningKey::seed_hex`].
pub struct SigningKey {
    seed: Vec<u8>,
    s: Vec<u8>,
    prefix: Vec<u8>,
    vk: VerificationKey,
}

impl SigningKey {
    /// The stored seed.
    pub closed spec fn spec_seed(&self) -> Seq<u8> {
        self.seed@
    }

    /// The stored clamped scalar encoding.
    pub closed spec fn spec_scalar(&self) -> Seq<u8> {
        self.s@
    }

    /// The stored nonce-generation prefix.
    pub closed spec fn spec_prefix(&self) -> Seq<u8> {
        self.prefix@
    }

    /// The stored compressed public key.
    pub closed spec fn spec_vk_bytes(&self) -> Seq<u8> {
        self.vk.a_bytes@
    }

    /// The stored compressed negation of the public-key point.
    pub closed spec fn spec_vk_neg_bytes(&self) -> Seq<u8> {
        self.vk.minus_a_bytes@
    }

    /// Well-formedness: every stored field is the deterministic derivation
    /// of the stored 32-byte seed.
    pub open spec fn wf(&self) -> bool {
        &&& self.spec_seed().len() == 32
        &&& crypto::sha512_of(self.spec_seed()).len() == 64
        &&& self.spec_scalar() == spec_scalar_bytes(self.spec_seed())
        &&& self.spec_prefix() == spec_prefix_bytes(self.spec_seed())
        &&& self.spec_vk_bytes() == spec_public_bytes(self.spec_seed())
        &&& self.spec_vk_neg_bytes() == spec_neg_public_bytes(self.spec_seed())
        &&& self.spec_scalar().len() == 32
        &&& self.spec_prefix().len() == 32
        &&& self.spec_vk_bytes().len() == 32
        &&& self.spec_vk_neg_bytes().len() == 32
    }

    /// Derive a signing key from a 32-byte seed: expand the seed with
    /// SHA-512, clamp the low half into the private scalar, keep the high
    /// half as the nonce prefix, and cache the compressed public-key point
    /// together with its negation. Deterministic and total on 32-byte
    /// seeds.
    pub fn from_seed(seed: &[u8]) -> (k: SigningKey)
        requires
            seed@.len() == 32,
        ensures
            k.wf(),
            k.spec_seed() == seed@,
    {
        let h = crypto::sha512(seed);
        let mut s: Vec<u8> = Vec::new();
        let mut i: usize = 0;
        while i < 32
            invariant
                i <= 32,
                h@ == crypto::sha512_of(seed@),
                h@.len() == 64,
                s@.len() == i,
                forall|j: int| 0 <= j < i ==> s@[j] == spec_scalar_bytes(seed@)[j],
            decreases 32 - i,
        {
            let mut b = h[i];
            if i == 0 {
                b = b & 248;
            }
            if i == 31 {
                b = (b & 127) | 64;
            }
            s.push(b);
            i = i + 1;
        }
        proof {
            assert(s@ =~= spec_scalar_bytes(seed@));
        }
        let mut prefix: Vec<u8> = Vec::new();
        let mut j: usize = 0;
        while j < 32
            invariant
                j <= 32,
                h@ == crypto::sha512_of(seed@),
                h@.len() == 64,
                prefix@.len() == j,
                forall|t: int| 0 <= t < j ==> prefix@[t] == h@[32 + t],
            decreases 32 - j,
        {
            prefix.push(h[32 + j]);
            j = j + 1;
        }
        proof {
            assert(prefix@ =~= spec_prefix_bytes(seed@));
        }
        let a_bytes = crypto::base_mul_compressed(s.as_slice());
        let minus_a_bytes = crypto::base_mul_neg_compressed(s.as_slice());
        SigningKey {
            seed: slice_to_vec(seed),
            s,
            prefix,
            vk: VerificationKey { a_bytes, minus_a_bytes },
        }
    }

    /// Build a signing key from a raw byte slice: succeeds exactly when the
    /// slice is 32 bytes long; any other length is rejected with
    /// [`Error::InvalidSliceLength`].
    pub fn try_from_slice(bytes: &[u8]) -> (r: Result<SigningKey, Error>)
        ensures
            match r {
                Ok(k) => bytes@.len() == 32 && k.wf() && k.spec_seed() == bytes@,
                Err(e) => bytes@.len() != 32 && e == Error::InvalidSliceLength,
            },
    {
        if bytes.len() == 32 {
            Ok(SigningKey::from_seed(bytes))
        } else {
            Err(Error::InvalidSliceLength)
        }
    }

    /// Generate a new signing key from 32 bytes drawn from the caller's
    /// cryptographically secure randomness source.
    pub fn new<R: rand_core::CryptoRng>(mut rng: R) -> (k: SigningKey)
        ensures
            k.wf(),
    {
        let seed = crypto::random_seed(&mut rng);
        SigningKey::from_seed(seed.as_slice())
    }

    /// The 32-byte seed, extracted losslessly.
    pub fn extract_seed(&self) -> (r: Vec<u8>)
        ensures
            r@ == self.spec_seed(),
    {
        slice_to_vec(self.seed.as_slice())
    }

    /// The verification key that belongs to this signing key.
    pub fn verification_key(&self) -> (r: &VerificationKey)
        ensures
            r.a_bytes@ == self.spec_vk_bytes(),
            r.minus_a_bytes@ == self.spec_vk_neg_bytes(),
    {
        &self.vk
    }

    /// The compressed public key, as bytes.
    pub fn verification_key_bytes(&self) -> (r: Vec<u8>)
        ensures
            r@ == self.spec_vk_bytes(),
    {
        slice_to_vec(self.vk.a_bytes.as_slice())
    }

    /// The seed rendered as lowercase hexadecimal. The rendering is
    /// reversible: it is key material, offered only for deliberate,
    /// documented-as-secret introspection, and must be kept out of logs.
    pub fn seed_hex(&self) -> (r: String)
        ensures
            r@ == crypto::spec_hex(self.spec_seed()),
    {
        crypto::hex_encode(self.seed.as_slice())
    }

    /// The nonce-generation prefix rendered as lowercase hexadecimal. Like
    /// the seed's rendering, it is reversible secret material — leaking it
    /// lets any single signature give up the key — offered only for
    /// deliberate, documented-as-secret introspection, and must be kept out
    /// of logs.
    pub fn prefix_hex(&self) -> (r: String)
        ensures
            r@ == crypto::spec_hex(self.spec_prefix()),
    {
        crypto::hex_encode(self.prefix.as_slice())
    }

    /// Create a deterministic signature on `msg`: the nonce is SHA-512 of
    /// the prefix and the message reduced to a scalar, the signature's
    /// first half is the nonce times the base point, and its second half is
    /// the nonce plus the challenge times the private scalar.
    pub fn sign(&self, msg: &[u8]) -> (sig: Signature)
        requires
            self.wf(),
        ensures
            sig.r_bytes@ == spec_sig_r_bytes(self.spec_seed(), msg@),
            sig.s_bytes@ == spec_sig_s_bytes(self.spec_seed(), msg@),
            sig.wf(),
    {
        let mut pm: Vec<u8> = Vec::new();
        pm.extend_from_slice(self.prefix.as_slice());
        pm.extend_from_slice(msg);
        proof {
            assert(pm@ =~= spec_prefix_bytes(self.spec_seed()) + msg@);
        }
        let h1 = crypto::sha512(pm.as_slice());
        let r = crypto::scalar_reduce_wide(h1.as_slice());
        let big_r = crypto::base_mul_compressed(r.as_slice());
        let mut ram: Vec<u8> = Vec::new();
        ram.extend_from_slice(big_r.as_slice());
        ram.extend_from_slice(self.vk.a_bytes.as_slice());
        ram.extend_from_slice(msg);
        proof {
            assert(ram@ =~= spec_sig_r_bytes(self.spec_seed(), msg@)
                + spec_public_bytes(self.spec_seed()) + msg@);
        }
        let h2 = crypto::sha512(ram.as_slice());
        let k = crypto::scalar_reduce_wide(h2.as_slice());
        let ks = crypto::scalar_mul(k.as_slice(), self.s.as_slice());
        let s_bytes = crypto::scalar_add(r.as_slice(), ks.as_slice());
        Signature { r_bytes: big_r, s_bytes }
    }

    /// Overwrite every secret-bearing field — the seed, the scalar, and the
    /// nonce-generation prefix — with zero bytes. The public key, public by
    /// definition, is left in place. The key is no longer usable
    /// afterwards; call this on every exit path of the scope that owns the
    /// key.
    pub fn zeroize(&mut self)
        ensures
            final(self).spec_seed().len() == old(self).spec_seed().len(),
            forall|i: int|
                0 <= i < final(self).spec_seed().len() ==> final(self).spec_seed()[i] == 0u8,
            final(self).spec_scalar().len() == old(self).spec_scalar().len(),
            forall|i: int|
                0 <= i < final(self).spec_scalar().len() ==> final(self).spec_scalar()[i] == 0u8,
            final(self).spec_prefix().len() == old(self).spec_prefix().len(),
            forall|i: int|
                0 <= i < final(self).spec_prefix().len() ==> final(self).spec_prefix()[i] == 0u8,
            final(self).spec_vk_bytes() == old(self).spec_vk_bytes(),
            final(self).spec_vk_neg_bytes() == old(self).spec_vk_neg_bytes(),
    {
        crypto::zeroize_bytes(&mut self.seed);
        crypto::zeroize_bytes(&mut self.s);
        crypto::zeroize_bytes(&mut self.prefix);
    }
}

/// Law: key derivation is deterministic. Two well-formed keys built from
/// equal seeds agree in every derived field — scalar, prefix, public key
/// and its negation. In particular, the raw round trip is lossless: a key
/// re-derived from an extracted seed reproduces every field of the
/// original.
pub proof fn lemma_equal_seeds_equal_keys(k1: SigningKey, k2: SigningKey)
    requires
        k1.wf(),
        k2.wf(),
        k1.spec_seed() == k2.spec_seed(),
    ensures
        k1.spec_scalar() == k2.spec_scalar(),
        k1.spec_prefix() == k2.spec_prefix(),
        k1.spec_vk_bytes() == k2.spec_vk_bytes(),
        k1.spec_vk_neg_bytes() == k2.spec_vk_neg_bytes(),
{
}

/// Law: signing is deterministic. The signature on a message under two
/// well-formed keys with equal seeds is byte-identical.
pub proof fn lemma_signing_deterministic(k1: SigningKey, k2: SigningKey, msg: Seq<u8>)
    requires
        k1.wf(),
        k2.wf(),
        k1.spec_seed() == k2.spec_seed(),
    ensures
        spec_sig_r_bytes(k1.spec_seed(), msg) == spec_sig_r_bytes(k2.spec_seed(), msg),
        spec_sig_s_bytes(k1.spec_seed(), msg) == spec_sig_s_bytes(k2.spec_seed(), msg),
{
}

/// Law: the clamping invariant. A well-formed key's scalar encoding has its
/// low three bits clear, bit 255 clear, and bit 254 set.
pub proof fn lemma_clamping_invariant(k: SigningKey)
    requires
        k.wf(),
    ensures
        k.spec_scalar()[0] & 0x07 == 0,
        k.spec_scalar()[31] & 0x80 == 0,
        k.spec_scalar()[31] & 0x40 == 0x40,
{
    let h32 = crypto::sha512_of(k.spec_seed()).take(32);
    assert(h32.len() == 32);
    assert(k.spec_scalar()[0] == h32[0] & 248);
    assert(k.spec_scalar()[31] == (h32[31] & 127) | 64);
    let x = h32[0];
    let y = h32[31];
    assert((x & 248) & 0x07 == 0) by (bit_vector);
    assert(((y & 127) | 64) & 0x80 == 0) by (bit_vector);
    assert(((y & 127) | 64) & 0x40 == 0x40) by (bit_vector);
}

} // verus!
