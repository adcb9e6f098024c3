//! The private-key container codec: a signing key's seed wrapped in a DER
//! `PrivateKeyInfo` structure tagged with the Ed25519 algorithm identifier
//! (object identifier 1.3.101.112), and the decoder that takes it apart
//! again.
//!
//! Only this one fixed shape is in scope, so the format is handled as
//! explicit byte-level structure rather than through a general DER library:
//! a SEQUENCE holding the version INTEGER 0, the algorithm-identifier
//! SEQUENCE, and an OCTET STRING whose content is itself a 2-byte octet-
//! string framing (hex `04 20`) followed by the raw 32-byte seed.

use vstd::prelude::*;
use crate::errors::Error;
use crate::key::SigningKey;

verus! {

/// The DER encoding of the Ed25519 algorithm identifier's contents: the
/// object identifier 1.3.101.112 with the parameters field absent.
pub open spec fn spec_ed25519_alg_id() -> Seq<u8> {
    seq![0x06u8, 0x03u8, 0x2bu8, 0x65u8, 0x70u8]
}

/// Everything of a container that precedes the seed: the outer SEQUENCE
/// header, the version INTEGER 0, the Ed25519 algorithm identifier, the
/// private-key OCTET STRING header, and the inner octet-string framing.
pub open spec fn spec_der_prefix() -> Seq<u8> {
    seq![
        0x30u8, 0x2eu8,  // SEQUENCE, 46 content bytes
        0x02u8, 0x01u8, 0x00u8,  // INTEGER 0 (version)
        0x30u8, 0x05u8, 0x06u8, 0x03u8, 0x2bu8, 0x65u8, 0x70u8,  // algorithm identifier
        0x04u8, 0x22u8,  // OCTET STRING, 34 content bytes
        0x04u8, 0x20u8,  // inner framing: octet string of 32 bytes
    ]
}

/// The full 48-byte container for a seed.
pub open spec fn spec_der_of(seed: Seq<u8>) -> Seq<u8> {
    spec_der_prefix() + seed
}

/// The outer structure parses: a short-form SEQUENCE spanning the whole
/// input, the version INTEGER 0, and an algorithm-identifier SEQUENCE whose
/// contents lie within the input.
pub open spec fn spec_outer_wf(der: Seq<u8>) -> bool {
    &&& der.len() >= 7
    &&& der.len() <= 129
    &&& der[0] == 0x30
    &&& der[1] as int == der.len() - 2
    &&& der[2] == 0x02
    &&& der[3] == 0x01
    &&& der[4] == 0x00
    &&& der[5] == 0x30
    &&& 7 + (der[6] as int) <= der.len()
}

/// The algorithm-identifier SEQUENCE's contents, given a well-formed outer
/// structure.
pub open spec fn spec_alg_contents(der: Seq<u8>) -> Seq<u8> {
    der.subrange(7, 7 + (der[6] as int))
}

/// The position of the private-key OCTET STRING, given a well-formed outer
/// structure: right after the algorithm identifier.
pub open spec fn spec_key_field_pos(der: Seq<u8>) -> int {
    7 + (der[6] as int)
}

/// The private-key field parses: an OCTET STRING whose short-form length
/// spans exactly the rest of the input.
pub open spec fn spec_key_field_wf(der: Seq<u8>) -> bool {
    let p = spec_key_field_pos(der);
    &&& p + 2 <= der.len()
    &&& der[p] == 0x04
    &&& der[p + 1] as int == der.len() - p - 2
}

/// The private-key payload: the OCTET STRING's contents, holding the inner
/// framing and the seed.
pub open spec fn spec_payload(der: Seq<u8>) -> Seq<u8> {
    der.subrange(spec_key_field_pos(der) + 2, der.len() as int)
}

/// The payload's first two bytes are the inner octet-string framing,
/// hex `04 20`.
pub open spec fn spec_framing_ok(der: Seq<u8>) -> bool {
    let p = spec_key_field_pos(der);
    &&& der.len() - p - 2 >= 2
    &&& der[p + 2] == 0x04
    &&& der[p + 3] == 0x20
}

/// What decoding a byte string yields: the seed of a well-formed Ed25519
/// container, or the error that rejects it. A malformed outer structure or
/// payload is [`Error::MalformedContainer`]; an identifier other than
/// Ed25519's, inside a well-formed outer structure, is
/// [`Error::AlgorithmMismatch`].
pub open spec fn spec_decode(der: Seq<u8>) -> Result<Seq<u8>, Error> {
    if !spec_outer_wf(der) {
        Err(Error::MalformedContainer)
    } else if spec_alg_contents(der) != spec_ed25519_alg_id() {
        Err(Error::AlgorithmMismatch)
    } else if !spec_key_field_wf(der) {
        Err(Error::MalformedContainer)
    } else if !spec_framing_ok(der) {
        Err(Error::MalformedContainer)
    } else if spec_payload(der).len() != 34 {
        Err(Error::MalformedContainer)
    } else {
        Ok(spec_payload(der).skip(2))
    }
}

impl SigningKey {
    /// Encode this key's seed as a DER private-key container with the
    /// Ed25519 algorithm identifier: the fixed 16-byte prefix followed by
    /// the raw seed, 48 bytes in all.
    pub fn to_pkcs8_der(&self) -> (r: Vec<u8>)
        requires
            self.wf(),
        ensures
            r@ == spec_der_of(self.spec_seed()),
            r@.len() == 48,
    {
        let mut out: Vec<u8> = Vec::new();
        out.push(0x30);
        out.push(0x2e);
        out.push(0x02);
        out.push(0x01);
        out.push(0x00);
        out.push(0x30);
        out.push(0x05);
        out.push(0x06);
        out.push(0x03);
        out.push(0x2b);
        out.push(0x65);
        out.push(0x70);
        out.push(0x04);
        out.push(0x22);
        out.push(0x04);
        out.push(0x20);
        let seed = self.extract_seed();
        out.extend_from_slice(seed.as_slice());
        proof {
            assert(out@ =~= spec_der_of(self.spec_seed()));
        }
        out
    }

    /// Decode a DER private-key container: parse the outer structure,
    /// demand the Ed25519 algorithm identifier, strip the inner framing,
    /// and derive the full key from the remaining 32-byte seed. Returns
    /// exactly what [`spec_decode`] prescribes for the input: the derived
    /// key on a well-formed container, the prescribed error otherwise.
    pub fn from_pkcs8_der(der: &[u8]) -> (r: Result<SigningKey, Error>)
        ensures
            match r {
                Ok(k) => k.wf() && spec_decode(der@) == Ok::<Seq<u8>, Error>(k.spec_seed()),
                Err(e) => spec_decode(der@) == Err::<Seq<u8>, Error>(e),
            },
    {
        let n = der.len();
        if n < 7 || n > 129 {
            return Err(Error::MalformedContainer);
        }
        if der[0] != 0x30 || (der[1] as usize) != n - 2 {
            return Err(Error::MalformedContainer);
        }
        if der[2] != 0x02 || der[3] != 0x01 || der[4] != 0x00 {
            return Err(Error::MalformedContainer);
        }
        let alg_len = der[6] as usize;
        if der[5] != 0x30 || 7 + alg_len > n {
            return Err(Error::MalformedContainer);
        }
        // The outer structure is well-formed from here on.
        if alg_len != 5 || der[7] != 0x06 || der[8] != 0x03 || der[9] != 0x2b || der[10] != 0x65
            || der[11] != 0x70 {
            proof {
                lemma_alg_contents_mismatch(der@);
            }
            return Err(Error::AlgorithmMismatch);
        }
        proof {
            assert(spec_alg_contents(der@) =~= spec_ed25519_alg_id());
        }
        let p = 7 + alg_len;
        if p + 2 > n {
            return Err(Error::MalformedContainer);
        }
        if der[p] != 0x04 || (der[p + 1] as usize) != n - p - 2 {
            return Err(Error::MalformedContainer);
        }
        // The private-key field is well-formed from here on.
        if n - p - 2 < 2 || der[p + 2] != 0x04 || der[p + 3] != 0x20 {
            return Err(Error::MalformedContainer);
        }
        if n - p - 2 != 34 {
            return Err(Error::MalformedContainer);
        }
        let mut seed: Vec<u8> = Vec::new();
        let mut i: usize = 0;
        while i < 32
            invariant
                i <= 32,
                der@.len() == n,
                n == p + 36,
                p + 4 + 32 <= n,
                seed@.len() == i,
                forall|j: int| 0 <= j < i ==> seed@[j] == der@[p + 4 + j],
            decreases 32 - i,
        {
            seed.push(der[p + 4 + i]);
            i = i + 1;
        }
        proof {
            assert(seed@ =~= spec_payload(der@).skip(2));
        }
        let k = SigningKey::from_seed(seed.as_slice());
        Ok(k)
    }
}

/// If the algorithm-identifier SEQUENCE inside a well-formed outer
/// structure differs from Ed25519's in length or in any byte, its contents
/// differ from [`spec_ed25519_alg_id`].
proof fn lemma_alg_contents_mismatch(der: Seq<u8>)
    requires
        spec_outer_wf(der),
        der[6] != 5 || der[7] != 0x06 || der[8] != 0x03 || der[9] != 0x2b || der[10] != 0x65
            || der[11] != 0x70,
    ensures
        spec_alg_contents(der) != spec_ed25519_alg_id(),
{
    let a = spec_alg_contents(der);
    if der[6] == 5 {
        assert(a.len() == 5);
        assert(a[0] == der[7]);
        assert(a[1] == der[8]);
        assert(a[2] == der[9]);
        assert(a[3] == der[10]);
        assert(a[4] == der[11]);
    } else {
        assert(a.len() != 5);
    }
}

/// Law: the container round trip. Decoding the container built from any
/// 32-byte seed succeeds and gives back exactly that seed; with
/// [`SigningKey::from_pkcs8_der`] deriving the key from it, every derived
/// field of the decoded key equals that of the encoded one.
pub proof fn lemma_container_round_trip(seed: Seq<u8>)
    requires
        seed.len() == 32,
    ensures
        spec_decode(spec_der_of(seed)) == Ok::<Seq<u8>, Error>(seed),
{
    let der = spec_der_of(seed);
    assert(der.len() == 48);
    assert(spec_outer_wf(der));
    assert(spec_alg_contents(der) =~= spec_ed25519_alg_id());
    assert(spec_key_field_wf(der));
    assert(spec_framing_ok(der));
    assert(spec_payload(der).len() == 34);
    assert(spec_payload(der).skip(2) =~= seed);
}

/// Law: algorithm-identifier rejection. A container whose outer structure
/// is well-formed but whose algorithm identifier is not Ed25519's is
/// rejected with [`Error::AlgorithmMismatch`], whatever its payload.
pub proof fn lemma_algorithm_mismatch_rejected(der: Seq<u8>)
    requires
        spec_outer_wf(der),
        spec_alg_contents(der) != spec_ed25519_alg_id(),
    ensures
        spec_decode(der) == Err::<Seq<u8>, Error>(Error::AlgorithmMismatch),
{
}

/// Law: framing rejection. A container carrying the Ed25519 identifier
/// whose payload does not open with the framing bytes hex `04 20` is
/// rejected with [`Error::MalformedContainer`].
pub proof fn lemma_framing_rejected(der: Seq<u8>)
    requires
        spec_outer_wf(der),
        spec_alg_contents(der) == spec_ed25519_alg_id(),
        spec_key_field_wf(der),
        !spec_framing_ok(der),
    ensures
        spec_decode(der) == Err::<Seq<u8>, Error>(Error::MalformedContainer),
{
}

} // verus!
