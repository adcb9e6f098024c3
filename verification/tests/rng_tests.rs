use std::convert::Infallible;

use ed25519_signing::key::SigningKey;

/// A fixed byte source: hands out a stored pattern, byte by byte.
struct FixedRng {
    next: u8,
}

impl rand_core::TryRng for FixedRng {
    type Error = Infallible;

    fn try_next_u32(&mut self) -> Result<u32, Infallible> {
        let mut b = [0u8; 4];
        self.try_fill_bytes(&mut b)?;
        Ok(u32::from_le_bytes(b))
    }

    fn try_next_u64(&mut self) -> Result<u64, Infallible> {
        let mut b = [0u8; 8];
        self.try_fill_bytes(&mut b)?;
        Ok(u64::from_le_bytes(b))
    }

    fn try_fill_bytes(&mut self, dst: &mut [u8]) -> Result<(), Infallible> {
        for slot in dst.iter_mut() {
            *slot = self.next;
            self.next = self.next.wrapping_add(1);
        }
        Ok(())
    }
}

impl rand_core::TryCryptoRng for FixedRng {}

#[test]
fn new_derives_from_the_drawn_bytes() {
    let k = SigningKey::new(FixedRng { next: 0 });
    let expected: Vec<u8> = (0u8..32u8).collect();
    assert_eq!(k.extract_seed(), expected);
    let direct = SigningKey::from_seed(&expected);
    assert_eq!(k.verification_key_bytes(), direct.verification_key_bytes());
    let msg = b"drawn";
    assert_eq!(k.sign(msg).to_bytes(), direct.sign(msg).to_bytes());
}

#[test]
fn new_with_different_entropy_gives_different_keys() {
    let k1 = SigningKey::new(FixedRng { next: 0 });
    let k2 = SigningKey::new(FixedRng { next: 200 });
    assert_ne!(k1.extract_seed(), k2.extract_seed());
    assert_ne!(k1.verification_key_bytes(), k2.verification_key_bytes());
}
