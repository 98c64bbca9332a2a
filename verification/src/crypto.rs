//! Checksum key stream for client-to-server packets: an ISAAC generator
//! seeded from the server's 32-bit seed.

use vstd::prelude::*;
use rand::Rng;
use rand::SeedableRng;
use rand_isaac::IsaacRng;

verus! {

#[verifier::external_type_specification]
#[verifier::external_body]
pub struct ExIsaacRng(rand_isaac::IsaacRng);

/// The `index`-th (counting from zero) `u32` that `rand_isaac::IsaacRng`,
/// created by `SeedableRng::from_seed(seed)`, hands out through `Rng::random::<u32>`.
pub uninterp spec fn isaac_u32(seed: Seq<u8>, index: nat) -> u32;

/// The seed an `IsaacRng` was made from by `SeedableRng::from_seed`.
pub uninterp spec fn isaac_seed(rng: IsaacRng) -> Seq<u8>;

/// How many `u32`s an `IsaacRng` has handed out through `Rng::random::<u32>`.
pub uninterp spec fn isaac_drawn(rng: IsaacRng) -> nat;

/// An ISAAC generator for the keys of one connection.
pub struct CryptoSystem {
    rng: IsaacRng,
}

/// Byte `i` of the 32-byte ISAAC seed built from `seed`: its four
/// little-endian bytes, repeated eight times.
pub open spec fn seed_byte(seed: u32, i: int) -> u8 {
    ((seed >> (8 * (i % 4)) as u32) & 0xff) as u8
}

/// The 32-byte ISAAC seed built from `seed`.
pub open spec fn seed_bytes(seed: u32) -> Seq<u8> {
    Seq::new(32, |i: int| seed_byte(seed, i))
}

/// Calls `rand_isaac::IsaacRng::from_seed`: a generator made from `seed`
/// that has handed out nothing yet.
#[verifier::external_body]
fn isaac_from_seed(seed: [u8; 32]) -> (r: IsaacRng)
    ensures
        isaac_seed(r) == seed@,
        isaac_drawn(r) == 0,
{
    IsaacRng::from_seed(seed)
}

/// Calls `rand::Rng::random::<u32>` on the generator: the next `u32` of the
/// sequence its seed determines. The seed stays; one more counts as drawn.
#[verifier::external_body]
fn isaac_next_u32(rng: &mut IsaacRng) -> (r: u32)
    ensures
        r == isaac_u32(isaac_seed(*old(rng)), isaac_drawn(*old(rng))),
        isaac_seed(*final(rng)) == isaac_seed(*old(rng)),
        isaac_drawn(*final(rng)) == isaac_drawn(*old(rng)) + 1,
{
    rng.random::<u32>()
}

impl CryptoSystem {
    /// The seed bytes the generator was made from.
    pub closed spec fn seed_spec(&self) -> Seq<u8> {
        isaac_seed(self.rng)
    }

    /// How many keys have been drawn.
    pub closed spec fn drawn_spec(&self) -> nat {
        isaac_drawn(self.rng)
    }

    /// A generator seeded with `seed`'s little-endian bytes repeated eight times.
    pub fn new(seed: u32) -> (r: CryptoSystem)
        ensures
            r.seed_spec() == seed_bytes(seed),
            r.drawn_spec() == 0,
    {
        let b0: u8 = (seed & 0xff) as u8;
        let b1: u8 = ((seed >> 8u32) & 0xff) as u8;
        let b2: u8 = ((seed >> 16u32) & 0xff) as u8;
        let b3: u8 = ((seed >> 24u32) & 0xff) as u8;
        let arr: [u8; 32] = [
            b0, b1, b2, b3, b0, b1, b2, b3, b0, b1, b2, b3, b0, b1, b2, b3,
            b0, b1, b2, b3, b0, b1, b2, b3, b0, b1, b2, b3, b0, b1, b2, b3,
        ];
        proof {
            assert(seed_byte(seed, 0) == b0) by (bit_vector)
                requires b0 == (seed & 0xff) as u8;
            assert(seed_byte(seed, 1) == b1) by (bit_vector)
                requires b1 == ((seed >> 8u32) & 0xff) as u8;
            assert(seed_byte(seed, 2) == b2) by (bit_vector)
                requires b2 == ((seed >> 16u32) & 0xff) as u8;
            assert(seed_byte(seed, 3) == b3) by (bit_vector)
                requires b3 == ((seed >> 24u32) & 0xff) as u8;
            assert forall|i: int| 0 <= i < 32 implies arr@[i] == seed_byte(seed, i) by {
                assert(seed_byte(seed, i) == seed_byte(seed, i % 4));
            }
            assert(arr@ =~= seed_bytes(seed));
        }
        CryptoSystem { rng: isaac_from_seed(arr) }
    }

    /// The next key of the sequence.
    pub fn get_send_key(&mut self) -> (r: u32)
        ensures
            r == isaac_u32(old(self).seed_spec(), old(self).drawn_spec()),
            final(self).seed_spec() == old(self).seed_spec(),
            final(self).drawn_spec() == old(self).drawn_spec() + 1,
    {
        isaac_next_u32(&mut self.rng)
    }
}

/// Two generators made from the same seed hand out the same key at each step:
/// the key sequence is determined by the seed alone.
pub proof fn lemma_keys_determined_by_seed(a: CryptoSystem, b: CryptoSystem, a_key: u32, b_key: u32)
    requires
        a.seed_spec() == b.seed_spec(),
        a.drawn_spec() == b.drawn_spec(),
        a_key == isaac_u32(a.seed_spec(), a.drawn_spec()),
        b_key == isaac_u32(b.seed_spec(), b.drawn_spec()),
    ensures
        a_key == b_key,
{
}

} // verus!
