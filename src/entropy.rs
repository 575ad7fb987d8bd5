use rand::Rng;
use vstd::prelude::*;

verus! {

/// Relies on `rand::thread_rng` and `Rng::fill`: overwrites every byte of the buffer with a
/// random value. Nothing is promised about the values.
#[verifier::external_body]
pub(crate) fn fill_random(bytes: &mut [u8; 4096]) {
    rand::thread_rng().fill(&mut bytes[..]);
}

/// Relies on `rand::thread_rng` and `Rng::gen::<u8>`: a random byte.
#[verifier::external_body]
pub(crate) fn random_byte() -> u8 {
    rand::thread_rng().gen::<u8>()
}

/// Relies on `rand::thread_rng` and `Rng::gen_range` over the inclusive range `0..=max`
/// (never empty, so it does not panic): a random value no larger than `max`.
#[verifier::external_body]
pub(crate) fn random_up_to(max: u64) -> (r: u64)
    ensures
        r <= max,
{
    rand::thread_rng().gen_range(0..=max)
}

} // verus!
