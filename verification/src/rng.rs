use vstd::prelude::*;

verus! {

/// What one step of the seeded generator yields: the successor seed and the
/// drawn value, both functions of the seed alone.
pub uninterp spec fn rand_step(seed: u64) -> (u64, u64);

/// Relies on fastrand::Rng::with_seed, Rng::u64 and Rng::get_seed: a wyrand
/// generator built from a fixed seed performs exactly one state step for a
/// full-range u64 draw, and value and successor state depend on the seed
/// alone, identically on every machine.
#[verifier::external_body]
pub(crate) fn rng_next(seed: u64) -> (r: (u64, u64))
    ensures
        r == rand_step(seed),
{
    let mut rng = fastrand::Rng::with_seed(seed);
    let value = rng.u64(..);
    (rng.get_seed(), value)
}

/// Relies on fastrand::Rng::new and Rng::get_seed: a generator seeded from the
/// thread-local source. Nothing is promised of the state it starts from.
#[verifier::external_body]
pub(crate) fn random_seed() -> u64 {
    fastrand::Rng::new().get_seed()
}

/// The successor seed after one draw.
pub open spec fn step_seed(seed: u64) -> u64 {
    rand_step(seed).0
}

/// The value yielded by one draw.
pub open spec fn step_val(seed: u64) -> u64 {
    rand_step(seed).1
}

/// The seed after `k` consecutive draws.
pub open spec fn seed_after(seed: u64, k: nat) -> u64
    decreases k,
{
    if k == 0 {
        seed
    } else {
        step_seed(seed_after(seed, (k - 1) as nat))
    }
}

/// Draw one value reduced into `[0, n)`, advancing the seed by one step.
pub(crate) fn rng_below(seed: u64, n: u64) -> (r: (u64, u64))
    requires
        n > 0,
    ensures
        r.0 == step_seed(seed),
        r.1 == step_val(seed) % n,
        r.1 < n,
{
    let next = rng_next(seed);
    (next.0, next.1 % n)
}

} // verus!
