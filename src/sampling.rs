use vstd::prelude::*;
use rand::rngs::StdRng;
use rand::Rng;
use rand::SeedableRng;

verus! {

#[verifier::external_type_specification]
#[verifier::external_body]
pub struct ExStdRng(StdRng);

/// Relies on rand's `SeedableRng::seed_from_u64` for `StdRng`: a generator
/// whose stream is fixed by the seed.
#[verifier::external_body]
fn seeded_rng(seed: u64) -> (r: StdRng) {
    StdRng::seed_from_u64(seed)
}

/// Relies on rand's `Rng::random_range` over `0..bound`, which panics on an
/// empty range and otherwise returns a value inside it.
#[verifier::external_body]
fn draw_below(rng: &mut StdRng, bound: usize) -> (r: usize)
    requires
        bound > 0,
    ensures
        r < bound,
{
    rng.random_range(0..bound)
}

/// Draws coordinate indices uniformly from `[0, bound)` out of a seeded
/// generator owned by the sampler.
pub struct CoordinateSampler {
    rng: StdRng,
    bound: usize,
}

impl CoordinateSampler {
    /// The exclusive upper end of the indices that the sampler draws.
    pub closed spec fn spec_bound(&self) -> usize {
        self.bound
    }

    /// A sampler over `[0, bound)`, or `None` when that range is empty.
    pub fn new(bound: usize, seed: u64) -> (r: Option<CoordinateSampler>)
        ensures
            bound == 0 <==> r is None,
            r matches Some(s) ==> s.spec_bound() == bound && s.wf(),
    {
        if bound == 0 {
            None
        } else {
            Some(CoordinateSampler { rng: seeded_rng(seed), bound })
        }
    }

    /// A sampler for a chain of `dim` coordinates whose sparse gradient at an
    /// index also touches the next one: it draws from `[0, dim - 1)`, so that
    /// both the index and its successor lie inside the point.
    pub fn for_chain(dim: usize, seed: u64) -> (r: Option<CoordinateSampler>)
        ensures
            dim < 2 <==> r is None,
            r matches Some(s) ==> s.spec_bound() == dim - 1 && s.wf(),
    {
        if dim < 2 {
            None
        } else {
            CoordinateSampler::new(dim - 1, seed)
        }
    }

    /// The sampler draws from a non-empty range.
    pub closed spec fn wf(&self) -> bool {
        self.bound > 0
    }

    /// The exclusive upper end of the indices that the sampler draws.
    pub fn bound(&self) -> (r: usize)
        ensures
            r == self.spec_bound(),
    {
        self.bound
    }

    /// Draws the next index; the generator advances, the range stays.
    pub fn next_index(&mut self) -> (r: usize)
        requires
            old(self).wf(),
        ensures
            r < old(self).spec_bound(),
            final(self).spec_bound() == old(self).spec_bound(),
            final(self).wf(),
    {
        draw_below(&mut self.rng, self.bound)
    }
}

/// The coordinates that one sparse gradient sample of the valley chain
/// updates at `index`, in order: the successor (from the coupling term), the
/// index itself (from the local term), and the index again (from the penalty).
pub fn chain_gradient_coordinates(index: usize, dim: usize) -> (r: [usize; 3])
    requires
        index + 1 < dim,
    ensures
        r@ == seq![(index + 1) as usize, index, index],
        forall|k: int| 0 <= k < 3 ==> r@[k] < dim,
{
    let r = [index + 1, index, index];
    assert(r@ =~= seq![(index + 1) as usize, index, index]);
    r
}

} // verus!
