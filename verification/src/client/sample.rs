//! Keeping a bounded sample of request times.
//!
//! The first times fill the sample. Once it is full, every further time is
//! dropped or put in the place of a time that is kept, as chance has it.

use rand::Rng;
use vstd::prelude::*;

use crate::client::context::WorkerContext;

verus! {

/// `rand::Rng::gen_range` with the range `0..bound`, on the generator of the
/// thread, `rand::thread_rng()`: a number below `bound`. An empty range makes
/// `gen_range` panic, so `bound` is not zero. Which number comes is left
/// open. The generator is seeded from the operating system when the thread
/// first asks for it, and rand panics if the system gives no seed.
#[verifier::external_body]
fn random_below(bound: usize) -> (r: usize)
    requires
        bound > 0,
    ensures
        r < bound,
{
    rand::thread_rng().gen_range(0..bound)
}

/// The sample after the request time `micros` was offered to it, when the
/// draws are `coin` and `slot`: a sample that is not full takes the time at
/// its end; a full one drops the time if `coin` is zero, and else puts it
/// in the place `slot`.
pub open spec fn sample_after(
    samples: Seq<u128>,
    max_sample: usize,
    micros: u128,
    coin: usize,
    slot: usize,
) -> Seq<u128> {
    if samples.len() < max_sample {
        samples.push(micros)
    } else if coin == 0 {
        samples
    } else {
        samples.update(slot as int, micros)
    }
}

/// Whether `after` is what the sample `samples` can be after the request
/// time `micros` was offered to it: what it is for some throw of the coin
/// and some place among the times kept.
pub open spec fn may_follow(
    samples: Seq<u128>,
    max_sample: usize,
    micros: u128,
    after: Seq<u128>,
) -> bool {
    exists|coin: usize, slot: usize|
        {
            &&& coin < 2
            &&& samples.len() >= max_sample && coin != 0 ==> slot < samples.len()
            &&& after == #[trigger] sample_after(samples, max_sample, micros, coin, slot)
        }
}

/// Offers the request time `micros` to the sample, with the draws `coin` and
/// `slot` made.
pub fn record_sample(
    samples: &mut Vec<u128>,
    max_sample: usize,
    micros: u128,
    coin: usize,
    slot: usize,
)
    requires
        old(samples)@.len() >= max_sample && coin != 0 ==> slot < old(samples)@.len(),
    ensures
        final(samples)@ == sample_after(old(samples)@, max_sample, micros, coin, slot),
{
    if samples.len() < max_sample {
        samples.push(micros);
    } else if coin != 0 {
        samples[slot] = micros;
    }
}

/// Offers the time that a request took, in microseconds, to the sample of
/// the worker. A sample that is not full takes it. For a full one a coin is
/// thrown: the time is dropped, or it takes a place drawn at random.
///
/// A sample that is full while empty cannot take anything: there must be
/// room for at least one time.
pub fn sample_request_time(request_time: u128, worker_ctx: &mut WorkerContext)
    requires
        old(worker_ctx).max_sample > 0 || old(worker_ctx).request_time_samples@.len() > 0,
    ensures
        may_follow(
            old(worker_ctx).request_time_samples@,
            old(worker_ctx).max_sample,
            request_time,
            final(worker_ctx).request_time_samples@,
        ),
        *final(worker_ctx) == (WorkerContext {
            request_time_samples: final(worker_ctx).request_time_samples,
            ..*old(worker_ctx)
        }),
{
    let len = worker_ctx.request_time_samples.len();
    let mut coin: usize = 0;
    let mut slot: usize = 0;
    if len >= worker_ctx.max_sample {
        coin = random_below(2);
        if coin != 0 {
            slot = random_below(len);
        }
    }
    record_sample(
        &mut worker_ctx.request_time_samples,
        worker_ctx.max_sample,
        request_time,
        coin,
        slot,
    );
}

} // verus!
