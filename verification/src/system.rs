//! The arithmetic behind the system-info report: per-interface network
//! speeds from two counter readings, and the aggregate CPU frequency.
//!
//! Reading the counters and the CPU list is the I/O shell's work; the
//! values it reads are combined here.

use vstd::prelude::*;

verus! {

/// Bytes moved since the first reading, as a rate over the measurement
/// window; a counter that went backwards (an interface reset) reads as
/// zero rather than wrapping.
pub fn network_speed(initial_total: u64, current_total: u64) -> (r: u64)
    ensures
        r == if current_total >= initial_total {
            current_total - initial_total
        } else {
            0
        },
{
    if current_total >= initial_total {
        current_total - initial_total
    } else {
        0
    }
}

/// The sum of a list of frequencies.
pub open spec fn sum_of(freqs: Seq<u64>) -> int
    decreases freqs.len(),
{
    if freqs.len() == 0 {
        0
    } else {
        sum_of(freqs.drop_last()) + freqs.last()
    }
}

proof fn lemma_sum_take_le(freqs: Seq<u64>, i: int)
    requires
        0 <= i <= freqs.len(),
    ensures
        0 <= sum_of(freqs.take(i)) <= sum_of(freqs),
    decreases freqs.len(),
{
    if freqs.len() == 0 {
    } else if i == freqs.len() {
        assert(freqs.take(i) =~= freqs);
        lemma_sum_take_le(freqs.drop_last(), i - 1);
    } else {
        assert(freqs.drop_last().take(i) =~= freqs.take(i));
        lemma_sum_take_le(freqs.drop_last(), i);
    }
}

/// The average CPU frequency over all cores, as the truncated mean of the
/// per-core readings. The machine must have a core, and the summed
/// readings must fit the counter type.
#[verifier::loop_isolation(false)]
pub fn average_cpu_frequency(freqs: &Vec<u64>) -> (r: u64)
    requires
        freqs@.len() > 0,
        sum_of(freqs@) <= u64::MAX,
    ensures
        r == sum_of(freqs@) / (freqs@.len() as int),
{
    let n = freqs.len();
    let mut total: u64 = 0;
    let mut i: usize = 0;
    while i < n
        invariant
            0 <= i <= n,
            total == sum_of(freqs@.take(i as int)),
        decreases n - i,
    {
        proof {
            assert(freqs@.take(i + 1).drop_last() =~= freqs@.take(i as int));
            assert(freqs@.take(i + 1).last() == freqs@[i as int]);
            lemma_sum_take_le(freqs@, i + 1);
        }
        total = total + freqs[i];
        i += 1;
    }
    proof {
        assert(freqs@.take(n as int) =~= freqs@);
    }
    total / (n as u64)
}

} // verus!
