//! Per-endpoint health state: an error flag, the time of the last failure,
//! and a bounded latency history with its moving average.

use vstd::prelude::*;

verus! {

/// Rolling health profile of one endpoint.
///
/// `latency_data` is a FIFO-bounded history of latency samples (one unit of
/// the caller's choosing, e.g. microseconds); `latency` is the arithmetic
/// mean of that history, rounded down, whenever the history is non-empty.
#[derive(Clone, Debug)]
pub struct Status {
    /// True once the endpoint is judged unusable.
    pub is_erroring: bool,
    /// Time of the most recent failure.
    pub last_error: u64,
    /// Arithmetic mean of `latency_data`, rounded down.
    pub latency: u64,
    /// The most recent latency samples, oldest first.
    pub latency_data: Vec<u64>,
}

/// The sum of a sequence of samples.
pub open spec fn sum_of(s: Seq<u64>) -> int
    decreases s.len(),
{
    if s.len() == 0 {
        0
    } else {
        sum_of(s.drop_last()) + s.last()
    }
}

/// The arithmetic mean of a non-empty sequence of samples, rounded down.
pub open spec fn mean_of(s: Seq<u64>) -> int
    recommends
        s.len() > 0,
{
    sum_of(s) / (s.len() as int)
}

/// One push of sample `x` into a history bounded by `window`: the oldest
/// sample is evicted first when the history is at (or beyond) capacity.
pub open spec fn push_sample(s: Seq<u64>, x: u64, window: u32) -> Seq<u64>
    recommends
        window >= 1,
{
    if s.len() >= window {
        s.drop_first().push(x)
    } else {
        s.push(x)
    }
}

impl Status {
    /// The history is coherent with its stored mean.
    pub open spec fn wf(self) -> bool {
        self.latency_data@.len() > 0 ==> self.latency == mean_of(self.latency_data@)
    }
}

impl Default for Status {
    /// A fresh, healthy status: no error recorded and an empty history.
    fn default() -> (r: Status)
        ensures
            !r.is_erroring,
            r.last_error == 0,
            r.latency == 0,
            r.latency_data@ == Seq::<u64>::empty(),
            r.wf(),
    {
        Status { is_erroring: false, last_error: 0, latency: 0, latency_data: Vec::new() }
    }
}

pub proof fn lemma_sum_nonneg(s: Seq<u64>)
    ensures
        sum_of(s) >= 0,
    decreases s.len(),
{
    if s.len() > 0 {
        lemma_sum_nonneg(s.drop_last());
    }
}

proof fn lemma_sum_constant(s: Seq<u64>, x: u64)
    requires
        forall|i: int| 0 <= i < s.len() ==> s[i] == x,
    ensures
        sum_of(s) == s.len() * x,
    decreases s.len(),
{
    if s.len() > 0 {
        lemma_sum_constant(s.drop_last(), x);
        assert(s.len() * x == (s.len() - 1) * x + x) by (nonlinear_arith);
    }
}

/// A history made of one repeated sample has that sample as its mean.
pub proof fn lemma_mean_constant(s: Seq<u64>, x: u64)
    requires
        s.len() > 0,
        forall|i: int| 0 <= i < s.len() ==> s[i] == x,
    ensures
        mean_of(s) == x,
{
    lemma_sum_constant(s, x);
    let n = s.len() as int;
    assert((n * x) / n == x) by (nonlinear_arith)
        requires
            n > 0,
    ;
}

/// `k` pushes of the same sample `x` into a history bounded by `window`.
pub open spec fn push_n(s: Seq<u64>, x: u64, window: u32, k: nat) -> Seq<u64>
    decreases k,
{
    if k == 0 {
        s
    } else {
        push_sample(push_n(s, x, window, (k - 1) as nat), x, window)
    }
}

proof fn lemma_push_n_shape(s: Seq<u64>, x: u64, window: u32, k: nat)
    requires
        window >= 1,
        s.len() <= window,
    ensures
        ({
            let t = push_n(s, x, window, k);
            &&& t.len() == if s.len() + k <= window {
                s.len() + k
            } else {
                window as nat
            }
            &&& forall|i: int| 0 <= i < t.len() && i >= t.len() - k ==> t[i] == x
        }),
    decreases k,
{
    if k > 0 {
        lemma_push_n_shape(s, x, window, (k - 1) as nat);
        let p = push_n(s, x, window, (k - 1) as nat);
        let t = push_n(s, x, window, k);
        if p.len() >= window {
            assert(t == p.drop_first().push(x));
            assert(t.len() == p.len());
            assert forall|i: int| 0 <= i < t.len() && i >= t.len() - k implies t[i] == x by {
                if i < t.len() - 1 {
                    assert(t[i] == p[i + 1]);
                }
            }
        } else {
            assert(t == p.push(x));
            assert forall|i: int| 0 <= i < t.len() && i >= t.len() - k implies t[i] == x by {
                if i < t.len() - 1 {
                    assert(t[i] == p[i]);
                }
            }
        }
    }
}

/// Repeatedly recording the same latency sample saturates the window: after
/// at least `window` consecutive pushes of `x`, the history holds nothing
/// but `x` and its mean is exactly `x`.
pub proof fn lemma_latency_saturation(s: Seq<u64>, x: u64, window: u32, k: nat)
    requires
        window >= 1,
        s.len() <= window,
        k >= window,
    ensures
        push_n(s, x, window, k).len() == window,
        forall|i: int| 0 <= i < window ==> push_n(s, x, window, k)[i] == x,
        mean_of(push_n(s, x, window, k)) == x,
{
    lemma_push_n_shape(s, x, window, k);
    lemma_mean_constant(push_n(s, x, window, k), x);
}

/// Pushing never drives the history past the window: a history within the
/// bound stays within it, and below the bound it grows by exactly one.
pub proof fn lemma_push_sample_window(s: Seq<u64>, x: u64, window: u32)
    requires
        window >= 1,
        s.len() <= window,
    ensures
        push_sample(s, x, window).len() <= window,
        s.len() < window ==> push_sample(s, x, window).len() == s.len() + 1,
        s.len() == window ==> push_sample(s, x, window).len() == s.len(),
{
}

} // verus!
