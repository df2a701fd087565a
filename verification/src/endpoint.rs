//! One upstream JSON-RPC endpoint: its URL, health state and
//! consecutive-failure bookkeeping, the bodies of the requests it issues,
//! and the classification of a dispatch outcome.
//!
//! The HTTP POST itself is network I/O and lives outside this crate; the
//! caller times the round trip, hands the outcome to [`dispatch_outcome`],
//! and reports it through [`Rpc::record_success`] or [`Rpc::record_failure`].

use vstd::prelude::*;
use crate::error::RpcError;
use crate::health::{mean_of, push_sample, sum_of, Status};

verus! {

/// One upstream node, identified by its URL, with the health and
/// failure-threshold state a router reads to rank it.
#[derive(Clone, Debug)]
pub struct Rpc {
    /// Upstream JSON-RPC URL, immutable after construction.
    pub url: String,
    /// Health and latency profile.
    pub status: Status,
    /// Failure threshold: at this many consecutive failures the endpoint is
    /// marked erroring.
    pub max_consecutive: u32,
    /// Running count of consecutive failed dispatches.
    pub consecutive: u32,
}

/// The JSON-RPC 2.0 request body asking for the current block number.
pub open spec fn block_number_request_text() -> Seq<char> {
    "{\"method\":\"eth_blockNumber\",\"params\":null,\"id\":1,\"jsonrpc\":\"2.0\"}"@
}

/// The JSON-RPC 2.0 request body asking for the latest finalized block.
pub open spec fn finalized_block_request_text() -> Seq<char> {
    "{\"method\":\"eth_getBlockByNumber\",\"params\":[\"finalized\",false],\"id\":1,\"jsonrpc\":\"2.0\"}"@
}

/// Build the `eth_blockNumber` request body.
pub fn block_number_request() -> (r: &'static str)
    ensures
        r@ == block_number_request_text(),
{
    "{\"method\":\"eth_blockNumber\",\"params\":null,\"id\":1,\"jsonrpc\":\"2.0\"}"
}

/// Build the `eth_getBlockByNumber` request body for the finalized block.
pub fn finalized_block_request() -> (r: &'static str)
    ensures
        r@ == finalized_block_request_text(),
{
    "{\"method\":\"eth_getBlockByNumber\",\"params\":[\"finalized\",false],\"id\":1,\"jsonrpc\":\"2.0\"}"
}

/// Fold a transport outcome into the error taxonomy: a response body read in
/// full is success, no readable response is a `Transport` failure — never a
/// panic, and never any other error kind.
pub fn dispatch_outcome(body: Option<String>) -> (r: Result<String, RpcError>)
    ensures
        body matches Some(text) ==> (r matches Ok(t) && t@ == text@),
        body is None ==> r == Err::<String, RpcError>(RpcError::Transport),
{
    match body {
        Some(text) => Ok(text),
        None => Err(RpcError::Transport),
    }
}

impl Rpc {
    /// Construct an endpoint for `url` with failure threshold
    /// `max_consecutive`, healthy and with an empty latency history.
    pub fn new(url: String, max_consecutive: u32) -> (r: Rpc)
        ensures
            r.url@ == url@,
            r.max_consecutive == max_consecutive,
            r.consecutive == 0,
            !r.status.is_erroring,
            r.status.last_error == 0,
            r.status.latency == 0,
            r.status.latency_data@ == Seq::<u64>::empty(),
            r.status.wf(),
    {
        Rpc { url, status: Status::default(), max_consecutive, consecutive: 0 }
    }

    /// Append `sample` to the latency history, evicting the oldest sample
    /// first if the history is already at capacity `window`, then recompute
    /// the moving average as the arithmetic mean of the history.
    ///
    /// Nothing but the latency fields changes; a history within the window
    /// stays within it.
    pub fn update_latency(&mut self, sample: u64, window: u32)
        requires
            window >= 1,
        ensures
            final(self).status.latency_data@ == push_sample(
                old(self).status.latency_data@,
                sample,
                window,
            ),
            final(self).status.latency == mean_of(final(self).status.latency_data@),
            final(self).status.wf(),
            old(self).status.latency_data@.len() <= window
                ==> final(self).status.latency_data@.len() <= window,
            final(self).url@ == old(self).url@,
            final(self).status.is_erroring == old(self).status.is_erroring,
            final(self).status.last_error == old(self).status.last_error,
            final(self).max_consecutive == old(self).max_consecutive,
            final(self).consecutive == old(self).consecutive,
    {
        // If the history is at capacity, the first sample in line goes.
        if self.status.latency_data.len() >= window as usize {
            self.status.latency_data.remove(0);
            proof {
                assert(self.status.latency_data@ == old(self).status.latency_data@.drop_first());
            }
        }
        self.status.latency_data.push(sample);
        // Recompute the moving average over the current contents.
        let n = self.status.latency_data.len();
        let ghost data = self.status.latency_data@;
        let mut total: u128 = 0;
        let mut i: usize = 0;
        while i < n
        invariant
            i <= n,
            n == data.len(),
            data == self.status.latency_data@,
            total == sum_of(data.take(i as int)),
            total <= (i as int) * (u64::MAX as int),
        decreases n - i,
        {
            proof {
                assert(data.take(i + 1).drop_last() =~= data.take(i as int));
                assert((i as int + 1) * (u64::MAX as int) == (i as int) * (u64::MAX as int)
                    + u64::MAX) by (nonlinear_arith);
            }
            total = total + self.status.latency_data[i] as u128;
            i += 1;
        }
        proof {
            assert(data.take(n as int) =~= data);
            crate::health::lemma_sum_nonneg(data);
            assert(sum_of(data) / (n as int) <= u64::MAX) by (nonlinear_arith)
                requires
                    n > 0,
                    0 <= sum_of(data) <= (n as int) * (u64::MAX as int),
            ;
        }
        self.status.latency = (total / (n as u128)) as u64;
    }

    /// Record a successful dispatch: the consecutive-failure count resets and
    /// the erroring flag clears; nothing else changes.
    pub fn record_success(&mut self)
        ensures
            final(self).consecutive == 0,
            !final(self).status.is_erroring,
            final(self).url@ == old(self).url@,
            final(self).max_consecutive == old(self).max_consecutive,
            final(self).status.last_error == old(self).status.last_error,
            final(self).status.latency == old(self).status.latency,
            final(self).status.latency_data@ == old(self).status.latency_data@,
    {
        self.consecutive = 0;
        self.status.is_erroring = false;
    }

    /// Record a failed dispatch at time `now`: the consecutive-failure count
    /// rises (saturating at its maximum), and once it reaches the threshold
    /// the endpoint is marked erroring with `now` as its last-error time.
    pub fn record_failure(&mut self, now: u64)
        ensures
            final(self).consecutive == if old(self).consecutive < u32::MAX {
                old(self).consecutive + 1
            } else {
                u32::MAX as int
            },
            final(self).consecutive >= final(self).max_consecutive
                ==> (final(self).status.is_erroring && final(self).status.last_error == now),
            final(self).consecutive < final(self).max_consecutive
                ==> (final(self).status.is_erroring == old(self).status.is_erroring
                    && final(self).status.last_error == old(self).status.last_error),
            final(self).url@ == old(self).url@,
            final(self).max_consecutive == old(self).max_consecutive,
            final(self).status.latency == old(self).status.latency,
            final(self).status.latency_data@ == old(self).status.latency_data@,
    {
        if self.consecutive < u32::MAX {
            self.consecutive = self.consecutive + 1;
        }
        if self.consecutive >= self.max_consecutive {
            self.status.is_erroring = true;
            self.status.last_error = now;
        }
    }
}

impl Default for Rpc {
    /// An endpoint with an empty URL and a zero threshold, healthy and with
    /// an empty latency history.
    fn default() -> (r: Rpc)
        ensures
            r.url@ == Seq::<char>::empty(),
            r.max_consecutive == 0,
            r.consecutive == 0,
            !r.status.is_erroring,
            r.status.last_error == 0,
            r.status.latency == 0,
            r.status.latency_data@ == Seq::<u64>::empty(),
            r.status.wf(),
    {
        let url = String::new();
        proof {
            assert(url@ =~= Seq::<char>::empty());
        }
        Rpc { url, status: Status::default(), max_consecutive: 0, consecutive: 0 }
    }
}

} // verus!
