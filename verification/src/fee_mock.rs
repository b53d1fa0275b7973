//! A one-shot fee override used by tests: a fee set for the next estimate
//! replaces that estimate once, and only once.
use vstd::prelude::*;

verus! {

/// The pending fee override, if any.
#[derive(Debug, Clone, PartialEq, Eq)]
pub struct FeeMock {
    pub pending: Option<u32>,
}

/// The fee an estimate reports and the override left afterwards.
pub open spec fn mock_fee_step(pending: Option<u32>, fee: u32) -> (u32, Option<u32>) {
    match pending {
        Some(f) => (f, None),
        None => (fee, None),
    }
}

impl FeeMock {
    /// No override pending.
    pub fn new() -> (r: FeeMock)
        ensures
            r.pending is None,
    {
        FeeMock { pending: None }
    }

    /// Sets (or clears) the override for the next estimate.
    pub fn set_mock_fee_for_tests(&mut self, fee: Option<u32>)
        ensures
            final(self).pending == fee,
    {
        self.pending = fee;
    }

    /// The fee to report for an estimate of `fee`: the pending override, which
    /// is consumed, or `fee` itself.
    pub fn mock_fee(&mut self, fee: u32) -> (r: u32)
        ensures
            (r, final(self).pending) == mock_fee_step(old(self).pending, fee),
    {
        match self.pending.take() {
            Some(f) => f,
            None => fee,
        }
    }
}

/// An override replaces exactly the next estimate: after it is used, the
/// estimates pass through unchanged.
pub proof fn lemma_override_is_one_shot(x: u32, y: u32, z: u32)
    ensures
        mock_fee_step(Some(x), y).0 == x,
        mock_fee_step(mock_fee_step(Some(x), y).1, z).0 == z,
        mock_fee_step(None, z) == (z, None::<u32>),
{
}

} // verus!
