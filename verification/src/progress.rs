//! Download progress coalescing: one event per whole-percent change.
//!
//! A tracker lives for the duration of one HTTP body stream. After each
//! chunk it is told the running byte counts; it answers with a percentage
//! exactly when that percentage differs from the last one it reported, so
//! the log sees at most one line per integer percentage point.

use vstd::prelude::*;

verus! {

/// Progress state of one download stream.
pub struct DownloadProgress {
    last_percent: u64,
}

impl DownloadProgress {
    /// The last whole percentage this tracker reported (initially zero,
    /// which is never reported itself).
    pub closed spec fn last(self) -> u64 {
        self.last_percent
    }

    /// A fresh tracker for one stream.
    pub fn new() -> (r: Self)
        ensures
            r.last() == 0,
    {
        DownloadProgress { last_percent: 0 }
    }

    /// Records that `downloaded` of `total` bytes have arrived. Returns
    /// the new whole percentage exactly when it differs from the last
    /// reported one; duplicates are suppressed.
    pub fn update(&mut self, downloaded: u64, total: u64) -> (r: Option<u64>)
        requires
            total > 0,
            downloaded <= total,
        ensures
            final(self).last() == downloaded as int * 100 / total as int,
            final(self).last() <= 100,
            r == if final(self).last() == old(self).last() {
                Option::<u64>::None
            } else {
                Option::Some(final(self).last())
            },
    {
        let percent_wide: u128 = (downloaded as u128) * 100 / (total as u128);
        proof {
            assert(downloaded as int * 100 <= total as int * 100) by (nonlinear_arith)
                requires
                    downloaded <= total,
            ;
            assert(total as int * 100 / total as int == 100) by (nonlinear_arith)
                requires
                    total > 0,
            ;
            assert(downloaded as int * 100 / total as int <= total as int * 100 / total as int)
                by (nonlinear_arith)
                requires
                    total > 0,
                    downloaded as int * 100 <= total as int * 100,
            ;
        }
        let percent: u64 = percent_wide as u64;
        if percent == self.last_percent {
            None
        } else {
            self.last_percent = percent;
            Some(percent)
        }
    }
}

} // verus!
