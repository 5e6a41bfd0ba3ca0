//! The feedback controller's filter: which transform results are acted on.
//! A result is used only when its window follows the last used one without
//! overlap, and only once the last correction has had time to reach the
//! capture stream.
use vstd::prelude::*;

verus! {

/// Sparse-in-time test: the first result is always taken; after that only the
/// window that starts one whole window after the last one taken.
pub open spec fn follows_last(last_check_index: Option<nat>, index: nat, window_size: nat) -> bool {
    match last_check_index {
        None => true,
        Some(last) => index == last + window_size,
    }
}

/// Quiet-settling test: the last correction was made at least `buffer_ms`
/// plus one window's duration before `now_ms`.
pub open spec fn settled(last_update_ms: nat, now_ms: nat, buffer_ms: nat, window_ms: nat) -> bool {
    now_ms >= last_update_ms + buffer_ms + window_ms
}

/// State of the filter: where the newest accepted window begins (`None`
/// before the first), the time of the newest correction, and the filter's
/// parameters.
pub struct FilterView {
    pub last_check_index: Option<nat>,
    pub last_update_ms: nat,
    pub window_size: nat,
    pub buffer_ms: nat,
    pub window_ms: nat,
}

/// Decides which transform results the feedback controller acts on.
pub struct FeedbackFilter {
    last_check_index: Option<usize>,
    last_update_ms: u128,
    window_size: usize,
    buffer_ms: u128,
    window_ms: u128,
}

impl View for FeedbackFilter {
    type V = FilterView;

    closed spec fn view(&self) -> FilterView {
        FilterView {
            last_check_index: match self.last_check_index {
                Some(i) => Some(i as nat),
                None => None,
            },
            last_update_ms: self.last_update_ms as nat,
            window_size: self.window_size as nat,
            buffer_ms: self.buffer_ms as nat,
            window_ms: self.window_ms as nat,
        }
    }
}

impl FeedbackFilter {
    /// A filter that has taken nothing yet, for windows of `window_size`
    /// samples lasting `window_ms`, with `buffer_ms` of settling latency.
    pub fn new(window_size: usize, window_ms: u128, buffer_ms: u128) -> (r: FeedbackFilter)
        ensures
            r@ == (FilterView {
                last_check_index: None,
                last_update_ms: 0,
                window_size: window_size as nat,
                buffer_ms: buffer_ms as nat,
                window_ms: window_ms as nat,
            }),
    {
        FeedbackFilter { last_check_index: None, last_update_ms: 0, window_size, buffer_ms, window_ms }
    }

    /// Decides on the result for the window starting at `index`, arriving at
    /// `now_ms`. A result passes when it follows the last one taken and the
    /// last correction has settled; it is then recorded as the last one taken,
    /// at `now_ms`. A result that fails either test changes nothing.
    pub fn accept(&mut self, index: usize, now_ms: u128) -> (r: bool)
        ensures
            r == (follows_last(old(self)@.last_check_index, index as nat, old(self)@.window_size)
                && settled(
                old(self)@.last_update_ms,
                now_ms as nat,
                old(self)@.buffer_ms,
                old(self)@.window_ms,
            )),
            r ==> final(self)@ == (FilterView {
                last_check_index: Some(index as nat),
                last_update_ms: now_ms as nat,
                ..old(self)@
            }),
            !r ==> final(self)@ == old(self)@,
    {
        let follows = match self.last_check_index {
            None => true,
            Some(last) => index >= last && index - last == self.window_size,
        };
        if !follows {
            return false;
        }
        let is_settled = now_ms >= self.last_update_ms && now_ms - self.last_update_ms
            >= self.buffer_ms && now_ms - self.last_update_ms - self.buffer_ms >= self.window_ms;
        if !is_settled {
            return false;
        }
        self.last_check_index = Some(index);
        self.last_update_ms = now_ms;
        true
    }

    /// Start index of the last result taken, if any.
    pub fn last_check_index(&self) -> (r: Option<usize>)
        ensures
            r matches Some(i) ==> self@.last_check_index == Some(i as nat),
            r is None ==> self@.last_check_index is None,
    {
        self.last_check_index
    }

    /// When the last correction was made.
    pub fn last_update_ms(&self) -> (r: u128)
        ensures
            r == self@.last_update_ms,
    {
        self.last_update_ms
    }
}

/// Among the transmitted band `[min_bin, max_bin]`, the position of the bin
/// nearest to `target_bin`: its offset from `min_bin`, clamped to the band.
pub open spec fn band_offset(target_bin: nat, min_bin: nat, max_bin: nat) -> nat {
    if target_bin <= min_bin {
        0
    } else if target_bin >= max_bin {
        (max_bin - min_bin) as nat
    } else {
        (target_bin - min_bin) as nat
    }
}

/// Position, within a result's band `[min_bin, max_bin]`, of the bin that
/// feedback is computed on: the one nearest to `target_bin`.
pub fn target_offset(target_bin: usize, min_bin: usize, max_bin: usize) -> (r: usize)
    requires
        min_bin <= max_bin,
    ensures
        r == band_offset(target_bin as nat, min_bin as nat, max_bin as nat),
        r <= max_bin - min_bin,
{
    if target_bin <= min_bin {
        0
    } else if target_bin >= max_bin {
        max_bin - min_bin
    } else {
        target_bin - min_bin
    }
}

} // verus!
