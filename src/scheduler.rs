//! The transform scheduler: hands out `(channel, start_index)` work items in
//! strict round-robin, one per request, as far as the published length allows.
use crate::config::StftConfig;
use crate::ring::lemma_mod_succ;
use vstd::arithmetic::div_mod::{lemma_fundamental_div_mod, lemma_mod_pos_bound};
use vstd::prelude::*;

verus! {

/// The `k`-th work item (counting from 0) of a round-robin over `channels`
/// channels that advances the start index by `hop_size` after each pass.
pub open spec fn nth_work_item(k: nat, channels: nat, hop_size: nat) -> (nat, nat) {
    ((k % channels) as nat, ((k / channels) * hop_size) as nat)
}

/// What the scheduler holds: the next item to hand out, how many have been
/// handed out, and the analysis parameters.
pub struct SchedulerView {
    pub next_chan: nat,
    pub next_index: nat,
    pub dispatched: nat,
    pub channels: nat,
    pub window_size: nat,
    pub hop_size: nat,
}

/// Round-robin dispatcher of transform work items.
pub struct FftScheduler {
    next_chan: usize,
    next_index: usize,
    dispatched: Ghost<nat>,
    channels: usize,
    window_size: usize,
    hop_size: usize,
}

impl View for FftScheduler {
    type V = SchedulerView;

    closed spec fn view(&self) -> SchedulerView {
        SchedulerView {
            next_chan: self.next_chan as nat,
            next_index: self.next_index as nat,
            dispatched: self.dispatched@,
            channels: self.channels as nat,
            window_size: self.window_size as nat,
            hop_size: self.hop_size as nat,
        }
    }
}

impl FftScheduler {
    /// The next item is the one after all those handed out so far.
    pub open spec fn wf(&self) -> bool {
        &&& self@.channels > 0
        &&& 0 < self@.hop_size <= self@.window_size
        &&& (self@.next_chan, self@.next_index) == nth_work_item(
            self@.dispatched,
            self@.channels,
            self@.hop_size,
        )
    }

    /// A scheduler that has handed out nothing yet.
    pub fn new(config: StftConfig) -> (r: FftScheduler)
        requires
            config.valid(),
        ensures
            r.wf(),
            r@.dispatched == 0,
            r@.next_chan == 0,
            r@.next_index == 0,
            r@.channels == config.channels,
            r@.window_size == config.window_size,
            r@.hop_size == config.hop_size,
    {
        let r = FftScheduler {
            next_chan: 0,
            next_index: 0,
            dispatched: Ghost(0),
            channels: config.channels,
            window_size: config.window_size,
            hop_size: config.hop_size,
        };
        assert(0nat % (config.channels as nat) == 0) by {
            vstd::arithmetic::div_mod::lemma_small_mod(0, config.channels as nat);
        }
        assert(0int / (config.channels as int) == 0) by {
            vstd::arithmetic::div_mod::lemma_basic_div(0, config.channels as int);
        }
        r
    }

    /// Answers one request for work, given the number of frames published to
    /// the ring so far. The next item goes out exactly when its whole window
    /// has been published; otherwise nothing changes.
    pub fn dispatch(&mut self, total_length: usize) -> (r: Option<(usize, usize)>)
        requires
            old(self).wf(),
        ensures
            final(self).wf(),
            r is Some <==> total_length >= old(self)@.window_size + old(self)@.next_index,
            match r {
                Some(item) => {
                    &&& (item.0 as nat, item.1 as nat) == nth_work_item(
                        old(self)@.dispatched,
                        old(self)@.channels,
                        old(self)@.hop_size,
                    )
                    &&& final(self)@ == (SchedulerView {
                        dispatched: old(self)@.dispatched + 1,
                        next_chan: nth_work_item(
                            old(self)@.dispatched + 1,
                            old(self)@.channels,
                            old(self)@.hop_size,
                        ).0,
                        next_index: nth_work_item(
                            old(self)@.dispatched + 1,
                            old(self)@.channels,
                            old(self)@.hop_size,
                        ).1,
                        ..old(self)@
                    })
                },
                None => final(self)@ == old(self)@,
            },
    {
        if total_length < self.window_size || total_length - self.window_size < self.next_index {
            return None;
        }
        let item = (self.next_chan, self.next_index);
        let ghost d = self.dispatched@;
        let ghost n = self.channels as int;
        proof {
            lemma_mod_succ(d as int, n);
            lemma_fundamental_div_mod(d as int, n);
            lemma_mod_pos_bound(d as int, n);
        }
        if self.next_chan + 1 >= self.channels {
            self.next_chan = 0;
            self.next_index = self.next_index + self.hop_size;
            proof {
                assert(((d as int) / n + 1) * self.hop_size == ((d as int) / n) * self.hop_size + self.hop_size)
                    by (nonlinear_arith);
            }
        } else {
            self.next_chan = self.next_chan + 1;
        }
        self.dispatched = Ghost(d + 1);
        Some(item)
    }

    /// Channel of the next item.
    pub fn next_chan(&self) -> (r: usize)
        ensures
            r == self@.next_chan,
    {
        self.next_chan
    }

    /// Start index of the next item.
    pub fn next_index(&self) -> (r: usize)
        ensures
            r == self@.next_index,
    {
        self.next_index
    }
}

/// Dispatch order, step by step: after item `(c, i)` comes `(c + 1, i)`, or
/// `(0, i + hop_size)` once every channel has had window `i`.
pub proof fn lemma_work_item_successor(k: nat, channels: nat, hop_size: nat)
    requires
        channels > 0,
    ensures
        nth_work_item(k + 1, channels, hop_size) == if nth_work_item(k, channels, hop_size).0 + 1
            == channels {
            (0nat, (nth_work_item(k, channels, hop_size).1 + hop_size) as nat)
        } else {
            (
                (nth_work_item(k, channels, hop_size).0 + 1) as nat,
                nth_work_item(k, channels, hop_size).1,
            )
        },
{
    lemma_mod_succ(k as int, channels as int);
    lemma_fundamental_div_mod(k as int, channels as int);
    lemma_mod_pos_bound(k as int, channels as int);
    let q = k as int / channels as int;
    assert((q + 1) * hop_size == q * hop_size + hop_size) by (nonlinear_arith);
}

/// Dispatch order has no duplicates: two different positions in the order
/// carry two different items.
pub proof fn lemma_work_items_distinct(k1: nat, k2: nat, channels: nat, hop_size: nat)
    requires
        channels > 0,
        hop_size > 0,
        k1 != k2,
    ensures
        nth_work_item(k1, channels, hop_size) != nth_work_item(k2, channels, hop_size),
{
    let n = channels as int;
    lemma_fundamental_div_mod(k1 as int, n);
    lemma_fundamental_div_mod(k2 as int, n);
    lemma_mod_pos_bound(k1 as int, n);
    lemma_mod_pos_bound(k2 as int, n);
    let q1 = k1 as int / n;
    let q2 = k2 as int / n;
    if q1 != q2 {
        assert(q1 * hop_size != q2 * hop_size) by (nonlinear_arith)
            requires
                q1 != q2,
                hop_size > 0,
        ;
    }
}

/// The first pass: the `c`-th item of the order is channel `c` at start index
/// 0, for each channel `c`.
pub proof fn lemma_first_pass(c: nat, channels: nat, hop_size: nat)
    requires
        c < channels,
    ensures
        nth_work_item(c, channels, hop_size) == (c, 0nat),
{
    vstd::arithmetic::div_mod::lemma_small_mod(c, channels);
    vstd::arithmetic::div_mod::lemma_basic_div(c as int, channels as int);
}

} // verus!
