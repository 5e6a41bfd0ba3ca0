//! The queueing stage: samples arrive one at a time from capture, wait in a
//! staging deque, and are published to the ring in whole frames once enough
//! have gathered.
use crate::config::StftConfig;
use crate::ring::{
    frame_lane, lane, lemma_lane_extend, lemma_mod_succ, lemma_whole_frames_demux, FftQueue,
};
use std::collections::VecDeque;
use vstd::arithmetic::div_mod::{
    lemma_fundamental_div_mod, lemma_fundamental_div_mod_converse, lemma_mod_pos_bound,
    lemma_mod_self_0, lemma_small_mod,
};
use vstd::prelude::*;

verus! {

/// What the stage holds: the staged samples, whether the first (priming)
/// publication has happened, the number of frames published so far, and the
/// parameters that its thresholds come from.
pub struct StagerView<T> {
    pub staged: Seq<T>,
    pub primed: bool,
    pub total_length: nat,
    pub channels: nat,
    pub window_size: nat,
    pub hop_size: nat,
}

/// Frames that must be staged before the next publication: a whole window
/// before the first one, a hop after that.
pub open spec fn threshold_frames<T>(v: StagerView<T>) -> nat {
    if v.primed {
        v.hop_size
    } else {
        v.window_size
    }
}

/// Whole frames among the staged samples.
pub open spec fn staged_frames<T>(v: StagerView<T>) -> nat {
    v.staged.len() / v.channels
}

/// Staging deque in front of the sample ring.
pub struct Stager<T> {
    staged: VecDeque<T>,
    primed: bool,
    total_length: usize,
    channels: usize,
    window_size: usize,
    hop_size: usize,
}

impl<T> View for Stager<T> {
    type V = StagerView<T>;

    closed spec fn view(&self) -> StagerView<T> {
        StagerView {
            staged: self.staged@,
            primed: self.primed,
            total_length: self.total_length as nat,
            channels: self.channels as nat,
            window_size: self.window_size as nat,
            hop_size: self.hop_size as nat,
        }
    }
}

impl<T> Stager<T> {
    pub open spec fn wf(&self) -> bool {
        self@.channels > 0
    }

    /// An empty stage for the analysis `config`.
    pub fn new(config: StftConfig) -> (r: Stager<T>)
        requires
            config.valid(),
        ensures
            r.wf(),
            r@.staged == Seq::<T>::empty(),
            !r@.primed,
            r@.total_length == 0,
            r@.channels == config.channels,
            r@.window_size == config.window_size,
            r@.hop_size == config.hop_size,
    {
        Stager {
            staged: VecDeque::new(),
            primed: false,
            total_length: 0,
            channels: config.channels,
            window_size: config.window_size,
            hop_size: config.hop_size,
        }
    }

    /// Appends one sample of the interleaved stream.
    pub fn stage(&mut self, sample: T)
        ensures
            final(self)@ == (StagerView { staged: old(self)@.staged.push(sample), ..old(self)@ }),
    {
        self.staged.push_back(sample);
    }

    /// Whether enough whole frames are staged for the next publication.
    pub fn ready(&self) -> (r: bool)
        requires
            self.wf(),
        ensures
            r == (staged_frames(self@) >= threshold_frames(self@)),
    {
        let frames = self.staged.len() / self.channels;
        if self.primed {
            frames >= self.hop_size
        } else {
            frames >= self.window_size
        }
    }

    /// Number of frames published so far.
    pub fn total_length(&self) -> (r: usize)
        ensures
            r == self@.total_length,
    {
        self.total_length
    }

    /// Number of staged samples.
    pub fn staged_len(&self) -> (r: usize)
        ensures
            r == self@.staged.len(),
    {
        self.staged.len()
    }

    /// Whether the priming publication has happened.
    pub fn is_primed(&self) -> (r: bool)
        ensures
            r == self@.primed,
    {
        self.primed
    }

    /// Moves every whole staged frame, in order, into `ring` (which must be
    /// at a frame boundary) and counts them; a trailing partial frame stays
    /// staged. Returns the number of frames moved.
    pub fn publish(&mut self, ring: &mut FftQueue<T>) -> (r: usize)
        requires
            old(self).wf(),
            old(ring).wf(),
            old(ring)@.channels.len() == old(self)@.channels,
            old(ring)@.next_chan == 0,
            old(self)@.total_length + staged_frames(old(self)@) <= usize::MAX,
        ensures
            r == staged_frames(old(self)@),
            final(self)@ == (StagerView {
                staged: old(self)@.staged.skip(r * old(self)@.channels),
                primed: true,
                total_length: (old(self)@.total_length + r) as nat,
                ..old(self)@
            }),
            final(ring).wf(),
            final(ring)@.next_chan == 0,
            final(ring)@.pop_count == old(ring)@.pop_count,
            final(ring)@.channels.len() == old(ring)@.channels.len(),
            forall|c: int|
                0 <= c < old(self)@.channels ==> #[trigger] final(ring)@.channels[c]
                    == old(ring)@.channels[c] + frame_lane(
                    old(self)@.staged,
                    r as int,
                    c,
                    old(self)@.channels as int,
                ),
            (forall|c: int|
                0 <= c < old(self)@.channels ==> #[trigger] old(ring)@.channels[c].len()
                    == old(self)@.total_length) ==> (forall|c: int|
                0 <= c < old(self)@.channels ==> #[trigger] final(ring)@.channels[c].len()
                    == final(self)@.total_length),
    {
        let n = self.channels;
        let k = self.staged.len() / n;
        proof {
            lemma_fundamental_div_mod(self.staged@.len() as int, n as int);
            lemma_mod_pos_bound(self.staged@.len() as int, n as int);
            assert(n * k == k * n) by (nonlinear_arith);
        }
        let m = k * n;
        let ghost s = old(self)@.staged;
        let ghost oc = old(ring)@.channels;
        assert(s.take(0) =~= Seq::<T>::empty());
        assert(s.skip(0) =~= s);
        assert(forall|c: int| 0 <= c < n ==> #[trigger] ring@.channels[c] =~= oc[c] + lane(s.take(0), 0, c, n as int));
        let mut i: usize = 0;
        while i < m
            invariant
                0 < n,
                m == k * n,
                m <= s.len(),
                i <= m,
                n == old(self)@.channels,
                self@ == (StagerView { staged: s.skip(i as int), ..old(self)@ }),
                ring.wf(),
                ring@.channels.len() == n,
                oc.len() == n,
                ring@.next_chan == (i as int) % (n as int),
                ring@.pop_count == old(ring)@.pop_count,
                forall|c: int|
                    0 <= c < n ==> #[trigger] ring@.channels[c] == oc[c] + lane(s.take(i as int), 0, c, n as int),
            decreases m - i,
        {
            let ghost before = ring@.channels;
            match self.staged.pop_front() {
                Some(x) => {
                    ring.push(x);
                    proof {
                        assert(x == s[i as int]);
                        lemma_mod_succ(i as int, n as int);
                        lemma_mod_pos_bound(i as int, n as int);
                        if (i as int) % (n as int) + 1 == n {
                            lemma_mod_self_0(n as int);
                        } else {
                            lemma_small_mod(((i as int) % (n as int) + 1) as nat, n as nat);
                        }
                        assert forall|c: int| 0 <= c < n implies #[trigger] ring@.channels[c] == oc[c] + lane(
                            s.take(i + 1),
                            0,
                            c,
                            n as int,
                        ) by {
                            lemma_lane_extend(s, i as int, 0, c, n as int);
                            if c == (i as int) % (n as int) {
                                assert(ring@.channels[c] == before[c].push(x));
                                assert(oc[c] + lane(s.take(i as int), 0, c, n as int).push(x) =~= (oc[c] + lane(s.take(i as int), 0, c, n as int)).push(x));
                            }
                        }
                    }
                },
                None => {},
            }
            proof {
                assert(s.skip(i as int).drop_first() =~= s.skip(i + 1));
            }
            i = i + 1;
        }
        self.primed = true;
        self.total_length = self.total_length + k;
        proof {
            lemma_fundamental_div_mod_converse(m as int, n as int, k as int, 0);
            assert forall|c: int| 0 <= c < n implies #[trigger] ring@.channels[c] == oc[c] + frame_lane(s, k as int, c, n as int) by {
                lemma_whole_frames_demux(s.take(m as int), k as int, c, n as int);
                assert forall|j: int| 0 <= j < k implies #[trigger] (j * n) + c < m by {
                    assert(j * n + c < (j + 1) * n) by (nonlinear_arith)
                        requires c < n;
                    assert((j + 1) * n <= k * n) by (nonlinear_arith)
                        requires j + 1 <= k, n > 0;
                }
                assert(frame_lane(s.take(m as int), k as int, c, n as int) =~= frame_lane(s, k as int, c, n as int));
            }
        }
        k
    }
}

} // verus!
