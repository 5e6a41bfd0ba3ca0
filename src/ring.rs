//! The sample ring: one ordered sequence of samples per channel, filled from
//! a flat interleaved stream.
use std::collections::VecDeque;
use vstd::arithmetic::div_mod::{
    lemma_fundamental_div_mod, lemma_fundamental_div_mod_converse, lemma_mod_pos_bound,
    lemma_mod_self_0, lemma_small_mod,
};
use vstd::prelude::*;

verus! {

/// The samples of the interleaved stream `s` that reach channel `c` of `n`,
/// in order, when the first sample of `s` goes to channel `first`.
pub open spec fn lane<T>(s: Seq<T>, first: int, c: int, n: int) -> Seq<T>
    decreases s.len(),
{
    if s.len() == 0 {
        Seq::empty()
    } else {
        let init = lane(s.drop_last(), first, c, n);
        if (first + s.len() - 1) % n == c {
            init.push(s.last())
        } else {
            init
        }
    }
}

/// Channel `c`'s share of `k` whole frames of `n` interleaved samples:
/// the samples at positions `c`, `c + n`, `c + 2n`, ...
pub open spec fn frame_lane<T>(s: Seq<T>, k: int, c: int, n: int) -> Seq<T> {
    Seq::new(k as nat, |j: int| s[j * n + c])
}

/// What a ring holds: each channel's samples, the channel the next pushed
/// sample goes to, and how many reads have been made.
pub struct RingView<T> {
    pub channels: Seq<Seq<T>>,
    pub next_chan: nat,
    pub pop_count: nat,
}

/// Per-channel sample ring.
pub struct FftQueue<T> {
    pop_count: usize,
    next_chan: usize,
    queue: Vec<VecDeque<T>>,
}

impl<T> View for FftQueue<T> {
    type V = RingView<T>;

    closed spec fn view(&self) -> RingView<T> {
        RingView {
            channels: self.queue@.map_values(|d: VecDeque<T>| d@),
            next_chan: self.next_chan as nat,
            pop_count: self.pop_count as nat,
        }
    }
}

impl<T> FftQueue<T> {
    /// The next channel to be pushed to is a channel of the ring.
    pub open spec fn wf(&self) -> bool {
        ||| self@.next_chan < self@.channels.len()
        ||| (self@.channels.len() == 0 && self@.next_chan == 0)
    }

    /// An empty ring of `n_chan` channels.
    pub fn new(n_chan: usize) -> (r: FftQueue<T>)
        ensures
            r.wf(),
            r@.channels == Seq::new(n_chan as nat, |i: int| Seq::<T>::empty()),
            r@.next_chan == 0,
            r@.pop_count == 0,
    {
        let mut queue: Vec<VecDeque<T>> = Vec::new();
        let mut i: usize = 0;
        while i < n_chan
            invariant
                i <= n_chan,
                queue@.len() == i,
                forall|j: int| 0 <= j < i ==> (#[trigger] queue@[j])@ == Seq::<T>::empty(),
            decreases n_chan - i,
        {
            queue.push(VecDeque::new());
            i = i + 1;
        }
        let r = FftQueue { queue, next_chan: 0, pop_count: 0 };
        assert(r@.channels =~= Seq::new(n_chan as nat, |i: int| Seq::<T>::empty()));
        r
    }

    /// Appends `sample` to the next channel and moves on to the following
    /// channel, cyclically.
    pub fn push(&mut self, sample: T)
        requires
            old(self).wf(),
            old(self)@.channels.len() > 0,
        ensures
            final(self).wf(),
            final(self)@.channels == old(self)@.channels.update(
                old(self)@.next_chan as int,
                old(self)@.channels[old(self)@.next_chan as int].push(sample),
            ),
            final(self)@.next_chan == (old(self)@.next_chan + 1) % old(self)@.channels.len(),
            final(self)@.pop_count == old(self)@.pop_count,
    {
        let n = self.get_n_chan();
        let c = self.next_chan;
        self.queue[c].push_back(sample);
        if c + 1 >= n {
            self.next_chan = 0;
            proof {
                lemma_mod_self_0(n as int);
            }
        } else {
            self.next_chan = c + 1;
            proof {
                lemma_small_mod((c + 1) as nat, n as nat);
            }
        }
        assert(self@.channels =~= old(self)@.channels.update(
            old(self)@.next_chan as int,
            old(self)@.channels[old(self)@.next_chan as int].push(sample),
        ));
    }

    /// Takes the oldest sample of channel `n_chan`, if it has one, and counts
    /// the read.
    pub fn read(&mut self, n_chan: usize) -> (r: Option<T>)
        requires
            old(self).wf(),
            n_chan < old(self)@.channels.len(),
            old(self)@.pop_count < usize::MAX,
        ensures
            final(self).wf(),
            final(self)@.pop_count == old(self)@.pop_count + 1,
            final(self)@.next_chan == old(self)@.next_chan,
            match r {
                Some(x) => {
                    &&& old(self)@.channels[n_chan as int].len() > 0
                    &&& x == old(self)@.channels[n_chan as int][0]
                    &&& final(self)@.channels == old(self)@.channels.update(
                        n_chan as int,
                        old(self)@.channels[n_chan as int].drop_first(),
                    )
                },
                None => {
                    &&& old(self)@.channels[n_chan as int].len() == 0
                    &&& final(self)@.channels == old(self)@.channels
                },
            },
    {
        self.pop_count = self.pop_count + 1;
        let r = self.queue[n_chan].pop_front();
        proof {
            let oc = old(self)@.channels;
            if r is Some {
                assert(self@.channels =~= oc.update(n_chan as int, oc[n_chan as int].drop_first()));
            } else {
                assert(self@.channels =~= oc);
            }
        }
        r
    }

    /// Number of channels.
    pub fn get_n_chan(&self) -> (r: usize)
        ensures
            r == self@.channels.len(),
    {
        self.queue.len()
    }

    /// The channel that the next pushed sample goes to.
    pub fn next_chan(&self) -> (r: usize)
        ensures
            r == self@.next_chan,
    {
        self.next_chan
    }

    /// How many reads have been made.
    pub fn pop_count(&self) -> (r: usize)
        ensures
            r == self@.pop_count,
    {
        self.pop_count
    }

    /// Number of samples that channel `chan` holds.
    pub fn channel_len(&self, chan: usize) -> (r: usize)
        requires
            chan < self@.channels.len(),
        ensures
            r == self@.channels[chan as int].len(),
    {
        self.queue[chan].len()
    }
}

impl<T: Copy> FftQueue<T> {
    /// Copies the `window_size` samples of channel `chan` that start at
    /// `start_index` (counted from the channel's oldest sample) into the
    /// front of `buffer`.
    pub fn set_buffer(&self, buffer: &mut Vec<T>, chan: usize, start_index: usize, window_size: usize)
        requires
            chan < self@.channels.len(),
            start_index + window_size <= self@.channels[chan as int].len(),
            window_size <= old(buffer)@.len(),
        ensures
            final(buffer)@ == self@.channels[chan as int].subrange(
                start_index as int,
                start_index + window_size,
            ) + old(buffer)@.subrange(window_size as int, old(buffer)@.len() as int),
    {
        let d = &self.queue[chan];
        let len = d.len();
        let mut i: usize = 0;
        while i < window_size
            invariant
                chan < self@.channels.len(),
                d@ == self@.channels[chan as int],
                len == d@.len(),
                i <= window_size,
                start_index + window_size <= d@.len(),
                buffer@.len() == old(buffer)@.len(),
                window_size <= buffer@.len(),
                forall|j: int| 0 <= j < i ==> buffer@[j] == d@[start_index + j],
                forall|j: int| window_size <= j < buffer@.len() ==> buffer@[j] == old(buffer)@[j],
            decreases window_size - i,
        {
            let x: T = d[start_index + i];
            buffer.set(i, x);
            i = i + 1;
        }
        assert(buffer@ =~= self@.channels[chan as int].subrange(
            start_index as int,
            start_index + window_size,
        ) + old(buffer)@.subrange(window_size as int, old(buffer)@.len() as int));
    }
}

/// Counting up by one moves the remainder by one, wrapping to 0 (and
/// carrying into the quotient) at `n`.
pub(crate) proof fn lemma_mod_succ(i: int, n: int)
    requires
        0 <= i,
        0 < n,
    ensures
        (i + 1) % n == if i % n + 1 == n {
            0
        } else {
            i % n + 1
        },
        (i + 1) / n == if i % n + 1 == n {
            i / n + 1
        } else {
            i / n
        },
{
    lemma_fundamental_div_mod(i, n);
    lemma_mod_pos_bound(i, n);
    assert(n * (i / n) == (i / n) * n) by (nonlinear_arith);
    if i % n + 1 == n {
        assert((i / n + 1) * n == (i / n) * n + n) by (nonlinear_arith);
        lemma_fundamental_div_mod_converse(i + 1, n, i / n + 1, 0);
    } else {
        lemma_fundamental_div_mod_converse(i + 1, n, i / n, i % n + 1);
    }
}

/// One more sample of the stream extends exactly the lane of the channel it
/// goes to.
pub proof fn lemma_lane_extend<T>(s: Seq<T>, i: int, first: int, c: int, n: int)
    requires
        0 <= i < s.len(),
    ensures
        lane(s.take(i + 1), first, c, n) == if (first + i) % n == c {
            lane(s.take(i), first, c, n).push(s[i])
        } else {
            lane(s.take(i), first, c, n)
        },
{
    assert(s.take(i + 1).drop_last() =~= s.take(i));
}

/// Shape of a lane of a stream that starts at channel 0: after `len` samples,
/// channel `c` holds the samples at positions `c`, `c + n`, ..., one for each
/// such position below `len`.
proof fn lemma_lane_shape<T>(s: Seq<T>, c: int, n: int, len: int)
    requires
        0 <= c < n,
        0 <= len <= s.len(),
    ensures
        lane(s.take(len), 0, c, n).len() == (len + n - 1 - c) / n,
        forall|j: int|
            0 <= j < lane(s.take(len), 0, c, n).len() ==> #[trigger] lane(s.take(len), 0, c, n)[j]
                == s[j * n + c],
    decreases len,
{
    if len == 0 {
        lemma_fundamental_div_mod_converse(n - 1 - c, n, 0, n - 1 - c);
    } else {
        let l = len - 1;
        lemma_lane_shape(s, c, n, l);
        lemma_lane_extend(s, l, 0, c, n);
        let a = l / n;
        let r = l % n;
        lemma_fundamental_div_mod(l, n);
        lemma_mod_pos_bound(l, n);
        assert(n * a == a * n) by (nonlinear_arith);
        assert((a + 1) * n == a * n + n) by (nonlinear_arith);
        if r == c {
            lemma_fundamental_div_mod_converse(l + n - 1 - c, n, a, n - 1);
            lemma_fundamental_div_mod_converse(len + n - 1 - c, n, a + 1, 0);
        } else if r > c {
            lemma_fundamental_div_mod_converse(l + n - 1 - c, n, a + 1, r - 1 - c);
            lemma_fundamental_div_mod_converse(len + n - 1 - c, n, a + 1, r - c);
        } else {
            lemma_fundamental_div_mod_converse(l + n - 1 - c, n, a, n - 1 - c + r);
            lemma_fundamental_div_mod_converse(len + n - 1 - c, n, a, n - c + r);
        }
    }
}

/// Demultiplexing law: pushing `k` whole frames of `n` interleaved samples,
/// starting at channel 0, gives channel `c` exactly the samples at positions
/// `c`, `c + n`, `c + 2n`, ..., in order.
pub proof fn lemma_whole_frames_demux<T>(s: Seq<T>, k: int, c: int, n: int)
    requires
        0 <= c < n,
        0 <= k,
        s.len() == k * n,
    ensures
        lane(s, 0, c, n) == frame_lane(s, k, c, n),
{
    assert(s.take(s.len() as int) =~= s);
    lemma_lane_shape(s, c, n, s.len() as int);
    lemma_fundamental_div_mod_converse(k * n + n - 1 - c, n, k, n - 1 - c);
    assert(lane(s, 0, c, n) =~= frame_lane(s, k, c, n));
}

} // verus!
