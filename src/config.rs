//! Run-time parameters of the short-time analysis, derived from the
//! negotiated stream format.
use vstd::prelude::*;

verus! {

/// Number of whole samples that `ms` milliseconds last at `rate_hz`.
pub open spec fn samples_in_ms(rate_hz: int, ms: int) -> int {
    rate_hz * ms / 1000
}

/// The transform bin whose centre frequency is nearest to `freq_hz`, for a
/// window of `window_size` samples at `rate_hz` (ties round up).
pub open spec fn nearest_bin(freq_hz: int, window_size: int, rate_hz: int) -> int {
    (freq_hz * window_size + rate_hz / 2) / rate_hz
}

/// Parameters of the short-time analysis of a `channels`-channel stream.
#[derive(Clone, Copy, Debug, PartialEq, Eq)]
pub struct StftConfig {
    /// Number of interleaved channels.
    pub channels: usize,
    /// Samples per transform window.
    pub window_size: usize,
    /// Samples between the starts of two successive windows of one channel.
    pub hop_size: usize,
    /// First bin forwarded to the feedback stage.
    pub min_bin: usize,
    /// Last bin (inclusive) forwarded to the feedback stage.
    pub max_bin: usize,
}

/// Whether the five parameters describe a usable analysis: at least one
/// channel, a non-empty window, a hop that leaves no sample unanalysed, and a
/// band that lies inside the window's spectrum.
pub open spec fn config_valid(
    channels: int,
    window_size: int,
    hop_size: int,
    min_bin: int,
    max_bin: int,
) -> bool {
    &&& channels > 0
    &&& window_size > 0
    &&& 0 < hop_size <= window_size
    &&& min_bin <= max_bin < window_size
}

impl StftConfig {
    pub open spec fn valid(&self) -> bool {
        config_valid(
            self.channels as int,
            self.window_size as int,
            self.hop_size as int,
            self.min_bin as int,
            self.max_bin as int,
        )
    }

    /// The configuration with exactly these parameters, if they are valid.
    pub fn new(
        channels: usize,
        window_size: usize,
        hop_size: usize,
        min_bin: usize,
        max_bin: usize,
    ) -> (r: Option<StftConfig>)
        ensures
            r is Some <==> config_valid(
                channels as int,
                window_size as int,
                hop_size as int,
                min_bin as int,
                max_bin as int,
            ),
            r matches Some(c) ==> c.channels == channels && c.window_size == window_size
                && c.hop_size == hop_size && c.min_bin == min_bin && c.max_bin == max_bin,
    {
        if channels > 0 && window_size > 0 && hop_size > 0 && hop_size <= window_size
            && min_bin <= max_bin && max_bin < window_size {
            Some(StftConfig { channels, window_size, hop_size, min_bin, max_bin })
        } else {
            None
        }
    }

    /// The configuration for a stream of `channels` channels at
    /// `sample_rate_hz`, with windows of `window_ms` milliseconds started every
    /// `hop_ms` milliseconds, forwarding the bins nearest to the band
    /// `[min_freq_hz, max_freq_hz]`. `None` where those do not give a valid
    /// configuration.
    pub fn for_stream(
        channels: u16,
        sample_rate_hz: u32,
        window_ms: u32,
        hop_ms: u32,
        min_freq_hz: u32,
        max_freq_hz: u32,
    ) -> (r: Option<StftConfig>)
        ensures
            sample_rate_hz == 0 ==> r is None,
            sample_rate_hz > 0 ==> {
                let w = samples_in_ms(sample_rate_hz as int, window_ms as int);
                let h = samples_in_ms(sample_rate_hz as int, hop_ms as int);
                let lo = nearest_bin(min_freq_hz as int, w, sample_rate_hz as int);
                let hi = nearest_bin(max_freq_hz as int, w, sample_rate_hz as int);
                &&& r is Some <==> config_valid(channels as int, w, h, lo, hi) && w <= usize::MAX
                &&& r matches Some(c) ==> c.channels == channels && c.window_size == w
                    && c.hop_size == h && c.min_bin == lo && c.max_bin == hi
            },
    {
        if sample_rate_hz == 0 {
            return None;
        }
        let rate = sample_rate_hz as u64;
        assert(rate * (window_ms as u64) <= 0xffff_ffff_ffff_ffff) by (nonlinear_arith)
            requires
                rate <= 0xffff_ffff,
                window_ms <= 0xffff_ffff,
        ;
        assert(rate * (hop_ms as u64) <= 0xffff_ffff_ffff_ffff) by (nonlinear_arith)
            requires
                rate <= 0xffff_ffff,
                hop_ms <= 0xffff_ffff,
        ;
        let w = rate * (window_ms as u64) / 1000;
        let h = rate * (hop_ms as u64) / 1000;
        if w > usize::MAX as u64 {
            // a window this long could not be held in memory
            return None;
        }
        if h > w {
            // windows would leave samples unanalysed
            return None;
        }
        let lo = match nearest_bin_of(min_freq_hz, w as usize, sample_rate_hz) {
            Some(b) => b,
            None => return None,
        };
        let hi = match nearest_bin_of(max_freq_hz, w as usize, sample_rate_hz) {
            Some(b) => b,
            None => return None,
        };
        StftConfig::new(channels as usize, w as usize, h as usize, lo, hi)
    }
}

/// The bin nearest to `freq_hz` for a window of `window_size` samples at
/// `sample_rate_hz`; `None` for a zero rate, or where the bin number would
/// not fit in a `usize`.
pub fn nearest_bin_of(freq_hz: u32, window_size: usize, sample_rate_hz: u32) -> (r: Option<usize>)
    ensures
        sample_rate_hz == 0 ==> r is None,
        sample_rate_hz > 0 ==> {
            let b = nearest_bin(freq_hz as int, window_size as int, sample_rate_hz as int);
            &&& r is Some <==> b <= usize::MAX
            &&& r matches Some(x) ==> x == b
        },
{
    if sample_rate_hz == 0 {
        return None;
    }
    let rate = sample_rate_hz as u128;
    assert(freq_hz as u128 * window_size as u128 <= 0xffff_ffff_ffff_ffff_ffff_ffff) by (nonlinear_arith)
        requires
            window_size <= 0xffff_ffff_ffff_ffff,
            freq_hz <= 0xffff_ffff,
    ;
    let b = (freq_hz as u128 * window_size as u128 + rate / 2) / rate;
    if b > usize::MAX as u128 {
        None
    } else {
        Some(b as usize)
    }
}

} // verus!
