//! Capture-side decisions: the stream format handed downstream, the pacing
//! timer's settings, and how much a captured packet holds.
use vstd::prelude::*;

verus! {

/// Events the capture thread reports to the coordinator.
#[derive(Clone, Copy, Debug, PartialEq, Eq, Structural)]
pub enum CaptureEvent {
    /// The loopback stream has started.
    Start,
    /// The capture thread is exiting.
    Exit,
}

/// The negotiated stream format: interleaved 32-bit float samples.
#[derive(Clone, Copy, Debug, PartialEq, Eq, Structural)]
pub struct WaveFormat {
    pub channels: u16,
    pub sample_rate_hz: u32,
    pub bits_per_sample: u16,
}

/// Fatal conditions met while capturing.
#[derive(Clone, Copy, Debug, PartialEq, Eq, Structural)]
pub enum CaptureError {
    /// The engine announced a packet but handed over zero frames.
    EmptyPacket,
    /// A packet larger than this machine can address.
    PacketTooLarge,
    /// The device period gives no usable timer setting.
    BadDevicePeriod,
}

/// Number of interleaved samples in a packet of `frames` frames of
/// `channels` channels; a packet of zero frames is a protocol error.
pub fn packet_sample_count(frames: u32, channels: u16) -> (r: Result<usize, CaptureError>)
    ensures
        frames == 0 ==> r == Err::<usize, CaptureError>(CaptureError::EmptyPacket),
        frames > 0 && frames * channels <= usize::MAX ==> r == Ok::<usize, CaptureError>(
            (frames * channels) as usize,
        ),
        frames > 0 && frames * channels > usize::MAX ==> r == Err::<usize, CaptureError>(
            CaptureError::PacketTooLarge,
        ),
{
    if frames == 0 {
        return Err(CaptureError::EmptyPacket);
    }
    assert(frames as u64 * channels as u64 <= 0xffff_ffff * 0xffff) by (nonlinear_arith)
        requires
            frames <= 0xffff_ffff,
            channels <= 0xffff,
    ;
    let n = frames as u64 * channels as u64;
    if n > usize::MAX as u64 {
        Err(CaptureError::PacketTooLarge)
    } else {
        Ok(n as usize)
    }
}

/// Settings of the capture pacing timer for a device period of
/// `period_hns` (in 100 ns units): a first expiry half a period from now
/// (negative: relative) and then a period of half the device period, in whole
/// milliseconds. An error where the period is not positive or the interval
/// does not fit the timer.
pub fn timer_schedule(period_hns: i64) -> (r: Result<(i64, i32), CaptureError>)
    ensures
        r is Ok <==> period_hns > 0 && period_hns / 2 / 10_000 <= i32::MAX,
        r matches Ok((due, period_ms)) ==> due == -(period_hns / 2) && period_ms == period_hns / 2
            / 10_000,
        r matches Err(e) ==> e == CaptureError::BadDevicePeriod,
{
    if period_hns <= 0 {
        return Err(CaptureError::BadDevicePeriod);
    }
    let half = period_hns / 2;
    let ms = half / 10_000;
    if ms > i32::MAX as i64 {
        return Err(CaptureError::BadDevicePeriod);
    }
    Ok((-half, ms as i32))
}

} // verus!
