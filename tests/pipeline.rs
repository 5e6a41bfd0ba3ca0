use anti_noise::capture::{packet_sample_count, timer_schedule, CaptureError, CaptureEvent};
use anti_noise::clock::{get_now_milli_unix_time, get_now_unix_time};
use anti_noise::config::{nearest_bin_of, StftConfig};
use anti_noise::coordinator::{step, RunAction, RunEvent, RunState};
use anti_noise::feedback::{target_offset, FeedbackFilter};
use anti_noise::render::{
    available_frames, fill_samples, release_flags, sample_width, AUDCLNT_BUFFERFLAGS_SILENT,
};
use anti_noise::ring::FftQueue;
use anti_noise::scheduler::FftScheduler;
use anti_noise::staging::Stager;

fn small_config() -> StftConfig {
    StftConfig::new(2, 4, 2, 1, 1).unwrap()
}

fn feed(stager: &mut Stager<f32>, ring: &mut FftQueue<f32>, samples: &[f32]) {
    for s in samples {
        stager.stage(*s);
        if stager.ready() {
            stager.publish(ring);
        }
    }
}

fn window(ring: &FftQueue<f32>, chan: usize, start: usize, n: usize) -> Vec<f32> {
    let mut buf = vec![0.0f32; n];
    ring.set_buffer(&mut buf, chan, start, n);
    buf
}

#[test]
fn plumbing_windows_follow_dispatch_order() {
    let config = small_config();
    let mut ring = FftQueue::new(2);
    let mut stager = Stager::new(config);
    let mut scheduler = FftScheduler::new(config);
    feed(
        &mut stager,
        &mut ring,
        &[1.0, 10.0, 2.0, 20.0, 3.0, 30.0, 4.0, 40.0, 5.0, 50.0, 6.0, 60.0],
    );
    assert_eq!(stager.total_length(), 6);
    let total = stager.total_length();

    assert_eq!(scheduler.dispatch(total), Some((0, 0)));
    assert_eq!(window(&ring, 0, 0, 4), vec![1.0, 2.0, 3.0, 4.0]);
    assert_eq!(scheduler.dispatch(total), Some((1, 0)));
    assert_eq!(window(&ring, 1, 0, 4), vec![10.0, 20.0, 30.0, 40.0]);
    assert_eq!(scheduler.dispatch(total), Some((0, 2)));
    assert_eq!(window(&ring, 0, 2, 4), vec![3.0, 4.0, 5.0, 6.0]);
    assert_eq!(scheduler.dispatch(total), Some((1, 2)));
    assert_eq!(window(&ring, 1, 2, 4), vec![30.0, 40.0, 50.0, 60.0]);
    // the next window would need two more frames
    assert_eq!(scheduler.dispatch(total), None);
    assert_eq!((scheduler.next_chan(), scheduler.next_index()), (0, 4));
}

#[test]
fn scheduler_holds_back_until_a_window_is_published() {
    let config = small_config();
    let mut ring = FftQueue::new(2);
    let mut stager = Stager::new(config);
    let mut scheduler = FftScheduler::new(config);
    feed(&mut stager, &mut ring, &[1.0, 10.0, 2.0, 20.0, 3.0, 30.0]);
    assert_eq!(stager.total_length(), 0);
    assert!(!stager.is_primed());
    assert_eq!(stager.staged_len(), 6);
    for _ in 0..5 {
        assert_eq!(scheduler.dispatch(stager.total_length()), None);
    }
    assert_eq!(scheduler.next_chan(), 0);
    assert_eq!(scheduler.next_index(), 0);
}

#[test]
fn feedback_filter_accepts_only_the_next_whole_window() {
    let mut filter = FeedbackFilter::new(4, 5, 1);
    assert!(filter.accept(0, 1_000));
    assert_eq!(filter.last_check_index(), Some(0));
    assert_eq!(filter.last_update_ms(), 1_000);
    assert!(!filter.accept(3, 2_000));
    assert_eq!(filter.last_check_index(), Some(0));
    assert!(filter.accept(4, 3_000));
    assert_eq!(filter.last_check_index(), Some(4));
    assert_eq!(filter.last_update_ms(), 3_000);
}

#[test]
fn feedback_filter_waits_for_the_correction_to_settle() {
    let mut filter = FeedbackFilter::new(4, 5, 1);
    assert!(filter.accept(0, 100));
    // 100 + 1 + 5 = 106 is the first moment the next window may be used
    assert!(!filter.accept(4, 105));
    assert_eq!(filter.last_update_ms(), 100);
    assert!(filter.accept(4, 106));
    assert!(!filter.accept(4, 200));
    assert!(filter.accept(8, 200));
}

#[test]
fn silent_synthesizer_marks_every_buffer_silent() {
    let mut buf = vec![7u8; 2 * 2 * 4];
    for _ in 0..3 {
        let samples: Vec<Option<u32>> = vec![None; 4];
        let any = fill_samples(&mut buf, &samples, 4);
        assert!(!any);
        assert_eq!(release_flags(any, false), AUDCLNT_BUFFERFLAGS_SILENT);
    }
    assert_eq!(buf, vec![7u8; 16]);
}

#[test]
fn filled_buffer_holds_little_endian_samples() {
    let mut buf = vec![0u8; 8];
    let a = 0.5f32.to_bits();
    let samples = vec![Some(a), None];
    let any = fill_samples(&mut buf, &samples, 4);
    assert!(any);
    assert_eq!(&buf[0..4], &0.5f32.to_le_bytes());
    assert_eq!(&buf[4..8], &[0, 0, 0, 0]);
    assert_eq!(release_flags(any, false), 0);
    assert_eq!(release_flags(any, true), AUDCLNT_BUFFERFLAGS_SILENT);
}

#[test]
fn filled_buffer_with_wide_slots_keeps_extra_bytes() {
    let mut buf = vec![9u8; 12];
    let samples = vec![Some(0x0403_0201u32), Some(0x0807_0605u32)];
    assert!(fill_samples(&mut buf, &samples, 6));
    assert_eq!(buf, vec![1, 2, 3, 4, 9, 9, 5, 6, 7, 8, 9, 9]);
    let mut narrow = vec![0u8; 4];
    assert!(fill_samples(&mut narrow, &samples, 2));
    assert_eq!(narrow, vec![1, 2, 5, 6]);
}

#[test]
fn available_frames_cases() {
    assert_eq!(available_frames(480, 120), Some(360));
    assert_eq!(available_frames(480, 480), None);
    assert_eq!(available_frames(480, 500), None);
    assert_eq!(available_frames(480, 0), Some(480));
}

#[test]
fn demultiplexing_gives_each_channel_every_nth_sample() {
    let mut ring = FftQueue::new(3);
    for s in 0..12u32 {
        ring.push(s);
    }
    assert_eq!(ring.next_chan(), 0);
    for c in 0..3usize {
        assert_eq!(ring.channel_len(c), 4);
        let mut buf = vec![0u32; 4];
        ring.set_buffer(&mut buf, c, 0, 4);
        let expected: Vec<u32> = (0..4u32).map(|j| j * 3 + c as u32).collect();
        assert_eq!(buf, expected);
    }
}

#[test]
fn published_length_matches_every_channel() {
    let config = StftConfig::new(3, 2, 1, 0, 1).unwrap();
    let mut ring = FftQueue::new(3);
    let mut stager = Stager::new(config);
    for s in 0..20u32 {
        stager.stage(s);
        if stager.ready() {
            stager.publish(&mut ring);
            for c in 0..3 {
                assert_eq!(ring.channel_len(c), stager.total_length());
            }
        }
    }
    // 20 samples = 6 whole frames and two samples of a seventh
    assert_eq!(stager.total_length(), 6);
    assert_eq!(stager.staged_len(), 2);
}

#[test]
fn publish_keeps_a_partial_frame_staged() {
    let config = small_config();
    let mut ring = FftQueue::new(2);
    let mut stager = Stager::new(config);
    for s in [1u8, 2, 3, 4, 5] {
        stager.stage(s);
    }
    assert_eq!(stager.publish(&mut ring), 2);
    assert_eq!(stager.staged_len(), 1);
    assert_eq!(ring.next_chan(), 0);
    assert!(stager.is_primed());
    assert_eq!(stager.total_length(), 2);
}

#[test]
fn scheduler_dispatches_round_robin_without_skips() {
    let config = StftConfig::new(3, 4, 2, 0, 0).unwrap();
    let mut scheduler = FftScheduler::new(config);
    let mut seen = Vec::new();
    while let Some(item) = scheduler.dispatch(100) {
        seen.push(item);
    }
    let expected: Vec<(usize, usize)> = (0..seen.len()).map(|k| (k % 3, (k / 3) * 2)).collect();
    assert_eq!(seen, expected);
    // the last start index dispatched is the last whose window fits in 100 frames
    assert_eq!(seen.last(), Some(&(2, 96)));
    assert_eq!(seen.len(), 49 * 3);
}

#[test]
fn ring_read_pops_and_counts() {
    let mut ring = FftQueue::new(2);
    assert_eq!(ring.read(1), None);
    assert_eq!(ring.pop_count(), 1);
    ring.push('a');
    ring.push('b');
    ring.push('c');
    assert_eq!(ring.read(0), Some('a'));
    assert_eq!(ring.read(0), Some('c'));
    assert_eq!(ring.read(0), None);
    assert_eq!(ring.read(1), Some('b'));
    assert_eq!(ring.pop_count(), 5);
    assert_eq!(ring.get_n_chan(), 2);
}

#[test]
fn config_rejects_invalid_parameters() {
    assert!(StftConfig::new(0, 4, 2, 0, 1).is_none());
    assert!(StftConfig::new(2, 0, 0, 0, 0).is_none());
    assert!(StftConfig::new(2, 4, 0, 0, 1).is_none());
    assert!(StftConfig::new(2, 4, 5, 0, 1).is_none());
    assert!(StftConfig::new(2, 4, 2, 2, 1).is_none());
    assert!(StftConfig::new(2, 4, 2, 1, 4).is_none());
    assert_eq!(
        StftConfig::new(2, 4, 2, 1, 3),
        Some(StftConfig { channels: 2, window_size: 4, hop_size: 2, min_bin: 1, max_bin: 3 })
    );
}

#[test]
fn config_for_a_48k_stream() {
    let c = StftConfig::for_stream(2, 48_000, 5, 1, 980, 1020).unwrap();
    assert_eq!(c.channels, 2);
    assert_eq!(c.window_size, 240);
    assert_eq!(c.hop_size, 48);
    // bins are 200 Hz apart: 980 Hz and 1020 Hz are both nearest to bin 5
    assert_eq!(c.min_bin, 5);
    assert_eq!(c.max_bin, 5);
    let wide = StftConfig::for_stream(2, 44_100, 20, 5, 900, 1100).unwrap();
    assert_eq!(wide.window_size, 882);
    assert_eq!(wide.hop_size, 220);
    assert_eq!(wide.min_bin, 18);
    assert_eq!(wide.max_bin, 22);
}

#[test]
fn config_for_stream_rejects_unusable_formats() {
    assert!(StftConfig::for_stream(2, 0, 5, 1, 980, 1020).is_none());
    assert!(StftConfig::for_stream(0, 48_000, 5, 1, 980, 1020).is_none());
    assert!(StftConfig::for_stream(2, 48_000, 1, 5, 980, 1020).is_none());
    assert!(StftConfig::for_stream(2, 48_000, 5, 0, 980, 1020).is_none());
    assert!(StftConfig::for_stream(2, 48_000, 5, 1, 1200, 800).is_none());
    assert!(StftConfig::for_stream(2, 48_000, 5, 1, 980, 48_000).is_none());
}

#[test]
fn target_offset_picks_the_nearest_band_bin() {
    assert_eq!(target_offset(5, 5, 5), 0);
    assert_eq!(target_offset(7, 5, 9), 2);
    assert_eq!(target_offset(2, 5, 9), 0);
    assert_eq!(target_offset(12, 5, 9), 4);
}

#[test]
fn packet_sizes() {
    assert_eq!(packet_sample_count(0, 2), Err(CaptureError::EmptyPacket));
    assert_eq!(packet_sample_count(480, 2), Ok(960));
    assert_eq!(packet_sample_count(1, 8), Ok(8));
}

#[test]
fn timer_settings_from_device_period() {
    assert_eq!(timer_schedule(100_000), Ok((-50_000, 5)));
    assert_eq!(timer_schedule(30_000), Ok((-15_000, 1)));
    assert_eq!(timer_schedule(0), Err(CaptureError::BadDevicePeriod));
    assert_eq!(timer_schedule(-10), Err(CaptureError::BadDevicePeriod));
    assert_eq!(timer_schedule(i64::MAX), Err(CaptureError::BadDevicePeriod));
}

#[test]
fn coordinator_runs_through_its_states() {
    let (s, a) = step(RunState::Init, RunEvent::CaptureSpawned);
    assert_eq!((s, a), (RunState::WaitStart, RunAction::AwaitHandshake));
    let (s, a) = step(s, RunEvent::Handshake(CaptureEvent::Start));
    assert_eq!((s, a), (RunState::Running, RunAction::StartPipeline));
    let (s, a) = step(s, RunEvent::DurationElapsed);
    assert_eq!((s, a), (RunState::Stopping, RunAction::SignalStop));
    let (s, a) = step(s, RunEvent::AllJoined);
    assert_eq!((s, a), (RunState::Joined, RunAction::Finish));
    assert_eq!(step(s, RunEvent::Failed), (RunState::Joined, RunAction::Ignore));
}

#[test]
fn coordinator_short_circuits_on_errors() {
    assert_eq!(
        step(RunState::WaitStart, RunEvent::Handshake(CaptureEvent::Exit)),
        (RunState::Joined, RunAction::Abort)
    );
    assert_eq!(step(RunState::WaitStart, RunEvent::HandshakeLost), (RunState::Joined, RunAction::Abort));
    assert_eq!(step(RunState::Running, RunEvent::Failed), (RunState::Joined, RunAction::Abort));
    assert_eq!(step(RunState::Init, RunEvent::Failed), (RunState::Joined, RunAction::Abort));
    assert_eq!(step(RunState::Running, RunEvent::AllJoined), (RunState::Running, RunAction::Ignore));
}

#[test]
fn clock_reads_after_the_epoch() {
    let ns = get_now_unix_time();
    // later than 2020-01-01
    assert!(ns > 1_577_836_800_000_000_000);
    let ms = get_now_milli_unix_time();
    assert!(ms >= ns / 1_000_000);
    assert!(ms < ns / 1_000_000 + 60_000);
}

#[test]
fn nearest_bin_rounds_to_the_closest_centre() {
    assert_eq!(nearest_bin_of(1000, 240, 48_000), Some(5));
    assert_eq!(nearest_bin_of(1100, 240, 48_000), Some(6));
    assert_eq!(nearest_bin_of(1099, 240, 48_000), Some(5));
    assert_eq!(nearest_bin_of(1000, 882, 44_100), Some(20));
    assert_eq!(nearest_bin_of(1000, 240, 0), None);
}

#[test]
fn sample_width_splits_frames_into_slots() {
    assert_eq!(sample_width(8, 2), Some(4));
    assert_eq!(sample_width(24, 6), Some(4));
    assert_eq!(sample_width(6, 2), Some(3));
    assert_eq!(sample_width(8, 0), None);
    assert_eq!(sample_width(9, 2), None);
    assert_eq!(sample_width(1, 2), None);
}
