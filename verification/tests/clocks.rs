use glide::clock::{
    event_time, hundred_ns_to_us, qpc_to_us, rebase, AudioPtsClock, RenderClock, VideoPtsClock,
};

#[test]
fn qpc_readings_convert_to_microseconds() {
    assert_eq!(qpc_to_us(10_000_000, 10_000_000), 1_000_000);
    assert_eq!(qpc_to_us(3, 2), 1_500_000);
    assert_eq!(qpc_to_us(5, 0), 0);
    assert_eq!(qpc_to_us(5, -1), 0);
    assert_eq!(hundred_ns_to_us(12_345), 1_234);
}

#[test]
fn rebase_moves_start_to_earliest_timestamp() {
    assert_eq!(rebase(100, u64::MAX), (100, 0));
    assert_eq!(rebase(150, 100), (100, 50));
    assert_eq!(rebase(90, 100), (90, 0));
    assert_eq!(event_time(150, 100), Some(50));
    assert_eq!(event_time(50, 100), Some(0));
    assert_eq!(event_time(50, u64::MAX), None);
}

#[test]
fn video_pts_strictly_increase() {
    let mut c = VideoPtsClock::new();
    assert_eq!(c.next_pts(0, 1, 1_000_000), 0);
    assert_eq!(c.next_pts(16_666, 1, 1_000_000), 16_666);
    // a repeated or earlier timestamp is bumped past the previous frame
    assert_eq!(c.next_pts(16_666, 1, 1_000_000), 16_667);
    assert_eq!(c.next_pts(10, 1, 1_000_000), 16_668);
    // a 60 fps time base
    let mut m = VideoPtsClock::new();
    assert_eq!(m.next_pts(1_000_000, 1, 60), 60);
    assert_eq!(m.next_pts(1_010_000, 1, 60), 61);
}

#[test]
fn render_clock_keeps_frames_increasing() {
    let mut c = RenderClock::new();
    assert_eq!(c.advance(0, 1, 1000), (0, 0));
    assert_eq!(c.advance(0, 1, 1000), (0, 0));
    assert_eq!(c.advance(33, 1, 1000), (33_000, 33_000));
    assert_eq!(c.advance(33, 1, 1000), (33_001, 1));
    assert_eq!(c.advance(-5, 1, 1000), (33_002, 1));
    assert_eq!(c.advance(100, 1, 1000), (100_000, 66_998));
}

#[test]
fn test_audio_pts_gap() {
    let mut clock = AudioPtsClock::new(48000, 1024);
    let samples_per_chunk: u64 = 960; // 20ms at 48kHz
    let mut current_us: u64 = 0;
    let mut last_pts: Option<u64> = None;
    let mut jumps = 0;

    for i in 0..500 {
        clock.push_samples(current_us, samples_per_chunk);
        while let Some(pts) = clock.pop_frame() {
            if let Some(prev) = last_pts {
                if pts != prev + 1024 {
                    jumps += 1;
                    // the jump re-anchors onto the 105 ms gap (5040 samples)
                    assert!(pts > prev + 1024);
                }
            }
            last_pts = Some(pts);
        }
        current_us += 20_000;

        if i == 250 {
            current_us += 105_000; // Simulated dropped frames!
        }
    }
    assert_eq!(jumps, 1);
    assert!(clock.buffered < 1024);
}

#[test]
fn audio_clock_anchors_on_first_chunk_and_tolerates_jitter() {
    let mut c = AudioPtsClock::new(48000, 1024);
    c.push_samples(1_000_000, 0);
    assert_eq!(c.anchor_pts, None);
    c.push_samples(1_000_000, 960);
    assert_eq!(c.anchor_pts, Some(48_000));
    // 50 ms late is within the 100 ms tolerance: no re-anchor
    c.push_samples(1_070_000, 960);
    assert_eq!(c.anchor_pts, Some(48_000));
    assert_eq!(c.pop_frame(), Some(48_000));
    assert_eq!(c.pop_frame(), None);
    assert_eq!(c.buffered, 896);
    // 200 ms late: re-anchored so the buffered samples end where it starts
    c.push_samples(1_300_000, 960);
    assert_eq!(c.anchor_pts, Some(62_400 - 896));
    assert_eq!(c.pop_frame(), Some(61_504));
    assert_eq!(c.pop_frame(), None);
}

#[test]
fn render_clock_clamps_negative_times() {
    let mut c = RenderClock::new();
    assert_eq!(c.advance(5, -1, 1000), (0, 0));
    assert_eq!(c.advance(10, 1, 1000), (10_000, 10_000));
    assert_eq!(c.advance(5, -1, 1000), (10_001, 1));
}
