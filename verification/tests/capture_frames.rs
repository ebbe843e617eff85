use glide::capture::{
    bgra_to_rgba, copy_rect, desktop_frame, next_capture_step, profile_tick, AcquireOutcome, CaptureStep, cursor_height, cursor_patch, pack_rows, AudioTrack, CaptureError,
    CaptureStats, CursorPatch, PipeWireAudioCapturer, PipeWireCapturer, PixelFormat,
};

#[test]
fn pack_rows_drops_row_padding() {
    // 3 rows of 2 bytes, rows 4 bytes apart
    let src = [1u8, 2, 9, 9, 3, 4, 9, 9, 5, 6];
    assert_eq!(pack_rows(&src, 4, 2, 3), vec![1, 2, 3, 4, 5, 6]);
    assert_eq!(pack_rows(&src, 4, 2, 0), Vec::<u8>::new());
    assert_eq!(pack_rows(&src[..4], 2, 2, 2), vec![1, 2, 9, 9]);
}

#[test]
fn copy_rect_copies_only_the_rectangle() {
    // a 4x3 screen of bytes 0..12, copy the 2x2 block at (1,1) into a 3x3 buffer at (0,1)
    let screen: Vec<u8> = (0..12).collect();
    let mut dib = vec![100u8; 9];
    copy_rect(&screen, 4 + 1, 4, &mut dib, 3, 3, 2, 2);
    assert_eq!(dib, vec![100, 100, 100, 5, 6, 100, 9, 10, 100]);
    // and back, shifted
    let mut screen2 = screen.clone();
    copy_rect(&dib, 3, 3, &mut screen2, 0, 4, 2, 2);
    assert_eq!(screen2, vec![5, 6, 2, 3, 9, 10, 6, 7, 8, 9, 10, 11]);
    let mut unchanged = vec![1u8, 2, 3];
    copy_rect(&screen, 0, 4, &mut unchanged, 0, 3, 3, 0);
    assert_eq!(unchanged, vec![1, 2, 3]);
}

#[test]
fn copy_rect_out_and_back_restores_the_frame() {
    let screen: Vec<u8> = (0..20).collect();
    let mut scratch = vec![0u8; 12];
    copy_rect(&screen, 5 + 1, 5, &mut scratch, 1, 4, 3, 3);
    let mut restored = screen.clone();
    copy_rect(&scratch, 1, 4, &mut restored, 5 + 1, 5, 3, 3);
    assert_eq!(restored, screen);
}

#[test]
fn cursor_patch_clips_to_screen() {
    // fully on screen
    assert_eq!(
        cursor_patch(100, 50, 0, 0, 32, 32, 1920, 1080),
        Some(CursorPatch { screen_x: 100, screen_y: 50, icon_x: 0, icon_y: 0, width: 32, height: 32 })
    );
    // hotspot pulls it past the top-left corner
    assert_eq!(
        cursor_patch(5, 3, 10, 10, 32, 32, 1920, 1080),
        Some(CursorPatch { screen_x: 0, screen_y: 0, icon_x: 5, icon_y: 7, width: 27, height: 25 })
    );
    // hanging off the bottom-right
    assert_eq!(
        cursor_patch(1910, 1070, 0, 0, 32, 32, 1920, 1080),
        Some(CursorPatch { screen_x: 1910, screen_y: 1070, icon_x: 0, icon_y: 0, width: 10, height: 10 })
    );
    assert_eq!(cursor_patch(1920, 0, 0, 0, 32, 32, 1920, 1080), None);
    assert_eq!(cursor_patch(-40, 0, 0, 0, 32, 32, 1920, 1080), None);
}

#[test]
fn monochrome_cursor_height_is_half_the_mask() {
    assert_eq!(cursor_height(64, false), 32);
    assert_eq!(cursor_height(33, false), 16);
    assert_eq!(cursor_height(32, true), 32);
    assert_eq!(cursor_height(-5, false), -2);
}

#[test]
fn bgra_becomes_opaque_rgba() {
    let bgra = [1u8, 2, 3, 4, 10, 20, 30, 40, 7, 8];
    assert_eq!(bgra_to_rgba(&bgra), vec![3, 2, 1, 255, 30, 20, 10, 255, 0, 0]);
    assert_eq!(bgra_to_rgba(&[]), Vec::<u8>::new());
}

#[test]
fn pipewire_capturers_start() {
    let cap = PipeWireCapturer::new().unwrap();
    let f = cap.blank_frame(123);
    assert_eq!((f.width, f.height, f.timestamp_us), (1920, 1080, 123));
    assert_eq!(f.format, PixelFormat::Bgra);
    assert_eq!(f.data.len(), 1920 * 1080 * 4);
    assert!(f.data.iter().all(|b| *b == 0));
    let mic = PipeWireAudioCapturer::new(AudioTrack::Microphone).unwrap();
    assert_eq!(mic.track, AudioTrack::Microphone);
}

#[test]
fn capture_error_messages() {
    assert_eq!(
        CaptureError::Initialization("no GPU".to_string()).message(),
        "Failed to initialize capture: no GPU"
    );
    assert_eq!(CaptureError::StreamError("Access lost".to_string()).message(), "Capture stream error: Access lost");
    assert_eq!(CaptureError::Timeout.message(), "Timeout acquiring frame");
}

#[test]
fn capture_stats_report_per_interval() {
    let mut s = CaptureStats::new();
    assert_eq!(s.roll(58, 2), (58, 2, 60));
    assert_eq!(s.roll(117, 3), (59, 1, 60));
    assert_eq!(s.roll(117, 3), (0, 0, 0));
}

#[test]
fn desktop_frames_are_packed_and_timed() {
    // 2x2 pixels, rows 12 bytes apart
    let mut mapped = vec![0u8; 20];
    for i in 0..8 {
        mapped[i] = i as u8 + 1;
        mapped[12 + i] = i as u8 + 11;
    }
    assert!(desktop_frame(&mapped, 12, 2, 2, 0, 10_000_000, u64::MAX).is_none());
    let (f, start) = desktop_frame(&mapped, 12, 2, 2, 25_000_000, 10_000_000, u64::MAX).unwrap();
    assert_eq!(start, 2_500_000);
    assert_eq!(f.timestamp_us, 0);
    assert_eq!((f.width, f.height, f.format), (2, 2, PixelFormat::Bgra));
    assert_eq!(f.data, vec![1, 2, 3, 4, 5, 6, 7, 8, 11, 12, 13, 14, 15, 16, 17, 18]);
    let (g, start2) = desktop_frame(&mapped, 12, 2, 2, 25_166_660, 10_000_000, start).unwrap();
    assert_eq!(start2, 2_500_000);
    assert_eq!(g.timestamp_us, 16_666);
}

#[test]
fn desktop_capture_steps() {
    let step = |o| next_capture_step(o).ok();
    assert_eq!(step(AcquireOutcome::Acquired { present_qpc: 5, has_resource: true }), Some(CaptureStep::Process));
    assert_eq!(step(AcquireOutcome::Acquired { present_qpc: 0, has_resource: true }), Some(CaptureStep::ReleaseAndSkip));
    assert_eq!(step(AcquireOutcome::Acquired { present_qpc: 5, has_resource: false }), Some(CaptureStep::ReleaseAndSkip));
    assert_eq!(step(AcquireOutcome::WaitTimeout), Some(CaptureStep::Retry));
    assert_eq!(step(AcquireOutcome::OtherError), Some(CaptureStep::Retry));
    match next_capture_step(AcquireOutcome::AccessLost) {
        Err(e) => assert_eq!(e.message(), "Capture stream error: Access lost"),
        Ok(_) => panic!("access lost must end the capture"),
    }
}

#[test]
fn profile_reports_every_hundred_frames() {
    let mut count = 0;
    let mut reports = 0;
    for _ in 0..250 {
        let (next, due) = profile_tick(count);
        count = next;
        if due {
            reports += 1;
        }
    }
    assert_eq!((count, reports), (50, 2));
}
