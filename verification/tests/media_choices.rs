use glide::media::{
    pick_video_codec, route_packet, EncodeError, MuxError, PacketRoute, VideoCodec,
    MIC_AUDIO_STREAM, SYSTEM_AUDIO_STREAM,
};

#[test]
fn first_available_encoder_wins() {
    assert_eq!(pick_video_codec(&vec![true, true, true, true, true, true]), Some(VideoCodec::Nvenc));
    assert_eq!(pick_video_codec(&vec![false, false, true, false, false, true]), Some(VideoCodec::Amf));
    assert_eq!(pick_video_codec(&vec![false, false, false, false, false, true]), Some(VideoCodec::X264));
    assert_eq!(pick_video_codec(&vec![false; 6]), None);
}

#[test]
fn encoder_names_and_settings() {
    assert_eq!(VideoCodec::Nvenc.name(), "h264_nvenc");
    assert_eq!(VideoCodec::MediaFoundation.name(), "h264_mf");
    assert_eq!(VideoCodec::X264.name(), "libx264");
    assert_eq!(VideoCodec::at_rank(3), VideoCodec::Vaapi);

    let mf = VideoCodec::MediaFoundation.settings();
    assert_eq!(mf.time_base, (1, 60));
    assert_eq!(mf.frame_rate, Some((60, 1)));
    assert!(mf.options.is_empty());

    let x = VideoCodec::X264.settings();
    assert_eq!(x.time_base, (1, 1_000_000));
    assert_eq!(x.frame_rate, None);
    assert_eq!(x.bit_rate, 8_000_000);
    assert_eq!(
        x.options,
        vec![("preset".to_string(), "ultrafast".to_string()), ("tune".to_string(), "zerolatency".to_string())]
    );
    assert_eq!(
        VideoCodec::Nvenc.settings().options,
        vec![("preset".to_string(), "p1".to_string()), ("tune".to_string(), "ull".to_string())]
    );
    assert_eq!(VideoCodec::Amf.settings().options, vec![("usage".to_string(), "lowlatency".to_string())]);
    assert!(VideoCodec::Qsv.settings().options.is_empty());
}

#[test]
fn packets_route_to_video_or_audio_tracks() {
    assert_eq!(route_packet(0, 0, Some(1), Some(2)), PacketRoute::Video);
    assert_eq!(route_packet(1, 0, Some(1), Some(2)), PacketRoute::Audio(SYSTEM_AUDIO_STREAM));
    assert_eq!(route_packet(2, 0, Some(1), Some(2)), PacketRoute::Audio(MIC_AUDIO_STREAM));
    assert_eq!(route_packet(3, 0, Some(1), Some(2)), PacketRoute::Skip);
    assert_eq!(route_packet(0, 2, Some(0), None), PacketRoute::Audio(1));
    assert_eq!(route_packet(1, 2, None, None), PacketRoute::Skip);
}

#[test]
fn stage_error_messages() {
    assert_eq!(EncodeError::Initialization("x".into()).message(), "Initialization failed: x");
    assert_eq!(EncodeError::Encoding("y".into()).message(), "Encoding error: y");
    assert_eq!(MuxError::Initialization("z".into()).message(), "Initialization failed: z");
    assert_eq!(MuxError::Muxing("w".into()).message(), "Muxing error: w");
}

#[test]
fn software_encoder_only_when_no_hardware_one() {
    for hw in 0..5 {
        let mut available = vec![false, false, false, false, false, true];
        available[hw] = true;
        let picked = pick_video_codec(&available);
        assert!(picked.is_some());
        assert_ne!(picked, Some(VideoCodec::X264));
    }
    assert_eq!(pick_video_codec(&vec![false, false, false, false, true, true]), Some(VideoCodec::MediaFoundation));
}
