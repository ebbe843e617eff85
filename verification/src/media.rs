//! Choices the encode, mux and render stages make around FFmpeg: which H.264
//! encoder to use and how to configure it, which output stream a decoded
//! packet belongs to, and the errors of these stages.
use vstd::prelude::*;

verus! {

/// Output stream of the screen video.
pub const VIDEO_STREAM: usize = 0;
/// Output stream of the system (loopback) audio.
pub const SYSTEM_AUDIO_STREAM: usize = 1;
/// Output stream of the microphone.
pub const MIC_AUDIO_STREAM: usize = 2;

/// Sample rate of the encoded audio tracks.
pub const AUDIO_SAMPLE_RATE: u32 = 48000;
/// Channels of the encoded audio tracks.
pub const AUDIO_CHANNELS: u16 = 2;
/// Bit rate of the encoded audio tracks.
pub const AUDIO_BIT_RATE: usize = 128_000;
/// Bit rate of the encoded video.
pub const VIDEO_BIT_RATE: usize = 8_000_000;

/// The H.264 encoders, in the order they are tried.
#[derive(Debug, Clone, Copy, PartialEq, Eq, Structural)]
pub enum VideoCodec {
    Nvenc,
    Qsv,
    Amf,
    Vaapi,
    MediaFoundation,
    X264,
}

/// The encoder tried at `rank` (0 first).
pub open spec fn codec_at(rank: int) -> VideoCodec {
    if rank == 0 {
        VideoCodec::Nvenc
    } else if rank == 1 {
        VideoCodec::Qsv
    } else if rank == 2 {
        VideoCodec::Amf
    } else if rank == 3 {
        VideoCodec::Vaapi
    } else if rank == 4 {
        VideoCodec::MediaFoundation
    } else {
        VideoCodec::X264
    }
}

/// FFmpeg's name of each encoder.
pub open spec fn codec_name(c: VideoCodec) -> Seq<char> {
    match c {
        VideoCodec::Nvenc => "h264_nvenc"@,
        VideoCodec::Qsv => "h264_qsv"@,
        VideoCodec::Amf => "h264_amf"@,
        VideoCodec::Vaapi => "h264_vaapi"@,
        VideoCodec::MediaFoundation => "h264_mf"@,
        VideoCodec::X264 => "libx264"@,
    }
}

/// The FFmpeg encoder names in the order they are tried.
pub open spec fn preferred_encoder_names() -> Seq<Seq<char>> {
    seq!["h264_nvenc"@, "h264_qsv"@, "h264_amf"@, "h264_vaapi"@, "h264_mf"@, "libx264"@]
}

/// The preference list holds each of the six encoders once, and the encoder
/// tried at each rank is the one FFmpeg knows by the name at that rank of
/// the list NVENC, QSV, AMF, VAAPI, Media Foundation, x264.
pub proof fn lemma_preference_order()
    ensures
        forall|i: int, j: int| 0 <= i < j < CODEC_COUNT ==> #[trigger] codec_at(i) != #[trigger] codec_at(j),
        forall|r: int| 0 <= r < CODEC_COUNT ==> codec_name(#[trigger] codec_at(r)) == preferred_encoder_names()[r],
{
    assert forall|r: int| 0 <= r < CODEC_COUNT implies codec_name(#[trigger] codec_at(r)) == preferred_encoder_names()[r] by {
        if r == 0 {
        } else if r == 1 {
        } else if r == 2 {
        } else if r == 3 {
        } else if r == 4 {
        } else {
        }
    }
}

/// Number of encoders in the preference list.
pub const CODEC_COUNT: usize = 6;

/// How an encoder is opened.
pub struct VideoEncoderSettings {
    /// Time base as `(numerator, denominator)` seconds.
    pub time_base: (i32, i32),
    /// Fixed frame rate, for encoders that need one.
    pub frame_rate: Option<(i32, i32)>,
    pub bit_rate: usize,
    /// Private encoder options as `(key, value)`.
    pub options: Vec<(String, String)>,
}

impl VideoCodec {
    /// The codec tried at `rank` in the preference list.
    pub fn at_rank(rank: usize) -> (c: VideoCodec)
        requires
            rank < CODEC_COUNT,
        ensures
            c == codec_at(rank as int),
    {
        if rank == 0 {
            VideoCodec::Nvenc
        } else if rank == 1 {
            VideoCodec::Qsv
        } else if rank == 2 {
            VideoCodec::Amf
        } else if rank == 3 {
            VideoCodec::Vaapi
        } else if rank == 4 {
            VideoCodec::MediaFoundation
        } else {
            VideoCodec::X264
        }
    }

    /// FFmpeg's name of the encoder.
    pub fn name(&self) -> (n: &'static str)
        ensures
            n@ == codec_name(*self),
            *self == VideoCodec::Nvenc ==> n@ == "h264_nvenc"@,
            *self == VideoCodec::Qsv ==> n@ == "h264_qsv"@,
            *self == VideoCodec::Amf ==> n@ == "h264_amf"@,
            *self == VideoCodec::Vaapi ==> n@ == "h264_vaapi"@,
            *self == VideoCodec::MediaFoundation ==> n@ == "h264_mf"@,
            *self == VideoCodec::X264 ==> n@ == "libx264"@,
    {
        match self {
            VideoCodec::Nvenc => "h264_nvenc",
            VideoCodec::Qsv => "h264_qsv",
            VideoCodec::Amf => "h264_amf",
            VideoCodec::Vaapi => "h264_vaapi",
            VideoCodec::MediaFoundation => "h264_mf",
            VideoCodec::X264 => "libx264",
        }
    }

    /// The settings the encoder is opened with: microsecond timestamps,
    /// except Media Foundation, which needs a standard 60 fps time base, and
    /// the low-latency options of x264, NVENC and AMF.
    pub fn settings(&self) -> (s: VideoEncoderSettings)
        ensures
            s.bit_rate == VIDEO_BIT_RATE,
            *self == VideoCodec::MediaFoundation ==> s.time_base == (1i32, 60i32) && s.frame_rate == Some((60i32, 1i32)),
            *self != VideoCodec::MediaFoundation ==> s.time_base == (1i32, 1_000_000i32) && s.frame_rate is None,
            *self == VideoCodec::X264 ==> s.options@.len() == 2
                && s.options@[0].0@ == "preset"@ && s.options@[0].1@ == "ultrafast"@
                && s.options@[1].0@ == "tune"@ && s.options@[1].1@ == "zerolatency"@,
            *self == VideoCodec::Nvenc ==> s.options@.len() == 2
                && s.options@[0].0@ == "preset"@ && s.options@[0].1@ == "p1"@
                && s.options@[1].0@ == "tune"@ && s.options@[1].1@ == "ull"@,
            *self == VideoCodec::Amf ==> s.options@.len() == 1
                && s.options@[0].0@ == "usage"@ && s.options@[0].1@ == "lowlatency"@,
            (*self == VideoCodec::Qsv || *self == VideoCodec::Vaapi || *self == VideoCodec::MediaFoundation)
                ==> s.options@.len() == 0,
    {
        let mut options: Vec<(String, String)> = Vec::new();
        match self {
            VideoCodec::X264 => {
                options.push((String::from_str("preset"), String::from_str("ultrafast")));
                options.push((String::from_str("tune"), String::from_str("zerolatency")));
            },
            VideoCodec::Nvenc => {
                options.push((String::from_str("preset"), String::from_str("p1")));
                options.push((String::from_str("tune"), String::from_str("ull")));
            },
            VideoCodec::Amf => {
                options.push((String::from_str("usage"), String::from_str("lowlatency")));
            },
            _ => {},
        }
        match self {
            VideoCodec::MediaFoundation => VideoEncoderSettings {
                time_base: (1, 60),
                frame_rate: Some((60, 1)),
                bit_rate: VIDEO_BIT_RATE,
                options,
            },
            _ => VideoEncoderSettings {
                time_base: (1, 1_000_000),
                frame_rate: None,
                bit_rate: VIDEO_BIT_RATE,
                options,
            },
        }
    }
}

/// `c` is the first encoder of the preference list marked available, or
/// `None` when none is.
pub open spec fn is_first_available(available: Seq<bool>, c: Option<VideoCodec>) -> bool {
    &&& c is None <==> forall|r: int| 0 <= r < CODEC_COUNT ==> !available[r]
    &&& c matches Some(codec) ==> exists|r: int|
        0 <= r < CODEC_COUNT && available[r] && codec == codec_at(r)
            && forall|q: int| 0 <= q < r ==> !available[q]
}

/// The first encoder of the preference list that FFmpeg offers, given for
/// each rank whether it was found.
pub fn pick_video_codec(available: &Vec<bool>) -> (c: Option<VideoCodec>)
    requires
        available@.len() == CODEC_COUNT,
    ensures
        is_first_available(available@, c),
{
    let mut rank: usize = 0;
    while rank < CODEC_COUNT
        invariant
            rank <= CODEC_COUNT,
            available@.len() == CODEC_COUNT,
            forall|q: int| 0 <= q < rank ==> !available@[q],
        decreases CODEC_COUNT - rank,
    {
        if available[rank] {
            let c = VideoCodec::at_rank(rank);
            assert(available@[rank as int] && c == codec_at(rank as int));
            return Some(c);
        }
        rank = rank + 1;
    }
    None
}

/// The software encoder is a fallback only: it is chosen only when no
/// hardware encoder is available, and whenever one is, a hardware encoder
/// is chosen.
pub proof fn lemma_software_only_as_fallback(available: Seq<bool>, c: Option<VideoCodec>)
    requires
        available.len() == CODEC_COUNT,
        is_first_available(available, c),
    ensures
        c == Some(VideoCodec::X264) ==> forall|r: int| 0 <= r < 5 ==> !available[r],
        (exists|r: int| 0 <= r < 5 && available[r]) ==> (c matches Some(codec) && codec != VideoCodec::X264),
{
    if exists|r: int| 0 <= r < 5 && available[r] {
        let h = choose|r: int| 0 <= r < 5 && available[r];
        assert(c is Some);
        let codec = c->0;
        let r = choose|r: int|
            0 <= r < CODEC_COUNT && available[r] && codec == codec_at(r)
                && forall|q: int| 0 <= q < r ==> !available[q];
        assert(r <= h);
    }
}

/// Where a demuxed packet goes when a recording is re-rendered.
#[derive(Debug, Clone, Copy, PartialEq, Eq, Structural)]
pub enum PacketRoute {
    /// Decode it as video.
    Video,
    /// Copy it unchanged into the given output audio stream.
    Audio(usize),
    /// Drop it.
    Skip,
}

/// Routes a packet of input stream `index`, given the input's video stream
/// and its first (system) and second (microphone) audio streams.
pub fn route_packet(index: usize, video: usize, sys_audio: Option<usize>, mic_audio: Option<usize>) -> (r: PacketRoute)
    ensures
        index == video ==> r == PacketRoute::Video,
        index != video && sys_audio == Some(index) ==> r == PacketRoute::Audio(SYSTEM_AUDIO_STREAM),
        index != video && sys_audio != Some(index) && mic_audio == Some(index) ==> r == PacketRoute::Audio(MIC_AUDIO_STREAM),
        index != video && sys_audio != Some(index) && mic_audio != Some(index) ==> r == PacketRoute::Skip,
{
    let is_sys = match sys_audio {
        Some(s) => s == index,
        None => false,
    };
    let is_mic = match mic_audio {
        Some(m) => m == index,
        None => false,
    };
    if index == video {
        PacketRoute::Video
    } else if is_sys {
        PacketRoute::Audio(SYSTEM_AUDIO_STREAM)
    } else if is_mic {
        PacketRoute::Audio(MIC_AUDIO_STREAM)
    } else {
        PacketRoute::Skip
    }
}

/// Why the encoder stage failed.
#[derive(Debug)]
pub enum EncodeError {
    Initialization(String),
    Encoding(String),
}

impl EncodeError {
    /// The human-readable description of the error.
    pub fn message(&self) -> (m: String)
        ensures
            self matches EncodeError::Initialization(s) ==> m@ == "Initialization failed: "@ + s@,
            self matches EncodeError::Encoding(s) ==> m@ == "Encoding error: "@ + s@,
    {
        match self {
            EncodeError::Initialization(s) => {
                let mut m = String::from_str("Initialization failed: ");
                m.append(s.as_str());
                m
            },
            EncodeError::Encoding(s) => {
                let mut m = String::from_str("Encoding error: ");
                m.append(s.as_str());
                m
            },
        }
    }
}

/// Why the muxer stage failed.
#[derive(Debug)]
pub enum MuxError {
    Initialization(String),
    Muxing(String),
}

impl MuxError {
    /// The human-readable description of the error.
    pub fn message(&self) -> (m: String)
        ensures
            self matches MuxError::Initialization(s) ==> m@ == "Initialization failed: "@ + s@,
            self matches MuxError::Muxing(s) ==> m@ == "Muxing error: "@ + s@,
    {
        match self {
            MuxError::Initialization(s) => {
                let mut m = String::from_str("Initialization failed: ");
                m.append(s.as_str());
                m
            },
            MuxError::Muxing(s) => {
                let mut m = String::from_str("Muxing error: ");
                m.append(s.as_str());
                m
            },
        }
    }
}

} // verus!
