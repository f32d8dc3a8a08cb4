//! Media formats and the capabilities of the pads.

use vstd::prelude::*;

verus! {

/// The format of a video frame, as OpenTok names it.
#[derive(Clone, Copy, Debug, PartialEq, Eq, Structural)]
pub enum FrameFormat {
    Abgr32,
    Argb32,
    Bgra32,
    Compressed,
    Max,
    Mjpeg,
    Nv12,
    Nv21,
    Rgba32,
    Rgb24,
    Uyvy,
    Yuv420P,
    Yuy2,
    Unknown,
}

/// The format of a video frame, as GStreamer names it.
#[derive(Clone, Copy, Debug, PartialEq, Eq, Structural)]
pub enum VideoFormat {
    Nv12,
    Nv21,
    Uyvy,
    I420,
    Yuy2,
    Bgr,
    /// A format that OpenTok does not have.
    Other,
}

impl FrameFormat {
    /// GStreamer has a format for these frames.
    pub open spec fn supported(self) -> bool {
        self == FrameFormat::Nv12 || self == FrameFormat::Nv21 || self == FrameFormat::Uyvy || self
            == FrameFormat::Yuv420P || self == FrameFormat::Yuy2 || self == FrameFormat::Rgb24
    }

    /// Whether GStreamer has a format for these frames.
    pub fn is_supported(self) -> (supported: bool)
        ensures
            supported == self.supported(),
    {
        match self {
            FrameFormat::Nv12 => true,
            FrameFormat::Nv21 => true,
            FrameFormat::Uyvy => true,
            FrameFormat::Yuv420P => true,
            FrameFormat::Yuy2 => true,
            FrameFormat::Rgb24 => true,
            _ => false,
        }
    }
}

/// The GStreamer format of the frames of an OpenTok format.
pub open spec fn gst_format(format: FrameFormat) -> VideoFormat {
    match format {
        FrameFormat::Nv12 => VideoFormat::Nv12,
        FrameFormat::Nv21 => VideoFormat::Nv21,
        FrameFormat::Uyvy => VideoFormat::Uyvy,
        FrameFormat::Yuv420P => VideoFormat::I420,
        FrameFormat::Yuy2 => VideoFormat::Yuy2,
        FrameFormat::Rgb24 => VideoFormat::Bgr,
        _ => VideoFormat::Other,
    }
}

/// The GStreamer format of the frames of an OpenTok format.
pub fn gst_from_otc_format(format: FrameFormat) -> (converted: VideoFormat)
    requires
        format.supported(),
    ensures
        converted == gst_format(format),
        converted != VideoFormat::Other,
{
    match format {
        FrameFormat::Nv12 => VideoFormat::Nv12,
        FrameFormat::Nv21 => VideoFormat::Nv21,
        FrameFormat::Uyvy => VideoFormat::Uyvy,
        FrameFormat::Yuv420P => VideoFormat::I420,
        FrameFormat::Yuy2 => VideoFormat::Yuy2,
        _ => VideoFormat::Bgr,
    }
}

/// The OpenTok format of the frames of a GStreamer format.
pub fn otc_format_from_gst_format(format: VideoFormat) -> (converted: FrameFormat)
    requires
        format != VideoFormat::Other,
    ensures
        converted.supported(),
        gst_format(converted) == format,
{
    match format {
        VideoFormat::Nv12 => FrameFormat::Nv12,
        VideoFormat::Nv21 => FrameFormat::Nv21,
        VideoFormat::Uyvy => FrameFormat::Uyvy,
        VideoFormat::I420 => FrameFormat::Yuv420P,
        VideoFormat::Yuy2 => FrameFormat::Yuy2,
        _ => FrameFormat::Rgb24,
    }
}

/// Different formats of one side are different formats of the other, so that converting a format
/// there and back gives the same format.
pub proof fn lemma_formats_convert_back(a: FrameFormat, b: FrameFormat)
    requires
        a.supported(),
        b.supported(),
        gst_format(a) == gst_format(b),
    ensures
        a == b,
{
}

impl VideoFormat {
    /// The name of the format in capabilities.
    pub open spec fn text(self) -> Seq<char> {
        match self {
            VideoFormat::Nv12 => "NV12"@,
            VideoFormat::Nv21 => "NV21"@,
            VideoFormat::Uyvy => "UYVY"@,
            VideoFormat::I420 => "I420"@,
            VideoFormat::Yuy2 => "YUY2"@,
            VideoFormat::Bgr => "BGR"@,
            VideoFormat::Other => Seq::empty(),
        }
    }

    /// The name of the format in capabilities.
    pub fn name(self) -> (name: &'static str)
        requires
            self != VideoFormat::Other,
        ensures
            name@ == self.text(),
    {
        match self {
            VideoFormat::Nv12 => "NV12",
            VideoFormat::Nv21 => "NV21",
            VideoFormat::Uyvy => "UYVY",
            VideoFormat::I420 => "I420",
            VideoFormat::Yuy2 => "YUY2",
            _ => "BGR",
        }
    }
}

/// The value of a field of capabilities.
#[derive(Debug)]
pub enum CapsValue {
    Text(&'static str),
    Int(i32),
    /// All integers between two bounds, which belong to it.
    IntRange(i32, i32),
    /// A numerator and a denominator.
    Fraction(i32, i32),
    /// All fractions between two bounds, which belong to it.
    FractionRange((i32, i32), (i32, i32)),
    Format(VideoFormat),
    /// Any format of a list.
    Formats(Vec<VideoFormat>),
    /// Signed samples of sixteen bits, in the byte order of the machine.
    NativeS16,
}

/// What a [`CapsValue`] holds.
#[verifier::ext_equal]
pub enum CapsValueView {
    Text(Seq<char>),
    Int(int),
    IntRange(int, int),
    Fraction(int, int),
    FractionRange((int, int), (int, int)),
    Format(VideoFormat),
    Formats(Seq<VideoFormat>),
    NativeS16,
}

impl View for CapsValue {
    type V = CapsValueView;

    open spec fn view(&self) -> CapsValueView {
        match self {
            CapsValue::Text(text) => CapsValueView::Text(text@),
            CapsValue::Int(value) => CapsValueView::Int(*value as int),
            CapsValue::IntRange(low, high) => CapsValueView::IntRange(*low as int, *high as int),
            CapsValue::Fraction(num, den) => CapsValueView::Fraction(*num as int, *den as int),
            CapsValue::FractionRange(low, high) => CapsValueView::FractionRange(
                (low.0 as int, low.1 as int),
                (high.0 as int, high.1 as int),
            ),
            CapsValue::Format(format) => CapsValueView::Format(*format),
            CapsValue::Formats(formats) => CapsValueView::Formats(formats@),
            CapsValue::NativeS16 => CapsValueView::NativeS16,
        }
    }
}

/// The capabilities of a pad: a media type, and the fields that describe it.
#[derive(Debug)]
pub struct Caps {
    pub media: &'static str,
    pub fields: Vec<(&'static str, CapsValue)>,
}

/// What [`Caps`] hold.
#[verifier::ext_equal]
pub struct CapsView {
    pub media: Seq<char>,
    pub fields: Seq<(Seq<char>, CapsValueView)>,
}

impl View for Caps {
    type V = CapsView;

    open spec fn view(&self) -> CapsView {
        CapsView {
            media: self.media@,
            fields: self.fields@.map_values(
                |field: (&'static str, CapsValue)| (field.0@, field.1@),
            ),
        }
    }
}

/// The formats that a video pad takes or gives.
pub open spec fn advertised_formats() -> Seq<VideoFormat> {
    seq![
        VideoFormat::Nv12,
        VideoFormat::Nv21,
        VideoFormat::Uyvy,
        VideoFormat::I420,
        VideoFormat::Yuy2,
        VideoFormat::Bgr,
    ]
}

/// The capabilities of a video pad.
pub open spec fn video_caps() -> CapsView {
    CapsView {
        media: "video/x-raw"@,
        fields: seq![
            ("format"@, CapsValueView::Formats(advertised_formats())),
            ("width"@, CapsValueView::IntRange(1, i32::MAX as int)),
            ("height"@, CapsValueView::IntRange(1, i32::MAX as int)),
            ("framerate"@, CapsValueView::FractionRange((0, 1), (i32::MAX as int, 1))),
        ],
    }
}

/// The capabilities of an audio pad.
pub open spec fn audio_caps() -> CapsView {
    CapsView {
        media: "audio/x-raw"@,
        fields: seq![
            ("format"@, CapsValueView::NativeS16),
            ("layout"@, CapsValueView::Text("interleaved"@)),
            ("rate"@, CapsValueView::Int(44100)),
            ("channels"@, CapsValueView::Int(1)),
        ],
    }
}

/// The capabilities of the video pads and of the audio pads.
pub fn caps() -> (caps: (Caps, Caps))
    ensures
        caps.0@ == video_caps(),
        caps.1@ == audio_caps(),
{
    let mut formats: Vec<VideoFormat> = Vec::new();
    formats.push(VideoFormat::Nv12);
    formats.push(VideoFormat::Nv21);
    formats.push(VideoFormat::Uyvy);
    formats.push(VideoFormat::I420);
    formats.push(VideoFormat::Yuy2);
    formats.push(VideoFormat::Bgr);
    assert(formats@ =~= advertised_formats());
    let mut video: Vec<(&'static str, CapsValue)> = Vec::new();
    video.push(("format", CapsValue::Formats(formats)));
    video.push(("width", CapsValue::IntRange(1, i32::MAX)));
    video.push(("height", CapsValue::IntRange(1, i32::MAX)));
    video.push(("framerate", CapsValue::FractionRange((0, 1), (i32::MAX, 1))));
    let video = Caps { media: "video/x-raw", fields: video };
    assert(video@.fields =~= video_caps().fields);
    let mut audio: Vec<(&'static str, CapsValue)> = Vec::new();
    audio.push(("format", CapsValue::NativeS16));
    audio.push(("layout", CapsValue::Text("interleaved")));
    audio.push(("rate", CapsValue::Int(44100)));
    audio.push(("channels", CapsValue::Int(1)));
    let audio = Caps { media: "audio/x-raw", fields: audio };
    assert(audio@.fields =~= audio_caps().fields);
    (video, audio)
}

/// The formats that the video pads advertise are those that have an OpenTok format.
pub proof fn lemma_advertised_formats_convert(format: VideoFormat)
    ensures
        advertised_formats().contains(format) <==> format != VideoFormat::Other,
        advertised_formats().contains(format) <==> exists|frame: FrameFormat|
            frame.supported() && gst_format(frame) == format,
{
    let formats = advertised_formats();
    assert(formats[0] == VideoFormat::Nv12);
    assert(formats[1] == VideoFormat::Nv21);
    assert(formats[2] == VideoFormat::Uyvy);
    assert(formats[3] == VideoFormat::I420);
    assert(formats[4] == VideoFormat::Yuy2);
    assert(formats[5] == VideoFormat::Bgr);
    assert(gst_format(FrameFormat::Nv12) == VideoFormat::Nv12);
    assert(gst_format(FrameFormat::Nv21) == VideoFormat::Nv21);
    assert(gst_format(FrameFormat::Uyvy) == VideoFormat::Uyvy);
    assert(gst_format(FrameFormat::Yuv420P) == VideoFormat::I420);
    assert(gst_format(FrameFormat::Yuy2) == VideoFormat::Yuy2);
    assert(gst_format(FrameFormat::Rgb24) == VideoFormat::Bgr);
}

} // verus!
