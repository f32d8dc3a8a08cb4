//! How sound and pictures are described and handed on.

use crate::common::format::caps;
use crate::common::format::gst_from_otc_format;
use crate::common::format::otc_format_from_gst_format;
use crate::common::format::Caps;
use crate::common::format::CapsValueView;
use crate::common::format::CapsView;
use crate::common::format::FrameFormat;
use crate::common::format::VideoFormat;
use crate::element::PadDirection;
use crate::element::PadTemplate;
use crate::element::Presence;
use crate::opentoksink_remote::OpenTokSinkRemote;
use crate::opentoksrc::OpenTokSrc;
use crate::sample::push_audio_sample;
use crate::sample::push_video_frame;
use crate::sample::AppSrcStateHolder;
use crate::sample::AudioSample;
use crate::sample::BufferPlan;
use vstd::prelude::*;

verus! {

/// The capabilities have a field of this name, and it has this value wherever it stands.
pub open spec fn has_field(caps: CapsView, name: Seq<char>, value: CapsValueView) -> bool {
    &&& exists|i: int| 0 <= i < caps.fields.len() && #[trigger] caps.fields[i] == (name, value)
    &&& forall|i: int|
        0 <= i < caps.fields.len() && (#[trigger] caps.fields[i]).0 == name ==> caps.fields[i].1
            == value
}

/// The capabilities have no fields but these four.
pub open spec fn has_only(
    caps: CapsView,
    a: Seq<char>,
    b: Seq<char>,
    c: Seq<char>,
    d: Seq<char>,
) -> bool {
    forall|i: int|
        0 <= i < caps.fields.len() ==> {
            let name = (#[trigger] caps.fields[i]).0;
            name == a || name == b || name == c || name == d
        }
}

proof fn lemma_field_names()
    ensures
        "format"@.len() == 6,
        "layout"@.len() == 6,
        "rate"@.len() == 4,
        "channels"@.len() == 8,
        "width"@.len() == 5,
        "height"@.len() == 6,
        "framerate"@.len() == 9,
        "format"@ != "layout"@,
        "format"@ != "height"@,
{
    reveal_strlit("format");
    reveal_strlit("layout");
    reveal_strlit("rate");
    reveal_strlit("channels");
    reveal_strlit("width");
    reveal_strlit("height");
    reveal_strlit("framerate");
    assert("format"@[0] == 'f' && "layout"@[0] == 'l' && "height"@[0] == 'h');
}

/// Sound is described with its own rate and its own number of channels, as interleaved samples of
/// sixteen bits.
pub proof fn law_sound_has_its_own_rate_and_channels(
    sample: &AudioSample,
    pushed: (Caps, Vec<u8>),
)
    requires
        call_ensures(push_audio_sample, (sample,), pushed),
    ensures
        pushed.0@.media == "audio/x-raw"@,
        has_field(pushed.0@, "rate"@, CapsValueView::Int(sample.sampling_rate as int)),
        has_field(pushed.0@, "channels"@, CapsValueView::Int(sample.number_of_channels as int)),
        has_field(pushed.0@, "format"@, CapsValueView::Text("S16LE"@)),
        has_field(pushed.0@, "layout"@, CapsValueView::Text("interleaved"@)),
        has_only(pushed.0@, "rate"@, "channels"@, "format"@, "layout"@),
{
    lemma_field_names();
    let fields = pushed.0@.fields;
    assert(fields[0] == ("format"@, CapsValueView::Text("S16LE"@)));
    assert(fields[1] == ("layout"@, CapsValueView::Text("interleaved"@)));
    assert(fields[2] == ("rate"@, CapsValueView::Int(sample.sampling_rate as int)));
    assert(fields[3] == ("channels"@, CapsValueView::Int(sample.number_of_channels as int)));
}

/// Sounds are described alike if and only if they have the same rate and as many channels.
pub proof fn law_different_sounds_differ(
    a: &AudioSample,
    b: &AudioSample,
    pushed_a: (Caps, Vec<u8>),
    pushed_b: (Caps, Vec<u8>),
)
    requires
        call_ensures(push_audio_sample, (a,), pushed_a),
        call_ensures(push_audio_sample, (b,), pushed_b),
    ensures
        pushed_a.0@ == pushed_b.0@ <==> a.sampling_rate == b.sampling_rate && a.number_of_channels
            == b.number_of_channels,
{
    assert(pushed_a.0@.fields[2].1 == CapsValueView::Int(a.sampling_rate as int));
    assert(pushed_b.0@.fields[2].1 == CapsValueView::Int(b.sampling_rate as int));
    assert(pushed_a.0@.fields[3].1 == CapsValueView::Int(a.number_of_channels as int));
    assert(pushed_b.0@.fields[3].1 == CapsValueView::Int(b.number_of_channels as int));
}

/// Every sample of a sound becomes two bytes at its own place, all in the same order, out of which
/// it comes back.
pub proof fn law_samples_become_bytes(sample: &AudioSample, pushed: (Caps, Vec<u8>))
    requires
        call_ensures(push_audio_sample, (sample,), pushed),
    ensures
        pushed.1@.len() == 2 * sample.data@.len(),
        ({
            let bytes = pushed.1@;
            let data = sample.data@;
            ||| forall|i: int|
                0 <= i < data.len() ==> (bytes[2 * i] + 0x100 * bytes[2 * i + 1] - (
                #[trigger] data[i])) % 0x1_0000 == 0
            ||| forall|i: int|
                0 <= i < data.len() ==> (0x100 * bytes[2 * i] + bytes[2 * i + 1] - (
                #[trigger] data[i])) % 0x1_0000 == 0
        }),
{
    let bytes = pushed.1@;
    let data = sample.data@;
    assert forall|i: int| 0 <= i < data.len() implies {
        let bits = crate::sample::sample_bits(#[trigger] data[i]);
        &&& bits == bits % 0x100 + 0x100 * (bits / 0x100)
        &&& (bits - data[i]) % 0x1_0000 == 0
    } by {}
    if crate::sample::low_byte_first(data, bytes) {
        assert forall|i: int| 0 <= i < data.len() implies (bytes[2 * i] + 0x100 * bytes[2 * i + 1]
            - (#[trigger] data[i])) % 0x1_0000 == 0 by {
            let bits = crate::sample::sample_bits(data[i]);
            assert(bytes[2 * i] + 0x100 * bytes[2 * i + 1] == bits);
        }
    } else {
        assert forall|i: int| 0 <= i < data.len() implies (0x100 * bytes[2 * i] + bytes[2 * i + 1]
            - (#[trigger] data[i])) % 0x1_0000 == 0 by {
            let bits = crate::sample::sample_bits(data[i]);
            assert(0x100 * bytes[2 * i] + bytes[2 * i + 1] == bits);
        }
    }
}

/// A picture is described with its own width, height and format, at thirty pictures a second.
pub proof fn law_picture_has_its_own_size(
    format: FrameFormat,
    width: i32,
    height: i32,
    caps: Caps,
    converted: VideoFormat,
)
    requires
        format.supported(),
        call_ensures(push_video_frame, (format, width, height), caps),
        call_ensures(gst_from_otc_format, (format,), converted),
    ensures
        caps@.media == "video/x-raw"@,
        has_field(caps@, "width"@, CapsValueView::Int(width as int)),
        has_field(caps@, "height"@, CapsValueView::Int(height as int)),
        has_field(caps@, "framerate"@, CapsValueView::Fraction(30, 1)),
        has_field(caps@, "format"@, CapsValueView::Format(converted)),
        has_only(caps@, "width"@, "height"@, "framerate"@, "format"@),
{
    lemma_field_names();
    let fields = caps@.fields;
    assert(fields[0] == ("width"@, CapsValueView::Int(width as int)));
    assert(fields[1] == ("height"@, CapsValueView::Int(height as int)));
    assert(fields[2] == ("framerate"@, CapsValueView::Fraction(30, 1)));
    assert(fields[3] == ("format"@, CapsValueView::Format(converted)));
}

/// Each format of one side is the one of the other side that has the same layout, in both
/// directions, and no other format has a counterpart.
pub proof fn law_formats_keep_their_layout(
    frame: FrameFormat,
    converted: VideoFormat,
    supported: bool,
    video: VideoFormat,
    back: FrameFormat,
)
    requires
        call_ensures(FrameFormat::is_supported, (frame,), supported),
        supported ==> call_ensures(gst_from_otc_format, (frame,), converted),
        video != VideoFormat::Other,
        call_ensures(otc_format_from_gst_format, (video,), back),
    ensures
        supported <==> {
            ||| frame == FrameFormat::Nv12
            ||| frame == FrameFormat::Nv21
            ||| frame == FrameFormat::Uyvy
            ||| frame == FrameFormat::Yuv420P
            ||| frame == FrameFormat::Yuy2
            ||| frame == FrameFormat::Rgb24
        },
        frame == FrameFormat::Nv12 ==> converted == VideoFormat::Nv12,
        frame == FrameFormat::Nv21 ==> converted == VideoFormat::Nv21,
        frame == FrameFormat::Uyvy ==> converted == VideoFormat::Uyvy,
        frame == FrameFormat::Yuv420P ==> converted == VideoFormat::I420,
        frame == FrameFormat::Yuy2 ==> converted == VideoFormat::Yuy2,
        frame == FrameFormat::Rgb24 ==> converted == VideoFormat::Bgr,
        supported && converted == video ==> back == frame,
{
}

/// The name of a format is the one under which GStreamer knows it.
pub proof fn law_formats_have_names(video: VideoFormat, name: &'static str)
    requires
        video != VideoFormat::Other,
        call_ensures(VideoFormat::name, (video,), name),
    ensures
        video == VideoFormat::Nv12 ==> name@ == "NV12"@,
        video == VideoFormat::Nv21 ==> name@ == "NV21"@,
        video == VideoFormat::Uyvy ==> name@ == "UYVY"@,
        video == VideoFormat::I420 ==> name@ == "I420"@,
        video == VideoFormat::Yuy2 ==> name@ == "YUY2"@,
        video == VideoFormat::Bgr ==> name@ == "BGR"@,
{
}

/// A video pad takes pictures of any size and rate in every format that has a counterpart, and in no
/// other. An audio pad takes one channel of interleaved samples of sixteen bits, 44100 a second.
pub proof fn law_pads_take_what_can_be_converted(made: (Caps, Caps))
    requires
        call_ensures(caps, (), made),
    ensures
        made.0@.media == "video/x-raw"@,
        has_field(made.0@, "width"@, CapsValueView::IntRange(1, 0x7fff_ffff)),
        has_field(made.0@, "height"@, CapsValueView::IntRange(1, 0x7fff_ffff)),
        has_field(made.0@, "framerate"@, CapsValueView::FractionRange((0, 1), (0x7fff_ffff, 1))),
        exists|formats: Seq<VideoFormat>| #[trigger]
            has_field(made.0@, "format"@, CapsValueView::Formats(formats)) && forall|
                video: VideoFormat,
            | #[trigger]
                formats.contains(video) <==> video != VideoFormat::Other,
        has_only(made.0@, "width"@, "height"@, "framerate"@, "format"@),
        made.1@.media == "audio/x-raw"@,
        has_field(made.1@, "format"@, CapsValueView::NativeS16),
        has_field(made.1@, "layout"@, CapsValueView::Text("interleaved"@)),
        has_field(made.1@, "rate"@, CapsValueView::Int(44100)),
        has_field(made.1@, "channels"@, CapsValueView::Int(1)),
        has_only(made.1@, "rate"@, "channels"@, "format"@, "layout"@),
{
    lemma_field_names();
    let formats = crate::common::format::advertised_formats();
    let video = made.0@.fields;
    assert(video[0] == ("format"@, CapsValueView::Formats(formats)));
    assert(video[1] == ("width"@, CapsValueView::IntRange(1, 0x7fff_ffff)));
    assert(video[2] == ("height"@, CapsValueView::IntRange(1, 0x7fff_ffff)));
    assert(video[3] == ("framerate"@, CapsValueView::FractionRange((0, 1), (0x7fff_ffff, 1))));
    assert forall|video: VideoFormat| #[trigger] formats.contains(video) <==> video
        != VideoFormat::Other by {
        crate::common::format::lemma_advertised_formats_convert(video);
    }
    assert(has_field(made.0@, "format"@, CapsValueView::Formats(formats)));
    let audio = made.1@.fields;
    assert(audio[0] == ("format"@, CapsValueView::NativeS16));
    assert(audio[1] == ("layout"@, CapsValueView::Text("interleaved"@)));
    assert(audio[2] == ("rate"@, CapsValueView::Int(44100)));
    assert(audio[3] == ("channels"@, CapsValueView::Int(1)));
}

/// The source element gives video on numbered pads and audio on one, as streams come; the sink
/// element takes video and audio on one pad each, when it is asked. The pads take what can be
/// converted.
pub proof fn law_elements_have_a_pad_for_each_medium(
    source: Vec<PadTemplate>,
    sink: Vec<PadTemplate>,
    made: (Caps, Caps),
)
    requires
        call_ensures(OpenTokSrc::pad_templates, (), source),
        call_ensures(OpenTokSinkRemote::pad_templates, (), sink),
        call_ensures(caps, (), made),
    ensures
        source@.len() == 2 && sink@.len() == 2,
        source@[0].name@ == "video_stream_%u"@ && source@[1].name@ == "audio_stream"@,
        sink@[0].name@ == "video_sink"@ && sink@[1].name@ == "audio_sink"@,
        forall|i: int|
            0 <= i < 2 ==> (#[trigger] source@[i]).direction == PadDirection::Src
                && source@[i].presence == Presence::Sometimes,
        forall|i: int|
            0 <= i < 2 ==> (#[trigger] sink@[i]).direction == PadDirection::Sink
                && sink@[i].presence == Presence::Request,
        source@[0].caps@ == made.0@ && sink@[0].caps@ == made.0@,
        source@[1].caps@ == made.1@ && sink@[1].caps@ == made.1@,
{
    assert(source@[0]@.caps == made.0@ && source@[1]@.caps == made.1@);
    assert(sink@[0]@.caps == made.0@ && sink@[1]@.caps == made.1@);
    assert(source@[0]@.direction == PadDirection::Src && source@[1]@.direction
        == PadDirection::Src);
    assert(sink@[0]@.direction == PadDirection::Sink && sink@[1]@.direction == PadDirection::Sink);
    assert(source@[0]@.name == "video_stream_%u"@ && source@[1]@.name == "audio_stream"@);
    assert(sink@[0]@.name == "video_sink"@ && sink@[1]@.name == "audio_sink"@);
}

/// What is behind a source is asked for an allocator before its first buffer, and never again once
/// it was asked. The first allocator that is offered is used for every buffer from then on; if none
/// is offered, no buffer has one.
pub proof fn law_first_offered_allocator_is_used(
    fresh: AppSrcStateHolder,
    wants_first: bool,
    holder: &mut AppSrcStateHolder,
    offers: &Vec<bool>,
    later: &AppSrcStateHolder,
    wants_again: bool,
    data: &[u8],
    time: Option<u64>,
    plan: BufferPlan,
    place: int,
)
    requires
        call_ensures(AppSrcStateHolder::new, (), fresh),
        call_ensures(AppSrcStateHolder::wants_query, (&fresh,), wants_first),
        old(holder)@ == fresh@,
        call_ensures(AppSrcStateHolder::queried, (holder, Some(offers)), ()),
        later@ == final(holder)@,
        call_ensures(AppSrcStateHolder::wants_query, (later,), wants_again),
        call_ensures(AppSrcStateHolder::push_sample, (later, data, time), plan),
    ensures
        wants_first,
        !wants_again,
        plan.allocator is None <==> forall|i: int|
            0 <= i < offers@.len() ==> !#[trigger] offers@[i],
        0 <= place < offers@.len() && offers@[place] && (forall|i: int|
            0 <= i < place ==> !#[trigger] offers@[i]) ==> plan.allocator is Some
            && plan.allocator->0 == place,
{
    crate::sample::lemma_first_offer(offers@);
}

/// If nobody answers the question for an allocator, no buffer has one, and it is not put again.
pub proof fn law_no_allocator_without_an_answer(
    holder: &mut AppSrcStateHolder,
    later: &AppSrcStateHolder,
    wants_again: bool,
    data: &[u8],
    time: Option<u64>,
    plan: BufferPlan,
)
    requires
        old(holder)@.allocator is None,
        call_ensures(AppSrcStateHolder::queried, (holder, None), ()),
        later@ == final(holder)@,
        call_ensures(AppSrcStateHolder::wants_query, (later,), wants_again),
        call_ensures(AppSrcStateHolder::push_sample, (later, data, time), plan),
    ensures
        !wants_again,
        plan.allocator is None,
{
}

/// A buffer has room for all bytes, and is presented and decoded at the running time.
pub proof fn law_buffer_is_stamped_with_the_running_time(
    holder: &AppSrcStateHolder,
    data: &[u8],
    time: Option<u64>,
    plan: BufferPlan,
)
    requires
        call_ensures(AppSrcStateHolder::push_sample, (holder, data, time), plan),
    ensures
        plan.size == data@.len(),
        plan.pts == time,
        plan.dts == time,
{
}

} // verus!
