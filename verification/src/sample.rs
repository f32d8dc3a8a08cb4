//! How the samples of OpenTok get into buffers.

use crate::common::format::gst_format;
use crate::common::format::gst_from_otc_format;
use crate::common::format::Caps;
use crate::common::format::CapsValue;
use crate::common::format::CapsValueView;
use crate::common::format::CapsView;
use crate::common::format::FrameFormat;
use byte_slice_cast::AsByteSlice;
use vstd::prelude::*;

verus! {

/// Where the memory of the buffers of a source comes from.
#[derive(Debug)]
pub struct AppSrcStateHolder {
    /// The allocator to use, as its place among those that were offered.
    allocator: Option<usize>,
    /// Whether to ask what is behind the source for an allocator.
    query_allocator: bool,
}

/// What an [`AppSrcStateHolder`] holds.
#[verifier::ext_equal]
pub struct HolderView {
    pub allocator: Option<int>,
    pub query_allocator: bool,
}

impl View for AppSrcStateHolder {
    type V = HolderView;

    closed spec fn view(&self) -> HolderView {
        HolderView {
            allocator: match self.allocator {
                Some(place) => Some(place as int),
                None => None,
            },
            query_allocator: self.query_allocator,
        }
    }
}

impl HolderView {
    /// It is not known yet whether there is an allocator.
    pub open spec fn undecided(self) -> bool {
        self.query_allocator && self.allocator is None
    }
}

/// The first place that holds an allocator, if there is one.
pub open spec fn first_offer(offers: Seq<bool>) -> Option<int>
    decreases offers.len(),
{
    if offers.len() == 0 {
        None
    } else {
        match first_offer(offers.drop_last()) {
            Some(place) => Some(place),
            None => if offers.last() {
                Some(offers.len() - 1)
            } else {
                None
            },
        }
    }
}

/// The first place that holds an allocator is the only one that holds one and has none before it.
pub proof fn lemma_first_offer(offers: Seq<bool>)
    ensures
        first_offer(offers) matches Some(place) ==> 0 <= place < offers.len() && offers[place] && (
        forall|i: int| 0 <= i < place ==> !#[trigger] offers[i]),
        first_offer(offers) is None <==> (forall|i: int|
            0 <= i < offers.len() ==> !#[trigger] offers[i]),
    decreases offers.len(),
{
    if offers.len() > 0 {
        let rest = offers.drop_last();
        lemma_first_offer(rest);
        assert forall|i: int| 0 <= i < rest.len() implies #[trigger] offers[i] == rest[i] by {}
        assert(offers[offers.len() - 1] == offers.last());
        if first_offer(rest) is None {
            assert forall|i: int| 0 <= i < offers.len() - 1 implies !#[trigger] offers[i] by {
                assert(!rest[i]);
            }
        } else {
            let place = first_offer(rest)->0;
            assert(offers[place]);
            assert forall|i: int| 0 <= i < place implies !#[trigger] offers[i] by {
                assert(!rest[i]);
            }
        }
    }
}

/// What is known after the question for an allocator. `offers` tells which of the offered places
/// hold one; nothing, if nobody answered.
pub open spec fn queried_holder(before: HolderView, offers: Option<Seq<bool>>) -> HolderView {
    match offers {
        Some(offers) => match first_offer(offers) {
            Some(place) => HolderView { allocator: Some(place), ..before },
            None => HolderView { query_allocator: false, ..before },
        },
        None => HolderView { query_allocator: false, ..before },
    }
}

/// Once the question for an allocator was put, it is never put again.
pub proof fn lemma_queried_once(before: HolderView, offers: Option<Seq<bool>>)
    ensures
        !queried_holder(before, offers).undecided(),
{
}

/// How a buffer is filled and stamped.
#[derive(Debug)]
pub struct BufferPlan {
    /// The allocator of its memory. Nothing, if the buffer takes over a copy of the bytes.
    pub allocator: Option<usize>,
    /// The number of bytes in it.
    pub size: usize,
    /// The time at which it is presented.
    pub pts: Option<u64>,
    /// The time at which it is decoded.
    pub dts: Option<u64>,
}

impl AppSrcStateHolder {
    /// A source of which it is not known yet whether there is an allocator.
    pub fn new() -> (holder: AppSrcStateHolder)
        ensures
            holder@ == (HolderView { allocator: None, query_allocator: true }),
    {
        AppSrcStateHolder { allocator: None, query_allocator: true }
    }

    /// Whether to ask what is behind the source for an allocator before the next buffer.
    pub fn wants_query(&self) -> (wanted: bool)
        ensures
            wanted == self@.undecided(),
    {
        self.query_allocator && self.allocator.is_none()
    }

    /// What is behind the source was asked for an allocator. `offers` tells which of the offered
    /// places hold one; nothing, if nobody answered.
    pub fn queried(&mut self, offers: Option<&Vec<bool>>)
        requires
            old(self)@.undecided(),
        ensures
            final(self)@ == queried_holder(
                old(self)@,
                match offers {
                    Some(offers) => Some(offers@),
                    None => None,
                },
            ),
            !final(self)@.undecided(),
    {
        let offers = match offers {
            Some(offers) => offers,
            None => {
                self.query_allocator = false;
                return ;
            },
        };
        let mut found: Option<usize> = None;
        let mut i: usize = 0;
        assert(first_offer(offers@.take(0)) is None);
        while i < offers.len() && found.is_none()
            invariant
                i <= offers@.len(),
                match found {
                    Some(place) => place < i && first_offer(offers@.take(i as int)) == Some(
                        place as int,
                    ),
                    None => first_offer(offers@.take(i as int)) is None,
                },
            decreases offers@.len() - i,
        {
            assert(offers@.take(i + 1).drop_last() =~= offers@.take(i as int));
            assert(offers@.take(i + 1).last() == offers@[i as int]);
            if offers[i] {
                found = Some(i);
            }
            i += 1;
        }
        proof {
            lemma_first_offer(offers@);
            lemma_first_offer(offers@.take(i as int));
            match found {
                Some(place) => {
                    assert(offers@.take(i as int)[place as int] == offers@[place as int]);
                    assert forall|k: int| 0 <= k < place implies !#[trigger] offers@[k] by {
                        assert(!offers@.take(i as int)[k]);
                    }
                    assert(first_offer(offers@) == Some(place as int));
                },
                None => {
                    assert(offers@.take(i as int) =~= offers@);
                },
            }
        }
        match found {
            Some(place) => {
                self.allocator = Some(place);
            },
            None => {
                self.query_allocator = false;
            },
        }
    }

    /// How a buffer with these bytes is filled and stamped, when this much time has passed since
    /// the source started to run.
    pub fn push_sample(&self, data: &[u8], running_time: Option<u64>) -> (plan: BufferPlan)
        ensures
            match plan.allocator {
                Some(place) => self@.allocator == Some(place as int),
                None => self@.allocator is None,
            },
            plan.size == data@.len(),
            plan.pts == running_time,
            plan.dts == running_time,
    {
        BufferPlan {
            allocator: self.allocator,
            size: data.len(),
            pts: running_time,
            dts: running_time,
        }
    }
}

/// The bits of a sample as a number.
pub open spec fn sample_bits(sample: i16) -> int {
    if sample >= 0 {
        sample as int
    } else {
        sample + 0x1_0000
    }
}

/// The bytes hold the samples, the lower half of each first.
pub open spec fn low_byte_first(samples: Seq<i16>, bytes: Seq<u8>) -> bool {
    forall|i: int|
        0 <= i < samples.len() ==> bytes[2 * i] == sample_bits(#[trigger] samples[i]) % 0x100
            && bytes[2 * i + 1] == sample_bits(samples[i]) / 0x100
}

/// The bytes hold the samples, the upper half of each first.
pub open spec fn high_byte_first(samples: Seq<i16>, bytes: Seq<u8>) -> bool {
    forall|i: int|
        0 <= i < samples.len() ==> bytes[2 * i] == sample_bits(#[trigger] samples[i]) / 0x100
            && bytes[2 * i + 1] == sample_bits(samples[i]) % 0x100
}

/// The bytes of samples, taken with `byte_slice_cast::AsByteSlice::as_byte_slice`.
///
/// Trusted of `byte_slice_cast`: each sample gives its two bytes, in the byte order of the
/// machine. Which order that is, is left open.
#[verifier::external_body]
fn byte_slice(samples: &Vec<i16>) -> (bytes: Vec<u8>)
    ensures
        bytes@.len() == 2 * samples@.len(),
        low_byte_first(samples@, bytes@) || high_byte_first(samples@, bytes@),
{
    samples.as_byte_slice().to_vec()
}

/// Sound that OpenTok hands out.
#[derive(Debug)]
pub struct AudioSample {
    pub data: Vec<i16>,
    pub sampling_rate: i32,
    pub number_of_channels: i32,
}

/// The capabilities of sound that OpenTok hands out.
pub open spec fn audio_sample_caps(rate: i32, channels: i32) -> CapsView {
    CapsView {
        media: "audio/x-raw"@,
        fields: seq![
            ("format"@, CapsValueView::Text("S16LE"@)),
            ("layout"@, CapsValueView::Text("interleaved"@)),
            ("rate"@, CapsValueView::Int(rate as int)),
            ("channels"@, CapsValueView::Int(channels as int)),
        ],
    }
}

/// The capabilities and the bytes of sound that OpenTok hands out.
pub fn push_audio_sample(sample: &AudioSample) -> (pushed: (Caps, Vec<u8>))
    ensures
        pushed.0@ == audio_sample_caps(sample.sampling_rate, sample.number_of_channels),
        pushed.1@.len() == 2 * sample.data@.len(),
        low_byte_first(sample.data@, pushed.1@) || high_byte_first(sample.data@, pushed.1@),
{
    let mut fields: Vec<(&'static str, CapsValue)> = Vec::new();
    fields.push(("format", CapsValue::Text("S16LE")));
    fields.push(("layout", CapsValue::Text("interleaved")));
    fields.push(("rate", CapsValue::Int(sample.sampling_rate)));
    fields.push(("channels", CapsValue::Int(sample.number_of_channels)));
    let caps = Caps { media: "audio/x-raw", fields };
    assert(caps@.fields =~= audio_sample_caps(
        sample.sampling_rate,
        sample.number_of_channels,
    ).fields);
    (caps, byte_slice(&sample.data))
}

/// The capabilities of a picture that OpenTok hands out.
pub open spec fn video_frame_caps(format: FrameFormat, width: i32, height: i32) -> CapsView {
    CapsView {
        media: "video/x-raw"@,
        fields: seq![
            ("width"@, CapsValueView::Int(width as int)),
            ("height"@, CapsValueView::Int(height as int)),
            ("framerate"@, CapsValueView::Fraction(30, 1)),
            ("format"@, CapsValueView::Format(gst_format(format))),
        ],
    }
}

/// The capabilities of a picture that OpenTok hands out.
pub fn push_video_frame(format: FrameFormat, width: i32, height: i32) -> (caps: Caps)
    requires
        format.supported(),
    ensures
        caps@ == video_frame_caps(format, width, height),
{
    let mut fields: Vec<(&'static str, CapsValue)> = Vec::new();
    fields.push(("width", CapsValue::Int(width)));
    fields.push(("height", CapsValue::Int(height)));
    fields.push(("framerate", CapsValue::Fraction(30, 1)));
    fields.push(("format", CapsValue::Format(gst_from_otc_format(format))));
    let caps = Caps { media: "video/x-raw", fields };
    assert(caps@.fields =~= video_frame_caps(format, width, height).fields);
    caps
}

} // verus!
