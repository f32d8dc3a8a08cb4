use gstopentok::common::caps;
use gstopentok::common::format::CapsValue;
use gstopentok::common::format::FrameFormat;
use gstopentok::common::format::VideoFormat;
use gstopentok::common::gst_from_otc_format;
use gstopentok::common::log::LogLevel;
use gstopentok::common::otc_format_from_gst_format;
use gstopentok::common::pipe_opentok_to_gst_log;
use gstopentok::common::Error;
use gstopentok::text::contains;
use gstopentok::text::decimal;

#[test]
fn errors_have_messages() {
    let list = vec![
        (Error::AddElement("queue"), "Cannot add element queue"),
        (Error::ElementPad("appsrc.src"), "Cannot get element pad appsrc.src"),
        (Error::Init("why".to_string()), "OpenTok initialization error why"),
        (Error::InvalidState("odd"), "Invalid state: odd"),
        (Error::LinkElements("a ! b"), "Cannot link elements: a ! b"),
        (
            Error::MissingElement("shmsink"),
            "Missing element shmsink. Check your GStreamer installation",
        ),
        (
            Error::MissingOpenTokRemoteBinary,
            "Cannot find gst-opentok-helper binary in $PATH.",
        ),
        (
            Error::OpenTokRemoteLaunchFailed,
            "Failed to launch OpenTokRemote container process",
        ),
        (Error::PadActivation("audio ghost pad"), "Cannot activate pad audio ghost pad"),
        (
            Error::PadConstruction("audio", "ghost pad".to_string()),
            "Cannot create pad audio ghost pad",
        ),
        (
            Error::SubscriberStreamSetupFailed("x".to_string()),
            "Failed to set stream x on OpenTok subscriber",
        ),
        (
            Error::InvalidStream("a".to_string(), "b".to_string()),
            "Not subscribing to a. We only care about b",
        ),
    ];
    for (error, message) in list {
        assert_eq!(error.message(), message);
    }
}

#[test]
fn formats_convert_back_and_forth() {
    let list = vec![
        (FrameFormat::Nv12, VideoFormat::Nv12, "NV12"),
        (FrameFormat::Nv21, VideoFormat::Nv21, "NV21"),
        (FrameFormat::Uyvy, VideoFormat::Uyvy, "UYVY"),
        (FrameFormat::Yuv420P, VideoFormat::I420, "I420"),
        (FrameFormat::Yuy2, VideoFormat::Yuy2, "YUY2"),
        (FrameFormat::Rgb24, VideoFormat::Bgr, "BGR"),
    ];
    for (frame, video, name) in list {
        assert_eq!(gst_from_otc_format(frame), video);
        assert_eq!(otc_format_from_gst_format(video), frame);
        assert_eq!(video.name(), name);
    }
}

#[test]
fn other_frames_have_no_format() {
    assert!(FrameFormat::Nv12.is_supported());
    for format in vec![
        FrameFormat::Abgr32,
        FrameFormat::Argb32,
        FrameFormat::Bgra32,
        FrameFormat::Compressed,
        FrameFormat::Max,
        FrameFormat::Mjpeg,
        FrameFormat::Rgba32,
        FrameFormat::Unknown,
    ] {
        assert!(!format.is_supported());
    }
}

#[test]
fn caps_describe_the_pads() {
    let (video, audio) = caps();
    assert_eq!(video.media, "video/x-raw");
    let names: Vec<&str> = video.fields.iter().map(|field| field.0).collect();
    assert_eq!(names, vec!["format", "width", "height", "framerate"]);
    assert!(matches!(&video.fields[0].1, CapsValue::Formats(list) if list.len() == 6));
    assert!(matches!(video.fields[1].1, CapsValue::IntRange(1, i32::MAX)));
    assert!(matches!(
        video.fields[3].1,
        CapsValue::FractionRange((0, 1), (i32::MAX, 1))
    ));
    assert_eq!(audio.media, "audio/x-raw");
    assert!(matches!(audio.fields[0], ("format", CapsValue::NativeS16)));
    assert!(matches!(audio.fields[1], ("layout", CapsValue::Text("interleaved"))));
    assert!(matches!(audio.fields[2], ("rate", CapsValue::Int(44100))));
    assert!(matches!(audio.fields[3], ("channels", CapsValue::Int(1))));
}

#[test]
fn every_advertised_format_converts() {
    let (video, _) = caps();
    if let CapsValue::Formats(list) = &video.fields[0].1 {
        for format in list {
            assert_eq!(gst_from_otc_format(otc_format_from_gst_format(*format)), *format);
        }
    } else {
        panic!("no formats");
    }
}

#[test]
fn logged_messages_are_sorted() {
    assert_eq!(pipe_opentok_to_gst_log("an ERROR here"), Some(LogLevel::Error));
    assert_eq!(
        pipe_opentok_to_gst_log("ERROR: Could not check wether there is a proxy set"),
        None
    );
    assert_eq!(
        pipe_opentok_to_gst_log("Could not check wether there is a proxy"),
        Some(LogLevel::Debug)
    );
    assert_eq!(pipe_opentok_to_gst_log("WARN"), Some(LogLevel::Warning));
    assert_eq!(pipe_opentok_to_gst_log("WARN and ERROR"), Some(LogLevel::Error));
    assert_eq!(pipe_opentok_to_gst_log("error"), Some(LogLevel::Debug));
    assert_eq!(pipe_opentok_to_gst_log(""), Some(LogLevel::Debug));
}

#[test]
fn texts_are_searched() {
    assert!(contains("abc", ""));
    assert!(contains("", ""));
    assert!(contains("aab", "ab"));
    assert!(!contains("ab", "abc"));
    assert!(!contains("abc", "ac"));
    assert!(contains("\u{e9}t\u{e9}", "t\u{e9}"));
}

#[test]
fn numbers_are_written_down() {
    assert_eq!(decimal(0), "0");
    assert_eq!(decimal(9), "9");
    assert_eq!(decimal(10), "10");
    assert_eq!(decimal(1234567890), "1234567890");
}
