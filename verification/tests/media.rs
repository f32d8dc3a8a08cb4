use gstopentok::common::IpcMessage;
use gstopentok::common::StreamMessage;
use gstopentok::common::StreamMessageData;
use gstopentok::media::media_of_source_pad;
use gstopentok::media::socket_removed;
use gstopentok::media::Media;
use gstopentok::media::SocketAnnouncer;
use gstopentok::media::StreamType;
use gstopentok::socket::new_socket_file;
use gstopentok::socket::socket_file;
use gstopentok::socket::socket_name;

#[test]
fn pads_and_stream_types_convert() {
    for stream_type in vec![StreamType::Audio, StreamType::Video] {
        let name: &'static str = stream_type.into();
        assert_eq!(StreamType::from(name), stream_type);
        assert_eq!(stream_type.name(), Some(name));
    }
    assert_eq!(StreamType::from("video_sink"), StreamType::Video);
    assert_eq!(StreamType::from("audio_sink"), StreamType::Audio);
    assert_eq!(StreamType::from("other"), StreamType::Unknown);
    let name: &'static str = StreamType::Unknown.into();
    assert_eq!(name, "");
    assert_eq!(StreamType::Unknown.name(), None);
}

#[test]
fn source_pads_have_a_medium() {
    assert_eq!(media_of_source_pad("audio_stream"), Media::Audio);
    assert_eq!(media_of_source_pad("video_stream_0"), Media::Video);
    assert_eq!(media_of_source_pad("anything"), Media::Video);
}

#[test]
fn socket_is_announced_once() {
    let mut announcer = SocketAnnouncer::new("/tmp/s".to_string());
    let first = announcer.announce(Media::Audio, "a".to_string(), "pad".to_string());
    match first {
        IpcMessage::Stream(StreamMessage::Audio(StreamMessageData::ShmSocketPathAdded(
            path,
            caps,
            pad,
        ))) => {
            assert_eq!(path, "/tmp/s");
            assert_eq!(caps, "a");
            assert_eq!(pad, "pad");
        }
        _ => panic!("not announced"),
    }
    for caps in vec!["b", "b", "c"] {
        let later = announcer.announce(Media::Audio, caps.to_string(), "pad".to_string());
        match later {
            IpcMessage::Stream(StreamMessage::Audio(StreamMessageData::CapsChanged(new, pad))) => {
                assert_eq!(new, caps);
                assert_eq!(pad, "pad");
            }
            _ => panic!("not a change"),
        }
        assert_eq!(announcer.prev_caps.as_deref(), Some(caps));
    }
}

#[test]
fn failed_socket_is_reported_instead() {
    let mut announcer = SocketAnnouncer::new("/tmp/s".to_string());
    let failed = Err("no bin".to_string());
    let message = announcer.announce_source(&failed, "a".to_string(), "audio_stream".to_string());
    assert!(matches!(message, IpcMessage::Error(reason) if reason == "no bin"));
    assert_eq!(announcer.prev_caps, None);
    let message = announcer.announce_source(&Ok(()), "a".to_string(), "video_stream_0".to_string());
    assert!(matches!(
        message,
        IpcMessage::Stream(StreamMessage::Video(StreamMessageData::ShmSocketPathAdded(..)))
    ));
}

#[test]
fn removed_socket_is_reported() {
    let (sender, receiver) = ipc_channel::ipc::channel::<()>().unwrap();
    let message = socket_removed("audio_stream", "/tmp/s".to_string(), sender);
    match message {
        IpcMessage::Stream(StreamMessage::Audio(StreamMessageData::ShmSocketPathRemoved(
            path,
            done,
        ))) => {
            assert_eq!(path, "/tmp/s");
            done.send(()).unwrap();
        }
        _ => panic!("not a removal"),
    }
    assert!(receiver.recv().is_ok());
}

#[test]
fn socket_files_are_named() {
    assert_eq!(socket_file("abc"), "opentok-abc-socket");
    let first = new_socket_file();
    let second = new_socket_file();
    assert_ne!(first, second);
    assert_eq!(first.len(), 51);
    assert!(first.starts_with("opentok-"));
    assert!(first.ends_with("-socket"));
    assert_eq!(first.as_bytes()[22], b'4');
    assert!(b"89ab".contains(&first.as_bytes()[27]));
}

#[test]
fn socket_name_is_the_last_part() {
    assert_eq!(
        socket_name("/tmp/opentok-abc-socket").as_deref(),
        Some("opentok-abc-socket")
    );
    assert_eq!(socket_name("/"), None);
    assert_eq!(socket_name(""), None);
    assert_eq!(socket_name("/tmp/.."), None);
    assert_eq!(socket_name("file").as_deref(), Some("file"));
    assert_eq!(socket_name("/tmp/file/").as_deref(), Some("file"));
    assert_eq!(socket_name("/home/a user/t.m-p/a file").as_deref(), Some("a file"));
    assert_eq!(socket_name("../x/./y").as_deref(), Some("y"));
    assert_eq!(socket_name("x/./").as_deref(), Some("x"));
    assert_eq!(socket_name("x//y").as_deref(), Some("y"));
    assert_eq!(socket_name(".."), None);
    assert_eq!(socket_name("."), None);
    assert_eq!(socket_name("./"), None);
    assert_eq!(socket_name("/tmp/a:b/c:d").as_deref(), Some("c:d"));
    assert_eq!(socket_name("ab:c").as_deref(), Some("ab:c"));
    let file = new_socket_file();
    assert_eq!(socket_name(&format!("/var/tmp/{}", file)), Some(file));
}
