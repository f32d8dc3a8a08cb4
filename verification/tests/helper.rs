use gstopentok::common::credentials::CredentialsError;
use gstopentok::common::url::Url;
use gstopentok::common::IpcMessage;
use gstopentok::common::StreamMessage;
use gstopentok::common::StreamMessageData;
use gstopentok::helper::cli::check_credentials;
use gstopentok::helper::cli::cli_credentials;
use gstopentok::helper::cli::parse_cli;
use gstopentok::helper::cli::settings;
use gstopentok::helper::cli::CliError;
use gstopentok::helper::cli::Direction;
use gstopentok::helper::cli::Matches;
use gstopentok::helper::create_pipeline;
use gstopentok::helper::on_bus_message;
use gstopentok::helper::sink::Route;
use gstopentok::helper::sink::Sink;
use gstopentok::helper::source::Source;
use gstopentok::helper::BusAction;
use gstopentok::helper::BusMessage;
use gstopentok::helper::PipelineState;
use gstopentok::media::Media;
use gstopentok::opentoksink_remote::OpenTokSinkRemote;
use gstopentok::plan::Fault;
use gstopentok::plan::Name;
use gstopentok::plan::Node;
use gstopentok::plan::OnFailure;
use gstopentok::plan::State;
use gstopentok::plan::Step;

const ROOM: &str = "https://opentokdemo.tokbox.com/room/rust345";

fn some(text: &str) -> Option<String> {
    Some(text.to_string())
}

fn matches() -> Matches {
    Matches {
        api_key: some("k"),
        session_id: some("s"),
        token: some("t"),
        room_uri: None,
        stream_id: some("stream"),
        display_name: some("Me"),
        ipc_server: some("server"),
        direction: some("sink"),
    }
}

fn room() -> Matches {
    Matches { api_key: None, session_id: None, token: None, room_uri: some(ROOM), ..matches() }
}

fn unused() -> Result<String, String> {
    Err("unused".to_string())
}

#[test]
fn complete_command_line_is_accepted() {
    let settings = parse_cli(&matches(), unused()).unwrap();
    assert_eq!(settings.credentials.api_key().unwrap(), "k");
    assert_eq!(settings.stream_id.as_deref(), Some("stream"));
    assert_eq!(settings.display_name.as_deref(), Some("Me"));
    assert_eq!(settings.ipc_server, "server");
    assert_eq!(settings.direction, Direction::Sink);
}

#[test]
fn direction_is_source_for_src_only() {
    for (word, direction) in vec![
        ("src", Direction::Source),
        ("sink", Direction::Sink),
        ("source", Direction::Sink),
        ("", Direction::Sink),
    ] {
        let matches = Matches { direction: some(word), ..matches() };
        assert_eq!(parse_cli(&matches, unused()).unwrap().direction, direction);
    }
}

#[test]
fn command_line_can_lack_something() {
    let error = parse_cli(&Matches { token: None, ..matches() }, unused()).unwrap_err();
    assert!(matches!(error, CliError::IncompleteCredentials));
    assert_eq!(error.message(), "===> Incomplete credentials!");
    let error =
        parse_cli(&Matches { ipc_server: None, direction: None, ..matches() }, unused()).unwrap_err();
    assert!(matches!(error, CliError::NoIpcServer));
    assert_eq!(error.message(), "===> No ipc_server!");
    let error = parse_cli(&Matches { direction: None, ..matches() }, unused()).unwrap_err();
    assert!(matches!(error, CliError::NoDirection));
    assert_eq!(error.message(), "===> No direction set");
}

#[test]
fn room_on_the_command_line_is_asked() {
    let credentials = cli_credentials(&room()).unwrap();
    assert_eq!(
        credentials.info_url().unwrap(),
        "https://opentokdemo.tokbox.com/room/rust345/info"
    );
    let error = parse_cli(&room(), Err("gone".to_string())).unwrap_err();
    assert_eq!(error.message(), "could not load credentials: gone");
    let answer = r#"{"apiKey":"a","sessionId":"b","token":"c"}"#.to_string();
    let settings = parse_cli(&room(), Ok(answer)).unwrap();
    assert_eq!(
        create_pipeline(&settings).location,
        "opentok://b?key=a&token=c"
    );
}

#[test]
fn room_on_the_command_line_can_be_wrong() {
    let error = cli_credentials(&Matches { room_uri: some(ROOM), ..matches() }).unwrap_err();
    assert!(matches!(error, CliError::RoomUri(CredentialsError::OtherFieldSet)));
    let error = cli_credentials(&Matches { room_uri: some("x"), ..room() }).unwrap_err();
    assert_eq!(error.message(), "Malformed url RelativeUrlWithoutBase");
    let error = check_credentials(&room(), Some(Err("R".to_string()))).unwrap_err();
    assert_eq!(error.message(), "Malformed url R");
    let parsed = Some(Url::parse(ROOM));
    let credentials = check_credentials(&room(), parsed).unwrap();
    assert!(settings(&room(), credentials).is_ok());
}

#[test]
fn helper_reads_what_the_element_wrote() {
    let mut element = OpenTokSinkRemote::new();
    let keys = element
        .set_uri("opentok-remote://s/stream?key=k&token=t")
        .unwrap()
        .unwrap();
    element.set_property("display-name", some("--token")).unwrap();
    let args = element.init(Some("server"), None, &keys).unwrap().args;
    let value = |flag: &str| {
        args.chunks(2)
            .find(|pair| pair[0] == flag)
            .map(|pair| pair[1].clone())
    };
    let matches = Matches {
        api_key: value("--api-key"),
        session_id: value("--session-id"),
        token: value("--token"),
        room_uri: value("--room-uri"),
        stream_id: value("--stream-id"),
        display_name: value("--display-name"),
        ipc_server: value("--ipc-server"),
        direction: value("--direction"),
    };
    let settings = parse_cli(&matches, unused()).unwrap();
    assert_eq!(settings.direction, Direction::Sink);
    assert_eq!(settings.ipc_server, "server");
    assert_eq!(settings.display_name.as_deref(), Some("--token"));
    let request = create_pipeline(&settings);
    assert_eq!(request.location, "opentok://s?key=k&token=t");
    assert_eq!(request.name, "opentok-element");
    assert_eq!(request.stream_id.as_deref(), Some("stream"));
    assert_eq!(request.direction, Direction::Sink);
}

#[test]
fn bus_messages_are_answered() {
    assert!(matches!(on_bus_message(BusMessage::Eos), BusAction::Quit));
    match on_bus_message(BusMessage::Error("why".to_string())) {
        BusAction::ReportAndQuit(IpcMessage::Error(reason)) => assert_eq!(reason, "why"),
        _ => panic!("not reported"),
    }
    let changed = |of_pipeline| {
        on_bus_message(BusMessage::StateChanged {
            of_pipeline,
            old_state: PipelineState::Null,
            current: PipelineState::Ready,
        })
    };
    match changed(true) {
        BusAction::Dump(name) => assert_eq!(name, "opentok_wrapper_state_changed_Null_Ready"),
        _ => panic!("not drawn"),
    }
    assert!(matches!(changed(false), BusAction::Nothing));
    assert!(matches!(on_bus_message(BusMessage::Other), BusAction::Nothing));
}

fn added() -> StreamMessageData {
    StreamMessageData::ShmSocketPathAdded(
        "/tmp/opentok-1-socket".to_string(),
        "audio/x-raw".to_string(),
        "audio_sink".to_string(),
    )
}

#[test]
fn messages_reach_their_stream() {
    let sink = Sink::new("server");
    assert_eq!(sink.ipc_server, "server");
    assert!(matches!(
        sink.route(IpcMessage::Stream(StreamMessage::Audio(added()))),
        Route::Stream(Media::Audio, StreamMessageData::ShmSocketPathAdded(..))
    ));
    assert!(matches!(
        sink.route(IpcMessage::Stream(StreamMessage::Video(added()))),
        Route::Stream(Media::Video, _)
    ));
    assert!(matches!(sink.route(IpcMessage::Terminate()), Route::Eos));
    assert!(matches!(sink.route(IpcMessage::Ping), Route::Ignored));
    assert!(matches!(
        sink.route(IpcMessage::Error("x".to_string())),
        Route::Ignored
    ));
}

#[test]
fn announced_stream_is_connected() {
    let stream = Sink::stream_opened(Media::Audio, added()).unwrap();
    assert_eq!(stream.caps, "audio/x-raw");
    let pipeline = Sink::init_stream_pipeline(&stream).unwrap();
    assert_eq!(pipeline.pad_name, "audio_sink");
    assert_eq!(pipeline.bin_name, "opentok-1-socket");
    assert_eq!(pipeline.plan.len(), 26);
    assert!(matches!(
        pipeline.plan[14].on_failure,
        OnFailure::Report(Fault::LinkElements("shmsrc ! capsfilter"))
    ));
    let changed = StreamMessageData::CapsChanged("c".to_string(), "p".to_string());
    assert!(Sink::stream_opened(Media::Video, changed).is_none());
    let spaced = StreamMessageData::ShmSocketPathAdded(
        "/home/a user/tmp/opentok-2-socket".to_string(),
        "video/x-raw".to_string(),
        "video_sink".to_string(),
    );
    let stream = Sink::stream_opened(Media::Video, spaced).unwrap();
    let pipeline = Sink::init_stream_pipeline(&stream).unwrap();
    assert_eq!(pipeline.pad_name, "video_sink");
    assert_eq!(pipeline.bin_name, "opentok-2-socket");
    let nowhere = StreamMessageData::ShmSocketPathAdded("/".to_string(), String::new(), String::new());
    let stream = Sink::stream_opened(Media::Video, nowhere).unwrap();
    assert!(Sink::init_stream_pipeline(&stream).is_none());
}

#[test]
fn stream_is_connected_under_the_name_of_its_socket() {
    let stream = Sink::stream_opened(Media::Audio, added()).unwrap();
    let pipeline = Sink::connect_stream(&stream, some("name")).unwrap();
    assert_eq!(pipeline.pad_name, "audio_sink");
    assert_eq!(pipeline.bin_name, "name");
    assert_eq!(pipeline.plan.len(), 26);
    assert!(matches!(pipeline.plan[0].step, Step::Make(Node::Bin, Name::OfSocket)));
    assert!(Sink::connect_stream(&stream, None).is_none());
}

#[test]
fn published_stream_is_passed_on() {
    assert!(matches!(
        Sink::published_stream(some("id")),
        Some(IpcMessage::PublishedStream(id)) if id == "id"
    ));
    assert!(Sink::published_stream(None).is_none());
}

#[test]
fn source_pads_come_and_go() {
    let source = Source::new("server");
    assert_eq!(source.ipc_server, "server");
    let setup = source.pad_added("/tmp/s".to_string());
    assert_eq!(setup.plan.len(), 15);
    assert!(matches!(setup.plan[0].on_failure, OnFailure::Report(Fault::Raised)));
    assert!(matches!(setup.plan[0].step, Step::Make(Node::Bin, Name::Prefixed("bin_"))));
    assert_eq!(setup.announcer.socket_path, "/tmp/s");
    assert!(matches!(
        setup.follow_up[0].step,
        Step::SetState(Node::Pipeline, State::Playing)
    ));
    assert_eq!(Source::bin_name("audio_stream"), "bin_audio_stream");
    assert_eq!(Source::sink_name("audio_stream"), "sink_audio_stream");
    if let Step::Make(_, name) = setup.plan[0].step {
        assert_eq!(name.resolve("audio_stream", ""), Some(Source::bin_name("audio_stream")));
    }
    assert!(source.cleanup_pad(false).is_none());
    assert_eq!(source.cleanup_pad(true).unwrap().len(), 6);
    let mut held: Vec<Node> = Vec::new();
    for planned in setup.plan.iter().chain(source.cleanup_pad(true).unwrap().iter()) {
        match planned.step {
            Step::Add(Node::Pipeline, node) => held.push(node),
            Step::Remove(Node::Pipeline, node) => assert_eq!(held.pop(), Some(node)),
            _ => {}
        }
    }
    assert!(held.is_empty());
    assert_eq!(source.pad_released(true, true).unwrap().len(), 6);
    assert!(source.pad_released(true, false).is_none());
    assert!(source.pad_released(false, true).is_none());
    assert!(source.pad_released(false, false).is_none());
    assert!(Source::ends_stream(true, Some(0)));
    assert!(!Source::ends_stream(false, Some(0)));
    assert!(!Source::ends_stream(true, Some(1)));
    assert!(!Source::ends_stream(true, None));
    assert!(Source::is_over(Some(0)));
    assert!(!Source::is_over(Some(1)));
    assert!(!Source::is_over(None));
}

#[test]
fn gone_pad_is_reported() {
    let (done, receiver) = ipc_channel::ipc::channel::<()>().unwrap();
    match Source::pad_removed("video_stream_0", None, done) {
        IpcMessage::Stream(StreamMessage::Video(StreamMessageData::ShmSocketPathRemoved(path, done))) => {
            assert_eq!(path, "");
            done.send(()).unwrap();
        }
        _ => panic!("not reported"),
    }
    assert!(receiver.recv().is_ok());
    assert_eq!(Source::socket_path_for_pad(some("/tmp/s")), "/tmp/s");
}
