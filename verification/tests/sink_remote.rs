use gstopentok::common::credentials::LoadError;
use gstopentok::common::Credentials;
use gstopentok::common::Error;
use gstopentok::common::IpcMessage;
use gstopentok::common::StreamMessage;
use gstopentok::common::StreamMessageData;
use gstopentok::element::LocationError;
use gstopentok::element::PadDirection;
use gstopentok::element::Presence;
use gstopentok::element::PropertyError;
use gstopentok::element::SessionKeys;
use gstopentok::element::StateChange;
use gstopentok::media::SocketAnnouncer;
use gstopentok::media::StreamType;
use gstopentok::opentoksink_remote::IpcReaction;
use gstopentok::opentoksink_remote::IpcTurn;
use gstopentok::opentoksink_remote::OpenTokSinkRemote;
use gstopentok::opentoksink_remote::StateWork;
use gstopentok::plan::Fault;
use gstopentok::plan::Name;
use gstopentok::plan::Node;
use gstopentok::plan::OnFailure;
use gstopentok::plan::Pad;
use gstopentok::plan::State;
use gstopentok::plan::Step;

const SECOND: u64 = 1_000_000_000;
const ROOM: &str = "https://opentokdemo.tokbox.com/room/rust345";

fn located() -> OpenTokSinkRemote {
    let mut element = OpenTokSinkRemote::new();
    element.constructed();
    element.set_location("opentok-remote://session?key=key&token=token").unwrap();
    element
}

fn running(now: u64) -> (OpenTokSinkRemote, gstopentok::opentoksink_remote::IpcWatch) {
    let mut element = located();
    element.child_spawned(true).unwrap();
    element.ipc_accepted();
    let watch = element.ipc_thread_started(now);
    (element, watch)
}

#[test]
fn location_is_public() {
    let element = OpenTokSinkRemote::new();
    assert_eq!(element.location(), None);
    let element = located();
    assert_eq!(element.location().as_deref(), Some("opentok://session"));
    assert_eq!(element.uri().as_deref(), Some("opentok://session"));
    assert_eq!(OpenTokSinkRemote::protocols(), vec!["opentok-remote"]);
}

#[test]
fn stream_is_set_once() {
    let mut element = OpenTokSinkRemote::new();
    element.set_location("opentok-remote://one/stream?key=k&token=t").unwrap();
    let error = element
        .set_location("opentok-remote://two/stream?key=k&token=t")
        .unwrap_err();
    assert!(matches!(error, LocationError::StreamIdSet));
    assert_eq!(error.message(""), "Stream ID can only be set once");
    assert_eq!(element.location().as_deref(), Some("opentok://one"));
    element.set_location("opentok-remote://three?key=k&token=t").unwrap();
    assert_eq!(element.location().as_deref(), Some("opentok://three"));
    assert!(element.set_stream_id("x".to_string()).is_err());
}

#[test]
fn empty_stream_is_no_stream() {
    let mut element = OpenTokSinkRemote::new();
    element.set_location("opentok-remote://one/?key=k&token=t").unwrap();
    element.set_stream_id("x".to_string()).unwrap();
}

#[test]
fn malformed_location_changes_nothing() {
    let mut element = located();
    let error = element.set_location("nonsense").unwrap_err();
    assert_eq!(error.message(""), "Malformed url RelativeUrlWithoutBase");
    assert_eq!(element.location().as_deref(), Some("opentok://session"));
    let error = element
        .set_parsed_location(Err("Reason".to_string()))
        .unwrap_err();
    assert!(matches!(error, LocationError::Malformed(reason) if reason == "Reason"));
}

#[test]
fn parsed_location_is_taken_over() {
    let mut credentials = Credentials::default();
    credentials.set_api_key("k".to_string()).unwrap();
    credentials.set_session_id("s".to_string()).unwrap();
    credentials.set_token("t".to_string()).unwrap();
    let mut element = OpenTokSinkRemote::new();
    element.set_parsed_location(Ok(credentials)).unwrap();
    let keys = element.maybe_init().unwrap();
    assert_eq!((keys.api_key.as_str(), keys.session_id.as_str(), keys.token.as_str()), ("k", "s", "t"));
}

#[test]
fn helper_is_started_with_what_is_known() {
    let mut element = OpenTokSinkRemote::new();
    assert!(element.maybe_init().is_none());
    let keys = element
        .set_uri("opentok-remote://session/stream?key=key&token=token")
        .unwrap()
        .unwrap();
    let command = element.init(Some("server"), None, &keys).unwrap();
    assert_eq!(command.program, "gst-opentok-helper");
    assert_eq!(
        command.args,
        vec![
            "--api-key", "key", "--session-id", "session", "--token", "token", "--direction",
            "sink", "--ipc-server", "server", "--stream-id", "stream",
        ]
    );
    element.set_property("display-name", Some("Me".to_string())).unwrap();
    let command = element
        .init(Some("server"), Some("/bin/gst-opentok-helper".to_string()), &keys)
        .unwrap();
    assert_eq!(command.program, "/bin/gst-opentok-helper");
    assert_eq!(command.args[12..], ["--display-name".to_string(), "Me".to_string()]);
}

#[test]
fn launch_can_fail() {
    let mut element = located();
    let keys = SessionKeys {
        api_key: "k".to_string(),
        session_id: "s".to_string(),
        token: "t".to_string(),
    };
    assert!(matches!(
        element.init(None, None, &keys),
        Err(Error::OpenTokRemoteLaunchFailed)
    ));
    assert!(matches!(
        element.child_spawned(false),
        Err(Error::OpenTokRemoteLaunchFailed)
    ));
    assert!(!element.critical_error("x").interrupt_child);
    element.child_spawned(true).unwrap();
    let critical = element.critical_error("x");
    assert!(critical.interrupt_child);
    assert_eq!(critical.message, "Child process error x");
}

#[test]
fn pings_are_two_seconds_apart() {
    let (element, mut watch) = running(0);
    assert_eq!(element.ipc_turn(&mut watch, SECOND), IpcTurn::Listen);
    assert_eq!(element.ipc_turn(&mut watch, 2 * SECOND - 1), IpcTurn::Listen);
    assert_eq!(element.ipc_turn(&mut watch, 2 * SECOND), IpcTurn::SendPing);
    assert_eq!(watch.last_ping_sent, 2 * SECOND);
    assert_eq!(element.ipc_turn(&mut watch, 3 * SECOND), IpcTurn::Listen);
    assert_eq!(element.ipc_turn(&mut watch, 4 * SECOND), IpcTurn::SendPing);
}

#[test]
fn silent_helper_is_given_up() {
    let (mut element, mut watch) = running(SECOND);
    assert!(element.ipc_silence(&watch, 7 * SECOND - 1).is_none());
    assert!(matches!(
        element.ipc_message(&mut watch, IpcMessage::Pong, 5 * SECOND),
        IpcReaction::Continue
    ));
    assert!(element.ipc_silence(&watch, 11 * SECOND - 1).is_none());
    let critical = element.ipc_silence(&watch, 11 * SECOND).unwrap();
    assert!(critical.interrupt_child);
    assert_eq!(critical.message, "Child process error No pong for 5seconds");
    assert!(element.ipc_silence(&watch, 0).is_none());
}

#[test]
fn only_answers_keep_the_helper() {
    let (mut element, mut watch) = running(SECOND);
    element.ipc_message(&mut watch, IpcMessage::Ping, 6 * SECOND);
    element.ipc_turn(&mut watch, 6 * SECOND);
    assert_eq!(watch.last_pong, SECOND);
    assert!(element.ipc_silence(&watch, 7 * SECOND).is_some());
    element.ipc_message(&mut watch, IpcMessage::Pong, 7 * SECOND);
    assert_eq!(watch.last_pong, 7 * SECOND);
    assert!(element.ipc_silence(&watch, 12 * SECOND).is_none());
}

#[test]
fn thread_needs_channel_and_session() {
    let mut element = located();
    assert!(!element.ipc_ready());
    element.ipc_accepted();
    assert!(element.ipc_ready());
    let mut element = OpenTokSinkRemote::new();
    element.ipc_accepted();
    assert!(!element.ipc_ready());
}

#[test]
fn messages_are_answered_without_a_session() {
    let (_, mut watch) = running(0);
    let mut element = OpenTokSinkRemote::new();
    assert!(matches!(
        element.ipc_message(&mut watch, IpcMessage::Pong, 3),
        IpcReaction::Continue
    ));
    assert_eq!(watch.last_pong, 3);
    assert!(matches!(
        element.ipc_message(&mut watch, IpcMessage::PublishedStream("id".to_string()), 4),
        IpcReaction::Continue
    ));
    element.constructed();
    assert!(matches!(
        element.ipc_message(&mut watch, IpcMessage::Error("oops".to_string()), 5),
        IpcReaction::GiveUp(_)
    ));
}

#[test]
fn failure_of_the_helper_is_reported() {
    let (mut element, mut watch) = running(0);
    match element.ipc_message(&mut watch, IpcMessage::Error("oops".to_string()), 1) {
        IpcReaction::GiveUp(critical) => {
            assert!(critical.interrupt_child);
            assert_eq!(critical.message, "Child process error oops");
        }
        _ => panic!("not given up"),
    }
}

#[test]
fn published_stream_is_emitted() {
    let (mut element, mut watch) = running(0);
    assert_eq!(element.property("stream-id").as_deref(), Some(""));
    match element.ipc_message(&mut watch, IpcMessage::PublishedStream("id".to_string()), 1) {
        IpcReaction::EmitPublishedStream { stream_id, url } => {
            assert_eq!(stream_id, "id");
            assert_eq!(url, "opentok://session/id?key=key&token=token");
        }
        _ => panic!("not emitted"),
    }
    assert_eq!(element.property("stream-id").as_deref(), Some("id"));
    assert_eq!(OpenTokSinkRemote::signals(), vec![("published-stream", 2)]);
}

#[test]
fn published_stream_needs_an_emitter() {
    let mut element = OpenTokSinkRemote::new();
    element.set_location("opentok-remote://session?key=key&token=token").unwrap();
    element.ipc_accepted();
    let mut watch = element.ipc_thread_started(0);
    assert!(matches!(
        element.ipc_message(&mut watch, IpcMessage::PublishedStream("id".to_string()), 1),
        IpcReaction::Continue
    ));
    assert_eq!(element.property("stream-id").as_deref(), Some(""));
    assert!(matches!(
        element.ipc_message(&mut watch, IpcMessage::Ping, 1),
        IpcReaction::Continue
    ));
}

#[test]
fn teardown_ends_the_thread() {
    let (mut element, mut watch) = running(0);
    assert!(element.handle_message(true));
    assert!(element.teardown());
    assert!(!element.teardown());
    assert_eq!(element.ipc_turn(&mut watch, 9 * SECOND), IpcTurn::Exit);
    assert!(!element.handle_message(true));
    assert!(element.handle_message(false));
    let (mut element, _) = running(0);
    assert_eq!(element.dispose(), (true, true));
    assert_eq!(element.dispose(), (false, false));
}

#[test]
fn changes_of_state_start_and_end_the_helper() {
    let mut element = located();
    assert_eq!(element.wanted_info(StateChange::ReadyToPaused), None);
    match element.change_state(StateChange::ReadyToPaused, Err("unused".to_string())) {
        Ok(StateWork::Init(Some(keys))) => assert_eq!(keys.session_id, "session"),
        _ => panic!("not started"),
    }
    element.ipc_accepted();
    assert!(matches!(
        element.change_state(StateChange::NullToReady, Err(String::new())),
        Ok(StateWork::Nothing)
    ));
    assert!(matches!(
        element.change_state(StateChange::ReadyToNull, Err(String::new())),
        Ok(StateWork::Terminate(true))
    ));
    assert!(matches!(
        element.change_state(StateChange::ReadyToNull, Err(String::new())),
        Ok(StateWork::Terminate(false))
    ));
    let mut element = OpenTokSinkRemote::new();
    assert!(matches!(
        element.change_state(StateChange::ReadyToPaused, Err(String::new())),
        Ok(StateWork::Init(None))
    ));
}

#[test]
fn room_is_asked_before_the_start() {
    let mut element = OpenTokSinkRemote::new();
    element.set_property("demo-room-uri", Some(ROOM.to_string())).unwrap();
    assert_eq!(
        element.wanted_info(StateChange::ReadyToPaused).unwrap(),
        "https://opentokdemo.tokbox.com/room/rust345/info"
    );
    assert_eq!(element.wanted_info(StateChange::ReadyToNull), None);
    assert!(matches!(
        element.change_state(StateChange::ReadyToPaused, Err("gone".to_string())),
        Err(LoadError::Fetch(_))
    ));
    let answer = r#"{"apiKey":"k","sessionId":"s","token":"t"}"#.to_string();
    assert!(matches!(
        element.change_state(StateChange::ReadyToPaused, Ok(answer)),
        Ok(StateWork::Init(Some(_)))
    ));
    assert_eq!(element.location().as_deref(), Some("opentok://s"));
}

#[test]
fn sink_properties_are_handled() {
    let mut element = OpenTokSinkRemote::new();
    let properties = OpenTokSinkRemote::properties();
    let names: Vec<&str> = properties.iter().map(|property| property.name).collect();
    assert_eq!(names, vec!["location", "stream-id", "demo-room-uri", "display-name"]);
    for property in &properties {
        element.property(property.name);
    }
    let writable: Vec<bool> = properties.iter().map(|property| property.writable).collect();
    assert_eq!(writable, vec![true, false, true, true]);
    element.set_property("display-name", Some("Me".to_string())).unwrap();
    assert_eq!(element.property("display-name").as_deref(), Some("Me"));
    element.set_property("display-name", None).unwrap();
    assert_eq!(element.property("display-name"), None);
    assert_eq!(element.property("demo-room-uri"), None);
    element.set_property("demo-room-uri", Some(ROOM.to_string())).unwrap();
    assert_eq!(element.property("demo-room-uri").as_deref(), Some(ROOM));
    element
        .set_property("location", Some("opentok-remote://s?key=k&token=t".to_string()))
        .unwrap();
    assert_eq!(element.property("location").as_deref(), Some("opentok://s"));
    assert!(matches!(
        element.set_property("demo-room-uri", Some(ROOM.to_string())),
        Err(PropertyError::Credentials(_))
    ));
    assert!(matches!(
        element.set_property("location", Some("x".to_string())),
        Err(PropertyError::Location(_))
    ));
}

#[test]
fn sink_describes_itself() {
    assert_eq!(OpenTokSinkRemote::metadata().long_name, "OpenTok Sink Remote");
    let templates = OpenTokSinkRemote::pad_templates();
    assert_eq!(templates[0].name, "video_sink");
    assert_eq!(templates[1].name, "audio_sink");
    assert_eq!(templates[1].direction, PadDirection::Sink);
    assert_eq!(templates[1].presence, Presence::Request);
    assert_eq!(templates[0].caps.media, "video/x-raw");
}

#[test]
fn pads_are_requested_and_released() {
    let mut element = OpenTokSinkRemote::new();
    let plan = element.request_new_pad(StreamType::Audio);
    assert_eq!(plan.len(), 19);
    assert!(matches!(plan[0].step, Step::Make(Node::Bin, Name::Prefixed("bin_"))));
    assert!(matches!(plan[0].on_failure, OnFailure::Abort));
    assert!(matches!(
        plan[2].on_failure,
        OnFailure::Report(Fault::MissingElement("shmsink"))
    ));
    assert!(matches!(plan[18].step, Step::WatchCaps(Pad::Exposed)));
    let plan = element.release_pad("video_sink", true);
    assert_eq!(plan.len(), 1);
    let plan = element.release_pad("audio_sink", true);
    assert_eq!(plan.len(), 4);
    assert!(matches!(plan[0].step, Step::SetState(Node::Bin, State::Null)));
    assert!(matches!(plan[3].step, Step::RemovePad(Node::Element, Pad::Given)));
    let plan = element.release_pad("audio_sink", true);
    assert_eq!(plan.len(), 1);
    element.request_new_pad(StreamType::Video);
    assert_eq!(element.release_pad("video_sink", false).len(), 1);
}

#[test]
fn released_pad_leaves_nothing_behind() {
    let mut element = OpenTokSinkRemote::new();
    let mut nodes: Vec<Node> = Vec::new();
    let mut pads: Vec<Pad> = Vec::new();
    for planned in element.request_new_pad(StreamType::Video) {
        match planned.step {
            Step::Add(Node::Element, node) => nodes.push(node),
            Step::AddPad(Node::Element, pad) => pads.push(pad),
            _ => {}
        }
    }
    assert_eq!(nodes, vec![Node::Bin]);
    assert_eq!(pads, vec![Pad::Exposed]);
    for planned in element.release_pad("video_sink", true) {
        match planned.step {
            Step::Remove(Node::Element, node) => assert_eq!(nodes.pop(), Some(node)),
            Step::RemovePad(Node::Element, Pad::Given) => assert!(pads.pop().is_some()),
            _ => {}
        }
    }
    assert!(nodes.is_empty() && pads.is_empty());
}

#[test]
fn caps_are_sent_through_the_channel() {
    let mut element = located();
    let mut announcer = SocketAnnouncer::new("/tmp/s".to_string());
    assert!(element
        .caps_changed(&mut announcer, StreamType::Audio, "a".to_string(), "p".to_string())
        .is_none());
    element.ipc_accepted();
    assert!(matches!(
        element.caps_changed(&mut announcer, StreamType::Audio, "b".to_string(), "p".to_string()),
        Some(IpcMessage::Stream(StreamMessage::Audio(StreamMessageData::CapsChanged(..))))
    ));
    let mut announcer = SocketAnnouncer::new("/tmp/s".to_string());
    assert!(matches!(
        element.caps_changed(&mut announcer, StreamType::Video, "b".to_string(), "p".to_string()),
        Some(IpcMessage::Stream(StreamMessage::Video(StreamMessageData::ShmSocketPathAdded(..))))
    ));
}
