use gstopentok::common::credentials::LoadError;
use gstopentok::common::format::CapsValue;
use gstopentok::common::format::FrameFormat;
use gstopentok::common::format::VideoFormat;
use gstopentok::common::Error;
use gstopentok::element::LocationError;
use gstopentok::element::PropertyError;
use gstopentok::element::PropertyKind;
use gstopentok::element::PropertyValue;
use gstopentok::element::StateChange;
use gstopentok::opentoksrc::OpenTokSrc;
use gstopentok::opentoksrc::SessionOutcome;
use gstopentok::opentoksrc::StateChangeSuccess;
use gstopentok::plan::Fault;
use gstopentok::plan::Name;
use gstopentok::plan::Node;
use gstopentok::plan::OnFailure;
use gstopentok::plan::Pad;
use gstopentok::plan::Planned;
use gstopentok::plan::State;
use gstopentok::plan::Step;
use gstopentok::sample::push_audio_sample;
use gstopentok::sample::push_video_frame;
use gstopentok::sample::AppSrcStateHolder;
use gstopentok::sample::AudioSample;
use gstopentok::subscribers::generate_video_pad_name;
use gstopentok::subscribers::Subscribers;

const ROOM: &str = "https://opentokdemo.tokbox.com/room/rust345";

fn text(element: &OpenTokSrc, name: &str) -> Option<String> {
    match element.property(name) {
        PropertyValue::Text(text) => text,
        PropertyValue::Flag(_) => panic!("no text"),
    }
}

fn subscribe(element: &mut OpenTokSrc, id: &str) {
    assert!(element
        .stream_subscribed(id.to_string(), false, Ok(()))
        .unwrap()
        .is_none());
}

/// Carries out what the plan does to the elements and the pads in the element.
fn apply(plan: &Vec<Planned>, nodes: &mut Vec<Node>, pads: &mut Vec<Pad>) {
    for planned in plan {
        match planned.step {
            Step::Add(Node::Element, node) => nodes.push(node),
            Step::Remove(Node::Element, node) => nodes.retain(|other| *other != node),
            Step::AddPad(Node::Element, pad) => pads.push(pad),
            Step::RemovePad(Node::Element, pad) => pads.retain(|other| *other != pad),
            _ => {}
        }
    }
}

fn locked_at_end(plan: &Vec<Planned>) -> bool {
    let mut locked = false;
    for planned in plan {
        if let Step::LockState(Node::Element, lock) = planned.step {
            locked = lock;
        }
        if let Step::SetState(_, _) = planned.step {
            assert!(locked);
        }
    }
    locked
}

#[test]
fn location_of_a_stream_is_read() {
    let mut element = OpenTokSrc::new();
    element.set_location("opentok://s/a?key=k&token=t").unwrap();
    assert_eq!(element.location().as_deref(), Some("opentok://s"));
    assert_eq!(text(&element, "stream-id").as_deref(), Some("a"));
    element.set_uri("opentok://s/b?key=k&token=t").unwrap();
    assert_eq!(text(&element, "stream-id").as_deref(), Some("b"));
    element.set_location("opentok://u?key=k&token=t").unwrap();
    assert_eq!(text(&element, "stream-id").as_deref(), Some("b"));
    assert_eq!(element.uri().as_deref(), Some("opentok://u"));
    assert_eq!(OpenTokSrc::protocols(), vec!["opentok"]);
}

#[test]
fn published_url_can_be_subscribed_to() {
    let mut sink = gstopentok::opentoksink_remote::OpenTokSinkRemote::new();
    sink.constructed();
    sink.set_location("opentok-remote://s~1?key=k&token=T1==a/b").unwrap();
    sink.ipc_accepted();
    let mut watch = sink.ipc_thread_started(0);
    let message = gstopentok::common::IpcMessage::PublishedStream("A1-B2".to_string());
    match sink.ipc_message(&mut watch, message, 0) {
        gstopentok::opentoksink_remote::IpcReaction::EmitPublishedStream { url, .. } => {
            let mut element = OpenTokSrc::new();
            element.set_uri(&url).unwrap();
            assert_eq!(text(&element, "session-id").as_deref(), Some("s~1"));
            assert_eq!(text(&element, "api-key").as_deref(), Some("k"));
            assert_eq!(text(&element, "token").as_deref(), Some("T1==a/b"));
            assert_eq!(text(&element, "stream-id").as_deref(), Some("A1-B2"));
            assert!(element.stream_received("A1-B2", &vec![]).is_ok());
            assert!(element.stream_received("other", &vec![]).is_err());
        }
        _ => panic!("not published"),
    }
}

#[test]
fn location_is_refused_beside_a_room() {
    let mut element = OpenTokSrc::new();
    element.set_property("demo-room-uri", Some(ROOM.to_string())).unwrap();
    let error = element.set_location("opentok://s?key=k&token=t").unwrap_err();
    assert!(matches!(error, LocationError::CredentialsSet));
    assert_eq!(error.message("{..}"), "Credential already set {..}");
    assert!(element.credentials().room_uri().is_some());
    assert_eq!(element.location(), None);
    let mut element = OpenTokSrc::new();
    assert!(matches!(
        element.set_location("x"),
        Err(LocationError::Malformed(reason)) if reason == "RelativeUrlWithoutBase"
    ));
    assert!(matches!(
        element.set_parsed_location(Err("R".to_string())),
        Err(LocationError::Malformed(reason)) if reason == "R"
    ));
}

#[test]
fn only_the_chosen_stream_is_wanted() {
    let mut element = OpenTokSrc::new();
    assert!(element.stream_received("x", &vec![]).is_ok());
    element.set_stream_id("a".to_string());
    match element.stream_received("x", &vec![]) {
        Err(Error::InvalidStream(found, wanted)) => {
            assert_eq!(found, "x");
            assert_eq!(wanted, "a");
        }
        _ => panic!("accepted"),
    }
    let subscription = element.stream_received("a", &vec![Some(true)]).unwrap();
    assert_eq!(subscription.pad_name, "video_stream_1");
    assert_eq!(subscription.plan.len(), 7);
    assert!(matches!(
        subscription.plan[3].on_failure,
        OnFailure::Report(Fault::AddElement("appsrc"))
    ));
}

#[test]
fn stream_is_handed_to_its_subscriber() {
    let mut element = OpenTokSrc::new();
    match element.stream_subscribed("a".to_string(), true, Err("no".to_string())) {
        Err(Error::SubscriberStreamSetupFailed(reason)) => assert_eq!(reason, "no"),
        _ => panic!("accepted"),
    }
    assert!(element.stream_dropped("a").is_none());
    let plan = element
        .stream_subscribed("a".to_string(), true, Ok(()))
        .unwrap()
        .unwrap();
    assert!(matches!(plan[0].step, Step::AddPad(Node::Element, Pad::Exposed)));
    assert_eq!(plan.len(), OpenTokSrc::enable_video().len());
}

#[test]
fn last_dropped_stream_takes_the_audio_along() {
    let mut element = OpenTokSrc::new();
    subscribe(&mut element, "a");
    subscribe(&mut element, "b");
    subscribe(&mut element, "b");
    assert!(element.stream_dropped("c").is_none());
    let plan = element.stream_dropped("a").unwrap();
    assert_eq!(plan.len(), 7);
    assert!(!locked_at_end(&plan));
    assert!(element.stream_dropped("a").is_none());
    let plan = element.stream_dropped("b").unwrap();
    assert_eq!(plan.len(), 14);
    assert!(matches!(plan[6].step, Step::StaticPad(Pad::Audio)));
    assert!(!locked_at_end(&plan));
    assert!(element.stream_dropped("b").is_none());
}

#[test]
fn video_comes_and_goes() {
    let plan = OpenTokSrc::disable_video();
    assert!(matches!(plan[2].step, Step::SetState(Node::AppSrc, State::Ready)));
    assert!(!locked_at_end(&plan));
    assert!(matches!(
        OpenTokSrc::enable_video()[4].step,
        Step::SyncState(Node::AppSrc)
    ));
}

#[test]
fn plans_take_out_what_they_put_in() {
    let mut element = OpenTokSrc::new();
    element.set_location("opentok://s?key=k&token=t").unwrap();
    let (mut nodes, mut pads) = (Vec::new(), Vec::new());
    let audio = element.maybe_init_session().unwrap().audio;
    apply(&audio, &mut nodes, &mut pads);
    assert_eq!(nodes, vec![Node::AppSrc]);
    assert_eq!(pads, vec![Pad::Exposed]);
    let (mut nodes, mut pads) = (vec![Node::AudioAppSrc], vec![Pad::Audio]);
    let subscription = element.stream_received("a", &vec![]).unwrap();
    apply(&subscription.plan, &mut nodes, &mut pads);
    apply(&OpenTokSrc::enable_video(), &mut nodes, &mut pads);
    assert_eq!(pads, vec![Pad::Audio, Pad::Exposed]);
    apply(&OpenTokSrc::disable_video(), &mut nodes, &mut pads);
    assert_eq!(pads, vec![Pad::Audio]);
    apply(&OpenTokSrc::enable_video(), &mut nodes, &mut pads);
    let (mut stopped_nodes, mut stopped_pads) = (nodes.clone(), pads.clone());
    subscribe(&mut element, "a");
    apply(&element.stream_dropped("a").unwrap(), &mut nodes, &mut pads);
    assert!(nodes.is_empty() && pads.is_empty());
    let audio = OpenTokSrc::stop_audio(true).unwrap();
    apply(&audio, &mut stopped_nodes, &mut stopped_pads);
    apply(&element.stop().plan, &mut stopped_nodes, &mut stopped_pads);
    assert!(stopped_nodes.is_empty() && stopped_pads.is_empty());
}

#[test]
fn session_is_joined_once() {
    let mut element = OpenTokSrc::new();
    assert!(element.maybe_init_session().is_none());
    element.set_location("opentok://s?key=k&token=t").unwrap();
    let init = element.maybe_init_session().unwrap();
    assert_eq!(init.keys.api_key, "k");
    assert_eq!(init.audio.len(), 11);
    assert!(matches!(
        init.audio[0].step,
        Step::Make(Node::AppSrc, Name::Fixed("audio_appsrc"))
    ));
    match element.session_created(SessionOutcome::NotCreated("Bad".to_string())) {
        Err(error) => assert_eq!(
            error.message(),
            "OpenTok initialization error Failed to create OpenTok session `Bad"
        ),
        Ok(_) => panic!("created"),
    }
    assert!(element.maybe_init_session().is_some());
    match element.session_created(SessionOutcome::NotConnected("Bad".to_string())) {
        Err(error) => assert_eq!(
            error.message(),
            "OpenTok initialization error Connection error Bad"
        ),
        Ok(_) => panic!("connected"),
    }
    assert!(element.maybe_init_session().is_none());
    element.session_created(SessionOutcome::Connected).unwrap();
    assert!(element.maybe_init_session().is_none());
}

#[test]
fn start_asks_the_room() {
    let mut element = OpenTokSrc::new();
    assert_eq!(element.wanted_info(), None);
    assert!(element.start(Err("unused".to_string())).unwrap().is_none());
    element.set_property("demo-room-uri", Some(ROOM.to_string())).unwrap();
    assert_eq!(
        element.wanted_info().unwrap(),
        "https://opentokdemo.tokbox.com/room/rust345/info"
    );
    assert!(matches!(
        element.start(Ok("{}".to_string())),
        Err(LoadError::NoApiKey)
    ));
    let answer = r#"{"apiKey":"k","sessionId":"s","token":"t"}"#.to_string();
    assert_eq!(element.start(Ok(answer)).unwrap().unwrap().keys.token, "t");
}

#[test]
fn stop_takes_everything_away() {
    let mut element = OpenTokSrc::new();
    subscribe(&mut element, "a");
    subscribe(&mut element, "b");
    assert!(OpenTokSrc::stop_audio(false).is_none());
    let audio = OpenTokSrc::stop_audio(true).unwrap();
    assert_eq!(audio.len(), 7);
    assert!(!locked_at_end(&audio));
    let stopping = element.stop();
    assert_eq!(stopping.streams, vec!["a", "b"]);
    assert_eq!(stopping.plan.len(), 6);
    assert!(matches!(
        stopping.plan[5].on_failure,
        OnFailure::Report(Fault::StateChange)
    ));
    assert!(!locked_at_end(&stopping.plan));
    assert!(element.stop().streams.is_empty());
}

#[test]
fn states_of_a_live_source() {
    assert!(OpenTokSrc::starts(StateChange::NullToReady));
    assert!(!OpenTokSrc::starts(StateChange::ReadyToPaused));
    assert_eq!(
        OpenTokSrc::change_state(StateChange::ReadyToPaused, StateChangeSuccess::Success),
        (StateChangeSuccess::NoPreroll, false)
    );
    assert_eq!(
        OpenTokSrc::change_state(StateChange::PausedToReady, StateChangeSuccess::Async),
        (StateChangeSuccess::Async, true)
    );
    assert_eq!(
        OpenTokSrc::change_state(StateChange::PausedToPlaying, StateChangeSuccess::Success),
        (StateChangeSuccess::Success, false)
    );
}

#[test]
fn src_properties_are_handled() {
    let mut element = OpenTokSrc::new();
    let properties = OpenTokSrc::properties();
    let names: Vec<&str> = properties.iter().map(|property| property.name).collect();
    assert_eq!(
        names,
        vec!["api-key", "session-id", "token", "stream-id", "location", "demo-room-uri", "is-live"]
    );
    assert_eq!(properties[6].kind, PropertyKind::Flag(true));
    assert!(matches!(element.property("is-live"), PropertyValue::Flag(true)));
    assert_eq!(text(&element, "stream-id").as_deref(), Some(""));
    for name in vec!["api-key", "session-id", "token", "stream-id"] {
        element.set_property(name, Some(name.to_string())).unwrap();
        element.set_property(name, None).unwrap();
        assert_eq!(text(&element, name).as_deref(), Some(name));
    }
    assert_eq!(text(&element, "location").as_deref(), Some("opentok://session-id"));
    assert_eq!(text(&element, "demo-room-uri"), None);
    assert!(matches!(
        element.set_property("demo-room-uri", Some(ROOM.to_string())),
        Err(PropertyError::Credentials(_))
    ));
    let mut element = OpenTokSrc::new();
    element.set_property("demo-room-uri", Some(ROOM.to_string())).unwrap();
    assert!(matches!(
        element.set_property("token", Some("t".to_string())),
        Err(PropertyError::Credentials(_))
    ));
    assert!(matches!(
        element.set_property("location", Some("opentok://s".to_string())),
        Err(PropertyError::Location(LocationError::CredentialsSet))
    ));
    assert_eq!(text(&element, "demo-room-uri").as_deref(), Some(ROOM));
}

#[test]
fn src_describes_itself() {
    assert_eq!(OpenTokSrc::metadata().classification, "Source/Network");
    assert!(OpenTokSrc::metadata().author.starts_with("Fernando Jim\u{e9}nez Moreno"));
    let templates = OpenTokSrc::pad_templates();
    assert_eq!(templates[0].name, "video_stream_%u");
    assert_eq!(templates[1].name, "audio_stream");
}

#[test]
fn video_pads_are_counted() {
    assert_eq!(generate_video_pad_name(&vec![]), "video_stream_0");
    assert_eq!(
        generate_video_pad_name(&vec![Some(true), None, Some(false), Some(true)]),
        "video_stream_2"
    );
}

#[test]
fn video_pads_get_new_names_while_streams_stay() {
    let mut streams: Vec<Option<bool>> = vec![];
    let mut names: Vec<String> = vec![];
    for _ in 0..12 {
        let name = generate_video_pad_name(&streams);
        assert!(!names.contains(&name));
        names.push(name);
        streams.push(Some(true));
    }
}

#[test]
fn subscribers_are_listed_once() {
    let mut subscribers = Subscribers::new();
    assert!(subscribers.is_empty());
    subscribers.insert("a".to_string());
    subscribers.insert("b".to_string());
    subscribers.insert("a".to_string());
    assert!(subscribers.remove("a"));
    assert!(!subscribers.remove("a"));
    assert_eq!(subscribers.drain(), vec!["b"]);
    assert!(subscribers.is_empty());
}

#[test]
fn allocator_is_asked_for_once() {
    let mut holder = AppSrcStateHolder::new();
    assert!(holder.wants_query());
    assert_eq!(holder.push_sample(&[1, 2], None).allocator, None);
    holder.queried(Some(&vec![false, true, true]));
    assert!(!holder.wants_query());
    let plan = holder.push_sample(&[1, 2, 3], Some(7));
    assert_eq!(plan.allocator, Some(1));
    assert_eq!(plan.size, 3);
    assert_eq!(plan.pts, Some(7));
    assert_eq!(plan.dts, Some(7));
    let mut holder = AppSrcStateHolder::new();
    holder.queried(Some(&vec![false]));
    assert!(!holder.wants_query());
    assert_eq!(holder.push_sample(&[], None).allocator, None);
    let mut holder = AppSrcStateHolder::new();
    holder.queried(None);
    assert!(!holder.wants_query());
}

#[test]
fn sound_becomes_bytes() {
    let sample = AudioSample { data: vec![1, -2, 258], sampling_rate: 48000, number_of_channels: 2 };
    let (caps, bytes) = push_audio_sample(&sample);
    assert!(matches!(caps.fields[0], ("format", CapsValue::Text("S16LE"))));
    assert!(matches!(caps.fields[2], ("rate", CapsValue::Int(48000))));
    assert!(matches!(caps.fields[3], ("channels", CapsValue::Int(2))));
    let mut expected: Vec<u8> = vec![];
    for value in &sample.data {
        expected.extend(value.to_ne_bytes());
    }
    assert_eq!(bytes, expected);
}

#[test]
fn pictures_have_caps() {
    let caps = push_video_frame(FrameFormat::Yuv420P, 640, 480);
    assert_eq!(caps.media, "video/x-raw");
    assert!(matches!(caps.fields[0], ("width", CapsValue::Int(640))));
    assert!(matches!(caps.fields[1], ("height", CapsValue::Int(480))));
    assert!(matches!(caps.fields[2], ("framerate", CapsValue::Fraction(30, 1))));
    assert!(matches!(caps.fields[3], ("format", CapsValue::Format(VideoFormat::I420))));
}
