//! How media get from one process to the other.

use crate::common::ipc::IpcMessage;
use crate::common::ipc::StreamMessage;
use crate::common::ipc::StreamMessageData;
use crate::helper::on_bus_message;
use crate::helper::sink::Route;
use crate::helper::sink::Sink;
use crate::helper::sink::SocketStream;
use crate::helper::sink::StreamPipeline;
use crate::helper::source::PadSetup;
use crate::helper::source::Source;
use crate::helper::BusAction;
use crate::helper::BusMessage;
use crate::helper::PipelineState;
use crate::laws::counting::lemma_occurs;
use crate::laws::scene::scene_after;
use crate::laws::scene::scene_of;
use crate::laws::scene::takes_from;
use crate::laws::scene::takes_in_turn;
use crate::laws::scene::Reached;
use crate::laws::scene::Scene;
use crate::media::media_of_source_pad;
use crate::media::socket_removed;
use crate::media::Media;
use crate::media::SocketAnnouncer;
use crate::media::StreamType;
use crate::plan::Fault;
use crate::plan::Name;
use crate::plan::Node;
use crate::plan::OnFailure;
use crate::plan::Pad;
use crate::plan::Planned;
use crate::plan::State;
use crate::plan::Step;
use crate::socket::is_common_path;
use crate::socket::is_file;
use crate::socket::path_of;
use ipc_channel::ipc::IpcSender;
use vstd::prelude::*;

verus! {

/// The sink pads of the two media are known by their names, and no other pad is.
pub proof fn law_sink_pads_are_known_by_name(pad: &'static str, of_pad: StreamType)
    requires
        call_ensures(<StreamType as From<&'static str>>::from, (pad,), of_pad),
    ensures
        of_pad is Video <==> pad@ == "video_sink"@,
        of_pad is Audio <==> pad@ == "audio_sink"@,
{
    crate::media::lemma_pad_name_gives_stream_type(StreamType::Audio);
    crate::media::lemma_pad_name_gives_stream_type(StreamType::Video);
}

/// The name of a type of stream leads back to the type, and an unknown one has no name.
pub proof fn law_stream_types_have_their_own_names(
    stream_type: StreamType,
    name: Option<&'static str>,
    text: &'static str,
    back: StreamType,
)
    requires
        call_ensures(StreamType::name, (&stream_type,), name),
        call_ensures(<&'static str as From<StreamType>>::from, (stream_type,), text),
        call_ensures(<StreamType as From<&'static str>>::from, (text,), back),
    ensures
        back == stream_type,
        name is None <==> stream_type is Unknown,
        name matches Some(name) ==> name@ == text@,
        stream_type is Unknown ==> text@.len() == 0,
        stream_type is Video ==> text@ == "video_sink"@,
        stream_type is Audio ==> text@ == "audio_sink"@,
{
    crate::media::lemma_pad_name_gives_stream_type(stream_type);
    reveal_strlit("");
}

/// A source pad gives sound if its name speaks of it, wherever it does, and pictures otherwise.
pub proof fn law_source_pads_of_sound(pad: &str, media: Media)
    requires
        call_ensures(media_of_source_pad, (pad,), media),
    ensures
        media is Audio <==> exists|before: Seq<char>, after: Seq<char>|
            pad@ == #[trigger] (before + "audio"@ + after),
{
    lemma_occurs(pad@, "audio"@);
}

/// A message about the stream of one medium is for that medium.
pub open spec fn is_about(message: IpcMessage, media: Media, data: StreamMessageData) -> bool {
    match media {
        Media::Audio => message == IpcMessage::Stream(StreamMessage::Audio(data)),
        Media::Video => message == IpcMessage::Stream(StreamMessage::Video(data)),
    }
}

/// The first time that the capabilities of a stream are known, its socket is announced with them,
/// and every other time they are announced alone. They are remembered, and the path of the socket
/// stays.
pub proof fn law_socket_is_announced_first(
    announcer: &mut SocketAnnouncer,
    media: Media,
    caps: String,
    pad: String,
    message: IpcMessage,
)
    requires
        call_ensures(SocketAnnouncer::announce, (announcer, media, caps, pad), message),
    ensures
        old(announcer).prev_caps is None ==> is_about(
            message,
            media,
            StreamMessageData::ShmSocketPathAdded(old(announcer).socket_path, caps, pad),
        ),
        old(announcer).prev_caps is Some ==> is_about(
            message,
            media,
            StreamMessageData::CapsChanged(caps, pad),
        ),
        final(announcer).prev_caps == Some(caps),
        final(announcer).socket_path == old(announcer).socket_path,
{
}

/// A new announcer has announced nothing, and knows the path.
pub proof fn law_new_announcer_has_announced_nothing(path: String, announcer: SocketAnnouncer)
    requires
        call_ensures(SocketAnnouncer::new, (path,), announcer),
    ensures
        announcer.prev_caps is None,
        announcer.socket_path@ == path@,
{
}

/// The stream of a source pad is announced as that of the medium that the pad gives, if its socket
/// could be set up. If it could not, the reason is told in its own words, and the socket is still to
/// be announced.
pub proof fn law_source_socket_is_announced(
    announcer: &mut SocketAnnouncer,
    path_added: &Result<(), String>,
    caps: String,
    pad: String,
    message: IpcMessage,
    name: &str,
    media: Media,
)
    requires
        call_ensures(
            SocketAnnouncer::announce_source,
            (announcer, path_added, caps, pad),
            message,
        ),
        name@ == pad@,
        call_ensures(media_of_source_pad, (name,), media),
    ensures
        path_added matches Err(reason) ==> {
            &&& message == IpcMessage::Error(*reason)
            &&& final(announcer).prev_caps == old(announcer).prev_caps
        },
        path_added is Ok && old(announcer).prev_caps is None ==> is_about(
            message,
            media,
            StreamMessageData::ShmSocketPathAdded(old(announcer).socket_path, caps, pad),
        ),
        path_added is Ok && old(announcer).prev_caps is Some ==> is_about(
            message,
            media,
            StreamMessageData::CapsChanged(caps, pad),
        ),
        path_added is Ok ==> final(announcer).prev_caps == Some(caps),
        final(announcer).socket_path == old(announcer).socket_path,
{
}

/// When a source pad is gone, the other process is told so of the medium that the pad gave, with the
/// path of its socket and with the place for the answer. The path is empty where there is no bin.
pub proof fn law_removed_socket_is_told(
    pad: &str,
    path: String,
    found: Option<String>,
    done: IpcSender<()>,
    message: IpcMessage,
    gone: IpcMessage,
    looked_up: String,
    media: Media,
)
    requires
        call_ensures(socket_removed, (pad, path, done), message),
        call_ensures(Source::pad_removed, (pad, found, done), gone),
        call_ensures(Source::socket_path_for_pad, (found,), looked_up),
        call_ensures(media_of_source_pad, (pad,), media),
    ensures
        is_about(message, media, StreamMessageData::ShmSocketPathRemoved(path, done)),
        found matches Some(found) ==> looked_up@ == found@,
        found is None ==> looked_up@.len() == 0,
        exists|told: String|
            told@ == looked_up@ && #[trigger] is_about(
                gone,
                media,
                StreamMessageData::ShmSocketPathRemoved(told, done),
            ),
{
    reveal_strlit("");
    let path = choose|path: String| #[trigger]
        path@ == looked_up@ && gone == media.message(
            StreamMessageData::ShmSocketPathRemoved(path, done),
        );
    assert(is_about(gone, media, StreamMessageData::ShmSocketPathRemoved(path, done)));
}

/// What one process says about a stream reaches the stream of the same medium in the helper, as it
/// was said. Only the request to end ends the pipeline, and everything else goes nowhere.
pub proof fn law_messages_reach_their_stream(
    sink: &Sink,
    message: IpcMessage,
    route: Route,
)
    requires
        call_ensures(Sink::route, (sink, message), route),
    ensures
        forall|media: Media, data: StreamMessageData| #[trigger]
            is_about(message, media, data) <==> route == Route::Stream(media, data),
        route is Eos <==> message matches IpcMessage::Terminate(),
        route is Ignored <==> !(message is Stream) && !(message matches IpcMessage::Terminate()),
{
}

/// What an element announces as a new socket is what the helper opens: the same medium, the same
/// path and the same capabilities. A message of another kind opens nothing.
pub proof fn law_announced_socket_is_opened(
    announcer: &mut SocketAnnouncer,
    media: Media,
    caps: String,
    pad: String,
    message: IpcMessage,
    sink: &Sink,
    route: Route,
    opened: Option<SocketStream>,
)
    requires
        call_ensures(SocketAnnouncer::announce, (announcer, media, caps, pad), message),
        call_ensures(Sink::route, (sink, message), route),
        route matches Route::Stream(to, data) ==> call_ensures(
            Sink::stream_opened,
            (to, data),
            opened,
        ),
    ensures
        route matches Route::Stream(to, _) && to == media,
        opened is Some <==> old(announcer).prev_caps is None,
        opened matches Some(stream) ==> {
            &&& stream.media == media
            &&& stream.socket_path == old(announcer).socket_path
            &&& stream.caps == caps
        },
{
}

/// Only a new socket opens a stream.
pub proof fn law_only_new_sockets_open_streams(
    media: Media,
    data: StreamMessageData,
    opened: Option<SocketStream>,
)
    requires
        call_ensures(Sink::stream_opened, (media, data), opened),
    ensures
        opened is Some <==> data is ShmSocketPathAdded,
        opened matches Some(stream) ==> {
            &&& stream.media == media
            &&& data matches StreamMessageData::ShmSocketPathAdded(path, caps, _)
            &&& stream.socket_path == path
            &&& stream.caps == caps
        },
{
}

/// A published stream is told to the other process under its own identifier, if it has one.
pub proof fn law_published_stream_is_told(
    stream_id: Option<String>,
    message: Option<IpcMessage>,
)
    requires
        call_ensures(Sink::published_stream, (stream_id,), message),
    ensures
        message is Some <==> stream_id is Some,
        message matches Some(message) ==> message == IpcMessage::PublishedStream(stream_id->0),
{
}

/// The helper connects to the server that it was given.
pub proof fn law_helper_knows_its_server(server: &str, sink: Sink, source: Source)
    requires
        call_ensures(Sink::new, (server,), sink),
        call_ensures(Source::new, (server,), source),
    ensures
        sink.ipc_server@ == server@,
        source.ipc_server@ == server@,
{
}

/// A stream of the other process is read from its socket, live and with timestamps of its own, goes
/// through a filter of the announced capabilities and a queue, all in one bin of the pipeline, and
/// from there into the pad of its medium of the OpenTok element. Everything runs when the pipeline
/// plays. The bin is named after the file of the socket.
pub proof fn law_announced_stream_flows(
    stream: &SocketStream,
    name: Option<String>,
    pipeline: Option<StreamPipeline>,
)
    requires
        call_ensures(Sink::connect_stream, (stream, name), pipeline),
    ensures
        pipeline is Some <==> name is Some,
        pipeline matches Some(pipeline) ==> {
            let plan = pipeline.plan@;
            &&& pipeline.bin_name@ == name->0@
            &&& stream.media is Video ==> pipeline.pad_name@ == "video_sink"@
            &&& stream.media is Audio ==> pipeline.pad_name@ == "audio_sink"@
            &&& scene_of(plan) == Scene {
                made: set![
                    (Node::Bin, Name::OfSocket),
                    (Node::ShmSrc, Name::Prefixed("shmsrc_")),
                    (Node::Queue, Name::Unnamed),
                    (Node::CapsFilter, Name::Prefixed("capsfilter_")),
                ],
                flags: set![
                    (Node::ShmSrc, "is-live", true),
                    (Node::ShmSrc, "do-timestamp", true),
                ],
                on_socket: set![Node::ShmSrc],
                filtered: set![Node::CapsFilter],
                held: set![
                    (Node::Bin, Node::ShmSrc),
                    (Node::Bin, Node::CapsFilter),
                    (Node::Bin, Node::Queue),
                    (Node::Pipeline, Node::Bin),
                ],
                shown: set![(Node::Bin, Pad::BinSrc)],
                named: set![(Pad::Requested, Name::OfPad), (Pad::BinSrc, Name::Fixed("src"))],
                links: set![
                    (Node::ShmSrc, Node::CapsFilter),
                    (Node::CapsFilter, Node::Queue),
                ],
                pad_links: set![(Pad::BinSrc, Pad::Requested)],
                targets: set![(Pad::BinSrc, Pad::QueueSrc)],
                active: set![Pad::BinSrc],
                states: map![
                    Node::Pipeline => Reached::In(State::Playing),
                    Node::Bin => Reached::Synced,
                    Node::OpenTok => Reached::Synced,
                ],
                drawn: set![Name::Prefixed("opentok_wrapper_init_")],
                ..Scene::empty()
            }
            &&& takes_in_turn(
                plan,
                seq![
                    Step::Make(Node::Bin, Name::OfSocket),
                    Step::ReadCaps,
                    Step::FindOpenTok,
                    Step::RequestPad(Pad::Requested, Name::OfPad),
                    Step::SetSocketPath(Node::ShmSrc),
                    Step::SetCaps(Node::CapsFilter),
                    Step::Add(Node::Bin, Node::Queue),
                    Step::Link(Node::ShmSrc, Node::CapsFilter),
                    Step::Link(Node::CapsFilter, Node::Queue),
                    Step::StaticPad(Pad::QueueSrc),
                    Step::GhostPad(Pad::BinSrc, Name::Fixed("src"), Pad::QueueSrc),
                    Step::AddPad(Node::Bin, Pad::BinSrc),
                    Step::Add(Node::Pipeline, Node::Bin),
                    Step::LinkPads(Pad::BinSrc, Pad::Requested),
                    Step::SetState(Node::Pipeline, State::Playing),
                    Step::SyncState(Node::Bin),
                    Step::SyncState(Node::OpenTok),
                    Step::ActivatePad(Pad::BinSrc, true),
                    Step::Dump(Name::Prefixed("opentok_wrapper_init_")),
                ],
            )
        },
{
    reveal_with_fuel(scene_after, 28);
    reveal_with_fuel(takes_from, 28);
    if let Some(pipeline) = pipeline {
        let scene = scene_of(pipeline.plan@);
        assert(scene.flags =~= set![
            (Node::ShmSrc, "is-live", true),
            (Node::ShmSrc, "do-timestamp", true),
        ]);
        assert(scene.states =~= map![
            Node::Pipeline => Reached::In(State::Playing),
            Node::Bin => Reached::Synced,
            Node::OpenTok => Reached::Synced,
        ]);
    }
}

/// What a failed step leads to when a stream is connected: an element that is missing, that cannot
/// be put into the bin or that cannot be linked is named, and every other failure is fatal.
pub proof fn law_failed_stream_is_told(
    stream: &SocketStream,
    name: Option<String>,
    pipeline: Option<StreamPipeline>,
)
    requires
        call_ensures(Sink::connect_stream, (stream, name), pipeline),
    ensures
        pipeline matches Some(pipeline) ==> forall|i: int|
            0 <= i < pipeline.plan@.len() ==> (#[trigger] pipeline.plan@[i]).on_failure
                == match pipeline.plan@[i].step {
                Step::Make(Node::ShmSrc, _) => OnFailure::Report(Fault::MissingElement("shmsrc")),
                Step::Make(Node::Queue, _) => OnFailure::Report(Fault::MissingElement("queue")),
                Step::Make(Node::CapsFilter, _) => OnFailure::Report(
                    Fault::MissingElement("capsfilter"),
                ),
                Step::Add(Node::Bin, _) => OnFailure::Report(
                    Fault::AddElement("shmsrc ! capsfilter ! queue"),
                ),
                Step::Link(Node::ShmSrc, _) => OnFailure::Report(
                    Fault::LinkElements("shmsrc ! capsfilter"),
                ),
                Step::Link(_, _) => OnFailure::Report(Fault::LinkElements("capsfilter ! queue")),
                _ => OnFailure::Abort,
            },
{
}

/// The stream of a socket in a directory is connected through a bin that is named after the file of
/// the socket, where every system reads the path alike.
pub proof fn law_bin_is_named_after_its_socket(
    stream: &SocketStream,
    pipeline: Option<StreamPipeline>,
    name: String,
    connected: Option<StreamPipeline>,
    directory: Seq<char>,
    file: Seq<char>,
)
    requires
        call_ensures(Sink::init_stream_pipeline, (stream,), pipeline),
        call_ensures(Sink::connect_stream, (stream, Some(name)), connected),
        stream.socket_path@ == directory + seq!['/'] + file,
        is_common_path(stream.socket_path@),
        is_file(file),
    ensures
        pipeline matches Some(pipeline) && {
            &&& pipeline.bin_name@ == file
            &&& stream.media is Video ==> pipeline.pad_name@ == "video_sink"@
            &&& stream.media is Audio ==> pipeline.pad_name@ == "audio_sink"@
            &&& pipeline.plan@ == connected->0.plan@
        },
{
    assert(stream.socket_path@ =~= path_of(directory, file));
}

/// A new pad of the OpenTok element feeds a queue and a sink that writes the socket, both in one bin
/// of the pipeline, which runs with it. The bin and the sink have names by which they are found
/// again. Afterwards the pipeline plays, and the socket of the given path is to be announced.
pub proof fn law_new_pad_feeds_its_socket(
    source: &Source,
    path: String,
    setup: PadSetup,
    plan: Vec<Planned>,
)
    requires
        call_ensures(Source::pad_added, (source, path), setup),
        call_ensures(Source::on_pad_created, (source,), plan),
    ensures
        setup.plan@ == plan@,
        setup.announcer.socket_path@ == path@,
        setup.announcer.prev_caps is None,
        scene_of(setup.follow_up@) == (Scene {
            states: map![Node::Pipeline => Reached::In(State::Playing)],
            ..Scene::empty()
        }),
        scene_of(plan@) == (Scene {
            made: set![
                (Node::Bin, Name::Prefixed("bin_")),
                (Node::Queue, Name::Unnamed),
                (Node::ShmSink, Name::Prefixed("sink_")),
            ],
            flags: set![(Node::ShmSink, "enable-last-sample", false)],
            on_socket: set![Node::ShmSink],
            held: set![
                (Node::Bin, Node::Queue),
                (Node::Bin, Node::ShmSink),
                (Node::Pipeline, Node::Bin),
            ],
            shown: set![(Node::Bin, Pad::BinSink)],
            named: set![(Pad::BinSink, Name::Unnamed)],
            links: set![(Node::Queue, Node::ShmSink)],
            pad_links: set![(Pad::Given, Pad::BinSink)],
            targets: set![(Pad::BinSink, Pad::QueueSink)],
            active: set![Pad::BinSink],
            states: map![Node::Bin => Reached::Synced],
            ..Scene::empty()
        }),
        takes_in_turn(
            plan@,
            seq![
                Step::Make(Node::Bin, Name::Prefixed("bin_")),
                Step::SetSocketPath(Node::ShmSink),
                Step::Add(Node::Bin, Node::ShmSink),
                Step::Link(Node::Queue, Node::ShmSink),
                Step::StaticPad(Pad::QueueSink),
                Step::GhostPad(Pad::BinSink, Name::Unnamed, Pad::QueueSink),
                Step::ActivatePad(Pad::BinSink, true),
                Step::AddPad(Node::Bin, Pad::BinSink),
                Step::Add(Node::Pipeline, Node::Bin),
                Step::LinkPads(Pad::Given, Pad::BinSink),
                Step::SyncState(Node::Bin),
            ],
        ),
        forall|i: int|
            0 <= i < plan@.len() ==> (#[trigger] plan@[i]).on_failure == match plan@[i].step {
                Step::SetSocketPath(_) => OnFailure::Abort,
                Step::SetFlag(_, _, _) => OnFailure::Abort,
                Step::StaticPad(_) => OnFailure::Abort,
                _ => OnFailure::Report(Fault::Raised),
            },
        forall|i: int|
            0 <= i < setup.follow_up@.len() ==> (#[trigger] setup.follow_up@[i]).on_failure
                is Abort,
{
    reveal_with_fuel(scene_after, 17);
    reveal_with_fuel(takes_from, 17);
    let scene = scene_of(plan@);
    assert(scene.flags =~= set![(Node::ShmSink, "enable-last-sample", false)]);
    assert(scene.states =~= map![Node::Bin => Reached::Synced]);
    assert(scene_of(setup.follow_up@).states =~= map![
        Node::Pipeline => Reached::In(State::Playing),
    ]);
}

/// The bin behind a pad is found again under the name under which it was made, and so is the sink.
pub proof fn law_names_of_bin_and_sink(
    pad: &str,
    bin: String,
    sink: String,
    socket: &str,
    made_bin: Option<String>,
    made_sink: Option<String>,
)
    requires
        call_ensures(Source::bin_name, (pad,), bin),
        call_ensures(Source::sink_name, (pad,), sink),
        call_ensures(Name::resolve, (Name::Prefixed("bin_"), pad, socket), made_bin),
        call_ensures(Name::resolve, (Name::Prefixed("sink_"), pad, socket), made_sink),
    ensures
        bin@ == "bin_"@ + pad@,
        sink@ == "sink_"@ + pad@,
        made_bin matches Some(made) && made@ == bin@,
        made_sink matches Some(made) && made@ == sink@,
{
}

/// When the bin behind a pad has gone away, it is out of the pipeline and stopped, its stream is
/// over, and its state was kept apart before it was stopped. It goes away if and only if the other
/// process has told that it no longer reads the socket and the bin is there.
pub proof fn law_bin_goes_when_it_is_no_longer_read(
    source: &Source,
    acknowledged: bool,
    present: bool,
    plan: Option<Vec<Planned>>,
    cleanup: Option<Vec<Planned>>,
    before: Scene,
)
    requires
        call_ensures(Source::pad_released, (source, acknowledged, present), plan),
        call_ensures(Source::cleanup_pad, (source, present), cleanup),
    ensures
        plan is Some <==> acknowledged && present,
        cleanup is Some <==> present,
        plan is Some ==> plan->0@ == cleanup->0@,
        cleanup matches Some(plan) ==> {
            &&& scene_after(plan@, 0, before) == Scene {
                held: before.held.remove((Node::Pipeline, Node::Bin)),
                states: before.states.insert(Node::Bin, Reached::In(State::Null)),
                settled: before.settled.insert(Node::Bin),
                locked: before.locked.insert(Node::Bin),
                ended: before.ended.insert(Node::Bin),
                drawn: before.drawn.insert(Name::Fixed("opentoksrc_wrapper_sink_removed")),
                ..before
            }
            &&& takes_in_turn(
                plan@,
                seq![
                    Step::LockState(Node::Bin, true),
                    Step::SendEos(Node::Bin),
                    Step::SetState(Node::Bin, State::Null),
                    Step::AwaitState(Node::Bin),
                    Step::Remove(Node::Pipeline, Node::Bin),
                    Step::Dump(Name::Fixed("opentoksrc_wrapper_sink_removed")),
                ],
            )
            &&& forall|i: int|
                0 <= i < plan@.len() ==> (#[trigger] plan@[i]).on_failure == match plan@[i].step {
                    Step::SendEos(_) => OnFailure::Ignore,
                    Step::AwaitState(_) => OnFailure::Ignore,
                    _ => OnFailure::Abort,
                }
        },
{
    reveal_with_fuel(scene_after, 7);
    reveal_with_fuel(takes_from, 7);
    assert(before.settled.remove(Node::Bin).insert(Node::Bin) =~= before.settled.insert(
        Node::Bin,
    ));
}

/// The stream of the pipeline ends with its last pad, when the other process has told that it no
/// longer reads the socket, and never with a pad that leaves others behind.
pub proof fn law_stream_ends_with_its_last_pad(
    acknowledged: bool,
    left: u16,
    ends: bool,
    over: bool,
    ends_without: bool,
    over_without: bool,
)
    requires
        call_ensures(Source::ends_stream, (acknowledged, Some(left)), ends),
        call_ensures(Source::is_over, (Some(left),), over),
        call_ensures(Source::ends_stream, (acknowledged, None), ends_without),
        call_ensures(Source::is_over, (None,), over_without),
    ensures
        over <==> left == 0,
        ends <==> acknowledged && left == 0,
        !over_without,
        !ends_without,
{
}

/// The end of the stream ends the helper. A failure ends it too, and the other process hears of the
/// reason in its own words. A change of state of the pipeline is drawn under the names of the two
/// states, and nothing else leads to anything.
pub proof fn law_bus_messages_are_heeded(message: BusMessage, action: BusAction)
    requires
        call_ensures(on_bus_message, (message,), action),
    ensures
        action is Quit <==> message is Eos,
        action is ReportAndQuit <==> message is Error,
        message matches BusMessage::Error(reason) ==> (action matches BusAction::ReportAndQuit(
            IpcMessage::Error(words),
        ) && words@ == reason@),
        action is Dump <==> (message matches BusMessage::StateChanged { of_pipeline, .. }
            && of_pipeline),
        action matches BusAction::Dump(name) ==> (message matches BusMessage::StateChanged {
            old_state,
            current,
            ..
        } && name@ == "opentok_wrapper_state_changed_"@ + old_state.text() + "_"@ + current.text()),
{
}

/// The states go by their own names.
pub proof fn law_states_have_their_own_names(state: PipelineState, name: &'static str)
    requires
        call_ensures(PipelineState::name, (state,), name),
    ensures
        name@ == state.text(),
        state is VoidPending ==> name@ == "VoidPending"@,
        state is Null ==> name@ == "Null"@,
        state is Ready ==> name@ == "Ready"@,
        state is Paused ==> name@ == "Paused"@,
        state is Playing ==> name@ == "Playing"@,
{
}

} // verus!
