//! The helper that publishes what another process sends.

use crate::common::ipc::IpcMessage;
use crate::common::ipc::StreamMessage;
use crate::common::ipc::StreamMessageData;
use crate::media::Media;
use crate::media::StreamType;
use crate::plan::in_order;
use crate::plan::must;
use crate::plan::or_fail;
use crate::plan::schedule;
use crate::plan::Fault;
use crate::plan::Name;
use crate::plan::Node;
use crate::plan::OnFailure;
use crate::plan::Pad;
use crate::plan::Planned;
use crate::plan::State;
use crate::plan::Step;
use crate::socket::names_last_part;
use crate::socket::socket_name;
use vstd::prelude::*;

verus! {

/// Where a message of the other process goes.
#[derive(Debug)]
pub enum Route {
    /// To the thread of the stream of this medium.
    Stream(Media, StreamMessageData),
    /// The stream of the pipeline is over.
    Eos,
    /// Nowhere.
    Ignored,
}

/// Where a message of the other process goes.
pub open spec fn route_of(message: IpcMessage) -> Route {
    match message {
        IpcMessage::Stream(StreamMessage::Audio(data)) => Route::Stream(Media::Audio, data),
        IpcMessage::Stream(StreamMessage::Video(data)) => Route::Stream(Media::Video, data),
        IpcMessage::Terminate() => Route::Eos,
        _ => Route::Ignored,
    }
}

/// A stream that comes in through a socket.
#[derive(Debug)]
pub struct SocketStream {
    pub media: Media,
    pub socket_path: String,
    /// The capabilities of the stream.
    pub caps: String,
}

/// The stream that a message about a medium opens, if it does.
pub open spec fn opened_stream(media: Media, data: StreamMessageData) -> Option<SocketStream> {
    match data {
        StreamMessageData::ShmSocketPathAdded(socket_path, caps, _) => Some(
            SocketStream { media, socket_path, caps },
        ),
        _ => None,
    }
}

/// The pad of the OpenTok element through which a medium goes.
pub open spec fn sink_stream_type(media: Media) -> StreamType {
    match media {
        Media::Audio => StreamType::Audio,
        Media::Video => StreamType::Video,
    }
}

/// How a stream is connected to the OpenTok element.
#[derive(Debug)]
pub struct StreamPipeline {
    /// The name of the pad of the OpenTok element.
    pub pad_name: &'static str,
    /// The name of the bin.
    pub bin_name: String,
    pub plan: Vec<Planned>,
}

/// How a stream is connected to the OpenTok element: a bin that reads the socket.
pub open spec fn stream_plan() -> Seq<Planned> {
    seq![
        must(Step::Make(Node::Bin, Name::OfSocket)),
        must(Step::ReadCaps),
        must(Step::FindOpenTok),
        must(Step::RequestPad(Pad::Requested, Name::OfPad)),
        or_fail(Step::Make(Node::ShmSrc, Name::Prefixed("shmsrc_")), Fault::MissingElement("shmsrc")),
        must(Step::SetFlag(Node::ShmSrc, "is-live", true)),
        must(Step::SetFlag(Node::ShmSrc, "do-timestamp", true)),
        must(Step::SetSocketPath(Node::ShmSrc)),
        or_fail(Step::Make(Node::Queue, Name::Unnamed), Fault::MissingElement("queue")),
        or_fail(
            Step::Make(Node::CapsFilter, Name::Prefixed("capsfilter_")),
            Fault::MissingElement("capsfilter"),
        ),
        must(Step::SetCaps(Node::CapsFilter)),
        or_fail(
            Step::Add(Node::Bin, Node::ShmSrc),
            Fault::AddElement("shmsrc ! capsfilter ! queue"),
        ),
        or_fail(
            Step::Add(Node::Bin, Node::CapsFilter),
            Fault::AddElement("shmsrc ! capsfilter ! queue"),
        ),
        or_fail(
            Step::Add(Node::Bin, Node::Queue),
            Fault::AddElement("shmsrc ! capsfilter ! queue"),
        ),
        or_fail(
            Step::Link(Node::ShmSrc, Node::CapsFilter),
            Fault::LinkElements("shmsrc ! capsfilter"),
        ),
        or_fail(
            Step::Link(Node::CapsFilter, Node::Queue),
            Fault::LinkElements("capsfilter ! queue"),
        ),
        must(Step::StaticPad(Pad::QueueSrc)),
        must(Step::GhostPad(Pad::BinSrc, Name::Fixed("src"), Pad::QueueSrc)),
        must(Step::AddPad(Node::Bin, Pad::BinSrc)),
        must(Step::Add(Node::Pipeline, Node::Bin)),
        must(Step::LinkPads(Pad::BinSrc, Pad::Requested)),
        must(Step::SetState(Node::Pipeline, State::Playing)),
        must(Step::SyncState(Node::Bin)),
        must(Step::SyncState(Node::OpenTok)),
        must(Step::ActivatePad(Pad::BinSrc, true)),
        must(Step::Dump(Name::Prefixed("opentok_wrapper_init_"))),
    ]
}

/// The plan uses nothing that it has not made or found before.
pub proof fn lemma_stream_plan_in_order()
    ensures
        in_order(stream_plan(), 0, set![Node::Pipeline], Set::empty()),
{
    reveal_with_fuel(in_order, 27);
}

/// What the helper decides about what it publishes.
#[derive(Debug)]
pub struct Sink {
    /// The server of the other process.
    pub ipc_server: String,
}

impl Sink {
    /// A helper that connects to this server.
    pub fn new(ipc_server: &str) -> (sink: Sink)
        ensures
            sink.ipc_server@ == ipc_server@,
    {
        Sink { ipc_server: ipc_server.to_owned() }
    }

    /// Where a message of the other process goes.
    pub fn route(&self, message: IpcMessage) -> (route: Route)
        ensures
            route == route_of(message),
    {
        match message {
            IpcMessage::Stream(StreamMessage::Audio(data)) => Route::Stream(Media::Audio, data),
            IpcMessage::Stream(StreamMessage::Video(data)) => Route::Stream(Media::Video, data),
            IpcMessage::Terminate() => Route::Eos,
            _ => Route::Ignored,
        }
    }

    /// The stream that a message about a medium opens, if it does.
    pub fn stream_opened(media: Media, data: StreamMessageData) -> (stream: Option<SocketStream>)
        ensures
            stream == opened_stream(media, data),
    {
        match data {
            StreamMessageData::ShmSocketPathAdded(socket_path, caps, _) => Some(
                SocketStream { media, socket_path, caps },
            ),
            _ => None,
        }
    }

    /// How a stream is connected to the OpenTok element. Nothing, if the path of its socket has no
    /// last part. The bin is named after the file of the socket. Nothing is said of the last part
    /// of a path that is not read alike on every system.
    pub fn init_stream_pipeline(stream: &SocketStream) -> (pipeline: Option<StreamPipeline>)
        ensures
            names_last_part(
                stream.socket_path@,
                match pipeline {
                    Some(pipeline) => Some(pipeline.bin_name@),
                    None => None,
                },
            ),
            pipeline matches Some(pipeline) ==> {
                &&& pipeline.pad_name@ == sink_stream_type(stream.media).pad_text()
                &&& pipeline.plan@ == stream_plan()
            },
    {
        Sink::connect_stream(stream, socket_name(stream.socket_path.as_str()))
    }

    /// How a stream is connected to the OpenTok element, through a bin of this name. `name` is the
    /// last part of the path of its socket, if the path has one; there is no way to connect the
    /// stream otherwise.
    pub fn connect_stream(stream: &SocketStream, name: Option<String>) -> (pipeline: Option<
        StreamPipeline,
    >)
        ensures
            pipeline is Some <==> name is Some,
            pipeline matches Some(pipeline) ==> {
                &&& name == Some(pipeline.bin_name)
                &&& pipeline.pad_name@ == sink_stream_type(stream.media).pad_text()
                &&& pipeline.plan@ == stream_plan()
            },
    {
        let bin_name = match name {
            Some(name) => name,
            None => {
                return None;
            },
        };
        let pad_name = match stream.media {
            Media::Audio => "audio_sink",
            Media::Video => "video_sink",
        };
        let all_elements = OnFailure::Report(Fault::AddElement("shmsrc ! capsfilter ! queue"));
        let mut plan: Vec<Planned> = Vec::new();
        schedule(&mut plan, Step::Make(Node::Bin, Name::OfSocket), OnFailure::Abort);
        schedule(&mut plan, Step::ReadCaps, OnFailure::Abort);
        schedule(&mut plan, Step::FindOpenTok, OnFailure::Abort);
        schedule(&mut plan, Step::RequestPad(Pad::Requested, Name::OfPad), OnFailure::Abort);
        schedule(
            &mut plan,
            Step::Make(Node::ShmSrc, Name::Prefixed("shmsrc_")),
            OnFailure::Report(Fault::MissingElement("shmsrc")),
        );
        schedule(&mut plan, Step::SetFlag(Node::ShmSrc, "is-live", true), OnFailure::Abort);
        schedule(&mut plan, Step::SetFlag(Node::ShmSrc, "do-timestamp", true), OnFailure::Abort);
        schedule(&mut plan, Step::SetSocketPath(Node::ShmSrc), OnFailure::Abort);
        schedule(
            &mut plan,
            Step::Make(Node::Queue, Name::Unnamed),
            OnFailure::Report(Fault::MissingElement("queue")),
        );
        schedule(
            &mut plan,
            Step::Make(Node::CapsFilter, Name::Prefixed("capsfilter_")),
            OnFailure::Report(Fault::MissingElement("capsfilter")),
        );
        schedule(&mut plan, Step::SetCaps(Node::CapsFilter), OnFailure::Abort);
        schedule(&mut plan, Step::Add(Node::Bin, Node::ShmSrc), all_elements);
        schedule(&mut plan, Step::Add(Node::Bin, Node::CapsFilter), all_elements);
        schedule(&mut plan, Step::Add(Node::Bin, Node::Queue), all_elements);
        schedule(
            &mut plan,
            Step::Link(Node::ShmSrc, Node::CapsFilter),
            OnFailure::Report(Fault::LinkElements("shmsrc ! capsfilter")),
        );
        schedule(
            &mut plan,
            Step::Link(Node::CapsFilter, Node::Queue),
            OnFailure::Report(Fault::LinkElements("capsfilter ! queue")),
        );
        schedule(&mut plan, Step::StaticPad(Pad::QueueSrc), OnFailure::Abort);
        schedule(
            &mut plan,
            Step::GhostPad(Pad::BinSrc, Name::Fixed("src"), Pad::QueueSrc),
            OnFailure::Abort,
        );
        schedule(&mut plan, Step::AddPad(Node::Bin, Pad::BinSrc), OnFailure::Abort);
        schedule(&mut plan, Step::Add(Node::Pipeline, Node::Bin), OnFailure::Abort);
        schedule(&mut plan, Step::LinkPads(Pad::BinSrc, Pad::Requested), OnFailure::Abort);
        schedule(&mut plan, Step::SetState(Node::Pipeline, State::Playing), OnFailure::Abort);
        schedule(&mut plan, Step::SyncState(Node::Bin), OnFailure::Abort);
        schedule(&mut plan, Step::SyncState(Node::OpenTok), OnFailure::Abort);
        schedule(&mut plan, Step::ActivatePad(Pad::BinSrc, true), OnFailure::Abort);
        schedule(
            &mut plan,
            Step::Dump(Name::Prefixed("opentok_wrapper_init_")),
            OnFailure::Abort,
        );
        assert(plan@ =~= stream_plan());
        Some(StreamPipeline { pad_name, bin_name, plan })
    }

    /// The message to the other process about a published stream. There is none, if the signal
    /// carried no identifier.
    pub fn published_stream(stream_id: Option<String>) -> (message: Option<IpcMessage>)
        ensures
            message == match stream_id {
                Some(id) => Some(IpcMessage::PublishedStream(id)),
                None => None,
            },
    {
        match stream_id {
            Some(id) => Some(IpcMessage::PublishedStream(id)),
            None => None,
        }
    }
}

/// A message about a stream that an element sends reaches the thread of the same medium in the
/// helper, and opens the stream behind the announced socket.
pub proof fn lemma_announced_stream_opens(
    media: Media,
    socket_path: String,
    caps: String,
    pad: String,
)
    ensures
        route_of(
            media.message(StreamMessageData::ShmSocketPathAdded(socket_path, caps, pad)),
        ) == Route::Stream(media, StreamMessageData::ShmSocketPathAdded(socket_path, caps, pad)),
        opened_stream(media, StreamMessageData::ShmSocketPathAdded(socket_path, caps, pad)) == Some(
            SocketStream { media, socket_path, caps },
        ),
{
}

} // verus!
