//! The helper that hands what it subscribes to over to another process.

use crate::common::ipc::IpcMessage;
use crate::common::ipc::StreamMessageData;
use crate::media::socket_removed;
use crate::media::source_media;
use crate::media::SocketAnnouncer;
use crate::plan::contents_after;
use crate::plan::in_order;
use crate::plan::may;
use crate::plan::must;
use crate::plan::or_fail;
use crate::plan::schedule;
use crate::plan::Contents;
use crate::plan::Fault;
use crate::plan::Name;
use crate::plan::Node;
use crate::plan::OnFailure;
use crate::plan::Pad;
use crate::plan::Planned;
use crate::plan::State;
use crate::plan::Step;
use crate::text::join2;
use ipc_channel::ipc::IpcSender;
use vstd::prelude::*;

verus! {

/// What the helper decides about what it subscribes to.
#[derive(Debug)]
pub struct Source {
    /// The server of the other process.
    pub ipc_server: String,
}

/// The name of the bin behind a pad.
pub open spec fn bin_text(pad: Seq<char>) -> Seq<char> {
    "bin_"@ + pad
}

/// The name of the shared memory sink behind a pad.
pub open spec fn sink_text(pad: Seq<char>) -> Seq<char> {
    "sink_"@ + pad
}

/// How a new pad is connected to a socket: a bin with a queue and a shared memory sink.
pub open spec fn pad_plan() -> Seq<Planned> {
    seq![
        or_fail(Step::Make(Node::Bin, Name::Prefixed("bin_")), Fault::Raised),
        or_fail(Step::Make(Node::Queue, Name::Unnamed), Fault::Raised),
        or_fail(Step::Make(Node::ShmSink, Name::Prefixed("sink_")), Fault::Raised),
        must(Step::SetSocketPath(Node::ShmSink)),
        must(Step::SetFlag(Node::ShmSink, "enable-last-sample", false)),
        or_fail(Step::Add(Node::Bin, Node::Queue), Fault::Raised),
        or_fail(Step::Add(Node::Bin, Node::ShmSink), Fault::Raised),
        or_fail(Step::Link(Node::Queue, Node::ShmSink), Fault::Raised),
        must(Step::StaticPad(Pad::QueueSink)),
        or_fail(Step::GhostPad(Pad::BinSink, Name::Unnamed, Pad::QueueSink), Fault::Raised),
        or_fail(Step::ActivatePad(Pad::BinSink, true), Fault::Raised),
        or_fail(Step::AddPad(Node::Bin, Pad::BinSink), Fault::Raised),
        or_fail(Step::Add(Node::Pipeline, Node::Bin), Fault::Raised),
        or_fail(Step::LinkPads(Pad::Given, Pad::BinSink), Fault::Raised),
        or_fail(Step::SyncState(Node::Bin), Fault::Raised),
    ]
}

/// How the bin behind a pad that is gone goes away.
pub open spec fn cleanup_plan() -> Seq<Planned> {
    seq![
        must(Step::LockState(Node::Bin, true)),
        may(Step::SendEos(Node::Bin)),
        must(Step::SetState(Node::Bin, State::Null)),
        may(Step::AwaitState(Node::Bin)),
        must(Step::Remove(Node::Pipeline, Node::Bin)),
        must(Step::Dump(Name::Fixed("opentoksrc_wrapper_sink_removed"))),
    ]
}

/// The plans use nothing that is not at hand, or made or found before.
pub proof fn lemma_plans_in_order()
    ensures
        in_order(pad_plan(), 0, set![Node::Pipeline], set![Pad::Given]),
        in_order(cleanup_plan(), 0, set![Node::Pipeline, Node::Bin], Set::empty()),
{
    reveal_with_fuel(in_order, 16);
}

/// The pipeline holds after the cleanup what it held before the pad came: the bin, with all that
/// is in it, is what the one plan puts in and the other takes out.
pub proof fn lemma_cleanup_undoes_pad(before: Contents)
    requires
        !before.nodes.contains(Node::Bin),
    ensures
        contents_after(pad_plan(), 0, Node::Pipeline, before) == (Contents {
            nodes: before.nodes.insert(Node::Bin),
            ..before
        }),
        contents_after(
            cleanup_plan(),
            0,
            Node::Pipeline,
            contents_after(pad_plan(), 0, Node::Pipeline, before),
        ) == before,
{
    reveal_with_fuel(contents_after, 16);
    assert(before.nodes.insert(Node::Bin).remove(Node::Bin) =~= before.nodes);
}

/// The bin and the shared memory sink that are looked for when a pad is gone are those that were
/// made when it came.
pub proof fn lemma_bin_found_again(pad: Seq<char>, socket: Seq<char>)
    ensures
        pad_plan()[0].step matches Step::Make(Node::Bin, name) && name.text(pad, socket) == Some(
            bin_text(pad),
        ),
        pad_plan()[2].step matches Step::Make(Node::ShmSink, name) && name.text(pad, socket)
            == Some(sink_text(pad)),
{
}

/// The path of the socket of a pad: the one that the sink in its bin has, or nothing, if there is
/// no bin.
pub open spec fn socket_path_text(found: Option<String>) -> Seq<char> {
    match found {
        Some(found) => found@,
        None => ""@,
    }
}

/// What is done about a new pad.
#[derive(Debug)]
pub struct PadSetup {
    /// How the pad is connected to its socket.
    pub plan: Vec<Planned>,
    /// Tells the other process about the socket.
    pub announcer: SocketAnnouncer,
    /// What follows, whether the pad could be connected or not.
    pub follow_up: Vec<Planned>,
}

/// The pipeline plays.
pub open spec fn play_plan() -> Seq<Planned> {
    seq![must(Step::SetState(Node::Pipeline, State::Playing))]
}

impl Source {
    /// A helper that connects to this server.
    pub fn new(ipc_server: &str) -> (source: Source)
        ensures
            source.ipc_server@ == ipc_server@,
    {
        Source { ipc_server: ipc_server.to_owned() }
    }

    /// What is done about a new pad, whose socket is at this path.
    pub fn pad_added(&self, socket_path: String) -> (setup: PadSetup)
        ensures
            setup.plan@ == pad_plan(),
            setup.announcer == (SocketAnnouncer { socket_path, prev_caps: None }),
            setup.follow_up@ == play_plan(),
    {
        let mut follow_up: Vec<Planned> = Vec::new();
        schedule(&mut follow_up, Step::SetState(Node::Pipeline, State::Playing), OnFailure::Abort);
        assert(follow_up@ =~= play_plan());
        PadSetup {
            plan: self.on_pad_created(),
            announcer: SocketAnnouncer::new(socket_path),
            follow_up,
        }
    }

    /// The message to the other process about a pad that is gone. `found` is the path that the
    /// sink in its bin has, if there is a bin. `done` is where the other process tells that it no
    /// longer reads the socket.
    pub fn pad_removed(pad: &str, found: Option<String>, done: IpcSender<()>) -> (message:
        IpcMessage)
        ensures
            exists|path: String| #[trigger]
                path@ == socket_path_text(found) && message == source_media(pad@).message(
                    StreamMessageData::ShmSocketPathRemoved(path, done),
                ),
    {
        let path = Source::socket_path_for_pad(found);
        socket_removed(pad, path, done)
    }

    /// How a new pad is connected to a socket.
    pub fn on_pad_created(&self) -> (plan: Vec<Planned>)
        ensures
            plan@ == pad_plan(),
    {
        let raised = OnFailure::Report(Fault::Raised);
        let mut plan: Vec<Planned> = Vec::new();
        schedule(&mut plan, Step::Make(Node::Bin, Name::Prefixed("bin_")), raised);
        schedule(&mut plan, Step::Make(Node::Queue, Name::Unnamed), raised);
        schedule(&mut plan, Step::Make(Node::ShmSink, Name::Prefixed("sink_")), raised);
        schedule(&mut plan, Step::SetSocketPath(Node::ShmSink), OnFailure::Abort);
        schedule(
            &mut plan,
            Step::SetFlag(Node::ShmSink, "enable-last-sample", false),
            OnFailure::Abort,
        );
        schedule(&mut plan, Step::Add(Node::Bin, Node::Queue), raised);
        schedule(&mut plan, Step::Add(Node::Bin, Node::ShmSink), raised);
        schedule(&mut plan, Step::Link(Node::Queue, Node::ShmSink), raised);
        schedule(&mut plan, Step::StaticPad(Pad::QueueSink), OnFailure::Abort);
        schedule(
            &mut plan,
            Step::GhostPad(Pad::BinSink, Name::Unnamed, Pad::QueueSink),
            raised,
        );
        schedule(&mut plan, Step::ActivatePad(Pad::BinSink, true), raised);
        schedule(&mut plan, Step::AddPad(Node::Bin, Pad::BinSink), raised);
        schedule(&mut plan, Step::Add(Node::Pipeline, Node::Bin), raised);
        schedule(&mut plan, Step::LinkPads(Pad::Given, Pad::BinSink), raised);
        schedule(&mut plan, Step::SyncState(Node::Bin), raised);
        assert(plan@ =~= pad_plan());
        plan
    }

    /// The name of the bin behind a pad.
    pub fn bin_name(pad: &str) -> (name: String)
        ensures
            name@ == bin_text(pad@),
    {
        join2("bin_", pad)
    }

    /// The name of the shared memory sink behind a pad.
    pub fn sink_name(pad: &str) -> (name: String)
        ensures
            name@ == sink_text(pad@),
    {
        join2("sink_", pad)
    }

    /// The path of the socket of a pad: the one that the sink in its bin has, or nothing, if there
    /// is no bin.
    pub fn socket_path_for_pad(found: Option<String>) -> (path: String)
        ensures
            path@ == socket_path_text(found),
    {
        match found {
            Some(path) => path,
            None => "".to_owned(),
        }
    }

    /// How the bin behind a pad that is gone goes away. `present` tells whether it is in the
    /// pipeline.
    pub fn cleanup_pad(&self, present: bool) -> (plan: Option<Vec<Planned>>)
        ensures
            if present {
                plan matches Some(plan) && plan@ == cleanup_plan()
            } else {
                plan is None
            },
    {
        if !present {
            return None;
        }
        let mut plan: Vec<Planned> = Vec::new();
        schedule(&mut plan, Step::LockState(Node::Bin, true), OnFailure::Abort);
        schedule(&mut plan, Step::SendEos(Node::Bin), OnFailure::Ignore);
        schedule(&mut plan, Step::SetState(Node::Bin, State::Null), OnFailure::Abort);
        schedule(&mut plan, Step::AwaitState(Node::Bin), OnFailure::Ignore);
        schedule(&mut plan, Step::Remove(Node::Pipeline, Node::Bin), OnFailure::Abort);
        schedule(
            &mut plan,
            Step::Dump(Name::Fixed("opentoksrc_wrapper_sink_removed")),
            OnFailure::Abort,
        );
        assert(plan@ =~= cleanup_plan());
        Some(plan)
    }

    /// What is done about a pad that is gone when the other process has answered, or will not:
    /// the bin behind the pad goes away if and only if the other process has told that it no longer
    /// reads the socket. `present` tells whether the bin is in the pipeline.
    pub fn pad_released(&self, acknowledged: bool, present: bool) -> (plan: Option<Vec<Planned>>)
        ensures
            if acknowledged && present {
                plan matches Some(plan) && plan@ == cleanup_plan()
            } else {
                plan is None
            },
    {
        if !acknowledged {
            return None;
        }
        self.cleanup_pad(present)
    }

    /// Whether the stream of the pipeline ends with a pad that is gone: the other process has told
    /// that it no longer reads the socket, and it was the last pad. `src_pads` counts the source
    /// pads of the OpenTok element that are left, if there is such an element.
    pub fn ends_stream(acknowledged: bool, src_pads: Option<u16>) -> (ends: bool)
        ensures
            ends == (acknowledged && src_pads == Some(0u16)),
    {
        acknowledged && Source::is_over(src_pads)
    }

    /// Whether the stream of the pipeline is over after a pad is gone: there is an OpenTok element,
    /// and it has no source pads left. `src_pads` counts them, if there is such an element.
    pub fn is_over(src_pads: Option<u16>) -> (over: bool)
        ensures
            over == (src_pads == Some(0u16)),
    {
        match src_pads {
            Some(count) => count == 0,
            None => false,
        }
    }
}

} // verus!
