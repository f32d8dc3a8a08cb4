//! What the sink element does with its helper process.

use crate::common::credentials::LoadError;
use crate::common::error::Error;
use crate::common::ipc::IpcMessage;
use crate::common::ipc::StreamMessage;
use crate::common::ipc::StreamMessageData;
use crate::element::SessionKeys;
use crate::element::StateChange;
use crate::helper::cli::flag_value;
use crate::laws::scene::scene_after;
use crate::laws::scene::scene_of;
use crate::laws::scene::takes_from;
use crate::laws::scene::takes_in_turn;
use crate::laws::scene::Reached;
use crate::laws::scene::Scene;
use crate::media::SocketAnnouncer;
use crate::media::StreamType;
use crate::opentoksink_remote::ipc_message_result;
use crate::opentoksink_remote::ipc_silence_result;
use crate::opentoksink_remote::ipc_turn_result;
use crate::opentoksink_remote::CriticalError;
use crate::opentoksink_remote::HelperCommand;
use crate::opentoksink_remote::IpcReaction;
use crate::opentoksink_remote::IpcTurn;
use crate::opentoksink_remote::IpcWatch;
use crate::opentoksink_remote::OpenTokSinkRemote;
use crate::opentoksink_remote::SinkRemoteView;
use crate::opentoksink_remote::StateWork;
use crate::plan::Fault;
use crate::plan::Name;
use crate::plan::Node;
use crate::plan::OnFailure;
use crate::plan::Pad;
use crate::plan::Planned;
use crate::plan::State;
use crate::plan::Step;
use crate::text::opt_text;
use crate::text::texts;
use vstd::prelude::*;

verus! {

/// A turn of the thread ends it if and only if it should not be running. While it runs, a ping is
/// sent at every turn at which two seconds or more have passed since the last one, whatever was
/// heard in between, and at no other. A ping is remembered by its time, and no turn is an answer.
pub proof fn law_ping_every_two_seconds(
    element: &OpenTokSinkRemote,
    watch: &mut IpcWatch,
    now: u64,
    turn: IpcTurn,
)
    requires
        call_ensures(OpenTokSinkRemote::ipc_turn, (element, watch, now), turn),
    ensures
        turn is Exit <==> !element@.ipc_thread_running,
        turn is SendPing <==> element@.ipc_thread_running && now - old(watch).last_ping_sent
            >= 2_000_000_000,
        final(watch).last_ping_sent == if turn is SendPing {
            now
        } else {
            old(watch).last_ping_sent
        },
        final(watch).last_pong == old(watch).last_pong,
        turn is SendPing ==> element@.ipc_connected,
{
}

/// The thread starts with both times set, with the element otherwise as it was.
pub proof fn law_thread_starts_fresh(element: &mut OpenTokSinkRemote, now: u64, watch: IpcWatch)
    requires
        call_ensures(OpenTokSinkRemote::ipc_thread_started, (element, now), watch),
    ensures
        watch.last_pong == now,
        watch.last_ping_sent == now,
        final(element)@ == (SinkRemoteView { ipc_thread_running: true, ..old(element)@ }),
{
}

/// The helper is given up in silence if and only if it last answered six seconds ago or longer. It
/// is then interrupted if it was running, and counts as running no longer. Nothing changes
/// otherwise.
pub proof fn law_given_up_after_six_seconds(
    element: &mut OpenTokSinkRemote,
    watch: &IpcWatch,
    now: u64,
    critical: Option<CriticalError>,
)
    requires
        call_ensures(OpenTokSinkRemote::ipc_silence, (element, watch, now), critical),
    ensures
        critical is Some <==> now - watch.last_pong >= 6_000_000_000,
        critical matches Some(critical) ==> {
            &&& critical.interrupt_child == old(element)@.child_running
            &&& critical.message@ == "Child process error "@ + "No pong for 5seconds"@
            &&& final(element)@ == SinkRemoteView { child_running: false, ..old(element)@ }
        },
        critical is None ==> final(element)@ == old(element)@,
{
}

/// An answer of the helper is remembered by its time, and changes nothing else.
pub proof fn law_answer_is_remembered(
    element: &mut OpenTokSinkRemote,
    watch: &mut IpcWatch,
    message: IpcMessage,
    now: u64,
    reaction: IpcReaction,
)
    requires
        message is Pong,
        call_ensures(OpenTokSinkRemote::ipc_message, (element, watch, message, now), reaction),
    ensures
        reaction is Continue,
        final(element)@ == old(element)@,
        final(watch).last_pong == now,
        final(watch).last_ping_sent == old(watch).last_ping_sent,
{
}

/// A failure of the helper is reported in its own words, interrupts the helper if it was running,
/// and ends the thread. It is no answer.
pub proof fn law_failure_is_reported(
    element: &mut OpenTokSinkRemote,
    watch: &mut IpcWatch,
    message: IpcMessage,
    now: u64,
    reaction: IpcReaction,
)
    requires
        message is Error,
        call_ensures(OpenTokSinkRemote::ipc_message, (element, watch, message, now), reaction),
    ensures
        reaction matches IpcReaction::GiveUp(critical) && {
            &&& critical.interrupt_child == old(element)@.child_running
            &&& critical.message@ == "Child process error "@ + message->Error_0@
        },
        final(element)@ == (SinkRemoteView { child_running: false, ..old(element)@ }),
        *final(watch) == *old(watch),
{
}

/// A stream that the helper published is announced under its identifier and the location at which
/// it can be subscribed to, if the element can announce anything, and its identifier is the
/// property of the element from then on. It is no answer.
pub proof fn law_published_stream_is_announced(
    element: &mut OpenTokSinkRemote,
    watch: &mut IpcWatch,
    message: IpcMessage,
    now: u64,
    reaction: IpcReaction,
)
    requires
        message is PublishedStream,
        call_ensures(OpenTokSinkRemote::ipc_message, (element, watch, message, now), reaction),
    ensures
        reaction is EmitPublishedStream <==> old(element)@.can_emit,
        reaction matches IpcReaction::EmitPublishedStream { stream_id, url } ==> {
            &&& stream_id@ == message->PublishedStream_0@
            &&& url@ == "opentok://"@ + old(element)@.credentials.session_id->0 + "/"@ + stream_id@
                + "?key="@ + old(element)@.credentials.api_key->0 + "&token="@
                + old(element)@.credentials.token->0
            &&& final(element)@ == SinkRemoteView {
                published_stream_id: Some(stream_id@),
                ..old(element)@
            }
        },
        !(reaction is EmitPublishedStream) ==> {
            &&& reaction is Continue
            &&& final(element)@ == old(element)@
        },
        *final(watch) == *old(watch),
{
}

/// The property of the element names the stream that was published last, whatever it was before.
pub proof fn law_published_stream_is_the_property(
    element: &mut OpenTokSinkRemote,
    watch: &mut IpcWatch,
    message: IpcMessage,
    now: u64,
    reaction: IpcReaction,
    later: &OpenTokSinkRemote,
    name: &str,
    value: Option<String>,
)
    requires
        message is PublishedStream,
        old(element)@.can_emit,
        call_ensures(OpenTokSinkRemote::ipc_message, (element, watch, message, now), reaction),
        later@ == final(element)@,
        name@ == "stream-id"@,
        call_ensures(OpenTokSinkRemote::property, (later, name), value),
    ensures
        opt_text(value) == Some(message->PublishedStream_0@),
{
    reveal_strlit("stream-id");
    reveal_strlit("location");
    assert("stream-id"@.len() == 9 && "location"@.len() == 8);
}

/// No other message changes anything.
pub proof fn law_other_messages_change_nothing(
    element: &mut OpenTokSinkRemote,
    watch: &mut IpcWatch,
    message: IpcMessage,
    now: u64,
    reaction: IpcReaction,
)
    requires
        message is Ping || message is Stream || message is Terminate,
        call_ensures(OpenTokSinkRemote::ipc_message, (element, watch, message, now), reaction),
    ensures
        reaction is Continue,
        final(element)@ == old(element)@,
        *final(watch) == *old(watch),
{
}

/// A round of the thread: when it was, what the turn was, and the watch after what was heard.
pub struct Round {
    pub at: u64,
    pub turn: IpcTurn,
    pub watch: IpcWatch,
}

/// The watch before a round of a thread that began at `start`.
pub open spec fn watch_before(start: u64, rounds: Seq<Round>, i: int) -> IpcWatch {
    if i <= 0 {
        IpcWatch { last_pong: start, last_ping_sent: start }
    } else {
        rounds[i - 1].watch
    }
}

/// In the round `i` the helper answers at once, if it is asked. It may answer without being asked.
pub open spec fn answers_in(
    element: SinkRemoteView,
    start: u64,
    rounds: Seq<Round>,
    i: int,
) -> bool {
    exists|asked: IpcWatch| #[trigger]
        ipc_turn_result(
            element,
            watch_before(start, rounds, i),
            rounds[i].at,
            rounds[i].turn,
            asked,
        ) && (rounds[i].watch == asked && !(rounds[i].turn is SendPing) || heard_pong(
            element,
            asked,
            rounds[i],
        ))
}

/// In this round an answer is heard.
pub open spec fn heard_pong(element: SinkRemoteView, asked: IpcWatch, round: Round) -> bool {
    exists|reaction: IpcReaction, after: SinkRemoteView| #[trigger]
        ipc_message_result(
            element,
            asked,
            IpcMessage::Pong,
            round.at,
            reaction,
            after,
            round.watch,
        )
}

/// The rounds follow each other in time.
pub open spec fn rounds_in_time(start: u64, rounds: Seq<Round>) -> bool {
    forall|i: int|
        0 <= i < rounds.len() ==> (#[trigger] rounds[i]).at >= if i == 0 {
            start
        } else {
            rounds[i - 1].at
        }
}

/// As long as the thread runs and the helper answers at once whenever it is asked, less than two
/// seconds have passed since the last ping after every round, no matter how many rounds there were,
/// and the helper is not given up within four seconds of any round.
pub proof fn law_answering_helper_is_kept(
    element: SinkRemoteView,
    start: u64,
    rounds: Seq<Round>,
    i: int,
)
    requires
        element.ipc_thread_running,
        rounds_in_time(start, rounds),
        forall|k: int| 0 <= k <= i ==> #[trigger] answers_in(element, start, rounds, k),
        0 <= i < rounds.len(),
    ensures
        0 <= rounds[i].at - rounds[i].watch.last_ping_sent < 2_000_000_000,
        rounds[i].watch.last_ping_sent <= rounds[i].watch.last_pong <= rounds[i].at,
        forall|now: u64, critical: Option<CriticalError>, after: SinkRemoteView|
            now < rounds[i].at + 4_000_000_000 && #[trigger] ipc_silence_result(
                element,
                rounds[i].watch,
                now,
                critical,
                after,
            ) ==> critical is None,
    decreases i,
{
    assert(rounds[i].at >= start) by {
        lemma_rounds_after_start(start, rounds, i);
    }
    if i > 0 {
        law_answering_helper_is_kept(element, start, rounds, i - 1);
    }
    assert(answers_in(element, start, rounds, i));
}

proof fn lemma_rounds_after_start(start: u64, rounds: Seq<Round>, i: int)
    requires
        rounds_in_time(start, rounds),
        0 <= i < rounds.len(),
    ensures
        rounds[i].at >= start,
    decreases i,
{
    assert(rounds[i].at >= if i == 0 {
        start
    } else {
        rounds[i - 1].at
    });
    if i > 0 {
        lemma_rounds_after_start(start, rounds, i - 1);
    }
}

/// The round `k` follows on the one before, whatever is heard in it.
pub open spec fn turned(element: SinkRemoteView, rounds: Seq<Round>, k: int) -> bool {
    exists|asked: IpcWatch| #[trigger]
        ipc_turn_result(element, rounds[k - 1].watch, rounds[k].at, rounds[k].turn, asked)
            && asked.last_ping_sent == rounds[k].watch.last_ping_sent
}

/// As long as the thread runs, pings do not stop: of two rounds that are two seconds or more apart,
/// a ping is sent in the later one or in one between, whatever is heard meanwhile.
pub proof fn law_pings_do_not_stop(
    element: SinkRemoteView,
    rounds: Seq<Round>,
    i: int,
    j: int,
)
    requires
        element.ipc_thread_running,
        0 <= i < j < rounds.len(),
        rounds[i].watch.last_ping_sent <= rounds[i].at,
        rounds[j].at - rounds[i].at >= 2_000_000_000,
        forall|k: int| i < k <= j ==> #[trigger] turned(element, rounds, k),
    ensures
        exists|k: int| i < k <= j && (#[trigger] rounds[k]).turn is SendPing,
{
    if forall|k: int| i < k <= j ==> !((#[trigger] rounds[k]).turn is SendPing) {
        lemma_ping_time_kept(element, rounds, i, j - 1);
        assert(turned(element, rounds, j));
        assert(rounds[j].turn is SendPing);
    }
}

proof fn lemma_ping_time_kept(element: SinkRemoteView, rounds: Seq<Round>, i: int, j: int)
    requires
        0 <= i <= j < rounds.len(),
        forall|k: int| i < k <= j ==> !((#[trigger] rounds[k]).turn is SendPing),
        forall|k: int| i < k <= j ==> #[trigger] turned(element, rounds, k),
    ensures
        rounds[j].watch.last_ping_sent == rounds[i].watch.last_ping_sent,
    decreases j - i,
{
    if i < j {
        lemma_ping_time_kept(element, rounds, i, j - 1);
        assert(turned(element, rounds, j));
        assert(!(rounds[j].turn is SendPing));
    }
}

/// The helper is started with the program that lies beside, if there is one, with everything that
/// the element knows behind the flag for it, and to publish. It is not started without a server.
pub proof fn law_helper_is_told_what_the_element_knows(
    element: &OpenTokSinkRemote,
    ipc_server: Option<&str>,
    beside: Option<String>,
    keys: &SessionKeys,
    result: Result<HelperCommand, Error>,
    command: HelperCommand,
)
    requires
        ipc_server matches Some(server) ==> call_ensures(
            OpenTokSinkRemote::launch_child_process,
            (element, beside, server, keys),
            command,
        ),
        call_ensures(OpenTokSinkRemote::init, (element, ipc_server, beside, keys), result),
    ensures
        result is Ok <==> ipc_server is Some,
        result matches Err(error) ==> error is OpenTokRemoteLaunchFailed,
        result matches Ok(command) ==> {
            let args = texts(command.args@);
            &&& beside is Some ==> command.program@ == beside->0@
            &&& beside is None ==> command.program@ == "gst-opentok-helper"@
            &&& flag_value(args, "--api-key"@) == Some(keys.api_key@)
            &&& flag_value(args, "--session-id"@) == Some(keys.session_id@)
            &&& flag_value(args, "--token"@) == Some(keys.token@)
            &&& flag_value(args, "--direction"@) == Some("sink"@)
            &&& flag_value(args, "--ipc-server"@) == Some(ipc_server->0@)
            &&& flag_value(args, "--stream-id"@) == element@.stream_id
            &&& flag_value(args, "--display-name"@) == element@.display_name
            &&& flag_value(args, "--room-uri"@) is None
            &&& args.len() == 10 + (if element@.stream_id is Some {
                2int
            } else {
                0int
            }) + (if element@.display_name is Some {
                2int
            } else {
                0int
            })
        },
        ipc_server is Some ==> command.program@ == result->Ok_0.program@ && texts(command.args@)
            == texts(result->Ok_0.args@),
{
    if let Some(server) = ipc_server {
        crate::helper::cli::lemma_flags_differ();
        let (stream, name) = (element@.stream_id, element@.display_name);
        crate::helper::cli::lemma_helper_args_values(server@, keys@, stream, name, "--api-key"@);
        crate::helper::cli::lemma_helper_args_values(server@, keys@, stream, name, "--session-id"@);
        crate::helper::cli::lemma_helper_args_values(server@, keys@, stream, name, "--token"@);
        crate::helper::cli::lemma_helper_args_values(server@, keys@, stream, name, "--direction"@);
        crate::helper::cli::lemma_helper_args_values(server@, keys@, stream, name, "--ipc-server"@);
        crate::helper::cli::lemma_helper_args_values(server@, keys@, stream, name, "--stream-id"@);
        crate::helper::cli::lemma_helper_args_values(
            server@,
            keys@,
            stream,
            name,
            "--display-name"@,
        );
        crate::helper::cli::lemma_helper_args_values(server@, keys@, stream, name, "--room-uri"@);
    }
}

/// The helper runs from when it was started until it is given up or the element goes away, and is
/// interrupted then, and only then, if it runs.
pub proof fn law_helper_is_interrupted_once(
    element: &mut OpenTokSinkRemote,
    error: &str,
    critical: CriticalError,
    later: &mut OpenTokSinkRemote,
    other: &str,
    again: CriticalError,
)
    requires
        call_ensures(OpenTokSinkRemote::critical_error, (element, error), critical),
        old(later)@ == final(element)@,
        call_ensures(OpenTokSinkRemote::critical_error, (later, other), again),
    ensures
        critical.interrupt_child <==> old(element)@.child_running,
        !again.interrupt_child,
        critical.message@ == "Child process error "@ + error@,
        final(element)@ == (SinkRemoteView { child_running: false, ..old(element)@ }),
        final(later)@ == old(later)@,
{
}

/// The start of the helper and its connection are remembered, and a start that failed is an error
/// that changes nothing.
pub proof fn law_helper_comes_up(
    element: &mut OpenTokSinkRemote,
    spawned: bool,
    result: Result<(), Error>,
    connected: &mut OpenTokSinkRemote,
    made: &mut OpenTokSinkRemote,
)
    requires
        call_ensures(OpenTokSinkRemote::child_spawned, (element, spawned), result),
        call_ensures(OpenTokSinkRemote::ipc_accepted, (connected,), ()),
        call_ensures(OpenTokSinkRemote::constructed, (made,), ()),
    ensures
        result is Ok <==> spawned,
        result matches Err(error) ==> error is OpenTokRemoteLaunchFailed,
        spawned ==> final(element)@ == (SinkRemoteView { child_running: true, ..old(element)@ }),
        !spawned ==> final(element)@ == old(element)@,
        final(connected)@ == (SinkRemoteView { ipc_connected: true, ..old(connected)@ }),
        final(made)@ == (SinkRemoteView { can_emit: true, ..old(made)@ }),
{
}

/// The helper is told to end if it is connected. From then on the thread ends at its next turn, and
/// the helper is not told again.
pub proof fn law_torn_down_once(
    element: &mut OpenTokSinkRemote,
    terminate: bool,
    later: &mut OpenTokSinkRemote,
    again: (bool, bool),
    thread: &OpenTokSinkRemote,
    watch: &mut IpcWatch,
    now: u64,
    turn: IpcTurn,
)
    requires
        call_ensures(OpenTokSinkRemote::teardown, (element,), terminate),
        old(later)@ == final(element)@,
        call_ensures(OpenTokSinkRemote::dispose, (later,), again),
        thread@ == final(element)@,
        call_ensures(OpenTokSinkRemote::ipc_turn, (thread, watch, now), turn),
    ensures
        terminate <==> old(element)@.ipc_connected,
        final(element)@ == (SinkRemoteView {
            ipc_connected: false,
            ipc_thread_running: false,
            ..old(element)@
        }),
        turn is Exit,
        !again.0,
        again.1 <==> old(element)@.child_running,
        !final(later)@.child_running,
{
}

/// The element that goes away tells the helper to end if it is connected, and interrupts it if it
/// runs. Afterwards it is neither.
pub proof fn law_disposed_element_leaves_no_helper(
    element: &mut OpenTokSinkRemote,
    left: (bool, bool),
)
    requires
        call_ensures(OpenTokSinkRemote::dispose, (element,), left),
    ensures
        left.0 <==> old(element)@.ipc_connected,
        left.1 <==> old(element)@.child_running,
        final(element)@ == (SinkRemoteView {
            child_running: false,
            ipc_connected: false,
            ipc_thread_running: false,
            ..old(element)@
        }),
{
}

/// On the way to paused the helper is started with what the element then knows, if that is
/// everything that it takes; on the way to the lowest state it is told to end. No other change of
/// state has an effect.
pub proof fn law_states_of_the_sink(
    element: &mut OpenTokSinkRemote,
    change: StateChange,
    answer: Result<String, String>,
    result: Result<StateWork, LoadError>,
)
    requires
        call_ensures(OpenTokSinkRemote::change_state, (element, change, answer), result),
    ensures
        !(change is ReadyToPaused) ==> result is Ok,
        change is ReadyToNull ==> {
            &&& result matches Ok(StateWork::Terminate(terminate))
            &&& terminate <==> old(element)@.ipc_connected
            &&& final(element)@ == SinkRemoteView {
                ipc_connected: false,
                ipc_thread_running: false,
                ..old(element)@
            }
        },
        change is ReadyToPaused ==> (result matches Ok(work) ==> {
            let known = final(element)@.credentials;
            &&& work matches StateWork::Init(keys) && {
                &&& keys is Some <==> known.api_key is Some && known.session_id is Some
                    && known.token is Some
                &&& keys matches Some(keys) ==> {
                    &&& known.api_key == Some(keys.api_key@)
                    &&& known.session_id == Some(keys.session_id@)
                    &&& known.token == Some(keys.token@)
                }
            }
        }),
        change is ReadyToPaused ==> final(element)@ == (SinkRemoteView {
            credentials: final(element)@.credentials,
            ..old(element)@
        }),
        !(change is ReadyToPaused) && !(change is ReadyToNull) ==> {
            &&& result == Ok::<StateWork, LoadError>(StateWork::Nothing)
            &&& final(element)@ == old(element)@
        },
{
}

/// The values to start the helper with are those of the credentials, if all of them are known, and
/// the thread can start if the helper is connected besides.
pub proof fn law_helper_gets_the_credentials(
    element: &OpenTokSinkRemote,
    keys: Option<SessionKeys>,
    ready: bool,
)
    requires
        call_ensures(OpenTokSinkRemote::maybe_init, (element,), keys),
        call_ensures(OpenTokSinkRemote::ipc_ready, (element,), ready),
    ensures
        keys is Some <==> element@.credentials.api_key is Some && element@.credentials.session_id is
            Some && element@.credentials.token is Some,
        keys matches Some(keys) ==> {
            &&& element@.credentials.api_key == Some(keys.api_key@)
            &&& element@.credentials.session_id == Some(keys.session_id@)
            &&& element@.credentials.token == Some(keys.token@)
        },
        ready <==> element@.ipc_connected && keys is Some,
{
}

/// Messages of what is in the element are passed on, but for errors while the thread does not run.
pub proof fn law_errors_are_held_back(element: &OpenTokSinkRemote, is_error: bool, forward: bool)
    requires
        call_ensures(OpenTokSinkRemote::handle_message, (element, is_error), forward),
    ensures
        !is_error ==> forward,
        is_error ==> (forward <==> element@.ipc_thread_running),
{
}

/// When a pad has been set up, what flows into it flows through the bin into the queue, and from
/// there into the socket: the pad is on the element, active, stands for that of the bin, and its
/// capabilities are watched. The element has a bin for the stream from then on, and for no other
/// stream that it had none for. No failure passes unnoticed.
pub proof fn law_requested_pad_feeds_the_socket(
    element: &mut OpenTokSinkRemote,
    stream_type: StreamType,
    plan: Vec<Planned>,
)
    requires
        !(stream_type is Unknown),
        call_ensures(OpenTokSinkRemote::request_new_pad, (element, stream_type), plan),
    ensures
        scene_of(plan@) == (Scene {
            made: set![
                (Node::Bin, Name::Prefixed("bin_")),
                (Node::Queue, Name::Unnamed),
                (Node::ShmSink, Name::Prefixed("sink_")),
            ],
            flags: set![(Node::ShmSink, "enable-last-sample", false)],
            on_socket: set![Node::ShmSink],
            held: set![
                (Node::Bin, Node::Queue),
                (Node::Bin, Node::ShmSink),
                (Node::Element, Node::Bin),
            ],
            shown: set![(Node::Bin, Pad::BinSink), (Node::Element, Pad::Exposed)],
            named: set![(Pad::BinSink, Name::Unnamed), (Pad::Exposed, Name::OfPad)],
            links: set![(Node::Queue, Node::ShmSink)],
            targets: set![(Pad::BinSink, Pad::QueueSink), (Pad::Exposed, Pad::BinSink)],
            active: set![Pad::BinSink, Pad::Exposed],
            states: map![Node::Bin => Reached::Synced],
            watched: set![Pad::Exposed],
            ..Scene::empty()
        }),
        takes_in_turn(
            plan@,
            seq![
                Step::Make(Node::Bin, Name::Prefixed("bin_")),
                Step::Add(Node::Bin, Node::ShmSink),
                Step::Link(Node::Queue, Node::ShmSink),
                Step::StaticPad(Pad::QueueSink),
                Step::GhostPad(Pad::BinSink, Name::Unnamed, Pad::QueueSink),
                Step::ActivatePad(Pad::BinSink, true),
                Step::AddPad(Node::Bin, Pad::BinSink),
                Step::Add(Node::Element, Node::Bin),
                Step::SyncState(Node::Bin),
                Step::TemplatePad(Pad::Exposed, Name::OfPad),
                Step::SetTarget(Pad::Exposed, Pad::BinSink),
                Step::ActivatePad(Pad::Exposed, true),
                Step::AddPad(Node::Element, Pad::Exposed),
                Step::WatchCaps(Pad::Exposed),
            ],
        ),
        forall|i: int|
            0 <= i < plan@.len() ==> (#[trigger] plan@[i]).on_failure == match plan@[i].step {
                Step::Make(Node::Queue, _) => OnFailure::Report(Fault::MissingElement("queue")),
                Step::Make(Node::ShmSink, _) => OnFailure::Report(Fault::MissingElement("shmsink")),
                Step::AddPad(_, _) => OnFailure::Report(Fault::AddElement("bin sink pad")),
                Step::Add(Node::Element, _) => OnFailure::Report(Fault::AddElement("bin sink pad")),
                Step::SetTarget(_, _) => OnFailure::Report(Fault::TemplatePad("shm_bin_sink")),
                _ => OnFailure::Abort,
            },
        stream_type is Audio ==> final(element)@ == (SinkRemoteView {
            audio_bin: true,
            ..old(element)@
        }),
        stream_type is Video ==> final(element)@ == (SinkRemoteView {
            video_bin: true,
            ..old(element)@
        }),
{
    reveal_with_fuel(scene_after, 21);
    reveal_with_fuel(takes_from, 21);
    let scene = scene_of(plan@);
    assert(scene.flags =~= set![(Node::ShmSink, "enable-last-sample", false)]);
    assert(scene.made =~= set![
        (Node::Bin, Name::Prefixed("bin_")),
        (Node::Queue, Name::Unnamed),
        (Node::ShmSink, Name::Prefixed("sink_")),
    ]);
}

/// A pad that is released is no longer shown. The bin of its stream, if the element has it, is
/// stopped and taken out before, and the element has none for the stream from then on, while that
/// of the other stream stays. Nothing but stopping the bin can go wrong.
pub proof fn law_released_pad_is_gone(
    element: &mut OpenTokSinkRemote,
    pad: &str,
    attached: bool,
    plan: Vec<Planned>,
    before: Scene,
)
    requires
        pad@ == "audio_sink"@ || pad@ == "video_sink"@,
        call_ensures(OpenTokSinkRemote::release_pad, (element, pad, attached), plan),
    ensures
        pad@ == "audio_sink"@ ==> final(element)@ == (SinkRemoteView {
            audio_bin: false,
            ..old(element)@
        }),
        pad@ == "video_sink"@ ==> final(element)@ == (SinkRemoteView {
            video_bin: false,
            ..old(element)@
        }),
        ({
            let bin = if pad@ == "audio_sink"@ {
                old(element)@.audio_bin
            } else {
                old(element)@.video_bin
            };
            let scene = scene_after(plan@, 0, before);
            &&& bin && attached ==> {
                &&& scene == Scene {
                    shown: before.shown.remove((Node::Element, Pad::Given)),
                    held: before.held.remove((Node::Element, Node::Bin)),
                    states: before.states.insert(Node::Bin, Reached::In(State::Null)),
                    settled: before.settled.insert(Node::Bin),
                    ..before
                }
                &&& takes_in_turn(
                    plan@,
                    seq![
                        Step::SetState(Node::Bin, State::Null),
                        Step::AwaitState(Node::Bin),
                        Step::Remove(Node::Element, Node::Bin),
                        Step::RemovePad(Node::Element, Pad::Given),
                    ],
                )
            }
            &&& !(bin && attached) ==> scene == Scene {
                shown: before.shown.remove((Node::Element, Pad::Given)),
                ..before
            }
        }),
        forall|i: int|
            0 <= i < plan@.len() ==> ((#[trigger] plan@[i]).on_failure is Abort
                <==> plan@[i].step is SetState) && (plan@[i].on_failure is Ignore
                <==> !(plan@[i].step is SetState)),
{
    reveal_with_fuel(scene_after, 6);
    reveal_with_fuel(takes_from, 6);
    reveal_strlit("audio_sink");
    reveal_strlit("video_sink");
    assert("audio_sink"@[0] == 'a' && "video_sink"@[0] == 'v');
    assert(before.settled.remove(Node::Bin).insert(Node::Bin) =~= before.settled.insert(
        Node::Bin,
    ));
}

/// The other process hears of the capabilities of a stream under the medium of the stream, with the
/// socket the first time and without it later, if it is connected. What was announced is remembered
/// either way.
pub proof fn law_capabilities_are_announced(
    element: &OpenTokSinkRemote,
    announcer: &mut SocketAnnouncer,
    stream_type: StreamType,
    caps: String,
    pad: String,
    message: Option<IpcMessage>,
)
    requires
        !(stream_type is Unknown),
        call_ensures(
            OpenTokSinkRemote::caps_changed,
            (element, announcer, stream_type, caps, pad),
            message,
        ),
    ensures
        message is Some <==> element@.ipc_connected,
        final(announcer).prev_caps == Some(caps),
        final(announcer).socket_path == old(announcer).socket_path,
        message matches Some(message) ==> {
            let data = if old(announcer).prev_caps is None {
                StreamMessageData::ShmSocketPathAdded(old(announcer).socket_path, caps, pad)
            } else {
                StreamMessageData::CapsChanged(caps, pad)
            };
            &&& stream_type is Audio ==> message == IpcMessage::Stream(StreamMessage::Audio(data))
            &&& stream_type is Video ==> message == IpcMessage::Stream(StreamMessage::Video(data))
        },
{
}

} // verus!
