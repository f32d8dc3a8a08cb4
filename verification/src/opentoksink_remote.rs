//! The sink element that publishes through a helper process.

use crate::common::credentials::credentials_at;
use crate::common::credentials::found_view;
use crate::common::credentials::info_text;
use crate::common::credentials::load_result;
use crate::common::credentials::location_credentials;
use crate::common::credentials::parse_location;
use crate::common::credentials::set_room_result;
use crate::common::credentials::takes_answer;
use crate::common::credentials::CredentialsView;
use crate::common::credentials::LoadError;
use crate::common::error::Error;
use crate::common::format::audio_caps;
use crate::common::format::caps;
use crate::common::format::video_caps;
use crate::common::ipc::IpcMessage;
use crate::common::url::location;
use crate::common::url::location_text;
use crate::common::url::plain_location;
use crate::common::url::url_of;
use crate::common::url::Protocol;
use crate::common::Credentials;
use crate::element::declares;
use crate::element::declares_writable;
use crate::element::keys_of;
use crate::element::location_of;
use crate::element::names_stream;
use crate::element::opt_keys;
use crate::element::public_location;
use crate::element::session_keys;
use crate::element::LocationError;
use crate::element::Metadata;
use crate::element::PadDirection;
use crate::element::PadTemplate;
use crate::element::PadTemplateView;
use crate::element::Presence;
use crate::element::PropertyError;
use crate::element::PropertyKind;
use crate::element::PropertySpec;
use crate::element::SessionKeys;
use crate::element::SessionKeysView;
use crate::element::StateChange;
use crate::media::caps_data;
use crate::media::Media;
use crate::media::SocketAnnouncer;
use crate::media::StreamType;
use crate::plan::contents_after;
use crate::plan::in_order;
use crate::plan::may;
use crate::plan::must;
use crate::plan::or_fail;
use crate::plan::schedule;
use crate::plan::Contents;
use crate::plan::Fault;
use crate::plan::Name;
use crate::plan::Node;
use crate::plan::OnFailure;
use crate::plan::Pad;
use crate::plan::Planned;
use crate::plan::State;
use crate::plan::Step;
use crate::text::copy_opt;
use crate::text::join2;
use crate::text::opt_text;
use crate::text::same;
use crate::text::texts;
use vstd::prelude::*;

verus! {

/// What the sink element knows, apart from the GStreamer objects and the channels themselves.
#[derive(Debug)]
pub struct OpenTokSinkRemote {
    /// OpenTok session credentials (API key, session ID and token).
    credentials: Credentials,
    /// OpenTok Stream identifier. Set at most once.
    stream_id: Option<String>,
    /// Peer display name.
    display_name: Option<String>,
    /// Published stream unique identifier.
    published_stream_id: Option<String>,
    /// Whether there is a helper process.
    child_running: bool,
    /// Whether there is a channel to the helper process.
    ipc_connected: bool,
    /// Whether signals can be emitted.
    can_emit: bool,
    /// Whether the IPC thread should be running or not.
    ipc_thread_running: bool,
    /// Whether there is an audio stream bin.
    audio_bin: bool,
    /// Whether there is a video stream bin.
    video_bin: bool,
}

/// What an [`OpenTokSinkRemote`] holds.
#[verifier::ext_equal]
pub struct SinkRemoteView {
    pub credentials: CredentialsView,
    pub stream_id: Option<Seq<char>>,
    pub display_name: Option<Seq<char>>,
    pub published_stream_id: Option<Seq<char>>,
    pub child_running: bool,
    pub ipc_connected: bool,
    pub can_emit: bool,
    pub ipc_thread_running: bool,
    pub audio_bin: bool,
    pub video_bin: bool,
}

impl View for OpenTokSinkRemote {
    type V = SinkRemoteView;

    closed spec fn view(&self) -> SinkRemoteView {
        SinkRemoteView {
            credentials: self.credentials@,
            stream_id: opt_text(self.stream_id),
            display_name: opt_text(self.display_name),
            published_stream_id: opt_text(self.published_stream_id),
            child_running: self.child_running,
            ipc_connected: self.ipc_connected,
            can_emit: self.can_emit,
            ipc_thread_running: self.ipc_thread_running,
            audio_bin: self.audio_bin,
            video_bin: self.video_bin,
        }
    }
}

impl SinkRemoteView {
    /// The element after it was made.
    pub open spec fn initial() -> SinkRemoteView {
        SinkRemoteView {
            credentials: CredentialsView::unset(),
            stream_id: None,
            display_name: None,
            published_stream_id: None,
            child_running: false,
            ipc_connected: false,
            can_emit: false,
            ipc_thread_running: false,
            audio_bin: false,
            video_bin: false,
        }
    }
}

/// What setting the stream makes of the element `before`: it is refused if and only if the stream
/// was set before.
pub open spec fn set_stream_result(
    before: SinkRemoteView,
    id: Seq<char>,
    result: Result<(), LocationError>,
    after: SinkRemoteView,
) -> bool {
    if before.stream_id is Some {
        result == Err::<(), LocationError>(LocationError::StreamIdSet) && after == before
    } else {
        result is Ok && after == SinkRemoteView { stream_id: Some(id), ..before }
    }
}

/// What setting the location makes of the element `before`: it is refused if and only if the
/// location is no url, or names a stream although the stream was set before.
pub open spec fn set_location_result(
    before: SinkRemoteView,
    parsed: Result<CredentialsView, Seq<char>>,
    result: Result<(), LocationError>,
    after: SinkRemoteView,
) -> bool {
    match parsed {
        Err(reason) => {
            &&& result matches Err(LocationError::Malformed(found)) && found@ == reason
            &&& after == before
        },
        Ok(credentials) => {
            if names_stream(credentials.stream_id) {
                if before.stream_id is Some {
                    result == Err::<(), LocationError>(LocationError::StreamIdSet) && after
                        == before
                } else {
                    result is Ok && after == SinkRemoteView {
                        stream_id: credentials.stream_id,
                        credentials,
                        ..before
                    }
                }
            } else {
                result is Ok && after == SinkRemoteView { credentials, ..before }
            }
        },
    }
}

/// A location whose parts come back out of it is accepted with exactly those parts, unless it
/// names a stream although the stream was set before.
pub open spec fn takes_location(
    before: SinkRemoteView,
    location: Seq<char>,
    result: Result<(), LocationError>,
    after: SinkRemoteView,
) -> bool {
    forall|
        protocol: Protocol,
        session_id: Seq<char>,
        stream_id: Option<Seq<char>>,
        api_key: Seq<char>,
        token: Seq<char>,
    |
        plain_location(protocol, session_id, stream_id, api_key, token) && location
            == #[trigger] location_text(protocol, session_id, stream_id, api_key, token) ==> if
            names_stream(stream_id) && before.stream_id is Some {
            result == Err::<(), LocationError>(LocationError::StreamIdSet) && after == before
        } else {
            &&& result is Ok
            &&& after == SinkRemoteView {
                credentials: location_credentials(session_id, stream_id, api_key, token),
                stream_id: if names_stream(stream_id) {
                    stream_id
                } else {
                    before.stream_id
                },
                ..before
            }
        }
}

/// A command that starts the helper process.
#[derive(Debug)]
pub struct HelperCommand {
    pub program: String,
    pub args: Vec<String>,
}

/// The program that is the helper: the one beside the program that runs, if there is one, else
/// whichever the system finds under its name.
pub open spec fn helper_program(beside: Option<Seq<char>>) -> Seq<char> {
    match beside {
        Some(path) => path,
        None => "gst-opentok-helper"@,
    }
}

/// The arguments with which the helper is started.
pub open spec fn helper_args(
    ipc_server: Seq<char>,
    keys: SessionKeysView,
    stream_id: Option<Seq<char>>,
    display_name: Option<Seq<char>>,
) -> Seq<Seq<char>> {
    let always = seq![
        "--api-key"@,
        keys.api_key,
        "--session-id"@,
        keys.session_id,
        "--token"@,
        keys.token,
        "--direction"@,
        "sink"@,
        "--ipc-server"@,
        ipc_server,
    ];
    let with_stream = match stream_id {
        Some(id) => always + seq!["--stream-id"@, id],
        None => always,
    };
    match display_name {
        Some(name) => with_stream + seq!["--display-name"@, name],
        None => with_stream,
    }
}

impl OpenTokSinkRemote {
    /// A new element.
    pub fn new() -> (element: OpenTokSinkRemote)
        ensures
            element@ == SinkRemoteView::initial(),
    {
        OpenTokSinkRemote {
            credentials: Credentials::default(),
            stream_id: None,
            display_name: None,
            published_stream_id: None,
            child_running: false,
            ipc_connected: false,
            can_emit: false,
            ipc_thread_running: false,
            audio_bin: false,
            video_bin: false,
        }
    }

    /// The GStreamer object of the element is there, so that it can emit signals.
    pub fn constructed(&mut self)
        ensures
            final(self)@ == (SinkRemoteView { can_emit: true, ..old(self)@ }),
    {
        self.can_emit = true;
    }

    /// The location of the session.
    pub fn location(&self) -> (location: Option<String>)
        ensures
            opt_text(location) == public_location(self@.credentials),
    {
        location_of(&self.credentials)
    }

    /// Sets the credentials, and the stream if the location names one. A location whose parts
    /// come back out of it is accepted with exactly those parts, unless it names a
    /// stream although the stream was set before.
    pub fn set_location(&mut self, location: &str) -> (result: Result<(), LocationError>)
        ensures
            set_location_result(old(self)@, credentials_at(location@), result, final(self)@),
            result is Ok ==> final(self)@.credentials.can_join(),
            progresses(old(self)@, final(self)@),
            takes_location(old(self)@, location@, result, final(self)@),
    {
        self.set_parsed_location(parse_location(location))
    }

    /// Sets the credentials that a location was parsed to, and the stream if there is one among
    /// them. The error of a location that is no url is the name of the reason.
    pub fn set_parsed_location(&mut self, parsed: Result<Credentials, String>) -> (result: Result<
        (),
        LocationError,
    >)
        requires
            parsed matches Ok(credentials) ==> credentials@.can_join(),
        ensures
            set_location_result(old(self)@, found_view(parsed), result, final(self)@),
            progresses(old(self)@, final(self)@),
    {
        let credentials = match parsed {
            Ok(credentials) => credentials,
            Err(reason) => {
                return Err(LocationError::Malformed(reason));
            },
        };
        if let Some(stream_id) = credentials.stream_id() {
            if !stream_id.as_str().is_empty() {
                match self.set_stream_id(stream_id.clone()) {
                    Ok(_) => {},
                    Err(error) => {
                        return Err(error);
                    },
                }
            }
        }
        self.credentials = credentials;
        Ok(())
    }

    /// Sets the stream, unless it was set before.
    pub fn set_stream_id(&mut self, id: String) -> (result: Result<(), LocationError>)
        ensures
            set_stream_result(old(self)@, id@, result, final(self)@),
            progresses(old(self)@, final(self)@),
    {
        if self.stream_id.is_some() {
            return Err(LocationError::StreamIdSet);
        }
        self.stream_id = Some(id);
        Ok(())
    }

    /// The command that starts the helper. `beside` is the helper that lies beside the program
    /// that runs, if there is one.
    pub fn launch_child_process(
        &self,
        beside: Option<String>,
        ipc_server_name: &str,
        keys: &SessionKeys,
    ) -> (command: HelperCommand)
        ensures
            command.program@ == helper_program(opt_text(beside)),
            texts(command.args@) == helper_args(
                ipc_server_name@,
                keys@,
                self@.stream_id,
                self@.display_name,
            ),
    {
        let program = match beside {
            Some(path) => path,
            None => "gst-opentok-helper".to_owned(),
        };
        let mut args: Vec<String> = Vec::new();
        args.push("--api-key".to_owned());
        args.push(keys.api_key.clone());
        args.push("--session-id".to_owned());
        args.push(keys.session_id.clone());
        args.push("--token".to_owned());
        args.push(keys.token.clone());
        args.push("--direction".to_owned());
        args.push("sink".to_owned());
        args.push("--ipc-server".to_owned());
        args.push(ipc_server_name.to_owned());
        if let Some(stream_id) = &self.stream_id {
            args.push("--stream-id".to_owned());
            args.push(stream_id.clone());
        }
        if let Some(display_name) = &self.display_name {
            args.push("--display-name".to_owned());
            args.push(display_name.clone());
        }
        assert(texts(args@) =~= helper_args(
            ipc_server_name@,
            keys@,
            self@.stream_id,
            self@.display_name,
        ));
        HelperCommand { program, args }
    }
}

impl SinkRemoteView {
    /// What holds of the element at any time: while the IPC thread runs, there is a channel to
    /// the helper, and the session is known.
    pub open spec fn valid(self) -> bool {
        self.ipc_thread_running ==> self.ipc_connected && self.credentials.can_join()
    }
}

/// What no operation takes back: the element stays valid, a session that is known stays known,
/// and a stream that was chosen stays chosen.
pub open spec fn progresses(before: SinkRemoteView, after: SinkRemoteView) -> bool {
    &&& before.valid() ==> after.valid()
    &&& before.credentials.can_join() ==> after.credentials.can_join()
    &&& before.stream_id is Some ==> after.stream_id == before.stream_id
}

/// What the element does about a failure of the helper.
#[derive(Debug)]
pub struct CriticalError {
    /// The helper is still there, and has to be interrupted.
    pub interrupt_child: bool,
    /// The error message to post.
    pub message: String,
}

/// The text of the error message about a failure of the helper.
pub open spec fn critical_text(error: Seq<char>) -> Seq<char> {
    "Child process error "@ + error
}

/// What the element `before` does about a failure of the helper.
pub open spec fn critical_result(
    before: SinkRemoteView,
    error: Seq<char>,
    critical: CriticalError,
    after: SinkRemoteView,
) -> bool {
    &&& critical.interrupt_child == before.child_running
    &&& critical.message@ == critical_text(error)
    &&& after == SinkRemoteView { child_running: false, ..before }
}

/// When the element last heard from the helper, and last asked for a sign of life. The times are
/// nanoseconds of a clock that never goes back.
#[derive(Clone, Copy, Debug)]
pub struct IpcWatch {
    pub last_pong: u64,
    pub last_ping_sent: u64,
}

/// The whole seconds from one time to another.
pub open spec fn whole_seconds(since: u64, now: u64) -> int {
    if now >= since {
        (now - since) / 1_000_000_000
    } else {
        0
    }
}

/// The whole seconds from one time to another.
fn seconds_between(since: u64, now: u64) -> (seconds: u64)
    ensures
        seconds == whole_seconds(since, now),
{
    if now >= since {
        (now - since) / 1_000_000_000
    } else {
        0
    }
}

/// What the IPC thread does before it looks for a message.
#[derive(Clone, Copy, Debug, PartialEq, Eq, Structural)]
pub enum IpcTurn {
    /// It ends.
    Exit,
    /// It asks the helper for a sign of life.
    SendPing,
    /// Nothing.
    Listen,
}

/// What the IPC thread does about a message of the helper.
#[derive(Debug)]
pub enum IpcReaction {
    /// It goes on.
    Continue,
    /// It reports the failure and ends.
    GiveUp(CriticalError),
    /// It emits the signal about a published stream, and goes on.
    EmitPublishedStream {
        stream_id: String,
        url: String,
    },
}

/// The location of a stream that the element publishes.
pub open spec fn published_url(credentials: CredentialsView, stream_id: Seq<char>) -> Seq<char> {
    location_text(
        Protocol::OpenTok,
        credentials.session_id->0,
        Some(stream_id),
        credentials.api_key->0,
        credentials.token->0,
    )
}

/// What the IPC thread of the element `before` does about a message that comes `now`.
pub open spec fn ipc_message_result(
    before: SinkRemoteView,
    watch: IpcWatch,
    message: IpcMessage,
    now: u64,
    reaction: IpcReaction,
    after: SinkRemoteView,
    watch_after: IpcWatch,
) -> bool {
    match message {
        IpcMessage::Error(error) => {
            &&& reaction matches IpcReaction::GiveUp(critical) && critical_result(
                before,
                error@,
                critical,
                after,
            )
            &&& watch_after == watch
        },
        IpcMessage::Pong => {
            &&& reaction is Continue
            &&& after == before
            &&& watch_after == IpcWatch { last_pong: now, ..watch }
        },
        IpcMessage::PublishedStream(id) => if before.can_emit {
            &&& reaction matches IpcReaction::EmitPublishedStream { stream_id, url } && stream_id@
                == id@ && url@ == published_url(before.credentials, id@)
            &&& after == SinkRemoteView { published_stream_id: Some(id@), ..before }
            &&& watch_after == watch
        } else {
            reaction is Continue && after == before && watch_after == watch
        },
        _ => reaction is Continue && after == before && watch_after == watch,
    }
}

/// What the IPC thread of an element does before it looks for a message `now`: it ends when it
/// should not be running, and asks for a sign of life when it last did so two seconds ago.
pub open spec fn ipc_turn_result(
    element: SinkRemoteView,
    watch: IpcWatch,
    now: u64,
    turn: IpcTurn,
    watch_after: IpcWatch,
) -> bool {
    &&& turn == if !element.ipc_thread_running {
        IpcTurn::Exit
    } else if whole_seconds(watch.last_ping_sent, now) > 1 {
        IpcTurn::SendPing
    } else {
        IpcTurn::Listen
    }
    &&& watch_after == if turn is SendPing {
        IpcWatch { last_ping_sent: now, ..watch }
    } else {
        watch
    }
}

/// What the IPC thread of the element `before` does when there is no message `now`: it gives the
/// helper up, if that has not answered for more than five seconds.
pub open spec fn ipc_silence_result(
    before: SinkRemoteView,
    watch: IpcWatch,
    now: u64,
    critical: Option<CriticalError>,
    after: SinkRemoteView,
) -> bool {
    if whole_seconds(watch.last_pong, now) > 5 {
        &&& critical matches Some(critical)
        &&& critical_result(before, "No pong for 5seconds"@, critical, after)
    } else {
        critical is None && after == before
    }
}

/// What a change of state asks for, before the bin changes its state.
#[derive(Debug)]
pub enum StateWork {
    Nothing,
    /// The helper is started with these values, if there are any.
    Init(Option<SessionKeys>),
    /// The helper is told to end, if it is there to be told.
    Terminate(bool),
}

/// What a change of state makes of the element `before`. `answer` is what the room said, if the
/// element has to ask one.
pub open spec fn change_state_result(
    before: SinkRemoteView,
    change: StateChange,
    answer: Result<String, String>,
    result: Result<StateWork, LoadError>,
    after: SinkRemoteView,
) -> bool {
    match change {
        StateChange::ReadyToPaused => {
            &&& after == SinkRemoteView { credentials: after.credentials, ..before }
            &&& load_result(
                before.credentials,
                answer,
                match result {
                    Ok(_) => Ok(()),
                    Err(error) => Err(error),
                },
                after.credentials,
            )
            &&& result matches Ok(work) ==> work matches StateWork::Init(keys) && opt_keys(keys)
                == session_keys(after.credentials)
        },
        StateChange::ReadyToNull => {
            &&& result == Ok::<StateWork, LoadError>(StateWork::Terminate(before.ipc_connected))
            &&& after == torn_down(before)
        },
        _ => result == Ok::<StateWork, LoadError>(StateWork::Nothing) && after == before,
    }
}

/// The element after it has told the helper to end.
pub open spec fn torn_down(before: SinkRemoteView) -> SinkRemoteView {
    SinkRemoteView { ipc_thread_running: false, ipc_connected: false, ..before }
}

impl OpenTokSinkRemote {
    /// What to do about a failure of the helper. From here on the element has no helper.
    pub fn critical_error(&mut self, error: &str) -> (critical: CriticalError)
        ensures
            critical_result(old(self)@, error@, critical, final(self)@),
            progresses(old(self)@, final(self)@),
    {
        let interrupt_child = self.child_running;
        self.child_running = false;
        CriticalError { interrupt_child, message: join2("Child process error ", error) }
    }

    /// The command that starts the helper, if a server could be made for it to connect to.
    pub fn init(
        &self,
        ipc_server_name: Option<&str>,
        beside: Option<String>,
        keys: &SessionKeys,
    ) -> (result: Result<HelperCommand, Error>)
        ensures
            match ipc_server_name {
                None => result == Err::<HelperCommand, Error>(Error::OpenTokRemoteLaunchFailed),
                Some(name) => {
                    &&& result matches Ok(command)
                    &&& command.program@ == helper_program(opt_text(beside))
                    &&& texts(command.args@) == helper_args(
                        name@,
                        keys@,
                        self@.stream_id,
                        self@.display_name,
                    )
                },
            },
    {
        match ipc_server_name {
            None => Err(Error::OpenTokRemoteLaunchFailed),
            Some(name) => Ok(self.launch_child_process(beside, name, keys)),
        }
    }

    /// The helper was started, or could not be.
    pub fn child_spawned(&mut self, spawned: bool) -> (result: Result<(), Error>)
        ensures
            if spawned {
                result is Ok && final(self)@ == (SinkRemoteView {
                    child_running: true,
                    ..old(self)@
                })
            } else {
                result == Err::<(), Error>(Error::OpenTokRemoteLaunchFailed) && final(self)@
                    == old(self)@
            },
            progresses(old(self)@, final(self)@),
    {
        if !spawned {
            return Err(Error::OpenTokRemoteLaunchFailed);
        }
        self.child_running = true;
        Ok(())
    }

    /// The helper has connected.
    pub fn ipc_accepted(&mut self)
        ensures
            final(self)@ == (SinkRemoteView { ipc_connected: true, ..old(self)@ }),
            progresses(old(self)@, final(self)@),
    {
        self.ipc_connected = true;
    }

    /// Whether the IPC thread can start: there is a channel to the helper, and the session is
    /// known.
    pub fn ipc_ready(&self) -> (ready: bool)
        ensures
            ready == (self@.ipc_connected && self@.credentials.can_join()),
    {
        self.ipc_connected && self.credentials.api_key().is_some()
            && self.credentials.session_id().is_some() && self.credentials.token().is_some()
    }

    /// The IPC thread starts `now`.
    pub fn ipc_thread_started(&mut self, now: u64) -> (watch: IpcWatch)
        requires
            old(self)@.ipc_connected,
            old(self)@.credentials.can_join(),
        ensures
            watch == (IpcWatch { last_pong: now, last_ping_sent: now }),
            final(self)@ == (SinkRemoteView { ipc_thread_running: true, ..old(self)@ }),
            final(self)@.valid(),
            progresses(old(self)@, final(self)@),
    {
        self.ipc_thread_running = true;
        IpcWatch { last_pong: now, last_ping_sent: now }
    }

    /// What the IPC thread does before it looks for a message. A ping is only asked for when
    /// there is a channel to send it through.
    pub fn ipc_turn(&self, watch: &mut IpcWatch, now: u64) -> (turn: IpcTurn)
        requires
            self@.valid(),
        ensures
            ipc_turn_result(self@, *old(watch), now, turn, *final(watch)),
            turn is SendPing ==> self@.ipc_connected,
    {
        if !self.ipc_thread_running {
            return IpcTurn::Exit;
        }
        if seconds_between(watch.last_ping_sent, now) > 1 {
            watch.last_ping_sent = now;
            return IpcTurn::SendPing;
        }
        IpcTurn::Listen
    }

    /// What the IPC thread does about a message of the helper.
    pub fn ipc_message(
        &mut self,
        watch: &mut IpcWatch,
        message: IpcMessage,
        now: u64,
    ) -> (reaction: IpcReaction)
        requires
            message is PublishedStream && old(self)@.can_emit
                ==> old(self)@.credentials.can_join(),
        ensures
            ipc_message_result(
                old(self)@,
                *old(watch),
                message,
                now,
                reaction,
                final(self)@,
                *final(watch),
            ),
            progresses(old(self)@, final(self)@),
    {
        match message {
            IpcMessage::Error(error) => IpcReaction::GiveUp(self.critical_error(error.as_str())),
            IpcMessage::Pong => {
                watch.last_pong = now;
                IpcReaction::Continue
            },
            IpcMessage::PublishedStream(stream_id) => {
                if self.can_emit {
                    let url = location(
                        Protocol::OpenTok,
                        self.credentials.session_id().unwrap().as_str(),
                        Some(stream_id.as_str()),
                        self.credentials.api_key().unwrap().as_str(),
                        self.credentials.token().unwrap().as_str(),
                    );
                    self.published_stream_id = Some(stream_id.clone());
                    IpcReaction::EmitPublishedStream { stream_id, url }
                } else {
                    IpcReaction::Continue
                }
            },
            _ => IpcReaction::Continue,
        }
    }

    /// What the IPC thread does when there is no message: it gives up, if the helper has not
    /// answered a ping for more than five seconds.
    pub fn ipc_silence(&mut self, watch: &IpcWatch, now: u64) -> (critical: Option<CriticalError>)
        ensures
            ipc_silence_result(old(self)@, *watch, now, critical, final(self)@),
            progresses(old(self)@, final(self)@),
    {
        if seconds_between(watch.last_pong, now) > 5 {
            Some(self.critical_error("No pong for 5seconds"))
        } else {
            None
        }
    }

    /// The values to start the helper with, if all of them are known.
    pub fn maybe_init(&self) -> (keys: Option<SessionKeys>)
        ensures
            opt_keys(keys) == session_keys(self@.credentials),
    {
        keys_of(&self.credentials)
    }

    /// Ends the IPC thread. Returns whether the helper is there to be told to end.
    pub fn teardown(&mut self) -> (terminate: bool)
        ensures
            terminate == old(self)@.ipc_connected,
            final(self)@ == torn_down(old(self)@),
            progresses(old(self)@, final(self)@),
    {
        self.ipc_thread_running = false;
        let terminate = self.ipc_connected;
        self.ipc_connected = false;
        terminate
    }

    /// The element goes away. Returns whether the helper is there to be told to end, and whether
    /// it is there to be interrupted.
    pub fn dispose(&mut self) -> (left: (bool, bool))
        ensures
            left == (old(self)@.ipc_connected, old(self)@.child_running),
            final(self)@ == (SinkRemoteView { child_running: false, ..torn_down(old(self)@) }),
            progresses(old(self)@, final(self)@),
    {
        let terminate = self.teardown();
        let interrupt = self.child_running;
        self.child_running = false;
        (terminate, interrupt)
    }

    /// The url to ask for the credentials before this change of state, if there is one.
    pub fn wanted_info(&self, change: StateChange) -> (url: Option<String>)
        ensures
            opt_text(url) == if change is ReadyToPaused && self@.credentials.room_uri is Some {
                Some(info_text(self@.credentials.room_uri->0))
            } else {
                None
            },
    {
        match change {
            StateChange::ReadyToPaused => self.credentials.info_url(),
            _ => None,
        }
    }

    /// What a change of state asks for, before the bin changes its state.
    pub fn change_state(&mut self, change: StateChange, answer: Result<String, String>) -> (result:
        Result<StateWork, LoadError>)
        ensures
            change_state_result(old(self)@, change, answer, result, final(self)@),
            change is ReadyToPaused ==> takes_answer(
                old(self)@.credentials,
                answer,
                match result {
                    Ok(_) => Ok(()),
                    Err(error) => Err(error),
                },
                final(self)@.credentials,
            ),
            progresses(old(self)@, final(self)@),
    {
        match change {
            StateChange::ReadyToPaused => {
                match self.credentials.load(answer) {
                    Ok(_) => Ok(StateWork::Init(self.maybe_init())),
                    Err(error) => Err(error),
                }
            },
            StateChange::ReadyToNull => Ok(StateWork::Terminate(self.teardown())),
            _ => Ok(StateWork::Nothing),
        }
    }

    /// Whether a message of what is in the bin is passed on: an error is not, when the IPC thread
    /// is not running.
    pub fn handle_message(&self, is_error: bool) -> (forward: bool)
        ensures
            forward == !(is_error && !self@.ipc_thread_running),
    {
        !(is_error && !self.ipc_thread_running)
    }

    /// The protocols that the element handles.
    pub fn protocols() -> (protocols: Vec<&'static str>)
        ensures
            protocols@ == seq!["opentok-remote"],
    {
        let mut protocols: Vec<&'static str> = Vec::new();
        protocols.push("opentok-remote");
        protocols
    }

    /// The uri of the session.
    pub fn uri(&self) -> (uri: Option<String>)
        ensures
            opt_text(uri) == public_location(self@.credentials),
    {
        self.location()
    }

    /// Sets the location. Returns the values to start the helper with, which are then known.
    pub fn set_uri(&mut self, uri: &str) -> (result: Result<Option<SessionKeys>, LocationError>)
        ensures
            set_location_result(
                old(self)@,
                credentials_at(uri@),
                match result {
                    Ok(_) => Ok(()),
                    Err(error) => Err(error),
                },
                final(self)@,
            ),
            takes_location(
                old(self)@,
                uri@,
                match result {
                    Ok(_) => Ok(()),
                    Err(error) => Err(error),
                },
                final(self)@,
            ),
            result matches Ok(keys) ==> keys is Some && opt_keys(keys) == session_keys(
                final(self)@.credentials,
            ),
            progresses(old(self)@, final(self)@),
    {
        match self.set_location(uri) {
            Ok(_) => Ok(self.maybe_init()),
            Err(error) => Err(error),
        }
    }
}

/// The properties of the element.
pub open spec fn sink_remote_properties() -> Seq<PropertySpec> {
    seq![
        PropertySpec {
            name: "location",
            blurb: Some(
                "OpenTok session location (i.e. opentok-remote://<session id>/key=<api key>&token=<token>)",
            ),
            kind: PropertyKind::Text,
            writable: true,
        },
        PropertySpec {
            name: "stream-id",
            blurb: Some("Unique identifier of the OpenTok stream this sink is publishing"),
            kind: PropertyKind::Text,
            writable: false,
        },
        PropertySpec {
            name: "demo-room-uri",
            blurb: Some(
                "URI of the opentok demo room, eg. https://opentokdemo.tokbox.com/room/rust345",
            ),
            kind: PropertyKind::Text,
            writable: true,
        },
        PropertySpec {
            name: "display-name",
            blurb: Some("Peer display name"),
            kind: PropertyKind::Text,
            writable: true,
        },
    ]
}

/// The names of the properties that can be set.
pub open spec fn settable(name: Seq<char>) -> bool {
    name == "location"@ || name == "demo-room-uri"@ || name == "display-name"@
}

/// The names of the properties that can be read.
pub open spec fn readable(name: Seq<char>) -> bool {
    settable(name) || name == "stream-id"@
}

/// The property takes a text that is there.
pub open spec fn needs_text(name: Seq<char>) -> bool {
    name != "display-name"@
}

/// The element can set and read exactly the properties that it declares, and sets none that it
/// declares as read-only.
pub proof fn lemma_properties_handled(name: Seq<char>)
    ensures
        declares_writable(sink_remote_properties(), name) <==> settable(name),
        declares(sink_remote_properties(), name) <==> readable(name),
{
    let properties = sink_remote_properties();
    assert(properties[0].name@ == "location"@);
    assert(properties[1].name@ == "stream-id"@);
    assert(properties[2].name@ == "demo-room-uri"@);
    assert(properties[3].name@ == "display-name"@);
}

/// The result of a location that was set as a property.
pub open spec fn location_result(result: Result<(), PropertyError>) -> Result<(), LocationError> {
    match result {
        Err(PropertyError::Location(error)) => Err(error),
        _ => Ok(()),
    }
}

/// What setting a property makes of the element `before`.
pub open spec fn set_property_result(
    before: SinkRemoteView,
    name: Seq<char>,
    value: Option<Seq<char>>,
    result: Result<(), PropertyError>,
    after: SinkRemoteView,
) -> bool {
    if name == "location"@ {
        match result {
            Ok(_) => set_location_result(before, credentials_at(value->0), Ok(()), after),
            Err(PropertyError::Location(error)) => set_location_result(
                before,
                credentials_at(value->0),
                Err(error),
                after,
            ),
            Err(PropertyError::Credentials(_)) => false,
        }
    } else if name == "demo-room-uri"@ {
        &&& after == SinkRemoteView { credentials: after.credentials, ..before }
        &&& match result {
            Ok(_) => set_room_result(
                before.credentials,
                url_of(value->0),
                Ok(()),
                after.credentials,
            ),
            Err(PropertyError::Credentials(error)) => set_room_result(
                before.credentials,
                url_of(value->0),
                Err(error),
                after.credentials,
            ),
            Err(PropertyError::Location(_)) => false,
        }
    } else {
        result is Ok && after == SinkRemoteView { display_name: value, ..before }
    }
}

/// The value of a property of the element.
pub open spec fn property_text(element: SinkRemoteView, name: Seq<char>) -> Option<Seq<char>> {
    if name == "location"@ {
        public_location(element.credentials)
    } else if name == "stream-id"@ {
        match element.published_stream_id {
            Some(id) => Some(id),
            None => Some(""@),
        }
    } else if name == "demo-room-uri"@ {
        match element.credentials.room_uri {
            Some(uri) => Some(uri.text),
            None => None,
        }
    } else {
        element.display_name
    }
}

impl OpenTokSinkRemote {
    /// The properties of the element.
    pub fn properties() -> (properties: Vec<PropertySpec>)
        ensures
            properties@ == sink_remote_properties(),
    {
        let mut properties: Vec<PropertySpec> = Vec::new();
        properties.push(
            PropertySpec {
                name: "location",
                blurb: Some(
                    "OpenTok session location (i.e. opentok-remote://<session id>/key=<api key>&token=<token>)",
                ),
                kind: PropertyKind::Text,
                writable: true,
            },
        );
        properties.push(
            PropertySpec {
                name: "stream-id",
                blurb: Some("Unique identifier of the OpenTok stream this sink is publishing"),
                kind: PropertyKind::Text,
                writable: false,
            },
        );
        properties.push(
            PropertySpec {
                name: "demo-room-uri",
                blurb: Some(
                    "URI of the opentok demo room, eg. https://opentokdemo.tokbox.com/room/rust345",
                ),
                kind: PropertyKind::Text,
                writable: true,
            },
        );
        properties.push(
            PropertySpec {
                name: "display-name",
                blurb: Some("Peer display name"),
                kind: PropertyKind::Text,
                writable: true,
            },
        );
        assert(properties@ =~= sink_remote_properties());
        properties
    }

    /// Sets a property.
    pub fn set_property(&mut self, name: &str, value: Option<String>) -> (result: Result<
        (),
        PropertyError,
    >)
        requires
            settable(name@),
            needs_text(name@) ==> value is Some,
        ensures
            set_property_result(old(self)@, name@, opt_text(value), result, final(self)@),
            progresses(old(self)@, final(self)@),
            name@ == "location"@ ==> takes_location(
                old(self)@,
                value->0@,
                location_result(result),
                final(self)@,
            ),
    {
        if same(name, "location") {
            proof {
                lemma_property_names_differ();
            }
            match self.set_location(value.unwrap().as_str()) {
                Ok(_) => Ok(()),
                Err(error) => Err(PropertyError::Location(error)),
            }
        } else if same(name, "demo-room-uri") {
            proof {
                lemma_property_names_differ();
            }
            match self.credentials.set_room_uri(value.unwrap()) {
                Ok(_) => Ok(()),
                Err(error) => Err(PropertyError::Credentials(error)),
            }
        } else {
            self.display_name = value;
            Ok(())
        }
    }

    /// The value of a property.
    pub fn property(&self, name: &str) -> (value: Option<String>)
        requires
            readable(name@),
        ensures
            opt_text(value) == property_text(self@, name@),
    {
        if same(name, "location") {
            self.location()
        } else if same(name, "stream-id") {
            match &self.published_stream_id {
                Some(id) => Some(id.clone()),
                None => Some("".to_owned()),
            }
        } else if same(name, "demo-room-uri") {
            match self.credentials.room_uri() {
                Some(uri) => Some(uri.text.clone()),
                None => None,
            }
        } else {
            copy_opt(&self.display_name)
        }
    }

    /// The signal about a published stream. It carries the identifier of the stream and its
    /// location.
    pub fn signals() -> (signals: Vec<(&'static str, usize)>)
        ensures
            signals@ == seq![("published-stream", 2usize)],
    {
        let mut signals: Vec<(&'static str, usize)> = Vec::new();
        signals.push(("published-stream", 2));
        signals
    }

    /// What the element says of itself.
    pub fn metadata() -> (metadata: Metadata)
        ensures
            metadata == (Metadata {
                long_name: "OpenTok Sink Remote",
                classification: "Sink/Network",
                description:
                    "Send audio and video streams to an OpenTok session in a separate process",
                author: "Philippe Normand <philn@igalia.com>",
            }),
    {
        Metadata {
            long_name: "OpenTok Sink Remote",
            classification: "Sink/Network",
            description: "Send audio and video streams to an OpenTok session in a separate process",
            author: "Philippe Normand <philn@igalia.com>",
        }
    }

    /// The templates of the pads of the element.
    pub fn pad_templates() -> (templates: Vec<PadTemplate>)
        ensures
            templates@.len() == 2,
            templates@[0]@ == (PadTemplateView {
                name: StreamType::Video.pad_text(),
                direction: PadDirection::Sink,
                presence: Presence::Request,
                caps: video_caps(),
            }),
            templates@[1]@ == (PadTemplateView {
                name: StreamType::Audio.pad_text(),
                direction: PadDirection::Sink,
                presence: Presence::Request,
                caps: audio_caps(),
            }),
    {
        let (video, audio) = caps();
        let mut templates: Vec<PadTemplate> = Vec::new();
        templates.push(
            PadTemplate {
                name: "video_sink",
                direction: PadDirection::Sink,
                presence: Presence::Request,
                caps: video,
            },
        );
        templates.push(
            PadTemplate {
                name: "audio_sink",
                direction: PadDirection::Sink,
                presence: Presence::Request,
                caps: audio,
            },
        );
        templates
    }
}

/// The name of no property is that of another.
pub proof fn lemma_property_names_differ()
    ensures
        "location"@ != "display-name"@,
        "demo-room-uri"@ != "display-name"@,
        "location"@ != "demo-room-uri"@,
        "stream-id"@ != "location"@,
        "stream-id"@ != "demo-room-uri"@,
        "stream-id"@ != "display-name"@,
{
    reveal_strlit("location");
    reveal_strlit("demo-room-uri");
    reveal_strlit("display-name");
    reveal_strlit("stream-id");
    assert("stream-id"@.len() == 9);
    assert("location"@.len() == 8);
    assert("demo-room-uri"@.len() == 13);
    assert("display-name"@.len() == 12);
}

/// The element with or without a bin for the stream.
pub open spec fn with_bin(
    before: SinkRemoteView,
    stream_type: StreamType,
    bin: bool,
) -> SinkRemoteView {
    match stream_type {
        StreamType::Audio => SinkRemoteView { audio_bin: bin, ..before },
        StreamType::Video => SinkRemoteView { video_bin: bin, ..before },
        StreamType::Unknown => before,
    }
}

/// The element has a bin for the stream.
pub open spec fn has_bin(element: SinkRemoteView, stream_type: StreamType) -> bool {
    match stream_type {
        StreamType::Audio => element.audio_bin,
        StreamType::Video => element.video_bin,
        StreamType::Unknown => false,
    }
}

/// The medium of a known stream.
pub open spec fn stream_media(stream_type: StreamType) -> Media {
    match stream_type {
        StreamType::Audio => Media::Audio,
        _ => Media::Video,
    }
}

/// How a new pad is set up: a bin with a queue and a shared memory sink behind it.
pub open spec fn request_plan() -> Seq<Planned> {
    seq![
        must(Step::Make(Node::Bin, Name::Prefixed("bin_"))),
        or_fail(Step::Make(Node::Queue, Name::Unnamed), Fault::MissingElement("queue")),
        or_fail(Step::Make(Node::ShmSink, Name::Prefixed("sink_")), Fault::MissingElement("shmsink")),
        must(Step::SetSocketPath(Node::ShmSink)),
        must(Step::SetFlag(Node::ShmSink, "enable-last-sample", false)),
        must(Step::Add(Node::Bin, Node::Queue)),
        must(Step::Add(Node::Bin, Node::ShmSink)),
        must(Step::Link(Node::Queue, Node::ShmSink)),
        must(Step::StaticPad(Pad::QueueSink)),
        must(Step::GhostPad(Pad::BinSink, Name::Unnamed, Pad::QueueSink)),
        must(Step::ActivatePad(Pad::BinSink, true)),
        or_fail(Step::AddPad(Node::Bin, Pad::BinSink), Fault::AddElement("bin sink pad")),
        or_fail(Step::Add(Node::Element, Node::Bin), Fault::AddElement("bin sink pad")),
        must(Step::SyncState(Node::Bin)),
        must(Step::TemplatePad(Pad::Exposed, Name::OfPad)),
        or_fail(Step::SetTarget(Pad::Exposed, Pad::BinSink), Fault::TemplatePad("shm_bin_sink")),
        must(Step::ActivatePad(Pad::Exposed, true)),
        or_fail(Step::AddPad(Node::Element, Pad::Exposed), Fault::AddElement("bin sink pad")),
        must(Step::WatchCaps(Pad::Exposed)),
    ]
}

/// How a pad goes away, with its bin if `bin` says that there is one to take out.
pub open spec fn release_plan(bin: bool) -> Seq<Planned> {
    if bin {
        seq![
            must(Step::SetState(Node::Bin, State::Null)),
            may(Step::AwaitState(Node::Bin)),
            may(Step::Remove(Node::Element, Node::Bin)),
            may(Step::RemovePad(Node::Element, Pad::Given)),
        ]
    } else {
        seq![may(Step::RemovePad(Node::Element, Pad::Given))]
    }
}

/// The plan for a new pad uses nothing that it has not made before.
pub proof fn lemma_request_plan_in_order()
    ensures
        in_order(request_plan(), 0, set![Node::Element], Set::empty()),
{
    reveal_with_fuel(in_order, 20);
}

/// The plan for a released pad uses nothing but the element, the bin and the pad.
pub proof fn lemma_release_plan_in_order(bin: bool)
    ensures
        in_order(
            release_plan(bin),
            0,
            if bin {
                set![Node::Element, Node::Bin]
            } else {
                set![Node::Element]
            },
            set![Pad::Given],
        ),
{
    reveal_with_fuel(in_order, 5);
}

/// The element holds after the release of a pad what it held before the request: the bin, with all
/// that is in it, and the pad are what the one plan puts in and the other takes out. The pad that
/// was exposed is the one that is given for release.
pub proof fn lemma_release_plan_undoes_request_plan(before: Contents)
    requires
        !before.nodes.contains(Node::Bin),
        !before.pads.contains(Pad::Exposed),
        !before.pads.contains(Pad::Given),
    ensures
        contents_after(request_plan(), 0, Node::Element, before) == (Contents {
            nodes: before.nodes.insert(Node::Bin),
            pads: before.pads.insert(Pad::Exposed),
        }),
        contents_after(
            release_plan(true),
            0,
            Node::Element,
            contents_after(request_plan(), 0, Node::Element, before).pad_as(
                Pad::Exposed,
                Pad::Given,
            ),
        ) == before,
{
    reveal_with_fuel(contents_after, 20);
    assert(before.nodes.insert(Node::Bin).remove(Node::Bin) =~= before.nodes);
    assert(before.pads.insert(Pad::Exposed).remove(Pad::Exposed).insert(Pad::Given).remove(
        Pad::Given,
    ) =~= before.pads);
}

impl OpenTokSinkRemote {
    /// The plan for a new pad. The name of the pad is that of the stream.
    pub fn request_new_pad(&mut self, stream_type: StreamType) -> (plan: Vec<Planned>)
        requires
            !(stream_type is Unknown),
        ensures
            plan@ == request_plan(),
            final(self)@ == with_bin(old(self)@, stream_type, true),
            progresses(old(self)@, final(self)@),
    {
        match stream_type {
            StreamType::Audio => {
                self.audio_bin = true;
            },
            StreamType::Video => {
                self.video_bin = true;
            },
            StreamType::Unknown => {},
        }
        let sink_pad = OnFailure::Report(Fault::AddElement("bin sink pad"));
        let mut plan: Vec<Planned> = Vec::new();
        schedule(&mut plan, Step::Make(Node::Bin, Name::Prefixed("bin_")), OnFailure::Abort);
        schedule(
            &mut plan,
            Step::Make(Node::Queue, Name::Unnamed),
            OnFailure::Report(Fault::MissingElement("queue")),
        );
        schedule(
            &mut plan,
            Step::Make(Node::ShmSink, Name::Prefixed("sink_")),
            OnFailure::Report(Fault::MissingElement("shmsink")),
        );
        schedule(&mut plan, Step::SetSocketPath(Node::ShmSink), OnFailure::Abort);
        schedule(
            &mut plan,
            Step::SetFlag(Node::ShmSink, "enable-last-sample", false),
            OnFailure::Abort,
        );
        schedule(&mut plan, Step::Add(Node::Bin, Node::Queue), OnFailure::Abort);
        schedule(&mut plan, Step::Add(Node::Bin, Node::ShmSink), OnFailure::Abort);
        schedule(&mut plan, Step::Link(Node::Queue, Node::ShmSink), OnFailure::Abort);
        schedule(&mut plan, Step::StaticPad(Pad::QueueSink), OnFailure::Abort);
        schedule(
            &mut plan,
            Step::GhostPad(Pad::BinSink, Name::Unnamed, Pad::QueueSink),
            OnFailure::Abort,
        );
        schedule(&mut plan, Step::ActivatePad(Pad::BinSink, true), OnFailure::Abort);
        schedule(&mut plan, Step::AddPad(Node::Bin, Pad::BinSink), sink_pad);
        schedule(&mut plan, Step::Add(Node::Element, Node::Bin), sink_pad);
        schedule(&mut plan, Step::SyncState(Node::Bin), OnFailure::Abort);
        schedule(&mut plan, Step::TemplatePad(Pad::Exposed, Name::OfPad), OnFailure::Abort);
        schedule(
            &mut plan,
            Step::SetTarget(Pad::Exposed, Pad::BinSink),
            OnFailure::Report(Fault::TemplatePad("shm_bin_sink")),
        );
        schedule(&mut plan, Step::ActivatePad(Pad::Exposed, true), OnFailure::Abort);
        schedule(&mut plan, Step::AddPad(Node::Element, Pad::Exposed), sink_pad);
        schedule(&mut plan, Step::WatchCaps(Pad::Exposed), OnFailure::Abort);
        assert(plan@ =~= request_plan());
        plan
    }

    /// The message to the helper when the stream of a pad has new capabilities. There is none, if
    /// there is no channel to the helper; what was announced is remembered all the same.
    pub fn caps_changed(
        &self,
        announcer: &mut SocketAnnouncer,
        stream_type: StreamType,
        caps: String,
        pad: String,
    ) -> (message: Option<IpcMessage>)
        requires
            !(stream_type is Unknown),
        ensures
            message == if self@.ipc_connected {
                Some(
                    stream_media(stream_type).message(
                        caps_data(old(announcer).socket_path, old(announcer).prev_caps, caps, pad),
                    ),
                )
            } else {
                None
            },
            *final(announcer) == (SocketAnnouncer {
                socket_path: old(announcer).socket_path,
                prev_caps: Some(caps),
            }),
    {
        let media = match stream_type {
            StreamType::Audio => Media::Audio,
            _ => Media::Video,
        };
        let message = announcer.announce(media, caps, pad);
        if self.ipc_connected {
            Some(message)
        } else {
            None
        }
    }

    /// The plan for a pad that is no longer wanted. `attached` tells whether the bin of its
    /// stream is in the element. From here on the element has no bin for the stream.
    pub fn release_pad(&mut self, pad: &str, attached: bool) -> (plan: Vec<Planned>)
        requires
            !(StreamType::of_pad(pad@) is Unknown),
        ensures
            plan@ == release_plan(has_bin(old(self)@, StreamType::of_pad(pad@)) && attached),
            final(self)@ == with_bin(old(self)@, StreamType::of_pad(pad@), false),
            progresses(old(self)@, final(self)@),
    {
        let bin = match StreamType::from(pad) {
            StreamType::Audio => {
                let bin = self.audio_bin;
                self.audio_bin = false;
                bin
            },
            StreamType::Video => {
                let bin = self.video_bin;
                self.video_bin = false;
                bin
            },
            StreamType::Unknown => false,
        };
        let mut plan: Vec<Planned> = Vec::new();
        if bin && attached {
            schedule(&mut plan, Step::SetState(Node::Bin, State::Null), OnFailure::Abort);
            schedule(&mut plan, Step::AwaitState(Node::Bin), OnFailure::Ignore);
            schedule(&mut plan, Step::Remove(Node::Element, Node::Bin), OnFailure::Ignore);
        }
        schedule(&mut plan, Step::RemovePad(Node::Element, Pad::Given), OnFailure::Ignore);
        assert(plan@ =~= release_plan(bin && attached));
        plan
    }
}

/// A pad that is released after it was requested leaves the element as it was, if there was no
/// bin for its stream before. To release it again takes out nothing but the pad.
pub proof fn lemma_release_undoes_request(before: SinkRemoteView, stream_type: StreamType)
    requires
        !has_bin(before, stream_type),
    ensures
        with_bin(with_bin(before, stream_type, true), stream_type, false) == before,
        !has_bin(with_bin(before, stream_type, false), stream_type),
{
}

/// What the IPC thread hears when it listens.
pub enum Heard {
    /// An answer to a ping.
    Pong,
    /// Another message.
    Message,
    /// Nothing.
    Nothing,
}

/// What the IPC thread hears at a time.
pub struct Poll {
    pub at: u64,
    pub heard: Heard,
}

/// What a message is to the IPC thread.
pub open spec fn heard_in(message: IpcMessage) -> Heard {
    if message is Pong {
        Heard::Pong
    } else {
        Heard::Message
    }
}

/// When the helper last answered, after these polls. At first that is the start of the thread.
pub open spec fn last_pong_after(start: u64, polls: Seq<Poll>) -> u64
    decreases polls.len(),
{
    if polls.len() == 0 {
        start
    } else if polls.last().heard is Pong {
        polls.last().at
    } else {
        last_pong_after(start, polls.drop_last())
    }
}

/// The watch of the IPC thread, which began at `start`, is the one after these polls.
pub open spec fn watches(watch: IpcWatch, start: u64, polls: Seq<Poll>) -> bool {
    watch.last_pong == last_pong_after(start, polls)
}

/// The IPC thread begins without having polled, and keeps watch of all that it hears: whatever it
/// does before it listens, whatever message comes, and when none does. It gives a silent helper up
/// exactly when the polls say so.
pub proof fn lemma_watch_follows_polls(
    element: SinkRemoteView,
    watch: IpcWatch,
    start: u64,
    polls: Seq<Poll>,
    now: u64,
)
    requires
        watches(watch, start, polls),
    ensures
        watches(IpcWatch { last_pong: start, last_ping_sent: start }, start, Seq::empty()),
        forall|turn: IpcTurn, watch_after: IpcWatch| #[trigger]
            ipc_turn_result(element, watch, now, turn, watch_after) ==> watches(
                watch_after,
                start,
                polls,
            ),
        forall|
            message: IpcMessage,
            reaction: IpcReaction,
            after: SinkRemoteView,
            watch_after: IpcWatch,
        | #[trigger]
            ipc_message_result(element, watch, message, now, reaction, after, watch_after)
                ==> watches(
                watch_after,
                start,
                polls.push(Poll { at: now, heard: heard_in(message) }),
            ),
        watches(watch, start, polls.push(Poll { at: now, heard: Heard::Nothing })),
        forall|critical: Option<CriticalError>, after: SinkRemoteView| #[trigger]
            ipc_silence_result(element, watch, now, critical, after) ==> (critical is Some
                <==> gives_up_at(
                start,
                polls.push(Poll { at: now, heard: Heard::Nothing }),
                polls.len() as int,
            )),
{
    let silent = polls.push(Poll { at: now, heard: Heard::Nothing });
    assert(silent.drop_last() =~= polls);
    assert(silent.take(polls.len() as int) =~= polls);
    assert forall|
        message: IpcMessage,
        reaction: IpcReaction,
        after: SinkRemoteView,
        watch_after: IpcWatch,
    | #[trigger]
        ipc_message_result(
            element,
            watch,
            message,
            now,
            reaction,
            after,
            watch_after,
        ) implies watches(
        watch_after,
        start,
        polls.push(Poll { at: now, heard: heard_in(message) }),
    ) by {
        assert(polls.push(Poll { at: now, heard: heard_in(message) }).drop_last() =~= polls);
    }
}

/// The thread gives the helper up at the poll `i`.
pub open spec fn gives_up_at(start: u64, polls: Seq<Poll>, i: int) -> bool {
    &&& polls[i].heard is Nothing
    &&& whole_seconds(last_pong_after(start, polls.take(i)), polls[i].at) > 5
}

/// The polls follow each other in time.
pub open spec fn in_time(start: u64, polls: Seq<Poll>) -> bool {
    &&& forall|i: int| 0 <= i < polls.len() ==> start <= (#[trigger] polls[i]).at
    &&& forall|i: int, j: int|
        0 <= i <= j < polls.len() ==> (#[trigger] polls[i]).at <= (#[trigger] polls[j]).at
}

/// The time of the last answer is that of an answer, or of the start, and no answer is later.
pub proof fn lemma_last_pong(start: u64, polls: Seq<Poll>)
    requires
        in_time(start, polls),
    ensures
        start <= last_pong_after(start, polls),
        forall|i: int|
            0 <= i < polls.len() && (#[trigger] polls[i]).heard is Pong ==> polls[i].at
                <= last_pong_after(start, polls),
        last_pong_after(start, polls) == start || exists|i: int|
            0 <= i < polls.len() && (#[trigger] polls[i]).heard is Pong && polls[i].at
                == last_pong_after(start, polls),
    decreases polls.len(),
{
    if polls.len() > 0 {
        let rest = polls.drop_last();
        assert forall|i: int| 0 <= i < rest.len() implies #[trigger] rest[i] == polls[i] by {}
        assert(polls[polls.len() - 1] == polls.last());
        assert(in_time(start, rest)) by {
            assert forall|i: int| 0 <= i < rest.len() implies start <= (#[trigger] rest[i]).at by {
                assert(start <= polls[i].at);
            }
            assert forall|i: int, j: int| 0 <= i <= j < rest.len() implies (#[trigger] rest[i]).at
                <= (#[trigger] rest[j]).at by {
                assert(polls[i].at <= polls[j].at);
            }
        }
        lemma_last_pong(start, rest);
        if !(polls.last().heard is Pong) {
            assert forall|i: int|
                0 <= i < polls.len() && (#[trigger] polls[i]).heard is Pong implies polls[i].at
                <= last_pong_after(start, polls) by {
                assert(rest[i].heard is Pong);
            }
            if last_pong_after(start, rest) != start {
                let i = choose|i: int|
                    0 <= i < rest.len() && (#[trigger] rest[i]).heard is Pong && rest[i].at
                        == last_pong_after(start, rest);
                assert(polls[i].heard is Pong);
            }
        }
    }
}

/// The helper is given up exactly when it is silent: at a poll at which there is nothing to hear,
/// and six seconds or more have passed since the start of the thread and since every answer
/// before.
pub proof fn lemma_gives_up_only_on_silence(start: u64, polls: Seq<Poll>, i: int)
    requires
        in_time(start, polls),
        0 <= i < polls.len(),
    ensures
        gives_up_at(start, polls, i) <==> {
            &&& polls[i].heard is Nothing
            &&& polls[i].at - start >= 6_000_000_000
            &&& forall|j: int|
                0 <= j < i && (#[trigger] polls[j]).heard is Pong ==> polls[i].at - polls[j].at
                    >= 6_000_000_000
        },
{
    let before = polls.take(i);
    assert forall|j: int| 0 <= j < before.len() implies #[trigger] before[j] == polls[j] by {}
    assert(in_time(start, before)) by {
        assert forall|j: int| 0 <= j < before.len() implies start <= (#[trigger] before[j]).at by {
            assert(start <= polls[j].at);
        }
        assert forall|j: int, k: int| 0 <= j <= k < before.len() implies (#[trigger] before[j]).at
            <= (#[trigger] before[k]).at by {
            assert(polls[j].at <= polls[k].at);
        }
    }
    lemma_last_pong(start, before);
    let last = last_pong_after(start, before);
    if last != start {
        let j = choose|j: int|
            0 <= j < before.len() && (#[trigger] before[j]).heard is Pong && before[j].at == last;
        assert(polls[j].heard is Pong && polls[j].at <= polls[i].at);
    }
    assert(start <= polls[i].at);
    if gives_up_at(start, polls, i) {
        assert forall|j: int| 0 <= j < i && (#[trigger] polls[j]).heard is Pong implies polls[i].at
            - polls[j].at >= 6_000_000_000 by {
            assert(before[j].heard is Pong);
        }
    }
}

} // verus!
