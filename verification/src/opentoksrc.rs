//! The source element that subscribes to the streams of a session.

use crate::common::credentials::credentials_at;
use crate::common::credentials::found_view;
use crate::common::credentials::info_text;
use crate::common::credentials::load_result;
use crate::common::credentials::location_credentials;
use crate::common::credentials::parse_location;
use crate::common::credentials::set_result;
use crate::common::credentials::set_room_result;
use crate::common::credentials::takes_answer;
use crate::common::credentials::CredentialsError;
use crate::common::credentials::CredentialsView;
use crate::common::credentials::Field;
use crate::common::credentials::LoadError;
use crate::common::error::Error;
use crate::common::format::audio_caps;
use crate::common::format::caps;
use crate::common::format::video_caps;
use crate::common::url::location_text;
use crate::common::url::plain_location;
use crate::common::url::url_of;
use crate::common::url::Protocol;
use crate::common::Credentials;
use crate::element::declares;
use crate::element::declares_writable;
use crate::element::keys_of;
use crate::element::location_of;
use crate::element::names_stream;
use crate::element::public_location;
use crate::element::session_keys;
use crate::element::LocationError;
use crate::element::Metadata;
use crate::element::PadDirection;
use crate::element::PadTemplate;
use crate::element::PadTemplateView;
use crate::element::Presence;
use crate::element::PropertyError;
use crate::element::PropertyKind;
use crate::element::PropertySpec;
use crate::element::PropertyValue;
use crate::element::PropertyView;
use crate::element::SessionKeys;
use crate::element::StateChange;
use crate::opentoksink_remote::published_url;
use crate::plan::contents_after;
use crate::plan::in_order;
use crate::plan::may;
use crate::plan::must;
use crate::plan::or_fail;
use crate::plan::schedule;
use crate::plan::static_pad;
use crate::plan::Contents;
use crate::plan::Fault;
use crate::plan::Name;
use crate::plan::Node;
use crate::plan::OnFailure;
use crate::plan::Pad;
use crate::plan::Planned;
use crate::plan::State;
use crate::plan::Step;
use crate::subscribers::generate_video_pad_name;
use crate::subscribers::video_pad_text;
use crate::subscribers::Subscribers;
use crate::text::join2;
use crate::text::opt_ref_text;
use crate::text::opt_text;
use crate::text::same;
use crate::text::texts;
use vstd::prelude::*;

verus! {

/// What the source element knows, apart from the GStreamer objects and the session itself.
#[derive(Debug)]
pub struct OpenTokSrc {
    /// OpenTok session credentials (API key, session ID and token).
    credentials: Credentials,
    /// Whether there is a session.
    /// Every Vonage Video API video chat occurs within a session.
    /// You can think of a session as a "room" where clients can interact
    /// with one another in real-time.
    session: bool,
    /// OpenTok Stream identifier.
    /// We will be connecting to this stream only.
    stream_id: Option<String>,
    /// The streams that have a subscriber.
    /// There is one per each stream that is created in the
    /// session, unless `stream_id` is set, in which case there is a single subscriber
    /// for that specific stream.
    subscribers: Subscribers,
}

/// What an [`OpenTokSrc`] holds.
#[verifier::ext_equal]
pub struct SrcView {
    pub credentials: CredentialsView,
    pub session: bool,
    pub stream_id: Option<Seq<char>>,
    pub subscribers: Set<Seq<char>>,
}

impl View for OpenTokSrc {
    type V = SrcView;

    closed spec fn view(&self) -> SrcView {
        SrcView {
            credentials: self.credentials@,
            session: self.session,
            stream_id: opt_text(self.stream_id),
            subscribers: self.subscribers@,
        }
    }
}

impl SrcView {
    /// The element wants this stream: it is the chosen one, or none is chosen.
    pub open spec fn accepts(self, stream_id: Seq<char>) -> bool {
        self.stream_id is None || self.stream_id == Some(stream_id)
    }
}

/// What no operation takes back: a session that is known stays known, and one that was joined
/// stays joined.
pub open spec fn progresses(before: SrcView, after: SrcView) -> bool {
    &&& before.credentials.can_join() ==> after.credentials.can_join()
    &&& before.session ==> after.session
}

/// What setting the location makes of the element `before`: it is refused if and only if a room
/// was set, or the location is no url. A stream in the location replaces the one chosen before.
pub open spec fn set_location_result(
    before: SrcView,
    parsed: Result<CredentialsView, Seq<char>>,
    result: Result<(), LocationError>,
    after: SrcView,
) -> bool {
    if before.credentials.room_uri is Some {
        result == Err::<(), LocationError>(LocationError::CredentialsSet) && after == before
    } else {
        match parsed {
            Err(reason) => {
                &&& result matches Err(LocationError::Malformed(found)) && found@ == reason
                &&& after == before
            },
            Ok(credentials) => {
                &&& result is Ok
                &&& after == SrcView {
                    credentials,
                    stream_id: if names_stream(credentials.stream_id) {
                        credentials.stream_id
                    } else {
                        before.stream_id
                    },
                    ..before
                }
            },
        }
    }
}

/// A location whose parts come back out of it is accepted with exactly those parts, unless a room
/// was set.
pub open spec fn takes_location(
    before: SrcView,
    location: Seq<char>,
    result: Result<(), LocationError>,
    after: SrcView,
) -> bool {
    before.credentials.room_uri is None ==> forall|
        protocol: Protocol,
        session_id: Seq<char>,
        stream_id: Option<Seq<char>>,
        api_key: Seq<char>,
        token: Seq<char>,
    |
        plain_location(protocol, session_id, stream_id, api_key, token) && location
            == #[trigger] location_text(protocol, session_id, stream_id, api_key, token) ==> {
            &&& result is Ok
            &&& after == SrcView {
                credentials: location_credentials(session_id, stream_id, api_key, token),
                stream_id: if names_stream(stream_id) {
                    stream_id
                } else {
                    before.stream_id
                },
                ..before
            }
        }
}

impl OpenTokSrc {
    /// No stream has two subscribers.
    pub closed spec fn wf(&self) -> bool {
        self.subscribers.wf()
    }

    /// A new element.
    pub fn new() -> (element: OpenTokSrc)
        ensures
            element.wf(),
            element@ == (SrcView {
                credentials: CredentialsView::unset(),
                session: false,
                stream_id: None,
                subscribers: Set::empty(),
            }),
    {
        OpenTokSrc {
            credentials: Credentials::default(),
            session: false,
            stream_id: None,
            subscribers: Subscribers::new(),
        }
    }

    /// Sets the credentials, and the stream if the location names one. A location whose parts
    /// come back out of it is accepted with exactly those parts, unless a room was set.
    pub fn set_location(&mut self, location: &str) -> (result: Result<(), LocationError>)
        requires
            old(self).wf(),
        ensures
            final(self).wf(),
            set_location_result(old(self)@, credentials_at(location@), result, final(self)@),
            progresses(old(self)@, final(self)@),
            takes_location(old(self)@, location@, result, final(self)@),
    {
        self.set_parsed_location(parse_location(location))
    }

    /// Sets the credentials that a location was parsed to, and the stream if there is one among
    /// them. The error of a location that is no url is the name of the reason.
    pub fn set_parsed_location(&mut self, parsed: Result<Credentials, String>) -> (result: Result<
        (),
        LocationError,
    >)
        requires
            old(self).wf(),
            parsed matches Ok(credentials) ==> credentials@.can_join(),
        ensures
            final(self).wf(),
            set_location_result(old(self)@, found_view(parsed), result, final(self)@),
            progresses(old(self)@, final(self)@),
    {
        if self.credentials.room_uri().is_some() {
            return Err(LocationError::CredentialsSet);
        }
        let credentials = match parsed {
            Ok(credentials) => credentials,
            Err(reason) => {
                return Err(LocationError::Malformed(reason));
            },
        };
        if let Some(stream_id) = credentials.stream_id() {
            if !stream_id.as_str().is_empty() {
                self.set_stream_id(stream_id.clone());
            }
        }
        self.credentials = credentials;
        Ok(())
    }

    /// Chooses the stream.
    pub fn set_stream_id(&mut self, id: String)
        requires
            old(self).wf(),
        ensures
            final(self).wf(),
            final(self)@ == (SrcView { stream_id: Some(id@), ..old(self)@ }),
            progresses(old(self)@, final(self)@),
    {
        self.stream_id = Some(id);
    }

    /// The credentials.
    pub fn credentials(&self) -> (credentials: &Credentials)
        ensures
            credentials@ == self@.credentials,
    {
        &self.credentials
    }

    /// The location of the session.
    pub fn location(&self) -> (location: Option<String>)
        ensures
            opt_text(location) == public_location(self@.credentials),
    {
        location_of(&self.credentials)
    }
}

/// How a subscriber is set up: a source behind a pad that is not shown yet.
pub open spec fn subscribe_plan() -> Seq<Planned> {
    seq![
        or_fail(Step::Make(Node::AppSrc, Name::Unnamed), Fault::MissingElement("appsrc")),
        must(Step::SetFlag(Node::AppSrc, "is-live", true)),
        must(Step::SetTimeFormat(Node::AppSrc)),
        or_fail(Step::Add(Node::Element, Node::AppSrc), Fault::AddElement("appsrc")),
        must(Step::StaticPad(Pad::AppSrcSrc)),
        must(Step::ChainedPad(Pad::Exposed, Name::OfPad, Pad::AppSrcSrc)),
        must(Step::CombineFlow(Pad::Exposed)),
    ]
}

/// How the audio of the session is set up.
pub open spec fn audio_plan() -> Seq<Planned> {
    seq![
        or_fail(
            Step::Make(Node::AppSrc, Name::Fixed("audio_appsrc")),
            Fault::MissingElement("appsrc"),
        ),
        must(Step::SetFlag(Node::AppSrc, "is-live", true)),
        must(Step::SetTimeFormat(Node::AppSrc)),
        or_fail(Step::Add(Node::Element, Node::AppSrc), Fault::AddElement("appsrc")),
        or_fail(Step::StaticPad(Pad::AppSrcSrc), Fault::ElementPad("appsrc.src")),
        or_fail(
            Step::ChainedPad(Pad::Exposed, Name::Fixed("audio_stream"), Pad::AppSrcSrc),
            Fault::PadConstruction("audio", "ghost pad"),
        ),
        must(Step::CombineFlow(Pad::Exposed)),
        or_fail(Step::ActivatePad(Pad::Exposed, true), Fault::PadActivation("audio ghost pad")),
        must(Step::ForwardSticky(Pad::AppSrcSrc, Pad::Exposed)),
        may(Step::AddPad(Node::Element, Pad::Exposed)),
        must(Step::SyncState(Node::AppSrc)),
    ]
}

/// How the video of a subscriber is shown.
pub open spec fn enable_plan() -> Seq<Planned> {
    seq![
        must(Step::AddPad(Node::Element, Pad::Exposed)),
        must(Step::ActivatePad(Pad::Exposed, true)),
        must(Step::StaticPad(Pad::AppSrcSrc)),
        must(Step::ForwardSticky(Pad::AppSrcSrc, Pad::Exposed)),
        must(Step::SyncState(Node::AppSrc)),
    ]
}

/// How the video of a subscriber is taken away for a while.
pub open spec fn disable_plan() -> Seq<Planned> {
    seq![
        must(Step::ActivatePad(Pad::Exposed, false)),
        must(Step::LockState(Node::Element, true)),
        must(Step::SetState(Node::AppSrc, State::Ready)),
        must(Step::LockState(Node::Element, false)),
        must(Step::RemovePad(Node::Element, Pad::Exposed)),
    ]
}

/// How a subscriber goes away, and the audio of the session with it, if it is the last one.
pub open spec fn drop_plan(last: bool) -> Seq<Planned> {
    let subscriber = seq![
        must(Step::ActivatePad(Pad::Exposed, false)),
        must(Step::LockState(Node::Element, true)),
        must(Step::SetState(Node::AppSrc, State::Null)),
        may(Step::AwaitState(Node::AppSrc)),
        must(Step::Remove(Node::Element, Node::AppSrc)),
        may(Step::RemovePad(Node::Element, Pad::Exposed)),
    ];
    let audio = seq![
        must(Step::StaticPad(Pad::Audio)),
        must(Step::ActivatePad(Pad::Audio, false)),
        must(Step::FindAudioSource),
        must(Step::SetState(Node::AudioAppSrc, State::Null)),
        may(Step::AwaitState(Node::AudioAppSrc)),
        must(Step::Remove(Node::Element, Node::AudioAppSrc)),
        may(Step::RemovePad(Node::Element, Pad::Audio)),
    ];
    let unlock = seq![must(Step::LockState(Node::Element, false))];
    if last {
        subscriber + audio + unlock
    } else {
        subscriber + unlock
    }
}

/// How the audio of the session is taken away when the element stops.
pub open spec fn stop_audio_plan() -> Seq<Planned> {
    seq![
        must(Step::LockState(Node::Element, true)),
        or_fail(Step::SetState(Node::AudioAppSrc, State::Null), Fault::StateChange),
        may(Step::AwaitState(Node::AudioAppSrc)),
        must(Step::Remove(Node::Element, Node::AudioAppSrc)),
        must(Step::StaticPad(Pad::Audio)),
        must(Step::LockState(Node::Element, false)),
        or_fail(Step::RemovePad(Node::Element, Pad::Audio), Fault::StateChange),
    ]
}

/// How a subscriber is taken away when the element stops.
pub open spec fn stop_subscriber_plan() -> Seq<Planned> {
    seq![
        must(Step::LockState(Node::Element, true)),
        or_fail(Step::SetState(Node::AppSrc, State::Null), Fault::StateChange),
        may(Step::AwaitState(Node::AppSrc)),
        must(Step::Remove(Node::Element, Node::AppSrc)),
        must(Step::LockState(Node::Element, false)),
        or_fail(Step::RemovePad(Node::Element, Pad::Exposed), Fault::StateChange),
    ]
}

/// Each plan uses nothing that is not at hand: the element, and the source and the pad of a
/// subscriber where there is one.
pub proof fn lemma_plans_in_order(last: bool)
    ensures
        in_order(subscribe_plan(), 0, set![Node::Element], Set::empty()),
        in_order(audio_plan(), 0, set![Node::Element], Set::empty()),
        in_order(enable_plan(), 0, set![Node::Element, Node::AppSrc], set![Pad::Exposed]),
        in_order(disable_plan(), 0, set![Node::Element, Node::AppSrc], set![Pad::Exposed]),
        in_order(drop_plan(last), 0, set![Node::Element, Node::AppSrc], set![Pad::Exposed]),
        in_order(stop_audio_plan(), 0, set![Node::Element, Node::AudioAppSrc], Set::empty()),
        in_order(stop_subscriber_plan(), 0, set![Node::Element, Node::AppSrc], set![Pad::Exposed]),
{
    reveal_with_fuel(in_order, 16);
}

/// What the element holds when a subscriber has been set up.
pub open spec fn subscribed_contents(before: Contents) -> Contents {
    contents_after(subscribe_plan(), 0, Node::Element, before)
}

/// What the element holds when the video of a subscriber has been shown.
pub open spec fn enabled_contents(before: Contents) -> Contents {
    contents_after(enable_plan(), 0, Node::Element, before)
}

/// What the element holds when the audio of the session has been set up. From then on its source
/// and its pad are spoken of as those of the audio.
pub open spec fn audio_contents(before: Contents) -> Contents {
    contents_after(audio_plan(), 0, Node::Element, before).node_as(
        Node::AppSrc,
        Node::AudioAppSrc,
    ).pad_as(Pad::Exposed, Pad::Audio)
}

/// The plans of a subscriber undo each other. The pad is what is put in to show the video, and
/// taken out to hide it. The source, and the pad if it was shown, are taken out when the stream is
/// dropped, and when the element stops.
pub proof fn lemma_subscriber_plans_undo(before: Contents)
    requires
        !before.nodes.contains(Node::AppSrc),
        !before.pads.contains(Pad::Exposed),
    ensures
        subscribed_contents(before) == (Contents {
            nodes: before.nodes.insert(Node::AppSrc),
            ..before
        }),
        enabled_contents(before) == (Contents { pads: before.pads.insert(Pad::Exposed), ..before }),
        contents_after(disable_plan(), 0, Node::Element, enabled_contents(before)) == before,
        contents_after(drop_plan(false), 0, Node::Element, subscribed_contents(before)) == before,
        contents_after(
            drop_plan(false),
            0,
            Node::Element,
            enabled_contents(subscribed_contents(before)),
        ) == before,
        contents_after(
            stop_subscriber_plan(),
            0,
            Node::Element,
            enabled_contents(subscribed_contents(before)),
        ) == before,
{
    reveal_with_fuel(contents_after, 16);
    assert(before.nodes.insert(Node::AppSrc).remove(Node::AppSrc) =~= before.nodes);
    assert(before.pads.insert(Pad::Exposed).remove(Pad::Exposed) =~= before.pads);
    assert(before.pads.remove(Pad::Exposed) =~= before.pads);
}

/// The plans of the audio undo each other: the source and the pad that are put in when the audio
/// is set up are taken out when the element stops, and with the last subscriber. The pad is found
/// again under the name that it was given.
pub proof fn lemma_audio_plans_undo(before: Contents)
    requires
        !before.nodes.contains(Node::AppSrc),
        !before.nodes.contains(Node::AudioAppSrc),
        !before.pads.contains(Pad::Exposed),
        !before.pads.contains(Pad::Audio),
    ensures
        audio_contents(before) == (Contents {
            nodes: before.nodes.insert(Node::AudioAppSrc),
            pads: before.pads.insert(Pad::Audio),
        }),
        contents_after(stop_audio_plan(), 0, Node::Element, audio_contents(before)) == before,
        contents_after(
            drop_plan(true),
            0,
            Node::Element,
            subscribed_contents(audio_contents(before)),
        ) == before,
        contents_after(
            drop_plan(true),
            0,
            Node::Element,
            enabled_contents(subscribed_contents(audio_contents(before))),
        ) == before,
        audio_plan()[5].step matches Step::ChainedPad(Pad::Exposed, Name::Fixed(name), _)
            && static_pad(Pad::Audio) == Some((Node::Element, name@)),
{
    let held = audio_contents(before);
    reveal_with_fuel(contents_after, 16);
    assert(before.nodes.insert(Node::AppSrc).remove(Node::AppSrc) =~= before.nodes);
    assert(before.pads.insert(Pad::Exposed).remove(Pad::Exposed) =~= before.pads);
    assert(held.nodes.remove(Node::AudioAppSrc) =~= before.nodes);
    assert(held.pads.remove(Pad::Audio) =~= before.pads);
    assert(held.nodes.insert(Node::AppSrc).remove(Node::AppSrc) =~= held.nodes);
    assert(held.pads.insert(Pad::Exposed).remove(Pad::Exposed) =~= held.pads);
    assert(held.pads.remove(Pad::Exposed) =~= held.pads);
}

/// Whether the state of the element is locked after the first `steps` steps of a plan, if it was
/// not before.
pub open spec fn locked_after(plan: Seq<Planned>, steps: int) -> bool
    decreases steps,
{
    if steps <= 0 {
        false
    } else {
        match plan[steps - 1].step {
            Step::LockState(Node::Element, locked) => locked,
            _ => locked_after(plan, steps - 1),
        }
    }
}

/// Where the plan changes the state of a source, the state of the element is locked.
pub open spec fn locks_state(plan: Seq<Planned>) -> bool {
    forall|i: int|
        0 <= i < plan.len() && (#[trigger] plan[i]).step is SetState ==> locked_after(plan, i)
}

/// The state of the element is locked wherever a plan changes the state of a source, and is not
/// left locked by a plan that is carried out to its end.
pub proof fn lemma_plans_lock_state(last: bool)
    ensures
        locks_state(disable_plan()),
        locks_state(drop_plan(last)),
        locks_state(stop_audio_plan()),
        locks_state(stop_subscriber_plan()),
        !locked_after(disable_plan(), disable_plan().len() as int),
        !locked_after(drop_plan(last), drop_plan(last).len() as int),
        !locked_after(stop_audio_plan(), stop_audio_plan().len() as int),
        !locked_after(stop_subscriber_plan(), stop_subscriber_plan().len() as int),
{
    reveal_with_fuel(locked_after, 16);
}

/// How a stream is subscribed to.
#[derive(Debug)]
pub struct Subscription {
    /// The name of the pad of its video.
    pub pad_name: String,
    pub plan: Vec<Planned>,
}

/// What the element makes of a stream that appears in the session.
pub open spec fn stream_received_result(
    element: SrcView,
    stream_id: Seq<char>,
    streams: Seq<Option<bool>>,
    result: Result<Subscription, Error>,
) -> bool {
    if element.accepts(stream_id) {
        &&& result matches Ok(subscription)
        &&& subscription.pad_name@ == video_pad_text(streams)
        &&& subscription.plan@ == subscribe_plan()
    } else {
        &&& result matches Err(Error::InvalidStream(found, wanted))
        &&& found@ == stream_id
        &&& Some(wanted@) == element.stream_id
    }
}

/// The words of the failure to hand a stream to its subscriber, and the element afterwards.
/// `set_stream` is what OpenTok said to that.
pub open spec fn subscribed_result(
    before: SrcView,
    stream_id: Seq<char>,
    has_video: bool,
    set_stream: Result<(), String>,
    result: Result<Option<Vec<Planned>>, Error>,
    after: SrcView,
) -> bool {
    match set_stream {
        Err(reason) => {
            &&& result == Err::<Option<Vec<Planned>>, Error>(
                Error::SubscriberStreamSetupFailed(reason),
            )
            &&& after == before
        },
        Ok(_) => {
            &&& result matches Ok(plan)
            &&& if has_video {
                plan matches Some(plan) && plan@ == enable_plan()
            } else {
                plan is None
            }
            &&& after == SrcView { subscribers: before.subscribers.insert(stream_id), ..before }
        },
    }
}

/// What to do about a stream that disappears: nothing, if it has no subscriber.
pub open spec fn stream_dropped_result(
    before: SrcView,
    stream_id: Seq<char>,
    plan: Option<Vec<Planned>>,
    after: SrcView,
) -> bool {
    &&& after == SrcView { subscribers: before.subscribers.remove(stream_id), ..before }
    &&& if before.subscribers.contains(stream_id) {
        plan matches Some(plan) && plan@ == drop_plan(
            after.subscribers == Set::<Seq<char>>::empty(),
        )
    } else {
        plan is None
    }
}

/// A session that is about to be joined.
#[derive(Debug)]
pub struct SessionInit {
    pub keys: SessionKeys,
    /// How the audio of the session is set up, before the session is made.
    pub audio: Vec<Planned>,
}

/// A session is joined if and only if all values for it are known and there is none yet.
pub open spec fn init_session_result(element: SrcView, init: Option<SessionInit>) -> bool {
    match init {
        Some(init) => {
            &&& !element.session
            &&& session_keys(element.credentials) == Some(init.keys@)
            &&& init.audio@ == audio_plan()
        },
        None => element.session || !element.credentials.can_join(),
    }
}

/// What came of a session that the element wanted to join.
#[derive(Debug)]
pub enum SessionOutcome {
    Connected,
    /// It was made, but not connected. Holds the name of the reason.
    NotConnected(String),
    /// It was not made. Holds the name of the reason.
    NotCreated(String),
}

/// What the element `before` makes of the outcome.
pub open spec fn session_result(
    before: SrcView,
    outcome: SessionOutcome,
    result: Result<(), Error>,
    after: SrcView,
) -> bool {
    match outcome {
        SessionOutcome::Connected => result is Ok && after == SrcView { session: true, ..before },
        SessionOutcome::NotConnected(reason) => {
            &&& result matches Err(Error::Init(text)) && text@ == "Connection error "@ + reason@
            &&& after == SrcView { session: true, ..before }
        },
        SessionOutcome::NotCreated(reason) => {
            &&& result matches Err(Error::Init(text)) && text@
                == "Failed to create OpenTok session `"@ + reason@
            &&& after == before
        },
    }
}

/// The subscribers that are taken away when the element stops.
#[derive(Debug)]
pub struct Stopping {
    /// The streams, each of them once.
    pub streams: Vec<String>,
    /// What is done for each of them.
    pub plan: Vec<Planned>,
}

impl OpenTokSrc {
    /// What to do about a stream that appears in the session. `streams` tells of each subscriber
    /// whether its stream, where it is known, has video.
    pub fn stream_received(&self, stream_id: &str, streams: &Vec<Option<bool>>) -> (result: Result<
        Subscription,
        Error,
    >)
        ensures
            stream_received_result(self@, stream_id@, streams@, result),
    {
        if let Some(wanted) = &self.stream_id {
            if !same(wanted.as_str(), stream_id) {
                return Err(Error::InvalidStream(stream_id.to_owned(), wanted.clone()));
            }
        }
        let mut plan: Vec<Planned> = Vec::new();
        schedule(
            &mut plan,
            Step::Make(Node::AppSrc, Name::Unnamed),
            OnFailure::Report(Fault::MissingElement("appsrc")),
        );
        schedule(&mut plan, Step::SetFlag(Node::AppSrc, "is-live", true), OnFailure::Abort);
        schedule(&mut plan, Step::SetTimeFormat(Node::AppSrc), OnFailure::Abort);
        schedule(
            &mut plan,
            Step::Add(Node::Element, Node::AppSrc),
            OnFailure::Report(Fault::AddElement("appsrc")),
        );
        schedule(&mut plan, Step::StaticPad(Pad::AppSrcSrc), OnFailure::Abort);
        schedule(
            &mut plan,
            Step::ChainedPad(Pad::Exposed, Name::OfPad, Pad::AppSrcSrc),
            OnFailure::Abort,
        );
        schedule(&mut plan, Step::CombineFlow(Pad::Exposed), OnFailure::Abort);
        assert(plan@ =~= subscribe_plan());
        Ok(Subscription { pad_name: generate_video_pad_name(streams), plan })
    }

    /// The stream was handed to its subscriber, or could not be. Returns how its video is shown,
    /// if it has video.
    pub fn stream_subscribed(
        &mut self,
        stream_id: String,
        has_video: bool,
        set_stream: Result<(), String>,
    ) -> (result: Result<Option<Vec<Planned>>, Error>)
        requires
            old(self).wf(),
            old(self)@.accepts(stream_id@),
        ensures
            final(self).wf(),
            subscribed_result(
                old(self)@,
                stream_id@,
                has_video,
                set_stream,
                result,
                final(self)@,
            ),
            progresses(old(self)@, final(self)@),
    {
        if let Err(reason) = set_stream {
            return Err(Error::SubscriberStreamSetupFailed(reason));
        }
        self.subscribers.insert(stream_id);
        if has_video {
            Ok(Some(OpenTokSrc::enable_video()))
        } else {
            Ok(None)
        }
    }

    /// What to do about a stream that disappears from the session.
    pub fn stream_dropped(&mut self, stream_id: &str) -> (plan: Option<Vec<Planned>>)
        requires
            old(self).wf(),
        ensures
            final(self).wf(),
            stream_dropped_result(old(self)@, stream_id@, plan, final(self)@),
            progresses(old(self)@, final(self)@),
    {
        if !self.subscribers.remove(stream_id) {
            return None;
        }
        let last = self.subscribers.is_empty();
        let mut plan: Vec<Planned> = Vec::new();
        schedule(&mut plan, Step::ActivatePad(Pad::Exposed, false), OnFailure::Abort);
        schedule(&mut plan, Step::LockState(Node::Element, true), OnFailure::Abort);
        schedule(&mut plan, Step::SetState(Node::AppSrc, State::Null), OnFailure::Abort);
        schedule(&mut plan, Step::AwaitState(Node::AppSrc), OnFailure::Ignore);
        schedule(&mut plan, Step::Remove(Node::Element, Node::AppSrc), OnFailure::Abort);
        schedule(&mut plan, Step::RemovePad(Node::Element, Pad::Exposed), OnFailure::Ignore);
        if last {
            schedule(&mut plan, Step::StaticPad(Pad::Audio), OnFailure::Abort);
            schedule(&mut plan, Step::ActivatePad(Pad::Audio, false), OnFailure::Abort);
            schedule(&mut plan, Step::FindAudioSource, OnFailure::Abort);
            schedule(&mut plan, Step::SetState(Node::AudioAppSrc, State::Null), OnFailure::Abort);
            schedule(&mut plan, Step::AwaitState(Node::AudioAppSrc), OnFailure::Ignore);
            schedule(&mut plan, Step::Remove(Node::Element, Node::AudioAppSrc), OnFailure::Abort);
            schedule(&mut plan, Step::RemovePad(Node::Element, Pad::Audio), OnFailure::Ignore);
        }
        schedule(&mut plan, Step::LockState(Node::Element, false), OnFailure::Abort);
        assert(plan@ =~= drop_plan(last));
        Some(plan)
    }

    /// How the video of a subscriber is shown.
    pub fn enable_video() -> (plan: Vec<Planned>)
        ensures
            plan@ == enable_plan(),
    {
        let mut plan: Vec<Planned> = Vec::new();
        schedule(&mut plan, Step::AddPad(Node::Element, Pad::Exposed), OnFailure::Abort);
        schedule(&mut plan, Step::ActivatePad(Pad::Exposed, true), OnFailure::Abort);
        schedule(&mut plan, Step::StaticPad(Pad::AppSrcSrc), OnFailure::Abort);
        schedule(&mut plan, Step::ForwardSticky(Pad::AppSrcSrc, Pad::Exposed), OnFailure::Abort);
        schedule(&mut plan, Step::SyncState(Node::AppSrc), OnFailure::Abort);
        assert(plan@ =~= enable_plan());
        plan
    }

    /// How the video of a subscriber is taken away for a while.
    pub fn disable_video() -> (plan: Vec<Planned>)
        ensures
            plan@ == disable_plan(),
    {
        let mut plan: Vec<Planned> = Vec::new();
        schedule(&mut plan, Step::ActivatePad(Pad::Exposed, false), OnFailure::Abort);
        schedule(&mut plan, Step::LockState(Node::Element, true), OnFailure::Abort);
        schedule(&mut plan, Step::SetState(Node::AppSrc, State::Ready), OnFailure::Abort);
        schedule(&mut plan, Step::LockState(Node::Element, false), OnFailure::Abort);
        schedule(&mut plan, Step::RemovePad(Node::Element, Pad::Exposed), OnFailure::Abort);
        assert(plan@ =~= disable_plan());
        plan
    }

    /// How the audio of the session is set up.
    pub fn init_audio() -> (plan: Vec<Planned>)
        ensures
            plan@ == audio_plan(),
    {
        let mut plan: Vec<Planned> = Vec::new();
        schedule(
            &mut plan,
            Step::Make(Node::AppSrc, Name::Fixed("audio_appsrc")),
            OnFailure::Report(Fault::MissingElement("appsrc")),
        );
        schedule(&mut plan, Step::SetFlag(Node::AppSrc, "is-live", true), OnFailure::Abort);
        schedule(&mut plan, Step::SetTimeFormat(Node::AppSrc), OnFailure::Abort);
        schedule(
            &mut plan,
            Step::Add(Node::Element, Node::AppSrc),
            OnFailure::Report(Fault::AddElement("appsrc")),
        );
        schedule(
            &mut plan,
            Step::StaticPad(Pad::AppSrcSrc),
            OnFailure::Report(Fault::ElementPad("appsrc.src")),
        );
        schedule(
            &mut plan,
            Step::ChainedPad(Pad::Exposed, Name::Fixed("audio_stream"), Pad::AppSrcSrc),
            OnFailure::Report(Fault::PadConstruction("audio", "ghost pad")),
        );
        schedule(&mut plan, Step::CombineFlow(Pad::Exposed), OnFailure::Abort);
        schedule(
            &mut plan,
            Step::ActivatePad(Pad::Exposed, true),
            OnFailure::Report(Fault::PadActivation("audio ghost pad")),
        );
        schedule(&mut plan, Step::ForwardSticky(Pad::AppSrcSrc, Pad::Exposed), OnFailure::Abort);
        schedule(&mut plan, Step::AddPad(Node::Element, Pad::Exposed), OnFailure::Ignore);
        schedule(&mut plan, Step::SyncState(Node::AppSrc), OnFailure::Abort);
        assert(plan@ =~= audio_plan());
        plan
    }

    /// The session to join with these values, unless there is one.
    pub fn init_session(&self, keys: SessionKeys) -> (init: Option<SessionInit>)
        ensures
            match init {
                Some(init) => !self@.session && init.keys@ == keys@ && init.audio@ == audio_plan(),
                None => self@.session,
            },
    {
        if self.session {
            return None;
        }
        Some(SessionInit { keys, audio: OpenTokSrc::init_audio() })
    }

    /// The session to join, if all values for it are known and there is none yet.
    pub fn maybe_init_session(&self) -> (init: Option<SessionInit>)
        ensures
            init_session_result(self@, init),
    {
        match keys_of(&self.credentials) {
            Some(keys) => self.init_session(keys),
            None => None,
        }
    }

    /// What came of the session that the element wanted to join.
    pub fn session_created(&mut self, outcome: SessionOutcome) -> (result: Result<(), Error>)
        requires
            old(self).wf(),
        ensures
            final(self).wf(),
            session_result(old(self)@, outcome, result, final(self)@),
            progresses(old(self)@, final(self)@),
    {
        match outcome {
            SessionOutcome::Connected => {
                self.session = true;
                Ok(())
            },
            SessionOutcome::NotConnected(reason) => {
                self.session = true;
                Err(Error::Init(join2("Connection error ", reason.as_str())))
            },
            SessionOutcome::NotCreated(reason) => Err(
                Error::Init(join2("Failed to create OpenTok session `", reason.as_str())),
            ),
        }
    }

    /// The url to ask for the credentials before the element starts, if there is one.
    pub fn wanted_info(&self) -> (url: Option<String>)
        ensures
            opt_text(url) == match self@.credentials.room_uri {
                Some(room) => Some(info_text(room)),
                None => None,
            },
    {
        self.credentials.info_url()
    }

    /// Starts the element: takes over the answer of the room, if there is a room. Returns the
    /// session to join.
    pub fn start(&mut self, answer: Result<String, String>) -> (result: Result<
        Option<SessionInit>,
        LoadError,
    >)
        requires
            old(self).wf(),
        ensures
            final(self).wf(),
            final(self)@ == (SrcView { credentials: final(self)@.credentials, ..old(self)@ }),
            load_result(
                old(self)@.credentials,
                answer,
                match result {
                    Ok(_) => Ok(()),
                    Err(error) => Err(error),
                },
                final(self)@.credentials,
            ),
            takes_answer(
                old(self)@.credentials,
                answer,
                match result {
                    Ok(_) => Ok(()),
                    Err(error) => Err(error),
                },
                final(self)@.credentials,
            ),
            result matches Ok(init) ==> init_session_result(final(self)@, init),
            old(self)@.credentials.complete() && !old(self)@.session ==> (result matches Ok(init)
                ==> init is Some),
            progresses(old(self)@, final(self)@),
    {
        match self.credentials.load(answer) {
            Ok(_) => Ok(self.maybe_init_session()),
            Err(error) => Err(error),
        }
    }

    /// How the audio of the session is taken away when the element stops. `present` tells whether
    /// its source is in the element.
    pub fn stop_audio(present: bool) -> (plan: Option<Vec<Planned>>)
        ensures
            if present {
                plan matches Some(plan) && plan@ == stop_audio_plan()
            } else {
                plan is None
            },
    {
        if !present {
            return None;
        }
        let state_change = OnFailure::Report(Fault::StateChange);
        let mut plan: Vec<Planned> = Vec::new();
        schedule(&mut plan, Step::LockState(Node::Element, true), OnFailure::Abort);
        schedule(&mut plan, Step::SetState(Node::AudioAppSrc, State::Null), state_change);
        schedule(&mut plan, Step::AwaitState(Node::AudioAppSrc), OnFailure::Ignore);
        schedule(&mut plan, Step::Remove(Node::Element, Node::AudioAppSrc), OnFailure::Abort);
        schedule(&mut plan, Step::StaticPad(Pad::Audio), OnFailure::Abort);
        schedule(&mut plan, Step::LockState(Node::Element, false), OnFailure::Abort);
        schedule(&mut plan, Step::RemovePad(Node::Element, Pad::Audio), state_change);
        assert(plan@ =~= stop_audio_plan());
        Some(plan)
    }

    /// Stops the element, once the audio of the session is taken away: the streams that have a
    /// subscriber, and what is done for each. From here on none has one.
    pub fn stop(&mut self) -> (stopping: Stopping)
        requires
            old(self).wf(),
        ensures
            final(self).wf(),
            texts(stopping.streams@).no_duplicates(),
            texts(stopping.streams@).to_set() == old(self)@.subscribers,
            stopping.plan@ == stop_subscriber_plan(),
            final(self)@ == (SrcView { subscribers: Set::empty(), ..old(self)@ }),
            progresses(old(self)@, final(self)@),
    {
        let state_change = OnFailure::Report(Fault::StateChange);
        let mut plan: Vec<Planned> = Vec::new();
        schedule(&mut plan, Step::LockState(Node::Element, true), OnFailure::Abort);
        schedule(&mut plan, Step::SetState(Node::AppSrc, State::Null), state_change);
        schedule(&mut plan, Step::AwaitState(Node::AppSrc), OnFailure::Ignore);
        schedule(&mut plan, Step::Remove(Node::Element, Node::AppSrc), OnFailure::Abort);
        schedule(&mut plan, Step::LockState(Node::Element, false), OnFailure::Abort);
        schedule(&mut plan, Step::RemovePad(Node::Element, Pad::Exposed), state_change);
        assert(plan@ =~= stop_subscriber_plan());
        Stopping { streams: self.subscribers.drain(), plan }
    }
}

/// The properties of the element.
pub open spec fn src_properties() -> Seq<PropertySpec> {
    seq![
        PropertySpec {
            name: "api-key",
            blurb: Some("OpenTok API key"),
            kind: PropertyKind::Text,
            writable: true,
        },
        PropertySpec {
            name: "session-id",
            blurb: Some("OpenTok session unique identifier"),
            kind: PropertyKind::Text,
            writable: true,
        },
        PropertySpec {
            name: "token",
            blurb: Some("OpenTok session token"),
            kind: PropertyKind::Text,
            writable: true,
        },
        PropertySpec {
            name: "stream-id",
            blurb: Some("Unique identifier of the OpenTok stream this source subscribes to"),
            kind: PropertyKind::Text,
            writable: true,
        },
        PropertySpec {
            name: "location",
            blurb: Some(
                "OpenTok session location (i.e. opentok://<session id>/key=<api key>&token=<token>)",
            ),
            kind: PropertyKind::Text,
            writable: true,
        },
        PropertySpec {
            name: "demo-room-uri",
            blurb: Some(
                "URI of the opentok demo room, eg. https://opentokdemo.tokbox.com/room/rust345",
            ),
            kind: PropertyKind::Text,
            writable: true,
        },
        PropertySpec {
            name: "is-live",
            blurb: None,
            kind: PropertyKind::Flag(true),
            writable: true,
        },
    ]
}

/// The names of the properties that can be set to a text that is there.
pub open spec fn needs_text(name: Seq<char>) -> bool {
    name == "location"@ || name == "demo-room-uri"@
}

/// The names of the properties that can be set.
pub open spec fn settable(name: Seq<char>) -> bool {
    ||| name == "api-key"@
    ||| name == "session-id"@
    ||| name == "stream-id"@
    ||| name == "token"@
    ||| needs_text(name)
}

/// The names of the properties that can be read.
pub open spec fn readable(name: Seq<char>) -> bool {
    settable(name) || name == "is-live"@
}

/// The element can read exactly the properties that it declares, and can set all of them but the
/// one that says that it is live.
pub proof fn lemma_properties_handled(name: Seq<char>)
    ensures
        declares(src_properties(), name) <==> readable(name),
        name != "is-live"@ ==> (declares_writable(src_properties(), name) <==> settable(name)),
{
    let properties = src_properties();
    assert(properties[0].name@ == "api-key"@);
    assert(properties[1].name@ == "session-id"@);
    assert(properties[2].name@ == "token"@);
    assert(properties[3].name@ == "stream-id"@);
    assert(properties[4].name@ == "location"@);
    assert(properties[5].name@ == "demo-room-uri"@);
    assert(properties[6].name@ == "is-live"@);
}

/// The name of no property is that of another.
pub proof fn lemma_property_names_differ()
    ensures
        "api-key"@.len() == 7,
        "session-id"@.len() == 10,
        "token"@.len() == 5,
        "stream-id"@.len() == 9,
        "location"@.len() == 8,
        "demo-room-uri"@.len() == 13,
        "is-live"@.len() == 7,
        "api-key"@ != "is-live"@,
{
    reveal_strlit("api-key");
    reveal_strlit("session-id");
    reveal_strlit("token");
    reveal_strlit("stream-id");
    reveal_strlit("location");
    reveal_strlit("demo-room-uri");
    reveal_strlit("is-live");
    assert("api-key"@[0] == 'a' && "is-live"@[0] == 'i');
}

/// What setting one field of the credentials makes of the element `before`. Nothing changes, if
/// there is no value.
pub open spec fn set_field_result(
    before: SrcView,
    field: Field,
    value: Option<Seq<char>>,
    result: Result<(), PropertyError>,
    after: SrcView,
) -> bool {
    match value {
        None => result is Ok && after == before,
        Some(value) => {
            &&& after == SrcView { credentials: after.credentials, ..before }
            &&& match result {
                Ok(_) => set_result(
                    before.credentials,
                    field,
                    value,
                    Ok(()),
                    after.credentials,
                ),
                Err(PropertyError::Credentials(error)) => set_result(
                    before.credentials,
                    field,
                    value,
                    Err(error),
                    after.credentials,
                ),
                Err(PropertyError::Location(_)) => false,
            }
        },
    }
}

/// The result of a location that was set as a property.
pub open spec fn location_result(result: Result<(), PropertyError>) -> Result<(), LocationError> {
    match result {
        Err(PropertyError::Location(error)) => Err(error),
        _ => Ok(()),
    }
}

/// What setting a property makes of the element `before`.
pub open spec fn set_property_result(
    before: SrcView,
    name: Seq<char>,
    value: Option<Seq<char>>,
    result: Result<(), PropertyError>,
    after: SrcView,
) -> bool {
    if name == "api-key"@ {
        set_field_result(before, Field::ApiKey, value, result, after)
    } else if name == "session-id"@ {
        set_field_result(before, Field::SessionId, value, result, after)
    } else if name == "token"@ {
        set_field_result(before, Field::Token, value, result, after)
    } else if name == "stream-id"@ {
        &&& result is Ok
        &&& after == match value {
            Some(value) => SrcView { stream_id: Some(value), ..before },
            None => before,
        }
    } else if name == "location"@ {
        match result {
            Ok(_) => set_location_result(before, credentials_at(value->0), Ok(()), after),
            Err(PropertyError::Location(error)) => set_location_result(
                before,
                credentials_at(value->0),
                Err(error),
                after,
            ),
            Err(PropertyError::Credentials(_)) => false,
        }
    } else {
        &&& after == SrcView { credentials: after.credentials, ..before }
        &&& match result {
            Ok(_) => set_room_result(
                before.credentials,
                url_of(value->0),
                Ok(()),
                after.credentials,
            ),
            Err(PropertyError::Credentials(error)) => set_room_result(
                before.credentials,
                url_of(value->0),
                Err(error),
                after.credentials,
            ),
            Err(PropertyError::Location(_)) => false,
        }
    }
}

/// The value of a property of the element.
pub open spec fn property_view(element: SrcView, name: Seq<char>) -> PropertyView {
    if name == "api-key"@ {
        PropertyView::Text(element.credentials.api_key)
    } else if name == "session-id"@ {
        PropertyView::Text(element.credentials.session_id)
    } else if name == "token"@ {
        PropertyView::Text(element.credentials.token)
    } else if name == "stream-id"@ {
        PropertyView::Text(
            match element.stream_id {
                Some(id) => Some(id),
                None => Some(""@),
            },
        )
    } else if name == "location"@ {
        PropertyView::Text(public_location(element.credentials))
    } else if name == "demo-room-uri"@ {
        PropertyView::Text(
            match element.credentials.room_uri {
                Some(uri) => Some(uri.text),
                None => None,
            },
        )
    } else {
        PropertyView::Flag(true)
    }
}

/// How a change of state went.
#[derive(Clone, Copy, Debug, PartialEq, Eq, Structural)]
pub enum StateChangeSuccess {
    Success,
    Async,
    NoPreroll,
}

/// The result of a property that is a field of the credentials.
fn field_result(result: Result<(), CredentialsError>) -> (converted: Result<(), PropertyError>)
    ensures
        match result {
            Ok(_) => converted is Ok,
            Err(error) => converted == Err::<(), PropertyError>(PropertyError::Credentials(error)),
        },
{
    match result {
        Ok(_) => Ok(()),
        Err(error) => Err(PropertyError::Credentials(error)),
    }
}

/// A copy of a borrowed text.
fn owned(text: Option<&String>) -> (copy: Option<String>)
    ensures
        opt_text(copy) == opt_ref_text(text),
{
    match text {
        Some(text) => Some(text.clone()),
        None => None,
    }
}

impl OpenTokSrc {
    /// The properties of the element.
    pub fn properties() -> (properties: Vec<PropertySpec>)
        ensures
            properties@ == src_properties(),
    {
        let mut properties: Vec<PropertySpec> = Vec::new();
        properties.push(
            PropertySpec {
                name: "api-key",
                blurb: Some("OpenTok API key"),
                kind: PropertyKind::Text,
                writable: true,
            },
        );
        properties.push(
            PropertySpec {
                name: "session-id",
                blurb: Some("OpenTok session unique identifier"),
                kind: PropertyKind::Text,
                writable: true,
            },
        );
        properties.push(
            PropertySpec {
                name: "token",
                blurb: Some("OpenTok session token"),
                kind: PropertyKind::Text,
                writable: true,
            },
        );
        properties.push(
            PropertySpec {
                name: "stream-id",
                blurb: Some("Unique identifier of the OpenTok stream this source subscribes to"),
                kind: PropertyKind::Text,
                writable: true,
            },
        );
        properties.push(
            PropertySpec {
                name: "location",
                blurb: Some(
                    "OpenTok session location (i.e. opentok://<session id>/key=<api key>&token=<token>)",
                ),
                kind: PropertyKind::Text,
                writable: true,
            },
        );
        properties.push(
            PropertySpec {
                name: "demo-room-uri",
                blurb: Some(
                    "URI of the opentok demo room, eg. https://opentokdemo.tokbox.com/room/rust345",
                ),
                kind: PropertyKind::Text,
                writable: true,
            },
        );
        properties.push(
            PropertySpec {
                name: "is-live",
                blurb: None,
                kind: PropertyKind::Flag(true),
                writable: true,
            },
        );
        assert(properties@ =~= src_properties());
        properties
    }

    /// Sets a property.
    pub fn set_property(&mut self, name: &str, value: Option<String>) -> (result: Result<
        (),
        PropertyError,
    >)
        requires
            old(self).wf(),
            settable(name@),
            needs_text(name@) ==> value is Some,
        ensures
            final(self).wf(),
            set_property_result(old(self)@, name@, opt_text(value), result, final(self)@),
            progresses(old(self)@, final(self)@),
            name@ == "location"@ ==> takes_location(
                old(self)@,
                value->0@,
                location_result(result),
                final(self)@,
            ),
    {
        proof {
            lemma_property_names_differ();
        }
        if same(name, "api-key") {
            match value {
                Some(key) => field_result(self.credentials.set_api_key(key)),
                None => Ok(()),
            }
        } else if same(name, "session-id") {
            match value {
                Some(id) => field_result(self.credentials.set_session_id(id)),
                None => Ok(()),
            }
        } else if same(name, "token") {
            match value {
                Some(token) => field_result(self.credentials.set_token(token)),
                None => Ok(()),
            }
        } else if same(name, "stream-id") {
            if let Some(id) = value {
                self.set_stream_id(id);
            }
            Ok(())
        } else if same(name, "location") {
            match self.set_location(value.unwrap().as_str()) {
                Ok(_) => Ok(()),
                Err(error) => Err(PropertyError::Location(error)),
            }
        } else {
            field_result(self.credentials.set_room_uri(value.unwrap()))
        }
    }

    /// The value of a property.
    pub fn property(&self, name: &str) -> (value: PropertyValue)
        requires
            readable(name@),
        ensures
            value@ == property_view(self@, name@),
    {
        if same(name, "api-key") {
            PropertyValue::Text(owned(self.credentials.api_key()))
        } else if same(name, "session-id") {
            PropertyValue::Text(owned(self.credentials.session_id()))
        } else if same(name, "token") {
            PropertyValue::Text(owned(self.credentials.token()))
        } else if same(name, "stream-id") {
            match &self.stream_id {
                Some(id) => PropertyValue::Text(Some(id.clone())),
                None => PropertyValue::Text(Some("".to_owned())),
            }
        } else if same(name, "location") {
            PropertyValue::Text(self.location())
        } else if same(name, "demo-room-uri") {
            match self.credentials.room_uri() {
                Some(uri) => PropertyValue::Text(Some(uri.text.clone())),
                None => PropertyValue::Text(None),
            }
        } else {
            PropertyValue::Flag(true)
        }
    }

    /// What the element says of itself.
    pub fn metadata() -> (metadata: Metadata)
        ensures
            metadata == (Metadata {
                long_name: "OpenTok Source",
                classification: "Source/Network",
                description: "Receives audio and video streams from an OpenTok session",
                author:
                    "Fernando Jim\u{e9}nez Moreno <ferjm@igalia.com>, Philippe Normand <philn@igalia.com>",
            }),
    {
        Metadata {
            long_name: "OpenTok Source",
            classification: "Source/Network",
            description: "Receives audio and video streams from an OpenTok session",
            author:
                "Fernando Jim\u{e9}nez Moreno <ferjm@igalia.com>, Philippe Normand <philn@igalia.com>",
        }
    }

    /// The templates of the pads of the element. There is a single audio stream with the mix of
    /// all publishers.
    pub fn pad_templates() -> (templates: Vec<PadTemplate>)
        ensures
            templates@.len() == 2,
            templates@[0]@ == (PadTemplateView {
                name: "video_stream_%u"@,
                direction: PadDirection::Src,
                presence: Presence::Sometimes,
                caps: video_caps(),
            }),
            templates@[1]@ == (PadTemplateView {
                name: "audio_stream"@,
                direction: PadDirection::Src,
                presence: Presence::Sometimes,
                caps: audio_caps(),
            }),
    {
        let (video, audio) = caps();
        let mut templates: Vec<PadTemplate> = Vec::new();
        templates.push(
            PadTemplate {
                name: "video_stream_%u",
                direction: PadDirection::Src,
                presence: Presence::Sometimes,
                caps: video,
            },
        );
        templates.push(
            PadTemplate {
                name: "audio_stream",
                direction: PadDirection::Src,
                presence: Presence::Sometimes,
                caps: audio,
            },
        );
        templates
    }

    /// Whether the element starts before this change of the state of its bin.
    pub fn starts(change: StateChange) -> (starts: bool)
        ensures
            starts == (change is NullToReady),
    {
        change == StateChange::NullToReady
    }

    /// How the change of state of the element went, given how that of its bin went, and whether
    /// the element stops after it. A live source does not preroll.
    pub fn change_state(change: StateChange, success: StateChangeSuccess) -> (changed: (
        StateChangeSuccess,
        bool,
    ))
        ensures
            changed.0 == if change is ReadyToPaused {
                StateChangeSuccess::NoPreroll
            } else {
                success
            },
            changed.1 == (change is PausedToReady),
    {
        let success = if change == StateChange::ReadyToPaused {
            StateChangeSuccess::NoPreroll
        } else {
            success
        };
        (success, change == StateChange::PausedToReady)
    }

    /// The protocols that the element handles.
    pub fn protocols() -> (protocols: Vec<&'static str>)
        ensures
            protocols@ == seq!["opentok"],
    {
        let mut protocols: Vec<&'static str> = Vec::new();
        protocols.push("opentok");
        protocols
    }

    /// The uri of the session.
    pub fn uri(&self) -> (uri: Option<String>)
        ensures
            opt_text(uri) == public_location(self@.credentials),
    {
        self.location()
    }

    /// Sets the location.
    pub fn set_uri(&mut self, uri: &str) -> (result: Result<(), LocationError>)
        requires
            old(self).wf(),
        ensures
            final(self).wf(),
            set_location_result(old(self)@, credentials_at(uri@), result, final(self)@),
            takes_location(old(self)@, uri@, result, final(self)@),
            progresses(old(self)@, final(self)@),
    {
        self.set_location(uri)
    }
}

/// To subscribe to a stream and to drop it again leaves the element as it was, if the stream had
/// no subscriber before. The audio goes with the stream if and only if there was no other.
pub proof fn lemma_drop_undoes_subscribe(before: SrcView, stream_id: Seq<char>)
    requires
        !before.subscribers.contains(stream_id),
    ensures
        before.subscribers.insert(stream_id).remove(stream_id) == before.subscribers,
        forall|plan: Option<Vec<Planned>>, after: SrcView| #[trigger]
            stream_dropped_result(
                SrcView { subscribers: before.subscribers.insert(stream_id), ..before },
                stream_id,
                plan,
                after,
            ) ==> after == before && plan is Some && plan->0@ == drop_plan(
                before.subscribers == Set::<Seq<char>>::empty(),
            ),
{
    assert(before.subscribers.insert(stream_id).remove(stream_id) =~= before.subscribers);
}

/// The location that the sink element gives of a stream that it publishes, handed to a source
/// element, makes it join the same session and subscribe to exactly that stream.
pub proof fn lemma_published_url_subscribes(
    credentials: CredentialsView,
    stream_id: Seq<char>,
    before: SrcView,
    result: Result<(), LocationError>,
    after: SrcView,
)
    requires
        credentials.can_join(),
        stream_id.len() > 0,
        plain_location(
            Protocol::OpenTok,
            credentials.session_id->0,
            Some(stream_id),
            credentials.api_key->0,
            credentials.token->0,
        ),
        before.credentials.room_uri is None,
        takes_location(before, published_url(credentials, stream_id), result, after),
    ensures
        result is Ok,
        session_keys(after.credentials) == session_keys(credentials),
        forall|other: Seq<char>| #[trigger] after.accepts(other) <==> other == stream_id,
{
}

} // verus!
