//! What the source element does for the streams of a session.

use crate::common::error::Error;
use crate::laws::scene::scene_after;
use crate::laws::scene::scene_of;
use crate::laws::scene::takes_from;
use crate::laws::scene::takes_in_turn;
use crate::laws::scene::Reached;
use crate::laws::scene::Scene;
use crate::opentoksrc::OpenTokSrc;
use crate::opentoksrc::SessionInit;
use crate::opentoksrc::SessionOutcome;
use crate::opentoksrc::SrcView;
use crate::opentoksrc::StateChangeSuccess;
use crate::opentoksrc::Stopping;
use crate::opentoksrc::Subscription;
use crate::element::SessionKeys;
use crate::element::StateChange;
use crate::plan::Fault;
use crate::plan::Name;
use crate::plan::Node;
use crate::plan::OnFailure;
use crate::plan::Pad;
use crate::plan::Planned;
use crate::plan::State;
use crate::plan::Step;
use crate::text::texts;
use vstd::prelude::*;

verus! {

/// A stream is wanted if none was chosen or it is the chosen one, and refused with both names
/// otherwise. The source of a wanted stream is live and stamps its buffers, is put into the element
/// and stands behind a pad that is neither shown nor active yet.
pub proof fn law_wanted_stream_gets_a_hidden_source(
    element: &OpenTokSrc,
    stream_id: &str,
    streams: &Vec<Option<bool>>,
    result: Result<Subscription, Error>,
)
    requires
        call_ensures(OpenTokSrc::stream_received, (element, stream_id, streams), result),
    ensures
        result is Ok <==> element@.stream_id is None || element@.stream_id == Some(stream_id@),
        result matches Err(error) ==> error matches Error::InvalidStream(found, wanted) && found@
            == stream_id@ && element@.stream_id == Some(wanted@),
        result matches Ok(subscription) ==> {
            let plan = subscription.plan@;
            let scene = scene_of(plan);
            &&& scene == Scene {
                made: set![(Node::AppSrc, Name::Unnamed)],
                flags: set![(Node::AppSrc, "is-live", true)],
                timed: set![Node::AppSrc],
                held: set![(Node::Element, Node::AppSrc)],
                named: set![(Pad::Exposed, Name::OfPad)],
                targets: set![(Pad::Exposed, Pad::AppSrcSrc)],
                combined: set![Pad::Exposed],
                ..Scene::empty()
            }
            &&& takes_in_turn(
                plan,
                seq![
                    Step::Make(Node::AppSrc, Name::Unnamed),
                    Step::SetFlag(Node::AppSrc, "is-live", true),
                    Step::SetTimeFormat(Node::AppSrc),
                    Step::Add(Node::Element, Node::AppSrc),
                    Step::StaticPad(Pad::AppSrcSrc),
                    Step::ChainedPad(Pad::Exposed, Name::OfPad, Pad::AppSrcSrc),
                    Step::CombineFlow(Pad::Exposed),
                ],
            )
            &&& forall|i: int|
                0 <= i < plan.len() ==> (#[trigger] plan[i]).on_failure == match plan[i].step {
                    Step::Make(_, _) => OnFailure::Report(Fault::MissingElement("appsrc")),
                    Step::Add(_, _) => OnFailure::Report(Fault::AddElement("appsrc")),
                    _ => OnFailure::Abort,
                }
        },
{
    reveal_with_fuel(scene_after, 9);
    reveal_with_fuel(takes_from, 9);
    if let Ok(subscription) = result {
        let scene = scene_of(subscription.plan@);
        assert(scene.flags =~= set![(Node::AppSrc, "is-live", true)]);
    }
}

/// When the video of a stream has been shown, its pad is on the element and is active, repeats what
/// its source announced, and the source runs with the element, whatever was there before.
pub proof fn law_shown_video_flows(plan: Vec<Planned>, before: Scene)
    requires
        call_ensures(OpenTokSrc::enable_video, (), plan),
    ensures
        scene_after(plan@, 0, before) == (Scene {
            shown: before.shown.insert((Node::Element, Pad::Exposed)),
            active: before.active.insert(Pad::Exposed),
            repeated: before.repeated.insert((Pad::AppSrcSrc, Pad::Exposed)),
            states: before.states.insert(Node::AppSrc, Reached::Synced),
            settled: before.settled.remove(Node::AppSrc),
            ..before
        }),
        takes_in_turn(
            plan@,
            seq![
                Step::AddPad(Node::Element, Pad::Exposed),
                Step::ActivatePad(Pad::Exposed, true),
                Step::StaticPad(Pad::AppSrcSrc),
                Step::ForwardSticky(Pad::AppSrcSrc, Pad::Exposed),
                Step::SyncState(Node::AppSrc),
            ],
        ),
        forall|i: int| 0 <= i < plan@.len() ==> (#[trigger] plan@[i]).on_failure is Abort,
{
    reveal_with_fuel(scene_after, 7);
    reveal_with_fuel(takes_from, 7);
}

/// When the video of a stream has been hidden, its pad is off the element and is not active, its
/// source no longer runs, and the state of the element is not kept apart.
pub proof fn law_hidden_video_does_not_flow(plan: Vec<Planned>, before: Scene)
    requires
        call_ensures(OpenTokSrc::disable_video, (), plan),
    ensures
        scene_after(plan@, 0, before) == (Scene {
            shown: before.shown.remove((Node::Element, Pad::Exposed)),
            active: before.active.remove(Pad::Exposed),
            states: before.states.insert(Node::AppSrc, Reached::In(State::Ready)),
            settled: before.settled.remove(Node::AppSrc),
            locked: before.locked.remove(Node::Element),
            ..before
        }),
        takes_in_turn(
            plan@,
            seq![
                Step::ActivatePad(Pad::Exposed, false),
                Step::LockState(Node::Element, true),
                Step::SetState(Node::AppSrc, State::Ready),
                Step::LockState(Node::Element, false),
                Step::RemovePad(Node::Element, Pad::Exposed),
            ],
        ),
        forall|i: int| 0 <= i < plan@.len() ==> (#[trigger] plan@[i]).on_failure is Abort,
{
    reveal_with_fuel(scene_after, 7);
    reveal_with_fuel(takes_from, 7);
    assert(before.locked.insert(Node::Element).remove(Node::Element) =~= before.locked.remove(
        Node::Element,
    ));
}

/// A stream that was handed to its subscriber has one from then on, and the others keep theirs. Its
/// video is shown if it has any, as it always is. A stream that could not be handed over changes
/// nothing.
pub proof fn law_subscribed_stream_is_shown(
    element: &mut OpenTokSrc,
    stream_id: String,
    has_video: bool,
    set_stream: Result<(), String>,
    result: Result<Option<Vec<Planned>>, Error>,
    shown: Vec<Planned>,
)
    requires
        call_ensures(
            OpenTokSrc::stream_subscribed,
            (element, stream_id, has_video, set_stream),
            result,
        ),
        call_ensures(OpenTokSrc::enable_video, (), shown),
    ensures
        result is Ok <==> set_stream is Ok,
        set_stream matches Err(reason) ==> result == Err::<Option<Vec<Planned>>, Error>(
            Error::SubscriberStreamSetupFailed(reason),
        ) && final(element)@ == old(element)@,
        result matches Ok(plan) ==> {
            &&& final(element)@.subscribers.contains(stream_id@)
            &&& forall|other: Seq<char>|
                other != stream_id@ ==> (#[trigger] final(element)@.subscribers.contains(other)
                    <==> old(element)@.subscribers.contains(other))
            &&& final(element)@.credentials == old(element)@.credentials
            &&& final(element)@.session == old(element)@.session
            &&& final(element)@.stream_id == old(element)@.stream_id
            &&& plan is Some <==> has_video
            &&& plan matches Some(plan) ==> plan@ == shown@
        },
{
}

/// The stream that is dropped is the last one: no other stream has a subscriber.
pub open spec fn is_last(element: SrcView, stream_id: Seq<char>) -> bool {
    forall|other: Seq<char>| #[trigger] element.subscribers.contains(other) ==> other == stream_id
}

/// A stream that disappears loses its subscriber, and the others keep theirs. Nothing is done about
/// one that has none. Of one that has, the source is stopped and taken out, and its pad is neither
/// active nor shown. With the last stream the same becomes of the audio, and only with it. Only
/// waiting for a source, and a pad that is not there, cannot go wrong.
pub proof fn law_dropped_stream_is_gone(
    element: &mut OpenTokSrc,
    stream_id: &str,
    plan: Option<Vec<Planned>>,
    before: Scene,
)
    requires
        call_ensures(OpenTokSrc::stream_dropped, (element, stream_id), plan),
    ensures
        !final(element)@.subscribers.contains(stream_id@),
        forall|other: Seq<char>|
            other != stream_id@ ==> (#[trigger] final(element)@.subscribers.contains(other)
                <==> old(element)@.subscribers.contains(other)),
        final(element)@.credentials == old(element)@.credentials,
        final(element)@.session == old(element)@.session,
        final(element)@.stream_id == old(element)@.stream_id,
        plan is Some <==> old(element)@.subscribers.contains(stream_id@),
        plan matches Some(plan) ==> {
            let scene = scene_after(plan@, 0, before);
            &&& is_last(old(element)@, stream_id@) ==> scene == Scene {
                shown: before.shown.remove((Node::Element, Pad::Exposed)).remove(
                    (Node::Element, Pad::Audio),
                ),
                active: before.active.remove(Pad::Exposed).remove(Pad::Audio),
                held: before.held.remove((Node::Element, Node::AppSrc)).remove(
                    (Node::Element, Node::AudioAppSrc),
                ),
                states: before.states.insert(Node::AppSrc, Reached::In(State::Null)).insert(
                    Node::AudioAppSrc,
                    Reached::In(State::Null),
                ),
                settled: before.settled.insert(Node::AppSrc).insert(Node::AudioAppSrc),
                locked: before.locked.remove(Node::Element),
                ..before
            }
            &&& !is_last(old(element)@, stream_id@) ==> scene == Scene {
                shown: before.shown.remove((Node::Element, Pad::Exposed)),
                active: before.active.remove(Pad::Exposed),
                held: before.held.remove((Node::Element, Node::AppSrc)),
                states: before.states.insert(Node::AppSrc, Reached::In(State::Null)),
                settled: before.settled.insert(Node::AppSrc),
                locked: before.locked.remove(Node::Element),
                ..before
            }
            &&& takes_in_turn(
                plan@,
                seq![
                    Step::ActivatePad(Pad::Exposed, false),
                    Step::LockState(Node::Element, true),
                    Step::SetState(Node::AppSrc, State::Null),
                    Step::AwaitState(Node::AppSrc),
                    Step::Remove(Node::Element, Node::AppSrc),
                    Step::RemovePad(Node::Element, Pad::Exposed),
                    Step::LockState(Node::Element, false),
                ],
            )
            &&& is_last(old(element)@, stream_id@) ==> takes_in_turn(
                plan@,
                seq![
                    Step::LockState(Node::Element, true),
                    Step::RemovePad(Node::Element, Pad::Exposed),
                    Step::StaticPad(Pad::Audio),
                    Step::ActivatePad(Pad::Audio, false),
                    Step::FindAudioSource,
                    Step::SetState(Node::AudioAppSrc, State::Null),
                    Step::AwaitState(Node::AudioAppSrc),
                    Step::Remove(Node::Element, Node::AudioAppSrc),
                    Step::RemovePad(Node::Element, Pad::Audio),
                    Step::LockState(Node::Element, false),
                ],
            )
            &&& forall|i: int|
                0 <= i < plan@.len() ==> match (#[trigger] plan@[i]).step {
                    Step::AwaitState(_) => plan@[i].on_failure is Ignore,
                    Step::RemovePad(_, _) => plan@[i].on_failure is Ignore,
                    _ => plan@[i].on_failure is Abort,
                }
        },
{
    reveal_with_fuel(scene_after, 16);
    reveal_with_fuel(takes_from, 16);
    let left = old(element)@.subscribers.remove(stream_id@);
    if is_last(old(element)@, stream_id@) {
        assert(left =~= Set::empty());
    } else {
        let other = choose|other: Seq<char>|
            #[trigger] old(element)@.subscribers.contains(other) && other != stream_id@;
        assert(left.contains(other));
    }
    assert(before.locked.insert(Node::Element).remove(Node::Element) =~= before.locked.remove(
        Node::Element,
    ));
    let settled = before.settled.remove(Node::AppSrc).insert(Node::AppSrc);
    assert(settled =~= before.settled.insert(Node::AppSrc));
    assert(settled.remove(Node::AudioAppSrc).insert(Node::AudioAppSrc) =~= settled.insert(
        Node::AudioAppSrc,
    ));
}

/// When the audio has been set up, its source is live, stamps its buffers, runs with the element
/// and is in it, and stands behind a pad that is active, shown and named as one.
pub proof fn law_audio_flows(plan: Vec<Planned>)
    requires
        call_ensures(OpenTokSrc::init_audio, (), plan),
    ensures
        scene_of(plan@) == (Scene {
            made: set![(Node::AppSrc, Name::Fixed("audio_appsrc"))],
            flags: set![(Node::AppSrc, "is-live", true)],
            timed: set![Node::AppSrc],
            held: set![(Node::Element, Node::AppSrc)],
            shown: set![(Node::Element, Pad::Exposed)],
            named: set![(Pad::Exposed, Name::Fixed("audio_stream"))],
            targets: set![(Pad::Exposed, Pad::AppSrcSrc)],
            active: set![Pad::Exposed],
            states: map![Node::AppSrc => Reached::Synced],
            combined: set![Pad::Exposed],
            repeated: set![(Pad::AppSrcSrc, Pad::Exposed)],
            ..Scene::empty()
        }),
        takes_in_turn(
            plan@,
            seq![
                Step::Make(Node::AppSrc, Name::Fixed("audio_appsrc")),
                Step::Add(Node::Element, Node::AppSrc),
                Step::StaticPad(Pad::AppSrcSrc),
                Step::ChainedPad(Pad::Exposed, Name::Fixed("audio_stream"), Pad::AppSrcSrc),
                Step::CombineFlow(Pad::Exposed),
                Step::ActivatePad(Pad::Exposed, true),
                Step::ForwardSticky(Pad::AppSrcSrc, Pad::Exposed),
                Step::AddPad(Node::Element, Pad::Exposed),
                Step::SyncState(Node::AppSrc),
            ],
        ),
        forall|i: int|
            0 <= i < plan@.len() ==> (#[trigger] plan@[i]).on_failure == match plan@[i].step {
                Step::Make(_, _) => OnFailure::Report(Fault::MissingElement("appsrc")),
                Step::Add(_, _) => OnFailure::Report(Fault::AddElement("appsrc")),
                Step::StaticPad(_) => OnFailure::Report(Fault::ElementPad("appsrc.src")),
                Step::ChainedPad(_, _, _) => OnFailure::Report(
                    Fault::PadConstruction("audio", "ghost pad"),
                ),
                Step::ActivatePad(_, _) => OnFailure::Report(
                    Fault::PadActivation("audio ghost pad"),
                ),
                Step::AddPad(_, _) => OnFailure::Ignore,
                _ => OnFailure::Abort,
            },
{
    reveal_with_fuel(scene_after, 13);
    reveal_with_fuel(takes_from, 13);
    assert(scene_of(plan@).flags =~= set![(Node::AppSrc, "is-live", true)]);
}

/// When the element stops, its audio is stopped and taken out, and its pad is no longer shown.
pub proof fn law_stopped_audio_is_gone(present: bool, plan: Option<Vec<Planned>>, before: Scene)
    requires
        call_ensures(OpenTokSrc::stop_audio, (present,), plan),
    ensures
        plan is Some <==> present,
        plan matches Some(plan) ==> {
            &&& scene_after(plan@, 0, before) == Scene {
                shown: before.shown.remove((Node::Element, Pad::Audio)),
                held: before.held.remove((Node::Element, Node::AudioAppSrc)),
                states: before.states.insert(Node::AudioAppSrc, Reached::In(State::Null)),
                settled: before.settled.insert(Node::AudioAppSrc),
                locked: before.locked.remove(Node::Element),
                ..before
            }
            &&& takes_in_turn(
                plan@,
                seq![
                    Step::LockState(Node::Element, true),
                    Step::SetState(Node::AudioAppSrc, State::Null),
                    Step::AwaitState(Node::AudioAppSrc),
                    Step::Remove(Node::Element, Node::AudioAppSrc),
                    Step::StaticPad(Pad::Audio),
                    Step::LockState(Node::Element, false),
                    Step::RemovePad(Node::Element, Pad::Audio),
                ],
            )
            &&& forall|i: int|
                0 <= i < plan@.len() ==> (#[trigger] plan@[i]).on_failure == match plan@[i].step {
                    Step::SetState(_, _) => OnFailure::Report(Fault::StateChange),
                    Step::RemovePad(_, _) => OnFailure::Report(Fault::StateChange),
                    Step::AwaitState(_) => OnFailure::Ignore,
                    _ => OnFailure::Abort,
                }
        },
{
    reveal_with_fuel(scene_after, 9);
    reveal_with_fuel(takes_from, 9);
    assert(before.locked.insert(Node::Element).remove(Node::Element) =~= before.locked.remove(
        Node::Element,
    ));
    assert(before.settled.remove(Node::AudioAppSrc).insert(Node::AudioAppSrc)
        =~= before.settled.insert(Node::AudioAppSrc));
}

/// When the element stops, every stream loses its subscriber, each of them once: its source is
/// stopped and taken out, and its pad is no longer shown. What the element knows otherwise stays.
pub proof fn law_stopped_streams_are_gone(
    element: &mut OpenTokSrc,
    stopping: Stopping,
    before: Scene,
)
    requires
        call_ensures(OpenTokSrc::stop, (element,), stopping),
    ensures
        forall|id: Seq<char>| !#[trigger] final(element)@.subscribers.contains(id),
        forall|id: Seq<char>| #[trigger]
            texts(stopping.streams@).contains(id) <==> old(element)@.subscribers.contains(id),
        forall|i: int, j: int|
            0 <= i < j < stopping.streams@.len() ==> (#[trigger] stopping.streams@[i])@ != (
            #[trigger] stopping.streams@[j])@,
        final(element)@.credentials == old(element)@.credentials,
        final(element)@.session == old(element)@.session,
        final(element)@.stream_id == old(element)@.stream_id,
        scene_after(stopping.plan@, 0, before) == (Scene {
            shown: before.shown.remove((Node::Element, Pad::Exposed)),
            held: before.held.remove((Node::Element, Node::AppSrc)),
            states: before.states.insert(Node::AppSrc, Reached::In(State::Null)),
            settled: before.settled.insert(Node::AppSrc),
            locked: before.locked.remove(Node::Element),
            ..before
        }),
        takes_in_turn(
            stopping.plan@,
            seq![
                Step::LockState(Node::Element, true),
                Step::SetState(Node::AppSrc, State::Null),
                Step::AwaitState(Node::AppSrc),
                Step::Remove(Node::Element, Node::AppSrc),
                Step::LockState(Node::Element, false),
                Step::RemovePad(Node::Element, Pad::Exposed),
            ],
        ),
        forall|i: int|
            0 <= i < stopping.plan@.len() ==> (#[trigger] stopping.plan@[i]).on_failure
                == match stopping.plan@[i].step {
                Step::SetState(_, _) => OnFailure::Report(Fault::StateChange),
                Step::RemovePad(_, _) => OnFailure::Report(Fault::StateChange),
                Step::AwaitState(_) => OnFailure::Ignore,
                _ => OnFailure::Abort,
            },
{
    reveal_with_fuel(scene_after, 8);
    reveal_with_fuel(takes_from, 8);
    assert(before.locked.insert(Node::Element).remove(Node::Element) =~= before.locked.remove(
        Node::Element,
    ));
    let listed = texts(stopping.streams@);
    let known = old(element)@.subscribers;
    assert forall|id: Seq<char>| #[trigger] listed.contains(id) <==> known.contains(id) by {
        assert(listed.to_set().contains(id) <==> listed.contains(id));
    }
    assert forall|i: int, j: int| 0 <= i < j < stopping.streams@.len() implies (
    #[trigger] stopping.streams@[i])@ != (#[trigger] stopping.streams@[j])@ by {
        assert(listed[i] != listed[j]);
    }
    assert(before.settled.remove(Node::AppSrc).insert(Node::AppSrc) =~= before.settled.insert(
        Node::AppSrc,
    ));
}

/// A session is joined with the values that the element knows, and only if it knows all of them and
/// has joined none yet. The audio is set up with it.
pub proof fn law_session_is_joined_once(
    element: &OpenTokSrc,
    init: Option<SessionInit>,
    audio: Vec<Planned>,
)
    requires
        call_ensures(OpenTokSrc::init_audio, (), audio),
        call_ensures(OpenTokSrc::maybe_init_session, (element,), init),
    ensures
        init is Some <==> {
            &&& !element@.session
            &&& element@.credentials.api_key is Some
            &&& element@.credentials.session_id is Some
            &&& element@.credentials.token is Some
        },
        init matches Some(init) ==> {
            &&& element@.credentials.api_key == Some(init.keys.api_key@)
            &&& element@.credentials.session_id == Some(init.keys.session_id@)
            &&& element@.credentials.token == Some(init.keys.token@)
            &&& init.audio@ == audio@
        },
{
}

/// A session is joined with the values that are handed in, unless one was joined before. The audio
/// is set up with it.
pub proof fn law_session_has_the_given_values(
    element: &OpenTokSrc,
    keys: SessionKeys,
    init: Option<SessionInit>,
    audio: Vec<Planned>,
)
    requires
        call_ensures(OpenTokSrc::init_audio, (), audio),
        call_ensures(OpenTokSrc::init_session, (element, keys), init),
    ensures
        init is Some <==> !element@.session,
        init matches Some(init) ==> {
            &&& init.keys.api_key@ == keys.api_key@
            &&& init.keys.session_id@ == keys.session_id@
            &&& init.keys.token@ == keys.token@
            &&& init.audio@ == audio@
        },
{
}

/// A session that was made is there, whether it could be connected or not, and none is joined after
/// it. One that could not be made leaves the element as it was. Only one that is connected is no
/// failure, and the failure says why.
pub proof fn law_session_outcome(
    element: &mut OpenTokSrc,
    outcome: SessionOutcome,
    result: Result<(), Error>,
)
    requires
        call_ensures(OpenTokSrc::session_created, (element, outcome), result),
    ensures
        result is Ok <==> outcome is Connected,
        !(outcome is NotCreated) ==> final(element)@.session,
        outcome is NotCreated ==> final(element)@.session == old(element)@.session,
        final(element)@.credentials == old(element)@.credentials,
        final(element)@.stream_id == old(element)@.stream_id,
        final(element)@.subscribers == old(element)@.subscribers,
        outcome matches SessionOutcome::NotConnected(reason) ==> result matches Err(
            Error::Init(text),
        ) && text@ == "Connection error "@ + reason@,
        outcome matches SessionOutcome::NotCreated(reason) ==> result matches Err(
            Error::Init(text),
        ) && text@ == "Failed to create OpenTok session `"@ + reason@,
{
}

/// The element starts on its way up from the lowest state, stops on its way down to ready, and is
/// live: it says so when it pauses on its way up, and only then does it change what is reported.
pub proof fn law_states_of_a_live_source(
    change: StateChange,
    success: StateChangeSuccess,
    changed: (StateChangeSuccess, bool),
    starts: bool,
)
    requires
        call_ensures(OpenTokSrc::change_state, (change, success), changed),
        call_ensures(OpenTokSrc::starts, (change,), starts),
    ensures
        starts <==> change == StateChange::NullToReady,
        changed.1 <==> change == StateChange::PausedToReady,
        change == StateChange::ReadyToPaused ==> changed.0 == StateChangeSuccess::NoPreroll,
        change != StateChange::ReadyToPaused ==> changed.0 == success,
{
}

} // verus!
