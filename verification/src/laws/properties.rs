//! How the properties of the elements are set and read.

use crate::common::credentials::CredentialsError;
use crate::common::credentials::CredentialsView;
use crate::common::credentials::Field;
use crate::common::url::Url;
use crate::element::Metadata;
use crate::element::PropertyError;
use crate::element::PropertyKind;
use crate::element::PropertySpec;
use crate::element::PropertyValue;
use crate::element::PropertyView;
use crate::laws::joining::refuses_room;
use crate::opentoksink_remote;
use crate::opentoksink_remote::OpenTokSinkRemote;
use crate::opentoksink_remote::SinkRemoteView;
use crate::opentoksrc;
use crate::opentoksrc::OpenTokSrc;
use crate::opentoksrc::SrcView;
use crate::text::opt_text;
use vstd::prelude::*;

verus! {

/// The property stands for one value of the credentials of a source element, or for its stream.
pub open spec fn is_value(name: Seq<char>) -> bool {
    name == "api-key"@ || name == "session-id"@ || name == "token"@ || name == "stream-id"@
}

/// A value that was set is the value that is read, and no other property has changed, apart from
/// the location, which names the session.
pub proof fn law_source_value_is_read_back(
    element: &mut OpenTokSrc,
    name: &str,
    value: String,
    result: Result<(), PropertyError>,
    later: &OpenTokSrc,
    read: PropertyValue,
    other: &str,
    earlier: &OpenTokSrc,
    read_earlier: PropertyValue,
    read_later: PropertyValue,
)
    requires
        is_value(name@),
        call_ensures(OpenTokSrc::set_property, (element, name, Some(value)), result),
        later@ == final(element)@,
        earlier@ == old(element)@,
        call_ensures(OpenTokSrc::property, (later, name), read),
        opentoksrc::readable(other@),
        call_ensures(OpenTokSrc::property, (earlier, other), read_earlier),
        call_ensures(OpenTokSrc::property, (later, other), read_later),
    ensures
        name@ == "stream-id"@ ==> result is Ok,
        name@ != "stream-id"@ ==> (result is Ok <==> old(element)@.credentials.room_uri is None),
        result is Ok ==> read@ == PropertyView::Text(Some(value@)),
        result is Ok && name@ == "session-id"@ && other@ == "location"@ ==> read_later@
            == PropertyView::Text(Some("opentok://"@ + value@)),
        other@ != name@ && !(name@ == "session-id"@ && other@ == "location"@) ==> read_later@
            == read_earlier@,
        result is Err ==> final(element)@ == old(element)@,
        result matches Err(error) ==> error == PropertyError::Credentials(
            CredentialsError::RoomUriSet(
                if name@ == "api-key"@ {
                    Field::ApiKey
                } else if name@ == "session-id"@ {
                    Field::SessionId
                } else {
                    Field::Token
                },
            ),
        ),
        final(element)@.credentials.stream_id == old(element)@.credentials.stream_id,
        final(element)@.credentials.room_uri == old(element)@.credentials.room_uri,
        final(element)@.session == old(element)@.session,
        final(element)@.subscribers == old(element)@.subscribers,
{
    opentoksrc::lemma_property_names_differ();
}

/// A property that is set to no value stays as it is, and so do all others.
pub proof fn law_no_value_changes_nothing(
    element: &mut OpenTokSrc,
    name: &str,
    result: Result<(), PropertyError>,
)
    requires
        is_value(name@),
        call_ensures(OpenTokSrc::set_property, (element, name, None), result),
    ensures
        result is Ok,
        final(element)@ == old(element)@,
{
    opentoksrc::lemma_property_names_differ();
}

/// A room is taken as a property if it is a url and no value is known, and its url is what is read.
/// Nothing changes otherwise.
pub proof fn law_source_room_is_read_back(
    element: &mut OpenTokSrc,
    name: &str,
    value: String,
    result: Result<(), PropertyError>,
    later: &OpenTokSrc,
    read: PropertyValue,
    text: &str,
    parsed: Result<Url, String>,
)
    requires
        name@ == "demo-room-uri"@,
        call_ensures(OpenTokSrc::set_property, (element, name, Some(value)), result),
        later@ == final(element)@,
        call_ensures(OpenTokSrc::property, (later, name), read),
        text@ == value@,
        call_ensures(Url::parse, (text,), parsed),
    ensures
        result is Ok <==> {
            &&& old(element)@.credentials.api_key is None
            &&& old(element)@.credentials.session_id is None
            &&& old(element)@.credentials.token is None
            &&& old(element)@.credentials.stream_id is None
            &&& parsed is Ok
        },
        result is Ok ==> read@ == PropertyView::Text(Some(parsed->Ok_0.text@)),
        result is Ok ==> final(element)@ == (SrcView {
            credentials: CredentialsView {
                room_uri: Some(parsed->Ok_0@),
                ..old(element)@.credentials
            },
            ..old(element)@
        }),
        result is Err ==> final(element)@ == old(element)@,
        result matches Err(error) ==> {
            &&& error matches PropertyError::Credentials(error)
            &&& refuses_room(error, old(element)@.credentials, parsed)
        },
{
    opentoksrc::lemma_property_names_differ();
}

/// What is read of a source element is what it knows: nothing, where a value is not known; an empty
/// stream, where none was chosen. It is always live.
pub proof fn law_source_properties_are_what_it_knows(
    element: &OpenTokSrc,
    name: &str,
    read: PropertyValue,
)
    requires
        opentoksrc::readable(name@),
        call_ensures(OpenTokSrc::property, (element, name), read),
    ensures
        name@ == "api-key"@ ==> read@ == PropertyView::Text(element@.credentials.api_key),
        name@ == "session-id"@ ==> read@ == PropertyView::Text(element@.credentials.session_id),
        name@ == "token"@ ==> read@ == PropertyView::Text(element@.credentials.token),
        name@ == "stream-id"@ && element@.stream_id is Some ==> read@ == PropertyView::Text(
            element@.stream_id,
        ),
        name@ == "stream-id"@ && element@.stream_id is None ==> read@ == PropertyView::Text(
            Some(""@),
        ),
        name@ == "location"@ && element@.credentials.session_id is Some ==> read@
            == PropertyView::Text(Some("opentok://"@ + element@.credentials.session_id->0)),
        name@ == "location"@ && element@.credentials.session_id is None ==> read@
            == PropertyView::Text(None),
        name@ == "demo-room-uri"@ && element@.credentials.room_uri is None ==> read@
            == PropertyView::Text(None),
        name@ == "demo-room-uri"@ && element@.credentials.room_uri is Some ==> read@
            == PropertyView::Text(Some(element@.credentials.room_uri->0.text)),
        name@ == "is-live"@ ==> read@ == PropertyView::Flag(true),
{
    opentoksrc::lemma_property_names_differ();
}

/// The name that others see is read back as it was set, and no other property of the sink element
/// has changed.
pub proof fn law_sink_display_name_is_read_back(
    element: &mut OpenTokSinkRemote,
    name: &str,
    value: Option<String>,
    result: Result<(), PropertyError>,
    later: &OpenTokSinkRemote,
    read: Option<String>,
    other: &str,
    earlier: &OpenTokSinkRemote,
    read_earlier: Option<String>,
    read_later: Option<String>,
)
    requires
        name@ == "display-name"@,
        call_ensures(OpenTokSinkRemote::set_property, (element, name, value), result),
        later@ == final(element)@,
        earlier@ == old(element)@,
        call_ensures(OpenTokSinkRemote::property, (later, name), read),
        opentoksink_remote::readable(other@),
        other@ != name@,
        call_ensures(OpenTokSinkRemote::property, (earlier, other), read_earlier),
        call_ensures(OpenTokSinkRemote::property, (later, other), read_later),
    ensures
        result is Ok,
        opt_text(read) == opt_text(value),
        opt_text(read_later) == opt_text(read_earlier),
        final(element)@ == (SinkRemoteView { display_name: opt_text(value), ..old(element)@ }),
{
    opentoksink_remote::lemma_property_names_differ();
}

/// A room is taken as a property of the sink element if it is a url and no value is known, and its
/// url is what is read. Nothing changes otherwise.
pub proof fn law_sink_room_is_read_back(
    element: &mut OpenTokSinkRemote,
    name: &str,
    value: String,
    result: Result<(), PropertyError>,
    later: &OpenTokSinkRemote,
    read: Option<String>,
    text: &str,
    parsed: Result<Url, String>,
)
    requires
        name@ == "demo-room-uri"@,
        call_ensures(OpenTokSinkRemote::set_property, (element, name, Some(value)), result),
        later@ == final(element)@,
        call_ensures(OpenTokSinkRemote::property, (later, name), read),
        text@ == value@,
        call_ensures(Url::parse, (text,), parsed),
    ensures
        result is Ok <==> {
            &&& old(element)@.credentials.api_key is None
            &&& old(element)@.credentials.session_id is None
            &&& old(element)@.credentials.token is None
            &&& old(element)@.credentials.stream_id is None
            &&& parsed is Ok
        },
        result is Ok ==> opt_text(read) == Some(parsed->Ok_0.text@),
        result is Ok ==> final(element)@ == (SinkRemoteView {
            credentials: CredentialsView {
                room_uri: Some(parsed->Ok_0@),
                ..old(element)@.credentials
            },
            ..old(element)@
        }),
        result is Err ==> final(element)@ == old(element)@,
        result matches Err(error) ==> {
            &&& error matches PropertyError::Credentials(error)
            &&& refuses_room(error, old(element)@.credentials, parsed)
        },
{
    opentoksink_remote::lemma_property_names_differ();
}

/// What is read of a sink element is what it knows: the stream that it published, or an empty one;
/// its session as a location; nothing, where something is not known.
pub proof fn law_sink_properties_are_what_it_knows(
    element: &OpenTokSinkRemote,
    name: &str,
    read: Option<String>,
)
    requires
        opentoksink_remote::readable(name@),
        call_ensures(OpenTokSinkRemote::property, (element, name), read),
    ensures
        name@ == "stream-id"@ && element@.published_stream_id is Some ==> opt_text(read)
            == element@.published_stream_id,
        name@ == "stream-id"@ && element@.published_stream_id is None ==> opt_text(read) == Some(
            ""@,
        ),
        name@ == "display-name"@ ==> opt_text(read) == element@.display_name,
        name@ == "location"@ && element@.credentials.session_id is Some ==> opt_text(read) == Some(
            "opentok://"@ + element@.credentials.session_id->0,
        ),
        name@ == "location"@ && element@.credentials.session_id is None ==> read is None,
        name@ == "demo-room-uri"@ && element@.credentials.room_uri is None ==> read is None,
        name@ == "demo-room-uri"@ && element@.credentials.room_uri is Some ==> opt_text(read)
            == Some(element@.credentials.room_uri->0.text),
{
    opentoksink_remote::lemma_property_names_differ();
}

/// An element declares a property of this name, as a text or a flag that can be set or not.
pub open spec fn declares_as(
    properties: Seq<PropertySpec>,
    name: Seq<char>,
    kind: PropertyKind,
    writable: bool,
) -> bool {
    exists|i: int|
        0 <= i < properties.len() && (#[trigger] properties[i]).name@ == name && properties[i].kind
            == kind && properties[i].writable == writable
}

/// The elements declare the properties that can be set and read, and no others. All of them are
/// texts that can be set, but for the stream of the sink, which is only read, and the flag that says
/// that the source is live.
pub proof fn law_elements_declare_their_properties(
    source: Vec<PropertySpec>,
    sink: Vec<PropertySpec>,
    i: int,
)
    requires
        call_ensures(OpenTokSrc::properties, (), source),
        call_ensures(OpenTokSinkRemote::properties, (), sink),
    ensures
        declares_as(source@, "api-key"@, PropertyKind::Text, true),
        declares_as(source@, "session-id"@, PropertyKind::Text, true),
        declares_as(source@, "token"@, PropertyKind::Text, true),
        declares_as(source@, "stream-id"@, PropertyKind::Text, true),
        declares_as(source@, "location"@, PropertyKind::Text, true),
        declares_as(source@, "demo-room-uri"@, PropertyKind::Text, true),
        declares_as(source@, "is-live"@, PropertyKind::Flag(true), true),
        source@.len() == 7,
        declares_as(sink@, "location"@, PropertyKind::Text, true),
        declares_as(sink@, "stream-id"@, PropertyKind::Text, false),
        declares_as(sink@, "demo-room-uri"@, PropertyKind::Text, true),
        declares_as(sink@, "display-name"@, PropertyKind::Text, true),
        sink@.len() == 4,
        0 <= i < source@.len() ==> opentoksrc::readable(source@[i].name@),
        0 <= i < sink@.len() ==> opentoksink_remote::readable(sink@[i].name@),
{
    assert(source@[0].name@ == "api-key"@);
    assert(source@[1].name@ == "session-id"@);
    assert(source@[2].name@ == "token"@);
    assert(source@[3].name@ == "stream-id"@);
    assert(source@[4].name@ == "location"@);
    assert(source@[5].name@ == "demo-room-uri"@);
    assert(source@[6].name@ == "is-live"@);
    assert(sink@[0].name@ == "location"@);
    assert(sink@[1].name@ == "stream-id"@);
    assert(sink@[2].name@ == "demo-room-uri"@);
    assert(sink@[3].name@ == "display-name"@);
}

/// The properties that can be set and read are these, under these names.
pub proof fn law_properties_have_names(name: Seq<char>)
    ensures
        opentoksrc::settable(name) <==> is_value(name) || name == "location"@ || name
            == "demo-room-uri"@,
        opentoksrc::readable(name) <==> opentoksrc::settable(name) || name == "is-live"@,
        opentoksrc::needs_text(name) <==> name == "location"@ || name == "demo-room-uri"@,
        opentoksink_remote::settable(name) <==> name == "location"@ || name == "demo-room-uri"@
            || name == "display-name"@,
        opentoksink_remote::readable(name) <==> opentoksink_remote::settable(name) || name
            == "stream-id"@,
        opentoksink_remote::settable(name) ==> (opentoksink_remote::needs_text(name) <==> name
            != "display-name"@),
{
}

/// Each element handles locations of its own protocol, and announces streams if it publishes them.
pub proof fn law_elements_have_their_own_protocol(
    source: Vec<&'static str>,
    sink: Vec<&'static str>,
    signals: Vec<(&'static str, usize)>,
)
    requires
        call_ensures(OpenTokSrc::protocols, (), source),
        call_ensures(OpenTokSinkRemote::protocols, (), sink),
        call_ensures(OpenTokSinkRemote::signals, (), signals),
    ensures
        source@.len() == 1 && source@[0]@ == "opentok"@,
        sink@.len() == 1 && sink@[0]@ == "opentok-remote"@,
        signals@.len() == 1 && signals@[0].0@ == "published-stream"@ && signals@[0].1 == 2,
{
}

/// The text that says what a property is for, if there is one.
pub open spec fn blurb_of(property: PropertySpec) -> Seq<char> {
    property.blurb->0@
}

/// The elements say what their properties are for, and themselves.
pub proof fn law_elements_describe_themselves(
    source: Vec<PropertySpec>,
    sink: Vec<PropertySpec>,
    i: int,
    of_source: Metadata,
    of_sink: Metadata,
)
    requires
        call_ensures(OpenTokSrc::properties, (), source),
        call_ensures(OpenTokSinkRemote::properties, (), sink),
        call_ensures(OpenTokSrc::metadata, (), of_source),
        call_ensures(OpenTokSinkRemote::metadata, (), of_sink),
    ensures
        0 <= i < source@.len() ==> {
            let (name, blurb) = (source@[i].name@, blurb_of(source@[i]));
            &&& source@[i].blurb is None <==> name == "is-live"@
            &&& name == "api-key"@ ==> blurb == "OpenTok API key"@
            &&& name == "session-id"@ ==> blurb == "OpenTok session unique identifier"@
            &&& name == "token"@ ==> blurb == "OpenTok session token"@
            &&& name == "stream-id"@ ==> blurb
                == "Unique identifier of the OpenTok stream this source subscribes to"@
        },
        0 <= i < sink@.len() ==> {
            let (name, blurb) = (sink@[i].name@, blurb_of(sink@[i]));
            &&& sink@[i].blurb is Some
            &&& name == "stream-id"@ ==> blurb
                == "Unique identifier of the OpenTok stream this sink is publishing"@
            &&& name == "display-name"@ ==> blurb == "Peer display name"@
        },
        of_source.long_name@ == "OpenTok Source"@,
        of_source.classification@ == "Source/Network"@,
        of_source.description@ == "Receives audio and video streams from an OpenTok session"@,
        of_sink.long_name@ == "OpenTok Sink Remote"@,
        of_sink.classification@ == "Sink/Network"@,
        of_sink.description@
            == "Send audio and video streams to an OpenTok session in a separate process"@,
{
    opentoksrc::lemma_property_names_differ();
    opentoksink_remote::lemma_property_names_differ();
}

/// A new element knows nothing, and does nothing yet.
pub proof fn law_new_elements_know_nothing(source: OpenTokSrc, sink: OpenTokSinkRemote)
    requires
        call_ensures(OpenTokSrc::new, (), source),
        call_ensures(OpenTokSinkRemote::new, (), sink),
    ensures
        source@.credentials.api_key is None,
        source@.credentials.session_id is None,
        source@.credentials.token is None,
        source@.credentials.stream_id is None,
        source@.credentials.room_uri is None,
        source@.stream_id is None,
        !source@.session,
        forall|id: Seq<char>| !#[trigger] source@.subscribers.contains(id),
        sink@.credentials == source@.credentials,
        sink@.stream_id is None,
        sink@.display_name is None,
        sink@.published_stream_id is None,
        !sink@.child_running && !sink@.ipc_connected,
        !sink@.can_emit && !sink@.ipc_thread_running,
        !sink@.audio_bin && !sink@.video_bin,
{
}

} // verus!
