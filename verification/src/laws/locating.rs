//! How a session is found at a location.

use crate::common::credentials::parse_location;
use crate::common::url::is_simple;
use crate::common::url::lemma_simple_parts_plain;
use crate::common::url::location;
use crate::common::url::location_text;
use crate::common::url::parsed_view;
use crate::common::url::url_parse;
use crate::common::url::Protocol;
use crate::common::url::Url;
use crate::common::Credentials;
use crate::element::LocationError;
use crate::element::PropertyError;
use crate::element::SessionKeys;
use crate::opentoksink_remote::OpenTokSinkRemote;
use crate::opentoksink_remote::SinkRemoteView;
use crate::opentoksrc::OpenTokSrc;
use crate::text::opt_text;
use vstd::prelude::*;

verus! {

/// The text is the location of a stream in a session, of one of the two protocols, with parts of
/// letters, digits, hyphens and underscores that a url can count.
pub open spec fn is_stream_location(
    text: Seq<char>,
    session_id: Seq<char>,
    stream_id: Seq<char>,
    api_key: Seq<char>,
    token: Seq<char>,
) -> bool {
    &&& is_simple(session_id)
    &&& is_simple(stream_id)
    &&& is_simple(api_key)
    &&& is_simple(token)
    &&& session_id.len() < 0x8000_0000
    &&& session_id.len() + stream_id.len() < 0xffff_0000
    &&& {
        let rest = session_id + "/"@ + stream_id + "?key="@ + api_key + "&token="@ + token;
        text == "opentok://"@ + rest || text == "opentok-remote://"@ + rest
    }
}

/// The text is the location of a session, with no stream in it.
pub open spec fn is_session_location(
    text: Seq<char>,
    session_id: Seq<char>,
    api_key: Seq<char>,
    token: Seq<char>,
) -> bool {
    &&& is_simple(session_id)
    &&& is_simple(api_key)
    &&& is_simple(token)
    &&& session_id.len() < 0x8000_0000
    &&& {
        let rest = session_id + "?key="@ + api_key + "&token="@ + token;
        text == "opentok://"@ + rest || text == "opentok-remote://"@ + rest
    }
}

/// The protocol that the text of a location starts with.
spec fn protocol_of(text: Seq<char>) -> Protocol {
    if text.len() > 7 && text[7] == ':' {
        Protocol::OpenTok
    } else {
        Protocol::OpenTokRemote
    }
}

proof fn lemma_stream_location(
    text: Seq<char>,
    session_id: Seq<char>,
    stream_id: Seq<char>,
    api_key: Seq<char>,
    token: Seq<char>,
)
    requires
        is_stream_location(text, session_id, stream_id, api_key, token),
    ensures
        crate::common::url::plain_location(
            protocol_of(text),
            session_id,
            Some(stream_id),
            api_key,
            token,
        ),
        crate::common::url::plain_parts(session_id, Some(stream_id), api_key, token),
        text == location_text(protocol_of(text), session_id, Some(stream_id), api_key, token),
{
    reveal_strlit("opentok://");
    reveal_strlit("opentok-remote://");
    reveal_strlit("/");
    lemma_simple_parts_plain(session_id, stream_id, api_key, token);
    let rest = session_id + "/"@ + stream_id + "?key="@ + api_key + "&token="@ + token;
    if text == "opentok://"@ + rest {
        assert(text[7] == ':');
    } else {
        assert(text[7] == '-');
    }
    assert(text =~= location_text(protocol_of(text), session_id, Some(stream_id), api_key, token));
}

proof fn lemma_session_location(
    text: Seq<char>,
    session_id: Seq<char>,
    api_key: Seq<char>,
    token: Seq<char>,
)
    requires
        is_session_location(text, session_id, api_key, token),
    ensures
        crate::common::url::plain_location(protocol_of(text), session_id, None, api_key, token),
        crate::common::url::plain_parts(session_id, None, api_key, token),
        text == location_text(protocol_of(text), session_id, None, api_key, token),
{
    reveal_strlit("opentok://");
    reveal_strlit("opentok-remote://");
    lemma_simple_parts_plain(session_id, session_id, api_key, token);
    let rest = session_id + "?key="@ + api_key + "&token="@ + token;
    if text == "opentok://"@ + rest {
        assert(text[7] == ':');
    } else {
        assert(text[7] == '-');
    }
    assert(text =~= location_text(protocol_of(text), session_id, None, api_key, token));
}

/// A location is written with its parts in their places.
pub proof fn law_location_is_written(
    protocol: Protocol,
    session_id: &str,
    stream_id: Option<&str>,
    api_key: &str,
    token: &str,
    text: String,
)
    requires
        call_ensures(location, (protocol, session_id, stream_id, api_key, token), text),
    ensures
        text@ == (if protocol is OpenTok {
            "opentok://"@
        } else {
            "opentok-remote://"@
        }) + session_id@ + (if stream_id is Some {
            "/"@ + stream_id->0@
        } else {
            Seq::empty()
        }) + "?key="@ + api_key@ + "&token="@ + token@,
{
    assert(text@ =~= (if protocol is OpenTok {
        "opentok://"@
    } else {
        "opentok-remote://"@
    }) + session_id@ + (if stream_id is Some {
        "/"@ + stream_id->0@
    } else {
        Seq::empty()
    }) + "?key="@ + api_key@ + "&token="@ + token@);
}

/// The parts of a location are read off it, each from its place.
pub proof fn law_location_is_read(
    text: &str,
    result: Result<Credentials, String>,
    session_id: Seq<char>,
    stream_id: Seq<char>,
    api_key: Seq<char>,
    token: Seq<char>,
)
    requires
        call_ensures(parse_location, (text,), result),
    ensures
        is_stream_location(text@, session_id, stream_id, api_key, token) ==> {
            &&& result is Ok
            &&& result->Ok_0@.session_id == Some(session_id)
            &&& result->Ok_0@.stream_id == Some(stream_id)
            &&& result->Ok_0@.api_key == Some(api_key)
            &&& result->Ok_0@.token == Some(token)
            &&& result->Ok_0@.room_uri is None
        },
        is_session_location(text@, session_id, api_key, token) ==> {
            &&& result is Ok
            &&& result->Ok_0@.session_id == Some(session_id)
            &&& result->Ok_0@.stream_id is None
            &&& result->Ok_0@.api_key == Some(api_key)
            &&& result->Ok_0@.token == Some(token)
            &&& result->Ok_0@.room_uri is None
        },
{
    if is_stream_location(text@, session_id, stream_id, api_key, token) {
        lemma_stream_location(text@, session_id, stream_id, api_key, token);
    }
    if is_session_location(text@, session_id, api_key, token) {
        lemma_session_location(text@, session_id, api_key, token);
    }
}

/// The session of a url is its host, and its stream the only segment of its path.
pub proof fn law_url_gives_session_and_stream(url: Url, credentials: Credentials)
    requires
        call_ensures(<Credentials as From<Url>>::from, (url,), credentials),
    ensures
        url@.host is Some ==> credentials@.session_id == url@.host,
        url@.host is None ==> credentials@.session_id == Some(Seq::<char>::empty()),
        url@.path_segments is Some && url@.path_segments->0.len() == 1 ==> credentials@.stream_id
            == Some(url@.path_segments->0[0]),
        !(url@.path_segments is Some && url@.path_segments->0.len() == 1)
            ==> credentials@.stream_id is None,
        credentials@.room_uri is None,
{
}

/// The last pair of a query with this name is the one at `i`.
pub open spec fn is_last_pair(
    pairs: Seq<(Seq<char>, Seq<char>)>,
    name: Seq<char>,
    i: int,
) -> bool {
    &&& 0 <= i < pairs.len()
    &&& pairs[i].0 == name
    &&& forall|j: int| i < j < pairs.len() ==> (#[trigger] pairs[j]).0 != name
}

/// No pair of a query has this name.
pub open spec fn lacks_pair(pairs: Seq<(Seq<char>, Seq<char>)>, name: Seq<char>) -> bool {
    forall|j: int| 0 <= j < pairs.len() ==> (#[trigger] pairs[j]).0 != name
}

/// The last pair of a name in a query counts.
pub proof fn law_last_pair_counts(pairs: Seq<(Seq<char>, Seq<char>)>, name: Seq<char>, i: int)
    ensures
        is_last_pair(pairs, name, i) ==> crate::common::credentials::last_value(pairs, name)
            == Some(pairs[i].1),
        lacks_pair(pairs, name) ==> crate::common::credentials::last_value(pairs, name) is None,
    decreases pairs.len(),
{
    if pairs.len() > 0 {
        let rest = pairs.drop_last();
        assert forall|k: int| 0 <= k < rest.len() implies #[trigger] rest[k] == pairs[k] by {}
        assert(pairs.last() == pairs[pairs.len() - 1]);
        law_last_pair_counts(rest, name, i);
        if is_last_pair(pairs, name, i) && i < rest.len() {
            assert(pairs[pairs.len() - 1].0 != name);
            assert forall|j: int| i < j < rest.len() implies (#[trigger] rest[j]).0 != name by {
                assert(pairs[j].0 != name);
            }
        }
        if lacks_pair(pairs, name) {
            assert(pairs[pairs.len() - 1].0 != name);
            assert forall|j: int| 0 <= j < rest.len() implies (#[trigger] rest[j]).0 != name by {
                assert(pairs[j].0 != name);
            }
        }
    }
}

/// The key and the token of a url are the last ones of its query, and empty where it has none.
pub proof fn law_url_gives_key_and_token(url: Url, credentials: Credentials, i: int)
    requires
        call_ensures(<Credentials as From<Url>>::from, (url,), credentials),
    ensures
        is_last_pair(url@.query_pairs, "key"@, i) ==> credentials@.api_key == Some(
            url@.query_pairs[i].1,
        ),
        is_last_pair(url@.query_pairs, "token"@, i) ==> credentials@.token == Some(
            url@.query_pairs[i].1,
        ),
        lacks_pair(url@.query_pairs, "key"@) ==> credentials@.api_key == Some(Seq::<char>::empty()),
        lacks_pair(url@.query_pairs, "token"@) ==> credentials@.token == Some(
            Seq::<char>::empty(),
        ),
{
    law_last_pair_counts(url@.query_pairs, "key"@, i);
    law_last_pair_counts(url@.query_pairs, "token"@, i);
}

/// A source element to which no room was told takes over a location with a stream: it knows the
/// session, the key and the token, and wants exactly the stream, however it is told.
pub proof fn law_source_takes_the_stream_of_a_location(
    by_location: &mut OpenTokSrc,
    by_uri: &mut OpenTokSrc,
    by_property: &mut OpenTokSrc,
    text: &str,
    value: String,
    name: &str,
    located: Result<(), LocationError>,
    called: Result<(), LocationError>,
    set: Result<(), PropertyError>,
    session_id: Seq<char>,
    stream_id: Seq<char>,
    api_key: Seq<char>,
    token: Seq<char>,
)
    requires
        is_stream_location(text@, session_id, stream_id, api_key, token),
        value@ == text@,
        name@ == "location"@,
        old(by_location)@.credentials.room_uri is None,
        old(by_uri)@.credentials.room_uri is None,
        old(by_property)@.credentials.room_uri is None,
        call_ensures(OpenTokSrc::set_location, (by_location, text), located),
        call_ensures(OpenTokSrc::set_uri, (by_uri, text), called),
        call_ensures(OpenTokSrc::set_property, (by_property, name, Some(value)), set),
    ensures
        located is Ok && called is Ok && set is Ok,
        final(by_location)@.stream_id == Some(stream_id),
        final(by_location)@.credentials.session_id == Some(session_id),
        final(by_location)@.credentials.stream_id == Some(stream_id),
        final(by_location)@.credentials.api_key == Some(api_key),
        final(by_location)@.credentials.token == Some(token),
        final(by_location)@.credentials.room_uri is None,
        final(by_location)@.session == old(by_location)@.session,
        final(by_location)@.subscribers == old(by_location)@.subscribers,
        final(by_uri)@.stream_id == Some(stream_id),
        final(by_uri)@.credentials == final(by_location)@.credentials,
        final(by_uri)@.session == old(by_uri)@.session,
        final(by_uri)@.subscribers == old(by_uri)@.subscribers,
        final(by_property)@.stream_id == Some(stream_id),
        final(by_property)@.credentials == final(by_location)@.credentials,
        final(by_property)@.session == old(by_property)@.session,
        final(by_property)@.subscribers == old(by_property)@.subscribers,
{
    lemma_stream_location(text@, session_id, stream_id, api_key, token);
    crate::opentoksrc::lemma_property_names_differ();
}

/// A source element takes over a location without a stream in the same way, and wants what it
/// wanted before.
pub proof fn law_source_takes_the_session_of_a_location(
    by_location: &mut OpenTokSrc,
    by_property: &mut OpenTokSrc,
    text: &str,
    value: String,
    name: &str,
    located: Result<(), LocationError>,
    set: Result<(), PropertyError>,
    session_id: Seq<char>,
    api_key: Seq<char>,
    token: Seq<char>,
)
    requires
        is_session_location(text@, session_id, api_key, token),
        value@ == text@,
        name@ == "location"@,
        old(by_location)@.credentials.room_uri is None,
        old(by_property)@.credentials.room_uri is None,
        call_ensures(OpenTokSrc::set_location, (by_location, text), located),
        call_ensures(OpenTokSrc::set_property, (by_property, name, Some(value)), set),
    ensures
        located is Ok && set is Ok,
        final(by_location)@.stream_id == old(by_location)@.stream_id,
        final(by_location)@.credentials.session_id == Some(session_id),
        final(by_location)@.credentials.stream_id is None,
        final(by_location)@.credentials.api_key == Some(api_key),
        final(by_location)@.credentials.token == Some(token),
        final(by_property)@.stream_id == old(by_property)@.stream_id,
        final(by_property)@.credentials == final(by_location)@.credentials,
{
    lemma_session_location(text@, session_id, api_key, token);
    crate::opentoksrc::lemma_property_names_differ();
}

/// A location is refused by a source element that was told of a room, and whatever is refused
/// changes nothing.
pub proof fn law_refused_location_changes_nothing(
    element: &mut OpenTokSrc,
    text: &str,
    result: Result<(), LocationError>,
    by_property: &mut OpenTokSrc,
    name: &str,
    value: String,
    set: Result<(), PropertyError>,
)
    requires
        call_ensures(OpenTokSrc::set_location, (element, text), result),
        name@ == "location"@,
        call_ensures(OpenTokSrc::set_property, (by_property, name, Some(value)), set),
    ensures
        result is Err ==> final(element)@ == old(element)@,
        old(element)@.credentials.room_uri is Some ==> result == Err::<(), LocationError>(
            LocationError::CredentialsSet,
        ),
        old(element)@.credentials.room_uri is None && result is Err
            ==> result->Err_0 is Malformed,
        set is Err ==> final(by_property)@ == old(by_property)@,
        old(by_property)@.credentials.room_uri is Some ==> set == Err::<(), PropertyError>(
            PropertyError::Location(LocationError::CredentialsSet),
        ),
{
    crate::opentoksrc::lemma_property_names_differ();
}

/// A source element wants the stream that was chosen last.
pub proof fn law_chosen_stream_is_wanted(element: &mut OpenTokSrc, id: String)
    requires
        call_ensures(OpenTokSrc::set_stream_id, (element, id), ()),
    ensures
        final(element)@.stream_id == Some(id@),
        final(element)@.credentials == old(element)@.credentials,
        final(element)@.session == old(element)@.session,
        final(element)@.subscribers == old(element)@.subscribers,
{
}

/// A sink element takes over a location with a stream unless its stream was chosen before, however
/// it is told: it knows the session, the key and the token, and publishes under the stream. Told by
/// its uri, it gives the values to start the helper with.
pub proof fn law_sink_takes_the_stream_of_a_location(
    by_location: &mut OpenTokSinkRemote,
    by_uri: &mut OpenTokSinkRemote,
    by_property: &mut OpenTokSinkRemote,
    text: &str,
    value: String,
    name: &str,
    located: Result<(), LocationError>,
    called: Result<Option<SessionKeys>, LocationError>,
    set: Result<(), PropertyError>,
    session_id: Seq<char>,
    stream_id: Seq<char>,
    api_key: Seq<char>,
    token: Seq<char>,
)
    requires
        is_stream_location(text@, session_id, stream_id, api_key, token),
        value@ == text@,
        name@ == "location"@,
        old(by_location)@.stream_id is None,
        old(by_uri)@.stream_id is None,
        old(by_property)@.stream_id is None,
        call_ensures(OpenTokSinkRemote::set_location, (by_location, text), located),
        call_ensures(OpenTokSinkRemote::set_uri, (by_uri, text), called),
        call_ensures(OpenTokSinkRemote::set_property, (by_property, name, Some(value)), set),
    ensures
        located is Ok && set is Ok,
        called matches Ok(Some(keys)) && keys.session_id@ == session_id && keys.api_key@ == api_key
            && keys.token@ == token,
        final(by_location)@.stream_id == Some(stream_id),
        final(by_location)@.credentials.session_id == Some(session_id),
        final(by_location)@.credentials.api_key == Some(api_key),
        final(by_location)@.credentials.token == Some(token),
        final(by_location)@.credentials.room_uri is None,
        final(by_location)@.display_name == old(by_location)@.display_name,
        final(by_location)@.published_stream_id == old(by_location)@.published_stream_id,
        final(by_uri)@.stream_id == Some(stream_id),
        final(by_uri)@.credentials == final(by_location)@.credentials,
        final(by_property)@.stream_id == Some(stream_id),
        final(by_property)@.credentials == final(by_location)@.credentials,
{
    lemma_stream_location(text@, session_id, stream_id, api_key, token);
    crate::opentoksink_remote::lemma_property_names_differ();
}

/// A sink element takes over a location without a stream whatever its stream is, and keeps the
/// stream.
pub proof fn law_sink_takes_the_session_of_a_location(
    by_location: &mut OpenTokSinkRemote,
    by_property: &mut OpenTokSinkRemote,
    text: &str,
    value: String,
    name: &str,
    located: Result<(), LocationError>,
    set: Result<(), PropertyError>,
    session_id: Seq<char>,
    api_key: Seq<char>,
    token: Seq<char>,
)
    requires
        is_session_location(text@, session_id, api_key, token),
        value@ == text@,
        name@ == "location"@,
        call_ensures(OpenTokSinkRemote::set_location, (by_location, text), located),
        call_ensures(OpenTokSinkRemote::set_property, (by_property, name, Some(value)), set),
    ensures
        located is Ok && set is Ok,
        final(by_location)@.stream_id == old(by_location)@.stream_id,
        final(by_location)@.credentials.session_id == Some(session_id),
        final(by_location)@.credentials.api_key == Some(api_key),
        final(by_location)@.credentials.token == Some(token),
        final(by_property)@.stream_id == old(by_property)@.stream_id,
        final(by_property)@.credentials == final(by_location)@.credentials,
{
    lemma_session_location(text@, session_id, api_key, token);
    crate::opentoksink_remote::lemma_property_names_differ();
}

/// The stream of a sink element is chosen once. A location that names a stream is refused from then
/// on, and whatever is refused changes nothing.
pub proof fn law_stream_of_a_sink_is_chosen_once(
    element: &mut OpenTokSinkRemote,
    id: String,
    chosen: Result<(), LocationError>,
    located: &mut OpenTokSinkRemote,
    text: &str,
    result: Result<(), LocationError>,
    session_id: Seq<char>,
    stream_id: Seq<char>,
    api_key: Seq<char>,
    token: Seq<char>,
)
    requires
        call_ensures(OpenTokSinkRemote::set_stream_id, (element, id), chosen),
        call_ensures(OpenTokSinkRemote::set_location, (located, text), result),
    ensures
        chosen is Ok <==> old(element)@.stream_id is None,
        chosen is Ok ==> final(element)@.stream_id == Some(id@) && final(element)@.credentials
            == old(element)@.credentials,
        chosen is Err ==> chosen->Err_0 is StreamIdSet && final(element)@ == old(element)@,
        result is Err ==> final(located)@ == old(located)@,
        old(located)@.stream_id is Some && is_stream_location(
            text@,
            session_id,
            stream_id,
            api_key,
            token,
        ) ==> result == Err::<(), LocationError>(LocationError::StreamIdSet),
{
    if is_stream_location(text@, session_id, stream_id, api_key, token) {
        lemma_stream_location(text@, session_id, stream_id, api_key, token);
    }
}

/// The location that an element gives of itself names its session, and nothing that opens it.
pub proof fn law_own_location_names_the_session(
    source: &OpenTokSrc,
    source_location: Option<String>,
    source_uri: Option<String>,
    sink: &OpenTokSinkRemote,
    sink_location: Option<String>,
    sink_uri: Option<String>,
)
    requires
        call_ensures(OpenTokSrc::location, (source,), source_location),
        call_ensures(OpenTokSrc::uri, (source,), source_uri),
        call_ensures(OpenTokSinkRemote::location, (sink,), sink_location),
        call_ensures(OpenTokSinkRemote::uri, (sink,), sink_uri),
    ensures
        source_location is Some <==> source@.credentials.session_id is Some,
        source_location matches Some(text) ==> text@ == "opentok://"@
            + source@.credentials.session_id->0,
        opt_text(source_uri) == opt_text(source_location),
        sink_location is Some <==> sink@.credentials.session_id is Some,
        sink_location matches Some(text) ==> text@ == "opentok://"@
            + sink@.credentials.session_id->0,
        opt_text(sink_uri) == opt_text(sink_location),
{
}

/// A text of less than 2^31 characters is the url for which it is commonly taken, and a copy of a
/// url is the same url.
pub proof fn law_texts_are_parsed_as_urls(
    text: &str,
    parsed: Result<Url, String>,
    url: &Url,
    copy: Url,
)
    requires
        call_ensures(Url::parse, (text,), parsed),
        call_ensures(<Url as Clone>::clone, (url,), copy),
    ensures
        text@.len() < 0x8000_0000 ==> parsed_view(parsed) == url_parse(text@),
        copy@ == url@,
{
}

/// A text is read as the location that its url gives, and is refused for the reason for which it is
/// no url.
pub proof fn law_location_is_read_as_a_url(
    text: &str,
    parsed: Result<Credentials, String>,
    url: Result<Url, String>,
    credentials: Credentials,
)
    requires
        call_ensures(parse_location, (text,), parsed),
        call_ensures(Url::parse, (text,), url),
        url matches Ok(url) ==> call_ensures(
            <Credentials as From<Url>>::from,
            (url,),
            credentials,
        ),
    ensures
        parsed is Ok <==> url is Ok,
        parsed matches Ok(found) ==> found@ == credentials@,
        parsed matches Err(reason) ==> reason@ == url->Err_0@,
{
}

/// A source element to which no room was told takes over whatever a location was read as: the
/// credentials as they are, and the stream unless it is empty. Otherwise it wants what it wanted
/// before, and nothing else changes.
pub proof fn law_source_takes_what_was_read(
    element: &mut OpenTokSrc,
    parsed: Result<Credentials, String>,
    result: Result<(), LocationError>,
)
    requires
        call_ensures(OpenTokSrc::set_parsed_location, (element, parsed), result),
    ensures
        result is Ok <==> old(element)@.credentials.room_uri is None && parsed is Ok,
        result is Err ==> final(element)@ == old(element)@,
        result matches Err(error) ==> if old(element)@.credentials.room_uri is Some {
            error is CredentialsSet
        } else {
            error matches LocationError::Malformed(reason) && reason@ == parsed->Err_0@
        },
        result is Ok ==> {
            let read = parsed->Ok_0@;
            &&& final(element)@.credentials == read
            &&& read.stream_id is Some && read.stream_id->0.len() > 0 ==> final(element)@.stream_id
                == read.stream_id
            &&& read.stream_id is None || read.stream_id->0.len() == 0 ==> final(element)@.stream_id
                == old(element)@.stream_id
            &&& final(element)@.session == old(element)@.session
            &&& final(element)@.subscribers == old(element)@.subscribers
        },
{
}

/// It makes no difference to a source element how it is told a location.
pub proof fn law_source_is_told_a_location_in_any_way(
    parsed: Result<Credentials, String>,
    by_parts: &mut OpenTokSrc,
    by_location: &mut OpenTokSrc,
    by_uri: &mut OpenTokSrc,
    by_property: &mut OpenTokSrc,
    text: &str,
    value: String,
    name: &str,
    taken: Result<(), LocationError>,
    located: Result<(), LocationError>,
    called: Result<(), LocationError>,
    set: Result<(), PropertyError>,
)
    requires
        call_ensures(parse_location, (text,), parsed),
        call_ensures(OpenTokSrc::set_parsed_location, (by_parts, parsed), taken),
        call_ensures(OpenTokSrc::set_location, (by_location, text), located),
        call_ensures(OpenTokSrc::set_uri, (by_uri, text), called),
        call_ensures(OpenTokSrc::set_property, (by_property, name, Some(value)), set),
        value@ == text@,
        name@ == "location"@,
        old(by_location)@ == old(by_parts)@,
        old(by_uri)@ == old(by_parts)@,
        old(by_property)@ == old(by_parts)@,
    ensures
        final(by_location)@ == final(by_parts)@,
        final(by_uri)@ == final(by_parts)@,
        final(by_property)@ == final(by_parts)@,
        located is Ok <==> taken is Ok,
        called is Ok <==> taken is Ok,
        set is Ok <==> taken is Ok,
{
    crate::opentoksrc::lemma_property_names_differ();
}

/// A sink element takes over whatever a location was read as, unless that has a stream and a stream
/// was chosen before: the credentials as they are, and the stream unless it is empty. Otherwise it
/// keeps its stream, and nothing else changes.
pub proof fn law_sink_takes_what_was_read(
    element: &mut OpenTokSinkRemote,
    parsed: Result<Credentials, String>,
    result: Result<(), LocationError>,
)
    requires
        call_ensures(OpenTokSinkRemote::set_parsed_location, (element, parsed), result),
    ensures
        parsed is Err ==> (result matches Err(LocationError::Malformed(reason)) && reason@
            == parsed->Err_0@),
        result is Err ==> final(element)@ == old(element)@,
        parsed matches Ok(read) ==> {
            let with_stream = read@.stream_id is Some && read@.stream_id->0.len() > 0;
            &&& result is Ok <==> !with_stream || old(element)@.stream_id is None
            &&& result matches Err(error) ==> error is StreamIdSet
            &&& result is Ok ==> final(element)@ == SinkRemoteView {
                credentials: read@,
                stream_id: if with_stream {
                    read@.stream_id
                } else {
                    old(element)@.stream_id
                },
                ..old(element)@
            }
        },
{
}

/// It makes no difference to a sink element how it is told a location.
pub proof fn law_sink_is_told_a_location_in_any_way(
    parsed: Result<Credentials, String>,
    by_parts: &mut OpenTokSinkRemote,
    by_location: &mut OpenTokSinkRemote,
    by_uri: &mut OpenTokSinkRemote,
    by_property: &mut OpenTokSinkRemote,
    text: &str,
    value: String,
    name: &str,
    taken: Result<(), LocationError>,
    located: Result<(), LocationError>,
    called: Result<Option<SessionKeys>, LocationError>,
    set: Result<(), PropertyError>,
)
    requires
        call_ensures(parse_location, (text,), parsed),
        call_ensures(OpenTokSinkRemote::set_parsed_location, (by_parts, parsed), taken),
        call_ensures(OpenTokSinkRemote::set_location, (by_location, text), located),
        call_ensures(OpenTokSinkRemote::set_uri, (by_uri, text), called),
        call_ensures(OpenTokSinkRemote::set_property, (by_property, name, Some(value)), set),
        value@ == text@,
        name@ == "location"@,
        old(by_location)@ == old(by_parts)@,
        old(by_uri)@ == old(by_parts)@,
        old(by_property)@ == old(by_parts)@,
    ensures
        final(by_location)@ == final(by_parts)@,
        final(by_uri)@ == final(by_parts)@,
        final(by_property)@ == final(by_parts)@,
        located is Ok <==> taken is Ok,
        called is Ok <==> taken is Ok,
        set is Ok <==> taken is Ok,
        called matches Ok(keys) ==> {
            &&& keys matches Some(keys)
            &&& keys.session_id@ == final(by_uri)@.credentials.session_id->0
            &&& keys.api_key@ == final(by_uri)@.credentials.api_key->0
            &&& keys.token@ == final(by_uri)@.credentials.token->0
        },
{
    crate::opentoksink_remote::lemma_property_names_differ();
}

/// The credentials of a source element are those that it knows.
pub proof fn law_credentials_are_handed_out(element: &OpenTokSrc, credentials: &Credentials)
    requires
        call_ensures(OpenTokSrc::credentials, (element,), credentials),
    ensures
        credentials@.api_key == element@.credentials.api_key,
        credentials@.session_id == element@.credentials.session_id,
        credentials@.token == element@.credentials.token,
        credentials@.stream_id == element@.credentials.stream_id,
        credentials@.room_uri == element@.credentials.room_uri,
{
}

} // verus!
