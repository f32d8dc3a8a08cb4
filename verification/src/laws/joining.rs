//! How the values that a session is joined with come together: from the outside, or from a room.

use crate::common::credentials::CredentialsError;
use crate::common::credentials::CredentialsView;
use crate::common::credentials::Field;
use crate::common::credentials::LoadError;
use crate::common::json::find_long_fraction;
use crate::common::json::json_members;
use crate::common::json::member_value;
use crate::common::json::members_view;
use crate::common::json::name_texts;
use crate::common::json::object_text;
use crate::common::json::plain_object;
use crate::common::json::read_members;
use crate::common::url::Url;
use crate::common::Credentials;
use crate::element::StateChange;
use crate::opentoksink_remote::OpenTokSinkRemote;
use crate::opentoksink_remote::SinkRemoteView;
use crate::opentoksink_remote::StateWork;
use crate::opentoksrc::OpenTokSrc;
use crate::opentoksrc::SessionInit;
use crate::opentoksrc::SrcView;
use crate::text::opt_ref_text;
use crate::text::opt_text;
use vstd::prelude::*;

verus! {

/// The member `i` of an object has this name.
pub open spec fn named(members: Seq<(Seq<char>, Seq<char>)>, i: int, name: Seq<char>) -> bool {
    0 <= i < members.len() && members[i].0 == name
}

/// No member of an object has this name.
pub open spec fn lacks_member(members: Seq<(Seq<char>, Seq<char>)>, name: Seq<char>) -> bool {
    forall|i: int| 0 <= i < members.len() ==> (#[trigger] members[i]).0 != name
}

/// The member of a name is found wherever it is.
pub proof fn law_member_is_found(
    members: Seq<(Seq<char>, Seq<char>)>,
    name: Seq<char>,
    i: int,
)
    requires
        plain_object(members),
    ensures
        named(members, i, name) ==> member_value(members, name) == Some(members[i].1),
        lacks_member(members, name) ==> member_value(members, name) is None,
    decreases members.len(),
{
    if members.len() > 0 {
        let rest = members.drop_last();
        assert forall|k: int| 0 <= k < rest.len() implies #[trigger] rest[k] == members[k] by {}
        assert(members.last() == members[members.len() - 1]);
        assert(plain_object(rest)) by {
            assert forall|k: int, l: int| 0 <= k < l < rest.len() implies (#[trigger] rest[k]).0
                != (#[trigger] rest[l]).0 by {
                assert(members[k].0 != members[l].0);
            }
        }
        law_member_is_found(rest, name, i);
        if named(members, i, name) && i < rest.len() {
            assert(members[i].0 != members[members.len() - 1].0);
            assert(named(rest, i, name));
        }
        if lacks_member(members, name) {
            assert(members[members.len() - 1].0 != name);
            assert forall|k: int| 0 <= k < rest.len() implies (#[trigger] rest[k]).0 != name by {
                assert(members[k].0 != name);
            }
        }
    }
}

/// An object is written member by member: a further one stands behind a comma, its name and its
/// value in quotes with a colon between, and braces stand around all of them.
pub proof fn law_object_is_written_member_by_member(
    members: Seq<(Seq<char>, Seq<char>)>,
    name: Seq<char>,
    value: Seq<char>,
)
    ensures
        object_text(Seq::empty()) == seq!['{', '}'],
        object_text(members.push((name, value))) == object_text(members).drop_last() + (if
        members.len() == 0 {
            Seq::empty()
        } else {
            seq![',']
        }) + seq!['"'] + name + seq!['"', ':', '"'] + value + seq!['"', '}'],
{
    let more = members.push((name, value));
    assert(more.drop_last() =~= members);
    assert(more.last() == (name, value));
    assert(object_text(Seq::<(Seq<char>, Seq<char>)>::empty()) =~= seq!['{', '}']);
    assert(object_text(more) =~= object_text(members).drop_last() + (if members.len() == 0 {
        Seq::empty()
    } else {
        seq![',']
    }) + seq!['"'] + name + seq!['"', ':', '"'] + value + seq!['"', '}']);
}

/// When the room answers with the key, the session and the token, wherever they stand among the
/// members, exactly these values are known afterwards, and nothing else has changed.
pub proof fn law_room_gives_its_session(
    credentials: &mut Credentials,
    answer: Result<String, String>,
    result: Result<(), LoadError>,
    members: Seq<(Seq<char>, Seq<char>)>,
    key: int,
    session: int,
    token: int,
)
    requires
        call_ensures(Credentials::load, (credentials, answer), result),
        old(credentials)@.room_uri is Some,
        plain_object(members),
        answer is Ok,
        answer->Ok_0@ == object_text(members),
        named(members, key, "apiKey"@),
        named(members, session, "sessionId"@),
        named(members, token, "token"@),
    ensures
        result is Ok,
        final(credentials)@.api_key == Some(members[key].1),
        final(credentials)@.session_id == Some(members[session].1),
        final(credentials)@.token == Some(members[token].1),
        final(credentials)@.stream_id == old(credentials)@.stream_id,
        final(credentials)@.room_uri == old(credentials)@.room_uri,
{
    law_member_is_found(members, "apiKey"@, key);
    law_member_is_found(members, "sessionId"@, session);
    law_member_is_found(members, "token"@, token);
}

/// When the answer of the room lacks one of the three, the first one that it lacks is the reason.
/// Those in front of it are taken over, and nothing else has changed.
pub proof fn law_first_missing_member_is_the_reason(
    credentials: &mut Credentials,
    answer: Result<String, String>,
    result: Result<(), LoadError>,
    members: Seq<(Seq<char>, Seq<char>)>,
    key: int,
    session: int,
)
    requires
        call_ensures(Credentials::load, (credentials, answer), result),
        old(credentials)@.room_uri is Some,
        plain_object(members),
        answer is Ok,
        answer->Ok_0@ == object_text(members),
    ensures
        lacks_member(members, "apiKey"@) ==> {
            &&& result == Err::<(), LoadError>(LoadError::NoApiKey)
            &&& final(credentials)@ == old(credentials)@
        },
        named(members, key, "apiKey"@) && lacks_member(members, "sessionId"@) ==> {
            &&& result == Err::<(), LoadError>(LoadError::NoSessionId)
            &&& final(credentials)@ == CredentialsView {
                api_key: Some(members[key].1),
                ..old(credentials)@
            }
        },
        named(members, key, "apiKey"@) && named(members, session, "sessionId"@) && lacks_member(
            members,
            "token"@,
        ) ==> {
            &&& result == Err::<(), LoadError>(LoadError::NoToken)
            &&& final(credentials)@ == CredentialsView {
                api_key: Some(members[key].1),
                session_id: Some(members[session].1),
                ..old(credentials)@
            }
        },
{
    law_member_is_found(members, "apiKey"@, key);
    law_member_is_found(members, "sessionId"@, session);
    law_member_is_found(members, "token"@, 0);
}

/// A room that does not answer is the reason for a failure in its own words, and without a room
/// there is nothing to load. Nothing changes either way.
pub proof fn law_nothing_is_loaded_without_an_answer(
    credentials: &mut Credentials,
    answer: Result<String, String>,
    result: Result<(), LoadError>,
)
    requires
        call_ensures(Credentials::load, (credentials, answer), result),
        old(credentials)@.room_uri is None || answer is Err,
    ensures
        final(credentials)@ == old(credentials)@,
        result is Ok <==> old(credentials)@.room_uri is None,
        result matches Err(error) ==> error == LoadError::Fetch(answer->Err_0),
{
}

/// What was read of the answer of a room is taken over as it is.
pub proof fn law_members_are_taken_over(
    credentials: &mut Credentials,
    members: Vec<Option<String>>,
    result: Result<(), LoadError>,
)
    requires
        members@.len() == 3,
        call_ensures(Credentials::load_members, (credentials, Ok(members)), result),
    ensures
        result is Ok <==> members@[0] is Some && members@[1] is Some && members@[2] is Some,
        result is Ok ==> {
            &&& final(credentials)@.api_key == Some(members@[0]->0@)
            &&& final(credentials)@.session_id == Some(members@[1]->0@)
            &&& final(credentials)@.token == Some(members@[2]->0@)
        },
        members@[0] is None ==> result == Err::<(), LoadError>(LoadError::NoApiKey),
        members@[0] is Some && members@[1] is None ==> result == Err::<(), LoadError>(
            LoadError::NoSessionId,
        ),
        members@[0] is Some && members@[1] is Some && members@[2] is None ==> result == Err::<
            (),
            LoadError,
        >(LoadError::NoToken),
        final(credentials)@.stream_id == old(credentials)@.stream_id,
        final(credentials)@.room_uri == old(credentials)@.room_uri,
{
    let read = crate::common::json::opt_texts(members@);
    assert(read[0] == opt_text(members@[0]));
    assert(read[1] == opt_text(members@[1]));
    assert(read[2] == opt_text(members@[2]));
}

/// An answer that could not be read is the reason for a failure in its own words, and changes
/// nothing.
pub proof fn law_unreadable_answer_changes_nothing(
    credentials: &mut Credentials,
    reason: String,
    result: Result<(), LoadError>,
)
    requires
        call_ensures(Credentials::load_members, (credentials, Err(reason)), result),
    ensures
        result matches Err(LoadError::Json(words)) && words@ == reason@,
        final(credentials)@ == old(credentials)@,
{
}

/// A source element that starts with a room joins the session that the room gives, unless it has
/// joined one before.
pub proof fn law_source_joins_the_session_of_its_room(
    element: &mut OpenTokSrc,
    answer: Result<String, String>,
    result: Result<Option<SessionInit>, LoadError>,
    members: Seq<(Seq<char>, Seq<char>)>,
    key: int,
    session: int,
    token: int,
)
    requires
        call_ensures(OpenTokSrc::start, (element, answer), result),
        old(element)@.credentials.room_uri is Some,
        plain_object(members),
        answer is Ok,
        answer->Ok_0@ == object_text(members),
        named(members, key, "apiKey"@),
        named(members, session, "sessionId"@),
        named(members, token, "token"@),
    ensures
        result matches Ok(init) && {
            &&& init is Some <==> !old(element)@.session
            &&& init matches Some(init) ==> {
                &&& init.keys.api_key@ == members[key].1
                &&& init.keys.session_id@ == members[session].1
                &&& init.keys.token@ == members[token].1
            }
        },
        final(element)@.session == old(element)@.session,
        final(element)@.stream_id == old(element)@.stream_id,
        final(element)@.subscribers == old(element)@.subscribers,
{
    law_member_is_found(members, "apiKey"@, key);
    law_member_is_found(members, "sessionId"@, session);
    law_member_is_found(members, "token"@, token);
}

/// A sink element that is paused with a room has its helper join the session that the room gives.
pub proof fn law_sink_joins_the_session_of_its_room(
    element: &mut OpenTokSinkRemote,
    answer: Result<String, String>,
    result: Result<StateWork, LoadError>,
    members: Seq<(Seq<char>, Seq<char>)>,
    key: int,
    session: int,
    token: int,
)
    requires
        call_ensures(
            OpenTokSinkRemote::change_state,
            (element, StateChange::ReadyToPaused, answer),
            result,
        ),
        old(element)@.credentials.room_uri is Some,
        plain_object(members),
        answer is Ok,
        answer->Ok_0@ == object_text(members),
        named(members, key, "apiKey"@),
        named(members, session, "sessionId"@),
        named(members, token, "token"@),
    ensures
        result matches Ok(StateWork::Init(Some(keys))) && {
            &&& keys.api_key@ == members[key].1
            &&& keys.session_id@ == members[session].1
            &&& keys.token@ == members[token].1
        },
{
    law_member_is_found(members, "apiKey"@, key);
    law_member_is_found(members, "sessionId"@, session);
    law_member_is_found(members, "token"@, token);
}

/// A room is asked where its uri says, one level below, and only on the way up.
pub proof fn law_room_is_asked_below_its_uri(
    credentials: &Credentials,
    url: Option<String>,
    source: &OpenTokSrc,
    source_url: Option<String>,
    sink: &OpenTokSinkRemote,
    change: StateChange,
    sink_url: Option<String>,
)
    requires
        call_ensures(Credentials::info_url, (credentials,), url),
        call_ensures(OpenTokSrc::wanted_info, (source,), source_url),
        call_ensures(OpenTokSinkRemote::wanted_info, (sink, change), sink_url),
    ensures
        url is Some <==> credentials@.room_uri is Some,
        url matches Some(url) ==> url@ == credentials@.room_uri->0.text + "/info"@,
        source_url is Some <==> source@.credentials.room_uri is Some,
        source_url matches Some(url) ==> url@ == source@.credentials.room_uri->0.text + "/info"@,
        sink_url is Some <==> change is ReadyToPaused && sink@.credentials.room_uri is Some,
        sink_url matches Some(url) ==> url@ == sink@.credentials.room_uri->0.text + "/info"@,
{
}

/// The API key is taken as it is, unless there is a room, and nothing else changes.
pub proof fn law_api_key_is_set(
    credentials: &mut Credentials,
    key: String,
    result: Result<(), CredentialsError>,
)
    requires
        call_ensures(Credentials::set_api_key, (credentials, key), result),
    ensures
        result is Ok <==> old(credentials)@.room_uri is None,
        result is Ok ==> final(credentials)@ == (CredentialsView {
            api_key: Some(key@),
            ..old(credentials)@
        }),
        result matches Err(error) ==> {
            &&& error == CredentialsError::RoomUriSet(Field::ApiKey)
            &&& final(credentials)@ == old(credentials)@
        },
{
}

/// The session is taken as it is, unless there is a room, and nothing else changes.
pub proof fn law_session_is_set(
    credentials: &mut Credentials,
    id: String,
    result: Result<(), CredentialsError>,
)
    requires
        call_ensures(Credentials::set_session_id, (credentials, id), result),
    ensures
        result is Ok <==> old(credentials)@.room_uri is None,
        result is Ok ==> final(credentials)@ == (CredentialsView {
            session_id: Some(id@),
            ..old(credentials)@
        }),
        result matches Err(error) ==> {
            &&& error == CredentialsError::RoomUriSet(Field::SessionId)
            &&& final(credentials)@ == old(credentials)@
        },
{
}

/// The token is taken as it is, unless there is a room, and nothing else changes.
pub proof fn law_token_is_set(
    credentials: &mut Credentials,
    token: String,
    result: Result<(), CredentialsError>,
)
    requires
        call_ensures(Credentials::set_token, (credentials, token), result),
    ensures
        result is Ok <==> old(credentials)@.room_uri is None,
        result is Ok ==> final(credentials)@ == (CredentialsView {
            token: Some(token@),
            ..old(credentials)@
        }),
        result matches Err(error) ==> {
            &&& error == CredentialsError::RoomUriSet(Field::Token)
            &&& final(credentials)@ == old(credentials)@
        },
{
}

/// The stream is taken as it is, unless there is a room, and nothing else changes.
pub proof fn law_stream_is_set(
    credentials: &mut Credentials,
    stream_id: String,
    result: Result<(), CredentialsError>,
)
    requires
        call_ensures(Credentials::set_stream_id, (credentials, stream_id), result),
    ensures
        result is Ok <==> old(credentials)@.room_uri is None,
        result is Ok ==> final(credentials)@ == (CredentialsView {
            stream_id: Some(stream_id@),
            ..old(credentials)@
        }),
        result matches Err(error) ==> {
            &&& error == CredentialsError::RoomUriSet(Field::StreamId)
            &&& final(credentials)@ == old(credentials)@
        },
{
}

/// The reason for which a room is refused: first that another value is known, then that it is no
/// url.
pub open spec fn refuses_room(
    error: CredentialsError,
    known: CredentialsView,
    parsed: Result<Url, String>,
) -> bool {
    if known.api_key is Some || known.session_id is Some || known.token is Some || known.stream_id
        is Some {
        error == CredentialsError::OtherFieldSet
    } else {
        error matches CredentialsError::MalformedUrl(reason) && reason@ == parsed->Err_0@
    }
}

/// A room is taken if it is a url and no other value is known, and nothing changes otherwise. The
/// text is read as it is read anywhere else.
pub proof fn law_room_is_set(
    credentials: &mut Credentials,
    uri: String,
    result: Result<(), CredentialsError>,
    text: &str,
    parsed: Result<Url, String>,
)
    requires
        call_ensures(Credentials::set_room_uri, (credentials, uri), result),
        text@ == uri@,
        call_ensures(Url::parse, (text,), parsed),
    ensures
        result is Ok <==> {
            &&& old(credentials)@.api_key is None
            &&& old(credentials)@.session_id is None
            &&& old(credentials)@.token is None
            &&& old(credentials)@.stream_id is None
            &&& parsed is Ok
        },
        result is Ok ==> final(credentials)@ == (CredentialsView {
            room_uri: Some(parsed->Ok_0@),
            ..old(credentials)@
        }),
        result is Err ==> final(credentials)@ == old(credentials)@,
        result matches Err(error) ==> refuses_room(error, old(credentials)@, parsed),
{
}

/// A room that was parsed is taken under the same conditions.
pub proof fn law_parsed_room_is_set(
    credentials: &mut Credentials,
    parsed: Result<Url, String>,
    result: Result<(), CredentialsError>,
)
    requires
        call_ensures(Credentials::set_room_url, (credentials, parsed), result),
    ensures
        result is Ok <==> {
            &&& old(credentials)@.api_key is None
            &&& old(credentials)@.session_id is None
            &&& old(credentials)@.token is None
            &&& old(credentials)@.stream_id is None
            &&& parsed is Ok
        },
        result is Ok ==> final(credentials)@ == (CredentialsView {
            room_uri: Some(parsed->Ok_0@),
            ..old(credentials)@
        }),
        result is Err ==> final(credentials)@ == old(credentials)@,
        result matches Err(error) ==> refuses_room(error, old(credentials)@, parsed),
{
}

/// What is known can be read, and is enough if there is a room or all three values are there.
pub proof fn law_credentials_are_read(
    credentials: &Credentials,
    api_key: Option<&String>,
    session_id: Option<&String>,
    token: Option<&String>,
    stream_id: Option<&String>,
    room: Option<&Url>,
    complete: bool,
)
    requires
        call_ensures(Credentials::api_key, (credentials,), api_key),
        call_ensures(Credentials::session_id, (credentials,), session_id),
        call_ensures(Credentials::token, (credentials,), token),
        call_ensures(Credentials::stream_id, (credentials,), stream_id),
        call_ensures(Credentials::room_uri, (credentials,), room),
        call_ensures(Credentials::is_complete, (credentials,), complete),
    ensures
        opt_ref_text(api_key) == credentials@.api_key,
        opt_ref_text(session_id) == credentials@.session_id,
        opt_ref_text(token) == credentials@.token,
        opt_ref_text(stream_id) == credentials@.stream_id,
        room is Some <==> credentials@.room_uri is Some,
        room matches Some(room) ==> room@ == credentials@.room_uri->0,
        complete <==> room is Some || (api_key is Some && session_id is Some && token is Some),
{
}

/// New credentials hold nothing, and a copy of some holds the same.
pub proof fn law_credentials_are_made(
    fresh: Credentials,
    credentials: &Credentials,
    copy: Credentials,
)
    requires
        call_ensures(<Credentials as Default>::default, (), fresh),
        call_ensures(<Credentials as Clone>::clone, (credentials,), copy),
    ensures
        fresh@.api_key is None,
        fresh@.session_id is None,
        fresh@.token is None,
        fresh@.stream_id is None,
        fresh@.room_uri is None,
        copy@ == credentials@,
{
}

/// Whatever a room answers, the three members that can be read off the answer are what is taken
/// over of it.
pub proof fn law_answer_is_taken_as_read(
    payload: String,
    text: &str,
    names: &Vec<&str>,
    members: Result<Vec<Option<String>>, String>,
    loading: &mut Credentials,
    result: Result<(), LoadError>,
    taking: &mut Credentials,
    taken: Result<(), LoadError>,
)
    requires
        text@ == payload@,
        names@.len() == 3,
        names@[0]@ == "apiKey"@,
        names@[1]@ == "sessionId"@,
        names@[2]@ == "token"@,
        call_ensures(read_members, (text, names), members),
        call_ensures(Credentials::load, (loading, Ok(payload)), result),
        call_ensures(Credentials::load_members, (taking, members), taken),
        old(loading)@ == old(taking)@,
        old(loading)@.room_uri is Some,
    ensures
        final(loading)@ == final(taking)@,
        result is Ok <==> taken is Ok,
        result matches Err(error) ==> same_reason(error, taken->Err_0),
        members matches Err(reason) ==> same_reason(result->Err_0, LoadError::Json(reason)),
{
    assert(name_texts(names@) =~= seq!["apiKey"@, "sessionId"@, "token"@]);
}

/// Two failures to load are of one kind and have the same words.
pub open spec fn same_reason(error: LoadError, other: LoadError) -> bool {
    match error {
        LoadError::Fetch(reason) => other matches LoadError::Fetch(words) && words@ == reason@,
        LoadError::Json(reason) => other matches LoadError::Json(words) && words@ == reason@,
        _ => error == other,
    }
}

/// An answer with a number that cannot be counted is refused, and any other answer is read as it
/// is.
pub proof fn law_uncountable_numbers_are_refused(
    text: &str,
    names: &Vec<&str>,
    members: Result<Vec<Option<String>>, String>,
    found: Option<usize>,
)
    requires
        call_ensures(read_members, (text, names), members),
        call_ensures(find_long_fraction, (text,), found),
    ensures
        found is Some ==> members is Err,
        found is None ==> members_view(members) == json_members(text@, name_texts(names@)),
        members matches Ok(members) ==> members@.len() == names@.len(),
{
}

/// The elements load what their credentials would load by themselves, whatever the room answers,
/// and nothing else of them changes. What they join with is what they know then.
pub proof fn law_elements_load_what_credentials_load(
    credentials: &mut Credentials,
    answer: Result<String, String>,
    loaded: Result<(), LoadError>,
    source: &mut OpenTokSrc,
    init: Result<Option<SessionInit>, LoadError>,
    sink: &mut OpenTokSinkRemote,
    work: Result<StateWork, LoadError>,
)
    requires
        call_ensures(Credentials::load, (credentials, answer), loaded),
        call_ensures(OpenTokSrc::start, (source, answer), init),
        call_ensures(
            OpenTokSinkRemote::change_state,
            (sink, StateChange::ReadyToPaused, answer),
            work,
        ),
        old(source)@.credentials == old(credentials)@,
        old(sink)@.credentials == old(credentials)@,
    ensures
        final(source)@ == (SrcView { credentials: final(credentials)@, ..old(source)@ }),
        final(sink)@ == (SinkRemoteView { credentials: final(credentials)@, ..old(sink)@ }),
        init is Ok <==> loaded is Ok,
        init matches Err(error) ==> same_reason(error, loaded->Err_0),
        work is Ok <==> loaded is Ok,
        work matches Err(error) ==> same_reason(error, loaded->Err_0),
        loaded is Ok ==> {
            let known = final(credentials)@;
            let all = known.api_key is Some && known.session_id is Some && known.token is Some;
            &&& init->Ok_0 is Some <==> all && !old(source)@.session
            &&& init->Ok_0 matches Some(init) ==> {
                &&& init.keys.api_key@ == known.api_key->0
                &&& init.keys.session_id@ == known.session_id->0
                &&& init.keys.token@ == known.token->0
            }
            &&& work->Ok_0 matches StateWork::Init(keys)
            &&& keys is Some <==> all
            &&& keys matches Some(keys) ==> {
                &&& keys.api_key@ == known.api_key->0
                &&& keys.session_id@ == known.session_id->0
                &&& keys.token@ == known.token->0
            }
        },
{
}

} // verus!
