//! What the helper is asked to do on its command line.

use crate::common::credentials::CredentialsError;
use crate::common::credentials::LoadError;
use crate::common::json::object_text;
use crate::common::json::plain_object;
use crate::common::url::Url;
use crate::common::Credentials;
use crate::helper::cli::check_credentials;
use crate::helper::cli::cli_credentials;
use crate::helper::cli::parse_cli;
use crate::helper::cli::settings;
use crate::helper::cli::CliError;
use crate::helper::cli::Matches;
use crate::helper::cli::Settings;
use crate::helper::create_pipeline;
use crate::helper::ElementRequest;
use crate::laws::joining::lacks_member;
use crate::laws::joining::law_member_is_found;
use crate::laws::joining::named;
use crate::laws::joining::same_reason;
use vstd::prelude::*;

verus! {

/// The three values that a session is joined with are taken from the command line as they are, if
/// all of them are there and no room is.
pub proof fn law_values_on_the_command_line_are_used(
    matches: &Matches,
    result: Result<Credentials, CliError>,
)
    requires
        call_ensures(check_credentials, (matches, None), result),
    ensures
        result is Ok <==> matches.api_key is Some && matches.session_id is Some
            && matches.token is Some,
        result matches Ok(credentials) ==> {
            &&& credentials@.api_key == Some(matches.api_key->0@)
            &&& credentials@.session_id == Some(matches.session_id->0@)
            &&& credentials@.token == Some(matches.token->0@)
            &&& credentials@.stream_id is None
            &&& credentials@.room_uri is None
        },
        result matches Err(error) ==> error is IncompleteCredentials,
{
}

/// A room on the command line is used alone: it has to be a url, and none of the three values may
/// stand beside it, which is the reason for a failure even where the room is no url.
pub proof fn law_room_on_the_command_line_is_used_alone(
    matches: &Matches,
    room: Result<Url, String>,
    result: Result<Credentials, CliError>,
)
    requires
        call_ensures(check_credentials, (matches, Some(room)), result),
    ensures
        result is Ok <==> matches.api_key is None && matches.session_id is None
            && matches.token is None && room is Ok,
        result matches Ok(credentials) ==> {
            &&& credentials@.api_key is None
            &&& credentials@.session_id is None
            &&& credentials@.token is None
            &&& credentials@.stream_id is None
            &&& credentials@.room_uri == Some(room->Ok_0@)
        },
        result matches Err(error) ==> {
            if matches.api_key is Some || matches.session_id is Some || matches.token is Some {
                error == CliError::RoomUri(CredentialsError::OtherFieldSet)
            } else {
                error matches CliError::RoomUri(CredentialsError::MalformedUrl(reason)) && reason@
                    == room->Err_0@
            }
        },
{
}

/// The credentials on the command line are checked with what their room was parsed to.
pub proof fn law_room_on_the_command_line_is_parsed(
    matches: &Matches,
    result: Result<Credentials, CliError>,
    uri: &str,
    parsed: Result<Url, String>,
    room: Option<Result<Url, String>>,
    checked: Result<Credentials, CliError>,
)
    requires
        call_ensures(cli_credentials, (matches,), result),
        matches.room_uri matches Some(text) ==> uri@ == text@,
        call_ensures(Url::parse, (uri,), parsed),
        room == if matches.room_uri is Some {
            Some(parsed)
        } else {
            None
        },
        call_ensures(check_credentials, (matches, room), checked),
    ensures
        result is Ok <==> checked is Ok,
        result matches Ok(credentials) ==> credentials@ == checked->Ok_0@,
        result matches Err(error) ==> (error == checked->Err_0 || (error matches CliError::RoomUri(
            CredentialsError::MalformedUrl(reason),
        ) && reason@ == parsed->Err_0@)),
{
}

/// What the command line says goes into the settings unchanged. The server is missed before the
/// direction, and every word but `src` stands for a sink.
pub proof fn law_settings_are_those_of_the_command_line(
    matches: &Matches,
    credentials: Credentials,
    result: Result<Settings, CliError>,
)
    requires
        call_ensures(settings, (matches, credentials), result),
    ensures
        matches.ipc_server is None ==> result == Err::<Settings, CliError>(CliError::NoIpcServer),
        matches.ipc_server is Some && matches.direction is None ==> result == Err::<
            Settings,
            CliError,
        >(CliError::NoDirection),
        matches.ipc_server is Some && matches.direction is Some ==> {
            &&& result matches Ok(found)
            &&& found.credentials@ == credentials@
            &&& found.ipc_server@ == matches.ipc_server->0@
            &&& found.direction is Source <==> matches.direction->0@ == "src"@
            &&& found.stream_id == matches.stream_id
            &&& found.display_name == matches.display_name
        },
{
}

/// Without a room, the helper is asked to join the session on the command line, whatever a room
/// might say. What is wrong is told in this order: the values for the session, the server, the
/// direction.
pub proof fn law_command_line_without_a_room(
    matches: &Matches,
    answer: Result<String, String>,
    result: Result<Settings, CliError>,
)
    requires
        call_ensures(parse_cli, (matches, answer), result),
        matches.room_uri is None,
    ensures
        ({
            let values = matches.api_key is Some && matches.session_id is Some
                && matches.token is Some;
            &&& result is Ok <==> values && matches.ipc_server is Some && matches.direction is Some
            &&& result matches Err(error) ==> if !values {
                error is IncompleteCredentials
            } else if matches.ipc_server is None {
                error is NoIpcServer
            } else {
                error is NoDirection
            }
        }),
        result matches Ok(found) ==> {
            &&& found.credentials@.api_key == Some(matches.api_key->0@)
            &&& found.credentials@.session_id == Some(matches.session_id->0@)
            &&& found.credentials@.token == Some(matches.token->0@)
            &&& found.credentials@.stream_id is None
            &&& found.credentials@.room_uri is None
            &&& found.ipc_server@ == matches.ipc_server->0@
            &&& found.direction is Source <==> matches.direction->0@ == "src"@
            &&& found.stream_id == matches.stream_id
            &&& found.display_name == matches.display_name
        },
{
}

/// A room that no session can come from is refused, whatever it would answer: one beside one of the
/// three values, and one that is no url, for the reason for which it is none.
pub proof fn law_useless_room_is_refused(
    matches: &Matches,
    uri: &str,
    room: Result<Url, String>,
    answer: Result<String, String>,
    result: Result<Settings, CliError>,
)
    requires
        call_ensures(parse_cli, (matches, answer), result),
        matches.room_uri is Some,
        matches.room_uri->0@ == uri@,
        call_ensures(Url::parse, (uri,), room),
    ensures
        ({
            let value = matches.api_key is Some || matches.session_id is Some || matches.token
                is Some;
            &&& value ==> result == Err::<Settings, CliError>(
                CliError::RoomUri(CredentialsError::OtherFieldSet),
            )
            &&& !value && room is Err ==> {
                &&& result matches Err(CliError::RoomUri(CredentialsError::MalformedUrl(reason)))
                &&& reason@ == room->Err_0@
            }
            &&& !value && room is Ok ==> !(result matches Err(CliError::RoomUri(_)))
        }),
{
}

/// When the room on the command line answers with the key, the session and the token, the helper is
/// asked to join with exactly these values.
pub proof fn law_helper_joins_the_session_of_its_room(
    matches: &Matches,
    uri: &str,
    room: Url,
    answer: Result<String, String>,
    result: Result<Settings, CliError>,
    members: Seq<(Seq<char>, Seq<char>)>,
    key: int,
    session: int,
    token: int,
)
    requires
        call_ensures(parse_cli, (matches, answer), result),
        matches.api_key is None,
        matches.session_id is None,
        matches.token is None,
        matches.room_uri is Some,
        matches.room_uri->0@ == uri@,
        call_ensures(Url::parse, (uri,), Ok(room)),
        plain_object(members),
        answer is Ok,
        answer->Ok_0@ == object_text(members),
        named(members, key, "apiKey"@),
        named(members, session, "sessionId"@),
        named(members, token, "token"@),
    ensures
        result is Ok <==> matches.ipc_server is Some && matches.direction is Some,
        result matches Err(error) ==> if matches.ipc_server is None {
            error is NoIpcServer
        } else {
            error is NoDirection
        },
        result matches Ok(found) ==> {
            &&& found.credentials@.api_key == Some(members[key].1)
            &&& found.credentials@.session_id == Some(members[session].1)
            &&& found.credentials@.token == Some(members[token].1)
            &&& found.credentials@.stream_id is None
            &&& found.credentials@.room_uri == Some(room@)
            &&& found.ipc_server@ == matches.ipc_server->0@
            &&& found.direction is Source <==> matches.direction->0@ == "src"@
            &&& found.stream_id == matches.stream_id
            &&& found.display_name == matches.display_name
        },
{
    law_member_is_found(members, "apiKey"@, key);
    law_member_is_found(members, "sessionId"@, session);
    law_member_is_found(members, "token"@, token);
}

/// A room on the command line that does not answer is the reason for a failure in its own words,
/// and so is the first of the three members that its answer lacks. Both come before what else may
/// be missing.
pub proof fn law_room_without_a_session_is_the_reason(
    matches: &Matches,
    uri: &str,
    room: Url,
    answer: Result<String, String>,
    result: Result<Settings, CliError>,
    members: Seq<(Seq<char>, Seq<char>)>,
    key: int,
    session: int,
)
    requires
        call_ensures(parse_cli, (matches, answer), result),
        matches.api_key is None,
        matches.session_id is None,
        matches.token is None,
        matches.room_uri is Some,
        matches.room_uri->0@ == uri@,
        call_ensures(Url::parse, (uri,), Ok(room)),
        plain_object(members),
        answer matches Ok(payload) ==> payload@ == object_text(members),
    ensures
        answer matches Err(reason) ==> result == Err::<Settings, CliError>(
            CliError::Load(LoadError::Fetch(reason)),
        ),
        answer is Ok && lacks_member(members, "apiKey"@) ==> result == Err::<Settings, CliError>(
            CliError::Load(LoadError::NoApiKey),
        ),
        answer is Ok && named(members, key, "apiKey"@) && lacks_member(members, "sessionId"@)
            ==> result == Err::<Settings, CliError>(CliError::Load(LoadError::NoSessionId)),
        answer is Ok && named(members, key, "apiKey"@) && named(members, session, "sessionId"@)
            && lacks_member(members, "token"@) ==> result == Err::<Settings, CliError>(
            CliError::Load(LoadError::NoToken),
        ),
{
    law_member_is_found(members, "apiKey"@, key);
    law_member_is_found(members, "sessionId"@, session);
    law_member_is_found(members, "token"@, 0);
}

/// Whatever the room answers, the helper is asked to join with what the credentials on its command
/// line load, and fails where they fail to load. What else is wrong comes after that.
pub proof fn law_command_line_is_loaded(
    matches: &Matches,
    answer: Result<String, String>,
    result: Result<Settings, CliError>,
    given: Result<Credentials, CliError>,
    credentials: &mut Credentials,
    loaded: Result<(), LoadError>,
)
    requires
        call_ensures(parse_cli, (matches, answer), result),
        call_ensures(cli_credentials, (matches,), given),
        given matches Ok(given) ==> old(credentials)@ == given@,
        call_ensures(Credentials::load, (credentials, answer), loaded),
    ensures
        given is Err ==> {
            &&& result matches Err(error)
            &&& error is RoomUri || error is IncompleteCredentials
        },
        given is Ok && loaded is Err ==> {
            &&& result matches Err(CliError::Load(error))
            &&& same_reason(error, loaded->Err_0)
        },
        given is Ok && loaded is Ok ==> {
            &&& matches.ipc_server is None ==> result == Err::<Settings, CliError>(
                CliError::NoIpcServer,
            )
            &&& matches.ipc_server is Some && matches.direction is None ==> result == Err::<
                Settings,
                CliError,
            >(CliError::NoDirection)
            &&& matches.ipc_server is Some && matches.direction is Some ==> {
                &&& result matches Ok(found)
                &&& found.credentials@ == final(credentials)@
            }
        },
{
}

/// The element of the helper is made from the location of the session that the helper is to join,
/// under the one name by which it is found again, with the stream and the display name of the
/// command line.
pub proof fn law_helper_makes_its_element(settings: &Settings, request: ElementRequest)
    requires
        settings.credentials@.can_join(),
        call_ensures(create_pipeline, (settings,), request),
    ensures
        request.direction is Source <==> settings.direction is Source,
        request.location@ == "opentok://"@ + settings.credentials@.session_id->0 + "?key="@
            + settings.credentials@.api_key->0 + "&token="@ + settings.credentials@.token->0,
        request.name@ == "opentok-element"@,
        request.stream_id == settings.stream_id,
        request.display_name == settings.display_name,
{
    reveal_strlit("/");
    assert(request.location@ =~= "opentok://"@ + settings.credentials@.session_id->0 + "?key="@
        + settings.credentials@.api_key->0 + "&token="@ + settings.credentials@.token->0);
}

/// The helper that a sink element starts with values for a session makes a sink at the location of
/// that session.
pub proof fn law_helper_publishes_to_the_session_of_its_element(
    matches: &Matches,
    answer: Result<String, String>,
    result: Result<Settings, CliError>,
    request: ElementRequest,
)
    requires
        call_ensures(parse_cli, (matches, answer), result),
        matches.room_uri is None,
        result is Ok,
        call_ensures(create_pipeline, (&result->Ok_0,), request),
    ensures
        request.direction is Sink <==> matches.direction->0@ != "src"@,
        request.location@ == "opentok://"@ + matches.session_id->0@ + "?key="@
            + matches.api_key->0@ + "&token="@ + matches.token->0@,
        request.stream_id == matches.stream_id,
        request.display_name == matches.display_name,
{
    law_command_line_without_a_room(matches, answer, result);
    law_helper_makes_its_element(&result->Ok_0, request);
}

} // verus!
