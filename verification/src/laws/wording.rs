//! What users read, and how grave it is.

use crate::common::credentials::CredentialsError;
use crate::common::credentials::Field;
use crate::common::credentials::LoadError;
use crate::common::error::Error;
use crate::common::log::pipe_opentok_to_gst_log;
use crate::common::log::LogLevel;
use crate::element::LocationError;
use crate::helper::cli::CliError;
use crate::laws::counting::lemma_occurs;
use vstd::prelude::*;

verus! {

/// The text holds this word somewhere.
pub open spec fn speaks_of(text: Seq<char>, word: Seq<char>) -> bool {
    exists|before: Seq<char>, after: Seq<char>| text == #[trigger] (before + word + after)
}

/// A logged message is an error if it says so, apart from the complaint about the proxy, which is
/// dropped; otherwise it is a warning if it says so, and only of use for debugging if not.
pub proof fn law_logged_messages_keep_their_weight(message: &str, level: Option<LogLevel>)
    requires
        call_ensures(pipe_opentok_to_gst_log, (message,), level),
    ensures
        level is None <==> speaks_of(message@, "ERROR"@) && speaks_of(
            message@,
            "Could not check wether there is a proxy"@,
        ),
        level == Some(LogLevel::Error) <==> speaks_of(message@, "ERROR"@) && !speaks_of(
            message@,
            "Could not check wether there is a proxy"@,
        ),
        level == Some(LogLevel::Warning) <==> !speaks_of(message@, "ERROR"@) && speaks_of(
            message@,
            "WARN"@,
        ),
        level == Some(LogLevel::Debug) <==> !speaks_of(message@, "ERROR"@) && !speaks_of(
            message@,
            "WARN"@,
        ),
{
    lemma_occurs(message@, "ERROR"@);
    lemma_occurs(message@, "WARN"@);
    lemma_occurs(message@, "Could not check wether there is a proxy"@);
}

/// The words around what an error is about.
pub open spec fn words_around(error: Error) -> (Seq<char>, Seq<char>) {
    match error {
        Error::AddElement(_) => ("Cannot add element "@, ""@),
        Error::ElementPad(_) => ("Cannot get element pad "@, ""@),
        Error::Init(_) => ("OpenTok initialization error "@, ""@),
        Error::InvalidState(_) => ("Invalid state: "@, ""@),
        Error::LinkElements(_) => ("Cannot link elements: "@, ""@),
        Error::MissingElement(_) => (
            "Missing element "@,
            ". Check your GStreamer installation"@,
        ),
        Error::MissingOpenTokRemoteBinary => (
            "Cannot find gst-opentok-helper binary in $PATH."@,
            ""@,
        ),
        Error::OpenTokRemoteLaunchFailed => (
            "Failed to launch OpenTokRemote container process"@,
            ""@,
        ),
        Error::PadActivation(_) => ("Cannot activate pad "@, ""@),
        Error::PadConstruction(_, _) => ("Cannot create pad "@, ""@),
        Error::SubscriberStreamSetupFailed(_) => (
            "Failed to set stream "@,
            " on OpenTok subscriber"@,
        ),
        Error::InvalidStream(_, _) => ("Not subscribing to "@, ""@),
    }
}

/// What an error is about.
pub open spec fn subject(error: Error) -> Seq<char> {
    match error {
        Error::AddElement(name) => name@,
        Error::ElementPad(name) => name@,
        Error::Init(reason) => reason@,
        Error::InvalidState(reason) => reason@,
        Error::LinkElements(names) => names@,
        Error::MissingElement(name) => name@,
        Error::MissingOpenTokRemoteBinary => Seq::empty(),
        Error::OpenTokRemoteLaunchFailed => Seq::empty(),
        Error::PadActivation(name) => name@,
        Error::PadConstruction(name, detail) => name@ + " "@ + detail@,
        Error::SubscriberStreamSetupFailed(reason) => reason@,
        Error::InvalidStream(found, wanted) => found@ + ". We only care about "@ + wanted@,
    }
}

/// The message of an error is what it is about, between words that say what went wrong.
pub proof fn law_errors_say_what_they_are_about(error: &Error, message: String)
    requires
        call_ensures(Error::message, (error,), message),
    ensures
        message@ == words_around(*error).0 + subject(*error) + words_around(*error).1,
{
    reveal_strlit("");
    assert(message@ =~= words_around(*error).0 + subject(*error) + words_around(*error).1);
}

/// Two errors of one kind that are about different things read differently.
pub proof fn law_different_errors_read_differently(
    error: &Error,
    message: String,
    other: &Error,
    other_message: String,
)
    requires
        call_ensures(Error::message, (error,), message),
        call_ensures(Error::message, (other,), other_message),
        words_around(*error) == words_around(*other),
        message@ == other_message@,
    ensures
        subject(*error) == subject(*other),
{
    law_errors_say_what_they_are_about(error, message);
    law_errors_say_what_they_are_about(other, other_message);
    let start = words_around(*error).0.len() as int;
    let n = message@.len() - start - words_around(*error).1.len();
    assert(subject(*error) =~= message@.subrange(start, start + n));
    assert(subject(*other) =~= other_message@.subrange(start, start + n));
}

/// A field that cannot be set beside a room is named.
pub proof fn law_refused_credentials_are_named(error: &CredentialsError, message: String)
    requires
        call_ensures(CredentialsError::message, (error,), message),
    ensures
        error matches CredentialsError::RoomUriSet(field) ==> message@ == "Can't set "@
            + (match field {
            Field::ApiKey => "api_key"@,
            Field::SessionId => "session_id"@,
            Field::Token => "token"@,
            Field::StreamId => "stream_id"@,
        }) + " when room_uri is set"@,
        *error is OtherFieldSet ==> message@ == "Can't set `room_uri` when any other field is set"@,
        error matches CredentialsError::MalformedUrl(reason) ==> message@ == "Malformed url "@
            + reason@,
{
    reveal_strlit("Can't set ");
    reveal_strlit("api_key");
    reveal_strlit("session_id");
    reveal_strlit("token");
    reveal_strlit("stream_id");
    reveal_strlit(" when room_uri is set");
    reveal_strlit("Can't set api_key when room_uri is set");
    reveal_strlit("Can't set session_id when room_uri is set");
    reveal_strlit("Can't set token when room_uri is set");
    reveal_strlit("Can't set stream_id when room_uri is set");
    assert("Can't set api_key when room_uri is set"@ =~= "Can't set "@ + "api_key"@
        + " when room_uri is set"@);
    assert("Can't set session_id when room_uri is set"@ =~= "Can't set "@ + "session_id"@
        + " when room_uri is set"@);
    assert("Can't set token when room_uri is set"@ =~= "Can't set "@ + "token"@
        + " when room_uri is set"@);
    assert("Can't set stream_id when room_uri is set"@ =~= "Can't set "@ + "stream_id"@
        + " when room_uri is set"@);
}

/// A room that gives no session is complained about in its own words, or with the name of the member
/// that its answer lacks. On the command line it is said that the credentials could not be loaded.
pub proof fn law_failed_rooms_are_complained_about(
    error: LoadError,
    message: String,
    on_command_line: String,
)
    requires
        call_ensures(LoadError::message, (&error,), message),
        call_ensures(CliError::message, (&CliError::Load(error),), on_command_line),
    ensures
        error matches LoadError::Fetch(reason) ==> message@ == reason@,
        error matches LoadError::Json(reason) ==> message@ == reason@,
        error is NoApiKey ==> message@ == "No `apiKey` in json"@,
        error is NoSessionId ==> message@ == "No `sessionId` key in json"@,
        error is NoToken ==> message@ == "No `token` key in json"@,
        on_command_line@ == "could not load credentials: "@ + message@,
{
}

/// A room on the command line that cannot be used is complained about as the credentials do, and
/// what is missing there is named.
pub proof fn law_wrong_command_lines_are_complained_about(
    error: &CliError,
    message: String,
    room: CredentialsError,
    of_room: String,
)
    requires
        call_ensures(CliError::message, (error,), message),
        call_ensures(CredentialsError::message, (&room,), of_room),
    ensures
        *error == CliError::RoomUri(room) ==> message@ == of_room@,
        *error is IncompleteCredentials ==> message@ == "===> Incomplete credentials!"@,
        *error is NoIpcServer ==> message@ == "===> No ipc_server!"@,
        *error is NoDirection ==> message@ == "===> No direction set"@,
{
}

/// A location that is not accepted is complained about with the reason.
pub proof fn law_refused_locations_are_complained_about(
    error: &LocationError,
    credentials: &str,
    message: String,
)
    requires
        call_ensures(LocationError::message, (error, credentials), message),
    ensures
        error matches LocationError::Malformed(reason) ==> message@ == "Malformed url "@ + reason@,
        *error is StreamIdSet ==> message@ == "Stream ID can only be set once"@,
        *error is CredentialsSet ==> message@ == "Credential already set "@ + credentials@,
{
}

} // verus!
