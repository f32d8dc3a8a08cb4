//! The command line of the helper.

use crate::common::credentials::load_result;
use crate::common::credentials::takes_answer;
use crate::common::credentials::CredentialsError;
use crate::common::credentials::CredentialsView;
use crate::common::credentials::LoadError;
use crate::common::url::parsed_view;
use crate::common::url::url_of;
use crate::common::url::Url;
use crate::common::url::UrlView;
use crate::common::Credentials;
use crate::element::SessionKeysView;
use crate::opentoksink_remote::helper_args;
use crate::text::copy_opt;
use crate::text::join2;
use crate::text::opt_text;
use crate::text::same;
use vstd::prelude::*;

verus! {

/// Whether the helper runs a source or a sink.
#[derive(Clone, Copy, Debug, PartialEq, Eq, Structural)]
pub enum Direction {
    Source,
    Sink,
}

/// What the helper is asked to do.
#[derive(Debug)]
pub struct Settings {
    pub credentials: Credentials,
    pub stream_id: Option<String>,
    pub display_name: Option<String>,
    pub ipc_server: String,
    pub direction: Direction,
}

/// The values that were found on the command line.
#[derive(Debug)]
pub struct Matches {
    pub api_key: Option<String>,
    pub session_id: Option<String>,
    pub token: Option<String>,
    pub room_uri: Option<String>,
    pub stream_id: Option<String>,
    pub display_name: Option<String>,
    pub ipc_server: Option<String>,
    pub direction: Option<String>,
}

/// What is wrong with a command line.
#[derive(Debug)]
pub enum CliError {
    /// The room cannot be used.
    RoomUri(CredentialsError),
    /// No session can be joined with what was given.
    IncompleteCredentials,
    /// The room could not be asked for its session.
    Load(LoadError),
    NoIpcServer,
    NoDirection,
}

impl CliError {
    /// The message that a user reads.
    pub open spec fn text(self) -> Seq<char> {
        match self {
            CliError::RoomUri(error) => error.text(),
            CliError::IncompleteCredentials => "===> Incomplete credentials!"@,
            CliError::Load(error) => "could not load credentials: "@ + error.text(),
            CliError::NoIpcServer => "===> No ipc_server!"@,
            CliError::NoDirection => "===> No direction set"@,
        }
    }

    /// The message that a user reads.
    pub fn message(&self) -> (message: String)
        ensures
            message@ == self.text(),
    {
        match self {
            CliError::RoomUri(error) => error.message(),
            CliError::IncompleteCredentials => "===> Incomplete credentials!".to_owned(),
            CliError::Load(error) => join2(
                "could not load credentials: ",
                error.message().as_str(),
            ),
            CliError::NoIpcServer => "===> No ipc_server!".to_owned(),
            CliError::NoDirection => "===> No direction set".to_owned(),
        }
    }
}

/// The credentials on the command line, leaving the room aside.
pub open spec fn given_credentials(matches: Matches) -> CredentialsView {
    CredentialsView {
        api_key: opt_text(matches.api_key),
        session_id: opt_text(matches.session_id),
        token: opt_text(matches.token),
        stream_id: None,
        room_uri: None,
    }
}

/// The credentials on the command line are used, or there is something wrong with them: a room
/// goes together with no other field and has to be a url, and without a room all three values have
/// to be there. `room` is what the uri of the room was parsed to.
pub open spec fn checked_credentials(
    matches: Matches,
    room: Option<Result<UrlView, Seq<char>>>,
    result: Result<CredentialsView, CliError>,
) -> bool {
    let given = given_credentials(matches);
    match room {
        Some(parsed) => if given.has_other_field() {
            result == Err::<CredentialsView, CliError>(
                CliError::RoomUri(CredentialsError::OtherFieldSet),
            )
        } else {
            match parsed {
                Ok(url) => result == Ok::<CredentialsView, CliError>(
                    CredentialsView { room_uri: Some(url), ..CredentialsView::unset() },
                ),
                Err(reason) => result matches Err(
                    CliError::RoomUri(CredentialsError::MalformedUrl(found)),
                ) && found@ == reason,
            }
        },
        None => if given.can_join() {
            result == Ok::<CredentialsView, CliError>(given)
        } else {
            result == Err::<CredentialsView, CliError>(CliError::IncompleteCredentials)
        },
    }
}

/// What the uri of the room on the command line is parsed to, if there is a room.
pub open spec fn parsed_room(matches: Matches) -> Option<Result<UrlView, Seq<char>>> {
    match matches.room_uri {
        Some(uri) => Some(url_of(uri@)),
        None => None,
    }
}

/// The credentials on the command line are used, or there is something wrong with them.
pub open spec fn cli_credentials_result(
    matches: Matches,
    result: Result<CredentialsView, CliError>,
) -> bool {
    checked_credentials(matches, parsed_room(matches), result)
}

/// The direction that a word on the command line stands for.
pub open spec fn direction_of(word: Seq<char>) -> Direction {
    if word == "src"@ {
        Direction::Source
    } else {
        Direction::Sink
    }
}

/// What the credentials on the command line are, if nothing is wrong with them.
pub open spec fn uses_credentials(matches: Matches, credentials: CredentialsView) -> bool {
    cli_credentials_result(matches, Ok(credentials))
}

/// The room, if there is one, gives the values for its session.
pub open spec fn loads(
    before: CredentialsView,
    answer: Result<String, String>,
    result: Result<(), LoadError>,
) -> bool {
    exists|after: CredentialsView| load_result(before, answer, result, after)
}

/// The answer of the room on the command line is taken over, if it is an object whose members need
/// no escape.
pub open spec fn answer_used(
    matches: Matches,
    answer: Result<String, String>,
    result: Result<(), LoadError>,
    after: CredentialsView,
) -> bool {
    exists|credentials: CredentialsView| #[trigger]
        uses_credentials(matches, credentials) && takes_answer(credentials, answer, result, after)
}

/// What the helper is asked to do by this command line, or the first thing that is wrong with
/// it. `answer` is what the room said, if there is one to ask.
pub open spec fn parse_cli_result(
    matches: Matches,
    answer: Result<String, String>,
    result: Result<Settings, CliError>,
) -> bool {
    match result {
        Ok(settings) => {
            &&& exists|credentials: CredentialsView| #[trigger]
                uses_credentials(matches, credentials) && load_result(
                    credentials,
                    answer,
                    Ok(()),
                    settings.credentials@,
                )
            &&& matches.ipc_server == Some(settings.ipc_server)
            &&& matches.direction matches Some(word) && settings.direction == direction_of(word@)
            &&& settings.stream_id == matches.stream_id
            &&& settings.display_name == matches.display_name
        },
        Err(CliError::Load(error)) => exists|credentials: CredentialsView| #[trigger]
            uses_credentials(matches, credentials) && loads(credentials, answer, Err(error)),
        Err(CliError::NoIpcServer) => {
            &&& exists|credentials: CredentialsView| #[trigger]
                uses_credentials(matches, credentials) && loads(credentials, answer, Ok(()))
            &&& matches.ipc_server is None
        },
        Err(CliError::NoDirection) => {
            &&& exists|credentials: CredentialsView| #[trigger]
                uses_credentials(matches, credentials) && loads(credentials, answer, Ok(()))
            &&& matches.ipc_server is Some
            &&& matches.direction is None
        },
        Err(error) => cli_credentials_result(matches, Err(error)),
    }
}

/// The view of the credentials of a command line.
pub open spec fn credentials_view(result: Result<Credentials, CliError>) -> Result<
    CredentialsView,
    CliError,
> {
    match result {
        Ok(credentials) => Ok(credentials@),
        Err(error) => Err(error),
    }
}

/// The credentials on the command line. If they name a room, the room has to be asked for its
/// session before they are of use.
pub fn cli_credentials(matches: &Matches) -> (result: Result<Credentials, CliError>)
    ensures
        cli_credentials_result(*matches, credentials_view(result)),
        result matches Ok(credentials) ==> credentials@.complete(),
{
    let room = match &matches.room_uri {
        Some(uri) => Some(Url::parse(uri.as_str())),
        None => None,
    };
    check_credentials(matches, room)
}

/// What the uri of a room was parsed to, if there is a room.
pub open spec fn room_view(room: Option<Result<Url, String>>) -> Option<
    Result<UrlView, Seq<char>>,
> {
    match room {
        Some(parsed) => Some(parsed_view(parsed)),
        None => None,
    }
}

/// The credentials on the command line. `room` is what the uri of the room was parsed to, if there
/// is a room.
pub fn check_credentials(matches: &Matches, room: Option<Result<Url, String>>) -> (result: Result<
    Credentials,
    CliError,
>)
    ensures
        checked_credentials(*matches, room_view(room), credentials_view(result)),
        result matches Ok(credentials) ==> credentials@.complete(),
{
    let mut credentials = Credentials::default();
    if let Some(api_key) = &matches.api_key {
        let set = credentials.set_api_key(api_key.clone());
        assert(set is Ok);
    }
    if let Some(session_id) = &matches.session_id {
        let set = credentials.set_session_id(session_id.clone());
        assert(set is Ok);
    }
    if let Some(token) = &matches.token {
        let set = credentials.set_token(token.clone());
        assert(set is Ok);
    }
    assert(credentials@ == given_credentials(*matches));
    if let Some(parsed) = room {
        let ghost url = parsed_view(parsed)->Ok_0;
        if let Err(error) = credentials.set_room_url(parsed) {
            return Err(CliError::RoomUri(error));
        }
        assert(credentials@ == CredentialsView {
            room_uri: Some(url),
            ..CredentialsView::unset()
        });
    }
    if !credentials.is_complete() {
        return Err(CliError::IncompleteCredentials);
    }
    Ok(credentials)
}

/// What the helper is asked to do by a command line with these credentials, or the first thing
/// that is missing on it.
pub open spec fn settings_result(
    matches: Matches,
    credentials: CredentialsView,
    result: Result<Settings, CliError>,
) -> bool {
    if matches.ipc_server is None {
        result == Err::<Settings, CliError>(CliError::NoIpcServer)
    } else if matches.direction is None {
        result == Err::<Settings, CliError>(CliError::NoDirection)
    } else {
        &&& result matches Ok(settings)
        &&& settings.credentials@ == credentials
        &&& settings.stream_id == matches.stream_id
        &&& settings.display_name == matches.display_name
        &&& Some(settings.ipc_server) == matches.ipc_server
        &&& settings.direction == direction_of(matches.direction->0@)
    }
}

/// What the helper is asked to do, with credentials for a session.
pub fn settings(matches: &Matches, credentials: Credentials) -> (result: Result<
    Settings,
    CliError,
>)
    ensures
        settings_result(*matches, credentials@, result),
{
    let ipc_server = match &matches.ipc_server {
        Some(name) => name.clone(),
        None => {
            return Err(CliError::NoIpcServer);
        },
    };
    let direction = match &matches.direction {
        Some(word) => {
            if same(word.as_str(), "src") {
                Direction::Source
            } else {
                Direction::Sink
            }
        },
        None => {
            return Err(CliError::NoDirection);
        },
    };
    Ok(
        Settings {
            credentials,
            stream_id: copy_opt(&matches.stream_id),
            display_name: copy_opt(&matches.display_name),
            ipc_server,
            direction,
        },
    )
}

/// What the helper is asked to do. `answer` is what the room said, if there is one to ask. What
/// comes out can always join a session.
pub fn parse_cli(matches: &Matches, answer: Result<String, String>) -> (result: Result<
    Settings,
    CliError,
>)
    ensures
        parse_cli_result(*matches, answer, result),
        result matches Ok(settings) ==> settings.credentials@.can_join(),
        match result {
            Ok(settings) => answer_used(*matches, answer, Ok(()), settings.credentials@),
            Err(CliError::Load(error)) => exists|after: CredentialsView| #[trigger]
                answer_used(*matches, answer, Err(error), after),
            Err(CliError::NoIpcServer) => exists|after: CredentialsView| #[trigger]
                answer_used(*matches, answer, Ok(()), after),
            Err(CliError::NoDirection) => exists|after: CredentialsView| #[trigger]
                answer_used(*matches, answer, Ok(()), after),
            _ => true,
        },
{
    let mut credentials = match cli_credentials(matches) {
        Ok(credentials) => credentials,
        Err(error) => {
            return Err(error);
        },
    };
    let ghost before = credentials@;
    assert(uses_credentials(*matches, before));
    if let Err(error) = credentials.load(answer) {
        assert(loads(before, answer, Err(error)));
        assert(answer_used(*matches, answer, Err(error), credentials@));
        return Err(CliError::Load(error));
    }
    assert(load_result(before, answer, Ok(()), credentials@));
    assert(loads(before, answer, Ok(())));
    assert(answer_used(*matches, answer, Ok(()), credentials@));
    settings(matches, credentials)
}

/// The value behind a flag, where the arguments are pairs of a flag and a value.
pub open spec fn flag_value(args: Seq<Seq<char>>, flag: Seq<char>) -> Option<Seq<char>>
    decreases args.len(),
{
    if args.len() < 2 {
        None
    } else if args[0] == flag {
        Some(args[1])
    } else {
        flag_value(args.skip(2), flag)
    }
}

/// The values were found on a command line with these arguments, which are pairs of a flag and a
/// value.
pub open spec fn found_on(matches: Matches, args: Seq<Seq<char>>) -> bool {
    &&& opt_text(matches.api_key) == flag_value(args, "--api-key"@)
    &&& opt_text(matches.session_id) == flag_value(args, "--session-id"@)
    &&& opt_text(matches.token) == flag_value(args, "--token"@)
    &&& opt_text(matches.room_uri) == flag_value(args, "--room-uri"@)
    &&& opt_text(matches.stream_id) == flag_value(args, "--stream-id"@)
    &&& opt_text(matches.display_name) == flag_value(args, "--display-name"@)
    &&& opt_text(matches.ipc_server) == flag_value(args, "--ipc-server"@)
    &&& opt_text(matches.direction) == flag_value(args, "--direction"@)
}

/// No flag is written like another.
pub proof fn lemma_flags_differ()
    ensures
        "--api-key"@ != "--session-id"@,
        "--api-key"@ != "--token"@,
        "--api-key"@ != "--room-uri"@,
        "--api-key"@ != "--stream-id"@,
        "--api-key"@ != "--display-name"@,
        "--api-key"@ != "--ipc-server"@,
        "--api-key"@ != "--direction"@,
        "--session-id"@ != "--token"@,
        "--session-id"@ != "--room-uri"@,
        "--session-id"@ != "--stream-id"@,
        "--session-id"@ != "--display-name"@,
        "--session-id"@ != "--ipc-server"@,
        "--session-id"@ != "--direction"@,
        "--token"@ != "--room-uri"@,
        "--token"@ != "--stream-id"@,
        "--token"@ != "--display-name"@,
        "--token"@ != "--ipc-server"@,
        "--token"@ != "--direction"@,
        "--direction"@ != "--room-uri"@,
        "--direction"@ != "--stream-id"@,
        "--direction"@ != "--display-name"@,
        "--direction"@ != "--ipc-server"@,
        "--ipc-server"@ != "--room-uri"@,
        "--ipc-server"@ != "--stream-id"@,
        "--ipc-server"@ != "--display-name"@,
        "--stream-id"@ != "--room-uri"@,
        "--stream-id"@ != "--display-name"@,
        "--display-name"@ != "--room-uri"@,
        "sink"@ != "src"@,
{
    reveal_strlit("--api-key");
    reveal_strlit("--session-id");
    reveal_strlit("--token");
    reveal_strlit("--room-uri");
    reveal_strlit("--stream-id");
    reveal_strlit("--display-name");
    reveal_strlit("--ipc-server");
    reveal_strlit("--direction");
    reveal_strlit("sink");
    reveal_strlit("src");
    assert("--api-key"@[2] == 'a');
    assert("--session-id"@[2] == 's' && "--session-id"@[3] == 'e');
    assert("--token"@[2] == 't');
    assert("--room-uri"@[2] == 'r');
    assert("--stream-id"@[2] == 's' && "--stream-id"@[3] == 't');
    assert("--display-name"@[2] == 'd' && "--display-name"@[4] == 's');
    assert("--ipc-server"@[2] == 'i');
    assert("--direction"@[2] == 'd' && "--direction"@[4] == 'r');
    assert("sink"@.len() == 4);
    assert("src"@.len() == 3);
}

/// Where the first flag is another one, the value is looked for behind it.
proof fn lemma_flag_further(
    args: Seq<Seq<char>>,
    other: Seq<char>,
    value: Seq<char>,
    flag: Seq<char>,
)
    ensures
        flag_value(seq![other, value] + args, flag) == if other == flag {
            Some(value)
        } else {
            flag_value(args, flag)
        },
{
    let all = seq![other, value] + args;
    assert(all[0] == other);
    assert(all[1] == value);
    assert(all.skip(2) =~= args);
}

/// The values behind the flags of the arguments with which the helper is started.
pub proof fn lemma_helper_args_values(
    ipc_server: Seq<char>,
    keys: SessionKeysView,
    stream_id: Option<Seq<char>>,
    display_name: Option<Seq<char>>,
    flag: Seq<char>,
)
    ensures
        flag_value(helper_args(ipc_server, keys, stream_id, display_name), flag) == {
            if flag == "--api-key"@ {
                Some(keys.api_key)
            } else if flag == "--session-id"@ {
                Some(keys.session_id)
            } else if flag == "--token"@ {
                Some(keys.token)
            } else if flag == "--direction"@ {
                Some("sink"@)
            } else if flag == "--ipc-server"@ {
                Some(ipc_server)
            } else if flag == "--stream-id"@ {
                stream_id
            } else if flag == "--display-name"@ {
                display_name
            } else {
                None
            }
        },
{
    lemma_flags_differ();
    let none = Seq::<Seq<char>>::empty();
    let name = match display_name {
        Some(name) => seq!["--display-name"@, name] + none,
        None => none,
    };
    let stream = match stream_id {
        Some(id) => seq!["--stream-id"@, id] + name,
        None => name,
    };
    let ipc = seq!["--ipc-server"@, ipc_server] + stream;
    let direction = seq!["--direction"@, "sink"@] + ipc;
    let token = seq!["--token"@, keys.token] + direction;
    let session = seq!["--session-id"@, keys.session_id] + token;
    let all = seq!["--api-key"@, keys.api_key] + session;
    assert(helper_args(ipc_server, keys, stream_id, display_name) =~= all);
    lemma_flag_further(session, "--api-key"@, keys.api_key, flag);
    lemma_flag_further(token, "--session-id"@, keys.session_id, flag);
    lemma_flag_further(direction, "--token"@, keys.token, flag);
    lemma_flag_further(ipc, "--direction"@, "sink"@, flag);
    lemma_flag_further(stream, "--ipc-server"@, ipc_server, flag);
    if let Some(id) = stream_id {
        lemma_flag_further(name, "--stream-id"@, id, flag);
    }
    if let Some(display) = display_name {
        lemma_flag_further(none, "--display-name"@, display, flag);
    }
}

/// The helper that the sink element starts is asked to do exactly what the element wants: to
/// publish to the session of the element, under its stream and its display name, and to connect
/// to its server. There is no room to ask.
pub proof fn lemma_helper_does_what_element_wants(
    matches: Matches,
    ipc_server: Seq<char>,
    keys: SessionKeysView,
    stream_id: Option<Seq<char>>,
    display_name: Option<Seq<char>>,
    answer: Result<String, String>,
    result: Result<Settings, CliError>,
)
    requires
        found_on(matches, helper_args(ipc_server, keys, stream_id, display_name)),
        parse_cli_result(matches, answer, result),
    ensures
        result is Ok,
        result->Ok_0.credentials@ == (CredentialsView {
            api_key: Some(keys.api_key),
            session_id: Some(keys.session_id),
            token: Some(keys.token),
            stream_id: None,
            room_uri: None,
        }),
        result->Ok_0.direction == Direction::Sink,
        result->Ok_0.ipc_server@ == ipc_server,
        opt_text(result->Ok_0.stream_id) == stream_id,
        opt_text(result->Ok_0.display_name) == display_name,
{
    lemma_flags_differ();
    lemma_helper_args_values(ipc_server, keys, stream_id, display_name, "--api-key"@);
    lemma_helper_args_values(ipc_server, keys, stream_id, display_name, "--session-id"@);
    lemma_helper_args_values(ipc_server, keys, stream_id, display_name, "--token"@);
    lemma_helper_args_values(ipc_server, keys, stream_id, display_name, "--room-uri"@);
    lemma_helper_args_values(ipc_server, keys, stream_id, display_name, "--stream-id"@);
    lemma_helper_args_values(ipc_server, keys, stream_id, display_name, "--display-name"@);
    lemma_helper_args_values(ipc_server, keys, stream_id, display_name, "--ipc-server"@);
    lemma_helper_args_values(ipc_server, keys, stream_id, display_name, "--direction"@);
    let given = given_credentials(matches);
    assert(given.can_join());
    assert(matches.room_uri is None);
}

} // verus!
