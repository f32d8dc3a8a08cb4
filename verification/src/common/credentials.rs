//! The credentials of an OpenTok session.

use crate::common::json::member_values;
use crate::common::json::members_of;
use crate::common::json::members_view;
use crate::common::json::name_texts;
use crate::common::json::object_text;
use crate::common::json::opt_texts;
use crate::common::json::plain_object;
use crate::common::json::read_members;
use crate::common::url::fits_url;
use crate::common::url::holds_location;
use crate::common::url::is_simple;
use crate::common::url::lemma_simple_parts_plain;
use crate::common::url::location_text;
use crate::common::url::pairs_text;
use crate::common::url::parsed_view;
use crate::common::url::plain_parts;
use crate::common::url::reads_location;
use crate::common::url::url_of;
use crate::common::url::Protocol;
use crate::common::url::Url;
use crate::common::url::UrlView;
use crate::text::copy_opt;
use crate::text::join2;
use crate::text::opt_ref_text;
use crate::text::opt_text;
use crate::text::same;
use vstd::prelude::*;

verus! {

/// One of the values that credentials are made of.
#[derive(Clone, Copy, Debug, PartialEq, Eq, Structural)]
pub enum Field {
    ApiKey,
    SessionId,
    Token,
    StreamId,
}

/// The reason for which a value of the credentials was not set.
#[derive(Debug)]
pub enum CredentialsError {
    /// The field cannot be set, because the uri of a room is set.
    RoomUriSet(Field),
    /// The uri of a room cannot be set, because another field is set.
    OtherFieldSet,
    /// The uri of the room is no url. Holds the name of the reason.
    MalformedUrl(String),
}

impl CredentialsError {
    /// The message that a user reads.
    pub open spec fn text(self) -> Seq<char> {
        match self {
            CredentialsError::RoomUriSet(Field::ApiKey) =>
                "Can't set api_key when room_uri is set"@,
            CredentialsError::RoomUriSet(Field::SessionId) =>
                "Can't set session_id when room_uri is set"@,
            CredentialsError::RoomUriSet(Field::Token) => "Can't set token when room_uri is set"@,
            CredentialsError::RoomUriSet(Field::StreamId) =>
                "Can't set stream_id when room_uri is set"@,
            CredentialsError::OtherFieldSet =>
                "Can't set `room_uri` when any other field is set"@,
            CredentialsError::MalformedUrl(reason) => "Malformed url "@ + reason@,
        }
    }

    /// The message that a user reads.
    pub fn message(&self) -> (message: String)
        ensures
            message@ == self.text(),
    {
        match self {
            CredentialsError::RoomUriSet(Field::ApiKey) =>
                "Can't set api_key when room_uri is set".to_owned(),
            CredentialsError::RoomUriSet(Field::SessionId) =>
                "Can't set session_id when room_uri is set".to_owned(),
            CredentialsError::RoomUriSet(Field::Token) =>
                "Can't set token when room_uri is set".to_owned(),
            CredentialsError::RoomUriSet(Field::StreamId) =>
                "Can't set stream_id when room_uri is set".to_owned(),
            CredentialsError::OtherFieldSet =>
                "Can't set `room_uri` when any other field is set".to_owned(),
            CredentialsError::MalformedUrl(reason) => join2("Malformed url ", reason.as_str()),
        }
    }
}

/// The reason for which the credentials of a room could not be loaded.
#[derive(Debug)]
pub enum LoadError {
    /// The room did not answer, or not in time. Holds the words of the reason.
    Fetch(String),
    /// The answer is no JSON value. Holds the words of the reason.
    Json(String),
    NoApiKey,
    NoSessionId,
    NoToken,
}

impl LoadError {
    /// The message that a user reads.
    pub open spec fn text(self) -> Seq<char> {
        match self {
            LoadError::Fetch(reason) => reason@,
            LoadError::Json(reason) => reason@,
            LoadError::NoApiKey => "No `apiKey` in json"@,
            LoadError::NoSessionId => "No `sessionId` key in json"@,
            LoadError::NoToken => "No `token` key in json"@,
        }
    }

    /// The message that a user reads.
    pub fn message(&self) -> (message: String)
        ensures
            message@ == self.text(),
    {
        match self {
            LoadError::Fetch(reason) => reason.clone(),
            LoadError::Json(reason) => reason.clone(),
            LoadError::NoApiKey => "No `apiKey` in json".to_owned(),
            LoadError::NoSessionId => "No `sessionId` key in json".to_owned(),
            LoadError::NoToken => "No `token` key in json".to_owned(),
        }
    }
}

/// OpenTok session credentials.
#[derive(Debug)]
pub struct Credentials {
    /// OpenTok API Key.
    api_key: Option<String>,
    /// OpenTok Session identifier.
    /// You can think of a session as a "room" where clients can
    /// interact with one another in real-time, associated with
    /// this unique session ID.
    session_id: Option<String>,
    /// OpenTok Session token.
    /// A token is a unique authentication "key" that allows a
    /// client to join a session.
    token: Option<String>,
    /// Stream ID to subscribe to, if any.
    /// Only useful for subscribers.
    stream_id: Option<String>,
    /// Uri of the room, conflicts with other fields.
    room_uri: Option<Url>,
}

/// What [`Credentials`] hold.
#[verifier::ext_equal]
pub struct CredentialsView {
    pub api_key: Option<Seq<char>>,
    pub session_id: Option<Seq<char>>,
    pub token: Option<Seq<char>>,
    pub stream_id: Option<Seq<char>>,
    pub room_uri: Option<UrlView>,
}

/// The view of an optional url.
pub open spec fn opt_url(url: Option<Url>) -> Option<UrlView> {
    match url {
        Some(url) => Some(url@),
        None => None,
    }
}

/// The view of an optional borrowed url.
pub open spec fn opt_ref_url(url: Option<&Url>) -> Option<UrlView> {
    match url {
        Some(url) => Some(url@),
        None => None,
    }
}

impl View for Credentials {
    type V = CredentialsView;

    closed spec fn view(&self) -> CredentialsView {
        CredentialsView {
            api_key: opt_text(self.api_key),
            session_id: opt_text(self.session_id),
            token: opt_text(self.token),
            stream_id: opt_text(self.stream_id),
            room_uri: opt_url(self.room_uri),
        }
    }
}

impl CredentialsView {
    /// Credentials in which nothing is set.
    pub open spec fn unset() -> CredentialsView {
        CredentialsView {
            api_key: None,
            session_id: None,
            token: None,
            stream_id: None,
            room_uri: None,
        }
    }

    /// The key, the session and the token are known, so that a session can be joined.
    pub open spec fn can_join(self) -> bool {
        self.api_key is Some && self.session_id is Some && self.token is Some
    }

    /// A session can be joined, at once or after asking the room.
    pub open spec fn complete(self) -> bool {
        self.room_uri is Some || self.can_join()
    }

    /// A field other than the uri of the room is set.
    pub open spec fn has_other_field(self) -> bool {
        self.api_key is Some || self.session_id is Some || self.token is Some
            || self.stream_id is Some
    }

    /// The uri of the room and the other fields are not both set.
    pub open spec fn exclusive(self) -> bool {
        self.room_uri is Some ==> !self.has_other_field()
    }

    /// The credentials with another value of one field.
    pub open spec fn with(self, field: Field, value: Seq<char>) -> CredentialsView {
        match field {
            Field::ApiKey => CredentialsView { api_key: Some(value), ..self },
            Field::SessionId => CredentialsView { session_id: Some(value), ..self },
            Field::Token => CredentialsView { token: Some(value), ..self },
            Field::StreamId => CredentialsView { stream_id: Some(value), ..self },
        }
    }
}

/// The value of the last pair of a query that has this name.
pub open spec fn last_value(pairs: Seq<(Seq<char>, Seq<char>)>, name: Seq<char>) -> Option<
    Seq<char>,
>
    decreases pairs.len(),
{
    if pairs.len() == 0 {
        None
    } else if pairs.last().0 == name {
        Some(pairs.last().1)
    } else {
        last_value(pairs.drop_last(), name)
    }
}

/// The credentials in a url of the form
/// `opentok://<session id>/<stream_id>?key=<key>&token=<token>`. What the url leaves out is
/// empty, except for the stream, which is then none in particular.
pub open spec fn url_credentials(url: UrlView) -> CredentialsView {
    CredentialsView {
        api_key: Some(
            match last_value(url.query_pairs, "key"@) {
                Some(value) => value,
                None => Seq::empty(),
            },
        ),
        session_id: Some(
            match url.host {
                Some(host) => host,
                None => Seq::empty(),
            },
        ),
        token: Some(
            match last_value(url.query_pairs, "token"@) {
                Some(value) => value,
                None => Seq::empty(),
            },
        ),
        stream_id: match url.path_segments {
            Some(segments) => if segments.len() == 1 {
                Some(segments[0])
            } else {
                None
            },
            None => None,
        },
        room_uri: None,
    }
}

/// The text under which a room gives its credentials.
pub open spec fn info_text(room: UrlView) -> Seq<char> {
    room.text + "/info"@
}

/// The names of the members of the answer of a room.
pub open spec fn info_names() -> Seq<Seq<char>> {
    seq!["apiKey"@, "sessionId"@, "token"@]
}

/// What the members of the answer of a room make of the credentials `before`: the three values
/// are taken over one by one, up to the first that the answer lacks.
pub open spec fn loaded(
    before: CredentialsView,
    members: Seq<Option<Seq<char>>>,
) -> CredentialsView {
    if members[0] is None {
        before
    } else if members[1] is None {
        CredentialsView { api_key: members[0], ..before }
    } else if members[2] is None {
        CredentialsView { api_key: members[0], session_id: members[1], ..before }
    } else {
        CredentialsView {
            api_key: members[0],
            session_id: members[1],
            token: members[2],
            ..before
        }
    }
}

/// What the answer of a room makes of the credentials `before`. `members` are the members of the
/// answer, or the words of the reason for which it has none.
pub open spec fn members_result(
    before: CredentialsView,
    members: Result<Seq<Option<Seq<char>>>, Seq<char>>,
    result: Result<(), LoadError>,
    after: CredentialsView,
) -> bool {
    match members {
        Err(reason) => {
            &&& result matches Err(LoadError::Json(found)) && found@ == reason
            &&& after == before
        },
        Ok(members) => {
            &&& after == loaded(before, members)
            &&& if members[0] is None {
                result == Err::<(), LoadError>(LoadError::NoApiKey)
            } else if members[1] is None {
                result == Err::<(), LoadError>(LoadError::NoSessionId)
            } else if members[2] is None {
                result == Err::<(), LoadError>(LoadError::NoToken)
            } else {
                result is Ok
            }
        },
    }
}

/// What setting one field to `value` makes of the credentials `before`: it is refused if and only
/// if the uri of a room is set.
pub open spec fn set_result(
    before: CredentialsView,
    field: Field,
    value: Seq<char>,
    result: Result<(), CredentialsError>,
    after: CredentialsView,
) -> bool {
    if before.room_uri is Some {
        result == Err::<(), CredentialsError>(CredentialsError::RoomUriSet(field)) && after
            == before
    } else {
        result is Ok && after == before.with(field, value)
    }
}

/// What setting the uri of the room makes of the credentials `before`: it is refused if and only
/// if another field is set or the uri is no url.
pub open spec fn set_room_result(
    before: CredentialsView,
    parsed: Result<UrlView, Seq<char>>,
    result: Result<(), CredentialsError>,
    after: CredentialsView,
) -> bool {
    if before.has_other_field() {
        result == Err::<(), CredentialsError>(CredentialsError::OtherFieldSet) && after == before
    } else {
        match parsed {
            Ok(url) => result is Ok && after == CredentialsView { room_uri: Some(url), ..before },
            Err(reason) => {
                &&& result matches Err(CredentialsError::MalformedUrl(found)) && found@ == reason
                &&& after == before
            },
        }
    }
}

/// What loading makes of the credentials `before`, given what the room answered.
pub open spec fn load_result(
    before: CredentialsView,
    answer: Result<String, String>,
    result: Result<(), LoadError>,
    after: CredentialsView,
) -> bool {
    if before.room_uri is None {
        result is Ok && after == before
    } else {
        match answer {
            Err(reason) => result == Err::<(), LoadError>(LoadError::Fetch(reason)) && after
                == before,
            Ok(payload) => members_result(
                before,
                members_of(payload@, info_names()),
                result,
                after,
            ),
        }
    }
}

/// If the room of the credentials `before` answers with an object whose members need no escape, then
/// the members of that object are taken over.
pub open spec fn takes_answer(
    before: CredentialsView,
    answer: Result<String, String>,
    result: Result<(), LoadError>,
    after: CredentialsView,
) -> bool {
    before.room_uri is Some && answer is Ok ==> forall|members: Seq<(Seq<char>, Seq<char>)>|
        plain_object(members) && answer->Ok_0@ == #[trigger] object_text(members)
            ==> members_result(before, Ok(member_values(members, info_names())), result, after)
}

/// The value of the last pair that has this name.
fn find_last(pairs: &Vec<(String, String)>, name: &str) -> (value: Option<String>)
    ensures
        opt_text(value) == last_value(pairs_text(pairs@), name@),
{
    let ghost all = pairs_text(pairs@);
    let mut i: usize = pairs.len();
    assert(all.take(i as int) =~= all);
    while i > 0
        invariant
            i <= pairs@.len(),
            all == pairs_text(pairs@),
            last_value(all, name@) == last_value(all.take(i as int), name@),
        decreases i,
    {
        i -= 1;
        assert(all.take(i + 1).drop_last() =~= all.take(i as int));
        assert(all.take(i + 1).last() == (pairs@[i as int].0@, pairs@[i as int].1@));
        if same(pairs[i].0.as_str(), name) {
            return Some(pairs[i].1.clone());
        }
    }
    None
}

/// The text, or an empty one where there is none.
fn or_empty(text: Option<String>) -> (value: String)
    ensures
        value@ == match opt_text(text) {
            Some(text) => text,
            None => Seq::empty(),
        },
{
    match text {
        Some(text) => text,
        None => String::new(),
    }
}

/// Extract credentials from urls of this form:
/// opentok://<session id>/<stream_id>?key=<key>&token=<token>
impl From<Url> for Credentials {
    fn from(url: Url) -> (credentials: Credentials)
        ensures
            credentials@ == url_credentials(url@),
    {
        let api_key = or_empty(find_last(&url.query_pairs, "key"));
        let token = or_empty(find_last(&url.query_pairs, "token"));
        let session_id = or_empty(copy_opt(&url.host));
        let mut stream_id: Option<String> = None;
        if let Some(segments) = &url.path_segments {
            if segments.len() == 1 {
                stream_id = Some(segments[0].clone());
            }
        }
        Credentials {
            api_key: Some(api_key),
            session_id: Some(session_id),
            token: Some(token),
            stream_id,
            room_uri: None,
        }
    }
}

impl vstd::std_specs::convert::FromSpecImpl<Url> for Credentials {
    open spec fn obeys_from_spec() -> bool {
        false
    }

    open spec fn from_spec(url: Url) -> Credentials {
        arbitrary()
    }
}

/// The credentials that a location is made of.
pub open spec fn location_credentials(
    session_id: Seq<char>,
    stream_id: Option<Seq<char>>,
    api_key: Seq<char>,
    token: Seq<char>,
) -> CredentialsView {
    CredentialsView {
        api_key: Some(api_key),
        session_id: Some(session_id),
        token: Some(token),
        stream_id,
        room_uri: None,
    }
}

/// If the parts of `location` hold no character with another meaning, then `result` holds the
/// credentials that it was made of, or says that a url cannot count them.
pub open spec fn gives_back_location(
    location: Seq<char>,
    result: Result<CredentialsView, Seq<char>>,
) -> bool {
    forall|
        protocol: Protocol,
        session_id: Seq<char>,
        stream_id: Option<Seq<char>>,
        api_key: Seq<char>,
        token: Seq<char>,
    |
        plain_parts(session_id, stream_id, api_key, token) && location == #[trigger] location_text(
            protocol,
            session_id,
            stream_id,
            api_key,
            token,
        ) ==> result == if fits_url(protocol, session_id, stream_id) {
            Ok::<CredentialsView, Seq<char>>(
                location_credentials(session_id, stream_id, api_key, token),
            )
        } else {
            Err("Overflow"@)
        }
}

/// The credentials at a location, or the name of the reason for which there are none.
pub open spec fn credentials_at(location: Seq<char>) -> Result<CredentialsView, Seq<char>> {
    match url_of(location) {
        Ok(url) => Ok(url_credentials(url)),
        Err(reason) => Err(reason),
    }
}

/// The view of credentials that were read, or the characters of the reason for which there are
/// none.
pub open spec fn found_view(result: Result<Credentials, String>) -> Result<
    CredentialsView,
    Seq<char>,
> {
    match result {
        Ok(credentials) => Ok(credentials@),
        Err(reason) => Err(reason@),
    }
}

/// The parts of a location are found again in a url that holds them.
pub proof fn lemma_location_url_credentials(
    url: UrlView,
    session_id: Seq<char>,
    stream_id: Option<Seq<char>>,
    api_key: Seq<char>,
    token: Seq<char>,
)
    requires
        holds_location(url, session_id, stream_id, api_key, token),
    ensures
        url_credentials(url) == location_credentials(session_id, stream_id, api_key, token),
{
    if session_id.len() == 0 {
        assert(session_id =~= Seq::empty());
    }
    let pairs = seq![("key"@, api_key), ("token"@, token)];
    assert("key"@ != "token"@) by {
        reveal_strlit("key");
        reveal_strlit("token");
        assert("key"@.len() != "token"@.len());
    }
    assert(pairs.drop_last() =~= seq![("key"@, api_key)]);
    assert(last_value(pairs, "key"@) == last_value(pairs.drop_last(), "key"@));
}

/// Whatever url a printed location is parsed to, the credentials read off it are the parts that
/// were printed, with either protocol and however long they are.
pub proof fn lemma_printed_location_undone(
    protocol: Protocol,
    session_id: Seq<char>,
    stream_id: Seq<char>,
    api_key: Seq<char>,
    token: Seq<char>,
    url: UrlView,
)
    requires
        is_simple(session_id),
        is_simple(stream_id),
        is_simple(api_key),
        is_simple(token),
        reads_location(
            location_text(protocol, session_id, Some(stream_id), api_key, token),
            Ok(url),
        ),
    ensures
        url_credentials(url) == location_credentials(session_id, Some(stream_id), api_key, token),
{
    lemma_simple_parts_plain(session_id, stream_id, api_key, token);
    lemma_location_url_credentials(url, session_id, Some(stream_id), api_key, token);
}

/// Reads the credentials off a location. The error holds the name of the reason for which the
/// location is no url.
pub fn parse_location(location: &str) -> (result: Result<Credentials, String>)
    ensures
        found_view(result) == credentials_at(location@),
        gives_back_location(location@, found_view(result)),
{
    match Url::parse(location) {
        Ok(url) => {
            proof {
                assert forall|
                    protocol: Protocol,
                    session_id: Seq<char>,
                    stream_id: Option<Seq<char>>,
                    api_key: Seq<char>,
                    token: Seq<char>,
                |
                    plain_parts(session_id, stream_id, api_key, token) && location@
                        == #[trigger] location_text(
                        protocol,
                        session_id,
                        stream_id,
                        api_key,
                        token,
                    ) implies url_credentials(url@) == location_credentials(
                    session_id,
                    stream_id,
                    api_key,
                    token,
                ) by {
                    lemma_location_url_credentials(url@, session_id, stream_id, api_key, token);
                }
            }
            Ok(Credentials::from(url))
        },
        Err(reason) => Err(reason),
    }
}

impl Default for Credentials {
    /// Credentials in which nothing is set.
    fn default() -> (credentials: Credentials)
        ensures
            credentials@ == CredentialsView::unset(),
    {
        Credentials { api_key: None, session_id: None, token: None, stream_id: None, room_uri: None }
    }
}

impl Credentials {
    /// Whether a session can be joined, at once or after asking the room.
    pub fn is_complete(&self) -> (complete: bool)
        ensures
            complete == self@.complete(),
    {
        self.room_uri.is_some() || (self.api_key.is_some() && self.session_id.is_some()
            && self.token.is_some())
    }

    /// The uri of the room, if it is set.
    pub fn room_uri(&self) -> (uri: Option<&Url>)
        ensures
            opt_ref_url(uri) == self@.room_uri,
    {
        self.room_uri.as_ref()
    }

    /// The stream to subscribe to, if any.
    pub fn stream_id(&self) -> (id: Option<&String>)
        ensures
            opt_ref_text(id) == self@.stream_id,
    {
        self.stream_id.as_ref()
    }

    /// The API key, if it is set.
    pub fn api_key(&self) -> (key: Option<&String>)
        ensures
            opt_ref_text(key) == self@.api_key,
    {
        self.api_key.as_ref()
    }

    /// The identifier of the session, if it is set.
    pub fn session_id(&self) -> (id: Option<&String>)
        ensures
            opt_ref_text(id) == self@.session_id,
    {
        self.session_id.as_ref()
    }

    /// The token of the session, if it is set.
    pub fn token(&self) -> (token: Option<&String>)
        ensures
            opt_ref_text(token) == self@.token,
    {
        self.token.as_ref()
    }

    /// Sets the API key, unless the uri of a room is set.
    pub fn set_api_key(&mut self, key: String) -> (result: Result<(), CredentialsError>)
        ensures
            set_result(old(self)@, Field::ApiKey, key@, result, final(self)@),
            old(self)@.exclusive() ==> final(self)@.exclusive(),
    {
        if self.room_uri.is_some() {
            return Err(CredentialsError::RoomUriSet(Field::ApiKey));
        }
        self.api_key = Some(key);
        Ok(())
    }

    /// Sets the identifier of the session, unless the uri of a room is set.
    pub fn set_session_id(&mut self, id: String) -> (result: Result<(), CredentialsError>)
        ensures
            set_result(old(self)@, Field::SessionId, id@, result, final(self)@),
            old(self)@.exclusive() ==> final(self)@.exclusive(),
    {
        if self.room_uri.is_some() {
            return Err(CredentialsError::RoomUriSet(Field::SessionId));
        }
        self.session_id = Some(id);
        Ok(())
    }

    /// Sets the token of the session, unless the uri of a room is set.
    pub fn set_token(&mut self, token: String) -> (result: Result<(), CredentialsError>)
        ensures
            set_result(old(self)@, Field::Token, token@, result, final(self)@),
            old(self)@.exclusive() ==> final(self)@.exclusive(),
    {
        if self.room_uri.is_some() {
            return Err(CredentialsError::RoomUriSet(Field::Token));
        }
        self.token = Some(token);
        Ok(())
    }

    /// Sets the stream to subscribe to, unless the uri of a room is set.
    pub fn set_stream_id(&mut self, stream_id: String) -> (result: Result<(), CredentialsError>)
        ensures
            set_result(old(self)@, Field::StreamId, stream_id@, result, final(self)@),
            old(self)@.exclusive() ==> final(self)@.exclusive(),
    {
        if self.room_uri.is_some() {
            return Err(CredentialsError::RoomUriSet(Field::StreamId));
        }
        self.stream_id = Some(stream_id);
        Ok(())
    }

    /// Sets the uri of the room, unless another field is set.
    pub fn set_room_uri(&mut self, uri: String) -> (result: Result<(), CredentialsError>)
        ensures
            set_room_result(old(self)@, url_of(uri@), result, final(self)@),
            old(self)@.exclusive() ==> final(self)@.exclusive(),
            old(self)@.can_join() ==> final(self)@.can_join(),
    {
        self.set_room_url(Url::parse(uri.as_str()))
    }

    /// Sets the uri of the room to what it was parsed to. The error of a uri that is no url is the
    /// name of the reason.
    pub fn set_room_url(&mut self, parsed: Result<Url, String>) -> (result: Result<
        (),
        CredentialsError,
    >)
        ensures
            set_room_result(old(self)@, parsed_view(parsed), result, final(self)@),
            old(self)@.exclusive() ==> final(self)@.exclusive(),
            old(self)@.can_join() ==> final(self)@.can_join(),
    {
        if self.api_key.is_some() || self.session_id.is_some() || self.token.is_some()
            || self.stream_id.is_some() {
            return Err(CredentialsError::OtherFieldSet);
        }
        match parsed {
            Ok(url) => {
                self.room_uri = Some(url);
                Ok(())
            },
            Err(reason) => Err(CredentialsError::MalformedUrl(reason)),
        }
    }

    /// The url to ask for the credentials of the room, if the uri of a room is set.
    pub fn info_url(&self) -> (url: Option<String>)
        ensures
            opt_text(url) == match self@.room_uri {
                Some(room) => Some(info_text(room)),
                None => None,
            },
    {
        match &self.room_uri {
            Some(room) => Some(join2(room.text.as_str(), "/info")),
            None => None,
        }
    }

    /// Takes over the credentials of the room from its answer to [`Credentials::info_url`], or
    /// does nothing where there is no room to ask. Of an answer that is an object whose members
    /// need no escape, the members are taken over by their names, whatever their order and whatever
    /// else there is.
    pub fn load(&mut self, answer: Result<String, String>) -> (result: Result<(), LoadError>)
        ensures
            load_result(old(self)@, answer, result, final(self)@),
            result is Ok && old(self)@.complete() ==> final(self)@.can_join(),
            old(self)@.can_join() ==> final(self)@.can_join(),
            takes_answer(old(self)@, answer, result, final(self)@),
    {
        if self.room_uri.is_none() {
            return Ok(());
        }
        let payload = match answer {
            Ok(payload) => payload,
            Err(reason) => {
                return Err(LoadError::Fetch(reason));
            },
        };
        let mut names: Vec<&str> = Vec::new();
        names.push("apiKey");
        names.push("sessionId");
        names.push("token");
        let members = read_members(payload.as_str(), &names);
        assert(name_texts(names@) =~= info_names());
        self.load_members(members)
    }

    /// Takes over the members of the answer of a room: the key, the session and the token, as far
    /// as the answer has them.
    pub fn load_members(&mut self, members: Result<Vec<Option<String>>, String>) -> (result: Result<
        (),
        LoadError,
    >)
        requires
            members matches Ok(members) ==> members@.len() == 3,
        ensures
            members_result(old(self)@, members_view(members), result, final(self)@),
            result is Ok ==> final(self)@.can_join(),
            old(self)@.can_join() ==> final(self)@.can_join(),
    {
        let members = match members {
            Ok(members) => members,
            Err(reason) => {
                return Err(LoadError::Json(reason));
            },
        };
        let ghost read = opt_texts(members@);
        assert(read[0] == opt_text(members@[0]));
        assert(read[1] == opt_text(members@[1]));
        assert(read[2] == opt_text(members@[2]));
        match &members[0] {
            Some(api_key) => {
                self.api_key = Some(api_key.clone());
            },
            None => {
                return Err(LoadError::NoApiKey);
            },
        }
        match &members[1] {
            Some(session_id) => {
                self.session_id = Some(session_id.clone());
            },
            None => {
                return Err(LoadError::NoSessionId);
            },
        }
        match &members[2] {
            Some(token) => {
                self.token = Some(token.clone());
            },
            None => {
                return Err(LoadError::NoToken);
            },
        }
        Ok(())
    }
}

impl Clone for Credentials {
    /// A copy of the credentials.
    fn clone(&self) -> (copy: Credentials)
        ensures
            copy@ == self@,
    {
        Credentials {
            api_key: copy_opt(&self.api_key),
            session_id: copy_opt(&self.session_id),
            token: copy_opt(&self.token),
            stream_id: copy_opt(&self.stream_id),
            room_uri: match &self.room_uri {
                Some(url) => Some(url.clone()),
                None => None,
            },
        }
    }
}

} // verus!
