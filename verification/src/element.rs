//! What the elements have in common: their locations, properties and states.

use crate::common::credentials::CredentialsError;
use crate::common::credentials::CredentialsView;
use crate::common::format::Caps;
use crate::common::format::CapsView;
use crate::common::Credentials;
use crate::text::join2;
use crate::text::opt_text;
use vstd::prelude::*;

verus! {

/// The reason for which an element did not accept a location.
#[derive(Debug)]
pub enum LocationError {
    /// The location is no url. Holds the name of the reason.
    Malformed(String),
    /// The stream of the element was chosen before.
    StreamIdSet,
    /// The element was told of a room before.
    CredentialsSet,
}

impl LocationError {
    /// The message that a user reads. `credentials` describes those that the element has.
    pub open spec fn text(self, credentials: Seq<char>) -> Seq<char> {
        match self {
            LocationError::Malformed(reason) => "Malformed url "@ + reason@,
            LocationError::StreamIdSet => "Stream ID can only be set once"@,
            LocationError::CredentialsSet => "Credential already set "@ + credentials,
        }
    }

    /// The message that a user reads. `credentials` describes those that the element has.
    pub fn message(&self, credentials: &str) -> (message: String)
        ensures
            message@ == self.text(credentials@),
    {
        match self {
            LocationError::Malformed(reason) => join2("Malformed url ", reason.as_str()),
            LocationError::StreamIdSet => "Stream ID can only be set once".to_owned(),
            LocationError::CredentialsSet => join2("Credential already set ", credentials),
        }
    }
}

/// A location names a stream: one that is not empty.
pub open spec fn names_stream(stream_id: Option<Seq<char>>) -> bool {
    stream_id is Some && stream_id->0.len() > 0
}

/// The location that an element gives of itself: the session, without the values that open it.
pub open spec fn public_location(credentials: CredentialsView) -> Option<Seq<char>> {
    match credentials.session_id {
        Some(session_id) => Some("opentok://"@ + session_id),
        None => None,
    }
}

/// The location that an element gives of itself.
pub(crate) fn location_of(credentials: &Credentials) -> (location: Option<String>)
    ensures
        opt_text(location) == public_location(credentials@),
{
    match credentials.session_id() {
        Some(session_id) => Some(join2("opentok://", session_id.as_str())),
        None => None,
    }
}

/// The values with which a session is joined.
#[derive(Debug)]
pub struct SessionKeys {
    pub api_key: String,
    pub session_id: String,
    pub token: String,
}

/// What [`SessionKeys`] hold.
#[verifier::ext_equal]
pub struct SessionKeysView {
    pub api_key: Seq<char>,
    pub session_id: Seq<char>,
    pub token: Seq<char>,
}

impl View for SessionKeys {
    type V = SessionKeysView;

    open spec fn view(&self) -> SessionKeysView {
        SessionKeysView {
            api_key: self.api_key@,
            session_id: self.session_id@,
            token: self.token@,
        }
    }
}

/// The view of values with which a session is joined, if there are any.
pub open spec fn opt_keys(keys: Option<SessionKeys>) -> Option<SessionKeysView> {
    match keys {
        Some(keys) => Some(keys@),
        None => None,
    }
}

/// The values with which the session of these credentials is joined, if all of them are known.
pub open spec fn session_keys(credentials: CredentialsView) -> Option<SessionKeysView> {
    if credentials.can_join() {
        Some(
            SessionKeysView {
                api_key: credentials.api_key->0,
                session_id: credentials.session_id->0,
                token: credentials.token->0,
            },
        )
    } else {
        None
    }
}

/// The values with which the session of these credentials is joined, if all of them are known.
pub(crate) fn keys_of(credentials: &Credentials) -> (keys: Option<SessionKeys>)
    ensures
        opt_keys(keys) == session_keys(credentials@),
{
    if let Some(api_key) = credentials.api_key() {
        if let Some(session_id) = credentials.session_id() {
            if let Some(token) = credentials.token() {
                return Some(
                    SessionKeys {
                        api_key: api_key.clone(),
                        session_id: session_id.clone(),
                        token: token.clone(),
                    },
                );
            }
        }
    }
    None
}

/// The value of a property of an element.
#[derive(Debug)]
pub enum PropertyValue {
    Text(Option<String>),
    Flag(bool),
}

/// What a [`PropertyValue`] holds.
#[verifier::ext_equal]
pub enum PropertyView {
    Text(Option<Seq<char>>),
    Flag(bool),
}

impl View for PropertyValue {
    type V = PropertyView;

    open spec fn view(&self) -> PropertyView {
        match self {
            PropertyValue::Text(text) => PropertyView::Text(opt_text(*text)),
            PropertyValue::Flag(flag) => PropertyView::Flag(*flag),
        }
    }
}

/// The reason for which a property was not set.
#[derive(Debug)]
pub enum PropertyError {
    Location(LocationError),
    Credentials(CredentialsError),
}

/// The kind of value that a property has.
#[derive(Clone, Copy, Debug, PartialEq, Eq, Structural)]
pub enum PropertyKind {
    Text,
    /// Yes or no, and the value that holds unless another is set.
    Flag(bool),
}

/// A property that an element declares.
#[derive(Clone, Copy, Debug)]
pub struct PropertySpec {
    pub name: &'static str,
    pub blurb: Option<&'static str>,
    pub kind: PropertyKind,
    pub writable: bool,
}

/// An element declares a property of this name.
pub open spec fn declares(properties: Seq<PropertySpec>, name: Seq<char>) -> bool {
    exists|i: int| 0 <= i < properties.len() && #[trigger] properties[i].name@ == name
}

/// An element declares a property of this name that can be set.
pub open spec fn declares_writable(properties: Seq<PropertySpec>, name: Seq<char>) -> bool {
    exists|i: int|
        0 <= i < properties.len() && #[trigger] properties[i].name@ == name
            && properties[i].writable
}

/// What an element says of itself.
#[derive(Clone, Copy, Debug)]
pub struct Metadata {
    pub long_name: &'static str,
    pub classification: &'static str,
    pub description: &'static str,
    pub author: &'static str,
}

/// How a pad of a template comes to be.
#[derive(Clone, Copy, Debug, PartialEq, Eq, Structural)]
pub enum Presence {
    /// While there is a stream.
    Sometimes,
    /// When somebody asks for it.
    Request,
}

/// Whether a pad takes or gives media.
#[derive(Clone, Copy, Debug, PartialEq, Eq, Structural)]
pub enum PadDirection {
    Src,
    Sink,
}

/// The template of the pads of an element.
#[derive(Debug)]
pub struct PadTemplate {
    pub name: &'static str,
    pub direction: PadDirection,
    pub presence: Presence,
    pub caps: Caps,
}

/// What a [`PadTemplate`] holds.
#[verifier::ext_equal]
pub struct PadTemplateView {
    pub name: Seq<char>,
    pub direction: PadDirection,
    pub presence: Presence,
    pub caps: CapsView,
}

impl View for PadTemplate {
    type V = PadTemplateView;

    open spec fn view(&self) -> PadTemplateView {
        PadTemplateView {
            name: self.name@,
            direction: self.direction,
            presence: self.presence,
            caps: self.caps@,
        }
    }
}

/// A change of the state of an element.
#[derive(Clone, Copy, Debug, PartialEq, Eq, Structural)]
pub enum StateChange {
    NullToReady,
    ReadyToPaused,
    PausedToPlaying,
    PlayingToPaused,
    PausedToReady,
    ReadyToNull,
    /// From a state to the same state.
    Same,
}

} // verus!
