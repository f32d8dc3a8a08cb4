//! Urls in plain values, and the locations under which an OpenTok session is known.

use crate::common::url_counts::can_count;
use crate::common::url_counts::counts_overflow;
use crate::common::url_counts::has_scheme;
use crate::common::url_counts::is_dropped;
use crate::common::url_counts::is_letter;
use crate::common::url_counts::is_read;
use crate::common::url_counts::is_scheme_char;
use crate::common::url_counts::lemma_read_whole;
use crate::common::url_counts::lemma_scheme_lengths;
use crate::common::url_counts::long_host_from;
use crate::common::url_counts::overflows;
use crate::text::copy_list;
use crate::text::copy_opt;
use crate::text::opt_text;
use crate::text::texts;
use vstd::prelude::*;

verus! {

/// A parsed url, as the plain values that this crate reads of it.
#[derive(Debug)]
pub struct Url {
    /// The url in its normal form.
    pub text: String,
    /// The host, if the url has one.
    pub host: Option<String>,
    /// The segments of the path, if the path starts with a slash.
    pub path_segments: Option<Vec<String>>,
    /// The name and value pairs of the query, decoded, in their order.
    pub query_pairs: Vec<(String, String)>,
}

/// What a [`Url`] holds.
#[verifier::ext_equal]
pub struct UrlView {
    pub text: Seq<char>,
    pub host: Option<Seq<char>>,
    pub path_segments: Option<Seq<Seq<char>>>,
    pub query_pairs: Seq<(Seq<char>, Seq<char>)>,
}

/// The characters of the name and value pairs of a query.
pub open spec fn pairs_text(pairs: Seq<(String, String)>) -> Seq<(Seq<char>, Seq<char>)> {
    pairs.map_values(|pair: (String, String)| (pair.0@, pair.1@))
}

/// The characters of the segments of a path.
pub open spec fn segments_text(segments: Option<Vec<String>>) -> Option<Seq<Seq<char>>> {
    match segments {
        Some(segments) => Some(texts(segments@)),
        None => None,
    }
}

impl View for Url {
    type V = UrlView;

    open spec fn view(&self) -> UrlView {
        UrlView {
            text: self.text@,
            host: opt_text(self.host),
            path_segments: segments_text(self.path_segments),
            query_pairs: pairs_text(self.query_pairs@),
        }
    }
}

/// The view of a parsed url, or the characters of the reason for which there is none.
pub open spec fn parsed_view(result: Result<Url, String>) -> Result<UrlView, Seq<char>> {
    match result {
        Ok(url) => Ok(url@),
        Err(reason) => Err(reason@),
    }
}

/// The protocol in front of a location: the elements of this process, or those that hand the
/// work to a helper process.
#[derive(Clone, Copy, Debug, PartialEq, Eq, Structural)]
pub enum Protocol {
    OpenTok,
    OpenTokRemote,
}

impl Protocol {
    /// The start of a location of this protocol.
    pub open spec fn prefix_text(self) -> Seq<char> {
        match self {
            Protocol::OpenTok => "opentok://"@,
            Protocol::OpenTokRemote => "opentok-remote://"@,
        }
    }

    /// The start of a location of this protocol.
    pub(crate) fn prefix(self) -> (text: &'static str)
        ensures
            text@ == self.prefix_text(),
    {
        match self {
            Protocol::OpenTok => "opentok://",
            Protocol::OpenTokRemote => "opentok-remote://",
        }
    }
}

/// The location of a session, and of one of its streams where `stream_id` names one:
/// `opentok://<session id>/<stream id>?key=<key>&token=<token>`.
pub open spec fn location_text(
    protocol: Protocol,
    session_id: Seq<char>,
    stream_id: Option<Seq<char>>,
    api_key: Seq<char>,
    token: Seq<char>,
) -> Seq<char> {
    location_head(protocol, session_id, stream_id) + "?key="@ + api_key + "&token="@ + token
}

/// The part of a location in front of the key and the token.
pub open spec fn location_head(
    protocol: Protocol,
    session_id: Seq<char>,
    stream_id: Option<Seq<char>>,
) -> Seq<char> {
    match stream_id {
        Some(stream_id) => protocol.prefix_text() + session_id + "/"@ + stream_id,
        None => protocol.prefix_text() + session_id,
    }
}

/// The location of a session, and of one of its streams where `stream_id` names one.
pub fn location(
    protocol: Protocol,
    session_id: &str,
    stream_id: Option<&str>,
    api_key: &str,
    token: &str,
) -> (text: String)
    ensures
        text@ == location_text(
            protocol,
            session_id@,
            match stream_id {
                Some(stream_id) => Some(stream_id@),
                None => None,
            },
            api_key@,
            token@,
        ),
{
    let mut text = protocol.prefix().to_owned();
    text.append(session_id);
    if let Some(stream_id) = stream_id {
        text.append("/");
        text.append(stream_id);
    }
    text.append("?key=");
    text.append(api_key);
    text.append("&token=");
    text.append(token);
    text
}

/// A character that stands for itself where the session is: a visible one of ASCII that neither
/// ends the session nor is forbidden there.
pub open spec fn is_host_char(c: char) -> bool {
    &&& '!' <= c <= '~'
    &&& c != '#' && c != '/' && c != ':' && c != '<' && c != '>' && c != '?' && c != '@'
    &&& c != '[' && c != '\\' && c != ']' && c != '^' && c != '|'
}

/// A character that stands for itself where the stream is: a visible one of ASCII that neither
/// ends the stream nor is escaped there.
pub open spec fn is_segment_char(c: char) -> bool {
    &&& '!' <= c <= '~'
    &&& c != '"' && c != '#' && c != '/' && c != '<' && c != '>' && c != '?'
    &&& c != '`' && c != '{' && c != '}'
}

/// A character that comes back where the key and the token are: one that neither ends a value, nor
/// stands for another character, nor is dropped.
pub open spec fn is_query_char(c: char) -> bool {
    c != '#' && c != '&' && c != '+' && c != '\t' && c != '\n' && c != '\r'
}

/// A digit of a number to the base sixteen.
pub open spec fn is_escape_digit(c: char) -> bool {
    '0' <= c <= '9' || 'a' <= c <= 'f' || 'A' <= c <= 'F'
}

/// A percent sign in the text stands for another character, together with the two digits behind
/// it.
pub open spec fn has_escape(text: Seq<char>) -> bool {
    exists|i: int|
        0 <= i < text.len() - 2 && #[trigger] text[i] == '%' && is_escape_digit(text[i + 1])
            && is_escape_digit(text[i + 2])
}

/// The text is a dot, or stands for one.
pub open spec fn is_dot(text: Seq<char>) -> bool {
    text == seq!['.'] || text == seq!['%', '2', 'e'] || text == seq!['%', '2', 'E']
}

/// The text is one of the segments that a path drops: one dot or two.
pub open spec fn is_dot_segment(text: Seq<char>) -> bool {
    is_dot(text) || exists|k: int|
        0 < k < text.len() && is_dot(#[trigger] text.take(k)) && is_dot(text.skip(k))
}

/// The parts hold no character that has another meaning at their place in a location.
pub open spec fn plain_parts(
    session_id: Seq<char>,
    stream_id: Option<Seq<char>>,
    api_key: Seq<char>,
    token: Seq<char>,
) -> bool {
    &&& forall|i: int| 0 <= i < session_id.len() ==> is_host_char(#[trigger] session_id[i])
    &&& stream_id matches Some(stream_id) ==> {
        &&& forall|i: int| 0 <= i < stream_id.len() ==> is_segment_char(#[trigger] stream_id[i])
        &&& !is_dot_segment(stream_id)
    }
    &&& forall|i: int| 0 <= i < api_key.len() ==> is_query_char(#[trigger] api_key[i])
    &&& forall|i: int| 0 <= i < token.len() ==> is_query_char(#[trigger] token[i])
    &&& !has_escape(api_key)
    &&& !has_escape(token)
    &&& token.len() > 0 ==> token.last() > ' '
}

/// A url can count what is in front of the key and the token: the session in thirty-one bits, and
/// all of it in thirty-two.
pub open spec fn fits_url(
    protocol: Protocol,
    session_id: Seq<char>,
    stream_id: Option<Seq<char>>,
) -> bool {
    &&& session_id.len() < 0x8000_0000
    &&& location_head(protocol, session_id, stream_id).len() <= u32::MAX
}

/// The parts come back out of the location as they went into it.
pub open spec fn plain_location(
    protocol: Protocol,
    session_id: Seq<char>,
    stream_id: Option<Seq<char>>,
    api_key: Seq<char>,
    token: Seq<char>,
) -> bool {
    &&& plain_parts(session_id, stream_id, api_key, token)
    &&& fits_url(protocol, session_id, stream_id)
}

/// The url holds the parts of a location.
pub open spec fn holds_location(
    url: UrlView,
    session_id: Seq<char>,
    stream_id: Option<Seq<char>>,
    api_key: Seq<char>,
    token: Seq<char>,
) -> bool {
    &&& url.host == if session_id.len() == 0 {
        None
    } else {
        Some(session_id)
    }
    &&& url.path_segments == match stream_id {
        Some(stream_id) => Some(seq![stream_id]),
        None => None,
    }
    &&& url.query_pairs == seq![("key"@, api_key), ("token"@, token)]
}

/// If `input` is a location whose parts hold no character with another meaning, then `result` holds
/// those parts, or says that a url cannot count them.
pub open spec fn reads_location(
    input: Seq<char>,
    result: Result<UrlView, Seq<char>>,
) -> bool {
    forall|
        protocol: Protocol,
        session_id: Seq<char>,
        stream_id: Option<Seq<char>>,
        api_key: Seq<char>,
        token: Seq<char>,
    |
        plain_parts(session_id, stream_id, api_key, token) && input == #[trigger] location_text(
            protocol,
            session_id,
            stream_id,
            api_key,
            token,
        ) ==> if fits_url(protocol, session_id, stream_id) {
            &&& result matches Ok(url)
            &&& holds_location(url, session_id, stream_id, api_key, token)
        } else {
            result == Err::<UrlView, Seq<char>>("Overflow"@)
        }
}

/// What `url::Url::parse` makes of a text: the url in its plain values, or the name of the error.
pub uninterp spec fn url_parse(input: Seq<char>) -> Result<UrlView, Seq<char>>;

/// Parses `input` with `url::Url::parse` and reads off the parsed url its normal form
/// (`as_str`), its host (`host`, in its own notation), the segments of its path
/// (`path_segments`) and the decoded pairs of its query (`url::form_urlencoded::parse` of what
/// `url::Position` marks as the query). A text that is no url gives the name of the
/// `url::ParseError`.
///
/// Trusted of `url`: the result depends on the text alone, and a location of which no part holds a
/// character with another meaning at its place comes back in exactly those parts, or is refused
/// with `url::ParseError::Overflow` where its query starts beyond thirty-two bits. Of other texts
/// nothing more is stated. A text on which one of the counts of `url` overflows is left out.
#[verifier::external_body]
pub(crate) fn parse_url(input: &str) -> (result: Result<Url, String>)
    requires
        can_count(input@),
    ensures
        parsed_view(result) == url_parse(input@),
        reads_location(input@, parsed_view(result)),
{
    match ::url::Url::parse(input) {
        Ok(url) => {
            let query = &url[::url::Position::BeforeQuery..::url::Position::AfterQuery];
            Ok(Url {
                text: url.as_str().to_owned(),
                host: url.host().map(|host| host.to_string()),
                path_segments: url.path_segments().map(|list| list.map(String::from).collect()),
                query_pairs: ::url::form_urlencoded::parse(query.as_bytes()).into_owned().collect(),
            })
        },
        Err(error) => Err(format!("{:?}", error)),
    }
}

/// What a text is parsed to: the url in its plain values, or the name of the reason for which it is
/// none.
pub open spec fn url_of(text: Seq<char>) -> Result<UrlView, Seq<char>> {
    if can_count(text) {
        url_parse(text)
    } else {
        Err("Overflow"@)
    }
}

/// A copy of a list of pairs.
fn copy_pairs(pairs: &Vec<(String, String)>) -> (copy: Vec<(String, String)>)
    ensures
        pairs_text(copy@) == pairs_text(pairs@),
{
    let mut copy: Vec<(String, String)> = Vec::new();
    let mut i: usize = 0;
    while i < pairs.len()
        invariant
            i <= pairs@.len(),
            copy@.len() == i,
            forall|k: int|
                0 <= k < i ==> (#[trigger] copy@[k]).0@ == pairs@[k].0@ && copy@[k].1@
                    == pairs@[k].1@,
        decreases pairs@.len() - i,
    {
        copy.push((pairs[i].0.clone(), pairs[i].1.clone()));
        i += 1;
    }
    assert(pairs_text(copy@) =~= pairs_text(pairs@));
    copy
}

impl Url {
    /// Parses a text as a url. The error holds the name of the reason.
    pub fn parse(input: &str) -> (result: Result<Url, String>)
        ensures
            parsed_view(result) == url_of(input@),
            reads_location(input@, parsed_view(result)),
    {
        if overflows(input) {
            proof {
                assert forall|
                    protocol: Protocol,
                    session_id: Seq<char>,
                    stream_id: Option<Seq<char>>,
                    api_key: Seq<char>,
                    token: Seq<char>,
                |
                    plain_parts(session_id, stream_id, api_key, token) && input@
                        == #[trigger] location_text(
                        protocol,
                        session_id,
                        stream_id,
                        api_key,
                        token,
                    ) implies !fits_url(protocol, session_id, stream_id) by {
                    lemma_location_counts(protocol, session_id, stream_id, api_key, token);
                }
            }
            return Err("Overflow".to_owned());
        }
        parse_url(input)
    }
}

impl Clone for Url {
    /// A copy of the url.
    fn clone(&self) -> (copy: Url)
        ensures
            copy@ == self@,
    {
        Url {
            text: self.text.clone(),
            host: copy_opt(&self.host),
            path_segments: match &self.path_segments {
                Some(segments) => Some(copy_list(segments)),
                None => None,
            },
            query_pairs: copy_pairs(&self.query_pairs),
        }
    }
}

/// The text holds neither of two characters.
spec fn lacks(text: Seq<char>, c: char, d: char) -> bool {
    forall|i: int| 0 <= i < text.len() ==> #[trigger] text[i] != c && text[i] != d
}

/// A text is cut at the first of two characters in only one way.
proof fn lemma_cut(a: Seq<char>, c: char, x: Seq<char>, b: Seq<char>, d: char, y: Seq<char>)
    requires
        lacks(a, c, d),
        lacks(b, c, d),
        a + seq![c] + x == b + seq![d] + y,
    ensures
        a == b,
        c == d,
        x == y,
{
    let left = a + seq![c] + x;
    let right = b + seq![d] + y;
    if a.len() < b.len() {
        assert(left[a.len() as int] == c);
        assert(right[a.len() as int] == b[a.len() as int]);
        assert(false);
    }
    if b.len() < a.len() {
        assert(right[b.len() as int] == d);
        assert(left[b.len() as int] == a[b.len() as int]);
        assert(false);
    }
    assert(left[a.len() as int] == c && right[a.len() as int] == d);
    assert(a =~= left.take(a.len() as int));
    assert(b =~= right.take(a.len() as int));
    assert(x =~= left.skip(a.len() as int + 1));
    assert(y =~= right.skip(a.len() as int + 1));
}

/// The name in front of the colon of a location.
spec fn scheme(protocol: Protocol) -> Seq<char> {
    match protocol {
        Protocol::OpenTok => "opentok"@,
        Protocol::OpenTokRemote => "opentok-remote"@,
    }
}

/// What follows the question mark of a location.
spec fn query(api_key: Seq<char>, token: Seq<char>) -> Seq<char> {
    ("key="@ + api_key) + seq!['&'] + ("token="@ + token)
}

/// What follows the two slashes of a location.
spec fn address(
    session_id: Seq<char>,
    stream_id: Option<Seq<char>>,
    api_key: Seq<char>,
    token: Seq<char>,
) -> Seq<char> {
    match stream_id {
        Some(stream_id) => session_id + seq!['/'] + (stream_id + seq!['?'] + query(
            api_key,
            token,
        )),
        None => session_id + seq!['?'] + query(api_key, token),
    }
}

proof fn lemma_location_shape(
    protocol: Protocol,
    session_id: Seq<char>,
    stream_id: Option<Seq<char>>,
    api_key: Seq<char>,
    token: Seq<char>,
)
    ensures
        location_text(protocol, session_id, stream_id, api_key, token) == scheme(protocol) + seq![
            ':',
        ] + (seq!['/', '/'] + address(session_id, stream_id, api_key, token)),
        lacks(scheme(protocol), ':', ':'),
        lacks("key="@, '&', '&'),
{
    reveal_strlit("opentok://");
    reveal_strlit("opentok-remote://");
    reveal_strlit("opentok");
    reveal_strlit("opentok-remote");
    reveal_strlit("/");
    reveal_strlit("?key=");
    reveal_strlit("&token=");
    reveal_strlit("key=");
    reveal_strlit("token=");
    assert(protocol.prefix_text() =~= scheme(protocol) + seq![':', '/', '/']);
    assert("?key="@ =~= seq!['?'] + "key="@);
    assert("&token="@ =~= seq!['&'] + "token="@);
    assert("/"@ =~= seq!['/']);
    assert(location_text(protocol, session_id, stream_id, api_key, token) =~= scheme(protocol)
        + seq![':'] + (seq!['/', '/'] + address(session_id, stream_id, api_key, token)));
}

/// The name in front of the colon of a location is a scheme, and none that is told apart.
proof fn lemma_scheme(protocol: Protocol)
    ensures
        scheme(protocol).len() > 5,
        is_letter(scheme(protocol)[0]),
        forall|i: int|
            0 <= i < scheme(protocol).len() ==> is_scheme_char(#[trigger] scheme(protocol)[i]),
{
    reveal_strlit("opentok");
    reveal_strlit("opentok-remote");
}

/// A url reads every character of a location whose parts hold none with another meaning.
proof fn lemma_location_read(
    protocol: Protocol,
    session_id: Seq<char>,
    stream_id: Option<Seq<char>>,
    api_key: Seq<char>,
    token: Seq<char>,
)
    requires
        plain_parts(session_id, stream_id, api_key, token),
    ensures
        is_read(location_text(protocol, session_id, stream_id, api_key, token)),
{
    reveal_strlit("opentok://");
    reveal_strlit("opentok-remote://");
    reveal_strlit("/");
    reveal_strlit("?key=");
    reveal_strlit("&token=");
    let prefix = protocol.prefix_text();
    let head = location_head(protocol, session_id, stream_id);
    assert forall|i: int| 0 <= i < head.len() implies !is_dropped(#[trigger] head[i]) by {
        if i < prefix.len() {
            assert(head[i] == prefix[i]);
        } else if i < prefix.len() + session_id.len() {
            assert(head[i] == session_id[i - prefix.len()]);
        } else if i > prefix.len() + session_id.len() {
            assert(head[i] == stream_id->0[i - prefix.len() - session_id.len() - 1]);
        }
    }
    let text = location_text(protocol, session_id, stream_id, api_key, token);
    let key_at = head.len() + 5;
    let token_at = key_at + api_key.len() + 7;
    assert forall|i: int| 0 <= i < text.len() implies !is_dropped(#[trigger] text[i]) by {
        if i < head.len() {
            assert(text[i] == head[i]);
        } else if i < key_at {
            assert(text[i] == "?key="@[i - head.len()]);
        } else if i < key_at + api_key.len() {
            assert(text[i] == api_key[i - key_at]);
        } else if i < token_at {
            assert(text[i] == "&token="@[i - key_at - api_key.len()]);
        } else {
            assert(text[i] == token[i - token_at]);
        }
    }
    assert(text[0] == prefix[0]);
    if token.len() > 0 {
        assert(text[text.len() - 1] == token[token.len() - 1]);
    } else {
        assert(text[text.len() - 1] == "&token="@[6]);
    }
}

/// A location whose parts come back out of it determines those parts.
pub proof fn lemma_location_determines_parts(
    protocol: Protocol,
    session_id: Seq<char>,
    stream_id: Option<Seq<char>>,
    api_key: Seq<char>,
    token: Seq<char>,
    protocol2: Protocol,
    session_id2: Seq<char>,
    stream_id2: Option<Seq<char>>,
    api_key2: Seq<char>,
    token2: Seq<char>,
)
    requires
        plain_location(protocol, session_id, stream_id, api_key, token),
        plain_location(protocol2, session_id2, stream_id2, api_key2, token2),
        location_text(protocol, session_id, stream_id, api_key, token) == location_text(
            protocol2,
            session_id2,
            stream_id2,
            api_key2,
            token2,
        ),
    ensures
        protocol == protocol2,
        session_id == session_id2,
        stream_id == stream_id2,
        api_key == api_key2,
        token == token2,
{
    lemma_location_shape(protocol, session_id, stream_id, api_key, token);
    lemma_location_shape(protocol2, session_id2, stream_id2, api_key2, token2);
    let a = address(session_id, stream_id, api_key, token);
    let a2 = address(session_id2, stream_id2, api_key2, token2);
    lemma_cut(
        scheme(protocol),
        ':',
        seq!['/', '/'] + a,
        scheme(protocol2),
        ':',
        seq!['/', '/'] + a2,
    );
    assert(protocol == protocol2) by {
        reveal_strlit("opentok");
        reveal_strlit("opentok-remote");
        assert(scheme(protocol).len() == scheme(protocol2).len());
    }
    assert(a =~= (seq!['/', '/'] + a).skip(2));
    assert(a2 =~= (seq!['/', '/'] + a2).skip(2));
    let q = query(api_key, token);
    let q2 = query(api_key2, token2);
    let (c, rest) = match stream_id {
        Some(stream_id) => ('/', stream_id + seq!['?'] + q),
        None => ('?', q),
    };
    let (c2, rest2) = match stream_id2 {
        Some(stream_id2) => ('/', stream_id2 + seq!['?'] + q2),
        None => ('?', q2),
    };
    lemma_cut(session_id, c, rest, session_id2, c2, rest2);
    if stream_id is Some {
        lemma_cut(stream_id->0, '?', q, stream_id2->0, '?', q2);
    }
    lemma_cut(
        "key="@ + api_key,
        '&',
        "token="@ + token,
        "key="@ + api_key2,
        '&',
        "token="@ + token2,
    );
    assert(api_key =~= ("key="@ + api_key).skip("key="@.len() as int));
    assert(api_key2 =~= ("key="@ + api_key2).skip("key="@.len() as int));
    assert(token =~= ("token="@ + token).skip("token="@.len() as int));
    assert(token2 =~= ("token="@ + token2).skip("token="@.len() as int));
}

/// The numbers that the url at a location is counted in overflow with its session, and only with
/// it, if its parts hold no character with another meaning.
pub proof fn lemma_location_counts(
    protocol: Protocol,
    session_id: Seq<char>,
    stream_id: Option<Seq<char>>,
    api_key: Seq<char>,
    token: Seq<char>,
)
    requires
        plain_parts(session_id, stream_id, api_key, token),
    ensures
        can_count(location_text(protocol, session_id, stream_id, api_key, token))
            <==> session_id.len() < 0x8000_0000,
{
    let text = location_text(protocol, session_id, stream_id, api_key, token);
    let rest = address(session_id, stream_id, api_key, token);
    let n = scheme(protocol).len() as int;
    lemma_location_shape(protocol, session_id, stream_id, api_key, token);
    lemma_scheme(protocol);
    assert forall|i: int| 0 <= i < n implies #[trigger] text[i] == scheme(protocol)[i] by {}
    assert(text[n] == ':' && text[n + 1] == '/' && text[n + 2] == '/');
    assert forall|i: int| 0 <= i < rest.len() implies #[trigger] text[n + 3 + i] == rest[i] by {}
    assert forall|i: int| 0 <= i < session_id.len() implies #[trigger] rest[i]
        == session_id[i] by {}
    assert(rest[session_id.len() as int] == '/' || rest[session_id.len() as int] == '?');
    lemma_location_read(protocol, session_id, stream_id, api_key, token);
    lemma_read_whole(text);
    lemma_scheme_lengths();
    assert(has_scheme(text, n));
    assert forall|m: int| has_scheme(text, m) implies m == n by {
        if m < n {
            assert(is_scheme_char(text[m]));
        }
        if n < m {
            assert(is_scheme_char(text[n]));
        }
    }
    assert(counts_overflow(text, n) == long_host_from(text, n + 3, false));
    if session_id.len() >= 0x8000_0000 {
        assert forall|i: int| n + 3 <= i < n + 3 + 0x8000_0000 implies {
            let c = #[trigger] text[i];
            c != '/' && c != '?' && c != '#'
        } by {
            assert(text[i] == text[n + 3 + (i - n - 3)]);
            assert(text[i] == session_id[i - n - 3]);
        }
    } else {
        assert(text[n + 3 + session_id.len()] == rest[session_id.len() as int]);
    }
}

/// The text is made of letters and digits of ASCII, hyphens and underscores, and is not empty.
pub open spec fn is_simple(text: Seq<char>) -> bool {
    &&& text.len() > 0
    &&& forall|i: int|
        0 <= i < text.len() ==> {
            let c = #[trigger] text[i];
            ||| 'a' <= c <= 'z'
            ||| 'A' <= c <= 'Z'
            ||| '0' <= c <= '9'
            ||| c == '-'
            ||| c == '_'
        }
}

/// Letters, digits, hyphens and underscores have no other meaning anywhere in a location.
pub proof fn lemma_simple_parts_plain(
    session_id: Seq<char>,
    stream_id: Seq<char>,
    api_key: Seq<char>,
    token: Seq<char>,
)
    requires
        is_simple(session_id),
        is_simple(stream_id),
        is_simple(api_key),
        is_simple(token),
    ensures
        plain_parts(session_id, Some(stream_id), api_key, token),
        plain_parts(session_id, None, api_key, token),
{
    if is_dot(stream_id) {
        assert(stream_id[0] == '.' || stream_id[0] == '%');
    }
    assert forall|k: int| 0 < k < stream_id.len() implies !is_dot(#[trigger] stream_id.take(k)) by {
        assert(stream_id.take(k)[0] == stream_id[0]);
    }
    assert(token.last() == token[token.len() - 1]);
}

} // verus!
