use gstopentok::common::credentials::parse_location;
use gstopentok::common::credentials::CredentialsError;
use gstopentok::common::credentials::Field;
use gstopentok::common::credentials::LoadError;
use gstopentok::common::json::find_long_fraction;
use gstopentok::common::url::location;
use gstopentok::common::url::Protocol;
use gstopentok::common::url::Url;
use gstopentok::common::Credentials;

const ROOM: &str = "https://opentokdemo.tokbox.com/room/rust345";

fn text(value: Option<&String>) -> Option<&str> {
    value.map(|text| text.as_str())
}

fn joined() -> Credentials {
    let mut credentials = Credentials::default();
    credentials.set_api_key("key".to_string()).unwrap();
    credentials.set_session_id("session".to_string()).unwrap();
    credentials.set_token("token".to_string()).unwrap();
    credentials
}

fn room() -> Credentials {
    let mut credentials = Credentials::default();
    credentials.set_room_uri(ROOM.to_string()).unwrap();
    credentials
}

#[test]
fn default_credentials_are_empty() {
    let credentials = Credentials::default();
    assert_eq!(credentials.api_key(), None);
    assert_eq!(credentials.session_id(), None);
    assert_eq!(credentials.token(), None);
    assert_eq!(credentials.stream_id(), None);
    assert!(credentials.room_uri().is_none());
    assert!(!credentials.is_complete());
    assert_eq!(credentials.info_url(), None);
}

#[test]
fn location_gives_back_its_parts() {
    let made = location(
        Protocol::OpenTok,
        "1_MX40~fg",
        Some("A1ECEBE9-5996-42F1"),
        "47346961",
        "T1==cGFydG5lcg==",
    );
    assert_eq!(
        made,
        "opentok://1_MX40~fg/A1ECEBE9-5996-42F1?key=47346961&token=T1==cGFydG5lcg=="
    );
    let credentials = parse_location(&made).unwrap();
    assert_eq!(text(credentials.session_id()), Some("1_MX40~fg"));
    assert_eq!(text(credentials.stream_id()), Some("A1ECEBE9-5996-42F1"));
    assert_eq!(text(credentials.api_key()), Some("47346961"));
    assert_eq!(text(credentials.token()), Some("T1==cGFydG5lcg=="));
    assert!(credentials.room_uri().is_none());
    assert!(credentials.is_complete());
}

#[test]
fn remote_location_without_stream_gives_back_its_parts() {
    let made = location(Protocol::OpenTokRemote, "Session", None, "1", "2");
    assert_eq!(made, "opentok-remote://Session?key=1&token=2");
    let credentials = parse_location(&made).unwrap();
    assert_eq!(text(credentials.session_id()), Some("Session"));
    assert_eq!(credentials.stream_id(), None);
    assert_eq!(text(credentials.api_key()), Some("1"));
    assert_eq!(text(credentials.token()), Some("2"));
}

#[test]
fn unusual_locations_give_back_their_parts() {
    let sessions = vec!["", "s", "!\"$%&'()*+,-.;=_`{}~", "a%41b", "..", "1.2.3.4"];
    let streams = vec![
        None,
        Some(""),
        Some("x"),
        Some("..."),
        Some("!$%&'()*+,-.:;=@[\\]^_|~"),
        Some("%2e%2f"),
        Some("a%2e"),
    ];
    let values = vec![
        "",
        "=",
        "a/b?c:d@e",
        "a b",
        "%",
        "%4",
        "100%",
        "%zz%",
        "\u{e9}\u{1f600}%\u{e9}",
        "\"<>[\\]^`{|}\u{7f}",
        "a\u{1}\u{b}b",
    ];
    for protocol in vec![Protocol::OpenTok, Protocol::OpenTokRemote] {
        for session in &sessions {
            for stream in &streams {
                for key in &values {
                    for token in &values {
                        let made = location(protocol, session, *stream, key, token);
                        let credentials = parse_location(&made).unwrap();
                        assert_eq!(text(credentials.session_id()), Some(*session));
                        assert_eq!(text(credentials.stream_id()), *stream);
                        assert_eq!(text(credentials.api_key()), Some(*key));
                        assert_eq!(text(credentials.token()), Some(*token));
                    }
                }
            }
        }
    }
}

#[test]
fn characters_with_another_meaning_do_not_come_back() {
    let parts = |made: &str| parse_location(made).unwrap();
    assert_eq!(text(parts("opentok://s?key=a+b&token=t").api_key()), Some("a b"));
    assert_eq!(text(parts("opentok://s?key=%41&token=t").api_key()), Some("A"));
    assert_eq!(text(parts("opentok://s?key=k&token=t ").token()), Some("t"));
    assert_eq!(text(parts("opentok://s?key=k&token=a#b").token()), Some("a"));
    assert_eq!(text(parts("opentok://s/..?key=k&token=t").stream_id()), Some(""));
    assert_eq!(text(parts("opentok://s/%2e.?key=k&token=t").stream_id()), Some(""));
    assert_eq!(text(parts("opentok://s/a`b?key=k&token=t").stream_id()), Some("a%60b"));
    assert!(parse_location("opentok://a b?key=k&token=t").is_err());
}

#[test]
fn missing_parts_are_empty() {
    let credentials = parse_location("opentok://abc").unwrap();
    assert_eq!(text(credentials.session_id()), Some("abc"));
    assert_eq!(text(credentials.api_key()), Some(""));
    assert_eq!(text(credentials.token()), Some(""));
    assert_eq!(credentials.stream_id(), None);
    assert!(credentials.is_complete());
    let credentials = parse_location("mailto:somebody").unwrap();
    assert_eq!(text(credentials.session_id()), Some(""));
    assert_eq!(credentials.stream_id(), None);
}

#[test]
fn only_a_single_segment_is_a_stream() {
    assert_eq!(
        parse_location("opentok://abc/one/two?key=k&token=t").unwrap().stream_id(),
        None
    );
    assert_eq!(
        text(parse_location("opentok://abc/?key=k&token=t").unwrap().stream_id()),
        Some("")
    );
}

#[test]
fn last_pair_of_a_query_counts() {
    let credentials = parse_location("opentok://abc?key=a&token=t&key=b").unwrap();
    assert_eq!(text(credentials.api_key()), Some("b"));
}

#[test]
fn query_is_decoded() {
    let credentials = parse_location("opentok://abc?key=a%20b&token=c+d").unwrap();
    assert_eq!(text(credentials.api_key()), Some("a b"));
    assert_eq!(text(credentials.token()), Some("c d"));
}

#[test]
fn malformed_location_is_refused() {
    assert_eq!(
        parse_location("no url").unwrap_err(),
        "RelativeUrlWithoutBase"
    );
}

#[test]
fn url_is_read_in_its_normal_form() {
    let url = Url::parse("HTTPS://Example.COM/a/../b?x=1").unwrap();
    assert_eq!(url.text, "https://example.com/b?x=1");
    assert_eq!(url.host.as_deref(), Some("example.com"));
    assert_eq!(url.path_segments, Some(vec!["b".to_string()]));
    assert_eq!(url.query_pairs, vec![("x".to_string(), "1".to_string())]);
    let copy = url.clone();
    assert_eq!(copy.text, url.text);
    assert_eq!(copy.query_pairs, url.query_pairs);
}

#[test]
fn fields_are_set() {
    let mut credentials = joined();
    assert_eq!(text(credentials.api_key()), Some("key"));
    assert_eq!(text(credentials.session_id()), Some("session"));
    assert_eq!(text(credentials.token()), Some("token"));
    assert!(credentials.is_complete());
    credentials.set_stream_id("stream".to_string()).unwrap();
    assert_eq!(text(credentials.stream_id()), Some("stream"));
    assert_eq!(text(credentials.api_key()), Some("key"));
    let copy = credentials.clone();
    assert_eq!(copy.api_key(), credentials.api_key());
    assert_eq!(copy.stream_id(), credentials.stream_id());
}

#[test]
fn incomplete_without_one_of_the_three() {
    let mut credentials = Credentials::default();
    credentials.set_api_key("key".to_string()).unwrap();
    assert!(!credentials.is_complete());
    credentials.set_token("token".to_string()).unwrap();
    assert!(!credentials.is_complete());
    credentials.set_session_id("session".to_string()).unwrap();
    assert!(credentials.is_complete());
}

#[test]
fn room_conflicts_with_fields() {
    let mut credentials = room();
    assert!(credentials.is_complete());
    let error = credentials.set_api_key("k".to_string()).unwrap_err();
    assert!(matches!(error, CredentialsError::RoomUriSet(Field::ApiKey)));
    assert_eq!(error.message(), "Can't set api_key when room_uri is set");
    let error = credentials.set_session_id("s".to_string()).unwrap_err();
    assert_eq!(error.message(), "Can't set session_id when room_uri is set");
    let error = credentials.set_token("t".to_string()).unwrap_err();
    assert_eq!(error.message(), "Can't set token when room_uri is set");
    let error = credentials.set_stream_id("x".to_string()).unwrap_err();
    assert_eq!(error.message(), "Can't set stream_id when room_uri is set");
    assert_eq!(credentials.api_key(), None);
    assert_eq!(credentials.stream_id(), None);
}

#[test]
fn fields_conflict_with_room() {
    let mut credentials = Credentials::default();
    credentials.set_api_key("k".to_string()).unwrap();
    let error = credentials.set_room_uri(ROOM.to_string()).unwrap_err();
    assert!(matches!(error, CredentialsError::OtherFieldSet));
    assert_eq!(error.message(), "Can't set `room_uri` when any other field is set");
    assert!(credentials.room_uri().is_none());
    let mut credentials = Credentials::default();
    credentials.set_stream_id("x".to_string()).unwrap();
    assert!(credentials.set_room_uri(ROOM.to_string()).is_err());
}

#[test]
fn malformed_room_is_refused() {
    let mut credentials = Credentials::default();
    let error = credentials.set_room_uri("http://".to_string()).unwrap_err();
    assert_eq!(error.message(), "Malformed url EmptyHost");
    assert!(credentials.room_uri().is_none());
    let error = credentials
        .set_room_url(Err("SomeReason".to_string()))
        .unwrap_err();
    assert!(matches!(error, CredentialsError::MalformedUrl(reason) if reason == "SomeReason"));
}

#[test]
fn room_is_asked_under_info() {
    assert_eq!(
        room().info_url().unwrap(),
        "https://opentokdemo.tokbox.com/room/rust345/info"
    );
    assert_eq!(room().room_uri().unwrap().text, ROOM);
}

#[test]
fn loading_without_room_does_nothing() {
    let mut credentials = joined();
    credentials.load(Err("nobody asked".to_string())).unwrap();
    assert_eq!(text(credentials.api_key()), Some("key"));
}

#[test]
fn loading_takes_over_the_answer() {
    let mut credentials = room();
    credentials
        .load(Ok(
            r#"{"apiKey":"47346961","sessionId":"1_MX40~fg","token":"T1==cGFy"}"#.to_string()
        ))
        .unwrap();
    assert_eq!(text(credentials.api_key()), Some("47346961"));
    assert_eq!(text(credentials.session_id()), Some("1_MX40~fg"));
    assert_eq!(text(credentials.token()), Some("T1==cGFy"));
    assert!(credentials.room_uri().is_some());
}

#[test]
fn loading_takes_over_any_text() {
    let mut credentials = room();
    credentials
        .load(Ok("{\"apiKey\":\"\",\"sessionId\":\"a/b'c\u{7f} \",\"token\":\"\u{e9}\u{1f600}{}[],:\"}".to_string()))
        .unwrap();
    assert_eq!(text(credentials.api_key()), Some(""));
    assert_eq!(text(credentials.session_id()), Some("a/b'c\u{7f} "));
    assert_eq!(text(credentials.token()), Some("\u{e9}\u{1f600}{}[],:"));
}

#[test]
fn loading_reads_json_in_any_layout() {
    let mut credentials = room();
    credentials
        .load(Ok(
            "{ \"token\": \"a\\u0062\",\n \"more\": [1, {}], \"sessionId\": \"s\", \"apiKey\": \"k\" }"
                .to_string(),
        ))
        .unwrap();
    assert_eq!(text(credentials.token()), Some("ab"));
}

#[test]
fn loading_finds_members_by_their_names() {
    let mut credentials = room();
    credentials
        .load(Ok(
            r#"{"token":"t","room":"rust345","apiKey":"k","":"none","sessionId":"s"}"#.to_string()
        ))
        .unwrap();
    assert_eq!(text(credentials.api_key()), Some("k"));
    assert_eq!(text(credentials.session_id()), Some("s"));
    assert_eq!(text(credentials.token()), Some("t"));
}

/// An answer that holds all credentials and one more member.
fn answer_with(member: &str) -> String {
    format!(
        r#"{{"apiKey":"k","sessionId":"s","token":"t","more":{}}}"#,
        member
    )
}

#[test]
fn loading_refuses_numbers_out_of_range() {
    let longest = format!("0.{}", "0".repeat(32_768));
    let mut credentials = room();
    credentials.load(Ok(answer_with(&longest))).unwrap();
    assert_eq!(text(credentials.token()), Some("t"));

    let too_long = format!("{}0", longest);
    let mut credentials = room();
    let error = credentials.load(Ok(answer_with(&too_long))).unwrap_err();
    assert!(matches!(error, LoadError::Json(_)));
    assert_eq!(error.message(), "Number out of range");
    assert_eq!(credentials.token(), None);

    let quoted = format!("\"{}\"", too_long);
    let mut credentials = room();
    credentials.load(Ok(answer_with(&quoted))).unwrap();
    assert_eq!(text(credentials.token()), Some("t"));
}

#[test]
fn loading_reads_numbers_at_the_edge_of_the_range() {
    let zeros = "0".repeat(32_749);
    for digits in [
        "9".repeat(20),
        "1".repeat(19),
        "9".repeat(40_000),
        "18446744073709551619".to_string(),
    ] {
        let mut credentials = room();
        credentials
            .load(Ok(answer_with(&format!("0.{}{}", zeros, digits))))
            .unwrap();
        assert_eq!(text(credentials.token()), Some("t"));
    }
    for digits in [
        "1".repeat(20),
        "18446744073709551615".to_string(),
        "184467440737095516195".to_string(),
    ] {
        let mut credentials = room();
        let error = credentials
            .load(Ok(answer_with(&format!("-0.{}{}", zeros, digits))))
            .unwrap_err();
        assert_eq!(error.message(), "Number out of range");
    }
}

#[test]
fn loading_gives_up_where_the_answer_is_no_json() {
    let number = format!("0.{}", "0".repeat(40_000));
    for (answer, message) in [
        (format!("x{}", number), "Unexpected character: x at (1:1)"),
        (format!("[1,\n1 {}]", number), "Unexpected character: 0 at (2:3)"),
        (format!("[1e{}]", number), "Unexpected character: . at (1:5)"),
        (format!("{{{}", number), "Unexpected character: 0 at (1:2)"),
        (number.clone(), "Number out of range"),
        (format!("[{},{}", number, number), "Number out of range"),
    ] {
        let mut credentials = room();
        assert_eq!(credentials.load(Ok(answer)).unwrap_err().message(), message);
        assert_eq!(credentials.api_key(), None);
    }
}

#[test]
fn long_fractions_are_found() {
    let zeros = "0".repeat(32_749);
    let digits = "1".repeat(20);
    let number = format!("0.{}{}", zeros, digits);
    assert_eq!(find_long_fraction(&number), Some(0));
    assert_eq!(find_long_fraction(&format!("[-{}]", number)), Some(2));
    assert_eq!(find_long_fraction(&format!("[\"\\\"\",{}]", number)), Some(6));
    assert_eq!(find_long_fraction(&format!("[0.1,{},{}]", number, number)), Some(5));
    assert_eq!(find_long_fraction(&format!("0.{}{}", &zeros[1..], digits)), None);
    assert_eq!(find_long_fraction(&format!("0.{}{}", zeros, &digits[1..])), None);
    assert_eq!(find_long_fraction(&format!("0.{}{}", zeros, "9".repeat(20))), None);
    assert_eq!(find_long_fraction(&format!("1{}", number)), None);
    assert_eq!(find_long_fraction(&format!("0{}{}", zeros, digits)), None);
    assert_eq!(find_long_fraction(&format!("\"{}\"", number)), None);
    assert_eq!(find_long_fraction(""), None);
}

#[test]
fn loading_fails_when_the_room_is_silent() {
    let mut credentials = room();
    let error = credentials.load(Err("timed out".to_string())).unwrap_err();
    assert!(matches!(error, LoadError::Fetch(_)));
    assert_eq!(error.message(), "timed out");
    assert_eq!(credentials.api_key(), None);
}

#[test]
fn loading_fails_without_json() {
    let mut credentials = room();
    let error = credentials.load(Ok("<html>".to_string())).unwrap_err();
    assert!(matches!(error, LoadError::Json(_)));
    assert_ne!(error.message(), "<html>");
    assert_eq!(credentials.api_key(), None);
}

#[test]
fn loading_stops_at_the_first_missing_member() {
    let mut credentials = room();
    let error = credentials.load(Ok("{}".to_string())).unwrap_err();
    assert!(matches!(error, LoadError::NoApiKey));
    assert_eq!(error.message(), "No `apiKey` in json");
    assert_eq!(credentials.api_key(), None);

    let error = credentials
        .load(Ok(r#"{"apiKey":"k","token":"t"}"#.to_string()))
        .unwrap_err();
    assert!(matches!(error, LoadError::NoSessionId));
    assert_eq!(error.message(), "No `sessionId` key in json");
    assert_eq!(text(credentials.api_key()), Some("k"));
    assert_eq!(credentials.token(), None);

    let error = credentials
        .load(Ok(r#"{"apiKey":"k","sessionId":"s","token":7}"#.to_string()))
        .unwrap_err();
    assert!(matches!(error, LoadError::NoToken));
    assert_eq!(error.message(), "No `token` key in json");
    assert_eq!(text(credentials.session_id()), Some("s"));
}

#[test]
fn members_are_taken_over() {
    let mut credentials = Credentials::default();
    credentials
        .load_members(Ok(vec![
            Some("k".to_string()),
            Some("s".to_string()),
            Some("t".to_string()),
        ]))
        .unwrap();
    assert_eq!(text(credentials.session_id()), Some("s"));
    assert!(credentials.load_members(Err("no".to_string())).is_err());
}
