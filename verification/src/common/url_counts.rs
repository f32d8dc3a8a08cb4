//! The numbers that `url` counts the parts of a url in, and the texts on which they overflow.

use crate::common::url::parse_url;
use crate::common::url::url_parse;
use crate::text::characters;
use crate::text::holds_at;
use crate::text::occurs_at;
use vstd::prelude::*;

verus! {

/// A character that a url does not read, wherever it stands.
pub open spec fn is_dropped(c: char) -> bool {
    c == '\t' || c == '\n' || c == '\r'
}

/// The characters of a text that a url reads, and what blanks there are at the end: blanks and
/// controls in front of the first other character do not count.
pub open spec fn kept_chars(text: Seq<char>) -> Seq<char>
    decreases text.len(),
{
    if text.len() == 0 {
        text
    } else {
        let kept = kept_chars(text.drop_last());
        if is_dropped(text.last()) || (kept.len() == 0 && text.last() <= ' ') {
            kept
        } else {
            kept.push(text.last())
        }
    }
}

/// The text without the blanks and controls at its end.
pub open spec fn without_end(text: Seq<char>) -> Seq<char>
    decreases text.len(),
{
    if text.len() > 0 && text.last() <= ' ' {
        without_end(text.drop_last())
    } else {
        text
    }
}

/// The characters of a text that a url reads.
pub open spec fn read_chars(text: Seq<char>) -> Seq<char> {
    without_end(kept_chars(text))
}

/// A letter of ASCII.
pub open spec fn is_letter(c: char) -> bool {
    'a' <= c <= 'z' || 'A' <= c <= 'Z'
}

/// A character of the scheme of a url.
pub open spec fn is_scheme_char(c: char) -> bool {
    is_letter(c) || '0' <= c <= '9' || c == '+' || c == '-' || c == '.'
}

/// The first `n` characters are the scheme of a url.
pub open spec fn has_scheme(read: Seq<char>, n: int) -> bool {
    &&& 0 < n < read.len()
    &&& is_letter(read[0])
    &&& forall|i: int| 0 <= i < n ==> is_scheme_char(#[trigger] read[i])
    &&& read[n] == ':'
}

/// The character is this letter in lower case, or the same in upper case.
pub open spec fn is_same_letter(c: char, lower: char) -> bool {
    c == lower || ('A' <= c <= 'Z' && c as int + 32 == lower as int)
}

/// The scheme, which has `n` characters, is this one.
pub open spec fn is_scheme(read: Seq<char>, n: int, name: Seq<char>) -> bool {
    &&& n == name.len()
    &&& forall|i: int| 0 <= i < n ==> is_same_letter(#[trigger] read[i], name[i])
}

/// The scheme is one of those whose urls always have a host.
pub open spec fn has_host_scheme(read: Seq<char>, n: int) -> bool {
    ||| is_scheme(read, n, "http"@)
    ||| is_scheme(read, n, "https"@)
    ||| is_scheme(read, n, "ws"@)
    ||| is_scheme(read, n, "wss"@)
    ||| is_scheme(read, n, "ftp"@)
}

/// A slash in front of the host, where the scheme always has one.
pub open spec fn is_slash(c: char) -> bool {
    c == '/' || c == '\\'
}

/// There are `count` slashes from position `from` on.
pub open spec fn slashes_from(read: Seq<char>, from: int, count: int) -> bool {
    &&& from + count <= read.len()
    &&& forall|i: int| from <= i < from + count ==> is_slash(#[trigger] read[i])
}

/// The host goes on for 2^31 characters from position `from` on. A backslash ends it too, where the
/// scheme always has a host.
pub open spec fn long_host_from(read: Seq<char>, from: int, backslash: bool) -> bool {
    &&& 0 <= from
    &&& from + 0x8000_0000 <= read.len()
    &&& forall|i: int|
        from <= i < from + 0x8000_0000 ==> {
            let c = #[trigger] read[i];
            c != '/' && c != '?' && c != '#' && !(backslash && c == '\\')
        }
}

/// What follows the scheme, behind a scheme of one letter.
pub open spec fn with_short_scheme(read: Seq<char>, n: int) -> Seq<char> {
    "a"@ + read.skip(n)
}

/// The url has a path that needs a dot in front of it, so as not to be read as a host.
pub open spec fn has_dotted_path(text: Seq<char>) -> bool {
    occurs_at(text, "a:/.//"@, 0)
}

/// The numbers that the url behind a scheme of `n` characters is counted in overflow: the
/// characters of its host do so at 2^31, and the slashes in front of it at 2^32. Where there is no
/// host, the start of the path does so when it is moved by a dot in front of it, which the scheme
/// has no part in. A url that is too long even with a short scheme is so with a longer one.
pub open spec fn counts_overflow(read: Seq<char>, n: int) -> bool {
    if is_scheme(read, n, "file"@) {
        false
    } else if has_host_scheme(read, n) {
        ||| slashes_from(read, n + 1, 0x1_0000_0000)
        ||| exists|count: int|
            0 <= count && #[trigger] slashes_from(read, n + 1, count) && long_host_from(
                read,
                n + 1 + count,
                true,
            )
    } else if n + 2 < read.len() && read[n + 1] == '/' && read[n + 2] == '/' {
        long_host_from(read, n + 3, false)
    } else {
        u32::MAX - 3 < n < u32::MAX && (url_parse(with_short_scheme(read, n)) matches Ok(url)
            ==> has_dotted_path(url.text))
    }
}

/// The text can be parsed without a number that overflows.
pub open spec fn can_count(text: Seq<char>) -> bool {
    text.len() < 0x8000_0000 || forall|n: int|
        has_scheme(read_chars(text), n) ==> !#[trigger] counts_overflow(read_chars(text), n)
}

/// Appends a character with `String::push`.
///
/// Trusted of `std`: the character is the last one of the text, behind those that there were.
pub assume_specification[ String::push ](text: &mut String, c: char)
    ensures
        final(text)@ == old(text)@.push(c),
;

/// Whether the text has 2^31 characters or more.
fn is_long(text: &str) -> (long: bool)
    ensures
        long == (text@.len() >= 0x8000_0000),
{
    let mut count: u64 = 0;
    for c in it: text.chars()
        invariant
            it.seq() == text@,
            count == it.index(),
            count < 0x8000_0000,
    {
        count += 1;
        if count == 0x8000_0000 {
            return true;
        }
    }
    false
}

/// The characters of a text that a url reads.
fn url_chars(text: &str) -> (read: Vec<char>)
    ensures
        read@ == read_chars(text@),
{
    let mut read: Vec<char> = Vec::new();
    for c in it: text.chars()
        invariant
            it.seq() == text@,
            read@ == kept_chars(text@.take(it.index())),
    {
        proof {
            let next = text@.take(it.index() + 1);
            assert(next.drop_last() =~= text@.take(it.index()));
            assert(next.last() == c);
        }
        if !(c == '\t' || c == '\n' || c == '\r' || (read.len() == 0 && c <= ' ')) {
            read.push(c);
        }
    }
    assert(text@.take(text@.len() as int) =~= text@);
    while read.len() > 0 && read[read.len() - 1] <= ' '
        invariant
            without_end(read@) == read_chars(text@),
        decreases read@.len(),
    {
        read.pop();
    }
    read
}

/// How many characters the scheme of a url has, if there is one.
fn scheme_len(read: &Vec<char>) -> (found: Option<usize>)
    ensures
        match found {
            Some(n) => has_scheme(read@, n as int),
            None => forall|n: int| !has_scheme(read@, n),
        },
{
    if read.len() == 0 {
        return None;
    }
    let first = read[0];
    if !(('a' <= first && first <= 'z') || ('A' <= first && first <= 'Z')) {
        return None;
    }
    let mut n: usize = 0;
    while n < read.len()
        invariant
            n <= read@.len(),
            read@.len() > 0,
            is_letter(read@[0]),
            forall|i: int| 0 <= i < n ==> is_scheme_char(#[trigger] read@[i]),
        decreases read@.len() - n,
    {
        let c = read[n];
        if c == ':' {
            return Some(n);
        }
        if !(('a' <= c && c <= 'z') || ('A' <= c && c <= 'Z') || ('0' <= c && c <= '9') || c == '+'
            || c == '-' || c == '.') {
            assert forall|m: int| !has_scheme(read@, m) by {
                if has_scheme(read@, m) {
                    if m < n {
                        assert(is_scheme_char(read@[m]));
                    } else {
                        assert(!is_scheme_char(read@[n as int]));
                    }
                }
            }
            return None;
        }
        n += 1;
    }
    assert forall|m: int| !has_scheme(read@, m) by {
        if has_scheme(read@, m) {
            assert(is_scheme_char(read@[m]));
        }
    }
    None
}

/// Whether the scheme, which has `n` characters, is this one.
fn scheme_is(read: &Vec<char>, n: usize, name: &str) -> (same: bool)
    requires
        n <= read@.len(),
    ensures
        same == is_scheme(read@, n as int, name@),
{
    let list = characters(name);
    if list.len() != n {
        return false;
    }
    let mut i: usize = 0;
    while i < n
        invariant
            i <= n <= read@.len(),
            n == name@.len(),
            list@ == name@,
            forall|k: int| 0 <= k < i ==> is_same_letter(#[trigger] read@[k], name@[k]),
        decreases n - i,
    {
        let c: char = read[i];
        let lower: char = list[i];
        let upper: bool = 'A' <= c && c <= 'Z' && 'a' <= lower && lower <= 'z';
        if c != lower && !(upper && c as u32 + 32 == lower as u32) {
            assert(!is_same_letter(read@[i as int], name@[i as int]));
            return false;
        }
        i += 1;
    }
    true
}

/// Whether the host goes on for 2^31 characters from position `from` on.
fn host_is_long(read: &Vec<char>, from: usize, backslash: bool) -> (long: bool)
    requires
        from <= read@.len(),
    ensures
        long == long_host_from(read@, from as int, backslash),
{
    let mut count: u64 = 0;
    let mut i: usize = from;
    while i < read.len()
        invariant
            from <= i <= read@.len(),
            count == i - from,
            count < 0x8000_0000,
            forall|k: int|
                from <= k < i ==> {
                    let c = #[trigger] read@[k];
                    c != '/' && c != '?' && c != '#' && !(backslash && c == '\\')
                },
        decreases read@.len() - i,
    {
        let c = read[i];
        if c == '/' || c == '?' || c == '#' || (backslash && c == '\\') {
            assert(read@[i as int] == c);
            return false;
        }
        i += 1;
        count += 1;
        if count == 0x8000_0000 {
            return true;
        }
    }
    false
}

/// Whether the numbers overflow that a url with a scheme that always has a host is counted in.
fn host_overflows(read: &Vec<char>, n: usize) -> (overflows: bool)
    requires
        has_scheme(read@, n as int),
        !is_scheme(read@, n as int, "file"@),
        has_host_scheme(read@, n as int),
    ensures
        overflows == counts_overflow(read@, n as int),
{
    let total: usize = read.len();
    let mut count: u64 = 0;
    let mut i: usize = n + 1;
    while i < total && (read[i] == '/' || read[i] == '\\')
        invariant
            total == read@.len(),
            n < i <= total,
            count == i - n - 1,
            count < 0x1_0000_0000,
            has_scheme(read@, n as int),
            !is_scheme(read@, n as int, "file"@),
            has_host_scheme(read@, n as int),
            forall|k: int| n < k < i ==> is_slash(#[trigger] read@[k]),
        decreases read@.len() - i,
    {
        i += 1;
        count += 1;
        if count == 0x1_0000_0000 {
            assert(slashes_from(read@, n + 1, 0x1_0000_0000));
            return true;
        }
    }
    proof {
        assert(slashes_from(read@, n + 1, count as int));
        assert forall|other: int|
            0 <= other && #[trigger] slashes_from(read@, n + 1, other) && other
                != count implies !long_host_from(read@, n + 1 + other, true) by {
            if other < count {
                assert(is_slash(read@[n + 1 + other]));
            } else {
                assert(is_slash(read@[i as int]));
            }
        }
        if slashes_from(read@, n + 1, 0x1_0000_0000) {
            assert(is_slash(read@[i as int]));
        }
    }
    host_is_long(read, i, true)
}

/// What follows the scheme, behind a scheme of one letter.
fn short_scheme(read: &Vec<char>, n: usize) -> (text: String)
    requires
        n <= read@.len(),
    ensures
        text@ == with_short_scheme(read@, n as int),
{
    let mut text = "a".to_owned();
    let mut i: usize = n;
    while i < read.len()
        invariant
            n <= i <= read@.len(),
            text@ == "a"@ + read@.subrange(n as int, i as int),
        decreases read@.len() - i,
    {
        text.push(read[i]);
        assert(read@.subrange(n as int, i + 1) =~= read@.subrange(n as int, i as int).push(
            read@[i as int],
        ));
        i += 1;
    }
    assert(read@.subrange(n as int, i as int) =~= read@.skip(n as int));
    text
}

/// The text is one of which a url reads every character.
pub open spec fn is_read(text: Seq<char>) -> bool {
    &&& forall|i: int| 0 <= i < text.len() ==> !is_dropped(#[trigger] text[i])
    &&& text.len() > 0 ==> text[0] > ' ' && text[text.len() - 1] > ' '
}

/// A url reads every character of what it reads of a text.
proof fn lemma_read_chars(text: Seq<char>)
    ensures
        is_read(read_chars(text)),
{
    lemma_kept_chars(text);
    lemma_without_end(kept_chars(text));
}

proof fn lemma_kept_chars(text: Seq<char>)
    ensures
        forall|i: int|
            0 <= i < kept_chars(text).len() ==> !is_dropped(#[trigger] kept_chars(text)[i]),
        kept_chars(text).len() > 0 ==> kept_chars(text)[0] > ' ',
    decreases text.len(),
{
    if text.len() > 0 {
        lemma_kept_chars(text.drop_last());
        let kept = kept_chars(text.drop_last());
        if kept_chars(text) != kept {
            assert forall|i: int| 0 <= i < kept_chars(text).len() implies !is_dropped(
                #[trigger] kept_chars(text)[i],
            ) by {
                if i < kept.len() {
                    assert(kept_chars(text)[i] == kept[i]);
                }
            }
            if kept.len() > 0 {
                assert(kept_chars(text)[0] == kept[0]);
            }
        }
    }
}

proof fn lemma_without_end(text: Seq<char>)
    ensures
        without_end(text).len() <= text.len(),
        forall|i: int|
            0 <= i < without_end(text).len() ==> #[trigger] without_end(text)[i] == text[i],
        without_end(text).len() > 0 ==> without_end(text)[without_end(text).len() - 1] > ' ',
    decreases text.len(),
{
    if text.len() > 0 && text.last() <= ' ' {
        lemma_without_end(text.drop_last());
    }
}

/// A url reads such a text as it stands.
pub proof fn lemma_read_whole(text: Seq<char>)
    requires
        is_read(text),
    ensures
        read_chars(text) == text,
{
    lemma_kept_whole(text, text.len() as int);
    assert(text.take(text.len() as int) =~= text);
}

proof fn lemma_kept_whole(text: Seq<char>, n: int)
    requires
        is_read(text),
        0 <= n <= text.len(),
    ensures
        kept_chars(text.take(n)) == text.take(n),
    decreases n,
{
    if n > 0 {
        let part = text.take(n);
        assert(part.drop_last() =~= text.take(n - 1));
        assert(part.last() == text[n - 1]);
        lemma_kept_whole(text, n - 1);
        assert(part.drop_last().push(part.last()) =~= part);
    } else {
        assert(text.take(0) =~= Seq::empty());
    }
}

/// A url whose scheme is so short can be counted.
proof fn lemma_short_scheme_counts(read: Seq<char>, n: int)
    requires
        is_read(read),
        has_scheme(read, n),
        !(n + 2 < read.len() && read[n + 1] == '/' && read[n + 2] == '/'),
    ensures
        can_count(with_short_scheme(read, n)),
{
    reveal_strlit("a");
    let short = with_short_scheme(read, n);
    assert forall|i: int| 1 <= i < short.len() implies #[trigger] short[i] == read[n + i - 1] by {}
    lemma_read_whole(short);
    assert forall|m: int| has_scheme(short, m) implies !#[trigger] counts_overflow(short, m) by {
        if m > 1 {
            assert(is_scheme_char(short[1]));
        }
        lemma_scheme_lengths();
    }
}

/// How long the schemes are that are told apart.
pub proof fn lemma_scheme_lengths()
    ensures
        "file"@.len() == 4,
        "http"@.len() == 4,
        "https"@.len() == 5,
        "ws"@.len() == 2,
        "wss"@.len() == 3,
        "ftp"@.len() == 3,
{
    reveal_strlit("file");
    reveal_strlit("http");
    reveal_strlit("https");
    reveal_strlit("ws");
    reveal_strlit("wss");
    reveal_strlit("ftp");
}

/// Whether one of the numbers overflows that the url behind a scheme of `n` characters is counted
/// in.
fn scheme_overflows(read: &Vec<char>, n: usize) -> (overflows: bool)
    requires
        is_read(read@),
        has_scheme(read@, n as int),
    ensures
        overflows == counts_overflow(read@, n as int),
{
    if scheme_is(read, n, "file") {
        return false;
    }
    if scheme_is(read, n, "http") || scheme_is(read, n, "https") || scheme_is(read, n, "ws")
        || scheme_is(read, n, "wss") || scheme_is(read, n, "ftp") {
        return host_overflows(read, n);
    }
    let left: usize = read.len() - n;
    if left > 2 && read[n + 1] == '/' && read[n + 2] == '/' {
        return host_is_long(read, n + 3, false);
    }
    let length: u64 = n as u64;
    if length <= u32::MAX as u64 - 3 || length >= u32::MAX as u64 {
        return false;
    }
    proof {
        lemma_short_scheme_counts(read@, n as int);
    }
    match parse_url(short_scheme(read, n).as_str()) {
        Ok(url) => {
            let list = characters(url.text.as_str());
            let dotted = characters("a:/.//");
            dotted.len() <= list.len() && holds_at(&list, &dotted, 0)
        },
        Err(_) => true,
    }
}

/// Whether one of the numbers that a url is counted in overflows.
pub(crate) fn overflows(text: &str) -> (overflows: bool)
    ensures
        overflows == !can_count(text@),
{
    if !is_long(text) {
        return false;
    }
    let read = url_chars(text);
    proof {
        lemma_read_chars(text@);
    }
    let n = match scheme_len(&read) {
        Some(n) => n,
        None => {
            return false;
        },
    };
    proof {
        assert forall|m: int| has_scheme(read@, m) implies m == n by {
            if m < n {
                assert(is_scheme_char(read@[m]));
            }
            if n < m {
                assert(is_scheme_char(read@[n as int]));
            }
        }
    }
    scheme_overflows(&read, n)
}

} // verus!
