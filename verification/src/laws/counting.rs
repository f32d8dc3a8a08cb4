//! How streams are counted and texts are put together.

use crate::common::error::Error;
use crate::common::json::digits_counted;
use crate::common::json::find_long_fraction;
use crate::common::json::holds_long_fraction;
use crate::common::json::lemma_first_long_fraction;
use crate::common::json::lowers_too_far;
use crate::common::json::mantissa_after;
use crate::common::json::place_after;
use crate::common::json::Place;
use crate::opentoksrc::OpenTokSrc;
use crate::opentoksrc::Subscription;
use crate::socket::is_common_path;
use crate::socket::is_file;
use crate::socket::path_of;
use crate::socket::socket_file;
use crate::socket::new_socket_file;
use crate::socket::socket_name;
use crate::subscribers::generate_video_pad_name;
use crate::subscribers::video_count;
use crate::subscribers::Subscribers;
use crate::text::contains;
use crate::text::decimal;
use crate::text::decimal_text;
use crate::text::occurs_at;
use crate::text::texts;
use vstd::prelude::*;

verus! {

/// The number that a text of digits stands for.
pub open spec fn number_in(text: Seq<char>) -> int
    decreases text.len(),
{
    if text.len() == 0 {
        0
    } else {
        10 * number_in(text.drop_last()) + (text.last() as int - '0' as int)
    }
}

/// The text is a number: digits only, with no zero in front of others.
pub open spec fn is_number(text: Seq<char>) -> bool {
    &&& text.len() > 0
    &&& text.len() > 1 ==> text[0] != '0'
    &&& forall|i: int| 0 <= i < text.len() ==> '0' <= #[trigger] text[i] <= '9'
}

proof fn lemma_decimal(value: nat)
    ensures
        number_in(decimal_text(value)) == value,
        is_number(decimal_text(value)),
        decimal_text(value)[0] == '0' ==> value == 0,
    decreases value,
{
    let text = decimal_text(value);
    if value < 10 {
        assert(text.drop_last() =~= Seq::empty());
        assert(number_in(text.drop_last()) == 0);
    } else {
        lemma_decimal(value / 10);
        assert(text.drop_last() =~= decimal_text(value / 10));
        assert(text[0] == decimal_text(value / 10)[0]);
        assert forall|i: int| 0 <= i < text.len() implies '0' <= #[trigger] text[i] <= '9' by {
            if i < text.len() - 1 {
                assert(text[i] == decimal_text(value / 10)[i]);
            }
        }
    }
}

/// A number is written in digits that stand for it.
pub proof fn law_number_is_read_back(value: usize, text: String)
    requires
        call_ensures(decimal, (value,), text),
    ensures
        is_number(text@),
        number_in(text@) == value,
{
    lemma_decimal(value as nat);
}

/// A text contains another if and only if it is that text with something in front and behind.
pub proof fn law_contained_text_is_a_part(text: &str, pattern: &str, found: bool)
    requires
        call_ensures(contains, (text, pattern), found),
    ensures
        found <==> exists|before: Seq<char>, after: Seq<char>|
            text@ == #[trigger] (before + pattern@ + after),
{
    lemma_occurs(text@, pattern@);
}

pub(crate) proof fn lemma_occurs(text: Seq<char>, pattern: Seq<char>)
    ensures
        crate::text::occurs(text, pattern) <==> exists|before: Seq<char>, after: Seq<char>|
            text == #[trigger] (before + pattern + after),
{
    if crate::text::occurs(text, pattern) {
        let at = choose|at: int| occurs_at(text, pattern, at);
        assert(text =~= text.take(at) + pattern + text.skip(at + pattern.len()));
    }
    if exists|before: Seq<char>, after: Seq<char>| text == #[trigger] (before + pattern + after) {
        let (before, after) = choose|before: Seq<char>, after: Seq<char>|
            text == #[trigger] (before + pattern + after);
        let at = before.len() as int;
        assert(text.subrange(at, at + pattern.len()) =~= pattern);
        assert(occurs_at(text, pattern, at));
    }
}

/// The number at the end of the name of the pad of a video stream.
pub open spec fn pad_number(name: Seq<char>) -> int {
    number_in(name.skip(13))
}

/// The name is that of the pad of a video stream.
pub open spec fn is_video_pad(name: Seq<char>) -> bool {
    name.len() > 13 && name.take(13) == "video_stream_"@ && is_number(name.skip(13))
}

proof fn lemma_video_pad(streams: Seq<Option<bool>>)
    ensures
        is_video_pad(crate::subscribers::video_pad_text(streams)),
        pad_number(crate::subscribers::video_pad_text(streams)) == video_count(streams),
{
    reveal_strlit("video_stream_");
    let name = crate::subscribers::video_pad_text(streams);
    let digits = decimal_text(video_count(streams));
    assert("video_stream_"@.len() == 13);
    lemma_decimal(video_count(streams));
    assert(name.take(13) =~= "video_stream_"@);
    assert(name.skip(13) =~= digits);
}

/// The pads of the video streams are numbered from zero on: another subscriber counts if and only
/// if its stream is known and has video.
pub proof fn law_video_pads_are_numbered(
    streams: &Vec<Option<bool>>,
    name: String,
    more: &Vec<Option<bool>>,
    next: String,
    stream: Option<bool>,
)
    requires
        call_ensures(generate_video_pad_name, (streams,), name),
        call_ensures(generate_video_pad_name, (more,), next),
        more@ == streams@.push(stream),
    ensures
        is_video_pad(name@),
        streams@.len() == 0 ==> pad_number(name@) == 0,
        pad_number(next@) == pad_number(name@) + if stream == Some(true) {
            1int
        } else {
            0int
        },
{
    lemma_video_pad(streams@);
    lemma_video_pad(more@);
    reveal(Seq::filter);
    assert(more@.drop_last() =~= streams@);
}

/// A stream that the element wants gets the pad with the next number.
pub proof fn law_wanted_stream_gets_the_next_pad(
    element: &OpenTokSrc,
    stream_id: &str,
    streams: &Vec<Option<bool>>,
    result: Result<Subscription, Error>,
    name: String,
)
    requires
        call_ensures(OpenTokSrc::stream_received, (element, stream_id, streams), result),
        call_ensures(generate_video_pad_name, (streams,), name),
    ensures
        result matches Ok(subscription) ==> subscription.pad_name@ == name@,
{
}

/// A stream is subscribed to when it has been added, and all others as before.
pub proof fn law_added_stream_is_there(subscribers: &mut Subscribers, id: String, other: Seq<char>)
    requires
        old(subscribers).wf(),
        call_ensures(Subscribers::insert, (subscribers, id), ()),
    ensures
        final(subscribers).wf(),
        final(subscribers)@.contains(id@),
        other != id@ ==> (final(subscribers)@.contains(other) <==> old(subscribers)@.contains(
            other,
        )),
{
}

/// A stream is not subscribed to when it has been taken out, and all others as before. It was there
/// if and only if that is what is told.
pub proof fn law_removed_stream_is_gone(
    subscribers: &mut Subscribers,
    id: &str,
    found: bool,
    other: Seq<char>,
)
    requires
        old(subscribers).wf(),
        call_ensures(Subscribers::remove, (subscribers, id), found),
    ensures
        final(subscribers).wf(),
        found <==> old(subscribers)@.contains(id@),
        !final(subscribers)@.contains(id@),
        other != id@ ==> (final(subscribers)@.contains(other) <==> old(subscribers)@.contains(
            other,
        )),
{
}

/// When all streams have been taken out, each of them is handed out at one place, and none is left.
pub proof fn law_drained_streams_are_handed_out(
    subscribers: &mut Subscribers,
    ids: Vec<String>,
    id: Seq<char>,
)
    requires
        old(subscribers).wf(),
        call_ensures(Subscribers::drain, (subscribers,), ids),
    ensures
        final(subscribers).wf(),
        !final(subscribers)@.contains(id),
        old(subscribers)@.contains(id) <==> exists|i: int|
            0 <= i < ids@.len() && (#[trigger] ids@[i])@ == id,
        forall|i: int, j: int|
            0 <= i < j < ids@.len() ==> (#[trigger] ids@[i])@ != (#[trigger] ids@[j])@,
{
    let all = texts(ids@);
    assert forall|i: int| 0 <= i < ids@.len() implies (#[trigger] ids@[i])@ == all[i] by {}
    if old(subscribers)@.contains(id) {
        assert(all.to_set().contains(id));
        let i = choose|i: int| 0 <= i < all.len() && all[i] == id;
        assert(ids@[i]@ == id);
    }
    if exists|i: int| 0 <= i < ids@.len() && (#[trigger] ids@[i])@ == id {
        let i = choose|i: int| 0 <= i < ids@.len() && (#[trigger] ids@[i])@ == id;
        assert(all[i] == id);
        assert(all.to_set().contains(id));
    }
}

/// There are no streams in the beginning, and there are none if and only if no stream is there.
pub proof fn law_no_streams_are_none(
    fresh: Subscribers,
    subscribers: &Subscribers,
    empty: bool,
    id: Seq<char>,
)
    requires
        call_ensures(Subscribers::new, (), fresh),
        call_ensures(Subscribers::is_empty, (subscribers,), empty),
    ensures
        fresh.wf(),
        !fresh@.contains(id),
        subscribers@.contains(id) ==> !empty,
        !empty ==> exists|id: Seq<char>| subscribers@.contains(id),
{
    if !empty && !exists|id: Seq<char>| subscribers@.contains(id) {
        assert(subscribers@ =~= Set::empty());
    }
}

/// The file of a socket holds its identifier between two words, so that two sockets with different
/// identifiers have different files.
pub proof fn law_sockets_have_their_own_files(a: &str, b: &str, first: String, second: String)
    requires
        call_ensures(socket_file, (a,), first),
        call_ensures(socket_file, (b,), second),
    ensures
        first@ == "opentok-"@ + a@ + "-socket"@,
        first@ == second@ ==> a@ == b@,
{
    if first@ == second@ {
        let n = "opentok-"@.len() as int;
        assert(first@.len() == second@.len());
        assert(a@ =~= first@.subrange(n, n + a@.len()));
        assert(b@ =~= second@.subrange(n, n + b@.len()));
    }
}

/// A new socket gets a file between the same two words, with an identifier of thirty-six characters
/// in the middle. Any system takes it for the name of a file, and finds it again at the end of a
/// path that every system reads alike.
pub proof fn law_new_socket_is_found_again(
    file: String,
    directory: Seq<char>,
    path: &str,
    name: Option<String>,
)
    requires
        call_ensures(new_socket_file, (), file),
        path@ == directory + seq!['/'] + file@,
        is_common_path(path@),
        call_ensures(socket_name, (path,), name),
    ensures
        name matches Some(name) && name@ == file@,
        file@.len() == 51,
        file@.take(8) == "opentok-"@,
        file@.skip(44) == "-socket"@,
        file@[22] == '4',
{
    reveal_strlit("opentok-");
    reveal_strlit("-socket");
    assert(path@ =~= path_of(directory, file@));
    let id = choose|id: Seq<char>|
        crate::socket::is_random_id(id) && file@ == #[trigger] crate::socket::socket_file_text(id);
    assert(file@.take(8) =~= "opentok-"@);
    assert(file@.skip(44) =~= "-socket"@);
    assert(file@[22] == id[14]);
}

/// A file in a directory is found at the end of its path.
pub proof fn law_file_is_found_at_the_end(
    directory: Seq<char>,
    file: Seq<char>,
    path: &str,
    name: Option<String>,
)
    requires
        path@ == directory + seq!['/'] + file,
        is_common_path(path@),
        is_file(file),
        call_ensures(socket_name, (path,), name),
    ensures
        name matches Some(name) && name@ == file,
{
    assert(path@ =~= path_of(directory, file));
}

/// What is found as a number that cannot be counted starts with a zero and a point, no digit stands
/// in front of it, and at least as many digits follow as an exponent of sixteen bits can be lowered.
/// So a short text holds none.
pub proof fn law_long_fraction_is_long(text: &str, found: Option<usize>)
    requires
        call_ensures(find_long_fraction, (text,), found),
    ensures
        found matches Some(at) ==> {
            &&& at + 2 + 32_768 < text@.len()
            &&& text@[at as int] == '0'
            &&& text@[at + 1] == '.'
            &&& at > 0 ==> !('0' <= text@[at - 1] <= '9')
            &&& forall|i: int|
                at + 2 <= i < at + 2 + 32_769 ==> '0' <= #[trigger] text@[i] <= '9'
        },
        text@.len() < 32_771 ==> found is None,
{
    if let Some(at) = found {
        let from = at as int + 2;
        lemma_first_long_fraction(text@);
        let n = choose|n: int| #[trigger] lowers_too_far(text@, from, n);
        lemma_counted_at_most(text@, from, n);
    }
}

proof fn lemma_counted_at_most(text: Seq<char>, from: int, n: int)
    requires
        0 <= n,
    ensures
        digits_counted(text, from, n) <= n,
    decreases n,
{
    if n > 0 {
        lemma_counted_at_most(text, from, n - 1);
    }
}

proof fn lemma_zeros_counted(text: Seq<char>, from: int, n: int)
    requires
        0 <= n,
        forall|i: int| from <= i < from + n ==> #[trigger] text[i] == '0',
    ensures
        mantissa_after(text, from, n) == 0,
        digits_counted(text, from, n) == n,
    decreases n,
{
    if n > 0 {
        lemma_zeros_counted(text, from, n - 1);
        assert(text[from + n - 1] == '0');
    }
}

proof fn lemma_outside(text: Seq<char>, n: int)
    requires
        0 <= n <= text.len(),
        forall|i: int| 0 <= i < n ==> #[trigger] text[i] != '"',
    ensures
        place_after(Place::Outside, text, n) is Outside,
    decreases n,
{
    if n > 0 {
        lemma_outside(text, n - 1);
        assert(text[n - 1] != '"');
    }
}

proof fn lemma_inside(text: Seq<char>, quote: int, n: int)
    requires
        0 <= quote < n <= text.len(),
        text[quote] == '"',
        forall|i: int| 0 <= i < n && i != quote ==> #[trigger] text[i] != '"',
    ensures
        !(place_after(Place::Outside, text, n) is Outside),
    decreases n,
{
    if n == quote + 1 {
        lemma_outside(text, quote);
    } else {
        lemma_inside(text, quote, n - 1);
        assert(text[n - 1] != '"');
    }
}

/// Nothing is found in a string, whatever is in it.
pub proof fn law_no_fraction_is_found_in_a_string(text: &str, found: Option<usize>, quote: int)
    requires
        call_ensures(find_long_fraction, (text,), found),
        0 <= quote < text@.len(),
        text@[quote] == '"',
        forall|i: int| 0 <= i < quote ==> #[trigger] text@[i] != '"',
    ensures
        found matches Some(at) ==> at < quote || exists|i: int|
            quote < i < at && #[trigger] text@[i] == '"',
{
    if let Some(at) = found {
        lemma_first_long_fraction(text@);
        if at >= quote && forall|i: int| quote < i < at ==> #[trigger] text@[i] != '"' {
            assert(at != quote);
            lemma_inside(text@, quote, at as int);
        }
    }
}

/// A fraction of too many zeros is found, unless another number that cannot be counted is found in
/// front of it. What is in front of it is not in a string, and is no digit.
pub proof fn law_fraction_of_zeros_is_found(
    text: &str,
    found: Option<usize>,
    at: int,
    zeros: int,
)
    requires
        call_ensures(find_long_fraction, (text,), found),
        zeros > 32_768,
        0 <= at,
        at + 2 + zeros <= text@.len(),
        forall|i: int| 0 <= i < at ==> #[trigger] text@[i] != '"',
        at > 0 ==> !('0' <= text@[at - 1] <= '9'),
        text@[at] == '0',
        text@[at + 1] == '.',
        forall|i: int| at + 2 <= i < at + 2 + zeros ==> #[trigger] text@[i] == '0',
    ensures
        found matches Some(first) && first <= at,
{
    lemma_outside(text@, at);
    lemma_zeros_counted(text@, at + 2, zeros);
    assert(lowers_too_far(text@, at + 2, zeros));
    assert(holds_long_fraction(text@, at));
    lemma_first_long_fraction(text@);
}

} // verus!
