//! Text members of a JSON object.

use crate::text::characters;
use crate::text::opt_text;
use crate::text::same;
use vstd::prelude::*;

verus! {

/// The characters of a list of optional strings.
pub open spec fn opt_texts(list: Seq<Option<String>>) -> Seq<Option<Seq<char>>> {
    list.map_values(|text: Option<String>| opt_text(text))
}

/// The members that were read, or the characters of the reason for which there are none.
pub open spec fn members_view(
    result: Result<Vec<Option<String>>, String>,
) -> Result<Seq<Option<Seq<char>>>, Seq<char>> {
    match result {
        Ok(members) => Ok(opt_texts(members@)),
        Err(reason) => Err(reason@),
    }
}

/// The JSON notation of a list of members with text values.
pub open spec fn members_text(members: Seq<(Seq<char>, Seq<char>)>) -> Seq<char>
    decreases members.len(),
{
    if members.len() == 0 {
        Seq::empty()
    } else {
        let (name, value) = members.last();
        let member = seq!['"'] + name + seq!['"', ':', '"'] + value + seq!['"'];
        if members.len() == 1 {
            member
        } else {
            members_text(members.drop_last()) + seq![','] + member
        }
    }
}

/// The JSON notation of an object with these members.
pub open spec fn object_text(members: Seq<(Seq<char>, Seq<char>)>) -> Seq<char> {
    seq!['{'] + members_text(members) + seq!['}']
}

/// The text stands for itself between quotes: it holds no quote, no backslash and no control
/// character.
pub open spec fn needs_no_escape(text: Seq<char>) -> bool {
    forall|i: int|
        0 <= i < text.len() ==> #[trigger] text[i] >= ' ' && text[i] != '"' && text[i] != '\\'
}

/// The members have different names, and none of their names and values needs an escape.
pub open spec fn plain_object(members: Seq<(Seq<char>, Seq<char>)>) -> bool {
    &&& forall|i: int|
        0 <= i < members.len() ==> needs_no_escape(#[trigger] members[i].0) && needs_no_escape(
            members[i].1,
        )
    &&& forall|i: int, j: int|
        0 <= i < j < members.len() ==> (#[trigger] members[i]).0 != (#[trigger] members[j]).0
}

/// The characters of a list of names.
pub open spec fn name_texts(names: Seq<&str>) -> Seq<Seq<char>> {
    names.map_values(|name: &str| name@)
}

/// The value of the member of this name, if there is one.
pub open spec fn member_value(
    members: Seq<(Seq<char>, Seq<char>)>,
    name: Seq<char>,
) -> Option<Seq<char>>
    decreases members.len(),
{
    if members.len() == 0 {
        None
    } else if members.last().0 == name {
        Some(members.last().1)
    } else {
        member_value(members.drop_last(), name)
    }
}

/// The value of the member of each of these names, if there is one.
pub open spec fn member_values(
    members: Seq<(Seq<char>, Seq<char>)>,
    names: Seq<Seq<char>>,
) -> Seq<Option<Seq<char>>> {
    names.map_values(|name: Seq<char>| member_value(members, name))
}

/// If `payload` is an object whose members need no escape, then `result` holds the value of each
/// member that `names` asks for, and nothing for a name that no member has.
pub open spec fn reads_object(
    payload: Seq<char>,
    names: Seq<Seq<char>>,
    result: Result<Seq<Option<Seq<char>>>, Seq<char>>,
) -> bool {
    forall|members: Seq<(Seq<char>, Seq<char>)>|
        plain_object(members) && payload == #[trigger] object_text(members) ==> result == Ok::<
            Seq<Option<Seq<char>>>,
            Seq<char>,
        >(member_values(members, names))
}

/// Where in a JSON text a character stands.
#[derive(Clone, Copy, Debug, PartialEq, Eq, Structural)]
pub enum Place {
    /// Not in a string.
    Outside,
    /// In a string.
    Inside,
    /// In a string, behind a backslash.
    Escaped,
}

impl Place {
    /// Where the character behind `c` stands, if `c` stands here.
    pub open spec fn next(self, c: char) -> Place {
        match self {
            Place::Outside => if c == '"' {
                Place::Inside
            } else {
                Place::Outside
            },
            Place::Inside => if c == '"' {
                Place::Outside
            } else if c == '\\' {
                Place::Escaped
            } else {
                Place::Inside
            },
            Place::Escaped => Place::Inside,
        }
    }

    /// Where the character behind `c` stands, if `c` stands here.
    fn behind(self, c: char) -> (place: Place)
        ensures
            place == self.next(c),
    {
        match self {
            Place::Outside => if c == '"' {
                Place::Inside
            } else {
                Place::Outside
            },
            Place::Inside => if c == '"' {
                Place::Outside
            } else if c == '\\' {
                Place::Escaped
            } else {
                Place::Inside
            },
            Place::Escaped => Place::Inside,
        }
    }
}

/// Where the character behind the first `n` characters of a text stands, if the first one stands
/// at `start`.
pub open spec fn place_after(start: Place, text: Seq<char>, n: int) -> Place
    decreases n,
{
    if n <= 0 {
        start
    } else {
        place_after(start, text, n - 1).next(text[n - 1])
    }
}

/// A digit of a number to the base ten.
pub open spec fn is_digit(c: char) -> bool {
    '0' <= c <= '9'
}

/// The value of a digit of a number to the base ten.
pub open spec fn digit_value(c: char) -> int {
    c as int - '0' as int
}

/// The number that the first `n` digits from position `from` on make, as far as sixty-four bits
/// hold it: a digit that does not fit is left out.
pub open spec fn mantissa_after(text: Seq<char>, from: int, n: int) -> int
    decreases n,
{
    if n <= 0 {
        0
    } else {
        let before = mantissa_after(text, from, n - 1);
        let next = before * 10 + digit_value(text[from + n - 1]);
        if next <= u64::MAX {
            next
        } else {
            before
        }
    }
}

/// How many of the first `n` digits from position `from` on are not left out.
pub open spec fn digits_counted(text: Seq<char>, from: int, n: int) -> int
    decreases n,
{
    if n <= 0 {
        0
    } else {
        digits_counted(text, from, n - 1) + if mantissa_after(text, from, n - 1) * 10
            + digit_value(text[from + n - 1]) <= u64::MAX {
            1int
        } else {
            0int
        }
    }
}

/// From position `from` on there are `n` digits, and more of them count than an exponent of sixteen
/// bits can be lowered.
pub open spec fn lowers_too_far(text: Seq<char>, from: int, n: int) -> bool {
    &&& 0 <= n
    &&& from + n <= text.len()
    &&& forall|k: int| from <= k < from + n ==> is_digit(#[trigger] text[k])
    &&& digits_counted(text, from, n) > 32_768
}

/// At position `at` there is a number whose fraction takes its exponent below what sixteen bits
/// hold: it starts with a zero and a point.
pub open spec fn long_fraction_at(text: Seq<char>, at: int) -> bool {
    &&& 0 <= at < text.len() - 1
    &&& text[at] == '0'
    &&& at > 0 ==> !is_digit(text[at - 1])
    &&& text[at + 1] == '.'
    &&& exists|n: int| #[trigger] lowers_too_far(text, at + 2, n)
}

/// At position `at`, outside of strings, the text holds such a number.
pub open spec fn holds_long_fraction(text: Seq<char>, at: int) -> bool {
    place_after(Place::Outside, text, at) is Outside && long_fraction_at(text, at)
}

/// The text holds such a number outside of strings.
pub open spec fn has_long_fraction(text: Seq<char>) -> bool {
    exists|at: int| #[trigger] holds_long_fraction(text, at)
}

/// The first such number of the text is at position `at`.
pub open spec fn is_first_long_fraction(text: Seq<char>, at: int) -> bool {
    &&& holds_long_fraction(text, at)
    &&& forall|i: int| i < at ==> !#[trigger] holds_long_fraction(text, i)
}

/// The position of the first such number of the text.
pub open spec fn first_long_fraction(text: Seq<char>) -> int {
    choose|at: int| is_first_long_fraction(text, at)
}

/// Whether there is such a number at a position.
fn is_long_fraction(list: &Vec<char>, at: usize) -> (found: bool)
    requires
        at < list@.len(),
    ensures
        found == long_fraction_at(list@, at as int),
{
    let total: usize = list.len();
    if total - at < 2 {
        return false;
    }
    if list[at] != '0' || list[at + 1] != '.' {
        return false;
    }
    if at > 0 && '0' <= list[at - 1] && list[at - 1] <= '9' {
        return false;
    }
    let from: usize = at + 2;
    let mut mantissa: u64 = 0;
    let mut counted: u32 = 0;
    let mut i: usize = from;
    while i < total && '0' <= list[i] && list[i] <= '9'
        invariant
            total == list@.len(),
            from == at + 2,
            from <= i <= total,
            list@[at as int] == '0',
            at > 0 ==> !is_digit(list@[at - 1]),
            list@[at + 1] == '.',
            counted <= 32_768,
            mantissa == mantissa_after(list@, from as int, i - from),
            counted == digits_counted(list@, from as int, i - from),
            forall|k: int| from <= k < i ==> is_digit(#[trigger] list@[k]),
            forall|n: int| 0 <= n <= i - from ==> !#[trigger] lowers_too_far(list@, from as int, n),
        decreases total - i,
    {
        let next: u128 = mantissa as u128 * 10 + (list[i] as u128 - '0' as u128);
        if next <= u64::MAX as u128 {
            mantissa = next as u64;
            counted += 1;
        }
        i += 1;
        assert(i - from - 1 >= 0);
        if counted > 32_768 {
            assert(lowers_too_far(list@, from as int, i - from));
            return true;
        }
    }
    assert forall|n: int| !#[trigger] lowers_too_far(list@, from as int, n) by {
        if lowers_too_far(list@, from as int, n) && n > i - from {
            assert(is_digit(list@[i as int]));
        }
    }
    false
}

/// The position of the first number of the text, outside of strings, whose fraction takes its
/// exponent below what sixteen bits hold.
pub fn find_long_fraction(text: &str) -> (found: Option<usize>)
    ensures
        match found {
            Some(at) => {
                &&& has_long_fraction(text@)
                &&& at == first_long_fraction(text@)
                &&& at + 2 <= usize::MAX
            },
            None => !has_long_fraction(text@),
        },
{
    let list = characters(text);
    let mut place = Place::Outside;
    let mut i: usize = 0;
    while i < list.len()
        invariant
            i <= list@.len(),
            list@ == text@,
            place == place_after(Place::Outside, text@, i as int),
            forall|at: int| at < i ==> !#[trigger] holds_long_fraction(text@, at),
        decreases list@.len() - i,
    {
        if place == Place::Outside && is_long_fraction(&list, i) {
            assert(is_first_long_fraction(text@, i as int));
            assert(holds_long_fraction(text@, first_long_fraction(text@)));
            return Some(i);
        }
        place = place.behind(list[i]);
        i += 1;
    }
    None
}

/// Where there is such a number, there is a first one.
pub proof fn lemma_first_long_fraction(text: Seq<char>)
    requires
        has_long_fraction(text),
    ensures
        is_first_long_fraction(text, first_long_fraction(text)),
{
    let at = choose|at: int| #[trigger] holds_long_fraction(text, at);
    lemma_one_is_first(text, at);
}

proof fn lemma_one_is_first(text: Seq<char>, at: int)
    requires
        holds_long_fraction(text, at),
    ensures
        exists|first: int| is_first_long_fraction(text, first),
    decreases at,
{
    if exists|i: int| i < at && #[trigger] holds_long_fraction(text, i) {
        let i = choose|i: int| i < at && #[trigger] holds_long_fraction(text, i);
        lemma_one_is_first(text, i);
    } else {
        assert(is_first_long_fraction(text, at));
    }
}

/// What stands in front of the digits of the first such number holds none.
proof fn lemma_start_readable(text: Seq<char>, at: int)
    requires
        is_first_long_fraction(text, at),
    ensures
        !has_long_fraction(text.subrange(0, at + 2)),
{
    let start = text.subrange(0, at + 2);
    assert forall|i: int| !#[trigger] holds_long_fraction(start, i) by {
        if holds_long_fraction(start, i) {
            let n = choose|n: int| #[trigger] lowers_too_far(start, i + 2, n);
            assert(start + text.skip(at + 2) =~= text);
            lemma_place_in_first(Place::Outside, start, text.skip(at + 2), i);
            lemma_same_digits(start, text, i + 2, n);
            assert forall|k: int| i + 2 <= k < i + 2 + n implies is_digit(#[trigger] text[k]) by {
                assert(start[k] == text[k]);
            }
            assert(lowers_too_far(text, i + 2, n));
            assert(holds_long_fraction(text, i));
            assert(i >= at);
            assert(n <= 0);
        }
    }
}

/// The same digits count the same.
proof fn lemma_same_digits(a: Seq<char>, b: Seq<char>, from: int, n: int)
    requires
        forall|k: int| from <= k < from + n ==> #[trigger] a[k] == b[k],
    ensures
        mantissa_after(a, from, n) == mantissa_after(b, from, n),
        digits_counted(a, from, n) == digits_counted(b, from, n),
    decreases n,
{
    if n > 0 {
        lemma_same_digits(a, b, from, n - 1);
        assert(a[from + n - 1] == b[from + n - 1]);
    }
}

/// Outside of strings the text holds no zero.
spec fn quiet(start: Place, text: Seq<char>) -> bool {
    forall|i: int|
        0 <= i < text.len() && #[trigger] place_after(start, text, i) is Outside ==> text[i] != '0'
}

/// The places in a text that is put together are those in its parts.
proof fn lemma_place_in_parts(start: Place, a: Seq<char>, b: Seq<char>, n: int)
    requires
        0 <= n <= b.len(),
    ensures
        forall|i: int|
            0 <= i <= a.len() ==> #[trigger] place_after(start, a + b, i) == place_after(
                start,
                a,
                i,
            ),
        place_after(start, a + b, a.len() + n) == place_after(
            place_after(start, a, a.len() as int),
            b,
            n,
        ),
    decreases n,
{
    assert forall|i: int| 0 <= i <= a.len() implies #[trigger] place_after(start, a + b, i)
        == place_after(start, a, i) by {
        lemma_place_in_first(start, a, b, i);
    }
    if n > 0 {
        lemma_place_in_parts(start, a, b, n - 1);
        assert((a + b)[a.len() + n - 1] == b[n - 1]);
    }
}

proof fn lemma_place_in_first(start: Place, a: Seq<char>, b: Seq<char>, n: int)
    requires
        0 <= n <= a.len(),
    ensures
        place_after(start, a + b, n) == place_after(start, a, n),
    decreases n,
{
    if n > 0 {
        lemma_place_in_first(start, a, b, n - 1);
        assert((a + b)[n - 1] == a[n - 1]);
    }
}

/// Two texts without zeros outside of strings make one.
proof fn lemma_quiet_parts(start: Place, a: Seq<char>, b: Seq<char>)
    requires
        quiet(start, a),
        quiet(place_after(start, a, a.len() as int), b),
    ensures
        quiet(start, a + b),
        place_after(start, a + b, (a + b).len() as int) == place_after(
            place_after(start, a, a.len() as int),
            b,
            b.len() as int,
        ),
{
    let middle = place_after(start, a, a.len() as int);
    lemma_place_in_parts(start, a, b, b.len() as int);
    assert forall|i: int|
        0 <= i < (a + b).len() && #[trigger] place_after(start, a + b, i) is Outside implies (a
        + b)[i] != '0' by {
        if i < a.len() {
            assert(place_after(start, a, i) is Outside);
        } else {
            lemma_place_in_parts(start, a, b, i - a.len());
            assert(place_after(middle, b, i - a.len()) is Outside);
            assert((a + b)[i] == b[i - a.len()]);
        }
    }
}

/// A text in quotes.
spec fn quoted(text: Seq<char>) -> Seq<char> {
    seq!['"'] + text + seq!['"']
}

proof fn lemma_inside(text: Seq<char>, n: int)
    requires
        needs_no_escape(text),
        0 <= n <= text.len(),
    ensures
        place_after(Place::Inside, text, n) is Inside,
    decreases n,
{
    if n > 0 {
        lemma_inside(text, n - 1);
        assert(text[n - 1] != '"' && text[n - 1] != '\\');
    }
}

/// What stands between quotes is a string.
proof fn lemma_quoted(text: Seq<char>)
    requires
        needs_no_escape(text),
    ensures
        quiet(Place::Outside, quoted(text)),
        place_after(Place::Outside, quoted(text), quoted(text).len() as int) is Outside,
{
    reveal_with_fuel(place_after, 2);
    let open = seq!['"'];
    assert(place_after(Place::Outside, open, 1) is Inside);
    assert(quiet(Place::Outside, open));
    assert(quiet(Place::Inside, text)) by {
        assert forall|i: int|
            0 <= i < text.len() && #[trigger] place_after(
                Place::Inside,
                text,
                i,
            ) is Outside implies text[i] != '0' by {
            lemma_inside(text, i);
        }
    }
    lemma_inside(text, text.len() as int);
    lemma_quiet_parts(Place::Outside, open, text);
    assert(place_after(Place::Inside, open, 1) is Outside);
    assert(quiet(Place::Inside, open));
    lemma_quiet_parts(Place::Outside, open + text, open);
}

/// A single character that is neither a quote nor a zero.
proof fn lemma_mark(c: char)
    requires
        c != '"',
        c != '0',
    ensures
        quiet(Place::Outside, seq![c]),
        place_after(Place::Outside, seq![c], 1) is Outside,
{
    reveal_with_fuel(place_after, 2);
}

proof fn lemma_members_quiet(members: Seq<(Seq<char>, Seq<char>)>)
    requires
        forall|i: int|
            0 <= i < members.len() ==> needs_no_escape(#[trigger] members[i].0) && needs_no_escape(
                members[i].1,
            ),
    ensures
        quiet(Place::Outside, members_text(members)),
        place_after(
            Place::Outside,
            members_text(members),
            members_text(members).len() as int,
        ) is Outside,
    decreases members.len(),
{
    if members.len() > 0 {
        let (name, value) = members.last();
        assert(needs_no_escape(members[members.len() - 1].0));
        let member = seq!['"'] + name + seq!['"', ':', '"'] + value + seq!['"'];
        assert(member =~= quoted(name) + seq![':'] + quoted(value));
        lemma_quoted(name);
        lemma_quoted(value);
        lemma_mark(':');
        lemma_mark(',');
        lemma_quiet_parts(Place::Outside, quoted(name), seq![':']);
        lemma_quiet_parts(Place::Outside, quoted(name) + seq![':'], quoted(value));
        if members.len() > 1 {
            let rest = members.drop_last();
            assert forall|i: int| 0 <= i < rest.len() implies needs_no_escape(
                #[trigger] rest[i].0,
            ) && needs_no_escape(rest[i].1) by {
                assert(rest[i] == members[i]);
            }
            lemma_members_quiet(rest);
            lemma_quiet_parts(Place::Outside, members_text(rest), seq![',']);
            lemma_quiet_parts(Place::Outside, members_text(rest) + seq![','], member);
        }
    }
}

/// An object whose members need no escape holds no number at all.
pub proof fn lemma_plain_object_readable(members: Seq<(Seq<char>, Seq<char>)>)
    requires
        plain_object(members),
    ensures
        !has_long_fraction(object_text(members)),
{
    let text = object_text(members);
    lemma_members_quiet(members);
    lemma_mark('{');
    lemma_mark('}');
    lemma_quiet_parts(Place::Outside, seq!['{'], members_text(members));
    lemma_quiet_parts(Place::Outside, seq!['{'] + members_text(members), seq!['}']);
    assert forall|at: int| !#[trigger] holds_long_fraction(text, at) by {
        if 0 <= at < text.len() && place_after(Place::Outside, text, at) is Outside {
            assert(text[at] != '0');
        }
    }
}

/// What `json::parse` makes of a text, as far as the named members go: of each member its text,
/// or nothing if the value is no object, has no such member, or has one that is no text. A text
/// that is no JSON value gives the words of the error.
pub uninterp spec fn json_members(payload: Seq<char>, names: Seq<Seq<char>>) -> Result<
    Seq<Option<Seq<char>>>,
    Seq<char>,
>;

/// What a text holds of the named members, or the words of the reason for which it holds none.
/// Where the text has a number that `json` cannot count, the reason is that number, or whatever
/// `json` stumbles over in front of its digits: cut off there, the text lacks nothing but its end,
/// if `json` gets as far as the number.
pub open spec fn members_of(payload: Seq<char>, names: Seq<Seq<char>>) -> Result<
    Seq<Option<Seq<char>>>,
    Seq<char>,
> {
    if has_long_fraction(payload) {
        match json_members(payload.subrange(0, first_long_fraction(payload) + 2), names) {
            Err(reason) if reason != "Unexpected end of JSON"@ => Err(reason),
            _ => Err("Number out of range"@),
        }
    } else {
        json_members(payload, names)
    }
}

/// Reads the named members of a text.
pub fn read_members(payload: &str, names: &Vec<&str>) -> (result: Result<
    Vec<Option<String>>,
    String,
>)
    ensures
        members_view(result) == members_of(payload@, name_texts(names@)),
        result matches Ok(members) ==> members@.len() == names@.len(),
        reads_object(payload@, name_texts(names@), members_view(result)),
{
    proof {
        assert forall|members: Seq<(Seq<char>, Seq<char>)>|
            plain_object(members) && payload@ == #[trigger] object_text(
                members,
            ) implies !has_long_fraction(payload@) by {
            lemma_plain_object_readable(members);
        }
    }
    let at = match find_long_fraction(payload) {
        Some(at) => at,
        None => {
            return text_members(payload, names);
        },
    };
    proof {
        lemma_first_long_fraction(payload@);
        lemma_start_readable(payload@, at as int);
    }
    match text_members(payload.substring_char(0, at + 2), names) {
        Err(reason) if !same(reason.as_str(), "Unexpected end of JSON") => Err(reason),
        _ => Err("Number out of range".to_owned()),
    }
}

/// Parses `payload` with `json::parse` and reads each of the named members with the index
/// operator of `json::JsonValue` and `as_str`. A text that is no JSON value gives the words of
/// the `json::Error`.
///
/// Trusted of `json`: the result depends on the text and the names alone, there is one entry for
/// each name, and an object whose members need no escape comes back in exactly those members. Of
/// other texts nothing more is stated. A text with a number whose exponent `json::number::Number`
/// cannot count is left out.
#[verifier::external_body]
fn text_members(payload: &str, names: &Vec<&str>) -> (result: Result<
    Vec<Option<String>>,
    String,
>)
    requires
        !has_long_fraction(payload@),
    ensures
        members_view(result) == json_members(payload@, name_texts(names@)),
        result matches Ok(members) ==> members@.len() == names@.len(),
        reads_object(payload@, name_texts(names@), members_view(result)),
{
    let value = json::parse(payload).map_err(|error| error.to_string())?;
    Ok(names.iter().map(|name| value[*name].as_str().map(String::from)).collect())
}

} // verus!
