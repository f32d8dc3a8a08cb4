//! The sockets through which media travel between two processes.

use crate::text::join3;
use crate::text::opt_text;
use vstd::prelude::*;

verus! {

/// A digit of a number to the base sixteen, in lower case.
pub open spec fn is_hex_digit(c: char) -> bool {
    '0' <= c <= '9' || 'a' <= c <= 'f'
}

/// The text is a random identifier: groups of eight, four, four, four and twelve digits to the
/// base sixteen with hyphens in between, where the third group starts with the digit four, and the
/// fourth with a digit from eight to eleven.
pub open spec fn is_random_id(text: Seq<char>) -> bool {
    &&& text.len() == 36
    &&& text[14] == '4'
    &&& text[19] == '8' || text[19] == '9' || text[19] == 'a' || text[19] == 'b'
    &&& forall|i: int|
        0 <= i < 36 ==> if i == 8 || i == 13 || i == 18 || i == 23 {
            #[trigger] text[i] == '-'
        } else {
            is_hex_digit(text[i])
        }
}

/// Draws an identifier with `uuid::Uuid::new_v4` and writes it down as `Display` of `uuid::Uuid`
/// does.
///
/// Trusted of `uuid`: the text has the shape of a random identifier. Which one it is, is left to
/// chance.
#[verifier::external_body]
fn random_id() -> (id: String)
    ensures
        is_random_id(id@),
{
    uuid::Uuid::new_v4().to_string()
}

/// The name of the file of the socket with this identifier.
pub open spec fn socket_file_text(id: Seq<char>) -> Seq<char> {
    "opentok-"@ + id + "-socket"@
}

/// The name of the file of the socket with this identifier.
pub fn socket_file(id: &str) -> (name: String)
    ensures
        name@ == socket_file_text(id@),
{
    join3("opentok-", id, "-socket")
}

/// The name of the file of a new socket.
pub fn new_socket_file() -> (name: String)
    ensures
        exists|id: Seq<char>| is_random_id(id) && name@ == #[trigger] socket_file_text(id),
        is_file(name@),
{
    let id = random_id();
    let name = socket_file(id.as_str());
    proof {
        lemma_socket_file_is_file(id@);
    }
    name
}

/// The name of the file of a socket is one on every system.
pub proof fn lemma_socket_file_is_file(id: Seq<char>)
    requires
        is_random_id(id),
    ensures
        is_file(socket_file_text(id)),
{
    reveal_strlit("opentok-");
    reveal_strlit("-socket");
    let name = socket_file_text(id);
    assert(name.len() == 51);
    assert forall|i: int| 0 <= i < name.len() implies #[trigger] name[i] != '/' && name[i]
        != '\\' by {
        if 8 <= i < 44 {
            assert(name[i] == id[i - 8]);
        }
    }
}

/// A path that every system reads alike: it holds no backslash, and starts neither with two slashes
/// nor with a drive, which has a colon in the second place.
pub open spec fn is_common_path(path: Seq<char>) -> bool {
    &&& forall|i: int| 0 <= i < path.len() ==> #[trigger] path[i] != '\\'
    &&& !(path.len() >= 2 && path[0] == '/' && path[1] == '/')
    &&& !(path.len() >= 2 && path[1] == ':')
}

/// The text can be the name of a file on every system: it is not empty, holds no separator, and
/// stands for no directory.
pub open spec fn is_file(text: Seq<char>) -> bool {
    &&& forall|i: int|
        0 <= i < text.len() ==> #[trigger] text[i] != '/' && text[i] != '\\'
    &&& text.len() > 0
    &&& text != seq!['.']
    &&& text != seq!['.', '.']
}

/// The path of a file in a directory.
pub open spec fn path_of(directory: Seq<char>, file: Seq<char>) -> Seq<char> {
    directory + seq!['/'] + file
}

/// The path without the slashes at its end, and the parts there that are a single dot behind a
/// slash.
pub open spec fn stripped(path: Seq<char>) -> Seq<char>
    decreases path.len(),
{
    if path.len() > 0 && path.last() == '/' {
        stripped(path.drop_last())
    } else if path.len() > 1 && path.last() == '.' && path[path.len() - 2] == '/' {
        stripped(path.drop_last())
    } else {
        path
    }
}

/// What stands behind the last slash of a path.
pub open spec fn behind_last_slash(path: Seq<char>) -> Seq<char>
    decreases path.len(),
{
    if path.len() == 0 || path.last() == '/' {
        Seq::empty()
    } else {
        behind_last_slash(path.drop_last()).push(path.last())
    }
}

/// The last part of a path, apart from slashes and single dots at its end: there is none, if
/// nothing is left, or the current directory is or the way up.
pub open spec fn last_part(path: Seq<char>) -> Option<Seq<char>> {
    let part = behind_last_slash(stripped(path));
    if part.len() == 0 || part == seq!['.'] || part == seq!['.', '.'] {
        None
    } else {
        Some(part)
    }
}

/// `name` is the last part of the path, if every system reads the path alike.
pub open spec fn reads_last_part(path: Seq<char>, name: Option<Seq<char>>) -> bool {
    is_common_path(path) ==> name == last_part(path)
}

/// `name` is the last part of the path, if every system reads the path alike. The path of a file
/// in a directory has the file as its last part.
pub open spec fn names_last_part(path: Seq<char>, name: Option<Seq<char>>) -> bool {
    &&& reads_last_part(path, name)
    &&& forall|directory: Seq<char>, file: Seq<char>|
        is_common_path(path) && is_file(file) && path == #[trigger] path_of(directory, file)
            ==> name == Some(file)
}

/// The last part of the path of a file in a directory is the file.
pub proof fn lemma_last_part_of_file(directory: Seq<char>, file: Seq<char>)
    requires
        is_file(file),
    ensures
        stripped(path_of(directory, file)) == path_of(directory, file),
        last_part(path_of(directory, file)) == Some(file),
{
    let path = path_of(directory, file);
    let at = directory.len() as int;
    assert(path[at] == '/');
    assert forall|i: int| 0 <= i < file.len() implies #[trigger] file[i] == path[at + 1 + i] by {}
    assert(path.last() == file.last());
    assert(file.last() == file[file.len() - 1]);
    if path.last() == '.' && path[path.len() - 2] == '/' {
        if file.len() > 1 {
            assert(path[path.len() - 2] == file[file.len() - 2]);
        } else {
            assert(file =~= seq!['.']);
        }
        assert(false);
    }
    lemma_behind_last_slash(directory, file);
}

/// What stands behind the slash in front of a text without slashes is that text.
proof fn lemma_behind_last_slash(directory: Seq<char>, file: Seq<char>)
    requires
        forall|i: int| 0 <= i < file.len() ==> #[trigger] file[i] != '/',
    ensures
        behind_last_slash(path_of(directory, file)) == file,
    decreases file.len(),
{
    let path = path_of(directory, file);
    if file.len() == 0 {
        assert(path.last() == '/');
        assert(file =~= Seq::empty());
    } else {
        let rest = file.drop_last();
        assert(path.drop_last() =~= path_of(directory, rest));
        assert(path.last() == file[file.len() - 1]);
        assert forall|i: int| 0 <= i < rest.len() implies #[trigger] rest[i] != '/' by {
            assert(rest[i] == file[i]);
        }
        lemma_behind_last_slash(directory, rest);
        assert(file =~= rest.push(file.last()));
    }
}

/// The last part of a path, found with `std::path::Path::file_name`.
///
/// Trusted of `std`: the final component of a path is what stands behind its last separator, where
/// separators at the end and single dots behind a separator do not count; there is none, if nothing
/// is left, or the path ends with the current directory or the way up. Nothing is said of a path
/// that holds a backslash, or starts with two slashes or a drive, which is not read alike on every
/// system.
#[verifier::external_body]
fn file_name(path: &str) -> (name: Option<String>)
    ensures
        reads_last_part(path@, opt_text(name)),
{
    std::path::Path::new(path).file_name().and_then(|name| name.to_str()).map(String::from)
}

/// The name of the file of the socket at this path, if the path has a last part. Nothing is said of
/// a path that is not read alike on every system.
pub fn socket_name(path: &str) -> (name: Option<String>)
    ensures
        names_last_part(path@, opt_text(name)),
{
    let name = file_name(path);
    proof {
        assert forall|directory: Seq<char>, file: Seq<char>|
            is_common_path(path@) && is_file(file) && path@ == #[trigger] path_of(
                directory,
                file,
            ) implies opt_text(name) == Some(file) by {
            lemma_last_part_of_file(directory, file);
        }
    }
    name
}

} // verus!
