//! The files that are built into the program, as `include_dir` holds them.

use vstd::prelude::*;
use vstd::string::*;
use vstd::utf8::*;

verus! {

/// `include_dir::Dir`: a directory that was embedded at build time.
#[verifier::external_type_specification]
#[verifier::external_body]
pub struct ExDir<'a>(include_dir::Dir<'a>);

/// `include_dir::File`: one embedded file, with its path and its bytes.
#[verifier::external_type_specification]
#[verifier::external_body]
pub struct ExFile<'a>(include_dir::File<'a>);

/// The files that stand directly in a directory, in the order in which the
/// directory lists them. Files of its subdirectories are not among them.
pub uninterp spec fn files_of(dir: include_dir::Dir<'_>) -> Seq<include_dir::File<'_>>;

/// The path of an embedded file.
pub uninterp spec fn path_of(file: include_dir::File<'_>) -> Seq<char>;

/// The bytes of an embedded file.
pub uninterp spec fn bytes_of(file: include_dir::File<'_>) -> Seq<u8>;

/// The text of an embedded file, where its bytes are valid UTF-8.
pub open spec fn text_of(file: include_dir::File<'_>) -> Option<Seq<char>> {
    if valid_utf8(bytes_of(file)) {
        Some(decode_utf8(bytes_of(file)))
    } else {
        None
    }
}

/// Calls `Dir::files` and collects what it yields: the files directly in the
/// directory, in its order.
#[verifier::external_body]
pub(crate) fn list_files<'a>(dir: &include_dir::Dir<'a>) -> (r: Vec<&'a include_dir::File<'a>>)
    ensures
        r@.len() == files_of(*dir).len(),
        forall|i: int| 0 <= i < r@.len() ==> *#[trigger] r@[i] == files_of(*dir)[i],
{
    dir.files().collect()
}

/// Calls `File::path` and writes the path out as a string. `include_dir` keeps
/// the path as a string, so nothing is lost.
#[verifier::external_body]
pub(crate) fn file_path(file: &include_dir::File<'_>) -> (r: String)
    ensures
        r@ == path_of(*file),
{
    file.path().display().to_string()
}

/// Calls `File::contents_utf8`: the file's bytes read as UTF-8, or nothing
/// where they are not valid UTF-8.
#[verifier::external_body]
pub(crate) fn file_text<'a>(file: &'a include_dir::File<'_>) -> (r: Option<&'a str>)
    ensures
        match r {
            Some(s) => valid_utf8(bytes_of(*file)) && s@ == decode_utf8(bytes_of(*file)),
            None => !valid_utf8(bytes_of(*file)),
        },
{
    file.contents_utf8()
}

/// Whether a path names a file with the extension `json`: the path ends in
/// `.json`, and the dot is not the first character of the file's name, which is
/// what follows the last `/`. Upper and lower case differ.
pub open spec fn is_json_path(path: Seq<char>) -> bool {
    let n = path.len() as int;
    &&& n >= 6
    &&& path.subrange(n - 5, n) == ".json"@
    &&& path[n - 6] != '/'
}

/// Tells whether a path names a file with the extension `json`.
pub fn has_json_extension(path: &str) -> (r: bool)
    ensures
        r == is_json_path(path@),
{
    let n: usize = path.unicode_len();
    if n < 6 {
        return false;
    }
    let dotted = path.get_char(n - 5) == '.' && path.get_char(n - 4) == 'j' && path.get_char(n - 3)
        == 's' && path.get_char(n - 2) == 'o' && path.get_char(n - 1) == 'n';
    proof {
        reveal_strlit(".json");
        let tail = path@.subrange(n - 5, n as int);
        if dotted {
            assert(tail =~= ".json"@);
        } else {
            assert(tail[0] == path@[n - 5]);
            assert(tail[1] == path@[n - 4]);
            assert(tail[2] == path@[n - 3]);
            assert(tail[3] == path@[n - 2]);
            assert(tail[4] == path@[n - 1]);
        }
    }
    dotted && path.get_char(n - 6) != '/'
}

} // verus!
