//! Folder links of Google Drive and the source descriptor of a copy.

use crate::text::{
    find_either, find_text, first_index, first_index_either, first_occurrence, slice_text,
    to_chars,
};
use vstd::prelude::*;

verus! {

/// Path segment that precedes the folder identifier in a folder link.
pub const FOLDERS_MARKER: &'static str = "/folders/";

/// Query parameter that precedes the folder identifier in an `id=` link.
pub const ID_MARKER: &'static str = "id=";

/// The folder identifier that `source` names. After the first `/folders/` it
/// runs to the next `/` or `?`; failing that, after the first `id=` it runs to
/// the next `&`; in both cases to the end where no such character follows. A
/// source with neither marker is taken to be the identifier itself.
pub open spec fn gdrive_id(source: Seq<char>) -> Seq<char> {
    let folders = first_occurrence(source, FOLDERS_MARKER@);
    let id = first_occurrence(source, ID_MARKER@);
    if folders >= 0 {
        let rest = source.skip(folders + FOLDERS_MARKER@.len());
        rest.take(first_index_either(rest, '/', '?'))
    } else if id >= 0 {
        let rest = source.skip(id + ID_MARKER@.len());
        rest.take(first_index(rest, '&'))
    } else {
        source
    }
}

/// The source descriptor of a copy job: the remote, with the root folder set
/// on the fly.
pub open spec fn source_fs_text(remote: Seq<char>, root_id: Seq<char>) -> Seq<char> {
    remote + ",root_folder_id="@ + root_id + ":"@
}

/// The characters of `source` after index `from`, up to the first `a` or `b`.
fn take_until(source: &str, chars: &Vec<char>, from: usize, a: char, b: char) -> (r: String)
    requires
        chars@ == source@,
        from <= chars@.len(),
    ensures
        r@ == source@.skip(from as int).take(
            first_index_either(source@.skip(from as int), a, b),
        ),
{
    let n = find_either(chars, from, a, b);
    let r = slice_text(source, from, from + n);
    assert(source@.subrange(from as int, from + n) == source@.skip(from as int).take(n as int));
    r
}

/// Reads the folder identifier out of a link or takes `source` as the
/// identifier.
pub fn parse_gdrive_id(source: &str) -> (id: String)
    ensures
        id@ == gdrive_id(source@),
{
    let chars = to_chars(source);
    let folders = to_chars(FOLDERS_MARKER);
    if let Some(at) = find_text(&chars, &folders) {
        return take_until(source, &chars, at + folders.len(), '/', '?');
    }
    let id = to_chars(ID_MARKER);
    if let Some(at) = find_text(&chars, &id) {
        return take_until(source, &chars, at + id.len(), '&', '&');
    }
    source.to_owned()
}

/// Builds the source descriptor of a copy job.
pub fn source_fs(remote_name: &str, root_id: &str) -> (fs: String)
    ensures
        fs@ == source_fs_text(remote_name@, root_id@),
{
    let mut fs = remote_name.to_owned();
    fs.append(",root_folder_id=");
    fs.append(root_id);
    fs.append(":");
    fs
}

} // verus!
