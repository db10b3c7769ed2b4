//! Where files are kept: paths, and the folders under the user's data directory.
use crate::filename;
use crate::protocol;
use std::path::PathBuf;
use vstd::prelude::*;

verus! {

/// A path of the standard library.
#[verifier::external_type_specification]
#[verifier::external_body]
pub struct ExPathBuf(std::path::PathBuf);

/// `Clone` of [`PathBuf`]: the same path again.
pub assume_specification[ <PathBuf as Clone>::clone ](path: &PathBuf) -> (r: PathBuf)
    ensures
        r == *path,
;

/// The path that a text spells: what [`PathBuf::from`] makes of it.
pub uninterp spec fn path_of(text: Seq<char>) -> PathBuf;

/// The path of `name` under `parent`: what `Path::join` makes of them.
pub uninterp spec fn path_under(parent: PathBuf, name: Seq<char>) -> PathBuf;

/// [`PathBuf::from`] of a text: the path that it spells.
#[verifier::external_body]
pub(crate) fn path_from(text: &str) -> (path: PathBuf)
    ensures
        path == path_of(text@),
{
    PathBuf::from(text)
}

/// Whether a text is one part of a path on every system: a plain name without a colon, which
/// could name a drive.
pub open spec fn is_part(name: Seq<char>) -> bool {
    &&& filename::is_plain_name(name)
    &&& forall|i: int| 0 <= i < name.len() ==> #[trigger] name[i] != ':'
}

/// Whether every text of a list is one part of a path.
pub open spec fn all_parts(names: Seq<Seq<char>>) -> bool {
    forall|i: int| 0 <= i < names.len() ==> is_part(#[trigger] names[i])
}

/// The path that is reached from `start` by going down through `below`, name by name.
pub open spec fn descend(start: PathBuf, below: Seq<Seq<char>>) -> PathBuf
    decreases below.len(),
{
    if below.len() == 0 {
        start
    } else {
        path_under(descend(start, below.drop_last()), below.last())
    }
}

/// Whether `path` is none of the paths that lie beside `name` under `parent`, nor anywhere
/// below one of those.
pub open spec fn apart_from_siblings(path: PathBuf, parent: PathBuf, name: Seq<char>) -> bool {
    forall|other: Seq<char>, below: Seq<Seq<char>>|
        is_part(other) && other != name && all_parts(below) ==> path != #[trigger] descend(
            path_under(parent, other),
            below,
        )
}

/// `Path::join`: the path of `name` under `parent`. Which one that is depends on the two
/// alone. A name that is one part of a path is adjoined to the parent as it stands, so the
/// path differs from that of every other such name under the same parent, and from every
/// path that is reached through one.
#[verifier::external_body]
pub(crate) fn join(parent: &PathBuf, name: &str) -> (path: PathBuf)
    ensures
        path == path_under(*parent, name@),
        is_part(name@) ==> apart_from_siblings(path, *parent, name@),
{
    parent.join(name)
}

/// The final part of a path as text, if it has one: what `Path::file_name` makes of it, with
/// what is no Unicode replaced.
pub uninterp spec fn file_name_of(path: PathBuf) -> Option<Seq<char>>;

/// `Path::file_name`: the final part of the path, as text. Which one that is depends on the
/// path alone.
#[verifier::external_body]
pub(crate) fn file_name(path: &PathBuf) -> (name: Option<String>)
    ensures
        protocol::opt_view(name) == file_name_of(*path),
{
    path.file_name().map(|name| name.to_string_lossy().into_owned())
}

/// Whether `dirs` may name this as the user's data directory.
pub uninterp spec fn may_be_data_dir(dir: Option<PathBuf>) -> bool;

/// [`dirs::data_dir`]: the user's data directory, where the system names one. Which one
/// that is depends on the system and on the environment; what is said is that it is one that
/// `dirs` may name.
#[verifier::external_body]
fn user_data_dir() -> (dir: Option<PathBuf>)
    ensures
        may_be_data_dir(dir),
{
    dirs::data_dir()
}

/// The data directory of WaterDrop, for the user's data directory. Where there is none,
/// it lies in the current directory.
pub open spec fn data_dir_in(base: Option<PathBuf>) -> PathBuf {
    path_under(
        match base {
            Some(dir) => dir,
            None => path_of("."@),
        },
        "waterdrop"@,
    )
}

/// The data directory of WaterDrop, for the user's data directory.
pub fn data_dir_under(base: Option<PathBuf>) -> (dir: PathBuf)
    ensures
        dir == data_dir_in(base),
{
    let base = match base {
        Some(dir) => dir,
        None => path_from("."),
    };
    join(&base, "waterdrop")
}

/// The data directory of WaterDrop.
///
/// On Linux `~/.local/share/waterdrop`, on macOS `~/Library/Application
/// Support/waterdrop`, on Windows `%APPDATA%/waterdrop`.
pub fn data_dir_path() -> (dir: PathBuf)
    ensures
        exists|base: Option<PathBuf>| may_be_data_dir(base) && dir == #[trigger] data_dir_in(base),
{
    data_dir_under(user_data_dir())
}

/// What lies in the data directory, by name.
pub open spec fn data_names() -> Seq<Seq<char>> {
    seq!["devices.json"@, "config.json"@, "cert"@, "trusted"@, "received"@]
}

/// The path of one of those, for the user's data directory.
pub open spec fn data_path_in(base: Option<PathBuf>, i: int) -> PathBuf {
    path_under(data_dir_in(base), data_names()[i])
}

/// Whether a path lies inside another: it is reached from it by going down.
pub open spec fn lies_inside(path: PathBuf, outer: PathBuf) -> bool {
    exists|below: Seq<Seq<char>>|
        below.len() > 0 && all_parts(below) && path == #[trigger] descend(outer, below)
}

/// Whether a path is none of the others in the data directory and lies inside none of them.
pub open spec fn lies_apart(path: PathBuf, base: Option<PathBuf>, i: int) -> bool {
    forall|j: int|
        0 <= j < data_names().len() && j != i ==> path != #[trigger] data_path_in(base, j)
            && !lies_inside(path, data_path_in(base, j))
}

/// What lies in the data directory lies there directly, each under a name of its own.
pub proof fn law_data_names_are_plain_and_differ(i: int, j: int)
    requires
        0 <= i < data_names().len(),
        0 <= j < data_names().len(),
        i != j,
    ensures
        is_part(data_names()[i]),
        is_part(data_names()[j]),
        data_names()[i] != data_names()[j],
{
    reveal_strlit("devices.json");
    reveal_strlit("config.json");
    reveal_strlit("cert");
    reveal_strlit("trusted");
    reveal_strlit("received");
    reveal_strlit(".");
    reveal_strlit("..");
    assert(data_names()[0].len() == 12);
    assert(data_names()[1].len() == 11);
    assert(data_names()[2].len() == 4);
    assert(data_names()[3].len() == 7);
    assert(data_names()[4].len() == 8);
}

proof fn lemma_lies_apart(path: PathBuf, base: Option<PathBuf>, i: int)
    requires
        0 <= i < data_names().len(),
        apart_from_siblings(path, data_dir_in(base), data_names()[i]),
    ensures
        lies_apart(path, base, i),
{
    assert forall|j: int| 0 <= j < data_names().len() && j != i implies path
        != #[trigger] data_path_in(base, j) && !lies_inside(path, data_path_in(base, j)) by {
        law_data_names_are_plain_and_differ(i, j);
        let none = Seq::<Seq<char>>::empty();
        assert(all_parts(none));
        assert(descend(data_path_in(base, j), none) == data_path_in(base, j));
    }
}

/// The paths in the data directory differ, and none lies inside another: of any two of them,
/// as the functions of this module give them for one data directory.
pub proof fn law_data_paths_lie_apart(
    base: Option<PathBuf>,
    i: int,
    j: int,
    first: PathBuf,
    second: PathBuf,
)
    requires
        0 <= i < data_names().len(),
        0 <= j < data_names().len(),
        i != j,
        first == data_path_in(base, i) && lies_apart(first, base, i),
        second == data_path_in(base, j) && lies_apart(second, base, j),
    ensures
        first != second,
        !lies_inside(first, second),
        !lies_inside(second, first),
{
}

/// The file in which the saved devices are kept, for the user's data directory.
pub fn devices_file_under(base: Option<PathBuf>) -> (path: PathBuf)
    ensures
        path == path_under(data_dir_in(base), "devices.json"@),
        lies_apart(path, base, 0),
{
    let path = join(&data_dir_under(base), "devices.json");
    proof {
        assert(data_names()[0] == "devices.json"@);
        law_data_names_are_plain_and_differ(0, 1);
        lemma_lies_apart(path, base, 0);
    }
    path
}

/// The file in which the saved devices are kept.
pub fn devices_file_path() -> (path: PathBuf)
    ensures
        exists|base: Option<PathBuf>|
            may_be_data_dir(base) && path == path_under(#[trigger] data_dir_in(base), "devices.json"@)
                && lies_apart(path, base, 0),
{
    let base = user_data_dir();
    let ghost dir = base;
    let path = devices_file_under(base);
    assert(path == path_under(data_dir_in(dir), "devices.json"@));
    path
}

/// The file in which the configuration is kept, for the user's data directory.
pub fn config_file_under(base: Option<PathBuf>) -> (path: PathBuf)
    ensures
        path == path_under(data_dir_in(base), "config.json"@),
        lies_apart(path, base, 1),
{
    let path = join(&data_dir_under(base), "config.json");
    proof {
        assert(data_names()[1] == "config.json"@);
        law_data_names_are_plain_and_differ(1, 2);
        lemma_lies_apart(path, base, 1);
    }
    path
}

/// The file in which the configuration is kept.
pub fn config_file_path() -> (path: PathBuf)
    ensures
        exists|base: Option<PathBuf>|
            may_be_data_dir(base) && path == path_under(#[trigger] data_dir_in(base), "config.json"@)
                && lies_apart(path, base, 1),
{
    let base = user_data_dir();
    let ghost dir = base;
    let path = config_file_under(base);
    assert(path == path_under(data_dir_in(dir), "config.json"@));
    path
}

/// The folder of the certificate that this device shows, for the user's data directory.
pub fn cert_dir_under(base: Option<PathBuf>) -> (path: PathBuf)
    ensures
        path == path_under(data_dir_in(base), "cert"@),
        lies_apart(path, base, 2),
{
    let path = join(&data_dir_under(base), "cert");
    proof {
        assert(data_names()[2] == "cert"@);
        law_data_names_are_plain_and_differ(2, 3);
        lemma_lies_apart(path, base, 2);
    }
    path
}

/// The folder of the certificate that this device shows.
pub fn cert_dir() -> (path: PathBuf)
    ensures
        exists|base: Option<PathBuf>|
            may_be_data_dir(base) && path == path_under(#[trigger] data_dir_in(base), "cert"@)
                && lies_apart(path, base, 2),
{
    let base = user_data_dir();
    let ghost dir = base;
    let path = cert_dir_under(base);
    assert(path == path_under(data_dir_in(dir), "cert"@));
    path
}

/// The folder of the certificate fingerprints that this device trusts, for the user's data directory.
pub fn trust_store_under(base: Option<PathBuf>) -> (path: PathBuf)
    ensures
        path == path_under(data_dir_in(base), "trusted"@),
        lies_apart(path, base, 3),
{
    let path = join(&data_dir_under(base), "trusted");
    proof {
        assert(data_names()[3] == "trusted"@);
        law_data_names_are_plain_and_differ(3, 4);
        lemma_lies_apart(path, base, 3);
    }
    path
}

/// The folder of the certificate fingerprints that this device trusts.
pub fn trust_store_dir() -> (path: PathBuf)
    ensures
        exists|base: Option<PathBuf>|
            may_be_data_dir(base) && path == path_under(#[trigger] data_dir_in(base), "trusted"@)
                && lies_apart(path, base, 3),
{
    let base = user_data_dir();
    let ghost dir = base;
    let path = trust_store_under(base);
    assert(path == path_under(data_dir_in(dir), "trusted"@));
    path
}

/// The folder in which received files are stored, for the user's data directory.
pub fn receive_dir_under(base: Option<PathBuf>) -> (path: PathBuf)
    ensures
        path == path_under(data_dir_in(base), "received"@),
        lies_apart(path, base, 4),
{
    let path = join(&data_dir_under(base), "received");
    proof {
        assert(data_names()[4] == "received"@);
        law_data_names_are_plain_and_differ(4, 0);
        lemma_lies_apart(path, base, 4);
    }
    path
}

/// The folder in which received files are stored.
pub fn receive_dir() -> (path: PathBuf)
    ensures
        exists|base: Option<PathBuf>|
            may_be_data_dir(base) && path == path_under(#[trigger] data_dir_in(base), "received"@)
                && lies_apart(path, base, 4),
{
    let base = user_data_dir();
    let ghost dir = base;
    let path = receive_dir_under(base);
    assert(path == path_under(data_dir_in(dir), "received"@));
    path
}

/// The folders that must be there before the engine runs, outermost first: the data
/// directory itself, then those for the certificate, the trusted fingerprints and the
/// received files.
pub fn required_dirs(data_dir: &PathBuf) -> (dirs: Vec<PathBuf>)
    ensures
        dirs@ == seq![
            *data_dir,
            path_under(*data_dir, "cert"@),
            path_under(*data_dir, "trusted"@),
            path_under(*data_dir, "received"@),
        ],
{
    let mut dirs: Vec<PathBuf> = Vec::new();
    dirs.push(data_dir.clone());
    dirs.push(join(data_dir, "cert"));
    dirs.push(join(data_dir, "trusted"));
    dirs.push(join(data_dir, "received"));
    dirs
}

/// The data directory is the folder `waterdrop` in the user's, or in the current one where the
/// system names none.
pub proof fn law_data_directory_is_the_users(dir: PathBuf)
    ensures
        data_dir_in(Some(dir)) == path_under(dir, "waterdrop"@),
        data_dir_in(None) == path_under(path_of("."@), "waterdrop"@),
{
}

} // verus!
