//! The file that remembers which devices were published.

use crate::text::{text_of, texts};
use vstd::prelude::*;
use vstd::utf8::{decode_utf8, valid_utf8};

verus! {

/// The name of the cache file.
pub const CACHE_FILE: &'static str = ".published-device-ids.json";

// ---------------------------------------------------------------------------------------------
// Contents
// ---------------------------------------------------------------------------------------------

/// The pretty-printed JSON document of a list of texts, as `serde_json::to_vec_pretty` writes it.
pub uninterp spec fn list_document(list: Seq<Seq<char>>) -> Seq<u8>;

/// The list of texts that a JSON document holds, as `serde_json::from_str` reads it; none where
/// the document is no such list.
pub uninterp spec fn listed(document: Seq<char>) -> Option<Seq<Seq<char>>>;

/// Calls `serde_json::to_vec_pretty`. Claims that a list of texts can always be written, that the
/// document depends on the texts alone and is UTF-8, and that `serde_json::from_str` reads the
/// same list back.
#[verifier::external_body]
fn write_list(list: &Vec<String>) -> (document: Result<Vec<u8>, serde_json::Error>)
    ensures
        document is Ok,
        document->Ok_0@ == list_document(texts(list@)),
        valid_utf8(document->Ok_0@),
        listed(decode_utf8(document->Ok_0@)) == Some(texts(list@)),
{
    serde_json::to_vec_pretty(list)
}

/// Calls `serde_json::from_str` for a list of texts. Claims that the result depends on the text
/// of the document alone.
#[verifier::external_body]
fn read_list(document: &str) -> (list: Result<Vec<String>, serde_json::Error>)
    ensures
        match list {
            Ok(list) => listed(document@) == Some(texts(list@)),
            Err(_) => listed(document@) is None,
        },
{
    serde_json::from_str(document)
}

/// The error type of `serde_json`, of which nothing is known.
#[verifier::external_type_specification]
#[verifier::external_body]
pub struct ExSerdeJsonError(serde_json::Error);

/// The document that lists the given ids. What it lists is read back from its text.
pub fn encode(ids: &Vec<String>) -> (document: Vec<u8>)
    ensures
        document@ == list_document(texts(ids@)),
        valid_utf8(document@),
        cached(Some(decode_utf8(document@))) == texts(ids@),
{
    match write_list(ids) {
        Ok(document) => document,
        Err(_) => Vec::new(),
    }
}

/// The ids that a cache file lists, given its text where it could be read. A file that is not
/// there or holds something else lists none.
pub fn load_cache(text: Option<&str>) -> (ids: Vec<String>)
    ensures
        texts(ids@) == cached(
            match text {
                Some(text) => Some(text@),
                None => None,
            },
        ),
{
    let ids = match text {
        Some(text) => match read_list(text) {
            Ok(ids) => ids,
            Err(_) => Vec::new(),
        },
        None => Vec::new(),
    };
    assert(ids@.len() == 0 ==> texts(ids@) =~= Seq::<Seq<char>>::empty());
    ids
}

/// The ids that the text of a cache file stands for.
pub open spec fn cached(text: Option<Seq<char>>) -> Seq<Seq<char>> {
    match text {
        Some(text) => match listed(text) {
            Some(ids) => ids,
            None => Seq::empty(),
        },
        None => Seq::empty(),
    }
}

// ---------------------------------------------------------------------------------------------
// Place
// ---------------------------------------------------------------------------------------------

/// Whether a name is one component of a path on every platform.
pub open spec fn is_file_name(name: Seq<char>) -> bool {
    &&& name.len() > 0
    &&& !name.contains('/')
    &&& !name.contains('\\')
    &&& !name.contains(':')
}

/// Whether a directory is written so that a slash and a file name can follow on every platform:
/// no drive, no share, and no separator or superfluous `/.` at its end.
pub open spec fn is_plain_dir(dir: Seq<char>) -> bool {
    &&& dir.len() > 0
    &&& !dir.contains('\\')
    &&& !(dir.len() > 1 && dir[1] == ':')
    &&& dir.last() != '/'
    &&& !(dir.len() > 1 && dir[dir.len() - 2] == '/' && dir.last() == '.')
    &&& !(dir[0] == '/' && dir.len() > 1 && dir[1] == '/')
}

/// Whether a path is read alike on every platform: no drive, no share, no backslash.
pub open spec fn is_plain_path(path: Seq<char>) -> bool {
    &&& !path.contains('\\')
    &&& !(path.len() > 1 && path[1] == ':')
    &&& !(path.len() > 1 && path[0] == '/' && path[1] == '/')
}

/// A path without the slashes and the components `.` at its end, which say nothing. A path that is
/// only the root or only `.` stays.
pub open spec fn trimmed(path: Seq<char>) -> Seq<char>
    decreases path.len(),
{
    if path.len() > 1 && (path.last() == '/' || (path.last() == '.' && path[path.len() - 2]
        == '/')) {
        trimmed(path.drop_last())
    } else {
        path
    }
}

/// A path up to and with its last slash.
pub open spec fn up_to_slash(path: Seq<char>) -> Seq<char>
    decreases path.len(),
{
    if path.len() == 0 || path.last() == '/' {
        path
    } else {
        up_to_slash(path.drop_last())
    }
}

/// The parent of a plain path: the path without its last component, if it has one. The root and
/// the empty path have none.
pub open spec fn plain_parent(path: Seq<char>) -> Option<Seq<char>> {
    if trimmed(path).len() == 0 || trimmed(path) == "/"@ {
        None
    } else {
        Some(trimmed(up_to_slash(trimmed(path))))
    }
}

/// What holds of the parent of a path on every platform.
pub open spec fn is_parent(path: Seq<char>, parent: Option<Seq<char>>) -> bool {
    &&& parent matches Some(dir) ==> dir.len() < path.len() && dir == path.take(dir.len() as int)
    &&& is_plain_path(path) ==> parent == plain_parent(path)
}

/// Whether a directory is written verbatim, as Windows calls it.
pub open spec fn is_verbatim(dir: Seq<char>) -> bool {
    dir.len() >= 4 && dir[0] == '\\' && dir[1] == '\\' && dir[2] == '?' && dir[3] == '\\'
}

/// Whether a path is a directory with a name behind it and at most one separator between them.
pub open spec fn appends(dir: Seq<char>, name: Seq<char>, path: Seq<char>) -> bool {
    path == dir + name || path == dir + "/"@ + name || path == dir + "\\"@ + name
}

/// What holds of a file name joined to a directory on every platform. A separator is missing where
/// there is no directory or the directory ends in one, and may be missing behind a backslash or a
/// bare drive. A verbatim directory may be written anew.
pub open spec fn is_join(dir: Seq<char>, name: Seq<char>, path: Seq<char>) -> bool {
    is_file_name(name) ==> {
        &&& !is_verbatim(dir) ==> {
            &&& appends(dir, name, path)
            &&& dir.len() == 0 || dir.last() == '/' ==> path == dir + name
            &&& dir.len() > 0 && dir.last() != '/' && dir.last() != '\\' && !(dir.len() == 2
                && dir[1] == ':') ==> path == dir + "/"@ + name || path == dir + "\\"@ + name
        }
        &&& name != "."@ && name != ".."@ ==> name.is_suffix_of(path)
    }
}

/// Calls `std::path::Path::parent`. Claims that the parent is a proper beginning of the path, and
/// that for a path without drive, share or backslash it is the path without its final component:
/// repeated and trailing slashes count as one and none, a component `.` counts only where it
/// begins the path, and neither the root nor the empty path has a parent. How drives, shares and
/// backslashes are read depends on the platform and is left unsaid.
#[verifier::external_body]
fn parent_of(path: &str) -> (parent: Option<String>)
    ensures
        is_parent(path@, text_of(parent)),
{
    std::path::Path::new(path).parent().map(|dir| dir.to_string_lossy().into_owned())
}

/// Calls `std::path::Path::join`. Claims that a bare name follows the directory with at most one
/// separator between them: none behind an empty directory or a slash, and one behind anything else
/// but a backslash and a bare drive, where it depends on the platform, as does which of the two
/// separators it is. Of a directory with the verbatim prefix `\\?\` it claims only that the path
/// ends in the name, unless that is `.` or `..`. What it does with other names is left unsaid.
#[verifier::external_body]
fn join_name(dir: &str, name: &str) -> (path: String)
    ensures
        is_join(dir@, name@, path@),
{
    std::path::Path::new(dir).join(name).to_string_lossy().into_owned()
}

/// The directory of the cache file, given the parent of the configuration file.
pub open spec fn dir_of(parent: Option<Seq<char>>) -> Seq<char> {
    match parent {
        Some(dir) => dir,
        None => "."@,
    }
}

/// The directory that the cache file lies in: that of the configuration file, or the working
/// directory where the configuration file has none.
pub fn cache_dir(parent: Option<String>) -> (dir: String)
    ensures
        dir@ == dir_of(text_of(parent)),
        parent matches Some(parent) ==> dir@ == parent@,
        parent is None ==> dir@ == "."@,
{
    match parent {
        Some(dir) => dir,
        None => ".".to_owned(),
    }
}

/// Whether a path is one of the cache file beside the given configuration file.
pub open spec fn is_cache_path(config_path: Seq<char>, path: Seq<char>) -> bool {
    exists|parent: Option<Seq<char>>|
        #[trigger] is_parent(config_path, parent) && is_join(dir_of(parent), CACHE_FILE@, path)
}

/// Where the cache file lies: beside the configuration file.
pub fn cache_path(config_path: &str) -> (path: String)
    ensures
        is_cache_path(config_path@, path@),
{
    let parent = parent_of(config_path);
    let ghost known = text_of(parent);
    let dir = cache_dir(parent);
    let path = join_name(dir.as_str(), CACHE_FILE);
    assert(is_parent(config_path@, known) && is_join(dir_of(known), CACHE_FILE@, path@));
    path
}

proof fn cache_file_is_a_file_name()
    ensures
        is_file_name(CACHE_FILE@),
        CACHE_FILE@ != "."@,
        CACHE_FILE@ != ".."@,
{
    reveal_strlit(".published-device-ids.json");
    reveal_strlit(".");
    reveal_strlit("..");
    assert("."@.len() == 1 && ".."@.len() == 2);
    assert(CACHE_FILE@ == ".published-device-ids.json"@);
}

/// Whether a path is that of the cache file in a directory, behind either separator.
pub open spec fn lies_in(dir: Seq<char>, path: Seq<char>) -> bool {
    if dir.len() == 0 || dir.last() == '/' {
        path == dir + CACHE_FILE@
    } else {
        path == dir + "/"@ + CACHE_FILE@ || path == dir + "\\"@ + CACHE_FILE@
    }
}

proof fn trimming_gives_a_beginning(path: Seq<char>)
    ensures
        trimmed(path).len() <= path.len(),
        trimmed(path) == path.take(trimmed(path).len() as int),
    decreases path.len(),
{
    if path.len() > 1 && (path.last() == '/' || (path.last() == '.' && path[path.len() - 2]
        == '/')) {
        trimming_gives_a_beginning(path.drop_last());
    }
    assert(trimmed(path) =~= path.take(trimmed(path).len() as int));
}

proof fn a_part_up_to_a_slash_is_a_beginning(path: Seq<char>)
    ensures
        up_to_slash(path).len() <= path.len(),
        up_to_slash(path) == path.take(up_to_slash(path).len() as int),
    decreases path.len(),
{
    if path.len() > 0 && path.last() != '/' {
        a_part_up_to_a_slash_is_a_beginning(path.drop_last());
    }
    assert(up_to_slash(path) =~= path.take(up_to_slash(path).len() as int));
}

proof fn a_name_is_cut_off(head: Seq<char>, name: Seq<char>)
    requires
        !name.contains('/'),
        head.len() == 0 || head.last() == '/',
    ensures
        up_to_slash(head + name) == head,
    decreases name.len(),
{
    if name.len() == 0 {
        assert(head + name =~= head);
    } else {
        let shorter = name.drop_last();
        assert((head + name).drop_last() =~= head + shorter);
        assert((head + name).last() == name.last());
        assert(name.contains(name.last()));
        assert forall|c: char| shorter.contains(c) implies name.contains(c) by {
            let i = choose|i: int| 0 <= i < shorter.len() && shorter[i] == c;
            assert(name[i] == c);
        }
        a_name_is_cut_off(head, shorter);
    }
}

proof fn a_name_is_not_trimmed(head: Seq<char>, name: Seq<char>)
    requires
        is_file_name(name),
        name != "."@ || head.len() == 0,
    ensures
        trimmed(head + name) == head + name,
{
    reveal_strlit(".");
    let path = head + name;
    assert(path.last() == name.last());
    assert(name.contains(name.last()));
    if path.len() > 1 && path.last() == '.' && path[path.len() - 2] == '/' {
        if name.len() > 1 {
            assert(name.contains(name[name.len() - 2]));
        } else {
            assert(name =~= "."@);
        }
    }
}

/// Whether a directory is a proper beginning of a path, or the working directory.
pub open spec fn is_beginning(dir: Seq<char>, path: Seq<char>) -> bool {
    dir == "."@ || (dir.len() < path.len() && dir == path.take(dir.len() as int))
}

/// Wherever the configuration lies, the cache file carries its own name; and unless the path of
/// the configuration is verbatim, that name stands behind a proper beginning of the path, or behind
/// the working directory, with at most one separator between them.
pub proof fn the_cache_has_its_own_name(config_path: Seq<char>, path: Seq<char>)
    requires
        is_cache_path(config_path, path),
    ensures
        CACHE_FILE@.is_suffix_of(path),
        !is_verbatim(config_path) ==> exists|dir: Seq<char>| #[trigger]
            appends(dir, CACHE_FILE@, path) && is_beginning(dir, config_path),
{
    cache_file_is_a_file_name();
    reveal_strlit(".");
    let parent = choose|parent: Option<Seq<char>>| #[trigger]
        is_parent(config_path, parent) && is_join(dir_of(parent), CACHE_FILE@, path);
    let dir = dir_of(parent);
    if !is_verbatim(config_path) {
        assert(!is_verbatim(dir));
        assert(appends(dir, CACHE_FILE@, path) && is_beginning(dir, config_path));
    }
}

/// The cache is never written over the configuration, unless that is itself named like a cache.
pub proof fn the_cache_spares_the_configuration(config_path: Seq<char>, path: Seq<char>)
    requires
        is_cache_path(config_path, path),
        !CACHE_FILE@.is_suffix_of(config_path),
    ensures
        path != config_path,
{
    the_cache_has_its_own_name(config_path, path);
}

/// The cache lies in the directory of the configuration file, however the path is spelled, and in
/// the working directory where the path has no parent.
pub proof fn the_cache_lies_in_the_parent(config_path: Seq<char>, path: Seq<char>)
    requires
        is_plain_path(config_path),
        is_cache_path(config_path, path),
    ensures
        lies_in(dir_of(plain_parent(config_path)), path),
{
    cache_file_is_a_file_name();
    let dir = dir_of(plain_parent(config_path));
    if plain_parent(config_path) is Some {
        let bare = trimmed(config_path);
        trimming_gives_a_beginning(config_path);
        a_part_up_to_a_slash_is_a_beginning(bare);
        trimming_gives_a_beginning(up_to_slash(bare));
        assert forall|i: int| 0 <= i < dir.len() implies dir[i] == config_path[i] by {
            assert(dir[i] == up_to_slash(bare)[i]);
            assert(up_to_slash(bare)[i] == bare[i]);
        }
        assert(!dir.contains('\\'));
    } else {
        reveal_strlit(".");
    }
    assert(dir.len() == 0 ==> dir + CACHE_FILE@ =~= CACHE_FILE@);
}

/// What says nothing in a path moves no cache: a slash or a `/.` at the end, and a slash or a `./`
/// too many before the last component.
pub proof fn spelling_moves_no_cache(dir: Seq<char>, name: Seq<char>)
    requires
        dir.len() > 0,
        is_file_name(name),
        name != "."@,
    ensures
        plain_parent(dir + "/"@) == plain_parent(dir),
        plain_parent(dir + "/."@) == plain_parent(dir),
        plain_parent(dir + "//"@ + name) == plain_parent(dir + "/"@ + name),
        plain_parent(dir + "/./"@ + name) == plain_parent(dir + "/"@ + name),
{
    reveal_strlit("/");
    reveal_strlit("/.");
    reveal_strlit("//");
    reveal_strlit("/./");
    let one = dir + "/"@;
    let dot = dir + "/."@;
    let two = dir + "//"@;
    let dotted = dir + "/./"@;
    assert(one.drop_last() =~= dir);
    assert(dot.drop_last() =~= one);
    assert(two.drop_last() =~= one);
    assert(dotted.drop_last() =~= dot);
    assert(trimmed(one) == trimmed(dir));
    assert(trimmed(dot) == trimmed(one));
    assert(trimmed(two) == trimmed(one));
    assert(trimmed(dotted) == trimmed(dot));
    a_name_in_a_directory(one, name);
    a_name_in_a_directory(two, name);
    a_name_in_a_directory(dotted, name);
}

proof fn a_name_in_a_directory(head: Seq<char>, name: Seq<char>)
    requires
        is_file_name(name),
        head.len() > 0 ==> head.last() == '/' && name != "."@,
    ensures
        plain_parent(head + name) == Some(trimmed(head)),
{
    reveal_strlit("/");
    a_name_is_not_trimmed(head, name);
    a_name_is_cut_off(head, name);
    assert((head + name).last() == name.last());
    assert(name.contains(name.last()));
    assert("/"@.last() == '/');
}

/// The cache of a configuration file in a directory lies in that directory, be it the working
/// directory or the one above.
pub proof fn the_cache_lies_beside_the_configuration(
    dir: Seq<char>,
    name: Seq<char>,
    path: Seq<char>,
)
    requires
        is_plain_dir(dir),
        is_file_name(name),
        name != "."@,
        is_cache_path(dir + "/"@ + name, path),
    ensures
        path == dir + "/"@ + CACHE_FILE@ || path == dir + "\\"@ + CACHE_FILE@,
{
    reveal_strlit("/");
    let head = dir + "/"@;
    let config_path = head + name;
    assert(head.drop_last() =~= dir);
    assert(trimmed(head) == trimmed(dir));
    a_name_in_a_directory(head, name);
    plain_parts_make_a_plain_path(head, name);
    the_cache_lies_in_the_parent(config_path, path);
}

proof fn plain_parts_make_a_plain_path(head: Seq<char>, name: Seq<char>)
    requires
        is_plain_path(head),
        is_file_name(name),
    ensures
        is_plain_path(head + name),
{
    let path = head + name;
    assert forall|c: char| path.contains(c) implies head.contains(c) || name.contains(c) by {
        let i = choose|i: int| 0 <= i < path.len() && path[i] == c;
        if i < head.len() {
            assert(head[i] == c);
        } else {
            assert(name[i - head.len()] == c);
        }
    }
    assert(name.contains(name[0]));
    assert(head.len() > 1 ==> path[1] == head[1]);
    if head.len() == 1 {
        assert(path[1] == name[0]);
    }
    if name.len() > 1 {
        assert(name.contains(name[1]));
    }
}

/// The cache of a configuration file in the root lies in the root.
pub proof fn the_cache_of_a_file_in_the_root_lies_there(name: Seq<char>, path: Seq<char>)
    requires
        is_file_name(name),
        name != "."@,
        is_cache_path("/"@ + name, path),
    ensures
        path == "/"@ + CACHE_FILE@,
{
    reveal_strlit("/");
    a_name_in_a_directory("/"@, name);
    plain_parts_make_a_plain_path("/"@, name);
    the_cache_lies_in_the_parent("/"@ + name, path);
}

/// A path without a parent, an empty one or the root, has its cache in the working directory.
pub proof fn the_cache_of_a_path_without_a_parent_lies_here(config_path: Seq<char>, path: Seq<char>)
    requires
        config_path.len() == 0 || config_path == "/"@,
        is_cache_path(config_path, path),
    ensures
        path == "./"@ + CACHE_FILE@ || path == ".\\"@ + CACHE_FILE@,
{
    reveal_strlit(".");
    reveal_strlit("/");
    reveal_strlit("\\");
    reveal_strlit("./");
    reveal_strlit(".\\");
    the_cache_lies_in_the_parent(config_path, path);
    assert("./"@ + CACHE_FILE@ =~= "."@ + "/"@ + CACHE_FILE@);
    assert(".\\"@ + CACHE_FILE@ =~= "."@ + "\\"@ + CACHE_FILE@);
}

/// The cache of a configuration file given by its bare name lies in the working directory.
pub proof fn the_cache_of_a_bare_name_is_bare(name: Seq<char>, path: Seq<char>)
    requires
        is_file_name(name),
        is_cache_path(name, path),
    ensures
        path == CACHE_FILE@,
{
    let none = Seq::<char>::empty();
    assert(none + name =~= name);
    a_name_in_a_directory(none, name);
    plain_parts_make_a_plain_path(none, name);
    the_cache_lies_in_the_parent(name, path);
    assert(none + CACHE_FILE@ =~= CACHE_FILE@);
}

/// The path of the cache is its name joined to the parent of the configuration file, or to the
/// working directory where there is no parent, and to nothing else.
pub proof fn the_cache_is_joined_to_the_parent(config_path: Seq<char>, path: Seq<char>)
    ensures
        is_cache_path(config_path, path) <==> {
            ||| is_parent(config_path, None) && is_join("."@, ".published-device-ids.json"@, path)
            ||| exists|dir: Seq<char>|
                #![trigger is_join(dir, ".published-device-ids.json"@, path)]
                is_parent(config_path, Some(dir)) && is_join(
                    dir,
                    ".published-device-ids.json"@,
                    path,
                )
        },
{
    let name = ".published-device-ids.json"@;
    if is_cache_path(config_path, path) {
        let parent = choose|parent: Option<Seq<char>>| #[trigger]
            is_parent(config_path, parent) && is_join(dir_of(parent), CACHE_FILE@, path);
        if let Some(dir) = parent {
            assert(is_join(dir, name, path));
        }
    }
    if is_parent(config_path, None) && is_join("."@, name, path) {
        assert(dir_of(None) == "."@);
    }
    if exists|dir: Seq<char>|
        #![trigger is_join(dir, name, path)]
        is_parent(config_path, Some(dir)) && is_join(dir, name, path) {
        let dir = choose|dir: Seq<char>|
            #![trigger is_join(dir, name, path)]
            is_parent(config_path, Some(dir)) && is_join(dir, name, path);
        assert(dir_of(Some(dir)) == dir);
    }
}

/// The cache of a plain path, written out: in the parent where there is one, and in the working
/// directory where there is none.
pub proof fn the_place_of_the_cache(config_path: Seq<char>, path: Seq<char>)
    requires
        is_plain_path(config_path),
        is_cache_path(config_path, path),
    ensures
        match plain_parent(config_path) {
            None => path == "."@ + "/"@ + ".published-device-ids.json"@ || path == "."@ + "\\"@
                + ".published-device-ids.json"@,
            Some(dir) => if dir.len() == 0 || dir.last() == '/' {
                path == dir + ".published-device-ids.json"@
            } else {
                path == dir + "/"@ + ".published-device-ids.json"@ || path == dir + "\\"@
                    + ".published-device-ids.json"@
            },
        },
{
    reveal_strlit(".");
    the_cache_lies_in_the_parent(config_path, path);
}

/// A cache file that cannot be read, or holds no list, stands for no ids; any other stands for the
/// ids that it lists.
pub proof fn a_cache_stands_for_what_it_lists(text: Seq<char>)
    ensures
        cached(None).len() == 0,
        listed(text) is None ==> cached(Some(text)).len() == 0,
        listed(text) matches Some(ids) ==> cached(Some(text)) == ids,
{
}

} // verus!
