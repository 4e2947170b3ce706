use vstd::prelude::*;
use crate::config::{default_theme, theme_name};
use crate::store::{
    dir_of, empty_array, file_name_of, path_after_set, state_after_set, Collection, PathError,
    PathKind, PathState,
};

verus! {

/// The document files as a map from (chosen directory or default, file name)
/// to their content.
pub type Files = Map<(Option<Seq<char>>, Seq<char>), Seq<char>>;

/// The file a collection's document lives in under the override `dir`.
pub open spec fn file_key(dir: Seq<char>, c: Collection) -> (Option<Seq<char>>, Seq<char>) {
    (dir_of(dir), file_name_of(c))
}

/// What loading a collection yields when every file that exists is readable.
pub open spec fn load_from(files: Files, dir: Seq<char>, c: Collection) -> Seq<char> {
    if files.contains_key(file_key(dir, c)) {
        files[file_key(dir, c)]
    } else {
        empty_array()
    }
}

/// The files after saving `doc` as a collection's document.
pub open spec fn save_to(files: Files, dir: Seq<char>, c: Collection, doc: Seq<char>) -> Files {
    files.insert(file_key(dir, c), doc)
}

/// Where no document file exists yet, both collections load as `[]`.
pub proof fn law_fresh_load_is_empty_array(dir: Seq<char>, c: Collection)
    ensures
        load_from(Map::empty(), dir, c) == empty_array(),
{
}

/// Loading a collection after saving it returns the saved text unchanged,
/// and saving one collection leaves the other as it was.
pub proof fn law_save_then_load(files: Files, dir: Seq<char>, c: Collection, doc: Seq<char>)
    ensures
        load_from(save_to(files, dir, c, doc), dir, c) == doc,
        forall|o: Collection|
            o != c ==> load_from(save_to(files, dir, c, doc), dir, o) == load_from(files, dir, o),
{
    assert forall|o: Collection| o != c implies load_from(save_to(files, dir, c, doc), dir, o)
        == load_from(files, dir, o) by {
        assert(file_name_of(o) != file_name_of(c)) by {
            assert(file_name_of(o)[0] != file_name_of(c)[0]);
        }
    }
}

/// The state after a restart: the override is read back from the record.
pub open spec fn restarted(s: PathState) -> PathState {
    PathState { memory: s.persisted, persisted: s.persisted }
}

/// Setting the empty path is always accepted: the stored path reads back as
/// empty, and later loads and saves go to the default data directory.
pub proof fn law_clear_storage_path(s: PathState, kind: PathKind, files: Files, c: Collection)
    ensures
        path_after_set(Seq::empty(), kind) is Ok,
        state_after_set(s, Seq::empty(), kind).persisted == Seq::<char>::empty(),
        dir_of(state_after_set(s, Seq::empty(), kind).memory) is None,
        load_from(files, state_after_set(s, Seq::empty(), kind).memory, c) == if files.contains_key(
            (None, file_name_of(c)),
        ) {
            files[(None, file_name_of(c))]
        } else {
            empty_array()
        },
{
}

/// After an existing directory is set, a restart that reads the record back
/// yields that directory, both as the stored path and as the override.
pub proof fn law_restart_keeps_storage_path(s: PathState, path: Seq<char>)
    requires
        path.len() > 0,
    ensures
        restarted(state_after_set(s, path, PathKind::Directory)).persisted == path,
        dir_of(restarted(state_after_set(s, path, PathKind::Directory)).memory) == Some(path),
{
}

/// A path that does not exist is refused with `DoesNotExist` (one that is not
/// a directory with `NotADirectory`), and the state stays as it was.
pub proof fn law_invalid_storage_path_refused(s: PathState, path: Seq<char>)
    requires
        path.len() > 0,
    ensures
        path_after_set(path, PathKind::Missing) == Err::<Seq<char>, PathError>(
            PathError::DoesNotExist,
        ),
        path_after_set(path, PathKind::NotDirectory) == Err::<Seq<char>, PathError>(
            PathError::NotADirectory,
        ),
        state_after_set(s, path, PathKind::Missing) == s,
        state_after_set(s, path, PathKind::NotDirectory) == s,
{
}

/// A record with no theme shows "light"; after a theme is set it shows that
/// theme.
pub proof fn law_theme(theme: Seq<char>)
    ensures
        theme_name(None) == default_theme(),
        theme_name(Some(theme)) == theme,
{
}

} // verus!
