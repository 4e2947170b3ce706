use vstd::prelude::*;
use crate::config::AppConfig;

verus! {

/// The two documents kept by the store.
#[derive(PartialEq, Eq, Structural, Clone, Copy, Debug)]
pub enum Collection {
    Todos,
    Lists,
}

/// What the filesystem says of a directory a user picked.
#[derive(PartialEq, Eq, Structural, Clone, Copy, Debug)]
pub enum PathKind {
    Missing,
    NotDirectory,
    Directory,
}

/// Why a storage directory was refused.
#[derive(PartialEq, Eq, Structural, Clone, Copy, Debug)]
pub enum PathError {
    DoesNotExist,
    NotADirectory,
}

/// The failures of the store, each carrying the text shown to the user.
pub enum StoreError {
    Io(String),
    Format(String),
    InvalidPath(PathError),
    Parse(String),
}

/// The outcome of reading a document file.
pub enum ReadOutcome {
    Found(String),
    Missing,
    Failed(String),
}

/// Where a document file lives: the default data directory, or a directory
/// the user chose.
pub enum Location {
    DefaultDir,
    Dir(String),
}

/// The empty JSON array, the content of a document that was never saved.
pub open spec fn empty_array() -> Seq<char> {
    seq!['[', ']']
}

/// The file name of a collection's document.
pub open spec fn file_name_of(c: Collection) -> Seq<char> {
    match c {
        Collection::Todos => seq!['t', 'o', 'd', 'o', 's', '.', 'j', 's', 'o', 'n'],
        Collection::Lists => seq!['l', 'i', 's', 't', 's', '.', 'j', 's', 'o', 'n'],
    }
}

/// The directory an override selects: `None` for the default data directory.
pub open spec fn dir_of(path: Seq<char>) -> Option<Seq<char>> {
    if path.len() == 0 {
        None
    } else {
        Some(path)
    }
}

/// The override that setting `path` leaves, or why `path` is refused.
pub open spec fn path_after_set(path: Seq<char>, kind: PathKind) -> Result<Seq<char>, PathError> {
    if path.len() == 0 {
        Ok(path)
    } else {
        match kind {
            PathKind::Missing => Err(PathError::DoesNotExist),
            PathKind::NotDirectory => Err(PathError::NotADirectory),
            PathKind::Directory => Ok(path),
        }
    }
}

/// What loading a document returns for a read outcome.
pub open spec fn document_of(read: ReadOutcome) -> Result<Seq<char>, Seq<char>> {
    match read {
        ReadOutcome::Found(s) => Ok(s@),
        ReadOutcome::Missing => Ok(empty_array()),
        ReadOutcome::Failed(m) => Err(m@),
    }
}

/// The storage-path state seen by later calls: the override in memory and
/// the path in the persisted record.
pub struct PathState {
    pub memory: Seq<char>,
    pub persisted: Seq<char>,
}

/// The state after setting `path`: both values become the accepted path
/// together; a refused path changes neither.
pub open spec fn state_after_set(s: PathState, path: Seq<char>, kind: PathKind) -> PathState {
    match path_after_set(path, kind) {
        Ok(p) => PathState { memory: p, persisted: p },
        Err(_) => s,
    }
}

impl Location {
    /// The view of a location: the chosen directory, if any.
    pub open spec fn dir_view(&self) -> Option<Seq<char>> {
        match self {
            Location::DefaultDir => None,
            Location::Dir(d) => Some(d@),
        }
    }
}

impl StoreError {
    /// The text shown to the user.
    pub fn message(&self) -> (r: String)
        ensures
            match self {
                StoreError::Io(m) => r@ == m@,
                StoreError::Format(m) => r@ == m@,
                StoreError::Parse(m) => r@ == m@,
                StoreError::InvalidPath(PathError::DoesNotExist) => r@ == "Path does not exist"@,
                StoreError::InvalidPath(PathError::NotADirectory) => r@ == "Path is not a directory"@,
            },
    {
        match self {
            StoreError::Io(m) => m.clone(),
            StoreError::Format(m) => m.clone(),
            StoreError::Parse(m) => m.clone(),
            StoreError::InvalidPath(PathError::DoesNotExist) => String::from_str("Path does not exist"),
            StoreError::InvalidPath(PathError::NotADirectory) => String::from_str("Path is not a directory"),
        }
    }
}

/// The file name of a collection's document.
pub fn file_name(c: Collection) -> (r: String)
    ensures
        r@ == file_name_of(c),
{
    match c {
        Collection::Todos => {
            proof {
                reveal_strlit("todos.json");
            }
            String::from_str("todos.json")
        },
        Collection::Lists => {
            proof {
                reveal_strlit("lists.json");
            }
            String::from_str("lists.json")
        },
    }
}

/// What loading a document returns: the text as read, the empty array for a
/// file that does not exist, and the read error otherwise.
pub fn loaded_document(read: ReadOutcome) -> (r: Result<String, StoreError>)
    ensures
        match document_of(read) {
            Ok(s) => r is Ok && r->Ok_0@ == s,
            Err(m) => match r {
                Err(StoreError::Io(e)) => e@ == m,
                _ => false,
            },
        },
{
    match read {
        ReadOutcome::Found(s) => Ok(s),
        ReadOutcome::Missing => {
            proof {
                reveal_strlit("[]");
            }
            Ok(String::from_str("[]"))
        },
        ReadOutcome::Failed(m) => Err(StoreError::Io(m)),
    }
}

/// Checks a directory a user picked: the empty path (back to the default
/// directory) is always accepted, another path only if it is a directory.
pub fn check_storage_path(path: &String, kind: PathKind) -> (r: Result<(), PathError>)
    ensures
        match path_after_set(path@, kind) {
            Ok(_) => r is Ok,
            Err(e) => r == Err::<(), PathError>(e),
        },
{
    if path.as_str().is_empty() {
        return Ok(());
    }
    match kind {
        PathKind::Missing => Err(PathError::DoesNotExist),
        PathKind::NotDirectory => Err(PathError::NotADirectory),
        PathKind::Directory => Ok(()),
    }
}

/// The in-memory storage directory override, shared by all operations.
/// Empty means the default data directory.
pub struct StoragePath {
    pub dir: String,
}

impl StoragePath {
    /// The override at process start, taken from the persisted record.
    pub fn from_config(config: &AppConfig) -> (r: StoragePath)
        ensures
            r.dir@ == config.storage_path@,
    {
        StoragePath { dir: config.storage_path.clone() }
    }

    /// Where the documents live under this override.
    pub fn location(&self) -> (r: Location)
        ensures
            r.dir_view() == dir_of(self.dir@),
    {
        if self.dir.as_str().is_empty() {
            Location::DefaultDir
        } else {
            Location::Dir(self.dir.clone())
        }
    }

    /// Sets the storage directory in the record to persist and in memory
    /// together; on refusal neither changes. The caller writes the record
    /// out before it publishes the new override.
    pub fn set_storage_path(&mut self, config: &mut AppConfig, path: String, kind: PathKind) -> (r:
        Result<(), StoreError>)
        ensures
            state_after_set(
                PathState { memory: old(self).dir@, persisted: old(config).storage_path@ },
                path@,
                kind,
            ) == (PathState { memory: final(self).dir@, persisted: final(config).storage_path@ }),
            match path_after_set(path@, kind) {
                Ok(p) => {
                    &&& r is Ok
                    &&& final(self).dir@ == p
                    &&& final(config).storage_path@ == p
                    &&& final(config).theme == old(config).theme
                },
                Err(e) => {
                    &&& r matches Err(StoreError::InvalidPath(x)) && x == e
                    &&& *final(self) == *old(self)
                    &&& *final(config) == *old(config)
                },
            },
    {
        match check_storage_path(&path, kind) {
            Err(e) => Err(StoreError::InvalidPath(e)),
            Ok(()) => {
                config.set_storage_path(path.clone());
                self.dir = path;
                Ok(())
            },
        }
    }
}

} // verus!
