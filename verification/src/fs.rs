//! The file-system capability that the store and the initialize operation work
//! through, and an in-memory file system that is proved to meet its contract.

use crate::text::same_text;
use vstd::prelude::*;
use vstd::slice::slice_to_vec;
use vstd::string::StringExecFns;

verus! {

/// How an I/O failure is classified.
#[derive(Clone, Copy, Debug, PartialEq, Eq, Structural)]
pub enum IoErrorKind {
    /// What was asked for is not there.
    NotFound,
    /// Something already stands where a new thing was to be made.
    AlreadyExists,
    /// Any other failure.
    Other,
}

/// An I/O failure, met while reading input or touching the file system.
#[derive(Debug, PartialEq, Eq)]
pub struct IoError {
    pub kind: IoErrorKind,
    /// The cause in words, kept for diagnostics.
    pub detail: String,
}

/// A fact about the environment that could not be resolved.
#[derive(Clone, Copy, Debug, PartialEq, Eq, Structural)]
pub enum ConfigError {
    /// The operator's home directory cannot be determined.
    HomeDirectoryUnknown,
    /// A path cannot be written as text.
    PathNotText,
}

impl ConfigError {
    /// The text shown to the operator for this error.
    pub open spec fn message_text(self) -> Seq<char> {
        match self {
            ConfigError::HomeDirectoryUnknown => "The home directory could not be determined."@,
            ConfigError::PathNotText => "A path could not be written as text."@,
        }
    }

    /// The text shown to the operator for this error.
    pub fn message(&self) -> (r: String)
        ensures
            r@ == self.message_text(),
    {
        match self {
            ConfigError::HomeDirectoryUnknown => String::from_str(
                "The home directory could not be determined.",
            ),
            ConfigError::PathNotText => String::from_str("A path could not be written as text."),
        }
    }
}

/// Calls `dirs::home_dir`, which looks up the home directory of the user who
/// runs the program, in the environment of the process and in the system's
/// user records, and hands the path on as text where `Path::to_str` gives
/// one: `None` where no home directory is found, `Some(None)` where its path is
/// not valid Unicode. Nothing is promised of what is found.
#[verifier::external_body]
fn current_home() -> Option<Option<String>> {
    match dirs::home_dir() {
        None => None,
        Some(path) => match path.to_str() {
            Some(text) => Some(Some(text.to_owned())),
            None => Some(None),
        },
    }
}

/// The home directory as this library reports it, from what was found: `None`
/// where there is no home directory, `Some(None)` where there is one whose
/// path is not text, and otherwise the path.
pub fn home_verdict(found: Option<Option<String>>) -> (r: Result<String, ConfigError>)
    ensures
        match found {
            None => r == Err::<String, ConfigError>(ConfigError::HomeDirectoryUnknown),
            Some(None) => r == Err::<String, ConfigError>(ConfigError::PathNotText),
            Some(Some(path)) => r == Ok::<String, ConfigError>(path),
        },
{
    match found {
        None => Err(ConfigError::HomeDirectoryUnknown),
        Some(None) => Err(ConfigError::PathNotText),
        Some(Some(path)) => Ok(path),
    }
}

/// The home directory of the user who runs the program. The environment
/// decides what is found; [`home_verdict`] says what is made of it.
pub fn home_directory() -> (r: Result<String, ConfigError>) {
    home_verdict(current_home())
}

/// The operations on a file tree that the store and the initialize operation need.
///
/// A file system may declare itself dependable. It then behaves as its model
/// says: its state is what `files`, `dirs` and `home` show, it changes only as
/// the contracts below say, and it fails only where that state gives the
/// reason. Of a file system that does not declare itself dependable nothing is
/// promised; that is the case of one on a real disk, which other programs
/// change and on which two texts can name one file.
pub trait FileSystemOperator {
    /// Whether this file system behaves as its model says.
    open spec fn dependable(&self) -> bool {
        false
    }

    /// The regular files, by path, each with its contents.
    open spec fn files(&self) -> Map<Seq<char>, Seq<u8>> {
        Map::empty()
    }

    /// The directories, by path.
    open spec fn dirs(&self) -> Set<Seq<char>> {
        Set::empty()
    }

    /// The operator's home directory, if there is one.
    open spec fn home(&self) -> Option<Seq<char>> {
        None
    }

    /// The operator's home directory.
    fn home_dir(&self) -> (r: Result<String, ConfigError>)
        ensures
            self.dependable() ==> match r {
                Ok(h) => self.home() == Some(h@),
                Err(e) => self.home() is None && e == ConfigError::HomeDirectoryUnknown,
            },
    ;

    /// Creates the directory `path`. It fails with `AlreadyExists` where a file
    /// or a directory stands there already.
    fn mkdir(&mut self, path: &str) -> (r: Result<(), IoError>)
        ensures
            old(self).dependable() ==> {
                &&& final(self).dependable()
                &&& final(self).home() == old(self).home()
                &&& final(self).files() == old(self).files()
                &&& match r {
                    Ok(_) => {
                        &&& !old(self).files().contains_key(path@)
                        &&& !old(self).dirs().contains(path@)
                        &&& final(self).dirs() == old(self).dirs().insert(path@)
                    },
                    Err(e) => {
                        &&& e.kind == IoErrorKind::AlreadyExists
                        &&& old(self).files().contains_key(path@) || old(self).dirs().contains(path@)
                        &&& final(self).dirs() == old(self).dirs()
                    },
                }
            },
    ;

    /// Creates the file `path`, or empties it if it is there, and writes
    /// `contents` to it. It fails where `path` is a directory.
    fn touch(&mut self, path: &str, contents: &[u8]) -> (r: Result<(), IoError>)
        ensures
            old(self).dependable() ==> {
                &&& final(self).dependable()
                &&& final(self).home() == old(self).home()
                &&& final(self).dirs() == old(self).dirs()
                &&& match r {
                    Ok(_) => {
                        &&& !old(self).dirs().contains(path@)
                        &&& final(self).files() == old(self).files().insert(path@, contents@)
                    },
                    Err(_) => {
                        &&& old(self).dirs().contains(path@)
                        &&& final(self).files() == old(self).files()
                    },
                }
            },
    ;

    /// Whether a file or a directory stands at `path`.
    fn present(&self, path: &str) -> (r: bool)
        ensures
            self.dependable() ==> r == (self.files().contains_key(path@) || self.dirs().contains(
                path@,
            )),
    ;

    /// The whole contents of the file `path`. It fails where no file stands there.
    fn read(&self, path: &str) -> (r: Result<Vec<u8>, IoError>)
        ensures
            self.dependable() ==> match r {
                Ok(bytes) => self.files().contains_key(path@) && bytes@ == self.files()[path@],
                Err(_) => !self.files().contains_key(path@),
            },
    ;
}

/// One file of a [`MemoryFileSystem`].
struct MemoryFile {
    path: String,
    contents: Vec<u8>,
}

/// Whether the `i`-th of `files` stands at `path`.
spec fn file_at(files: Seq<MemoryFile>, path: Seq<char>, i: int) -> bool {
    0 <= i < files.len() && files[i].path@ == path
}

/// Whether the `i`-th of `dirs` is `path`.
spec fn dir_at(dirs: Seq<String>, path: Seq<char>, i: int) -> bool {
    0 <= i < dirs.len() && dirs[i]@ == path
}

/// No two of `files` share a path.
spec fn distinct_paths(files: Seq<MemoryFile>) -> bool {
    forall|i: int, j: int| 0 <= i < j < files.len() ==> files[i].path@ != files[j].path@
}

/// The files of a list as a map from path to contents.
spec fn files_of(files: Seq<MemoryFile>) -> Map<Seq<char>, Seq<u8>> {
    Map::new(
        |p: Seq<char>| exists|i: int| file_at(files, p, i),
        |p: Seq<char>| files[choose|i: int| file_at(files, p, i)].contents@,
    )
}

/// The directories of a list as a set of paths.
spec fn dirs_of(dirs: Seq<String>) -> Set<Seq<char>> {
    Set::new(|p: Seq<char>| exists|i: int| dir_at(dirs, p, i))
}

/// In a list without repeated paths, the file at a path is found at one place only.
proof fn lemma_file_found(files: Seq<MemoryFile>, path: Seq<char>, i: int)
    requires
        distinct_paths(files),
        file_at(files, path, i),
    ensures
        files_of(files).contains_key(path),
        files_of(files)[path] == files[i].contents@,
{
    let k = choose|k: int| file_at(files, path, k);
    assert(k == i);
}

/// Adding a file at a fresh path adds one entry to the map.
proof fn lemma_files_after_push(files: Seq<MemoryFile>, file: MemoryFile)
    requires
        distinct_paths(files),
        forall|k: int| !file_at(files, file.path@, k),
    ensures
        distinct_paths(files.push(file)),
        files_of(files.push(file)) == files_of(files).insert(file.path@, file.contents@),
{
    let after = files.push(file);
    let want = files_of(files).insert(file.path@, file.contents@);
    assert(distinct_paths(after)) by {
        assert forall|i: int, j: int| 0 <= i < j < after.len() implies after[i].path@
            != after[j].path@ by {
            if j == files.len() {
                assert(!file_at(files, file.path@, i));
            }
        }
    }
    assert(file_at(after, file.path@, files.len() as int));
    assert forall|p: Seq<char>| files_of(after).contains_key(p) == want.contains_key(p) by {
        if files_of(files).contains_key(p) {
            let k = choose|k: int| file_at(files, p, k);
            assert(file_at(after, p, k));
        }
        if files_of(after).contains_key(p) && p != file.path@ {
            let k = choose|k: int| file_at(after, p, k);
            assert(file_at(files, p, k));
        }
    }
    assert forall|p: Seq<char>| files_of(after).contains_key(p) implies files_of(after)[p]
        == want[p] by {
        let k = choose|k: int| file_at(after, p, k);
        lemma_file_found(after, p, k);
        if p != file.path@ {
            assert(file_at(files, p, k));
            lemma_file_found(files, p, k);
        }
    }
    assert(files_of(after) =~= want);
}

/// Replacing the file at a path changes that entry of the map and no other.
proof fn lemma_files_after_update(files: Seq<MemoryFile>, i: int, file: MemoryFile)
    requires
        distinct_paths(files),
        file_at(files, file.path@, i),
    ensures
        distinct_paths(files.update(i, file)),
        files_of(files.update(i, file)) == files_of(files).insert(file.path@, file.contents@),
{
    let after = files.update(i, file);
    let want = files_of(files).insert(file.path@, file.contents@);
    assert forall|p: Seq<char>, k: int| file_at(after, p, k) == file_at(files, p, k) by {}
    assert(distinct_paths(after)) by {
        assert forall|a: int, b: int| 0 <= a < b < after.len() implies after[a].path@
            != after[b].path@ by {
            assert(file_at(files, after[a].path@, a));
            assert(file_at(files, after[b].path@, b));
        }
    }
    assert forall|p: Seq<char>| files_of(after).contains_key(p) == want.contains_key(p) by {
        if files_of(files).contains_key(p) {
            let k = choose|k: int| file_at(files, p, k);
            assert(file_at(after, p, k));
        }
        if files_of(after).contains_key(p) {
            let k = choose|k: int| file_at(after, p, k);
            assert(file_at(files, p, k));
        }
    }
    assert forall|p: Seq<char>| files_of(after).contains_key(p) implies files_of(after)[p]
        == want[p] by {
        let k = choose|k: int| file_at(after, p, k);
        lemma_file_found(after, p, k);
        assert(file_at(files, p, k));
        lemma_file_found(files, p, k);
    }
    assert(files_of(after) =~= want);
}

/// Adding a directory adds its path to the set.
proof fn lemma_dirs_after_push(dirs: Seq<String>, dir: String)
    ensures
        dirs_of(dirs.push(dir)) == dirs_of(dirs).insert(dir@),
{
    let after = dirs.push(dir);
    assert(dir_at(after, dir@, dirs.len() as int));
    assert forall|p: Seq<char>| dirs_of(after).contains(p) == dirs_of(dirs).insert(dir@).contains(
        p,
    ) by {
        if dirs_of(dirs).contains(p) {
            let k = choose|k: int| dir_at(dirs, p, k);
            assert(dir_at(after, p, k));
        }
        if dirs_of(after).contains(p) && p != dir@ {
            let k = choose|k: int| dir_at(after, p, k);
            assert(dir_at(dirs, p, k));
        }
    }
    assert(dirs_of(after) =~= dirs_of(dirs).insert(dir@));
}

/// A file tree held in memory: paths are plain keys, and nothing fails but for
/// what the tree itself holds.
pub struct MemoryFileSystem {
    home: Option<String>,
    dirs: Vec<String>,
    files: Vec<MemoryFile>,
}

impl MemoryFileSystem {
    #[verifier::type_invariant]
    spec fn well_formed(self) -> bool {
        distinct_paths(self.files@)
    }

    /// An empty tree whose operator has no home directory.
    pub fn new() -> (r: Self)
        ensures
            r.files() == Map::<Seq<char>, Seq<u8>>::empty(),
            r.dirs() == Set::<Seq<char>>::empty(),
            r.home() is None,
    {
        MemoryFileSystem { home: None, dirs: Vec::new(), files: Vec::new() }
    }

    /// An empty tree whose operator's home directory is `home`.
    pub fn with_home(home: &str) -> (r: Self)
        ensures
            r.files() == Map::<Seq<char>, Seq<u8>>::empty(),
            r.dirs() == Set::<Seq<char>>::empty(),
            r.home() == Some(home@),
    {
        MemoryFileSystem { home: Some(String::from_str(home)), dirs: Vec::new(), files: Vec::new() }
    }

    /// The place of the file `path` among the files, if it is one of them.
    fn find_file(&self, path: &str) -> (r: Option<usize>)
        ensures
            match r {
                Some(i) => file_at(self.files@, path@, i as int),
                None => forall|k: int| !file_at(self.files@, path@, k),
            },
            r is Some == self.files().contains_key(path@),
    {
        let mut i: usize = 0;
        while i < self.files.len()
            invariant
                i <= self.files@.len(),
                forall|k: int| 0 <= k < i ==> !file_at(self.files@, path@, k),
            decreases self.files@.len() - i,
        {
            if same_text(self.files[i].path.as_str(), path) {
                assert(file_at(self.files@, path@, i as int));
                return Some(i);
            }
            i += 1;
        }
        None
    }

    /// Whether `path` is one of the directories.
    fn has_dir(&self, path: &str) -> (r: bool)
        ensures
            r == self.dirs().contains(path@),
    {
        let mut i: usize = 0;
        while i < self.dirs.len()
            invariant
                i <= self.dirs@.len(),
                forall|k: int| 0 <= k < i ==> !dir_at(self.dirs@, path@, k),
            decreases self.dirs@.len() - i,
        {
            if same_text(self.dirs[i].as_str(), path) {
                assert(dir_at(self.dirs@, path@, i as int));
                return true;
            }
            i += 1;
        }
        false
    }
}

impl FileSystemOperator for MemoryFileSystem {
    closed spec fn files(&self) -> Map<Seq<char>, Seq<u8>> {
        files_of(self.files@)
    }

    closed spec fn dirs(&self) -> Set<Seq<char>> {
        dirs_of(self.dirs@)
    }

    closed spec fn home(&self) -> Option<Seq<char>> {
        match self.home {
            Some(h) => Some(h@),
            None => None,
        }
    }

    open spec fn dependable(&self) -> bool {
        true
    }

    fn home_dir(&self) -> (r: Result<String, ConfigError>) {
        match &self.home {
            Some(h) => Ok(h.clone()),
            None => Err(ConfigError::HomeDirectoryUnknown),
        }
    }

    fn mkdir(&mut self, path: &str) -> (r: Result<(), IoError>) {
        proof {
            use_type_invariant(&*self);
        }
        let taken = self.has_dir(path) || self.find_file(path).is_some();
        if taken {
            return Err(
                IoError {
                    kind: IoErrorKind::AlreadyExists,
                    detail: String::from_str("the path is taken"),
                },
            );
        }
        let dir = String::from_str(path);
        let mut dirs: Vec<String> = Vec::new();
        core::mem::swap(&mut self.dirs, &mut dirs);
        proof {
            lemma_dirs_after_push(dirs@, dir);
        }
        dirs.push(dir);
        self.dirs = dirs;
        Ok(())
    }

    fn touch(&mut self, path: &str, contents: &[u8]) -> (r: Result<(), IoError>)
        ensures
            r matches Err(e) ==> e.kind == IoErrorKind::Other,
    {
        proof {
            use_type_invariant(&*self);
        }
        if self.has_dir(path) {
            return Err(
                IoError {
                    kind: IoErrorKind::Other,
                    detail: String::from_str("the path is a directory"),
                },
            );
        }
        let file = MemoryFile { path: String::from_str(path), contents: slice_to_vec(contents) };
        let place = self.find_file(path);
        let mut files: Vec<MemoryFile> = Vec::new();
        core::mem::swap(&mut self.files, &mut files);
        match place {
            Some(i) => {
                proof {
                    lemma_files_after_update(files@, i as int, file);
                }
                files.set(i, file);
            },
            None => {
                proof {
                    lemma_files_after_push(files@, file);
                }
                files.push(file);
            },
        }
        self.files = files;
        Ok(())
    }

    fn present(&self, path: &str) -> (r: bool) {
        self.has_dir(path) || self.find_file(path).is_some()
    }

    fn read(&self, path: &str) -> (r: Result<Vec<u8>, IoError>)
        ensures
            r matches Err(e) ==> e.kind == IoErrorKind::NotFound,
    {
        proof {
            use_type_invariant(self);
        }
        match self.find_file(path) {
            Some(i) => {
                proof {
                    lemma_file_found(self.files@, path@, i as int);
                }
                Ok(self.files[i].contents.clone())
            },
            None => Err(
                IoError {
                    kind: IoErrorKind::NotFound,
                    detail: String::from_str("no file stands at the path"),
                },
            ),
        }
    }
}

} // verus!
