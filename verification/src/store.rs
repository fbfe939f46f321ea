//! The store: a map from entry names to ciphertext blobs, and its layout as
//! one file per entry beneath a root directory.

use crate::fs::{FileSystemOperator, IoError};
use crate::text::same_text;
use vstd::prelude::*;
use vstd::string::StringExecFns;

verus! {

/// What follows the entry's name in the name of its file.
pub const GPG_FILE_POSTFIX: &'static str = ".gpg";

/// Why the store could not do what was asked.
#[derive(Debug, PartialEq, Eq)]
pub enum StoreError {
    /// No entry of this name is in the store.
    EntryDoesNotExist(String),
    /// The backing medium failed.
    IoError(IoError),
    /// This name cannot be given to an entry.
    InvalidName(String),
}

impl StoreError {
    /// The text shown to the operator for this error.
    pub open spec fn message_text(self) -> Seq<char> {
        match self {
            StoreError::EntryDoesNotExist(name) => "The entry \""@ + name@ + "\" does not exist!"@,
            StoreError::IoError(_) => "Encountered IO error when interacting with the filesystem"@,
            StoreError::InvalidName(name) => "The name \""@ + name@
                + "\" cannot be given to an entry!"@,
        }
    }

    /// The text shown to the operator for this error.
    pub fn message(&self) -> (r: String)
        ensures
            r@ == self.message_text(),
    {
        match self {
            StoreError::EntryDoesNotExist(name) => {
                let mut text = String::from_str("The entry \"");
                text.append(name.as_str());
                text.append("\" does not exist!");
                text
            },
            StoreError::IoError(_) => String::from_str(
                "Encountered IO error when interacting with the filesystem",
            ),
            StoreError::InvalidName(name) => {
                let mut text = String::from_str("The name \"");
                text.append(name.as_str());
                text.append("\" cannot be given to an entry!");
                text
            },
        }
    }
}

/// Whether `c` parts the components of a path.
pub open spec fn is_separator(c: char) -> bool {
    c == '/' || c == '\\'
}

/// The names an entry may have: not empty, a single path component, and
/// neither of the two components that name a directory itself or its parent.
pub open spec fn valid_entry_name(name: Seq<char>) -> bool {
    &&& name.len() > 0
    &&& forall|i: int| 0 <= i < name.len() ==> !is_separator(#[trigger] name[i])
    &&& name != "."@
    &&& name != ".."@
}

/// Whether an entry may be called `name`.
pub fn is_valid_entry_name(name: &str) -> (r: bool)
    ensures
        r == valid_entry_name(name@),
{
    if name.is_empty() || same_text(name, ".") || same_text(name, "..") {
        return false;
    }
    let mut clean = true;
    for c in it: name.chars()
        invariant
            it.seq() == name@,
            clean <==> forall|i: int| 0 <= i < it.index() ==> !is_separator(#[trigger] name@[i]),
    {
        if c == '/' || c == '\\' {
            clean = false;
        }
    }
    clean
}

/// The path of the file that holds the entry `name` of the store rooted at `base`.
pub open spec fn entry_path(base: Seq<char>, name: Seq<char>) -> Seq<char> {
    base + "/"@ + name + GPG_FILE_POSTFIX@
}

/// The entries that a file tree holds for the store rooted at `base`: for each
/// valid name whose file is there, the contents of that file.
pub open spec fn entries_under(files: Map<Seq<char>, Seq<u8>>, base: Seq<char>) -> Map<
    Seq<char>,
    Seq<u8>,
> {
    Map::new(
        |name: Seq<char>| valid_entry_name(name) && files.contains_key(entry_path(base, name)),
        |name: Seq<char>| files[entry_path(base, name)],
    )
}

/// Two entries of one store share a file only if they share their name.
pub proof fn lemma_entry_path_is_injective(base: Seq<char>, a: Seq<char>, b: Seq<char>)
    requires
        entry_path(base, a) == entry_path(base, b),
    ensures
        a == b,
{
    let lead = (base + "/"@).len() as int;
    let pa = entry_path(base, a);
    let pb = entry_path(base, b);
    assert(pa.len() == lead + a.len() + GPG_FILE_POSTFIX@.len());
    assert(pb.len() == lead + b.len() + GPG_FILE_POSTFIX@.len());
    assert forall|i: int| 0 <= i < a.len() implies a[i] == b[i] by {
        assert(pa[lead + i] == a[i]);
        assert(pb[lead + i] == b[i]);
    }
    assert(a =~= b);
}

/// The file of an entry with a valid name lies directly beneath the store's
/// root: its path is the root, one separator, and a last component that holds
/// no separator.
pub proof fn lemma_entry_path_stays_beneath_root(base: Seq<char>, name: Seq<char>)
    requires
        valid_entry_name(name),
    ensures
        entry_path(base, name).len() == base.len() + 1 + name.len() + 4,
        entry_path(base, name).subrange(0, base.len() as int) == base,
        entry_path(base, name)[base.len() as int] == '/',
        forall|i: int|
            base.len() < i < entry_path(base, name).len() ==> !is_separator(
                #[trigger] entry_path(base, name)[i],
            ),
{
    reveal_strlit("/");
    reveal_strlit(".gpg");
    let path = entry_path(base, name);
    assert forall|i: int| base.len() < i < path.len() implies !is_separator(#[trigger] path[i]) by {
        let k = i - base.len() - 1;
        if k < name.len() {
            assert(path[i] == name[k]);
        } else {
            assert(path[i] == GPG_FILE_POSTFIX@[k - name.len()]);
        }
    }
}

/// Writing the file of an entry changes that entry and no other.
pub proof fn lemma_entries_after_write(
    files: Map<Seq<char>, Seq<u8>>,
    base: Seq<char>,
    name: Seq<char>,
    value: Seq<u8>,
)
    requires
        valid_entry_name(name),
    ensures
        entries_under(files.insert(entry_path(base, name), value), base) == entries_under(
            files,
            base,
        ).insert(name, value),
{
    let after = entries_under(files.insert(entry_path(base, name), value), base);
    let want = entries_under(files, base).insert(name, value);
    assert forall|n: Seq<char>| n != name implies entry_path(base, n) != entry_path(base, name) by {
        if entry_path(base, n) == entry_path(base, name) {
            lemma_entry_path_is_injective(base, n, name);
        }
    }
    assert(after =~= want);
}

/// What a dependable store does on an insert of `value` under `name`: it
/// takes the value in, where the name is valid, and refuses the name
/// otherwise, leaving what it holds as it was.
pub open spec fn insert_outcome(
    before: Map<Seq<char>, Seq<u8>>,
    after: Map<Seq<char>, Seq<u8>>,
    name: Seq<char>,
    value: Seq<u8>,
    r: Result<(), StoreError>,
) -> bool {
    match r {
        Ok(_) => valid_entry_name(name) && after == before.insert(name, value),
        Err(StoreError::InvalidName(n)) => n@ == name && !valid_entry_name(name) && after == before,
        Err(_) => false,
    }
}

/// What a dependable store hands back on a get of `name`: the value under the
/// name, where there is one, and otherwise that the entry does not exist or,
/// for a name that no entry can have, that the name is not valid.
pub open spec fn get_outcome(
    entries: Map<Seq<char>, Seq<u8>>,
    name: Seq<char>,
    r: Result<Vec<u8>, StoreError>,
) -> bool {
    match r {
        Ok(value) => valid_entry_name(name) && entries.contains_key(name) && value@
            == entries[name],
        Err(StoreError::InvalidName(n)) => n@ == name && !valid_entry_name(name),
        Err(StoreError::EntryDoesNotExist(n)) => n@ == name && valid_entry_name(name)
            && !entries.contains_key(name),
        Err(StoreError::IoError(_)) => false,
    }
}

/// Of two inserts under one name the later one stands. Where a dependable
/// store has taken in `first` and then `second` under `name`, it holds what it
/// would hold had the first insert never been made, and a get of `name` hands
/// back `second`.
pub proof fn lemma_last_write_wins(
    start: Map<Seq<char>, Seq<u8>>,
    once: Map<Seq<char>, Seq<u8>>,
    twice: Map<Seq<char>, Seq<u8>>,
    name: Seq<char>,
    first: Seq<u8>,
    second: Seq<u8>,
    got: Result<Vec<u8>, StoreError>,
)
    requires
        insert_outcome(start, once, name, first, Ok(())),
        insert_outcome(once, twice, name, second, Ok(())),
        get_outcome(twice, name, got),
    ensures
        twice == start.insert(name, second),
        got matches Ok(value) && value@ == second,
{
}

/// What was inserted is what a get hands back, until the next insert under
/// the same name.
pub proof fn lemma_get_after_insert(
    before: Map<Seq<char>, Seq<u8>>,
    after: Map<Seq<char>, Seq<u8>>,
    name: Seq<char>,
    value: Seq<u8>,
    got: Result<Vec<u8>, StoreError>,
)
    requires
        insert_outcome(before, after, name, value, Ok(())),
        get_outcome(after, name, got),
    ensures
        got matches Ok(v) && v@ == value,
{
}

/// To insert the same value again is to change nothing.
pub proof fn lemma_insert_again_changes_nothing(
    start: Map<Seq<char>, Seq<u8>>,
    once: Map<Seq<char>, Seq<u8>>,
    twice: Map<Seq<char>, Seq<u8>>,
    name: Seq<char>,
    value: Seq<u8>,
)
    requires
        insert_outcome(start, once, name, value, Ok(())),
        insert_outcome(once, twice, name, value, Ok(())),
    ensures
        twice == once,
{
}

/// An insert under one name changes nothing under another.
pub proof fn lemma_insert_leaves_others(
    before: Map<Seq<char>, Seq<u8>>,
    after: Map<Seq<char>, Seq<u8>>,
    name: Seq<char>,
    value: Seq<u8>,
    r: Result<(), StoreError>,
    other: Seq<char>,
)
    requires
        insert_outcome(before, after, name, value, r),
        other != name,
    ensures
        after.contains_key(other) == before.contains_key(other),
        after.contains_key(other) ==> after[other] == before[other],
{
}

/// What an insert of `value` under `name` does to a dependable file system
/// beneath a store rooted at `base`. It writes the entry's file and no other,
/// where the name is valid and no directory stands in the file's place; it
/// writes nothing otherwise; and it makes, changes or removes no directory.
pub open spec fn disk_after_insert(
    files: Map<Seq<char>, Seq<u8>>,
    dirs: Set<Seq<char>>,
    files_after: Map<Seq<char>, Seq<u8>>,
    dirs_after: Set<Seq<char>>,
    base: Seq<char>,
    name: Seq<char>,
    value: Seq<u8>,
    r: Result<(), StoreError>,
) -> bool {
    &&& dirs_after == dirs
    &&& match r {
        Ok(_) => {
            &&& valid_entry_name(name)
            &&& !dirs.contains(entry_path(base, name))
            &&& files_after == files.insert(entry_path(base, name), value)
        },
        Err(StoreError::InvalidName(n)) => {
            &&& n@ == name
            &&& !valid_entry_name(name)
            &&& files_after == files
        },
        Err(StoreError::IoError(_)) => {
            &&& valid_entry_name(name)
            &&& dirs.contains(entry_path(base, name))
            &&& files_after == files
        },
        Err(StoreError::EntryDoesNotExist(_)) => false,
    }
}

/// What a get of `name` hands back from a dependable file system beneath a
/// store rooted at `base`: the whole contents of the entry's file, where that
/// file is there; that the entry does not exist, where nothing stands in the
/// file's place; and an I/O error, where a directory does.
pub open spec fn disk_fetched(
    files: Map<Seq<char>, Seq<u8>>,
    dirs: Set<Seq<char>>,
    base: Seq<char>,
    name: Seq<char>,
    r: Result<Vec<u8>, StoreError>,
) -> bool {
    match r {
        Ok(value) => {
            &&& valid_entry_name(name)
            &&& files.contains_key(entry_path(base, name))
            &&& value@ == files[entry_path(base, name)]
        },
        Err(StoreError::InvalidName(n)) => n@ == name && !valid_entry_name(name),
        Err(StoreError::EntryDoesNotExist(n)) => {
            &&& n@ == name
            &&& valid_entry_name(name)
            &&& !files.contains_key(entry_path(base, name))
            &&& !dirs.contains(entry_path(base, name))
        },
        Err(StoreError::IoError(_)) => {
            &&& valid_entry_name(name)
            &&& !files.contains_key(entry_path(base, name))
            &&& dirs.contains(entry_path(base, name))
        },
    }
}

/// An insert changes no path but the entry's file. Whatever an insert under
/// `name` reports, every other path holds after it what it held before.
pub proof fn lemma_insert_leaves_other_paths(
    files: Map<Seq<char>, Seq<u8>>,
    dirs: Set<Seq<char>>,
    files_after: Map<Seq<char>, Seq<u8>>,
    dirs_after: Set<Seq<char>>,
    base: Seq<char>,
    name: Seq<char>,
    value: Seq<u8>,
    r: Result<(), StoreError>,
    other: Seq<char>,
)
    requires
        disk_after_insert(files, dirs, files_after, dirs_after, base, name, value, r),
        other != entry_path(base, name),
    ensures
        files_after.contains_key(other) == files.contains_key(other),
        files_after.contains_key(other) ==> files_after[other] == files[other],
        dirs_after.contains(other) == dirs.contains(other),
{
}

/// To insert the same value again is to leave the disk as it is. Where an
/// insert of `value` under `name` has succeeded, a second one with the same
/// value succeeds too and leaves every file and every directory as the first
/// left it.
pub proof fn lemma_insert_again_leaves_the_disk(
    files: Map<Seq<char>, Seq<u8>>,
    dirs: Set<Seq<char>>,
    files_once: Map<Seq<char>, Seq<u8>>,
    dirs_once: Set<Seq<char>>,
    files_twice: Map<Seq<char>, Seq<u8>>,
    dirs_twice: Set<Seq<char>>,
    base: Seq<char>,
    name: Seq<char>,
    value: Seq<u8>,
    second: Result<(), StoreError>,
)
    requires
        disk_after_insert(files, dirs, files_once, dirs_once, base, name, value, Ok(())),
        disk_after_insert(files_once, dirs_once, files_twice, dirs_twice, base, name, value, second),
    ensures
        second is Ok,
        files_twice == files_once,
        dirs_twice == dirs_once,
{
    let path = entry_path(base, name);
    assert(files.insert(path, value).insert(path, value) =~= files.insert(path, value));
}

/// What an insert reports once the file system has answered the write of the
/// entry's file: success, where the write succeeded, and otherwise an I/O
/// error that keeps the file system's own error as its cause.
pub fn write_verdict(written: Result<(), IoError>) -> (r: Result<(), StoreError>)
    ensures
        match written {
            Ok(_) => r is Ok,
            Err(e) => r == Err::<(), StoreError>(StoreError::IoError(e)),
        },
{
    match written {
        Ok(_) => Ok(()),
        Err(e) => Err(StoreError::IoError(e)),
    }
}

/// What a get of `name` reports once the file system has answered: `None`
/// stands for nothing in the place of the entry's file, and otherwise
/// `answer` holds what the read of that file gave. The contents are handed on
/// whole; a failed read becomes an I/O error that keeps the file system's own
/// error as its cause and hands over no contents.
pub fn read_verdict(name: &str, answer: Option<Result<Vec<u8>, IoError>>) -> (r: Result<
    Vec<u8>,
    StoreError,
>)
    ensures
        match answer {
            None => r matches Err(StoreError::EntryDoesNotExist(n)) && n@ == name@,
            Some(Ok(contents)) => r == Ok::<Vec<u8>, StoreError>(contents),
            Some(Err(e)) => r == Err::<Vec<u8>, StoreError>(StoreError::IoError(e)),
        },
{
    match answer {
        None => Err(StoreError::EntryDoesNotExist(String::from_str(name))),
        Some(Ok(contents)) => Ok(contents),
        Some(Err(e)) => Err(StoreError::IoError(e)),
    }
}

/// A map from entry names to ciphertext blobs on some backing medium. The
/// store never looks into a blob.
///
/// A store may declare itself dependable. It then holds what `entries` shows,
/// changes only as the contracts below say, and fails only where the name
/// gives the reason or the entry is missing. Of a store that does not declare
/// itself dependable nothing is promised.
pub trait Store {
    /// Whether this store behaves as its model says.
    open spec fn dependable(&self) -> bool {
        false
    }

    /// What the store holds.
    open spec fn entries(&self) -> Map<Seq<char>, Seq<u8>> {
        Map::empty()
    }

    /// Puts `value` under `name`, in place of what was there.
    fn insert(&mut self, name: &str, value: &[u8]) -> (r: Result<(), StoreError>)
        ensures
            old(self).dependable() ==> final(self).dependable() && insert_outcome(
                old(self).entries(),
                final(self).entries(),
                name@,
                value@,
                r,
            ),
    ;

    /// The value under `name`, whole and as it was put.
    fn get(&self, name: &str) -> (r: Result<Vec<u8>, StoreError>)
        ensures
            self.dependable() ==> get_outcome(self.entries(), name@, r),
    ;
}

/// A store that keeps each entry in a file of its own, directly beneath a root
/// directory of the file system it is given.
pub struct OnDiskStore<F> {
    base_dir: String,
    fs: F,
}

impl<F: FileSystemOperator> OnDiskStore<F> {
    /// The root directory.
    pub closed spec fn base_dir(&self) -> Seq<char> {
        self.base_dir@
    }

    /// The file system beneath the store.
    pub closed spec fn file_system(&self) -> F {
        self.fs
    }

    /// Whether no directory stands where the file of an entry would.
    pub open spec fn unobstructed(&self) -> bool {
        forall|name: Seq<char>|
            valid_entry_name(name) ==> !self.file_system().dirs().contains(
                #[trigger] entry_path(self.base_dir(), name),
            )
    }

    /// A store rooted at `base_dir` in `fs`.
    pub fn new(base_dir: &str, fs: F) -> (r: Self)
        ensures
            r.base_dir() == base_dir@,
            r.file_system() == fs,
    {
        OnDiskStore { base_dir: String::from_str(base_dir), fs }
    }

    /// The file system beneath the store, for reading.
    pub fn fs(&self) -> (r: &F)
        ensures
            *r == self.file_system(),
    {
        &self.fs
    }

    /// Gives the file system back.
    pub fn into_fs(self) -> (r: F)
        ensures
            r == self.file_system(),
    {
        self.fs
    }

    /// The path of the file that holds the entry `name`.
    pub fn build_entry_path(&self, name: &str) -> (r: String)
        ensures
            r@ == entry_path(self.base_dir(), name@),
    {
        let mut path = self.base_dir.clone();
        path.append("/");
        path.append(name);
        path.append(GPG_FILE_POSTFIX);
        path
    }
}

impl<F: FileSystemOperator> Store for OnDiskStore<F> {
    open spec fn entries(&self) -> Map<Seq<char>, Seq<u8>> {
        entries_under(self.file_system().files(), self.base_dir())
    }

    open spec fn dependable(&self) -> bool {
        self.file_system().dependable() && self.unobstructed()
    }

    fn insert(&mut self, name: &str, value: &[u8]) -> (r: Result<(), StoreError>)
        ensures
            final(self).base_dir() == old(self).base_dir(),
            valid_entry_name(name@) <==> !(r is Err && r->Err_0 is InvalidName),
            r matches Err(StoreError::InvalidName(n)) ==> n@ == name@ && final(self).file_system()
                == old(self).file_system(),
            !(r is Err && r->Err_0 is EntryDoesNotExist),
            old(self).file_system().dependable() ==> {
                &&& final(self).file_system().dependable()
                &&& final(self).file_system().home() == old(self).file_system().home()
                &&& disk_after_insert(
                    old(self).file_system().files(),
                    old(self).file_system().dirs(),
                    final(self).file_system().files(),
                    final(self).file_system().dirs(),
                    old(self).base_dir(),
                    name@,
                    value@,
                    r,
                )
            },
    {
        if !is_valid_entry_name(name) {
            return Err(StoreError::InvalidName(String::from_str(name)));
        }
        let path = self.build_entry_path(name);
        let ghost before = self.fs.files();
        let written = self.fs.touch(path.as_str(), value);
        proof {
            if old(self).dependable() {
                lemma_entries_after_write(before, self.base_dir@, name@, value@);
            }
        }
        write_verdict(written)
    }

    fn get(&self, name: &str) -> (r: Result<Vec<u8>, StoreError>)
        ensures
            valid_entry_name(name@) <==> !(r is Err && r->Err_0 is InvalidName),
            r matches Err(StoreError::InvalidName(n)) ==> n@ == name@,
            r matches Err(StoreError::EntryDoesNotExist(n)) ==> n@ == name@,
            self.file_system().dependable() ==> disk_fetched(
                self.file_system().files(),
                self.file_system().dirs(),
                self.base_dir(),
                name@,
                r,
            ),
    {
        if !is_valid_entry_name(name) {
            return Err(StoreError::InvalidName(String::from_str(name)));
        }
        let path = self.build_entry_path(name);
        let answer = if self.fs.present(path.as_str()) {
            Some(self.fs.read(path.as_str()))
        } else {
            None
        };
        read_verdict(name, answer)
    }
}

} // verus!

