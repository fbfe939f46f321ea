//! The three operations on a store: initialize, insert and retrieve. Each
//! drives the secret source, the cipher gateway, the store and the file system
//! in a fixed order and reports one typed result or one typed error.

use crate::cli::{Action, Args};
use crate::crypto::{CryptoError, CryptoGateway};
use crate::fs::{ConfigError, FileSystemOperator, IoError, IoErrorKind};
use crate::secrets::{SecretReader, ZeroizedByteVec, ZeroizedString};
use crate::store::{valid_entry_name, Store, StoreError};
use vstd::prelude::*;
use vstd::string::StringExecFns;
use vstd::string::StringSliceAdditionalSpecFns;
use vstd::utf8::*;

verus! {

/// The directory beneath the operator's home directory that is the store's root.
pub const PASSWORD_STORE_DIRECTORY: &'static str = ".password-store";

/// The file beneath the store's root that records the id of the store's key.
pub const KEY_ID_FILE: &'static str = ".gpg-id";

/// What was asked of the store when it failed.
#[derive(Clone, Copy, Debug, PartialEq, Eq, Structural)]
pub enum StoreAction {
    Insert,
    Retrieve,
}

/// What an operation hands back when it has succeeded.
pub enum HandlerResult {
    /// The store is set up.
    Initialize,
    /// The entry of this name is saved.
    Insert(String),
    /// The secret of the entry that was asked for.
    Retrieve(ZeroizedString),
}

/// Why an operation failed.
#[derive(Debug, PartialEq, Eq)]
pub enum HandlerError {
    /// The secret could not be read from its source.
    Input(IoError),
    /// The cipher refused: the key is missing, or it could not encrypt.
    Crypto(CryptoError),
    /// The store failed on the entry `name`.
    Store { action: StoreAction, name: String, cause: StoreError },
    /// No entry of this name is in the store.
    EntryDoesNotExist(String),
    /// The entry `name` is there and does not decrypt to text.
    Undecryptable { name: String, reason: CryptoError },
    /// A fact about the environment is missing.
    Config(ConfigError),
    /// The store's root or its key file could not be made.
    Provision(IoError),
}

impl HandlerError {
    /// The text shown to the operator for this error.
    pub open spec fn message_text(self) -> Seq<char> {
        match self {
            HandlerError::Input(_) => "failed to read from input source"@,
            HandlerError::Crypto(source) => source.message_text(),
            HandlerError::Store { action: StoreAction::Insert, name, .. } =>
                "An error occurred when attempting to insert the entry \""@ + name@ + "\"."@,
            HandlerError::Store { action: StoreAction::Retrieve, name, .. } =>
                "An error occurred when attempting to retrieve the entry \""@ + name@ + "\"."@,
            HandlerError::EntryDoesNotExist(name) => "The entry \""@ + name@
                + "\" does not exist!"@,
            HandlerError::Undecryptable { name, .. } => "The entry \""@ + name@
                + "\" could not be decrypted!"@,
            HandlerError::Config(source) => source.message_text(),
            HandlerError::Provision(_) => "The store could not be initialized."@,
        }
    }

    /// The text shown to the operator for this error.
    pub fn message(&self) -> (r: String)
        ensures
            r@ == self.message_text(),
    {
        match self {
            HandlerError::Input(_) => String::from_str("failed to read from input source"),
            HandlerError::Crypto(source) => source.message(),
            HandlerError::Store { action, name, .. } => {
                let mut text = match action {
                    StoreAction::Insert => String::from_str(
                        "An error occurred when attempting to insert the entry \"",
                    ),
                    StoreAction::Retrieve => String::from_str(
                        "An error occurred when attempting to retrieve the entry \"",
                    ),
                };
                text.append(name.as_str());
                text.append("\".");
                text
            },
            HandlerError::EntryDoesNotExist(name) => {
                let mut text = String::from_str("The entry \"");
                text.append(name.as_str());
                text.append("\" does not exist!");
                text
            },
            HandlerError::Undecryptable { name, .. } => {
                let mut text = String::from_str("The entry \"");
                text.append(name.as_str());
                text.append("\" could not be decrypted!");
                text
            },
            HandlerError::Config(source) => source.message(),
            HandlerError::Provision(_) => String::from_str("The store could not be initialized."),
        }
    }
}

/// The store's root for an operator whose home directory is `home`.
pub open spec fn store_root(home: Seq<char>) -> Seq<char> {
    home + "/"@ + PASSWORD_STORE_DIRECTORY@
}

/// The file that records the key's id, for a store rooted at `root`.
pub open spec fn key_id_path(root: Seq<char>) -> Seq<char> {
    root + "/"@ + KEY_ID_FILE@
}

/// The files after the store of the operator at `home` was set up for `key_id`:
/// the key file holds the id, and no other file has changed.
pub open spec fn provisioned_files(
    files: Map<Seq<char>, Seq<u8>>,
    home: Seq<char>,
    key_id: Seq<char>,
) -> Map<Seq<char>, Seq<u8>> {
    files.insert(key_id_path(store_root(home)), encode_utf8(key_id))
}

/// The directories after the store of the operator at `home` was set up: the
/// root is among them, unless a file stood in its place.
pub open spec fn provisioned_dirs(
    files: Map<Seq<char>, Seq<u8>>,
    dirs: Set<Seq<char>>,
    home: Seq<char>,
) -> Set<Seq<char>> {
    if files.contains_key(store_root(home)) {
        dirs
    } else {
        dirs.insert(store_root(home))
    }
}

/// The key file of a store is another path than its root.
pub proof fn lemma_key_file_is_not_the_root(root: Seq<char>)
    ensures
        key_id_path(root) != root,
{
    reveal_strlit("/");
}

/// The store's root for an operator whose home directory is `home`.
pub fn store_root_of(home: &str) -> (r: String)
    ensures
        r@ == store_root(home@),
{
    let mut root = String::from_str(home);
    root.append("/");
    root.append(PASSWORD_STORE_DIRECTORY);
    root
}

/// The file that records the key's id, for a store rooted at `root`.
pub fn key_id_path_of(root: &str) -> (r: String)
    ensures
        r@ == key_id_path(root@),
{
    let mut path = String::from_str(root);
    path.append("/");
    path.append(KEY_ID_FILE);
    path
}

/// What an insert reports when the secret could not be read: that the input
/// failed, with the source's own error as the cause.
pub fn input_failure(source: IoError) -> (r: HandlerError)
    ensures
        r == HandlerError::Input(source),
{
    HandlerError::Input(source)
}

/// What an insert reports when the store has refused the blob: the store's
/// error, with the entry's name beside it.
pub fn insert_failure(name: &str, source: StoreError) -> (r: HandlerError)
    ensures
        r matches HandlerError::Store { action, name: n, cause } && action
            == StoreAction::Insert && n@ == name@ && cause == source,
{
    HandlerError::Store { action: StoreAction::Insert, name: String::from_str(name), cause: source }
}

/// What a retrieve reports when the store has handed nothing over: that the
/// entry does not exist, where the store says so, and otherwise the store's
/// error with the entry's name beside it.
pub fn fetch_failure(name: &str, source: StoreError) -> (r: HandlerError)
    ensures
        match source {
            StoreError::EntryDoesNotExist(_) => r matches HandlerError::EntryDoesNotExist(n) && n@
                == name@,
            _ => r matches HandlerError::Store { action, name: n, cause } && action
                == StoreAction::Retrieve && n@ == name@ && cause == source,
        },
{
    match source {
        StoreError::EntryDoesNotExist(_) => HandlerError::EntryDoesNotExist(String::from_str(name)),
        other => HandlerError::Store {
            action: StoreAction::Retrieve,
            name: String::from_str(name),
            cause: other,
        },
    }
}

/// What a retrieve reports once the gateway has answered: the plaintext as
/// text, where the gateway handed over bytes that are valid UTF-8, and
/// otherwise that the entry could not be decrypted.
pub fn unseal(name: &str, opened: Result<ZeroizedByteVec, CryptoError>) -> (r: Result<
    HandlerResult,
    HandlerError,
>)
    ensures
        match opened {
            Ok(plaintext) => if valid_utf8(plaintext@) {
                r matches Ok(HandlerResult::Retrieve(text)) && text@ == decode_utf8(plaintext@)
            } else {
                r matches Err(HandlerError::Undecryptable { name: n, reason }) && n@ == name@
                    && reason == CryptoError::NotText
            },
            Err(e) => r matches Err(HandlerError::Undecryptable { name: n, reason }) && n@ == name@
                && reason == e,
        },
{
    match opened {
        Ok(plaintext) => match plaintext.into_zeroized_string() {
            Ok(text) => Ok(HandlerResult::Retrieve(text)),
            Err(_) => Err(
                HandlerError::Undecryptable {
                    name: String::from_str(name),
                    reason: CryptoError::NotText,
                },
            ),
        },
        Err(reason) => Err(HandlerError::Undecryptable { name: String::from_str(name), reason }),
    }
}

/// Whether an initialize may go on, once the gateway has said whether the key
/// is there: it may where the key was found, and only there.
pub fn key_verdict(key_id: &str, found: Result<bool, CryptoError>) -> (r: Result<(), HandlerError>)
    ensures
        match found {
            Ok(true) => r is Ok,
            Ok(false) => r matches Err(HandlerError::Crypto(CryptoError::KeyNotFound(k))) && k@
                == key_id@,
            Err(e) => r matches Err(HandlerError::Crypto(source)) && source == e,
        },
{
    match found {
        Ok(true) => Ok(()),
        Ok(false) => Err(HandlerError::Crypto(CryptoError::KeyNotFound(String::from_str(key_id)))),
        Err(source) => Err(HandlerError::Crypto(source)),
    }
}

/// Whether an initialize may go on, once the store's root was to be made: it
/// may where the root was made or stood there already.
pub fn root_verdict(made: Result<(), IoError>) -> (r: Result<(), HandlerError>)
    ensures
        match made {
            Ok(_) => r is Ok,
            Err(e) => if e.kind == IoErrorKind::AlreadyExists {
                r is Ok
            } else {
                r matches Err(HandlerError::Provision(source)) && source == e
            },
        },
{
    match made {
        Ok(_) => Ok(()),
        Err(e) => match e.kind {
            IoErrorKind::AlreadyExists => Ok(()),
            _ => Err(HandlerError::Provision(e)),
        },
    }
}

/// The operations, over a secret source, a store, a cipher gateway and a file system.
pub struct Handler<R, S, G, F> {
    gateway: G,
    store: S,
    reader: R,
    fs: F,
}

impl<R: SecretReader, S: Store, G: CryptoGateway, F: FileSystemOperator> Handler<R, S, G, F> {
    /// The secret source.
    pub closed spec fn reader(&self) -> R {
        self.reader
    }

    /// The store.
    pub closed spec fn store(&self) -> S {
        self.store
    }

    /// The cipher gateway.
    pub closed spec fn gateway(&self) -> G {
        self.gateway
    }

    /// The file system.
    pub closed spec fn file_system(&self) -> F {
        self.fs
    }

    /// What [`Handler::insert`] does: from `pre` to `post`, with the result `r`.
    pub open spec fn inserted(
        pre: Self,
        post: Self,
        name: Seq<char>,
        key_id: Seq<char>,
        r: Result<HandlerResult, HandlerError>,
    ) -> bool {
        &&& post.reader() == pre.reader()
        &&& post.gateway() == pre.gateway()
        &&& post.file_system() == pre.file_system()
        &&& match r {
            Ok(HandlerResult::Insert(n)) => n@ == name,
            Ok(_) => false,
            Err(HandlerError::Input(_)) => post.store() == pre.store(),
            Err(HandlerError::Crypto(_)) => post.store() == pre.store(),
            Err(HandlerError::Store { action, name: n, .. }) => action == StoreAction::Insert && n@
                == name,
            Err(_) => false,
        }
        &&& pre.reader().dependable() && pre.gateway().dependable() && !pre.gateway().has_key(
            key_id,
        ) ==> {
            &&& r matches Err(HandlerError::Crypto(CryptoError::KeyNotFound(k)))
            &&& k@ == key_id
        }
        &&& pre.reader().dependable() && pre.gateway().dependable() && pre.store().dependable()
            ==> {
            &&& post.store().dependable()
            &&& pre.gateway().has_key(key_id) ==> if !valid_entry_name(name) {
                &&& r matches Err(HandlerError::Store { cause: StoreError::InvalidName(n), .. })
                &&& n@ == name
                &&& post.store().entries() == pre.store().entries()
            } else {
                &&& r is Ok
                &&& post.store().entries().contains_key(name)
                &&& pre.gateway().opens_to(post.store().entries()[name]) == Some(
                    pre.reader().secret(),
                )
                &&& post.store().entries().remove(name) == pre.store().entries().remove(name)
            }
        }
    }

    /// What [`Handler::retrieve`] hands back as `r`.
    pub open spec fn retrieved(self, name: Seq<char>, r: Result<HandlerResult, HandlerError>) -> bool {
        &&& match r {
            Ok(HandlerResult::Retrieve(_)) => true,
            Ok(_) => false,
            Err(HandlerError::EntryDoesNotExist(n)) => n@ == name,
            Err(HandlerError::Store { action, name: n, cause }) => action == StoreAction::Retrieve
                && n@ == name && !(cause is EntryDoesNotExist),
            Err(HandlerError::Undecryptable { name: n, .. }) => n@ == name,
            Err(_) => false,
        }
        &&& self.store().dependable() ==> if !valid_entry_name(name) {
            &&& r matches Err(HandlerError::Store { cause: StoreError::InvalidName(n), .. })
            &&& n@ == name
        } else if !self.store().entries().contains_key(name) {
            r is Err && r->Err_0 is EntryDoesNotExist
        } else {
            self.gateway().dependable() ==> match self.gateway().opens_to(
                self.store().entries()[name],
            ) {
                Some(plaintext) => if valid_utf8(plaintext) {
                    r matches Ok(HandlerResult::Retrieve(text)) && text@ == decode_utf8(plaintext)
                } else {
                    r matches Err(HandlerError::Undecryptable { reason, .. }) && reason
                        == CryptoError::NotText
                },
                None => r is Err && r->Err_0 is Undecryptable,
            }
        }
    }

    /// What [`Handler::initialize`] does: from `pre` to `post`, with the result `r`.
    pub open spec fn initialized(
        pre: Self,
        post: Self,
        key_id: Seq<char>,
        r: Result<HandlerResult, HandlerError>,
    ) -> bool {
        &&& post.reader() == pre.reader()
        &&& post.gateway() == pre.gateway()
        &&& post.store() == pre.store()
        &&& match r {
            Ok(HandlerResult::Initialize) => true,
            Ok(_) => false,
            Err(HandlerError::Crypto(_)) => post.file_system() == pre.file_system(),
            Err(HandlerError::Config(_)) => post.file_system() == pre.file_system(),
            Err(HandlerError::Provision(_)) => true,
            Err(_) => false,
        }
        &&& pre.gateway().dependable() && !pre.gateway().has_key(key_id) ==> {
            &&& r matches Err(HandlerError::Crypto(CryptoError::KeyNotFound(k)))
            &&& k@ == key_id
        }
        &&& pre.gateway().dependable() && pre.gateway().has_key(key_id) ==> !(r matches Err(
            HandlerError::Crypto(_),
        ))
        &&& pre.gateway().dependable() && pre.file_system().dependable() && pre.gateway().has_key(
            key_id,
        ) ==> {
            let files = pre.file_system().files();
            let dirs = pre.file_system().dirs();
            &&& post.file_system().dependable()
            &&& post.file_system().home() == pre.file_system().home()
            &&& match pre.file_system().home() {
                None => r == Err::<HandlerResult, HandlerError>(
                    HandlerError::Config(ConfigError::HomeDirectoryUnknown),
                ),
                Some(home) => {
                    &&& post.file_system().dirs() == provisioned_dirs(files, dirs, home)
                    &&& if dirs.contains(key_id_path(store_root(home))) {
                        &&& r is Err
                        &&& r->Err_0 is Provision
                        &&& post.file_system().files() == files
                    } else {
                        &&& r is Ok
                        &&& post.file_system().files() == provisioned_files(files, home, key_id)
                    }
                },
            }
        }
    }

    /// A handler over the four capabilities it is given.
    pub fn new(store: S, reader: R, gateway: G, fs: F) -> (r: Self)
        ensures
            r.store() == store,
            r.reader() == reader,
            r.gateway() == gateway,
            r.file_system() == fs,
    {
        Self { gateway, store, reader, fs }
    }

    /// The store, for reading.
    pub fn store_ref(&self) -> (r: &S)
        ensures
            *r == self.store(),
    {
        &self.store
    }

    /// The cipher gateway, for reading.
    pub fn gateway_ref(&self) -> (r: &G)
        ensures
            *r == self.gateway(),
    {
        &self.gateway
    }

    /// The file system, for reading.
    pub fn file_system_ref(&self) -> (r: &F)
        ensures
            *r == self.file_system(),
    {
        &self.fs
    }

    /// Reads a fresh secret from the source.
    pub fn read_in_secret_value(&mut self) -> (r: Result<ZeroizedByteVec, HandlerError>)
        ensures
            *final(self) == *old(self),
            r matches Err(e) ==> e is Input,
            old(self).reader().dependable() ==> (r matches Ok(secret) && secret@ == old(
                self,
            ).reader().secret()),
    {
        match self.reader.read_secret() {
            Ok(secret) => Ok(secret),
            Err(e) => Err(input_failure(e)),
        }
    }

    /// Puts `ciphertext` into the store under `name`.
    pub fn write_out_value(&mut self, name: &str, ciphertext: &[u8]) -> (r: Result<
        (),
        HandlerError,
    >)
        ensures
            final(self).reader() == old(self).reader(),
            final(self).gateway() == old(self).gateway(),
            final(self).file_system() == old(self).file_system(),
            r matches Err(e) ==> (e matches HandlerError::Store { action, name: n, .. } && action
                == StoreAction::Insert && n@ == name@),
            old(self).store().dependable() ==> {
                &&& final(self).store().dependable()
                &&& if valid_entry_name(name@) {
                    &&& r is Ok
                    &&& final(self).store().entries() == old(self).store().entries().insert(
                        name@,
                        ciphertext@,
                    )
                } else {
                    &&& r matches Err(HandlerError::Store { cause: StoreError::InvalidName(n), .. })
                    &&& n@ == name@
                    &&& final(self).store().entries() == old(self).store().entries()
                }
            },
    {
        match self.store.insert(name, ciphertext) {
            Ok(_) => Ok(()),
            Err(source) => Err(insert_failure(name, source)),
        }
    }

    /// Reads a secret from the source, encrypts it under the key `key_id` and
    /// puts the ciphertext into the store under `name`. The plaintext is
    /// released as soon as the gateway has answered.
    pub fn insert(&mut self, name: &str, key_id: &str) -> (r: Result<HandlerResult, HandlerError>)
        ensures
            Self::inserted(*old(self), *final(self), name@, key_id@, r),
    {
        let sealed = {
            let secret = match self.read_in_secret_value() {
                Ok(secret) => secret,
                Err(e) => {
                    return Err(e);
                },
            };
            self.gateway.encrypt(key_id, secret.as_bytes())
        };
        match sealed {
            Ok(ciphertext) => {
                match self.write_out_value(name, ciphertext.as_slice()) {
                    Ok(_) => {
                        proof {
                            if old(self).store().dependable() {
                                assert(self.store().entries().remove(name@) =~= old(
                                    self,
                                ).store().entries().remove(name@));
                            }
                        }
                        Ok(HandlerResult::Insert(String::from_str(name)))
                    },
                    Err(e) => Err(e),
                }
            },
            Err(source) => Err(HandlerError::Crypto(source)),
        }
    }

    /// Fetches the entry `name` from the store and decrypts it to text.
    pub fn retrieve(&self, name: &str) -> (r: Result<HandlerResult, HandlerError>)
        ensures
            self.retrieved(name@, r),
    {
        match self.store.get(name) {
            Ok(ciphertext) => unseal(name, self.gateway.decrypt(ciphertext.as_slice())),
            Err(source) => Err(fetch_failure(name, source)),
        }
    }

    /// Sets the store up for the key `key_id`: makes sure that the key is
    /// there, makes the store's root beneath the operator's home directory,
    /// where it does not stand yet, and records the key's id in the key file.
    pub fn initialize(&mut self, key_id: &str) -> (r: Result<HandlerResult, HandlerError>)
        ensures
            Self::initialized(*old(self), *final(self), key_id@, r),
    {
        match key_verdict(key_id, self.gateway.key_exists(key_id)) {
            Ok(_) => {},
            Err(e) => {
                return Err(e);
            },
        }
        let home = match self.fs.home_dir() {
            Ok(home) => home,
            Err(e) => {
                return Err(HandlerError::Config(e));
            },
        };
        let root = store_root_of(home.as_str());
        match root_verdict(self.fs.mkdir(root.as_str())) {
            Ok(_) => {},
            Err(e) => {
                return Err(e);
            },
        }
        let key_file = key_id_path_of(root.as_str());
        proof {
            lemma_key_file_is_not_the_root(root@);
            assert(old(self).file_system().dirs().contains(root@) ==> old(
                self,
            ).file_system().dirs().insert(root@) =~= old(self).file_system().dirs());
        }
        match self.fs.touch(key_file.as_str(), key_id.as_bytes()) {
            Ok(_) => Ok(HandlerResult::Initialize),
            Err(e) => Err(HandlerError::Provision(e)),
        }
    }
}

/// A secret that was inserted is retrieved as it was read. Where the source,
/// the gateway and the store are dependable, the secret that the source holds
/// is valid UTF-8, and an insert under `name` has succeeded, a retrieve of
/// `name` that follows succeeds with a text whose bytes are that secret.
pub proof fn lemma_insert_then_retrieve<
    R: SecretReader,
    S: Store,
    G: CryptoGateway,
    F: FileSystemOperator,
>(
    before: Handler<R, S, G, F>,
    after: Handler<R, S, G, F>,
    name: Seq<char>,
    key_id: Seq<char>,
    saved: Result<HandlerResult, HandlerError>,
    shown: Result<HandlerResult, HandlerError>,
)
    requires
        before.reader().dependable(),
        before.gateway().dependable(),
        before.store().dependable(),
        valid_utf8(before.reader().secret()),
        Handler::inserted(before, after, name, key_id, saved),
        saved is Ok,
        after.retrieved(name, shown),
    ensures
        saved matches Ok(HandlerResult::Insert(n)) && n@ == name,
        shown matches Ok(HandlerResult::Retrieve(text)) && encode_utf8(text@)
            == before.reader().secret(),
{
    decode_utf8_encode_utf8(before.reader().secret());
}

/// An entry that is not in the store is reported as missing, by its name.
/// Where the store is dependable and holds nothing under the valid name
/// `name`, a retrieve fails and says that the entry `name` does not exist.
pub proof fn lemma_missing_entry_is_named<
    R: SecretReader,
    S: Store,
    G: CryptoGateway,
    F: FileSystemOperator,
>(handler: Handler<R, S, G, F>, name: Seq<char>, shown: Result<HandlerResult, HandlerError>)
    requires
        handler.store().dependable(),
        valid_entry_name(name),
        !handler.store().entries().contains_key(name),
        handler.retrieved(name, shown),
    ensures
        shown matches Err(e) && e.message_text() == "The entry \""@ + name + "\" does not exist!"@,
{
}

/// An entry that does not decrypt is reported as such, by its name, and no
/// value is handed over. Where the store and the gateway are dependable and
/// what the store holds under `name` opens to nothing, a retrieve fails and
/// says that the entry `name` could not be decrypted.
pub proof fn lemma_undecryptable_entry_is_named<
    R: SecretReader,
    S: Store,
    G: CryptoGateway,
    F: FileSystemOperator,
>(handler: Handler<R, S, G, F>, name: Seq<char>, shown: Result<HandlerResult, HandlerError>)
    requires
        handler.store().dependable(),
        handler.gateway().dependable(),
        valid_entry_name(name),
        handler.store().entries().contains_key(name),
        handler.gateway().opens_to(handler.store().entries()[name]) is None,
        handler.retrieved(name, shown),
    ensures
        shown matches Err(e) && e.message_text() == "The entry \""@ + name
            + "\" could not be decrypted!"@,
{
}

/// To initialize twice is to initialize once. Where the gateway and the file
/// system are dependable and an initialize for `key_id` has succeeded, a
/// second one for the same key succeeds too and leaves every file and every
/// directory as the first one left it.
pub proof fn lemma_initialize_is_idempotent<
    R: SecretReader,
    S: Store,
    G: CryptoGateway,
    F: FileSystemOperator,
>(
    start: Handler<R, S, G, F>,
    once: Handler<R, S, G, F>,
    twice: Handler<R, S, G, F>,
    key_id: Seq<char>,
    first: Result<HandlerResult, HandlerError>,
    second: Result<HandlerResult, HandlerError>,
)
    requires
        start.gateway().dependable(),
        start.file_system().dependable(),
        Handler::initialized(start, once, key_id, first),
        first is Ok,
        Handler::initialized(once, twice, key_id, second),
    ensures
        second is Ok,
        twice.file_system().files() == once.file_system().files(),
        twice.file_system().dirs() == once.file_system().dirs(),
{
    let home = start.file_system().home()->0;
    let root = store_root(home);
    lemma_key_file_is_not_the_root(root);
    let files = start.file_system().files();
    let dirs = start.file_system().dirs();
    assert(provisioned_files(provisioned_files(files, home, key_id), home, key_id)
        =~= provisioned_files(files, home, key_id));
    assert(provisioned_dirs(
        provisioned_files(files, home, key_id),
        provisioned_dirs(files, dirs, home),
        home,
    ) =~= provisioned_dirs(files, dirs, home));
}

/// Carries out the action that `args` asks for.
pub fn handle<R: SecretReader, S: Store, G: CryptoGateway, F: FileSystemOperator>(
    handler: &mut Handler<R, S, G, F>,
    args: &Args,
) -> (r: Result<HandlerResult, HandlerError>)
    ensures
        match args.action {
            Action::Initialize { key_id } => Handler::initialized(
                *old(handler),
                *final(handler),
                key_id@,
                r,
            ),
            Action::Insert { name, key_id } => Handler::inserted(
                *old(handler),
                *final(handler),
                name@,
                key_id@,
                r,
            ),
            Action::Retrieve { name } => *final(handler) == *old(handler) && old(handler).retrieved(
                name@,
                r,
            ),
        },
{
    match &args.action {
        Action::Initialize { key_id } => handler.initialize(key_id.as_str()),
        Action::Insert { name, key_id } => handler.insert(name.as_str(), key_id.as_str()),
        Action::Retrieve { name } => handler.retrieve(name.as_str()),
    }
}

} // verus!
