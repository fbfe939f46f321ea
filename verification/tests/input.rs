use passrs::cli::{Action, Args};
use passrs::crypto::{CryptoError, CryptoGateway, TrialGateway};
use passrs::fs::{ConfigError, FileSystemOperator, IoError, IoErrorKind, MemoryFileSystem};
use passrs::input::{
    fetch_failure, handle, input_failure, insert_failure, key_id_path_of, key_verdict, root_verdict, store_root_of,
    unseal, Handler, HandlerError, HandlerResult, StoreAction, KEY_ID_FILE,
    PASSWORD_STORE_DIRECTORY,
};
use passrs::secrets::{ScriptedSecretReader, SecretReader, ZeroizedByteVec};
use passrs::store::{OnDiskStore, Store, StoreError};
use std::cell::RefCell;

const GPG_KEY_ID: &str = "passrs-tests@nocht.io";

type InMemoryStore = OnDiskStore<MemoryFileSystem>;

fn in_memory_store() -> InMemoryStore {
    OnDiskStore::new("/home/alice/.password-store", MemoryFileSystem::new())
}

fn gateway() -> TrialGateway {
    let mut gateway = TrialGateway::new();
    gateway.add_key(GPG_KEY_ID);
    gateway
}

struct IoErrorStore;

fn missing_file() -> IoError {
    IoError { kind: IoErrorKind::NotFound, detail: "b68eea40-38e3-43e8-bb61-60ec38067feb".to_string() }
}

impl Store for IoErrorStore {
    fn insert(&mut self, _: &str, _: &[u8]) -> Result<(), StoreError> {
        Err(StoreError::IoError(missing_file()))
    }

    fn get(&self, _: &str) -> Result<Vec<u8>, StoreError> {
        Err(StoreError::IoError(missing_file()))
    }
}

struct FakeSecretReader<'a> {
    secret: RefCell<&'a [u8]>,
}

impl<'a> SecretReader for FakeSecretReader<'a> {
    #[allow(deprecated)]
    fn read_secret(&self) -> Result<ZeroizedByteVec, IoError> {
        Ok(ZeroizedByteVec::new(
            rpassword::read_password_from_bufread(&mut self.secret.take()).unwrap().into_bytes(),
        ))
    }
}

struct BrokenSource;

impl SecretReader for BrokenSource {
    fn read_secret(&self) -> Result<ZeroizedByteVec, IoError> {
        Err(IoError { kind: IoErrorKind::Other, detail: "no terminal".to_string() })
    }
}

struct NoBackend;

impl CryptoGateway for NoBackend {
    fn encrypt(&self, _: &str, _: &[u8]) -> Result<Vec<u8>, CryptoError> {
        Err(CryptoError::EncryptionFailed("no backend".to_string()))
    }

    fn decrypt(&self, _: &[u8]) -> Result<ZeroizedByteVec, CryptoError> {
        Err(CryptoError::DecryptionFailed("no backend".to_string()))
    }

    fn key_exists(&self, _: &str) -> Result<bool, CryptoError> {
        Err(CryptoError::BackendUnavailable("no backend".to_string()))
    }
}

struct ReadOnlyDisk;

impl FileSystemOperator for ReadOnlyDisk {
    fn home_dir(&self) -> Result<String, ConfigError> {
        Ok("/home/alice".to_string())
    }

    fn mkdir(&mut self, _: &str) -> Result<(), IoError> {
        Err(IoError { kind: IoErrorKind::Other, detail: "read-only".to_string() })
    }

    fn touch(&mut self, _: &str, _: &[u8]) -> Result<(), IoError> {
        Err(IoError { kind: IoErrorKind::Other, detail: "read-only".to_string() })
    }

    fn present(&self, _: &str) -> bool {
        false
    }

    fn read(&self, _: &str) -> Result<Vec<u8>, IoError> {
        Err(IoError { kind: IoErrorKind::NotFound, detail: "read-only".to_string() })
    }
}

#[test]
fn should_encrypt_and_write_the_given_value() {
    let gpg = gateway();
    let name = "name".to_owned();
    let args = Args { action: Action::Insert { name, key_id: GPG_KEY_ID.to_owned() } };
    let input = "password\n";
    let secret_reader = FakeSecretReader { secret: RefCell::new(input.as_bytes()) };
    let mut handler =
        Handler::new(in_memory_store(), secret_reader, gateway(), MemoryFileSystem::new());
    let result = handle(&mut handler, &args).expect("expected a result");
    assert!(matches!(result, HandlerResult::Insert(_)));
    let buf = handler.store_ref().fs().read("/home/alice/.password-store/name.gpg").unwrap();
    let plaintext = gpg.decrypt(&buf).unwrap().into_zeroized_string().unwrap();
    assert_eq!(&*plaintext, input.trim());
}

#[test]
fn should_encrypt_and_store_given_value() {
    let gpg = gateway();
    let name = "name".to_owned();
    let args = Args { action: Action::Insert { name, key_id: GPG_KEY_ID.to_owned() } };
    let input = "password\n";
    let secret_reader = FakeSecretReader { secret: RefCell::new(input.as_bytes()) };
    let mut handler =
        Handler::new(in_memory_store(), secret_reader, gateway(), MemoryFileSystem::new());
    if let HandlerResult::Insert(name) = handle(&mut handler, &args).expect("expected a result") {
        let ciphertext = handler.store_ref().get(&name).unwrap();
        let plaintext = gpg.decrypt(&ciphertext).unwrap().into_zeroized_string().unwrap();
        assert_eq!(&*plaintext, input.trim());
    } else {
        panic!("got unexpected handle result")
    }
}

#[test]
fn should_retrieve_entry_decrypted() {
    let name = "name".to_string();
    let retrieve_args = Args { action: Action::Retrieve { name: name.clone() } };
    let input = "password\n";
    let secret_reader = FakeSecretReader { secret: RefCell::new(input.as_bytes()) };
    let mut handler =
        Handler::new(in_memory_store(), secret_reader, gateway(), MemoryFileSystem::new());
    handler.insert(&name, GPG_KEY_ID).unwrap();
    if let HandlerResult::Retrieve(value) =
        handle(&mut handler, &retrieve_args).expect("expected a result")
    {
        assert_eq!(&*value, input.trim());
        return;
    }
    panic!("got unexpected handle result");
}

#[test]
fn should_give_meaningful_error_if_entry_could_not_be_decrypted() {
    let name = "name".to_string();
    let retrieve_args = Args { action: Action::Retrieve { name: name.clone() } };
    let secret_reader = FakeSecretReader { secret: RefCell::new("".as_bytes()) };
    let mut store = in_memory_store();
    store.insert(&name, b"").unwrap();
    let mut handler = Handler::new(store, secret_reader, gateway(), MemoryFileSystem::new());
    let result = handle(&mut handler, &retrieve_args);
    assert!(result.is_err());
    assert_eq!(
        result.err().unwrap().message(),
        format!(r#"The entry "{name}" could not be decrypted!"#)
    );
}

#[test]
fn insert_should_give_meaningful_error_if_store_has_an_fs_error() {
    let name = "name".to_string();
    let retrieve_args =
        Args { action: Action::Insert { name: name.clone(), key_id: GPG_KEY_ID.to_string() } };
    let secret_reader = FakeSecretReader { secret: RefCell::new("secret\n".as_bytes()) };
    let store = IoErrorStore;
    let mut handler = Handler::new(store, secret_reader, gateway(), MemoryFileSystem::new());
    let result = handle(&mut handler, &retrieve_args);
    assert!(result.is_err());
    let partial_error =
        &format!(r#"An error occurred when attempting to insert the entry "{name}"."#);
    let err = result.err().unwrap().message();
    assert!(err.contains(partial_error), "error incorrect, got `{err}`");
}

#[test]
fn retrieve_should_give_meaningful_error_if_store_has_an_fs_error() {
    let name = "name".to_string();
    let retrieve_args = Args { action: Action::Retrieve { name: name.clone() } };
    let secret_reader = FakeSecretReader { secret: RefCell::new("".as_bytes()) };
    let store = IoErrorStore;
    let mut handler = Handler::new(store, secret_reader, gateway(), MemoryFileSystem::new());
    let result = handle(&mut handler, &retrieve_args);
    assert!(result.is_err());
    let partial_error =
        &format!(r#"An error occurred when attempting to retrieve the entry "{name}"."#);
    let actual_error = result.err().unwrap().message();
    assert!(actual_error.contains(partial_error), "error incorrect, got `{actual_error}`");
}

#[test]
fn a_store_error_keeps_its_cause_beside_the_context() {
    let secret_reader = ScriptedSecretReader::new(b"secret".to_vec());
    let mut handler =
        Handler::new(IoErrorStore, secret_reader, gateway(), MemoryFileSystem::new());
    assert_eq!(
        handler.insert("name", GPG_KEY_ID).err(),
        Some(HandlerError::Store {
            action: StoreAction::Insert,
            name: "name".to_string(),
            cause: StoreError::IoError(missing_file()),
        })
    );
    assert_eq!(
        handler.retrieve("name").err(),
        Some(HandlerError::Store {
            action: StoreAction::Retrieve,
            name: "name".to_string(),
            cause: StoreError::IoError(missing_file()),
        })
    );
}

#[test]
fn retrieving_a_missing_entry_names_it() {
    let secret_reader = ScriptedSecretReader::new(Vec::new());
    let handler =
        Handler::new(in_memory_store(), secret_reader, gateway(), MemoryFileSystem::new());
    let error = handler.retrieve("nonexistent").err().unwrap();
    assert_eq!(error, HandlerError::EntryDoesNotExist("nonexistent".to_string()));
    assert_eq!(error.message(), "The entry \"nonexistent\" does not exist!");
}

#[test]
fn an_inserted_secret_is_retrieved_as_it_was_read() {
    let secret_reader = ScriptedSecretReader::new("no newline, ünïcode".as_bytes().to_vec());
    let mut handler =
        Handler::new(in_memory_store(), secret_reader, gateway(), MemoryFileSystem::new());
    assert!(matches!(handler.insert("mail", GPG_KEY_ID), Ok(HandlerResult::Insert(name)) if name == "mail"));
    match handler.retrieve("mail") {
        Ok(HandlerResult::Retrieve(value)) => assert_eq!(&*value, "no newline, ünïcode"),
        _ => panic!("got unexpected handle result"),
    }
}

#[test]
fn a_scripted_secret_keeps_its_trailing_newline() {
    let secret_reader = ScriptedSecretReader::new(b"password\n".to_vec());
    let mut handler =
        Handler::new(in_memory_store(), secret_reader, gateway(), MemoryFileSystem::new());
    handler.insert("name", GPG_KEY_ID).unwrap();
    match handler.retrieve("name") {
        Ok(HandlerResult::Retrieve(value)) => assert_eq!(&*value, "password\n"),
        _ => panic!("got unexpected handle result"),
    }
}

#[test]
fn the_store_holds_ciphertext_and_not_the_secret() {
    let secret_reader = ScriptedSecretReader::new(b"secret".to_vec());
    let mut handler =
        Handler::new(in_memory_store(), secret_reader, gateway(), MemoryFileSystem::new());
    handler.insert("name", GPG_KEY_ID).unwrap();
    let stored = handler.store_ref().get("name").unwrap();
    assert_eq!(stored, gateway().encrypt(GPG_KEY_ID, b"secret").unwrap());
    assert_ne!(stored, b"secret");
}

#[test]
fn an_insert_under_a_missing_key_stores_nothing() {
    let secret_reader = ScriptedSecretReader::new(b"secret".to_vec());
    let mut handler =
        Handler::new(in_memory_store(), secret_reader, gateway(), MemoryFileSystem::new());
    let error = handler.insert("name", "nobody@nocht.io").err().unwrap();
    assert_eq!(
        error,
        HandlerError::Crypto(CryptoError::KeyNotFound("nobody@nocht.io".to_string()))
    );
    assert_eq!(error.message(), "The key \"nobody@nocht.io\" could not be found!");
    assert!(handler.retrieve("name").is_err());
    assert!(!handler.store_ref().fs().present("/home/alice/.password-store/name.gpg"));
}

#[test]
fn an_insert_without_a_secret_stores_nothing() {
    let mut handler =
        Handler::new(in_memory_store(), BrokenSource, gateway(), MemoryFileSystem::new());
    let error = handler.insert("name", GPG_KEY_ID).err().unwrap();
    assert!(matches!(error, HandlerError::Input(_)));
    assert_eq!(error.message(), "failed to read from input source");
    assert!(!handler.store_ref().fs().present("/home/alice/.password-store/name.gpg"));
}

#[test]
fn an_insert_under_an_invalid_name_is_refused() {
    let secret_reader = ScriptedSecretReader::new(b"secret".to_vec());
    let mut handler =
        Handler::new(in_memory_store(), secret_reader, gateway(), MemoryFileSystem::new());
    let error = handler.insert("../name", GPG_KEY_ID).err().unwrap();
    assert_eq!(
        error,
        HandlerError::Store {
            action: StoreAction::Insert,
            name: "../name".to_string(),
            cause: StoreError::InvalidName("../name".to_string()),
        }
    );
    assert_eq!(
        error.message(),
        "An error occurred when attempting to insert the entry \"../name\"."
    );
}

#[test]
fn a_second_insert_is_the_one_that_is_retrieved() {
    let mut store = in_memory_store();
    store.insert("name", &gateway().encrypt(GPG_KEY_ID, b"first").unwrap()).unwrap();
    let secret_reader = ScriptedSecretReader::new(b"second".to_vec());
    let mut handler = Handler::new(store, secret_reader, gateway(), MemoryFileSystem::new());
    match handler.retrieve("name") {
        Ok(HandlerResult::Retrieve(value)) => assert_eq!(&*value, "first"),
        _ => panic!("got unexpected handle result"),
    }
    handler.insert("name", GPG_KEY_ID).unwrap();
    match handler.retrieve("name") {
        Ok(HandlerResult::Retrieve(value)) => assert_eq!(&*value, "second"),
        _ => panic!("got unexpected handle result"),
    }
}

#[test]
fn a_secret_that_is_not_text_is_not_retrieved() {
    let secret_reader = ScriptedSecretReader::new(vec![0xff, 0xfe]);
    let mut handler =
        Handler::new(in_memory_store(), secret_reader, gateway(), MemoryFileSystem::new());
    handler.insert("name", GPG_KEY_ID).unwrap();
    let error = handler.retrieve("name").err().unwrap();
    assert_eq!(
        error,
        HandlerError::Undecryptable { name: "name".to_string(), reason: CryptoError::NotText }
    );
    assert_eq!(error.message(), "The entry \"name\" could not be decrypted!");
}

#[test]
fn initialize_makes_the_root_and_records_the_key() {
    let secret_reader = ScriptedSecretReader::new(Vec::new());
    let fs = MemoryFileSystem::with_home("/home/alice");
    let mut handler = Handler::new(in_memory_store(), secret_reader, gateway(), fs);
    let args = Args { action: Action::Initialize { key_id: GPG_KEY_ID.to_string() } };
    assert!(matches!(handle(&mut handler, &args), Ok(HandlerResult::Initialize)));
    let fs = handler.file_system_ref();
    assert!(fs.present("/home/alice/.password-store"));
    assert!(fs.read("/home/alice/.password-store").is_err());
    assert_eq!(fs.read("/home/alice/.password-store/.gpg-id").unwrap(), GPG_KEY_ID.as_bytes());
}

#[test]
fn initialize_twice_succeeds_and_changes_nothing() {
    let secret_reader = ScriptedSecretReader::new(Vec::new());
    let fs = MemoryFileSystem::with_home("/home/alice");
    let mut handler = Handler::new(in_memory_store(), secret_reader, gateway(), fs);
    assert!(matches!(handler.initialize(GPG_KEY_ID), Ok(HandlerResult::Initialize)));
    assert!(matches!(handler.initialize(GPG_KEY_ID), Ok(HandlerResult::Initialize)));
    let fs = handler.file_system_ref();
    assert!(fs.present("/home/alice/.password-store"));
    assert_eq!(fs.read("/home/alice/.password-store/.gpg-id").unwrap(), GPG_KEY_ID.as_bytes());
}

#[test]
fn initialize_with_another_key_records_the_later_one() {
    let secret_reader = ScriptedSecretReader::new(Vec::new());
    let fs = MemoryFileSystem::with_home("/home/alice");
    let mut keys = gateway();
    keys.add_key("second");
    let mut handler = Handler::new(in_memory_store(), secret_reader, keys, fs);
    handler.initialize(GPG_KEY_ID).unwrap();
    handler.initialize("second").unwrap();
    assert_eq!(
        handler.file_system_ref().read("/home/alice/.password-store/.gpg-id").unwrap(),
        b"second"
    );
}

#[test]
fn initialize_with_a_missing_key_touches_nothing() {
    let secret_reader = ScriptedSecretReader::new(Vec::new());
    let fs = MemoryFileSystem::with_home("/home/alice");
    let mut handler = Handler::new(in_memory_store(), secret_reader, gateway(), fs);
    assert_eq!(
        handler.initialize("nobody@nocht.io").err(),
        Some(HandlerError::Crypto(CryptoError::KeyNotFound("nobody@nocht.io".to_string())))
    );
    assert!(!handler.file_system_ref().present("/home/alice/.password-store"));
    assert!(!handler.file_system_ref().present("/home/alice/.password-store/.gpg-id"));
}

#[test]
fn initialize_without_a_backend_reports_it() {
    let secret_reader = ScriptedSecretReader::new(Vec::new());
    let fs = MemoryFileSystem::with_home("/home/alice");
    let mut handler = Handler::new(in_memory_store(), secret_reader, NoBackend, fs);
    let error = handler.initialize(GPG_KEY_ID).err().unwrap();
    assert_eq!(
        error,
        HandlerError::Crypto(CryptoError::BackendUnavailable("no backend".to_string()))
    );
    assert_eq!(error.message(), "The encryption backend is not available.");
    assert!(!handler.file_system_ref().present("/home/alice/.password-store"));
}

#[test]
fn initialize_without_a_home_directory_is_a_config_error() {
    let secret_reader = ScriptedSecretReader::new(Vec::new());
    let mut handler =
        Handler::new(in_memory_store(), secret_reader, gateway(), MemoryFileSystem::new());
    let error = handler.initialize(GPG_KEY_ID).err().unwrap();
    assert_eq!(error, HandlerError::Config(ConfigError::HomeDirectoryUnknown));
    assert_eq!(error.message(), "The home directory could not be determined.");
}

#[test]
fn initialize_on_a_disk_that_cannot_be_written_fails() {
    let secret_reader = ScriptedSecretReader::new(Vec::new());
    let mut handler = Handler::new(in_memory_store(), secret_reader, gateway(), ReadOnlyDisk);
    let error = handler.initialize(GPG_KEY_ID).err().unwrap();
    assert_eq!(
        error,
        HandlerError::Provision(IoError {
            kind: IoErrorKind::Other,
            detail: "read-only".to_string()
        })
    );
    assert_eq!(error.message(), "The store could not be initialized.");
}

#[test]
fn initialize_fails_where_a_directory_stands_for_the_key_file() {
    let secret_reader = ScriptedSecretReader::new(Vec::new());
    let mut fs = MemoryFileSystem::with_home("/home/alice");
    fs.mkdir("/home/alice/.password-store/.gpg-id").unwrap();
    let mut handler = Handler::new(in_memory_store(), secret_reader, gateway(), fs);
    assert!(matches!(handler.initialize(GPG_KEY_ID), Err(HandlerError::Provision(_))));
}

#[test]
fn the_store_root_lies_beneath_the_home_directory() {
    assert_eq!(PASSWORD_STORE_DIRECTORY, ".password-store");
    assert_eq!(KEY_ID_FILE, ".gpg-id");
    assert_eq!(store_root_of("/home/alice"), "/home/alice/.password-store");
    assert_eq!(key_id_path_of("/home/alice/.password-store"), "/home/alice/.password-store/.gpg-id");
}

#[test]
fn a_store_failure_on_insert_is_wrapped_with_the_name() {
    let cause = StoreError::EntryDoesNotExist("other".to_string());
    assert_eq!(
        insert_failure("name", cause),
        HandlerError::Store {
            action: StoreAction::Insert,
            name: "name".to_string(),
            cause: StoreError::EntryDoesNotExist("other".to_string()),
        }
    );
}

#[test]
fn a_missing_entry_on_fetch_is_reported_by_the_name_asked_for() {
    assert_eq!(
        fetch_failure("name", StoreError::EntryDoesNotExist("other".to_string())),
        HandlerError::EntryDoesNotExist("name".to_string())
    );
    assert_eq!(
        fetch_failure("", StoreError::InvalidName("".to_string())),
        HandlerError::Store {
            action: StoreAction::Retrieve,
            name: "".to_string(),
            cause: StoreError::InvalidName("".to_string()),
        }
    );
}

#[test]
fn unsealing_tells_text_from_what_is_not() {
    match unseal("name", Ok(ZeroizedByteVec::new(b"value".to_vec()))) {
        Ok(HandlerResult::Retrieve(value)) => assert_eq!(&*value, "value"),
        _ => panic!("got unexpected handle result"),
    }
    assert_eq!(
        unseal("name", Ok(ZeroizedByteVec::new(vec![0x80]))).err(),
        Some(HandlerError::Undecryptable { name: "name".to_string(), reason: CryptoError::NotText })
    );
    assert_eq!(
        unseal("name", Err(CryptoError::DecryptionFailed("bad data".to_string()))).err(),
        Some(HandlerError::Undecryptable {
            name: "name".to_string(),
            reason: CryptoError::DecryptionFailed("bad data".to_string()),
        })
    );
}

#[test]
fn the_key_verdict_lets_only_a_found_key_pass() {
    assert_eq!(key_verdict("me", Ok(true)), Ok(()));
    assert_eq!(
        key_verdict("me", Ok(false)),
        Err(HandlerError::Crypto(CryptoError::KeyNotFound("me".to_string())))
    );
    assert_eq!(
        key_verdict("me", Err(CryptoError::BackendUnavailable("down".to_string()))),
        Err(HandlerError::Crypto(CryptoError::BackendUnavailable("down".to_string())))
    );
}

#[test]
fn the_root_verdict_tolerates_a_root_that_stands() {
    let taken = IoError { kind: IoErrorKind::AlreadyExists, detail: "taken".to_string() };
    let denied = IoError { kind: IoErrorKind::Other, detail: "denied".to_string() };
    let missing = IoError { kind: IoErrorKind::NotFound, detail: "no parent".to_string() };
    assert_eq!(root_verdict(Ok(())), Ok(()));
    assert_eq!(root_verdict(Err(taken)), Ok(()));
    assert_eq!(
        root_verdict(Err(denied)),
        Err(HandlerError::Provision(IoError {
            kind: IoErrorKind::Other,
            detail: "denied".to_string()
        }))
    );
    assert!(matches!(root_verdict(Err(missing)), Err(HandlerError::Provision(_))));
}

#[test]
fn an_insert_that_cannot_be_encrypted_stores_nothing() {
    let secret_reader = ScriptedSecretReader::new(b"secret".to_vec());
    let mut handler =
        Handler::new(in_memory_store(), secret_reader, NoBackend, MemoryFileSystem::new());
    let error = handler.insert("name", GPG_KEY_ID).err().unwrap();
    assert_eq!(
        error,
        HandlerError::Crypto(CryptoError::EncryptionFailed("no backend".to_string()))
    );
    assert_eq!(error.message(), "The secret could not be encrypted.");
    assert!(!handler.store_ref().fs().present("/home/alice/.password-store/name.gpg"));
}

#[test]
fn a_retrieve_that_cannot_be_decrypted_keeps_the_cause() {
    let mut store = in_memory_store();
    store.insert("name", b"ciphertext").unwrap();
    let secret_reader = ScriptedSecretReader::new(Vec::new());
    let handler = Handler::new(store, secret_reader, NoBackend, MemoryFileSystem::new());
    assert_eq!(
        handler.retrieve("name").err(),
        Some(HandlerError::Undecryptable {
            name: "name".to_string(),
            reason: CryptoError::DecryptionFailed("no backend".to_string()),
        })
    );
}

#[test]
fn a_retrieve_under_an_invalid_name_is_refused() {
    let secret_reader = ScriptedSecretReader::new(Vec::new());
    let handler =
        Handler::new(in_memory_store(), secret_reader, gateway(), MemoryFileSystem::new());
    let error = handler.retrieve("a/b").err().unwrap();
    assert_eq!(
        error,
        HandlerError::Store {
            action: StoreAction::Retrieve,
            name: "a/b".to_string(),
            cause: StoreError::InvalidName("a/b".to_string()),
        }
    );
    assert_eq!(
        error.message(),
        "An error occurred when attempting to retrieve the entry \"a/b\"."
    );
}

#[test]
fn a_retrieve_leaves_the_entry_in_the_store() {
    let secret_reader = ScriptedSecretReader::new(b"secret".to_vec());
    let mut handler =
        Handler::new(in_memory_store(), secret_reader, gateway(), MemoryFileSystem::new());
    handler.insert("name", GPG_KEY_ID).unwrap();
    assert!(handler.retrieve("name").is_ok());
    assert!(handler.retrieve("name").is_ok());
}

#[test]
fn a_failed_read_is_reported_with_the_error_of_the_source() {
    let cause = IoError { kind: IoErrorKind::Other, detail: "no terminal".to_string() };
    assert_eq!(
        input_failure(cause),
        HandlerError::Input(IoError { kind: IoErrorKind::Other, detail: "no terminal".to_string() })
    );
    let mut handler =
        Handler::new(in_memory_store(), BrokenSource, gateway(), MemoryFileSystem::new());
    assert_eq!(
        handler.insert("name", GPG_KEY_ID).err(),
        Some(HandlerError::Input(IoError {
            kind: IoErrorKind::Other,
            detail: "no terminal".to_string()
        }))
    );
    assert_eq!(
        handler.read_in_secret_value().err(),
        Some(HandlerError::Input(IoError {
            kind: IoErrorKind::Other,
            detail: "no terminal".to_string()
        }))
    );
}
