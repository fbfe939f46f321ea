//! The gateway to the cipher. Keys, encryption and decryption belong to an
//! engine outside this library; what the library asks of it is stated here.

use crate::secrets::ZeroizedByteVec;
use crate::text::same_text;
use vstd::prelude::*;
use vstd::slice::slice_subrange;
use vstd::slice::slice_to_vec;
use vstd::string::StringExecFns;

verus! {

/// Why the cipher could not do what was asked.
#[derive(Debug, PartialEq, Eq)]
pub enum CryptoError {
    /// No key of this id is at hand.
    KeyNotFound(String),
    /// The engine could not encrypt; the text says why.
    EncryptionFailed(String),
    /// The engine could not decrypt; the text says why.
    DecryptionFailed(String),
    /// The engine could not be reached; the text says why.
    BackendUnavailable(String),
    /// What was decrypted was to be text and is not.
    NotText,
}

impl CryptoError {
    /// The text shown to the operator for this error.
    pub open spec fn message_text(self) -> Seq<char> {
        match self {
            CryptoError::KeyNotFound(key_id) => "The key \""@ + key_id@ + "\" could not be found!"@,
            CryptoError::EncryptionFailed(_) => "The secret could not be encrypted."@,
            CryptoError::DecryptionFailed(_) => "The secret could not be decrypted."@,
            CryptoError::BackendUnavailable(_) => "The encryption backend is not available."@,
            CryptoError::NotText => "The decrypted secret is not text."@,
        }
    }

    /// The text shown to the operator for this error.
    pub fn message(&self) -> (r: String)
        ensures
            r@ == self.message_text(),
    {
        match self {
            CryptoError::KeyNotFound(key_id) => {
                let mut text = String::from_str("The key \"");
                text.append(key_id.as_str());
                text.append("\" could not be found!");
                text
            },
            CryptoError::EncryptionFailed(_) => String::from_str(
                "The secret could not be encrypted.",
            ),
            CryptoError::DecryptionFailed(_) => String::from_str(
                "The secret could not be decrypted.",
            ),
            CryptoError::BackendUnavailable(_) => String::from_str(
                "The encryption backend is not available.",
            ),
            CryptoError::NotText => String::from_str("The decrypted secret is not text."),
        }
    }
}

/// What the library asks of the cipher.
///
/// A gateway may declare itself dependable. It then has the keys that
/// `has_key` shows, encrypts under each of them, and every ciphertext it hands
/// out opens, by `opens_to`, to the plaintext it was made from. Of a gateway
/// that does not declare itself dependable nothing is promised.
pub trait CryptoGateway {
    /// Whether this gateway behaves as its model says.
    open spec fn dependable(&self) -> bool {
        false
    }

    /// Whether the key `key_id` is at hand.
    open spec fn has_key(&self, key_id: Seq<char>) -> bool {
        false
    }

    /// The plaintext that `ciphertext` decrypts to, if it decrypts.
    open spec fn opens_to(&self, ciphertext: Seq<u8>) -> Option<Seq<u8>> {
        None
    }

    /// Encrypts `plaintext` under the key `key_id`.
    fn encrypt(&self, key_id: &str, plaintext: &[u8]) -> (r: Result<Vec<u8>, CryptoError>)
        ensures
            self.dependable() ==> match r {
                Ok(ciphertext) => self.has_key(key_id@) && self.opens_to(ciphertext@) == Some(
                    plaintext@,
                ),
                Err(CryptoError::KeyNotFound(k)) => k@ == key_id@ && !self.has_key(key_id@),
                Err(_) => false,
            },
    ;

    /// Decrypts `ciphertext`.
    fn decrypt(&self, ciphertext: &[u8]) -> (r: Result<ZeroizedByteVec, CryptoError>)
        ensures
            self.dependable() ==> match r {
                Ok(plaintext) => self.opens_to(ciphertext@) == Some(plaintext@),
                Err(_) => self.opens_to(ciphertext@) is None,
            },
    ;

    /// Whether the key `key_id` is at hand.
    fn key_exists(&self, key_id: &str) -> (r: Result<bool, CryptoError>)
        ensures
            self.dependable() ==> (r matches Ok(found) && found == self.has_key(key_id@)),
    ;
}

/// What a dependable gateway has encrypted, it decrypts to the plaintext it
/// was given. `sealed` stands for what an encryption of `plaintext` under
/// `key_id` handed back, and `opened` for what a decryption of that ciphertext
/// handed back; with the key at hand both succeed, and the second yields
/// `plaintext`.
pub proof fn lemma_round_trip<G: CryptoGateway>(
    gateway: G,
    key_id: Seq<char>,
    plaintext: Seq<u8>,
    sealed: Result<Vec<u8>, CryptoError>,
    opened: Result<ZeroizedByteVec, CryptoError>,
)
    requires
        gateway.dependable(),
        gateway.has_key(key_id),
        match sealed {
            Ok(ciphertext) => gateway.has_key(key_id) && gateway.opens_to(ciphertext@) == Some(
                plaintext,
            ),
            Err(CryptoError::KeyNotFound(k)) => k@ == key_id && !gateway.has_key(key_id),
            Err(_) => false,
        },
        sealed matches Ok(ciphertext) ==> match opened {
            Ok(p) => gateway.opens_to(ciphertext@) == Some(p@),
            Err(_) => gateway.opens_to(ciphertext@) is None,
        },
    ensures
        sealed is Ok,
        opened matches Ok(p) && p@ == plaintext,
{
}

/// The byte that stands before the plaintext in what a [`TrialGateway`] hands out.
pub const TRIAL_MARK: u8 = 0xa5;

/// What a [`TrialGateway`] makes of `plaintext`: the mark, then the plaintext.
pub open spec fn trial_sealed(plaintext: Seq<u8>) -> Seq<u8> {
    seq![TRIAL_MARK] + plaintext
}

/// What a [`TrialGateway`] reads out of `ciphertext`: what follows the mark,
/// where the mark stands first.
pub open spec fn trial_opened(ciphertext: Seq<u8>) -> Option<Seq<u8>> {
    if ciphertext.len() > 0 && ciphertext[0] == TRIAL_MARK {
        Some(ciphertext.subrange(1, ciphertext.len() as int))
    } else {
        None
    }
}

/// A gateway for trials without a cipher. It has the keys it was given, and
/// in place of encrypting it sets a mark before the plaintext. It keeps
/// nothing secret.
pub struct TrialGateway {
    keys: Vec<String>,
}

impl TrialGateway {
    spec fn key_at(&self, key_id: Seq<char>, i: int) -> bool {
        0 <= i < self.keys@.len() && self.keys@[i]@ == key_id
    }

    /// A gateway without keys.
    pub fn new() -> (r: Self)
        ensures
            forall|key_id: Seq<char>| !r.has_key(key_id),
    {
        TrialGateway { keys: Vec::new() }
    }

    /// Adds the key `key_id`.
    pub fn add_key(&mut self, key_id: &str)
        ensures
            forall|k: Seq<char>| final(self).has_key(k) == (k == key_id@ || old(self).has_key(k)),
    {
        self.keys.push(String::from_str(key_id));
        proof {
            assert(self.key_at(key_id@, self.keys@.len() - 1));
            assert forall|k: Seq<char>| self.has_key(k) == (k == key_id@ || old(self).has_key(
                k,
            )) by {
                if old(self).has_key(k) {
                    let i = choose|i: int| old(self).key_at(k, i);
                    assert(self.key_at(k, i));
                }
                if self.has_key(k) && k != key_id@ {
                    let i = choose|i: int| self.key_at(k, i);
                    assert(old(self).key_at(k, i));
                }
            }
        }
    }

    /// Whether `key_id` is one of the keys.
    fn find_key(&self, key_id: &str) -> (r: bool)
        ensures
            r == self.has_key(key_id@),
    {
        let mut i: usize = 0;
        while i < self.keys.len()
            invariant
                i <= self.keys@.len(),
                forall|k: int| 0 <= k < i ==> !self.key_at(key_id@, k),
            decreases self.keys@.len() - i,
        {
            if same_text(self.keys[i].as_str(), key_id) {
                assert(self.key_at(key_id@, i as int));
                return true;
            }
            i += 1;
        }
        false
    }
}

impl CryptoGateway for TrialGateway {
    open spec fn dependable(&self) -> bool {
        true
    }

    closed spec fn has_key(&self, key_id: Seq<char>) -> bool {
        exists|i: int| self.key_at(key_id, i)
    }

    open spec fn opens_to(&self, ciphertext: Seq<u8>) -> Option<Seq<u8>> {
        trial_opened(ciphertext)
    }

    fn encrypt(&self, key_id: &str, plaintext: &[u8]) -> (r: Result<Vec<u8>, CryptoError>)
        ensures
            r matches Ok(ciphertext) ==> ciphertext@ == trial_sealed(plaintext@),
    {
        if !self.find_key(key_id) {
            return Err(CryptoError::KeyNotFound(String::from_str(key_id)));
        }
        let mut ciphertext: Vec<u8> = Vec::new();
        ciphertext.push(TRIAL_MARK);
        ciphertext.extend_from_slice(plaintext);
        Ok(ciphertext)
    }

    fn decrypt(&self, ciphertext: &[u8]) -> (r: Result<ZeroizedByteVec, CryptoError>)
        ensures
            r matches Err(e) ==> e is DecryptionFailed,
    {
        if ciphertext.len() > 0 && ciphertext[0] == TRIAL_MARK {
            Ok(ZeroizedByteVec::new(slice_to_vec(slice_subrange(ciphertext, 1, ciphertext.len()))))
        } else {
            Err(CryptoError::DecryptionFailed(String::from_str("the mark is missing")))
        }
    }

    fn key_exists(&self, key_id: &str) -> (r: Result<bool, CryptoError>) {
        Ok(self.find_key(key_id))
    }
}

} // verus!
