//! Containers for plaintext secrets. What they hold is scrubbed when they are
//! released, whichever way the holder is left.

use crate::fs::IoError;
use vstd::prelude::*;
use vstd::string::StringSliceAdditionalSpecFns;
use vstd::utf8::*;

verus! {

/// `core::str::Utf8Error`, carried through unread.
#[verifier::external_type_specification]
#[verifier::external_body]
pub struct ExUtf8Error(core::str::Utf8Error);

/// `core::str::from_utf8` accepts exactly the byte sequences that are valid
/// UTF-8, and the text it hands back is those same bytes read as text.
pub assume_specification[ core::str::from_utf8 ](v: &[u8]) -> (r: Result<
    &str,
    core::str::Utf8Error,
>)
    ensures
        r is Ok <==> valid_utf8(v@),
        r matches Ok(text) ==> text.spec_bytes() == v@,
;

/// `String::into_bytes` hands back the UTF-8 encoding of the text.
pub assume_specification[ String::into_bytes ](text: String) -> (r: Vec<u8>)
    ensures
        r@ == encode_utf8(text@),
;

/// Calls `zeroize::Zeroize::zeroize` on a byte vector. That writes zeros over
/// the spare capacity and over the elements and then clears the vector. Its
/// two checks on the size of the spare capacity cannot fail on a vector, whose
/// storage never exceeds `isize::MAX` bytes, so it does not unwind. The
/// contract states the part that the view can show: the vector is empty
/// afterwards.
#[verifier::external_body]
fn scrub_bytes(bytes: &mut Vec<u8>)
    ensures
        final(bytes)@ == Seq::<u8>::empty(),
    opens_invariants none
    no_unwind
{
    zeroize::Zeroize::zeroize(bytes);
}

/// Calls `zeroize::Zeroize::zeroize` on a string, which scrubs the underlying
/// byte vector as above and leaves the string empty. It does not unwind.
#[verifier::external_body]
fn scrub_text(text: &mut String)
    ensures
        final(text)@ == Seq::<char>::empty(),
    opens_invariants none
    no_unwind
{
    zeroize::Zeroize::zeroize(text);
}

/// The bytes of a secret were asked for as text and are not valid UTF-8.
#[derive(Clone, Copy, Debug, PartialEq, Eq, Structural)]
pub struct EncodingError;

/// Text whose storage is scrubbed when the value is released.
pub struct ZeroizedString(String);

impl View for ZeroizedString {
    type V = Seq<char>;

    closed spec fn view(&self) -> Seq<char> {
        self.0@
    }
}

impl ZeroizedString {
    /// Wraps `inner`, taking it over.
    pub fn new(inner: String) -> (r: Self)
        ensures
            r@ == inner@,
    {
        ZeroizedString(inner)
    }

    /// The text, for reading.
    pub fn as_str(&self) -> (r: &str)
        ensures
            r@ == self@,
    {
        self.0.as_str()
    }

    /// Scrubs the storage now and leaves the container empty.
    pub fn wipe(&mut self)
        ensures
            final(self)@ == Seq::<char>::empty(),
    {
        scrub_text(&mut self.0);
    }

    /// The same secret as bytes. The storage moves into the new container.
    pub fn into_bytes(self) -> (r: ZeroizedByteVec)
        ensures
            r@ == encode_utf8(self@),
    {
        let mut source = self;
        let mut text = String::new();
        core::mem::swap(&mut source.0, &mut text);
        ZeroizedByteVec::new(text.into_bytes())
    }
}

impl core::ops::Deref for ZeroizedString {
    type Target = str;

    /// The text, for reading.
    fn deref(&self) -> (r: &str)
        ensures
            r@ == self@,
    {
        self.0.as_str()
    }
}

impl Clone for ZeroizedString {
    /// A second container with the same text and storage of its own.
    fn clone(&self) -> (r: Self)
        ensures
            r@ == self@,
    {
        ZeroizedString(self.0.clone())
    }
}

impl Drop for ZeroizedString {
    /// Scrubs the storage, whichever way the value is released, and leaves
    /// the container empty.
    fn drop(&mut self)
        ensures
            final(self)@ == Seq::<char>::empty(),
        opens_invariants none
        no_unwind
    {
        scrub_text(&mut self.0);
    }
}

/// Bytes whose storage is scrubbed when the value is released.
pub struct ZeroizedByteVec(Vec<u8>);

impl View for ZeroizedByteVec {
    type V = Seq<u8>;

    closed spec fn view(&self) -> Seq<u8> {
        self.0@
    }
}

impl ZeroizedByteVec {
    /// Wraps `inner`, taking it over.
    pub fn new(inner: Vec<u8>) -> (r: Self)
        ensures
            r@ == inner@,
    {
        ZeroizedByteVec(inner)
    }

    /// The bytes, for reading.
    pub fn as_bytes(&self) -> (r: &[u8])
        ensures
            r@ == self@,
    {
        self.0.as_slice()
    }

    /// The bytes as text, for reading, where they are valid UTF-8.
    pub fn as_text(&self) -> (r: Result<&str, EncodingError>)
        ensures
            r is Ok <==> valid_utf8(self@),
            r matches Ok(text) ==> text@ == decode_utf8(self@) && encode_utf8(text@) == self@,
    {
        match core::str::from_utf8(self.0.as_slice()) {
            Ok(text) => {
                proof {
                    encode_utf8_decode_utf8(text@);
                }
                Ok(text)
            },
            Err(_) => Err(EncodingError),
        }
    }

    /// Adds `bytes` at the end.
    pub fn extend_from_slice(&mut self, bytes: &[u8])
        ensures
            final(self)@ == old(self)@ + bytes@,
    {
        self.0.extend_from_slice(bytes);
    }

    /// Scrubs the storage now and leaves the container empty.
    pub fn wipe(&mut self)
        ensures
            final(self)@ == Seq::<u8>::empty(),
    {
        scrub_bytes(&mut self.0);
    }

    /// The same secret as text, where the bytes are valid UTF-8. The bytes are
    /// scrubbed either way.
    pub fn into_zeroized_string(self) -> (r: Result<ZeroizedString, EncodingError>)
        ensures
            r is Ok <==> valid_utf8(self@),
            r matches Ok(text) ==> text@ == decode_utf8(self@) && encode_utf8(text@) == self@,
    {
        match self.as_text() {
            Ok(text) => Ok(ZeroizedString::new(text.to_owned())),
            Err(e) => Err(e),
        }
    }
}

impl core::ops::Deref for ZeroizedByteVec {
    type Target = Vec<u8>;

    /// The bytes, for reading.
    fn deref(&self) -> (r: &Vec<u8>)
        ensures
            r@ == self@,
    {
        &self.0
    }
}

impl AsRef<[u8]> for ZeroizedByteVec {
    /// The bytes, for reading.
    fn as_ref(&self) -> (r: &[u8])
        ensures
            r@ == self@,
    {
        self.0.as_slice()
    }
}

impl core::ops::DerefMut for ZeroizedByteVec {
    /// The bytes, for writing in place: what is written stays in the container.
    fn deref_mut(&mut self) -> (r: &mut Vec<u8>)
        ensures
            r@ == old(self)@,
            final(self)@ == final(r)@,
    {
        &mut self.0
    }
}

impl Drop for ZeroizedByteVec {
    /// Scrubs the storage, whichever way the value is released, and leaves
    /// the container empty.
    fn drop(&mut self)
        ensures
            final(self)@ == Seq::<u8>::empty(),
        opens_invariants none
        no_unwind
    {
        scrub_bytes(&mut self.0);
    }
}

/// A source of fresh plaintext secrets. Whoever calls it owns what it hands over.
///
/// A source may declare itself dependable. It then hands over, at every call,
/// the bytes that `secret` shows. Of a source that does not declare itself
/// dependable nothing is promised.
pub trait SecretReader {
    /// Whether this source behaves as its model says.
    open spec fn dependable(&self) -> bool {
        false
    }

    /// The bytes that a read hands over.
    open spec fn secret(&self) -> Seq<u8> {
        Seq::empty()
    }

    /// Reads one secret.
    fn read_secret(&self) -> (r: Result<ZeroizedByteVec, IoError>)
        ensures
            self.dependable() ==> (r matches Ok(s) && s@ == self.secret()),
    ;
}

/// A source that hands over the bytes it was made with, whole and unchanged.
pub struct ScriptedSecretReader {
    script: ZeroizedByteVec,
}

impl ScriptedSecretReader {
    /// A source of `script`.
    pub fn new(script: Vec<u8>) -> (r: Self)
        ensures
            r.secret() == script@,
    {
        ScriptedSecretReader { script: ZeroizedByteVec::new(script) }
    }
}

impl SecretReader for ScriptedSecretReader {
    open spec fn dependable(&self) -> bool {
        true
    }

    closed spec fn secret(&self) -> Seq<u8> {
        self.script@
    }

    fn read_secret(&self) -> (r: Result<ZeroizedByteVec, IoError>) {
        Ok(ZeroizedByteVec::new(self.script.0.clone()))
    }
}

} // verus!
