//! Secrets in memory, which are overwritten when they are dropped.

use vstd::prelude::*;
use zeroize::Zeroize;

verus! {

/// Bytes that are wiped from memory when they are dropped.
pub struct SecretBytes {
    bytes: Vec<u8>,
}

impl View for SecretBytes {
    type V = Seq<u8>;

    /// The bytes.
    closed spec fn view(&self) -> Seq<u8> {
        self.bytes@
    }
}

impl SecretBytes {
    /// Takes over `bytes`.
    pub fn new(bytes: Vec<u8>) -> (secret: SecretBytes)
        ensures
            secret@ == bytes@,
    {
        SecretBytes { bytes }
    }

    /// The bytes.
    pub fn as_slice(&self) -> (bytes: &[u8])
        ensures
            bytes@ == self@,
    {
        self.bytes.as_slice()
    }

    /// Another secret with the same bytes.
    pub fn copy(&self) -> (copy: SecretBytes)
        ensures
            copy@ == self@,
    {
        SecretBytes { bytes: self.bytes.clone() }
    }
}

impl Drop for SecretBytes {
    /// Wipes the bytes from memory.
    fn drop(&mut self)
        ensures
            final(self)@ == Seq::<u8>::empty(),
        opens_invariants none
        no_unwind
    {
        wipe_bytes(&mut self.bytes);
    }
}

/// Text that is wiped from memory when it is dropped.
pub struct SecretText {
    text: String,
}

impl View for SecretText {
    type V = Seq<char>;

    /// The text.
    closed spec fn view(&self) -> Seq<char> {
        self.text@
    }
}

impl SecretText {
    /// Takes over `text`.
    pub fn new(text: String) -> (secret: SecretText)
        ensures
            secret@ == text@,
    {
        SecretText { text }
    }

    /// The text.
    pub fn as_str(&self) -> (text: &str)
        ensures
            text@ == self@,
    {
        self.text.as_str()
    }
}

impl Drop for SecretText {
    /// Wipes the text from memory.
    fn drop(&mut self)
        ensures
            final(self)@ == Seq::<char>::empty(),
        opens_invariants none
        no_unwind
    {
        wipe_text(&mut self.text);
    }
}

/// Overwrites and empties `bytes` with `zeroize::Zeroize::zeroize`.
///
/// The contract says that there are no bytes left afterwards, and that wiping does not unwind. That
/// the memory has been overwritten is the work of `zeroize`, of which nothing is claimed.
#[verifier::external_body]
fn wipe_bytes(bytes: &mut Vec<u8>)
    ensures
        final(bytes)@ == Seq::<u8>::empty(),
    opens_invariants none
    no_unwind
{
    bytes.zeroize()
}

/// Overwrites and empties `text` with `zeroize::Zeroize::zeroize`.
///
/// The contract says that the text is empty afterwards, and that wiping does not unwind. That the
/// memory has been overwritten is the work of `zeroize`, of which nothing is claimed.
#[verifier::external_body]
fn wipe_text(text: &mut String)
    ensures
        final(text)@ == Seq::<char>::empty(),
    opens_invariants none
    no_unwind
{
    text.zeroize()
}

} // verus!
