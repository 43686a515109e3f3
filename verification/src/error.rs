//! What can go wrong, and how it is put into words.
use crate::primitives::system::quote;
use vstd::prelude::*;

verus! {

/// Every way in which a request to the engine or the client can fail.
#[derive(Debug, PartialEq)]
pub enum CryptoError {
    InvalidSignature,
    KeyExchangeFailed(&'static str),
    EncryptionFailed(&'static str),
    KeyDerivationFailed(&'static str),
    StateError(String),
    SerializationError(String),
}

/// A `CryptoError` with its text as a sequence of characters.
#[verifier::ext_equal]
pub enum ErrorView {
    InvalidSignature,
    KeyExchangeFailed(Seq<char>),
    EncryptionFailed(Seq<char>),
    KeyDerivationFailed(Seq<char>),
    StateError(Seq<char>),
    SerializationError(Seq<char>),
}

impl View for CryptoError {
    type V = ErrorView;

    open spec fn view(&self) -> ErrorView {
        match self {
            CryptoError::InvalidSignature => ErrorView::InvalidSignature,
            CryptoError::KeyExchangeFailed(text) => ErrorView::KeyExchangeFailed(text@),
            CryptoError::EncryptionFailed(text) => ErrorView::EncryptionFailed(text@),
            CryptoError::KeyDerivationFailed(text) => ErrorView::KeyDerivationFailed(text@),
            CryptoError::StateError(text) => ErrorView::StateError(text@),
            CryptoError::SerializationError(text) => ErrorView::SerializationError(text@),
        }
    }
}

impl ErrorView {
    /// The error as shown to a user: the name of its variant and, in brackets, its quoted text.
    pub open spec fn text(self) -> Seq<char> {
        match self {
            ErrorView::InvalidSignature => "InvalidSignature"@,
            ErrorView::KeyExchangeFailed(text) => labelled("KeyExchangeFailed"@, text),
            ErrorView::EncryptionFailed(text) => labelled("EncryptionFailed"@, text),
            ErrorView::KeyDerivationFailed(text) => labelled("KeyDerivationFailed"@, text),
            ErrorView::StateError(text) => labelled("StateError"@, text),
            ErrorView::SerializationError(text) => labelled("SerializationError"@, text),
        }
    }
}

/// `label`, then the quoted `text` in brackets.
pub open spec fn labelled(label: Seq<char>, text: Seq<char>) -> Seq<char> {
    label + "("@ + crate::primitives::system::quoted(text) + ")"@
}

impl CryptoError {
    /// The error as shown to a user.
    pub fn to_string(&self) -> (res: String)
        ensures
            res@ == self@.text(),
    {
        match self {
            CryptoError::InvalidSignature => "InvalidSignature".to_owned(),
            CryptoError::KeyExchangeFailed(text) => with_label("KeyExchangeFailed", text),
            CryptoError::EncryptionFailed(text) => with_label("EncryptionFailed", text),
            CryptoError::KeyDerivationFailed(text) => with_label("KeyDerivationFailed", text),
            CryptoError::StateError(text) => with_label("StateError", text.as_str()),
            CryptoError::SerializationError(text) => with_label("SerializationError", text.as_str()),
        }
    }

    /// A state error with this text.
    pub fn state(text: &str) -> (res: CryptoError)
        ensures
            res@ == ErrorView::StateError(text@),
    {
        CryptoError::StateError(text.to_owned())
    }
}

fn with_label(label: &str, text: &str) -> (res: String)
    ensures
        res@ == labelled(label@, text@),
{
    label.to_owned().concat("(").concat(quote(text).as_str()).concat(")")
}

/// An outcome with both sides taken by their views.
pub open spec fn outcome<T: View>(res: Result<T, CryptoError>) -> Result<T::V, ErrorView> {
    match res {
        Ok(value) => Ok(value@),
        Err(error) => Err(error@),
    }
}

} // verus!
