//! The error value of the row mapping layer, its mathematical view and its
//! description text.

use vstd::prelude::*;
use vstd::std_specs::cmp::PartialEqSpec;
use vstd::string::to_string_from_display_ensures;

verus! {

/// Either a success value or the reason why a row could not be mapped.
pub type Result<T> = core::result::Result<T, Error>;

/// Why a row could not be turned into a value, or a value into a row.
///
/// The set of variants is closed: callers match on it exhaustively. An error
/// is a leaf value: it holds no cause and is never changed once built.
#[derive(Debug)]
pub enum Error {
    /// A free-form failure description, given by a caller or by the
    /// serialization framework.
    Message(String),
    /// The row holds a field that the data structure does not declare.
    UnknownField,
    /// A column's value does not convert to the type of its field.
    InvalidType,
    /// The data structure asks for a type that the mapping has no rule for.
    UnsupportedType,
}

/// What an [`Error`] is, as a mathematical value: its tag and, for a message,
/// the text as a sequence of characters.
pub enum ErrorView {
    Message(Seq<char>),
    UnknownField,
    InvalidType,
    UnsupportedType,
}

impl ErrorView {
    /// The text that describes the error: the message itself, or the fixed
    /// phrase of the variant.
    pub open spec fn description(self) -> Seq<char> {
        match self {
            ErrorView::Message(text) => text,
            ErrorView::UnknownField => "Unknown field"@,
            ErrorView::InvalidType => "Invalid type"@,
            ErrorView::UnsupportedType => "Type unsupported"@,
        }
    }
}

impl View for Error {
    type V = ErrorView;

    open spec fn view(&self) -> ErrorView {
        match self {
            Error::Message(text) => ErrorView::Message(text@),
            Error::UnknownField => ErrorView::UnknownField,
            Error::InvalidType => ErrorView::InvalidType,
            Error::UnsupportedType => ErrorView::UnsupportedType,
        }
    }
}

/// Whether `e` is the message error made from `msg`: its text is what
/// displaying `msg` wrote. For a `msg` that is itself a text, that is `msg`.
pub open spec fn is_custom<T: core::fmt::Display + ?Sized>(msg: &T, e: Error) -> bool {
    e matches Error::Message(text) && to_string_from_display_ensures::<T>(msg, text)
}

impl Error {
    /// Builds the error that carries the displayed form of `msg` as its text.
    /// Building an error cannot fail.
    pub fn custom<T: core::fmt::Display + ?Sized>(msg: &T) -> (e: Error)
        ensures
            is_custom(msg, e),
    {
        Error::Message(msg.to_string())
    }

    /// The entry point for a failure that is raised while a row is read into a
    /// value. It builds what [`Error::custom`] builds.
    pub fn de_custom<T: core::fmt::Display + ?Sized>(msg: &T) -> (e: Error)
        ensures
            is_custom(msg, e),
    {
        Error::custom(msg)
    }

    /// The entry point for a failure that is raised while a value is written
    /// out. It builds what [`Error::custom`] builds.
    pub fn ser_custom<T: core::fmt::Display + ?Sized>(msg: &T) -> (e: Error)
        ensures
            is_custom(msg, e),
    {
        Error::custom(msg)
    }

    /// The short text that describes the error: the message as it was given,
    /// or the fixed phrase of the variant.
    pub fn description(&self) -> (text: &str)
        ensures
            text@ == self@.description(),
    {
        match self {
            Error::Message(msg) => msg.as_str(),
            Error::UnknownField => "Unknown field",
            Error::InvalidType => "Invalid type",
            Error::UnsupportedType => "Type unsupported",
        }
    }

    /// The text under which the error is shown. It is the description,
    /// character for character, in an owned string.
    pub fn to_string(&self) -> (text: String)
        ensures
            text@ == self@.description(),
    {
        self.description().to_owned()
    }
}

impl Clone for Error {
    /// The copy has the tag and the text of the original and shares nothing
    /// with it.
    fn clone(&self) -> (copy: Error)
        ensures
            copy == *self,
            copy.eq_spec(self),
    {
        match self {
            Error::Message(msg) => Error::Message(msg.clone()),
            Error::UnknownField => Error::UnknownField,
            Error::InvalidType => Error::InvalidType,
            Error::UnsupportedType => Error::UnsupportedType,
        }
    }
}

impl PartialEq for Error {
    /// Compares the tags and, for two messages, the texts as they stand.
    fn eq(&self, other: &Error) -> (same: bool)
        ensures
            same == (self@ == other@),
    {
        match (self, other) {
            (Error::Message(a), Error::Message(b)) => *a == *b,
            (Error::UnknownField, Error::UnknownField) => true,
            (Error::InvalidType, Error::InvalidType) => true,
            (Error::UnsupportedType, Error::UnsupportedType) => true,
            _ => false,
        }
    }
}

impl vstd::std_specs::cmp::PartialEqSpecImpl for Error {
    open spec fn obeys_eq_spec() -> bool {
        true
    }

    /// Two errors are equal when their views are: the same tag and, for two
    /// messages, the same text.
    open spec fn eq_spec(&self, other: &Error) -> bool {
        self@ == other@
    }
}

} // verus!
