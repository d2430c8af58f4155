//! Laws that hold between the operations of [`Error`], proved from their
//! contracts.

use vstd::prelude::*;
use vstd::std_specs::cmp::PartialEqSpec;

use crate::error::{is_custom, Error, ErrorView};

verus! {

/// An error built from a text is the message with that text, and describing
/// it gives the text back unchanged.
pub proof fn lemma_custom_round_trip(msg: &str, e: Error)
    requires
        is_custom(msg, e),
    ensures
        e@ == ErrorView::Message(msg@),
        e@.description() == msg@,
{
}

/// Errors built from one text are equal, whichever entry point built them.
pub proof fn lemma_custom_agrees(msg: &str, a: Error, b: Error)
    requires
        is_custom(msg, a),
        is_custom(msg, b),
    ensures
        a.eq_spec(&b),
{
}

/// The text that `to_string` shows and the text that `description` returns
/// for the same error are one text.
pub proof fn lemma_shown_is_description(e: Error, shown: String, described: &str)
    requires
        call_ensures(Error::to_string, (&e,), shown),
        call_ensures(Error::description, (&e,), described),
    ensures
        shown@ == described@,
{
}

/// Two errors are equal exactly when they carry the same tag and, where they
/// are messages, the same text.
pub proof fn lemma_equal_iff_same_tag_and_text(a: Error, b: Error)
    ensures
        a.eq_spec(&b) <==> match (a, b) {
            (Error::Message(s), Error::Message(t)) => s@ == t@,
            (Error::UnknownField, Error::UnknownField) => true,
            (Error::InvalidType, Error::InvalidType) => true,
            (Error::UnsupportedType, Error::UnsupportedType) => true,
            _ => false,
        },
{
}

/// A copy made by `clone` is equal to its original.
pub proof fn lemma_copy_is_equal(e: Error, copy: Error)
    requires
        call_ensures(Error::clone, (&e,), copy),
    ensures
        copy@ == e@,
        copy.eq_spec(&e),
        e.eq_spec(&copy),
{
}

} // verus!
