//! Text in buffers of fixed capacity.
//!
//! The file name, the status of the card and the record are kept in strings
//! that hold fifteen, forty and two hundred bytes. What is stated of them
//! here is taken from the buffers' own code and is not proved.

use vstd::prelude::*;
use vstd::string::StringSliceAdditionalSpecFns;
use vstd::utf8::encode_utf8;
use arrayvec::ArrayString;

verus! {

/// `arrayvec::ArrayString`, a string in a buffer of fixed capacity. Nothing
/// is known of a value but what the functions below state.
#[verifier::external_type_specification]
#[verifier::external_body]
pub struct ExArrayString<const CAP: usize>(ArrayString<CAP>);

/// The text that a buffer of fifteen bytes holds.
pub uninterp spec fn name_buffer_text(buffer: ArrayString<15>) -> Seq<char>;

/// The text that a buffer of forty bytes holds.
pub uninterp spec fn status_buffer_text(buffer: ArrayString<40>) -> Seq<char>;

/// The text that a buffer of two hundred bytes holds.
pub uninterp spec fn record_buffer_text(buffer: ArrayString<200>) -> Seq<char>;

/// `arrayvec::ArrayString::<15>::from`: a buffer that holds `text`. There
/// is one exactly when the UTF-8 encoding of `text` is no longer than the
/// fifteen bytes that the buffer takes.
#[verifier::external_body]
pub(crate) fn name_buffer(text: &str) -> (buffer: Option<ArrayString<15>>)
    ensures
        buffer is Some <==> text.spec_bytes().len() <= 15,
        buffer matches Some(b) ==> name_buffer_text(b) == text@,
{
    ArrayString::<15>::from(text).ok()
}

/// `arrayvec::ArrayString::<40>::from`: a buffer that holds `text`. There
/// is one exactly when the UTF-8 encoding of `text` is no longer than the
/// forty bytes that the buffer takes.
#[verifier::external_body]
pub(crate) fn status_buffer(text: &str) -> (buffer: Option<ArrayString<40>>)
    ensures
        buffer is Some <==> text.spec_bytes().len() <= 40,
        buffer matches Some(b) ==> status_buffer_text(b) == text@,
{
    ArrayString::<40>::from(text).ok()
}

/// `arrayvec::ArrayString::<200>::from`: a buffer that holds `text`. There
/// is one exactly when the UTF-8 encoding of `text` is no longer than the
/// two hundred bytes that the buffer takes.
#[verifier::external_body]
pub(crate) fn record_buffer(text: &str) -> (buffer: Option<ArrayString<200>>)
    ensures
        buffer is Some <==> text.spec_bytes().len() <= 200,
        buffer matches Some(b) ==> record_buffer_text(b) == text@,
{
    ArrayString::<200>::from(text).ok()
}

/// `arrayvec::ArrayString::<15>::as_str`: the text that the buffer holds.
/// A buffer never holds more bytes than its capacity, so the UTF-8
/// encoding of the text is no longer than fifteen bytes.
#[verifier::external_body]
pub(crate) fn name_buffer_str(buffer: &ArrayString<15>) -> (text: &str)
    ensures
        text@ == name_buffer_text(*buffer),
        text.spec_bytes().len() <= 15,
{
    buffer.as_str()
}

/// `arrayvec::ArrayString::<200>::as_str`: the text that the buffer holds.
#[verifier::external_body]
pub(crate) fn record_buffer_str(buffer: &ArrayString<200>) -> (text: &str)
    ensures
        text@ == record_buffer_text(*buffer),
{
    buffer.as_str()
}

/// `arrayvec::ArrayString::<40>::as_str`: the text that the buffer holds.
#[verifier::external_body]
pub(crate) fn status_buffer_str(buffer: &ArrayString<40>) -> (text: &str)
    ensures
        text@ == status_buffer_text(*buffer),
{
    buffer.as_str()
}

/// The UTF-8 encoding of two texts, one behind the other, is as long as
/// the encodings of the two together.
pub proof fn lemma_encoding_of_joined(first: Seq<char>, second: Seq<char>)
    ensures
        encode_utf8(first + second).len() == encode_utf8(first).len() + encode_utf8(second).len(),
    decreases first.len(),
{
    if first.len() == 0 {
        assert(first + second =~= second);
    } else {
        lemma_encoding_of_joined(first.drop_first(), second);
        assert((first + second).drop_first() =~= first.drop_first() + second);
        assert((first + second)[0] == first[0]);
    }
}

} // verus!
