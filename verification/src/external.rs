use vstd::prelude::*;

verus! {

/// `std::io::Error`, carried through as it is: nothing is known of what it
/// holds.
#[verifier::external_type_specification]
#[verifier::external_body]
pub struct ExIoError(std::io::Error);

/// `std::str::Utf8Error`, carried through as it is: nothing is known of
/// what it holds.
#[verifier::external_type_specification]
#[verifier::external_body]
pub struct ExUtf8Error(std::str::Utf8Error);

/// The text of an input or output failure, as `std::io::Error` words it
/// through `Display`. Nothing is claimed of the text.
#[verifier::external_body]
pub(crate) fn io_error_text(e: &std::io::Error) -> (s: String) {
    format!("{}", e)
}

/// The text of a failure to decode a string, as `std::str::Utf8Error`
/// words it through `Display`. Nothing is claimed of the text.
#[verifier::external_body]
pub(crate) fn utf8_error_text(e: &std::str::Utf8Error) -> (s: String) {
    format!("{}", e)
}

} // verus!
