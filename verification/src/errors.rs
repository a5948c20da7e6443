//! The closed set of errors that initialization can produce.

use vstd::prelude::*;

verus! {

/// `flexi_logger`'s error type, declared so that backend failures can be
/// carried inside [`Error::Log`]; its values are opaque to verification.
#[verifier::external_type_specification]
#[verifier::external_body]
pub struct ExFlexiLoggerError(flexi_logger::FlexiLoggerError);

/// Errors that this crate can produce.
#[derive(Debug)]
pub enum Error {
    /// The logging backend failed while building or activating the logger.
    Log(flexi_logger::FlexiLoggerError),
    /// An empty program name was given.
    EmptyProgramName,
    /// The platform exposes no local application-data directory.
    NoLogPathFound,
}

/// Relies on `FlexiLoggerError`'s `Display` implementation for the text
/// describing a backend failure.
#[verifier::external_body]
fn backend_error_text(e: &flexi_logger::FlexiLoggerError) -> String {
    format!("{}", e)
}

/// Renders a backend failure's description: the fixed prefix followed by
/// exactly the text the backend handed back.
pub fn log_message_of(backend_text: &str) -> (r: String)
    ensures
        r@ == "FlexiLogger Error: "@ + backend_text@,
{
    let mut text: String = "FlexiLogger Error: ".to_owned();
    text.append(backend_text);
    text
}

impl Error {
    /// A human-readable description of the error. A backend failure is
    /// described by [`log_message_of`] applied to the backend's own text.
    pub fn message(&self) -> (r: String)
        ensures
            self is EmptyProgramName ==> r@ == "Empty program name"@,
            self is NoLogPathFound ==> r@ == "Application data folder could not be found"@,
            self is Log ==> exists|t: Seq<char>| #![auto] r@ == "FlexiLogger Error: "@ + t,
    {
        match self {
            Error::Log(e) => {
                let backend_text = backend_error_text(e);
                let text = log_message_of(backend_text.as_str());
                proof {
                    assert(text@ == "FlexiLogger Error: "@ + backend_text@);
                }
                text
            },
            Error::EmptyProgramName => "Empty program name".to_owned(),
            Error::NoLogPathFound => "Application data folder could not be found".to_owned(),
        }
    }
}

} // verus!
