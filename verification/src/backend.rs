//! Trusted boundary to the `flexi_logger` backend: building the logger from
//! a severity token, directing it to a file in the resolved directory, and
//! activating it as the process-wide logger.

use vstd::prelude::*;
use crate::errors::Error;

verus! {

/// `flexi_logger`'s builder type, declared so that a logger under
/// construction can pass between the trusted calls; opaque to verification.
#[verifier::external_type_specification]
#[verifier::external_body]
pub struct ExLogger(flexi_logger::Logger);

/// `flexi_logger`'s log-file description, declared so that it can pass
/// between the trusted calls; opaque to verification.
#[verifier::external_type_specification]
#[verifier::external_body]
pub struct ExFileSpec(flexi_logger::FileSpec);

/// Relies on `flexi_logger::Logger::try_with_str`: builds a logger whose
/// severity floor is parsed from the given text, or returns the parse
/// error. A text that is exactly one of the five severity tokens is a
/// well-formed log specification and always parses successfully.
#[verifier::external_body]
pub(crate) fn logger_try_with_str(
    level_text: &str,
) -> (r: Result<flexi_logger::Logger, flexi_logger::FlexiLoggerError>)
    ensures
        (level_text@ == "trace"@ || level_text@ == "debug"@ || level_text@ == "info"@
            || level_text@ == "warn"@ || level_text@ == "error"@) ==> r matches Ok(_),
{
    flexi_logger::Logger::try_with_str(level_text)
}

/// Relies on `flexi_logger::FileSpec::default`: describes a log file whose
/// stem is the running program's name followed by a timestamp, with the
/// suffix `log`, in the current folder until a directory is set.
#[verifier::external_body]
pub(crate) fn default_file_spec() -> flexi_logger::FileSpec {
    flexi_logger::FileSpec::default()
}

/// Relies on `flexi_logger::FileSpec::directory`: sets the folder in which
/// the log files are created; the backend creates it when it opens the
/// first file.
#[verifier::external_body]
pub(crate) fn file_spec_directory(
    file_description: flexi_logger::FileSpec,
    dir: &str,
) -> flexi_logger::FileSpec {
    file_description.directory(dir)
}

/// Relies on `flexi_logger::Logger::log_to_file`: directs the logger's
/// output to the file that the given description names.
#[verifier::external_body]
pub(crate) fn logger_log_to_file(
    logger: flexi_logger::Logger,
    file_description: flexi_logger::FileSpec,
) -> flexi_logger::Logger {
    logger.log_to_file(file_description)
}

/// Relies on `flexi_logger::Logger::start`: builds the configured logger
/// and installs it as the process-wide logger, or returns the error that
/// the build or the installation produced (a second installation in one
/// process fails). The returned handle is released at once; with the
/// default write mode the installed logger keeps writing for the life of
/// the process.
#[verifier::external_body]
pub(crate) fn logger_start(
    logger: flexi_logger::Logger,
) -> Result<(), flexi_logger::FlexiLoggerError> {
    logger.start().map(|_handle| ())
}

/// Maps the backend's activation outcome into this crate's error set:
/// success stays success, and every backend failure is wrapped, never
/// swallowed.
pub fn wrap_backend_result(
    outcome: Result<(), flexi_logger::FlexiLoggerError>,
) -> (r: Result<(), Error>)
    ensures
        outcome matches Ok(_) ==> r == Ok::<(), Error>(()),
        outcome matches Err(e) ==> r == Err::<(), Error>(Error::Log(e)),
{
    match outcome {
        Ok(()) => Ok(()),
        Err(e) => Err(Error::Log(e)),
    }
}

} // verus!
