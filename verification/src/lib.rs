//! File-logging initialization for command-line and desktop applications.
//!
//! Given a program name and a minimum severity, the crate resolves the
//! platform's local application-data directory, derives a per-application
//! log directory under it, and activates a global file-logging backend
//! writing timestamped log files there.

use vstd::prelude::*;

mod backend;
mod errors;
mod level;
mod path;

pub use backend::wrap_backend_result;
pub use errors::{log_message_of, Error};
pub use level::{level_token, level_token_spec, lemma_level_token_injective, LogLevel};
pub use path::{
    drop_last_segment, get_log_path, join_log_dir, last_segment, lemma_log_dir_segments,
    log_dir_spec, resolve_or_error,
};

verus! {

/// Initializes process-wide file logging for the named program at the given
/// minimum severity.
///
/// The log file lands in the platform's local application-data directory,
/// under the program name and the segment `log`:
///
/// | OS | Path |
/// | --- | --- |
/// | Windows | `%LOCALAPPDATA%\program_name\log\` |
/// | Linux | `$XDG_DATA_HOME/program_name/log/` |
/// | macOS | `$HOME/Library/Application Support/program_name/log/` |
///
/// An empty program name is rejected before any platform query; a platform
/// without a local application-data directory is reported as
/// [`Error::NoLogPathFound`]; every backend failure is returned as
/// [`Error::Log`].
pub fn init_logger(program_name: &str, level: LogLevel) -> (r: Result<(), Error>)
    ensures
        program_name@.len() == 0 ==> r == Err::<(), Error>(Error::EmptyProgramName),
        (r matches Err(e) && e is EmptyProgramName) ==> program_name@.len() == 0,
        (r matches Err(e) && !(e is EmptyProgramName)) ==> program_name@.len() > 0,
        r matches Ok(_) ==> program_name@.len() > 0,
{
    if program_name.is_empty() {
        return Err(Error::EmptyProgramName);
    }
    let token = level_token(level);
    let dir = match resolve_or_error(get_log_path(program_name)) {
        Ok(p) => p,
        Err(e) => {
            return Err(e);
        },
    };
    let logger = match backend::logger_try_with_str(token) {
        Ok(l) => l,
        Err(e) => {
            return Err(Error::Log(e));
        },
    };
    let target = backend::file_spec_directory(backend::default_file_spec(), dir.as_str());
    let logger = backend::logger_log_to_file(logger, target);
    wrap_backend_result(backend::logger_start(logger))
}

/// Initializes process-wide file logging at the default severity, `Info`.
pub fn init_logger_default(program_name: &str) -> (r: Result<(), Error>)
    ensures
        program_name@.len() == 0 ==> r == Err::<(), Error>(Error::EmptyProgramName),
        (r matches Err(e) && e is EmptyProgramName) ==> program_name@.len() == 0,
        (r matches Err(e) && !(e is EmptyProgramName)) ==> program_name@.len() > 0,
        r matches Ok(_) ==> program_name@.len() > 0,
{
    init_logger(program_name, LogLevel::Info)
}

} // verus!
