//! The timestamp file protocol: how a fake time is published for running
//! threads to read. The content is the decimal text that `parse` defines;
//! a producer never writes the target in place but fills a fresh
//! temporary file and atomically renames it onto the target, so a
//! concurrent reader sees either the previous or the new complete
//! content, never a partial write.

use vstd::prelude::*;

use crate::parse::format_millis;

verus! {

#[verifier::external_type_specification]
#[verifier::external_body]
pub struct ExIoError(std::io::Error);

#[verifier::external_type_specification]
#[verifier::external_body]
pub struct ExTempPath(tempfile::TempPath);

/// A freshly created, uniquely named temporary file, still open for
/// writing. `tempfile::NamedTempFile` itself cannot be named in a
/// verified signature, since its handle type is opaque here; this holder
/// hides it, and the wrappers below are its only operations.
#[verifier::external_body]
struct TempFile {
    inner: tempfile::NamedTempFile,
}

/// Relies on `tempfile::NamedTempFile::new`: creates a fresh, uniquely
/// named temporary file, or reports the I/O error.
#[verifier::external_body]
fn temp_file_new() -> (r: Result<TempFile, std::io::Error>) {
    match tempfile::NamedTempFile::new() {
        Ok(f) => Ok(TempFile { inner: f }),
        Err(e) => Err(e),
    }
}

/// Relies on tempfile's `Write` impl for `NamedTempFile` (`write_all`):
/// writes the whole buffer into the temporary file, or reports the I/O
/// error.
#[verifier::external_body]
fn temp_file_write_all(file: &mut TempFile, bytes: &Vec<u8>) -> (r: Result<(), std::io::Error>) {
    std::io::Write::write_all(&mut file.inner, bytes.as_slice())
}

/// Relies on `tempfile::NamedTempFile::into_temp_path`: closes the file
/// handle and keeps the path, which deletes the file when dropped.
#[verifier::external_body]
fn temp_file_into_path(file: TempFile) -> (r: tempfile::TempPath) {
    file.inner.into_temp_path()
}

/// Relies on `tempfile::TempPath::persist`: atomically renames the
/// temporary file onto the target path; its error is unwrapped to the
/// underlying I/O error.
#[verifier::external_body]
fn temp_path_persist(path: tempfile::TempPath, target: &str) -> (r: Result<(), std::io::Error>) {
    match path.persist(target) {
        Ok(()) => Ok(()),
        Err(e) => Err(e.error),
    }
}

/// Relies on `std::path::Path::to_str`, reached through `TempPath`'s
/// `Deref`: the path as text when it is valid UTF-8, `None` otherwise.
#[verifier::external_body]
fn temp_path_str(path: &tempfile::TempPath) -> (r: Option<String>) {
    match path.to_str() {
        Some(s) => Some(s.to_string()),
        None => None,
    }
}

/// Relies on `std::io::Error::from(ErrorKind)`: an error value standing
/// for data that is not valid UTF-8.
#[verifier::external_body]
fn non_utf8_path_error() -> (r: std::io::Error) {
    std::io::Error::from(std::io::ErrorKind::InvalidData)
}

/// Publishes `millis` as the whole content of the file at `path`.
///
/// The canonical decimal digits of `millis` are written into a fresh
/// temporary file, which is then atomically renamed onto `path`; the
/// target is never truncated or written in place, so a concurrent reader
/// observes either the previous complete content or the new one. Any
/// failure to create, write or rename the file surfaces as the I/O error,
/// and nothing is silently recovered at this layer.
pub fn write_millis(path: &str, millis: u64) -> (r: Result<(), std::io::Error>) {
    let digits = format_millis(millis);
    let mut file = match temp_file_new() {
        Ok(f) => f,
        Err(e) => return Err(e),
    };
    match temp_file_write_all(&mut file, &digits) {
        Ok(()) => (),
        Err(e) => return Err(e),
    };
    let temp = temp_file_into_path(file);
    temp_path_persist(temp, path)
}

/// Creates a fresh, uniquely named temporary file, publishes `millis`
/// into it through `write_millis`, and returns the scoped handle.
///
/// The handle deletes the file on every exit path from the scope that
/// owns it; a caller who discards the handle at once loses the file. Any
/// failure to create or fill the file surfaces as the I/O error; a
/// temporary path that is not valid UTF-8 text is reported the same way.
pub fn millis_tempfile(millis: u64) -> (r: Result<tempfile::TempPath, std::io::Error>) {
    let file = match temp_file_new() {
        Ok(f) => f,
        Err(e) => return Err(e),
    };
    let temp = temp_file_into_path(file);
    let path = match temp_path_str(&temp) {
        Some(s) => s,
        None => return Err(non_utf8_path_error()),
    };
    match write_millis(path.as_str(), millis) {
        Ok(()) => Ok(temp),
        Err(e) => Err(e),
    }
}

} // verus!
