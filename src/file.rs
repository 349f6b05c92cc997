//! One input file: the front end's parse outcome in, the destination tree or
//! the reason for failing out. Nothing is produced for a file that fails.
use crate::error::TranspileError;
use crate::module::{items_error, module_to, transpile_module};
use crate::rs;
use crate::ts;
use vstd::prelude::*;

verus! {

#[derive(Debug, PartialEq, Eq)]
pub enum FileError {
    /// The front end could not parse the file; its message.
    Parse(String),
    /// The parsed program holds a construct that is not translated.
    Transpile(TranspileError),
}

/// Translates a parsed file; a parse failure is passed on as it came.
pub fn transpile_file(parsed: Result<ts::Module, String>) -> (r: Result<rs::File, FileError>)
    ensures
        parsed matches Err(msg) ==> r == Err::<rs::File, FileError>(FileError::Parse(msg)),
        parsed matches Ok(m) ==> match r {
            Ok(f) => items_error(m.body@, 0) is None && module_to(m, f),
            Err(e) => items_error(m.body@, 0) matches Some(x) && e == FileError::Transpile(x),
        },
{
    match parsed {
        Err(msg) => Err(FileError::Parse(msg)),
        Ok(module) => match transpile_module(module) {
            Ok(file) => Ok(file),
            Err(err) => Err(FileError::Transpile(err)),
        },
    }
}

} // verus!
