//! Session files: the schema-version gate applied before a document is read
//! in full, the name of the temporary file a save goes through, and the
//! errors that opening or saving reports.
use vstd::prelude::*;
use crate::domain::CURRENT_SCHEMA_VERSION;
use crate::text::{decimal_string, spec_decimal};

verus! {

/// Why a session file could not be saved or opened. The outside failures
/// (JSON and file-system errors) carry their own text.
#[derive(Debug, PartialEq)]
pub enum SessionFileError {
    Serialize { message: String },
    Deserialize { message: String },
    Read { path: String, message: String },
    Write { path: String, message: String },
    LegacyV1Session,
    UnsupportedSchemaVersion { expected: u32, found: u32 },
}

/// The schema version that the file format was first released with.
pub const LEGACY_SCHEMA_VERSION: u32 = 1;

/// The text shown for a session-file error.
pub open spec fn session_file_error_text(e: SessionFileError) -> Seq<char> {
    match e {
        SessionFileError::Serialize { message } => "failed to serialize session JSON: "@
            + message@,
        SessionFileError::Deserialize { message } => "failed to deserialize session JSON: "@
            + message@,
        SessionFileError::Read { path, message } => "failed to read session file "@ + path@
            + ": "@ + message@,
        SessionFileError::Write { path, message } => "failed to write session file "@ + path@
            + ": "@ + message@,
        SessionFileError::LegacyV1Session =>
            "This is a v1 session — unsupported in Scrysynth v2. Open a v2 session or start a new one."@,
        SessionFileError::UnsupportedSchemaVersion { expected, found } =>
            "unsupported schemaVersion "@ + spec_decimal(found as nat) + "; expected "@
                + spec_decimal(expected as nat),
    }
}

impl SessionFileError {
    /// The text shown for this error.
    pub fn message(&self) -> (r: String)
        ensures
            r@ == session_file_error_text(*self),
    {
        match self {
            SessionFileError::Serialize { message } => {
                let mut s = "failed to serialize session JSON: ".to_owned();
                s.append(message.as_str());
                s
            },
            SessionFileError::Deserialize { message } => {
                let mut s = "failed to deserialize session JSON: ".to_owned();
                s.append(message.as_str());
                s
            },
            SessionFileError::Read { path, message } => {
                let mut s = "failed to read session file ".to_owned();
                s.append(path.as_str());
                s.append(": ");
                s.append(message.as_str());
                s
            },
            SessionFileError::Write { path, message } => {
                let mut s = "failed to write session file ".to_owned();
                s.append(path.as_str());
                s.append(": ");
                s.append(message.as_str());
                s
            },
            SessionFileError::LegacyV1Session => {
                "This is a v1 session — unsupported in Scrysynth v2. Open a v2 session or start a new one.".to_owned()
            },
            SessionFileError::UnsupportedSchemaVersion { expected, found } => {
                let mut s = "unsupported schemaVersion ".to_owned();
                let f = decimal_string(*found as usize);
                s.append(f.as_str());
                s.append("; expected ");
                let e = decimal_string(*expected as usize);
                s.append(e.as_str());
                s
            },
        }
    }
}

/// The check applied to the `schemaVersion` field of a session file before
/// the document is read in full: a first-release file is refused with its
/// own message, any other version but the current one is refused with both
/// numbers, and the current version passes.
pub fn check_schema_version(found: u32) -> (r: Result<(), SessionFileError>)
    ensures
        found == LEGACY_SCHEMA_VERSION ==> r == Err::<(), SessionFileError>(
            SessionFileError::LegacyV1Session,
        ),
        found != LEGACY_SCHEMA_VERSION && found != CURRENT_SCHEMA_VERSION ==> r == Err::<
            (),
            SessionFileError,
        >(SessionFileError::UnsupportedSchemaVersion { expected: CURRENT_SCHEMA_VERSION, found }),
        found == CURRENT_SCHEMA_VERSION ==> r is Ok,
{
    if found == LEGACY_SCHEMA_VERSION {
        return Err(SessionFileError::LegacyV1Session);
    }
    if found != CURRENT_SCHEMA_VERSION {
        return Err(
            SessionFileError::UnsupportedSchemaVersion { expected: CURRENT_SCHEMA_VERSION, found },
        );
    }
    Ok(())
}

/// The name of the temporary file a save writes before renaming it over the
/// target: the target's file name between a leading `.` and a `.tmp`
/// suffix, or `.session.tmp` when the target has no (UTF-8) file name.
pub open spec fn spec_temporary_file_name(file_name: Option<Seq<char>>) -> Seq<char> {
    match file_name {
        Some(name) => "."@ + name + ".tmp"@,
        None => ".session.tmp"@,
    }
}

/// The temporary file name for a save (see `spec_temporary_file_name`).
pub fn temporary_file_name(file_name: Option<&str>) -> (r: String)
    ensures
        r@ == spec_temporary_file_name(
            match file_name {
                Some(n) => Some(n@),
                None => None,
            },
        ),
{
    match file_name {
        Some(name) => {
            let mut s = ".".to_owned();
            s.append(name);
            s.append(".tmp");
            s
        },
        None => ".session.tmp".to_owned(),
    }
}

} // verus!
