//! Error conditions of the store operations.

use vstd::prelude::*;

verus! {

/// The error conditions a store operation can surface.  Oversized and
/// duplicate uploads are deliberately not errors: they come back as
/// informational report strings.
#[derive(Debug)]
pub enum FileError {
    /// The requested key has no corresponding non-empty location, or a
    /// supplied key failed validation.
    NotFound,
    /// A key that existed but has aged out.
    Expired,
    /// An underlying filesystem failure; carries the cause for diagnostics.
    Internal { err: String },
    /// A free-form message for conditions not otherwise categorized.
    Other { dsp: String },
}

/// The user-facing message of each error condition.
pub open spec fn spec_message(e: FileError) -> Seq<char> {
    match e {
        FileError::NotFound => "Sorry, no file for you. Might be expired."@,
        FileError::Expired => "Sorry, this file is expired and you can not reach it no\n                     more."@,
        FileError::Internal { err } => "Internal Error: "@ + err@,
        FileError::Other { dsp } => dsp@,
    }
}

impl FileError {
    /// Renders the error as the plain-text message shown to a user.
    pub fn message(&self) -> (r: String)
        ensures
            r@ == spec_message(*self),
    {
        match self {
            FileError::NotFound => "Sorry, no file for you. Might be expired.".to_owned(),
            FileError::Expired => "Sorry, this file is expired and you can not reach it no\n                     more.".to_owned(),
            FileError::Internal { err } => {
                let mut s = "Internal Error: ".to_owned();
                s.append(err.as_str());
                s
            },
            FileError::Other { dsp } => dsp.clone(),
        }
    }

    /// Wraps the message of an underlying failure, as the caller observed
    /// it, into the internal-error condition.
    pub fn internal(err: String) -> (r: FileError)
        ensures
            r == (FileError::Internal { err }),
    {
        FileError::Internal { err }
    }
}

} // verus!
