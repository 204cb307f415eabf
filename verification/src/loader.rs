//! The file loader's computing half. Reading a path from disk is the
//! caller's business; this module turns what the reader produced — bytes, or
//! a failure message — into the load's outcome: the decoded text, or the
//! reported reason.
use vstd::prelude::*;
use vstd::utf8::*;
use crate::encoding::is_utf8_text;

verus! {

/// Why a load failed: the path could not be read at all, or its contents
/// were not valid UTF-8.
pub enum LoadError {
    /// The path does not exist or is not readable; carries the reader's
    /// human-readable message.
    Unreadable { message: String },
    /// The file's bytes are not a valid UTF-8 encoding.
    InvalidEncoding,
}

/// Model of a [`LoadError`].
pub ghost enum LoadErrorModel {
    Unreadable { message: Seq<char> },
    InvalidEncoding,
}

impl View for LoadError {
    type V = LoadErrorModel;

    open spec fn view(&self) -> LoadErrorModel {
        match self {
            LoadError::Unreadable { message } => LoadErrorModel::Unreadable {
                message: message@,
            },
            LoadError::InvalidEncoding => LoadErrorModel::InvalidEncoding,
        }
    }
}

/// The reason's wording, by the model of the error.
pub open spec fn reason_text_model(e: LoadErrorModel) -> Seq<char> {
    match e {
        LoadErrorModel::Unreadable { message } => message,
        LoadErrorModel::InvalidEncoding => "content is not valid UTF-8"@,
    }
}

impl LoadError {
    /// The human-readable reason, for the report on the standard error
    /// stream.
    pub fn reason_text(&self) -> (r: String)
        ensures
            r@ == reason_text_model(self@),
    {
        match self {
            LoadError::Unreadable { message } => message.clone(),
            LoadError::InvalidEncoding => "content is not valid UTF-8".to_owned(),
        }
    }
}

/// What one load attempt produced: the decoded text with its path, or the
/// path with the reason the attempt failed. Consumed at once by
/// `DocumentSession::apply_load`, never retained.
pub enum LoadResult {
    Loaded { text: String, path: String },
    Failed { path: String, reason: LoadError },
}

/// Model of a [`LoadResult`].
pub ghost enum LoadResultModel {
    Loaded { text: Seq<char>, path: Seq<char> },
    Failed { path: Seq<char>, reason: LoadErrorModel },
}

impl View for LoadResult {
    type V = LoadResultModel;

    open spec fn view(&self) -> LoadResultModel {
        match self {
            LoadResult::Loaded { text, path } => LoadResultModel::Loaded {
                text: text@,
                path: path@,
            },
            LoadResult::Failed { path, reason } => LoadResultModel::Failed {
                path: path@,
                reason: reason@,
            },
        }
    }
}

/// What the reader handed over, seen abstractly: the bytes read, or the
/// human-readable reason the read failed.
pub open spec fn read_view(read: Result<Vec<u8>, String>) -> Result<Seq<u8>, Seq<char>> {
    match read {
        Ok(bytes) => Ok(bytes@),
        Err(message) => Err(message@),
    }
}

/// The outcome a load must have: for readable bytes that are valid UTF-8,
/// exactly their decoding under the loaded path; for anything else, a
/// failure carrying the path and the reason.
pub open spec fn load_outcome(path: Seq<char>, read: Result<Seq<u8>, Seq<char>>) -> LoadResultModel {
    match read {
        Ok(bytes) => if valid_utf8(bytes) {
            LoadResultModel::Loaded { text: decode_utf8(bytes), path }
        } else {
            LoadResultModel::Failed { path, reason: LoadErrorModel::InvalidEncoding }
        },
        Err(message) => LoadResultModel::Failed {
            path,
            reason: LoadErrorModel::Unreadable { message },
        },
    }
}

/// Relies on String::from_utf8: it returns a string exactly when the bytes
/// are a valid UTF-8 encoding, and that string re-encodes to the input
/// bytes, character for character.
#[verifier::external_body]
fn utf8_to_string(bytes: Vec<u8>) -> (r: Option<String>)
    ensures
        r is Some <==> valid_utf8(bytes@),
        r matches Some(text) ==> encode_utf8(text@) == bytes@,
{
    match String::from_utf8(bytes) {
        Ok(text) => Some(text),
        Err(_) => None,
    }
}

/// Turns a path and what the reader produced for it into the load's
/// outcome: the full text exactly as stored on disk when the bytes are
/// valid UTF-8, and otherwise the failure with its reason.
pub fn load_document(path: String, read: Result<Vec<u8>, String>) -> (r: LoadResult)
    ensures
        r@ == load_outcome(path@, read_view(read)),
{
    match read {
        Ok(bytes) => {
            if is_utf8_text(&bytes) {
                match utf8_to_string(bytes) {
                    Some(text) => {
                        proof {
                            encode_utf8_decode_utf8(text@);
                        }
                        LoadResult::Loaded { text, path }
                    },
                    None => unreached(),
                }
            } else {
                LoadResult::Failed { path, reason: LoadError::InvalidEncoding }
            }
        },
        Err(message) => LoadResult::Failed {
            path,
            reason: LoadError::Unreadable { message },
        },
    }
}

} // verus!
