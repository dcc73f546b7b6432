//! Error taxonomy of the integration engine and its commit store.

use vstd::prelude::*;

verus! {

use vstd::utf8::{valid_utf8, decode_utf8};

/// Everything that can go wrong while computing a remote-friendly commit.
#[derive(Debug)]
pub enum Error {
    /// A user-provided commit reference does not exist.
    NoSuchCommit(String),
    /// A commit message is expected to have a trailer with the given key, but does not.
    MissingTrailer { oid: String, key: String },
    /// A commit message is expected to have at most one trailer with the given key, but has
    /// more than one.
    DuplicateTrailer { oid: String, key: String },
    /// User-supplied text (e.g., a commit message) was improperly encoded. Data not in UTF-8
    /// must be declared as such via the `i18n.commitEncoding` setting at commit time. For
    /// details, see `man git-commit`.
    InvalidEncoding { oid: String },
    /// The `git(1)` binary behaved unexpectedly: e.g., `rev-parse --verify REVISION` returned
    /// success but did not write an object ID to standard output.
    GitContract(String),
    /// Underlying IO error (e.g., failure to invoke `git`).
    IoError(String),
}

/// Mathematical image of an [`Error`]: the same variants over character sequences.
#[verifier::ext_equal]
pub enum ErrView {
    NoSuchCommit(Seq<char>),
    MissingTrailer { oid: Seq<char>, key: Seq<char> },
    DuplicateTrailer { oid: Seq<char>, key: Seq<char> },
    InvalidEncoding { oid: Seq<char> },
    GitContract(Seq<char>),
    IoError(Seq<char>),
}

impl View for Error {
    type V = ErrView;

    open spec fn view(&self) -> ErrView {
        match self {
            Error::NoSuchCommit(r) => ErrView::NoSuchCommit(r@),
            Error::MissingTrailer { oid, key } => ErrView::MissingTrailer {
                oid: oid@,
                key: key@,
            },
            Error::DuplicateTrailer { oid, key } => ErrView::DuplicateTrailer {
                oid: oid@,
                key: key@,
            },
            Error::InvalidEncoding { oid } => ErrView::InvalidEncoding { oid: oid@ },
            Error::GitContract(m) => ErrView::GitContract(m@),
            Error::IoError(m) => ErrView::IoError(m@),
        }
    }
}

/// A fallible result, with both sides taken to their mathematical images.
pub open spec fn res_view<T: DeepView>(r: Result<T, Error>) -> Result<T::V, ErrView> {
    match r {
        Ok(t) => Ok(t.deep_view()),
        Err(e) => Err(e@),
    }
}

/// Relies on `String::from_utf8` and `FromUtf8Error::into_bytes`: decoding succeeds exactly
/// on valid UTF-8 input, yields the decoded scalar values, and returns the input bytes
/// unchanged on failure.
#[verifier::external_body]
pub(crate) fn utf8_string(bytes: Vec<u8>) -> (r: Result<String, Vec<u8>>)
    ensures
        match r {
            Ok(s) => valid_utf8(bytes@) && s@ == decode_utf8(bytes@),
            Err(b) => !valid_utf8(bytes@) && b@ == bytes@,
        },
{
    String::from_utf8(bytes).map_err(|e| e.into_bytes())
}

impl Error {
    /// Parse user-supplied bytes that are expected to represent valid UTF-8, failing with an
    /// `InvalidEncoding` error referring to `oid` if the bytes are not valid UTF-8.
    pub fn require_utf8(buffer: Vec<u8>, oid: &str) -> (r: Result<String, Error>)
        ensures
            match r {
                Ok(s) => valid_utf8(buffer@) && s@ == decode_utf8(buffer@),
                Err(e) => !valid_utf8(buffer@) && (e matches Error::InvalidEncoding { oid: o }
                    && o@ == oid@),
            },
    {
        match utf8_string(buffer) {
            Ok(s) => Ok(s),
            Err(_) => Err(Error::InvalidEncoding { oid: String::from_str(oid) }),
        }
    }
}

} // verus!
