//! The failures that the services report.

use vstd::prelude::*;

use crate::models::bestdori;
use crate::traits::resolve::ResourceType;

verus! {

/// `reqwest::Error`, the failure of a request. Nothing is known of what a
/// value holds; it is carried through to whoever reads it.
#[verifier::external_type_specification]
#[verifier::external_body]
pub struct ExReqwestError(reqwest::Error);

/// `std::io::Error`, the failure of a read or a write. Nothing is known of
/// what a value holds; it is carried through to whoever reads it.
#[verifier::external_type_specification]
#[verifier::external_body]
pub struct ExIoError(std::io::Error);

/// `serde_json::Error`, the failure to read or write JSON. Nothing is known
/// of what a value holds; it is carried through to whoever reads it.
#[verifier::external_type_specification]
#[verifier::external_body]
pub struct ExJsonError(serde_json::Error);

/// Why a download failed.
#[derive(Debug)]
pub enum DownloadErrorKind {
    /// The request failed, timed out, was answered with a status outside 2xx,
    /// or its body could not be read.
    Reqwest(reqwest::Error),
    /// The bytes could not be decoded or written.
    Io(std::io::Error),
}

/// A failed download, with the address it was fetched from and the path it
/// was meant for.
#[derive(Debug)]
pub struct DownloadError {
    pub url: String,
    pub path: String,
    pub error: DownloadErrorKind,
}

impl DownloadError {
    /// A failure of the download of `url` to `path`.
    pub fn with_context(url: String, path: String, err: DownloadErrorKind) -> (e: Self)
        ensures
            e.url == url,
            e.path == path,
            e.error == err,
    {
        DownloadError { url, path, error: err }
    }

    /// A failure of which neither address nor path is known.
    pub fn without_context(err: DownloadErrorKind) -> (e: Self)
        ensures
            e.url@ == Seq::<char>::empty(),
            e.path@ == Seq::<char>::empty(),
            e.error == err,
    {
        DownloadError { url: String::new(), path: String::new(), error: err }
    }
}

/// A descriptor that cannot be mapped to any canonical resource under its
/// category.
#[derive(Debug)]
pub struct ResolveError {
    pub kind: ResourceType,
    pub resource: bestdori::Resource,
}

/// Why an action of a source script could not be translated.
#[derive(Debug)]
pub enum TranspileErrorKind {
    /// The action is of no kind that is known.
    Unknown,
    /// The action speaks of a figure that is not on the stage.
    UninitFigure(u8),
    /// The action refers to a resource that does not resolve.
    Resolve(ResolveError),
}

/// An action of a source script that could not be translated, and why.
#[derive(Debug)]
pub struct TranspileError {
    pub action: Box<bestdori::Action>,
    pub error: TranspileErrorKind,
}

/// Any failure of a conversion.
#[derive(Debug)]
pub enum ConvertError {
    SerdeJson(serde_json::Error),
    Download(DownloadError),
    Transpile(TranspileError),
}

} // verus!
