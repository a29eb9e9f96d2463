//! The failures of the streaming pipeline.

use vstd::prelude::*;
use vstd::string::*;

use crate::models::bestdori::ResourceView as AddressView;
use crate::pipeline::models::bestdori::Address;

verus! {

/// The use for which a plain resource did not resolve.
#[derive(Debug, Clone, Copy, PartialEq, Eq, Structural)]
pub enum ResolveCommonKind {
    Bgm,
    Se,
    Background,
    CardStill,
}

impl ResolveCommonKind {
    /// The name of the use.
    pub fn as_str(&self) -> (name: &'static str)
        ensures
            name@ == match self {
                ResolveCommonKind::Bgm => "Bgm"@,
                ResolveCommonKind::Se => "Se"@,
                ResolveCommonKind::Background => "Background"@,
                ResolveCommonKind::CardStill => "CardStill"@,
            },
    {
        match self {
            ResolveCommonKind::Bgm => "Bgm",
            ResolveCommonKind::Se => "Se",
            ResolveCommonKind::Background => "Background",
            ResolveCommonKind::CardStill => "CardStill",
        }
    }
}

/// The part of a character model that did not resolve.
#[derive(Debug, Clone, Copy, PartialEq, Eq, Structural)]
pub enum ResolveLive2DKind {
    Model,
    Motion,
    Expression,
}

impl ResolveLive2DKind {
    /// The name of the part.
    pub fn as_str(&self) -> (name: &'static str)
        ensures
            name@ == match self {
                ResolveLive2DKind::Model => "Model"@,
                ResolveLive2DKind::Motion => "Motion"@,
                ResolveLive2DKind::Expression => "Expression"@,
            },
    {
        match self {
            ResolveLive2DKind::Model => "Model",
            ResolveLive2DKind::Motion => "Motion",
            ResolveLive2DKind::Expression => "Expression",
        }
    }
}

/// A resource that did not resolve.
#[derive(Debug)]
pub enum ResolveError {
    Common { kind: ResolveCommonKind, addr: Address },
    Live2D { kind: ResolveLive2DKind, character: u8, attr: String },
}

/// Why a download failed.
#[derive(Debug)]
pub enum DownloadErrorKind {
    /// The answer had this status, which is none of success.
    HttpStatus(u16),
    Reqwest(reqwest::Error),
    Io(std::io::Error),
    UrlMissing,
    SendError(String),
    WorkerPanic,
    Timeout,
    Unexpected(String),
}

/// A failed download, with what is known of its address and its path.
#[derive(Debug)]
pub struct DownloadError {
    pub kind: DownloadErrorKind,
    pub url: Option<String>,
    pub path: Option<String>,
}

/// The mention of an address and a path in a message, as far as they are
/// known.
pub open spec fn context_text(url: Option<Seq<char>>, path: Option<Seq<char>>) -> Seq<char> {
    (match url {
        Some(u) => ", url: "@ + u,
        None => Seq::empty(),
    }) + (match path {
        Some(p) => ", path: "@ + p,
        None => Seq::empty(),
    })
}

impl DownloadError {
    /// A failure of which neither address nor path is known.
    pub fn new(kind: DownloadErrorKind) -> (e: Self)
        ensures
            e.kind == kind,
            e.url is None,
            e.path is None,
    {
        DownloadError { kind, url: None, path: None }
    }

    /// The same failure, with `url` and `path` where it knew none.
    pub fn with_context(self, url: &str, path: &str) -> (e: Self)
        ensures
            e.kind == self.kind,
            match self.url {
                Some(u) => e.url == Some(u),
                None => e.url matches Some(u) && u@ == url@,
            },
            match self.path {
                Some(p) => e.path == Some(p),
                None => e.path matches Some(p) && p@ == path@,
            },
    {
        DownloadError {
            kind: self.kind,
            url: match self.url {
                Some(u) => Some(u),
                None => Some(String::from_str(url)),
            },
            path: match self.path {
                Some(p) => Some(p),
                None => Some(String::from_str(path)),
            },
        }
    }

    /// The mention of the address and the path of the failure in a message.
    pub fn context(&self) -> (text: String)
        ensures
            text@ == context_text(
                match self.url {
                    Some(u) => Some(u@),
                    None => None,
                },
                match self.path {
                    Some(p) => Some(p@),
                    None => None,
                },
            ),
    {
        let mut text = String::new();
        match &self.url {
            Some(u) => {
                text.append(", url: ");
                text.append(u.as_str());
                assert(text@ =~= ", url: "@ + u@);
            },
            None => {},
        }
        let ghost first = text@;
        match &self.path {
            Some(p) => {
                text.append(", path: ");
                text.append(p.as_str());
                assert(text@ =~= first + (", path: "@ + p@));
            },
            None => {
                assert(text@ =~= first + Seq::<char>::empty());
            },
        }
        text
    }
}

/// What is wrong with a script.
#[derive(Debug, Clone, Copy, PartialEq, Eq, Structural)]
pub enum ScriptError {
    Unknown,
    IdNotFound(u8),
}

/// What is wrong with the use of a pipeline.
#[derive(Debug, Clone, Copy, PartialEq, Eq, Structural)]
pub enum PipelineError {
    BadStart,
    Paniced,
}

/// Any failure of the streaming pipeline.
#[derive(Debug)]
pub enum Failure {
    Json(serde_json::Error),
    Io(std::io::Error),
    Script(ScriptError),
    Resolve(ResolveError),
    Download(DownloadError),
    Pipeline(PipelineError),
}

/// A failure, as a mathematical value. Of a failure that comes from outside
/// the library only its kind is kept.
pub enum FailureView {
    /// A plain resource did not resolve for the use `kind`.
    Common { kind: ResolveCommonKind, addr: AddressView },
    /// A part of a character model did not resolve.
    Live2D { kind: ResolveLive2DKind, character: u8, attr: Seq<char> },
    Script(ScriptError),
    Pipeline(PipelineError),
    Json,
    Io,
    Download,
}

/// The mathematical value of a resource that did not resolve.
pub open spec fn resolve_error_view(error: ResolveError) -> FailureView {
    match error {
        ResolveError::Common { kind, addr } => FailureView::Common { kind, addr: addr@ },
        ResolveError::Live2D { kind, character, attr } => FailureView::Live2D {
            kind,
            character,
            attr: attr@,
        },
    }
}

/// The mathematical value of a failure.
pub open spec fn failure_view(failure: Failure) -> FailureView {
    match failure {
        Failure::Resolve(e) => resolve_error_view(e),
        Failure::Script(e) => FailureView::Script(e),
        Failure::Pipeline(e) => FailureView::Pipeline(e),
        Failure::Json(_) => FailureView::Json,
        Failure::Io(_) => FailureView::Io,
        Failure::Download(_) => FailureView::Download,
    }
}

} // verus!
