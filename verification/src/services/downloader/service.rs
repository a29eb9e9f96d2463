//! What the downloader decides for each canonical resource.
//!
//! A plain resource is fetched and written. A figure is a compound fetch: its
//! manifest is fetched and read, the configuration of the model is written,
//! and then every file that the manifest names is fetched and written. The
//! coordinator of a compound fetch is a state machine: it says what to do
//! next, and is told how that went.

use vstd::prelude::*;
use vstd::string::*;

use crate::error::{ConvertError, DownloadError, DownloadErrorKind};
use crate::models::bestdori;
use crate::models::webgal;
use crate::models::webgal::live2d::{
    default_model_config_path, file_view, files_view, model_config, model_config_path, model_files,
};
use crate::services::downloader::pool::PoolResult;
use crate::services::pipeline::download::DownloadOutcome;
use crate::traits::asset::Asset;

verus! {

/// The second between two looks at the compound fetches that a downloader
/// waits for.
pub const DOWNLOAD_JOIN_CHECK_BACKOFF_SECS: u64 = 1;

/// The failure of the download of `url` to `path`, as the only failure of a
/// resource.
pub open spec fn attributed(url: Seq<char>, path: Seq<char>, kind: DownloadErrorKind, errors: Seq<
    ConvertError,
>) -> bool {
    &&& errors.len() == 1
    &&& errors[0] matches ConvertError::Download(e)
    &&& e.url@ == url
    &&& e.path@ == path
    &&& e.error == kind
}

/// Names the resource in the outcome of its fetch-and-write: a failure is
/// handed on with the address and the path of the resource.
pub fn attribute(url: &str, path: &str, result: PoolResult<()>) -> (outcome: DownloadOutcome)
    ensures
        result is Ok ==> outcome is Ok,
        result matches Err(kind) ==> outcome matches Err(errors) && attributed(
            url@,
            path@,
            kind,
            errors@,
        ),
{
    match result {
        Ok(_) => Ok(()),
        Err(kind) => {
            let mut errors: Vec<ConvertError> = Vec::new();
            errors.push(
                ConvertError::Download(
                    DownloadError::with_context(String::from_str(url), String::from_str(path), kind),
                ),
            );
            Err(errors)
        },
    }
}

/// How far a compound fetch has come.
#[derive(Debug, Clone, Copy, PartialEq, Eq, Structural)]
pub enum Phase {
    /// Nothing has happened yet.
    Idle,
    /// The manifest is being fetched and read.
    Manifest,
    /// The configuration is being written.
    Config,
    /// A file that the manifest names is being fetched and written.
    Files,
    /// The fetch is over, or was cancelled.
    Done,
}

/// What the coordinator of a compound fetch asks for next.
#[derive(Debug)]
pub enum Command {
    /// Fetch the manifest at `url` and read it.
    FetchManifest { url: String },
    /// Write the configuration `model` to `path`.
    WriteConfig { path: String, model: webgal::Model },
    /// Fetch `url` and write it to `path`, inside the directory of the model.
    FetchFile { url: String, path: String },
    /// Nothing more: the compound fetch has ended with this outcome.
    Finish(DownloadOutcome),
    /// Nothing more: the compound fetch was cancelled, and has no outcome.
    Abort,
}

/// The coordinator of the compound fetch of one figure.
pub struct Live2dDownloadWorker {
    url: String,
    path: String,
    phase: Phase,
    files: Vec<(String, String)>,
    next: usize,
    errors: Vec<ConvertError>,
}

impl Live2dDownloadWorker {
    /// While files are fetched, one of them is in flight.
    #[verifier::type_invariant]
    spec fn wf(self) -> bool {
        self.phase == Phase::Files ==> self.next < self.files@.len()
    }

    /// The address of the manifest.
    pub closed spec fn manifest_url(&self) -> Seq<char> {
        self.url@
    }

    /// The directory of the model, below the project root.
    pub closed spec fn directory(&self) -> Seq<char> {
        self.path@
    }

    /// How far the fetch has come.
    pub closed spec fn phase(&self) -> Phase {
        self.phase
    }

    /// The files that the manifest names, each with its address and its path
    /// inside the directory of the model. Empty until the manifest is read.
    pub closed spec fn files(&self) -> Seq<(Seq<char>, Seq<char>)> {
        files_view(self.files@)
    }

    /// The number of files that have been dealt with.
    pub closed spec fn fetched(&self) -> nat {
        self.next as nat
    }

    /// The failures of the files dealt with so far.
    pub closed spec fn failures(&self) -> Seq<ConvertError> {
        self.errors@
    }

    /// The coordinator for the figure whose manifest is at `url` and whose
    /// directory is `path`.
    pub fn new(url: &str, path: &str) -> (worker: Self)
        ensures
            worker.manifest_url() == url@,
            worker.directory() == path@,
            worker.phase() == Phase::Idle,
            worker.files() == Seq::<(Seq<char>, Seq<char>)>::empty(),
            worker.fetched() == 0,
            worker.failures() == Seq::<ConvertError>::empty(),
    {
        let worker = Live2dDownloadWorker {
            url: String::from_str(url),
            path: String::from_str(path),
            phase: Phase::Idle,
            files: Vec::new(),
            next: 0,
            errors: Vec::new(),
        };
        assert(files_view(worker.files@) =~= Seq::empty());
        worker
    }

    /// How far the fetch has come.
    pub fn current_phase(&self) -> (phase: Phase)
        ensures
            phase == self.phase(),
    {
        self.phase
    }

    /// The address of the manifest.
    pub fn url(&self) -> (url: &str)
        ensures
            url@ == self.manifest_url(),
    {
        self.url.as_str()
    }

    /// The directory of the model, below the project root.
    pub fn path(&self) -> (path: &str)
        ensures
            path@ == self.directory(),
    {
        self.path.as_str()
    }

    /// Tests whether the fetch is over or was cancelled.
    pub fn is_finished(&self) -> (finished: bool)
        ensures
            finished == (self.phase() == Phase::Done),
    {
        match self.phase {
            Phase::Done => true,
            _ => false,
        }
    }
}

/// The outcome of a compound fetch whose files have all been dealt with:
/// every failure on the way, or success where there is none.
pub open spec fn gathered(errors: Seq<ConvertError>, outcome: DownloadOutcome) -> bool {
    if errors.len() == 0 {
        outcome is Ok
    } else {
        outcome matches Err(e) && e@ == errors
    }
}

impl Live2dDownloadWorker {
    /// Whether `command` and `after` are what follows when the next of the
    /// files is due: the file with number `after.fetched()` is asked for, or,
    /// where none is left, the fetch ends with everything that failed.
    pub open spec fn proceeds(after: Self, command: Command, failures: Seq<ConvertError>) -> bool {
        if after.fetched() < after.files().len() {
            &&& after.phase() == Phase::Files
            &&& after.failures() == failures
            &&& command matches Command::FetchFile { url, path }
            &&& (url@, path@) == after.files()[after.fetched() as int]
        } else {
            &&& after.phase() == Phase::Done
            &&& command matches Command::Finish(outcome)
            &&& gathered(failures, outcome)
        }
    }

    /// Whether `command` and `after` are what follows a cancellation: the
    /// fetch is over and nothing more is asked for.
    pub open spec fn aborted(after: Self, command: Command) -> bool {
        after.phase() == Phase::Done && command is Abort
    }

    fn take(&mut self) -> (taken: Self)
        ensures
            taken == *old(self),
            final(self).phase() == Phase::Done,
    {
        let mut taken = Live2dDownloadWorker {
            url: String::new(),
            path: String::new(),
            phase: Phase::Done,
            files: Vec::new(),
            next: 0,
            errors: Vec::new(),
        };
        std::mem::swap(self, &mut taken);
        taken
    }

    /// Asks for the file that is due, or ends the fetch.
    fn proceed(
        url: String,
        path: String,
        files: Vec<(String, String)>,
        next: usize,
        errors: Vec<ConvertError>,
    ) -> (r: (Self, Command))
        requires
            next <= files@.len(),
        ensures
            r.0.manifest_url() == url@,
            r.0.directory() == path@,
            r.0.files() == files_view(files@),
            r.0.fetched() == next,
            Self::proceeds(r.0, r.1, errors@),
    {
        if next < files.len() {
            let command = Command::FetchFile {
                url: files[next].0.clone(),
                path: files[next].1.clone(),
            };
            assert(files_view(files@)[next as int] == file_view(files@[next as int]));
            (Live2dDownloadWorker { url, path, phase: Phase::Files, files, next, errors }, command)
        } else {
            let ghost failures = errors@;
            let worker = Live2dDownloadWorker {
                url,
                path,
                phase: Phase::Done,
                files,
                next,
                errors: Vec::new(),
            };
            let outcome = if errors.len() == 0 {
                Ok(())
            } else {
                Err(errors)
            };
            (worker, Command::Finish(outcome))
        }
    }

    /// Starts the fetch: the manifest is asked for. A fetch that is cancelled
    /// before it starts asks for nothing.
    pub fn start(&mut self, cancelled: bool) -> (command: Command)
        requires
            old(self).phase() == Phase::Idle,
        ensures
            final(self).manifest_url() == old(self).manifest_url(),
            final(self).directory() == old(self).directory(),
            cancelled ==> Self::aborted(*final(self), command),
            !cancelled ==> {
                &&& final(self).phase() == Phase::Manifest
                &&& final(self).files() == old(self).files()
                &&& final(self).fetched() == old(self).fetched()
                &&& final(self).failures() == old(self).failures()
                &&& command matches Command::FetchManifest { url }
                &&& url@ == old(self).manifest_url()
            },
    {
        let taken = self.take();
        let Live2dDownloadWorker { url, path, phase, files, next, errors } = taken;
        if cancelled {
            *self = Live2dDownloadWorker { url, path, phase: Phase::Done, files, next, errors };
            return Command::Abort;
        }
        let command = Command::FetchManifest { url: url.clone() };
        *self = Live2dDownloadWorker { url, path, phase: Phase::Manifest, files, next, errors };
        command
    }

    /// Takes in the manifest. Where it could not be fetched or read, the whole
    /// fetch has failed, with that one failure. Where it is there, the
    /// configuration that belongs to it is to be written to its file in the
    /// directory of the model.
    pub fn manifest(&mut self, manifest: PoolResult<bestdori::Model>, cancelled: bool) -> (command:
        Command)
        requires
            old(self).phase() == Phase::Manifest,
        ensures
            final(self).manifest_url() == old(self).manifest_url(),
            final(self).directory() == old(self).directory(),
            cancelled ==> Self::aborted(*final(self), command),
            !cancelled ==> match manifest {
                Ok(model) => {
                    &&& final(self).phase() == Phase::Config
                    &&& final(self).files() == model_files(model@)
                    &&& final(self).fetched() == 0
                    &&& final(self).failures() == Seq::<ConvertError>::empty()
                    &&& command matches Command::WriteConfig { path, model: config }
                    &&& path@ == model_config_path(old(self).directory())
                    &&& config@ == model_config(model@)
                },
                Err(kind) => {
                    &&& final(self).phase() == Phase::Done
                    &&& command matches Command::Finish(Err(errors))
                    &&& attributed(
                        old(self).manifest_url(),
                        old(self).directory(),
                        kind,
                        errors@,
                    )
                },
            },
    {
        let taken = self.take();
        let Live2dDownloadWorker { url, path, phase, files, next, errors } = taken;
        if cancelled {
            *self = Live2dDownloadWorker { url, path, phase: Phase::Done, files, next, errors };
            return Command::Abort;
        }
        match manifest {
            Ok(model) => {
                let (config, files) = webgal::Model::from_bestdori_model(model);
                let command = Command::WriteConfig {
                    path: default_model_config_path(path.as_str()),
                    model: config,
                };
                *self = Live2dDownloadWorker {
                    url,
                    path,
                    phase: Phase::Config,
                    files,
                    next: 0,
                    errors: Vec::new(),
                };
                command
            },
            Err(kind) => {
                let outcome = attribute(url.as_str(), path.as_str(), Err(kind));
                *self = Live2dDownloadWorker { url, path, phase: Phase::Done, files, next, errors };
                Command::Finish(outcome)
            },
        }
    }

    /// Takes in how the writing of the configuration went. Where it failed,
    /// the whole fetch has failed, with that one failure. Where it went well,
    /// the first file is asked for.
    pub fn config_written(&mut self, written: Result<(), std::io::Error>, cancelled: bool) -> (command:
        Command)
        requires
            old(self).phase() == Phase::Config,
            old(self).fetched() == 0,
        ensures
            final(self).manifest_url() == old(self).manifest_url(),
            final(self).directory() == old(self).directory(),
            cancelled ==> Self::aborted(*final(self), command),
            !cancelled ==> match written {
                Ok(_) => {
                    &&& final(self).files() == old(self).files()
                    &&& final(self).fetched() == 0
                    &&& Self::proceeds(*final(self), command, old(self).failures())
                },
                Err(e) => {
                    &&& final(self).phase() == Phase::Done
                    &&& command matches Command::Finish(Err(errors))
                    &&& attributed(
                        old(self).manifest_url(),
                        old(self).directory(),
                        DownloadErrorKind::Io(e),
                        errors@,
                    )
                },
            },
    {
        let taken = self.take();
        let Live2dDownloadWorker { url, path, phase, files, next, errors } = taken;
        if cancelled {
            *self = Live2dDownloadWorker { url, path, phase: Phase::Done, files, next, errors };
            return Command::Abort;
        }
        match written {
            Ok(_) => {
                let (worker, command) = Self::proceed(url, path, files, 0, errors);
                *self = worker;
                command
            },
            Err(e) => {
                let outcome = attribute(url.as_str(), path.as_str(), Err(DownloadErrorKind::Io(e)));
                *self = Live2dDownloadWorker { url, path, phase: Phase::Done, files, next, errors };
                Command::Finish(outcome)
            },
        }
    }

    /// The failures after the file in flight has been dealt with: where it
    /// failed, its failure is added, with the address of the file and its path
    /// below the project root. The failures before it all stay.
    pub open spec fn noted(
        before: Self,
        result: PoolResult<()>,
        failures: Seq<ConvertError>,
    ) -> bool {
        match result {
            Ok(_) => failures == before.failures(),
            Err(kind) => {
                &&& failures.len() == before.failures().len() + 1
                &&& failures.drop_last() == before.failures()
                &&& failures.last() matches ConvertError::Download(e)
                &&& e.url@ == before.files()[before.fetched() as int].0
                &&& e.path@ == before.directory() + before.files()[before.fetched() as int].1
                &&& e.error == kind
            },
        }
    }

    /// Takes in how the fetch and the writing of the file in flight went. A
    /// failure is noted and the fetch goes on: the next file is asked for, or,
    /// after the last, the fetch ends with every failure that was noted.
    pub fn file_done(&mut self, result: PoolResult<()>, cancelled: bool) -> (command: Command)
        requires
            old(self).phase() == Phase::Files,
        ensures
            final(self).manifest_url() == old(self).manifest_url(),
            final(self).directory() == old(self).directory(),
            cancelled ==> Self::aborted(*final(self), command),
            !cancelled ==> {
                &&& final(self).files() == old(self).files()
                &&& final(self).fetched() == old(self).fetched() + 1
                &&& exists|failures: Seq<ConvertError>|
                    Self::noted(*old(self), result, failures) && Self::proceeds(
                        *final(self),
                        command,
                        failures,
                    )
            },
    {
        let taken = self.take();
        proof {
            use_type_invariant(&taken);
        }
        let Live2dDownloadWorker { url, path, phase, files, next, errors } = taken;
        if cancelled {
            *self = Live2dDownloadWorker { url, path, phase: Phase::Done, files, next, errors };
            return Command::Abort;
        }
        let mut errors = errors;
        let ghost before = errors@;
        let count = files.len();
        assert(next < count);
        assert(files_view(files@)[next as int] == file_view(files@[next as int]));
        match result {
            Ok(_) => {},
            Err(kind) => {
                let mut place = path.clone();
                place.append(files[next].1.as_str());
                errors.push(
                    ConvertError::Download(
                        DownloadError::with_context(files[next].0.clone(), place, kind),
                    ),
                );
                assert(errors@.drop_last() =~= before);
            },
        }
        let ghost failures = errors@;
        let (worker, command) = Self::proceed(url, path, files, next + 1, errors);
        *self = worker;
        assert(Self::noted(*old(self), result, failures));
        command
    }
}

/// The way a canonical resource is fetched.
pub enum Route {
    /// Fetch `url` and write it to `path` below the project root.
    Plain { url: String, path: String },
    /// Run a compound fetch.
    Compound(Live2dDownloadWorker),
}

/// Routes a canonical resource: a figure is a compound fetch of its manifest
/// and what the manifest names, anything else a plain fetch. Either lands
/// below the directory of its kind.
pub fn route(res: &webgal::Resource) -> (r: Route)
    ensures
        match r {
            Route::Plain { url, path } => {
                &&& res@.kind != webgal::ResourceType::Figure
                &&& url@ == res@.url
                &&& path@ == res@.rooted_path()
            },
            Route::Compound(worker) => {
                &&& res@.kind == webgal::ResourceType::Figure
                &&& worker.manifest_url() == res@.url
                &&& worker.directory() == res@.rooted_path()
                &&& worker.phase() == Phase::Idle
            },
        },
{
    let path = res.rooted_path();
    match res.kind {
        webgal::ResourceType::Figure => Route::Compound(
            Live2dDownloadWorker::new(res.url.as_str(), path.as_str()),
        ),
        _ => Route::Plain { url: res.url.clone(), path },
    }
}

} // verus!
