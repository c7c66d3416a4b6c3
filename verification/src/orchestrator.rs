//! The run orchestrator, as an event-driven state machine.
//!
//! The machine sequences the pipeline: validate the two external tool paths,
//! resolve the home directory, ensure the configuration directory, provision
//! the signing-client library (download and extraction, only while its
//! marker file is absent), write the metadata file, authenticate, then sign
//! each target file in input order, short-circuiting to a terminal failure
//! on the first error.  Each transition consumes the outcome of one outside
//! step (an [`Event`]) and names the next outside step to perform (an
//! [`Action`]); the embedding binary performs the probes, the download, the
//! extraction, the file write and the process invocations, none of which the
//! library does itself.
//!
//! The specification-level transition function [`spec_step`] pins every
//! transition down exactly; [`RunState::step`] is proved to implement it.
//!
//! Two points are deliberately left open, matching the tool's behaviour: a
//! failed download or extraction may leave partial state in the workspace
//! (the next run simply probes the marker file again), and nothing guards
//! two concurrent runs sharing one workspace.

use vstd::prelude::*;

verus! {

use vstd::string::StringExecFns;
use crate::classify::{is_supported, spec_is_supported};
use crate::invocation::{
    login_args,
    sign_args,
    sign_template,
    spec_login_args,
    spec_sign_args,
    spec_sign_template,
};
use crate::metadata::{metadata_json, Metadata};
use crate::workspace::{
    archive_path_of,
    config_dir_of,
    config_dir_path,
    download_url,
    download_url_string,
    archive_path,
    lib_dir_of,
    lib_dir_path,
    marker_path,
    marker_path_of,
    metadata_path,
    metadata_path_of,
};

/// Immutable input bundle of one run, read-only after construction.
pub struct RunConfiguration {
    /// Path of the external identity CLI executable.
    pub azure_cli_path: String,
    /// Path of the external signing tool executable.
    pub sign_tool_path: String,
    /// Tenant of the service-principal login.
    pub azure_tenant_id: String,
    /// Client id of the service-principal login.
    pub azure_client_id: String,
    /// Client secret of the service-principal login.
    pub azure_client_secret: String,
    /// Signing endpoint URL.
    pub endpoint: String,
    /// Signing account name.
    pub account: String,
    /// Certificate profile name.
    pub certificate: String,
    /// File digest algorithm.
    pub fd: String,
    /// Timestamp server URL.
    pub tr: String,
    /// Timestamp server digest algorithm.
    pub td: String,
    /// Optional description of the signed content.
    pub description: Option<String>,
    /// Target files, signed in input order.
    pub files: Vec<String>,
    /// Whether files with unsupported extensions are skipped silently.
    pub ignore_unsupported: bool,
}

/// Mathematical model of a [`RunConfiguration`].
pub ghost struct ConfigV {
    pub azure_cli_path: Seq<char>,
    pub sign_tool_path: Seq<char>,
    pub azure_tenant_id: Seq<char>,
    pub azure_client_id: Seq<char>,
    pub azure_client_secret: Seq<char>,
    pub endpoint: Seq<char>,
    pub account: Seq<char>,
    pub certificate: Seq<char>,
    pub fd: Seq<char>,
    pub tr: Seq<char>,
    pub td: Seq<char>,
    pub description: Option<Seq<char>>,
    pub files: Seq<Seq<char>>,
    pub ignore_unsupported: bool,
}

impl View for RunConfiguration {
    type V = ConfigV;

    open spec fn view(&self) -> ConfigV {
        ConfigV {
            azure_cli_path: self.azure_cli_path@,
            sign_tool_path: self.sign_tool_path@,
            azure_tenant_id: self.azure_tenant_id@,
            azure_client_id: self.azure_client_id@,
            azure_client_secret: self.azure_client_secret@,
            endpoint: self.endpoint@,
            account: self.account@,
            certificate: self.certificate@,
            fd: self.fd@,
            tr: self.tr@,
            td: self.td@,
            description: self.description.deep_view(),
            files: self.files.deep_view(),
            ignore_unsupported: self.ignore_unsupported,
        }
    }
}

/// The failure taxonomy: one variant per external resource that can fail,
/// each carrying the path, URL or file involved and the underlying cause.
#[derive(Debug)]
pub enum RunError {
    /// The home directory could not be determined.
    HomeNotFound,
    /// The identity CLI executable is absent from its configured path.
    AzureCliMissing { path: String },
    /// The signing tool executable is absent from its configured path.
    SignToolMissing { path: String },
    /// The configuration directory could not be created.
    ConfigDirCreate { path: String, cause: String },
    /// The signing-client archive could not be downloaded.
    DownloadFailed { url: String, cause: String },
    /// The downloaded archive could not be extracted.
    ExtractionFailed { archive: String, cause: String },
    /// The metadata file could not be written.
    MetadataWriteFailed { path: String, cause: String },
    /// The identity CLI login exited unsuccessfully.
    LoginFailed { cli_path: String, cause: String },
    /// The signing tool exited unsuccessfully for one file.
    SignFailed { file: String, cause: String },
}

/// Mathematical model of a [`RunError`].
pub ghost enum ErrorV {
    HomeNotFound,
    AzureCliMissing { path: Seq<char> },
    SignToolMissing { path: Seq<char> },
    ConfigDirCreate { path: Seq<char>, cause: Seq<char> },
    DownloadFailed { url: Seq<char>, cause: Seq<char> },
    ExtractionFailed { archive: Seq<char>, cause: Seq<char> },
    MetadataWriteFailed { path: Seq<char>, cause: Seq<char> },
    LoginFailed { cli_path: Seq<char>, cause: Seq<char> },
    SignFailed { file: Seq<char>, cause: Seq<char> },
}

impl View for RunError {
    type V = ErrorV;

    open spec fn view(&self) -> ErrorV {
        match self {
            RunError::HomeNotFound => ErrorV::HomeNotFound,
            RunError::AzureCliMissing { path } => ErrorV::AzureCliMissing { path: path@ },
            RunError::SignToolMissing { path } => ErrorV::SignToolMissing { path: path@ },
            RunError::ConfigDirCreate { path, cause } => ErrorV::ConfigDirCreate {
                path: path@,
                cause: cause@,
            },
            RunError::DownloadFailed { url, cause } => ErrorV::DownloadFailed {
                url: url@,
                cause: cause@,
            },
            RunError::ExtractionFailed { archive, cause } => ErrorV::ExtractionFailed {
                archive: archive@,
                cause: cause@,
            },
            RunError::MetadataWriteFailed { path, cause } => ErrorV::MetadataWriteFailed {
                path: path@,
                cause: cause@,
            },
            RunError::LoginFailed { cli_path, cause } => ErrorV::LoginFailed {
                cli_path: cli_path@,
                cause: cause@,
            },
            RunError::SignFailed { file, cause } => ErrorV::SignFailed {
                file: file@,
                cause: cause@,
            },
        }
    }
}

/// The user-visible text of each failure: the resource involved and the
/// underlying cause, so the six external failure modes can be told apart.
pub open spec fn spec_message(e: ErrorV) -> Seq<char> {
    match e {
        ErrorV::HomeNotFound => "could not find home directory"@,
        ErrorV::AzureCliMissing { path } => "azure cli "@ + path
            + " does not exists, please specify PATH with env AZURE_CLI_PATH"@,
        ErrorV::SignToolMissing { path } => "signtool "@ + path
            + " does not exists, please specify PATH with env SIGNTOOL_PATH"@,
        ErrorV::ConfigDirCreate { path, cause } => "config dir '"@ + path
            + "' could not be created: "@ + cause,
        ErrorV::DownloadFailed { url, cause } => "could not download signing client from "@ + url
            + ": "@ + cause,
        ErrorV::ExtractionFailed { cause, .. } => "signing client can't be unzipped: "@ + cause,
        ErrorV::MetadataWriteFailed { cause, .. } => "metadata.json could not be written: "@
            + cause,
        ErrorV::LoginFailed { cli_path, cause } => "login via azure cli '"@ + cli_path
            + "' failed: "@ + cause,
        ErrorV::SignFailed { file, cause } => "signtool could not sign the file '"@ + file
            + "': "@ + cause,
    }
}

impl RunError {
    /// Renders the failure for the user-visible error channel.
    pub fn message(&self) -> (r: String)
        ensures
            r@ == spec_message(self@),
    {
        match self {
            RunError::HomeNotFound => "could not find home directory".to_owned(),
            RunError::AzureCliMissing { path } => {
                let mut m = "azure cli ".to_owned();
                m.append(path.as_str());
                m.append(" does not exists, please specify PATH with env AZURE_CLI_PATH");
                m
            },
            RunError::SignToolMissing { path } => {
                let mut m = "signtool ".to_owned();
                m.append(path.as_str());
                m.append(" does not exists, please specify PATH with env SIGNTOOL_PATH");
                m
            },
            RunError::ConfigDirCreate { path, cause } => {
                let mut m = "config dir '".to_owned();
                m.append(path.as_str());
                m.append("' could not be created: ");
                m.append(cause.as_str());
                m
            },
            RunError::DownloadFailed { url, cause } => {
                let mut m = "could not download signing client from ".to_owned();
                m.append(url.as_str());
                m.append(": ");
                m.append(cause.as_str());
                m
            },
            RunError::ExtractionFailed { archive: _, cause } => {
                let mut m = "signing client can't be unzipped: ".to_owned();
                m.append(cause.as_str());
                m
            },
            RunError::MetadataWriteFailed { path: _, cause } => {
                let mut m = "metadata.json could not be written: ".to_owned();
                m.append(cause.as_str());
                m
            },
            RunError::LoginFailed { cli_path, cause } => {
                let mut m = "login via azure cli '".to_owned();
                m.append(cli_path.as_str());
                m.append("' failed: ");
                m.append(cause.as_str());
                m
            },
            RunError::SignFailed { file, cause } => {
                let mut m = "signtool could not sign the file '".to_owned();
                m.append(file.as_str());
                m.append("': ");
                m.append(cause.as_str());
                m
            },
        }
    }
}

/// Outcome of one outside step, fed back into the machine.
pub enum Event {
    /// Answer to a [`Action::Probe`]: whether the path exists.
    Exists(bool),
    /// Answer to [`Action::GetHome`]: the home directory, if one was found.
    Home(Option<String>),
    /// Answer to every other action: success, or the cause of the failure.
    Completed(Result<(), String>),
}

/// Mathematical model of an [`Event`].
pub ghost enum EventV {
    Exists(bool),
    Home(Option<Seq<char>>),
    Completed(Result<(), Seq<char>>),
}

impl View for Event {
    type V = EventV;

    open spec fn view(&self) -> EventV {
        match self {
            Event::Exists(b) => EventV::Exists(*b),
            Event::Home(o) => EventV::Home(o.deep_view()),
            Event::Completed(r) => EventV::Completed(
                match r {
                    Ok(_) => Ok(()),
                    Err(c) => Err(c@),
                },
            ),
        }
    }
}

/// The next outside step the caller must perform.
pub enum Action {
    /// Check whether a path exists on disk.
    Probe { path: String },
    /// Determine the invoking user's home directory.
    GetHome,
    /// Create a directory and its parents.
    CreateDir { path: String },
    /// Download the archive at `url` into `directory`.
    Download { url: String, directory: String },
    /// Extract the archive into the target directory.
    Extract { archive: String, target: String },
    /// Write `contents` to `path`, replacing any existing file.
    WriteFile { path: String, contents: String },
    /// Run the external program with the given arguments and wait for it.
    Run { program: String, args: Vec<String> },
    /// The run is over; report the outcome and stop.
    Finish { outcome: Result<(), RunError> },
}

/// Mathematical model of an [`Action`].
pub ghost enum ActionV {
    Probe { path: Seq<char> },
    GetHome,
    CreateDir { path: Seq<char> },
    Download { url: Seq<char>, directory: Seq<char> },
    Extract { archive: Seq<char>, target: Seq<char> },
    WriteFile { path: Seq<char>, contents: Seq<char> },
    Run { program: Seq<char>, args: Seq<Seq<char>> },
    Finish { outcome: Result<(), ErrorV> },
}

impl View for Action {
    type V = ActionV;

    open spec fn view(&self) -> ActionV {
        match self {
            Action::Probe { path } => ActionV::Probe { path: path@ },
            Action::GetHome => ActionV::GetHome,
            Action::CreateDir { path } => ActionV::CreateDir { path: path@ },
            Action::Download { url, directory } => ActionV::Download {
                url: url@,
                directory: directory@,
            },
            Action::Extract { archive, target } => ActionV::Extract {
                archive: archive@,
                target: target@,
            },
            Action::WriteFile { path, contents } => ActionV::WriteFile {
                path: path@,
                contents: contents@,
            },
            Action::Run { program, args } => ActionV::Run {
                program: program@,
                args: args.deep_view(),
            },
            Action::Finish { outcome } => ActionV::Finish {
                outcome: match outcome {
                    Ok(_) => Ok(()),
                    Err(e) => Err(e@),
                },
            },
        }
    }
}

/// Which event the machine is waiting for; path-bearing stages carry the
/// configuration directory they resolved.
pub enum Stage {
    /// Waiting for the probe of the identity CLI path.
    AwaitCliProbe,
    /// Waiting for the probe of the signing tool path.
    AwaitSignToolProbe,
    /// Waiting for the home directory.
    AwaitHome,
    /// Waiting for the probe of the configuration directory.
    AwaitConfigDirProbe { config_dir: String },
    /// Waiting for the creation of the configuration directory.
    AwaitDirCreate { config_dir: String },
    /// Waiting for the probe of the library marker file.
    AwaitMarkerProbe { config_dir: String },
    /// Waiting for the download of the signing-client archive.
    AwaitDownload { config_dir: String },
    /// Waiting for the extraction of the signing-client archive.
    AwaitExtract { config_dir: String },
    /// Waiting for the metadata file write.
    AwaitMetadataWrite { config_dir: String },
    /// Waiting for the identity CLI login.
    AwaitLogin { config_dir: String },
    /// Waiting for the sign invocation of the file at `index`.
    AwaitSign { config_dir: String, index: usize },
    /// Terminal: the outcome has been reported through [`Action::Finish`].
    Done,
}

/// Mathematical model of a [`Stage`].
pub ghost enum StageV {
    AwaitCliProbe,
    AwaitSignToolProbe,
    AwaitHome,
    AwaitConfigDirProbe { config_dir: Seq<char> },
    AwaitDirCreate { config_dir: Seq<char> },
    AwaitMarkerProbe { config_dir: Seq<char> },
    AwaitDownload { config_dir: Seq<char> },
    AwaitExtract { config_dir: Seq<char> },
    AwaitMetadataWrite { config_dir: Seq<char> },
    AwaitLogin { config_dir: Seq<char> },
    AwaitSign { config_dir: Seq<char>, index: int },
    Done,
}

impl View for Stage {
    type V = StageV;

    open spec fn view(&self) -> StageV {
        match self {
            Stage::AwaitCliProbe => StageV::AwaitCliProbe,
            Stage::AwaitSignToolProbe => StageV::AwaitSignToolProbe,
            Stage::AwaitHome => StageV::AwaitHome,
            Stage::AwaitConfigDirProbe { config_dir } => StageV::AwaitConfigDirProbe {
                config_dir: config_dir@,
            },
            Stage::AwaitDirCreate { config_dir } => StageV::AwaitDirCreate {
                config_dir: config_dir@,
            },
            Stage::AwaitMarkerProbe { config_dir } => StageV::AwaitMarkerProbe {
                config_dir: config_dir@,
            },
            Stage::AwaitDownload { config_dir } => StageV::AwaitDownload {
                config_dir: config_dir@,
            },
            Stage::AwaitExtract { config_dir } => StageV::AwaitExtract {
                config_dir: config_dir@,
            },
            Stage::AwaitMetadataWrite { config_dir } => StageV::AwaitMetadataWrite {
                config_dir: config_dir@,
            },
            Stage::AwaitLogin { config_dir } => StageV::AwaitLogin { config_dir: config_dir@ },
            Stage::AwaitSign { config_dir, index } => StageV::AwaitSign {
                config_dir: config_dir@,
                index: *index as int,
            },
            Stage::Done => StageV::Done,
        }
    }
}

/// The orchestrator: the run configuration and the stage it is waiting in.
pub struct RunState {
    pub cfg: RunConfiguration,
    pub stage: Stage,
}

/// Mathematical model of a [`RunState`].
pub ghost struct StateV {
    pub cfg: ConfigV,
    pub stage: StageV,
}

impl View for RunState {
    type V = StateV;

    open spec fn view(&self) -> StateV {
        StateV { cfg: self.cfg@, stage: self.stage@ }
    }
}

/// Terminal failure: the machine stops and reports `e`.
pub open spec fn finish_err(s: StateV, e: ErrorV) -> (StateV, ActionV) {
    (StateV { cfg: s.cfg, stage: StageV::Done }, ActionV::Finish { outcome: Err(e) })
}

/// The transition into the metadata-write stage: the file is written fresh
/// on every run, replacing whatever was there.
pub open spec fn metadata_write_step(cfg: ConfigV, config_dir: Seq<char>) -> (StateV, ActionV) {
    (
        StateV { cfg, stage: StageV::AwaitMetadataWrite { config_dir } },
        ActionV::WriteFile {
            path: metadata_path_of(config_dir),
            contents: metadata_json(cfg.endpoint, cfg.account, cfg.certificate),
        },
    )
}

/// The first index at or after `i` whose file is actually signed: when the
/// skip policy is on, files with unsupported extensions are passed over
/// silently.
pub open spec fn first_unskipped(cfg: ConfigV, i: int) -> int
    decreases cfg.files.len() - i,
{
    if i >= cfg.files.len() {
        i
    } else if cfg.ignore_unsupported && !spec_is_supported(cfg.files[i]) {
        first_unskipped(cfg, i + 1)
    } else {
        i
    }
}

/// Exactly the files before `first_unskipped(cfg, i)` are passed over, each
/// silently and only because the skip policy is on and its extension is
/// unsupported; the file at the returned index, when one is left, is
/// signed.
pub proof fn lemma_first_unskipped_skips(cfg: ConfigV, i: int)
    requires
        0 <= i,
    ensures
        i <= first_unskipped(cfg, i),
        i <= cfg.files.len() ==> first_unskipped(cfg, i) <= cfg.files.len(),
        forall|k: int|
            i <= k < first_unskipped(cfg, i) ==> cfg.ignore_unsupported && !spec_is_supported(
                #[trigger] cfg.files[k],
            ),
        first_unskipped(cfg, i) < cfg.files.len() ==> (cfg.ignore_unsupported ==> spec_is_supported(
            cfg.files[first_unskipped(cfg, i)],
        )),
    decreases cfg.files.len() - i,
{
    if i < cfg.files.len() && cfg.ignore_unsupported && !spec_is_supported(cfg.files[i]) {
        lemma_first_unskipped_skips(cfg, i + 1);
    }
}

/// The transition into the signing stage for the next file at or after
/// index `i`, or to the successful end when none is left.
pub open spec fn sign_step(cfg: ConfigV, config_dir: Seq<char>, i: int) -> (StateV, ActionV) {
    let j = first_unskipped(cfg, i);
    if j >= cfg.files.len() {
        (StateV { cfg, stage: StageV::Done }, ActionV::Finish { outcome: Ok(()) })
    } else {
        (
            StateV { cfg, stage: StageV::AwaitSign { config_dir, index: j } },
            ActionV::Run {
                program: cfg.sign_tool_path,
                args: spec_sign_args(
                    spec_sign_template(
                        cfg.fd,
                        cfg.tr,
                        cfg.td,
                        marker_path_of(config_dir),
                        metadata_path_of(config_dir),
                        cfg.description,
                    ),
                    cfg.files[j],
                ),
            },
        )
    }
}

/// The initial state and the first action of a run: the identity CLI path
/// is validated before anything else.
pub open spec fn spec_init(cfg: ConfigV) -> (StateV, ActionV) {
    (
        StateV { cfg, stage: StageV::AwaitCliProbe },
        ActionV::Probe { path: cfg.azure_cli_path },
    )
}

/// The transition function of the orchestrator.  `None` means the machine
/// was not waiting for an event of this kind (or had already stopped).
pub open spec fn spec_step(s: StateV, ev: EventV) -> Option<(StateV, ActionV)> {
    match (s.stage, ev) {
        (StageV::AwaitCliProbe, EventV::Exists(b)) => Some(
            if b {
                (
                    StateV { cfg: s.cfg, stage: StageV::AwaitSignToolProbe },
                    ActionV::Probe { path: s.cfg.sign_tool_path },
                )
            } else {
                finish_err(s, ErrorV::AzureCliMissing { path: s.cfg.azure_cli_path })
            },
        ),
        (StageV::AwaitSignToolProbe, EventV::Exists(b)) => Some(
            if b {
                (StateV { cfg: s.cfg, stage: StageV::AwaitHome }, ActionV::GetHome)
            } else {
                finish_err(s, ErrorV::SignToolMissing { path: s.cfg.sign_tool_path })
            },
        ),
        (StageV::AwaitHome, EventV::Home(o)) => Some(
            match o {
                None => finish_err(s, ErrorV::HomeNotFound),
                Some(home) => (
                    StateV {
                        cfg: s.cfg,
                        stage: StageV::AwaitConfigDirProbe { config_dir: config_dir_of(home) },
                    },
                    ActionV::Probe { path: config_dir_of(home) },
                ),
            },
        ),
        (StageV::AwaitConfigDirProbe { config_dir }, EventV::Exists(b)) => Some(
            if b {
                (
                    StateV { cfg: s.cfg, stage: StageV::AwaitMarkerProbe { config_dir } },
                    ActionV::Probe { path: marker_path_of(config_dir) },
                )
            } else {
                (
                    StateV { cfg: s.cfg, stage: StageV::AwaitDirCreate { config_dir } },
                    ActionV::CreateDir { path: config_dir },
                )
            },
        ),
        (StageV::AwaitDirCreate { config_dir }, EventV::Completed(r)) => Some(
            match r {
                Ok(_) => (
                    StateV { cfg: s.cfg, stage: StageV::AwaitMarkerProbe { config_dir } },
                    ActionV::Probe { path: marker_path_of(config_dir) },
                ),
                Err(cause) => finish_err(s, ErrorV::ConfigDirCreate { path: config_dir, cause }),
            },
        ),
        (StageV::AwaitMarkerProbe { config_dir }, EventV::Exists(b)) => Some(
            if b {
                metadata_write_step(s.cfg, config_dir)
            } else {
                (
                    StateV { cfg: s.cfg, stage: StageV::AwaitDownload { config_dir } },
                    ActionV::Download { url: download_url(), directory: config_dir },
                )
            },
        ),
        (StageV::AwaitDownload { config_dir }, EventV::Completed(r)) => Some(
            match r {
                Ok(_) => (
                    StateV { cfg: s.cfg, stage: StageV::AwaitExtract { config_dir } },
                    ActionV::Extract {
                        archive: archive_path_of(config_dir),
                        target: lib_dir_of(config_dir),
                    },
                ),
                Err(cause) => finish_err(s, ErrorV::DownloadFailed { url: download_url(), cause }),
            },
        ),
        (StageV::AwaitExtract { config_dir }, EventV::Completed(r)) => Some(
            match r {
                Ok(_) => metadata_write_step(s.cfg, config_dir),
                Err(cause) => finish_err(
                    s,
                    ErrorV::ExtractionFailed { archive: archive_path_of(config_dir), cause },
                ),
            },
        ),
        (StageV::AwaitMetadataWrite { config_dir }, EventV::Completed(r)) => Some(
            match r {
                Ok(_) => (
                    StateV { cfg: s.cfg, stage: StageV::AwaitLogin { config_dir } },
                    ActionV::Run {
                        program: s.cfg.azure_cli_path,
                        args: spec_login_args(
                            s.cfg.azure_tenant_id,
                            s.cfg.azure_client_id,
                            s.cfg.azure_client_secret,
                        ),
                    },
                ),
                Err(cause) => finish_err(
                    s,
                    ErrorV::MetadataWriteFailed { path: metadata_path_of(config_dir), cause },
                ),
            },
        ),
        (StageV::AwaitLogin { config_dir }, EventV::Completed(r)) => Some(
            match r {
                Ok(_) => sign_step(s.cfg, config_dir, 0),
                Err(cause) => finish_err(
                    s,
                    ErrorV::LoginFailed { cli_path: s.cfg.azure_cli_path, cause },
                ),
            },
        ),
        (StageV::AwaitSign { config_dir, index }, EventV::Completed(r)) => Some(
            match r {
                Ok(_) => sign_step(s.cfg, config_dir, index + 1),
                Err(cause) => finish_err(
                    s,
                    ErrorV::SignFailed { file: s.cfg.files[index], cause },
                ),
            },
        ),
        _ => None,
    }
}

impl RunState {
    /// A signing stage always points at an existing file.
    pub open spec fn wf(self) -> bool {
        match self.stage {
            Stage::AwaitSign { index, .. } => index < self.cfg.files@.len(),
            _ => true,
        }
    }

    /// Whether the machine has stopped.
    pub open spec fn finished(self) -> bool {
        self.stage is Done
    }

    /// Whether `ev` is the event the machine is waiting for.
    pub open spec fn can_step(self, ev: Event) -> bool {
        spec_step(self@, ev@) is Some
    }

    /// Decides whether `ev` is the kind of event the machine is waiting
    /// for, so an unverified caller can test [`RunState::step`]'s
    /// precondition.
    pub fn accepts(&self, ev: &Event) -> (r: bool)
        ensures
            r == self.can_step(*ev),
    {
        match (&self.stage, ev) {
            (Stage::AwaitCliProbe, Event::Exists(_)) => true,
            (Stage::AwaitSignToolProbe, Event::Exists(_)) => true,
            (Stage::AwaitHome, Event::Home(_)) => true,
            (Stage::AwaitConfigDirProbe { .. }, Event::Exists(_)) => true,
            (Stage::AwaitDirCreate { .. }, Event::Completed(_)) => true,
            (Stage::AwaitMarkerProbe { .. }, Event::Exists(_)) => true,
            (Stage::AwaitDownload { .. }, Event::Completed(_)) => true,
            (Stage::AwaitExtract { .. }, Event::Completed(_)) => true,
            (Stage::AwaitMetadataWrite { .. }, Event::Completed(_)) => true,
            (Stage::AwaitLogin { .. }, Event::Completed(_)) => true,
            (Stage::AwaitSign { .. }, Event::Completed(_)) => true,
            _ => false,
        }
    }

    /// Starts a run: the machine first asks for a probe of the identity CLI
    /// path, before any side effect is requested.
    pub fn new(cfg: RunConfiguration) -> (r: (RunState, Action))
        ensures
            r.0@ == spec_init(cfg@).0,
            r.1@ == spec_init(cfg@).1,
            r.0.wf(),
            !r.0.finished(),
    {
        let action = Action::Probe { path: cfg.azure_cli_path.clone() };
        (RunState { cfg, stage: Stage::AwaitCliProbe }, action)
    }

    /// Consumes the outcome of the pending outside step and returns the next
    /// one; the transition is exactly [`spec_step`].
    pub fn step(&mut self, ev: &Event) -> (a: Action)
        requires
            old(self).wf(),
            old(self).can_step(*ev),
        ensures
            final(self).wf(),
            Some((final(self)@, a@)) == spec_step(old(self)@, ev@),
            final(self)@.cfg == old(self)@.cfg,
    {
        let (next, action): (Stage, Action) = match (&self.stage, ev) {
            (Stage::AwaitCliProbe, Event::Exists(b)) => {
                if *b {
                    (
                        Stage::AwaitSignToolProbe,
                        Action::Probe { path: self.cfg.sign_tool_path.clone() },
                    )
                } else {
                    (
                        Stage::Done,
                        Action::Finish {
                            outcome: Err(
                                RunError::AzureCliMissing {
                                    path: self.cfg.azure_cli_path.clone(),
                                },
                            ),
                        },
                    )
                }
            },
            (Stage::AwaitSignToolProbe, Event::Exists(b)) => {
                if *b {
                    (Stage::AwaitHome, Action::GetHome)
                } else {
                    (
                        Stage::Done,
                        Action::Finish {
                            outcome: Err(
                                RunError::SignToolMissing {
                                    path: self.cfg.sign_tool_path.clone(),
                                },
                            ),
                        },
                    )
                }
            },
            (Stage::AwaitHome, Event::Home(o)) => {
                match o {
                    None => (
                        Stage::Done,
                        Action::Finish { outcome: Err(RunError::HomeNotFound) },
                    ),
                    Some(home) => {
                        let cd = config_dir_path(home.as_str());
                        let probe = Action::Probe { path: cd.clone() };
                        (Stage::AwaitConfigDirProbe { config_dir: cd }, probe)
                    },
                }
            },
            (Stage::AwaitConfigDirProbe { config_dir }, Event::Exists(b)) => {
                if *b {
                    (
                        Stage::AwaitMarkerProbe { config_dir: config_dir.clone() },
                        Action::Probe { path: marker_path(config_dir.as_str()) },
                    )
                } else {
                    (
                        Stage::AwaitDirCreate { config_dir: config_dir.clone() },
                        Action::CreateDir { path: config_dir.clone() },
                    )
                }
            },
            (Stage::AwaitDirCreate { config_dir }, Event::Completed(r)) => {
                match r {
                    Ok(_) => (
                        Stage::AwaitMarkerProbe { config_dir: config_dir.clone() },
                        Action::Probe { path: marker_path(config_dir.as_str()) },
                    ),
                    Err(cause) => (
                        Stage::Done,
                        Action::Finish {
                            outcome: Err(
                                RunError::ConfigDirCreate {
                                    path: config_dir.clone(),
                                    cause: cause.clone(),
                                },
                            ),
                        },
                    ),
                }
            },
            (Stage::AwaitMarkerProbe { config_dir }, Event::Exists(b)) => {
                if *b {
                    let data = Metadata {
                        endpoint: self.cfg.endpoint.clone(),
                        code_signing_account_name: self.cfg.account.clone(),
                        certificate_profile: self.cfg.certificate.clone(),
                    };
                    (
                        Stage::AwaitMetadataWrite { config_dir: config_dir.clone() },
                        Action::WriteFile {
                            path: metadata_path(config_dir.as_str()),
                            contents: data.to_json(),
                        },
                    )
                } else {
                    (
                        Stage::AwaitDownload { config_dir: config_dir.clone() },
                        Action::Download {
                            url: download_url_string(),
                            directory: config_dir.clone(),
                        },
                    )
                }
            },
            (Stage::AwaitDownload { config_dir }, Event::Completed(r)) => {
                match r {
                    Ok(_) => (
                        Stage::AwaitExtract { config_dir: config_dir.clone() },
                        Action::Extract {
                            archive: archive_path(config_dir.as_str()),
                            target: lib_dir_path(config_dir.as_str()),
                        },
                    ),
                    Err(cause) => (
                        Stage::Done,
                        Action::Finish {
                            outcome: Err(
                                RunError::DownloadFailed {
                                    url: download_url_string(),
                                    cause: cause.clone(),
                                },
                            ),
                        },
                    ),
                }
            },
            (Stage::AwaitExtract { config_dir }, Event::Completed(r)) => {
                match r {
                    Ok(_) => {
                        let data = Metadata {
                            endpoint: self.cfg.endpoint.clone(),
                            code_signing_account_name: self.cfg.account.clone(),
                            certificate_profile: self.cfg.certificate.clone(),
                        };
                        (
                            Stage::AwaitMetadataWrite { config_dir: config_dir.clone() },
                            Action::WriteFile {
                                path: metadata_path(config_dir.as_str()),
                                contents: data.to_json(),
                            },
                        )
                    },
                    Err(cause) => (
                        Stage::Done,
                        Action::Finish {
                            outcome: Err(
                                RunError::ExtractionFailed {
                                    archive: archive_path(config_dir.as_str()),
                                    cause: cause.clone(),
                                },
                            ),
                        },
                    ),
                }
            },
            (Stage::AwaitMetadataWrite { config_dir }, Event::Completed(r)) => {
                match r {
                    Ok(_) => (
                        Stage::AwaitLogin { config_dir: config_dir.clone() },
                        Action::Run {
                            program: self.cfg.azure_cli_path.clone(),
                            args: login_args(
                                self.cfg.azure_tenant_id.as_str(),
                                self.cfg.azure_client_id.as_str(),
                                self.cfg.azure_client_secret.as_str(),
                            ),
                        },
                    ),
                    Err(cause) => (
                        Stage::Done,
                        Action::Finish {
                            outcome: Err(
                                RunError::MetadataWriteFailed {
                                    path: metadata_path(config_dir.as_str()),
                                    cause: cause.clone(),
                                },
                            ),
                        },
                    ),
                }
            },
            (Stage::AwaitLogin { config_dir }, Event::Completed(r)) => {
                match r {
                    Ok(_) => sign_step_exec(&self.cfg, config_dir, 0),
                    Err(cause) => (
                        Stage::Done,
                        Action::Finish {
                            outcome: Err(
                                RunError::LoginFailed {
                                    cli_path: self.cfg.azure_cli_path.clone(),
                                    cause: cause.clone(),
                                },
                            ),
                        },
                    ),
                }
            },
            (Stage::AwaitSign { config_dir, index }, Event::Completed(r)) => {
                match r {
                    Ok(_) => {
                        let n: usize = self.cfg.files.len();
                        proof {
                            assert(*index < n);
                        }
                        sign_step_exec(&self.cfg, config_dir, *index + 1)
                    },
                    Err(cause) => (
                        Stage::Done,
                        Action::Finish {
                            outcome: Err(
                                RunError::SignFailed {
                                    file: self.cfg.files[*index].clone(),
                                    cause: cause.clone(),
                                },
                            ),
                        },
                    ),
                }
            },
            // The precondition admits only the stage/event pairs above.
            _ => unreached(),
        };
        self.stage = next;
        action
    }
}

/// Finds the next file to sign at or after index `i` and builds its
/// invocation, or ends the run successfully when none remains.
fn sign_step_exec(cfg: &RunConfiguration, config_dir: &String, i: usize) -> (r: (Stage, Action))
    requires
        i <= cfg.files@.len(),
    ensures
        ({
            let (sv, av) = sign_step(cfg@, config_dir@, i as int);
            &&& r.0@ == sv.stage
            &&& r.1@ == av
            &&& (r.0 matches Stage::AwaitSign { index, .. } ==> index < cfg.files@.len())
        }),
{
    let n: usize = cfg.files.len();
    let mut j: usize = i;
    while j < n && cfg.ignore_unsupported && !is_supported(cfg.files[j].as_str())
        invariant
            i <= j <= n,
            n == cfg.files@.len(),
            first_unskipped(cfg@, i as int) == first_unskipped(cfg@, j as int),
        decreases n - j,
    {
        j += 1;
    }
    proof {
        assert(first_unskipped(cfg@, j as int) == j as int);
    }
    if j == n {
        (Stage::Done, Action::Finish { outcome: Ok(()) })
    } else {
        let mp = marker_path(config_dir.as_str());
        let md = metadata_path(config_dir.as_str());
        let template = sign_template(
            cfg.fd.as_str(),
            cfg.tr.as_str(),
            cfg.td.as_str(),
            mp.as_str(),
            md.as_str(),
            &cfg.description,
        );
        let args = sign_args(&template, &cfg.files[j]);
        (
            Stage::AwaitSign { config_dir: config_dir.clone(), index: j },
            Action::Run { program: cfg.sign_tool_path.clone(), args },
        )
    }
}

} // verus!
