//! Detection of the runtime engine and its silent installation, one
//! procedure per platform.
//!
//! Installation is a state machine: the caller starts with `Begin`, performs
//! the command of each step and reports what happened as the next event,
//! until a step's command is `Succeed` or `Fail`.

use vstd::prelude::*;
use crate::codec::{from_utf8_lossy, trim, trimmed, utf8_lossy};
use crate::commands::{emit_progress, opt_progress, Platform, ProgressEvent, ProgressView, Stage};
use crate::text::{joined, opt_text, texts};

verus! {

/// How long the caller waits after launching the application bundle, in
/// milliseconds.
pub const SETTLE_MILLIS: u64 = 3000;

/// The well-known place of the engine's executable.
pub open spec fn binary_path_of(platform: Platform) -> Seq<char> {
    match platform {
        Platform::Windows => "C:\\Users\\Public\\AppData\\Local\\Programs\\Ollama\\ollama.exe"@,
        _ => "/usr/local/bin/ollama"@,
    }
}

/// The well-known place of the engine's executable on the platform.
pub fn ollama_binary_path(platform: Platform) -> (r: &'static str)
    ensures
        r@ == binary_path_of(platform),
{
    match platform {
        Platform::Windows => "C:\\Users\\Public\\AppData\\Local\\Programs\\Ollama\\ollama.exe",
        _ => "/usr/local/bin/ollama",
    }
}

/// The executable to ask for its version: the bare name where the search
/// path has it, the well-known place otherwise.
pub fn detection_binary(on_path: bool, platform: Platform) -> (r: &'static str)
    ensures
        r@ == (if on_path {
            "ollama"@
        } else {
            binary_path_of(platform)
        }),
{
    if on_path {
        "ollama"
    } else {
        ollama_binary_path(platform)
    }
}

/// Where the installer is downloaded from.
pub fn installer_url(platform: Platform) -> (r: &'static str)
    ensures
        r@ == (match platform {
            Platform::Windows => "https://ollama.com/download/OllamaSetup.exe"@,
            Platform::Macos => "https://ollama.com/download/Ollama-darwin.zip"@,
            Platform::Linux => "https://ollama.com/install.sh"@,
        }),
{
    match platform {
        Platform::Windows => "https://ollama.com/download/OllamaSetup.exe",
        Platform::Macos => "https://ollama.com/download/Ollama-darwin.zip",
        Platform::Linux => "https://ollama.com/install.sh",
    }
}

/// The name of the download in the temporary directory.
pub fn installer_file_name(platform: Platform) -> (r: &'static str)
    ensures
        r@ == (match platform {
            Platform::Windows => "OllamaSetup.exe"@,
            Platform::Macos => "Ollama-darwin.zip"@,
            Platform::Linux => "ollama_install.sh"@,
        }),
{
    match platform {
        Platform::Windows => "OllamaSetup.exe",
        Platform::Macos => "Ollama-darwin.zip",
        Platform::Linux => "ollama_install.sh",
    }
}

/// What a finished process left: whether it exited with success, and what it
/// wrote.
#[derive(Clone, Debug)]
pub struct ProcessOutput {
    pub success: bool,
    pub stdout: Vec<u8>,
    pub stderr: Vec<u8>,
}

/// The outcome of a detection, from the outcome of the version query:
/// installed exactly if the process ran and exited with success, and then
/// the version is its trimmed output.
pub open spec fn detection_of(probe: Option<(bool, Seq<u8>)>) -> (bool, Option<Seq<char>>) {
    match probe {
        Some(out) => if out.0 {
            (true, Some(trimmed(utf8_lossy(out.1))))
        } else {
            (false, None)
        },
        None => (false, None),
    }
}

/// What a detection reads of the version query: whether it exited with
/// success, and its standard output.
pub open spec fn probe_view(probe: Option<ProcessOutput>) -> Option<(bool, Seq<u8>)> {
    match probe {
        Some(out) => Some((out.success, out.stdout@)),
        None => None,
    }
}

/// Detection depends on nothing but whether the version query succeeded and
/// what it printed: two queries alike in both are judged alike, a version is
/// reported exactly when the engine is installed, and that is exactly when
/// the query ran and succeeded.
pub proof fn lemma_detection_is_repeatable(first: Option<ProcessOutput>, second: Option<ProcessOutput>)
    requires
        probe_view(first) == probe_view(second),
    ensures
        detection_of(probe_view(first)) == detection_of(probe_view(second)),
        detection_of(probe_view(first)).0 <==> (first matches Some(out) && out.success),
        detection_of(probe_view(first)).1 is Some <==> detection_of(probe_view(first)).0,
{
}

/// Decides whether the engine is installed from the outcome of its version
/// query (`None` where it could not be found or started).
pub fn detect_ollama(probe: Option<ProcessOutput>) -> (r: (bool, Option<String>))
    ensures
        (r.0, opt_text(r.1)) == detection_of(probe_view(probe)),
{
    match probe {
        Some(out) => {
            if out.success {
                let raw = from_utf8_lossy(out.stdout.as_slice());
                (true, Some(trim(raw.as_str())))
            } else {
                (false, None)
            }
        },
        None => (false, None),
    }
}

/// Where an installation stands.
#[derive(Clone, Copy, Debug, PartialEq, Eq, Structural)]
pub enum InstallState {
    Start,
    Downloading,
    Preparing,
    Installing,
    Verifying,
    Launching,
    Settling,
    Finished,
}

/// What the caller is to do after a step.
#[derive(Clone, Copy, Debug, PartialEq, Eq, Structural)]
pub enum InstallCommand {
    /// Fetch the installer into the temporary file.
    Download,
    /// Mark the downloaded script executable; report the exit, whatever it is.
    MakeExecutable,
    /// Run the platform's installation process and report its exit.
    RunInstaller,
    /// Report whether the application bundle exists.
    CheckBundle,
    /// Start the application bundle, detached.
    LaunchBundle,
    /// Wait `SETTLE_MILLIS`.
    Settle,
    /// The installation is complete.
    Succeed,
    /// The installation failed with the step's error.
    Fail,
}

/// The part of a download that failed.
#[derive(Clone, Copy, Debug, PartialEq, Eq, Structural)]
pub enum DownloadFailure {
    /// The request got no answer.
    Request,
    /// The answer's body could not be read.
    Body,
    /// The temporary file could not be created.
    CreateFile,
    /// The temporary file could not be written.
    WriteFile,
}

/// The words that introduce the detail of a failed download.
pub open spec fn download_prefix(kind: DownloadFailure) -> Seq<char> {
    match kind {
        DownloadFailure::Request => "Download failed: "@,
        DownloadFailure::Body => "Failed to read download: "@,
        DownloadFailure::CreateFile => "Cannot create temp file: "@,
        DownloadFailure::WriteFile => "Cannot write file: "@,
    }
}

/// Describes a failed download.
pub fn download_error(kind: DownloadFailure, detail: &str) -> (r: String)
    ensures
        r@ == download_prefix(kind) + detail@,
{
    let prefix = match kind {
        DownloadFailure::Request => "Download failed: ",
        DownloadFailure::Body => "Failed to read download: ",
        DownloadFailure::CreateFile => "Cannot create temp file: ",
        DownloadFailure::WriteFile => "Cannot write file: ",
    };
    joined(prefix, detail)
}

/// What the caller reports.
#[derive(Clone, Debug)]
pub enum InstallEvent {
    Begin,
    Downloaded,
    DownloadFailed { kind: DownloadFailure, detail: String },
    Exited { success: bool },
    SpawnFailed { detail: String },
    Exists { present: bool },
    Spawned,
    Slept,
}

pub enum InstallEventView {
    Begin,
    Downloaded,
    DownloadFailed { kind: DownloadFailure, detail: Seq<char> },
    Exited { success: bool },
    SpawnFailed { detail: Seq<char> },
    Exists { present: bool },
    Spawned,
    Slept,
}

impl View for InstallEvent {
    type V = InstallEventView;

    open spec fn view(&self) -> InstallEventView {
        match *self {
            InstallEvent::Begin => InstallEventView::Begin,
            InstallEvent::Downloaded => InstallEventView::Downloaded,
            InstallEvent::DownloadFailed { kind, detail } => InstallEventView::DownloadFailed {
                kind,
                detail: detail@,
            },
            InstallEvent::Exited { success } => InstallEventView::Exited { success },
            InstallEvent::SpawnFailed { detail } => InstallEventView::SpawnFailed { detail: detail@ },
            InstallEvent::Exists { present } => InstallEventView::Exists { present },
            InstallEvent::Spawned => InstallEventView::Spawned,
            InstallEvent::Slept => InstallEventView::Slept,
        }
    }
}

/// One step of an installation: the new state, the progress event to emit,
/// the command to perform and, for `Fail`, the error.
#[derive(Clone, Debug)]
pub struct InstallStep {
    pub state: InstallState,
    pub progress: Option<ProgressEvent>,
    pub command: InstallCommand,
    pub error: Option<String>,
}

pub struct InstallStepView {
    pub state: InstallState,
    pub progress: Option<ProgressView>,
    pub command: InstallCommand,
    pub error: Option<Seq<char>>,
}

impl View for InstallStep {
    type V = InstallStepView;

    open spec fn view(&self) -> InstallStepView {
        InstallStepView {
            state: self.state,
            progress: opt_progress(self.progress),
            command: self.command,
            error: opt_text(self.error),
        }
    }
}

/// A progress event without an error detail.
pub open spec fn plain_progress(step: Stage, message: Seq<char>, percent: u8) -> ProgressView {
    ProgressView { step, message, percent, error: None }
}

/// The step that goes on: a new state, a command, and perhaps a progress
/// event.
pub open spec fn advanced(state: InstallState, progress: Option<ProgressView>, command: InstallCommand) -> InstallStepView {
    InstallStepView { state, progress, command, error: None }
}

/// The step that ends an installation with success, at 75 percent.
pub open spec fn succeeded() -> InstallStepView {
    InstallStepView {
        state: InstallState::Finished,
        progress: Some(plain_progress(Stage::Installing, "Ollama installed!"@, 75)),
        command: InstallCommand::Succeed,
        error: None,
    }
}

/// The step that ends an installation with an error, which the progress
/// event mirrors at 0 percent.
pub open spec fn failed(message: Seq<char>) -> InstallStepView {
    InstallStepView {
        state: InstallState::Finished,
        progress: Some(ProgressView { step: Stage::Error, message, percent: 0, error: Some(message) }),
        command: InstallCommand::Fail,
        error: Some(message),
    }
}

/// The error for an event that the state does not wait for.
pub open spec fn unexpected() -> InstallStepView {
    failed("Unexpected event for this install step"@)
}

/// The Windows procedure after the download began: run the installer
/// silently and require a successful exit.
pub open spec fn windows_step(state: InstallState, event: InstallEventView) -> InstallStepView {
    match (state, event) {
        (InstallState::Downloading, InstallEventView::Downloaded) => advanced(
            InstallState::Installing,
            Some(plain_progress(Stage::Installing, "Running Ollama installer…"@, 50)),
            InstallCommand::RunInstaller,
        ),
        (InstallState::Downloading, InstallEventView::DownloadFailed { kind, detail }) => failed(
            download_prefix(kind) + detail,
        ),
        (InstallState::Installing, InstallEventView::SpawnFailed { detail }) => failed(
            "Installer failed to start: "@ + detail,
        ),
        (InstallState::Installing, InstallEventView::Exited { success }) => if success {
            succeeded()
        } else {
            failed("Ollama installer exited with non-zero code"@)
        },
        _ => unexpected(),
    }
}

/// The macOS procedure after the download began: extract the archive,
/// require the application bundle, launch it once and wait.
pub open spec fn macos_step(state: InstallState, event: InstallEventView) -> InstallStepView {
    match (state, event) {
        (InstallState::Downloading, InstallEventView::Downloaded) => advanced(
            InstallState::Installing,
            Some(plain_progress(Stage::Installing, "Extracting Ollama.app…"@, 50)),
            InstallCommand::RunInstaller,
        ),
        (InstallState::Downloading, InstallEventView::DownloadFailed { kind, detail }) => failed(
            download_prefix(kind) + detail,
        ),
        (InstallState::Installing, InstallEventView::SpawnFailed { detail }) => failed(
            "unzip failed: "@ + detail,
        ),
        (InstallState::Installing, InstallEventView::Exited { success }) => if success {
            advanced(InstallState::Verifying, None, InstallCommand::CheckBundle)
        } else {
            failed("Failed to extract Ollama.app to /Applications"@)
        },
        (InstallState::Verifying, InstallEventView::Exists { present }) => if present {
            advanced(InstallState::Launching, None, InstallCommand::LaunchBundle)
        } else {
            failed("Failed to extract Ollama.app to /Applications"@)
        },
        (InstallState::Launching, InstallEventView::Spawned) => advanced(
            InstallState::Settling,
            None,
            InstallCommand::Settle,
        ),
        (InstallState::Launching, InstallEventView::SpawnFailed { detail }) => advanced(
            InstallState::Settling,
            None,
            InstallCommand::Settle,
        ),
        (InstallState::Settling, InstallEventView::Slept) => succeeded(),
        _ => unexpected(),
    }
}

/// The Linux procedure after the download began: mark the script
/// executable, whatever comes of that, run it with elevated privileges and
/// require a successful exit.
pub open spec fn linux_step(state: InstallState, event: InstallEventView) -> InstallStepView {
    match (state, event) {
        (InstallState::Downloading, InstallEventView::Downloaded) => advanced(
            InstallState::Preparing,
            Some(plain_progress(Stage::Installing, "Installing Ollama via shell script…"@, 50)),
            InstallCommand::MakeExecutable,
        ),
        (InstallState::Downloading, InstallEventView::DownloadFailed { kind, detail }) => failed(
            download_prefix(kind) + detail,
        ),
        (InstallState::Preparing, InstallEventView::Exited { success }) => advanced(
            InstallState::Installing,
            None,
            InstallCommand::RunInstaller,
        ),
        (InstallState::Preparing, InstallEventView::SpawnFailed { detail }) => advanced(
            InstallState::Installing,
            None,
            InstallCommand::RunInstaller,
        ),
        (InstallState::Installing, InstallEventView::SpawnFailed { detail }) => failed(
            "Install script failed: "@ + detail,
        ),
        (InstallState::Installing, InstallEventView::Exited { success }) => if success {
            succeeded()
        } else {
            failed(
                "Ollama install script failed. Try running manually: curl -fsSL https://ollama.com/install.sh | sh"@,
            )
        },
        _ => unexpected(),
    }
}

/// One step of the installation on a platform: `Begin` starts the download
/// at 5 percent; after that the platform's own procedure decides.
pub open spec fn install_step(platform: Platform, state: InstallState, event: InstallEventView) -> InstallStepView {
    if state == InstallState::Start {
        if event is Begin {
            advanced(
                InstallState::Downloading,
                Some(plain_progress(Stage::Downloading, "Downloading Ollama installer…"@, 5)),
                InstallCommand::Download,
            )
        } else {
            unexpected()
        }
    } else {
        match platform {
            Platform::Windows => windows_step(state, event),
            Platform::Macos => macos_step(state, event),
            Platform::Linux => linux_step(state, event),
        }
    }
}

/// Builds a progress event without an error detail.
pub fn emit_step(step: Stage, message: &str, percent: u8) -> (r: ProgressEvent)
    ensures
        r@ == plain_progress(step, message@, percent),
        r@.wf() <==> percent <= 100,
{
    ProgressEvent { step, message: String::from_str(message), percent, error: None }
}

fn advance(state: InstallState, progress: Option<ProgressEvent>, command: InstallCommand) -> (r: InstallStep)
    ensures
        r@ == advanced(state, opt_progress(progress), command),
{
    InstallStep { state, progress, command, error: None }
}

fn succeed() -> (r: InstallStep)
    ensures
        r@ == succeeded(),
{
    InstallStep {
        state: InstallState::Finished,
        progress: Some(emit_step(Stage::Installing, "Ollama installed!", 75)),
        command: InstallCommand::Succeed,
        error: None,
    }
}

fn fail(message: String) -> (r: InstallStep)
    ensures
        r@ == failed(message@),
{
    let event = emit_progress(Stage::Error, message.as_str(), 0, Some(message.clone()));
    InstallStep {
        state: InstallState::Finished,
        progress: Some(event),
        command: InstallCommand::Fail,
        error: Some(message),
    }
}

fn reject() -> (r: InstallStep)
    ensures
        r@ == unexpected(),
{
    fail(String::from_str("Unexpected event for this install step"))
}

/// One step of the Windows procedure.
pub fn install_windows(state: InstallState, event: InstallEvent) -> (r: InstallStep)
    ensures
        r@ == windows_step(state, event@),
{
    match state {
        InstallState::Downloading => match event {
            InstallEvent::Downloaded => advance(
                InstallState::Installing,
                Some(emit_step(Stage::Installing, "Running Ollama installer…", 50)),
                InstallCommand::RunInstaller,
            ),
            InstallEvent::DownloadFailed { kind, detail } => fail(download_error(kind, detail.as_str())),
            _ => reject(),
        },
        InstallState::Installing => match event {
            InstallEvent::SpawnFailed { detail } => fail(joined("Installer failed to start: ", detail.as_str())),
            InstallEvent::Exited { success } => {
                if success {
                    succeed()
                } else {
                    fail(String::from_str("Ollama installer exited with non-zero code"))
                }
            },
            _ => reject(),
        },
        _ => reject(),
    }
}

/// One step of the macOS procedure.
pub fn install_macos(state: InstallState, event: InstallEvent) -> (r: InstallStep)
    ensures
        r@ == macos_step(state, event@),
{
    match state {
        InstallState::Downloading => match event {
            InstallEvent::Downloaded => advance(
                InstallState::Installing,
                Some(emit_step(Stage::Installing, "Extracting Ollama.app…", 50)),
                InstallCommand::RunInstaller,
            ),
            InstallEvent::DownloadFailed { kind, detail } => fail(download_error(kind, detail.as_str())),
            _ => reject(),
        },
        InstallState::Installing => match event {
            InstallEvent::SpawnFailed { detail } => fail(joined("unzip failed: ", detail.as_str())),
            InstallEvent::Exited { success } => {
                if success {
                    advance(InstallState::Verifying, None, InstallCommand::CheckBundle)
                } else {
                    fail(String::from_str("Failed to extract Ollama.app to /Applications"))
                }
            },
            _ => reject(),
        },
        InstallState::Verifying => match event {
            InstallEvent::Exists { present } => {
                if present {
                    advance(InstallState::Launching, None, InstallCommand::LaunchBundle)
                } else {
                    fail(String::from_str("Failed to extract Ollama.app to /Applications"))
                }
            },
            _ => reject(),
        },
        InstallState::Launching => match event {
            InstallEvent::Spawned => advance(InstallState::Settling, None, InstallCommand::Settle),
            InstallEvent::SpawnFailed { detail } => advance(InstallState::Settling, None, InstallCommand::Settle),
            _ => reject(),
        },
        InstallState::Settling => match event {
            InstallEvent::Slept => succeed(),
            _ => reject(),
        },
        _ => reject(),
    }
}

/// One step of the Linux procedure.
pub fn install_linux(state: InstallState, event: InstallEvent) -> (r: InstallStep)
    ensures
        r@ == linux_step(state, event@),
{
    match state {
        InstallState::Downloading => match event {
            InstallEvent::Downloaded => advance(
                InstallState::Preparing,
                Some(emit_step(Stage::Installing, "Installing Ollama via shell script…", 50)),
                InstallCommand::MakeExecutable,
            ),
            InstallEvent::DownloadFailed { kind, detail } => fail(download_error(kind, detail.as_str())),
            _ => reject(),
        },
        InstallState::Preparing => match event {
            InstallEvent::Exited { success } => advance(InstallState::Installing, None, InstallCommand::RunInstaller),
            InstallEvent::SpawnFailed { detail } => advance(
                InstallState::Installing,
                None,
                InstallCommand::RunInstaller,
            ),
            _ => reject(),
        },
        InstallState::Installing => match event {
            InstallEvent::SpawnFailed { detail } => fail(joined("Install script failed: ", detail.as_str())),
            InstallEvent::Exited { success } => {
                if success {
                    succeed()
                } else {
                    fail(
                        String::from_str(
                            "Ollama install script failed. Try running manually: curl -fsSL https://ollama.com/install.sh | sh",
                        ),
                    )
                }
            },
            _ => reject(),
        },
        _ => reject(),
    }
}

/// One step of installing the engine. Call it first in the state `Start` with
/// `Begin`; emit the step's progress event, perform its command and call
/// again with the step's state and the event that reports the outcome, until
/// the command is `Succeed` or `Fail`.
pub fn install_ollama_with_progress(platform: Platform, state: InstallState, event: InstallEvent) -> (r: InstallStep)
    ensures
        r@ == install_step(platform, state, event@),
{
    match state {
        InstallState::Start => match event {
            InstallEvent::Begin => advance(
                InstallState::Downloading,
                Some(emit_step(Stage::Downloading, "Downloading Ollama installer…", 5)),
                InstallCommand::Download,
            ),
            _ => reject(),
        },
        _ => match platform {
            Platform::Windows => install_windows(state, event),
            Platform::Macos => install_macos(state, event),
            Platform::Linux => install_linux(state, event),
        },
    }
}

/// The program and the arguments of a command that runs a process, given
/// the path of the downloaded file; nothing for the other commands.
pub open spec fn command_line_of(platform: Platform, command: InstallCommand, download: Seq<char>) -> Option<
    (Seq<char>, Seq<Seq<char>>),
> {
    match (platform, command) {
        (Platform::Windows, InstallCommand::RunInstaller) => Some((download, seq!["/S"@])),
        (Platform::Macos, InstallCommand::RunInstaller) => Some(
            ("unzip"@, seq!["-o"@, download, "-d"@, "/Applications"@]),
        ),
        (Platform::Macos, InstallCommand::LaunchBundle) => Some(
            ("open"@, seq!["-a"@, "/Applications/Ollama.app"@]),
        ),
        (Platform::Linux, InstallCommand::MakeExecutable) => Some(("chmod"@, seq!["+x"@, download])),
        (Platform::Linux, InstallCommand::RunInstaller) => Some(("pkexec"@, seq!["sh"@, download])),
        _ => None,
    }
}

pub open spec fn line_view(line: Option<(String, Vec<String>)>) -> Option<(Seq<char>, Seq<Seq<char>>)> {
    match line {
        Some(l) => Some((l.0@, texts(l.1@))),
        None => None,
    }
}

/// The application bundle that the macOS procedure requires.
pub fn bundle_path() -> (r: &'static str)
    ensures
        r@ == "/Applications/Ollama.app"@,
{
    "/Applications/Ollama.app"
}

/// The program and the arguments for a command that runs a process.
pub fn command_line(platform: Platform, command: InstallCommand, download: &str) -> (r: Option<
    (String, Vec<String>),
>)
    ensures
        line_view(r) == command_line_of(platform, command, download@),
{
    let mut args: Vec<String> = Vec::new();
    match (platform, command) {
        (Platform::Windows, InstallCommand::RunInstaller) => {
            args.push(String::from_str("/S"));
            assert(texts(args@) =~= seq!["/S"@]);
            Some((String::from_str(download), args))
        },
        (Platform::Macos, InstallCommand::RunInstaller) => {
            args.push(String::from_str("-o"));
            args.push(String::from_str(download));
            args.push(String::from_str("-d"));
            args.push(String::from_str("/Applications"));
            assert(texts(args@) =~= seq!["-o"@, download@, "-d"@, "/Applications"@]);
            Some((String::from_str("unzip"), args))
        },
        (Platform::Macos, InstallCommand::LaunchBundle) => {
            args.push(String::from_str("-a"));
            args.push(String::from_str(bundle_path()));
            assert(texts(args@) =~= seq!["-a"@, "/Applications/Ollama.app"@]);
            Some((String::from_str("open"), args))
        },
        (Platform::Linux, InstallCommand::MakeExecutable) => {
            args.push(String::from_str("+x"));
            args.push(String::from_str(download));
            assert(texts(args@) =~= seq!["+x"@, download@]);
            Some((String::from_str("chmod"), args))
        },
        (Platform::Linux, InstallCommand::RunInstaller) => {
            args.push(String::from_str("sh"));
            args.push(String::from_str(download));
            assert(texts(args@) =~= seq!["sh"@, download@]);
            Some((String::from_str("pkexec"), args))
        },
        _ => None,
    }
}

/// The percentage that was last reported when an installation that has not
/// failed stands in a state.
pub open spec fn checkpoint(state: InstallState) -> u8 {
    match state {
        InstallState::Start => 0,
        InstallState::Downloading => 5,
        InstallState::Finished => 75,
        _ => 50,
    }
}

/// The steps of an installation that is fed the events in turn, from a
/// state.
pub open spec fn steps_from(platform: Platform, state: InstallState, events: Seq<InstallEventView>) -> Seq<
    InstallStepView,
>
    decreases events.len(),
{
    if events.len() == 0 {
        Seq::<InstallStepView>::empty()
    } else {
        let first = install_step(platform, state, events.first());
        seq![first] + steps_from(platform, first.state, events.drop_first())
    }
}

/// Whether no step of a run failed.
pub open spec fn all_went_well(steps: Seq<InstallStepView>) -> bool {
    forall|k: int| 0 <= k < steps.len() ==> (#[trigger] steps[k]).command != InstallCommand::Fail
}

/// A step that does not fail never lowers the checkpoint; the progress event
/// it emits is well formed and reports the checkpoint of the new state; and
/// the step that completes the installation reports 75 percent.
pub proof fn lemma_step_progress(platform: Platform, state: InstallState, event: InstallEventView)
    requires
        install_step(platform, state, event).command != InstallCommand::Fail,
    ensures
        checkpoint(state) <= checkpoint(install_step(platform, state, event).state),
        install_step(platform, state, event).progress matches Some(p) ==> p.wf() && p.percent
            == checkpoint(install_step(platform, state, event).state),
        install_step(platform, state, event).command == InstallCommand::Succeed ==> (install_step(
            platform,
            state,
            event,
        ).progress matches Some(p) && p.percent >= 75),
{
}

proof fn lemma_steps_shape(platform: Platform, state: InstallState, events: Seq<InstallEventView>)
    requires
        events.len() > 0,
    ensures
        steps_from(platform, state, events).len() == events.len(),
        steps_from(platform, state, events)[0] == install_step(platform, state, events.first()),
        forall|k: int|
            1 <= k < events.len() ==> steps_from(platform, state, events)[k] == steps_from(
                platform,
                install_step(platform, state, events.first()).state,
                events.drop_first(),
            )[k - 1],
    decreases events.len(),
{
    let first = install_step(platform, state, events.first());
    let rest = events.drop_first();
    if rest.len() > 0 {
        lemma_steps_shape(platform, first.state, rest);
    }
    assert(steps_from(platform, first.state, rest).len() == rest.len());
}

proof fn lemma_checkpoint_floor(platform: Platform, state: InstallState, events: Seq<InstallEventView>, k: int)
    requires
        0 <= k < events.len(),
        all_went_well(steps_from(platform, state, events)),
    ensures
        checkpoint(state) <= checkpoint(steps_from(platform, state, events)[k].state),
        steps_from(platform, state, events)[k].progress matches Some(p) ==> p.percent == checkpoint(
            steps_from(platform, state, events)[k].state,
        ),
        steps_from(platform, state, events)[k].command == InstallCommand::Succeed ==> (steps_from(
            platform,
            state,
            events,
        )[k].progress matches Some(p) && p.percent >= 75),
    decreases k,
{
    lemma_steps_shape(platform, state, events);
    let steps = steps_from(platform, state, events);
    let first = install_step(platform, state, events.first());
    assert(steps[0].command != InstallCommand::Fail);
    lemma_step_progress(platform, state, events.first());
    if k > 0 {
        let rest = events.drop_first();
        lemma_steps_shape(platform, first.state, rest);
        let tail = steps_from(platform, first.state, rest);
        assert forall|i: int| 0 <= i < tail.len() implies (#[trigger] tail[i]).command
            != InstallCommand::Fail by {
            assert(steps[i + 1] == tail[i]);
        }
        lemma_checkpoint_floor(platform, first.state, rest, k - 1);
    }
}

proof fn lemma_checkpoints_rise(
    platform: Platform,
    state: InstallState,
    events: Seq<InstallEventView>,
    i: int,
    j: int,
)
    requires
        0 <= i <= j < events.len(),
        all_went_well(steps_from(platform, state, events)),
    ensures
        checkpoint(steps_from(platform, state, events)[i].state) <= checkpoint(
            steps_from(platform, state, events)[j].state,
        ),
    decreases i,
{
    lemma_steps_shape(platform, state, events);
    let steps = steps_from(platform, state, events);
    let first = install_step(platform, state, events.first());
    let rest = events.drop_first();
    if j > 0 {
        lemma_steps_shape(platform, first.state, rest);
        let tail = steps_from(platform, first.state, rest);
        assert forall|k: int| 0 <= k < tail.len() implies (#[trigger] tail[k]).command
            != InstallCommand::Fail by {
            assert(steps[k + 1] == tail[k]);
        }
        if i == 0 {
            lemma_checkpoint_floor(platform, first.state, rest, j - 1);
        } else {
            lemma_checkpoints_rise(platform, first.state, rest, i - 1, j - 1);
        }
    }
}

/// In an installation of which no step fails, the percentages of the
/// progress events never decrease, and the event of the completing step
/// reports at least 75.
pub proof fn lemma_progress_never_decreases(
    platform: Platform,
    events: Seq<InstallEventView>,
    i: int,
    j: int,
)
    requires
        0 <= i <= j < events.len(),
        all_went_well(steps_from(platform, InstallState::Start, events)),
    ensures
        steps_from(platform, InstallState::Start, events)[i].progress matches Some(p) ==> (steps_from(
            platform,
            InstallState::Start,
            events,
        )[j].progress matches Some(q) ==> p.percent <= q.percent),
        steps_from(platform, InstallState::Start, events)[j].command == InstallCommand::Succeed ==> (
        steps_from(platform, InstallState::Start, events)[j].progress matches Some(q) && q.percent
            >= 75),
{
    lemma_checkpoint_floor(platform, InstallState::Start, events, i);
    lemma_checkpoint_floor(platform, InstallState::Start, events, j);
    lemma_checkpoints_rise(platform, InstallState::Start, events, i, j);
}

/// On every platform an installation process that cannot be started, or
/// that exits with failure, ends the installation with an error, mirrored by
/// an error event at 0 percent.
pub proof fn lemma_failed_install_is_fatal(platform: Platform, event: InstallEventView)
    requires
        event is SpawnFailed || event == (InstallEventView::Exited { success: false }),
    ensures
        install_step(platform, InstallState::Installing, event).command == InstallCommand::Fail,
        install_step(platform, InstallState::Installing, event).state == InstallState::Finished,
        install_step(platform, InstallState::Installing, event).error is Some,
        install_step(platform, InstallState::Installing, event).progress matches Some(p) && p.step
            == Stage::Error && p.percent == 0 && p.error == install_step(
            platform,
            InstallState::Installing,
            event,
        ).error,
{
}

/// A step commands `Fail` or `Succeed` exactly when it ends the
/// installation, and `Fail` exactly when it carries an error; nothing but
/// failure comes after the end; and every progress event is well formed.
pub proof fn lemma_end_of_installation(platform: Platform, state: InstallState, event: InstallEventView)
    ensures
        install_step(platform, state, event).state == InstallState::Finished <==> (install_step(
            platform,
            state,
            event,
        ).command == InstallCommand::Fail || install_step(platform, state, event).command
            == InstallCommand::Succeed),
        install_step(platform, state, event).command == InstallCommand::Fail <==> install_step(
            platform,
            state,
            event,
        ).error is Some,
        state == InstallState::Finished ==> install_step(platform, state, event).command
            == InstallCommand::Fail,
        install_step(platform, state, event).progress matches Some(p) ==> p.wf(),
{
}

/// Once a step has failed, whatever is reported afterwards only fails
/// again: no later step commands any work.
pub proof fn lemma_nothing_follows_failure(
    platform: Platform,
    state: InstallState,
    events: Seq<InstallEventView>,
    i: int,
    j: int,
)
    requires
        0 <= i <= j < events.len(),
        steps_from(platform, state, events)[i].command == InstallCommand::Fail,
    ensures
        steps_from(platform, state, events)[j].command == InstallCommand::Fail,
        steps_from(platform, state, events)[j].state == InstallState::Finished,
    decreases j,
{
    lemma_steps_shape(platform, state, events);
    let first = install_step(platform, state, events.first());
    let rest = events.drop_first();
    lemma_end_of_installation(platform, state, events.first());
    if j > 0 {
        lemma_steps_shape(platform, first.state, rest);
        if i == 0 {
            lemma_end_of_installation(platform, first.state, rest.first());
            lemma_nothing_follows_failure(platform, first.state, rest, 0, j - 1);
        } else {
            lemma_nothing_follows_failure(platform, first.state, rest, i - 1, j - 1);
        }
    }
}

} // verus!
