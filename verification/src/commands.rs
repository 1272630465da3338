//! The values that the provisioning steps exchange with their caller.

use vstd::prelude::*;
use crate::text::opt_text;

verus! {

/// The operating system family that the build targets.
#[derive(Clone, Copy, Debug, PartialEq, Eq, Structural)]
pub enum Platform {
    Windows,
    Macos,
    Linux,
}

/// The processor architecture that the build targets.
#[derive(Clone, Copy, Debug, PartialEq, Eq, Structural)]
pub enum Arch {
    X86_64,
    Aarch64,
}

/// The stage that a progress event reports.
#[derive(Clone, Copy, Debug, PartialEq, Eq, Structural)]
pub enum Stage {
    Checking,
    Downloading,
    Installing,
    Pulling,
    Starting,
    Ready,
    Error,
}

impl Platform {
    /// The lower-case name under which the platform is reported.
    pub fn name(&self) -> (r: &'static str)
        ensures
            r@ == (match *self {
                Platform::Windows => "windows"@,
                Platform::Macos => "macos"@,
                Platform::Linux => "linux"@,
            }),
    {
        match self {
            Platform::Windows => "windows",
            Platform::Macos => "macos",
            Platform::Linux => "linux",
        }
    }
}

impl Arch {
    /// The name under which the architecture is reported.
    pub fn name(&self) -> (r: &'static str)
        ensures
            r@ == (match *self {
                Arch::X86_64 => "x86_64"@,
                Arch::Aarch64 => "aarch64"@,
            }),
    {
        match self {
            Arch::X86_64 => "x86_64",
            Arch::Aarch64 => "aarch64",
        }
    }
}

impl Stage {
    /// The lower-case name under which the stage is reported.
    pub fn name(&self) -> (r: &'static str)
        ensures
            r@ == (match *self {
                Stage::Checking => "checking"@,
                Stage::Downloading => "downloading"@,
                Stage::Installing => "installing"@,
                Stage::Pulling => "pulling"@,
                Stage::Starting => "starting"@,
                Stage::Ready => "ready"@,
                Stage::Error => "error"@,
            }),
    {
        match self {
            Stage::Checking => "checking",
            Stage::Downloading => "downloading",
            Stage::Installing => "installing",
            Stage::Pulling => "pulling",
            Stage::Starting => "starting",
            Stage::Ready => "ready",
            Stage::Error => "error",
        }
    }
}

/// A snapshot of the machine: its platform and whether the runtime engine is
/// present.
#[derive(Clone, Debug)]
pub struct OsInfo {
    pub platform: Platform,
    pub arch: Arch,
    pub ollama_installed: bool,
    pub ollama_version: Option<String>,
}

pub struct OsInfoView {
    pub platform: Platform,
    pub arch: Arch,
    pub ollama_installed: bool,
    pub ollama_version: Option<Seq<char>>,
}

impl View for OsInfo {
    type V = OsInfoView;

    open spec fn view(&self) -> OsInfoView {
        OsInfoView {
            platform: self.platform,
            arch: self.arch,
            ollama_installed: self.ollama_installed,
            ollama_version: opt_text(self.ollama_version),
        }
    }
}

/// One progress update: a stage, a text for the user, a percentage and, for
/// the error stage, the detail of the failure.
#[derive(Clone, Debug)]
pub struct ProgressEvent {
    pub step: Stage,
    pub message: String,
    pub percent: u8,
    pub error: Option<String>,
}

pub struct ProgressView {
    pub step: Stage,
    pub message: Seq<char>,
    pub percent: u8,
    pub error: Option<Seq<char>>,
}

impl View for ProgressEvent {
    type V = ProgressView;

    open spec fn view(&self) -> ProgressView {
        ProgressView {
            step: self.step,
            message: self.message@,
            percent: self.percent,
            error: opt_text(self.error),
        }
    }
}

impl ProgressView {
    /// A percentage is at most 100, and only the error stage carries a detail.
    pub open spec fn wf(self) -> bool {
        &&& self.percent <= 100
        &&& self.error.is_some() ==> self.step == Stage::Error
    }
}

/// What an optional progress event holds.
pub open spec fn opt_progress(o: Option<ProgressEvent>) -> Option<ProgressView> {
    match o {
        Some(e) => Some(e@),
        None => None,
    }
}

/// What a companion device needs to connect: the address, the token and the
/// scannable image as a data URI (empty where the image could not be made).
#[derive(Clone, Debug)]
pub struct QrData {
    pub url: String,
    pub token: String,
    pub qr_base64: String,
}

pub struct QrDataView {
    pub url: Seq<char>,
    pub token: Seq<char>,
    pub qr_base64: Seq<char>,
}

impl View for QrData {
    type V = QrDataView;

    open spec fn view(&self) -> QrDataView {
        QrDataView { url: self.url@, token: self.token@, qr_base64: self.qr_base64@ }
    }
}

/// Whether the workload answers, and where.
#[derive(Clone, Debug)]
pub struct OpenClawStatus {
    pub running: bool,
    pub port: Option<u16>,
    pub url: Option<String>,
    pub uptime_secs: Option<u64>,
}

pub struct StatusView {
    pub running: bool,
    pub port: Option<u16>,
    pub url: Option<Seq<char>>,
    pub uptime_secs: Option<u64>,
}

impl View for OpenClawStatus {
    type V = StatusView;

    open spec fn view(&self) -> StatusView {
        StatusView {
            running: self.running,
            port: self.port,
            url: opt_text(self.url),
            uptime_secs: self.uptime_secs,
        }
    }
}

impl StatusView {
    /// A running service has a port and a non-empty address; one that is not
    /// running has no address.
    pub open spec fn wf(self) -> bool {
        &&& self.running ==> self.port.is_some() && self.url.is_some() && self.url.unwrap().len() > 0
        &&& !self.running ==> self.url.is_none()
    }
}

/// Builds a progress event from its four parts.
pub fn emit_progress(step: Stage, message: &str, percent: u8, error: Option<String>) -> (r:
    ProgressEvent)
    ensures
        r@ == (ProgressView { step, message: message@, percent, error: opt_text(error) }),
        r@.wf() <==> percent <= 100 && (error is Some ==> step == Stage::Error),
{
    ProgressEvent { step, message: String::from_str(message), percent, error }
}

/// Assembles the machine snapshot from the build target and the outcome of a
/// detection.
pub fn get_os_info(platform: Platform, arch: Arch, detected: (bool, Option<String>)) -> (r: OsInfo)
    ensures
        r@ == (OsInfoView {
            platform,
            arch,
            ollama_installed: detected.0,
            ollama_version: opt_text(detected.1),
        }),
{
    OsInfo { platform, arch, ollama_installed: detected.0, ollama_version: detected.1 }
}

} // verus!
