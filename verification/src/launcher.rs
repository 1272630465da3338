//! Pulling and starting the agent workload.
//!
//! A state machine like the installer's: the caller starts with `Begin`,
//! emits each step's progress event, performs its command and reports the
//! outcome, until the command is `Succeed` or `Fail`.

use vstd::prelude::*;
use crate::codec::{from_utf8_lossy, utf8_lossy};
use crate::commands::{emit_progress, opt_progress, OpenClawStatus, ProgressEvent, ProgressView, Stage, StatusView};
use crate::installer::{emit_step, plain_progress, ProcessOutput, SETTLE_MILLIS};
use crate::qr_bridge::{base_url, local_url};
use crate::text::{decimal, decimal_text, joined, opt_text, texts};

verus! {

/// The port that the workload gets where no free one could be found.
pub const DEFAULT_PORT: u16 = 11434;

/// Where a launch stands.
#[derive(Clone, Copy, Debug, PartialEq, Eq, Structural)]
pub enum LaunchState {
    Start,
    Pulling,
    Choosing,
    Spawning { port: u16 },
    Settling { port: u16 },
    Finished,
}

/// What the caller is to do after a step.
#[derive(Clone, Copy, Debug, PartialEq, Eq, Structural)]
pub enum LaunchCommand {
    /// Run the engine with `pull_arguments` and report its output.
    Pull,
    /// Find a free local port and report it, or that none was found.
    ChoosePort,
    /// Start the engine, detached, with `launch_arguments` for the port.
    Launch { port: u16 },
    /// Wait the settle interval.
    Settle,
    /// The workload runs; the step carries its status.
    Succeed,
    /// The launch failed with the step's error.
    Fail,
}

/// What the caller reports.
#[derive(Clone, Debug)]
pub enum LaunchEvent {
    Begin,
    Pulled { output: ProcessOutput },
    SpawnFailed { detail: String },
    PortChosen { port: Option<u16> },
    Spawned,
    Slept,
}

pub enum LaunchEventView {
    Begin,
    Pulled { success: bool, stderr: Seq<u8> },
    SpawnFailed { detail: Seq<char> },
    PortChosen { port: Option<u16> },
    Spawned,
    Slept,
}

impl View for LaunchEvent {
    type V = LaunchEventView;

    open spec fn view(&self) -> LaunchEventView {
        match *self {
            LaunchEvent::Begin => LaunchEventView::Begin,
            LaunchEvent::Pulled { output } => LaunchEventView::Pulled {
                success: output.success,
                stderr: output.stderr@,
            },
            LaunchEvent::SpawnFailed { detail } => LaunchEventView::SpawnFailed { detail: detail@ },
            LaunchEvent::PortChosen { port } => LaunchEventView::PortChosen { port },
            LaunchEvent::Spawned => LaunchEventView::Spawned,
            LaunchEvent::Slept => LaunchEventView::Slept,
        }
    }
}

/// One step of a launch: the new state, the progress event to emit, the
/// command to perform, the status for `Succeed` and the error for `Fail`.
#[derive(Clone, Debug)]
pub struct LaunchStep {
    pub state: LaunchState,
    pub progress: Option<ProgressEvent>,
    pub command: LaunchCommand,
    pub status: Option<OpenClawStatus>,
    pub error: Option<String>,
}

pub struct LaunchStepView {
    pub state: LaunchState,
    pub progress: Option<ProgressView>,
    pub command: LaunchCommand,
    pub status: Option<StatusView>,
    pub error: Option<Seq<char>>,
}

impl View for LaunchStep {
    type V = LaunchStepView;

    open spec fn view(&self) -> LaunchStepView {
        LaunchStepView {
            state: self.state,
            progress: opt_progress(self.progress),
            command: self.command,
            status: match self.status {
                Some(s) => Some(s@),
                None => None,
            },
            error: opt_text(self.error),
        }
    }
}

/// The step that goes on.
pub open spec fn proceeding(state: LaunchState, progress: Option<ProgressView>, command: LaunchCommand) -> LaunchStepView {
    LaunchStepView { state, progress, command, status: None, error: None }
}

/// The step that ends a launch with an error: the progress event carries
/// the message for the user and the detail, at 0 percent.
pub open spec fn aborted(message: Seq<char>, detail: Seq<char>) -> LaunchStepView {
    LaunchStepView {
        state: LaunchState::Finished,
        progress: Some(ProgressView { step: Stage::Error, message, percent: 0, error: Some(detail) }),
        command: LaunchCommand::Fail,
        status: None,
        error: Some(detail),
    }
}

/// The status of a workload that was just started on a port.
pub open spec fn started_status(port: u16) -> StatusView {
    StatusView { running: true, port: Some(port), url: Some(base_url(port)), uptime_secs: Some(0) }
}

/// The step that ends a launch with success, at 100 percent.
pub open spec fn running(port: u16) -> LaunchStepView {
    LaunchStepView {
        state: LaunchState::Finished,
        progress: Some(plain_progress(Stage::Ready, "Agent is running!"@, 100)),
        command: LaunchCommand::Succeed,
        status: Some(started_status(port)),
        error: None,
    }
}

/// The port to use for what the search for a free one brought.
pub open spec fn chosen_port(found: Option<u16>) -> u16 {
    match found {
        Some(p) => p,
        None => DEFAULT_PORT,
    }
}

/// One step of a launch: pull at 10 percent; a pull that cannot be started
/// or exits with failure ends the launch; then choose a port at 80 percent,
/// start the workload on it, wait, and report it running at 100 percent.
pub open spec fn launch_step(state: LaunchState, event: LaunchEventView) -> LaunchStepView {
    match (state, event) {
        (LaunchState::Start, LaunchEventView::Begin) => proceeding(
            LaunchState::Pulling,
            Some(plain_progress(Stage::Pulling, "Pulling OpenClaw model (first run: ~2 GB)…"@, 10)),
            LaunchCommand::Pull,
        ),
        (LaunchState::Pulling, LaunchEventView::SpawnFailed { detail }) => aborted(
            "Failed to run ollama pull: "@ + detail,
            "Failed to run ollama pull: "@ + detail,
        ),
        (LaunchState::Pulling, LaunchEventView::Pulled { success, stderr }) => if success {
            proceeding(
                LaunchState::Choosing,
                Some(plain_progress(Stage::Starting, "Starting local agent…"@, 80)),
                LaunchCommand::ChoosePort,
            )
        } else {
            aborted("Pull failed: "@ + utf8_lossy(stderr), utf8_lossy(stderr))
        },
        (LaunchState::Choosing, LaunchEventView::PortChosen { port }) => proceeding(
            LaunchState::Spawning { port: chosen_port(port) },
            None,
            LaunchCommand::Launch { port: chosen_port(port) },
        ),
        (LaunchState::Spawning { port }, LaunchEventView::SpawnFailed { detail }) => aborted(
            "Failed to start OpenClaw: "@ + detail,
            "Failed to start OpenClaw: "@ + detail,
        ),
        (LaunchState::Spawning { port }, LaunchEventView::Spawned) => proceeding(
            LaunchState::Settling { port },
            None,
            LaunchCommand::Settle,
        ),
        (LaunchState::Settling { port }, LaunchEventView::Slept) => running(port),
        _ => aborted("Unexpected event for this launch step"@, "Unexpected event for this launch step"@),
    }
}

/// The arguments of the pull.
pub fn pull_arguments() -> (r: Vec<String>)
    ensures
        texts(r@) == seq!["pull"@, "openclaw"@],
{
    let mut args: Vec<String> = Vec::new();
    args.push(String::from_str("pull"));
    args.push(String::from_str("openclaw"));
    assert(texts(args@) =~= seq!["pull"@, "openclaw"@]);
    args
}

/// The arguments that start the workload on a port.
pub fn launch_arguments(port: u16) -> (r: Vec<String>)
    ensures
        texts(r@) == seq!["launch"@, "openclaw"@, "--port"@, decimal(port as nat)],
{
    let mut args: Vec<String> = Vec::new();
    args.push(String::from_str("launch"));
    args.push(String::from_str("openclaw"));
    args.push(String::from_str("--port"));
    args.push(decimal_text(port as u64));
    assert(texts(args@) =~= seq!["launch"@, "openclaw"@, "--port"@, decimal(port as nat)]);
    args
}

/// How long the caller waits after starting the workload, in milliseconds.
pub fn settle_millis() -> (r: u64)
    ensures
        r == 3000,
{
    SETTLE_MILLIS
}

fn proceed(state: LaunchState, progress: Option<ProgressEvent>, command: LaunchCommand) -> (r: LaunchStep)
    ensures
        r@ == proceeding(state, opt_progress(progress), command),
{
    LaunchStep { state, progress, command, status: None, error: None }
}

fn abort(message: String, detail: String) -> (r: LaunchStep)
    ensures
        r@ == aborted(message@, detail@),
{
    let event = emit_progress(Stage::Error, message.as_str(), 0, Some(detail.clone()));
    LaunchStep {
        state: LaunchState::Finished,
        progress: Some(event),
        command: LaunchCommand::Fail,
        status: None,
        error: Some(detail),
    }
}

fn refuse() -> (r: LaunchStep)
    ensures
        r@ == aborted("Unexpected event for this launch step"@, "Unexpected event for this launch step"@),
{
    abort(
        String::from_str("Unexpected event for this launch step"),
        String::from_str("Unexpected event for this launch step"),
    )
}

fn abort_with(prefix: &str, detail: &str) -> (r: LaunchStep)
    ensures
        r@ == aborted(prefix@ + detail@, prefix@ + detail@),
{
    let message = joined(prefix, detail);
    abort(message.clone(), message)
}

/// One step of pulling and starting the workload. Call it first in the state
/// `Start` with `Begin`, then with each step's state and the event that
/// reports the outcome of its command.
pub fn start_openclaw(state: LaunchState, event: LaunchEvent) -> (r: LaunchStep)
    ensures
        r@ == launch_step(state, event@),
        r@.status matches Some(s) ==> s.wf(),
{
    match state {
        LaunchState::Start => match event {
            LaunchEvent::Begin => proceed(
                LaunchState::Pulling,
                Some(emit_step(Stage::Pulling, "Pulling OpenClaw model (first run: ~2 GB)…", 10)),
                LaunchCommand::Pull,
            ),
            _ => refuse(),
        },
        LaunchState::Pulling => match event {
            LaunchEvent::SpawnFailed { detail } => abort_with("Failed to run ollama pull: ", detail.as_str()),
            LaunchEvent::Pulled { output } => {
                if output.success {
                    proceed(
                        LaunchState::Choosing,
                        Some(emit_step(Stage::Starting, "Starting local agent…", 80)),
                        LaunchCommand::ChoosePort,
                    )
                } else {
                    let err = from_utf8_lossy(output.stderr.as_slice());
                    abort(joined("Pull failed: ", err.as_str()), err)
                }
            },
            _ => refuse(),
        },
        LaunchState::Choosing => match event {
            LaunchEvent::PortChosen { port } => {
                let port: u16 = match port {
                    Some(p) => p,
                    None => DEFAULT_PORT,
                };
                proceed(LaunchState::Spawning { port }, None, LaunchCommand::Launch { port })
            },
            _ => refuse(),
        },
        LaunchState::Spawning { port } => match event {
            LaunchEvent::SpawnFailed { detail } => abort_with("Failed to start OpenClaw: ", detail.as_str()),
            LaunchEvent::Spawned => proceed(LaunchState::Settling { port }, None, LaunchCommand::Settle),
            _ => refuse(),
        },
        LaunchState::Settling { port } => match event {
            LaunchEvent::Slept => {
                let status = OpenClawStatus {
                    running: true,
                    port: Some(port),
                    url: Some(local_url(port)),
                    uptime_secs: Some(0),
                };
                LaunchStep {
                    state: LaunchState::Finished,
                    progress: Some(emit_step(Stage::Ready, "Agent is running!", 100)),
                    command: LaunchCommand::Succeed,
                    status: Some(status),
                    error: None,
                }
            },
            _ => refuse(),
        },
        LaunchState::Finished => refuse(),
    }
}

/// The percentage that was last reported when a launch that has not failed
/// stands in a state.
pub open spec fn launch_checkpoint(state: LaunchState) -> u8 {
    match state {
        LaunchState::Start => 0,
        LaunchState::Pulling => 10,
        LaunchState::Finished => 100,
        _ => 80,
    }
}

/// A step of a launch that does not fail never lowers the checkpoint, and
/// the progress event it emits reports the checkpoint of the new state: the
/// percentages of a launch that succeeds never decrease, and end at 100.
pub proof fn lemma_launch_progress(state: LaunchState, event: LaunchEventView)
    requires
        launch_step(state, event).command != LaunchCommand::Fail,
    ensures
        launch_checkpoint(state) <= launch_checkpoint(launch_step(state, event).state),
        launch_step(state, event).progress matches Some(p) ==> p.percent == launch_checkpoint(
            launch_step(state, event).state,
        ),
{
}

/// A pull that exits with failure, or that cannot be started, ends the
/// launch: the step fails with an error, mirrored by an error event at 0
/// percent, and carries no status.
pub proof fn lemma_failed_pull_is_fatal(event: LaunchEventView)
    requires
        event is SpawnFailed || (event matches LaunchEventView::Pulled { success, .. } && !success),
    ensures
        launch_step(LaunchState::Pulling, event).command == LaunchCommand::Fail,
        launch_step(LaunchState::Pulling, event).state == LaunchState::Finished,
        launch_step(LaunchState::Pulling, event).status is None,
        launch_step(LaunchState::Pulling, event).error is Some,
        launch_step(LaunchState::Pulling, event).progress matches Some(p) && p.step == Stage::Error
            && p.percent == 0 && p.error == launch_step(LaunchState::Pulling, event).error,
{
}

/// Every progress event of a launch is well formed, a step carries a status
/// exactly when it commands `Succeed`, and an error exactly when it commands
/// `Fail`.
pub proof fn lemma_launch_steps_are_well_formed(state: LaunchState, event: LaunchEventView)
    ensures
        launch_step(state, event).progress matches Some(p) ==> p.wf(),
        launch_step(state, event).status is Some <==> launch_step(state, event).command
            == LaunchCommand::Succeed,
        launch_step(state, event).error is Some <==> launch_step(state, event).command
            == LaunchCommand::Fail,
        launch_step(state, event).command == LaunchCommand::Succeed ==> (launch_step(
            state,
            event,
        ).progress matches Some(p) && p.percent == 100),
{
}

} // verus!
