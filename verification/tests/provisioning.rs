use desktop_installer::commands::{emit_progress, get_os_info, Arch, Platform, Stage};
use desktop_installer::installer::{
    bundle_path, command_line, detect_ollama, detection_binary, emit_step, install_linux,
    install_macos, install_ollama_with_progress, install_windows, installer_file_name,
    installer_url, ollama_binary_path, download_error, DownloadFailure, InstallCommand, InstallEvent, InstallState, InstallStep,
    ProcessOutput, SETTLE_MILLIS,
};
use desktop_installer::launcher::{
    launch_arguments, pull_arguments, settle_millis, start_openclaw, LaunchCommand, LaunchEvent,
    LaunchState, DEFAULT_PORT,
};
use desktop_installer::text::{decimal_text, joined};

fn output(success: bool, stdout: &[u8], stderr: &[u8]) -> ProcessOutput {
    ProcessOutput { success, stdout: stdout.to_vec(), stderr: stderr.to_vec() }
}

fn run_install(platform: Platform, events: Vec<InstallEvent>) -> Vec<InstallStep> {
    let mut state = InstallState::Start;
    let mut steps = Vec::new();
    for event in events {
        let step = install_ollama_with_progress(platform, state, event);
        state = step.state;
        steps.push(step);
    }
    steps
}

fn percents(steps: &[InstallStep]) -> Vec<u8> {
    steps.iter().filter_map(|s| s.progress.as_ref().map(|p| p.percent)).collect()
}

fn commands(steps: &[InstallStep]) -> Vec<InstallCommand> {
    steps.iter().map(|s| s.command).collect()
}

#[test]
fn decimal_text_writes_numbers() {
    assert_eq!(decimal_text(0), "0");
    assert_eq!(decimal_text(7), "7");
    assert_eq!(decimal_text(10), "10");
    assert_eq!(decimal_text(11434), "11434");
    assert_eq!(decimal_text(65535), "65535");
    assert_eq!(decimal_text(u64::MAX), "18446744073709551615");
    assert_eq!(decimal_text(9), "9");
    assert_eq!(joined("ab", "cd"), "abcd");
}

#[test]
fn names_are_lower_case() {
    assert_eq!(Platform::Windows.name(), "windows");
    assert_eq!(Platform::Macos.name(), "macos");
    assert_eq!(Platform::Linux.name(), "linux");
    assert_eq!(Arch::X86_64.name(), "x86_64");
    assert_eq!(Arch::Aarch64.name(), "aarch64");
    let stages = [
        (Stage::Checking, "checking"),
        (Stage::Downloading, "downloading"),
        (Stage::Installing, "installing"),
        (Stage::Pulling, "pulling"),
        (Stage::Starting, "starting"),
        (Stage::Ready, "ready"),
        (Stage::Error, "error"),
    ];
    for (stage, name) in stages {
        assert_eq!(stage.name(), name);
    }
}

#[test]
fn binary_path_is_fixed_per_platform() {
    assert_eq!(
        ollama_binary_path(Platform::Windows),
        "C:\\Users\\Public\\AppData\\Local\\Programs\\Ollama\\ollama.exe"
    );
    assert_eq!(ollama_binary_path(Platform::Macos), "/usr/local/bin/ollama");
    assert_eq!(ollama_binary_path(Platform::Linux), "/usr/local/bin/ollama");
    assert_eq!(detection_binary(true, Platform::Windows), "ollama");
    assert_eq!(detection_binary(false, Platform::Linux), "/usr/local/bin/ollama");
}

#[test]
fn installer_sources_are_fixed_per_platform() {
    assert_eq!(installer_url(Platform::Windows), "https://ollama.com/download/OllamaSetup.exe");
    assert_eq!(installer_url(Platform::Macos), "https://ollama.com/download/Ollama-darwin.zip");
    assert_eq!(installer_url(Platform::Linux), "https://ollama.com/install.sh");
    assert_eq!(installer_file_name(Platform::Windows), "OllamaSetup.exe");
    assert_eq!(installer_file_name(Platform::Macos), "Ollama-darwin.zip");
    assert_eq!(installer_file_name(Platform::Linux), "ollama_install.sh");
    assert_eq!(bundle_path(), "/Applications/Ollama.app");
    assert_eq!(SETTLE_MILLIS, 3000);
}

#[test]
fn detection_takes_the_trimmed_version() {
    let found = detect_ollama(Some(output(true, b"  ollama version is 0.1.32\n", b"")));
    assert_eq!(found, (true, Some("ollama version is 0.1.32".to_string())));
}

#[test]
fn detection_replaces_invalid_utf8() {
    let found = detect_ollama(Some(output(true, b"v\xff1 ", b"")));
    assert_eq!(found, (true, Some("v\u{fffd}1".to_string())));
}

#[test]
fn detection_misses_are_negative() {
    assert_eq!(detect_ollama(Some(output(false, b"0.1.32", b"boom"))), (false, None));
    assert_eq!(detect_ollama(None), (false, None));
}

#[test]
fn detection_is_repeatable() {
    let probe = output(true, b"0.5.1\n", b"");
    let first = detect_ollama(Some(probe.clone()));
    let second = detect_ollama(Some(probe));
    assert_eq!(first, second);
    assert_eq!(first, (true, Some("0.5.1".to_string())));
}

#[test]
fn os_info_is_assembled() {
    let info = get_os_info(Platform::Linux, Arch::Aarch64, (true, Some("0.5.1".to_string())));
    assert_eq!(info.platform, Platform::Linux);
    assert_eq!(info.arch, Arch::Aarch64);
    assert!(info.ollama_installed);
    assert_eq!(info.ollama_version.as_deref(), Some("0.5.1"));
}

#[test]
fn progress_events_are_built() {
    let plain = emit_step(Stage::Installing, "Ollama installed!", 75);
    assert_eq!(plain.step, Stage::Installing);
    assert_eq!(plain.message, "Ollama installed!");
    assert_eq!(plain.percent, 75);
    assert_eq!(plain.error, None);
    let failed = emit_progress(Stage::Error, "Pull failed: x", 0, Some("x".to_string()));
    assert_eq!(failed.step, Stage::Error);
    assert_eq!(failed.message, "Pull failed: x");
    assert_eq!(failed.percent, 0);
    assert_eq!(failed.error.as_deref(), Some("x"));
}

#[test]
fn windows_install_runs_to_75_percent() {
    let steps = run_install(
        Platform::Windows,
        vec![InstallEvent::Begin, InstallEvent::Downloaded, InstallEvent::Exited { success: true }],
    );
    assert_eq!(percents(&steps), vec![5, 50, 75]);
    assert_eq!(
        commands(&steps),
        vec![InstallCommand::Download, InstallCommand::RunInstaller, InstallCommand::Succeed]
    );
    assert_eq!(steps[0].progress.as_ref().unwrap().step, Stage::Downloading);
    assert_eq!(steps[0].progress.as_ref().unwrap().message, "Downloading Ollama installer…");
    assert_eq!(steps[1].progress.as_ref().unwrap().message, "Running Ollama installer…");
    assert_eq!(steps[2].progress.as_ref().unwrap().message, "Ollama installed!");
    assert_eq!(steps[2].state, InstallState::Finished);
    assert_eq!(steps[2].error, None);
}

#[test]
fn macos_install_checks_the_bundle_and_settles() {
    let steps = run_install(
        Platform::Macos,
        vec![
            InstallEvent::Begin,
            InstallEvent::Downloaded,
            InstallEvent::Exited { success: true },
            InstallEvent::Exists { present: true },
            InstallEvent::Spawned,
            InstallEvent::Slept,
        ],
    );
    assert_eq!(percents(&steps), vec![5, 50, 75]);
    assert_eq!(
        commands(&steps),
        vec![
            InstallCommand::Download,
            InstallCommand::RunInstaller,
            InstallCommand::CheckBundle,
            InstallCommand::LaunchBundle,
            InstallCommand::Settle,
            InstallCommand::Succeed,
        ]
    );
    assert_eq!(steps[1].progress.as_ref().unwrap().message, "Extracting Ollama.app…");
}

#[test]
fn macos_install_needs_the_bundle() {
    let step = install_macos(InstallState::Verifying, InstallEvent::Exists { present: false });
    assert_eq!(step.command, InstallCommand::Fail);
    assert_eq!(step.error.as_deref(), Some("Failed to extract Ollama.app to /Applications"));
    let step = install_macos(InstallState::Installing, InstallEvent::Exited { success: false });
    assert_eq!(step.error.as_deref(), Some("Failed to extract Ollama.app to /Applications"));
    let step = install_macos(InstallState::Installing, InstallEvent::SpawnFailed { detail: "no unzip".into() });
    assert_eq!(step.error.as_deref(), Some("unzip failed: no unzip"));
    let step = install_macos(InstallState::Launching, InstallEvent::SpawnFailed { detail: "x".into() });
    assert_eq!(step.command, InstallCommand::Settle);
}

#[test]
fn linux_install_ignores_the_outcome_of_chmod() {
    for chmod in [
        InstallEvent::Exited { success: false },
        InstallEvent::Exited { success: true },
        InstallEvent::SpawnFailed { detail: "no chmod".into() },
    ] {
        let steps = run_install(
            Platform::Linux,
            vec![InstallEvent::Begin, InstallEvent::Downloaded, chmod, InstallEvent::Exited { success: true }],
        );
        assert_eq!(percents(&steps), vec![5, 50, 75]);
        assert_eq!(
            commands(&steps),
            vec![
                InstallCommand::Download,
                InstallCommand::MakeExecutable,
                InstallCommand::RunInstaller,
                InstallCommand::Succeed,
            ]
        );
    }
}

#[test]
fn failed_exit_is_fatal_on_every_platform() {
    let cases = [
        (Platform::Windows, "Ollama installer exited with non-zero code"),
        (Platform::Macos, "Failed to extract Ollama.app to /Applications"),
        (
            Platform::Linux,
            "Ollama install script failed. Try running manually: curl -fsSL https://ollama.com/install.sh | sh",
        ),
    ];
    for (platform, message) in cases {
        let step =
            install_ollama_with_progress(platform, InstallState::Installing, InstallEvent::Exited { success: false });
        assert_eq!(step.command, InstallCommand::Fail);
        assert_eq!(step.state, InstallState::Finished);
        assert_eq!(step.error.as_deref(), Some(message));
        let event = step.progress.expect("an error event");
        assert_eq!(event.step, Stage::Error);
        assert_eq!(event.percent, 0);
        assert_eq!(event.message, message);
        assert_eq!(event.error.as_deref(), Some(message));
        let after = install_ollama_with_progress(platform, step.state, InstallEvent::Slept);
        assert_eq!(after.command, InstallCommand::Fail);
        assert_eq!(after.error.as_deref(), Some("Unexpected event for this install step"));
    }
}

#[test]
fn installer_that_cannot_start_is_fatal() {
    let step = install_windows(InstallState::Installing, InstallEvent::SpawnFailed { detail: "denied".into() });
    assert_eq!(step.error.as_deref(), Some("Installer failed to start: denied"));
    let step = install_linux(InstallState::Installing, InstallEvent::SpawnFailed { detail: "denied".into() });
    assert_eq!(step.error.as_deref(), Some("Install script failed: denied"));
}

#[test]
fn failed_download_is_fatal() {
    for platform in [Platform::Windows, Platform::Macos, Platform::Linux] {
        let steps = run_install(
            platform,
            vec![
                InstallEvent::Begin,
                InstallEvent::DownloadFailed { kind: DownloadFailure::Request, detail: "dns".into() },
            ],
        );
        assert_eq!(steps[1].command, InstallCommand::Fail);
        assert_eq!(steps[1].error.as_deref(), Some("Download failed: dns"));
        assert_eq!(percents(&steps), vec![5, 0]);
    }
}

#[test]
fn download_failures_are_described() {
    assert_eq!(download_error(DownloadFailure::Request, "dns"), "Download failed: dns");
    assert_eq!(download_error(DownloadFailure::Body, "reset"), "Failed to read download: reset");
    assert_eq!(download_error(DownloadFailure::CreateFile, "denied"), "Cannot create temp file: denied");
    assert_eq!(download_error(DownloadFailure::WriteFile, "full"), "Cannot write file: full");
}

#[test]
fn event_out_of_turn_is_an_error() {
    let step = install_ollama_with_progress(Platform::Linux, InstallState::Start, InstallEvent::Downloaded);
    assert_eq!(step.command, InstallCommand::Fail);
    assert_eq!(step.error.as_deref(), Some("Unexpected event for this install step"));
    let step = install_windows(InstallState::Verifying, InstallEvent::Exists { present: true });
    assert_eq!(step.command, InstallCommand::Fail);
}

#[test]
fn command_lines_name_the_download() {
    let line = |p, c| command_line(p, c, "/tmp/dl");
    let strings = |v: &[&str]| v.iter().map(|s| s.to_string()).collect::<Vec<_>>();
    assert_eq!(
        line(Platform::Windows, InstallCommand::RunInstaller),
        Some(("/tmp/dl".to_string(), strings(&["/S"])))
    );
    assert_eq!(
        line(Platform::Macos, InstallCommand::RunInstaller),
        Some(("unzip".to_string(), strings(&["-o", "/tmp/dl", "-d", "/Applications"])))
    );
    assert_eq!(
        line(Platform::Macos, InstallCommand::LaunchBundle),
        Some(("open".to_string(), strings(&["-a", "/Applications/Ollama.app"])))
    );
    assert_eq!(
        line(Platform::Linux, InstallCommand::MakeExecutable),
        Some(("chmod".to_string(), strings(&["+x", "/tmp/dl"])))
    );
    assert_eq!(
        line(Platform::Linux, InstallCommand::RunInstaller),
        Some(("pkexec".to_string(), strings(&["sh", "/tmp/dl"])))
    );
    assert_eq!(line(Platform::Linux, InstallCommand::Download), None);
    assert_eq!(line(Platform::Windows, InstallCommand::LaunchBundle), None);
}

#[test]
fn launch_runs_to_ready() {
    let step = start_openclaw(LaunchState::Start, LaunchEvent::Begin);
    assert_eq!(step.command, LaunchCommand::Pull);
    let event = step.progress.expect("an event");
    assert_eq!((event.step, event.percent), (Stage::Pulling, 10));
    assert_eq!(event.message, "Pulling OpenClaw model (first run: ~2 GB)…");
    let step = start_openclaw(step.state, LaunchEvent::Pulled { output: output(true, b"", b"") });
    assert_eq!(step.command, LaunchCommand::ChoosePort);
    let event = step.progress.expect("an event");
    assert_eq!((event.step, event.percent), (Stage::Starting, 80));
    assert_eq!(event.message, "Starting local agent…");
    let step = start_openclaw(step.state, LaunchEvent::PortChosen { port: Some(40123) });
    assert_eq!(step.command, LaunchCommand::Launch { port: 40123 });
    assert!(step.progress.is_none());
    let step = start_openclaw(step.state, LaunchEvent::Spawned);
    assert_eq!(step.command, LaunchCommand::Settle);
    let step = start_openclaw(step.state, LaunchEvent::Slept);
    assert_eq!(step.command, LaunchCommand::Succeed);
    assert_eq!(step.state, LaunchState::Finished);
    let event = step.progress.expect("an event");
    assert_eq!((event.step, event.percent), (Stage::Ready, 100));
    assert_eq!(event.message, "Agent is running!");
    let status = step.status.expect("a status");
    assert!(status.running);
    assert_eq!(status.port, Some(40123));
    assert_eq!(status.url.as_deref(), Some("http://localhost:40123"));
    assert_eq!(status.uptime_secs, Some(0));
    assert_eq!(step.error, None);
}

#[test]
fn launch_falls_back_to_the_default_port() {
    let step = start_openclaw(LaunchState::Choosing, LaunchEvent::PortChosen { port: None });
    assert_eq!(step.command, LaunchCommand::Launch { port: 11434 });
    assert_eq!(step.state, LaunchState::Spawning { port: 11434 });
    assert_eq!(DEFAULT_PORT, 11434);
}

#[test]
fn failed_pull_reports_the_captured_error() {
    let step = start_openclaw(LaunchState::Pulling, LaunchEvent::Pulled { output: output(false, b"", b"no space") });
    assert_eq!(step.command, LaunchCommand::Fail);
    assert_eq!(step.state, LaunchState::Finished);
    assert_eq!(step.error.as_deref(), Some("no space"));
    assert!(step.status.is_none());
    let event = step.progress.expect("an error event");
    assert_eq!(event.step, Stage::Error);
    assert_eq!(event.percent, 0);
    assert_eq!(event.message, "Pull failed: no space");
    assert_eq!(event.error.as_deref(), Some("no space"));
}

#[test]
fn launch_failures_are_described() {
    let step = start_openclaw(LaunchState::Pulling, LaunchEvent::SpawnFailed { detail: "not found".into() });
    assert_eq!(step.error.as_deref(), Some("Failed to run ollama pull: not found"));
    assert_eq!(step.progress.unwrap().message, "Failed to run ollama pull: not found");
    let step = start_openclaw(LaunchState::Spawning { port: 9 }, LaunchEvent::SpawnFailed { detail: "x".into() });
    assert_eq!(step.error.as_deref(), Some("Failed to start OpenClaw: x"));
    let step = start_openclaw(LaunchState::Finished, LaunchEvent::Begin);
    assert_eq!(step.command, LaunchCommand::Fail);
    assert_eq!(step.error.as_deref(), Some("Unexpected event for this launch step"));
}

#[test]
fn engine_arguments_are_fixed() {
    assert_eq!(pull_arguments(), vec!["pull".to_string(), "openclaw".to_string()]);
    assert_eq!(
        launch_arguments(40123),
        vec!["launch".to_string(), "openclaw".to_string(), "--port".to_string(), "40123".to_string()]
    );
    assert_eq!(settle_millis(), 3000);
}
