//! Provisioning of a local agent runtime: detection and installation of the
//! runtime engine, launch of the agent workload, readiness polling and the
//! pairing code.
//!
//! Every function here is a decision on plain values. The caller performs
//! the downloads, processes, requests and waits that the decisions ask for,
//! and reports back what happened.

pub mod text;
pub mod commands;
pub mod codec;
pub mod qr_bridge;
pub mod installer;
pub mod launcher;

pub use commands::{
    emit_progress, get_os_info, Arch, OpenClawStatus, OsInfo, Platform, ProgressEvent, QrData, Stage,
};
pub use installer::{detect_ollama, install_ollama_with_progress, ollama_binary_path};
pub use launcher::start_openclaw;
pub use qr_bridge::{check_status, fetch_qr_data, generate_qr_base64};
