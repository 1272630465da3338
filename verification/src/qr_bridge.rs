//! Readiness polling of the workload and the pairing code.
//!
//! The caller waits, sends the requests and reports each outcome; the
//! functions here decide what happens next and build the pairing data.

use vstd::prelude::*;
use crate::codec::{
    base64_of, encode_base64, encode_png, json_member, json_quoted,
    member_outcome, png_of, qr_luma, quote_json, read_json_member, render_qr, text_outcome,
    Bitmap,
};
use crate::commands::{OpenClawStatus, QrData, QrDataView, StatusView};
use crate::text::{decimal, decimal_text, joined};

verus! {

/// The number of requests after which polling gives up.
pub const MAX_ATTEMPTS: u8 = 10;

/// The smallest side of the pairing image, in pixels.
pub const MIN_IMAGE_SIDE: u32 = 400;

/// The wait before the attempt with the given index (from 0), in
/// milliseconds.
pub open spec fn delay_before(attempt: nat) -> u64 {
    if attempt == 0 {
        500
    } else {
        1000
    }
}

/// The sum of the waits before the first `attempts` attempts.
pub open spec fn waited(attempts: nat) -> nat
    decreases attempts,
{
    if attempts == 0 {
        0
    } else {
        (waited((attempts - 1) as nat) + delay_before((attempts - 1) as nat)) as nat
    }
}

/// The address of the service on this machine.
pub open spec fn base_url(port: u16) -> Seq<char> {
    "http://localhost:"@ + decimal(port as nat)
}

/// The address that answers with the pairing data.
pub open spec fn connect_info_url(port: u16) -> Seq<char> {
    base_url(port) + "/api/connect-info"@
}

/// The address that answers while the service is alive.
pub open spec fn health_url(port: u16) -> Seq<char> {
    base_url(port) + "/api/health"@
}

/// The image of `data` as a data URI, or the text of what failed.
pub open spec fn qr_image_uri(data: Seq<char>) -> Result<Seq<char>, Seq<char>> {
    match qr_luma(data, MIN_IMAGE_SIDE) {
        Err(e) => Err("QR generation failed: "@ + e),
        Ok(image) => match png_of(image.2, image.0, image.1) {
            Err(e) => Err("PNG encode failed: "@ + e),
            Ok(bytes) => Ok("data:image/png;base64,"@ + base64_of(bytes)),
        },
    }
}

/// The compact JSON object of two members, `url` first, from their quoted
/// texts.
pub open spec fn framed_payload(quoted_url: Seq<char>, quoted_token: Seq<char>) -> Seq<char> {
    "{\"url\":"@ + quoted_url + ",\"token\":"@ + quoted_token + "}"@
}

/// The text that the pairing image carries.
pub open spec fn payload_of(url: Seq<char>, token: Seq<char>) -> Seq<char> {
    framed_payload(json_quoted(url), json_quoted(token))
}

/// The address and token that a connect-info answer gives, from the lookups
/// of its two members: the address must be there and not empty, the token
/// defaults to the empty text.
pub open spec fn connect_info_of(
    url: Result<Option<Seq<char>>, Seq<char>>,
    token: Result<Option<Seq<char>>, Seq<char>>,
) -> Result<(Seq<char>, Seq<char>), Seq<char>> {
    match url {
        Err(e) => Err("Invalid response from OpenClaw: "@ + e),
        Ok(None) => Err("Missing 'url' in connect-info"@),
        Ok(Some(u)) => if u.len() == 0 {
            Err("Missing 'url' in connect-info"@)
        } else {
            match token {
                Ok(Some(t)) => Ok((u, t)),
                _ => Ok((u, Seq::<char>::empty())),
            }
        },
    }
}

/// The pairing data from an address, a token and the outcome of drawing the
/// image: a failed image leaves the image text empty.
pub open spec fn pairing_with(url: Seq<char>, token: Seq<char>, image: Result<Seq<char>, Seq<char>>) -> QrDataView {
    QrDataView {
        url,
        token,
        qr_base64: match image {
            Ok(uri) => uri,
            Err(_) => Seq::<char>::empty(),
        },
    }
}

/// The pairing data that the body of a successful answer gives.
pub open spec fn pairing_of(body: Seq<u8>) -> Result<QrDataView, Seq<char>> {
    match connect_info_of(json_member(body, "url"@), json_member(body, "token"@)) {
        Err(e) => Err(e),
        Ok(info) => Ok(pairing_with(info.0, info.1, qr_image_uri(payload_of(info.0, info.1)))),
    }
}

pub open spec fn info_outcome(r: Result<(String, String), String>) -> Result<(Seq<char>, Seq<char>), Seq<char>> {
    match r {
        Ok(p) => Ok((p.0@, p.1@)),
        Err(e) => Err(e@),
    }
}

pub open spec fn pairing_outcome(r: Result<QrData, String>) -> Result<QrDataView, Seq<char>> {
    match r {
        Ok(d) => Ok(d@),
        Err(e) => Err(e@),
    }
}

/// What one request brought.
#[derive(Clone, Debug)]
pub enum ProbeOutcome {
    /// A 2xx answer and its body.
    Success { body: Vec<u8> },
    /// A 2xx answer whose body could not be read.
    Unreadable { detail: String },
    /// Another status, as the text of its code and reason.
    Status { status: String },
    /// No answer at all.
    Transport { detail: String },
}

pub enum ProbeOutcomeView {
    Success { body: Seq<u8> },
    Unreadable { detail: Seq<char> },
    Status { status: Seq<char> },
    Transport { detail: Seq<char> },
}

impl View for ProbeOutcome {
    type V = ProbeOutcomeView;

    open spec fn view(&self) -> ProbeOutcomeView {
        match *self {
            ProbeOutcome::Success { body } => ProbeOutcomeView::Success { body: body@ },
            ProbeOutcome::Unreadable { detail } => ProbeOutcomeView::Unreadable { detail: detail@ },
            ProbeOutcome::Status { status } => ProbeOutcomeView::Status { status: status@ },
            ProbeOutcome::Transport { detail } => ProbeOutcomeView::Transport { detail: detail@ },
        }
    }
}

pub open spec fn opt_outcome(o: Option<ProbeOutcome>) -> Option<ProbeOutcomeView> {
    match o {
        Some(x) => Some(x@),
        None => None,
    }
}

/// How far polling has come: the attempts that failed so far and the text of
/// the last failure.
#[derive(Clone, Debug)]
pub struct ProbeState {
    pub attempt: u8,
    pub last_err: String,
}

pub struct ProbeStateView {
    pub attempt: u8,
    pub last_err: Seq<char>,
}

impl View for ProbeState {
    type V = ProbeStateView;

    open spec fn view(&self) -> ProbeStateView {
        ProbeStateView { attempt: self.attempt, last_err: self.last_err@ }
    }
}

/// What the caller does next.
#[derive(Debug)]
pub enum ProbeAction {
    /// Wait, then request the address and report the outcome.
    Attempt { delay_ms: u64, url: String },
    /// Polling is over, with the pairing data or the error.
    Done(Result<QrData, String>),
}

pub enum ProbeActionView {
    Attempt { delay_ms: u64, url: Seq<char> },
    Done(Result<QrDataView, Seq<char>>),
}

impl View for ProbeAction {
    type V = ProbeActionView;

    open spec fn view(&self) -> ProbeActionView {
        match *self {
            ProbeAction::Attempt { delay_ms, url } => ProbeActionView::Attempt { delay_ms, url: url@ },
            ProbeAction::Done(r) => ProbeActionView::Done(pairing_outcome(r)),
        }
    }
}

/// The state before the first attempt.
pub open spec fn initial_state() -> ProbeStateView {
    ProbeStateView { attempt: 0, last_err: "Timed out waiting for OpenClaw to start"@ }
}

/// The action that a state calls for: one more attempt while fewer than
/// `MAX_ATTEMPTS` have failed, the last failure after that.
pub open spec fn next_action(port: u16, s: ProbeStateView) -> ProbeActionView {
    if s.attempt < MAX_ATTEMPTS {
        ProbeActionView::Attempt { delay_ms: delay_before(s.attempt as nat), url: connect_info_url(port) }
    } else {
        ProbeActionView::Done(Err(s.last_err))
    }
}

/// The count of failed attempts after one more.
pub open spec fn bumped(attempt: u8) -> u8 {
    if attempt < MAX_ATTEMPTS {
        (attempt + 1) as u8
    } else {
        MAX_ATTEMPTS
    }
}

/// Whether an outcome is one that polling goes on after.
pub open spec fn is_transient(o: ProbeOutcomeView) -> bool {
    o is Status || o is Transport
}

/// The text recorded for a transient failure of the attempt with index
/// `attempt`.
pub open spec fn failure_text(o: ProbeOutcomeView, attempt: u8) -> Seq<char> {
    match o {
        ProbeOutcomeView::Status { status } => "OpenClaw returned HTTP "@ + status,
        ProbeOutcomeView::Transport { detail } => "Connection refused (attempt "@ + decimal(
            (attempt + 1) as nat,
        ) + "): "@ + detail,
        _ => Seq::<char>::empty(),
    }
}

/// One step of polling: with no outcome, the action that the state calls
/// for; with a 2xx answer, the end, whatever the body holds; with a transient
/// failure, the failure recorded and the action that the new state calls for.
pub open spec fn probe_step(port: u16, s: ProbeStateView, o: Option<ProbeOutcomeView>) -> (
    ProbeStateView,
    ProbeActionView,
) {
    match o {
        None => (s, next_action(port, s)),
        Some(ProbeOutcomeView::Success { body }) => (s, ProbeActionView::Done(pairing_of(body))),
        Some(ProbeOutcomeView::Unreadable { detail }) => (
            s,
            ProbeActionView::Done(Err("Invalid response from OpenClaw: "@ + detail)),
        ),
        Some(failure) => {
            let next = ProbeStateView {
                attempt: bumped(s.attempt),
                last_err: failure_text(failure, s.attempt),
            };
            (next, next_action(port, next))
        },
    }
}

/// The state after a run of outcomes, each fed to `probe_step` in turn from
/// the initial state.
pub open spec fn state_after(port: u16, outcomes: Seq<ProbeOutcomeView>) -> ProbeStateView
    decreases outcomes.len(),
{
    if outcomes.len() == 0 {
        initial_state()
    } else {
        probe_step(port, state_after(port, outcomes.drop_last()), Some(outcomes.last())).0
    }
}

impl ProbeState {
    /// The state before the first attempt.
    pub fn new() -> (r: ProbeState)
        ensures
            r@ == initial_state(),
    {
        ProbeState { attempt: 0, last_err: String::from_str("Timed out waiting for OpenClaw to start") }
    }
}

/// The address of the service on this machine.
pub fn local_url(port: u16) -> (r: String)
    ensures
        r@ == base_url(port),
        r@.len() > 0,
{
    proof {
        reveal_strlit("http://localhost:");
    }
    let digits = decimal_text(port as u64);
    joined("http://localhost:", digits.as_str())
}

/// Wraps base64 text as a PNG data URI.
pub fn data_uri(b64: &str) -> (r: String)
    ensures
        r@ == "data:image/png;base64,"@ + b64@,
{
    joined("data:image/png;base64,", b64)
}

/// Draws the QR symbol of `data` with the quiet zone, error-correction level
/// M and at least 400 pixels a side.
pub fn qr_bitmap(data: &str) -> (r: Result<Bitmap, String>)
    ensures
        crate::codec::bitmap_outcome(r) == qr_luma(data@, MIN_IMAGE_SIDE),
        r matches Ok(b) ==> b.wf() && b.width >= 400 && b.height >= 400,
{
    render_qr(data, MIN_IMAGE_SIDE)
}

/// Renders a text as a QR code in a PNG data URI.
pub fn generate_qr_base64(data: &str) -> (r: Result<String, String>)
    ensures
        text_outcome(r) == qr_image_uri(data@),
{
    match qr_bitmap(data) {
        Err(e) => Err(joined("QR generation failed: ", e.as_str())),
        Ok(bitmap) => {
            let encoded = encode_png(&bitmap);
            match encoded {
                Err(e) => Err(joined("PNG encode failed: ", e.as_str())),
                Ok(bytes) => {
                    let b64 = encode_base64(bytes.as_slice());
                    Ok(data_uri(b64.as_str()))
                },
            }
        },
    }
}

/// Puts two quoted texts into the compact JSON object that the pairing image
/// carries.
pub fn frame_payload(quoted_url: &str, quoted_token: &str) -> (r: String)
    ensures
        r@ == framed_payload(quoted_url@, quoted_token@),
{
    let mut s = joined("{\"url\":", quoted_url);
    s.append(",\"token\":");
    s.append(quoted_token);
    s.append("}");
    s
}

/// The text that the pairing image carries for an address and a token.
pub fn qr_payload(url: &str, token: &str) -> (r: String)
    ensures
        r@ == payload_of(url@, token@),
{
    let quoted_url = quote_json(url);
    let quoted_token = quote_json(token);
    frame_payload(quoted_url.as_str(), quoted_token.as_str())
}

/// Reads the address and the token out of the lookups of the members `url`
/// and `token` of a connect-info answer.
pub fn connect_info(url: Result<Option<String>, String>, token: Result<Option<String>, String>) -> (r:
    Result<(String, String), String>)
    ensures
        info_outcome(r) == connect_info_of(member_outcome(url), member_outcome(token)),
{
    match url {
        Err(e) => Err(joined("Invalid response from OpenClaw: ", e.as_str())),
        Ok(None) => Err(String::from_str("Missing 'url' in connect-info")),
        Ok(Some(u)) => {
            if u.as_str().is_empty() {
                Err(String::from_str("Missing 'url' in connect-info"))
            } else {
                match token {
                    Ok(Some(t)) => Ok((u, t)),
                    _ => Ok((u, String::new())),
                }
            }
        },
    }
}

/// Puts the pairing data together; an image that failed leaves its text
/// empty.
pub fn pairing(url: String, token: String, image: Result<String, String>) -> (r: QrData)
    ensures
        r@ == pairing_with(url@, token@, text_outcome(image)),
{
    let qr_base64 = match image {
        Ok(uri) => uri,
        Err(_) => String::new(),
    };
    QrData { url, token, qr_base64 }
}

/// Builds the pairing data from the body of a successful connect-info
/// answer.
pub fn pairing_from_body(body: &[u8]) -> (r: Result<QrData, String>)
    ensures
        pairing_outcome(r) == pairing_of(body@),
        r matches Ok(d) ==> d.url@.len() > 0,
{
    let url = read_json_member(body, "url");
    let token = read_json_member(body, "token");
    match connect_info(url, token) {
        Err(e) => Err(e),
        Ok(info) => {
            let payload = qr_payload(info.0.as_str(), info.1.as_str());
            let image = generate_qr_base64(payload.as_str());
            Ok(pairing(info.0, info.1, image))
        },
    }
}

fn plan(port: u16, state: &ProbeState) -> (r: ProbeAction)
    ensures
        r@ == next_action(port, state@),
{
    if state.attempt < MAX_ATTEMPTS {
        let delay_ms: u64 = if state.attempt == 0 {
            500
        } else {
            1000
        };
        let base = local_url(port);
        ProbeAction::Attempt { delay_ms, url: joined(base.as_str(), "/api/connect-info") }
    } else {
        ProbeAction::Done(Err(state.last_err.clone()))
    }
}

fn bump(attempt: u8) -> (r: u8)
    ensures
        r == bumped(attempt),
{
    if attempt < MAX_ATTEMPTS {
        attempt + 1
    } else {
        MAX_ATTEMPTS
    }
}

/// One step of fetching the pairing data. Call it first with a new state and
/// no outcome; perform each `Attempt` it returns and call it again with the
/// state it returned and the outcome, until it returns `Done`.
pub fn fetch_qr_data(port: u16, state: ProbeState, outcome: Option<ProbeOutcome>) -> (r: (
    ProbeState,
    ProbeAction,
))
    ensures
        r.0@ == probe_step(port, state@, opt_outcome(outcome)).0,
        r.1@ == probe_step(port, state@, opt_outcome(outcome)).1,
{
    match outcome {
        None => {
            let action = plan(port, &state);
            (state, action)
        },
        Some(ProbeOutcome::Success { body }) => {
            let result = pairing_from_body(body.as_slice());
            (state, ProbeAction::Done(result))
        },
        Some(ProbeOutcome::Unreadable { detail }) => {
            let message = joined("Invalid response from OpenClaw: ", detail.as_str());
            (state, ProbeAction::Done(Err(message)))
        },
        Some(ProbeOutcome::Status { status }) => {
            let next = ProbeState {
                attempt: bump(state.attempt),
                last_err: joined("OpenClaw returned HTTP ", status.as_str()),
            };
            let action = plan(port, &next);
            (next, action)
        },
        Some(ProbeOutcome::Transport { detail }) => {
            let number = decimal_text(state.attempt as u64 + 1);
            let mut message = joined("Connection refused (attempt ", number.as_str());
            message.append("): ");
            message.append(detail.as_str());
            let next = ProbeState { attempt: bump(state.attempt), last_err: message };
            let action = plan(port, &next);
            (next, action)
        },
    }
}

/// The status that one health request gives.
pub open spec fn status_of(port: u16, healthy: bool) -> StatusView {
    StatusView {
        running: healthy,
        port: Some(port),
        url: if healthy {
            Some(base_url(port))
        } else {
            None
        },
        uptime_secs: None,
    }
}

/// Turns the outcome of the single health request into a status: a 2xx
/// answer means running, anything else, a failed request included, means not
/// running, at once.
pub fn check_status(port: u16, healthy: bool) -> (r: OpenClawStatus)
    ensures
        r@ == status_of(port, healthy),
        r@.wf(),
{
    if healthy {
        OpenClawStatus { running: true, port: Some(port), url: Some(local_url(port)), uptime_secs: None }
    } else {
        OpenClawStatus { running: false, port: Some(port), url: None, uptime_secs: None }
    }
}

/// The address that the health request goes to.
pub fn health_address(port: u16) -> (r: String)
    ensures
        r@ == health_url(port),
{
    let base = local_url(port);
    joined(base.as_str(), "/api/health")
}

/// The waits before the first `attempts` attempts add up to half a second
/// and one second for each attempt after the first; before the last of ten
/// attempts that is 9500 milliseconds.
pub proof fn lemma_wait_is_bounded(attempts: nat)
    requires
        1 <= attempts <= MAX_ATTEMPTS,
    ensures
        waited(attempts) == 500 + (attempts - 1) * 1000,
        waited(attempts) <= waited(MAX_ATTEMPTS as nat) == 9500,
    decreases attempts,
{
    reveal_with_fuel(waited, 11);
    if attempts > 1 {
        lemma_wait_is_bounded((attempts - 1) as nat);
    }
}

/// Whatever is reported, no more than ten failed attempts are ever counted,
/// and none that was not reported; so no more than ten attempts are ever
/// called for.
pub proof fn lemma_attempts_are_bounded(port: u16, outcomes: Seq<ProbeOutcomeView>)
    ensures
        state_after(port, outcomes).attempt <= MAX_ATTEMPTS,
        state_after(port, outcomes).attempt <= outcomes.len(),
        next_action(port, state_after(port, outcomes)) is Attempt ==> state_after(port, outcomes).attempt
            < MAX_ATTEMPTS,
    decreases outcomes.len(),
{
    if outcomes.len() > 0 {
        lemma_attempts_are_bounded(port, outcomes.drop_last());
    }
}

/// An endpoint that never answers with success is asked exactly ten times:
/// after fewer than ten transient failures one more attempt is called for,
/// with the delay of its index; after the tenth, polling ends with the text
/// of the last failure.
pub proof fn lemma_unreachable_endpoint(port: u16, outcomes: Seq<ProbeOutcomeView>)
    requires
        outcomes.len() <= MAX_ATTEMPTS,
        forall|i: int| 0 <= i < outcomes.len() ==> is_transient(#[trigger] outcomes[i]),
    ensures
        state_after(port, outcomes).attempt == outcomes.len(),
        outcomes.len() < MAX_ATTEMPTS ==> next_action(port, state_after(port, outcomes))
            == (ProbeActionView::Attempt {
            delay_ms: delay_before(outcomes.len()),
            url: connect_info_url(port),
        }),
        outcomes.len() == MAX_ATTEMPTS ==> next_action(port, state_after(port, outcomes))
            == ProbeActionView::Done(Err(failure_text(outcomes.last(), 9))),
    decreases outcomes.len(),
{
    if outcomes.len() > 0 {
        lemma_unreachable_endpoint(port, outcomes.drop_last());
    }
}

/// A 2xx answer that is no JSON, or has no `url` text, or an empty one, ends
/// polling with an error at once, in whatever state it arrives, and uses up
/// no attempt.
pub proof fn lemma_malformed_answer_is_final(port: u16, s: ProbeStateView, body: Seq<u8>)
    requires
        !(json_member(body, "url"@) matches Ok(Some(u)) && u.len() > 0),
    ensures
        probe_step(port, s, Some(ProbeOutcomeView::Success { body })).0 == s,
        probe_step(port, s, Some(ProbeOutcomeView::Success { body })).1 matches ProbeActionView::Done(Err(_)),
{
}

/// Pairing data always carries an address that is not empty, the one that
/// the answer gave.
pub proof fn lemma_pairing_has_an_address(body: Seq<u8>)
    ensures
        pairing_of(body) matches Ok(d) ==> d.url.len() > 0 && json_member(body, "url"@) == Ok::<
            Option<Seq<char>>,
            Seq<char>,
        >(Some(d.url)),
{
}

/// An answer with an address and without a token text gives the address and
/// the empty token.
pub proof fn lemma_token_defaults_to_empty(body: Seq<u8>, url: Seq<char>)
    requires
        json_member(body, "url"@) == Ok::<Option<Seq<char>>, Seq<char>>(Some(url)),
        url.len() > 0,
        !(json_member(body, "token"@) matches Ok(Some(_))),
    ensures
        pairing_of(body) matches Ok(d) && d.url == url && d.token == Seq::<char>::empty(),
{
}

} // verus!
