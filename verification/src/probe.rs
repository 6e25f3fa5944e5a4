//! Probing the media player.
//!
//! The player is asked by running a script once. This module takes what
//! came of that run, whether it started, how it ended and what it wrote,
//! and gives the state of the player or the reason why there is none. The
//! run itself is the caller's business.

use crate::json::{member_at, parse_outcome, MemberView};
use crate::player::{PlayerState, PlayerStateView};
use crate::record::{
    decode_record, decoded, lemma_tag_decides_the_state, record_of, RecordFault, RecordFaultView,
};
use crate::text::{
    all_white_space, lemma_decode_utf8_concat, lemma_trimmed_ignores_leading_white_space,
    lemma_trimmed_ignores_trailing_white_space, trimmed,
};
use vstd::prelude::*;
use vstd::utf8::*;

verus! {

/// What came of running the player query: how the process ended and what it
/// wrote. `exit_code` is `None` when the process ended without one, as when
/// a signal stopped it.
#[derive(Clone, Debug, PartialEq, Eq)]
pub struct CapturedOutput {
    pub exit_code: Option<i32>,
    pub stdout: Vec<u8>,
    pub stderr: Vec<u8>,
}

/// The mathematical value of a [`CapturedOutput`].
pub struct CapturedOutputView {
    pub exit_code: Option<i32>,
    pub stdout: Seq<u8>,
    pub stderr: Seq<u8>,
}

impl View for CapturedOutput {
    type V = CapturedOutputView;

    open spec fn view(&self) -> CapturedOutputView {
        CapturedOutputView { exit_code: self.exit_code, stdout: self.stdout@, stderr: self.stderr@ }
    }
}

impl CapturedOutputView {
    /// A process succeeded when it ended with exit code zero.
    pub open spec fn succeeded(self) -> bool {
        self.exit_code == Some(0i32)
    }
}

impl CapturedOutput {
    /// Tells whether the process ended with exit code zero.
    pub fn succeeded(&self) -> (yes: bool)
        ensures
            yes == self@.succeeded(),
    {
        match self.exit_code {
            Some(code) => code == 0,
            None => false,
        }
    }
}

/// Why the player query could not be started: what the operating system
/// said, and its error number where it gave one.
#[derive(Clone, Debug, PartialEq, Eq)]
pub struct LaunchFailure {
    pub os_code: Option<i32>,
    pub message: String,
}

/// The mathematical value of a [`LaunchFailure`].
pub struct LaunchFailureView {
    pub os_code: Option<i32>,
    pub message: Seq<char>,
}

impl View for LaunchFailure {
    type V = LaunchFailureView;

    open spec fn view(&self) -> LaunchFailureView {
        LaunchFailureView { os_code: self.os_code, message: self.message@ }
    }
}

/// Why a probe of the player gave no state. Each error keeps what is needed
/// to report it without asking again.
#[derive(Clone, Debug, PartialEq, Eq)]
pub enum ProbeError {
    /// The query could not be started.
    ProcessLaunchFailed(LaunchFailure),
    /// The query ran and did not end with exit code zero. All that was
    /// captured is kept.
    ProcessExecutionFailed(CapturedOutput),
    /// The query's output is not UTF-8.
    TextDecodeFailed,
    /// The query's output is no report: the fault, and the output as it was
    /// written, white space included.
    MalformedRecord(RecordFault, String),
}

/// The mathematical value of a [`ProbeError`].
pub enum ProbeErrorView {
    ProcessLaunchFailed(LaunchFailureView),
    ProcessExecutionFailed(CapturedOutputView),
    TextDecodeFailed,
    MalformedRecord(RecordFaultView, Seq<char>),
}

impl View for ProbeError {
    type V = ProbeErrorView;

    open spec fn view(&self) -> ProbeErrorView {
        match self {
            ProbeError::ProcessLaunchFailed(failure) => ProbeErrorView::ProcessLaunchFailed(
                failure@,
            ),
            ProbeError::ProcessExecutionFailed(output) => ProbeErrorView::ProcessExecutionFailed(
                output@,
            ),
            ProbeError::TextDecodeFailed => ProbeErrorView::TextDecodeFailed,
            ProbeError::MalformedRecord(fault, raw) => ProbeErrorView::MalformedRecord(fault@, raw@),
        }
    }
}

impl From<LaunchFailure> for ProbeError {
    fn from(failure: LaunchFailure) -> (error: ProbeError) {
        ProbeError::ProcessLaunchFailed(failure)
    }
}

impl vstd::std_specs::convert::FromSpecImpl<LaunchFailure> for ProbeError {
    open spec fn obeys_from_spec() -> bool {
        true
    }

    open spec fn from_spec(failure: LaunchFailure) -> ProbeError {
        ProbeError::ProcessLaunchFailed(failure)
    }
}

impl From<core::str::Utf8Error> for ProbeError {
    fn from(_error: core::str::Utf8Error) -> (error: ProbeError) {
        ProbeError::TextDecodeFailed
    }
}

impl vstd::std_specs::convert::FromSpecImpl<core::str::Utf8Error> for ProbeError {
    open spec fn obeys_from_spec() -> bool {
        true
    }

    open spec fn from_spec(_error: core::str::Utf8Error) -> ProbeError {
        ProbeError::TextDecodeFailed
    }
}

/// The mathematical value of what came of the attempt to run the query.
pub open spec fn launch_view(launch: Result<CapturedOutput, LaunchFailure>) -> Result<
    CapturedOutputView,
    LaunchFailureView,
> {
    match launch {
        Ok(output) => Ok(output@),
        Err(failure) => Err(failure@),
    }
}

/// The mathematical value of what a probe gives.
pub open spec fn probe_view(outcome: Result<PlayerState, ProbeError>) -> Result<
    PlayerStateView,
    ProbeErrorView,
> {
    match outcome {
        Ok(state) => Ok(state@),
        Err(error) => Err(error@),
    }
}

/// What a decoded output reports: the state that its trimmed text holds, or
/// the fault together with the untrimmed text.
pub open spec fn text_reading(raw: Seq<char>) -> Result<PlayerStateView, ProbeErrorView> {
    match decoded(trimmed(raw)) {
        Ok(state) => Ok(state),
        Err(fault) => Err(ProbeErrorView::MalformedRecord(fault, raw)),
    }
}

/// What a captured output reports. The exit code is looked at first, and
/// where it is not zero nothing else is; then the output must be UTF-8; then
/// its text is read.
pub open spec fn output_reading(output: CapturedOutputView) -> Result<
    PlayerStateView,
    ProbeErrorView,
> {
    if !output.succeeded() {
        Err(ProbeErrorView::ProcessExecutionFailed(output))
    } else if !valid_utf8(output.stdout) {
        Err(ProbeErrorView::TextDecodeFailed)
    } else {
        text_reading(decode_utf8(output.stdout))
    }
}

/// What a probe concludes from the attempt to run the query.
pub open spec fn probe_outcome(launch: Result<CapturedOutputView, LaunchFailureView>) -> Result<
    PlayerStateView,
    ProbeErrorView,
> {
    match launch {
        Err(failure) => Err(ProbeErrorView::ProcessLaunchFailed(failure)),
        Ok(output) => output_reading(output),
    }
}

/// Reads the state of the player from the captured output of the query.
pub fn read_output(output: CapturedOutput) -> (outcome: Result<PlayerState, ProbeError>)
    ensures
        probe_view(outcome) == output_reading(output@),
        outcome matches Ok(state) ==> state@.well_formed(),
{
    if !output.succeeded() {
        return Err(ProbeError::ProcessExecutionFailed(output));
    }
    match core::str::from_utf8(output.stdout.as_slice()) {
        Err(error) => Err(ProbeError::from(error)),
        Ok(raw) => {
            // the output can end in new lines, which the parser must not see
            match decode_record(raw.trim()) {
                Ok(state) => Ok(state),
                Err(fault) => Err(ProbeError::MalformedRecord(fault, raw.to_owned())),
            }
        },
    }
}

/// Concludes a probe: takes what came of the attempt to run the player
/// query and gives the player's state or the reason why there is none.
pub fn probe(launch: Result<CapturedOutput, LaunchFailure>) -> (outcome: Result<
    PlayerState,
    ProbeError,
>)
    ensures
        probe_view(outcome) == probe_outcome(launch_view(launch)),
        outcome matches Ok(state) ==> state@.well_formed(),
{
    match launch {
        Err(failure) => Err(ProbeError::from(failure)),
        Ok(output) => read_output(output),
    }
}

/// White space after a report changes nothing of what is read from it: the
/// same record is decoded, and where the report gives a state, the padded
/// report gives the same state.
pub proof fn lemma_trailing_white_space_is_ignored(raw: Seq<char>, padding: Seq<char>)
    requires
        all_white_space(padding),
    ensures
        decoded(trimmed(raw + padding)) == decoded(trimmed(raw)),
        text_reading(raw) is Ok ==> text_reading(raw + padding) == text_reading(raw),
{
    lemma_trimmed_ignores_trailing_white_space(raw, padding);
}

/// White space before a report changes nothing of what is read from it
/// either.
pub proof fn lemma_leading_white_space_is_ignored(padding: Seq<char>, raw: Seq<char>)
    requires
        all_white_space(padding),
    ensures
        decoded(trimmed(padding + raw)) == decoded(trimmed(raw)),
        text_reading(raw) is Ok ==> text_reading(padding + raw) == text_reading(raw),
{
    lemma_trimmed_ignores_leading_white_space(padding, raw);
}

/// White space written after a report changes nothing of the state that is
/// read from the output: a query that wrote a report, and one that wrote
/// the same report and then only white space, give the same state.
pub proof fn lemma_padded_output_reads_the_same(
    output: CapturedOutputView,
    padded: CapturedOutputView,
    padding: Seq<char>,
)
    requires
        all_white_space(padding),
        padded.exit_code == output.exit_code,
        padded.stdout == output.stdout + encode_utf8(padding),
    ensures
        output_reading(output) is Ok ==> output_reading(padded) == output_reading(output),
{
    if output_reading(output) is Ok {
        encode_utf8_valid_utf8(padding);
        encode_utf8_decode_utf8(padding);
        lemma_decode_utf8_concat(output.stdout, encode_utf8(padding));
        lemma_trailing_white_space_is_ignored(decode_utf8(output.stdout), padding);
    }
}

/// The `type` member of the document that a query wrote, if what it wrote
/// is, once trimmed, a JSON document that has one.
pub open spec fn reported_tag(raw: Seq<char>) -> Option<MemberView> {
    match parse_outcome(trimmed(raw)) {
        Ok(members) => member_at(members, "type"@),
        Err(_) => None,
    }
}

/// A state is read from an output only if the query succeeded, wrote UTF-8,
/// and what it wrote is, once trimmed, a JSON document whose `type` member
/// is the tag of that very state.
pub proof fn lemma_state_is_read_under_its_tag(output: CapturedOutputView)
    ensures
        output_reading(output) matches Ok(state) ==> output.succeeded() && valid_utf8(
            output.stdout,
        ) && reported_tag(decode_utf8(output.stdout)) == Some(MemberView::Text(state.tag())),
{
    if output_reading(output) is Ok {
        let members = parse_outcome(trimmed(decode_utf8(output.stdout)))->Ok_0;
        lemma_tag_decides_the_state(record_of(members));
    }
}

/// A report whose `type` member is a text other than the four tags fails
/// the probe as a malformed record that names the tag; it is never taken
/// for a player that is off.
pub proof fn lemma_unknown_tag_fails_the_probe(output: CapturedOutputView, tag: Seq<char>)
    requires
        tag != "Playing"@,
        tag != "Paused"@,
        tag != "Stopped"@,
        tag != "Off"@,
    ensures
        output.succeeded() && valid_utf8(output.stdout) && reported_tag(
            decode_utf8(output.stdout),
        ) == Some(MemberView::Text(tag)) ==> output_reading(output) == Err::<
            PlayerStateView,
            ProbeErrorView,
        >(
            ProbeErrorView::MalformedRecord(
                RecordFaultView::UnknownTag(tag),
                decode_utf8(output.stdout),
            ),
        ),
{
}

/// A query that did not end with exit code zero is never read: whatever it
/// wrote, the probe fails with all of its output.
pub proof fn lemma_failed_query_is_never_read(output: CapturedOutputView)
    requires
        output.exit_code != Some(0i32),
    ensures
        output_reading(output) == Err::<PlayerStateView, ProbeErrorView>(
            ProbeErrorView::ProcessExecutionFailed(output),
        ),
{
}

} // verus!
