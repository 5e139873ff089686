//! The analysis of the signing certificates of a bundle.
//!
//! The analysis itself reads no directory and runs no decoder. Its
//! surroundings do, and report what they met as an `Event`; the analysis
//! answers each with the `Action` that is due next.

use vstd::prelude::*;
use vstd::string::StringSliceAdditionalSpecFns;
use vstd::utf8::encode_utf8;
use crate::candidate::{is_certificate_file, is_certificate_name};
use crate::clock::today;
use crate::date::Date;
use crate::error::{AnalysisError, ParseError};
use crate::fields::{extract_fields, fields_of};
use crate::policy::{evaluate, policy_findings, policy_outcome, records, Finding};
use crate::results::{Results, ResultsView};

verus! {

/// What the surroundings of an analysis report to it.
#[derive(Clone, Debug, PartialEq, Eq)]
pub enum Event {
    /// The signing-metadata directory holds an entry of this file name.
    Entry(String),
    /// The directory could not be read further. The reason is given.
    ReadFailed(String),
    /// The directory holds no further entry.
    End,
    /// The decoder printed this text for the file it was run on.
    Decoded(String),
    /// The decoder could not be started. The reason is given.
    DecoderNotStarted(String),
    /// The decoder ended with a failure, and printed this to its error
    /// stream.
    DecoderFailed(String),
}

/// What an analysis asks of its surroundings.
#[derive(Clone, Debug, PartialEq, Eq)]
pub enum Action {
    /// Report the next entry of the directory.
    NextEntry,
    /// Run the decoder on the file of this name, and report how it ended.
    Decode(String),
    /// The analysis is complete.
    Finish,
    /// Warn that the directory could not be read, for the reason given. The
    /// analysis is complete with what was found so far.
    FinishWithWarning(String),
    /// Give the analysis up.
    Abort(AnalysisError),
}

/// How much is said when an analysis is complete.
#[derive(Clone, Copy, Debug, PartialEq, Eq, Structural)]
pub enum Notice {
    /// The summary in full.
    Detailed,
    /// One line of confirmation.
    Brief,
    /// Nothing.
    Silent,
}

/// What the policies find in the decoded text `text` on the day `today`.
pub open spec fn certificate_findings(text: Seq<u8>, today: Date) -> Seq<Finding> {
    policy_findings(fields_of(text), today)
}

/// Whether the policies could be evaluated on the decoded text `text` on
/// the day `today`.
pub open spec fn certificate_outcome(text: Seq<u8>, today: Date) -> Result<(), ParseError> {
    policy_outcome(fields_of(text), today)
}

/// What the store holds after `event`, where it held `before` and the day
/// is `today`. Only decoded text changes it.
pub open spec fn results_after(before: ResultsView, event: Event, today: Date) -> ResultsView {
    match event {
        Event::Decoded(text) => ResultsView {
            certificate: Some(text@),
            vulnerabilities: before.vulnerabilities + records(
                certificate_findings(encode_utf8(text@), today),
            ),
        },
        _ => before,
    }
}

/// The action that is due after `event` on the day `today`.
pub open spec fn action_after(event: Event, today: Date) -> Action {
    match event {
        Event::Entry(name) => if is_certificate_name(encode_utf8(name@)) {
            Action::Decode(name)
        } else {
            Action::NextEntry
        },
        Event::ReadFailed(reason) => Action::FinishWithWarning(reason),
        Event::End => Action::Finish,
        Event::Decoded(text) => match certificate_outcome(encode_utf8(text@), today) {
            Ok(_) => Action::NextEntry,
            Err(e) => Action::Abort(AnalysisError::Parse(e)),
        },
        Event::DecoderNotStarted(reason) => Action::Abort(AnalysisError::ToolSpawn(reason)),
        Event::DecoderFailed(output) => Action::Abort(AnalysisError::ToolExit(output)),
    }
}

/// Stores the decoded text `text` in `results`, reads its fields, evaluates
/// the policies on them on the day `today`, and adds what they find.
pub fn analyze_certificate(text: &str, today: Date, results: &mut Results) -> (outcome: Result<
    (),
    ParseError,
>)
    ensures
        final(results)@.certificate == Some(text@),
        final(results)@.vulnerabilities == old(results)@.vulnerabilities + records(
            certificate_findings(text.spec_bytes(), today),
        ),
        outcome == certificate_outcome(text.spec_bytes(), today),
{
    results.set_certificate(text);
    let fields = extract_fields(text.as_bytes());
    evaluate(&fields, today, results)
}

/// Takes `event` into the analysis that collects in `results`, on the day
/// `today`, and gives the action that is due next.
pub fn react(results: &mut Results, event: Event, today: Date) -> (action: Action)
    ensures
        final(results)@ == results_after(old(results)@, event, today),
        action == action_after(event, today),
{
    match event {
        Event::Entry(name) => {
            if is_certificate_file(name.as_str().as_bytes()) {
                Action::Decode(name)
            } else {
                Action::NextEntry
            }
        },
        Event::ReadFailed(reason) => Action::FinishWithWarning(reason),
        Event::End => Action::Finish,
        Event::Decoded(text) => {
            match analyze_certificate(text.as_str(), today, results) {
                Ok(_) => Action::NextEntry,
                Err(e) => Action::Abort(AnalysisError::Parse(e)),
            }
        },
        Event::DecoderNotStarted(reason) => Action::Abort(AnalysisError::ToolSpawn(reason)),
        Event::DecoderFailed(output) => Action::Abort(AnalysisError::ToolExit(output)),
    }
}

/// Takes `event` into the analysis that collects in `results`, and gives
/// the action that is due next. Decoded text is judged on the day on which
/// it arrives; the decoder is asked for on an entry that holds a
/// certificate, and on nothing else.
pub fn step(results: &mut Results, event: Event) -> (action: Action)
    ensures
        exists|today: Date|
            {
                &&& today.on_calendar()
                &&& final(results)@ == #[trigger] results_after(old(results)@, event, today)
                &&& action == action_after(event, today)
            },
        action is Decode <==> event is Entry && is_certificate_name(encode_utf8(event->Entry_0@)),
        !(event is Decoded) ==> final(results)@ == old(results)@,
{
    let day: Date = today();
    react(results, event, day)
}

/// Chooses how much is said when an analysis is complete: nothing where
/// quiet is asked for, else the summary in full where verbosity is asked for,
/// else one line.
pub fn completion_notice(verbose: bool, quiet: bool) -> (notice: Notice)
    ensures
        notice == if quiet {
            Notice::Silent
        } else if verbose {
            Notice::Detailed
        } else {
            Notice::Brief
        },
{
    if quiet {
        Notice::Silent
    } else if verbose {
        Notice::Detailed
    } else {
        Notice::Brief
    }
}

} // verus!
