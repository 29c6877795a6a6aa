//! The transcode controller: what to run, how far it has come, and how it
//! ended.
//!
//! The caller spawns the conversion tool and hands each of its events to the
//! controller, which answers with the percentage to show, if there is one to
//! show. A percentage is shown only when it exceeds the last one shown, so
//! what the listener sees climbs strictly and never leaves 0..=100.

use vstd::prelude::*;
use vstd::string::StringExecFns;
use crate::duration::MediaDuration;
use crate::output::{chosen_directory, describe_output, named_for, NamingPolicy, OutputDescriptor};
use crate::paths::{parent_of, stem_of};
use crate::pattern::first_group;
use crate::probe::{get_duration, resolved_duration, MetadataError, OutputStream};
use crate::text::{push_text, texts};
use crate::timecode::{elapsed_in_line, parsed_time, Elapsed, TIME_PATTERN};

verus! {

/// The name of the event under which transcode progress is announced.
pub const PROGRESS_EVENT: &'static str = "mp3_progress";

/// The message of a conversion that left its output behind.
pub const SUCCESS_MESSAGE: &'static str = "MP3 created successfully";

/// What the message of a conversion that left no output starts with; the
/// identifier of the stream follows.
pub const FAILURE_PREFIX: &'static str = "Failed to create MP3 for stream_id: ";

/// What the conversion tool reports while it runs, as far as the controller
/// tells its reports apart.
#[derive(Clone, Debug, PartialEq, Eq)]
pub enum TranscodeEvent {
    /// A line of human-readable diagnostics.
    Diagnostic(String),
    /// Anything else. Such events are ignored and never end a run.
    Other,
}

/// How a conversion ended.
#[derive(Clone, Debug, PartialEq, Eq)]
pub struct Mp3Result {
    pub success: bool,
    pub message: String,
    pub output_path: Option<String>,
}

/// Why a conversion did not run to its end.
#[derive(Clone, Debug, PartialEq, Eq)]
pub enum TranscodeError {
    /// The source path has no file name to derive the output from.
    NoFileName,
    /// The duration of the source could not be resolved.
    Duration(MetadataError),
    /// The conversion tool could not be started; holds the system's reason.
    SpawnFailed(String),
    /// The tool's event stream could not be read; holds the system's reason.
    StreamReadFailed(String),
}

/// The percentage of `nanos` nanoseconds that `hundredths` hundredths of a
/// second come to: `floor(elapsed / total * 100)`, at most 100.
pub open spec fn percent_complete(hundredths: nat, nanos: nat) -> nat
    recommends
        nanos > 0,
{
    let raw = hundredths * 10_000_000 * 100 / nanos;
    if raw > 100 {
        100
    } else {
        raw
    }
}

/// The further a conversion has come, the higher its percentage, which
/// never exceeds 100 and reaches it when the whole duration has elapsed.
pub proof fn lemma_percent_climbs(earlier: nat, later: nat, nanos: nat)
    requires
        earlier <= later,
        nanos > 0,
    ensures
        percent_complete(earlier, nanos) <= percent_complete(later, nanos) <= 100,
        later * 10_000_000 >= nanos ==> percent_complete(later, nanos) == 100,
{
    assert(earlier * 10_000_000 * 100 / nanos <= later * 10_000_000 * 100 / nanos) by (nonlinear_arith)
        requires
            earlier <= later,
            nanos > 0,
    ;
    assert(later * 10_000_000 >= nanos ==> later * 10_000_000 * 100 / nanos >= 100) by (nonlinear_arith)
        requires
            nanos > 0,
    ;
}

/// The percentage that a sample leads the listener to see, given the last
/// one shown: its percentage if that is higher, nothing otherwise.
pub open spec fn shown_for(nanos: nat, last: nat, sample: Option<Elapsed>) -> Option<nat> {
    match sample {
        Some(elapsed) => {
            let percent = percent_complete(elapsed.hundredths as nat, nanos);
            if percent > last {
                Some(percent)
            } else {
                None
            }
        },
        None => None,
    }
}

/// The last percentage shown after a step that showed `shown`.
pub open spec fn last_after(last: nat, shown: Option<nat>) -> nat {
    match shown {
        Some(percent) => percent,
        None => last,
    }
}

/// The elapsed-time sample that an event carries, if any.
pub open spec fn sample_of(event: TranscodeEvent) -> Option<Elapsed> {
    match event {
        TranscodeEvent::Diagnostic(line) => match first_group(TIME_PATTERN@, line@) {
            Some(timecode) => parsed_time(timecode),
            None => None,
        },
        TranscodeEvent::Other => None,
    }
}

/// The percentages shown for a run of samples, in order, starting from the
/// last one shown before the run.
pub open spec fn shown_run(nanos: nat, last: nat, samples: Seq<Elapsed>) -> Seq<nat>
    decreases samples.len(),
{
    if samples.len() == 0 {
        Seq::empty()
    } else {
        let shown = shown_for(nanos, last, Some(samples[0]));
        let rest = shown_run(nanos, last_after(last, shown), samples.drop_first());
        match shown {
            Some(percent) => seq![percent] + rest,
            None => rest,
        }
    }
}

/// The last percentage shown once a run of samples is through.
pub open spec fn last_after_run(nanos: nat, last: nat, samples: Seq<Elapsed>) -> nat
    decreases samples.len(),
{
    if samples.len() == 0 {
        last
    } else {
        let shown = shown_for(nanos, last, Some(samples[0]));
        last_after_run(nanos, last_after(last, shown), samples.drop_first())
    }
}

/// For every run of samples against a positive duration, the percentages
/// shown climb strictly and each lies above the starting point and at most at
/// 100; the last one shown afterwards is no lower than before and at most
/// 100 if it was so before.
pub proof fn lemma_progress_climbs(nanos: nat, last: nat, samples: Seq<Elapsed>)
    requires
        nanos > 0,
    ensures
        forall|i: int|
            0 <= i < shown_run(nanos, last, samples).len() ==> last < #[trigger] shown_run(
                nanos,
                last,
                samples,
            )[i] <= 100,
        forall|i: int, j: int|
            0 <= i < j < shown_run(nanos, last, samples).len() ==> shown_run(
                nanos,
                last,
                samples,
            )[i] < shown_run(nanos, last, samples)[j],
        last <= last_after_run(nanos, last, samples),
        last <= 100 ==> last_after_run(nanos, last, samples) <= 100,
        shown_run(nanos, last, samples).len() > 0 ==> last_after_run(nanos, last, samples)
            == shown_run(nanos, last, samples).last(),
        shown_run(nanos, last, samples).len() == 0 ==> last_after_run(nanos, last, samples)
            == last,
    decreases samples.len(),
{
    if samples.len() > 0 {
        let shown = shown_for(nanos, last, Some(samples[0]));
        let next = last_after(last, shown);
        lemma_progress_climbs(nanos, next, samples.drop_first());
        let rest = shown_run(nanos, next, samples.drop_first());
        let run = shown_run(nanos, last, samples);
        match shown {
            Some(percent) => {
                assert(run == seq![percent] + rest);
                assert forall|i: int| 0 <= i < run.len() implies last < #[trigger] run[i]
                    <= 100 by {
                    if i > 0 {
                        assert(run[i] == rest[i - 1]);
                    }
                }
                assert forall|i: int, j: int| 0 <= i < j < run.len() implies run[i] < run[j] by {
                    assert(run[j] == rest[j - 1]);
                    if i > 0 {
                        assert(run[i] == rest[i - 1]);
                    }
                }
                if rest.len() > 0 {
                    assert(run.last() == rest.last());
                }
            },
            None => {
                assert(run == rest);
            },
        }
    }
}

/// The state of one conversion run: the duration of the source and the last
/// percentage shown. Each run owns its own.
#[derive(Clone, Copy, Debug, PartialEq, Eq)]
pub struct TranscodeController {
    total: MediaDuration,
    last_percent: u32,
}

/// Computes the percentage of `total` that `elapsed` comes to.
pub fn percent_of(elapsed: Elapsed, total: &MediaDuration) -> (percent: u32)
    ensures
        percent == percent_complete(elapsed.hundredths as nat, total.nanos()),
        percent <= 100,
{
    let nanos = total.as_nanos();
    let raw: u128 = (elapsed.hundredths as u128) * 1_000_000_000u128 / (nanos as u128);
    if raw > 100 {
        100
    } else {
        raw as u32
    }
}

impl TranscodeController {
    /// The duration that progress is measured against, in nanoseconds.
    pub closed spec fn total_nanos(self) -> nat {
        self.total.nanos()
    }

    /// The last percentage shown; zero before the first.
    pub closed spec fn last_percent(self) -> nat {
        self.last_percent as nat
    }

    /// A controller for a source of the given duration, with nothing shown
    /// yet.
    pub fn new(total: MediaDuration) -> (controller: TranscodeController)
        ensures
            controller.total_nanos() == total.nanos(),
            controller.last_percent() == 0,
    {
        TranscodeController { total, last_percent: 0 }
    }

    /// The last percentage shown.
    pub fn last_shown(&self) -> (percent: u32)
        ensures
            percent == self.last_percent(),
    {
        self.last_percent
    }

    /// Takes an elapsed-time sample and returns the percentage to show for
    /// it: its percentage if that exceeds the last one shown, which it then
    /// replaces, and nothing otherwise.
    pub fn on_sample(&mut self, sample: Option<Elapsed>) -> (shown: Option<u32>)
        ensures
            final(self).total_nanos() == old(self).total_nanos(),
            match shown_for(old(self).total_nanos(), old(self).last_percent(), sample) {
                Some(percent) => shown == Some(percent as u32) && final(self).last_percent()
                    == percent,
                None => shown is None && final(self).last_percent() == old(self).last_percent(),
            },
    {
        match sample {
            Some(elapsed) => {
                let percent = percent_of(elapsed, &self.total);
                if percent > self.last_percent {
                    self.last_percent = percent;
                    Some(percent)
                } else {
                    None
                }
            },
            None => None,
        }
    }

    /// Takes an event of the conversion tool and returns the percentage to
    /// show for it, if any. Only a diagnostic line with an elapsed-time
    /// marker can lead to one; every other event leaves the run as it is.
    pub fn on_event(&mut self, event: &TranscodeEvent) -> (shown: Option<u32>)
        ensures
            final(self).total_nanos() == old(self).total_nanos(),
            match shown_for(old(self).total_nanos(), old(self).last_percent(), sample_of(*event)) {
                Some(percent) => shown == Some(percent as u32) && final(self).last_percent()
                    == percent,
                None => shown is None && final(self).last_percent() == old(self).last_percent(),
            },
    {
        let sample = match event {
            TranscodeEvent::Diagnostic(line) => elapsed_in_line(line.as_str()),
            TranscodeEvent::Other => None,
        };
        self.on_sample(sample)
    }

    /// Takes a whole run of samples and returns the percentages shown for
    /// it, in order.
    pub fn on_samples(&mut self, samples: &Vec<Elapsed>) -> (shown: Vec<u32>)
        ensures
            final(self).total_nanos() == old(self).total_nanos(),
            shown@.len() == shown_run(
                old(self).total_nanos(),
                old(self).last_percent(),
                samples@,
            ).len(),
            forall|i: int|
                0 <= i < shown@.len() ==> shown@[i] as nat == shown_run(
                    old(self).total_nanos(),
                    old(self).last_percent(),
                    samples@,
                )[i],
            final(self).last_percent() == last_after_run(
                old(self).total_nanos(),
                old(self).last_percent(),
                samples@,
            ),
    {
        let ghost nanos = self.total_nanos();
        let ghost first = self.last_percent();
        let mut shown: Vec<u32> = Vec::new();
        let mut i: usize = 0;
        assert(samples@.skip(0) == samples@);
        while i < samples.len()
            invariant
                i <= samples.len(),
                self.total_nanos() == nanos,
                shown_run(nanos, first, samples@) == shown@.map_values(|p: u32| p as nat)
                    + shown_run(nanos, self.last_percent(), samples@.skip(i as int)),
                last_after_run(nanos, first, samples@) == last_after_run(
                    nanos,
                    self.last_percent(),
                    samples@.skip(i as int),
                ),
            decreases samples.len() - i,
        {
            let ghost before = shown@.map_values(|p: u32| p as nat);
            let ghost rest = samples@.skip(i as int);
            assert(rest[0] == samples@[i as int]);
            assert(rest.drop_first() == samples@.skip(i + 1));
            match self.on_sample(Some(samples[i])) {
                Some(percent) => {
                    shown.push(percent);
                    assert(shown@.map_values(|p: u32| p as nat) == before.push(percent as nat));
                    assert(before.push(percent as nat) + shown_run(
                        nanos,
                        self.last_percent(),
                        samples@.skip(i + 1),
                    ) == before + (seq![percent as nat] + shown_run(
                        nanos,
                        self.last_percent(),
                        samples@.skip(i + 1),
                    )));
                },
                None => {},
            }
            i += 1;
        }
        proof {
            let run = shown_run(nanos, first, samples@);
            let mapped = shown@.map_values(|p: u32| p as nat);
            assert(samples@.skip(samples@.len() as int).len() == 0);
            assert(run == mapped);
            assert forall|k: int| 0 <= k < shown@.len() implies shown@[k] as nat == run[k] by {
                assert(mapped[k] == shown@[k] as nat);
            }
        }
        shown
    }
}

/// The command line of a conversion from `input` to `output`: audio only,
/// encoded as MP3 at quality tier 2, with the source's metadata carried over
/// as ID3v2.3 tags, and machine-readable progress on standard output.
pub open spec fn conversion_arguments(input: Seq<char>, output: Seq<char>) -> Seq<Seq<char>> {
    seq![
        "-i"@,
        input,
        "-vn"@,
        "-acodec"@,
        "libmp3lame"@,
        "-q:a"@,
        "2"@,
        "-map_metadata"@,
        "0"@,
        "-id3v2_version"@,
        "3"@,
        "-progress"@,
        "pipe:1"@,
        output,
    ]
}

/// The message shown for each error.
pub open spec fn transcode_error_text(error: TranscodeError) -> Seq<char> {
    match error {
        TranscodeError::NoFileName => "Source path has no file name"@,
        TranscodeError::Duration(cause) => crate::probe::metadata_error_text(cause),
        TranscodeError::SpawnFailed(reason) => "Failed to spawn FFmpeg command: "@ + reason@,
        TranscodeError::StreamReadFailed(reason) => "Failed to iterate over FFmpeg events: "@
            + reason@,
    }
}

impl TranscodeError {
    /// The error as a message for the user.
    pub fn message(&self) -> (text: String)
        ensures
            text@ == transcode_error_text(*self),
    {
        match self {
            TranscodeError::NoFileName => String::from_str("Source path has no file name"),
            TranscodeError::Duration(cause) => cause.message(),
            TranscodeError::SpawnFailed(reason) => {
                let mut text = String::from_str("Failed to spawn FFmpeg command: ");
                text.append(reason.as_str());
                text
            },
            TranscodeError::StreamReadFailed(reason) => {
                let mut text = String::from_str("Failed to iterate over FFmpeg events: ");
                text.append(reason.as_str());
                text
            },
        }
    }
}

/// Builds the command line of a conversion.
fn conversion_command(input: &str, output: &str) -> (arguments: Vec<String>)
    ensures
        texts(arguments@) == conversion_arguments(input@, output@),
{
    let mut arguments: Vec<String> = Vec::new();
    push_text(&mut arguments, "-i");
    push_text(&mut arguments, input);
    push_text(&mut arguments, "-vn");
    push_text(&mut arguments, "-acodec");
    push_text(&mut arguments, "libmp3lame");
    push_text(&mut arguments, "-q:a");
    push_text(&mut arguments, "2");
    push_text(&mut arguments, "-map_metadata");
    push_text(&mut arguments, "0");
    push_text(&mut arguments, "-id3v2_version");
    push_text(&mut arguments, "3");
    push_text(&mut arguments, "-progress");
    push_text(&mut arguments, "pipe:1");
    push_text(&mut arguments, output);
    arguments
}

/// How a run ended, judged by the one sign there is: whether the output
/// file exists once the tool's events are through. A missing output is a
/// result to report, not an error.
pub fn conclude(output: &OutputDescriptor, output_exists: bool) -> (result: Mp3Result)
    ensures
        result.success == output_exists,
        output_exists ==> result.message@ == SUCCESS_MESSAGE@ && (result.output_path matches Some(
            path,
        ) && path@ == output.path@),
        !output_exists ==> result.message@ == FAILURE_PREFIX@ + output.stream_id@
            && result.output_path is None,
{
    if output_exists {
        Mp3Result {
            success: true,
            message: String::from_str(SUCCESS_MESSAGE),
            output_path: Some(output.path.clone()),
        }
    } else {
        let mut message = String::from_str(FAILURE_PREFIX);
        message.append(output.stream_id.as_str());
        Mp3Result { success: false, message, output_path: None }
    }
}

/// A conversion that is ready to run: where its output goes, the command
/// line to spawn, and the controller that follows its progress.
///
/// A job comes from `create_mp3` and from nowhere else, and so does the
/// command line: a source whose duration does not resolve is never
/// converted.
#[derive(Clone, Debug, PartialEq, Eq)]
pub struct TranscodeJob {
    output: OutputDescriptor,
    arguments: Vec<String>,
    controller: TranscodeController,
}

impl TranscodeJob {
    /// Where the output goes.
    pub closed spec fn descriptor(self) -> OutputDescriptor {
        self.output
    }

    /// The command line to spawn.
    pub closed spec fn command(self) -> Seq<Seq<char>> {
        texts(self.arguments@)
    }

    /// The state of the run.
    pub closed spec fn progress(self) -> TranscodeController {
        self.controller
    }

    /// Where the output goes.
    pub fn output(&self) -> (output: &OutputDescriptor)
        ensures
            *output == self.descriptor(),
    {
        &self.output
    }

    /// The arguments to spawn the conversion tool with.
    pub fn arguments(&self) -> (arguments: &Vec<String>)
        ensures
            texts(arguments@) == self.command(),
    {
        &self.arguments
    }

    /// The last percentage shown.
    pub fn last_shown(&self) -> (percent: u32)
        ensures
            percent == self.progress().last_percent(),
    {
        self.controller.last_shown()
    }

    /// Takes an event of the conversion tool and returns the percentage to
    /// show for it, if any, as the job's controller decides.
    pub fn on_event(&mut self, event: &TranscodeEvent) -> (shown: Option<u32>)
        ensures
            final(self).descriptor() == old(self).descriptor(),
            final(self).command() == old(self).command(),
            final(self).progress().total_nanos() == old(self).progress().total_nanos(),
            match shown_for(
                old(self).progress().total_nanos(),
                old(self).progress().last_percent(),
                sample_of(*event),
            ) {
                Some(percent) => {
                    &&& shown == Some(percent as u32)
                    &&& final(self).progress().last_percent() == percent
                },
                None => {
                    &&& shown is None
                    &&& final(self).progress().last_percent() == old(self).progress().last_percent()
                },
            },
    {
        self.controller.on_event(event)
    }

    /// How the run ended, given whether the output file exists now that the
    /// tool's events are through.
    pub fn finish(&self, output_exists: bool) -> (result: Mp3Result)
        ensures
            result.success == output_exists,
            output_exists ==> result.message@ == SUCCESS_MESSAGE@ && (
            result.output_path matches Some(path) && path@ == self.descriptor().path@),
            !output_exists ==> result.message@ == FAILURE_PREFIX@ + self.descriptor().stream_id@
                && result.output_path is None,
    {
        conclude(&self.output, output_exists)
    }
}

/// Prepares the conversion of the file at `source_path`, given the raw
/// output of the duration query for it.
///
/// The duration is resolved before anything else: where that fails, the
/// failure is returned as it is. Otherwise `NoFileName` is returned exactly
/// where the platform finds no file name in the path; in every other case
/// the job is for the command line from the source to the output that is
/// named after it under the numeric policy and lies in its directory, with
/// a controller that has shown nothing yet.
pub fn create_mp3(source_path: &str, duration_output: Vec<u8>) -> (r: Result<
    TranscodeJob,
    TranscodeError,
>)
    ensures
        match resolved_duration(duration_output@) {
            None => r matches Err(
                TranscodeError::Duration(MetadataError::InvalidUtf8 { stream, .. }),
            ) && stream == OutputStream::Stdout,
            Some(Err(fault)) => r == Err::<TranscodeJob, TranscodeError>(
                TranscodeError::Duration(MetadataError::OutputParseError(fault)),
            ),
            Some(Ok(nanos)) => match r {
                Ok(job) => {
                    &&& job.progress().total_nanos() == nanos
                    &&& job.progress().last_percent() == 0
                    &&& job.command() == conversion_arguments(
                        source_path@,
                        job.descriptor().path@,
                    )
                    &&& stem_of(source_path@) == Some(job.descriptor().stream_id@)
                    &&& job.descriptor().parent_dir@ == chosen_directory(parent_of(source_path@))
                    &&& named_for(job.descriptor(), NamingPolicy::NumericId)
                },
                Err(e) => e == TranscodeError::NoFileName && stem_of(source_path@) is None,
            },
        },
{
    let total = match get_duration(duration_output) {
        Ok(total) => total,
        Err(cause) => { return Err(TranscodeError::Duration(cause)); },
    };
    let output = match describe_output(source_path, NamingPolicy::NumericId) {
        Some(output) => output,
        None => { return Err(TranscodeError::NoFileName); },
    };
    let arguments = conversion_command(source_path, output.path.as_str());
    Ok(TranscodeJob { output, arguments, controller: TranscodeController::new(total) })
}

} // verus!
