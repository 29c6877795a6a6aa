//! The probe: what to ask the inspection tool, where to look for it, and
//! what to make of its output.
//!
//! Running the tool is the caller's part. This module hands out the argument
//! lists, walks the caller through the search for the binary one question at
//! a time, and decodes what the tool printed.

use vstd::prelude::*;
use vstd::string::StringExecFns;
use vstd::utf8::{decode_utf8, valid_utf8};
use crate::duration::{fault_text, parse_duration, text_duration, DurationFault, MediaDuration};
use crate::text::{push_text, texts};

verus! {

/// `std::string::FromUtf8Error`, the reason that `String::from_utf8` gives
/// for a refusal. It is passed on without a look inside.
#[verifier::external_type_specification]
#[verifier::external_body]
pub struct ExFromUtf8Error(std::string::FromUtf8Error);

/// One of the two streams on which the inspection tool writes.
#[derive(Clone, Copy, Debug, PartialEq, Eq, Structural)]
pub enum OutputStream {
    /// Standard output, which carries the answer.
    Stdout,
    /// Standard error, which carries the tool's complaints.
    Stderr,
}

/// Why metadata or a duration could not be had.
#[derive(Clone, Debug, PartialEq, Eq)]
pub enum MetadataError {
    /// The inspection tool was found in none of the places searched.
    ToolNotFound,
    /// The inspection tool could not be run; holds the system's reason.
    CommandFailed(String),
    /// What the tool wrote on one of its streams is not UTF-8; holds the
    /// stream and the decoder's reason.
    InvalidUtf8 { stream: OutputStream, reason: String },
    /// The tool's output states no duration; holds the reason.
    OutputParseError(DurationFault),
}

/// The two output streams of an inspection run, verbatim.
#[derive(Clone, Debug, PartialEq, Eq)]
pub struct MetadataResult {
    pub stdout: String,
    pub stderr: String,
}

/// The message shown for each error.
pub open spec fn metadata_error_text(error: MetadataError) -> Seq<char> {
    match error {
        MetadataError::ToolNotFound => "ffprobe not found"@,
        MetadataError::CommandFailed(reason) => "Failed to execute ffprobe: "@ + reason@,
        MetadataError::InvalidUtf8 { stream, reason } => match stream {
            OutputStream::Stdout => "Failed to parse ffprobe output as UTF-8: "@ + reason@,
            OutputStream::Stderr => "Failed to parse ffprobe error output as UTF-8: "@ + reason@,
        },
        MetadataError::OutputParseError(fault) => "Failed to parse duration: "@ + fault_text(
            fault,
        ),
    }
}

impl MetadataError {
    /// The error as a message for the user.
    pub fn message(&self) -> (text: String)
        ensures
            text@ == metadata_error_text(*self),
    {
        match self {
            MetadataError::ToolNotFound => String::from_str("ffprobe not found"),
            MetadataError::CommandFailed(reason) => {
                let mut text = String::from_str("Failed to execute ffprobe: ");
                text.append(reason.as_str());
                text
            },
            MetadataError::InvalidUtf8 { stream, reason } => {
                let mut text = match stream {
                    OutputStream::Stdout => String::from_str(
                        "Failed to parse ffprobe output as UTF-8: ",
                    ),
                    OutputStream::Stderr => String::from_str(
                        "Failed to parse ffprobe error output as UTF-8: ",
                    ),
                };
                text.append(reason.as_str());
                text
            },
            MetadataError::OutputParseError(fault) => {
                let mut text = String::from_str("Failed to parse duration: ");
                text.append(fault.reason());
                text
            },
        }
    }
}

/// The arguments that ask the tool for format, stream and chapter metadata
/// of the file at `path`, as JSON.
pub open spec fn metadata_arguments(path: Seq<char>) -> Seq<Seq<char>> {
    seq![
        "-v"@,
        "quiet"@,
        "-print_format"@,
        "json"@,
        "-show_chapters"@,
        "-show_format"@,
        "-show_streams"@,
        "-loglevel"@,
        "error"@,
        path,
    ]
}

/// The arguments that ask the tool for nothing but the duration of the file
/// at `path`, as one bare number.
pub open spec fn duration_arguments(path: Seq<char>) -> Seq<Seq<char>> {
    seq![
        "-v"@,
        "error"@,
        "-show_entries"@,
        "format=duration"@,
        "-of"@,
        "default=noprint_wrappers=1:nokey=1"@,
        path,
    ]
}

/// What the tool's output bytes decode to, where they are UTF-8.
pub open spec fn decoded(bytes: Seq<u8>) -> Option<Seq<char>> {
    if valid_utf8(bytes) {
        Some(decode_utf8(bytes))
    } else {
        None
    }
}

/// Decodes bytes as UTF-8 by `String::from_utf8`, which accepts exactly the
/// valid encodings and yields the characters they encode.
#[verifier::external_body]
pub(crate) fn decode_text(bytes: Vec<u8>) -> (r: Result<String, std::string::FromUtf8Error>)
    ensures
        r is Ok <==> valid_utf8(bytes@),
        r matches Ok(text) ==> text@ == decode_utf8(bytes@),
{
    String::from_utf8(bytes)
}

/// Builds the argument list of a metadata query.
pub fn metadata_query(path: &str) -> (arguments: Vec<String>)
    ensures
        texts(arguments@) == metadata_arguments(path@),
{
    let mut arguments: Vec<String> = Vec::new();
    push_text(&mut arguments, "-v");
    push_text(&mut arguments, "quiet");
    push_text(&mut arguments, "-print_format");
    push_text(&mut arguments, "json");
    push_text(&mut arguments, "-show_chapters");
    push_text(&mut arguments, "-show_format");
    push_text(&mut arguments, "-show_streams");
    push_text(&mut arguments, "-loglevel");
    push_text(&mut arguments, "error");
    push_text(&mut arguments, path);
    arguments
}

/// Builds the argument list of a duration query.
pub fn duration_query(path: &str) -> (arguments: Vec<String>)
    ensures
        texts(arguments@) == duration_arguments(path@),
{
    let mut arguments: Vec<String> = Vec::new();
    push_text(&mut arguments, "-v");
    push_text(&mut arguments, "error");
    push_text(&mut arguments, "-show_entries");
    push_text(&mut arguments, "format=duration");
    push_text(&mut arguments, "-of");
    push_text(&mut arguments, "default=noprint_wrappers=1:nokey=1");
    push_text(&mut arguments, path);
    arguments
}

/// The error for a stream that is not UTF-8, with the reason that the
/// decoder gives in its own words.
fn encoding_error(stream: OutputStream, cause: std::string::FromUtf8Error) -> (error: MetadataError)
    ensures
        error matches MetadataError::InvalidUtf8 { stream: s, .. } && s == stream,
{
    MetadataError::InvalidUtf8 { stream, reason: cause.to_string() }
}

/// Turns the raw output of a metadata query into text, verbatim. Fails with
/// `InvalidUtf8` exactly when one of the two streams is not UTF-8, and
/// names the first that is not.
pub fn get_metadata(stdout: Vec<u8>, stderr: Vec<u8>) -> (r: Result<MetadataResult, MetadataError>)
    ensures
        match (decoded(stdout@), decoded(stderr@)) {
            (Some(out), Some(err)) => r matches Ok(m) && m.stdout@ == out && m.stderr@ == err,
            (None, _) => r matches Err(MetadataError::InvalidUtf8 { stream, .. }) && stream
                == OutputStream::Stdout,
            (Some(_), None) => r matches Err(MetadataError::InvalidUtf8 { stream, .. }) && stream
                == OutputStream::Stderr,
        },
{
    let out = match decode_text(stdout) {
        Ok(text) => text,
        Err(cause) => { return Err(encoding_error(OutputStream::Stdout, cause)); },
    };
    let err = match decode_text(stderr) {
        Ok(text) => text,
        Err(cause) => { return Err(encoding_error(OutputStream::Stderr, cause)); },
    };
    Ok(MetadataResult { stdout: out, stderr: err })
}

/// What the output of a duration query resolves to: nothing where it is
/// not UTF-8, else the duration that its text states or the reason why it
/// states none.
pub open spec fn resolved_duration(stdout: Seq<u8>) -> Option<Result<nat, DurationFault>> {
    match decoded(stdout) {
        None => None,
        Some(text) => Some(text_duration(text)),
    }
}

/// Resolves the duration from the raw output of a duration query. Fails with
/// `InvalidUtf8` when the output is not UTF-8 and with `OutputParseError`
/// and the reason when it is, but states no positive duration.
pub fn get_duration(stdout: Vec<u8>) -> (r: Result<MediaDuration, MetadataError>)
    ensures
        match resolved_duration(stdout@) {
            Some(Ok(nanos)) => r matches Ok(d) && d.nanos() == nanos,
            Some(Err(fault)) => r == Err::<MediaDuration, MetadataError>(
                MetadataError::OutputParseError(fault),
            ),
            None => r matches Err(MetadataError::InvalidUtf8 { stream, .. }) && stream
                == OutputStream::Stdout,
        },
{
    let text = match decode_text(stdout) {
        Ok(text) => text,
        Err(cause) => { return Err(encoding_error(OutputStream::Stdout, cause)); },
    };
    match parse_duration(text.as_str()) {
        Ok(duration) => Ok(duration),
        Err(fault) => Err(MetadataError::OutputParseError(fault)),
    }
}

/// The address under which a local file is shown to the user interface.
pub fn get_video_path(path: &str) -> (address: String)
    ensures
        address@ == "file://"@ + path@,
{
    let mut address = String::from_str("file://");
    address.append(path);
    address
}

/// The program that the search is for.
pub const TOOL_NAME: &'static str = "ffprobe";

/// The environment variable that may name the binary where all else fails.
pub const OVERRIDE_VARIABLE: &'static str = "FFPROBE_PATH";

/// How many common install locations are tried.
pub const CANDIDATE_COUNT: usize = 4;

/// The common install locations, in the order in which they are tried.
pub open spec fn candidate_path(index: int) -> Seq<char> {
    if index == 0 {
        "/usr/bin/ffprobe"@
    } else if index == 1 {
        "/usr/local/bin/ffprobe"@
    } else if index == 2 {
        "/opt/homebrew/bin/ffprobe"@
    } else {
        "C:\\Program Files\\ffmpeg\\bin\\ffprobe.exe"@
    }
}

/// A question that the search puts to its caller.
#[derive(Clone, Debug, PartialEq, Eq)]
pub enum ToolQuery {
    /// Where on the executable search path is the program of this name?
    SearchPath(String),
    /// Does a file exist at this path?
    FileExists(String),
    /// What is the value of this environment variable?
    Environment(String),
}

/// The caller's answer to a question.
#[derive(Clone, Debug, PartialEq, Eq)]
pub enum ToolReply {
    /// Yes: the path found, the value of the variable, or, for a question
    /// about a file, anything at all.
    Found(String),
    /// No.
    Missing,
}

/// Where a search stands, as plain values.
pub enum SearchModel {
    /// About to look on the executable search path.
    PathLookup,
    /// About to try the common location with this index.
    Candidate(nat),
    /// About to read the override variable.
    Override,
    /// About to check that the override's value names a file.
    OverrideCheck(Seq<char>),
    /// Finished: the binary is at this path.
    Found(Seq<char>),
    /// Finished: the binary is nowhere.
    NotFound,
}

/// A question, as plain values.
pub enum QueryModel {
    SearchPath(Seq<char>),
    FileExists(Seq<char>),
    Environment(Seq<char>),
}

/// The question that a search asks next; none once it has finished.
pub open spec fn next_query(state: SearchModel) -> Option<QueryModel> {
    match state {
        SearchModel::PathLookup => Some(QueryModel::SearchPath(TOOL_NAME@)),
        SearchModel::Candidate(index) => Some(QueryModel::FileExists(candidate_path(index as int))),
        SearchModel::Override => Some(QueryModel::Environment(OVERRIDE_VARIABLE@)),
        SearchModel::OverrideCheck(path) => Some(QueryModel::FileExists(path)),
        SearchModel::Found(_) => None,
        SearchModel::NotFound => None,
    }
}

/// Where a search stands after an answer. The search path comes first, then
/// the common locations in order, then the override; the first hit ends it.
pub open spec fn after_reply(state: SearchModel, reply: Option<Seq<char>>) -> SearchModel {
    match state {
        SearchModel::PathLookup => match reply {
            Some(path) => SearchModel::Found(path),
            None => SearchModel::Candidate(0),
        },
        SearchModel::Candidate(index) => match reply {
            Some(_) => SearchModel::Found(candidate_path(index as int)),
            None => if index + 1 < CANDIDATE_COUNT {
                SearchModel::Candidate(index + 1)
            } else {
                SearchModel::Override
            },
        },
        SearchModel::Override => match reply {
            Some(path) => SearchModel::OverrideCheck(path),
            None => SearchModel::NotFound,
        },
        SearchModel::OverrideCheck(path) => match reply {
            Some(_) => SearchModel::Found(path),
            None => SearchModel::NotFound,
        },
        SearchModel::Found(path) => SearchModel::Found(path),
        SearchModel::NotFound => SearchModel::NotFound,
    }
}

/// Where a search stands after a run of answers, taken in order.
pub open spec fn after_replies(state: SearchModel, replies: Seq<Option<Seq<char>>>) -> SearchModel
    decreases replies.len(),
{
    if replies.len() == 0 {
        state
    } else {
        after_replies(after_reply(state, replies[0]), replies.drop_first())
    }
}

/// A search has finished where it stands.
pub open spec fn is_finished(state: SearchModel) -> bool {
    state is Found || state is NotFound
}

/// How many questions a search may still ask, at most.
pub open spec fn questions_left(state: SearchModel) -> nat {
    match state {
        SearchModel::PathLookup => 7,
        SearchModel::Candidate(index) => if index < CANDIDATE_COUNT {
            (6 - index) as nat
        } else {
            3
        },
        SearchModel::Override => 2,
        SearchModel::OverrideCheck(_) => 1,
        SearchModel::Found(_) => 0,
        SearchModel::NotFound => 0,
    }
}

/// Every answer brings a search closer to its end, and a finished search
/// stays as it is.
pub proof fn lemma_answer_advances(state: SearchModel, reply: Option<Seq<char>>)
    ensures
        !is_finished(state) ==> questions_left(after_reply(state, reply)) < questions_left(state),
        is_finished(state) ==> after_reply(state, reply) == state,
        is_finished(state) <==> next_query(state) is None,
        is_finished(state) <==> questions_left(state) == 0,
{
}

/// Whatever the answers, a search that has been given as many as it could
/// still ask for has finished. A fresh search finishes within seven.
pub proof fn lemma_search_finishes(state: SearchModel, replies: Seq<Option<Seq<char>>>)
    requires
        replies.len() >= questions_left(state),
    ensures
        is_finished(after_replies(state, replies)),
    decreases replies.len(),
{
    if replies.len() > 0 {
        lemma_answer_advances(state, replies[0]);
        lemma_search_finishes(after_reply(state, replies[0]), replies.drop_first());
    }
}

/// The first hit decides: a binary on the search path is taken at once,
/// wherever else one may lie.
pub proof fn lemma_search_path_wins(path: Seq<char>, replies: Seq<Option<Seq<char>>>)
    ensures
        after_replies(SearchModel::PathLookup, seq![Some(path)] + replies) == SearchModel::Found(
            path,
        ),
{
    let all = seq![Some(path)] + replies;
    assert(all.drop_first() == replies);
    lemma_finished_stays(SearchModel::Found(path), replies);
}

/// No run of answers moves a finished search.
pub proof fn lemma_finished_stays(state: SearchModel, replies: Seq<Option<Seq<char>>>)
    requires
        is_finished(state),
    ensures
        after_replies(state, replies) == state,
    decreases replies.len(),
{
    if replies.len() > 0 {
        lemma_finished_stays(state, replies.drop_first());
    }
}

impl View for ToolQuery {
    type V = QueryModel;

    open spec fn view(&self) -> QueryModel {
        match self {
            ToolQuery::SearchPath(name) => QueryModel::SearchPath(name@),
            ToolQuery::FileExists(path) => QueryModel::FileExists(path@),
            ToolQuery::Environment(variable) => QueryModel::Environment(variable@),
        }
    }
}

impl View for ToolReply {
    type V = Option<Seq<char>>;

    open spec fn view(&self) -> Option<Seq<char>> {
        match self {
            ToolReply::Found(text) => Some(text@),
            ToolReply::Missing => None,
        }
    }
}

enum Stage {
    PathLookup,
    Candidate(usize),
    Override,
    OverrideCheck(String),
    Found(String),
    NotFound,
}

/// The search for the inspection tool: a sequence of questions whose answers
/// decide where the binary is, or that it is nowhere.
pub struct ToolSearch {
    stage: Stage,
}

/// The common install location with the given index.
fn candidate(index: usize) -> (path: &'static str)
    requires
        index < CANDIDATE_COUNT,
    ensures
        path@ == candidate_path(index as int),
{
    if index == 0 {
        "/usr/bin/ffprobe"
    } else if index == 1 {
        "/usr/local/bin/ffprobe"
    } else if index == 2 {
        "/opt/homebrew/bin/ffprobe"
    } else {
        "C:\\Program Files\\ffmpeg\\bin\\ffprobe.exe"
    }
}

impl View for ToolSearch {
    type V = SearchModel;

    closed spec fn view(&self) -> SearchModel {
        match self.stage {
            Stage::PathLookup => SearchModel::PathLookup,
            Stage::Candidate(index) => SearchModel::Candidate(index as nat),
            Stage::Override => SearchModel::Override,
            Stage::OverrideCheck(path) => SearchModel::OverrideCheck(path@),
            Stage::Found(path) => SearchModel::Found(path@),
            Stage::NotFound => SearchModel::NotFound,
        }
    }
}

impl ToolSearch {
    #[verifier::type_invariant]
    spec fn in_range(self) -> bool {
        self.stage matches Stage::Candidate(index) ==> index < CANDIDATE_COUNT
    }

    /// A search that has asked nothing yet.
    pub fn start() -> (search: ToolSearch)
        ensures
            search@ == SearchModel::PathLookup,
    {
        ToolSearch { stage: Stage::PathLookup }
    }

    /// The question to put next, or `None` once the search has finished.
    pub fn query(&self) -> (q: Option<ToolQuery>)
        ensures
            match q {
                Some(asked) => next_query(self@) == Some(asked@),
                None => next_query(self@) is None,
            },
    {
        proof {
            use_type_invariant(self);
        }
        match &self.stage {
            Stage::PathLookup => Some(ToolQuery::SearchPath(String::from_str(TOOL_NAME))),
            Stage::Candidate(index) => Some(
                ToolQuery::FileExists(String::from_str(candidate(*index))),
            ),
            Stage::Override => Some(ToolQuery::Environment(String::from_str(OVERRIDE_VARIABLE))),
            Stage::OverrideCheck(path) => Some(ToolQuery::FileExists(path.clone())),
            Stage::Found(_) => None,
            Stage::NotFound => None,
        }
    }

    /// Takes the answer to the question last asked and moves on. An answer
    /// given to a finished search changes nothing.
    pub fn answer(self, reply: ToolReply) -> (next: ToolSearch)
        ensures
            next@ == after_reply(self@, reply@),
    {
        proof {
            use_type_invariant(&self);
        }
        let stage = match self.stage {
            Stage::PathLookup => match reply {
                ToolReply::Found(path) => Stage::Found(path),
                ToolReply::Missing => Stage::Candidate(0),
            },
            Stage::Candidate(index) => match reply {
                ToolReply::Found(_) => Stage::Found(String::from_str(candidate(index))),
                ToolReply::Missing => if index + 1 < CANDIDATE_COUNT {
                    Stage::Candidate(index + 1)
                } else {
                    Stage::Override
                },
            },
            Stage::Override => match reply {
                ToolReply::Found(path) => Stage::OverrideCheck(path),
                ToolReply::Missing => Stage::NotFound,
            },
            Stage::OverrideCheck(path) => match reply {
                ToolReply::Found(_) => Stage::Found(path),
                ToolReply::Missing => Stage::NotFound,
            },
            Stage::Found(path) => Stage::Found(path),
            Stage::NotFound => Stage::NotFound,
        };
        ToolSearch { stage }
    }

    /// The outcome of a finished search: the path of the binary, or
    /// `ToolNotFound`. `None` while questions remain.
    pub fn ffprobe_path(&self) -> (r: Option<Result<String, MetadataError>>)
        ensures
            match self@ {
                SearchModel::Found(path) => r matches Some(Ok(found)) && found@ == path,
                SearchModel::NotFound => r == Some(
                    Err::<String, MetadataError>(MetadataError::ToolNotFound),
                ),
                _ => r is None,
            },
    {
        match &self.stage {
            Stage::Found(path) => Some(Ok(path.clone())),
            Stage::NotFound => Some(Err(MetadataError::ToolNotFound)),
            _ => None,
        }
    }
}

} // verus!
