//! The output namer: derives where the MP3 goes from where the source is.
//!
//! The destination lies in the source's directory and is named after an
//! identifier. Under the timestamp policy the identifier is the local time
//! of the run; under the numeric policy it is the digits that the source's
//! file name starts with, or, where it starts with none, again the time.
//! Two runs within the same second get the same timestamp.

use vstd::prelude::*;
use vstd::string::StringExecFns;
use crate::clock::{ends_in_timestamp, local_time_text, TIMESTAMP_FORMAT};
use crate::paths::{file_stem, join, joined, parent_directory, parent_of, stem_of};
use crate::pattern::{capture_first_group, first_group};
use crate::text::opt_view;

verus! {

/// The leading run of digits of a file name; group 1 is the run.
pub const ID_PATTERN: &'static str = r"^(?<id>\d+)";

/// What every output file name starts with.
pub const NAME_PREFIX: &'static str = "Syntax_-_";

/// What every output file name ends with.
pub const NAME_SUFFIX: &'static str = ".mp3";

/// The directory used where the source path names none.
pub const CURRENT_DIRECTORY: &'static str = ".";

/// How the identifier of an output is chosen.
#[derive(Clone, Copy, Debug, PartialEq, Eq, Structural)]
pub enum NamingPolicy {
    /// Always the local time of the run.
    Timestamp,
    /// The leading digits of the source's file name; the local time of the
    /// run where there are none.
    NumericId,
}

/// Where a conversion writes its result, and the parts it was derived from.
#[derive(Clone, Debug, PartialEq, Eq)]
pub struct OutputDescriptor {
    /// The directory of the source, which is also that of the output.
    pub parent_dir: String,
    /// The source's file name without its extension.
    pub stream_id: String,
    /// The identifier that the output is named after.
    pub episode_id: String,
    /// The output's file name.
    pub file_name: String,
    /// The output's full path.
    pub path: String,
}

/// The file name of the output for an identifier.
pub open spec fn output_name(episode_id: Seq<char>) -> Seq<char> {
    NAME_PREFIX@ + episode_id + NAME_SUFFIX@
}

/// The identifier chosen for a source: under the numeric policy the leading
/// digits of its name where there are any, the timestamp in every other
/// case.
pub open spec fn chosen_identifier(
    policy: NamingPolicy,
    leading_digits: Option<Seq<char>>,
    timestamp: Seq<char>,
) -> Seq<char> {
    match (policy, leading_digits) {
        (NamingPolicy::NumericId, Some(digits)) => digits,
        _ => timestamp,
    }
}

/// The leading digits that a policy looks for in a file stem: none under
/// the timestamp policy, which does not look.
pub open spec fn wanted_digits(policy: NamingPolicy, stream_id: Seq<char>) -> Option<Seq<char>> {
    match policy {
        NamingPolicy::Timestamp => None,
        NamingPolicy::NumericId => first_group(ID_PATTERN@, stream_id),
    }
}

/// The directory chosen for the output: the source's, or the current one
/// where the source path names none.
pub open spec fn chosen_directory(parent: Option<Seq<char>>) -> Seq<char> {
    match parent {
        Some(directory) => directory,
        None => CURRENT_DIRECTORY@,
    }
}

/// Builds the output's file name from its identifier.
pub fn output_file_name(episode_id: &str) -> (name: String)
    ensures
        name@ == output_name(episode_id@),
{
    let mut name = String::from_str(NAME_PREFIX);
    name.append(episode_id);
    name.append(NAME_SUFFIX);
    name
}

/// Chooses the identifier, given the policy, what was found at the start of
/// the source's name, and the timestamp.
pub fn choose_identifier(
    policy: NamingPolicy,
    leading_digits: Option<String>,
    timestamp: String,
) -> (id: String)
    ensures
        id@ == chosen_identifier(policy, opt_view(leading_digits), timestamp@),
{
    match policy {
        NamingPolicy::Timestamp => timestamp,
        NamingPolicy::NumericId => match leading_digits {
            Some(digits) => digits,
            None => timestamp,
        },
    }
}

/// Chooses the output directory, given the parent that the source path
/// names, if any.
pub fn choose_directory(parent: Option<String>) -> (directory: String)
    ensures
        directory@ == chosen_directory(opt_view(parent)),
{
    match parent {
        Some(directory) => directory,
        None => String::from_str(CURRENT_DIRECTORY),
    }
}

/// The identifier for a source with the given file stem. Where the policy
/// finds leading digits they are the identifier, whatever the time;
/// otherwise the identifier is the local time of this call, which has the
/// shape of a timestamp whatever the time.
pub fn episode_identifier(stream_id: &str, policy: NamingPolicy) -> (id: String)
    ensures
        match wanted_digits(policy, stream_id@) {
            Some(digits) => id@ == digits,
            None => ends_in_timestamp(id@),
        },
{
    let leading_digits = match policy {
        NamingPolicy::Timestamp => None,
        NamingPolicy::NumericId => capture_first_group(ID_PATTERN, stream_id),
    };
    let timestamp = local_time_text(TIMESTAMP_FORMAT);
    choose_identifier(policy, leading_digits, timestamp)
}

/// Derives the output of a conversion from the path of its source: `None`
/// exactly where the platform finds no file name in the path.
///
/// The output is named after the identifier that the policy chooses for the
/// source's file stem, and lies in the source's directory, or in the
/// current one where the path names none.
pub fn describe_output(source_path: &str, policy: NamingPolicy) -> (r: Option<OutputDescriptor>)
    ensures
        r is Some <==> stem_of(source_path@) is Some,
        r matches Some(d) ==> {
            &&& Some(d.stream_id@) == stem_of(source_path@)
            &&& d.parent_dir@ == chosen_directory(parent_of(source_path@))
            &&& named_for(d, policy)
        },
{
    output_from_parts(file_stem(source_path), parent_directory(source_path), policy)
}

/// An output is named as the policy asks: after the leading digits of the
/// stream's identifier where the policy finds any, else after a timestamp;
/// and its path is that of its file name inside its directory.
pub open spec fn named_for(d: OutputDescriptor, policy: NamingPolicy) -> bool {
    &&& match wanted_digits(policy, d.stream_id@) {
        Some(digits) => d.episode_id@ == digits,
        None => ends_in_timestamp(d.episode_id@),
    }
    &&& d.file_name@ == output_name(d.episode_id@)
    &&& d.path@ == joined(d.parent_dir@, d.file_name@)
}

/// Derives the output of a conversion from the two parts that the platform
/// finds in the path of its source: the file stem, if the path has a file
/// name, and the parent directory, if the path names one.
///
/// There is an output exactly where there is a stem. The stem is the
/// stream's identifier as it came; the directory is the parent, or the
/// current one where there is none; the file is named after the identifier
/// that the policy chooses for the stem, and lies in that directory.
pub fn output_from_parts(
    stem: Option<String>,
    parent: Option<String>,
    policy: NamingPolicy,
) -> (r: Option<OutputDescriptor>)
    ensures
        r is Some <==> stem is Some,
        r matches Some(d) ==> {
            &&& d.stream_id@ == stem->0@
            &&& d.parent_dir@ == chosen_directory(opt_view(parent))
            &&& named_for(d, policy)
        },
{
    let stream_id = match stem {
        Some(stem) => stem,
        None => { return None; },
    };
    let parent_dir = choose_directory(parent);
    let episode_id = episode_identifier(stream_id.as_str(), policy);
    let file_name = output_file_name(episode_id.as_str());
    let path = join(parent_dir.as_str(), file_name.as_str());
    Some(OutputDescriptor { parent_dir, stream_id, episode_id, file_name, path })
}

} // verus!
