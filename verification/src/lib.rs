//! Core of a media-to-MP3 conversion and publishing tool: the rules for
//! locating the inspection tool, resolving a duration, tracking transcode
//! progress, naming the output and driving a chunked resumable upload.
//!
//! Everything here is decision logic with machine-checked contracts.
//! Spawning processes, reading files and talking to the network are left to
//! the caller, which feeds the outcomes back in as plain values. The few
//! calls that leave the crate (pattern matching, the clock, path syntax,
//! UTF-8 decoding) are each behind one small function whose contract is
//! taken on trust and says so.

pub mod clock;
pub mod duration;
pub mod output;
pub mod paths;
pub mod pattern;
pub mod probe;
pub mod text;
pub mod timecode;
pub mod transcode;
pub mod upload;
