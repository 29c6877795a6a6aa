//! The resumable upload: negotiating a session with the remote API and
//! sending a file to it in chunks.
//!
//! The caller owns the file and the connection. An `UploadSession` tells it
//! what to do next (read a chunk, send it, or stop) and takes back what
//! came of it. Chunks go out strictly in order, each annotated with the
//! byte range it covers.
//!
//! Only the answer to the last chunk can end an upload well: a status of
//! 200 to 299 once every byte has been sent, with the response body as the
//! result. While bytes are left, 308, the protocol's "resume incomplete",
//! and 200 to 299 alike ask for the next chunk. Every other status ends the
//! upload with `UploadFailed`, as does 308 once nothing is left to send.

use vstd::prelude::*;
use vstd::string::StringExecFns;
use crate::text::{decimal, push_decimal};

verus! {

/// The endpoint at which an upload is initiated.
pub const INITIATION_URL: &'static str =
    "https://www.googleapis.com/upload/youtube/v3/videos?uploadType=resumable&part=snippet,status,contentDetails";

/// The category under which every upload is filed.
pub const CATEGORY_ID: &'static str = "22";

/// The content type of the initiation request.
pub const JSON_CONTENT_TYPE: &'static str = "application/json";

/// What the authorization header starts with; the access token follows.
pub const BEARER_PREFIX: &'static str = "Bearer ";

/// The most that one chunk carries: 5 MiB.
pub const CHUNK_SIZE: u64 = 5_242_880;

/// The name of the event under which upload progress is announced.
pub const PROGRESS_EVENT: &'static str = "youtube_progress";

/// The status with which the remote API asks for the next chunk.
pub const RESUME_INCOMPLETE: u16 = 308;

/// What a failed read is reported with where more bytes came back than were
/// asked for.
pub const OVERLONG_READ: &'static str = "read returned more bytes than the chunk holds";

/// The description of an upload, sent as JSON when the session is initiated:
/// `{snippet: {title, description, categoryId}, status: {privacyStatus}}`.
#[derive(Clone, Debug, PartialEq, Eq)]
pub struct UploadMetadata {
    pub title: String,
    pub description: String,
    pub category_id: String,
    pub privacy_status: String,
}

/// The one request that initiates an upload.
#[derive(Clone, Debug, PartialEq, Eq)]
pub struct InitiationRequest {
    pub url: String,
    pub authorization: String,
    pub content_type: String,
    pub metadata: UploadMetadata,
}

/// Why an upload did not run to its end.
#[derive(Clone, Debug, PartialEq, Eq)]
pub enum UploadError {
    /// The file could not be opened; holds the system's reason.
    FileOpenFailed(String),
    /// The file could not be read; holds the reason.
    FileReadFailed(String),
    /// A request did not get through; holds the reason.
    TransportError(String),
    /// The initiation was answered with a status outside 200..=299.
    AuthRejected { status: u16, body: String },
    /// The initiation succeeded, but the answer names no session.
    MissingSessionUrl,
    /// The file ended before all of it was sent.
    UploadIncomplete { bytes_sent: u64, total_bytes: u64 },
    /// A chunk was answered with a status that ends the upload.
    UploadFailed { status: u16, body: String },
}

/// What the answer to the initiation request says of the session's target
/// in its location header.
#[derive(Clone, Debug, PartialEq, Eq)]
pub enum LocationHeader {
    /// There is no such header.
    Absent,
    /// The header is there, but its value is no text; holds the reason.
    Unreadable(String),
    /// The value of the header.
    Present(String),
}

/// What the caller of a session is to do next.
#[derive(Debug, PartialEq, Eq)]
pub enum UploadAction {
    /// Read up to `max_len` bytes of the file, from `offset` on.
    ReadChunk { offset: u64, max_len: u64 },
    /// Send the `len` bytes just read, with this `Content-Range` header.
    PutChunk { content_range: String, offset: u64, len: u64 },
    /// Stop: the upload has ended with this result.
    Finish(Result<String, UploadError>),
}

/// Where a session stands between two actions.
#[derive(Debug, PartialEq, Eq)]
pub enum Phase {
    /// The next chunk is to be read.
    Reading,
    /// A chunk of this many bytes has been read and is to be sent.
    Sending(u64),
    /// The upload has ended.
    Finished(Result<String, UploadError>),
}

/// One attempt to upload one file: the target, the size of the file, and how
/// much of it has been sent.
#[derive(Debug, PartialEq, Eq)]
pub struct UploadSession {
    upload_url: String,
    total_bytes: u64,
    bytes_sent: u64,
    phase: Phase,
}

/// A status of 200 to 299.
pub open spec fn is_success(status: u16) -> bool {
    200 <= status < 300
}

/// The `Content-Range` header of the chunk that covers the bytes from
/// `start` to `end`, both included, of a file of `total` bytes.
pub open spec fn content_range(start: nat, end: nat, total: nat) -> Seq<char> {
    "bytes "@ + decimal(start) + "-"@ + decimal(end) + "/"@ + decimal(total)
}

/// The percentage of `total` that `sent` comes to, rounded down.
pub open spec fn upload_percent(sent: nat, total: nat) -> nat
    recommends
        total > 0,
{
    sent * 100 / total
}

/// The most that the next chunk carries: a full chunk, or what is left of
/// the file if that is less.
pub open spec fn chunk_limit(sent: nat, total: nat) -> nat {
    if total - sent < CHUNK_SIZE {
        (total - sent) as nat
    } else {
        CHUNK_SIZE as nat
    }
}

/// Where a session for a file of `total` bytes starts out: there is nothing
/// to send of an empty file, so its upload ends at once, incomplete.
pub open spec fn initial_phase(total: u64) -> Phase {
    if total == 0 {
        Phase::Finished(Err(UploadError::UploadIncomplete { bytes_sent: 0, total_bytes: 0 }))
    } else {
        Phase::Reading
    }
}

/// Where a session stands after the response to a chunk, given how much has
/// been sent with that chunk: the upload has succeeded where the last chunk
/// is answered with success; it goes on where bytes are left and the answer
/// is success or "resume incomplete"; it has failed in every other case.
pub open spec fn phase_after_response(sent: nat, total: nat, status: u16, body: String) -> Phase {
    if is_success(status) && sent == total {
        Phase::Finished(Ok(body))
    } else if (status == RESUME_INCOMPLETE || is_success(status)) && sent < total {
        Phase::Reading
    } else {
        Phase::Finished(Err(UploadError::UploadFailed { status, body }))
    }
}

/// The message shown for each error.
pub open spec fn upload_error_text(error: UploadError) -> Seq<char> {
    match error {
        UploadError::FileOpenFailed(reason) => reason@,
        UploadError::FileReadFailed(reason) => reason@,
        UploadError::TransportError(reason) => reason@,
        UploadError::AuthRejected { status, body } => "Failed to initiate upload: Status: "@
            + decimal(status as nat) + ", Body: "@ + body@,
        UploadError::MissingSessionUrl => "No upload URL received"@,
        UploadError::UploadIncomplete { bytes_sent, total_bytes } => "Upload failed: "@ + decimal(
            bytes_sent as nat,
        ) + " of "@ + decimal(total_bytes as nat) + " bytes sent"@,
        UploadError::UploadFailed { status, body } => "Upload failed: Status: "@ + decimal(
            status as nat,
        ) + ", Body: "@ + body@,
    }
}

impl UploadError {
    /// The error as a message for the user.
    pub fn message(&self) -> (text: String)
        ensures
            text@ == upload_error_text(*self),
    {
        match self {
            UploadError::FileOpenFailed(reason) => reason.clone(),
            UploadError::FileReadFailed(reason) => reason.clone(),
            UploadError::TransportError(reason) => reason.clone(),
            UploadError::AuthRejected { status, body } => {
                let mut text = String::from_str("Failed to initiate upload: Status: ");
                push_decimal(&mut text, *status as u64);
                text.append(", Body: ");
                text.append(body.as_str());
                text
            },
            UploadError::MissingSessionUrl => String::from_str("No upload URL received"),
            UploadError::UploadIncomplete { bytes_sent, total_bytes } => {
                let mut text = String::from_str("Upload failed: ");
                push_decimal(&mut text, *bytes_sent);
                text.append(" of ");
                push_decimal(&mut text, *total_bytes);
                text.append(" bytes sent");
                text
            },
            UploadError::UploadFailed { status, body } => {
                let mut text = String::from_str("Upload failed: Status: ");
                push_decimal(&mut text, *status as u64);
                text.append(", Body: ");
                text.append(body.as_str());
                text
            },
        }
    }

    /// A copy of the error.
    pub fn duplicate(&self) -> (copy: UploadError)
        ensures
            copy == *self,
    {
        match self {
            UploadError::FileOpenFailed(reason) => UploadError::FileOpenFailed(reason.clone()),
            UploadError::FileReadFailed(reason) => UploadError::FileReadFailed(reason.clone()),
            UploadError::TransportError(reason) => UploadError::TransportError(reason.clone()),
            UploadError::AuthRejected { status, body } => UploadError::AuthRejected {
                status: *status,
                body: body.clone(),
            },
            UploadError::MissingSessionUrl => UploadError::MissingSessionUrl,
            UploadError::UploadIncomplete { bytes_sent, total_bytes } => {
                UploadError::UploadIncomplete { bytes_sent: *bytes_sent, total_bytes: *total_bytes }
            },
            UploadError::UploadFailed { status, body } => UploadError::UploadFailed {
                status: *status,
                body: body.clone(),
            },
        }
    }
}

/// Tells whether a status is one of 200 to 299.
pub fn status_is_success(status: u16) -> (r: bool)
    ensures
        r == is_success(status),
{
    200 <= status && status < 300
}

/// Builds the request that initiates an upload with the given title,
/// description and visibility, authorized by the given access token.
pub fn initiation_request(
    title: &str,
    description: &str,
    privacy_status: &str,
    access_token: &str,
) -> (request: InitiationRequest)
    ensures
        request.url@ == INITIATION_URL@,
        request.authorization@ == BEARER_PREFIX@ + access_token@,
        request.content_type@ == JSON_CONTENT_TYPE@,
        request.metadata.title@ == title@,
        request.metadata.description@ == description@,
        request.metadata.category_id@ == CATEGORY_ID@,
        request.metadata.privacy_status@ == privacy_status@,
{
    let mut authorization = String::from_str(BEARER_PREFIX);
    authorization.append(access_token);
    InitiationRequest {
        url: String::from_str(INITIATION_URL),
        authorization,
        content_type: String::from_str(JSON_CONTENT_TYPE),
        metadata: UploadMetadata {
            title: String::from_str(title),
            description: String::from_str(description),
            category_id: String::from_str(CATEGORY_ID),
            privacy_status: String::from_str(privacy_status),
        },
    }
}

/// Builds the `Content-Range` header of a chunk.
pub fn content_range_header(start: u64, end: u64, total: u64) -> (header: String)
    ensures
        header@ == content_range(start as nat, end as nat, total as nat),
{
    let mut header = String::from_str("bytes ");
    push_decimal(&mut header, start);
    header.append("-");
    push_decimal(&mut header, end);
    header.append("/");
    push_decimal(&mut header, total);
    header
}

/// Computes the percentage of `total` that `sent` comes to.
pub fn percent_sent(sent: u64, total: u64) -> (percent: u32)
    requires
        0 < total,
        sent <= total,
    ensures
        percent == upload_percent(sent as nat, total as nat),
        percent <= 100,
{
    let scaled: u128 = (sent as u128) * 100u128;
    assert(scaled / (total as u128) <= 100) by (nonlinear_arith)
        requires
            scaled == sent * 100,
            sent <= total,
            0 < total,
    ;
    (scaled / (total as u128)) as u32
}

impl UploadSession {
    #[verifier::type_invariant]
    spec fn consistent(self) -> bool {
        &&& self.bytes_sent <= self.total_bytes
        &&& self.phase is Reading ==> self.bytes_sent < self.total_bytes
        &&& self.phase matches Phase::Sending(len) ==> 0 < len <= chunk_limit(
            self.bytes_sent as nat,
            self.total_bytes as nat,
        )
    }

    /// The target that the chunks are sent to.
    pub closed spec fn url(self) -> Seq<char> {
        self.upload_url@
    }

    /// The size of the file.
    pub closed spec fn total(self) -> nat {
        self.total_bytes as nat
    }

    /// How much of the file has been sent.
    pub closed spec fn sent(self) -> nat {
        self.bytes_sent as nat
    }

    /// Where the session stands.
    pub closed spec fn phase(self) -> Phase {
        self.phase
    }

    /// What holds of every session: never more is sent than the file has; a
    /// chunk is only read while bytes are left; a chunk to be sent is not
    /// empty and lies within both the chunk size and the file.
    pub open spec fn well_formed(self) -> bool {
        &&& self.sent() <= self.total()
        &&& self.phase() is Reading ==> self.sent() < self.total()
        &&& self.phase() matches Phase::Sending(len) ==> 0 < len <= chunk_limit(
            self.sent(),
            self.total(),
        )
    }

    /// A session that sends a file of `total_bytes` bytes to `upload_url`,
    /// with nothing sent yet.
    pub fn new(upload_url: String, total_bytes: u64) -> (session: UploadSession)
        ensures
            session.url() == upload_url@,
            session.total() == total_bytes,
            session.sent() == 0,
            session.phase() == initial_phase(total_bytes),
            session.well_formed(),
    {
        let phase = if total_bytes == 0 {
            Phase::Finished(Err(UploadError::UploadIncomplete { bytes_sent: 0, total_bytes: 0 }))
        } else {
            Phase::Reading
        };
        UploadSession { upload_url, total_bytes, bytes_sent: 0, phase }
    }

    /// The target that the chunks are sent to.
    pub fn upload_url(&self) -> (url: &str)
        ensures
            url@ == self.url(),
    {
        self.upload_url.as_str()
    }

    /// The size of the file.
    pub fn total_bytes(&self) -> (total: u64)
        ensures
            total == self.total(),
    {
        self.total_bytes
    }

    /// How much of the file has been sent, which is never more than it has.
    pub fn bytes_sent(&self) -> (sent: u64)
        ensures
            sent == self.sent(),
            sent <= self.total(),
    {
        proof {
            use_type_invariant(self);
        }
        self.bytes_sent
    }

    /// What the caller is to do next: read a chunk of at most the chunk size
    /// and no more than is left of the file; send the chunk just read, with
    /// the range it covers, which starts where the last one ended; or stop.
    pub fn action(&self) -> (action: UploadAction)
        ensures
            self.well_formed(),
            match self.phase() {
                Phase::Reading => action == (UploadAction::ReadChunk {
                    offset: self.sent() as u64,
                    max_len: chunk_limit(self.sent(), self.total()) as u64,
                }),
                Phase::Sending(chunk) => action matches UploadAction::PutChunk {
                    content_range: header,
                    offset,
                    len,
                } && header@ == content_range(
                    self.sent(),
                    (self.sent() + chunk - 1) as nat,
                    self.total(),
                ) && offset == self.sent() && len == chunk,
                Phase::Finished(result) => action == UploadAction::Finish(result),
            },
    {
        proof {
            use_type_invariant(self);
        }
        match &self.phase {
            Phase::Reading => {
                let left = self.total_bytes - self.bytes_sent;
                let max_len = if left < CHUNK_SIZE { left } else { CHUNK_SIZE };
                UploadAction::ReadChunk { offset: self.bytes_sent, max_len }
            },
            Phase::Sending(chunk) => {
                let end = self.bytes_sent + (*chunk - 1);
                UploadAction::PutChunk {
                    content_range: content_range_header(self.bytes_sent, end, self.total_bytes),
                    offset: self.bytes_sent,
                    len: *chunk,
                }
            },
            Phase::Finished(result) => match result {
                Ok(body) => UploadAction::Finish(Ok(body.clone())),
                Err(error) => UploadAction::Finish(Err(error.duplicate())),
            },
        }
    }

    /// Takes the number of bytes that reading the chunk gave. A read of
    /// nothing means that the file has ended early: the upload ends,
    /// incomplete. A read of more than was asked for is a failed read. Any
    /// other read is the chunk to send. Outside the reading phase the call
    /// changes nothing.
    pub fn on_read(self, bytes_read: u64) -> (next: UploadSession)
        ensures
            next.well_formed(),
            next.url() == self.url(),
            next.total() == self.total(),
            next.sent() == self.sent(),
            match self.phase() {
                Phase::Reading => if bytes_read == 0 {
                    next.phase() == Phase::Finished(
                        Err(
                            UploadError::UploadIncomplete {
                                bytes_sent: self.sent() as u64,
                                total_bytes: self.total() as u64,
                            },
                        ),
                    )
                } else if bytes_read > chunk_limit(self.sent(), self.total()) {
                    next.phase() matches Phase::Finished(Err(UploadError::FileReadFailed(reason)))
                        && reason@ == OVERLONG_READ@
                } else {
                    next.phase() == Phase::Sending(bytes_read)
                },
                _ => next.phase() == self.phase(),
            },
    {
        proof {
            use_type_invariant(&self);
        }
        let UploadSession { upload_url, total_bytes, bytes_sent, phase } = self;
        let phase = match phase {
            Phase::Reading => {
                let left = total_bytes - bytes_sent;
                let max_len = if left < CHUNK_SIZE { left } else { CHUNK_SIZE };
                if bytes_read == 0 {
                    Phase::Finished(Err(UploadError::UploadIncomplete { bytes_sent, total_bytes }))
                } else if bytes_read > max_len {
                    Phase::Finished(
                        Err(UploadError::FileReadFailed(String::from_str(OVERLONG_READ))),
                    )
                } else {
                    Phase::Sending(bytes_read)
                }
            },
            other => other,
        };
        UploadSession { upload_url, total_bytes, bytes_sent, phase }
    }

    /// Takes the response to the chunk just sent. The chunk counts as sent
    /// whatever the status, and the percentage of the file sent so far is
    /// returned for the listener; then the status decides how the upload
    /// goes on. Outside the sending phase the call changes nothing and
    /// returns no percentage.
    pub fn on_response(self, status: u16, body: String) -> (r: (UploadSession, Option<u32>))
        ensures
            r.0.well_formed(),
            r.0.url() == self.url(),
            r.0.total() == self.total(),
            match self.phase() {
                Phase::Sending(chunk) => {
                    &&& r.0.sent() == self.sent() + chunk
                    &&& r.1 == Some(upload_percent(r.0.sent(), self.total()) as u32)
                    &&& r.0.phase() == phase_after_response(r.0.sent(), self.total(), status, body)
                },
                _ => r.0.sent() == self.sent() && r.0.phase() == self.phase() && r.1 is None,
            },
    {
        proof {
            use_type_invariant(&self);
        }
        let UploadSession { upload_url, total_bytes, bytes_sent, phase } = self;
        match phase {
            Phase::Sending(chunk) => {
                let sent = bytes_sent + chunk;
                let percent = percent_sent(sent, total_bytes);
                let success = status_is_success(status);
                let phase = if success && sent == total_bytes {
                    Phase::Finished(Ok(body))
                } else if (status == RESUME_INCOMPLETE || success) && sent < total_bytes {
                    Phase::Reading
                } else {
                    Phase::Finished(Err(UploadError::UploadFailed { status, body }))
                };
                (UploadSession { upload_url, total_bytes, bytes_sent: sent, phase }, Some(percent))
            },
            other => (UploadSession { upload_url, total_bytes, bytes_sent, phase: other }, None),
        }
    }
}

/// Reads the target of the session out of the answer to the initiation
/// request. A status outside 200..=299 is a rejection, reported with the
/// status and the body as they came, whatever the header. A success that
/// names no target in its location header is `MissingSessionUrl`; one whose
/// header cannot be read is a `TransportError` with the reason.
pub fn negotiate_session(status: u16, location: LocationHeader, body: String) -> (r: Result<
    String,
    UploadError,
>)
    ensures
        r == if !is_success(status) {
            Err::<String, UploadError>(UploadError::AuthRejected { status, body })
        } else {
            match location {
                LocationHeader::Present(url) => Ok(url),
                LocationHeader::Absent => Err(UploadError::MissingSessionUrl),
                LocationHeader::Unreadable(reason) => Err(UploadError::TransportError(reason)),
            }
        },
{
    if !status_is_success(status) {
        return Err(UploadError::AuthRejected { status, body });
    }
    match location {
        LocationHeader::Present(url) => Ok(url),
        LocationHeader::Absent => Err(UploadError::MissingSessionUrl),
        LocationHeader::Unreadable(reason) => Err(UploadError::TransportError(reason)),
    }
}

/// How much of a file of `total` bytes has been sent after `chunks` chunks,
/// where every read gives as much as it may.
pub open spec fn sent_after(chunks: nat, total: nat) -> nat
    decreases chunks,
{
    if chunks == 0 {
        0
    } else {
        let before = sent_after((chunks - 1) as nat, total);
        before + chunk_limit(before, total)
    }
}

/// The number of chunks that a file of `total` bytes takes: its size over
/// the chunk size, rounded up.
pub open spec fn chunks_needed(total: nat) -> nat {
    ((total + CHUNK_SIZE - 1) / (CHUNK_SIZE as int)) as nat
}

/// Full chunks cover a file from its start, without gap or overlap: after
/// any number of them, that many chunk sizes have been sent, or all of the
/// file where that is less. So the file is through after exactly
/// `chunks_needed` chunks and not before.
pub proof fn lemma_full_chunks_cover(chunks: nat, total: nat)
    ensures
        sent_after(chunks, total) == if chunks * CHUNK_SIZE < total {
            chunks * CHUNK_SIZE
        } else {
            total as int
        },
        chunks >= chunks_needed(total) <==> sent_after(chunks, total) == total,
    decreases chunks,
{
    if chunks > 0 {
        lemma_full_chunks_cover((chunks - 1) as nat, total);
    }
}

/// The more of a file is sent, the higher the percentage announced, which
/// never exceeds 100.
pub proof fn lemma_upload_percent_climbs(earlier: nat, later: nat, total: nat)
    requires
        earlier <= later <= total,
        0 < total,
    ensures
        upload_percent(earlier, total) <= upload_percent(later, total) <= 100,
        upload_percent(total, total) == 100,
{
    assert(earlier * 100 / total <= later * 100 / total <= 100 && total * 100 / total == 100)
        by (nonlinear_arith)
        requires
            earlier <= later <= total,
            0 < total,
    ;
}

} // verus!
