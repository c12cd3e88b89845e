//! What can go wrong while events are written and delivered.

use vstd::prelude::*;

use crate::text::join;

verus! {

/// The operation that failed.
#[derive(Debug, Clone, Copy, PartialEq, Eq, Structural)]
pub enum Failure {
    SerializeEvent,
    CreateDirectory,
    SerializeLogEntry,
    OpenLog,
    WriteLog,
    FlushLog,
    SerializeState,
    SerializeSequence,
    CreateTemp,
    WriteTemp,
    FlushTemp,
    SyncTemp,
    RenameTemp,
    DeliverWebhook,
    CreateClient,
    SerializePayload,
    FormatTimestamp,
    InvalidKey,
    ReadSequence,
    ParseSequence,
    SequenceExhausted,
}

/// What is said of a failure on top of its cause. `path` is the file or directory that it is
/// about, `destination` the file that a rename was to replace. Nothing is said where the cause
/// stands alone.
pub open spec fn failure_context(
    failure: Failure,
    path: Seq<char>,
    destination: Seq<char>,
) -> Option<Seq<char>> {
    match failure {
        Failure::SerializeEvent => Some("Failed to serialize plan event"@),
        Failure::CreateDirectory => Some("Failed to create directory "@ + path),
        Failure::SerializeLogEntry => Some("Failed to serialize event for log"@),
        Failure::OpenLog => Some("Failed to open event log "@ + path),
        Failure::WriteLog => Some("Failed to write to event log "@ + path),
        Failure::FlushLog => Some("Failed to flush event log "@ + path),
        Failure::SerializeState => Some("Failed to serialize plan state"@),
        Failure::SerializeSequence => None,
        Failure::CreateTemp => Some("Failed to create temporary file "@ + path),
        Failure::WriteTemp => Some("Failed to write to temporary file "@ + path),
        Failure::FlushTemp => Some("Failed to flush temporary file "@ + path),
        Failure::SyncTemp => Some("Failed to fsync temporary file "@ + path),
        Failure::RenameTemp => Some("Failed to rename "@ + path + " to "@ + destination),
        Failure::DeliverWebhook => Some("Failed to deliver webhook"@),
        Failure::CreateClient => Some("Failed to create HTTP client"@),
        Failure::SerializePayload => Some("Failed to serialize webhook payload"@),
        Failure::FormatTimestamp => Some("Failed to format timestamp"@),
        Failure::InvalidKey => Some("Invalid HMAC key"@),
        Failure::ReadSequence => Some("Failed to read sequence from "@ + path),
        Failure::ParseSequence => Some("Failed to parse sequence metadata"@),
        Failure::SequenceExhausted => Some("No sequence number is left"@),
    }
}

impl Failure {
    /// What is said of the failure on top of its cause.
    pub fn context(self, path: &str, destination: &str) -> (r: Option<String>)
        ensures
            match r {
                Some(t) => failure_context(self, path@, destination@) == Some(t@),
                None => failure_context(self, path@, destination@) is None,
            },
    {
        match self {
            Failure::SerializeEvent => Some("Failed to serialize plan event".to_owned()),
            Failure::CreateDirectory => Some(join("Failed to create directory ", path)),
            Failure::SerializeLogEntry => Some("Failed to serialize event for log".to_owned()),
            Failure::OpenLog => Some(join("Failed to open event log ", path)),
            Failure::WriteLog => Some(join("Failed to write to event log ", path)),
            Failure::FlushLog => Some(join("Failed to flush event log ", path)),
            Failure::SerializeState => Some("Failed to serialize plan state".to_owned()),
            Failure::SerializeSequence => None,
            Failure::CreateTemp => Some(join("Failed to create temporary file ", path)),
            Failure::WriteTemp => Some(join("Failed to write to temporary file ", path)),
            Failure::FlushTemp => Some(join("Failed to flush temporary file ", path)),
            Failure::SyncTemp => Some(join("Failed to fsync temporary file ", path)),
            Failure::RenameTemp => {
                let mut t = join("Failed to rename ", path);
                t.append(" to ");
                t.append(destination);
                Some(t)
            },
            Failure::DeliverWebhook => Some("Failed to deliver webhook".to_owned()),
            Failure::CreateClient => Some("Failed to create HTTP client".to_owned()),
            Failure::SerializePayload => Some("Failed to serialize webhook payload".to_owned()),
            Failure::FormatTimestamp => Some("Failed to format timestamp".to_owned()),
            Failure::InvalidKey => Some("Invalid HMAC key".to_owned()),
            Failure::ReadSequence => Some(join("Failed to read sequence from ", path)),
            Failure::ParseSequence => Some("Failed to parse sequence metadata".to_owned()),
            Failure::SequenceExhausted => Some("No sequence number is left".to_owned()),
        }
    }
}

/// The failure as a part of which another one is reported: whatever keeps a webhook from being
/// sent is a failure to deliver it.
pub open spec fn enclosing_failure(failure: Failure) -> Option<Failure> {
    match failure {
        Failure::CreateClient => Some(Failure::DeliverWebhook),
        Failure::SerializePayload => Some(Failure::DeliverWebhook),
        Failure::FormatTimestamp => Some(Failure::DeliverWebhook),
        Failure::InvalidKey => Some(Failure::DeliverWebhook),
        _ => None,
    }
}

impl Failure {
    /// The failure as a part of which this one is reported.
    pub fn enclosing(self) -> (r: Option<Failure>)
        ensures
            r == enclosing_failure(self),
    {
        match self {
            Failure::CreateClient | Failure::SerializePayload | Failure::FormatTimestamp
            | Failure::InvalidKey => Some(Failure::DeliverWebhook),
            _ => None,
        }
    }
}

/// What is said of each failure: the words, and the file that it is about.
pub proof fn failures_have_their_words(path: Seq<char>, to: Seq<char>)
    ensures
        failure_context(Failure::SerializeEvent, path, to) == Some("Failed to serialize plan event"@),
        failure_context(Failure::CreateDirectory, path, to) == Some(
            "Failed to create directory "@ + path,
        ),
        failure_context(Failure::SerializeLogEntry, path, to) == Some(
            "Failed to serialize event for log"@,
        ),
        failure_context(Failure::OpenLog, path, to) == Some("Failed to open event log "@ + path),
        failure_context(Failure::WriteLog, path, to) == Some("Failed to write to event log "@ + path),
        failure_context(Failure::FlushLog, path, to) == Some("Failed to flush event log "@ + path),
        failure_context(Failure::SerializeState, path, to) == Some("Failed to serialize plan state"@),
        failure_context(Failure::SerializeSequence, path, to) is None,
        failure_context(Failure::CreateTemp, path, to) == Some(
            "Failed to create temporary file "@ + path,
        ),
        failure_context(Failure::WriteTemp, path, to) == Some(
            "Failed to write to temporary file "@ + path,
        ),
        failure_context(Failure::FlushTemp, path, to) == Some(
            "Failed to flush temporary file "@ + path,
        ),
        failure_context(Failure::SyncTemp, path, to) == Some(
            "Failed to fsync temporary file "@ + path,
        ),
        failure_context(Failure::RenameTemp, path, to) == Some(
            "Failed to rename "@ + path + " to "@ + to,
        ),
        failure_context(Failure::DeliverWebhook, path, to) == Some("Failed to deliver webhook"@),
        failure_context(Failure::CreateClient, path, to) == Some("Failed to create HTTP client"@),
        failure_context(Failure::SerializePayload, path, to) == Some(
            "Failed to serialize webhook payload"@,
        ),
        failure_context(Failure::FormatTimestamp, path, to) == Some("Failed to format timestamp"@),
        failure_context(Failure::InvalidKey, path, to) == Some("Invalid HMAC key"@),
        failure_context(Failure::ReadSequence, path, to) == Some(
            "Failed to read sequence from "@ + path,
        ),
        failure_context(Failure::ParseSequence, path, to) == Some(
            "Failed to parse sequence metadata"@,
        ),
        failure_context(Failure::SequenceExhausted, path, to) == Some("No sequence number is left"@),
{
}

/// What keeps a webhook from being sent is reported as a failure to deliver it, and nothing else
/// is.
pub proof fn unsent_webhooks_are_undelivered(failure: Failure)
    ensures
        enclosing_failure(failure) == Some(Failure::DeliverWebhook) <==> failure
            == Failure::CreateClient || failure == Failure::SerializePayload || failure
            == Failure::FormatTimestamp || failure == Failure::InvalidKey,
        enclosing_failure(failure) matches Some(outer) ==> outer == Failure::DeliverWebhook,
{
}

} // verus!
