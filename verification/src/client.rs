//! The client-side decisions: which filesystem events trigger an upload,
//! where the bytes are POSTed, and what is done with the response.
//!
//! The watch loop itself — subscribing to the directory, reading the
//! finished file, carrying the POST and the clipboard write — is I/O around
//! these decisions. No outcome of one file may stop the loop: every decision
//! here is total, and every failure ends in watching on.

use vstd::prelude::*;
use vstd::string::StringExecFns;

verus! {

/// The kind of one filesystem change notification, as the watcher reads it.
#[derive(Clone, Copy, Debug, PartialEq, Eq, Structural)]
pub enum WatchEventKind {
    /// A file was opened for writing and then closed: its write is final.
    WriteFinalized,
    /// A file came into being.
    Created,
    /// A write still in progress.
    Modified,
    /// Only metadata changed.
    MetadataChanged,
    /// A file went away.
    Removed,
    /// A file changed its name.
    Renamed,
    /// Anything else the platform reports.
    Other,
}

/// Only a finalized write triggers an upload; every other kind of event is
/// observed and discarded.
pub fn should_upload(kind: &WatchEventKind) -> (r: bool)
    ensures
        r == (*kind == WatchEventKind::WriteFinalized),
{
    match kind {
        WatchEventKind::WriteFinalized => true,
        _ => false,
    }
}

/// The endpoint one upload is POSTed to, under the configured instance URL.
pub fn upload_endpoint(instance_url: &str) -> (r: String)
    ensures
        r@ == instance_url@ + "/upload"@,
{
    let mut url = instance_url.to_owned();
    url.append("/upload");
    url
}

/// What the client does after one POST came back.
pub enum ClientAction {
    /// Place the public URL on the clipboard. A failing clipboard write is
    /// swallowed: it does not invalidate the finished upload.
    CopyToClipboard(String),
    /// Log and go on watching: the next event is processed as if this one
    /// had succeeded.
    ContinueWatching,
}

/// Decide on one finished POST: a success status makes the response body
/// the public URL bound for the clipboard; any other status or a transport
/// failure is logged and watching goes on. Every outcome continues the
/// loop — nothing here can stop it.
pub fn handle_upload_response(success: bool, body_text: String) -> (r: ClientAction)
    ensures
        success ==> r == ClientAction::CopyToClipboard(body_text),
        !success ==> r == ClientAction::ContinueWatching,
{
    if success {
        ClientAction::CopyToClipboard(body_text)
    } else {
        ClientAction::ContinueWatching
    }
}

} // verus!
